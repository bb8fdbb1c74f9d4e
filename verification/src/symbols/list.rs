//! List of symbols.
//!
//! The symbols are read from a text with one symbol on each line: the
//! address in hexadecimal digits, one space, then the name, which takes
//! the rest of the line. A line which is not made like that holds no
//! symbol and is left out.
use vstd::prelude::*;
use vstd::slice::*;
use vstd::string::StringSliceAdditionalSpecFns;

verus! {

/// The byte which ends a line.
pub const LINE_END: u8 = 10;

/// The byte which parts the address of a symbol from its name.
pub const SPACE: u8 = 32;

/// The value of the hexadecimal digit `byte`, if it is one.
pub open spec fn spec_hex_digit(byte: u8) -> Option<nat> {
    if 48 <= byte <= 57 {
        Some((byte - 48) as nat)
    } else if 97 <= byte <= 102 {
        Some((byte - 87) as nat)
    } else if 65 <= byte <= 70 {
        Some((byte - 55) as nat)
    } else {
        None
    }
}

/// The symbol of what is left of a line, `line`, when the `digits`
/// hexadecimal digits read so far have the value `value`.
///
/// There is a symbol when digits only come before the first space, at
/// least one of them, their value fits the machine word, and a name
/// follows the space.
pub open spec fn spec_read_symbol(line: Seq<u8>, value: nat, digits: nat) -> Option<
    (usize, Seq<u8>),
>
    decreases line.len(),
{
    if line.len() == 0 {
        None
    } else if line[0] == SPACE {
        if digits == 0 || line.len() == 1 {
            None
        } else {
            Some((value as usize, line.skip(1)))
        }
    } else {
        match spec_hex_digit(line[0]) {
            None => None,
            Some(digit) => if value * 16 + digit > usize::MAX {
                None
            } else {
                spec_read_symbol(line.skip(1), value * 16 + digit, digits + 1)
            },
        }
    }
}

/// The symbol which the line `line` holds, if it holds one: its address
/// and its name.
pub open spec fn spec_symbol_of_line(line: Seq<u8>) -> Option<(usize, Seq<u8>)> {
    spec_read_symbol(line, 0, 0)
}

/// The symbols of the lines of `text`, when `current` is what was read of
/// the line which is being read.
pub open spec fn spec_read_symbols(text: Seq<u8>, current: Seq<u8>) -> Seq<(usize, Seq<u8>)>
    decreases text.len(),
{
    if text.len() == 0 {
        spec_symbol_seq(current)
    } else if text[0] == LINE_END {
        spec_symbol_seq(current) + spec_read_symbols(text.skip(1), Seq::empty())
    } else {
        spec_read_symbols(text.skip(1), current.push(text[0]))
    }
}

/// The symbol of `line` as a list: with the symbol when the line holds
/// one, empty when it holds none.
pub open spec fn spec_symbol_seq(line: Seq<u8>) -> Seq<(usize, Seq<u8>)> {
    match spec_symbol_of_line(line) {
        Some(symbol) => seq![symbol],
        None => Seq::empty(),
    }
}

/// The symbols of the text `text`, by the order of their lines.
pub open spec fn spec_symbols(text: Seq<u8>) -> Seq<(usize, Seq<u8>)> {
    spec_read_symbols(text, Seq::empty())
}

/// Whether `symbols[index]` is the last of `symbols` whose address is no
/// larger than `virt_addr`.
pub open spec fn is_symbol_at(symbols: Seq<(usize, Seq<u8>)>, virt_addr: usize, index: int) -> bool {
    &&& 0 <= index < symbols.len()
    &&& symbols[index].0 <= virt_addr
    &&& forall|i: int| index < i < symbols.len() ==> (#[trigger] symbols[i]).0 > virt_addr
}

/// A symbol of the code: a virtual address and the name of what starts
/// there.
#[derive(Debug)]
pub struct CodeSymbol {
    m_virt_addr: usize,
    m_name: Vec<u8>,
}

impl CodeSymbol {
    /// The address and the name of the symbol.
    pub closed spec fn view(&self) -> (usize, Seq<u8>) {
        (self.m_virt_addr, self.m_name@)
    }

    /// Reads the symbol which the line `line` holds, `None` when it holds
    /// none.
    pub fn from_raw_line(line: &[u8]) -> (symbol: Option<CodeSymbol>)
        ensures
            match symbol {
                Some(symbol) => spec_symbol_of_line(line@) == Some(symbol@),
                None => spec_symbol_of_line(line@) is None,
            },
    {
        let mut value: usize = 0;
        let mut index: usize = 0;
        assert(line@.skip(0) == line@);
        while index < line.len()
            invariant
                index <= line@.len(),
                spec_read_symbol(line@.skip(index as int), value as nat, index as nat)
                    == spec_symbol_of_line(line@),
            decreases line@.len() - index,
        {
            let byte: u8 = line[index];
            let ghost rest = line@.skip(index as int);
            assert(rest[0] == byte);
            assert(rest.skip(1) == line@.skip(index + 1));
            if byte == SPACE {
                if index == 0 || index + 1 == line.len() {
                    return None;
                }
                let mut name: Vec<u8> = Vec::new();
                let mut position: usize = index + 1;
                while position < line.len()
                    invariant
                        index < position <= line@.len(),
                        name@ == line@.subrange(index + 1, position as int),
                    decreases line@.len() - position,
                {
                    name.push(line[position]);
                    assert(line@.subrange(index + 1, position + 1) == line@.subrange(
                        index + 1,
                        position as int,
                    ).push(line@[position as int]));
                    position = position + 1;
                }
                assert(name@ == rest.skip(1));
                return Some(CodeSymbol { m_virt_addr: value, m_name: name });
            }
            let digit: usize = match hex_digit(byte) {
                Some(digit) => digit,
                None => {
                    return None;
                },
            };
            if value > (usize::MAX - digit) / 16 {
                assert(value * 16 + digit > usize::MAX);
                return None;
            }
            assert(value * 16 + digit <= usize::MAX);
            value = value * 16 + digit;
            index = index + 1;
        }
        assert(line@.skip(index as int).len() == 0);
        None
    }

    /// Returns the virtual address of the symbol.
    pub fn virt_addr(&self) -> (virt_addr: usize)
        ensures
            virt_addr == self@.0,
    {
        self.m_virt_addr
    }

    /// Returns the bytes of the name of the symbol.
    pub fn name(&self) -> (name: &[u8])
        ensures
            name@ == self@.1,
    {
        self.m_name.as_slice()
    }
}

/// Returns the value of the hexadecimal digit `byte`, `None` when it is
/// no such digit.
pub fn hex_digit(byte: u8) -> (digit: Option<usize>)
    ensures
        match digit {
            Some(digit) => spec_hex_digit(byte) == Some(digit as nat) && digit < 16,
            None => spec_hex_digit(byte) is None,
        },
{
    if 48 <= byte && byte <= 57 {
        Some((byte - 48) as usize)
    } else if 97 <= byte && byte <= 102 {
        Some((byte - 87) as usize)
    } else if 65 <= byte && byte <= 70 {
        Some((byte - 55) as usize)
    } else {
        None
    }
}

/// Ordered list of code symbols.
#[derive(Debug)]
pub struct CodeSymbolsList {
    m_symbols: Vec<CodeSymbol>,
}

impl CodeSymbolsList {
    /// The symbols of the list, each with its address and its name.
    pub closed spec fn view(&self) -> Seq<(usize, Seq<u8>)> {
        self.m_symbols@.map_values(|symbol: CodeSymbol| symbol@)
    }

    /// Constructs an uninitialized `CodeSymbolsList`, which holds no
    /// symbol.
    pub fn new_uninitialized() -> (list: Self)
        ensures
            list@ == Seq::<(usize, Seq<u8>)>::empty(),
    {
        let list = Self { m_symbols: Vec::new() };
        assert(list@ =~= Seq::<(usize, Seq<u8>)>::empty());
        list
    }

    /// Constructs a `CodeSymbolsList` reading the newline-separated list
    /// of raw symbols: the symbols read take the place of those which the
    /// list held. Returns whether a symbol was read.
    pub fn load_from_raw(&mut self, raw_symbols: &str) -> (loaded: bool)
        ensures
            final(self)@ == spec_symbols(raw_symbols.spec_bytes()),
            loaded == (final(self)@.len() > 0),
    {
        let text = raw_symbols.as_bytes();
        let mut symbols: Vec<CodeSymbol> = Vec::new();
        let mut current: Vec<u8> = Vec::new();
        let mut index: usize = 0;
        let ghost mut found: Seq<(usize, Seq<u8>)> = Seq::empty();
        assert(text@.skip(0) == text@);
        while index < text.len()
            invariant
                index <= text@.len(),
                text@ == raw_symbols.spec_bytes(),
                found == symbols@.map_values(|symbol: CodeSymbol| symbol@),
                found + spec_read_symbols(text@.skip(index as int), current@) == spec_symbols(
                    text@,
                ),
            decreases text@.len() - index,
        {
            let byte: u8 = text[index];
            let ghost rest = text@.skip(index as int);
            let ghost line = current@;
            assert(rest[0] == byte);
            assert(rest.skip(1) == text@.skip(index + 1));
            if byte == LINE_END {
                let ghost tail = spec_read_symbols(rest.skip(1), Seq::empty());
                assert(spec_read_symbols(rest, line) == spec_symbol_seq(line) + tail);
                match CodeSymbol::from_raw_line(current.as_slice()) {
                    Some(symbol) => {
                        let ghost value = symbol@;
                        symbols.push(symbol);
                        proof {
                            assert(symbols@.map_values(|symbol: CodeSymbol| symbol@) =~= found.push(
                                value,
                            ));
                            assert(found.push(value) + tail == found + (seq![value] + tail));
                            found = found.push(value);
                        }
                    },
                    None => {
                        assert(found + (Seq::<(usize, Seq<u8>)>::empty() + tail) == found + tail);
                    },
                }
                current.clear();
            } else {
                current.push(byte);
                assert(spec_read_symbols(rest, line) == spec_read_symbols(
                    rest.skip(1),
                    line.push(byte),
                ));
            }
            index = index + 1;
        }
        assert(text@.skip(index as int).len() == 0);
        match CodeSymbol::from_raw_line(current.as_slice()) {
            Some(symbol) => {
                let ghost value = symbol@;
                symbols.push(symbol);
                proof {
                    assert(symbols@.map_values(|symbol: CodeSymbol| symbol@) =~= found.push(value));
                    assert(found.push(value) == found + seq![value]);
                }
            },
            None => {
                assert(found + Seq::<(usize, Seq<u8>)>::empty() == found);
            },
        }
        self.m_symbols = symbols;
        self.m_symbols.len() > 0
    }

    /// Returns the `CodeSymbol` for the given virtual address: the last
    /// symbol of the list whose address is no larger. Returns `None` when
    /// every symbol has a larger address.
    pub fn symbol_at(&self, virt_addr: usize) -> (symbol: Option<&CodeSymbol>)
        ensures
            match symbol {
                Some(symbol) => exists|index: int| #[trigger]
                    is_symbol_at(self@, virt_addr, index) && self@[index] == symbol@,
                None => forall|i: int| 0 <= i < self@.len() ==> (#[trigger] self@[i]).0
                    > virt_addr,
            },
    {
        let mut index: usize = self.m_symbols.len();
        while index > 0
            invariant
                index <= self.m_symbols@.len(),
                self@.len() == self.m_symbols@.len(),
                forall|i: int| index <= i < self@.len() ==> (#[trigger] self@[i]).0 > virt_addr,
            decreases index,
        {
            index = index - 1;
            let code_symbol = &self.m_symbols[index];
            assert(self@[index as int] == code_symbol@);
            if virt_addr >= code_symbol.virt_addr() {
                assert(is_symbol_at(self@, virt_addr, index as int));
                return Some(code_symbol);
            }
        }
        None
    }

    /// Returns the amount of the symbols of the list.
    pub fn len(&self) -> (len: usize)
        ensures
            len == self@.len(),
    {
        self.m_symbols.len()
    }
}

/// At most one symbol of a list is the symbol for an address.
pub proof fn lemma_symbol_at_unique(
    symbols: Seq<(usize, Seq<u8>)>,
    virt_addr: usize,
    first: int,
    second: int,
)
    requires
        is_symbol_at(symbols, virt_addr, first),
        is_symbol_at(symbols, virt_addr, second),
    ensures
        first == second,
{
    if first < second {
        assert(symbols[second].0 > virt_addr);
    }
    if second < first {
        assert(symbols[first].0 > virt_addr);
    }
}

} // verus!

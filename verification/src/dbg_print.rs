//! Debug printing support.
use vstd::prelude::*;
use vstd::slice::*;
use vstd::string::StringSliceAdditionalSpecFns;

verus! {

/// VT100 color code of the red.
pub const C_VT100_RED: usize = 31;

/// VT100 color code of the green.
pub const C_VT100_GREEN: usize = 32;

/// VT100 color code of the yellow.
pub const C_VT100_YELLOW: usize = 33;

/// VT100 color code of the magenta.
pub const C_VT100_MAGENTA: usize = 35;

/// VT100 color code of the white.
pub const C_VT100_WHITE: usize = 37;

/// The byte `byte` with an ASCII upper case letter turned to lower case.
pub open spec fn spec_ascii_lower(byte: u8) -> u8 {
    if 65 <= byte <= 90 {
        (byte + 32) as u8
    } else {
        byte
    }
}

/// Whether two byte strings are equal when the case of the ASCII letters
/// is ignored.
pub open spec fn spec_eq_ignore_ascii_case(first: Seq<u8>, second: Seq<u8>) -> bool {
    &&& first.len() == second.len()
    &&& forall|i: int|
        0 <= i < first.len() ==> spec_ascii_lower(first[i]) == spec_ascii_lower(second[i])
}

/// The bytes of `Error`.
pub open spec fn spec_name_error() -> Seq<u8> {
    seq![69u8, 114u8, 114u8, 111u8, 114u8]
}

/// The bytes of `Warning`.
pub open spec fn spec_name_warning() -> Seq<u8> {
    seq![87u8, 97u8, 114u8, 110u8, 105u8, 110u8, 103u8]
}

/// The bytes of `Info`.
pub open spec fn spec_name_info() -> Seq<u8> {
    seq![73u8, 110u8, 102u8, 111u8]
}

/// The bytes of `Debug`.
pub open spec fn spec_name_debug() -> Seq<u8> {
    seq![68u8, 101u8, 98u8, 117u8, 103u8]
}

/// The bytes of `Trace`.
pub open spec fn spec_name_trace() -> Seq<u8> {
    seq![84u8, 114u8, 97u8, 99u8, 101u8]
}

/// Enumerates the levels of the debug printing, the most severe first.
#[derive(Debug, Copy, Clone, PartialEq, Eq, Structural, PartialOrd, Ord)]
pub enum DbgLevel {
    Error,
    Warn,
    Info,
    Debug,
    Trace,
}

impl DbgLevel {
    /// The level which the bytes `name` name, whatever the case of their
    /// letters: `Error`, `Warning`, `Info`, `Debug` or `Trace`.
    pub open spec fn spec_from_name(name: Seq<u8>) -> Option<DbgLevel> {
        if spec_eq_ignore_ascii_case(name, spec_name_error()) {
            Some(DbgLevel::Error)
        } else if spec_eq_ignore_ascii_case(name, spec_name_warning()) {
            Some(DbgLevel::Warn)
        } else if spec_eq_ignore_ascii_case(name, spec_name_info()) {
            Some(DbgLevel::Info)
        } else if spec_eq_ignore_ascii_case(name, spec_name_debug()) {
            Some(DbgLevel::Debug)
        } else if spec_eq_ignore_ascii_case(name, spec_name_trace()) {
            Some(DbgLevel::Trace)
        } else {
            None
        }
    }

    /// The position of the level in the order of the levels.
    pub open spec fn spec_rank(self) -> int {
        match self {
            Self::Error => 0,
            Self::Warn => 1,
            Self::Info => 2,
            Self::Debug => 3,
            Self::Trace => 4,
        }
    }

    /// Returns the VT100 color code for the current variant.
    pub fn as_vt100_color(&self) -> (color: usize)
        ensures
            color == match *self {
                Self::Error => C_VT100_RED,
                Self::Warn => C_VT100_YELLOW,
                Self::Info => C_VT100_GREEN,
                Self::Debug => C_VT100_MAGENTA,
                Self::Trace => C_VT100_WHITE,
            },
    {
        match self {
            Self::Error => C_VT100_RED,
            Self::Warn => C_VT100_YELLOW,
            Self::Info => C_VT100_GREEN,
            Self::Debug => C_VT100_MAGENTA,
            Self::Trace => C_VT100_WHITE,
        }
    }

    /// Returns the level which `str_dbg_level` names, whatever the case
    /// of its letters, `None` when it names no level.
    pub fn from_name(str_dbg_level: &str) -> (level: Option<DbgLevel>)
        ensures
            level == Self::spec_from_name(str_dbg_level.spec_bytes()),
    {
        let name = str_dbg_level.as_bytes();
        let error = vec![69u8, 114u8, 114u8, 111u8, 114u8];
        let warning = vec![87u8, 97u8, 114u8, 110u8, 105u8, 110u8, 103u8];
        let info = vec![73u8, 110u8, 102u8, 111u8];
        let debug = vec![68u8, 101u8, 98u8, 117u8, 103u8];
        let trace = vec![84u8, 114u8, 97u8, 99u8, 101u8];
        if eq_ignore_ascii_case(name, error.as_slice()) {
            Some(Self::Error)
        } else if eq_ignore_ascii_case(name, warning.as_slice()) {
            Some(Self::Warn)
        } else if eq_ignore_ascii_case(name, info.as_slice()) {
            Some(Self::Info)
        } else if eq_ignore_ascii_case(name, debug.as_slice()) {
            Some(Self::Debug)
        } else if eq_ignore_ascii_case(name, trace.as_slice()) {
            Some(Self::Trace)
        } else {
            None
        }
    }

    /// Returns the name of the level, as it is printed.
    pub fn name(&self) -> (name: &'static str)
        ensures
            name@ == match *self {
                Self::Error => "Error"@,
                Self::Warn => "Warning"@,
                Self::Info => "Info"@,
                Self::Debug => "Debug"@,
                Self::Trace => "Trace"@,
            },
    {
        match self {
            Self::Error => "Error",
            Self::Warn => "Warning",
            Self::Info => "Info",
            Self::Debug => "Debug",
            Self::Trace => "Trace",
        }
    }

    /// Returns whether a message of this level is printed when the most
    /// verbose level allowed is `max_level`.
    pub fn is_printed(&self, max_level: DbgLevel) -> (printed: bool)
        ensures
            printed == (self.spec_rank() <= max_level.spec_rank()),
    {
        self.rank() <= max_level.rank()
    }

    /// Returns the position of the level in the order of the levels.
    pub fn rank(&self) -> (rank: u8)
        ensures
            rank == self.spec_rank(),
    {
        match self {
            Self::Error => 0,
            Self::Warn => 1,
            Self::Info => 2,
            Self::Debug => 3,
            Self::Trace => 4,
        }
    }
}

/// Returns the byte with an ASCII upper case letter turned to lower case.
pub fn ascii_lower(byte: u8) -> (lower: u8)
    ensures
        lower == spec_ascii_lower(byte),
{
    if 65 <= byte && byte <= 90 {
        byte + 32
    } else {
        byte
    }
}

/// Returns whether two byte strings are equal when the case of the ASCII
/// letters is ignored.
pub fn eq_ignore_ascii_case(first: &[u8], second: &[u8]) -> (equal: bool)
    ensures
        equal == spec_eq_ignore_ascii_case(first@, second@),
{
    if first.len() != second.len() {
        return false;
    }
    let mut index: usize = 0;
    while index < first.len()
        invariant
            first@.len() == second@.len(),
            index <= first@.len(),
            forall|i: int|
                0 <= i < index ==> spec_ascii_lower(first@[i]) == spec_ascii_lower(second@[i]),
        decreases first@.len() - index,
    {
        if ascii_lower(first[index]) != ascii_lower(second[index]) {
            return false;
        }
        index = index + 1;
    }
    true
}

/// Returns the index of the UART device driver to print to, among the
/// `drivers_count` available ones: the one asked for with the command
/// line when there is a choice, else the first. Returns `None` when there
/// is no driver, and when the one asked for does not exist.
pub fn dbg_select_uart(drivers_count: usize, requested: Option<usize>) -> (selected: Option<usize>)
    ensures
        selected == if drivers_count == 0 {
            None
        } else if drivers_count > 1 && requested is Some {
            if requested->0 < drivers_count {
                requested
            } else {
                None
            }
        } else {
            Some(0usize)
        },
{
    if drivers_count == 0 {
        return None;
    }
    if drivers_count > 1 {
        if let Some(value) = requested {
            if value < drivers_count {
                return Some(value);
            } else {
                return None;
            }
        }
    }
    Some(0)
}

/// Sets a new `DbgLevel` and returns the previous one.
pub fn dbg_print_set_max_level(max_level: &mut DbgLevel, dbg_level: DbgLevel) -> (previous:
    DbgLevel)
    ensures
        previous == *old(max_level),
        *final(max_level) == dbg_level,
{
    let old_dbg_level = *max_level;
    *max_level = dbg_level;
    old_dbg_level
}

/// Sets a new `DbgLevel` from the given string value and returns the old
/// value if the given string slice is reducible to a one of the supported
/// `DbgLevel`s. The level stays as it is when it is not.
pub fn dbg_print_set_max_level_from_str(max_level: &mut DbgLevel, str_dbg_level: &str) -> (previous:
    Option<DbgLevel>)
    ensures
        match DbgLevel::spec_from_name(str_dbg_level.spec_bytes()) {
            Some(new_dbg_level) => previous == Some(*old(max_level)) && *final(max_level)
                == new_dbg_level,
            None => previous is None && *final(max_level) == *old(max_level),
        },
{
    if let Some(new_dbg_level) = DbgLevel::from_name(str_dbg_level) {
        Some(dbg_print_set_max_level(max_level, new_dbg_level))
    } else {
        None
    }
}

} // verus!

//! Path manager.
//!
//! A `Path` keeps a VFS path in normal form: consecutive separators,
//! self links and, as far as that is possible without asking the kernel,
//! parent links are removed when something is appended to it.
use vstd::prelude::*;
use vstd::slice::*;
use vstd::string::StringSliceAdditionalSpecFns;
use vstd::utf8::valid_utf8;
use crate::limit::VFS_PATH_LEN_MAX;
use crate::sys::call::KernCall;
use crate::sys::codes::KernPathFnId;
use crate::sys::fn_path::KernFnPath;

verus! {

/// The byte of the path separator, `/`.
pub const SEPARATOR: u8 = 47;

/// The byte of the dot, of which the self link `.` and the parent link
/// `..` are made.
pub const DOT: u8 = 46;

/// The bytes of the self link, `.`.
pub open spec fn spec_self_link() -> Seq<u8> {
    seq![DOT]
}

/// The bytes of the parent link, `..`.
pub open spec fn spec_parent_link() -> Seq<u8> {
    seq![DOT, DOT]
}

/// The components of `bytes` when `current` is what was read of the
/// component which is being read: `bytes` is split at the separators and
/// the empty pieces are left out.
pub open spec fn spec_split(bytes: Seq<u8>, current: Seq<u8>) -> Seq<Seq<u8>>
    decreases bytes.len(),
{
    if bytes.len() == 0 {
        if current.len() > 0 {
            seq![current]
        } else {
            Seq::empty()
        }
    } else if bytes[0] == SEPARATOR {
        if current.len() > 0 {
            seq![current] + spec_split(bytes.skip(1), Seq::empty())
        } else {
            spec_split(bytes.skip(1), Seq::empty())
        }
    } else {
        spec_split(bytes.skip(1), current.push(bytes[0]))
    }
}

/// The components of `bytes`: the non-empty pieces between the
/// separators.
pub open spec fn spec_components(bytes: Seq<u8>) -> Seq<Seq<u8>> {
    spec_split(bytes, Seq::empty())
}

/// Index of the last separator of `bytes`, or `-1` when there is none.
pub open spec fn spec_last_sep(bytes: Seq<u8>) -> int
    decreases bytes.len(),
{
    if bytes.len() == 0 {
        -1
    } else if bytes.last() == SEPARATOR {
        bytes.len() - 1
    } else {
        spec_last_sep(bytes.drop_last())
    }
}

/// What follows the last separator of `bytes`: the last component of a
/// path in normal form.
pub open spec fn spec_last_component(bytes: Seq<u8>) -> Seq<u8> {
    bytes.subrange(spec_last_sep(bytes) + 1, bytes.len() as int)
}

/// What a `Path` holds: the bytes of the path and whether it is
/// absolute.
pub struct PathData {
    /// The bytes of the path.
    pub bytes: Seq<u8>,
    /// Whether the path is absolute.
    pub absolute: bool,
}

/// Whether the bytes of `path` are laid out as a path: they fit the
/// length limit, end with a separator only when they are the lone
/// separator, hold no two separators in a row, and start with a
/// separator exactly when the path is absolute and not empty.
pub open spec fn path_laid_out(path: PathData) -> bool {
    &&& path.bytes.len() <= VFS_PATH_LEN_MAX
    &&& path.bytes.len() > 1 ==> path.bytes.last() != SEPARATOR
    &&& path.bytes.len() > 0 ==> (path.bytes[0] == SEPARATOR <==> path.absolute)
    &&& forall|i: int|
        0 <= i < path.bytes.len() - 1 ==> !(#[trigger] path.bytes[i] == SEPARATOR && path.bytes[i
            + 1] == SEPARATOR)
}

/// Whether `components` are the components of a resolved path: none is
/// a self link, and a parent link stands only in a relative path, with
/// parent links only before it.
pub open spec fn components_resolved(components: Seq<Seq<u8>>, absolute: bool) -> bool {
    &&& forall|k: int|
        0 <= k < components.len() ==> #[trigger] components[k] != spec_self_link()
    &&& forall|j: int, k: int|
        0 <= j <= k < components.len() && #[trigger] components[k] == spec_parent_link()
            ==> !absolute && #[trigger] components[j] == spec_parent_link()
}

/// Whether `path` is in normal form.
///
/// Its bytes are laid out as a path, see `path_laid_out`, and its
/// components are resolved, see `components_resolved`: it holds no empty
/// component and no self link, and parent links only as a leading run of
/// a relative path.
pub open spec fn path_wf(path: PathData) -> bool {
    &&& path_laid_out(path)
    &&& components_resolved(spec_components(path.bytes), path.absolute)
}

/// Whether every path on the way stays within the length limit when
/// `components` are appended to `path` one by one.
pub open spec fn spec_fits_all(path: PathData, components: Seq<Seq<u8>>) -> bool
    decreases components.len(),
{
    components.len() == 0 || (spec_apply(path, components[0]).bytes.len() <= VFS_PATH_LEN_MAX
        && spec_fits_all(spec_apply(path, components[0]), components.skip(1)))
}

/// The path to which the components of the raw path `raw` are appended:
/// the empty absolute path when the raw path starts with a separator,
/// else `path`.
pub open spec fn spec_append_start(path: PathData, raw: Seq<u8>) -> PathData {
    if raw.len() > 0 && raw[0] == SEPARATOR {
        PathData { bytes: Seq::empty(), absolute: true }
    } else {
        path
    }
}

/// Whether the raw path `raw` can be appended to `path`: the path stays
/// within the length limit with every component which is appended.
pub open spec fn spec_append_fits(path: PathData, raw: Seq<u8>) -> bool {
    raw == seq![SEPARATOR] || spec_fits_all(spec_append_start(path, raw), spec_components(raw))
}

/// Whether a parent link can take the last component of `path` away:
/// the path is not the empty relative path, and its last component is no
/// parent link.
pub open spec fn spec_may_pop_last(path: PathData) -> bool {
    (path.bytes.len() > 0 || path.absolute) && spec_last_component(path.bytes)
        != spec_parent_link()
}

/// `path` without its last component and without the separator before
/// it. A path without components stays as it is.
pub open spec fn spec_pop(path: PathData) -> PathData {
    if spec_last_component(path.bytes).len() == 0 {
        path
    } else if spec_last_sep(path.bytes) <= 0 {
        PathData { bytes: Seq::empty(), absolute: path.absolute }
    } else {
        PathData {
            bytes: path.bytes.subrange(0, spec_last_sep(path.bytes)),
            absolute: path.absolute,
        }
    }
}

/// `path` after its last component was taken away `count` times.
pub open spec fn spec_pop_many(path: PathData, count: nat) -> PathData
    decreases count,
{
    if count == 0 {
        path
    } else {
        spec_pop(spec_pop_many(path, (count - 1) as nat))
    }
}

/// Whether a separator has to go before a component which is appended to
/// `path`.
pub open spec fn spec_need_sep(path: PathData) -> bool {
    (path.bytes.len() == 0 && path.absolute) || (path.bytes.len() > 0 && path.bytes.last()
        != SEPARATOR)
}

/// `path` after the component `component` was appended to it: a self
/// link changes nothing, a parent link takes the last component away
/// when it can, everything else goes to the end, after a separator when
/// one is needed.
pub open spec fn spec_apply(path: PathData, component: Seq<u8>) -> PathData {
    if component == spec_self_link() {
        path
    } else if component == spec_parent_link() && spec_may_pop_last(path) {
        spec_pop(path)
    } else if spec_need_sep(path) {
        PathData { bytes: path.bytes.push(SEPARATOR) + component, absolute: path.absolute }
    } else {
        PathData { bytes: path.bytes + component, absolute: path.absolute }
    }
}

/// `path` after all of `components` were appended to it, in their order.
pub open spec fn spec_apply_all(path: PathData, components: Seq<Seq<u8>>) -> PathData
    decreases components.len(),
{
    if components.len() == 0 {
        path
    } else {
        spec_apply_all(spec_apply(path, components[0]), components.skip(1))
    }
}

/// `path` after the raw path `raw` was appended to it.
///
/// A raw path which starts with a separator is absolute and takes the
/// place of `path`. The lone separator gives the lone separator. In every
/// other case the components of the raw path are appended one by one.
pub open spec fn spec_append_raw(path: PathData, raw: Seq<u8>) -> PathData {
    let start = if raw.len() > 0 && raw[0] == SEPARATOR {
        PathData { bytes: Seq::empty(), absolute: true }
    } else {
        path
    };
    if raw == seq![SEPARATOR] {
        PathData { bytes: seq![SEPARATOR], absolute: true }
    } else {
        spec_apply_all(start, spec_components(raw))
    }
}

/// Manager of a VFS path.
#[derive(Debug)]
pub struct Path {
    m_buf: Vec<u8>,
    m_abs: bool,
}

impl Path {
    /// What the path holds.
    pub closed spec fn view(&self) -> PathData {
        PathData { bytes: self.m_buf@, absolute: self.m_abs }
    }

    /// The invariant of the path: it is in normal form.
    pub open spec fn wf(&self) -> bool {
        path_wf(self@)
    }

    /// Constructs the empty relative path.
    pub fn new() -> (path: Self)
        ensures
            path.wf(),
            path@.bytes == Seq::<u8>::empty(),
            !path@.absolute,
            valid_utf8(path@.bytes),
    {
        assert(valid_utf8(Seq::<u8>::empty()));
        assert(spec_components(Seq::<u8>::empty()) == Seq::<Seq<u8>>::empty());
        Self { m_buf: Vec::new(), m_abs: false }
    }

    /// Constructs the path for the raw path given.
    pub fn from_raw(raw_path: &str) -> (path: Self)
        requires
            spec_append_fits(
                PathData { bytes: Seq::empty(), absolute: false },
                raw_path.spec_bytes(),
            ),
        ensures
            path.wf(),
            path@ == spec_append_raw(
                PathData { bytes: Seq::empty(), absolute: false },
                raw_path.spec_bytes(),
            ),
            valid_utf8(path@.bytes),
    {
        let mut path = Self::new();
        path.append_raw(raw_path);
        path
    }

    /// Appends a new `Path`.
    ///
    /// The given `Path` is evaluated: if it is absolute it overwrites the
    /// current one, otherwise it is appended to this one. The parent
    /// links are resolved until it is possible.
    ///
    /// An absolute path which is not empty can always be appended. Any
    /// other path must leave this one within the length limit, see
    /// `spec_append_fits`.
    pub fn append(&mut self, path: &Path)
        requires
            old(self).wf(),
            path.wf(),
            (path@.absolute && path@.bytes.len() > 0) || spec_append_fits(old(self)@, path@.bytes),
        ensures
            final(self).wf(),
            final(self)@ == spec_append_raw(old(self)@, path@.bytes),
            path@.absolute && path@.bytes.len() > 0 ==> final(self)@ == path@,
            valid_utf8(old(self)@.bytes) && valid_utf8(path@.bytes) ==> valid_utf8(
                final(self)@.bytes,
            ),
    {
        proof {
            if valid_utf8(self@.bytes) && valid_utf8(path@.bytes) {
                lemma_append_raw_keeps_text(self@, path@.bytes);
            }
            if path@.absolute && path@.bytes.len() > 0 {
                lemma_append_absolute_replaces(self@, path@);
            }
        }
        self.append_bytes(path.m_buf.as_slice());
    }

    /// Appends a new raw path.
    ///
    /// The given raw path is evaluated: if it is absolute it overwrites
    /// the current one, otherwise it is resolved then appended to this
    /// one. The parent links are resolved until it is possible.
    ///
    /// The path must stay within the length limit of the paths with every
    /// component which is appended, see `spec_append_fits`: it does when
    /// the path and the raw path together, with one separator between
    /// them, fit the limit, and whenever the raw path is an absolute path
    /// in normal form.
    pub fn append_raw(&mut self, raw_path: &str)
        requires
            old(self).wf(),
            spec_append_fits(old(self)@, raw_path.spec_bytes()),
        ensures
            final(self).wf(),
            final(self)@ == spec_append_raw(old(self)@, raw_path.spec_bytes()),
            valid_utf8(old(self)@.bytes) ==> valid_utf8(final(self)@.bytes),
    {
        proof {
            vstd::utf8::encode_utf8_valid_utf8(raw_path@);
            if valid_utf8(self@.bytes) {
                lemma_append_raw_keeps_text(self@, raw_path.spec_bytes());
            }
        }
        self.append_bytes(raw_path.as_bytes());
    }

    /// Appends the bytes of a raw path: see `append_raw`.
    pub fn append_bytes(&mut self, raw_path: &[u8])
        requires
            old(self).wf(),
            spec_append_fits(old(self)@, raw_path@),
        ensures
            final(self).wf(),
            final(self)@ == spec_append_raw(old(self)@, raw_path@),
    {
        /* check for absolute path, it overwrites the previous one */
        if raw_path.len() > 0 && raw_path[0] == SEPARATOR {
            self.m_buf.clear();
            self.m_abs = true;
            assert(spec_components(self@.bytes) == Seq::<Seq<u8>>::empty());
        }
        /* special case: only the separator character is given */
        if raw_path.len() == 1 && raw_path[0] == SEPARATOR {
            self.m_buf.push(SEPARATOR);
            assert(raw_path@ =~= seq![SEPARATOR]);
            assert(self@.bytes =~= seq![SEPARATOR]);
            proof {
                let lone = seq![SEPARATOR];
                assert(lone.skip(1) =~= Seq::<u8>::empty());
                assert(spec_split(lone, Seq::empty()) == spec_split(lone.skip(1), Seq::empty()));
                assert(spec_components(lone) == Seq::<Seq<u8>>::empty());
            }
            return ;
        }
        assert(raw_path@ != seq![SEPARATOR]) by {
            if raw_path@ == seq![SEPARATOR] {
                assert(raw_path@.len() == 1 && raw_path@[0] == SEPARATOR);
            }
        }
        let ghost start = self@;
        assert(start == spec_append_start(old(self)@, raw_path@));
        let mut current: Vec<u8> = Vec::new();
        let mut index: usize = 0;
        assert(raw_path@.skip(0) == raw_path@);
        while index < raw_path.len()
            invariant
                index <= raw_path@.len(),
                self.wf(),
                spec_fits_all(self@, spec_split(raw_path@.skip(index as int), current@)),
                forall|i: int| 0 <= i < current@.len() ==> current@[i] != SEPARATOR,
                spec_apply_all(self@, spec_split(raw_path@.skip(index as int), current@))
                    == spec_apply_all(start, spec_components(raw_path@)),
            decreases raw_path@.len() - index,
        {
            let byte: u8 = raw_path[index];
            let ghost rest = raw_path@.skip(index as int);
            let ghost name = current@;
            let ghost before = self@;
            assert(rest[0] == byte);
            assert(rest.skip(1) == raw_path@.skip(index + 1));
            if byte == SEPARATOR {
                if current.len() > 0 {
                    proof {
                        let tail = spec_split(rest.skip(1), Seq::empty());
                        assert(spec_split(rest, name) == seq![name] + tail);
                        assert((seq![name] + tail)[0] == name);
                        assert((seq![name] + tail).skip(1) == tail);
                        assert(spec_apply_all(before, seq![name] + tail) == spec_apply_all(
                            spec_apply(before, name),
                            tail,
                        ));
                        assert(spec_fits_all(before, seq![name] + tail) == (spec_apply(
                            before,
                            name,
                        ).bytes.len() <= VFS_PATH_LEN_MAX && spec_fits_all(
                            spec_apply(before, name),
                            tail,
                        )));
                    }
                    self.apply_component(&current);
                    current.clear();
                } else {
                    assert(name == Seq::<u8>::empty());
                    assert(spec_split(rest, name) == spec_split(rest.skip(1), Seq::empty()));
                }
            } else {
                current.push(byte);
                assert(spec_split(rest, name) == spec_split(rest.skip(1), name.push(byte)));
            }
            index = index + 1;
        }
        assert(raw_path@.skip(index as int).len() == 0);
        if current.len() > 0 {
            proof {
                let last = seq![current@];
                assert(spec_split(raw_path@.skip(index as int), current@) == last);
                assert(last[0] == current@);
                assert(last.skip(1) == Seq::<Seq<u8>>::empty());
                assert(spec_apply_all(spec_apply(self@, current@), last.skip(1)) == spec_apply(
                    self@,
                    current@,
                ));
                assert(spec_apply_all(self@, last) == spec_apply(self@, current@));
                assert(spec_fits_all(self@, last) ==> spec_apply(self@, current@).bytes.len()
                    <= VFS_PATH_LEN_MAX);
            }
            self.apply_component(&current);
        } else {
            assert(spec_split(raw_path@.skip(index as int), current@) == Seq::<Seq<u8>>::empty());
        }
    }

    /// Appends one component: a self link changes nothing, a parent link
    /// takes the last component away when it can, everything else goes
    /// to the end.
    fn apply_component(&mut self, component: &Vec<u8>)
        requires
            old(self).wf(),
            component@.len() > 0,
            forall|i: int| 0 <= i < component@.len() ==> component@[i] != SEPARATOR,
            spec_apply(old(self)@, component@).bytes.len() <= VFS_PATH_LEN_MAX,
        ensures
            final(self).wf(),
            final(self)@ == spec_apply(old(self)@, component@),
    {
        proof {
            lemma_apply_keeps_normal_form(self@, component@);
        }
        /* check whether the separator must be prepended */
        let need_sep: bool = (self.is_empty() && self.is_absolute()) || (!self.is_empty()
            && !self.last_is_separator());
        let is_self_link: bool = component.len() == 1 && component[0] == DOT;
        let is_parent_link: bool = component.len() == 2 && component[0] == DOT && component[1]
            == DOT;
        proof {
            if is_self_link {
                assert(component@ =~= spec_self_link());
            } else if component@ == spec_self_link() {
                assert(component@.len() == 1 && component@[0] == DOT);
            }
            if is_parent_link {
                assert(component@ =~= spec_parent_link());
            } else if component@ == spec_parent_link() {
                assert(component@.len() == 2 && component@[0] == DOT && component@[1] == DOT);
            }
        }
        /* insert, remove, or ignore the component */
        if is_self_link {
            return ;
        }
        if is_parent_link && self.may_pop_last() {
            let popped = self.pop();
            return ;
        }
        let ghost before = self@.bytes;
        if need_sep {
            self.m_buf.push(SEPARATOR);
        }
        let ghost with_sep = self@.bytes;
        let mut index: usize = 0;
        while index < component.len()
            invariant
                index <= component@.len(),
                self.m_abs == old(self).m_abs,
                self@.bytes == with_sep + component@.subrange(0, index as int),
            decreases component@.len() - index,
        {
            self.m_buf.push(component[index]);
            assert(component@.subrange(0, index + 1) == component@.subrange(0, index as int).push(
                component@[index as int],
            ));
            index = index + 1;
        }
        proof {
            assert(component@.subrange(0, index as int) == component@);
            let after = self@.bytes;
            assert forall|i: int| 0 <= i < after.len() - 1 implies !(#[trigger] after[i]
                == SEPARATOR && after[i + 1] == SEPARATOR) by {
                if i + 1 < before.len() {
                    assert(after[i] == before[i] && after[i + 1] == before[i + 1]);
                } else if i + 1 >= with_sep.len() {
                    assert(after[i + 1] == component@[i + 1 - with_sep.len()]);
                } else {
                    assert(need_sep && i + 1 == before.len());
                    if before.len() > 0 {
                        assert(after[i] == before.last());
                    }
                }
            }
            assert(after.last() == component@.last());
            if after[0] == SEPARATOR && !self.m_abs {
                if before.len() > 0 {
                    assert(after[0] == before[0]);
                } else {
                    assert(!need_sep);
                    assert(after[0] == component@[0]);
                }
            }
        }
    }

    /// Pops the last component.
    ///
    /// Returns the component which was taken away, as a relative path,
    /// while this `Path` has components; the separator before it is taken
    /// away with it. When the `Path` has no more components it stays as it
    /// is and `None` is returned.
    pub fn pop(&mut self) -> (last: Option<Path>)
        requires
            old(self).wf(),
        ensures
            final(self).wf(),
            final(self)@ == spec_pop(old(self)@),
            final(self)@.bytes.len() <= old(self)@.bytes.len(),
            match last {
                Some(component) => {
                    &&& component@.bytes == spec_last_component(old(self)@.bytes)
                    &&& component@.bytes.len() > 0
                    &&& !component@.absolute
                },
                None => spec_last_component(old(self)@.bytes).len() == 0,
            },
            valid_utf8(old(self)@.bytes) ==> valid_utf8(final(self)@.bytes) && (last is Some
                ==> valid_utf8(last->0@.bytes)),
    {
        proof {
            if valid_utf8(self@.bytes) {
                lemma_pop_keeps_text(self@);
            }
            lemma_pop_keeps_normal_form(self@);
        }
        let start: usize = self.last_component_start();
        let len: usize = self.m_buf.len();
        if start == len {
            return None;
        }
        let mut component: Vec<u8> = Vec::new();
        let mut index: usize = start;
        while index < len
            invariant
                start <= index <= len,
                len == self.m_buf@.len(),
                component@ == self.m_buf@.subrange(start as int, index as int),
            decreases len - index,
        {
            component.push(self.m_buf[index]);
            assert(self.m_buf@.subrange(start as int, index + 1) == self.m_buf@.subrange(
                start as int,
                index as int,
            ).push(self.m_buf@[index as int]));
            index = index + 1;
        }
        /* remove the last component, and the path separator before it, if any */
        let keep: usize = if start > 1 {
            start - 1
        } else {
            0
        };
        proof {
            lemma_last_sep(self.m_buf@);
        }
        self.m_buf.truncate(keep);
        proof {
            let before = old(self)@.bytes;
            let after = self@.bytes;
            assert(after =~= spec_pop(old(self)@).bytes);
            assert forall|i: int| 0 <= i < after.len() - 1 implies !(#[trigger] after[i]
                == SEPARATOR && after[i + 1] == SEPARATOR) by {
                assert(after[i] == before[i] && after[i + 1] == before[i + 1]);
            }
            if after.len() > 1 {
                assert(after.last() == before[keep - 1]);
                assert(before[keep as int] == SEPARATOR);
                assert(!(before[keep - 1] == SEPARATOR && before[keep - 1 + 1] == SEPARATOR));
            }
            if after.len() > 0 {
                assert(after[0] == before[0]);
            }
        }
        Some(Path { m_buf: component, m_abs: false })
    }

    /// Pops up to `count` components: stops before when the path has no
    /// more components. Returns how many components were taken away.
    pub fn pop_many(&mut self, count: usize) -> (popped: usize)
        requires
            old(self).wf(),
        ensures
            final(self).wf(),
            popped <= count,
            final(self)@ == spec_pop_many(old(self)@, popped as nat),
            popped < count ==> spec_last_component(final(self)@.bytes).len() == 0,
            final(self)@.absolute == old(self)@.absolute,
    {
        let mut popped: usize = 0;
        while popped < count
            invariant
                popped <= count,
                self.wf(),
                self@ == spec_pop_many(old(self)@, popped as nat),
                self@.absolute == old(self)@.absolute,
            decreases count - popped,
        {
            let ghost before = self@;
            if self.pop().is_none() {
                return popped;
            }
            proof {
                lemma_pop_many_step(old(self)@, popped as nat);
            }
            popped = popped + 1;
        }
        popped
    }

    /// Returns whether this path and `other` hold the same bytes.
    pub fn is_same(&self, other: &Path) -> (same: bool)
        ensures
            same == (self@.bytes == other@.bytes),
    {
        if self.m_buf.len() != other.m_buf.len() {
            return false;
        }
        let mut index: usize = 0;
        while index < self.m_buf.len()
            invariant
                self.m_buf@.len() == other.m_buf@.len(),
                index <= self.m_buf@.len(),
                forall|i: int| 0 <= i < index ==> self.m_buf@[i] == other.m_buf@[i],
            decreases self.m_buf@.len() - index,
        {
            if self.m_buf[index] != other.m_buf[index] {
                return false;
            }
            index = index + 1;
        }
        assert(self.m_buf@ =~= other.m_buf@);
        true
    }

    /// Returns the index at which the last component starts: the index
    /// after the last separator.
    fn last_component_start(&self) -> (start: usize)
        ensures
            start == spec_last_sep(self@.bytes) + 1,
            start <= self@.bytes.len(),
    {
        let mut index: usize = self.m_buf.len();
        proof {
            assert(self.m_buf@.subrange(0, index as int) == self.m_buf@);
        }
        while index > 0
            invariant
                index <= self.m_buf@.len(),
                spec_last_sep(self.m_buf@.subrange(0, index as int)) == spec_last_sep(self.m_buf@),
            decreases index,
        {
            let ghost prefix = self.m_buf@.subrange(0, index as int);
            assert(prefix.last() == self.m_buf@[index - 1]);
            if self.m_buf[index - 1] == SEPARATOR {
                return index;
            }
            assert(prefix.drop_last() == self.m_buf@.subrange(0, index - 1));
            index = index - 1;
        }
        0
    }

    /// Builds the call which asks the kernel to resolve the path stored
    /// at `path_addr` and to store at `index_addr` how far it got.
    pub fn exists_query(&self, path_addr: usize, index_addr: usize) -> (call: KernCall)
        ensures
            call.is(KernFnPath::Path(KernPathFnId::Exists), 0, seq![path_addr, index_addr]),
    {
        KernCall::with_2_args(KernFnPath::Path(KernPathFnId::Exists), 0, path_addr, index_addr)
    }

    /// Returns the non-empty components of this `Path`, in their order.
    pub fn components(&self) -> (components: Vec<Vec<u8>>)
        ensures
            components.deep_view() == spec_components(self@.bytes),
    {
        let mut components: Vec<Vec<u8>> = Vec::new();
        let mut current: Vec<u8> = Vec::new();
        let mut index: usize = 0;
        assert(self.m_buf@.skip(0) == self.m_buf@);
        assert(components.deep_view() == Seq::<Seq<u8>>::empty());
        while index < self.m_buf.len()
            invariant
                index <= self.m_buf@.len(),
                components.deep_view() + spec_split(self.m_buf@.skip(index as int), current@)
                    == spec_components(self.m_buf@),
            decreases self.m_buf@.len() - index,
        {
            let byte: u8 = self.m_buf[index];
            let ghost rest = self.m_buf@.skip(index as int);
            let ghost found = components.deep_view();
            let ghost name = current@;
            assert(rest[0] == byte);
            assert(rest.skip(1) == self.m_buf@.skip(index + 1));
            if byte == SEPARATOR {
                if current.len() > 0 {
                    let mut component: Vec<u8> = Vec::new();
                    core::mem::swap(&mut component, &mut current);
                    components.push(component);
                    proof {
                        assert(components.deep_view() =~~= found.push(name));
                        let tail = spec_split(rest.skip(1), Seq::empty());
                        assert(spec_split(rest, name) == seq![name] + tail);
                        assert(found.push(name) + tail == found + (seq![name] + tail));
                    }
                } else {
                    assert(name == Seq::<u8>::empty());
                    assert(spec_split(rest, name) == spec_split(rest.skip(1), Seq::empty()));
                }
            } else {
                current.push(byte);
                assert(spec_split(rest, name) == spec_split(rest.skip(1), name.push(byte)));
            }
            index = index + 1;
        }
        assert(self.m_buf@.skip(index as int).len() == 0);
        if current.len() > 0 {
            let ghost found = components.deep_view();
            let ghost name = current@;
            components.push(current);
            proof {
                assert(components.deep_view() =~~= found.push(name));
                assert(found.push(name) == found + seq![name]);
            }
        } else {
            assert(components.deep_view() + Seq::<Seq<u8>>::empty() == components.deep_view());
        }
        components
    }

    /// Returns the last component of the `Path`, as a relative path, or
    /// `None` when the path has no component.
    pub fn basename(&self) -> (last: Option<Path>)
        requires
            self.wf(),
        ensures
            match last {
                Some(component) => {
                    &&& component@.bytes == spec_last_component(self@.bytes)
                    &&& component@.bytes.len() > 0
                    &&& !component@.absolute
                },
                None => spec_last_component(self@.bytes).len() == 0,
            },
            valid_utf8(self@.bytes) && last is Some ==> valid_utf8(last->0@.bytes),
    {
        proof {
            if valid_utf8(self@.bytes) {
                lemma_pop_keeps_text(self@);
            }
        }
        let start: usize = self.last_component_start();
        let len: usize = self.m_buf.len();
        if start == len {
            return None;
        }
        let mut component: Vec<u8> = Vec::new();
        let mut index: usize = start;
        while index < len
            invariant
                start <= index <= len,
                len == self.m_buf@.len(),
                component@ == self.m_buf@.subrange(start as int, index as int),
            decreases len - index,
        {
            component.push(self.m_buf[index]);
            assert(self.m_buf@.subrange(start as int, index + 1) == self.m_buf@.subrange(
                start as int,
                index as int,
            ).push(self.m_buf@[index as int]));
            index = index + 1;
        }
        Some(Path { m_buf: component, m_abs: false })
    }

    /// Returns the bytes of the `Path`.
    pub fn as_bytes(&self) -> (bytes: &[u8])
        ensures
            bytes@ == self@.bytes,
    {
        self.m_buf.as_slice()
    }

    /// Returns the `Path` as string slice: the string made of the bytes of
    /// the path when these are valid UTF-8, `None` when they are not.
    pub fn as_str(&self) -> (string: Option<&str>)
        ensures
            string is Some <==> valid_utf8(self@.bytes),
            string is Some ==> string->0.spec_bytes() == self@.bytes,
    {
        str_from_utf8(self.m_buf.as_slice())
    }

    /// Returns the length of this `Path`.
    pub fn len(&self) -> (len: usize)
        ensures
            len == self@.bytes.len(),
    {
        self.m_buf.len()
    }

    /// Returns whether this `Path` is empty.
    pub fn is_empty(&self) -> (empty: bool)
        ensures
            empty == (self@.bytes.len() == 0),
    {
        self.len() == 0
    }

    /// Returns whether this `Path` is absolute.
    pub fn is_absolute(&self) -> (absolute: bool)
        ensures
            absolute == self@.absolute,
    {
        self.m_abs
    }

    /// Returns whether a parent link can pop the last element.
    pub fn may_pop_last(&self) -> (may: bool)
        ensures
            may == spec_may_pop_last(self@),
    {
        if self.m_buf.len() == 0 && !self.m_abs {
            return false;
        }
        let start: usize = self.last_component_start();
        let len: usize = self.m_buf.len();
        let is_parent_link: bool = len - start == 2 && self.m_buf[start] == DOT && self.m_buf[start
            + 1] == DOT;
        proof {
            let last = spec_last_component(self@.bytes);
            if is_parent_link {
                assert(last =~= spec_parent_link());
            } else if last == spec_parent_link() {
                assert(last.len() == 2 && last[0] == DOT && last[1] == DOT);
            }
        }
        !is_parent_link
    }

    /// Returns whether the last character is a separator.
    pub fn last_is_separator(&self) -> (is_separator: bool)
        ensures
            is_separator == (self@.bytes.len() > 0 && self@.bytes.last() == SEPARATOR),
    {
        let len: usize = self.m_buf.len();
        len > 0 && self.m_buf[len - 1] == SEPARATOR
    }
}

impl Default for Path {
    /// The empty relative path.
    fn default() -> (path: Self)
        ensures
            path.wf(),
            path@.bytes == Seq::<u8>::empty(),
            !path@.absolute,
    {
        Self::new()
    }
}

/// Reads the bytes as a string slice.
///
/// Calls `core::str::from_utf8`, which checks that the bytes are valid
/// UTF-8: it fails when they are not, and returns the string slice made
/// of exactly these bytes when they are.
#[verifier::external_body]
fn str_from_utf8(bytes: &[u8]) -> (string: Option<&str>)
    ensures
        string is Some <==> valid_utf8(bytes@),
        string is Some ==> string->0.spec_bytes() == bytes@,
{
    core::str::from_utf8(bytes).ok()
}

/// What the index of the last separator of `bytes` is: a separator is
/// there, no separator follows it, and it is `-1` only when `bytes` holds
/// no separator.
pub proof fn lemma_last_sep(bytes: Seq<u8>)
    ensures
        -1 <= spec_last_sep(bytes) < bytes.len(),
        spec_last_sep(bytes) >= 0 ==> bytes[spec_last_sep(bytes)] == SEPARATOR,
        forall|i: int| spec_last_sep(bytes) < i < bytes.len() ==> bytes[i] != SEPARATOR,
    decreases bytes.len(),
{
    if bytes.len() > 0 && bytes.last() != SEPARATOR {
        lemma_last_sep(bytes.drop_last());
        assert forall|i: int| spec_last_sep(bytes) < i < bytes.len() implies bytes[i]
            != SEPARATOR by {
            if i < bytes.len() - 1 {
                assert(bytes.drop_last()[i] == bytes[i]);
            }
        }
    }
}

/// Taking the last component away once more.
pub proof fn lemma_pop_many_step(path: PathData, count: nat)
    ensures
        spec_pop_many(path, count + 1) == spec_pop(spec_pop_many(path, count)),
{
}

/// Bytes without a separator are one component, together with what was
/// read before them.
pub proof fn lemma_split_no_sep(bytes: Seq<u8>, current: Seq<u8>)
    requires
        forall|i: int| 0 <= i < bytes.len() ==> bytes[i] != SEPARATOR,
    ensures
        spec_split(bytes, current) == if (current + bytes).len() > 0 {
            seq![current + bytes]
        } else {
            Seq::<Seq<u8>>::empty()
        },
    decreases bytes.len(),
{
    if bytes.len() == 0 {
        assert(current + bytes =~= current);
    } else {
        assert forall|i: int| 0 <= i < bytes.skip(1).len() implies bytes.skip(1)[i]
            != SEPARATOR by {
            assert(bytes.skip(1)[i] == bytes[i + 1]);
        }
        lemma_split_no_sep(bytes.skip(1), current.push(bytes[0]));
        assert(current.push(bytes[0]) + bytes.skip(1) =~= current + bytes);
    }
}

/// A separator and a component after some bytes add that component to
/// the components of the bytes.
pub proof fn lemma_split_with_component(bytes: Seq<u8>, current: Seq<u8>, component: Seq<u8>)
    requires
        component.len() > 0,
        forall|i: int| 0 <= i < component.len() ==> component[i] != SEPARATOR,
    ensures
        spec_split(bytes.push(SEPARATOR) + component, current) == spec_split(bytes, current).push(
            component,
        ),
    decreases bytes.len(),
{
    let whole = bytes.push(SEPARATOR) + component;
    if bytes.len() == 0 {
        assert(whole[0] == SEPARATOR);
        assert(whole.skip(1) =~= component);
        lemma_split_no_sep(component, Seq::empty());
        assert(Seq::<u8>::empty() + component =~= component);
        if current.len() > 0 {
            assert(seq![current] + seq![component] =~= seq![current].push(component));
        } else {
            assert(Seq::<Seq<u8>>::empty().push(component) =~= seq![component]);
        }
    } else {
        assert(whole[0] == bytes[0]);
        assert(whole.skip(1) =~= bytes.skip(1).push(SEPARATOR) + component);
        if bytes[0] == SEPARATOR {
            lemma_split_with_component(bytes.skip(1), Seq::empty(), component);
            if current.len() > 0 {
                let rest = spec_split(bytes.skip(1), Seq::empty());
                assert(seq![current] + rest.push(component) =~= (seq![current] + rest).push(
                    component,
                ));
            }
        } else {
            lemma_split_with_component(bytes.skip(1), current.push(bytes[0]), component);
        }
    }
}

/// The components of laid out bytes, seen from their end: the last
/// component is what follows the last separator, and the components
/// before it are those of the path without its last component.
pub proof fn lemma_components_from_the_end(path: PathData)
    requires
        path_laid_out(path),
    ensures
        path_laid_out(spec_pop(path)),
        spec_pop(path).absolute == path.absolute,
        spec_pop(path).bytes.len() <= path.bytes.len(),
        spec_last_component(path.bytes).len() == 0 <==> spec_components(path.bytes).len() == 0,
        spec_last_component(path.bytes).len() > 0 ==> {
            &&& spec_components(path.bytes) == spec_components(spec_pop(path).bytes).push(
                spec_last_component(path.bytes),
            )
            &&& spec_pop(path).bytes.len() < path.bytes.len()
            &&& forall|i: int|
                0 <= i < spec_last_component(path.bytes).len() ==> spec_last_component(
                    path.bytes,
                )[i] != SEPARATOR
            &&& path.bytes == if spec_need_sep(spec_pop(path)) {
                spec_pop(path).bytes.push(SEPARATOR) + spec_last_component(path.bytes)
            } else {
                spec_pop(path).bytes + spec_last_component(path.bytes)
            }
        },
{
    let bytes = path.bytes;
    lemma_last_sep(bytes);
    let sep = spec_last_sep(bytes);
    let last = spec_last_component(bytes);
    let popped = spec_pop(path);
    assert(spec_components(Seq::<u8>::empty()) == Seq::<Seq<u8>>::empty());
    if last.len() == 0 {
        if bytes.len() > 0 {
            assert(bytes =~= seq![SEPARATOR]);
            assert(bytes.skip(1) =~= Seq::<u8>::empty());
            assert(spec_split(bytes, Seq::empty()) == spec_split(bytes.skip(1), Seq::empty()));
        }
    } else {
        assert forall|i: int| 0 <= i < last.len() implies last[i] != SEPARATOR by {
            assert(last[i] == bytes[sep + 1 + i]);
        }
        if sep < 0 {
            assert(last =~= bytes);
            lemma_split_no_sep(bytes, Seq::empty());
            assert(Seq::<u8>::empty() + bytes =~= bytes);
            assert(Seq::<Seq<u8>>::empty().push(bytes) =~= seq![bytes]);
            assert(popped.bytes + last =~= bytes);
        } else {
            let prefix = bytes.subrange(0, sep);
            assert(prefix.push(SEPARATOR) + last =~= bytes);
            lemma_split_with_component(prefix, Seq::empty(), last);
            if sep == 0 {
                assert(prefix =~= Seq::<u8>::empty());
                assert(popped.bytes =~= Seq::<u8>::empty());
            } else {
                assert(popped.bytes == prefix);
                assert(prefix.last() == bytes[sep - 1]);
                assert(!(bytes[sep - 1] == SEPARATOR && bytes[sep - 1 + 1] == SEPARATOR));
                assert(prefix[0] == bytes[0]);
                assert forall|i: int| 0 <= i < prefix.len() - 1 implies !(#[trigger] prefix[i]
                    == SEPARATOR && prefix[i + 1] == SEPARATOR) by {
                    assert(prefix[i] == bytes[i] && prefix[i + 1] == bytes[i + 1]);
                }
            }
        }
    }
}

/// A path in normal form is one still after its last component was
/// taken away.
pub proof fn lemma_pop_keeps_normal_form(path: PathData)
    requires
        path_wf(path),
    ensures
        path_wf(spec_pop(path)),
{
    lemma_components_from_the_end(path);
    let before = spec_components(path.bytes);
    let after = spec_components(spec_pop(path).bytes);
    if spec_last_component(path.bytes).len() > 0 {
        assert forall|k: int| 0 <= k < after.len() implies #[trigger] after[k]
            != spec_self_link() by {
            assert(after[k] == before[k]);
        }
        assert forall|j: int, k: int|
            0 <= j <= k < after.len() && #[trigger] after[k]
                == spec_parent_link() implies !path.absolute && #[trigger] after[j]
            == spec_parent_link() by {
            assert(after[k] == before[k]);
            assert(after[j] == before[j]);
        }
    }
}

/// The components of a path to which a component was appended: those of
/// the path, and after them the component, unless it was a self link or
/// a parent link which took the last component away.
pub proof fn lemma_apply_components(path: PathData, component: Seq<u8>)
    requires
        path_wf(path),
        component.len() > 0,
        forall|i: int| 0 <= i < component.len() ==> component[i] != SEPARATOR,
        component != spec_self_link(),
        !(component == spec_parent_link() && spec_may_pop_last(path)),
    ensures
        spec_components(spec_apply(path, component).bytes) == spec_components(path.bytes).push(
            component,
        ),
{
    if spec_need_sep(path) {
        lemma_split_with_component(path.bytes, Seq::empty(), component);
    } else if path.bytes.len() == 0 {
        lemma_split_no_sep(component, Seq::empty());
        assert(Seq::<u8>::empty() + component =~= component);
        assert(path.bytes + component =~= component);
        assert(spec_components(path.bytes) == Seq::<Seq<u8>>::empty());
        assert(Seq::<Seq<u8>>::empty().push(component) =~= seq![component]);
    } else {
        assert(path.bytes =~= seq![SEPARATOR]);
        assert(path.bytes + component =~= Seq::<u8>::empty().push(SEPARATOR) + component);
        lemma_split_with_component(Seq::empty(), Seq::empty(), component);
        lemma_components_from_the_end(path);
        assert(spec_last_component(path.bytes).len() == 0) by {
            lemma_last_sep(path.bytes);
        }
        assert(spec_components(Seq::<u8>::empty()) == Seq::<Seq<u8>>::empty());
    }
}

/// A path in normal form is one still after a component was appended to
/// it, as long as the result fits the length limit.
pub proof fn lemma_apply_keeps_normal_form(path: PathData, component: Seq<u8>)
    requires
        path_wf(path),
        component.len() > 0,
        forall|i: int| 0 <= i < component.len() ==> component[i] != SEPARATOR,
        spec_apply(path, component).bytes.len() <= VFS_PATH_LEN_MAX,
    ensures
        path_wf(spec_apply(path, component)),
{
    let applied = spec_apply(path, component);
    if component == spec_self_link() {
    } else if component == spec_parent_link() && spec_may_pop_last(path) {
        lemma_pop_keeps_normal_form(path);
    } else {
        lemma_apply_components(path, component);
        lemma_components_from_the_end(path);
        let before = spec_components(path.bytes);
        let after = spec_components(applied.bytes);
        let last = before.len() as int;
        assert(after[last] == component);
        assert forall|k: int| 0 <= k < after.len() implies #[trigger] after[k]
            != spec_self_link() by {
            if k < last {
                assert(after[k] == before[k]);
            }
        }
        assert forall|j: int, k: int|
            0 <= j <= k < after.len() && #[trigger] after[k]
                == spec_parent_link() implies !path.absolute && #[trigger] after[j]
            == spec_parent_link() by {
            if k < last {
                assert(after[k] == before[k]);
                assert(after[j] == before[j]);
            } else {
                assert(component == spec_parent_link());
                assert(!spec_may_pop_last(path));
                if before.len() > 0 {
                    assert(before[last - 1] == spec_last_component(path.bytes));
                    assert(before[last - 1] == spec_parent_link());
                    if j < last {
                        assert(before[j] == spec_parent_link());
                        assert(after[j] == before[j]);
                    }
                }
            }
        }
        let bytes = applied.bytes;
        if spec_need_sep(path) {
            let with_sep = path.bytes.push(SEPARATOR);
            assert(bytes.last() == component.last());
            assert forall|i: int| 0 <= i < bytes.len() - 1 implies !(#[trigger] bytes[i]
                == SEPARATOR && bytes[i + 1] == SEPARATOR) by {
                if i + 1 < path.bytes.len() {
                    assert(bytes[i] == path.bytes[i] && bytes[i + 1] == path.bytes[i + 1]);
                } else if i + 1 >= with_sep.len() {
                    assert(bytes[i + 1] == component[i + 1 - with_sep.len()]);
                } else if path.bytes.len() > 0 {
                    assert(bytes[i] == path.bytes.last());
                }
            }
            if path.bytes.len() > 0 {
                assert(bytes[0] == path.bytes[0]);
            } else {
                assert(bytes[0] == SEPARATOR);
            }
        } else {
            assert(bytes.last() == component.last());
            if path.bytes.len() == 0 {
                assert(bytes =~= component);
                assert(bytes[0] == component[0]);
            } else {
                assert(path.bytes =~= seq![SEPARATOR]);
                assert(bytes[0] == SEPARATOR);
                assert forall|i: int| 0 <= i < bytes.len() - 1 implies !(#[trigger] bytes[i]
                    == SEPARATOR && bytes[i + 1] == SEPARATOR) by {
                    assert(bytes[i + 1] == component[i]);
                }
            }
        }
    }
}

/// Appending components and then one more is appending that one to the
/// path with the components before it.
pub proof fn lemma_apply_all_push(path: PathData, components: Seq<Seq<u8>>, component: Seq<u8>)
    ensures
        spec_apply_all(path, components.push(component)) == spec_apply(
            spec_apply_all(path, components),
            component,
        ),
        spec_fits_all(path, components.push(component)) == (spec_fits_all(path, components)
            && spec_apply(spec_apply_all(path, components), component).bytes.len()
            <= VFS_PATH_LEN_MAX),
    decreases components.len(),
{
    let all = components.push(component);
    if components.len() == 0 {
        assert(all[0] == component);
        assert(all.skip(1) =~= Seq::<Seq<u8>>::empty());
        assert(spec_apply_all(spec_apply(path, component), all.skip(1)) == spec_apply(
            path,
            component,
        ));
        assert(spec_fits_all(spec_apply(path, component), all.skip(1)));
    } else {
        assert(all[0] == components[0]);
        assert(all.skip(1) =~= components.skip(1).push(component));
        lemma_apply_all_push(spec_apply(path, components[0]), components.skip(1), component);
    }
}

/// A path in normal form is what its own components give, appended one
/// by one to the empty path: normalising it again changes nothing, and
/// every path on the way fits the length limit.
pub proof fn lemma_normal_form_is_fixed(path: PathData)
    requires
        path_wf(path),
        path.bytes != seq![SEPARATOR],
    ensures
        spec_apply_all(
            PathData { bytes: Seq::empty(), absolute: path.absolute },
            spec_components(path.bytes),
        ) == path,
        spec_fits_all(
            PathData { bytes: Seq::empty(), absolute: path.absolute },
            spec_components(path.bytes),
        ),
    decreases path.bytes.len(),
{
    let start = PathData { bytes: Seq::empty(), absolute: path.absolute };
    lemma_components_from_the_end(path);
    let last = spec_last_component(path.bytes);
    let popped = spec_pop(path);
    if last.len() == 0 {
        lemma_last_sep(path.bytes);
        if path.bytes.len() > 0 {
            assert(path.bytes =~= seq![SEPARATOR]);
        }
        assert(path.bytes =~= Seq::<u8>::empty());
    } else {
        lemma_pop_keeps_normal_form(path);
        if popped.bytes == seq![SEPARATOR] {
            assert(popped.bytes.len() == 1 && popped.bytes.last() == SEPARATOR);
            lemma_last_sep(path.bytes);
            assert(path.bytes[0] == SEPARATOR && path.bytes[1] == SEPARATOR);
        }
        lemma_normal_form_is_fixed(popped);
        let before = spec_components(popped.bytes);
        lemma_apply_all_push(start, before, last);
        let all = spec_components(path.bytes);
        assert(all[before.len() as int] == last);
        assert(last != spec_self_link());
        if last == spec_parent_link() {
            assert(!path.absolute);
            if before.len() > 0 {
                lemma_components_from_the_end(popped);
                assert(all[before.len() - 1] == spec_parent_link());
                assert(before[before.len() - 1] == all[before.len() - 1]);
                assert(spec_last_component(popped.bytes) == spec_parent_link());
            } else {
                lemma_components_from_the_end(popped);
                lemma_last_sep(popped.bytes);
                assert(popped.bytes.len() == 0);
            }
            assert(!spec_may_pop_last(popped));
        }
        assert(spec_apply(popped, last) == path);
    }
}

/// Appending an absolute path which is in normal form gives exactly that
/// path, whatever the path it is appended to: an absolute path
/// overwrites, it is not concatenated. It can always be appended.
pub proof fn lemma_append_absolute_replaces(path: PathData, absolute: PathData)
    requires
        path_wf(absolute),
        absolute.bytes.len() > 0,
        absolute.bytes[0] == SEPARATOR,
    ensures
        spec_append_raw(path, absolute.bytes) == absolute,
        spec_append_fits(path, absolute.bytes),
{
    if absolute.bytes != seq![SEPARATOR] {
        lemma_normal_form_is_fixed(absolute);
    }
}

/// Appending one component makes a path longer by the component and one
/// separator at most.
pub proof fn lemma_apply_len(path: PathData, component: Seq<u8>)
    ensures
        spec_apply(path, component).bytes.len() <= path.bytes.len() + component.len() + 1,
{
    lemma_last_sep(path.bytes);
}

/// The components of some bytes can be appended to a path when the path,
/// the bytes and one separator together fit the length limit.
pub proof fn lemma_short_components_fit(path: PathData, bytes: Seq<u8>, current: Seq<u8>)
    requires
        path.bytes.len() + current.len() + bytes.len() + 1 <= VFS_PATH_LEN_MAX,
    ensures
        spec_fits_all(path, spec_split(bytes, current)),
    decreases bytes.len(),
{
    if bytes.len() == 0 {
        if current.len() > 0 {
            lemma_apply_len(path, current);
            let only = seq![current];
            assert(only[0] == current);
            assert(spec_fits_all(spec_apply(path, current), only.skip(1)));
        }
    } else if bytes[0] == SEPARATOR {
        if current.len() > 0 {
            lemma_apply_len(path, current);
            let rest = spec_split(bytes.skip(1), Seq::empty());
            let all = seq![current] + rest;
            assert(all[0] == current);
            assert(all.skip(1) =~= rest);
            lemma_short_components_fit(spec_apply(path, current), bytes.skip(1), Seq::empty());
        } else {
            lemma_short_components_fit(path, bytes.skip(1), Seq::empty());
        }
    } else {
        lemma_short_components_fit(path, bytes.skip(1), current.push(bytes[0]));
    }
}

/// A raw path can be appended to a path when the two and one separator
/// together fit the length limit.
pub proof fn lemma_short_append_fits(path: PathData, raw: Seq<u8>)
    requires
        path.bytes.len() + raw.len() + 1 <= VFS_PATH_LEN_MAX,
    ensures
        spec_append_fits(path, raw),
{
    lemma_short_components_fit(spec_append_start(path, raw), raw, Seq::empty());
}

/// The components of some bytes are names: none is empty and none holds
/// a separator.
pub proof fn lemma_components_are_names(bytes: Seq<u8>, current: Seq<u8>)
    requires
        forall|i: int| 0 <= i < current.len() ==> current[i] != SEPARATOR,
    ensures
        forall|k: int|
            0 <= k < spec_split(bytes, current).len() ==> {
                &&& (#[trigger] spec_split(bytes, current)[k]).len() > 0
                &&& forall|i: int|
                    0 <= i < spec_split(bytes, current)[k].len() ==> spec_split(
                        bytes,
                        current,
                    )[k][i] != SEPARATOR
            },
    decreases bytes.len(),
{
    let found = spec_split(bytes, current);
    if bytes.len() == 0 {
        assert forall|k: int| 0 <= k < found.len() implies (#[trigger] found[k]).len() > 0
            && forall|i: int| 0 <= i < found[k].len() ==> found[k][i] != SEPARATOR by {
            assert(found == seq![current]);
            assert(found[k] == current);
        }
    } else if bytes[0] == SEPARATOR {
        lemma_components_are_names(bytes.skip(1), Seq::empty());
        let rest = spec_split(bytes.skip(1), Seq::empty());
        if current.len() > 0 {
            assert(found == seq![current] + rest);
            assert forall|k: int| 0 <= k < found.len() implies (#[trigger] found[k]).len() > 0
                && forall|i: int| 0 <= i < found[k].len() ==> found[k][i] != SEPARATOR by {
                if k > 0 {
                    assert(found[k] == rest[k - 1]);
                } else {
                    assert(found[k] == current);
                }
            }
        } else {
            assert(found == rest);
        }
    } else {
        let longer = current.push(bytes[0]);
        assert forall|i: int| 0 <= i < longer.len() implies longer[i] != SEPARATOR by {
            if i < current.len() {
                assert(longer[i] == current[i]);
            }
        }
        lemma_components_are_names(bytes.skip(1), longer);
        assert(found == spec_split(bytes.skip(1), longer));
    }
}

/// The lone separator is valid UTF-8.
pub proof fn lemma_separator_is_text()
    ensures
        valid_utf8(seq![SEPARATOR]),
{
    let sep = seq![SEPARATOR];
    assert(sep[0] == 47u8);
    assert(47u8 & 0x7F == 47u8) by (bit_vector);
    assert(vstd::utf8::valid_first_scalar(sep));
    assert(vstd::utf8::pop_first_scalar(sep) =~= Seq::<u8>::empty());
    assert(valid_utf8(Seq::<u8>::empty()));
}

/// What comes before a separator of valid UTF-8 bytes, and what comes
/// after it, is valid UTF-8: a separator is never inside the encoding
/// of a character.
pub proof fn lemma_text_split_at_sep(bytes: Seq<u8>, index: int)
    requires
        valid_utf8(bytes),
        0 <= index < bytes.len(),
        bytes[index] == SEPARATOR,
    ensures
        valid_utf8(bytes.subrange(0, index)),
        valid_utf8(bytes.subrange(index + 1, bytes.len() as int)),
{
    vstd::utf8::is_char_boundary_iff_not_is_continuation_byte(bytes, index);
    vstd::utf8::valid_utf8_split(bytes, index);
    let suffix = bytes.subrange(index, bytes.len() as int);
    assert(suffix[0] == 47u8);
    assert(vstd::utf8::length_of_first_scalar(suffix) == 1);
    assert(vstd::utf8::pop_first_scalar(suffix) =~= bytes.subrange(
        index + 1,
        bytes.len() as int,
    ));
}

/// The components of valid UTF-8 bytes are valid UTF-8.
pub proof fn lemma_components_are_text(bytes: Seq<u8>, current: Seq<u8>)
    requires
        valid_utf8(current + bytes),
    ensures
        forall|k: int|
            0 <= k < spec_split(bytes, current).len() ==> valid_utf8(
                #[trigger] spec_split(bytes, current)[k],
            ),
    decreases bytes.len(),
{
    let whole = current + bytes;
    let found = spec_split(bytes, current);
    if bytes.len() == 0 {
        assert(whole =~= current);
        assert forall|k: int| 0 <= k < found.len() implies valid_utf8(#[trigger] found[k]) by {
            assert(found == seq![current]);
            assert(found[k] == current);
        }
    } else if bytes[0] == SEPARATOR {
        assert(whole[current.len() as int] == SEPARATOR);
        lemma_text_split_at_sep(whole, current.len() as int);
        assert(whole.subrange(0, current.len() as int) =~= current);
        assert(whole.subrange(current.len() as int + 1, whole.len() as int) =~= bytes.skip(1));
        assert(Seq::<u8>::empty() + bytes.skip(1) =~= bytes.skip(1));
        lemma_components_are_text(bytes.skip(1), Seq::empty());
        let rest = spec_split(bytes.skip(1), Seq::empty());
        if current.len() > 0 {
            assert(found == seq![current] + rest);
            assert forall|k: int| 0 <= k < found.len() implies valid_utf8(#[trigger] found[k]) by {
                if k > 0 {
                    assert(found[k] == rest[k - 1]);
                } else {
                    assert(found[k] == current);
                }
            }
        } else {
            assert(found == rest);
        }
    } else {
        assert(current.push(bytes[0]) + bytes.skip(1) =~= whole);
        lemma_components_are_text(bytes.skip(1), current.push(bytes[0]));
        assert(found == spec_split(bytes.skip(1), current.push(bytes[0])));
    }
}

/// A path of valid UTF-8 bytes is one still after its last component was
/// taken away, and that component is valid UTF-8 too.
pub proof fn lemma_pop_keeps_text(path: PathData)
    requires
        valid_utf8(path.bytes),
    ensures
        valid_utf8(spec_pop(path).bytes),
        valid_utf8(spec_last_component(path.bytes)),
{
    lemma_last_sep(path.bytes);
    let sep = spec_last_sep(path.bytes);
    assert(valid_utf8(Seq::<u8>::empty()));
    if sep >= 0 {
        lemma_text_split_at_sep(path.bytes, sep);
    } else {
        assert(path.bytes.subrange(0, path.bytes.len() as int) =~= path.bytes);
    }
}

/// A path of valid UTF-8 bytes is one still after a component of valid
/// UTF-8 bytes was appended to it.
pub proof fn lemma_apply_keeps_text(path: PathData, component: Seq<u8>)
    requires
        valid_utf8(path.bytes),
        valid_utf8(component),
    ensures
        valid_utf8(spec_apply(path, component).bytes),
{
    lemma_pop_keeps_text(path);
    lemma_separator_is_text();
    vstd::utf8::valid_utf8_concat(path.bytes, seq![SEPARATOR]);
    assert(path.bytes + seq![SEPARATOR] =~= path.bytes.push(SEPARATOR));
    vstd::utf8::valid_utf8_concat(path.bytes.push(SEPARATOR), component);
    vstd::utf8::valid_utf8_concat(path.bytes, component);
}

/// A path of valid UTF-8 bytes is one still after components of valid
/// UTF-8 bytes were appended to it.
pub proof fn lemma_apply_all_keeps_text(path: PathData, components: Seq<Seq<u8>>)
    requires
        valid_utf8(path.bytes),
        forall|k: int| 0 <= k < components.len() ==> valid_utf8(#[trigger] components[k]),
    ensures
        valid_utf8(spec_apply_all(path, components).bytes),
    decreases components.len(),
{
    if components.len() > 0 {
        lemma_apply_keeps_text(path, components[0]);
        assert forall|k: int| 0 <= k < components.skip(1).len() implies valid_utf8(
            #[trigger] components.skip(1)[k],
        ) by {
            assert(components.skip(1)[k] == components[k + 1]);
        }
        lemma_apply_all_keeps_text(spec_apply(path, components[0]), components.skip(1));
    }
}

/// A path of valid UTF-8 bytes is one still after a raw path of valid
/// UTF-8 bytes was appended to it: a path which is made of string slices
/// is always a string.
pub proof fn lemma_append_raw_keeps_text(path: PathData, raw: Seq<u8>)
    requires
        valid_utf8(path.bytes),
        valid_utf8(raw),
    ensures
        valid_utf8(spec_append_raw(path, raw).bytes),
{
    lemma_separator_is_text();
    assert(valid_utf8(Seq::<u8>::empty()));
    assert(Seq::<u8>::empty() + raw =~= raw);
    lemma_components_are_text(raw, Seq::empty());
    let start = if raw.len() > 0 && raw[0] == SEPARATOR {
        PathData { bytes: Seq::empty(), absolute: true }
    } else {
        path
    };
    lemma_apply_all_keeps_text(start, spec_components(raw));
}

/// A self link changes nothing.
pub proof fn lemma_self_link_changes_nothing(path: PathData)
    ensures
        spec_apply(path, spec_self_link()) == path,
{
}

/// A parent link which follows a component takes that component away:
/// the path is what it was before the component was appended.
pub proof fn lemma_parent_link_undoes_component(path: PathData, component: Seq<u8>)
    requires
        path_wf(path),
        path.bytes != seq![SEPARATOR],
        component.len() > 0,
        component != spec_self_link(),
        component != spec_parent_link(),
        forall|i: int| 0 <= i < component.len() ==> component[i] != SEPARATOR,
    ensures
        spec_apply(spec_apply(path, component), spec_parent_link()) == path,
{
    let with = spec_apply(path, component);
    lemma_last_sep(with.bytes);
    let sep = spec_last_sep(with.bytes);
    if spec_need_sep(path) {
        assert(with.bytes[path.bytes.len() as int] == SEPARATOR);
        assert forall|i: int| path.bytes.len() < i < with.bytes.len() implies with.bytes[i]
            != SEPARATOR by {
            assert(with.bytes[i] == component[i - path.bytes.len() - 1]);
        }
        assert(sep == path.bytes.len());
        assert(spec_last_component(with.bytes) =~= component);
        assert(spec_pop(with).bytes =~= path.bytes);
    } else {
        assert(path.bytes.len() == 0 || path.bytes.last() == SEPARATOR);
        assert(path.bytes.len() == 0) by {
            if path.bytes.len() == 1 {
                assert(path.bytes =~= seq![SEPARATOR]);
            }
        }
        assert forall|i: int| 0 <= i < with.bytes.len() implies with.bytes[i] != SEPARATOR by {
            assert(with.bytes[i] == component[i]);
        }
        assert(sep == -1);
        assert(spec_last_component(with.bytes) =~= component);
        assert(spec_pop(with).bytes =~= path.bytes);
    }
}

} // verus!

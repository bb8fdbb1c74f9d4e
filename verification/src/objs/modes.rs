//! Modes of the calls on the objects.
use vstd::prelude::*;

verus! {

/// Lists the ways in which an incoming object is received.
#[derive(Debug, Clone, Copy, PartialEq, Eq, Structural)]
pub enum RecvMode {
    /// The caller waits until an object arrives.
    Sync,
    /// The call returns at once, with an error when no object waits.
    Async,
}

impl RecvMode {
    /// The raw code of the mode.
    pub open spec fn spec_raw(self) -> usize {
        match self {
            Self::Sync => 0,
            Self::Async => 1,
        }
    }

    /// The mode for the raw code, if there is one for it.
    pub open spec fn spec_from_raw(raw: usize) -> Option<Self> {
        if raw == 0 {
            Some(Self::Sync)
        } else if raw == 1 {
            Some(Self::Async)
        } else {
            None
        }
    }

    /// Returns the raw code of the mode.
    pub fn as_raw(self) -> (raw: usize)
        ensures
            raw == self.spec_raw(),
    {
        match self {
            Self::Sync => 0,
            Self::Async => 1,
        }
    }

    /// Returns the mode for the raw code, `None` when the code names no
    /// mode.
    pub fn from_raw(raw: usize) -> (mode: Option<Self>)
        ensures
            mode == Self::spec_from_raw(raw),
            mode is Some ==> mode->0.spec_raw() == raw,
    {
        match raw {
            0 => Some(Self::Sync),
            1 => Some(Self::Async),
            _ => None,
        }
    }
}

} // verus!

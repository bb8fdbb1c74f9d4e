//! Uses of the objects which can be watched.
use vstd::prelude::*;
use crate::bits::bit_flags::{BitFlags, TBitFlagsValues};

verus! {

/// Lists the uses of an object which a watcher can be told of.
#[derive(Debug, Clone, Copy, PartialEq, Eq, Structural)]
pub enum ObjUse {
    /// The object was opened.
    Opening,
    /// Data was read from the object.
    ReadingData,
    /// Data was written to the object.
    WritingData,
    /// The info of the object was read.
    ReadingInfo,
    /// The info of the object was updated.
    WritingInfo,
    /// The object was sent to another task.
    Sending,
    /// The object was received by another task.
    Receiving,
    /// A reference to the object was dropped.
    Dropping,
    /// The name of the object was dropped.
    Deleting,
}

impl TBitFlagsValues for ObjUse {
    open spec fn spec_index(self) -> usize {
        match self {
            Self::Opening => 0,
            Self::ReadingData => 1,
            Self::WritingData => 2,
            Self::ReadingInfo => 3,
            Self::WritingInfo => 4,
            Self::Sending => 5,
            Self::Receiving => 6,
            Self::Dropping => 7,
            Self::Deleting => 8,
        }
    }

    open spec fn spec_from_index(index: usize) -> Option<Self> {
        if index == 0 {
            Some(Self::Opening)
        } else if index == 1 {
            Some(Self::ReadingData)
        } else if index == 2 {
            Some(Self::WritingData)
        } else if index == 3 {
            Some(Self::ReadingInfo)
        } else if index == 4 {
            Some(Self::WritingInfo)
        } else if index == 5 {
            Some(Self::Sending)
        } else if index == 6 {
            Some(Self::Receiving)
        } else if index == 7 {
            Some(Self::Dropping)
        } else if index == 8 {
            Some(Self::Deleting)
        } else {
            None
        }
    }

    fn index(self) -> (index: usize) {
        match self {
            Self::Opening => 0,
            Self::ReadingData => 1,
            Self::WritingData => 2,
            Self::ReadingInfo => 3,
            Self::WritingInfo => 4,
            Self::Sending => 5,
            Self::Receiving => 6,
            Self::Dropping => 7,
            Self::Deleting => 8,
        }
    }

    fn try_from_index(index: usize) -> (value: Option<Self>) {
        match index {
            0 => Some(Self::Opening),
            1 => Some(Self::ReadingData),
            2 => Some(Self::WritingData),
            3 => Some(Self::ReadingInfo),
            4 => Some(Self::WritingInfo),
            5 => Some(Self::Sending),
            6 => Some(Self::Receiving),
            7 => Some(Self::Dropping),
            8 => Some(Self::Deleting),
            _ => None,
        }
    }

    proof fn lemma_index_round_trip(value: Self) {
    }
}

/// Set of the uses of an object, one bit for each use.
pub type ObjUseBits = BitFlags<u32, ObjUse>;

} // verus!

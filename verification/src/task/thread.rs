//! `Thread` specific entry point data.
use vstd::prelude::*;

verus! {

/// Identifier of a task.
pub type TaskId = u32;

/// Context dependent `Thread`'s execution data.
///
/// Each variant holds the address of the executable entry point and the
/// data needed by the context it stands for.
#[derive(Debug, Clone, Copy, PartialEq, Eq, Structural)]
pub enum ThreadEntryData {
    /// Data to execute a user thread.
    User { m_entry_point: usize, m_entry_arg: usize, m_thread_id: TaskId },
    /// Data to execute the callback of a watcher: the argument is the
    /// use of the object which made the callback run.
    WatchCallback { m_entry_point: usize, m_entry_arg: usize, m_thread_id: TaskId },
    /// Data to execute the callback of a cleaner.
    CleanerCallback { m_entry_point: usize, m_thread_id: TaskId },
    /// Default value, usable only for un-initialized `ThreadEntryData`.
    Uninit,
}

impl ThreadEntryData {
    /// Constructs the data to execute a user thread which starts at
    /// `entry_point` with `entry_arg` as argument.
    pub fn new_user(entry_point: usize, entry_arg: usize) -> (data: Self)
        ensures
            data == (ThreadEntryData::User {
                m_entry_point: entry_point,
                m_entry_arg: entry_arg,
                m_thread_id: 0,
            }),
    {
        ThreadEntryData::User { m_entry_point: entry_point, m_entry_arg: entry_arg, m_thread_id: 0 }
    }

    /// Constructs the data to execute the watcher callback which starts
    /// at `entry_point`.
    pub fn new_watch_callback(entry_point: usize) -> (data: Self)
        ensures
            data == (ThreadEntryData::WatchCallback {
                m_entry_point: entry_point,
                m_entry_arg: 0,
                m_thread_id: 0,
            }),
    {
        ThreadEntryData::WatchCallback { m_entry_point: entry_point, m_entry_arg: 0, m_thread_id: 0 }
    }

    /// Constructs the data to execute the cleaner callback which starts
    /// at `entry_point`.
    pub fn new_cleaner_callback(entry_point: usize) -> (data: Self)
        ensures
            data == (ThreadEntryData::CleanerCallback {
                m_entry_point: entry_point,
                m_thread_id: 0,
            }),
    {
        ThreadEntryData::CleanerCallback { m_entry_point: entry_point, m_thread_id: 0 }
    }

    /// Returns the address of the entry point, `None` for the
    /// un-initialized data.
    pub fn entry_point(&self) -> (entry_point: Option<usize>)
        ensures
            entry_point == match *self {
                ThreadEntryData::User { m_entry_point, .. } => Some(m_entry_point),
                ThreadEntryData::WatchCallback { m_entry_point, .. } => Some(m_entry_point),
                ThreadEntryData::CleanerCallback { m_entry_point, .. } => Some(m_entry_point),
                ThreadEntryData::Uninit => None,
            },
    {
        match *self {
            ThreadEntryData::User { m_entry_point, .. } => Some(m_entry_point),
            ThreadEntryData::WatchCallback { m_entry_point, .. } => Some(m_entry_point),
            ThreadEntryData::CleanerCallback { m_entry_point, .. } => Some(m_entry_point),
            ThreadEntryData::Uninit => None,
        }
    }
}

impl Default for ThreadEntryData {
    fn default() -> (data: Self)
        ensures
            data == ThreadEntryData::Uninit,
    {
        Self::Uninit
    }
}

} // verus!

//! Bits of the task configuration.
use vstd::prelude::*;

verus! {

/// Lists the scheduling algorithms which the kernel applies to a task.
#[derive(Debug, Clone, Copy, PartialEq, Eq, Structural)]
pub enum SchedPolicy {
    /// The task is interrupted when its time slice is over.
    Preemptive,
    /// The task runs until it releases the CPU by itself.
    Cooperative,
}

/// Lists the classes of priority of a task.
#[derive(Debug, Clone, Copy, PartialEq, Eq, Structural)]
pub enum TaskPrio {
    Idle,
    VeryLow,
    Low,
    Normal,
    High,
    VeryHigh,
    Realtime,
}

/// Lists the affinities of a task to the CPUs.
#[derive(Debug, Clone, Copy, PartialEq, Eq, Structural)]
pub enum TaskCpu {
    /// The task runs on any CPU.
    Any,
    /// The task runs on the CPUs whose bit is set in the mask.
    Mask(u64),
}

/// Data of the configuration which depend on the kind of the task.
#[derive(Debug, Clone, Copy, PartialEq, Eq, Structural)]
pub enum TaskSpecData {
    /// No data was given.
    Unset,
    /// Data of a process: the raw identifier of the file which it
    /// executes, the address of the array of its arguments and their
    /// amount.
    Proc { m_file: u32, m_args_addr: usize, m_args_count: usize },
    /// Data of a thread: the address of its entry point, its argument
    /// and the address and the length of its name.
    Thread {
        m_entry_point: Option<usize>,
        m_arg: Option<usize>,
        m_name_addr: usize,
        m_name_len: usize,
    },
}

impl TaskSpecData {
    /// Constructs the data of a process which executes the file with the
    /// raw identifier `file`, with the `args_count` arguments stored at
    /// `args_addr`.
    pub fn new_proc(file: u32, args_addr: usize, args_count: usize) -> (data: Self)
        ensures
            data == (TaskSpecData::Proc {
                m_file: file,
                m_args_addr: args_addr,
                m_args_count: args_count,
            }),
    {
        TaskSpecData::Proc { m_file: file, m_args_addr: args_addr, m_args_count: args_count }
    }

    /// Constructs the data of a thread.
    pub fn new_thread(
        entry_point: Option<usize>,
        arg: Option<usize>,
        name_addr: usize,
        name_len: usize,
    ) -> (data: Self)
        ensures
            data == (TaskSpecData::Thread {
                m_entry_point: entry_point,
                m_arg: arg,
                m_name_addr: name_addr,
                m_name_len: name_len,
            }),
    {
        TaskSpecData::Thread {
            m_entry_point: entry_point,
            m_arg: arg,
            m_name_addr: name_addr,
            m_name_len: name_len,
        }
    }
}

} // verus!

//! Kernel call error management.
use vstd::prelude::*;
use vstd::string::StringSliceAdditionalSpecFns;
use crate::error::class::OsErrorClass;
use crate::limit::OS_ERROR_MESSAGE_LEN_MAX;
use crate::sys::fn_path::KernFnPath;
use crate::task::thread::TaskId;

pub mod class;

verus! {

/// The message buffer of an error for the bytes `message`: the first 64
/// bytes of the message, followed by zero bytes up to 64 bytes.
pub open spec fn spec_message_buf(message: Seq<u8>) -> Seq<u8> {
    Seq::new(
        OS_ERROR_MESSAGE_LEN_MAX as nat,
        |i: int|
            if i < message.len() {
                message[i]
            } else {
                0u8
            },
    )
}

/// Operating system error.
#[derive(Debug)]
pub struct OsError {
    m_class: OsErrorClass,
    m_kern_fn_path: KernFnPath,
    m_inst_handle: Option<u32>,
    m_proc_id: TaskId,
    m_thread_id: TaskId,
    m_message: Option<Vec<u8>>,
}

impl OsError {
    /// The class of the error.
    pub closed spec fn spec_error_class(&self) -> OsErrorClass {
        self.m_class
    }

    /// The path of the kernel function which originated the error.
    pub closed spec fn spec_kern_fn_path(&self) -> KernFnPath {
        self.m_kern_fn_path
    }

    /// The handle of the instance which originated the error, if any.
    pub closed spec fn spec_inst_handle(&self) -> Option<u32> {
        self.m_inst_handle
    }

    /// The process which made the call.
    pub closed spec fn spec_proc_id(&self) -> TaskId {
        self.m_proc_id
    }

    /// The thread which made the call.
    pub closed spec fn spec_thread_id(&self) -> TaskId {
        self.m_thread_id
    }

    /// The message buffer of the error, if it has a message.
    pub closed spec fn spec_message(&self) -> Option<Seq<u8>> {
        match self.m_message {
            Some(buffer) => Some(buffer@),
            None => None,
        }
    }

    /// Constructs an `OsError` filled with the given data. The message is
    /// copied into a buffer of 64 bytes: what does not fit is cut off.
    pub fn new(
        class: OsErrorClass,
        kern_fn_path: KernFnPath,
        inst_handle: Option<u32>,
        proc_id: TaskId,
        thread_id: TaskId,
        message: Option<&str>,
    ) -> (error: Self)
        ensures
            error.spec_error_class() == class,
            error.spec_kern_fn_path() == kern_fn_path,
            error.spec_inst_handle() == inst_handle,
            error.spec_proc_id() == proc_id,
            error.spec_thread_id() == thread_id,
            error.spec_message() == match message {
                Some(str_buf) => Some(spec_message_buf(str_buf.spec_bytes())),
                None => None,
            },
    {
        let buffer = match message {
            Some(str_buf) => {
                let bytes = str_buf.as_bytes();
                let mut buffer: Vec<u8> = Vec::new();
                let mut index: usize = 0;
                while index < OS_ERROR_MESSAGE_LEN_MAX
                    invariant
                        index <= OS_ERROR_MESSAGE_LEN_MAX,
                        bytes@ == str_buf.spec_bytes(),
                        buffer@.len() == index,
                        forall|i: int|
                            0 <= i < index ==> buffer@[i] == spec_message_buf(
                                str_buf.spec_bytes(),
                            )[i],
                    decreases OS_ERROR_MESSAGE_LEN_MAX - index,
                {
                    let byte: u8 = if index < bytes.len() {
                        bytes[index]
                    } else {
                        0
                    };
                    buffer.push(byte);
                    index = index + 1;
                }
                assert(buffer@ =~= spec_message_buf(str_buf.spec_bytes()));
                Some(buffer)
            },
            None => None,
        };
        Self {
            m_class: class,
            m_kern_fn_path: kern_fn_path,
            m_inst_handle: inst_handle,
            m_proc_id: proc_id,
            m_thread_id: thread_id,
            m_message: buffer,
        }
    }

    /// Returns the `OsErrorClass`.
    pub fn error_class(&self) -> (class: OsErrorClass)
        ensures
            class == self.spec_error_class(),
    {
        self.m_class
    }

    /// Returns the `KernFnPath` which originates this `OsError`.
    pub fn kern_fn_path(&self) -> (kern_fn_path: KernFnPath)
        ensures
            kern_fn_path == self.spec_kern_fn_path(),
    {
        self.m_kern_fn_path
    }

    /// Returns the handle which originates this `OsError` if any.
    pub fn inst_handle(&self) -> (inst_handle: Option<u32>)
        ensures
            inst_handle == self.spec_inst_handle(),
    {
        self.m_inst_handle
    }

    /// Returns the identifier of the process which made the call.
    pub fn proc_id(&self) -> (proc_id: TaskId)
        ensures
            proc_id == self.spec_proc_id(),
    {
        self.m_proc_id
    }

    /// Returns the identifier of the thread which made the call.
    pub fn thread_id(&self) -> (thread_id: TaskId)
        ensures
            thread_id == self.spec_thread_id(),
    {
        self.m_thread_id
    }

    /// Returns the message buffer of the error if any: 64 bytes, the
    /// bytes of the message followed by zero bytes.
    pub fn message(&self) -> (message: Option<&Vec<u8>>)
        ensures
            match message {
                Some(buffer) => self.spec_message() == Some(buffer@),
                None => self.spec_message() is None,
            },
    {
        match &self.m_message {
            Some(buffer) => Some(buffer),
            None => None,
        }
    }
}

} // verus!

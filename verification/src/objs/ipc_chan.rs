//! Interprocess communication channel.
use vstd::prelude::*;
use crate::objs::modes::RecvMode;
use crate::objs::object::{ObjId, Object, UserCreatable};
use crate::objs::types::ObjType;
use crate::sys::call::KernCall;
use crate::sys::codes::KernIpcChanFnId;
use crate::sys::fn_path::KernFnPath;

verus! {

/// Reference to an open communication channel, through which binary
/// messages of any size go between processes and threads.
#[derive(Debug, PartialEq, Eq, Structural)]
pub struct IpcChan {
    m_handle: ObjId,
}

impl IpcChan {
    /// The transaction identifier as the kernel reads it: zero stands for
    /// no transaction.
    pub open spec fn spec_raw_transaction(id: Option<usize>) -> usize {
        match id {
            Some(value) => value,
            None => 0,
        }
    }

    /// Builds the call which sends a new message.
    ///
    /// The message is the `msg_len` bytes stored at `msg_addr`. `id` is
    /// the transaction identifier, which directs the message to a
    /// particular receiver; without it the message goes to whoever
    /// receives without transaction.
    pub fn send_msg(&self, msg_addr: usize, msg_len: usize, id: Option<usize>) -> (call:
        KernCall)
        ensures
            call.is(
                KernFnPath::IpcChan(KernIpcChanFnId::Send),
                self.spec_handle()@,
                seq![msg_addr, msg_len, Self::spec_raw_transaction(id)],
            ),
    {
        let transaction: usize = match id {
            Some(value) => value,
            None => 0,
        };
        KernCall::with_3_args(
            KernFnPath::IpcChan(KernIpcChanFnId::Send),
            self.m_handle.as_raw(),
            msg_addr,
            msg_len,
            transaction,
        )
    }

    /// Builds the call which receives the last message into the `msg_len`
    /// bytes stored at `msg_addr`. On success the result word of the call
    /// is the size of the received message.
    pub fn recv_msg(&self, mode: RecvMode, msg_addr: usize, msg_len: usize, id: Option<usize>) -> (call:
        KernCall)
        ensures
            call.is(
                KernFnPath::IpcChan(KernIpcChanFnId::Recv),
                self.spec_handle()@,
                seq![mode.spec_raw(), msg_addr, msg_len, Self::spec_raw_transaction(id)],
            ),
    {
        let transaction: usize = match id {
            Some(value) => value,
            None => 0,
        };
        KernCall::with_4_args(
            KernFnPath::IpcChan(KernIpcChanFnId::Recv),
            self.m_handle.as_raw(),
            mode.as_raw(),
            msg_addr,
            msg_len,
            transaction,
        )
    }
}

impl Object for IpcChan {
    closed spec fn spec_handle(&self) -> ObjId {
        self.m_handle
    }

    open spec fn spec_type() -> ObjType {
        ObjType::IpcChan
    }

    fn obj_type() -> (obj_type: ObjType) {
        ObjType::IpcChan
    }

    fn obj_handle(&self) -> (handle: &ObjId) {
        &self.m_handle
    }

    fn from_id(id: ObjId) -> (obj: Self) {
        Self { m_handle: id }
    }

    fn into_id(self) -> (id: ObjId) {
        self.m_handle
    }
}

impl UserCreatable for IpcChan {

}

impl Default for IpcChan {
    /// The channel with the empty handle.
    fn default() -> (chan: Self)
        ensures
            chan.spec_handle()@ == 0,
    {
        Self { m_handle: ObjId::default() }
    }
}

} // verus!

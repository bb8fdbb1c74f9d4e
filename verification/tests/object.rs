use meetix::bits::bit_flags::BitFlags;
use meetix::ent::impls::{OSGroup, OSUser};
use meetix::ent::types::OsEntityType;
use meetix::error::class::OsErrorClass;
use meetix::error::OsError;
use meetix::objs::ipc_chan::IpcChan;
use meetix::objs::modes::RecvMode;
use meetix::objs::object::{
    obj_drop_name, obj_info, obj_recv, obj_send, obj_watch, unit_call_done, ObjId, Object,
};
use meetix::objs::owner::{Grants, ObjOwner};
use meetix::objs::table::{outcome_word, KernObj, ObjTable};
use meetix::objs::types::ObjType;
use meetix::objs::uses::{ObjUse, ObjUseBits};
use meetix::sys::call::KernCall;
use meetix::sys::codes::{KernIpcChanFnId, KernObjectFnId, KernTaskFnId};
use meetix::sys::fn_path::KernFnPath;
use meetix::task::thread::ThreadEntryData;

struct MockKernel {
    table: ObjTable,
    calls: usize,
}

impl MockKernel {
    fn new() -> Self {
        MockKernel { table: ObjTable::new(), calls: 0 }
    }

    fn trap(&mut self, call: &KernCall) -> isize {
        self.calls += 1;
        self.table.kern_call(call)
    }

    fn is_valid(&mut self, id: &ObjId) -> bool {
        let answer = id.is_valid_query().map(|call| self.trap(&call));
        id.is_valid(answer)
    }

    fn clone_handle(&mut self, id: &ObjId) -> Result<ObjId, OsErrorClass> {
        let result = self.trap(&id.add_ref());
        id.clone_done(result)
    }

    fn drop_handle(&mut self, id: ObjId) {
        let answer = id.is_valid_query().map(|call| self.trap(&call));
        if let Some(call) = id.release(answer) {
            assert!(self.trap(&call) >= 0);
        }
    }
}

#[test]
fn obj_id_lifecycle() {
    let mut kernel = MockKernel::new();
    let raw = kernel.table.create(ObjType::MMap, false).unwrap();
    let handle = ObjId::from_raw(raw);
    assert_eq!(kernel.table.refs(raw), 1);
    assert!(kernel.is_valid(&handle));

    let second = kernel.clone_handle(&handle).unwrap();
    assert_eq!(second.as_raw(), handle.as_raw());
    assert_eq!(kernel.table.refs(raw), 2);

    kernel.drop_handle(second);
    assert_eq!(kernel.table.refs(raw), 1);

    let before = kernel.calls;
    kernel.drop_handle(ObjId::default());
    kernel.drop_handle(ObjId::from_raw(0));
    assert_eq!(kernel.calls, before);
    assert_eq!(kernel.table.refs(raw), 1);

    kernel.drop_handle(handle);
    assert_eq!(kernel.table.refs(raw), 0);
    assert_eq!(kernel.table.obj(raw), None);
    assert!(!kernel.is_valid(&ObjId::from_raw(raw)));
}

#[test]
fn obj_id_of_a_destroyed_object_is_not_valid_and_is_dropped_without_a_drop_call() {
    let mut kernel = MockKernel::new();
    let raw = kernel.table.create(ObjType::IpcChan, false).unwrap();
    assert_eq!(kernel.table.drop_ref(raw), Ok(()));
    let stale = ObjId::from_raw(raw);
    assert!(!stale.is_null());
    assert!(!kernel.is_valid(&stale));
    assert_eq!(kernel.clone_handle(&stale), Err(OsErrorClass::InvalidHandle));
    let before = kernel.calls;
    kernel.drop_handle(stale);
    assert_eq!(kernel.calls, before + 1);
}

#[test]
fn obj_id_is_valid_needs_the_answer_of_the_kernel() {
    let id = ObjId::from_raw(5);
    assert!(id.is_valid(Some(0)));
    assert!(id.is_valid(Some(17)));
    assert!(!id.is_valid(Some(-2)));
    assert!(!id.is_valid(None));
    let empty = ObjId::default();
    assert!(empty.is_valid_query().is_none());
    assert!(!empty.is_valid(Some(0)));
    assert!(!empty.is_valid(None));
    assert!(empty.release(Some(0)).is_none());
    assert!(ObjId::from_raw(5).release(Some(-2)).is_none());
    assert!(ObjId::from_raw(5).release(None).is_none());
    let call = ObjId::from_raw(5).release(Some(0)).unwrap();
    assert_eq!(call.fn_path(), KernFnPath::Object(KernObjectFnId::Drop));
    assert_eq!(call.handle_bits(), 5);
    assert_eq!(call.args_count(), 0);
}

#[test]
fn obj_id_conversions() {
    assert_eq!(ObjId::from(7u32).as_raw(), 7);
    assert_eq!(ObjId::from(7usize).as_raw(), 7);
    assert_eq!(ObjId::from(0x1_0000_0007usize).as_raw(), 7);
    assert_eq!(ObjId::from_raw(9).as_raw_usize(), 9usize);
    assert_eq!(ObjId::from_raw(u32::MAX).as_raw_usize(), 0xFFFF_FFFF);
    assert_eq!(ObjId::default().as_raw(), 0);
    assert!(ObjId::default().is_null());
    assert_eq!(ObjId::from_raw(3).into_raw(), 3);
    assert_eq!(ObjId::from_raw(3), ObjId::from(3u32));
}

#[test]
fn obj_id_calls() {
    let id = ObjId::from_raw(42);
    let send = id.send(7);
    assert_eq!(send.fn_path(), KernFnPath::Object(KernObjectFnId::Send));
    assert_eq!((send.handle_bits(), send.args_count(), send.arg(0)), (42, 1, 7));
    let recv = id.recv(ObjType::File, RecvMode::Async);
    assert_eq!(recv.fn_path(), KernFnPath::Object(KernObjectFnId::Recv));
    assert_eq!((recv.args_count(), recv.arg(0), recv.arg(1)), (2, 1, 1));
    let update = id.update_info(0x5000);
    assert_eq!(update.fn_path(), KernFnPath::Object(KernObjectFnId::UpdateInfo));
    assert_eq!(update.arg(0), 0x5000);
    let drop_name = id.drop_name();
    assert_eq!(drop_name.fn_path(), KernFnPath::Object(KernObjectFnId::DropName));
    assert_eq!(drop_name.args_count(), 0);
    let mut filter = ObjUseBits::new_zero();
    filter.set_enabled(ObjUse::WritingData);
    filter.set_enabled(ObjUse::Deleting);
    let watch = id.watch(filter, 0x6000);
    assert_eq!(watch.fn_path(), KernFnPath::Object(KernObjectFnId::Watch));
    assert_eq!((watch.arg(0), watch.arg(1)), (0b1_0000_0100, 0x6000));
    let info = id.info(0x7000);
    assert_eq!(info.fn_path(), KernFnPath::Object(KernObjectFnId::Info));
    let add_ref = id.add_ref();
    assert_eq!(add_ref.fn_path(), KernFnPath::Object(KernObjectFnId::AddRef));
    assert_eq!(add_ref.handle_bits(), 42);
    let query = id.is_valid_query().unwrap();
    assert_eq!(query.fn_path(), KernFnPath::Object(KernObjectFnId::IsValid));
}

#[test]
fn obj_id_results() {
    let mut id = ObjId::default();
    assert_eq!(id.recv_done(-7), Err(OsErrorClass::NotFound));
    assert_eq!(id.as_raw(), 0);
    assert_eq!(id.recv_done(12), Ok(()));
    assert_eq!(id.as_raw(), 12);
    assert_eq!(id.clone_done(0).map(|second| second.as_raw()), Ok(12));
    assert_eq!(id.clone_done(-6), Err(OsErrorClass::LimitReached));
    assert_eq!(unit_call_done(0), Ok(()));
    assert_eq!(unit_call_done(99), Ok(()));
    assert_eq!(unit_call_done(-4), Err(OsErrorClass::NoPermission));
}

#[test]
fn obj_table_permanent_objects_outlive_their_references() {
    let mut table = ObjTable::new();
    let file = table.create(ObjType::File, true).unwrap();
    let mapping = table.create(ObjType::MMap, true).unwrap();
    assert_eq!((file, mapping), (1, 2));
    assert_eq!(
        table.obj(file),
        Some(KernObj { obj_type: ObjType::File, refs: 1, named: true, watched: 0 })
    );
    assert_eq!(
        table.obj(mapping),
        Some(KernObj { obj_type: ObjType::MMap, refs: 1, named: false, watched: 0 })
    );
    assert_eq!(table.drop_ref(file), Ok(()));
    assert!(table.is_valid(file));
    assert_eq!(table.refs(file), 0);
    assert_eq!(table.drop_ref(file), Err(OsErrorClass::InvalidHandle));
    assert_eq!(table.add_ref(file), Ok(()));
    assert_eq!(table.drop_name(file), Ok(()));
    assert!(table.is_valid(file));
    assert_eq!(table.drop_ref(file), Ok(()));
    assert!(!table.is_valid(file));
    assert_eq!(table.add_ref(file), Err(OsErrorClass::InvalidHandle));
    assert_eq!(table.drop_name(mapping), Err(OsErrorClass::IllegalOperation));
    assert_eq!(table.drop_name(77), Err(OsErrorClass::InvalidHandle));
    assert_eq!(table.drop_ref(mapping), Ok(()));
    assert!(!table.is_valid(mapping));
    assert!(!table.is_valid(0));
    assert_eq!(table.create(ObjType::Dir, false), Ok(3));
    assert_eq!(table.drop_name(3), Ok(()));
    assert_eq!(table.refs(3), 1);
}

#[test]
fn obj_table_name_dropped_without_references_destroys() {
    let mut table = ObjTable::new();
    let link = table.create(ObjType::Link, true).unwrap();
    assert_eq!(table.drop_ref(link), Ok(()));
    assert!(table.is_valid(link));
    assert_eq!(table.drop_name(link), Ok(()));
    assert!(!table.is_valid(link));
}

#[test]
fn obj_table_watchers_do_not_overlap() {
    let mut table = ObjTable::new();
    let raw = table.create(ObjType::File, true).unwrap();
    assert_eq!(table.watch(raw, 0b0011), Ok(()));
    assert_eq!(table.watch(raw, 0b0110), Err(OsErrorClass::AlreadyExists));
    assert_eq!(table.obj(raw).unwrap().watched, 0b0011);
    assert_eq!(table.watch(raw, 0b1100), Ok(()));
    assert_eq!(table.obj(raw).unwrap().watched, 0b1111);
    assert_eq!(table.watch(raw, 0), Err(OsErrorClass::InvalidArgument));
    assert_eq!(table.watch(9, 1), Err(OsErrorClass::InvalidHandle));
    table.watch_fired(raw, 0b0011, true);
    assert_eq!(table.obj(raw).unwrap().watched, 0b1111);
    table.watch_fired(raw, 0b0011, false);
    assert_eq!(table.obj(raw).unwrap().watched, 0b1100);
    assert_eq!(table.watch(raw, 0b0001), Ok(()));
    table.watch_fired(9, 1, false);
}

#[test]
fn obj_table_serves_the_object_calls() {
    let mut table = ObjTable::new();
    let raw = table.create(ObjType::IpcChan, false).unwrap();
    let id = ObjId::from_raw(raw);
    assert_eq!(table.kern_call(&id.add_ref()), 0);
    assert_eq!(table.refs(raw), 2);
    assert_eq!(table.kern_call(&id.is_valid_query().unwrap()), 0);
    assert_eq!(table.kern_call(&id.drop_name()), -3);
    assert_eq!(table.kern_call(&id.send(1)), -3);
    assert_eq!(table.kern_call(&id.info(0x100)), -3);
    let mut filter = ObjUseBits::new_zero();
    filter.set_enabled(ObjUse::Opening);
    assert_eq!(table.kern_call(&id.watch(filter, 0)), 0);
    assert_eq!(table.kern_call(&id.watch(filter, 0)), -8);
    assert_eq!(table.kern_call(&id.watch(ObjUseBits::new_zero(), 0)), -1);
    let other = KernCall::with_no_args(KernFnPath::Task(KernTaskFnId::This), raw);
    assert_eq!(table.kern_call(&other), -3);
    let drop = KernCall::with_no_args(KernFnPath::Object(KernObjectFnId::Drop), raw);
    assert_eq!(table.kern_call(&drop), 0);
    assert_eq!(table.kern_call(&drop), 0);
    assert_eq!(table.kern_call(&drop), -2);
    assert_eq!(table.kern_call(&id.add_ref()), -2);
    assert_eq!(table.kern_call(&ObjId::from_raw(1000).add_ref()), -2);
    assert_eq!(outcome_word(Ok(())), 0);
    assert_eq!(outcome_word(Err(OsErrorClass::NotFound)), -7);
}

#[test]
fn obj_types() {
    for raw in 0..ObjType::COUNT {
        assert_eq!(ObjType::from_raw(raw).unwrap().as_raw(), raw);
    }
    assert_eq!(ObjType::from_raw(8), None);
    assert_eq!(ObjType::default(), ObjType::Unknown);
    assert_eq!(ObjType::OsRawMutex.as_raw(), 6);
    assert!(ObjType::File.is_permanent());
    assert!(ObjType::Dir.is_permanent());
    assert!(ObjType::Link.is_permanent());
    assert!(ObjType::OsRawMutex.is_permanent());
    assert!(!ObjType::MMap.is_permanent());
    assert!(!ObjType::IpcChan.is_permanent());
    assert!(!ObjType::KrnIterator.is_permanent());
    assert!(!ObjType::Unknown.is_permanent());
    assert_eq!(ObjType::KrnIterator.name(), "KrnIterator");
    assert_eq!(ObjType::Unknown.name(), "Unknown");
    assert_eq!(RecvMode::from_raw(1), Some(RecvMode::Async));
    assert_eq!(RecvMode::from_raw(2), None);
    assert_eq!(RecvMode::Sync.as_raw(), 0);
}

#[test]
fn ipc_chan_calls() {
    let chan = IpcChan::from_id(ObjId::from_raw(8));
    assert_eq!(IpcChan::obj_type(), ObjType::IpcChan);
    assert_eq!(chan.obj_handle().as_raw(), 8);
    let send = chan.send_msg(0x1000, 32, Some(5));
    assert_eq!(send.fn_path(), KernFnPath::IpcChan(KernIpcChanFnId::Send));
    assert_eq!(send.handle_bits(), 8);
    assert_eq!((send.arg(0), send.arg(1), send.arg(2), send.args_count()), (0x1000, 32, 5, 3));
    assert_eq!(chan.send_msg(0x1000, 32, None).arg(2), 0);
    let recv = chan.recv_msg(RecvMode::Async, 0x2000, 64, None);
    assert_eq!(recv.fn_path(), KernFnPath::IpcChan(KernIpcChanFnId::Recv));
    assert_eq!(
        (recv.arg(0), recv.arg(1), recv.arg(2), recv.arg(3), recv.args_count()),
        (1, 0x2000, 64, 0, 4)
    );
    assert_eq!(chan.recv_msg(RecvMode::Sync, 0, 0, Some(9)).arg(3), 9);
    assert_eq!(obj_drop_name(&chan).fn_path(), KernFnPath::Object(KernObjectFnId::DropName));
    assert_eq!(obj_send(&chan, 4).arg(0), 4);
    assert_eq!(obj_recv(&chan, RecvMode::Sync).arg(0), 5);
    assert_eq!(obj_info(&chan, 0x10).arg(0), 0x10);
    assert_eq!(obj_watch(&chan, ObjUseBits::new_zero(), 0x20).arg(1), 0x20);
    assert_eq!(IpcChan::default().obj_handle().as_raw(), 0);
    assert_eq!(chan.into_id().as_raw(), 8);
}

#[test]
fn obj_owner_accessors() {
    let mut owner = ObjOwner::new(OSUser::from_raw(1), OSGroup::from_raw(2), Grants { bits: 0o644 });
    assert_eq!(owner.os_user().id(), 1);
    assert_eq!(owner.os_group().id(), 2);
    assert_eq!(owner.protection().bits, 0o644);
    owner.set_os_user(OSUser::from_raw(10));
    owner.set_os_group(OSGroup::from_raw(20));
    owner.protection_mut().bits = 0o600;
    assert_eq!(owner.os_user().id(), 10);
    assert_eq!(owner.os_group().id(), 20);
    assert_eq!(owner.protection().bits, 0o600);
    let blank = ObjOwner::default();
    assert_eq!((blank.os_user().id(), blank.os_group().id(), blank.protection().bits), (0, 0, 0));
    assert_eq!(OSUser::from_raw(1).ent_type(), OsEntityType::User);
    assert_eq!(OSGroup::from_raw(1).ent_type(), OsEntityType::Group);
    assert_eq!(OsEntityType::from_raw(2), Some(OsEntityType::Group));
    assert_eq!(OsEntityType::from_raw(3), None);
    assert_eq!(OsEntityType::User.as_raw(), 1);
    assert_eq!(OsEntityType::default(), OsEntityType::Unknown);
    assert_eq!(OsEntityType::Group.name(), "Group");
}

#[test]
fn os_error_keeps_what_it_is_given() {
    let path = KernFnPath::Object(KernObjectFnId::Watch);
    let error =
        OsError::new(OsErrorClass::AlreadyExists, path, Some(4), 10, 11, Some("overlapping"));
    assert_eq!(error.error_class(), OsErrorClass::AlreadyExists);
    assert_eq!(error.kern_fn_path(), path);
    assert_eq!(error.inst_handle(), Some(4));
    assert_eq!(error.proc_id(), 10);
    assert_eq!(error.thread_id(), 11);
    let message = error.message().unwrap();
    assert_eq!(message.len(), 64);
    assert_eq!(&message[..11], b"overlapping");
    assert!(message[11..].iter().all(|byte| *byte == 0));
    let plain = OsError::new(OsErrorClass::NotFound, path, None, 0, 0, None);
    assert!(plain.message().is_none());
    assert_eq!(plain.inst_handle(), None);
    let long = "x".repeat(100);
    let cut = OsError::new(OsErrorClass::Unknown, path, None, 0, 0, Some(long.as_str()));
    assert_eq!(cut.message().unwrap().as_slice(), &[b'x'; 64][..]);
}

#[test]
fn thread_entry_data() {
    assert_eq!(
        ThreadEntryData::new_watch_callback(0x4000),
        ThreadEntryData::WatchCallback { m_entry_point: 0x4000, m_entry_arg: 0, m_thread_id: 0 }
    );
    assert_eq!(ThreadEntryData::new_user(1, 2).entry_point(), Some(1));
    assert_eq!(ThreadEntryData::new_cleaner_callback(3).entry_point(), Some(3));
    assert_eq!(ThreadEntryData::default(), ThreadEntryData::Uninit);
    assert_eq!(ThreadEntryData::Uninit.entry_point(), None);
}

#[test]
fn obj_use_bits_truncate_unnamed_bits() {
    let flags: BitFlags<u32, ObjUse> = BitFlags::from_raw_truncate(0xFFFF_FFFF);
    assert_eq!(flags.raw_bits(), 0x1FF);
    assert!(flags.is_all_of(&[ObjUse::Opening, ObjUse::Deleting, ObjUse::Sending]));
    let none: Option<BitFlags<u32, ObjUse>> = BitFlags::from_raw(0);
    assert!(none.is_none());
}

#[test]
fn obj_table_clone_and_drop_of_handles() {
    let mut table = ObjTable::new();
    let raw = table.create(ObjType::MMap, false).unwrap();
    let other = table.create(ObjType::File, true).unwrap();
    let handle = ObjId::from_raw(raw);
    let second = table.clone_handle(&handle).unwrap();
    assert_eq!(second.as_raw(), raw);
    assert_eq!(handle.as_raw(), raw);
    assert_eq!(table.refs(raw), 2);
    assert_eq!(table.refs(other), 1);
    assert_eq!(table.drop_handle(second), 2);
    assert_eq!(table.refs(raw), 1);
    assert_eq!(table.drop_handle(ObjId::default()), 0);
    assert_eq!(table.refs(raw), 1);
    assert_eq!(table.refs(other), 1);
    assert_eq!(table.drop_handle(handle), 2);
    assert_eq!(table.obj(raw), None);
    assert_eq!(table.drop_handle(ObjId::from_raw(raw)), 1);
    assert_eq!(table.clone_handle(&ObjId::from_raw(raw)), Err(OsErrorClass::InvalidHandle));
    assert_eq!(table.clone_handle(&ObjId::default()), Err(OsErrorClass::InvalidHandle));
    assert_eq!(table.clone_handle(&ObjId::from_raw(99)), Err(OsErrorClass::InvalidHandle));
    assert_eq!(table.refs(other), 1);
}

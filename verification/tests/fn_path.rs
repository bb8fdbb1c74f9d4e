use meetix::sys::call::{
    error_word, read_call_result, split_raw_call_id, KernCall,
};
use meetix::error::class::OsErrorClass;
use meetix::sys::codes::{
    KernDeviceFnId, KernDirFnId, KernFileFnId, KernHandleFnId, KernIpcChanFnId, KernLinkFnId,
    KernMMapFnId, KernMutexFnId, KernObjConfigFnId, KernObjectFnId, KernOsEntConfigFnId,
    KernOsEntFnId, KernOsGroupFnId, KernOsUserFnId, KernPathFnId, KernProcFnId,
    KernTaskConfigFnId, KernTaskFnId, KernThreadFnId, KernTimeInstFnId, KrnIteratorFnId,
};
use meetix::sys::fn_path::{KernFnPath, KERN_FN_CLASS_COUNT};

#[test]
fn kern_fn_path_round_trip() {
    let mut declared = 0;
    for class in 0..64usize {
        for fn_id in 0..64usize {
            match KernFnPath::try_from((class, fn_id)) {
                Ok(path) => {
                    declared += 1;
                    assert_eq!(path.raw_fn_class() as usize, class);
                    assert_eq!(path.raw_fn_id() as usize, fn_id);
                    assert_eq!(
                        KernFnPath::try_from((
                            path.raw_fn_class() as usize,
                            path.raw_fn_id() as usize
                        )),
                        Ok(path)
                    );
                },
                Err(()) => {},
            }
        }
    }
    assert_eq!(declared, 57);
}

#[test]
fn kern_fn_path_rejects_what_is_not_declared() {
    assert_eq!(KernFnPath::try_from((20usize, 0usize)), Err(()));
    assert_eq!(KernFnPath::try_from((usize::MAX, 0usize)), Err(()));
    assert_eq!(KernFnPath::try_from((0usize, 1usize)), Err(()));
    assert_eq!(KernFnPath::try_from((3usize, 9usize)), Err(()));
    assert_eq!(KernFnPath::try_from((3usize, usize::MAX)), Err(()));
    assert_eq!(KernFnPath::try_from((0usize, 0x1_0000usize)), Err(()));
    assert_eq!(KernFnPath::try_from((3usize, 0x1_0004usize)), Err(()));
    assert_eq!(KernFnPath::try_from((19usize, 4usize)), Err(()));
    assert_eq!(KERN_FN_CLASS_COUNT, 20);
}

#[test]
fn kern_fn_path_class_numbers() {
    let expected = [
        (KernFnPath::ObjConfig(KernObjConfigFnId::ApplyConfig), 0u16, 0u16),
        (KernFnPath::TaskConfig(KernTaskConfigFnId::InitFind), 1, 1),
        (KernFnPath::OsEntConfig(KernOsEntConfigFnId::CreateEntity), 2, 0),
        (KernFnPath::Object(KernObjectFnId::AddRef), 3, 0),
        (KernFnPath::Object(KernObjectFnId::IsValid), 3, 7),
        (KernFnPath::Object(KernObjectFnId::Drop), 3, 8),
        (KernFnPath::Task(KernTaskFnId::IsAlive), 4, 3),
        (KernFnPath::Device(KernDeviceFnId::IOSetup), 5, 4),
        (KernFnPath::Dir(KernDirFnId::InitIter), 6, 0),
        (KernFnPath::File(KernFileFnId::MapToMem), 7, 5),
        (KernFnPath::IpcChan(KernIpcChanFnId::Recv), 8, 1),
        (KernFnPath::Iterator(KrnIteratorFnId::SetEndToBeginPos), 9, 2),
        (KernFnPath::Link(KernLinkFnId::ReferTo), 10, 1),
        (KernFnPath::MMap(KernMMapFnId::IsDevice), 11, 3),
        (KernFnPath::Mutex(KernMutexFnId::Unlock), 12, 2),
        (KernFnPath::TimeInst(KernTimeInstFnId::Now), 13, 0),
        (KernFnPath::Path(KernPathFnId::Exists), 14, 0),
        (KernFnPath::OsEntity(KernOsEntFnId::Name), 15, 0),
        (KernFnPath::OsUser(KernOsUserFnId::Groups), 16, 0),
        (KernFnPath::OsGroup(KernOsGroupFnId::AddUser), 17, 0),
        (KernFnPath::Proc(KernProcFnId::UnMount), 18, 2),
        (KernFnPath::Thread(KernThreadFnId::GetEntryData), 19, 3),
    ];
    for (path, class, fn_id) in expected {
        assert_eq!(path.raw_fn_class(), class);
        assert_eq!(path.raw_fn_id(), fn_id);
        assert_eq!(KernFnPath::try_from((class as usize, fn_id as usize)), Ok(path));
    }
}

#[test]
fn kern_fn_ids_round_trip() {
    assert_eq!(KernHandleFnId::from_raw(1), Some(KernHandleFnId::Drop));
    assert_eq!(KernHandleFnId::from_raw(2), None);
    assert_eq!(KernHandleFnId::IsValid.as_raw(), 0);
    assert_eq!(KernObjectFnId::from_raw(4), Some(KernObjectFnId::Send));
    assert_eq!(KernObjectFnId::Watch.as_raw(), 6);
    assert_eq!(KernObjectFnId::from_raw(9), None);
    assert_eq!(KernObjectFnId::COUNT, 9);
    assert_eq!(KernFileFnId::from_raw(3), Some(KernFileFnId::Move));
    assert_eq!(KernFileFnId::Copy.as_raw(), 2);
    assert_eq!(KernThreadFnId::from_raw(u16::MAX), None);
    for raw in 0..KernDeviceFnId::COUNT {
        assert_eq!(KernDeviceFnId::from_raw(raw).unwrap().as_raw(), raw);
    }
    for raw in 0..KernMutexFnId::COUNT {
        assert_eq!(KernMutexFnId::from_raw(raw).unwrap().as_raw(), raw);
    }
    assert_eq!(KernTaskFnId::Yield.as_raw(), 2);
    assert_eq!(KernProcFnId::from_raw(0), Some(KernProcFnId::MainThread));
}

#[test]
fn kern_call_holds_up_to_six_arguments() {
    let path = KernFnPath::Object(KernObjectFnId::Info);
    assert!(KernCall::new(path, 1, vec![1, 2, 3, 4, 5, 6]).is_some());
    assert!(KernCall::new(path, 1, vec![1, 2, 3, 4, 5, 6, 7]).is_none());
    let call = KernCall::new(path, 9, vec![10, 20]).unwrap();
    assert_eq!(call.fn_path(), path);
    assert_eq!(call.handle_bits(), 9);
    assert_eq!(call.args_count(), 2);
    assert_eq!(call.arg(0), 10);
    assert_eq!(call.arg(1), 20);
    assert_eq!(call.arg(2), 0);
    assert_eq!(call.arg(usize::MAX), 0);
}

#[test]
fn kern_call_builders() {
    let path = KernFnPath::File(KernFileFnId::ReadData);
    let none = KernCall::with_no_args(path, 3);
    assert_eq!(none.args_count(), 0);
    assert_eq!(none.handle_bits(), 3);
    let one = KernCall::with_1_arg(path, 3, 11);
    assert_eq!((one.args_count(), one.arg(0)), (1, 11));
    let two = KernCall::with_2_args(path, 3, 11, 12);
    assert_eq!((two.args_count(), two.arg(0), two.arg(1)), (2, 11, 12));
    let three = KernCall::with_3_args(path, 3, 11, 12, 13);
    assert_eq!((three.args_count(), three.arg(2)), (3, 13));
    let four = KernCall::with_4_args(path, 3, 11, 12, 13, 14);
    assert_eq!((four.args_count(), four.arg(3)), (4, 14));
    assert_eq!(four.fn_path(), path);
}

#[test]
fn kern_call_raw_identifier() {
    let call = KernCall::with_no_args(KernFnPath::Object(KernObjectFnId::Send), 0x1234_5678);
    assert_eq!(call.raw_id(), 0x1234_5678_0003_0004);
    assert_eq!(split_raw_call_id(0x1234_5678_0003_0004), (0x1234_5678, 3, 4));
    assert_eq!(split_raw_call_id(u64::MAX), (u32::MAX, u16::MAX, u16::MAX));
    let thread = KernCall::with_no_args(KernFnPath::Thread(KernThreadFnId::WaitFor), 0);
    assert_eq!(thread.raw_id(), 0x0013_0000);
    let rebuilt = KernCall::from_raw(0x1234_5678_0003_0004, vec![7]).unwrap();
    assert_eq!(rebuilt.fn_path(), KernFnPath::Object(KernObjectFnId::Send));
    assert_eq!(rebuilt.handle_bits(), 0x1234_5678);
    assert_eq!(rebuilt.arg(0), 7);
    assert_eq!(rebuilt.raw_id(), 0x1234_5678_0003_0004);
    assert!(KernCall::from_raw(0x0014_0000, vec![]).is_err());
    assert!(KernCall::from_raw(0x0003_0009, vec![]).is_err());
    assert!(KernCall::from_raw(0x0003_0000, vec![0; 7]).is_err());
}

#[test]
fn kern_call_result_word() {
    assert_eq!(read_call_result(0), Ok(0));
    assert_eq!(read_call_result(5), Ok(5));
    assert_eq!(read_call_result(isize::MAX), Ok(isize::MAX as usize));
    assert_eq!(read_call_result(-1), Err(OsErrorClass::InvalidArgument));
    assert_eq!(read_call_result(-2), Err(OsErrorClass::InvalidHandle));
    assert_eq!(read_call_result(-3), Err(OsErrorClass::IllegalOperation));
    assert_eq!(read_call_result(-4), Err(OsErrorClass::NoPermission));
    assert_eq!(read_call_result(-5), Err(OsErrorClass::OutOfMemory));
    assert_eq!(read_call_result(-6), Err(OsErrorClass::LimitReached));
    assert_eq!(read_call_result(-7), Err(OsErrorClass::NotFound));
    assert_eq!(read_call_result(-8), Err(OsErrorClass::AlreadyExists));
    assert_eq!(read_call_result(-9), Err(OsErrorClass::Unknown));
    assert_eq!(read_call_result(isize::MIN), Err(OsErrorClass::Unknown));
    assert_eq!(error_word(OsErrorClass::InvalidHandle), -2);
    assert_eq!(error_word(OsErrorClass::AlreadyExists), -8);
    assert_eq!(error_word(OsErrorClass::Unknown), 0);
    for raw in 0..OsErrorClass::COUNT {
        assert_eq!(OsErrorClass::from_raw(raw).as_raw(), raw);
    }
    assert_eq!(OsErrorClass::from_raw(9), OsErrorClass::Unknown);
    assert_eq!(OsErrorClass::default(), OsErrorClass::Unknown);
}

#[test]
fn kern_fn_path_class_names() {
    assert_eq!(KernFnPath::Object(KernObjectFnId::AddRef).class_name(), "KernFnPath::Object");
    assert_eq!(KernFnPath::TimeInst(KernTimeInstFnId::Now).class_name(), "KernFnPath::Time");
    assert_eq!(
        KernFnPath::OsEntConfig(KernOsEntConfigFnId::InitFind).class_name(),
        "KernFnPath::OSEntConfig"
    );
    assert_eq!(KernFnPath::Thread(KernThreadFnId::WaitFor).class_name(), "KernFnPath::Thread");
}

use meetix::ent::impls::{OSGroup, OSUser};
use meetix::error::class::OsErrorClass;
use meetix::objs::object::{ObjId, Object};
use meetix::sys::codes::KernTaskConfigFnId;
use meetix::sys::fn_path::KernFnPath;
use meetix::tasks::bits::{SchedPolicy, TaskCpu, TaskPrio, TaskSpecData};
use meetix::tasks::config::{
    finder_from_result, task_from_result, CreatMode, FindMode, TaskConfig,
};
use meetix::tasks::impls::{File, Proc, Task, Thread};

#[test]
fn task_config_starts_blank() {
    let config: TaskConfig<Thread, CreatMode> = TaskConfig::new();
    assert_eq!(config.id(), None);
    assert!(config.children_parent().is_none());
    assert_eq!(config.sched_policy(), SchedPolicy::Preemptive);
    assert_eq!(config.task_prio(), TaskPrio::Normal);
    assert_eq!(config.task_cpu(), TaskCpu::Any);
    assert_eq!(*config.task_spec_data(), TaskSpecData::Unset);
    assert_eq!(config.os_user(), None);
    assert_eq!(config.os_group(), None);
}

#[test]
fn task_config_creation_settings() {
    let mut config: TaskConfig<Proc, CreatMode> = TaskConfig::new();
    config.with_sched_policy(SchedPolicy::Cooperative);
    config.with_prio(TaskPrio::High);
    config.with_cpu(TaskCpu::Mask(0b101));
    config.owned_by_user(OSUser::from_raw(3));
    config.owned_by_group(OSGroup::from_raw(4));
    assert_eq!(config.sched_policy(), SchedPolicy::Cooperative);
    assert_eq!(config.task_prio(), TaskPrio::High);
    assert_eq!(config.task_cpu(), TaskCpu::Mask(0b101));
    assert_eq!(config.os_user(), Some(OSUser::from_raw(3)));
    assert_eq!(config.os_group(), Some(OSGroup::from_raw(4)));
    let file = File::from_id(ObjId::from_raw(12));
    let call = config.run(&file, 0x3000, 2, 0x9000);
    assert_eq!(call.fn_path(), KernFnPath::TaskConfig(KernTaskConfigFnId::CreateTask));
    assert_eq!((call.handle_bits(), call.args_count(), call.arg(0)), (0, 1, 0x9000));
    assert_eq!(
        *config.task_spec_data(),
        TaskSpecData::Proc { m_file: 12, m_args_addr: 0x3000, m_args_count: 2 }
    );
    assert_eq!(config.task_prio(), TaskPrio::High);
    assert_eq!(config.run_task(0x9100).arg(0), 0x9100);
}

#[test]
fn task_config_thread_creation() {
    let mut config: TaskConfig<Thread, CreatMode> = TaskConfig::new();
    let call = config.run(0x4000, 77, 0x5000, 6, 0x9000);
    assert_eq!(call.fn_path(), KernFnPath::TaskConfig(KernTaskConfigFnId::CreateTask));
    assert_eq!(
        *config.task_spec_data(),
        TaskSpecData::Thread {
            m_entry_point: Some(0x4000),
            m_arg: Some(77),
            m_name_addr: 0x5000,
            m_name_len: 6
        }
    );
}

#[test]
fn task_config_filters() {
    let mut procs: TaskConfig<Proc, FindMode> = TaskConfig::new();
    procs.with_id(9);
    procs.children_of(Proc::from_task_id(1));
    procs.owned_by_user(OSUser::from_raw(5));
    procs.owned_by_group(OSGroup::from_raw(6));
    procs.executor_of(&File::from_id(ObjId::from_raw(33)));
    assert_eq!(procs.id(), Some(9));
    assert_eq!(procs.children_parent().map(|task| task.task_id()), Some(1));
    assert_eq!(procs.os_user(), Some(OSUser::from_raw(5)));
    assert_eq!(procs.os_group(), Some(OSGroup::from_raw(6)));
    assert_eq!(
        *procs.task_spec_data(),
        TaskSpecData::Proc { m_file: 33, m_args_addr: 0, m_args_count: 0 }
    );
    let call = procs.search(0x8000);
    assert_eq!(call.fn_path(), KernFnPath::TaskConfig(KernTaskConfigFnId::InitFind));
    assert_eq!(call.arg(0), 0x8000);
    let mut threads: TaskConfig<Thread, FindMode> = TaskConfig::new();
    threads.with_name(0x7000, 4);
    assert_eq!(
        *threads.task_spec_data(),
        TaskSpecData::Thread { m_entry_point: None, m_arg: None, m_name_addr: 0x7000, m_name_len: 4 }
    );
    assert_eq!(threads.sched_policy(), SchedPolicy::Preemptive);
}

#[test]
fn task_config_results() {
    let thread: Result<Thread, OsErrorClass> = task_from_result(21);
    assert_eq!(thread.map(|task| task.task_id()), Ok(21));
    let failed: Result<Proc, OsErrorClass> = task_from_result(-5);
    assert_eq!(failed.map(|task| task.task_id()), Err(OsErrorClass::OutOfMemory));
    assert_eq!(finder_from_result(4), Ok(4));
    assert_eq!(finder_from_result(-4), Err(OsErrorClass::NoPermission));
    assert_eq!(
        TaskSpecData::new_thread(None, Some(1), 2, 3),
        TaskSpecData::Thread { m_entry_point: None, m_arg: Some(1), m_name_addr: 2, m_name_len: 3 }
    );
    assert_eq!(File::obj_type(), meetix::objs::types::ObjType::File);
}

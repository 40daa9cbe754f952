use rust_kernel::kernel::id_allocator::{IdAllocator, MAX_TASK_IDS};
use rust_kernel::ipc::syscall::handler::{fork_abort, fork_begin, fork_commit};
use rust_kernel::kernel::scheduler::Scheduler;
use rust_kernel::kernel::task::{Task, TaskState};

fn task(id: usize, slice: usize) -> Task {
    Task {
        id,
        parent_id: 0,
        state: TaskState::New,
        kernel_stack: 0x1000 * id,
        kernel_stack_top: 0x1000 * id + 0x800,
        stack_size: 0x800,
        cr3: 0,
        instruction_pointer: 0,
        time_slice: slice,
        time_slice_max: slice,
        ticks_run: 0,
        name: "t",
    }
}

#[test]
fn test_task_state_transitions() {
    let mut t = task(100, 10);
    assert_eq!(t.state, TaskState::New);
    assert!(!t.is_runnable());
    t.set_ready();
    assert_eq!(t.state, TaskState::Ready);
    assert!(t.is_runnable());
    t.set_running();
    assert_eq!(t.state, TaskState::Running);
    assert!(t.is_runnable());
    t.set_blocked();
    assert_eq!(t.state, TaskState::Blocked);
    assert!(!t.is_runnable());
    assert_eq!(t.id, 100);
}

#[test]
fn test_task_is_runnable() {
    let mut t = task(200, 10);
    t.state = TaskState::Zombie;
    assert!(!t.is_runnable());
    t.state = TaskState::Ready;
    assert!(t.is_runnable());
}

#[test]
fn test_scheduler_init() {
    let mut s = Scheduler::new();
    assert!(s.init());
    assert!(!s.init());
    assert_eq!(s.runnable_count(), 0);
    assert!(s.current_task().is_none());
}

#[test]
fn test_task_spawn() {
    let mut s = Scheduler::new();
    s.add_task(task(1, 10));
    s.add_task(task(2, 10));
    assert_eq!(s.runnable_count(), 2);
    assert!(s.current_task().is_none());
}

#[test]
fn test_schedule_round_robin_order() {
    let mut s = Scheduler::new();
    assert_eq!(s.schedule(), None);
    s.add_task(task(1, 10));
    s.add_task(task(2, 10));
    assert_eq!(s.schedule(), Some(1));
    let cur = s.current_task().unwrap();
    assert_eq!(cur.id, 1);
    assert_eq!(cur.state, TaskState::Running);
    assert_eq!(s.runnable_count(), 2);
}

#[test]
fn test_scheduler_tick() {
    let mut s = Scheduler::new();
    s.tick();
    assert!(s.current_task().is_none());
    s.add_task(task(1, 3));
    s.schedule();
    s.tick();
    assert_eq!(s.current_task().unwrap().time_slice, 2);
    assert_eq!(s.current_task().unwrap().ticks_run, 0);
}

#[test]
fn test_scheduler_tick_time_slice() {
    let mut s = Scheduler::new();
    s.add_task(task(1, 10));
    s.schedule();
    for _ in 0..5 {
        s.tick();
    }
    assert_eq!(s.current_task().unwrap().time_slice, 5);
}

#[test]
fn test_expired_slice_goes_to_back_of_queue() {
    let mut s = Scheduler::new();
    s.add_task(task(1, 1));
    s.add_task(task(2, 1));
    assert_eq!(s.schedule(), Some(1));
    s.tick();
    assert_eq!(s.current_task().unwrap().time_slice, 0);
    s.tick();
    assert!(s.current_task().is_none());
    assert_eq!(s.runnable_count(), 2);
    assert_eq!(s.schedule(), Some(2));
    assert_eq!(s.schedule(), Some(1));
}

#[test]
fn test_scheduler_preemptive_tick() {
    let mut s = Scheduler::new();
    assert_eq!(s.preemptive_tick(), None);
    s.add_task(task(1, 1));
    s.add_task(task(2, 1));
    assert_eq!(s.preemptive_tick(), Some(0x1000));
    assert_eq!(s.current_task().unwrap().id, 1);
    assert_eq!(s.preemptive_tick(), None);
    assert_eq!(s.current_task().unwrap().id, 1);
    assert_eq!(s.preemptive_tick(), Some(0x2000));
    assert_eq!(s.current_task().unwrap().id, 2);
    assert_eq!(s.runnable_count(), 2);
    assert_eq!(s.preemptive_tick(), None);
    assert_eq!(s.preemptive_tick(), Some(0x1000));
    let cur = s.current_task().unwrap();
    assert_eq!(cur.id, 1);
    assert_eq!(cur.ticks_run, 1);
    assert_eq!(cur.time_slice, 1);
}

#[test]
fn test_zero_slice_tasks_alternate() {
    let mut s = Scheduler::new();
    s.add_task(task(1, 0));
    s.add_task(task(2, 0));
    s.schedule();
    s.tick();
    assert!(s.current_task().is_none());
    assert_eq!(s.preemptive_tick(), Some(0x2000));
    assert_eq!(s.preemptive_tick(), Some(0x1000));
    assert_eq!(s.current_task().unwrap().ticks_run, 1);
}

#[test]
fn test_remove_task() {
    let mut s = Scheduler::new();
    s.add_task(task(1, 5));
    s.add_task(task(2, 5));
    s.add_task(task(3, 5));
    s.schedule();
    s.remove_task(2);
    assert_eq!(s.runnable_count(), 2);
    s.remove_task(1);
    assert!(s.current_task().is_none());
    assert_eq!(s.runnable_count(), 1);
    assert_eq!(s.schedule(), Some(3));
    s.remove_task(42);
    assert_eq!(s.runnable_count(), 1);
}

#[test]
fn test_scheduler_reset() {
    let mut s = Scheduler::new();
    s.init();
    s.add_task(task(1, 5));
    s.schedule();
    s.add_task(task(2, 5));
    s.reset();
    assert_eq!(s.runnable_count(), 0);
    assert!(s.current_task().is_none());
    assert!(s.init());
}

#[test]
fn test_id_allocator_basic() {
    let mut ids = IdAllocator::new();
    let id1 = ids.allocate();
    let id2 = ids.allocate();
    assert!(id1.is_some() && id2.is_some() && id1 != id2);
    assert_eq!(id1, Some(1));
    assert_eq!(id2, Some(2));
    assert!(ids.is_allocated(1) && ids.is_allocated(2) && !ids.is_allocated(3));
    assert_eq!(ids.allocated_count(), 2);
}

#[test]
fn test_id_allocator_reuse() {
    let mut ids = IdAllocator::new();
    let id1 = ids.allocate().unwrap();
    ids.free(id1);
    let id2 = ids.allocate().unwrap();
    assert_eq!(id1, id2);
    let a = ids.allocate().unwrap();
    let b = ids.allocate().unwrap();
    ids.free(a);
    assert_eq!(ids.allocate(), Some(a));
    assert_eq!(b, a + 1);
    ids.free(0);
    ids.free(MAX_TASK_IDS + 1);
    assert_eq!(ids.allocated_count(), 3);
}

#[test]
fn test_id_allocator_max() {
    let mut ids = IdAllocator::new();
    for i in 1..=MAX_TASK_IDS {
        assert_eq!(ids.allocate(), Some(i));
    }
    assert_eq!(ids.allocate(), None);
    assert_eq!(ids.allocated_count(), MAX_TASK_IDS);
    ids.reset();
    assert_eq!(ids.allocated_count(), 0);
    assert_eq!(ids.allocate(), Some(1));
}

#[test]
fn test_removed_task_id_is_reused() {
    let mut s = Scheduler::new();
    let a = s.alloc_task_id().unwrap();
    let b = s.alloc_task_id().unwrap();
    assert_eq!((a, b), (1, 2));
    s.add_task(task(a, 5));
    s.add_task(task(b, 5));
    s.remove_task(a);
    assert_eq!(s.alloc_task_id(), Some(a));
    s.free_task_id(a);
    s.reset();
    assert_eq!(s.alloc_task_id(), Some(1));
    assert_eq!(s.alloc_task_id(), Some(2));
}

#[test]
fn test_spawn_takes_lowest_free_id() {
    let mut s = Scheduler::new();
    assert_eq!(s.spawn(task(99, 5)), Some(1));
    assert_eq!(s.spawn(task(99, 5)), Some(2));
    assert_eq!(s.runnable_count(), 2);
    assert_eq!(s.schedule(), Some(1));
    assert_eq!(s.current_task().unwrap().state, TaskState::Running);
    s.remove_task(1);
    assert_eq!(s.spawn(task(99, 5)), Some(1));
}

#[test]
fn test_spawn_without_free_id() {
    let mut s = Scheduler::new();
    for _ in 0..MAX_TASK_IDS {
        assert!(s.alloc_task_id().is_some());
    }
    assert_eq!(s.spawn(task(99, 5)), None);
    assert_eq!(s.runnable_count(), 0);
}

#[test]
fn test_fork_steps() {
    let mut s = Scheduler::new();
    assert_eq!(fork_begin(&mut s), Err(-12));
    let parent = s.spawn(task(0, 5)).unwrap();
    s.schedule();
    let child_id = fork_begin(&mut s).unwrap();
    assert_eq!(child_id, parent + 1);
    assert_eq!(fork_abort(&mut s, child_id), -11);
    let child_id = fork_begin(&mut s).unwrap();
    assert_eq!(child_id, parent + 1);
    assert_eq!(fork_commit(&mut s, task(child_id, 10)), child_id as isize);
    assert_eq!(s.runnable_count(), 2);
    for _ in 2..MAX_TASK_IDS {
        assert!(s.alloc_task_id().is_some());
    }
    assert_eq!(fork_begin(&mut s), Err(-11));
}

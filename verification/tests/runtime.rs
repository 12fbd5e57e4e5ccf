use may_future::ambient::{Ambient, AmbientState};
use may_future::runtime::{LocalStep, Phase, Runtime, RuntimeError, ShutdownMode};

#[test]
fn new_runtime_is_running_and_idle() {
    let runtime = Runtime::new();
    assert_eq!(runtime.phase(), Phase::Running);
    assert_eq!(runtime.in_flight(), 0);
}

#[test]
fn spawn_counts_the_task_as_in_flight() {
    let mut runtime = Runtime::new();
    assert_eq!(runtime.spawn(), Ok(()));
    assert_eq!(runtime.spawn(), Ok(()));
    assert_eq!(runtime.in_flight(), 2);
    assert!(runtime.task_finished());
    assert_eq!(runtime.in_flight(), 1);
}

#[test]
fn spawn_at_capacity_is_turned_away() {
    let mut runtime = Runtime::with_capacity(2);
    assert_eq!(runtime.spawn(), Ok(()));
    assert_eq!(runtime.spawn(), Ok(()));
    assert_eq!(runtime.spawn(), Err(RuntimeError::PoolAtCapacity));
    assert_eq!(runtime.in_flight(), 2);
    assert!(runtime.task_finished());
    assert_eq!(runtime.spawn(), Ok(()));
}

#[test]
fn runtime_without_capacity_admits_nothing() {
    let mut runtime = Runtime::with_capacity(0);
    assert_eq!(runtime.spawn(), Err(RuntimeError::PoolAtCapacity));
    assert!(runtime.block_on::<u8>().is_err());
}

#[test]
fn spawn_after_shutdown_is_turned_away() {
    let mut runtime = Runtime::new();
    runtime.shutdown_on_idle();
    assert_eq!(runtime.spawn(), Err(RuntimeError::PoolStopped));
    assert!(runtime.shutdown_complete());
    assert_eq!(runtime.phase(), Phase::Stopped);
    assert_eq!(runtime.spawn(), Err(RuntimeError::PoolStopped));

    let mut runtime = Runtime::new();
    runtime.shutdown_now();
    assert_eq!(runtime.spawn(), Err(RuntimeError::PoolStopped));
}

#[test]
fn block_on_hands_out_a_cell_for_the_output() {
    let mut runtime = Runtime::new();
    let (writer, reader) = runtime.block_on::<i32>().ok().unwrap();
    assert_eq!(runtime.in_flight(), 1);
    // The spawned task computes its output and delivers it on completion.
    writer.deliver(2 + 2);
    assert!(runtime.task_finished());
    assert_eq!(reader.wait(), 4);
    assert_eq!(runtime.in_flight(), 0);
}

#[test]
fn block_on_is_admitted_like_spawn() {
    let mut runtime = Runtime::with_capacity(1);
    assert!(runtime.block_on::<u8>().is_ok());
    match runtime.block_on::<u8>() {
        Err(e) => assert_eq!(e, RuntimeError::PoolAtCapacity),
        Ok(_) => panic!("the pool is full"),
    }
    runtime.shutdown_now();
    match runtime.block_on::<u8>() {
        Err(e) => assert_eq!(e, RuntimeError::PoolStopped),
        Ok(_) => panic!("the runtime is shutting down"),
    }
}

#[test]
fn block_on_local_twice_starts_ambient_services_once() {
    let runtime = Runtime::new();
    let mut ambient = Ambient::new();
    let mut starts = 0;
    for _ in 0..2 {
        loop {
            match runtime.block_on_local(&mut ambient) {
                Ok(LocalStep::StartAmbient) => {
                    starts += 1;
                    ambient.report(true);
                }
                Ok(LocalStep::Wait) => panic!("nobody else is starting the services"),
                Ok(LocalStep::Drive) => break,
                Err(e) => panic!("unexpected error {:?}", e),
            }
        }
    }
    assert_eq!(starts, 1);
}

#[test]
fn block_on_local_waits_while_another_fiber_starts_the_services() {
    let runtime = Runtime::new();
    let mut ambient = Ambient::new();
    assert_eq!(runtime.block_on_local(&mut ambient), Ok(LocalStep::StartAmbient));
    assert_eq!(runtime.block_on_local(&mut ambient), Ok(LocalStep::Wait));
    ambient.report(true);
    assert_eq!(runtime.block_on_local(&mut ambient), Ok(LocalStep::Drive));
}

#[test]
fn block_on_local_reports_unavailable_services() {
    let runtime = Runtime::new();
    let mut ambient = Ambient::new();
    assert_eq!(runtime.block_on_local(&mut ambient), Ok(LocalStep::StartAmbient));
    ambient.report(false);
    assert_eq!(
        runtime.block_on_local(&mut ambient),
        Err(RuntimeError::AmbientServicesUnavailable)
    );
}

#[test]
fn block_on_local_on_a_stopped_runtime_leaves_the_thread_alone() {
    let mut runtime = Runtime::new();
    runtime.shutdown_now();
    let mut ambient = Ambient::new();
    assert_eq!(runtime.block_on_local(&mut ambient), Err(RuntimeError::PoolStopped));
    assert_eq!(ambient.state(), AmbientState::Absent);
}

#[test]
fn shutdown_on_idle_completes_when_the_last_task_has_finished() {
    let tasks = 5;
    let mut runtime = Runtime::new();
    for _ in 0..tasks {
        assert_eq!(runtime.spawn(), Ok(()));
    }
    runtime.shutdown_on_idle();
    assert_eq!(runtime.phase(), Phase::ShuttingDown(ShutdownMode::OnIdle));
    let mut finished = 0;
    while !runtime.shutdown_complete() {
        assert!(finished < tasks);
        assert_eq!(runtime.phase(), Phase::ShuttingDown(ShutdownMode::OnIdle));
        assert!(runtime.task_finished());
        finished += 1;
    }
    assert_eq!(finished, tasks);
    assert_eq!(runtime.phase(), Phase::Stopped);
}

#[test]
fn shutdown_on_idle_of_an_idle_runtime_completes_at_once() {
    let mut runtime = Runtime::new();
    runtime.shutdown_on_idle();
    assert!(runtime.shutdown_complete());
    assert_eq!(runtime.phase(), Phase::Stopped);
}

#[test]
fn shutdown_now_drops_the_tasks_in_flight() {
    let mut runtime = Runtime::new();
    assert_eq!(runtime.spawn(), Ok(()));
    assert_eq!(runtime.spawn(), Ok(()));
    runtime.shutdown_now();
    assert_eq!(runtime.phase(), Phase::ShuttingDown(ShutdownMode::Now));
    assert_eq!(runtime.in_flight(), 0);
    assert!(!runtime.task_finished());
    assert!(runtime.shutdown_complete());
    assert_eq!(runtime.phase(), Phase::Stopped);
}

#[test]
fn shutdown_now_overrides_a_shutdown_on_idle() {
    let mut runtime = Runtime::new();
    assert_eq!(runtime.spawn(), Ok(()));
    runtime.shutdown_on_idle();
    assert!(!runtime.shutdown_complete());
    runtime.shutdown_now();
    assert!(runtime.shutdown_complete());
    assert_eq!(runtime.phase(), Phase::Stopped);
}

#[test]
fn running_runtime_is_never_shut_down() {
    let mut runtime = Runtime::new();
    assert!(!runtime.shutdown_complete());
    assert_eq!(runtime.phase(), Phase::Running);
}

#[test]
fn stopped_runtime_stays_stopped() {
    let mut runtime = Runtime::new();
    runtime.shutdown_now();
    assert!(runtime.shutdown_complete());
    runtime.shutdown_on_idle();
    assert_eq!(runtime.phase(), Phase::Stopped);
    runtime.shutdown_now();
    assert_eq!(runtime.phase(), Phase::Stopped);
    assert!(!runtime.task_finished());
}

#[test]
fn finished_task_without_any_in_flight_is_not_counted() {
    let mut runtime = Runtime::new();
    assert!(!runtime.task_finished());
    assert_eq!(runtime.in_flight(), 0);
}

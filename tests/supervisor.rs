use std::sync::atomic::{AtomicBool, Ordering};
use std::sync::Arc;
use std::time::Duration;

use peachy::error::MediatorError;
use peachy::supervisor::{Failure, JoinCursor, JoinOutcome, JoinStep};

#[test]
fn all_completed_finishes_after_last() {
    let mut c: JoinCursor<i32, ()> = JoinCursor::new(3);
    assert!(matches!(c.start(), JoinStep::Await(0)));
    assert!(matches!(c.on_joined(JoinOutcome::Completed), JoinStep::Await(1)));
    assert!(matches!(c.on_joined(JoinOutcome::Completed), JoinStep::Await(2)));
    assert!(matches!(c.on_joined(JoinOutcome::Completed), JoinStep::Finish(Ok(()))));
}

#[test]
fn no_tasks_finishes_at_once() {
    let c: JoinCursor<i32, ()> = JoinCursor::new(0);
    assert!(matches!(c.start(), JoinStep::Finish(Ok(()))));
}

#[test]
fn second_failure_ends_run_before_third_is_joined() {
    let mut c: JoinCursor<i32, ()> = JoinCursor::new(3);
    assert!(matches!(c.start(), JoinStep::Await(0)));
    assert!(matches!(c.on_joined(JoinOutcome::Completed), JoinStep::Await(1)));
    assert!(matches!(c.on_joined(JoinOutcome::Failed(2)), JoinStep::Finish(Err(Failure::Routine(2)))));
}

#[test]
fn crash_is_task_execution_failure() {
    let mut c: JoinCursor<i32, &str> = JoinCursor::new(2);
    assert!(matches!(c.on_joined(JoinOutcome::Crashed("boom")), JoinStep::Finish(Err(Failure::TaskExecution("boom")))));
}

#[test]
fn slow_routine_delays_success_and_failure_leaves_siblings_running() {
    let rt = tokio::runtime::Builder::new_multi_thread().enable_time().build().unwrap();
    rt.block_on(async {
        // Success waits for the slowest routine.
        let done = Arc::new(AtomicBool::new(false));
        let flag = done.clone();
        let handles = vec![
            tokio::spawn(async { Ok::<(), i32>(()) }),
            tokio::spawn(async move {
                tokio::time::sleep(Duration::from_millis(100)).await;
                flag.store(true, Ordering::SeqCst);
                Ok(())
            }),
        ];
        let r = drive(handles).await;
        assert!(matches!(r, Ok(())));
        assert!(done.load(Ordering::SeqCst));

        // The failure of the second routine is returned while the third runs on.
        let third_done = Arc::new(AtomicBool::new(false));
        let flag = third_done.clone();
        let handles = vec![
            tokio::spawn(async {
                tokio::time::sleep(Duration::from_millis(20)).await;
                Ok::<(), i32>(())
            }),
            tokio::spawn(async { Err(2) }),
            tokio::spawn(async move {
                tokio::time::sleep(Duration::from_millis(150)).await;
                flag.store(true, Ordering::SeqCst);
                Ok(())
            }),
        ];
        let r = drive(handles).await;
        assert!(matches!(r, Err(Failure::Routine(2))));
        assert!(!third_done.load(Ordering::SeqCst));
        tokio::time::sleep(Duration::from_millis(400)).await;
        assert!(third_done.load(Ordering::SeqCst));
    });
}

async fn drive(
    mut handles: Vec<tokio::task::JoinHandle<Result<(), i32>>>,
) -> Result<(), Failure<i32, tokio::task::JoinError>> {
    let mut cursor = JoinCursor::new(handles.len());
    let mut step = cursor.start();
    let mut slots: Vec<Option<tokio::task::JoinHandle<Result<(), i32>>>> = handles.drain(..).map(Some).collect();
    loop {
        match step {
            JoinStep::Await(i) => {
                let outcome = match slots[i].take().unwrap().await {
                    Ok(Ok(())) => JoinOutcome::Completed,
                    Ok(Err(e)) => JoinOutcome::Failed(e),
                    Err(j) => JoinOutcome::Crashed(j),
                };
                step = cursor.on_joined(outcome);
            }
            JoinStep::Finish(r) => return r,
        }
    }
}

#[test]
fn mediator_failure_from_join_failure() {
    let e: MediatorError<u8> = MediatorError::from_failure(Failure::Routine(MediatorError::TargetUnreachable { target: 4 }));
    assert!(matches!(e, MediatorError::TargetUnreachable { target: 4 }));

    let rt = tokio::runtime::Builder::new_current_thread().build().unwrap();
    let join_error = rt.block_on(async { tokio::spawn(async { panic!("task fault") }).await.unwrap_err() });
    let e: MediatorError<u8> = MediatorError::from_failure(Failure::TaskExecution(join_error));
    assert!(matches!(e, MediatorError::JoinHandleError(_)));
}

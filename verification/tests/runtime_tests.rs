use std::sync::atomic::AtomicUsize;
use std::sync::atomic::Ordering;
use std::sync::Arc;
use std::time::Duration;
use std::time::Instant;
use timer_lib::LoopAction;
use timer_lib::Timer;
use timer_lib::TimerError;
use timer_lib::TimerState;
use tokio::runtime::Builder;
use tokio::runtime::Runtime;
use tokio::sync::oneshot;
use tokio::sync::Mutex;
use tokio::task::JoinHandle;

fn runtime() -> Runtime {
    Builder::new_current_thread().enable_time().build().expect("a runtime")
}

/// A task that never ends by itself, and a receiver that learns of its end.
fn endless_task() -> (JoinHandle<()>, oneshot::Receiver<()>) {
    let (sender, receiver) = oneshot::channel::<()>();
    let handle = tokio::spawn(async move {
        let _held = sender;
        std::future::pending::<()>().await;
    });
    (handle, receiver)
}

/// Whether the task behind `receiver` is cancelled within a second.
async fn is_cancelled(receiver: oneshot::Receiver<()>) -> bool {
    matches!(tokio::time::timeout(Duration::from_secs(1), receiver).await, Ok(Err(_)))
}

/// The loop of a timer, with a callback that counts its invocations.
async fn run_loop(timer: Arc<Mutex<Timer>>, calls: Arc<AtomicUsize>, fail: bool) {
    let signal = timer.lock().await.pause_signal();
    let started = Instant::now();
    loop {
        let action = timer.lock().await.next_action();
        match action {
            LoopAction::Exit => break,
            LoopAction::AwaitResume => signal.notified().await,
            LoopAction::Sleep(wait) => {
                tokio::time::sleep(wait).await;
                if !timer.lock().await.should_fire() {
                    continue;
                }
                calls.fetch_add(1, Ordering::SeqCst);
                let outcome: Result<(), TimerError> = if fail {
                    Err(TimerError::CallbackError("Simulated error!".to_string()))
                } else {
                    Ok(())
                };
                if timer.lock().await.record_tick(&outcome, started.elapsed()) {
                    break;
                }
            }
        }
    }
}

#[test]
fn stop_cancels_the_attached_loop() {
    runtime().block_on(async {
        let mut timer = Timer::new();
        assert!(timer.start_recurring(Duration::from_millis(5), None).is_ok());
        let (handle, receiver) = endless_task();
        timer.attach_loop(handle);
        assert!(timer.stop().is_ok());
        assert!(is_cancelled(receiver).await);
    });
}

#[test]
fn an_attached_loop_runs_until_it_is_stopped() {
    runtime().block_on(async {
        let mut timer = Timer::new();
        assert!(timer.start_recurring(Duration::from_millis(5), None).is_ok());
        let (handle, receiver) = endless_task();
        timer.attach_loop(handle);
        assert!(timer.pause().is_ok());
        assert!(timer.resume().is_ok());
        assert!(timer.adjust_interval(Duration::from_millis(7)).is_ok());
        assert!(!is_cancelled(receiver).await);
    });
}

#[test]
fn a_new_start_cancels_the_loop_of_the_run_before() {
    runtime().block_on(async {
        let mut timer = Timer::new();
        assert!(timer.start_recurring(Duration::from_millis(5), None).is_ok());
        let (handle, receiver) = endless_task();
        timer.attach_loop(handle);
        assert!(timer.start_once(Duration::from_millis(5)).is_ok());
        assert_eq!(timer.get_state(), TimerState::Running);
        assert!(is_cancelled(receiver).await);
    });
}

#[test]
fn a_new_start_cancels_a_loop_left_over_from_a_finished_run() {
    runtime().block_on(async {
        let mut timer = Timer::new();
        assert!(timer.start_once(Duration::from_millis(5)).is_ok());
        let (handle, receiver) = endless_task();
        timer.attach_loop(handle);
        let ok: Result<(), TimerError> = Ok(());
        assert!(timer.record_tick(&ok, Duration::from_millis(5)));
        assert_eq!(timer.get_state(), TimerState::Stopped);
        assert!(timer.start_once(Duration::from_millis(5)).is_ok());
        assert!(is_cancelled(receiver).await);
    });
}

#[test]
fn a_refused_start_leaves_the_loop_alone() {
    runtime().block_on(async {
        let mut timer = Timer::new();
        assert!(timer.start_recurring(Duration::from_millis(5), None).is_ok());
        let (handle, receiver) = endless_task();
        timer.attach_loop(handle);
        assert!(timer.start_once(Duration::from_secs(0)).is_err());
        assert!(!is_cancelled(receiver).await);
    });
}

#[test]
fn attaching_a_second_loop_cancels_the_first() {
    runtime().block_on(async {
        let mut timer = Timer::new();
        assert!(timer.start_recurring(Duration::from_millis(5), None).is_ok());
        let (first, first_ended) = endless_task();
        let (second, second_ended) = endless_task();
        timer.attach_loop(first);
        timer.attach_loop(second);
        assert!(is_cancelled(first_ended).await);
        assert!(!is_cancelled(second_ended).await);
    });
}

#[test]
fn a_loop_attached_to_a_stopped_timer_is_cancelled_at_once() {
    runtime().block_on(async {
        let mut timer = Timer::new();
        let (handle, receiver) = endless_task();
        timer.attach_loop(handle);
        assert!(is_cancelled(receiver).await);
        assert_eq!(timer.get_state(), TimerState::Stopped);
    });
}

#[test]
fn resume_wakes_a_loop_that_waits_on_the_pause_signal() {
    runtime().block_on(async {
        let mut timer = Timer::new();
        assert!(timer.start_recurring(Duration::from_millis(5), None).is_ok());
        assert!(timer.pause().is_ok());
        let signal = timer.pause_signal();
        let waiter = tokio::spawn(async move { signal.notified().await });
        tokio::task::yield_now().await;
        assert!(!waiter.is_finished());
        assert!(timer.resume().is_ok());
        let woken = tokio::time::timeout(Duration::from_secs(1), waiter).await;
        assert!(matches!(woken, Ok(Ok(()))));
    });
}

#[test]
fn a_refused_resume_wakes_nobody() {
    runtime().block_on(async {
        let mut timer = Timer::new();
        assert!(timer.start_recurring(Duration::from_millis(5), None).is_ok());
        let signal = timer.pause_signal();
        assert!(timer.resume().is_err());
        let woken = tokio::time::timeout(Duration::from_millis(50), signal.notified()).await;
        assert!(woken.is_err());
    });
}

#[test]
fn a_spawned_loop_ticks_until_the_expiration_count() {
    runtime().block_on(async {
        let timer = Arc::new(Mutex::new(Timer::new()));
        let calls = Arc::new(AtomicUsize::new(0));
        let interval = Duration::from_millis(10);
        let began = Instant::now();
        {
            let mut guard = timer.lock().await;
            assert!(guard.start_recurring(interval, Some(3)).is_ok());
            let handle = tokio::spawn(run_loop(timer.clone(), calls.clone(), false));
            guard.attach_loop(handle);
        }
        while timer.lock().await.get_state() != TimerState::Stopped {
            assert!(began.elapsed() < Duration::from_secs(10));
            tokio::time::sleep(Duration::from_millis(2)).await;
        }
        assert!(began.elapsed() >= Duration::from_millis(30));
        assert_eq!(calls.load(Ordering::SeqCst), 3);
        let stats = timer.lock().await.get_statistics();
        assert_eq!(stats.execution_count, 3);
        assert!(stats.elapsed_time >= Duration::from_millis(30));
    });
}

#[test]
fn a_spawned_one_time_loop_ticks_once_with_a_failing_callback() {
    runtime().block_on(async {
        let timer = Arc::new(Mutex::new(Timer::new()));
        let calls = Arc::new(AtomicUsize::new(0));
        let began = Instant::now();
        {
            let mut guard = timer.lock().await;
            assert!(guard.start_once(Duration::from_millis(10)).is_ok());
            let handle = tokio::spawn(run_loop(timer.clone(), calls.clone(), true));
            guard.attach_loop(handle);
        }
        while timer.lock().await.get_state() != TimerState::Stopped {
            assert!(began.elapsed() < Duration::from_secs(10));
            tokio::time::sleep(Duration::from_millis(2)).await;
        }
        tokio::time::sleep(Duration::from_millis(30)).await;
        assert_eq!(calls.load(Ordering::SeqCst), 1);
        assert_eq!(timer.lock().await.get_statistics().execution_count, 1);
    });
}

#[test]
fn a_spawned_loop_does_not_tick_while_paused_or_after_stop() {
    runtime().block_on(async {
        let timer = Arc::new(Mutex::new(Timer::new()));
        let calls = Arc::new(AtomicUsize::new(0));
        {
            let mut guard = timer.lock().await;
            assert!(guard.start_recurring(Duration::from_millis(5), None).is_ok());
            let handle = tokio::spawn(run_loop(timer.clone(), calls.clone(), false));
            guard.attach_loop(handle);
        }
        tokio::time::sleep(Duration::from_millis(40)).await;
        assert!(timer.lock().await.pause().is_ok());
        let at_pause = timer.lock().await.get_statistics().execution_count;
        assert!(at_pause >= 1);
        tokio::time::sleep(Duration::from_millis(40)).await;
        assert_eq!(timer.lock().await.get_statistics().execution_count, at_pause);
        assert_eq!(calls.load(Ordering::SeqCst), at_pause);
        assert!(timer.lock().await.resume().is_ok());
        tokio::time::sleep(Duration::from_millis(40)).await;
        let after_resume = timer.lock().await.get_statistics().execution_count;
        assert!(after_resume > at_pause);
        assert!(timer.lock().await.stop().is_ok());
        let at_stop = timer.lock().await.get_statistics().execution_count;
        tokio::time::sleep(Duration::from_millis(40)).await;
        assert_eq!(timer.lock().await.get_statistics().execution_count, at_stop);
        assert_eq!(calls.load(Ordering::SeqCst), at_stop);
        assert!(matches!(timer.lock().await.stop(), Err(TimerError::TimerStopped)));
    });
}

use box_pin::measurable_future::elapsed_report;
use box_pin::measurable_future::MeasurableFuture;
use box_pin::measurable_future::Measured;
use box_pin::measurable_future::Polled;
use box_pin::measurable_future::Stage;
use std::future::Future;
use std::pin::Pin;
use std::task::Context;
use std::task::Poll;
use std::task::Waker;
use std::time::Duration;

/// Completes at the resumption after `left` pending ones, with the number of
/// times it was resumed.
struct CountDown {
    left: u32,
    resumed: u32,
}

impl Future for CountDown {
    type Output = u32;

    fn poll(mut self: Pin<&mut Self>, cx: &mut Context<'_>) -> Poll<u32> {
        self.resumed += 1;
        if self.left == 0 {
            Poll::Ready(self.resumed)
        } else {
            self.left -= 1;
            cx.waker().wake_by_ref();
            Poll::Pending
        }
    }
}

/// Drives a wrapper as an executor would, and keeps the reports it emits.
struct Reporting<'a, Fut> {
    wrapper: MeasurableFuture<Fut>,
    reports: &'a mut Vec<u128>,
}

impl<'a, Fut: Future> Future for Reporting<'a, Fut> {
    type Output = Fut::Output;

    fn poll(self: Pin<&mut Self>, cx: &mut Context<'_>) -> Poll<Fut::Output> {
        let this = self.get_mut();
        assert_ne!(this.wrapper.stage(), Stage::Done);
        match this.wrapper.poll(cx) {
            Measured::Ready { output, elapsed_nanos } => {
                this.reports.push(elapsed_nanos);
                Poll::Ready(output)
            }
            Measured::Pending => Poll::Pending,
        }
    }
}

#[test]
fn new_wrapper_is_created() {
    let wrapper = MeasurableFuture::new(std::future::ready(1u8));
    assert_eq!(wrapper.stage(), Stage::Created);
}

#[test]
fn complete_operation_reports_at_once() {
    let mut wrapper = MeasurableFuture::new(std::future::ready(42u8));
    let mut cx = Context::from_waker(Waker::noop());
    match wrapper.poll(&mut cx) {
        Measured::Ready { output, elapsed_nanos } => {
            assert_eq!(output, 42);
            assert!(elapsed_nanos < 5_000_000_000);
        }
        Measured::Pending => panic!("a complete operation was held back"),
    }
    assert_eq!(wrapper.stage(), Stage::Done);
}

#[test]
fn one_report_after_the_last_resumption() {
    let mut wrapper = MeasurableFuture::new(CountDown { left: 4, resumed: 0 });
    let mut cx = Context::from_waker(Waker::noop());
    let mut reports = 0;
    for _ in 0..4 {
        match wrapper.poll(&mut cx) {
            Measured::Pending => {}
            Measured::Ready { .. } => reports += 1,
        }
        assert_eq!(wrapper.stage(), Stage::Running);
        assert_eq!(reports, 0);
    }
    match wrapper.poll(&mut cx) {
        Measured::Pending => panic!("the operation was complete"),
        Measured::Ready { output, .. } => {
            assert_eq!(output, 5);
            reports += 1;
        }
    }
    assert_eq!(reports, 1);
    assert_eq!(wrapper.stage(), Stage::Done);
}

#[test]
fn abandoned_wrapper_reports_nothing() {
    let mut wrapper = MeasurableFuture::new(CountDown { left: 10, resumed: 0 });
    let mut cx = Context::from_waker(Waker::noop());
    for _ in 0..3 {
        assert!(matches!(wrapper.poll(&mut cx), Measured::Pending));
    }
    assert_eq!(wrapper.stage(), Stage::Running);
    drop(wrapper);
}

#[test]
fn never_resumed_wrapper_stays_created() {
    let wrapper = MeasurableFuture::new(CountDown { left: 0, resumed: 0 });
    assert_eq!(wrapper.stage(), Stage::Created);
    drop(wrapper);
}

#[test]
fn start_then_settle_by_hand() {
    let mut wrapper = MeasurableFuture::new(());
    wrapper.start();
    assert_eq!(wrapper.stage(), Stage::Running);
    assert!(matches!(wrapper.settle(Polled::<u8>::Pending), Measured::Pending));
    assert_eq!(wrapper.stage(), Stage::Running);
    wrapper.start();
    assert_eq!(wrapper.stage(), Stage::Running);
    match wrapper.settle(Polled::Ready("done")) {
        Measured::Ready { output, .. } => assert_eq!(output, "done"),
        Measured::Pending => panic!("a ready answer was held back"),
    }
    assert_eq!(wrapper.stage(), Stage::Done);
}

#[test]
fn time_runs_from_the_first_resumption() {
    let mut wrapper = MeasurableFuture::new(());
    wrapper.start();
    let began = std::time::Instant::now();
    while began.elapsed() < Duration::from_millis(2) {
        std::hint::spin_loop();
    }
    wrapper.start();
    match wrapper.settle(Polled::Ready(())) {
        Measured::Ready { elapsed_nanos, .. } => assert!(elapsed_nanos >= 2_000_000),
        Measured::Pending => panic!("a ready answer was held back"),
    }
}

#[test]
fn delay_of_one_millisecond_is_measured_once() {
    let runtime = tokio::runtime::Builder::new_current_thread().enable_time().build().unwrap();
    let mut reports = Vec::new();
    let entered = runtime.enter();
    let wrapper = MeasurableFuture::new(tokio::time::sleep(Duration::from_millis(1)));
    drop(entered);
    runtime.block_on(Reporting { wrapper, reports: &mut reports });
    assert_eq!(reports.len(), 1);
    assert!(reports[0] >= 1_000_000);
    assert!(reports[0] < 10_000_000_000);
    assert!(elapsed_report(reports[0]).starts_with("Elapsed "));
    assert!(elapsed_report(reports[0]).ends_with("ns"));
}

#[test]
fn wrapper_hands_the_result_on() {
    let runtime = tokio::runtime::Builder::new_current_thread().build().unwrap();
    let mut reports = Vec::new();
    let output = runtime.block_on(Reporting {
        wrapper: MeasurableFuture::new(CountDown { left: 2, resumed: 0 }),
        reports: &mut reports,
    });
    assert_eq!(output, 3);
    assert_eq!(reports.len(), 1);
}

//! A wrapper that times an asynchronous operation: it notes the instant of the
//! first resumption and, when the operation completes, hands its result on
//! together with the time that has passed.

use crate::text::decimal;
use crate::text::push_decimal;
use std::future::Future;
use std::pin::Pin;
use std::task::Context;
use std::task::Poll;
use std::time::Duration;
use std::time::Instant;
use vstd::prelude::*;
use vstd::string::*;

verus! {

/// `std::time::Instant`, carried through as an opaque value.
#[verifier::external_type_specification]
#[verifier::external_body]
pub struct ExInstant(Instant);

/// `std::task::Context`, carried through as an opaque value.
#[verifier::external_type_specification]
#[verifier::external_body]
pub struct ExContext<'a>(Context<'a>);

/// `std::pin::Pin`, carried through as an opaque value.
#[verifier::external_type_specification]
#[verifier::external_body]
#[verifier::reject_recursive_types(P)]
pub struct ExPin<P>(Pin<P>);

/// Where a wrapper stands in its life.
#[derive(Clone, Copy, Debug, PartialEq, Eq, Structural)]
pub enum Stage {
    /// Never resumed: no instant is recorded.
    Created,
    /// Resumed at least once and not complete.
    Running,
    /// The operation has completed and the time was reported.
    Done,
}

/// What an operation answers to one resumption.
pub enum Polled<T> {
    /// Not complete: resume again later.
    Pending,
    /// Complete, with this result.
    Ready(T),
}

/// What a wrapper answers to one resumption.
pub enum Measured<T> {
    /// The operation is not complete. Nothing is reported.
    Pending,
    /// The operation is complete: its result, and the report of the
    /// nanoseconds since the first resumption.
    Ready { output: T, elapsed_nanos: u128 },
}

/// The stage after a resumption, by whether the operation completed in it.
pub open spec fn stage_after(ready: bool) -> Stage {
    if ready {
        Stage::Done
    } else {
        Stage::Running
    }
}

/// The stage after a run of resumptions that starts in `stage`: `answers[i]`
/// tells whether the operation completed in resumption `i`.
pub open spec fn stage_after_all(stage: Stage, answers: Seq<bool>) -> Stage {
    if answers.len() == 0 {
        stage
    } else {
        stage_after(answers.last())
    }
}

/// Whether a run of resumptions that starts in `stage` keeps to the rule
/// that a wrapper is not resumed once it is done.
pub open spec fn allowed(stage: Stage, answers: Seq<bool>) -> bool {
    forall|i: int|
        0 <= i < answers.len() ==> #[trigger] stage_after_all(stage, answers.take(i))
            != Stage::Done
}

/// How many reports a run of resumptions emits: one for each resumption in
/// which the operation completed.
pub open spec fn reports(answers: Seq<bool>) -> nat
    decreases answers.len(),
{
    if answers.len() == 0 {
        0
    } else {
        reports(answers.drop_last()) + if answers.last() {
            1nat
        } else {
            0nat
        }
    }
}

/// A run in which the operation never completes emits no report.
proof fn lemma_pending_run_is_silent(answers: Seq<bool>)
    requires
        forall|i: int| 0 <= i < answers.len() ==> !answers[i],
    ensures
        reports(answers) == 0,
    decreases answers.len(),
{
    if answers.len() > 0 {
        lemma_pending_run_is_silent(answers.drop_last());
    }
}

/// An operation that is complete at the first resumption: that one
/// resumption is allowed, emits the one report and leaves the wrapper done.
/// [`MeasurableFuture::settle`] says that the result goes on unchanged.
pub proof fn lemma_complete_at_once()
    ensures
        allowed(Stage::Created, seq![true]),
        reports(seq![true]) == 1,
        stage_after_all(Stage::Created, seq![true]) == Stage::Done,
{
    let answers = seq![true];
    assert(answers.drop_last() =~= Seq::<bool>::empty());
    assert(reports(answers.drop_last()) == 0);
    assert forall|i: int| 0 <= i < answers.len() implies #[trigger] stage_after_all(
        Stage::Created,
        answers.take(i),
    ) != Stage::Done by {
        assert(answers.take(0).len() == 0);
    }
}

/// An operation that completes in its last resumption and in none before:
/// every resumption of the run is allowed, no report is emitted before the
/// last one, exactly one is emitted in all, and the wrapper ends done.
pub proof fn lemma_one_report_at_completion(answers: Seq<bool>)
    requires
        answers.len() >= 1,
        answers.last(),
        forall|i: int| 0 <= i < answers.len() - 1 ==> !answers[i],
    ensures
        allowed(Stage::Created, answers),
        forall|k: int| 0 <= k < answers.len() ==> #[trigger] reports(answers.take(k)) == 0,
        reports(answers) == 1,
        stage_after_all(Stage::Created, answers) == Stage::Done,
{
    assert forall|k: int| 0 <= k < answers.len() implies #[trigger] reports(answers.take(k))
        == 0 by {
        lemma_pending_run_is_silent(answers.take(k));
    }
    lemma_pending_run_is_silent(answers.drop_last());
    assert forall|i: int| 0 <= i < answers.len() implies #[trigger] stage_after_all(
        Stage::Created,
        answers.take(i),
    ) != Stage::Done by {
        if i > 0 {
            assert(answers.take(i).last() == answers[i - 1]);
        }
    }
}

/// A wrapper given up before the operation completes: however often it was
/// resumed, no report was emitted and it is not done.
pub proof fn lemma_no_report_without_completion(answers: Seq<bool>)
    requires
        forall|i: int| 0 <= i < answers.len() ==> !answers[i],
    ensures
        allowed(Stage::Created, answers),
        reports(answers) == 0,
        stage_after_all(Stage::Created, answers) != Stage::Done,
{
    lemma_pending_run_is_silent(answers);
    assert forall|i: int| 0 <= i < answers.len() implies #[trigger] stage_after_all(
        Stage::Created,
        answers.take(i),
    ) != Stage::Done by {
        if i > 0 {
            assert(answers.take(i).last() == answers[i - 1]);
        }
    }
}

/// The line that reports `elapsed_nanos`.
pub open spec fn report_line(elapsed_nanos: u128) -> Seq<char> {
    seq!['E', 'l', 'a', 'p', 's', 'e', 'd', ' '] + decimal(elapsed_nanos as nat) + seq!['n', 's']
}

/// Calls `Box::pin`: the operation moves to a heap cell of its own and stays
/// there. Nothing is claimed of the result.
#[verifier::external_body]
fn pin_boxed<Fut>(fut: Fut) -> Pin<Box<Fut>> {
    Box::pin(fut)
}

/// Calls `Instant::now`. Nothing is claimed of the instant.
#[verifier::external_body]
fn clock_now() -> Instant {
    Instant::now()
}

/// Calls `Instant::elapsed`. Nothing is claimed of the span.
#[verifier::external_body]
fn elapsed_since(start: &Instant) -> Duration {
    start.elapsed()
}

/// Calls `Duration::as_nanos`. Nothing is claimed of the number.
#[verifier::external_body]
fn whole_nanos(span: &Duration) -> u128 {
    span.as_nanos()
}

/// Calls `Pin::as_mut`: an exclusive handle on the operation where it lies.
/// Nothing is claimed of the handle.
#[verifier::external_body]
fn pinned_mut<Fut>(inner: &mut Pin<Box<Fut>>) -> Pin<&mut Fut> {
    inner.as_mut()
}

/// Calls `Future::poll` and tells the two answers apart. Nothing is claimed
/// of the answer.
#[verifier::external_body]
fn poll_pinned<Fut: Future>(inner: Pin<&mut Fut>, cx: &mut Context<'_>) -> Polled<Fut::Output> {
    match inner.poll(cx) {
        Poll::Ready(output) => Polled::Ready(output),
        Poll::Pending => Polled::Pending,
    }
}

/// An asynchronous operation together with the instant of its first
/// resumption.
#[verifier::reject_recursive_types(Fut)]
pub struct MeasurableFuture<Fut> {
    inner_future: Pin<Box<Fut>>,
    started_at: Option<Instant>,
    done: bool,
}

impl<Fut> MeasurableFuture<Fut> {
    /// The stage the wrapper is in.
    pub closed spec fn spec_stage(&self) -> Stage {
        if self.done {
            Stage::Done
        } else if self.started_at is Some {
            Stage::Running
        } else {
            Stage::Created
        }
    }

    /// The instant of the first resumption, once there was one.
    pub closed spec fn started_at(&self) -> Option<Instant> {
        self.started_at
    }

    /// Wraps `fut`. The operation is not resumed and no instant is recorded.
    pub fn new(fut: Fut) -> (wrapper: Self)
        ensures
            wrapper.stage() == Stage::Created,
            wrapper.started_at() is None,
    {
        Self { inner_future: pin_boxed(fut), started_at: None, done: false }
    }

    /// The stage the wrapper is in.
    #[verifier::when_used_as_spec(spec_stage)]
    pub fn stage(&self) -> (stage: Stage)
        ensures
            stage == self.spec_stage(),
    {
        if self.done {
            Stage::Done
        } else if self.started_at.is_some() {
            Stage::Running
        } else {
            Stage::Created
        }
    }

    /// The first half of a resumption: the first one records the instant, a
    /// later one leaves it as it is.
    pub fn start(&mut self)
        requires
            old(self).stage() != Stage::Done,
        ensures
            final(self).stage() == Stage::Running,
            final(self).started_at() is Some,
            old(self).stage() == Stage::Running ==> final(self).started_at() == old(
                self,
            ).started_at(),
    {
        if self.started_at.is_none() {
            self.started_at = Some(clock_now());
        }
    }

    /// The second half of a resumption: takes the operation's answer. While
    /// it is pending nothing changes and nothing is reported. Once it is
    /// ready the wrapper is done, and the result goes on unchanged with the
    /// report beside it.
    pub fn settle<T>(&mut self, answer: Polled<T>) -> (measured: Measured<T>)
        requires
            old(self).stage() == Stage::Running,
        ensures
            final(self).stage() == stage_after(answer is Ready),
            final(self).started_at() == old(self).started_at(),
            match answer {
                Polled::Pending => measured is Pending,
                Polled::Ready(output) => measured is Ready && measured->output == output,
            },
    {
        match answer {
            Polled::Pending => Measured::Pending,
            Polled::Ready(output) => {
                let span = elapsed_since(self.started_at.as_ref().unwrap());
                self.done = true;
                Measured::Ready { output, elapsed_nanos: whole_nanos(&span) }
            },
        }
    }
}

impl<Fut: Future> MeasurableFuture<Fut> {
    /// One resumption: records the instant if this is the first, resumes the
    /// operation, and settles on its answer. A report comes with the answer
    /// that completes the operation and with no other.
    pub fn poll(&mut self, cx: &mut Context<'_>) -> (measured: Measured<Fut::Output>)
        requires
            old(self).stage() != Stage::Done,
        ensures
            final(self).stage() == stage_after(measured is Ready),
            final(self).started_at() is Some,
            old(self).stage() == Stage::Running ==> final(self).started_at() == old(
                self,
            ).started_at(),
    {
        self.start();
        let answer = poll_pinned(pinned_mut(&mut self.inner_future), cx);
        self.settle(answer)
    }
}

/// Writes the report of `elapsed_nanos` out as a line of text.
pub fn elapsed_report(elapsed_nanos: u128) -> (line: String)
    ensures
        line@ == report_line(elapsed_nanos),
{
    proof {
        reveal_strlit("Elapsed ");
        reveal_strlit("ns");
    }
    let mut line = String::from_str("Elapsed ");
    push_decimal(&mut line, elapsed_nanos);
    line.append("ns");
    assert(line@ =~= report_line(elapsed_nanos));
    line
}

} // verus!

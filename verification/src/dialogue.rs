//! What a whole call writes, reads and returns, as a function of its
//! attempts, and the laws that follow.
//!
//! A call is described by its tries: the first is the wrapped function's, each
//! later one is a correction that was read and deserialized. The caller that
//! drives a call writes the report of each failed try, reads the next, and
//! stops at the first that gives a value.

use crate::recovery::{Attempt, StepView};
use crate::report::{lemma_report_shape, report_text};
use vstd::prelude::*;

verus! {

/// How many tries fail before the first that gives a value.
pub open spec fn failures<O>(tries: Seq<Attempt<O>>) -> nat
    decreases tries.len(),
{
    if tries.len() == 0 {
        0
    } else {
        match tries[0].step() {
            StepView::Done(_) => 0,
            StepView::Recovering(_) => 1 + failures(tries.skip(1)),
        }
    }
}

/// The text written over the call: the report of each failed try, in turn,
/// up to the first try that gives a value.
pub open spec fn written<O>(tries: Seq<Attempt<O>>) -> Seq<char>
    decreases tries.len(),
{
    if tries.len() == 0 {
        Seq::empty()
    } else {
        match tries[0].step() {
            StepView::Done(_) => Seq::empty(),
            StepView::Recovering(failure) => failure.report() + written(tries.skip(1)),
        }
    }
}

/// The value that the call returns: that of the first try that gives one.
/// `None` while every try so far has failed.
pub open spec fn returned<O>(tries: Seq<Attempt<O>>) -> Option<O>
    decreases tries.len(),
{
    if tries.len() == 0 {
        None
    } else {
        match tries[0].step() {
            StepView::Done(value) => Some(value),
            StepView::Recovering(_) => returned(tries.skip(1)),
        }
    }
}

/// How many corrections the call has read: one after each failed try, as far
/// as a later try is there.
pub open spec fn reads<O>(tries: Seq<Attempt<O>>) -> nat {
    if tries.len() == 0 {
        0
    } else if failures(tries) < tries.len() {
        failures(tries)
    } else {
        (tries.len() - 1) as nat
    }
}

/// The text written over several calls, one after the other.
pub open spec fn session_written<O>(calls: Seq<Seq<Attempt<O>>>) -> Seq<char>
    decreases calls.len(),
{
    if calls.len() == 0 {
        Seq::empty()
    } else {
        written(calls[0]) + session_written(calls.skip(1))
    }
}

/// The number of corrections read over several calls.
pub open spec fn session_reads<O>(calls: Seq<Seq<Attempt<O>>>) -> nat
    decreases calls.len(),
{
    if calls.len() == 0 {
        0
    } else {
        reads(calls[0]) + session_reads(calls.skip(1))
    }
}

/// A try that failed, by its input and the text of its error.
pub open spec fn failed<O>(input: Seq<char>, error: Seq<char>) -> Attempt<O> {
    Attempt { input, outcome: Err(error) }
}

/// A try that gave `value`.
pub open spec fn gave<O>(input: Seq<char>, value: O) -> Attempt<O> {
    Attempt { input, outcome: Ok(value) }
}

/// Where the wrapped function gives a value, the call returns that value and
/// touches neither stream, whatever corrections may be waiting.
pub proof fn law_success_passes_through<O>(tries: Seq<Attempt<O>>, value: O)
    requires
        tries.len() > 0,
        tries[0].outcome == Ok::<O, Seq<char>>(value),
    ensures
        returned(tries) == Some(value),
        written(tries) == Seq::<char>::empty(),
        reads(tries) == 0,
{
}

/// Where the wrapped function fails and the first correction gives a value,
/// the call returns that value, has read once, and has written one report
/// and no more: that of the wrapped function's failure.
pub proof fn law_single_recovery<O>(
    input: Seq<char>,
    error: Seq<char>,
    text: Seq<char>,
    value: O,
    rest: Seq<Attempt<O>>,
)
    ensures
        returned(seq![failed(input, error), gave(text, value)] + rest) == Some(value),
        written(seq![failed(input, error), gave(text, value)] + rest) == report_text(
            input,
            error,
        ),
        reads(seq![failed(input, error), gave(text, value)] + rest) == 1,
{
    let tries = seq![failed::<O>(input, error), gave(text, value)] + rest;
    let tail = tries.skip(1);
    assert(tail[0] == gave(text, value));
    assert(written(tail) == Seq::<char>::empty());
    assert(written(tries) =~= report_text(input, error));
    assert(failures(tail) == 0);
    assert(returned(tail) == Some(value));
}

/// Where a correction fails too, a second report follows the first, and it
/// shows the correction and the error of deserializing it, not what the
/// wrapped function was given or said. The value of the next correction is
/// returned.
pub proof fn law_bad_correction_is_reported<O>(
    input: Seq<char>,
    error: Seq<char>,
    bad_text: Seq<char>,
    bad_error: Seq<char>,
    text: Seq<char>,
    value: O,
)
    ensures
        returned(seq![failed(input, error), failed(bad_text, bad_error), gave(text, value)])
            == Some(value),
        written(seq![failed(input, error), failed(bad_text, bad_error), gave(text, value)])
            == report_text(input, error) + report_text(bad_text, bad_error),
        reads(seq![failed(input, error), failed(bad_text, bad_error), gave(text, value)]) == 2,
{
    let tries = seq![failed::<O>(input, error), failed(bad_text, bad_error), gave(text, value)];
    let tail = tries.skip(1);
    let last = tail.skip(1);
    assert(tail[0] == failed::<O>(bad_text, bad_error));
    assert(last[0] == gave(text, value));
    assert(written(last) == Seq::<char>::empty());
    assert(written(tail) =~= report_text(bad_text, bad_error));
    assert(written(tries) =~= report_text(input, error) + report_text(bad_text, bad_error));
    assert(failures(last) == 0);
    assert(failures(tail) == 1);
    assert(returned(last) == Some(value));
    assert(returned(tail) == Some(value));
}

/// The tries that fail come first, and there are no more of them than tries.
pub proof fn lemma_failures_come_first<O>(tries: Seq<Attempt<O>>)
    ensures
        failures(tries) <= tries.len(),
        forall|k: int| 0 <= k < failures(tries) ==> (#[trigger] tries[k]).outcome is Err,
        failures(tries) < tries.len() ==> tries[failures(tries) as int].outcome is Ok,
    decreases tries.len(),
{
    if tries.len() > 0 && tries[0].outcome is Err {
        let tail = tries.skip(1);
        lemma_failures_come_first(tail);
        assert forall|k: int| 0 <= k < failures(tries) implies (#[trigger] tries[k]).outcome
            is Err by {
            if k > 0 {
                assert(tries[k] == tail[k - 1]);
            }
        }
        if failures(tries) < tries.len() {
            assert(tries[failures(tries) as int] == tail[failures(tail) as int]);
        }
    }
}

/// The call returns once a try gives a value, and returns the value of the
/// first try that does. Until then it returns nothing.
pub proof fn law_returns_first_value<O>(tries: Seq<Attempt<O>>)
    ensures
        returned(tries) is Some <==> failures(tries) < tries.len(),
        failures(tries) < tries.len() ==> tries[failures(tries) as int].outcome == Ok::<
            O,
            Seq<char>,
        >(returned(tries)->Some_0),
    decreases tries.len(),
{
    if tries.len() > 0 && tries[0].outcome is Err {
        let tail = tries.skip(1);
        law_returns_first_value(tail);
        if failures(tries) < tries.len() {
            assert(tries[failures(tries) as int] == tail[failures(tail) as int]);
        }
    }
}

/// Every failed try is reported in its turn and in the exact form: what the
/// call writes is what the earlier tries had written, then the report of this
/// try, then what the later tries write.
pub proof fn law_reports_in_turn<O>(tries: Seq<Attempt<O>>, k: int)
    requires
        0 <= k < failures(tries),
    ensures
        k < tries.len(),
        tries[k].outcome is Err,
        written(tries) == written(tries.take(k)) + report_text(
            tries[k].input,
            tries[k].outcome->Err_0,
        ) + written(tries.skip(k + 1)),
    decreases k,
{
    lemma_failures_come_first(tries);
    let tail = tries.skip(1);
    let this = report_text(tries[k].input, tries[k].outcome->Err_0);
    if k == 0 {
        assert(tries.take(0).len() == 0);
        assert(written(tries) =~= written(tries.take(0)) + this + written(tail));
    } else {
        law_reports_in_turn(tail, k - 1);
        let head = tries.take(k);
        assert(head[0] == tries[0]);
        assert(head.skip(1) =~= tail.take(k - 1));
        assert(tail.skip(k) =~= tries.skip(k + 1));
        assert(tail[k - 1] == tries[k]);
        assert(written(head) == tries[0].step()->Recovering_0.report() + written(head.skip(1)));
        assert(written(tries) =~= written(head) + this + written(tries.skip(k + 1)));
    }
}

/// Whatever has been written ends with the prompt: after the last `Fix: `
/// comes nothing, no newline and no other character.
pub proof fn law_written_ends_with_prompt<O>(tries: Seq<Attempt<O>>)
    requires
        failures(tries) > 0,
    ensures
        "Fix: "@.is_suffix_of(written(tries)),
        written(tries).last() == ' ',
    decreases tries.len(),
{
    let tail = tries.skip(1);
    let first = tries[0].step()->Recovering_0;
    lemma_report_shape(first.input, first.error);
    reveal_strlit("Fix: ");
    let whole = written(tries);
    if failures(tail) == 0 {
        assert(written(tail) =~= Seq::<char>::empty());
        assert(whole =~= first.report());
    } else {
        law_written_ends_with_prompt(tail);
        let rest = written(tail);
        assert(rest.len() >= 5);
        assert(whole.len() == first.report().len() + rest.len());
        assert(whole.subrange(whole.len() - 5, whole.len() as int) =~= rest.subrange(
            rest.len() - 5,
            rest.len() as int,
        ));
    }
}

/// Calls on which the wrapped function gives a value at once touch neither
/// stream, however many they are and in whatever order they come; each
/// returns the value that the function gave.
pub proof fn law_successes_touch_nothing<O>(calls: Seq<Seq<Attempt<O>>>)
    requires
        forall|k: int|
            0 <= k < calls.len() ==> (#[trigger] calls[k]).len() > 0 && calls[k][0].outcome
                is Ok,
    ensures
        session_written(calls) == Seq::<char>::empty(),
        session_reads(calls) == 0,
        forall|k: int|
            0 <= k < calls.len() ==> returned(#[trigger] calls[k]) == Some(
                calls[k][0].outcome->Ok_0,
            ),
    decreases calls.len(),
{
    if calls.len() > 0 {
        let later = calls.skip(1);
        assert forall|k: int| 0 <= k < later.len() implies (#[trigger] later[k]).len() > 0
            && later[k][0].outcome is Ok by {
            assert(later[k] == calls[k + 1]);
        }
        law_successes_touch_nothing(later);
        assert(calls[0].len() > 0 && calls[0][0].outcome is Ok);
        assert(session_written(calls) =~= Seq::<char>::empty());
    }
}

} // verus!

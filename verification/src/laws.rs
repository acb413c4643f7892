//! Guarantees of the chain driver that span several operations, stated
//! over the driver's mathematical state and proved once and for all.

use crate::network::{NodeInput, spec_snapshot};
use crate::terminal::{
    ModelState, progress_of, spec_outcome_failure, spec_outcome_success, spec_poll_complete,
    spec_poll_unit, spec_submit_err, spec_submit_ok,
};
use vstd::prelude::*;

verus! {

/// One full scheduling step of an all-success run: hand out the next
/// unit, then record its successful outcome.
pub open spec fn spec_step_success(
    m: ModelState,
    captured: Seq<char>,
    result: Option<Seq<char>>,
) -> ModelState {
    spec_outcome_success(spec_poll_unit(m), captured, result)
}

/// A run of successful steps, one per outcome, in order.
pub open spec fn spec_run_success(
    m: ModelState,
    outs: Seq<(Seq<char>, Option<Seq<char>>)>,
) -> ModelState
    decreases outs.len(),
{
    if outs.len() == 0 {
        m
    } else {
        spec_run_success(spec_step_success(m, outs[0].0, outs[0].1), outs.drop_first())
    }
}

/// The transcript segments an all-success run appends: for each unit its
/// captured output, then its result text when it produced one.
pub open spec fn success_segments(outs: Seq<(Seq<char>, Option<Seq<char>>)>) -> Seq<Seq<char>>
    decreases outs.len(),
{
    if outs.len() == 0 {
        Seq::empty()
    } else {
        (match outs[0].1 {
            Some(s) => seq![outs[0].0, s],
            None => seq![outs[0].0],
        }) + success_segments(outs.drop_first())
    }
}

/// What a run of successful steps does to the driver's state: it stays
/// running, consumes the first `outs.len()` queued units in order, counts
/// one finished unit and one execution call per outcome, appends exactly
/// the per-unit segments to the transcript, leaves history and status
/// alone, and reports the progress of the units now done.
pub proof fn lemma_run_success_effect(m: ModelState, outs: Seq<(Seq<char>, Option<Seq<char>>)>)
    requires
        m.phase is Running,
        !m.in_flight,
        outs.len() <= m.remaining.len(),
    ensures
        ({
            let f = spec_run_success(m, outs);
            &&& f.phase is Running
            &&& !f.in_flight
            &&& f.done == m.done + outs.len()
            &&& f.calls == m.calls + outs.len()
            &&& f.remaining =~= m.remaining.skip(outs.len() as int)
            &&& f.history == m.history
            &&& f.status == m.status
            &&& f.command == m.command
            &&& f.label_template == m.label_template
            &&& f.network == m.network
            &&& f.transcript =~= m.transcript + success_segments(outs)
            &&& f.progress == if outs.len() == 0 {
                m.progress
            } else {
                progress_of(m.done + outs.len(), m.done + m.remaining.len())
            }
        }),
    decreases outs.len(),
{
    if outs.len() == 0 {
        assert(m.remaining.skip(0) =~= m.remaining);
        assert(m.transcript + success_segments(outs) =~= m.transcript);
    } else {
        let m1 = spec_step_success(m, outs[0].0, outs[0].1);
        let seg0 = match outs[0].1 {
            Some(s) => seq![outs[0].0, s],
            None => seq![outs[0].0],
        };
        assert(m1.remaining =~= m.remaining.skip(1));
        assert(m1.transcript =~= m.transcript + seg0);
        assert(m1.done == m.done + 1);
        assert(m1.progress == progress_of(m.done + 1, m.done + m.remaining.len()));
        lemma_run_success_effect(m1, outs.drop_first());
        let f = spec_run_success(m1, outs.drop_first());
        assert(f.remaining =~= m1.remaining.skip(outs.len() - 1 as int));
        assert(m1.remaining.skip(outs.len() - 1) =~= m.remaining.skip(outs.len() as int));
        assert(f.transcript =~= m1.transcript + success_segments(outs.drop_first()));
        assert(m1.transcript + success_segments(outs.drop_first()) =~= m.transcript + (seg0
            + success_segments(outs.drop_first())));
        assert(seg0 + success_segments(outs.drop_first()) =~= success_segments(outs));
        if outs.len() - 1 > 0 {
            assert(f.progress == progress_of((m1.done + outs.len() - 1) as nat, (m1.done
                + m1.remaining.len()) as nat));
            assert(m1.done + m1.remaining.len() == m.done + m.remaining.len());
        }
    }
}

/// Within one chain's life progress never goes backwards: over a fresh
/// chain, every prefix of an all-success run reports at most what the
/// whole run reports.
pub proof fn lemma_progress_nondecreasing(
    m: ModelState,
    outs: Seq<(Seq<char>, Option<Seq<char>>)>,
    j: int,
)
    requires
        m.phase is Running,
        !m.in_flight,
        m.done == 0,
        m.progress == 0,
        outs.len() <= m.remaining.len(),
        0 <= j <= outs.len(),
    ensures
        spec_run_success(m, outs.take(j)).progress <= spec_run_success(m, outs).progress,
{
    lemma_run_success_effect(m, outs);
    lemma_run_success_effect(m, outs.take(j));
    if j > 0 && outs.len() > 0 {
        crate::terminal::lemma_progress_monotone(
            j as nat,
            outs.len() as nat,
            m.remaining.len() as nat,
        );
    }
}

/// For a script that parses into units none of which fails: after the
/// final scheduling step the chain is complete, progress is exactly 100,
/// every unit was handed out and finished in submission order, and the
/// transcript gained exactly the per-unit segments, in that order.
pub proof fn lemma_chain_all_success(m: ModelState, outs: Seq<(Seq<char>, Option<Seq<char>>)>)
    requires
        m.phase is Running,
        !m.in_flight,
        outs.len() == m.remaining.len(),
    ensures
        ({
            let f = spec_poll_complete(spec_run_success(m, outs));
            &&& f.phase is Completed
            &&& !(f.phase is Running)
            &&& f.progress == 100
            &&& f.done == m.done + outs.len()
            &&& f.calls == m.calls + outs.len()
            &&& f.remaining.len() == 0
            &&& f.history == m.history
            &&& f.transcript =~= m.transcript + success_segments(outs)
        }),
{
    lemma_run_success_effect(m, outs);
    assert(m.remaining.skip(outs.len() as int).len() == 0);
}

/// For a chain whose unit `k` (1-indexed) fails after `k - 1` successes:
/// exactly `k` units were handed out for execution, the units after the
/// failing one are discarded unexecuted, progress keeps the value it had
/// after the `k - 1` successes, the captured output and the error text
/// close the transcript, and the running indicator is off.
pub proof fn lemma_chain_failure(
    m: ModelState,
    outs: Seq<(Seq<char>, Option<Seq<char>>)>,
    captured: Seq<char>,
    err: Seq<char>,
)
    requires
        m.phase is Running,
        !m.in_flight,
        outs.len() < m.remaining.len(),
    ensures
        ({
            let pre = spec_run_success(m, outs);
            let f = spec_outcome_failure(spec_poll_unit(pre), captured, err);
            &&& f.phase is Aborted
            &&& !(f.phase is Running)
            &&& f.calls == m.calls + outs.len() + 1
            &&& f.done == m.done + outs.len()
            &&& f.remaining.len() == 0
            &&& f.progress == pre.progress
            &&& f.history == m.history
            &&& f.transcript =~= m.transcript + success_segments(outs) + seq![captured, err]
        }),
{
    lemma_run_success_effect(m, outs);
    let pre = spec_run_success(m, outs);
    let f = spec_outcome_failure(spec_poll_unit(pre), captured, err);
    assert(f.transcript =~= m.transcript + success_segments(outs) + seq![captured, err]);
}

/// One observable event in the life of the driver.
pub enum DriverEvent {
    /// a script was submitted and parsed into the given units
    SubmitOk(Seq<char>, Seq<nadi_core::tasks::Task>),
    /// a script was submitted and rejected with the given error
    SubmitErr(Seq<char>),
    /// the next unit was handed out
    PollUnit,
    /// no unit remained and the chain completed
    PollComplete,
    /// the handed-out unit succeeded
    Success(Seq<char>, Option<Seq<char>>),
    /// the handed-out unit failed
    Failure(Seq<char>, Seq<char>),
    /// the view snapshot was rebuilt
    Refresh(Seq<NodeInput>),
}

/// The state transition each event performs.
pub open spec fn apply_event(m: ModelState, e: DriverEvent) -> ModelState {
    match e {
        DriverEvent::SubmitOk(script, units) => spec_submit_ok(m, script, units),
        DriverEvent::SubmitErr(err) => spec_submit_err(m, err),
        DriverEvent::PollUnit => spec_poll_unit(m),
        DriverEvent::PollComplete => spec_poll_complete(m),
        DriverEvent::Success(captured, result) => spec_outcome_success(m, captured, result),
        DriverEvent::Failure(captured, err) => spec_outcome_failure(m, captured, err),
        DriverEvent::Refresh(inputs) => ModelState {
            network: spec_snapshot(inputs),
            status: Seq::empty(),
            ..m
        },
    }
}

/// A whole sequence of events, applied in order.
pub open spec fn apply_events(m: ModelState, es: Seq<DriverEvent>) -> ModelState
    decreases es.len(),
{
    if es.len() == 0 {
        m
    } else {
        apply_events(apply_event(m, es[0]), es.drop_first())
    }
}

/// The scripts that were submitted and accepted, in submission order.
pub open spec fn submitted_scripts(es: Seq<DriverEvent>) -> Seq<Seq<char>>
    decreases es.len(),
{
    if es.len() == 0 {
        Seq::empty()
    } else {
        (match es[0] {
            DriverEvent::SubmitOk(script, _) => seq![script],
            _ => Seq::empty(),
        }) + submitted_scripts(es.drop_first())
    }
}

/// History ordering: whatever the driver goes through — chains that
/// complete, chains that abort, rejected scripts, refreshes — the history
/// records exactly the accepted scripts, in submission order.
pub proof fn lemma_history_ordering(m: ModelState, es: Seq<DriverEvent>)
    ensures
        apply_events(m, es).history =~= m.history + submitted_scripts(es),
    decreases es.len(),
{
    if es.len() == 0 {
        assert(m.history + submitted_scripts(es) =~= m.history);
    } else {
        let m1 = apply_event(m, es[0]);
        lemma_history_ordering(m1, es.drop_first());
        match es[0] {
            DriverEvent::SubmitOk(script, _) => {
                assert(m1.history =~= m.history + seq![script]);
            },
            _ => {
                assert(m1.history == m.history);
            },
        }
        assert(m1.history + submitted_scripts(es.drop_first()) =~= m.history + submitted_scripts(
            es,
        ));
    }
}

/// The transcript is append-only: no event sequence ever rewrites or
/// drops what the driver has already reported.
pub proof fn lemma_transcript_append_only(m: ModelState, es: Seq<DriverEvent>)
    ensures
        m.transcript.is_prefix_of(apply_events(m, es).transcript),
    decreases es.len(),
{
    if es.len() == 0 {
    } else {
        let m1 = apply_event(m, es[0]);
        lemma_transcript_append_only(m1, es.drop_first());
        assert(m.transcript.is_prefix_of(m1.transcript)) by {
            assert(m.transcript =~= m1.transcript.subrange(0, m.transcript.len() as int));
        }
        let f = apply_events(m, es);
        assert(m.transcript =~= f.transcript.subrange(0, m.transcript.len() as int));
    }
}

} // verus!

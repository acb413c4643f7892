//! The chain driver: an explicit state machine that turns a submitted
//! script into an ordered chain of units and drives it one unit per
//! scheduling step.
//!
//! The host loop drives a running chain by alternating two calls:
//! [`Terminal::poll`] hands out the next unit in strict submission order
//! (or finishes the chain when none remain), and
//! [`Terminal::apply_outcome`] records what executing that unit produced.
//! Executing a unit — through the engine's execution context, inside a
//! scoped capture of the process-wide standard output — is the host
//! loop's job: the context is synchronous and not reentrant, so exactly
//! one unit runs per step and never concurrently.

use crate::engine::{spec_dates_ok, spec_parse_ok, spec_template_ok, token_date_ok, tokens_dates_ok};
use crate::network::{NetModel, NetworkData, NodeInput, spec_snapshot};
use crate::text::{split_once_space, str_eq, str_starts_with};
use vstd::arithmetic::div_mod::{lemma_div_is_ordered, lemma_div_multiples_vanish};
use vstd::arithmetic::mul::lemma_mul_inequality;
use vstd::prelude::*;

verus! {

/// Integer percentage of `done` units out of `total`.
///
/// An empty chain counts as fully done: the driver reports 100 as soon as
/// there is nothing left to run.
pub open spec fn progress_of(done: nat, total: nat) -> nat {
    if total == 0 {
        100
    } else {
        done * 100 / total
    }
}

/// The percentage never exceeds 100 while `done <= total`.
pub proof fn lemma_progress_bounded(done: nat, total: nat)
    requires
        done <= total,
    ensures
        progress_of(done, total) <= 100,
{
    if total > 0 {
        lemma_mul_inequality(done as int, total as int, 100);
        lemma_div_is_ordered((done * 100) as int, (total * 100) as int, total as int);
        lemma_div_multiples_vanish(100, total as int);
        assert(total * 100 == (total as int) * 100);
    }
}

/// Progress is monotone in the number of finished units: within one chain
/// (fixed `total`) a later step never reports a smaller percentage.
pub proof fn lemma_progress_monotone(done1: nat, done2: nat, total: nat)
    requires
        done1 <= done2,
    ensures
        progress_of(done1, total) <= progress_of(done2, total),
{
    if total > 0 {
        lemma_mul_inequality(done1 as int, done2 as int, 100);
        lemma_div_is_ordered((done1 * 100) as int, (done2 * 100) as int, total as int);
    }
}

/// Progress reaches 100 exactly when every unit of the chain has run.
pub proof fn lemma_progress_complete(done: nat, total: nat)
    requires
        done <= total,
    ensures
        progress_of(done, total) == 100 <==> done == total,
{
    if total > 0 {
        lemma_div_multiples_vanish(100, total as int);
        assert(total * 100 == (total as int) * 100);
        if done < total {
            vstd::arithmetic::mul::lemma_mul_strict_inequality(done as int, total as int, 100);
            vstd::arithmetic::div_mod::lemma_multiply_divide_lt(
                (done * 100) as int,
                total as int,
                100,
            );
        }
    }
}

/// Executable percentage computation, exact per `progress_of`.
pub fn percent(done: usize, total: usize) -> (r: u8)
    requires
        done <= total,
    ensures
        r == progress_of(done as nat, total as nat),
{
    if total == 0 {
        100
    } else {
        proof {
            lemma_mul_inequality(done as int, u64::MAX as int, 100);
            lemma_progress_bounded(done as nat, total as nat);
        }
        ((done as u128 * 100) / (total as u128)) as u8
    }
}

/// Where the driver stands.  `Completed` and `Aborted` are terminal: only
/// a new submission re-enters `Running`.
#[derive(Clone, Copy, Debug, PartialEq, Eq, Structural)]
pub enum Phase {
    /// nothing submitted yet
    Idle,
    /// a chain is in flight
    Running,
    /// the last chain ran every unit
    Completed,
    /// the last chain stopped at a failing unit
    Aborted,
}

/// What the host loop should do after an outcome is recorded: refresh the
/// derived view and schedule the next step, or stop scheduling.
#[derive(Clone, Copy, Debug, PartialEq, Eq, Structural)]
pub enum Directive {
    /// the unit succeeded: rebuild the view snapshot, then poll again
    RefreshAndContinue,
    /// the unit failed: the chain is aborted, schedule nothing further
    Stop,
}

/// Mathematical state of the driver.
#[verifier::ext_equal]
pub struct ModelState {
    pub phase: Phase,
    /// units of the current chain whose outcome has been recorded
    pub done: nat,
    /// units still queued, next one first
    pub remaining: Seq<nadi_core::tasks::Task>,
    /// a unit has been handed out and its outcome not yet recorded
    pub in_flight: bool,
    /// units handed out for execution since the last submission
    pub calls: nat,
    /// latest reported percentage
    pub progress: nat,
    /// every successfully parsed script, in submission order
    pub history: Seq<Seq<char>>,
    /// everything the driver has reported, in order
    pub transcript: Seq<Seq<char>>,
    /// status line: the latest parse error, or empty
    pub status: Seq<char>,
    /// the command line being edited
    pub command: Seq<char>,
    /// the label template source text
    pub label_template: Seq<char>,
    /// content of the view snapshot
    pub network: NetModel,
}

/// Successful submission: the parsed units are queued in parse order, the
/// script is recorded in the history and echoed into the transcript, and
/// progress restarts at 0.
pub open spec fn spec_submit_ok(
    m: ModelState,
    script: Seq<char>,
    units: Seq<nadi_core::tasks::Task>,
) -> ModelState {
    ModelState {
        phase: Phase::Running,
        done: 0,
        remaining: units,
        in_flight: false,
        calls: 0,
        progress: 0,
        history: m.history.push(script),
        transcript: m.transcript.push(script),
        status: Seq::empty(),
        ..m
    }
}

/// Rejected submission: only the status line changes; history, transcript
/// and progress keep their pre-submission values.
pub open spec fn spec_submit_err(m: ModelState, err: Seq<char>) -> ModelState {
    ModelState { status: err, ..m }
}

/// A unit is handed out: strict FIFO, one more execution call.
pub open spec fn spec_poll_unit(m: ModelState) -> ModelState {
    ModelState { remaining: m.remaining.drop_first(), in_flight: true, calls: m.calls + 1, ..m }
}

/// No unit remains: the chain completes and progress is pinned at 100.
pub open spec fn spec_poll_complete(m: ModelState) -> ModelState {
    ModelState { phase: Phase::Completed, progress: 100, ..m }
}

/// A unit succeeded: its captured output and result text join the
/// transcript back to back, and progress advances to the fraction of the
/// chain now done.
pub open spec fn spec_outcome_success(
    m: ModelState,
    captured: Seq<char>,
    result: Option<Seq<char>>,
) -> ModelState {
    ModelState {
        done: m.done + 1,
        in_flight: false,
        progress: progress_of(m.done + 1, m.done + 1 + m.remaining.len()),
        transcript: match result {
            Some(s) => m.transcript.push(captured).push(s),
            None => m.transcript.push(captured),
        },
        ..m
    }
}

/// A unit failed: its captured output and the error text join the
/// transcript, the rest of the chain is discarded unexecuted, and
/// progress keeps the value it had after the last success.
pub open spec fn spec_outcome_failure(
    m: ModelState,
    captured: Seq<char>,
    err: Seq<char>,
) -> ModelState {
    ModelState {
        phase: Phase::Aborted,
        in_flight: false,
        remaining: Seq::empty(),
        transcript: m.transcript.push(captured).push(err),
        ..m
    }
}

/// The interactive console driver.
///
/// `Default` builds the same fresh driver as [`Terminal::new`].
pub struct Terminal {
    /// displayed with the light theme
    pub light_theme: bool,
    phase: Phase,
    done: usize,
    chain: Vec<nadi_core::tasks::Task>,
    in_flight: bool,
    calls: usize,
    progress: u8,
    history_str: Vec<String>,
    transcript: Vec<String>,
    status: String,
    command: String,
    label_template: String,
    network: NetworkData,
    embedded: bool,
}

impl View for Terminal {
    type V = ModelState;

    closed spec fn view(&self) -> ModelState {
        ModelState {
            phase: self.phase,
            done: self.done as nat,
            remaining: self.chain@,
            in_flight: self.in_flight,
            calls: self.calls as nat,
            progress: self.progress as nat,
            history: self.history_str.deep_view(),
            transcript: self.transcript.deep_view(),
            status: self.status@,
            command: self.command@,
            label_template: self.label_template@,
            network: self.network@,
        }
    }
}

impl Default for Terminal {
    /// A fresh driver, as [`Terminal::new`] builds it.
    fn default() -> (r: Self)
        ensures
            r.wf(),
            r@.phase is Idle,
            r@.history.len() == 0,
            r@.transcript.len() == 0,
    {
        Terminal::new()
    }
}

impl Terminal {
    /// Driver well-formedness, established by every constructor and kept
    /// by every operation.
    pub open spec fn wf(&self) -> bool {
        &&& self@.calls == self@.done + (if self@.in_flight {
            1nat
        } else {
            0nat
        }) + (if self@.phase is Aborted {
            1nat
        } else {
            0nat
        })
        &&& (self@.in_flight ==> self@.phase is Running)
        &&& (!(self@.phase is Running) ==> self@.remaining.len() == 0 && !self@.in_flight)
        &&& self@.done + self@.remaining.len() + (if self@.in_flight {
            1int
        } else {
            0int
        }) <= usize::MAX
        &&& self@.progress <= 100
        &&& (self@.phase is Completed ==> self@.progress == 100)
    }

    /// A fresh driver: idle, with empty history, transcript and snapshot.
    pub fn new() -> (r: Self)
        ensures
            r.wf(),
            r@.phase is Idle,
            r@.done == 0,
            r@.calls == 0,
            r@.progress == 0,
            r@.remaining.len() == 0,
            !r@.in_flight,
            r@.history.len() == 0,
            r@.transcript.len() == 0,
            r@.status.len() == 0,
            r@.command.len() == 0,
            r@.label_template.len() == 0,
            r@.network == spec_snapshot(Seq::<NodeInput>::empty()),
    {
        Terminal {
            light_theme: false,
            phase: Phase::Idle,
            done: 0,
            chain: Vec::new(),
            in_flight: false,
            calls: 0,
            progress: 0,
            history_str: Vec::new(),
            transcript: Vec::new(),
            status: String::new(),
            command: String::new(),
            label_template: String::new(),
            network: NetworkData::default(),
            embedded: false,
        }
    }

    /// Marks the console as embedded in a larger window.
    pub fn embed(self) -> (r: Self)
        ensures
            r@ == self@,
            r.wf() == self.wf(),
    {
        Terminal { embedded: true, ..self }
    }

    /// Appends one entry to the recall history.
    pub fn append_history(&mut self, entry: String)
        ensures
            final(self)@ == (ModelState { history: old(self)@.history.push(entry@), ..old(self)@ }),
            final(self).wf() == old(self).wf(),
    {
        let ghost entryv = entry@;
        self.history_str.push(entry);
        proof {
            assert(self@ =~= (ModelState { history: old(self)@.history.push(entryv), ..old(self)@ }));
        }
    }

    /// Submits a script.  The engine's parser decides: a grammatical
    /// script has its units queued (`Ok` carries how many) and the
    /// driver starts running; a script the grammar rejects — or one
    /// whose lexed date or time values the engine cannot accept —
    /// changes nothing but the status line, which carries the error.
    pub fn submit(&mut self, script: String) -> (r: Result<usize, String>)
        requires
            old(self).wf(),
            !(old(self)@.phase is Running),
        ensures
            final(self).wf(),
            spec_dates_ok(script@) ==> (r is Ok <==> spec_parse_ok(script@)),
            !spec_dates_ok(script@) ==> r is Err,
            match r {
                Ok(n) => {
                    &&& final(self)@ == spec_submit_ok(old(self)@, script@, final(self)@.remaining)
                    &&& n == final(self)@.remaining.len()
                },
                Err(e) => final(self)@ == spec_submit_err(old(self)@, e@),
            },
    {
        let ghost scriptv = script@;
        let tokens = nadi_core::parser::tokenizer::get_tokens(script.as_str());
        let n_tokens = tokens.len();
        let mut dates_ok = true;
        for i in 0..n_tokens
            invariant
                n_tokens == tokens@.len(),
                dates_ok ==> tokens_dates_ok(tokens@.take(i as int)),
                !dates_ok ==> !tokens_dates_ok(tokens@),
        {
            let ghost pre_ok = dates_ok;
            let t = &tokens[i];
            let good = match &t.ty {
                nadi_core::parser::tokenizer::TaskToken::Date => crate::engine::date_valid(
                    t.content,
                ),
                nadi_core::parser::tokenizer::TaskToken::Time => crate::engine::time_valid(
                    t.content,
                ),
                nadi_core::parser::tokenizer::TaskToken::DateTime => crate::engine::datetime_valid(
                    t.content,
                ),
                _ => true,
            };
            if !good {
                dates_ok = false;
            }
            proof {
                assert(good == token_date_ok(tokens@[i as int]));
                if !good {
                    assert(!tokens_dates_ok(tokens@));
                } else if pre_ok {
                    assert forall|k: int| 0 <= k < i + 1 implies token_date_ok(
                        #[trigger] tokens@.take(i + 1)[k],
                    ) by {
                        if k < i {
                            assert(token_date_ok(tokens@.take(i as int)[k]));
                        }
                        assert(tokens@.take(i + 1)[k] == tokens@[k]);
                    }
                }
            }
        }
        if !dates_ok {
            proof {
                assert(!spec_dates_ok(scriptv));
            }
            let msg = "invalid date or time value in the script".to_owned();
            self.status = msg.clone();
            proof {
                assert(self@ =~= spec_submit_err(old(self)@, msg@));
            }
            return Err(msg);
        }
        proof {
            assert(tokens@.take(n_tokens as int) =~= tokens@);
            assert(spec_dates_ok(scriptv));
        }
        match crate::engine::parse_script(script.as_str()) {
            Ok(parsed) => {
                let (units, leftover) = parsed;
                if leftover > 0 {
                    let msg = "syntax error: trailing content after the parsed tasks".to_owned();
                    self.status = msg.clone();
                    proof {
                        assert(self@ =~= spec_submit_err(old(self)@, msg@));
                    }
                    return Err(msg);
                }
                let n = units.len();
                self.history_str.push(script.clone());
                self.transcript.push(script);
                self.chain = units;
                self.done = 0;
                self.calls = 0;
                self.in_flight = false;
                self.progress = 0;
                self.phase = Phase::Running;
                self.status = String::new();
                proof {
                    assert(self@ =~= spec_submit_ok(old(self)@, scriptv, self@.remaining));
                }
                Ok(n)
            },
            Err(e) => {
                let msg = e.clone();
                self.status = e;
                proof {
                    assert(self@ =~= spec_submit_err(old(self)@, msg@));
                }
                Err(msg)
            },
        }
    }

    /// Hands out the next unit of the running chain, strictly first in
    /// first out; when none remains the chain completes, progress is
    /// pinned at 100, and the running indicator goes off.
    pub fn poll(&mut self) -> (r: Option<nadi_core::tasks::Task>)
        requires
            old(self).wf(),
            old(self)@.phase is Running,
            !old(self)@.in_flight,
        ensures
            final(self).wf(),
            match r {
                Some(u) => {
                    &&& old(self)@.remaining.len() > 0
                    &&& u == old(self)@.remaining[0]
                    &&& final(self)@ == spec_poll_unit(old(self)@)
                },
                None => {
                    &&& old(self)@.remaining.len() == 0
                    &&& final(self)@ == spec_poll_complete(old(self)@)
                },
            },
    {
        if self.chain.len() == 0 {
            self.progress = 100;
            self.phase = Phase::Completed;
            proof {
                assert(self@ =~= spec_poll_complete(old(self)@));
            }
            None
        } else {
            let u = self.chain.remove(0);
            self.in_flight = true;
            self.calls = self.calls + 1;
            proof {
                assert(self@ =~= spec_poll_unit(old(self)@));
            }
            Some(u)
        }
    }

    /// Records what executing the handed-out unit produced: first the
    /// captured standard output as one chunk, then the result or error
    /// text.  Success advances progress and asks the host loop to refresh
    /// the view and continue; failure aborts the chain — the units never
    /// handed out are dropped — and stops the scheduling.
    pub fn apply_outcome(&mut self, captured: String, outcome: Result<Option<String>, String>) -> (d:
        Directive)
        requires
            old(self).wf(),
            old(self)@.in_flight,
        ensures
            final(self).wf(),
            match outcome {
                Ok(res) => {
                    &&& d is RefreshAndContinue
                    &&& final(self)@ == spec_outcome_success(
                        old(self)@,
                        captured@,
                        res.deep_view(),
                    )
                },
                Err(e) => {
                    &&& d is Stop
                    &&& final(self)@ == spec_outcome_failure(old(self)@, captured@, e@)
                },
            },
    {
        let ghost capv = captured@;
        self.transcript.push(captured);
        self.in_flight = false;
        match outcome {
            Ok(res) => {
                let ghost resv = res.deep_view();
                self.done = self.done + 1;
                match res {
                    Some(s) => self.transcript.push(s),
                    None => (),
                }
                let total = self.done + self.chain.len();
                self.progress = percent(self.done, total);
                proof {
                    assert(self@ =~= spec_outcome_success(old(self)@, capv, resv));
                    lemma_progress_bounded(self@.done, self@.done + self@.remaining.len());
                }
                Directive::RefreshAndContinue
            },
            Err(e) => {
                let ghost errv = e@;
                self.transcript.push(e);
                self.chain = Vec::new();
                self.phase = Phase::Aborted;
                proof {
                    assert(self@ =~= spec_outcome_failure(old(self)@, capv, errv));
                }
                Directive::Stop
            },
        }
    }

    /// True while a chain is in flight: the running indicator.
    pub fn is_running(&self) -> (r: bool)
        ensures
            r == (self@.phase is Running),
    {
        match self.phase {
            Phase::Running => true,
            _ => false,
        }
    }

    /// The driver's phase.
    pub fn phase(&self) -> (r: Phase)
        ensures
            r == self@.phase,
    {
        self.phase
    }

    /// The latest reported percentage.
    pub fn progress(&self) -> (r: u8)
        ensures
            r == self@.progress,
    {
        self.progress
    }

    /// How many units have been handed out for execution since the last
    /// submission.
    pub fn exec_calls(&self) -> (r: usize)
        ensures
            r == self@.calls,
    {
        self.calls
    }

    /// How many units of the current chain have finished.
    pub fn done(&self) -> (r: usize)
        ensures
            r == self@.done,
    {
        self.done
    }

    /// The recall history, every successfully parsed script in
    /// submission order.
    pub fn history(&self) -> (r: &Vec<String>)
        ensures
            r.deep_view() == self@.history,
    {
        &self.history_str
    }

    /// The transcript: everything reported so far, in order.
    pub fn transcript(&self) -> (r: &Vec<String>)
        ensures
            r.deep_view() == self@.transcript,
    {
        &self.transcript
    }

    /// The status line.
    pub fn status(&self) -> (r: &String)
        ensures
            r@ == self@.status,
    {
        &self.status
    }

    /// The view snapshot.
    pub fn network(&self) -> (r: &NetworkData)
        ensures
            r@ == self@.network,
    {
        &self.network
    }

    /// Rebuilds the view snapshot from the given node data (invoked by
    /// the host loop after every successful unit and when the label
    /// template changes); the status line is cleared like on every
    /// console interaction.
    pub fn refresh_network(&mut self, inputs: Vec<NodeInput>)
        ensures
            final(self)@ == (ModelState {
                network: spec_snapshot(inputs@),
                status: Seq::empty(),
                ..old(self)@
            }),
            final(self).wf() == old(self).wf(),
    {
        let ghost inpv = inputs@;
        self.network.update(inputs);
        self.status = String::new();
        proof {
            assert(self@ =~= (ModelState {
                network: spec_snapshot(inpv),
                status: Seq::empty(),
                ..old(self)@
            }));
        }
    }

    /// Replaces the label template source text and clears the status
    /// line, as every console interaction does.
    pub fn set_label_template(&mut self, templ: String)
        ensures
            final(self)@ == (ModelState {
                label_template: templ@,
                status: Seq::empty(),
                ..old(self)@
            }),
            final(self).wf() == old(self).wf(),
    {
        let ghost templv = templ@;
        self.label_template = templ;
        self.status = String::new();
        proof {
            assert(self@ =~= (ModelState {
                label_template: templv,
                status: Seq::empty(),
                ..old(self)@
            }));
        }
    }

    /// The parsed label template: `Some` exactly when the source text is
    /// nonempty, ASCII, and the template language accepts it; otherwise
    /// `None`, and the caller falls back to default labels.  (The
    /// templating engine reads only ASCII sources; anything else counts
    /// as invalid.)
    pub fn current_template(&self) -> (r: Option<nadi_core::string_template::Template>)
        ensures
            r is Some <==> {
                &&& self@.label_template.len() > 0
                &&& vstd::utf8::is_ascii_chars(self@.label_template)
                &&& spec_template_ok(self@.label_template)
            },
    {
        if self.label_template.as_str().is_empty() {
            None
        } else if !self.label_template.as_str().is_ascii() {
            None
        } else {
            crate::engine::parse_template(self.label_template.as_str())
        }
    }

    /// Replaces the command line (the user typed) and clears the status
    /// line, as every console interaction does.
    pub fn command_change(&mut self, cmd: String)
        ensures
            final(self)@ == (ModelState { command: cmd@, status: Seq::empty(), ..old(self)@ }),
            final(self).wf() == old(self).wf(),
    {
        let ghost cmdv = cmd@;
        self.command = cmd;
        self.status = String::new();
        proof {
            assert(self@ =~= (ModelState { command: cmdv, status: Seq::empty(), ..old(self)@ }));
        }
    }

    /// Recalls a history entry into the command line.
    pub fn recall(&mut self, entry: String)
        ensures
            final(self)@ == (ModelState { command: entry@, status: Seq::empty(), ..old(self)@ }),
            final(self).wf() == old(self).wf(),
    {
        self.command_change(entry);
    }
}

/// What a submitted command line asks for.
pub enum Command {
    /// inspect attributes: of the named node, or of the whole network
    ShowAttrs(Option<String>),
    /// run the text as a task script
    Run(String),
}

/// The characters of the attribute-inspection command word.
pub open spec fn spec_attr_word() -> Seq<char> {
    seq!['a', 't', 't', 'r']
}

/// The command line names the attribute command with an argument.
pub open spec fn is_attr_with_arg(cmd: Seq<char>) -> bool {
    cmd.len() >= 5 && cmd.take(5) == spec_attr_word().push(' ')
}

impl Terminal {
    /// Routes the current command line and clears it (and the status
    /// line): `attr` inspects the whole network, `attr <node>` inspects
    /// one node, anything else is handed back to be submitted as a task
    /// script.
    pub fn exec_command(&mut self) -> (c: Command)
        ensures
            final(self)@ == (ModelState {
                command: Seq::empty(),
                status: Seq::empty(),
                ..old(self)@
            }),
            final(self).wf() == old(self).wf(),
            match c {
                Command::ShowAttrs(arg) => match arg {
                    Some(args) => is_attr_with_arg(old(self)@.command) && args@ == old(
                        self,
                    )@.command.skip(5),
                    None => old(self)@.command == spec_attr_word(),
                },
                Command::Run(s) => {
                    &&& s@ == old(self)@.command
                    &&& !is_attr_with_arg(old(self)@.command)
                    &&& old(self)@.command != spec_attr_word()
                },
            },
    {
        let ghost cmd = self@.command;
        proof {
            reveal_strlit("attr");
            assert("attr"@ =~= spec_attr_word());
        }
        let task = self.command.clone();
        self.command = String::new();
        self.status = String::new();
        proof {
            assert(self@ =~= (ModelState {
                command: Seq::empty(),
                status: Seq::empty(),
                ..old(self)@
            }));
        }
        match split_once_space(task.as_str()) {
            Some(parts) => {
                let (a, b) = parts;
                proof {
                    assert(cmd[a@.len() as int] == ' ');
                    assert(cmd.contains(' '));
                }
                if str_eq(a.as_str(), "attr") {
                    proof {
                        assert(a@.len() == 4);
                        assert(cmd.take(5) =~= spec_attr_word().push(' '));
                        assert(b@ =~= cmd.skip(5));
                    }
                    Command::ShowAttrs(Some(b))
                } else {
                    proof {
                        if is_attr_with_arg(cmd) {
                            lemma_attr_split_unique(cmd, a@, b@);
                            assert(false);
                        }
                        if cmd == spec_attr_word() {
                            assert(forall|i: int|
                                0 <= i < 4 ==> spec_attr_word()[i] != ' ') by {
                                assert(spec_attr_word()[0] == 'a');
                                assert(spec_attr_word()[1] == 't');
                                assert(spec_attr_word()[2] == 't');
                                assert(spec_attr_word()[3] == 'r');
                            }
                            assert(a@.len() < cmd.len());
                            assert(cmd[a@.len() as int] == ' ');
                            assert(false);
                        }
                    }
                    Command::Run(task)
                }
            },
            None => {
                if str_eq(task.as_str(), "attr") {
                    Command::ShowAttrs(None)
                } else {
                    proof {
                        if is_attr_with_arg(cmd) {
                            assert(spec_attr_word().push(' ')[4] == ' ');
                            assert(cmd.take(5)[4] == cmd[4]);
                            assert(cmd[4] == ' ');
                            assert(cmd.contains(' '));
                        }
                    }
                    Command::Run(task)
                }
            },
        }
    }

    /// The history entries that begin with the given prefix, in
    /// submission order: the interactive recall lookup.
    pub fn history_matches(&self, prefix: &str) -> (r: Vec<String>)
        ensures
            r.deep_view() == self@.history.filter(
                |h: Seq<char>| prefix@.is_prefix_of(h),
            ),
    {
        let mut out: Vec<String> = Vec::new();
        let n = self.history_str.len();
        for i in 0..n
            invariant
                n == self.history_str.len(),
                out.deep_view() =~= self@.history.take(i as int).filter(
                    |h: Seq<char>| prefix@.is_prefix_of(h),
                ),
        {
            let ghost pre_out = out.deep_view();
            let entry = &self.history_str[i];
            if str_starts_with(entry.as_str(), prefix) {
                out.push(entry.clone());
            }
            proof {
                reveal(Seq::filter);
                let p = |h: Seq<char>| prefix@.is_prefix_of(h);
                assert(self@.history.take(i + 1).drop_last() =~= self@.history.take(i as int));
                assert(self@.history.take(i + 1).last() == self@.history[i as int]);
                if p(self@.history[i as int]) {
                    assert forall|k: int| 0 <= k < out.deep_view().len() implies out.deep_view()[k]
                        == pre_out.push(self@.history[i as int])[k] by {
                        if k < pre_out.len() {
                            assert(out@[k] == out@.drop_last()[k]);
                        }
                    }
                    assert(out.deep_view() =~= pre_out.push(self@.history[i as int]));
                }
                assert(out.deep_view() =~= self@.history.take(i + 1).filter(p));
            }
        }
        proof {
            assert(self@.history.take(n as int) =~= self@.history);
        }
        out
    }
}

/// When the command line starts with the attribute word and a space and
/// splits at its first space into `a` and `b`, the first part is the
/// attribute word itself.
proof fn lemma_attr_split_unique(cmd: Seq<char>, a: Seq<char>, b: Seq<char>)
    requires
        cmd == a + seq![' '] + b,
        !a.contains(' '),
        is_attr_with_arg(cmd),
    ensures
        a == spec_attr_word(),
{
    assert(spec_attr_word()[0] == 'a');
    assert(spec_attr_word()[1] == 't');
    assert(spec_attr_word()[2] == 't');
    assert(spec_attr_word()[3] == 'r');
    if a.len() < 4 {
        assert(cmd[a.len() as int] == ' ');
        assert(cmd.take(5)[a.len() as int] == spec_attr_word().push(' ')[a.len() as int]);
        assert(spec_attr_word().push(' ')[a.len() as int] != ' ');
        assert(false);
    } else if a.len() == 4 {
        assert forall|i: int| 0 <= i < 4 implies a[i] == spec_attr_word()[i] by {
            assert(cmd[i] == a[i]);
            assert(cmd.take(5)[i] == spec_attr_word().push(' ')[i]);
        }
        assert(a =~= spec_attr_word());
    } else {
        assert(cmd[4] == a[4]);
        assert(cmd.take(5)[4] == spec_attr_word().push(' ')[4]);
        assert(a[4] == ' ');
        assert(a.contains(' '));
        assert(false);
    }
}

} // verus!

//! Evaluation in an isolated world. The context id comes back from
//! `Page.createIsolatedWorld`, so the runtime domain is never enabled. The
//! decisions live here as a state machine; a driver performs each command
//! and reports what came back.

use vstd::prelude::*;
use crate::text::contains;

verus! {

/// The name given to the isolated world.
pub const ISOLATED_WORLD_NAME: &'static str = "ghost";

/// The message with which the browser rejects an evaluation in a context
/// that no longer exists (the frame navigated away).
pub const STALE_CONTEXT_MESSAGE: &'static str = "Cannot find context with specified id";

/// Why an evaluation failed.
#[derive(Debug, Clone, Copy, PartialEq, Eq, Structural)]
pub enum StealthError {
    /// The page has no main frame.
    NoMainFrame,
    /// The remote-debugging channel rejected or timed out a call; the
    /// driver holds its message.
    Transport,
    /// The context went stale again after it was created afresh.
    StaleContext,
    /// An event came that the current state does not wait for.
    Unexpected,
}

/// What the driver observed after performing a command.
#[derive(Debug, Clone, PartialEq, Eq)]
pub enum StealthEvent {
    /// The main frame's id, or none.
    MainFrame(Option<String>),
    /// The isolated world was created with this execution context id.
    WorldCreated(i64),
    /// The evaluation returned a value.
    Evaluated,
    /// The evaluation was rejected because the context is stale.
    ContextGone,
    /// The call failed in the channel.
    TransportFailed,
}

/// What the driver does next.
#[derive(Debug, Clone, PartialEq, Eq)]
pub enum StealthCommand {
    /// Ask for the main frame's id.
    GetMainFrame,
    /// Create an isolated world named [`ISOLATED_WORLD_NAME`] with
    /// universal access in the frame.
    CreateIsolatedWorld { frame_id: String },
    /// Evaluate the expression in the context, awaiting a promise and
    /// returning the value by value.
    Evaluate { context_id: i64, expression: String },
    /// Done: the value of the last evaluation is the result.
    Finish,
    /// Done: the evaluation failed.
    Fail(StealthError),
}

/// A driver's observation, as plain values.
pub ghost enum EventModel {
    MainFrame(Option<Seq<char>>),
    WorldCreated(i64),
    Evaluated,
    ContextGone,
    TransportFailed,
}

/// A command, as plain values.
pub ghost enum CommandModel {
    GetMainFrame,
    CreateIsolatedWorld(Seq<char>),
    Evaluate(i64, Seq<char>),
    Finish,
    Fail(StealthError),
}

impl View for StealthEvent {
    type V = EventModel;

    open spec fn view(&self) -> EventModel {
        match self {
            StealthEvent::MainFrame(None) => EventModel::MainFrame(None),
            StealthEvent::MainFrame(Some(f)) => EventModel::MainFrame(Some(f@)),
            StealthEvent::WorldCreated(c) => EventModel::WorldCreated(*c),
            StealthEvent::Evaluated => EventModel::Evaluated,
            StealthEvent::ContextGone => EventModel::ContextGone,
            StealthEvent::TransportFailed => EventModel::TransportFailed,
        }
    }
}

impl View for StealthCommand {
    type V = CommandModel;

    open spec fn view(&self) -> CommandModel {
        match self {
            StealthCommand::GetMainFrame => CommandModel::GetMainFrame,
            StealthCommand::CreateIsolatedWorld { frame_id } => CommandModel::CreateIsolatedWorld(frame_id@),
            StealthCommand::Evaluate { context_id, expression } => CommandModel::Evaluate(*context_id, expression@),
            StealthCommand::Finish => CommandModel::Finish,
            StealthCommand::Fail(e) => CommandModel::Fail(*e),
        }
    }
}

/// Where an evaluation stands. The context handle is uncreated while the
/// frame or the world is awaited, valid while the result is awaited, and
/// stale once the browser says so.
#[derive(Debug, Clone, Copy, PartialEq, Eq, Structural)]
pub enum Phase {
    AwaitingFrame,
    AwaitingWorld,
    AwaitingResult(i64),
    Finished,
    Failed,
}

/// The state of an evaluation, as plain values: the expression, the phase,
/// and whether the context was already created afresh once.
pub ghost struct EvaluationModel {
    pub expression: Seq<char>,
    pub phase: Phase,
    pub retried: bool,
}

/// The next state and command after `e`. A channel failure ends the
/// evaluation; a missing main frame ends it; a stale context is created
/// afresh from the current main frame once, and ends it the second time.
pub open spec fn transition(s: EvaluationModel, e: EventModel) -> (EvaluationModel, CommandModel) {
    let fail = |err: StealthError| (EvaluationModel { phase: Phase::Failed, ..s }, CommandModel::Fail(err));
    match (s.phase, e) {
        (Phase::Finished, _) | (Phase::Failed, _) => fail(StealthError::Unexpected),
        (_, EventModel::TransportFailed) => fail(StealthError::Transport),
        (Phase::AwaitingFrame, EventModel::MainFrame(None)) => fail(StealthError::NoMainFrame),
        (Phase::AwaitingFrame, EventModel::MainFrame(Some(f))) => (
            EvaluationModel { phase: Phase::AwaitingWorld, ..s },
            CommandModel::CreateIsolatedWorld(f),
        ),
        (Phase::AwaitingWorld, EventModel::WorldCreated(c)) => (
            EvaluationModel { phase: Phase::AwaitingResult(c), ..s },
            CommandModel::Evaluate(c, s.expression),
        ),
        (Phase::AwaitingResult(_), EventModel::Evaluated) => (
            EvaluationModel { phase: Phase::Finished, ..s },
            CommandModel::Finish,
        ),
        (Phase::AwaitingResult(_), EventModel::ContextGone) => if s.retried {
            fail(StealthError::StaleContext)
        } else {
            (EvaluationModel { phase: Phase::AwaitingFrame, retried: true, ..s }, CommandModel::GetMainFrame)
        },
        _ => fail(StealthError::Unexpected),
    }
}

/// An evaluation only ever runs the evaluation's own expression, and only
/// in the context that the browser handed back for the world just created:
/// no handle is reused across a stale context.
pub proof fn lemma_evaluates_in_fresh_worlds(s: EvaluationModel, e: EventModel)
    ensures
        transition(s, e).1 matches CommandModel::Evaluate(c, x) ==> e == EventModel::WorldCreated(c)
            && x == s.expression && transition(s, e).0.phase == Phase::AwaitingResult(c),
{
}

/// A stale context is created afresh at most once: once retried, a second
/// stale context ends the evaluation with [`StealthError::StaleContext`].
pub proof fn lemma_retries_once(s: EvaluationModel)
    requires
        s.phase is AwaitingResult,
    ensures
        !s.retried ==> transition(s, EventModel::ContextGone) == (
            EvaluationModel { phase: Phase::AwaitingFrame, retried: true, ..s },
            CommandModel::GetMainFrame,
        ),
        s.retried ==> transition(s, EventModel::ContextGone).1 == CommandModel::Fail(StealthError::StaleContext),
{
}

/// One evaluation of an expression in a fresh isolated world.
#[derive(Debug, Clone)]
pub struct StealthEvaluation {
    expression: String,
    phase: Phase,
    retried: bool,
}

impl View for StealthEvaluation {
    type V = EvaluationModel;

    closed spec fn view(&self) -> EvaluationModel {
        EvaluationModel { expression: self.expression@, phase: self.phase, retried: self.retried }
    }
}

impl StealthEvaluation {
    /// An evaluation of `expression`, and its first command: ask for the
    /// main frame.
    pub fn new(expression: &str) -> (r: (Self, StealthCommand))
        ensures
            r.0@ == (EvaluationModel { expression: expression@, phase: Phase::AwaitingFrame, retried: false }),
            r.1@ == CommandModel::GetMainFrame,
    {
        (
            StealthEvaluation { expression: String::from_str(expression), phase: Phase::AwaitingFrame, retried: false },
            StealthCommand::GetMainFrame,
        )
    }

    /// Takes in what the driver observed and gives the next command.
    pub fn on_event(&mut self, event: StealthEvent) -> (r: StealthCommand)
        ensures
            (final(self)@, r@) == transition(old(self)@, event@),
    {
        let ghost start = self@;
        match (self.phase, event) {
            (Phase::Finished, _) | (Phase::Failed, _) => {
                self.phase = Phase::Failed;
                StealthCommand::Fail(StealthError::Unexpected)
            },
            (_, StealthEvent::TransportFailed) => {
                self.phase = Phase::Failed;
                StealthCommand::Fail(StealthError::Transport)
            },
            (Phase::AwaitingFrame, StealthEvent::MainFrame(None)) => {
                self.phase = Phase::Failed;
                StealthCommand::Fail(StealthError::NoMainFrame)
            },
            (Phase::AwaitingFrame, StealthEvent::MainFrame(Some(f))) => {
                self.phase = Phase::AwaitingWorld;
                StealthCommand::CreateIsolatedWorld { frame_id: f }
            },
            (Phase::AwaitingWorld, StealthEvent::WorldCreated(c)) => {
                self.phase = Phase::AwaitingResult(c);
                StealthCommand::Evaluate { context_id: c, expression: self.expression.clone() }
            },
            (Phase::AwaitingResult(_), StealthEvent::Evaluated) => {
                self.phase = Phase::Finished;
                StealthCommand::Finish
            },
            (Phase::AwaitingResult(_), StealthEvent::ContextGone) => {
                if self.retried {
                    self.phase = Phase::Failed;
                    StealthCommand::Fail(StealthError::StaleContext)
                } else {
                    self.phase = Phase::AwaitingFrame;
                    self.retried = true;
                    StealthCommand::GetMainFrame
                }
            },
            _ => {
                self.phase = Phase::Failed;
                StealthCommand::Fail(StealthError::Unexpected)
            },
        }
    }
}

/// Whether a channel error says that the evaluation's context is stale:
/// its message holds [`STALE_CONTEXT_MESSAGE`].
pub fn is_stale_context_error(message: &str) -> (r: bool)
    ensures
        r == contains(message@, STALE_CONTEXT_MESSAGE@),
{
    let n = message.unicode_len();
    let m = STALE_CONTEXT_MESSAGE.unicode_len();
    proof {
        reveal_strlit("Cannot find context with specified id");
    }
    if m > n {
        return false;
    }
    let mut i: usize = 0;
    while i <= n - m
        invariant
            n == message@.len(),
            m == STALE_CONTEXT_MESSAGE@.len(),
            m <= n,
            i <= n - m + 1,
            forall|k: int| 0 <= k < i ==> #[trigger] message@.subrange(k, k + m) != STALE_CONTEXT_MESSAGE@,
        decreases n - m + 1 - i,
    {
        let mut j: usize = 0;
        let mut same = true;
        assert(message@.subrange(i as int, i as int) =~= STALE_CONTEXT_MESSAGE@.subrange(0, 0));
        while j < m
            invariant
                n == message@.len(),
                m == STALE_CONTEXT_MESSAGE@.len(),
                i + m <= n,
                j <= m,
                same == (message@.subrange(i as int, i + j) == STALE_CONTEXT_MESSAGE@.subrange(0, j as int)),
            decreases m - j,
        {
            let a = message.get_char(i + j);
            let b = STALE_CONTEXT_MESSAGE.get_char(j);
            proof {
                let p = message@.subrange(i as int, i + j);
                let q = STALE_CONTEXT_MESSAGE@.subrange(0, j as int);
                let p1 = message@.subrange(i as int, i + j + 1);
                let q1 = STALE_CONTEXT_MESSAGE@.subrange(0, j + 1);
                assert(p1 =~= p.push(a));
                assert(q1 =~= q.push(b));
                if p == q && a == b {
                    assert(p1 =~= q1);
                }
                if p1 == q1 {
                    assert(p1.drop_last() =~= p);
                    assert(q1.drop_last() =~= q);
                    assert(p1.last() == a && q1.last() == b);
                }
            }
            same = same && a == b;
            j = j + 1;
        }
        assert(STALE_CONTEXT_MESSAGE@.subrange(0, m as int) =~= STALE_CONTEXT_MESSAGE@);
        if same {
            assert(message@.subrange(i as int, i + m) == STALE_CONTEXT_MESSAGE@);
            return true;
        }
        i = i + 1;
    }
    false
}

} // verus!

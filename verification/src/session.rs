//! The running of a plan: one native operation at a time, with every object
//! that the query made released before it ends.

use vstd::prelude::*;
use crate::errors::{classify, Error, KindModel};
use crate::handle::{find_kind, kinds_of, newest, Handle, ResourceKind};
use crate::plan::{answers, ledger_at, ready, Plan, Product, Purpose, Step};
use crate::table::Response;
use crate::{Osrm, RouteResponse};

verus! {

/// What the embedding program reports after the native call it was told to make.
#[derive(Debug)]
pub enum Event {
    /// The call returned with the error slot empty, and has nothing to hand back.
    Done,
    /// The call returned with the error slot empty, and handed back an object
    /// at this address.
    Handle(usize),
    /// The call returned with the error slot empty, and handed back this float.
    Scalar(u32),
    /// The text read off a native error object.
    Text(String),
    /// The call filled the error slot with the object at this address.  What it
    /// returned beside is meaningless.
    Failed(usize),
}

/// The mathematical value of an [`Event`].
pub enum EventModel {
    Done,
    Handle(usize),
    Scalar(u32),
    Text(Seq<char>),
    Failed(usize),
}

impl View for Event {
    type V = EventModel;

    open spec fn view(&self) -> EventModel {
        match *self {
            Event::Done => EventModel::Done,
            Event::Handle(address) => EventModel::Handle(address),
            Event::Scalar(bits) => EventModel::Scalar(bits),
            Event::Text(text) => EventModel::Text(text@),
            Event::Failed(error) => EventModel::Failed(error),
        }
    }
}

/// The answer of a query that succeeded.
#[derive(Debug)]
pub enum Reply {
    Engine(Osrm),
    Route(RouteResponse),
    Table(Response),
    Value(u32),
}

/// The mathematical value of a [`Reply`].
pub enum ReplyModel {
    Engine(Handle),
    Route(RouteResponse),
    Table { include_distance: bool, handle: Handle },
    Value(u32),
}

impl View for Reply {
    type V = ReplyModel;

    open spec fn view(&self) -> ReplyModel {
        match *self {
            Reply::Engine(engine) => ReplyModel::Engine(engine.spec_handle()),
            Reply::Route(route) => ReplyModel::Route(route),
            Reply::Table(table) => ReplyModel::Table {
                include_distance: table.has_distance(),
                handle: table.spec_handle(),
            },
            Reply::Value(bits) => ReplyModel::Value(bits),
        }
    }
}

/// What the embedding program does next.
#[derive(Debug)]
pub enum Action {
    /// Make the native call of `step` with an empty error slot.  `subject` and
    /// `argument` are the addresses of its operands, zero where it has none.
    Invoke { step: Step, subject: usize, argument: usize },
    /// Read the code off the native error object.
    ReadErrorCode { error: usize },
    /// Read the message off the native error object.
    ReadErrorMessage { error: usize },
    /// Destroy the native error object.
    DestroyError { error: usize },
    /// Destroy the native object.
    Destroy { handle: Handle },
    /// Nothing: the query has ended, with this result.
    Finish(Result<Reply, Error>),
}

/// The mathematical value of an [`Action`].
pub enum ActionModel {
    Invoke { step: Step, subject: usize, argument: usize },
    ReadErrorCode { error: usize },
    ReadErrorMessage { error: usize },
    DestroyError { error: usize },
    Destroy { handle: Handle },
    Finish(Result<ReplyModel, KindModel>),
}

impl View for Action {
    type V = ActionModel;

    open spec fn view(&self) -> ActionModel {
        match *self {
            Action::Invoke { step, subject, argument } => ActionModel::Invoke {
                step,
                subject,
                argument,
            },
            Action::ReadErrorCode { error } => ActionModel::ReadErrorCode { error },
            Action::ReadErrorMessage { error } => ActionModel::ReadErrorMessage { error },
            Action::DestroyError { error } => ActionModel::DestroyError { error },
            Action::Destroy { handle } => ActionModel::Destroy { handle },
            Action::Finish(Ok(reply)) => ActionModel::Finish(Ok(reply@)),
            Action::Finish(Err(error)) => ActionModel::Finish(Err(error@)),
        }
    }
}

/// Where a running query stands.
#[derive(Clone, Copy, Debug, PartialEq, Eq, Structural)]
pub enum Phase {
    /// A native operation of the plan was called for.
    Running,
    /// An operation failed; the code of its error object was called for.
    ReadingCode,
    /// The message of the error object was called for.
    ReadingMessage,
    /// The destruction of the error object was called for.
    ReleasingError,
    /// The destruction of an object of the query was called for.
    Unwinding,
    /// The query has ended.
    Finished,
}

/// The state of a running query.
pub struct State {
    pub phase: Phase,
    /// How many operations of the plan have succeeded.
    pub next: nat,
    /// The objects that the query owns, oldest first.
    pub live: Seq<Handle>,
    /// The object that goes to the caller.
    pub kept: Option<Handle>,
    /// The floats read so far.
    pub scalars: Seq<u32>,
    /// Why the query fails, once that is known.
    pub failure: Option<KindModel>,
    /// The code read off the error object.
    pub code: Seq<char>,
    /// The address of the error object.
    pub error: usize,
}

/// The text of the error for a native constructor that returned no object and
/// no error.
pub open spec fn null_handle() -> Seq<char> {
    "native engine returned a null handle"@
}

/// The state in which a query starts.
pub open spec fn initial() -> State {
    State {
        phase: Phase::Running,
        next: 0,
        live: Seq::empty(),
        kept: None,
        scalars: Seq::empty(),
        failure: None,
        code: Seq::empty(),
        error: 0,
    }
}

/// The address of the operand of kind `kind`: the query's own object of that
/// kind, else the caller's.
pub open spec fn operand(plan: Plan, live: Seq<Handle>, kind: Option<ResourceKind>) -> usize {
    match kind {
        None => 0,
        Some(kind) => match newest(live, kind) {
            Some(handle) => handle.address,
            None => match newest(plan.borrowed@, kind) {
                Some(handle) => handle.address,
                None => 0,
            },
        },
    }
}

/// The result of a query that has released what it owned.
pub open spec fn outcome(plan: Plan, s: State) -> Result<ReplyModel, KindModel> {
    match s.failure {
        Some(kind) => Err(kind),
        None => Ok(
            match plan.purpose {
                Purpose::Open => ReplyModel::Engine(s.kept.unwrap()),
                Purpose::Route => ReplyModel::Route(
                    RouteResponse { duration: s.scalars[0], distance: s.scalars[1] },
                ),
                Purpose::Table { include_distance } => ReplyModel::Table {
                    include_distance,
                    handle: s.kept.unwrap(),
                },
                Purpose::Cell => ReplyModel::Value(s.scalars[0]),
            },
        ),
    }
}

/// Releases what is left, newest first, then ends.  A query that fails also
/// releases what would have gone to the caller.
pub open spec fn unwind(plan: Plan, s: State) -> (State, ActionModel) {
    if s.failure is Some && s.kept is Some {
        (
            State { phase: Phase::Unwinding, kept: None, ..s },
            ActionModel::Destroy { handle: s.kept.unwrap() },
        )
    } else if s.live.len() > 0 {
        (
            State { phase: Phase::Unwinding, live: s.live.drop_last(), ..s },
            ActionModel::Destroy { handle: s.live.last() },
        )
    } else {
        (State { phase: Phase::Finished, ..s }, ActionModel::Finish(outcome(plan, s)))
    }
}

/// Goes on with the next operation of the plan, or, behind the last, releases
/// what is left.
pub open spec fn depart(plan: Plan, s: State) -> (State, ActionModel) {
    if s.next < plan.steps@.len() {
        let step = plan.steps@[s.next as int];
        (
            State { phase: Phase::Running, ..s },
            ActionModel::Invoke {
                step,
                subject: operand(plan, s.live, step.subject()),
                argument: operand(plan, s.live, step.argument()),
            },
        )
    } else {
        unwind(plan, s)
    }
}

/// Takes in what the operation in progress handed back.  A new object is owned
/// or kept; an object handed over is owned no more.  A constructor that
/// hands back the null address has failed.
pub open spec fn absorb(plan: Plan, s: State, event: EventModel) -> State {
    let step = plan.steps@[s.next as int];
    match event {
        EventModel::Handle(address) => if address == 0 {
            State { failure: Some(KindModel::Message(null_handle())), ..s }
        } else {
            match step.product() {
                Product::Owned(kind) => State {
                    live: s.live.push(Handle { kind, address }),
                    next: s.next + 1,
                    ..s
                },
                Product::Kept(kind) => State {
                    kept: Some(Handle { kind, address }),
                    next: s.next + 1,
                    ..s
                },
                _ => s,
            }
        },
        EventModel::Scalar(bits) => State { scalars: s.scalars.push(bits), next: s.next + 1, ..s },
        EventModel::Done => State {
            live: if step.hands_over() {
                s.live.drop_last()
            } else {
                s.live
            },
            next: s.next + 1,
            ..s
        },
        _ => s,
    }
}

/// Whether `event` can follow the action that led to `s`.
pub open spec fn expects(plan: Plan, s: State, event: EventModel) -> bool {
    match s.phase {
        Phase::Running => s.next < plan.steps@.len() && match event {
            EventModel::Failed(error) => error != 0,
            EventModel::Handle(_) => plan.steps@[s.next as int].product() is Owned
                || plan.steps@[s.next as int].product() is Kept,
            EventModel::Scalar(_) => plan.steps@[s.next as int].product() is Scalar,
            EventModel::Done => plan.steps@[s.next as int].product() is Nothing,
            EventModel::Text(_) => false,
        },
        Phase::ReadingCode => event is Text,
        Phase::ReadingMessage => event is Text,
        Phase::ReleasingError => event is Done,
        Phase::Unwinding => event is Done,
        Phase::Finished => false,
    }
}

/// The state and the action that follow `event` in `s`, for an event that `s`
/// expects.
pub open spec fn transition(plan: Plan, s: State, event: EventModel) -> (State, ActionModel) {
    match s.phase {
        Phase::Running => match event {
            EventModel::Failed(error) => (
                State { phase: Phase::ReadingCode, error, ..s },
                ActionModel::ReadErrorCode { error },
            ),
            _ => {
                let t = absorb(plan, s, event);
                if t.failure is Some {
                    unwind(plan, t)
                } else {
                    depart(plan, t)
                }
            },
        },
        Phase::ReadingCode => (
            State { phase: Phase::ReadingMessage, code: event->Text_0, ..s },
            ActionModel::ReadErrorMessage { error: s.error },
        ),
        Phase::ReadingMessage => (
            State {
                phase: Phase::ReleasingError,
                failure: Some(classify(s.code, event->Text_0)),
                ..s
            },
            ActionModel::DestroyError { error: s.error },
        ),
        _ => unwind(plan, s),
    }
}

/// Whether what `s` holds is what the ledger of the plan says at `s.next`.
pub open spec fn tracks(plan: Plan, s: State) -> bool {
    let ledger = ledger_at(plan.steps@, s.next as int);
    &&& kinds_of(s.live) == ledger.owned
    &&& s.scalars.len() == ledger.reads.len()
    &&& match s.kept {
        Some(handle) => ledger.kept == Some(handle.kind),
        None => ledger.kept is None,
    }
}

/// Whether `s` can end: it fails, or every operation has succeeded and it holds
/// what the plan's purpose answers with.
pub open spec fn settled(plan: Plan, s: State) -> bool {
    s.failure is Some || (s.next == plan.steps@.len() && {
        let ledger = ledger_at(plan.steps@, s.next as int);
        &&& s.scalars.len() == ledger.reads.len()
        &&& match s.kept {
            Some(handle) => ledger.kept == Some(handle.kind),
            None => ledger.kept is None,
        }
    })
}

/// Whether `s` is a state that a run of `plan` can be in.
pub open spec fn state_wf(plan: Plan, s: State) -> bool {
    &&& plan.wf()
    &&& s.next <= plan.steps@.len()
    &&& forall|i: int| 0 <= i < s.live.len() ==> (#[trigger] s.live[i]).wf()
    &&& s.kept matches Some(handle) ==> handle.wf() && handle.kind.outlives()
    &&& kinds_of(s.live).no_duplicates()
    &&& forall|i: int| 0 <= i < s.live.len() ==> !(#[trigger] s.live[i]).kind.outlives()
    &&& match s.phase {
        Phase::Running => s.next < plan.steps@.len() && s.failure is None && tracks(plan, s),
        Phase::ReadingCode => s.failure is None && s.error != 0,
        Phase::ReadingMessage => s.failure is None && s.error != 0,
        Phase::ReleasingError => s.failure is Some,
        Phase::Unwinding => settled(plan, s),
        Phase::Finished => s.live.len() == 0 && (s.failure is Some ==> s.kept is None),
    }
}

/// Every state that follows a state of a run, on an event that it expects, is
/// a state of a run again.
pub proof fn lemma_transition_wf(plan: Plan, s: State, event: EventModel)
    requires
        state_wf(plan, s),
        expects(plan, s, event),
    ensures
        state_wf(plan, transition(plan, s, event).0),
{
    let before = if s.phase == Phase::Running && !(event is Failed) {
        absorb(plan, s, event)
    } else {
        s
    };
    if s.phase == Phase::Running && !(event is Failed) {
        lemma_absorb(plan, s, event);
    }
    let t = transition(plan, s, event).0;
    if t.live.len() < before.live.len() {
        assert forall|i: int, j: int|
            0 <= i < t.live.len() && 0 <= j < t.live.len() && i != j implies kinds_of(t.live)[i]
            != kinds_of(t.live)[j] by {
            assert(kinds_of(before.live)[i] != kinds_of(before.live)[j]);
        }
        assert forall|i: int| 0 <= i < t.live.len() implies !(#[trigger] t.live[i]).kind.outlives() by {
            assert(t.live[i] == before.live[i]);
        }
    }
}

/// What a running query holds after an operation succeeded is again what the
/// ledger of its plan says, unless a constructor handed back the null address.
pub proof fn lemma_absorb(plan: Plan, s: State, event: EventModel)
    requires
        state_wf(plan, s),
        s.phase == Phase::Running,
        expects(plan, s, event),
        !(event is Failed),
    ensures
        ({
            let t = absorb(plan, s, event);
            &&& t.next <= plan.steps@.len()
            &&& forall|i: int| 0 <= i < t.live.len() ==> (#[trigger] t.live[i]).wf()
            &&& t.kept matches Some(handle) ==> handle.wf() && handle.kind.outlives()
            &&& kinds_of(t.live).no_duplicates()
            &&& forall|i: int| 0 <= i < t.live.len() ==> !(#[trigger] t.live[i]).kind.outlives()
            &&& t.failure is None ==> t.next == s.next + 1 && tracks(plan, t)
        }),
{
    let t = absorb(plan, s, event);
    let step = plan.steps@[s.next as int];
    let before = ledger_at(plan.steps@, s.next as int);
    assert(ready(before, kinds_of(plan.borrowed@), step));
    if t.failure is None {
        assert(ledger_at(plan.steps@, s.next as int + 1) == crate::plan::effect(before, step));
        assert(kinds_of(t.live) =~= ledger_at(plan.steps@, t.next as int).owned);
        if step.hands_over() {
            assert forall|i: int, j: int|
                0 <= i < t.live.len() && 0 <= j < t.live.len() && i != j implies kinds_of(
                t.live,
            )[i] != kinds_of(t.live)[j] by {
                assert(kinds_of(s.live)[i] != kinds_of(s.live)[j]);
            }
        }
        if let Product::Owned(kind) = step.product() {
            assert forall|i: int, j: int|
                0 <= i < t.live.len() && 0 <= j < t.live.len() && i != j implies kinds_of(
                t.live,
            )[i] != kinds_of(t.live)[j] by {
                if i < s.live.len() && j < s.live.len() {
                    assert(kinds_of(s.live)[i] != kinds_of(s.live)[j]);
                } else if i < s.live.len() {
                    assert(kinds_of(s.live)[i] != kind);
                } else {
                    assert(kinds_of(s.live)[j] != kind);
                }
            }
        }
    }
}

/// No object is destroyed twice, and none that is not there: what a step
/// destroys is a real object that the query held, and holds no more.
pub proof fn lemma_destroy_once(plan: Plan, s: State, event: EventModel)
    requires
        state_wf(plan, s),
        expects(plan, s, event),
    ensures
        ({
            let before = if s.phase == Phase::Running && !(event is Failed) {
                absorb(plan, s, event)
            } else {
                s
            };
            let (t, action) = transition(plan, s, event);
            &&& action matches ActionModel::Destroy { handle } ==> {
                &&& handle.wf()
                &&& before.live.contains(handle) || before.kept == Some(handle)
                &&& !t.live.contains(handle)
                &&& t.kept != Some(handle)
            }
            &&& action matches ActionModel::DestroyError { error } ==> error != 0 && error
                == s.error
        }),
{
    let before = if s.phase == Phase::Running && !(event is Failed) {
        absorb(plan, s, event)
    } else {
        s
    };
    if s.phase == Phase::Running && !(event is Failed) {
        lemma_absorb(plan, s, event);
    }
    let (t, action) = transition(plan, s, event);
    if let ActionModel::Destroy { handle } = action {
        if before.failure is Some && before.kept is Some {
            if t.live.contains(handle) {
                let i = choose|i: int| 0 <= i < t.live.len() && t.live[i] == handle;
                assert(!before.live[i].kind.outlives());
            }
        } else {
            let last = before.live.len() - 1;
            assert(before.live[last] == handle);
            assert(kinds_of(before.live)[last] == handle.kind);
            if t.live.contains(handle) {
                let i = choose|i: int| 0 <= i < t.live.len() && t.live[i] == handle;
                assert(kinds_of(before.live)[i] == handle.kind);
            }
        }
    }
}

/// Each operand that an operation of a running query needs is alive: its
/// address is not null.
pub proof fn lemma_operands_alive(plan: Plan, s: State)
    requires
        state_wf(plan, s),
        s.phase == Phase::Running,
    ensures
        ({
            let step = plan.steps@[s.next as int];
            &&& step.subject() is Some ==> operand(plan, s.live, step.subject()) != 0
            &&& step.argument() is Some ==> operand(plan, s.live, step.argument()) != 0
        }),
{
    let step = plan.steps@[s.next as int];
    let before = ledger_at(plan.steps@, s.next as int);
    assert(ready(before, kinds_of(plan.borrowed@), step));
    if let Some(kind) = step.subject() {
        crate::handle::lemma_kinds_contains(s.live, kind);
        crate::handle::lemma_kinds_contains(plan.borrowed@, kind);
        crate::handle::lemma_newest(s.live, kind);
        crate::handle::lemma_newest(plan.borrowed@, kind);
    }
    if let Some(kind) = step.argument() {
        crate::handle::lemma_kinds_contains(s.live, kind);
        crate::handle::lemma_kinds_contains(plan.borrowed@, kind);
        crate::handle::lemma_newest(s.live, kind);
        crate::handle::lemma_newest(plan.borrowed@, kind);
    }
}

/// How many native objects a query holds: those it owns, the one that goes to
/// the caller, and the error object while it is read.
pub open spec fn held(s: State) -> nat {
    let kept: nat = if s.kept is Some {
        1
    } else {
        0
    };
    let error: nat = if s.phase == Phase::ReadingCode || s.phase == Phase::ReadingMessage {
        1
    } else {
        0
    };
    s.live.len() + kept + error
}

/// How many native objects `event` brings: one for a new object, one for an
/// error object.
pub open spec fn acquired(s: State, event: EventModel) -> nat {
    if s.phase != Phase::Running {
        0
    } else {
        match event {
            EventModel::Failed(_) => 1,
            EventModel::Handle(address) => if address != 0 {
                1
            } else {
                0
            },
            _ => 0,
        }
    }
}

/// How many native objects `action` destroys.
pub open spec fn released(action: ActionModel) -> nat {
    if action is Destroy || action is DestroyError {
        1
    } else {
        0
    }
}

/// How many native objects the engine took over with the operation that
/// `event` reports as done.
pub open spec fn handed_over(plan: Plan, s: State, event: EventModel) -> nat {
    if s.phase == Phase::Running && event is Done && plan.steps@[s.next as int].hands_over() {
        1
    } else {
        0
    }
}

/// Nothing is lost in a step: what a query holds after it, what the step
/// destroys and what the engine took over are what the query held before
/// and what the event brought.
pub proof fn lemma_step_balance(plan: Plan, s: State, event: EventModel)
    requires
        state_wf(plan, s),
        expects(plan, s, event),
    ensures
        held(transition(plan, s, event).0) + released(transition(plan, s, event).1) + handed_over(
            plan,
            s,
            event,
        ) == held(s) + acquired(s, event),
{
    if s.phase == Phase::Running && !(event is Failed) {
        let step = plan.steps@[s.next as int];
        assert(ready(ledger_at(plan.steps@, s.next as int), kinds_of(plan.borrowed@), step));
    }
}

/// A query that ends holds nothing but the object that its answer carries: a
/// query that fails holds nothing at all.  A table response is said to have
/// distances exactly when its query asked for them and switched them on.
pub proof fn lemma_finish_clean(plan: Plan, s: State, event: EventModel)
    requires
        state_wf(plan, s),
        expects(plan, s, event),
        transition(plan, s, event).1 is Finish,
    ensures
        ({
            let t = transition(plan, s, event).0;
            let result = transition(plan, s, event).1->Finish_0;
            &&& t.phase == Phase::Finished
            &&& t.live.len() == 0
            &&& result is Err ==> held(t) == 0
            &&& result matches Ok(ReplyModel::Engine(handle)) ==> held(t) == 1 && t.kept == Some(
                handle,
            ) && handle.wf() && handle.kind == ResourceKind::Engine
            &&& result matches Ok(ReplyModel::Table { include_distance, handle }) ==> {
                &&& held(t) == 1
                &&& t.kept == Some(handle)
                &&& handle.wf()
                &&& handle.kind == ResourceKind::TableResponse
                &&& plan.purpose == Purpose::Table { include_distance }
                &&& ledger_at(plan.steps@, plan.steps@.len() as int).distance == include_distance
            }
            &&& result matches Ok(ReplyModel::Route(_)) ==> held(t) == 0
            &&& result matches Ok(ReplyModel::Value(_)) ==> held(t) == 0
        }),
{
    lemma_transition_wf(plan, s, event);
    if s.phase == Phase::Running && !(event is Failed) {
        lemma_absorb(plan, s, event);
    }
}

/// A failed operation is translated in three steps: the code is read, then the
/// message, then the error object is destroyed.  The query then fails with
/// the kind that the code and the message stand for, and still owns what it
/// owned.
pub proof fn lemma_native_failure(
    plan: Plan,
    s: State,
    error: usize,
    code: Seq<char>,
    message: Seq<char>,
)
    requires
        state_wf(plan, s),
        s.phase == Phase::Running,
        error != 0,
    ensures
        ({
            let (s1, a1) = transition(plan, s, EventModel::Failed(error));
            let (s2, a2) = transition(plan, s1, EventModel::Text(code));
            let (s3, a3) = transition(plan, s2, EventModel::Text(message));
            &&& expects(plan, s, EventModel::Failed(error))
            &&& a1 == ActionModel::ReadErrorCode { error }
            &&& expects(plan, s1, EventModel::Text(code))
            &&& a2 == ActionModel::ReadErrorMessage { error }
            &&& expects(plan, s2, EventModel::Text(message))
            &&& a3 == ActionModel::DestroyError { error }
            &&& s3.failure == Some(classify(code, message))
            &&& s3.live == s.live
            &&& s3.kept == s.kept
            &&& s3.next == s.next
        }),
{
}

/// A query fails for two reasons only: the engine reported a failure, which
/// has then been read, or a constructor handed back the null address.
pub proof fn lemma_failure_origin(plan: Plan, s: State, event: EventModel)
    requires
        state_wf(plan, s),
        expects(plan, s, event),
        s.failure is None,
    ensures
        transition(plan, s, event).0.failure is Some <==> s.phase == Phase::ReadingMessage || (
        s.phase == Phase::Running && event == EventModel::Handle(0)),
{
}

/// A query that fails makes no further operation of its plan, keeps its
/// failure, and ends with it.
pub proof fn lemma_failure_sticks(plan: Plan, s: State, event: EventModel)
    requires
        state_wf(plan, s),
        expects(plan, s, event),
        s.failure is Some,
    ensures
        ({
            let (t, action) = transition(plan, s, event);
            &&& t.failure == s.failure
            &&& t.next == s.next
            &&& !(action is Invoke)
            &&& action matches ActionModel::Finish(result) ==> result == Err::<
                ReplyModel,
                KindModel,
            >(s.failure.unwrap())
        }),
{
}

/// The count of objects over a run.
pub struct Tally {
    /// Objects that events brought.
    pub acquired: nat,
    /// Objects that actions destroyed.
    pub released: nat,
    /// Objects that the engine took over.
    pub handed_over: nat,
}

/// The state after a started query has taken in `events` in turn.
pub open spec fn state_after(plan: Plan, events: Seq<EventModel>) -> State
    decreases events.len(),
{
    if events.len() == 0 {
        depart(plan, initial()).0
    } else {
        transition(plan, state_after(plan, events.drop_last()), events.last()).0
    }
}

/// Whether each of `events` is expected where it comes.
pub open spec fn run_expected(plan: Plan, events: Seq<EventModel>) -> bool
    decreases events.len(),
{
    events.len() == 0 || (run_expected(plan, events.drop_last()) && expects(
        plan,
        state_after(plan, events.drop_last()),
        events.last(),
    ))
}

/// The count of objects over the run of a started query on `events`.
pub open spec fn tally_after(plan: Plan, events: Seq<EventModel>) -> Tally
    decreases events.len(),
{
    if events.len() == 0 {
        Tally { acquired: 0, released: 0, handed_over: 0 }
    } else {
        let before = state_after(plan, events.drop_last());
        let tally = tally_after(plan, events.drop_last());
        Tally {
            acquired: tally.acquired + acquired(before, events.last()),
            released: tally.released + released(transition(plan, before, events.last()).1),
            handed_over: tally.handed_over + handed_over(plan, before, events.last()),
        }
    }
}

/// Over any run, every object that the engine handed out is held, destroyed
/// or taken over by the engine, and none is counted twice.  So a run that has
/// ended has destroyed or handed over every object but the one that its
/// answer carries.
pub proof fn lemma_run_balance(plan: Plan, events: Seq<EventModel>)
    requires
        plan.wf(),
        run_expected(plan, events),
    ensures
        ({
            let end = state_after(plan, events);
            let tally = tally_after(plan, events);
            &&& state_wf(plan, end)
            &&& tally.acquired == held(end) + tally.released + tally.handed_over
            &&& end.phase == Phase::Finished && end.kept is Some ==> held(end) == 1
            &&& end.phase == Phase::Finished && end.kept is None ==> held(end) == 0
            &&& end.phase == Phase::Finished && end.failure is Some ==> held(end) == 0
        }),
    decreases events.len(),
{
    if events.len() == 0 {
        assert(kinds_of(initial().live) =~= ledger_at(plan.steps@, 0).owned);
    } else {
        lemma_run_balance(plan, events.drop_last());
        let before = state_after(plan, events.drop_last());
        lemma_transition_wf(plan, before, events.last());
        lemma_step_balance(plan, before, events.last());
    }
}

/// A query that is being run.
pub struct Session {
    plan: Plan,
    phase: Phase,
    next: usize,
    owned: Vec<Handle>,
    kept: Option<Handle>,
    scalars: Vec<u32>,
    failure: Option<Error>,
    code: String,
    error: usize,
}

impl View for Session {
    type V = State;

    closed spec fn view(&self) -> State {
        State {
            phase: self.phase,
            next: self.next as nat,
            live: self.owned@,
            kept: self.kept,
            scalars: self.scalars@,
            failure: match self.failure {
                Some(error) => Some(error@),
                None => None,
            },
            code: self.code@,
            error: self.error,
        }
    }
}

impl Session {
    /// The plan that is being run.
    pub closed spec fn plan(&self) -> Plan {
        self.plan
    }

    /// The state is one that a run of the plan can be in.
    pub open spec fn wf(&self) -> bool {
        state_wf(self.plan(), self@)
    }

    /// Starts to run `plan`: calls for its first operation.
    pub fn start(plan: Plan) -> (r: (Session, Action))
        requires
            plan.wf(),
        ensures
            r.0.wf(),
            r.0.plan() == plan,
            (r.0@, r.1@) == depart(plan, initial()),
    {
        let mut session = Session {
            plan,
            phase: Phase::Running,
            next: 0,
            owned: Vec::new(),
            kept: None,
            scalars: Vec::new(),
            failure: None,
            code: String::new(),
            error: 0,
        };
        proof {
            assert(session@ == initial());
            assert(kinds_of(session@.live) =~= ledger_at(plan.steps@, 0).owned);
        }
        let action = session.depart();
        (session, action)
    }

    /// Where the query stands.
    pub fn phase(&self) -> (r: Phase)
        ensures
            r == self@.phase,
    {
        self.phase
    }

    /// The dataset path that `Step::ConstructConfig` is called with.
    pub fn path(&self) -> (r: &Vec<u8>)
        ensures
            r@ == self.plan().path@,
    {
        &self.plan.path
    }

    /// Whether `event` can follow the action that was last called for.
    pub fn accepts(&self, event: &Event) -> (r: bool)
        ensures
            r == expects(self.plan(), self@, event@),
    {
        match self.phase {
            Phase::Running => {
                if self.next >= self.plan.steps.len() {
                    return false;
                }
                let product = self.plan.steps[self.next].yields();
                match event {
                    Event::Failed(error) => *error != 0,
                    Event::Handle(_) => match product {
                        Product::Owned(_) => true,
                        Product::Kept(_) => true,
                        _ => false,
                    },
                    Event::Scalar(_) => match product {
                        Product::Scalar => true,
                        _ => false,
                    },
                    Event::Done => match product {
                        Product::Nothing => true,
                        _ => false,
                    },
                    Event::Text(_) => false,
                }
            },
            Phase::ReadingCode | Phase::ReadingMessage => match event {
                Event::Text(_) => true,
                _ => false,
            },
            Phase::ReleasingError | Phase::Unwinding => match event {
                Event::Done => true,
                _ => false,
            },
            Phase::Finished => false,
        }
    }

    fn operand(&self, kind: Option<ResourceKind>) -> (r: usize)
        ensures
            r == operand(self.plan(), self@.live, kind),
    {
        match kind {
            None => 0,
            Some(kind) => match find_kind(&self.owned, kind) {
                Some(handle) => handle.address,
                None => match find_kind(&self.plan.borrowed, kind) {
                    Some(handle) => handle.address,
                    None => 0,
                },
            },
        }
    }

    fn finish(&mut self) -> (r: Result<Reply, Error>)
        requires
            old(self).plan().wf(),
            settled(old(self).plan(), old(self)@),
            old(self)@.kept matches Some(handle) ==> handle.wf(),
        ensures
            final(self)@ == (State { phase: Phase::Finished, ..old(self)@ }),
            final(self).plan() == old(self).plan(),
            r is Ok <==> old(self)@.failure is None,
            r matches Ok(reply) ==> Ok::<ReplyModel, KindModel>(reply@) == outcome(
                old(self).plan(),
                old(self)@,
            ),
            r matches Err(error) ==> Err::<ReplyModel, KindModel>(error@) == outcome(
                old(self).plan(),
                old(self)@,
            ),
    {
        self.phase = Phase::Finished;
        match &self.failure {
            Some(error) => Err(Error::from_kind(error.kind())),
            None => Ok(
                match self.plan.purpose {
                    Purpose::Open => Reply::Engine(Osrm::from_handle(self.kept.unwrap())),
                    Purpose::Route => Reply::Route(
                        RouteResponse { duration: self.scalars[0], distance: self.scalars[1] },
                    ),
                    Purpose::Table { include_distance } => Reply::Table(
                        Response::from_parts(include_distance, self.kept.unwrap()),
                    ),
                    Purpose::Cell => Reply::Value(self.scalars[0]),
                },
            ),
        }
    }

    fn unwind(&mut self) -> (action: Action)
        requires
            old(self).plan().wf(),
            settled(old(self).plan(), old(self)@),
            old(self)@.kept matches Some(handle) ==> handle.wf(),
        ensures
            final(self).plan() == old(self).plan(),
            (final(self)@, action@) == unwind(old(self).plan(), old(self)@),
    {
        if self.failure.is_some() && self.kept.is_some() {
            let handle = self.kept.unwrap();
            self.kept = None;
            self.phase = Phase::Unwinding;
            Action::Destroy { handle }
        } else if self.owned.len() > 0 {
            let handle = self.owned.pop().unwrap();
            self.phase = Phase::Unwinding;
            Action::Destroy { handle }
        } else {
            Action::Finish(self.finish())
        }
    }

    fn depart(&mut self) -> (action: Action)
        requires
            old(self).plan().wf(),
            old(self)@.next < old(self).plan().steps@.len() || settled(
                old(self).plan(),
                old(self)@,
            ),
            old(self)@.kept matches Some(handle) ==> handle.wf(),
        ensures
            final(self).plan() == old(self).plan(),
            (final(self)@, action@) == depart(old(self).plan(), old(self)@),
    {
        if self.next < self.plan.steps.len() {
            let step = self.plan.steps[self.next];
            self.phase = Phase::Running;
            Action::Invoke {
                step,
                subject: self.operand(step.subject_kind()),
                argument: self.operand(step.argument_kind()),
            }
        } else {
            self.unwind()
        }
    }

    fn absorb(&mut self, event: Event)
        requires
            old(self).wf(),
            old(self)@.phase == Phase::Running,
            expects(old(self).plan(), old(self)@, event@),
            !(event is Failed),
        ensures
            final(self).plan() == old(self).plan(),
            final(self)@ == absorb(old(self).plan(), old(self)@, event@),
    {
        let count = self.plan.steps.len();
        let step = self.plan.steps[self.next];
        match event {
            Event::Handle(address) => {
                match step.yields() {
                    Product::Owned(kind) => match Handle::wrap(kind, address) {
                        Some(handle) => {
                            self.owned.push(handle);
                            self.next += 1;
                        },
                        None => {
                            self.failure = Some(
                                Error::message("native engine returned a null handle"),
                            );
                        },
                    },
                    Product::Kept(kind) => match Handle::wrap(kind, address) {
                        Some(handle) => {
                            self.kept = Some(handle);
                            self.next += 1;
                        },
                        None => {
                            self.failure = Some(
                                Error::message("native engine returned a null handle"),
                            );
                        },
                    },
                    _ => {},
                }
            },
            Event::Scalar(bits) => {
                self.scalars.push(bits);
                self.next += 1;
            },
            Event::Done => {
                if step == Step::SetAnnotations {
                    proof {
                        assert(ready(
                            ledger_at(self.plan.steps@, self.next as int),
                            kinds_of(self.plan.borrowed@),
                            step,
                        ));
                    }
                    self.owned.pop();
                }
                self.next += 1;
            },
            _ => {},
        }
    }

    /// Takes in what came of the action last called for, and calls for the next.
    ///
    /// A failed operation has its error object read and destroyed; then, as
    /// behind the last operation, all that the query owns is destroyed, newest
    /// first, and the query ends.
    pub fn advance(&mut self, event: Event) -> (action: Action)
        requires
            old(self).wf(),
            expects(old(self).plan(), old(self)@, event@),
        ensures
            final(self).wf(),
            final(self).plan() == old(self).plan(),
            (final(self)@, action@) == transition(old(self).plan(), old(self)@, event@),
    {
        proof {
            lemma_transition_wf(self.plan, self@, event@);
        }
        match self.phase {
            Phase::Running => match event {
                Event::Failed(error) => {
                    self.error = error;
                    self.phase = Phase::ReadingCode;
                    Action::ReadErrorCode { error }
                },
                _ => {
                    proof {
                        lemma_absorb(self.plan, self@, event@);
                    }
                    self.absorb(event);
                    if self.failure.is_some() {
                        self.unwind()
                    } else {
                        self.depart()
                    }
                },
            },
            Phase::ReadingCode => {
                if let Event::Text(code) = event {
                    self.code = code;
                }
                self.phase = Phase::ReadingMessage;
                Action::ReadErrorMessage { error: self.error }
            },
            Phase::ReadingMessage => {
                if let Event::Text(message) = event {
                    self.failure = Some(Error::from_native(self.code.clone(), message));
                }
                self.phase = Phase::ReleasingError;
                Action::DestroyError { error: self.error }
            },
            _ => self.unwind(),
        }
    }
}

} // verus!

//! Native operations, and the order in which a query performs them.

use vstd::prelude::*;
use crate::handle::{kinds_of, Handle, ResourceKind};

verus! {

/// One fallible operation of the native engine.  Its operands are named by
/// their kind: they are the objects of that kind that are alive when the
/// operation is made.
#[derive(Clone, Copy, Debug, PartialEq, Eq, Structural)]
pub enum Step {
    ConstructConfig,
    ConstructEngine,
    ConstructRouteParams,
    ConstructTableParams,
    ConstructAnnotations,
    EnableDistance,
    SetAnnotations,
    /// Appends a coordinate to the parameters of kind `target`.  The native
    /// call takes the longitude first.
    AddCoordinate { target: ResourceKind, longitude: u32, latitude: u32 },
    AddSource { index: u64 },
    AddDestination { index: u64 },
    Route,
    Table,
    RouteDuration,
    RouteDistance,
    TableDuration { from: u64, to: u64 },
    TableDistance { from: u64, to: u64 },
}

/// What a successful operation hands back.
#[derive(Clone, Copy, Debug, PartialEq, Eq, Structural)]
pub enum Product {
    /// A new object that the query owns and releases before it ends.
    Owned(ResourceKind),
    /// A new object that outlives the query: it goes to the caller.
    Kept(ResourceKind),
    /// A 32-bit float, as its bit pattern.
    Scalar,
    Nothing,
}

impl Step {
    /// The kind of the first operand, where the operation has one.
    pub open spec fn subject(self) -> Option<ResourceKind> {
        match self {
            Step::ConstructConfig => None,
            Step::ConstructEngine => Some(ResourceKind::Config),
            Step::ConstructRouteParams => None,
            Step::ConstructTableParams => None,
            Step::ConstructAnnotations => None,
            Step::EnableDistance => Some(ResourceKind::Annotations),
            Step::SetAnnotations => Some(ResourceKind::TableParams),
            Step::AddCoordinate { target, .. } => Some(target),
            Step::AddSource { .. } => Some(ResourceKind::TableParams),
            Step::AddDestination { .. } => Some(ResourceKind::TableParams),
            Step::Route => Some(ResourceKind::Engine),
            Step::Table => Some(ResourceKind::Engine),
            Step::RouteDuration => Some(ResourceKind::RouteResponse),
            Step::RouteDistance => Some(ResourceKind::RouteResponse),
            Step::TableDuration { .. } => Some(ResourceKind::TableResponse),
            Step::TableDistance { .. } => Some(ResourceKind::TableResponse),
        }
    }

    /// The kind of the second operand, where the operation has one.
    pub open spec fn argument(self) -> Option<ResourceKind> {
        match self {
            Step::SetAnnotations => Some(ResourceKind::Annotations),
            Step::Route => Some(ResourceKind::RouteParams),
            Step::Table => Some(ResourceKind::TableParams),
            _ => None,
        }
    }

    /// What the operation hands back when it succeeds.
    pub open spec fn product(self) -> Product {
        match self {
            Step::ConstructConfig => Product::Owned(ResourceKind::Config),
            Step::ConstructEngine => Product::Kept(ResourceKind::Engine),
            Step::ConstructRouteParams => Product::Owned(ResourceKind::RouteParams),
            Step::ConstructTableParams => Product::Owned(ResourceKind::TableParams),
            Step::ConstructAnnotations => Product::Owned(ResourceKind::Annotations),
            Step::Route => Product::Owned(ResourceKind::RouteResponse),
            Step::Table => Product::Kept(ResourceKind::TableResponse),
            Step::RouteDuration => Product::Scalar,
            Step::RouteDistance => Product::Scalar,
            Step::TableDuration { .. } => Product::Scalar,
            Step::TableDistance { .. } => Product::Scalar,
            _ => Product::Nothing,
        }
    }

    /// Whether the operation, when it succeeds, takes over its second operand:
    /// the engine then releases that object, and the query must not.
    pub open spec fn hands_over(self) -> bool {
        self == Step::SetAnnotations
    }

    #[verifier::when_used_as_spec(subject)]
    pub fn subject_kind(self) -> (r: Option<ResourceKind>)
        ensures
            r == self.subject(),
    {
        match self {
            Step::ConstructConfig => None,
            Step::ConstructEngine => Some(ResourceKind::Config),
            Step::ConstructRouteParams => None,
            Step::ConstructTableParams => None,
            Step::ConstructAnnotations => None,
            Step::EnableDistance => Some(ResourceKind::Annotations),
            Step::SetAnnotations => Some(ResourceKind::TableParams),
            Step::AddCoordinate { target, .. } => Some(target),
            Step::AddSource { .. } => Some(ResourceKind::TableParams),
            Step::AddDestination { .. } => Some(ResourceKind::TableParams),
            Step::Route => Some(ResourceKind::Engine),
            Step::Table => Some(ResourceKind::Engine),
            Step::RouteDuration => Some(ResourceKind::RouteResponse),
            Step::RouteDistance => Some(ResourceKind::RouteResponse),
            Step::TableDuration { .. } => Some(ResourceKind::TableResponse),
            Step::TableDistance { .. } => Some(ResourceKind::TableResponse),
        }
    }

    /// What the operation hands back when it succeeds.
    #[verifier::when_used_as_spec(product)]
    pub fn yields(self) -> (r: Product)
        ensures
            r == self.product(),
    {
        match self {
            Step::ConstructConfig => Product::Owned(ResourceKind::Config),
            Step::ConstructEngine => Product::Kept(ResourceKind::Engine),
            Step::ConstructRouteParams => Product::Owned(ResourceKind::RouteParams),
            Step::ConstructTableParams => Product::Owned(ResourceKind::TableParams),
            Step::ConstructAnnotations => Product::Owned(ResourceKind::Annotations),
            Step::Route => Product::Owned(ResourceKind::RouteResponse),
            Step::Table => Product::Kept(ResourceKind::TableResponse),
            Step::RouteDuration => Product::Scalar,
            Step::RouteDistance => Product::Scalar,
            Step::TableDuration { .. } => Product::Scalar,
            Step::TableDistance { .. } => Product::Scalar,
            _ => Product::Nothing,
        }
    }

    #[verifier::when_used_as_spec(argument)]
    pub fn argument_kind(self) -> (r: Option<ResourceKind>)
        ensures
            r == self.argument(),
    {
        match self {
            Step::SetAnnotations => Some(ResourceKind::Annotations),
            Step::Route => Some(ResourceKind::RouteParams),
            Step::Table => Some(ResourceKind::TableParams),
            _ => None,
        }
    }
}

/// What a query holds after some of its operations have succeeded.
pub struct Ledger {
    /// The kinds of the objects that the query owns, oldest first.
    pub owned: Seq<ResourceKind>,
    /// The kind of the object that goes to the caller, once it exists.
    pub kept: Option<ResourceKind>,
    /// The operations that read a scalar, in order.
    pub reads: Seq<Step>,
    /// Whether the distance output was switched on in annotations.
    pub enabled: bool,
    /// Whether table parameters were given annotations with the distance
    /// output switched on.
    pub distance: bool,
}

/// The ledger of a query that has done nothing yet.
pub open spec fn empty_ledger() -> Ledger {
    Ledger { owned: Seq::empty(), kept: None, reads: Seq::empty(), enabled: false, distance: false }
}

/// The ledger after `step` has succeeded on `ledger`.
pub open spec fn effect(ledger: Ledger, step: Step) -> Ledger {
    match step.product() {
        Product::Owned(kind) => Ledger { owned: ledger.owned.push(kind), ..ledger },
        Product::Kept(kind) => Ledger { kept: Some(kind), ..ledger },
        Product::Scalar => Ledger { reads: ledger.reads.push(step), ..ledger },
        Product::Nothing => if step == Step::SetAnnotations {
            Ledger { owned: ledger.owned.drop_last(), distance: ledger.enabled, ..ledger }
        } else if step == Step::EnableDistance {
            Ledger { enabled: true, ..ledger }
        } else {
            ledger
        },
    }
}

/// The ledger after the first `count` operations of `steps` have succeeded.
pub open spec fn ledger_at(steps: Seq<Step>, count: int) -> Ledger
    decreases count,
{
    if count <= 0 || count > steps.len() {
        empty_ledger()
    } else {
        effect(ledger_at(steps, count - 1), steps[count - 1])
    }
}

/// Whether `step` can be made on `ledger`, with the objects of the kinds
/// `borrowed` lent by the caller: its operands are alive, the object it hands
/// over is the newest one owned, and it makes no second object of a kind.
pub open spec fn ready(ledger: Ledger, borrowed: Seq<ResourceKind>, step: Step) -> bool {
    &&& step.subject() matches Some(kind) ==> ledger.owned.contains(kind) || borrowed.contains(kind)
    &&& step.argument() matches Some(kind) ==> ledger.owned.contains(kind) || borrowed.contains(kind)
    &&& step.hands_over() ==> ledger.owned.len() > 0 && step.argument() == Some(ledger.owned.last())
    &&& step.product() matches Product::Owned(kind) ==> !ledger.owned.contains(kind)
    &&& step.product() matches Product::Kept(_) ==> ledger.kept is None
}

/// Whether each operation of `steps` can be made once those before it have
/// succeeded.
pub open spec fn all_ready(steps: Seq<Step>, borrowed: Seq<ResourceKind>) -> bool {
    forall|i: int| 0 <= i < steps.len() ==> ready(#[trigger] ledger_at(steps, i), borrowed, steps[i])
}

/// The ledger at a count depends only on the operations before that count.
pub proof fn lemma_ledger_prefix(a: Seq<Step>, b: Seq<Step>, count: int)
    requires
        0 <= count <= a.len(),
        count <= b.len(),
        forall|j: int| 0 <= j < count ==> a[j] == b[j],
    ensures
        ledger_at(a, count) == ledger_at(b, count),
    decreases count,
{
    if count > 0 {
        lemma_ledger_prefix(a, b, count - 1);
    }
}

/// Appending an operation that is ready keeps a sequence ready, and its effect
/// is the new final ledger.
pub proof fn lemma_push_ready(steps: Seq<Step>, borrowed: Seq<ResourceKind>, step: Step)
    requires
        all_ready(steps, borrowed),
        ready(ledger_at(steps, steps.len() as int), borrowed, step),
    ensures
        all_ready(steps.push(step), borrowed),
        ledger_at(steps.push(step), steps.len() as int + 1) == effect(
            ledger_at(steps, steps.len() as int),
            step,
        ),
{
    let longer = steps.push(step);
    assert forall|i: int| 0 <= i < longer.len() implies ready(
        #[trigger] ledger_at(longer, i),
        borrowed,
        longer[i],
    ) by {
        lemma_ledger_prefix(steps, longer, i);
    }
    lemma_ledger_prefix(steps, longer, steps.len() as int);
}

/// What lends more never makes an operation unready.
pub proof fn lemma_lend_more(
    steps: Seq<Step>,
    borrowed: Seq<ResourceKind>,
    more: Seq<ResourceKind>,
)
    requires
        all_ready(steps, borrowed),
        forall|kind: ResourceKind| borrowed.contains(kind) ==> more.contains(kind),
    ensures
        all_ready(steps, more),
{
    assert forall|i: int| 0 <= i < steps.len() implies ready(
        #[trigger] ledger_at(steps, i),
        more,
        steps[i],
    ) by {
        assert(ready(ledger_at(steps, i), borrowed, steps[i]));
    }
}

/// Appends `step` to a sequence of operations that is being written down.
pub(crate) fn record(steps: &mut Vec<Step>, step: Step, Ghost(borrowed): Ghost<Seq<ResourceKind>>)
    requires
        all_ready(old(steps)@, borrowed),
        ready(ledger_at(old(steps)@, old(steps)@.len() as int), borrowed, step),
    ensures
        final(steps)@ == old(steps)@.push(step),
        all_ready(final(steps)@, borrowed),
        ledger_at(final(steps)@, final(steps)@.len() as int) == effect(
            ledger_at(old(steps)@, old(steps)@.len() as int),
            step,
        ),
{
    proof {
        lemma_push_ready(steps@, borrowed, step);
    }
    steps.push(step);
}

/// What a query is for, which decides what it answers with.
#[derive(Clone, Copy, Debug, PartialEq, Eq, Structural)]
pub enum Purpose {
    /// Loads a dataset; answers with the engine.
    Open,
    /// Routes between two points; answers with a duration and a distance.
    Route,
    /// Computes a matrix; answers with the response that holds it.
    Table { include_distance: bool },
    /// Reads one cell of a matrix; answers with its value.
    Cell,
}

/// What the final ledger of a query must hold for it to answer its purpose: the
/// object that goes to the caller, the reads in the order in which the answer
/// takes them, and the distances that a table response is said to have.
pub open spec fn answers(purpose: Purpose, ledger: Ledger) -> bool {
    match purpose {
        Purpose::Open => ledger.kept == Some(ResourceKind::Engine),
        Purpose::Route => ledger.kept is None && ledger.reads == seq![
            Step::RouteDuration,
            Step::RouteDistance,
        ],
        Purpose::Table { include_distance } => ledger.kept == Some(ResourceKind::TableResponse)
            && ledger.distance == include_distance,
        Purpose::Cell => ledger.kept is None && ledger.reads.len() == 1,
    }
}

/// A query, ready to be run: the native operations to make, in order.
pub struct Plan {
    pub purpose: Purpose,
    /// The dataset path for `Step::ConstructConfig`, free of NUL bytes.
    pub path: Vec<u8>,
    pub steps: Vec<Step>,
    /// The caller's objects that the operations use and leave alive.
    pub borrowed: Vec<Handle>,
}

impl Plan {
    /// A plan can be run when each operation finds its operands alive, the
    /// borrowed handles are real, and the operations together give what the
    /// purpose answers with.
    pub open spec fn wf(self) -> bool {
        &&& all_ready(self.steps@, kinds_of(self.borrowed@))
        &&& forall|i: int| 0 <= i < self.borrowed@.len() ==> (#[trigger] self.borrowed@[i]).wf()
        &&& answers(self.purpose, ledger_at(self.steps@, self.steps@.len() as int))
        &&& forall|i: int| 0 <= i < self.path@.len() ==> self.path@[i] != 0
    }
}

} // verus!

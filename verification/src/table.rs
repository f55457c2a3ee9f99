//! The many-to-many query: its parameters and the reading of its response.

use vstd::prelude::*;
use crate::errors::{Error, KindModel};
use crate::handle::{Handle, ResourceKind};
use crate::plan::{all_ready, empty_ledger, ledger_at, record, Ledger, Plan, Purpose, Step};
use crate::Coordinate;

verus! {

/// The operation that appends `point` to the coordinate pool of table parameters.
pub open spec fn table_coordinate(point: Coordinate) -> Step {
    Step::AddCoordinate {
        target: ResourceKind::TableParams,
        longitude: point.longitude,
        latitude: point.latitude,
    }
}

/// The operations that construct table parameters and give them their
/// annotations.  Durations are always computed; distances where asked for.
pub open spec fn table_prefix(include_distance: bool) -> Seq<Step> {
    if include_distance {
        seq![
            Step::ConstructTableParams,
            Step::ConstructAnnotations,
            Step::EnableDistance,
            Step::SetAnnotations,
        ]
    } else {
        seq![Step::ConstructTableParams, Step::ConstructAnnotations, Step::SetAnnotations]
    }
}

/// The ledger of table parameters under construction, with their annotations
/// still in the query's hands.
pub open spec fn with_annotations(enabled: bool) -> Ledger {
    Ledger {
        owned: seq![ResourceKind::TableParams, ResourceKind::Annotations],
        enabled,
        ..empty_ledger()
    }
}

/// The ledger of table parameters that are all a query owns, with the distance
/// output as `distance` says.
pub open spec fn only_params(distance: bool) -> Ledger {
    Ledger {
        owned: seq![ResourceKind::TableParams],
        enabled: distance,
        distance,
        ..empty_ledger()
    }
}

/// Whether the indices rise strictly and all lie below `bound`.
pub open spec fn rising_below(indices: Seq<u64>, bound: nat) -> bool {
    &&& forall|i: int| 0 <= i < indices.len() ==> (#[trigger] indices[i]) < bound
    &&& forall|i: int, j: int| 0 <= i < j < indices.len() ==> indices[i] < indices[j]
}

/// The output options of a table query.
struct Annotations {}

impl Annotations {
    /// Constructs the annotations, with distances switched on where asked for.
    fn new(steps: &mut Vec<Step>, include_distance: bool)
        requires
            old(steps)@ == seq![Step::ConstructTableParams],
            all_ready(old(steps)@, Seq::empty()),
            ledger_at(old(steps)@, 1) == only_params(false),
        ensures
            final(steps)@ == if include_distance {
                seq![Step::ConstructTableParams, Step::ConstructAnnotations, Step::EnableDistance]
            } else {
                seq![Step::ConstructTableParams, Step::ConstructAnnotations]
            },
            all_ready(final(steps)@, Seq::empty()),
            ledger_at(final(steps)@, final(steps)@.len() as int) == with_annotations(
                include_distance,
            ),
    {
        proof {
            assert(!only_params(false).owned.contains(ResourceKind::Annotations));
        }
        record(steps, Step::ConstructAnnotations, Ghost(Seq::empty()));
        proof {
            assert(ledger_at(steps@, 2).owned =~= with_annotations(false).owned);
            assert(steps@ =~= seq![Step::ConstructTableParams, Step::ConstructAnnotations]);
        }
        if include_distance {
            Annotations::set_distance(steps);
            proof {
                assert(steps@ =~= seq![
                    Step::ConstructTableParams,
                    Step::ConstructAnnotations,
                    Step::EnableDistance,
                ]);
            }
        }
    }

    /// Switches the distance output on.
    fn set_distance(steps: &mut Vec<Step>)
        requires
            all_ready(old(steps)@, Seq::empty()),
            ledger_at(old(steps)@, old(steps)@.len() as int) == with_annotations(false),
        ensures
            final(steps)@ == old(steps)@.push(Step::EnableDistance),
            all_ready(final(steps)@, Seq::empty()),
            ledger_at(final(steps)@, final(steps)@.len() as int) == with_annotations(true),
    {
        proof {
            assert(with_annotations(false).owned[1] == ResourceKind::Annotations);
        }
        record(steps, Step::EnableDistance, Ghost(Seq::empty()));
    }
}

/// The parameters of a table query while they are being assembled.
///
/// Sources and destinations share one pool of coordinates, which only grows:
/// each coordinate added takes the next index, counted from zero, and is then
/// registered under that index in its role.
pub struct Parameters {
    steps: Vec<Step>,
    num_coords: usize,
    sources: Vec<u64>,
    destinations: Vec<u64>,
    include_distance: bool,
}

impl View for Parameters {
    type V = Seq<Step>;

    /// The native operations that build the parameters, in order.
    closed spec fn view(&self) -> Seq<Step> {
        self.steps@
    }
}

impl Parameters {
    /// How many coordinates are in the pool.
    pub closed spec fn num_coords(&self) -> nat {
        self.num_coords as nat
    }

    /// The pool indices registered as sources, in the order of registration.
    pub closed spec fn sources(&self) -> Seq<u64> {
        self.sources@
    }

    /// The pool indices registered as destinations, in the order of registration.
    pub closed spec fn destinations(&self) -> Seq<u64> {
        self.destinations@
    }

    /// Whether distances are computed along with the durations.
    pub closed spec fn distance(&self) -> bool {
        self.include_distance
    }

    /// The operations build one parameter object and nothing else, and every
    /// coordinate of the pool has exactly one role: the indices of each role
    /// rise, lie in the pool, and none has both roles.
    pub open spec fn wf(&self) -> bool {
        &&& all_ready(self@, Seq::empty())
        &&& ledger_at(self@, self@.len() as int) == only_params(self.distance())
        &&& self.num_coords() < self@.len()
        &&& self.num_coords() == self.sources().len() + self.destinations().len()
        &&& rising_below(self.sources(), self.num_coords())
        &&& rising_below(self.destinations(), self.num_coords())
        &&& forall|i: int, j: int|
            0 <= i < self.sources().len() && 0 <= j < self.destinations().len()
                ==> self.sources()[i] != self.destinations()[j]
    }

    /// The pool indices registered as sources, in the order of registration.
    pub fn source_indices(&self) -> (r: &Vec<u64>)
        ensures
            r@ == self.sources(),
    {
        &self.sources
    }

    /// The pool indices registered as destinations, in the order of registration.
    pub fn destination_indices(&self) -> (r: &Vec<u64>)
        ensures
            r@ == self.destinations(),
    {
        &self.destinations
    }

    /// Parameters with their annotations attached and an empty pool.
    pub fn new(include_distance: bool) -> (r: Parameters)
        ensures
            r.wf(),
            r@ == table_prefix(include_distance),
            r.distance() == include_distance,
            r.num_coords() == 0,
            r.sources() == Seq::<u64>::empty(),
            r.destinations() == Seq::<u64>::empty(),
    {
        let mut steps: Vec<Step> = Vec::new();
        proof {
            assert(ledger_at(steps@, 0) == empty_ledger());
        }
        record(&mut steps, Step::ConstructTableParams, Ghost(Seq::empty()));
        proof {
            assert(steps@ =~= seq![Step::ConstructTableParams]);
            assert(ledger_at(steps@, 1).owned =~= only_params(false).owned);
        }
        Annotations::new(&mut steps, include_distance);
        proof {
            assert(with_annotations(include_distance).owned[0] == ResourceKind::TableParams);
            assert(with_annotations(include_distance).owned.last() == ResourceKind::Annotations);
        }
        record(&mut steps, Step::SetAnnotations, Ghost(Seq::empty()));
        proof {
            assert(with_annotations(include_distance).owned.drop_last() =~= only_params(
                include_distance,
            ).owned);
            assert(steps@ =~= table_prefix(include_distance));
        }
        Parameters {
            steps,
            num_coords: 0,
            sources: Vec::new(),
            destinations: Vec::new(),
            include_distance,
        }
    }

    /// Appends `coordinate` to the pool and returns the index it took.
    fn add_coordinate(&mut self, coordinate: &Coordinate) -> (index: usize)
        requires
            old(self).wf(),
        ensures
            index == old(self).num_coords(),
            final(self)@ == old(self)@.push(table_coordinate(*coordinate)),
            final(self).num_coords() == old(self).num_coords() + 1,
            final(self).sources() == old(self).sources(),
            final(self).destinations() == old(self).destinations(),
            final(self).distance() == old(self).distance(),
            all_ready(final(self)@, Seq::empty()),
            ledger_at(final(self)@, final(self)@.len() as int) == only_params(
                final(self).distance(),
            ),
            final(self).num_coords() < final(self)@.len(),
    {
        let step = Step::AddCoordinate {
            target: ResourceKind::TableParams,
            longitude: coordinate.longitude,
            latitude: coordinate.latitude,
        };
        proof {
            assert(only_params(self.distance()).owned[0] == ResourceKind::TableParams);
        }
        let written = self.steps.len();
        record(&mut self.steps, step, Ghost(Seq::empty()));
        let index = self.num_coords;
        self.num_coords += 1;
        index
    }

    /// Adds `coordinate` to the pool and registers it as a source.
    pub fn add_source(&mut self, coordinate: &Coordinate)
        requires
            old(self).wf(),
        ensures
            final(self).wf(),
            final(self)@ == old(self)@.push(table_coordinate(*coordinate)).push(
                Step::AddSource { index: old(self).num_coords() as u64 },
            ),
            final(self).num_coords() == old(self).num_coords() + 1,
            final(self).sources() == old(self).sources().push(old(self).num_coords() as u64),
            final(self).destinations() == old(self).destinations(),
            final(self).distance() == old(self).distance(),
    {
        let index = self.add_coordinate(coordinate);
        proof {
            assert(only_params(self.distance()).owned[0] == ResourceKind::TableParams);
        }
        record(&mut self.steps, Step::AddSource { index: index as u64 }, Ghost(Seq::empty()));
        self.sources.push(index as u64);
    }

    /// Adds `coordinate` to the pool and registers it as a destination.
    pub fn add_destination(&mut self, coordinate: &Coordinate)
        requires
            old(self).wf(),
        ensures
            final(self).wf(),
            final(self)@ == old(self)@.push(table_coordinate(*coordinate)).push(
                Step::AddDestination { index: old(self).num_coords() as u64 },
            ),
            final(self).num_coords() == old(self).num_coords() + 1,
            final(self).sources() == old(self).sources(),
            final(self).destinations() == old(self).destinations().push(
                old(self).num_coords() as u64,
            ),
            final(self).distance() == old(self).distance(),
    {
        let index = self.add_coordinate(coordinate);
        proof {
            assert(only_params(self.distance()).owned[0] == ResourceKind::TableParams);
        }
        record(&mut self.steps, Step::AddDestination { index: index as u64 }, Ghost(Seq::empty()));
        self.destinations.push(index as u64);
    }

    /// The operations written down.
    pub fn into_steps(self) -> (r: Vec<Step>)
        ensures
            r@ == self@,
    {
        self.steps
    }
}

/// The text of the error for a distance asked of a response that has none.
pub open spec fn missing_distance() -> Seq<char> {
    "get_distance() called on table response without distance"@
}

/// The matrix that a table query computed, alive in the native engine.
#[derive(Debug)]
pub struct Response {
    include_distance: bool,
    handle: Handle,
}

impl Response {
    /// Whether distances were computed along with the durations.
    pub closed spec fn has_distance(&self) -> bool {
        self.include_distance
    }

    /// The native response object.
    pub closed spec fn spec_handle(&self) -> Handle {
        self.handle
    }

    /// The handle is real and stands for a table response.
    #[verifier::type_invariant]
    pub closed spec fn wf(&self) -> bool {
        self.handle.wf() && self.handle.kind == ResourceKind::TableResponse
    }

    pub(crate) fn from_parts(include_distance: bool, handle: Handle) -> (r: Response)
        requires
            handle.wf(),
            handle.kind == ResourceKind::TableResponse,
        ensures
            r.has_distance() == include_distance,
            r.spec_handle() == handle,
    {
        Response { include_distance, handle }
    }

    /// Whether distances were computed along with the durations.
    #[verifier::when_used_as_spec(has_distance)]
    pub fn include_distance(&self) -> (r: bool)
        ensures
            r == self.has_distance(),
    {
        self.include_distance
    }

    /// The native response object, which the owner destroys when it drops the
    /// response.
    #[verifier::when_used_as_spec(spec_handle)]
    pub fn handle(&self) -> (r: Handle)
        ensures
            r == self.spec_handle(),
            r.wf(),
            r.kind == ResourceKind::TableResponse,
    {
        proof {
            use_type_invariant(self);
        }
        self.handle
    }

    fn cell(&self, step: Step) -> (plan: Plan)
        requires
            step.subject() == Some(ResourceKind::TableResponse),
            step.argument() is None,
            step.product() == crate::plan::Product::Scalar,
        ensures
            plan.wf(),
            plan.purpose == Purpose::Cell,
            plan.path@.len() == 0,
            plan.steps@ == seq![step],
            plan.borrowed@ == seq![self.spec_handle()],
    {
        let mut steps: Vec<Step> = Vec::new();
        let mut borrowed: Vec<Handle> = Vec::new();
        borrowed.push(self.handle);
        let ghost lent = crate::handle::kinds_of(borrowed@);
        proof {
            use_type_invariant(self);
            assert(borrowed@ =~= seq![self.handle]);
            assert(lent[0] == ResourceKind::TableResponse);
            assert(ledger_at(steps@, 0) == empty_ledger());
            assert(!step.hands_over());
        }
        record(&mut steps, step, Ghost(lent));
        proof {
            assert(steps@ =~= seq![step]);
        }
        Plan { purpose: Purpose::Cell, path: Vec::new(), steps, borrowed }
    }

    /// The query that reads the duration from the source registered as number
    /// `from` to the destination registered as number `to`.
    pub fn get_duration(&self, from: usize, to: usize) -> (plan: Plan)
        ensures
            plan.wf(),
            plan.purpose == Purpose::Cell,
            plan.path@.len() == 0,
            plan.steps@ == seq![Step::TableDuration { from: from as u64, to: to as u64 }],
            plan.borrowed@ == seq![self.spec_handle()],
    {
        self.cell(Step::TableDuration { from: from as u64, to: to as u64 })
    }

    /// The query that reads the distance from the source registered as number
    /// `from` to the destination registered as number `to`.  Without distances
    /// in the response there is none to make.
    pub fn get_distance(&self, from: usize, to: usize) -> (r: Result<Plan, Error>)
        ensures
            r is Ok <==> self.has_distance(),
            r matches Ok(plan) ==> {
                &&& plan.wf()
                &&& plan.purpose == Purpose::Cell
                &&& plan.path@.len() == 0
                &&& plan.steps@ == seq![Step::TableDistance { from: from as u64, to: to as u64 }]
                &&& plan.borrowed@ == seq![self.spec_handle()]
            },
            r matches Err(e) ==> e@ == KindModel::Message(missing_distance()),
    {
        if !self.include_distance {
            return Err(Error::message("get_distance() called on table response without distance"));
        }
        Ok(self.cell(Step::TableDistance { from: from as u64, to: to as u64 }))
    }
}

} // verus!

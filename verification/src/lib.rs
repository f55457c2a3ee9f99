//! A safety layer over a native routing engine, written without any I/O.
//!
//! The native engine is reached only through opaque handles and calls that
//! report failure through an error slot.  This crate decides which native calls
//! are made, in which order, with which operands, when each handle is released,
//! and how a native failure becomes a typed [`Error`].  The embedding program
//! performs each call it is told to make and reports what came back.
//!
//! Every quantity that the engine exchanges as a 32-bit float (a latitude, a
//! duration) is carried here as its IEEE-754 bit pattern in a `u32`.

pub mod errors;
pub mod handle;
pub mod plan;
pub mod route;
pub mod session;
pub mod table;

pub use self::errors::{Error, ErrorKind};
pub use self::handle::{Handle, ResourceKind};
pub use self::plan::{Plan, Purpose, Step};
pub use self::table::Response as TableResponse;

use vstd::prelude::*;
use self::errors::KindModel;
use self::plan::ledger_at;
use self::table::{table_coordinate, table_prefix};

verus! {

/// A point on the globe.  Each field is the bit pattern of a 32-bit float, in
/// degrees.  No range is enforced here: the engine refuses what lies outside.
#[derive(Clone, Copy, Debug, PartialEq, Eq, Structural)]
pub struct Coordinate {
    pub latitude: u32,
    pub longitude: u32,
}

/// The answer to a route query.  Each field is the bit pattern of a 32-bit float.
#[derive(Clone, Copy, Debug, PartialEq, Eq, Structural)]
pub struct RouteResponse {
    pub duration: u32,
    pub distance: u32,
}

/// The text of the error for a table query without sources or destinations.
pub open spec fn empty_table() -> Seq<char> {
    "sources/destinations can not be empty"@
}

/// Operation number `i` of the table query over `sources` and `destinations`.
///
/// Behind the operations that construct the parameters, each source takes two
/// operations, then each destination: the coordinate joins the pool, and the
/// index it took there is registered.  The pool is shared, so the first
/// destination takes the index after the last source.  The query itself is last.
pub open spec fn table_step(
    sources: Seq<Coordinate>,
    destinations: Seq<Coordinate>,
    include_distance: bool,
    i: int,
) -> Step {
    let prefix = table_prefix(include_distance);
    let first_source = prefix.len() as int;
    let first_destination = first_source + 2 * sources.len();
    let last = first_destination + 2 * destinations.len();
    if i < first_source {
        prefix[i]
    } else if i < first_destination {
        let k = (i - first_source) / 2;
        if (i - first_source) % 2 == 0 {
            table_coordinate(sources[k])
        } else {
            Step::AddSource { index: k as u64 }
        }
    } else if i < last {
        let k = (i - first_destination) / 2;
        if (i - first_destination) % 2 == 0 {
            table_coordinate(destinations[k])
        } else {
            Step::AddDestination { index: (sources.len() + k) as u64 }
        }
    } else {
        Step::Table
    }
}

/// The operations of the table query over `sources` and `destinations`.
pub open spec fn table_steps(
    sources: Seq<Coordinate>,
    destinations: Seq<Coordinate>,
    include_distance: bool,
) -> Seq<Step> {
    Seq::new(
        table_prefix(include_distance).len() + 2 * sources.len() + 2 * destinations.len() + 1,
        |i: int| table_step(sources, destinations, include_distance, i),
    )
}

/// In a table query the source registered as number `k` is the coordinate at
/// pool index `k`, and the destination registered as number `k` the one at
/// pool index `sources.len() + k`: each coordinate is added just before it is
/// registered, none is shared, and the query comes last.
pub proof fn lemma_table_layout(
    sources: Seq<Coordinate>,
    destinations: Seq<Coordinate>,
    include_distance: bool,
)
    ensures
        ({
            let steps = table_steps(sources, destinations, include_distance);
            let first = table_prefix(include_distance).len() as int;
            let second = first + 2 * sources.len();
            &&& steps.len() == second + 2 * destinations.len() + 1
            &&& steps.subrange(0, first) == table_prefix(include_distance)
            &&& forall|k: int|
                0 <= k < sources.len() ==> {
                    &&& #[trigger] steps[first + 2 * k] == table_coordinate(sources[k])
                    &&& steps[first + 2 * k + 1] == Step::AddSource { index: k as u64 }
                }
            &&& forall|k: int|
                0 <= k < destinations.len() ==> {
                    &&& #[trigger] steps[second + 2 * k] == table_coordinate(destinations[k])
                    &&& steps[second + 2 * k + 1] == Step::AddDestination {
                        index: (sources.len() + k) as u64,
                    }
                }
            &&& steps.last() == Step::Table
        }),
{
    let steps = table_steps(sources, destinations, include_distance);
    let first = table_prefix(include_distance).len() as int;
    assert(steps.subrange(0, first) =~= table_prefix(include_distance));
}

/// The operations of the route query from `from` to `to`: the origin joins the
/// parameters first, and the duration is read before the distance.
pub open spec fn route_steps(from: Coordinate, to: Coordinate) -> Seq<Step> {
    seq![
        Step::ConstructRouteParams,
        route::route_coordinate(from),
        route::route_coordinate(to),
        Step::Route,
        Step::RouteDuration,
        Step::RouteDistance,
    ]
}

/// A loaded routing engine.  It is never changed once it is loaded.
#[derive(Debug)]
pub struct Osrm {
    handle: Handle,
}

impl Osrm {
    /// The native engine object.
    pub closed spec fn spec_handle(&self) -> Handle {
        self.handle
    }

    /// The handle is real and stands for an engine.
    #[verifier::type_invariant]
    pub closed spec fn wf(&self) -> bool {
        self.handle.wf() && self.handle.kind == ResourceKind::Engine
    }

    pub(crate) fn from_handle(handle: Handle) -> (r: Osrm)
        requires
            handle.wf(),
            handle.kind == ResourceKind::Engine,
        ensures
            r.spec_handle() == handle,
    {
        Osrm { handle }
    }

    /// The native engine object, which the owner destroys when it drops the
    /// engine.
    #[verifier::when_used_as_spec(spec_handle)]
    pub fn handle(&self) -> (r: Handle)
        ensures
            r == self.spec_handle(),
            r.wf(),
            r.kind == ResourceKind::Engine,
    {
        proof {
            use_type_invariant(self);
        }
        self.handle
    }

    /// The query that loads the dataset at `path`: a configuration is built from
    /// the path, the engine from the configuration.  A path with a NUL byte is
    /// refused, with the position of its first one.
    pub fn new(path: &[u8]) -> (r: Result<Plan, Error>)
        ensures
            r is Ok <==> forall|i: int| 0 <= i < path@.len() ==> path@[i] != 0,
            r matches Ok(plan) ==> {
                &&& plan.wf()
                &&& plan.purpose == Purpose::Open
                &&& plan.path@ == path@
                &&& plan.steps@ == seq![Step::ConstructConfig, Step::ConstructEngine]
                &&& plan.borrowed@.len() == 0
            },
            r matches Err(e) ==> exists|position: int|
                {
                    &&& 0 <= position < path@.len()
                    &&& path@[position] == 0
                    &&& forall|i: int| 0 <= i < position ==> path@[i] != 0
                    &&& e@ == KindModel::FfiNul { position: position as nat }
                },
    {
        let mut bytes: Vec<u8> = Vec::new();
        let mut i: usize = 0;
        while i < path.len()
            invariant
                i <= path@.len(),
                bytes@ == path@.take(i as int),
                forall|j: int| 0 <= j < i ==> path@[j] != 0,
            decreases path@.len() - i,
        {
            if path[i] == 0 {
                return Err(Error::from_nul(i));
            }
            bytes.push(path[i]);
            proof {
                assert(bytes@ =~= path@.take(i + 1));
            }
            i += 1;
        }
        proof {
            assert(bytes@ =~= path@);
        }
        let mut steps: Vec<Step> = Vec::new();
        let borrowed: Vec<Handle> = Vec::new();
        let ghost lent = handle::kinds_of(borrowed@);
        proof {
            assert(ledger_at(steps@, 0) == plan::empty_ledger());
        }
        plan::record(&mut steps, Step::ConstructConfig, Ghost(lent));
        proof {
            assert(ledger_at(steps@, 1).owned[0] == ResourceKind::Config);
        }
        plan::record(&mut steps, Step::ConstructEngine, Ghost(lent));
        proof {
            assert(steps@ =~= seq![Step::ConstructConfig, Step::ConstructEngine]);
        }
        Ok(Plan { purpose: Purpose::Open, path: bytes, steps, borrowed })
    }

    /// The query for the matrix from each of `sources` to each of
    /// `destinations`.  With no source or no destination there is none to make.
    pub fn table(
        &self,
        sources: &[Coordinate],
        destinations: &[Coordinate],
        include_distance: bool,
    ) -> (r: Result<Plan, Error>)
        ensures
            r is Ok <==> sources@.len() > 0 && destinations@.len() > 0,
            r matches Ok(plan) ==> {
                &&& plan.wf()
                &&& plan.purpose == Purpose::Table { include_distance }
                &&& plan.path@.len() == 0
                &&& plan.steps@ == table_steps(sources@, destinations@, include_distance)
                &&& plan.borrowed@ == seq![self.spec_handle()]
            },
            r matches Err(e) ==> e@ == KindModel::Message(empty_table()),
    {
        if sources.len() == 0 || destinations.len() == 0 {
            return Err(Error::message("sources/destinations can not be empty"));
        }
        let mut params = table::Parameters::new(include_distance);
        let ghost first_source = table_prefix(include_distance).len() as int;
        let mut k: usize = 0;
        while k < sources.len()
            invariant
                k <= sources@.len(),
                first_source == table_prefix(include_distance).len(),
                params.wf(),
                params.distance() == include_distance,
                params.num_coords() == k,
                params@.len() == first_source + 2 * k,
                forall|i: int|
                    0 <= i < params@.len() ==> params@[i] == table_step(
                        sources@,
                        destinations@,
                        include_distance,
                        i,
                    ),
            decreases sources@.len() - k,
        {
            params.add_source(&sources[k]);
            k += 1;
        }
        let ghost first_destination = first_source + 2 * sources@.len();
        let mut k: usize = 0;
        while k < destinations.len()
            invariant
                k <= destinations@.len(),
                first_source == table_prefix(include_distance).len(),
                first_destination == first_source + 2 * sources@.len(),
                params.wf(),
                params.distance() == include_distance,
                params.num_coords() == sources@.len() + k,
                params@.len() == first_destination + 2 * k,
                forall|i: int|
                    0 <= i < params@.len() ==> params@[i] == table_step(
                        sources@,
                        destinations@,
                        include_distance,
                        i,
                    ),
            decreases destinations@.len() - k,
        {
            params.add_destination(&destinations[k]);
            k += 1;
        }
        let mut steps = params.into_steps();
        let mut borrowed: Vec<Handle> = Vec::new();
        borrowed.push(self.handle);
        let ghost lent = handle::kinds_of(borrowed@);
        proof {
            use_type_invariant(self);
            assert(borrowed@ =~= seq![self.handle]);
            assert(lent[0] == ResourceKind::Engine);
            plan::lemma_lend_more(steps@, Seq::empty(), lent);
            assert(table::only_params(include_distance).owned[0] == ResourceKind::TableParams);
        }
        plan::record(&mut steps, Step::Table, Ghost(lent));
        proof {
            assert(steps@ =~= table_steps(sources@, destinations@, include_distance));
        }
        Ok(Plan { purpose: Purpose::Table { include_distance }, path: Vec::new(), steps, borrowed })
    }

    /// The query for the route from `from` to `to`.
    pub fn route(&self, from: &Coordinate, to: &Coordinate) -> (plan: Plan)
        ensures
            plan.wf(),
            plan.purpose == Purpose::Route,
            plan.path@.len() == 0,
            plan.steps@ == route_steps(*from, *to),
            plan.borrowed@ == seq![self.spec_handle()],
    {
        let mut params = route::RouteParameters::new();
        params.add_coordinate(from);
        params.add_coordinate(to);
        let mut response = route::RouteResponse::from(params);
        response.duration();
        response.distance();
        let steps = response.into_steps();
        let mut borrowed: Vec<Handle> = Vec::new();
        borrowed.push(self.handle);
        proof {
            use_type_invariant(self);
            assert(borrowed@ =~= seq![self.handle]);
            assert(handle::kinds_of(borrowed@) =~= seq![ResourceKind::Engine]);
            assert(ledger_at(steps@, steps@.len() as int).reads =~= seq![
                Step::RouteDuration,
                Step::RouteDistance,
            ]);
            assert(steps@ =~= route_steps(*from, *to));
        }
        Plan { purpose: Purpose::Route, path: Vec::new(), steps, borrowed }
    }
}

} // verus!

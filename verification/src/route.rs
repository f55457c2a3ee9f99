//! The point-to-point query: its parameters and the reading of its response.

use vstd::prelude::*;
use crate::handle::ResourceKind;
use crate::plan::{all_ready, empty_ledger, ledger_at, record, Ledger, Step};
use crate::Coordinate;

verus! {

/// The operation that appends `point` to route parameters.
pub open spec fn route_coordinate(point: Coordinate) -> Step {
    Step::AddCoordinate {
        target: ResourceKind::RouteParams,
        longitude: point.longitude,
        latitude: point.latitude,
    }
}

/// The parameters of a route query while they are being assembled: the native
/// operations that build them, in order.
pub struct RouteParameters {
    steps: Vec<Step>,
}

impl View for RouteParameters {
    type V = Seq<Step>;

    closed spec fn view(&self) -> Seq<Step> {
        self.steps@
    }
}

impl RouteParameters {
    /// The operations build one parameter object and nothing else.
    pub open spec fn wf(&self) -> bool {
        &&& all_ready(self@, Seq::empty())
        &&& ledger_at(self@, self@.len() as int) == (Ledger {
            owned: seq![ResourceKind::RouteParams],
            ..empty_ledger()
        })
    }

    /// Empty parameters: the native object is constructed, no coordinate is in it.
    pub fn new() -> (r: RouteParameters)
        ensures
            r.wf(),
            r@ == seq![Step::ConstructRouteParams],
    {
        let mut steps: Vec<Step> = Vec::new();
        proof {
            assert(ledger_at(steps@, 0) == empty_ledger());
        }
        record(&mut steps, Step::ConstructRouteParams, Ghost(Seq::empty()));
        proof {
            assert(steps@ =~= seq![Step::ConstructRouteParams]);
            assert(ledger_at(steps@, 1).owned =~= seq![ResourceKind::RouteParams]);
        }
        RouteParameters { steps }
    }

    /// Appends `point` behind the coordinates added so far.
    pub fn add_coordinate(&mut self, point: &Coordinate)
        requires
            old(self).wf(),
        ensures
            final(self).wf(),
            final(self)@ == old(self)@.push(route_coordinate(*point)),
    {
        let step = Step::AddCoordinate {
            target: ResourceKind::RouteParams,
            longitude: point.longitude,
            latitude: point.latitude,
        };
        proof {
            assert(seq![ResourceKind::RouteParams][0] == ResourceKind::RouteParams);
        }
        record(&mut self.steps, step, Ghost(Seq::empty()));
    }
}

/// The response of a route query inside the plan that reads it: the operations
/// that build the parameters, run the query and read the response, in order.
pub struct RouteResponse {
    steps: Vec<Step>,
}

impl View for RouteResponse {
    type V = Seq<Step>;

    closed spec fn view(&self) -> Seq<Step> {
        self.steps@
    }
}

impl RouteResponse {
    /// The reads made of the response, in order.
    pub open spec fn reads(&self) -> Seq<Step> {
        ledger_at(self@, self@.len() as int).reads
    }

    /// The operations use the caller's engine, and leave the parameters and the
    /// response to be released.
    pub open spec fn wf(&self) -> bool {
        &&& all_ready(self@, seq![ResourceKind::Engine])
        &&& ledger_at(self@, self@.len() as int).owned == seq![
            ResourceKind::RouteParams,
            ResourceKind::RouteResponse,
        ]
        &&& ledger_at(self@, self@.len() as int).kept is None
    }

    /// Runs the query on the assembled parameters.
    pub fn from(params: RouteParameters) -> (r: RouteResponse)
        requires
            params.wf(),
        ensures
            r.wf(),
            r.reads() == Seq::<Step>::empty(),
            r@ == params@.push(Step::Route),
    {
        let mut steps = params.steps;
        let ghost lent = seq![ResourceKind::Engine];
        proof {
            crate::plan::lemma_lend_more(steps@, Seq::empty(), lent);
            assert(lent[0] == ResourceKind::Engine);
            assert(seq![ResourceKind::RouteParams][0] == ResourceKind::RouteParams);
            assert(!seq![ResourceKind::RouteParams].contains(ResourceKind::RouteResponse));
        }
        record(&mut steps, Step::Route, Ghost(lent));
        proof {
            assert(ledger_at(steps@, steps@.len() as int).owned =~= seq![
                ResourceKind::RouteParams,
                ResourceKind::RouteResponse,
            ]);
        }
        RouteResponse { steps }
    }

    /// Reads the distance off the response.
    pub fn distance(&mut self)
        requires
            old(self).wf(),
        ensures
            final(self).wf(),
            final(self).reads() == old(self).reads().push(Step::RouteDistance),
            final(self)@ == old(self)@.push(Step::RouteDistance),
    {
        proof {
            assert(ledger_at(self@, self@.len() as int).owned[1] == ResourceKind::RouteResponse);
        }
        let ghost lent = seq![ResourceKind::Engine];
        record(&mut self.steps, Step::RouteDistance, Ghost(lent));
    }

    /// Reads the duration off the response.
    pub fn duration(&mut self)
        requires
            old(self).wf(),
        ensures
            final(self).wf(),
            final(self).reads() == old(self).reads().push(Step::RouteDuration),
            final(self)@ == old(self)@.push(Step::RouteDuration),
    {
        proof {
            assert(ledger_at(self@, self@.len() as int).owned[1] == ResourceKind::RouteResponse);
        }
        let ghost lent = seq![ResourceKind::Engine];
        record(&mut self.steps, Step::RouteDuration, Ghost(lent));
    }

    /// The operations written down.
    pub fn into_steps(self) -> (r: Vec<Step>)
        ensures
            r@ == self@,
    {
        self.steps
    }
}

} // verus!

//! Handles, operations and the parameters of the two queries.

use osrm::handle::find_kind;
use osrm::plan::Product;
use osrm::route::RouteParameters;
use osrm::table::Parameters;
use osrm::{Coordinate, Handle, ResourceKind, Step};

#[test]
fn null_addresses_make_no_handle() {
    assert_eq!(Handle::wrap(ResourceKind::Engine, 0), None);
    assert_eq!(
        Handle::wrap(ResourceKind::Engine, 16),
        Some(Handle { kind: ResourceKind::Engine, address: 16 })
    );
}

#[test]
fn newest_handle_of_a_kind_is_found() {
    let handles = vec![
        Handle { kind: ResourceKind::Config, address: 1 },
        Handle { kind: ResourceKind::TableParams, address: 2 },
        Handle { kind: ResourceKind::Config, address: 3 },
    ];
    assert_eq!(find_kind(&handles, ResourceKind::Config), Some(handles[2]));
    assert_eq!(find_kind(&handles, ResourceKind::TableParams), Some(handles[1]));
    assert_eq!(find_kind(&handles, ResourceKind::Engine), None);
    assert_eq!(find_kind(&Vec::new(), ResourceKind::Engine), None);
}

#[test]
fn steps_know_their_operands() {
    assert_eq!(Step::ConstructConfig.subject_kind(), None);
    assert_eq!(Step::Route.subject_kind(), Some(ResourceKind::Engine));
    assert_eq!(Step::Route.argument_kind(), Some(ResourceKind::RouteParams));
    assert_eq!(Step::Table.argument_kind(), Some(ResourceKind::TableParams));
    assert_eq!(Step::SetAnnotations.subject_kind(), Some(ResourceKind::TableParams));
    assert_eq!(Step::SetAnnotations.argument_kind(), Some(ResourceKind::Annotations));
    assert_eq!(Step::AddSource { index: 4 }.argument_kind(), None);
    assert_eq!(Step::TableDistance { from: 0, to: 0 }.subject_kind(), Some(ResourceKind::TableResponse));
}

#[test]
fn route_parameters_keep_the_order_of_their_coordinates() {
    let first = Coordinate { latitude: 1, longitude: 2 };
    let second = Coordinate { latitude: 3, longitude: 4 };
    let mut params = RouteParameters::new();
    params.add_coordinate(&first);
    params.add_coordinate(&second);
    let mut response = osrm::route::RouteResponse::from(params);
    response.distance();
    response.duration();
    assert_eq!(
        response.into_steps(),
        vec![
            Step::ConstructRouteParams,
            Step::AddCoordinate { target: ResourceKind::RouteParams, longitude: 2, latitude: 1 },
            Step::AddCoordinate { target: ResourceKind::RouteParams, longitude: 4, latitude: 3 },
            Step::Route,
            Step::RouteDistance,
            Step::RouteDuration,
        ]
    );
}

#[test]
fn table_parameters_never_reuse_a_pool_index() {
    let point = Coordinate { latitude: 5, longitude: 6 };
    let add = Step::AddCoordinate { target: ResourceKind::TableParams, longitude: 6, latitude: 5 };
    let mut params = Parameters::new(false);
    params.add_destination(&point);
    params.add_source(&point);
    params.add_source(&point);
    assert_eq!(params.source_indices(), &vec![1, 2]);
    assert_eq!(params.destination_indices(), &vec![0]);
    assert_eq!(
        params.into_steps(),
        vec![
            Step::ConstructTableParams,
            Step::ConstructAnnotations,
            Step::SetAnnotations,
            add,
            Step::AddDestination { index: 0 },
            add,
            Step::AddSource { index: 1 },
            add,
            Step::AddSource { index: 2 },
        ]
    );
    assert_eq!(
        Parameters::new(true).into_steps(),
        vec![
            Step::ConstructTableParams,
            Step::ConstructAnnotations,
            Step::EnableDistance,
            Step::SetAnnotations,
        ]
    );
}

#[test]
fn steps_know_what_they_hand_back() {
    assert_eq!(Step::ConstructConfig.yields(), Product::Owned(ResourceKind::Config));
    assert_eq!(Step::ConstructEngine.yields(), Product::Kept(ResourceKind::Engine));
    assert_eq!(Step::Route.yields(), Product::Owned(ResourceKind::RouteResponse));
    assert_eq!(Step::Table.yields(), Product::Kept(ResourceKind::TableResponse));
    assert_eq!(Step::RouteDistance.yields(), Product::Scalar);
    assert_eq!(Step::TableDuration { from: 1, to: 2 }.yields(), Product::Scalar);
    assert_eq!(Step::SetAnnotations.yields(), Product::Nothing);
    assert_eq!(Step::AddDestination { index: 0 }.yields(), Product::Nothing);
}

//! Queries run against a small stand-in for the native engine, which keeps
//! count of every object it hands out and panics on a double release.

use std::collections::HashMap;

use osrm::session::{Action, Event, Phase, Reply, Session};
use osrm::{Coordinate, Error, ErrorKind, Handle, Osrm, Plan, Purpose, ResourceKind, Step, TableResponse};

const OSRM_FILE: &str = "./test-data/gcc-states-latest.osrm";

fn coordinate(latitude: f32, longitude: f32) -> Coordinate {
    Coordinate { latitude: latitude.to_bits(), longitude: longitude.to_bits() }
}

fn coordinate_a() -> Coordinate {
    coordinate(24.447_618, 54.371_037)
}

fn coordinate_b() -> Coordinate {
    coordinate(24.454_87, 54.391_076)
}

fn coordinate_c() -> Coordinate {
    coordinate(24.454_979, 54.376_52)
}

fn coordinate_broken_a() -> Coordinate {
    coordinate(25.071_65, 55.402_115)
}

fn coordinate_broken_b() -> Coordinate {
    coordinate(25.086_226, 55.385_334)
}

fn coordinate_invalid() -> Coordinate {
    coordinate(-190.0, -190.0)
}

#[derive(Clone, Debug)]
enum Object {
    Config,
    Engine,
    RouteParams { pool: Vec<(f32, f32)> },
    TableParams { pool: Vec<(f32, f32)>, sources: Vec<u64>, destinations: Vec<u64>, distance: bool },
    Annotations { distance: bool },
    RouteResponse { pool: Vec<(f32, f32)> },
    TableResponse { pool: Vec<(f32, f32)>, sources: Vec<u64>, destinations: Vec<u64>, distance: bool },
    Error { code: String, message: String },
}

struct Fake {
    objects: HashMap<usize, Object>,
    next_address: usize,
    constructed: usize,
    destroyed: usize,
    taken_over: usize,
    calls: Vec<Step>,
    destroyed_order: Vec<usize>,
    fail_on: Option<Step>,
    null_on: Option<Step>,
}

fn fake() -> Fake {
    Fake {
        objects: HashMap::new(),
        next_address: 0x1000,
        constructed: 0,
        destroyed: 0,
        taken_over: 0,
        calls: Vec::new(),
        destroyed_order: Vec::new(),
        fail_on: None,
        null_on: None,
    }
}

fn make(engine: &mut Fake, object: Object) -> usize {
    let address = engine.next_address;
    engine.next_address += 0x10;
    engine.constructed += 1;
    engine.objects.insert(address, object);
    address
}

fn fail(engine: &mut Fake, code: &str, message: &str) -> Event {
    let address = make(engine, Object::Error { code: code.to_string(), message: message.to_string() });
    Event::Failed(address)
}

fn destroy(engine: &mut Fake, address: usize) {
    assert!(engine.objects.remove(&address).is_some(), "released twice or never made: {:#x}", address);
    engine.destroyed += 1;
    engine.destroyed_order.push(address);
}

fn broken(point: (f32, f32)) -> bool {
    point.1 > 25.0
}

fn out_of_range(point: (f32, f32)) -> bool {
    point.0 < -180.0 || point.0 > 180.0 || point.1 < -90.0 || point.1 > 90.0
}

fn metres(from: (f32, f32), to: (f32, f32)) -> f32 {
    ((from.0 - to.0).abs() + (from.1 - to.1).abs()) * 111_000.0
}

fn measure(from: (f32, f32), to: (f32, f32), speed: f32, engine: &mut Fake) -> Event {
    if broken(from) || broken(to) {
        fail(engine, "NoRoute", "Impossible route between points")
    } else {
        Event::Scalar((metres(from, to) / speed).to_bits())
    }
}

fn invoke(engine: &mut Fake, step: Step, subject: usize, argument: usize, path: &[u8]) -> Event {
    engine.calls.push(step);
    if engine.fail_on == Some(step) {
        return fail(engine, "Exception", "the engine gave up");
    }
    if engine.null_on == Some(step) {
        return Event::Handle(0);
    }
    match step {
        Step::ConstructConfig => {
            if path != OSRM_FILE.as_bytes() {
                return fail(engine, "Exception", "no such dataset");
            }
            Event::Handle(make(engine, Object::Config))
        }
        Step::ConstructEngine => {
            assert!(matches!(engine.objects.get(&subject), Some(Object::Config)));
            Event::Handle(make(engine, Object::Engine))
        }
        Step::ConstructRouteParams => Event::Handle(make(engine, Object::RouteParams { pool: Vec::new() })),
        Step::ConstructTableParams => Event::Handle(make(
            engine,
            Object::TableParams { pool: Vec::new(), sources: Vec::new(), destinations: Vec::new(), distance: false },
        )),
        Step::ConstructAnnotations => Event::Handle(make(engine, Object::Annotations { distance: false })),
        Step::EnableDistance => match engine.objects.get_mut(&subject) {
            Some(Object::Annotations { distance }) => {
                *distance = true;
                Event::Done
            }
            other => panic!("not annotations: {:?}", other),
        },
        Step::SetAnnotations => {
            let wanted = match engine.objects.remove(&argument) {
                Some(Object::Annotations { distance }) => distance,
                other => panic!("not annotations: {:?}", other),
            };
            engine.taken_over += 1;
            match engine.objects.get_mut(&subject) {
                Some(Object::TableParams { distance, .. }) => *distance = wanted,
                other => panic!("not table parameters: {:?}", other),
            }
            Event::Done
        }
        Step::AddCoordinate { target, longitude, latitude } => {
            let point = (f32::from_bits(longitude), f32::from_bits(latitude));
            match engine.objects.get_mut(&subject) {
                Some(Object::RouteParams { pool }) => {
                    assert_eq!(target, ResourceKind::RouteParams);
                    pool.push(point)
                }
                Some(Object::TableParams { pool, .. }) => {
                    assert_eq!(target, ResourceKind::TableParams);
                    pool.push(point)
                }
                other => panic!("not parameters: {:?}", other),
            }
            Event::Done
        }
        Step::AddSource { index } => match engine.objects.get_mut(&subject) {
            Some(Object::TableParams { pool, sources, .. }) => {
                assert!((index as usize) < pool.len());
                sources.push(index);
                Event::Done
            }
            other => panic!("not table parameters: {:?}", other),
        },
        Step::AddDestination { index } => match engine.objects.get_mut(&subject) {
            Some(Object::TableParams { pool, destinations, .. }) => {
                assert!((index as usize) < pool.len());
                destinations.push(index);
                Event::Done
            }
            other => panic!("not table parameters: {:?}", other),
        },
        Step::Route => {
            assert!(matches!(engine.objects.get(&subject), Some(Object::Engine)));
            let pool = match engine.objects.get(&argument) {
                Some(Object::RouteParams { pool }) => pool.clone(),
                other => panic!("not route parameters: {:?}", other),
            };
            if pool.iter().any(|point| out_of_range(*point)) {
                return fail(engine, "InvalidValue", "Invalid coordinate value.");
            }
            if pool.iter().any(|point| broken(*point)) {
                return fail(engine, "NoRoute", "Impossible route between points");
            }
            Event::Handle(make(engine, Object::RouteResponse { pool }))
        }
        Step::Table => {
            assert!(matches!(engine.objects.get(&subject), Some(Object::Engine)));
            let made = match engine.objects.get(&argument) {
                Some(Object::TableParams { pool, sources, destinations, distance }) => Object::TableResponse {
                    pool: pool.clone(),
                    sources: sources.clone(),
                    destinations: destinations.clone(),
                    distance: *distance,
                },
                other => panic!("not table parameters: {:?}", other),
            };
            if let Object::TableResponse { pool, .. } = &made {
                if pool.iter().any(|point| out_of_range(*point)) {
                    return fail(engine, "InvalidValue", "Invalid coordinate value.");
                }
            }
            Event::Handle(make(engine, made))
        }
        Step::RouteDuration | Step::RouteDistance => {
            let pool = match engine.objects.get(&subject) {
                Some(Object::RouteResponse { pool }) => pool.clone(),
                other => panic!("not a route response: {:?}", other),
            };
            let speed = if step == Step::RouteDuration { 10.0 } else { 1.0 };
            measure(pool[0], pool[1], speed, engine)
        }
        Step::TableDuration { from, to } | Step::TableDistance { from, to } => {
            let (pool, sources, destinations, distance) = match engine.objects.get(&subject) {
                Some(Object::TableResponse { pool, sources, destinations, distance }) => {
                    (pool.clone(), sources.clone(), destinations.clone(), *distance)
                }
                other => panic!("not a table response: {:?}", other),
            };
            let wants_distance = matches!(step, Step::TableDistance { .. });
            if wants_distance && !distance {
                return fail(engine, "Exception", "distance annotation not requested");
            }
            if from as usize >= sources.len() || to as usize >= destinations.len() {
                return fail(engine, "Exception", "index out of bounds");
            }
            let origin = pool[sources[from as usize] as usize];
            let target = pool[destinations[to as usize] as usize];
            measure(origin, target, if wants_distance { 1.0 } else { 10.0 }, engine)
        }
    }
}

fn text_of(engine: &Fake, error: usize, code: bool) -> String {
    match engine.objects.get(&error) {
        Some(Object::Error { code: c, message: m }) => {
            if code {
                c.clone()
            } else {
                m.clone()
            }
        }
        other => panic!("not an error object: {:?}", other),
    }
}

fn run(engine: &mut Fake, plan: Plan) -> Result<Reply, Error> {
    let (mut session, mut action) = Session::start(plan);
    loop {
        let event = match action {
            Action::Finish(result) => {
                assert_eq!(session.phase(), Phase::Finished);
                return result;
            }
            Action::Invoke { step, subject, argument } => {
                let path = session.path().clone();
                invoke(engine, step, subject, argument, &path)
            }
            Action::ReadErrorCode { error } => Event::Text(text_of(engine, error, true)),
            Action::ReadErrorMessage { error } => Event::Text(text_of(engine, error, false)),
            Action::DestroyError { error } => {
                destroy(engine, error);
                Event::Done
            }
            Action::Destroy { handle } => {
                destroy(engine, handle.address);
                Event::Done
            }
        };
        assert!(session.accepts(&event));
        action = session.advance(event);
    }
}

fn load_osrm(engine: &mut Fake) -> Result<Osrm, Error> {
    let plan = Osrm::new(OSRM_FILE.as_bytes())?;
    match run(engine, plan)? {
        Reply::Engine(osrm) => Ok(osrm),
        other => panic!("not an engine: {:?}", other),
    }
}

fn table(
    engine: &mut Fake,
    osrm: &Osrm,
    sources: &[Coordinate],
    destinations: &[Coordinate],
    include_distance: bool,
) -> Result<TableResponse, Error> {
    let plan = osrm.table(sources, destinations, include_distance)?;
    match run(engine, plan)? {
        Reply::Table(response) => Ok(response),
        other => panic!("not a table response: {:?}", other),
    }
}

fn route(engine: &mut Fake, osrm: &Osrm, from: &Coordinate, to: &Coordinate) -> Result<osrm::RouteResponse, Error> {
    match run(engine, osrm.route(from, to))? {
        Reply::Route(response) => Ok(response),
        other => panic!("not a route response: {:?}", other),
    }
}

fn value(engine: &mut Fake, plan: Plan) -> Result<f32, Error> {
    match run(engine, plan)? {
        Reply::Value(bits) => Ok(f32::from_bits(bits)),
        other => panic!("not a value: {:?}", other),
    }
}

fn get_duration(engine: &mut Fake, response: &TableResponse, from: usize, to: usize) -> Result<f32, Error> {
    value(engine, response.get_duration(from, to))
}

fn get_distance(engine: &mut Fake, response: &TableResponse, from: usize, to: usize) -> Result<f32, Error> {
    value(engine, response.get_distance(from, to)?)
}

fn in_hand(engine: &Fake) -> usize {
    engine.constructed - engine.destroyed - engine.taken_over
}

#[test]
fn test_table() {
    let mut engine = fake();
    let osrm = load_osrm(&mut engine).unwrap();
    let result = table(&mut engine, &osrm, &[coordinate_a(), coordinate_b()], &[coordinate_c()], true).unwrap();

    assert_ne!(get_duration(&mut engine, &result, 0, 0).unwrap(), 0.0);
    assert_ne!(get_duration(&mut engine, &result, 1, 0).unwrap(), 0.0);
    assert_ne!(
        get_duration(&mut engine, &result, 0, 0).unwrap(),
        get_duration(&mut engine, &result, 1, 0).unwrap()
    );

    assert_ne!(get_distance(&mut engine, &result, 0, 0).unwrap(), 0.0);
    assert_ne!(get_distance(&mut engine, &result, 1, 0).unwrap(), 0.0);
    assert_ne!(
        get_distance(&mut engine, &result, 0, 0).unwrap(),
        get_distance(&mut engine, &result, 1, 0).unwrap()
    );
}

#[test]
fn test_table_no_parameters() {
    let mut engine = fake();
    let osrm = load_osrm(&mut engine).unwrap();
    let result = table(&mut engine, &osrm, &[], &[], true);
    assert!(result.is_err());
}

#[test]
fn test_route() {
    let mut engine = fake();
    let osrm = load_osrm(&mut engine).unwrap();

    let result1 = route(&mut engine, &osrm, &coordinate_a(), &coordinate_b()).unwrap();

    assert_ne!(f32::from_bits(result1.duration), 0.0);
    assert_ne!(f32::from_bits(result1.distance), 0.0);

    let result2 = route(&mut engine, &osrm, &coordinate_a(), &coordinate_c()).unwrap();

    assert_ne!(f32::from_bits(result2.duration), 0.0);
    assert_ne!(f32::from_bits(result2.distance), 0.0);

    assert_ne!(f32::from_bits(result1.duration), f32::from_bits(result2.duration));
    assert_ne!(f32::from_bits(result1.distance), f32::from_bits(result2.distance));
}

#[test]
fn test_unroutable() {
    let mut engine = fake();
    let osrm = load_osrm(&mut engine).unwrap();

    let result = route(&mut engine, &osrm, &coordinate_broken_a(), &coordinate_broken_b());
    assert_eq!(result.err().unwrap().kind(), ErrorKind::NoRoute);
}

#[test]
fn test_unroutable_table() {
    let mut engine = fake();
    let osrm = load_osrm(&mut engine).unwrap();

    let resp = table(&mut engine, &osrm, &[coordinate_broken_a()], &[coordinate_broken_b()], true).unwrap();

    let result = get_duration(&mut engine, &resp, 0, 0);
    assert_eq!(result.err().unwrap().kind(), ErrorKind::NoRoute);

    let result = get_distance(&mut engine, &resp, 0, 0);
    assert_eq!(result.err().unwrap().kind(), ErrorKind::NoRoute);
}

#[test]
fn test_invalid_coordinate() {
    let mut engine = fake();
    let osrm = load_osrm(&mut engine).unwrap();

    let result = route(&mut engine, &osrm, &coordinate_a(), &coordinate_invalid());
    assert_eq!(result.err().unwrap().kind(), ErrorKind::InvalidCoordinate);
}

#[test]
fn route_is_positive_and_exact() {
    let mut engine = fake();
    let osrm = load_osrm(&mut engine).unwrap();
    let from = coordinate(24.0, 54.0);
    let to = coordinate(24.5, 54.25);
    let result = route(&mut engine, &osrm, &from, &to).unwrap();
    assert_eq!(f32::from_bits(result.distance), 0.75 * 111_000.0);
    assert_eq!(f32::from_bits(result.duration), 0.75 * 111_000.0 / 10.0);
    assert!(f32::from_bits(result.duration) > 0.0);
}

#[test]
fn route_plan_lists_origin_first_and_longitude_first() {
    let mut engine = fake();
    let osrm = load_osrm(&mut engine).unwrap();
    let from = coordinate(1.0, 2.0);
    let to = coordinate(3.0, 4.0);
    let plan = osrm.route(&from, &to);
    assert_eq!(plan.purpose, Purpose::Route);
    assert_eq!(plan.borrowed, vec![osrm.handle()]);
    assert!(plan.path.is_empty());
    assert_eq!(
        plan.steps,
        vec![
            Step::ConstructRouteParams,
            Step::AddCoordinate {
                target: ResourceKind::RouteParams,
                longitude: 2.0f32.to_bits(),
                latitude: 1.0f32.to_bits()
            },
            Step::AddCoordinate {
                target: ResourceKind::RouteParams,
                longitude: 4.0f32.to_bits(),
                latitude: 3.0f32.to_bits()
            },
            Step::Route,
            Step::RouteDuration,
            Step::RouteDistance,
        ]
    );
}

#[test]
fn route_releases_response_then_parameters() {
    let mut engine = fake();
    let osrm = load_osrm(&mut engine).unwrap();
    let before = engine.destroyed_order.len();
    route(&mut engine, &osrm, &coordinate_a(), &coordinate_b()).unwrap();
    let released = &engine.destroyed_order[before..];
    assert_eq!(released.len(), 2);
    assert!(released[0] > released[1], "the response was made last and goes first");
    assert_eq!(in_hand(&engine), 1);
    assert_eq!(engine.objects.len(), 1);
}

#[test]
fn table_plan_numbers_one_shared_pool() {
    let mut engine = fake();
    let osrm = load_osrm(&mut engine).unwrap();
    let a = coordinate(1.0, 2.0);
    let b = coordinate(3.0, 4.0);
    let plan = osrm.table(&[a, b], &[a], true).unwrap();
    let add = |point: Coordinate| Step::AddCoordinate {
        target: ResourceKind::TableParams,
        longitude: point.longitude,
        latitude: point.latitude,
    };
    assert_eq!(plan.purpose, Purpose::Table { include_distance: true });
    assert_eq!(
        plan.steps,
        vec![
            Step::ConstructTableParams,
            Step::ConstructAnnotations,
            Step::EnableDistance,
            Step::SetAnnotations,
            add(a),
            Step::AddSource { index: 0 },
            add(b),
            Step::AddSource { index: 1 },
            add(a),
            Step::AddDestination { index: 2 },
            Step::Table,
        ]
    );
    let plain = osrm.table(&[a], &[b], false).unwrap();
    assert_eq!(plain.purpose, Purpose::Table { include_distance: false });
    assert_eq!(
        plain.steps,
        vec![
            Step::ConstructTableParams,
            Step::ConstructAnnotations,
            Step::SetAnnotations,
            add(a),
            Step::AddSource { index: 0 },
            add(b),
            Step::AddDestination { index: 1 },
            Step::Table,
        ]
    );
}

#[test]
fn table_indices_follow_registration_not_the_pool() {
    let mut engine = fake();
    let osrm = load_osrm(&mut engine).unwrap();
    let sources = [coordinate(24.0, 54.0), coordinate(24.0, 54.5)];
    let destinations = [coordinate(24.0, 54.0), coordinate(24.25, 54.0)];
    let response = table(&mut engine, &osrm, &sources, &destinations, true).unwrap();
    assert_eq!(get_distance(&mut engine, &response, 0, 0).unwrap(), 0.0);
    assert_eq!(get_distance(&mut engine, &response, 1, 0).unwrap(), 0.5 * 111_000.0);
    assert_eq!(get_distance(&mut engine, &response, 0, 1).unwrap(), 0.25 * 111_000.0);
    assert_eq!(get_duration(&mut engine, &response, 1, 1).unwrap(), 0.75 * 111_000.0 / 10.0);
}

#[test]
fn table_with_an_empty_side_makes_no_native_call() {
    let mut engine = fake();
    let osrm = load_osrm(&mut engine).unwrap();
    let calls = engine.calls.len();
    let made = engine.constructed;
    for (sources, destinations) in [
        (vec![], vec![coordinate_a()]),
        (vec![coordinate_a()], vec![]),
        (vec![], vec![]),
    ] {
        for include_distance in [false, true] {
            let error = osrm.table(&sources, &destinations, include_distance).err().unwrap();
            assert_eq!(error.kind(), ErrorKind::Message("sources/destinations can not be empty".to_string()));
        }
    }
    assert_eq!(engine.calls.len(), calls);
    assert_eq!(engine.constructed, made);
}

#[test]
fn table_without_distance_refuses_distance_locally() {
    let mut engine = fake();
    let osrm = load_osrm(&mut engine).unwrap();
    let response = table(&mut engine, &osrm, &[coordinate_a(), coordinate_b()], &[coordinate_c()], false).unwrap();
    assert!(!response.include_distance());
    let calls = engine.calls.len();
    for from in 0..3 {
        for to in 0..3 {
            let error = response.get_distance(from, to).err().unwrap();
            assert_eq!(
                error.kind(),
                ErrorKind::Message("get_distance() called on table response without distance".to_string())
            );
        }
    }
    assert_eq!(engine.calls.len(), calls);
    assert!(get_duration(&mut engine, &response, 0, 0).is_ok());
    assert!(get_duration(&mut engine, &response, 1, 0).is_ok());
}

#[test]
fn table_with_distance_answers_in_any_order() {
    let mut engine = fake();
    let osrm = load_osrm(&mut engine).unwrap();
    let response = table(&mut engine, &osrm, &[coordinate_a(), coordinate_b()], &[coordinate_c()], true).unwrap();
    assert!(response.include_distance());
    let distance_first = get_distance(&mut engine, &response, 1, 0).unwrap();
    let duration_second = get_duration(&mut engine, &response, 1, 0).unwrap();
    let duration_first = get_duration(&mut engine, &response, 1, 0).unwrap();
    let distance_second = get_distance(&mut engine, &response, 1, 0).unwrap();
    assert_eq!(distance_first, distance_second);
    assert_eq!(duration_first, duration_second);
    for from in 0..2 {
        assert!(get_distance(&mut engine, &response, from, 0).is_ok());
        assert!(get_duration(&mut engine, &response, from, 0).is_ok());
    }
}

#[test]
fn cell_plans_name_the_response_and_the_pair() {
    let mut engine = fake();
    let osrm = load_osrm(&mut engine).unwrap();
    let response = table(&mut engine, &osrm, &[coordinate_a()], &[coordinate_c()], true).unwrap();
    let duration = response.get_duration(3, 5);
    assert_eq!(duration.purpose, Purpose::Cell);
    assert_eq!(duration.steps, vec![Step::TableDuration { from: 3, to: 5 }]);
    assert_eq!(duration.borrowed, vec![response.handle()]);
    let distance = response.get_distance(7, 2).unwrap();
    assert_eq!(distance.steps, vec![Step::TableDistance { from: 7, to: 2 }]);
    assert_eq!(distance.borrowed, vec![response.handle()]);
    assert_eq!(response.handle().kind, ResourceKind::TableResponse);
}

#[test]
fn invalid_coordinate_in_a_table() {
    let mut engine = fake();
    let osrm = load_osrm(&mut engine).unwrap();
    let error = table(&mut engine, &osrm, &[coordinate_a()], &[coordinate_invalid()], true).err().unwrap();
    assert_eq!(error.kind(), ErrorKind::InvalidCoordinate);
    assert_eq!(in_hand(&engine), 1);
}

#[test]
fn other_engine_errors_keep_code_and_message() {
    let mut engine = fake();
    let error = run(&mut engine, Osrm::new(b"./nowhere.osrm").unwrap()).err().unwrap();
    assert_eq!(
        error.kind(),
        ErrorKind::Osrmc { code: "Exception".to_string(), message: "no such dataset".to_string() }
    );
    assert_eq!(error.describe(), "osrm-rs: Osrmc: Exception: no such dataset");
    assert_eq!(in_hand(&engine), 0);
    assert!(engine.objects.is_empty());
}

#[test]
fn opening_releases_the_configuration_and_keeps_the_engine() {
    let mut engine = fake();
    let plan = Osrm::new(OSRM_FILE.as_bytes()).unwrap();
    assert_eq!(plan.purpose, Purpose::Open);
    assert_eq!(plan.path, OSRM_FILE.as_bytes().to_vec());
    assert_eq!(plan.steps, vec![Step::ConstructConfig, Step::ConstructEngine]);
    assert!(plan.borrowed.is_empty());
    let osrm = match run(&mut engine, plan).unwrap() {
        Reply::Engine(osrm) => osrm,
        other => panic!("not an engine: {:?}", other),
    };
    assert_eq!(osrm.handle().kind, ResourceKind::Engine);
    assert_eq!(engine.constructed, 2);
    assert_eq!(engine.destroyed, 1);
    assert!(matches!(engine.objects.get(&osrm.handle().address), Some(Object::Engine)));
}

#[test]
fn failing_engine_construction_releases_the_configuration() {
    let mut engine = fake();
    engine.fail_on = Some(Step::ConstructEngine);
    let error = load_osrm(&mut engine).err().unwrap();
    assert_eq!(
        error.kind(),
        ErrorKind::Osrmc { code: "Exception".to_string(), message: "the engine gave up".to_string() }
    );
    assert_eq!(engine.constructed, 2);
    assert_eq!(engine.destroyed, 2);
    assert!(engine.objects.is_empty());
}

#[test]
fn path_with_nul_byte_is_refused_before_any_call() {
    let error = Osrm::new(b"./test\0data/x\0.osrm").err().unwrap();
    assert_eq!(error.kind(), ErrorKind::FfiNul { position: 6 });
    let late = Osrm::new(b"0123456789ab\0").err().unwrap();
    assert_eq!(late.kind(), ErrorKind::FfiNul { position: 12 });
    assert_eq!(late.describe(), "osrm-rs: nul byte found in provided data at position: 12");
    assert!(Osrm::new(b"").is_ok());
}

#[test]
fn annotations_are_handed_over_and_not_released_again() {
    let mut engine = fake();
    let osrm = load_osrm(&mut engine).unwrap();
    let before = engine.destroyed;
    let response = table(&mut engine, &osrm, &[coordinate_a()], &[coordinate_c()], true).unwrap();
    assert_eq!(engine.taken_over, 1);
    assert_eq!(engine.destroyed - before, 1, "only the parameters are released");
    assert_eq!(in_hand(&engine), 2);
    assert!(engine.objects.contains_key(&response.handle().address));
}

#[test]
fn failing_to_attach_annotations_releases_both_objects() {
    let mut engine = fake();
    let osrm = load_osrm(&mut engine).unwrap();
    engine.fail_on = Some(Step::SetAnnotations);
    let before = engine.destroyed;
    let error = table(&mut engine, &osrm, &[coordinate_a()], &[coordinate_c()], true).err().unwrap();
    assert!(matches!(error.kind(), ErrorKind::Osrmc { .. }));
    assert_eq!(engine.taken_over, 0);
    assert_eq!(engine.destroyed - before, 3, "the error, the annotations, the parameters");
    let released = &engine.destroyed_order[before..];
    assert!(released[1] > released[2], "annotations were made after the parameters and go first");
    assert_eq!(in_hand(&engine), 1);
}

#[test]
fn failing_halfway_stops_the_plan_and_releases_what_was_made() {
    let mut engine = fake();
    let osrm = load_osrm(&mut engine).unwrap();
    engine.fail_on = Some(Step::AddSource { index: 1 });
    let calls = engine.calls.len();
    let error = table(&mut engine, &osrm, &[coordinate_a(), coordinate_b()], &[coordinate_c()], false).err().unwrap();
    assert!(matches!(error.kind(), ErrorKind::Osrmc { .. }));
    assert_eq!(engine.calls.len() - calls, 7);
    assert_eq!(engine.calls.last(), Some(&Step::AddSource { index: 1 }));
    assert_eq!(in_hand(&engine), 1);
}

#[test]
fn null_handle_without_error_fails_the_query() {
    let mut engine = fake();
    let osrm = load_osrm(&mut engine).unwrap();
    engine.null_on = Some(Step::Route);
    let error = route(&mut engine, &osrm, &coordinate_a(), &coordinate_b()).err().unwrap();
    assert_eq!(error.kind(), ErrorKind::Message("native engine returned a null handle".to_string()));
    assert_eq!(in_hand(&engine), 1);

    let mut engine = fake();
    engine.null_on = Some(Step::ConstructEngine);
    let error = load_osrm(&mut engine).err().unwrap();
    assert_eq!(error.kind(), ErrorKind::Message("native engine returned a null handle".to_string()));
    assert!(engine.objects.is_empty());
}

#[test]
fn repeated_queries_leave_nothing_behind() {
    let mut engine = fake();
    let osrm = load_osrm(&mut engine).unwrap();
    for round in 0..20 {
        let _ = route(&mut engine, &osrm, &coordinate_a(), &coordinate_b());
        let _ = route(&mut engine, &osrm, &coordinate_broken_a(), &coordinate_broken_b());
        let _ = route(&mut engine, &osrm, &coordinate_a(), &coordinate_invalid());
        let _ = table(&mut engine, &osrm, &[], &[coordinate_a()], true);
        let response = table(&mut engine, &osrm, &[coordinate_a(), coordinate_broken_a()], &[coordinate_c()], round % 2 == 0).unwrap();
        let _ = get_duration(&mut engine, &response, 0, 0);
        let _ = get_duration(&mut engine, &response, 1, 0);
        let _ = get_distance(&mut engine, &response, 0, 0);
        let _ = get_duration(&mut engine, &response, 9, 9);
        destroy(&mut engine, response.handle().address);
        assert_eq!(in_hand(&engine), 1);
        assert_eq!(engine.objects.len(), 1);
    }
    destroy(&mut engine, osrm.handle().address);
    assert_eq!(in_hand(&engine), 0);
    assert_eq!(engine.constructed, engine.destroyed + engine.taken_over);
}

#[test]
fn session_says_which_events_it_accepts() {
    let plan = Osrm::new(b"x").unwrap();
    let (mut session, action) = Session::start(plan);
    assert!(matches!(action, Action::Invoke { step: Step::ConstructConfig, subject: 0, argument: 0 }));
    assert_eq!(session.phase(), Phase::Running);
    assert_eq!(session.path(), &b"x".to_vec());
    assert!(session.accepts(&Event::Handle(64)));
    assert!(session.accepts(&Event::Failed(64)));
    assert!(!session.accepts(&Event::Failed(0)));
    assert!(!session.accepts(&Event::Done));
    assert!(!session.accepts(&Event::Scalar(0)));
    assert!(!session.accepts(&Event::Text(String::new())));
    let action = session.advance(Event::Handle(64));
    assert!(matches!(action, Action::Invoke { step: Step::ConstructEngine, subject: 64, argument: 0 }));
    let action = session.advance(Event::Failed(128));
    assert!(matches!(action, Action::ReadErrorCode { error: 128 }));
    assert_eq!(session.phase(), Phase::ReadingCode);
    assert!(session.accepts(&Event::Text(String::new())));
    assert!(!session.accepts(&Event::Done));
    let action = session.advance(Event::Text("NoRoute".to_string()));
    assert!(matches!(action, Action::ReadErrorMessage { error: 128 }));
    assert_eq!(session.phase(), Phase::ReadingMessage);
    let action = session.advance(Event::Text("nothing".to_string()));
    assert!(matches!(action, Action::DestroyError { error: 128 }));
    assert_eq!(session.phase(), Phase::ReleasingError);
    assert!(session.accepts(&Event::Done));
    let action = session.advance(Event::Done);
    assert!(matches!(
        action,
        Action::Destroy { handle: Handle { kind: ResourceKind::Config, address: 64 } }
    ));
    assert_eq!(session.phase(), Phase::Unwinding);
    match session.advance(Event::Done) {
        Action::Finish(Err(error)) => assert_eq!(error.kind(), ErrorKind::NoRoute),
        other => panic!("not finished: {:?}", other),
    }
    assert_eq!(session.phase(), Phase::Finished);
    assert!(!session.accepts(&Event::Done));
}

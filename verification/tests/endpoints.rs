use flight_plan::config::get_connection_pool;
use flight_plan::endpoints;
use flight_plan::endpoints::{create_status, list_status, row_status};
use flight_plan::gate::{authenticate, AuthDecision};
use flight_plan::models::{FlightPlan, User};
use flight_plan::pool::Pool;
use flight_plan::repository::Repository;
use flight_plan::store::Store;

fn sample_body() -> FlightPlan {
    FlightPlan {
        flight_plan_id: String::new(),
        altitude: 8000,
        airspeed: 250,
        aircraft_identification: "N777XY".to_string(),
        aircraft_type: "PA28".to_string(),
        arrival_airport: "KSEA".to_string(),
        departing_airport: "KPDX".to_string(),
        flight_type: "VFR".to_string(),
        departure_time: "2024-07-04T09:00:00Z".to_string(),
        estimated_arrival_time: "2024-07-04T10:15:00Z".to_string(),
        route: "KPDX V23 KSEA".to_string(),
        remarks: "holiday trip".to_string(),
        fuel_hours: 3,
        fuel_minutes: 0,
        number_onboard: 2,
    }
}

fn alice() -> User {
    User {
        username: "alice".to_string(),
        fullname: "Alice A".to_string(),
        api_key: String::new(),
    }
}

#[test]
fn end_to_end_flight_plan_session() {
    let mut repo = Repository::new(Pool::new(4, true));

    let (status, key) = endpoints::new_user(&mut repo, alice());
    assert_eq!(status, 200);
    let key = key.unwrap();

    let header = format!("Bearer {}", key);
    assert!(matches!(
        authenticate(&mut repo, &header),
        AuthDecision::Admitted(_)
    ));

    let (status, body) = endpoints::get_all_flight_plans(&mut repo);
    assert_eq!(status, 204);
    assert!(body.is_none());

    let (status, created) = endpoints::create_flight_plan(&mut repo, &sample_body());
    assert_eq!(status, 200);
    let created = created.unwrap();
    assert!(!created.flight_plan_id.is_empty());

    let (status, fetched) = endpoints::get_flight_plan_by_id(&mut repo, &created.flight_plan_id);
    assert_eq!(status, 200);
    assert_eq!(fetched.unwrap(), created);

    assert_eq!(
        endpoints::delete_flight_plan_by_id(&mut repo, &created.flight_plan_id),
        200
    );
    assert_eq!(
        endpoints::delete_flight_plan_by_id(&mut repo, &created.flight_plan_id),
        404
    );
}

#[test]
fn new_user_maps_failures_to_500() {
    let mut repo = Repository::new(Pool::new(4, true));
    let (status, key) = endpoints::new_user(&mut repo, alice());
    assert_eq!(status, 200);
    assert!(key.is_some());

    let (status, key) = endpoints::new_user(&mut repo, alice());
    assert_eq!(status, 500);
    assert!(key.is_none());

    let nameless = User {
        username: String::new(),
        fullname: "Nameless".to_string(),
        api_key: String::new(),
    };
    let (status, key) = endpoints::new_user(&mut repo, nameless);
    assert_eq!(status, 500);
    assert!(key.is_none());
}

#[test]
fn list_answers_200_with_records_and_204_without() {
    let mut repo = Repository::new(Pool::new(4, true));
    let (status, body) = endpoints::get_all_flight_plans(&mut repo);
    assert_eq!(status, 204);
    assert!(body.is_none());

    let (_, created) = endpoints::create_flight_plan(&mut repo, &sample_body());
    let created = created.unwrap();
    let (status, body) = endpoints::get_all_flight_plans(&mut repo);
    assert_eq!(status, 200);
    assert_eq!(body.unwrap(), vec![created]);
}

#[test]
fn get_by_id_answers_404_when_absent() {
    let mut repo = Repository::new(Pool::new(4, true));
    let (status, body) = endpoints::get_flight_plan_by_id(&mut repo, &"absent".to_string());
    assert_eq!(status, 404);
    assert!(body.is_none());
}

#[test]
fn update_answers_404_200_and_500() {
    let mut repo = Repository::new(Pool::new(4, true));
    let ghostly = sample_body();
    assert_eq!(endpoints::update_flight_plan(&mut repo, &ghostly), 404);

    let (_, created) = endpoints::create_flight_plan(&mut repo, &sample_body());
    let mut changed = created.unwrap();
    changed.remarks = "amended".to_string();
    assert_eq!(endpoints::update_flight_plan(&mut repo, &changed), 200);

    let (_, fetched) = endpoints::get_flight_plan_by_id(&mut repo, &changed.flight_plan_id);
    assert_eq!(fetched.unwrap().remarks, "amended");

    let mut pool = Pool::new(1, true);
    let _held = pool.acquire().unwrap();
    let mut starved = Repository { pool, store: Store::new() };
    assert_eq!(endpoints::update_flight_plan(&mut starved, &changed), 500);
}

#[test]
fn get_endpoints_answer_500_when_pool_is_exhausted() {
    let mut pool = Pool::new(1, true);
    let _held = pool.acquire().unwrap();
    let mut starved = Repository { pool, store: Store::new() };
    let (status, body) = endpoints::get_all_flight_plans(&mut starved);
    assert_eq!(status, 500);
    assert!(body.is_none());
    let (status, body) = endpoints::get_flight_plan_by_id(&mut starved, &"any".to_string());
    assert_eq!(status, 500);
    assert!(body.is_none());
}

#[test]
fn delete_answers_500_when_pool_is_exhausted() {
    let mut pool = Pool::new(1, true);
    let _held = pool.acquire().unwrap();
    let mut starved = Repository { pool, store: Store::new() };
    assert_eq!(
        endpoints::delete_flight_plan_by_id(&mut starved, &"any".to_string()),
        500
    );
}

#[test]
fn status_mappers_follow_the_endpoint_table() {
    assert_eq!(create_status(true), 200);
    assert_eq!(create_status(false), 500);
    assert_eq!(list_status(Some(3)), 200);
    assert_eq!(list_status(Some(0)), 204);
    assert_eq!(list_status(None), 500);
    assert_eq!(row_status(Some(true)), 200);
    assert_eq!(row_status(Some(false)), 404);
    assert_eq!(row_status(None), 500);
}

#[test]
fn connection_pool_is_configured_from_the_connect_string() {
    let (spec, pool) = get_connection_pool(
        "postgres://db.example/flights".to_string(),
        "flight app",
        10,
    );
    assert_eq!(
        spec,
        "postgres://db.example/flights?application_name=flight app&sslmode=require"
    );
    assert_eq!(pool.max_connections, 10);
    assert!(pool.test_on_checkout);
    assert_eq!(pool.idle, 0);
    assert_eq!(pool.in_use, 0);
}

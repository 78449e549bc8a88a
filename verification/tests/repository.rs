use flight_plan::errors::DataError;
use flight_plan::models::{FlightPlan, User};
use flight_plan::pool::Pool;
use flight_plan::repository::Repository;
use flight_plan::store::{first_plan_row, first_user_row, Store};

fn sample_plan() -> FlightPlan {
    FlightPlan {
        flight_plan_id: String::new(),
        altitude: 12000,
        airspeed: 420,
        aircraft_identification: "N123AB".to_string(),
        aircraft_type: "C172".to_string(),
        arrival_airport: "KSFO".to_string(),
        departing_airport: "KLAX".to_string(),
        flight_type: "IFR".to_string(),
        departure_time: "2024-06-01T10:00:00Z".to_string(),
        estimated_arrival_time: "2024-06-01T12:30:00Z".to_string(),
        route: "KLAX SADDE6 KSFO".to_string(),
        remarks: "none".to_string(),
        fuel_hours: 4,
        fuel_minutes: 30,
        number_onboard: 3,
    }
}

fn fresh_repo(max_conn: u32) -> Repository {
    Repository::new(Pool::new(max_conn, true))
}

fn plan_with_id(id: &str) -> FlightPlan {
    let mut p = sample_plan();
    p.flight_plan_id = id.to_string();
    p
}

#[test]
fn create_user_then_lookup_returns_same_user() {
    let mut repo = fresh_repo(4);
    let user = User {
        username: "alice".to_string(),
        fullname: "Alice A".to_string(),
        api_key: String::new(),
    };
    let key = repo.create_user(user).unwrap();
    let found = repo.get_user(&key).unwrap().unwrap();
    assert_eq!(found.username, "alice");
    assert_eq!(found.fullname, "Alice A");
    assert_eq!(found.api_key, key);
}

#[test]
fn api_key_is_32_lowercase_hex() {
    let mut repo = fresh_repo(4);
    let user = User {
        username: "bob".to_string(),
        fullname: "Bob B".to_string(),
        api_key: String::new(),
    };
    let key = repo.create_user(user).unwrap();
    assert_eq!(key.len(), 32);
    assert!(key.chars().all(|c| c.is_ascii_digit() || ('a'..='f').contains(&c)));
}

#[test]
fn get_user_unknown_key_is_not_found() {
    let mut repo = fresh_repo(4);
    assert!(repo.get_user(&String::new()).unwrap().is_none());
    assert!(repo.get_user(&"never-issued".to_string()).unwrap().is_none());
    let user = User {
        username: "carol".to_string(),
        fullname: "Carol C".to_string(),
        api_key: String::new(),
    };
    let key = repo.create_user(user).unwrap();
    let wrong = format!("{}x", key);
    assert!(repo.get_user(&wrong).unwrap().is_none());
}

#[test]
fn create_user_empty_username_is_validation_failed() {
    let mut repo = fresh_repo(4);
    let user = User {
        username: String::new(),
        fullname: "Nameless".to_string(),
        api_key: String::new(),
    };
    let r = repo.create_user(user);
    assert!(matches!(r, Err(DataError::ValidationFailed)));
}

#[test]
fn create_user_duplicate_username_is_conflict() {
    let mut repo = fresh_repo(4);
    let mk = || User {
        username: "dave".to_string(),
        fullname: "Dave D".to_string(),
        api_key: String::new(),
    };
    repo.create_user(mk()).unwrap();
    let r = repo.create_user(mk());
    assert!(matches!(r, Err(DataError::Conflict)));
}

#[test]
fn create_flight_plan_assigns_fresh_id() {
    let mut repo = fresh_repo(4);
    let requested = plan_with_id("caller-chosen-id");
    let stored = repo.insert_flight_plan(&requested).unwrap();
    assert!(!stored.flight_plan_id.is_empty());
    assert_ne!(stored.flight_plan_id, "caller-chosen-id");
    assert_eq!(stored.flight_plan_id.len(), 32);
    let found = repo.get_flight_plan_by_id(&stored.flight_plan_id).unwrap().unwrap();
    assert_eq!(found, stored);
    assert_eq!(found.altitude, requested.altitude);
    assert_eq!(found.route, requested.route);
}

#[test]
fn update_flight_plan_missing_id_returns_false_and_changes_nothing() {
    let mut repo = fresh_repo(4);
    let seeded = repo.insert_flight_plan(&sample_plan()).unwrap();
    let stranger = plan_with_id("no-such-plan");
    assert_eq!(repo.update_flight_plan(&stranger), Ok(false));
    let all = repo.get_all_flight_plans().unwrap();
    assert_eq!(all, vec![seeded]);
}

#[test]
fn update_flight_plan_overwrites_every_field() {
    let mut repo = fresh_repo(4);
    let stored = repo.insert_flight_plan(&sample_plan()).unwrap();
    let mut changed = stored.clone();
    changed.altitude = 9000;
    changed.airspeed = 380;
    changed.route = "KLAX DIRECT KSFO".to_string();
    changed.remarks = "rerouted".to_string();
    assert_eq!(repo.update_flight_plan(&changed), Ok(true));
    let found = repo.get_flight_plan_by_id(&stored.flight_plan_id).unwrap().unwrap();
    assert_eq!(found, changed);
}

#[test]
fn delete_flight_plan_twice_first_true_then_false() {
    let mut repo = fresh_repo(4);
    let stored = repo.insert_flight_plan(&sample_plan()).unwrap();
    assert_eq!(repo.delete_flight_plan(&stored.flight_plan_id), Ok(true));
    assert!(repo.get_flight_plan_by_id(&stored.flight_plan_id).unwrap().is_none());
    assert_eq!(repo.delete_flight_plan(&stored.flight_plan_id), Ok(false));
}

#[test]
fn operations_fail_fast_when_pool_is_exhausted() {
    let mut pool = Pool::new(1, true);
    let _held = pool.acquire().unwrap();
    let mut repo = Repository { pool, store: Store::new() };
    assert!(matches!(repo.get_user(&"k".to_string()), Err(DataError::PoolExhausted)));
    assert!(matches!(repo.get_all_flight_plans(), Err(DataError::PoolExhausted)));
    assert!(matches!(
        repo.insert_flight_plan(&sample_plan()),
        Err(DataError::PoolExhausted)
    ));
    assert!(matches!(
        repo.update_flight_plan(&plan_with_id("x")),
        Err(DataError::PoolExhausted)
    ));
    assert!(matches!(
        repo.delete_flight_plan(&"x".to_string()),
        Err(DataError::PoolExhausted)
    ));
    let user = User {
        username: "erin".to_string(),
        fullname: "Erin E".to_string(),
        api_key: String::new(),
    };
    assert!(matches!(repo.create_user(user), Err(DataError::PoolExhausted)));
}

#[test]
fn pool_counts_never_exceed_maximum() {
    let mut pool = Pool::new(2, true);
    let c1 = pool.acquire().unwrap();
    assert_eq!(pool.in_use, 1);
    let c2 = pool.acquire().unwrap();
    assert_eq!(pool.in_use, 2);
    assert!(matches!(pool.acquire(), Err(DataError::PoolExhausted)));
    assert_eq!(pool.in_use, 2);
    pool.release(c1);
    assert_eq!(pool.in_use, 1);
    assert_eq!(pool.idle, 1);
    let c3 = pool.acquire().unwrap();
    assert_eq!(pool.in_use, 2);
    assert_eq!(pool.idle, 0);
    pool.release(c2);
    pool.release(c3);
    assert_eq!(pool.in_use, 0);
    assert_eq!(pool.idle, 2);
    assert!(pool.idle + pool.in_use <= pool.max_connections);
}

#[test]
fn repository_reuses_released_connections() {
    let mut repo = fresh_repo(1);
    for _ in 0..5 {
        assert!(repo.get_all_flight_plans().is_ok());
    }
    assert_eq!(repo.pool.in_use, 0);
    assert_eq!(repo.pool.idle, 1);
}

#[test]
fn first_row_of_a_fetched_set_is_the_record() {
    assert!(first_user_row(Vec::new()).is_none());
    let ada = User {
        username: "ada".to_string(),
        fullname: "Ada A".to_string(),
        api_key: "k1".to_string(),
    };
    let ben = User {
        username: "ben".to_string(),
        fullname: "Ben B".to_string(),
        api_key: "k2".to_string(),
    };
    assert_eq!(first_user_row(vec![ada.clone(), ben]).unwrap(), ada);
    assert!(first_plan_row(Vec::new()).is_none());
    let plan = plan_with_id("p1");
    assert_eq!(first_plan_row(vec![plan.clone()]).unwrap(), plan);
}

#[test]
fn test_database_get_all_flights() {
    let mut repo = fresh_repo(1);
    for _ in 0..100 {
        let x = repo.get_all_flight_plans();
        match x {
            Ok(res) => println!("Test Ok ({})", res.len()),
            _ => panic!("Test KO"),
        }
    }
}

#[test]
fn test_database_get_no_flight() {
    let mut repo = fresh_repo(1);
    for _ in 0..100 {
        let x = repo.get_flight_plan_by_id(&"unknown-flight".to_string());
        match x {
            Ok(None) => println!("Test Ok (no flight)"),
            _ => panic!("Test KO"),
        }
    }
}

#[test]
fn test_database_get_one_flight() {
    let known = plan_with_id("c20a768f3f464844a2cf8f4379247ff1");
    let mut repo = Repository {
        pool: Pool::new(1, true),
        store: Store { users: Vec::new(), plans: vec![known] },
    };
    for _ in 0..100 {
        let x = repo.get_flight_plan_by_id(&"c20a768f3f464844a2cf8f4379247ff1".to_string());
        match x {
            Ok(flight) => println!("Test Ok ({} found)", flight.unwrap().flight_plan_id),
            _ => panic!("Test KO"),
        }
    }
}

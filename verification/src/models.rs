//! The two persisted entity types and their mathematical views.

use vstd::prelude::*;

verus! {

/// Abstract value of a persisted user record: every field as a sequence of
/// characters, as the contracts speak of it.
pub ghost struct UserV {
    pub username: Seq<char>,
    pub fullname: Seq<char>,
    pub api_key: Seq<char>,
}

/// A user record. `username` is the identity key, `api_key` the opaque
/// bearer credential that the server assigns at creation time.
#[derive(Debug, Clone, PartialEq)]
pub struct User {
    pub username: String,
    pub fullname: String,
    pub api_key: String,
}

impl View for User {
    type V = UserV;

    open spec fn view(&self) -> UserV {
        UserV {
            username: self.username@,
            fullname: self.fullname@,
            api_key: self.api_key@,
        }
    }
}

impl User {
    /// An owned copy whose view equals this record's view.
    pub fn duplicate(&self) -> (r: User)
        ensures
            r@ == self@,
    {
        User {
            username: self.username.clone(),
            fullname: self.fullname.clone(),
            api_key: self.api_key.clone(),
        }
    }
}

/// Abstract value of a flight-plan record.
pub ghost struct FlightPlanV {
    pub flight_plan_id: Seq<char>,
    pub altitude: int,
    pub airspeed: int,
    pub aircraft_identification: Seq<char>,
    pub aircraft_type: Seq<char>,
    pub arrival_airport: Seq<char>,
    pub departing_airport: Seq<char>,
    pub flight_type: Seq<char>,
    pub departure_time: Seq<char>,
    pub estimated_arrival_time: Seq<char>,
    pub route: Seq<char>,
    pub remarks: Seq<char>,
    pub fuel_hours: int,
    pub fuel_minutes: int,
    pub number_onboard: int,
}

/// A flight-plan record. `flight_plan_id` is assigned by the repository at
/// creation time, never by the caller, and is stable across updates.
#[derive(Debug, Clone, PartialEq)]
pub struct FlightPlan {
    pub flight_plan_id: String,
    pub altitude: i32,
    pub airspeed: i32,
    pub aircraft_identification: String,
    pub aircraft_type: String,
    pub arrival_airport: String,
    pub departing_airport: String,
    pub flight_type: String,
    pub departure_time: String,
    pub estimated_arrival_time: String,
    pub route: String,
    pub remarks: String,
    pub fuel_hours: i32,
    pub fuel_minutes: i32,
    pub number_onboard: i32,
}

impl View for FlightPlan {
    type V = FlightPlanV;

    open spec fn view(&self) -> FlightPlanV {
        FlightPlanV {
            flight_plan_id: self.flight_plan_id@,
            altitude: self.altitude as int,
            airspeed: self.airspeed as int,
            aircraft_identification: self.aircraft_identification@,
            aircraft_type: self.aircraft_type@,
            arrival_airport: self.arrival_airport@,
            departing_airport: self.departing_airport@,
            flight_type: self.flight_type@,
            departure_time: self.departure_time@,
            estimated_arrival_time: self.estimated_arrival_time@,
            route: self.route@,
            remarks: self.remarks@,
            fuel_hours: self.fuel_hours as int,
            fuel_minutes: self.fuel_minutes as int,
            number_onboard: self.number_onboard as int,
        }
    }
}

/// The abstract record `p` with its identifier replaced by `id` and every
/// descriptive field kept.
pub open spec fn plan_with_new_id(p: FlightPlanV, id: Seq<char>) -> FlightPlanV {
    FlightPlanV {
        flight_plan_id: id,
        altitude: p.altitude,
        airspeed: p.airspeed,
        aircraft_identification: p.aircraft_identification,
        aircraft_type: p.aircraft_type,
        arrival_airport: p.arrival_airport,
        departing_airport: p.departing_airport,
        flight_type: p.flight_type,
        departure_time: p.departure_time,
        estimated_arrival_time: p.estimated_arrival_time,
        route: p.route,
        remarks: p.remarks,
        fuel_hours: p.fuel_hours,
        fuel_minutes: p.fuel_minutes,
        number_onboard: p.number_onboard,
    }
}

impl FlightPlan {
    /// An owned copy whose view equals this record's view.
    pub fn duplicate(&self) -> (r: FlightPlan)
        ensures
            r@ == self@,
    {
        FlightPlan {
            flight_plan_id: self.flight_plan_id.clone(),
            altitude: self.altitude,
            airspeed: self.airspeed,
            aircraft_identification: self.aircraft_identification.clone(),
            aircraft_type: self.aircraft_type.clone(),
            arrival_airport: self.arrival_airport.clone(),
            departing_airport: self.departing_airport.clone(),
            flight_type: self.flight_type.clone(),
            departure_time: self.departure_time.clone(),
            estimated_arrival_time: self.estimated_arrival_time.clone(),
            route: self.route.clone(),
            remarks: self.remarks.clone(),
            fuel_hours: self.fuel_hours,
            fuel_minutes: self.fuel_minutes,
            number_onboard: self.number_onboard,
        }
    }

    /// An owned copy that carries `id` as its identifier and this record's
    /// descriptive fields.
    pub fn with_id(&self, id: String) -> (r: FlightPlan)
        ensures
            r@ == plan_with_new_id(self@, id@),
    {
        FlightPlan {
            flight_plan_id: id,
            altitude: self.altitude,
            airspeed: self.airspeed,
            aircraft_identification: self.aircraft_identification.clone(),
            aircraft_type: self.aircraft_type.clone(),
            arrival_airport: self.arrival_airport.clone(),
            departing_airport: self.departing_airport.clone(),
            flight_type: self.flight_type.clone(),
            departure_time: self.departure_time.clone(),
            estimated_arrival_time: self.estimated_arrival_time.clone(),
            route: self.route.clone(),
            remarks: self.remarks.clone(),
            fuel_hours: self.fuel_hours,
            fuel_minutes: self.fuel_minutes,
            number_onboard: self.number_onboard,
        }
    }
}

} // verus!

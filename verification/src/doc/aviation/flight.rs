//! A single flight.
use vstd::prelude::*;

verus! {

/// The id of the flight document.
pub const DOC_ID: &'static str = "flight";

/// A booked flight. `id` holds the 128 bits of the flight's UUID.
pub struct Flight {
    pub id: u128,
    pub departure_airport: String,
    pub arrival_airport: String,
    pub departure_local_time: String,
    pub arrival_local_time: String,
    pub airline: String,
    pub aircraft: String,
    pub flight_number: String,
    pub booking_reference: String,
}

} // verus!

//! What the user asks for: the place, the time window and the level of detail.

use vstd::prelude::*;

verus! {

/// The time window of a forecast.
#[derive(Copy, Clone, PartialEq, Eq, PartialOrd, Ord, Debug, Structural)]
pub enum DurationType {
    /// The entry nearest to the current time.
    Now,
    /// The entries of the current day.
    Today,
    /// The entries of the next day.
    Tomorrow,
    /// The entries of the current day and the seven days after it.
    Week,
}

/// A part of an address that a place can be looked up by.
#[derive(Debug)]
pub enum LocationInfo {
    Amenity(String),
    Street(String),
    City(String),
    Country(String),
    State(String),
    PostalCode(String),
}

/// How much of a forecast is shown.
#[derive(Copy, Clone, PartialEq, Eq, PartialOrd, Ord, Debug, Structural)]
pub enum OutputMode {
    /// One line per forecast entry.
    Compact,
    /// Kept for a fuller forecast; shows an empty text.
    Detailed,
    /// Kept for the full forecast; shows an empty text.
    Complete,
}

/// The arguments of one run of the program.
#[derive(Debug)]
pub struct WeatherArgs {
    /// Location of the forecast.
    pub location: String,
    /// Duration of the forecast.
    pub duration: Option<DurationType>,
    /// Output format of the forecast.
    pub output_mode: Option<OutputMode>,
}

} // verus!

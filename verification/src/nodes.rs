//! The probe nodes that the service reports as available.

use vstd::prelude::*;

verus! {

/// The nodes available, country by country.
#[derive(Debug, Default)]
pub struct AvailableNodes {
    /// The number of all nodes.
    pub total: i64,
    /// The count of each country.
    pub results: Vec<Result>,
}

/// The number of nodes in one country, as the service writes it.
#[derive(Debug, Default)]
pub struct Result {
    pub countrycode: String,
    pub count: String,
}

} // verus!

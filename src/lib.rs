//! Dates of Easter Sunday under the Gregorian and the Julian reckoning.
//!
//! Both calculators are pure integer arithmetic on the year. Their contracts
//! pin the result to spec functions that follow the ecclesiastical rules step
//! by step; the module `laws` proves what holds of those results over the
//! years 1900 to 2099.
pub mod truncated;
pub mod gregorian;
pub mod julian;
pub mod laws;

pub use gregorian::gregorian_easter;
pub use julian::julian_easter;

//! The program's persistent record schemas.

pub mod contributor;
pub mod fundraiser;

pub use contributor::Contributor;
pub use fundraiser::Fundraiser;

pub mod relationships;
pub mod servers;
pub mod users;
pub mod validation;

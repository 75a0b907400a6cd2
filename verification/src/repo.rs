pub mod filters;
pub mod status;

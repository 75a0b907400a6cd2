pub mod api;
pub mod pr;

pub mod enums;
pub mod exchange;
pub mod exchange_laws;
pub mod service_config;
pub mod signal;
pub mod sizing;
pub mod sm_calls;
pub mod sm_handler;
pub mod sm_laws;
pub mod sm_model;
pub mod sm_world;
pub mod round_trip;
pub mod system;
pub mod turn_taking;

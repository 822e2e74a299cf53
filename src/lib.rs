pub mod agent;
pub mod balatro;
pub mod net;

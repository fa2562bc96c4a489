pub mod model;
pub mod board;
pub mod codec;
pub mod engine;
pub mod session;

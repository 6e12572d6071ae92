pub mod book;
pub mod errors;
pub mod market;
pub mod math;
pub mod oracle;
pub mod position;
pub mod state;

pub mod compile;
pub mod error;
pub mod process;
pub mod schema;
pub mod storage;
pub mod utilities;

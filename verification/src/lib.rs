pub mod entity;
pub mod query;
pub mod storage;

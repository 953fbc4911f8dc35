pub mod database;
pub mod events;
pub mod paystubs;
pub mod storage;

pub mod stat_helper;
pub mod stats;
pub mod storage_handler;

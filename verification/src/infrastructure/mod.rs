pub mod clickhouse;
pub mod consumer;

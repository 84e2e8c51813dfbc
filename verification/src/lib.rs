pub mod text;
pub mod processing_message;
pub mod slippy_tiles;
pub mod azure_storage;
pub mod http_retry;
pub mod commands;
pub mod config;
pub mod hdf;
pub mod science;
pub mod render;
pub mod db;
pub mod manifest;
pub mod publish;
pub mod storage;
pub mod retention;
pub mod worker;
pub mod processing;
pub mod mosaic;
pub mod generate;
pub mod ui;
pub mod observability;

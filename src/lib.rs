//! A verified model of an Octo/Quad-SPI memory bus driver: transaction
//! validation, command register encoding, and the per-transaction state
//! machine shared by the polled, DMA-blocking and asynchronous strategies.
pub mod config;
pub mod error;
pub mod validate;
pub mod encode;
pub mod driver;

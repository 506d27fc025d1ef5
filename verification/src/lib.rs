pub mod builder;
pub mod chain;
pub mod channel;
pub mod config;
pub mod connection;
pub mod error;
pub mod event;
pub mod handshake;
pub mod height;
pub mod ics04;
pub mod identifier;
pub mod msgs;
pub mod proofs;
pub mod relay;

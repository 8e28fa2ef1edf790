//! Core logic of a config-driven reverse-proxy gateway for blockchain
//! networks: chain/network/protocol route resolution, REST URL composition,
//! the API-key lifecycle (issuance, validity, expiry sweep), signed
//! registration checking, and the error taxonomy.

pub mod authgate;
pub mod decimal;
pub mod error;
pub mod info;
pub mod keys;
pub mod rest;
pub mod router;
pub mod settings;
pub mod signature;

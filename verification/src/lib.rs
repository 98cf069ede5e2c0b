//! Core logic of a driver for Lightning Network nodes (LND over REST or gRPC,
//! and Core Lightning over its REST plugin), together with the decisions of the
//! small HTTP API that fronts it.

pub mod text;
pub mod json;
pub mod hex_codec;
pub mod model;
pub mod cln;
pub mod lnd_rest;
pub mod lnd_grpc;
pub mod config;
pub mod factory;
pub mod auth;
pub mod api;
pub mod config_edit;

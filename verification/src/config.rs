//! Settings that choose and describe the node to drive.

use vstd::prelude::*;

verus! {

/// Which backend drives the node: `lnd-grpc`, `lnd-rest` or `cln`.
#[derive(Debug, Clone, PartialEq, Eq)]
pub struct NodeConfig {
    pub node_type: String,
}

/// Settings of the LND gRPC backend; the certificate may be left blank.
#[derive(Debug, Clone, PartialEq, Eq)]
pub struct LndGrpcConfig {
    pub host: String,
    pub macaroon_hex: String,
    pub cert_hex: String,
}

/// Settings of the LND REST backend; the certificate is a path to a PEM file.
#[derive(Debug, Clone, PartialEq, Eq)]
pub struct LndRestConfig {
    pub host: String,
    pub macaroon_hex: String,
    pub cert_path: String,
}

/// Settings of the Core Lightning backend.
#[derive(Debug, Clone, PartialEq, Eq)]
pub struct ClnConfig {
    pub host: String,
}

/// All settings: the backend to use and the settings of each backend that
/// is configured.
#[derive(Debug, Clone, PartialEq, Eq)]
pub struct Settings {
    pub node: NodeConfig,
    pub lnd_grpc: Option<LndGrpcConfig>,
    pub lnd_rest: Option<LndRestConfig>,
    pub cln: Option<ClnConfig>,
}

} // verus!

//! Choosing and preparing the backend that the settings ask for.

use vstd::prelude::*;
use crate::cln::ClnClient;
use crate::config::Settings;
use crate::lnd_grpc::{lnd_grpc_endpoint, LndGrpcEndpoint};
use crate::lnd_rest::{lnd_rest_setup, LndRestClient};
use crate::model::DriverError;
use crate::text::{str_equal, trim_trailing_slashes};

verus! {

/// The kinds of backend.
#[derive(Debug, Clone, Copy, PartialEq, Eq, Structural)]
pub enum BackendKind {
    LndGrpc,
    LndRest,
    Cln,
}

/// Why the settings name no usable backend.
#[derive(Debug, Clone, Copy, PartialEq, Eq, Structural)]
pub enum ConfigError {
    /// `lnd-grpc` is chosen but its settings are absent.
    LndGrpcConfigMissing,
    /// `lnd-rest` is chosen but its settings are absent.
    LndRestConfigMissing,
    /// `cln` is chosen but its settings are absent.
    ClnConfigMissing,
    /// The node type is none of the known backends.
    UnsupportedNodeType,
}

/// A backend ready to be connected.
#[derive(Debug, Clone, PartialEq, Eq)]
pub enum DriverSetup {
    LndGrpc(LndGrpcEndpoint),
    LndRest(LndRestClient),
    Cln(ClnClient),
}

/// Why no backend could be prepared.
#[derive(Debug, Clone, PartialEq, Eq)]
pub enum FactoryError {
    Config(ConfigError),
    Driver(DriverError),
}

/// The backend that the settings choose, or why they choose none.
pub open spec fn selected_backend(s: Settings) -> Result<BackendKind, ConfigError> {
    if s.node.node_type@ == "lnd-grpc"@ {
        if s.lnd_grpc is Some {
            Ok(BackendKind::LndGrpc)
        } else {
            Err(ConfigError::LndGrpcConfigMissing)
        }
    } else if s.node.node_type@ == "lnd-rest"@ {
        if s.lnd_rest is Some {
            Ok(BackendKind::LndRest)
        } else {
            Err(ConfigError::LndRestConfigMissing)
        }
    } else if s.node.node_type@ == "cln"@ {
        if s.cln is Some {
            Ok(BackendKind::Cln)
        } else {
            Err(ConfigError::ClnConfigMissing)
        }
    } else {
        Err(ConfigError::UnsupportedNodeType)
    }
}

/// The kind of backend that `settings` choose, or why they choose none.
pub fn select_backend(settings: &Settings) -> (res: Result<BackendKind, ConfigError>)
    ensures
        res == selected_backend(*settings),
{
    let t = settings.node.node_type.as_str();
    if str_equal(t, "lnd-grpc") {
        if settings.lnd_grpc.is_some() {
            Ok(BackendKind::LndGrpc)
        } else {
            Err(ConfigError::LndGrpcConfigMissing)
        }
    } else if str_equal(t, "lnd-rest") {
        if settings.lnd_rest.is_some() {
            Ok(BackendKind::LndRest)
        } else {
            Err(ConfigError::LndRestConfigMissing)
        }
    } else if str_equal(t, "cln") {
        if settings.cln.is_some() {
            Ok(BackendKind::Cln)
        } else {
            Err(ConfigError::ClnConfigMissing)
        }
    } else {
        Err(ConfigError::UnsupportedNodeType)
    }
}

/// Prepares the backend that `settings` choose: the client of the chosen
/// kind, built from that kind's settings.
pub fn prepare_driver(settings: &Settings) -> (res: Result<DriverSetup, FactoryError>)
    ensures
        forall|e: ConfigError|
            selected_backend(*settings) == Err::<BackendKind, ConfigError>(e) <==> res == Err::<
                DriverSetup,
                FactoryError,
            >(FactoryError::Config(e)),
        selected_backend(*settings) == Ok::<BackendKind, ConfigError>(BackendKind::Cln) ==> (res matches Ok(
            DriverSetup::Cln(c),
        ) && c.base_url() == trim_trailing_slashes(settings.cln.unwrap().host@)),
        selected_backend(*settings) == Ok::<BackendKind, ConfigError>(BackendKind::LndRest) ==> ({
            let r = settings.lnd_rest.unwrap();
            match lnd_rest_setup(r.host@, r.macaroon_hex@, r.cert_path@) {
                Ok(t) => res matches Ok(DriverSetup::LndRest(c)) && t == (
                    c.base_url(),
                    c.macaroon_hex(),
                    c.cert_file(),
                ),
                Err(e) => res matches Err(FactoryError::Driver(d)) && d@ == e,
            }
        }),
        selected_backend(*settings) == Ok::<BackendKind, ConfigError>(BackendKind::LndGrpc) ==> ({
            let g = settings.lnd_grpc.unwrap();
            match lnd_grpc_endpoint(g.cert_hex@, g.macaroon_hex@, g.host@) {
                Ok(t) => res matches Ok(DriverSetup::LndGrpc(ep)) && t == (
                    ep.cert@,
                    ep.macaroon@,
                    ep.addr@,
                ),
                Err(e) => res matches Err(FactoryError::Driver(d)) && d@ == e,
            }
        }),
{
    match select_backend(settings) {
        Err(e) => Err(FactoryError::Config(e)),
        Ok(BackendKind::Cln) => match &settings.cln {
            Some(c) => Ok(DriverSetup::Cln(ClnClient::new(c.host.as_str()))),
            None => Err(FactoryError::Config(ConfigError::ClnConfigMissing)),
        },
        Ok(BackendKind::LndRest) => match &settings.lnd_rest {
            Some(r) => match LndRestClient::new(
                r.host.as_str(),
                r.macaroon_hex.as_str(),
                r.cert_path.as_str(),
            ) {
                Ok(c) => Ok(DriverSetup::LndRest(c)),
                Err(e) => Err(FactoryError::Driver(e)),
            },
            None => Err(FactoryError::Config(ConfigError::LndRestConfigMissing)),
        },
        Ok(BackendKind::LndGrpc) => match &settings.lnd_grpc {
            Some(g) => match LndGrpcEndpoint::new(
                g.cert_hex.as_str(),
                g.macaroon_hex.as_str(),
                g.host.as_str(),
            ) {
                Ok(ep) => Ok(DriverSetup::LndGrpc(ep)),
                Err(e) => Err(FactoryError::Driver(e)),
            },
            None => Err(FactoryError::Config(ConfigError::LndGrpcConfigMissing)),
        },
    }
}

proof fn lemma_node_type_names_differ()
    ensures
        "lnd-grpc"@ != "lnd-rest"@,
        "lnd-grpc"@ != "cln"@,
        "lnd-rest"@ != "cln"@,
{
    reveal_strlit("lnd-grpc");
    reveal_strlit("lnd-rest");
    reveal_strlit("cln");
    assert("lnd-grpc"@[4] != "lnd-rest"@[4]);
    assert("lnd-grpc"@.len() != "cln"@.len());
    assert("lnd-rest"@.len() != "cln"@.len());
}

/// The settings choose the backend that `node.type` names, and only that
/// one: `lnd-grpc`, `lnd-rest` and `cln` each select their own kind when
/// their own section is present and report that section missing otherwise,
/// whatever the other sections hold; any other node type is unsupported.
pub proof fn law_backend_follows_node_type(s: Settings)
    ensures
        s.node.node_type@ == "lnd-grpc"@ ==> (s.lnd_grpc is Some ==> selected_backend(s) == Ok::<
            BackendKind,
            ConfigError,
        >(BackendKind::LndGrpc)) && (s.lnd_grpc is None ==> selected_backend(s) == Err::<
            BackendKind,
            ConfigError,
        >(ConfigError::LndGrpcConfigMissing)),
        s.node.node_type@ == "lnd-rest"@ ==> (s.lnd_rest is Some ==> selected_backend(s) == Ok::<
            BackendKind,
            ConfigError,
        >(BackendKind::LndRest)) && (s.lnd_rest is None ==> selected_backend(s) == Err::<
            BackendKind,
            ConfigError,
        >(ConfigError::LndRestConfigMissing)),
        s.node.node_type@ == "cln"@ ==> (s.cln is Some ==> selected_backend(s) == Ok::<
            BackendKind,
            ConfigError,
        >(BackendKind::Cln)) && (s.cln is None ==> selected_backend(s) == Err::<
            BackendKind,
            ConfigError,
        >(ConfigError::ClnConfigMissing)),
        (s.node.node_type@ != "lnd-grpc"@ && s.node.node_type@ != "lnd-rest"@ && s.node.node_type@
            != "cln"@) ==> selected_backend(s) == Err::<BackendKind, ConfigError>(
            ConfigError::UnsupportedNodeType,
        ),
{
    lemma_node_type_names_differ();
}

/// Two settings with the same node type and the same chosen section give
/// the same choice, however their other sections differ.
pub proof fn law_backend_ignores_other_sections(s1: Settings, s2: Settings)
    requires
        s1.node.node_type@ == s2.node.node_type@,
        s1.node.node_type@ == "lnd-grpc"@ ==> s1.lnd_grpc is Some == s2.lnd_grpc is Some,
        s1.node.node_type@ == "lnd-rest"@ ==> s1.lnd_rest is Some == s2.lnd_rest is Some,
        s1.node.node_type@ == "cln"@ ==> s1.cln is Some == s2.cln is Some,
    ensures
        selected_backend(s1) == selected_backend(s2),
{
    lemma_node_type_names_differ();
}

/// A chosen backend is the one that the node type names, and its section is
/// present.
pub proof fn law_selected_backend_is_named(s: Settings)
    ensures
        selected_backend(s) == Ok::<BackendKind, ConfigError>(BackendKind::LndGrpc) ==> (
        s.node.node_type@ == "lnd-grpc"@ && s.lnd_grpc is Some),
        selected_backend(s) == Ok::<BackendKind, ConfigError>(BackendKind::LndRest) ==> (
        s.node.node_type@ == "lnd-rest"@ && s.lnd_rest is Some),
        selected_backend(s) == Ok::<BackendKind, ConfigError>(BackendKind::Cln) ==> (
        s.node.node_type@ == "cln"@ && s.cln is Some),
{
    lemma_node_type_names_differ();
}

} // verus!

use lightning_client::config_edit::with_password_hash;
use lightning_client::api::{
    check_session_key, cookie_secure, load_session_key, new_session_key, default_host, default_port, effective_port, info_reply,
    invoice_reply, login_reply, logout_reply, require_login, ApiConfig, ReplyBody, ReplyStatus,
    SessionFlag, SessionKeyError,
};
use lightning_client::auth::{check_login, hash_api_password, LoginOutcome};
use lightning_client::config::{ClnConfig, LndGrpcConfig, LndRestConfig, NodeConfig, Settings};
use lightning_client::factory::{prepare_driver, select_backend, BackendKind, ConfigError, DriverSetup, FactoryError};
use lightning_client::model::{DriverError, NodeInfo};

fn settings(kind: &str) -> Settings {
    Settings {
        node: NodeConfig { node_type: kind.to_string() },
        lnd_grpc: None,
        lnd_rest: None,
        cln: None,
    }
}

#[test]
fn backend_selection() {
    assert_eq!(select_backend(&settings("cln")), Err(ConfigError::ClnConfigMissing));
    assert_eq!(select_backend(&settings("lnd-rest")), Err(ConfigError::LndRestConfigMissing));
    assert_eq!(select_backend(&settings("lnd-grpc")), Err(ConfigError::LndGrpcConfigMissing));
    assert_eq!(select_backend(&settings("eclair")), Err(ConfigError::UnsupportedNodeType));
    let mut s = settings("cln");
    s.cln = Some(ClnConfig { host: "http://c/".into() });
    s.lnd_rest = Some(LndRestConfig { host: "h".into(), macaroon_hex: "00".into(), cert_path: "/c".into() });
    assert_eq!(select_backend(&s), Ok(BackendKind::Cln));
    match prepare_driver(&s) {
        Ok(DriverSetup::Cln(c)) => assert_eq!(c.get_info_request().url, "http://c/v1/getinfo"),
        other => panic!("unexpected {:?}", other),
    }
}

#[test]
fn backend_preparation_errors() {
    let mut s = settings("lnd-rest");
    s.lnd_rest = Some(LndRestConfig { host: "h".into(), macaroon_hex: "00".into(), cert_path: " ".into() });
    assert_eq!(prepare_driver(&s), Err(FactoryError::Driver(DriverError::CertPathRequired)));
    let mut s = settings("lnd-grpc");
    s.lnd_grpc = Some(LndGrpcConfig { host: "n:1".into(), macaroon_hex: "0".into(), cert_hex: String::new() });
    assert!(matches!(prepare_driver(&s), Err(FactoryError::Driver(DriverError::InvalidMacaroonHex(_)))));
    s.lnd_grpc = Some(LndGrpcConfig { host: "n:1".into(), macaroon_hex: "00".into(), cert_hex: String::new() });
    match prepare_driver(&s) {
        Ok(DriverSetup::LndGrpc(e)) => assert_eq!(e.addr, "n:1"),
        other => panic!("unexpected {:?}", other),
    }
    assert_eq!(prepare_driver(&settings("x")), Err(FactoryError::Config(ConfigError::UnsupportedNodeType)));
}

#[test]
fn api_defaults() {
    assert_eq!(default_host(), "127.0.0.1");
    assert_eq!(default_port(), 8080);
    let f = ApiConfig::fallback();
    assert_eq!(f, ApiConfig { password_hash: String::new(), host: "127.0.0.1".into(), port: 8080 });
    assert!(f.is_open());
}

#[test]
fn port_from_environment() {
    assert_eq!(effective_port(Some("9000"), 8080), 9000);
    assert_eq!(effective_port(Some("nine"), 8080), 8080);
    assert_eq!(effective_port(Some("70000"), 8080), 8080);
    assert_eq!(effective_port(None, 8081), 8081);
}

#[test]
fn secure_cookies_off_the_loopback() {
    assert!(!cookie_secure("127.0.0.1"));
    assert!(!cookie_secure("localhost"));
    assert!(cookie_secure("0.0.0.0"));
    assert!(cookie_secure("::1"));
}

#[test]
fn session_key_length() {
    assert_eq!(check_session_key(&[0u8; 64]), Ok(()));
    assert_eq!(check_session_key(&[0u8; 32]), Err(SessionKeyError::WrongLength));
    assert_eq!(check_session_key(&[0u8; 65]), Err(SessionKeyError::WrongLength));
    assert_eq!(check_session_key(&[]), Err(SessionKeyError::WrongLength));
    assert!(load_session_key(&[7u8; 63]).is_err());
    assert!(load_session_key(&[7u8; 64]).is_ok());
}

#[test]
fn generated_session_key_is_loaded_back() {
    let (k1, a) = new_session_key();
    let (_, b) = new_session_key();
    assert_eq!(a.len(), 64);
    assert_eq!(k1.master(), a.as_slice());
    assert_ne!(a, b);
    let key = load_session_key(&a).unwrap();
    assert_eq!(key.master(), a.as_slice());
    let long: Vec<u8> = (0u8..70).collect();
    assert!(load_session_key(&long).is_err());
    let exact: Vec<u8> = (0u8..64).collect();
    assert_eq!(load_session_key(&exact).unwrap().master(), exact.as_slice());
}

#[test]
fn protected_routes_need_login() {
    assert!(require_login(SessionFlag::Stored(true)).is_none());
    for flag in [SessionFlag::Absent, SessionFlag::Stored(false), SessionFlag::Unreadable] {
        let r = require_login(flag).unwrap();
        assert_eq!(r.status, ReplyStatus::Unauthorized);
        assert_eq!(r.body, ReplyBody::Error("login required".into()));
    }
}

#[test]
fn login_and_logout_replies() {
    let (r, flag) = login_reply(LoginOutcome::Accepted);
    assert_eq!((r.status, r.body), (ReplyStatus::Success, ReplyBody::Status("success".into())));
    assert_eq!(flag, Some(SessionFlag::Stored(true)));
    assert!(require_login(flag.unwrap()).is_none());
    let (r, flag) = login_reply(LoginOutcome::Rejected);
    assert_eq!((r.status, r.body), (ReplyStatus::Unauthorized, ReplyBody::Error("invalid password".into())));
    assert_eq!(flag, None);
    let (r, flag) = login_reply(LoginOutcome::HashInvalid);
    assert_eq!((r.status, r.body), (ReplyStatus::InternalServerError, ReplyBody::Empty));
    assert_eq!(flag, None);
    let r = logout_reply();
    assert_eq!((r.status, r.body), (ReplyStatus::Success, ReplyBody::Status("logged out".into())));
}

#[test]
fn route_replies() {
    let info = NodeInfo { alias: "a".into(), identity_pubkey: "k".into() };
    assert_eq!(info_reply(Ok(info.clone())).body, ReplyBody::Info(info));
    assert_eq!(info_reply(Err("down".into())).status, ReplyStatus::InternalServerError);
    assert_eq!(invoice_reply(Ok("lnbc".into())).body, ReplyBody::Invoice("lnbc".into()));
    assert_eq!(invoice_reply(Err("x".into())).body, ReplyBody::Text("x".into()));
}

#[test]
fn password_set_then_login() {
    let hash = hash_api_password("hunter2").unwrap();
    assert!(hash.starts_with("$argon2id$"));
    assert_ne!(hash, "hunter2");
    assert_eq!(check_login(&hash, "hunter2"), LoginOutcome::Accepted);
    assert_eq!(check_login(&hash, "hunter3"), LoginOutcome::Rejected);
    assert_eq!(check_login("not a phc string", "hunter2"), LoginOutcome::HashInvalid);
    assert_eq!(check_login("", "hunter2"), LoginOutcome::Accepted);
    assert_eq!(check_login("", ""), LoginOutcome::Accepted);
}

#[test]
fn password_hash_goes_into_the_api_table() {
    let out = with_password_hash("[node]\ntype = \"cln\"\n", "$argon2id$x").unwrap();
    let doc = out.parse::<toml_edit::DocumentMut>().unwrap();
    assert_eq!(doc["api"]["password_hash"].as_str(), Some("$argon2id$x"));
    assert_eq!(doc["node"]["type"].as_str(), Some("cln"));

    let out = with_password_hash("[api]\nhost = \"0.0.0.0\"\npassword_hash = \"old\"\n", "new").unwrap();
    let doc = out.parse::<toml_edit::DocumentMut>().unwrap();
    assert_eq!(doc["api"]["password_hash"].as_str(), Some("new"));
    assert_eq!(doc["api"]["host"].as_str(), Some("0.0.0.0"));

    let kept = "api = 5\n";
    let out = with_password_hash(kept, "h").unwrap();
    let doc = out.parse::<toml_edit::DocumentMut>().unwrap();
    assert_eq!(doc["api"].as_integer(), Some(5));

    let out = with_password_hash("", "h").unwrap();
    let doc = out.parse::<toml_edit::DocumentMut>().unwrap();
    assert_eq!(doc["api"]["password_hash"].as_str(), Some("h"));

    let out = with_password_hash("[api.sub]\nx = \"y\"\n", "h").unwrap();
    let doc = out.parse::<toml_edit::DocumentMut>().unwrap();
    assert_eq!(doc["api"]["password_hash"].as_str(), Some("h"));
    assert_eq!(doc["api"]["sub"]["x"].as_str(), Some("y"));

    assert!(with_password_hash("[[[", "h").is_err());
}

use lightning_client::cln::{
    ClnClient, ClnDecodePayReply, ClnFundChannel, ClnFundOutput, ClnGetInfoReply,
    ClnInvoiceEntry, ClnInvoiceReply, ClnListFundsReply, ClnListInvoicesReply, ClnPayReply,
};
use lightning_client::hex_codec::HexError;
use lightning_client::lnd_grpc::{
    balance_from_replies, channel_balance_fits, invoice_request, invoices_from_reply,
    list_invoices_request, wallet_balance_request, GrpcAmount, GrpcChannelBalance, GrpcInvoice,
    GrpcWalletBalance, LndGrpcEndpoint,
};
use lightning_client::lnd_rest::{
    LndAddInvoiceReply, LndChannelBalanceReply, LndGetInfoReply, LndInvoiceEntry,
    LndListInvoicesReply, LndPayReqReply, LndRestClient, LndSendPaymentReply,
    LndWalletBalanceReply,
};
use lightning_client::model::{
    DriverError, Header, HttpMethod, Invoice, Operation, ReplyField, RequestBody,
};

fn s(x: &str) -> Option<String> {
    Some(x.to_string())
}

#[test]
fn cln_requests_hang_off_the_base_url() {
    let c = ClnClient::new("http://cln.local:3010//");
    let r = c.get_info_request();
    assert_eq!(r.method, HttpMethod::Get);
    assert_eq!(r.url, "http://cln.local:3010/v1/getinfo");
    assert_eq!(r.header, None);
    assert_eq!(r.body, RequestBody::NoBody);
    assert_eq!(c.get_balance_request().url, "http://cln.local:3010/v1/listfunds");
    assert_eq!(c.get_balance_request().body, RequestBody::EmptyObject);
    assert_eq!(c.pay_invoice_request("lnbc1").body, RequestBody::ClnBolt11 { bolt11: "lnbc1".to_string() });
    assert_eq!(c.pay_invoice_request("lnbc1").url, "http://cln.local:3010/v1/pay");
    assert_eq!(c.decode_invoice_request("lnbc1").url, "http://cln.local:3010/v1/decodepay");
}

#[test]
fn cln_node_info_defaults() {
    let i = ClnClient::node_info(&ClnGetInfoReply { alias: None, id: None });
    assert_eq!(i.alias, "CLN");
    assert_eq!(i.identity_pubkey, "unknown");
    let i = ClnClient::node_info(&ClnGetInfoReply { alias: s("bob"), id: s("02ab") });
    assert_eq!(i.alias, "bob");
    assert_eq!(i.identity_pubkey, "02ab");
}

#[test]
fn cln_invoice_request_labels_with_the_time() {
    let c = ClnClient::new("http://n");
    let r = c.create_invoice_request_at(21000, None, 1700000000);
    assert_eq!(r.method, HttpMethod::Post);
    assert_eq!(r.url, "http://n/v1/invoice");
    assert_eq!(
        r.body,
        RequestBody::ClnInvoice {
            msatoshi: 21000,
            label: "rust-1700000000".to_string(),
            description: "rust".to_string()
        }
    );
    let r = c.create_invoice_request_at(5, Some("coffee"), -3);
    assert_eq!(
        r.body,
        RequestBody::ClnInvoice { msatoshi: 5, label: "rust--3".to_string(), description: "coffee".to_string() }
    );
}

#[test]
fn cln_invoice_request_uses_the_clock() {
    let c = ClnClient::new("http://n");
    match c.create_invoice_request(1, None).body {
        RequestBody::ClnInvoice { label, .. } => {
            let stamp: i64 = label.strip_prefix("rust-").unwrap().parse().unwrap();
            assert!(stamp > 1_600_000_000);
        }
        other => panic!("unexpected body {:?}", other),
    }
}

#[test]
fn cln_invoice_needs_bolt11() {
    assert_eq!(ClnClient::invoice_from_reply(&ClnInvoiceReply { bolt11: s("lnbc9") }), Ok("lnbc9".to_string()));
    assert_eq!(
        ClnClient::invoice_from_reply(&ClnInvoiceReply { bolt11: None }),
        Err(DriverError::MissingField(ReplyField::Bolt11))
    );
}

#[test]
fn cln_balance_counts_confirmed_outputs_and_channels() {
    let reply = ClnListFundsReply {
        outputs: Some(vec![
            ClnFundOutput { status: s("confirmed"), msatoshi: Some(1500) },
            ClnFundOutput { status: s("unconfirmed"), msatoshi: Some(99999) },
            ClnFundOutput { status: s("confirmed"), msatoshi: None },
            ClnFundOutput { status: None, msatoshi: Some(7) },
            ClnFundOutput { status: s("confirmed"), msatoshi: Some(2600) },
        ]),
        channels: Some(vec![
            ClnFundChannel { our_msatoshi: Some(5) },
            ClnFundChannel { our_msatoshi: None },
            ClnFundChannel { our_msatoshi: Some(7) },
        ]),
    };
    assert!(ClnClient::balance_fits(&reply));
    let b = ClnClient::balance_from_reply(&reply);
    assert_eq!(b.onchain_sat, 4);
    assert_eq!(b.channel_msat, 12);
    let empty = ClnListFundsReply { outputs: None, channels: None };
    let b = ClnClient::balance_from_reply(&empty);
    assert_eq!((b.onchain_sat, b.channel_msat), (0, 0));
}

#[test]
fn cln_balance_overflow_is_detected() {
    let reply = ClnListFundsReply {
        outputs: Some(vec![
            ClnFundOutput { status: s("confirmed"), msatoshi: Some(u64::MAX) },
            ClnFundOutput { status: s("confirmed"), msatoshi: Some(1) },
        ]),
        channels: None,
    };
    assert!(!ClnClient::balance_fits(&reply));
    let reply = ClnListFundsReply {
        outputs: None,
        channels: Some(vec![ClnFundChannel { our_msatoshi: Some(u64::MAX) }, ClnFundChannel { our_msatoshi: Some(u64::MAX) }]),
    };
    assert!(!ClnClient::balance_fits(&reply));
}

#[test]
fn cln_invoice_list() {
    let c = ClnClient::new("http://n/");
    assert_eq!(c.list_invoices_request(None).body, RequestBody::ClnListInvoices { count: 10 });
    assert_eq!(c.list_invoices_request(Some(3)).body, RequestBody::ClnListInvoices { count: 3 });
    assert_eq!(c.list_invoices_request(Some(3)).url, "http://n/v1/listinvoices");
    let reply = ClnListInvoicesReply {
        invoices: Some(vec![
            ClnInvoiceEntry { payment_hash: s("aa"), msatoshi_received: Some(10), state: Some(1), bolt11: s("lnbc") },
            ClnInvoiceEntry { payment_hash: None, msatoshi_received: None, state: None, bolt11: None },
            ClnInvoiceEntry { payment_hash: s("bb"), msatoshi_received: Some(3), state: Some(2), bolt11: None },
            ClnInvoiceEntry { payment_hash: s("cc"), msatoshi_received: Some(3), state: Some(9), bolt11: None },
            ClnInvoiceEntry { payment_hash: s("dd"), msatoshi_received: Some(3), state: Some(4294967297), bolt11: None },
        ]),
    };
    let v = ClnClient::invoices_from_reply(&reply);
    let states: Vec<&str> = v.iter().map(|i| i.state.as_str()).collect();
    assert_eq!(states, vec!["paid", "unpaid", "expired", "unknown", "paid"]);
    assert_eq!(
        v[0],
        Invoice { hash: "aa".into(), amount_msat: 10, state: "paid".into(), bolt11: s("lnbc"), desc: None }
    );
    assert_eq!(v[1].hash, "");
    assert_eq!(v[1].amount_msat, 0);
    assert!(ClnClient::invoices_from_reply(&ClnListInvoicesReply { invoices: None }).is_empty());
}

#[test]
fn cln_decode_and_pay() {
    let d = ClnClient::decoded_from_reply(&ClnDecodePayReply { msatoshi: Some(7), description: s("tea"), payee: None });
    assert_eq!(d.amount_msat, Some(7));
    assert_eq!(d.desc, s("tea"));
    assert_eq!(d.payee, None);
    let ok = ClnPayReply { error: None, payment_hash: s("h"), amount_sent_msat: Some(100), total_fees_msats: Some(2) };
    let p = ClnClient::payment_from_reply(&ok).unwrap();
    assert_eq!((p.hash.as_str(), p.amount_msat, p.fee_msat), ("h", 100, Some(2)));
    let refused = ClnPayReply { error: s("no route"), ..ok.clone() };
    assert_eq!(ClnClient::payment_from_reply(&refused), Err(DriverError::PaymentFailed("no route".into())));
    let no_hash = ClnPayReply { payment_hash: None, ..ok.clone() };
    assert_eq!(ClnClient::payment_from_reply(&no_hash), Err(DriverError::MissingField(ReplyField::PaymentHash)));
    let no_amount = ClnPayReply { amount_sent_msat: None, ..ok };
    assert_eq!(ClnClient::payment_from_reply(&no_amount), Err(DriverError::MissingField(ReplyField::AmountSentMsat)));
}

#[test]
fn lnd_rest_setup_checks_cert_path_then_macaroon() {
    assert_eq!(LndRestClient::new("https://h", "ABCD", "   "), Err(DriverError::CertPathRequired));
    assert_eq!(LndRestClient::new("https://h", "xyz", ""), Err(DriverError::CertPathRequired));
    assert_eq!(LndRestClient::new("https://h", "abc", "/tls.cert"), Err(DriverError::Hex(HexError::OddLength)));
    let c = LndRestClient::new("https://h:8080/", "ABCD", "  /tls.cert ").unwrap();
    assert_eq!(c.cert_path(), "/tls.cert");
    let r = c.get_info_request();
    assert_eq!(r.url, "https://h:8080/v1/getinfo");
    assert_eq!(r.header, Some(Header { name: "Grpc-Metadata-macaroon".into(), value: "abcd".into() }));
}

#[test]
fn lnd_rest_requests() {
    let c = LndRestClient::new("https://h", "00", "/c").unwrap();
    let r = c.create_invoice_request(1000, None);
    assert_eq!(r.method, HttpMethod::Post);
    assert_eq!(r.url, "https://h/v1/invoices");
    assert_eq!(r.body, RequestBody::LndInvoice { value_msat: 1000, memo: "rust".into() });
    assert_eq!(c.wallet_balance_request().url, "https://h/v1/balance/wallet");
    assert_eq!(c.channel_balance_request().url, "https://h/v1/balance/channels");
    assert_eq!(c.list_invoices_request(None).url, "https://h/v1/invoices?num_max_invoices=10");
    assert_eq!(c.list_invoices_request(Some(250)).url, "https://h/v1/invoices?num_max_invoices=250");
    assert_eq!(c.decode_invoice_request("lnbc").body, RequestBody::LndPayReq { pay_req: "lnbc".into() });
    assert_eq!(c.pay_invoice_request("lnbc").url, "https://h/v1/sendpaymentsync");
    assert_eq!(
        c.pay_invoice_request("lnbc").body,
        RequestBody::LndPaymentRequest { payment_request: "lnbc".into() }
    );
}

#[test]
fn lnd_rest_replies() {
    let i = LndRestClient::node_info(&LndGetInfoReply { alias: None, identity_pubkey: None });
    assert_eq!((i.alias.as_str(), i.identity_pubkey.as_str()), ("LND", "unknown"));
    assert_eq!(
        LndRestClient::invoice_from_reply(&LndAddInvoiceReply { payment_request: None }),
        Err(DriverError::MissingField(ReplyField::PaymentRequest))
    );
    let b = LndRestClient::balance_from_replies(
        &LndWalletBalanceReply { confirmed_balance: Some(5) },
        &LndChannelBalanceReply { local_balance: None },
    );
    assert_eq!((b.onchain_sat, b.channel_msat), (5, 0));
    let list = LndRestClient::invoices_from_reply(&LndListInvoicesReply {
        invoices: Some(vec![
            LndInvoiceEntry { r_hash: s("h1"), value_msat: Some(9), settled: Some(true), payment_request: s("p"), memo: s("") },
            LndInvoiceEntry { r_hash: None, value_msat: None, settled: None, payment_request: None, memo: s("m") },
        ]),
    });
    assert_eq!(list[0], Invoice { hash: "h1".into(), amount_msat: 9, state: "paid".into(), bolt11: s("p"), desc: None });
    assert_eq!(list[1], Invoice { hash: "".into(), amount_msat: 0, state: "unpaid".into(), bolt11: None, desc: s("m") });
}

#[test]
fn lnd_rest_decode_and_pay() {
    let zero = LndPayReqReply { num_satoshis: Some(0), description: None, destination: s("02") };
    assert_eq!(LndRestClient::decoded_from_reply(&zero).amount_msat, None);
    let three = LndPayReqReply { num_satoshis: Some(3), ..zero.clone() };
    assert_eq!(LndRestClient::decoded_from_reply(&three).amount_msat, Some(3000));
    assert_eq!(LndRestClient::decoded_from_reply(&three).payee, s("02"));
    assert!(!LndRestClient::decoded_amount_fits(&LndPayReqReply { num_satoshis: Some(u64::MAX), ..zero }));
    let ok = LndSendPaymentReply { payment_error: None, payment_hash: s("h"), amount_msat: Some(1), fee_msat: None };
    assert_eq!(LndRestClient::payment_from_reply(&ok).unwrap().fee_msat, None);
    let empty_error = LndSendPaymentReply { payment_error: s(""), ..ok.clone() };
    assert_eq!(LndRestClient::payment_from_reply(&empty_error), Err(DriverError::PaymentFailed("".into())));
    let no_amount = LndSendPaymentReply { amount_msat: None, ..ok };
    assert_eq!(LndRestClient::payment_from_reply(&no_amount), Err(DriverError::MissingField(ReplyField::AmountMsat)));
}

#[test]
fn lnd_grpc_endpoint_arguments() {
    let e = LndGrpcEndpoint::new("  ", "0A0b", "node:10009").unwrap();
    assert_eq!((e.cert.as_str(), e.macaroon.as_str(), e.addr.as_str()), ("", "0a0b", "node:10009"));
    let e = LndGrpcEndpoint::new("FF00", "aa", "n").unwrap();
    assert_eq!(e.cert, "ff00");
    assert_eq!(LndGrpcEndpoint::new("zz", "aaa", "n"), Err(DriverError::InvalidMacaroonHex(HexError::OddLength)));
    assert_eq!(
        LndGrpcEndpoint::new("zz", "aa", "n"),
        Err(DriverError::Hex(HexError::InvalidHexCharacter { c: 'z', index: 0 }))
    );
}

#[test]
fn lnd_grpc_requests_and_balance() {
    let r = invoice_request(u64::MAX, Some("x"));
    assert_eq!((r.value_msat, r.memo.as_str()), (-1, "x"));
    assert_eq!(invoice_request(10, None).memo, "rust");
    let w = wallet_balance_request();
    assert_eq!((w.account.as_str(), w.min_confs), ("", 1));
    assert_eq!(list_invoices_request(None).num_max_invoices, 10);
    assert_eq!(list_invoices_request(Some(4)).num_max_invoices, 4);
    let chan = GrpcChannelBalance { local_balance: Some(GrpcAmount { sat: 2, msat: 0 }) };
    assert!(channel_balance_fits(&chan));
    let b = balance_from_replies(&GrpcWalletBalance { confirmed_balance: 7 }, &chan);
    assert_eq!((b.onchain_sat, b.channel_msat), (7, 2000));
    let b = balance_from_replies(
        &GrpcWalletBalance { confirmed_balance: -1 },
        &GrpcChannelBalance { local_balance: Some(GrpcAmount { sat: 2, msat: 2500 }) },
    );
    assert_eq!((b.onchain_sat, b.channel_msat), (u64::MAX, 2500));
    assert!(!channel_balance_fits(&GrpcChannelBalance { local_balance: Some(GrpcAmount { sat: u64::MAX, msat: 0 }) }));
    let b = balance_from_replies(&GrpcWalletBalance { confirmed_balance: 0 }, &GrpcChannelBalance { local_balance: None });
    assert_eq!(b.channel_msat, 0);
}

#[test]
fn lnd_grpc_invoice_list() {
    let inv = |state: i32, value: i64| GrpcInvoice {
        r_hash: vec![0xab, 0x01],
        value_msat: value,
        state,
        payment_request: String::new(),
        memo: "m".into(),
    };
    let out = invoices_from_reply(&vec![inv(0, 5), inv(1, -5), inv(2, 0), inv(3, 1), inv(7, 1), inv(-2, 1)]);
    let states: Vec<&str> = out.iter().map(|i| i.state.as_str()).collect();
    assert_eq!(states, vec!["open", "settled", "canceled", "accepted", "unknown: 7", "unknown: -2"]);
    assert_eq!(out[0].hash, "ab01");
    assert_eq!(out[0].amount_msat, 5);
    assert_eq!(out[1].amount_msat, 0);
    assert_eq!(out[0].bolt11, None);
    assert_eq!(out[0].desc, s("m"));
}

#[test]
fn lnd_grpc_unsupported_operations() {
    assert_eq!(
        lightning_client::lnd_grpc::decode_invoice(),
        Err(DriverError::NotImplemented(Operation::DecodeInvoice))
    );
    assert_eq!(
        lightning_client::lnd_grpc::pay_invoice(),
        Err(DriverError::NotImplemented(Operation::PayInvoice))
    );
}

#[test]
fn lnd_backends_share_the_macaroon_text() {
    let rest = LndRestClient::new("https://h", "DEADBEEF", "/c").unwrap();
    let grpc = LndGrpcEndpoint::new("", "DEADBEEF", "h:10009").unwrap();
    let header = rest.get_info_request().header.unwrap();
    assert_eq!(header.value, grpc.macaroon);
    assert_eq!(
        grpc.macaroon,
        lightning_client::hex_codec::normalize_hex("DEADBEEF").unwrap()
    );
    let grpc = LndGrpcEndpoint::new(" AB01 ", "00", "h").unwrap_err();
    assert_eq!(grpc, DriverError::Hex(HexError::InvalidHexCharacter { c: ' ', index: 0 }));
    let grpc = LndGrpcEndpoint::new("AB01", "00", "h").unwrap();
    assert_eq!(grpc.cert, lightning_client::hex_codec::normalize_hex("AB01").unwrap());
}

#[test]
fn base_url_with_extra_slash_is_the_same() {
    let a = ClnClient::new("http://n");
    let b = ClnClient::new("http://n/");
    assert_eq!(a, b);
}

#[test]
fn lnd_rest_certificate_is_taken_from_the_pem_bytes() {
    let c = LndRestClient::new("https://h", "00", "/tls.cert").unwrap();
    assert_eq!(
        c.tls_certificate(b"xyz").unwrap_err(),
        DriverError::InvalidCertificate("/tls.cert".into())
    );
    assert!(c.tls_certificate(TEST_CERT.as_bytes()).is_ok());
}

#[test]
fn lnd_grpc_node_info() {
    let i = lightning_client::lnd_grpc::node_info("alice".into(), "03ff".into());
    assert_eq!((i.alias.as_str(), i.identity_pubkey.as_str()), ("alice", "03ff"));
}

const TEST_CERT: &str = "-----BEGIN CERTIFICATE-----
MIIBfTCCASOgAwIBAgIUVdv4HiPqAGkLsGpkDQthJne4PAEwCgYIKoZIzj0EAwIw
FDESMBAGA1UEAwwJbG9jYWxob3N0MB4XDTI2MTExODAzMzY0MVoXDTM2MTExNTAz
MzY0MVowFDESMBAGA1UEAwwJbG9jYWxob3N0MFkwEwYHKoZIzj0CAQYIKoZIzj0D
AQcDQgAEOSujWIaljKAWRCWz4PEXFVZ21gicWnCh7Lz+6tq1p8IlFrs/fEoudOyu
wBRLKjFNU7S4LOGaYfYrwkiq995h/KNTMFEwHQYDVR0OBBYEFEbO9l2g2nwqlyns
Ef8ZHXDGAThTMB8GA1UdIwQYMBaAFEbO9l2g2nwqlynsEf8ZHXDGAThTMA8GA1Ud
EwEB/wQFMAMBAf8wCgYIKoZIzj0EAwIDSAAwRQIgaTZ8UJRBzlksxTYl0BHtrrrx
JCbBtO8umFd0orXrgbsCIQDqOHWV13FwdeZv3qAPKa8JZdexkfTM3a5bBMlegu7C
DA==
-----END CERTIFICATE-----
";

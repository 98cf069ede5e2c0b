use lightning_client::cln::{
    ClnClient, ClnGetInfoReply, ClnListFundsReply, ClnListInvoicesReply, ClnPayReply,
};
use lightning_client::lnd_rest::{
    LndGetInfoReply, LndListInvoicesReply, LndPayReqReply, LndSendPaymentReply,
    LndWalletBalanceReply,
};
use serde_json::Value;

fn parse(text: &str) -> Value {
    serde_json::from_str(text).unwrap()
}

#[test]
fn cln_getinfo_fields() {
    let r = ClnGetInfoReply::from_json(&parse(r#"{"alias": "bob", "id": "02ab", "x": 1}"#));
    assert_eq!(r, ClnGetInfoReply { alias: Some("bob".into()), id: Some("02ab".into()) });
    let r = ClnGetInfoReply::from_json(&parse(r#"{"alias": 5}"#));
    assert_eq!(r, ClnGetInfoReply { alias: None, id: None });
    let r = ClnGetInfoReply::from_json(&parse(r#"[1, 2]"#));
    assert_eq!(r.alias, None);
}

#[test]
fn cln_listfunds_from_json() {
    let v = parse(
        r#"{"outputs": [{"status": "confirmed", "msatoshi": 1500}, {"status": "unconfirmed", "msatoshi": 9},
                        {"status": "confirmed", "msatoshi": 2600}],
            "channels": [{"our_msatoshi": 5}, {"our_msatoshi": "7"}]}"#,
    );
    let r = ClnListFundsReply::from_json(&v);
    assert_eq!(r.outputs.as_ref().unwrap().len(), 3);
    assert_eq!(r.channels.as_ref().unwrap()[1].our_msatoshi, None);
    let b = ClnClient::balance_from_reply(&r);
    assert_eq!((b.onchain_sat, b.channel_msat), (4, 5));
    let r = ClnListFundsReply::from_json(&parse(r#"{"outputs": {}}"#));
    assert_eq!((r.outputs, r.channels), (None, None));
}

#[test]
fn cln_listinvoices_and_pay_from_json() {
    let v = parse(r#"{"invoices": [{"payment_hash": "aa", "msatoshi_received": 10, "state": 1, "bolt11": "lnbc"}]}"#);
    let list = ClnClient::invoices_from_reply(&ClnListInvoicesReply::from_json(&v));
    assert_eq!(list[0].state, "paid");
    assert_eq!(list[0].hash, "aa");
    let p = ClnPayReply::from_json(&parse(
        r#"{"payment_hash": "h", "amount_sent_msat": 100, "total_fees_msats": 2}"#,
    ));
    assert_eq!(ClnClient::payment_from_reply(&p).unwrap().amount_msat, 100);
    let p = ClnPayReply::from_json(&parse(r#"{"error": "no route"}"#));
    assert_eq!(p.error, Some("no route".into()));
}

#[test]
fn lnd_rest_replies_from_json() {
    let r = LndGetInfoReply::from_json(&parse(r#"{"alias": "a", "identity_pubkey": "k"}"#));
    assert_eq!(r.identity_pubkey, Some("k".into()));
    let w = LndWalletBalanceReply::from_json(&parse(r#"{"confirmed_balance": "12"}"#));
    assert_eq!(w.confirmed_balance, None);
    let w = LndWalletBalanceReply::from_json(&parse(r#"{"confirmed_balance": 12}"#));
    assert_eq!(w.confirmed_balance, Some(12));
    let l = LndListInvoicesReply::from_json(&parse(
        r#"{"invoices": [{"r_hash": "h", "value_msat": 9, "settled": true, "payment_request": "p", "memo": ""}]}"#,
    ));
    let e = &l.invoices.unwrap()[0];
    assert_eq!((e.settled, e.value_msat), (Some(true), Some(9)));
    let d = LndPayReqReply::from_json(&parse(r#"{"num_satoshis": 3, "destination": "02"}"#));
    assert_eq!((d.num_satoshis, d.destination.as_deref()), (Some(3), Some("02")));
    let s = LndSendPaymentReply::from_json(&parse(r#"{"payment_error": "", "payment_hash": "h"}"#));
    assert_eq!(s.payment_error, Some(String::new()));
}

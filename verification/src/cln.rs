//! Core Lightning, reached through its REST plugin.

use vstd::prelude::*;
use crate::model::{
    clone_opt, join_url, plain_request, seq_or, string_or, Balance, DecodedInvoice,
    DecodedInvoiceView, DriverError, DriverErrorView, HttpMethod, HttpRequest, Invoice, InvoiceView,
    NodeInfo, NodeInfoView, PaymentResult, PaymentResultView, ReplyField, RequestBody,
    RequestBodyView,
};
use crate::json::{json_array, json_array_at, json_str, json_str_at, json_u64, json_u64_at};
use serde_json::Value;
use crate::text::{signed_decimal, str_equal, strip_trailing_slashes, trim_trailing_slashes, i64_to_decimal};

verus! {

/// A Core Lightning node behind a REST base URL.
#[derive(Debug, Clone, PartialEq, Eq)]
pub struct ClnClient {
    url: String,
}

/// The fields of a `getinfo` reply that the driver reads.
#[derive(Debug, Clone, PartialEq, Eq)]
pub struct ClnGetInfoReply {
    pub alias: Option<String>,
    pub id: Option<String>,
}

/// The field of an `invoice` reply that the driver reads.
#[derive(Debug, Clone, PartialEq, Eq)]
pub struct ClnInvoiceReply {
    pub bolt11: Option<String>,
}

/// One on-chain output of a `listfunds` reply.
#[derive(Debug, Clone, PartialEq, Eq)]
pub struct ClnFundOutput {
    pub status: Option<String>,
    pub msatoshi: Option<u64>,
}

/// One channel of a `listfunds` reply.
#[derive(Debug, Clone, Copy, PartialEq, Eq)]
pub struct ClnFundChannel {
    pub our_msatoshi: Option<u64>,
}

/// The fields of a `listfunds` reply that the driver reads; a list is `None`
/// when the reply has no array under that key.
#[derive(Debug, Clone, PartialEq, Eq)]
pub struct ClnListFundsReply {
    pub outputs: Option<Vec<ClnFundOutput>>,
    pub channels: Option<Vec<ClnFundChannel>>,
}

/// One invoice of a `listinvoices` reply.
#[derive(Debug, Clone, PartialEq, Eq)]
pub struct ClnInvoiceEntry {
    pub payment_hash: Option<String>,
    pub msatoshi_received: Option<u64>,
    pub state: Option<u64>,
    pub bolt11: Option<String>,
}

/// The list of a `listinvoices` reply, `None` when it is not an array.
#[derive(Debug, Clone, PartialEq, Eq)]
pub struct ClnListInvoicesReply {
    pub invoices: Option<Vec<ClnInvoiceEntry>>,
}

/// The fields of a `decodepay` reply that the driver reads.
#[derive(Debug, Clone, PartialEq, Eq)]
pub struct ClnDecodePayReply {
    pub msatoshi: Option<u64>,
    pub description: Option<String>,
    pub payee: Option<String>,
}

/// The fields of a `pay` reply that the driver reads.
#[derive(Debug, Clone, PartialEq, Eq)]
pub struct ClnPayReply {
    pub error: Option<String>,
    pub payment_hash: Option<String>,
    pub amount_sent_msat: Option<u64>,
    pub total_fees_msats: Option<u64>,
}

/// Whether an output of `listfunds` is confirmed.
pub open spec fn is_confirmed(o: ClnFundOutput) -> bool {
    o.status.deep_view() == Some("confirmed"@)
}

/// Millisatoshi held in the confirmed outputs among `outs`.
pub open spec fn confirmed_output_msat(outs: Seq<ClnFundOutput>) -> nat
    decreases outs.len(),
{
    if outs.len() == 0 {
        0
    } else {
        confirmed_output_msat(outs.drop_last()) + if is_confirmed(outs.last()) {
            outs.last().msatoshi.unwrap_or(0) as nat
        } else {
            0nat
        }
    }
}

/// Millisatoshi on our side of the channels `chans`.
pub open spec fn channel_msat_total(chans: Seq<ClnFundChannel>) -> nat
    decreases chans.len(),
{
    if chans.len() == 0 {
        0
    } else {
        channel_msat_total(chans.drop_last()) + chans.last().our_msatoshi.unwrap_or(0) as nat
    }
}

/// Confirmed on-chain millisatoshi of a `listfunds` reply.
pub open spec fn cln_onchain_msat(r: ClnListFundsReply) -> nat {
    match r.outputs {
        Some(v) => confirmed_output_msat(v@),
        None => 0,
    }
}

/// Channel millisatoshi of a `listfunds` reply.
pub open spec fn cln_channel_msat(r: ClnListFundsReply) -> nat {
    match r.channels {
        Some(v) => channel_msat_total(v@),
        None => 0,
    }
}

/// The name of the invoice state whose code is `code`, read as a `u32`.
pub open spec fn cln_state_name(code: u64) -> Seq<char> {
    let k = code % 0x1_0000_0000;
    if k == 0 {
        "unpaid"@
    } else if k == 1 {
        "paid"@
    } else if k == 2 {
        "expired"@
    } else {
        "unknown"@
    }
}

/// The invoice that a `listinvoices` entry stands for.
pub open spec fn cln_invoice_view(e: ClnInvoiceEntry) -> InvoiceView {
    InvoiceView {
        hash: seq_or(e.payment_hash.deep_view(), ""@),
        amount_msat: e.msatoshi_received.unwrap_or(0),
        state: cln_state_name(e.state.unwrap_or(0)),
        bolt11: e.bolt11.deep_view(),
        desc: None,
    }
}

/// The invoices of a `listinvoices` reply, in order.
pub open spec fn cln_invoices_view(r: ClnListInvoicesReply) -> Seq<InvoiceView> {
    match r.invoices {
        Some(v) => v@.map_values(|e: ClnInvoiceEntry| cln_invoice_view(e)),
        None => Seq::empty(),
    }
}

/// What a `pay` reply means: a refusal when it carries an error string,
/// else the payment, which needs a hash and the amount sent.
pub open spec fn cln_payment_view(r: ClnPayReply) -> Result<PaymentResultView, DriverErrorView> {
    match r.error.deep_view() {
        Some(e) => Err(DriverErrorView::PaymentFailed(e)),
        None => match r.payment_hash.deep_view() {
            None => Err(DriverErrorView::MissingField(ReplyField::PaymentHash)),
            Some(h) => match r.amount_sent_msat {
                None => Err(DriverErrorView::MissingField(ReplyField::AmountSentMsat)),
                Some(a) => Ok(
                    PaymentResultView { hash: h, amount_msat: a, fee_msat: r.total_fees_msats },
                ),
            },
        },
    }
}

/// The time now, in seconds since the Unix epoch, from
/// `chrono::Utc::now().timestamp()`. Nothing is claimed of the value.
#[verifier::external_body]
fn unix_time_now() -> i64 {
    chrono::Utc::now().timestamp()
}

proof fn lemma_confirmed_prefix(outs: Seq<ClnFundOutput>, i: int)
    requires
        0 <= i <= outs.len(),
    ensures
        confirmed_output_msat(outs.take(i)) <= confirmed_output_msat(outs),
    decreases outs.len(),
{
    if i < outs.len() {
        assert(outs.drop_last().take(i) =~= outs.take(i));
        lemma_confirmed_prefix(outs.drop_last(), i);
    } else {
        assert(outs.take(i) =~= outs);
    }
}

proof fn lemma_channel_prefix(chans: Seq<ClnFundChannel>, i: int)
    requires
        0 <= i <= chans.len(),
    ensures
        channel_msat_total(chans.take(i)) <= channel_msat_total(chans),
    decreases chans.len(),
{
    if i < chans.len() {
        assert(chans.drop_last().take(i) =~= chans.take(i));
        lemma_channel_prefix(chans.drop_last(), i);
    } else {
        assert(chans.take(i) =~= chans);
    }
}

fn output_is_confirmed(o: &ClnFundOutput) -> (res: bool)
    ensures
        res == is_confirmed(*o),
{
    match &o.status {
        Some(s) => str_equal(s.as_str(), "confirmed"),
        None => false,
    }
}

/// Millisatoshi in the confirmed outputs, or `None` when the sum does not
/// fit in a `u64`.
fn sum_confirmed(outs: &Vec<ClnFundOutput>) -> (res: Option<u64>)
    ensures
        match res {
            Some(t) => t == confirmed_output_msat(outs@),
            None => confirmed_output_msat(outs@) > u64::MAX,
        },
{
    let n = outs.len();
    let mut acc: u64 = 0;
    let mut i: usize = 0;
    while i < n
        invariant
            n == outs@.len(),
            i <= n,
            acc == confirmed_output_msat(outs@.take(i as int)),
        decreases n - i,
    {
        let o = &outs[i];
        assert(outs@.take(i + 1).drop_last() =~= outs@.take(i as int));
        assert(outs@.take(i + 1).last() == outs@[i as int]);
        if output_is_confirmed(o) {
            let m = match o.msatoshi {
                Some(m) => m,
                None => 0,
            };
            if acc > u64::MAX - m {
                proof {
                    lemma_confirmed_prefix(outs@, i + 1);
                }
                return None;
            }
            acc = acc + m;
        }
        i = i + 1;
    }
    assert(outs@.take(n as int) =~= outs@);
    Some(acc)
}

/// Millisatoshi on our side of the channels, or `None` when the sum does not
/// fit in a `u64`.
fn sum_channels(chans: &Vec<ClnFundChannel>) -> (res: Option<u64>)
    ensures
        match res {
            Some(t) => t == channel_msat_total(chans@),
            None => channel_msat_total(chans@) > u64::MAX,
        },
{
    let n = chans.len();
    let mut acc: u64 = 0;
    let mut i: usize = 0;
    while i < n
        invariant
            n == chans@.len(),
            i <= n,
            acc == channel_msat_total(chans@.take(i as int)),
        decreases n - i,
    {
        let m = match chans[i].our_msatoshi {
            Some(m) => m,
            None => 0,
        };
        assert(chans@.take(i + 1).drop_last() =~= chans@.take(i as int));
        assert(chans@.take(i + 1).last() == chans@[i as int]);
        if acc > u64::MAX - m {
            proof {
                lemma_channel_prefix(chans@, i + 1);
            }
            return None;
        }
        acc = acc + m;
        i = i + 1;
    }
    assert(chans@.take(n as int) =~= chans@);
    Some(acc)
}

fn state_name(code: u64) -> (res: String)
    ensures
        res@ == cln_state_name(code),
{
    let k = code as u32;
    assert(k == code % 0x1_0000_0000) by (bit_vector)
        requires
            k == code as u32,
    ;
    if k == 0 {
        String::from_str("unpaid")
    } else if k == 1 {
        String::from_str("paid")
    } else if k == 2 {
        String::from_str("expired")
    } else {
        String::from_str("unknown")
    }
}

fn invoice_from_entry(e: &ClnInvoiceEntry) -> (res: Invoice)
    ensures
        res@ == cln_invoice_view(*e),
{
    Invoice {
        hash: string_or(&e.payment_hash, ""),
        amount_msat: match e.msatoshi_received {
            Some(a) => a,
            None => 0,
        },
        state: state_name(
            match e.state {
                Some(s) => s,
                None => 0,
            },
        ),
        bolt11: clone_opt(&e.bolt11),
        desc: None,
    }
}

impl ClnClient {
    /// The base URL, without trailing slashes.
    pub closed spec fn base_url(&self) -> Seq<char> {
        self.url@
    }

    /// A client for the node whose REST base URL is `url`.
    pub fn new(url: &str) -> (res: ClnClient)
        ensures
            res.base_url() == trim_trailing_slashes(url@),
    {
        ClnClient { url: strip_trailing_slashes(url) }
    }

    /// The request for the node's identity.
    pub fn get_info_request(&self) -> (res: HttpRequest)
        ensures
            res@ == plain_request(HttpMethod::Get, self.base_url() + "/v1/getinfo"@, RequestBodyView::NoBody),
    {
        HttpRequest {
            method: HttpMethod::Get,
            url: join_url(&self.url, "/v1/getinfo"),
            header: None,
            body: RequestBody::NoBody,
        }
    }

    /// The node's identity from its `getinfo` reply; a missing alias reads
    /// as `CLN` and a missing id as `unknown`.
    pub fn node_info(reply: &ClnGetInfoReply) -> (res: NodeInfo)
        ensures
            res@ == (NodeInfoView {
                alias: seq_or(reply.alias.deep_view(), "CLN"@),
                identity_pubkey: seq_or(reply.id.deep_view(), "unknown"@),
            }),
    {
        NodeInfo { alias: string_or(&reply.alias, "CLN"), identity_pubkey: string_or(&reply.id, "unknown") }
    }

    /// The request that creates an invoice for `msat` millisatoshi, labelled
    /// after the Unix time `now`, with the description `desc` (`rust` when
    /// there is none).
    pub fn create_invoice_request_at(&self, msat: u64, desc: Option<&str>, now: i64) -> (res: HttpRequest)
        ensures
            res@ == plain_request(
                HttpMethod::Post,
                self.base_url() + "/v1/invoice"@,
                RequestBodyView::ClnInvoice {
                    msatoshi: msat,
                    label: "rust-"@ + signed_decimal(now as int),
                    description: match desc {
                        Some(d) => d@,
                        None => "rust"@,
                    },
                },
            ),
    {
        let mut label = String::from_str("rust-");
        let stamp = i64_to_decimal(now);
        label.append(stamp.as_str());
        let description = match desc {
            Some(d) => String::from_str(d),
            None => String::from_str("rust"),
        };
        HttpRequest {
            method: HttpMethod::Post,
            url: join_url(&self.url, "/v1/invoice"),
            header: None,
            body: RequestBody::ClnInvoice { msatoshi: msat, label, description },
        }
    }

    /// The request that creates an invoice, labelled after the Unix time that
    /// the clock gives during the call. The contract says only that the label
    /// is `rust-` and the decimal of some `i64`: nothing is stated of what the
    /// clock reads.
    pub fn create_invoice_request(&self, msat: u64, desc: Option<&str>) -> (res: HttpRequest)
        ensures
            exists|now: i64|
                res@ == plain_request(
                    HttpMethod::Post,
                    self.base_url() + "/v1/invoice"@,
                    RequestBodyView::ClnInvoice {
                        msatoshi: msat,
                        label: "rust-"@ + signed_decimal(now as int),
                        description: match desc {
                            Some(d) => d@,
                            None => "rust"@,
                        },
                    },
                ),
    {
        let now = unix_time_now();
        self.create_invoice_request_at(msat, desc, now)
    }

    /// The payment request of a new invoice, which the reply must carry.
    pub fn invoice_from_reply(reply: &ClnInvoiceReply) -> (res: Result<String, DriverError>)
        ensures
            match reply.bolt11 {
                Some(b) => res matches Ok(s) && s@ == b@,
                None => res matches Err(e) && e@ == DriverErrorView::MissingField(ReplyField::Bolt11),
            },
    {
        match &reply.bolt11 {
            Some(b) => Ok(b.clone()),
            None => Err(DriverError::MissingField(ReplyField::Bolt11)),
        }
    }

    /// The request for the node's funds.
    pub fn get_balance_request(&self) -> (res: HttpRequest)
        ensures
            res@ == plain_request(HttpMethod::Post, self.base_url() + "/v1/listfunds"@, RequestBodyView::EmptyObject),
    {
        HttpRequest {
            method: HttpMethod::Post,
            url: join_url(&self.url, "/v1/listfunds"),
            header: None,
            body: RequestBody::EmptyObject,
        }
    }

    /// Whether both sums of a `listfunds` reply fit in a `u64`, so that
    /// `balance_from_reply` may be called.
    pub fn balance_fits(reply: &ClnListFundsReply) -> (res: bool)
        ensures
            res == (cln_onchain_msat(*reply) <= u64::MAX && cln_channel_msat(*reply) <= u64::MAX),
    {
        let onchain_ok = match &reply.outputs {
            Some(v) => sum_confirmed(v).is_some(),
            None => true,
        };
        let channels_ok = match &reply.channels {
            Some(v) => sum_channels(v).is_some(),
            None => true,
        };
        onchain_ok && channels_ok
    }

    /// The node's funds: the confirmed outputs, in whole satoshi, and our side
    /// of the channels.
    pub fn balance_from_reply(reply: &ClnListFundsReply) -> (res: Balance)
        requires
            cln_onchain_msat(*reply) <= u64::MAX,
            cln_channel_msat(*reply) <= u64::MAX,
        ensures
            res.onchain_sat == cln_onchain_msat(*reply) / 1000,
            res.channel_msat == cln_channel_msat(*reply),
    {
        let onchain_msat: u64 = match &reply.outputs {
            Some(v) => match sum_confirmed(v) {
                Some(t) => t,
                None => 0,
            },
            None => 0,
        };
        let channel_msat: u64 = match &reply.channels {
            Some(v) => match sum_channels(v) {
                Some(t) => t,
                None => 0,
            },
            None => 0,
        };
        Balance { onchain_sat: onchain_msat / 1000, channel_msat }
    }

    /// The request for the node's invoices, at most `limit` of them (10 when
    /// no limit is given).
    pub fn list_invoices_request(&self, limit: Option<usize>) -> (res: HttpRequest)
        ensures
            res@ == plain_request(
                HttpMethod::Post,
                self.base_url() + "/v1/listinvoices"@,
                RequestBodyView::ClnListInvoices { count: limit.unwrap_or(10) },
            ),
    {
        let count = match limit {
            Some(l) => l,
            None => 10,
        };
        HttpRequest {
            method: HttpMethod::Post,
            url: join_url(&self.url, "/v1/listinvoices"),
            header: None,
            body: RequestBody::ClnListInvoices { count },
        }
    }

    /// The invoices of a `listinvoices` reply, one for each entry, in order.
    pub fn invoices_from_reply(reply: &ClnListInvoicesReply) -> (res: Vec<Invoice>)
        ensures
            res.deep_view() == cln_invoices_view(*reply),
    {
        let mut out: Vec<Invoice> = Vec::new();
        match &reply.invoices {
            None => {
                assert(out.deep_view() =~= cln_invoices_view(*reply));
                out
            },
            Some(entries) => {
                let n = entries.len();
                let mut i: usize = 0;
                while i < n
                    invariant
                        n == entries@.len(),
                        i <= n,
                        out@.len() == i,
                        forall|k: int| 0 <= k < i ==> (#[trigger] out@[k])@ == cln_invoice_view(entries@[k]),
                    decreases n - i,
                {
                    out.push(invoice_from_entry(&entries[i]));
                    i = i + 1;
                }
                assert(out.deep_view() =~= cln_invoices_view(*reply));
                out
            },
        }
    }

    /// The request that decodes the payment request `bolt11`.
    pub fn decode_invoice_request(&self, bolt11: &str) -> (res: HttpRequest)
        ensures
            res@ == plain_request(
                HttpMethod::Post,
                self.base_url() + "/v1/decodepay"@,
                RequestBodyView::ClnBolt11 { bolt11: bolt11@ },
            ),
    {
        HttpRequest {
            method: HttpMethod::Post,
            url: join_url(&self.url, "/v1/decodepay"),
            header: None,
            body: RequestBody::ClnBolt11 { bolt11: String::from_str(bolt11) },
        }
    }

    /// What a `decodepay` reply says of a payment request.
    pub fn decoded_from_reply(reply: &ClnDecodePayReply) -> (res: DecodedInvoice)
        ensures
            res@ == (DecodedInvoiceView {
                amount_msat: reply.msatoshi,
                desc: reply.description.deep_view(),
                payee: reply.payee.deep_view(),
            }),
    {
        DecodedInvoice {
            amount_msat: reply.msatoshi,
            desc: clone_opt(&reply.description),
            payee: clone_opt(&reply.payee),
        }
    }

    /// The request that pays the payment request `bolt11`.
    pub fn pay_invoice_request(&self, bolt11: &str) -> (res: HttpRequest)
        ensures
            res@ == plain_request(
                HttpMethod::Post,
                self.base_url() + "/v1/pay"@,
                RequestBodyView::ClnBolt11 { bolt11: bolt11@ },
            ),
    {
        HttpRequest {
            method: HttpMethod::Post,
            url: join_url(&self.url, "/v1/pay"),
            header: None,
            body: RequestBody::ClnBolt11 { bolt11: String::from_str(bolt11) },
        }
    }

    /// The outcome of a payment from the node's `pay` reply.
    pub fn payment_from_reply(reply: &ClnPayReply) -> (res: Result<PaymentResult, DriverError>)
        ensures
            match res {
                Ok(p) => cln_payment_view(*reply) == Ok::<PaymentResultView, DriverErrorView>(p@),
                Err(e) => cln_payment_view(*reply) == Err::<PaymentResultView, DriverErrorView>(e@),
            },
    {
        if let Some(err) = &reply.error {
            return Err(DriverError::PaymentFailed(err.clone()));
        }
        let hash = match &reply.payment_hash {
            Some(h) => h.clone(),
            None => {
                return Err(DriverError::MissingField(ReplyField::PaymentHash));
            },
        };
        let amount_msat = match reply.amount_sent_msat {
            Some(a) => a,
            None => {
                return Err(DriverError::MissingField(ReplyField::AmountSentMsat));
            },
        };
        Ok(PaymentResult { hash, amount_msat, fee_msat: reply.total_fees_msats })
    }
}

} // verus!

verus! {

/// A `pay` reply that carries an error string is a refused payment, whatever
/// else it carries; without one, the payment stands exactly when the hash
/// and the amount sent are both present.
pub proof fn law_cln_payment_outcome(r: ClnPayReply)
    ensures
        r.error is Some ==> cln_payment_view(r) is Err,
        r.error is None ==> (cln_payment_view(r) is Ok <==> (r.payment_hash is Some
            && r.amount_sent_msat is Some)),
{
}

/// A refused payment carries the reply's error string; a payment that
/// stands carries the reply's payment hash, amount sent and total fees, as
/// the node reported them.
pub proof fn law_cln_payment_fields(r: ClnPayReply)
    ensures
        r.error matches Some(e) ==> cln_payment_view(r) == Err::<
            PaymentResultView,
            DriverErrorView,
        >(DriverErrorView::PaymentFailed(e@)),
        cln_payment_view(r) matches Ok(p) ==> {
            &&& r.payment_hash matches Some(h) && p.hash == h@
            &&& r.amount_sent_msat == Some(p.amount_msat)
            &&& p.fee_msat == r.total_fees_msats
        },
{
}

/// A `listfunds` reply with no outputs, or no array of them, holds nothing
/// on chain, and one with no channels, or no array of them, holds nothing in
/// channels.
pub proof fn law_cln_funds_empty(r: ClnListFundsReply)
    ensures
        (r.outputs is None || r.outputs->0@.len() == 0) ==> cln_onchain_msat(r) == 0,
        (r.channels is None || r.channels->0@.len() == 0) ==> cln_channel_msat(r) == 0,
{
}

/// One more output in a `listfunds` reply adds its millisatoshi (zero when
/// absent) to the on-chain funds exactly when its status is the string
/// `confirmed`; an output with any other status, or none, adds nothing.
/// The channel funds do not change.
pub proof fn law_cln_output_added(r1: ClnListFundsReply, r2: ClnListFundsReply, o: ClnFundOutput)
    requires
        r1.outputs is Some,
        r2.outputs is Some,
        r2.outputs->0@ == r1.outputs->0@.push(o),
        r2.channels == r1.channels,
    ensures
        (o.status matches Some(s) && s@ == "confirmed"@) ==> cln_onchain_msat(r2) == cln_onchain_msat(
            r1,
        ) + (match o.msatoshi {
            Some(m) => m as int,
            None => 0int,
        }),
        !(o.status matches Some(s) && s@ == "confirmed"@) ==> cln_onchain_msat(r2) == cln_onchain_msat(
            r1,
        ),
        cln_channel_msat(r2) == cln_channel_msat(r1),
{
    assert(r2.outputs->0@.drop_last() =~= r1.outputs->0@);
}

/// One more channel in a `listfunds` reply adds our side of it (zero when
/// absent) to the channel funds; the on-chain funds do not change.
pub proof fn law_cln_channel_added(r1: ClnListFundsReply, r2: ClnListFundsReply, c: ClnFundChannel)
    requires
        r1.channels is Some,
        r2.channels is Some,
        r2.channels->0@ == r1.channels->0@.push(c),
        r2.outputs == r1.outputs,
    ensures
        cln_channel_msat(r2) == cln_channel_msat(r1) + (match c.our_msatoshi {
            Some(m) => m as int,
            None => 0int,
        }),
        cln_onchain_msat(r2) == cln_onchain_msat(r1),
{
    assert(r2.channels->0@.drop_last() =~= r1.channels->0@);
}

/// Listing invoices gives one invoice per entry, in order. Its state is
/// `unpaid`, `paid` or `expired` for the codes 0, 1 and 2 (a missing code
/// reads as 0), and `unknown` for any other code below 2^32. Its hash and
/// amount are the entry's, or the empty string and zero when absent.
pub proof fn law_cln_invoice_list(r: ClnListInvoicesReply, i: int)
    requires
        r.invoices matches Some(v) && 0 <= i < v@.len(),
    ensures
        cln_invoices_view(r).len() == r.invoices->0@.len(),
        ({
            let e = r.invoices->0@[i];
            let inv = cln_invoices_view(r)[i];
            &&& (e.state is None || e.state == Some(0u64)) ==> inv.state == "unpaid"@
            &&& e.state == Some(1u64) ==> inv.state == "paid"@
            &&& e.state == Some(2u64) ==> inv.state == "expired"@
            &&& (e.state matches Some(k) && 2 < k < 0x1_0000_0000) ==> inv.state == "unknown"@
            &&& inv.amount_msat == (match e.msatoshi_received {
                Some(a) => a,
                None => 0u64,
            })
            &&& e.payment_hash matches Some(h) ==> inv.hash == h@
            &&& e.payment_hash is None ==> inv.hash == ""@
            &&& inv.bolt11 == e.bolt11.deep_view()
        }),
{
    let e = r.invoices->0@[i];
    assert(cln_invoices_view(r)[i] == cln_invoice_view(e));
}

} // verus!

verus! {

/// Whether `r` holds what the `getinfo` reply `v` says.
pub open spec fn cln_get_info_read(r: ClnGetInfoReply, v: Value) -> bool {
    r.alias.deep_view() == json_str_at(v, "alias"@) && r.id.deep_view() == json_str_at(v, "id"@)
}

/// Whether `o` holds what the `listfunds` output `v` says.
pub open spec fn cln_output_read(o: ClnFundOutput, v: Value) -> bool {
    o.status.deep_view() == json_str_at(v, "status"@) && o.msatoshi == json_u64_at(v, "msatoshi"@)
}

/// Whether `c` holds what the `listfunds` channel `v` says.
pub open spec fn cln_channel_read(c: ClnFundChannel, v: Value) -> bool {
    c.our_msatoshi == json_u64_at(v, "our_msatoshi"@)
}

/// Whether `r` holds what the `listfunds` reply `v` says: one record per
/// element of each array, in order.
pub open spec fn cln_list_funds_read(r: ClnListFundsReply, v: Value) -> bool {
    &&& match json_array_at(v, "outputs"@) {
        None => r.outputs is None,
        Some(a) => r.outputs matches Some(o) && o@.len() == a.len() && forall|i: int|
            0 <= i < a.len() ==> cln_output_read(#[trigger] o@[i], a[i]),
    }
    &&& match json_array_at(v, "channels"@) {
        None => r.channels is None,
        Some(a) => r.channels matches Some(c) && c@.len() == a.len() && forall|i: int|
            0 <= i < a.len() ==> cln_channel_read(#[trigger] c@[i], a[i]),
    }
}

/// Whether `e` holds what the `listinvoices` entry `v` says.
pub open spec fn cln_invoice_entry_read(e: ClnInvoiceEntry, v: Value) -> bool {
    &&& e.payment_hash.deep_view() == json_str_at(v, "payment_hash"@)
    &&& e.msatoshi_received == json_u64_at(v, "msatoshi_received"@)
    &&& e.state == json_u64_at(v, "state"@)
    &&& e.bolt11.deep_view() == json_str_at(v, "bolt11"@)
}

/// Whether `r` holds what the `listinvoices` reply `v` says.
pub open spec fn cln_list_invoices_read(r: ClnListInvoicesReply, v: Value) -> bool {
    match json_array_at(v, "invoices"@) {
        None => r.invoices is None,
        Some(a) => r.invoices matches Some(l) && l@.len() == a.len() && forall|i: int|
            0 <= i < a.len() ==> cln_invoice_entry_read(#[trigger] l@[i], a[i]),
    }
}

/// Whether `r` holds what the `pay` reply `v` says.
pub open spec fn cln_pay_read(r: ClnPayReply, v: Value) -> bool {
    &&& r.error.deep_view() == json_str_at(v, "error"@)
    &&& r.payment_hash.deep_view() == json_str_at(v, "payment_hash"@)
    &&& r.amount_sent_msat == json_u64_at(v, "amount_sent_msat"@)
    &&& r.total_fees_msats == json_u64_at(v, "total_fees_msats"@)
}

impl ClnGetInfoReply {
    /// The fields of the `getinfo` reply `v`.
    pub fn from_json(v: &Value) -> (res: ClnGetInfoReply)
        ensures
            cln_get_info_read(res, *v),
    {
        ClnGetInfoReply { alias: json_str(v, "alias"), id: json_str(v, "id") }
    }
}

impl ClnInvoiceReply {
    /// The field of the `invoice` reply `v`.
    pub fn from_json(v: &Value) -> (res: ClnInvoiceReply)
        ensures
            res.bolt11.deep_view() == json_str_at(*v, "bolt11"@),
    {
        ClnInvoiceReply { bolt11: json_str(v, "bolt11") }
    }
}

fn read_outputs(a: &Vec<Value>) -> (res: Vec<ClnFundOutput>)
    ensures
        res@.len() == a@.len(),
        forall|i: int| 0 <= i < a@.len() ==> cln_output_read(#[trigger] res@[i], a@[i]),
{
    let mut out: Vec<ClnFundOutput> = Vec::new();
    let n = a.len();
    let mut i: usize = 0;
    while i < n
        invariant
            n == a@.len(),
            i <= n,
            out@.len() == i,
            forall|k: int| 0 <= k < i ==> cln_output_read(#[trigger] out@[k], a@[k]),
        decreases n - i,
    {
        let o = &a[i];
        out.push(ClnFundOutput { status: json_str(o, "status"), msatoshi: json_u64(o, "msatoshi") });
        i = i + 1;
    }
    out
}

fn read_channels(a: &Vec<Value>) -> (res: Vec<ClnFundChannel>)
    ensures
        res@.len() == a@.len(),
        forall|i: int| 0 <= i < a@.len() ==> cln_channel_read(#[trigger] res@[i], a@[i]),
{
    let mut out: Vec<ClnFundChannel> = Vec::new();
    let n = a.len();
    let mut i: usize = 0;
    while i < n
        invariant
            n == a@.len(),
            i <= n,
            out@.len() == i,
            forall|k: int| 0 <= k < i ==> cln_channel_read(#[trigger] out@[k], a@[k]),
        decreases n - i,
    {
        out.push(ClnFundChannel { our_msatoshi: json_u64(&a[i], "our_msatoshi") });
        i = i + 1;
    }
    out
}

fn read_invoice_entries(a: &Vec<Value>) -> (res: Vec<ClnInvoiceEntry>)
    ensures
        res@.len() == a@.len(),
        forall|i: int| 0 <= i < a@.len() ==> cln_invoice_entry_read(#[trigger] res@[i], a@[i]),
{
    let mut out: Vec<ClnInvoiceEntry> = Vec::new();
    let n = a.len();
    let mut i: usize = 0;
    while i < n
        invariant
            n == a@.len(),
            i <= n,
            out@.len() == i,
            forall|k: int| 0 <= k < i ==> cln_invoice_entry_read(#[trigger] out@[k], a@[k]),
        decreases n - i,
    {
        let e = &a[i];
        out.push(
            ClnInvoiceEntry {
                payment_hash: json_str(e, "payment_hash"),
                msatoshi_received: json_u64(e, "msatoshi_received"),
                state: json_u64(e, "state"),
                bolt11: json_str(e, "bolt11"),
            },
        );
        i = i + 1;
    }
    out
}

impl ClnListFundsReply {
    /// The outputs and channels of the `listfunds` reply `v`.
    pub fn from_json(v: &Value) -> (res: ClnListFundsReply)
        ensures
            cln_list_funds_read(res, *v),
    {
        let outputs = match json_array(v, "outputs") {
            Some(a) => Some(read_outputs(&a)),
            None => None,
        };
        let channels = match json_array(v, "channels") {
            Some(a) => Some(read_channels(&a)),
            None => None,
        };
        ClnListFundsReply { outputs, channels }
    }
}

impl ClnListInvoicesReply {
    /// The invoices of the `listinvoices` reply `v`.
    pub fn from_json(v: &Value) -> (res: ClnListInvoicesReply)
        ensures
            cln_list_invoices_read(res, *v),
    {
        let invoices = match json_array(v, "invoices") {
            Some(a) => Some(read_invoice_entries(&a)),
            None => None,
        };
        ClnListInvoicesReply { invoices }
    }
}

impl ClnDecodePayReply {
    /// The fields of the `decodepay` reply `v`.
    pub fn from_json(v: &Value) -> (res: ClnDecodePayReply)
        ensures
            res.msatoshi == json_u64_at(*v, "msatoshi"@),
            res.description.deep_view() == json_str_at(*v, "description"@),
            res.payee.deep_view() == json_str_at(*v, "payee"@),
    {
        ClnDecodePayReply {
            msatoshi: json_u64(v, "msatoshi"),
            description: json_str(v, "description"),
            payee: json_str(v, "payee"),
        }
    }
}

impl ClnPayReply {
    /// The fields of the `pay` reply `v`.
    pub fn from_json(v: &Value) -> (res: ClnPayReply)
        ensures
            cln_pay_read(res, *v),
    {
        ClnPayReply {
            error: json_str(v, "error"),
            payment_hash: json_str(v, "payment_hash"),
            amount_sent_msat: json_u64(v, "amount_sent_msat"),
            total_fees_msats: json_u64(v, "total_fees_msats"),
        }
    }
}

} // verus!

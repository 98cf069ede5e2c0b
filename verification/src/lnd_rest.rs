//! LND, reached through its REST gateway with a macaroon header.

use vstd::prelude::*;
use crate::hex_codec::{normalize_hex, normalized_hex_spec};
use crate::model::{
    clone_opt, join_url, seq_or, string_or, Balance, DecodedInvoice, DecodedInvoiceView,
    DriverError, DriverErrorView, Header, HttpMethod, HttpRequest, HttpRequestView, Invoice,
    InvoiceView, NodeInfo, NodeInfoView, PaymentResult, PaymentResultView, ReplyField,
    RequestBody, RequestBodyView,
};
use crate::json::{json_array, json_array_at, json_bool, json_bool_at, json_str, json_str_at, json_u64, json_u64_at};
use serde_json::Value;
use crate::text::{
    decimal, strip_trailing_slashes, trim_trailing_slashes, trim_whitespace, trim_ws,
    u64_to_decimal,
};

verus! {

#[verifier::external_type_specification]
#[verifier::external_body]
pub struct ExCertificate(reqwest::Certificate);

/// Whether `pem` is a PEM-encoded X.509 certificate, as native TLS
/// (OpenSSL's `X509::from_pem`) reads it.
pub uninterp spec fn pem_certificate_parses(pem: Seq<u8>) -> bool;

/// The PEM bytes that a certificate holds: with rustls enabled, reqwest
/// keeps a copy of the bytes it was made from beside the parsed certificate.
pub uninterp spec fn certificate_pem(cert: reqwest::Certificate) -> Seq<u8>;

/// `reqwest::Certificate::from_pem(pem)`. With the TLS features this crate
/// selects (native TLS and rustls), reqwest parses the PEM with native TLS,
/// which fails on bytes that are not a PEM certificate, and keeps a copy of
/// the bytes for rustls. Whether parsing succeeds is named, as a function of
/// the bytes.
#[verifier::external_body]
fn certificate_from_pem(pem: &[u8]) -> (res: Option<reqwest::Certificate>)
    ensures
        res is Some <==> pem_certificate_parses(pem@),
        res matches Some(c) ==> certificate_pem(c) == pem@,
{
    reqwest::Certificate::from_pem(pem).ok()
}

/// An LND node behind a REST base URL, with the macaroon that authorises
/// requests and the path of the PEM file of its TLS certificate.
#[derive(Debug, Clone, PartialEq, Eq)]
pub struct LndRestClient {
    url: String,
    macaroon: String,
    cert_path: String,
}

/// The fields of a `getinfo` reply that the driver reads.
#[derive(Debug, Clone, PartialEq, Eq)]
pub struct LndGetInfoReply {
    pub alias: Option<String>,
    pub identity_pubkey: Option<String>,
}

/// The field of an `invoices` (add invoice) reply that the driver reads.
#[derive(Debug, Clone, PartialEq, Eq)]
pub struct LndAddInvoiceReply {
    pub payment_request: Option<String>,
}

/// The field of a wallet balance reply that the driver reads.
#[derive(Debug, Clone, Copy, PartialEq, Eq)]
pub struct LndWalletBalanceReply {
    pub confirmed_balance: Option<u64>,
}

/// The field of a channel balance reply that the driver reads.
#[derive(Debug, Clone, Copy, PartialEq, Eq)]
pub struct LndChannelBalanceReply {
    pub local_balance: Option<u64>,
}

/// One invoice of an invoice list reply.
#[derive(Debug, Clone, PartialEq, Eq)]
pub struct LndInvoiceEntry {
    pub r_hash: Option<String>,
    pub value_msat: Option<u64>,
    pub settled: Option<bool>,
    pub payment_request: Option<String>,
    pub memo: Option<String>,
}

/// The list of an invoice list reply, `None` when it is not an array.
#[derive(Debug, Clone, PartialEq, Eq)]
pub struct LndListInvoicesReply {
    pub invoices: Option<Vec<LndInvoiceEntry>>,
}

/// The fields of a `payreq` reply that the driver reads.
#[derive(Debug, Clone, PartialEq, Eq)]
pub struct LndPayReqReply {
    pub num_satoshis: Option<u64>,
    pub description: Option<String>,
    pub destination: Option<String>,
}

/// The fields of a `sendpaymentsync` reply that the driver reads.
#[derive(Debug, Clone, PartialEq, Eq)]
pub struct LndSendPaymentReply {
    pub payment_error: Option<String>,
    pub payment_hash: Option<String>,
    pub amount_msat: Option<u64>,
    pub fee_msat: Option<u64>,
}

/// The base URL, macaroon and certificate path that a client is made of, or
/// why it cannot be made: an empty certificate path is reported first, then a
/// macaroon that is not hex.
pub open spec fn lnd_rest_setup(host: Seq<char>, macaroon_hex: Seq<char>, cert_path: Seq<char>) -> Result<
    (Seq<char>, Seq<char>, Seq<char>),
    DriverErrorView,
> {
    if trim_ws(cert_path).len() == 0 {
        Err(DriverErrorView::CertPathRequired)
    } else {
        match normalized_hex_spec(macaroon_hex) {
            Err(e) => Err(DriverErrorView::Hex(e)),
            Ok(m) => Ok((trim_trailing_slashes(host), m, trim_ws(cert_path))),
        }
    }
}

/// The state name of an invoice list entry.
pub open spec fn lnd_settled_name(settled: Option<bool>) -> Seq<char> {
    if settled.unwrap_or(false) {
        "paid"@
    } else {
        "unpaid"@
    }
}

/// `None` for a missing or empty memo, else the memo.
pub open spec fn nonempty_memo(m: Option<Seq<char>>) -> Option<Seq<char>> {
    match m {
        Some(s) => if s.len() == 0 {
            None
        } else {
            Some(s)
        },
        None => None,
    }
}

/// The invoice that an invoice list entry stands for.
pub open spec fn lnd_invoice_view(e: LndInvoiceEntry) -> InvoiceView {
    InvoiceView {
        hash: seq_or(e.r_hash.deep_view(), ""@),
        amount_msat: e.value_msat.unwrap_or(0),
        state: lnd_settled_name(e.settled),
        bolt11: e.payment_request.deep_view(),
        desc: nonempty_memo(e.memo.deep_view()),
    }
}

/// The invoices of an invoice list reply, in order.
pub open spec fn lnd_invoices_view(r: LndListInvoicesReply) -> Seq<InvoiceView> {
    match r.invoices {
        Some(v) => v@.map_values(|e: LndInvoiceEntry| lnd_invoice_view(e)),
        None => Seq::empty(),
    }
}

/// What a `sendpaymentsync` reply means: a refusal whenever it carries an
/// error string (even an empty one), else the payment, which needs a hash
/// and an amount.
pub open spec fn lnd_payment_view(r: LndSendPaymentReply) -> Result<PaymentResultView, DriverErrorView> {
    match r.payment_error.deep_view() {
        Some(e) => Err(DriverErrorView::PaymentFailed(e)),
        None => match r.payment_hash.deep_view() {
            None => Err(DriverErrorView::MissingField(ReplyField::PaymentHash)),
            Some(h) => match r.amount_msat {
                None => Err(DriverErrorView::MissingField(ReplyField::AmountMsat)),
                Some(a) => Ok(PaymentResultView { hash: h, amount_msat: a, fee_msat: r.fee_msat }),
            },
        },
    }
}

fn invoice_from_entry(e: &LndInvoiceEntry) -> (res: Invoice)
    ensures
        res@ == lnd_invoice_view(*e),
{
    let settled = match e.settled {
        Some(b) => b,
        None => false,
    };
    let desc = match &e.memo {
        Some(m) => if m.as_str().is_empty() {
            None
        } else {
            Some(m.clone())
        },
        None => None,
    };
    Invoice {
        hash: string_or(&e.r_hash, ""),
        amount_msat: match e.value_msat {
            Some(a) => a,
            None => 0,
        },
        state: if settled {
            String::from_str("paid")
        } else {
            String::from_str("unpaid")
        },
        bolt11: clone_opt(&e.payment_request),
        desc,
    }
}

impl LndRestClient {
    /// The base URL, without trailing slashes.
    pub closed spec fn base_url(&self) -> Seq<char> {
        self.url@
    }

    /// The macaroon, as lowercase hex.
    pub closed spec fn macaroon_hex(&self) -> Seq<char> {
        self.macaroon@
    }

    /// The path of the PEM file of the node's TLS certificate.
    pub closed spec fn cert_file(&self) -> Seq<char> {
        self.cert_path@
    }

    /// A request to this node: the macaroon goes in the
    /// `Grpc-Metadata-macaroon` header.
    pub open spec fn request_view(&self, method: crate::model::HttpMethod, path: Seq<char>, body: RequestBodyView) -> HttpRequestView {
        HttpRequestView {
            method,
            url: self.base_url() + path,
            header: Some(("Grpc-Metadata-macaroon"@, self.macaroon_hex())),
            body,
        }
    }

    /// A client for the node at `host`, authorised by the macaroon
    /// `macaroon_hex` and trusting the certificate stored at `cert_path`
    /// (surrounding white space ignored). Reading that file is left to the
    /// caller.
    pub fn new(host: &str, macaroon_hex: &str, cert_path: &str) -> (res: Result<LndRestClient, DriverError>)
        ensures
            match res {
                Ok(c) => lnd_rest_setup(host@, macaroon_hex@, cert_path@) == Ok::<
                    (Seq<char>, Seq<char>, Seq<char>),
                    DriverErrorView,
                >((c.base_url(), c.macaroon_hex(), c.cert_file())),
                Err(e) => lnd_rest_setup(host@, macaroon_hex@, cert_path@) == Err::<
                    (Seq<char>, Seq<char>, Seq<char>),
                    DriverErrorView,
                >(e@),
            },
    {
        let path = trim_whitespace(cert_path);
        if path.is_empty() {
            return Err(DriverError::CertPathRequired);
        }
        let macaroon = match normalize_hex(macaroon_hex) {
            Ok(m) => m,
            Err(e) => {
                return Err(DriverError::Hex(e));
            },
        };
        Ok(
            LndRestClient {
                url: strip_trailing_slashes(host),
                macaroon,
                cert_path: String::from_str(path),
            },
        )
    }

    /// The path of the PEM file of the node's TLS certificate.
    pub fn cert_path(&self) -> (res: &str)
        ensures
            res@ == self.cert_file(),
    {
        self.cert_path.as_str()
    }

    /// The TLS certificate to trust, made of the contents `pem` of the file
    /// at `cert_path`; bytes that are not a PEM certificate are refused,
    /// naming that file.
    pub fn tls_certificate(&self, pem: &[u8]) -> (res: Result<reqwest::Certificate, DriverError>)
        ensures
            res is Ok <==> pem_certificate_parses(pem@),
            res matches Ok(c) ==> certificate_pem(c) == pem@,
            res matches Err(e) ==> e@ == DriverErrorView::InvalidCertificate(self.cert_file()),
    {
        match certificate_from_pem(pem) {
            Some(c) => Ok(c),
            None => Err(DriverError::InvalidCertificate(self.cert_path.clone())),
        }
    }

    fn request(&self, method: HttpMethod, path: &str, body: RequestBody) -> (res: HttpRequest)
        ensures
            res@ == self.request_view(method, path@, body@),
    {
        let name = String::from_str("Grpc-Metadata-macaroon");
        HttpRequest {
            method,
            url: join_url(&self.url, path),
            header: Some(Header { name, value: self.macaroon.clone() }),
            body,
        }
    }

    /// The request for the node's identity.
    pub fn get_info_request(&self) -> (res: HttpRequest)
        ensures
            res@ == self.request_view(HttpMethod::Get, "/v1/getinfo"@, RequestBodyView::NoBody),
    {
        self.request(HttpMethod::Get, "/v1/getinfo", RequestBody::NoBody)
    }

    /// The node's identity; a missing alias reads as `LND` and a missing key
    /// as `unknown`.
    pub fn node_info(reply: &LndGetInfoReply) -> (res: NodeInfo)
        ensures
            res@ == (NodeInfoView {
                alias: seq_or(reply.alias.deep_view(), "LND"@),
                identity_pubkey: seq_or(reply.identity_pubkey.deep_view(), "unknown"@),
            }),
    {
        NodeInfo {
            alias: string_or(&reply.alias, "LND"),
            identity_pubkey: string_or(&reply.identity_pubkey, "unknown"),
        }
    }

    /// The request that creates an invoice for `msat` millisatoshi with the
    /// memo `desc` (`rust` when there is none).
    pub fn create_invoice_request(&self, msat: u64, desc: Option<&str>) -> (res: HttpRequest)
        ensures
            res@ == self.request_view(
                HttpMethod::Post,
                "/v1/invoices"@,
                RequestBodyView::LndInvoice {
                    value_msat: msat,
                    memo: match desc {
                        Some(d) => d@,
                        None => "rust"@,
                    },
                },
            ),
    {
        let memo = match desc {
            Some(d) => String::from_str(d),
            None => String::from_str("rust"),
        };
        self.request(HttpMethod::Post, "/v1/invoices", RequestBody::LndInvoice { value_msat: msat, memo })
    }

    /// The payment request of a new invoice, which the reply must carry.
    pub fn invoice_from_reply(reply: &LndAddInvoiceReply) -> (res: Result<String, DriverError>)
        ensures
            match reply.payment_request {
                Some(p) => res matches Ok(s) && s@ == p@,
                None => res matches Err(e) && e@ == DriverErrorView::MissingField(
                    ReplyField::PaymentRequest,
                ),
            },
    {
        match &reply.payment_request {
            Some(p) => Ok(p.clone()),
            None => Err(DriverError::MissingField(ReplyField::PaymentRequest)),
        }
    }

    /// The request for the on-chain wallet balance.
    pub fn wallet_balance_request(&self) -> (res: HttpRequest)
        ensures
            res@ == self.request_view(HttpMethod::Get, "/v1/balance/wallet"@, RequestBodyView::NoBody),
    {
        self.request(HttpMethod::Get, "/v1/balance/wallet", RequestBody::NoBody)
    }

    /// The request for the channel balance.
    pub fn channel_balance_request(&self) -> (res: HttpRequest)
        ensures
            res@ == self.request_view(HttpMethod::Get, "/v1/balance/channels"@, RequestBodyView::NoBody),
    {
        self.request(HttpMethod::Get, "/v1/balance/channels", RequestBody::NoBody)
    }

    /// The node's funds from its two balance replies; a missing amount
    /// counts as zero.
    pub fn balance_from_replies(wallet: &LndWalletBalanceReply, channels: &LndChannelBalanceReply) -> (res: Balance)
        ensures
            res.onchain_sat == wallet.confirmed_balance.unwrap_or(0),
            res.channel_msat == channels.local_balance.unwrap_or(0),
    {
        Balance {
            onchain_sat: match wallet.confirmed_balance {
                Some(b) => b,
                None => 0,
            },
            channel_msat: match channels.local_balance {
                Some(b) => b,
                None => 0,
            },
        }
    }

    /// The request for the node's invoices, at most `limit` of them (10 when
    /// no limit is given).
    pub fn list_invoices_request(&self, limit: Option<usize>) -> (res: HttpRequest)
        ensures
            res@ == self.request_view(
                HttpMethod::Get,
                "/v1/invoices?num_max_invoices="@ + decimal(limit.unwrap_or(10) as nat),
                RequestBodyView::NoBody,
            ),
    {
        let n: usize = match limit {
            Some(l) => l,
            None => 10,
        };
        let mut path = String::from_str("/v1/invoices?num_max_invoices=");
        let digits = u64_to_decimal(n as u64);
        path.append(digits.as_str());
        self.request(HttpMethod::Get, path.as_str(), RequestBody::NoBody)
    }

    /// The invoices of an invoice list reply, one for each entry, in order.
    pub fn invoices_from_reply(reply: &LndListInvoicesReply) -> (res: Vec<Invoice>)
        ensures
            res.deep_view() == lnd_invoices_view(*reply),
    {
        let mut out: Vec<Invoice> = Vec::new();
        match &reply.invoices {
            None => {
                assert(out.deep_view() =~= lnd_invoices_view(*reply));
                out
            },
            Some(entries) => {
                let n = entries.len();
                let mut i: usize = 0;
                while i < n
                    invariant
                        n == entries@.len(),
                        i <= n,
                        out@.len() == i,
                        forall|k: int| 0 <= k < i ==> (#[trigger] out@[k])@ == lnd_invoice_view(entries@[k]),
                    decreases n - i,
                {
                    out.push(invoice_from_entry(&entries[i]));
                    i = i + 1;
                }
                assert(out.deep_view() =~= lnd_invoices_view(*reply));
                out
            },
        }
    }

    /// The request that decodes the payment request `bolt11`.
    pub fn decode_invoice_request(&self, bolt11: &str) -> (res: HttpRequest)
        ensures
            res@ == self.request_view(
                HttpMethod::Post,
                "/v1/payreq"@,
                RequestBodyView::LndPayReq { pay_req: bolt11@ },
            ),
    {
        self.request(HttpMethod::Post, "/v1/payreq", RequestBody::LndPayReq { pay_req: String::from_str(bolt11) })
    }

    /// Whether the amount of a `payreq` reply, in millisatoshi, fits in a
    /// `u64`, so that `decoded_from_reply` may be called.
    pub fn decoded_amount_fits(reply: &LndPayReqReply) -> (res: bool)
        ensures
            res == (reply.num_satoshis.unwrap_or(0) * 1000 <= u64::MAX),
    {
        match reply.num_satoshis {
            Some(n) => n <= u64::MAX / 1000,
            None => true,
        }
    }

    /// What a `payreq` reply says of a payment request; an amount of zero
    /// satoshi means no amount.
    pub fn decoded_from_reply(reply: &LndPayReqReply) -> (res: DecodedInvoice)
        requires
            reply.num_satoshis.unwrap_or(0) * 1000 <= u64::MAX,
        ensures
            res@ == (DecodedInvoiceView {
                amount_msat: if reply.num_satoshis.unwrap_or(0) == 0 {
                    None
                } else {
                    Some((reply.num_satoshis.unwrap_or(0) * 1000) as u64)
                },
                desc: reply.description.deep_view(),
                payee: reply.destination.deep_view(),
            }),
    {
        let num_sat: u64 = match reply.num_satoshis {
            Some(n) => n,
            None => 0,
        };
        let amount_msat = if num_sat == 0 {
            None
        } else {
            Some(num_sat * 1000)
        };
        DecodedInvoice {
            amount_msat,
            desc: clone_opt(&reply.description),
            payee: clone_opt(&reply.destination),
        }
    }

    /// The request that pays the payment request `bolt11` and waits for the
    /// outcome.
    pub fn pay_invoice_request(&self, bolt11: &str) -> (res: HttpRequest)
        ensures
            res@ == self.request_view(
                HttpMethod::Post,
                "/v1/sendpaymentsync"@,
                RequestBodyView::LndPaymentRequest { payment_request: bolt11@ },
            ),
    {
        self.request(
            HttpMethod::Post,
            "/v1/sendpaymentsync",
            RequestBody::LndPaymentRequest { payment_request: String::from_str(bolt11) },
        )
    }

    /// The outcome of a payment from the node's `sendpaymentsync` reply.
    pub fn payment_from_reply(reply: &LndSendPaymentReply) -> (res: Result<PaymentResult, DriverError>)
        ensures
            match res {
                Ok(p) => lnd_payment_view(*reply) == Ok::<PaymentResultView, DriverErrorView>(p@),
                Err(e) => lnd_payment_view(*reply) == Err::<PaymentResultView, DriverErrorView>(e@),
            },
    {
        if let Some(err) = &reply.payment_error {
            return Err(DriverError::PaymentFailed(err.clone()));
        }
        let hash = match &reply.payment_hash {
            Some(h) => h.clone(),
            None => {
                return Err(DriverError::MissingField(ReplyField::PaymentHash));
            },
        };
        let amount_msat = match reply.amount_msat {
            Some(a) => a,
            None => {
                return Err(DriverError::MissingField(ReplyField::AmountMsat));
            },
        };
        Ok(PaymentResult { hash, amount_msat, fee_msat: reply.fee_msat })
    }
}

} // verus!

verus! {

/// A `sendpaymentsync` reply that carries an error string is a refused
/// payment, whatever else it carries; without one, the payment stands
/// exactly when the hash and the amount are both present.
pub proof fn law_lnd_payment_outcome(r: LndSendPaymentReply)
    ensures
        r.payment_error is Some ==> lnd_payment_view(r) is Err,
        r.payment_error is None ==> (lnd_payment_view(r) is Ok <==> (r.payment_hash is Some
            && r.amount_msat is Some)),
{
}

/// A refused payment carries the reply's error string; a payment that
/// stands carries the reply's payment hash, amount and routing fee, as the
/// node reported them.
pub proof fn law_lnd_payment_fields(r: LndSendPaymentReply)
    ensures
        r.payment_error matches Some(e) ==> lnd_payment_view(r) == Err::<
            PaymentResultView,
            DriverErrorView,
        >(DriverErrorView::PaymentFailed(e@)),
        lnd_payment_view(r) matches Ok(p) ==> {
            &&& r.payment_hash matches Some(h) && p.hash == h@
            &&& r.amount_msat == Some(p.amount_msat)
            &&& p.fee_msat == r.fee_msat
        },
{
}

/// Listing invoices gives one invoice per entry, in order. Each is paid
/// exactly when its entry says `settled: true`, and unpaid when the entry
/// says `settled: false` or says nothing of it. Its amount is the entry's
/// `value_msat` (zero when absent), its payment request the entry's, and its
/// description the memo unless that is empty or absent.
pub proof fn law_lnd_invoice_list(r: LndListInvoicesReply, i: int)
    requires
        r.invoices matches Some(v) && 0 <= i < v@.len(),
    ensures
        lnd_invoices_view(r).len() == r.invoices->0@.len(),
        ({
            let e = r.invoices->0@[i];
            let inv = lnd_invoices_view(r)[i];
            &&& (inv.state == "paid"@) <==> e.settled == Some(true)
            &&& e.settled != Some(true) ==> inv.state == "unpaid"@
            &&& inv.amount_msat == (match e.value_msat {
                Some(a) => a,
                None => 0u64,
            })
            &&& inv.bolt11 == e.payment_request.deep_view()
            &&& e.memo matches Some(m) ==> (m@.len() > 0 ==> inv.desc == Some(m@))
            &&& e.memo matches Some(m) ==> (m@.len() == 0 ==> inv.desc is None)
            &&& e.memo is None ==> inv.desc is None
        }),
{
    reveal_strlit("paid");
    reveal_strlit("unpaid");
    assert("paid"@ != "unpaid"@) by {
        assert("paid"@.len() != "unpaid"@.len());
    }
    let e = r.invoices->0@[i];
    assert(lnd_invoices_view(r)[i] == lnd_invoice_view(e));
}

/// An invoice list reply without an array lists no invoice.
pub proof fn law_lnd_invoice_list_absent(r: LndListInvoicesReply)
    requires
        r.invoices is None,
    ensures
        lnd_invoices_view(r).len() == 0,
{
}

} // verus!

verus! {

/// Whether `e` holds what the invoice list entry `v` says.
pub open spec fn lnd_invoice_entry_read(e: LndInvoiceEntry, v: Value) -> bool {
    &&& e.r_hash.deep_view() == json_str_at(v, "r_hash"@)
    &&& e.value_msat == json_u64_at(v, "value_msat"@)
    &&& e.settled == json_bool_at(v, "settled"@)
    &&& e.payment_request.deep_view() == json_str_at(v, "payment_request"@)
    &&& e.memo.deep_view() == json_str_at(v, "memo"@)
}

/// Whether `r` holds what the invoice list reply `v` says.
pub open spec fn lnd_list_invoices_read(r: LndListInvoicesReply, v: Value) -> bool {
    match json_array_at(v, "invoices"@) {
        None => r.invoices is None,
        Some(a) => r.invoices matches Some(l) && l@.len() == a.len() && forall|i: int|
            0 <= i < a.len() ==> lnd_invoice_entry_read(#[trigger] l@[i], a[i]),
    }
}

/// Whether `r` holds what the `sendpaymentsync` reply `v` says.
pub open spec fn lnd_send_payment_read(r: LndSendPaymentReply, v: Value) -> bool {
    &&& r.payment_error.deep_view() == json_str_at(v, "payment_error"@)
    &&& r.payment_hash.deep_view() == json_str_at(v, "payment_hash"@)
    &&& r.amount_msat == json_u64_at(v, "amount_msat"@)
    &&& r.fee_msat == json_u64_at(v, "fee_msat"@)
}

impl LndGetInfoReply {
    /// The fields of the `getinfo` reply `v`.
    pub fn from_json(v: &Value) -> (res: LndGetInfoReply)
        ensures
            res.alias.deep_view() == json_str_at(*v, "alias"@),
            res.identity_pubkey.deep_view() == json_str_at(*v, "identity_pubkey"@),
    {
        LndGetInfoReply { alias: json_str(v, "alias"), identity_pubkey: json_str(v, "identity_pubkey") }
    }
}

impl LndAddInvoiceReply {
    /// The field of the add-invoice reply `v`.
    pub fn from_json(v: &Value) -> (res: LndAddInvoiceReply)
        ensures
            res.payment_request.deep_view() == json_str_at(*v, "payment_request"@),
    {
        LndAddInvoiceReply { payment_request: json_str(v, "payment_request") }
    }
}

impl LndWalletBalanceReply {
    /// The field of the wallet balance reply `v`.
    pub fn from_json(v: &Value) -> (res: LndWalletBalanceReply)
        ensures
            res.confirmed_balance == json_u64_at(*v, "confirmed_balance"@),
    {
        LndWalletBalanceReply { confirmed_balance: json_u64(v, "confirmed_balance") }
    }
}

impl LndChannelBalanceReply {
    /// The field of the channel balance reply `v`.
    pub fn from_json(v: &Value) -> (res: LndChannelBalanceReply)
        ensures
            res.local_balance == json_u64_at(*v, "local_balance"@),
    {
        LndChannelBalanceReply { local_balance: json_u64(v, "local_balance") }
    }
}

fn read_lnd_entries(a: &Vec<Value>) -> (res: Vec<LndInvoiceEntry>)
    ensures
        res@.len() == a@.len(),
        forall|i: int| 0 <= i < a@.len() ==> lnd_invoice_entry_read(#[trigger] res@[i], a@[i]),
{
    let mut out: Vec<LndInvoiceEntry> = Vec::new();
    let n = a.len();
    let mut i: usize = 0;
    while i < n
        invariant
            n == a@.len(),
            i <= n,
            out@.len() == i,
            forall|k: int| 0 <= k < i ==> lnd_invoice_entry_read(#[trigger] out@[k], a@[k]),
        decreases n - i,
    {
        let e = &a[i];
        out.push(
            LndInvoiceEntry {
                r_hash: json_str(e, "r_hash"),
                value_msat: json_u64(e, "value_msat"),
                settled: json_bool(e, "settled"),
                payment_request: json_str(e, "payment_request"),
                memo: json_str(e, "memo"),
            },
        );
        i = i + 1;
    }
    out
}

impl LndListInvoicesReply {
    /// The invoices of the invoice list reply `v`.
    pub fn from_json(v: &Value) -> (res: LndListInvoicesReply)
        ensures
            lnd_list_invoices_read(res, *v),
    {
        let invoices = match json_array(v, "invoices") {
            Some(a) => Some(read_lnd_entries(&a)),
            None => None,
        };
        LndListInvoicesReply { invoices }
    }
}

impl LndPayReqReply {
    /// The fields of the `payreq` reply `v`.
    pub fn from_json(v: &Value) -> (res: LndPayReqReply)
        ensures
            res.num_satoshis == json_u64_at(*v, "num_satoshis"@),
            res.description.deep_view() == json_str_at(*v, "description"@),
            res.destination.deep_view() == json_str_at(*v, "destination"@),
    {
        LndPayReqReply {
            num_satoshis: json_u64(v, "num_satoshis"),
            description: json_str(v, "description"),
            destination: json_str(v, "destination"),
        }
    }
}

impl LndSendPaymentReply {
    /// The fields of the `sendpaymentsync` reply `v`.
    pub fn from_json(v: &Value) -> (res: LndSendPaymentReply)
        ensures
            lnd_send_payment_read(res, *v),
    {
        LndSendPaymentReply {
            payment_error: json_str(v, "payment_error"),
            payment_hash: json_str(v, "payment_hash"),
            amount_msat: json_u64(v, "amount_msat"),
            fee_msat: json_u64(v, "fee_msat"),
        }
    }
}

} // verus!

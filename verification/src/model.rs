//! What the driver reports to its callers, what it asks a node for, and why
//! it fails.

use vstd::prelude::*;
use crate::hex_codec::HexError;

verus! {

/// Identity of a node.
#[derive(Debug, Clone, PartialEq, Eq)]
pub struct NodeInfo {
    pub alias: String,
    pub identity_pubkey: String,
}

/// `NodeInfo` with its strings as character sequences.
pub struct NodeInfoView {
    pub alias: Seq<char>,
    pub identity_pubkey: Seq<char>,
}

impl View for NodeInfo {
    type V = NodeInfoView;

    open spec fn view(&self) -> NodeInfoView {
        NodeInfoView { alias: self.alias@, identity_pubkey: self.identity_pubkey@ }
    }
}

/// Funds of a node: confirmed on-chain funds in satoshi and the local side of
/// its channels in millisatoshi.
#[derive(Debug, Clone, Copy, PartialEq, Eq)]
pub struct Balance {
    pub onchain_sat: u64,
    pub channel_msat: u64,
}

/// One invoice as a node lists it.
#[derive(Debug, Clone, PartialEq, Eq)]
pub struct Invoice {
    pub hash: String,
    pub amount_msat: u64,
    pub state: String,
    pub bolt11: Option<String>,
    pub desc: Option<String>,
}

/// `Invoice` with its strings as character sequences.
pub struct InvoiceView {
    pub hash: Seq<char>,
    pub amount_msat: u64,
    pub state: Seq<char>,
    pub bolt11: Option<Seq<char>>,
    pub desc: Option<Seq<char>>,
}

impl View for Invoice {
    type V = InvoiceView;

    open spec fn view(&self) -> InvoiceView {
        InvoiceView {
            hash: self.hash@,
            amount_msat: self.amount_msat,
            state: self.state@,
            bolt11: self.bolt11.deep_view(),
            desc: self.desc.deep_view(),
        }
    }
}

impl DeepView for Invoice {
    type V = InvoiceView;

    open spec fn deep_view(&self) -> InvoiceView {
        self@
    }
}

/// What a node reads out of a BOLT 11 payment request.
#[derive(Debug, Clone, PartialEq, Eq)]
pub struct DecodedInvoice {
    pub amount_msat: Option<u64>,
    pub desc: Option<String>,
    pub payee: Option<String>,
}

/// `DecodedInvoice` with its strings as character sequences.
pub struct DecodedInvoiceView {
    pub amount_msat: Option<u64>,
    pub desc: Option<Seq<char>>,
    pub payee: Option<Seq<char>>,
}

impl View for DecodedInvoice {
    type V = DecodedInvoiceView;

    open spec fn view(&self) -> DecodedInvoiceView {
        DecodedInvoiceView {
            amount_msat: self.amount_msat,
            desc: self.desc.deep_view(),
            payee: self.payee.deep_view(),
        }
    }
}

/// Outcome of a successful payment.
#[derive(Debug, Clone, PartialEq, Eq)]
pub struct PaymentResult {
    pub hash: String,
    pub amount_msat: u64,
    pub fee_msat: Option<u64>,
}

/// `PaymentResult` with its strings as character sequences.
pub struct PaymentResultView {
    pub hash: Seq<char>,
    pub amount_msat: u64,
    pub fee_msat: Option<u64>,
}

impl View for PaymentResult {
    type V = PaymentResultView;

    open spec fn view(&self) -> PaymentResultView {
        PaymentResultView { hash: self.hash@, amount_msat: self.amount_msat, fee_msat: self.fee_msat }
    }
}

/// A field that a node's reply must carry.
#[derive(Debug, Clone, Copy, PartialEq, Eq, Structural)]
pub enum ReplyField {
    Bolt11,
    PaymentRequest,
    PaymentHash,
    AmountSentMsat,
    AmountMsat,
}

/// An operation of the driver interface.
#[derive(Debug, Clone, Copy, PartialEq, Eq, Structural)]
pub enum Operation {
    DecodeInvoice,
    PayInvoice,
}

/// Why the driver could not do what was asked.
#[derive(Debug, Clone, PartialEq, Eq)]
pub enum DriverError {
    /// The node's reply lacks a field that the operation returns.
    MissingField(ReplyField),
    /// The node refused a payment, with its reason.
    PaymentFailed(String),
    /// The backend offers no such operation.
    NotImplemented(Operation),
    /// The TLS certificate path of the LND REST backend is empty.
    CertPathRequired,
    /// The certificate file at this path is not a PEM certificate.
    InvalidCertificate(String),
    /// The macaroon of the LND gRPC backend is not valid hex.
    InvalidMacaroonHex(HexError),
    /// A hex value (macaroon or certificate) is not valid hex.
    Hex(HexError),
}

/// `DriverError` with its strings as character sequences.
pub enum DriverErrorView {
    MissingField(ReplyField),
    PaymentFailed(Seq<char>),
    NotImplemented(Operation),
    CertPathRequired,
    InvalidCertificate(Seq<char>),
    InvalidMacaroonHex(HexError),
    Hex(HexError),
}

impl View for DriverError {
    type V = DriverErrorView;

    open spec fn view(&self) -> DriverErrorView {
        match self {
            DriverError::MissingField(f) => DriverErrorView::MissingField(*f),
            DriverError::PaymentFailed(s) => DriverErrorView::PaymentFailed(s@),
            DriverError::NotImplemented(o) => DriverErrorView::NotImplemented(*o),
            DriverError::CertPathRequired => DriverErrorView::CertPathRequired,
            DriverError::InvalidCertificate(p) => DriverErrorView::InvalidCertificate(p@),
            DriverError::InvalidMacaroonHex(e) => DriverErrorView::InvalidMacaroonHex(*e),
            DriverError::Hex(e) => DriverErrorView::Hex(*e),
        }
    }
}

/// HTTP method of a request to a node.
#[derive(Debug, Clone, Copy, PartialEq, Eq, Structural)]
pub enum HttpMethod {
    Get,
    Post,
}

/// A header sent with a request.
#[derive(Debug, Clone, PartialEq, Eq)]
pub struct Header {
    pub name: String,
    pub value: String,
}

/// The JSON body of a request; each variant is one JSON object whose keys
/// are the field names.
#[derive(Debug, Clone, PartialEq, Eq)]
pub enum RequestBody {
    /// No body.
    NoBody,
    /// The empty object `{}`.
    EmptyObject,
    /// `{"msatoshi", "label", "description"}`.
    ClnInvoice { msatoshi: u64, label: String, description: String },
    /// `{"count"}`.
    ClnListInvoices { count: usize },
    /// `{"bolt11"}`.
    ClnBolt11 { bolt11: String },
    /// `{"value_msat", "memo"}`.
    LndInvoice { value_msat: u64, memo: String },
    /// `{"pay_req"}`.
    LndPayReq { pay_req: String },
    /// `{"payment_request"}`.
    LndPaymentRequest { payment_request: String },
}

/// `RequestBody` with its strings as character sequences.
pub enum RequestBodyView {
    NoBody,
    EmptyObject,
    ClnInvoice { msatoshi: u64, label: Seq<char>, description: Seq<char> },
    ClnListInvoices { count: usize },
    ClnBolt11 { bolt11: Seq<char> },
    LndInvoice { value_msat: u64, memo: Seq<char> },
    LndPayReq { pay_req: Seq<char> },
    LndPaymentRequest { payment_request: Seq<char> },
}

impl View for RequestBody {
    type V = RequestBodyView;

    open spec fn view(&self) -> RequestBodyView {
        match self {
            RequestBody::NoBody => RequestBodyView::NoBody,
            RequestBody::EmptyObject => RequestBodyView::EmptyObject,
            RequestBody::ClnInvoice { msatoshi, label, description } => RequestBodyView::ClnInvoice {
                msatoshi: *msatoshi,
                label: label@,
                description: description@,
            },
            RequestBody::ClnListInvoices { count } => RequestBodyView::ClnListInvoices {
                count: *count,
            },
            RequestBody::ClnBolt11 { bolt11 } => RequestBodyView::ClnBolt11 { bolt11: bolt11@ },
            RequestBody::LndInvoice { value_msat, memo } => RequestBodyView::LndInvoice {
                value_msat: *value_msat,
                memo: memo@,
            },
            RequestBody::LndPayReq { pay_req } => RequestBodyView::LndPayReq { pay_req: pay_req@ },
            RequestBody::LndPaymentRequest { payment_request } =>
                RequestBodyView::LndPaymentRequest { payment_request: payment_request@ },
        }
    }
}

/// One HTTP request to a node's REST interface.
#[derive(Debug, Clone, PartialEq, Eq)]
pub struct HttpRequest {
    pub method: HttpMethod,
    pub url: String,
    pub header: Option<Header>,
    pub body: RequestBody,
}

/// `HttpRequest` with its strings as character sequences.
pub struct HttpRequestView {
    pub method: HttpMethod,
    pub url: Seq<char>,
    pub header: Option<(Seq<char>, Seq<char>)>,
    pub body: RequestBodyView,
}

impl View for HttpRequest {
    type V = HttpRequestView;

    open spec fn view(&self) -> HttpRequestView {
        HttpRequestView {
            method: self.method,
            url: self.url@,
            header: match self.header {
                Some(h) => Some((h.name@, h.value@)),
                None => None,
            },
            body: self.body@,
        }
    }
}

/// `base` followed by `path`.
pub fn join_url(base: &String, path: &str) -> (res: String)
    ensures
        res@ == base@ + path@,
{
    let mut out = base.clone();
    out.append(path);
    out
}

/// A copy of the optional string `s`.
pub fn clone_opt(s: &Option<String>) -> (res: Option<String>)
    ensures
        res.deep_view() == s.deep_view(),
{
    match s {
        Some(v) => Some(v.clone()),
        None => None,
    }
}

/// The string held by `s`, or `default`.
pub fn string_or(s: &Option<String>, default: &str) -> (res: String)
    ensures
        res@ == (match s {
            Some(v) => v@,
            None => default@,
        }),
{
    match s {
        Some(v) => v.clone(),
        None => String::from_str(default),
    }
}

} // verus!

verus! {

/// The string held by `o`, or `d`.
pub open spec fn seq_or(o: Option<Seq<char>>, d: Seq<char>) -> Seq<char> {
    match o {
        Some(s) => s,
        None => d,
    }
}

/// A request with no header.
pub open spec fn plain_request(method: HttpMethod, url: Seq<char>, body: RequestBodyView) -> HttpRequestView {
    HttpRequestView { method, url, header: None, body }
}

} // verus!

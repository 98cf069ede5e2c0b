//! LND, reached over gRPC: the connection arguments, the requests sent and
//! the reading of the replies.

use vstd::prelude::*;
use crate::hex_codec::{decode_hex, encode_hex, encode_utf8_of, hex_decode_spec, hex_lower, lower_hex_digits, HexError};
use crate::model::{NodeInfo, NodeInfoView, Balance, DecodedInvoice, DriverError, DriverErrorView, Invoice, InvoiceView, Operation, PaymentResult};
use crate::text::{i64_to_decimal, signed_decimal, trim_whitespace, trim_ws};

verus! {

/// What `lnd_grpc_rust::connect` is called with: the certificate and the
/// macaroon as lowercase hex, and the node's address.
#[derive(Debug, Clone, PartialEq, Eq)]
pub struct LndGrpcEndpoint {
    pub cert: String,
    pub macaroon: String,
    pub addr: String,
}

/// The invoice to add: amount and memo.
#[derive(Debug, Clone, PartialEq, Eq)]
pub struct GrpcInvoiceRequest {
    pub value_msat: i64,
    pub memo: String,
}

/// The wallet balance request.
#[derive(Debug, Clone, PartialEq, Eq)]
pub struct GrpcWalletBalanceRequest {
    pub account: String,
    pub min_confs: i32,
}

/// The invoice list request.
#[derive(Debug, Clone, Copy, PartialEq, Eq)]
pub struct GrpcListInvoiceRequest {
    pub num_max_invoices: u64,
}

/// An amount in both units, as LND reports channel balances.
#[derive(Debug, Clone, Copy, PartialEq, Eq)]
pub struct GrpcAmount {
    pub sat: u64,
    pub msat: u64,
}

/// The field of a wallet balance reply that the driver reads.
#[derive(Debug, Clone, Copy, PartialEq, Eq)]
pub struct GrpcWalletBalance {
    pub confirmed_balance: i64,
}

/// The field of a channel balance reply that the driver reads.
#[derive(Debug, Clone, Copy, PartialEq, Eq)]
pub struct GrpcChannelBalance {
    pub local_balance: Option<GrpcAmount>,
}

/// The fields of a listed invoice that the driver reads.
#[derive(Debug, Clone, PartialEq, Eq)]
pub struct GrpcInvoice {
    pub r_hash: Vec<u8>,
    pub value_msat: i64,
    pub state: i32,
    pub payment_request: String,
    pub memo: String,
}

/// The connection arguments made of a certificate and a macaroon in hex and
/// an address, or why they cannot be made: a macaroon that is not hex is
/// reported first, then a certificate that is neither blank nor hex. A blank
/// certificate is passed on as the empty string.
pub open spec fn lnd_grpc_endpoint(cert_hex: Seq<char>, macaroon_hex: Seq<char>, addr: Seq<char>) -> Result<
    (Seq<char>, Seq<char>, Seq<char>),
    DriverErrorView,
> {
    match hex_decode_spec(encode_utf8_of(macaroon_hex)) {
        Err(e) => Err(DriverErrorView::InvalidMacaroonHex(e)),
        Ok(mac) => if trim_ws(cert_hex).len() == 0 {
            Ok((Seq::<char>::empty(), hex_lower(mac), addr))
        } else {
            match hex_decode_spec(encode_utf8_of(cert_hex)) {
                Err(e) => Err(DriverErrorView::Hex(e)),
                Ok(cert) => Ok((hex_lower(cert), hex_lower(mac), addr)),
            }
        },
    }
}

/// The name of the invoice state `state`.
pub open spec fn grpc_state_name(state: i32) -> Seq<char> {
    if state == 0 {
        "open"@
    } else if state == 1 {
        "settled"@
    } else if state == 2 {
        "canceled"@
    } else if state == 3 {
        "accepted"@
    } else {
        "unknown: "@ + signed_decimal(state as int)
    }
}

/// `None` for the empty string, else the string.
pub open spec fn nonempty(s: Seq<char>) -> Option<Seq<char>> {
    if s.len() == 0 {
        None
    } else {
        Some(s)
    }
}

/// The invoice that a listed gRPC invoice stands for; a negative amount
/// counts as zero.
pub open spec fn grpc_invoice_view(i: GrpcInvoice) -> InvoiceView {
    InvoiceView {
        hash: hex_lower(i.r_hash@),
        amount_msat: if i.value_msat < 0 {
            0
        } else {
            i.value_msat as u64
        },
        state: grpc_state_name(i.state),
        bolt11: nonempty(i.payment_request@),
        desc: nonempty(i.memo@),
    }
}

/// The channel millisatoshi of a channel balance reply: the millisatoshi
/// amount when it is positive, else the satoshi amount converted.
pub open spec fn grpc_channel_msat(c: GrpcChannelBalance) -> int {
    match c.local_balance {
        Some(a) => if a.msat > 0 {
            a.msat as int
        } else {
            a.sat * 1000
        },
        None => 0,
    }
}

impl LndGrpcEndpoint {
    /// The arguments for connecting to the node at `addr` with the
    /// certificate `cert_hex` (may be blank) and the macaroon `macaroon_hex`.
    pub fn new(cert_hex: &str, macaroon_hex: &str, addr: &str) -> (res: Result<LndGrpcEndpoint, DriverError>)
        ensures
            match res {
                Ok(e) => lnd_grpc_endpoint(cert_hex@, macaroon_hex@, addr@) == Ok::<
                    (Seq<char>, Seq<char>, Seq<char>),
                    DriverErrorView,
                >((e.cert@, e.macaroon@, e.addr@)),
                Err(e) => lnd_grpc_endpoint(cert_hex@, macaroon_hex@, addr@) == Err::<
                    (Seq<char>, Seq<char>, Seq<char>),
                    DriverErrorView,
                >(e@),
            },
    {
        let mac = match decode_hex(macaroon_hex) {
            Ok(m) => m,
            Err(e) => {
                return Err(DriverError::InvalidMacaroonHex(e));
            },
        };
        let cert = if trim_whitespace(cert_hex).is_empty() {
            String::new()
        } else {
            match decode_hex(cert_hex) {
                Ok(bytes) => lower_hex_digits(bytes.as_slice()),
                Err(e) => {
                    return Err(DriverError::Hex(e));
                },
            }
        };
        Ok(
            LndGrpcEndpoint {
                cert,
                macaroon: encode_hex(mac.as_slice()),
                addr: String::from_str(addr),
            },
        )
    }
}

/// The node's identity from the alias and key of its `GetInfo` reply.
pub fn node_info(alias: String, identity_pubkey: String) -> (res: NodeInfo)
    ensures
        res@ == (NodeInfoView { alias: alias@, identity_pubkey: identity_pubkey@ }),
{
    NodeInfo { alias, identity_pubkey }
}

/// The invoice to add for `msat` millisatoshi (as a signed amount, as LND
/// takes it) with the memo `desc` (`rust` when there is none).
pub fn invoice_request(msat: u64, desc: Option<&str>) -> (res: GrpcInvoiceRequest)
    ensures
        res.value_msat == msat as i64,
        res.memo@ == (match desc {
            Some(d) => d@,
            None => "rust"@,
        }),
{
    GrpcInvoiceRequest {
        value_msat: msat as i64,
        memo: match desc {
            Some(d) => String::from_str(d),
            None => String::from_str("rust"),
        },
    }
}

/// The wallet balance request: the default account, outputs with at least
/// one confirmation.
pub fn wallet_balance_request() -> (res: GrpcWalletBalanceRequest)
    ensures
        res.account@ == ""@,
        res.min_confs == 1,
{
    GrpcWalletBalanceRequest { account: String::from_str(""), min_confs: 1 }
}

/// Whether the channel amount of `chan` fits in a `u64`, so that
/// `balance_from_replies` may be called.
pub fn channel_balance_fits(chan: &GrpcChannelBalance) -> (res: bool)
    ensures
        res == (grpc_channel_msat(*chan) <= u64::MAX),
{
    match chan.local_balance {
        Some(a) => a.msat > 0 || a.sat <= u64::MAX / 1000,
        None => true,
    }
}

/// The node's funds from its two balance replies; the confirmed on-chain
/// balance is taken as unsigned.
pub fn balance_from_replies(wallet: &GrpcWalletBalance, chan: &GrpcChannelBalance) -> (res: Balance)
    requires
        grpc_channel_msat(*chan) <= u64::MAX,
    ensures
        res.onchain_sat == wallet.confirmed_balance as u64,
        res.channel_msat == grpc_channel_msat(*chan),
{
    let channel_msat = match chan.local_balance {
        Some(a) => if a.msat > 0 {
            a.msat
        } else {
            a.sat * 1000
        },
        None => 0,
    };
    Balance { onchain_sat: wallet.confirmed_balance as u64, channel_msat }
}

/// The invoice list request for at most `limit` invoices (10 when no limit
/// is given).
pub fn list_invoices_request(limit: Option<usize>) -> (res: GrpcListInvoiceRequest)
    ensures
        res.num_max_invoices == limit.unwrap_or(10) as u64,
{
    let n: usize = match limit {
        Some(l) => l,
        None => 10,
    };
    GrpcListInvoiceRequest { num_max_invoices: n as u64 }
}

fn state_name(state: i32) -> (res: String)
    ensures
        res@ == grpc_state_name(state),
{
    if state == 0 {
        String::from_str("open")
    } else if state == 1 {
        String::from_str("settled")
    } else if state == 2 {
        String::from_str("canceled")
    } else if state == 3 {
        String::from_str("accepted")
    } else {
        let mut s = String::from_str("unknown: ");
        let digits = i64_to_decimal(state as i64);
        s.append(digits.as_str());
        s
    }
}

fn nonempty_string(s: &String) -> (res: Option<String>)
    ensures
        res.deep_view() == nonempty(s@),
{
    if s.as_str().is_empty() {
        None
    } else {
        Some(s.clone())
    }
}

fn invoice_from_grpc(i: &GrpcInvoice) -> (res: Invoice)
    ensures
        res@ == grpc_invoice_view(*i),
{
    Invoice {
        hash: encode_hex(i.r_hash.as_slice()),
        amount_msat: if i.value_msat < 0 {
            0
        } else {
            i.value_msat as u64
        },
        state: state_name(i.state),
        bolt11: nonempty_string(&i.payment_request),
        desc: nonempty_string(&i.memo),
    }
}

/// The invoices of an invoice list reply, one for each, in order.
pub fn invoices_from_reply(invoices: &Vec<GrpcInvoice>) -> (res: Vec<Invoice>)
    ensures
        res.deep_view() == invoices@.map_values(|i: GrpcInvoice| grpc_invoice_view(i)),
{
    let mut out: Vec<Invoice> = Vec::new();
    let n = invoices.len();
    let mut k: usize = 0;
    while k < n
        invariant
            n == invoices@.len(),
            k <= n,
            out@.len() == k,
            forall|j: int| 0 <= j < k ==> (#[trigger] out@[j])@ == grpc_invoice_view(invoices@[j]),
        decreases n - k,
    {
        out.push(invoice_from_grpc(&invoices[k]));
        k = k + 1;
    }
    assert(out.deep_view() =~= invoices@.map_values(|i: GrpcInvoice| grpc_invoice_view(i)));
    out
}

/// Decoding a payment request, which this binding does not offer.
pub fn decode_invoice() -> (res: Result<DecodedInvoice, DriverError>)
    ensures
        res matches Err(e) && e@ == DriverErrorView::NotImplemented(Operation::DecodeInvoice),
{
    Err(DriverError::NotImplemented(Operation::DecodeInvoice))
}

/// Paying a payment request, which this binding does not offer.
pub fn pay_invoice() -> (res: Result<PaymentResult, DriverError>)
    ensures
        res matches Err(e) && e@ == DriverErrorView::NotImplemented(Operation::PayInvoice),
{
    Err(DriverError::NotImplemented(Operation::PayInvoice))
}

} // verus!

verus! {

/// A non-blank certificate is passed to the gRPC connection in the same
/// canonical form as a normalised hex string, and so is the macaroon.
pub proof fn law_grpc_arguments_are_normalized_hex(cert_hex: Seq<char>, macaroon_hex: Seq<char>, addr: Seq<char>)
    ensures
        lnd_grpc_endpoint(cert_hex, macaroon_hex, addr) matches Ok(t) ==> (
        crate::hex_codec::normalized_hex_spec(macaroon_hex) == Ok::<Seq<char>, HexError>(t.1)
            && (trim_ws(cert_hex).len() != 0 ==> crate::hex_codec::normalized_hex_spec(cert_hex)
            == Ok::<Seq<char>, HexError>(t.0)) && t.2 == addr),
{
}

/// Both LND backends authorise with the same macaroon text for the same
/// configured macaroon.
pub proof fn law_lnd_backends_agree_on_macaroon(
    macaroon_hex: Seq<char>,
    rest_host: Seq<char>,
    cert_path: Seq<char>,
    cert_hex: Seq<char>,
    addr: Seq<char>,
)
    ensures
        crate::lnd_rest::lnd_rest_setup(rest_host, macaroon_hex, cert_path) is Ok
            && lnd_grpc_endpoint(cert_hex, macaroon_hex, addr) is Ok ==> crate::lnd_rest::lnd_rest_setup(
            rest_host,
            macaroon_hex,
            cert_path,
        )->Ok_0.1 == lnd_grpc_endpoint(cert_hex, macaroon_hex, addr)->Ok_0.1,
{
}

/// A listed gRPC invoice is `open`, `settled`, `canceled` or `accepted` for
/// the states 0 to 3, and `unknown: ` followed by the state otherwise. Its
/// amount is its `value_msat`, or zero when that is negative; its hash is
/// two hex digits per byte of `r_hash` and decodes back to it; an empty payment request or memo
/// is reported as none.
pub proof fn law_grpc_invoice_fields(i: GrpcInvoice)
    ensures
        ({
            let inv = grpc_invoice_view(i);
            &&& i.state == 0 ==> inv.state == "open"@
            &&& i.state == 1 ==> inv.state == "settled"@
            &&& i.state == 2 ==> inv.state == "canceled"@
            &&& i.state == 3 ==> inv.state == "accepted"@
            &&& (i.state < 0 || i.state > 3) ==> inv.state == "unknown: "@ + signed_decimal(
                i.state as int,
            )
            &&& i.value_msat >= 0 ==> inv.amount_msat == i.value_msat
            &&& i.value_msat < 0 ==> inv.amount_msat == 0
            &&& inv.hash.len() == 2 * i.r_hash@.len()
            &&& hex_decode_spec(encode_utf8_of(inv.hash)) == Ok::<Seq<u8>, HexError>(i.r_hash@)
            &&& (i.payment_request@.len() == 0 <==> inv.bolt11 is None)
            &&& i.payment_request@.len() > 0 ==> inv.bolt11 == Some(i.payment_request@)
            &&& (i.memo@.len() == 0 <==> inv.desc is None)
            &&& i.memo@.len() > 0 ==> inv.desc == Some(i.memo@)
        }),
{
    crate::hex_codec::law_hex_round_trip(i.r_hash@);
}

/// The channel funds are the reported millisatoshi when that is positive,
/// else the reported satoshi times 1000, and zero when nothing is reported.
pub proof fn law_grpc_channel_funds(c: GrpcChannelBalance)
    ensures
        c.local_balance is None ==> grpc_channel_msat(c) == 0,
        c.local_balance matches Some(a) ==> (a.msat > 0 ==> grpc_channel_msat(c) == a.msat),
        c.local_balance matches Some(a) ==> (a.msat == 0 ==> grpc_channel_msat(c) == a.sat * 1000),
{
}

} // verus!

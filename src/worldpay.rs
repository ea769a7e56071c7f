use vstd::prelude::*;
use vstd::string::*;

use crate::models::{PaymentEnvironment, PaymentItem};
use crate::money::fits_i64;

verus! {

/// The gateway credentials: one key for test payments, one for live ones.
pub struct WorldpayConfig {
    pub test_key: String,
    pub live_key: String,
}

/// The key a payment is charged with: chosen by the payment's own
/// environment, never by the caller.
pub open spec fn key_for(config: WorldpayConfig, environment: PaymentEnvironment) -> Seq<char> {
    match environment {
        PaymentEnvironment::LIVE => config.live_key@,
        PaymentEnvironment::TEST => config.test_key@,
    }
}

impl WorldpayConfig {
    pub fn key_for(&self, environment: PaymentEnvironment) -> (r: String)
        ensures
            r@ == key_for(*self, environment),
    {
        match environment {
            PaymentEnvironment::LIVE => self.live_key.clone(),
            PaymentEnvironment::TEST => self.test_key.clone(),
        }
    }
}

/// Billing address as the checkout form sends it.
pub struct BillingAddressData {
    pub address_line: Vec<String>,
    pub country: String,
    pub city: String,
    pub postal_code: String,
    pub region: String,
    pub phone: String,
}

/// Billing address as the gateway takes it: up to three address lines.
pub struct WorldpayBillingAddress {
    pub address1: String,
    pub address2: Option<String>,
    pub address3: Option<String>,
    pub postal_code: String,
    pub city: String,
    pub country_code: String,
    pub state: String,
    pub telephone_number: String,
}

pub open spec fn line_at(lines: Seq<String>, i: int) -> Option<Seq<char>> {
    if 0 <= i < lines.len() {
        Some(lines[i]@)
    } else {
        None
    }
}

pub open spec fn opt_view(o: Option<String>) -> Option<Seq<char>> {
    match o {
        Some(s) => Some(s@),
        None => None,
    }
}

/// The gateway's billing address for `data`: the first three address lines
/// (an empty first line when there is none), region as state.
pub open spec fn billing_address_matches(a: WorldpayBillingAddress, data: BillingAddressData) -> bool {
    &&& a.address1@ == (if data.address_line@.len() > 0 { data.address_line@[0]@ } else { Seq::empty() })
    &&& opt_view(a.address2) == line_at(data.address_line@, 1)
    &&& opt_view(a.address3) == line_at(data.address_line@, 2)
    &&& a.city@ == data.city@
    &&& a.state@ == data.region@
    &&& a.postal_code@ == data.postal_code@
    &&& a.country_code@ == data.country@
    &&& a.telephone_number@ == data.phone@
}

fn line_of(lines: &Vec<String>, i: usize) -> (r: Option<String>)
    ensures
        opt_view(r) == line_at(lines@, i as int),
{
    if i < lines.len() {
        Some(lines[i].clone())
    } else {
        None
    }
}

impl WorldpayBillingAddress {
    pub fn from(data: &BillingAddressData) -> (r: Self)
        ensures
            billing_address_matches(r, *data),
    {
        let address1 = match line_of(&data.address_line, 0) {
            Some(l) => l,
            None => String::new(),
        };
        WorldpayBillingAddress {
            address1,
            address2: line_of(&data.address_line, 1),
            address3: line_of(&data.address_line, 2),
            city: data.city.clone(),
            state: data.region.clone(),
            postal_code: data.postal_code.clone(),
            country_code: data.country.clone(),
            telephone_number: data.phone.clone(),
        }
    }
}

/// Card details as the checkout form sends them.
pub struct CardData {
    pub name: String,
    pub exp_month: u32,
    pub exp_year: u32,
    pub card_number: String,
    pub cvc: String,
}

/// Card details as the gateway takes them; `kind` is always "Card".
pub struct WorldpayCard {
    pub name: String,
    pub exp_month: u32,
    pub exp_year: u32,
    pub pan: String,
    pub kind: String,
    pub cvc: Option<String>,
}

impl WorldpayCard {
    pub fn new(name: &str, pan: &str, exp_month: u32, exp_year: u32, cvc: Option<&str>) -> (r: Self)
        ensures
            r.name@ == name@,
            r.pan@ == pan@,
            r.exp_month == exp_month,
            r.exp_year == exp_year,
            r.kind@ == "Card"@,
            match cvc {
                Some(c) => r.cvc matches Some(rc) && rc@ == c@,
                None => r.cvc is None,
            },
    {
        WorldpayCard {
            name: name.to_owned(),
            exp_month,
            exp_year,
            pan: pan.to_owned(),
            kind: String::from_str("Card"),
            cvc: match cvc {
                Some(s) => Some(s.to_owned()),
                None => None,
            },
        }
    }
}

/// What the gateway reports of an order.
#[derive(Clone, Copy, Debug, PartialEq, Eq, Structural)]
pub enum WorldpayOrderStatus {
    Success,
    Failed,
    SentForRefund,
    Refunded,
    PartiallyRefunded,
    Authorized,
    PreAuthorized,
    Cancelled,
    Expired,
    Settled,
    ChargedBack,
    InformationRequested,
    InformationSupplied,
}

/// The gateway's answer to an order or to a 3-D Secure completion.
pub struct WorldpayOrderResp {
    pub order_code: String,
    pub payment_status: WorldpayOrderStatus,
    pub card_issuer: String,
    pub masked_card_number: String,
    pub redirect_url: Option<String>,
    pub one_time_3ds_token: Option<String>,
}

/// The gateway could not be reached, or answered with an HTTP error.
#[derive(Clone, Copy, Debug, PartialEq, Eq, Structural)]
pub struct GatewayUnavailable;

/// The canonical reading of a gateway status.
#[derive(Clone, Copy, Debug, PartialEq, Eq, Structural)]
pub enum GatewayOutcome {
    /// Funds were captured or authorised.
    Captured,
    /// A 3-D Secure step is needed first.
    ChallengeRequired,
    Declined,
    /// Anything else; the payment stays open and the caller may retry.
    Unknown,
}

pub open spec fn outcome_of(status: WorldpayOrderStatus) -> GatewayOutcome {
    match status {
        WorldpayOrderStatus::Success | WorldpayOrderStatus::Authorized => GatewayOutcome::Captured,
        WorldpayOrderStatus::PreAuthorized => GatewayOutcome::ChallengeRequired,
        WorldpayOrderStatus::Failed => GatewayOutcome::Declined,
        _ => GatewayOutcome::Unknown,
    }
}

impl WorldpayOrderStatus {
    pub fn outcome(&self) -> (r: GatewayOutcome)
        ensures
            r == outcome_of(*self),
    {
        match self {
            WorldpayOrderStatus::Success | WorldpayOrderStatus::Authorized => GatewayOutcome::Captured,
            WorldpayOrderStatus::PreAuthorized => GatewayOutcome::ChallengeRequired,
            WorldpayOrderStatus::Failed => GatewayOutcome::Declined,
            _ => GatewayOutcome::Unknown,
        }
    }
}

/// Sum of `price * quantity` over `items`, in minor units.
pub open spec fn order_total(items: Seq<PaymentItem>) -> int
    decreases items.len(),
{
    if items.len() == 0 {
        0
    } else {
        order_total(items.drop_last()) + items.last().price * items.last().quantity
    }
}

/// Every running total of the order, line by line, fits in an `i64`.
pub open spec fn running_totals_fit(items: Seq<PaymentItem>) -> bool {
    forall|k: int| 0 < k <= items.len() ==> #[trigger] fits_i64(order_total(items.subrange(0, k)))
}

/// The order total in minor units, in exact integer arithmetic; `None` when a
/// running total leaves the `i64` range.
pub fn total_minor_units(items: &Vec<PaymentItem>) -> (r: Option<i64>)
    ensures
        r is Some <==> running_totals_fit(items@),
        r matches Some(t) ==> t == order_total(items@),
{
    let mut acc: i64 = 0;
    let mut i: usize = 0;
    assert(items@.subrange(0, 0) =~= Seq::<PaymentItem>::empty());
    while i < items.len()
        invariant
            i <= items@.len(),
            acc == order_total(items@.subrange(0, i as int)),
            forall|k: int| 0 < k <= i ==> #[trigger] fits_i64(order_total(items@.subrange(0, k))),
        decreases items@.len() - i,
    {
        let price = items[i].price;
        let quantity = items[i].quantity;
        assert(-0x8000_0000_0000_0000_0000_0000int <= price as int * quantity as int <= 0x8000_0000_0000_0000_0000_0000int)
            by (nonlinear_arith)
            requires
                i64::MIN <= price <= i64::MAX,
                i32::MIN <= quantity <= i32::MAX,
        ;
        let term: i128 = price as i128 * quantity as i128;
        let next: i128 = acc as i128 + term;
        assert(items@.subrange(0, i + 1).drop_last() =~= items@.subrange(0, i as int));
        assert(order_total(items@.subrange(0, i + 1)) == next);
        if next < i64::MIN as i128 || next > i64::MAX as i128 {
            assert(!fits_i64(order_total(items@.subrange(0, i + 1))));
            return None;
        }
        acc = next as i64;
        i = i + 1;
    }
    assert(items@.subrange(0, i as int) =~= items@);
    Some(acc)
}

/// The titles of `items`, separated by ", ".
pub open spec fn joined_titles(items: Seq<PaymentItem>) -> Seq<char>
    decreases items.len(),
{
    if items.len() == 0 {
        Seq::empty()
    } else if items.len() == 1 {
        items[0].title@
    } else {
        joined_titles(items.drop_last()) + ", "@ + items.last().title@
    }
}

pub fn order_description(items: &Vec<PaymentItem>) -> (r: String)
    ensures
        r@ == joined_titles(items@),
{
    let mut s = String::new();
    let mut i: usize = 0;
    assert(items@.subrange(0, 0) =~= Seq::<PaymentItem>::empty());
    while i < items.len()
        invariant
            i <= items@.len(),
            s@ == joined_titles(items@.subrange(0, i as int)),
        decreases items@.len() - i,
    {
        if i > 0 {
            s.append(", ");
        }
        s.append(items[i].title.as_str());
        assert(items@.subrange(0, i + 1).drop_last() =~= items@.subrange(0, i as int));
        i = i + 1;
    }
    assert(items@.subrange(0, i as int) =~= items@);
    s
}

/// ISO-8859-1 bytes of `s`, leaving out the characters it cannot represent.
pub open spec fn latin1_lossy(s: Seq<char>) -> Seq<u8>
    decreases s.len(),
{
    if s.len() == 0 {
        Seq::empty()
    } else if (s.last() as u32) < 256 {
        latin1_lossy(s.drop_last()).push(s.last() as u32 as u8)
    } else {
        latin1_lossy(s.drop_last())
    }
}

/// Relies on `encoding`'s ISO-8859-1 encoder with `EncoderTrap::Ignore`: code
/// points up to U+00FF become the byte of the same value, others are skipped,
/// and the encoding never fails.
#[verifier::external_body]
fn encode_latin1_lossy(s: &str) -> (r: Vec<u8>)
    ensures
        r@ == latin1_lossy(s@),
{
    match encoding::Encoding::encode(encoding::all::ISO_8859_1, s, encoding::EncoderTrap::Ignore) {
        Ok(bytes) => bytes,
        Err(_) => Vec::new(),
    }
}

/// The characters that ISO-8859-1 bytes stand for: each byte is the code
/// point of the same value.
pub open spec fn latin1_chars(b: Seq<u8>) -> Seq<char> {
    Seq::new(b.len(), |i: int| b[i] as char)
}

/// Relies on `encoding`'s ISO-8859-1 decoder: every byte decodes to the code
/// point of the same value, so decoding never fails.
#[verifier::external_body]
fn decode_latin1(bytes: &[u8]) -> (r: String)
    ensures
        r@ == latin1_chars(bytes@),
{
    match encoding::Encoding::decode(encoding::all::ISO_8859_1, bytes, encoding::DecoderTrap::Strict) {
        Ok(s) => s,
        Err(_) => String::new(),
    }
}

pub open spec fn text_or_empty(o: Option<String>) -> Seq<char> {
    match o {
        Some(s) => s@,
        None => Seq::empty(),
    }
}

/// "first last", a missing part left empty.
pub open spec fn full_name(first: Option<String>, last: Option<String>) -> Seq<char> {
    text_or_empty(first) + " "@ + text_or_empty(last)
}

/// The cardholder name the gateway gets: the full name restricted to what
/// ISO-8859-1 can represent (other characters are dropped).
pub open spec fn gateway_name(first: Option<String>, last: Option<String>) -> Seq<char> {
    latin1_chars(latin1_lossy(full_name(first, last)))
}

pub fn shopper_name(first: &Option<String>, last: &Option<String>) -> (r: String)
    ensures
        r@ == gateway_name(*first, *last),
{
    let mut name = String::new();
    match first {
        Some(f) => name.append(f.as_str()),
        None => {},
    }
    name.append(" ");
    match last {
        Some(l) => name.append(l.as_str()),
        None => {},
    }
    assert(name@ =~= full_name(*first, *last));
    let bytes = encode_latin1_lossy(name.as_str());
    decode_latin1(bytes.as_slice())
}

/// Who is paying, as the request that carried the checkout reports it.
pub struct ShopperInfo {
    pub ip_address: String,
    pub user_agent: String,
    pub accept_header: String,
    pub session_id: String,
}

/// A card order for the gateway. `customer_order_code` is the payment's id;
/// `amount` is in minor units of `currency_code`.
pub struct WorldpayOrder {
    pub order_type: String,
    pub order_description: String,
    pub customer_order_code: u128,
    pub amount: i64,
    pub currency_code: String,
    pub name: String,
    pub shopper_email_address: String,
    pub billing_address: WorldpayBillingAddress,
    pub shopper_ip_address: String,
    pub shopper_user_agent: String,
    pub shopper_accept_header: String,
    pub shopper_session_id: String,
    pub is_3ds_order: bool,
    pub authorize_only: bool,
    pub payment_method: WorldpayCard,
}

/// The answer to a 3-D Secure challenge, sent to the gateway against the
/// order code that the challenge was issued for.
pub struct WorldpayThreedsOrder {
    pub threeds_response_code: String,
    pub shopper_ip_address: String,
    pub shopper_user_agent: String,
    pub shopper_accept_header: String,
    pub shopper_session_id: String,
}

} // verus!

use vstd::prelude::*;
use vstd::utf8::encode_utf8;

use crate::db::CreatePaymentItem;
use crate::models::PaymentToken;
use crate::money::{minor_units_of, DecimalAmount};

verus! {

/// HMAC over SHA-512 of `message` under `key`.
pub uninterp spec fn hmac_sha512(key: Seq<u8>, message: Seq<u8>) -> Seq<u8>;

/// Relies on rust-crypto's `Hmac<Sha512>` (`Hmac::new`, `Mac::input`,
/// `Mac::result`): the MAC depends on key and message alone and is 64 bytes long.
#[verifier::external_body]
fn compute_hmac_sha512(key: &[u8], message: &[u8]) -> (r: Vec<u8>)
    ensures
        r@ == hmac_sha512(key@, message@),
        r@.len() == 64,
{
    let mut mac = crypto::hmac::Hmac::new(crypto::sha2::Sha512::new(), key);
    crypto::mac::Mac::input(&mut mac, message);
    crypto::mac::Mac::result(&mut mac).code().to_vec()
}

/// Relies on rust-crypto's `MacResult` equality (`util::fixed_time_eq`): true
/// exactly when the codes are equal, in time that does not depend on where
/// they differ. It reads the first byte unchecked, hence a non-empty `computed`.
#[verifier::external_body]
fn mac_matches(computed: &[u8], supplied: &[u8]) -> (r: bool)
    requires
        computed@.len() > 0,
    ensures
        r == (computed@ == supplied@),
{
    crypto::mac::MacResult::new(computed) == crypto::mac::MacResult::new(supplied)
}

/// ASCII decimal digits of `n`, most significant first, without leading zeros.
pub open spec fn decimal_digits(n: nat) -> Seq<u8>
    decreases n,
{
    if n < 10 {
        seq![(48 + n) as u8]
    } else {
        decimal_digits(n / 10).push((48 + n % 10) as u8)
    }
}

/// The decimal text of `v`, with a leading `-` when negative.
pub open spec fn decimal_text(v: int) -> Seq<u8> {
    if v < 0 {
        seq![45u8] + decimal_digits((-v) as nat)
    } else {
        decimal_digits(v as nat)
    }
}

/// An order line as signed by an upstream system: its fields with the
/// 64-byte signature.
pub struct SignedItem {
    pub item_type: String,
    pub item_data: String,
    pub title: String,
    pub quantity: i32,
    pub price: DecimalAmount,
    pub sig: Vec<u8>,
}

/// The bytes that are signed for an item: type, data, title, quantity and the
/// price in minor units, as text, one after the other.
pub open spec fn signed_message(
    item_type: Seq<char>,
    item_data: Seq<char>,
    title: Seq<char>,
    quantity: int,
    price_minor: int,
) -> Seq<u8> {
    encode_utf8(item_type) + encode_utf8(item_data) + encode_utf8(title) + decimal_text(quantity)
        + decimal_text(price_minor)
}

pub open spec fn item_message(item: SignedItem) -> Seq<u8> {
    signed_message(
        item.item_type@,
        item.item_data@,
        item.title@,
        item.quantity as int,
        minor_units_of(item.price.mantissa as int, item.price.scale as nat),
    )
}

/// Some token of `tokens` gives `sig` as the MAC of `message`.
pub open spec fn signed_by_any(tokens: Seq<PaymentToken>, message: Seq<u8>, sig: Seq<u8>) -> bool {
    exists|i: int| 0 <= i < tokens.len() && hmac_sha512(#[trigger] tokens[i].token@, message) == sig
}

pub open spec fn price_fits(price: DecimalAmount) -> bool {
    crate::money::fits_i64(minor_units_of(price.mantissa as int, price.scale as nat))
}

/// An item is accepted when its price has a minor-unit value and some token
/// signed it.
pub open spec fn item_accepted(item: SignedItem, tokens: Seq<PaymentToken>) -> bool {
    price_fits(item.price) && signed_by_any(tokens, item_message(item), item.sig@)
}

proof fn lemma_digits_nonempty(n: nat)
    ensures
        decimal_digits(n).len() >= 1,
    decreases n,
{
    if n >= 10 {
        lemma_digits_nonempty(n / 10);
    }
}

fn push_digits(out: &mut Vec<u8>, n: u64)
    ensures
        final(out)@ == old(out)@ + decimal_digits(n as nat),
    decreases n,
{
    if n >= 10 {
        push_digits(out, n / 10);
    }
    out.push((48 + n % 10) as u8);
    assert(final(out)@ =~= old(out)@ + decimal_digits(n as nat));
}

/// Appends the decimal text of `v`.
pub fn push_decimal(out: &mut Vec<u8>, v: i64)
    ensures
        final(out)@ == old(out)@ + decimal_text(v as int),
{
    if v < 0 {
        out.push(45u8);
        let a: u64 = ((-(v + 1)) as u64) + 1;
        push_digits(out, a);
        assert(final(out)@ =~= old(out)@ + decimal_text(v as int));
    } else {
        push_digits(out, v as u64);
    }
}

fn push_bytes(out: &mut Vec<u8>, bytes: &[u8])
    ensures
        final(out)@ == old(out)@ + bytes@,
{
    let mut i: usize = 0;
    while i < bytes.len()
        invariant
            i <= bytes@.len(),
            out@ == old(out)@ + bytes@.subrange(0, i as int),
        decreases bytes@.len() - i,
    {
        out.push(bytes[i]);
        i = i + 1;
        assert(out@ =~= old(out)@ + bytes@.subrange(0, i as int));
    }
    assert(bytes@.subrange(0, i as int) =~= bytes@);
}

/// The bytes an upstream system signs for one order line.
pub fn message_bytes(item_type: &str, item_data: &str, title: &str, quantity: i32, price_minor: i64) -> (r:
    Vec<u8>)
    ensures
        r@ == signed_message(item_type@, item_data@, title@, quantity as int, price_minor as int),
{
    let mut out: Vec<u8> = Vec::new();
    push_bytes(&mut out, item_type.as_bytes());
    push_bytes(&mut out, item_data.as_bytes());
    push_bytes(&mut out, title.as_bytes());
    push_decimal(&mut out, quantity as i64);
    push_decimal(&mut out, price_minor);
    assert(out@ =~= signed_message(item_type@, item_data@, title@, quantity as int, price_minor as int));
    out
}

/// Whether some token signed `message` as `sig`. Every token is tried, so
/// the time taken does not tell which one matched.
pub fn signature_matches(message: &Vec<u8>, sig: &Vec<u8>, tokens: &Vec<PaymentToken>) -> (r: bool)
    ensures
        r == signed_by_any(tokens@, message@, sig@),
{
    let mut validated = false;
    let mut i: usize = 0;
    while i < tokens.len()
        invariant
            i <= tokens@.len(),
            validated == exists|k: int| 0 <= k < i && hmac_sha512(#[trigger] tokens@[k].token@, message@) == sig@,
        decreases tokens@.len() - i,
    {
        let mac = compute_hmac_sha512(tokens[i].token.as_slice(), message.as_slice());
        if mac_matches(mac.as_slice(), sig.as_slice()) {
            validated = true;
        }
        i = i + 1;
    }
    validated
}

impl SignedItem {
    /// Whether the item is accepted under `tokens`.
    pub fn verify(&self, tokens: &Vec<PaymentToken>) -> (r: bool)
        ensures
            r == item_accepted(*self, tokens@),
    {
        let price = match self.price.to_minor_units() {
            Some(p) => p,
            None => {
                return false;
            },
        };
        let message = message_bytes(
            self.item_type.as_str(),
            self.item_data.as_str(),
            self.title.as_str(),
            self.quantity,
            price,
        );
        signature_matches(&message, &self.sig, tokens)
    }
}

/// Checks a whole batch: every item must be accepted, or none is. `ids`
/// gives the id of each resulting line.
pub fn verify_signed_items(items: &Vec<SignedItem>, tokens: &Vec<PaymentToken>, ids: &Vec<u128>) -> (r: Option<
    Vec<CreatePaymentItem>,
>)
    requires
        ids@.len() == items@.len(),
    ensures
        r is Some <==> forall|i: int| 0 <= i < items@.len() ==> item_accepted(#[trigger] items@[i], tokens@),
        r matches Some(v) ==> v@.len() == items@.len() && forall|i: int|
            0 <= i < items@.len() ==> {
                &&& (#[trigger] v@[i]).id == ids@[i]
                &&& v@[i].item_type@ == items@[i].item_type@
                &&& v@[i].item_data@ == items@[i].item_data@
                &&& v@[i].title@ == items@[i].title@
                &&& v@[i].quantity == items@[i].quantity
                &&& v@[i].price == items@[i].price
            },
{
    let mut out: Vec<CreatePaymentItem> = Vec::new();
    let mut i: usize = 0;
    while i < items.len()
        invariant
            i <= items@.len(),
            ids@.len() == items@.len(),
            out@.len() == i,
            forall|k: int| 0 <= k < i ==> item_accepted(#[trigger] items@[k], tokens@),
            forall|k: int|
                0 <= k < i ==> {
                    &&& (#[trigger] out@[k]).id == ids@[k]
                    &&& out@[k].item_type@ == items@[k].item_type@
                    &&& out@[k].item_data@ == items@[k].item_data@
                    &&& out@[k].title@ == items@[k].title@
                    &&& out@[k].quantity == items@[k].quantity
                    &&& out@[k].price == items@[k].price
                },
        decreases items@.len() - i,
    {
        let item = &items[i];
        if !item.verify(tokens) {
            return None;
        }
        out.push(
            CreatePaymentItem::new(
                ids[i],
                item.item_type.as_str(),
                item.item_data.as_str(),
                item.title.as_str(),
                item.quantity,
                &item.price,
            ),
        );
        i = i + 1;
    }
    Some(out)
}

/// The value of one hexadecimal digit, either case.
pub open spec fn hex_digit(c: char) -> Option<u8> {
    if '0' <= c <= '9' {
        Some((c as u32 - 48) as u8)
    } else if 'a' <= c <= 'f' {
        Some((c as u32 - 87) as u8)
    } else if 'A' <= c <= 'F' {
        Some((c as u32 - 55) as u8)
    } else {
        None
    }
}

pub open spec fn all_hex(s: Seq<char>) -> bool {
    forall|i: int| 0 <= i < s.len() ==> (#[trigger] hex_digit(s[i])) is Some
}

/// `b` is what the hexadecimal text `s` spells, two digits per byte, high digit first.
pub open spec fn hex_spells(s: Seq<char>, b: Seq<u8>) -> bool {
    &&& s.len() == 2 * b.len()
    &&& forall|i: int|
        0 <= i < b.len() ==> #[trigger] b[i] == 16 * hex_digit(s[2 * i])->Some_0 + hex_digit(s[2 * i + 1])->Some_0
}

fn hex_digit_of(c: char) -> (r: Option<u8>)
    ensures
        r == hex_digit(c),
{
    if '0' <= c && c <= '9' {
        Some((c as u32 - 48) as u8)
    } else if 'a' <= c && c <= 'f' {
        Some((c as u32 - 87) as u8)
    } else if 'A' <= c && c <= 'F' {
        Some((c as u32 - 55) as u8)
    } else {
        None
    }
}

/// An item signature as sent: exactly 128 hexadecimal digits for 64 bytes.
pub fn decode_signature_hex(s: &str) -> (r: Option<Vec<u8>>)
    ensures
        r is Some <==> s@.len() == 128 && all_hex(s@),
        r matches Some(b) ==> b@.len() == 64 && hex_spells(s@, b@),
{
    let n = s.unicode_len();
    if n != 128 {
        return None;
    }
    let mut out: Vec<u8> = Vec::new();
    let mut i: usize = 0;
    while i < 64
        invariant
            i <= 64,
            n == s@.len() == 128,
            out@.len() == i,
            forall|k: int| 0 <= k < 2 * i ==> (#[trigger] hex_digit(s@[k])) is Some,
            forall|k: int|
                0 <= k < i ==> #[trigger] out@[k] == 16 * hex_digit(s@[2 * k])->Some_0 + hex_digit(s@[2 * k + 1])->Some_0,
        decreases 64 - i,
    {
        let hi = match hex_digit_of(s.get_char(2 * i)) {
            Some(v) => v,
            None => {
                return None;
            },
        };
        let lo = match hex_digit_of(s.get_char(2 * i + 1)) {
            Some(v) => v,
            None => {
                return None;
            },
        };
        out.push(16 * hi + lo);
        i = i + 1;
    }
    Some(out)
}

} // verus!

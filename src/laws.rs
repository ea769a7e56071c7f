use vstd::prelude::*;
use vstd::utf8::{encode_utf8, encode_utf8_decode_utf8};

use crate::charge::{challenge_pending, charge_check, charge_guard, ChargeError};
use crate::models::{Payment, PaymentItem, PaymentState, PaymentToken, ThreedsData};
use crate::money::{minor_units_of, pow10, DecimalAmount};
use crate::signing::{
    decimal_digits, decimal_text, hmac_sha512, item_accepted, item_message, price_fits, SignedItem,
};
use crate::worldpay::{order_total, running_totals_fit};

verus! {

/// No token of `tokens` gives the item's signature.
pub open spec fn signed_by_none(tokens: Seq<PaymentToken>, item: SignedItem) -> bool {
    forall|t: int| 0 <= t < tokens.len() ==> hmac_sha512(#[trigger] tokens[t].token@, item_message(item)) != item.sig@
}

/// A batch whose every item was signed with one token of the set is accepted
/// whole; under a token set that signed none of one of its items, the batch
/// is refused (`verify_signed_items` and `begin_charge` accept a batch exactly
/// when every item is accepted).
pub proof fn lemma_batch_signature_verification(
    items: Seq<SignedItem>,
    tokens: Seq<PaymentToken>,
    signer: int,
    other_tokens: Seq<PaymentToken>,
)
    requires
        0 <= signer < tokens.len(),
        forall|i: int| 0 <= i < items.len() ==> price_fits(#[trigger] items[i].price),
        forall|i: int|
            0 <= i < items.len() ==> hmac_sha512(tokens[signer].token@, item_message(#[trigger] items[i])) == items[i].sig@,
    ensures
        forall|i: int| 0 <= i < items.len() ==> item_accepted(#[trigger] items[i], tokens),
        (exists|i: int| 0 <= i < items.len() && signed_by_none(other_tokens, #[trigger] items[i]))
            ==> exists|i: int| 0 <= i < items.len() && !item_accepted(#[trigger] items[i], other_tokens),
{
    assert forall|i: int| 0 <= i < items.len() implies item_accepted(#[trigger] items[i], tokens) by {
        assert(hmac_sha512(tokens[signer].token@, item_message(items[i])) == items[i].sig@);
    }
    if exists|i: int| 0 <= i < items.len() && signed_by_none(other_tokens, #[trigger] items[i]) {
        let i = choose|i: int| 0 <= i < items.len() && signed_by_none(other_tokens, #[trigger] items[i]);
        assert(!item_accepted(items[i], other_tokens));
    }
}

proof fn lemma_digits_bounds(n: nat)
    ensures
        decimal_digits(n).len() >= 1,
        n >= 10 ==> decimal_digits(n).len() >= 2,
        48 <= decimal_digits(n)[0] <= 57,
    decreases n,
{
    if n >= 10 {
        lemma_digits_bounds(n / 10);
    }
}

proof fn lemma_digits_injective(a: nat, b: nat)
    requires
        decimal_digits(a) == decimal_digits(b),
    ensures
        a == b,
    decreases a,
{
    lemma_digits_bounds(a);
    lemma_digits_bounds(b);
    let da = decimal_digits(a);
    if a >= 10 && b >= 10 {
        assert(da.last() == (48 + a % 10) as u8);
        assert(da.drop_last() == decimal_digits(a / 10));
        assert(decimal_digits(b).drop_last() == decimal_digits(b / 10));
        lemma_digits_injective(a / 10, b / 10);
    } else if a < 10 && b < 10 {
        assert(da[0] == (48 + a) as u8);
    }
}

/// Different integers have different decimal texts.
pub proof fn lemma_decimal_text_injective(a: int, b: int)
    requires
        decimal_text(a) == decimal_text(b),
    ensures
        a == b,
{
    if a < 0 && b < 0 {
        assert(decimal_text(a).drop_first() == decimal_digits((-a) as nat));
        assert(decimal_text(b).drop_first() == decimal_digits((-b) as nat));
        lemma_digits_injective((-a) as nat, (-b) as nat);
    } else if a >= 0 && b >= 0 {
        lemma_digits_injective(a as nat, b as nat);
    } else if a < 0 {
        lemma_digits_bounds(b as nat);
        assert(decimal_text(a)[0] == 45u8);
    } else {
        lemma_digits_bounds(a as nat);
        assert(decimal_text(b)[0] == 45u8);
    }
}

proof fn lemma_middle_differs(pre: Seq<u8>, m1: Seq<u8>, m2: Seq<u8>, post: Seq<u8>)
    requires
        m1 != m2,
    ensures
        pre + m1 + post != pre + m2 + post,
{
    let x = pre + m1 + post;
    let y = pre + m2 + post;
    if m1.len() == m2.len() {
        if x == y {
            assert(m1 =~= x.subrange(pre.len() as int, (pre.len() + m1.len()) as int));
            assert(m2 =~= y.subrange(pre.len() as int, (pre.len() + m2.len()) as int));
        }
    } else {
        assert(x.len() != y.len());
    }
}

proof fn lemma_encode_injective(a: Seq<char>, b: Seq<char>)
    requires
        a != b,
    ensures
        encode_utf8(a) != encode_utf8(b),
{
    encode_utf8_decode_utf8(a);
    encode_utf8_decode_utf8(b);
}

/// Two items that differ in exactly one signed field (type, data, title,
/// quantity, or price in minor units) have different signed messages, so a
/// signature made for one is checked against a different message for the other.
pub proof fn lemma_tampering_changes_message(a: SignedItem, b: SignedItem)
    requires
        price_fits(a.price),
        price_fits(b.price),
        ({
            let pa = minor_units_of(a.price.mantissa as int, a.price.scale as nat);
            let pb = minor_units_of(b.price.mantissa as int, b.price.scale as nat);
            let same_type = a.item_type@ == b.item_type@;
            let same_data = a.item_data@ == b.item_data@;
            let same_title = a.title@ == b.title@;
            let same_quantity = a.quantity == b.quantity;
            let same_price = pa == pb;
            ||| !same_type && same_data && same_title && same_quantity && same_price
            ||| same_type && !same_data && same_title && same_quantity && same_price
            ||| same_type && same_data && !same_title && same_quantity && same_price
            ||| same_type && same_data && same_title && !same_quantity && same_price
            ||| same_type && same_data && same_title && same_quantity && !same_price
        }),
    ensures
        item_message(a) != item_message(b),
{
    let pa = minor_units_of(a.price.mantissa as int, a.price.scale as nat);
    let pb = minor_units_of(b.price.mantissa as int, b.price.scale as nat);
    let t1 = encode_utf8(a.item_type@);
    let t2 = encode_utf8(b.item_type@);
    let d1 = encode_utf8(a.item_data@);
    let d2 = encode_utf8(b.item_data@);
    let n1 = encode_utf8(a.title@);
    let n2 = encode_utf8(b.title@);
    let qty_a = decimal_text(a.quantity as int);
    let qty_b = decimal_text(b.quantity as int);
    let price_a = decimal_text(pa);
    let price_b = decimal_text(pb);
    assert(item_message(a) == t1 + d1 + n1 + qty_a + price_a);
    assert(item_message(b) == t2 + d2 + n2 + qty_b + price_b);
    if a.item_type@ != b.item_type@ {
        lemma_encode_injective(a.item_type@, b.item_type@);
        lemma_middle_differs(Seq::empty(), t1, t2, d1 + n1 + qty_a + price_a);
        assert(t1 + d1 + n1 + qty_a + price_a =~= Seq::empty() + t1 + (d1 + n1 + qty_a + price_a));
        assert(t2 + d1 + n1 + qty_a + price_a =~= Seq::empty() + t2 + (d1 + n1 + qty_a + price_a));
    } else if a.item_data@ != b.item_data@ {
        lemma_encode_injective(a.item_data@, b.item_data@);
        lemma_middle_differs(t1, d1, d2, n1 + qty_a + price_a);
        assert(t1 + d1 + n1 + qty_a + price_a =~= t1 + d1 + (n1 + qty_a + price_a));
        assert(t1 + d2 + n1 + qty_a + price_a =~= t1 + d2 + (n1 + qty_a + price_a));
    } else if a.title@ != b.title@ {
        lemma_encode_injective(a.title@, b.title@);
        lemma_middle_differs(t1 + d1, n1, n2, qty_a + price_a);
        assert(t1 + d1 + n1 + qty_a + price_a =~= (t1 + d1) + n1 + (qty_a + price_a));
        assert(t1 + d1 + n2 + qty_a + price_a =~= (t1 + d1) + n2 + (qty_a + price_a));
    } else if a.quantity != b.quantity {
        if qty_a == qty_b {
            lemma_decimal_text_injective(a.quantity as int, b.quantity as int);
        }
        lemma_middle_differs(t1 + d1 + n1, qty_a, qty_b, price_a);
    } else {
        if price_a == price_b {
            lemma_decimal_text_injective(pa, pb);
        }
        lemma_middle_differs(t1 + d1 + n1 + qty_a, price_a, price_b, Seq::empty());
        assert(t1 + d1 + n1 + qty_a + price_a =~= (t1 + d1 + n1 + qty_a) + price_a + Seq::empty());
        assert(t1 + d1 + n1 + qty_a + price_b =~= (t1 + d1 + n1 + qty_a) + price_b + Seq::empty());
    }
}

/// A payment that is no longer open is never charged again: the charge guard
/// answers `AlreadyProcessed`, so `begin_charge` and `prepare_charge` refuse
/// it and no gateway request is built for it, whatever else the request says.
pub proof fn lemma_paid_payment_not_charged_again(
    payments: Map<u128, Payment>,
    items: Map<u128, Seq<PaymentItem>>,
    id: u128,
    declared: Option<i64>,
)
    requires
        payments.contains_key(id),
        payments[id].state == PaymentState::PAID,
    ensures
        charge_guard(payments, id) == Err::<Payment, ChargeError>(ChargeError::AlreadyProcessed),
        charge_check(payments, items, id, declared) == Err::<int, ChargeError>(ChargeError::AlreadyProcessed),
{
}

/// The amount charged is the total recomputed from the stored lines, and a
/// total declared by the client that differs from it stops the charge.
pub proof fn lemma_charged_total_is_recomputed(
    payments: Map<u128, Payment>,
    items: Map<u128, Seq<PaymentItem>>,
    id: u128,
    declared: Option<i64>,
)
    ensures
        charge_check(payments, items, id, declared) matches Ok(total) ==> total == order_total(items[id])
            && (declared matches Some(d) ==> d == total),
        charge_guard(payments, id) is Ok && running_totals_fit(items[id]) && (declared matches Some(d) && d
            != order_total(items[id])) ==> charge_check(payments, items, id, declared) == Err::<int, ChargeError>(ChargeError::TotalMismatch),
{
}

/// A 3-D Secure challenge answers once: a completion that found the payment
/// removed its challenge, so the same completion asked again finds nothing,
/// whatever became of the payment in between.
pub proof fn lemma_threeds_challenge_single_use(
    payments: Map<u128, Payment>,
    challenges: Map<u128, ThreedsData>,
    later_payments: Map<u128, Payment>,
    id: u128,
)
    ensures
        !challenge_pending(later_payments, challenges.remove(id), id),
{
}

/// Minor units read back as a decimal amount of scale 2 give the same minor
/// units; a decimal amount with at most two places is held exactly.
pub proof fn lemma_minor_units_round_trip(minor: i64, amount: DecimalAmount)
    ensures
        minor_units_of(minor as int, 2) == minor,
        amount.scale <= 2 ==> minor_units_of(amount.mantissa as int, amount.scale as nat) * pow10(amount.scale as nat)
            == amount.mantissa * 100,
{
    reveal_with_fuel(pow10, 3);
    assert(pow10(0) == 1 && pow10(1) == 10 && pow10(2) == 100);
    assert(minor_units_of(minor as int, 2) == minor as int * 1);
    let m = amount.mantissa as int;
    if amount.scale == 0 {
        assert(minor_units_of(m, 0) == m * 100);
        assert(m * 100 * 1 == m * 100);
    } else if amount.scale == 1 {
        assert(minor_units_of(m, 1) == m * 10);
        assert(m * 10 * 10 == m * 100) by (nonlinear_arith);
    } else if amount.scale == 2 {
        assert(minor_units_of(m, 2) == m * 1);
        assert(m * 1 * 100 == m * 100);
    }
}

} // verus!

use vstd::prelude::*;

verus! {

/// Life-cycle of a payment: `OPEN` until the gateway confirms a charge, then
/// `PAID`; `COMPLETE` is set downstream, by fulfilment.
#[allow(non_camel_case_types)]
#[derive(Clone, Copy, Debug, PartialEq, Eq, Structural)]
pub enum PaymentState {
    OPEN,
    PAID,
    COMPLETE,
}

/// Which credential set of the gateway a payment is charged with.
#[allow(non_camel_case_types)]
#[derive(Clone, Copy, Debug, PartialEq, Eq, Structural)]
pub enum PaymentEnvironment {
    TEST,
    LIVE,
}

/// A payment. Identifiers are UUIDs held as 128-bit integers; times are
/// seconds since the Unix epoch, UTC.
#[derive(Clone, Debug)]
pub struct Payment {
    pub id: u128,
    pub time: i64,
    pub state: PaymentState,
    pub customer_id: u128,
    pub environment: PaymentEnvironment,
    /// Human-readable card descriptor, set when a charge succeeds.
    pub payment_method: Option<String>,
}

/// One line of a payment. `item_data` is the line's JSON payload as text,
/// passed through unread; `price` is in minor units (pence).
#[derive(Clone, Debug)]
pub struct PaymentItem {
    pub id: u128,
    pub payment_id: u128,
    pub item_type: String,
    pub item_data: String,
    pub title: String,
    pub quantity: i32,
    pub price: i64,
}

/// A pending 3-D Secure challenge of a payment.
#[derive(Clone, Debug)]
pub struct ThreedsData {
    pub payment_id: u128,
    pub one_time_3ds_token: String,
    pub redirect_url: String,
    pub order_id: String,
    pub timestamp: i64,
}

/// A card presented by a customer at checkout.
#[derive(Clone, Debug)]
pub struct Card {
    pub customer_id: u128,
    pub pan: String,
    pub exp_month: u32,
    pub exp_year: u32,
    pub name_on_card: String,
}

/// A named secret with which upstream systems sign order items.
#[derive(Clone, Debug)]
pub struct PaymentToken {
    pub id: i64,
    pub name: String,
    pub token: Vec<u8>,
}

pub fn copy_opt_string(s: &Option<String>) -> (r: Option<String>)
    ensures
        r == *s,
{
    match s {
        Some(v) => Some(v.clone()),
        None => None,
    }
}

pub fn copy_bytes(b: &Vec<u8>) -> (r: Vec<u8>)
    ensures
        r@ == b@,
{
    let mut r: Vec<u8> = Vec::new();
    let mut i: usize = 0;
    while i < b.len()
        invariant
            i <= b@.len(),
            r@ == b@.subrange(0, i as int),
        decreases b@.len() - i,
    {
        r.push(b[i]);
        i = i + 1;
        assert(r@ =~= b@.subrange(0, i as int));
    }
    assert(r@ =~= b@);
    r
}

impl Payment {
    pub fn copy(&self) -> (r: Payment)
        ensures
            r == *self,
    {
        Payment {
            id: self.id,
            time: self.time,
            state: self.state,
            customer_id: self.customer_id,
            environment: self.environment,
            payment_method: copy_opt_string(&self.payment_method),
        }
    }
}

impl PaymentItem {
    pub fn copy(&self) -> (r: PaymentItem)
        ensures
            r == *self,
    {
        PaymentItem {
            id: self.id,
            payment_id: self.payment_id,
            item_type: self.item_type.clone(),
            item_data: self.item_data.clone(),
            title: self.title.clone(),
            quantity: self.quantity,
            price: self.price,
        }
    }
}

impl ThreedsData {
    pub fn copy(&self) -> (r: ThreedsData)
        ensures
            r == *self,
    {
        ThreedsData {
            payment_id: self.payment_id,
            one_time_3ds_token: self.one_time_3ds_token.clone(),
            redirect_url: self.redirect_url.clone(),
            order_id: self.order_id.clone(),
            timestamp: self.timestamp,
        }
    }
}

impl Card {
    pub fn copy(&self) -> (r: Card)
        ensures
            r == *self,
    {
        Card {
            customer_id: self.customer_id,
            pan: self.pan.clone(),
            exp_month: self.exp_month,
            exp_year: self.exp_year,
            name_on_card: self.name_on_card.clone(),
        }
    }
}

impl PaymentToken {
    pub fn copy(&self) -> (r: PaymentToken)
        ensures
            r.id == self.id,
            r.name == self.name,
            r.token@ == self.token@,
    {
        PaymentToken { id: self.id, name: self.name.clone(), token: copy_bytes(&self.token) }
    }
}

} // verus!

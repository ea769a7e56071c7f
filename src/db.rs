use std::collections::HashMap;
use vstd::prelude::*;

use crate::models::{
    Card, Payment, PaymentEnvironment, PaymentItem, PaymentState, PaymentToken,
    ThreedsData,
};
use crate::money::{fits_i64, minor_units_of, DecimalAmount};

verus! {

broadcast use vstd::std_specs::hash::group_hash_axioms;

/// Why a store operation was refused. Each refusal leaves the store unchanged.
#[derive(Clone, Copy, Debug, PartialEq, Eq, Structural)]
pub enum DbError {
    /// The payment (or 3-D Secure challenge) referred to does not exist.
    NotFound,
    /// A payment with that id exists already.
    AlreadyExists,
    /// An item of a new payment has a quantity below one.
    InvalidQuantity,
    /// An item price, in minor units, does not fit in an `i64`.
    PriceOutOfRange,
    /// The state change is not one step forward: OPEN to PAID or PAID to COMPLETE.
    InvalidTransition,
}

/// The states a payment may move to from `from`: the life cycle only moves forward, one step.
pub open spec fn transition_allowed(from: PaymentState, to: PaymentState) -> bool {
    (from == PaymentState::OPEN && to == PaymentState::PAID) || (from == PaymentState::PAID && to
        == PaymentState::COMPLETE)
}

pub struct GetPayment {
    pub id: u128,
}

impl GetPayment {
    pub fn new(id: u128) -> (r: Self)
        ensures
            r.id == id,
    {
        GetPayment { id }
    }
}

pub struct GetPaymentItems {
    pub payment_id: u128,
}

impl GetPaymentItems {
    pub fn new(payment: &Payment) -> (r: Self)
        ensures
            r.payment_id == payment.id,
    {
        GetPaymentItems { payment_id: payment.id }
    }
}

/// One line of a payment to be created; `price` is in currency units.
pub struct CreatePaymentItem {
    pub id: u128,
    pub item_type: String,
    pub item_data: String,
    pub title: String,
    pub quantity: i32,
    pub price: DecimalAmount,
}

impl CreatePaymentItem {
    pub fn new(
        id: u128,
        item_type: &str,
        item_data: &str,
        title: &str,
        quantity: i32,
        price: &DecimalAmount,
    ) -> (r: Self)
        ensures
            r.id == id,
            r.item_type@ == item_type@,
            r.item_data@ == item_data@,
            r.title@ == title@,
            r.quantity == quantity,
            r.price == *price,
    {
        CreatePaymentItem {
            id,
            item_type: item_type.to_owned(),
            item_data: item_data.to_owned(),
            title: title.to_owned(),
            quantity,
            price: *price,
        }
    }
}

pub struct CreatePayment {
    pub id: u128,
    pub time: i64,
    pub state: PaymentState,
    pub environment: PaymentEnvironment,
    pub customer_id: u128,
    pub items: Vec<CreatePaymentItem>,
}

impl CreatePayment {
    pub fn new(
        id: u128,
        time: i64,
        state: PaymentState,
        environment: PaymentEnvironment,
        customer_id: u128,
        items: Vec<CreatePaymentItem>,
    ) -> (r: Self)
        ensures
            r.id == id,
            r.time == time,
            r.state == state,
            r.environment == environment,
            r.customer_id == customer_id,
            r.items@ == items@,
    {
        CreatePayment { id, time, state, environment, customer_id, items }
    }
}

pub struct UpdatePaymentState {
    pub id: u128,
    pub state: PaymentState,
    pub payment_method: Option<String>,
}

impl UpdatePaymentState {
    pub fn new(id: u128, state: PaymentState, payment_method: Option<String>) -> (r: Self)
        ensures
            r.id == id,
            r.state == state,
            r.payment_method == payment_method,
    {
        UpdatePaymentState { id, state, payment_method }
    }
}

pub struct CreateThreedsData {
    pub payment_id: u128,
    pub one_time_3ds_token: String,
    pub redirect_url: String,
    pub order_id: String,
    pub timestamp: i64,
}

impl CreateThreedsData {
    pub fn new(
        payment_id: u128,
        one_time_3ds_token: &str,
        redirect_url: &str,
        order_id: &str,
        timestamp: i64,
    ) -> (r: Self)
        ensures
            r.payment_id == payment_id,
            r.one_time_3ds_token@ == one_time_3ds_token@,
            r.redirect_url@ == redirect_url@,
            r.order_id@ == order_id@,
            r.timestamp == timestamp,
    {
        CreateThreedsData {
            payment_id,
            one_time_3ds_token: one_time_3ds_token.to_owned(),
            redirect_url: redirect_url.to_owned(),
            order_id: order_id.to_owned(),
            timestamp,
        }
    }
}

pub struct GetThreedsData {
    pub payment_id: u128,
}

impl GetThreedsData {
    pub fn new(payment: &Payment) -> (r: Self)
        ensures
            r.payment_id == payment.id,
    {
        GetThreedsData { payment_id: payment.id }
    }
}

pub struct DeleteThreedsData {
    pub payment_id: u128,
}

impl DeleteThreedsData {
    pub fn new(payment: &Payment) -> (r: Self)
        ensures
            r.payment_id == payment.id,
    {
        DeleteThreedsData { payment_id: payment.id }
    }
}

pub struct CreateCard {
    pub customer_id: u128,
    pub pan: String,
    pub exp_month: u32,
    pub exp_year: u32,
    pub name_on_card: String,
}

impl CreateCard {
    pub fn new(customer_id: u128, pan: &str, exp_month: u32, exp_year: u32, name_on_card: &str) -> (r: Self)
        ensures
            r.customer_id == customer_id,
            r.pan@ == pan@,
            r.exp_month == exp_month,
            r.exp_year == exp_year,
            r.name_on_card@ == name_on_card@,
    {
        CreateCard {
            customer_id,
            pan: pan.to_owned(),
            exp_month,
            exp_year,
            name_on_card: name_on_card.to_owned(),
        }
    }
}

pub struct GetPaymentTokens {}

impl GetPaymentTokens {
    pub fn new() -> (r: Self) {
        GetPaymentTokens {  }
    }
}

/// The stored line that `item` of payment `payment_id` becomes, with its price
/// in minor units.
pub open spec fn stored_item(item: CreatePaymentItem, payment_id: u128) -> PaymentItem {
    PaymentItem {
        id: item.id,
        payment_id,
        item_type: item.item_type,
        item_data: item.item_data,
        title: item.title,
        quantity: item.quantity,
        price: minor_units_of(item.price.mantissa as int, item.price.scale as nat) as i64,
    }
}

pub open spec fn item_price_fits(item: CreatePaymentItem) -> bool {
    fits_i64(minor_units_of(item.price.mantissa as int, item.price.scale as nat))
}

pub open spec fn stored_items(items: Seq<CreatePaymentItem>, payment_id: u128) -> Seq<PaymentItem> {
    Seq::new(items.len(), |i: int| stored_item(items[i], payment_id))
}

/// The card list after presenting `c`: unchanged when its number is on
/// record, otherwise with `c` added at the end.
pub open spec fn card_upsert(cards: Seq<Card>, c: Card) -> Seq<Card> {
    if exists|i: int| 0 <= i < cards.len() && #[trigger] cards[i].pan@ == c.pan@ {
        cards
    } else {
        cards.push(c)
    }
}

/// The payment store. It owns payments with their items, the pending 3-D
/// Secure challenge of each payment, the cards presented, and the signing
/// tokens. Every operation is one atomic step: it either happens whole or
/// leaves the store as it was.
pub struct DbExecutor {
    payments: HashMap<u128, Payment>,
    items: HashMap<u128, Vec<PaymentItem>>,
    threeds: HashMap<u128, ThreedsData>,
    cards: Vec<Card>,
    tokens: Vec<PaymentToken>,
    ids: Vec<u128>,
}

impl DbExecutor {
    /// Payments by id.
    pub closed spec fn payments(&self) -> Map<u128, Payment> {
        self.payments@
    }

    /// The lines of each payment, in the order they were given.
    pub closed spec fn items(&self) -> Map<u128, Seq<PaymentItem>> {
        Map::new(|id: u128| self.items@.contains_key(id), |id: u128| self.items@[id]@)
    }

    /// The pending 3-D Secure challenge of each payment that has one.
    pub closed spec fn challenges(&self) -> Map<u128, ThreedsData> {
        self.threeds@
    }

    pub closed spec fn cards(&self) -> Seq<Card> {
        self.cards@
    }

    pub closed spec fn tokens(&self) -> Seq<PaymentToken> {
        self.tokens@
    }

    pub closed spec fn wf(&self) -> bool {
        &&& forall|id: u128| #[trigger]
            self.payments@.contains_key(id) ==> self.payments@[id].id == id
        &&& forall|id: u128| #[trigger]
            self.items@.contains_key(id) <==> self.payments@.contains_key(id)
        &&& forall|id: u128, i: int|
            #![trigger self.items@[id]@[i]]
            self.items@.contains_key(id) && 0 <= i < self.items@[id]@.len() ==> self.items@[id]@[i].payment_id == id
                && self.items@[id]@[i].quantity >= 1
        &&& forall|id: u128| #[trigger]
            self.threeds@.contains_key(id) ==> self.payments@.contains_key(id)
                && self.threeds@[id].payment_id == id
        &&& forall|i: int| 0 <= i < self.ids@.len() ==> self.payments@.contains_key(#[trigger] self.ids@[i])
        &&& forall|id: u128| #[trigger] self.payments@.contains_key(id) ==> self.ids@.contains(id)
        &&& self.ids@.no_duplicates()
        &&& forall|i: int, j: int|
            0 <= i < j < self.cards@.len() ==> #[trigger] self.cards@[i].pan@ != #[trigger] self.cards@[j].pan@
    }

    /// Only recorded payments have lines or a pending challenge.
    pub proof fn lemma_records_belong_to_payments(&self)
        requires
            self.wf(),
        ensures
            forall|id: u128| #[trigger] self.challenges().contains_key(id) ==> self.payments().contains_key(id),
            forall|id: u128| #[trigger] self.items().contains_key(id) <==> self.payments().contains_key(id),
    {
    }

    /// An empty store that accepts items signed with `tokens`.
    pub fn new(tokens: Vec<PaymentToken>) -> (r: Self)
        ensures
            r.wf(),
            r.payments().is_empty(),
            r.items().is_empty(),
            r.challenges().is_empty(),
            r.cards().len() == 0,
            r.tokens() == tokens@,
    {
        let r = DbExecutor {
            payments: HashMap::new(),
            items: HashMap::new(),
            threeds: HashMap::new(),
            cards: Vec::new(),
            tokens,
            ids: Vec::new(),
        };
        assert(r.items() =~= Map::<u128, Seq<PaymentItem>>::empty());
        r
    }

    pub fn get_payment(&self, msg: &GetPayment) -> (r: Result<Payment, DbError>)
        requires
            self.wf(),
        ensures
            match r {
                Ok(p) => self.payments().contains_key(msg.id) && p == self.payments()[msg.id],
                Err(e) => !self.payments().contains_key(msg.id) && e == DbError::NotFound,
            },
            r is Ok ==> r->Ok_0.id == msg.id,
    {
        match self.payments.get(&msg.id) {
            Some(p) => Ok(p.copy()),
            None => Err(DbError::NotFound),
        }
    }

    pub fn get_payment_items(&self, msg: &GetPaymentItems) -> (r: Result<Vec<PaymentItem>, DbError>)
        requires
            self.wf(),
        ensures
            match r {
                Ok(v) => self.items().contains_key(msg.payment_id) && v@ == self.items()[msg.payment_id],
                Err(e) => !self.payments().contains_key(msg.payment_id) && e == DbError::NotFound,
            },
    {
        match self.items.get(&msg.payment_id) {
            Some(v) => {
                let mut r: Vec<PaymentItem> = Vec::new();
                let mut i: usize = 0;
                while i < v.len()
                    invariant
                        i <= v@.len(),
                        r@ == v@.subrange(0, i as int),
                    decreases v@.len() - i,
                {
                    r.push(v[i].copy());
                    i = i + 1;
                    assert(r@ =~= v@.subrange(0, i as int));
                }
                assert(r@ =~= v@);
                Ok(r)
            },
            None => Err(DbError::NotFound),
        }
    }

    /// Creates the payment and all its lines in one step, or nothing.
    #[verifier::loop_isolation(false)]
    pub fn create_payment(&mut self, msg: CreatePayment) -> (r: Result<Payment, DbError>)
        requires
            old(self).wf(),
        ensures
            final(self).wf(),
            final(self).tokens() == old(self).tokens(),
            final(self).cards() == old(self).cards(),
            final(self).challenges() == old(self).challenges(),
            old(self).payments().contains_key(msg.id) ==> r == Err::<Payment, DbError>(DbError::AlreadyExists),
            !old(self).payments().contains_key(msg.id) && (exists|i: int| 0 <= i < msg.items@.len() && #[trigger] msg.items@[i].quantity < 1)
                ==> r == Err::<Payment, DbError>(DbError::InvalidQuantity),
            !old(self).payments().contains_key(msg.id) && (forall|i: int| 0 <= i < msg.items@.len() ==> #[trigger] msg.items@[i].quantity >= 1)
                && (exists|i: int| 0 <= i < msg.items@.len() && !item_price_fits(#[trigger] msg.items@[i]))
                ==> r == Err::<Payment, DbError>(DbError::PriceOutOfRange),
            !old(self).payments().contains_key(msg.id) && (forall|i: int| 0 <= i < msg.items@.len() ==> #[trigger] msg.items@[i].quantity >= 1)
                && (forall|i: int| 0 <= i < msg.items@.len() ==> item_price_fits(#[trigger] msg.items@[i])) ==> r is Ok,
            match r {
                Ok(p) => {
                    &&& !old(self).payments().contains_key(msg.id)
                    &&& forall|i: int| 0 <= i < msg.items@.len() ==> #[trigger] msg.items@[i].quantity >= 1 && item_price_fits(msg.items@[i])
                    &&& p == (Payment {
                        id: msg.id,
                        time: msg.time,
                        state: msg.state,
                        customer_id: msg.customer_id,
                        environment: msg.environment,
                        payment_method: None,
                    })
                    &&& final(self).payments() == old(self).payments().insert(msg.id, p)
                    &&& final(self).items() == old(self).items().insert(msg.id, stored_items(msg.items@, msg.id))
                },
                Err(_) => final(self).payments() == old(self).payments() && final(self).items() == old(self).items(),
            },
    {
        if self.payments.contains_key(&msg.id) {
            return Err(DbError::AlreadyExists);
        }
        let mut i: usize = 0;
        while i < msg.items.len()
            invariant
                i <= msg.items@.len(),
                forall|k: int| 0 <= k < i ==> #[trigger] msg.items@[k].quantity >= 1,
            decreases msg.items@.len() - i,
        {
            if msg.items[i].quantity < 1 {
                return Err(DbError::InvalidQuantity);
            }
            i = i + 1;
        }
        let mut stored: Vec<PaymentItem> = Vec::new();
        let mut i: usize = 0;
        while i < msg.items.len()
            invariant
                i <= msg.items@.len(),
                stored@ == stored_items(msg.items@.subrange(0, i as int), msg.id),
                forall|k: int| 0 <= k < msg.items@.len() ==> #[trigger] msg.items@[k].quantity >= 1,
                forall|k: int| 0 <= k < i ==> item_price_fits(#[trigger] msg.items@[k]),
            decreases msg.items@.len() - i,
        {
            let item = &msg.items[i];
            let price = match item.price.to_minor_units() {
                Some(p) => p,
                None => {
                    assert(!item_price_fits(msg.items@[i as int]));
                    return Err(DbError::PriceOutOfRange);
                },
            };
            stored.push(
                PaymentItem {
                    id: item.id,
                    payment_id: msg.id,
                    item_type: item.item_type.clone(),
                    item_data: item.item_data.clone(),
                    title: item.title.clone(),
                    quantity: item.quantity,
                    price,
                },
            );
            i = i + 1;
            assert(stored@ =~= stored_items(msg.items@.subrange(0, i as int), msg.id));
        }
        proof {
            assert(msg.items@.subrange(0, i as int) =~= msg.items@);
        }
        let p = Payment {
            id: msg.id,
            time: msg.time,
            state: msg.state,
            customer_id: msg.customer_id,
            environment: msg.environment,
            payment_method: None,
        };
        let ghost old_self = *self;
        self.payments.insert(msg.id, p.copy());
        self.ids.push(msg.id);
        proof {
            let n = old_self.ids@.len() as int;
            assert(self.ids@ == old_self.ids@.push(msg.id));
            assert(!old_self.ids@.contains(msg.id)) by {
                if old_self.ids@.contains(msg.id) {
                    let k = choose|k: int| 0 <= k < n && old_self.ids@[k] == msg.id;
                    assert(old_self.payments@.contains_key(old_self.ids@[k]));
                }
            }
            assert forall|id: u128| #[trigger] self.payments@.contains_key(id) implies self.ids@.contains(id) by {
                if id == msg.id {
                    assert(self.ids@[n] == id);
                } else {
                    assert(old_self.payments@.contains_key(id));
                    assert(old_self.ids@.contains(id));
                    let k = choose|k: int| 0 <= k < n && old_self.ids@[k] == id;
                    assert(self.ids@[k] == id);
                }
            }
            assert forall|i: int, j: int| 0 <= i < self.ids@.len() && 0 <= j < self.ids@.len() && i != j
                implies self.ids@[i] != self.ids@[j] by {
                if i < n && j < n {
                    assert(old_self.ids@[i] != old_self.ids@[j]);
                } else if i == n {
                    assert(!old_self.ids@.contains(msg.id));
                    assert(old_self.ids@[j] == self.ids@[j]);
                } else {
                    assert(!old_self.ids@.contains(msg.id));
                    assert(old_self.ids@[i] == self.ids@[i]);
                }
            }
        }
        self.items.insert(msg.id, stored);
        proof {
            assert(self.items() =~= old_self.items().insert(msg.id, stored_items(msg.items@, msg.id)));
        }
        Ok(p)
    }

    /// Moves a payment one step forward in its life cycle; the state check and
    /// the write are one step, so of two racing charges only one succeeds.
    /// A given `payment_method` is recorded; `None` keeps the current one.
    pub fn update_payment_state(&mut self, msg: UpdatePaymentState) -> (r: Result<(), DbError>)
        requires
            old(self).wf(),
        ensures
            final(self).wf(),
            final(self).tokens() == old(self).tokens(),
            final(self).cards() == old(self).cards(),
            final(self).challenges() == old(self).challenges(),
            final(self).items() == old(self).items(),
            !old(self).payments().contains_key(msg.id) ==> r == Err::<(), DbError>(DbError::NotFound),
            old(self).payments().contains_key(msg.id) && !transition_allowed(old(self).payments()[msg.id].state, msg.state)
                ==> r == Err::<(), DbError>(DbError::InvalidTransition),
            r is Ok <==> old(self).payments().contains_key(msg.id) && transition_allowed(old(self).payments()[msg.id].state, msg.state),
            r is Ok ==> final(self).payments() == old(self).payments().insert(
                msg.id,
                Payment {
                    state: msg.state,
                    payment_method: if msg.payment_method is Some { msg.payment_method } else { old(self).payments()[msg.id].payment_method },
                    ..old(self).payments()[msg.id]
                },
            ),
            r is Err ==> final(self).payments() == old(self).payments(),
    {
        let current = match self.payments.get(&msg.id) {
            Some(p) => p.copy(),
            None => {
                return Err(DbError::NotFound);
            },
        };
        let allowed = (current.state == PaymentState::OPEN && msg.state == PaymentState::PAID) || (current.state
            == PaymentState::PAID && msg.state == PaymentState::COMPLETE);
        if !allowed {
            return Err(DbError::InvalidTransition);
        }
        let method = match msg.payment_method {
            Some(m) => Some(m),
            None => current.payment_method,
        };
        let updated = Payment { state: msg.state, payment_method: method, ..current };
        self.payments.insert(msg.id, updated);
        Ok(())
    }

    /// Records the pending 3-D Secure challenge of a payment; it supersedes any
    /// earlier challenge of the same payment.
    pub fn create_threeds_data(&mut self, msg: CreateThreedsData) -> (r: Result<ThreedsData, DbError>)
        requires
            old(self).wf(),
        ensures
            final(self).wf(),
            final(self).tokens() == old(self).tokens(),
            final(self).cards() == old(self).cards(),
            final(self).payments() == old(self).payments(),
            final(self).items() == old(self).items(),
            match r {
                Ok(t) => {
                    &&& old(self).payments().contains_key(msg.payment_id)
                    &&& t == (ThreedsData {
                        payment_id: msg.payment_id,
                        one_time_3ds_token: msg.one_time_3ds_token,
                        redirect_url: msg.redirect_url,
                        order_id: msg.order_id,
                        timestamp: msg.timestamp,
                    })
                    &&& final(self).challenges() == old(self).challenges().insert(msg.payment_id, t)
                },
                Err(e) => {
                    &&& !old(self).payments().contains_key(msg.payment_id)
                    &&& e == DbError::NotFound
                    &&& final(self).challenges() == old(self).challenges()
                },
            },
    {
        if !self.payments.contains_key(&msg.payment_id) {
            return Err(DbError::NotFound);
        }
        let t = ThreedsData {
            payment_id: msg.payment_id,
            one_time_3ds_token: msg.one_time_3ds_token,
            redirect_url: msg.redirect_url,
            order_id: msg.order_id,
            timestamp: msg.timestamp,
        };
        self.threeds.insert(msg.payment_id, t.copy());
        Ok(t)
    }

    pub fn get_threeds_data(&self, msg: &GetThreedsData) -> (r: Result<ThreedsData, DbError>)
        requires
            self.wf(),
        ensures
            match r {
                Ok(t) => self.challenges().contains_key(msg.payment_id) && t == self.challenges()[msg.payment_id],
                Err(e) => !self.challenges().contains_key(msg.payment_id) && e == DbError::NotFound,
            },
    {
        match self.threeds.get(&msg.payment_id) {
            Some(t) => Ok(t.copy()),
            None => Err(DbError::NotFound),
        }
    }

    /// Removes the pending challenge of a payment, if there is one.
    pub fn delete_threeds_data(&mut self, msg: &DeleteThreedsData) -> (r: Result<(), DbError>)
        requires
            old(self).wf(),
        ensures
            final(self).wf(),
            final(self).tokens() == old(self).tokens(),
            final(self).cards() == old(self).cards(),
            final(self).payments() == old(self).payments(),
            final(self).items() == old(self).items(),
            final(self).challenges() == old(self).challenges().remove(msg.payment_id),
            r is Ok,
    {
        self.threeds.remove(&msg.payment_id);
        Ok(())
    }

    /// Records a card. A card whose number is on record already is returned as
    /// it stands and nothing is added.
    #[verifier::loop_isolation(false)]
    pub fn create_card(&mut self, msg: CreateCard) -> (r: Result<Card, DbError>)
        requires
            old(self).wf(),
        ensures
            final(self).wf(),
            final(self).tokens() == old(self).tokens(),
            final(self).payments() == old(self).payments(),
            final(self).items() == old(self).items(),
            final(self).challenges() == old(self).challenges(),
            r is Ok,
            final(self).cards() == card_upsert(
                old(self).cards(),
                Card {
                    customer_id: msg.customer_id,
                    pan: msg.pan,
                    exp_month: msg.exp_month,
                    exp_year: msg.exp_year,
                    name_on_card: msg.name_on_card,
                },
            ),
            (exists|i: int| 0 <= i < old(self).cards().len() && #[trigger] old(self).cards()[i].pan@ == msg.pan@) ==> {
                &&& final(self).cards() == old(self).cards()
                &&& exists|i: int| 0 <= i < old(self).cards().len() && #[trigger] old(self).cards()[i].pan@ == msg.pan@ && r == Ok::<Card, DbError>(old(self).cards()[i])
            },
            (forall|i: int| 0 <= i < old(self).cards().len() ==> #[trigger] old(self).cards()[i].pan@ != msg.pan@) ==> {
                let c = Card {
                    customer_id: msg.customer_id,
                    pan: msg.pan,
                    exp_month: msg.exp_month,
                    exp_year: msg.exp_year,
                    name_on_card: msg.name_on_card,
                };
                &&& final(self).cards() == old(self).cards().push(c)
                &&& r == Ok::<Card, DbError>(c)
            },
    {
        let mut i: usize = 0;
        while i < self.cards.len()
            invariant
                i <= self.cards@.len(),
                forall|k: int| 0 <= k < i ==> #[trigger] self.cards@[k].pan@ != msg.pan@,
            decreases self.cards@.len() - i,
        {
            if self.cards[i].pan == msg.pan {
                return Ok(self.cards[i].copy());
            }
            i = i + 1;
        }
        let c = Card {
            customer_id: msg.customer_id,
            pan: msg.pan,
            exp_month: msg.exp_month,
            exp_year: msg.exp_year,
            name_on_card: msg.name_on_card,
        };
        self.cards.push(c.copy());
        Ok(c)
    }

    /// The ids of all recorded payments, each once, oldest first.
    pub fn payment_ids(&self) -> (r: Vec<u128>)
        requires
            self.wf(),
        ensures
            r@.no_duplicates(),
            forall|id: u128| self.payments().contains_key(id) <==> #[trigger] r@.contains(id),
    {
        let r = self.ids.clone();
        assert(r@ =~= self.ids@);
        r
    }

    /// The recorded cards, in the order they were presented.
    pub fn card_list(&self) -> (r: Vec<Card>)
        ensures
            r@ == self.cards(),
    {
        let mut r: Vec<Card> = Vec::new();
        let mut i: usize = 0;
        while i < self.cards.len()
            invariant
                i <= self.cards@.len(),
                r@ == self.cards@.subrange(0, i as int),
            decreases self.cards@.len() - i,
        {
            r.push(self.cards[i].copy());
            i = i + 1;
            assert(r@ =~= self.cards@.subrange(0, i as int));
        }
        assert(r@ =~= self.cards@);
        r
    }

    /// The signing tokens, in place.
    pub fn payment_tokens(&self) -> (r: &Vec<PaymentToken>)
        ensures
            r@ == self.tokens(),
    {
        &self.tokens
    }

    pub fn get_payment_tokens(&self, msg: &GetPaymentTokens) -> (r: Result<Vec<PaymentToken>, DbError>)
        ensures
            match r {
                Ok(v) => v@.len() == self.tokens().len() && forall|i: int| 0 <= i < v@.len() ==> #[trigger] v@[i].token@ == self.tokens()[i].token@ && v@[i].name == self.tokens()[i].name && v@[i].id == self.tokens()[i].id,
                Err(_) => false,
            },
    {
        let mut r: Vec<PaymentToken> = Vec::new();
        let mut i: usize = 0;
        while i < self.tokens.len()
            invariant
                i <= self.tokens@.len(),
                r@.len() == i,
                forall|k: int| 0 <= k < i ==> #[trigger] r@[k].token@ == self.tokens@[k].token@ && r@[k].name == self.tokens@[k].name && r@[k].id == self.tokens@[k].id,
            decreases self.tokens@.len() - i,
        {
            r.push(self.tokens[i].copy());
            i = i + 1;
        }
        Ok(r)
    }
}

} // verus!

use vstd::prelude::*;
use vstd::string::*;

use crate::db::{
    card_upsert, item_price_fits, stored_items, CreateCard, CreatePayment, CreatePaymentItem,
    CreateThreedsData, DbError, DbExecutor, DeleteThreedsData, GetPayment, GetPaymentItems,
    UpdatePaymentState,
};
use crate::keycloak::{has_attribute_in, User};
use crate::models::{copy_opt_string, Card, Payment, PaymentEnvironment, PaymentState, ThreedsData};
use crate::signing::{item_accepted, SignedItem, verify_signed_items};
use crate::worldpay::{
    billing_address_matches, gateway_name, joined_titles, key_for, order_description,
    order_total, outcome_of, running_totals_fit, shopper_name, text_or_empty, total_minor_units,
    BillingAddressData, CardData, GatewayOutcome, GatewayUnavailable, ShopperInfo,
    WorldpayBillingAddress, WorldpayCard, WorldpayConfig, WorldpayOrder, WorldpayOrderResp,
    WorldpayThreedsOrder,
};

verus! {

/// Why a charge or a 3-D Secure completion did not go ahead.
#[derive(Clone, Copy, Debug, PartialEq, Eq, Structural)]
pub enum ChargeError {
    /// The payment, or its 3-D Secure challenge, does not exist.
    NotFound,
    /// A signed item matches no signing token; nothing was created.
    InvalidSignature,
    /// The payment is no longer open; the gateway is not contacted again.
    AlreadyProcessed,
    /// The gateway could not be reached or answered with an HTTP error.
    GatewayUnavailable,
    /// The customer's email belongs to an existing account and the caller is
    /// not signed in: the customer must log in first. Nothing was created.
    ExistingAccountConflict,
    /// The total the client declared differs from the total of the stored items.
    TotalMismatch,
    /// A running total of the order leaves the `i64` range.
    TotalOutOfRange,
    /// The store refused an operation.
    Store(DbError),
}

/// What the checkout page is told about a charge.
#[allow(non_camel_case_types)]
#[derive(Clone, Copy, Debug, PartialEq, Eq, Structural)]
pub enum WorldpayPaymentStatus {
    SUCCESS,
    FAILED,
    THREEDS,
    ExistingAccount,
    UNKNOWN,
}

/// The customer named in an inline order.
pub struct WorldpayNewCustomerData {
    pub email: String,
    pub phone: String,
    pub name: String,
}

/// An order that arrives with the charge, for a payment that does not exist yet.
pub struct WorldpayNewPaymentData {
    pub environment: PaymentEnvironment,
    pub customer: WorldpayNewCustomerData,
    pub items: Vec<SignedItem>,
}

/// A charge request from the checkout page.
pub struct WorldpayPaymentData {
    pub accepts: String,
    pub email: Option<String>,
    pub phone: Option<String>,
    pub first_name: Option<String>,
    pub last_name: Option<String>,
    pub card: CardData,
    pub payment: Option<WorldpayNewPaymentData>,
    pub billing_address: BillingAddressData,
    /// The total, in minor units, that the client believes it is paying.
    pub declared_total: Option<i64>,
}

/// How the customer of an inline order was resolved with the identity provider.
pub enum CustomerResolution {
    /// The caller is signed in as this user.
    SessionUser(u128),
    /// Nobody is signed in and an account with the order's email exists.
    ExistingAccount,
    /// Nobody is signed in; an account was created for the order's email.
    CreatedAccount(u128),
}

/// Where a charge starts from.
pub enum ChargeStart {
    /// An open payment that is on record.
    Existing(Payment),
    /// No payment is on record; these verified lines will make the new one.
    NewOrder(Vec<CreatePaymentItem>),
}

/// A request ready for the gateway: the credential to send it with and the order.
pub struct GatewayCharge {
    pub key: String,
    pub order: WorldpayOrder,
}

/// A 3-D Secure answer ready for the gateway, for the order `order_code`.
pub struct GatewayThreeds {
    pub key: String,
    pub order_code: String,
    pub order: WorldpayThreedsOrder,
}

/// The guard every charge passes: the payment exists and is still open.
pub open spec fn charge_guard(payments: Map<u128, Payment>, id: u128) -> Result<Payment, ChargeError> {
    if !payments.contains_key(id) {
        Err(ChargeError::NotFound)
    } else if payments[id].state != PaymentState::OPEN {
        Err(ChargeError::AlreadyProcessed)
    } else {
        Ok(payments[id])
    }
}

/// The descriptor recorded for a captured payment: "issuer masked-number".
pub open spec fn method_text(resp: WorldpayOrderResp) -> Seq<char> {
    resp.card_issuer@ + " "@ + resp.masked_card_number@
}

/// `after` is `before`, now paid with the card described by `method`.
pub open spec fn paid_with(before: Payment, after: Payment, method: Seq<char>) -> bool {
    &&& after.id == before.id
    &&& after.time == before.time
    &&& after.customer_id == before.customer_id
    &&& after.environment == before.environment
    &&& after.state == PaymentState::PAID
    &&& after.payment_method matches Some(m) && m@ == method
}

/// A line list and the signed items it came from agree, line by line.
pub open spec fn lines_match(lines: Seq<CreatePaymentItem>, items: Seq<SignedItem>, ids: Seq<u128>) -> bool {
    &&& lines.len() == items.len()
    &&& forall|i: int|
        0 <= i < items.len() ==> {
            &&& (#[trigger] lines[i]).id == ids[i]
            &&& lines[i].item_type@ == items[i].item_type@
            &&& lines[i].item_data@ == items[i].item_data@
            &&& lines[i].title@ == items[i].title@
            &&& lines[i].quantity == items[i].quantity
            &&& lines[i].price == items[i].price
        }
}

/// First step of a charge: find the payment, or verify the inline order that
/// is to create it. Reads the store and changes nothing. `item_ids` names the
/// lines of an inline order.
pub fn begin_charge(db: &DbExecutor, payment_id: u128, data: &WorldpayPaymentData, item_ids: &Vec<u128>) -> (r:
    Result<ChargeStart, ChargeError>)
    requires
        db.wf(),
        data.payment matches Some(o) ==> item_ids@.len() == o.items@.len(),
    ensures
        db.payments().contains_key(payment_id) ==> match charge_guard(db.payments(), payment_id) {
            Ok(p) => r matches Ok(ChargeStart::Existing(q)) && q == p,
            Err(e) => r == Err::<ChargeStart, ChargeError>(e),
        },
        !db.payments().contains_key(payment_id) && data.payment is None ==> r == Err::<ChargeStart, ChargeError>(ChargeError::NotFound),
        !db.payments().contains_key(payment_id) && data.payment is Some ==> {
            let items = data.payment->Some_0.items@;
            let accepted = forall|i: int| 0 <= i < items.len() ==> item_accepted(#[trigger] items[i], db.tokens());
            &&& accepted ==> (r matches Ok(ChargeStart::NewOrder(lines)) && lines_match(lines@, items, item_ids@))
            &&& !accepted ==> r == Err::<ChargeStart, ChargeError>(ChargeError::InvalidSignature)
        },
{
    match db.get_payment(&GetPayment::new(payment_id)) {
        Ok(p) => {
            if p.state != PaymentState::OPEN {
                return Err(ChargeError::AlreadyProcessed);
            }
            Ok(ChargeStart::Existing(p))
        },
        Err(_) => match &data.payment {
            None => Err(ChargeError::NotFound),
            Some(order) => match verify_signed_items(&order.items, db.payment_tokens(), item_ids) {
                Some(lines) => Ok(ChargeStart::NewOrder(lines)),
                None => Err(ChargeError::InvalidSignature),
            },
        },
    }
}

/// Second step for an inline order: create the payment and its lines in one
/// store operation, for the resolved customer. An existing account with
/// nobody signed in stops the charge and leaves the store as it was.
pub fn open_inline_payment(
    db: &mut DbExecutor,
    payment_id: u128,
    time: i64,
    order: &WorldpayNewPaymentData,
    customer: CustomerResolution,
    lines: Vec<CreatePaymentItem>,
) -> (r: Result<Payment, ChargeError>)
    requires
        old(db).wf(),
    ensures
        final(db).wf(),
        customer is ExistingAccount ==> r == Err::<Payment, ChargeError>(ChargeError::ExistingAccountConflict)
            && final(db).payments() == old(db).payments() && final(db).items() == old(db).items(),
        final(db).challenges() == old(db).challenges(),
        final(db).cards() == old(db).cards(),
        final(db).tokens() == old(db).tokens(),
        r is Err ==> final(db).payments() == old(db).payments() && final(db).items() == old(db).items(),
        r matches Ok(p) ==> {
            let customer_id = match customer {
                CustomerResolution::SessionUser(u) => u,
                CustomerResolution::CreatedAccount(u) => u,
                CustomerResolution::ExistingAccount => 0,
            };
            &&& !(customer is ExistingAccount)
            &&& !old(db).payments().contains_key(payment_id)
            &&& p.id == payment_id && p.time == time && p.state == PaymentState::OPEN
            &&& p.customer_id == customer_id && p.environment == order.environment
            &&& p.payment_method is None
            &&& !final(db).challenges().contains_key(payment_id)
            &&& final(db).payments() == old(db).payments().insert(payment_id, p)
            &&& final(db).items() == old(db).items().insert(payment_id, stored_items(lines@, payment_id))
        },
        old(db).payments().contains_key(payment_id) && !(customer is ExistingAccount) ==> r == Err::<Payment, ChargeError>(ChargeError::Store(DbError::AlreadyExists)),
        !old(db).payments().contains_key(payment_id) && !(customer is ExistingAccount) ==> {
            let quantities_ok = forall|i: int| 0 <= i < lines@.len() ==> #[trigger] lines@[i].quantity >= 1;
            let prices_ok = forall|i: int| 0 <= i < lines@.len() ==> item_price_fits(#[trigger] lines@[i]);
            &&& !quantities_ok ==> r == Err::<Payment, ChargeError>(ChargeError::Store(DbError::InvalidQuantity))
            &&& quantities_ok && !prices_ok ==> r == Err::<Payment, ChargeError>(ChargeError::Store(DbError::PriceOutOfRange))
            &&& quantities_ok && prices_ok ==> r is Ok
        },
{
    let customer_id = match customer {
        CustomerResolution::SessionUser(u) => u,
        CustomerResolution::CreatedAccount(u) => u,
        CustomerResolution::ExistingAccount => {
            return Err(ChargeError::ExistingAccountConflict);
        },
    };
    proof {
        db.lemma_records_belong_to_payments();
    }
    let msg = CreatePayment::new(payment_id, time, PaymentState::OPEN, order.environment, customer_id, lines);
    match db.create_payment(msg) {
        Ok(p) => Ok(p),
        Err(e) => Err(ChargeError::Store(e)),
    }
}

/// What building the gateway request for payment `id` comes to: the amount to
/// charge, in minor units, or why there is none. The amount is always the
/// total of the stored lines; a total the client declared only has to agree.
pub open spec fn charge_check(
    payments: Map<u128, Payment>,
    items: Map<u128, Seq<crate::models::PaymentItem>>,
    id: u128,
    declared: Option<i64>,
) -> Result<int, ChargeError> {
    match charge_guard(payments, id) {
        Err(e) => Err(e),
        Ok(p) => {
            let total = order_total(items[id]);
            if !running_totals_fit(items[id]) {
                Err(ChargeError::TotalOutOfRange)
            } else if declared matches Some(d) && d != total {
                Err(ChargeError::TotalMismatch)
            } else {
                Ok(total)
            }
        },
    }
}

/// The card record a charge presents for `customer_id`.
pub open spec fn card_record(customer_id: u128, card: CardData) -> Card {
    Card {
        customer_id,
        pan: card.card_number,
        exp_month: card.exp_month,
        exp_year: card.exp_year,
        name_on_card: card.name,
    }
}

/// The order the gateway gets for payment `p` with lines `items`.
pub open spec fn order_matches(
    o: WorldpayOrder,
    p: Payment,
    items: Seq<crate::models::PaymentItem>,
    data: WorldpayPaymentData,
    user: User,
    shopper: ShopperInfo,
) -> bool {
    &&& o.order_type@ == "ECOM"@
    &&& o.order_description@ == joined_titles(items)
    &&& o.customer_order_code == p.id
    &&& o.amount == order_total(items)
    &&& o.currency_code@ == "GBP"@
    &&& o.name@ == gateway_name(user.first_name, user.last_name)
    &&& o.shopper_email_address@ == text_or_empty(user.email)
    &&& billing_address_matches(o.billing_address, data.billing_address)
    &&& o.shopper_ip_address@ == shopper.ip_address@
    &&& o.shopper_user_agent@ == shopper.user_agent@
    &&& o.shopper_accept_header@ == data.accepts@
    &&& o.shopper_session_id@ == shopper.session_id@
    &&& o.is_3ds_order
    &&& o.authorize_only == (order_total(items) == 0)
    &&& o.payment_method.name@ == data.card.name@
    &&& o.payment_method.pan@ == data.card.card_number@
    &&& o.payment_method.exp_month == data.card.exp_month
    &&& o.payment_method.exp_year == data.card.exp_year
    &&& o.payment_method.kind@ == "Card"@
    &&& o.payment_method.cvc matches Some(c) && c@ == data.card.cvc@
}

/// Third step: with an open payment on record, record the card and build the
/// gateway request. The total is recomputed from the stored lines; a total
/// declared by the client must equal it. `user` is the customer's profile
/// after the checkout details were merged into it. Nothing but the card
/// list changes, and that only when the request is built.
pub fn prepare_charge(
    db: &mut DbExecutor,
    payment_id: u128,
    data: &WorldpayPaymentData,
    user: &User,
    shopper: &ShopperInfo,
    config: &WorldpayConfig,
) -> (r: Result<GatewayCharge, ChargeError>)
    requires
        old(db).wf(),
    ensures
        final(db).wf(),
        final(db).payments() == old(db).payments(),
        final(db).items() == old(db).items(),
        final(db).challenges() == old(db).challenges(),
        final(db).tokens() == old(db).tokens(),
        r is Err ==> final(db).cards() == old(db).cards(),
        match charge_check(old(db).payments(), old(db).items(), payment_id, data.declared_total) {
            Err(e) => r == Err::<GatewayCharge, ChargeError>(e),
            Ok(total) => r matches Ok(c) && {
                let p = old(db).payments()[payment_id];
                &&& c.order.amount == total
                &&& c.key@ == key_for(*config, p.environment)
                &&& order_matches(c.order, p, old(db).items()[payment_id], *data, *user, *shopper)
                &&& final(db).cards() == card_upsert(old(db).cards(), card_record(p.customer_id, data.card))
            },
        },
{
    let payment = match db.get_payment(&GetPayment::new(payment_id)) {
        Ok(p) => p,
        Err(_) => {
            return Err(ChargeError::NotFound);
        },
    };
    if payment.state != PaymentState::OPEN {
        return Err(ChargeError::AlreadyProcessed);
    }
    let items = match db.get_payment_items(&GetPaymentItems::new(&payment)) {
        Ok(v) => v,
        Err(e) => {
            return Err(ChargeError::Store(e));
        },
    };
    let total = match total_minor_units(&items) {
        Some(t) => t,
        None => {
            return Err(ChargeError::TotalOutOfRange);
        },
    };
    match data.declared_total {
        Some(d) => {
            if d != total {
                return Err(ChargeError::TotalMismatch);
            }
        },
        None => {},
    }
    let name = shopper_name(&user.first_name, &user.last_name);
    let email = match &user.email {
        Some(e) => e.clone(),
        None => String::new(),
    };
    let order = WorldpayOrder {
        order_type: String::from_str("ECOM"),
        order_description: order_description(&items),
        customer_order_code: payment.id,
        amount: total,
        currency_code: String::from_str("GBP"),
        name,
        shopper_email_address: email,
        billing_address: WorldpayBillingAddress::from(&data.billing_address),
        shopper_ip_address: shopper.ip_address.clone(),
        shopper_user_agent: shopper.user_agent.clone(),
        shopper_accept_header: data.accepts.clone(),
        shopper_session_id: shopper.session_id.clone(),
        is_3ds_order: true,
        authorize_only: total == 0,
        payment_method: WorldpayCard::new(
            data.card.name.as_str(),
            data.card.card_number.as_str(),
            data.card.exp_month,
            data.card.exp_year,
            Some(data.card.cvc.as_str()),
        ),
    };
    let card = CreateCard {
        customer_id: payment.customer_id,
        pan: data.card.card_number.clone(),
        exp_month: data.card.exp_month,
        exp_year: data.card.exp_year,
        name_on_card: data.card.name.clone(),
    };
    let _ = db.create_card(card);
    let key = config.key_for(payment.environment);
    Ok(GatewayCharge { key, order })
}

fn describe_method(resp: &WorldpayOrderResp) -> (r: String)
    ensures
        r@ == method_text(*resp),
{
    let mut s = resp.card_issuer.clone();
    s.append(" ");
    s.append(resp.masked_card_number.as_str());
    s
}

/// Moves an open payment to PAID, recording how it was paid.
fn mark_paid(db: &mut DbExecutor, payment_id: u128, resp: &WorldpayOrderResp) -> (r: Result<(), ChargeError>)
    requires
        old(db).wf(),
    ensures
        final(db).wf(),
        final(db).items() == old(db).items(),
        final(db).challenges() == old(db).challenges(),
        final(db).cards() == old(db).cards(),
        final(db).tokens() == old(db).tokens(),
        charge_guard(old(db).payments(), payment_id) matches Err(e) ==> r == Err::<(), ChargeError>(e)
            && final(db).payments() == old(db).payments(),
        charge_guard(old(db).payments(), payment_id) is Ok ==> r is Ok
            && final(db).payments().contains_key(payment_id)
            && final(db).payments() == old(db).payments().insert(payment_id, final(db).payments()[payment_id])
            && paid_with(old(db).payments()[payment_id], final(db).payments()[payment_id], method_text(*resp)),
{
    let method = describe_method(resp);
    match db.update_payment_state(UpdatePaymentState::new(payment_id, PaymentState::PAID, Some(method))) {
        Ok(()) => Ok(()),
        Err(DbError::NotFound) => Err(ChargeError::NotFound),
        Err(_) => Err(ChargeError::AlreadyProcessed),
    }
}

/// Last step of a charge: act on the gateway's answer. A capture marks the
/// payment PAID (the caller then sends the notification, once); a 3-D Secure
/// request records the challenge and leaves the payment open; anything else
/// leaves the store as it was.
pub fn finish_charge(
    db: &mut DbExecutor,
    payment_id: u128,
    response: &Result<WorldpayOrderResp, GatewayUnavailable>,
    time: i64,
) -> (r: Result<WorldpayPaymentStatus, ChargeError>)
    requires
        old(db).wf(),
    ensures
        final(db).wf(),
        final(db).items() == old(db).items(),
        final(db).cards() == old(db).cards(),
        final(db).tokens() == old(db).tokens(),
        response is Err ==> r == Err::<WorldpayPaymentStatus, ChargeError>(ChargeError::GatewayUnavailable),
        r is Err ==> final(db).payments() == old(db).payments() && final(db).challenges() == old(db).challenges(),
        r != Ok::<WorldpayPaymentStatus, ChargeError>(WorldpayPaymentStatus::SUCCESS) ==> final(db).payments() == old(db).payments(),
        r != Ok::<WorldpayPaymentStatus, ChargeError>(WorldpayPaymentStatus::THREEDS) ==> final(db).challenges() == old(db).challenges(),
        response matches Ok(resp) ==> match charge_guard(old(db).payments(), payment_id) {
            Err(e) => r == Err::<WorldpayPaymentStatus, ChargeError>(e),
            Ok(p) => match outcome_of(resp.payment_status) {
                GatewayOutcome::Captured => {
                    &&& r == Ok::<WorldpayPaymentStatus, ChargeError>(WorldpayPaymentStatus::SUCCESS)
                    &&& final(db).payments().contains_key(payment_id)
                    &&& final(db).payments() == old(db).payments().insert(payment_id, final(db).payments()[payment_id])
                    &&& paid_with(p, final(db).payments()[payment_id], method_text(*resp))
                },
                GatewayOutcome::ChallengeRequired => match (resp.one_time_3ds_token, resp.redirect_url) {
                    (Some(token), Some(url)) => {
                        &&& r == Ok::<WorldpayPaymentStatus, ChargeError>(WorldpayPaymentStatus::THREEDS)
                        &&& final(db).challenges() == old(db).challenges().insert(
                            payment_id,
                            ThreedsData {
                                payment_id,
                                one_time_3ds_token: token,
                                redirect_url: url,
                                order_id: resp.order_code,
                                timestamp: time,
                            },
                        )
                    },
                    _ => r == Ok::<WorldpayPaymentStatus, ChargeError>(WorldpayPaymentStatus::UNKNOWN),
                },
                GatewayOutcome::Declined => r == Ok::<WorldpayPaymentStatus, ChargeError>(WorldpayPaymentStatus::FAILED),
                GatewayOutcome::Unknown => r == Ok::<WorldpayPaymentStatus, ChargeError>(WorldpayPaymentStatus::UNKNOWN),
            },
        },
{
    let resp = match response {
        Ok(resp) => resp,
        Err(_) => {
            return Err(ChargeError::GatewayUnavailable);
        },
    };
    let payment = match db.get_payment(&GetPayment::new(payment_id)) {
        Ok(p) => p,
        Err(_) => {
            return Err(ChargeError::NotFound);
        },
    };
    if payment.state != PaymentState::OPEN {
        return Err(ChargeError::AlreadyProcessed);
    }
    match resp.payment_status.outcome() {
        GatewayOutcome::Captured => {
            match mark_paid(db, payment_id, resp) {
                Ok(()) => Ok(WorldpayPaymentStatus::SUCCESS),
                Err(e) => Err(e),
            }
        },
        GatewayOutcome::ChallengeRequired => {
            match (&resp.one_time_3ds_token, &resp.redirect_url) {
                (Some(token), Some(url)) => {
                    let msg = CreateThreedsData {
                        payment_id,
                        one_time_3ds_token: token.clone(),
                        redirect_url: url.clone(),
                        order_id: resp.order_code.clone(),
                        timestamp: time,
                    };
                    match db.create_threeds_data(msg) {
                        Ok(_) => Ok(WorldpayPaymentStatus::THREEDS),
                        Err(e) => Err(ChargeError::Store(e)),
                    }
                },
                _ => Ok(WorldpayPaymentStatus::UNKNOWN),
            }
        },
        GatewayOutcome::Declined => Ok(WorldpayPaymentStatus::FAILED),
        GatewayOutcome::Unknown => Ok(WorldpayPaymentStatus::UNKNOWN),
    }
}

/// A challenge that can be answered: the payment exists and has a pending
/// challenge.
pub open spec fn challenge_pending(payments: Map<u128, Payment>, challenges: Map<u128, ThreedsData>, id: u128) -> bool {
    payments.contains_key(id) && challenges.contains_key(id)
}

/// First step of completing a 3-D Secure challenge. Once the payment is
/// found its challenge is deleted, unconditionally and before the gateway is
/// contacted, whatever happens next: a challenge answers once. The answer
/// goes to the gateway against the challenge's stored order code.
pub fn begin_threeds_completion(
    db: &mut DbExecutor,
    payment_id: u128,
    response_code: &str,
    shopper: &ShopperInfo,
    config: &WorldpayConfig,
) -> (r: Result<GatewayThreeds, ChargeError>)
    requires
        old(db).wf(),
    ensures
        final(db).wf(),
        final(db).payments() == old(db).payments(),
        final(db).items() == old(db).items(),
        final(db).cards() == old(db).cards(),
        final(db).tokens() == old(db).tokens(),
        final(db).challenges() == old(db).challenges().remove(payment_id),
        !old(db).payments().contains_key(payment_id) ==> final(db).challenges() == old(db).challenges(),
        !challenge_pending(old(db).payments(), old(db).challenges(), payment_id) ==> r
            == Err::<GatewayThreeds, ChargeError>(ChargeError::NotFound),
        challenge_pending(old(db).payments(), old(db).challenges(), payment_id) ==> {
            let p = old(db).payments()[payment_id];
            let c = old(db).challenges()[payment_id];
            &&& p.state != PaymentState::OPEN ==> r == Err::<GatewayThreeds, ChargeError>(ChargeError::AlreadyProcessed)
            &&& p.state == PaymentState::OPEN ==> (r matches Ok(g) && {
                &&& g.key@ == key_for(*config, p.environment)
                &&& g.order_code@ == c.order_id@
                &&& g.order.threeds_response_code@ == response_code@
                &&& g.order.shopper_ip_address@ == shopper.ip_address@
                &&& g.order.shopper_user_agent@ == shopper.user_agent@
                &&& g.order.shopper_accept_header@ == shopper.accept_header@
                &&& g.order.shopper_session_id@ == shopper.session_id@
            })
        },
{
    let payment = match db.get_payment(&GetPayment::new(payment_id)) {
        Ok(p) => p,
        Err(_) => {
            proof {
                db.lemma_records_belong_to_payments();
                assert(db.challenges().remove(payment_id) =~= db.challenges());
            }
            return Err(ChargeError::NotFound);
        },
    };
    let found = db.get_threeds_data(&crate::db::GetThreedsData::new(&payment));
    let _ = db.delete_threeds_data(&DeleteThreedsData::new(&payment));
    let challenge = match found {
        Ok(c) => c,
        Err(_) => {
            return Err(ChargeError::NotFound);
        },
    };
    if payment.state != PaymentState::OPEN {
        return Err(ChargeError::AlreadyProcessed);
    }
    let order = WorldpayThreedsOrder {
        threeds_response_code: response_code.to_owned(),
        shopper_ip_address: shopper.ip_address.clone(),
        shopper_user_agent: shopper.user_agent.clone(),
        shopper_accept_header: shopper.accept_header.clone(),
        shopper_session_id: shopper.session_id.clone(),
    };
    Ok(GatewayThreeds { key: config.key_for(payment.environment), order_code: challenge.order_id, order })
}

/// Last step of a 3-D Secure completion: the payment is approved, and marked
/// PAID, exactly when the gateway captured it while it was still open.
/// Otherwise nothing changes; the challenge is gone, so a retry starts a new
/// charge.
pub fn finish_threeds_completion(
    db: &mut DbExecutor,
    payment_id: u128,
    response: &Result<WorldpayOrderResp, GatewayUnavailable>,
) -> (approved: bool)
    requires
        old(db).wf(),
    ensures
        final(db).wf(),
        final(db).items() == old(db).items(),
        final(db).challenges() == old(db).challenges(),
        final(db).cards() == old(db).cards(),
        final(db).tokens() == old(db).tokens(),
        approved <==> (response matches Ok(resp) && outcome_of(resp.payment_status) == GatewayOutcome::Captured
            && charge_guard(old(db).payments(), payment_id) is Ok),
        !approved ==> final(db).payments() == old(db).payments(),
        approved ==> final(db).payments().contains_key(payment_id)
            && final(db).payments() == old(db).payments().insert(payment_id, final(db).payments()[payment_id])
            && paid_with(old(db).payments()[payment_id], final(db).payments()[payment_id], method_text(response->Ok_0)),
{
    match response {
        Ok(resp) => {
            if resp.payment_status.outcome() != GatewayOutcome::Captured {
                return false;
            }
            match mark_paid(db, payment_id, resp) {
                Ok(()) => true,
                Err(_) => false,
            }
        },
        Err(_) => false,
    }
}

/// Fills the customer's profile from the checkout: email and names it lacks
/// are taken from the form, and a missing phone attribute from the billing
/// address. What the profile already holds is kept.
pub fn merge_checkout_details(user: &mut User, data: &WorldpayPaymentData)
    requires
        old(user).wf(),
    ensures
        final(user).wf(),
        final(user).id == old(user).id,
        final(user).realm_roles == old(user).realm_roles,
        final(user).email == if old(user).email is Some { old(user).email } else { data.email },
        final(user).first_name == if old(user).first_name is Some { old(user).first_name } else { data.first_name },
        final(user).last_name == if old(user).last_name is Some { old(user).last_name } else { data.last_name },
        has_attribute_in(old(user).attributes@, "phone"@) ==> final(user).attributes == old(user).attributes,
        !has_attribute_in(old(user).attributes@, "phone"@) ==> {
            &&& final(user).attributes@.drop_last() == old(user).attributes@
            &&& final(user).attributes@.last().name@ == "phone"@
            &&& final(user).attributes@.last().values@.len() == 1
            &&& final(user).attributes@.last().values@[0]@ == data.billing_address.phone@
        },
{
    if user.email.is_none() {
        user.email = copy_opt_string(&data.email);
    }
    if user.first_name.is_none() {
        user.first_name = copy_opt_string(&data.first_name);
    }
    if user.last_name.is_none() {
        user.last_name = copy_opt_string(&data.last_name);
    }
    if !user.has_attribute("phone") {
        user.set_attribute("phone", data.billing_address.phone.as_str());
    }
}

} // verus!

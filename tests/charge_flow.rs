use crypto::mac::Mac;
use wwfypc_payments::charge::{
    begin_charge, finish_charge, finish_threeds_completion, begin_threeds_completion,
    merge_checkout_details, open_inline_payment, prepare_charge, ChargeError, ChargeStart,
    CustomerResolution, WorldpayNewCustomerData, WorldpayNewPaymentData, WorldpayPaymentData,
    WorldpayPaymentStatus,
};
use wwfypc_payments::db::{DbError, DbExecutor, GetPayment, GetPaymentItems, GetThreedsData};
use wwfypc_payments::keycloak::User;
use wwfypc_payments::models::{Payment, PaymentEnvironment, PaymentState, PaymentToken};
use wwfypc_payments::money::DecimalAmount;
use wwfypc_payments::signing::SignedItem;
use wwfypc_payments::worldpay::{
    BillingAddressData, CardData, GatewayUnavailable, ShopperInfo, WorldpayConfig,
    WorldpayOrderResp, WorldpayOrderStatus,
};

const TOKEN: &[u8] = b"upstream signing secret";
const PAYMENT_ID: u128 = 0x1111_2222_3333_4444_5555_6666_7777_8888;
const CUSTOMER_ID: u128 = 42;

fn sign(token: &[u8], item_type: &str, data: &str, title: &str, quantity: i32, price_minor: i64) -> Vec<u8> {
    let message = format!("{}{}{}{}{}", item_type, data, title, quantity, price_minor);
    let mut mac = crypto::hmac::Hmac::new(crypto::sha2::Sha512::new(), token);
    mac.input(message.as_bytes());
    mac.result().code().to_vec()
}

fn store() -> DbExecutor {
    DbExecutor::new(vec![PaymentToken { id: 1, name: "main".to_string(), token: TOKEN.to_vec() }])
}

fn repair_item(price: DecimalAmount, sig_price_minor: i64) -> SignedItem {
    SignedItem {
        item_type: "repair".to_string(),
        item_data: "{\"device\":\"laptop\"}".to_string(),
        title: "Laptop repair".to_string(),
        quantity: 1,
        price,
        sig: sign(TOKEN, "repair", "{\"device\":\"laptop\"}", "Laptop repair", 1, sig_price_minor),
    }
}

fn checkout(order: Option<WorldpayNewPaymentData>, declared_total: Option<i64>) -> WorldpayPaymentData {
    WorldpayPaymentData {
        accepts: "text/html".to_string(),
        email: Some("jo@example.com".to_string()),
        phone: Some("07700900000".to_string()),
        first_name: Some("Jo".to_string()),
        last_name: Some("Bloggs".to_string()),
        card: CardData {
            name: "J Bloggs".to_string(),
            exp_month: 12,
            exp_year: 2030,
            card_number: "4444333322221111".to_string(),
            cvc: "123".to_string(),
        },
        payment: order,
        billing_address: BillingAddressData {
            address_line: vec!["1 High Street".to_string(), "Flat 2".to_string()],
            country: "GB".to_string(),
            city: "Cardiff".to_string(),
            postal_code: "CF10 1AA".to_string(),
            region: "Wales".to_string(),
            phone: "07700900000".to_string(),
        },
        declared_total,
    }
}

fn inline_order(items: Vec<SignedItem>) -> WorldpayNewPaymentData {
    WorldpayNewPaymentData {
        environment: PaymentEnvironment::TEST,
        customer: WorldpayNewCustomerData {
            email: "jo@example.com".to_string(),
            phone: "07700900000".to_string(),
            name: "Jo Bloggs".to_string(),
        },
        items,
    }
}

fn new_user(id: u128) -> User {
    User { id, email: None, first_name: None, last_name: None, realm_roles: vec![], attributes: vec![] }
}

fn shopper() -> ShopperInfo {
    ShopperInfo {
        ip_address: "203.0.113.9".to_string(),
        user_agent: "test-agent".to_string(),
        accept_header: "text/html".to_string(),
        session_id: "session-1".to_string(),
    }
}

fn config() -> WorldpayConfig {
    WorldpayConfig { test_key: "T_KEY".to_string(), live_key: "L_KEY".to_string() }
}

fn response(status: WorldpayOrderStatus, token: Option<&str>, url: Option<&str>) -> WorldpayOrderResp {
    WorldpayOrderResp {
        order_code: "order-77".to_string(),
        payment_status: status,
        card_issuer: "VISA".to_string(),
        masked_card_number: "****1111".to_string(),
        redirect_url: url.map(|s| s.to_string()),
        one_time_3ds_token: token.map(|s| s.to_string()),
    }
}

fn get(db: &DbExecutor, id: u128) -> Result<Payment, DbError> {
    db.get_payment(&GetPayment::new(id))
}

/// Runs a fresh inline order up to a built gateway request.
fn open_and_prepare(db: &mut DbExecutor) -> wwfypc_payments::charge::GatewayCharge {
    let data = checkout(Some(inline_order(vec![repair_item(DecimalAmount { mantissa: 4999, scale: 2 }, 4999)])), None);
    let lines = match begin_charge(db, PAYMENT_ID, &data, &vec![7]) {
        Ok(ChargeStart::NewOrder(lines)) => lines,
        _ => panic!("a fresh signed order should be accepted"),
    };
    let order = data.payment.as_ref().unwrap();
    let p = open_inline_payment(db, PAYMENT_ID, 1_700_000_000, order, CustomerResolution::CreatedAccount(CUSTOMER_ID), lines)
        .unwrap();
    assert_eq!(p.state, PaymentState::OPEN);
    let mut user = new_user(CUSTOMER_ID);
    merge_checkout_details(&mut user, &data);
    prepare_charge(db, PAYMENT_ID, &data, &user, &shopper(), &config()).unwrap()
}

#[test]
fn fresh_inline_order_authorized_is_paid() {
    let mut db = store();
    let charge = open_and_prepare(&mut db);
    assert_eq!(charge.order.amount, 4999);
    assert!(!charge.order.authorize_only);
    assert_eq!(charge.key, "T_KEY");
    assert_eq!(charge.order.customer_order_code, PAYMENT_ID);
    assert_eq!(charge.order.order_description, "Laptop repair");
    assert_eq!(charge.order.name, "Jo Bloggs");
    assert_eq!(charge.order.shopper_email_address, "jo@example.com");
    assert_eq!(charge.order.currency_code, "GBP");
    assert_eq!(charge.order.billing_address.address2, Some("Flat 2".to_string()));
    assert_eq!(charge.order.billing_address.address3, None);
    let status = finish_charge(&mut db, PAYMENT_ID, &Ok(response(WorldpayOrderStatus::Authorized, None, None)), 1_700_000_100);
    assert_eq!(status, Ok(WorldpayPaymentStatus::SUCCESS));
    let p = get(&db, PAYMENT_ID).unwrap();
    assert_eq!(p.state, PaymentState::PAID);
    assert_eq!(p.customer_id, CUSTOMER_ID);
    assert_eq!(p.payment_method, Some("VISA ****1111".to_string()));
    let items = db.get_payment_items(&GetPaymentItems::new(&p)).unwrap();
    assert_eq!(items.len(), 1);
    assert_eq!(items[0].price, 4999);
    assert_eq!(items[0].id, 7);
    assert_eq!(db.get_threeds_data(&GetThreedsData::new(&p)).err(), Some(DbError::NotFound));
}

#[test]
fn fresh_inline_order_pre_authorized_needs_threeds() {
    let mut db = store();
    open_and_prepare(&mut db);
    let resp = response(WorldpayOrderStatus::PreAuthorized, Some("otp-1"), Some("https://acs.example/3ds"));
    let status = finish_charge(&mut db, PAYMENT_ID, &Ok(resp), 1_700_000_100);
    assert_eq!(status, Ok(WorldpayPaymentStatus::THREEDS));
    let p = get(&db, PAYMENT_ID).unwrap();
    assert_eq!(p.state, PaymentState::OPEN);
    let c = db.get_threeds_data(&GetThreedsData::new(&p)).unwrap();
    assert_eq!(c.one_time_3ds_token, "otp-1");
    assert_eq!(c.redirect_url, "https://acs.example/3ds");
    assert_eq!(c.order_id, "order-77");
    assert_eq!(c.timestamp, 1_700_000_100);
}

#[test]
fn pre_authorized_without_challenge_details_is_unknown() {
    let mut db = store();
    open_and_prepare(&mut db);
    let status = finish_charge(&mut db, PAYMENT_ID, &Ok(response(WorldpayOrderStatus::PreAuthorized, None, None)), 5);
    assert_eq!(status, Ok(WorldpayPaymentStatus::UNKNOWN));
    assert_eq!(get(&db, PAYMENT_ID).unwrap().state, PaymentState::OPEN);
}

#[test]
fn tampered_price_is_rejected() {
    let db = store();
    // signed for 49.99, submitted as 4.99
    let data = checkout(Some(inline_order(vec![repair_item(DecimalAmount { mantissa: 499, scale: 2 }, 4999)])), None);
    let r = begin_charge(&db, PAYMENT_ID, &data, &vec![7]);
    assert!(matches!(r, Err(ChargeError::InvalidSignature)));
    assert_eq!(get(&db, PAYMENT_ID).err(), Some(DbError::NotFound));
}

#[test]
fn signature_from_unknown_token_is_rejected() {
    let db = store();
    let mut item = repair_item(DecimalAmount { mantissa: 4999, scale: 2 }, 4999);
    item.sig = sign(b"another secret", "repair", "{\"device\":\"laptop\"}", "Laptop repair", 1, 4999);
    let data = checkout(Some(inline_order(vec![item])), None);
    assert!(matches!(begin_charge(&db, PAYMENT_ID, &data, &vec![7]), Err(ChargeError::InvalidSignature)));
}

#[test]
fn one_bad_item_rejects_the_batch() {
    let db = store();
    let good = repair_item(DecimalAmount { mantissa: 4999, scale: 2 }, 4999);
    let mut bad = repair_item(DecimalAmount { mantissa: 4999, scale: 2 }, 4999);
    bad.quantity = 2;
    let data = checkout(Some(inline_order(vec![good, bad])), None);
    assert!(matches!(begin_charge(&db, PAYMENT_ID, &data, &vec![7, 8]), Err(ChargeError::InvalidSignature)));
}

#[test]
fn existing_account_stops_the_charge() {
    let mut db = store();
    let data = checkout(Some(inline_order(vec![repair_item(DecimalAmount { mantissa: 4999, scale: 2 }, 4999)])), None);
    let lines = match begin_charge(&db, PAYMENT_ID, &data, &vec![7]) {
        Ok(ChargeStart::NewOrder(lines)) => lines,
        _ => panic!("order should verify"),
    };
    let r = open_inline_payment(&mut db, PAYMENT_ID, 0, data.payment.as_ref().unwrap(), CustomerResolution::ExistingAccount, lines);
    assert!(matches!(r, Err(ChargeError::ExistingAccountConflict)));
    assert_eq!(get(&db, PAYMENT_ID).err(), Some(DbError::NotFound));
}

#[test]
fn paid_payment_is_not_charged_again() {
    let mut db = store();
    open_and_prepare(&mut db);
    finish_charge(&mut db, PAYMENT_ID, &Ok(response(WorldpayOrderStatus::Success, None, None)), 1).unwrap();
    let data = checkout(None, None);
    assert!(matches!(begin_charge(&db, PAYMENT_ID, &data, &vec![]), Err(ChargeError::AlreadyProcessed)));
    let mut user = new_user(CUSTOMER_ID);
    merge_checkout_details(&mut user, &data);
    assert!(matches!(prepare_charge(&mut db, PAYMENT_ID, &data, &user, &shopper(), &config()), Err(ChargeError::AlreadyProcessed)));
    let again = finish_charge(&mut db, PAYMENT_ID, &Ok(response(WorldpayOrderStatus::Success, None, None)), 2);
    assert_eq!(again, Err(ChargeError::AlreadyProcessed));
    assert_eq!(get(&db, PAYMENT_ID).unwrap().state, PaymentState::PAID);
}

#[test]
fn declared_total_must_match_stored_total() {
    let mut db = store();
    open_and_prepare(&mut db);
    let data = checkout(None, Some(100));
    let user = User { first_name: Some("Jo".to_string()), last_name: Some("Bloggs".to_string()), ..new_user(CUSTOMER_ID) };
    let r = prepare_charge(&mut db, PAYMENT_ID, &data, &user, &shopper(), &config());
    assert!(matches!(r, Err(ChargeError::TotalMismatch)));
    let ok = prepare_charge(&mut db, PAYMENT_ID, &checkout(None, Some(4999)), &user, &shopper(), &config()).unwrap();
    assert_eq!(ok.order.amount, 4999);
}

#[test]
fn threeds_completion_is_single_use() {
    let mut db = store();
    open_and_prepare(&mut db);
    let resp = response(WorldpayOrderStatus::PreAuthorized, Some("otp-1"), Some("https://acs.example/3ds"));
    finish_charge(&mut db, PAYMENT_ID, &Ok(resp), 9).unwrap();
    let first = begin_threeds_completion(&mut db, PAYMENT_ID, "PARES", &shopper(), &config()).unwrap();
    assert_eq!(first.order_code, "order-77");
    assert_eq!(first.key, "T_KEY");
    assert_eq!(first.order.threeds_response_code, "PARES");
    assert!(finish_threeds_completion(&mut db, PAYMENT_ID, &Ok(response(WorldpayOrderStatus::Authorized, None, None))));
    assert_eq!(get(&db, PAYMENT_ID).unwrap().state, PaymentState::PAID);
    let second = begin_threeds_completion(&mut db, PAYMENT_ID, "PARES", &shopper(), &config());
    assert!(matches!(second, Err(ChargeError::NotFound)));
}

#[test]
fn failed_threeds_leaves_payment_open() {
    let mut db = store();
    open_and_prepare(&mut db);
    let resp = response(WorldpayOrderStatus::PreAuthorized, Some("otp-1"), Some("https://acs.example/3ds"));
    finish_charge(&mut db, PAYMENT_ID, &Ok(resp), 9).unwrap();
    begin_threeds_completion(&mut db, PAYMENT_ID, "PARES", &shopper(), &config()).unwrap();
    assert!(!finish_threeds_completion(&mut db, PAYMENT_ID, &Err(GatewayUnavailable)));
    assert_eq!(get(&db, PAYMENT_ID).unwrap().state, PaymentState::OPEN);
}

#[test]
fn threeds_completion_deletes_the_challenge_before_the_gateway() {
    let mut db = store();
    open_and_prepare(&mut db);
    let resp = response(WorldpayOrderStatus::PreAuthorized, Some("otp-1"), Some("https://acs.example/3ds"));
    finish_charge(&mut db, PAYMENT_ID, &Ok(resp), 9).unwrap();
    let request = begin_threeds_completion(&mut db, PAYMENT_ID, "PARES", &shopper(), &config()).unwrap();
    assert_eq!(request.order_code, "order-77");
    let p = get(&db, PAYMENT_ID).unwrap();
    assert_eq!(db.get_threeds_data(&GetThreedsData::new(&p)).err(), Some(DbError::NotFound));
    let unknown = begin_threeds_completion(&mut db, 999, "PARES", &shopper(), &config());
    assert!(matches!(unknown, Err(ChargeError::NotFound)));
}

#[test]
fn unknown_payment_without_order_is_not_found() {
    let db = store();
    assert!(matches!(begin_charge(&db, PAYMENT_ID, &checkout(None, None), &vec![]), Err(ChargeError::NotFound)));
}

#[test]
fn gateway_failure_is_distinct_from_decline() {
    let mut db = store();
    open_and_prepare(&mut db);
    assert_eq!(finish_charge(&mut db, PAYMENT_ID, &Err(GatewayUnavailable), 1), Err(ChargeError::GatewayUnavailable));
    let declined = finish_charge(&mut db, PAYMENT_ID, &Ok(response(WorldpayOrderStatus::Failed, None, None)), 1);
    assert_eq!(declined, Ok(WorldpayPaymentStatus::FAILED));
    let other = finish_charge(&mut db, PAYMENT_ID, &Ok(response(WorldpayOrderStatus::Settled, None, None)), 1);
    assert_eq!(other, Ok(WorldpayPaymentStatus::UNKNOWN));
    assert_eq!(get(&db, PAYMENT_ID).unwrap().state, PaymentState::OPEN);
}

#[test]
fn zero_total_is_authorize_only() {
    let mut db = store();
    let item = SignedItem {
        item_type: "voucher".to_string(),
        item_data: "{}".to_string(),
        title: "Free check".to_string(),
        quantity: 1,
        price: DecimalAmount { mantissa: 0, scale: 2 },
        sig: sign(TOKEN, "voucher", "{}", "Free check", 1, 0),
    };
    let data = checkout(Some(inline_order(vec![item])), None);
    let lines = match begin_charge(&db, PAYMENT_ID, &data, &vec![1]) {
        Ok(ChargeStart::NewOrder(lines)) => lines,
        _ => panic!("order should verify"),
    };
    open_inline_payment(&mut db, PAYMENT_ID, 0, data.payment.as_ref().unwrap(), CustomerResolution::SessionUser(5), lines).unwrap();
    let user = User { first_name: Some("Jo".to_string()), ..new_user(5) };
    let c = prepare_charge(&mut db, PAYMENT_ID, &data, &user, &shopper(), &config()).unwrap();
    assert_eq!(c.order.amount, 0);
    assert!(c.order.authorize_only);
    assert_eq!(c.order.name, "Jo ");
}

#[test]
fn name_keeps_latin1_letters() {
    let mut db = store();
    open_and_prepare(&mut db);
    let user = User { first_name: Some("Zoë".to_string()), last_name: Some("Li李".to_string()), ..new_user(CUSTOMER_ID) };
    let c = prepare_charge(&mut db, PAYMENT_ID, &checkout(None, None), &user, &shopper(), &config()).unwrap();
    assert_eq!(c.order.name, "Zoë Li");
}

#[test]
fn live_payment_uses_live_key() {
    let mut db = store();
    let mut order = inline_order(vec![repair_item(DecimalAmount { mantissa: 4999, scale: 2 }, 4999)]);
    order.environment = PaymentEnvironment::LIVE;
    let data = checkout(Some(order), None);
    let lines = match begin_charge(&db, PAYMENT_ID, &data, &vec![3]) {
        Ok(ChargeStart::NewOrder(lines)) => lines,
        _ => panic!("order should verify"),
    };
    open_inline_payment(&mut db, PAYMENT_ID, 0, data.payment.as_ref().unwrap(), CustomerResolution::SessionUser(5), lines).unwrap();
    let user = User { first_name: Some("Jo".to_string()), ..new_user(5) };
    let c = prepare_charge(&mut db, PAYMENT_ID, &data, &user, &shopper(), &config()).unwrap();
    assert_eq!(c.key, "L_KEY");
}

#[test]
fn card_is_recorded_once() {
    let mut db = store();
    open_and_prepare(&mut db);
    let user = User { first_name: Some("Jo".to_string()), ..new_user(CUSTOMER_ID) };
    prepare_charge(&mut db, PAYMENT_ID, &checkout(None, None), &user, &shopper(), &config()).unwrap();
    let card = db.create_card(wwfypc_payments::db::CreateCard::new(CUSTOMER_ID, "4444333322221111", 1, 2031, "Other")).unwrap();
    assert_eq!(card.exp_year, 2030);
    assert_eq!(card.name_on_card, "J Bloggs");
}

#[test]
fn second_inline_payment_with_same_id_is_refused() {
    let mut db = store();
    open_and_prepare(&mut db);
    let data = checkout(Some(inline_order(vec![repair_item(DecimalAmount { mantissa: 4999, scale: 2 }, 4999)])), None);
    let r = open_inline_payment(&mut db, PAYMENT_ID, 0, data.payment.as_ref().unwrap(), CustomerResolution::SessionUser(1), vec![]);
    assert!(matches!(r, Err(ChargeError::Store(DbError::AlreadyExists))));
}

#[test]
fn checkout_details_fill_missing_profile_fields() {
    let data = checkout(None, None);
    let mut user = User { first_name: Some("Joanna".to_string()), ..new_user(1) };
    merge_checkout_details(&mut user, &data);
    assert_eq!(user.first_name, Some("Joanna".to_string()));
    assert_eq!(user.last_name, Some("Bloggs".to_string()));
    assert_eq!(user.email, Some("jo@example.com".to_string()));
    assert!(user.has_attribute("phone"));
    assert_eq!(user.attributes[0].values, vec!["07700900000".to_string()]);
}

#[test]
fn signed_line_with_zero_quantity_is_refused_by_the_store() {
    let mut db = store();
    let item = SignedItem {
        item_type: "repair".to_string(),
        item_data: "{}".to_string(),
        title: "Nothing".to_string(),
        quantity: 0,
        price: DecimalAmount { mantissa: 100, scale: 2 },
        sig: sign(TOKEN, "repair", "{}", "Nothing", 0, 100),
    };
    let data = checkout(Some(inline_order(vec![item])), None);
    let lines = match begin_charge(&db, PAYMENT_ID, &data, &vec![1]) {
        Ok(ChargeStart::NewOrder(lines)) => lines,
        _ => panic!("the signature itself is valid"),
    };
    let r = open_inline_payment(&mut db, PAYMENT_ID, 0, data.payment.as_ref().unwrap(), CustomerResolution::SessionUser(1), lines);
    assert!(matches!(r, Err(ChargeError::Store(DbError::InvalidQuantity))));
    assert_eq!(get(&db, PAYMENT_ID).err(), Some(DbError::NotFound));
}

use crypto::mac::Mac;
use wwfypc_payments::db::{
    CreatePayment, CreatePaymentItem, DbError, DbExecutor, GetPayment, GetPaymentItems,
    GetPaymentTokens, UpdatePaymentState,
};
use wwfypc_payments::keycloak::{roles_to_add, Role, User, UserAttribute};
use wwfypc_payments::models::{PaymentEnvironment, PaymentItem, PaymentState, PaymentToken};
use wwfypc_payments::money::DecimalAmount;
use wwfypc_payments::oauth::{
    BearerAuthToken, OAuthToken, OAuthTokenIntrospect, OAuthTokenIntrospectAccess,
    OAuthTokenResponse, TokenStep, next_token_step,
};
use wwfypc_payments::signing::{message_bytes, signature_matches, SignedItem};
use wwfypc_payments::views::{
    authorize_payment_view, customer_view, item_view, login_callback_accepted,
    login_redirect_params, payment_page_flags, AccessError, LoginKey, MerchantUrlError,
    MerchantVerificationData, OauthLoginInfo,
};
use wwfypc_payments::worldpay::{
    order_description, shopper_name, total_minor_units, BillingAddressData, WorldpayBillingAddress,
    WorldpayCard, WorldpayOrderStatus, GatewayOutcome,
};

fn amount(mantissa: i128, scale: u32) -> DecimalAmount {
    DecimalAmount { mantissa, scale }
}

fn line(title: &str, quantity: i32, price: i64) -> PaymentItem {
    PaymentItem {
        id: 1,
        payment_id: 1,
        item_type: "repair".to_string(),
        item_data: "{}".to_string(),
        title: title.to_string(),
        quantity,
        price,
    }
}

#[test]
fn price_round_trip_49_99() {
    assert_eq!(amount(4999, 2).to_minor_units(), Some(4999));
    let shown = item_view(&line("Repair", 1, 4999));
    assert_eq!(shown.price, amount(4999, 2));
    assert_eq!(DecimalAmount::from_minor_units(4999), amount(4999, 2));
}

#[test]
fn minor_units_scale_and_round() {
    assert_eq!(amount(5, 0).to_minor_units(), Some(500));
    assert_eq!(amount(125, 1).to_minor_units(), Some(1250));
    assert_eq!(amount(12345, 3).to_minor_units(), Some(1235));
    assert_eq!(amount(12344, 3).to_minor_units(), Some(1234));
    assert_eq!(amount(-12345, 3).to_minor_units(), Some(-1235));
    assert_eq!(amount(499000, 4).to_minor_units(), Some(4990));
    assert_eq!(amount(7, 40).to_minor_units(), Some(0));
    assert_eq!(amount(i64::MAX as i128, 0).to_minor_units(), None);
    assert_eq!(amount(i64::MAX as i128, 2).to_minor_units(), Some(i64::MAX));
}

#[test]
fn message_is_fields_then_decimal_numbers() {
    let m = message_bytes("repair", "{\"a\":1}", "Fix", 2, -4999);
    assert_eq!(m, b"repair{\"a\":1}Fix2-4999".to_vec());
    assert_eq!(message_bytes("", "", "", 0, 0), b"00".to_vec());
}

fn hmac(token: &[u8], message: &[u8]) -> Vec<u8> {
    let mut mac = crypto::hmac::Hmac::new(crypto::sha2::Sha512::new(), token);
    mac.input(message);
    mac.result().code().to_vec()
}

fn tokens() -> Vec<PaymentToken> {
    vec![
        PaymentToken { id: 1, name: "old".to_string(), token: b"first".to_vec() },
        PaymentToken { id: 2, name: "new".to_string(), token: b"second".to_vec() },
    ]
}

#[test]
fn any_current_token_may_sign() {
    let message = b"repair{}Fix14999".to_vec();
    assert!(signature_matches(&message, &hmac(b"second", &message), &tokens()));
    assert!(signature_matches(&message, &hmac(b"first", &message), &tokens()));
    assert!(!signature_matches(&message, &hmac(b"third", &message), &tokens()));
    assert!(!signature_matches(&message, &hmac(b"first", &message), &vec![]));
    assert!(!signature_matches(&message, &vec![], &tokens()));
}

#[test]
fn signed_item_verifies_and_mutations_fail() {
    let sig = hmac(b"first", b"repair{}Fix14999");
    let item = SignedItem {
        item_type: "repair".to_string(),
        item_data: "{}".to_string(),
        title: "Fix".to_string(),
        quantity: 1,
        price: amount(4999, 2),
        sig: sig.clone(),
    };
    assert!(item.verify(&tokens()));
    let mut t = SignedItem { item_type: "repairs".to_string(), ..item };
    assert!(!t.verify(&tokens()));
    t.item_type = "repair".to_string();
    t.title = "Fix!".to_string();
    assert!(!t.verify(&tokens()));
    t.title = "Fix".to_string();
    t.quantity = 2;
    assert!(!t.verify(&tokens()));
    t.quantity = 1;
    t.item_data = "{ }".to_string();
    assert!(!t.verify(&tokens()));
    t.item_data = "{}".to_string();
    assert!(t.verify(&tokens()));
}

#[test]
fn order_total_and_description() {
    let items = vec![line("Screen", 2, 1500), line("Battery", 1, 2999)];
    assert_eq!(total_minor_units(&items), Some(5999));
    assert_eq!(order_description(&items), "Screen, Battery");
    assert_eq!(total_minor_units(&vec![]), Some(0));
    assert_eq!(order_description(&vec![]), "");
    let huge = vec![line("A", 2, i64::MAX / 2 + 1)];
    assert_eq!(total_minor_units(&huge), None);
    let back = vec![line("A", 1, i64::MAX), line("B", 1, 1), line("C", 1, -5)];
    assert_eq!(total_minor_units(&back), None);
}

#[test]
fn status_vocabulary_maps_to_outcomes() {
    assert_eq!(WorldpayOrderStatus::Success.outcome(), GatewayOutcome::Captured);
    assert_eq!(WorldpayOrderStatus::Authorized.outcome(), GatewayOutcome::Captured);
    assert_eq!(WorldpayOrderStatus::PreAuthorized.outcome(), GatewayOutcome::ChallengeRequired);
    assert_eq!(WorldpayOrderStatus::Failed.outcome(), GatewayOutcome::Declined);
    assert_eq!(WorldpayOrderStatus::Refunded.outcome(), GatewayOutcome::Unknown);
}

#[test]
fn shopper_name_encoding() {
    assert_eq!(shopper_name(&Some("Jo".to_string()), &Some("Bloggs".to_string())), "Jo Bloggs");
    assert_eq!(shopper_name(&None, &None), " ");
    assert_eq!(shopper_name(&Some("Li".to_string()), &Some("李".to_string())), "Li ");
    assert_eq!(shopper_name(&Some("Zoë".to_string()), &None), "Zoë ");
    assert_eq!(shopper_name(&Some("Ωmega".to_string()), &Some("Ñoño".to_string())), "mega Ñoño");
}

#[test]
fn billing_address_takes_three_lines() {
    let data = BillingAddressData {
        address_line: vec![],
        country: "GB".to_string(),
        city: "Cardiff".to_string(),
        postal_code: "CF10".to_string(),
        region: "Wales".to_string(),
        phone: "1".to_string(),
    };
    let a = WorldpayBillingAddress::from(&data);
    assert_eq!(a.address1, "");
    assert_eq!(a.address2, None);
    assert_eq!(a.state, "Wales");
    let data = BillingAddressData {
        address_line: vec!["a".to_string(), "b".to_string(), "c".to_string(), "d".to_string()],
        ..data
    };
    let a = WorldpayBillingAddress::from(&data);
    assert_eq!((a.address1.as_str(), a.address2.as_deref(), a.address3.as_deref()), ("a", Some("b"), Some("c")));
    let card = WorldpayCard::new("J", "4444", 1, 2030, None);
    assert_eq!(card.kind, "Card");
    assert_eq!(card.cvc, None);
}

fn store_with_payment() -> DbExecutor {
    let mut db = DbExecutor::new(tokens());
    let items = vec![
        CreatePaymentItem::new(10, "repair", "{}", "Screen", 2, &amount(15, 0)),
        CreatePaymentItem::new(11, "part", "{}", "Cable", 1, &amount(499, 2)),
    ];
    db.create_payment(CreatePayment::new(5, 100, PaymentState::OPEN, PaymentEnvironment::TEST, 9, items)).unwrap();
    db
}

#[test]
fn store_creates_payment_with_items_atomically() {
    let mut db = store_with_payment();
    let p = db.get_payment(&GetPayment::new(5)).unwrap();
    let items = db.get_payment_items(&GetPaymentItems::new(&p)).unwrap();
    assert_eq!(items.iter().map(|i| i.price).collect::<Vec<_>>(), vec![1500, 499]);
    let bad = vec![
        CreatePaymentItem::new(12, "repair", "{}", "Ok", 1, &amount(1, 0)),
        CreatePaymentItem::new(13, "repair", "{}", "Bad", 0, &amount(1, 0)),
    ];
    let r = db.create_payment(CreatePayment::new(6, 100, PaymentState::OPEN, PaymentEnvironment::TEST, 9, bad));
    assert_eq!(r.err(), Some(DbError::InvalidQuantity));
    assert_eq!(db.get_payment(&GetPayment::new(6)).err(), Some(DbError::NotFound));
    let big = vec![CreatePaymentItem::new(14, "repair", "{}", "Big", 1, &amount(i64::MAX as i128, 0))];
    let r = db.create_payment(CreatePayment::new(6, 100, PaymentState::OPEN, PaymentEnvironment::TEST, 9, big));
    assert_eq!(r.err(), Some(DbError::PriceOutOfRange));
    let dup = db.create_payment(CreatePayment::new(5, 100, PaymentState::OPEN, PaymentEnvironment::TEST, 9, vec![]));
    assert_eq!(dup.err(), Some(DbError::AlreadyExists));
}

#[test]
fn store_state_moves_forward_only() {
    let mut db = store_with_payment();
    assert_eq!(db.update_payment_state(UpdatePaymentState::new(5, PaymentState::COMPLETE, None)), Err(DbError::InvalidTransition));
    assert_eq!(db.update_payment_state(UpdatePaymentState::new(5, PaymentState::PAID, Some("VISA 1".to_string()))), Ok(()));
    assert_eq!(db.update_payment_state(UpdatePaymentState::new(5, PaymentState::PAID, None)), Err(DbError::InvalidTransition));
    assert_eq!(db.update_payment_state(UpdatePaymentState::new(5, PaymentState::COMPLETE, None)), Ok(()));
    let p = db.get_payment(&GetPayment::new(5)).unwrap();
    assert_eq!(p.state, PaymentState::COMPLETE);
    assert_eq!(p.payment_method, Some("VISA 1".to_string()));
    assert_eq!(db.update_payment_state(UpdatePaymentState::new(77, PaymentState::PAID, None)), Err(DbError::NotFound));
    let t = db.get_payment_tokens(&GetPaymentTokens::new()).unwrap();
    assert_eq!(t.len(), 2);
    assert_eq!(t[1].token, b"second".to_vec());
}

#[test]
fn token_cache_steps() {
    let held = OAuthToken {
        access_token: "A".to_string(),
        expires_at: 100,
        refresh_token: Some("R".to_string()),
        refresh_expires_at: Some(200),
    };
    assert!(matches!(next_token_step(&Some(held), 50), TokenStep::UseCached(a) if a == "A"));
    let held = OAuthToken { access_token: "A".to_string(), expires_at: 100, refresh_token: Some("R".to_string()), refresh_expires_at: Some(200) };
    assert!(matches!(next_token_step(&Some(held), 150), TokenStep::Refresh(r) if r == "R"));
    let held = OAuthToken { access_token: "A".to_string(), expires_at: 100, refresh_token: Some("R".to_string()), refresh_expires_at: Some(200) };
    assert!(matches!(next_token_step(&Some(held), 250), TokenStep::RequestNew));
    assert!(matches!(next_token_step(&None, 0), TokenStep::RequestNew));
    let resp = OAuthTokenResponse {
        access_token: "B".to_string(),
        token_type: "bearer".to_string(),
        expires_in: 300,
        refresh_token: None,
        refresh_expires_in: Some(1800),
        scopes: None,
    };
    let t = OAuthToken::from_response(&resp, 1000).unwrap();
    assert_eq!((t.expires_at, t.refresh_expires_at), (1300, Some(2800)));
    assert!(OAuthToken::from_response(&resp, i64::MAX).is_none());
}

#[test]
fn role_check_needs_audience_and_client_role() {
    let i = OAuthTokenIntrospect {
        active: true,
        sub: None,
        aud: Some(vec!["payments".to_string()]),
        resource_access: Some(vec![OAuthTokenIntrospectAccess {
            client: "payments".to_string(),
            roles: vec!["create-payments".to_string()],
        }]),
    };
    assert!(i.grants_role("payments", "create-payments"));
    assert!(!i.grants_role("payments", "view-payments"));
    assert!(!i.grants_role("other", "create-payments"));
    let no_aud = OAuthTokenIntrospect { aud: None, ..i };
    assert!(!no_aud.grants_role("payments", "create-payments"));
}

#[test]
fn bearer_header_parsing() {
    assert_eq!(BearerAuthToken::from_header("  Bearer abc.def \n").map(|b| b.token), Some("abc.def".to_string()));
    assert!(BearerAuthToken::from_header("Basic abc").is_none());
    assert!(BearerAuthToken::from_header("Bearer").is_none());
    assert_eq!(BearerAuthToken::from_header("\u{3000}Bearer x\u{a0}").map(|b| b.token), Some("x".to_string()));
    assert_eq!(BearerAuthToken::from_trimmed("Bearer ").map(|b| b.token), Some("".to_string()));
}

#[test]
fn payment_view_access() {
    let db = store_with_payment();
    let p = db.get_payment(&GetPayment::new(5)).unwrap();
    assert_eq!(authorize_payment_view(Some(true), None, &p), Ok(()));
    assert_eq!(authorize_payment_view(Some(false), Some(9), &p), Err(AccessError::Forbidden));
    assert_eq!(authorize_payment_view(None, None, &p), Err(AccessError::Unauthorized));
    assert_eq!(authorize_payment_view(None, Some(9), &p), Ok(()));
    assert_eq!(authorize_payment_view(None, Some(8), &p), Err(AccessError::Forbidden));
    let flags = payment_page_flags(&p, 8);
    assert!(!flags.is_users_payment && flags.is_open_payment && flags.is_test);
}

#[test]
fn customer_view_requests_missing_details() {
    let mut user = User { id: 3, email: None, first_name: Some("Jo".to_string()), last_name: None, realm_roles: vec![], attributes: vec![] };
    let v = customer_view(&user);
    assert!(v.request_name && v.request_email && v.request_phone);
    user.set_attribute("phone", "1");
    user.set_attribute("phone", "2");
    assert_eq!(user.attributes.len(), 1);
    assert_eq!(user.attributes[0].values, vec!["2".to_string()]);
    assert!(!customer_view(&user).request_phone);
}

#[test]
fn roles_are_picked_in_wanted_order() {
    let available = vec![
        Role { id: 1, name: "admin".to_string() },
        Role { id: 2, name: "customer".to_string() },
        Role { id: 3, name: "customer".to_string() },
    ];
    let r = roles_to_add(&available, &vec!["customer".to_string(), "missing".to_string(), "admin".to_string()]);
    assert_eq!(r.iter().map(|r| r.id).collect::<Vec<_>>(), vec![2, 1]);
}

#[test]
fn login_helpers() {
    assert_eq!(OauthLoginInfo { next: None }.next_or_root(), "/");
    assert_eq!(OauthLoginInfo { next: Some("/pay".to_string()) }.next_or_root(), "/pay");
    let p = login_redirect_params("/payment/1/", &LoginKey { key: Some("k".to_string()) });
    assert_eq!(p, vec![("next".to_string(), "/payment/1/".to_string()), ("key".to_string(), "k".to_string())]);
    assert_eq!(login_redirect_params("/", &LoginKey { key: None }).len(), 1);
    assert!(login_callback_accepted(&None, 4, 4));
    assert!(!login_callback_accepted(&Some("denied".to_string()), 4, 4));
    assert!(!login_callback_accepted(&None, 4, 5));
}

#[test]
fn merchant_validation_url_must_be_apple() {
    let ok = MerchantVerificationData { url: "https://apple-pay-gateway.apple.com/paymentservices/startSession".to_string() };
    assert_eq!(ok.check_url(), Ok(()));
    let evil = MerchantVerificationData { url: "https://apple.com.evil.example/x".to_string() };
    assert_eq!(evil.check_url(), Err(MerchantUrlError::NotApple));
    let bad = MerchantVerificationData { url: "not a url".to_string() };
    assert_eq!(bad.check_url(), Err(MerchantUrlError::Malformed));
}

#[test]
fn signature_hex_decoding() {
    let text = "00ff10Ab".repeat(16);
    let bytes = wwfypc_payments::signing::decode_signature_hex(&text).unwrap();
    assert_eq!(bytes.len(), 64);
    assert_eq!(&bytes[..4], &[0x00, 0xff, 0x10, 0xab]);
    assert!(wwfypc_payments::signing::decode_signature_hex(&text[..126]).is_none());
    let bad = format!("{}zz", &text[..126]);
    assert!(wwfypc_payments::signing::decode_signature_hex(&bad).is_none());
}

#[test]
fn attribute_names_must_be_unique() {
    let attr = |n: &str| UserAttribute { name: n.to_string(), values: vec![] };
    let mut user = User { id: 1, email: None, first_name: None, last_name: None, realm_roles: vec![], attributes: vec![attr("a"), attr("b")] };
    assert!(user.attributes_unique());
    user.attributes.push(attr("a"));
    assert!(!user.attributes_unique());
}

#[test]
fn store_lists_payments_and_cards() {
    let mut db = store_with_payment();
    db.create_payment(CreatePayment::new(3, 100, PaymentState::OPEN, PaymentEnvironment::LIVE, 9, vec![])).unwrap();
    assert_eq!(db.payment_ids(), vec![5, 3]);
    db.create_card(wwfypc_payments::db::CreateCard::new(9, "4111", 1, 2030, "A")).unwrap();
    db.create_card(wwfypc_payments::db::CreateCard::new(9, "4111", 2, 2031, "B")).unwrap();
    db.create_card(wwfypc_payments::db::CreateCard::new(9, "5500", 3, 2032, "C")).unwrap();
    let cards = db.card_list();
    assert_eq!(cards.iter().map(|c| c.name_on_card.as_str()).collect::<Vec<_>>(), vec!["A", "C"]);
}

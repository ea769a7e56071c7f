use vstd::prelude::*;
use vstd::string::*;

use crate::keycloak::{has_attribute_in, User};
use crate::models::{Payment, PaymentEnvironment, PaymentItem, PaymentState};
use crate::money::DecimalAmount;

verus! {

/// Why a caller may not see a payment.
#[derive(Clone, Copy, Debug, PartialEq, Eq, Structural)]
pub enum AccessError {
    /// Nobody is signed in and no bearer token was given.
    Unauthorized,
    /// The caller is neither the payment's customer nor allowed to view payments.
    Forbidden,
}

/// Who may see a payment: a bearer token must hold the view-payments role
/// (`token_grants_view` is `Some` exactly when a bearer token was given);
/// without one, the signed-in user must be the payment's customer.
pub fn authorize_payment_view(token_grants_view: Option<bool>, session_user: Option<u128>, payment: &Payment) -> (r:
    Result<(), AccessError>)
    ensures
        match token_grants_view {
            Some(g) => r == if g { Ok::<(), AccessError>(()) } else { Err(AccessError::Forbidden) },
            None => match session_user {
                None => r == Err::<(), AccessError>(AccessError::Unauthorized),
                Some(u) => r == if u == payment.customer_id { Ok::<(), AccessError>(()) } else { Err(AccessError::Forbidden) },
            },
        },
{
    match token_grants_view {
        Some(g) => if g {
            Ok(())
        } else {
            Err(AccessError::Forbidden)
        },
        None => match session_user {
            None => Err(AccessError::Unauthorized),
            Some(u) => if u == payment.customer_id {
                Ok(())
            } else {
                Err(AccessError::Forbidden)
            },
        },
    }
}

/// The customer as the checkout page sees it, with the details still to ask for.
pub struct PaymentCustomerResponseData {
    pub id: u128,
    pub email: Option<String>,
    pub request_name: bool,
    pub request_email: bool,
    pub request_phone: bool,
}

pub fn customer_view(user: &User) -> (r: PaymentCustomerResponseData)
    ensures
        r.id == user.id,
        r.email == user.email,
        r.request_name == (user.first_name is None || user.last_name is None),
        r.request_email == user.email is None,
        r.request_phone == !has_attribute_in(user.attributes@, "phone"@),
{
    let email = match &user.email {
        Some(e) => Some(e.clone()),
        None => None,
    };
    PaymentCustomerResponseData {
        id: user.id,
        email,
        request_name: user.first_name.is_none() || user.last_name.is_none(),
        request_email: user.email.is_none(),
        request_phone: !user.has_attribute("phone"),
    }
}

/// A payment line as clients see it; the price is in currency units.
pub struct PaymentItemResponseData {
    pub id: u128,
    pub item_type: String,
    pub item_data: String,
    pub title: String,
    pub price: DecimalAmount,
    pub quantity: i32,
}

pub fn item_view(item: &PaymentItem) -> (r: PaymentItemResponseData)
    ensures
        r.id == item.id,
        r.item_type == item.item_type,
        r.item_data == item.item_data,
        r.title == item.title,
        r.price == (DecimalAmount { mantissa: item.price as i128, scale: 2 }),
        r.quantity == item.quantity,
{
    PaymentItemResponseData {
        id: item.id,
        item_type: item.item_type.clone(),
        item_data: item.item_data.clone(),
        title: item.title.clone(),
        price: DecimalAmount::from_minor_units(item.price),
        quantity: item.quantity,
    }
}

/// What the hosted payment page shows about a payment to user `user_id`.
pub struct PaymentPageFlags {
    pub is_users_payment: bool,
    pub is_open_payment: bool,
    pub is_test: bool,
}

pub fn payment_page_flags(payment: &Payment, user_id: u128) -> (r: PaymentPageFlags)
    ensures
        r.is_users_payment == (payment.customer_id == user_id),
        r.is_open_payment == (payment.state == PaymentState::OPEN),
        r.is_test == (payment.environment != PaymentEnvironment::LIVE),
{
    PaymentPageFlags {
        is_users_payment: payment.customer_id == user_id,
        is_open_payment: payment.state == PaymentState::OPEN,
        is_test: payment.environment != PaymentEnvironment::LIVE,
    }
}

/// Where to go after logging in or out.
pub struct OauthLoginInfo {
    pub next: Option<String>,
}

impl OauthLoginInfo {
    /// The requested page, or the site root.
    pub fn next_or_root(&self) -> (r: String)
        ensures
            r@ == match self.next {
                Some(n) => n@,
                None => "/"@,
            },
    {
        match &self.next {
            Some(n) => n.clone(),
            None => String::from_str("/"),
        }
    }
}

/// A key that a payment link may carry through the login round trip.
pub struct LoginKey {
    pub key: Option<String>,
}

/// The query of the login redirect: `next`, then `key` when there is one.
pub fn login_redirect_params(next: &str, query: &LoginKey) -> (r: Vec<(String, String)>)
    ensures
        r@.len() == if query.key is Some { 2int } else { 1int },
        r@[0].0@ == "next"@ && r@[0].1@ == next@,
        query.key matches Some(k) ==> r@[1].0@ == "key"@ && r@[1].1@ == k@,
{
    let mut params: Vec<(String, String)> = Vec::new();
    params.push((String::from_str("next"), next.to_owned()));
    match &query.key {
        Some(k) => params.push((String::from_str("key"), k.clone())),
        None => {},
    }
    params
}

/// The identity provider's login answer is taken up only when it carries no
/// error and returns the state this session sent.
pub fn login_callback_accepted(error: &Option<String>, sent_state: u128, returned_state: u128) -> (r: bool)
    ensures
        r == (error is None && sent_state == returned_state),
{
    error.is_none() && sent_state == returned_state
}

/// A request to validate an Apple Pay merchant session at `url`.
pub struct MerchantVerificationData {
    pub url: String,
}

/// The host of `url`: `None` when it does not parse, `Some(None)` when it
/// parses but names no host.
pub uninterp spec fn url_host(url: Seq<char>) -> Option<Option<Seq<char>>>;

/// Relies on `reqwest::Url::parse` and `Url::host_str`: the host depends on
/// the text alone.
#[verifier::external_body]
fn parse_url_host(url: &str) -> (r: Option<Option<String>>)
    ensures
        match url_host(url@) {
            None => r is None,
            Some(None) => r matches Some(h) && h is None,
            Some(Some(h)) => r matches Some(Some(s)) && s@ == h,
        },
{
    match reqwest::Url::parse(url) {
        Ok(u) => match u.host_str() {
            Some(h) => Some(Some(h.to_string())),
            None => Some(None),
        },
        Err(_) => None,
    }
}

pub open spec fn apple_suffix() -> Seq<char> {
    seq!['.', 'a', 'p', 'p', 'l', 'e', '.', 'c', 'o', 'm']
}

pub open spec fn is_apple_host(host: Seq<char>) -> bool {
    host.len() >= 10 && host.subrange(host.len() - 10, host.len() as int) == apple_suffix()
}

/// Whether `host` ends in ".apple.com".
pub fn apple_host(host: &str) -> (r: bool)
    ensures
        r == is_apple_host(host@),
{
    let n = host.unicode_len();
    if n < 10 {
        return false;
    }
    let suffix = ['.', 'a', 'p', 'p', 'l', 'e', '.', 'c', 'o', 'm'];
    let mut i: usize = 0;
    while i < 10
        invariant
            i <= 10 <= n,
            n == host@.len(),
            suffix@ == apple_suffix(),
            forall|k: int| 0 <= k < i ==> host@[n - 10 + k] == apple_suffix()[k],
        decreases 10 - i,
    {
        if host.get_char(n - 10 + i) != suffix[i] {
            assert(host@.subrange(n - 10, n as int)[i as int] != apple_suffix()[i as int]);
            return false;
        }
        i = i + 1;
    }
    assert(host@.subrange(n - 10, n as int) =~= apple_suffix());
    true
}

/// Why a merchant validation request is not forwarded.
#[derive(Clone, Copy, Debug, PartialEq, Eq, Structural)]
pub enum MerchantUrlError {
    /// The URL does not parse.
    Malformed,
    /// The URL's host is not under apple.com.
    NotApple,
}

impl MerchantVerificationData {
    /// Only validation URLs on an apple.com host are forwarded; one without
    /// a host counts as not on apple.com.
    pub fn check_url(&self) -> (r: Result<(), MerchantUrlError>)
        ensures
            match url_host(self.url@) {
                None => r == Err::<(), MerchantUrlError>(MerchantUrlError::Malformed),
                Some(None) => r == Err::<(), MerchantUrlError>(MerchantUrlError::NotApple),
                Some(Some(h)) => r == if is_apple_host(h) { Ok::<(), MerchantUrlError>(()) } else { Err(MerchantUrlError::NotApple) },
            },
    {
        match parse_url_host(self.url.as_str()) {
            None => Err(MerchantUrlError::Malformed),
            Some(None) => Err(MerchantUrlError::NotApple),
            Some(Some(h)) => if apple_host(h.as_str()) {
                Ok(())
            } else {
                Err(MerchantUrlError::NotApple)
            },
        }
    }
}

} // verus!

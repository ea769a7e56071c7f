use vstd::prelude::*;

verus! {

/// An access token held by the client, with its expiry and the refresh token
/// that may renew it. Times are seconds since the Unix epoch.
pub struct OAuthToken {
    pub access_token: String,
    pub expires_at: i64,
    pub refresh_token: Option<String>,
    pub refresh_expires_at: Option<i64>,
}

/// The token endpoint's answer; durations are in seconds.
pub struct OAuthTokenResponse {
    pub access_token: String,
    pub token_type: String,
    pub expires_in: i64,
    pub refresh_token: Option<String>,
    pub refresh_expires_in: Option<i64>,
    pub scopes: Option<String>,
}

/// What to do to have a service access token at time `now`.
pub enum TokenStep {
    /// The held token is still valid.
    UseCached(String),
    /// The held token expired; renew it with this refresh token.
    Refresh(String),
    /// Ask for a new token with the client credentials.
    RequestNew,
}

pub open spec fn refresh_usable(t: OAuthToken, now: i64) -> bool {
    t.refresh_expires_at matches Some(e) && e > now && t.refresh_token is Some
}

/// The held token when it has not expired; else its refresh token, when that
/// has not expired; else a new request.
pub fn next_token_step(cached: &Option<OAuthToken>, now: i64) -> (r: TokenStep)
    ensures
        match cached {
            Some(t) => if t.expires_at > now {
                r matches TokenStep::UseCached(a) && a@ == t.access_token@
            } else if refresh_usable(*t, now) {
                r matches TokenStep::Refresh(rt) && rt@ == t.refresh_token->Some_0@
            } else {
                r is RequestNew
            },
            None => r is RequestNew,
        },
{
    match cached {
        Some(t) => {
            if t.expires_at > now {
                return TokenStep::UseCached(t.access_token.clone());
            }
            match (t.refresh_expires_at, &t.refresh_token) {
                (Some(e), Some(rt)) => {
                    if e > now {
                        return TokenStep::Refresh(rt.clone());
                    }
                    TokenStep::RequestNew
                },
                _ => TokenStep::RequestNew,
            }
        },
        None => TokenStep::RequestNew,
    }
}

pub open spec fn in_i64(v: int) -> bool {
    i64::MIN <= v <= i64::MAX
}

impl OAuthToken {
    /// The token to hold after `resp` arrived at `now`; `None` when an expiry
    /// time falls outside the `i64` range.
    pub fn from_response(resp: &OAuthTokenResponse, now: i64) -> (r: Option<OAuthToken>)
        ensures
            r is Some <==> in_i64(now + resp.expires_in) && (resp.refresh_expires_in matches Some(e) ==> in_i64(now + e)),
            r matches Some(t) ==> {
                &&& t.access_token@ == resp.access_token@
                &&& t.expires_at == now + resp.expires_in
                &&& opt_chars(t.refresh_token) == opt_chars(resp.refresh_token)
                &&& match resp.refresh_expires_in {
                    Some(e) => t.refresh_expires_at == Some((now + e) as i64),
                    None => t.refresh_expires_at is None,
                }
            },
    {
        let expires_at = match now.checked_add(resp.expires_in) {
            Some(v) => v,
            None => {
                return None;
            },
        };
        let refresh_expires_at = match resp.refresh_expires_in {
            Some(e) => match now.checked_add(e) {
                Some(v) => Some(v),
                None => {
                    return None;
                },
            },
            None => None,
        };
        Some(
            OAuthToken {
                access_token: resp.access_token.clone(),
                expires_at,
                refresh_token: match &resp.refresh_token {
                    Some(t) => Some(t.clone()),
                    None => None,
                },
                refresh_expires_at,
            },
        )
    }
}

pub open spec fn opt_chars(o: Option<String>) -> Option<Seq<char>> {
    match o {
        Some(s) => Some(s@),
        None => None,
    }
}

/// The roles a token holds for one client.
pub struct OAuthTokenIntrospectAccess {
    pub client: String,
    pub roles: Vec<String>,
}

/// What token introspection reports, as far as this system reads it.
pub struct OAuthTokenIntrospect {
    pub active: bool,
    pub sub: Option<String>,
    pub aud: Option<Vec<String>>,
    pub resource_access: Option<Vec<OAuthTokenIntrospectAccess>>,
}

pub open spec fn contains_text(v: Seq<String>, s: Seq<char>) -> bool {
    exists|i: int| 0 <= i < v.len() && (#[trigger] v[i])@ == s
}

/// The roles listed for `client`, taken from the first entry for it.
pub open spec fn first_access_for(v: Seq<OAuthTokenIntrospectAccess>, client: Seq<char>) -> Option<OAuthTokenIntrospectAccess>
    decreases v.len(),
{
    if v.len() == 0 {
        None
    } else if v[0].client@ == client {
        Some(v[0])
    } else {
        first_access_for(v.drop_first(), client)
    }
}

/// The token is meant for `client_id` and holds `role` among that client's roles.
pub open spec fn grants_role(i: OAuthTokenIntrospect, client_id: Seq<char>, role: Seq<char>) -> bool {
    match (i.aud, i.resource_access) {
        (Some(aud), Some(access)) => contains_text(aud@, client_id) && match first_access_for(access@, client_id) {
            Some(a) => contains_text(a.roles@, role),
            None => false,
        },
        _ => false,
    }
}

fn contains_string(v: &Vec<String>, s: &String) -> (r: bool)
    ensures
        r == contains_text(v@, s@),
{
    let mut i: usize = 0;
    while i < v.len()
        invariant
            i <= v@.len(),
            forall|k: int| 0 <= k < i ==> (#[trigger] v@[k])@ != s@,
        decreases v@.len() - i,
    {
        if v[i] == *s {
            return true;
        }
        i = i + 1;
    }
    false
}

fn access_for(v: &Vec<OAuthTokenIntrospectAccess>, client: &String) -> (r: Option<usize>)
    ensures
        match first_access_for(v@, client@) {
            Some(a) => r matches Some(k) && k < v@.len() && v@[k as int] == a,
            None => r is None,
        },
{
    let mut i: usize = 0;
    assert(v@.subrange(0, v@.len() as int) =~= v@);
    while i < v.len()
        invariant
            i <= v@.len(),
            first_access_for(v@, client@) == first_access_for(v@.subrange(i as int, v@.len() as int), client@),
        decreases v@.len() - i,
    {
        let ghost rest = v@.subrange(i as int, v@.len() as int);
        assert(rest.drop_first() =~= v@.subrange(i + 1, v@.len() as int));
        if v[i].client == *client {
            return Some(i);
        }
        i = i + 1;
    }
    None
}

impl OAuthTokenIntrospect {
    /// Whether the token may be used for `role` on client `client_id`.
    pub fn grants_role(&self, client_id: &str, role: &str) -> (r: bool)
        ensures
            r == grants_role(*self, client_id@, role@),
    {
        let client = client_id.to_owned();
        let wanted = role.to_owned();
        match (&self.aud, &self.resource_access) {
            (Some(aud), Some(access)) => {
                if !contains_string(aud, &client) {
                    return false;
                }
                match access_for(access, &client) {
                    Some(k) => contains_string(&access[k].roles, &wanted),
                    None => false,
                }
            },
            _ => false,
        }
    }
}

/// A code point with the Unicode White_Space property.
pub open spec fn is_white_space(c: char) -> bool {
    let u = c as u32;
    (0x09 <= u <= 0x0D) || u == 0x20 || u == 0x85 || u == 0xA0 || u == 0x1680 || (0x2000 <= u <= 0x200A)
        || u == 0x2028 || u == 0x2029 || u == 0x202F || u == 0x205F || u == 0x3000
}

pub open spec fn trim_start(s: Seq<char>) -> Seq<char>
    decreases s.len(),
{
    if s.len() > 0 && is_white_space(s[0]) {
        trim_start(s.drop_first())
    } else {
        s
    }
}

pub open spec fn trim_end(s: Seq<char>) -> Seq<char>
    decreases s.len(),
{
    if s.len() > 0 && is_white_space(s.last()) {
        trim_end(s.drop_last())
    } else {
        s
    }
}

/// `s` with leading and trailing White_Space removed.
pub open spec fn trimmed(s: Seq<char>) -> Seq<char> {
    trim_end(trim_start(s))
}

/// Relies on `str::trim`: it removes the leading and trailing characters that
/// have the Unicode White_Space property.
#[verifier::external_body]
fn trim_text(s: &str) -> (r: &str)
    ensures
        r@ == trimmed(s@),
{
    s.trim()
}

pub open spec fn bearer_prefix() -> Seq<char> {
    seq!['B', 'e', 'a', 'r', 'e', 'r', ' ']
}

/// The token of an already trimmed `Authorization` value "Bearer <token>".
pub open spec fn bearer_of(t: Seq<char>) -> Option<Seq<char>> {
    if t.len() >= 7 && t.subrange(0, 7) == bearer_prefix() {
        Some(t.subrange(7, t.len() as int))
    } else {
        None
    }
}

/// A bearer token taken from an `Authorization` header.
pub struct BearerAuthToken {
    pub token: String,
}

impl BearerAuthToken {
    pub fn token(&self) -> (r: &str)
        ensures
            r@ == self.token@,
    {
        self.token.as_str()
    }

    /// The token of a trimmed header value, when it has the bearer form.
    pub fn from_trimmed(value: &str) -> (r: Option<BearerAuthToken>)
        ensures
            match bearer_of(value@) {
                Some(t) => r matches Some(b) && b.token@ == t,
                None => r is None,
            },
    {
        let n = value.unicode_len();
        if n < 7 {
            return None;
        }
        let prefix = ['B', 'e', 'a', 'r', 'e', 'r', ' '];
        let mut i: usize = 0;
        while i < 7
            invariant
                i <= 7 <= n,
                n == value@.len(),
                prefix@ == bearer_prefix(),
                forall|k: int| 0 <= k < i ==> value@[k] == bearer_prefix()[k],
            decreases 7 - i,
        {
            if value.get_char(i) != prefix[i] {
                assert(value@.subrange(0, 7)[i as int] != bearer_prefix()[i as int]);
                return None;
            }
            i = i + 1;
        }
        assert(value@.subrange(0, 7) =~= bearer_prefix());
        let token = value.substring_char(7, n);
        Some(BearerAuthToken { token: token.to_owned() })
    }

    /// The bearer token of an `Authorization` header value, surrounding
    /// whitespace ignored.
    pub fn from_header(value: &str) -> (r: Option<BearerAuthToken>)
        ensures
            match bearer_of(trimmed(value@)) {
                Some(t) => r matches Some(b) && b.token@ == t,
                None => r is None,
            },
    {
        BearerAuthToken::from_trimmed(trim_text(value))
    }
}

} // verus!

//! Decisions taken on an `Authorization: <user-id> <token>` header.
use vstd::prelude::*;
use vstd::string::*;
use crate::access_token::{AuthError, UserId, VerifyAccessTokenResult};
use crate::text::{chars_of, has_prefix, range_has_prefix};

verus! {

/// Whether `c` has the Unicode `White_Space` property, as `char::is_whitespace` tells.
pub open spec fn is_whitespace_char(c: char) -> bool {
    ('\u{9}' <= c && c <= '\u{d}') || c == ' ' || c == '\u{85}' || c == '\u{a0}' || c
        == '\u{1680}' || ('\u{2000}' <= c && c <= '\u{200a}') || c == '\u{2028}' || c
        == '\u{2029}' || c == '\u{202f}' || c == '\u{205f}' || c == '\u{3000}'
}

/// Tells whether `c` is whitespace.
pub fn is_whitespace(c: char) -> (r: bool)
    ensures
        r == is_whitespace_char(c),
{
    ('\u{9}' <= c && c <= '\u{d}') || c == ' ' || c == '\u{85}' || c == '\u{a0}' || c
        == '\u{1680}' || ('\u{2000}' <= c && c <= '\u{200a}') || c == '\u{2028}' || c
        == '\u{2029}' || c == '\u{202f}' || c == '\u{205f}' || c == '\u{3000}'
}

/// The first position at or after `i` that is not whitespace, or the length.
pub open spec fn skip_whitespace(s: Seq<char>, i: int) -> int
    decreases s.len() - i,
{
    if 0 <= i < s.len() && is_whitespace_char(s[i]) {
        skip_whitespace(s, i + 1)
    } else {
        i
    }
}

/// The first position at or after `i` that is whitespace, or the length.
pub open spec fn skip_word(s: Seq<char>, i: int) -> int
    decreases s.len() - i,
{
    if 0 <= i < s.len() && !is_whitespace_char(s[i]) {
        skip_word(s, i + 1)
    } else {
        i
    }
}

/// The next whitespace-separated word at or after `i`, as a start and an end position;
/// both are the length where no word is left.
pub open spec fn next_word(s: Seq<char>, i: int) -> (int, int) {
    let a = skip_whitespace(s, i);
    (a, skip_word(s, a))
}

/// Finds the next whitespace-separated word of `s` at or after `i`.
fn find_next_word(s: &Vec<char>, i: usize) -> (r: (usize, usize))
    requires
        i <= s@.len(),
    ensures
        r.0 as int == next_word(s@, i as int).0,
        r.1 as int == next_word(s@, i as int).1,
        i <= r.0 <= r.1 <= s@.len(),
{
    let mut a: usize = i;
    while a < s.len() && is_whitespace(s[a])
        invariant
            i <= a <= s@.len(),
            skip_whitespace(s@, a as int) == skip_whitespace(s@, i as int),
        decreases s@.len() - a,
    {
        a = a + 1;
    }
    let mut b: usize = a;
    while b < s.len() && !is_whitespace(s[b])
        invariant
            a <= b <= s@.len(),
            skip_word(s@, b as int) == skip_word(s@, a as int),
        decreases s@.len() - b,
    {
        b = b + 1;
    }
    (a, b)
}

pub open spec fn is_digit_char(c: char) -> bool {
    '0' <= c && c <= '9'
}

pub open spec fn all_digits(s: Seq<char>) -> bool {
    forall|i: int| 0 <= i < s.len() ==> is_digit_char(#[trigger] s[i])
}

/// The value of a run of decimal digits.
pub open spec fn digits_value(s: Seq<char>) -> nat
    decreases s.len(),
{
    if s.len() == 0 {
        0
    } else {
        digits_value(s.drop_last()) * 10 + (s.last() as u32 - '0' as u32) as nat
    }
}

/// What reading `s` as an `i32` gives, as `str::parse` does: an optional sign, then one
/// or more decimal digits, whose value fits.
pub open spec fn parse_i32_of(s: Seq<char>) -> Option<i32> {
    let signed = s.len() > 0 && (s[0] == '-' || s[0] == '+');
    let digits = if signed {
        s.drop_first()
    } else {
        s
    };
    if digits.len() == 0 || !all_digits(digits) {
        None
    } else if s[0] == '-' {
        if digits_value(digits) <= 0x8000_0000 {
            Some((0 - digits_value(digits)) as i32)
        } else {
            None
        }
    } else if digits_value(digits) <= 0x7fff_ffff {
        Some(digits_value(digits) as i32)
    } else {
        None
    }
}

proof fn lemma_digits_value_prefix(d: Seq<char>, j: int)
    requires
        0 <= j <= d.len(),
        all_digits(d),
    ensures
        digits_value(d.take(j)) <= digits_value(d),
    decreases d.len(),
{
    if j < d.len() {
        let p = d.drop_last();
        assert(all_digits(p)) by {
            assert forall|i: int| 0 <= i < p.len() implies is_digit_char(#[trigger] p[i]) by {
                assert(p[i] == d[i]);
            }
        }
        lemma_digits_value_prefix(p, j);
        assert(p.take(j) =~= d.take(j));
    } else {
        assert(d.take(j) =~= d);
    }
}

/// Reads the characters of `s` from `a` to `b` as an `i32`.
fn parse_i32(s: &Vec<char>, a: usize, b: usize) -> (r: Option<i32>)
    requires
        a <= b <= s@.len(),
    ensures
        r == parse_i32_of(s@.subrange(a as int, b as int)),
{
    let ghost t = s@.subrange(a as int, b as int);
    if a == b {
        return None;
    }
    let negative = s[a] == '-';
    let start: usize = if s[a] == '-' || s[a] == '+' {
        a + 1
    } else {
        a
    };
    let ghost d = s@.subrange(start as int, b as int);
    assert(d =~= if t.len() > 0 && (t[0] == '-' || t[0] == '+') {
        t.drop_first()
    } else {
        t
    });
    if start == b {
        return None;
    }
    let mut value: u64 = 0;
    let mut j: usize = start;
    while j < b
        invariant
            a <= start <= j <= b <= s@.len(),
            d == s@.subrange(start as int, b as int),
            t == s@.subrange(a as int, b as int),
            t.len() > 0,
            negative == (t[0] == '-'),
            d == if t[0] == '-' || t[0] == '+' {
                t.drop_first()
            } else {
                t
            },
            all_digits(d.take(j - start)),
            value == digits_value(d.take(j - start)),
            value <= 0x8000_0000,
        decreases b - j,
    {
        let c = s[j];
        if !('0' <= c && c <= '9') {
            assert(d[j - start] == c);
            assert(!is_digit_char(d[j - start]));
            assert(!all_digits(d));
            return None;
        }
        let ghost prev = d.take(j - start);
        value = value * 10 + (c as u32 - '0' as u32) as u64;
        j = j + 1;
        proof {
            let cur = d.take(j - start);
            assert(cur.drop_last() =~= prev);
            assert(cur.last() == c);
            assert(all_digits(cur)) by {
                assert forall|i: int| 0 <= i < cur.len() implies is_digit_char(#[trigger] cur[i]) by {
                    if i < cur.len() - 1 {
                        assert(cur[i] == prev[i]);
                    }
                }
            }
        }
        if value > 0x8000_0000 {
            proof {
                if all_digits(d) {
                    lemma_digits_value_prefix(d, j - start);
                }
            }
            return None;
        }
    }
    assert(d.take(j - start) =~= d);
    if negative {
        Some((0 - value as i64) as i32)
    } else if value <= 0x7fff_ffff {
        Some(value as i32)
    } else {
        None
    }
}

/// Why a request is refused before it reaches its handler.
#[derive(Clone, Copy, Debug, PartialEq, Eq, Structural)]
pub enum HeaderRejection {
    MissingHeader,
    /// The first word names the removed dev-server feature.
    DevServerToken,
    MissingUserId,
    MissingAccessToken,
    /// The access token is not a well-formed envelope.
    MalformedAccessToken,
    InvalidCredentials,
}

pub open spec fn rejection_status(r: HeaderRejection) -> u16 {
    match r {
        HeaderRejection::MissingUserId
        | HeaderRejection::MissingAccessToken
        | HeaderRejection::MalformedAccessToken => 400,
        _ => 401,
    }
}

pub open spec fn rejection_message(r: HeaderRejection) -> Seq<char> {
    match r {
        HeaderRejection::MissingHeader => "missing authorization header"@,
        HeaderRejection::DevServerToken => {
            "Dev servers were removed in Zed 0.157 please upgrade to SSH remoting"@
        },
        HeaderRejection::MissingUserId => "missing user id in authorization header"@,
        HeaderRejection::MissingAccessToken => "missing access token in authorization header"@,
        HeaderRejection::MalformedAccessToken => "malformed access token"@,
        HeaderRejection::InvalidCredentials => "invalid credentials"@,
    }
}

impl HeaderRejection {
    /// The HTTP status of the refusal: 400 for a malformed request, 401 otherwise.
    pub fn status(&self) -> (r: u16)
        ensures
            r == rejection_status(*self),
    {
        match self {
            HeaderRejection::MissingUserId
            | HeaderRejection::MissingAccessToken
            | HeaderRejection::MalformedAccessToken => 400,
            _ => 401,
        }
    }

    /// The fixed text sent with the refusal.
    pub fn message(&self) -> (r: String)
        ensures
            r@ == rejection_message(*self),
    {
        match self {
            HeaderRejection::MissingHeader => String::from_str("missing authorization header"),
            HeaderRejection::DevServerToken => String::from_str(
                "Dev servers were removed in Zed 0.157 please upgrade to SSH remoting",
            ),
            HeaderRejection::MissingUserId => String::from_str(
                "missing user id in authorization header",
            ),
            HeaderRejection::MissingAccessToken => String::from_str(
                "missing access token in authorization header",
            ),
            HeaderRejection::MalformedAccessToken => String::from_str("malformed access token"),
            HeaderRejection::InvalidCredentials => String::from_str("invalid credentials"),
        }
    }
}

/// Who a request acts for.
#[derive(Clone, Copy, Debug, PartialEq, Eq, Structural)]
pub enum Principal {
    User(UserId),
    /// An admin acting as `user`.
    Impersonated { user: UserId, admin: UserId },
}

/// What to do with a header that has the expected shape.
#[derive(Clone, Debug)]
pub enum HeaderDecision {
    /// In development, the header carried the admin API token marker; the outcome is
    /// decided without the store.
    AdminToken { user_id: UserId, result: VerifyAccessTokenResult },
    /// The access token is to be verified for `user_id`.
    VerifyAccessToken { user_id: UserId, access_token: String },
}

pub ghost enum HeaderDecisionModel {
    AdminToken { user_id: UserId, result: VerifyAccessTokenResult },
    VerifyAccessToken { user_id: UserId, access_token: Seq<char> },
}

impl View for HeaderDecision {
    type V = HeaderDecisionModel;

    open spec fn view(&self) -> HeaderDecisionModel {
        match self {
            HeaderDecision::AdminToken { user_id, result } => HeaderDecisionModel::AdminToken {
                user_id: *user_id,
                result: *result,
            },
            HeaderDecision::VerifyAccessToken { user_id, access_token } => {
                HeaderDecisionModel::VerifyAccessToken {
                    user_id: *user_id,
                    access_token: access_token@,
                }
            },
        }
    }
}

/// The first word of the header of the removed dev-server feature.
pub open spec fn dev_server_token() -> Seq<char> {
    "dev-server-token"@
}

/// Marker before the admin API token, honoured in development only.
pub open spec fn admin_token_prefix() -> Seq<char> {
    "ADMIN_TOKEN:"@
}

/// What an authorization header `h` (`<user-id> <access-token>`, separated by whitespace)
/// decides.
pub open spec fn header_decision_of(
    h: Seq<char>,
    is_development: bool,
    api_token: Seq<char>,
) -> Result<HeaderDecisionModel, HeaderRejection> {
    let (a, b) = next_word(h, 0);
    let first = h.subrange(a, b);
    if first == dev_server_token() {
        Err(HeaderRejection::DevServerToken)
    } else {
        match parse_i32_of(first) {
            None => Err(HeaderRejection::MissingUserId),
            Some(id) => {
                let (c, d) = next_word(h, b);
                if c >= h.len() {
                    Err(HeaderRejection::MissingAccessToken)
                } else {
                    let token = h.subrange(c, d);
                    if is_development && has_prefix(token, admin_token_prefix()) {
                        Ok(
                            HeaderDecisionModel::AdminToken {
                                user_id: UserId(id),
                                result: VerifyAccessTokenResult {
                                    is_valid: token.skip(admin_token_prefix().len() as int)
                                        == api_token,
                                    impersonator_id: None,
                                },
                            },
                        )
                    } else {
                        Ok(
                            HeaderDecisionModel::VerifyAccessToken {
                                user_id: UserId(id),
                                access_token: token,
                            },
                        )
                    }
                }
            },
        }
    }
}

/// Reads an authorization header (`None` when the request has none that is text).
/// `is_development` and `api_token` are the deployment's configuration: the admin API
/// token marker is honoured only in development.
pub fn validate_header(
    header: Option<&str>,
    is_development: bool,
    api_token: &str,
) -> (r: Result<HeaderDecision, HeaderRejection>)
    ensures
        match header {
            None => r == Err::<HeaderDecision, HeaderRejection>(HeaderRejection::MissingHeader),
            Some(h) => match r {
                Ok(d) => header_decision_of(h@, is_development, api_token@) == Ok::<
                    HeaderDecisionModel,
                    HeaderRejection,
                >(d@),
                Err(e) => header_decision_of(h@, is_development, api_token@) == Err::<
                    HeaderDecisionModel,
                    HeaderRejection,
                >(e),
            },
        },
{
    let h = match header {
        Some(h) => h,
        None => return Err(HeaderRejection::MissingHeader),
    };
    let s = chars_of(h);
    let dev_marker = chars_of("dev-server-token");
    let admin_marker = chars_of("ADMIN_TOKEN:");
    proof {
        reveal_strlit("dev-server-token");
        reveal_strlit("ADMIN_TOKEN:");
        assert(dev_marker@ =~= dev_server_token());
        assert(admin_marker@ =~= admin_token_prefix());
    }
    let (a, b) = find_next_word(&s, 0);
    if b - a == dev_marker.len() && range_has_prefix(&s, a, b, &dev_marker) {
        assert(s@.subrange(a as int, b as int) =~= dev_server_token());
        return Err(HeaderRejection::DevServerToken);
    }
    assert(s@.subrange(a as int, b as int) != dev_server_token()) by {
        if s@.subrange(a as int, b as int) == dev_server_token() {
            assert(s@.subrange(a as int, b as int).take(dev_marker@.len() as int) =~= dev_marker@);
        }
    }
    let id = match parse_i32(&s, a, b) {
        Some(id) => id,
        None => return Err(HeaderRejection::MissingUserId),
    };
    let (c, d) = find_next_word(&s, b);
    if c >= s.len() {
        return Err(HeaderRejection::MissingAccessToken);
    }
    let user_id = UserId(id);
    if is_development && range_has_prefix(&s, c, d, &admin_marker) {
        let given = chars_of(api_token);
        let k = c + admin_marker.len();
        let is_valid = d - k == given.len() && range_has_prefix(&s, k, d, &given);
        proof {
            let token = s@.subrange(c as int, d as int);
            assert(token.skip(12) =~= s@.subrange(k as int, d as int));
            if d - k == given@.len() && has_prefix(s@.subrange(k as int, d as int), given@) {
                assert(s@.subrange(k as int, d as int) =~= given@);
            }
            if s@.subrange(k as int, d as int) == given@ {
                assert(s@.subrange(k as int, d as int).take(given@.len() as int) =~= given@);
            }
            assert(is_valid == (token.skip(admin_token_prefix().len() as int) == api_token@));
        }
        Ok(
            HeaderDecision::AdminToken {
                user_id,
                result: VerifyAccessTokenResult { is_valid, impersonator_id: None },
            },
        )
    } else {
        let token = h.substring_char(c, d);
        Ok(HeaderDecision::VerifyAccessToken { user_id, access_token: String::from_str(token) })
    }
}

/// Who the request acts for, once the token has been checked for `user_id`.
pub open spec fn principal_of(
    user_id: UserId,
    verification: Result<VerifyAccessTokenResult, AuthError>,
) -> Result<Principal, HeaderRejection> {
    match verification {
        Ok(v) => if v.is_valid {
            match v.impersonator_id {
                Some(admin) => Ok(Principal::Impersonated { user: user_id, admin }),
                None => Ok(Principal::User(user_id)),
            }
        } else {
            Err(HeaderRejection::InvalidCredentials)
        },
        Err(AuthError::MalformedInput) => Err(HeaderRejection::MalformedAccessToken),
        Err(AuthError::InvalidCredentials) => Err(HeaderRejection::InvalidCredentials),
    }
}

/// Binds the request to a principal after verification, or refuses it.
pub fn principal_for(
    user_id: UserId,
    verification: Result<VerifyAccessTokenResult, AuthError>,
) -> (r: Result<Principal, HeaderRejection>)
    ensures
        r == principal_of(user_id, verification),
{
    match verification {
        Ok(v) => if v.is_valid {
            match v.impersonator_id {
                Some(admin) => Ok(Principal::Impersonated { user: user_id, admin }),
                None => Ok(Principal::User(user_id)),
            }
        } else {
            Err(HeaderRejection::InvalidCredentials)
        },
        Err(AuthError::MalformedInput) => Err(HeaderRejection::MalformedAccessToken),
        Err(AuthError::InvalidCredentials) => Err(HeaderRejection::InvalidCredentials),
    }
}

} // verus!

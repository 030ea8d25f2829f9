//! Who may see the dashboard: HTTP Basic credentials for requests, and a
//! token made of the same credentials for subscriptions.

use vstd::prelude::*;
use vstd::utf8::{decode_utf8, encode_utf8, valid_utf8};
use crate::text::{copy_text, same_text};

verus! {

/// The longest input handed to the encoder, in bytes.
pub const MAX_ENCODER_INPUT: usize = 0x3fff_ffff;

/// The standard base64 text of the bytes, padded, as the `base64` crate
/// writes it.
pub uninterp spec fn base64_text(bytes: Seq<u8>) -> Seq<char>;

/// The bytes that the `base64` crate reads out of a standard, padded base64
/// text; `None` where it reads none.
pub uninterp spec fn base64_bytes(text: Seq<char>) -> Option<Seq<u8>>;

/// Calls `base64`'s `Engine::encode` on the standard engine. The call fails
/// where the length of its output does not fit a `usize`; inputs that long
/// are left out.
#[verifier::external_body]
fn outside_base64_encode(input: &[u8]) -> (r: String)
    requires
        input@.len() <= MAX_ENCODER_INPUT,
    ensures
        r@ == base64_text(input@),
{
    base64::Engine::encode(&base64::engine::general_purpose::STANDARD, input)
}

/// Calls `base64`'s `Engine::decode` on the standard engine; an input that it
/// refuses gives `None`.
#[verifier::external_body]
fn outside_base64_decode(text: &str) -> (r: Option<Vec<u8>>)
    ensures
        match r {
            Some(bytes) => base64_bytes(text@) == Some(bytes@),
            None => base64_bytes(text@) is None,
        },
{
    base64::Engine::decode(&base64::engine::general_purpose::STANDARD, text).ok()
}

/// Calls `String::from_utf8`: the text that the bytes encode, or `None` where
/// they are not UTF-8.
#[verifier::external_body]
fn outside_from_utf8(bytes: Vec<u8>) -> (r: Option<String>)
    ensures
        r is Some <==> valid_utf8(bytes@),
        r matches Some(s) ==> s@ == decode_utf8(bytes@),
{
    String::from_utf8(bytes).ok()
}

/// What becomes of a request.
#[derive(Clone, Copy, Debug, PartialEq, Eq, Structural)]
pub enum AuthOutcome {
    /// The request goes on.
    Authorized,
    /// The request is refused.
    Unauthorized,
    /// The dashboard has no password set and can let nobody in.
    ServerError,
}

/// The word and the blank that a Basic header begins with.
pub open spec fn basic_prefix() -> Seq<char> {
    seq!['B', 'a', 's', 'i', 'c', ' ']
}

/// Whether the text begins with the word and the blank of a Basic header.
pub open spec fn has_basic_prefix(text: Seq<char>) -> bool {
    text.len() >= 6 && text.subrange(0, 6) == basic_prefix()
}

/// The header without the word `Basic` and its blank, as often as they stand
/// in front.
pub open spec fn strip_basic(header: Seq<char>) -> Seq<char>
    decreases header.len(),
{
    if has_basic_prefix(header) {
        strip_basic(header.skip(6))
    } else {
        header
    }
}

/// The place of the first `c` in the text; the text's length where there is
/// none.
pub open spec fn first_index(text: Seq<char>, c: char) -> int
    decreases text.len(),
{
    if text.len() == 0 {
        0
    } else if text[0] == c {
        0
    } else {
        1 + first_index(text.drop_first(), c)
    }
}

/// The first `c` of the text is at `k`, or there is none and `k` is the
/// text's length.
pub proof fn lemma_first_index(text: Seq<char>, c: char, k: int)
    requires
        0 <= k <= text.len(),
        forall|i: int| 0 <= i < k ==> text[i] != c,
        k < text.len() ==> text[k] == c,
    ensures
        first_index(text, c) == k,
    decreases text.len(),
{
    if text.len() == 0 {
    } else if k == 0 {
    } else {
        let tail = text.drop_first();
        assert(text[0] != c);
        assert forall|i: int| 0 <= i < k - 1 implies tail[i] != c by {
            assert(tail[i] == text[i + 1]);
        }
        if k - 1 < tail.len() {
            assert(tail[k - 1] == text[k]);
        }
        lemma_first_index(tail, c, k - 1);
    }
}

/// The user the dashboard expects: the one named, or `admin`.
pub open spec fn expected_user(username: Option<Seq<char>>) -> Seq<char> {
    match username {
        Some(u) => u,
        None => "admin"@,
    }
}

/// What becomes of a request with the given `Authorization` header. The
/// header must begin with `Basic `; what follows must be the base64 text of
/// `user:password`, split at the first colon. A request that passes all of
/// this meets a server error where no password is set, and is let in where
/// user and password are the expected ones.
pub open spec fn basic_auth(
    header: Option<Seq<char>>,
    username: Option<Seq<char>>,
    password: Option<Seq<char>>,
) -> AuthOutcome {
    match header {
        None => AuthOutcome::Unauthorized,
        Some(h) => if !has_basic_prefix(h) {
            AuthOutcome::Unauthorized
        } else {
            match base64_bytes(strip_basic(h)) {
                None => AuthOutcome::Unauthorized,
                Some(bytes) => if !valid_utf8(bytes) {
                    AuthOutcome::Unauthorized
                } else {
                    let text = decode_utf8(bytes);
                    let colon = first_index(text, ':');
                    if colon >= text.len() {
                        AuthOutcome::Unauthorized
                    } else {
                        match password {
                            None => AuthOutcome::ServerError,
                            Some(p) => if text.take(colon) == expected_user(username) && text.skip(
                                colon + 1,
                            ) == p {
                                AuthOutcome::Authorized
                            } else {
                                AuthOutcome::Unauthorized
                            },
                        }
                    }
                },
            }
        },
    }
}

/// The text that a user and a password are encoded from.
pub open spec fn credentials_text(username: Seq<char>, password: Seq<char>) -> Seq<char> {
    username + seq![':'] + password
}

/// Whether the token is the base64 text of `user:password`.
pub open spec fn token_matches(token: Seq<char>, username: Seq<char>, password: Seq<char>) -> bool {
    let bytes = encode_utf8(credentials_text(username, password));
    bytes.len() <= MAX_ENCODER_INPUT && token == base64_text(bytes)
}

/// The password a subscription is checked against: the one set, or none at
/// all.
pub open spec fn expected_password(password: Option<Seq<char>>) -> Seq<char> {
    match password {
        Some(p) => p,
        None => Seq::empty(),
    }
}

fn has_prefix_at(header: &str, from: usize, n: usize) -> (r: bool)
    requires
        n == header@.len(),
        from <= n,
    ensures
        r == has_basic_prefix(header@.skip(from as int)),
{
    if n - from < 6 {
        return false;
    }
    let head = header.substring_char(from, from + 6);
    proof {
        reveal_strlit("Basic ");
        assert("Basic "@ =~= basic_prefix());
        assert(header@.skip(from as int).subrange(0, 6) =~= header@.subrange(from as int, from + 6));
    }
    same_text(head, "Basic ")
}

/// Decides what becomes of a request with the given `Authorization` header,
/// given the user and the password that are set for the dashboard.
pub fn check_basic_auth(header: Option<&str>, username: Option<&str>, password: Option<&str>) -> (r:
    AuthOutcome)
    ensures
        r == basic_auth(
            match header {
                Some(h) => Some(h@),
                None => None,
            },
            match username {
                Some(u) => Some(u@),
                None => None,
            },
            match password {
                Some(p) => Some(p@),
                None => None,
            },
        ),
{
    let h = match header {
        Some(h) => h,
        None => {
            return AuthOutcome::Unauthorized;
        },
    };
    let n = h.unicode_len();
    proof {
        assert(h@.skip(0) == h@);
    }
    if !has_prefix_at(h, 0, n) {
        return AuthOutcome::Unauthorized;
    }
    let mut from: usize = 0;
    while has_prefix_at(h, from, n)
        invariant
            from <= n,
            n == h@.len(),
            strip_basic(h@) == strip_basic(h@.skip(from as int)),
        decreases n - from,
    {
        proof {
            assert(h@.skip(from as int).skip(6) == h@.skip(from + 6));
        }
        from += 6;
    }
    let credentials = h.substring_char(from, n);
    proof {
        assert(h@.subrange(from as int, n as int) == h@.skip(from as int));
    }
    let bytes = match outside_base64_decode(credentials) {
        Some(b) => b,
        None => {
            return AuthOutcome::Unauthorized;
        },
    };
    let text = match outside_from_utf8(bytes) {
        Some(t) => t,
        None => {
            return AuthOutcome::Unauthorized;
        },
    };
    let t = text.as_str();
    let m = t.unicode_len();
    let mut colon: usize = 0;
    while colon < m && t.get_char(colon) != ':'
        invariant
            colon <= m,
            m == t@.len(),
            forall|i: int| 0 <= i < colon ==> t@[i] != ':',
        decreases m - colon,
    {
        colon += 1;
    }
    proof {
        lemma_first_index(t@, ':', colon as int);
    }
    if colon >= m {
        return AuthOutcome::Unauthorized;
    }
    let p = match password {
        Some(p) => p,
        None => {
            return AuthOutcome::ServerError;
        },
    };
    let u = match username {
        Some(u) => u,
        None => "admin",
    };
    let given_user = t.substring_char(0, colon);
    let given_password = t.substring_char(colon + 1, m);
    proof {
        assert(t@.subrange(0, colon as int) == t@.take(colon as int));
        assert(t@.subrange(colon + 1, m as int) == t@.skip(colon + 1));
    }
    if same_text(given_user, u) && same_text(given_password, p) {
        AuthOutcome::Authorized
    } else {
        AuthOutcome::Unauthorized
    }
}

/// Whether the token of a subscription is the base64 text of the dashboard's
/// `user:password`.
pub fn verify_ws_token(token: &str, username: &str, password: &str) -> (r: bool)
    ensures
        r == token_matches(token@, username@, password@),
{
    let credentials = copy_text(username).concat(":").concat(password);
    proof {
        reveal_strlit(":");
        assert(":"@ =~= seq![':']);
        assert(credentials@ =~= credentials_text(username@, password@));
    }
    let bytes = credentials.as_str().as_bytes();
    if bytes.len() > MAX_ENCODER_INPUT {
        return false;
    }
    let expected = outside_base64_encode(bytes);
    same_text(token, expected.as_str())
}

/// Whether the token of a subscription is the right one, given the user and
/// the password that are set for the dashboard: where no user is set it is
/// `admin`, where no password is set it is empty.
pub fn verify_ws_token_with_defaults(token: &str, username: Option<&str>, password: Option<&str>) -> (r:
    bool)
    ensures
        r == token_matches(
            token@,
            expected_user(
                match username {
                    Some(u) => Some(u@),
                    None => None,
                },
            ),
            expected_password(
                match password {
                    Some(p) => Some(p@),
                    None => None,
                },
            ),
        ),
{
    let u = match username {
        Some(u) => u,
        None => "admin",
    };
    let p = match password {
        Some(p) => p,
        None => "",
    };
    proof {
        reveal_strlit("");
        assert(""@ =~= Seq::<char>::empty());
    }
    verify_ws_token(token, u, p)
}

} // verus!

//! Request signing and response classification.
//!
//! Every outbound request carries one header whose value is built from a
//! timestamp, the account name, and a hex-encoded HMAC-SHA1 over a token of
//! the request's metadata. The header construction is verified end to end
//! against [`spec_sign_header`]; only the HMAC computation itself and the
//! hex rendering are taken on trust from their crates, each behind one
//! wrapper.

use vstd::prelude::*;

use crypto::mac::Mac;

use crate::state::FetchError;
use crate::state::FetchOutcome;
use crate::state::Item;
use crate::state::OutcomeModel;
use crate::text::rfind_slash;
use crate::text::spec_rfind_slash;
use crate::text::spec_u64_dec;
use crate::text::u64_to_dec;

verus! {

/// The shared-secret pair every request is signed with.
#[derive(Debug)]
pub struct AccessKey {
    pub account: String,
    pub key: String,
}

/// The HMAC-SHA1 digest of `msg` under `key`. The digest is a pure function
/// of the two byte strings; its value is not axiomatized here, only named,
/// so nothing is assumed about it beyond its twenty-byte length.
pub uninterp spec fn hmac_sha1_of(key: Seq<u8>, msg: Seq<u8>) -> Seq<u8>;

/// Relies on `crypto::hmac::Hmac` over `crypto::sha1::Sha1`: the digest is
/// a function of key and message alone, and SHA-1 digests are 20 bytes.
#[verifier::external_body]
fn hmac_sha1(key: &[u8], msg: &[u8]) -> (r: Vec<u8>)
    ensures
        r@ == hmac_sha1_of(key@, msg@),
        r@.len() == 20,
{
    let mut mac = crypto::hmac::Hmac::new(crypto::sha1::Sha1::new(), key);
    mac.input(msg);
    let result = mac.result();
    result.code().to_vec()
}

/// The lowercase hex digit for `d`.
pub open spec fn spec_hex_digit(d: int) -> char {
    if d == 0 {
        '0'
    } else if d == 1 {
        '1'
    } else if d == 2 {
        '2'
    } else if d == 3 {
        '3'
    } else if d == 4 {
        '4'
    } else if d == 5 {
        '5'
    } else if d == 6 {
        '6'
    } else if d == 7 {
        '7'
    } else if d == 8 {
        '8'
    } else if d == 9 {
        '9'
    } else if d == 10 {
        'a'
    } else if d == 11 {
        'b'
    } else if d == 12 {
        'c'
    } else if d == 13 {
        'd'
    } else if d == 14 {
        'e'
    } else {
        'f'
    }
}

/// Lowercase hex rendering of a byte string: two digits per byte, high
/// nibble first.
pub open spec fn spec_hex(b: Seq<u8>) -> Seq<char>
    decreases b.len(),
{
    if b.len() == 0 {
        Seq::empty()
    } else {
        spec_hex(b.drop_last()) + seq![
            spec_hex_digit(b.last() as int / 16),
            spec_hex_digit(b.last() as int % 16),
        ]
    }
}

/// Relies on `hex::encode`: the result is the lowercase hex rendering of
/// the input, two digits per byte, high nibble first.
#[verifier::external_body]
fn hex_encode(bytes: &[u8]) -> (r: String)
    ensures
        r@ == spec_hex(bytes@),
{
    hex::encode(bytes)
}

/// The token a request signature is computed over:
/// `{timestamp},{account},{method},{path}`.
pub open spec fn spec_token(
    ts: u64,
    account: Seq<char>,
    method: Seq<char>,
    path: Seq<char>,
) -> Seq<char> {
    spec_u64_dec(ts as nat) + seq![','] + account + seq![','] + method + seq![','] + path
}

/// The authentication header value:
/// `{timestamp},{account},{hex(HMAC-SHA1(secret, token))}`, where the HMAC
/// is computed over the UTF-8 bytes of secret and token.
pub open spec fn spec_sign_header(
    ts: u64,
    account: Seq<char>,
    method: Seq<char>,
    path: Seq<char>,
    secret: Seq<char>,
) -> Seq<char> {
    spec_u64_dec(ts as nat) + seq![','] + account + seq![','] + spec_hex(
        hmac_sha1_of(
            vstd::utf8::encode_utf8(secret),
            vstd::utf8::encode_utf8(spec_token(ts, account, method, path)),
        ),
    )
}

/// Builds the authentication header value for one request. The timestamp is
/// a parameter, so the result is a function of its inputs alone: the caller
/// reads the clock once and passes it in.
pub fn sign(method: &str, path: &str, account: &str, secret: &str, timestamp: u64) -> (h: String)
    ensures
        h@ == spec_sign_header(timestamp, account@, method@, path@, secret@),
{
    proof {
        reveal_strlit(",");
        assert(","@ =~= seq![',']);
    }
    let mut token = u64_to_dec(timestamp);
    token.append(",");
    token.append(account);
    token.append(",");
    token.append(method);
    token.append(",");
    token.append(path);
    proof {
        assert(token@ =~= spec_token(timestamp, account@, method@, path@));
    }
    let digest = hmac_sha1(secret.as_bytes(), token.as_str().as_bytes());
    let hex_digest = hex_encode(digest.as_slice());
    let mut h = u64_to_dec(timestamp);
    h.append(",");
    h.append(account);
    h.append(",");
    h.append(hex_digest.as_str());
    proof {
        assert(h@ =~= spec_sign_header(timestamp, account@, method@, path@, secret@));
    }
    h
}

/// `s` with a leading `http://` or `https://` scheme removed.
pub open spec fn spec_strip_scheme(s: Seq<char>) -> Seq<char> {
    if s.len() >= 7 && s.subrange(0, 7) == "http://"@ {
        s.skip(7)
    } else if s.len() >= 8 && s.subrange(0, 8) == "https://"@ {
        s.skip(8)
    } else {
        s
    }
}

/// Index of the first `/` in `s`, or -1 when there is none.
pub open spec fn spec_find_slash(s: Seq<char>) -> int
    decreases s.len(),
{
    if s.len() == 0 {
        -1
    } else if s[0] == '/' {
        0
    } else {
        let r = spec_find_slash(s.drop_first());
        if r < 0 {
            -1
        } else {
            r + 1
        }
    }
}

proof fn lemma_find_slash_scan(s: Seq<char>, i: int)
    requires
        0 <= i <= s.len(),
        forall|x: int| 0 <= x < i ==> s[x] != '/',
    ensures
        i < s.len() && s[i] == '/' ==> spec_find_slash(s) == i,
        i == s.len() ==> spec_find_slash(s) == -1,
    decreases i,
{
    if i > 0 {
        lemma_find_slash_scan(s.drop_first(), i - 1);
    }
}

/// The host component of `s` once the scheme is gone: everything before
/// the first `/`, or all of it when there is none.
pub open spec fn spec_host_of(url: Seq<char>) -> Seq<char> {
    let t = spec_strip_scheme(url);
    let i = spec_find_slash(t);
    if i < 0 {
        t
    } else {
        t.subrange(0, i)
    }
}

/// The path component of `s` once the scheme is gone: everything from the
/// first `/` on, or a single `/` when there is none. The signature is
/// computed over this, never over the full URL.
pub open spec fn spec_path_of(url: Seq<char>) -> Seq<char> {
    let t = spec_strip_scheme(url);
    let i = spec_find_slash(t);
    if i < 0 {
        seq!['/']
    } else {
        t.skip(i)
    }
}

fn str_has_prefix(s: &str, p: &str) -> (r: bool)
    ensures
        r == (s@.len() >= p@.len() && s@.subrange(0, p@.len() as int) == p@),
{
    let sl = s.unicode_len();
    let pl = p.unicode_len();
    if sl < pl {
        return false;
    }
    let mut i: usize = 0;
    while i < pl
        invariant
            i <= pl,
            pl == p@.len(),
            sl == s@.len(),
            pl <= sl,
            forall|x: int| 0 <= x < i ==> s@[x] == p@[x],
        decreases pl - i,
    {
        if s.get_char(i) != p.get_char(i) {
            proof {
                assert(s@.subrange(0, pl as int)[i as int] != p@[i as int]);
            }
            return false;
        }
        i = i + 1;
    }
    proof {
        assert(s@.subrange(0, pl as int) =~= p@);
    }
    true
}

fn find_slash(s: &str) -> (r: Option<usize>)
    ensures
        match r {
            Some(i) => spec_find_slash(s@) == i as int && i < s@.len(),
            None => spec_find_slash(s@) == -1,
        },
{
    let len = s.unicode_len();
    let mut i: usize = 0;
    while i < len
        invariant
            i <= len,
            len == s@.len(),
            forall|x: int| 0 <= x < i ==> s@[x] != '/',
        decreases len - i,
    {
        if s.get_char(i) == '/' {
            proof {
                lemma_find_slash_scan(s@, i as int);
            }
            return Some(i);
        }
        i = i + 1;
    }
    proof {
        lemma_find_slash_scan(s@, len as int);
    }
    None
}

/// Splits a URL into its host and its path: the scheme is dropped, the
/// host is what precedes the first separator, and the path is the rest —
/// a bare `/` when the URL has no path at all.
pub fn extract_path_and_host_from_url(url: &str) -> (r: (String, String))
    ensures
        r.0@ == spec_host_of(url@),
        r.1@ == spec_path_of(url@),
{
    proof {
        reveal_strlit("http://");
        reveal_strlit("https://");
        reveal_strlit("/");
        assert("/"@ =~= seq!['/']);
    }
    let stripped: &str = if str_has_prefix(url, "http://") {
        url.substring_char(7, url.unicode_len())
    } else if str_has_prefix(url, "https://") {
        url.substring_char(8, url.unicode_len())
    } else {
        url
    };
    proof {
        assert(stripped@ =~= spec_strip_scheme(url@));
    }
    match find_slash(stripped) {
        None => (stripped.to_owned(), "/".to_owned()),
        Some(i) => {
            let host = stripped.substring_char(0, i);
            let path = stripped.substring_char(i, stripped.unicode_len());
            proof {
                assert(path@ =~= spec_strip_scheme(url@).skip(spec_find_slash(stripped@)));
            }
            (host.to_owned(), path.to_owned())
        },
    }
}

/// The final component of `url`, from its last separator on (the separator
/// included). The URL must contain a separator.
pub fn extract_filename_from_url(url: &str) -> (r: String)
    requires
        spec_rfind_slash(url@) >= 0,
    ensures
        r@ == url@.skip(spec_rfind_slash(url@)),
{
    match rfind_slash(url) {
        Some(i) => {
            let r = url.substring_char(i, url.unicode_len());
            proof {
                assert(r@ =~= url@.skip(spec_rfind_slash(url@)));
            }
            r.to_owned()
        },
        None => String::new(),
    }
}

/// Whether an HTTP status code reports success.
pub open spec fn spec_status_success(code: int) -> bool {
    200 <= code < 300
}

/// Decides [`spec_status_success`] for a concrete status code.
pub fn status_is_success(code: u16) -> (r: bool)
    ensures
        r == spec_status_success(code as int),
{
    200 <= code && code < 300
}

/// Classifies a listing fetch: a non-success status is a transport
/// failure; a success whose body did not decode into entries is a decode
/// failure; otherwise the decoded entries are the outcome.
pub fn listing_outcome(status: u16, parsed: Option<Vec<Item>>) -> (r: FetchOutcome)
    ensures
        r@ == if !spec_status_success(status as int) {
            OutcomeModel::Failed(FetchError::Transport)
        } else {
            match parsed {
                Some(items) => OutcomeModel::Listing(items.deep_view()),
                None => OutcomeModel::Failed(FetchError::Decode),
            }
        },
{
    if !status_is_success(status) {
        FetchOutcome::Failed(FetchError::Transport)
    } else {
        match parsed {
            Some(items) => FetchOutcome::Listing(items),
            None => FetchOutcome::Failed(FetchError::Decode),
        }
    }
}

/// Classifies a file fetch: a non-success status is a transport failure;
/// otherwise the raw body is the outcome.
pub fn text_outcome(status: u16, body: String) -> (r: FetchOutcome)
    ensures
        r@ == if !spec_status_success(status as int) {
            OutcomeModel::Failed(FetchError::Transport)
        } else {
            OutcomeModel::Text(body@)
        },
{
    if !status_is_success(status) {
        FetchOutcome::Failed(FetchError::Transport)
    } else {
        FetchOutcome::Text(body)
    }
}

} // verus!

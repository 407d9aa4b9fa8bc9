//! What the server client computes on its own: the authentication salt and
//! token, the query parameters every call carries, the streaming URL, and
//! base-URL normalization. The network itself stays outside; only the hash
//! and the random draw come from outside crates, behind trusted wrappers.

use vstd::prelude::*;
use vstd::string::{StringExecFns, StrSliceExecFns};
use crate::text::push_char;

verus! {

/// The lowercase hexadecimal MD5 digest of a text, as a function of the
/// text alone.
pub uninterp spec fn md5_hex_of(input: Seq<char>) -> Seq<char>;

/// Relies on `md5::compute` and the `LowerHex` rendering of its digest: 16
/// bytes, written as two lowercase hexadecimal digits each, 32 characters
/// in all, a function of the input alone.
#[verifier::external_body]
fn md5_hex(input: &str) -> (r: String)
    ensures
        r@ == md5_hex_of(input@),
        r@.len() == 32,
{
    format!("{:x}", md5::compute(input.as_bytes()))
}

/// Relies on rand's `Rng::gen_range`: a value below the bound; the call
/// panics only on an empty range, which the bound being positive rules out.
#[verifier::external_body]
pub(crate) fn random_below(n: u64) -> (r: u64)
    requires
        n > 0,
    ensures
        r < n,
{
    rand::Rng::gen_range(&mut rand::thread_rng(), 0..n)
}

/// Whether a character may appear in an authentication salt.
pub open spec fn salt_char(c: char) -> bool {
    "ABCDEFGHIJKLMNOPQRSTUVWXYZabcdefghijklmnopqrstuvwxyz0123456789"@.contains(c)
}

/// Draws a fresh 8-character alphanumeric authentication salt.
pub fn generate_salt() -> (r: String)
    ensures
        r@.len() == 8,
        forall|i: int| 0 <= i < 8 ==> salt_char(#[trigger] r@[i]),
{
    let alphabet = "ABCDEFGHIJKLMNOPQRSTUVWXYZabcdefghijklmnopqrstuvwxyz0123456789";
    let mut r = String::new();
    let mut k: usize = 0;
    while k < 8
        invariant
            k <= 8,
            r@.len() == k,
            forall|i: int| 0 <= i < k ==> salt_char(#[trigger] r@[i]),
        decreases 8 - k,
    {
        proof {
            reveal_strlit("ABCDEFGHIJKLMNOPQRSTUVWXYZabcdefghijklmnopqrstuvwxyz0123456789");
        }
        let alphabet_k: &str = "ABCDEFGHIJKLMNOPQRSTUVWXYZabcdefghijklmnopqrstuvwxyz0123456789";
        assert(alphabet_k@.len() == 62);
        let idx = random_below(62);
        let c = alphabet_k.get_char(idx as usize);
        proof {
            assert(alphabet_k@[idx as int] == c);
            assert(salt_char(c));
        }
        push_char(&mut r, c);
        k = k + 1;
    }
    r
}

/// Computes the authentication token: the MD5 digest of the password
/// followed by the salt, in lowercase hexadecimal.
pub fn generate_token(password: &str, salt: &str) -> (r: String)
    ensures
        r@ == md5_hex_of(password@ + salt@),
        r@.len() == 32,
{
    let input = String::from_str(password).concat(salt);
    md5_hex(input.as_str())
}

/// The query parameters every authenticated call carries: who is calling
/// (`u`), the token and salt proving it (`t`, `s`), and the protocol
/// version, client name and response format (`v`, `c`, `f`).
pub fn auth_query_pairs(username: &str, password: &str) -> (r: Vec<(String, String)>)
    ensures
        r@.len() == 6,
        r@[0].0@ == "u"@ && r@[0].1@ == username@,
        r@[1].0@ == "t"@,
        r@[2].0@ == "s"@,
        r@[3].0@ == "v"@ && r@[3].1@ == "1.16.1"@,
        r@[4].0@ == "c"@ && r@[4].1@ == "danavi"@,
        r@[5].0@ == "f"@ && r@[5].1@ == "json"@,
        r@[2].1@.len() == 8,
        forall|i: int| 0 <= i < 8 ==> salt_char(#[trigger] r@[2].1@[i]),
        r@[1].1@ == md5_hex_of(password@ + r@[2].1@),
{
    let salt = generate_salt();
    let token = generate_token(password, salt.as_str());
    let mut r: Vec<(String, String)> = Vec::new();
    r.push(("u".to_owned(), username.to_owned()));
    r.push(("t".to_owned(), token));
    r.push(("s".to_owned(), salt));
    r.push(("v".to_owned(), "1.16.1".to_owned()));
    r.push(("c".to_owned(), "danavi".to_owned()));
    r.push(("f".to_owned(), "json".to_owned()));
    r
}

/// The streaming URL for a track: the normalized base, the stream endpoint,
/// the track, the caller, the token and salt, and the fixed version, client
/// and format parameters.
pub open spec fn spec_stream_url(
    base: Seq<char>,
    id: Seq<char>,
    user: Seq<char>,
    token: Seq<char>,
    salt: Seq<char>,
) -> Seq<char> {
    base + "/rest/stream?id="@ + id + "&u="@ + user + "&t="@ + token + "&s="@ + salt
        + "&v=1.16.1&c=danavi&f=mp3"@
}

/// Builds the streaming URL from a given salt.
pub fn stream_url_with(
    base_url: &str,
    username: &str,
    password: &str,
    id: &str,
    salt: &str,
) -> (r: String)
    ensures
        r@ == spec_stream_url(base_url@, id@, username@, md5_hex_of(password@ + salt@), salt@),
{
    let token = generate_token(password, salt);
    String::from_str(base_url).concat("/rest/stream?id=").concat(id).concat("&u=").concat(
        username,
    ).concat("&t=").concat(token.as_str()).concat("&s=").concat(salt).concat(
        "&v=1.16.1&c=danavi&f=mp3",
    )
}

/// Builds the streaming URL for a track, drawing a fresh salt: whatever
/// salt came out, the result is the stream endpoint authenticated with that
/// salt's token.
pub fn get_stream_url(base_url: &str, username: &str, password: &str, id: &str) -> (r: String)
    ensures
        exists|salt: Seq<char>|
            salt.len() == 8 && (forall|i: int| 0 <= i < 8 ==> salt_char(#[trigger] salt[i]))
                && r@ == spec_stream_url(
                base_url@,
                id@,
                username@,
                md5_hex_of(password@ + salt),
                salt,
            ),
{
    let salt = generate_salt();
    let r = stream_url_with(base_url, username, password, id, salt.as_str());
    proof {
        let s = salt@;
        assert(s.len() == 8 && (forall|i: int| 0 <= i < 8 ==> salt_char(#[trigger] s[i])) && r@
            == spec_stream_url(base_url@, id@, username@, md5_hex_of(password@ + s), s));
    }
    r
}

/// The length of a base URL once its trailing slashes are dropped.
pub open spec fn trimmed_len(s: Seq<char>) -> nat
    decreases s.len(),
{
    if s.len() > 0 && s.last() == '/' {
        trimmed_len(s.drop_last())
    } else {
        s.len()
    }
}

/// Drops the trailing slashes of a configured base URL.
pub fn normalize_base_url(s: &str) -> (r: String)
    ensures
        r@ == s@.take(trimmed_len(s@) as int),
{
    let total = s.unicode_len();
    let mut k = total;
    proof {
        assert(s@.take(total as int) =~= s@);
    }
    while k > 0 && s.get_char(k - 1) == '/'
        invariant
            k <= total,
            total == s@.len(),
            trimmed_len(s@.take(k as int)) == trimmed_len(s@),
        decreases k,
    {
        proof {
            assert(s@.take(k as int).drop_last() =~= s@.take(k - 1));
            assert(s@.take(k as int).last() == s@[k - 1]);
        }
        k = k - 1;
    }
    proof {
        if k > 0 {
            assert(s@.take(k as int).last() == s@[k - 1]);
        }
        assert(trimmed_len(s@.take(k as int)) == k);
    }
    s.substring_char(0, k).to_owned()
}

} // verus!

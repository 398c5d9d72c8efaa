//! The stored token and the browser login that obtains it.
//!
//! The token lives in a small JSON document, `{"api_key": "<token>"}`, that
//! only its owner may read. Login opens the website in a browser and waits on
//! a local port for the redirect that carries the token back.

use vstd::prelude::*;
use vstd::utf8::encode_utf8;
use crate::json::{json_quoted, json_string_at, quote_json, read_json_string};
use crate::text::{
    chars_of,
    concat2,
    concat3,
    copy_of,
    decimal,
    decimal_text,
    find_char,
    first_index_of,
    same,
    split,
    split_on,
    texts,
};

verus! {

/// The permissions of the credentials file: its owner reads and writes.
pub const CREDENTIALS_FILE_MODE: u32 = 0o600;

/// The permissions of the directory that holds the credentials file.
pub const CREDENTIALS_DIR_MODE: u32 = 0o700;

/// Whether a byte stays as it is in a percent-encoded text: ASCII letters
/// and digits, `-`, `.`, `_` and `~`.
pub open spec fn is_unreserved(b: u8) -> bool {
    ||| 0x30 <= b <= 0x39
    ||| 0x41 <= b <= 0x5a
    ||| 0x61 <= b <= 0x7a
    ||| b == 0x2d
    ||| b == 0x2e
    ||| b == 0x5f
    ||| b == 0x7e
}

/// The upper-case hexadecimal digit of a number below sixteen.
pub open spec fn hex_digit(d: u8) -> char {
    if d < 10 {
        (0x30 + d) as u8 as char
    } else {
        (0x41 + d - 10) as u8 as char
    }
}

/// Bytes, percent-encoded: every byte that is not unreserved becomes `%`
/// and its two hexadecimal digits.
pub open spec fn percent_encoded(bytes: Seq<u8>) -> Seq<char>
    decreases bytes.len(),
{
    if bytes.len() == 0 {
        Seq::empty()
    } else {
        percent_encoded(bytes.drop_last()) + (if is_unreserved(bytes.last()) {
            seq![bytes.last() as char]
        } else {
            seq!['%', hex_digit(bytes.last() / 16), hex_digit(bytes.last() % 16)]
        })
    }
}

/// A percent-encoded text, decoded: `None` if the decoded bytes are not
/// UTF-8.
pub uninterp spec fn percent_decoded(text: Seq<char>) -> Option<Seq<char>>;

/// `urlencoding::encode` percent-encodes the UTF-8 bytes of a text, leaving
/// only ASCII letters and digits, `-`, `.`, `_` and `~` as they are.
#[verifier::external_body]
fn percent_encode(text: &str) -> (encoded: String)
    ensures
        encoded@ == percent_encoded(encode_utf8(text@)),
{
    urlencoding::encode(text).into_owned()
}

/// `urlencoding::decode` undoes percent-encoding; it fails where the bytes
/// it arrives at are not UTF-8.
#[verifier::external_body]
fn percent_decode(text: &str) -> (decoded: Option<String>)
    ensures
        decoded is Some == percent_decoded(text@) is Some,
        decoded matches Some(s) ==> percent_decoded(text@) == Some(s@),
{
    urlencoding::decode(text).ok().map(|s| s.into_owned())
}

/// The document that stores a token.
pub open spec fn credentials_text(api_key: Seq<char>) -> Seq<char> {
    "{\"api_key\":"@ + json_quoted(api_key) + "}"@
}

/// The token that a credentials document stores.
pub open spec fn stored_api_key(document: Option<Seq<char>>) -> Option<Seq<char>> {
    match document {
        Some(text) => json_string_at(text, "/api_key"@),
        None => None,
    }
}

/// The document that stores a token.
pub fn credentials_document(api_key: &str) -> (document: String)
    ensures
        document@ == credentials_text(api_key@),
{
    concat3("{\"api_key\":", quote_json(api_key).as_str(), "}")
}

/// The credential store as the tool sees it: the credentials document, if
/// there is one.
#[derive(Debug, PartialEq, Eq)]
pub struct AuthManager {
    document: Option<String>,
}

impl AuthManager {
    /// The credentials document, if there is one.
    pub closed spec fn stored(&self) -> Option<Seq<char>> {
        match self.document {
            Some(text) => Some(text@),
            None => None,
        }
    }

    /// A credential store that holds the given document; `None` stands for
    /// a document that is not there or cannot be read.
    pub fn new(document: Option<String>) -> (manager: AuthManager)
        ensures
            manager.stored() == match document {
                Some(text) => Some(text@),
                None => None,
            },
    {
        AuthManager { document }
    }

    /// Stores a token: the store then holds the document that is returned,
    /// which the caller writes where only the owner can read it.
    pub fn store_api_key(&mut self, api_key: &str) -> (written: String)
        ensures
            written@ == credentials_text(api_key@),
            final(self).stored() == Some(written@),
    {
        let document = credentials_document(api_key);
        self.document = Some(document.clone());
        document
    }

    /// The stored token: what the credentials document holds as `api_key`.
    pub fn get_api_key(&self) -> (api_key: Option<String>)
        ensures
            api_key is Some == stored_api_key(self.stored()) is Some,
            api_key matches Some(key) ==> stored_api_key(self.stored()) == Some(key@),
    {
        match &self.document {
            Some(text) => read_json_string(text.as_str(), "/api_key"),
            None => None,
        }
    }

    /// Forgets the stored token and says whether there is a document to
    /// remove.
    pub fn clear_credentials(&mut self) -> (had_document: bool)
        ensures
            had_document == old(self).stored() is Some,
            final(self).stored() is None,
    {
        let had_document = self.document.is_some();
        self.document = None;
        had_document
    }

    /// Whether a token is stored.
    pub fn is_authenticated(&self) -> (yes: bool)
        ensures
            yes == stored_api_key(self.stored()) is Some,
    {
        self.get_api_key().is_some()
    }
}

/// The state parameter of a login: the time in nanoseconds since the epoch,
/// written in base ten.
pub fn generate_state(nanos_since_epoch: u128) -> (state: String)
    ensures
        state@ == decimal_text(nanos_since_epoch as nat),
{
    decimal(nanos_since_epoch)
}

/// The address the browser is sent back to.
pub fn callback_address(port: u16) -> (address: String)
    ensures
        address@ == "http://localhost:"@ + decimal_text(port as nat),
{
    concat2("http://localhost:", decimal(port as u128).as_str())
}

/// The address the local server listens on.
pub fn listen_address(port: u16) -> (address: String)
    ensures
        address@ == "127.0.0.1:"@ + decimal_text(port as nat),
{
    concat2("127.0.0.1:", decimal(port as u128).as_str())
}

/// The page that starts a login, with the callback address and the state
/// percent-encoded in its query.
pub open spec fn auth_url_text(
    website_host: Seq<char>,
    redirect_uri: Seq<char>,
    state: Seq<char>,
) -> Seq<char> {
    website_host + "/developers/cli/auth?callback_uri="@ + percent_encoded(
        encode_utf8(redirect_uri),
    ) + "&state="@ + percent_encoded(encode_utf8(state))
}

/// The page that starts a login.
pub fn auth_url(website_host: &str, redirect_uri: &str, state: &str) -> (url: String)
    ensures
        url@ == auth_url_text(website_host@, redirect_uri@, state@),
{
    let callback = percent_encode(redirect_uri);
    let state = percent_encode(state);
    let mut url = concat3(website_host, "/developers/cli/auth?callback_uri=", callback.as_str());
    url = concat3(url.as_str(), "&state=", state.as_str());
    url
}

/// The query of a request target: what stands between its first question
/// mark and its second, or nothing.
pub open spec fn query_of(url: Seq<char>) -> Seq<char> {
    let pieces = split_on(url, '?');
    if pieces.len() >= 2 {
        pieces[1]
    } else {
        Seq::empty()
    }
}

/// The key and the value of one piece of a query: what stands before its
/// first `=` and what stands between that and the next. A piece without
/// `=` is no pair.
pub open spec fn pair_of(piece: Seq<char>) -> Option<(Seq<char>, Seq<char>)> {
    let parts = split_on(piece, '=');
    if parts.len() >= 2 {
        Some((parts[0], parts[1]))
    } else {
        None
    }
}

/// The value of the last pair with the given key.
pub open spec fn last_value(pieces: Seq<Seq<char>>, key: Seq<char>) -> Option<Seq<char>>
    decreases pieces.len(),
{
    if pieces.len() == 0 {
        None
    } else {
        match pair_of(pieces.last()) {
            Some((k, v)) => if k == key {
                Some(v)
            } else {
                last_value(pieces.drop_last(), key)
            },
            None => last_value(pieces.drop_last(), key),
        }
    }
}

/// The value that the query of a request target gives a key; where the key
/// comes several times, the last one counts. Values are taken as they are
/// written, not decoded.
pub open spec fn query_value(url: Seq<char>, key: Seq<char>) -> Option<Seq<char>> {
    last_value(split_on(query_of(url), '&'), key)
}

/// A return address with the mark of success in its query.
pub open spec fn with_success(return_url: Seq<char>) -> Seq<char> {
    return_url + (if first_index_of(return_url, '?') is Some {
        "&success=true"@
    } else {
        "?success=true"@
    })
}

/// Where the browser goes after a login: the return address, decoded if it
/// decodes, with the mark of success.
pub open spec fn success_redirect(return_url: Seq<char>) -> Seq<char> {
    match percent_decoded(return_url) {
        Some(decoded) => with_success(decoded),
        None => with_success(return_url),
    }
}

/// What a login callback carries.
#[derive(Debug, PartialEq, Eq)]
pub struct LoginCallback {
    /// The token, as the query holds it.
    pub api_key: String,
    /// Where to send the browser.
    pub redirect_url: String,
}

/// The value that the query of a request target gives a key.
pub fn query_param(url: &str, key: &str) -> (value: Option<String>)
    ensures
        value is Some == query_value(url@, key@) is Some,
        value matches Some(v) ==> query_value(url@, key@) == Some(v@),
{
    let parts = split(url, '?');
    let query = if parts.len() >= 2 {
        parts[1].clone()
    } else {
        String::new()
    };
    assert(query@ == query_of(url@)) by {
        if parts.len() >= 2 {
            assert(texts(parts@)[1] == parts@[1]@);
        }
    }
    let pieces = split(query.as_str(), '&');
    let mut value: Option<String> = None;
    let mut i: usize = 0;
    while i < pieces.len()
        invariant
            i <= pieces.len(),
            value is Some == last_value(texts(pieces@).take(i as int), key@) is Some,
            value matches Some(v) ==> last_value(texts(pieces@).take(i as int), key@) == Some(v@),
        decreases pieces.len() - i,
    {
        proof {
            let now = texts(pieces@).take(i + 1);
            assert(now.drop_last() == texts(pieces@).take(i as int));
            assert(now.last() == pieces@[i as int]@);
        }
        let pair = split(pieces[i].as_str(), '=');
        if pair.len() >= 2 {
            assert(texts(pair@)[0] == pair@[0]@);
            assert(texts(pair@)[1] == pair@[1]@);
            if same(pair[0].as_str(), key) {
                value = Some(pair[1].clone());
            }
        }
        i += 1;
    }
    assert(texts(pieces@).take(pieces.len() as int) == texts(pieces@));
    value
}

/// A return address with the mark of success in its query.
pub fn redirect_with_success(return_url: &str) -> (redirect: String)
    ensures
        redirect@ == with_success(return_url@),
{
    let v = chars_of(return_url);
    if find_char(&v, '?').is_some() {
        concat2(return_url, "&success=true")
    } else {
        concat2(return_url, "?success=true")
    }
}

/// What the request that the browser was redirected to carries: a token and
/// a return address, if its query has both.
pub fn login_callback(url: &str) -> (callback: Option<LoginCallback>)
    ensures
        callback is Some == (query_value(url@, "api_key"@) is Some && query_value(
            url@,
            "return_url"@,
        ) is Some),
        callback matches Some(found) ==> found.api_key@ == query_value(url@, "api_key"@)->0
            && found.redirect_url@ == success_redirect(query_value(url@, "return_url"@)->0),
{
    let api_key = match query_param(url, "api_key") {
        Some(api_key) => api_key,
        None => {
            return None;
        },
    };
    let return_url = match query_param(url, "return_url") {
        Some(return_url) => return_url,
        None => {
            return None;
        },
    };
    let redirect_url = match percent_decode(return_url.as_str()) {
        Some(decoded) => redirect_with_success(decoded.as_str()),
        None => redirect_with_success(return_url.as_str()),
    };
    Some(LoginCallback { api_key, redirect_url })
}

} // verus!

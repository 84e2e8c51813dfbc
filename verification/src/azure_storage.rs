//! Azure Storage Shared Key request signing, queue-name rules, and queue
//! message bodies.
use vstd::prelude::*;

use crate::config::{strip_trailing, trim_end_char};
use crate::text::{
    chars_of, dec, has_prefix, push_char, push_dec, push_str, split_char, split_seq,
    string_of,
};
use vstd::string::StringSliceAdditionalSpecFns;
#[allow(unused_imports)]
use base64::Engine as _;
#[allow(unused_imports)]
use hmac::Mac;

verus! {

#[verifier::external_type_specification]
#[verifier::external_body]
pub struct ExDecodeError(base64::DecodeError);

#[verifier::external_type_specification]
#[verifier::external_body]
pub struct ExInvalidLength(hmac::digest::InvalidLength);

#[verifier::external_type_specification]
#[verifier::external_body]
pub struct ExUrlParseError(url::ParseError);

/// Why a storage request could not be prepared.
#[derive(Debug)]
pub enum AzureStorageError {
    CannotBeBaseUrl,
    DecodeAccessKey(base64::DecodeError),
    Endpoint(url::ParseError),
    InvalidEmulatorHost { host: String },
    InvalidQueueName { queue_name: String, reason: &'static str },
    SignKey(hmac::digest::InvalidLength),
}

/// The bytes that standard base64 decoding gives for `s`, when it accepts
/// `s`.
pub uninterp spec fn base64_decoded(s: Seq<u8>) -> Option<Seq<u8>>;

/// Standard (padded) base64 text of `bytes`.
pub uninterp spec fn base64_encoded(bytes: Seq<u8>) -> Seq<char>;

/// HMAC-SHA256 of `message` under `key`.
pub uninterp spec fn hmac_sha256(key: Seq<u8>, message: Seq<u8>) -> Seq<u8>;

/// Decodes standard base64 (`base64::engine::general_purpose::STANDARD.decode`).
#[verifier::external_body]
fn decode_base64(text: &str) -> (r: Result<Vec<u8>, base64::DecodeError>)
    ensures
        r is Ok <==> base64_decoded(text.spec_bytes()) is Some,
        r matches Ok(v) ==> v@ == base64_decoded(text.spec_bytes())->0,
{
    base64::engine::general_purpose::STANDARD.decode(text)
}

/// Encodes bytes as standard base64 (`base64::engine::general_purpose::STANDARD.encode`).
#[verifier::external_body]
fn encode_base64(bytes: &[u8]) -> (r: String)
    requires
        bytes@.len() / 3 * 4 + 4 <= usize::MAX,
    ensures
        r@ == base64_encoded(bytes@),
{
    base64::engine::general_purpose::STANDARD.encode(bytes)
}

/// HMAC-SHA256 through `hmac::Hmac::<sha2::Sha256>`: `new_from_slice` with
/// the key, `update` with the message, then `finalize`. `new_from_slice`
/// accepts keys of any length for HMAC, so the result is always `Ok`, and
/// the tag is 32 bytes.
#[verifier::external_body]
fn mac_sha256(key: &[u8], message: &[u8]) -> (r: Result<Vec<u8>, hmac::digest::InvalidLength>)
    ensures
        r is Ok,
        r matches Ok(tag) ==> tag@ == hmac_sha256(key@, message@),
        r matches Ok(tag) ==> tag@.len() == 32,
{
    let mut mac = hmac::Hmac::<sha2::Sha256>::new_from_slice(key)?;
    mac.update(message);
    Ok(mac.finalize().into_bytes().to_vec())
}

/// `SharedKey {account}:{signature}` for a decoded key and a string to sign.
pub open spec fn shared_key_value(account: Seq<char>, key: Seq<u8>, to_sign: Seq<u8>) -> Seq<char> {
    "SharedKey "@ + account + ":"@ + base64_encoded(hmac_sha256(key, to_sign))
}

/// The `Authorization` value for a string to sign: the base64 access key is
/// decoded, the string is signed with HMAC-SHA256, and the signature is
/// base64-encoded.
pub fn shared_key_authorization(account: &str, access_key: &str, string_to_sign: &str) -> (r:
    Result<String, AzureStorageError>)
    ensures
        base64_decoded(access_key.spec_bytes()) is None <==> r matches Err(
            AzureStorageError::DecodeAccessKey(_),
        ),
        base64_decoded(access_key.spec_bytes()) matches Some(key) ==> (r matches Ok(v) && v@
            == shared_key_value(account@, key, string_to_sign.spec_bytes())),
{
    let key = match decode_base64(access_key) {
        Ok(k) => k,
        Err(e) => {
            return Err(AzureStorageError::DecodeAccessKey(e));
        },
    };
    let tag = match mac_sha256(key.as_slice(), string_to_sign.as_bytes()) {
        Ok(t) => t,
        Err(e) => {
            return Err(AzureStorageError::SignKey(e));
        },
    };
    let signature = encode_base64(tag.as_slice());
    let mut out = String::new();
    push_str(&mut out, "SharedKey ");
    push_str(&mut out, account);
    push_str(&mut out, ":");
    push_str(&mut out, signature.as_str());
    assert(out@ =~= shared_key_value(
        account@,
        base64_decoded(access_key.spec_bytes())->0,
        string_to_sign.spec_bytes(),
    ));
    Ok(out)
}

// ---------------------------------------------------------------------------
// Strings to sign
// ---------------------------------------------------------------------------

/// The parts of a request that Shared Key signing covers.
#[derive(Debug, Clone, Copy)]
pub struct StorageStringToSignRequest<'a> {
    pub account: &'a str,
    pub method: &'a str,
    pub request_path: &'a str,
    pub content_length: Option<usize>,
    pub content_type: Option<&'a str>,
    pub canonicalized_query: &'a [&'a str],
    pub additional_canonicalized_headers: &'a [&'a str],
    pub x_ms_date: &'a str,
}

/// A request to sign together with the account key.
#[derive(Debug, Clone, Copy)]
pub struct SharedKeyRequest<'a> {
    pub account: &'a str,
    pub access_key: &'a str,
    pub method: &'a str,
    pub request_path: &'a str,
    pub content_length: Option<usize>,
    pub content_type: Option<&'a str>,
    pub canonicalized_query: &'a [&'a str],
    pub additional_canonicalized_headers: &'a [&'a str],
    pub x_ms_date: &'a str,
}

/// The character views of a list of string slices.
pub open spec fn views(items: Seq<&str>) -> Seq<Seq<char>> {
    items.map_values(|s: &str| s@)
}

/// Each item preceded by a line break.
pub open spec fn prefixed_lines(items: Seq<Seq<char>>) -> Seq<char>
    decreases items.len(),
{
    if items.len() == 0 {
        Seq::empty()
    } else {
        prefixed_lines(items.drop_last()) + "\n"@ + items.last()
    }
}

/// Each item followed by a line break.
pub open spec fn terminated_lines(items: Seq<Seq<char>>) -> Seq<char>
    decreases items.len(),
{
    if items.len() == 0 {
        Seq::empty()
    } else {
        terminated_lines(items.drop_last()) + items.last() + "\n"@
    }
}

/// `/{account}{request_path}` followed by one line per query parameter.
pub open spec fn resource_text(account: Seq<char>, path: Seq<char>, query: Seq<Seq<char>>) -> Seq<
    char,
> {
    "/"@ + account + path + prefixed_lines(query)
}

/// The Content-Length line: empty when absent or zero.
pub open spec fn content_length_text(length: Option<usize>) -> Seq<char> {
    match length {
        Some(n) => if n > 0 {
            dec(n as nat)
        } else {
            Seq::empty()
        },
        None => Seq::empty(),
    }
}

/// The canonicalized `x-ms-*` headers: the extra headers, then date and
/// service version.
pub open spec fn headers_text(extra: Seq<Seq<char>>, date: Seq<char>) -> Seq<char> {
    terminated_lines(extra) + "x-ms-date:"@ + date + "\nx-ms-version:2023-11-03\n"@
}

/// The Shared Key string to sign.
pub open spec fn string_to_sign_text(r: StorageStringToSignRequest) -> Seq<char> {
    r.method@ + "\n\n\n"@ + content_length_text(r.content_length) + "\n\n"@ + (match r.content_type {
        Some(t) => t@,
        None => Seq::empty(),
    }) + "\n\n\n\n\n\n\n"@ + headers_text(
        views(r.additional_canonicalized_headers@),
        r.x_ms_date@,
    ) + resource_text(r.account@, r.request_path@, views(r.canonicalized_query@))
}

proof fn lemma_views_take(items: Seq<&str>, i: int)
    requires
        0 <= i < items.len(),
    ensures
        views(items.take(i + 1)).drop_last() == views(items.take(i)),
        views(items.take(i + 1)).last() == items[i]@,
        views(items.take(i + 1)).len() == i + 1,
{
    assert(views(items.take(i + 1)).drop_last() =~= views(items.take(i)));
}

/// Appends `"\n" + q` for every query line.
fn push_prefixed_lines(out: &mut String, items: &[&str])
    ensures
        final(out)@ == old(out)@ + prefixed_lines(views(items@)),
{
    let ghost start = out@;
    let mut i: usize = 0;
    while i < items.len()
        invariant
            i <= items@.len(),
            out@ == start + prefixed_lines(views(items@.take(i as int))),
        decreases items@.len() - i,
    {
        push_char(out, '\n');
        push_str(out, items[i]);
        proof {
            reveal_strlit("\n");
            lemma_views_take(items@, i as int);
            assert(out@ =~= start + prefixed_lines(views(items@.take(i + 1))));
        }
        i += 1;
    }
    assert(items@.take(items@.len() as int) == items@);
}

/// Appends `h + "\n"` for every header.
fn push_terminated_lines(out: &mut String, items: &[&str])
    ensures
        final(out)@ == old(out)@ + terminated_lines(views(items@)),
{
    let ghost start = out@;
    let mut i: usize = 0;
    while i < items.len()
        invariant
            i <= items@.len(),
            out@ == start + terminated_lines(views(items@.take(i as int))),
        decreases items@.len() - i,
    {
        push_str(out, items[i]);
        push_char(out, '\n');
        proof {
            reveal_strlit("\n");
            lemma_views_take(items@, i as int);
            assert(out@ =~= start + terminated_lines(views(items@.take(i + 1))));
        }
        i += 1;
    }
    assert(items@.take(items@.len() as int) == items@);
}

/// The canonicalized resource: `/{account}{request_path}` followed by each
/// canonicalized query line on its own line.
pub fn canonicalized_resource(account: &str, request_path: &str, canonicalized_query: &[&str]) -> (r:
    String)
    ensures
        r@ == resource_text(account@, request_path@, views(canonicalized_query@)),
{
    let mut value = String::new();
    push_char(&mut value, '/');
    push_str(&mut value, account);
    push_str(&mut value, request_path);
    push_prefixed_lines(&mut value, canonicalized_query);
    proof {
        reveal_strlit("/");
    }
    assert(value@ =~= resource_text(account@, request_path@, views(canonicalized_query@)));
    value
}

/// The Shared Key string to sign for a request with extra `x-ms-*` headers.
pub fn storage_string_to_sign_with_headers(request: StorageStringToSignRequest) -> (r: String)
    ensures
        r@ == string_to_sign_text(request),
{
    let mut out = String::new();
    push_str(&mut out, request.method);
    push_str(&mut out, "\n\n\n");
    match request.content_length {
        Some(n) => {
            if n > 0 {
                push_dec(&mut out, n as u64);
            }
        },
        None => {},
    }
    push_str(&mut out, "\n\n");
    match request.content_type {
        Some(t) => push_str(&mut out, t),
        None => {},
    }
    push_str(&mut out, "\n\n\n\n\n\n\n");
    push_terminated_lines(&mut out, request.additional_canonicalized_headers);
    push_str(&mut out, "x-ms-date:");
    push_str(&mut out, request.x_ms_date);
    push_str(&mut out, "\nx-ms-version:2023-11-03\n");
    let resource = canonicalized_resource(
        request.account,
        request.request_path,
        request.canonicalized_query,
    );
    push_str(&mut out, resource.as_str());
    assert(out@ =~= string_to_sign_text(request));
    out
}

/// The Shared Key string to sign for a request without extra headers.
pub fn storage_string_to_sign(
    account: &str,
    method: &str,
    request_path: &str,
    content_length: Option<usize>,
    content_type: Option<&str>,
    canonicalized_query: &[&str],
    x_ms_date: &str,
) -> (r: String)
    ensures
        r@ == string_to_sign_text(
            StorageStringToSignRequest {
                account,
                method,
                request_path,
                content_length,
                content_type,
                canonicalized_query,
                additional_canonicalized_headers: &[],
                x_ms_date,
            },
        ),
{
    storage_string_to_sign_with_headers(
        StorageStringToSignRequest {
            account,
            method,
            request_path,
            content_length,
            content_type,
            canonicalized_query,
            additional_canonicalized_headers: &[],
            x_ms_date,
        },
    )
}

/// The string-to-sign part of a Shared Key request.
pub open spec fn signing_part(request: SharedKeyRequest) -> StorageStringToSignRequest {
    StorageStringToSignRequest {
        account: request.account,
        method: request.method,
        request_path: request.request_path,
        content_length: request.content_length,
        content_type: request.content_type,
        canonicalized_query: request.canonicalized_query,
        additional_canonicalized_headers: request.additional_canonicalized_headers,
        x_ms_date: request.x_ms_date,
    }
}

/// The `Authorization` header value of a request.
pub fn shared_key_authorization_header(request: SharedKeyRequest) -> (r: Result<
    String,
    AzureStorageError,
>)
    ensures
        base64_decoded(request.access_key.spec_bytes()) is None <==> r matches Err(
            AzureStorageError::DecodeAccessKey(_),
        ),
        base64_decoded(request.access_key.spec_bytes()) matches Some(key) ==> (r matches Ok(v)
            && v@ == shared_key_value(
            request.account@,
            key,
            vstd::utf8::encode_utf8(string_to_sign_text(signing_part(request))),
        )),
{
    let string_to_sign = storage_string_to_sign_with_headers(
        StorageStringToSignRequest {
            account: request.account,
            method: request.method,
            request_path: request.request_path,
            content_length: request.content_length,
            content_type: request.content_type,
            canonicalized_query: request.canonicalized_query,
            additional_canonicalized_headers: request.additional_canonicalized_headers,
            x_ms_date: request.x_ms_date,
        },
    );
    shared_key_authorization(request.account, request.access_key, string_to_sign.as_str())
}

// ---------------------------------------------------------------------------
// Queue names and message bodies
// ---------------------------------------------------------------------------

/// An allowed queue-name byte: lowercase ASCII letter, digit, or hyphen.
pub open spec fn queue_name_byte(b: u8) -> bool {
    (0x61 <= b && b <= 0x7a) || (0x30 <= b && b <= 0x39) || b == 0x2d
}

/// What queue-name validation refuses, as the reason text.
pub open spec fn queue_name_problem(name: Seq<u8>) -> Option<Seq<char>> {
    if !(3 <= name.len() && name.len() <= 63) {
        Some("queue names must be between 3 and 63 characters"@)
    } else if !(forall|i: int| 0 <= i < name.len() ==> queue_name_byte(#[trigger] name[i])) {
        Some("queue names must contain only lowercase letters, digits, and hyphens"@)
    } else if name[0] == 0x2d || name[name.len() - 1] == 0x2d || (exists|i: int|
        0 <= i < name.len() - 1 && #[trigger] name[i] == 0x2d && name[i + 1] == 0x2d) {
        Some(
            "queue names must start and end with a letter or digit and avoid consecutive hyphens"@,
        )
    } else {
        None
    }
}

/// Checks a queue name against the service's naming rules.
pub fn validate_queue_name(queue_name: &str) -> (r: Result<(), AzureStorageError>)
    ensures
        match queue_name_problem(queue_name.spec_bytes()) {
            None => r is Ok,
            Some(reason) => r matches Err(
                AzureStorageError::InvalidQueueName { queue_name: n, reason: why },
            ) && n@ == queue_name@ && why@ == reason,
        },
{
    let bytes = queue_name.as_bytes();
    let len = bytes.len();
    if !(3 <= len && len <= 63) {
        return Err(
            AzureStorageError::InvalidQueueName {
                queue_name: crate::text::owned(queue_name),
                reason: "queue names must be between 3 and 63 characters",
            },
        );
    }
    let mut i: usize = 0;
    while i < len
        invariant
            i <= len,
            len == bytes@.len(),
            bytes@ == queue_name.spec_bytes(),
            3 <= len <= 63,
            forall|k: int| 0 <= k < i ==> queue_name_byte(#[trigger] bytes@[k]),
        decreases len - i,
    {
        let b = bytes[i];
        if !((0x61 <= b && b <= 0x7a) || (0x30 <= b && b <= 0x39) || b == 0x2d) {
            assert(!queue_name_byte(bytes@[i as int]));
            assert(!(forall|k: int|
                0 <= k < queue_name.spec_bytes().len() ==> queue_name_byte(
                    #[trigger] queue_name.spec_bytes()[k],
                )));
            assert(queue_name_problem(queue_name.spec_bytes()) == Some(
                "queue names must contain only lowercase letters, digits, and hyphens"@,
            ));
            return Err(
                AzureStorageError::InvalidQueueName {
                    queue_name: crate::text::owned(queue_name),
                    reason: "queue names must contain only lowercase letters, digits, and hyphens",
                },
            );
        }
        i += 1;
    }
    let mut double = false;
    let mut j: usize = 0;
    while j + 1 < len
        invariant
            j < len,
            len == bytes@.len(),
            bytes@ == queue_name.spec_bytes(),
            double == exists|k: int|
                0 <= k < j && #[trigger] bytes@[k] == 0x2d && bytes@[k + 1] == 0x2d,
        decreases len - j,
    {
        if bytes[j] == 0x2d && bytes[j + 1] == 0x2d {
            double = true;
        }
        j += 1;
    }
    if bytes[0] == 0x2d || bytes[len - 1] == 0x2d || double {
        return Err(
            AzureStorageError::InvalidQueueName {
                queue_name: crate::text::owned(queue_name),
                reason: "queue names must start and end with a letter or digit and avoid consecutive hyphens",
            },
        );
    }
    Ok(())
}

/// The XML escape of one character.
pub open spec fn xml_escape_char(c: char) -> Seq<char> {
    if c == '&' {
        "&amp;"@
    } else if c == '<' {
        "&lt;"@
    } else if c == '>' {
        "&gt;"@
    } else if c == '"' {
        "&quot;"@
    } else if c == '\'' {
        "&apos;"@
    } else {
        seq![c]
    }
}

/// XML text with the five predefined entities escaped.
pub open spec fn xml_escaped(s: Seq<char>) -> Seq<char>
    decreases s.len(),
{
    if s.len() == 0 {
        Seq::empty()
    } else {
        xml_escaped(s.drop_last()) + xml_escape_char(s.last())
    }
}

/// Escapes `&`, `<`, `>`, `"` and `'` for XML text.
pub fn escape_xml_text(value: &str) -> (r: String)
    ensures
        r@ == xml_escaped(value@),
        xml_unescaped(r@) == value@,
        forall|i: int|
            0 <= i < r@.len() ==> {
                let d = #[trigger] r@[i];
                d != '<' && d != '>' && d != '"' && d != '\''
            },
        (forall|i: int| 0 <= i < value@.len() ==> !xml_special(#[trigger] value@[i])) ==> r@
            == value@,
{
    let cs = chars_of(value);
    let mut escaped = String::new();
    let mut i: usize = 0;
    while i < cs.len()
        invariant
            i <= cs.len(),
            escaped@ == xml_escaped(cs@.take(i as int)),
        decreases cs.len() - i,
    {
        let c = cs[i];
        if c == '&' {
            push_str(&mut escaped, "&amp;");
        } else if c == '<' {
            push_str(&mut escaped, "&lt;");
        } else if c == '>' {
            push_str(&mut escaped, "&gt;");
        } else if c == '"' {
            push_str(&mut escaped, "&quot;");
        } else if c == '\'' {
            push_str(&mut escaped, "&apos;");
        } else {
            push_char(&mut escaped, c);
        }
        assert(cs@.take(i + 1).drop_last() == cs@.take(i as int));
        i += 1;
    }
    assert(cs@.take(cs.len() as int) == cs@);
    proof {
        lemma_xml_escape_round_trip(value@);
    }
    escaped
}

/// Reads XML text back left to right: each of the five predefined entities
/// `&amp;`, `&lt;`, `&gt;`, `&quot;` and `&apos;` becomes its character, and
/// every other character stands for itself.
pub open spec fn xml_unescaped(s: Seq<char>) -> Seq<char>
    decreases s.len(),
{
    if s.len() == 0 {
        Seq::empty()
    } else if s.len() >= 5 && s.take(5) == "&amp;"@ {
        seq!['&'] + xml_unescaped(s.skip(5))
    } else if s.len() >= 4 && s.take(4) == "&lt;"@ {
        seq!['<'] + xml_unescaped(s.skip(4))
    } else if s.len() >= 4 && s.take(4) == "&gt;"@ {
        seq!['>'] + xml_unescaped(s.skip(4))
    } else if s.len() >= 6 && s.take(6) == "&quot;"@ {
        seq!['"'] + xml_unescaped(s.skip(6))
    } else if s.len() >= 6 && s.take(6) == "&apos;"@ {
        seq!['\''] + xml_unescaped(s.skip(6))
    } else {
        seq![s[0]] + xml_unescaped(s.skip(1))
    }
}

/// Whether a character is one of the five that XML text escapes.
pub open spec fn xml_special(c: char) -> bool {
    c == '&' || c == '<' || c == '>' || c == '"' || c == '\''
}

proof fn lemma_xml_escaped_concat(a: Seq<char>, b: Seq<char>)
    ensures
        xml_escaped(a + b) == xml_escaped(a) + xml_escaped(b),
    decreases b.len(),
{
    if b.len() == 0 {
        assert(a + b =~= a);
        assert(xml_escaped(b) =~= Seq::<char>::empty());
        assert(xml_escaped(a) + xml_escaped(b) =~= xml_escaped(a));
    } else {
        lemma_xml_escaped_concat(a, b.drop_last());
        assert((a + b).drop_last() =~= a + b.drop_last());
        assert((a + b).last() == b.last());
    }
}

proof fn lemma_unescape_char(c: char, t: Seq<char>)
    ensures
        xml_unescaped(xml_escape_char(c) + t) == seq![c] + xml_unescaped(t),
{
    reveal_strlit("&amp;");
    reveal_strlit("&lt;");
    reveal_strlit("&gt;");
    reveal_strlit("&quot;");
    reveal_strlit("&apos;");
    let s = xml_escape_char(c) + t;
    if c == '&' {
        assert(s.take(5) =~= "&amp;"@);
        assert(s.skip(5) =~= t);
    } else if c == '<' {
        assert(s.take(4) =~= "&lt;"@);
        assert(s.skip(4) =~= t);
        assert(s.len() < 5 || s.take(5) != "&amp;"@) by {
            if s.len() >= 5 {
                assert(s.take(5)[1] != "&amp;"@[1]);
            }
        }
    } else if c == '>' {
        assert(s.take(4) =~= "&gt;"@);
        assert(s.skip(4) =~= t);
        assert(s.len() < 5 || s.take(5) != "&amp;"@) by {
            if s.len() >= 5 {
                assert(s.take(5)[1] != "&amp;"@[1]);
            }
        }
        assert(s.take(4) != "&lt;"@) by {
            assert(s.take(4)[1] != "&lt;"@[1]);
        }
    } else if c == '"' {
        assert(s.take(6) =~= "&quot;"@);
        assert(s.skip(6) =~= t);
        assert(s.take(5) != "&amp;"@) by {
            assert(s.take(5)[1] != "&amp;"@[1]);
        }
        assert(s.take(4) != "&lt;"@) by {
            assert(s.take(4)[1] != "&lt;"@[1]);
        }
        assert(s.take(4) != "&gt;"@) by {
            assert(s.take(4)[1] != "&gt;"@[1]);
        }
    } else if c == '\'' {
        assert(s.take(6) =~= "&apos;"@);
        assert(s.skip(6) =~= t);
        assert(s.take(5) != "&amp;"@) by {
            assert(s.take(5)[2] != "&amp;"@[2]);
        }
        assert(s.take(4) != "&lt;"@) by {
            assert(s.take(4)[1] != "&lt;"@[1]);
        }
        assert(s.take(4) != "&gt;"@) by {
            assert(s.take(4)[1] != "&gt;"@[1]);
        }
        assert(s.take(6) != "&quot;"@) by {
            assert(s.take(6)[1] != "&quot;"@[1]);
        }
    } else {
        assert(s[0] == c);
        assert(s.skip(1) =~= t);
        assert(s.len() < 5 || s.take(5) != "&amp;"@) by {
            if s.len() >= 5 {
                assert(s.take(5)[0] != "&amp;"@[0]);
            }
        }
        assert(s.len() < 4 || s.take(4) != "&lt;"@) by {
            if s.len() >= 4 {
                assert(s.take(4)[0] != "&lt;"@[0]);
            }
        }
        assert(s.len() < 4 || s.take(4) != "&gt;"@) by {
            if s.len() >= 4 {
                assert(s.take(4)[0] != "&gt;"@[0]);
            }
        }
        assert(s.len() < 6 || s.take(6) != "&quot;"@) by {
            if s.len() >= 6 {
                assert(s.take(6)[0] != "&quot;"@[0]);
            }
        }
        assert(s.len() < 6 || s.take(6) != "&apos;"@) by {
            if s.len() >= 6 {
                assert(s.take(6)[0] != "&apos;"@[0]);
            }
        }
    }
}

proof fn lemma_escape_char_plain(c: char)
    ensures
        forall|i: int|
            0 <= i < xml_escape_char(c).len() ==> {
                let d = #[trigger] xml_escape_char(c)[i];
                d != '<' && d != '>' && d != '"' && d != '\''
            },
        !xml_special(c) ==> xml_escape_char(c) == seq![c],
{
    reveal_strlit("&amp;");
    reveal_strlit("&lt;");
    reveal_strlit("&gt;");
    reveal_strlit("&quot;");
    reveal_strlit("&apos;");
}

/// Escaping XML text loses nothing and leaves no markup: reading the result
/// back left to right gives the value exactly; the result holds no `<`, `>`,
/// `"` or `'`; and a value without any of the five escaped characters comes
/// back unchanged.
pub proof fn lemma_xml_escape_round_trip(value: Seq<char>)
    ensures
        xml_unescaped(xml_escaped(value)) == value,
        forall|i: int|
            0 <= i < xml_escaped(value).len() ==> {
                let d = #[trigger] xml_escaped(value)[i];
                d != '<' && d != '>' && d != '"' && d != '\''
            },
        (forall|i: int| 0 <= i < value.len() ==> !xml_special(#[trigger] value[i])) ==> xml_escaped(
            value,
        ) == value,
    decreases value.len(),
{
    if value.len() == 0 {
        assert(xml_unescaped(Seq::<char>::empty()) =~= Seq::<char>::empty());
    } else {
        let c = value[0];
        let rest = value.drop_first();
        lemma_xml_escape_round_trip(rest);
        assert(value =~= seq![c] + rest);
        lemma_xml_escaped_concat(seq![c], rest);
        assert(seq![c].drop_last() =~= Seq::<char>::empty());
        assert(xml_escaped(Seq::<char>::empty()) =~= Seq::<char>::empty());
        assert(seq![c].last() == c);
        assert(xml_escaped(seq![c]) =~= xml_escape_char(c));
        lemma_unescape_char(c, xml_escaped(rest));
        assert(seq![c] + rest =~= value);
        lemma_escape_char_plain(c);
        let e = xml_escaped(value);
        assert(e =~= xml_escape_char(c) + xml_escaped(rest));
        assert forall|i: int| 0 <= i < e.len() implies {
            let d = #[trigger] e[i];
            d != '<' && d != '>' && d != '"' && d != '\''
        } by {
            if i < xml_escape_char(c).len() {
                assert(e[i] == xml_escape_char(c)[i]);
            } else {
                assert(e[i] == xml_escaped(rest)[i - xml_escape_char(c).len()]);
            }
        }
        if forall|i: int| 0 <= i < value.len() ==> !xml_special(#[trigger] value[i]) {
            assert(!xml_special(value[0]));
            assert forall|i: int| 0 <= i < rest.len() implies !xml_special(#[trigger] rest[i]) by {
                assert(rest[i] == value[i + 1]);
            }
        }
    }
}

/// The XML body of a queue message.
pub open spec fn queue_body_text(message: Seq<char>) -> Seq<char> {
    "<QueueMessage><MessageText>"@ + xml_escaped(message) + "</MessageText></QueueMessage>"@
}

/// Wraps escaped message text in a `QueueMessage` element.
pub fn queue_message_body(message_text: &str) -> (r: String)
    ensures
        r@ == queue_body_text(message_text@),
{
    let mut out = String::new();
    push_str(&mut out, "<QueueMessage><MessageText>");
    let escaped = escape_xml_text(message_text);
    push_str(&mut out, escaped.as_str());
    push_str(&mut out, "</MessageText></QueueMessage>");
    assert(out@ =~= queue_body_text(message_text@));
    out
}

/// `Display` of a URL parse error (`format!("{}", e)`); the crate's wording
/// of each kind of error is not restated here.
#[verifier::external_body]
fn url_error_text(error: &url::ParseError) -> String {
    format!("{}", error)
}

/// `Display` of a base64 decoding error (`format!("{}", e)`); the crate's
/// wording of each kind of error is not restated here.
#[verifier::external_body]
fn decode_error_text(error: &base64::DecodeError) -> String {
    format!("{}", error)
}

/// The message of a storage-preparation error, for the errors whose text is
/// the library's own.
pub open spec fn azure_storage_error_text(e: AzureStorageError) -> Seq<char> {
    match e {
        AzureStorageError::CannotBeBaseUrl =>
            "azure storage error: endpoint cannot be used as base URL"@,
        AzureStorageError::DecodeAccessKey(_) =>
            "azure storage error: failed to decode storage access key: "@,
        AzureStorageError::Endpoint(_) =>
            "azure storage error: failed to build storage endpoint: "@,
        AzureStorageError::InvalidEmulatorHost { host } =>
            "azure storage error: invalid storage emulator host '"@ + host@ + "'"@,
        AzureStorageError::InvalidQueueName { queue_name, reason } =>
            "azure storage error: invalid queue name '"@ + queue_name@ + "': "@ + reason@,
        AzureStorageError::SignKey(_) =>
            "azure storage error: failed to create storage request signature: Invalid Length"@,
    }
}

impl AzureStorageError {
    /// The message shown for this error. A key that is not base64, and an
    /// endpoint that is not a URL, are reported with the decoder's or the URL
    /// parser's own description after the stated prefix.
    pub fn message(&self) -> (r: String)
        ensures
            !(self is DecodeAccessKey || self is Endpoint) ==> r@ == azure_storage_error_text(
                *self,
            ),
            (self is DecodeAccessKey || self is Endpoint) ==> has_prefix(
                r@,
                azure_storage_error_text(*self),
            ),
    {
        let mut out = String::new();
        match self {
            AzureStorageError::CannotBeBaseUrl => {
                push_str(&mut out, "azure storage error: endpoint cannot be used as base URL");
            },
            AzureStorageError::Endpoint(error) => {
                push_str(&mut out, "azure storage error: failed to build storage endpoint: ");
                let detail = url_error_text(error);
                let ghost before = out@;
                push_str(&mut out, detail.as_str());
                assert(out@.subrange(0, before.len() as int) =~= before);
            },
            AzureStorageError::InvalidEmulatorHost { host } => {
                push_str(&mut out, "azure storage error: invalid storage emulator host '");
                push_str(&mut out, host.as_str());
                push_str(&mut out, "'");
                assert(out@ =~= azure_storage_error_text(*self));
            },
            AzureStorageError::DecodeAccessKey(error) => {
                push_str(&mut out, "azure storage error: failed to decode storage access key: ");
                let detail = decode_error_text(error);
                let ghost before = out@;
                push_str(&mut out, detail.as_str());
                assert(out@.subrange(0, before.len() as int) =~= before);
            },
            AzureStorageError::InvalidQueueName { queue_name, reason } => {
                push_str(&mut out, "azure storage error: invalid queue name '");
                push_str(&mut out, queue_name.as_str());
                push_str(&mut out, "': ");
                push_str(&mut out, reason);
                assert(out@ =~= azure_storage_error_text(*self));
            },
            AzureStorageError::SignKey(_) => {
                push_str(
                    &mut out,
                    "azure storage error: failed to create storage request signature: Invalid Length",
                );
            },
        }
        out
    }
}

// ---------------------------------------------------------------------------
// Endpoints
// ---------------------------------------------------------------------------

/// The serialization of the URL that `url::Url::parse` reads from `text`,
/// if it accepts `text`.
pub uninterp spec fn url_parsed(text: Seq<char>) -> Option<Seq<char>>;

/// The URL `url` with its host set to `host` (`Url::set_host`), if `url`
/// parses and the host is accepted.
pub uninterp spec fn url_with_host(url: Seq<char>, host: Seq<char>) -> Option<Seq<char>>;

/// The URL `url` with its port set to `port` (`Url::set_port`), if `url`
/// parses and may carry a port.
pub uninterp spec fn url_with_port(url: Seq<char>, port: u16) -> Option<Seq<char>>;

/// The URL `url` with its path set to `path` (`Url::set_path`), if `url`
/// parses.
pub uninterp spec fn url_with_path(url: Seq<char>, path: Seq<char>) -> Option<Seq<char>>;

/// The URL `url` with `segments` appended to its path, each percent-encoded
/// (`PathSegmentsMut::extend`), if `url` parses and can be a base.
pub uninterp spec fn url_with_segments(url: Seq<char>, segments: Seq<Seq<char>>) -> Option<
    Seq<char>,
>;

/// Parses a URL with `url::Url::parse` and serializes it (`Url`'s
/// `Display`). Claimed: the result is a function of the text.
#[verifier::external_body]
fn parse_url(text: &str) -> (r: Result<String, url::ParseError>)
    ensures
        r is Ok <==> url_parsed(text@) is Some,
        r matches Ok(u) ==> u@ == url_parsed(text@)->0,
{
    url::Url::parse(text).map(|u| u.to_string())
}

/// Parses `url`, sets its host with `Url::set_host`, and serializes it; a
/// refused parse or host gives `None`. Claimed: the result is a function of
/// the two texts.
#[verifier::external_body]
fn set_url_host(url: &str, host: &str) -> (r: Option<String>)
    ensures
        r is Some <==> url_with_host(url@, host@) is Some,
        r matches Some(u) ==> u@ == url_with_host(url@, host@)->0,
{
    let mut parsed = url::Url::parse(url).ok()?;
    parsed.set_host(Some(host)).ok()?;
    Some(parsed.to_string())
}

/// Parses `url`, sets its port with `Url::set_port`, and serializes it; a
/// refused parse or port gives `None`. Claimed: the result is a function of
/// the text and the port.
#[verifier::external_body]
fn set_url_port(url: &str, port: u16) -> (r: Option<String>)
    ensures
        r is Some <==> url_with_port(url@, port) is Some,
        r matches Some(u) ==> u@ == url_with_port(url@, port)->0,
{
    let mut parsed = url::Url::parse(url).ok()?;
    parsed.set_port(Some(port)).ok()?;
    Some(parsed.to_string())
}

/// Parses `url`, sets its path with `Url::set_path`, and serializes it; a
/// refused parse gives `None`. Claimed: the result is a function of the two
/// texts.
#[verifier::external_body]
fn set_url_path(url: &str, path: &str) -> (r: Option<String>)
    ensures
        r is Some <==> url_with_path(url@, path@) is Some,
        r matches Some(u) ==> u@ == url_with_path(url@, path@)->0,
{
    let mut parsed = url::Url::parse(url).ok()?;
    parsed.set_path(path);
    Some(parsed.to_string())
}

/// Parses `url`, appends `segments` with `PathSegmentsMut::extend`, and
/// serializes it; a refused parse, or a URL that cannot be a base, gives
/// `None`. Claimed: the result is a function of the text and the segments.
#[verifier::external_body]
fn extend_url_path(url: &str, segments: &Vec<String>) -> (r: Option<String>)
    ensures
        r is Some <==> url_with_segments(url@, segments@.map_values(|s: String| s@)) is Some,
        r matches Some(u) ==> u@ == url_with_segments(
            url@,
            segments@.map_values(|s: String| s@),
        )->0,
{
    let mut parsed = url::Url::parse(url).ok()?;
    parsed.path_segments_mut().ok()?.extend(segments.iter());
    Some(parsed.to_string())
}

/// `https://{account}.{endpoint}.core.windows.net/`
pub open spec fn cloud_endpoint_text(account: Seq<char>, endpoint: Seq<char>) -> Seq<char> {
    "https://"@ + account + "."@ + endpoint + ".core.windows.net/"@
}

/// The emulator URL: `base` with the host, then the port, then the path
/// set, if each step is accepted.
pub open spec fn emulator_url(base: Seq<char>, host: Seq<char>, port: u16, path: Seq<char>) -> Option<
    Seq<char>,
> {
    match url_with_host(base, host) {
        None => None,
        Some(a) => match url_with_port(a, port) {
            None => None,
            Some(b) => url_with_path(b, path),
        },
    }
}

/// `r` is the parse of `text`, or the parse error.
pub open spec fn parsed_endpoint(r: Result<String, AzureStorageError>, text: Seq<char>) -> bool {
    match url_parsed(text) {
        Some(u) => r matches Ok(s) && s@ == u,
        None => r matches Err(AzureStorageError::Endpoint(_)),
    }
}

fn parse_endpoint(text: &str) -> (r: Result<String, AzureStorageError>)
    ensures
        parsed_endpoint(r, text@),
{
    match parse_url(text) {
        Ok(u) => Ok(u),
        Err(e) => Err(AzureStorageError::Endpoint(e)),
    }
}

/// The endpoint URL of the `endpoint` service (`blob`, `queue`) of
/// `account`. With an emulator host: `http://localhost/` with the host
/// (trailing slashes removed), `port` and the path `/{account}` set; a host
/// or port that the URL refuses is `InvalidEmulatorHost`. Without one: the
/// account's cloud endpoint. The text is parsed again at the end, as the
/// URL that callers get.
pub fn service_endpoint(account: &str, emulator_host: Option<&str>, port: u16, endpoint: &str) -> (r:
    Result<String, AzureStorageError>)
    ensures
        emulator_host is None ==> parsed_endpoint(r, cloud_endpoint_text(account@, endpoint@)),
        emulator_host matches Some(h) ==> match url_parsed("http://localhost/"@) {
            None => r matches Err(AzureStorageError::Endpoint(_)),
            Some(base) => match emulator_url(
                base,
                strip_trailing(h@, '/'),
                port,
                "/"@ + account@,
            ) {
                None => r matches Err(AzureStorageError::InvalidEmulatorHost { host }) && host@
                    == h@,
                Some(text) => parsed_endpoint(r, text),
            },
        },
{
    match emulator_host {
        Some(host) => {
            let base = parse_endpoint("http://localhost/")?;
            let trimmed = trim_end_char(host, '/');
            let mut path = String::new();
            push_str(&mut path, "/");
            push_str(&mut path, account);
            let invalid = AzureStorageError::InvalidEmulatorHost { host: crate::text::owned(host) };
            let with_host = match set_url_host(base.as_str(), trimmed.as_str()) {
                Some(u) => u,
                None => return Err(invalid),
            };
            let with_port = match set_url_port(with_host.as_str(), port) {
                Some(u) => u,
                None => return Err(invalid),
            };
            let with_path = match set_url_path(with_port.as_str(), path.as_str()) {
                Some(u) => u,
                None => return Err(invalid),
            };
            parse_endpoint(with_path.as_str())
        },
        None => {
            let mut url = String::new();
            push_str(&mut url, "https://");
            push_str(&mut url, account);
            push_str(&mut url, ".");
            push_str(&mut url, endpoint);
            push_str(&mut url, ".core.windows.net/");
            assert(url@ =~= cloud_endpoint_text(account@, endpoint@));
            parse_endpoint(url.as_str())
        },
    }
}

/// `endpoint` with `segments` appended to its path; an endpoint that
/// cannot be a base URL is `CannotBeBaseUrl`.
pub fn endpoint_with_segments(endpoint: &str, segments: &Vec<String>) -> (r: Result<
    String,
    AzureStorageError,
>)
    ensures
        match url_with_segments(endpoint@, segments@.map_values(|s: String| s@)) {
            Some(u) => r matches Ok(s) && s@ == u,
            None => r matches Err(AzureStorageError::CannotBeBaseUrl),
        },
{
    match extend_url_path(endpoint, segments) {
        Some(u) => Ok(u),
        None => Err(AzureStorageError::CannotBeBaseUrl),
    }
}

/// The URL of a blob: the endpoint with the container and each
/// `/`-separated piece of the blob path appended.
pub fn blob_url(endpoint: &str, container_name: &str, blob_path: &str) -> (r: Result<
    String,
    AzureStorageError,
>)
    ensures
        match url_with_segments(endpoint@, seq![container_name@] + split_seq(blob_path@, '/')) {
            Some(u) => r matches Ok(s) && s@ == u,
            None => r matches Err(AzureStorageError::CannotBeBaseUrl),
        },
{
    let segments = blob_url_segments(container_name, blob_path);
    endpoint_with_segments(endpoint, &segments)
}


/// The path segments of a blob's URL below the service endpoint: the
/// container, then each `/`-separated piece of the blob path.
pub fn blob_url_segments(container_name: &str, blob_path: &str) -> (r: Vec<String>)
    ensures
        r@.map_values(|s: String| s@) == seq![container_name@] + split_seq(blob_path@, '/'),
{
    let pieces = split_char(blob_path, '/');
    let mut r: Vec<String> = Vec::new();
    r.push(crate::text::owned(container_name));
    let mut i: usize = 0;
    while i < pieces.len()
        invariant
            i <= pieces@.len(),
            pieces@.map_values(|p: Vec<char>| p@) == split_seq(blob_path@, '/'),
            r@.map_values(|s: String| s@) == seq![container_name@] + pieces@.take(i as int).map_values(
                |p: Vec<char>| p@,
            ),
        decreases pieces@.len() - i,
    {
        let piece = string_of(&pieces[i]);
        let ghost before = r@.map_values(|s: String| s@);
        r.push(piece);
        proof {
            assert(pieces@.take(i + 1).map_values(|p: Vec<char>| p@) =~= pieces@.take(
                i as int,
            ).map_values(|p: Vec<char>| p@).push(pieces@[i as int]@));
            assert(r@.map_values(|s: String| s@) =~= before.push(pieces@[i as int]@));
        }
        i = i + 1;
    }
    assert(pieces@.take(pieces@.len() as int) =~= pieces@);
    r
}

} // verus!

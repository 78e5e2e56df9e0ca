//! The TC3-HMAC-SHA256 signature of a request: the canonical request, the
//! string to sign, the chain of keyed hashes and the authorization value.

use vstd::prelude::*;
use vstd::utf8::encode_utf8;
use crate::digest::{
    digest_input_limit, digest_len, hash_hex, hex_encode, hex_text, hex_text_is_injective,
    hmac_input_limit, hmac_sha256, sha256, sign,
};
use crate::text::{
    byte_len, decimal, decimal_text, lowercase, lowercase_text, utf8_len, utf8_len_of_ascii,
    utf8_of_concat,
};

verus! {

/// The name of the signing scheme.
pub const ALGORITHM: &'static str = "TC3-HMAC-SHA256";

/// The HTTP method of a signed request.
pub const METHOD: &'static str = "POST";

/// The path of a signed request.
pub const CANONICAL_URI: &'static str = "/";

/// The query string of a signed request: none.
pub const CANONICAL_QUERY: &'static str = "";

/// The content type of a signed request.
pub const CONTENT_TYPE: &'static str = "application/json; charset=utf-8";

/// The names of the headers that the signature covers.
pub const SIGNED_HEADERS: &'static str = "content-type;host;x-tc-action";

/// The header block of the canonical request: content type, host and the
/// action in lower case, each on a line of its own.
pub open spec fn canonical_headers_text(
    content_type: Seq<char>,
    host: Seq<char>,
    action: Seq<char>,
) -> Seq<char> {
    "content-type:"@ + content_type + "\nhost:"@ + host + "\nx-tc-action:"@ + lowercase_text(action)
        + "\n"@
}

/// The canonical request: its six parts, one newline between each two.
pub open spec fn canonical_request_text(
    method: Seq<char>,
    uri: Seq<char>,
    query: Seq<char>,
    headers: Seq<char>,
    signed_headers: Seq<char>,
    payload_hash: Seq<char>,
) -> Seq<char> {
    method + "\n"@ + uri + "\n"@ + query + "\n"@ + headers + "\n"@ + signed_headers + "\n"@
        + payload_hash
}

/// The credential scope: date, service and the closing word.
pub open spec fn credential_scope_text(date: Seq<char>, service: Seq<char>) -> Seq<char> {
    date + "/"@ + service + "/tc3_request"@
}

/// The string to sign: algorithm, timestamp in decimal, scope and the hash
/// of the canonical request, one newline between each two.
pub open spec fn string_to_sign_text(
    algorithm: Seq<char>,
    timestamp: nat,
    scope: Seq<char>,
    request_hash: Seq<char>,
) -> Seq<char> {
    algorithm + "\n"@ + decimal_text(timestamp) + "\n"@ + scope + "\n"@ + request_hash
}

/// The key that signs: the secret key behind `TC3`, keyed-hashed with the
/// date, then the service, then the closing word of the scope.
pub open spec fn signing_key(secret_key: Seq<char>, date: Seq<char>, service: Seq<char>) -> Seq<u8> {
    let secret_date = hmac_sha256(encode_utf8("TC3"@ + secret_key), encode_utf8(date));
    let secret_service = hmac_sha256(secret_date, encode_utf8(service));
    hmac_sha256(secret_service, encode_utf8("tc3_request"@))
}

/// The signature: the string to sign keyed-hashed under the signing key, in
/// hexadecimal.
pub open spec fn signature_text(
    secret_key: Seq<char>,
    date: Seq<char>,
    service: Seq<char>,
    string_to_sign: Seq<char>,
) -> Seq<char> {
    hex_text(hmac_sha256(signing_key(secret_key, date, service), encode_utf8(string_to_sign)))
}

/// The value of the `Authorization` header.
pub open spec fn authorization_text(
    algorithm: Seq<char>,
    secret_id: Seq<char>,
    scope: Seq<char>,
    signed_headers: Seq<char>,
    signature: Seq<char>,
) -> Seq<char> {
    algorithm + " Credential="@ + secret_id + "/"@ + scope + ", SignedHeaders="@ + signed_headers
        + ", Signature="@ + signature
}

/// Whether the four texts can be signed: each is short enough for the
/// keyed hash that takes it.
pub open spec fn signable(
    secret_key: Seq<char>,
    date: Seq<char>,
    service: Seq<char>,
    string_to_sign: Seq<char>,
) -> bool {
    &&& 3 + utf8_len(secret_key) < digest_input_limit()
    &&& utf8_len(date) < hmac_input_limit()
    &&& utf8_len(service) < hmac_input_limit()
    &&& utf8_len(string_to_sign) < hmac_input_limit()
}

/// Writes the header block of the canonical request.
pub fn canonical_headers(content_type: &str, host: &str, action: &str) -> (r: String)
    ensures
        r@ == canonical_headers_text(content_type@, host@, action@),
{
    let lower = lowercase(action);
    let mut r = String::from_str("content-type:");
    r.append(content_type);
    r.append("\nhost:");
    r.append(host);
    r.append("\nx-tc-action:");
    r.append(lower.as_str());
    r.append("\n");
    r
}

/// Writes the canonical request from its six parts.
pub fn canonical_request(
    method: &str,
    uri: &str,
    query: &str,
    headers: &str,
    signed_headers: &str,
    payload_hash: &str,
) -> (r: String)
    ensures
        r@ == canonical_request_text(
            method@,
            uri@,
            query@,
            headers@,
            signed_headers@,
            payload_hash@,
        ),
{
    let mut r = String::from_str(method);
    r.append("\n");
    r.append(uri);
    r.append("\n");
    r.append(query);
    r.append("\n");
    r.append(headers);
    r.append("\n");
    r.append(signed_headers);
    r.append("\n");
    r.append(payload_hash);
    r
}

/// Writes the credential scope of `service` on `date`.
pub fn credential_scope(date: &str, service: &str) -> (r: String)
    ensures
        r@ == credential_scope_text(date@, service@),
{
    let mut r = String::from_str(date);
    r.append("/");
    r.append(service);
    r.append("/tc3_request");
    r
}

/// Writes the string to sign.
pub fn string_to_sign(algorithm: &str, timestamp: u64, scope: &str, request_hash: &str) -> (r:
    String)
    ensures
        r@ == string_to_sign_text(algorithm@, timestamp as nat, scope@, request_hash@),
{
    let stamp = decimal(timestamp);
    let mut r = String::from_str(algorithm);
    r.append("\n");
    r.append(stamp.as_str());
    r.append("\n");
    r.append(scope);
    r.append("\n");
    r.append(request_hash);
    r
}

/// Derives the signing key and signs `string_to_sign` with it.
pub fn signature(secret_key: &str, date: &str, service: &str, string_to_sign: &str) -> (r: String)
    requires
        signable(secret_key@, date@, service@, string_to_sign@),
    ensures
        r@ == signature_text(secret_key@, date@, service@, string_to_sign@),
        r@.len() == 2 * digest_len(),
{
    let mut tagged_key = String::from_str("TC3");
    tagged_key.append(secret_key);
    proof {
        reveal_strlit("TC3");
        reveal_strlit("tc3_request");
        utf8_of_concat("TC3"@, secret_key@);
        utf8_len_of_ascii("TC3"@);
        utf8_len_of_ascii("tc3_request"@);
    }
    let secret_date = sign(tagged_key.as_str().as_bytes(), date.as_bytes());
    let secret_service = sign(secret_date.as_slice(), service.as_bytes());
    let secret_signing = sign(secret_service.as_slice(), "tc3_request".as_bytes());
    let tag = sign(secret_signing.as_slice(), string_to_sign.as_bytes());
    hex_encode(tag.as_slice())
}

/// Writes the value of the `Authorization` header.
pub fn authorization(
    algorithm: &str,
    secret_id: &str,
    scope: &str,
    signed_headers: &str,
    signature: &str,
) -> (r: String)
    ensures
        r@ == authorization_text(algorithm@, secret_id@, scope@, signed_headers@, signature@),
{
    let mut r = String::from_str(algorithm);
    r.append(" Credential=");
    r.append(secret_id);
    r.append("/");
    r.append(scope);
    r.append(", SignedHeaders=");
    r.append(signed_headers);
    r.append(", Signature=");
    r.append(signature);
    r
}

/// The hash of a payload as it stands in the canonical request.
pub open spec fn payload_hash_text(payload: Seq<char>) -> Seq<char> {
    hex_text(sha256(encode_utf8(payload)))
}

/// The canonical request of a POST to `/` with no query, the three signed
/// headers and `payload` as body.
pub open spec fn request_text(host: Seq<char>, action: Seq<char>, payload: Seq<char>) -> Seq<char> {
    canonical_request_text(
        METHOD@,
        CANONICAL_URI@,
        CANONICAL_QUERY@,
        canonical_headers_text(CONTENT_TYPE@, host, action),
        SIGNED_HEADERS@,
        payload_hash_text(payload),
    )
}

/// The string to sign for that request at `timestamp`, whose date is
/// `date`.
pub open spec fn to_sign_text(
    date: Seq<char>,
    service: Seq<char>,
    host: Seq<char>,
    action: Seq<char>,
    payload: Seq<char>,
    timestamp: nat,
) -> Seq<char> {
    string_to_sign_text(
        ALGORITHM@,
        timestamp,
        credential_scope_text(date, service),
        hex_text(sha256(encode_utf8(request_text(host, action, payload)))),
    )
}

/// Whether a request can be signed: the payload, the canonical request and
/// the four keyed texts are each short enough to be hashed.
pub open spec fn request_signable(
    secret_key: Seq<char>,
    date: Seq<char>,
    service: Seq<char>,
    host: Seq<char>,
    action: Seq<char>,
    payload: Seq<char>,
    timestamp: nat,
) -> bool {
    &&& utf8_len(payload) < digest_input_limit()
    &&& utf8_len(request_text(host, action, payload)) < digest_input_limit()
    &&& signable(
        secret_key,
        date,
        service,
        to_sign_text(date, service, host, action, payload, timestamp),
    )
}

/// The authorization value of a request.
pub open spec fn authorization_of(
    secret_id: Seq<char>,
    secret_key: Seq<char>,
    date: Seq<char>,
    service: Seq<char>,
    host: Seq<char>,
    action: Seq<char>,
    payload: Seq<char>,
    timestamp: nat,
) -> Seq<char> {
    authorization_text(
        ALGORITHM@,
        secret_id,
        credential_scope_text(date, service),
        SIGNED_HEADERS@,
        signature_text(
            secret_key,
            date,
            service,
            to_sign_text(date, service, host, action, payload, timestamp),
        ),
    )
}

fn fits_digest(s: &str) -> (r: bool)
    ensures
        r == (utf8_len(s@) < digest_input_limit()),
{
    (byte_len(s) as u64) < 0x2000_0000_0000_0000
}

fn fits_hmac(s: &str) -> (r: bool)
    ensures
        r == (utf8_len(s@) < hmac_input_limit()),
{
    (byte_len(s) as u64) < 0x1FFF_FFFF_FFFF_FFC0
}

fn fits_key(secret_key: &str) -> (r: bool)
    ensures
        r == (3 + utf8_len(secret_key@) < digest_input_limit()),
{
    (byte_len(secret_key) as u64) < 0x1FFF_FFFF_FFFF_FFFD
}

/// Signs a request: a POST of `payload` to `host` for `action` of
/// `service`, at `timestamp`, which falls on `date`. Gives the
/// authorization value, or `None` where a text is too long to be hashed.
pub fn sign_request(
    secret_id: &str,
    secret_key: &str,
    date: &str,
    service: &str,
    host: &str,
    action: &str,
    payload: &str,
    timestamp: u64,
) -> (r: Option<String>)
    ensures
        r is Some <==> request_signable(
            secret_key@,
            date@,
            service@,
            host@,
            action@,
            payload@,
            timestamp as nat,
        ),
        r matches Some(value) ==> value@ == authorization_of(
            secret_id@,
            secret_key@,
            date@,
            service@,
            host@,
            action@,
            payload@,
            timestamp as nat,
        ),
{
    if !fits_digest(payload) {
        return None;
    }
    let payload_hash = hash_hex(payload.as_bytes());
    let headers = canonical_headers(CONTENT_TYPE, host, action);
    let request = canonical_request(
        METHOD,
        CANONICAL_URI,
        CANONICAL_QUERY,
        headers.as_str(),
        SIGNED_HEADERS,
        payload_hash.as_str(),
    );
    if !fits_digest(request.as_str()) {
        return None;
    }
    let request_hash = hash_hex(request.as_str().as_bytes());
    let scope = credential_scope(date, service);
    let to_sign = string_to_sign(ALGORITHM, timestamp, scope.as_str(), request_hash.as_str());
    if !fits_key(secret_key) || !fits_hmac(date) || !fits_hmac(service) || !fits_hmac(
        to_sign.as_str(),
    ) {
        return None;
    }
    let signed = signature(secret_key, date, service, to_sign.as_str());
    Some(authorization(ALGORITHM, secret_id, scope.as_str(), SIGNED_HEADERS, signed.as_str()))
}

/// Whether a text is free of newlines.
pub open spec fn single_line(s: Seq<char>) -> bool {
    forall|i: int| 0 <= i < s.len() ==> s[i] != '\n'
}

proof fn first_line_is_unique(a: Seq<char>, x: Seq<char>, b: Seq<char>, y: Seq<char>)
    requires
        single_line(a),
        single_line(b),
        a + seq!['\n'] + x == b + seq!['\n'] + y,
    ensures
        a == b,
        x == y,
{
    let left = a + seq!['\n'] + x;
    let right = b + seq!['\n'] + y;
    if a.len() < b.len() {
        assert(left[a.len() as int] == '\n');
        assert(right[a.len() as int] == b[a.len() as int]);
    } else if b.len() < a.len() {
        assert(right[b.len() as int] == '\n');
        assert(left[b.len() as int] == a[b.len() as int]);
    }
    assert(a.len() == b.len());
    assert forall|i: int| 0 <= i < a.len() implies a[i] == b[i] by {
        assert(left[i] == a[i]);
        assert(right[i] == b[i]);
    }
    assert(a =~= b);
    assert(left.len() == a.len() + 1 + x.len());
    assert(right.len() == b.len() + 1 + y.len());
    assert(x.len() == y.len());
    assert forall|i: int| 0 <= i < x.len() implies x[i] == y[i] by {
        assert(left[a.len() + 1 + i] == x[i]);
        assert(right[b.len() + 1 + i] == y[i]);
    }
    assert(x =~= y);
}

/// Canonical requests tell their parts apart: two requests with the same
/// headers that differ in the method, the path, the query or the hash of
/// the payload are different texts. Method, path and query are each a
/// single line.
pub proof fn canonical_request_is_injective(
    method1: Seq<char>,
    uri1: Seq<char>,
    query1: Seq<char>,
    payload_hash1: Seq<char>,
    method2: Seq<char>,
    uri2: Seq<char>,
    query2: Seq<char>,
    payload_hash2: Seq<char>,
    headers: Seq<char>,
    signed_headers: Seq<char>,
)
    requires
        single_line(method1),
        single_line(uri1),
        single_line(query1),
        single_line(method2),
        single_line(uri2),
        single_line(query2),
        method1 != method2 || uri1 != uri2 || query1 != query2 || payload_hash1 != payload_hash2,
    ensures
        canonical_request_text(method1, uri1, query1, headers, signed_headers, payload_hash1)
            != canonical_request_text(
            method2,
            uri2,
            query2,
            headers,
            signed_headers,
            payload_hash2,
        ),
{
    reveal_strlit("\n");
    let nl = seq!['\n'];
    assert("\n"@ =~= nl);
    let r1 = canonical_request_text(method1, uri1, query1, headers, signed_headers, payload_hash1);
    let r2 = canonical_request_text(method2, uri2, query2, headers, signed_headers, payload_hash2);
    if r1 == r2 {
        let fixed = headers + nl + signed_headers + nl;
        let t1 = uri1 + nl + (query1 + nl + (fixed + payload_hash1));
        let t2 = uri2 + nl + (query2 + nl + (fixed + payload_hash2));
        assert(r1 =~= method1 + nl + t1);
        assert(r2 =~= method2 + nl + t2);
        first_line_is_unique(method1, t1, method2, t2);
        first_line_is_unique(
            uri1,
            query1 + nl + (fixed + payload_hash1),
            uri2,
            query2 + nl + (fixed + payload_hash2),
        );
        first_line_is_unique(query1, fixed + payload_hash1, query2, fixed + payload_hash2);
        assert(payload_hash1 =~= (fixed + payload_hash1).subrange(
            fixed.len() as int,
            (fixed + payload_hash1).len() as int,
        ));
        assert(payload_hash2 =~= (fixed + payload_hash2).subrange(
            fixed.len() as int,
            (fixed + payload_hash2).len() as int,
        ));
        assert(false);
    }
}

/// Payloads with different digests have different canonical requests, all
/// else being equal.
pub proof fn canonical_request_tells_payloads_apart(
    host: Seq<char>,
    action: Seq<char>,
    payload1: Seq<char>,
    payload2: Seq<char>,
)
    requires
        sha256(encode_utf8(payload1)) != sha256(encode_utf8(payload2)),
    ensures
        request_text(host, action, payload1) != request_text(host, action, payload2),
{
    reveal_strlit("POST");
    reveal_strlit("/");
    reveal_strlit("");
    if payload_hash_text(payload1) == payload_hash_text(payload2) {
        hex_text_is_injective(sha256(encode_utf8(payload1)), sha256(encode_utf8(payload2)));
    }
    canonical_request_is_injective(
        METHOD@,
        CANONICAL_URI@,
        CANONICAL_QUERY@,
        payload_hash_text(payload1),
        METHOD@,
        CANONICAL_URI@,
        CANONICAL_QUERY@,
        payload_hash_text(payload2),
        canonical_headers_text(CONTENT_TYPE@, host, action),
        SIGNED_HEADERS@,
    );
}

/// Signing is a function of what is signed: the same secret key, date,
/// service and string to sign give the same signature.
pub proof fn signing_is_deterministic(
    secret_key1: Seq<char>,
    date1: Seq<char>,
    service1: Seq<char>,
    string_to_sign1: Seq<char>,
    secret_key2: Seq<char>,
    date2: Seq<char>,
    service2: Seq<char>,
    string_to_sign2: Seq<char>,
)
    requires
        secret_key1 == secret_key2,
        date1 == date2,
        service1 == service2,
        string_to_sign1 == string_to_sign2,
    ensures
        signature_text(secret_key1, date1, service1, string_to_sign1) == signature_text(
            secret_key2,
            date2,
            service2,
            string_to_sign2,
        ),
{
}

} // verus!

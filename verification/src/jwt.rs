//! The signed assertion: a compact JWT under RS256. Header and claims come as
//! JSON text; each is written in base64url without padding, the two are
//! joined by a dot and signed, and the signature follows after a second dot.

use crate::error::{text_of, Failure, PipelineError};
use crate::primitives::{
    base64_decode, base64_decoding, base64url_encode, base64url_nopad, is_base64url_char,
    pkcs1v15_sha256_signature, pkcs8_rsa_key, rsa_key_from_pkcs8, rsa_sign_sha256, sha256,
    sha256_digest,
};
use crate::text::{free_of, lemma_run_len_after, run_len};
use vstd::prelude::*;
use vstd::slice::slice_subrange;
use vstd::string::StringExecFns;
use vstd::utf8::encode_utf8;

verus! {

pub const LINE_FEED: u8 = 0x0a;

pub const CARRIAGE_RETURN: u8 = 0x0d;

pub const DASH: u8 = 0x2d;

/// The header of every assertion: RS256, JWT.
#[derive(Debug, Clone, PartialEq, Eq)]
pub struct Header {
    pub alg: String,
    pub typ: String,
}

impl Header {
    pub fn new() -> (header: Self)
        ensures
            header.alg@ == "RS256"@,
            header.typ@ == "JWT"@,
    {
        Header { alg: "RS256".to_owned(), typ: "JWT".to_owned() }
    }
}

/// A line as it counts: without the carriage return before its line feed.
pub open spec fn pem_line(raw: Seq<u8>, terminated: bool) -> Seq<u8> {
    if terminated && raw.len() > 0 && raw.last() == CARRIAGE_RETURN {
        raw.drop_last()
    } else {
        raw
    }
}

/// A line of the armor round a key: one that begins with a dash.
pub open spec fn is_armor(line: Seq<u8>) -> bool {
    line.len() > 0 && line[0] == DASH
}

/// The body of a PEM text: its lines without those of the armor, put
/// together with no line ending between them.
pub open spec fn pem_body(pem: Seq<u8>) -> Seq<u8>
    decreases pem.len(),
{
    if pem.len() == 0 {
        Seq::empty()
    } else {
        let n = run_len(pem, LINE_FEED);
        let terminated = n < pem.len();
        let line = pem_line(pem.take(n as int), terminated);
        let kept = if is_armor(line) {
            Seq::empty()
        } else {
            line
        };
        if terminated {
            kept + pem_body(pem.skip(n as int + 1))
        } else {
            kept
        }
    }
}

/// Takes the armor off a PEM text and joins the lines that are left.
pub fn strip_pem_armor(pem: &[u8]) -> (body: Vec<u8>)
    ensures
        body@ == pem_body(pem@),
{
    let mut body: Vec<u8> = Vec::new();
    let mut start: usize = 0;
    assert(pem@.skip(0) =~= pem@);
    assert(body@ + pem_body(pem@) =~= pem_body(pem@));
    while start < pem.len()
        invariant
            start <= pem.len(),
            pem_body(pem@) == body@ + pem_body(pem@.skip(start as int)),
        decreases pem.len() - start,
    {
        let ghost rest = pem@.skip(start as int);
        let ghost done = body@;
        let mut end: usize = start;
        while end < pem.len() && pem[end] != LINE_FEED
            invariant
                start <= end <= pem.len(),
                forall|k: int| start <= k < end ==> pem@[k] != LINE_FEED,
            decreases pem.len() - end,
        {
            end += 1;
        }
        let terminated = end < pem.len();
        let stop: usize = if terminated && end > start && pem[end - 1] == CARRIAGE_RETURN {
            end - 1
        } else {
            end
        };
        let armor = stop > start && pem[start] == DASH;
        proof {
            let front = rest.take(end - start);
            let tail = rest.skip(end - start);
            assert(rest =~= front + tail);
            assert(free_of(front, LINE_FEED));
            lemma_run_len_after(front, tail, LINE_FEED);
            assert(run_len(tail, LINE_FEED) == 0);
            assert(run_len(rest, LINE_FEED) == end - start);
            assert(pem_line(front, terminated) =~= pem@.subrange(start as int, stop as int));
            assert(armor == is_armor(pem_line(front, terminated)));
            if terminated {
                assert(rest.skip(end - start + 1) =~= pem@.skip(end + 1));
            }
        }
        if !armor {
            body.extend_from_slice(slice_subrange(pem, start, stop));
        }
        proof {
            let kept = if armor {
                Seq::<u8>::empty()
            } else {
                pem@.subrange(start as int, stop as int)
            };
            assert(body@ =~= done + kept);
            if terminated {
                assert(done + (kept + pem_body(pem@.skip(end + 1))) =~= body@ + pem_body(
                    pem@.skip(end + 1),
                ));
            } else {
                assert(pem@.skip(end as int) =~= Seq::<u8>::empty());
                assert(body@ + pem_body(pem@.skip(end as int)) =~= done + kept);
            }
        }
        start = if terminated {
            end + 1
        } else {
            end
        };
    }
    assert(pem@.skip(start as int) =~= Seq::<u8>::empty());
    assert(body@ + Seq::<u8>::empty() =~= body@);
    body
}

/// The key that a PEM text holds: its body read as base64, and the bytes
/// read as a PKCS#8 document. `None` where either reading fails.
pub open spec fn private_key_of(pem: Seq<u8>) -> Option<rsa::RsaPrivateKey> {
    match base64_decoding(pem_body(pem)) {
        Some(der) => pkcs8_rsa_key(der),
        None => None,
    }
}

/// Reads the private key of a service account from its PEM text.
pub fn create_private_key(private_key: &str) -> (r: Result<rsa::RsaPrivateKey, PipelineError>)
    ensures
        match r {
            Ok(key) => private_key_of(encode_utf8(private_key@)) == Some(key),
            Err(e) => e == PipelineError::KeyDecode && private_key_of(encode_utf8(private_key@))
                is None,
        },
{
    let pk_trimmed = strip_pem_armor(private_key.as_bytes());
    let pk_bytes = match base64_decode(pk_trimmed.as_slice()) {
        Ok(bytes) => bytes,
        Err(_) => {
            return Err(PipelineError::KeyDecode);
        },
    };
    match rsa_key_from_pkcs8(pk_bytes.as_slice()) {
        Ok(key) => Ok(key),
        Err(_) => Err(PipelineError::KeyDecode),
    }
}

/// A segment of a compact JWT: base64url text, so without `=`, `+` and `/`,
/// and without a dot.
pub open spec fn is_segment(s: Seq<char>) -> bool {
    forall|i: int| 0 <= i < s.len() ==> is_base64url_char(#[trigger] s[i])
}

/// Two texts with a dot between them.
pub open spec fn dotted(left: Seq<char>, right: Seq<char>) -> Seq<char> {
    left + seq!['.'] + right
}

/// Three segments joined by dots.
pub open spec fn is_compact_jwt(jwt: Seq<char>) -> bool {
    exists|header: Seq<char>, claims: Seq<char>, signature: Seq<char>|
        {
            &&& is_segment(header)
            &&& is_segment(claims)
            &&& is_segment(signature)
            &&& jwt == #[trigger] dotted(dotted(header, claims), signature)
        }
}

/// What is signed: the two encoded segments with a dot between them.
pub fn signing_input(header_64: &str, claims_64: &str) -> (input: String)
    ensures
        input@ == dotted(header_64@, claims_64@),
{
    proof {
        reveal_strlit(".");
    }
    let input = header_64.to_owned().concat(".").concat(claims_64);
    assert("."@ =~= seq!['.']);
    input
}

/// The finished token: what was signed, a dot, and the encoded signature.
pub fn compact_jwt(signing_input: &str, signature_64: &str) -> (jwt: String)
    ensures
        jwt@ == dotted(signing_input@, signature_64@),
{
    proof {
        reveal_strlit(".");
    }
    let jwt = signing_input.to_owned().concat(".").concat(signature_64);
    assert("."@ =~= seq!['.']);
    jwt
}

/// The text that is signed for a header and claims.
pub open spec fn signing_text(header_json: Seq<u8>, claims_json: Seq<u8>) -> Seq<char> {
    dotted(base64url_nopad(header_json), base64url_nopad(claims_json))
}

/// The assertion for a header, claims and the PEM text of a key. The
/// signature covers the bytes of the signing text as they stand.
pub open spec fn signed_assertion(header_json: Seq<u8>, claims_json: Seq<u8>, pem: Seq<u8>) -> Result<
    Seq<char>,
    Failure,
> {
    let input = signing_text(header_json, claims_json);
    match private_key_of(pem) {
        None => Err(Failure::KeyDecode),
        Some(key) => match pkcs1v15_sha256_signature(key, sha256(encode_utf8(input))) {
            None => Err(Failure::Signing),
            Some(signature) => Ok(dotted(input, base64url_nopad(signature))),
        },
    }
}

/// A compact JWT holds no `=`, no `+` and no `/`: neither its segments nor
/// the dots between them are one of these.
pub proof fn lemma_compact_jwt_is_url_safe(jwt: Seq<char>)
    requires
        is_compact_jwt(jwt),
    ensures
        free_of(jwt, '='),
        free_of(jwt, '+'),
        free_of(jwt, '/'),
{
    let (header, claims, signature) = choose|
        header: Seq<char>,
        claims: Seq<char>,
        signature: Seq<char>,
    |
        {
            &&& is_segment(header)
            &&& is_segment(claims)
            &&& is_segment(signature)
            &&& jwt == #[trigger] dotted(dotted(header, claims), signature)
        };
    assert forall|i: int| 0 <= i < jwt.len() implies jwt[i] != '=' && jwt[i] != '+' && jwt[i]
        != '/' by {
        let h = header.len() as int;
        let c = claims.len() as int;
        if i < h {
            assert(jwt[i] == header[i]);
        } else if i == h {
            assert(jwt[i] == '.');
        } else if i < h + 1 + c {
            assert(jwt[i] == claims[i - h - 1]);
        } else if i == h + 1 + c {
            assert(jwt[i] == '.');
        } else {
            assert(jwt[i] == signature[i - h - c - 2]);
        }
    }
}

/// Signs `claims_json` under `header_json` with the key of a service account
/// and returns the compact JWT. Fails with `KeyDecode` where the PEM text
/// holds no key, and with `Signing` where the key cannot sign.
pub fn create_jwt(header_json: &str, claims_json: &str, private_key: &str) -> (r: Result<
    String,
    PipelineError,
>)
    ensures
        text_of(r) == signed_assertion(
            encode_utf8(header_json@),
            encode_utf8(claims_json@),
            encode_utf8(private_key@),
        ),
        r matches Ok(jwt) ==> {
            &&& is_compact_jwt(jwt@)
            &&& free_of(jwt@, '=')
            &&& free_of(jwt@, '+')
            &&& free_of(jwt@, '/')
        },
{
    let header_64 = base64url_encode(header_json.as_bytes());
    let claims_64 = base64url_encode(claims_json.as_bytes());
    let jwt_data = signing_input(header_64.as_str(), claims_64.as_str());
    let key = match create_private_key(private_key) {
        Ok(key) => key,
        Err(e) => {
            return Err(e);
        },
    };
    let jwt_data_hashed = sha256_digest(jwt_data.as_str().as_bytes());
    let signature = match rsa_sign_sha256(&key, jwt_data_hashed.as_slice()) {
        Ok(signature) => signature,
        Err(_) => {
            return Err(PipelineError::Signing);
        },
    };
    let signature_64 = base64url_encode(signature.as_slice());
    let jwt = compact_jwt(jwt_data.as_str(), signature_64.as_str());
    proof {
        assert(jwt@ == dotted(dotted(header_64@, claims_64@), signature_64@));
        lemma_compact_jwt_is_url_safe(jwt@);
    }
    Ok(jwt)
}

/// The assertion depends on nothing but the header, the claims and the key:
/// two runs of `create_jwt` on the same three texts end the same way, and
/// where they succeed, their tokens agree in every character.
pub proof fn lemma_assertion_is_reproducible(
    first: Result<String, PipelineError>,
    second: Result<String, PipelineError>,
    header_json: Seq<char>,
    claims_json: Seq<char>,
    private_key: Seq<char>,
)
    requires
        text_of(first) == signed_assertion(
            encode_utf8(header_json),
            encode_utf8(claims_json),
            encode_utf8(private_key),
        ),
        text_of(second) == signed_assertion(
            encode_utf8(header_json),
            encode_utf8(claims_json),
            encode_utf8(private_key),
        ),
    ensures
        text_of(first) == text_of(second),
        first is Ok <==> second is Ok,
        first is Ok ==> first->Ok_0@ == second->Ok_0@,
        first is Err ==> first->Err_0@ == second->Err_0@,
{
}

} // verus!

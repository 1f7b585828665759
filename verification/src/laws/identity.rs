//! Laws of enrollment and challenge signing.

use serde_json::Value;
use vstd::prelude::*;

use crate::base64url::{decode_inverts_encode, decoded, encode_inverts_decode, encoded};
use crate::error::Error;
use crate::identity::{
    challenge_message, ed25519_public_key, ed25519_signature, enroll, enroll_refused,
    enroll_refused_with, enroll_with_seed, enrolled, enrolls, is_success, sign_challenge,
    status_text, EnrollRequest, EnrollResponse, EnrollResult, Identity,
};
use crate::json::{json, json_of_bytes, Json};
use crate::laws::encoding::{blank, is_trim, lemma_slashes, lemma_trimmed, slashes};
use crate::laws::{holds, keys_are};

verus! {

/// The base64 text of some bytes, and of no others.
pub open spec fn is_base64_of(text: Seq<char>, bytes: Seq<u8>) -> bool {
    decoded(text) == Some(bytes)
}

/// The lines that an instance signs for a nonce.
pub open spec fn is_challenge(text: Seq<char>, instance_id: Seq<char>, nonce: Seq<char>) -> bool {
    text == "rawtoh-module-register:v1\n"@ + instance_id + "\n"@ + nonce
}

proof fn lemma_challenge(instance_id: Seq<char>, nonce: Seq<char>)
    ensures
        is_challenge(
            crate::identity::challenge_text(instance_id, nonce),
            instance_id,
            nonce,
        ),
{
    reveal_strlit("rawtoh-module-register:v1");
    reveal_strlit("\n");
    reveal_strlit("rawtoh-module-register:v1\n");
    assert("rawtoh-module-register:v1"@ + "\n"@ =~= "rawtoh-module-register:v1\n"@);
}

/// The text that answers a challenge names the protocol, the instance and the
/// nonce.
pub proof fn the_challenge_names_instance_and_nonce(instance_id: &str, nonce: &str, r: String)
    requires
        call_ensures(challenge_message, (instance_id, nonce), r),
    ensures
        is_challenge(r@, instance_id@, nonce@),
{
    lemma_challenge(instance_id@, nonce@);
}

/// A nonce is signed exactly when the private key is the base64 text of 32
/// bytes. The signature is the one that this very seed makes over this very
/// instance and nonce; it has 64 bytes.
pub proof fn a_nonce_is_signed_with_the_private_key(
    identity: Identity,
    nonce: &str,
    r: Result<String, Error>,
    seed: Seq<u8>,
    text: Seq<char>,
)
    requires
        call_ensures(sign_challenge, (&identity, nonce), r),
        is_base64_of(identity.private_key@, seed),
        seed.len() == 32,
        is_challenge(text, identity.instance_id@, nonce@),
    ensures
        r is Ok,
        is_base64_of(r->Ok_0@, ed25519_signature(seed, vstd::utf8::encode_utf8(text))),
        ed25519_signature(seed, vstd::utf8::encode_utf8(text)).len() == 64,
        r->Ok_0@.len() == 86,
{
    lemma_challenge(identity.instance_id@, nonce@);
    decode_inverts_encode(ed25519_signature(seed, vstd::utf8::encode_utf8(text)));
}

/// With any other private key nothing is signed.
pub proof fn no_other_key_signs(identity: Identity, nonce: &str, r: Result<String, Error>)
    requires
        call_ensures(sign_challenge, (&identity, nonce), r),
        forall|seed: Seq<u8>| #[trigger]
            is_base64_of(identity.private_key@, seed) ==> seed.len() != 32,
    ensures
        r is Err,
        r->Err_0 is Identity,
        r->Err_0->Identity_0@ == "private_key is not a 32-byte base64url seed"@,
{
    if decoded(identity.private_key@) is Some {
        assert(is_base64_of(identity.private_key@, decoded(identity.private_key@)->0));
    }
}

/// An enrollment is posted to the server that the caller named, whether or not
/// slashes follow the name, with the token that the caller gave, whatever white
/// space is around it, and the public half of the key; nothing else. The private
/// half is kept.
pub proof fn enrollment_goes_where_the_caller_said(
    api_url: &str,
    enrollment_token: &str,
    seed: &[u8],
    r: EnrollRequest,
    base: Seq<char>,
    tail: Seq<char>,
    lead: Seq<char>,
    token: Seq<char>,
    trail: Seq<char>,
)
    requires
        call_ensures(enroll_with_seed, (api_url, enrollment_token, seed), r),
        api_url@ == base + tail,
        base.len() > 0 ==> base.last() != '/',
        slashes(tail),
        enrollment_token@ == lead + token + trail,
        blank(lead),
        is_trim(token),
        blank(trail),
    ensures
        r.url@ == base + "/api/module-enroll"@,
        keys_are(json(r.body), set!["token"@, "public_key"@]),
        holds(json(r.body), "token"@, Json::Str(token)),
        holds(json(r.body), "public_key"@, Json::Str(encoded(ed25519_public_key(seed@)))),
        is_base64_of(encoded(ed25519_public_key(seed@)), ed25519_public_key(seed@)),
        is_base64_of(r.private_key@, seed@),
{
    lemma_slashes(base, tail);
    lemma_trimmed(lead, token, trail);
    lemma_posted(r, api_url@, enrollment_token@, seed@);
}

proof fn lemma_posted(
    r: EnrollRequest,
    api_url: Seq<char>,
    enrollment_token: Seq<char>,
    seed: Seq<u8>,
)
    requires
        enrolls(r, api_url, enrollment_token, seed),
    ensures
        keys_are(json(r.body), set!["token"@, "public_key"@]),
        holds(
            json(r.body),
            "token"@,
            Json::Str(crate::text::trimmed(enrollment_token)),
        ),
        holds(json(r.body), "public_key"@, Json::Str(encoded(ed25519_public_key(seed)))),
        is_base64_of(encoded(ed25519_public_key(seed)), ed25519_public_key(seed)),
        is_base64_of(r.private_key@, seed),
{
    reveal_strlit("token");
    reveal_strlit("public_key");
    assert("token"@.len() == 5);
    assert("public_key"@.len() == 10);
    assert(json(r.body)->Object_0.dom() =~= set!["token"@, "public_key"@]);
    decode_inverts_encode(seed);
    decode_inverts_encode(ed25519_public_key(seed));
}

/// Different servers get different requests, and so do different seeds.
pub proof fn enrollments_are_told_apart(
    a_url: &str,
    b_url: &str,
    a_token: &str,
    b_token: &str,
    a_seed: &[u8],
    b_seed: &[u8],
    a: EnrollRequest,
    b: EnrollRequest,
)
    requires
        call_ensures(enroll_with_seed, (a_url, a_token, a_seed), a),
        call_ensures(enroll_with_seed, (b_url, b_token, b_seed), b),
        a_url@.len() > 0 ==> a_url@.last() != '/',
        b_url@.len() > 0 ==> b_url@.last() != '/',
    ensures
        a.url@ == b.url@ <==> a_url@ == b_url@,
        a.private_key@ == b.private_key@ <==> a_seed@ == b_seed@,
{
    let path = "/api/module-enroll"@;
    assert(a_url@ + Seq::<char>::empty() =~= a_url@);
    assert(b_url@ + Seq::<char>::empty() =~= b_url@);
    lemma_slashes(a_url@, Seq::empty());
    lemma_slashes(b_url@, Seq::empty());
    if a.url@ == b.url@ {
        assert(a.url@.len() == a_url@.len() + path.len());
        assert(b.url@.len() == b_url@.len() + path.len());
        assert(a.url@.take(a_url@.len() as int) =~= a_url@);
        assert(b.url@.take(b_url@.len() as int) =~= b_url@);
    }
    decode_inverts_encode(a_seed@);
    decode_inverts_encode(b_seed@);
}

/// With a fresh seed the request goes to the same place with the same token; the
/// key that is kept is the one whose public half is posted.
pub proof fn a_fresh_enrollment_is_one_of_some_seed(
    api_url: &str,
    enrollment_token: &str,
    r: Result<EnrollRequest, Error>,
    base: Seq<char>,
    tail: Seq<char>,
    lead: Seq<char>,
    token: Seq<char>,
    trail: Seq<char>,
)
    requires
        call_ensures(enroll, (api_url, enrollment_token), r),
        api_url@ == base + tail,
        base.len() > 0 ==> base.last() != '/',
        slashes(tail),
        enrollment_token@ == lead + token + trail,
        blank(lead),
        is_trim(token),
        blank(trail),
    ensures
        r matches Ok(request) ==> {
            &&& request.url@ == base + "/api/module-enroll"@
            &&& keys_are(json(request.body), set!["token"@, "public_key"@])
            &&& holds(json(request.body), "token"@, Json::Str(token))
            &&& decoded(request.private_key@) is Some
            &&& decoded(request.private_key@)->0.len() == 32
            &&& holds(
                json(request.body),
                "public_key"@,
                Json::Str(encoded(ed25519_public_key(decoded(request.private_key@)->0))),
            )
        },
        r matches Err(e) ==> e is Identity,
{
    lemma_slashes(base, tail);
    lemma_trimmed(lead, token, trail);
    if let Ok(request) = r {
        let seed = choose|seed: Seq<u8>|
            seed.len() == 32 && #[trigger] enrolls(request, api_url@, enrollment_token@, seed);
        lemma_posted(request, api_url@, enrollment_token@, seed);
    }
}

/// An accepted enrollment leaves the instance that the hub named, with the
/// private key of the request and the hub's names.
pub proof fn an_accepted_enrollment_keeps_both_halves(
    request: EnrollRequest,
    response: EnrollResponse,
    r: EnrollResult,
)
    requires
        call_ensures(enrolled, (request, response), r),
    ensures
        r.identity.instance_id@ == response.instance_id@,
        r.identity.private_key@ == request.private_key@,
        r.instance_name@ == response.instance_name@,
        r.organization_id@ == response.organization_id@,
        r.module_slug@ == response.module_slug@,
{
}

/// From enrollment to registration: the key that was enrolled signs every nonce
/// for the instance that the hub named.
pub proof fn what_was_enrolled_signs_every_nonce(
    api_url: &str,
    enrollment_token: &str,
    seed: &[u8],
    request: EnrollRequest,
    response: EnrollResponse,
    result: EnrollResult,
    nonce: &str,
    r: Result<String, Error>,
    text: Seq<char>,
)
    requires
        seed@.len() == 32,
        call_ensures(enroll_with_seed, (api_url, enrollment_token, seed), request),
        call_ensures(enrolled, (request, response), result),
        call_ensures(sign_challenge, (&result.identity, nonce), r),
        is_challenge(text, response.instance_id@, nonce@),
    ensures
        r is Ok,
        is_base64_of(r->Ok_0@, ed25519_signature(seed@, vstd::utf8::encode_utf8(text))),
        holds(json(request.body), "public_key"@, Json::Str(encoded(ed25519_public_key(seed@)))),
{
    lemma_posted(request, api_url@, enrollment_token@, seed@);
    a_nonce_is_signed_with_the_private_key(result.identity, nonce, r, seed@, text);
}

/// The two hundreds, and only these, are success.
pub proof fn success_is_the_two_hundreds(status: u16, r: bool)
    requires
        call_ensures(is_success, (status,), r),
    ensures
        r <==> status / 100 == 2,
{
}

/// The hub's own words, if its answer has any.
pub open spec fn has_words(body: Option<Json>, words: Seq<char>) -> bool {
    body is Some && holds(body->0, "error"@, Json::Str(words))
}

/// A refusal is reported in the hub's own words where it gives some, and else
/// with the status.
pub proof fn a_refusal_says_what_the_hub_said(
    status: &str,
    body: Option<Value>,
    r: Error,
    words: Seq<char>,
)
    requires
        call_ensures(enroll_refused_with, (status, &body), r),
    ensures
        r is Enroll,
        has_words(
            if body is Some {
                Some(json(body->0))
            } else {
                None
            },
            words,
        ) ==> r->Enroll_0@ == words,
        (body is None || forall|w: Seq<char>| !#[trigger] has_words(Some(json(body->0)), w))
            ==> r->Enroll_0@ == "Enrollment failed ("@ + status@ + ")"@,
{
    if let Some(b) = body {
        if let Json::Object(m) = json(b) {
            if m.contains_key("error"@) {
                if let Json::Str(w) = m["error"@] {
                    assert(has_words(Some(json(b)), w));
                }
            }
        }
    }
}

/// The same of the answer as it came: its status and its bytes.
pub proof fn a_refusal_is_read_off_the_answer(status: u16, body: &[u8], r: Error, words: Seq<char>)
    requires
        100 <= status <= 999,
        call_ensures(enroll_refused, (status, body), r),
    ensures
        r is Enroll,
        has_words(json_of_bytes(body@), words) ==> r->Enroll_0@ == words,
        (forall|w: Seq<char>| !#[trigger] has_words(json_of_bytes(body@), w)) ==> r->Enroll_0@
            == "Enrollment failed ("@ + status_text(status) + ")"@,
{
    if let Some(b) = json_of_bytes(body@) {
        if let Json::Object(m) = b {
            if m.contains_key("error"@) {
                if let Json::Str(w) = m["error"@] {
                    assert(has_words(json_of_bytes(body@), w));
                }
            }
        }
    }
}

/// A text decodes to the bytes that encode to it, and to no others.
pub proof fn base64_text_is_of_one_byte_string(text: Seq<char>, bytes: Seq<u8>)
    ensures
        is_base64_of(text, bytes) <==> encoded(bytes) == text,
{
    decode_inverts_encode(bytes);
    if decoded(text) is Some {
        encode_inverts_decode(text);
    }
}

/// Clones hold the same.
pub proof fn clones_hold_the_same(
    identity: Identity,
    i: Identity,
    result: EnrollResult,
    e: EnrollResult,
)
    requires
        call_ensures(<Identity as Clone>::clone, (&identity,), i),
        call_ensures(<EnrollResult as Clone>::clone, (&result,), e),
    ensures
        i.instance_id@ == identity.instance_id@,
        i.private_key@ == identity.private_key@,
        e.identity.instance_id@ == result.identity.instance_id@,
        e.identity.private_key@ == result.identity.private_key@,
        e.instance_name@ == result.instance_name@,
        e.organization_id@ == result.organization_id@,
        e.module_slug@ == result.module_slug@,
{
}

} // verus!

//! Ed25519 enrollment and challenge signing.
//!
//! A module generates its own key pair and never sends the private half
//! anywhere. Enrollment binds the public half to a Rawtoh instance once; from
//! then on, connecting means signing a nonce the hub issues.
//!
//! The signed byte format is a protocol contract with the hub. Changing it here
//! alone locks every module out.

use ed25519_dalek::{Signer, SigningKey};
use serde_json::Value;
use vstd::prelude::*;

use crate::base64url::{decode, decode_inverts_encode, decoded, encode, encoded};
use crate::error::{Error, ErrorView};
use crate::json::{
    field, json, json_of_bytes, json_opt, object_value, or_null, read_bytes, str_field,
    string_value, text_of, Json, Members,
};
use crate::random::fill;
use crate::text::{trim, trim_end_slashes, trimmed, without_trailing_slashes};

verus! {

const CHALLENGE_CONTEXT: &'static str = "rawtoh-module-register:v1";

/// What a module keeps per enrolled instance. It is the whole credential.
#[derive(Debug)]
pub struct Identity {
    pub instance_id: String,
    /// Ed25519 seed (32 bytes), base64url. Never leaves the module.
    pub private_key: String,
}

impl Clone for Identity {
    fn clone(&self) -> (r: Self)
        ensures
            r == *self,
    {
        Identity {
            instance_id: self.instance_id.clone(),
            private_key: self.private_key.clone(),
        }
    }
}

/// What an `Identity` says.
pub struct IdentityView {
    pub instance_id: Seq<char>,
    pub private_key: Seq<char>,
}

impl View for Identity {
    type V = IdentityView;

    open spec fn view(&self) -> IdentityView {
        IdentityView { instance_id: self.instance_id@, private_key: self.private_key@ }
    }
}

/// The Ed25519 signature that `ed25519_dalek` makes over `message` with the key
/// of `seed`.
pub uninterp spec fn ed25519_signature(seed: Seq<u8>, message: Seq<u8>) -> Seq<u8>;

/// The Ed25519 public key that `ed25519_dalek` derives from `seed`.
pub uninterp spec fn ed25519_public_key(seed: Seq<u8>) -> Seq<u8>;

/// The text of an HTTP status code as `reqwest::StatusCode` writes it: the code
/// and its standard phrase.
pub uninterp spec fn status_text(code: u16) -> Seq<char>;

/// `SigningKey::sign` of `ed25519_dalek`, with the key that
/// `SigningKey::from_bytes` makes of the seed. The signature has 64 bytes and is
/// a function of seed and message, named `ed25519_signature`.
#[verifier::external_body]
fn ed25519_sign(seed: &[u8], message: &[u8]) -> (r: Vec<u8>)
    requires
        seed@.len() == 32,
    ensures
        r@ == ed25519_signature(seed@, message@),
        r@.len() == 64,
{
    let seed: [u8; 32] = seed.try_into().unwrap();
    SigningKey::from_bytes(&seed).sign(message).to_bytes().to_vec()
}

/// `SigningKey::verifying_key` of `ed25519_dalek`, of the key that
/// `SigningKey::from_bytes` makes of the seed. The public key has 32 bytes and
/// is a function of the seed, named `ed25519_public_key`.
#[verifier::external_body]
fn ed25519_public(seed: &[u8]) -> (r: Vec<u8>)
    requires
        seed@.len() == 32,
    ensures
        r@ == ed25519_public_key(seed@),
        r@.len() == 32,
{
    let seed: [u8; 32] = seed.try_into().unwrap();
    SigningKey::from_bytes(&seed).verifying_key().to_bytes().to_vec()
}

/// `StatusCode::to_string` of `reqwest`, of the code that `StatusCode::from_u16`
/// makes of the number. The text is a function of the number, named
/// `status_text`.
#[verifier::external_body]
fn status_line(code: u16) -> (r: String)
    requires
        100 <= code <= 999,
    ensures
        r@ == status_text(code),
{
    reqwest::StatusCode::from_u16(code).unwrap().to_string()
}

/// The text that answers a challenge: the context, the instance and the nonce,
/// each on a line.
pub open spec fn challenge_text(instance_id: Seq<char>, nonce: Seq<char>) -> Seq<char> {
    "rawtoh-module-register:v1"@ + "\n"@ + instance_id + "\n"@ + nonce
}

/// The bytes that are signed to answer a challenge.
pub open spec fn challenge_bytes(instance_id: Seq<char>, nonce: Seq<char>) -> Seq<u8> {
    vstd::utf8::encode_utf8(challenge_text(instance_id, nonce))
}

/// The answer to a challenge: the base64 text of the signature, or an error
/// when the private key is no base64 text of 32 bytes.
pub open spec fn signed(identity: IdentityView, nonce: Seq<char>) -> Result<Seq<char>, ErrorView> {
    match decoded(identity.private_key) {
        Some(seed) => if seed.len() == 32 {
            Ok(encoded(ed25519_signature(seed, challenge_bytes(identity.instance_id, nonce))))
        } else {
            Err(bad_private_key())
        },
        None => Err(bad_private_key()),
    }
}

/// The error for a private key that cannot be used.
pub open spec fn bad_private_key() -> ErrorView {
    ErrorView::Identity("private_key is not a 32-byte base64url seed"@)
}

/// The content of a text or an error.
pub open spec fn text_result(r: Result<String, Error>) -> Result<Seq<char>, ErrorView> {
    match r {
        Ok(s) => Ok(s@),
        Err(e) => Err(e@),
    }
}

/// The text that answers a challenge.
pub fn challenge_message(instance_id: &str, nonce: &str) -> (r: String)
    ensures
        r@ == challenge_text(instance_id@, nonce@),
{
    let mut message: String = CHALLENGE_CONTEXT.to_owned();
    message.append("\n");
    message.append(instance_id);
    message.append("\n");
    message.append(nonce);
    message
}

/// Sign a `session.challenge` nonce with the instance's private key. The
/// signature has 64 bytes, 86 characters in base64.
pub fn sign_challenge(identity: &Identity, nonce: &str) -> (r: Result<String, Error>)
    ensures
        text_result(r) == signed(identity@, nonce@),
        r matches Ok(s) ==> s@.len() == 86,
        r matches Ok(s) ==> match decoded(s@) {
            Some(signature) => signature.len() == 64,
            None => false,
        },
{
    let seed: Vec<u8> = match decode(identity.private_key.as_str()) {
        Ok(seed) => seed,
        Err(_) => {
            return Err(Error::Identity("private_key is not a 32-byte base64url seed".to_owned()));
        },
    };
    if seed.len() != 32 {
        return Err(Error::Identity("private_key is not a 32-byte base64url seed".to_owned()));
    }
    let message: String = challenge_message(identity.instance_id.as_str(), nonce);
    let signature: Vec<u8> = ed25519_sign(seed.as_slice(), message.as_str().as_bytes());
    proof {
        decode_inverts_encode(signature@);
    }
    Ok(encode(signature.as_slice()))
}

/// A completed enrollment.
#[derive(Debug)]
pub struct EnrollResult {
    pub identity: Identity,
    pub instance_name: String,
    pub organization_id: String,
    pub module_slug: String,
}

impl Clone for EnrollResult {
    fn clone(&self) -> (r: Self)
        ensures
            r == *self,
    {
        EnrollResult {
            identity: self.identity.clone(),
            instance_name: self.instance_name.clone(),
            organization_id: self.organization_id.clone(),
            module_slug: self.module_slug.clone(),
        }
    }
}

/// What the hub answers to an enrollment that it accepts.
#[derive(Debug)]
pub struct EnrollResponse {
    pub instance_id: String,
    pub instance_name: String,
    pub organization_id: String,
    pub module_slug: String,
}

/// An enrollment under way: what to post where, and the private half of the key
/// pair, which stays here.
pub struct EnrollRequest {
    pub url: String,
    pub body: Value,
    pub private_key: String,
}

/// `r` enrolls the key pair of `seed`: it posts the token, without the white
/// space around it, and the public key, which has 32 bytes, 43 characters in
/// base64.
pub open spec fn enrolls(
    r: EnrollRequest,
    api_url: Seq<char>,
    enrollment_token: Seq<char>,
    seed: Seq<u8>,
) -> bool {
    &&& r.url@ == without_trailing_slashes(api_url) + "/api/module-enroll"@
    &&& json(r.body) == Json::Object(
        Members::empty().insert("token"@, Json::Str(trimmed(enrollment_token))).insert(
            "public_key"@,
            Json::Str(encoded(ed25519_public_key(seed))),
        ),
    )
    &&& ed25519_public_key(seed).len() == 32
    &&& encoded(ed25519_public_key(seed)).len() == 43
    &&& r.private_key@ == encoded(seed)
}

/// `r` enrolls the key pair of some 32-byte seed.
pub open spec fn enrolls_some_seed(
    r: EnrollRequest,
    api_url: Seq<char>,
    enrollment_token: Seq<char>,
) -> bool {
    exists|seed: Seq<u8>|
        seed.len() == 32 && #[trigger] enrolls(r, api_url, enrollment_token, seed)
}

/// Begin to redeem an enrollment token with the key pair of `seed`.
pub fn enroll_with_seed(api_url: &str, enrollment_token: &str, seed: &[u8]) -> (r: EnrollRequest)
    requires
        seed@.len() == 32,
    ensures
        enrolls(r, api_url@, enrollment_token@, seed@),
{
    let public_key: String = encode(ed25519_public(seed).as_slice());
    let mut url: String = trim_end_slashes(api_url).to_owned();
    url.append("/api/module-enroll");
    let mut m = serde_json::Map::new();
    m.insert("token".to_owned(), string_value(trim(enrollment_token).to_owned()));
    m.insert("public_key".to_owned(), string_value(public_key));
    EnrollRequest { url, body: object_value(m), private_key: encode(seed) }
}

/// Begin to redeem an enrollment token: generate a key pair, hand the hub the
/// public half, keep the private half. Fails only where there are no random
/// bytes to be had.
pub fn enroll(api_url: &str, enrollment_token: &str) -> (r: Result<EnrollRequest, Error>)
    ensures
        match r {
            Ok(request) => enrolls_some_seed(request, api_url@, enrollment_token@),
            Err(e) => e@ is Identity,
        },
{
    let mut seed = [0u8; 32];
    match fill(&mut seed) {
        Ok(()) => {
            let request = enroll_with_seed(api_url, enrollment_token, &seed);
            assert(enrolls_some_seed(request, api_url@, enrollment_token@)) by {
                assert(seed@.len() == 32);
                assert(enrolls(request, api_url@, enrollment_token@, seed@));
            }
            Ok(request)
        },
        Err(message) => Err(Error::Identity(message)),
    }
}

/// Whether an HTTP status says that the request was accepted.
pub fn is_success(status: u16) -> (r: bool)
    ensures
        r == (200 <= status <= 299),
{
    200 <= status && status <= 299
}

/// What a refused enrollment is reported as: the `error` that the hub gives, or
/// else the status.
pub open spec fn refusal(status_text: Seq<char>, body: Option<Json>) -> Seq<char> {
    match text_of(field(or_null(body), "error"@)) {
        Some(message) => message,
        None => "Enrollment failed ("@ + status_text + ")"@,
    }
}

/// The error for a refused enrollment, from the status and the body of the
/// hub's answer.
pub fn enroll_refused(status: u16, body: &[u8]) -> (r: Error)
    requires
        100 <= status <= 999,
    ensures
        r@ == ErrorView::Enroll(refusal(status_text(status), json_of_bytes(body@))),
{
    let body: Option<Value> = read_bytes(body);
    enroll_refused_with(status_line(status).as_str(), &body)
}

/// The error for a refused enrollment, from the status as a text and the body
/// as a value, if it was one.
pub fn enroll_refused_with(status: &str, body: &Option<Value>) -> (r: Error)
    ensures
        r@ == ErrorView::Enroll(refusal(status@, json_opt(*body))),
{
    if let Some(body) = body {
        if let Some(message) = str_field(body, "error") {
            return Error::Enroll(message.to_owned());
        }
    }
    let mut message: String = "Enrollment failed (".to_owned();
    message.append(status);
    message.append(")");
    Error::Enroll(message)
}

/// Complete an enrollment that the hub accepted: the instance it bound the key
/// to, with the private key kept here.
pub fn enrolled(request: EnrollRequest, response: EnrollResponse) -> (r: EnrollResult)
    ensures
        r.identity@ == (IdentityView {
            instance_id: response.instance_id@,
            private_key: request.private_key@,
        }),
        r.instance_name@ == response.instance_name@,
        r.organization_id@ == response.organization_id@,
        r.module_slug@ == response.module_slug@,
{
    EnrollResult {
        identity: Identity {
            instance_id: response.instance_id,
            private_key: request.private_key,
        },
        instance_name: response.instance_name,
        organization_id: response.organization_id,
        module_slug: response.module_slug,
    }
}

/// What was enrolled signs: with the identity that enrolling `seed` leaves
/// behind, every challenge is answered, by the key whose public half was posted
/// to the hub, over the bytes of the v1 format.
pub proof fn enrolled_identity_signs(
    request: EnrollRequest,
    api_url: Seq<char>,
    enrollment_token: Seq<char>,
    seed: Seq<u8>,
    instance_id: Seq<char>,
    nonce: Seq<char>,
)
    requires
        seed.len() == 32,
        enrolls(request, api_url, enrollment_token, seed),
    ensures
        field(json(request.body), "public_key"@) == Some(
            Json::Str(encoded(ed25519_public_key(seed))),
        ),
        signed(IdentityView { instance_id, private_key: request.private_key@ }, nonce) == Ok::<
            Seq<char>,
            ErrorView,
        >(encoded(ed25519_signature(seed, challenge_bytes(instance_id, nonce)))),
{
    decode_inverts_encode(seed);
}

proof fn lemma_challenge_text_index(instance_id: Seq<char>, nonce: Seq<char>)
    ensures
        ({
            let t = challenge_text(instance_id, nonce);
            &&& t.len() == 27 + instance_id.len() + nonce.len()
            &&& t.subrange(26, 26 + instance_id.len() as int) == instance_id
            &&& t[26 + instance_id.len() as int] == '\n'
            &&& t.skip(27 + instance_id.len() as int) == nonce
        }),
{
    reveal_strlit("rawtoh-module-register:v1");
    reveal_strlit("\n");
    assert("rawtoh-module-register:v1"@.len() == 25);
    assert("\n"@.len() == 1);
    let t = challenge_text(instance_id, nonce);
    assert(t.subrange(26, 26 + instance_id.len() as int) =~= instance_id);
    assert(t.skip(27 + instance_id.len() as int) =~= nonce);
}

/// The signed bytes say which instance answers which nonce: no other instance
/// and nonce give the same bytes, as long as instance ids hold no line break.
pub proof fn challenge_bytes_are_unambiguous(
    a: Seq<char>,
    nonce_a: Seq<char>,
    b: Seq<char>,
    nonce_b: Seq<char>,
)
    requires
        !a.contains('\n'),
        !b.contains('\n'),
        challenge_bytes(a, nonce_a) == challenge_bytes(b, nonce_b),
    ensures
        a == b,
        nonce_a == nonce_b,
{
    let ta = challenge_text(a, nonce_a);
    let tb = challenge_text(b, nonce_b);
    vstd::utf8::encode_utf8_decode_utf8(ta);
    vstd::utf8::encode_utf8_decode_utf8(tb);
    assert(ta == tb);
    lemma_challenge_text_index(a, nonce_a);
    lemma_challenge_text_index(b, nonce_b);
    if a.len() < b.len() {
        assert(tb.subrange(26, 26 + b.len() as int)[a.len() as int] == '\n');
        assert(b[a.len() as int] == '\n');
    }
    if b.len() < a.len() {
        assert(ta.subrange(26, 26 + a.len() as int)[b.len() as int] == '\n');
        assert(a[b.len() as int] == '\n');
    }
}

} // verus!

use ed25519_dalek::{Signature, SigningKey, Verifier};
use rawtoh_module_sdk::base64url;
use rawtoh_module_sdk::identity::{
    challenge_message, enroll_refused, enroll_refused_with, enroll_with_seed, enrolled, is_success,
    EnrollResponse,
};
use rawtoh_module_sdk::{enroll, sign_challenge, Error, Identity};

// The signed bytes are the contract with the hub.
#[test]
fn signature_verifies_over_the_v1_format() {
    let seed = [7u8; 32];
    let identity = Identity {
        instance_id: "inst_123".into(),
        private_key: base64url::encode(&seed),
    };
    let public = SigningKey::from_bytes(&seed).verifying_key();

    let sig = base64url::decode(&sign_challenge(&identity, "n0nce").unwrap()).unwrap();
    assert_eq!(sig.len(), 64);
    let sig = Signature::from_slice(&sig).unwrap();

    assert!(public
        .verify(b"rawtoh-module-register:v1\ninst_123\nn0nce", &sig)
        .is_ok());
    assert!(public
        .verify(b"rawtoh-module-register:v1\ninst_123\nother", &sig)
        .is_err());
}

#[test]
fn a_private_key_that_is_no_seed_is_refused() {
    for private_key in ["", "not base64!", "YQ", &base64url::encode(&[1u8; 33])] {
        let identity = Identity { instance_id: "i".into(), private_key: private_key.into() };
        match sign_challenge(&identity, "n") {
            Err(Error::Identity(m)) => {
                assert_eq!(m, "private_key is not a 32-byte base64url seed")
            }
            other => panic!("{other:?}"),
        }
    }
}

#[test]
fn the_signed_text_has_three_lines() {
    assert_eq!(challenge_message("inst_1", "n"), "rawtoh-module-register:v1\ninst_1\nn");
    // Without line breaks in instance ids, no two challenges share a text.
    assert_ne!(challenge_message("ab", "c"), challenge_message("a", "bc"));
    assert_ne!(challenge_message("a", "\nb"), challenge_message("a", "b"));
    assert_eq!(challenge_message("a\nb", "c"), challenge_message("a", "b\nc"));
}

#[test]
fn enrolling_posts_the_token_and_the_public_key() {
    let seed = [9u8; 32];
    let request = enroll_with_seed("https://app.rawtoh.io//", " rth_e_1\n", &seed);
    assert_eq!(request.url, "https://app.rawtoh.io/api/module-enroll");
    assert_eq!(request.body["token"], "rth_e_1");
    let public = SigningKey::from_bytes(&seed).verifying_key();
    assert_eq!(request.body["public_key"], base64url::encode(public.as_bytes()));
    assert_eq!(request.body.as_object().unwrap().len(), 2);
    assert_eq!(request.private_key, base64url::encode(&seed));
}

#[test]
fn each_enrollment_draws_its_own_key() {
    let a = enroll("https://app.rawtoh.io", "t").unwrap();
    let b = enroll("https://app.rawtoh.io", "t").unwrap();
    assert_eq!(base64url::decode(&a.private_key).unwrap().len(), 32);
    assert_ne!(a.private_key, b.private_key);
    assert_ne!(a.body["public_key"], b.body["public_key"]);
}

#[test]
fn what_was_enrolled_signs() {
    let request = enroll("https://app.rawtoh.io", "t").unwrap();
    let public_key = request.body["public_key"].as_str().unwrap().to_owned();
    let result = enrolled(
        request,
        EnrollResponse {
            instance_id: "inst_7".into(),
            instance_name: "Seven".into(),
            organization_id: "org".into(),
            module_slug: "twitch".into(),
        },
    );
    assert_eq!(result.identity.instance_id, "inst_7");
    assert_eq!(result.instance_name, "Seven");
    assert_eq!(result.organization_id, "org");
    assert_eq!(result.module_slug, "twitch");

    assert_eq!(public_key.len(), 43);
    assert_eq!(sign_challenge(&result.identity, "n").unwrap().len(), 86);
    let bytes: [u8; 32] = base64url::decode(&public_key).unwrap().try_into().unwrap();
    let public = ed25519_dalek::VerifyingKey::from_bytes(&bytes).unwrap();
    let sig = base64url::decode(&sign_challenge(&result.identity, "n").unwrap()).unwrap();
    assert!(public
        .verify(
            b"rawtoh-module-register:v1\ninst_7\nn",
            &Signature::from_slice(&sig).unwrap(),
        )
        .is_ok());
}

#[test]
fn a_refused_enrollment_says_why() {
    let text = |e: Error| match e {
        Error::Enroll(m) => m,
        other => panic!("{other:?}"),
    };
    assert_eq!(text(enroll_refused(410, br#"{"error":"token already used"}"#)), "token already used");
    assert_eq!(text(enroll_refused(404, b"<html>")), "Enrollment failed (404 Not Found)");
    assert_eq!(text(enroll_refused(500, br#"{"error":5}"#)), "Enrollment failed (500 Internal Server Error)");
    assert_eq!(text(enroll_refused(799, b"")), "Enrollment failed (799 <unknown status code>)");
    assert_eq!(text(enroll_refused_with("418 X", &None)), "Enrollment failed (418 X)");
}

#[test]
fn only_the_two_hundreds_are_success() {
    assert!(is_success(200));
    assert!(is_success(299));
    assert!(!is_success(199));
    assert!(!is_success(300));
}

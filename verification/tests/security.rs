use aes_gcm::KeyInit;
use aes_gcm::aead::Aead;
use cultnet::{
    CultNetClientSecurityOptions, CultNetSecret, CultNetServerSecurityOptions,
    ValidatedCultNetSessionToken,
};

fn hexadecimal(bytes: &[u8]) -> String {
    bytes.iter().map(|byte| format!("{byte:02x}")).collect()
}

#[test]
fn development_keys_are_the_digests_of_the_shared_texts() {
    let options = CultNetServerSecurityOptions::development();
    assert_eq!(
        hexadecimal(&options.encryption_key()),
        "03c0e8891ad513930df4bfce0c1a10a51608f49a8cfae6a31633d4117bf5e14a"
    );
    assert_eq!(
        hexadecimal(&options.session_signing_key()),
        "6cf653bb5bc36dc2e60c81afcf395ced6ff4608ffecd087d194190fb6b54f987"
    );
    assert_eq!(
        options.to_client_options(),
        CultNetClientSecurityOptions::development()
    );
}

#[test]
fn blank_texts_make_no_keys() {
    assert_eq!(
        CultNetClientSecurityOptions::new(" \t").err().unwrap().message(),
        "Connection key must be provided"
    );
    assert_eq!(
        CultNetServerSecurityOptions::new("", "signing", false).err().unwrap().message(),
        "Connection key must be provided"
    );
    assert_eq!(
        CultNetServerSecurityOptions::new("", "\u{3000}", false).err().unwrap().message(),
        "Session signing secret must be provided"
    );
    assert!(CultNetServerSecurityOptions::new("connection", "signing", false).is_ok());
}

#[test]
fn development_options_are_made_of_the_development_texts() {
    let (key, secret) = ("gamecult-dev-connection-key", "gamecult-dev-session-signing-secret");
    assert_eq!(
        CultNetServerSecurityOptions::new(key, secret, true),
        Ok(CultNetServerSecurityOptions::development())
    );
    assert_ne!(
        CultNetServerSecurityOptions::new(key, secret, false),
        Ok(CultNetServerSecurityOptions::development())
    );
}

#[test]
fn encryption_is_that_of_the_cipher_under_the_derived_key() {
    let options = CultNetClientSecurityOptions::new("some shared text").unwrap();
    let nonce: [u8; 12] = [1, 2, 3, 4, 5, 6, 7, 8, 9, 10, 11, 12];
    let sealed = CultNetSecret::encrypt_bytes(b"payload", &nonce, &options).unwrap();
    assert_eq!(sealed.len(), b"payload".len() + 16);
    let cipher = aes_gcm::Aes256Gcm::new_from_slice(&options.encryption_key()).unwrap();
    assert_eq!(
        sealed,
        cipher
            .encrypt(aes_gcm::Nonce::from_slice(&nonce), &b"payload"[..])
            .unwrap()
    );
    assert_eq!(
        CultNetSecret::decrypt_bytes(&sealed, &nonce, &options).unwrap(),
        b"payload".to_vec()
    );
}

#[test]
fn nothing_is_encrypted_of_nothing() {
    let options = CultNetClientSecurityOptions::development();
    let nonce = [0u8; 12];
    assert_eq!(CultNetSecret::encrypt_string(None, &nonce, &options), Ok(None));
    assert_eq!(CultNetSecret::encrypt_string(Some(""), &nonce, &options), Ok(None));
    // The nonce of an absent text is not looked at.
    assert_eq!(CultNetSecret::encrypt_string(Some(""), &[], &options), Ok(None));
    assert_eq!(
        CultNetSecret::decrypt_string(None, Some(&nonce), &options),
        Ok(None)
    );
    assert_eq!(
        CultNetSecret::decrypt_string(Some(&[1, 2, 3]), None, &options),
        Ok(None)
    );
}

#[test]
fn nonces_of_another_length_and_altered_bytes_are_refused() {
    let options = CultNetClientSecurityOptions::development();
    let nonce = [9u8; 12];
    assert_eq!(
        CultNetSecret::encrypt_bytes(b"payload", &nonce[..11], &options)
            .err()
            .unwrap()
            .message(),
        "Invalid nonce"
    );
    let mut sealed = CultNetSecret::encrypt_bytes(b"payload", &nonce, &options).unwrap();
    sealed[0] ^= 1;
    assert_eq!(
        CultNetSecret::decrypt_bytes(&sealed, &nonce, &options)
            .err()
            .unwrap()
            .message(),
        "AES-GCM decryption failed"
    );
    let not_text = CultNetSecret::encrypt_bytes(&[0xff], &nonce, &options).unwrap();
    assert!(CultNetSecret::decrypt_string(Some(&not_text), Some(&nonce), &options).is_err());
}

#[test]
fn a_session_token_is_exact() {
    let options = CultNetServerSecurityOptions::development();
    let token = CultNetSecret::create_session_token("runtime-face", 4102444800, &options).unwrap();
    assert_eq!(
        token,
        "cnVudGltZS1mYWNlfDQxMDI0NDQ4MDA.Wuf1zhGUFFSW0NgBLCzQB_pZE05LiuOksk-47aXAiwc"
    );
    let session = Some(ValidatedCultNetSessionToken {
        user_id: "runtime-face".to_string(),
        expires_at_utc: 4102444800,
    });
    let at = |now: i64| CultNetSecret::validate_session_token_at(Some(&token), &options, now);
    assert_eq!(at(4102444799), Ok(session.clone()));
    assert_eq!(at(4102444800), Ok(None));
    assert_eq!(at(i64::MAX), Ok(None));
    assert_eq!(
        CultNetSecret::try_validate_session_token(Some(&token), &options),
        Ok(session)
    );
}

#[test]
fn tokens_that_vouch_for_nothing() {
    let options = CultNetServerSecurityOptions::development();
    let at_zero = |token: Option<&str>| {
        CultNetSecret::validate_session_token_at(token, &options, 0)
    };
    assert_eq!(at_zero(None), Ok(None));
    assert_eq!(at_zero(Some("  ")), Ok(None));
    assert_eq!(at_zero(Some("no-dot")), Ok(None));
    // The code of another secret.
    let other = CultNetServerSecurityOptions::new("connection", "another secret", false).unwrap();
    let token = CultNetSecret::create_session_token("user", 4102444800, &other).unwrap();
    assert_eq!(at_zero(Some(&token)), Ok(None));
    // A genuine payload without a separator.
    assert_eq!(
        at_zero(Some("bm8tc2VwYXJhdG9y.HmjTRS_5amA5SqQCqWvwQPAI2HEgS3bmC4RiFREaqyk")),
        Ok(None)
    );
}

#[test]
fn tokens_that_cannot_be_read() {
    let options = CultNetServerSecurityOptions::development();
    let reason = |token: &str| {
        CultNetSecret::validate_session_token_at(Some(token), &options, 0)
            .err()
            .unwrap()
            .message()
            .to_string()
    };
    assert_eq!(reason("*.AAAA"), "session token payload is not base64url");
    assert_eq!(reason("AAAA.*"), "session token signature is not base64url");
    assert_eq!(
        reason("_3w0MTAyNDQ0ODAw.p-vW0o8rntRdZBtclx2p1yE42_objFx5R8KaKYYPCTc"),
        "session token payload is not UTF-8"
    );
    assert_eq!(
        reason("dXNlcnxzb29u.s_FcLh49bkwgbYNWN_ouhAoss8iM0QQddRsK8PBjGrk"),
        "session token expiry is not an integer"
    );
}

#[test]
fn expiries_are_instants_that_a_calendar_holds() {
    let options = CultNetServerSecurityOptions::development();
    let held = |expiry: i64| {
        let token = CultNetSecret::create_session_token("user", expiry, &options).unwrap();
        CultNetSecret::validate_session_token_at(Some(&token), &options, i64::MIN)
            .unwrap()
            .is_some()
    };
    assert!(held(8210266876799));
    assert!(!held(8210266876800));
    assert!(held(-8334601228800));
    assert!(!held(-8334601228801));
    assert!(!held(i64::MAX));
}

#[test]
fn a_separator_in_the_user_id_ends_it() {
    let options = CultNetServerSecurityOptions::development();
    let token = CultNetSecret::create_session_token("a|b", 4102444800, &options).unwrap();
    // What follows the first separator is "b|4102444800", which is no integer.
    assert!(CultNetSecret::validate_session_token_at(Some(&token), &options, 0).is_err());
}

#[test]
fn base64url_is_exact_in_both_directions() {
    for (bytes, text) in [
        (&b""[..], ""),
        (&b"f"[..], "Zg"),
        (&b"fo"[..], "Zm8"),
        (&b"foo"[..], "Zm9v"),
        (&b"foob"[..], "Zm9vYg"),
        (&[0xfb, 0xff][..], "-_8"),
        (&[0xff, 0xff, 0xff][..], "____"),
    ] {
        assert_eq!(CultNetSecret::to_base64_url(bytes), text);
        assert_eq!(CultNetSecret::from_base64_url(text), Ok(bytes.to_vec()));
    }
    for refused in ["Z", "Zg==", "Zh", "Zm9v\n", "+/8", "Zm9="] {
        assert_eq!(
            CultNetSecret::from_base64_url(refused).err().unwrap().message(),
            "text is not base64url"
        );
    }
}

#[test]
fn nonces_have_twelve_bytes_and_differ() {
    let (first, second) = (CultNetSecret::new_nonce(), CultNetSecret::new_nonce());
    assert_eq!(first.len(), 12);
    assert_ne!(first, second);
}

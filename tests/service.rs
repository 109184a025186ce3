use chaum_pedersen::{AuthError, AuthService, Natural, Prover, ZKPSystem};

fn n(v: u64) -> Natural {
    Natural::from_u64(v)
}

fn toy_system() -> ZKPSystem {
    ZKPSystem::new(n(23), n(11), n(4), n(2))
}

fn registered(secret: u64) -> AuthService {
    let mut service = AuthService::new(toy_system());
    let system = toy_system();
    let prover = Prover::new(&system, n(secret));
    let (y1, y2) = prover.public_values();
    service.register("alice".to_string(), y1.duplicate(), y2.duplicate());
    service
}

#[test]
fn login_succeeds_with_the_registered_secret() {
    let mut service = registered(6);
    let system = toy_system();
    let prover = Prover::new(&system, n(6));
    for _ in 0..10 {
        let ((r1, r2), k) = prover.generate_commitments();
        let (auth_id, c) = service
            .create_authentication_challenge("alice".to_string(), r1, r2)
            .unwrap();
        assert_eq!(auth_id.len(), 16);
        assert!(auth_id.chars().all(|ch| ch.is_ascii_alphanumeric()));
        assert!(c.at_least(&Natural::zero()) && !c.at_least(&n(11)));
        let s = prover.generate_response(&c, &k);
        let token = service.verify_authentication(&auth_id, &s).unwrap();
        assert_eq!(token.len(), 32);
        assert!(token.chars().all(|ch| ch.is_ascii_alphanumeric()));
    }
}

#[test]
fn unknown_identity_cannot_begin() {
    let mut service = registered(6);
    let r = service.create_authentication_challenge("bob".to_string(), n(8), n(13));
    assert_eq!(r.err(), Some(AuthError::UnknownIdentity));
    let r = service.open_session("bob".to_string(), n(8), n(13), n(3), "sess".to_string());
    assert_eq!(r, Err(AuthError::UnknownIdentity));
    assert_eq!(
        service.verify_authentication("sess", &n(0)),
        Err(AuthError::UnknownOrConsumedSession)
    );
}

#[test]
fn session_completes_exactly_once() {
    let mut service = registered(6);
    // r1 = 4^7 mod 23, r2 = 2^7 mod 23, c = 3, s = (7 - 18) mod 11 = 0
    service
        .open_session("alice".to_string(), n(8), n(13), n(3), "once".to_string())
        .unwrap();
    assert!(service.verify_authentication("once", &n(0)).is_ok());
    assert_eq!(
        service.verify_authentication("once", &n(0)),
        Err(AuthError::UnknownOrConsumedSession)
    );
}

#[test]
fn failed_session_is_consumed_too() {
    let mut service = registered(6);
    service
        .open_session("alice".to_string(), n(8), n(13), n(3), "bad".to_string())
        .unwrap();
    assert_eq!(
        service.verify_authentication("bad", &n(1)),
        Err(AuthError::VerificationFailed)
    );
    assert_eq!(
        service.verify_authentication("bad", &n(0)),
        Err(AuthError::UnknownOrConsumedSession)
    );
}

#[test]
fn never_issued_session_is_unknown() {
    let mut service = registered(6);
    assert_eq!(
        service.verify_authentication("nothing", &n(0)),
        Err(AuthError::UnknownOrConsumedSession)
    );
}

#[test]
fn later_registration_wins() {
    let mut service = registered(6);
    let system = toy_system();
    let newer = Prover::new(&system, n(5));
    let (y1, y2) = newer.public_values();
    service.register("alice".to_string(), y1.duplicate(), y2.duplicate());
    // the old secret no longer passes: s = (7 - 3*6) mod 11 = 0
    service
        .open_session("alice".to_string(), n(8), n(13), n(3), "old".to_string())
        .unwrap();
    assert_eq!(
        service.verify_authentication("old", &n(0)),
        Err(AuthError::VerificationFailed)
    );
    // the new secret does: s = (7 - 3*5) mod 11 = 3
    service
        .open_session("alice".to_string(), n(8), n(13), n(3), "new".to_string())
        .unwrap();
    assert!(service.verify_authentication("new", &n(3)).is_ok());
}

#[test]
fn swapped_registration_fails() {
    let mut service = AuthService::new(toy_system());
    // y1 = 4^6 mod 23 = 2, y2 = 2^6 mod 23 = 18, registered the wrong way round
    service.register("alice".to_string(), n(18), n(2));
    service
        .open_session("alice".to_string(), n(8), n(13), n(3), "swap".to_string())
        .unwrap();
    assert_eq!(
        service.verify_authentication("swap", &n(0)),
        Err(AuthError::VerificationFailed)
    );
}

use zk_cp_protocol::arith::sub_mul_mod;
use zk_cp_protocol::auth::{
    AuthId, Challenge, ChallengeStarted, ChallengeStore, ChallengeTransition, ChallengeVerification,
    ChallengeVerificationResult, FileParams, MemStorage, Register, VerifierApplication,
};
use zk_cp_protocol::codec::MaterialSerde;
use zk_cp_protocol::error::ProtocolError;
use zk_cp_protocol::material::{generate_material, Material, User};

fn mod_pow(base: u64, exp: u64, modulus: u64) -> u64 {
    let m = modulus as u128;
    let mut result: u128 = 1 % m;
    let b = base as u128 % m;
    for _ in 0..exp {
        result = result * b % m;
    }
    result as u64
}

fn small_group() -> Material {
    Material { g: 4, h: 9, q: 11, p: 23 }
}

fn params_for(user: &str, material: Material) -> FileParams {
    let mut params = FileParams::new();
    params.insert(User::from(user), material);
    params
}

fn common_params(material: Material) -> (Register, ChallengeStarted, ChallengeStore, u64) {
    let x = 3;
    let register = Register {
        user: User::from("test_user"),
        y1: mod_pow(material.g, x, material.p),
        y2: mod_pow(material.h, x, material.p),
    };
    let k = 5 % (material.q - 2) + 2;
    let challenge = Challenge {
        user: User::from("test_user"),
        r1: mod_pow(material.g, k, material.p),
        r2: mod_pow(material.h, k, material.p),
    };
    let challenge_started = ChallengeTransition::from(challenge.clone()).change(&material).into_inner();
    assert_ne!(challenge_started.auth_id.as_str(), "");
    assert!(challenge_started.c >= 2 && challenge_started.c < material.q);
    let s = sub_mul_mod(k, challenge_started.c, x, material.q);
    let store = ChallengeStore { challenge, challenge_started: challenge_started.clone() };
    (register, challenge_started, store, s)
}

#[test]
fn verifier_test_challenge_transition_change() {
    let material = generate_material(None, None).unwrap();
    let (register, challenge_started, challenge_store, s) = common_params(material);
    let challenge_verification = ChallengeVerification { auth_id: challenge_started.auth_id, s };
    let transition = ChallengeTransition::from(challenge_verification)
        .change(&register, &challenge_store, &material, s)
        .into_inner();
    match transition {
        ChallengeVerificationResult::ChallengeVerified(session_id) => {
            assert_ne!(session_id.0, "");
        }
        ChallengeVerificationResult::ChallengeVerificationFailed => {
            unreachable!("Challenge verification failed unexpectedly");
        }
    }
}

#[test]
fn test_challenge_transition_change_failed() {
    let material = generate_material(None, None).unwrap();
    let (register, challenge_started, challenge_store, s) = common_params(material);
    let challenge_verification = ChallengeVerification { auth_id: challenge_started.auth_id, s };
    let transition = ChallengeTransition::from(challenge_verification)
        .change(&register, &challenge_store, &material, s + 1)
        .into_inner();
    match transition {
        ChallengeVerificationResult::ChallengeVerified(_) => {
            unreachable!("Challenge verification succeeded unexpectedly");
        }
        ChallengeVerificationResult::ChallengeVerificationFailed => {}
    }
}

#[test]
fn test_register() {
    let mut app = VerifierApplication::new(params_for("test", small_group()), MemStorage::new());
    let register = Register { user: "test".into(), y1: 11, y2: 13 };
    assert!(app.register(register).is_ok());
}

#[test]
fn test_register_error() {
    let mut app = VerifierApplication::new(FileParams::new(), MemStorage::new());
    let register = Register { user: "test".into(), y1: 11, y2: 13 };
    assert!(app.register(register.clone()).is_err());
    assert_eq!(app.register(register), Err(ProtocolError::MaterialNotFound));
    assert_eq!(app.get_registration(&User::from("test")), None);
}

#[test]
fn test_create_challenge() {
    let mut app = VerifierApplication::new(params_for("test", small_group()), MemStorage::new());
    let challenge = Challenge { user: "test".into(), r1: 11, r2: 13 };
    assert!(app.create_challenge(challenge).is_ok());
}

#[test]
fn test_create_challenge_error() {
    let mut app = VerifierApplication::new(FileParams::new(), MemStorage::new());
    let challenge = Challenge { user: "test".into(), r1: 11, r2: 13 };
    assert!(app.create_challenge(challenge.clone()).is_err());
    assert_eq!(app.create_challenge(challenge), Err(ProtocolError::MaterialNotFound));
}

#[test]
fn create_challenge_rejects_tiny_orders() {
    let material = Material { g: 1, h: 1, q: 2, p: 5 };
    let mut app = VerifierApplication::new(params_for("test", material), MemStorage::new());
    let challenge = Challenge { user: "test".into(), r1: 1, r2: 1 };
    assert_eq!(app.create_challenge(challenge), Err(ProtocolError::InvalidParameters));
}

#[test]
fn test_verify_challenge() {
    let material = Material { p: 1, q: 1, g: 1, h: 1 };
    let mut storage = MemStorage::new();
    storage.store_challenge(
        &AuthId::from("test"),
        ChallengeStore {
            challenge: Challenge { r1: 1, r2: 1, user: "test".into() },
            challenge_started: ChallengeStarted { auth_id: "test".into(), c: 1 },
        },
    );
    storage.store_user(Register { y1: 1, y2: 1, user: "test".into() });
    let mut app = VerifierApplication::new(params_for("test", material), storage);
    let answer = ChallengeVerification { auth_id: "test".into(), s: 1 };
    assert!(app.verify_challenge(answer).is_ok());
}

#[test]
fn test_verify_challenge_error() {
    let material = generate_material(None, None).unwrap();
    let mut storage = MemStorage::new();
    storage.store_challenge(
        &AuthId::from("test"),
        ChallengeStore {
            challenge: Challenge { r1: 18, r2: 16, user: "test".into() },
            challenge_started: ChallengeStarted { auth_id: "test".into(), c: 87 },
        },
    );
    storage.store_user(Register { y1: 22, y2: 54, user: "test".into() });
    let mut app = VerifierApplication::new(params_for("test", material), storage);
    let answer = ChallengeVerification { auth_id: "test".into(), s: 11 };
    let result = app.verify_challenge(answer).unwrap();
    assert_eq!(result, ChallengeVerificationResult::ChallengeVerificationFailed);
}

fn full_round(app: &mut VerifierApplication, material: Material, user: &str, x: u64, tamper: u64) -> (AuthId, Result<ChallengeVerificationResult, ProtocolError>) {
    let k = 7 % (material.q - 3) + 2;
    let challenge = Challenge {
        user: User::from(user),
        r1: mod_pow(material.g, k, material.p),
        r2: mod_pow(material.h, k, material.p),
    };
    let started = app.create_challenge(challenge).unwrap();
    assert!(started.c >= 2 && started.c < material.q);
    assert_eq!(started.auth_id.as_str().len(), 36);
    let s = (sub_mul_mod(k, started.c, x, material.q) + tamper) % material.q;
    let answer = ChallengeVerification { auth_id: started.auth_id.clone(), s };
    (started.auth_id, app.verify_challenge(answer))
}

#[test]
fn registered_user_authenticates() {
    let material = small_group();
    let mut app = VerifierApplication::new(params_for("alice", material), MemStorage::new());
    let x = 3;
    let register = Register { user: "alice".into(), y1: mod_pow(4, x, 23), y2: mod_pow(9, x, 23) };
    app.register(register).unwrap();
    let (_, result) = full_round(&mut app, material, "alice", x, 0);
    match result.unwrap() {
        ChallengeVerificationResult::ChallengeVerified(id) => assert_eq!(id.0.len(), 36),
        other => panic!("unexpected outcome {:?}", other),
    }
    let (_, result) = full_round(&mut app, material, "alice", x, 1);
    assert_eq!(result, Ok(ChallengeVerificationResult::ChallengeVerificationFailed));
    // a different secret fails
    let (_, result) = full_round(&mut app, material, "alice", 4, 0);
    assert_eq!(result, Ok(ChallengeVerificationResult::ChallengeVerificationFailed));
}

#[test]
fn challenge_is_single_use() {
    let material = small_group();
    let mut app = VerifierApplication::new(params_for("alice", material), MemStorage::new());
    app.register(Register { user: "alice".into(), y1: mod_pow(4, 3, 23), y2: mod_pow(9, 3, 23) }).unwrap();
    let (auth_id, result) = full_round(&mut app, material, "alice", 3, 0);
    assert!(matches!(result, Ok(ChallengeVerificationResult::ChallengeVerified(_))));
    let again = app.verify_challenge(ChallengeVerification { auth_id, s: 0 });
    assert_eq!(again, Err(ProtocolError::ChallengeNotFound));
}

#[test]
fn failed_attempt_also_consumes_the_round() {
    let material = small_group();
    let mut app = VerifierApplication::new(params_for("alice", material), MemStorage::new());
    app.register(Register { user: "alice".into(), y1: mod_pow(4, 3, 23), y2: mod_pow(9, 3, 23) }).unwrap();
    let (auth_id, result) = full_round(&mut app, material, "alice", 3, 1);
    assert_eq!(result, Ok(ChallengeVerificationResult::ChallengeVerificationFailed));
    let again = app.verify_challenge(ChallengeVerification { auth_id, s: 0 });
    assert_eq!(again, Err(ProtocolError::ChallengeNotFound));
}

#[test]
fn verify_reports_missing_state() {
    let material = small_group();
    let mut app = VerifierApplication::new(params_for("alice", material), MemStorage::new());
    let unknown = ChallengeVerification { auth_id: AuthId::from("nope"), s: 1 };
    assert_eq!(app.verify_challenge(unknown), Err(ProtocolError::ChallengeNotFound));
    // a round for a user that never registered
    let (_, result) = full_round(&mut app, material, "alice", 3, 0);
    assert_eq!(result, Err(ProtocolError::UserNotFound));

    let mut storage = MemStorage::new();
    storage.store_challenge(
        &AuthId::from("round"),
        ChallengeStore {
            challenge: Challenge { r1: 1, r2: 1, user: "bob".into() },
            challenge_started: ChallengeStarted { auth_id: "round".into(), c: 2 },
        },
    );
    let mut app = VerifierApplication::new(params_for("alice", material), storage);
    let answer = ChallengeVerification { auth_id: "round".into(), s: 1 };
    assert_eq!(app.verify_challenge(answer), Err(ProtocolError::MaterialNotFound));

    let mut storage = MemStorage::new();
    storage.store_challenge(
        &AuthId::from("round"),
        ChallengeStore {
            challenge: Challenge { r1: 1, r2: 1, user: "carol".into() },
            challenge_started: ChallengeStarted { auth_id: "round".into(), c: 2 },
        },
    );
    storage.store_challenge(
        &AuthId::from("second"),
        ChallengeStore {
            challenge: Challenge { r1: 1, r2: 1, user: "carol".into() },
            challenge_started: ChallengeStarted { auth_id: "second".into(), c: 2 },
        },
    );
    let zero = Material { g: 1, h: 1, q: 1, p: 0 };
    let mut app = VerifierApplication::new(params_for("carol", zero), storage);
    // without a registration the missing user is reported first
    let answer = ChallengeVerification { auth_id: "round".into(), s: 1 };
    assert_eq!(app.verify_challenge(answer), Err(ProtocolError::UserNotFound));
    app.register(Register { user: "carol".into(), y1: 1, y2: 1 }).unwrap();
    let answer = ChallengeVerification { auth_id: "second".into(), s: 1 };
    assert_eq!(app.verify_challenge(answer), Err(ProtocolError::InvalidParameters));
}

#[test]
fn re_registration_keeps_the_last_values() {
    let mut app = VerifierApplication::new(params_for("test", small_group()), MemStorage::new());
    app.register(Register { user: "test".into(), y1: 11, y2: 13 }).unwrap();
    app.register(Register { user: "test".into(), y1: 5, y2: 7 }).unwrap();
    let stored = app.get_registration(&User::from("test")).unwrap();
    assert_eq!(stored, Register { user: "test".into(), y1: 5, y2: 7 });
}

#[test]
fn storage_keeps_values_by_key() {
    let mut storage = MemStorage::new();
    assert_eq!(storage.get_user(&User::from("a")), None);
    storage.store_user(Register { user: "a".into(), y1: 1, y2: 2 });
    storage.store_user(Register { user: "b".into(), y1: 3, y2: 4 });
    assert_eq!(storage.get_user(&User::from("a")), Some(Register { user: "a".into(), y1: 1, y2: 2 }));
    let record = ChallengeStore {
        challenge: Challenge { r1: 1, r2: 2, user: "a".into() },
        challenge_started: ChallengeStarted { auth_id: "id".into(), c: 3 },
    };
    storage.store_challenge(&AuthId::from("id"), record.clone());
    assert_eq!(storage.get_challenge(&AuthId::from("id")), Some(record.clone()));
    assert_eq!(storage.take_challenge(&AuthId::from("id")), Some(record));
    assert_eq!(storage.get_challenge(&AuthId::from("id")), None);
    assert_eq!(storage.take_challenge(&AuthId::from("id")), None);
}

#[test]
fn params_from_entries() {
    let entries = vec![
        MaterialSerde::from_material(&small_group(), "alice"),
        MaterialSerde {
            user: "bob".to_string(),
            g: "+2".to_string(),
            h: "1_0".to_string(),
            q: "B".to_string(),
            p: "17".to_string(),
        },
    ];
    let params = FileParams::from_entries(&entries).unwrap();
    assert_eq!(params.query(&User::from("alice")), Some(small_group()));
    assert_eq!(params.query(&User::from("bob")), Some(Material { g: 2, h: 16, q: 11, p: 23 }));
    assert_eq!(params.query(&User::from("carol")), None);

    let bad = vec![MaterialSerde {
        user: "bob".to_string(),
        g: "xyz".to_string(),
        h: "1".to_string(),
        q: "1".to_string(),
        p: "1".to_string(),
    }];
    assert!(matches!(FileParams::from_entries(&bad), Err(ProtocolError::InvalidArgument)));
}

use passchain::errors::TaskError;
use passchain::kdf::{Cost, MAX_LANES, STANDARD_ITERATIONS, STANDARD_LANES, STANDARD_MEMORY_KIB};

fn direct(m: u32, t: u32, p: u32, password: &[u8], salt: &[u8]) -> [u8; 128] {
    let params = argon2::Params::new(m, t, p, Some(128)).unwrap();
    let hasher = argon2::Argon2::new(argon2::Algorithm::Argon2id, argon2::Version::V0x13, params);
    let mut out = [0u8; 128];
    hasher.hash_password_into(password, salt, &mut out).unwrap();
    out
}

#[test]
fn standard_cost_is_fixed() {
    let cost = Cost::standard();
    assert_eq!(cost.memory_kib(), 1_000_000);
    assert_eq!(cost.iterations(), 15);
    assert_eq!(cost.lanes(), 1);
    assert_eq!(STANDARD_MEMORY_KIB, 1_000_000);
    assert_eq!(STANDARD_ITERATIONS, 15);
    assert_eq!(STANDARD_LANES, 1);
}

#[test]
fn cost_keeps_what_it_was_made_with() {
    let cost = Cost::new(64, 3, 2).unwrap();
    assert_eq!(cost.memory_kib(), 64);
    assert_eq!(cost.iterations(), 3);
    assert_eq!(cost.lanes(), 2);
}

#[test]
fn cost_refuses_too_many_lanes() {
    assert!(Cost::new(64, 1, MAX_LANES).is_some());
    assert!(Cost::new(64, 1, MAX_LANES + 1).is_none());
    assert!(Cost::new(64, 1, u32::MAX).is_none());
}

#[test]
fn hash_is_argon2id_at_the_cost() {
    let cost = Cost::new(32, 2, 1).unwrap();
    let out = cost.hash(b"password", b"somesalt").unwrap();
    assert_eq!(out, direct(32, 2, 1, b"password", b"somesalt"));
    assert_ne!(out, direct(32, 3, 1, b"password", b"somesalt"));
    assert_ne!(out, direct(40, 2, 1, b"password", b"somesalt"));
    let two = Cost::new(32, 2, 2).unwrap();
    assert_eq!(two.hash(b"password", b"somesalt").unwrap(), direct(32, 2, 2, b"password", b"somesalt"));
    assert_ne!(two.hash(b"password", b"somesalt").unwrap(), out);
}

#[test]
fn hash_reproduces_the_reference_output() {
    let cost = Cost::new(32, 2, 1).unwrap();
    let out = cost.hash(b"password", b"somesalt").unwrap();
    assert_eq!(
        hex::encode(out),
        "6237de4ec5b5b98477c6f3f651fb8bb568091a89dccb92bf18f8fd157c14dadd\
         1fb11041533ec2a2c0a5fef58896232eaf61ebdd159eef93ebfaaee055a1565e\
         83b48a4bc2ac81684559e91572a4afc354f80a1046f8e12aefd76b879a2a31bf\
         80eb09623bac3dc42d0a4d7202a6def3cf99dd154abdd11096532810eefaeb6f"
    );
}

#[test]
fn hash_depends_on_password_and_salt() {
    let cost = Cost::new(8, 1, 1).unwrap();
    let a = cost.hash(b"password", b"somesalt").unwrap();
    assert_eq!(a, cost.hash(b"password", b"somesalt").unwrap());
    assert_ne!(a, cost.hash(b"passwore", b"somesalt").unwrap());
    assert_ne!(a, cost.hash(b"password", b"somesalu").unwrap());
    assert_ne!(a, cost.hash(b"somesalt", b"password").unwrap());
}

#[test]
fn hash_takes_an_empty_password() {
    let cost = Cost::new(8, 1, 1).unwrap();
    assert_eq!(cost.hash(b"", b"somesalt").unwrap(), direct(8, 1, 1, b"", b"somesalt"));
}

#[test]
fn hash_refuses_a_short_salt() {
    let cost = Cost::new(8, 1, 1).unwrap();
    assert_eq!(
        cost.hash(b"password", b"short").err(),
        Some(TaskError::HasherError(argon2::Error::SaltTooShort))
    );
    assert!(cost.hash(b"password", b"1234567").is_err());
    assert!(cost.hash(b"password", b"12345678").is_ok());
}

#[test]
fn hash_refuses_a_cost_the_algorithm_does_not_take() {
    let no_passes = Cost::new(8, 0, 1).unwrap();
    assert_eq!(
        no_passes.hash(b"password", b"somesalt").err(),
        Some(TaskError::HasherError(argon2::Error::TimeTooSmall))
    );
    let no_lanes = Cost::new(8, 1, 0).unwrap();
    assert!(matches!(no_lanes.hash(b"password", b"somesalt"), Err(TaskError::HasherError(_))));
    let little_memory = Cost::new(7, 1, 1).unwrap();
    assert_eq!(
        little_memory.hash(b"password", b"somesalt").err(),
        Some(TaskError::HasherError(argon2::Error::MemoryTooLittle))
    );
    let memory_under_lanes = Cost::new(15, 1, 2).unwrap();
    assert!(matches!(
        memory_under_lanes.hash(b"password", b"somesalt"),
        Err(TaskError::HasherError(_))
    ));
    assert!(Cost::new(16, 1, 2).unwrap().hash(b"password", b"somesalt").is_ok());
}

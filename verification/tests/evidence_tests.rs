use hmac::{Hmac, Mac};
use physjitter::{
    EntropySource, Error, Evidence, HmacSha256, Jitter, JitterEngine, PhysHash, Sha256Hasher,
};
use sha2::{Digest, Sha256};

/// A deterministic engine that derives jitter from HMAC of the inputs alone.
struct PureJitter {
    jmin: u32,
    range: u32,
}

impl Default for PureJitter {
    fn default() -> Self {
        PureJitter { jmin: 500, range: 2500 }
    }
}

impl JitterEngine for PureJitter {
    fn derived_jitter(&self, secret: &[u8; 32], inputs: &[u8], entropy: PhysHash) -> Jitter {
        self.compute_jitter(secret, inputs, entropy)
    }

    fn compute_jitter(&self, secret: &[u8; 32], inputs: &[u8], _entropy: PhysHash) -> Jitter {
        let mut mac = Hmac::<Sha256>::new_from_slice(secret).unwrap();
        mac.update(inputs);
        let code = mac.finalize().into_bytes();
        let value = u32::from_le_bytes([code[0], code[1], code[2], code[3]]);
        self.jmin + value % self.range
    }
}

/// A deterministic engine that also mixes the entropy hash in.
struct PhysJitter {
    min_entropy_bits: u8,
}

impl PhysJitter {
    fn new(min_entropy_bits: u8) -> Self {
        PhysJitter { min_entropy_bits }
    }
}

impl JitterEngine for PhysJitter {
    fn derived_jitter(&self, secret: &[u8; 32], inputs: &[u8], entropy: PhysHash) -> Jitter {
        self.compute_jitter(secret, inputs, entropy)
    }

    fn compute_jitter(&self, secret: &[u8; 32], inputs: &[u8], entropy: PhysHash) -> Jitter {
        let mut mac = Hmac::<Sha256>::new_from_slice(secret).unwrap();
        mac.update(inputs);
        mac.update(&entropy.hash);
        let code = mac.finalize().into_bytes();
        let value = u32::from_le_bytes([code[0], code[1], code[2], code[3]]);
        500 + value % 2500
    }
}

impl EntropySource for PhysJitter {
    fn sample(&self, inputs: &[u8]) -> Result<PhysHash, Error> {
        let found = inputs.len().min(255) as u8;
        if found < self.min_entropy_bits {
            return Err(Error::InsufficientEntropy { required: self.min_entropy_bits, found });
        }
        let digest: [u8; 32] = Sha256::digest(inputs).into();
        Ok(PhysHash { hash: digest, entropy_bits: found })
    }

    fn validate(&self, hash: PhysHash) -> bool {
        hash.entropy_bits >= self.min_entropy_bits
    }
}

/// An engine that gives the same jitter whatever it is handed.
struct ConstantEngine;

impl JitterEngine for ConstantEngine {
    fn derived_jitter(&self, _secret: &[u8; 32], _inputs: &[u8], _entropy: PhysHash) -> Jitter {
        1000
    }

    fn compute_jitter(&self, _secret: &[u8; 32], _inputs: &[u8], _entropy: PhysHash) -> Jitter {
        1000
    }
}

fn phys_sample() -> Evidence {
    Evidence::Phys {
        phys_hash: PhysHash { hash: [0xAB; 32], entropy_bits: 7 },
        jitter: 0x0102_0304,
        timestamp_us: 0x1122_3344_5566_7788,
    }
}

fn phys_sample_bytes() -> Vec<u8> {
    let mut bytes = vec![0x00u8];
    bytes.extend_from_slice(&[0xAB; 32]);
    bytes.push(7);
    bytes.extend_from_slice(&[0x04, 0x03, 0x02, 0x01]);
    bytes.extend_from_slice(&[0x88, 0x77, 0x66, 0x55, 0x44, 0x33, 0x22, 0x11]);
    bytes
}

fn pure_sample() -> Evidence {
    Evidence::Pure { jitter: 1000, timestamp_us: 12345 }
}

fn pure_sample_bytes() -> Vec<u8> {
    vec![0x01, 0xE8, 0x03, 0x00, 0x00, 0x39, 0x30, 0x00, 0x00, 0x00, 0x00, 0x00, 0x00]
}

#[test]
fn test_evidence_verification() {
    let engine = PureJitter::default();
    let secret = [42u8; 32];
    let inputs = b"test input";

    let jitter = engine.compute_jitter(&secret, inputs, [0u8; 32].into());
    let evidence = Evidence::pure(jitter);

    assert!(evidence.verify(&secret, inputs, &engine));
    assert!(!evidence.verify(&secret, b"wrong input", &engine));
}

#[test]
fn test_phys_evidence_verification() {
    let engine = PhysJitter::new(0);
    let secret = [42u8; 32];
    let inputs = b"test input";
    let phys_hash = [99u8; 32].into();

    let jitter = engine.compute_jitter(&secret, inputs, phys_hash);
    let evidence = Evidence::phys(phys_hash, jitter);

    assert!(evidence.verify(&secret, inputs, &engine));
    assert!(!evidence.verify(&secret, b"wrong input", &engine));
}

#[test]
fn test_evidence_equality() {
    // Test phys evidence with same hash and jitter
    let hash = [1u8; 32].into();
    let p1 = Evidence::Phys { phys_hash: hash, jitter: 1000, timestamp_us: 100 };
    let p2 = Evidence::Phys { phys_hash: hash, jitter: 1000, timestamp_us: 100 };
    let p3 = Evidence::Phys { phys_hash: hash, jitter: 2000, timestamp_us: 100 };
    assert_eq!(p1, p2);
    assert_ne!(p1, p3);

    // Test pure evidence equality
    let pure1 = Evidence::Pure { jitter: 1500, timestamp_us: 200 };
    let pure2 = Evidence::Pure { jitter: 1500, timestamp_us: 200 };
    assert_eq!(pure1, pure2);
}

#[test]
fn equality_compares_every_field() {
    let hash: PhysHash = [1u8; 32].into();
    let base = Evidence::Phys { phys_hash: hash, jitter: 1000, timestamp_us: 100 };
    let later = Evidence::Phys { phys_hash: hash, jitter: 1000, timestamp_us: 101 };
    let stronger = Evidence::Phys {
        phys_hash: PhysHash { hash: [1u8; 32], entropy_bits: 1 },
        jitter: 1000,
        timestamp_us: 100,
    };
    let mut other_bytes = [1u8; 32];
    other_bytes[31] = 2;
    let other_hash =
        Evidence::Phys { phys_hash: other_bytes.into(), jitter: 1000, timestamp_us: 100 };
    let pure = Evidence::Pure { jitter: 1000, timestamp_us: 100 };
    assert_ne!(base, later);
    assert_ne!(base, stronger);
    assert_ne!(base, other_hash);
    assert_ne!(base, pure);
    assert_ne!(pure, Evidence::Pure { jitter: 1000, timestamp_us: 101 });
    assert_eq!(base.clone(), base);
    assert_eq!(pure.clone(), pure);
}

#[test]
fn phys_hash_from_bytes_claims_no_entropy() {
    let hash: PhysHash = [9u8; 32].into();
    assert_eq!(hash.hash, [9u8; 32]);
    assert_eq!(hash.entropy_bits, 0);
    assert_eq!(hash, PhysHash { hash: [9u8; 32], entropy_bits: 0 });
    assert_ne!(hash, PhysHash { hash: [9u8; 32], entropy_bits: 1 });
}

#[test]
fn constructors_keep_their_arguments_and_stamp_the_time() {
    let hash: PhysHash = PhysHash { hash: [3u8; 32], entropy_bits: 12 };
    let phys = Evidence::phys(hash, 1500);
    assert!(phys.is_phys());
    assert_eq!(phys.jitter(), 1500);
    assert!(matches!(phys, Evidence::Phys { phys_hash, .. } if phys_hash == hash));
    // Microseconds since the epoch: well past the year 2001 on any working clock.
    assert!(phys.timestamp_us() > 1_000_000_000_000_000);

    let pure = Evidence::pure(2999);
    assert!(!pure.is_phys());
    assert_eq!(pure.jitter(), 2999);
    assert!(pure.timestamp_us() >= phys.timestamp_us());
}

#[test]
fn any_jitter_is_stored_as_given() {
    assert_eq!(Evidence::pure(0).jitter(), 0);
    assert_eq!(Evidence::pure(u32::MAX).jitter(), u32::MAX);
    assert_eq!(Evidence::phys([0u8; 32].into(), u32::MAX).jitter(), u32::MAX);
}

#[test]
fn accessors_read_both_variants() {
    let phys = phys_sample();
    assert!(phys.is_phys());
    assert_eq!(phys.jitter(), 0x0102_0304);
    assert_eq!(phys.timestamp_us(), 0x1122_3344_5566_7788);
    let pure = pure_sample();
    assert!(!pure.is_phys());
    assert_eq!(pure.jitter(), 1000);
    assert_eq!(pure.timestamp_us(), 12345);
}

#[test]
fn hash_into_feeds_the_canonical_bytes_of_a_phys_record() {
    let mut hasher = Sha256Hasher::new();
    phys_sample().hash_into(&mut hasher);
    let digest = hasher.finalize();
    let expected: [u8; 32] = Sha256::digest(phys_sample_bytes()).into();
    assert_eq!(phys_sample_bytes().len(), 46);
    assert_eq!(digest, expected);
}

#[test]
fn hash_into_feeds_the_canonical_bytes_of_a_pure_record() {
    let mut hasher = Sha256Hasher::new();
    pure_sample().hash_into(&mut hasher);
    let digest = hasher.finalize();
    let expected: [u8; 32] = Sha256::digest(pure_sample_bytes()).into();
    assert_eq!(digest, expected);
}

#[test]
fn hash_into_adds_to_what_the_hasher_already_holds() {
    let mut hasher = Sha256Hasher::new();
    hasher.update(b"prefix");
    pure_sample().hash_into(&mut hasher);
    phys_sample().hash_into(&mut hasher);
    let digest = hasher.finalize();

    let mut message = b"prefix".to_vec();
    message.extend_from_slice(&pure_sample_bytes());
    message.extend_from_slice(&phys_sample_bytes());
    let expected: [u8; 32] = Sha256::digest(&message).into();
    assert_eq!(digest, expected);
}

#[test]
fn hash_into_mac_feeds_the_canonical_bytes() {
    let key = [0x2Au8; 32];
    let mut mac = HmacSha256::new(&key);
    mac.update(b"prefix");
    phys_sample().hash_into_mac(&mut mac);
    pure_sample().hash_into_mac(&mut mac);
    let code = mac.finalize();

    let mut reference = Hmac::<Sha256>::new_from_slice(&key).unwrap();
    reference.update(b"prefix");
    reference.update(&phys_sample_bytes());
    reference.update(&pure_sample_bytes());
    let expected: [u8; 32] = reference.finalize().into_bytes().into();
    assert_eq!(code, expected);
}

#[test]
fn records_that_differ_in_one_field_hash_differently() {
    let digest_of = |evidence: &Evidence| {
        let mut hasher = Sha256Hasher::new();
        evidence.hash_into(&mut hasher);
        hasher.finalize()
    };
    let base = pure_sample();
    assert_ne!(digest_of(&base), digest_of(&Evidence::Pure { jitter: 1001, timestamp_us: 12345 }));
    assert_ne!(digest_of(&base), digest_of(&Evidence::Pure { jitter: 1000, timestamp_us: 12346 }));
    assert_ne!(
        digest_of(&base),
        digest_of(&Evidence::Phys { phys_hash: [0u8; 32].into(), jitter: 1000, timestamp_us: 12345 })
    );
    assert_eq!(digest_of(&base), digest_of(&base.clone()));
}

#[test]
fn matches_jitter_compares_with_the_stored_value() {
    let pure = pure_sample();
    assert!(pure.matches_jitter(1000));
    assert!(!pure.matches_jitter(1001));
    assert!(!pure.matches_jitter(1000 + 256));
    assert!(!pure.matches_jitter(1000 + (1 << 24)));
    let phys = phys_sample();
    assert!(phys.matches_jitter(0x0102_0304));
    assert!(!phys.matches_jitter(0x0102_0305));
    assert!(!phys.matches_jitter(0));
}

#[test]
fn verify_recomputes_a_pure_record_with_zero_entropy() {
    let engine = PhysJitter::new(0);
    let secret = [7u8; 32];
    let zero: PhysHash = [0u8; 32].into();
    let jitter = engine.compute_jitter(&secret, b"key-a", zero);
    let evidence = Evidence::Pure { jitter, timestamp_us: 1 };
    assert!(evidence.verify(&secret, b"key-a", &engine));

    // The same jitter under a record that carries another entropy value does
    // not verify: the engine is handed the recorded entropy.
    let bound = Evidence::Phys { phys_hash: [5u8; 32].into(), jitter, timestamp_us: 1 };
    assert_eq!(
        bound.verify(&secret, b"key-a", &engine),
        engine.compute_jitter(&secret, b"key-a", [5u8; 32].into()) == jitter
    );
    assert!(!bound.verify(&secret, b"key-a", &engine));
}

#[test]
fn verify_fails_under_another_secret() {
    let engine = PureJitter::default();
    let jitter = engine.compute_jitter(&[1u8; 32], b"input", [0u8; 32].into());
    let evidence = Evidence::Pure { jitter, timestamp_us: 9 };
    assert!(evidence.verify(&[1u8; 32], b"input", &engine));
    assert!(!evidence.verify(&[2u8; 32], b"input", &engine));
}

#[test]
fn verify_ignores_the_timestamp() {
    let engine = PureJitter::default();
    let secret = [1u8; 32];
    let jitter = engine.compute_jitter(&secret, b"input", [0u8; 32].into());
    assert!(Evidence::Pure { jitter, timestamp_us: 0 }.verify(&secret, b"input", &engine));
    assert!(Evidence::Pure { jitter, timestamp_us: u64::MAX }.verify(&secret, b"input", &engine));
}

#[test]
fn an_engine_that_ignores_its_input_accepts_a_wrong_input() {
    let engine = ConstantEngine;
    let secret = [1u8; 32];
    let evidence = Evidence::Pure { jitter: 1000, timestamp_us: 0 };
    assert!(evidence.verify(&secret, b"right", &engine));
    assert!(evidence.verify(&secret, b"wrong", &engine));
    assert!(!Evidence::Pure { jitter: 1001, timestamp_us: 0 }.verify(&secret, b"right", &engine));
}

#[test]
fn entropy_source_reports_insufficient_entropy() {
    let source = PhysJitter::new(8);
    assert_eq!(
        source.sample(b"abc"),
        Err(Error::InsufficientEntropy { required: 8, found: 3 })
    );
    let sample = source.sample(b"long enough input").unwrap();
    assert!(source.validate(sample));
    assert!(!source.validate([0u8; 32].into()));
    assert_ne!(
        Error::InsufficientEntropy { required: 8, found: 3 },
        Error::InsufficientEntropy { required: 8, found: 4 }
    );
}

use chaum_pedersen::{Natural, Prover, Verifier, ZKPSystem};
use num_bigint::BigUint;

const P_1024: &str = "B10B8F96A080E01DDE92DE5EAE5D54EC52C99FBCFB06A3C69A6A9DCA52D23B616073E28675A23D189838EF1E2EE652C013ECB4AEA906112324975C3CD49B83BFACCBDD7D90C4BD7098488E9C219A73724EFFD6FAE5644738FAA31A4FF55BCCC0A151AF5F0DC8B4BD45BF37DF365C1A65E68CFDA76D4DA708DF1FB2BC2E4A4371";
const Q_1024: &str = "F518AA8781A8DF278ABA4E7D64B7CB9D49462353";
const ALPHA_1024: &str = "A4D1CBD5C3FD34126765A442EFB99905F8104DD258AC507FD6406CFF14266D31266FEA1E5C41564B777E690F5504F213160217B4B01B886A5E91547F9E2749F4D7FBD7D3B9A92EE1909D0D2263F80A76A6A24C087A091F531DBF0A0169B6A28AD662A4D18E73AFA32D779D5918D08BC8858F4DCEF97C2A24855E6EEB22B3B2E5";
const BETA_1024: &str = "37EE56CD4F0CD201F058F231F2DCD2469087A82860149EE4F2EAF09E3ECC479EB1A919CDEE83837D5D4BE06F8F0F62620763D6917447EF542BE345B2388E452BDAA061C8E2082B8C44E713E31A7423D00577DCC957FB06EAACFE5830F8DF23DE57BFD28552633A3F64038C6EAE811CA35959EBD89948F5957B2BB64481684E00";

const P_2048: &str = "87A8E61DB4B6663CFFBBD19C651959998CEEF608660DD0F25D2CEED4435E3B00E00DF8F1D61957D4FAF7DF4561B2AA3016C3D91134096FAA3BF4296D830E9A7C209E0C6497517ABD5A8A9D306BCF67ED91F9E6725B4758C022E0B1EF4275BF7B6C5BFC11D45F9088B941F54EB1E59BB8BC39A0BF12307F5C4FDB70C581B23F76B63ACAE1CAA6B7902D52526735488A0EF13C6D9A51BFA4AB3AD8347796524D8EF6A167B5A41825D967E144E5140564251CCACB83E6B486F6B3CA3F7971506026C0B857F689962856DED4010ABD0BE621C3A3960A54E710C375F26375D7014103A4B54330C198AF126116D2276E11715F693877FAD7EF09CADB094AE91E1A1597";
const Q_2048: &str = "8CF83642A709A097B447997640129DA299B1A47D1EB3750BA308B0FE64F5FBD3";
const ALPHA_2048: &str = "3FB32C9B73134D0B2E77506660EDBD484CA7B18F21EF205407F4793A1A0BA12510DBC15077BE463FFF4FED4AAC0BB555BE3A6C1B0C6B47B1BC3773BF7E8C6F62901228F8C28CBB18A55AE31341000A650196F931C77A57F2DDF463E5E9EC144B777DE62AAAB8A8628AC376D282D6ED3864E67982428EBC831D14348F6F2F9193B5045AF2767164E1DFC967C1FB3F2E55A4BD1BFFE83B9C80D052B985D182EA0ADB2A3B7313D3FE14C8484B1E052588B9B7D2BBD2DF016199ECD06E1557CD0915B3353BBB64E0EC377FD028370DF92B52C7891428CDC67EB6184B523D1DB246C32F63078490F00EF8D647D148D47954515E2327CFEF98C582664B4C0F6CC41659";
const BETA_2048: &str = "2130B218C7366996D70285353225F0CA2D6AE68D062B10C9574145DF5C5ACB90DF5DCF5AB54D1CAA5743442B929E5DE0338DD0C227404B7A5A122341A4E02F7C61DDB62AAFFAC3890AE8B98A752C3947AC7B6250CFD0683640F26AA97F33A65645D022908E4FDF7AB8F06114B3DD12AD83DBA0D226BE0E1B6E5B505A8A54BAC74921866DD25AA8FFAD37DEA78A989BC3FAFD924477AE7337283777444BD94059A221E5D9A47A1A5BB4413C393FB81ADAE912D8F0B1210E08B9E37ADD97C0E35E4BC6BC7BBC4B262B25B31FE15C03F02E9E31298D0D529FEB8BF7824CEEDF6A26C6BB7A8F928A9CC601CE6ABA0F9C2B9188AA7552BD60A228226684F3BE63C5A1";

fn hex(s: &str) -> Natural {
    Natural::from_bytes_be(&BigUint::parse_bytes(s.as_bytes(), 16).unwrap().to_bytes_be())
}

fn n(v: u64) -> Natural {
    Natural::from_u64(v)
}

fn big(v: &Natural) -> BigUint {
    BigUint::from_bytes_be(&v.to_bytes_be())
}

fn toy_system() -> ZKPSystem {
    ZKPSystem::new(n(23), n(11), n(4), n(2))
}

fn run_round(system: &ZKPSystem) -> bool {
    let secret = Natural::random_below(system.get_order());
    let prover = Prover::new(system, secret);

    let challenge = Natural::random_below(system.get_order());
    let (commitments, randomness) = prover.generate_commitments();

    let response = prover.generate_response(&challenge, &randomness);

    let verifier = Verifier::new(system);
    verifier.verify(
        (&commitments.0, &commitments.1),
        &challenge,
        &response,
        (&prover.public_values().0, &prover.public_values().1),
    )
}

#[test]
fn test_with_builder_pattern() {
    let system = ZKPSystem::builder()
        .with_prime(hex(P_1024))
        .with_order(hex(Q_1024))
        .with_generator(hex(ALPHA_1024))
        .with_second_generator(hex(BETA_1024))
        .build()
        .expect("Failed to build ZKP system");
    assert!(run_round(&system));
}

#[test]
fn test_1024_bits_constants() {
    let system = ZKPSystem::new(hex(P_1024), hex(Q_1024), hex(ALPHA_1024), hex(BETA_1024));
    assert!(run_round(&system));
}

#[test]
fn test_2048_bits_constants() {
    let system = ZKPSystem::new(hex(P_2048), hex(Q_2048), hex(ALPHA_2048), hex(BETA_2048));
    assert!(run_round(&system));
}

#[test]
fn builder_names_each_missing_parameter() {
    let none = ZKPSystem::builder().build();
    assert_eq!(none.err(), Some("Prime p is required"));
    let no_q = ZKPSystem::builder().with_prime(n(23)).build();
    assert_eq!(no_q.err(), Some("Order q is required"));
    let no_alpha = ZKPSystem::builder().with_prime(n(23)).with_order(n(11)).build();
    assert_eq!(no_alpha.err(), Some("Generator alpha is required"));
    let no_beta = ZKPSystem::builder()
        .with_prime(n(23))
        .with_order(n(11))
        .with_generator(n(4))
        .build();
    assert_eq!(no_beta.err(), Some("Second generator beta is required"));
    let full = ZKPSystem::builder()
        .with_second_generator(n(2))
        .with_generator(n(4))
        .with_order(n(11))
        .with_prime(n(23))
        .build()
        .unwrap();
    let params = full.parameters();
    assert_eq!(big(&params.p), BigUint::from(23u32));
    assert_eq!(big(&params.q), BigUint::from(11u32));
    assert_eq!(big(&params.alpha), BigUint::from(4u32));
    assert_eq!(big(&params.beta), BigUint::from(2u32));
}

#[test]
fn toy_group_end_to_end() {
    let system = toy_system();
    let (y1, y2) = system.compute_public_values(&n(6));
    assert_eq!(big(&y1), BigUint::from(2u32));
    assert_eq!(big(&y2), BigUint::from(18u32));
    let (r1, r2) = system.compute_commitments(&n(7));
    assert_eq!(big(&r1), BigUint::from(8u32));
    assert_eq!(big(&r2), BigUint::from(13u32));
    let s = system.compute_response(&n(7), &n(3), &n(6));
    assert_eq!(big(&s), BigUint::from(0u32));
    assert!(system.verify((&r1, &r2), &n(3), &s, (&y1, &y2)));
}

#[test]
fn toy_group_prover_and_verifier() {
    let system = toy_system();
    let prover = Prover::new(&system, n(6));
    assert_eq!(big(&prover.public_values().0), BigUint::from(2u32));
    assert_eq!(big(&prover.public_values().1), BigUint::from(18u32));
    let s = prover.generate_response(&n(3), &n(7));
    assert_eq!(big(&s), BigUint::from(0u32));
    let verifier = Verifier::new(&system);
    let c = verifier.generate_challenge();
    assert!(big(&c) < BigUint::from(11u32));
    for _ in 0..20 {
        assert!(run_round(&system));
    }
}

#[test]
fn response_reduction_cases() {
    let params = toy_system();
    // k >= c*x: (20 - 3) mod 11
    assert_eq!(big(&params.compute_response(&n(20), &n(1), &n(3))), BigUint::from(6u32));
    // k == c*x mod q exactly: zero, never q
    assert_eq!(big(&params.compute_response(&n(7), &n(3), &n(6))), BigUint::from(0u32));
    assert_eq!(big(&params.compute_response(&n(1), &n(10), &n(10))), BigUint::from(0u32));
    // k below c*x by several multiples of q: -98 mod 11
    assert_eq!(big(&params.compute_response(&n(2), &n(10), &n(10))), BigUint::from(1u32));
    // -8 mod 11
    assert_eq!(big(&params.compute_response(&n(7), &n(3), &n(5))), BigUint::from(3u32));
}

#[test]
fn wrong_secret_is_rejected() {
    let system = toy_system();
    let (y1, y2) = system.compute_public_values(&n(6));
    let (r1, r2) = system.compute_commitments(&n(7));
    for c in 1..11u64 {
        let forged = system.compute_response(&n(7), &n(c), &n(5));
        assert!(!system.verify((&r1, &r2), &n(c), &forged, (&y1, &y2)));
    }
}

#[test]
fn swapped_public_values_are_rejected() {
    let system = toy_system();
    let (y1, y2) = system.compute_public_values(&n(6));
    let (r1, r2) = system.compute_commitments(&n(7));
    let s = system.compute_response(&n(7), &n(3), &n(6));
    assert!(system.verify((&r1, &r2), &n(3), &s, (&y1, &y2)));
    assert!(!system.verify((&r1, &r2), &n(3), &s, (&y2, &y1)));
}

#[test]
fn large_group_exact_values() {
    let system = ZKPSystem::new(hex(P_1024), hex(Q_1024), hex(ALPHA_1024), hex(BETA_1024));
    let p = BigUint::parse_bytes(P_1024.as_bytes(), 16).unwrap();
    let q = BigUint::parse_bytes(Q_1024.as_bytes(), 16).unwrap();
    let alpha = BigUint::parse_bytes(ALPHA_1024.as_bytes(), 16).unwrap();
    let x = BigUint::from(123456789u64);
    let (y1, _) = system.compute_public_values(&n(123456789));
    assert_eq!(big(&y1), alpha.modpow(&x, &p));
    let s = system.compute_response(&n(5), &n(1), &n(123456789));
    assert_eq!(big(&s), &q - BigUint::from(123456784u64));
}

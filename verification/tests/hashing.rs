use iop_transcript::Blake2bHasher;
use iop_transcript::Blake2bImplCpu;
use iop_transcript::ConfigHashBlake2b;
use iop_transcript::Digest;
use iop_transcript::Fp;
use iop_transcript::FpExt;

type Hash = ConfigHashBlake2b<Blake2bImplCpu>;

#[test]
fn blake2b_known_vector() {
    // blake2b with a 32-byte digest length, of the empty string.
    let expected = Digest::from_hex("0e5751c026e543b2e8ab2eb06099daa1d1e5df47778f7787faab45cdf12fe3a8")
        .unwrap();
    let out = Blake2bImplCpu::blake2b(&[]);
    assert_eq!(out, expected.bytes);
}

#[test]
fn blake2b_differs_from_input() {
    let input: Vec<u8> = vec![0u8; 32];
    let out = Blake2bImplCpu::blake2b(input.as_slice());
    assert_eq!(out.len(), 32);
    assert_ne!(out, input);
}

#[test]
fn hash_pair_non_commutative() {
    let a = Digest::zero();
    let b = Digest::from_hex("71d387e1c49d3301437e22ace844c8f773b89f634c1d08c1d84d3963d21a844b")
        .unwrap();
    assert_ne!(a, b);
    let ab = Hash::hash_pair(&a, &b);
    let ba = Hash::hash_pair(&b, &a);
    assert_ne!(ab, ba);
}

#[test]
fn hash_elem_slice_depends_on_order() {
    let xs = [Fp::new(1), Fp::new(2)];
    let ys = [Fp::new(2), Fp::new(1)];
    assert_ne!(Hash::hash_elem_slice(&xs), Hash::hash_elem_slice(&ys));
}

#[test]
fn flatten_equivalence_concrete() {
    let x0 = FpExt::new(Fp::new(1), Fp::new(2), Fp::new(3), Fp::new(4));
    let x1 = FpExt::new(Fp::new(5), Fp::new(6), Fp::new(7), Fp::new(8));
    let exts = [x0, x1];
    let flat = [
        Fp::new(1),
        Fp::new(2),
        Fp::new(3),
        Fp::new(4),
        Fp::new(5),
        Fp::new(6),
        Fp::new(7),
        Fp::new(8),
    ];
    assert_eq!(Hash::hash_ext_elem_slice(&exts), Hash::hash_elem_slice(&flat));
}

#[test]
fn subelems_order() {
    let x = FpExt::new(Fp::new(9), Fp::new(10), Fp::new(11), Fp::new(12));
    let subs = x.subelems();
    assert_eq!(subs.len(), 4);
    assert_eq!(subs[0].v, 9);
    assert_eq!(subs[1].v, 10);
    assert_eq!(subs[2].v, 11);
    assert_eq!(subs[3].v, 12);
}

#[test]
fn from_hex_decodes() {
    let d = Digest::from_hex("000102030405060708090a0b0c0d0e0f101112131415161718191a1b1c1d1e1f")
        .unwrap();
    let expected: Vec<u8> = (0u8..32).collect();
    assert_eq!(d.bytes, expected);
}

#[test]
fn from_hex_rejects_bad_input() {
    // Too short.
    assert!(Digest::from_hex("0e5751").is_none());
    // Too long.
    assert!(
        Digest::from_hex("0e5751c026e543b2e8ab2eb06099daa1d1e5df47778f7787faab45cdf12fe3a800")
            .is_none()
    );
    // Uppercase digit.
    assert!(
        Digest::from_hex("0E5751c026e543b2e8ab2eb06099daa1d1e5df47778f7787faab45cdf12fe3a8")
            .is_none()
    );
    // Non-hex character.
    assert!(
        Digest::from_hex("0g5751c026e543b2e8ab2eb06099daa1d1e5df47778f7787faab45cdf12fe3a8")
            .is_none()
    );
}

#[test]
fn digest_zero_is_zero() {
    let z = Digest::zero();
    assert_eq!(z.bytes, vec![0u8; 32]);
}

#[test]
fn fp_new_reduces() {
    let p: u32 = 2013265921;
    assert_eq!(Fp::new(0).v, 0);
    assert_eq!(Fp::new(p - 1).v, p - 1);
    assert_eq!(Fp::new(p).v, 0);
    assert_eq!(Fp::new(p + 5).v, 5);
}

#[test]
fn fp_from_word_checks_range() {
    let p: u32 = 2013265921;
    assert_eq!(Fp::from_word(p - 1).unwrap().v, p - 1);
    assert!(Fp::from_word(p).is_none());
    assert!(Fp::from_word(u32::MAX).is_none());
}

#[test]
fn elem_hash_matches_backend() {
    // One element encodes as its canonical word, big-endian.
    let d = Hash::hash_elem_slice(&[Fp::new(1)]);
    let expected = Blake2bImplCpu::blake2b(&[0, 0, 0, 1]);
    assert_eq!(d.bytes, expected);
}

#[test]
fn pair_hash_matches_backend() {
    let a = Digest::zero();
    let b = Digest::from_hex("000102030405060708090a0b0c0d0e0f101112131415161718191a1b1c1d1e1f")
        .unwrap();
    let mut concat = a.bytes.clone();
    concat.extend_from_slice(&b.bytes);
    assert_eq!(Hash::hash_pair(&a, &b).bytes, Blake2bImplCpu::blake2b(&concat));
}

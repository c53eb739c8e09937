use iop_transcript::Blake2bHasher;
use iop_transcript::Blake2bImplCpu;
use iop_transcript::Blake2bRng;
use iop_transcript::Digest;
use iop_transcript::Fp;
use iop_transcript::IopError;
use iop_transcript::ReadIOP;
use iop_transcript::WriteIOP;

type Writer = WriteIOP<Blake2bImplCpu>;
type Rng = Blake2bRng<Blake2bImplCpu>;

#[test]
fn round_trip_all_operations() {
    let mut w = Writer::new();
    w.write_u32_slice(&[7, 8, 9]);
    w.write_field_elem_slice(&[Fp::new(1), Fp::new(2)]);
    w.write_pod_slice(&[10, 20, 30, 40, 50, 60, 70, 80]);
    w.commit(&Digest::zero());
    let drawn = w.random_u32();

    let mut r = ReadIOP::<Blake2bImplCpu>::new(w.buf.as_slice());
    let words = r.read_u32s(3).unwrap();
    assert_eq!(words, &[7, 8, 9]);
    let elems = r.read_field_elem_slice(2).unwrap();
    assert_eq!(elems.len(), 2);
    assert_eq!(elems[0].v, 1);
    assert_eq!(elems[1].v, 2);
    let bytes = r.read_pod_slice(8).unwrap();
    assert_eq!(bytes, vec![10, 20, 30, 40, 50, 60, 70, 80]);
    r.commit(&Digest::zero());
    assert_eq!(r.random_u32(), drawn);
    assert!(r.verify_complete().is_ok());
}

#[test]
fn write_determinism() {
    let mut w1 = Writer::new();
    let mut w2 = Writer::new();
    for w in [&mut w1, &mut w2] {
        w.write_u32_slice(&[4, 5]);
        w.commit(&Digest::zero());
    }
    assert_eq!(w1.buf, w2.buf);
    assert_eq!(w1.random_u32(), w2.random_u32());
    let e1 = w1.random_elem();
    let e2 = w2.random_elem();
    assert_eq!(e1.v, e2.v);
    let x1 = w1.random_ext_elem();
    let x2 = w2.random_ext_elem();
    assert_eq!(x1, x2);
    assert_eq!(w1.buf, w2.buf);
}

#[test]
fn absorption_changes_future_output() {
    let d1 = Digest::zero();
    let d2 = Digest::from_hex("0000000000000000000000000000000000000000000000000000000000000001")
        .unwrap();
    assert_ne!(d1, d2);
    let mut r1 = Rng::new();
    let mut r2 = Rng::new();
    r1.mix(&d1);
    r2.mix(&d2);
    assert_ne!(r1.random_u32(), r2.random_u32());
}

#[test]
fn extraction_stream_advances() {
    let mut rng = Rng::new();
    let a = rng.random_u32();
    let b = rng.random_u32();
    assert_ne!(a, b);
}

#[test]
fn ext_elem_is_four_sequential_draws() {
    let mut w1 = Writer::new();
    let mut w2 = Writer::new();
    let x = w1.random_ext_elem();
    let e0 = w2.random_elem();
    let e1 = w2.random_elem();
    let e2 = w2.random_elem();
    let e3 = w2.random_elem();
    assert_eq!(x.e0, e0);
    assert_eq!(x.e1, e1);
    assert_eq!(x.e2, e2);
    assert_eq!(x.e3, e3);
}

#[test]
fn truncation_detected() {
    let buf = [1u32, 2, 3];
    let mut r = ReadIOP::<Blake2bImplCpu>::new(&buf);
    assert_eq!(r.read_u32s(5).unwrap_err(), IopError::Truncated);
    // The failed read consumed nothing; the full buffer is still there.
    let words = r.read_u32s(3).unwrap();
    assert_eq!(words, &[1, 2, 3]);
}

#[test]
fn truncation_detected_for_field_elems() {
    let buf = [1u32, 2, 3];
    let mut r = ReadIOP::<Blake2bImplCpu>::new(&buf);
    assert_eq!(r.read_field_elem_slice(4).unwrap_err(), IopError::Truncated);
}

#[test]
fn truncation_detected_for_pod() {
    let buf = [1u32, 2, 3];
    let mut r = ReadIOP::<Blake2bImplCpu>::new(&buf);
    assert_eq!(r.read_pod_slice(16).unwrap_err(), IopError::Truncated);
}

#[test]
fn invalid_field_encoding_rejected() {
    let p: u32 = 2013265921;
    let buf = [5u32, p, 6];
    let mut r = ReadIOP::<Blake2bImplCpu>::new(&buf);
    assert_eq!(r.read_field_elem_slice(3).unwrap_err(), IopError::InvalidFieldElement);
    // Nothing was consumed by the failed decode.
    let words = r.read_u32s(3).unwrap();
    assert_eq!(words, &[5, p, 6]);
}

#[test]
fn trailing_data_detected() {
    let buf = [1u32, 2, 3];
    let mut r = ReadIOP::<Blake2bImplCpu>::new(&buf);
    let _ = r.read_u32s(2).unwrap();
    assert_eq!(r.verify_complete().unwrap_err(), IopError::TrailingData);
}

#[test]
fn pod_round_trip_little_endian() {
    let mut w = Writer::new();
    w.write_pod_slice(&[0x01, 0x02, 0x03, 0x04]);
    assert_eq!(w.buf, vec![0x04030201]);
    let mut r = ReadIOP::<Blake2bImplCpu>::new(w.buf.as_slice());
    assert_eq!(r.read_pod_slice(4).unwrap(), vec![0x01, 0x02, 0x03, 0x04]);
    assert!(r.verify_complete().is_ok());
}

#[test]
fn concrete_scenario() {
    let mut w = Writer::new();
    w.write_field_elem_slice(&[Fp::new(1), Fp::new(2), Fp::new(3)]);
    w.commit(&Digest::zero());
    let v = w.random_u32();

    let mut r = ReadIOP::<Blake2bImplCpu>::new(w.buf.as_slice());
    let elems = r.read_field_elem_slice(3).unwrap();
    assert_eq!(elems.len(), 3);
    assert_eq!(elems[0].v, 1);
    assert_eq!(elems[1].v, 2);
    assert_eq!(elems[2].v, 3);
    r.commit(&Digest::zero());
    assert_eq!(r.random_u32(), v);
    assert!(r.verify_complete().is_ok());
}

#[test]
fn extraction_matches_backend() {
    let mut rng = Rng::new();
    let h = Blake2bImplCpu::blake2b(&[0u8; 32]);
    let expected = ((h[0] as u32) << 24) + ((h[1] as u32) << 16) + ((h[2] as u32) << 8)
        + (h[3] as u32);
    assert_eq!(rng.random_u32(), expected);
    assert_eq!(rng.current, h);
}

#[test]
fn absorption_matches_backend() {
    let mut rng = Rng::new();
    let d = Digest::zero();
    rng.mix(&d);
    let mut concat = vec![0u8; 32];
    concat.extend_from_slice(&d.bytes);
    assert_eq!(rng.current, Blake2bImplCpu::blake2b(&concat));
}

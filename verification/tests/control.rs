use iop_transcript::Blake2bImplCpu;
use iop_transcript::ConfigHashBlake2b;
use iop_transcript::ConfigHashPoseidon;
use iop_transcript::ConfigHashSha256;
use iop_transcript::ControlIdLocator;
use iop_transcript::Digest;

#[test]
fn sha256_control_id_decodes() {
    let id = ConfigHashSha256::get_control_id().unwrap();
    assert_eq!(id.table.len(), 5);
    let first =
        Digest::from_hex("0de0121784ea606daea05200a43b13cddf2042d7a8f8c40f0ee0522c9a43c88f")
            .unwrap();
    assert_eq!(id.table[0], first);
    for d in &id.table {
        assert_eq!(d.bytes.len(), 32);
    }
}

#[test]
fn poseidon_control_id_decodes() {
    let id = ConfigHashPoseidon::get_control_id().unwrap();
    assert_eq!(id.table.len(), 5);
    let first =
        Digest::from_hex("f7a22629003f04e4a0f1eda92860043add36532f3ed379d4f7c63828cd0c90c3")
            .unwrap();
    assert_eq!(id.table[0], first);
}

#[test]
fn blake2b_control_id_decodes() {
    let id = ConfigHashBlake2b::<Blake2bImplCpu>::get_control_id().unwrap();
    assert_eq!(id.table.len(), 5);
    let first =
        Digest::from_hex("aac01a803b6624099f4cef9ac884bcc94ec878aee246fce1b4b8bb51a53a61a4")
            .unwrap();
    assert_eq!(id.table[0], first);
}

#[test]
fn control_tables_differ_per_suite() {
    let sha = ConfigHashSha256::get_control_id().unwrap();
    let pos = ConfigHashPoseidon::get_control_id().unwrap();
    let bla = ConfigHashBlake2b::<Blake2bImplCpu>::get_control_id().unwrap();
    assert_ne!(sha.table[0], pos.table[0]);
    assert_ne!(sha.table[0], bla.table[0]);
    assert_ne!(pos.table[0], bla.table[0]);
}

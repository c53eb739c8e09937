//! The control-id tables: for each hash-suite identity, the fixed
//! ordered list of expected circuit-commitment digests, decoded once
//! from constant hexadecimal spellings.  The outer system compares a
//! proof's commitments against this table to reject proofs generated
//! against a mismatched circuit build.

use vstd::prelude::*;

use crate::blake2b::Blake2bHasher;
use crate::blake2b::ConfigHashBlake2b;
use crate::digest::Digest;
use crate::digest::digest_wf;
use crate::digest::hex_decode;
use crate::digest::hex_ok;

verus! {

/// The ordered list of expected circuit-commitment digests for one
/// hash suite.
pub struct ControlId {
    /// The digests, in their fixed order.
    pub table: Vec<Digest>,
}

/// Binds a hash-suite identity to its control-id table.
pub trait ControlIdLocator {
    /// The table bound to this suite: the decode of its fixed
    /// hexadecimal constants, in order.  `None` exactly when some
    /// constant is not a valid digest spelling, an unrecoverable
    /// configuration fault rather than a per-proof failure.
    fn get_control_id() -> (r: Option<ControlId>)
        ensures
            r is Some ==> forall|i: int|
                0 <= i < r->0.table@.len() ==> digest_wf(#[trigger] r->0.table@[i]),
    ;
}

/// Identity of the sha-256 hash suite; the suite itself lives outside
/// this layer.
pub struct ConfigHashSha256;

/// Identity of the poseidon hash suite; the suite itself lives outside
/// this layer.
pub struct ConfigHashPoseidon;

impl ControlIdLocator for ConfigHashSha256 {
    fn get_control_id() -> (r: Option<ControlId>)
        ensures
            r is Some <==> hex_ok("0de0121784ea606daea05200a43b13cddf2042d7a8f8c40f0ee0522c9a43c88f"@) && hex_ok("71d387e1c49d3301437e22ace844c8f773b89f634c1d08c1d84d3963d21a844b"@) && hex_ok("64203c4940b08609804eed7f93ecaca59aba0c9bbe8d205c5a479be509beab13"@) && hex_ok("44f79a31f54f4a3a75de05ddf10ee4952432f79ae7b3ecd111e13b32dd58ebd3"@) && hex_ok("2b990946ffb50a358805bf2d231fd52f0bddc5afb08f344fd60ecdfa4a62ad46"@),
            r is Some ==> r->0.table@.len() == 5
            && r->0.table@[0].bytes@ == hex_decode("0de0121784ea606daea05200a43b13cddf2042d7a8f8c40f0ee0522c9a43c88f"@)
            && r->0.table@[1].bytes@ == hex_decode("71d387e1c49d3301437e22ace844c8f773b89f634c1d08c1d84d3963d21a844b"@)
            && r->0.table@[2].bytes@ == hex_decode("64203c4940b08609804eed7f93ecaca59aba0c9bbe8d205c5a479be509beab13"@)
            && r->0.table@[3].bytes@ == hex_decode("44f79a31f54f4a3a75de05ddf10ee4952432f79ae7b3ecd111e13b32dd58ebd3"@)
            && r->0.table@[4].bytes@ == hex_decode("2b990946ffb50a358805bf2d231fd52f0bddc5afb08f344fd60ecdfa4a62ad46"@),
    {
        let mut table: Vec<Digest> = Vec::new();
        match Digest::from_hex("0de0121784ea606daea05200a43b13cddf2042d7a8f8c40f0ee0522c9a43c88f") {
            Some(d) => table.push(d),
            None => {
                return None;
            },
        }
        match Digest::from_hex("71d387e1c49d3301437e22ace844c8f773b89f634c1d08c1d84d3963d21a844b") {
            Some(d) => table.push(d),
            None => {
                return None;
            },
        }
        match Digest::from_hex("64203c4940b08609804eed7f93ecaca59aba0c9bbe8d205c5a479be509beab13") {
            Some(d) => table.push(d),
            None => {
                return None;
            },
        }
        match Digest::from_hex("44f79a31f54f4a3a75de05ddf10ee4952432f79ae7b3ecd111e13b32dd58ebd3") {
            Some(d) => table.push(d),
            None => {
                return None;
            },
        }
        match Digest::from_hex("2b990946ffb50a358805bf2d231fd52f0bddc5afb08f344fd60ecdfa4a62ad46") {
            Some(d) => table.push(d),
            None => {
                return None;
            },
        }
        Some(ControlId { table })
    }
}

impl ControlIdLocator for ConfigHashPoseidon {
    fn get_control_id() -> (r: Option<ControlId>)
        ensures
            r is Some <==> hex_ok("f7a22629003f04e4a0f1eda92860043add36532f3ed379d4f7c63828cd0c90c3"@) && hex_ok("229f52d9cae5eead1748dff184d2f2c6f4bf880df2edbb63755acf7f30c90929"@) && hex_ok("83ead948afd7a0e749bf9c78ad3322d8b5ac7e12d299926481a5be593a0c1cc7"@) && hex_ok("26618b90d2c07425f246c13a99b0eede4600f5b9468e8b57ba169c1d6509bf30"@) && hex_ok("94b018fad2e1261ca7b92cefcff8b7bc1c3375b4204f73296b77829cf6c19639"@),
            r is Some ==> r->0.table@.len() == 5
            && r->0.table@[0].bytes@ == hex_decode("f7a22629003f04e4a0f1eda92860043add36532f3ed379d4f7c63828cd0c90c3"@)
            && r->0.table@[1].bytes@ == hex_decode("229f52d9cae5eead1748dff184d2f2c6f4bf880df2edbb63755acf7f30c90929"@)
            && r->0.table@[2].bytes@ == hex_decode("83ead948afd7a0e749bf9c78ad3322d8b5ac7e12d299926481a5be593a0c1cc7"@)
            && r->0.table@[3].bytes@ == hex_decode("26618b90d2c07425f246c13a99b0eede4600f5b9468e8b57ba169c1d6509bf30"@)
            && r->0.table@[4].bytes@ == hex_decode("94b018fad2e1261ca7b92cefcff8b7bc1c3375b4204f73296b77829cf6c19639"@),
    {
        let mut table: Vec<Digest> = Vec::new();
        match Digest::from_hex("f7a22629003f04e4a0f1eda92860043add36532f3ed379d4f7c63828cd0c90c3") {
            Some(d) => table.push(d),
            None => {
                return None;
            },
        }
        match Digest::from_hex("229f52d9cae5eead1748dff184d2f2c6f4bf880df2edbb63755acf7f30c90929") {
            Some(d) => table.push(d),
            None => {
                return None;
            },
        }
        match Digest::from_hex("83ead948afd7a0e749bf9c78ad3322d8b5ac7e12d299926481a5be593a0c1cc7") {
            Some(d) => table.push(d),
            None => {
                return None;
            },
        }
        match Digest::from_hex("26618b90d2c07425f246c13a99b0eede4600f5b9468e8b57ba169c1d6509bf30") {
            Some(d) => table.push(d),
            None => {
                return None;
            },
        }
        match Digest::from_hex("94b018fad2e1261ca7b92cefcff8b7bc1c3375b4204f73296b77829cf6c19639") {
            Some(d) => table.push(d),
            None => {
                return None;
            },
        }
        Some(ControlId { table })
    }
}

impl<T: Blake2bHasher> ControlIdLocator for ConfigHashBlake2b<T> {
    fn get_control_id() -> (r: Option<ControlId>)
        ensures
            r is Some <==> hex_ok("aac01a803b6624099f4cef9ac884bcc94ec878aee246fce1b4b8bb51a53a61a4"@) && hex_ok("b2c66281e615333f14976569f1e1b6915e74a0abbaad67b1100138384c9bf59c"@) && hex_ok("1251f15dbe6d35578213ab2b788467cbf922f8267c6ca30583e5a56c51575812"@) && hex_ok("1d6068a957892e018b7414a30fa73f0e59400f4c968e963eb0bbafc6cb67c066"@) && hex_ok("bfc21c14fd658eeae166e3ab7fce0bd5f8ba0f7bc49840b9c0df67a0ed74b944"@),
            r is Some ==> r->0.table@.len() == 5
            && r->0.table@[0].bytes@ == hex_decode("aac01a803b6624099f4cef9ac884bcc94ec878aee246fce1b4b8bb51a53a61a4"@)
            && r->0.table@[1].bytes@ == hex_decode("b2c66281e615333f14976569f1e1b6915e74a0abbaad67b1100138384c9bf59c"@)
            && r->0.table@[2].bytes@ == hex_decode("1251f15dbe6d35578213ab2b788467cbf922f8267c6ca30583e5a56c51575812"@)
            && r->0.table@[3].bytes@ == hex_decode("1d6068a957892e018b7414a30fa73f0e59400f4c968e963eb0bbafc6cb67c066"@)
            && r->0.table@[4].bytes@ == hex_decode("bfc21c14fd658eeae166e3ab7fce0bd5f8ba0f7bc49840b9c0df67a0ed74b944"@),
    {
        let mut table: Vec<Digest> = Vec::new();
        match Digest::from_hex("aac01a803b6624099f4cef9ac884bcc94ec878aee246fce1b4b8bb51a53a61a4") {
            Some(d) => table.push(d),
            None => {
                return None;
            },
        }
        match Digest::from_hex("b2c66281e615333f14976569f1e1b6915e74a0abbaad67b1100138384c9bf59c") {
            Some(d) => table.push(d),
            None => {
                return None;
            },
        }
        match Digest::from_hex("1251f15dbe6d35578213ab2b788467cbf922f8267c6ca30583e5a56c51575812") {
            Some(d) => table.push(d),
            None => {
                return None;
            },
        }
        match Digest::from_hex("1d6068a957892e018b7414a30fa73f0e59400f4c968e963eb0bbafc6cb67c066") {
            Some(d) => table.push(d),
            None => {
                return None;
            },
        }
        match Digest::from_hex("bfc21c14fd658eeae166e3ab7fce0bd5f8ba0f7bc49840b9c0df67a0ed74b944") {
            Some(d) => table.push(d),
            None => {
                return None;
            },
        }
        Some(ControlId { table })
    }
}

} // verus!

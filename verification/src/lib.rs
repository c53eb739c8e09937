//! Fiat-Shamir transcript layer for an interactive-oracle-proof system:
//! a blake2b hash suite, a transcript random-number generator, mirrored
//! prover-side and verifier-side transcript objects, and the control-id
//! tables binding a hash suite to its expected circuit fingerprints.

pub mod blake2b;
pub mod control;
pub mod digest;
pub mod field;
pub mod protocol;
pub mod read_iop;
pub mod words;
pub mod write_iop;

pub use blake2b::Blake2bHasher;
pub use blake2b::Blake2bImplCpu;
pub use blake2b::Blake2bRng;
pub use blake2b::ConfigHashBlake2b;
pub use blake2b::HashSuite;
pub use blake2b::HashSuiteBlake2b;
pub use blake2b::HashSuiteBlake2bCpu;
pub use control::ConfigHashPoseidon;
pub use control::ConfigHashSha256;
pub use control::ControlId;
pub use control::ControlIdLocator;
pub use digest::Digest;
pub use read_iop::IopError;
pub use read_iop::ReadIOP;
pub use write_iop::WriteIOP;
pub use field::Fp;
pub use field::FpExt;

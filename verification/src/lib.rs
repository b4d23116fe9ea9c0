//! Outer verification circuit of a two-layer proof system for a
//! privacy-preserving transaction model.
//!
//! The library builds, from the public facts of a transaction and the proof
//! material supplied for it, a description of the outer circuit: the ordered
//! cross-field encoding of every public input of the inner proof, the inner
//! proof check, one positional predicate check per consumed and created
//! record, and the commitment binding over the ordered predicate-key digests.
//! A checker, generic over the cryptographic primitives, decides whether the
//! description is satisfiable.

pub mod balance;
pub mod bits;
pub mod checker;
pub mod circuit;
pub mod encoder;
pub mod facts;
pub mod primitives;

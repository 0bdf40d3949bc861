//! Core of a native model-serving engine that a host process drives through
//! opaque integer handles: a declarative configuration document selects one of
//! several transformer architecture families, a dispatcher chooses the
//! concrete model variant, and a handle registry owns every model and tensor
//! that crosses the host boundary.

use vstd::prelude::*;

pub mod config;
pub mod errors;
pub mod infer;
pub mod jsondoc;
pub mod loader;
pub mod registry;
pub mod weights;

verus! {

/// Character-for-character equality of two string slices.
pub fn str_eq(a: &str, b: &str) -> (r: bool)
    ensures
        r == (a@ == b@),
{
    let x: String = a.to_owned();
    let y: String = b.to_owned();
    x == y
}

/// Pooling strategies a host may request when reducing token embeddings to a
/// single sequence embedding.
#[derive(Debug, PartialEq, Clone)]
pub enum Pool {
    Cls,
    Mean,
    Splade,
    LastToken,
}

} // verus!

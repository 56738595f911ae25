use vstd::prelude::*;

verus! {

/// Calls `quad_rand::rand`, the global pseudo-random generator that
/// macroquad re-exports as `macroquad::rand::rand`. The value depends on hidden
/// generator state, so nothing is claimed of it.
#[verifier::external_body]
pub(crate) fn random_u32() -> u32 {
    quad_rand::rand()
}

} // verus!

//! The random source that seeds a grid.

use vstd::prelude::*;
use rand::Rng;

verus! {

/// The generator of the current thread, as the `rand` crate hands it out.
/// Nothing is known of what it holds.
#[verifier::external_type_specification]
#[verifier::external_body]
pub struct ExThreadRng(rand::ThreadRng);

/// Calls `rand::thread_rng`, which returns a handle to the thread's lazily
/// seeded generator. Nothing is claimed of the handle.
///
/// The outside function panics if, when the generator is first seeded,
/// neither the operating system nor the timing jitter of the machine yields
/// a seed. That depends on the machine alone, so no precondition can rule
/// it out.
#[verifier::external_body]
fn thread_rng() -> (rng: rand::ThreadRng) {
    rand::thread_rng()
}

/// Calls `Rng::gen::<bool>` on the generator, which draws one boolean.
/// Nothing is claimed of the value: either outcome may come back.
///
/// The generator reseeds itself from time to time and panics if no seed
/// can be had then, as `thread_rng` does.
#[verifier::external_body]
fn gen_bool(rng: &mut rand::ThreadRng) -> (b: bool) {
    rng.gen::<bool>()
}

/// Draws `n` booleans from the thread's generator.
///
/// Only the length is stated, because nothing else holds of every outcome.
pub fn random_states(n: usize) -> (states: Vec<bool>)
    ensures
        states@.len() == n,
{
    let mut rng = thread_rng();
    let mut states: Vec<bool> = Vec::new();
    let mut i: usize = 0;
    while i < n
        invariant
            i <= n,
            states@.len() == i,
        decreases n - i,
    {
        let b = gen_bool(&mut rng);
        states.push(b);
        i += 1;
    }
    states
}

} // verus!

use vstd::prelude::*;

verus! {

/// A source of draws from {-1, 0, 1}, used to pick the ball's direction
/// after it is put back in the middle of the court.
pub trait SignSource {
    fn draw(&mut self) -> (r: i32)
        ensures
            -1 <= r <= 1,
    ;
}

/// Relies on rand::random_range: on a non-empty inclusive range it returns a
/// value of that range (drawn from the thread-local generator).
#[verifier::external_body]
fn random_between(low: i32, high: i32) -> (r: i32)
    requires
        low <= high,
    ensures
        low <= r <= high,
{
    rand::random_range(low..=high)
}

/// Draws from the thread-local random generator, uniformly over {-1, 0, 1}.
#[derive(Clone, Copy, Debug)]
pub struct ThreadSigns;

impl SignSource for ThreadSigns {
    fn draw(&mut self) -> (r: i32) {
        random_between(-1, 1)
    }
}

} // verus!

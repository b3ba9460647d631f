//! Random seeding of the first field.
//!
//! A draw is a uniform 32-bit word, read as the fraction `draw / 2^32` of the
//! unit interval. A cell starts alive when its draw lies above six tenths,
//! which is the case for two draws in five.

use vstd::prelude::*;
use vstd::set_lib::{lemma_int_range, set_int_range};

verus! {

/// The largest draw that leaves a cell dead: six tenths of `2^32`, rounded
/// down.
pub const DEAD_UP_TO: u32 = 2_576_980_377;

/// A draw seeds a live cell when, as a fraction of `2^32`, it exceeds 3/5.
pub open spec fn draw_alive(draw: u32) -> bool {
    5 * draw > 3 * 0x1_0000_0000
}

/// The cells that a sequence of draws seeds, one cell a draw.
pub open spec fn seeded_cells(draws: Seq<u32>) -> Seq<bool> {
    Seq::new(draws.len(), |i: int| draw_alive(draws[i]))
}

/// The draws, out of all `2^32`, that seed a live cell.
pub open spec fn alive_draws() -> Set<int> {
    Set::new(|draw: int| 0 <= draw < 0x1_0000_0000 && 5 * draw > 3 * 0x1_0000_0000)
}

/// Decides whether the cell that received `draw` starts alive.
pub fn alive_from_draw(draw: u32) -> (alive: bool)
    ensures
        alive == draw_alive(draw),
{
    draw > DEAD_UP_TO
}

/// Two draws in five seed a live cell, to within two draws out of all
/// `2^32`: a uniform draw seeds a live cell with a probability of 0.4, less
/// a part in ten thousand million.
pub proof fn lemma_alive_share()
    ensures
        alive_draws().finite(),
        alive_draws().len() == 1_717_986_918,
        5 * alive_draws().len() == 2 * 0x1_0000_0000 - 2,
        forall|draw: u32| draw_alive(draw) <==> #[trigger] alive_draws().contains(draw as int),
        forall|draw: u32| draw_alive(draw) <==> draw > DEAD_UP_TO,
{
    lemma_int_range(2_576_980_378, 0x1_0000_0000);
    assert(alive_draws() =~= set_int_range(2_576_980_378, 0x1_0000_0000));
}

/// One call of `fastrand::u32` over the full range, on the thread's
/// generator. The full range is never empty, so the call does not panic.
/// Nothing is claimed of the word that comes back.
#[verifier::external_body]
fn uniform_draw() -> u32 {
    fastrand::u32(..)
}

/// Takes `count` draws from the thread's generator, in order.
pub fn draw_many(count: usize) -> (draws: Vec<u32>)
    ensures
        draws@.len() == count,
{
    let mut draws: Vec<u32> = Vec::new();
    let mut taken: usize = 0;
    while taken < count
        invariant
            taken <= count,
            draws@.len() == taken,
        decreases count - taken,
    {
        draws.push(uniform_draw());
        taken = taken + 1;
    }
    draws
}

} // verus!

//! File names for new notes: ten symbols drawn at random from `a-z0-9`.

use rand::rngs::ThreadRng;
use rand::Rng;
use vstd::prelude::*;

verus! {

/// How many symbols a generated name has.
pub const NAME_LENGTH: usize = 10;

/// How many symbols there are to draw from.
pub const ALPHABET_SIZE: usize = 36;

/// The symbols a name is made of, in the order a draw picks them by.
pub open spec fn alphabet() -> Seq<char> {
    "abcdefghijklmnopqrstuvwxyz0123456789"@
}

/// The name that a run of draws spells: one symbol of the alphabet for each
/// draw, in order.
pub open spec fn name_of(draws: Seq<usize>) -> Seq<char> {
    Seq::new(draws.len(), |i: int| alphabet()[draws[i] as int])
}

/// Every draw picks a symbol of the alphabet.
pub open spec fn draws_in_range(draws: Seq<usize>) -> bool {
    forall|i: int| 0 <= i < draws.len() ==> #[trigger] draws[i] < ALPHABET_SIZE
}

/// A name as `generate` makes them: `NAME_LENGTH` symbols, each of the
/// alphabet.
pub open spec fn is_generated_name(name: Seq<char>) -> bool {
    &&& name.len() == NAME_LENGTH
    &&& forall|i: int| 0 <= i < name.len() ==> alphabet().contains(#[trigger] name[i])
}

/// `rand::rngs::ThreadRng`, the handle to a thread's random generator.
#[verifier::external_type_specification]
#[verifier::external_body]
pub struct ExThreadRng(rand::rngs::ThreadRng);

/// `rand::thread_rng`: the handle to the calling thread's generator, which
/// the system seeds. Nothing is claimed of it.
pub assume_specification[ rand::thread_rng ]() -> (rng: rand::rngs::ThreadRng)
;

/// `Rng::gen_range` on `0..bound`: a number below `bound`, and no more is
/// known of it. The range must not be empty.
#[verifier::external_body]
fn draw_below(rng: &mut ThreadRng, bound: usize) -> (draw: usize)
    requires
        bound > 0,
    ensures
        draw < bound,
{
    rng.gen_range(0..bound)
}

/// Spells out the name that `draws` picks from the alphabet.
pub fn name_from_draws(draws: &Vec<usize>) -> (name: String)
    requires
        draws_in_range(draws@),
    ensures
        name@ == name_of(draws@),
{
    let symbols: &str = "abcdefghijklmnopqrstuvwxyz0123456789";
    proof {
        reveal_strlit("abcdefghijklmnopqrstuvwxyz0123456789");
    }
    let mut name = String::new();
    let mut i: usize = 0;
    while i < draws.len()
        invariant
            i <= draws.len(),
            draws_in_range(draws@),
            symbols@ == alphabet(),
            symbols@.len() == ALPHABET_SIZE,
            symbols.is_ascii(),
            name@ == name_of(draws@.take(i as int)),
        decreases draws.len() - i,
    {
        let pick: usize = draws[i];
        let symbol = symbols.substring_ascii(pick, pick + 1);
        name.append(symbol);
        proof {
            assert(symbol@ == seq![alphabet()[pick as int]]);
            assert(draws@.take(i + 1) == draws@.take(i as int).push(pick));
            assert(name@ == name_of(draws@.take(i + 1)));
        }
        i += 1;
    }
    proof {
        assert(draws@.take(draws.len() as int) == draws@);
    }
    name
}

/// A name spelled by `NAME_LENGTH` draws in range is a generated name.
pub proof fn drawn_name_is_generated(draws: Seq<usize>)
    requires
        draws.len() == NAME_LENGTH,
        draws_in_range(draws),
    ensures
        is_generated_name(name_of(draws)),
{
    reveal_strlit("abcdefghijklmnopqrstuvwxyz0123456789");
    assert forall|i: int| 0 <= i < name_of(draws).len() implies alphabet().contains(
        #[trigger] name_of(draws)[i],
    ) by {
        assert(draws[i] < ALPHABET_SIZE);
        assert(name_of(draws)[i] == alphabet()[draws[i] as int]);
    }
}

/// A fresh name for a note: `NAME_LENGTH` symbols, each drawn from the
/// alphabet by the thread's random generator.
///
/// No name is compared with the notes that exist: a name drawn twice names
/// the same file twice.
pub fn generate() -> (name: String)
    ensures
        is_generated_name(name@),
{
    let mut rng = rand::thread_rng();
    let mut draws: Vec<usize> = Vec::new();
    while draws.len() < NAME_LENGTH
        invariant
            draws.len() <= NAME_LENGTH,
            draws_in_range(draws@),
        decreases NAME_LENGTH - draws.len(),
    {
        let draw: usize = draw_below(&mut rng, ALPHABET_SIZE);
        draws.push(draw);
    }
    proof {
        drawn_name_is_generated(draws@);
    }
    name_from_draws(&draws)
}

} // verus!

//! Dummy payloads, which stand in for objects that cannot be handed out.

use rand::rngs::ThreadRng;
use rand::seq::IteratorRandom;
use rand::RngExt;
use vstd::prelude::*;

verus! {

/// Minimum byte size of the random dummy payload returned on a miss.
pub const MIN_DUMMY_OBJECT_SIZE: usize = 420_069;

/// Maximum byte size of the random dummy payload returned on a miss.
pub const MAX_DUMMY_OBJECT_SIZE: usize = 1_000_000;

/// The first printable ASCII character, the space.
pub const FIRST_PRINTABLE: u8 = 0x20;

/// The last printable ASCII character, the tilde.
pub const LAST_PRINTABLE: u8 = 0x7e;

/// Whether every byte of `bytes` is a printable ASCII character, the space included.
pub open spec fn is_printable(bytes: Seq<u8>) -> bool {
    forall|i: int| 0 <= i < bytes.len() ==> FIRST_PRINTABLE <= #[trigger] bytes[i] <= LAST_PRINTABLE
}

/// Whether `bytes` can be a dummy payload: printable ASCII characters, within the sizes.
pub open spec fn is_dummy_object(bytes: Seq<u8>) -> bool {
    &&& MIN_DUMMY_OBJECT_SIZE <= bytes.len() <= MAX_DUMMY_OBJECT_SIZE
    &&& is_printable(bytes)
}

/// The form of dummy payloads leaves their size and their content open: every size within
/// the limits, both included, and at every place every printable character.
pub proof fn law_dummies_vary(size: nat, index: int, byte: u8)
    requires
        MIN_DUMMY_OBJECT_SIZE <= size <= MAX_DUMMY_OBJECT_SIZE,
        0 <= index < size,
        FIRST_PRINTABLE <= byte <= LAST_PRINTABLE,
    ensures
        exists|bytes: Seq<u8>| #[trigger]
            is_dummy_object(bytes) && bytes.len() == size && bytes[index] == byte,
{
    let bytes = Seq::new(size, |i: int| byte);
    assert(is_dummy_object(bytes) && bytes[index] == byte);
}

/// The random number generator of the current thread.
#[verifier::external_type_specification]
#[verifier::external_body]
pub struct ExThreadRng(ThreadRng);

/// Calls `rand::rng`. Nothing is stated of the generator's state, which is left to chance.
#[verifier::external_body]
fn thread_rng() -> (rng: ThreadRng)
{
    rand::rng()
}

/// Calls `choose` of `IteratorRandom` on the numbers from `low` to `high`: one of them, if
/// there are any.
#[verifier::external_body]
fn choose_between(low: usize, high: usize, rng: &mut ThreadRng) -> (chosen: Option<usize>)
    requires
        high - low < usize::MAX,
    ensures
        chosen is Some <==> low <= high,
        chosen matches Some(chosen) ==> low <= chosen <= high,
{
    (low..=high).choose(rng)
}

/// Calls `random_range` of `RngExt` on the bytes from `low` to `high`: one of them.
#[verifier::external_body]
fn random_byte(low: u8, high: u8, rng: &mut ThreadRng) -> (byte: u8)
    requires
        low <= high,
    ensures
        low <= byte <= high,
{
    rng.random_range(low..=high)
}

/// Whether `size` was drawn: it is a size that `choose_between` returned for the sizes of
/// dummy payloads.
pub closed spec fn is_drawn_size(size: usize) -> bool {
    exists|rng: &mut ThreadRng| #[trigger]
        call_ensures(choose_between, (MIN_DUMMY_OBJECT_SIZE, MAX_DUMMY_OBJECT_SIZE, rng), Some(size))
}

/// Whether `byte` was drawn: it is a byte that `random_byte` returned for the printable
/// characters.
pub closed spec fn is_drawn_byte(byte: u8) -> bool {
    exists|rng: &mut ThreadRng| #[trigger]
        call_ensures(random_byte, (FIRST_PRINTABLE, LAST_PRINTABLE, rng), byte)
}

/// Drawn sizes are what `choose_between` returns for the sizes from 420,069 to 1,000,000, and
/// nothing else is.
proof fn law_drawn_sizes(size: usize)
    ensures
        is_drawn_size(size) <==> exists|rng: &mut ThreadRng| #[trigger]
            call_ensures(choose_between, (420_069, 1_000_000, rng), Some(size)),
{
}

/// Drawn bytes are what `random_byte` returns for the bytes from the space to the tilde, and
/// nothing else is.
proof fn law_drawn_bytes(byte: u8)
    ensures
        is_drawn_byte(byte) <==> exists|rng: &mut ThreadRng| #[trigger]
            call_ensures(random_byte, (0x20, 0x7e, rng), byte),
{
}

/// Draws a printable character, and hands the generator on.
fn next_printable(rng: ThreadRng) -> (drawn: (u8, ThreadRng))
    ensures
        FIRST_PRINTABLE <= drawn.0 <= LAST_PRINTABLE,
        is_drawn_byte(drawn.0),
{
    let mut rng = rng;
    let byte: u8 = random_byte(FIRST_PRINTABLE, LAST_PRINTABLE, &mut rng);
    (byte, rng)
}

/// Whether a draw of a printable character from a generator in the state `before` gave `byte`,
/// and left the generator in the state `after`.
pub closed spec fn gives_byte(before: ThreadRng, byte: u8, after: ThreadRng) -> bool {
    call_ensures(next_printable, (before,), (byte, after))
}

/// A draw gives a byte that was drawn.
pub proof fn law_draws_give_drawn_bytes(before: ThreadRng, byte: u8, after: ThreadRng)
    requires
        gives_byte(before, byte, after),
    ensures
        0x20 <= byte <= 0x7e,
        is_drawn_byte(byte),
{
}

/// A draw is a call of `next_printable`, and nothing else is.
proof fn law_draws(before: ThreadRng, byte: u8, after: ThreadRng)
    ensures
        gives_byte(before, byte, after) <==> call_ensures(next_printable, (before,), (byte, after)),
{
}

/// Whether the bytes were drawn one after the other, each with a draw of its own, while the
/// generator went through `states`.
pub open spec fn is_drawn_through(bytes: Seq<u8>, states: Seq<ThreadRng>) -> bool {
    &&& states.len() == bytes.len() + 1
    &&& forall|i: int|
        0 <= i < bytes.len() ==> gives_byte(states[i], #[trigger] bytes[i], states[i + 1])
}

/// Whether the size of `bytes` was drawn among those of dummy payloads, and the bytes were
/// drawn one after the other.
pub open spec fn is_drawn_dummy(bytes: Seq<u8>) -> bool {
    &&& is_drawn_size(bytes.len() as usize)
    &&& exists|states: Seq<ThreadRng>| #[trigger] is_drawn_through(bytes, states)
}

/// Draws `size` random printable ASCII characters, one after the other.
fn draw_printable(size: usize, rng: ThreadRng) -> (drawn: (Vec<u8>, ThreadRng))
    ensures
        drawn.0@.len() == size,
        is_printable(drawn.0@),
        exists|states: Seq<ThreadRng>|
            {
                &&& #[trigger] is_drawn_through(drawn.0@, states)
                &&& states.first() == rng
                &&& states.last() == drawn.1
            },
{
    let ghost start = rng;
    let ghost mut states = seq![rng];
    let mut rng = rng;
    let mut bytes: Vec<u8> = Vec::new();
    while bytes.len() < size
        invariant
            bytes@.len() <= size,
            is_printable(bytes@),
            is_drawn_through(bytes@, states),
            states.first() == start,
            states.last() == rng,
        decreases size - bytes@.len(),
    {
        let (byte, after) = next_printable(rng);
        bytes.push(byte);
        proof {
            states = states.push(after);
        }
        rng = after;
    }
    (bytes, rng)
}

/// Draws `size` random printable ASCII characters, one after the other.
pub fn random_printable(size: usize, rng: &mut ThreadRng) -> (bytes: Vec<u8>)
    ensures
        bytes@.len() == size,
        is_printable(bytes@),
        exists|states: Seq<ThreadRng>|
            {
                &&& #[trigger] is_drawn_through(bytes@, states)
                &&& states.first() == *old(rng)
                &&& states.last() == *final(rng)
            },
{
    let mut taken = thread_rng();
    std::mem::swap(&mut taken, rng);
    let (bytes, after) = draw_printable(size, taken);
    *rng = after;
    bytes
}

/// Generates a random dummy payload of printable ASCII characters.
pub fn generate_dummy_object() -> (bytes: Vec<u8>)
    ensures
        is_dummy_object(bytes@),
        is_drawn_dummy(bytes@),
{
    let mut rng = thread_rng();
    let size: usize = choose_between(MIN_DUMMY_OBJECT_SIZE, MAX_DUMMY_OBJECT_SIZE, &mut rng).unwrap();
    let (bytes, _) = draw_printable(size, rng);
    bytes
}

} // verus!

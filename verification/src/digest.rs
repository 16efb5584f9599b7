//! The digest that seeds the dice of one melee exchange.
//!
//! The hashing itself is done by the `wyhash` crate; this module fixes which
//! bytes are fed to it, and in what order.

use crate::components::Position;
use std::hash::Hasher;
use vstd::bytes::{spec_u32_to_le_bytes, spec_u64_to_le_bytes, u32_to_le_bytes, u64_to_le_bytes};
use vstd::prelude::*;
use wyhash::WyHash;

verus! {

#[verifier::external_type_specification]
#[verifier::external_body]
pub struct ExWyHash(WyHash);

/// The seed that a hasher was made with.
pub uninterp spec fn hasher_seed(hasher: WyHash) -> u64;

/// The byte strings that a hasher has been fed, one entry for each write, oldest first.
pub uninterp spec fn hasher_writes(hasher: WyHash) -> Seq<Seq<u8>>;

/// The digest of a hasher that was made with `seed` and then fed `writes`.
pub uninterp spec fn wyhash_digest(seed: u64, writes: Seq<Seq<u8>>) -> u64;

/// Number of bytes in a list of writes.
pub open spec fn written_len(writes: Seq<Seq<u8>>) -> nat
    decreases writes.len(),
{
    if writes.len() == 0 {
        0
    } else {
        written_len(writes.drop_last()) + writes.last().len()
    }
}

/// `WyHash::with_seed`: the new hasher holds the seed and has been fed nothing.
#[verifier::external_body]
fn hasher_with_seed(seed: u64) -> (hasher: WyHash)
    ensures
        hasher_seed(hasher) == seed,
        hasher_writes(hasher) == Seq::<Seq<u8>>::empty(),
{
    WyHash::with_seed(seed)
}

/// `Hasher::write` of a `WyHash`: the hasher folds the bytes of this one write
/// into its state and adds their number to its byte count, which is a `u64`;
/// the seed it was made with still decides the digest.
#[verifier::external_body]
fn hasher_write(hasher: &mut WyHash, bytes: &Vec<u8>)
    requires
        written_len(hasher_writes(*old(hasher))) + bytes@.len() <= u64::MAX,
    ensures
        hasher_seed(*final(hasher)) == hasher_seed(*old(hasher)),
        hasher_writes(*final(hasher)) == hasher_writes(*old(hasher)).push(bytes@),
{
    hasher.write(bytes.as_slice())
}

/// `Hasher::finish` of a `WyHash`: the digest depends on the seed and on the
/// writes made so far, and on nothing else.
#[verifier::external_body]
fn hasher_finish(hasher: &WyHash) -> (digest: u64)
    ensures
        digest == wyhash_digest(hasher_seed(*hasher), hasher_writes(*hasher)),
{
    hasher.finish()
}

/// Seed of every hasher that serves a melee exchange; other uses of the dice
/// take other seeds, so that their streams never coincide.
pub const MELEE_ATTACK: u64 = 0x4d45_4c45_4541_544b;

/// The writes that a combatant's cell adds: its `x`, then its `y`, each as four
/// little-endian bytes of the two's complement; nothing for a combatant
/// without a cell.
pub open spec fn cell_writes(cell: Option<Position>) -> Seq<Seq<u8>> {
    match cell {
        Some(p) => seq![spec_u32_to_le_bytes(p.x as u32), spec_u32_to_le_bytes(p.y as u32)],
        None => Seq::empty(),
    }
}

/// Everything that is hashed for one melee exchange, in order: the game seed
/// and the turn counter, eight little-endian bytes each, then the attacker's
/// cell and the defender's.
pub open spec fn melee_writes(
    game_seed: u64,
    turn_count: u64,
    attacker: Option<Position>,
    defender: Option<Position>,
) -> Seq<Seq<u8>> {
    seq![spec_u64_to_le_bytes(game_seed), spec_u64_to_le_bytes(turn_count)] + cell_writes(attacker)
        + cell_writes(defender)
}

/// The digest of one melee exchange.
pub open spec fn spec_melee_digest(
    game_seed: u64,
    turn_count: u64,
    attacker: Option<Position>,
    defender: Option<Position>,
) -> u64 {
    wyhash_digest(MELEE_ATTACK, melee_writes(game_seed, turn_count, attacker, defender))
}

proof fn lemma_written_len_push(writes: Seq<Seq<u8>>, bytes: Seq<u8>)
    ensures
        written_len(writes.push(bytes)) == written_len(writes) + bytes.len(),
{
    assert(writes.push(bytes).drop_last() =~= writes);
    assert(writes.push(bytes).last() == bytes);
}

/// Feeds a cell to the hasher, if there is one.
fn write_cell(hasher: &mut WyHash, cell: Option<Position>)
    requires
        written_len(hasher_writes(*old(hasher))) <= 24,
    ensures
        hasher_seed(*final(hasher)) == hasher_seed(*old(hasher)),
        hasher_writes(*final(hasher)) == hasher_writes(*old(hasher)) + cell_writes(cell),
        written_len(hasher_writes(*final(hasher))) <= written_len(hasher_writes(*old(hasher))) + 8,
{
    match cell {
        Some(p) => {
            let xs = u32_to_le_bytes(p.x as u32);
            let ys = u32_to_le_bytes(p.y as u32);
            proof {
                lemma_written_len_push(hasher_writes(*hasher), xs@);
            }
            hasher_write(hasher, &xs);
            proof {
                lemma_written_len_push(hasher_writes(*hasher), ys@);
            }
            hasher_write(hasher, &ys);
            assert(hasher_writes(*hasher) =~= hasher_writes(*old(hasher)) + cell_writes(cell));
        },
        None => {
            assert(hasher_writes(*hasher) =~= hasher_writes(*old(hasher)) + cell_writes(cell));
        },
    }
}

/// Digest of the game seed, the turn counter and the cells of the two
/// combatants. Equal inputs give equal digests, whatever was hashed before.
pub fn melee_digest(
    game_seed: u64,
    turn_count: u64,
    attacker: Option<Position>,
    defender: Option<Position>,
) -> (digest: u64)
    ensures
        digest == spec_melee_digest(game_seed, turn_count, attacker, defender),
{
    let mut hasher = hasher_with_seed(MELEE_ATTACK);
    let seed_bytes = u64_to_le_bytes(game_seed);
    let turn_bytes = u64_to_le_bytes(turn_count);
    proof {
        assert(written_len(hasher_writes(hasher)) == 0);
        lemma_written_len_push(hasher_writes(hasher), seed_bytes@);
    }
    hasher_write(&mut hasher, &seed_bytes);
    proof {
        lemma_written_len_push(hasher_writes(hasher), turn_bytes@);
    }
    hasher_write(&mut hasher, &turn_bytes);
    write_cell(&mut hasher, attacker);
    write_cell(&mut hasher, defender);
    assert(hasher_writes(hasher) =~= melee_writes(game_seed, turn_count, attacker, defender));
    hasher_finish(&hasher)
}

} // verus!

use vstd::bytes::{
    lemma_auto_spec_u128_to_from_le_bytes, lemma_auto_spec_u64_to_from_le_bytes,
    spec_u128_to_le_bytes, spec_u64_to_le_bytes,
    u128_from_le_bytes, u128_to_le_bytes, u64_from_le_bytes, u64_to_le_bytes,
};
use vstd::prelude::*;
use vstd::slice::{slice_subrange, slice_to_vec};

use crate::address::Address;

verus! {

/// A roll must lie strictly above this.
pub const ROLL_FLOOR: u8 = 2;

/// A roll must lie strictly below this.
pub const ROLL_CEILING: u8 = 96;

/// The smallest stake the game takes, in lamports.
pub const MINIMUM_BET: u64 = 1;

/// The length of the type tag that the ledger's framework puts before a
/// stored record.
pub const TAG_LEN: usize = 8;

/// The length of a stored record after its tag: the slot (8), the player
/// (32), the seed (16), the roll (1), the stake (8) and the bump (1).
pub const BET_LEN: usize = 66;

/// The room that a bet account needs: the tag and the record.
pub const BET_SPACE: usize = 74;

/// One wager that waits to be resolved.
#[derive(Clone, Copy, Debug, PartialEq, Eq)]
pub struct Bet {
    /// The slot in which the wager was placed.
    pub slot: u64,
    /// Who placed it, and may claim what it wins.
    pub player: Address,
    /// The player's nonce; with the pool it selects where the record lives.
    pub seed: u128,
    /// The threshold the player chose, strictly between 2 and 96.
    pub roll: u8,
    /// The stake in lamports, taken from the player and held by the pool.
    pub amount: u64,
    /// The bump of the record's address.
    pub bump: u8,
}

impl Bet {
    /// What holds of every record the game writes: the roll lies strictly
    /// between the floor and the ceiling, and the stake reaches the minimum.
    pub open spec fn well_formed(self) -> bool {
        &&& ROLL_FLOOR < self.roll < ROLL_CEILING
        &&& self.amount >= MINIMUM_BET
    }

    /// The bytes of the stored record after its tag: the fields in their
    /// order, each integer with its lowest byte first.
    pub open spec fn layout(self) -> Seq<u8> {
        spec_u64_to_le_bytes(self.slot) + self.player@ + spec_u128_to_le_bytes(self.seed)
            + seq![self.roll] + spec_u64_to_le_bytes(self.amount) + seq![self.bump]
    }

    /// Writes the record out as it is stored after its tag.
    pub fn to_bytes(&self) -> (bytes: Vec<u8>)
        ensures
            bytes@ == self.layout(),
            bytes@.len() == BET_LEN,
    {
        proof {
            lemma_auto_spec_u64_to_from_le_bytes();
            lemma_auto_spec_u128_to_from_le_bytes();
        }
        let mut bytes = u64_to_le_bytes(self.slot);
        let mut player = slice_to_vec(self.player.as_slice());
        bytes.append(&mut player);
        let mut seed = u128_to_le_bytes(self.seed);
        bytes.append(&mut seed);
        bytes.push(self.roll);
        let mut amount = u64_to_le_bytes(self.amount);
        bytes.append(&mut amount);
        bytes.push(self.bump);
        assert(bytes@ =~= self.layout());
        bytes
    }

    /// Reads a record from the bytes stored after its tag.
    ///
    /// Gives a record exactly when there are `BET_LEN` bytes, and then the
    /// one record that is stored as these bytes.
    pub fn from_bytes(bytes: &[u8]) -> (read: Option<Bet>)
        ensures
            read is Some <==> bytes@.len() == BET_LEN,
            read matches Some(bet) ==> bet.layout() == bytes@,
    {
        if bytes.len() != BET_LEN {
            return None;
        }
        let slot = u64_from_le_bytes(slice_subrange(bytes, 0, 8));
        let mut player: Address = [0u8; 32];
        let mut i: usize = 0;
        while i < 32
            invariant
                i <= 32,
                bytes@.len() == BET_LEN,
                forall|k: int| 0 <= k < i ==> player@[k] == bytes@[8 + k],
            decreases 32 - i,
        {
            player[i] = bytes[8 + i];
            i += 1;
        }
        let seed = u128_from_le_bytes(slice_subrange(bytes, 40, 56));
        let roll = bytes[56];
        let amount = u64_from_le_bytes(slice_subrange(bytes, 57, 65));
        let bump = bytes[65];
        let bet = Bet { slot, player, seed, roll, amount, bump };
        proof {
            lemma_auto_spec_u64_to_from_le_bytes();
            lemma_auto_spec_u128_to_from_le_bytes();
            assert(player@ =~= bytes@.subrange(8, 40));
            assert(bet.layout() =~= bytes@);
        }
        Some(bet)
    }
}

/// Two records with one layout are one record, so that a record written
/// out and read back is the record that was written.
pub proof fn lemma_layout_tells_records_apart(a: Bet, b: Bet)
    requires
        a.layout() == b.layout(),
    ensures
        a == b,
{
    lemma_auto_spec_u64_to_from_le_bytes();
    lemma_auto_spec_u128_to_from_le_bytes();
    let la = a.layout();
    let lb = b.layout();
    assert(la.subrange(0, 8) =~= spec_u64_to_le_bytes(a.slot));
    assert(lb.subrange(0, 8) =~= spec_u64_to_le_bytes(b.slot));
    assert(la.subrange(8, 40) =~= a.player@);
    assert(lb.subrange(8, 40) =~= b.player@);
    assert(a.player =~= b.player);
    assert(la.subrange(40, 56) =~= spec_u128_to_le_bytes(a.seed));
    assert(lb.subrange(40, 56) =~= spec_u128_to_le_bytes(b.seed));
    assert(la[56] == a.roll && lb[56] == b.roll);
    assert(la.subrange(57, 65) =~= spec_u64_to_le_bytes(a.amount));
    assert(lb.subrange(57, 65) =~= spec_u64_to_le_bytes(b.amount));
    assert(la[65] == a.bump && lb[65] == b.bump);
}

/// A record written out and read back is the record that was written:
/// whatever reads `bet`'s layout as `from_bytes` does, reads `bet`.
pub proof fn lemma_read_back(bet: Bet, read: Option<Bet>)
    requires
        read is Some <==> bet.layout().len() == BET_LEN,
        read matches Some(found) ==> found.layout() == bet.layout(),
    ensures
        read == Some(bet),
{
    lemma_auto_spec_u64_to_from_le_bytes();
    lemma_auto_spec_u128_to_from_le_bytes();
    assert(bet.layout().len() == BET_LEN);
    lemma_layout_tells_records_apart(read->Some_0, bet);
}

} // verus!

//! What blocks reward: the subsidy for composers, and the fee for guessers.

use vstd::arithmetic::div_mod::lemma_div_denominator;
use vstd::arithmetic::div_mod::lemma_div_is_ordered_by_denominator;
use vstd::arithmetic::power2::lemma_pow2_pos;
use vstd::arithmetic::power2::lemma_pow2_strictly_increases;
use vstd::arithmetic::power2::lemma_pow2_unfold;
use vstd::arithmetic::power2::pow2;
use vstd::prelude::*;

use crate::amount::NativeCurrencyAmount;
use crate::amount::NAU_PER_COIN;
use crate::block::codec::encode_utxo;
use crate::block::codec::utxo_code;
use crate::block::validation::BlockValidationError;
use crate::block::Block;
use crate::digest::hash_varlen;
use crate::digest::tip5_hash_varlen;
use crate::digest::Digest;
use crate::height::BlockHeight;
use crate::height::BLOCKS_PER_GENERATION;
use crate::timestamp::Timestamp;
use crate::timestamp::MILLIS_PER_YEAR;
use crate::transaction::commit;
use crate::transaction::commitment;
use crate::transaction::duplicate_removals;
use crate::transaction::liquid_utxo;
use crate::transaction::locked_utxo;
use crate::transaction::removal_views;
use crate::transaction::AdditionRecord;
use crate::transaction::MutatorSetAccumulator;
use crate::transaction::MutatorSetUpdate;
use crate::transaction::MutatorSetUpdateView;
use crate::transaction::RemovalRecord;
use crate::transaction::RemovalRecordView;
use crate::transaction::TypeScriptHashes;
use crate::transaction::Utxo;
use crate::transaction::UtxoView;

verus! {

/// The subsidy of the first blocks: 128 coins, in Neptune atomic units.
pub const INITIAL_BLOCK_SUBSIDY: i128 = 512_000_000_000_000_000_000_000_000_000_000;

/// How long half of every mining reward is locked, in milliseconds.
///
/// Half of the block subsidy, and half of the guesser fee, is liquid immediately. The other half
/// is locked for this period.
pub const MINING_REWARD_TIME_LOCK_PERIOD: u64 = 3 * MILLIS_PER_YEAR;

/// The subsidy of a block in Neptune atomic units: the initial one, halved once per generation.
pub open spec fn subsidy(height: BlockHeight) -> int {
    INITIAL_BLOCK_SUBSIDY as int / pow2(height.spec_generation() as nat) as int
}

/// What the outputs of a list consist of.
pub open spec fn utxo_views(utxos: Seq<Utxo>) -> Seq<UtxoView> {
    utxos.map_values(|u: Utxo| u@)
}

/// The digest by which an output is known to the mutator set.
pub open spec fn utxo_digest(u: UtxoView, scripts: TypeScriptHashes) -> Digest {
    tip5_hash_varlen(utxo_code(u, scripts))
}

/// The digest by which an output is known to the mutator set.
pub fn hash_utxo(u: &Utxo, scripts: &TypeScriptHashes) -> (d: Digest)
    ensures
        d == utxo_digest(u@, *scripts),
{
    hash_varlen(&encode_utxo(u, scripts))
}

/// The half of a guesser reward that is locked.
pub open spec fn locked_part(reward: NativeCurrencyAmount) -> NativeCurrencyAmount {
    NativeCurrencyAmount { nau: (reward.nau / 2) as i128 }
}

/// The rest of a guesser reward.
pub open spec fn liquid_part(reward: NativeCurrencyAmount) -> NativeCurrencyAmount {
    NativeCurrencyAmount { nau: (reward.nau - reward.nau / 2) as i128 }
}

impl Block {
    /// The most coins that can come into existence with a block of this height.
    pub fn block_subsidy(block_height: BlockHeight) -> (a: NativeCurrencyAmount)
        ensures
            a.nau == subsidy(block_height),
            0 <= a.nau <= INITIAL_BLOCK_SUBSIDY,
    {
        let mut reward = NativeCurrencyAmount::coins(128);
        let generation: u64 = block_height.get_generation();
        let mut i: u64 = 0;
        assert(pow2(0) == 1) by {
            vstd::arithmetic::power2::lemma2_to64();
        }
        while i < generation
            invariant
                0 <= i <= generation,
                generation == block_height.spec_generation(),
                reward.nau == INITIAL_BLOCK_SUBSIDY as int / pow2(i as nat) as int,
                0 <= reward.nau <= INITIAL_BLOCK_SUBSIDY,
            decreases generation - i,
        {
            let ghost before = reward.nau as int;
            reward.div_two();
            proof {
                lemma_pow2_unfold((i + 1) as nat);
                lemma_pow2_pos(i as nat);
                lemma_div_denominator(INITIAL_BLOCK_SUBSIDY as int, pow2(i as nat) as int, 2);
                assert(pow2(i as nat) as int * 2 == pow2((i + 1) as nat) as int);
            }
            i = i + 1;
            if reward.is_zero() {
                proof {
                    lemma_pow2_pos(i as nat);
                    if i < generation {
                        lemma_pow2_strictly_increases(i as nat, generation as nat);
                    }
                    lemma_div_is_ordered_by_denominator(
                        INITIAL_BLOCK_SUBSIDY as int,
                        pow2(i as nat) as int,
                        pow2(generation as nat) as int,
                    );
                    vstd::arithmetic::div_mod::lemma_div_pos_is_pos(
                        INITIAL_BLOCK_SUBSIDY as int,
                        pow2(generation as nat) as int,
                    );
                }
                return NativeCurrencyAmount::zero();
            }
        }
        reward
    }

    /// The amount rewarded to the guesser who finds a valid nonce for this block.
    pub fn total_guesser_reward(&self) -> (r: Result<NativeCurrencyAmount, BlockValidationError>)
        ensures
            r == self.spec_total_guesser_reward(),
    {
        if self.body().transaction_kernel.fee.is_negative() {
            return Err(BlockValidationError::NegativeFee);
        }
        Ok(self.body().transaction_kernel.fee)
    }

    /// The transaction fee, which must not be negative.
    pub open spec fn spec_total_guesser_reward(self) -> Result<
        NativeCurrencyAmount,
        BlockValidationError,
    > {
        let fee = self.spec_body().transaction_kernel.fee;
        if fee.nau < 0 {
            Err(BlockValidationError::NegativeFee)
        } else {
            Ok(fee)
        }
    }

    /// Whether the guesser reward of this block can be determined. The genesis block has none.
    pub open spec fn guesser_reward_is_defined(self) -> bool {
        self.spec_header().height.value == 0 || self.spec_total_guesser_reward() is Ok
    }

    /// The outputs that reward the block's guesser, all of them locked by the given script.
    pub open spec fn spec_guesser_fee_utxos(self, lock_script_hash: Digest) -> Seq<UtxoView> {
        let fee = self.spec_body().transaction_kernel.fee;
        let unlocked_from = self.spec_header().timestamp.spec_plus(
            Timestamp { millis: MINING_REWARD_TIME_LOCK_PERIOD },
        );
        if self.spec_header().height.value == 0 {
            Seq::empty()
        } else {
            seq![
                locked_utxo(lock_script_hash, locked_part(fee), unlocked_from),
                liquid_utxo(lock_script_hash, liquid_part(fee)),
            ]
        }
    }

    /// The commitments to the outputs that reward the block's guesser. As the block's digest
    /// enters, nobody can know them before the nonce is found.
    pub open spec fn spec_guesser_fee_addition_records(
        self,
        lock_script_hash: Digest,
        scripts: TypeScriptHashes,
    ) -> Seq<AdditionRecord> {
        self.spec_guesser_fee_utxos(lock_script_hash).map_values(
            |u: UtxoView|
                commitment(
                    utxo_digest(u, scripts),
                    self.spec_hash(),
                    self.spec_header().guesser_digest,
                ),
        )
    }

    /// The outputs that reward the block's guesser, taken from the transaction fee. They are
    /// locked by the script with the given hash, which is the one that asks for the preimage of
    /// the header's guesser digest.
    ///
    /// The genesis block does not have a guesser reward.
    pub fn guesser_fee_utxos(&self, lock_script_hash: Digest) -> (r: Result<
        Vec<Utxo>,
        BlockValidationError,
    >)
        ensures
            match r {
                Ok(utxos) => self.guesser_reward_is_defined() && utxo_views(utxos@)
                    == self.spec_guesser_fee_utxos(lock_script_hash),
                Err(e) => !self.guesser_reward_is_defined() && e
                    == BlockValidationError::NegativeFee,
            },
    {
        let mut utxos: Vec<Utxo> = Vec::new();
        if self.header().height.is_genesis() {
            assert(utxo_views(utxos@) =~= self.spec_guesser_fee_utxos(lock_script_hash));
            return Ok(utxos);
        }
        let total = match self.total_guesser_reward() {
            Ok(reward) => reward,
            Err(e) => {
                return Err(e);
            },
        };
        let mut value_locked = total;
        value_locked.div_two();
        let value_unlocked = NativeCurrencyAmount::from_nau(total.nau - value_locked.nau);
        let until = self.header().timestamp.plus(
            Timestamp::from_millis(MINING_REWARD_TIME_LOCK_PERIOD),
        );
        utxos.push(Utxo::new_time_locked(lock_script_hash, value_locked, until));
        utxos.push(Utxo::new_native_currency(lock_script_hash, value_unlocked));
        assert(utxo_views(utxos@) =~= self.spec_guesser_fee_utxos(lock_script_hash));
        Ok(utxos)
    }

    /// The commitments to the outputs that reward the block's guesser.
    ///
    /// The genesis block does not have any.
    pub fn guesser_fee_addition_records(
        &self,
        lock_script_hash: Digest,
        scripts: &TypeScriptHashes,
    ) -> (r: Result<Vec<AdditionRecord>, BlockValidationError>)
        ensures
            match r {
                Ok(records) => self.guesser_reward_is_defined() && records@
                    == self.spec_guesser_fee_addition_records(lock_script_hash, *scripts),
                Err(e) => !self.guesser_reward_is_defined() && e
                    == BlockValidationError::NegativeFee,
            },
    {
        let utxos: Vec<Utxo> = match self.guesser_fee_utxos(lock_script_hash) {
            Ok(utxos) => utxos,
            Err(e) => {
                return Err(e);
            },
        };
        let sender_randomness = self.hash();
        let receiver_digest = self.header().guesser_digest;
        let mut records: Vec<AdditionRecord> = Vec::new();
        let mut i: usize = 0;
        while i < utxos.len()
            invariant
                i <= utxos@.len(),
                records@.len() == i,
                sender_randomness == self.spec_hash(),
                receiver_digest == self.spec_header().guesser_digest,
                forall|j: int|
                    0 <= j < i ==> #[trigger] records@[j] == commitment(
                        utxo_digest(utxos@[j]@, *scripts),
                        sender_randomness,
                        receiver_digest,
                    ),
            decreases utxos@.len() - i,
        {
            let item = hash_utxo(&utxos[i], scripts);
            records.push(commit(&item, &sender_randomness, &receiver_digest));
            i = i + 1;
        }
        proof {
            let views = self.spec_guesser_fee_utxos(lock_script_hash);
            assert(views.len() == utxos@.len());
            assert forall|j: int| 0 <= j < views.len() implies views[j] == utxos@[j]@ by {
                assert(utxo_views(utxos@)[j] == utxos@[j]@);
            }
            assert(records@ =~= self.spec_guesser_fee_addition_records(lock_script_hash, *scripts));
        }
        Ok(records)
    }

    /// The mutator set after this block: the accumulator in the body, and the update that is to be
    /// applied to it because the body does not account for the guesser's reward.
    pub fn mutator_set_accumulator_after(
        &self,
        lock_script_hash: Digest,
        scripts: &TypeScriptHashes,
    ) -> (r: Result<(&MutatorSetAccumulator, MutatorSetUpdate), BlockValidationError>)
        ensures
            match r {
                Ok((accumulator, update)) => {
                    &&& self.guesser_reward_is_defined()
                    &&& *accumulator == self.spec_body().mutator_set_accumulator
                    &&& update@.removals == Seq::<RemovalRecordView>::empty()
                    &&& update@.additions == self.spec_guesser_fee_addition_records(
                        lock_script_hash,
                        *scripts,
                    )
                },
                Err(e) => !self.guesser_reward_is_defined() && e
                    == BlockValidationError::NegativeFee,
            },
    {
        let additions = match self.guesser_fee_addition_records(lock_script_hash, scripts) {
            Ok(additions) => additions,
            Err(e) => {
                return Err(e);
            },
        };
        let removals: Vec<RemovalRecord> = Vec::new();
        assert(removal_views(removals@) =~= Seq::<RemovalRecordView>::empty());
        Ok((&self.body().mutator_set_accumulator, MutatorSetUpdate { removals, additions }))
    }

    /// What this block changes in the mutator set: its transaction, and then the reward of its
    /// guesser.
    pub open spec fn spec_mutator_set_update(
        self,
        lock_script_hash: Digest,
        scripts: TypeScriptHashes,
    ) -> MutatorSetUpdateView {
        MutatorSetUpdateView {
            removals: removal_views(self.spec_body().transaction_kernel.inputs@),
            additions: self.spec_body().transaction_kernel.outputs@
                + self.spec_guesser_fee_addition_records(lock_script_hash, scripts),
        }
    }

    /// The mutator set update of this block, which leads from the mutator set after its
    /// predecessor to the one after the block.
    pub fn mutator_set_update(&self, lock_script_hash: Digest, scripts: &TypeScriptHashes) -> (r:
        Result<MutatorSetUpdate, BlockValidationError>)
        ensures
            match r {
                Ok(update) => self.guesser_reward_is_defined() && update@
                    == self.spec_mutator_set_update(lock_script_hash, *scripts),
                Err(e) => !self.guesser_reward_is_defined() && e
                    == BlockValidationError::NegativeFee,
            },
    {
        let mut extra = match self.guesser_fee_addition_records(lock_script_hash, scripts) {
            Ok(extra) => extra,
            Err(e) => {
                return Err(e);
            },
        };
        let kernel = &self.body().transaction_kernel;
        let mut additions: Vec<AdditionRecord> = kernel.outputs.clone();
        additions.append(&mut extra);
        Ok(MutatorSetUpdate { removals: duplicate_removals(&kernel.inputs), additions })
    }
}

/// The two parts of a guesser reward add up to it, neither is negative, and the liquid part
/// exceeds the locked one by at most one Neptune atomic unit.
pub proof fn lemma_guesser_reward_is_split_evenly(reward: NativeCurrencyAmount)
    requires
        reward.nau >= 0,
    ensures
        locked_part(reward).nau + liquid_part(reward).nau == reward.nau,
        0 <= locked_part(reward).nau <= liquid_part(reward).nau <= locked_part(reward).nau + 1,
{
}

/// Every commitment to an output that rewards the guesser is among the additions of the block's
/// mutator set update, and the transaction's own outputs come before them.
pub proof fn lemma_update_holds_guesser_records(
    block: Block,
    lock_script_hash: Digest,
    scripts: TypeScriptHashes,
)
    ensures
        forall|i: int|
            0 <= i < block.spec_guesser_fee_addition_records(lock_script_hash, scripts).len()
                ==> block.spec_mutator_set_update(lock_script_hash, scripts).additions.contains(
                #[trigger] block.spec_guesser_fee_addition_records(lock_script_hash, scripts)[i],
            ),
        block.spec_body().transaction_kernel.outputs@.is_prefix_of(
            block.spec_mutator_set_update(lock_script_hash, scripts).additions,
        ),
{
    let outputs = block.spec_body().transaction_kernel.outputs@;
    let records = block.spec_guesser_fee_addition_records(lock_script_hash, scripts);
    let additions = block.spec_mutator_set_update(lock_script_hash, scripts).additions;
    assert forall|i: int| 0 <= i < records.len() implies additions.contains(
        #[trigger] records[i],
    ) by {
        assert(additions[outputs.len() + i] == records[i]);
    }
}

/// The subsidies of the first blocks after the genesis block, up to the given height, added up.
pub open spec fn total_subsidies(height: nat) -> int
    decreases height,
{
    if height == 0 {
        0
    } else {
        total_subsidies((height - 1) as nat) + INITIAL_BLOCK_SUBSIDY as int / pow2(
            height / (BLOCKS_PER_GENERATION as nat),
        ) as int
    }
}

/// All subsidies up to some height, and what the rest of the generation and all later ones can at
/// most add, stay below twice what the first generation yields.
proof fn lemma_total_subsidies(height: nat)
    ensures
        ({
            let b = BLOCKS_PER_GENERATION as int;
            let i = INITIAL_BLOCK_SUBSIDY as int;
            let g = height / (b as nat);
            let r = height as int % b;
            total_subsidies(height) + i <= 2 * b * i - (2 * b - r - 1) * (i / pow2(g) as int)
        }),
    decreases height,
{
    let b = BLOCKS_PER_GENERATION as int;
    let i = INITIAL_BLOCK_SUBSIDY as int;
    if height == 0 {
        vstd::arithmetic::power2::lemma2_to64();
        assert(i / 1 == i);
    } else {
        let below = (height - 1) as nat;
        lemma_total_subsidies(below);
        let g = below / (b as nat);
        let r = below as int % b;
        let f = i / pow2(g) as int;
        lemma_pow2_pos(g);
        if r + 1 < b {
            assert(height / (b as nat) == g && height as int % b == r + 1) by {
                vstd::arithmetic::div_mod::lemma_fundamental_div_mod(below as int, b);
                vstd::arithmetic::div_mod::lemma_fundamental_div_mod_converse(
                    height as int,
                    b,
                    g as int,
                    r + 1,
                );
            }
            assert((2 * b - r - 1) * f == (2 * b - (r + 1) - 1) * f + f) by (nonlinear_arith);
        } else {
            assert(height / (b as nat) == g + 1 && height as int % b == 0) by {
                vstd::arithmetic::div_mod::lemma_fundamental_div_mod(below as int, b);
                vstd::arithmetic::div_mod::lemma_fundamental_div_mod_converse(
                    height as int,
                    b,
                    g as int + 1,
                    0,
                );
            }
            lemma_pow2_unfold(g + 1);
            lemma_div_denominator(i, pow2(g) as int, 2);
            let h = i / pow2(g + 1) as int;
            assert(h == f / 2);
            assert(b * f >= (2 * b) * h) by (nonlinear_arith)
                requires
                    b > 0,
                    h == f / 2,
            ;
            assert((2 * b - r - 1) * f == b * f) by (nonlinear_arith)
                requires
                    r + 1 == b,
            ;
            assert((2 * b - 0 - 1) * h + h == (2 * b) * h) by (nonlinear_arith);
        }
    }
}

/// The subsidies of all blocks up to any height never exceed 41,168,512 coins. With the premine of
/// 831,488 coins, that makes 42 million coins.
pub proof fn lemma_subsidies_are_capped(height: nat)
    ensures
        total_subsidies(height) <= 41_168_512 * NAU_PER_COIN as int,
{
    lemma_total_subsidies(height);
    let b = BLOCKS_PER_GENERATION as int;
    let i = INITIAL_BLOCK_SUBSIDY as int;
    let f = i / pow2(height / (b as nat)) as int;
    let r = height as int % b;
    lemma_pow2_pos(height / (b as nat));
    vstd::arithmetic::div_mod::lemma_div_pos_is_pos(i, pow2(height / (b as nat)) as int);
    assert((2 * b - r - 1) * f >= 0) by (nonlinear_arith)
        requires
            f >= 0,
            0 <= r < b,
    ;
}

/// The subsidy of a block is the step from the total up to its predecessor to its own total.
pub proof fn lemma_subsidy_steps(height: BlockHeight)
    requires
        height.value > 0,
    ensures
        total_subsidies(height.value as nat) == total_subsidies((height.value - 1) as nat)
            + subsidy(height),
{
}

/// Higher blocks have no higher subsidy.
pub proof fn lemma_subsidy_decreases(lower: BlockHeight, higher: BlockHeight)
    requires
        lower.value <= higher.value,
    ensures
        subsidy(higher) <= subsidy(lower),
{
    let a = lower.spec_generation() as nat;
    let b = higher.spec_generation() as nat;
    vstd::arithmetic::div_mod::lemma_div_is_ordered(
        lower.value as int,
        higher.value as int,
        BLOCKS_PER_GENERATION as int,
    );
    lemma_pow2_pos(a);
    if a < b {
        lemma_pow2_strictly_increases(a, b);
    }
    lemma_div_is_ordered_by_denominator(
        INITIAL_BLOCK_SUBSIDY as int,
        pow2(a) as int,
        pow2(b) as int,
    );
}

} // verus!

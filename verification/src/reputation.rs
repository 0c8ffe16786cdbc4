//! Weights of the reputation pallet's calls and hooks.

use crate::weight::{
    benchmarked, rocks_db, sat_add, sat_mul, DbWeightSource, RocksDb, RuntimeDbWeight, Weight,
};
use core::marker::PhantomData;
use vstd::prelude::*;

verus! {

/// Weight functions needed for the reputation pallet.
pub trait WeightInfo {
    fn update_accrual_ratio() -> Weight;

    fn set_penalty() -> Weight;

    fn update_missed_heartbeat_penalty() -> Weight;

    fn heartbeat() -> Weight;

    fn submit_network_state() -> Weight;

    fn on_initialize_no_action() -> Weight;
}

/// Writes `Reputation::AccrualRatio`.
pub open spec fn spec_update_accrual_ratio(db: RuntimeDbWeight) -> Weight {
    benchmarked(10_048_000, 0, db, 0, 1)
}

/// Reads and writes `Reputation::Penalties`.
pub open spec fn spec_set_penalty(db: RuntimeDbWeight) -> Weight {
    benchmarked(18_659_000, 3751, db, 1, 1)
}

/// Writes `Reputation::Penalties`.
pub open spec fn spec_update_missed_heartbeat_penalty(db: RuntimeDbWeight) -> Weight {
    benchmarked(11_033_000, 0, db, 0, 1)
}

/// Reads the account role, reputation, last heartbeat and accrual ratio, and
/// writes the reputation and last heartbeat.
pub open spec fn spec_heartbeat(db: RuntimeDbWeight) -> Weight {
    benchmarked(22_804_000, 4029, db, 4, 2)
}

/// Nine reads and two writes of emission and validator state.
pub open spec fn spec_submit_network_state(db: RuntimeDbWeight) -> Weight {
    benchmarked(46_207_000, 4756, db, 9, 2)
}

/// Reads `Environment::RuntimeSafeMode`.
pub open spec fn spec_on_initialize_no_action(db: RuntimeDbWeight) -> Weight {
    benchmarked(4_025_000, 1820, db, 1, 0)
}

pub fn update_accrual_ratio_weight(db: RuntimeDbWeight) -> (w: Weight)
    ensures
        w == spec_update_accrual_ratio(db),
        w.ref_time == sat_add(10_048_000, sat_mul(db.write, 1)),
        w.proof_size == 0,
        10_048_000 + db.write <= u64::MAX ==> w.ref_time == 10_048_000 + db.write,
{
    Weight::from_parts(10_048_000, 0).saturating_add(db.writes(1))
}

pub fn set_penalty_weight(db: RuntimeDbWeight) -> (w: Weight)
    ensures
        w == spec_set_penalty(db),
        w.ref_time == sat_add(sat_add(18_659_000, sat_mul(db.read, 1)), sat_mul(db.write, 1)),
        w.proof_size == 3751,
        18_659_000 + db.read + db.write <= u64::MAX ==> w.ref_time == 18_659_000 + db.read + db.write,
{
    Weight::from_parts(18_659_000, 3751).saturating_add(db.reads(1)).saturating_add(db.writes(1))
}

pub fn update_missed_heartbeat_penalty_weight(db: RuntimeDbWeight) -> (w: Weight)
    ensures
        w == spec_update_missed_heartbeat_penalty(db),
        w.ref_time == sat_add(11_033_000, sat_mul(db.write, 1)),
        w.proof_size == 0,
        11_033_000 + db.write <= u64::MAX ==> w.ref_time == 11_033_000 + db.write,
{
    Weight::from_parts(11_033_000, 0).saturating_add(db.writes(1))
}

pub fn heartbeat_weight(db: RuntimeDbWeight) -> (w: Weight)
    ensures
        w == spec_heartbeat(db),
        w.ref_time == sat_add(sat_add(22_804_000, sat_mul(db.read, 4)), sat_mul(db.write, 2)),
        w.proof_size == 4029,
        22_804_000 + 4 * db.read + 2 * db.write <= u64::MAX ==> w.ref_time == 22_804_000 + 4 * db.read + 2 * db.write,
{
    Weight::from_parts(22_804_000, 4029).saturating_add(db.reads(4)).saturating_add(db.writes(2))
}

pub fn submit_network_state_weight(db: RuntimeDbWeight) -> (w: Weight)
    ensures
        w == spec_submit_network_state(db),
        w.ref_time == sat_add(sat_add(46_207_000, sat_mul(db.read, 9)), sat_mul(db.write, 2)),
        w.proof_size == 4756,
        46_207_000 + 9 * db.read + 2 * db.write <= u64::MAX ==> w.ref_time == 46_207_000 + 9 * db.read + 2 * db.write,
{
    Weight::from_parts(46_207_000, 4756).saturating_add(db.reads(9)).saturating_add(db.writes(2))
}

pub fn on_initialize_no_action_weight(db: RuntimeDbWeight) -> (w: Weight)
    ensures
        w == spec_on_initialize_no_action(db),
        w.ref_time == sat_add(4_025_000, sat_mul(db.read, 1)),
        w.proof_size == 1820,
        4_025_000 + db.read <= u64::MAX ==> w.ref_time == 4_025_000 + db.read,
{
    Weight::from_parts(4_025_000, 1820).saturating_add(db.reads(1))
}

/// Weights for the reputation pallet, with the database weights that `T`
/// is configured with.
pub struct PalletWeight<T>(PhantomData<T>);

impl<T: DbWeightSource> WeightInfo for PalletWeight<T> {
    fn update_accrual_ratio() -> (w: Weight)
        ensures
            w == spec_update_accrual_ratio(T::spec_db_weight()),
    {
        update_accrual_ratio_weight(T::db_weight())
    }

    fn set_penalty() -> (w: Weight)
        ensures
            w == spec_set_penalty(T::spec_db_weight()),
    {
        set_penalty_weight(T::db_weight())
    }

    fn update_missed_heartbeat_penalty() -> (w: Weight)
        ensures
            w == spec_update_missed_heartbeat_penalty(T::spec_db_weight()),
    {
        update_missed_heartbeat_penalty_weight(T::db_weight())
    }

    fn heartbeat() -> (w: Weight)
        ensures
            w == spec_heartbeat(T::spec_db_weight()),
    {
        heartbeat_weight(T::db_weight())
    }

    fn submit_network_state() -> (w: Weight)
        ensures
            w == spec_submit_network_state(T::spec_db_weight()),
    {
        submit_network_state_weight(T::db_weight())
    }

    fn on_initialize_no_action() -> (w: Weight)
        ensures
            w == spec_on_initialize_no_action(T::spec_db_weight()),
    {
        on_initialize_no_action_weight(T::db_weight())
    }
}

/// The weights with the RocksDB database weights.
impl WeightInfo for () {
    fn update_accrual_ratio() -> (w: Weight)
        ensures
            w == spec_update_accrual_ratio(rocks_db()),
            w == (Weight { ref_time: 110_048_000, proof_size: 0 }),
    {
        update_accrual_ratio_weight(RocksDb::db_weight())
    }

    fn set_penalty() -> (w: Weight)
        ensures
            w == spec_set_penalty(rocks_db()),
            w == (Weight { ref_time: 143_659_000, proof_size: 3751 }),
    {
        set_penalty_weight(RocksDb::db_weight())
    }

    fn update_missed_heartbeat_penalty() -> (w: Weight)
        ensures
            w == spec_update_missed_heartbeat_penalty(rocks_db()),
            w == (Weight { ref_time: 111_033_000, proof_size: 0 }),
    {
        update_missed_heartbeat_penalty_weight(RocksDb::db_weight())
    }

    fn heartbeat() -> (w: Weight)
        ensures
            w == spec_heartbeat(rocks_db()),
            w == (Weight { ref_time: 322_804_000, proof_size: 4029 }),
    {
        heartbeat_weight(RocksDb::db_weight())
    }

    fn submit_network_state() -> (w: Weight)
        ensures
            w == spec_submit_network_state(rocks_db()),
            w == (Weight { ref_time: 471_207_000, proof_size: 4756 }),
    {
        submit_network_state_weight(RocksDb::db_weight())
    }

    fn on_initialize_no_action() -> (w: Weight)
        ensures
            w == spec_on_initialize_no_action(rocks_db()),
            w == (Weight { ref_time: 29_025_000, proof_size: 1820 }),
    {
        on_initialize_no_action_weight(RocksDb::db_weight())
    }
}

/// The update_accrual_ratio call weighs 10_048_000 ps plus 1 write at the given
/// database weights, the sum clamped at `u64::MAX`, with a proof size of 0
/// bytes; where nothing overflows, the sum is exact.
pub proof fn lemma_update_accrual_ratio_charges_its_db_accesses(db: RuntimeDbWeight)
    ensures
        spec_update_accrual_ratio(db).ref_time == sat_add(10_048_000, sat_mul(db.write, 1)),
        spec_update_accrual_ratio(db).proof_size == 0,
        10_048_000 + db.write <= u64::MAX ==> spec_update_accrual_ratio(db).ref_time == 10_048_000 + db.write,
{
}

/// The set_penalty call weighs 18_659_000 ps plus 1 read and 1 write at the given
/// database weights, the sum clamped at `u64::MAX`, with a proof size of 3751
/// bytes; where nothing overflows, the sum is exact.
pub proof fn lemma_set_penalty_charges_its_db_accesses(db: RuntimeDbWeight)
    ensures
        spec_set_penalty(db).ref_time == sat_add(sat_add(18_659_000, sat_mul(db.read, 1)), sat_mul(db.write, 1)),
        spec_set_penalty(db).proof_size == 3751,
        18_659_000 + db.read + db.write <= u64::MAX ==> spec_set_penalty(db).ref_time == 18_659_000 + db.read + db.write,
{
}

/// The update_missed_heartbeat_penalty call weighs 11_033_000 ps plus 1 write at the given
/// database weights, the sum clamped at `u64::MAX`, with a proof size of 0
/// bytes; where nothing overflows, the sum is exact.
pub proof fn lemma_update_missed_heartbeat_penalty_charges_its_db_accesses(db: RuntimeDbWeight)
    ensures
        spec_update_missed_heartbeat_penalty(db).ref_time == sat_add(11_033_000, sat_mul(db.write, 1)),
        spec_update_missed_heartbeat_penalty(db).proof_size == 0,
        11_033_000 + db.write <= u64::MAX ==> spec_update_missed_heartbeat_penalty(db).ref_time == 11_033_000 + db.write,
{
}

/// The heartbeat call weighs 22_804_000 ps plus 4 reads and 2 writes at the given
/// database weights, the sum clamped at `u64::MAX`, with a proof size of 4029
/// bytes; where nothing overflows, the sum is exact.
pub proof fn lemma_heartbeat_charges_its_db_accesses(db: RuntimeDbWeight)
    ensures
        spec_heartbeat(db).ref_time == sat_add(sat_add(22_804_000, sat_mul(db.read, 4)), sat_mul(db.write, 2)),
        spec_heartbeat(db).proof_size == 4029,
        22_804_000 + 4 * db.read + 2 * db.write <= u64::MAX ==> spec_heartbeat(db).ref_time == 22_804_000 + 4 * db.read + 2 * db.write,
{
}

/// The submit_network_state hook weighs 46_207_000 ps plus 9 reads and 2 writes at the given
/// database weights, the sum clamped at `u64::MAX`, with a proof size of 4756
/// bytes; where nothing overflows, the sum is exact.
pub proof fn lemma_submit_network_state_charges_its_db_accesses(db: RuntimeDbWeight)
    ensures
        spec_submit_network_state(db).ref_time == sat_add(sat_add(46_207_000, sat_mul(db.read, 9)), sat_mul(db.write, 2)),
        spec_submit_network_state(db).proof_size == 4756,
        46_207_000 + 9 * db.read + 2 * db.write <= u64::MAX ==> spec_submit_network_state(db).ref_time == 46_207_000 + 9 * db.read + 2 * db.write,
{
}

/// The on_initialize hook when it has nothing to do weighs 4_025_000 ps plus 1 read at the given
/// database weights, the sum clamped at `u64::MAX`, with a proof size of 1820
/// bytes; where nothing overflows, the sum is exact.
pub proof fn lemma_on_initialize_no_action_charges_its_db_accesses(db: RuntimeDbWeight)
    ensures
        spec_on_initialize_no_action(db).ref_time == sat_add(4_025_000, sat_mul(db.read, 1)),
        spec_on_initialize_no_action(db).proof_size == 1820,
        4_025_000 + db.read <= u64::MAX ==> spec_on_initialize_no_action(db).ref_time == 4_025_000 + db.read,
{
}

} // verus!

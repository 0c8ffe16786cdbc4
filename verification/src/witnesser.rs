//! Weights of the witnesser pallet's calls and hooks.

use crate::weight::{
    benchmarked, rocks_db, sat_add, sat_mul, saturating_mul_u64, DbWeightSource, RocksDb,
    RuntimeDbWeight, Weight,
};
use core::marker::PhantomData;
use vstd::prelude::*;

verus! {

/// Weight functions needed for the witnesser pallet.
pub trait WeightInfo {
    fn witness_at_epoch() -> Weight;

    /// The weight of removing `n` stored votes; benchmarked for `n` in
    /// `[1, 255]`.
    fn remove_storage_items(n: u32) -> Weight;

    fn on_idle_with_nothing_to_remove() -> Weight;
}

/// Ten reads (authorities, votes, executed calls, extra call data, safe mode)
/// and two writes.
pub open spec fn spec_witness_at_epoch(db: RuntimeDbWeight) -> Weight {
    benchmarked(50_879_000, 7234, db, 10, 2)
}

/// A measured base of 3_503_846 ps and 1_149 bytes, 1_052_999 ps and 2_513
/// bytes for each of the `n` votes, and a read and a write for each of them.
pub open spec fn spec_remove_storage_items(db: RuntimeDbWeight, n: u32) -> Weight {
    benchmarked(
        (3_503_846 + 1_052_999 * n) as u64,
        (1149 + 2513 * n) as u64,
        db,
        n as u64,
        n as u64,
    )
}

/// Three reads and one write of the dispatch queue and the epochs to cull.
pub open spec fn spec_on_idle_with_nothing_to_remove(db: RuntimeDbWeight) -> Weight {
    benchmarked(9_974_000, 1957, db, 3, 1)
}

pub fn witness_at_epoch_weight(db: RuntimeDbWeight) -> (w: Weight)
    ensures
        w == spec_witness_at_epoch(db),
        w.ref_time == sat_add(sat_add(50_879_000, sat_mul(db.read, 10)), sat_mul(db.write, 2)),
        w.proof_size == 7234,
        50_879_000 + 10 * db.read + 2 * db.write <= u64::MAX ==> w.ref_time == 50_879_000 + 10 * db.read + 2 * db.write,
{
    Weight::from_parts(50_879_000, 7234).saturating_add(db.reads(10)).saturating_add(db.writes(2))
}

pub fn remove_storage_items_weight(db: RuntimeDbWeight, n: u32) -> (w: Weight)
    ensures
        w == spec_remove_storage_items(db, n),
        w.ref_time == sat_add(
            sat_add((3_503_846 + 1_052_999 * n) as u64, sat_mul(db.read, n as u64)),
            sat_mul(db.write, n as u64),
        ),
        w.proof_size == 1149 + 2513 * n,
        3_503_846 + 1_052_999 * n + db.read * n + db.write * n <= u64::MAX ==> w.ref_time
            == 3_503_846 + 1_052_999 * n + db.read * n + db.write * n,
{
    proof {
        lemma_remove_storage_items_charges_its_db_accesses(db, n);
    }
    let n: u64 = n as u64;
    Weight::from_parts(3_503_846, 1149).saturating_add(
        Weight::from_parts(1_052_999, 0).saturating_mul(n),
    ).saturating_add(db.reads(saturating_mul_u64(1, n))).saturating_add(
        db.writes(saturating_mul_u64(1, n)),
    ).saturating_add(Weight::from_parts(0, 2513).saturating_mul(n))
}

pub fn on_idle_with_nothing_to_remove_weight(db: RuntimeDbWeight) -> (w: Weight)
    ensures
        w == spec_on_idle_with_nothing_to_remove(db),
        w.ref_time == sat_add(sat_add(9_974_000, sat_mul(db.read, 3)), sat_mul(db.write, 1)),
        w.proof_size == 1957,
        9_974_000 + 3 * db.read + db.write <= u64::MAX ==> w.ref_time == 9_974_000 + 3 * db.read + db.write,
{
    Weight::from_parts(9_974_000, 1957).saturating_add(db.reads(3)).saturating_add(db.writes(1))
}

/// Weights for the witnesser pallet, with the database weights that `T` is
/// configured with.
pub struct PalletWeight<T>(PhantomData<T>);

impl<T: DbWeightSource> WeightInfo for PalletWeight<T> {
    fn witness_at_epoch() -> (w: Weight)
        ensures
            w == spec_witness_at_epoch(T::spec_db_weight()),
    {
        witness_at_epoch_weight(T::db_weight())
    }

    fn remove_storage_items(n: u32) -> (w: Weight)
        ensures
            w == spec_remove_storage_items(T::spec_db_weight(), n),
    {
        remove_storage_items_weight(T::db_weight(), n)
    }

    fn on_idle_with_nothing_to_remove() -> (w: Weight)
        ensures
            w == spec_on_idle_with_nothing_to_remove(T::spec_db_weight()),
    {
        on_idle_with_nothing_to_remove_weight(T::db_weight())
    }
}

/// The weights with the RocksDB database weights.
impl WeightInfo for () {
    fn witness_at_epoch() -> (w: Weight)
        ensures
            w == spec_witness_at_epoch(rocks_db()),
            w == (Weight { ref_time: 500_879_000, proof_size: 7234 }),
    {
        witness_at_epoch_weight(RocksDb::db_weight())
    }

    fn remove_storage_items(n: u32) -> (w: Weight)
        ensures
            w == spec_remove_storage_items(rocks_db(), n),
            w.ref_time == 3_503_846 + 126_052_999 * n,
            w.proof_size == 1149 + 2513 * n,
    {
        remove_storage_items_weight(RocksDb::db_weight(), n)
    }

    fn on_idle_with_nothing_to_remove() -> (w: Weight)
        ensures
            w == spec_on_idle_with_nothing_to_remove(rocks_db()),
            w == (Weight { ref_time: 184_974_000, proof_size: 1957 }),
    {
        on_idle_with_nothing_to_remove_weight(RocksDb::db_weight())
    }
}

/// Removing more votes never weighs less: for any database weights, the
/// weight of `remove_storage_items` does not decrease in either part as `n`
/// grows.
pub proof fn lemma_remove_storage_items_monotonic(db: RuntimeDbWeight, n1: u32, n2: u32)
    requires
        n1 <= n2,
    ensures
        spec_remove_storage_items(db, n1).ref_time <= spec_remove_storage_items(
            db,
            n2,
        ).ref_time,
        spec_remove_storage_items(db, n1).proof_size <= spec_remove_storage_items(
            db,
            n2,
        ).proof_size,
{
    assert(db.read * n1 <= db.read * n2) by (nonlinear_arith)
        requires
            n1 <= n2,
    ;
    assert(db.write * n1 <= db.write * n2) by (nonlinear_arith)
        requires
            n1 <= n2,
    ;
    assert(sat_mul(db.read, n1 as u64) <= sat_mul(db.read, n2 as u64));
    assert(sat_mul(db.write, n1 as u64) <= sat_mul(db.write, n2 as u64));
}

/// The witness_at_epoch call weighs 50_879_000 ps plus 10 reads and 2 writes at the given
/// database weights, the sum clamped at `u64::MAX`, with a proof size of 7234
/// bytes; where nothing overflows, the sum is exact.
pub proof fn lemma_witness_at_epoch_charges_its_db_accesses(db: RuntimeDbWeight)
    ensures
        spec_witness_at_epoch(db).ref_time == sat_add(sat_add(50_879_000, sat_mul(db.read, 10)), sat_mul(db.write, 2)),
        spec_witness_at_epoch(db).proof_size == 7234,
        50_879_000 + 10 * db.read + 2 * db.write <= u64::MAX ==> spec_witness_at_epoch(db).ref_time == 50_879_000 + 10 * db.read + 2 * db.write,
{
}

/// The on_idle hook with nothing to remove weighs 9_974_000 ps plus 3 reads and 1 write at the given
/// database weights, the sum clamped at `u64::MAX`, with a proof size of 1957
/// bytes; where nothing overflows, the sum is exact.
pub proof fn lemma_on_idle_with_nothing_to_remove_charges_its_db_accesses(db: RuntimeDbWeight)
    ensures
        spec_on_idle_with_nothing_to_remove(db).ref_time == sat_add(sat_add(9_974_000, sat_mul(db.read, 3)), sat_mul(db.write, 1)),
        spec_on_idle_with_nothing_to_remove(db).proof_size == 1957,
        9_974_000 + 3 * db.read + db.write <= u64::MAX ==> spec_on_idle_with_nothing_to_remove(db).ref_time == 9_974_000 + 3 * db.read + db.write,
{
}

/// Removing `n` votes weighs 3_503_846 ps and 1_149 bytes, plus 1_052_999 ps
/// and 2_513 bytes, one read and one write for each vote, the reference time
/// clamped at `u64::MAX`; where nothing overflows, the sum is exact.
pub proof fn lemma_remove_storage_items_charges_its_db_accesses(db: RuntimeDbWeight, n: u32)
    ensures
        spec_remove_storage_items(db, n).ref_time == sat_add(
            sat_add((3_503_846 + 1_052_999 * n) as u64, sat_mul(db.read, n as u64)),
            sat_mul(db.write, n as u64),
        ),
        spec_remove_storage_items(db, n).proof_size == 1149 + 2513 * n,
        3_503_846 + 1_052_999 * n + db.read * n + db.write * n <= u64::MAX ==> spec_remove_storage_items(
            db,
            n,
        ).ref_time == 3_503_846 + 1_052_999 * n + db.read * n + db.write * n,
{
    assert(0 <= db.read * n && 0 <= db.write * n) by (nonlinear_arith);
}

} // verus!

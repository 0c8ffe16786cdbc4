//! Weights of the relayer pallet's calls.

use crate::weight::{
    benchmarked, rocks_db, sat_add, sat_mul, DbWeightSource, RocksDb, RuntimeDbWeight, Weight,
};
use core::marker::PhantomData;
use vstd::prelude::*;

verus! {

/// Weight functions needed for the relayer pallet.
pub trait WeightInfo {
    fn request_swap_intent() -> Weight;
}

/// Reads the index counter and the vault contract address; writes the index
/// counter and the swap intent. The benchmark measured reference time only.
pub open spec fn spec_request_swap_intent(db: RuntimeDbWeight) -> Weight {
    benchmarked(31_000_000, 0, db, 2, 2)
}

pub fn request_swap_intent_weight(db: RuntimeDbWeight) -> (w: Weight)
    ensures
        w == spec_request_swap_intent(db),
        w.ref_time == sat_add(sat_add(31_000_000, sat_mul(db.read, 2)), sat_mul(db.write, 2)),
        w.proof_size == 0,
        31_000_000 + 2 * db.read + 2 * db.write <= u64::MAX ==> w.ref_time == 31_000_000 + 2 * db.read + 2 * db.write,
{
    Weight::from_parts(31_000_000, 0).saturating_add(db.reads(2)).saturating_add(db.writes(2))
}

/// Weights for the relayer pallet, with the database weights that `T` is
/// configured with.
pub struct PalletWeight<T>(PhantomData<T>);

impl<T: DbWeightSource> WeightInfo for PalletWeight<T> {
    fn request_swap_intent() -> (w: Weight)
        ensures
            w == spec_request_swap_intent(T::spec_db_weight()),
    {
        request_swap_intent_weight(T::db_weight())
    }
}

/// The weights with the RocksDB database weights.
impl WeightInfo for () {
    fn request_swap_intent() -> (w: Weight)
        ensures
            w == spec_request_swap_intent(rocks_db()),
            w == (Weight { ref_time: 281_000_000, proof_size: 0 }),
    {
        request_swap_intent_weight(RocksDb::db_weight())
    }
}

/// The request_swap_intent call weighs 31_000_000 ps plus 2 reads and 2 writes at the given
/// database weights, the sum clamped at `u64::MAX`, with a proof size of 0
/// bytes; where nothing overflows, the sum is exact.
pub proof fn lemma_request_swap_intent_charges_its_db_accesses(db: RuntimeDbWeight)
    ensures
        spec_request_swap_intent(db).ref_time == sat_add(sat_add(31_000_000, sat_mul(db.read, 2)), sat_mul(db.write, 2)),
        spec_request_swap_intent(db).proof_size == 0,
        31_000_000 + 2 * db.read + 2 * db.write <= u64::MAX ==> spec_request_swap_intent(db).ref_time == 31_000_000 + 2 * db.read + 2 * db.write,
{
}

} // verus!

//! The two-dimensional weight of a dispatch and the weights of database
//! accesses, computed through `frame_support`.

use frame_support::traits::Get;
use vstd::prelude::*;

verus! {

/// `a + b`, clamped at `u64::MAX`.
pub open spec fn sat_add(a: u64, b: u64) -> u64 {
    if a + b > u64::MAX {
        u64::MAX
    } else {
        (a + b) as u64
    }
}

/// `a * b`, clamped at `u64::MAX`.
pub open spec fn sat_mul(a: u64, b: u64) -> u64 {
    if a * b > u64::MAX {
        u64::MAX
    } else {
        (a * b) as u64
    }
}

/// The weight of a dispatch: computation time in picoseconds and the size of
/// the storage proof in bytes.
#[derive(Clone, Copy, Debug, PartialEq, Eq, Structural)]
pub struct Weight {
    pub ref_time: u64,
    pub proof_size: u64,
}

/// The reference time that one database read and one database write take.
#[derive(Clone, Copy, Debug, PartialEq, Eq, Structural)]
pub struct RuntimeDbWeight {
    pub read: u64,
    pub write: u64,
}

impl Weight {
    /// Both parts added and clamped at `u64::MAX`, part by part.
    pub open spec fn spec_saturating_add(self, rhs: Weight) -> Weight {
        Weight {
            ref_time: sat_add(self.ref_time, rhs.ref_time),
            proof_size: sat_add(self.proof_size, rhs.proof_size),
        }
    }

    /// Both parts multiplied by `scalar` and clamped at `u64::MAX`.
    pub open spec fn spec_saturating_mul(self, scalar: u64) -> Weight {
        Weight {
            ref_time: sat_mul(self.ref_time, scalar),
            proof_size: sat_mul(self.proof_size, scalar),
        }
    }

    pub fn from_parts(ref_time: u64, proof_size: u64) -> (w: Weight)
        ensures
            w.ref_time == ref_time,
            w.proof_size == proof_size,
    {
        Weight { ref_time, proof_size }
    }

    pub fn saturating_add(self, rhs: Weight) -> (w: Weight)
        ensures
            w == self.spec_saturating_add(rhs),
    {
        frame_weight_saturating_add(self, rhs)
    }

    pub fn saturating_mul(self, scalar: u64) -> (w: Weight)
        ensures
            w == self.spec_saturating_mul(scalar),
    {
        frame_weight_saturating_mul(self, scalar)
    }
}

/// The weight of `r` database reads.
pub open spec fn db_reads(db: RuntimeDbWeight, r: u64) -> Weight {
    Weight { ref_time: sat_mul(db.read, r), proof_size: 0 }
}

/// The weight of `w` database writes.
pub open spec fn db_writes(db: RuntimeDbWeight, w: u64) -> Weight {
    Weight { ref_time: sat_mul(db.write, w), proof_size: 0 }
}

/// A benchmarked weight: the measured reference time `base` plus `reads`
/// database reads and `writes` database writes, each sum clamped at
/// `u64::MAX`, with the measured proof size.
pub open spec fn benchmarked(
    base: u64,
    proof_size: u64,
    db: RuntimeDbWeight,
    reads: u64,
    writes: u64,
) -> Weight {
    Weight {
        ref_time: sat_add(sat_add(base, sat_mul(db.read, reads)), sat_mul(db.write, writes)),
        proof_size,
    }
}

/// A slower database never makes a benchmarked weight lighter: with read
/// and write weights at least as large, the reference time is at least as
/// large and the proof size is the same.
pub proof fn lemma_benchmarked_monotonic_in_db(
    base: u64,
    proof_size: u64,
    slow: RuntimeDbWeight,
    fast: RuntimeDbWeight,
    reads: u64,
    writes: u64,
)
    requires
        fast.read <= slow.read,
        fast.write <= slow.write,
    ensures
        benchmarked(base, proof_size, fast, reads, writes).ref_time <= benchmarked(
            base,
            proof_size,
            slow,
            reads,
            writes,
        ).ref_time,
        benchmarked(base, proof_size, fast, reads, writes).proof_size == benchmarked(
            base,
            proof_size,
            slow,
            reads,
            writes,
        ).proof_size,
{
    assert(fast.read * reads <= slow.read * reads) by (nonlinear_arith)
        requires
            fast.read <= slow.read,
    ;
    assert(fast.write * writes <= slow.write * writes) by (nonlinear_arith)
        requires
            fast.write <= slow.write,
    ;
}

/// The database weights of RocksDB: 25 µs a read, 100 µs a write.
pub open spec fn rocks_db() -> RuntimeDbWeight {
    RuntimeDbWeight { read: 25_000_000, write: 100_000_000 }
}

impl RuntimeDbWeight {
    pub fn reads(self, r: u64) -> (w: Weight)
        ensures
            w == db_reads(self, r),
    {
        frame_db_reads(self, r)
    }

    pub fn writes(self, w: u64) -> (weight: Weight)
        ensures
            weight == db_writes(self, w),
    {
        frame_db_writes(self, w)
    }
}

/// `x * y`, clamped at `u64::MAX`, as `u64::saturating_mul` computes it.
pub fn saturating_mul_u64(x: u64, y: u64) -> (p: u64)
    ensures
        p == sat_mul(x, y),
{
    match x.checked_mul(y) {
        Some(p) => p,
        None => u64::MAX,
    }
}

/// The source of the database weights that a runtime is configured with.
/// They are a constant of the configuration: every call gives the same.
pub trait DbWeightSource {
    spec fn spec_db_weight() -> RuntimeDbWeight;

    fn db_weight() -> (db: RuntimeDbWeight)
        ensures
            db == Self::spec_db_weight(),
    ;
}

/// The RocksDB database weights that `frame_support` ships.
pub struct RocksDb;

impl DbWeightSource for RocksDb {
    open spec fn spec_db_weight() -> RuntimeDbWeight {
        rocks_db()
    }

    fn db_weight() -> (db: RuntimeDbWeight)
        ensures
            db == rocks_db(),
    {
        rocks_db_weight()
    }
}

/// Calls `frame_support::weights::Weight::saturating_add`, which adds the
/// reference times and the proof sizes, each clamped at `u64::MAX`.
#[verifier::external_body]
fn frame_weight_saturating_add(a: Weight, b: Weight) -> (w: Weight)
    ensures
        w == a.spec_saturating_add(b),
{
    let x = frame_support::weights::Weight::from_parts(a.ref_time, a.proof_size);
    let y = frame_support::weights::Weight::from_parts(b.ref_time, b.proof_size);
    let r = x.saturating_add(y);
    Weight { ref_time: r.ref_time(), proof_size: r.proof_size() }
}

/// Calls `frame_support::weights::Weight::saturating_mul`, which multiplies
/// the reference time and the proof size by the scalar, each clamped at
/// `u64::MAX`.
#[verifier::external_body]
fn frame_weight_saturating_mul(a: Weight, scalar: u64) -> (w: Weight)
    ensures
        w == a.spec_saturating_mul(scalar),
{
    let r = frame_support::weights::Weight::from_parts(a.ref_time, a.proof_size).saturating_mul(
        scalar,
    );
    Weight { ref_time: r.ref_time(), proof_size: r.proof_size() }
}

/// Calls `frame_support::weights::RuntimeDbWeight::reads`, whose reference
/// time is the read weight times `r`, clamped at `u64::MAX`, and whose proof
/// size is zero.
#[verifier::external_body]
fn frame_db_reads(db: RuntimeDbWeight, r: u64) -> (w: Weight)
    ensures
        w == db_reads(db, r),
{
    let d = frame_support::weights::RuntimeDbWeight { read: db.read, write: db.write };
    let x = d.reads(r);
    Weight { ref_time: x.ref_time(), proof_size: x.proof_size() }
}

/// Calls `frame_support::weights::RuntimeDbWeight::writes`, whose reference
/// time is the write weight times `w`, clamped at `u64::MAX`, and whose proof
/// size is zero.
#[verifier::external_body]
fn frame_db_writes(db: RuntimeDbWeight, w: u64) -> (weight: Weight)
    ensures
        weight == db_writes(db, w),
{
    let d = frame_support::weights::RuntimeDbWeight { read: db.read, write: db.write };
    let x = d.writes(w);
    Weight { ref_time: x.ref_time(), proof_size: x.proof_size() }
}

/// Reads `frame_support::weights::constants::RocksDbWeight`, which its source
/// defines as 25_000 and 100_000 times `WEIGHT_REF_TIME_PER_NANOS` (1_000)
/// for a read and a write.
#[verifier::external_body]
fn rocks_db_weight() -> (db: RuntimeDbWeight)
    ensures
        db == rocks_db(),
{
    let d = frame_support::weights::constants::RocksDbWeight::get();
    RuntimeDbWeight { read: d.read, write: d.write }
}

} // verus!

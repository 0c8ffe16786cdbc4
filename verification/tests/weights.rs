use cf_state_chain::weight::{saturating_mul_u64, DbWeightSource, RocksDb, RuntimeDbWeight, Weight};
use cf_state_chain::reputation::WeightInfo as ReputationWeightInfo;
use cf_state_chain::witnesser::WeightInfo as WitnesserWeightInfo;
use cf_state_chain::{relayer, reputation, witnesser};

struct SlowDb;

impl DbWeightSource for SlowDb {
	fn spec_db_weight() -> RuntimeDbWeight {
		Self::db_weight()
	}

	fn db_weight() -> RuntimeDbWeight {
		RuntimeDbWeight { read: u64::MAX / 2, write: 7 }
	}
}

fn w(ref_time: u64, proof_size: u64) -> Weight {
	Weight { ref_time, proof_size }
}

#[test]
fn rocks_db_weights_are_25_and_100_microseconds() {
	assert_eq!(RocksDb::db_weight(), RuntimeDbWeight { read: 25_000_000, write: 100_000_000 });
}

#[test]
fn weight_saturating_add_adds_and_clamps_each_part() {
	assert_eq!(w(1, 2).saturating_add(w(10, 20)), w(11, 22));
	assert_eq!(w(u64::MAX - 1, 5).saturating_add(w(3, u64::MAX)), w(u64::MAX, u64::MAX));
}

#[test]
fn weight_saturating_mul_multiplies_and_clamps_each_part() {
	assert_eq!(w(3, 4).saturating_mul(5), w(15, 20));
	assert_eq!(w(u64::MAX / 2 + 1, 1).saturating_mul(2), w(u64::MAX, 2));
	assert_eq!(w(3, 4).saturating_mul(0), w(0, 0));
}

#[test]
fn db_reads_and_writes_weigh_reference_time_only() {
	let db = RuntimeDbWeight { read: 3, write: 5 };
	assert_eq!(db.reads(4), w(12, 0));
	assert_eq!(db.writes(4), w(20, 0));
	assert_eq!(RuntimeDbWeight { read: u64::MAX, write: 1 }.reads(2), w(u64::MAX, 0));
}

#[test]
fn u64_saturating_mul_clamps() {
	assert_eq!(saturating_mul_u64(1, 42), 42);
	assert_eq!(saturating_mul_u64(6, 7), 42);
	assert_eq!(saturating_mul_u64(u64::MAX, 2), u64::MAX);
}

#[test]
fn relayer_weights_with_rocks_db() {
	assert_eq!(<() as relayer::WeightInfo>::request_swap_intent(), w(281_000_000, 0));
	assert_eq!(
		<relayer::PalletWeight<RocksDb> as relayer::WeightInfo>::request_swap_intent(),
		w(281_000_000, 0)
	);
}

#[test]
fn reputation_weights_with_rocks_db() {
	assert_eq!(<()>::update_accrual_ratio(), w(110_048_000, 0));
	assert_eq!(<()>::set_penalty(), w(143_659_000, 3751));
	assert_eq!(<()>::update_missed_heartbeat_penalty(), w(111_033_000, 0));
	assert_eq!(<()>::heartbeat(), w(322_804_000, 4029));
	assert_eq!(<()>::submit_network_state(), w(471_207_000, 4756));
	assert_eq!(<()>::on_initialize_no_action(), w(29_025_000, 1820));
}

#[test]
fn reputation_weights_with_other_db_weights() {
	type P = reputation::PalletWeight<SlowDb>;
	let half = u64::MAX / 2;
	assert_eq!(P::update_accrual_ratio(), w(10_048_007, 0));
	assert_eq!(P::set_penalty(), w(18_659_000 + half + 7, 3751));
	assert_eq!(P::heartbeat(), w(u64::MAX, 4029));
	assert_eq!(P::on_initialize_no_action(), w(4_025_000 + half, 1820));
}

#[test]
fn witnesser_weights_with_rocks_db() {
	assert_eq!(<()>::witness_at_epoch(), w(500_879_000, 7234));
	assert_eq!(<()>::on_idle_with_nothing_to_remove(), w(184_974_000, 1957));
	assert_eq!(<()>::remove_storage_items(0), w(3_503_846, 1149));
	assert_eq!(<()>::remove_storage_items(1), w(129_556_845, 3662));
	assert_eq!(<()>::remove_storage_items(255), w(3_503_846 + 126_052_999 * 255, 1149 + 2513 * 255));
	assert_eq!(
		<()>::remove_storage_items(u32::MAX),
		w(3_503_846 + 126_052_999 * u32::MAX as u64, 1149 + 2513 * u32::MAX as u64)
	);
}

#[test]
fn witnesser_remove_storage_items_saturates_with_slow_db() {
	type P = witnesser::PalletWeight<SlowDb>;
	assert_eq!(P::remove_storage_items(1), w(3_503_846 + 1_052_999 + u64::MAX / 2 + 7, 3662));
	assert_eq!(P::remove_storage_items(3), w(u64::MAX, 1149 + 2513 * 3));
}

#[test]
fn remove_storage_items_grows_with_n() {
	let mut previous = <()>::remove_storage_items(0);
	for n in [1u32, 2, 10, 255, 1_000, u32::MAX] {
		let next = <()>::remove_storage_items(n);
		assert!(previous.ref_time <= next.ref_time && previous.proof_size <= next.proof_size);
		previous = next;
	}
}

#[test]
fn slower_database_never_makes_a_call_lighter() {
	let fast = <()>::submit_network_state();
	let slow = <reputation::PalletWeight<SlowDb>>::submit_network_state();
	assert!(fast.ref_time <= slow.ref_time);
	assert_eq!(fast.proof_size, slow.proof_size);
}

#[test]
fn pallet_weights_with_rocks_db_equal_the_defaults() {
	type Rp = reputation::PalletWeight<RocksDb>;
	type Wt = witnesser::PalletWeight<RocksDb>;
	assert_eq!(Rp::update_accrual_ratio(), <()>::update_accrual_ratio());
	assert_eq!(Rp::set_penalty(), <()>::set_penalty());
	assert_eq!(Rp::update_missed_heartbeat_penalty(), <()>::update_missed_heartbeat_penalty());
	assert_eq!(Rp::heartbeat(), <()>::heartbeat());
	assert_eq!(Rp::submit_network_state(), <()>::submit_network_state());
	assert_eq!(Rp::on_initialize_no_action(), <()>::on_initialize_no_action());
	assert_eq!(Wt::witness_at_epoch(), <()>::witness_at_epoch());
	assert_eq!(Wt::on_idle_with_nothing_to_remove(), <()>::on_idle_with_nothing_to_remove());
	for n in [0u32, 1, 255, u32::MAX] {
		assert_eq!(Wt::remove_storage_items(n), <()>::remove_storage_items(n));
	}
}

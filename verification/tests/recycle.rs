use cf_state_chain::ingress_egress::{expect_size_of_address_pool, AddressPoolSizeMismatch, IngressEgress};
use sp_core::H160;

#[test]
fn test_default_empty_amounts() {
	let mut channel_recycle_blocks: Vec<(u64, H160)> = Default::default();
	let can_recycle = IngressEgress::can_and_cannot_recycle(&mut channel_recycle_blocks, 0, 0);

	assert_eq!(can_recycle, vec![]);
	assert_eq!(channel_recycle_blocks, vec![]);
}

#[test]
fn test_cannot_recycle_if_block_number_less_than_current_height() {
	let maximum_recyclable_number = 2;
	let mut channel_recycle_blocks =
		(1u64..5).map(|i| (i, H160::from([i as u8; 20]))).collect::<Vec<_>>();
	let current_block_height = 3;

	let can_recycle = IngressEgress::can_and_cannot_recycle(
		&mut channel_recycle_blocks,
		maximum_recyclable_number,
		current_block_height,
	);

	assert_eq!(can_recycle, vec![H160::from([1u8; 20]), H160::from([2; 20])]);
	assert_eq!(
		channel_recycle_blocks,
		vec![(3, H160::from([3u8; 20])), (4, H160::from([4u8; 20]))]
	);
}

// Same test as above, but lower maximum recyclable number
#[test]
fn test_can_only_recycle_up_to_max_amount() {
	let maximum_recyclable_number = 1;
	let mut channel_recycle_blocks =
		(1u64..5).map(|i| (i, H160::from([i as u8; 20]))).collect::<Vec<_>>();
	let current_block_height = 3;

	let can_recycle = IngressEgress::can_and_cannot_recycle(
		&mut channel_recycle_blocks,
		maximum_recyclable_number,
		current_block_height,
	);

	assert_eq!(can_recycle, vec![H160::from([1u8; 20])]);
	assert_eq!(
		channel_recycle_blocks,
		vec![(2, H160::from([2; 20])), (3, H160::from([3u8; 20])), (4, H160::from([4u8; 20]))]
	);
}

#[test]
fn none_can_be_recycled_due_to_low_block_number() {
	let maximum_recyclable_number = 4;
	let mut channel_recycle_blocks =
		(1u64..5).map(|i| (i, H160::from([i as u8; 20]))).collect::<Vec<_>>();
	let current_block_height = 0;

	let can_recycle = IngressEgress::can_and_cannot_recycle(
		&mut channel_recycle_blocks,
		maximum_recyclable_number,
		current_block_height,
	);

	assert!(can_recycle.is_empty());
	assert_eq!(
		channel_recycle_blocks,
		vec![
			(1, H160::from([1u8; 20])),
			(2, H160::from([2; 20])),
			(3, H160::from([3; 20])),
			(4, H160::from([4; 20]))
		]
	);
}

#[test]
fn all_can_be_recycled() {
	let maximum_recyclable_number = 4;
	let mut channel_recycle_blocks =
		(1u64..5).map(|i| (i, H160::from([i as u8; 20]))).collect::<Vec<_>>();
	let current_block_height = 4;

	let can_recycle = IngressEgress::can_and_cannot_recycle(
		&mut channel_recycle_blocks,
		maximum_recyclable_number,
		current_block_height,
	);

	assert_eq!(
		can_recycle,
		vec![H160::from([1u8; 20]), H160::from([2; 20]), H160::from([3; 20]), H160::from([4; 20])]
	);
	assert!(channel_recycle_blocks.is_empty());
}

#[test]
fn recycling_stops_at_first_channel_not_yet_expired() {
	// The third entry is not yet expired, so the fourth stays though its block
	// is reached.
	let mut blocks = vec![(1u64, 'a'), (2, 'b'), (9, 'c'), (3, 'd')];
	let can_recycle = IngressEgress::can_and_cannot_recycle(&mut blocks, 10, 5);
	assert_eq!(can_recycle, vec!['a', 'b']);
	assert_eq!(blocks, vec![(9, 'c'), (3, 'd')]);
}

#[test]
fn recycling_includes_channels_expiring_at_current_height() {
	let mut blocks = vec![(5u64, 1u32), (5, 2), (6, 3)];
	let can_recycle = IngressEgress::can_and_cannot_recycle(&mut blocks, 3, 5);
	assert_eq!(can_recycle, vec![1, 2]);
	assert_eq!(blocks, vec![(6, 3)]);
}

#[test]
fn recycling_in_two_steps_matches_one_step_with_summed_maximum() {
	let original = (1u64..8).map(|i| (i, H160::from([i as u8; 20]))).collect::<Vec<_>>();

	let mut two_steps = original.clone();
	let mut first = IngressEgress::can_and_cannot_recycle(&mut two_steps, 2, 5);
	let second = IngressEgress::can_and_cannot_recycle(&mut two_steps, 4, 5);
	first.extend(second);

	let mut one_step = original.clone();
	let all = IngressEgress::can_and_cannot_recycle(&mut one_step, 6, 5);

	assert_eq!(first, all);
	assert_eq!(two_steps, one_step);
	assert_eq!(all.len(), 5);
}

#[test]
fn recycling_keeps_every_channel() {
	let original = (1u64..7).map(|i| (i * 2, i as u32)).collect::<Vec<_>>();
	let mut remaining = original.clone();
	let recycled = IngressEgress::can_and_cannot_recycle(&mut remaining, 2, 7);
	assert_eq!(recycled, vec![1, 2]);
	let mut rebuilt: Vec<u32> = recycled.clone();
	rebuilt.extend(remaining.iter().map(|e| e.1));
	assert_eq!(rebuilt, original.iter().map(|e| e.1).collect::<Vec<_>>());
}

#[test]
fn address_pool_of_expected_size_passes() {
	assert_eq!(expect_size_of_address_pool(&vec![3, 7, 11], 3), Ok(()));
	assert_eq!(expect_size_of_address_pool(&vec![], 0), Ok(()));
}

#[test]
fn address_pool_of_other_size_is_reported() {
	assert_eq!(
		expect_size_of_address_pool(&vec![3, 7], 3),
		Err(AddressPoolSizeMismatch { expected: 3, actual: 2 })
	);
}

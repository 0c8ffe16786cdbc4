//! Deposit-channel bookkeeping of the ingress/egress pallet: which expired
//! channels may be recycled, and the size check of the address pool.

use vstd::prelude::*;

verus! {

/// The identifier of a deposit channel.
pub type ChannelId = u64;

/// The number of leading entries whose recycle block is at most `height`.
pub open spec fn expired_prefix_len<A>(s: Seq<(u64, A)>, height: u64) -> nat
    decreases s.len(),
{
    if s.len() == 0 || s[0].0 > height {
        0
    } else {
        1 + expired_prefix_len(s.drop_first(), height)
    }
}

/// How many channels one recycling step takes from the front of `s`: those
/// in its expired prefix, at most `maximum`.
pub open spec fn recyclable_count<A>(s: Seq<(u64, A)>, maximum: usize, height: u64) -> nat {
    if expired_prefix_len(s, height) <= maximum {
        expired_prefix_len(s, height)
    } else {
        maximum as nat
    }
}

/// The addresses of a sequence of (recycle block, address) entries.
pub open spec fn addresses<A>(s: Seq<(u64, A)>) -> Seq<A> {
    s.map_values(|e: (u64, A)| e.1)
}

/// The expired prefix is the longest prefix of entries whose block is at most
/// `height`.
pub proof fn lemma_expired_prefix_len<A>(s: Seq<(u64, A)>, height: u64)
    ensures
        expired_prefix_len(s, height) <= s.len(),
        forall|i: int| 0 <= i < expired_prefix_len(s, height) ==> #[trigger] s[i].0 <= height,
        expired_prefix_len(s, height) < s.len() ==> s[expired_prefix_len(s, height) as int].0
            > height,
    decreases s.len(),
{
    if s.len() != 0 && s[0].0 <= height {
        lemma_expired_prefix_len(s.drop_first(), height);
        assert forall|i: int| 0 <= i < expired_prefix_len(s, height) implies #[trigger] s[i].0
            <= height by {
            if i > 0 {
                assert(s[i] == s.drop_first()[i - 1]);
            }
        }
    }
}

/// The expired prefix is the only prefix of entries whose block is at most
/// `height` that is followed by the end or by a later block.
pub proof fn lemma_expired_prefix_len_unique<A>(s: Seq<(u64, A)>, height: u64, n: nat)
    requires
        n <= s.len(),
        forall|i: int| 0 <= i < n ==> #[trigger] s[i].0 <= height,
        n < s.len() ==> s[n as int].0 > height,
    ensures
        expired_prefix_len(s, height) == n,
{
    lemma_expired_prefix_len(s, height);
    let p = expired_prefix_len(s, height);
    if p < n {
        assert(s[p as int].0 <= height);
    }
    if n < p {
        assert(s[n as int].0 <= height);
    }
}

/// Recycling keeps every channel: the recycled entries followed by those
/// that stay are the entries that were there, in order, and the recycled
/// addresses followed by the addresses that stay are all the addresses.
pub proof fn lemma_recycling_keeps_every_channel<A>(
    s: Seq<(u64, A)>,
    maximum: usize,
    height: u64,
)
    ensures
        ({
            let n = recyclable_count(s, maximum, height) as int;
            &&& s.take(n) + s.skip(n) == s
            &&& addresses(s.take(n)) + addresses(s.skip(n)) == addresses(s)
        }),
{
    lemma_expired_prefix_len(s, height);
    let n = recyclable_count(s, maximum, height) as int;
    assert(s.take(n) + s.skip(n) =~= s);
    assert(addresses(s.take(n)) + addresses(s.skip(n)) =~= addresses(s));
}

/// Recycling takes no more than the maximum, takes only channels whose
/// recycle block has been reached, and stops early only at the end of the
/// list or at a channel whose recycle block lies ahead.
pub proof fn lemma_recycling_takes_expired_channels_up_to_maximum<A>(
    s: Seq<(u64, A)>,
    maximum: usize,
    height: u64,
)
    ensures
        recyclable_count(s, maximum, height) <= maximum,
        recyclable_count(s, maximum, height) <= s.len(),
        forall|i: int|
            0 <= i < recyclable_count(s, maximum, height) ==> #[trigger] s[i].0 <= height,
        recyclable_count(s, maximum, height) < maximum && recyclable_count(s, maximum, height)
            < s.len() ==> s[recyclable_count(s, maximum, height) as int].0 > height,
{
    lemma_expired_prefix_len(s, height);
}

/// Two recycling steps at the same height take what one step with the summed
/// maximum takes.
pub proof fn lemma_recycling_in_two_steps<A>(s: Seq<(u64, A)>, a: usize, b: usize, height: u64)
    requires
        a + b <= usize::MAX,
    ensures
        ({
            let n1 = recyclable_count(s, a, height);
            let n2 = recyclable_count(s.skip(n1 as int), b, height);
            n1 + n2 == recyclable_count(s, (a + b) as usize, height)
        }),
{
    lemma_expired_prefix_len(s, height);
    let p = expired_prefix_len(s, height);
    let n1 = recyclable_count(s, a, height);
    let t = s.skip(n1 as int);
    assert forall|i: int| 0 <= i < p - n1 implies #[trigger] t[i].0 <= height by {
        assert(t[i] == s[n1 + i]);
    }
    if p < s.len() {
        assert(t[p - n1] == s[p as int]);
    }
    lemma_expired_prefix_len_unique(t, height, (p - n1) as nat);
}

/// The ingress/egress pallet's channel bookkeeping.
pub struct IngressEgress;

impl IngressEgress {
    /// Takes from the front of `channel_recycle_blocks`, which is kept in
    /// order of block, the channels whose recycle block is at most
    /// `current_block_height`, at most `maximum_recyclable_number` of them,
    /// and returns their addresses in order; the others stay.
    pub fn can_and_cannot_recycle<A>(
        channel_recycle_blocks: &mut Vec<(u64, A)>,
        maximum_recyclable_number: usize,
        current_block_height: u64,
    ) -> (can_recycle: Vec<A>)
        ensures
            can_recycle@ == addresses(
                old(channel_recycle_blocks)@.take(
                    recyclable_count(
                        old(channel_recycle_blocks)@,
                        maximum_recyclable_number,
                        current_block_height,
                    ) as int,
                ),
            ),
            final(channel_recycle_blocks)@ == old(channel_recycle_blocks)@.skip(
                recyclable_count(
                    old(channel_recycle_blocks)@,
                    maximum_recyclable_number,
                    current_block_height,
                ) as int,
            ),
    {
        let ghost s = channel_recycle_blocks@;
        let mut n: usize = 0;
        while n < maximum_recyclable_number && n < channel_recycle_blocks.len()
            && channel_recycle_blocks[n].0 <= current_block_height
            invariant
                channel_recycle_blocks@ == s,
                n <= maximum_recyclable_number,
                n <= s.len(),
                forall|i: int| 0 <= i < n ==> #[trigger] s[i].0 <= current_block_height,
            decreases s.len() - n,
        {
            n = n + 1;
        }
        proof {
            lemma_expired_prefix_len(s, current_block_height);
            let p = expired_prefix_len(s, current_block_height);
            if p < n {
                assert(s[p as int].0 <= current_block_height);
            }
            if n < s.len() && n < maximum_recyclable_number && p > n {
                assert(s[n as int].0 <= current_block_height);
            }
        }
        let mut recycled = channel_recycle_blocks.split_off(n);
        core::mem::swap(channel_recycle_blocks, &mut recycled);
        let mut can_recycle: Vec<A> = Vec::new();
        for entry in it: recycled
            invariant
                it.seq() == s.take(n as int),
                can_recycle@ == addresses(it.seq().take(it.index() as int)),
        {
            proof {
                assert(it.seq().take(it.index() + 1) == it.seq().take(it.index() as int).push(
                    entry,
                ));
            }
            can_recycle.push(entry.1);
        }
        proof {
            assert(s.take(n as int).take(n as int) == s.take(n as int));
        }
        can_recycle
    }
}

/// The address pool held another number of channels than expected.
#[derive(Debug, PartialEq, Eq)]
pub struct AddressPoolSizeMismatch {
    pub expected: usize,
    pub actual: usize,
}

/// Checks that the deposit-channel pool, given by the channel ids that it
/// holds, has `size` channels.
pub fn expect_size_of_address_pool(pool_channel_ids: &Vec<ChannelId>, size: usize) -> (r: Result<
    (),
    AddressPoolSizeMismatch,
>)
    ensures
        r is Ok <==> pool_channel_ids@.len() == size,
        r matches Err(e) ==> e.expected == size && e.actual == pool_channel_ids@.len(),
{
    let actual = pool_channel_ids.len();
    if actual == size {
        Ok(())
    } else {
        Err(AddressPoolSizeMismatch { expected: size, actual })
    }
}

} // verus!

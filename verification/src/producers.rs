//! The producers' decision logic: how a block header becomes a `Block`
//! event with a predicted next base fee, and how the pending-transaction
//! feed is resolved under a bounded number of in-flight requests. The
//! surrounding subscription loops are asynchronous plumbing and live with
//! the runtime; every decision they take is made here.

use vstd::prelude::*;

use crate::bus::{block_events_monotone, EventBus};
use crate::events::{event_block_number, is_block_event, Event, NewBlock, NewPendingTx};
use crate::fee::{calculate_next_block_base_fee, fee_inputs_check, fee_inputs_ok, structural_next_base_fee};
use crate::uint256::Uint256;

verus! {

/// How many transaction resolutions may be outstanding at once.
pub const MAX_IN_FLIGHT: usize = 256;

/// One block header as the chain connection reports it: the number may be
/// missing on pending heads, and blocks before the fee rule carry no base
/// fee.
#[derive(Clone, Copy, Debug)]
pub struct BlockHeader {
    pub number: Option<u64>,
    pub gas_used: Uint256,
    pub gas_limit: Uint256,
    pub base_fee_per_gas: Option<Uint256>,
}

/// The base fee a header is read with: absent means zero.
pub open spec fn header_base_fee(h: BlockHeader) -> nat {
    match h.base_fee_per_gas {
        Some(f) => f.value(),
        None => 0,
    }
}

/// Whether a header's metrics keep the fee rule inside 256-bit arithmetic.
pub open spec fn header_fee_ok(h: BlockHeader) -> bool {
    fee_inputs_ok(h.gas_used.value(), h.gas_limit.value(), header_base_fee(h))
}

/// The block event a numbered header turns into, up to the random
/// perturbation of the predicted fee.
pub open spec fn block_event_matches_header(e: NewBlock, h: BlockHeader) -> bool {
    &&& h.number matches Some(n) && e.block_number == n
    &&& e.base_fee.value() == header_base_fee(h)
    &&& structural_next_base_fee(h.gas_used.value(), h.gas_limit.value(), header_base_fee(h))
        <= e.next_base_fee.value()
    &&& e.next_base_fee.value() <= structural_next_base_fee(
        h.gas_used.value(),
        h.gas_limit.value(),
        header_base_fee(h),
    ) + 8
}

/// Decides whether a header's metrics keep the fee rule inside 256-bit
/// arithmetic, so that unverified callers can test before predicting.
pub fn header_fee_check(header: &BlockHeader) -> (ok: bool)
    ensures
        ok == header_fee_ok(*header),
{
    let base_fee = match header.base_fee_per_gas {
        Some(f) => f,
        None => Uint256::from_u64(0),
    };
    fee_inputs_check(header.gas_used, header.gas_limit, base_fee)
}

/// The block producer's decision on one header: skip it when it lacks a
/// number; otherwise build the block snapshot with the next base fee
/// predicted once, at ingestion.
pub fn block_event_from_header(header: &BlockHeader) -> (r: Option<NewBlock>)
    requires
        header.number is Some ==> header_fee_ok(*header),
    ensures
        header.number is None <==> r is None,
        header.number is Some ==> (r matches Some(b) && block_event_matches_header(b, *header)),
{
    match header.number {
        None => None,
        Some(number) => {
            let base_fee = match header.base_fee_per_gas {
                Some(f) => f,
                None => Uint256::from_u64(0),
            };
            let next_base_fee = calculate_next_block_base_fee(
                header.gas_used,
                header.gas_limit,
                base_fee,
            );
            Some(NewBlock { block_number: number, base_fee, next_base_fee })
        },
    }
}

/// The block producer's step: skip a header without a number; otherwise
/// build the block snapshot, predict the next base fee once, and publish
/// the event. Publishing never fails and never blocks.
pub fn process_block_header(header: &BlockHeader, bus: &mut EventBus) -> (published: Option<
    NewBlock,
>)
    requires
        old(bus).wf(),
        old(bus).total_sent() < u64::MAX,
        header.number is Some ==> header_fee_ok(*header),
    ensures
        final(bus).wf(),
        header.number is None ==> published is None && final(bus).sent() == old(bus).sent(),
        header.number is Some ==> (published matches Some(b) && block_event_matches_header(
            b,
            *header,
        ) && final(bus).sent() == old(bus).sent().push(Event::Block(b))),
{
    match block_event_from_header(header) {
        None => None,
        Some(block) => {
            bus.send(Event::Block(block));
            Some(block)
        },
    }
}

/// The pending-transaction producer's event for one resolved body: not yet
/// included in any block.
pub fn pending_tx_event(tx: ethers_core::types::Transaction) -> (e: Event)
    ensures
        e == Event::PendingTx((NewPendingTx { added_block: None, tx })),
{
    Event::PendingTx(NewPendingTx { added_block: None, tx })
}

/// The pending-transaction producer's backpressure state: how many
/// resolution requests are outstanding against the upstream feed.
pub struct TxResolver {
    in_flight: usize,
}

impl TxResolver {
    /// The number of resolution requests outstanding.
    pub closed spec fn in_flight(self) -> nat {
        self.in_flight as nat
    }

    /// The backpressure invariant: never more than `MAX_IN_FLIGHT`
    /// resolutions outstanding at once.
    pub open spec fn wf(self) -> bool {
        self.in_flight() <= MAX_IN_FLIGHT
    }

    pub fn new() -> (r: TxResolver)
        ensures
            r.wf(),
            r.in_flight() == 0,
    {
        TxResolver { in_flight: 0 }
    }

    /// The admission decision for a newly observed transaction hash: start
    /// a resolution only while fewer than `MAX_IN_FLIGHT` are outstanding;
    /// otherwise the caller must wait for one to finish first.
    pub fn try_begin_resolution(&mut self) -> (admitted: bool)
        requires
            old(self).wf(),
        ensures
            final(self).wf(),
            admitted == (old(self).in_flight() < MAX_IN_FLIGHT),
            admitted ==> final(self).in_flight() == old(self).in_flight() + 1,
            !admitted ==> final(self).in_flight() == old(self).in_flight(),
    {
        if self.in_flight < MAX_IN_FLIGHT {
            self.in_flight = self.in_flight + 1;
            true
        } else {
            false
        }
    }

    /// How many resolutions are outstanding, for callers that drive the
    /// upstream feed.
    pub fn outstanding(&self) -> (n: usize)
        ensures
            n == self.in_flight(),
    {
        self.in_flight
    }

    /// One resolution came back, successful or not: it no longer counts
    /// against the bound.
    pub fn record_completion(&mut self)
        requires
            old(self).wf(),
            old(self).in_flight() >= 1,
        ensures
            final(self).wf(),
            final(self).in_flight() == old(self).in_flight() - 1,
    {
        self.in_flight = self.in_flight - 1;
    }

    /// One resolution finished. A resolved body is published as a pending
    /// transaction event, not yet included in any block; a failed
    /// resolution is dropped silently and the stream continues.
    pub fn finish_resolution(
        &mut self,
        resolved: Option<ethers_core::types::Transaction>,
        bus: &mut EventBus,
    ) -> (published: bool)
        requires
            old(self).wf(),
            old(self).in_flight() >= 1,
            old(bus).wf(),
            old(bus).total_sent() < u64::MAX,
    ensures
            final(self).wf(),
            final(bus).wf(),
            final(self).in_flight() == old(self).in_flight() - 1,
            resolved matches Some(tx) ==> published && final(bus).sent() == old(bus).sent().push(
                Event::PendingTx((NewPendingTx { added_block: None, tx })),
            ),
            resolved is None ==> !published && final(bus).sent() == old(bus).sent(),
    {
        self.record_completion();
        match resolved {
            Some(tx) => {
                bus.send(pending_tx_event(tx));
                true
            },
            None => false,
        }
    }
}

/// Whether the numbered headers of a batch arrive with non-decreasing
/// numbers, as the chain reports them.
pub open spec fn headers_monotone(hs: Seq<BlockHeader>) -> bool {
    forall|i: int, j: int|
        #![trigger hs[i].number, hs[j].number]
        0 <= i <= j < hs.len() && hs[i].number is Some && hs[j].number is Some ==> hs[i].number->0
            <= hs[j].number->0
}

/// The numbered headers of a batch, in arrival order: the ones the block
/// producer turns into events.
pub open spec fn numbered(hs: Seq<BlockHeader>) -> Seq<BlockHeader>
    decreases hs.len(),
{
    if hs.len() == 0 {
        Seq::empty()
    } else if hs.last().number is Some {
        numbered(hs.drop_last()).push(hs.last())
    } else {
        numbered(hs.drop_last())
    }
}

proof fn lemma_numbered_push(t: Seq<BlockHeader>, x: BlockHeader)
    ensures
        x.number is Some ==> numbered(t.push(x)) == numbered(t).push(x),
        x.number is None ==> numbered(t.push(x)) == numbered(t),
{
    assert(t.push(x).drop_last() =~= t);
    assert(t.push(x).last() == x);
}

/// The block producer's loop body over a batch of headers, in arrival
/// order: each numbered header publishes exactly one block event, matching
/// that header, in arrival order — none dropped, duplicated or invented;
/// headers without a number publish nothing; and with monotone input the
/// block events on the bus stay in non-decreasing block-number order.
pub fn publish_block_events(headers: &Vec<BlockHeader>, bus: &mut EventBus) -> (count: usize)
    requires
        old(bus).wf(),
        old(bus).total_sent() + headers@.len() < u64::MAX,
        forall|i: int|
            0 <= i < headers@.len() && headers@[i].number is Some ==> header_fee_ok(
                #[trigger] headers@[i],
            ),
        block_events_monotone(old(bus).sent()),
        headers_monotone(headers@),
        forall|j: int|
            0 <= j < headers@.len() && headers@[j].number is Some ==> block_numbers_at_most(
                old(bus).sent(),
                #[trigger] headers@[j].number->0,
            ),
    ensures
        final(bus).wf(),
        count == numbered(headers@).len(),
        count <= headers@.len(),
        final(bus).total_sent() == old(bus).total_sent() + numbered(headers@).len(),
        final(bus).sent().subrange(0, old(bus).total_sent() as int) == old(bus).sent(),
        forall|j: int|
            0 <= j < numbered(headers@).len() ==> (#[trigger] final(bus).sent()[old(
                bus,
            ).total_sent() + j] matches Event::Block(b) && block_event_matches_header(
                b,
                numbered(headers@)[j],
            )),
        block_events_monotone(final(bus).sent()),
{
    let ghost bus0: EventBus = *bus;
    let mut count: usize = 0;
    let mut idx: usize = 0;
    while idx < headers.len()
        invariant
            bus.wf(),
            idx <= headers@.len(),
            count <= idx,
            bus0.total_sent() + headers@.len() < u64::MAX,
            bus.total_sent() == bus0.total_sent() + count,
            bus.sent().subrange(0, bus0.total_sent() as int) == bus0.sent(),
            forall|i: int|
                0 <= i < headers@.len() && headers@[i].number is Some ==> header_fee_ok(
                    #[trigger] headers@[i],
                ),
            headers_monotone(headers@),
            block_events_monotone(bus.sent()),
            count == numbered(headers@.take(idx as int)).len(),
            forall|j: int|
                0 <= j < count ==> (#[trigger] bus.sent()[bus0.total_sent() + j]
                    matches Event::Block(b) && block_event_matches_header(
                    b,
                    numbered(headers@.take(idx as int))[j],
                )),
            forall|j: int|
                idx <= j < headers@.len() && headers@[j].number is Some ==> block_numbers_at_most(
                    bus.sent(),
                    #[trigger] headers@[j].number->0,
                ),
        decreases headers@.len() - idx,
    {
        let header = headers[idx];
        let ghost pre: EventBus = *bus;
        let published = process_block_header(&header, bus);
        proof {
            assert(headers@.take(idx + 1) =~= headers@.take(idx as int).push(
                headers@[idx as int],
            ));
            lemma_numbered_push(headers@.take(idx as int), headers@[idx as int]);
            if header.number is Some {
                let b = published->0;
                assert(block_numbers_at_most(pre.sent(), b.block_number));
                lemma_send_block_keeps_order(pre.sent(), b);
                assert(bus.sent().subrange(0, bus0.total_sent() as int) =~= bus0.sent());
                assert forall|j: int|
                    idx + 1 <= j < headers@.len() && headers@[j].number
                        is Some implies block_numbers_at_most(
                    bus.sent(),
                    #[trigger] headers@[j].number->0,
                ) by {
                    assert(headers@[idx as int].number->0 <= headers@[j].number->0);
                }
            }
        }
        if published.is_some() {
            count = count + 1;
        }
        idx = idx + 1;
    }
    proof {
        assert(headers@.take(headers@.len() as int) =~= headers@);
    }
    count
}

/// Whether every block event in a history carries a number at most `n`.
pub open spec fn block_numbers_at_most(h: Seq<Event>, n: u64) -> bool {
    forall|i: int|
        0 <= i < h.len() && is_block_event(h[i]) ==> #[trigger] event_block_number(h[i]) <= n
}

/// Publishing a block whose number is at least every block number already
/// in the history keeps the block events in non-decreasing order.
pub proof fn lemma_send_block_keeps_order(h: Seq<Event>, b: NewBlock)
    requires
        block_events_monotone(h),
        block_numbers_at_most(h, b.block_number),
    ensures
        block_events_monotone(h.push(Event::Block(b))),
{
    let h2 = h.push(Event::Block(b));
    assert forall|i: int, j: int|
        0 <= i <= j < h2.len() && is_block_event(h2[i]) && is_block_event(
            h2[j],
        ) implies event_block_number(h2[i]) <= event_block_number(h2[j]) by {
        if j < h.len() {
            assert(h2[i] == h[i] && h2[j] == h[j]);
        } else if i < h.len() {
            assert(h2[i] == h[i] && h2[j] == Event::Block(b));
        }
    }
}

/// Publishing a pending-transaction event leaves the order of the block
/// events untouched.
pub proof fn lemma_send_pending_keeps_order(h: Seq<Event>, p: NewPendingTx)
    requires
        block_events_monotone(h),
    ensures
        block_events_monotone(h.push(Event::PendingTx(p))),
{
    let h2 = h.push(Event::PendingTx(p));
    assert forall|i: int, j: int|
        0 <= i <= j < h2.len() && is_block_event(h2[i]) && is_block_event(
            h2[j],
        ) implies event_block_number(h2[i]) <= event_block_number(h2[j]) by {
        assert(j < h.len() && h2[i] == h[i] && h2[j] == h[j]);
    }
}

} // verus!

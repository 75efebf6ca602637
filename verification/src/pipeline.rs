//! The fetch/reassembly/apply pipeline as a verified state machine.
//!
//! The surrounding runtime performs the sleeps, the downloads and the
//! apply calls; every decision — what to launch, what to wait for, which
//! record to apply next — is taken here, so the ordering and backpressure
//! guarantees are proved for every interleaving of download completions.

use vstd::prelude::*;
use vstd::arithmetic::div_mod::{
    lemma_div_nonincreasing, lemma_fundamental_div_mod, lemma_mod_bound,
};
use vstd::arithmetic::mul::lemma_mul_inequality;

use crate::buffer::{Record, ReorderBuffer};
use crate::planner::SyncRange;
use crate::BLOCKS_PER_FILE;
use crate::CONCURRENT_REQUESTS;
use crate::MAXIMUM_PENDING_BLOCKS;

verus! {

/// Tunable constants of the pipeline, with the documented defaults.
#[derive(Clone, Copy, Debug, PartialEq, Eq, Structural)]
pub struct SyncConfig {
    /// Records per remote bundle file: the chunk size.
    pub blocks_per_file: u32,
    /// Desired number of concurrent chunk downloads.
    pub concurrent_requests: u32,
    /// Backpressure ceiling on buffered, unapplied records.
    pub maximum_pending_blocks: u32,
}

impl SyncConfig {
    /// A usable configuration: the chunk size is positive.
    pub open spec fn wf(self) -> bool {
        self.blocks_per_file > 0
    }
}

impl Default for SyncConfig {
    /// The documented defaults: chunks of fifty records, sixteen
    /// concurrent requests, and a ceiling of chunk size times concurrency
    /// times two.
    fn default() -> (c: Self)
        ensures
            c.blocks_per_file == BLOCKS_PER_FILE,
            c.concurrent_requests == CONCURRENT_REQUESTS,
            c.maximum_pending_blocks == MAXIMUM_PENDING_BLOCKS,
            c.wf(),
    {
        SyncConfig {
            blocks_per_file: BLOCKS_PER_FILE,
            concurrent_requests: CONCURRENT_REQUESTS,
            maximum_pending_blocks: MAXIMUM_PENDING_BLOCKS,
        }
    }
}

/// What the scheduling loop should do after one tick.
#[derive(Clone, Copy, Debug, PartialEq, Eq, Structural)]
pub enum TickAction {
    /// The planned range is covered by applied, buffered and in-flight
    /// work: stop issuing downloads for good.
    Finished,
    /// The buffer has reached the ceiling: launch nothing and back off.
    BackOff,
    /// Launch `num_requests` chunk downloads covering consecutive chunks,
    /// the first one starting at `first_chunk_start`.
    Launch { first_chunk_start: u32, num_requests: u32 },
}

/// What the applier loop should do next.
#[derive(Debug)]
pub enum SyncAction<T> {
    /// Terminal condition reached: every requested height is applied.
    Complete { completed_height: u32 },
    /// No pending records yet: wait for downloads.
    NoData,
    /// The earliest buffered record is past the next required height:
    /// wait for the missing chunk.
    Gap { earliest_height: u32 },
    /// A redundant record below the next required height was discarded.
    Skip { height: u32 },
    /// Apply this record through the external apply function, then report
    /// the outcome back.
    Apply { height: u32, payload: T },
}

/// How many chunk downloads one scheduling tick launches: the desired
/// concurrency, lowered so the ceiling cannot be breached, less what is
/// already in flight, and capped so no chunk ends past `cdn_end` plus one
/// chunk.
pub open spec fn spec_launch_count(
    s: u32,
    buffered: int,
    in_flight: u32,
    cfg: SyncConfig,
    cdn_end: u32,
) -> int
    recommends
        cfg.wf(),
        s <= cdn_end + cfg.blocks_per_file,
        buffered <= cfg.maximum_pending_blocks,
{
    let c = cfg.blocks_per_file as int;
    let by_buffer = (cfg.maximum_pending_blocks - buffered) / c;
    let want0 = if cfg.concurrent_requests <= by_buffer {
        cfg.concurrent_requests as int
    } else {
        by_buffer
    };
    let want = if want0 >= in_flight {
        want0 - in_flight
    } else {
        0int
    };
    let cap = (cdn_end + c - s) / c;
    if want <= cap {
        want
    } else {
        cap
    }
}

/// The shared state of one sync run.
///
/// The runtime drives it through four calls: `controller_tick` decides
/// what to download, `insert_record` files one downloaded record,
/// `next_action` picks the applier's next step, and `record_applied`
/// acknowledges one successful apply.
pub struct SyncPipeline<T> {
    config: SyncConfig,
    range: SyncRange,
    buffer: ReorderBuffer<T>,
    next_chunk_start: u32,
    downloads_finished: bool,
    next_height: u32,
    pending_apply: Option<u32>,
    applied: Ghost<Seq<u32>>,
}

impl<T> SyncPipeline<T> {
    /// The planned window.
    pub closed spec fn range_spec(self) -> SyncRange {
        self.range
    }

    /// The configuration the run was started with.
    pub closed spec fn config_spec(self) -> SyncConfig {
        self.config
    }

    /// The records downloaded but not yet applied or discarded.
    pub closed spec fn buffer_spec(self) -> Seq<Record<T>> {
        self.buffer@
    }

    /// Whether some buffered record has the given height.
    pub closed spec fn buffer_contains_height(self, height: u32) -> bool {
        self.buffer.contains_height(height)
    }

    /// Where the next chunk download would start.
    pub closed spec fn next_chunk_start_spec(self) -> u32 {
        self.next_chunk_start
    }

    /// Whether the controller has stopped issuing downloads for good.
    pub closed spec fn downloads_finished_spec(self) -> bool {
        self.downloads_finished
    }

    /// The next height that must be applied.
    pub closed spec fn next_height_spec(self) -> u32 {
        self.next_height
    }

    /// The height handed out by an `Apply` action and not yet
    /// acknowledged, if any.
    pub closed spec fn pending_apply_spec(self) -> Option<u32> {
        self.pending_apply
    }

    /// The heights acknowledged as applied, in the order they were
    /// applied.
    pub closed spec fn applied_spec(self) -> Seq<u32> {
        self.applied@
    }

    /// The state every reachable pipeline satisfies.
    pub closed spec fn inv(self) -> bool {
        &&& self.config.wf()
        &&& self.range.wf(self.config.blocks_per_file)
        &&& self.range.end_height <= u32::MAX - self.config.blocks_per_file
        &&& self.range.start_height <= self.next_height <= self.range.end_height
        &&& self.range.cdn_start <= self.next_chunk_start <= self.range.cdn_end
            + self.config.blocks_per_file
        &&& self.buffer.wf()
        &&& self.applied@ == Seq::new(
            (self.next_height - self.range.start_height) as nat,
            |i: int| (self.range.start_height + i) as u32,
        )
        &&& match self.pending_apply {
            Some(h) => h == self.next_height && self.next_height < self.range.end_height,
            None => true,
        }
    }

    /// Starts a run over a planned, non-empty window.
    ///
    /// The bound on `end_height` keeps every chunk boundary representable
    /// as a height.
    pub fn new(range: SyncRange, config: SyncConfig) -> (p: Self)
        requires
            config.wf(),
            range.wf(config.blocks_per_file),
            range.end_height <= u32::MAX - config.blocks_per_file,
        ensures
            p.inv(),
            p.range_spec() == range,
            p.config_spec() == config,
            p.next_height_spec() == range.start_height,
            p.applied_spec() =~= Seq::<u32>::empty(),
            p.buffer_spec() =~= Seq::<Record<T>>::empty(),
            p.pending_apply_spec() is None,
            p.next_chunk_start_spec() == range.cdn_start,
            !p.downloads_finished_spec(),
    {
        let p = SyncPipeline {
            config,
            range,
            buffer: ReorderBuffer::new(),
            next_chunk_start: range.cdn_start,
            downloads_finished: false,
            next_height: range.start_height,
            pending_apply: None,
            applied: Ghost(Seq::empty()),
        };
        proof {
            assert(p.applied@ =~= Seq::new(0nat, |i: int| (range.start_height + i) as u32));
        }
        p
    }

    /// Files one downloaded record into the reorder buffer; a duplicate
    /// height is dropped, never overwritten. Nothing else changes.
    pub fn insert_record(&mut self, height: u32, payload: T) -> (inserted: bool)
        requires
            old(self).inv(),
        ensures
            final(self).inv(),
            final(self).range_spec() == old(self).range_spec(),
            final(self).config_spec() == old(self).config_spec(),
            final(self).next_chunk_start_spec() == old(self).next_chunk_start_spec(),
            final(self).downloads_finished_spec() == old(self).downloads_finished_spec(),
            final(self).next_height_spec() == old(self).next_height_spec(),
            final(self).pending_apply_spec() == old(self).pending_apply_spec(),
            final(self).applied_spec() == old(self).applied_spec(),
            inserted <==> !old(self).buffer_contains_height(height),
            !inserted ==> final(self).buffer_spec() == old(self).buffer_spec(),
            inserted ==> exists|k: int|
                0 <= k <= old(self).buffer_spec().len() && final(self).buffer_spec() == old(
                    self,
                ).buffer_spec().insert(k, (Record { height, payload })),
            final(self).buffer_spec().len() == old(self).buffer_spec().len() + (if inserted {
                1int
            } else {
                0int
            }),
    {
        let inserted = self.buffer.insert(Record { height, payload });
        proof {
            if inserted {
                let k = choose|k: int|
                    0 <= k <= old(self).buffer@.len() && self.buffer@ == old(self).buffer@.insert(
                        k,
                        Record { height, payload },
                    );
                assert(0 <= k <= old(self).buffer_spec().len() && self.buffer_spec() == old(
                    self,
                ).buffer_spec().insert(k, Record { height, payload }));
            }
        }
        inserted
    }

    /// One scheduling tick of the download controller.
    ///
    /// Backpressure first: at or above the ceiling nothing is launched.
    /// Then the stopping rule: once the heights already applied, buffered
    /// and in flight reach the end of the window, downloads stop for
    /// good. Otherwise it launches up to the configured concurrency,
    /// never enough to breach the ceiling and never a chunk ending past
    /// `cdn_end` plus one chunk.
    pub fn controller_tick(&mut self, in_flight_requests: u32) -> (action: TickAction)
        requires
            old(self).inv(),
        ensures
            final(self).inv(),
            final(self).range_spec() == old(self).range_spec(),
            final(self).config_spec() == old(self).config_spec(),
            final(self).buffer_spec() == old(self).buffer_spec(),
            final(self).next_height_spec() == old(self).next_height_spec(),
            final(self).pending_apply_spec() == old(self).pending_apply_spec(),
            final(self).applied_spec() == old(self).applied_spec(),
            action matches TickAction::Launch { .. } ==> old(self).buffer_spec().len() < old(
                self,
            ).config_spec().maximum_pending_blocks,
            ({
                let s = old(self).next_chunk_start_spec();
                let c = old(self).config_spec().blocks_per_file;
                let mp = old(self).config_spec().maximum_pending_blocks;
                let buffered = old(self).buffer_spec().len() as int;
                let cdn_end = old(self).range_spec().cdn_end;
                if old(self).downloads_finished_spec() || s >= cdn_end - 1 {
                    &&& action == TickAction::Finished
                    &&& final(self).next_chunk_start_spec() == s
                    &&& final(self).downloads_finished_spec()
                } else if buffered >= mp {
                    &&& action == TickAction::BackOff
                    &&& final(self).next_chunk_start_spec() == s
                    &&& !final(self).downloads_finished_spec()
                } else if s + buffered + in_flight_requests * c >= cdn_end - 1 {
                    &&& action == TickAction::Finished
                    &&& final(self).next_chunk_start_spec() == s
                    &&& final(self).downloads_finished_spec()
                } else {
                    let count = spec_launch_count(
                        s,
                        buffered,
                        in_flight_requests,
                        old(self).config_spec(),
                        cdn_end,
                    );
                    &&& action == TickAction::Launch {
                        first_chunk_start: s,
                        num_requests: count as u32,
                    }
                    &&& final(self).next_chunk_start_spec() == s + count * c
                    &&& !final(self).downloads_finished_spec()
                }
            }),
    {
        let s = self.next_chunk_start;
        let c = self.config.blocks_per_file;
        let cdn_end = self.range.cdn_end;
        if self.downloads_finished || s >= cdn_end - 1 {
            self.downloads_finished = true;
            return TickAction::Finished;
        }
        let buffered: usize = self.buffer.len();
        if buffered >= self.config.maximum_pending_blocks as usize {
            return TickAction::BackOff;
        }
        let buffered32: u32 = buffered as u32;
        proof {
            assert((in_flight_requests as int) * (c as int) <= 0xFFFF_FFFF * 0xFFFF_FFFF)
                by (nonlinear_arith)
                requires
                    in_flight_requests <= 0xFFFF_FFFFu32,
                    c <= 0xFFFF_FFFFu32,
            ;
        }
        let covered: u128 = s as u128 + buffered32 as u128 + in_flight_requests as u128
            * c as u128;
        if covered >= cdn_end as u128 - 1 {
            self.downloads_finished = true;
            return TickAction::Finished;
        }
        let by_buffer: u32 = (self.config.maximum_pending_blocks - buffered32) / c;
        let want0: u32 = if self.config.concurrent_requests <= by_buffer {
            self.config.concurrent_requests
        } else {
            by_buffer
        };
        let want: u32 = if want0 >= in_flight_requests {
            want0 - in_flight_requests
        } else {
            0
        };
        let cap64: u64 = (cdn_end as u64 + c as u64 - s as u64) / c as u64;
        proof {
            lemma_div_nonincreasing(cdn_end + c - s, c as int);
        }
        let count: u32 = if (want as u64) <= cap64 {
            want
        } else {
            cap64 as u32
        };
        proof {
            let x = cdn_end + c - s;
            lemma_fundamental_div_mod(x, c as int);
            lemma_mod_bound(x, c as int);
            lemma_mul_inequality(count as int, x / (c as int), c as int);
        }
        self.next_chunk_start = s + count * c;
        TickAction::Launch { first_chunk_start: s, num_requests: count }
    }

    /// Picks the applier's next step.
    ///
    /// Either the run is complete; or there is nothing buffered; or the
    /// earliest buffered record is redundant and is discarded; or it is
    /// exactly the next required height and is handed out for application;
    /// or it is past the next required height and the applier must wait.
    pub fn next_action(&mut self) -> (a: SyncAction<T>)
        requires
            old(self).inv(),
            old(self).pending_apply_spec() is None,
        ensures
            final(self).inv(),
            final(self).range_spec() == old(self).range_spec(),
            final(self).config_spec() == old(self).config_spec(),
            final(self).next_chunk_start_spec() == old(self).next_chunk_start_spec(),
            final(self).downloads_finished_spec() == old(self).downloads_finished_spec(),
            final(self).next_height_spec() == old(self).next_height_spec(),
            final(self).applied_spec() == old(self).applied_spec(),
            ({
                let buf = old(self).buffer_spec();
                let next = old(self).next_height_spec();
                let end = old(self).range_spec().end_height;
                if next == end {
                    &&& a matches SyncAction::Complete { completed_height } && completed_height
                        == end - 1
                    &&& final(self).buffer_spec() == buf
                    &&& final(self).pending_apply_spec() is None
                } else if buf.len() == 0 {
                    &&& a is NoData
                    &&& final(self).buffer_spec() == buf
                    &&& final(self).pending_apply_spec() is None
                } else if buf[0].height < next {
                    &&& a matches SyncAction::Skip { height } && height == buf[0].height
                    &&& final(self).buffer_spec() == buf.drop_first()
                    &&& final(self).pending_apply_spec() is None
                } else if buf[0].height == next {
                    &&& a matches SyncAction::Apply { height, payload } && height == next && buf[0]
                        == (Record { height, payload })
                    &&& final(self).buffer_spec() == buf.drop_first()
                    &&& final(self).pending_apply_spec() == Some(next)
                } else {
                    &&& a matches SyncAction::Gap { earliest_height } && earliest_height == buf[0].height
                    &&& final(self).buffer_spec() == buf
                    &&& final(self).pending_apply_spec() is None
                }
            }),
    {
        if self.next_height >= self.range.end_height {
            return SyncAction::Complete { completed_height: self.range.end_height - 1 };
        }
        let front_height: u32 = match self.buffer.peek_earliest_height() {
            None => {
                return SyncAction::NoData;
            },
            Some(h) => h,
        };
        if front_height > self.next_height {
            return SyncAction::Gap { earliest_height: front_height };
        }
        let mut taken = self.buffer.take_prefix(1);
        let record = taken.remove(0);
        proof {
            assert(record == old(self).buffer_spec()[0]);
            assert(self.buffer@ =~= old(self).buffer_spec().drop_first());
        }
        if record.height < self.next_height {
            SyncAction::Skip { height: record.height }
        } else {
            self.pending_apply = Some(record.height);
            SyncAction::Apply { height: record.height, payload: record.payload }
        }
    }

    /// Acknowledges that the record handed out by the last `Apply` action
    /// was applied successfully: the completed height advances by one.
    pub fn record_applied(&mut self)
        requires
            old(self).inv(),
            old(self).pending_apply_spec() is Some,
        ensures
            final(self).inv(),
            final(self).range_spec() == old(self).range_spec(),
            final(self).config_spec() == old(self).config_spec(),
            final(self).buffer_spec() == old(self).buffer_spec(),
            final(self).next_chunk_start_spec() == old(self).next_chunk_start_spec(),
            final(self).downloads_finished_spec() == old(self).downloads_finished_spec(),
            final(self).next_height_spec() == old(self).next_height_spec() + 1,
            final(self).pending_apply_spec() is None,
            final(self).applied_spec() == old(self).applied_spec().push(
                old(self).next_height_spec(),
            ),
    {
        self.pending_apply = None;
        self.applied = Ghost(self.applied@.push(self.next_height));
        self.next_height = self.next_height + 1;
        proof {
            assert(self.applied@ =~= Seq::new(
                (self.next_height - self.range.start_height) as nat,
                |i: int| (self.range.start_height + i) as u32,
            ));
        }
    }

    /// The highest height successfully applied so far, or the height just
    /// below the window when nothing has been applied yet: the point a
    /// failed run can be resumed from.
    pub fn completed_height(&self) -> (h: u32)
        ensures
            h == if self.next_height_spec() >= 1 {
                self.next_height_spec() - 1
            } else {
                0int
            },
    {
        if self.next_height >= 1 {
            self.next_height - 1
        } else {
            0
        }
    }

    /// Whether the terminal condition is reached: every height in the
    /// window has been applied.
    pub fn is_complete(&self) -> (b: bool)
        ensures
            b == (self.next_height_spec() == self.range_spec().end_height),
    {
        self.next_height == self.range.end_height
    }
}

/// Law: in every reachable pipeline state the applied heights are exactly
/// the contiguous ascending run from the window's start up to, and
/// excluding, the next required height — no gap, no duplicate, strictly
/// increasing — and in a completed state they are exactly the whole
/// window.
pub proof fn lemma_applied_exactly_window<T>(p: SyncPipeline<T>)
    requires
        p.inv(),
    ensures
        p.applied_spec().len() == p.next_height_spec() - p.range_spec().start_height,
        forall|i: int|
            0 <= i < p.applied_spec().len() ==> p.applied_spec()[i] == p.range_spec().start_height
                + i,
        forall|i: int, j: int|
            0 <= i < j < p.applied_spec().len() ==> p.applied_spec()[i] < p.applied_spec()[j],
        p.next_height_spec() == p.range_spec().end_height ==> p.applied_spec().len()
            == p.range_spec().end_height - p.range_spec().start_height,
{
    assert(forall|i: int|
        0 <= i < p.applied_spec().len() ==> p.applied_spec()[i] == p.range_spec().start_height
            + i);
}

} // verus!

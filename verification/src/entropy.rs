//! The entropy pool: a fixed ring of pre-committed seed batches, drained by
//! draws and refilled by a designated oracle under a monotonic global
//! watermark that makes every issued offset unique for all time.
use vstd::prelude::*;

use crate::MAX_BATCHES;
use crate::SEED_LEN;
use crate::errors::GameError;

verus! {

/// Domain tag for the draw that picks the first mover of a battle.
pub const TAG_FIRST_MOVER: u8 = 0;

/// Domain tag for a turn's base-damage draw.
pub const TAG_BASE: u8 = 1;

/// Domain tag for a turn's critical-hit roll.
pub const TAG_CRIT: u8 = 2;

/// Domain tag for a turn's dodge roll.
pub const TAG_DODGE: u8 = 3;

/// Domain tag for a turn's reserved wildcard draw.
pub const TAG_WILD: u8 = 4;

/// An atomic committed randomness unit: a seed together with the reserved
/// global index range `[start, start + count)`, of which the first
/// `consumed` entries have been handed out.
#[derive(Clone, Copy)]
pub struct SeedBatch {
    pub seed: [u8; SEED_LEN],
    pub start: u64,
    pub count: u32,
    pub consumed: u32,
}

/// Entries of a batch not yet handed out.
pub open spec fn batch_live(b: SeedBatch) -> int {
    b.count - b.consumed
}

/// The shape of the batch an empty ring slot holds: no range claimed.
pub open spec fn batch_empty(b: SeedBatch) -> bool {
    b.start == 0 && b.count == 0 && b.consumed == 0
}

impl Default for SeedBatch {
    fn default() -> (r: Self)
        ensures
            batch_empty(r),
    {
        SeedBatch { seed: [0u8; 32], start: 0, count: 0, consumed: 0 }
    }
}

/// Sum of the live entries over a run of batches.
pub open spec fn avail_of(s: Seq<SeedBatch>) -> int
    decreases s.len(),
{
    if s.len() == 0 {
        0
    } else {
        avail_of(s.drop_last()) + batch_live(s.last())
    }
}

/// Ring slot reached after `k` steps from `head`.
pub open spec fn slot_at(head: int, k: int) -> int {
    (head + k) % 8
}

/// First slot with live entries, scanning at most `8 - k` steps onward from
/// step `k`; `8` when the scan finds none.
pub open spec fn scan_from(s: Seq<SeedBatch>, head: int, k: int) -> int
    decreases 8 - k,
{
    if k < 0 || k >= 8 {
        8
    } else if batch_live(s[slot_at(head, k)]) > 0 {
        slot_at(head, k)
    } else {
        scan_from(s, head, k + 1)
    }
}

/// Mathematical state of an entropy pool.
#[verifier::ext_equal]
pub struct PoolModel {
    pub authority: u64,
    pub vrf_oracle: u64,
    pub head: int,
    pub tail: int,
    pub total_available: int,
    pub global_next_index: int,
    pub last_refill_ts: int,
    pub batches: Seq<SeedBatch>,
}

/// Slot the next draw will take its entry from; `8` when the ring is dry.
pub open spec fn scan_slot(m: PoolModel) -> int {
    scan_from(m.batches, m.head, 0)
}

/// Whether some slot still holds live entries.
pub open spec fn has_live(m: PoolModel) -> bool {
    scan_slot(m) < 8
}

/// Absolute global offset the next draw will consume.
pub open spec fn next_offset(m: PoolModel) -> int {
    let j = scan_slot(m);
    m.batches[j].start + m.batches[j].consumed
}

/// Whether global offset `o` is still waiting to be handed out by some batch.
pub open spec fn offset_live(m: PoolModel, o: int) -> bool {
    exists|i: int|
        0 <= i < m.batches.len() && (#[trigger] m.batches[i]).start + m.batches[i].consumed <= o
            < m.batches[i].start + m.batches[i].count
}

/// Two batches claim non-overlapping index ranges.
pub open spec fn range_sep(a: SeedBatch, b: SeedBatch) -> bool {
    a.start + a.count <= b.start || b.start + b.count <= a.start
}

/// Pool state after one draw: the scanned batch's cursor advances, one entry
/// leaves the total, and the head cursor steps once when the batch drained.
pub open spec fn draw_step(m: PoolModel) -> PoolModel {
    let j = scan_slot(m);
    let b = m.batches[j];
    let nb = SeedBatch { consumed: (b.consumed + 1) as u32, ..b };
    PoolModel {
        authority: m.authority,
        vrf_oracle: m.vrf_oracle,
        head: if nb.consumed >= nb.count {
            (m.head + 1) % 8
        } else {
            m.head
        },
        tail: m.tail,
        total_available: m.total_available - 1,
        global_next_index: m.global_next_index,
        last_refill_ts: m.last_refill_ts,
        batches: m.batches.update(j, nb),
    }
}

/// Pool state after a refill: the tail slot is overwritten with the new
/// batch, the tail cursor steps once, and the watermark moves to the end of
/// the new range.
pub open spec fn refill_step(m: PoolModel, seed: [u8; SEED_LEN], start: u64, count: u32, now: i64) -> PoolModel {
    PoolModel {
        authority: m.authority,
        vrf_oracle: m.vrf_oracle,
        head: m.head,
        tail: (m.tail + 1) % 8,
        total_available: m.total_available + count,
        global_next_index: start + count,
        last_refill_ts: now as int,
        batches: m.batches.update(m.tail, SeedBatch { seed, start, count, consumed: 0 }),
    }
}

/// The digest-derived 64-bit value that binds a draw to the committed seed,
/// the absolute offset, the requester, the domain tag and the turn number.
pub uninterp spec fn mix_entropy(seed: Seq<u8>, offset: u64, signer: u64, tag: u8, turn: u32) -> u64;

/// The value a draw yields once the digest is reduced into `[min, max]`.
pub open spec fn draw_value(seed: Seq<u8>, offset: u64, signer: u64, tag: u8, turn: u32, min: u64, max: u64) -> u64
    recommends
        min <= max,
{
    (min + mix_entropy(seed, offset, signer, tag, turn) as int % (max - min + 1)) as u64
}

/// Value of the next draw a pool in state `m` will hand to this request.
pub open spec fn draw_val(m: PoolModel, signer: u64, tag: u8, turn: u32, min: u64, max: u64) -> u64 {
    let j = scan_slot(m);
    draw_value(
        m.batches[j].seed@,
        (m.batches[j].start + m.batches[j].consumed) as u64,
        signer,
        tag,
        turn,
        min,
        max,
    )
}

/// Relies on solana_program::hash::hashv (SHA-256 of the concatenated
/// slices): the digest is a function of the hashed bytes alone, so the
/// first eight bytes, read little-endian, are a function of the five
/// arguments alone.
#[verifier::external_body]
fn hash_to_u64(seed: &[u8; SEED_LEN], offset: u64, signer: u64, tag: u8, turn: u32) -> (r: u64)
    ensures
        r == mix_entropy(seed@, offset, signer, tag, turn),
{
    let digest = solana_program::hash::hashv(&[
        seed.as_slice(),
        &offset.to_le_bytes(),
        &signer.to_le_bytes(),
        &[tag],
        &turn.to_le_bytes(),
    ])
    .to_bytes();
    let mut first = [0u8; 8];
    first.copy_from_slice(&digest[0..8]);
    u64::from_le_bytes(first)
}

/// A fixed-capacity ring of committed seed batches with head/tail cursors, a
/// live-entry count and the monotonic global watermark.
pub struct EntropyPool {
    pub authority: u64,
    pub vrf_oracle: u64,
    pub head: u8,
    pub tail: u8,
    pub total_available: u64,
    pub global_next_index: u64,
    pub last_refill_ts: i64,
    pub batches: Vec<SeedBatch>,
}

impl View for EntropyPool {
    type V = PoolModel;

    open spec fn view(&self) -> PoolModel {
        PoolModel {
            authority: self.authority,
            vrf_oracle: self.vrf_oracle,
            head: self.head as int,
            tail: self.tail as int,
            total_available: self.total_available as int,
            global_next_index: self.global_next_index as int,
            last_refill_ts: self.last_refill_ts as int,
            batches: self.batches@,
        }
    }
}

/// Well-formedness of a pool state: cursors in range, every batch cursor
/// within its count, every claimed range below the watermark and disjoint
/// from every other, and the live total in exact agreement with the batches.
pub open spec fn pool_wf(m: PoolModel) -> bool {
    &&& m.batches.len() == 8
    &&& 0 <= m.head < 8
    &&& 0 <= m.tail < 8
    &&& 0 <= m.total_available <= u64::MAX
    &&& 0 <= m.global_next_index <= u64::MAX
    &&& forall|i: int| 0 <= i < 8 ==> (#[trigger] m.batches[i]).consumed <= m.batches[i].count
    &&& forall|i: int|
        0 <= i < 8 ==> (#[trigger] m.batches[i]).start + m.batches[i].count <= m.global_next_index
    &&& m.total_available == avail_of(m.batches)
    &&& forall|i: int, j: int|
        #![trigger m.batches[i], m.batches[j]]
        0 <= i < 8 && 0 <= j < 8 && i != j ==> range_sep(m.batches[i], m.batches[j])
}

impl EntropyPool {
    /// Pool invariant; establishment and preservation are part of every
    /// constructor's and mutator's contract.
    pub open spec fn wf(self) -> bool {
        pool_wf(self@)
    }
}

pub proof fn lemma_avail_update(s: Seq<SeedBatch>, j: int, b: SeedBatch)
    requires
        0 <= j < s.len(),
    ensures
        avail_of(s.update(j, b)) == avail_of(s) - batch_live(s[j]) + batch_live(b),
    decreases s.len(),
{
    if j == s.len() - 1 {
        assert(s.update(j, b).drop_last() =~= s.drop_last());
        assert(s.update(j, b).last() == b);
    } else {
        assert(s.update(j, b).drop_last() =~= s.drop_last().update(j, b));
        assert(s.update(j, b).last() == s.last());
        lemma_avail_update(s.drop_last(), j, b);
    }
}

pub proof fn lemma_avail_bounds(s: Seq<SeedBatch>)
    requires
        forall|i: int| 0 <= i < s.len() ==> 0 <= batch_live(#[trigger] s[i]) <= u32::MAX,
    ensures
        0 <= avail_of(s) <= s.len() * (u32::MAX as int),
    decreases s.len(),
{
    if s.len() > 0 {
        lemma_avail_bounds(s.drop_last());
        assert(avail_of(s) == avail_of(s.drop_last()) + batch_live(s.last()));
    }
}

pub proof fn lemma_avail_zero(s: Seq<SeedBatch>)
    requires
        forall|i: int| 0 <= i < s.len() ==> batch_live(#[trigger] s[i]) == 0,
    ensures
        avail_of(s) == 0,
    decreases s.len(),
{
    if s.len() > 0 {
        lemma_avail_zero(s.drop_last());
    }
}

/// A scan either reports `8`, or lands on a slot in range that holds live
/// entries.
pub proof fn lemma_scan_props(s: Seq<SeedBatch>, head: int, k: int)
    requires
        s.len() == 8,
        0 <= head < 8,
        0 <= k <= 8,
    ensures
        scan_from(s, head, k) == 8 || (0 <= scan_from(s, head, k) < 8 && batch_live(
            s[scan_from(s, head, k)],
        ) > 0),
    decreases 8 - k,
{
    if k < 8 {
        if batch_live(s[slot_at(head, k)]) > 0 {
        } else {
            lemma_scan_props(s, head, k + 1);
        }
    }
}

/// When a full scan from the head finds nothing, every slot is drained.
pub proof fn lemma_scan_exhausted(s: Seq<SeedBatch>, head: int)
    requires
        s.len() == 8,
        0 <= head < 8,
        scan_from(s, head, 0) == 8,
        forall|i: int| 0 <= i < s.len() ==> 0 <= batch_live(#[trigger] s[i]),
    ensures
        forall|i: int| 0 <= i < s.len() ==> batch_live(#[trigger] s[i]) == 0,
{
    lemma_scan_exhausted_from(s, head, 0);
    assert forall|i: int| 0 <= i < s.len() implies batch_live(#[trigger] s[i]) == 0 by {
        let k = if i >= head {
            i - head
        } else {
            i + 8 - head
        };
        assert(slot_at(head, k) == i) by {
            assert(head + k == i || head + k == i + 8);
        };
        assert(batch_live(s[slot_at(head, k)]) <= 0);
    };
}

proof fn lemma_scan_exhausted_from(s: Seq<SeedBatch>, head: int, k: int)
    requires
        s.len() == 8,
        0 <= head < 8,
        0 <= k <= 8,
        scan_from(s, head, k) == 8,
    ensures
        forall|kk: int| k <= kk < 8 ==> batch_live(s[#[trigger] slot_at(head, kk)]) <= 0,
    decreases 8 - k,
{
    if k < 8 {
        assert(batch_live(s[slot_at(head, k)]) <= 0);
        lemma_scan_exhausted_from(s, head, k + 1);
    }
}

/// Recursive mirror of `scan_from` over the concrete ring.
fn find_live_slot(batches: &Vec<SeedBatch>, head: u8, k: usize) -> (r: usize)
    requires
        batches.len() == 8,
        head < 8,
        k <= 8,
    ensures
        r as int == scan_from(batches@, head as int, k as int),
        r <= 8,
    decreases 8 - k,
{
    if k >= MAX_BATCHES {
        MAX_BATCHES
    } else {
        let j = (head as usize + k) % MAX_BATCHES;
        assert(j as int == slot_at(head as int, k as int));
        if batches[j].count > batches[j].consumed {
            j
        } else {
            find_live_slot(batches, head, k + 1)
        }
    }
}

/// Creates an empty pool owned by `authority` and refillable by `vrf_oracle`.
pub fn create_entropy_pool(authority: u64, vrf_oracle: u64, now: i64) -> (p: EntropyPool)
    ensures
        p.wf(),
        p@.authority == authority,
        p@.vrf_oracle == vrf_oracle,
        p@.head == 0,
        p@.tail == 0,
        p@.total_available == 0,
        p@.global_next_index == 0,
        p@.last_refill_ts == now as int,
        forall|i: int| 0 <= i < 8 ==> batch_empty(#[trigger] p@.batches[i]),
{
    let mut batches: Vec<SeedBatch> = Vec::new();
    let mut i: usize = 0;
    while i < MAX_BATCHES
        invariant
            i <= 8,
            batches.len() == i,
            forall|j: int| 0 <= j < i ==> batch_empty(#[trigger] batches@[j]),
        decreases MAX_BATCHES - i,
    {
        batches.push(SeedBatch::default());
        i += 1;
    }
    let p = EntropyPool {
        authority,
        vrf_oracle,
        head: 0,
        tail: 0,
        total_available: 0,
        global_next_index: 0,
        last_refill_ts: now,
        batches,
    };
    proof {
        lemma_avail_zero(p@.batches);
    }
    p
}

impl EntropyPool {
    /// Refills the tail ring slot with a freshly committed batch.
    ///
    /// Only the designated oracle or the pool authority may refill; a zero
    /// count is rejected; a start below the watermark is rejected outright
    /// (rollback guard); the tail slot must have been fully consumed before
    /// it can be reused; and the new range must fit the watermark's width.
    pub fn refill_seed_batch(
        &mut self,
        refiller: u64,
        seed: [u8; SEED_LEN],
        start_index: u64,
        count: u32,
        now: i64,
    ) -> (r: Result<(), GameError>)
        requires
            old(self).wf(),
        ensures
            final(self).wf(),
            r is Err ==> final(self)@ == old(self)@,
            ({
                let m = old(self)@;
                if refiller != m.vrf_oracle && refiller != m.authority {
                    r == Err::<(), GameError>(GameError::UnauthorizedRefill)
                } else if count == 0 {
                    r == Err::<(), GameError>(GameError::InvalidRange)
                } else if (start_index as int) < m.global_next_index {
                    r == Err::<(), GameError>(GameError::SeedReplay)
                } else if batch_live(m.batches[m.tail]) != 0 {
                    r == Err::<(), GameError>(GameError::EntropyPoolFull)
                } else if start_index as int + count as int > u64::MAX {
                    r == Err::<(), GameError>(GameError::MathOverflow)
                } else {
                    &&& r is Ok
                    &&& final(self)@ == refill_step(m, seed, start_index, count, now)
                    &&& final(self).global_next_index == start_index + count
                    &&& final(self).total_available == old(self).total_available + count
                }
            }),
    {
        if refiller != self.vrf_oracle && refiller != self.authority {
            return Err(GameError::UnauthorizedRefill);
        }
        if count == 0 {
            return Err(GameError::InvalidRange);
        }
        if start_index < self.global_next_index {
            return Err(GameError::SeedReplay);
        }
        let tail = self.tail as usize;
        if self.batches[tail].count > self.batches[tail].consumed {
            return Err(GameError::EntropyPoolFull);
        }
        if start_index > u64::MAX - count as u64 {
            return Err(GameError::MathOverflow);
        }
        let nb = SeedBatch { seed, start: start_index, count, consumed: 0 };
        proof {
            lemma_avail_update(self@.batches, tail as int, nb);
            lemma_avail_bounds(self@.batches);
        }
        self.batches[tail] = nb;
        self.tail = (self.tail + 1) % 8;
        self.total_available = self.total_available + count as u64;
        self.global_next_index = start_index + count as u64;
        self.last_refill_ts = now;
        proof {
            assert(final(self)@ =~= refill_step(old(self)@, seed, start_index, count, now));
        }
        Ok(())
    }

    /// An exact copy of the pool, so that an operation making several draws
    /// can stay all-or-nothing: it draws on the copy and commits only when
    /// every step went through.
    pub fn duplicate(&self) -> (r: EntropyPool)
        ensures
            r@ == self@,
    {
        let mut batches: Vec<SeedBatch> = Vec::new();
        let mut i: usize = 0;
        while i < self.batches.len()
            invariant
                i <= self.batches.len(),
                batches@ == self.batches@.subrange(0, i as int),
            decreases self.batches.len() - i,
        {
            batches.push(self.batches[i]);
            proof {
                assert(batches@ =~= self.batches@.subrange(0, i + 1));
            }
            i += 1;
        }
        proof {
            assert(batches@ =~= self.batches@);
        }
        let r = EntropyPool {
            authority: self.authority,
            vrf_oracle: self.vrf_oracle,
            head: self.head,
            tail: self.tail,
            total_available: self.total_available,
            global_next_index: self.global_next_index,
            last_refill_ts: self.last_refill_ts,
            batches,
        };
        proof {
            assert(r@ =~= self@);
        }
        r
    }

    /// Draws one entropy entry bound to `(signer, user_seed, turn_number)`,
    /// reduced into `[min, max]`, and returns it with the absolute global
    /// offset it consumed so the caller can enforce its own monotonic draw
    /// ordering. The one range left out is the full 64-bit one, whose width
    /// of two to the sixty-fourth has no 64-bit representation to reduce by.
    pub fn consume_mixed_u64_return_index(
        &mut self,
        signer: u64,
        user_seed: u8,
        turn_number: u32,
        min: u64,
        max: u64,
    ) -> (r: Result<(u64, u64), GameError>)
        requires
            old(self).wf(),
            !(min == 0 && max == u64::MAX),
        ensures
            final(self).wf(),
            r is Err ==> final(self)@ == old(self)@,
            max < min ==> r == Err::<(u64, u64), GameError>(GameError::InvalidRange),
            max >= min && old(self).total_available == 0 ==> r == Err::<(u64, u64), GameError>(
                GameError::NoEntropyAvailable,
            ),
            max >= min && old(self).total_available > 0 ==> ({
                let m = old(self)@;
                let v = draw_val(m, signer, user_seed, turn_number, min, max);
                let idx = next_offset(m);
                &&& has_live(m)
                &&& r == Ok::<(u64, u64), GameError>((v, idx as u64))
                &&& min <= v <= max
                &&& 0 <= idx < m.global_next_index
                &&& offset_live(m, idx)
                &&& !offset_live(final(self)@, idx)
                &&& final(self)@ == draw_step(m)
                &&& final(self).total_available == old(self).total_available - 1
                &&& final(self).global_next_index == old(self).global_next_index
            }),
    {
        if max < min {
            return Err(GameError::InvalidRange);
        }
        if self.total_available == 0 {
            return Err(GameError::NoEntropyAvailable);
        }
        proof {
            lemma_scan_props(self@.batches, self@.head, 0);
        }
        let j = find_live_slot(&self.batches, self.head, 0);
        if j >= MAX_BATCHES {
            proof {
                lemma_scan_exhausted(self@.batches, self@.head);
                lemma_avail_zero(self@.batches);
                assert(false);
            }
            return Err(GameError::NoEntropyAvailable);
        }
        let b = self.batches[j];
        assert(b.start + b.consumed as u64 <= u64::MAX) by {
            assert(b.start + b.count <= old(self)@.global_next_index);
        };
        let offset = b.start + b.consumed as u64;
        let value_raw = hash_to_u64(&b.seed, offset, signer, user_seed, turn_number);
        let range = max - min + 1;
        let value = min + value_raw % range;
        let nb = SeedBatch { seed: b.seed, start: b.start, count: b.count, consumed: b.consumed + 1 };
        proof {
            lemma_avail_update(self@.batches, j as int, nb);
        }
        self.batches[j] = nb;
        self.total_available = self.total_available - 1;
        if nb.consumed >= nb.count {
            self.head = (self.head + 1) % 8;
        }
        proof {
            let m = old(self)@;
            assert(final(self)@ =~= draw_step(m));
            assert(offset_live(m, offset as int)) by {
                assert(m.batches[j as int].start + m.batches[j as int].consumed <= (offset as int)
                    < m.batches[j as int].start + m.batches[j as int].count);
            };
            assert(!offset_live(final(self)@, offset as int)) by {
                let mm = final(self)@;
                assert forall|i: int|
                    0 <= i < mm.batches.len() implies !((#[trigger] mm.batches[i]).start
                    + mm.batches[i].consumed <= (offset as int) < mm.batches[i].start
                    + mm.batches[i].count) by {
                    if i == j as int {
                    } else {
                        assert(range_sep(m.batches[i], m.batches[j as int]));
                        assert(mm.batches[i] == m.batches[i]);
                    }
                };
            };
        }
        Ok((value, offset))
    }
}

/// Sum of a run of refill counts.
pub open spec fn sum_counts(counts: Seq<u32>) -> int
    decreases counts.len(),
{
    if counts.len() == 0 {
        0
    } else {
        counts[0] + sum_counts(counts.subrange(1, counts.len() as int))
    }
}

/// Watermark after a run of contiguous refills, each starting exactly at the
/// watermark it finds (`refill_seed_batch` then moves the watermark to
/// `start_index + count`, by its `ensures`).
pub open spec fn watermark_after(w0: int, counts: Seq<u32>) -> int
    decreases counts.len(),
{
    if counts.len() == 0 {
        w0
    } else {
        watermark_after(w0 + counts[0], counts.subrange(1, counts.len() as int))
    }
}

/// Law: a run of contiguous valid refills advances the watermark by exactly
/// the sum of the refilled counts.
pub proof fn lemma_watermark_after_sum(w0: int, counts: Seq<u32>)
    ensures
        watermark_after(w0, counts) == w0 + sum_counts(counts),
    decreases counts.len(),
{
    if counts.len() > 0 {
        lemma_watermark_after_sum(w0 + counts[0], counts.subrange(1, counts.len() as int));
    }
}

/// Law: a handed-out offset never comes back — drawing only shrinks the live
/// ranges, so an offset no batch holds stays out of reach of every later
/// draw on the same ring contents.
pub proof fn lemma_draw_keeps_offsets_dead(m: PoolModel, o: int)
    requires
        pool_wf(m),
        has_live(m),
        !offset_live(m, o),
    ensures
        !offset_live(draw_step(m), o),
{
    lemma_scan_props(m.batches, m.head, 0);
    let mm = draw_step(m);
    let j = scan_slot(m);
    assert forall|i: int|
        0 <= i < mm.batches.len() implies !((#[trigger] mm.batches[i]).start
        + mm.batches[i].consumed <= o < mm.batches[i].start + mm.batches[i].count) by {
        assert(!(m.batches[i].start + m.batches[i].consumed <= o < m.batches[i].start
            + m.batches[i].count));
        if i == j {
            assert(mm.batches[i].consumed == m.batches[i].consumed + 1);
        } else {
            assert(mm.batches[i] == m.batches[i]);
        }
    };
}

/// Law: a refill cannot revive a spent offset — the slot it overwrites is
/// drained and the fresh batch claims a range at or above the watermark,
/// strictly above everything ever handed out.
pub proof fn lemma_refill_keeps_offsets_dead(
    m: PoolModel,
    seed: [u8; SEED_LEN],
    start: u64,
    count: u32,
    now: i64,
    o: int,
)
    requires
        pool_wf(m),
        !offset_live(m, o),
        o < start,
    ensures
        !offset_live(refill_step(m, seed, start, count, now), o),
{
    let mm = refill_step(m, seed, start, count, now);
    assert forall|i: int|
        0 <= i < mm.batches.len() implies !((#[trigger] mm.batches[i]).start
        + mm.batches[i].consumed <= o < mm.batches[i].start + mm.batches[i].count) by {
        if i == m.tail {
            assert(mm.batches[i].start == start);
        } else {
            assert(mm.batches[i] == m.batches[i]);
            assert(!(m.batches[i].start + m.batches[i].consumed <= o < m.batches[i].start
                + m.batches[i].count));
        }
    };
}

/// Law: a draw is a pure function of the committed seed, the absolute offset,
/// the requester, the domain tag, the turn number and the range: two pools
/// whose rings are in identical consumption state hand identical values and
/// offsets to identical requests.
pub proof fn lemma_draw_deterministic(
    p: PoolModel,
    q: PoolModel,
    signer: u64,
    tag: u8,
    turn: u32,
    min: u64,
    max: u64,
)
    requires
        p.batches == q.batches,
        p.head == q.head,
    ensures
        draw_val(p, signer, tag, turn, min, max) == draw_val(q, signer, tag, turn, min, max),
        next_offset(p) == next_offset(q),
{
}

} // verus!

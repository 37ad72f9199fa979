use vstd::prelude::*;
use crate::messages::bank_program_bytes;
use crate::messages::bend_reset_bytes;
use crate::messages::bend_params;
use crate::messages::choose_patch;
use crate::patch::Patch;

verus! {

/// An inclusive range of MIDI channels: the channels of one MPE zone.
#[derive(Debug, Clone, Copy, PartialEq, Eq, Structural)]
pub struct ChannelRange {
    pub lo: u8,
    pub hi: u8,
}

impl ChannelRange {
    /// Both bounds lie within 1 to 16 and do not cross.
    pub open spec fn wf(self) -> bool {
        1 <= self.lo <= self.hi <= 16
    }

    /// The number of channels in the range.
    pub open spec fn size(self) -> int {
        self.hi - self.lo + 1
    }

    /// The lower MPE zone, channels 1 through 8.
    pub fn low() -> (r: ChannelRange)
        ensures
            r.lo == 1 && r.hi == 8,
            r.wf(),
    {
        ChannelRange { lo: 1, hi: 8 }
    }

    /// The upper MPE zone, channels 9 through 16.
    pub fn high() -> (r: ChannelRange)
        ensures
            r.lo == 9 && r.hi == 16,
            r.wf(),
    {
        ChannelRange { lo: 9, hi: 16 }
    }

    /// The whole device, channels 1 through 16.
    pub fn full() -> (r: ChannelRange)
        ensures
            r.lo == 1 && r.hi == 16,
            r.wf(),
    {
        ChannelRange { lo: 1, hi: 16 }
    }

    /// Builds a range from explicit bounds, refusing bounds outside 1 to 16
    /// or in the wrong order.
    pub fn new(lo: u8, hi: u8) -> (r: Option<ChannelRange>)
        ensures
            r is Some <==> 1 <= lo <= hi <= 16,
            r matches Some(cr) ==> cr.lo == lo && cr.hi == hi && cr.wf(),
    {
        if 1 <= lo && lo <= hi && hi <= 16 {
            Some(ChannelRange { lo, hi })
        } else {
            None
        }
    }
}

/// Message `i` of the sequence that applies a patch from channel `lo`
/// upward: messages come two per channel in ascending channel order, the
/// bank-and-program buffer first, the bend-reset buffer second.
pub open spec fn plan_message(pc: u8, msb: u8, lsb: u8, lo: u8, i: int) -> Seq<u8> {
    let c = (lo + i / 2) as u8;
    if i % 2 == 0 {
        bank_program_bytes(pc, msb, lsb, c)
    } else {
        bend_reset_bytes(c)
    }
}

/// Builds the buffers that apply `rp` across `mpe_range`, in send order:
/// for each channel in ascending order, the bank-and-program buffer, then
/// the bend-reset buffer — two buffers per channel, never interleaved or
/// reordered. The caller must hand each buffer to the transport in this
/// exact order and stop at the first send failure.
pub fn set_patch(rp: &Patch, mpe_range: ChannelRange) -> (msgs: Vec<Vec<u8>>)
    requires
        rp.wf(),
        mpe_range.wf(),
    ensures
        msgs@.len() == 2 * mpe_range.size(),
        forall|i: int|
            0 <= i < msgs@.len() ==> #[trigger] msgs@[i]@ == plan_message(
                rp.pc,
                rp.msb,
                rp.lsb,
                mpe_range.lo,
                i,
            ),
{
    let mut msgs: Vec<Vec<u8>> = Vec::new();
    let mut c: u8 = mpe_range.lo;
    while c <= mpe_range.hi
        invariant
            rp.wf(),
            mpe_range.wf(),
            mpe_range.lo <= c <= mpe_range.hi + 1,
            msgs@.len() == 2 * (c - mpe_range.lo),
            forall|i: int|
                0 <= i < msgs@.len() ==> #[trigger] msgs@[i]@ == plan_message(
                    rp.pc,
                    rp.msb,
                    rp.lsb,
                    mpe_range.lo,
                    i,
                ),
        decreases mpe_range.hi + 1 - c,
    {
        let first = choose_patch(rp.pc, rp.msb, rp.lsb, c);
        msgs.push(first);
        let second = bend_params(c);
        msgs.push(second);
        proof {
            let k: int = 2 * (c - mpe_range.lo);
            assert(k % 2 == 0 && k / 2 == c - mpe_range.lo);
            assert((k + 1) % 2 == 1 && (k + 1) / 2 == c - mpe_range.lo);
        }
        c = c + 1;
    }
    msgs
}

/// Applying over a range touches no channel outside it: every message of
/// the sequence is the bank-and-program buffer or the bend-reset buffer of
/// a channel within the range — the returned one — so the other channels
/// receive nothing.
pub proof fn lemma_messages_stay_in_range(
    pc: u8,
    msb: u8,
    lsb: u8,
    range: ChannelRange,
    i: int,
) -> (c: u8)
    requires
        range.wf(),
        0 <= i < 2 * range.size(),
    ensures
        range.lo <= c <= range.hi,
        plan_message(pc, msb, lsb, range.lo, i) == bank_program_bytes(pc, msb, lsb, c)
            || plan_message(pc, msb, lsb, range.lo, i) == bend_reset_bytes(c),
{
    let c: u8 = (range.lo + i / 2) as u8;
    assert(0 <= i / 2 <= range.hi - range.lo);
    assert(range.lo <= c <= range.hi);
    if i % 2 == 0 {
        assert(plan_message(pc, msb, lsb, range.lo, i) == bank_program_bytes(pc, msb, lsb, c));
    } else {
        assert(plan_message(pc, msb, lsb, range.lo, i) == bend_reset_bytes(c));
    }
    c
}

} // verus!

//! Sample framing for pitch detection: microphone samples arrive in fixed
//! blocks from the audio callback, the consumer keeps a rolling window of the
//! most recent ones, and the detector analyses the last `WINDOW` of them.

use vstd::prelude::*;

verus! {

/// Analysis window size (samples). ~85 ms at 48 kHz: long enough to resolve low
/// notes and give a stable estimate, short enough to track real pitch changes.
pub const WINDOW: usize = 4096;

/// How many recent samples the consumer keeps available to the detector (twice
/// the analysis window, for slack).
pub const RING_CAP: usize = 8192;

/// Samples per message block handed from the audio callback to the consumer.
pub const BLOCK: usize = 128;

/// Channel depth in blocks (~170 ms at 48 kHz).
pub const CHANNEL_BLOCKS: usize = 64;

/// Keep only the most recent `cap` samples of the window.
pub fn trim_to_recent<T: Copy>(window: &mut Vec<T>, cap: usize)
    ensures
        final(window)@ == if old(window)@.len() > cap {
            old(window)@.subrange(old(window)@.len() - cap, old(window)@.len() as int)
        } else {
            old(window)@
        },
{
    let len = window.len();
    if len <= cap {
        return;
    }
    let skip = len - cap;
    let mut kept: Vec<T> = Vec::new();
    let mut i: usize = skip;
    while i < len
        invariant
            len == old(window)@.len(),
            window@ == old(window)@,
            skip == len - cap,
            skip <= i <= len,
            kept@ == old(window)@.subrange(skip as int, i as int),
        decreases len - i,
    {
        kept.push(window[i]);
        assert(old(window)@.subrange(skip as int, i as int).push(old(window)@[i as int])
            == old(window)@.subrange(skip as int, i + 1));
        i = i + 1;
    }
    *window = kept;
}

/// Where the analysis window starts in a buffer of `len` samples: the last
/// `WINDOW` of them, or none when fewer have arrived.
pub fn window_start(len: usize) -> (start: Option<usize>)
    ensures
        len >= WINDOW ==> start == Some((len - WINDOW) as usize),
        len < WINDOW ==> start is None,
{
    if len < WINDOW {
        None
    } else {
        Some(len - WINDOW)
    }
}

/// The audio callback's partly filled block.
#[derive(Clone, Copy, PartialEq, Eq, Debug, Structural)]
pub struct BlockFill {
    pub filled: usize,
}

impl BlockFill {
    /// An empty block.
    pub fn new() -> (b: BlockFill)
        ensures
            b.filled == 0,
    {
        BlockFill { filled: 0 }
    }

    /// Take one mono sample: returns the slot it goes into (none when the
    /// block is already full) and whether the block is now full and must be
    /// handed off, after which it refills from slot 0.
    pub fn place(&mut self) -> (r: (Option<usize>, bool))
        ensures
            old(self).filled < BLOCK ==> r.0 == Some(old(self).filled),
            old(self).filled >= BLOCK ==> r.0 is None,
            ({
                let after = if old(self).filled < BLOCK {
                    old(self).filled + 1
                } else {
                    old(self).filled as int
                };
                &&& r.1 == (after == BLOCK)
                &&& final(self).filled == if r.1 {
                    0
                } else {
                    after
                }
            }),
    {
        let slot = if self.filled < BLOCK {
            let s = self.filled;
            self.filled = self.filled + 1;
            Some(s)
        } else {
            None
        };
        if self.filled == BLOCK {
            self.filled = 0;
            (slot, true)
        } else {
            (slot, false)
        }
    }
}

} // verus!

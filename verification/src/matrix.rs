//! The activation matrix: for every stop of the instrument, the set of
//! virtual channels (0..=15) on which that stop is currently enabled.
//!
//! Each row is a 16-bit mask; bit `c` of row `s` says whether stop `s`
//! is enabled on channel `c`. A row of zero is the same as an absent
//! entry in a map-based representation: no channel enabled.

use vstd::prelude::*;

verus! {

/// The number of virtual channels per stop.
pub const CHANNEL_COUNT: u8 = 16;

/// The stop-by-channel boolean relation of currently enabled voices.
pub struct ActivationMatrix {
    rows: Vec<u16>,
}

/// Bit `c` of `mask`, as a boolean.
spec fn mask_bit(mask: u16, c: u16) -> bool {
    (mask >> c) & 1u16 == 1u16
}

proof fn lemma_mask_set(mask: u16, ch: u16, c: u16)
    by (bit_vector)
    requires
        ch < 16,
        c < 16,
    ensures
        ((mask | (1u16 << ch)) >> c) & 1u16 == (if c == ch {
            1u16
        } else {
            (mask >> c) & 1u16
        }),
{
}

proof fn lemma_mask_clear(mask: u16, ch: u16, c: u16)
    by (bit_vector)
    requires
        ch < 16,
        c < 16,
    ensures
        ((mask & !(1u16 << ch)) >> c) & 1u16 == (if c == ch {
            0u16
        } else {
            (mask >> c) & 1u16
        }),
{
}

impl ActivationMatrix {
    /// The number of stops the matrix covers.
    pub closed spec fn stop_count(self) -> int {
        self.rows@.len() as int
    }

    /// Whether stop `stop` is enabled on channel `ch`. False outside the
    /// valid index ranges.
    pub closed spec fn active(self, stop: int, ch: int) -> bool {
        &&& 0 <= stop < self.rows@.len()
        &&& 0 <= ch < 16
        &&& mask_bit(self.rows@[stop], ch as u16)
    }

    /// An empty matrix: no stop enabled on any channel.
    pub fn new(stop_count: usize) -> (m: ActivationMatrix)
        ensures
            m.stop_count() == stop_count,
            forall|s: int, c: int| !m.active(s, c),
    {
        let mut rows: Vec<u16> = Vec::new();
        let mut i: usize = 0;
        while i < stop_count
            invariant
                i <= stop_count,
                rows@.len() == i,
                forall|j: int| 0 <= j < i ==> rows@[j] == 0u16,
            decreases stop_count - i,
        {
            rows.push(0u16);
            i = i + 1;
        }
        let m = ActivationMatrix { rows };
        assert forall|s: int, c: int| !m.active(s, c) by {
            if 0 <= s < m.rows@.len() && 0 <= c < 16 {
                let cc = c as u16;
                assert((0u16 >> cc) & 1u16 == 0u16) by (bit_vector);
            }
        }
        m
    }

    /// Whether stop `stop` is currently enabled on channel `ch`.
    pub fn is_active(&self, stop: usize, ch: u8) -> (r: bool)
        requires
            stop < self.stop_count(),
            ch < CHANNEL_COUNT,
        ensures
            r == self.active(stop as int, ch as int),
    {
        let mask = self.rows[stop];
        ((mask >> (ch as u16)) & 1u16) == 1u16
    }

    /// Enables or disables channel `ch` for stop `stop`, idempotently:
    /// afterwards membership equals `active`, and no other pair moves.
    pub fn set(&mut self, stop: usize, ch: u8, active: bool)
        requires
            stop < old(self).stop_count(),
            ch < CHANNEL_COUNT,
        ensures
            final(self).stop_count() == old(self).stop_count(),
            final(self).active(stop as int, ch as int) == active,
            forall|s: int, c: int|
                !(s == stop && c == ch) ==> final(self).active(s, c) == old(self).active(s, c),
    {
        let mask = self.rows[stop];
        let bit: u16 = 1u16 << (ch as u16);
        let updated: u16 = if active {
            mask | bit
        } else {
            mask & !bit
        };
        self.rows.set(stop, updated);
        proof {
            assert forall|s: int, c: int|
                !(s == stop && c == ch) implies final(self).active(s, c) == old(self).active(
                s,
                c,
            ) by {
                if 0 <= s < old(self).rows@.len() && 0 <= c < 16 {
                    if s == stop {
                        if active {
                            lemma_mask_set(mask, ch as u16, c as u16);
                        } else {
                            lemma_mask_clear(mask, ch as u16, c as u16);
                        }
                    }
                }
            }
            if active {
                lemma_mask_set(mask, ch as u16, ch as u16);
            } else {
                lemma_mask_clear(mask, ch as u16, ch as u16);
            }
        }
    }

    /// Outside the valid stop and channel ranges nothing is ever
    /// reported active.
    pub proof fn lemma_active_in_range(self, stop: int, ch: int)
        ensures
            self.active(stop, ch) ==> 0 <= stop < self.stop_count() && 0 <= ch < 16,
    {
    }

    /// The channels on which `stop` is enabled, in ascending order, as
    /// the HTTP status report lists them.
    pub fn active_channels(&self, stop: usize) -> (r: Vec<u8>)
        requires
            stop < self.stop_count(),
        ensures
            forall|j: int, k: int| 0 <= j < k < r@.len() ==> r@[j] < r@[k],
            forall|j: int| 0 <= j < r@.len() ==> self.active(stop as int, r@[j] as int),
            forall|c: u8| c < CHANNEL_COUNT && self.active(stop as int, c as int) ==> r@.contains(c),
    {
        let mut r: Vec<u8> = Vec::new();
        let mut ch: u8 = 0;
        while ch < CHANNEL_COUNT
            invariant
                ch <= CHANNEL_COUNT,
                stop < self.stop_count(),
                forall|j: int, k: int| 0 <= j < k < r@.len() ==> r@[j] < r@[k],
                forall|j: int| 0 <= j < r@.len() ==> r@[j] < ch,
                forall|j: int| 0 <= j < r@.len() ==> self.active(stop as int, r@[j] as int),
                forall|c: u8| c < ch && self.active(stop as int, c as int) ==> r@.contains(c),
            decreases CHANNEL_COUNT - ch,
        {
            if self.is_active(stop, ch) {
                let ghost pre = r@;
                r.push(ch);
                assert forall|c: u8|
                    c < ch + 1 && self.active(stop as int, c as int) implies r@.contains(c) by {
                    if c < ch {
                        assert(pre.contains(c));
                        let j = choose|j: int| 0 <= j < pre.len() && pre[j] == c;
                        assert(r@[j] == c);
                    } else {
                        assert(r@[pre.len() as int] == c);
                    }
                }
            }
            ch = ch + 1;
        }
        r
    }
}

} // verus!

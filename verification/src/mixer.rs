//! Sample data as the pack stored it, so neither platform pays to convert.
//!
//! Every music layer reads from one shared playhead, so they cannot drift
//! apart. A handheld ships 8-bit mono to fit its memory; the desktop keeps the
//! stereo the composition was written in. This is how the mixer reads either.
use vstd::prelude::*;

use crate::rounding::{lemma_two_to_positive, two_to};

verus! {

#[derive(Clone, Copy)]
pub enum Samples<'a> {
    U8Mono(&'a [u8]),
    I16Mono(&'a [i16]),
    /// Interleaved left/right.
    I16Stereo(&'a [i16]),
}

/// Frames, not samples: a stereo frame is one position on the playhead.
pub open spec fn spec_frames(s: Samples) -> int {
    match s {
        Samples::U8Mono(d) => d@.len() as int,
        Samples::I16Mono(d) => d@.len() as int,
        Samples::I16Stereo(d) => (d@.len() / 2) as int,
    }
}

/// The 16-bit value of channel `ch` at `frame`. A mono source answers the same
/// for both channels; 8-bit data is unsigned with 128 at silence.
pub open spec fn spec_at(s: Samples, frame: int, ch: int) -> int {
    match s {
        Samples::U8Mono(d) => (d@[frame] as int - 128) * 256,
        Samples::I16Mono(d) => d@[frame] as int,
        Samples::I16Stereo(d) => d@[frame * 2 + ch] as int,
    }
}

impl<'a> Samples<'a> {
    pub fn frames(&self) -> (n: usize)
        ensures
            n == spec_frames(*self),
    {
        match self {
            Samples::U8Mono(s) => s.len(),
            Samples::I16Mono(s) => s.len(),
            Samples::I16Stereo(s) => s.len() / 2,
        }
    }

    pub fn is_empty(&self) -> (b: bool)
        ensures
            b == (spec_frames(*self) == 0),
    {
        self.frames() == 0
    }

    /// Channel `ch` (0 left, 1 right) at `frame`, as a 16-bit sample.
    pub fn at(&self, frame: usize, ch: usize) -> (v: i32)
        requires
            frame < spec_frames(*self),
            ch < 2,
        ensures
            v == spec_at(*self, frame as int, ch as int),
            -32768 <= v <= 32767,
    {
        match self {
            Samples::U8Mono(s) => (s[frame] as i32 - 128) * 256,
            Samples::I16Mono(s) => s[frame] as i32,
            Samples::I16Stereo(s) => {
                let n = s.len();
                assert(frame * 2 + ch < n);
                s[frame * 2 + ch] as i32
            },
        }
    }
}

/// A decoded sample of a `bits`-deep format brought to 16 bits: shifted down,
/// rounding towards minus infinity, from a deeper format, shifted up from a
/// shallower one, and held to the 16-bit range.
pub open spec fn spec_to_16_bit(sample: int, bits: int) -> int {
    let moved = if bits > 16 {
        sample / (two_to((bits - 16) as nat) as int)
    } else {
        sample * (two_to((16 - bits) as nat) as int)
    };
    if moved < -32768 {
        -32768
    } else if moved > 32767 {
        32767
    } else {
        moved
    }
}

fn power_of_two(k: u32) -> (p: i64)
    requires
        k <= 16,
    ensures
        p == two_to(k as nat),
        1 <= p <= 0x1_0000,
{
    let mut p: i64 = 1;
    let mut i: u32 = 0;
    proof {
        reveal_with_fuel(two_to, 17);
    }
    while i < k
        invariant
            i <= k <= 16,
            p == two_to(i as nat),
            two_to(16) == 0x1_0000,
        decreases k - i,
    {
        proof {
            lemma_two_to_adds(i as nat, (16 - i) as nat);
            lemma_two_to_positive((15 - i) as nat);
            assert(two_to((16 - i) as nat) == 2 * two_to((15 - i) as nat));
            assert(p * 2 <= 0x1_0000) by (nonlinear_arith)
                requires
                    p * two_to((16 - i) as nat) == 0x1_0000,
                    two_to((16 - i) as nat) >= 2,
                    p >= 0,
            ;
        }
        p = p * 2;
        i = i + 1;
    }
    proof {
        lemma_two_to_positive(k as nat);
        lemma_two_to_adds(k as nat, (16 - k) as nat);
        lemma_two_to_positive((16 - k) as nat);
        assert(p <= 0x1_0000) by (nonlinear_arith)
            requires
                p * two_to((16 - k) as nat) == 0x1_0000,
                two_to((16 - k) as nat) >= 1,
                p >= 1,
        ;
    }
    p
}

/// A sample of a `bits`-deep format as a 16-bit one. The sample is one the
/// format can hold, so moving it up loses nothing.
pub fn to_16_bit(sample: i32, bits: u32) -> (v: i16)
    requires
        1 <= bits <= 32,
        bits < 16 ==> -(two_to((bits - 1) as nat) as int) <= sample < two_to((bits - 1) as nat),
    ensures
        v == spec_to_16_bit(sample as int, bits as int),
{
    let s = sample as i64;
    let moved: i64 = if bits > 16 {
        let p = power_of_two(bits - 16);
        if s >= 0 {
            s / p
        } else {
            let q = (-s + p - 1) / p;
            proof {
                let n: int = -(s as int);
                let pi: int = p as int;
                let m: int = n + pi - 1;
                let si: int = s as int;
                vstd::arithmetic::div_mod::lemma_fundamental_div_mod(m, pi);
                vstd::arithmetic::div_mod::lemma_fundamental_div_mod(si, pi);
                assert(q == m / pi);
                assert(-q == si / pi) by (nonlinear_arith)
                    requires
                        n == -si,
                        n > 0,
                        pi >= 1,
                        m == n + pi - 1,
                        m == pi * q + m % pi,
                        0 <= m % pi < pi,
                        si == pi * (si / pi) + si % pi,
                        0 <= si % pi < pi,
                ;
            }
            -q
        }
    } else {
        let p = power_of_two(16 - bits);
        proof {
            if bits < 16 {
                assert(two_to((bits - 1) as nat) * two_to((16 - bits) as nat) == 0x8000) by {
                    lemma_two_to_adds((bits - 1) as nat, (16 - bits) as nat);
                    assert((bits - 1) as nat + (16 - bits) as nat == 15);
                    reveal_with_fuel(two_to, 16);
                    assert(two_to(15) == 0x8000);
                }
                assert(-0x8000 <= s * p <= 0x8000) by (nonlinear_arith)
                    requires
                        -(two_to((bits - 1) as nat) as int) <= s < two_to((bits - 1) as nat),
                        two_to((bits - 1) as nat) * p == 0x8000,
                        p >= 1,
                ;
            }
            assert(-0x8000_0000_0000 <= s * p <= 0x8000_0000_0000) by (nonlinear_arith)
                requires
                    -0x8000_0000 <= s <= 0x8000_0000,
                    1 <= p <= 0x1_0000,
            ;
        }
        s * p
    };
    if moved < -32768 {
        -32768
    } else if moved > 32767 {
        32767
    } else {
        moved as i16
    }
}

proof fn lemma_two_to_adds(a: nat, b: nat)
    ensures
        two_to(a) * two_to(b) == two_to(a + b),
    decreases a,
{
    if a > 0 {
        let a1 = (a - 1) as nat;
        lemma_two_to_adds(a1, b);
        assert(two_to(a) == 2 * two_to(a1));
        assert(a + b == (a1 + b) + 1);
        assert(two_to(a + b) == 2 * two_to(a1 + b));
        assert(two_to(a) * two_to(b) == 2 * (two_to(a1) * two_to(b))) by (nonlinear_arith)
            requires
                two_to(a) == 2 * two_to(a1),
        ;
    } else {
        assert(two_to(0) == 1);
    }
}

/// One decoded frame as a stereo pair: a mono frame's one sample on both
/// sides, otherwise the first two channels.
pub fn stereo_pair(frame: &[i16]) -> (pair: (i16, i16))
    requires
        frame@.len() >= 1,
    ensures
        pair == (if frame@.len() == 1 {
            (frame@[0], frame@[0])
        } else {
            (frame@[0], frame@[1])
        }),
{
    if frame.len() == 1 {
        (frame[0], frame[0])
    } else {
        (frame[0], frame[1])
    }
}

} // verus!

verus! {

use crate::audio::AudioEvent;

/// One sound effect as the mixer schedules it.
#[derive(Clone, Copy, Debug, PartialEq, Eq, Structural)]
pub struct SfxSlot {
    pub event: AudioEvent,
    /// Length of its sample data, in frames.
    pub frames: usize,
    /// How many copies of it may sound at once.
    pub max_voices: usize,
    /// How soon it may be started again after the last start, in frames.
    pub min_interval_frames: u64,
}

/// One playing copy of an effect: which effect, and how far into it.
#[derive(Clone, Copy, Debug, PartialEq, Eq, Structural)]
pub struct Voice {
    pub sfx: usize,
    pub pos: usize,
}

/// The effects a pack offers and the copies of them currently sounding.
pub struct VoiceBank {
    slots: Vec<SfxSlot>,
    voices: Vec<Voice>,
    last_fired: Vec<u64>,
    frames: u64,
}

/// What a [`VoiceBank`] holds.
pub struct VoiceBankView {
    pub slots: Seq<SfxSlot>,
    pub voices: Seq<Voice>,
    pub last_fired: Seq<u64>,
    /// Frames rendered since the bank was made.
    pub frames: u64,
}

impl View for VoiceBank {
    type V = VoiceBankView;

    closed spec fn view(&self) -> VoiceBankView {
        VoiceBankView {
            slots: self.slots@,
            voices: self.voices@,
            last_fired: self.last_fired@,
            frames: self.frames,
        }
    }
}

/// The first effect answering to `event`, from position `i` on.
pub open spec fn slot_for_from(slots: Seq<SfxSlot>, event: AudioEvent, i: int) -> Option<int>
    decreases slots.len() - i,
{
    if i >= slots.len() || i < 0 {
        None
    } else if slots[i].event == event {
        Some(i)
    } else {
        slot_for_from(slots, event, i + 1)
    }
}

pub open spec fn slot_for(slots: Seq<SfxSlot>, event: AudioEvent) -> Option<int> {
    slot_for_from(slots, event, 0)
}

/// How many of the first `n` voices play effect `sfx`.
pub open spec fn live_before(voices: Seq<Voice>, sfx: int, n: int) -> int
    decreases n,
{
    if n <= 0 {
        0
    } else {
        live_before(voices, sfx, n - 1) + if voices[n - 1].sfx == sfx {
            1int
        } else {
            0
        }
    }
}

pub open spec fn live(voices: Seq<Voice>, sfx: int) -> int {
    live_before(voices, sfx, voices.len() as int)
}

/// The oldest voice of effect `sfx`, from position `i` on.
pub open spec fn oldest_from(voices: Seq<Voice>, sfx: int, i: int) -> Option<int>
    decreases voices.len() - i,
{
    if i >= voices.len() || i < 0 {
        None
    } else if voices[i].sfx == sfx {
        Some(i)
    } else {
        oldest_from(voices, sfx, i + 1)
    }
}

/// Whether the retrigger guard turns a start of effect `idx` away: too soon
/// after the last start, except on the very first frame.
pub open spec fn too_soon(v: VoiceBankView, idx: int) -> bool {
    v.frames < v.last_fired[idx] + v.slots[idx].min_interval_frames && v.frames > 0
}

/// What `fire` does to a bank: `new` is `v` after `event` is fired.
pub open spec fn fire_step(v: VoiceBankView, event: AudioEvent, new: VoiceBankView) -> bool {
    &&& new.slots == v.slots
    &&& new.frames == v.frames
    &&& new.last_fired.len() == v.last_fired.len()
    &&& match slot_for(v.slots, event) {
        None => new == v,
        Some(idx) => if too_soon(v, idx) {
            new == v
        } else {
            &&& new.last_fired == v.last_fired.update(idx, v.frames)
            &&& new.voices == voices_after_start(v.voices, idx, v.slots[idx].max_voices)
        },
    }
}

/// The voices after starting effect `idx`: the oldest copy of it is stolen
/// when the cap is reached, and the new one goes on the end.
pub open spec fn voices_after_start(voices: Seq<Voice>, idx: int, max_voices: usize) -> Seq<Voice> {
    let kept = if live(voices, idx) >= max_voices {
        match oldest_from(voices, idx, 0) {
            Some(p) => voices.remove(p),
            None => voices,
        }
    } else {
        voices
    };
    kept.push(Voice { sfx: idx as usize, pos: 0 })
}

/// Where a voice is after `n` more frames, and whether it is still sounding.
pub open spec fn advanced(v: Voice, len: int, n: int) -> Voice {
    if v.pos >= len {
        v
    } else if v.pos + n >= len {
        Voice { pos: len as usize, ..v }
    } else {
        Voice { pos: (v.pos + n) as usize, ..v }
    }
}

/// The voices after `n` frames, finished ones dropped, from position `i` on.
pub open spec fn voices_after_frames(slots: Seq<SfxSlot>, voices: Seq<Voice>, n: int, i: int) -> Seq<Voice>
    decreases voices.len() - i,
{
    if i >= voices.len() || i < 0 {
        Seq::empty()
    } else {
        let a = advanced(voices[i], slots[voices[i].sfx as int].frames as int, n);
        let rest = voices_after_frames(slots, voices, n, i + 1);
        if a.pos >= slots[voices[i].sfx as int].frames {
            rest
        } else {
            seq![a] + rest
        }
    }
}

proof fn lemma_live_before_bounded(voices: Seq<Voice>, sfx: int, n: int)
    ensures
        0 <= live_before(voices, sfx, n),
        n >= 0 ==> live_before(voices, sfx, n) <= n,
    decreases n,
{
    if n > 0 {
        lemma_live_before_bounded(voices, sfx, n - 1);
    }
}

proof fn lemma_live_push(voices: Seq<Voice>, v: Voice, sfx: int)
    ensures
        live(voices.push(v), sfx) == live(voices, sfx) + if v.sfx == sfx { 1int } else { 0 },
{
    let p = voices.push(v);
    lemma_live_prefix_same(voices, p, sfx, voices.len() as int);
}

proof fn lemma_live_prefix_same(a: Seq<Voice>, b: Seq<Voice>, sfx: int, n: int)
    requires
        0 <= n <= a.len(),
        n <= b.len(),
        forall|i: int| 0 <= i < n ==> a[i] == b[i],
    ensures
        live_before(a, sfx, n) == live_before(b, sfx, n),
    decreases n,
{
    if n > 0 {
        lemma_live_prefix_same(a, b, sfx, n - 1);
    }
}

proof fn lemma_live_remove(voices: Seq<Voice>, p: int, sfx: int, n: int)
    requires
        0 <= p < n <= voices.len(),
    ensures
        live_before(voices.remove(p), sfx, n - 1) == live_before(voices, sfx, n) - if voices[p].sfx == sfx {
            1int
        } else {
            0
        },
    decreases n,
{
    let r = voices.remove(p);
    if n == p + 1 {
        lemma_live_prefix_same(voices, r, sfx, p);
    } else {
        lemma_live_remove(voices, p, sfx, n - 1);
        assert(r[n - 2] == voices[n - 1]);
    }
}

proof fn lemma_oldest_found(voices: Seq<Voice>, sfx: int, i: int)
    requires
        0 <= i <= voices.len(),
    ensures
        oldest_from(voices, sfx, i) matches Some(p) ==> i <= p < voices.len() && voices[p].sfx == sfx,
        oldest_from(voices, sfx, i) is None ==> live(voices, sfx) == live_before(voices, sfx, i),
    decreases voices.len() - i,
{
    if i < voices.len() {
        lemma_oldest_found(voices, sfx, i + 1);
        if voices[i].sfx != sfx {
            if oldest_from(voices, sfx, i + 1) is None {
                assert(live_before(voices, sfx, i + 1) == live_before(voices, sfx, i));
            }
        }
    }
}

proof fn lemma_slot_found(slots: Seq<SfxSlot>, event: AudioEvent, i: int)
    requires
        0 <= i,
    ensures
        slot_for_from(slots, event, i) matches Some(p) ==> i <= p < slots.len() && slots[p].event == event,
    decreases slots.len() - i,
{
    if i < slots.len() {
        lemma_slot_found(slots, event, i + 1);
    }
}

/// Starting an effect never takes it past its cap: a copy that would be one
/// too many steals the place of the oldest.
pub proof fn lemma_start_respects_the_cap(voices: Seq<Voice>, idx: int, max_voices: usize)
    requires
        max_voices >= 1,
        0 <= idx < usize::MAX,
        live(voices, idx) <= max_voices,
    ensures
        live(voices_after_start(voices, idx, max_voices), idx) <= max_voices,
        live(voices_after_start(voices, idx, max_voices), idx) >= 1,
{
    lemma_oldest_found(voices, idx, 0);
    let kept = if live(voices, idx) >= max_voices {
        match oldest_from(voices, idx, 0) {
            Some(p) => voices.remove(p),
            None => voices,
        }
    } else {
        voices
    };
    if live(voices, idx) >= max_voices {
        match oldest_from(voices, idx, 0) {
            Some(p) => {
                lemma_live_remove(voices, p, idx, voices.len() as int);
            },
            None => {
                assert(live(voices, idx) == 0);
            },
        }
    }
    lemma_live_before_bounded(kept, idx, kept.len() as int);
    lemma_live_push(kept, Voice { sfx: idx as usize, pos: 0 }, idx);
}

impl VoiceBank {
    pub fn new(slots: Vec<SfxSlot>) -> (b: Self)
        ensures
            b@.slots == slots@,
            b@.voices == Seq::<Voice>::empty(),
            b@.last_fired == Seq::new(slots@.len(), |i: int| 0u64),
            b@.frames == 0,
    {
        let mut last_fired: Vec<u64> = Vec::new();
        let mut i: usize = 0;
        while i < slots.len()
            invariant
                i <= slots@.len(),
                last_fired@ == Seq::new(i as nat, |k: int| 0u64),
            decreases slots@.len() - i,
        {
            last_fired.push(0);
            i += 1;
            assert(last_fired@ =~= Seq::new(i as nat, |k: int| 0u64));
        }
        VoiceBank { slots, voices: Vec::new(), last_fired, frames: 0 }
    }

    /// Starts a one-shot, honouring the effect's voice cap and retrigger guard.
    /// An event the pack has no effect for is ignored.
    pub fn fire(&mut self, event: AudioEvent)
        requires
            old(self)@.last_fired.len() == old(self)@.slots.len(),
        ensures
            final(self)@.slots == old(self)@.slots,
            final(self)@.frames == old(self)@.frames,
            final(self)@.last_fired.len() == old(self)@.last_fired.len(),
            match slot_for(old(self)@.slots, event) {
                None => final(self)@ == old(self)@,
                Some(idx) => if too_soon(old(self)@, idx) {
                    final(self)@ == old(self)@
                } else {
                    &&& final(self)@.last_fired == old(self)@.last_fired.update(idx, old(self)@.frames)
                    &&& final(self)@.voices == voices_after_start(
                        old(self)@.voices,
                        idx,
                        old(self)@.slots[idx].max_voices,
                    )
                },
            },
            fire_step(old(self)@, event, final(self)@),
    {
        let mut idx: usize = 0;
        let mut found = false;
        while idx < self.slots.len()
            invariant_except_break
                idx <= self.slots@.len(),
                !found,
                slot_for(self.slots@, event) == slot_for_from(self.slots@, event, idx as int),
            ensures
                found ==> idx < self.slots@.len() && slot_for(self.slots@, event) == Some(idx as int),
                !found ==> slot_for(self.slots@, event) is None,
            decreases self.slots@.len() - idx,
        {
            if self.slots[idx].event == event {
                found = true;
                break;
            }
            idx += 1;
        }
        if !found {
            return;
        }
        let slot = self.slots[idx];
        if (self.frames as u128) < self.last_fired[idx] as u128 + slot.min_interval_frames as u128 && self.frames > 0 {
            return;
        }
        let mut count: usize = 0;
        let mut oldest: Option<usize> = None;
        let mut i: usize = 0;
        while i < self.voices.len()
            invariant
                i <= self.voices@.len(),
                count == live_before(self.voices@, idx as int, i as int),
                oldest is None ==> oldest_from(self.voices@, idx as int, 0) == oldest_from(
                    self.voices@,
                    idx as int,
                    i as int,
                ),
                oldest matches Some(p) ==> oldest_from(self.voices@, idx as int, 0) == Some(p as int)
                    && p < self.voices@.len(),
            decreases self.voices@.len() - i,
        {
            proof {
                lemma_live_before_bounded(self.voices@, idx as int, i as int);
            }
            if self.voices[i].sfx == idx {
                count = count + 1;
                if oldest.is_none() {
                    oldest = Some(i);
                }
            }
            i += 1;
        }
        if count >= slot.max_voices {
            // Steal the oldest of this sound rather than refuse to play.
            if let Some(p) = oldest {
                self.voices.remove(p);
            }
        }
        self.last_fired.set(idx, self.frames);
        self.voices.push(Voice { sfx: idx, pos: 0 });
    }

    /// Moves every voice `n` frames on and drops the ones that have finished.
    pub fn advance(&mut self, n: usize)
        requires
            forall|i: int|
                0 <= i < old(self)@.voices.len() ==> (#[trigger] old(self)@.voices[i]).sfx < old(self)@.slots.len(),
        ensures
            final(self)@.voices == voices_after_frames(old(self)@.slots, old(self)@.voices, n as int, 0),
            final(self)@.slots == old(self)@.slots,
            final(self)@.last_fired == old(self)@.last_fired,
            final(self)@.frames == old(self)@.frames,
    {
        let mut kept: Vec<Voice> = Vec::new();
        let mut i: usize = self.voices.len();
        while i > 0
            invariant
                i <= self.voices@.len(),
                kept@ == voices_after_frames(self.slots@, self.voices@, n as int, i as int),
                forall|k: int| 0 <= k < self@.voices.len() ==> (#[trigger] self@.voices[k]).sfx < self@.slots.len(),
            decreases i,
        {
            i -= 1;
            let v = self.voices[i];
            assert(self@.voices[i as int] == v);
            let len = self.slots[v.sfx].frames;
            let a = if v.pos >= len {
                v
            } else if n >= len - v.pos {
                Voice { pos: len, ..v }
            } else {
                Voice { pos: v.pos + n, ..v }
            };
            if a.pos < len {
                kept.insert(0, a);
            }
            proof {
                assert(kept@ =~= voices_after_frames(self.slots@, self.voices@, n as int, i as int));
            }
        }
        self.voices = kept;
    }

    /// Counts rendered frames, which is what the retrigger guard measures.
    pub fn tick(&mut self, n: u64)
        requires
            old(self)@.frames + n <= u64::MAX,
        ensures
            final(self)@.frames == old(self)@.frames + n,
            final(self)@.voices == old(self)@.voices,
            final(self)@.slots == old(self)@.slots,
            final(self)@.last_fired == old(self)@.last_fired,
    {
        self.frames = self.frames + n;
    }

    /// Stops every voice at once, for a muted tick.
    pub fn silence(&mut self)
        ensures
            final(self)@.voices == Seq::<Voice>::empty(),
            final(self)@.slots == old(self)@.slots,
            final(self)@.last_fired == old(self)@.last_fired,
            final(self)@.frames == old(self)@.frames,
    {
        self.voices = Vec::new();
    }

    pub fn voice_count(&self) -> (n: usize)
        ensures
            n == self@.voices.len(),
    {
        self.voices.len()
    }

    pub fn voice(&self, i: usize) -> (v: Voice)
        requires
            i < self@.voices.len(),
        ensures
            v == self@.voices[i as int],
    {
        self.voices[i]
    }

    pub fn slot(&self, i: usize) -> (s: SfxSlot)
        requires
            i < self@.slots.len(),
        ensures
            s == self@.slots[i as int],
    {
        self.slots[i]
    }
}

/// The first effect found for an event is a real slot answering to it.
proof fn lemma_slot_found_is_real(slots: Seq<SfxSlot>, event: AudioEvent, i: int)
    ensures
        slot_for_from(slots, event, i) matches Some(idx) ==> i <= idx < slots.len() && slots[idx].event == event,
    decreases slots.len() - i,
{
    if 0 <= i < slots.len() && slots[i].event != event {
        lemma_slot_found_is_real(slots, event, i + 1);
    }
}

/// The retrigger guard runs from the effect's own last start. Once the bank
/// has played anything, firing an effect within its `min_interval_frames` of
/// that effect's last start is refused and leaves the bank exactly as it was;
/// at or past that point, or before the bank has played a frame, the effect
/// starts: its last start becomes now, and it is the newest voice, from its
/// first frame.
pub proof fn lemma_retrigger_guard_runs_from_the_last_start(
    v: VoiceBankView,
    event: AudioEvent,
    new: VoiceBankView,
    idx: int,
)
    requires
        fire_step(v, event, new),
        slot_for(v.slots, event) == Some(idx),
        v.last_fired.len() == v.slots.len(),
    ensures
        0 <= idx < v.slots.len(),
        v.slots[idx].event == event,
        v.frames > 0 && v.frames < v.last_fired[idx] + v.slots[idx].min_interval_frames ==> new == v,
        v.frames == 0 || v.frames >= v.last_fired[idx] + v.slots[idx].min_interval_frames ==> {
            &&& new.last_fired[idx] == v.frames
            &&& new.voices.len() >= 1
            &&& new.voices.last() == (Voice { sfx: idx as usize, pos: 0 })
        },
{
    lemma_slot_found_is_real(v.slots, event, 0);
}

} // verus!

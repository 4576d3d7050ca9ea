//! Spreading one logical oscillator across several detuned voices.
//!
//! The pitch arithmetic is exact: pitches are thousandths of a MIDI note
//! number, and each voice sits above the common pitch by an offset that
//! grows with its distance from the centre voice. Turning the voice
//! pitches into band-limited waveforms is the signal-processing
//! collaborator's work, outside this crate.

use vstd::prelude::*;

verus! {

/// How far voice `i` of `voices` sits above the common pitch, in
/// thousandths of a note: the detune spread, scaled by the voice's
/// distance from the centre voice as a fraction of the voice count,
/// doubled so that the outermost voices reach the full spread on either
/// side of a symmetric set. A single voice has no offset at all.
pub open spec fn spec_detune_offset(voices: int, detune: u32, i: int) -> int {
    let c = voices / 2;
    let k = if i >= c {
        i - c
    } else {
        c - i
    };
    detune * k * 2 / voices
}

/// With a single voice the spread term vanishes for every detune value:
/// the set plays the plain, undetuned pitch.
pub proof fn lemma_single_voice_not_detuned(detune: u32)
    ensures
        spec_detune_offset(1, detune, 0) == 0,
{
}

/// The detune offsets are symmetric around the centre voice: two voices
/// at equal distance either side of it are detuned by the same amount.
pub proof fn lemma_detune_symmetric(voices: int, detune: u32, k: int)
    requires
        voices >= 1,
        0 <= voices / 2 - k,
        voices / 2 + k < voices,
    ensures
        spec_detune_offset(voices, detune, voices / 2 - k) == spec_detune_offset(
            voices,
            detune,
            voices / 2 + k,
        ),
{
}

/// One logical oscillator spread over `voices` detuned sub-voices.
pub struct UnisonOscillator {
    voices: usize,
    detune: u32,
    note: u32,
}

impl UnisonOscillator {
    /// A unison set always holds at least one voice.
    pub closed spec fn wf(&self) -> bool {
        self.voices >= 1
    }

    /// Number of sub-voices.
    pub closed spec fn voices(&self) -> usize {
        self.voices
    }

    /// Detune spread, in thousandths of a note.
    pub closed spec fn detune(&self) -> u32 {
        self.detune
    }

    /// The common pitch the set is playing, in thousandths of a note.
    pub closed spec fn note(&self) -> u32 {
        self.note
    }

    /// Create a set of `voice_number` voices with the given spread. The
    /// set starts on MIDI note 64, the idle pitch of the engines, until a
    /// note is set.
    pub fn new(voice_number: usize, detune: u32) -> (r: Self)
        requires
            voice_number >= 1,
        ensures
            r.wf(),
            r.voices() == voice_number,
            r.detune() == detune,
            r.note() == 64_000u32,
    {
        UnisonOscillator { voices: voice_number, detune, note: 64_000 }
    }

    /// Point every voice at a new common pitch, in thousandths of a note.
    pub fn set_note(&mut self, note: u32)
        ensures
            final(self).wf() == old(self).wf(),
            final(self).voices() == old(self).voices(),
            final(self).detune() == old(self).detune(),
            final(self).note() == note,
    {
        self.note = note;
    }

    /// The pitch voice `i` plays: the common pitch plus the voice's
    /// detune offset. With a single voice this is the common pitch
    /// itself, whatever the spread.
    pub fn voice_pitch(&self, i: usize) -> (p: u64)
        requires
            self.wf(),
            i < self.voices(),
        ensures
            p == self.note() + spec_detune_offset(self.voices() as int, self.detune(), i as int),
            self.voices() == 1 ==> p == self.note(),
    {
        let center: usize = self.voices / 2;
        let k: usize = if i >= center {
            i - center
        } else {
            center - i
        };
        proof {
            assert(self.detune as int * k as int * 2 <= self.detune as int * self.voices as int
                * 2) by (nonlinear_arith)
                requires
                    0 <= self.detune,
                    0 <= k <= self.voices,
            ;
            vstd::arithmetic::div_mod::lemma_div_is_ordered(
                self.detune as int * k as int * 2,
                self.detune as int * self.voices as int * 2,
                self.voices as int,
            );
            assert(self.detune as int * self.voices as int * 2 == self.voices as int * (
            self.detune as int * 2)) by (nonlinear_arith);
            vstd::arithmetic::div_mod::lemma_div_multiples_vanish(
                self.detune as int * 2,
                self.voices as int,
            );
            vstd::arithmetic::div_mod::lemma_div_pos_is_pos(
                self.detune as int * k as int * 2,
                self.voices as int,
            );
            assert(self.detune as int * k as int * 2 >= 0) by (nonlinear_arith)
                requires
                    0 <= self.detune,
                    0 <= k,
            ;
            assert(self.detune as int * k as int * 2
                < 0x1_0000_0000_0000_0000_0000_0000_0000_0000) by (nonlinear_arith)
                requires
                    self.detune as int <= 0xFFFF_FFFFint,
                    k as int <= 0xFFFF_FFFF_FFFF_FFFFint,
            ;
            if self.voices == 1 {
                assert(k == 0);
                assert(self.detune as int * 0 * 2 == 0);
                lemma_single_voice_not_detuned(self.detune);
            }
        }
        let offset: u128 = (self.detune as u128) * (k as u128) * 2 / (self.voices as u128);
        (self.note as u64) + (offset as u64)
    }
}

} // verus!

//! The engine's control state: which note drives the oscillator, whether
//! the loudness contour gates the sound, and the discrete values of the
//! tuning, range, enable and volume controls.
//!
//! The audio callback outside the library polls one command per sample,
//! applies it here, and renders the signal from the resulting state; the
//! floating-point signal path itself lives at that edge.

use vstd::prelude::*;

verus! {

use crate::dispatcher::{OscillatorRange, SynthControl};
use crate::note_selector::{NO_NOTE, NoteSelector};

/// The note number whose pitch multiplier is unity: middle C.
pub const UNITY_NOTE: u64 = 60;

pub struct Synthesizer {
    pub note_selector: NoteSelector,
    pub current_note: u64,
    pub contour_on: bool,
    pub master_tune: u8,
    pub range: Option<OscillatorRange>,
    pub osc1_enabled: bool,
    pub osc1_volume: u8,
}

impl Synthesizer {
    pub open spec fn wf(&self) -> bool {
        self.note_selector.wf()
    }

    /// Creates the engine state at startup: no note held, the contour
    /// gate closed, centre tune, no range selected, the mixer muted.
    pub fn new() -> (r: Synthesizer)
        ensures
            r.wf(),
            r.note_selector.heap_wf(),
            r.note_selector.number_of_notes == 0,
            r.current_note == UNITY_NOTE,
            r.contour_on == false,
            r.master_tune == 64,
            r.range is None,
            r.osc1_enabled == false,
            r.osc1_volume == 0,
    {
        Synthesizer {
            note_selector: NoteSelector::new(),
            current_note: UNITY_NOTE,
            contour_on: false,
            master_tune: 64,
            range: None,
            osc1_enabled: false,
            osc1_volume: 0,
        }
    }

    /// A key went down: the note joins the selector, the lowest held note
    /// drives the oscillator, and the contour gate opens.
    pub fn turn_on_note(&mut self, note: u64) -> (r: u64)
        requires
            old(self).wf(),
            note < NO_NOTE,
        ensures
            final(self).wf(),
            r == final(self).current_note,
            final(self).contour_on == true,
            final(self).current_note == final(self).note_selector.notes@[1],
            final(self).master_tune == old(self).master_tune,
            final(self).range == old(self).range,
            final(self).osc1_enabled == old(self).osc1_enabled,
            final(self).osc1_volume == old(self).osc1_volume,
            old(self).note_selector.number_of_notes + 1 < 32 ==> final(self).note_selector.live()
                .to_multiset() == old(self).note_selector.live().to_multiset().insert(note),
            old(self).note_selector.heap_wf() ==> final(self).note_selector.heap_wf()
                && final(self).note_selector.live().contains(r) && (forall|i: int|
                0 <= i < final(self).note_selector.live().len() ==> r
                    <= #[trigger] final(self).note_selector.live()[i]),
    {
        let lowest = self.note_selector.turn_on_note(note);
        self.current_note = lowest;
        self.contour_on = true;
        lowest
    }

    /// A key came up: the note leaves the selector.  While other keys are
    /// held the lowest of them drives the oscillator; when the last key is
    /// released the contour gate closes and the oscillator keeps its note.
    pub fn turn_off_note(&mut self, note: u64) -> (r: Option<u64>)
        requires
            old(self).wf(),
        ensures
            final(self).wf(),
            final(self).master_tune == old(self).master_tune,
            final(self).range == old(self).range,
            final(self).osc1_enabled == old(self).osc1_enabled,
            final(self).osc1_volume == old(self).osc1_volume,
            old(self).note_selector.live().contains(note) ==> final(self).note_selector.live()
                .to_multiset() == old(self).note_selector.live().to_multiset().remove(note),
            !old(self).note_selector.live().contains(note) ==> final(self).note_selector.notes@
                == old(self).note_selector.notes@,
            r == if final(self).note_selector.notes@[1] < NO_NOTE {
                Some(final(self).note_selector.notes@[1])
            } else {
                Option::<u64>::None
            },
            r is Some ==> final(self).current_note == final(self).note_selector.notes@[1]
                && final(self).contour_on == old(self).contour_on,
            r is None ==> final(self).contour_on == false
                && final(self).current_note == old(self).current_note,
            old(self).note_selector.heap_wf() ==> match r {
                Some(v) => final(self).note_selector.live().contains(v) && (forall|i: int|
                    0 <= i < final(self).note_selector.live().len() ==> v
                        <= #[trigger] final(self).note_selector.live()[i]),
                None => final(self).note_selector.number_of_notes == 0,
            },
    {
        let lowest = self.note_selector.turn_off_note(note);
        match lowest {
            Some(n) => {
                self.current_note = n;
            },
            None => {
                self.contour_on = false;
            },
        }
        lowest
    }

    /// Applies one pending command, as the audio callback does once per
    /// sample after its non-blocking poll.
    pub fn apply_control(&mut self, control: SynthControl)
        requires
            old(self).wf(),
        ensures
            final(self).wf(),
            ({
                match control {
                    SynthControl::MasterTune(v) => *final(self) == Synthesizer {
                        master_tune: v,
                        ..*old(self)
                    },
                    SynthControl::Oscillator1Range(rg) => *final(self) == Synthesizer {
                        range: Some(rg),
                        ..*old(self)
                    },
                    SynthControl::Oscillator1Enable(b) => *final(self) == Synthesizer {
                        osc1_enabled: b,
                        ..*old(self)
                    },
                    SynthControl::Oscillator1Volume(v) => *final(self) == Synthesizer {
                        osc1_volume: v,
                        ..*old(self)
                    },
                    SynthControl::NoteOn(n) => {
                        &&& final(self).contour_on == true
                        &&& final(self).current_note == final(self).note_selector.notes@[1]
                        &&& final(self).master_tune == old(self).master_tune
                        &&& final(self).range == old(self).range
                        &&& final(self).osc1_enabled == old(self).osc1_enabled
                        &&& final(self).osc1_volume == old(self).osc1_volume
                        &&& (old(self).note_selector.number_of_notes + 1 < 32 ==> final(self)
                            .note_selector.live().to_multiset() == old(self).note_selector.live()
                            .to_multiset().insert(n as u64))
                    },
                    SynthControl::NoteOff(n) => {
                        &&& final(self).master_tune == old(self).master_tune
                        &&& final(self).range == old(self).range
                        &&& final(self).osc1_enabled == old(self).osc1_enabled
                        &&& final(self).osc1_volume == old(self).osc1_volume
                        &&& (old(self).note_selector.live().contains(n as u64) ==> final(self)
                            .note_selector.live().to_multiset() == old(self).note_selector.live()
                            .to_multiset().remove(n as u64))
                        &&& (final(self).note_selector.notes@[1] < NO_NOTE ==> final(self).current_note
                            == final(self).note_selector.notes@[1] && final(self).contour_on
                            == old(self).contour_on)
                        &&& (final(self).note_selector.notes@[1] == NO_NOTE ==> final(self).contour_on
                            == false && final(self).current_note == old(self).current_note)
                    },
                }
            }),
    {
        match control {
            SynthControl::MasterTune(v) => {
                self.master_tune = v;
            },
            SynthControl::Oscillator1Range(rg) => {
                self.range = Some(rg);
            },
            SynthControl::Oscillator1Enable(b) => {
                self.osc1_enabled = b;
            },
            SynthControl::Oscillator1Volume(v) => {
                self.osc1_volume = v;
            },
            SynthControl::NoteOn(n) => {
                let _ = self.turn_on_note(n as u64);
            },
            SynthControl::NoteOff(n) => {
                let _ = self.turn_off_note(n as u64);
            },
        }
    }
}

} // verus!

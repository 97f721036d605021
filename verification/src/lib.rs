//! A monophonic synthesizer core driven by USB MIDI devices.
//!
//! The crate holds the verified logic of the synthesizer: the USB-MIDI wire
//! codec (a stateful parser and a symmetric serializer), the control
//! dispatcher that translates MIDI events into typed synthesizer commands,
//! and the note allocator of the audio engine.  Device I/O and the
//! floating-point signal path live outside the library.

pub mod dispatcher;
pub mod midi_controller;
pub mod note_selector;
pub mod parser;
pub mod roundtrip;
pub mod serializer;
pub mod synthesizer;
pub mod usb_midi;

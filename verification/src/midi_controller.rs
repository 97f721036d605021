//! The controller-facing pieces of the library: the source tag attached to
//! incoming messages, the transport trait a device implements, and the
//! sender that writes serialized messages to a device in chunks.

use vstd::prelude::*;

verus! {

use crate::usb_midi::{MidiMessage, wire_bytes};

/// Which device an incoming MIDI message came from.
#[derive(Clone, Copy, PartialEq, Eq, Structural, Debug)]
pub enum MidiControllerType {
    Keyboard,
    ControlPanel,
}

/// An error from a MIDI device transport.
#[derive(Clone, Copy, PartialEq, Eq, Structural, Debug)]
pub enum MidiDeviceError {
    NotConnected,
    OperationNotSupported,
    Timeout,
    Transport,
}

/// A USB MIDI device, implemented outside the library by the actual
/// transport.  `read_bulk` fills a prefix of the buffer and reports its
/// length; `write_bulk` writes a prefix of the buffer and reports how many
/// bytes the device accepted.  The library holds every implementation to
/// these bounds; it promises nothing else about a transport it cannot see.
pub trait UsbMidiDevice {
    fn read_bulk(&self, buf: &mut Vec<u8>, timeout_ms: u64) -> (r: Result<usize, MidiDeviceError>)
        ensures
            final(buf)@.len() == old(buf)@.len(),
            r matches Ok(n) ==> n <= final(buf)@.len(),
    ;

    fn write_bulk(&self, buf: &[u8], timeout_ms: u64) -> (r: Result<usize, MidiDeviceError>)
        ensures
            r matches Ok(n) ==> n <= buf@.len(),
    ;
}

/// Writes MIDI messages to one device.
pub struct UsbMidiController<T: UsbMidiDevice> {
    pub device: T,
}

impl<T: UsbMidiDevice> UsbMidiController<T> {
    pub fn new(device: T) -> (r: UsbMidiController<T>)
        ensures
            r.device == device,
    {
        UsbMidiController { device }
    }

    /// Serializes the message on cable 0 and writes it to the device in
    /// chunks of at most 32 bytes, with a five-second timeout per write.
    /// On success the result counts the bytes the device accepted, never
    /// more than the serialized length; the first transport error ends the
    /// send and is returned.
    pub fn send_message(&self, msg: MidiMessage) -> (r: Result<usize, MidiDeviceError>)
        ensures
            r matches Ok(n) ==> n <= wire_bytes(msg@, 0).len(),
    {
        let ghost wire_len = wire_bytes(msg@, 0).len();
        let bytes = msg.serialize().into_bytes();
        let mut sent: usize = 0;
        let mut i: usize = 0;
        while i < bytes.len()
            invariant
                i <= bytes@.len(),
                bytes@.len() == wire_len,
                sent <= i,
            decreases bytes@.len() - i,
        {
            let end = if bytes.len() - i > 32 {
                i + 32
            } else {
                bytes.len()
            };
            let mut chunk: Vec<u8> = Vec::new();
            let mut j: usize = i;
            while j < end
                invariant
                    i <= j <= end,
                    end <= bytes@.len(),
                    chunk@.len() == j - i,
                decreases end - j,
            {
                chunk.push(bytes[j]);
                j = j + 1;
            }
            match self.device.write_bulk(chunk.as_slice(), 5000) {
                Ok(n) => {
                    sent = sent + n;
                },
                Err(e) => {
                    return Err(e);
                },
            }
            i = end;
        }
        Ok(sent)
    }
}

} // verus!

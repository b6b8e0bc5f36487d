//! The link port, as a stub: writing `SC` with bits 7 and 0 set (a transfer
//! on the internal clock) while no transfer is running sends the byte in
//! `SB` to an output queue and finishes at once, clearing `SC` bit 7.
use vstd::prelude::*;

verus! {

/// `$FF01`: the byte to send.
pub(crate) const SB_ADDR: u16 = 0xFF01;
/// `$FF02`: transfer control.
pub(crate) const SC_ADDR: u16 = 0xFF02;

/// The serial port state and the bytes sent so far.
pub struct SerialView {
    pub sb: u8,
    pub sc: u8,
    pub output: Seq<u8>,
}

impl SerialView {
    /// Whether writing `value` to `SC` starts a transfer.
    pub open spec fn starts_transfer(self, value: u8) -> bool {
        value & 0x81 == 0x81 && self.sc & 0x80 == 0x00
    }

    /// The port after `value` is written to `SC`: only bits 7, 1 and 0 are
    /// kept; a transfer queues `SB` and clears bit 7 again.
    pub open spec fn write_sc(self, value: u8) -> SerialView {
        if self.starts_transfer(value) {
            SerialView { sc: (value & 0x83) & !0x80u8, output: self.output.push(self.sb), ..self }
        } else {
            SerialView { sc: value & 0x83, ..self }
        }
    }
}

pub(crate) struct Serial {
    sb: u8,
    sc: u8,
    output: Vec<u8>,
}

impl View for Serial {
    type V = SerialView;

    closed spec fn view(&self) -> SerialView {
        SerialView { sb: self.sb, sc: self.sc, output: self.output@ }
    }
}

impl Serial {
    pub(crate) fn new() -> (s: Self)
        ensures
            s@ == (SerialView { sb: 0x00, sc: 0x7E, output: Seq::empty() }),
    {
        Self { sb: 0x00, sc: 0x7E, output: Vec::new() }
    }

    pub(crate) fn read(&self, addr: u16) -> (r: u8)
        requires
            addr == SB_ADDR || addr == SC_ADDR,
        ensures
            r == if addr == SB_ADDR { self@.sb } else { self@.sc },
    {
        if addr == SB_ADDR {
            self.sb
        } else {
            self.sc
        }
    }

    pub(crate) fn write(&mut self, addr: u16, value: u8)
        requires
            addr == SB_ADDR || addr == SC_ADDR,
        ensures
            final(self)@ == if addr == SB_ADDR {
                SerialView { sb: value, ..old(self)@ }
            } else {
                old(self)@.write_sc(value)
            },
    {
        if addr == SB_ADDR {
            self.sb = value;
        } else {
            let trigger = (value & 0x81) == 0x81 && (self.sc & 0x80) == 0x00;
            self.sc = value & 0x83;
            if trigger {
                self.output.push(self.sb);
                self.sc = self.sc & !0x80u8;
            }
        }
    }

    pub(crate) fn take_output(&mut self) -> (r: Vec<u8>)
        ensures
            r@ == old(self)@.output,
            final(self)@ == (SerialView { output: Seq::empty(), ..old(self)@ }),
    {
        let mut out = Vec::new();
        std::mem::swap(&mut out, &mut self.output);
        out
    }
}

/// Starting a transfer sends `SB` out: the byte joins the output queue and
/// the transfer is over at once, `SC` bit 7 clear again.
pub proof fn law_transfer_sends_sb(s: SerialView, value: u8)
    requires
        s.starts_transfer(value),
    ensures
        s.write_sc(value).output == s.output.push(s.sb),
        s.write_sc(value).sc & 0x80 == 0,
{
    assert(((value & 0x83) & !0x80u8) & 0x80 == 0) by (bit_vector);
}

} // verus!

//! The transport model.
//!
//! A [`Port`] stands for everything the driver talks to: the two-wire bus,
//! the optional wake output and the delay source.  Replies the hardware
//! would give are scripted in advance (one entry per bus transaction, one
//! per wake-line transition), and every action the driver issues is
//! recorded, in order, in [`Port::log`].  The driver's contracts are stated
//! over that record, so the exact bus traffic and pin bracketing of every
//! call is part of what is proved.

use vstd::prelude::*;

verus! {

/// One action issued to the hardware.
#[derive(Debug, PartialEq, Eq)]
pub enum Event {
    /// A zero-length command: only the register address byte is written.
    WriteCommand { addr: u8, reg: u8 },
    /// A single-register write of one payload byte.
    WriteByte { addr: u8, reg: u8, value: u8 },
    /// A single-register write of a four-byte payload.
    WriteQuad { addr: u8, reg: u8, b0: u8, b1: u8, b2: u8, b3: u8 },
    /// A combined write-address/read-data transaction of `len` bytes.
    ReadRegister { addr: u8, reg: u8, len: usize },
    /// The wake line was driven low (chip awake).
    PinLow,
    /// The wake line was released high (chip may power down).
    PinHigh,
    /// The post-wake settling delay.
    Delay { micros: u32 },
}

/// The scripted outcome of one bus transaction: the bytes the chip answers
/// with (empty for a plain write), or a transport fault.
#[derive(Debug, PartialEq, Eq)]
pub enum BusReply {
    /// The transaction succeeds; a read returns these bytes.
    Ack(Vec<u8>),
    /// The transport fails.
    Fault,
}

/// A unit marker for a failed bus transaction.
#[derive(Debug, Clone, Copy, PartialEq, Eq, Structural)]
pub struct BusFault;

/// A unit marker for a failed wake-line transition.
#[derive(Debug, Clone, Copy, PartialEq, Eq, Structural)]
pub struct PinFault;

/// The modelled transport.  Bus replies are consumed front to back, one
/// per transaction; wake-line transitions consume `pin_script` entries
/// (`true` = the transition succeeds), and succeed once the script is
/// exhausted.  A bus transaction past the end of its script is a fault: the
/// model cannot invent bytes.
pub struct Port {
    /// One scripted reply per bus transaction, in order.
    pub bus_script: Vec<BusReply>,
    /// How many bus replies have been consumed.
    pub bus_pos: usize,
    /// One scripted outcome per wake-line transition, in order.
    pub pin_script: Vec<bool>,
    /// How many pin outcomes have been consumed.
    pub pin_pos: usize,
    /// Every action issued so far, in order.
    pub log: Vec<Event>,
}

/// The zero-length command event.
pub open spec fn ev_write_command(addr: u8, reg: u8) -> Event {
    Event::WriteCommand { addr, reg }
}

/// The one-byte write event.
pub open spec fn ev_write_byte(addr: u8, reg: u8, value: u8) -> Event {
    Event::WriteByte { addr, reg, value }
}

/// The four-byte write event.
pub open spec fn ev_write_quad(addr: u8, reg: u8, b0: u8, b1: u8, b2: u8, b3: u8) -> Event {
    Event::WriteQuad { addr, reg, b0, b1, b2, b3 }
}

/// The read transaction event.
pub open spec fn ev_read(addr: u8, reg: u8, len: usize) -> Event {
    Event::ReadRegister { addr, reg, len }
}

/// The settling delay event.
pub open spec fn ev_delay(micros: u32) -> Event {
    Event::Delay { micros }
}

impl Port {
    /// Whether the `k`-th upcoming bus transaction is acknowledged.
    pub open spec fn reply_is_ack(self, k: int) -> bool {
        &&& self.bus_pos + k < self.bus_script.len()
        &&& self.bus_script@[self.bus_pos + k] matches BusReply::Ack(_)
    }

    /// The bytes of the `k`-th upcoming bus reply.
    pub open spec fn reply_bytes(self, k: int) -> Seq<u8> {
        if self.bus_pos + k < self.bus_script.len() {
            match self.bus_script@[self.bus_pos + k] {
                BusReply::Ack(d) => d@,
                BusReply::Fault => Seq::empty(),
            }
        } else {
            Seq::empty()
        }
    }

    /// Whether the `k`-th upcoming bus transaction, taken as a write,
    /// succeeds.
    pub open spec fn write_ok(self, k: int) -> bool {
        self.reply_is_ack(k)
    }

    /// Whether the `k`-th upcoming bus transaction, taken as a read of `n`
    /// bytes, succeeds: it is acknowledged and the reply has exactly the
    /// requested length.  A reply of any other length is a malformed
    /// response and fatal.
    pub open spec fn read_ok(self, k: int, n: int) -> bool {
        self.reply_is_ack(k) && self.reply_bytes(k).len() == n
    }

    /// Whether the `k`-th upcoming wake-line transition succeeds.
    pub open spec fn pin_ok(self, k: int) -> bool {
        self.pin_pos + k >= self.pin_script.len() || self.pin_script@[self.pin_pos + k]
    }

    /// The bus position after one more transaction.
    pub open spec fn bus_pos_after1(self) -> int {
        if self.bus_pos < self.bus_script.len() {
            self.bus_pos + 1
        } else {
            self.bus_pos as int
        }
    }

    /// The bus position after two more transactions.
    pub open spec fn bus_pos_after2(self) -> int {
        if self.bus_pos_after1() < self.bus_script.len() {
            self.bus_pos_after1() + 1
        } else {
            self.bus_pos_after1()
        }
    }

    /// The pin position after one more transition.
    pub open spec fn pin_pos_after1(self) -> int {
        if self.pin_pos < self.pin_script.len() {
            self.pin_pos + 1
        } else {
            self.pin_pos as int
        }
    }

    /// The pin position after two more transitions.
    pub open spec fn pin_pos_after2(self) -> int {
        if self.pin_pos_after1() < self.pin_script.len() {
            self.pin_pos_after1() + 1
        } else {
            self.pin_pos_after1()
        }
    }

    /// A port whose scripts have not been consumed at all and whose record
    /// is empty.
    pub fn new(bus_script: Vec<BusReply>, pin_script: Vec<bool>) -> (r: Port)
        ensures
            r.bus_script == bus_script,
            r.pin_script == pin_script,
            r.bus_pos == 0,
            r.pin_pos == 0,
            r.log@ == Seq::<Event>::empty(),
    {
        let log: Vec<Event> = Vec::new();
        Port { bus_script, bus_pos: 0, pin_script, pin_pos: 0, log }
    }

    /// Consumes the next scripted bus reply; used by every bus transaction.
    fn consume_bus(&mut self) -> (r: Result<(), BusFault>)
        ensures
            final(self).bus_script == old(self).bus_script,
            final(self).pin_script == old(self).pin_script,
            final(self).pin_pos == old(self).pin_pos,
            final(self).log == old(self).log,
            final(self).bus_pos == old(self).bus_pos_after1(),
            r is Ok <==> old(self).write_ok(0),
    {
        if self.bus_pos < self.bus_script.len() {
            let ok = match &self.bus_script[self.bus_pos] {
                BusReply::Ack(_) => true,
                BusReply::Fault => false,
            };
            self.bus_pos = self.bus_pos + 1;
            if ok {
                Ok(())
            } else {
                Err(BusFault)
            }
        } else {
            Err(BusFault)
        }
    }

    /// Issues a zero-length command: only the register address byte goes
    /// out on the bus.
    pub fn write_command(&mut self, addr: u8, reg: u8) -> (r: Result<(), BusFault>)
        ensures
            final(self).bus_script == old(self).bus_script,
            final(self).pin_script == old(self).pin_script,
            final(self).pin_pos == old(self).pin_pos,
            final(self).log@ == old(self).log@.push(ev_write_command(addr, reg)),
            final(self).bus_pos == old(self).bus_pos_after1(),
            r is Ok <==> old(self).write_ok(0),
    {
        self.log.push(Event::WriteCommand { addr, reg });
        self.consume_bus()
    }

    /// Writes one payload byte to a register in a single transaction.
    pub fn write_byte(&mut self, addr: u8, reg: u8, value: u8) -> (r: Result<(), BusFault>)
        ensures
            final(self).bus_script == old(self).bus_script,
            final(self).pin_script == old(self).pin_script,
            final(self).pin_pos == old(self).pin_pos,
            final(self).log@ == old(self).log@.push(ev_write_byte(addr, reg, value)),
            final(self).bus_pos == old(self).bus_pos_after1(),
            r is Ok <==> old(self).write_ok(0),
    {
        self.log.push(Event::WriteByte { addr, reg, value });
        self.consume_bus()
    }

    /// Writes a four-byte payload to a register in a single transaction.
    pub fn write_quad(&mut self, addr: u8, reg: u8, b0: u8, b1: u8, b2: u8, b3: u8) -> (r: Result<
        (),
        BusFault,
    >)
        ensures
            final(self).bus_script == old(self).bus_script,
            final(self).pin_script == old(self).pin_script,
            final(self).pin_pos == old(self).pin_pos,
            final(self).log@ == old(self).log@.push(ev_write_quad(addr, reg, b0, b1, b2, b3)),
            final(self).bus_pos == old(self).bus_pos_after1(),
            r is Ok <==> old(self).write_ok(0),
    {
        self.log.push(Event::WriteQuad { addr, reg, b0, b1, b2, b3 });
        self.consume_bus()
    }

    /// A combined write-address/read-data transaction.  Succeeds exactly
    /// when the scripted reply is an acknowledgement of `len` bytes; a
    /// reply of any other length is a malformed response and fails.
    pub fn read_register(&mut self, addr: u8, reg: u8, len: usize) -> (r: Result<Vec<u8>, BusFault>)
        ensures
            final(self).bus_script == old(self).bus_script,
            final(self).pin_script == old(self).pin_script,
            final(self).pin_pos == old(self).pin_pos,
            final(self).log@ == old(self).log@.push(ev_read(addr, reg, len)),
            final(self).bus_pos == old(self).bus_pos_after1(),
            r is Ok <==> old(self).read_ok(0, len as int),
            r matches Ok(d) ==> d@ == old(self).reply_bytes(0),
    {
        self.log.push(Event::ReadRegister { addr, reg, len });
        if self.bus_pos < self.bus_script.len() {
            let i = self.bus_pos;
            self.bus_pos = self.bus_pos + 1;
            match &self.bus_script[i] {
                BusReply::Ack(d) => {
                    if d.len() == len {
                        let mut out: Vec<u8> = Vec::new();
                        let mut j: usize = 0;
                        while j < d.len()
                            invariant
                                j <= d.len(),
                                out@ == d@.subrange(0, j as int),
                            decreases d.len() - j,
                        {
                            out.push(d[j]);
                            assert(out@ == d@.subrange(0, j + 1));
                            j = j + 1;
                        }
                        assert(out@ == d@);
                        Ok(out)
                    } else {
                        Err(BusFault)
                    }
                },
                BusReply::Fault => Err(BusFault),
            }
        } else {
            Err(BusFault)
        }
    }

    /// Drives the wake line low, waking the chip.
    pub fn pin_set_low(&mut self) -> (r: Result<(), PinFault>)
        ensures
            final(self).bus_script == old(self).bus_script,
            final(self).pin_script == old(self).pin_script,
            final(self).bus_pos == old(self).bus_pos,
            final(self).log@ == old(self).log@.push(Event::PinLow),
            final(self).pin_pos == old(self).pin_pos_after1(),
            r is Ok <==> old(self).pin_ok(0),
    {
        self.log.push(Event::PinLow);
        self.consume_pin()
    }

    /// Releases the wake line high, letting the chip power down.
    pub fn pin_set_high(&mut self) -> (r: Result<(), PinFault>)
        ensures
            final(self).bus_script == old(self).bus_script,
            final(self).pin_script == old(self).pin_script,
            final(self).bus_pos == old(self).bus_pos,
            final(self).log@ == old(self).log@.push(Event::PinHigh),
            final(self).pin_pos == old(self).pin_pos_after1(),
            r is Ok <==> old(self).pin_ok(0),
    {
        self.log.push(Event::PinHigh);
        self.consume_pin()
    }

    /// Consumes the next scripted pin outcome; past the end of the script
    /// every transition succeeds.
    fn consume_pin(&mut self) -> (r: Result<(), PinFault>)
        ensures
            final(self).bus_script == old(self).bus_script,
            final(self).pin_script == old(self).pin_script,
            final(self).bus_pos == old(self).bus_pos,
            final(self).log == old(self).log,
            final(self).pin_pos == old(self).pin_pos_after1(),
            r is Ok <==> old(self).pin_ok(0),
    {
        if self.pin_pos < self.pin_script.len() {
            let ok = self.pin_script[self.pin_pos];
            self.pin_pos = self.pin_pos + 1;
            if ok {
                Ok(())
            } else {
                Err(PinFault)
            }
        } else {
            Ok(())
        }
    }

    /// Waits the given number of microseconds.  Always succeeds; recorded
    /// so that contracts can place it inside the wake bracket.
    pub fn delay_us(&mut self, micros: u32)
        ensures
            final(self).bus_script == old(self).bus_script,
            final(self).pin_script == old(self).pin_script,
            final(self).bus_pos == old(self).bus_pos,
            final(self).pin_pos == old(self).pin_pos,
            final(self).log@ == old(self).log@.push(ev_delay(micros)),
    {
        self.log.push(Event::Delay { micros });
    }
}

} // verus!

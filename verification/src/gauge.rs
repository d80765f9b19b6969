//! The driver: a bus handle, the chip's address and the operations on its
//! registers.

use crate::bus::{
    answer_of, asks_register, outcome_of, register_read, register_write, sends, Transfer,
    Transport,
};
use crate::register::{
    compensated, compensation_keeps_low_byte, percent, register_bytes, register_value, unwire,
    whole_percent, with_compensation, DEFAULT_RCOMP, MAX17048_ADDR, REG_CONFIG, REG_CRATE,
    REG_SOC, REG_VCELL, REG_VERSION,
};
use vstd::prelude::*;

verus! {

/// A MAX17048 behind the bus handle `I`.
pub struct Max17048<I: Transport> {
    i2c: I,
    addr: u8,
    recv_buffer: [u8; 2],
}

/// `trace` is one update of the compensation byte to `rcomp`: a read of the
/// configuration register and, if it went through, a write of the value read
/// with its high byte replaced. `r` is the outcome of the last transaction
/// made.
pub open spec fn compensation_update<E>(
    trace: Seq<Transfer<E>>,
    address: u8,
    rcomp: u8,
    r: Result<(), E>,
) -> bool {
    &&& trace.len() >= 1
    &&& asks_register(trace[0], address, REG_CONFIG)
    &&& match answer_of(trace[0]) {
        Err(e) => trace.len() == 1 && r == Err::<(), E>(e),
        Ok(current) => register_write(
            trace.skip(1),
            address,
            REG_CONFIG,
            compensated(current, rcomp),
            r,
        ),
    }
}

/// `trace` is one reading of the state of charge, and `r` the whole percent
/// in it.
pub open spec fn charge_reading<E>(trace: Seq<Transfer<E>>, address: u8, r: Result<u16, E>) -> bool {
    &&& trace.len() == 1
    &&& asks_register(trace[0], address, REG_SOC)
    &&& r == match answer_of(trace[0]) {
        Ok(raw) => Ok::<u16, E>(percent(raw)),
        Err(e) => Err::<u16, E>(e),
    }
}

impl<I: Transport> Max17048<I> {
    /// The bus handle that the gauge holds.
    pub closed spec fn bus(&self) -> I {
        self.i2c
    }

    /// The address at which the gauge expects the chip.
    pub closed spec fn address(&self) -> u8 {
        self.addr
    }

    /// Every transaction that the gauge's bus handle has carried, oldest
    /// first: those made before the gauge had it, then the gauge's own.
    pub open spec fn traffic(&self) -> Seq<Transfer<I::Error>> {
        self.bus().carried()
    }

    /// The gauge is `earlier` after some more transactions on its bus: the
    /// address is the same and what the bus had carried is still there.
    pub open spec fn continues(&self, earlier: &Self) -> bool {
        &&& self.address() == earlier.address()
        &&& earlier.traffic().is_prefix_of(self.traffic())
    }

    /// The transactions made since the gauge was `earlier`.
    pub open spec fn since(&self, earlier: &Self) -> Seq<Transfer<I::Error>> {
        self.traffic().skip(earlier.traffic().len() as int)
    }

    /// Binds a bus handle and an address. The bus is not touched.
    pub fn new(i2c: I, addr: u8) -> (gauge: Self)
        ensures
            gauge.bus() == i2c,
            gauge.address() == addr,
    {
        Max17048 { i2c, addr, recv_buffer: [0u8; 2] }
    }

    /// Binds a bus handle at the chip's usual address. The bus is not touched.
    pub fn new_with_default_addr(i2c: I) -> (gauge: Self)
        ensures
            gauge.bus() == i2c,
            gauge.address() == MAX17048_ADDR,
    {
        Self::new(i2c, MAX17048_ADDR)
    }

    /// Reads register `reg` in one write-then-read transaction.
    pub fn read(&mut self, reg: u8) -> (r: Result<u16, I::Error>)
        ensures
            final(self).continues(old(self)),
            register_read(final(self).since(old(self)), old(self).address(), reg, r),
    {
        let ghost before = self.i2c.carried();
        let out: [u8; 1] = [reg];
        proof {
            assert(out@ =~= seq![reg]);
        }
        let outcome = self.i2c.write_read(self.addr, out.as_slice(), &mut self.recv_buffer);
        proof {
            assert(self.i2c.carried().skip(before.len() as int) =~= seq![self.i2c.carried().last()]);
        }
        match outcome {
            Ok(_) => Ok(register_value(self.recv_buffer[0], self.recv_buffer[1])),
            Err(e) => Err(e),
        }
    }

    /// Writes `bytes` to the chip in one write transaction.
    fn send(&mut self, bytes: &[u8]) -> (r: Result<(), I::Error>)
        ensures
            final(self).continues(old(self)),
            final(self).since(old(self)).len() == 1,
            sends(final(self).since(old(self))[0], old(self).address(), bytes@),
            r == outcome_of(final(self).since(old(self))[0]),
    {
        let ghost before = self.i2c.carried();
        let r = self.i2c.write(self.addr, bytes);
        proof {
            assert(self.i2c.carried().skip(before.len() as int) =~= seq![self.i2c.carried().last()]);
        }
        r
    }

    /// Writes `value` to register `reg` in two write transactions: the
    /// register's number, then the value, high byte first. Where the first
    /// fails the second is not made.
    pub fn write(&mut self, reg: u8, value: u16) -> (r: Result<(), I::Error>)
        ensures
            final(self).continues(old(self)),
            register_write(final(self).since(old(self)), old(self).address(), reg, value, r),
    {
        let ghost start = self.traffic();
        let pointer: [u8; 1] = [reg];
        proof {
            assert(pointer@ =~= seq![reg]);
        }
        match self.send(pointer.as_slice()) {
            Ok(_) => {
                let ghost middle = self.traffic();
                let data = register_bytes(value);
                let r = self.send(data.as_slice());
                proof {
                    let trace = self.traffic().skip(start.len() as int);
                    assert(trace[0] == middle.skip(start.len() as int)[0]);
                    assert(trace[1] == self.traffic().skip(middle.len() as int)[0]);
                }
                r
            },
            Err(e) => Err(e),
        }
    }

    /// Sets the compensation byte to `rcomp`: reads the configuration
    /// register and writes it back with its high byte replaced, so that the
    /// chip's own low byte stays as it was read. Where the read fails nothing
    /// is written.
    pub fn compensation(&mut self, rcomp: u8) -> (r: Result<(), I::Error>)
        ensures
            final(self).continues(old(self)),
            compensation_update(final(self).since(old(self)), old(self).address(), rcomp, r),
    {
        let ghost start = self.traffic();
        match self.read(REG_CONFIG) {
            Ok(current) => {
                let ghost middle = self.traffic();
                let merged = with_compensation(current, rcomp);
                let r = self.write(REG_CONFIG, merged);
                proof {
                    let trace = self.traffic().skip(start.len() as int);
                    assert(trace[0] == middle.skip(start.len() as int)[0]);
                    assert(trace.skip(1) =~= self.traffic().skip(middle.len() as int));
                }
                r
            },
            Err(e) => Err(e),
        }
    }

    /// Sets the compensation byte to the chip's default.
    pub fn default_compensation(&mut self) -> (r: Result<(), I::Error>)
        ensures
            final(self).continues(old(self)),
            compensation_update(
                final(self).since(old(self)),
                old(self).address(),
                DEFAULT_RCOMP,
                r,
            ),
    {
        self.compensation(DEFAULT_RCOMP)
    }

    /// Reads the chip's version, as the register holds it.
    pub fn version(&mut self) -> (r: Result<u16, I::Error>)
        ensures
            final(self).continues(old(self)),
            register_read(final(self).since(old(self)), old(self).address(), REG_VERSION, r),
    {
        self.read(REG_VERSION)
    }

    /// Reads the cell voltage as the register holds it: 78.125 microvolts to
    /// the unit.
    pub fn vcell_raw(&mut self) -> (r: Result<u16, I::Error>)
        ensures
            final(self).continues(old(self)),
            register_read(final(self).since(old(self)), old(self).address(), REG_VCELL, r),
    {
        self.read(REG_VCELL)
    }

    /// Reads the rate of charge as the register holds it: 0.208 percent of
    /// capacity per hour to the unit.
    pub fn charge_rate_raw(&mut self) -> (r: Result<u16, I::Error>)
        ensures
            final(self).continues(old(self)),
            register_read(final(self).since(old(self)), old(self).address(), REG_CRATE, r),
    {
        self.read(REG_CRATE)
    }

    /// Reads the state of charge in whole percent.
    pub fn soc(&mut self) -> (r: Result<u16, I::Error>)
        ensures
            final(self).continues(old(self)),
            charge_reading(final(self).since(old(self)), old(self).address(), r),
    {
        match self.read(REG_SOC) {
            Ok(val) => Ok(whole_percent(val)),
            Err(e) => Err(e),
        }
    }

    /// Gives the bus handle back and ends the gauge. The handle is the one
    /// that the gauge held, with no transaction more than it had carried.
    pub fn release(self) -> (i2c: I)
        ensures
            i2c == self.bus(),
            i2c.carried() == self.traffic(),
    {
        self.i2c
    }
}

/// A read of a register is a single write-then-read transaction. Where it
/// fails, the failure is the one that the transport reported.
pub proof fn failed_read_is_reported<E>(
    trace: Seq<Transfer<E>>,
    address: u8,
    reg: u8,
    r: Result<u16, E>,
    e: E,
)
    requires
        register_read(trace, address, reg, r),
        trace[0]->answer == Err::<Seq<u8>, E>(e),
    ensures
        r == Err::<u16, E>(e),
        forall|i: int| 0 <= i < trace.len() ==> !(trace[i] is Write),
{
}

/// Where the read of the configuration register fails, an update of the
/// compensation byte ends there: it fails with what the transport reported,
/// and nothing has been written.
pub proof fn failed_read_writes_nothing<E>(
    trace: Seq<Transfer<E>>,
    address: u8,
    rcomp: u8,
    r: Result<(), E>,
    e: E,
)
    requires
        compensation_update(trace, address, rcomp, r),
        trace[0]->answer == Err::<Seq<u8>, E>(e),
    ensures
        r == Err::<(), E>(e),
        forall|i: int| 0 <= i < trace.len() ==> !(trace[i] is Write),
{
}

/// An update of the compensation byte that succeeds has written the
/// configuration register once: `rcomp` as its high byte, and as its low byte
/// the one that was read.
pub proof fn update_keeps_low_byte<E>(
    trace: Seq<Transfer<E>>,
    address: u8,
    rcomp: u8,
    r: Result<(), E>,
)
    requires
        compensation_update(trace, address, rcomp, r),
        r is Ok,
    ensures
        trace.len() == 3,
        trace[0]->answer is Ok,
        sends(trace[1], address, seq![REG_CONFIG]),
        sends(trace[2], address, seq![rcomp, trace[0]->answer->Ok_0[1]]),
{
    let rest = trace.skip(1);
    assert(trace[1] == rest[0]);
    assert(trace[2] == rest[1]);
    let current = unwire(trace[0]->answer->Ok_0);
    compensation_keeps_low_byte(current, rcomp);
}

} // verus!

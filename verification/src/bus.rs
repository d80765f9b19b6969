//! The transport that the gauge drives, and the transactions asked of it.
//!
//! What a transaction yields is the device's affair, so `Transport` says
//! nothing of answers and failures. It says only that each call is one more
//! transaction that the handle has carried: the driver's contracts speak of
//! that sequence.

use crate::register::{unwire, wire};
use vstd::prelude::*;

verus! {

/// A two-wire bus with a blocking master on it, as the gauge uses one. The two
/// methods are those of embedded-hal's blocking I2C traits `WriteRead` and
/// `Write` for seven-bit addresses.
///
/// The contracts on the two methods are not proved of any implementation: they
/// hold where `carried` is read as the calls made on the handle, each with the
/// arguments it was given and with what it returned.
pub trait Transport {
    /// What a failed transaction reports.
    type Error;

    /// Every transaction made on this handle, oldest first. It is never
    /// computed: an implementation outside verified code gives it a body
    /// that is not reached.
    spec fn carried(&self) -> Carried<Self::Error>;

    /// Writes `bytes` to the device at `address` and then, in the same
    /// transaction, reads from it until `buffer` is full.
    fn write_read(&mut self, address: u8, bytes: &[u8], buffer: &mut [u8; 2]) -> (r: Result<
        (),
        Self::Error,
    >)
        ensures
            final(self).carried() == old(self).carried().push(
                (Transfer::WriteRead {
                    address,
                    out: bytes@,
                    answer: match r {
                        Ok(_) => Ok::<Seq<u8>, Self::Error>(final(buffer)@),
                        Err(e) => Err::<Seq<u8>, Self::Error>(e),
                    },
                }),
            ),
    ;

    /// Writes `bytes` to the device at `address`.
    fn write(&mut self, address: u8, bytes: &[u8]) -> (r: Result<(), Self::Error>)
        ensures
            final(self).carried() == old(self).carried().push(
                (Transfer::Write { address, bytes: bytes@, outcome: r }),
            ),
    ;
}

/// The transactions that a bus handle has carried, oldest first.
pub type Carried<E> = Seq<Transfer<E>>;

/// One transaction made on a bus, with what came of it.
pub enum Transfer<E> {
    /// `out` was written and, in the same transaction, `answer` read back.
    WriteRead { address: u8, out: Seq<u8>, answer: Result<Seq<u8>, E> },
    /// `bytes` were written.
    Write { address: u8, bytes: Seq<u8>, outcome: Result<(), E> },
}

/// `t` asks the device at `address` for the two bytes of register `reg`.
pub open spec fn asks_register<E>(t: Transfer<E>, address: u8, reg: u8) -> bool {
    match t {
        Transfer::WriteRead { address: to, out, answer } => {
            &&& to == address
            &&& out == seq![reg]
            &&& answer matches Ok(bytes) ==> bytes.len() == 2
        },
        Transfer::Write { .. } => false,
    }
}

/// What a read of a register yielded: its value, or the transport's error.
pub open spec fn answer_of<E>(t: Transfer<E>) -> Result<u16, E>
    recommends
        t is WriteRead,
{
    match t->answer {
        Ok(bytes) => Ok(unwire(bytes)),
        Err(e) => Err(e),
    }
}

/// `t` writes exactly `bytes` to the device at `address`.
pub open spec fn sends<E>(t: Transfer<E>, address: u8, bytes: Seq<u8>) -> bool {
    match t {
        Transfer::Write { address: to, bytes: sent, .. } => to == address && sent == bytes,
        Transfer::WriteRead { .. } => false,
    }
}

/// Whether a write went through, and the transport's error where it did not.
pub open spec fn outcome_of<E>(t: Transfer<E>) -> Result<(), E>
    recommends
        t is Write,
{
    t->outcome
}

/// `trace` is one read of register `reg`, and `r` is what it yielded.
pub open spec fn register_read<E>(trace: Seq<Transfer<E>>, address: u8, reg: u8, r: Result<u16, E>) -> bool {
    &&& trace.len() == 1
    &&& asks_register(trace[0], address, reg)
    &&& r == answer_of(trace[0])
}

/// `trace` is one write of `value` to register `reg`: the register's number,
/// then, if that write went through, the two bytes of the value. `r` is the
/// outcome of the last write made.
pub open spec fn register_write<E>(
    trace: Seq<Transfer<E>>,
    address: u8,
    reg: u8,
    value: u16,
    r: Result<(), E>,
) -> bool {
    &&& trace.len() >= 1
    &&& sends(trace[0], address, seq![reg])
    &&& match outcome_of(trace[0]) {
        Err(e) => trace.len() == 1 && r == Err::<(), E>(e),
        Ok(_) => {
            &&& trace.len() == 2
            &&& sends(trace[1], address, wire(value))
            &&& r == outcome_of(trace[1])
        },
    }
}

} // verus!

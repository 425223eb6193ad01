//! The transport a session runs on: it writes byte frames to an addressed
//! device and blocks for a number of milliseconds.
//!
//! A transport keeps a ghost log of what it did, in order; the session's
//! contracts are stated over that log.

use vstd::prelude::*;
use vstd::slice::slice_to_vec;

verus! {

/// One thing a transport did.
pub enum Event {
    /// A frame written to the device at the address.
    Sent(u8, Seq<u8>),
    /// A write of the frame that failed.
    Failed(u8, Seq<u8>),
    /// A pause of that many milliseconds.
    Pause(u32),
}

/// A bus that writes a frame of bytes to a device in one transaction, and
/// a blocking delay.
pub trait Transport {
    type Error;

    /// Everything the transport has done, oldest first. An implementation
    /// outside verified code keeps this stub and is trusted to meet the
    /// contracts below.
    closed spec fn events(&self) -> Seq<Event> {
        Seq::empty()
    }

    /// Writes `bytes` to the device at `address` in one transaction.
    fn write(&mut self, address: u8, bytes: &[u8]) -> (r: Result<(), Self::Error>)
        ensures
            r is Ok ==> final(self).events() == old(self).events().push(Event::Sent(address, bytes@)),
            r is Err ==> final(self).events() == old(self).events().push(
                Event::Failed(address, bytes@),
            ),
    ;

    /// Blocks for `ms` milliseconds.
    fn delay_ms(&mut self, ms: u32)
        ensures
            final(self).events() == old(self).events().push(Event::Pause(ms)),
    ;
}

/// What a [`Recorder`] keeps of one event.
#[derive(Debug, PartialEq, Eq)]
pub enum Record {
    Sent(u8, Vec<u8>),
    Pause(u32),
}

impl Record {
    pub open spec fn event(self) -> Event {
        match self {
            Record::Sent(address, bytes) => Event::Sent(address, bytes@),
            Record::Pause(ms) => Event::Pause(ms),
        }
    }
}

/// A transport that only records: every write succeeds and is kept, every
/// pause is noted and returns at once.
pub struct Recorder {
    records: Vec<Record>,
}

/// The error type of a [`Recorder`], whose writes never fail.
#[derive(Clone, Copy, Debug, PartialEq, Eq)]
pub struct NoFault;

impl Recorder {
    pub fn new() -> (r: Self)
        ensures
            r.events() == Seq::<Event>::empty(),
    {
        let r = Recorder { records: Vec::new() };
        assert(r.events() =~= Seq::<Event>::empty());
        r
    }

    /// What was recorded, oldest first.
    pub fn records(&self) -> (r: &Vec<Record>)
        ensures
            r@.map_values(|x: Record| x.event()) == self.events(),
    {
        &self.records
    }
}

impl Transport for Recorder {
    type Error = NoFault;

    closed spec fn events(&self) -> Seq<Event> {
        self.records@.map_values(|x: Record| x.event())
    }

    fn write(&mut self, address: u8, bytes: &[u8]) -> (r: Result<(), NoFault>) {
        let copy = slice_to_vec(bytes);
        self.records.push(Record::Sent(address, copy));
        assert(self.events() =~= old(self).events().push(Event::Sent(address, bytes@)));
        Ok(())
    }

    fn delay_ms(&mut self, ms: u32) {
        self.records.push(Record::Pause(ms));
        assert(self.events() =~= old(self).events().push(Event::Pause(ms)));
    }
}

} // verus!

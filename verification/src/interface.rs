//! The byte transport that a printer handle talks through.

use vstd::prelude::*;
use crate::error::Error;

verus! {

/// One call on a transport that may have done something to it.
pub enum Call {
    /// A call of `read`.
    Read,
    /// A call of `read_vec`.
    ReadVec,
    /// A call of `write`: the bytes it was handed and what it reported.
    Write { data: Seq<u8>, outcome: Result<(), Error> },
    /// A call of `flush` that found something to do.
    Flush,
}

/// The calls on one transport, oldest first.
pub type CallLog = Seq<Call>;

/// A connection to a device that bytes can be read from and written to.
///
/// The contracts below say nothing about the device or the network. They keep
/// a record, `calls`, of what was asked of the transport, so that code built
/// on a transport can state what it asked, what it handed over and what it was
/// told, and that it asked nothing else. Whether a call succeeds is for the
/// implementation to say.
///
/// `calls` exists for the contracts only and is never run. An implementation
/// in verified code keeps the record in a `Ghost` field; one in ordinary Rust
/// gives `calls` a body that is never reached.
pub trait PTouchInterface: Sized {
    /// Every call of `read`, `read_vec`, `write` and `flush` on this transport
    /// so far, but for flushes that left it as it was.
    spec fn calls(&self) -> CallLog;

    /// A description of the endpoint for people to read.
    fn name(&self) -> String;

    /// Reads into `buf`, waiting until there is at least one byte or the
    /// transport gives up, and returns how many bytes it stored there.
    fn read(&mut self, buf: &mut [u8]) -> (res: Result<usize, Error>)
        ensures
            final(buf)@.len() == old(buf)@.len(),
            res matches Ok(n) ==> n <= old(buf)@.len(),
            final(self).calls() == old(self).calls().push(Call::Read),
    ;

    /// Reads until the other side closes the connection and returns all that
    /// arrived.
    fn read_vec(&mut self) -> (res: Result<Vec<u8>, Error>)
        ensures
            final(self).calls() == old(self).calls().push(Call::ReadVec),
    ;

    /// Sends all of `data`, or fails.
    fn write(&mut self, data: &[u8]) -> (res: Result<(), Error>)
        ensures
            final(self).calls() == old(self).calls().push(
                (Call::Write { data: data@, outcome: res }),
            ),
    ;

    /// Pushes out what the layers below may still hold back. A transport
    /// without such layers has nothing to do and stays as it was, which is
    /// what this default does; any other flush is on the record.
    fn flush(&mut self) -> (res: Result<(), Error>)
        ensures
            final(self).calls() == old(self).calls().push(Call::Flush)
                || *final(self) == *old(self),
        default_ensures
            res is Ok,
            *final(self) == *old(self),
    {
        Ok(())
    }
}

} // verus!

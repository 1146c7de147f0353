//! The printer handle: one write and flush surface over a transport.

use vstd::prelude::*;
use crate::address::{first_ip, resolved_ip, IpAddress, SocketAddress};
use crate::error::Error;
use crate::interface::{Call, PTouchInterface};

verus! {

/// A handle on one printer.
///
/// It owns its transport. Whether it buffers is decided when it is built and
/// never changes: a buffering handle collects what is written and hands it to
/// the transport on `flush`; the other kind hands every write on at once.
pub struct PTouchPrinter<D> {
    pub interface: D,
    /// Where the printer was found, for information only.
    pub ip_addr: Option<IpAddress>,
    send_buffer: Option<Vec<u8>>,
}

/// A handle as the contracts see it.
pub struct PrinterView<D> {
    pub interface: D,
    pub ip_addr: Option<IpAddress>,
    /// The bytes written and not yet handed to the transport; `None` for a
    /// handle that does not buffer.
    pub send_buffer: Option<Seq<u8>>,
}

impl<D> View for PTouchPrinter<D> {
    type V = PrinterView<D>;

    closed spec fn view(&self) -> PrinterView<D> {
        PrinterView {
            interface: self.interface,
            ip_addr: self.ip_addr,
            send_buffer: match self.send_buffer {
                Some(bytes) => Some(bytes@),
                None => None,
            },
        }
    }
}

/// What one call of `write` with `data` makes of the handle `pre`.
///
/// A buffering handle appends `data` to what is pending, leaves the transport
/// alone and succeeds. The other kind calls the transport's `write` once, with
/// `data`, asks nothing else of the transport, and reports what that call
/// reported.
pub open spec fn write_effect<D: PTouchInterface>(
    pre: PrinterView<D>,
    data: Seq<u8>,
    post: PrinterView<D>,
    res: Result<(), Error>,
) -> bool {
    &&& post.ip_addr == pre.ip_addr
    &&& match pre.send_buffer {
        Some(pending) => {
            &&& res is Ok
            &&& post.send_buffer == Some(pending + data)
            &&& post.interface == pre.interface
        },
        None => {
            &&& post.send_buffer is None
            &&& post.interface.calls() == pre.interface.calls().push(
                Call::Write { data, outcome: res },
            )
        },
    }
}

/// What one call of `flush` makes of the handle `pre`.
///
/// A buffering handle with bytes pending calls the transport's `write` once,
/// with all of them, asks nothing else of the transport, and reports what that
/// call reported; the pending bytes are dropped if it succeeded and kept if it
/// failed. With nothing pending, and on a handle that does not buffer, there is
/// nothing to flush: the handle stays as it was and the call succeeds.
pub open spec fn flush_effect<D: PTouchInterface>(
    pre: PrinterView<D>,
    post: PrinterView<D>,
    res: Result<(), Error>,
) -> bool {
    match pre.send_buffer {
        Some(pending) if pending.len() > 0 => {
            &&& post.ip_addr == pre.ip_addr
            &&& post.interface.calls() == pre.interface.calls().push(
                Call::Write { data: pending, outcome: res },
            )
            &&& post.send_buffer == if res is Ok {
                Some(Seq::<u8>::empty())
            } else {
                Some(pending)
            }
        },
        _ => res is Ok && post == pre,
    }
}

impl<D: PTouchInterface> PTouchPrinter<D> {
    /// A handle over `interface` that hands every write on at once.
    pub fn unbuffered(interface: D, ip_addr: Option<IpAddress>) -> (printer: Self)
        ensures
            printer@ == (PrinterView { interface, ip_addr, send_buffer: None }),
    {
        PTouchPrinter { interface, ip_addr, send_buffer: None }
    }

    /// A handle over `interface` that collects writes until `flush`. Nothing
    /// is pending at first.
    pub fn buffered(interface: D, ip_addr: Option<IpAddress>) -> (printer: Self)
        ensures
            printer@ == (PrinterView { interface, ip_addr, send_buffer: Some(Seq::<u8>::empty()) }),
    {
        PTouchPrinter { interface, ip_addr, send_buffer: Some(Vec::new()) }
    }

    /// The same as [`from_addr`].
    pub fn new(
        resolved: Result<Vec<SocketAddress>, Error>,
        opened: Result<D, Error>,
    ) -> (res: Result<Self, Error>)
        ensures
            match opened {
                Ok(interface) => res matches Ok(printer) && printer@ == (PrinterView {
                    interface,
                    ip_addr: resolved_ip(resolved),
                    send_buffer: None,
                }),
                Err(failure) => res matches Err(reported) && reported == failure,
            },
    {
        from_addr(resolved, opened)
    }

    /// Where the printer was found, if that is known.
    pub fn ip_addr(&self) -> (ip: Option<IpAddress>)
        ensures
            ip == self@.ip_addr,
    {
        self.ip_addr
    }

    /// The transport of this handle.
    pub fn interface(&self) -> (transport: &D)
        ensures
            *transport == self@.interface,
    {
        &self.interface
    }

    /// The transport of this handle, to call it directly. Nothing else of the
    /// handle changes through it.
    pub fn interface_mut(&mut self) -> (transport: &mut D)
        ensures
            *transport == old(self)@.interface,
            final(self)@ == (PrinterView {
                interface: *final(transport),
                ip_addr: old(self)@.ip_addr,
                send_buffer: old(self)@.send_buffer,
            }),
    {
        &mut self.interface
    }

    /// Writes `data` to the printer: see [`write_effect`].
    pub fn write(&mut self, data: &[u8]) -> (res: Result<(), Error>)
        ensures
            write_effect(old(self)@, data@, final(self)@, res),
    {
        match &mut self.send_buffer {
            Some(buffer) => {
                buffer.extend_from_slice(data);
                assert(buffer@ =~= old(self)@.send_buffer->0 + data@);
                Ok(())
            },
            None => self.interface.write(data),
        }
    }

    /// Hands what is pending to the transport: see [`flush_effect`].
    pub fn flush(&mut self) -> (res: Result<(), Error>)
        ensures
            flush_effect(old(self)@, final(self)@, res),
    {
        match &mut self.send_buffer {
            Some(buffer) => {
                if buffer.len() == 0 {
                    Ok(())
                } else {
                    let sent = self.interface.write(buffer.as_slice());
                    if sent.is_ok() {
                        buffer.clear();
                    }
                    sent
                }
            },
            None => Ok(()),
        }
    }
}

/// Builds the handle for a printer from what resolving its address and
/// connecting to it gave.
///
/// Connecting decides: if it failed, its failure is returned. Otherwise the
/// handle owns the transport, does not buffer, and records the IP address of
/// the first endpoint that the address resolved to. A resolution that failed
/// or found nothing is no failure here; the handle then records no address.
pub fn from_addr<D: PTouchInterface>(
    resolved: Result<Vec<SocketAddress>, Error>,
    opened: Result<D, Error>,
) -> (res: Result<PTouchPrinter<D>, Error>)
    ensures
        match opened {
            Ok(interface) => res matches Ok(printer) && printer@ == (PrinterView {
                interface,
                ip_addr: resolved_ip(resolved),
                send_buffer: None,
            }),
            Err(failure) => res matches Err(reported) && reported == failure,
        },
{
    let ip_addr = first_ip(&resolved);
    match opened {
        Ok(interface) => Ok(PTouchPrinter::unbuffered(interface, ip_addr)),
        Err(failure) => Err(failure),
    }
}

/// Whether a handle buffers is settled when it is built: neither a write nor
/// a flush changes it.
pub proof fn lemma_mode_never_changes<D: PTouchInterface>(
    pre: PrinterView<D>,
    data: Seq<u8>,
    post: PrinterView<D>,
    res: Result<(), Error>,
)
    requires
        write_effect(pre, data, post, res) || flush_effect(pre, post, res),
    ensures
        post.send_buffer is Some <==> pre.send_buffer is Some,
{
}

/// Writes to a buffering handle reach the transport on the next flush, as one
/// call of its `write` that carries what was pending followed by the payloads
/// in the order written; nothing else is asked of the transport, and nothing
/// at all before the flush. On a handle with nothing pending the call thus
/// carries exactly `first + second`. Where all of that is empty there is
/// nothing to send: the flush succeeds and the transport stays as it was.
pub proof fn lemma_buffered_writes_flush_as_one<D: PTouchInterface>(
    start: PrinterView<D>,
    first: Seq<u8>,
    after_first: PrinterView<D>,
    first_res: Result<(), Error>,
    second: Seq<u8>,
    after_second: PrinterView<D>,
    second_res: Result<(), Error>,
    flushed: PrinterView<D>,
    flush_res: Result<(), Error>,
)
    requires
        start.send_buffer is Some,
        write_effect(start, first, after_first, first_res),
        write_effect(after_first, second, after_second, second_res),
        flush_effect(after_second, flushed, flush_res),
    ensures
        first_res is Ok,
        second_res is Ok,
        after_second.interface == start.interface,
        (start.send_buffer->0 + first + second).len() > 0 ==> flushed.interface.calls()
            == start.interface.calls().push(
            (Call::Write { data: start.send_buffer->0 + first + second, outcome: flush_res }),
        ),
        start.send_buffer == Some(Seq::<u8>::empty()) && (first + second).len() > 0
            ==> flushed.interface.calls() == start.interface.calls().push(
            (Call::Write { data: first + second, outcome: flush_res }),
        ),
        (start.send_buffer->0 + first + second).len() == 0 ==> flush_res is Ok
            && flushed.interface == start.interface,
        flush_res is Ok ==> flushed.send_buffer == Some(Seq::<u8>::empty()),
{
    let pending = start.send_buffer->0;
    assert((pending + first) + second =~= pending + first + second);
    assert(Seq::<u8>::empty() + first + second =~= first + second);
}

/// On a handle that does not buffer, a write is one call of the transport's
/// `write` with the very bytes given, nothing else is asked of the transport,
/// and the result is that call's result; a flush leaves the handle as it was
/// and succeeds.
pub proof fn lemma_unbuffered_write_then_flush<D: PTouchInterface>(
    start: PrinterView<D>,
    data: Seq<u8>,
    written: PrinterView<D>,
    write_res: Result<(), Error>,
    flushed: PrinterView<D>,
    flush_res: Result<(), Error>,
)
    requires
        start.send_buffer is None,
        write_effect(start, data, written, write_res),
        flush_effect(written, flushed, flush_res),
    ensures
        written.interface.calls() == start.interface.calls().push(
            (Call::Write { data, outcome: write_res }),
        ),
        written.interface.calls().len() == start.interface.calls().len() + 1,
        flush_res is Ok,
        flushed == written,
{
}

/// A flush with nothing pending leaves the handle and its transport as they
/// were and succeeds, whatever state the transport is in.
pub proof fn lemma_flush_of_nothing_leaves_transport_alone<D: PTouchInterface>(
    start: PrinterView<D>,
    flushed: PrinterView<D>,
    flush_res: Result<(), Error>,
)
    requires
        start.send_buffer == Some(Seq::<u8>::empty()),
        flush_effect(start, flushed, flush_res),
    ensures
        flush_res is Ok,
        flushed == start,
        flushed.interface == start.interface,
{
}

/// What a flush has sent is not sent again: a flush right after one that
/// succeeded leaves the handle and its transport as they were and succeeds.
pub proof fn lemma_second_flush_sends_nothing<D: PTouchInterface>(
    start: PrinterView<D>,
    flushed: PrinterView<D>,
    flush_res: Result<(), Error>,
    again: PrinterView<D>,
    again_res: Result<(), Error>,
)
    requires
        flush_effect(start, flushed, flush_res),
        flush_res is Ok,
        flush_effect(flushed, again, again_res),
    ensures
        again_res is Ok,
        again == flushed,
{
}

/// A flush fails only where bytes were pending and the transport's `write` of
/// them failed. It then keeps what was pending, so that the next flush hands
/// the transport the same bytes again.
pub proof fn lemma_failed_flush_keeps_pending<D: PTouchInterface>(
    start: PrinterView<D>,
    failed: PrinterView<D>,
    failed_res: Result<(), Error>,
    retried: PrinterView<D>,
    retried_res: Result<(), Error>,
)
    requires
        flush_effect(start, failed, failed_res),
        failed_res is Err,
        flush_effect(failed, retried, retried_res),
    ensures
        start.send_buffer matches Some(pending) && pending.len() > 0,
        failed.interface.calls() == start.interface.calls().push(
            (Call::Write { data: start.send_buffer->0, outcome: failed_res }),
        ),
        failed.send_buffer == start.send_buffer,
        retried.interface.calls() == start.interface.calls().push(
            (Call::Write { data: start.send_buffer->0, outcome: failed_res }),
        ).push((Call::Write { data: start.send_buffer->0, outcome: retried_res })),
{
}

} // verus!

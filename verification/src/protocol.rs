//! One end of a connection, kept apart from the transport that carries it.
//!
//! A `ProtocolConnection` holds the bytes that arrived from the peer and were
//! not read yet, and the bytes that were written for the peer and not handed
//! to the transport yet. Whoever owns the socket moves bytes between the two:
//! what the socket yields goes in through `receive`, what `take_outbound`
//! returns goes out through the socket.

use crate::error::VeriflowError;
use crate::frame::{
    after_frame, be32_value, decode_frame, decode_prefix, encode_frame, first_payload, frame,
    has_frame, MAX_PAYLOAD, PREFIX_LEN,
};
use vstd::prelude::*;
use vstd::utf8::encode_utf8;

verus! {

/// What a connection holds at one moment.
pub struct ConnectionView {
    /// Bytes from the peer, oldest first, that no read has taken yet.
    pub inbound: Seq<u8>,
    /// Bytes for the peer, oldest first, that the transport has not taken yet.
    pub outbound: Seq<u8>,
    /// Whether the peer has closed its side.
    pub closed: bool,
}

impl ConnectionView {
    /// This connection after `bytes` have arrived.
    pub open spec fn received(self, bytes: Seq<u8>) -> ConnectionView {
        ConnectionView { inbound: self.inbound + bytes, ..self }
    }

    /// This connection after the peer has closed.
    pub open spec fn shut(self) -> ConnectionView {
        ConnectionView { closed: true, ..self }
    }

    /// This connection after its first `count` inbound bytes were read.
    pub open spec fn consumed(self, count: int) -> ConnectionView {
        ConnectionView { inbound: self.inbound.skip(count), ..self }
    }

    /// This connection after `bytes` were written for the peer.
    pub open spec fn sent(self, bytes: Seq<u8>) -> ConnectionView {
        ConnectionView { outbound: self.outbound + bytes, ..self }
    }
}

/// Frame fidelity. What one end writes as a message, the other end reads as
/// that message: once the bytes have crossed, the receiver holds a whole
/// frame, its prefix states the length of the payload, its payload is the
/// payload that was written, and nothing is left behind it.
pub proof fn lemma_message_fidelity(
    sender: ConnectionView,
    receiver: ConnectionView,
    payload: Seq<u8>,
)
    requires
        payload.len() <= MAX_PAYLOAD,
        sender.outbound.len() == 0,
        receiver.inbound.len() == 0,
    ensures
        ({
            let wire = sender.sent(frame(payload)).outbound;
            let arrived = receiver.received(wire);
            &&& has_frame(arrived.inbound)
            &&& be32_value(arrived.inbound) == payload.len()
            &&& first_payload(arrived.inbound) == payload
            &&& after_frame(arrived.inbound) == Seq::<u8>::empty()
        }),
{
    let wire = sender.sent(frame(payload)).outbound;
    assert(wire =~= frame(payload));
    assert(receiver.received(wire).inbound =~= frame(payload) + Seq::<u8>::empty());
    crate::frame::lemma_frame_round_trip(payload, Seq::<u8>::empty());
}

/// One end of a connection that speaks in frames and raw bodies.
pub struct ProtocolConnection {
    inbound: Vec<u8>,
    outbound: Vec<u8>,
    closed: bool,
}

impl View for ProtocolConnection {
    type V = ConnectionView;

    closed spec fn view(&self) -> ConnectionView {
        ConnectionView { inbound: self.inbound@, outbound: self.outbound@, closed: self.closed }
    }
}

impl ProtocolConnection {
    /// A connection on which nothing has arrived and nothing was written.
    pub fn new() -> (connection: ProtocolConnection)
        ensures
            connection@.inbound == Seq::<u8>::empty(),
            connection@.outbound == Seq::<u8>::empty(),
            !connection@.closed,
    {
        ProtocolConnection { inbound: Vec::new(), outbound: Vec::new(), closed: false }
    }

    /// Takes in bytes that the transport read from the peer.
    pub fn receive(&mut self, bytes: &[u8])
        ensures
            final(self)@.inbound == old(self)@.inbound + bytes@,
            final(self)@.outbound == old(self)@.outbound,
            final(self)@.closed == old(self)@.closed,
    {
        self.inbound.extend_from_slice(bytes);
        assert(self.inbound@ =~= old(self).inbound@ + bytes@);
    }

    /// Records that the peer closed its side: a read that finds too few bytes
    /// fails from now on, where before it asked for more.
    pub fn close(&mut self)
        ensures
            final(self)@.inbound == old(self)@.inbound,
            final(self)@.outbound == old(self)@.outbound,
            final(self)@.closed,
    {
        self.closed = true;
    }

    /// Whether the peer has closed its side.
    pub fn is_closed(&self) -> (closed: bool)
        ensures
            closed == self@.closed,
    {
        self.closed
    }

    /// The number of bytes that arrived and were not read yet.
    pub fn buffered(&self) -> (count: usize)
        ensures
            count == self@.inbound.len(),
    {
        self.inbound.len()
    }

    /// Hands over everything that was written for the peer, oldest byte
    /// first, and leaves nothing behind.
    pub fn take_outbound(&mut self) -> (bytes: Vec<u8>)
        ensures
            bytes@ == old(self)@.outbound,
            final(self)@.outbound == Seq::<u8>::empty(),
            final(self)@.inbound == old(self)@.inbound,
            final(self)@.closed == old(self)@.closed,
    {
        let mut bytes: Vec<u8> = Vec::new();
        bytes.append(&mut self.outbound);
        assert(bytes@ =~= old(self).outbound@);
        bytes
    }

    /// Writes one frame: the four-byte length of `payload`, then `payload`.
    ///
    /// Either the whole frame is written or, for a payload too long for any
    /// frame, nothing is and the call fails.
    pub fn send_message(&mut self, payload: &[u8]) -> (result: Result<(), VeriflowError>)
        ensures
            final(self)@.inbound == old(self)@.inbound,
            final(self)@.closed == old(self)@.closed,
            payload@.len() <= MAX_PAYLOAD ==> result is Ok && final(self)@.outbound == old(
                self,
            )@.outbound + frame(payload@),
            payload@.len() > MAX_PAYLOAD ==> result == Err::<(), VeriflowError>(
                VeriflowError::Protocol,
            ) && final(self)@.outbound == old(self)@.outbound,
    {
        match encode_frame(payload) {
            Ok(mut bytes) => {
                self.outbound.append(&mut bytes);
                Ok(())
            },
            Err(e) => Err(e),
        }
    }

    /// Writes a header, given as text, as one frame that carries its UTF-8
    /// bytes.
    pub fn send_header(&mut self, header: &str) -> (result: Result<(), VeriflowError>)
        ensures
            final(self)@.inbound == old(self)@.inbound,
            final(self)@.closed == old(self)@.closed,
            encode_utf8(header@).len() <= MAX_PAYLOAD ==> result is Ok && final(self)@.outbound
                == old(self)@.outbound + frame(encode_utf8(header@)),
            encode_utf8(header@).len() > MAX_PAYLOAD ==> result == Err::<(), VeriflowError>(
                VeriflowError::Protocol,
            ) && final(self)@.outbound == old(self)@.outbound,
    {
        self.send_message(header.as_bytes())
    }

    /// Writes the bytes of `buffer` as they are, with no prefix, and empties
    /// `buffer`. This is how a body travels: its length was announced in the
    /// header before it.
    pub fn send_file(&mut self, buffer: &mut Vec<u8>)
        ensures
            final(self)@.outbound == old(self)@.outbound + old(buffer)@,
            final(self)@.inbound == old(self)@.inbound,
            final(self)@.closed == old(self)@.closed,
            final(buffer)@ == Seq::<u8>::empty(),
    {
        self.outbound.append(buffer);
    }

    /// Reads a length prefix.
    ///
    /// With four bytes at hand it takes them and returns the length they
    /// state. With fewer it takes nothing: it returns `None` while the peer
    /// may still send the rest, and fails once the peer has closed.
    pub fn read_prefix(&mut self) -> (result: Result<Option<usize>, VeriflowError>)
        ensures
            final(self)@.outbound == old(self)@.outbound,
            final(self)@.closed == old(self)@.closed,
            old(self)@.inbound.len() >= 4 ==> result == Ok::<Option<usize>, VeriflowError>(
                Some(be32_value(old(self)@.inbound) as usize),
            ) && final(self)@.inbound == old(self)@.inbound.skip(4),
            old(self)@.inbound.len() < 4 ==> final(self)@.inbound == old(self)@.inbound,
            old(self)@.inbound.len() < 4 && !old(self)@.closed ==> result == Ok::<
                Option<usize>,
                VeriflowError,
            >(None),
            old(self)@.inbound.len() < 4 && old(self)@.closed ==> result == Err::<
                Option<usize>,
                VeriflowError,
            >(VeriflowError::Protocol),
    {
        if self.inbound.len() < PREFIX_LEN {
            if self.closed {
                return Err(VeriflowError::Protocol);
            }
            return Ok(None);
        }
        let prefix: [u8; 4] = [self.inbound[0], self.inbound[1], self.inbound[2], self.inbound[3]];
        let len = decode_prefix(&prefix);
        assert(be32_value(prefix@) == be32_value(self.inbound@));
        self.consume(PREFIX_LEN);
        Ok(Some(len as usize))
    }

    /// Reads exactly `len` bytes.
    ///
    /// With `len` bytes at hand it takes them and returns them. With fewer it
    /// takes nothing: it returns `None` while the peer may still send the
    /// rest, and fails once the peer has closed. It never returns a part.
    pub fn read_body(&mut self, len: usize) -> (result: Result<Option<Vec<u8>>, VeriflowError>)
        ensures
            final(self)@.outbound == old(self)@.outbound,
            final(self)@.closed == old(self)@.closed,
            old(self)@.inbound.len() >= len ==> result is Ok && result->Ok_0 is Some
                && result->Ok_0->0@ == old(self)@.inbound.take(len as int) && final(self)@.inbound
                == old(self)@.inbound.skip(len as int),
            old(self)@.inbound.len() < len ==> final(self)@.inbound == old(self)@.inbound,
            old(self)@.inbound.len() < len && !old(self)@.closed ==> result is Ok
                && result->Ok_0 is None,
            old(self)@.inbound.len() < len && old(self)@.closed ==> result is Err
                && result->Err_0 == VeriflowError::Protocol,
    {
        if self.inbound.len() < len {
            if self.closed {
                return Err(VeriflowError::Protocol);
            }
            return Ok(None);
        }
        let bytes = self.consume(len);
        Ok(Some(bytes))
    }

    /// Reads one frame and returns its payload.
    ///
    /// With a whole frame at hand it takes the frame. Otherwise it takes
    /// nothing: it returns `None` while the peer may still send the rest, and
    /// fails once the peer has closed.
    pub fn read_message(&mut self) -> (result: Result<Option<Vec<u8>>, VeriflowError>)
        ensures
            final(self)@.outbound == old(self)@.outbound,
            final(self)@.closed == old(self)@.closed,
            has_frame(old(self)@.inbound) ==> result is Ok && result->Ok_0 is Some
                && result->Ok_0->0@ == first_payload(old(self)@.inbound) && final(self)@.inbound
                == after_frame(old(self)@.inbound),
            !has_frame(old(self)@.inbound) ==> final(self)@.inbound == old(self)@.inbound,
            !has_frame(old(self)@.inbound) && !old(self)@.closed ==> result is Ok
                && result->Ok_0 is None,
            !has_frame(old(self)@.inbound) && old(self)@.closed ==> result is Err
                && result->Err_0 == VeriflowError::Protocol,
    {
        match decode_frame(self.inbound.as_slice()) {
            Some((payload, taken)) => {
                self.consume(taken);
                Ok(Some(payload))
            },
            None => {
                if self.closed {
                    Err(VeriflowError::Protocol)
                } else {
                    Ok(None)
                }
            },
        }
    }

    /// Takes the first `count` bytes off the inbound side.
    fn consume(&mut self, count: usize) -> (taken: Vec<u8>)
        requires
            count <= old(self).inbound@.len(),
        ensures
            taken@ == old(self).inbound@.take(count as int),
            final(self).inbound@ == old(self).inbound@.skip(count as int),
            final(self).outbound == old(self).outbound,
            final(self).closed == old(self).closed,
    {
        let mut rest = self.inbound.split_off(count);
        core::mem::swap(&mut self.inbound, &mut rest);
        rest
    }
}

} // verus!

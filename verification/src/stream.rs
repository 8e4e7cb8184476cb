//! Moving a body of a declared size between a file and a connection, one
//! bounded chunk at a time.
//!
//! A `Transfer` counts the bytes of one body. The side that sends asks it how
//! many bytes to read from the file next, and passes what it read to
//! `write_file_to_stream`; the side that receives calls `read_file_to_disk`
//! and writes each chunk it gets to the file. Neither holds more than one
//! chunk of the body at a time.

use crate::error::VeriflowError;
use crate::protocol::ProtocolConnection;
use vstd::prelude::*;
use vstd::string::StringExecFns;

verus! {

/// The most bytes that one step moves.
pub const CHUNK_SIZE: usize = 4096;

/// The smaller of the chunk size and what is left of a body.
pub open spec fn chunk_len(remaining: nat) -> nat {
    if remaining < CHUNK_SIZE {
        remaining
    } else {
        CHUNK_SIZE as nat
    }
}

/// How far a transfer has come.
pub struct TransferView {
    /// The size that the header declared.
    pub declared: nat,
    /// The bytes moved so far.
    pub moved: nat,
}

impl TransferView {
    /// The bytes still to move.
    pub open spec fn remaining(self) -> nat {
        if self.moved <= self.declared {
            (self.declared - self.moved) as nat
        } else {
            0
        }
    }

    /// This count after `count` more bytes have moved.
    pub open spec fn advanced(self, count: nat) -> TransferView {
        TransferView { moved: self.moved + count, ..self }
    }
}

/// The running count of one body: its declared size and the bytes moved so
/// far, which never exceed it.
pub struct Transfer {
    declared: u64,
    moved: u64,
}

/// What a receiving step found.
pub enum Incoming {
    /// The next bytes of the body, to be written to the file.
    Chunk(Vec<u8>),
    /// Not enough has arrived yet: bring more bytes from the transport.
    Pending,
    /// Every declared byte was handed out: the file can be flushed.
    Finished,
}

impl View for Transfer {
    type V = TransferView;

    closed spec fn view(&self) -> TransferView {
        TransferView { declared: self.declared as nat, moved: self.moved as nat }
    }
}

impl Transfer {
    #[verifier::type_invariant]
    spec fn within_declared(self) -> bool {
        self.moved <= self.declared
    }

    /// A transfer of `declared` bytes of which none has moved.
    pub fn new(declared: u64) -> (transfer: Transfer)
        ensures
            transfer@ == (TransferView { declared: declared as nat, moved: 0 }),
    {
        Transfer { declared, moved: 0 }
    }

    /// The size that the header declared.
    pub fn declared(&self) -> (size: u64)
        ensures
            size == self@.declared,
    {
        self.declared
    }

    /// The bytes moved so far.
    pub fn moved(&self) -> (count: u64)
        ensures
            count == self@.moved,
            count <= self@.declared,
    {
        proof {
            use_type_invariant(self);
        }
        self.moved
    }

    /// The bytes still to move.
    pub fn remaining(&self) -> (count: u64)
        ensures
            count == self@.remaining(),
    {
        proof {
            use_type_invariant(self);
        }
        self.declared - self.moved
    }

    /// Whether every declared byte has moved.
    pub fn is_complete(&self) -> (complete: bool)
        ensures
            complete == (self@.remaining() == 0),
            self@.moved <= self@.declared,
    {
        proof {
            use_type_invariant(self);
        }
        self.moved == self.declared
    }

    /// The number of bytes that the next step moves: a full chunk, or what
    /// is left where that is less.
    pub fn next_chunk_len(&self) -> (len: usize)
        ensures
            len == chunk_len(self@.remaining()),
    {
        let remaining = self.remaining();
        if remaining < CHUNK_SIZE as u64 {
            remaining as usize
        } else {
            CHUNK_SIZE
        }
    }

    /// Sends the next bytes of the body.
    ///
    /// `chunk` is what the file yielded. As much of it as the declared size
    /// still allows is written to the connection, as it is, and counted;
    /// bytes beyond the declared size are never sent. An empty `chunk` while
    /// bytes are still owed means that the file ended early, and fails.
    /// Returns whether the body is complete.
    pub fn write_file_to_stream(
        &mut self,
        connection: &mut ProtocolConnection,
        chunk: &[u8],
    ) -> (result: Result<bool, VeriflowError>)
        ensures
            final(self)@.declared == old(self)@.declared,
            final(connection)@.inbound == old(connection)@.inbound,
            final(connection)@.closed == old(connection)@.closed,
            chunk@.len() == 0 && old(self)@.remaining() > 0 ==> result is Err
                && result->Err_0 is Io && final(self)@ == old(self)@ && final(connection)@
                == old(connection)@,
            chunk@.len() > 0 || old(self)@.remaining() == 0 ==> {
                let sent = if chunk@.len() <= old(self)@.remaining() {
                    chunk@
                } else {
                    chunk@.take(old(self)@.remaining() as int)
                };
                &&& final(self)@.moved == old(self)@.moved + sent.len()
                &&& final(connection)@.outbound == old(connection)@.outbound + sent
                &&& result == Ok::<bool, VeriflowError>(
                    final(self)@.moved == final(self)@.declared,
                )
            },
    {
        let remaining = self.remaining();
        if chunk.len() == 0 && remaining > 0 {
            return Err(VeriflowError::Io(String::from_str("the file ended before its declared size")));
        }
        let count: usize = if chunk.len() as u64 <= remaining {
            chunk.len()
        } else {
            remaining as usize
        };
        let mut bytes = vstd::slice::slice_to_vec(vstd::slice::slice_subrange(chunk, 0, count));
        assert(bytes@ =~= if chunk@.len() <= old(self)@.remaining() {
            chunk@
        } else {
            chunk@.take(old(self)@.remaining() as int)
        });
        connection.send_file(&mut bytes);
        proof {
            use_type_invariant(&*self);
        }
        self.moved = self.moved + count as u64;
        Ok(self.moved == self.declared)
    }

    /// Receives the next bytes of the body.
    ///
    /// Once every declared byte was handed out it returns `Finished` and
    /// takes nothing. Before that it hands out the next chunk whole, of
    /// `chunk_len` bytes, as soon as that many have arrived; with fewer at
    /// hand it takes nothing, asks for more while the peer may still send
    /// them, and fails once the peer has closed.
    pub fn read_file_to_disk(&mut self, connection: &mut ProtocolConnection) -> (result: Result<
        Incoming,
        VeriflowError,
    >)
        ensures
            final(self)@.declared == old(self)@.declared,
            final(connection)@.outbound == old(connection)@.outbound,
            final(connection)@.closed == old(connection)@.closed,
            ({
                let remaining = old(self)@.remaining();
                let want = chunk_len(remaining);
                let inbound = old(connection)@.inbound;
                if remaining == 0 {
                    &&& result is Ok
                    &&& result->Ok_0 is Finished
                    &&& final(self)@ == old(self)@
                    &&& final(connection)@ == old(connection)@
                } else if inbound.len() >= want {
                    &&& result is Ok
                    &&& result->Ok_0 is Chunk
                    &&& result->Ok_0->Chunk_0@ == inbound.take(want as int)
                    &&& final(connection)@.inbound == inbound.skip(want as int)
                    &&& final(self)@.moved == old(self)@.moved + want
                } else {
                    &&& final(self)@ == old(self)@
                    &&& final(connection)@ == old(connection)@
                    &&& old(connection)@.closed ==> result is Err && result->Err_0
                        == VeriflowError::Protocol
                    &&& !old(connection)@.closed ==> result is Ok && result->Ok_0 is Pending
                }
            }),
    {
        if self.is_complete() {
            return Ok(Incoming::Finished);
        }
        let want = self.next_chunk_len();
        match connection.read_body(want) {
            Ok(Some(bytes)) => {
                proof {
                    use_type_invariant(&*self);
                }
                self.moved = self.moved + want as u64;
                Ok(Incoming::Chunk(bytes))
            },
            Ok(None) => Ok(Incoming::Pending),
            Err(e) => Err(e),
        }
    }
}

} // verus!

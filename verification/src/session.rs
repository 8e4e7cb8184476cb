//! One operation from its first header to its end, as a machine that is
//! told what happened and answers what to do next.
//!
//! A `Session` owns the connection and the count of the body. It never
//! touches a socket or a file: whoever does reports each outcome as an
//! `Event`, and carries out the `Action` that `step` returns, after writing
//! to the socket whatever `take_outbound` holds. The first event of every
//! session is `Event::Ready`.

use crate::client::{announced, download_request, list_request, read_response, upload_request};
use crate::error::{ErrorKind, VeriflowError};
use crate::frame::{be32_value, first_payload, frame, has_frame, MAX_PAYLOAD};
use crate::header::{
    decoded, header_text, lemma_header_text_len, Command, FileHeader, HeaderView,
};
use crate::listing::{all_fit, decode_names, encode_names, listed, listing, texts};
use crate::path::is_safe_name;
use crate::protocol::{ConnectionView, ProtocolConnection};
use crate::server::{check_hash, dispatch, download_response, request_of, Request, RequestView};
use crate::stream::{chunk_len, Incoming, Transfer, TransferView, CHUNK_SIZE};
use vstd::prelude::*;
use vstd::utf8::encode_utf8;

verus! {

/// Where a session stands.
#[derive(Debug, Clone, Copy, PartialEq, Eq, Structural)]
pub enum Phase {
    /// A server waits for the header of a request.
    AwaitRequest,
    /// A client waits for the header that answers its download.
    AwaitResponse,
    /// A client waits for the list of names.
    AwaitListing,
    /// A body is arriving and goes to a file.
    Storing,
    /// The body has arrived whole; the digest of the file is awaited.
    Verifying,
    /// A server looks for the file that a download names.
    Locating,
    /// A body is read from a file and goes to the peer.
    Sending,
    /// A server collects the names in the storage root.
    Enumerating,
    /// The operation is complete.
    Done,
    /// The operation has failed.
    Failed,
}

/// What the owner of the socket and the files reports.
#[derive(Debug, Clone, PartialEq, Eq)]
pub enum Event {
    /// The last action was carried out, or the session has just begun.
    Ready,
    /// These bytes came from the peer.
    Received(Vec<u8>),
    /// The peer closed its side.
    Closed,
    /// The file that was written has this digest.
    Hashed(String),
    /// The file that was looked for is there, with this size and digest.
    Found {
        size: u64,
        hash: String,
    },
    /// The file that was looked for is not there.
    Missing,
    /// The file that is being sent yielded these bytes; none means that it
    /// has ended.
    FileChunk(Vec<u8>),
    /// The storage root holds these names.
    Entries(Vec<String>),
    /// The disk or the network failed, with this description.
    IoFailed(String),
}

/// An event as plain values.
pub enum EventView {
    Ready,
    Received(Seq<u8>),
    Closed,
    Hashed(Seq<char>),
    Found {
        size: u64,
        hash: Seq<char>,
    },
    Missing,
    FileChunk(Seq<u8>),
    Entries(Seq<Seq<char>>),
    IoFailed,
}

impl View for Event {
    type V = EventView;

    open spec fn view(&self) -> EventView {
        match self {
            Event::Ready => EventView::Ready,
            Event::Received(bytes) => EventView::Received(bytes@),
            Event::Closed => EventView::Closed,
            Event::Hashed(hash) => EventView::Hashed(hash@),
            Event::Found { size, hash } => EventView::Found { size: *size, hash: hash@ },
            Event::Missing => EventView::Missing,
            Event::FileChunk(bytes) => EventView::FileChunk(bytes@),
            Event::Entries(names) => EventView::Entries(texts(names@)),
            Event::IoFailed(_) => EventView::IoFailed,
        }
    }
}

/// What the owner of the socket and the files is to do next.
#[derive(Debug, Clone, PartialEq, Eq)]
pub enum Action {
    /// Read from the socket; report `Received` or `Closed`.
    Receive,
    /// Create the file of this name, empty; report `Ready`.
    Create(String),
    /// Append these bytes to the file; report `Ready`.
    Write(Vec<u8>),
    /// Flush the file to durable storage and compute its digest; report
    /// `Hashed`.
    Verify,
    /// Look for the file of this name and, where it is there, compute its
    /// size and digest; report `Found` or `Missing`.
    Lookup(String),
    /// Read at most this many bytes from the file; report `FileChunk`.
    ReadFile(usize),
    /// Collect the names in the storage root; report `Entries`.
    Enumerate,
    /// Show these names to the user. The operation is complete.
    Show(Vec<String>),
    /// The operation is complete: a file that was written stays.
    Finish,
    /// The operation has failed. Delete the file named in `discard`, if any,
    /// so that nothing partial or wrong stays behind.
    Fail {
        error: VeriflowError,
        discard: Option<String>,
    },
}

/// An action as plain values.
pub enum ActionView {
    Receive,
    Create(Seq<char>),
    Write(Seq<u8>),
    Verify,
    Lookup(Seq<char>),
    ReadFile(nat),
    Enumerate,
    Show(Seq<Seq<char>>),
    Finish,
    Fail {
        kind: ErrorKind,
        discard: Option<Seq<char>>,
    },
}

impl View for Action {
    type V = ActionView;

    open spec fn view(&self) -> ActionView {
        match self {
            Action::Receive => ActionView::Receive,
            Action::Create(name) => ActionView::Create(name@),
            Action::Write(bytes) => ActionView::Write(bytes@),
            Action::Verify => ActionView::Verify,
            Action::Lookup(name) => ActionView::Lookup(name@),
            Action::ReadFile(count) => ActionView::ReadFile(*count as nat),
            Action::Enumerate => ActionView::Enumerate,
            Action::Show(names) => ActionView::Show(texts(names@)),
            Action::Finish => ActionView::Finish,
            Action::Fail { error, discard } => ActionView::Fail {
                kind: error@,
                discard: match discard {
                    Some(name) => Some(name@),
                    None => None,
                },
            },
        }
    }
}

/// A session as plain values.
pub struct SessionView {
    /// The connection to the peer.
    pub connection: ConnectionView,
    /// Where the session stands.
    pub phase: Phase,
    /// The name of the file that the operation is about.
    pub name: Seq<char>,
    /// The digest that was announced for the body that is arriving.
    pub hash: Seq<char>,
    /// The count of the body.
    pub transfer: TransferView,
}

/// One operation on one connection.
pub struct Session {
    connection: ProtocolConnection,
    phase: Phase,
    name: String,
    hash: String,
    transfer: Transfer,
}

impl View for Session {
    type V = SessionView;

    closed spec fn view(&self) -> SessionView {
        SessionView {
            connection: self.connection@,
            phase: self.phase,
            name: self.name@,
            hash: self.hash@,
            transfer: self.transfer@,
        }
    }
}

/// A connection on which nothing has happened but that `written` was
/// written.
pub open spec fn opened(written: Seq<u8>) -> ConnectionView {
    ConnectionView { inbound: Seq::<u8>::empty(), outbound: written, closed: false }
}

/// A count of `size` bytes of which none has moved.
pub open spec fn fresh(size: u64) -> TransferView {
    TransferView { declared: size as nat, moved: 0 }
}

/// The frame that carries a header.
pub open spec fn header_frame(header: HeaderView) -> Seq<u8> {
    frame(encode_utf8(header_text(header)))
}

/// Whether a header is short enough for a frame.
pub open spec fn header_fits(header: HeaderView) -> bool {
    encode_utf8(header_text(header)).len() <= MAX_PAYLOAD
}

/// The header that asks for the list of names.
pub open spec fn list_header() -> HeaderView {
    HeaderView {
        command: Command::List,
        name: Seq::<char>::empty(),
        size: 0,
        hash: Seq::<char>::empty(),
    }
}

/// A header fits a frame unless its name and its hash are enormous: a
/// hundred million characters between them are still fine.
pub proof fn lemma_header_fits(header: HeaderView)
    requires
        header.name.len() + header.hash.len() <= 100_000_000,
    ensures
        header_fits(header),
{
    lemma_header_text_len(header);
}

/// The session fails: a file that was being written is to be deleted.
pub open spec fn fail(s: SessionView, kind: ErrorKind) -> (SessionView, ActionView) {
    (
        SessionView { phase: Phase::Failed, ..s },
        ActionView::Fail {
            kind,
            discard: if s.phase == Phase::Storing || s.phase == Phase::Verifying {
                Some(s.name)
            } else {
                None
            },
        },
    )
}

/// A server has read the payload of the first frame.
pub open spec fn accept_request(s: SessionView, payload: Seq<u8>) -> (SessionView, ActionView) {
    match decoded(payload) {
        None => fail(s, ErrorKind::Serialization),
        Some(header) => match request_of(header) {
            None => fail(s, ErrorKind::InvalidPath),
            Some(RequestView::Store { name, size, hash }) => (
                SessionView { phase: Phase::Storing, name, hash, transfer: fresh(size), ..s },
                ActionView::Create(name),
            ),
            Some(RequestView::Fetch { name }) => (
                SessionView { phase: Phase::Locating, name, ..s },
                ActionView::Lookup(name),
            ),
            Some(RequestView::List) => (
                SessionView { phase: Phase::Enumerating, ..s },
                ActionView::Enumerate,
            ),
        },
    }
}

/// A client has read the payload of the frame that answers its download.
pub open spec fn accept_answer(s: SessionView, payload: Seq<u8>) -> (SessionView, ActionView) {
    match decoded(payload) {
        None => fail(s, ErrorKind::Serialization),
        Some(header) => match announced(header) {
            None => fail(s, ErrorKind::Protocol),
            Some((size, hash)) => (
                SessionView { phase: Phase::Storing, hash, transfer: fresh(size), ..s },
                ActionView::Create(s.name),
            ),
        },
    }
}

/// A client has read the payload of the frame that lists the names.
pub open spec fn accept_listing(s: SessionView, payload: Seq<u8>) -> (SessionView, ActionView) {
    match listed(payload) {
        None => fail(s, ErrorKind::Serialization),
        Some(names) => (SessionView { phase: Phase::Done, ..s }, ActionView::Show(names)),
    }
}

/// A session that waits for a frame looks at what has arrived: a whole frame
/// is taken and read, a part of one waits for the rest, and fails where the
/// peer has closed.
pub open spec fn await_frame(s: SessionView) -> (SessionView, ActionView) {
    let inbound = s.connection.inbound;
    if has_frame(inbound) {
        let taken = SessionView {
            connection: s.connection.consumed(4 + be32_value(inbound) as int),
            ..s
        };
        if s.phase == Phase::AwaitRequest {
            accept_request(taken, first_payload(inbound))
        } else if s.phase == Phase::AwaitResponse {
            accept_answer(taken, first_payload(inbound))
        } else {
            accept_listing(taken, first_payload(inbound))
        }
    } else if s.connection.closed {
        fail(s, ErrorKind::Protocol)
    } else {
        (s, ActionView::Receive)
    }
}

/// A session that stores a body looks at what has arrived: the next chunk is
/// taken whole and goes to the file; after the last one the file is
/// verified; a part of a chunk waits for the rest, and fails where the peer
/// has closed.
pub open spec fn store(s: SessionView) -> (SessionView, ActionView) {
    let remaining = s.transfer.remaining();
    let want = chunk_len(remaining);
    let inbound = s.connection.inbound;
    if remaining == 0 {
        (SessionView { phase: Phase::Verifying, ..s }, ActionView::Verify)
    } else if inbound.len() >= want {
        (
            SessionView {
                connection: s.connection.consumed(want as int),
                transfer: s.transfer.advanced(want),
                ..s
            },
            ActionView::Write(inbound.take(want as int)),
        )
    } else if s.connection.closed {
        fail(s, ErrorKind::Protocol)
    } else {
        (s, ActionView::Receive)
    }
}

/// A session that sends a body asks the file for the next chunk, until every
/// declared byte was sent.
pub open spec fn send(s: SessionView) -> (SessionView, ActionView) {
    if s.transfer.remaining() == 0 {
        (SessionView { phase: Phase::Done, ..s }, ActionView::Finish)
    } else {
        (s, ActionView::ReadFile(chunk_len(s.transfer.remaining())))
    }
}

/// The part of `chunk` that a body with `remaining` bytes to go still
/// takes.
pub open spec fn admitted(chunk: Seq<u8>, remaining: nat) -> Seq<u8> {
    if chunk.len() <= remaining {
        chunk
    } else {
        chunk.take(remaining as int)
    }
}

/// A session that sends a body was given the next bytes of the file.
pub open spec fn forward(s: SessionView, chunk: Seq<u8>) -> (SessionView, ActionView) {
    if chunk.len() == 0 && s.transfer.remaining() > 0 {
        fail(s, ErrorKind::Io)
    } else {
        let sent = admitted(chunk, s.transfer.remaining());
        send(
            SessionView {
                connection: s.connection.sent(sent),
                transfer: s.transfer.advanced(sent.len()),
                ..s
            },
        )
    }
}

/// A server has found the file: it answers with the header that announces
/// the body, and begins to send.
pub open spec fn answer(s: SessionView, size: u64, hash: Seq<char>) -> (SessionView, ActionView) {
    let header = HeaderView { command: Command::Download, name: s.name, size, hash };
    if header_fits(header) {
        send(
            SessionView {
                phase: Phase::Sending,
                connection: s.connection.sent(header_frame(header)),
                transfer: fresh(size),
                ..s
            },
        )
    } else {
        fail(s, ErrorKind::Protocol)
    }
}

/// A server has collected the names: it answers with one frame that lists
/// them.
pub open spec fn enumerate(s: SessionView, names: Seq<Seq<char>>) -> (SessionView, ActionView) {
    if all_fit(names) && listing(names).len() <= MAX_PAYLOAD {
        (
            SessionView {
                phase: Phase::Done,
                connection: s.connection.sent(frame(listing(names))),
                ..s
            },
            ActionView::Finish,
        )
    } else {
        fail(s, ErrorKind::Protocol)
    }
}

/// The digest of the stored file is known: the file stays only if it is the
/// digest that was announced.
pub open spec fn judge(s: SessionView, computed: Seq<char>) -> (SessionView, ActionView) {
    if computed == s.hash {
        (SessionView { phase: Phase::Done, ..s }, ActionView::Finish)
    } else {
        fail(s, ErrorKind::Integrity)
    }
}

/// Whether a session in this phase takes bytes from the peer.
pub open spec fn listens(phase: Phase) -> bool {
    phase == Phase::AwaitRequest || phase == Phase::AwaitResponse || phase == Phase::AwaitListing
        || phase == Phase::Storing
}

/// A session goes on with what it has.
pub open spec fn proceed(s: SessionView) -> (SessionView, ActionView) {
    if s.phase == Phase::Storing {
        store(s)
    } else if s.phase == Phase::Sending {
        send(s)
    } else if listens(s.phase) {
        await_frame(s)
    } else {
        fail(s, ErrorKind::Protocol)
    }
}

/// What a session becomes on an event, and what it asks for.
///
/// A session that is done stays done, and one that has failed stays failed.
/// An event that the phase does not expect fails the session as a protocol
/// error.
pub open spec fn transition(s: SessionView, event: EventView) -> (SessionView, ActionView) {
    if s.phase == Phase::Done {
        (s, ActionView::Finish)
    } else if s.phase == Phase::Failed {
        (s, ActionView::Fail { kind: ErrorKind::Protocol, discard: None })
    } else {
        match event {
            EventView::IoFailed => fail(s, ErrorKind::Io),
            EventView::Ready => proceed(s),
            EventView::Received(bytes) => if listens(s.phase) {
                proceed(SessionView { connection: s.connection.received(bytes), ..s })
            } else {
                fail(s, ErrorKind::Protocol)
            },
            EventView::Closed => if listens(s.phase) {
                proceed(SessionView { connection: s.connection.shut(), ..s })
            } else {
                fail(s, ErrorKind::Protocol)
            },
            EventView::Hashed(computed) => if s.phase == Phase::Verifying {
                judge(s, computed)
            } else {
                fail(s, ErrorKind::Protocol)
            },
            EventView::Found { size, hash } => if s.phase == Phase::Locating {
                answer(s, size, hash)
            } else {
                fail(s, ErrorKind::Protocol)
            },
            EventView::Missing => if s.phase == Phase::Locating {
                fail(s, ErrorKind::NotFound)
            } else {
                fail(s, ErrorKind::Protocol)
            },
            EventView::FileChunk(chunk) => if s.phase == Phase::Sending {
                forward(s, chunk)
            } else {
                fail(s, ErrorKind::Protocol)
            },
            EventView::Entries(names) => if s.phase == Phase::Enumerating {
                enumerate(s, names)
            } else {
                fail(s, ErrorKind::Protocol)
            },
        }
    }
}

/// The bytes that a storing session writes to its file out of what has
/// arrived, chunk after chunk, until it has to wait, verify or fail.
pub open spec fn written(s: SessionView) -> Seq<u8>
    decreases s.transfer.remaining(),
{
    if store(s).1 is Write {
        store(s).1->Write_0 + written(store(s).0)
    } else {
        Seq::<u8>::empty()
    }
}

/// The session that a storing session has become once it has to wait,
/// verify or fail.
pub open spec fn settled(s: SessionView) -> SessionView
    decreases s.transfer.remaining(),
{
    if store(s).1 is Write {
        settled(store(s).0)
    } else {
        s
    }
}

/// The hash check. Once a body has arrived whole, the file stays only if the
/// digest computed from it is the digest that was announced: on that event
/// the session is done. On a different digest the session fails with an
/// integrity error, and on any other event with some error; either way the
/// file is to be deleted.
pub proof fn lemma_hash_check(s: SessionView, event: EventView)
    requires
        s.phase == Phase::Verifying,
    ensures
        event == EventView::Hashed(s.hash) ==> transition(s, event) == (
            SessionView { phase: Phase::Done, ..s },
            ActionView::Finish,
        ),
        event != EventView::Hashed(s.hash) ==> transition(s, event).0 == (SessionView {
            phase: Phase::Failed,
            ..s
        }) && transition(s, event).1 is Fail && transition(s, event).1->discard == Some(s.name),
        event is Hashed && event != EventView::Hashed(s.hash) ==> transition(s, event).1->kind
            == ErrorKind::Integrity,
{
}

/// A download of a name that the storage root does not hold fails as not
/// found, and nothing is written to the peer: no header and no body.
pub proof fn lemma_missing_file(s: SessionView)
    requires
        s.phase == Phase::Locating,
    ensures
        transition(s, EventView::Missing) == (
            SessionView { phase: Phase::Failed, ..s },
            ActionView::Fail { kind: ErrorKind::NotFound, discard: None },
        ),
        transition(s, EventView::Missing).0.connection == s.connection,
{
}

/// A session that is done or has failed stays as it is, whatever happens.
pub proof fn lemma_terminal(s: SessionView, event: EventView)
    requires
        s.phase == Phase::Done || s.phase == Phase::Failed,
    ensures
        transition(s, event).0 == s,
        s.phase == Phase::Done ==> transition(s, event).1 == ActionView::Finish,
        s.phase == Phase::Failed ==> transition(s, event).1 is Fail,
{
}

/// The header comes before the body. Bytes go to a file, and a file is
/// verified, only while a body is being stored; and a session begins to
/// store only when it has read a whole frame that holds a header.
pub proof fn lemma_header_before_body(s: SessionView, event: EventView)
    ensures
        transition(s, event).1 is Write || transition(s, event).1 is Verify ==> s.phase
            == Phase::Storing,
        transition(s, event).0.phase == Phase::Storing && s.phase != Phase::Storing ==> {
            let inbound = match event {
                EventView::Received(bytes) => s.connection.inbound + bytes,
                _ => s.connection.inbound,
            };
            &&& s.phase == Phase::AwaitRequest || s.phase == Phase::AwaitResponse
            &&& has_frame(inbound)
            &&& decoded(first_payload(inbound)) is Some
            &&& transition(s, event).1 is Create
        },
{
}

/// No step moves more than the declared size: a count within its declared
/// size stays within it.
pub proof fn lemma_within_declared(s: SessionView, event: EventView)
    requires
        s.transfer.moved <= s.transfer.declared,
    ensures
        transition(s, event).0.transfer.moved <= transition(s, event).0.transfer.declared,
{
}

/// A body is complete when it is declared so. A file is verified only once
/// every declared byte has gone to it, and a session that sends a body is
/// done only once every declared byte was sent.
pub proof fn lemma_complete_when_done(s: SessionView, event: EventView)
    requires
        s.transfer.moved <= s.transfer.declared,
    ensures
        transition(s, event).1 is Verify ==> s.phase == Phase::Storing && s.transfer.moved
            == s.transfer.declared,
        s.phase == Phase::Sending && transition(s, event).0.phase == Phase::Done ==> transition(
            s,
            event,
        ).0.transfer.moved == s.transfer.declared,
{
}

/// No step holds more than one chunk of a body: what goes to the file at
/// once, and what is asked of the file at once, is never more than a chunk.
pub proof fn lemma_bounded_chunks(s: SessionView, event: EventView)
    ensures
        transition(s, event).1 is Write ==> transition(s, event).1->Write_0.len() <= CHUNK_SIZE,
        transition(s, event).1 is ReadFile ==> transition(s, event).1->ReadFile_0 <= CHUNK_SIZE,
{
}

/// Exact transfer. When the rest of a body has arrived, a storing session
/// writes exactly that rest to the file, byte for byte and in order, and
/// then asks for the file to be verified; what arrived after the body is
/// left untouched.
pub proof fn lemma_store_exact(s: SessionView)
    requires
        s.phase == Phase::Storing,
        s.transfer.moved <= s.transfer.declared,
        s.connection.inbound.len() >= s.transfer.remaining(),
    ensures
        written(s) == s.connection.inbound.take(s.transfer.remaining() as int),
        settled(s).connection.inbound == s.connection.inbound.skip(
            s.transfer.remaining() as int,
        ),
        settled(s).transfer.moved == s.transfer.declared,
        store(settled(s)).1 == ActionView::Verify,
    decreases s.transfer.remaining(),
{
    let remaining = s.transfer.remaining();
    let inbound = s.connection.inbound;
    if remaining == 0 {
        assert(inbound.take(0) =~= Seq::<u8>::empty());
        assert(inbound.skip(0) =~= inbound);
    } else {
        let want = chunk_len(remaining);
        let next = store(s).0;
        assert(store(s).1 == ActionView::Write(inbound.take(want as int)));
        lemma_store_exact(next);
        assert(next.connection.inbound == inbound.skip(want as int));
        assert(next.transfer.remaining() == remaining - want);
        assert(inbound.take(want as int) + inbound.skip(want as int).take(remaining - want)
            =~= inbound.take(remaining as int));
        assert(inbound.skip(want as int).skip(remaining - want) =~= inbound.skip(
            remaining as int,
        ));
    }
}


impl Session {
    /// A server's session: it waits for the header of a request.
    pub fn serve() -> (session: Session)
        ensures
            session@ == (SessionView {
                connection: opened(Seq::<u8>::empty()),
                phase: Phase::AwaitRequest,
                name: Seq::<char>::empty(),
                hash: Seq::<char>::empty(),
                transfer: fresh(0),
            }),
    {
        Session {
            connection: ProtocolConnection::new(),
            phase: Phase::AwaitRequest,
            name: String::new(),
            hash: String::new(),
            transfer: Transfer::new(0),
        }
    }

    /// A client's session that has written `header` and stands in `phase`.
    fn open(header: FileHeader, phase: Phase) -> (result: Result<Session, VeriflowError>)
        ensures
            header_fits(header@) ==> result is Ok && result->Ok_0@ == (SessionView {
                connection: opened(header_frame(header@)),
                phase: phase,
                name: header@.name,
                hash: header@.hash,
                transfer: fresh(header@.size),
            }),
            !header_fits(header@) ==> result == Err::<Session, VeriflowError>(
                VeriflowError::Protocol,
            ),
    {
        let mut connection = ProtocolConnection::new();
        let text = header.to_json();
        match connection.send_header(text.as_str()) {
            Err(e) => Err(e),
            Ok(()) => {
                assert(connection@.outbound =~= header_frame(header@));
                Ok(
                    Session {
                        connection,
                        phase,
                        name: header.name,
                        hash: header.hash,
                        transfer: Transfer::new(header.size),
                    },
                )
            },
        }
    }

    /// A client's session that uploads a file.
    ///
    /// `name` is the base name of the file, or `None` where the path has
    /// none that can be written as text; `size` and `hash` are those of its
    /// content. The header is written at once, and the body follows chunk by
    /// chunk. Fails with an invalid path where the name is missing or
    /// unsafe, and with a protocol error where the header does not fit a
    /// frame.
    pub fn upload(name: Option<&str>, size: u64, hash: &str) -> (result: Result<
        Session,
        VeriflowError,
    >)
        ensures
            ({
                let header = HeaderView {
                    command: Command::Upload,
                    name: name->0@,
                    size: size,
                    hash: hash@,
                };
                if !(name is Some && is_safe_name(name->0@)) {
                    result == Err::<Session, VeriflowError>(VeriflowError::InvalidPath)
                } else if !header_fits(header) {
                    result == Err::<Session, VeriflowError>(VeriflowError::Protocol)
                } else {
                    result is Ok && result->Ok_0@ == (SessionView {
                        connection: opened(header_frame(header)),
                        phase: Phase::Sending,
                        name: name->0@,
                        hash: hash@,
                        transfer: fresh(size),
                    })
                }
            }),
    {
        match upload_request(name, size, hash) {
            Err(e) => Err(e),
            Ok(header) => Session::open(header, Phase::Sending),
        }
    }

    /// A client's session that downloads the file `name`.
    ///
    /// The request is written at once. Fails with an invalid path where the
    /// name is unsafe, and with a protocol error where the header does not
    /// fit a frame.
    pub fn download(name: &str) -> (result: Result<Session, VeriflowError>)
        ensures
            ({
                let header = HeaderView {
                    command: Command::Download,
                    name: name@,
                    size: 0,
                    hash: Seq::<char>::empty(),
                };
                if !is_safe_name(name@) {
                    result == Err::<Session, VeriflowError>(VeriflowError::InvalidPath)
                } else if !header_fits(header) {
                    result == Err::<Session, VeriflowError>(VeriflowError::Protocol)
                } else {
                    result is Ok && result->Ok_0@ == (SessionView {
                        connection: opened(header_frame(header)),
                        phase: Phase::AwaitResponse,
                        name: name@,
                        hash: Seq::<char>::empty(),
                        transfer: fresh(0),
                    })
                }
            }),
    {
        match download_request(name) {
            Err(e) => Err(e),
            Ok(header) => Session::open(header, Phase::AwaitResponse),
        }
    }

    /// A client's session that asks for the list of names. The request is
    /// written at once.
    pub fn list() -> (session: Session)
        ensures
            session@ == (SessionView {
                connection: opened(header_frame(list_header())),
                phase: Phase::AwaitListing,
                name: Seq::<char>::empty(),
                hash: Seq::<char>::empty(),
                transfer: fresh(0),
            }),
    {
        proof {
            lemma_header_fits(list_header());
        }
        match Session::open(list_request(), Phase::AwaitListing) {
            Ok(session) => session,
            Err(_) => vstd::pervasive::unreached(),
        }
    }

    /// Where the session stands.
    pub fn phase(&self) -> (phase: Phase)
        ensures
            phase == self@.phase,
    {
        self.phase
    }

    /// Hands over everything that was written for the peer and not taken
    /// yet.
    pub fn take_outbound(&mut self) -> (bytes: Vec<u8>)
        ensures
            bytes@ == old(self)@.connection.outbound,
            final(self)@ == (SessionView {
                connection: ConnectionView {
                    outbound: Seq::<u8>::empty(),
                    ..old(self)@.connection
                },
                ..old(self)@
            }),
    {
        self.connection.take_outbound()
    }

    /// Takes in one event and returns what to do next.
    pub fn step(&mut self, event: Event) -> (action: Action)
        ensures
            (final(self)@, action@) == transition(old(self)@, event@),
    {
        match self.phase {
            Phase::Done => {
                return Action::Finish;
            },
            Phase::Failed => {
                return Action::Fail { error: VeriflowError::Protocol, discard: None };
            },
            _ => {},
        }
        let listens = match self.phase {
            Phase::AwaitRequest | Phase::AwaitResponse | Phase::AwaitListing | Phase::Storing => true,
            _ => false,
        };
        match event {
            Event::IoFailed(detail) => self.fail(VeriflowError::Io(detail)),
            Event::Ready => self.proceed(),
            Event::Received(bytes) => {
                if listens {
                    self.connection.receive(bytes.as_slice());
                    self.proceed()
                } else {
                    self.fail(VeriflowError::Protocol)
                }
            },
            Event::Closed => {
                if listens {
                    self.connection.close();
                    self.proceed()
                } else {
                    self.fail(VeriflowError::Protocol)
                }
            },
            Event::Hashed(computed) => match self.phase {
                Phase::Verifying => match check_hash(self.hash.as_str(), computed.as_str()) {
                    Ok(()) => {
                        self.phase = Phase::Done;
                        Action::Finish
                    },
                    Err(e) => self.fail(e),
                },
                _ => self.fail(VeriflowError::Protocol),
            },
            Event::Found { size, hash } => match self.phase {
                Phase::Locating => self.answer(size, hash),
                _ => self.fail(VeriflowError::Protocol),
            },
            Event::Missing => match self.phase {
                Phase::Locating => self.fail(VeriflowError::NotFound),
                _ => self.fail(VeriflowError::Protocol),
            },
            Event::FileChunk(chunk) => match self.phase {
                Phase::Sending => self.forward(chunk),
                _ => self.fail(VeriflowError::Protocol),
            },
            Event::Entries(names) => match self.phase {
                Phase::Enumerating => self.enumerate(names),
                _ => self.fail(VeriflowError::Protocol),
            },
        }
    }

    fn fail(&mut self, error: VeriflowError) -> (action: Action)
        ensures
            (final(self)@, action@) == fail(old(self)@, error@),
    {
        let discard = match self.phase {
            Phase::Storing | Phase::Verifying => Some(self.name.clone()),
            _ => None,
        };
        self.phase = Phase::Failed;
        Action::Fail { error, discard }
    }

    fn proceed(&mut self) -> (action: Action)
        ensures
            (final(self)@, action@) == proceed(old(self)@),
    {
        match self.phase {
            Phase::Storing => self.store(),
            Phase::Sending => self.send(),
            Phase::AwaitRequest | Phase::AwaitResponse | Phase::AwaitListing => self.await_frame(),
            _ => self.fail(VeriflowError::Protocol),
        }
    }

    fn await_frame(&mut self) -> (action: Action)
        requires
            old(self).phase == Phase::AwaitRequest || old(self).phase == Phase::AwaitResponse
                || old(self).phase == Phase::AwaitListing,
        ensures
            (final(self)@, action@) == await_frame(old(self)@),
    {
        match self.connection.read_message() {
            Err(e) => self.fail(e),
            Ok(None) => Action::Receive,
            Ok(Some(payload)) => match self.phase {
                Phase::AwaitRequest => self.accept_request(payload),
                Phase::AwaitResponse => self.accept_answer(payload),
                _ => self.accept_listing(payload),
            },
        }
    }

    fn accept_request(&mut self, payload: Vec<u8>) -> (action: Action)
        requires
            old(self).phase == Phase::AwaitRequest,
        ensures
            (final(self)@, action@) == accept_request(old(self)@, payload@),
    {
        match dispatch(payload.as_slice()) {
            Err(e) => self.fail(e),
            Ok(Request::Store { name, size, hash }) => {
                self.phase = Phase::Storing;
                self.name = name;
                self.hash = hash;
                self.transfer = Transfer::new(size);
                Action::Create(self.name.clone())
            },
            Ok(Request::Fetch { name }) => {
                self.phase = Phase::Locating;
                self.name = name;
                Action::Lookup(self.name.clone())
            },
            Ok(Request::List) => {
                self.phase = Phase::Enumerating;
                Action::Enumerate
            },
        }
    }

    fn accept_answer(&mut self, payload: Vec<u8>) -> (action: Action)
        requires
            old(self).phase == Phase::AwaitResponse,
        ensures
            (final(self)@, action@) == accept_answer(old(self)@, payload@),
    {
        match FileHeader::from_json(payload.as_slice()) {
            Err(e) => self.fail(e),
            Ok(header) => match read_response(header) {
                Err(e) => self.fail(e),
                Ok((size, hash)) => {
                    self.phase = Phase::Storing;
                    self.hash = hash;
                    self.transfer = Transfer::new(size);
                    Action::Create(self.name.clone())
                },
            },
        }
    }

    fn accept_listing(&mut self, payload: Vec<u8>) -> (action: Action)
        requires
            old(self).phase == Phase::AwaitListing,
        ensures
            (final(self)@, action@) == accept_listing(old(self)@, payload@),
    {
        match decode_names(payload.as_slice()) {
            Err(e) => self.fail(e),
            Ok(names) => {
                self.phase = Phase::Done;
                Action::Show(names)
            },
        }
    }

    fn store(&mut self) -> (action: Action)
        requires
            old(self).phase == Phase::Storing,
        ensures
            (final(self)@, action@) == store(old(self)@),
    {
        match self.transfer.read_file_to_disk(&mut self.connection) {
            Err(e) => self.fail(e),
            Ok(Incoming::Chunk(bytes)) => Action::Write(bytes),
            Ok(Incoming::Pending) => Action::Receive,
            Ok(Incoming::Finished) => {
                self.phase = Phase::Verifying;
                Action::Verify
            },
        }
    }

    fn send(&mut self) -> (action: Action)
        ensures
            (final(self)@, action@) == send(old(self)@),
    {
        if self.transfer.is_complete() {
            self.phase = Phase::Done;
            Action::Finish
        } else {
            Action::ReadFile(self.transfer.next_chunk_len())
        }
    }

    fn forward(&mut self, chunk: Vec<u8>) -> (action: Action)
        requires
            old(self).phase == Phase::Sending,
        ensures
            (final(self)@, action@) == forward(old(self)@, chunk@),
    {
        match self.transfer.write_file_to_stream(&mut self.connection, chunk.as_slice()) {
            Err(e) => self.fail(e),
            Ok(_) => self.send(),
        }
    }

    fn answer(&mut self, size: u64, hash: String) -> (action: Action)
        requires
            old(self).phase == Phase::Locating,
        ensures
            (final(self)@, action@) == answer(old(self)@, size, hash@),
    {
        let header = download_response(self.name.as_str(), size, hash.as_str());
        let text = header.to_json();
        match self.connection.send_header(text.as_str()) {
            Err(e) => self.fail(e),
            Ok(()) => {
                self.phase = Phase::Sending;
                self.transfer = Transfer::new(size);
                self.send()
            },
        }
    }

    fn enumerate(&mut self, names: Vec<String>) -> (action: Action)
        requires
            old(self).phase == Phase::Enumerating,
        ensures
            (final(self)@, action@) == enumerate(old(self)@, texts(names@)),
    {
        match encode_names(&names) {
            Err(e) => self.fail(e),
            Ok(payload) => match self.connection.send_message(payload.as_slice()) {
                Err(e) => self.fail(e),
                Ok(()) => {
                    self.phase = Phase::Done;
                    Action::Finish
                },
            },
        }
    }
}

} // verus!

//! The server's side of one connection: which request a header makes, and
//! what is done about it.

use crate::error::VeriflowError;
use crate::header::{decoded, Command, FileHeader, HeaderView};
use crate::path::{is_safe_name, validate_name};
use crate::text::same_text;
use vstd::prelude::*;
use vstd::string::StringExecFns;

verus! {

/// What a header asks of the server.
#[derive(Debug, Clone, PartialEq, Eq)]
pub enum Request {
    /// Keep the body that follows under `name`, if it has the digest `hash`.
    Store {
        name: String,
        size: u64,
        hash: String,
    },
    /// Send the file `name`.
    Fetch {
        name: String,
    },
    /// Send the names in the storage root.
    List,
}

/// A request as plain values.
pub enum RequestView {
    Store {
        name: Seq<char>,
        size: u64,
        hash: Seq<char>,
    },
    Fetch {
        name: Seq<char>,
    },
    List,
}

impl View for Request {
    type V = RequestView;

    open spec fn view(&self) -> RequestView {
        match self {
            Request::Store { name, size, hash } => RequestView::Store {
                name: name@,
                size: *size,
                hash: hash@,
            },
            Request::Fetch { name } => RequestView::Fetch { name: name@ },
            Request::List => RequestView::List,
        }
    }
}

/// The request that a header makes, or `None` where the header names a file
/// outside the storage root. A list request names no file.
pub open spec fn request_of(header: HeaderView) -> Option<RequestView> {
    match header.command {
        Command::Upload => if is_safe_name(header.name) {
            Some(RequestView::Store { name: header.name, size: header.size, hash: header.hash })
        } else {
            None
        },
        Command::Download => if is_safe_name(header.name) {
            Some(RequestView::Fetch { name: header.name })
        } else {
            None
        },
        Command::List => Some(RequestView::List),
    }
}

/// Turns a header into the request it makes.
///
/// The name of an upload or a download is checked before anything touches
/// the disk: one that would leave the storage root is an invalid path.
pub fn route(header: FileHeader) -> (result: Result<Request, VeriflowError>)
    ensures
        match request_of(header@) {
            Some(request) => result is Ok && result->Ok_0@ == request,
            None => result == Err::<Request, VeriflowError>(VeriflowError::InvalidPath),
        },
{
    match header.command {
        Command::Upload => match validate_name(header.name.as_str()) {
            Ok(()) => Ok(Request::Store { name: header.name, size: header.size, hash: header.hash }),
            Err(e) => Err(e),
        },
        Command::Download => match validate_name(header.name.as_str()) {
            Ok(()) => Ok(Request::Fetch { name: header.name }),
            Err(e) => Err(e),
        },
        Command::List => Ok(Request::List),
    }
}

/// Reads the payload of the first frame as a request.
///
/// A payload that is no header is a serialisation error; a header that
/// names a file outside the storage root is an invalid path.
pub fn dispatch(payload: &[u8]) -> (result: Result<Request, VeriflowError>)
    ensures
        match decoded(payload@) {
            None => result is Err && result->Err_0 is JSON,
            Some(header) => match request_of(header) {
                Some(request) => result is Ok && result->Ok_0@ == request,
                None => result == Err::<Request, VeriflowError>(VeriflowError::InvalidPath),
            },
        },
{
    match FileHeader::from_json(payload) {
        Ok(header) => route(header),
        Err(e) => Err(e),
    }
}

/// The header that answers a download: it announces the size and the hash
/// of the body that follows.
pub fn download_response(name: &str, size: u64, hash: &str) -> (header: FileHeader)
    ensures
        header@ == (HeaderView { command: Command::Download, name: name@, size: size, hash: hash@ }),
{
    FileHeader {
        command: Command::Download,
        name: String::from_str(name),
        size,
        hash: String::from_str(hash),
    }
}

/// The check that a finished transfer must pass: the digest of the bytes
/// that arrived must be the digest that the header announced.
pub fn check_hash(announced: &str, computed: &str) -> (result: Result<(), VeriflowError>)
    ensures
        announced@ == computed@ ==> result is Ok,
        announced@ != computed@ ==> result == Err::<(), VeriflowError>(VeriflowError::Integrity),
{
    if same_text(announced, computed) {
        Ok(())
    } else {
        Err(VeriflowError::Integrity)
    }
}

} // verus!

//! The client's side: the header that opens each operation, and what the
//! client makes of the server's answer.

use crate::error::VeriflowError;
use crate::header::{decoded, Command, FileHeader, HeaderView};
use crate::path::{is_safe_name, validate_name};
use vstd::prelude::*;
use vstd::string::StringExecFns;

verus! {

/// The header that announces an upload.
///
/// `name` is the base name of the local file, or `None` where the path has
/// none that can be written as text. A missing name, and one that the
/// server would refuse as unsafe, is an invalid path.
pub fn upload_request(name: Option<&str>, size: u64, hash: &str) -> (result: Result<
    FileHeader,
    VeriflowError,
>)
    ensures
        name is Some && is_safe_name(name->0@) ==> result is Ok && result->Ok_0@ == (HeaderView {
            command: Command::Upload,
            name: name->0@,
            size: size,
            hash: hash@,
        }),
        !(name is Some && is_safe_name(name->0@)) ==> result == Err::<FileHeader, VeriflowError>(
            VeriflowError::InvalidPath,
        ),
{
    match name {
        None => Err(VeriflowError::InvalidPath),
        Some(name) => match validate_name(name) {
            Err(e) => Err(e),
            Ok(()) => Ok(
                FileHeader {
                    command: Command::Upload,
                    name: String::from_str(name),
                    size,
                    hash: String::from_str(hash),
                },
            ),
        },
    }
}

/// The header that asks for a download. It announces no body: its size is
/// zero and its hash empty.
///
/// The file will be written under `name` on this side too, so a name that
/// would leave the directory is an invalid path.
pub fn download_request(name: &str) -> (result: Result<FileHeader, VeriflowError>)
    ensures
        is_safe_name(name@) ==> result is Ok && result->Ok_0@ == (HeaderView {
            command: Command::Download,
            name: name@,
            size: 0,
            hash: Seq::<char>::empty(),
        }),
        !is_safe_name(name@) ==> result == Err::<FileHeader, VeriflowError>(
            VeriflowError::InvalidPath,
        ),
{
    match validate_name(name) {
        Err(e) => Err(e),
        Ok(()) => Ok(
            FileHeader {
                command: Command::Download,
                name: String::from_str(name),
                size: 0,
                hash: String::new(),
            },
        ),
    }
}

/// The header that asks for the list of names.
pub fn list_request() -> (header: FileHeader)
    ensures
        header@ == (HeaderView {
            command: Command::List,
            name: Seq::<char>::empty(),
            size: 0,
            hash: Seq::<char>::empty(),
        }),
{
    FileHeader { command: Command::List, name: String::new(), size: 0, hash: String::new() }
}

/// What the answer to a download announces, or `None` where the header is
/// no answer to a download.
pub open spec fn announced(header: HeaderView) -> Option<(u64, Seq<char>)> {
    if header.command == Command::Download {
        Some((header.size, header.hash))
    } else {
        None
    }
}

/// Reads the answer to a download: the size and the hash of the body that
/// follows.
///
/// A header with another command is a protocol error.
pub fn read_response(header: FileHeader) -> (result: Result<(u64, String), VeriflowError>)
    ensures
        match announced(header@) {
            Some((size, hash)) => result is Ok && result->Ok_0.0 == size && result->Ok_0.1@ == hash,
            None => result == Err::<(u64, String), VeriflowError>(VeriflowError::Protocol),
        },
{
    match header.command {
        Command::Download => Ok((header.size, header.hash)),
        _ => Err(VeriflowError::Protocol),
    }
}

} // verus!

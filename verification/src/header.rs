//! The command header: what one operation is about, and how it is written
//! on the wire as a JSON object.

use crate::error::VeriflowError;
use crate::json::{
    json_as_str, json_as_u64, json_count, json_document, json_error_text, json_get, json_member,
    json_parse, json_text,
};
use crate::text::{decimal, quoted, same_text, write_decimal, write_quoted, write_text};
use vstd::prelude::*;
use vstd::string::StringExecFns;

verus! {

/// The kind of an operation.
#[derive(Debug, Clone, Copy, PartialEq, Eq, Structural)]
pub enum Command {
    /// The body that follows is a file for the server to keep.
    Upload,
    /// The named file is asked for, or is what follows.
    Download,
    /// The names in the storage root are asked for, or are what follows.
    List,
}

impl Command {
    /// The tag that stands for a command on the wire.
    pub open spec fn tag_text(self) -> Seq<char> {
        match self {
            Command::Upload => "Upload"@,
            Command::Download => "Download"@,
            Command::List => "List"@,
        }
    }

    /// The command that a tag stands for.
    pub open spec fn of_tag(tag: Seq<char>) -> Option<Command> {
        if tag == "Upload"@ {
            Some(Command::Upload)
        } else if tag == "Download"@ {
            Some(Command::Download)
        } else if tag == "List"@ {
            Some(Command::List)
        } else {
            None
        }
    }

    /// The tag that stands for this command on the wire.
    pub fn tag(&self) -> (tag: &'static str)
        ensures
            tag@ == self.tag_text(),
    {
        match self {
            Command::Upload => "Upload",
            Command::Download => "Download",
            Command::List => "List",
        }
    }

    /// Reads a tag: one of the three, spelled exactly.
    pub fn from_tag(tag: &str) -> (command: Option<Command>)
        ensures
            command == Command::of_tag(tag@),
    {
        if same_text(tag, "Upload") {
            Some(Command::Upload)
        } else if same_text(tag, "Download") {
            Some(Command::Download)
        } else if same_text(tag, "List") {
            Some(Command::List)
        } else {
            None
        }
    }

    /// Each command is the one that its own tag stands for.
    pub proof fn lemma_tag_round_trip(self)
        ensures
            Command::of_tag(self.tag_text()) == Some(self),
    {
        reveal_strlit("Upload");
        reveal_strlit("Download");
        reveal_strlit("List");
        assert("Upload"@.len() == 6);
        assert("Download"@.len() == 8);
        assert("List"@.len() == 4);
    }
}

/// The header of one operation.
#[derive(Debug, Clone, PartialEq, Eq)]
pub struct FileHeader {
    /// What is asked for, or answered.
    pub command: Command,
    /// The name of the file: a bare name, with no directory in it.
    pub name: String,
    /// The number of body bytes that follow the header.
    pub size: u64,
    /// The SHA-256 digest of the body, in lowercase hexadecimal.
    pub hash: String,
}

/// A header as plain values.
pub struct HeaderView {
    pub command: Command,
    pub name: Seq<char>,
    pub size: u64,
    pub hash: Seq<char>,
}

impl View for FileHeader {
    type V = HeaderView;

    open spec fn view(&self) -> HeaderView {
        HeaderView { command: self.command, name: self.name@, size: self.size, hash: self.hash@ }
    }
}

/// The four members of a header as a JSON document gives them: each is
/// `None` where the document has no member of that name and kind.
pub struct HeaderFields {
    pub command: Option<Seq<char>>,
    pub name: Option<Seq<char>>,
    pub size: Option<u64>,
    pub hash: Option<Seq<char>>,
}

/// The member `key` of `document`, where it is a string.
pub open spec fn text_member(document: serde_json::Value, key: Seq<char>) -> Option<Seq<char>> {
    match json_member(document, key) {
        Some(value) => json_text(value),
        None => None,
    }
}

/// The member `key` of `document`, where it is an unsigned 64-bit integer.
pub open spec fn count_member(document: serde_json::Value, key: Seq<char>) -> Option<u64> {
    match json_member(document, key) {
        Some(value) => json_count(value),
        None => None,
    }
}

/// The four members of a header that `document` holds.
pub open spec fn document_fields(document: serde_json::Value) -> HeaderFields {
    HeaderFields {
        command: text_member(document, "command"@),
        name: text_member(document, "name"@),
        size: count_member(document, "size"@),
        hash: text_member(document, "hash"@),
    }
}

/// The members that stand for a header.
pub open spec fn fields_of(header: HeaderView) -> HeaderFields {
    HeaderFields {
        command: Some(header.command.tag_text()),
        name: Some(header.name),
        size: Some(header.size),
        hash: Some(header.hash),
    }
}

/// The header that four members stand for: all four must be there, and the
/// command must be one of the three tags.
pub open spec fn header_of_fields(fields: HeaderFields) -> Option<HeaderView> {
    if fields.command is Some && fields.name is Some && fields.size is Some && fields.hash is Some
        && Command::of_tag(fields.command->0) is Some {
        Some(
            HeaderView {
                command: Command::of_tag(fields.command->0)->0,
                name: fields.name->0,
                size: fields.size->0,
                hash: fields.hash->0,
            },
        )
    } else {
        None
    }
}

/// The header that a payload stands for: the payload must be a JSON document
/// whose members stand for a header.
pub open spec fn decoded(payload: Seq<u8>) -> Option<HeaderView> {
    match json_document(payload) {
        Some(document) => header_of_fields(document_fields(document)),
        None => None,
    }
}

/// The JSON text of a header: an object with the members `command`, `name`,
/// `size` and `hash`, in this order and with no space between them.
pub open spec fn header_text(header: HeaderView) -> Seq<char> {
    "{\"command\":"@ + quoted(header.command.tag_text()) + ",\"name\":"@ + quoted(header.name)
        + ",\"size\":"@ + decimal(header.size as nat) + ",\"hash\":"@ + quoted(header.hash) + "}"@
}

/// Builds a header from the four members that a document gave.
///
/// Fails with a serialisation error where a member is missing or the command
/// is none of the three tags.
pub fn header_from_fields(
    command: Option<String>,
    name: Option<String>,
    size: Option<u64>,
    hash: Option<String>,
) -> (result: Result<FileHeader, VeriflowError>)
    ensures
        match header_of_fields(
            HeaderFields {
                command: view_of(command),
                name: view_of(name),
                size: size,
                hash: view_of(hash),
            },
        ) {
            Some(header) => result is Ok && result->Ok_0@ == header,
            None => result is Err && result->Err_0 is JSON,
        },
{
    let tag = match command {
        Some(tag) => tag,
        None => {
            return Err(VeriflowError::JSON(String::from_str("missing field `command`")));
        },
    };
    let command = match Command::from_tag(tag.as_str()) {
        Some(command) => command,
        None => {
            return Err(VeriflowError::JSON(String::from_str("unknown variant of `command`")));
        },
    };
    let name = match name {
        Some(name) => name,
        None => {
            return Err(VeriflowError::JSON(String::from_str("missing field `name`")));
        },
    };
    let size = match size {
        Some(size) => size,
        None => {
            return Err(VeriflowError::JSON(String::from_str("missing field `size`")));
        },
    };
    let hash = match hash {
        Some(hash) => hash,
        None => {
            return Err(VeriflowError::JSON(String::from_str("missing field `hash`")));
        },
    };
    Ok(FileHeader { command, name, size, hash })
}

/// The text of an optional string.
pub open spec fn view_of(text: Option<String>) -> Option<Seq<char>> {
    match text {
        Some(text) => Some(text@),
        None => None,
    }
}

/// The member `key` of `document` where it is a string.
fn read_text(document: &serde_json::Value, key: &str) -> (text: Option<String>)
    ensures
        view_of(text) == text_member(*document, key@),
{
    match json_get(document, key) {
        Some(value) => json_as_str(value),
        None => None,
    }
}

/// The member `key` of `document` where it is an unsigned 64-bit integer.
fn read_count(document: &serde_json::Value, key: &str) -> (count: Option<u64>)
    ensures
        count == count_member(*document, key@),
{
    match json_get(document, key) {
        Some(value) => json_as_u64(value),
        None => None,
    }
}

impl FileHeader {
    /// Writes the header as JSON text.
    pub fn to_json(&self) -> (text: String)
        ensures
            text@ == header_text(self@),
    {
        let mut text = String::new();
        write_text(&mut text, "{\"command\":");
        write_quoted(&mut text, self.command.tag());
        write_text(&mut text, ",\"name\":");
        write_quoted(&mut text, self.name.as_str());
        write_text(&mut text, ",\"size\":");
        write_decimal(&mut text, self.size);
        write_text(&mut text, ",\"hash\":");
        write_quoted(&mut text, self.hash.as_str());
        write_text(&mut text, "}");
        assert(text@ =~= header_text(self@));
        text
    }

    /// Reads a header from the payload of a frame.
    ///
    /// The payload is first read as JSON, then its members `command`, `name`,
    /// `size` and `hash` are read as a header. Any other payload fails with a
    /// serialisation error.
    pub fn from_json(payload: &[u8]) -> (result: Result<FileHeader, VeriflowError>)
        ensures
            match decoded(payload@) {
                Some(header) => result is Ok && result->Ok_0@ == header,
                None => result is Err && result->Err_0 is JSON,
            },
    {
        match json_parse(payload) {
            Err(e) => Err(VeriflowError::JSON(json_error_text(&e))),
            Ok(document) => {
                let command = read_text(&document, "command");
                let name = read_text(&document, "name");
                let size = read_count(&document, "size");
                let hash = read_text(&document, "hash");
                header_from_fields(command, name, size, hash)
            },
        }
    }
}

/// Header round trip, for the part that is this library's. Where `serde_json`
/// reads the text of a header back as the four members that were written,
/// reading the header gives the header that was written.
pub proof fn lemma_header_round_trip(header: HeaderView)
    requires
        json_document(vstd::utf8::encode_utf8(header_text(header))) is Some,
        document_fields(json_document(vstd::utf8::encode_utf8(header_text(header)))->0)
            == fields_of(header),
    ensures
        decoded(vstd::utf8::encode_utf8(header_text(header))) == Some(header),
{
    lemma_fields_round_trip(header);
}

/// A header is about as long as its name and its hash: its text has at most
/// six characters for each of theirs and 128 more, and at most four bytes
/// for each character.
pub proof fn lemma_header_text_len(header: HeaderView)
    ensures
        header_text(header).len() <= 6 * (header.name.len() + header.hash.len()) + 128,
        vstd::utf8::encode_utf8(header_text(header)).len() <= 4 * header_text(header).len(),
{
    reveal_strlit("{\"command\":");
    reveal_strlit(",\"name\":");
    reveal_strlit(",\"size\":");
    reveal_strlit(",\"hash\":");
    reveal_strlit("}");
    reveal_strlit("Upload");
    reveal_strlit("Download");
    reveal_strlit("List");
    assert(header.command.tag_text().len() <= 8);
    crate::text::lemma_escaped_len(header.command.tag_text());
    crate::text::lemma_escaped_len(header.name);
    crate::text::lemma_escaped_len(header.hash);
    crate::text::lemma_decimal_len_u64(header.size);
    crate::text::lemma_utf8_len(header_text(header));
}

/// The members that stand for a header stand for that header and no other.
pub proof fn lemma_fields_round_trip(header: HeaderView)
    ensures
        header_of_fields(fields_of(header)) == Some(header),
{
    header.command.lemma_tag_round_trip();
}

} // verus!

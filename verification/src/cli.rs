//! What the client was asked to do on the command line.

use vstd::prelude::*;

verus! {

/// A path in the local file system, as the standard library holds it.
#[verifier::external_type_specification]
#[verifier::external_body]
pub struct ExPathBuf(std::path::PathBuf);

/// The arguments of the client.
#[derive(Debug)]
pub struct Args {
    /// The address of the server.
    pub ip: String,
    /// The file to upload.
    pub upload: Option<std::path::PathBuf>,
    /// The name of the file to download.
    pub download: Option<String>,
    /// Whether to list the files on the server.
    pub list: bool,
}

/// The one operation that the arguments ask for.
#[derive(Debug)]
pub enum Operation {
    /// Upload the file at this path.
    Upload(std::path::PathBuf),
    /// Download the file of this name.
    Download(String),
    /// List the files on the server.
    List,
}

impl Args {
    /// How many operations the arguments ask for.
    pub open spec fn asked(self) -> nat {
        let uploads: nat = if self.upload is Some {
            1
        } else {
            0
        };
        let downloads: nat = if self.download is Some {
            1
        } else {
            0
        };
        let lists: nat = if self.list {
            1
        } else {
            0
        };
        uploads + downloads + lists
    }

    /// The operation that the arguments ask for, where they ask for exactly
    /// one; `None` where they ask for none or for several.
    pub fn operation(self) -> (operation: Option<Operation>)
        ensures
            self.asked() != 1 ==> operation is None,
            self.asked() == 1 && self.upload is Some ==> operation == Some(
                Operation::Upload(self.upload->0),
            ),
            self.asked() == 1 && self.download is Some ==> operation == Some(
                Operation::Download(self.download->0),
            ),
            self.asked() == 1 && self.list ==> operation == Some(Operation::List),
    {
        match (self.upload, self.download, self.list) {
            (Some(path), None, false) => Some(Operation::Upload(path)),
            (None, Some(name), false) => Some(Operation::Download(name)),
            (None, None, true) => Some(Operation::List),
            _ => None,
        }
    }
}

} // verus!

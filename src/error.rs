use vstd::prelude::*;

verus! {

/// Why a workspace could not be created or opened.
#[derive(Debug, Clone, PartialEq, Eq)]
pub enum ZeusProjectError {
    /// The create target is a directory that already has entries.
    AlreadyExists,
    /// The open target holds no descriptor.
    NotAZeusProject,
    /// The path given is empty.
    InvalidPath,
    /// The named file is there but cannot be read as what it should hold.
    CorruptedFile(String),
}

/// The short description of each error kind.
pub open spec fn description_of(e: ZeusProjectError) -> Seq<char> {
    match e {
        ZeusProjectError::AlreadyExists => "Already Exists"@,
        ZeusProjectError::NotAZeusProject => "Not a Zeus Project"@,
        ZeusProjectError::InvalidPath => "Not a Valid Path"@,
        ZeusProjectError::CorruptedFile(_) => "File Corrupted"@,
    }
}

/// The message shown to a user for each error.
pub open spec fn message_of(e: ZeusProjectError) -> Seq<char> {
    match e {
        ZeusProjectError::AlreadyExists => "Destination path already exists and is not empty."@,
        ZeusProjectError::NotAZeusProject => "Destination path is not a Zeus project."@,
        ZeusProjectError::InvalidPath => "Destination path is not valid."@,
        ZeusProjectError::CorruptedFile(file) => "The file "@ + file@
            + " has been corrupted and could not be read."@,
    }
}

impl ZeusProjectError {
    pub fn description(&self) -> (r: &'static str)
        ensures
            r@ == description_of(*self),
    {
        match self {
            ZeusProjectError::AlreadyExists => "Already Exists",
            ZeusProjectError::NotAZeusProject => "Not a Zeus Project",
            ZeusProjectError::InvalidPath => "Not a Valid Path",
            ZeusProjectError::CorruptedFile(_) => "File Corrupted",
        }
    }

    /// The message for a user, as `Display` would write it.
    pub fn message(&self) -> (r: String)
        ensures
            r@ == message_of(*self),
    {
        match self {
            ZeusProjectError::AlreadyExists => String::from_str(
                "Destination path already exists and is not empty.",
            ),
            ZeusProjectError::NotAZeusProject => String::from_str(
                "Destination path is not a Zeus project.",
            ),
            ZeusProjectError::InvalidPath => String::from_str("Destination path is not valid."),
            ZeusProjectError::CorruptedFile(file) => {
                let mut m = String::from_str("The file ");
                m.append(file.as_str());
                m.append(" has been corrupted and could not be read.");
                m
            },
        }
    }
}

} // verus!

//! What has to be in place before the service starts.
use vstd::prelude::*;
use vstd::string::*;
use crate::error::{Error, ErrorKind};
use crate::settings::Settings;

verus! {

/// What is found at the path of the working directory.
#[derive(Clone, Copy, Debug, PartialEq, Eq, Structural)]
pub enum Found {
    /// Nothing, or nothing that can be looked at.
    Nothing,
    /// A directory.
    Directory,
    /// Something that is no directory.
    File,
}

/// What is to be done about the working directory.
#[derive(Clone, Copy, Debug, PartialEq, Eq, Structural)]
pub enum Preparation {
    /// The directory is there.
    Keep,
    /// The directory has to be made.
    Create,
}

/// What a working directory that is a file is refused with.
pub open spec fn is_a_file(dir: Seq<char>) -> Seq<char> {
    "Working dir "@ + dir + " is a file"@
}

/// Decides what is to be done about the working directory of `settings`,
/// given what was found at its path: a directory is kept, one that is
/// missing is made, and a file in its place is an error.
pub fn init(settings: &Settings, found: Found) -> (r: Result<Preparation, Error>)
    ensures
        match found {
            Found::Nothing => r == Ok::<Preparation, Error>(Preparation::Create),
            Found::Directory => r == Ok::<Preparation, Error>(Preparation::Keep),
            Found::File => r matches Err(e) && e@.kind == ErrorKind::Misc && e@.details
                == is_a_file(settings.work.working_dir@),
        },
{
    match found {
        Found::Nothing => Ok(Preparation::Create),
        Found::Directory => Ok(Preparation::Keep),
        Found::File => Err(
            Error::MiscError {
                details: String::from_str("Working dir ").concat(
                    settings.work.working_dir.as_str(),
                ).concat(" is a file"),
            },
        ),
    }
}

} // verus!

//! What can be found wanting in a project before it is packaged.

use vstd::prelude::*;

verus! {

/// A reason for which a project cannot be packaged as it stands.
#[derive(Clone, Copy, Debug, PartialEq, Eq, Structural)]
pub enum Error {
    /// The license has to be installed with the package, and the project's
    /// directory holds no file to install.
    MissingLicense,
    /// A static build was asked for, and the toolchain for it is not
    /// installed.
    MissingMuslTarget,
}

impl Error {
    /// What to tell the user.
    pub open spec fn message_text(self) -> Seq<char> {
        match self {
            Error::MissingLicense => "Missing LICENSE file. See https://choosealicense.com/"@,
            Error::MissingMuslTarget =>
                "Missing target! Try: rustup target add x86_64-unknown-linux-musl"@,
        }
    }

    /// The error as one line of text.
    pub fn message(&self) -> (line: &'static str)
        ensures
            line@ == self.message_text(),
    {
        match self {
            Error::MissingLicense => "Missing LICENSE file. See https://choosealicense.com/",
            Error::MissingMuslTarget =>
                "Missing target! Try: rustup target add x86_64-unknown-linux-musl",
        }
    }
}

} // verus!

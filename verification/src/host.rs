//! The host's operating system family, the facts that can be asked about a
//! host, and the placeholder that stands for a fact that could not be had.

use crate::text::{chars_of, same_chars};
use vstd::prelude::*;
use vstd::string::StringExecFns;

verus! {

/// The coarse kinds of operating system that the probes tell apart.
#[derive(Clone, Copy, Debug, PartialEq, Eq, Structural)]
pub enum OsFamily {
    Windows,
    MacOS,
    Linux,
    Unknown,
}

/// What can be asked about a host.
#[derive(Clone, Copy, Debug, PartialEq, Eq, Structural)]
pub enum Fact {
    ComputerName,
    TotalMemory,
    GraphicsAdapter,
}

/// The text that stands for a fact that could not be determined.
pub open spec fn unknown() -> Seq<char> {
    "Unknown"@
}

/// The family that a platform name belongs to: `windows`, `macos` and
/// `linux` name theirs, every other name an unknown one.
pub open spec fn family_of(name: Seq<char>) -> OsFamily {
    if name == "windows"@ {
        OsFamily::Windows
    } else if name == "macos"@ {
        OsFamily::MacOS
    } else if name == "linux"@ {
        OsFamily::Linux
    } else {
        OsFamily::Unknown
    }
}

/// The text that stands for a fact that could not be determined.
pub fn unknown_text() -> (out: String)
    ensures
        out@ == unknown(),
{
    String::from_str("Unknown")
}

impl OsFamily {
    /// The name under which the family is shown.
    pub open spec fn spec_label(self) -> Seq<char> {
        match self {
            OsFamily::Windows => "Windows"@,
            OsFamily::MacOS => "macOS"@,
            OsFamily::Linux => "Linux"@,
            OsFamily::Unknown => "Unknown"@,
        }
    }

    /// The family that the platform name `name` belongs to.
    pub fn from_name(name: &str) -> (os: OsFamily)
        ensures
            os == family_of(name@),
    {
        let given: Vec<char> = chars_of(name);
        if same_chars(given.as_slice(), chars_of("windows").as_slice()) {
            OsFamily::Windows
        } else if same_chars(given.as_slice(), chars_of("macos").as_slice()) {
            OsFamily::MacOS
        } else if same_chars(given.as_slice(), chars_of("linux").as_slice()) {
            OsFamily::Linux
        } else {
            OsFamily::Unknown
        }
    }

    /// The name under which the family is shown.
    pub fn label(&self) -> (name: &'static str)
        ensures
            name@ == self.spec_label(),
    {
        match self {
            OsFamily::Windows => "Windows",
            OsFamily::MacOS => "macOS",
            OsFamily::Linux => "Linux",
            OsFamily::Unknown => "Unknown",
        }
    }
}

} // verus!

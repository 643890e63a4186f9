//! The platform discriminator that selects between the variants of the shell.

use vstd::prelude::*;

verus! {

/// The operating system family the shell was built for.
#[derive(Clone, Copy, Debug, PartialEq, Eq, Structural)]
pub enum Platform {
    MacOs,
    Windows,
    Linux,
    Unknown,
}

impl Platform {
    /// The name under which the platform is reported to the UI client.
    pub open spec fn name(self) -> Seq<char> {
        match self {
            Platform::MacOs => "macos"@,
            Platform::Windows => "windows"@,
            Platform::Linux => "linux"@,
            Platform::Unknown => "unknown"@,
        }
    }

    /// The name under which the platform is reported to the UI client.
    pub fn as_str(self) -> (r: &'static str)
        ensures
            r@ == self.name(),
    {
        match self {
            Platform::MacOs => "macos",
            Platform::Windows => "windows",
            Platform::Linux => "linux",
            Platform::Unknown => "unknown",
        }
    }

    /// Whether the macOS conventions apply.
    pub fn is_macos(self) -> (r: bool)
        ensures
            r == (self == Platform::MacOs),
    {
        match self {
            Platform::MacOs => true,
            _ => false,
        }
    }

    /// The platform of a target operating system, as the toolchain names
    /// it: one of the three that are known, and `Unknown` for every other.
    pub open spec fn of_target(os: Seq<char>) -> Platform {
        if os == "macos"@ {
            Platform::MacOs
        } else if os == "windows"@ {
            Platform::Windows
        } else if os == "linux"@ {
            Platform::Linux
        } else {
            Platform::Unknown
        }
    }

    /// The platform of a target operating system, as the toolchain names
    /// it. A system that is not known is `Unknown`, never an error.
    pub fn from_target_os(os: &str) -> (r: Platform)
        ensures
            r == Self::of_target(os@),
    {
        if crate::ids::same_text(os, "macos") {
            Platform::MacOs
        } else if crate::ids::same_text(os, "windows") {
            Platform::Windows
        } else if crate::ids::same_text(os, "linux") {
            Platform::Linux
        } else {
            Platform::Unknown
        }
    }
}

/// A known target system is reported under its own name, and every other
/// as `unknown`.
pub proof fn lemma_target_reported(os: Seq<char>)
    ensures
        os == "macos"@ || os == "windows"@ || os == "linux"@ ==> Platform::of_target(os).name()
            == os,
        !(os == "macos"@ || os == "windows"@ || os == "linux"@) ==> Platform::of_target(os).name()
            == "unknown"@,
{
    lemma_platform_names_distinct(Platform::MacOs, Platform::Windows);
    lemma_platform_names_distinct(Platform::MacOs, Platform::Linux);
    lemma_platform_names_distinct(Platform::Windows, Platform::Linux);
}

/// Distinct platforms report under distinct names.
pub proof fn lemma_platform_names_distinct(a: Platform, b: Platform)
    ensures
        a.name() == b.name() <==> a == b,
{
    reveal_strlit("macos");
    reveal_strlit("windows");
    reveal_strlit("linux");
    reveal_strlit("unknown");
    let x = a.name();
    let y = b.name();
    assert(a != b ==> x.len() != y.len() || x[0] != y[0]);
}

} // verus!

use vstd::prelude::*;

verus! {

/// The operating systems the shim can report to the UI.
///
/// Which of them the process actually runs on is a fact of the build target;
/// the surrounding application supplies it, and the shim only fixes the name
/// reported for each.
#[derive(Clone, Copy, PartialEq, Eq, Structural, Debug)]
pub enum OsKind {
    Macos,
    Windows,
    Linux,
    Unknown,
}

impl OsKind {
    /// The fixed name this OS is reported under.
    pub open spec fn spec_name(self) -> Seq<char> {
        match self {
            OsKind::Macos => "macos"@,
            OsKind::Windows => "windows"@,
            OsKind::Linux => "linux"@,
            OsKind::Unknown => "unknown"@,
        }
    }
}

/// Whether `s` is one of the fixed names the shim may report for an OS.
pub open spec fn is_os_name(s: Seq<char>) -> bool {
    s == "macos"@ || s == "windows"@ || s == "linux"@ || s == "unknown"@
}

/// Report the name of the OS the shim runs on: always the fixed name of the
/// given kind, one of the four members of the enumeration, never empty.
pub fn get_os(kind: OsKind) -> (name: String)
    ensures
        name@ == kind.spec_name(),
        is_os_name(name@),
        name@.len() > 0,
{
    proof {
        lemma_os_name_fixed(kind);
    }
    match kind {
        OsKind::Macos => String::from_str("macos"),
        OsKind::Windows => String::from_str("windows"),
        OsKind::Linux => String::from_str("linux"),
        OsKind::Unknown => String::from_str("unknown"),
    }
}

/// Every OS kind is reported under one of the fixed enumeration names, and
/// none of those names is empty.
pub proof fn lemma_os_name_fixed(kind: OsKind)
    ensures
        is_os_name(kind.spec_name()),
        kind.spec_name().len() > 0,
{
    reveal_strlit("macos");
    reveal_strlit("windows");
    reveal_strlit("linux");
    reveal_strlit("unknown");
}

} // verus!

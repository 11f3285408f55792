//! Platform strategy: the few facts about the host operating system that
//! the supervisor needs, selected once at startup from a runtime OS tag
//! instead of being scattered through the logic as conditional branches.

use vstd::prelude::*;

verus! {

/// The family of the host operating system, as far as the supervisor
/// cares: it decides the path separator, the runtime binary's file name,
/// the fixed fallback installation directories and the shell opener.
#[derive(Clone, Copy, PartialEq, Eq, Structural, Debug)]
pub enum OsFamily {
    MacOs,
    Windows,
    OtherUnix,
}

impl OsFamily {
    /// Whether paths on this family use the backslash separator.
    pub open spec fn spec_is_windows(self) -> bool {
        self is Windows
    }

    /// The path separator character of this family.
    pub open spec fn spec_separator(self) -> char {
        if self is Windows {
            '\\'
        } else {
            '/'
        }
    }

    /// The path separator as a one-character sequence.
    pub open spec fn spec_separator_seq(self) -> Seq<char> {
        seq![self.spec_separator()]
    }

    /// The path separator, as a string usable by executable code.
    pub fn separator(self) -> (r: String)
        ensures
            r@ == self.spec_separator_seq(),
    {
        proof {
            reveal_strlit("\\");
            reveal_strlit("/");
        }
        if self == OsFamily::Windows {
            String::from_str("\\")
        } else {
            String::from_str("/")
        }
    }

    /// The file name of the runtime binary on this family.
    pub open spec fn spec_runtime_binary_name(self) -> Seq<char> {
        if self is Windows {
            "node.exe"@
        } else {
            "node"@
        }
    }

    /// The file name under which the language runtime is looked for in
    /// each search-path directory: `node.exe` on Windows, `node` elsewhere.
    pub fn runtime_binary_name(self) -> (r: String)
        ensures
            r@ == self.spec_runtime_binary_name(),
    {
        if self == OsFamily::Windows {
            String::from_str("node.exe")
        } else {
            String::from_str("node")
        }
    }

    /// The fixed, ordered list of common installation locations tried
    /// after the explicit override and the search path.
    pub open spec fn spec_common_runtime_locations(self) -> Seq<Seq<char>> {
        if self is Windows {
            seq!["C:\\Program Files\\nodejs\\node.exe"@, "C:\\Program Files (x86)\\nodejs\\node.exe"@]
        } else {
            seq![
                "/opt/homebrew/bin/node"@,
                "/usr/local/bin/node"@,
                "/usr/bin/node"@,
                "/opt/local/bin/node"@,
            ]
        }
    }

    /// The common installation locations, in the fixed priority order:
    /// on Windows the two `Program Files` trees; elsewhere the Homebrew
    /// Apple-silicon prefix, `/usr/local/bin`, `/usr/bin`, then MacPorts.
    pub fn common_runtime_locations(self) -> (r: Vec<String>)
        ensures
            r@.len() == self.spec_common_runtime_locations().len(),
            forall|i: int|
                0 <= i < r@.len() ==> r@[i]@ == self.spec_common_runtime_locations()[i],
    {
        let mut out: Vec<String> = Vec::new();
        if self == OsFamily::Windows {
            out.push(String::from_str("C:\\Program Files\\nodejs\\node.exe"));
            out.push(String::from_str("C:\\Program Files (x86)\\nodejs\\node.exe"));
        } else {
            out.push(String::from_str("/opt/homebrew/bin/node"));
            out.push(String::from_str("/usr/local/bin/node"));
            out.push(String::from_str("/usr/bin/node"));
            out.push(String::from_str("/opt/local/bin/node"));
        }
        out
    }

    /// The shell command that reveals a path in the platform's file
    /// browser: `open` on macOS, `explorer` on Windows, `xdg-open` on
    /// other Unix-like systems.
    pub open spec fn spec_opener_command(self) -> Seq<char> {
        match self {
            OsFamily::MacOs => "open"@,
            OsFamily::Windows => "explorer"@,
            OsFamily::OtherUnix => "xdg-open"@,
        }
    }

    /// The command used to reveal a log path in the platform shell.
    pub fn opener_command(self) -> (r: String)
        ensures
            r@ == self.spec_opener_command(),
    {
        match self {
            OsFamily::MacOs => String::from_str("open"),
            OsFamily::Windows => String::from_str("explorer"),
            OsFamily::OtherUnix => String::from_str("xdg-open"),
        }
    }
}

} // verus!

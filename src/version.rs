//! Build information of the worker binary.

use vstd::prelude::*;
use crate::text::str_eq;

verus! {

/// What the binary was built from. The values come from the build
/// environment.
#[derive(Debug, Clone)]
pub struct BuildInfo {
    pub version: &'static str,
    pub name: &'static str,
    pub authors: &'static str,
    pub git_hash: &'static str,
    pub git_branch: &'static str,
    /// `true` when the working tree had uncommitted changes.
    pub git_dirty_str: &'static str,
    pub build_timestamp: &'static str,
    pub target: &'static str,
    pub profile: &'static str,
    pub rustc_version: &'static str,
    pub host: &'static str,
}

impl BuildInfo {
    pub open spec fn dirty_spec(&self) -> bool {
        self.git_dirty_str@ == "true"@
    }

    /// Whether the tree had uncommitted changes.
    pub fn git_dirty(&self) -> (r: bool)
        ensures
            r == self.dirty_spec(),
    {
        str_eq(self.git_dirty_str, "true")
    }

    pub open spec fn full_version_spec(&self) -> Seq<char> {
        self.version@ + "-"@ + self.git_hash@ + if self.dirty_spec() { "-dirty"@ } else { Seq::empty() }
    }

    /// `version-hash`, with `-dirty` for a dirty tree.
    pub fn full_version(&self) -> (r: String)
        ensures
            r@ == self.full_version_spec(),
    {
        let mut s = self.version.to_owned();
        s.append("-");
        s.append(self.git_hash);
        if self.git_dirty() {
            s.append("-dirty");
        } else {
            assert(s@ =~= s@ + Seq::<char>::empty());
        }
        s
    }

    /// `version (hash)`.
    pub fn short_version(&self) -> (r: String)
        ensures
            r@ == self.version@ + " ("@ + self.git_hash@ + ")"@,
    {
        let mut s = self.version.to_owned();
        s.append(" (");
        s.append(self.git_hash);
        s.append(")");
        s
    }

    /// Built with the release profile.
    pub fn is_release(&self) -> (r: bool)
        ensures
            r == (self.profile@ == "release"@),
    {
        str_eq(self.profile, "release")
    }

    /// Built with the debug profile.
    pub fn is_debug(&self) -> (r: bool)
        ensures
            r == (self.profile@ == "debug"@),
    {
        str_eq(self.profile, "debug")
    }

    /// The multi-line report shown by the `version` command.
    pub fn report(&self) -> (r: String)
        ensures
            r@ == self.name@ + " "@ + self.full_version_spec() + "\n\nBuild Information:\n  Version:    "@ + self.version@
                + "\n  Git Hash:   "@ + self.git_hash@ + (if self.dirty_spec() { " (dirty)"@ } else { Seq::empty() })
                + "\n  Git Branch: "@ + self.git_branch@ + "\n  Built:      "@ + self.build_timestamp@
                + "\n  Profile:    "@ + self.profile@ + "\n\nTarget:\n  Triple:     "@ + self.target@
                + "\n  Host:       "@ + self.host@ + "\n\nCompiler:\n  "@ + self.rustc_version@ + "\n"@,
    {
        let mut s = self.name.to_owned();
        s.append(" ");
        s.append(self.full_version().as_str());
        s.append("\n\nBuild Information:\n  Version:    ");
        s.append(self.version);
        s.append("\n  Git Hash:   ");
        s.append(self.git_hash);
        if self.git_dirty() {
            s.append(" (dirty)");
        } else {
            assert(s@ =~= s@ + Seq::<char>::empty());
        }
        s.append("\n  Git Branch: ");
        s.append(self.git_branch);
        s.append("\n  Built:      ");
        s.append(self.build_timestamp);
        s.append("\n  Profile:    ");
        s.append(self.profile);
        s.append("\n\nTarget:\n  Triple:     ");
        s.append(self.target);
        s.append("\n  Host:       ");
        s.append(self.host);
        s.append("\n\nCompiler:\n  ");
        s.append(self.rustc_version);
        s.append("\n");
        s
    }
}

} // verus!

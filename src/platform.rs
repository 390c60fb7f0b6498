use vstd::prelude::*;

verus! {

/// The operating systems for which a set of native library files is shipped.
#[derive(Clone, Copy, Debug, PartialEq, Eq, Structural)]
pub enum Platform {
    Linux,
    Windows,
    MacOs,
}

/// Number of library files shipped for every platform.
pub const DEPENDENCY_COUNT: usize = 3;

/// The file names that must exist beside the executable on `p`, in unpack
/// order; the first one is the primary library that gets opened.
pub open spec fn file_names(p: Platform) -> Seq<Seq<char>> {
    match p {
        Platform::Linux => seq!["libvlc.so"@, "libvlccore.so"@, "axvlc.so"@],
        Platform::Windows => seq!["libvlc.dll"@, "libvlccore.dll"@, "axvlc.dll"@],
        Platform::MacOs => seq!["libvlc.dynlib"@, "libvlccore.dynlib"@, "axvlc.dynlib"@],
    }
}

impl Platform {
    /// The dependency file names of this platform, primary library first.
    pub fn dependency_file_names(self) -> (r: Vec<&'static str>)
        ensures
            r@.len() == DEPENDENCY_COUNT,
            r@.map_values(|s: &'static str| s@) == file_names(self),
    {
        let r = match self {
            Platform::Linux => vec!["libvlc.so", "libvlccore.so", "axvlc.so"],
            Platform::Windows => vec!["libvlc.dll", "libvlccore.dll", "axvlc.dll"],
            Platform::MacOs => vec!["libvlc.dynlib", "libvlccore.dynlib", "axvlc.dynlib"],
        };
        assert(r@.map_values(|s: &'static str| s@) =~= file_names(self));
        r
    }

    /// The file name of the library that is opened once all files are present.
    pub fn primary_file_name(self) -> (r: &'static str)
        ensures
            r@ == file_names(self)[0],
    {
        match self {
            Platform::Linux => "libvlc.so",
            Platform::Windows => "libvlc.dll",
            Platform::MacOs => "libvlc.dynlib",
        }
    }
}

/// The file-name sets of two different platforms share no name, so a platform
/// selector never makes the unpacker touch another platform's files.
pub proof fn lemma_platform_file_sets_disjoint(p: Platform, q: Platform, i: int, j: int)
    requires
        p != q,
        0 <= i < DEPENDENCY_COUNT,
        0 <= j < DEPENDENCY_COUNT,
    ensures
        file_names(p)[i] != file_names(q)[j],
{
    reveal_strlit("libvlc.so");
    reveal_strlit("libvlccore.so");
    reveal_strlit("axvlc.so");
    reveal_strlit("libvlc.dll");
    reveal_strlit("libvlccore.dll");
    reveal_strlit("axvlc.dll");
    reveal_strlit("libvlc.dynlib");
    reveal_strlit("libvlccore.dynlib");
    reveal_strlit("axvlc.dynlib");
    let a = file_names(p)[i];
    let b = file_names(q)[j];
    assert(a[a.len() - 1] != b[b.len() - 1] || a[a.len() - 2] != b[b.len() - 2]);
}

} // verus!

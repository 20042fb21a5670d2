//! The per-platform configuration of the indexing tool: which archive to
//! fetch, how it is packed, where it unpacks to and what the binary is called.

use vstd::prelude::*;

verus! {

/// The platforms the indexing tool is published for.
#[derive(Clone, Copy, Debug, PartialEq, Eq, Structural)]
pub enum Platform {
    MacOs,
    Windows,
    /// Linux, and every other Unix for which the generic build is used.
    Linux,
}

/// How a tool archive is packed. Chosen from the platform, never sniffed.
#[derive(Clone, Copy, Debug, PartialEq, Eq, Structural)]
pub enum ArchiveKind {
    TarGz,
    Zip,
}

/// Where every tool archive is published.
pub open spec fn base_url() -> Seq<char> {
    "https://wit.wiimm.de/download/"@
}

impl Platform {
    /// The directory that the platform's archive unpacks to.
    pub open spec fn spec_install_dir(self) -> Seq<char> {
        match self {
            Platform::MacOs => "wit-v3.04a-r8427-mac"@,
            Platform::Windows => "wit-v3.04a-r8427-cygwin64"@,
            Platform::Linux => "wit-v3.04a-r8427-x86_64"@,
        }
    }

    /// The suffix that turns the install directory's name into the archive's.
    pub open spec fn spec_archive_suffix(self) -> Seq<char> {
        match self.spec_archive_kind() {
            ArchiveKind::TarGz => ".tar.gz"@,
            ArchiveKind::Zip => ".zip"@,
        }
    }

    pub open spec fn spec_archive_kind(self) -> ArchiveKind {
        match self {
            Platform::Windows => ArchiveKind::Zip,
            _ => ArchiveKind::TarGz,
        }
    }

    pub open spec fn spec_archive_name(self) -> Seq<char> {
        self.spec_install_dir() + self.spec_archive_suffix()
    }

    pub open spec fn spec_executable(self) -> Seq<char> {
        match self {
            Platform::Windows => "wit.exe"@,
            _ => "wit"@,
        }
    }

    pub open spec fn spec_download_url(self) -> Seq<char> {
        base_url() + self.spec_archive_name()
    }

    /// The separator that this platform writes between path components.
    pub open spec fn spec_separator(self) -> char {
        match self {
            Platform::Windows => '\\',
            _ => '/',
        }
    }

    /// Whether `c` ends a path component on this platform.
    pub open spec fn is_separator(self, c: char) -> bool {
        c == '/' || (self == Platform::Windows && c == '\\')
    }

    pub fn archive_kind(self) -> (kind: ArchiveKind)
        ensures
            kind == self.spec_archive_kind(),
    {
        match self {
            Platform::Windows => ArchiveKind::Zip,
            _ => ArchiveKind::TarGz,
        }
    }

    pub fn install_dir(self) -> (name: String)
        ensures
            name@ == self.spec_install_dir(),
    {
        match self {
            Platform::MacOs => String::from_str("wit-v3.04a-r8427-mac"),
            Platform::Windows => String::from_str("wit-v3.04a-r8427-cygwin64"),
            Platform::Linux => String::from_str("wit-v3.04a-r8427-x86_64"),
        }
    }

    pub fn archive_name(self) -> (name: String)
        ensures
            name@ == self.spec_archive_name(),
    {
        let dir = self.install_dir();
        match self.archive_kind() {
            ArchiveKind::TarGz => dir.concat(".tar.gz"),
            ArchiveKind::Zip => dir.concat(".zip"),
        }
    }

    pub fn executable(self) -> (name: String)
        ensures
            name@ == self.spec_executable(),
    {
        match self {
            Platform::Windows => String::from_str("wit.exe"),
            _ => String::from_str("wit"),
        }
    }

    /// The address the platform's archive is fetched from.
    pub fn download_url(self) -> (url: String)
        ensures
            url@ == self.spec_download_url(),
    {
        let name = self.archive_name();
        String::from_str("https://wit.wiimm.de/download/").concat(name.as_str())
    }
}

} // verus!

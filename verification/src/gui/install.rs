//! The steps of installing a package: download the archive, extract it, move
//! it into place. The library decides each step from the state and what the
//! last piece of outside work reported; the caller does the work.
use crate::gui::package::{Progress, ProgressV};
use crate::text::{same_text, slice};
use vstd::prelude::*;

verus! {

/// The text without one trailing `/`.
pub open spec fn without_trailing_slash(s: Seq<char>) -> Seq<char> {
    if s.len() > 0 && s.last() == '/' {
        s.drop_last()
    } else {
        s
    }
}

/// The position just after the last `/` among the first `n` characters of
/// `t`, or 0 where there is none.
pub open spec fn segment_start(t: Seq<char>, n: int) -> int
    decreases n,
{
    if n <= 0 {
        0
    } else if t[n - 1] == '/' {
        n
    } else {
        segment_start(t, n - 1)
    }
}

/// The last `/`-separated part of an address, a trailing `/` not counting:
/// the name under which a download is stored.
pub open spec fn last_segment(s: Seq<char>) -> Seq<char> {
    let t = without_trailing_slash(s);
    t.subrange(segment_start(t, t.len() as int), t.len() as int)
}

/// The name of the file that a download from `url` is stored in: the last
/// `/`-separated part of the address. The address is not empty.
pub fn download_file_name(url: &str) -> (r: String)
    requires
        url@.len() > 0,
    ensures
        r@ == last_segment(url@),
{
    let n = url.unicode_len();
    let mut end = n;
    if url.get_char(n - 1) == '/' {
        end = n - 1;
    }
    let ghost t = url@.subrange(0, end as int);
    assert(t =~= without_trailing_slash(url@));
    let mut i = end;
    while i > 0
        invariant
            0 <= i <= end <= n,
            n == url@.len(),
            t == url@.subrange(0, end as int),
            segment_start(t, end as int) == segment_start(t, i as int),
        ensures
            0 <= i <= end <= n,
            segment_start(t, end as int) == i,
        decreases i,
    {
        if url.get_char(i - 1) == '/' {
            assert(t[i - 1] == url@[i - 1]);
            break;
        }
        assert(t[i - 1] == url@[i - 1]);
        i = i - 1;
    }
    let r = slice(url, i, end);
    assert(r@ =~= t.subrange(i as int, end as int));
    r
}

/// The position of the last `.` among the first `n` characters of `t`, or -1.
pub open spec fn last_dot(t: Seq<char>, n: int) -> int
    decreases n,
{
    if n <= 0 {
        -1
    } else if t[n - 1] == '.' {
        n - 1
    } else {
        last_dot(t, n - 1)
    }
}

/// The extension of a file name as `Path::extension` documents it: none
/// where there is no `.`, or the only `.` begins the name, or the name is
/// `..`; otherwise what follows the last `.`.
pub open spec fn extension_spec(name: Seq<char>) -> Option<Seq<char>> {
    let k = last_dot(name, name.len() as int);
    if name == ".."@ || k <= 0 {
        None
    } else {
        Some(name.subrange(k + 1, name.len() as int))
    }
}

/// The extension of a file name: what follows its last `.`.
pub fn extension(name: &str) -> (r: Option<String>)
    ensures
        match r {
            Some(e) => extension_spec(name@) == Some(e@),
            None => extension_spec(name@) is None,
        },
{
    let n = name.unicode_len();
    let dots = same_text(name, "..");
    let mut i = n;
    while i > 0
        invariant
            0 <= i <= n,
            n == name@.len(),
            last_dot(name@, n as int) == last_dot(name@, i as int),
        ensures
            0 <= i <= n,
            last_dot(name@, n as int) == i - 1,
        decreases i,
    {
        if name.get_char(i - 1) == '.' {
            break;
        }
        i = i - 1;
    }
    if dots || i <= 1 {
        None
    } else {
        Some(slice(name, i, n))
    }
}

/// The kinds of archive that packages come in.
#[derive(Clone, Copy, Debug, PartialEq, Eq, Structural)]
pub enum ArchiveKind {
    TarXz,
    TarBz,
    TarGz,
    Zip,
    Dmg,
}

/// The kind of archive a file is, by its extension.
pub open spec fn archive_kind_of(name: Seq<char>) -> Option<ArchiveKind> {
    match extension_spec(name) {
        Some(e) => if e == "xz"@ {
            Some(ArchiveKind::TarXz)
        } else if e == "bz2"@ {
            Some(ArchiveKind::TarBz)
        } else if e == "gz"@ {
            Some(ArchiveKind::TarGz)
        } else if e == "zip"@ {
            Some(ArchiveKind::Zip)
        } else if e == "dmg"@ {
            Some(ArchiveKind::Dmg)
        } else {
            None
        },
        None => None,
    }
}

/// The kind of archive a file is, by its extension: `xz`, `bz2` and `gz`
/// are compressed tarballs, `zip` and `dmg` archives of their own; any
/// other extension is no known kind.
pub fn archive_kind(name: &str) -> (r: Option<ArchiveKind>)
    ensures
        r == archive_kind_of(name@),
{
    match extension(name) {
        Some(e) => {
            if same_text(e.as_str(), "xz") {
                Some(ArchiveKind::TarXz)
            } else if same_text(e.as_str(), "bz2") {
                Some(ArchiveKind::TarBz)
            } else if same_text(e.as_str(), "gz") {
                Some(ArchiveKind::TarGz)
            } else if same_text(e.as_str(), "zip") {
                Some(ArchiveKind::Zip)
            } else if same_text(e.as_str(), "dmg") {
                Some(ArchiveKind::Dmg)
            } else {
                None
            }
        },
        None => None,
    }
}

/// The old archives whose files lie at their top level, with no directory
/// of their own around them.
pub open spec fn has_no_inner_dir(name: Seq<char>) -> bool {
    ||| name == "blender-2.49-win64.zip"@
    ||| name == "blender-2.49a-win64-python26.zip"@
    ||| name == "blender-2.49b-win64-python26.zip"@
}

/// Whether an archive's files must be extracted into a directory of their
/// own, since the archive holds none around them.
pub fn needs_inner_dir(name: &str) -> (r: bool)
    ensures
        r == has_no_inner_dir(name@),
{
    same_text(name, "blender-2.49-win64.zip") || same_text(name, "blender-2.49a-win64-python26.zip")
        || same_text(name, "blender-2.49b-win64-python26.zip")
}

/// Where an installation stands.
#[derive(Clone, Copy, Debug, PartialEq, Eq, Structural)]
pub enum InstallState {
    /// The download is to be requested.
    ReadyToInstall,
    /// `downloaded` of `total` bytes have been written to the cache.
    Downloading { total: u64, downloaded: u64 },
    /// The archive is in the cache, to be opened.
    FinishedDownloading,
    /// The archive is being extracted: for a zip archive, `extracted` of its
    /// `total` entries are done.
    Extracting { kind: ArchiveKind, total: u64, extracted: u64 },
    /// The extracted files are to be moved into the packages directory.
    FinishedExtracting,
    /// Done, or stopped by an error: nothing more happens.
    FinishedInstalling,
}

/// What the outside work of the last step reported.
pub enum InstallEvent {
    /// The server answered the download request, with the length of the
    /// content where it gave one.
    Responded { content_length: Option<u64> },
    /// A piece of the download was written to the cache.
    Chunk { len: u64 },
    /// The download has no more pieces.
    DownloadEnded,
    /// The downloaded archive, stored under `file_name`, was opened; it holds
    /// `entries` entries.
    ArchiveOpened { file_name: String, entries: u64 },
    /// One more entry of a zip archive was extracted.
    EntryExtracted,
    /// A tarball was extracted whole.
    ArchiveExtracted,
    /// The extracted files were moved into place and the package recorded.
    Moved,
    /// The outside work failed, with this message.
    Failed(String),
}

/// Whether the event is one that the state waits for. A failure can end
/// any step but the last; an archive must be of a kind that can be
/// extracted; counts stay within `u64`.
pub open spec fn expects(state: InstallState, event: InstallEvent) -> bool {
    match (state, event) {
        (InstallState::FinishedInstalling, _) => false,
        (_, InstallEvent::Failed(_)) => true,
        (InstallState::ReadyToInstall, InstallEvent::Responded { .. }) => true,
        (InstallState::Downloading { downloaded, .. }, InstallEvent::Chunk { len }) => downloaded
            + len <= u64::MAX,
        (InstallState::Downloading { .. }, InstallEvent::DownloadEnded) => true,
        (InstallState::FinishedDownloading, InstallEvent::ArchiveOpened { file_name, .. }) => {
            &&& archive_kind_of(file_name@) is Some
            &&& archive_kind_of(file_name@) != Some(ArchiveKind::Dmg)
        },
        (InstallState::Extracting { kind, extracted, .. }, InstallEvent::EntryExtracted) => {
            kind == ArchiveKind::Zip && extracted < u64::MAX
        },
        (InstallState::Extracting { kind, .. }, InstallEvent::ArchiveExtracted) => kind
            != ArchiveKind::Zip,
        (InstallState::FinishedExtracting, InstallEvent::Moved) => true,
        _ => false,
    }
}

/// The next state and the progress to report, for an expected event.
pub open spec fn step_spec(state: InstallState, event: InstallEvent) -> (InstallState, ProgressV) {
    match (state, event) {
        (_, InstallEvent::Failed(message)) => (
            InstallState::FinishedInstalling,
            ProgressV::Errored(message@),
        ),
        (InstallState::ReadyToInstall, InstallEvent::Responded { content_length }) => {
            match content_length {
                Some(total) => (
                    InstallState::Downloading { total, downloaded: 0 },
                    ProgressV::Started,
                ),
                None => (
                    InstallState::FinishedInstalling,
                    ProgressV::Errored("cannot find content length"@),
                ),
            }
        },
        (InstallState::Downloading { total, downloaded }, InstallEvent::Chunk { len }) => (
            InstallState::Downloading { total, downloaded: (downloaded + len) as u64 },
            ProgressV::DownloadProgress { downloaded: (downloaded + len) as u64, total },
        ),
        (InstallState::Downloading { .. }, InstallEvent::DownloadEnded) => (
            InstallState::FinishedDownloading,
            ProgressV::FinishedDownloading,
        ),
        (InstallState::FinishedDownloading, InstallEvent::ArchiveOpened { file_name, entries }) => {
            let kind = archive_kind_of(file_name@)->0;
            let total = if kind == ArchiveKind::Zip {
                entries
            } else {
                0
            };
            (
                InstallState::Extracting { kind, total, extracted: 0 },
                ProgressV::ExtractionProgress { extracted: 0, total },
            )
        },
        (InstallState::Extracting { kind, total, extracted }, InstallEvent::EntryExtracted) => {
            if extracted + 1 == total {
                (InstallState::FinishedExtracting, ProgressV::FinishedExtracting)
            } else {
                (
                    InstallState::Extracting { kind, total, extracted: (extracted + 1) as u64 },
                    ProgressV::ExtractionProgress { extracted: (extracted + 1) as u64, total },
                )
            }
        },
        (InstallState::Extracting { .. }, InstallEvent::ArchiveExtracted) => (
            InstallState::FinishedExtracting,
            ProgressV::FinishedExtracting,
        ),
        _ => (InstallState::FinishedInstalling, ProgressV::FinishedInstalling),
    }
}

impl InstallState {
    /// Takes one step: from the state and what the outside work of the
    /// last step reported, the next state and the progress to report.
    pub fn step(self, event: InstallEvent) -> (r: (InstallState, Progress))
        requires
            expects(self, event),
        ensures
            (r.0, r.1@) == step_spec(self, event),
    {
        match event {
            InstallEvent::Failed(message) => (InstallState::FinishedInstalling, Progress::Errored(message)),
            InstallEvent::Responded { content_length } => match content_length {
                Some(total) => (InstallState::Downloading { total, downloaded: 0 }, Progress::Started),
                None => {
                    let message = String::from_str("cannot find content length");
                    (InstallState::FinishedInstalling, Progress::Errored(message))
                },
            },
            InstallEvent::Chunk { len } => match self {
                InstallState::Downloading { total, downloaded } => {
                    let downloaded = downloaded + len;
                    (
                        InstallState::Downloading { total, downloaded },
                        Progress::DownloadProgress { downloaded, total },
                    )
                },
                _ => (InstallState::FinishedInstalling, Progress::FinishedInstalling),
            },
            InstallEvent::DownloadEnded => (InstallState::FinishedDownloading, Progress::FinishedDownloading),
            InstallEvent::ArchiveOpened { file_name, entries } => {
                let kind = match archive_kind(file_name.as_str()) {
                    Some(kind) => kind,
                    None => ArchiveKind::Dmg,
                };
                let total = if kind == ArchiveKind::Zip {
                    entries
                } else {
                    0
                };
                (
                    InstallState::Extracting { kind, total, extracted: 0 },
                    Progress::ExtractionProgress { extracted: 0, total },
                )
            },
            InstallEvent::EntryExtracted => match self {
                InstallState::Extracting { kind, total, extracted } => {
                    let extracted = extracted + 1;
                    if extracted == total {
                        (InstallState::FinishedExtracting, Progress::FinishedExtracting)
                    } else {
                        (
                            InstallState::Extracting { kind, total, extracted },
                            Progress::ExtractionProgress { extracted, total },
                        )
                    }
                },
                _ => (InstallState::FinishedInstalling, Progress::FinishedInstalling),
            },
            InstallEvent::ArchiveExtracted => (InstallState::FinishedExtracting, Progress::FinishedExtracting),
            InstallEvent::Moved => (InstallState::FinishedInstalling, Progress::FinishedInstalling),
        }
    }
}

} // verus!

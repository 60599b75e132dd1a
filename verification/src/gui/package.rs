//! What a package does when it is acted on in the packages tab.
use crate::package::{same_package, Package, PackageState, PackageStatus};
use crate::settings::Bookmarks;
use crate::settings::Settings;
use vstd::prelude::*;

verus! {

/// A step of installing a package. Progress is given in bytes downloaded
/// and entries extracted, out of their totals.
pub enum Progress {
    Started,
    DownloadProgress { downloaded: u64, total: u64 },
    FinishedDownloading,
    ExtractionProgress { extracted: u64, total: u64 },
    FinishedExtracting,
    FinishedInstalling,
    Errored(String),
}

/// A step of installing a package, with its message as text.
pub enum ProgressV {
    Started,
    DownloadProgress { downloaded: u64, total: u64 },
    FinishedDownloading,
    ExtractionProgress { extracted: u64, total: u64 },
    FinishedExtracting,
    FinishedInstalling,
    Errored(Seq<char>),
}

impl View for Progress {
    type V = ProgressV;

    open spec fn view(&self) -> ProgressV {
        match self {
            Progress::Started => ProgressV::Started,
            Progress::DownloadProgress { downloaded, total } => ProgressV::DownloadProgress {
                downloaded: *downloaded,
                total: *total,
            },
            Progress::FinishedDownloading => ProgressV::FinishedDownloading,
            Progress::ExtractionProgress { extracted, total } => ProgressV::ExtractionProgress {
                extracted: *extracted,
                total: *total,
            },
            Progress::FinishedExtracting => ProgressV::FinishedExtracting,
            Progress::FinishedInstalling => ProgressV::FinishedInstalling,
            Progress::Errored(message) => ProgressV::Errored(message@),
        }
    }
}

/// What the user or an installation does to a package.
pub enum PackageMessage {
    Install,
    InstallationProgress(Progress),
    Cancel,
    Remove,
    OpenBlender,
    OpenBlenderWithFile,
    SetDefault,
    UnsetDefault,
    Bookmark,
}

/// What follows from acting on a package.
pub enum PackageCommand {
    /// Nothing more to do.
    Nothing,
    /// Check whether the package can still be downloaded, to install it.
    CheckAvailability(Package),
    /// The package was installed.
    PackageInstalled(Package),
    /// The installation of the package stops.
    CancelInstall(Package),
    /// Remove the package's files, then report it removed.
    RemovePackage(Package),
    /// Start the package.
    OpenBlender(String),
    /// Start the package with the selected file.
    OpenBlenderWithFile(String),
    /// Save the settings.
    SaveSettings,
    /// Bookmark the package, or take its bookmark away.
    Bookmark(Package),
}

/// The state of a package after an installation step: a download starts,
/// goes on while downloading, turns into extraction, which goes on while
/// extracting; a finished installation leaves it installed and an error
/// leaves it errored with its message.
pub open spec fn state_after(state: PackageState, progress: Progress) -> PackageState {
    match progress {
        Progress::Started => PackageState::Downloading,
        Progress::DownloadProgress { .. } => state,
        Progress::FinishedDownloading => PackageState::Extracting,
        Progress::ExtractionProgress { .. } => state,
        Progress::FinishedExtracting => state,
        Progress::FinishedInstalling => PackageState::Installed,
        Progress::Errored(message) => PackageState::Errored { message },
    }
}

/// `b` and `t` are the package and the settings after acting on the
/// package `a` by the message with the settings `s`, and `r` tells what
/// must follow.
pub open spec fn package_updated(a: Package, message: PackageMessage, b: Package, s: Settings, t: Settings, r: PackageCommand) -> bool {
    &&& match message {
        PackageMessage::Install => {
            &&& b == a
            &&& r matches PackageCommand::CheckAvailability(p)
            &&& p@ == a@
        },
        PackageMessage::InstallationProgress(progress) => {
            &&& b == (Package { state: state_after(a.state, progress), ..a })
            &&& match progress {
                Progress::FinishedInstalling => {
                    &&& r matches PackageCommand::PackageInstalled(p)
                    &&& p@ == b@
                },
                Progress::Errored(_) => {
                    &&& r matches PackageCommand::CancelInstall(p)
                    &&& p@ == b@
                },
                _ => r is Nothing,
            }
        },
        PackageMessage::Cancel => {
            &&& b == (Package { state: PackageState::Fetched, ..a })
            &&& r matches PackageCommand::CancelInstall(p)
            &&& p@ == b@
        },
        PackageMessage::Remove => {
            &&& b == a
            &&& r matches PackageCommand::RemovePackage(p)
            &&& p@ == a@
        },
        PackageMessage::OpenBlender => {
            &&& b == a
            &&& r matches PackageCommand::OpenBlender(n)
            &&& n@ == a.name@
        },
        PackageMessage::OpenBlenderWithFile => {
            &&& b == a
            &&& r matches PackageCommand::OpenBlenderWithFile(n)
            &&& n@ == a.name@
        },
        PackageMessage::SetDefault => b == a && r is SaveSettings,
        PackageMessage::UnsetDefault => b == a && r is SaveSettings,
        PackageMessage::Bookmark => {
            &&& b == a
            &&& r matches PackageCommand::Bookmark(p)
            &&& p@ == a@
        },
    }
    &&& match message {
        PackageMessage::SetDefault => {
            &&& t.default_package matches Some(d)
            &&& d@ == a@
        },
        PackageMessage::UnsetDefault => t.default_package is None,
        _ => t.default_package == s.default_package,
    }
    &&& t == (Settings { default_package: t.default_package, ..s })
}

impl Package {
    /// Acts on the package, and tells what must follow.
    pub fn update(&mut self, message: PackageMessage, settings: &mut Settings) -> (r: PackageCommand)
        ensures
            package_updated(*old(self), message, *final(self), *old(settings), *final(settings), r),
    {
        match message {
            PackageMessage::Install => PackageCommand::CheckAvailability(self.clone()),
            PackageMessage::InstallationProgress(progress) => match progress {
                Progress::Started => {
                    self.state = PackageState::Downloading;
                    PackageCommand::Nothing
                },
                Progress::DownloadProgress { .. } => PackageCommand::Nothing,
                Progress::FinishedDownloading => {
                    self.state = PackageState::Extracting;
                    PackageCommand::Nothing
                },
                Progress::ExtractionProgress { .. } => PackageCommand::Nothing,
                Progress::FinishedExtracting => PackageCommand::Nothing,
                Progress::FinishedInstalling => {
                    self.state = PackageState::Installed;
                    PackageCommand::PackageInstalled(self.clone())
                },
                Progress::Errored(message) => {
                    self.state = PackageState::Errored { message };
                    PackageCommand::CancelInstall(self.clone())
                },
            },
            PackageMessage::Cancel => {
                self.state = PackageState::Fetched;
                PackageCommand::CancelInstall(self.clone())
            },
            PackageMessage::Remove => PackageCommand::RemovePackage(self.clone()),
            PackageMessage::OpenBlender => PackageCommand::OpenBlender(self.name.clone()),
            PackageMessage::OpenBlenderWithFile => PackageCommand::OpenBlenderWithFile(self.name.clone()),
            PackageMessage::SetDefault => {
                settings.default_package = Some(self.clone());
                PackageCommand::SaveSettings
            },
            PackageMessage::UnsetDefault => {
                settings.default_package = None;
                PackageCommand::SaveSettings
            },
            PackageMessage::Bookmark => PackageCommand::Bookmark(self.clone()),
        }
    }
}

/// The package is the default one.
pub open spec fn is_default(p: Package, default_package: Option<Package>) -> bool {
    default_package matches Some(d) && same_package(d@, p@)
}

/// The messages of the buttons of a package's row that act, in their
/// order: the bookmark; then, by the package's state, installing (with a
/// connection, while no list is fetched), cancelling a download, nothing
/// while extracting, or opening it, opening the file (where it exists),
/// setting or unsetting it as the default and uninstalling it; after an
/// error, installing again.
pub open spec fn acting_buttons(p: Package, default_package: Option<Package>, file_exists: bool, can_connect: bool, fetching: bool) -> Seq<PackageMessage> {
    seq![PackageMessage::Bookmark] + match p.state {
        PackageState::Fetched => if can_connect && !fetching {
            seq![PackageMessage::Install]
        } else {
            Seq::empty()
        },
        PackageState::Downloading => seq![PackageMessage::Cancel],
        PackageState::Extracting => Seq::empty(),
        PackageState::Installed => seq![PackageMessage::OpenBlender] + (if file_exists {
            seq![PackageMessage::OpenBlenderWithFile]
        } else {
            Seq::empty()
        }) + seq![
            if is_default(p, default_package) {
                PackageMessage::UnsetDefault
            } else {
                PackageMessage::SetDefault
            },
            PackageMessage::Remove,
        ],
        PackageState::Errored { .. } => seq![PackageMessage::Install],
    }
}

impl Package {
    /// The messages of the buttons of the package's row that act.
    pub fn buttons_acting(&self, default_package: &Option<Package>, file_exists: bool, can_connect: bool, fetching: bool) -> (r: Vec<PackageMessage>)
        ensures
            r@ == acting_buttons(*self, *default_package, file_exists, can_connect, fetching),
    {
        let mut r: Vec<PackageMessage> = Vec::new();
        r.push(PackageMessage::Bookmark);
        match &self.state {
            PackageState::Fetched => {
                if can_connect && !fetching {
                    r.push(PackageMessage::Install);
                }
            },
            PackageState::Downloading => {
                r.push(PackageMessage::Cancel);
            },
            PackageState::Extracting => {},
            PackageState::Installed => {
                let default = match default_package {
                    Some(d) => *d == *self,
                    None => false,
                };
                r.push(PackageMessage::OpenBlender);
                if file_exists {
                    r.push(PackageMessage::OpenBlenderWithFile);
                }
                if default {
                    r.push(PackageMessage::UnsetDefault);
                } else {
                    r.push(PackageMessage::SetDefault);
                }
                r.push(PackageMessage::Remove);
            },
            PackageState::Errored { .. } => {
                r.push(PackageMessage::Install);
            },
        }
        assert(r@ =~= acting_buttons(*self, *default_package, file_exists, can_connect, fetching));
        r
    }

    /// The mark of the bookmark button: `[B]` for a bookmarked package,
    /// `[M]` for one that can be bookmarked.
    pub fn bookmark_mark(&self, bookmarks: &Bookmarks) -> (r: &'static str)
        ensures
            bookmarks@.contains(self.name@) ==> r@ == "[B]"@,
            !bookmarks@.contains(self.name@) ==> r@ == "[M]"@,
    {
        if bookmarks.contains(self.name.as_str()) {
            "[B]"
        } else {
            "[M]"
        }
    }

    /// The label of the package's status.
    pub fn status_label(&self) -> (r: &'static str)
        ensures
            self.status == PackageStatus::Update ==> r@ == "UPDATE   "@,
            self.status == PackageStatus::New ==> r@ == "NEW   "@,
            self.status == PackageStatus::Old ==> r@ == ""@,
    {
        match self.status {
            PackageStatus::Update => "UPDATE   ",
            PackageStatus::New => "NEW   ",
            PackageStatus::Old => "",
        }
    }
}

} // verus!

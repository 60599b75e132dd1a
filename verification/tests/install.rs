use ablavema::gui::install::{
    archive_kind, download_file_name, extension, needs_inner_dir, ArchiveKind, InstallEvent,
    InstallState,
};
use ablavema::gui::package::Progress;

#[test]
fn download_file_name_is_the_last_segment() {
    assert_eq!(
        download_file_name("https://builder.blender.org/download/daily/blender-3.0.0-linux-x64.tar.xz"),
        "blender-3.0.0-linux-x64.tar.xz"
    );
    assert_eq!(download_file_name("https://example.org/dir/"), "dir");
    assert_eq!(download_file_name("plain"), "plain");
    assert_eq!(download_file_name("/"), "");
}

#[test]
fn extensions_follow_the_last_dot() {
    assert_eq!(extension("blender.tar.xz"), Some("xz".to_string()));
    assert_eq!(extension(".bashrc"), None);
    assert_eq!(extension("noext"), None);
    assert_eq!(extension(".."), None);
    assert_eq!(extension("name."), Some("".to_string()));
}

#[test]
fn archive_kinds_by_extension() {
    assert_eq!(archive_kind("blender-2.93.0-linux-x64.tar.xz"), Some(ArchiveKind::TarXz));
    assert_eq!(archive_kind("blender-2.79b-linux.tar.bz2"), Some(ArchiveKind::TarBz));
    assert_eq!(archive_kind("blender-2.49-linux.tar.gz"), Some(ArchiveKind::TarGz));
    assert_eq!(archive_kind("blender-2.93.0-windows-x64.zip"), Some(ArchiveKind::Zip));
    assert_eq!(archive_kind("blender-2.93.0-macos-x64.dmg"), Some(ArchiveKind::Dmg));
    assert_eq!(archive_kind("blender-2.93.0-windows-x64.msi"), None);
}

#[test]
fn old_archives_without_an_inner_directory() {
    assert!(needs_inner_dir("blender-2.49-win64.zip"));
    assert!(needs_inner_dir("blender-2.49b-win64-python26.zip"));
    assert!(!needs_inner_dir("blender-2.50-win64.zip"));
}

#[test]
fn installing_a_tarball_goes_through_every_step() {
    let (s, p) = InstallState::ReadyToInstall.step(InstallEvent::Responded { content_length: Some(10) });
    assert_eq!(s, InstallState::Downloading { total: 10, downloaded: 0 });
    assert!(matches!(p, Progress::Started));
    let (s, p) = s.step(InstallEvent::Chunk { len: 4 });
    assert_eq!(s, InstallState::Downloading { total: 10, downloaded: 4 });
    assert!(matches!(p, Progress::DownloadProgress { downloaded: 4, total: 10 }));
    let (s, p) = s.step(InstallEvent::Chunk { len: 6 });
    assert!(matches!(p, Progress::DownloadProgress { downloaded: 10, total: 10 }));
    let (s, p) = s.step(InstallEvent::DownloadEnded);
    assert_eq!(s, InstallState::FinishedDownloading);
    assert!(matches!(p, Progress::FinishedDownloading));
    let (s, p) = s.step(InstallEvent::ArchiveOpened { file_name: "blender.tar.xz".to_string(), entries: 7 });
    assert_eq!(s, InstallState::Extracting { kind: ArchiveKind::TarXz, total: 0, extracted: 0 });
    assert!(matches!(p, Progress::ExtractionProgress { extracted: 0, total: 0 }));
    let (s, p) = s.step(InstallEvent::ArchiveExtracted);
    assert_eq!(s, InstallState::FinishedExtracting);
    assert!(matches!(p, Progress::FinishedExtracting));
    let (s, p) = s.step(InstallEvent::Moved);
    assert_eq!(s, InstallState::FinishedInstalling);
    assert!(matches!(p, Progress::FinishedInstalling));
}

#[test]
fn extracting_a_zip_counts_its_entries() {
    let s = InstallState::FinishedDownloading;
    let (s, _) = s.step(InstallEvent::ArchiveOpened { file_name: "blender.zip".to_string(), entries: 2 });
    assert_eq!(s, InstallState::Extracting { kind: ArchiveKind::Zip, total: 2, extracted: 0 });
    let (s, p) = s.step(InstallEvent::EntryExtracted);
    assert_eq!(s, InstallState::Extracting { kind: ArchiveKind::Zip, total: 2, extracted: 1 });
    assert!(matches!(p, Progress::ExtractionProgress { extracted: 1, total: 2 }));
    let (s, p) = s.step(InstallEvent::EntryExtracted);
    assert_eq!(s, InstallState::FinishedExtracting);
    assert!(matches!(p, Progress::FinishedExtracting));
}

#[test]
fn failures_end_the_installation() {
    let (s, p) = InstallState::ReadyToInstall.step(InstallEvent::Responded { content_length: None });
    assert_eq!(s, InstallState::FinishedInstalling);
    assert!(matches!(p, Progress::Errored(m) if m == "cannot find content length"));
    let (s, p) = InstallState::Downloading { total: 5, downloaded: 1 }.step(InstallEvent::Failed("gone".to_string()));
    assert_eq!(s, InstallState::FinishedInstalling);
    assert!(matches!(p, Progress::Errored(m) if m == "gone"));
}

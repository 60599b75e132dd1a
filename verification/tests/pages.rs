use ablavema::package::{Build, Os};
use ablavema::releases::builder::{platform, BuildNode, BuilderBuild, NodeError};
use ablavema::releases::stable_archive::{
    archive_version, is_wanted_archive, os_mark_of, packages_of_version, release_url, stable_archive_list,
    version_dirs, ArchiveError,
};

fn node(href: &str, var: &str, name: &str, small: &str) -> BuildNode {
    BuildNode {
        href: href.to_string(),
        build_var: Some(var.to_string()),
        name: Some(name.to_string()),
        small: Some(small.to_string()),
    }
}

#[test]
fn builder_urls_and_builds() {
    assert_eq!(BuilderBuild::DailyLatest.url(), "https://builder.blender.org/download/daily/");
    assert_eq!(BuilderBuild::PatchArchive.url(), "https://builder.blender.org/download/patch/archive/");
    assert!(matches!(BuilderBuild::ExperimentalLatest.build("cycles-x".to_string()), Build::ExperimentalLatest(n) if n == "cycles-x"));
    assert_eq!(platform(Os::Linux), "platform-linux");
    assert_eq!(platform(Os::MacOs), "platform-darwin");
}

#[test]
fn a_build_entry_becomes_a_package() {
    let n = node(
        "https://builder.blender.org/download/daily/blender-3.1.0-alpha+master.abc123-linux.x86_64-release.tar.xz",
        "master",
        "Blender 3.1.0 Alpha",
        "November 18, 10:42:20 - master - abc123",
    );
    let p = BuilderBuild::DailyLatest.package_from_node(&n, Os::Linux, "2021").unwrap().unwrap();
    assert_eq!(p.version, "3.1.0");
    assert_eq!(p.name, "blender-3.1.0-alpha+master.abc123-linux.x86_64-release");
    assert!(matches!(&p.build, Build::DailyLatest(v) if v == "master"));
    assert_eq!(p.commit, "abc123");
    assert_eq!(p.url, n.href);
    assert_eq!(p.date, 1637232140);
}

#[test]
fn build_entries_that_cannot_be_read() {
    let sha = node("x.tar.xz.sha256", "master", "Blender 3.1.0", "November 18, 10:42:20 - master - abc");
    assert!(BuilderBuild::DailyLatest.package_from_node(&sha, Os::Linux, "2021").unwrap().is_none());
    let no_version = node("b.tar.xz", "master", "Blender", "November 18, 10:42:20 - master - abc");
    assert_eq!(BuilderBuild::DailyLatest.package_from_node(&no_version, Os::Linux, "2021").err(), Some(NodeError::NoVersion));
    let bad_date = node("b.tar.xz", "master", "Blender 3.1.0", "someday - master - abc");
    assert_eq!(BuilderBuild::DailyLatest.package_from_node(&bad_date, Os::Linux, "2021").err(), Some(NodeError::BadDate));
    let no_commit = node("b.tar.xz", "master", "Blender 3.1.0", "November 18, 10:42:20 - master");
    assert_eq!(BuilderBuild::DailyLatest.package_from_node(&no_commit, Os::Linux, "2021").err(), Some(NodeError::NoCommit));
}

#[test]
fn checksum_entries_are_skipped_whatever_they_lack() {
    let bare_sha = BuildNode { href: "x.tar.xz.sha256".to_string(), build_var: None, name: None, small: None };
    assert!(BuilderBuild::DailyLatest.package_from_node(&bare_sha, Os::Linux, "2021").unwrap().is_none());
    let mut no_title = node("b.tar.xz", "master", "Blender 3.1.0", "November 18, 10:42:20 - master - abc");
    no_title.name = None;
    assert_eq!(BuilderBuild::DailyLatest.package_from_node(&no_title, Os::Linux, "2021").err(), Some(NodeError::NoPart));
}

#[test]
fn a_build_page_lists_sorted_packages() {
    let html = r#"<html><body>
      <div class="builds-list platform-linux">
        <div class="os"><a href="https://b.org/blender-3.1.0-old-linux.tar.xz">dl</a>
          <span class="build-var">master</span><span class="name">Blender 3.1.0</span>
          <small>November 17, 10:00:00 - master - aaa</small></div>
        <div class="os"><a href="https://b.org/blender-3.1.0-old-linux.tar.xz.sha256">sha</a>
          <span class="build-var">master</span><span class="name">Blender 3.1.0</span>
          <small>November 17, 10:00:00 - master - aaa</small></div>
        <div class="os"><a href="https://b.org/blender-3.1.0-new-linux.tar.xz">dl</a>
          <span class="build-var">master</span><span class="name">Blender 3.1.0</span>
          <small>November 18, 10:00:00 - master - bbb</small></div>
      </div>
      <div class="builds-list platform-windows"></div>
    </body></html>"#;
    let v = BuilderBuild::DailyLatest.packages_from_page(html, Os::Linux, "2021").unwrap();
    assert_eq!(v.len(), 2);
    assert_eq!(v[0].commit, "bbb");
    assert_eq!(v[1].commit, "aaa");
    assert!(BuilderBuild::DailyLatest.packages_from_page(html, Os::Windows, "2021").unwrap().is_empty());
    assert_eq!(BuilderBuild::DailyLatest.packages_from_page(html, Os::MacOs, "2021").err(), Some(NodeError::NoBuildsList));
}

#[test]
fn the_release_index_lists_version_directories() {
    let html = r#"<html><body><pre>
      <a href="../">../</a>
      <a href="Blender2.83/">Blender2.83/</a>
      <a href="Blender2.93/">Blender2.93/</a>
      <a href="BlenderBenchmark2.0/">BlenderBenchmark2.0/</a>
      <a href="README.txt">README.txt</a>
    </pre></body></html>"#;
    assert_eq!(
        version_dirs(html).unwrap(),
        vec!["Blender2.83/", "Blender2.93/", "Blender2.79/latest/"]
    );
    assert!(version_dirs("<a>no target</a>").is_none());
    assert_eq!(release_url(), "https://ftp.nluug.nl/pub/graphics/blender/release/");
}

#[test]
fn archive_versions_of_early_releases() {
    assert_eq!(archive_version("1.80", "blender1.80alpha-linux.tgz").unwrap(), "1.80alpha");
    assert_eq!(archive_version("1.80", "blender1.80a-linux.tgz").unwrap(), "1.80a");
    assert_eq!(archive_version("2.39", "blender-2.40alpha1-linux.tar.gz").unwrap(), "2.40alpha1");
    assert_eq!(archive_version("2.50alpha", "blender-2.50alpha1-linux.tar.bz2").unwrap(), "2.50alpha1");
    assert_eq!(archive_version("2.79latest", "blender-2.79-latest.tar.bz2").unwrap(), "2.79latest");
    assert_eq!(archive_version("2.93", "blender-2.93.4-linux-x64.tar.xz").unwrap(), "2.93.4");
    assert_eq!(archive_version("2.93", "blender.tar.xz").err(), Some(ArchiveError::NoVersion));
}

#[test]
fn wanted_archives_are_for_the_system() {
    assert_eq!(os_mark_of(Os::Windows), "win");
    assert!(is_wanted_archive("blender-2.93.4-linux-x64.tar.xz", "linux"));
    assert!(!is_wanted_archive("blender-2.93.4-windows-x64.msi", "win"));
    assert!(!is_wanted_archive("blender-2.93.4-linux-x64.tar.xz.sha256", "linux"));
    assert!(!is_wanted_archive("blender-2.93.4-windows-x64.zip", "linux"));
    assert!(!is_wanted_archive("blender-2.49-linux-powerpc.tar.gz", "linux"));
}

#[test]
fn a_version_listing_pairs_archives_with_dates() {
    let html = "<html><body><pre><a href=\"../\">../</a>\n\
<a href=\"blender-2.93.0-linux-x64.tar.xz\">blender-2.93.0-linux-x64.tar.xz</a>                   03-Jun-2021 11:00     184M\n\
<a href=\"blender-2.93.0-windows-x64.zip\">blender-2.93.0-windows-x64.zip</a>                   03-Jun-2021 11:05     200M\n\
<a href=\"blender-2.93.1-linux-x64.tar.xz\">blender-2.93.1-linux-x64.tar.xz</a>                   22-Jun-2021 09:30     184M\n\
</pre></body></html>";
    let v = packages_of_version("Blender2.93/", html, Os::Linux).unwrap();
    assert_eq!(v.len(), 2);
    assert_eq!(v[0].name, "blender-2.93.1-linux-x64");
    assert_eq!(v[0].version, "2.93.1");
    assert_eq!(v[0].url, "https://ftp.nluug.nl/pub/graphics/blender/release/Blender2.93/blender-2.93.1-linux-x64.tar.xz");
    assert_eq!(v[0].date, 1624354200);
    assert_eq!(v[1].version, "2.93.0");
    assert!(matches!(v[1].build, Build::StableArchive));
    assert_eq!(packages_of_version("2.93/", html, Os::Linux).err(), Some(ArchiveError::NotAVersionDir));
    assert_eq!(packages_of_version("Blender2.93/", "<html></html>", Os::Linux).err(), Some(ArchiveError::NoDateList));
}

#[test]
fn the_stable_archive_gathers_every_directory_newest_first() {
    let v293 = "<html><body><pre><a href=\"../\">../</a>\n\
<a href=\"blender-2.93.0-linux-x64.tar.xz\">blender-2.93.0-linux-x64.tar.xz</a>                   03-Jun-2021 11:00     184M\n\
</pre></body></html>";
    let v283 = "<html><body><pre><a href=\"../\">../</a>\n\
<a href=\"blender-2.83.0-linux64.tar.xz\">blender-2.83.0-linux64.tar.xz</a>                   03-Jun-2020 11:00     184M\n\
</pre></body></html>";
    let pages = vec![("Blender2.83/".to_string(), v283.to_string()), ("Blender2.93/".to_string(), v293.to_string())];
    let v = stable_archive_list(&pages, Os::Linux).unwrap();
    assert_eq!(v.len(), 2);
    assert_eq!(v[0].version, "2.93.0");
    assert_eq!(v[1].version, "2.83.0");
    let bad = vec![("Blender2.93/".to_string(), v293.to_string()), ("2.83/".to_string(), v283.to_string())];
    assert_eq!(stable_archive_list(&bad, Os::Linux).err(), Some(ArchiveError::NotAVersionDir));
}

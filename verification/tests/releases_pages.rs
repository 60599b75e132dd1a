use ablavema::package::{Build, Os, Package};
use ablavema::releases::lts::{lts_list, lts_packages, lts_series, LtsError};
use ablavema::releases::stable_latest::{dated_by_archive, download_url, stable_latest_package, StableError};
use ablavema::text::{find_text, replace_text, strip_prefix, strip_suffix, trim_end_matches};

#[test]
fn text_edits_as_str_gives_them() {
    assert_eq!(trim_end_matches("file.zip?x69806?x69806", "?x69806"), "file.zip");
    assert_eq!(trim_end_matches("file.zip", ""), "file.zip");
    assert_eq!(strip_prefix("Released on May 1.", "Released on "), Some("May 1.".to_string()));
    assert_eq!(strip_prefix("Soon", "Released on "), None);
    assert_eq!(strip_suffix("May 1.", "."), Some("May 1".to_string()));
    assert_eq!(find_text("abcabc", "ca"), Some(2));
    assert_eq!(find_text("abc", "x"), None);
    assert_eq!(find_text("", ""), Some(0));
    assert_eq!(replace_text("a.msi/b.msi", ".msi", ".zip"), "a.zip/b.zip");
    assert_eq!(replace_text("aaa", "aa", "b"), "ba");
}

#[test]
fn lts_series_are_listed() {
    let s = lts_series();
    assert_eq!(s.len(), 2);
    assert_eq!(s[0], ("https://www.blender.org/download/lts/2-83/", "283", "Blender2.83/"));
    assert_eq!(s[1].1, "293");
}

const LTS_PAGE: &str = r#"<html><body>
<h3 id="lts-release-2930">Blender LTS 2.93.0</h3>
<div id="faq-lts-release-2930-1"><p>Released on June 2, 2021.</p>
  <a href="https://www.blender.org/download/release/Blender2.93/blender-2.93.0-linux-x64.tar.xz?x69806">Linux</a>
  <a href="https://www.blender.org/download/release/Blender2.93/blender-2.93.0-windows-x64.msi">Windows</a>
</div>
<div id="faq-lts-release-2930-2"><ul><li>First <a href="https://d.org/1">fix</a></li><li>Second</li></ul></div>
<h3 id="lts-release-2931">Blender LTS 2.93.1</h3>
<div id="faq-lts-release-2931-1"><p>Coming soon.</p></div>
</body></html>"#;

#[test]
fn lts_page_gives_a_package_per_archive() {
    let v = lts_packages(LTS_PAGE, "293", "Blender2.93/", Os::Linux, &Vec::new()).unwrap();
    assert_eq!(v.len(), 1);
    let p = &v[0];
    assert_eq!(p.version, "2.93.0");
    assert_eq!(p.name, "blender-2.93.0-linux-x64");
    assert!(matches!(p.build, Build::Lts));
    assert_eq!(p.url, "https://ftp.nluug.nl/pub/graphics/blender/release/Blender2.93/blender-2.93.0-linux-x64.tar.xz");
    assert_eq!(p.date, 1622592000);
    assert_eq!(p.changelog.len(), 2);
    assert_eq!(p.changelog[0].url, "https://d.org/1");
    assert_eq!(p.changelog[1].url, "");
    assert!(lts_packages(LTS_PAGE, "293", "Blender2.93/", Os::MacOs, &Vec::new()).unwrap().is_empty());
}

#[test]
fn lts_archives_take_the_mirrors_date() {
    let mut archived = Package::default();
    archived.url = "https://ftp.nluug.nl/pub/graphics/blender/release/Blender2.93/blender-2.93.0-linux-x64.tar.xz".to_string();
    archived.date = 1622600000;
    let v = lts_packages(LTS_PAGE, "293", "Blender2.93/", Os::Linux, &vec![archived]).unwrap();
    assert_eq!(v[0].date, 1622600000);
}

#[test]
fn lts_page_failures() {
    let no_section = r#"<h3 id="lts-release-2830">Blender LTS 2.83.0</h3>"#;
    assert_eq!(lts_packages(no_section, "283", "Blender2.83/", Os::Linux, &Vec::new()).err(), Some(LtsError::NoSection));
    let no_version = r#"<h3 id="lts-release-2830">Blender</h3>"#;
    assert_eq!(lts_packages(no_version, "283", "Blender2.83/", Os::Linux, &Vec::new()).err(), Some(LtsError::NoVersion));
    assert!(lts_packages("<html></html>", "283", "Blender2.83/", Os::Linux, &Vec::new()).unwrap().is_empty());
}

const DOWNLOAD_PAGE: &str = r#"<html><body>
<div id="linux">
  <a href="https://www.blender.org/download/release/Blender2.93/blender-2.93.4-linux-x64.tar.xz/">Download Blender 2.93.4</a>
  <div class="dl-build-details-popup"><small>Released on September 1, 2021 · 184MB</small></div>
</div>
<div id="windows">
  <a href="https://www.blender.org/download/release/Blender2.93/blender-2.93.4-windows-x64.msi/">Download Blender 2.93.4</a>
  <div class="dl-build-details-popup"><small>Released on September 1, 2021 · 200MB</small></div>
</div>
</body></html>"#;

#[test]
fn the_latest_stable_release_from_the_download_page() {
    assert_eq!(download_url(), "https://www.blender.org/download/");
    let (p, dir) = stable_latest_package(DOWNLOAD_PAGE, Os::Linux).unwrap();
    assert_eq!(dir, "Blender2.93");
    assert_eq!(p.version, "2.93.4");
    assert_eq!(p.name, "blender-2.93.4-linux-x64");
    assert_eq!(p.url, "https://ftp.nluug.nl/pub/graphics/blender/release/release/Blender2.93/blender-2.93.4-linux-x64.tar.xz");
    assert_eq!(p.date, 1630454400);
    assert!(matches!(p.build, Build::StableLatest));
    let (w, _) = stable_latest_package(DOWNLOAD_PAGE, Os::Windows).unwrap();
    assert_eq!(w.url, "https://ftp.nluug.nl/pub/graphics/blender/release/release/Blender2.93/blender-2.93.4-windows-x64.zip");
    assert_eq!(stable_latest_package(DOWNLOAD_PAGE, Os::MacOs).err(), Some(StableError::NoDownload));
    let mut archived = Package::default();
    archived.url = p.url.clone();
    archived.date = 7;
    assert_eq!(dated_by_archive(p, &vec![archived]).date, 7);
}

const LTS_283_PAGE: &str = r#"<html><body>
<h3 id="lts-release-2830">Blender LTS 2.83.5</h3>
<div id="faq-lts-release-2830-1"><p>Released on August 19, 2020.</p>
  <a href="https://www.blender.org/download/release/Blender2.83/blender-2.83.5-linux64.tar.xz">Linux</a>
</div>
<div id="faq-lts-release-2830-2"><ul><li>A fix</li></ul></div>
</body></html>"#;

fn page(html: &str, ver: &str, path: &str) -> (String, String, String) {
    (html.to_string(), ver.to_string(), path.to_string())
}

#[test]
fn lts_list_gathers_every_series_newest_version_first() {
    let pages = vec![page(LTS_283_PAGE, "283", "Blender2.83/"), page(LTS_PAGE, "293", "Blender2.93/")];
    let v = lts_list(&pages, Os::Linux, &Vec::new()).unwrap();
    assert_eq!(v.len(), 2);
    assert_eq!(v[0].version, "2.93.0");
    assert_eq!(v[1].version, "2.83.5");
    assert_eq!(v[1].name, "blender-2.83.5-linux64");
}

#[test]
fn lts_list_stops_at_a_series_that_cannot_be_read() {
    let no_section = r#"<h3 id="lts-release-2830">Blender LTS 2.83.0</h3>"#;
    let pages = vec![page(LTS_PAGE, "293", "Blender2.93/"), page(no_section, "283", "Blender2.83/")];
    assert_eq!(lts_list(&pages, Os::Linux, &Vec::new()).err(), Some(LtsError::NoSection));
    assert!(lts_list(&Vec::new(), Os::Linux, &Vec::new()).unwrap().is_empty());
}

use std::io::Write;

use ogier_epub::epub::Epub;
use ogier_epub::error::{EpubError, UrlNotFoundErr};
use ogier_epub::open::OpenError;
use ogier_epub::package::{Error, Version};
use url::Url;

const CONTAINER: &str = r#"<?xml version="1.0"?>
<container version="1.0" xmlns="urn:oasis:names:tc:opendocument:xmlns:container">
  <rootfiles>
    <rootfile full-path="EPUB/book.opf" media-type="application/oebps-package+xml"/>
  </rootfiles>
</container>"#;

const PACKAGE: &str = r#"<?xml version="1.0"?>
<package version="3.0" xmlns="http://www.idpf.org/2007/opf" unique-identifier="pub-id">
  <metadata xmlns:dc="http://purl.org/dc/elements/1.1/">
    <dc:identifier id="pub-id">urn:uuid:1234</dc:identifier>
    <dc:title>Philosophical Works</dc:title>
    <meta property="dcterms:modified">2024-01-01T00:00:00Z</meta>
  </metadata>
  <manifest>
    <item id="c1" href="text/one.xhtml" media-type="application/xhtml+xml"/>
    <item id="c2" href="text/two.xhtml" media-type="application/xhtml+xml"/>
    <item id="c3" href="text/three.xhtml" media-type="application/xhtml+xml"/>
    <item id="nav" href="nav.xhtml" media-type="application/xhtml+xml" properties="nav"/>
    <item id="img" href="images/cover.png" media-type="image/png" properties="cover-image"/>
  </manifest>
  <spine>
    <itemref idref="c1"/>
    <itemref idref="c2"/>
    <itemref idref="c3"/>
  </spine>
</package>"#;

fn archive_of(entries: &[(&str, &str)]) -> Vec<u8> {
    let mut writer = zip::ZipWriter::new(std::io::Cursor::new(Vec::new()));
    for (name, content) in entries {
        writer
            .start_file(*name, zip::write::SimpleFileOptions::default())
            .unwrap();
        writer.write_all(content.as_bytes()).unwrap();
    }
    writer.finish().unwrap().into_inner()
}

fn book() -> Vec<u8> {
    archive_of(&[
        ("mimetype", "application/epub+zip"),
        ("META-INF/container.xml", CONTAINER),
        ("EPUB/book.opf", PACKAGE),
        ("EPUB/text/one.xhtml", "<html>one</html>"),
        ("EPUB/text/two.xhtml", "<html>two</html>"),
        ("EPUB/text/three.xhtml", "<html>three</html>"),
        ("EPUB/nav.xhtml", "<html>nav</html>"),
        ("EPUB/images/cover.png", "png"),
    ])
}

#[test]
fn test_epub3_spine() {
    let (epub, _) = Epub::open(book()).expect("Failed to open EPUB");
    let base = Url::parse("epub:/EPUB/book.opf").unwrap();

    let mut page = Some(epub.navigate_to_start());
    let mut seen = Vec::new();

    // forward
    for _ in 0..99 {
        match page {
            Some(p) => {
                seen.push(p.href.clone());
                page = epub.navigate_from(&base.join(&p.href).unwrap(), true).unwrap();
            }
            None => break,
        }
    }
    // there's a problem if still navigating after 99 iterations.
    assert!(page.is_none());
    assert_eq!(vec!["text/one.xhtml", "text/two.xhtml", "text/three.xhtml"], seen);
}

#[test]
fn test_epub3_opens() {
    let (epub, _) = Epub::open(book()).expect("Failed to open EPUB");

    assert_eq!(Version::Epub3_0, epub.version());

    let title_data = epub.title().expect("Failed to recognize title");
    assert_eq!(String::from("Philosophical Works"), title_data.value);
}

#[test]
fn test_epub3_read_nav() {
    let (epub, mut archive) = Epub::open(book()).expect("Failed to open EPUB");

    let nav = epub.nav().expect("Failed to recognize nav document");
    assert_eq!(String::from("application/xhtml+xml"), nav.media_type);

    let content = archive
        .get_reader(&Url::parse("epub:/EPUB/nav.xhtml").unwrap())
        .unwrap();
    assert_eq!(b"<html>nav</html>".to_vec(), content);
}

#[test]
fn open_rejects_what_is_no_archive() {
    match Epub::open(b"this is no zip archive".to_vec()) {
        Err(OpenError::Epub(EpubError::Archive(_))) => {}
        _ => panic!("an archive error was expected"),
    }
}

#[test]
fn open_rejects_a_spine_that_names_what_the_manifest_lacks() {
    let package = PACKAGE.replace(r#"<itemref idref="c2"/>"#, r#"<itemref idref="gone"/>"#);
    let bytes = archive_of(&[
        ("META-INF/container.xml", CONTAINER),
        ("EPUB/book.opf", &package),
    ]);
    match Epub::open(bytes) {
        Err(OpenError::Epub(EpubError::PackageDoc(Error::Spine))) => {}
        _ => panic!("a spine error was expected"),
    }
}

#[test]
fn navigation_stops_at_both_ends_and_rejects_unknown_urls() {
    let (epub, _) = Epub::open(book()).unwrap();
    let first = Url::parse("epub:/EPUB/text/one.xhtml").unwrap();
    let last = Url::parse("epub:/EPUB/text/three.xhtml").unwrap();
    let unknown = Url::parse("epub:/EPUB/text/four.xhtml").unwrap();
    assert_eq!(Ok(None), epub.navigate_from(&first, false));
    assert_eq!(Ok(None), epub.navigate_from(&last, true));
    assert_eq!(Err(UrlNotFoundErr), epub.navigate_from(&unknown, true));
    assert_eq!(Err(UrlNotFoundErr), epub.navigate_from(&unknown, false));
    let second = epub.navigate_from(&first, true).unwrap().unwrap();
    assert_eq!("text/two.xhtml", second.href);
    let back = epub.navigate_from(&last, false).unwrap().unwrap();
    assert_eq!("text/two.xhtml", back.href);
}

fn package_from(xml: &str) -> ogier_epub::package::Package {
    ogier_epub::package::Package::new(xml.as_bytes()).expect("the package is read")
}

fn url(text: &str) -> Url {
    Url::parse(text).unwrap()
}

#[test]
fn a_package_is_assembled_with_its_reading_order_first() {
    let package = package_from(
        r#"<package version="3.0" xmlns="http://www.idpf.org/2007/opf">
             <manifest><item id="r1" href="book.html" media-type="application/xhtml+xml"/></manifest>
             <spine><itemref idref="r1"/></spine>
           </package>"#,
    );
    let epub = Epub::assemble(package, &url("epub:/EPUB/pkg.opf")).unwrap();
    assert_eq!(
        &vec![ogier_epub::package::ResourceItem {
            href: "book.html".to_string(),
            media_type: "application/xhtml+xml".to_string(),
            properties: None,
        }],
        epub.resources()
    );
    assert_eq!(
        Ok(ogier_epub::epub::ResourceIndex(0, Some(0))),
        epub.locate(&url("epub:/EPUB/book.html"))
    );
    assert_eq!(&vec![0usize], epub.spine());
    assert_eq!(1, epub.spine_len());
    assert_eq!(1, epub.resource_count());
    assert_eq!("epub:/EPUB/book.html", epub.resource_url(0));
}

const MIXED: &str = r#"<package version="3.0" xmlns="http://www.idpf.org/2007/opf">
  <metadata xmlns:dc="http://purl.org/dc/elements/1.1/">
    <dc:title>Mixed</dc:title>
    <meta name="cover" content="img"/>
  </metadata>
  <manifest>
    <item id="style" href="css/a.css" media-type="text/css"/>
    <item id="c2" href="text/two.xhtml" media-type="application/xhtml+xml"/>
    <item id="ncx" href="toc.ncx" media-type="application/x-dtbncx+xml"/>
    <item id="img" href="images/cover.png" media-type="image/png"/>
    <item id="c1" href="text/one.xhtml" media-type="application/xhtml+xml"/>
    <item id="nav" href="nav.xhtml" media-type="application/xhtml+xml" properties="scripted nav"/>
  </manifest>
  <spine toc="ncx">
    <itemref idref="c1"/>
    <itemref idref="img"/>
    <itemref idref="c2"/>
    <itemref idref="ncx"/>
  </spine>
</package>"#;

#[test]
fn each_place_of_the_reading_order_holds_the_resource_of_its_itemref() {
    let package = package_from(MIXED);
    let targets: Vec<ogier_epub::package::ResourceItem> = package
        .spine
        .itemrefs
        .iter()
        .map(|itemref| package.manifest.get(&itemref.idref).unwrap().clone())
        .collect();
    let epub = Epub::assemble(package, &url("epub:/EPUB/pkg.opf")).unwrap();
    assert_eq!(4, epub.spine_len());
    assert_eq!(6, epub.resource_count());
    for (i, target) in targets.iter().enumerate() {
        assert_eq!(target, &epub.resources()[epub.spine()[i]]);
    }
    let hrefs: Vec<&str> = epub.resources().iter().map(|r| r.href.as_str()).collect();
    assert_eq!(
        vec![
            "text/one.xhtml",
            "images/cover.png",
            "text/two.xhtml",
            "toc.ncx",
            "css/a.css",
            "nav.xhtml"
        ],
        hrefs
    );
}

#[test]
fn a_resource_outside_the_reading_order_is_found_and_said_to_be_outside() {
    let epub = Epub::assemble(package_from(MIXED), &url("epub:/EPUB/pkg.opf")).unwrap();
    let (item, in_spine) = epub.navigate_to(&url("epub:/EPUB/css/a.css")).unwrap();
    assert_eq!("css/a.css", item.href);
    assert!(!in_spine);
    let (item, in_spine) = epub.navigate_to(&url("epub:/EPUB/text/two.xhtml")).unwrap();
    assert_eq!("text/two.xhtml", item.href);
    assert!(in_spine);
    assert_eq!(Err(UrlNotFoundErr), epub.navigate_to(&url("epub:/EPUB/css/b.css")).map(|_| ()));
    assert_eq!(Ok(None), epub.navigate_from(&url("epub:/EPUB/css/a.css"), true));
    assert_eq!(Ok(None), epub.navigate_from(&url("epub:/EPUB/css/a.css"), false));
    assert_eq!(
        Ok(ogier_epub::epub::ResourceIndex(4, None)),
        epub.locate(&url("epub:/EPUB/css/a.css"))
    );
}

#[test]
fn every_url_of_the_index_leads_to_a_resource_at_that_url() {
    let epub = Epub::assemble(package_from(MIXED), &url("epub:/EPUB/pkg.opf")).unwrap();
    for at in 0..epub.resource_count() {
        let address = url(epub.resource_url(at));
        let found = epub.resource(&address).unwrap();
        let index = epub.locate(&address).unwrap();
        assert_eq!(at, index.0);
        assert_eq!(address.as_str(), epub.resource_url(index.0));
        assert_eq!(&epub.resources()[at], found);
    }
    assert_eq!(
        Err(UrlNotFoundErr),
        epub.resource(&url("epub:/EPUB/none")).map(|_| ())
    );
}

#[test]
fn the_last_step_of_the_reading_order_does_not_reach_the_other_resources() {
    let epub = Epub::assemble(package_from(MIXED), &url("epub:/EPUB/pkg.opf")).unwrap();
    assert_eq!(Ok(None), epub.navigate_from(&url("epub:/EPUB/toc.ncx"), true));
    assert_eq!(Ok(None), epub.navigate_from(&url("epub:/EPUB/text/one.xhtml"), false));
}

#[test]
fn the_newer_dialect_finds_cover_and_nav_by_their_properties() {
    let (epub, _) = Epub::open(book()).unwrap();
    assert_eq!("images/cover.png", epub.cover().unwrap().href);
    assert_eq!("nav.xhtml", epub.nav().unwrap().href);
    assert!(epub.legacy_toc().is_none());
    let epub = Epub::assemble(package_from(MIXED), &url("epub:/EPUB/pkg.opf")).unwrap();
    assert_eq!("images/cover.png", epub.cover().unwrap().href);
    assert_eq!("nav.xhtml", epub.nav().unwrap().href);
    assert_eq!("toc.ncx", epub.legacy_toc().unwrap().href);
}

#[test]
fn the_older_dialect_knows_the_cover_by_its_id_and_has_no_nav() {
    let old = MIXED.replace(r#"version="3.0""#, r#"version="2.0""#);
    let epub = Epub::assemble(package_from(&old), &url("epub:/EPUB/pkg.opf")).unwrap();
    assert_eq!(Version::Epub2_0, epub.version());
    assert_eq!("images/cover.png", epub.cover().unwrap().href);
    assert!(epub.nav().is_none());
    assert_eq!("toc.ncx", epub.legacy_toc().unwrap().href);
    assert_eq!("Mixed", epub.title().unwrap().value);
    assert_eq!(2, epub.metadata().len());
}

#[test]
fn a_cover_outside_the_reading_order_is_not_the_legacy_cover() {
    let old = MIXED
        .replace(r#"version="3.0""#, r#"version="2.0""#)
        .replace(r#"<itemref idref="img"/>"#, "");
    let epub = Epub::assemble(package_from(&old), &url("epub:/EPUB/pkg.opf")).unwrap();
    assert!(epub.cover().is_none());
    let new = MIXED
        .replace(r#"<itemref idref="img"/>"#, "")
        .replace(r#"media-type="image/png""#, r#"media-type="image/png" properties="cover-image""#);
    let epub = Epub::assemble(package_from(&new), &url("epub:/EPUB/pkg.opf")).unwrap();
    assert_eq!("images/cover.png", epub.cover().unwrap().href);
}

#[test]
fn a_publication_without_title_has_none() {
    let epub = Epub::assemble(
        package_from(r#"<package version="3.0"></package>"#),
        &url("epub:/EPUB/pkg.opf"),
    )
    .unwrap();
    assert!(epub.title().is_none());
    assert!(epub.cover().is_none());
    assert!(epub.nav().is_none());
    assert_eq!(0, epub.resource_count());
    assert_eq!(0, epub.spine_len());
}

#[test]
fn an_idref_used_twice_is_a_spine_error() {
    let twice = MIXED.replace(r#"<itemref idref="c2"/>"#, r#"<itemref idref="c1"/>"#);
    match Epub::assemble(package_from(&twice), &url("epub:/EPUB/pkg.opf")) {
        Err(EpubError::PackageDoc(Error::Spine)) => {}
        _ => panic!("a spine error was expected"),
    }
}

#[test]
fn an_href_that_does_not_resolve_is_an_invalid_href() {
    let bad = MIXED.replace("css/a.css", "http://[bad");
    match Epub::assemble(package_from(&bad), &url("epub:/EPUB/pkg.opf")) {
        Err(EpubError::InvalidHref) => {}
        _ => panic!("an invalid href was expected"),
    }
    let bad = MIXED.replace("text/one.xhtml", "http://[bad");
    match Epub::assemble(package_from(&bad), &url("epub:/EPUB/pkg.opf")) {
        Err(EpubError::InvalidHref) => {}
        _ => panic!("an invalid href was expected"),
    }
}

#[test]
fn two_resources_at_one_url_are_both_kept_and_the_later_is_found() {
    let shared = MIXED.replace("css/a.css", "nav.xhtml");
    let epub = Epub::assemble(package_from(&shared), &url("epub:/EPUB/pkg.opf")).unwrap();
    assert_eq!(6, epub.resource_count());
    assert_eq!(
        Ok(ogier_epub::epub::ResourceIndex(5, None)),
        epub.locate(&url("epub:/EPUB/nav.xhtml"))
    );
    assert_eq!("epub:/EPUB/nav.xhtml", epub.resource_url(4));
    assert_eq!("epub:/EPUB/nav.xhtml", epub.resource_url(5));
}

#[test]
fn open_rejects_an_archive_without_container() {
    let bytes = archive_of(&[("EPUB/book.opf", PACKAGE)]);
    match Epub::open(bytes) {
        Err(OpenError::Epub(EpubError::ContainerFile(_))) => {}
        _ => panic!("a container error was expected"),
    }
}

#[test]
fn open_rejects_a_container_that_names_what_the_archive_lacks() {
    let bytes = archive_of(&[("META-INF/container.xml", CONTAINER)]);
    match Epub::open(bytes) {
        Err(OpenError::Epub(EpubError::PackageDoc(Error::Generic))) => {}
        _ => panic!("a package error was expected"),
    }
}

#[test]
fn open_rejects_a_package_with_a_defect() {
    let package = PACKAGE.replace(r#"id="c2" "#, "");
    let bytes = archive_of(&[
        ("META-INF/container.xml", CONTAINER),
        ("EPUB/book.opf", &package),
    ]);
    match Epub::open(bytes) {
        Err(OpenError::Epub(EpubError::PackageDoc(Error::Manifest))) => {}
        _ => panic!("a manifest error was expected"),
    }
    let package = PACKAGE.replace("images/cover.png", "http://[bad");
    let bytes = archive_of(&[
        ("META-INF/container.xml", CONTAINER),
        ("EPUB/book.opf", &package),
    ]);
    match Epub::open(bytes) {
        Err(OpenError::Epub(EpubError::InvalidHref)) => {}
        _ => panic!("an invalid href was expected"),
    }
}

#[test]
fn the_archive_reads_entries_by_url() {
    let base = url("epub:/");
    let bytes = archive_of(&[
        ("a.txt", "first"),
        ("dir\\b.txt", "second"),
        ("dir/c.txt", "third"),
    ]);
    let mut archive = ogier_epub::archive::EpubArchive::new(bytes, &base).unwrap();
    assert!(archive.contains(&url("epub:/a.txt")));
    assert!(archive.contains(&url("epub:/dir/b.txt")));
    assert!(archive.contains(&url("epub:/dir/c.txt")));
    assert!(!archive.contains(&url("epub:/dir/")));
    assert!(!archive.contains(&url("epub:/dir%5Cb.txt")));
    assert_eq!(b"first".to_vec(), archive.get_reader(&url("epub:/a.txt")).unwrap());
    assert_eq!(b"second".to_vec(), archive.get_reader(&url("epub:/dir/b.txt")).unwrap());
    assert_eq!(b"third".to_vec(), archive.get_reader(&url("epub:/dir/c.txt")).unwrap());
    match archive.get_reader(&url("epub:/none.txt")) {
        Err(ogier_epub::archive::ReadFailure::UrlNotFound(_)) => {}
        _ => panic!("the URL is not in the archive"),
    }
}

#[test]
fn the_archive_skips_directories() {
    let mut writer = zip::ZipWriter::new(std::io::Cursor::new(Vec::new()));
    writer
        .add_directory("folder/", zip::write::SimpleFileOptions::default())
        .unwrap();
    writer
        .start_file("folder/file.txt", zip::write::SimpleFileOptions::default())
        .unwrap();
    writer.write_all(b"content").unwrap();
    let bytes = writer.finish().unwrap().into_inner();
    let mut archive = ogier_epub::archive::EpubArchive::new(bytes, &url("epub:/")).unwrap();
    assert!(!archive.contains(&url("epub:/folder/")));
    assert_eq!(
        b"content".to_vec(),
        archive.get_reader(&url("epub:/folder/file.txt")).unwrap()
    );
}

#[test]
fn what_is_no_archive_is_an_archive_error() {
    match ogier_epub::archive::EpubArchive::new(Vec::new(), &url("epub:/")) {
        Err(ogier_epub::archive::ArchiveFailure::Archive(_)) => {}
        _ => panic!("an archive error was expected"),
    }
}

#[test]
fn errors_have_their_messages() {
    assert_eq!(
        "EPUB archive structure has issues",
        EpubError::Archive(ogier_epub::error::ArchiveErr).message()
    );
    assert_eq!(
        "EPUB container file is missing or invalid",
        EpubError::ContainerFile(ogier_epub::error::ContainerFileErr).message()
    );
    assert_eq!(
        "EPUB package document has invalid spine",
        EpubError::PackageDoc(Error::Spine).message()
    );
    assert_eq!("EPUB contains invalid href", EpubError::InvalidHref.message());
    assert_eq!("No resource at given URL", UrlNotFoundErr.message());
}

fn stored_archive_of(entries: &[(&str, &str)]) -> Vec<u8> {
    let mut writer = zip::ZipWriter::new(std::io::Cursor::new(Vec::new()));
    let options = zip::write::SimpleFileOptions::default()
        .compression_method(zip::CompressionMethod::Stored);
    for (name, content) in entries {
        writer.start_file(*name, options).unwrap();
        writer.write_all(content.as_bytes()).unwrap();
    }
    writer.finish().unwrap().into_inner()
}

fn damaged(mut bytes: Vec<u8>, content: &str) -> Vec<u8> {
    let at = bytes
        .windows(content.len())
        .position(|window| window == content.as_bytes())
        .expect("the content is stored as it is");
    bytes[at] ^= 0xff;
    bytes
}

#[test]
fn an_entry_that_fails_its_checksum_is_a_failure_of_the_byte_source() {
    let bytes = damaged(stored_archive_of(&[("a.txt", "some content")]), "some content");
    let mut archive = ogier_epub::archive::EpubArchive::new(bytes, &url("epub:/")).unwrap();
    match archive.get_reader(&url("epub:/a.txt")) {
        Err(ogier_epub::archive::ReadFailure::Io(_)) => {}
        other => panic!("unexpected {:?}", other),
    }
}

#[test]
fn open_hands_on_a_failure_of_the_byte_source() {
    let bytes = damaged(
        stored_archive_of(&[("META-INF/container.xml", CONTAINER), ("EPUB/book.opf", PACKAGE)]),
        CONTAINER,
    );
    match Epub::open(bytes) {
        Err(OpenError::Io(_)) => {}
        Err(other) => panic!("unexpected {:?}", other),
        Ok(_) => panic!("the archive is damaged"),
    }
}

#[test]
fn an_entry_that_the_archive_does_not_yield_is_an_archive_error() {
    let mut bytes = stored_archive_of(&[("a.txt", "some content")]);
    let local = bytes.windows(4).position(|w| w == b"PK\x03\x04").unwrap();
    bytes[local + 8] = 12;
    let central = bytes.windows(4).position(|w| w == b"PK\x01\x02").unwrap();
    bytes[central + 10] = 12;
    let mut archive = ogier_epub::archive::EpubArchive::new(bytes, &url("epub:/")).unwrap();
    assert!(archive.contains(&url("epub:/a.txt")));
    match archive.get_reader(&url("epub:/a.txt")) {
        Err(ogier_epub::archive::ReadFailure::Archive(_)) => {}
        other => panic!("unexpected {:?}", other),
    }
}

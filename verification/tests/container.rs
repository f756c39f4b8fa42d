use ogier_epub::container::{parse_container_file, ContainerFailure};
use url::Url;

#[test]
fn epub_test_parse_container_xml() {
    let base_url = url::Url::parse("epub:/").unwrap();
    let xml = r#"
            <?xml version="1.0"?>
            <container
                version="1.0"
                xmlns="urn:oasis:names:tc:opendocument:xmlns:container">
                <rootfiles>
                    <rootfile
                        full-path="EPUB/As_You_Like_It.opf"
                        media-type="application/oebps-package+xml"/>
                </rootfiles>
            </container>
        "#;
    let reader = xml.as_bytes();
    let package_doc_uri = parse_container_file(&base_url, reader).unwrap();
    let expected = url::Url::parse("epub:/EPUB/As_You_Like_It.opf").unwrap();
    assert_eq!(expected, package_doc_uri);
}

#[test]
fn mod_test_parse_container_xml() {
    let base_url = url::Url::parse("epub:/").unwrap();
    let xml = r#"
            <?xml version="1.0"?>
            <container
                version="1.0"
                xmlns="urn:oasis:names:tc:opendocument:xmlns:container">
                <rootfiles>
                    <rootfile
                        full-path="EPUB/As_You_Like_It.opf"
                        media-type="application/oebps-package+xml"/>
                </rootfiles>
            </container>
        "#;
    let reader = xml.as_bytes();
    let package_doc_uri = parse_container_file(&base_url, reader).unwrap();
    let expected = url::Url::parse("epub:/EPUB/As_You_Like_It.opf").unwrap();
    assert_eq!(expected, package_doc_uri);
}

#[test]
fn test_url_in_epub() {
    let root = Url::parse("epub:/").unwrap();
    let join = |u: &Url, with| u.join(with).unwrap();

    assert_eq!(root, join(&root, "/"));
    assert_eq!(root, join(&root, ".."));
    assert_eq!(
        join(&root, "text/a.css"),
        join(&join(&root, "text/a.html"), "a.css")
    );
    assert_eq!(
        join(&root, "nav.html"),
        join(&join(&root, "text/a.html"), "../nav.html")
    );
    assert_eq!(
        join(&root, "text/a.css"),
        join(&join(&root, "text/a.html"), "/text/a.css")
    );
}

fn rejected(xml: &str) {
    let base_url = url::Url::parse("epub:/").unwrap();
    match parse_container_file(&base_url, xml.as_bytes()) {
        Err(ContainerFailure::Container(_)) => {}
        other => panic!("unexpected {:?} for {}", other, xml),
    }
}

#[test]
fn the_container_names_the_package_document() {
    let base_url = url::Url::parse("epub:/").unwrap();
    let xml = r#"<container><rootfiles><rootfile full-path="EPUB/book.opf"/></rootfiles></container>"#;
    let url = parse_container_file(&base_url, xml.as_bytes()).unwrap();
    assert_eq!("epub:/EPUB/book.opf", url.as_str());
}

#[test]
fn the_first_rootfile_decides() {
    let base_url = url::Url::parse("epub:/").unwrap();
    let xml = r#"<container><rootfiles>
        <rootfile full-path="one/a&amp;b.opf"></rootfile>
        <rootfile full-path="two/b.opf"/>
    </rootfiles></container>"#;
    let url = parse_container_file(&base_url, xml.as_bytes()).unwrap();
    assert_eq!("epub:/one/a&b.opf", url.as_str());
    rejected(r#"<container><rootfile media-type="x"/><rootfile full-path="two/b.opf"/></container>"#);
}

#[test]
fn a_container_without_rootfile_is_rejected() {
    rejected("");
    rejected(r#"<container><rootfiles/></container>"#);
    rejected(r#"<container><rootfiles><rootfile full-path="a&bogus;b"/></rootfiles></container>"#);
}

#[test]
fn a_container_that_is_no_xml_before_its_rootfile_is_rejected() {
    rejected(r#"<container></rootfiles><rootfile full-path="EPUB/book.opf"/>"#);
}

#[test]
fn a_rootfile_that_does_not_resolve_is_rejected() {
    rejected(r#"<container><rootfile full-path="http://[bad"/></container>"#);
}

#[test]
fn the_container_reader_knows_no_namespaces() {
    let base_url = url::Url::parse("epub:/").unwrap();
    let xml = r#"<container xmlns:xmlns="urn:x"><rootfile full-path="EPUB/book.opf"/></container>"#;
    let url = parse_container_file(&base_url, xml.as_bytes()).unwrap();
    assert_eq!("epub:/EPUB/book.opf", url.as_str());
    match ogier_epub::package::Package::new(
        br#"<package version="3.0" xmlns:xmlns="urn:x"></package>"#,
    ) {
        Err(ogier_epub::package::Failure::Package(ogier_epub::package::Error::Generic)) => {}
        other => panic!("unexpected {:?}", other.map(|p| p.version)),
    }
}

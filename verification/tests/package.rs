use ogier_epub::package::{Error, Itemref, Package, PropertiesValue, ResourceItem, Version};

#[test]
fn package_test_parse_package_version() {
    let xml = r#"
            <?xml version="1.0"?>
            <package
                version="3.0"
                xml:lang="en"
                xmlns="http://www.idpf.org/2007/opf"
                unique-identifier="pub-id">

               <metadata
                   xmlns:dc="http://purl.org/dc/elements/1.1/">

               </metadata>
            </package>
        "#;
    let reader = xml.as_bytes();
    let package = Package::new(reader).expect("Failed parsing");
    assert_eq!(Version::Epub3_0, package.version);
}

#[test]
fn package_test_parse_package_manifest_and_spine() {
    let xml = r#"
            <?xml version="1.0"?>
            <package
                version="3.0"
                xml:lang="en"
                xmlns="http://www.idpf.org/2007/opf"
                unique-identifier="pub-id">

               <metadata
                   xmlns:dc="http://purl.org/dc/elements/1.1/">
               </metadata>

               <manifest>
                  <item id="r4915"
                      href="book.html"
                      media-type="application/xhtml+xml"/>
                  <item id="r7184"
                      href="images/cover.png"
                      media-type="image/png"/>
                  <item id="nav"
                      href="nav.html"
                      media-type="application/xhtml+xml"
                      properties="nav"/>
               </manifest>

               <spine>
                  <itemref
                      idref="r4915"/>
               </spine>

            </package>
        "#;
    let reader = xml.as_bytes();
    let package = Package::new(reader).expect("Failed parsing");
    {
        let manifest = &package.manifest;
        assert_eq!(3, manifest.len());
        assert_eq!(
            &ResourceItem {
                href: "book.html".into(),
                media_type: "application/xhtml+xml".into(),
                properties: None
            },
            manifest.get(b"r4915".as_slice()).unwrap()
        );
        assert_eq!(
            &ResourceItem {
                href: "images/cover.png".into(),
                media_type: "image/png".into(),
                properties: None
            },
            manifest.get(b"r7184".as_slice()).unwrap()
        );
        assert_eq!(
            &ResourceItem {
                href: "nav.html".into(),
                media_type: "application/xhtml+xml".into(),
                properties: Some(PropertiesValue("nav".into())),
            },
            manifest.get(b"nav".as_slice()).unwrap()
        );
    }
    {
        let spine = &package.spine;
        assert_eq!(None, spine.toc);
        assert_eq!(
            vec![Itemref {
                idref: b"r4915".as_slice().into(),
                properties: None
            },],
            spine.itemrefs
        );
    }
}

#[test]
fn epub_test_parse_package_version() {
    let xml = r#"
            <?xml version="1.0"?>
            <package
                version="3.0"
                xml:lang="en"
                xmlns="http://www.idpf.org/2007/opf"
                unique-identifier="pub-id">

               <metadata
                   xmlns:dc="http://purl.org/dc/elements/1.1/">

               </metadata>
            </package>
        "#;
    let reader = xml.as_bytes();
    let package = Package::new(reader).unwrap();
    assert_eq!(Version::Epub3_0, package.version);
}

#[test]
fn epub_test_parse_package_manifest_and_spine() {
    let base_url = url::Url::parse("epub:/EPUB/As_You_Like_It.opf").unwrap();
    let xml = r#"
            <?xml version="1.0"?>
            <package
                version="3.0"
                xml:lang="en"
                xmlns="http://www.idpf.org/2007/opf"
                unique-identifier="pub-id">

               <metadata
                   xmlns:dc="http://purl.org/dc/elements/1.1/">
               </metadata>

               <manifest>
                  <item id="r4915"
                      href="book.html"
                      media-type="application/xhtml+xml"/>
                  <item id="r7184"
                      href="images/cover.png"
                      media-type="image/png"/>
                  <item id="nav"
                      href="nav.html"
                      media-type="application/xhtml+xml"
                      properties="nav"/>
               </manifest>

               <spine>
                  <itemref
                      idref="r4915"/>
               </spine>

            </package>
        "#;
    let reader = xml.as_bytes();
    let package = Package::new(reader).unwrap();
    {
        let manifest = &package.manifest;
        assert_eq!(3, manifest.len());
        let book = manifest.get(b"r4915").unwrap();
        assert_eq!(
            url::Url::parse("epub:/EPUB/book.html").unwrap(),
            base_url.join(&book.href).unwrap()
        );
        assert_eq!("application/xhtml+xml", book.media_type);
        assert_eq!(None, book.properties);
        let cover = manifest.get(b"r7184").unwrap();
        assert_eq!(
            url::Url::parse("epub:/EPUB/images/cover.png").unwrap(),
            base_url.join(&cover.href).unwrap()
        );
        assert_eq!("image/png", cover.media_type);
        assert_eq!(None, cover.properties);
        let nav = manifest.get(b"nav").unwrap();
        assert_eq!(
            url::Url::parse("epub:/EPUB/nav.html").unwrap(),
            base_url.join(&nav.href).unwrap()
        );
        assert_eq!("application/xhtml+xml", nav.media_type);
        assert_eq!(Some(PropertiesValue("nav".into())), nav.properties);
    }
    {
        let spine = &package.spine;
        assert_eq!(None, spine.toc);
        assert_eq!(1, spine.itemrefs.len());
        assert_eq!(b"r4915".to_vec(), spine.itemrefs[0].idref);
    }
}

fn package_with(version: &str, inner: &str) -> String {
    format!(
        r#"<?xml version="1.0"?>
<package {} xmlns="http://www.idpf.org/2007/opf" xmlns:opf="http://www.idpf.org/2007/opf" unique-identifier="pub-id">
{}
</package>"#,
        version, inner
    )
}

fn metadata_of(version: &str, inner: &str) -> Vec<ogier_epub::package::MetadataItem> {
    let xml = package_with(
        version,
        &format!(
            r#"<metadata xmlns:dc="http://purl.org/dc/elements/1.1/">{}</metadata>"#,
            inner
        ),
    );
    Package::new(xml.as_bytes()).expect("the package is read").metadata
}

fn failure_of(xml: &str) -> ogier_epub::package::Failure {
    match Package::new(xml.as_bytes()) {
        Ok(_) => panic!("the package is read"),
        Err(e) => e,
    }
}

#[test]
fn version_three_selects_the_newer_dialect() {
    let package = Package::new(package_with(r#"version="3.0""#, "").as_bytes()).unwrap();
    assert_eq!(Version::Epub3_0, package.version);
}

#[test]
fn any_other_version_selects_the_older_dialect() {
    for version in ["2.0", "3.1", "", "3", "30", " 3.0"] {
        let attribute = format!(r#"version="{}""#, version);
        let package = Package::new(package_with(&attribute, "").as_bytes()).unwrap();
        assert_eq!(Version::Epub2_0, package.version, "version {:?}", version);
    }
}

#[test]
fn a_package_without_version_is_rejected() {
    match failure_of(&package_with("", "")) {
        ogier_epub::package::Failure::Package(ogier_epub::package::Error::Generic) => {}
        other => panic!("unexpected {:?}", other),
    }
}

#[test]
fn a_document_without_package_is_an_empty_package_of_the_older_dialect() {
    let package = Package::new(b"").unwrap();
    assert_eq!(Version::Epub2_0, package.version);
    assert!(package.metadata.is_empty());
    assert_eq!(0, package.manifest.len());
    assert!(package.spine.itemrefs.is_empty());
    assert_eq!(None, package.spine.toc);
}

#[test]
fn a_section_open_at_the_end_of_the_input_is_kept() {
    let xml = r#"<package version="3.0" xmlns="http://www.idpf.org/2007/opf"><spine toc="ncx"><itemref idref="a"/>"#;
    let package = Package::new(xml.as_bytes()).unwrap();
    assert_eq!(Version::Epub3_0, package.version);
    assert_eq!(Some(b"ncx".to_vec()), package.spine.toc);
    assert_eq!(1, package.spine.itemrefs.len());
    let xml = r#"<package version="2.0" xmlns="http://www.idpf.org/2007/opf"><manifest><item id="a" href="a.html" media-type="text/html"/>"#;
    let package = Package::new(xml.as_bytes()).unwrap();
    assert_eq!(1, package.manifest.len());
    let xml = r#"<package version="2.0" xmlns="http://www.idpf.org/2007/opf"><metadata><meta name="a" content="b"/>"#;
    let package = Package::new(xml.as_bytes()).unwrap();
    assert_eq!(1, package.metadata.len());
}

#[test]
fn malformed_xml_is_a_generic_error() {
    let xml = r#"<package version="3.0"><metadata></manifest></package>"#;
    match failure_of(xml) {
        ogier_epub::package::Failure::Package(ogier_epub::package::Error::Generic) => {}
        other => panic!("unexpected {:?}", other),
    }
}

#[test]
fn a_manifest_item_without_a_required_attribute_is_a_manifest_error() {
    for item in [
        r#"<item href="a.html" media-type="text/html"/>"#,
        r#"<item id="a" media-type="text/html"/>"#,
        r#"<item id="a" href="a.html"/>"#,
    ] {
        let xml = package_with(r#"version="3.0""#, &format!("<manifest>{}</manifest>", item));
        match failure_of(&xml) {
            ogier_epub::package::Failure::Package(ogier_epub::package::Error::Manifest) => {}
            other => panic!("unexpected {:?} for {}", other, item),
        }
    }
}

#[test]
fn an_itemref_without_idref_is_a_spine_error() {
    let xml = package_with(r#"version="3.0""#, r#"<spine><itemref linear="no"/></spine>"#);
    match failure_of(&xml) {
        ogier_epub::package::Failure::Package(ogier_epub::package::Error::Spine) => {}
        other => panic!("unexpected {:?}", other),
    }
}

#[test]
fn an_attribute_that_cannot_be_read_is_a_generic_error() {
    let xml = package_with(
        r#"version="3.0""#,
        r#"<manifest><item id="a" href="a&bogus;.html" media-type="text/html"/></manifest>"#,
    );
    match failure_of(&xml) {
        ogier_epub::package::Failure::Package(ogier_epub::package::Error::Generic) => {}
        other => panic!("unexpected {:?}", other),
    }
}

#[test]
fn a_later_item_takes_the_place_of_an_earlier_one_with_its_id() {
    let xml = package_with(
        r#"version="3.0""#,
        r#"<manifest>
             <item id="a" href="one.html" media-type="text/html"/>
             <item id="b" href="two.html" media-type="text/html"/>
             <item id="a" href="three.html" media-type="text/html"/>
           </manifest>"#,
    );
    let package = Package::new(xml.as_bytes()).unwrap();
    assert_eq!(2, package.manifest.len());
    assert_eq!("three.html", package.manifest.get(b"a").unwrap().href);
    let values = package.manifest.into_values();
    assert_eq!("three.html", values[0].href);
    assert_eq!("two.html", values[1].href);
}

#[test]
fn spine_reads_toc_and_properties() {
    let xml = package_with(
        r#"version="2.0""#,
        r#"<spine toc="ncx"><itemref idref="a" properties="page-spread-left"/><itemref idref="b"/></spine>"#,
    );
    let package = Package::new(xml.as_bytes()).unwrap();
    assert_eq!(Some(b"ncx".to_vec()), package.spine.toc);
    assert_eq!(
        vec![
            Itemref {
                idref: b"a".to_vec(),
                properties: Some(PropertiesValue("page-spread-left".into()))
            },
            Itemref { idref: b"b".to_vec(), properties: None },
        ],
        package.spine.itemrefs
    );
}

#[test]
fn a_refinement_is_joined_to_the_item_it_names() {
    let items = metadata_of(
        r#"version="3.0""#,
        r##"<dc:identifier id="pub-id">X</dc:identifier>
            <meta property="dcterms:modified" refines="#pub-id">2024</meta>"##,
    );
    assert_eq!(1, items.len());
    let item = &items[0];
    assert_eq!(Some(b"pub-id".to_vec()), item.id);
    assert_eq!("identifier", item.property);
    assert_eq!("X", item.value);
    assert!(!item.legacy);
    assert_eq!(1, item.refined.len());
    assert_eq!("dcterms:modified", item.refined[0].property);
    assert_eq!("2024", item.refined[0].value);
    assert_eq!(None, item.refined[0].lang);
    assert_eq!(None, item.refined[0].scheme);
}

#[test]
fn a_refinement_may_stand_before_its_item_and_without_hash() {
    let items = metadata_of(
        r#"version="3.0""#,
        r##"<meta property="role" refines="creator" scheme="marc:relators" xml:lang="en">aut</meta>
            <meta property="file-as" refines="#creator">Descartes, René</meta>
            <dc:creator id="creator" xml:lang="fr">René Descartes</dc:creator>"##,
    );
    assert_eq!(1, items.len());
    let item = &items[0];
    assert_eq!("creator", item.property);
    assert_eq!("René Descartes", item.value);
    assert_eq!(Some("fr".to_string()), item.lang);
    assert_eq!(2, item.refined.len());
    assert_eq!("role", item.refined[0].property);
    assert_eq!("aut", item.refined[0].value);
    assert_eq!(Some("marc:relators".to_string()), item.refined[0].scheme);
    assert_eq!(Some("en".to_string()), item.refined[0].lang);
    assert_eq!("file-as", item.refined[1].property);
    assert_eq!("Descartes, René", item.refined[1].value);
}

#[test]
fn a_refinement_that_names_no_item_is_dropped() {
    let items = metadata_of(
        r#"version="3.0""#,
        r##"<dc:title id="t">Title</dc:title>
            <meta property="title-type" refines="#other">main</meta>"##,
    );
    assert_eq!(1, items.len());
    assert!(items[0].refined.is_empty());
}

#[test]
fn refinements_fall_to_the_first_item_with_the_id() {
    let items = metadata_of(
        r#"version="3.0""#,
        r##"<dc:title id="t">One</dc:title>
            <dc:title id="t">Two</dc:title>
            <meta property="title-type" refines="#t">main</meta>"##,
    );
    assert_eq!(2, items.len());
    assert_eq!(1, items[0].refined.len());
    assert!(items[1].refined.is_empty());
}

#[test]
fn a_meta_with_property_and_no_refines_is_an_item() {
    let items = metadata_of(
        r#"version="3.0""#,
        r#"<meta property="dcterms:modified" id="m">2024-01-01</meta>
           <meta id="n">ignored</meta>"#,
    );
    assert_eq!(1, items.len());
    assert_eq!("dcterms:modified", items[0].property);
    assert_eq!("2024-01-01", items[0].value);
    assert_eq!(Some(b"m".to_vec()), items[0].id);
    assert!(!items[0].legacy);
}

#[test]
fn an_empty_meta_with_name_and_content_is_a_legacy_item() {
    let items = metadata_of(
        r#"version="2.0""#,
        r#"<meta name="cover" content="img"/><meta name="only-name"/>"#,
    );
    assert_eq!(1, items.len());
    assert_eq!("cover", items[0].property);
    assert_eq!("img", items[0].value);
    assert!(items[0].legacy);
    assert_eq!(None, items[0].id);
}

#[test]
fn the_value_goes_to_the_item_that_waits_for_it() {
    let items = metadata_of(
        r#"version="3.0""#,
        r#"<dc:title><meta name="n" content="c"/>The Title</dc:title>"#,
    );
    assert_eq!(2, items.len());
    assert_eq!("title", items[0].property);
    assert_eq!("The Title", items[0].value);
    assert_eq!("n", items[1].property);
    assert_eq!("c", items[1].value);
}

#[test]
fn text_is_unescaped_and_trimmed() {
    let items = metadata_of(
        r#"version="3.0""#,
        "<dc:title>\n   Fish &amp; Chips &lt;3   \n</dc:title>",
    );
    assert_eq!("Fish & Chips <3", items[0].value);
}

#[test]
fn attribute_values_are_unescaped() {
    let xml = package_with(
        r#"version="3.0""#,
        r#"<manifest><item id="a" href="a&amp;b.html" media-type="text/html"/></manifest>"#,
    );
    let package = Package::new(xml.as_bytes()).unwrap();
    assert_eq!("a&b.html", package.manifest.get(b"a").unwrap().href);
}

#[test]
fn the_older_dialect_reads_package_attributes_as_refinements() {
    let inner = r#"<dc:creator opf:role="aut" opf:file-as="Doe, J." id="c" xml:lang="en" other="x">J. Doe</dc:creator>"#;
    let old = metadata_of(r#"version="2.0""#, inner);
    assert_eq!(1, old.len());
    assert_eq!(Some(b"c".to_vec()), old[0].id);
    assert_eq!(Some("en".to_string()), old[0].lang);
    assert_eq!("J. Doe", old[0].value);
    assert_eq!(2, old[0].refined.len());
    assert_eq!("role", old[0].refined[0].property);
    assert_eq!("aut", old[0].refined[0].value);
    assert_eq!("file-as", old[0].refined[1].property);
    assert_eq!("Doe, J.", old[0].refined[1].value);
    let new = metadata_of(r#"version="3.0""#, inner);
    assert_eq!(1, new.len());
    assert!(new[0].refined.is_empty());
}

#[test]
fn properties_are_found_as_whole_names() {
    let value = PropertiesValue("nav cover-image  scripted".to_string());
    assert!(value.has("nav"));
    assert!(value.has("cover-image"));
    assert!(value.has("scripted"));
    assert!(value.has(""));
    assert!(!value.has("cover"));
    assert!(!value.has("nav cover-image"));
    assert!(!value.has("image"));
    assert!(PropertiesValue(String::new()).has(""));
    assert!(!PropertiesValue("nav".to_string()).has(""));
    assert!(PropertiesValue("nav ".to_string()).has(""));
    assert!(PropertiesValue("é ü".to_string()).has("ü"));
}

#[test]
fn package_errors_have_their_messages() {
    assert_eq!("EPUB package document is missing or invalid", Error::Generic.message());
    assert_eq!("EPUB package document has invalid manifest", Error::Manifest.message());
    assert_eq!("EPUB package document has invalid spine", Error::Spine.message());
}

#[test]
fn a_font_gets_a_property_named_by_its_bytes() {
    use_font("Noto Serif", "var(--og-font-6e6f746f207365726966)");
    use_font("serif", "var(--og-font-7365726966)");
    use_font("", "var(--og-font-)");
    use_font("ÉA\u{1}", "var(--og-font-c3a96101)");
}

fn use_font(name: &str, expected: &str) {
    assert_eq!(expected, ogier_epub::style::font_custom_property_ref(name));
}

use jornais::extract::extract;
use jornais::model::{Diagnostic, FieldRule, Newspaper, SourceDescriptor};
use jornais::sources::{clarin_descriptor, rosario3_descriptor};

fn descriptor_without_summary() -> SourceDescriptor {
    SourceDescriptor {
        tag: Newspaper::LANACION,
        listing_url: "http://x.test/latest".to_owned(),
        container_selector: "article".to_owned(),
        title: FieldRule { path: Some("h2".to_owned()), attr: None },
        summary: None,
        link: Some(FieldRule { path: Some("a".to_owned()), attr: Some("href".to_owned()) }),
        link_prefix: "http://x.test".to_owned(),
    }
}

#[test]
fn titles_summaries_and_links_are_extracted() {
    let html = r#"<article>
        <h2>Uno</h2>
        <h3 class="summary">Primer resumen</h3>
        <a class="link-new" href="/nota/1">leer</a>
    </article>"#;
    let (items, diagnostics) = extract(html, &clarin_descriptor());
    assert_eq!(items.len(), 1);
    assert_eq!(items[0].title, "Uno");
    assert_eq!(items[0].text, "Primer resumen");
    assert_eq!(items[0].link.as_deref(), Some("/nota/1"));
    assert_eq!(items[0].newspaper, Newspaper::CLARIN);
    assert!(diagnostics.is_empty());
}

#[test]
fn container_without_title_node_is_skipped() {
    let html = r#"
    <article><h2>Uno</h2><h3 class="summary">s1</h3><a class="link-new" href="/1">x</a></article>
    <article><h3 class="summary">s2</h3><a class="link-new" href="/2">x</a></article>
    <article><h2>Tres</h2><h3 class="summary">s3</h3><a class="link-new" href="/3">x</a></article>
    "#;
    let (items, diagnostics) = extract(html, &clarin_descriptor());
    assert_eq!(items.len(), 2);
    assert_eq!(items[0].title, "Uno");
    assert_eq!(items[1].title, "Tres");
    assert_eq!(diagnostics, vec![Diagnostic::MissingTitle(1)]);
}

#[test]
fn container_with_empty_title_is_skipped() {
    let html = r#"
    <article><h2></h2><a class="link-new" href="/1">x</a></article>
    <article><h2>Dos</h2><a class="link-new" href="/2">x</a></article>
    "#;
    let (items, diagnostics) = extract(html, &clarin_descriptor());
    assert_eq!(items.len(), 1);
    assert_eq!(items[0].title, "Dos");
    assert_eq!(diagnostics, vec![Diagnostic::MissingTitle(0)]);
}

#[test]
fn missing_summary_node_yields_empty_summary() {
    let html = r#"<article><h2>Uno</h2><a class="link-new" href="/1">x</a></article>"#;
    let (items, diagnostics) = extract(html, &clarin_descriptor());
    assert_eq!(items.len(), 1);
    assert_eq!(items[0].text, "");
    assert!(diagnostics.is_empty());
}

#[test]
fn missing_link_node_yields_no_link() {
    let html = r#"<article><h2>Uno</h2><h3 class="summary">s</h3></article>"#;
    let (items, _) = extract(html, &clarin_descriptor());
    assert_eq!(items.len(), 1);
    assert_eq!(items[0].link, None);
}

#[test]
fn no_summary_rule_yields_empty_summaries() {
    let html = r#"
    <article><h2>Uno</h2><a href="/1">x</a></article>
    <article><h2>Dos</h2><a href="/2">x</a></article>
    "#;
    let (items, _) = extract(html, &descriptor_without_summary());
    assert_eq!(items.len(), 2);
    assert!(items.iter().all(|i| i.text.is_empty()));
}

#[test]
fn relative_hrefs_are_resolved_against_the_prefix() {
    let html = r#"
    <article><h2>Uno</h2><a href="/nota/1">x</a></article>
    <article><h2>Dos</h2><a href="http://other.test/2">x</a></article>
    "#;
    let (items, _) = extract(html, &descriptor_without_summary());
    assert_eq!(items.len(), 2);
    assert_eq!(items[0].link.as_deref(), Some("http://x.test/nota/1"));
    assert_eq!(items[1].link.as_deref(), Some("http://other.test/2"));
}

#[test]
fn attributes_of_the_container_itself_can_be_read() {
    let html = r#"
    <a class="cover-link" href="/seccion/1" title="Titular uno"></a>
    <a class="cover-link" href="/seccion/2" title="Titular dos"></a>
    "#;
    let (items, diagnostics) = extract(html, &rosario3_descriptor());
    assert_eq!(items.len(), 2);
    assert_eq!(items[0].title, "Titular uno");
    assert_eq!(items[0].link.as_deref(), Some("http://rosario3.com/seccion/1"));
    assert_eq!(items[1].title, "Titular dos");
    assert_eq!(items[1].newspaper, Newspaper::ROSARIO3);
    assert!(diagnostics.is_empty());
}

#[test]
fn no_matching_containers_yields_an_empty_pass() {
    let html = "<div><p>nothing here</p></div>";
    let (items, diagnostics) = extract(html, &clarin_descriptor());
    assert!(items.is_empty());
    assert!(diagnostics.is_empty());
}

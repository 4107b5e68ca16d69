use jornais::dedup::dedupe;
use jornais::extract::extract;
use jornais::model::{Diagnostic, FetchError, Newspaper};
use jornais::pipeline::{run_all, run_pass};
use jornais::sources::{all_descriptors, clarin_descriptor, infobae_descriptor};

const CLARIN_PAGE: &str = r#"
<article><h2>Uno</h2><h3 class="summary">s1</h3><a class="link-new" href="/1">x</a></article>
<article><h2>Dos</h2><h3 class="summary">s2</h3><a class="link-new" href="/2">x</a></article>
"#;

#[test]
fn a_pass_extracts_and_deduplicates() {
    let descriptor = clarin_descriptor();
    let html = r#"
    <article><h2>Uno</h2><h3 class="summary">s1</h3><a class="link-new" href="http://site/a">x</a></article>
    <article><h2>Dos</h2><h3 class="summary">s2</h3><a class="link-new" href="http://site/a">x</a></article>
    "#;
    let pass = run_pass(&descriptor, &Ok(html.to_owned()));
    assert_eq!(pass.newspaper, Newspaper::CLARIN);
    assert_eq!(pass.items.len(), 1);
    assert_eq!(pass.items[0].title, "Uno");
    assert_eq!(pass.items[0].text, "s1");
    assert_eq!(pass.items[0].link.as_deref(), Some("http://site/a"));
    assert!(pass.diagnostics.is_empty());
}

#[test]
fn identical_markup_yields_identical_output_both_times() {
    let descriptor = clarin_descriptor();
    let first = run_pass(&descriptor, &Ok(CLARIN_PAGE.to_owned()));
    let second = run_pass(&descriptor, &Ok(CLARIN_PAGE.to_owned()));
    assert_eq!(first, second);

    let (candidates_a, _) = extract(CLARIN_PAGE, &descriptor);
    let (candidates_b, _) = extract(CLARIN_PAGE, &descriptor);
    assert_eq!(dedupe(candidates_a), dedupe(candidates_b));
}

#[test]
fn a_failed_fetch_yields_an_empty_pass_with_a_diagnostic() {
    let descriptor = clarin_descriptor();
    for error in [FetchError::Network, FetchError::Timeout, FetchError::NonSuccessStatus] {
        let pass = run_pass(&descriptor, &Err(error));
        assert_eq!(pass.newspaper, Newspaper::CLARIN);
        assert!(pass.items.is_empty());
        assert_eq!(pass.diagnostics, vec![Diagnostic::FetchFailed(error)]);
    }
}

#[test]
fn one_failing_source_does_not_affect_the_other() {
    let descriptors = vec![clarin_descriptor(), infobae_descriptor()];
    let both_ok = vec![Ok(CLARIN_PAGE.to_owned()), Ok("<div></div>".to_owned())];
    let second_failed = vec![Ok(CLARIN_PAGE.to_owned()), Err(FetchError::Network)];

    let reference = run_all(&descriptors, &both_ok);
    let with_failure = run_all(&descriptors, &second_failed);

    assert_eq!(with_failure.passes.len(), 2);
    assert_eq!(with_failure.passes[0], reference.passes[0]);
    assert_eq!(with_failure.passes[0].items.len(), 2);
    assert_eq!(with_failure.passes[0].items[0].title, "Uno");
    assert_eq!(with_failure.passes[0].items[1].title, "Dos");

    assert_eq!(with_failure.passes[1].newspaper, Newspaper::INFOBAE);
    assert!(with_failure.passes[1].items.is_empty());
    assert_eq!(
        with_failure.passes[1].diagnostics,
        vec![Diagnostic::FetchFailed(FetchError::Network)]
    );
}

#[test]
fn the_result_has_one_entry_per_configured_source() {
    let descriptors = all_descriptors();
    let fetches: Vec<Result<String, FetchError>> =
        descriptors.iter().map(|_| Err(FetchError::Timeout)).collect();
    let result = run_all(&descriptors, &fetches);
    assert_eq!(result.passes.len(), 5);
    let tags: Vec<Newspaper> = result.passes.iter().map(|p| p.newspaper).collect();
    assert_eq!(
        tags,
        vec![
            Newspaper::CLARIN,
            Newspaper::INFOBAE,
            Newspaper::LANACION,
            Newspaper::LACAPITAL,
            Newspaper::ROSARIO3,
        ]
    );
    for pass in &result.passes {
        assert!(pass.items.is_empty());
        assert_eq!(pass.diagnostics, vec![Diagnostic::FetchFailed(FetchError::Timeout)]);
    }
}

#[test]
fn the_result_can_be_looked_up_by_tag() {
    let descriptors = vec![clarin_descriptor(), infobae_descriptor()];
    let fetches = vec![Ok(CLARIN_PAGE.to_owned()), Err(FetchError::Network)];
    let result = run_all(&descriptors, &fetches);

    let clarin = result.pass_for(Newspaper::CLARIN).unwrap();
    assert_eq!(clarin.items.len(), 2);

    let infobae = result.pass_for(Newspaper::INFOBAE).unwrap();
    assert!(infobae.items.is_empty());

    assert!(result.pass_for(Newspaper::LANACION).is_none());
}

#[test]
fn no_emitted_item_has_an_empty_title_and_no_two_share_a_key() {
    let descriptor = clarin_descriptor();
    let html = r#"
    <article><h2></h2><a class="link-new" href="/1">x</a></article>
    <article><h2>Dos</h2><a class="link-new" href="/2">x</a></article>
    <article><h2>Otra</h2><a class="link-new" href="/2">x</a></article>
    "#;
    let pass = run_pass(&descriptor, &Ok(html.to_owned()));
    assert!(pass.items.iter().all(|i| !i.title.is_empty()));
    let links: Vec<_> = pass.items.iter().map(|i| i.link.clone()).collect();
    for (n, link) in links.iter().enumerate() {
        assert!(!links[n + 1..].contains(link));
    }
    assert_eq!(pass.items.len(), 1);
    assert_eq!(pass.diagnostics, vec![Diagnostic::MissingTitle(0)]);
}

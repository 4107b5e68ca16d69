//! The extraction engine: turns raw markup and a [`SourceDescriptor`]
//! into the ordered sequence of candidate items, recording a diagnostic
//! for every container it skips.

use vstd::prelude::*;

use crate::markup::{
    count_matches, field_value, markup_of, markup_parses, match_count, parse_document, read_field,
};
use crate::model::{
    Diagnostic, FieldRuleView, JournalNew, JournalNewView, SourceDescriptor, SourceDescriptorView,
};
use crate::text::{resolve_link, resolve_link_spec};

verus! {

/// The value one field rule reads for the container at `index`.
pub open spec fn spec_field(
    html: Seq<char>,
    container_selector: Seq<char>,
    index: int,
    rule: FieldRuleView,
) -> Option<Seq<char>> {
    field_value(html, container_selector, index, rule.path, rule.attr)
}

/// The title read for the container at `index`, if any.
pub open spec fn spec_title(html: Seq<char>, d: SourceDescriptorView, index: int) -> Option<
    Seq<char>,
> {
    spec_field(html, d.container_selector, index, d.title)
}

/// The summary of the container at `index`: what the summary rule reads,
/// or the empty string when no rule is configured or the node is missing.
pub open spec fn spec_summary(html: Seq<char>, d: SourceDescriptorView, index: int) -> Seq<char> {
    match d.summary {
        Some(rule) => match spec_field(html, d.container_selector, index, rule) {
            Some(text) => text,
            None => Seq::<char>::empty(),
        },
        None => Seq::<char>::empty(),
    }
}

/// The link of the container at `index`: the href the link rule reads,
/// resolved against the source's prefix; `None` when no rule is
/// configured or the node is missing.
pub open spec fn spec_link(html: Seq<char>, d: SourceDescriptorView, index: int) -> Option<
    Seq<char>,
> {
    match d.link {
        Some(rule) => match spec_field(html, d.container_selector, index, rule) {
            Some(href) => Some(resolve_link_spec(href, d.link_prefix)),
            None => None,
        },
        None => None,
    }
}

/// A container is kept exactly when its title is present and non-empty.
pub open spec fn container_kept(html: Seq<char>, d: SourceDescriptorView, index: int) -> bool {
    match spec_title(html, d, index) {
        Some(title) => title.len() > 0,
        None => false,
    }
}

/// The candidate item built from the container at `index`.
pub open spec fn spec_item(
    html: Seq<char>,
    d: SourceDescriptorView,
    index: int,
) -> JournalNewView
    recommends
        container_kept(html, d, index),
{
    JournalNewView {
        title: match spec_title(html, d, index) {
            Some(title) => title,
            None => Seq::<char>::empty(),
        },
        text: spec_summary(html, d, index),
        link: spec_link(html, d, index),
        newspaper: d.tag,
    }
}

/// The candidates of the first `n` containers, in extraction order.
pub open spec fn spec_candidates(html: Seq<char>, d: SourceDescriptorView, n: int) -> Seq<
    JournalNewView,
>
    decreases n,
{
    if n <= 0 {
        Seq::<JournalNewView>::empty()
    } else {
        let prev = spec_candidates(html, d, n - 1);
        if container_kept(html, d, n - 1) {
            prev.push(spec_item(html, d, n - 1))
        } else {
            prev
        }
    }
}

/// The diagnostics of the first `n` containers: one per skipped container.
pub open spec fn spec_warnings(html: Seq<char>, d: SourceDescriptorView, n: int) -> Seq<Diagnostic>
    decreases n,
{
    if n <= 0 {
        Seq::<Diagnostic>::empty()
    } else {
        let prev = spec_warnings(html, d, n - 1);
        if container_kept(html, d, n - 1) {
            prev
        } else {
            prev.push(Diagnostic::MissingTitle((n - 1) as usize))
        }
    }
}

/// How many containers the markup offers to this descriptor.
pub open spec fn spec_container_count(html: Seq<char>, d: SourceDescriptorView) -> int {
    match_count(html, d.container_selector) as int
}

/// Extracts the candidate items of one page for one source.
///
/// When the markup parses, the candidates of every container with a
/// present, non-empty title come back in extraction order, each skipped
/// container leaving one diagnostic; when it does not parse, the
/// candidate sequence is empty and a single diagnostic says so.
pub fn extract(html: &str, descriptor: &SourceDescriptor) -> (r: (Vec<JournalNew>, Vec<
    Diagnostic,
>))
    ensures
        markup_parses(html@) ==> r.0.deep_view() == spec_candidates(
            html@,
            descriptor@,
            spec_container_count(html@, descriptor@),
        ),
        markup_parses(html@) ==> r.1@ == spec_warnings(
            html@,
            descriptor@,
            spec_container_count(html@, descriptor@),
        ),
        !markup_parses(html@) ==> r.0.deep_view() == Seq::<JournalNewView>::empty(),
        !markup_parses(html@) ==> r.1@ == seq![Diagnostic::MarkupUnparsable],
{
    let mut items: Vec<JournalNew> = Vec::new();
    let mut diagnostics: Vec<Diagnostic> = Vec::new();
    let parsed = parse_document(html);
    match parsed {
        None => {
            diagnostics.push(Diagnostic::MarkupUnparsable);
            proof {
                assert(items.deep_view() =~= Seq::<JournalNewView>::empty());
                assert(diagnostics@ =~= seq![Diagnostic::MarkupUnparsable]);
            }
            (items, diagnostics)
        },
        Some(dom) => {
            let n = count_matches(&dom, descriptor.container_selector.as_str());
            let mut i: usize = 0;
            while i < n
                invariant
                    i <= n,
                    markup_parses(html@),
                    markup_of(dom) == html@,
                    n == match_count(html@, descriptor@.container_selector),
                    items.deep_view() == spec_candidates(html@, descriptor@, i as int),
                    diagnostics@ == spec_warnings(html@, descriptor@, i as int),
                decreases n - i,
            {
                let ghost prev_items = items.deep_view();
                let ghost prev_diags = diagnostics@;
                let title_opt = read_field(
                    &dom,
                    descriptor.container_selector.as_str(),
                    i,
                    &descriptor.title.path,
                    &descriptor.title.attr,
                );
                let mut kept = false;
                match title_opt {
                    Some(title) => {
                        if !title.as_str().is_empty() {
                            kept = true;
                            let text = match &descriptor.summary {
                                Some(rule) => {
                                    match read_field(
                                        &dom,
                                        descriptor.container_selector.as_str(),
                                        i,
                                        &rule.path,
                                        &rule.attr,
                                    ) {
                                        Some(text) => text,
                                        None => String::new(),
                                    }
                                },
                                None => String::new(),
                            };
                            let link = match &descriptor.link {
                                Some(rule) => {
                                    match read_field(
                                        &dom,
                                        descriptor.container_selector.as_str(),
                                        i,
                                        &rule.path,
                                        &rule.attr,
                                    ) {
                                        Some(href) => Some(
                                            resolve_link(
                                                href.as_str(),
                                                descriptor.link_prefix.as_str(),
                                            ),
                                        ),
                                        None => None,
                                    }
                                },
                                None => None,
                            };
                            let item = JournalNew {
                                title,
                                text,
                                link,
                                newspaper: descriptor.tag,
                            };
                            proof {
                                assert(item@ == spec_item(html@, descriptor@, i as int));
                            }
                            items.push(item);
                        } else {
                            diagnostics.push(Diagnostic::MissingTitle(i));
                        }
                    },
                    None => {
                        diagnostics.push(Diagnostic::MissingTitle(i));
                    },
                }
                proof {
                    assert(container_kept(html@, descriptor@, i as int) == kept);
                    if kept {
                        assert(items.deep_view() =~= prev_items.push(
                            spec_item(html@, descriptor@, i as int),
                        ));
                    }
                    assert(items.deep_view() == spec_candidates(
                        html@,
                        descriptor@,
                        i as int + 1,
                    ));
                    assert(diagnostics@ == spec_warnings(html@, descriptor@, i as int + 1));
                }
                i = i + 1;
            }
            (items, diagnostics)
        },
    }
}

} // verus!

//! The markup-query capability, backed by the `tl` crate.
//!
//! A parsed document is held as a `tl::VDom`. The document tree and every
//! query on it are deterministic functions of the raw markup and of the
//! query, so the results of the queries the extraction engine makes are
//! given names here: `match_count` and `field_value` stand for whatever
//! `tl` answers on the named markup. The extraction logic is verified
//! against those names; nothing more is claimed about the answers.

use vstd::prelude::*;

verus! {

#[verifier::external_type_specification]
#[verifier::external_body]
pub struct ExVDom<'a>(tl::VDom<'a>);

/// Whether `tl::parse` accepts the markup at all.
pub uninterp spec fn markup_parses(html: Seq<char>) -> bool;

/// The raw markup a document was parsed from.
pub uninterp spec fn markup_of(dom: tl::VDom) -> Seq<char>;

/// How many nodes of the document match a selector, in document order.
pub uninterp spec fn match_count(html: Seq<char>, selector: Seq<char>) -> usize;

/// The value the markup-query capability reads for one container:
/// the container is the node at `index` (in document order) among those
/// matching `container_selector`; `path` names a selector resolved inside
/// it (the container itself when absent); `attr` names an attribute of the
/// resolved node (its inner text when absent). `None` stands for a missing
/// node or attribute.
pub uninterp spec fn field_value(
    html: Seq<char>,
    container_selector: Seq<char>,
    index: int,
    path: Option<Seq<char>>,
    attr: Option<Seq<char>>,
) -> Option<Seq<char>>;

/// Relies on `tl::parse`: parsing is deterministic in the input markup,
/// and fails only on input it rejects outright.
#[verifier::external_body]
pub(crate) fn parse_document(html: &str) -> (r: Option<tl::VDom<'_>>)
    ensures
        (r is Some) == markup_parses(html@),
        r matches Some(dom) ==> markup_of(dom) == html@,
{
    tl::parse(html, tl::ParserOptions::default()).ok()
}

/// Relies on `tl::VDom::query_selector`: the matches of a selector are a
/// function of the parsed markup and the selector; an unparsable selector
/// matches nothing.
#[verifier::external_body]
pub(crate) fn count_matches(dom: &tl::VDom, selector: &str) -> (r: usize)
    ensures
        r == match_count(markup_of(*dom), selector@),
{
    match dom.query_selector(selector) {
        Some(iter) => iter.count(),
        None => 0,
    }
}

/// Relies on `tl::VDom::query_selector`, `tl::NodeHandle::get`,
/// `tl::Node::as_tag`, `tl::HTMLTag::query_selector`,
/// `tl::Node::inner_text` and `tl::Attributes::get`: each answer is a
/// function of the parsed markup and of the query made, so the value read
/// for a container field is `field_value` of the markup and the query.
#[verifier::external_body]
pub(crate) fn read_field(
    dom: &tl::VDom,
    container_selector: &str,
    index: usize,
    path: &Option<String>,
    attr: &Option<String>,
) -> (r: Option<String>)
    ensures
        r.deep_view() == field_value(
            markup_of(*dom),
            container_selector@,
            index as int,
            path.deep_view(),
            attr.deep_view(),
        ),
{
    let parser = dom.parser();
    let node = dom.query_selector(container_selector)?.nth(index)?.get(parser)?;
    let target = match path {
        Some(p) => node.as_tag()?.query_selector(parser, p.as_str())?.next()?.get(parser)?,
        None => node,
    };
    match attr {
        Some(a) => Some(target.as_tag()?.attributes().get(a.as_str())??.as_utf8_str().into_owned()),
        None => Some(target.inner_text(parser).into_owned()),
    }
}

} // verus!

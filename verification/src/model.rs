//! Data model: newspapers, extracted items, and connection settings.

use vstd::prelude::*;

verus! {

/// The newspapers this pipeline knows how to read.
#[derive(Debug, Clone, Copy, PartialEq, Eq, Structural)]
pub enum Newspaper {
    CLARIN,
    LANACION,
    ROSARIO3,
    INFOBAE,
    LACAPITAL,
}

impl Newspaper {
    /// The tag of a newspaper: a short lower-case name that identifies it
    /// in sinks (console output, stored rows, rendered markup).
    pub open spec fn tag_spec(self) -> Seq<char> {
        match self {
            Newspaper::CLARIN => "clarin"@,
            Newspaper::LANACION => "lanacion"@,
            Newspaper::ROSARIO3 => "rosario3"@,
            Newspaper::INFOBAE => "infobae"@,
            Newspaper::LACAPITAL => "lacapital"@,
        }
    }

    /// Returns the newspaper's tag.
    pub fn tag(&self) -> (r: &'static str)
        ensures
            r@ == self.tag_spec(),
    {
        match self {
            Newspaper::CLARIN => "clarin",
            Newspaper::LANACION => "lanacion",
            Newspaper::ROSARIO3 => "rosario3",
            Newspaper::INFOBAE => "infobae",
            Newspaper::LACAPITAL => "lacapital",
        }
    }
}

/// One extracted news entry: a title, a summary text (possibly empty),
/// an optional absolute link, and the newspaper it came from.
#[derive(Debug, Clone, PartialEq, Eq)]
pub struct JournalNew {
    pub title: String,
    pub text: String,
    pub link: Option<String>,
    pub newspaper: Newspaper,
}

/// The mathematical value of a [`JournalNew`].
pub struct JournalNewView {
    pub title: Seq<char>,
    pub text: Seq<char>,
    pub link: Option<Seq<char>>,
    pub newspaper: Newspaper,
}

impl View for JournalNew {
    type V = JournalNewView;

    open spec fn view(&self) -> JournalNewView {
        JournalNewView {
            title: self.title@,
            text: self.text@,
            link: match self.link {
                Some(l) => Some(l@),
                None => None,
            },
            newspaper: self.newspaper,
        }
    }
}

impl DeepView for JournalNew {
    type V = JournalNewView;

    open spec fn deep_view(&self) -> JournalNewView {
        self.view()
    }
}

impl JournalNew {
    /// An equal copy of this item.
    pub fn duplicate(&self) -> (r: JournalNew)
        ensures
            r@ == self@,
    {
        JournalNew {
            title: self.title.clone(),
            text: self.text.clone(),
            link: match &self.link {
                Some(link) => Some(link.clone()),
                None => None,
            },
            newspaper: self.newspaper,
        }
    }
}

/// Settings used by callers to reach the relational sink.
#[derive(Debug, Clone)]
pub struct DBInfo {
    pub user: String,
    pub password: String,
    pub name: String,
    pub port: String,
}

/// How one field of a news item is read from a container node.
#[derive(Debug, Clone)]
pub struct FieldRule {
    /// Selector of the node to read, resolved inside the container;
    /// the container node itself when absent.
    pub path: Option<String>,
    /// Attribute of the resolved node to read; its inner text when absent.
    pub attr: Option<String>,
}

/// The mathematical value of a [`FieldRule`].
pub struct FieldRuleView {
    pub path: Option<Seq<char>>,
    pub attr: Option<Seq<char>>,
}

impl View for FieldRule {
    type V = FieldRuleView;

    open spec fn view(&self) -> FieldRuleView {
        FieldRuleView { path: self.path.deep_view(), attr: self.attr.deep_view() }
    }
}

impl DeepView for FieldRule {
    type V = FieldRuleView;

    open spec fn deep_view(&self) -> FieldRuleView {
        self.view()
    }
}

/// Declarative per-site extraction rules: where one newspaper's listing
/// page lives and how its containers are turned into news items.
#[derive(Debug, Clone)]
pub struct SourceDescriptor {
    /// The newspaper this descriptor reads.
    pub tag: Newspaper,
    /// URL of the "latest news" listing page.
    pub listing_url: String,
    /// Selector matching one node per candidate item.
    pub container_selector: String,
    /// Where the mandatory title is read; a container whose title is
    /// missing or empty is skipped.
    pub title: FieldRule,
    /// Where the summary is read; when absent, or when the node is
    /// missing, the summary is the empty string.
    pub summary: Option<FieldRule>,
    /// Where the link is read; when absent, or when the node is missing,
    /// the item carries no link.
    pub link: Option<FieldRule>,
    /// Prefix put in front of relative hrefs (may be empty).
    pub link_prefix: String,
}

/// The mathematical value of a [`SourceDescriptor`].
pub struct SourceDescriptorView {
    pub tag: Newspaper,
    pub listing_url: Seq<char>,
    pub container_selector: Seq<char>,
    pub title: FieldRuleView,
    pub summary: Option<FieldRuleView>,
    pub link: Option<FieldRuleView>,
    pub link_prefix: Seq<char>,
}

impl View for SourceDescriptor {
    type V = SourceDescriptorView;

    open spec fn view(&self) -> SourceDescriptorView {
        SourceDescriptorView {
            tag: self.tag,
            listing_url: self.listing_url@,
            container_selector: self.container_selector@,
            title: self.title@,
            summary: self.summary.deep_view(),
            link: self.link.deep_view(),
            link_prefix: self.link_prefix@,
        }
    }
}

impl DeepView for SourceDescriptor {
    type V = SourceDescriptorView;

    open spec fn deep_view(&self) -> SourceDescriptorView {
        self.view()
    }
}

/// Why a fetch produced no page text.
#[derive(Debug, Clone, Copy, PartialEq, Eq, Structural)]
pub enum FetchError {
    /// The connection failed.
    Network,
    /// The bounded per-fetch timeout elapsed.
    Timeout,
    /// The server answered with a non-success status.
    NonSuccessStatus,
}

/// A non-fatal condition met during one source's pass.
#[derive(Debug, Clone, Copy, PartialEq, Eq, Structural)]
pub enum Diagnostic {
    /// The page could not be fetched; the pass is empty.
    FetchFailed(FetchError),
    /// The page text could not be parsed into a tree; the pass is empty.
    MarkupUnparsable,
    /// The container at this index (in match order) lacks a title and
    /// was skipped.
    MissingTitle(usize),
}

/// One source's result for one invocation: the extracted, deduplicated
/// items in extraction order, plus the non-fatal diagnostics of the pass.
#[derive(Debug, Clone, PartialEq, Eq)]
pub struct ExtractionPassResult {
    /// The newspaper this pass read.
    pub newspaper: Newspaper,
    /// The items, in extraction order, no two sharing a dedup key.
    pub items: Vec<JournalNew>,
    /// What was skipped or failed, in the order it was met.
    pub diagnostics: Vec<Diagnostic>,
}

/// The mathematical value of an [`ExtractionPassResult`].
pub struct ExtractionPassResultView {
    pub newspaper: Newspaper,
    pub items: Seq<JournalNewView>,
    pub diagnostics: Seq<Diagnostic>,
}

impl View for ExtractionPassResult {
    type V = ExtractionPassResultView;

    open spec fn view(&self) -> ExtractionPassResultView {
        ExtractionPassResultView {
            newspaper: self.newspaper,
            items: self.items.deep_view(),
            diagnostics: self.diagnostics@,
        }
    }
}

impl DeepView for ExtractionPassResult {
    type V = ExtractionPassResultView;

    open spec fn deep_view(&self) -> ExtractionPassResultView {
        self.view()
    }
}

/// The joined result of one invocation: exactly one pass per configured
/// descriptor, in the descriptors' order.
#[derive(Debug, Clone)]
pub struct OrchestratorResult {
    pub passes: Vec<ExtractionPassResult>,
}

/// The first pass of `s` belonging to `tag`, if any.
pub open spec fn spec_pass_for(s: Seq<ExtractionPassResult>, tag: Newspaper) -> Option<
    ExtractionPassResult,
>
    decreases s.len(),
{
    if s.len() == 0 {
        None
    } else if s[0].newspaper == tag {
        Some(s[0])
    } else {
        spec_pass_for(s.drop_first(), tag)
    }
}

/// A prefix of passes with other tags does not change the lookup.
proof fn lemma_pass_for_skip(s: Seq<ExtractionPassResult>, tag: Newspaper, k: int)
    requires
        0 <= k <= s.len(),
        forall|j: int| 0 <= j < k ==> (#[trigger] s[j]).newspaper != tag,
    ensures
        spec_pass_for(s, tag) == spec_pass_for(s.subrange(k, s.len() as int), tag),
    decreases k,
{
    if k == 0 {
        assert(s.subrange(0, s.len() as int) =~= s);
    } else {
        let t = s.drop_first();
        assert(forall|j: int| 0 <= j < k - 1 ==> (#[trigger] t[j]).newspaper != tag);
        lemma_pass_for_skip(t, tag, k - 1);
        assert(t.subrange(k - 1, t.len() as int) =~= s.subrange(k, s.len() as int));
    }
}

impl OrchestratorResult {
    /// Looks the mapping up by source tag: the first pass of the given
    /// newspaper, or `None` when no such source was configured.
    pub fn pass_for(&self, tag: Newspaper) -> (r: Option<&ExtractionPassResult>)
        ensures
            match r {
                Some(pass) => spec_pass_for(self.passes@, tag) == Some(*pass),
                None => spec_pass_for(self.passes@, tag) is None,
            },
    {
        let mut i: usize = 0;
        while i < self.passes.len()
            invariant
                i <= self.passes@.len(),
                forall|j: int| 0 <= j < i ==> (#[trigger] self.passes@[j]).newspaper != tag,
            decreases self.passes@.len() - i,
        {
            if self.passes[i].newspaper == tag {
                proof {
                    lemma_pass_for_skip(self.passes@, tag, i as int);
                    let rest = self.passes@.subrange(i as int, self.passes@.len() as int);
                    assert(rest[0] == self.passes@[i as int]);
                }
                return Some(&self.passes[i]);
            }
            i = i + 1;
        }
        proof {
            lemma_pass_for_skip(self.passes@, tag, self.passes@.len() as int);
        }
        None
    }
}

} // verus!

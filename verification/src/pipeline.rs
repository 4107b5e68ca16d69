//! The source adapter and the orchestrator: one pass composes extraction
//! and deduplication on a fetch outcome; the orchestrator joins every
//! configured source's pass into one result, isolating failures.
//!
//! Fetching itself is a pure I/O boundary and stays with the caller: a
//! pass takes the fetch outcome — page text, or a [`FetchError`] — as a
//! value, so one source's failure cannot reach another's pass.

use vstd::prelude::*;

use crate::dedup::{dedup_spec, dedupe, distinct_keys, lemma_dedup_membership};
use crate::extract::{
    container_kept, extract, spec_candidates, spec_container_count, spec_item, spec_warnings,
};
use crate::markup::markup_parses;
use crate::model::{
    Diagnostic, ExtractionPassResult, ExtractionPassResultView, FetchError, JournalNewView,
    OrchestratorResult, SourceDescriptor, SourceDescriptorView,
};

verus! {

/// The mathematical value of a fetch outcome.
pub open spec fn fetch_view(f: Result<String, FetchError>) -> Result<Seq<char>, FetchError> {
    match f {
        Ok(html) => Ok(html@),
        Err(e) => Err(e),
    }
}

/// The mathematical values of a sequence of fetch outcomes.
pub open spec fn fetches_view(fs: Seq<Result<String, FetchError>>) -> Seq<
    Result<Seq<char>, FetchError>,
> {
    Seq::new(fs.len(), |i: int| fetch_view(fs[i]))
}

/// One source's expected pass on successfully fetched markup.
pub open spec fn pass_markup_spec(html: Seq<char>, d: SourceDescriptorView) -> ExtractionPassResultView {
    if markup_parses(html) {
        ExtractionPassResultView {
            newspaper: d.tag,
            items: dedup_spec(spec_candidates(html, d, spec_container_count(html, d))),
            diagnostics: spec_warnings(html, d, spec_container_count(html, d)),
        }
    } else {
        ExtractionPassResultView {
            newspaper: d.tag,
            items: Seq::<JournalNewView>::empty(),
            diagnostics: seq![Diagnostic::MarkupUnparsable],
        }
    }
}

/// One source's expected pass given its fetch outcome.
pub open spec fn pass_spec(f: Result<Seq<char>, FetchError>, d: SourceDescriptorView) -> ExtractionPassResultView {
    match f {
        Ok(html) => pass_markup_spec(html, d),
        Err(e) => ExtractionPassResultView {
            newspaper: d.tag,
            items: Seq::<JournalNewView>::empty(),
            diagnostics: seq![Diagnostic::FetchFailed(e)],
        },
    }
}

/// The expected orchestrator result: one pass per descriptor, in order.
pub open spec fn all_passes_spec(
    fs: Seq<Result<Seq<char>, FetchError>>,
    ds: Seq<SourceDescriptorView>,
) -> Seq<ExtractionPassResultView>
    recommends
        fs.len() == ds.len(),
{
    Seq::new(ds.len(), |i: int| pass_spec(fs[i], ds[i]))
}

/// Law: every candidate of an extraction pass has a non-empty title.
pub proof fn lemma_candidates_titles_nonempty(html: Seq<char>, d: SourceDescriptorView, n: int)
    ensures
        forall|i: int|
            0 <= i < spec_candidates(html, d, n).len() ==> (#[trigger] spec_candidates(
                html,
                d,
                n,
            )[i]).title.len() > 0,
    decreases n,
{
    if n > 0 {
        lemma_candidates_titles_nonempty(html, d, n - 1);
        let prev = spec_candidates(html, d, n - 1);
        let cur = spec_candidates(html, d, n);
        assert forall|i: int| 0 <= i < cur.len() implies (#[trigger] cur[i]).title.len() > 0 by {
            if container_kept(html, d, n - 1) && i == prev.len() {
                assert(cur[i] == spec_item(html, d, n - 1));
            } else {
                assert(cur[i] == prev[i]);
                assert(prev[i].title.len() > 0);
            }
        }
    }
}

/// Law: every emitted item of a pass has a non-empty title; a container
/// with a missing or empty title is absent from the output.
pub proof fn lemma_pass_titles_nonempty(f: Result<Seq<char>, FetchError>, d: SourceDescriptorView)
    ensures
        forall|i: int|
            0 <= i < pass_spec(f, d).items.len() ==> (#[trigger] pass_spec(f, d).items[i]).title.len()
                > 0,
{
    if f is Ok && markup_parses(f->Ok_0) {
        let html = f->Ok_0;
        let n = spec_container_count(html, d);
        let candidates = spec_candidates(html, d, n);
        lemma_candidates_titles_nonempty(html, d, n);
        lemma_dedup_membership(candidates, candidates.len() as int);
        assert(candidates.subrange(0, candidates.len() as int) =~= candidates);
        let items = pass_spec(f, d).items;
        assert forall|i: int| 0 <= i < items.len() implies (#[trigger] items[i]).title.len()
            > 0 by {
            let j = choose|j: int|
                0 <= j < candidates.len() && #[trigger] dedup_spec(candidates)[i] == candidates[j];
            assert(candidates[j].title.len() > 0);
        }
    }
}

/// Law: with no summary rule configured, every candidate's summary is
/// the empty string.
pub proof fn lemma_candidates_no_summary(html: Seq<char>, d: SourceDescriptorView, n: int)
    requires
        d.summary is None,
    ensures
        forall|i: int|
            0 <= i < spec_candidates(html, d, n).len() ==> (#[trigger] spec_candidates(
                html,
                d,
                n,
            )[i]).text.len() == 0,
    decreases n,
{
    if n > 0 {
        lemma_candidates_no_summary(html, d, n - 1);
        let prev = spec_candidates(html, d, n - 1);
        let cur = spec_candidates(html, d, n);
        assert forall|i: int| 0 <= i < cur.len() implies (#[trigger] cur[i]).text.len() == 0 by {
            if container_kept(html, d, n - 1) && i == prev.len() {
                assert(cur[i] == spec_item(html, d, n - 1));
            } else {
                assert(cur[i] == prev[i]);
                assert(prev[i].text.len() == 0);
            }
        }
    }
}

/// Law: with no summary rule configured, every emitted item's summary is
/// the empty string.
pub proof fn lemma_pass_no_summary(f: Result<Seq<char>, FetchError>, d: SourceDescriptorView)
    requires
        d.summary is None,
    ensures
        forall|i: int|
            0 <= i < pass_spec(f, d).items.len() ==> (#[trigger] pass_spec(f, d).items[i]).text.len()
                == 0,
{
    if f is Ok && markup_parses(f->Ok_0) {
        let html = f->Ok_0;
        let n = spec_container_count(html, d);
        let candidates = spec_candidates(html, d, n);
        lemma_candidates_no_summary(html, d, n);
        lemma_dedup_membership(candidates, candidates.len() as int);
        let items = pass_spec(f, d).items;
        assert forall|i: int| 0 <= i < items.len() implies (#[trigger] items[i]).text.len()
            == 0 by {
            let j = choose|j: int|
                0 <= j < candidates.len() && #[trigger] dedup_spec(candidates)[i] == candidates[j];
            assert(candidates[j].text.len() == 0);
        }
    }
}

/// Law: extraction and deduplication are deterministic: identical raw
/// markup run through the engine and the deduplicator twice yields
/// identical ordered output both times.
pub proof fn lemma_pass_deterministic(
    html1: Seq<char>,
    html2: Seq<char>,
    d: SourceDescriptorView,
)
    requires
        html1 == html2,
    ensures
        pass_markup_spec(html1, d) == pass_markup_spec(html2, d),
{
}

/// Law: one source's failure is isolated. Two invocations whose fetch
/// outcomes differ only at the failing source agree on every other
/// source's pass, and the failing source's pass is an empty sequence
/// with a diagnostic naming the failure.
pub proof fn lemma_failure_isolated(
    fs1: Seq<Result<Seq<char>, FetchError>>,
    fs2: Seq<Result<Seq<char>, FetchError>>,
    ds: Seq<SourceDescriptorView>,
    b: int,
    e: FetchError,
)
    requires
        fs1.len() == ds.len(),
        fs2.len() == ds.len(),
        0 <= b < ds.len(),
        forall|i: int| 0 <= i < ds.len() && i != b ==> fs1[i] == fs2[i],
        fs2[b] == Result::<Seq<char>, FetchError>::Err(e),
    ensures
        forall|i: int|
            0 <= i < ds.len() && i != b ==> all_passes_spec(fs1, ds)[i] == all_passes_spec(
                fs2,
                ds,
            )[i],
        all_passes_spec(fs2, ds)[b].newspaper == ds[b].tag,
        all_passes_spec(fs2, ds)[b].items == Seq::<JournalNewView>::empty(),
        all_passes_spec(fs2, ds)[b].diagnostics == seq![Diagnostic::FetchFailed(e)],
{
}

/// Runs the in-memory part of one source's pass on its fetch outcome:
/// extraction on success, an empty result with a diagnostic on failure.
/// No two returned items share a dedup key, and every returned item has
/// a non-empty title.
pub fn run_pass(descriptor: &SourceDescriptor, fetched: &Result<String, FetchError>) -> (r:
    ExtractionPassResult)
    ensures
        r@ == pass_spec(fetch_view(*fetched), descriptor@),
        r.newspaper == descriptor.tag,
        distinct_keys(r@.items),
        forall|i: int| 0 <= i < r@.items.len() ==> (#[trigger] r@.items[i]).title.len() > 0,
{
    let r = match fetched {
        Ok(html) => {
            let (candidates, diagnostics) = extract(html.as_str(), descriptor);
            let items = dedupe(candidates);
            ExtractionPassResult { newspaper: descriptor.tag, items, diagnostics }
        },
        Err(e) => {
            let mut diagnostics: Vec<Diagnostic> = Vec::new();
            diagnostics.push(Diagnostic::FetchFailed(*e));
            let items: Vec<crate::model::JournalNew> = Vec::new();
            proof {
                assert(items.deep_view() =~= Seq::<JournalNewView>::empty());
                assert(diagnostics@ =~= seq![Diagnostic::FetchFailed(*e)]);
            }
            ExtractionPassResult { newspaper: descriptor.tag, items, diagnostics }
        },
    };
    proof {
        lemma_pass_titles_nonempty(fetch_view(*fetched), descriptor@);
        if fetch_view(*fetched) matches Err(e) {
            assert(distinct_keys(r@.items));
        }
    }
    r
}

/// Joins every configured source's pass into one result: exactly one
/// entry per descriptor, in the descriptors' order, each entry a
/// function of its own descriptor and fetch outcome alone.
pub fn run_all(descriptors: &Vec<SourceDescriptor>, fetches: &Vec<Result<String, FetchError>>) -> (r:
    OrchestratorResult)
    requires
        fetches@.len() == descriptors@.len(),
    ensures
        r.passes.deep_view() == all_passes_spec(fetches_view(fetches@), descriptors.deep_view()),
        r.passes@.len() == descriptors@.len(),
        forall|i: int|
            0 <= i < descriptors@.len() ==> (#[trigger] r.passes.deep_view()[i]).newspaper
                == descriptors@[i].tag,
{
    let mut passes: Vec<ExtractionPassResult> = Vec::new();
    let mut i: usize = 0;
    while i < descriptors.len()
        invariant
            i <= descriptors@.len(),
            fetches@.len() == descriptors@.len(),
            passes@.len() == i as int,
            forall|k: int|
                0 <= k < i ==> #[trigger] passes.deep_view()[k] == pass_spec(
                    fetch_view(fetches@[k]),
                    descriptors@[k]@,
                ),
        decreases descriptors@.len() - i,
    {
        let ghost prev = passes.deep_view();
        let pass = run_pass(&descriptors[i], &fetches[i]);
        passes.push(pass);
        proof {
            assert(passes.deep_view() =~= prev.push(pass@));
        }
        i = i + 1;
    }
    proof {
        assert(passes.deep_view() =~= all_passes_spec(
            fetches_view(fetches@),
            descriptors.deep_view(),
        ));
    }
    OrchestratorResult { passes }
}

} // verus!


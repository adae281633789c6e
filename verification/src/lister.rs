//! Selection of the first successful listing page. The listing call
//! consumes response pages until one succeeds, returns exactly that
//! page's entries and stops requesting further pages; each failed page
//! contributes one diagnostic, and a stream with no successful page
//! yields an empty collection. The returned entries may therefore cover
//! only one page of the bucket, never an accumulation of several.

use vstd::prelude::*;
use crate::summary::ObjectSummary;

verus! {

/// What one listing page request came back with: the page's entries, or
/// a diagnostic describing its failure.
pub enum PageOutcome {
    Entries(Vec<ObjectSummary>),
    Failure(String),
}

/// The entries of the first successful page, or an empty sequence where
/// no page succeeds.
pub open spec fn listing_entries(pages: Seq<PageOutcome>) -> Seq<ObjectSummary>
    decreases pages.len(),
{
    if pages.len() == 0 {
        Seq::empty()
    } else {
        match pages[0] {
            PageOutcome::Entries(v) => v@,
            PageOutcome::Failure(_) => listing_entries(pages.drop_first()),
        }
    }
}

/// The diagnostics of the failed pages before the first successful one,
/// in order; of every page where none succeeds.
pub open spec fn logged_failures(pages: Seq<PageOutcome>) -> Seq<Seq<char>>
    decreases pages.len(),
{
    if pages.len() == 0 {
        Seq::empty()
    } else {
        match pages[0] {
            PageOutcome::Entries(_) => Seq::empty(),
            PageOutcome::Failure(e) => seq![e@] + logged_failures(pages.drop_first()),
        }
    }
}

/// How many pages are requested: every page up to and including the
/// first successful one, or every page where none succeeds.
pub open spec fn pages_requested(pages: Seq<PageOutcome>) -> nat
    decreases pages.len(),
{
    if pages.len() == 0 {
        0
    } else if pages[0] is Entries {
        1
    } else {
        1 + pages_requested(pages.drop_first())
    }
}

/// What the listing loop does with one page outcome: a successful page
/// finishes the listing with exactly that page's entries; a failed page
/// has its diagnostic logged and the loop requests the next page.
pub enum PageStep {
    Finish(Vec<ObjectSummary>),
    LogAndContinue(String),
}

/// Decides one round of the listing loop.
pub fn lister_step(page: PageOutcome) -> (r: PageStep)
    ensures
        page matches PageOutcome::Entries(v) ==> r matches PageStep::Finish(w) && w@ == v@,
        page matches PageOutcome::Failure(e) ==> r matches PageStep::LogAndContinue(d) && d@ == e@,
{
    match page {
        PageOutcome::Entries(v) => PageStep::Finish(v),
        PageOutcome::Failure(e) => PageStep::LogAndContinue(e),
    }
}

/// What one listing call came to: the entries returned, the diagnostics
/// logged, and how many pages were requested.
pub struct ListReport {
    pub entries: Vec<ObjectSummary>,
    pub logged: Vec<String>,
    pub pages_requested: usize,
}

/// Runs the listing loop over the given page outcomes: requests pages
/// until the first successful one, returns exactly its entries, and logs
/// one diagnostic per failed page seen.
#[verifier::loop_isolation(false)]
pub fn first_successful_page(pages: Vec<PageOutcome>) -> (r: ListReport)
    ensures
        r.entries@ == listing_entries(pages@),
        r.logged.deep_view() == logged_failures(pages@),
        r.pages_requested == pages_requested(pages@),
{
    let ghost all = pages@;
    let mut rest = pages;
    let mut logged: Vec<String> = Vec::new();
    let mut requested: usize = 0;
    let bound: usize = rest.len();
    while rest.len() > 0
        invariant
            requested + rest@.len() <= bound,
            listing_entries(all) == listing_entries(rest@),
            logged_failures(all) =~= logged.deep_view() + logged_failures(rest@),
            pages_requested(all) == requested + pages_requested(rest@),
        decreases rest@.len(),
    {
        let ghost before = rest@;
        let head = rest.remove(0);
        proof {
            assert(rest@ =~= before.drop_first());
        }
        requested = requested + 1;
        match lister_step(head) {
            PageStep::Finish(entries) => {
                proof {
                    assert(before[0] == head);
                    assert(listing_entries(before) == entries@);
                    assert(logged_failures(before) =~= Seq::<Seq<char>>::empty());
                    assert(logged_failures(all) =~= logged.deep_view());
                    assert(pages_requested(before) == 1);
                }
                return ListReport { entries, logged, pages_requested: requested };
            },
            PageStep::LogAndContinue(diagnostic) => {
                let ghost logged_before = logged.deep_view();
                let ghost diag = diagnostic@;
                logged.push(diagnostic);
                proof {
                    assert(before[0] == head);
                    assert(logged_failures(before) =~= seq![head->Failure_0@] + logged_failures(
                        rest@,
                    ));
                    assert(logged.deep_view() =~= logged_before.push(diag));
                    assert(logged_failures(all) =~= logged.deep_view() + logged_failures(rest@));
                }
            },
        }
    }
    proof {
        assert(logged_failures(all) =~= logged.deep_view());
    }
    ListReport { entries: Vec::new(), logged, pages_requested: requested }
}

/// Law: where the first page succeeds, the listing is exactly that
/// page's entries, one page is requested, and nothing is logged.
pub proof fn lemma_first_page_success(pages: Seq<PageOutcome>, v: Vec<ObjectSummary>)
    requires
        pages.len() > 0,
        pages[0] == PageOutcome::Entries(v),
    ensures
        listing_entries(pages) == v@,
        pages_requested(pages) == 1,
        logged_failures(pages) == Seq::<Seq<char>>::empty(),
{
}

/// Law: where the first `n` pages fail and page `n` succeeds, the
/// listing is exactly page `n`'s entries, `n` diagnostics are logged,
/// one per failed page in order, and `n + 1` pages are requested.
pub proof fn lemma_failures_then_success(pages: Seq<PageOutcome>, n: int, v: Vec<ObjectSummary>)
    requires
        0 <= n < pages.len(),
        forall|j: int| 0 <= j < n ==> pages[j] is Failure,
        pages[n] == PageOutcome::Entries(v),
    ensures
        listing_entries(pages) == v@,
        logged_failures(pages).len() == n,
        forall|j: int| 0 <= j < n ==> logged_failures(pages)[j] == pages[j]->Failure_0@,
        pages_requested(pages) == n + 1,
    decreases n,
{
    if n == 0 {
    } else {
        assert(pages[0] is Failure);
        let rest = pages.drop_first();
        assert(forall|j: int| 0 <= j < n - 1 ==> rest[j] == pages[j + 1] && rest[j] is Failure);
        assert(rest[n - 1] == pages[n]);
        lemma_failures_then_success(rest, n - 1, v);
        assert(logged_failures(pages) =~= seq![pages[0]->Failure_0@] + logged_failures(rest));
        assert forall|j: int| 0 <= j < n implies logged_failures(pages)[j]
            == pages[j]->Failure_0@ by {
            if j > 0 {
                assert(logged_failures(rest)[j - 1] == rest[j - 1]->Failure_0@);
            }
        }
    }
}

/// Law: where every page fails, the listing is empty, every page is
/// requested, and one diagnostic is logged per page, in order.
pub proof fn lemma_all_failures(pages: Seq<PageOutcome>)
    requires
        forall|i: int| 0 <= i < pages.len() ==> pages[i] is Failure,
    ensures
        listing_entries(pages) == Seq::<ObjectSummary>::empty(),
        logged_failures(pages).len() == pages.len(),
        forall|i: int| 0 <= i < pages.len() ==> logged_failures(pages)[i]
            == pages[i]->Failure_0@,
        pages_requested(pages) == pages.len(),
    decreases pages.len(),
{
    if pages.len() > 0 {
        assert(pages[0] is Failure);
        let rest = pages.drop_first();
        assert(forall|i: int| 0 <= i < rest.len() ==> rest[i] == pages[i + 1] && rest[i]
            is Failure);
        lemma_all_failures(rest);
        assert(listing_entries(pages) =~= Seq::<ObjectSummary>::empty());
        assert forall|i: int| 0 <= i < pages.len() implies logged_failures(pages)[i]
            == pages[i]->Failure_0@ by {
            if i > 0 {
                assert(logged_failures(rest)[i - 1] == rest[i - 1]->Failure_0@);
            }
        }
    }
}

} // verus!

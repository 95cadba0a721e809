//! What the crawl provider answers for a job, and how the pages of an answer
//! are gathered into one result.

use vstd::prelude::*;
use vstd::string::*;
use crate::text::same_text;

verus! {

/// Where a job stands at the crawl provider.
#[derive(Debug, Clone, Copy, PartialEq, Eq, Structural)]
pub enum Status {
    Scraping,
    Completed,
    Failed,
    Cancelled,
}

/// How often a page changes, as its site map says.
#[derive(Debug, Clone)]
pub struct Sitemap {
    pub changefreq: String,
}

/// What a page says of itself. Carried through, never read.
#[derive(Debug, Clone)]
pub struct Metadata {
    pub title: Option<String>,
    pub description: Option<String>,
    pub language: Option<String>,
    pub keywords: Option<String>,
    pub robots: Option<String>,
    pub og_title: Option<String>,
    pub og_description: Option<String>,
    pub og_url: Option<String>,
    pub og_image: Option<String>,
    pub og_audio: Option<String>,
    pub og_determiner: Option<String>,
    pub og_locale: Option<String>,
    pub og_locale_alternate: Option<Vec<String>>,
    pub og_site_name: Option<String>,
    pub og_video: Option<String>,
    pub dc_terms_created: Option<String>,
    pub dc_date_created: Option<String>,
    pub dc_date: Option<String>,
    pub dc_terms_type: Option<String>,
    pub dc_type: Option<String>,
    pub dc_terms_audience: Option<String>,
    pub dc_terms_subject: Option<String>,
    pub dc_subject: Option<String>,
    pub dc_description: Option<String>,
    pub dc_terms_keywords: Option<String>,
    pub modified_time: Option<String>,
    pub published_time: Option<String>,
    pub article_tag: Option<String>,
    pub article_section: Option<String>,
    pub source_url: Option<String>,
    pub status_code: Option<u32>,
    pub error: Option<String>,
    pub site_map: Option<Sitemap>,
}

/// One crawled page.
#[derive(Debug, Clone)]
pub struct Document {
    pub markdown: Option<String>,
    pub extract: Option<String>,
    pub html: Option<String>,
    pub raw_html: Option<String>,
    pub links: Option<Vec<String>>,
    pub screenshot: Option<String>,
    pub metadata: Metadata,
}

/// One page of the provider's answer for a job, or the result gathered from
/// all of them. A slot of `data` that is `None` is a page not yet ready.
#[derive(Debug, Clone)]
pub struct IngestResult {
    pub status: Status,
    pub completed: u32,
    pub total: u32,
    pub credits_used: u32,
    pub expires_at: String,
    pub next: Option<String>,
    pub data: Option<Vec<Option<Document>>>,
}

/// An `IngestResult` as contracts see it.
pub struct PageView {
    pub status: Status,
    pub completed: u32,
    pub total: u32,
    pub credits_used: u32,
    pub expires_at: Seq<char>,
    pub next: Option<Seq<char>>,
    pub data: Option<Seq<Option<Document>>>,
}

impl View for IngestResult {
    type V = PageView;

    open spec fn view(&self) -> PageView {
        PageView {
            status: self.status,
            completed: self.completed,
            total: self.total,
            credits_used: self.credits_used,
            expires_at: self.expires_at@,
            next: match self.next {
                Some(n) => Some(n@),
                None => None,
            },
            data: match self.data {
                Some(d) => Some(d@),
                None => None,
            },
        }
    }
}

/// Where the gathering of a job's pages stands: the address of the page to
/// fetch next, and the documents of the pages fetched so far.
#[derive(Debug, Clone)]
pub struct FetchState {
    pub url: String,
    pub collected: Vec<Option<Document>>,
}

/// A `FetchState` as contracts see it.
pub struct FetchView {
    pub url: Seq<char>,
    pub collected: Seq<Option<Document>>,
}

impl View for FetchState {
    type V = FetchView;

    open spec fn view(&self) -> FetchView {
        FetchView { url: self.url@, collected: self.collected@ }
    }
}

/// What to do once a page has come in.
#[derive(Debug, Clone)]
pub enum FetchStep {
    /// The job's result is at hand: fetch nothing more.
    Done(IngestResult),
    /// Fetch the page at the state's address and come back with it.
    Fetch(FetchState),
}

/// A `FetchStep` as contracts see it.
pub enum StepView {
    Done(PageView),
    Fetch(FetchView),
}

impl View for FetchStep {
    type V = StepView;

    open spec fn view(&self) -> StepView {
        match self {
            FetchStep::Done(r) => StepView::Done(r@),
            FetchStep::Fetch(s) => StepView::Fetch(s@),
        }
    }
}

/// The documents of a page, none where it carries no list.
pub open spec fn docs_of(data: Option<Seq<Option<Document>>>) -> Seq<Option<Document>> {
    match data {
        Some(d) => d,
        None => Seq::empty(),
    }
}

/// A cursor as it is fetched: one whose scheme is secure transport gets the
/// scheme of insecure transport, and what follows the scheme stays as it is;
/// any other cursor stays as it is.
pub open spec fn insecure(cursor: Seq<char>) -> Seq<char> {
    if cursor.len() >= 8 && cursor.take(8) == "https://"@ {
        "http://"@ + cursor.skip(8)
    } else {
        cursor
    }
}

/// Whether another page is to be fetched after `page`, which came from
/// `url`: the job is completed, and the page has a cursor that, rewritten,
/// differs from `url`.
pub open spec fn continues(url: Seq<char>, page: PageView) -> bool {
    page.status == Status::Completed && page.next is Some && insecure(page.next->0) != url
}

/// The step to take once `page` has come in from the state's address.
pub open spec fn advance_spec(state: FetchView, page: PageView) -> StepView {
    if page.status != Status::Completed {
        StepView::Done(page)
    } else if continues(state.url, page) {
        StepView::Fetch(
            FetchView {
                url: insecure(page.next->0),
                collected: state.collected + docs_of(page.data),
            },
        )
    } else {
        StepView::Done(
            PageView {
                status: page.status,
                completed: page.completed,
                total: page.total,
                credits_used: page.credits_used,
                expires_at: page.expires_at,
                next: None,
                data: Some(state.collected + docs_of(page.data)),
            },
        )
    }
}

/// The state before the first fetch.
pub fn begin(url: String) -> (state: FetchState)
    ensures
        state@ == (FetchView { url: url@, collected: Seq::empty() }),
{
    FetchState { url, collected: Vec::new() }
}

/// Rewrites a cursor for fetching: the scheme of secure transport becomes
/// that of insecure transport, and nothing else changes.
pub fn rewrite_cursor(cursor: &str) -> (r: String)
    ensures
        r@ == insecure(cursor@),
{
    let len: usize = cursor.unicode_len();
    if len >= 8 && same_text(cursor.substring_char(0, 8), "https://") {
        let rest = cursor.substring_char(8, len);
        proof {
            assert(cursor@.subrange(0, 8) =~= cursor@.take(8));
            assert(cursor@.subrange(8, len as int) =~= cursor@.skip(8));
        }
        "http://".to_owned().concat(rest)
    } else {
        proof {
            if len >= 8 {
                assert(cursor@.subrange(0, 8) =~= cursor@.take(8));
            }
        }
        cursor.to_owned()
    }
}

/// Takes in the page that came from the state's address. A page of a job that
/// is not completed is the result as it stands. Else its documents join those
/// gathered before; a cursor that, rewritten, differs from the address just
/// fetched is fetched next; without one the last page's counts come back with
/// all the documents gathered and no cursor.
pub fn advance(state: FetchState, page: IngestResult) -> (step: FetchStep)
    ensures
        step@ == advance_spec(state@, page@),
{
    match page.status {
        Status::Completed => {},
        _ => {
            return FetchStep::Done(page);
        },
    }
    let FetchState { url, mut collected } = state;
    let IngestResult { status, completed, total, credits_used, expires_at, next, data } = page;
    match data {
        Some(mut docs) => {
            collected.append(&mut docs);
        },
        None => {
            assert(collected@ + Seq::<Option<Document>>::empty() =~= collected@);
        },
    }
    match next {
        Some(cursor) => {
            let target = rewrite_cursor(cursor.as_str());
            if target == url {
                FetchStep::Done(
                    IngestResult {
                        status,
                        completed,
                        total,
                        credits_used,
                        expires_at,
                        next: None,
                        data: Some(collected),
                    },
                )
            } else {
                FetchStep::Fetch(FetchState { url: target, collected })
            }
        },
        None => FetchStep::Done(
            IngestResult {
                status,
                completed,
                total,
                credits_used,
                expires_at,
                next: None,
                data: Some(collected),
            },
        ),
    }
}

/// The result of fetching `pages` one after the other, from `state` on, as far
/// as `advance_spec` asks for them; `None` where it asks for more pages than
/// there are.
pub open spec fn gathered(state: FetchView, pages: Seq<PageView>) -> Option<PageView>
    decreases pages.len(),
{
    if pages.len() == 0 {
        None
    } else {
        match advance_spec(state, pages[0]) {
            StepView::Done(r) => Some(r),
            StepView::Fetch(s) => gathered(s, pages.drop_first()),
        }
    }
}

/// The address from which page `i` of `pages` is fetched, the first one from
/// `url`: the rewritten cursor of the page before it.
pub open spec fn address(url: Seq<char>, pages: Seq<PageView>, i: int) -> Seq<char> {
    if i <= 0 {
        url
    } else {
        insecure(pages[i - 1].next->0)
    }
}

/// `pages` are the pages of one completed job, fetched from `url` on: each is
/// completed, each but the last leads on to the next, and the last does not.
pub open spec fn complete_run(url: Seq<char>, pages: Seq<PageView>) -> bool {
    &&& pages.len() > 0
    &&& forall|i: int| 0 <= i < pages.len() ==> (#[trigger] pages[i]).status == Status::Completed
    &&& forall|i: int|
        0 <= i < pages.len() - 1 ==> #[trigger] continues(address(url, pages, i), pages[i])
    &&& !continues(address(url, pages, pages.len() - 1), pages.last())
}

/// The documents of all `pages`, in page order.
pub open spec fn all_docs(pages: Seq<PageView>) -> Seq<Option<Document>>
    decreases pages.len(),
{
    if pages.len() == 0 {
        Seq::empty()
    } else {
        docs_of(pages[0].data) + all_docs(pages.drop_first())
    }
}

/// The cycle guard: a completed page whose rewritten cursor is the address it
/// was just fetched from ends the gathering. Whatever pages might come
/// `later`, none of them is fetched: the result is that of this page alone.
pub proof fn lemma_cycle_guard(state: FetchView, page: PageView, later: Seq<PageView>)
    requires
        page.status == Status::Completed,
        page.next is Some,
        insecure(page.next->0) == state.url,
    ensures
        advance_spec(state, page) is Done,
        advance_spec(state, page)->Done_0.next is None,
        advance_spec(state, page)->Done_0.data == Some(state.collected + docs_of(page.data)),
        gathered(state, seq![page] + later) == Some(advance_spec(state, page)->Done_0),
{
    assert((seq![page] + later)[0] == page);
}

/// A page of a job that is not completed is handed back as it came.
pub proof fn lemma_unfinished_job_is_a_result(state: FetchView, page: PageView)
    requires
        page.status != Status::Completed,
    ensures
        advance_spec(state, page) == StepView::Done(page),
{
}

/// Gathering the pages of a complete run gives the last page's counts, no
/// cursor, and the documents of all pages in page order, behind those gathered
/// before.
pub proof fn lemma_gathered_run(state: FetchView, pages: Seq<PageView>)
    requires
        complete_run(state.url, pages),
    ensures
        gathered(state, pages) == Some(
            PageView {
                status: Status::Completed,
                completed: pages.last().completed,
                total: pages.last().total,
                credits_used: pages.last().credits_used,
                expires_at: pages.last().expires_at,
                next: None,
                data: Some(state.collected + all_docs(pages)),
            },
        ),
    decreases pages.len(),
{
    let first = pages[0];
    let rest = pages.drop_first();
    assert(address(state.url, pages, 0) == state.url);
    if pages.len() == 1 {
        assert(pages.last() == first);
        assert(all_docs(rest) =~= Seq::<Option<Document>>::empty());
        assert(all_docs(pages) =~= docs_of(first.data));
    } else {
        assert(continues(address(state.url, pages, 0), pages[0]));
        let next = FetchView {
            url: insecure(first.next->0),
            collected: state.collected + docs_of(first.data),
        };
        assert(advance_spec(state, first) == StepView::Fetch(next));
        assert forall|i: int| 0 <= i < rest.len() implies (#[trigger] rest[i]).status
            == Status::Completed by {
            assert(rest[i] == pages[i + 1]);
        }
        assert forall|i: int| 0 <= i < rest.len() - 1 implies #[trigger] continues(
            address(next.url, rest, i),
            rest[i],
        ) by {
            assert(rest[i] == pages[i + 1]);
            assert(continues(address(state.url, pages, i + 1), pages[i + 1]));
            if i > 0 {
                assert(rest[i - 1] == pages[i]);
            }
            assert(address(next.url, rest, i) == address(state.url, pages, i + 1));
        }
        assert(rest.last() == pages.last());
        assert(address(next.url, rest, rest.len() - 1) == address(
            state.url,
            pages,
            pages.len() - 1,
        )) by {
            if rest.len() > 1 {
                assert(rest[rest.len() - 2] == pages[pages.len() - 2]);
            }
        }
        lemma_gathered_run(next, rest);
        assert(next.collected + all_docs(rest) =~= state.collected + all_docs(pages));
    }
}

/// Pages of `k` documents each hold `k` times their number of documents.
pub proof fn lemma_all_docs_len(pages: Seq<PageView>, k: nat)
    requires
        forall|i: int| 0 <= i < pages.len() ==> docs_of((#[trigger] pages[i]).data).len() == k,
    ensures
        all_docs(pages).len() == pages.len() * k,
    decreases pages.len(),
{
    if pages.len() > 0 {
        let rest = pages.drop_first();
        assert forall|i: int| 0 <= i < rest.len() implies docs_of((#[trigger] rest[i]).data).len()
            == k by {
            assert(rest[i] == pages[i + 1]);
        }
        lemma_all_docs_len(rest, k);
        assert(pages.len() * k == k + rest.len() * k) by (nonlinear_arith)
            requires
                pages.len() == rest.len() + 1,
        ;
    }
}

/// A completed job of `pages.len()` pages with `k` documents each, gathered
/// from the start, gives `pages.len() * k` documents, in page order, and no
/// cursor.
pub proof fn lemma_pages_of_k_documents(url: Seq<char>, pages: Seq<PageView>, k: nat)
    requires
        complete_run(url, pages),
        forall|i: int| 0 <= i < pages.len() ==> docs_of((#[trigger] pages[i]).data).len() == k,
    ensures
        gathered(FetchView { url, collected: Seq::empty() }, pages) is Some,
        gathered(FetchView { url, collected: Seq::empty() }, pages)->0.next is None,
        gathered(FetchView { url, collected: Seq::empty() }, pages)->0.data == Some(
            all_docs(pages),
        ),
        all_docs(pages).len() == pages.len() * k,
{
    let start = FetchView { url, collected: Seq::empty() };
    lemma_gathered_run(start, pages);
    lemma_all_docs_len(pages, k);
    assert(start.collected + all_docs(pages) =~= all_docs(pages));
}

} // verus!

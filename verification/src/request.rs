//! Crawl requests: the record kept for a dataset's recurring crawl, how one is
//! created, and what a change of configuration writes.

use vstd::prelude::*;
use vstd::string::*;
use crate::text::{same_text, text_of};
use crate::options::{interval_seconds, interval_seconds_spec, CrawlInterval, CrawlOptions};

verus! {

/// The job id of a request that needs no job at the crawl provider: all zero.
pub const NO_JOB_ID: u128 = 0;

/// Where a crawl request stands.
#[derive(Debug, Clone, Copy, PartialEq, Eq, Structural)]
pub enum CrawlStatus {
    Pending,
    Scraping,
    Completed,
    Failed,
    Cancelled,
}

/// Why an operation failed.
#[derive(Debug, Clone)]
pub enum ServiceError {
    /// The request could not be served as it was made.
    BadRequest(String),
    /// Storage, the queue or the crawl provider could not be reached, or the
    /// crawl provider refused a request or answered with something unexpected.
    InternalServerError(String),
    /// No record has the id that was asked for.
    NotFound(String),
}

/// The record of a dataset's recurring crawl. Ids are the 128 bits of a UUID;
/// times are microseconds since the Unix epoch, in UTC.
#[derive(Debug, Clone)]
pub struct CrawlRequest {
    pub id: u128,
    pub url: String,
    pub status: CrawlStatus,
    /// The time between two crawls, in seconds.
    pub interval: u64,
    pub next_crawl_at: i64,
    pub crawl_options: CrawlOptions,
    /// The job at the crawl provider, or `NO_JOB_ID`.
    pub scrape_id: u128,
    pub dataset_id: u128,
    pub created_at: i64,
    pub attempt_number: i32,
}

/// The site to crawl, empty where the options name none.
pub open spec fn site_of(options: CrawlOptions) -> Seq<char> {
    match options.site_url {
        Some(u) => u@,
        None => Seq::empty(),
    }
}

impl CrawlStatus {
    /// The status as storage keeps it, in text.
    pub open spec fn name_spec(self) -> Seq<char> {
        match self {
            CrawlStatus::Pending => "pending"@,
            CrawlStatus::Scraping => "scraping"@,
            CrawlStatus::Completed => "completed"@,
            CrawlStatus::Failed => "failed"@,
            CrawlStatus::Cancelled => "cancelled"@,
        }
    }

    /// The status as storage keeps it, in text.
    pub fn name(&self) -> (r: &'static str)
        ensures
            r@ == self.name_spec(),
    {
        match self {
            CrawlStatus::Pending => "pending",
            CrawlStatus::Scraping => "scraping",
            CrawlStatus::Completed => "completed",
            CrawlStatus::Failed => "failed",
            CrawlStatus::Cancelled => "cancelled",
        }
    }
}

/// The status that storage keeps under `name`, `None` where it keeps none
/// under it.
pub open spec fn status_named(name: Seq<char>) -> Option<CrawlStatus> {
    if name == "pending"@ {
        Some(CrawlStatus::Pending)
    } else if name == "scraping"@ {
        Some(CrawlStatus::Scraping)
    } else if name == "completed"@ {
        Some(CrawlStatus::Completed)
    } else if name == "failed"@ {
        Some(CrawlStatus::Failed)
    } else if name == "cancelled"@ {
        Some(CrawlStatus::Cancelled)
    } else {
        None
    }
}

/// Reads a status as storage keeps it.
pub fn parse_status(name: &str) -> (r: Option<CrawlStatus>)
    ensures
        r == status_named(name@),
{
    if same_text(name, "pending") {
        Some(CrawlStatus::Pending)
    } else if same_text(name, "scraping") {
        Some(CrawlStatus::Scraping)
    } else if same_text(name, "completed") {
        Some(CrawlStatus::Completed)
    } else if same_text(name, "failed") {
        Some(CrawlStatus::Failed)
    } else if same_text(name, "cancelled") {
        Some(CrawlStatus::Cancelled)
    } else {
        None
    }
}

/// A status written to storage is read back as itself.
pub proof fn lemma_status_name_round_trip(status: CrawlStatus)
    ensures
        status_named(status.name_spec()) == Some(status),
{
    reveal_strlit("pending");
    reveal_strlit("scraping");
    reveal_strlit("completed");
    reveal_strlit("failed");
    reveal_strlit("cancelled");
    assert("pending"@.len() == 7);
    assert("scraping"@.len() == 8);
    assert("completed"@.len() == 9);
    assert("failed"@.len() == 6);
    assert("cancelled"@.len() == 9);
    assert("completed"@[1] == 'o');
    assert("cancelled"@[1] == 'a');
}

impl ServiceError {
    /// The message that the error carries.
    pub open spec fn message_spec(self) -> Seq<char> {
        match self {
            ServiceError::BadRequest(m) => m@,
            ServiceError::InternalServerError(m) => m@,
            ServiceError::NotFound(m) => m@,
        }
    }

    /// The message that the error carries.
    pub fn message(&self) -> (r: &str)
        ensures
            r@ == self.message_spec(),
    {
        match self {
            ServiceError::BadRequest(m) => m.as_str(),
            ServiceError::InternalServerError(m) => m.as_str(),
            ServiceError::NotFound(m) => m.as_str(),
        }
    }
}

/// The error of a crawl whose job the provider did not take, whether it
/// could not be reached or refused the job: an internal-server fault that
/// carries the cause's message.
pub fn submission_fault(cause: &ServiceError) -> (r: ServiceError)
    ensures
        r is InternalServerError,
        r.message_spec() == "Could not crawl site: "@ + cause.message_spec(),
{
    ServiceError::InternalServerError(
        "Could not crawl site: ".to_owned().concat(cause.message()),
    )
}

impl CrawlRequest {
    /// A request is due once its next crawl is not in the future.
    pub open spec fn is_due_spec(self, now: i64) -> bool {
        self.next_crawl_at <= now
    }

    /// Whether the request is due at `now`.
    pub fn is_due(&self, now: i64) -> (b: bool)
        ensures
            b == self.is_due_spec(now),
    {
        self.next_crawl_at <= now
    }

    /// Whether the request has a job at the crawl provider.
    pub fn has_provider_job(&self) -> (b: bool)
        ensures
            b == (self.scrape_id != NO_JOB_ID),
    {
        self.scrape_id != NO_JOB_ID
    }
}

/// The job id of a crawl that needs no job at the crawl provider, `None` where
/// the options ask for one.
pub fn job_id_without_provider(options: &CrawlOptions) -> (r: Option<u128>)
    ensures
        r == (if options.is_feed_based() {
            Some(NO_JOB_ID)
        } else {
            None
        }),
{
    if options.bypasses_provider() {
        Some(NO_JOB_ID)
    } else {
        None
    }
}

/// The record of a crawl submitted at `now`: pending, due at once, not yet
/// attempted, with the interval that the options ask for.
pub fn new_crawl_request(
    id: u128,
    crawl_options: CrawlOptions,
    dataset_id: u128,
    scrape_id: u128,
    now: i64,
) -> (r: CrawlRequest)
    ensures
        r.id == id,
        r.url@ == site_of(crawl_options),
        r.status == CrawlStatus::Pending,
        r.interval == interval_seconds_spec(crawl_options.interval),
        r.next_crawl_at == now,
        r.crawl_options == crawl_options,
        r.scrape_id == scrape_id,
        r.dataset_id == dataset_id,
        r.created_at == now,
        r.attempt_number == 0,
        r.is_due_spec(now),
{
    let url = match &crawl_options.site_url {
        Some(u) => u.clone(),
        None => String::new(),
    };
    let interval = interval_seconds(crawl_options.interval);
    CrawlRequest {
        id,
        url,
        status: CrawlStatus::Pending,
        interval,
        next_crawl_at: now,
        crawl_options,
        scrape_id,
        dataset_id,
        created_at: now,
        attempt_number: 0,
    }
}

/// What a change of configuration writes to a dataset's request.
#[derive(Debug, Clone)]
pub struct SettingsUpdate {
    /// The new value of the url column, where the options set a site.
    pub url: Option<String>,
    /// The new value of the interval column in seconds, where the options set
    /// an interval.
    pub interval: Option<i32>,
    /// The options to store, and to submit the next crawl with.
    pub crawl_options: CrawlOptions,
}

/// The interval column for a set interval.
pub open spec fn interval_column(interval: Option<CrawlInterval>) -> Option<i32> {
    match interval {
        Some(CrawlInterval::Daily) => Some(86_400i32),
        Some(CrawlInterval::Weekly) => Some(604_800i32),
        Some(CrawlInterval::Monthly) => Some(2_592_000i32),
        None => None,
    }
}

/// The interval column for a set interval, `None` for an unset one.
pub fn interval_column_of(interval: Option<CrawlInterval>) -> (r: Option<i32>)
    ensures
        r == interval_column(interval),
{
    match interval {
        Some(CrawlInterval::Daily) => Some(86_400i32),
        Some(CrawlInterval::Weekly) => Some(604_800i32),
        Some(CrawlInterval::Monthly) => Some(2_592_000i32),
        None => None,
    }
}

/// What `options` write over a request whose stored options are `previous`.
pub fn settings_update(options: CrawlOptions, previous: Option<CrawlOptions>) -> (r: SettingsUpdate)
    ensures
        text_of(r.url) == text_of(options.site_url),
        r.interval == interval_column(options.interval),
        r.crawl_options == options.merge_over_spec(previous),
{
    let url = match &options.site_url {
        Some(u) => Some(u.clone()),
        None => None,
    };
    let interval = interval_column_of(options.interval);
    SettingsUpdate { url, interval, crawl_options: options.merge_over(previous) }
}

/// The interval column holds the interval's length in seconds.
pub proof fn lemma_interval_column_in_seconds(interval: CrawlInterval)
    ensures
        interval_column(Some(interval)) == Some(interval_seconds_spec(Some(interval)) as i32),
        interval_column(Some(interval))->0 as int == interval_seconds_spec(Some(interval)) as int,
{
}

/// Applying the same options a second time stores the same options again:
/// whatever was stored before the first update, the second one, made over
/// what the first stored, stores what the first stored.
pub proof fn lemma_settings_update_stable(options: CrawlOptions, previous: Option<CrawlOptions>)
    ensures
        options.merge_over_spec(Some(options.merge_over_spec(previous))) == options.merge_over_spec(
            previous,
        ),
{
}

} // verus!

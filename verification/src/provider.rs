//! The crawl provider's API: where its endpoints are, and how the answer to a
//! submitted job is read.

use vstd::prelude::*;
use vstd::string::*;
use crate::options::CrawlOptions;
use crate::request::ServiceError;
use crate::tags::texts;

verus! {

/// The hexadecimal digit `k` of `id`, counted from the most significant one.
pub open spec fn hex_digit(id: u128, k: int) -> char
    recommends
        0 <= k < 32,
{
    "0123456789abcdef"@[((id >> ((4 * (31 - k)) as u128)) & 0xf) as int]
}

/// The text of the UUID with the 128 bits `id`: its 32 hexadecimal digits in
/// lower case, most significant first, in groups of 8, 4, 4, 4 and 12 with a
/// hyphen between two groups.
pub open spec fn uuid_text(id: u128) -> Seq<char> {
    Seq::new(
        36,
        |i: int|
            if i == 8 || i == 13 || i == 18 || i == 23 {
                '-'
            } else if i < 8 {
                hex_digit(id, i)
            } else if i < 13 {
                hex_digit(id, i - 1)
            } else if i < 18 {
                hex_digit(id, i - 2)
            } else if i < 23 {
                hex_digit(id, i - 3)
            } else {
                hex_digit(id, i - 4)
            },
    )
}

/// The 128 bits of the UUID that `text` spells, `None` where it spells none.
pub uninterp spec fn uuid_value(text: Seq<char>) -> Option<u128>;

/// The string under `key` in the JSON object that `body` spells; `None` where
/// `body` is not JSON, has no such key, or holds something else than a string
/// under it.
pub uninterp spec fn json_string_field(body: Seq<char>, key: Seq<char>) -> Option<Seq<char>>;

/// Calls `uuid::Uuid::from_u128` and formats the UUID with its `Display`.
/// Trusted: as the crate documents, the UUID holds `id` most significant
/// byte first, and its `Display` is the hyphenated form in lower case.
#[verifier::external_body]
fn format_uuid(id: u128) -> (r: String)
    ensures
        r@ == uuid_text(id),
{
    uuid::Uuid::from_u128(id).to_string()
}

/// Calls `uuid::Uuid::parse_str` and `Uuid::as_u128`. Trusted: the result is
/// `uuid_value` of the input.
#[verifier::external_body]
fn parse_uuid(text: &str) -> (r: Option<u128>)
    ensures
        r == uuid_value(text@),
{
    match uuid::Uuid::parse_str(text) {
        Ok(id) => Some(id.as_u128()),
        Err(_) => None,
    }
}

/// Calls `serde_json::from_str` for a `serde_json::Value`, then `Value::get`
/// and `Value::as_str`. Trusted: the result is `json_string_field` of the
/// inputs.
#[verifier::external_body]
fn string_field(body: &str, key: &str) -> (r: Option<String>)
    ensures
        match r {
            Some(t) => json_string_field(body@, key@) == Some(t@),
            None => json_string_field(body@, key@) is None,
        },
{
    match serde_json::from_str::<serde_json::Value>(body) {
        Ok(value) => value.get(key).and_then(|v| v.as_str()).map(|s| s.to_string()),
        Err(_) => None,
    }
}

/// What the provider is asked to do with each page of a job.
#[derive(Debug, Clone)]
pub struct JobScrapeOptions {
    /// The forms in which each page is asked for.
    pub formats: Vec<String>,
    pub include_tags: Option<Vec<String>>,
    pub exclude_tags: Option<Vec<String>>,
}

/// A crawl job as the provider takes it.
#[derive(Debug, Clone)]
pub struct ProviderJob {
    pub url: Option<String>,
    pub limit: Option<i32>,
    pub max_depth: Option<i32>,
    pub include_paths: Option<Vec<String>>,
    pub exclude_paths: Option<Vec<String>>,
    pub allow_external_links: Option<bool>,
    pub ignore_sitemap: Option<bool>,
    pub scrape_options: JobScrapeOptions,
}

/// The forms in which every page of a job is asked for: its HTML as the
/// provider cleans it, and as the site served it.
pub open spec fn page_formats() -> Seq<Seq<char>> {
    seq!["html"@, "rawHtml"@]
}

/// The job that `options` ask the provider for: the site, the limits and the
/// path and tag filters go over as they are, and every page is asked for in
/// `page_formats`. The interval, the title boost and the mode of the crawl are
/// no part of the job.
pub fn provider_job(options: CrawlOptions) -> (job: ProviderJob)
    ensures
        job.url == options.site_url,
        job.limit == options.limit,
        job.max_depth == options.max_depth,
        job.include_paths == options.include_paths,
        job.exclude_paths == options.exclude_paths,
        job.allow_external_links == options.allow_external_links,
        job.ignore_sitemap == options.ignore_sitemap,
        texts(job.scrape_options.formats@) == page_formats(),
        job.scrape_options.include_tags == options.include_tags,
        job.scrape_options.exclude_tags == options.exclude_tags,
{
    let mut formats: Vec<String> = Vec::new();
    formats.push("html".to_owned());
    formats.push("rawHtml".to_owned());
    assert(texts(formats@) =~= page_formats());
    ProviderJob {
        url: options.site_url,
        limit: options.limit,
        max_depth: options.max_depth,
        include_paths: options.include_paths,
        exclude_paths: options.exclude_paths,
        allow_external_links: options.allow_external_links,
        ignore_sitemap: options.ignore_sitemap,
        scrape_options: JobScrapeOptions {
            formats,
            include_tags: options.include_tags,
            exclude_tags: options.exclude_tags,
        },
    }
}

/// Where the crawl provider is reached, and with which key.
#[derive(Debug, Clone)]
pub struct ProviderConfig {
    pub base_url: String,
    pub api_key: String,
}

/// The provider's address where none is configured.
pub open spec fn default_base_url() -> Seq<char> {
    "https://api.firecrawl.dev"@
}

/// The job id in the provider's answer to a submission: the UUID under `id`.
pub open spec fn response_job_id(body: Seq<char>) -> Option<u128> {
    match json_string_field(body, "id"@) {
        Some(t) => uuid_value(t),
        None => None,
    }
}

/// The message of an answer with a status other than success.
pub open spec fn refused_message() -> Seq<char> {
    "Error getting response from firecrawl"@
}

/// The message of an answer that holds no job id.
pub open spec fn unreadable_message() -> Seq<char> {
    "Error parsing response from firecrawl"@
}

/// What a submission's answer comes to, given whether its status was success
/// and the job id read from its body.
pub open spec fn submission_outcome(success: bool, id: Option<u128>) -> Result<u128, Seq<char>> {
    if !success {
        Err(refused_message())
    } else {
        match id {
            Some(v) => Ok(v),
            None => Err(unreadable_message()),
        }
    }
}

/// A result as contracts see it: an internal-server fault by its message.
pub open spec fn outcome_view(r: Result<u128, ServiceError>) -> Option<Result<u128, Seq<char>>> {
    match r {
        Ok(v) => Some(Ok(v)),
        Err(ServiceError::InternalServerError(m)) => Some(Err(m@)),
        Err(_) => None,
    }
}

impl ProviderConfig {
    /// The configuration from what the surroundings set: the address defaults
    /// to the provider's public one, the key to the empty one.
    pub fn new(base_url: Option<String>, api_key: Option<String>) -> (r: ProviderConfig)
        ensures
            r.base_url@ == (match base_url {
                Some(u) => u@,
                None => default_base_url(),
            }),
            r.api_key@ == (match api_key {
                Some(k) => k@,
                None => Seq::empty(),
            }),
    {
        let base_url = match base_url {
            Some(u) => u,
            None => "https://api.firecrawl.dev".to_owned(),
        };
        let api_key = match api_key {
            Some(k) => k,
            None => String::new(),
        };
        ProviderConfig { base_url, api_key }
    }

    /// The address that a new job is posted to.
    pub fn submit_url(&self) -> (r: String)
        ensures
            r@ == self.base_url@ + "/v1/crawl"@,
    {
        self.base_url.clone().concat("/v1/crawl")
    }

    /// The address of the first page of a job's result.
    pub fn job_url(&self, job_id: u128) -> (r: String)
        ensures
            r@ == self.base_url@ + "/v1/crawl/"@ + uuid_text(job_id),
    {
        let id = format_uuid(job_id);
        self.base_url.clone().concat("/v1/crawl/").concat(id.as_str())
    }

    /// The value of the authorization header.
    pub fn authorization(&self) -> (r: String)
        ensures
            r@ == "Bearer "@ + self.api_key@,
    {
        "Bearer ".to_owned().concat(self.api_key.as_str())
    }
}

/// What a submission's answer comes to, given whether its status was success
/// and the job id read from its body: without success a fault, without a job
/// id a fault of its own, else the job id.
pub fn job_id_or_fault(success: bool, id: Option<u128>) -> (r: Result<u128, ServiceError>)
    ensures
        outcome_view(r) == Some(submission_outcome(success, id)),
{
    if !success {
        Err(ServiceError::InternalServerError("Error getting response from firecrawl".to_owned()))
    } else {
        match id {
            Some(v) => Ok(v),
            None => Err(
                ServiceError::InternalServerError(
                    "Error parsing response from firecrawl".to_owned(),
                ),
            ),
        }
    }
}

/// Reads the job id out of the body of a submission's answer.
pub fn read_job_id(body: &str) -> (r: Option<u128>)
    ensures
        r == response_job_id(body@),
{
    match string_field(body, "id") {
        Some(t) => parse_uuid(t.as_str()),
        None => None,
    }
}

/// Reads the provider's answer to a submitted job: the job id where the
/// status was success and the body holds one, else a fault.
pub fn job_id_from_response(success: bool, body: &str) -> (r: Result<u128, ServiceError>)
    ensures
        outcome_view(r) == Some(submission_outcome(success, response_job_id(body@))),
{
    if success {
        job_id_or_fault(true, read_job_id(body))
    } else {
        job_id_or_fault(false, None)
    }
}

} // verus!

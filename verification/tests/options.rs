use crawl_ingest::options::{
    interval_seconds, prefer, CrawlInterval, CrawlOptions, ScrapeOptions, ShopifyOptions,
};
use crawl_ingest::request::{
    interval_column_of, job_id_without_provider, new_crawl_request, parse_status,
    settings_update, submission_fault, CrawlStatus, ServiceError, NO_JOB_ID,
};
use crawl_ingest::text::same_text;

fn shopify() -> ScrapeOptions {
    ScrapeOptions::Shopify(ShopifyOptions { group_variants: Some(true), tag_regexes: None })
}

fn newer() -> CrawlOptions {
    let mut o = CrawlOptions::unset();
    o.site_url = Some("https://new.example".to_string());
    o.limit = Some(10);
    o.include_paths = Some(vec!["/docs".to_string()]);
    o
}

fn older() -> CrawlOptions {
    let mut o = CrawlOptions::unset();
    o.site_url = Some("https://old.example".to_string());
    o.interval = Some(CrawlInterval::Weekly);
    o.max_depth = Some(3);
    o.boost_titles = Some(false);
    o.scrape_options = Some(shopify());
    o
}

fn show(o: &CrawlOptions) -> String {
    format!("{:?}", o)
}

#[test]
fn interval_lengths() {
    assert_eq!(interval_seconds(Some(CrawlInterval::Daily)), 86_400);
    assert_eq!(interval_seconds(Some(CrawlInterval::Weekly)), 604_800);
    assert_eq!(interval_seconds(Some(CrawlInterval::Monthly)), 2_592_000);
    assert_eq!(interval_seconds(None), 86_400);
}

#[test]
fn prefer_takes_the_newer_value_where_set() {
    assert_eq!(prefer(Some(1), Some(2)), Some(1));
    assert_eq!(prefer(Some(1), None), Some(1));
    assert_eq!(prefer(None, Some(2)), Some(2));
    assert_eq!(prefer::<i32>(None, None), None);
}

#[test]
fn merge_prefers_the_newer_options_field_by_field() {
    let m = newer().merge(older());
    assert_eq!(m.site_url.as_deref(), Some("https://new.example"));
    assert_eq!(m.interval, Some(CrawlInterval::Weekly));
    assert_eq!(m.limit, Some(10));
    assert_eq!(m.max_depth, Some(3));
    assert_eq!(m.include_paths, Some(vec!["/docs".to_string()]));
    assert_eq!(m.exclude_paths, None);
    assert_eq!(m.boost_titles, Some(false));
    assert!(matches!(m.scrape_options, Some(ScrapeOptions::Shopify(_))));
}

#[test]
fn merge_over_nothing_changes_nothing() {
    assert_eq!(show(&newer().merge_over(None)), show(&newer()));
}

#[test]
fn merge_is_a_fixed_point() {
    let once = newer().merge(older());
    let twice = once.clone().merge(older());
    assert_eq!(show(&twice), show(&once));
    let again = newer().merge(once.clone());
    assert_eq!(show(&again), show(&once));
}

#[test]
fn feed_based_options_need_no_provider_job() {
    assert!(older().bypasses_provider());
    assert!(!newer().bypasses_provider());
    assert_eq!(job_id_without_provider(&older()), Some(NO_JOB_ID));
    assert_eq!(job_id_without_provider(&newer()), None);
    assert_eq!(NO_JOB_ID, 0);
}

#[test]
fn a_new_request_is_pending_and_due_at_once() {
    let r = new_crawl_request(7, older(), 11, 13, 1_700_000_000_000_000);
    assert_eq!(r.id, 7);
    assert_eq!(r.url, "https://old.example");
    assert_eq!(r.status, CrawlStatus::Pending);
    assert_eq!(r.interval, 604_800);
    assert_eq!(r.next_crawl_at, 1_700_000_000_000_000);
    assert_eq!(r.created_at, 1_700_000_000_000_000);
    assert_eq!(show(&r.crawl_options), show(&older()));
    assert_eq!(r.scrape_id, 13);
    assert_eq!(r.dataset_id, 11);
    assert_eq!(r.attempt_number, 0);
    assert!(r.is_due(1_700_000_000_000_000));
    assert!(r.is_due(1_700_000_000_000_001));
    assert!(!r.is_due(1_699_999_999_999_999));
    assert!(r.has_provider_job());
}

#[test]
fn a_new_request_without_site_or_interval() {
    let r = new_crawl_request(1, CrawlOptions::unset(), 2, NO_JOB_ID, -5);
    assert_eq!(r.url, "");
    assert_eq!(r.interval, 86_400);
    assert_eq!(r.status, CrawlStatus::Pending);
    assert_eq!(r.next_crawl_at, -5);
    assert!(!r.has_provider_job());
}

#[test]
fn status_names() {
    assert_eq!(CrawlStatus::Pending.name(), "pending");
    assert_eq!(CrawlStatus::Scraping.name(), "scraping");
    assert_eq!(CrawlStatus::Completed.name(), "completed");
    assert_eq!(CrawlStatus::Failed.name(), "failed");
    assert_eq!(CrawlStatus::Cancelled.name(), "cancelled");
}

#[test]
fn settings_update_writes_what_the_options_set() {
    let u = settings_update(newer(), Some(older()));
    assert_eq!(u.url.as_deref(), Some("https://new.example"));
    assert_eq!(u.interval, None);
    assert_eq!(show(&u.crawl_options), show(&newer().merge(older())));

    let mut monthly = CrawlOptions::unset();
    monthly.interval = Some(CrawlInterval::Monthly);
    let u = settings_update(monthly.clone(), None);
    assert_eq!(u.url, None);
    assert_eq!(u.interval, Some(2_592_000));
    assert_eq!(show(&u.crawl_options), show(&monthly));

    let mut daily = CrawlOptions::unset();
    daily.interval = Some(CrawlInterval::Daily);
    assert_eq!(settings_update(daily, None).interval, Some(86_400));
    let mut weekly = CrawlOptions::unset();
    weekly.interval = Some(CrawlInterval::Weekly);
    assert_eq!(settings_update(weekly, None).interval, Some(604_800));
}

#[test]
fn the_same_settings_twice_store_the_same_options() {
    let first = settings_update(newer(), Some(older()));
    let second = settings_update(newer(), Some(first.crawl_options.clone()));
    assert_eq!(show(&second.crawl_options), show(&first.crawl_options));
}

#[test]
fn a_status_is_read_back_from_its_name() {
    for s in [
        CrawlStatus::Pending,
        CrawlStatus::Scraping,
        CrawlStatus::Completed,
        CrawlStatus::Failed,
        CrawlStatus::Cancelled,
    ] {
        assert_eq!(parse_status(s.name()), Some(s));
    }
    assert_eq!(parse_status("Pending"), None);
    assert_eq!(parse_status(""), None);
    assert_eq!(parse_status("pending "), None);
}

#[test]
fn same_text_compares_by_content() {
    assert!(same_text("", ""));
    assert!(same_text("abc", "abc"));
    assert!(!same_text("abc", "abd"));
    assert!(!same_text("abc", "ab"));
}

#[test]
fn a_failed_submission_is_an_internal_fault() {
    for cause in [
        ServiceError::InternalServerError("Error getting response from firecrawl".to_string()),
        ServiceError::InternalServerError("Error sending request to firecrawl".to_string()),
    ] {
        match submission_fault(&cause) {
            ServiceError::InternalServerError(m) => {
                assert_eq!(m, format!("Could not crawl site: {}", cause.message()))
            }
            other => panic!("no internal fault: {:?}", other),
        }
    }
    let cause = ServiceError::InternalServerError("Error getting response from firecrawl".to_string());
    assert_eq!(cause.message(), "Error getting response from firecrawl");
    assert_eq!(
        submission_fault(&cause).message(),
        "Could not crawl site: Error getting response from firecrawl"
    );
    assert_eq!(ServiceError::NotFound("gone".to_string()).message(), "gone");
    assert_eq!(ServiceError::BadRequest("bad".to_string()).message(), "bad");
}

#[test]
fn the_interval_column_is_in_seconds() {
    assert_eq!(interval_column_of(Some(CrawlInterval::Daily)), Some(86_400));
    assert_eq!(interval_column_of(Some(CrawlInterval::Weekly)), Some(604_800));
    assert_eq!(interval_column_of(Some(CrawlInterval::Monthly)), Some(2_592_000));
    assert_eq!(interval_column_of(None), None);
}

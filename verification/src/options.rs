//! Crawl configuration and how a new configuration is laid over an older one.

use vstd::prelude::*;

verus! {

/// How often a dataset is crawled again.
#[derive(Debug, Clone, Copy, PartialEq, Eq, Structural)]
pub enum CrawlInterval {
    Daily,
    Weekly,
    Monthly,
}

/// Settings of the product-feed mode.
#[derive(Debug, Clone)]
pub struct ShopifyOptions {
    pub group_variants: Option<bool>,
    pub tag_regexes: Option<Vec<String>>,
}

/// Settings of the API-schema mode.
#[derive(Debug, Clone)]
pub struct OpenApiOptions {
    pub schema_url: String,
    pub tag: String,
}

/// The mode of a crawl. The product-feed mode reads a shop's feed and needs no
/// job at the crawl provider.
#[derive(Debug, Clone)]
pub enum ScrapeOptions {
    Shopify(ShopifyOptions),
    OpenApi(OpenApiOptions),
}

/// What a dataset's crawl is configured with. A field that is `None` is unset.
#[derive(Debug, Clone)]
pub struct CrawlOptions {
    pub site_url: Option<String>,
    pub interval: Option<CrawlInterval>,
    pub limit: Option<i32>,
    pub max_depth: Option<i32>,
    pub include_paths: Option<Vec<String>>,
    pub exclude_paths: Option<Vec<String>>,
    pub include_tags: Option<Vec<String>>,
    pub exclude_tags: Option<Vec<String>>,
    pub boost_titles: Option<bool>,
    pub allow_external_links: Option<bool>,
    pub ignore_sitemap: Option<bool>,
    pub scrape_options: Option<ScrapeOptions>,
}

/// The newer value where it is set, else the older one.
pub open spec fn prefer_spec<T>(newer: Option<T>, older: Option<T>) -> Option<T> {
    if newer is Some {
        newer
    } else {
        older
    }
}

/// The newer value where it is set, else the older one.
pub fn prefer<T>(newer: Option<T>, older: Option<T>) -> (r: Option<T>)
    ensures
        r == prefer_spec(newer, older),
{
    match newer {
        Some(v) => Some(v),
        None => older,
    }
}

/// The length of a crawl interval in seconds; an unset interval is a day.
pub open spec fn interval_seconds_spec(interval: Option<CrawlInterval>) -> u64 {
    match interval {
        Some(CrawlInterval::Daily) => 86_400,
        Some(CrawlInterval::Weekly) => 604_800,
        Some(CrawlInterval::Monthly) => 2_592_000,
        None => 86_400,
    }
}

/// The length of a crawl interval in seconds; an unset interval is a day.
pub fn interval_seconds(interval: Option<CrawlInterval>) -> (secs: u64)
    ensures
        secs == interval_seconds_spec(interval),
{
    match interval {
        Some(CrawlInterval::Daily) => 60 * 60 * 24,
        Some(CrawlInterval::Weekly) => 60 * 60 * 24 * 7,
        Some(CrawlInterval::Monthly) => 60 * 60 * 24 * 30,
        None => 60 * 60 * 24,
    }
}

impl CrawlOptions {
    /// Options with every field unset.
    pub fn unset() -> (r: CrawlOptions)
        ensures
            r == Self::unset_spec(),
    {
        CrawlOptions {
            site_url: None,
            interval: None,
            limit: None,
            max_depth: None,
            include_paths: None,
            exclude_paths: None,
            include_tags: None,
            exclude_tags: None,
            boost_titles: None,
            allow_external_links: None,
            ignore_sitemap: None,
            scrape_options: None,
        }
    }

    /// Options with every field unset.
    pub open spec fn unset_spec() -> CrawlOptions {
        CrawlOptions {
            site_url: None,
            interval: None,
            limit: None,
            max_depth: None,
            include_paths: None,
            exclude_paths: None,
            include_tags: None,
            exclude_tags: None,
            boost_titles: None,
            allow_external_links: None,
            ignore_sitemap: None,
            scrape_options: None,
        }
    }

    /// `self` laid over `older`, field by field: a field set in `self` stays,
    /// an unset one takes the value in `older`.
    pub open spec fn merge_spec(self, older: CrawlOptions) -> CrawlOptions {
        CrawlOptions {
            site_url: prefer_spec(self.site_url, older.site_url),
            interval: prefer_spec(self.interval, older.interval),
            limit: prefer_spec(self.limit, older.limit),
            max_depth: prefer_spec(self.max_depth, older.max_depth),
            include_paths: prefer_spec(self.include_paths, older.include_paths),
            exclude_paths: prefer_spec(self.exclude_paths, older.exclude_paths),
            include_tags: prefer_spec(self.include_tags, older.include_tags),
            exclude_tags: prefer_spec(self.exclude_tags, older.exclude_tags),
            boost_titles: prefer_spec(self.boost_titles, older.boost_titles),
            allow_external_links: prefer_spec(
                self.allow_external_links,
                older.allow_external_links,
            ),
            ignore_sitemap: prefer_spec(self.ignore_sitemap, older.ignore_sitemap),
            scrape_options: prefer_spec(self.scrape_options, older.scrape_options),
        }
    }

    /// `self` laid over the options stored before, if there were any.
    pub open spec fn merge_over_spec(self, previous: Option<CrawlOptions>) -> CrawlOptions {
        match previous {
            Some(older) => self.merge_spec(older),
            None => self,
        }
    }

    /// Lays `self` over `older`, field by field.
    pub fn merge(self, older: CrawlOptions) -> (r: CrawlOptions)
        ensures
            r == self.merge_spec(older),
    {
        CrawlOptions {
            site_url: prefer(self.site_url, older.site_url),
            interval: prefer(self.interval, older.interval),
            limit: prefer(self.limit, older.limit),
            max_depth: prefer(self.max_depth, older.max_depth),
            include_paths: prefer(self.include_paths, older.include_paths),
            exclude_paths: prefer(self.exclude_paths, older.exclude_paths),
            include_tags: prefer(self.include_tags, older.include_tags),
            exclude_tags: prefer(self.exclude_tags, older.exclude_tags),
            boost_titles: prefer(self.boost_titles, older.boost_titles),
            allow_external_links: prefer(self.allow_external_links, older.allow_external_links),
            ignore_sitemap: prefer(self.ignore_sitemap, older.ignore_sitemap),
            scrape_options: prefer(self.scrape_options, older.scrape_options),
        }
    }

    /// Lays `self` over the options stored before; with none stored, `self`
    /// comes back unchanged.
    pub fn merge_over(self, previous: Option<CrawlOptions>) -> (r: CrawlOptions)
        ensures
            r == self.merge_over_spec(previous),
    {
        match previous {
            Some(older) => self.merge(older),
            None => self,
        }
    }

    /// Whether these options select the product-feed mode, which needs no job
    /// at the crawl provider.
    pub open spec fn is_feed_based(self) -> bool {
        self.scrape_options matches Some(ScrapeOptions::Shopify(_))
    }

    /// Decides `is_feed_based`.
    pub fn bypasses_provider(&self) -> (b: bool)
        ensures
            b == self.is_feed_based(),
    {
        match &self.scrape_options {
            Some(ScrapeOptions::Shopify(_)) => true,
            _ => false,
        }
    }
}

/// Merging over nothing changes nothing.
pub proof fn lemma_merge_over_nothing(newer: CrawlOptions)
    ensures
        newer.merge_over_spec(None) == newer,
{
}

/// A field that the newer options set keeps its value, and a field that they
/// leave unset takes the older one.
pub proof fn lemma_merge_prefers_newer(newer: CrawlOptions, older: CrawlOptions)
    ensures
        newer.site_url is Some ==> newer.merge_spec(older).site_url == newer.site_url,
        newer.site_url is None ==> newer.merge_spec(older).site_url == older.site_url,
        newer.interval is Some ==> newer.merge_spec(older).interval == newer.interval,
        newer.interval is None ==> newer.merge_spec(older).interval == older.interval,
        newer.limit is Some ==> newer.merge_spec(older).limit == newer.limit,
        newer.limit is None ==> newer.merge_spec(older).limit == older.limit,
        newer.max_depth is Some ==> newer.merge_spec(older).max_depth == newer.max_depth,
        newer.max_depth is None ==> newer.merge_spec(older).max_depth == older.max_depth,
        newer.include_paths is Some ==> newer.merge_spec(older).include_paths == newer.include_paths,
        newer.include_paths is None ==> newer.merge_spec(older).include_paths == older.include_paths,
        newer.exclude_paths is Some ==> newer.merge_spec(older).exclude_paths == newer.exclude_paths,
        newer.exclude_paths is None ==> newer.merge_spec(older).exclude_paths == older.exclude_paths,
        newer.include_tags is Some ==> newer.merge_spec(older).include_tags == newer.include_tags,
        newer.include_tags is None ==> newer.merge_spec(older).include_tags == older.include_tags,
        newer.exclude_tags is Some ==> newer.merge_spec(older).exclude_tags == newer.exclude_tags,
        newer.exclude_tags is None ==> newer.merge_spec(older).exclude_tags == older.exclude_tags,
        newer.boost_titles is Some ==> newer.merge_spec(older).boost_titles == newer.boost_titles,
        newer.boost_titles is None ==> newer.merge_spec(older).boost_titles == older.boost_titles,
        newer.allow_external_links is Some ==> newer.merge_spec(older).allow_external_links == newer.allow_external_links,
        newer.allow_external_links is None ==> newer.merge_spec(older).allow_external_links == older.allow_external_links,
        newer.ignore_sitemap is Some ==> newer.merge_spec(older).ignore_sitemap == newer.ignore_sitemap,
        newer.ignore_sitemap is None ==> newer.merge_spec(older).ignore_sitemap == older.ignore_sitemap,
        newer.scrape_options is Some ==> newer.merge_spec(older).scrape_options == newer.scrape_options,
        newer.scrape_options is None ==> newer.merge_spec(older).scrape_options == older.scrape_options,
{
}

/// A merge is a fixed point: merging its result over the same older options
/// once more gives the same result.
pub proof fn lemma_merge_fixed_point(newer: CrawlOptions, older: CrawlOptions)
    ensures
        newer.merge_spec(older).merge_spec(older) == newer.merge_spec(older),
{
}

/// Merging the same newer options over the result of their own merge gives
/// that result again.
pub proof fn lemma_merge_stable(newer: CrawlOptions, older: CrawlOptions)
    ensures
        newer.merge_spec(newer.merge_spec(older)) == newer.merge_spec(older),
{
}

} // verus!

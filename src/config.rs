use std::collections::BTreeMap;
use vstd::prelude::*;

verus! {

/// The whole configuration document of the monitoring daemon.
#[derive(Clone, Debug, PartialEq)]
pub struct Config {
    pub global: Option<BTreeMap<String, String>>,
    pub alerting: Option<Alerts>,
    pub rule_files: Option<Vec<String>>,
    pub scrape_configs: Option<Vec<ScrapeConfig>>,
}

/// One scrape job: what to poll and how.
#[derive(Clone, Debug, PartialEq)]
pub struct ScrapeConfig {
    pub job_name: Option<String>,
    pub scrape_interval: Option<String>,
    pub scrape_timeout: Option<String>,
    pub scheme: Option<String>,
    pub honor_timestamps: Option<bool>,
    pub metrics_path: Option<String>,
    pub authorization: Option<Authorization>,
    pub follow_redirects: Option<bool>,
    pub enable_http2: Option<bool>,
    pub tls_config: Option<TlsConfig>,
    pub static_configs: Vec<StaticConfig>,
}

/// A group of addresses sharing one set of labels.
#[derive(Clone, Debug, PartialEq)]
pub struct StaticConfig {
    pub targets: Vec<String>,
    pub labels: Option<BTreeMap<String, String>>,
}

#[derive(Clone, Debug, PartialEq)]
pub struct TlsConfig {
    pub insecure_skip_verify: bool,
}

/// Credential type and value sent to a scraped target.
#[derive(Clone, Debug, PartialEq)]
pub struct Authorization {
    pub kind: Option<String>,
    pub credentials: Option<String>,
}

/// Alert-manager discovery section.
#[derive(Clone, Debug, PartialEq)]
pub struct Alerts {
    pub alertmanagers: Vec<ScrapeConfig>,
}

/// The uniform reply envelope of the HTTP surface.
#[derive(Debug)]
pub struct Response<T> {
    pub results: Option<Vec<T>>,
    pub result: Option<T>,
    pub error: Option<String>,
    pub success: Option<bool>,
}

impl<T> Response<T> {
    /// An envelope that carries nothing yet and reports no success.
    pub fn new() -> (r: Self)
        ensures
            r.results is None,
            r.result is None,
            r.error is None,
            r.success == Some(false),
    {
        Response { results: None, result: None, error: None, success: Some(false) }
    }
}

/// The name of a job as a mathematical value.
pub open spec fn name_of(e: ScrapeConfig) -> Option<Seq<char>> {
    match e.job_name {
        Some(s) => Some(s@),
        None => None,
    }
}

/// The ordered list of scrape jobs; an absent list reads as empty.
pub open spec fn entries(c: Config) -> Seq<ScrapeConfig> {
    match c.scrape_configs {
        Some(v) => v@,
        None => Seq::empty(),
    }
}

/// No two jobs share a name.
pub open spec fn unique_names(s: Seq<ScrapeConfig>) -> bool {
    forall|i: int, j: int|
        0 <= i < s.len() && 0 <= j < s.len() && i != j ==> name_of(#[trigger] s[i]) != name_of(
            #[trigger] s[j],
        )
}

/// Every job lists at least one target group.
pub open spec fn groups_present(s: Seq<ScrapeConfig>) -> bool {
    forall|i: int| 0 <= i < s.len() ==> (#[trigger] s[i]).static_configs@.len() > 0
}

/// A document in the shape this service commits.
pub open spec fn well_formed(c: Config) -> bool {
    unique_names(entries(c)) && groups_present(entries(c))
}

/// The two documents agree on everything but the job list.
pub open spec fn same_settings(a: Config, b: Config) -> bool {
    a.global == b.global && a.alerting == b.alerting && a.rule_files == b.rule_files
}

} // verus!

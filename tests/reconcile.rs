use prometheus_api::config::{Config, ScrapeConfig, StaticConfig};
use prometheus_api::reconcile::{begin, step, Action, Event, Failure, Mutation, Phase};
use prometheus_api::registry::find;

fn job(name: &str, target: &str) -> ScrapeConfig {
    ScrapeConfig {
        job_name: Some(name.to_string()),
        scrape_interval: None,
        scrape_timeout: None,
        scheme: None,
        honor_timestamps: None,
        metrics_path: None,
        authorization: None,
        follow_redirects: None,
        enable_http2: None,
        tls_config: None,
        static_configs: vec![StaticConfig { targets: vec![target.to_string()], labels: None }],
    }
}

fn doc_with(jobs: Vec<ScrapeConfig>) -> Config {
    Config { global: None, alerting: None, rule_files: None, scrape_configs: Some(jobs) }
}

/// An in-memory stand-in for the document file, the parser and the daemon.
struct World {
    disk: Option<String>,
    known: Vec<(String, Config)>,
    write_results: Vec<bool>,
    reload_ok: bool,
    reads: usize,
    writes: Vec<String>,
    reloads: usize,
}

impl World {
    fn holding(doc: Config) -> World {
        let text = format!("{:?}", doc);
        World {
            disk: Some(text.clone()),
            known: vec![(text, doc)],
            write_results: vec![],
            reload_ok: true,
            reads: 0,
            writes: vec![],
            reloads: 0,
        }
    }

    fn on_disk(&self) -> Option<Config> {
        let text = self.disk.clone()?;
        self.known.iter().find(|(t, _)| *t == text).map(|(_, d)| d.clone())
    }

    fn run(&mut self, m: Mutation) -> Result<(), Failure> {
        let (mut phase, mut action) = begin(m);
        loop {
            let event = match action {
                Action::ReadRaw => {
                    self.reads += 1;
                    Event::RawRead(self.disk.clone())
                }
                Action::Parse(text) => Event::Parsed(
                    self.known.iter().find(|(t, _)| *t == text).map(|(_, d)| d.clone()),
                ),
                Action::Serialize(doc) => {
                    let text = format!("{:?}", doc);
                    self.known.push((text.clone(), doc));
                    Event::Serialized(text)
                }
                Action::Write(text) => {
                    let ok = if self.write_results.is_empty() { true } else { self.write_results.remove(0) };
                    self.writes.push(text.clone());
                    if ok {
                        self.disk = Some(text);
                    }
                    Event::Written(ok)
                }
                Action::Reload => {
                    self.reloads += 1;
                    Event::Reloaded(self.reload_ok)
                }
                Action::Finish(r) => return r,
                Action::Idle => panic!("machine stalled"),
            };
            let (p, a) = step(phase, event);
            phase = p;
            action = a;
        }
    }
}

#[test]
fn add_to_empty_document_commits() {
    let mut w = World::holding(doc_with(vec![]));
    let e = job("svc-a", "10.0.0.1:9100");
    assert_eq!(w.run(Mutation::Add(e.clone())), Ok(()));
    let now = w.on_disk().unwrap();
    assert_eq!(find(&now, &"svc-a".to_string()), Some(&e));
    assert_eq!(w.reloads, 1);
}

#[test]
fn add_to_document_without_job_list() {
    let mut w = World::holding(Config { global: None, alerting: None, rule_files: None, scrape_configs: None });
    let e = job("svc-a", "10.0.0.1:9100");
    assert_eq!(w.run(Mutation::Add(e.clone())), Ok(()));
    assert_eq!(w.on_disk().unwrap().scrape_configs, Some(vec![e]));
}

#[test]
fn duplicate_add_leaves_disk_untouched() {
    let mut w = World::holding(doc_with(vec![job("svc-a", "10.0.0.1:9100")]));
    let before = w.disk.clone();
    assert_eq!(w.run(Mutation::Add(job("svc-a", "10.0.0.9:9100"))), Err(Failure::DuplicateName));
    assert_eq!(w.disk, before);
    assert!(w.writes.is_empty());
    assert_eq!(w.reloads, 0);
}

#[test]
fn reload_failure_restores_previous_text() {
    let original = doc_with(vec![job("svc-a", "10.0.0.1:9100")]);
    let mut w = World::holding(original.clone());
    let before = w.disk.clone().unwrap();
    w.reload_ok = false;
    assert_eq!(w.run(Mutation::Replace(job("svc-a", "10.0.0.2:9100"))), Err(Failure::ReloadFailure));
    assert_eq!(w.disk, Some(before.clone()));
    assert_eq!(w.writes.len(), 2);
    assert_eq!(w.writes[1], before);
    assert_eq!(w.on_disk(), Some(original));
}

#[test]
fn failed_restore_is_a_rollback_failure() {
    let mut w = World::holding(doc_with(vec![job("svc-a", "h:1")]));
    w.reload_ok = false;
    w.write_results = vec![true, false];
    assert_eq!(w.run(Mutation::Remove("svc-a".to_string())), Err(Failure::RollbackFailure));
}

#[test]
fn failed_write_is_a_persist_failure() {
    let mut w = World::holding(doc_with(vec![]));
    let before = w.disk.clone();
    w.write_results = vec![false];
    assert_eq!(w.run(Mutation::Add(job("svc-a", "h:1"))), Err(Failure::PersistFailure));
    assert_eq!(w.disk, before);
    assert_eq!(w.reloads, 0);
}

#[test]
fn unreadable_document_is_a_read_failure() {
    let mut w = World::holding(doc_with(vec![]));
    w.disk = None;
    assert_eq!(w.run(Mutation::Add(job("svc-a", "h:1"))), Err(Failure::ReadFailure));
    assert!(w.writes.is_empty());
}

#[test]
fn malformed_document_is_a_parse_failure() {
    let mut w = World::holding(doc_with(vec![]));
    w.disk = Some("scrape_configs: [".to_string());
    assert_eq!(w.run(Mutation::Add(job("svc-a", "h:1"))), Err(Failure::ParseFailure));
    assert!(w.writes.is_empty());
}

#[test]
fn remove_and_replace_of_absent_name_are_not_found() {
    let mut w = World::holding(doc_with(vec![job("a", "h:1")]));
    assert_eq!(w.run(Mutation::Remove("z".to_string())), Err(Failure::NotFound));
    assert_eq!(w.run(Mutation::Replace(job("z", "h:1"))), Err(Failure::NotFound));
    assert!(w.writes.is_empty());
}

#[test]
fn remove_commits_and_keeps_order() {
    let mut w = World::holding(doc_with(vec![job("a", "h:1"), job("b", "h:2"), job("c", "h:3")]));
    assert_eq!(w.run(Mutation::Remove("b".to_string())), Ok(()));
    assert_eq!(w.on_disk(), Some(doc_with(vec![job("a", "h:1"), job("c", "h:3")])));
    assert_eq!(w.run(Mutation::Remove("b".to_string())), Err(Failure::NotFound));
}

#[test]
fn unexpected_event_is_ignored() {
    let (p, a) = begin(Mutation::Remove("a".to_string()));
    assert!(matches!(a, Action::ReadRaw));
    let (p, a) = step(p, Event::Reloaded(true));
    assert!(matches!(a, Action::Idle));
    assert!(matches!(p, Phase::Reading { .. }));
    let (p, a) = step(Phase::Done, Event::Written(true));
    assert!(matches!(a, Action::Idle));
    assert!(matches!(p, Phase::Done));
}

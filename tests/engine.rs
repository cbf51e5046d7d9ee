use dvm::{show, Action, Channel, DvmError, Event, Fault, Manifest, Operation, Outcome, Phase, Verb};

/// An in-memory stand-in for the filesystem and the remote source.
struct Sim {
    live: Option<Vec<String>>,
    staging: Option<Vec<String>>,
    previous: Option<Vec<String>>,
    manifest: Vec<u8>,
    remote_version: String,
    remote_files: Vec<String>,
    fail: Option<Action>,
    fault: Fault,
    downloaded: usize,
    actions: Vec<Action>,
}

impl Sim {
    fn new(version: &str, files: &[&str]) -> Sim {
        Sim {
            live: None,
            staging: None,
            previous: None,
            manifest: Vec::new(),
            remote_version: version.to_string(),
            remote_files: files.iter().map(|f| f.to_string()).collect(),
            fail: None,
            fault: Fault::Io,
            downloaded: 0,
            actions: Vec::new(),
        }
    }

    fn run(&mut self, verb: Verb, channel: Channel, now: u64) -> Operation {
        self.actions.clear();
        let m = Manifest::load(&self.manifest).unwrap();
        let mut op = Operation::start(verb, channel, m, self.live.is_some(), now);
        loop {
            let a = op.action();
            if a == Action::Finish {
                return op;
            }
            self.actions.push(a);
            let ev = self.perform(a, &op);
            op.step(ev);
        }
    }

    fn perform(&mut self, a: Action, op: &Operation) -> Event {
        if self.fail == Some(a) {
            match a {
                Action::Extract => self.staging = Some(vec!["partial".to_string()]),
                Action::DeleteLive => self.live = Some(vec!["leftover".to_string()]),
                _ => {}
            }
            return Event::Failed(self.fault);
        }
        match a {
            Action::Resolve => {
                return Event::Resolved(
                    self.remote_version.as_bytes().to_vec(),
                    "https://example.invalid/app.tar.gz".to_string(),
                )
            }
            Action::Download => self.downloaded += 100 * self.remote_files.len(),
            Action::Extract => self.staging = Some(self.remote_files.clone()),
            Action::MoveLiveAside => self.previous = self.live.take(),
            Action::MoveStagingIn => self.live = self.staging.take(),
            Action::MovePreviousBack => self.live = self.previous.take(),
            Action::DeleteStaging => self.staging = None,
            Action::DeletePrevious => self.previous = None,
            Action::DeleteLive => self.live = None,
            Action::WriteManifest => self.manifest = op.pending_manifest().write(),
            Action::Finish => {}
        }
        Event::Succeeded
    }

    fn listed(&self, c: Channel) -> Option<String> {
        let m = Manifest::load(&self.manifest).unwrap();
        show(&m)
            .into_iter()
            .find(|s| s.channel == c)
            .unwrap()
            .version
            .map(|v| String::from_utf8(v).unwrap())
    }
}

fn files(names: &[&str]) -> Option<Vec<String>> {
    Some(names.iter().map(|f| f.to_string()).collect())
}

#[test]
fn fresh_install_update_remove_scenario() {
    let mut sim = Sim::new("1.0.0", &["a", "b", "c"]);
    assert_eq!(sim.listed(Channel::Stable), None);

    let op = sim.run(Verb::Install, Channel::Stable, 10);
    assert_eq!(op.phase, Phase::Done(Outcome::Installed));
    assert_eq!(sim.live, files(&["a", "b", "c"]));
    assert_eq!(sim.staging, None);
    assert_eq!(sim.listed(Channel::Stable), Some("1.0.0".to_string()));

    let before = sim.downloaded;
    let op = sim.run(Verb::Update, Channel::Stable, 20);
    assert_eq!(op.phase, Phase::Done(Outcome::UpToDate));
    assert_eq!(sim.downloaded, before);
    assert_eq!(sim.actions, vec![Action::Resolve]);

    let op = sim.run(Verb::Remove, Channel::Stable, 30);
    assert_eq!(op.phase, Phase::Done(Outcome::Removed));
    assert_eq!(sim.live, None);
    assert_eq!(sim.listed(Channel::Stable), None);
}

#[test]
fn install_reports_each_channel_at_remote_version() {
    for c in [Channel::Stable, Channel::Canary, Channel::Ptb, Channel::Development] {
        let mut sim = Sim::new("0.0.17", &["x"]);
        let op = sim.run(Verb::Install, c, 1);
        assert_eq!(op.phase, Phase::Done(Outcome::Installed));
        assert_eq!(sim.listed(c), Some("0.0.17".to_string()));
        assert_eq!(op.tidy, true);
    }
}

#[test]
fn install_over_existing_is_a_reinstall() {
    let mut sim = Sim::new("1.0.0", &["a"]);
    sim.run(Verb::Install, Channel::Canary, 1);
    let op = sim.run(Verb::Install, Channel::Canary, 2);
    assert_eq!(op.phase, Phase::Done(Outcome::Installed));
    assert!(sim.actions.contains(&Action::Download));
    assert!(sim.actions.contains(&Action::MoveLiveAside));
}

#[test]
fn update_same_version_leaves_manifest_identical() {
    let mut sim = Sim::new("2.0", &["a", "b"]);
    sim.run(Verb::Install, Channel::Ptb, 1);
    let bytes = sim.manifest.clone();
    let op = sim.run(Verb::Update, Channel::Ptb, 99);
    assert_eq!(op.phase, Phase::Done(Outcome::UpToDate));
    assert_eq!(sim.manifest, bytes);
    assert_eq!(sim.actions, vec![Action::Resolve]);
    assert_eq!(sim.live, files(&["a", "b"]));
}

#[test]
fn update_new_version_replaces_everything() {
    let mut sim = Sim::new("1.0", &["old1", "old2"]);
    sim.run(Verb::Install, Channel::Stable, 1);
    sim.remote_version = "1.1".to_string();
    sim.remote_files = vec!["new".to_string()];
    let op = sim.run(Verb::Update, Channel::Stable, 2);
    assert_eq!(op.phase, Phase::Done(Outcome::Installed));
    assert_eq!(sim.live, files(&["new"]));
    assert_eq!(sim.previous, None);
    assert_eq!(sim.staging, None);
    assert_eq!(sim.listed(Channel::Stable), Some("1.1".to_string()));
    let m = Manifest::load(&sim.manifest).unwrap();
    assert_eq!(m.get(Channel::Stable).unwrap().installed_at, 2);
}

#[test]
fn extract_failure_leaves_everything_as_it_was() {
    let mut sim = Sim::new("1.0", &["a"]);
    sim.run(Verb::Install, Channel::Stable, 1);
    let bytes = sim.manifest.clone();
    sim.remote_version = "1.1".to_string();
    sim.remote_files = vec!["b".to_string()];
    sim.fail = Some(Action::Extract);
    let op = sim.run(Verb::Update, Channel::Stable, 2);
    assert_eq!(op.phase, Phase::Failed(DvmError::ExtractError));
    assert!(op.tidy);
    assert_eq!(sim.live, files(&["a"]));
    assert_eq!(sim.staging, None);
    assert_eq!(sim.manifest, bytes);
}

#[test]
fn swap_failure_restores_old_install() {
    let mut sim = Sim::new("1.0", &["a"]);
    sim.run(Verb::Install, Channel::Canary, 1);
    let bytes = sim.manifest.clone();
    sim.remote_version = "1.1".to_string();
    sim.remote_files = vec!["b".to_string()];
    sim.fail = Some(Action::MoveStagingIn);
    let op = sim.run(Verb::Update, Channel::Canary, 2);
    assert_eq!(op.phase, Phase::Failed(DvmError::SwapError));
    assert!(op.tidy);
    assert!(sim.actions.contains(&Action::MovePreviousBack));
    assert_eq!(sim.live, files(&["a"]));
    assert_eq!(sim.previous, None);
    assert_eq!(sim.staging, None);
    assert_eq!(sim.manifest, bytes);
}

#[test]
fn failed_rollback_is_not_tidy() {
    let mut sim = Sim::new("1.0", &["a"]);
    sim.run(Verb::Install, Channel::Canary, 1);
    sim.remote_version = "1.1".to_string();
    sim.fail = Some(Action::MoveStagingIn);
    let m = Manifest::load(&sim.manifest).unwrap();
    let mut op = Operation::start(Verb::Update, Channel::Canary, m, true, 2);
    op.step(Event::Resolved(b"1.1".to_vec(), "u".to_string()));
    op.step(Event::Succeeded);
    op.step(Event::Succeeded);
    op.step(Event::Succeeded);
    assert_eq!(op.action(), Action::MoveStagingIn);
    op.step(Event::Failed(Fault::Io));
    assert_eq!(op.action(), Action::MovePreviousBack);
    op.step(Event::Failed(Fault::Io));
    assert_eq!(op.phase, Phase::Cleaning(DvmError::SwapError));
    op.step(Event::Succeeded);
    assert_eq!(op.phase, Phase::Failed(DvmError::SwapError));
    assert!(!op.tidy);
}

#[test]
fn remove_uninstalled_is_not_installed() {
    let mut sim = Sim::new("1.0", &["a"]);
    sim.run(Verb::Install, Channel::Stable, 1);
    let bytes = sim.manifest.clone();
    let op = sim.run(Verb::Remove, Channel::Ptb, 2);
    assert_eq!(op.phase, Phase::Failed(DvmError::NotInstalled));
    assert!(sim.actions.is_empty());
    assert_eq!(sim.manifest, bytes);
    assert_eq!(sim.live, files(&["a"]));
}

#[test]
fn resolve_failures_map_to_errors() {
    let mut sim = Sim::new("1.0", &["a"]);
    sim.fail = Some(Action::Resolve);
    let op = sim.run(Verb::Install, Channel::Stable, 1);
    assert_eq!(op.phase, Phase::Failed(DvmError::NetworkError));
    sim.fault = Fault::Malformed;
    let op = sim.run(Verb::Install, Channel::Stable, 1);
    assert_eq!(op.phase, Phase::Failed(DvmError::ParseError));
    let mut op = Operation::start(Verb::Install, Channel::Stable, Manifest::empty(), false, 1);
    op.step(Event::Succeeded);
    assert_eq!(op.phase, Phase::Failed(DvmError::ParseError));
}

#[test]
fn download_failure_is_network_error() {
    let mut sim = Sim::new("1.0", &["a"]);
    sim.fail = Some(Action::Download);
    let op = sim.run(Verb::Install, Channel::Development, 1);
    assert_eq!(op.phase, Phase::Failed(DvmError::NetworkError));
    assert_eq!(sim.live, None);
    assert_eq!(sim.staging, None);
    assert!(sim.manifest.is_empty());
}

#[test]
fn record_failure_is_partial_and_retry_recovers() {
    let mut sim = Sim::new("1.0", &["a"]);
    sim.fail = Some(Action::WriteManifest);
    let op = sim.run(Verb::Install, Channel::Stable, 1);
    assert_eq!(op.phase, Phase::Failed(DvmError::PartialRecordWrite));
    assert_eq!(sim.live, files(&["a"]));
    assert_eq!(sim.listed(Channel::Stable), None);
    sim.fail = None;
    let op = sim.run(Verb::Update, Channel::Stable, 2);
    assert_eq!(op.phase, Phase::Done(Outcome::Installed));
    assert_eq!(sim.listed(Channel::Stable), Some("1.0".to_string()));
}

#[test]
fn failed_delete_keeps_record() {
    let mut sim = Sim::new("1.0", &["a"]);
    sim.run(Verb::Install, Channel::Ptb, 1);
    sim.fail = Some(Action::DeleteLive);
    let op = sim.run(Verb::Remove, Channel::Ptb, 2);
    assert_eq!(op.phase, Phase::Failed(DvmError::RemoveError));
    assert_eq!(sim.listed(Channel::Ptb), Some("1.0".to_string()));
}

#[test]
fn pending_manifest_records_resolved_version() {
    let mut op = Operation::start(Verb::Install, Channel::Canary, Manifest::empty(), false, 42);
    op.step(Event::Resolved(b"7.7".to_vec(), "loc".to_string()));
    assert_eq!(op.locator, "loc");
    let m = op.pending_manifest();
    assert_eq!(m.get(Channel::Canary).unwrap().version, b"7.7".to_vec());
    assert_eq!(m.get(Channel::Canary).unwrap().installed_at, 42);
}

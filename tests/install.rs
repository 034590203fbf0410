use std::collections::{BTreeMap, BTreeSet};

use reqwest::header::{HeaderMap, HeaderValue};
use spin_models::catalog::{known_models, model_artifacts, Artifact};
use spin_models::command::{download_models, App, Command, InstallCommand};
use spin_models::error::InstallError;
use spin_models::install::{Action, Event, Installer, LinkOutcome};

/// A pretend outside world: remote resources by URL, a shared cache and a
/// destination tree, with counters of what the install did to them.
struct World {
    remote: BTreeMap<String, (u16, Option<String>, Vec<u8>)>,
    transfer_status: Option<u16>,
    cache: BTreeMap<String, Vec<u8>>,
    dest: BTreeMap<String, String>,
    dirs: BTreeSet<String>,
    probes: usize,
    transfers: usize,
    actions: Vec<Action>,
}

impl World {
    fn new() -> World {
        World {
            remote: BTreeMap::new(),
            transfer_status: None,
            cache: BTreeMap::new(),
            dest: BTreeMap::new(),
            dirs: BTreeSet::new(),
            probes: 0,
            transfers: 0,
            actions: Vec::new(),
        }
    }

    fn serve_catalog(&mut self) {
        for name in known_models() {
            for a in model_artifacts(&name).unwrap() {
                let etag = format!("\"id-{}\"", a.dest.replace('/', "-"));
                let body = format!("bytes of {}", a.url).into_bytes();
                self.remote.insert(a.url.clone(), (302, Some(etag), body));
            }
        }
    }

    fn answer(&mut self, action: &Action) -> Event {
        match action {
            Action::CreateDir { path } => {
                self.dirs.insert(path.clone());
                Event::DirCreated { ok: true }
            }
            Action::Probe { url } => {
                self.probes += 1;
                match self.remote.get(url) {
                    None => Event::Unreachable,
                    Some((status, etag, body)) => {
                        let mut headers = HeaderMap::new();
                        if let Some(e) = etag {
                            headers.insert("x-linked-etag", HeaderValue::from_str(e).unwrap());
                            headers.insert("etag", HeaderValue::from_str(e).unwrap());
                        }
                        let len = body.len().to_string();
                        headers.insert("x-linked-size", HeaderValue::from_str(&len).unwrap());
                        Event::Probed { status: *status, headers }
                    }
                }
            }
            Action::CheckCache { id } => Event::CacheChecked { present: self.cache.contains_key(id) },
            Action::Fetch { .. } => {
                self.transfers += 1;
                Event::Responded { status: self.transfer_status.unwrap_or(200) }
            }
            Action::Store { id } => {
                let url = match self.actions.iter().rev().find(|a| matches!(a, Action::Fetch { .. })) {
                    Some(Action::Fetch { url, .. }) => url.clone(),
                    _ => panic!("store without a transfer"),
                };
                let body = self.remote[&url].2.clone();
                self.cache.insert(id.clone(), body);
                Event::Stored { ok: true }
            }
            Action::Link { id, dest } => {
                if self.dest.contains_key(dest) {
                    Event::Linked { outcome: LinkOutcome::AlreadyExists }
                } else {
                    self.dest.insert(dest.clone(), id.clone());
                    Event::Linked { outcome: LinkOutcome::Linked }
                }
            }
            Action::Finish | Action::Abort { .. } => panic!("nothing to answer"),
        }
    }

    fn install(&mut self, names: &[&str]) -> Result<(), InstallError> {
        let names: Vec<String> = names.iter().map(|s| s.to_string()).collect();
        let (mut inst, mut action) = download_models(&names);
        loop {
            match &action {
                Action::Finish => return Ok(()),
                Action::Abort { error } => return Err(error.clone()),
                _ => {}
            }
            let event = self.answer(&action);
            self.actions.push(action);
            action = inst.step(event);
        }
    }
}

fn urls_of(name: &str) -> Vec<Artifact> {
    model_artifacts(name).unwrap()
}

#[test]
fn minilm_installs_two_files_in_its_directory() {
    let mut w = World::new();
    w.serve_catalog();
    assert_eq!(w.install(&["all-minikm-16-v2"]), Ok(()));
    let arts = urls_of("all-minikm-16-v2");
    assert_eq!(arts.len(), 2);
    assert_eq!(arts[0].dest, "all-minikm-16-v2/tokenizer.json");
    assert_eq!(arts[1].dest, "all-minikm-16-v2/model.safetensors");
    assert!(arts[0].url.ends_with("/tokenizer.json"));
    assert!(arts[1].url.ends_with("/model.safetensors"));
    let dests: Vec<&String> = w.dest.keys().collect();
    assert_eq!(dests, vec!["all-minikm-16-v2/model.safetensors", "all-minikm-16-v2/tokenizer.json"]);
    assert_eq!(w.dest["all-minikm-16-v2/tokenizer.json"], "id-all-minikm-16-v2-tokenizer.json");
    assert_eq!(w.dest["all-minikm-16-v2/model.safetensors"], "id-all-minikm-16-v2-model.safetensors");
    assert!(w.cache.contains_key("id-all-minikm-16-v2-tokenizer.json"));
    assert!(w.cache.contains_key("id-all-minikm-16-v2-model.safetensors"));
    assert_eq!(w.dirs.iter().collect::<Vec<_>>(), vec!["all-minikm-16-v2"]);
    assert_eq!(w.transfers, 2);
    assert!(matches!(&w.actions[0], Action::CreateDir { path } if path == "all-minikm-16-v2"));
}

#[test]
fn second_install_with_warm_cache_transfers_nothing() {
    let mut w = World::new();
    w.serve_catalog();
    assert_eq!(w.install(&["all-minikm-16-v2"]), Ok(()));
    let cache_before = w.cache.clone();
    let first_links = w.dest.clone();
    w.dest.clear();
    w.transfers = 0;
    w.actions.clear();
    assert_eq!(w.install(&["all-minikm-16-v2"]), Ok(()));
    assert_eq!(w.transfers, 0);
    assert!(!w.actions.iter().any(|a| matches!(a, Action::Fetch { .. } | Action::Store { .. })));
    assert_eq!(w.cache, cache_before);
    assert_eq!(w.dest, first_links);
}

#[test]
fn one_transfer_per_distinct_identifier() {
    let mut w = World::new();
    w.serve_catalog();
    assert_eq!(w.install(&["llama2-chat", "codellama-instruct"]), Ok(()));
    assert_eq!(w.transfers, 2);
    assert_eq!(w.cache.len(), 2);
    assert_eq!(w.dest.len(), 2);
    assert!(w.dest.contains_key("llama2-chat"));
    assert!(w.dest.contains_key("codellama-instruct"));
}

#[test]
fn shared_identifier_is_fetched_once() {
    let mut w = World::new();
    w.serve_catalog();
    let a = urls_of("llama2-chat")[0].url.clone();
    let b = urls_of("codellama-instruct")[0].url.clone();
    let same = w.remote[&a].1.clone();
    w.remote.get_mut(&b).unwrap().1 = same;
    assert_eq!(w.install(&["llama2-chat", "codellama-instruct"]), Ok(()));
    assert_eq!(w.transfers, 1);
    assert_eq!(w.dest["llama2-chat"], w.dest["codellama-instruct"]);
}

#[test]
fn unknown_model_fails_without_network() {
    let mut w = World::new();
    w.serve_catalog();
    let r = w.install(&["gpt-17"]);
    assert_eq!(r, Err(InstallError::UnknownModel { name: "gpt-17".to_string() }));
    assert_eq!(w.probes, 0);
    assert_eq!(w.transfers, 0);
    assert!(w.actions.is_empty());
}

#[test]
fn unknown_model_after_a_known_one_stops_there() {
    let mut w = World::new();
    w.serve_catalog();
    let r = w.install(&["llama2-chat", "nope", "codellama-instruct"]);
    assert_eq!(r, Err(InstallError::UnknownModel { name: "nope".to_string() }));
    assert_eq!(w.dest.len(), 1);
    assert_eq!(w.probes, 1);
}

#[test]
fn probe_not_found_aborts_and_caches_nothing() {
    let mut w = World::new();
    w.serve_catalog();
    let url = urls_of("llama2-chat")[0].url.clone();
    w.remote.get_mut(&url).unwrap().0 = 404;
    assert_eq!(w.install(&["llama2-chat"]), Err(InstallError::FetchFailed { url, status: 404 }));
    assert!(w.cache.is_empty());
    assert_eq!(w.transfers, 0);
}

#[test]
fn probe_not_found_without_identity_is_missing_identity() {
    let mut w = World::new();
    w.serve_catalog();
    let url = urls_of("llama2-chat")[0].url.clone();
    let r = w.remote.get_mut(&url).unwrap();
    r.0 = 404;
    r.1 = None;
    assert_eq!(w.install(&["llama2-chat"]), Err(InstallError::MissingIdentity { url }));
    assert!(w.cache.is_empty());
    assert_eq!(w.transfers, 0);
}

#[test]
fn reinstall_links_each_file_to_the_same_entry() {
    let mut w = World::new();
    w.serve_catalog();
    assert_eq!(w.install(&["all-minikm-16-v2", "llama2-chat"]), Ok(()));
    let first: Vec<(String, Vec<u8>)> =
        w.dest.iter().map(|(d, id)| (d.clone(), w.cache[id].clone())).collect();
    w.dest.clear();
    assert_eq!(w.install(&["all-minikm-16-v2", "llama2-chat"]), Ok(()));
    let second: Vec<(String, Vec<u8>)> =
        w.dest.iter().map(|(d, id)| (d.clone(), w.cache[id].clone())).collect();
    assert_eq!(first, second);
    assert_eq!(first.len(), 3);
}

#[test]
fn probe_without_identity_aborts() {
    let mut w = World::new();
    w.serve_catalog();
    let url = urls_of("codellama-instruct")[0].url.clone();
    w.remote.get_mut(&url).unwrap().1 = None;
    assert_eq!(w.install(&["codellama-instruct"]), Err(InstallError::MissingIdentity { url }));
    assert!(w.cache.is_empty());
}

#[test]
fn transfer_server_error_aborts_and_caches_nothing() {
    let mut w = World::new();
    w.serve_catalog();
    w.transfer_status = Some(500);
    let url = urls_of("llama2-chat")[0].url.clone();
    assert_eq!(w.install(&["llama2-chat"]), Err(InstallError::FetchFailed { url, status: 500 }));
    assert!(w.cache.is_empty());
    assert!(w.dest.is_empty());
}

#[test]
fn second_install_into_same_destination_collides() {
    let mut w = World::new();
    w.serve_catalog();
    assert_eq!(w.install(&["all-minikm-16-v2"]), Ok(()));
    let before = w.dest.clone();
    let r = w.install(&["all-minikm-16-v2"]);
    assert_eq!(
        r,
        Err(InstallError::LinkCollision { path: "all-minikm-16-v2/tokenizer.json".to_string() })
    );
    assert_eq!(w.dest, before);
}

#[test]
fn unreachable_host_is_a_network_error() {
    let mut w = World::new();
    let url = urls_of("llama2-chat")[0].url.clone();
    assert_eq!(w.install(&["llama2-chat"]), Err(InstallError::NetworkError { url }));
}

#[test]
fn failed_store_and_link_are_reported() {
    let names = vec!["llama2-chat".to_string()];
    let (mut inst, first) = download_models(&names);
    let url = urls_of("llama2-chat")[0].url.clone();
    assert_eq!(first, Action::Probe { url: url.clone() });
    let mut h = HeaderMap::new();
    h.insert("etag", HeaderValue::from_static("\"e1\""));
    h.insert("content-length", HeaderValue::from_static("77"));
    let a = inst.step(Event::Probed { status: 200, headers: h });
    assert_eq!(a, Action::CheckCache { id: "e1".to_string() });
    let a = inst.step(Event::CacheChecked { present: false });
    assert_eq!(a, Action::Fetch { url: url.clone(), id: "e1".to_string(), size: Some(77) });
    let a = inst.step(Event::Responded { status: 200 });
    assert_eq!(a, Action::Store { id: "e1".to_string() });
    let a = inst.step(Event::Stored { ok: false });
    assert_eq!(a, Action::Abort { error: InstallError::CacheWriteError { id: "e1".to_string() } });
    assert!(inst.is_over());
    let a = inst.step(Event::Stored { ok: true });
    assert_eq!(a, Action::Abort { error: InstallError::CacheWriteError { id: "e1".to_string() } });

    let (mut inst, _) = download_models(&names);
    let mut h = HeaderMap::new();
    h.insert("etag", HeaderValue::from_static("e2"));
    inst.step(Event::Probed { status: 200, headers: h });
    let a = inst.step(Event::CacheChecked { present: true });
    assert_eq!(a, Action::Link { id: "e2".to_string(), dest: "llama2-chat".to_string() });
    let a = inst.step(Event::Linked { outcome: LinkOutcome::Failed });
    assert_eq!(
        a,
        Action::Abort { error: InstallError::FilesystemError { path: "llama2-chat".to_string() } }
    );
}

#[test]
fn unexpected_event_leaves_the_request_standing() {
    let names = vec!["all-minikm-16-v2".to_string()];
    let (mut inst, first) = download_models(&names);
    assert_eq!(first, Action::CreateDir { path: "all-minikm-16-v2".to_string() });
    let a = inst.step(Event::CacheChecked { present: true });
    assert_eq!(a, first);
    assert_eq!(inst.pending_action(), first);
    let a = inst.step(Event::DirCreated { ok: false });
    assert_eq!(
        a,
        Action::Abort {
            error: InstallError::FilesystemError { path: "all-minikm-16-v2".to_string() }
        }
    );
}

#[test]
fn empty_request_finishes_at_once() {
    let (inst, first) = Installer::start(Vec::new());
    assert_eq!(first, Action::Finish);
    assert!(inst.is_over());
}

#[test]
fn catalog_lookup() {
    assert!(model_artifacts("llama2-chat").is_some());
    assert!(model_artifacts("codellama-instruct").is_some());
    assert!(model_artifacts("Llama2-chat").is_none());
    assert!(model_artifacts("").is_none());
    assert_eq!(known_models(), vec!["llama2-chat", "codellama-instruct", "all-minikm-16-v2"]);
}

fn app(model_name: Option<&str>) -> App {
    App {
        command: Command::Install(InstallCommand {
            model_name: model_name.map(|s| s.to_string()),
            app_source: std::path::PathBuf::from("spin.toml"),
            target_spin_version: None,
        }),
    }
}

#[test]
fn named_model_is_the_only_request() {
    let Command::Install(cmd) = &app(Some("llama2-chat")).command;
    assert_eq!(cmd.model_names(&vec![0, 2]), vec!["llama2-chat".to_string()]);
}

#[test]
fn picked_positions_select_catalog_names() {
    let Command::Install(cmd) = &app(None).command;
    assert_eq!(
        cmd.model_names(&vec![2, 0, 9]),
        vec!["all-minikm-16-v2".to_string(), "llama2-chat".to_string()]
    );
    assert!(cmd.model_names(&vec![]).is_empty());
}

#[test]
fn nothing_picked_means_no_install() {
    assert!(app(None).run(&vec![]).is_none());
    let (_, first) = app(None).run(&vec![1]).unwrap();
    let url = urls_of("codellama-instruct")[0].url.clone();
    assert_eq!(first, Action::Probe { url });
    let (_, first) = app(Some("x")).run(&vec![]).unwrap();
    assert_eq!(first, Action::Abort { error: InstallError::UnknownModel { name: "x".to_string() } });
}

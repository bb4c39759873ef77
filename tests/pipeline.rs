use trendpost::compose::{compose_post, Layout};
use trendpost::config::DenylistConfig;
use trendpost::repo::Repo;
use trendpost::schedule::{Action, Event, Scheduler};
use trendpost::store::MemoryStore;

fn widget() -> Repo {
    Repo {
        author: "acme".to_string(),
        description: "A fast widget".to_string(),
        name: "widget".to_string(),
        stars: 42,
    }
}

fn no_rules() -> DenylistConfig {
    DenylistConfig { names: vec![], authors: vec![], descriptions: vec![] }
}

#[test]
fn marker_lives_for_ttl() {
    let mut store = MemoryStore::new();
    let repo = widget();
    assert!(!store.is_posted(&repo, 100));
    store.mark_posted(&repo, 60, 100);
    assert!(store.is_posted(&repo, 100));
    assert!(store.is_posted(&repo, 159));
    assert!(!store.is_posted(&repo, 160));
    assert!(store.contains_live("acme/widget", 130));
    assert!(!store.contains_live("acme/other", 130));
}

#[test]
fn marker_rewrite_extends_life() {
    let mut store = MemoryStore::new();
    store.set_ex("k", 1, 10, 0);
    store.set_ex("k", 2, 10, 5);
    assert!(store.contains_live("k", 14));
    assert!(!store.contains_live("k", 15));
    store.set_ex("j", 3, u64::MAX, 5);
    assert!(store.contains_live("j", u64::MAX - 1));
    assert!(store.contains_live("j", u64::MAX));
}

#[test]
fn failing_publisher_does_not_stop_the_others() {
    let mut s = Scheduler::new(no_rules(), 3);
    assert_eq!(s.pending(), Action::Fetch);
    assert_eq!(s.step(Event::Fetched(vec![widget()])), Action::CheckPosted(0));
    assert_eq!(s.step(Event::Checked(false)), Action::Publish(0, 0));
    assert_eq!(s.step(Event::Published), Action::Publish(0, 1));
    assert_eq!(s.step(Event::PublishFailed), Action::Publish(0, 2));
    assert_eq!(s.step(Event::Published), Action::MarkPosted(0));
    assert_eq!(s.step(Event::Marked), Action::PausePost);
    assert_eq!(s.step(Event::Paused), Action::PauseFetch);
    assert_eq!(s.step(Event::Paused), Action::Fetch);
}

#[test]
fn posted_and_failed_checks_skip_candidates() {
    let other = Repo {
        author: "b".to_string(),
        description: String::new(),
        name: "c".to_string(),
        stars: 0,
    };
    let third = Repo { author: "d".to_string(), description: String::new(), name: "e".to_string(), stars: 1 };
    let mut s = Scheduler::new(no_rules(), 0);
    assert_eq!(s.step(Event::Fetched(vec![widget(), other, third])), Action::CheckPosted(0));
    assert_eq!(s.step(Event::Checked(true)), Action::CheckPosted(1));
    assert_eq!(s.step(Event::StoreFailed), Action::CheckPosted(2));
    assert_eq!(s.step(Event::Checked(false)), Action::MarkPosted(2));
    assert_eq!(s.step(Event::StoreFailed), Action::PausePost);
    assert_eq!(s.step(Event::Paused), Action::PauseFetch);
}

#[test]
fn unexpected_event_changes_nothing() {
    let mut s = Scheduler::new(no_rules(), 1);
    assert_eq!(s.step(Event::Marked), Action::Fetch);
    assert_eq!(s.step(Event::FetchFailed), Action::PauseFetch);
    assert_eq!(s.step(Event::Published), Action::PauseFetch);
    assert_eq!(s.candidates(), 0);
}

/// Runs one cycle over `repos`, with one publisher that composes with
/// `layout`; returns the posts sent and the store writes made.
fn run_cycle(
    denylist: DenylistConfig,
    repos: Vec<Repo>,
    store: &mut MemoryStore,
    layout: &Layout,
    ttl: u64,
    now: u64,
) -> (Vec<String>, usize) {
    let mut s = Scheduler::new(denylist, 1);
    let mut posts = vec![];
    let mut writes = 0;
    let mut action = s.step(Event::Fetched(repos));
    loop {
        let event = match action {
            Action::CheckPosted(i) => Event::Checked(store.is_posted(s.candidate(i), now)),
            Action::Publish(i, _) => {
                let repo = s.candidate(i);
                posts.push(compose_post(layout, repo, &repo.description));
                Event::Published
            }
            Action::MarkPosted(i) => {
                let repo = s.candidate(i);
                store.mark_posted(repo, ttl, now);
                writes += 1;
                Event::Marked
            }
            Action::PausePost => Event::Paused,
            Action::PauseFetch | Action::Fetch => break,
        };
        action = s.step(event);
    }
    (posts, writes)
}

#[test]
fn new_candidate_is_posted_and_marked() {
    let mut store = MemoryStore::new();
    let layout = Layout { total: 50, stars_first: false, link_width: Some(1) };
    let (posts, writes) = run_cycle(no_rules(), vec![widget()], &mut store, &layout, 3600, 1000);
    assert_eq!(posts.len(), 1);
    assert_eq!(writes, 1);
    let post = &posts[0];
    let url_len = widget().get_url().chars().count();
    assert!(post.chars().count() - url_len + 1 <= 50);
    assert!(post.contains("widget"));
    assert!(post.contains("★42"));
    assert!(store.contains_live("acme/widget", 1000));
    assert!(store.contains_live("acme/widget", 1000 + 3599));
    assert!(!store.contains_live("acme/widget", 1000 + 3600));
    let (again, writes) = run_cycle(no_rules(), vec![widget()], &mut store, &layout, 3600, 2000);
    assert!(again.is_empty());
    assert_eq!(writes, 0);
}

#[test]
fn denylisted_candidate_is_skipped() {
    let mut store = MemoryStore::new();
    let layout = Layout { total: 50, stars_first: false, link_width: Some(1) };
    let rules = DenylistConfig { names: vec![], authors: vec![], descriptions: vec!["fast widget".to_string()] };
    let (posts, writes) = run_cycle(rules, vec![widget()], &mut store, &layout, 3600, 1000);
    assert!(posts.is_empty());
    assert_eq!(writes, 0);
    assert!(!store.contains_live("acme/widget", 1000));
}

#[test]
fn denylisted_candidate_between_others_is_passed_over() {
    let blocked = Repo {
        author: "spam".to_string(),
        description: String::new(),
        name: "x".to_string(),
        stars: 0,
    };
    let rules = DenylistConfig { names: vec![], authors: vec!["spam".to_string()], descriptions: vec![] };
    let mut s = Scheduler::new(rules, 1);
    assert_eq!(s.step(Event::Fetched(vec![blocked, widget()])), Action::CheckPosted(1));
    assert_eq!(s.candidate(1).name, "widget");
    assert_eq!(s.step(Event::Checked(false)), Action::Publish(1, 0));
    assert_eq!(s.step(Event::PublishFailed), Action::MarkPosted(1));
}

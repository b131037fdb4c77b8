use servo_engine::dispatch::{classify, ContentCommand};
use servo_engine::element_type::ElementTypeId;
use servo_engine::macros;
use servo_engine::supervisor::{Action, Event, Message, Phase, Subsystem, Supervisor};
use servo_engine::url::{is_script_path, Url};

fn url(href: &str, path: &str) -> Url {
    Url::new(href.to_string(), path.to_string())
}

fn load(session: u64, u: &Url) -> Event {
    Event::Request { session, message: Message::LoadUrl(u.clone()) }
}

fn exit(session: u64) -> Event {
    Event::Request { session, message: Message::Exit }
}

fn feed(sup: &mut Supervisor, event: Event) -> Vec<Action> {
    assert!(sup.accepts(&event));
    sup.step(event)
}

#[test]
fn load_document_is_parsed() {
    let (mut sup, first) = Supervisor::start();
    let u = url("http://example.com/index.html", "/index.html");
    let actions = feed(&mut sup, load(first, &u));
    assert_eq!(actions, vec![Action::Navigate(ContentCommand::ParseDocument(u)), Action::Grant(1)]);
    assert_eq!(sup.phase(), Phase::Serving);
    assert!(sup.is_pending(1));
    assert!(!sup.is_pending(first));
}

#[test]
fn load_script_is_executed() {
    let (mut sup, first) = Supervisor::start();
    let u = url("http://example.com/app.js", "/app.js");
    let actions = feed(&mut sup, load(first, &u));
    assert_eq!(actions, vec![Action::Navigate(ContentCommand::ExecuteScript(u)), Action::Grant(1)]);
    assert!(sup.is_pending(1));
}

#[test]
fn successive_loads_each_forward_one_command() {
    let (mut sup, mut endpoint) = Supervisor::start();
    let urls = vec![
        url("http://a.org/", "/"),
        url("http://a.org/lib.js", "/lib.js"),
        url("http://a.org/page.jsx", "/page.jsx"),
        url("http://a.org/x.js?v=2", "/x.js"),
    ];
    let mut forwarded = Vec::new();
    for u in &urls {
        let actions = feed(&mut sup, load(endpoint, u));
        assert_eq!(actions.len(), 2);
        forwarded.push(actions[0].clone());
        match actions[1] {
            Action::Grant(next) => endpoint = next,
            _ => panic!("no continuation"),
        }
    }
    assert_eq!(
        forwarded,
        vec![
            Action::Navigate(ContentCommand::ParseDocument(urls[0].clone())),
            Action::Navigate(ContentCommand::ExecuteScript(urls[1].clone())),
            Action::Navigate(ContentCommand::ParseDocument(urls[2].clone())),
            Action::Navigate(ContentCommand::ExecuteScript(urls[3].clone())),
        ]
    );
    assert_eq!(endpoint, 4);
}

#[test]
fn exit_runs_the_shutdown_in_order() {
    let (mut sup, first) = Supervisor::start();
    let actions = feed(&mut sup, exit(first));
    assert_eq!(
        actions,
        vec![
            Action::Stop(Subsystem::Content),
            Action::Stop(Subsystem::Layout),
            Action::Stop(Subsystem::Renderer),
        ]
    );
    assert_eq!(sup.phase(), Phase::Exiting { session: first });
    assert!(!sup.accepts(&Event::Open));
    assert!(!sup.accepts(&exit(first)));
    let actions = feed(&mut sup, Event::RendererStopped);
    assert_eq!(
        actions,
        vec![
            Action::Stop(Subsystem::ImageCache),
            Action::Stop(Subsystem::ResourceLoader),
            Action::AckExited(first),
        ]
    );
    assert_eq!(sup.phase(), Phase::Exited);
}

#[test]
fn nothing_is_sent_after_exited() {
    let (mut sup, first) = Supervisor::start();
    feed(&mut sup, exit(first));
    feed(&mut sup, Event::RendererStopped);
    let u = url("http://example.com/index.html", "/index.html");
    assert!(feed(&mut sup, load(first, &u)).is_empty());
    assert!(feed(&mut sup, Event::Open).is_empty());
    assert!(feed(&mut sup, Event::RendererStopped).is_empty());
    assert!(feed(&mut sup, exit(7)).is_empty());
    assert_eq!(sup.phase(), Phase::Exited);
}

#[test]
fn a_used_endpoint_is_not_served_again() {
    let (mut sup, first) = Supervisor::start();
    let u = url("http://example.com/index.html", "/index.html");
    feed(&mut sup, load(first, &u));
    assert!(!sup.accepts(&load(first, &u)));
    assert!(!sup.accepts(&exit(first)));
    assert!(!sup.is_pending(first));
}

#[test]
fn unknown_endpoint_or_early_ack_is_refused() {
    let (sup, _) = Supervisor::start();
    let u = url("http://example.com/", "/");
    assert!(!sup.accepts(&load(5, &u)));
    assert!(!sup.accepts(&Event::RendererStopped));
    assert!(sup.accepts(&Event::Open));
}

#[test]
fn two_concurrent_sessions_are_both_forwarded() {
    let (mut sup, first) = Supervisor::start();
    let second = match feed(&mut sup, Event::Open).as_slice() {
        [Action::Grant(id)] => *id,
        _ => panic!("no endpoint granted"),
    };
    assert_ne!(first, second);
    let a = url("http://example.com/a.html", "/a.html");
    let b = url("http://example.com/b.js", "/b.js");
    let from_second = feed(&mut sup, load(second, &b));
    let from_first = feed(&mut sup, load(first, &a));
    assert_eq!(from_second[0], Action::Navigate(ContentCommand::ExecuteScript(b)));
    assert_eq!(from_first[0], Action::Navigate(ContentCommand::ParseDocument(a)));
    assert_eq!(from_second[1], Action::Grant(2));
    assert_eq!(from_first[1], Action::Grant(3));
    assert!(sup.is_pending(2) && sup.is_pending(3));
}

#[test]
fn other_pending_endpoints_survive_a_load() {
    let (mut sup, first) = Supervisor::start();
    feed(&mut sup, Event::Open);
    feed(&mut sup, Event::Open);
    let u = url("http://example.com/", "/");
    feed(&mut sup, load(first, &u));
    assert!(sup.is_pending(1));
    assert!(sup.is_pending(2));
    assert!(sup.is_pending(3));
    assert!(!sup.is_pending(first));
}

#[test]
fn exit_does_not_wait_for_a_dispatch_in_flight() {
    let (mut sup, first) = Supervisor::start();
    let u = url("http://example.com/slow.html", "/slow.html");
    let actions = feed(&mut sup, load(first, &u));
    assert_eq!(actions[0], Action::Navigate(ContentCommand::ParseDocument(u)));
    let actions = feed(&mut sup, exit(1));
    assert_eq!(actions[0], Action::Stop(Subsystem::Content));
    assert_eq!(actions.len(), 3);
    assert_eq!(sup.phase(), Phase::Exiting { session: 1 });
}

#[test]
fn exit_discards_other_pending_endpoints() {
    let (mut sup, first) = Supervisor::start();
    feed(&mut sup, Event::Open);
    feed(&mut sup, exit(first));
    assert!(!sup.is_pending(1));
    assert!(!sup.accepts(&exit(1)));
}

#[test]
fn script_suffix_edges() {
    assert!(!is_script_path(""));
    assert!(!is_script_path("js"));
    assert!(!is_script_path("/js"));
    assert!(is_script_path(".js"));
    assert!(is_script_path("/a/b.js"));
    assert!(!is_script_path("/a.JS"));
    assert!(!is_script_path("/a.js/"));
    assert!(!is_script_path("/a.json"));
    assert!(is_script_path("/\u{e9}t\u{e9}.js"));
}

#[test]
fn classification_reads_the_path_only() {
    let u = url("http://example.com/x.js", "/x.html");
    assert_eq!(classify(u.clone()), ContentCommand::ParseDocument(u));
    let v = url("http://example.com/x.html", "/x.js");
    assert_eq!(classify(v.clone()), ContentCommand::ExecuteScript(v));
}

#[test]
fn element_kinds_compare_by_variant() {
    assert_eq!(ElementTypeId::HTMLAreaElementTypeId, ElementTypeId::HTMLAreaElementTypeId);
    assert_ne!(ElementTypeId::HTMLFormElementTypeId, ElementTypeId::HTMLAreaElementTypeId);
    macros();
}

use autopilot::config::Project;
use autopilot::dispatch::{ConfigError, Dispatcher, Outcome};
use autopilot::filter::{accepts, name_allowed, FilterPolarity, Notification};

fn project(token: &str, location: &str, names: Option<Vec<&str>>) -> Project {
    Project {
        token: token.to_string(),
        location: location.to_string(),
        compose_file: "docker-compose.yaml".to_string(),
        package_names: names.map(|ns| ns.into_iter().map(|n| n.to_string()).collect()),
    }
}

fn note(name: Option<&str>) -> Notification {
    Notification { package_name: name.map(|n| n.to_string()) }
}

fn dispatcher(projects: Vec<Project>, polarity: FilterPolarity) -> Dispatcher {
    Dispatcher::new(projects, polarity).expect("tokens are unique")
}

#[test]
fn duplicate_tokens_are_rejected() {
    let ps = vec![project("abc", "/srv/a", None), project("abc", "/srv/b", None)];
    match Dispatcher::new(ps, FilterPolarity::RejectListed) {
        Err(ConfigError::DuplicateToken) => {}
        Ok(_) => panic!("duplicate tokens must not build a dispatcher"),
    }
}

#[test]
fn empty_project_list_builds() {
    let mut d = dispatcher(Vec::new(), FilterPolarity::RejectListed);
    let out = d.begin(&"abc".to_string(), &note(Some("pkg")));
    assert!(matches!(out, Outcome::UnknownToken));
}

#[test]
fn unknown_token_does_nothing() {
    let mut d = dispatcher(vec![project("abc", "/srv/app", None)], FilterPolarity::RejectListed);
    let out = d.begin(&"unknown-token".to_string(), &note(Some("pkg")));
    assert!(matches!(out, Outcome::UnknownToken));
    assert_eq!(d.gates.held, vec![false]);
}

#[test]
fn malformed_payload_does_nothing() {
    let mut d = dispatcher(vec![project("abc", "/srv/app", None)], FilterPolarity::RejectListed);
    let out = d.begin(&"abc".to_string(), &note(None));
    assert!(matches!(out, Outcome::MalformedPayload));
    assert_eq!(d.gates.held, vec![false]);
}

#[test]
fn allow_list_blocks_unlisted_name() {
    let ps = vec![project("abc", "/srv/app", Some(vec!["good"]))];
    let mut d = dispatcher(ps, FilterPolarity::AllowListed);
    let out = d.begin(&"abc".to_string(), &note(Some("evil")));
    assert!(matches!(out, Outcome::FilteredName));
    assert_eq!(d.gates.held, vec![false]);
}

#[test]
fn allow_list_passes_listed_name() {
    let ps = vec![project("abc", "/srv/app", Some(vec!["good"]))];
    let mut d = dispatcher(ps, FilterPolarity::AllowListed);
    let out = d.begin(&"abc".to_string(), &note(Some("good")));
    assert!(matches!(out, Outcome::Triggered(_)));
}

#[test]
fn reject_list_blocks_listed_name() {
    let ps = vec![project("abc", "/srv/app", Some(vec!["good"]))];
    let mut d = dispatcher(ps, FilterPolarity::RejectListed);
    let out = d.begin(&"abc".to_string(), &note(Some("good")));
    assert!(matches!(out, Outcome::FilteredName));
    assert_eq!(d.gates.held, vec![false]);
}

#[test]
fn reject_list_passes_unlisted_name() {
    let ps = vec![project("abc", "/srv/app", Some(vec!["good"]))];
    let mut d = dispatcher(ps, FilterPolarity::RejectListed);
    let out = d.begin(&"abc".to_string(), &note(Some("other")));
    assert!(matches!(out, Outcome::Triggered(_)));
}

#[test]
fn no_filter_accepts_any_name() {
    let p = project("abc", "/srv/app", None);
    assert!(accepts(&p, &note(Some("anything")), FilterPolarity::RejectListed));
    assert!(accepts(&p, &note(Some("anything")), FilterPolarity::AllowListed));
    assert!(!accepts(&p, &note(None), FilterPolarity::RejectListed));
}

#[test]
fn name_allowed_matches_polarity() {
    let p = project("abc", "/srv/app", Some(vec!["a", "b"]));
    assert!(!name_allowed(&p, &"a".to_string(), FilterPolarity::RejectListed));
    assert!(name_allowed(&p, &"c".to_string(), FilterPolarity::RejectListed));
    assert!(name_allowed(&p, &"a".to_string(), FilterPolarity::AllowListed));
    assert!(!name_allowed(&p, &"c".to_string(), FilterPolarity::AllowListed));
}

#[test]
fn trigger_carries_target_path() {
    let mut d = dispatcher(vec![project("abc", "/srv/app", None)], FilterPolarity::RejectListed);
    let out = d.begin(&"abc".to_string(), &note(Some("pkg")));
    match out {
        Outcome::Triggered(target) => assert_eq!(target, "/srv/app/docker-compose.yaml"),
        _ => panic!("a well-formed notification for a known token must trigger"),
    }
    assert_eq!(d.gates.held, vec![true]);
}

#[test]
fn burst_triggers_exactly_once() {
    let mut d = dispatcher(vec![project("abc", "/srv/app", None)], FilterPolarity::RejectListed);
    let token = "abc".to_string();
    let mut triggered = 0;
    for _ in 0..5 {
        match d.begin(&token, &note(Some("pkg"))) {
            Outcome::Triggered(_) => triggered += 1,
            Outcome::AlreadyRunning => {}
            _ => panic!("a burst notification must either trigger or find its gate held"),
        }
    }
    assert_eq!(triggered, 1);
    assert_eq!(d.gates.held, vec![true]);
}

#[test]
fn release_reenables_trigger() {
    let mut d = dispatcher(vec![project("abc", "/srv/app", None)], FilterPolarity::RejectListed);
    let token = "abc".to_string();
    assert!(matches!(d.begin(&token, &note(Some("pkg"))), Outcome::Triggered(_)));
    assert!(matches!(d.begin(&token, &note(Some("pkg"))), Outcome::AlreadyRunning));
    d.finish(&token);
    assert_eq!(d.gates.held, vec![false]);
    assert!(matches!(d.begin(&token, &note(Some("pkg"))), Outcome::Triggered(_)));
}

#[test]
fn distinct_projects_are_independent() {
    let ps = vec![project("abc", "/srv/a", None), project("xyz", "/srv/b", None)];
    let mut d = dispatcher(ps, FilterPolarity::RejectListed);
    let out_a = d.begin(&"abc".to_string(), &note(Some("pkg")));
    let out_b = d.begin(&"xyz".to_string(), &note(Some("pkg")));
    match (out_a, out_b) {
        (Outcome::Triggered(ta), Outcome::Triggered(tb)) => {
            assert_eq!(ta, "/srv/a/docker-compose.yaml");
            assert_eq!(tb, "/srv/b/docker-compose.yaml");
        }
        _ => panic!("both projects must trigger"),
    }
    assert_eq!(d.gates.held, vec![true, true]);
    d.finish(&"abc".to_string());
    assert_eq!(d.gates.held, vec![false, true]);
}

#[test]
fn unknown_token_leaves_other_gates_alone() {
    let ps = vec![project("abc", "/srv/a", None), project("xyz", "/srv/b", None)];
    let mut d = dispatcher(ps, FilterPolarity::RejectListed);
    assert!(matches!(d.begin(&"abc".to_string(), &note(Some("pkg"))), Outcome::Triggered(_)));
    assert!(matches!(d.begin(&"nope".to_string(), &note(Some("pkg"))), Outcome::UnknownToken));
    assert_eq!(d.gates.held, vec![true, false]);
}

#[test]
fn end_to_end_single_publish() {
    // project with token `abc`, no package filter
    let mut d = dispatcher(vec![project("abc", "/srv/app", None)], FilterPolarity::RejectListed);
    let mut log: Vec<String> = Vec::new();

    let token = "abc".to_string();
    match d.begin(&token, &note(Some("image"))) {
        autopilot::dispatch::Outcome::Triggered(target) => {
            for step in autopilot::actuator::actuator_plan() {
                match step {
                    autopilot::actuator::Step::Settle => {
                        log.push(format!("settle {}s", autopilot::actuator::SETTLE_SECONDS))
                    }
                    autopilot::actuator::Step::RefreshArtifacts => {
                        log.push(format!("refresh {}", target))
                    }
                    autopilot::actuator::Step::Restart => log.push(format!("restart {}", target)),
                }
            }
            d.finish(&token);
        }
        _ => panic!("the publish notification must trigger"),
    }

    assert_eq!(
        log,
        vec![
            "settle 5s".to_string(),
            "refresh /srv/app/docker-compose.yaml".to_string(),
            "restart /srv/app/docker-compose.yaml".to_string(),
        ]
    );
    assert_eq!(d.gates.held, vec![false]);
}

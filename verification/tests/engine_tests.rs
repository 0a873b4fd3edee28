use hydra_core::config::ConfigError;
use hydra_core::config::HydraConfig;
use hydra_core::engine::run_attack;
use hydra_core::engine::Prober;
use hydra_core::outcome::AttemptOutcome;
use hydra_core::outcome::ProbeReply;
use hydra_core::stats::HydraStats;

fn strings(items: &[&str]) -> Vec<String> {
    items.iter().map(|s| s.to_string()).collect()
}

fn config(users: &[&str], passes: &[&str], cap: Option<usize>) -> HydraConfig {
    HydraConfig {
        target_ip: String::from("10.0.0.1"),
        username_list: strings(users),
        password_list: strings(passes),
        threads: 4,
        timeout_ms: 1000,
        max_attempts: cap,
        rate_per_sec: 100,
    }
}

/// Accepts exactly the password "admin123", whatever the username.
struct KnownPassword;

impl Prober for KnownPassword {
    fn probe(&mut self, _target: &str, _username: &str, password: &str, _timeout_ms: u64) -> ProbeReply {
        if password == "admin123" {
            ProbeReply::Accepted
        } else {
            ProbeReply::Rejected(String::from("invalid credentials"))
        }
    }
}

/// Never answers within the timeout.
struct NeverAnswers;

impl Prober for NeverAnswers {
    fn probe(&mut self, _target: &str, _username: &str, _password: &str, _timeout_ms: u64) -> ProbeReply {
        ProbeReply::NoReply
    }
}

/// Accepts everything instantly.
struct AcceptsAll;

impl Prober for AcceptsAll {
    fn probe(&mut self, _target: &str, _username: &str, _password: &str, _timeout_ms: u64) -> ProbeReply {
        ProbeReply::Accepted
    }
}

#[test]
fn full_cross_product_is_attempted() {
    let cfg = config(&["a", "b", "c"], &["1", "2", "3", "4"], None);
    let mut stats = HydraStats::new(0);
    let mut prober = KnownPassword;
    let report = run_attack(&cfg, &mut stats, &mut prober).unwrap();
    assert_eq!(stats.total_attempts(), 12);
    assert_eq!(report.outcomes.len(), 12);
    assert_eq!(stats.total_successes(), 0);
    assert_eq!(report.found.len(), 0);
}

#[test]
fn cap_stops_dispatch() {
    let cfg = config(&["a", "b", "c"], &["1", "2", "3", "4"], Some(5));
    let mut stats = HydraStats::new(0);
    let mut prober = AcceptsAll;
    let report = run_attack(&cfg, &mut stats, &mut prober).unwrap();
    assert_eq!(stats.total_attempts(), 5);
    assert_eq!(report.outcomes.len(), 5);
    assert!(stats.total_attempts() <= 5);
}

#[test]
fn cap_larger_than_cross_product_changes_nothing() {
    let cfg = config(&["a"], &["1", "2"], Some(100));
    let mut stats = HydraStats::new(0);
    let mut prober = NeverAnswers;
    let report = run_attack(&cfg, &mut stats, &mut prober).unwrap();
    assert_eq!(stats.total_attempts(), 2);
    assert_eq!(report.outcomes.len(), 2);
}

#[test]
fn known_password_yields_two_successes() {
    let cfg = config(&["alice", "bob"], &["x", "admin123"], None);
    let mut stats = HydraStats::new(0);
    let mut prober = KnownPassword;
    let report = run_attack(&cfg, &mut stats, &mut prober).unwrap();
    assert_eq!(stats.total_attempts(), 4);
    assert_eq!(stats.total_successes(), 2);
    assert_eq!(report.found.len(), 2);
    assert_eq!(report.found[0].render(), "alice:admin123@10.0.0.1");
    assert_eq!(report.found[1].render(), "bob:admin123@10.0.0.1");
}

#[test]
fn timeouts_are_classified_and_counted() {
    let cfg = config(&["alice", "bob"], &["x", "y", "z"], None);
    let mut stats = HydraStats::new(0);
    let mut prober = NeverAnswers;
    let report = run_attack(&cfg, &mut stats, &mut prober).unwrap();
    assert_eq!(stats.total_attempts(), 6);
    assert_eq!(stats.total_successes(), 0);
    assert_eq!(report.found.len(), 0);
    assert_eq!(report.outcomes.len(), 6);
    for outcome in &report.outcomes {
        assert!(matches!(outcome, AttemptOutcome::TimedOut { .. }));
    }
}

#[test]
fn dispatch_order_is_username_major() {
    let cfg = config(&["u1", "u2"], &["p1", "p2"], None);
    let mut stats = HydraStats::new(0);
    let mut prober = NeverAnswers;
    let report = run_attack(&cfg, &mut stats, &mut prober).unwrap();
    let pairs: Vec<(String, String)> = report
        .outcomes
        .iter()
        .map(|o| match o {
            AttemptOutcome::TimedOut { username, password } => (username.clone(), password.clone()),
            _ => panic!("expected a timeout outcome"),
        })
        .collect();
    let expected = vec![
        ("u1".to_string(), "p1".to_string()),
        ("u1".to_string(), "p2".to_string()),
        ("u2".to_string(), "p1".to_string()),
        ("u2".to_string(), "p2".to_string()),
    ];
    assert_eq!(pairs, expected);
}

#[test]
fn failure_reason_is_preserved() {
    let cfg = config(&["alice"], &["wrong"], None);
    let mut stats = HydraStats::new(0);
    let mut prober = KnownPassword;
    let report = run_attack(&cfg, &mut stats, &mut prober).unwrap();
    assert_eq!(report.outcomes.len(), 1);
    match &report.outcomes[0] {
        AttemptOutcome::Failure { username, password, reason } => {
            assert_eq!(username, "alice");
            assert_eq!(password, "wrong");
            assert_eq!(reason, "invalid credentials");
        }
        _ => panic!("expected a failure outcome"),
    }
}

#[test]
fn invalid_config_aborts_with_no_attempts() {
    let mut cfg = config(&["alice"], &["x"], None);
    cfg.threads = 0;
    let mut stats = HydraStats::new(0);
    let mut prober = AcceptsAll;
    let result = run_attack(&cfg, &mut stats, &mut prober);
    assert!(matches!(result, Err(ConfigError::ZeroConcurrency)));
    assert_eq!(stats.total_attempts(), 0);
    assert_eq!(stats.total_successes(), 0);
}

#[test]
fn validate_reports_each_violation() {
    let good = config(&["alice"], &["x"], None);
    assert!(good.validate().is_ok());

    let mut c = config(&["alice"], &["x"], None);
    c.threads = 0;
    assert_eq!(c.validate(), Err(ConfigError::ZeroConcurrency));

    let mut c = config(&["alice"], &["x"], None);
    c.timeout_ms = 0;
    assert_eq!(c.validate(), Err(ConfigError::ZeroTimeout));

    let mut c = config(&["alice"], &["x"], None);
    c.rate_per_sec = 0;
    assert_eq!(c.validate(), Err(ConfigError::ZeroRate));

    let c = config(&[], &["x"], None);
    assert_eq!(c.validate(), Err(ConfigError::EmptyUsernameList));

    let c = config(&["alice"], &[], None);
    assert_eq!(c.validate(), Err(ConfigError::EmptyPasswordList));
}

#[test]
fn successes_never_exceed_attempts_at_any_point() {
    // Observe the counters after each single-pair run sharing one
    // collector: the subset invariant holds at every intermediate
    // snapshot.
    let mut stats = HydraStats::new(0);
    let mut prober = KnownPassword;
    for user in ["alice", "bob", "carol"] {
        for pass in ["admin123", "x"] {
            let cfg = config(&[user], &[pass], None);
            run_attack(&cfg, &mut stats, &mut prober).unwrap();
            let snap = stats.snapshot(10);
            assert!(snap.successes <= snap.attempts);
        }
    }
    assert_eq!(stats.total_attempts(), 6);
    assert_eq!(stats.total_successes(), 3);
}

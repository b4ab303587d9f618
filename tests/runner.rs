use api_check::client::{HttpRequest, HttpResponse, Method, Reply};
use api_check::runner::{
    check_fund_update, next_fund_id, token_cases, token_message, Action, Runner, Scenario, Step,
};
use api_check::error::{Error, ErrorKind};

const ROOT: &str = "http://host:8080/";
const VALID: &str = "Oy3hfPoH45ze7Q";

fn ok(status: u16, body: &str) -> Reply {
    Ok(HttpResponse { status, body: body.as_bytes().to_vec() })
}

fn sent(step: &Step) -> HttpRequest {
    match &step.action {
        Action::Send(r) => r.clone(),
        Action::Exit(c) => panic!("exit {}", c),
    }
}

/// A small model of the API: it accepts only the valid token, keeps a fund
/// ID and logs each fund read.
struct Fake {
    fund: usize,
    logs: Vec<String>,
    store_updates: bool,
}

impl Fake {
    fn answer(&mut self, r: &HttpRequest) -> Reply {
        let path = r.uri.strip_prefix(ROOT).unwrap();
        let authorized = r.token.as_deref() == Some(VALID);
        match (r.method, path) {
            (Method::Get, "api/health") => ok(200, ""),
            (Method::Get, "api/v0/fund") => {
                self.logs.push("fund read".to_string());
                ok(200, &format!("{{\"id\":{}}}", self.fund))
            }
            (_, p) if p.starts_with("api/control/") && !authorized => ok(401, ""),
            (Method::Get, "api/control/logs/get") => {
                let items: Vec<String> = self.logs.iter().map(|l| format!("\"{}\"", l)).collect();
                ok(200, &format!("[{}]", items.join(",")))
            }
            (Method::Post, "api/control/logs/clear") => {
                self.logs.clear();
                ok(200, "")
            }
            (Method::Post, p) => {
                let id: usize = p.strip_prefix("api/control/command/fund/id/").unwrap().parse().unwrap();
                if self.store_updates {
                    self.fund = id;
                }
                ok(200, "")
            }
            _ => ok(404, ""),
        }
    }
}

fn run(fake: &mut Fake) -> (Vec<(Scenario, bool, String)>, i32, Vec<HttpRequest>) {
    let mut runner = Runner::new(ROOT.to_string(), VALID.to_string());
    let mut step = runner.start();
    let mut reports = Vec::new();
    let mut requests = Vec::new();
    loop {
        for r in &step.reports {
            reports.push((r.scenario, r.passed, r.message.clone()));
        }
        match &step.action {
            Action::Exit(code) => {
                assert_eq!(runner.client().get_token(), VALID);
                return (reports, *code, requests);
            }
            Action::Send(req) => {
                requests.push(req.clone());
                let reply = fake.answer(req);
                step = runner.step(&reply);
            }
        }
    }
}

#[test]
fn token_cases_are_the_six_variants() {
    let cases = token_cases(VALID);
    let got: Vec<(String, bool)> = cases.into_iter().map(|c| (c.token, c.authorized)).collect();
    assert_eq!(
        got,
        vec![
            ("oy3hfpoh45ze7q".to_string(), false),
            ("oy3hfpoh45ze7q".to_string(), false),
            ("OY3HFPOH45ZE7Q".to_string(), false),
            ("foobar".to_string(), false),
            ("".to_string(), false),
            (VALID.to_string(), true),
        ]
    );
}

#[test]
fn token_cases_change_ascii_letters_only() {
    let cases = token_cases("Äb-Z9");
    assert_eq!(cases[0].token, "Äb-z9");
    assert_eq!(cases[2].token, "ÄB-Z9");
    assert_eq!(cases[5].token, "Äb-Z9");
}

#[test]
fn next_fund_id_wraps_at_the_boundary() {
    assert_eq!(next_fund_id(41), 0);
    assert_eq!(next_fund_id(5), 6);
    assert_eq!(next_fund_id(0), 1);
    assert_eq!(next_fund_id(83), 0);
    assert_eq!(next_fund_id(usize::MAX), (usize::MAX % 42 + 1) % 42);
}

#[test]
fn check_fund_update_compares_the_read_back() {
    assert!(check_fund_update(6, Ok(6)).is_ok());
    let e = check_fund_update(6, Ok(5)).unwrap_err();
    assert_eq!(e.kind, ErrorKind::AssertionFailed);
    assert_eq!(e.message, "Fund ID was not updated");
    let e = check_fund_update(6, Err(Error::new(ErrorKind::Decode, "bad".to_string()))).unwrap_err();
    assert_eq!(e.kind, ErrorKind::Decode);
}

#[test]
fn token_message_wording() {
    assert_eq!(token_message("foobar", false), "Token 'foobar' should not have been authenticated");
    assert_eq!(token_message("abc", true), "Token 'abc' should have been authenticated");
}

#[test]
fn full_run_against_a_conforming_api() {
    let mut fake = Fake { fund: 5, logs: Vec::new(), store_updates: true };
    let (reports, code, requests) = run(&mut fake);
    assert_eq!(code, 0);
    assert_eq!(
        reports.iter().map(|r| (r.0, r.1)).collect::<Vec<_>>(),
        vec![
            (Scenario::HealthCheck, true),
            (Scenario::TokenTests, true),
            (Scenario::IdUpdateTest, true),
            (Scenario::LogClearingTest, true),
        ]
    );
    assert_eq!(requests[0].uri, "http://host:8080/api/health");
    assert_eq!(requests[1].token.as_deref(), Some("oy3hfpoh45ze7q"));
    assert_eq!(requests[6].token.as_deref(), Some(VALID));
    assert!(requests.iter().any(|r| r.uri == "http://host:8080/api/control/command/fund/id/6"));
    assert_eq!(fake.fund, 6);
    assert!(fake.logs.is_empty());
}

#[test]
fn fund_id_41_is_updated_to_0() {
    let mut fake = Fake { fund: 41, logs: Vec::new(), store_updates: true };
    let (_, code, requests) = run(&mut fake);
    assert_eq!(code, 0);
    assert!(requests.iter().any(|r| r.uri == "http://host:8080/api/control/command/fund/id/0"));
    assert_eq!(fake.fund, 0);
}

#[test]
fn failed_health_check_ends_the_run() {
    let mut runner = Runner::new(ROOT.to_string(), VALID.to_string());
    runner.start();
    let step = runner.step(&ok(500, ""));
    assert_eq!(step.reports.len(), 1);
    assert_eq!(step.reports[0].scenario, Scenario::HealthCheck);
    assert!(!step.reports[0].passed);
    assert!(matches!(step.action, Action::Exit(1)));
    assert!(!runner.success());
}

#[test]
fn unreachable_api_ends_the_run() {
    let mut runner = Runner::new(ROOT.to_string(), VALID.to_string());
    runner.start();
    let step = runner.step(&Err("connection refused".to_string()));
    assert!(matches!(step.action, Action::Exit(1)));
    assert_eq!(step.reports[0].message, "connection refused");
}

#[test]
fn token_failures_accumulate_and_the_token_is_restored() {
    let mut runner = Runner::new(ROOT.to_string(), VALID.to_string());
    let mut step = runner.start();
    step = runner.step(&ok(200, ""));
    let mut failures = Vec::new();
    for _ in 0..6 {
        assert_eq!(runner.client().get_token(), VALID);
        assert_eq!(sent(&step).uri, "http://host:8080/api/control/logs/get");
        // an API that accepts every token
        step = runner.step(&ok(200, "[]"));
        for r in &step.reports {
            assert_eq!(r.scenario, Scenario::TokenTests);
            assert!(!r.passed);
            failures.push(r.message.clone());
        }
    }
    assert_eq!(runner.client().get_token(), VALID);
    assert_eq!(
        failures,
        vec![
            "Token 'oy3hfpoh45ze7q' should not have been authenticated".to_string(),
            "Token 'oy3hfpoh45ze7q' should not have been authenticated".to_string(),
            "Token 'OY3HFPOH45ZE7Q' should not have been authenticated".to_string(),
            "Token 'foobar' should not have been authenticated".to_string(),
            "Token '' should not have been authenticated".to_string(),
        ]
    );
    assert!(!runner.success());
    assert_eq!(sent(&step).uri, "http://host:8080/api/v0/fund");
}

#[test]
fn ignored_update_fails_the_id_scenario() {
    let mut fake = Fake { fund: 5, logs: Vec::new(), store_updates: false };
    let (reports, code, _) = run(&mut fake);
    assert_eq!(code, 1);
    assert!(reports.contains(&(Scenario::IdUpdateTest, false, "Fund ID was not updated".to_string())));
    assert!(reports.contains(&(Scenario::LogClearingTest, true, String::new())));
}

#[test]
fn empty_logs_before_clearing_fail() {
    let mut runner = Runner::new(ROOT.to_string(), VALID.to_string());
    runner.start();
    runner.step(&ok(200, ""));
    for i in 0..6 {
        runner.step(&if i == 5 { ok(200, "[]") } else { ok(401, "") });
    }
    runner.step(&ok(200, "{\"id\":1}"));
    runner.step(&ok(200, ""));
    let step = runner.step(&ok(200, "{\"id\":2}"));
    assert!(step.reports[0].passed);
    let step = runner.step(&ok(200, "{\"id\":2}"));
    assert_eq!(sent(&step).uri, "http://host:8080/api/control/logs/get");
    let step = runner.step(&ok(200, "[]"));
    assert_eq!(step.reports[0].message, "API should have at least one log entry after query");
    assert!(matches!(step.action, Action::Exit(1)));
}

#[test]
fn logs_left_after_clearing_fail() {
    let mut runner = Runner::new(ROOT.to_string(), VALID.to_string());
    runner.start();
    runner.step(&ok(200, ""));
    for i in 0..6 {
        runner.step(&if i == 5 { ok(200, "[]") } else { ok(401, "") });
    }
    runner.step(&ok(200, "{\"id\":1}"));
    runner.step(&ok(200, ""));
    runner.step(&ok(200, "{\"id\":2}"));
    runner.step(&ok(200, "{\"id\":2}"));
    let step = runner.step(&ok(200, "[\"x\"]"));
    assert_eq!(sent(&step).uri, "http://host:8080/api/control/logs/clear");
    let step = runner.step(&ok(200, ""));
    let step2 = runner.step(&ok(200, "[\"y\"]"));
    assert!(step.reports.is_empty());
    assert_eq!(step2.reports[0].message, "API should not have any log entries after clearing");
    assert!(matches!(step2.action, Action::Exit(1)));
}

#[test]
fn failed_update_reports_the_error_text() {
    let mut runner = Runner::new(ROOT.to_string(), VALID.to_string());
    runner.start();
    runner.step(&ok(200, ""));
    for i in 0..6 {
        runner.step(&if i == 5 { ok(200, "[]") } else { ok(401, "") });
    }
    let step = runner.step(&ok(200, "{\"id\":41}"));
    assert_eq!(sent(&step).uri, "http://host:8080/api/control/command/fund/id/0");
    let step = runner.step(&ok(500, ""));
    assert_eq!(step.reports[0].scenario, Scenario::IdUpdateTest);
    assert_eq!(step.reports[0].message, "Failed to update fund ID: STATUS 500");
    assert_eq!(sent(&step).uri, "http://host:8080/api/v0/fund");
    let step = runner.step(&Err("connection reset".to_string()));
    assert_eq!(step.reports[0].message, "connection reset");
    assert!(matches!(step.action, Action::Exit(1)));
}

use vstd::prelude::*;

use crate::client::{
    failure_message, fund_error, fund_id_of, fund_path, fund_update_path, logs_clear_path,
    logs_error, logs_get_path, logs_of, reply_ok, request_for, ClientView, HttpRequest, Method,
    Reply, Wrapper,
};
use crate::error::{Error, ErrorKind};
use crate::text::{ascii_lower, ascii_upper, to_ascii_lower, to_ascii_upper};

verus! {

/// The size of the cyclic fund ID space that the update scenario assumes.
pub const FUND_ID_SPACE: usize = 42;

/// The number of token cases the authentication scenario probes.
pub const TOKEN_CASES: usize = 6;

/// One of the scenarios of a run.
#[derive(Clone, Copy, Debug, PartialEq, Eq, Structural)]
pub enum Scenario {
    HealthCheck,
    TokenTests,
    IdUpdateTest,
    LogClearingTest,
}

/// The outcome of a scenario, or of one failed case of it.
#[derive(Clone, Debug)]
pub struct Report {
    pub scenario: Scenario,
    pub passed: bool,
    pub message: String,
}

/// What the caller does next: send a request and hand its reply to
/// [`Runner::step`], or end the process with the exit status.
#[derive(Clone, Debug)]
pub enum Action {
    Send(HttpRequest),
    Exit(i32),
}

/// The reports to show, and the next action.
#[derive(Clone, Debug)]
pub struct Step {
    pub reports: Vec<Report>,
    pub action: Action,
}

/// Where a run stands: which reply it waits for.
#[derive(Clone, Copy, Debug, PartialEq, Eq, Structural)]
pub enum Phase {
    Start,
    Health,
    Token(usize),
    IdFetch,
    IdUpdate(usize),
    IdRefetch(usize),
    LogSeed,
    LogsBefore,
    LogsClear,
    LogsAfter,
    Done,
}

/// One probe of the authentication scenario: a token to try, and whether
/// the API should accept it.
#[derive(Clone, Debug)]
pub struct TokenCase {
    pub token: String,
    pub authorized: bool,
}

/// The token that case `i` tries, for the valid token `valid`.
pub open spec fn case_token(valid: Seq<char>, i: int) -> Seq<char> {
    if i == 0 || i == 1 {
        ascii_lower(valid)
    } else if i == 2 {
        ascii_upper(valid)
    } else if i == 3 {
        "foobar"@
    } else if i == 4 {
        Seq::empty()
    } else {
        valid
    }
}

/// Whether case `i` should be accepted: only the valid token itself is.
pub open spec fn case_authorized(i: int) -> bool {
    i == 5
}

pub open spec fn cases_for(valid: Seq<char>, cases: Seq<TokenCase>) -> bool {
    &&& cases.len() == TOKEN_CASES
    &&& forall|i: int|
        0 <= i < TOKEN_CASES ==> (#[trigger] cases[i]).token@ == case_token(valid, i)
            && cases[i].authorized == case_authorized(i)
}

/// The six token cases for the valid token: its lowercase form twice, its
/// uppercase form, `foobar`, the empty token, and the valid token itself.
pub fn token_cases(valid: &str) -> (r: Vec<TokenCase>)
    ensures
        cases_for(valid@, r@),
{
    proof {
        reveal_strlit("foobar");
        reveal_strlit("");
    }
    let r = vec![
        TokenCase { token: to_ascii_lower(valid), authorized: false },
        TokenCase { token: to_ascii_lower(valid), authorized: false },
        TokenCase { token: to_ascii_upper(valid), authorized: false },
        TokenCase { token: String::from_str("foobar"), authorized: false },
        TokenCase { token: String::from_str(""), authorized: false },
        TokenCase { token: String::from_str(valid), authorized: true },
    ];
    proof {
        assert forall|i: int| 0 <= i < TOKEN_CASES implies (#[trigger] r@[i]).token@ == case_token(valid@, i)
            && r@[i].authorized == case_authorized(i) by {
            if i == 4 {
                assert(r@[4].token@ =~= Seq::<char>::empty());
            }
        }
    }
    r
}

/// The fund ID the update scenario sets after reading `id`.
pub fn next_fund_id(id: usize) -> (r: usize)
    ensures
        r == (id + 1) % (FUND_ID_SPACE as int),
        r < FUND_ID_SPACE,
{
    if id < FUND_ID_SPACE - 1 {
        id + 1
    } else {
        (id % FUND_ID_SPACE + 1) % FUND_ID_SPACE
    }
}

pub open spec fn not_updated_message() -> Seq<char> {
    "Fund ID was not updated"@
}

pub open spec fn logs_missing_message() -> Seq<char> {
    "API should have at least one log entry after query"@
}

pub open spec fn logs_left_message() -> Seq<char> {
    "API should not have any log entries after clearing"@
}

/// The verdict of the update scenario on the ID read back after setting
/// `expected`: it passes exactly when that read gave `expected`.
pub fn check_fund_update(expected: usize, fetched: Result<usize, Error>) -> (r: Result<(), Error>)
    ensures
        r is Ok <==> fetched == Ok::<usize, Error>(expected),
        fetched is Err ==> r is Err && r->Err_0 == fetched->Err_0,
        fetched is Ok && r is Err ==> r->Err_0.kind == ErrorKind::AssertionFailed
            && r->Err_0.message@ == not_updated_message(),
{
    match fetched {
        Ok(v) => {
            if v == expected {
                Ok(())
            } else {
                proof { reveal_strlit("Fund ID was not updated"); }
                Err(Error::assertion("Fund ID was not updated"))
            }
        },
        Err(e) => Err(e),
    }
}

/// The message of a token case whose outcome was not the expected one.
pub open spec fn token_failure(token: Seq<char>, authorized: bool) -> Seq<char> {
    "Token '"@ + token + (if authorized { "' should have been authenticated"@ } else {
        "' should not have been authenticated"@
    })
}

/// The message of a token case whose outcome was not the expected one.
pub fn token_message(token: &str, authorized: bool) -> (r: String)
    ensures
        r@ == token_failure(token@, authorized),
{
    proof {
        reveal_strlit("Token '");
        reveal_strlit("' should have been authenticated");
        reveal_strlit("' should not have been authenticated");
    }
    let mut r = String::from_str("Token '");
    r.append(token);
    if authorized {
        r.append("' should have been authenticated");
    } else {
        r.append("' should not have been authenticated");
    }
    r
}

/// The abstract state of a run.
pub ghost struct RunnerView {
    pub client: ClientView,
    pub cases: Seq<TokenCase>,
    pub phase: Phase,
    pub success: bool,
}

/// The client as it is while case `i` is probed.
pub open spec fn probing(c: ClientView, cases: Seq<TokenCase>, i: int) -> ClientView {
    ClientView { root: c.root, token: cases[i].token@ }
}

/// Whether the step sends the request for `path` of a client with view `c`.
pub open spec fn sends(s: Step, c: ClientView, method: Method, path: Seq<char>, auth: bool) -> bool {
    s.action is Send && request_for(c, s.action->Send_0, method, path, auth)
}

/// Whether the step reports one outcome of `sc`, and nothing else.
pub open spec fn reports_one(s: Step, sc: Scenario, passed: bool) -> bool {
    &&& s.reports@.len() == 1
    &&& s.reports@[0].scenario == sc
    &&& s.reports@[0].passed == passed
}

/// Whether the step reports one failure of `sc` with `message` and then
/// moves on to the log clearing scenario.
pub open spec fn fails_to_logs(s: Step, post: RunnerView, sc: Scenario, message: Seq<char>) -> bool {
    &&& reports_one(s, sc, false)
    &&& s.reports@[0].message@ == message
    &&& post.phase == Phase::LogSeed
    &&& sends(s, post.client, Method::Get, fund_path(), false)
    &&& !post.success
}

/// Whether the step reports one outcome of the log clearing scenario, with
/// `message`, and ends the run, with exit status 0 exactly when every
/// scenario passed.
pub open spec fn finishes(s: Step, post: RunnerView, passed: bool, message: Seq<char>) -> bool {
    &&& reports_one(s, Scenario::LogClearingTest, passed)
    &&& s.reports@[0].message@ == message
    &&& post.phase == Phase::Done
    &&& s.action == Action::Exit(if post.success { 0 } else { 1 })
}

/// The health check: a failure ends the run at once with status 1; a
/// success probes the first token case.
pub open spec fn health_step(pre: RunnerView, reply: Reply, post: RunnerView, s: Step) -> bool {
    if reply_ok(reply) {
        &&& reports_one(s, Scenario::HealthCheck, true)
        &&& post.phase == Phase::Token(0)
        &&& post.success == pre.success
        &&& sends(s, probing(pre.client, pre.cases, 0), Method::Get, logs_get_path(), true)
    } else {
        &&& reports_one(s, Scenario::HealthCheck, false)
        &&& s.reports@[0].message@ == failure_message(reply, "Health check failed"@)
        &&& post.phase == Phase::Done
        &&& !post.success
        &&& s.action == Action::Exit(1)
    }
}

/// A token case: it passes exactly when the logs were fetched if and only
/// if the case should be accepted. The next case is probed, or after the
/// last one the fund ID is fetched.
pub open spec fn token_step(pre: RunnerView, reply: Reply, post: RunnerView, s: Step) -> bool {
    let i = pre.phase->Token_0 as int;
    let matched = (logs_of(reply) is Some) == pre.cases[i].authorized;
    let last = i + 1 == TOKEN_CASES;
    &&& post.success == (pre.success && matched)
    &&& s.reports@.len() == (if matched { 0int } else { 1int }) + (if last && post.success { 1int } else { 0int })
    &&& !matched ==> s.reports@[0].scenario == Scenario::TokenTests && !s.reports@[0].passed
        && s.reports@[0].message@ == token_failure(pre.cases[i].token@, pre.cases[i].authorized)
    &&& last && post.success ==> s.reports@[0].scenario == Scenario::TokenTests && s.reports@[0].passed
    &&& !last ==> post.phase == Phase::Token((i + 1) as usize)
        && sends(s, probing(pre.client, pre.cases, i + 1), Method::Get, logs_get_path(), true)
    &&& last ==> post.phase == Phase::IdFetch && sends(s, pre.client, Method::Get, fund_path(), false)
}

/// The first read of the fund ID: the ID after the one read is sent, else
/// the update scenario fails.
pub open spec fn id_fetch_step(pre: RunnerView, reply: Reply, post: RunnerView, s: Step) -> bool {
    match fund_id_of(reply) {
        Some(id) => {
            let next = ((id + 1) % (FUND_ID_SPACE as int)) as usize;
            &&& post.phase == Phase::IdUpdate(next)
            &&& s.reports@.len() == 0
            &&& post.success == pre.success
            &&& sends(s, pre.client, Method::Post, fund_update_path(next as nat), true)
        },
        None => fails_to_logs(s, post, Scenario::IdUpdateTest, fund_error(reply)),
    }
}

/// The update: on success the ID is read back, else the scenario fails.
pub open spec fn id_update_step(pre: RunnerView, reply: Reply, post: RunnerView, s: Step) -> bool {
    if reply_ok(reply) {
        &&& post.phase == Phase::IdRefetch(pre.phase->IdUpdate_0)
        &&& s.reports@.len() == 0
        &&& post.success == pre.success
        &&& sends(s, pre.client, Method::Get, fund_path(), false)
    } else {
        fails_to_logs(s, post, Scenario::IdUpdateTest, failure_message(reply, "Failed to update fund ID"@))
    }
}

/// The read back: the scenario passes exactly when it gives the ID that was
/// sent; then the log clearing scenario begins.
pub open spec fn id_refetch_step(pre: RunnerView, reply: Reply, post: RunnerView, s: Step) -> bool {
    match fund_id_of(reply) {
        Some(id) => if id == pre.phase->IdRefetch_0 {
            &&& reports_one(s, Scenario::IdUpdateTest, true)
            &&& post.phase == Phase::LogSeed
            &&& post.success == pre.success
            &&& sends(s, pre.client, Method::Get, fund_path(), false)
        } else {
            fails_to_logs(s, post, Scenario::IdUpdateTest, not_updated_message())
        },
        None => fails_to_logs(s, post, Scenario::IdUpdateTest, fund_error(reply)),
    }
}

/// The read of the fund ID that seeds the log: on success the logs are
/// fetched, else the run ends.
pub open spec fn log_seed_step(pre: RunnerView, reply: Reply, post: RunnerView, s: Step) -> bool {
    if fund_id_of(reply) is Some {
        &&& post.phase == Phase::LogsBefore
        &&& s.reports@.len() == 0
        &&& post.success == pre.success
        &&& sends(s, pre.client, Method::Get, logs_get_path(), true)
    } else {
        finishes(s, post, false, fund_error(reply)) && !post.success
    }
}

/// The logs before clearing must hold an entry; then they are cleared.
pub open spec fn logs_before_step(pre: RunnerView, reply: Reply, post: RunnerView, s: Step) -> bool {
    match logs_of(reply) {
        Some(logs) => if logs.len() > 0 {
            &&& post.phase == Phase::LogsClear
            &&& s.reports@.len() == 0
            &&& post.success == pre.success
            &&& sends(s, pre.client, Method::Post, logs_clear_path(), true)
        } else {
            finishes(s, post, false, logs_missing_message()) && !post.success
        },
        None => finishes(s, post, false, logs_error(reply)) && !post.success,
    }
}

/// The clearing: on success the logs are fetched again, else the run ends.
pub open spec fn logs_clear_step(pre: RunnerView, reply: Reply, post: RunnerView, s: Step) -> bool {
    if reply_ok(reply) {
        &&& post.phase == Phase::LogsAfter
        &&& s.reports@.len() == 0
        &&& post.success == pre.success
        &&& sends(s, pre.client, Method::Get, logs_get_path(), true)
    } else {
        finishes(s, post, false, failure_message(reply, "Failed to clear logs"@)) && !post.success
    }
}

/// The logs after clearing: the scenario passes exactly when they are empty,
/// and the run ends.
pub open spec fn logs_after_step(pre: RunnerView, reply: Reply, post: RunnerView, s: Step) -> bool {
    match logs_of(reply) {
        Some(logs) => if logs.len() == 0 {
            finishes(s, post, true, Seq::empty()) && post.success == pre.success
        } else {
            finishes(s, post, false, logs_left_message()) && !post.success
        },
        None => finishes(s, post, false, logs_error(reply)) && !post.success,
    }
}

/// Of the six token cases, exactly the one that carries the valid token is
/// expected to be accepted: every other case tries a token that differs from
/// the valid one. This holds for every valid token that changes under both
/// ASCII lowercasing and ASCII uppercasing; a token such as `abc`, equal to
/// its own lowercase form, would make the lowercase cases carry it.
pub proof fn lemma_only_valid_token_authorized(valid: Seq<char>, i: int)
    requires
        0 <= i < TOKEN_CASES,
        ascii_lower(valid) != valid,
        ascii_upper(valid) != valid,
    ensures
        case_authorized(i) <==> case_token(valid, i) == valid,
{
    if i == 3 {
        reveal_strlit("foobar");
        if valid == "foobar"@ {
            assert(ascii_lower(valid) =~= valid);
        }
    } else if i == 4 {
        if valid == Seq::<char>::empty() {
            assert(ascii_lower(valid) =~= valid);
        }
    }
}

/// Drives the scenarios against one client, in order: the health check,
/// the token cases, the fund ID update and the log clearing.
pub struct Runner {
    wrapper: Wrapper,
    cases: Vec<TokenCase>,
    phase: Phase,
    success: bool,
}

impl View for Runner {
    type V = RunnerView;

    closed spec fn view(&self) -> RunnerView {
        RunnerView {
            client: self.wrapper@,
            cases: self.cases@,
            phase: self.phase,
            success: self.success,
        }
    }
}

impl Runner {
    /// Well-formed: the client holds the valid token, the cases are those of
    /// that token, and the phase's values are in range.
    pub open spec fn wf(&self) -> bool {
        &&& cases_for(self@.client.token, self@.cases)
        &&& match self@.phase {
            Phase::Token(i) => i < TOKEN_CASES,
            Phase::IdUpdate(n) => n < FUND_ID_SPACE,
            Phase::IdRefetch(n) => n < FUND_ID_SPACE,
            _ => true,
        }
    }

    /// A run against the API under `root_uri` with the valid `token`.
    pub fn new(root_uri: String, token: String) -> (r: Runner)
        ensures
            r.wf(),
            r@.client.root == root_uri@,
            r@.client.token == token@,
            r@.phase == Phase::Start,
            r@.success,
    {
        let cases = token_cases(token.as_str());
        Runner { wrapper: Wrapper::new(root_uri, token), cases, phase: Phase::Start, success: true }
    }

    /// Whether every scenario so far passed.
    pub fn success(&self) -> (r: bool)
        ensures
            r == self@.success,
    {
        self.success
    }

    /// The client, with the valid token.
    pub fn client(&self) -> (r: &Wrapper)
        ensures
            r@ == self@.client,
    {
        &self.wrapper
    }

    /// The request of token case `i`: the token is swapped in for building
    /// it and restored right after.
    fn probe(&mut self, i: usize) -> (r: HttpRequest)
        requires
            old(self).wf(),
            i < TOKEN_CASES,
        ensures
            final(self)@ == old(self)@,
            request_for(probing(old(self)@.client, old(self)@.cases, i as int), r, Method::Get,
                logs_get_path(), true),
    {
        let saved = String::from_str(self.wrapper.get_token());
        self.wrapper.set_token(self.cases[i].token.as_str());
        let r = self.wrapper.fetch_logs_request();
        self.wrapper.set_token(saved.as_str());
        proof {
            assert(self.wrapper@ == old(self).wrapper@);
        }
        r
    }

    fn report(scenario: Scenario, passed: bool, message: String) -> (r: Report)
        ensures
            r.scenario == scenario,
            r.passed == passed,
            r.message@ == message@,
    {
        Report { scenario, passed, message }
    }

    /// Fails `scenario` with `e` and goes on to the log clearing scenario.
    fn fail_to_logs(&mut self, scenario: Scenario, e: Error) -> (s: Step)
        requires
            old(self).wf(),
        ensures
            final(self).wf(),
            final(self)@.client == old(self)@.client,
            final(self)@.cases == old(self)@.cases,
            fails_to_logs(s, final(self)@, scenario, e.message@),
    {
        self.success = false;
        self.phase = Phase::LogSeed;
        let req = self.wrapper.fetch_fund_id_request();
        Step { reports: vec![Runner::report(scenario, false, e.message)], action: Action::Send(req) }
    }

    /// Ends the run with the outcome of the log clearing scenario.
    fn finish(&mut self, passed: bool, message: String) -> (s: Step)
        requires
            old(self).wf(),
        ensures
            final(self).wf(),
            final(self)@.client == old(self)@.client,
            final(self)@.cases == old(self)@.cases,
            final(self)@.success == (old(self)@.success && passed),
            finishes(s, final(self)@, passed, message@),
    {
        if !passed {
            self.success = false;
        }
        self.phase = Phase::Done;
        let code: i32 = if self.success { 0 } else { 1 };
        Step { reports: vec![Runner::report(Scenario::LogClearingTest, passed, message)], action: Action::Exit(code) }
    }

    /// Begins the run with the health check.
    pub fn start(&mut self) -> (s: Step)
        requires
            old(self).wf(),
            old(self)@.phase == Phase::Start,
        ensures
            final(self).wf(),
            final(self)@ == (RunnerView { phase: Phase::Health, ..old(self)@ }),
            s.reports@.len() == 0,
            sends(s, old(self)@.client, Method::Get, crate::client::health_path(), false),
    {
        self.phase = Phase::Health;
        let req = self.wrapper.health_check_request();
        Step { reports: Vec::new(), action: Action::Send(req) }
    }
    fn token_step(&mut self, i: usize, reply: &Reply) -> (s: Step)
        requires
            old(self).wf(),
            old(self)@.phase == Phase::Token(i),
        ensures
            final(self).wf(),
            final(self)@.client == old(self)@.client,
            final(self)@.cases == old(self)@.cases,
            token_step(old(self)@, *reply, final(self)@, s),
    {
        let fetched = self.wrapper.fetch_logs(reply).is_ok();
        let authorized = self.cases[i].authorized;
        let mut reports: Vec<Report> = Vec::new();
        if fetched != authorized {
            self.success = false;
            let message = token_message(self.cases[i].token.as_str(), authorized);
            reports.push(Runner::report(Scenario::TokenTests, false, message));
        }
        if i + 1 < TOKEN_CASES {
            let req = self.probe(i + 1);
            self.phase = Phase::Token(i + 1);
            Step { reports, action: Action::Send(req) }
        } else {
            if self.success {
                reports.push(Runner::report(Scenario::TokenTests, true, String::new()));
            }
            self.phase = Phase::IdFetch;
            let req = self.wrapper.fetch_fund_id_request();
            Step { reports, action: Action::Send(req) }
        }
    }

    /// Takes the reply to the request of the last step and decides what
    /// comes next.
    pub fn step(&mut self, reply: &Reply) -> (s: Step)
        requires
            old(self).wf(),
            old(self)@.phase != Phase::Start,
            old(self)@.phase != Phase::Done,
        ensures
            final(self).wf(),
            final(self)@.client == old(self)@.client,
            final(self)@.cases == old(self)@.cases,
            final(self)@.success ==> old(self)@.success,
            s.action is Exit <==> final(self)@.phase == Phase::Done,
            s.action is Exit ==> s.action == Action::Exit(if final(self)@.success { 0 } else { 1 }),
            old(self)@.phase == Phase::Health ==> health_step(old(self)@, *reply, final(self)@, s),
            old(self)@.phase is Token ==> token_step(old(self)@, *reply, final(self)@, s),
            old(self)@.phase == Phase::IdFetch ==> id_fetch_step(old(self)@, *reply, final(self)@, s),
            old(self)@.phase is IdUpdate ==> id_update_step(old(self)@, *reply, final(self)@, s),
            old(self)@.phase is IdRefetch ==> id_refetch_step(old(self)@, *reply, final(self)@, s),
            old(self)@.phase == Phase::LogSeed ==> log_seed_step(old(self)@, *reply, final(self)@, s),
            old(self)@.phase == Phase::LogsBefore ==> logs_before_step(old(self)@, *reply, final(self)@, s),
            old(self)@.phase == Phase::LogsClear ==> logs_clear_step(old(self)@, *reply, final(self)@, s),
            old(self)@.phase == Phase::LogsAfter ==> logs_after_step(old(self)@, *reply, final(self)@, s),
    {
        match self.phase {
            Phase::Health => match self.wrapper.health_check(reply) {
                Ok(()) => {
                    let req = self.probe(0);
                    self.phase = Phase::Token(0);
                    Step {
                        reports: vec![Runner::report(Scenario::HealthCheck, true, String::new())],
                        action: Action::Send(req),
                    }
                },
                Err(e) => {
                    self.success = false;
                    self.phase = Phase::Done;
                    Step {
                        reports: vec![Runner::report(Scenario::HealthCheck, false, e.message)],
                        action: Action::Exit(1),
                    }
                },
            },
            Phase::Token(i) => self.token_step(i, reply),
            Phase::IdFetch => match self.wrapper.fetch_fund_id(reply) {
                Ok(id) => {
                    let next = next_fund_id(id);
                    self.phase = Phase::IdUpdate(next);
                    let req = self.wrapper.update_fund_id_request(next);
                    Step { reports: Vec::new(), action: Action::Send(req) }
                },
                Err(e) => self.fail_to_logs(Scenario::IdUpdateTest, e),
            },
            Phase::IdUpdate(next) => match self.wrapper.update_fund_id(reply) {
                Ok(()) => {
                    self.phase = Phase::IdRefetch(next);
                    let req = self.wrapper.fetch_fund_id_request();
                    Step { reports: Vec::new(), action: Action::Send(req) }
                },
                Err(e) => self.fail_to_logs(Scenario::IdUpdateTest, e),
            },
            Phase::IdRefetch(next) => {
                let fetched = self.wrapper.fetch_fund_id(reply);
                match check_fund_update(next, fetched) {
                    Ok(()) => {
                        self.phase = Phase::LogSeed;
                        let req = self.wrapper.fetch_fund_id_request();
                        Step {
                            reports: vec![Runner::report(Scenario::IdUpdateTest, true, String::new())],
                            action: Action::Send(req),
                        }
                    },
                    Err(e) => self.fail_to_logs(Scenario::IdUpdateTest, e),
                }
            },
            Phase::LogSeed => match self.wrapper.fetch_fund_id(reply) {
                Ok(_) => {
                    self.phase = Phase::LogsBefore;
                    let req = self.wrapper.fetch_logs_request();
                    Step { reports: Vec::new(), action: Action::Send(req) }
                },
                Err(e) => self.finish(false, e.message),
            },
            Phase::LogsBefore => match self.wrapper.fetch_logs(reply) {
                Ok(logs) => {
                    if logs.len() == 0 {
                        self.finish(false, String::from_str("API should have at least one log entry after query"))
                    } else {
                        self.phase = Phase::LogsClear;
                        let req = self.wrapper.clean_logs_request();
                        Step { reports: Vec::new(), action: Action::Send(req) }
                    }
                },
                Err(e) => self.finish(false, e.message),
            },
            Phase::LogsClear => match self.wrapper.clean_logs(reply) {
                Ok(()) => {
                    self.phase = Phase::LogsAfter;
                    let req = self.wrapper.fetch_logs_request();
                    Step { reports: Vec::new(), action: Action::Send(req) }
                },
                Err(e) => self.finish(false, e.message),
            },
            Phase::LogsAfter => match self.wrapper.fetch_logs(reply) {
                Ok(logs) => {
                    if logs.len() == 0 {
                        proof {
                            assert(crate::json::string_views(logs@) =~= Seq::<Seq<char>>::empty());
                        }
                        self.finish(true, String::new())
                    } else {
                        proof {
                            assert(crate::json::string_views(logs@).len() > 0);
                        }
                        self.finish(false, String::from_str("API should not have any log entries after clearing"))
                    }
                },
                Err(e) => self.finish(false, e.message),
            },
            _ => Step { reports: Vec::new(), action: Action::Exit(1) },
        }
    }
}

} // verus!

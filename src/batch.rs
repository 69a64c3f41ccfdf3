//! The batch orchestrator as a state machine. Its runner performs each
//! action it returns (a fetch, a login, the concurrent launches) and hands
//! the result back; every decision is taken here.
use vstd::prelude::*;
use crate::config::NessusConfig;
use crate::error::NessusError;
use crate::request::{
    is_header, json_content_type, launch_headers, launch_url, login_headers, script_url,
    session_cookie, session_url, user_agent, Header,
};
use crate::retry::RetryPolicy;
use crate::session::{json_quoted, parse_session_response, session_request_body};
use crate::text::decimal;
use crate::token::{api_token_of, extract_api_token};

verus! {

/// Where a batch stands.
#[derive(Clone, Copy, Debug, PartialEq, Eq, Structural)]
pub enum BatchPhase {
    /// Nothing done yet.
    Idle,
    /// The token script has been requested.
    AwaitingScript,
    /// The login request has been sent.
    AwaitingSession,
    /// The launches have been handed out.
    Launching,
    /// The batch result is known.
    Done,
}

/// One scan's launch request.
#[derive(Debug)]
pub struct LaunchRequest {
    pub scan_id: u32,
    pub url: String,
    pub headers: Vec<Header>,
}

/// What the runner of a batch does next.
#[derive(Debug)]
pub enum BatchAction {
    /// Stop: this is the batch result.
    Finish(Result<(), NessusError>),
    /// GET the token script at `url` and report its body.
    FetchScript { url: String },
    /// POST `body` to `url` with `headers` and report the reply body.
    Login { url: String, headers: Vec<Header>, body: String },
    /// Run every launch concurrently, each under `policy`, then call
    /// `finish`.
    LaunchAll { launches: Vec<LaunchRequest>, policy: RetryPolicy },
}

/// `r` starts scan `id` on `host` with the given API token and cookie.
pub open spec fn is_launch_request(
    r: LaunchRequest,
    host: Seq<char>,
    api_token: Seq<char>,
    cookie: Seq<char>,
    id: u32,
) -> bool {
    &&& r.scan_id == id
    &&& r.url@ == host + "/scans/"@ + decimal(id as nat) + "/launch"@
    &&& r.headers.len() == 4
    &&& is_header(r.headers[0], "User-Agent"@, user_agent())
    &&& is_header(r.headers[1], "X-Api-Token"@, api_token)
    &&& is_header(r.headers[2], "X-Cookie"@, cookie)
    &&& is_header(r.headers[3], "content-type"@, json_content_type())
}

/// One authenticated batch of launches.
pub struct LaunchBatch {
    pub config: NessusConfig,
    pub scan_ids: Vec<u32>,
    pub phase: BatchPhase,
    /// The API token, once extracted.
    pub api_token: String,
    /// Token-script requests issued so far.
    pub script_fetches: Ghost<nat>,
    /// Login requests issued so far.
    pub logins: Ghost<nat>,
}

impl LaunchBatch {
    /// The request counts agree with the phase.
    pub open spec fn wf(&self) -> bool {
        match self.phase {
            BatchPhase::Idle => self.script_fetches@ == 0 && self.logins@ == 0,
            BatchPhase::AwaitingScript => self.script_fetches@ == 1 && self.logins@ == 0
                && self.scan_ids.len() > 0,
            BatchPhase::AwaitingSession | BatchPhase::Launching => self.script_fetches@ == 1
                && self.logins@ == 1 && self.scan_ids.len() > 0,
            BatchPhase::Done => self.script_fetches@ <= 1 && self.logins@ <= self.script_fetches@,
        }
    }

    /// A batch over `scan_ids` that has done nothing yet.
    pub fn new(config: NessusConfig, scan_ids: Vec<u32>) -> (r: LaunchBatch)
        ensures
            r.wf(),
            r.config == config,
            r.scan_ids == scan_ids,
            r.phase == BatchPhase::Idle,
    {
        LaunchBatch {
            config,
            scan_ids,
            phase: BatchPhase::Idle,
            api_token: String::new(),
            script_fetches: Ghost(0),
            logins: Ghost(0),
        }
    }

    /// Starts the batch at Unix time `now_secs`. An empty batch is done at
    /// once, successfully and without any request; otherwise the token script
    /// is fetched.
    pub fn start(&mut self, now_secs: u64) -> (r: BatchAction)
        requires
            old(self).wf(),
            old(self).phase == BatchPhase::Idle,
        ensures
            final(self).wf(),
            final(self).config == old(self).config,
            final(self).scan_ids == old(self).scan_ids,
            old(self).scan_ids.len() == 0 ==> r == BatchAction::Finish(Ok(()))
                && final(self).phase == BatchPhase::Done && final(self).script_fetches@ == 0
                && final(self).logins@ == 0,
            old(self).scan_ids.len() > 0 ==> (r matches BatchAction::FetchScript { url } && url@
                == old(self).config.host@ + "/nessus6.js?v="@ + decimal(now_secs as nat))
                && final(self).phase == BatchPhase::AwaitingScript
                && final(self).script_fetches@ == 1 && final(self).logins@ == 0,
    {
        if self.scan_ids.len() == 0 {
            self.phase = BatchPhase::Done;
            return BatchAction::Finish(Ok(()));
        }
        self.phase = BatchPhase::AwaitingScript;
        self.script_fetches = Ghost(1);
        BatchAction::FetchScript { url: script_url(self.config.host.as_str(), now_secs) }
    }

    /// Takes the fetched token script (or the failure to fetch it). A failure,
    /// or a script without a token, ends the batch with that error; otherwise
    /// the login request follows.
    pub fn on_script(&mut self, fetched: Result<String, NessusError>) -> (r: BatchAction)
        requires
            old(self).wf(),
            old(self).phase == BatchPhase::AwaitingScript,
        ensures
            final(self).wf(),
            final(self).config == old(self).config,
            final(self).scan_ids == old(self).scan_ids,
            final(self).script_fetches == old(self).script_fetches,
            final(self).phase == BatchPhase::AwaitingSession <==> r is Login,
            final(self).phase != BatchPhase::AwaitingSession ==> final(self).phase
                == BatchPhase::Done && r is Finish && final(self).logins@ == 0,
            match fetched {
                Err(e) => r == BatchAction::Finish(Err(e)),
                Ok(body) => match api_token_of(body@) {
                    None => r matches BatchAction::Finish(Err(NessusError::Parse(_))),
                    Some(t) => final(self).api_token@ == t && r is Login && (r matches BatchAction::Login { url, headers, body } ==> url@
                        == old(self).config.host@ + "/session"@ && headers.len() == 3
                        && is_header(headers[0], "User-Agent"@, user_agent()) && is_header(
                        headers[1],
                        "X-Api-Token"@,
                        t,
                    ) && is_header(headers[2], "content-type"@, json_content_type()) && body@
                        == "{\"username\":"@ + json_quoted(old(self).config.username@)
                        + ",\"password\":"@ + json_quoted(old(self).config.password@) + "}"@),
                },
            },
    {
        let body = match fetched {
            Ok(b) => b,
            Err(e) => {
                self.phase = BatchPhase::Done;
                return BatchAction::Finish(Err(e));
            },
        };
        let token = match extract_api_token(body.as_str()) {
            Ok(t) => t,
            Err(e) => {
                self.phase = BatchPhase::Done;
                return BatchAction::Finish(Err(e));
            },
        };
        self.api_token = token;
        let login_body = session_request_body(
            self.config.username.as_str(),
            self.config.password.as_str(),
        );
        self.phase = BatchPhase::AwaitingSession;
        self.logins = Ghost(1);
        BatchAction::Login {
            url: session_url(self.config.host.as_str()),
            headers: login_headers(self.api_token.as_str()),
            body: login_body,
        }
    }

    /// Takes the login reply body (or the failure to get one). A failure, or
    /// a reply without a session token, ends the batch with that error;
    /// otherwise one launch request per scan id, in order, is handed out.
    pub fn on_session(&mut self, reply: Result<String, NessusError>) -> (r: BatchAction)
        requires
            old(self).wf(),
            old(self).phase == BatchPhase::AwaitingSession,
        ensures
            final(self).wf(),
            final(self).config == old(self).config,
            final(self).scan_ids == old(self).scan_ids,
            final(self).script_fetches == old(self).script_fetches,
            final(self).logins == old(self).logins,
            final(self).phase == BatchPhase::Launching <==> r is LaunchAll,
            final(self).phase != BatchPhase::Launching ==> final(self).phase == BatchPhase::Done,
            match reply {
                Err(e) => r == BatchAction::Finish(Err(e)),
                Ok(body) => match parse_session_response_spec(body@) {
                    None => if crate::session::json_parses(body@) {
                        r matches BatchAction::Finish(Err(NessusError::Parse(_)))
                    } else {
                        r matches BatchAction::Finish(Err(NessusError::Json(_)))
                    },
                    Some(t) => r matches BatchAction::LaunchAll { launches, policy } && policy
                        == RetryPolicy::launch_default_spec() && launches.len()
                        == old(self).scan_ids.len() && forall|i: int|
                        0 <= i < launches.len() ==> is_launch_request(
                            #[trigger] launches[i],
                            old(self).config.host@,
                            old(self).api_token@,
                            "token="@ + t,
                            old(self).scan_ids[i],
                        ),
                },
            },
    {
        let body = match reply {
            Ok(b) => b,
            Err(e) => {
                self.phase = BatchPhase::Done;
                return BatchAction::Finish(Err(e));
            },
        };
        let session_token = match parse_session_response(body.as_str()) {
            Ok(t) => t,
            Err(e) => {
                self.phase = BatchPhase::Done;
                return BatchAction::Finish(Err(e));
            },
        };
        let cookie = session_cookie(session_token.as_str());
        let mut launches: Vec<LaunchRequest> = Vec::new();
        let mut i: usize = 0;
        while i < self.scan_ids.len()
            invariant
                i <= self.scan_ids.len(),
                launches.len() == i,
                cookie@ == "token="@ + session_token@,
                forall|j: int|
                    0 <= j < i ==> is_launch_request(
                        #[trigger] launches[j],
                        self.config.host@,
                        self.api_token@,
                        cookie@,
                        self.scan_ids[j],
                    ),
            decreases self.scan_ids.len() - i,
        {
            let id = self.scan_ids[i];
            launches.push(
                LaunchRequest {
                    scan_id: id,
                    url: launch_url(self.config.host.as_str(), id),
                    headers: launch_headers(self.api_token.as_str(), cookie.as_str()),
                },
            );
            i += 1;
        }
        self.phase = BatchPhase::Launching;
        BatchAction::LaunchAll { launches, policy: RetryPolicy::launch_default() }
    }

    /// Ends a batch whose launches have all run to a terminal state. Their
    /// outcomes are only observed: the batch itself has succeeded.
    pub fn finish(&mut self) -> (r: Result<(), NessusError>)
        requires
            old(self).wf(),
            old(self).phase == BatchPhase::Launching,
        ensures
            final(self).wf(),
            final(self).phase == BatchPhase::Done,
            final(self).script_fetches@ == 1,
            final(self).logins@ == 1,
            r is Ok,
    {
        self.phase = BatchPhase::Done;
        Ok(())
    }
}

/// The session token that `parse_session_response` returns for `body`.
pub open spec fn parse_session_response_spec(body: Seq<char>) -> Option<Seq<char>> {
    if crate::session::json_parses(body) {
        crate::session::json_str_member(body, "token"@)
    } else {
        None
    }
}

/// Whatever the runner reports, and however many scans a batch holds, the
/// token script is requested at most once and the login at most once, never
/// before the script; once launches are handed out, both happened exactly
/// once.
pub proof fn lemma_single_authentication(b: LaunchBatch)
    requires
        b.wf(),
    ensures
        b.script_fetches@ <= 1,
        b.logins@ <= b.script_fetches@,
        b.phase == BatchPhase::Launching ==> b.script_fetches@ == 1 && b.logins@ == 1,
{
}

} // verus!

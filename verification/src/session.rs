//! The sign-in and playback flows of the backend: which browser flow may
//! open, what ends one, when the playback engine may come up, and how
//! often a dropping engine is reconnected.

use vstd::prelude::*;
use vstd::string::StringExecFns;
use crate::backend::{ApiError, ApiSource, AuthStatus, LocalPlayback, PREMIUM_NEEDED};
use crate::text::{contains_text, is_infix_of, same_text};

verus! {

/// How long a reconnect attempt counts against the budget: ten minutes.
pub const RECONNECT_WINDOW_MS: u64 = 600_000;

/// Reconnects allowed within the window before local playback gives up.
pub const RECONNECT_LIMIT: usize = 6;

/// Whether an attempt at `attempt` still counts at `now`: the time since
/// it, zero if it lies ahead, is under the window.
pub open spec fn counts_at(now: u64, attempt: u64) -> bool {
    (if now >= attempt { now - attempt } else { 0 }) < RECONNECT_WINDOW_MS
}

/// The attempts of `attempts` that still count at `now`, in order.
pub open spec fn recent(attempts: Seq<u64>, now: u64) -> Seq<u64>
    decreases attempts.len(),
{
    if attempts.len() == 0 {
        seq![]
    } else if counts_at(now, attempts.last()) {
        recent(attempts.drop_last(), now).push(attempts.last())
    } else {
        recent(attempts.drop_last(), now)
    }
}

/// The engine reconnects of the last ten minutes, so that a connection
/// that keeps dropping stops being retried.
pub struct ReconnectLog {
    attempts: Vec<u64>,
}

impl ReconnectLog {
    /// The times of the attempts on record, in milliseconds.
    pub closed spec fn attempts(self) -> Seq<u64> {
        self.attempts@
    }

    /// No attempt on record.
    pub fn new() -> (r: ReconnectLog)
        ensures
            r.attempts().len() == 0,
    {
        ReconnectLog { attempts: Vec::new() }
    }

    /// A fresh engine is up: the budget starts over.
    pub fn clear(&mut self)
        ensures
            final(self).attempts().len() == 0,
    {
        self.attempts.clear();
    }

    /// Whether a reconnect may be tried at `now`: the attempts older than
    /// the window are forgotten, and with `RECONNECT_LIMIT` of them still
    /// counting the answer is no. A yes is recorded as an attempt.
    pub fn try_reconnect(&mut self, now: u64) -> (r: bool)
        ensures
            r == (recent(old(self).attempts(), now).len() < RECONNECT_LIMIT),
            r ==> final(self).attempts() == recent(old(self).attempts(), now).push(now),
            !r ==> final(self).attempts() == recent(old(self).attempts(), now),
    {
        let mut kept: Vec<u64> = Vec::new();
        let mut i: usize = 0;
        while i < self.attempts.len()
            invariant
                i <= self.attempts@.len(),
                self.attempts@ == old(self).attempts@,
                kept@ == recent(self.attempts@.take(i as int), now),
            decreases self.attempts@.len() - i,
        {
            let attempt = self.attempts[i];
            proof {
                let t = self.attempts@.take(i + 1);
                assert(t.drop_last() == self.attempts@.take(i as int));
                assert(t.last() == attempt);
            }
            let since = if now >= attempt { now - attempt } else { 0 };
            if since < RECONNECT_WINDOW_MS {
                kept.push(attempt);
            }
            i = i + 1;
        }
        assert(self.attempts@.take(self.attempts@.len() as int) == self.attempts@);
        if kept.len() >= RECONNECT_LIMIT {
            self.attempts = kept;
            return false;
        }
        kept.push(now);
        self.attempts = kept;
        true
    }
}

/// The budget holds: the attempts kept all fall inside the window, and a
/// yes leaves at most `RECONNECT_LIMIT` of them on record.
pub proof fn lemma_reconnect_budget(attempts: Seq<u64>, now: u64)
    ensures
        forall|i: int| 0 <= i < recent(attempts, now).len() ==> counts_at(now, #[trigger] recent(attempts, now)[i]),
        recent(attempts, now).len() <= attempts.len(),
        recent(attempts, now).len() < RECONNECT_LIMIT ==> recent(attempts, now).push(now).len() <= RECONNECT_LIMIT,
    decreases attempts.len(),
{
    if attempts.len() > 0 {
        lemma_reconnect_budget(attempts.drop_last(), now);
        let r = recent(attempts, now);
        let rest = recent(attempts.drop_last(), now);
        assert forall|i: int| 0 <= i < r.len() implies counts_at(now, #[trigger] r[i]) by {
            if i < rest.len() {
                assert(r[i] == rest[i]);
            }
        }
    }
}

/// Where the worker's flows stand, as far as their decisions go.
#[derive(Clone, Copy, Debug, PartialEq, Eq, Structural)]
pub struct SessionGate {
    /// The shared Web API sign-in is complete.
    pub signed_in: bool,
    /// A playback engine is up.
    pub engine_up: bool,
    /// A playback grant or engine connection is in flight.
    pub engine_busy: bool,
    /// A browser flow is open (a sign-in or a playback grant), and can be
    /// cancelled.
    pub browser_open: bool,
    /// The Web API sign-in the open browser flow is for.
    pub authorizing: Option<ApiSource>,
    /// A sign-in to begin as soon as the open flow ends.
    pub pending: Option<ApiSource>,
    /// A personal Web API application is configured.
    pub personal_app: bool,
    /// The plan, once the Web API has answered.
    pub premium: Option<bool>,
}

/// What a request to bring playback up comes to.
#[derive(Clone, Copy, Debug, PartialEq, Eq, Structural)]
pub enum PlaybackStep {
    /// Something is already under way: nothing more piles up.
    Ignore,
    /// A Free account: local playback needs Premium.
    NeedsPremium,
    /// Go ahead.
    Proceed,
}

/// How the ending of a sign-in flow is taken.
#[derive(Clone, Copy, Debug, PartialEq, Eq, Structural)]
pub enum FlowEnd {
    /// The flow was not the one under way: nothing changes.
    Ignored,
    /// The flow is over; `next` is the sign-in that was waiting for it.
    Ended { next: Option<ApiSource> },
}

/// Whether the flows agree with each other: a Web API sign-in runs in an
/// open browser flow, and what waits to sign in is the personal
/// application, set up.
pub open spec fn gate_wf(gate: SessionGate) -> bool {
    &&& gate.authorizing is Some ==> gate.browser_open
    &&& gate.pending is Some ==> gate.pending == Some(ApiSource::Personal) && gate.personal_app
}

/// Whether the account is known to be on the Free plan.
pub open spec fn is_free(gate: SessionGate) -> bool {
    gate.premium == Some(false)
}

/// Whether a Web API sign-in of `source` may begin: not while a browser
/// flow is open, and the personal one only with an application set up.
pub open spec fn sign_in_allowed(gate: SessionGate, source: ApiSource) -> bool {
    !gate.browser_open && (source == ApiSource::Shared || gate.personal_app)
}

/// What asking to authorize playback comes to: not while a grant, a
/// connection or another browser flow is under way, and never for a Free
/// account.
pub open spec fn authorize_step(gate: SessionGate) -> PlaybackStep {
    if gate.engine_busy || gate.browser_open {
        PlaybackStep::Ignore
    } else if is_free(gate) {
        PlaybackStep::NeedsPremium
    } else {
        PlaybackStep::Proceed
    }
}

/// What a credential in hand comes to: not while a connection is in
/// flight, and never for a Free account.
pub open spec fn connect_step(gate: SessionGate) -> PlaybackStep {
    if gate.engine_busy {
        PlaybackStep::Ignore
    } else if is_free(gate) {
        PlaybackStep::NeedsPremium
    } else {
        PlaybackStep::Proceed
    }
}

/// Whether the engine may come up from a stored credential: not when one
/// is up or connecting, and never for a Free account.
pub open spec fn resume_allowed(gate: SessionGate) -> bool {
    !(gate.engine_up || gate.engine_busy || is_free(gate))
}

impl SessionGate {
    /// Before anything has happened, with or without a personal Web API
    /// application configured.
    pub fn new(personal_app: bool) -> (r: SessionGate)
        ensures
            r == (SessionGate {
                signed_in: false,
                engine_up: false,
                engine_busy: false,
                browser_open: false,
                authorizing: None,
                pending: None,
                personal_app,
                premium: None,
            }),
            gate_wf(r),
    {
        SessionGate {
            signed_in: false,
            engine_up: false,
            engine_busy: false,
            browser_open: false,
            authorizing: None,
            pending: None,
            personal_app,
            premium: None,
        }
    }

    /// Whether a Web API sign-in of `source` may begin now.
    pub fn may_sign_in(&self, source: ApiSource) -> (r: bool)
        ensures
            r == sign_in_allowed(*self, source),
    {
        !self.browser_open && (source == ApiSource::Shared || self.personal_app)
    }

    /// A Web API sign-in of `source` has begun in the browser. Only the
    /// shared sign-in shows the interface the wait for the browser.
    pub fn sign_in_started(&mut self, source: ApiSource) -> (shows_wait: bool)
        requires
            sign_in_allowed(*old(self), source),
        ensures
            *final(self) == (SessionGate { browser_open: true, authorizing: Some(source), ..*old(self) }),
            shows_wait == (source == ApiSource::Shared),
            gate_wf(*old(self)) ==> gate_wf(*final(self)),
    {
        self.browser_open = true;
        self.authorizing = Some(source);
        source == ApiSource::Shared
    }

    /// The user cancels the sign-in: the browser flow closes and nothing
    /// waits behind it. Answers the sign-in that was under way, whose
    /// half-begun session is to be cleared.
    pub fn cancel_sign_in(&mut self) -> (r: Option<ApiSource>)
        ensures
            r == old(self).authorizing,
            *final(self) == (SessionGate { browser_open: false, authorizing: None, pending: None, ..*old(self) }),
            gate_wf(*final(self)),
    {
        let r = self.authorizing;
        self.browser_open = false;
        self.authorizing = None;
        self.pending = None;
        r
    }

    /// Whether a grant that arrived for `source` is the one being waited
    /// for; any other is stale and dropped.
    pub fn awaits(&self, source: ApiSource) -> (r: bool)
        ensures
            r == (self.authorizing == Some(source)),
    {
        match self.authorizing {
            Some(s) => s == source,
            None => false,
        }
    }

    /// The Web API flow of `source` ended, in success or not. When it was
    /// the flow under way the browser flow closes, and the sign-in waiting
    /// behind it is handed on to begin.
    pub fn flow_ended(&mut self, source: ApiSource) -> (r: FlowEnd)
        ensures
            old(self).authorizing == Some(source) ==> r == (FlowEnd::Ended { next: old(self).pending })
                && *final(self) == (SessionGate { browser_open: false, authorizing: None, pending: None, ..*old(self) }),
            old(self).authorizing != Some(source) ==> r == FlowEnd::Ignored && *final(self) == *old(self),
            gate_wf(*old(self)) ==> gate_wf(*final(self)),
    {
        if !self.awaits(source) {
            return FlowEnd::Ignored;
        }
        let next = self.pending;
        self.browser_open = false;
        self.authorizing = None;
        self.pending = None;
        FlowEnd::Ended { next }
    }

    /// The playback grant's browser flow ended without a credential: the
    /// browser flow closes, and the sign-in waiting behind it is handed
    /// on to begin.
    pub fn playback_flow_ended(&mut self) -> (next: Option<ApiSource>)
        ensures
            next == old(self).pending,
            *final(self) == (SessionGate { browser_open: false, pending: None, ..*old(self) }),
            gate_wf(*old(self)) && old(self).authorizing is None ==> gate_wf(*final(self)),
    {
        let next = self.pending;
        self.browser_open = false;
        self.pending = None;
        next
    }

    /// The personal Web API application is set up (`true`) or removed.
    /// A set-up application signs in at once, or, while another browser
    /// flow is open (and being cancelled), as soon as it ends; a removed
    /// one leaves nothing waiting. Answers the sign-in to begin now.
    pub fn configure_personal(&mut self, configured: bool) -> (now: Option<ApiSource>)
        ensures
            configured && old(self).browser_open ==> now is None
                && *final(self) == (SessionGate { personal_app: true, pending: Some(ApiSource::Personal), ..*old(self) }),
            configured && !old(self).browser_open ==> now == Some(ApiSource::Personal)
                && *final(self) == (SessionGate { personal_app: true, ..*old(self) }),
            !configured ==> now is None && *final(self) == (SessionGate { personal_app: false, pending: None, ..*old(self) }),
            gate_wf(*old(self)) ==> gate_wf(*final(self)),
            now matches Some(s) ==> sign_in_allowed(*final(self), s),
    {
        self.personal_app = configured;
        if configured {
            if self.browser_open {
                self.pending = Some(ApiSource::Personal);
                None
            } else {
                Some(ApiSource::Personal)
            }
        } else {
            self.pending = None;
            None
        }
    }

    /// A Web API sign-in was verified and installed. The shared one signs
    /// the app in.
    pub fn verified(&mut self, source: ApiSource)
        ensures
            source == ApiSource::Shared ==> *final(self) == (SessionGate { signed_in: true, ..*old(self) }),
            source == ApiSource::Personal ==> *final(self) == *old(self),
    {
        if source == ApiSource::Shared {
            self.signed_in = true;
        }
    }

    /// The user signs out: the engine comes down and no flow stays open or
    /// waiting.
    pub fn sign_out(&mut self)
        ensures
            *final(self) == (SessionGate {
                signed_in: false,
                engine_up: false,
                browser_open: false,
                authorizing: None,
                pending: None,
                ..*old(self)
            }),
            gate_wf(*final(self)),
    {
        self.signed_in = false;
        self.engine_up = false;
        self.browser_open = false;
        self.authorizing = None;
        self.pending = None;
    }

    /// The user asks to authorize playback on this computer. Proceeding
    /// opens the browser flow.
    pub fn authorize_playback(&mut self) -> (r: PlaybackStep)
        ensures
            r == authorize_step(*old(self)),
            r == PlaybackStep::Proceed ==> *final(self) == (SessionGate { browser_open: true, ..*old(self) }),
            r != PlaybackStep::Proceed ==> *final(self) == *old(self),
            gate_wf(*old(self)) ==> gate_wf(*final(self)),
    {
        if self.engine_busy || self.browser_open {
            return PlaybackStep::Ignore;
        }
        if self.premium == Some(false) {
            return PlaybackStep::NeedsPremium;
        }
        self.browser_open = true;
        PlaybackStep::Proceed
    }

    /// A credential is in hand and the engine may be connected. Proceeding
    /// lets go of the browser flow and marks the connection in flight.
    pub fn connect(&mut self) -> (r: PlaybackStep)
        ensures
            r == connect_step(*old(self)),
            r == PlaybackStep::Proceed ==> *final(self) == (SessionGate { browser_open: false, engine_busy: true, ..*old(self) }),
            r != PlaybackStep::Proceed ==> *final(self) == *old(self),
            gate_wf(*old(self)) && old(self).authorizing is None ==> gate_wf(*final(self)),
    {
        if self.engine_busy {
            return PlaybackStep::Ignore;
        }
        if self.premium == Some(false) {
            return PlaybackStep::NeedsPremium;
        }
        self.browser_open = false;
        self.engine_busy = true;
        PlaybackStep::Proceed
    }

    /// Whether the engine may be brought up from a stored credential.
    pub fn may_resume(&self) -> (r: bool)
        ensures
            r == resume_allowed(*self),
    {
        !(self.engine_up || self.engine_busy || self.premium == Some(false))
    }

    /// Whether a dropped engine is brought back: only for a signed-in app.
    pub fn may_reconnect(&self) -> (r: bool)
        ensures
            r == self.signed_in,
    {
        self.signed_in
    }

    /// The engine was taken down to be replaced.
    pub fn engine_down(&mut self)
        ensures
            *final(self) == (SessionGate { engine_up: false, ..*old(self) }),
    {
        self.engine_up = false;
    }

    /// A connection attempt finished, with an engine or without one.
    pub fn connected(&mut self, up: bool)
        ensures
            *final(self) == (SessionGate { engine_busy: false, engine_up: up, ..*old(self) }),
    {
        self.engine_busy = false;
        self.engine_up = up;
    }

    /// The Web API said which plan the account is on (`None`: it could not
    /// tell). A Free account's engine comes down at once; answers whether
    /// the engine should then be resumed from a stored credential.
    pub fn account_checked(&mut self, premium: Option<bool>) -> (resume: bool)
        ensures
            premium == Some(false) ==> *final(self) == (SessionGate { premium, engine_up: false, ..*old(self) }),
            premium != Some(false) ==> *final(self) == (SessionGate { premium, ..*old(self) }),
            resume == resume_allowed(*final(self)),
    {
        self.premium = premium;
        if premium == Some(false) {
            self.engine_up = false;
            return false;
        }
        self.may_resume()
    }
}

/// A Free account never reaches the engine: once the plan is known to be
/// Free, authorizing, connecting and resuming all turn it away, and none of
/// the steps that follow them forgets the plan.
pub proof fn lemma_free_account_never_connects(gate: SessionGate, up: bool)
    requires
        is_free(gate),
    ensures
        authorize_step(gate) != PlaybackStep::Proceed,
        connect_step(gate) != PlaybackStep::Proceed,
        !resume_allowed(gate),
        is_free(SessionGate { engine_busy: false, engine_up: up, ..gate }),
        is_free(SessionGate { premium: Some(false), engine_up: false, ..gate }),
{
}

/// One browser flow at a time: while one is open, neither a sign-in nor a
/// playback grant can open another.
pub proof fn lemma_one_browser_flow(gate: SessionGate, source: ApiSource)
    requires
        gate.browser_open,
    ensures
        !sign_in_allowed(gate, source),
        authorize_step(gate) == PlaybackStep::Ignore,
{
}

/// What waits is not lost: the sign-in handed on when a flow ends may
/// begin at once.
pub proof fn lemma_pending_sign_in_runs(gate: SessionGate, source: ApiSource)
    requires
        gate_wf(gate),
        gate.authorizing == Some(source),
        gate.pending is Some,
    ensures
        sign_in_allowed(
            SessionGate { browser_open: false, authorizing: None, pending: None, ..gate },
            gate.pending->0,
        ),
{
}

/// Whether verifying a fresh Web API sign-in stops at `error`: an
/// expired sign-in and any answer below 500 are final; a server error or
/// no answer at all (`Network`) is retried.
pub fn verification_gives_up(error: &ApiError) -> (r: bool)
    ensures
        r == match *error {
            ApiError::SignInExpired { .. } => true,
            ApiError::Status { status, .. } => status < 500,
            ApiError::Network { .. } => false,
        },
{
    match error {
        ApiError::SignInExpired { .. } => true,
        ApiError::Status { status, .. } => *status < 500,
        ApiError::Network { .. } => false,
    }
}

/// The wait before the next verification attempt, in seconds: twice the
/// last one, at most a minute.
pub fn next_retry_wait(secs: u64) -> (r: u64)
    ensures
        r == if 2 * secs < 60 { 2 * secs } else { 60 },
{
    if secs >= 30 {
        60
    } else {
        secs * 2
    }
}

/// The message a failed verification of `source` shows, with the error's
/// text.
pub open spec fn verification_failure_text(source: ApiSource, error: Seq<char>) -> Seq<char> {
    match source {
        ApiSource::Shared => "Shared Spotify sign-in failed: "@ + error,
        ApiSource::Personal => "Personal app authorization failed: "@ + error,
    }
}

/// The message a failed verification of `source` shows.
pub fn verification_failure(source: ApiSource, error: &str) -> (r: String)
    ensures
        r@ == verification_failure_text(source, error@),
{
    let mut r = match source {
        ApiSource::Shared => String::from_str("Shared Spotify sign-in failed: "),
        ApiSource::Personal => String::from_str("Personal app authorization failed: "),
    };
    proof {
        reveal_strlit("Shared Spotify sign-in failed: ");
        reveal_strlit("Personal app authorization failed: ");
    }
    r.append(error);
    r
}

/// Whether a failed verification of `source` shows as the sign-in
/// failing: the shared one always; the personal one only when the other
/// sign-in is not ready to carry on.
pub fn shows_auth_failure(source: ApiSource, other_ready: bool) -> (r: bool)
    ensures
        r == (source == ApiSource::Shared || !other_ready),
{
    source == ApiSource::Shared || !other_ready
}

/// Whether a verified sign-in of `source` is installed: only while its
/// session is still authorizing, and a personal one only for the
/// application configured now (`configured`), by its client id.
pub fn verification_accepted(source: ApiSource, authorizing: bool, configured: Option<&str>, token_client: &str) -> (r: bool)
    ensures
        r == (authorizing && (source == ApiSource::Shared || (configured is Some && configured->0@ == token_client@))),
{
    if !authorizing {
        return false;
    }
    match source {
        ApiSource::Shared => true,
        ApiSource::Personal => match configured {
            Some(client) => same_text(client, token_client),
            None => false,
        },
    }
}

/// The plan an account's product names: Premium or not, unknown when the
/// product is not given.
pub fn premium_of(product: Option<&str>) -> (r: Option<bool>)
    ensures
        match product {
            Some(p) => r == Some(p@ == "premium"@),
            None => r is None,
        },
{
    match product {
        Some(p) => Some(same_text(p, "premium")),
        None => None,
    }
}

/// What the interface hears when a request finds the sign-in of `source`
/// expired: the personal application simply goes (`None`); the shared
/// sign-in fails, with a note to sign in again.
pub fn expiry_notice(source: ApiSource) -> (r: Option<AuthStatus>)
    ensures
        source == ApiSource::Personal ==> r is None,
        source == ApiSource::Shared ==> (r matches Some(AuthStatus::Failed(m))
            && m@ == "Your Spotify sign-in expired. Please sign in again."@),
{
    match source {
        ApiSource::Personal => None,
        ApiSource::Shared => Some(AuthStatus::Failed(String::from_str("Your Spotify sign-in expired. Please sign in again."))),
    }
}

/// Where the sign-in stands at start-up, from the stored shared token:
/// none is signed out; one with every scope the app needs connects; one
/// without them asks for one more permission.
pub fn restored_status(token_has_scopes: Option<bool>) -> (r: AuthStatus)
    ensures
        token_has_scopes == Some(true) ==> r is Connecting,
        token_has_scopes == Some(false) ==> (r matches AuthStatus::Failed(m)
            && m@ == "Woofer needs one more Spotify permission. Please sign in again."@),
        token_has_scopes is None ==> r is SignedOut,
{
    match token_has_scopes {
        Some(true) => AuthStatus::Connecting,
        Some(false) => AuthStatus::Failed(String::from_str("Woofer needs one more Spotify permission. Please sign in again.")),
        None => AuthStatus::SignedOut,
    }
}

/// Whether a stored personal token is used at start-up: only for the
/// application configured now, by its client id, and with every scope.
pub fn personal_token_usable(configured: Option<&str>, token_client: &str, has_scopes: bool) -> (r: bool)
    ensures
        r == (configured is Some && configured->0@ == token_client@ && has_scopes),
{
    match configured {
        Some(client) => same_text(client, token_client) && has_scopes,
        None => false,
    }
}

/// The error a failed sign-in flow reports: none when the user cancelled
/// it, else the reason behind `Sign-in failed: `.
pub fn sign_in_failure_note(message: &str) -> (r: Option<String>)
    ensures
        is_infix_of("cancelled"@, message@) ==> r is None,
        !is_infix_of("cancelled"@, message@) ==> r is Some && r->0@ == "Sign-in failed: "@ + message@,
{
    if contains_text(message, "cancelled") {
        None
    } else {
        let mut note = String::from_str("Sign-in failed: ");
        proof {
            reveal_strlit("Sign-in failed: ");
        }
        note.append(message);
        Some(note)
    }
}

/// Where local playback stands after the playback grant failed: a
/// cancelled grant leaves it unavailable; any other failure shows.
pub fn playback_grant_failure(message: &str) -> (r: LocalPlayback)
    ensures
        is_infix_of("cancelled"@, message@) ==> r is Unavailable,
        !is_infix_of("cancelled"@, message@) ==> (r matches LocalPlayback::Failed(m) && m@ == message@),
{
    if contains_text(message, "cancelled") {
        LocalPlayback::Unavailable
    } else {
        LocalPlayback::Failed(String::from_str(message))
    }
}

/// Where local playback stands after a connection attempt brought no
/// engine: failed, with the attempt's error or a plain note.
pub fn engine_failure(error: Option<String>) -> (r: LocalPlayback)
    ensures
        match error {
            Some(e) => r matches LocalPlayback::Failed(m) && m == e,
            None => r matches LocalPlayback::Failed(m) && m@ == "Local playback is unavailable"@,
        },
{
    match error {
        Some(e) => LocalPlayback::Failed(e),
        None => LocalPlayback::Failed(String::from_str("Local playback is unavailable")),
    }
}

/// What a Free account's check leaves local playback showing: the note
/// that Premium is needed, when a playback credential was stored (someone
/// had set playback up); otherwise nothing.
pub fn premium_refusal(credential_stored: bool) -> (r: Option<LocalPlayback>)
    ensures
        credential_stored ==> (r matches Some(LocalPlayback::Failed(m)) && m@ == PREMIUM_NEEDED@),
        !credential_stored ==> r is None,
{
    if credential_stored {
        Some(LocalPlayback::Failed(String::from_str(PREMIUM_NEEDED)))
    } else {
        None
    }
}

/// What a player command comes to without an engine.
pub const NO_ENGINE: &'static str = "Local playback isn't set up on this computer yet";

/// What local playback shows once reconnecting has given up.
pub const KEEPS_DROPPING: &'static str = "Local playback keeps dropping. Re-enable it from Settings.";

/// What a connection that never answered shows.
pub const CONNECT_TIMED_OUT: &'static str = "Connecting to Spotify timed out";

/// The error a player command the engine refused shows.
pub fn playback_error(error: &str) -> (r: String)
    ensures
        r@ == "Playback error: "@ + error@,
{
    let mut r = String::from_str("Playback error: ");
    proof {
        reveal_strlit("Playback error: ");
    }
    r.append(error);
    r
}


/// The engine is resumed from a stored credential exactly when none is up,
/// none is connecting, and the account is not known to be Free: never a
/// second connection while one is in flight.
pub proof fn lemma_resume_needs_an_idle_engine(gate: SessionGate)
    ensures
        resume_allowed(gate) ==> !gate.engine_busy && !gate.engine_up && gate.premium != Some(false),
        (!gate.engine_busy && !gate.engine_up && gate.premium != Some(false)) ==> resume_allowed(gate),
{
}

} // verus!

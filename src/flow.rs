use crate::claims::{user_hash, user_hash_of};
use crate::model::{
    AuthCodeResponse, AuthServiceError, AuthTokenResponse, FlowStep, MinecraftAuthResponse,
    TerminalReason, XboxLiveAuthResponse,
};
use crate::polling::{
    classify_reply, is_pending, lemma_pending_is_transient, poll_delay, poll_delay_secs,
    poll_outcome, PollAction, PollReply,
};
use crate::requests::{
    device_code_request, identity_token_of, is_device_code_request, is_token_request,
    is_xbox_live_request, is_xsts_request, minecraft_request, token_request, xbox_live_request,
    xsts_request, MinecraftLoginRequest, ParamRequest, XboxLiveAuthRequest, XstsAuthRequest,
};
use vstd::prelude::*;

verus! {

/// What a sign-in session holds: the client identifier and the result of
/// each step that has succeeded so far.
pub struct FlowView {
    pub client_id: Seq<char>,
    pub auth_code: Option<AuthCodeResponse>,
    pub auth_token: Option<AuthTokenResponse>,
    pub xbox_auth: Option<XboxLiveAuthResponse>,
    pub xsts_auth: Option<XboxLiveAuthResponse>,
    pub minecraft: Option<MinecraftAuthResponse>,
}

/// One sign-in attempt. Each step runs only once the step before it has
/// recorded its result, and records its own result alone; recording a new
/// device code grant starts the attempt over.
pub struct AuthFlow {
    client_id: String,
    auth_code_res: Option<AuthCodeResponse>,
    auth_token_res: Option<AuthTokenResponse>,
    xbox_auth_res: Option<XboxLiveAuthResponse>,
    xsts_auth_res: Option<XboxLiveAuthResponse>,
    minecraft_res: Option<MinecraftAuthResponse>,
}

/// One step of the wait for approval, from the session `v` and the answer
/// to the last poll (`None` before the first poll): the new session and
/// what the caller does next.
pub open spec fn wait_step(v: FlowView, reply: Option<PollReply>) -> (FlowView, Result<PollAction, AuthServiceError>) {
    match v.auth_code {
        None => (v, Err(AuthServiceError::PrerequisiteMissing(FlowStep::WaitForLogin))),
        Some(grant) => {
            let outcome = match reply {
                Some(answer) => poll_outcome(answer),
                None => None,
            };
            match outcome {
                None => (v, Ok(PollAction::Poll(poll_delay(grant.interval)))),
                Some(Ok(tokens)) => (FlowView { auth_token: Some(tokens), ..v }, Ok(PollAction::Done)),
                Some(Err(e)) => (v, Err(e)),
            }
        },
    }
}

/// Feeds `replies` in turn to the wait, each while the step before asked
/// for a poll: the final session and the result of each step.
pub open spec fn wait_feed(v: FlowView, replies: Seq<PollReply>) -> (FlowView, Seq<Result<PollAction, AuthServiceError>>)
    decreases replies.len(),
{
    if replies.len() == 0 {
        (v, Seq::empty())
    } else {
        let (next, r) = wait_step(v, Some(replies[0]));
        if r matches Ok(PollAction::Poll(_)) {
            let (last, rest) = wait_feed(next, replies.drop_first());
            (last, seq![r] + rest)
        } else {
            (next, seq![r])
        }
    }
}

/// A whole wait as a caller drives it: a first step with no answer, then
/// the answers in turn. Each `Poll` result is one request sent.
pub open spec fn wait_run(v: FlowView, replies: Seq<PollReply>) -> (FlowView, Seq<Result<PollAction, AuthServiceError>>) {
    let (next, r) = wait_step(v, None);
    if r matches Ok(PollAction::Poll(_)) {
        let (last, rest) = wait_feed(next, replies);
        (last, seq![r] + rest)
    } else {
        (next, seq![r])
    }
}

/// Fed `n` pending answers and then a token set, the wait asks for `n`
/// more polls, each after the grant's delay, and then records that token set.
pub proof fn lemma_feed_pending_then_granted(
    v: FlowView,
    grant: AuthCodeResponse,
    replies: Seq<PollReply>,
    n: nat,
    tokens: AuthTokenResponse,
)
    requires
        v.auth_code == Some(grant),
        n < replies.len(),
        forall|i: int| 0 <= i < n ==> is_pending(#[trigger] replies[i]),
        replies[n as int] == PollReply::Granted(tokens),
    ensures
        wait_feed(v, replies).0 == (FlowView { auth_token: Some(tokens), ..v }),
        wait_feed(v, replies).1.len() == n + 1,
        forall|i: int|
            0 <= i < n ==> #[trigger] wait_feed(v, replies).1[i] == Ok::<PollAction, AuthServiceError>(
                PollAction::Poll(poll_delay(grant.interval)),
            ),
        wait_feed(v, replies).1[n as int] == Ok::<PollAction, AuthServiceError>(PollAction::Done),
    decreases n,
{
    if n > 0 {
        lemma_pending_is_transient(replies[0]);
        let rest = replies.drop_first();
        assert forall|i: int| 0 <= i < (n - 1) as nat implies is_pending(#[trigger] rest[i]) by {
            assert(rest[i] == replies[i + 1]);
        }
        lemma_feed_pending_then_granted(v, grant, rest, (n - 1) as nat, tokens);
        let head = Ok::<PollAction, AuthServiceError>(PollAction::Poll(poll_delay(grant.interval)));
        let tail = wait_feed(v, rest).1;
        assert(wait_feed(v, replies).1 == seq![head] + tail);
        assert forall|i: int| 0 <= i < n implies #[trigger] wait_feed(v, replies).1[i] == head by {
            if i > 0 {
                assert((seq![head] + tail)[i] == tail[i - 1]);
            }
        }
        assert((seq![head] + tail)[n as int] == tail[n - 1]);
    }
}

/// After `n` pending answers and then a token set, a wait sends exactly
/// `n + 1` polls, each after `interval + 1` seconds, and ends having
/// recorded that very token set, the rest of the session as it was.
pub proof fn lemma_pending_then_granted(
    v: FlowView,
    grant: AuthCodeResponse,
    replies: Seq<PollReply>,
    n: nat,
    tokens: AuthTokenResponse,
)
    requires
        v.auth_code == Some(grant),
        n < replies.len(),
        forall|i: int| 0 <= i < n ==> is_pending(#[trigger] replies[i]),
        replies[n as int] == PollReply::Granted(tokens),
    ensures
        wait_run(v, replies).0 == (FlowView { auth_token: Some(tokens), ..v }),
        wait_run(v, replies).1.len() == n + 2,
        forall|i: int|
            0 <= i <= n ==> #[trigger] wait_run(v, replies).1[i] == Ok::<PollAction, AuthServiceError>(
                PollAction::Poll(poll_delay(grant.interval)),
            ),
        wait_run(v, replies).1[n + 1 as int] == Ok::<PollAction, AuthServiceError>(PollAction::Done),
{
    lemma_feed_pending_then_granted(v, grant, replies, n, tokens);
    let head = Ok::<PollAction, AuthServiceError>(PollAction::Poll(poll_delay(grant.interval)));
    let tail = wait_feed(v, replies).1;
    assert(wait_run(v, replies).1 == seq![head] + tail);
    assert forall|i: int| 0 <= i <= n implies #[trigger] wait_run(v, replies).1[i] == head by {
        if i > 0 {
            assert((seq![head] + tail)[i] == tail[i - 1]);
        }
    }
    assert((seq![head] + tail)[n + 1 as int] == tail[n as int]);
}

/// An `expired_token` answer to the first poll ends a wait after that one
/// poll with the expired error, the session as it was.
pub proof fn lemma_expired_first(v: FlowView, grant: AuthCodeResponse, replies: Seq<PollReply>)
    requires
        v.auth_code == Some(grant),
        replies.len() > 0,
        replies[0] matches PollReply::Rejected(code) && code@ == "expired_token"@,
    ensures
        wait_run(v, replies).0 == v,
        wait_run(v, replies).1 == seq![
            Ok::<PollAction, AuthServiceError>(PollAction::Poll(poll_delay(grant.interval))),
            Err::<PollAction, AuthServiceError>(
                AuthServiceError::InvalidAccessToken(TerminalReason::Expired),
            ),
        ],
{
    reveal_strlit("authorization_declined");
    reveal_strlit("expired_token");
    assert("expired_token"@.len() != "authorization_declined"@.len());
    let head = Ok::<PollAction, AuthServiceError>(PollAction::Poll(poll_delay(grant.interval)));
    let expired = Err::<PollAction, AuthServiceError>(
        AuthServiceError::InvalidAccessToken(TerminalReason::Expired),
    );
    assert(wait_feed(v, replies).1 == seq![expired]);
    assert(seq![head] + seq![expired] =~= seq![head, expired]);
}

impl View for AuthFlow {
    type V = FlowView;

    closed spec fn view(&self) -> FlowView {
        FlowView {
            client_id: self.client_id@,
            auth_code: self.auth_code_res,
            auth_token: self.auth_token_res,
            xbox_auth: self.xbox_auth_res,
            xsts_auth: self.xsts_auth_res,
            minecraft: self.minecraft_res,
        }
    }
}

impl AuthFlow {
    /// Every recorded result has the result of the step before it.
    pub open spec fn wf(&self) -> bool {
        &&& self@.auth_token is Some ==> self@.auth_code is Some
        &&& self@.xbox_auth is Some ==> self@.auth_token is Some
        &&& self@.xsts_auth is Some ==> self@.xbox_auth is Some
        &&& self@.minecraft is Some ==> self@.xsts_auth is Some
    }

    /// A new session for `client_id`, with no step done.
    pub fn new(client_id: &str) -> (r: Self)
        ensures
            r.wf(),
            r@ == (FlowView {
                client_id: client_id@,
                auth_code: None,
                auth_token: None,
                xbox_auth: None,
                xsts_auth: None,
                minecraft: None,
            }),
    {
        AuthFlow {
            client_id: String::from_str(client_id),
            auth_code_res: None,
            auth_token_res: None,
            xbox_auth_res: None,
            xsts_auth_res: None,
            minecraft_res: None,
        }
    }

    pub fn client_id(&self) -> (r: &str)
        ensures
            r@ == self@.client_id,
    {
        self.client_id.as_str()
    }

    pub fn auth_code(&self) -> (r: &Option<AuthCodeResponse>)
        ensures
            *r == self@.auth_code,
    {
        &self.auth_code_res
    }

    pub fn auth_token(&self) -> (r: &Option<AuthTokenResponse>)
        ensures
            *r == self@.auth_token,
    {
        &self.auth_token_res
    }

    pub fn xbox_auth(&self) -> (r: &Option<XboxLiveAuthResponse>)
        ensures
            *r == self@.xbox_auth,
    {
        &self.xbox_auth_res
    }

    pub fn xsts_auth(&self) -> (r: &Option<XboxLiveAuthResponse>)
        ensures
            *r == self@.xsts_auth,
    {
        &self.xsts_auth_res
    }

    pub fn minecraft(&self) -> (r: &Option<MinecraftAuthResponse>)
        ensures
            *r == self@.minecraft,
    {
        &self.minecraft_res
    }

    /// The device-code request of this session.
    pub fn code_request(&self) -> (r: ParamRequest)
        ensures
            is_device_code_request(r, self@.client_id),
    {
        device_code_request(self.client_id.as_str())
    }

    /// Records the device code grant: the session starts over from it.
    pub fn request_code(&mut self, grant: AuthCodeResponse)
        ensures
            final(self).wf(),
            final(self)@ == (FlowView {
                client_id: old(self)@.client_id,
                auth_code: Some(grant),
                auth_token: None,
                xbox_auth: None,
                xsts_auth: None,
                minecraft: None,
            }),
    {
        self.auth_code_res = Some(grant);
        self.auth_token_res = None;
        self.xbox_auth_res = None;
        self.xsts_auth_res = None;
        self.minecraft_res = None;
    }

    /// The token poll for the recorded device code.
    pub fn token_request(&self) -> (r: Result<ParamRequest, AuthServiceError>)
        ensures
            match self@.auth_code {
                Some(grant) => r matches Ok(req) && is_token_request(
                    req,
                    self@.client_id,
                    grant.device_code@,
                ),
                None => r == Err::<ParamRequest, AuthServiceError>(
                    AuthServiceError::PrerequisiteMissing(FlowStep::WaitForLogin),
                ),
            },
    {
        match &self.auth_code_res {
            Some(grant) => Ok(token_request(self.client_id.as_str(), grant.device_code.as_str())),
            None => Err(AuthServiceError::PrerequisiteMissing(FlowStep::WaitForLogin)),
        }
    }

    /// One step of the wait for the user's approval. Called first with no
    /// answer, then with the answer to each poll that it asked for; it asks
    /// for the next poll, records the token set, or ends the wait with an error.
    pub fn wait_for_login(&mut self, reply: Option<PollReply>) -> (r: Result<PollAction, AuthServiceError>)
        requires
            old(self).wf(),
        ensures
            final(self).wf(),
            (final(self)@, r) == wait_step(old(self)@, reply),
    {
        let interval = match &self.auth_code_res {
            Some(grant) => grant.interval,
            None => {
                return Err(AuthServiceError::PrerequisiteMissing(FlowStep::WaitForLogin));
            },
        };
        let outcome = match reply {
            Some(answer) => classify_reply(answer),
            None => None,
        };
        match outcome {
            None => Ok(PollAction::Poll(poll_delay_secs(interval))),
            Some(Ok(tokens)) => {
                self.auth_token_res = Some(tokens);
                Ok(PollAction::Done)
            },
            Some(Err(e)) => Err(e),
        }
    }

    /// The user-token request for the recorded access token.
    pub fn xbox_live_request(&self) -> (r: Result<XboxLiveAuthRequest, AuthServiceError>)
        ensures
            match self@.auth_token {
                Some(tokens) => r matches Ok(req) && is_xbox_live_request(req, tokens.access_token@),
                None => r == Err::<XboxLiveAuthRequest, AuthServiceError>(
                    AuthServiceError::PrerequisiteMissing(FlowStep::LoginInXboxLive),
                ),
            },
    {
        match &self.auth_token_res {
            Some(tokens) => Ok(xbox_live_request(tokens.access_token.as_str())),
            None => Err(AuthServiceError::PrerequisiteMissing(FlowStep::LoginInXboxLive)),
        }
    }

    /// Records the user token of the gaming identity service.
    pub fn login_in_xbox_live(&mut self, token: XboxLiveAuthResponse) -> (r: Result<(), AuthServiceError>)
        requires
            old(self).wf(),
        ensures
            final(self).wf(),
            old(self)@.auth_token is Some ==> r is Ok && final(self)@ == (FlowView {
                xbox_auth: Some(token),
                ..old(self)@
            }),
            old(self)@.auth_token is None ==> final(self)@ == old(self)@ && r == Err::<
                (),
                AuthServiceError,
            >(AuthServiceError::PrerequisiteMissing(FlowStep::LoginInXboxLive)),
    {
        if self.auth_token_res.is_none() {
            return Err(AuthServiceError::PrerequisiteMissing(FlowStep::LoginInXboxLive));
        }
        self.xbox_auth_res = Some(token);
        Ok(())
    }

    /// The security-token request for the recorded user token.
    pub fn xsts_request(&self) -> (r: Result<XstsAuthRequest, AuthServiceError>)
        ensures
            match self@.xbox_auth {
                Some(user) => r matches Ok(req) && is_xsts_request(req, user.token@),
                None => r == Err::<XstsAuthRequest, AuthServiceError>(
                    AuthServiceError::PrerequisiteMissing(FlowStep::AuthorizeForService),
                ),
            },
    {
        match &self.xbox_auth_res {
            Some(user) => Ok(xsts_request(user.token.as_str())),
            None => Err(AuthServiceError::PrerequisiteMissing(FlowStep::AuthorizeForService)),
        }
    }

    /// Records the security token scoped to the game service.
    pub fn authorize_for_service(&mut self, token: XboxLiveAuthResponse) -> (r: Result<(), AuthServiceError>)
        requires
            old(self).wf(),
        ensures
            final(self).wf(),
            old(self)@.xbox_auth is Some ==> r is Ok && final(self)@ == (FlowView {
                xsts_auth: Some(token),
                ..old(self)@
            }),
            old(self)@.xbox_auth is None ==> final(self)@ == old(self)@ && r == Err::<
                (),
                AuthServiceError,
            >(AuthServiceError::PrerequisiteMissing(FlowStep::AuthorizeForService)),
    {
        if self.xbox_auth_res.is_none() {
            return Err(AuthServiceError::PrerequisiteMissing(FlowStep::AuthorizeForService));
        }
        self.xsts_auth_res = Some(token);
        Ok(())
    }

    /// The game-services login: the user hash of the user token and the
    /// security token.
    pub fn minecraft_request(&self) -> (r: Result<MinecraftLoginRequest, AuthServiceError>)
        requires
            self.wf(),
        ensures
            match (self@.xbox_auth, self@.xsts_auth) {
                (Some(user), Some(security)) => match user_hash_of(user.display_claims) {
                    Some(hash) => r matches Ok(req) && req.identity_token@ == identity_token_of(
                        hash,
                        security.token@,
                    ),
                    None => r == Err::<MinecraftLoginRequest, AuthServiceError>(
                        AuthServiceError::MalformedClaims,
                    ),
                },
                _ => r == Err::<MinecraftLoginRequest, AuthServiceError>(
                    AuthServiceError::PrerequisiteMissing(FlowStep::LoginInMinecraft),
                ),
            },
    {
        match (&self.xbox_auth_res, &self.xsts_auth_res) {
            (Some(user), Some(security)) => {
                let hash = user_hash(user)?;
                Ok(minecraft_request(hash.as_str(), security.token.as_str()))
            },
            _ => Err(AuthServiceError::PrerequisiteMissing(FlowStep::LoginInMinecraft)),
        }
    }

    /// Records the game-service credential. It fails, and records nothing,
    /// where the user token holds no user hash: no login could have been sent.
    pub fn login_in_minecraft(&mut self, credential: MinecraftAuthResponse) -> (r: Result<(), AuthServiceError>)
        requires
            old(self).wf(),
        ensures
            final(self).wf(),
            match (old(self)@.xbox_auth, old(self)@.xsts_auth) {
                (Some(user), Some(_)) => match user_hash_of(user.display_claims) {
                    Some(_) => r is Ok && final(self)@ == (FlowView {
                        minecraft: Some(credential),
                        ..old(self)@
                    }),
                    None => final(self)@ == old(self)@ && r == Err::<(), AuthServiceError>(
                        AuthServiceError::MalformedClaims,
                    ),
                },
                _ => final(self)@ == old(self)@ && r == Err::<(), AuthServiceError>(
                    AuthServiceError::PrerequisiteMissing(FlowStep::LoginInMinecraft),
                ),
            },
    {
        match (&self.xbox_auth_res, &self.xsts_auth_res) {
            (Some(user), Some(_)) => {
                user_hash(user)?;
            },
            _ => {
                return Err(AuthServiceError::PrerequisiteMissing(FlowStep::LoginInMinecraft));
            },
        }
        self.minecraft_res = Some(credential);
        Ok(())
    }
}

} // verus!

use mc_auth::polling::{
    classify_error_code, classify_reply, poll_delay_secs, reply_body, PollAction, PollReply,
    ReplyBody,
};
use mc_auth::requests::{
    device_code_request, minecraft_request, token_request, xbox_live_request, xsts_request,
    HttpMethod, DEVICE_CODE_URL, TOKEN_URL,
};
use mc_auth::{
    user_hash, AuthCodeResponse, AuthFlow, AuthServiceError, AuthTokenResponse, FlowStep,
    MinecraftAuthResponse, TerminalReason, XboxLiveAuthResponse,
};

fn grant(interval: u64) -> AuthCodeResponse {
    AuthCodeResponse {
        user_code: "ABCD-EFGH".to_string(),
        device_code: "device-123".to_string(),
        verification_uri: "https://www.microsoft.com/link".to_string(),
        expires_in: 900,
        interval,
        message: "Open the link and enter the code".to_string(),
    }
}

fn token_set() -> AuthTokenResponse {
    AuthTokenResponse {
        token_type: "Bearer".to_string(),
        scope: "XboxLive.signin offline_access".to_string(),
        expires_in: 3600,
        ext_expires_in: 3600,
        access_token: "oauth-access".to_string(),
        refresh_token: "oauth-refresh".to_string(),
    }
}

fn identity(token: &str, groups: Vec<(String, Vec<Vec<(String, String)>>)>) -> XboxLiveAuthResponse {
    XboxLiveAuthResponse {
        issue_instant: "2024-01-01T00:00:00Z".to_string(),
        not_after: "2024-01-02T00:00:00Z".to_string(),
        token: token.to_string(),
        display_claims: groups,
    }
}

fn xui(hash: &str) -> Vec<(String, Vec<Vec<(String, String)>>)> {
    vec![(
        "xui".to_string(),
        vec![vec![("uhs".to_string(), hash.to_string())]],
    )]
}

fn credential() -> MinecraftAuthResponse {
    MinecraftAuthResponse {
        username: "1f2e3d4c-0000-1111-2222-333344445555".to_string(),
        roles: vec![],
        access_token: "game-bearer".to_string(),
        expires_in: 86400,
        token_type: "Bearer".to_string(),
    }
}

fn pending() -> PollReply {
    PollReply::Rejected("authorization_pending".to_string())
}

/// Drives the wait with scripted answers; returns the delays asked for
/// before each poll and the outcome.
fn run_wait(
    flow: &mut AuthFlow,
    answers: Vec<PollReply>,
) -> (Vec<u64>, Result<PollAction, AuthServiceError>) {
    let mut delays = Vec::new();
    let mut answers = answers.into_iter();
    let mut step = flow.wait_for_login(None);
    loop {
        match step {
            Ok(PollAction::Poll(delay)) => {
                delays.push(delay);
                let answer = answers.next().expect("the wait asked for more polls than scripted");
                step = flow.wait_for_login(Some(answer));
            }
            other => return (delays, other),
        }
    }
}

#[test]
fn pending_polls_then_token_set() {
    for n in 0..4usize {
        let mut flow = AuthFlow::new("client");
        flow.request_code(grant(5));
        let mut answers: Vec<PollReply> = (0..n).map(|_| pending()).collect();
        answers.push(PollReply::Granted(token_set()));
        let (delays, outcome) = run_wait(&mut flow, answers);
        assert_eq!(delays, vec![6u64; n + 1]);
        assert_eq!(outcome, Ok(PollAction::Done));
        assert_eq!(flow.auth_token(), &Some(token_set()));
    }
}

#[test]
fn slow_down_keeps_polling() {
    let mut flow = AuthFlow::new("client");
    flow.request_code(grant(2));
    let answers = vec![
        PollReply::Rejected("slow_down".to_string()),
        PollReply::Granted(token_set()),
    ];
    let (delays, outcome) = run_wait(&mut flow, answers);
    assert_eq!(delays, vec![3, 3]);
    assert_eq!(outcome, Ok(PollAction::Done));
}

#[test]
fn expired_on_first_poll() {
    let mut flow = AuthFlow::new("client");
    flow.request_code(grant(5));
    let answers = vec![
        PollReply::Rejected("expired_token".to_string()),
        PollReply::Granted(token_set()),
    ];
    let (delays, outcome) = run_wait(&mut flow, answers);
    assert_eq!(delays.len(), 1);
    assert_eq!(
        outcome,
        Err(AuthServiceError::InvalidAccessToken(TerminalReason::Expired))
    );
    assert_eq!(flow.auth_token(), &None);
}

#[test]
fn declined_and_invalid_grant_end_the_wait() {
    let mut flow = AuthFlow::new("client");
    flow.request_code(grant(1));
    assert_eq!(
        flow.wait_for_login(Some(PollReply::Rejected("authorization_declined".to_string()))),
        Err(AuthServiceError::InvalidAccessToken(TerminalReason::Declined))
    );
    assert_eq!(
        flow.wait_for_login(Some(PollReply::Rejected("invalid_grant".to_string()))),
        Err(AuthServiceError::InvalidAccessToken(TerminalReason::InvalidGrant))
    );
}

#[test]
fn unexpected_status_is_reported() {
    let mut flow = AuthFlow::new("client");
    flow.request_code(grant(1));
    assert_eq!(
        flow.wait_for_login(Some(PollReply::Status(503))),
        Err(AuthServiceError::UnknownError(503))
    );
}

#[test]
fn classify_codes() {
    assert_eq!(
        classify_error_code(&"expired_token".to_string()),
        Some(TerminalReason::Expired)
    );
    assert_eq!(
        classify_error_code(&"authorization_declined".to_string()),
        Some(TerminalReason::Declined)
    );
    assert_eq!(
        classify_error_code(&"invalid_grant".to_string()),
        Some(TerminalReason::InvalidGrant)
    );
    assert_eq!(classify_error_code(&"authorization_pending".to_string()), None);
    assert_eq!(classify_reply(pending()), None);
    assert_eq!(
        classify_reply(PollReply::Granted(token_set())),
        Some(Ok(token_set()))
    );
}

#[test]
fn reply_bodies_and_delays() {
    assert_eq!(reply_body(200), ReplyBody::TokenSet);
    assert_eq!(reply_body(400), ReplyBody::ErrorMessage);
    assert_eq!(reply_body(500), ReplyBody::Nothing);
    assert_eq!(poll_delay_secs(5), 6);
    assert_eq!(poll_delay_secs(0), 1);
    assert_eq!(poll_delay_secs(u64::MAX), u64::MAX);
}

#[test]
fn full_exchange_chain() {
    let mut flow = AuthFlow::new("client");
    flow.request_code(grant(5));
    assert_eq!(
        flow.wait_for_login(Some(PollReply::Granted(token_set()))),
        Ok(PollAction::Done)
    );

    let user_req = flow.xbox_live_request().unwrap();
    assert_eq!(user_req.rps_ticket, "d=oauth-access");
    assert_eq!(user_req.auth_method, "RPS");
    assert_eq!(user_req.site_name, "user.auth.xboxlive.com");
    assert_eq!(user_req.relying_party, "http://auth.xboxlive.com");
    assert_eq!(user_req.token_type, "JWT");
    let user = identity("user-token", xui("hash42"));
    assert_eq!(flow.login_in_xbox_live(user.clone()), Ok(()));

    let xsts_req = flow.xsts_request().unwrap();
    assert_eq!(xsts_req.user_tokens, vec!["user-token".to_string()]);
    assert_eq!(xsts_req.sandbox_id, "RETAIL");
    assert_eq!(xsts_req.relying_party, "rp://api.minecraftservices.com/");
    let security = identity("security-token", xui("hash42"));
    assert_eq!(flow.authorize_for_service(security.clone()), Ok(()));

    let login = flow.minecraft_request().unwrap();
    assert_eq!(login.identity_token, "XBL3.0 x=hash42;security-token");
    assert_eq!(flow.login_in_minecraft(credential()), Ok(()));

    assert_eq!(flow.minecraft(), &Some(credential()));
    assert_eq!(flow.xbox_auth(), &Some(user));
    assert_eq!(flow.xsts_auth(), &Some(security));
}

#[test]
fn steps_without_prerequisite_fail() {
    let mut flow = AuthFlow::new("client");
    assert_eq!(
        flow.wait_for_login(None),
        Err(AuthServiceError::PrerequisiteMissing(FlowStep::WaitForLogin))
    );
    assert_eq!(
        flow.token_request(),
        Err(AuthServiceError::PrerequisiteMissing(FlowStep::WaitForLogin))
    );
    assert_eq!(
        flow.xbox_live_request(),
        Err(AuthServiceError::PrerequisiteMissing(FlowStep::LoginInXboxLive))
    );
    assert_eq!(
        flow.login_in_xbox_live(identity("t", xui("h"))),
        Err(AuthServiceError::PrerequisiteMissing(FlowStep::LoginInXboxLive))
    );
    assert_eq!(
        flow.xsts_request(),
        Err(AuthServiceError::PrerequisiteMissing(FlowStep::AuthorizeForService))
    );
    assert_eq!(
        flow.authorize_for_service(identity("t", xui("h"))),
        Err(AuthServiceError::PrerequisiteMissing(FlowStep::AuthorizeForService))
    );
    assert_eq!(
        flow.minecraft_request(),
        Err(AuthServiceError::PrerequisiteMissing(FlowStep::LoginInMinecraft))
    );
    assert_eq!(
        flow.login_in_minecraft(credential()),
        Err(AuthServiceError::PrerequisiteMissing(FlowStep::LoginInMinecraft))
    );
    assert_eq!(flow.auth_code(), &None);
    assert_eq!(flow.minecraft(), &None);
}

#[test]
fn new_grant_starts_over() {
    let mut flow = AuthFlow::new("client");
    flow.request_code(grant(5));
    flow.wait_for_login(Some(PollReply::Granted(token_set()))).unwrap();
    flow.request_code(grant(7));
    assert_eq!(flow.auth_token(), &None);
    assert_eq!(flow.auth_code(), &Some(grant(7)));
    assert_eq!(flow.wait_for_login(None), Ok(PollAction::Poll(8)));
}

#[test]
fn malformed_claims_are_reported() {
    let mut flow = AuthFlow::new("client");
    flow.request_code(grant(5));
    flow.wait_for_login(Some(PollReply::Granted(token_set()))).unwrap();
    flow.login_in_xbox_live(identity("user", vec![])).unwrap();
    flow.authorize_for_service(identity("security", vec![])).unwrap();
    assert_eq!(flow.minecraft_request(), Err(AuthServiceError::MalformedClaims));
    assert_eq!(flow.login_in_minecraft(credential()), Err(AuthServiceError::MalformedClaims));
    assert_eq!(flow.minecraft(), &None);
}

fn signed_in() -> AuthFlow {
    let mut flow = AuthFlow::new("client");
    flow.request_code(grant(5));
    flow.wait_for_login(Some(PollReply::Granted(token_set()))).unwrap();
    flow.login_in_xbox_live(identity("user", xui("h1"))).unwrap();
    flow.authorize_for_service(identity("security", xui("h1"))).unwrap();
    flow.login_in_minecraft(credential()).unwrap();
    flow
}

#[test]
fn repeated_steps_keep_other_results() {
    let mut flow = signed_in();
    let other = AuthTokenResponse { access_token: "second".to_string(), ..token_set() };
    assert_eq!(
        flow.wait_for_login(Some(PollReply::Granted(other.clone()))),
        Ok(PollAction::Done)
    );
    assert_eq!(flow.auth_token(), &Some(other));
    assert_eq!(flow.auth_code(), &Some(grant(5)));
    assert_eq!(flow.xbox_auth(), &Some(identity("user", xui("h1"))));
    assert_eq!(flow.minecraft(), &Some(credential()));

    flow.login_in_xbox_live(identity("user2", xui("h2"))).unwrap();
    assert_eq!(flow.xbox_auth(), &Some(identity("user2", xui("h2"))));
    assert_eq!(flow.xsts_auth(), &Some(identity("security", xui("h1"))));
    assert_eq!(flow.minecraft(), &Some(credential()));

    flow.authorize_for_service(identity("security2", xui("h2"))).unwrap();
    assert_eq!(flow.xsts_auth(), &Some(identity("security2", xui("h2"))));
    assert_eq!(flow.minecraft(), &Some(credential()));
}

#[test]
fn malformed_claims_keep_recorded_credential() {
    let mut flow = signed_in();
    flow.login_in_xbox_live(identity("user", vec![])).unwrap();
    assert_eq!(flow.minecraft_request(), Err(AuthServiceError::MalformedClaims));
    let other = MinecraftAuthResponse { username: "other".to_string(), ..credential() };
    assert_eq!(flow.login_in_minecraft(other), Err(AuthServiceError::MalformedClaims));
    assert_eq!(flow.minecraft(), &Some(credential()));
}

#[test]
fn user_hash_paths() {
    assert_eq!(user_hash(&identity("t", xui("abc"))), Ok("abc".to_string()));
    let two_groups = vec![
        ("other".to_string(), vec![vec![("uhs".to_string(), "wrong".to_string())]]),
        (
            "xui".to_string(),
            vec![
                vec![
                    ("gtg".to_string(), "Player".to_string()),
                    ("uhs".to_string(), "right".to_string()),
                ],
                vec![("uhs".to_string(), "second".to_string())],
            ],
        ),
    ];
    assert_eq!(user_hash(&identity("t", two_groups)), Ok("right".to_string()));
    assert_eq!(
        user_hash(&identity("t", vec![("xui".to_string(), vec![])])),
        Err(AuthServiceError::MalformedClaims)
    );
    let no_uhs = vec![(
        "xui".to_string(),
        vec![vec![("gtg".to_string(), "Player".to_string())]],
    )];
    assert_eq!(user_hash(&identity("t", no_uhs)), Err(AuthServiceError::MalformedClaims));
}

#[test]
fn device_code_and_token_requests() {
    let code = device_code_request("client-xyz");
    assert_eq!(code.method, HttpMethod::Get);
    assert_eq!(code.url, DEVICE_CODE_URL);
    assert_eq!(
        code.params,
        vec![
            ("client_id".to_string(), "client-xyz".to_string()),
            ("scope".to_string(), "XboxLive.signin offline_access".to_string()),
        ]
    );
    let poll = token_request("client-xyz", "dev-1");
    assert_eq!(poll.method, HttpMethod::Post);
    assert_eq!(poll.url, TOKEN_URL);
    assert_eq!(
        poll.params,
        vec![
            ("client_id".to_string(), "client-xyz".to_string()),
            ("scope".to_string(), "XboxLive.signin offline_access".to_string()),
            (
                "grant_type".to_string(),
                "urn:ietf:params:oauth:grant-type:device_code".to_string()
            ),
            ("device_code".to_string(), "dev-1".to_string()),
        ]
    );
    let mut flow = AuthFlow::new("client-xyz");
    assert_eq!(flow.code_request(), code);
    flow.request_code(AuthCodeResponse { device_code: "dev-1".to_string(), ..grant(5) });
    assert_eq!(flow.token_request(), Ok(poll));
    assert_eq!(flow.client_id(), "client-xyz");
}

#[test]
fn exchange_bodies() {
    assert_eq!(xbox_live_request("abc").rps_ticket, "d=abc");
    assert_eq!(xsts_request("u").user_tokens, vec!["u".to_string()]);
    assert_eq!(minecraft_request("h", "x").identity_token, "XBL3.0 x=h;x");
}

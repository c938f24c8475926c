use vstd::prelude::*;

verus! {

/// Device-code endpoint of the identity provider.
pub const DEVICE_CODE_URL: &'static str = "https://login.microsoftonline.com/consumers/oauth2/v2.0/devicecode";

/// Token endpoint of the identity provider.
pub const TOKEN_URL: &'static str = "https://login.microsoftonline.com/consumers/oauth2/v2.0/token";

/// Authenticate endpoint of the gaming identity service.
pub const XBOX_AUTH_URL: &'static str = "https://user.auth.xboxlive.com/user/authenticate";

/// Security-token authorize endpoint.
pub const XSTS_AUTH_URL: &'static str = "https://xsts.auth.xboxlive.com/xsts/authorize";

/// Login endpoint of the game-services backend.
pub const MINECRAFT_LOGIN_URL: &'static str = "https://api.minecraftservices.com/authentication/login_with_xbox";

/// Scope asked for with the device code and with each poll.
pub const SCOPE: &'static str = "XboxLive.signin offline_access";

/// Grant type of a device-code poll.
pub const DEVICE_CODE_GRANT_TYPE: &'static str = "urn:ietf:params:oauth:grant-type:device_code";

/// How the parameters of a `ParamRequest` travel.
#[derive(Debug, Clone, Copy, PartialEq, Eq, Structural)]
pub enum HttpMethod {
    /// GET with the parameters in the query string.
    Get,
    /// POST with the parameters form-encoded in the body.
    Post,
}

/// A request whose body, or query, is a list of named parameters.
#[derive(Debug, Clone, PartialEq)]
pub struct ParamRequest {
    pub method: HttpMethod,
    pub url: String,
    pub params: Vec<(String, String)>,
}

/// JSON body of the user-token request to the gaming identity service.
#[derive(Debug, Clone, PartialEq)]
pub struct XboxLiveAuthRequest {
    pub auth_method: String,
    pub site_name: String,
    pub rps_ticket: String,
    pub relying_party: String,
    pub token_type: String,
}

/// JSON body of the security-token request.
#[derive(Debug, Clone, PartialEq)]
pub struct XstsAuthRequest {
    pub sandbox_id: String,
    pub user_tokens: Vec<String>,
    pub relying_party: String,
    pub token_type: String,
}

/// JSON body of the game-services login.
#[derive(Debug, Clone, PartialEq)]
pub struct MinecraftLoginRequest {
    pub identity_token: String,
}

/// Whether `params` are exactly the named values, in order.
pub open spec fn params_are(params: Seq<(String, String)>, expected: Seq<(Seq<char>, Seq<char>)>) -> bool {
    &&& params.len() == expected.len()
    &&& forall|i: int|
        0 <= i < params.len() ==> (#[trigger] params[i]).0@ == expected[i].0 && params[i].1@
            == expected[i].1
}

/// The identity token string of the game-services login.
pub open spec fn identity_token_of(user_hash: Seq<char>, xsts_token: Seq<char>) -> Seq<char> {
    "XBL3.0 x="@ + user_hash + ";"@ + xsts_token
}

/// `r` is the device-code request for `client_id`.
pub open spec fn is_device_code_request(r: ParamRequest, client_id: Seq<char>) -> bool {
    &&& r.method == HttpMethod::Get
    &&& r.url@ == DEVICE_CODE_URL@
    &&& params_are(r.params@, seq![("client_id"@, client_id), ("scope"@, SCOPE@)])
}

/// `r` is the token poll for `client_id` and `device_code`.
pub open spec fn is_token_request(r: ParamRequest, client_id: Seq<char>, device_code: Seq<char>) -> bool {
    &&& r.method == HttpMethod::Post
    &&& r.url@ == TOKEN_URL@
    &&& params_are(
        r.params@,
        seq![
            ("client_id"@, client_id),
            ("scope"@, SCOPE@),
            ("grant_type"@, DEVICE_CODE_GRANT_TYPE@),
            ("device_code"@, device_code),
        ],
    )
}

/// `r` is the user-token request carrying `access_token`.
pub open spec fn is_xbox_live_request(r: XboxLiveAuthRequest, access_token: Seq<char>) -> bool {
    &&& r.auth_method@ == "RPS"@
    &&& r.site_name@ == "user.auth.xboxlive.com"@
    &&& r.rps_ticket@ == "d="@ + access_token
    &&& r.relying_party@ == "http://auth.xboxlive.com"@
    &&& r.token_type@ == "JWT"@
}

/// `r` is the security-token request carrying `user_token`.
pub open spec fn is_xsts_request(r: XstsAuthRequest, user_token: Seq<char>) -> bool {
    &&& r.sandbox_id@ == "RETAIL"@
    &&& r.user_tokens@.len() == 1
    &&& r.user_tokens@[0]@ == user_token
    &&& r.relying_party@ == "rp://api.minecraftservices.com/"@
    &&& r.token_type@ == "JWT"@
}

fn param(name: &str, value: &str) -> (r: (String, String))
    ensures
        r.0@ == name@,
        r.1@ == value@,
{
    (String::from_str(name), String::from_str(value))
}

/// The device-code request for `client_id`.
pub fn device_code_request(client_id: &str) -> (r: ParamRequest)
    ensures
        is_device_code_request(r, client_id@),
{
    let mut params: Vec<(String, String)> = Vec::new();
    params.push(param("client_id", client_id));
    params.push(param("scope", SCOPE));
    ParamRequest { method: HttpMethod::Get, url: String::from_str(DEVICE_CODE_URL), params }
}

/// The token poll for a device code.
pub fn token_request(client_id: &str, device_code: &str) -> (r: ParamRequest)
    ensures
        is_token_request(r, client_id@, device_code@),
{
    let mut params: Vec<(String, String)> = Vec::new();
    params.push(param("client_id", client_id));
    params.push(param("scope", SCOPE));
    params.push(param("grant_type", DEVICE_CODE_GRANT_TYPE));
    params.push(param("device_code", device_code));
    ParamRequest { method: HttpMethod::Post, url: String::from_str(TOKEN_URL), params }
}

/// The user-token request that carries the OAuth access token.
pub fn xbox_live_request(access_token: &str) -> (r: XboxLiveAuthRequest)
    ensures
        is_xbox_live_request(r, access_token@),
{
    let mut ticket = String::from_str("d=");
    ticket.append(access_token);
    XboxLiveAuthRequest {
        auth_method: String::from_str("RPS"),
        site_name: String::from_str("user.auth.xboxlive.com"),
        rps_ticket: ticket,
        relying_party: String::from_str("http://auth.xboxlive.com"),
        token_type: String::from_str("JWT"),
    }
}

/// The security-token request for the game service, carrying the user token.
pub fn xsts_request(user_token: &str) -> (r: XstsAuthRequest)
    ensures
        is_xsts_request(r, user_token@),
{
    let mut user_tokens: Vec<String> = Vec::new();
    user_tokens.push(String::from_str(user_token));
    XstsAuthRequest {
        sandbox_id: String::from_str("RETAIL"),
        user_tokens,
        relying_party: String::from_str("rp://api.minecraftservices.com/"),
        token_type: String::from_str("JWT"),
    }
}

/// The game-services login for a user hash and a security token.
pub fn minecraft_request(user_hash: &str, xsts_token: &str) -> (r: MinecraftLoginRequest)
    ensures
        r.identity_token@ == identity_token_of(user_hash@, xsts_token@),
{
    let mut token = String::from_str("XBL3.0 x=");
    token.append(user_hash);
    token.append(";");
    token.append(xsts_token);
    MinecraftLoginRequest { identity_token: token }
}

} // verus!

use vstd::prelude::*;

verus! {

/// The device code and user code handed out by the identity provider.
#[derive(Default, Debug, Clone, PartialEq)]
pub struct AuthCodeResponse {
    pub user_code: String,
    pub device_code: String,
    pub verification_uri: String,
    pub expires_in: i64,
    pub interval: u64,
    pub message: String,
}

/// The OAuth token set returned once the user approved the device code.
#[derive(Default, Debug, Clone, PartialEq)]
pub struct AuthTokenResponse {
    pub token_type: String,
    pub scope: String,
    pub expires_in: i64,
    pub ext_expires_in: i64,
    pub access_token: String,
    pub refresh_token: String,
}

/// One claim mapping: pairs of claim name and claim value, names unique.
pub type Claims = Vec<(String, String)>;

/// Claim groups by name ("xui", ...), each an ordered list of claim mappings.
pub type ClaimGroups = Vec<(String, Vec<Claims>)>;

/// A gaming-identity token; the same shape serves the user token and the
/// security token scoped to the game service.
#[derive(Default, Debug, Clone, PartialEq)]
pub struct XboxLiveAuthResponse {
    pub issue_instant: String,
    pub not_after: String,
    pub token: String,
    pub display_claims: ClaimGroups,
}

/// The final game-service credential.
#[derive(Default, Debug, Clone, PartialEq)]
pub struct MinecraftAuthResponse {
    pub username: String,
    pub roles: Vec<String>,
    pub access_token: String,
    pub expires_in: u32,
    pub token_type: String,
}

/// Why the identity provider ended the device-code flow.
#[derive(Debug, Clone, Copy, PartialEq, Eq, Structural)]
pub enum TerminalReason {
    Declined,
    Expired,
    InvalidGrant,
}

/// A step of the sign-in flow, as named in a missing-prerequisite error.
#[derive(Debug, Clone, Copy, PartialEq, Eq, Structural)]
pub enum FlowStep {
    WaitForLogin,
    LoginInXboxLive,
    AuthorizeForService,
    LoginInMinecraft,
}

/// Errors of the sign-in flow.
#[derive(Debug, Clone, PartialEq)]
pub enum AuthServiceError {
    /// The identity provider rejected the device code for good.
    InvalidAccessToken(TerminalReason),
    /// The token endpoint answered with a status that is not handled.
    UnknownError(u16),
    /// A step was invoked before the step it depends on succeeded.
    PrerequisiteMissing(FlowStep),
    /// The identity token holds no user hash at `xui[0].uhs`.
    MalformedClaims,
}

} // verus!

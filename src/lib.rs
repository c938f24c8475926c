//! Device-code sign-in for a game-services account: the session state
//! machine, the request bodies of each exchange, the polling decisions and
//! the extraction of the user hash from identity claims.
//!
//! Transport is left to the caller: each step hands out the request to send
//! and takes back the decoded response.

pub mod claims;
pub mod flow;
pub mod model;
pub mod polling;
pub mod requests;

pub use claims::{find_key, user_hash};
pub use flow::{AuthFlow, FlowView};
pub use model::{
    AuthCodeResponse, AuthServiceError, AuthTokenResponse, ClaimGroups, Claims, FlowStep,
    MinecraftAuthResponse, TerminalReason, XboxLiveAuthResponse,
};

//! Request authentication and replay protection for the NebulAuth key service.
//!
//! The crate decides, for each outgoing request, which credentials and signed
//! headers accompany it, and builds the canonical text that is signed.

pub mod auth;
pub mod client;
pub mod clock;
pub mod dashboard;
pub mod decimal;
pub mod digest;
pub mod error;
pub mod headers;
pub mod hex;
pub mod nonce;
pub mod options;
pub mod path;
pub mod requests;
pub mod signing;
pub mod text;

pub use crate::auth::{AuthRegime, ResolvedAuth};
pub use crate::client::NebulAuthClient;
pub use crate::clock::current_timestamp_ms;
pub use crate::dashboard::{
    ApiTokenCreateRequest, ApiTokenUpdateRequest, BlacklistCreateRequest, CheckpointCreateRequest,
    CheckpointStepInput, CheckpointUpdateRequest, CustomerUpdateRequest, DashboardAuth,
    DashboardMethod, DashboardRequestOptions, KeyRevokeRequest, LoginRequest,
    NebulAuthDashboardClient, NebulAuthDashboardClientOptions, RevokeAllSessionsRequest,
    RevokeSessionRequest, TeamMemberCreateRequest, TeamMemberUpdateRequest,
};
pub use crate::digest::{hash_hex, sha256_hex};
pub use crate::error::NebulAuthError;
pub use crate::headers::{AuthHeaderSet, Header};
pub use crate::hex::{hex_lower, nibble_to_hex};
pub use crate::nonce::random_nonce;
pub use crate::options::{
    AuthVerifyInput, GenericPostOptions, NebulAuthClientOptions, PopAuthOptions, RedeemKeyInput,
    ReplayProtectionMode, ResetHwidInput, VerifyKeyInput,
};
pub use crate::requests::{Field, KeyServiceCall};
pub use crate::signing::{SignedRequest, SigningInput};

//! REST facade for a blockchain SDK: keypair generation, message signing and
//! verification, and construction of token and transfer instructions.
//!
//! The validation and dispatch logic is verified; calls into the underlying
//! cryptography, codec and instruction-building crates stand behind small
//! trusted wrappers whose contracts name what those crates return.

pub mod codec;
pub mod config;
pub mod handlers;
pub mod sdk;
pub mod types;
pub mod utils;

pub use config::Config;
pub use handlers::info::{api_info, health_check, ApiInfoResponse, EndpointInfo, HealthResponse};
pub use handlers::keypair::generate_keypair;
pub use handlers::message::{sign_message, verify_message};
pub use handlers::token::{create_token, mint_token};
pub use handlers::transfer::{send_sol, send_token};
pub use types::{
    AccountInfo, ApiResponse, CreateTokenRequest, InstructionResponse, KeypairResponse,
    MintTokenRequest, SendSolRequest, SendTokenRequest, SignMessageRequest, SignMessageResponse,
    VerifyMessageRequest, VerifyMessageResponse,
};
pub use utils::{
    parse_public_key, parse_secret_key, validate_amount, validate_create_token_request,
    validate_mint_token_request, validate_not_empty, validate_send_token_request,
};

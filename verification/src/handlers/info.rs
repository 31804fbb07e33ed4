//! Informational endpoints: health check and API description.

use vstd::prelude::*;

use crate::types::ApiResponse;

verus! {

pub struct HealthResponse {
    pub status: String,
    pub version: String,
    pub uptime: String,
}

pub struct EndpointInfo {
    pub method: String,
    pub path: String,
    pub description: String,
}

pub struct ApiInfoResponse {
    pub name: String,
    pub description: String,
    pub version: String,
    pub endpoints: Vec<EndpointInfo>,
}

/// An endpoint entry has the given method, path and description.
pub open spec fn endpoint_is(
    e: EndpointInfo,
    method: Seq<char>,
    path: Seq<char>,
    description: Seq<char>,
) -> bool {
    &&& e.method@ == method
    &&& e.path@ == path
    &&& e.description@ == description
}

/// Health check endpoint: a constant healthy status.
pub fn health_check() -> (r: ApiResponse<HealthResponse>)
    ensures
        r.success == true,
        r.wf(),
        r.message@ == "Solana HTTP Server is running healthy"@,
        r.data matches Some(h) ==> {
            &&& h.status@ == "healthy"@
            &&& h.version@ == "1.0.0"@
            &&& h.uptime@ == "running"@
        },
{
    let data = HealthResponse {
        status: "healthy".to_owned(),
        version: "1.0.0".to_owned(),
        uptime: "running".to_owned(),
    };
    ApiResponse::success(data, "Solana HTTP Server is running healthy".to_owned())
}

/// Root endpoint: the API's name, description and version, and the
/// method, path and description of each of its nine endpoints.
pub fn api_info() -> (r: ApiResponse<ApiInfoResponse>)
    ensures
        r.success == true,
        r.wf(),
        r.message@ == "Welcome to Solana HTTP Server API"@,
        r.data matches Some(a) ==> {
            &&& a.name@ == "Solana HTTP Server"@
            &&& a.description@
                == "A comprehensive HTTP server for interacting with the Solana blockchain."@
            &&& a.version@ == "1.0.0"@
            &&& a.endpoints@.len() == 9
            &&& endpoint_is(
                a.endpoints@[0],
                "GET"@,
                "/"@,
                "API information and available endpoints"@,
            )
            &&& endpoint_is(a.endpoints@[1], "GET"@, "/health"@, "Health check endpoint"@)
            &&& endpoint_is(
                a.endpoints@[2],
                "POST"@,
                "/keypair"@,
                "Generate a new Solana keypair"@,
            )
            &&& endpoint_is(
                a.endpoints@[3],
                "POST"@,
                "/token/create"@,
                "Create SPL token mint instruction"@,
            )
            &&& endpoint_is(
                a.endpoints@[4],
                "POST"@,
                "/token/mint"@,
                "Create mint tokens instruction"@,
            )
            &&& endpoint_is(
                a.endpoints@[5],
                "POST"@,
                "/message/sign"@,
                "Sign a message with a private key"@,
            )
            &&& endpoint_is(
                a.endpoints@[6],
                "POST"@,
                "/message/verify"@,
                "Verify a signed message"@,
            )
            &&& endpoint_is(
                a.endpoints@[7],
                "POST"@,
                "/send/sol"@,
                "Create SOL transfer instruction"@,
            )
            &&& endpoint_is(
                a.endpoints@[8],
                "POST"@,
                "/send/token"@,
                "Create SPL token transfer instruction"@,
            )
        },
{
    let mut endpoints: Vec<EndpointInfo> = Vec::new();
    endpoints.push(entry("GET", "/", "API information and available endpoints"));
    endpoints.push(entry("GET", "/health", "Health check endpoint"));
    endpoints.push(entry("POST", "/keypair", "Generate a new Solana keypair"));
    endpoints.push(entry("POST", "/token/create", "Create SPL token mint instruction"));
    endpoints.push(entry("POST", "/token/mint", "Create mint tokens instruction"));
    endpoints.push(entry("POST", "/message/sign", "Sign a message with a private key"));
    endpoints.push(entry("POST", "/message/verify", "Verify a signed message"));
    endpoints.push(entry("POST", "/send/sol", "Create SOL transfer instruction"));
    endpoints.push(entry("POST", "/send/token", "Create SPL token transfer instruction"));
    let data = ApiInfoResponse {
        name: "Solana HTTP Server".to_owned(),
        description: "A comprehensive HTTP server for interacting with the Solana blockchain."
            .to_owned(),
        version: "1.0.0".to_owned(),
        endpoints,
    };
    ApiResponse::success(data, "Welcome to Solana HTTP Server API".to_owned())
}

/// Builds one endpoint entry.
fn entry(method: &str, path: &str, description: &str) -> (r: EndpointInfo)
    ensures
        endpoint_is(r, method@, path@, description@),
{
    EndpointInfo {
        method: method.to_owned(),
        path: path.to_owned(),
        description: description.to_owned(),
    }
}

} // verus!

//! API keys, authorization headers and namespace access.
//!
//! An API key is a JWT with the prefix `msb_`. The JWT itself is signed and
//! checked with the server key; the decoding of its claims happens around this
//! module, which decides everything that depends on the decoded values.

use vstd::prelude::*;
use vstd::string::StringExecFns;

use crate::server::error::{
    AuthenticationError, AuthorizationError, MicrosandboxServerError, ServerError, ValidationError,
};
use serde_json::Value;

use crate::server::payload::{holds_text, json_get, json_member, member_string, member_text};
use crate::text::{has_prefix, str_equal, strip_prefix};

verus! {

/// Prefix for the API key
pub const API_KEY_PREFIX: &'static str = "msb_";

/// The header name for the proxy authorization
pub const PROXY_AUTH_HEADER: &'static str = "Proxy-Authorization";

/// Claims for the JWT token
pub struct Claims {
    /// Expiration time
    pub exp: u64,
    /// Issued at time
    pub iat: u64,
}

/// The value of a request header as the server sees it.
pub enum HeaderText {
    /// The header is not present.
    Absent,
    /// The header is present but is not visible ASCII text.
    Unreadable,
    /// The header's text.
    Text(String),
}

/// The API key that a JWT is handed out as.
pub open spec fn api_key_of(jwt: Seq<char>) -> Seq<char> {
    "msb_"@ + jwt
}

/// The token in an authorization header value: without a leading `Bearer `.
pub open spec fn bearer_token(v: Seq<char>) -> Seq<char> {
    if has_prefix(v, "Bearer "@) {
        v.subrange("Bearer "@.len() as int, v.len() as int)
    } else {
        v
    }
}

/// The API key that a request carries: the proxy authorization header wins over
/// the authorization header. `None` when neither header is present; `Some(None)`
/// when the header that counts is unreadable.
pub open spec fn carried_key(proxy: HeaderText, authorization: HeaderText) -> Option<Option<Seq<char>>> {
    match proxy {
        HeaderText::Text(v) => Some(Some(bearer_token(v@))),
        HeaderText::Unreadable => Some(None),
        HeaderText::Absent => match authorization {
            HeaderText::Text(v) => Some(Some(bearer_token(v@))),
            HeaderText::Unreadable => Some(None),
            HeaderText::Absent => None,
        },
    }
}

/// The error carries an invalid-credentials message.
pub open spec fn is_invalid_credentials(e: ServerError, message: Seq<char>) -> bool {
    e matches ServerError::Authentication(AuthenticationError::InvalidCredentials(m)) && m@ == message
}

/// Convert a standard JWT token to our custom API key format
/// Takes a standard JWT token (<header>.<payload>.<signature>) and returns
/// our custom API key format (<API_KEY_PREFIX><full_jwt_token>)
pub fn convert_jwt_to_api_key(jwt_token: &str) -> (r: Result<String, MicrosandboxServerError>)
    ensures
        r matches Ok(key) && key@ == api_key_of(jwt_token@),
{
    Ok(String::from_str(API_KEY_PREFIX).concat(jwt_token))
}

/// Convert a custom API key back to a standard JWT format
pub fn convert_api_key_to_jwt(api_key: &str) -> (r: Result<String, ServerError>)
    ensures
        r is Ok <==> has_prefix(api_key@, "msb_"@),
        r matches Ok(jwt) ==> jwt@ == api_key@.subrange(4, api_key@.len() as int),
        r matches Err(e) ==> is_invalid_credentials(e, "Invalid API key format: missing prefix"@),
{
    proof {
        reveal_strlit("msb_");
    }
    match strip_prefix(api_key, API_KEY_PREFIX) {
        Some(jwt) => Ok(String::from_str(jwt)),
        None => Err(
            ServerError::Authentication(
                AuthenticationError::InvalidCredentials(
                    String::from_str("Invalid API key format: missing prefix"),
                ),
            ),
        ),
    }
}

/// An API key made from a JWT gives back that JWT.
pub proof fn lemma_api_key_round_trip(jwt: Seq<char>)
    ensures
        has_prefix(api_key_of(jwt), "msb_"@),
        api_key_of(jwt).subrange(4, api_key_of(jwt).len() as int) == jwt,
{
    reveal_strlit("msb_");
    assert(api_key_of(jwt).subrange(0, 4) =~= "msb_"@);
    assert(api_key_of(jwt).subrange(4, api_key_of(jwt).len() as int) =~= jwt);
}

fn token_of(value: &str) -> (r: String)
    ensures
        r@ == bearer_token(value@),
{
    match strip_prefix(value, "Bearer ") {
        Some(token) => String::from_str(token),
        None => String::from_str(value),
    }
}

/// Extract API key from request headers: the `Proxy-Authorization` header, else
/// the `Authorization` header, with or without a `Bearer ` prefix.
pub fn extract_api_key_from_headers(proxy_authorization: HeaderText, authorization: HeaderText) -> (r:
    Result<String, ServerError>)
    ensures
        match carried_key(proxy_authorization, authorization) {
            Some(Some(key)) => r matches Ok(k) && k@ == key,
            Some(None) => r matches Err(e) && is_invalid_credentials(
                e,
                "Invalid authorization header format"@,
            ),
            None => r matches Err(e) && is_invalid_credentials(e, "Missing authorization header"@),
        },
{
    let unreadable = ServerError::Authentication(
        AuthenticationError::InvalidCredentials(String::from_str("Invalid authorization header format")),
    );
    match proxy_authorization {
        HeaderText::Text(v) => Ok(token_of(v.as_str())),
        HeaderText::Unreadable => Err(unreadable),
        HeaderText::Absent => match authorization {
            HeaderText::Text(v) => Ok(token_of(v.as_str())),
            HeaderText::Unreadable => Err(unreadable),
            HeaderText::Absent => Err(
                ServerError::Authentication(
                    AuthenticationError::InvalidCredentials(
                        String::from_str("Missing authorization header"),
                    ),
                ),
            ),
        },
    }
}

/// Get the server key from the configuration.
pub fn get_server_key(key: &Option<String>) -> (r: Result<String, ServerError>)
    ensures
        match key {
            Some(k) => r == Ok::<String, ServerError>(*k),
            None => r matches Err(e) && is_invalid_credentials(
                e,
                "Server key not found in configuration"@,
            ),
        },
{
    match key {
        Some(k) => Ok(k.clone()),
        None => Err(
            ServerError::Authentication(
                AuthenticationError::InvalidCredentials(
                    String::from_str("Server key not found in configuration"),
                ),
            ),
        ),
    }
}

/// A token for `token_namespace` may act in `requested`: the same namespace, or
/// the wildcard `*`.
pub open spec fn namespace_allowed(token_namespace: Seq<char>, requested: Seq<char>) -> bool {
    token_namespace == requested || token_namespace == "*"@
}

/// Check that a token's namespace grants access to the requested namespace.
pub fn validate_token_namespace(token_namespace: &str, requested_namespace: &str) -> (r: Result<
    (),
    ServerError,
>)
    ensures
        r is Ok <==> namespace_allowed(token_namespace@, requested_namespace@),
        r matches Err(e) ==> is_invalid_credentials(
            e,
            "Token does not have access to namespace '"@ + requested_namespace@ + "'"@,
        ),
{
    if !str_equal(token_namespace, requested_namespace) && !str_equal(token_namespace, "*") {
        return Err(
            ServerError::Authentication(
                AuthenticationError::InvalidCredentials(
                    String::from_str("Token does not have access to namespace '").concat(
                        requested_namespace,
                    ).concat("'"),
                ),
            ),
        );
    }
    Ok(())
}

/// Validate the API key's form and check namespace access, given the namespace
/// that the decoded token grants. Returns the JWT to be checked with the server key.
pub fn validate_token_and_namespace(
    api_key: &str,
    token_namespace: &str,
    requested_namespace: &str,
) -> (r: Result<String, ServerError>)
    ensures
        r is Ok <==> has_prefix(api_key@, "msb_"@) && namespace_allowed(
            token_namespace@,
            requested_namespace@,
        ),
        r matches Ok(jwt) ==> jwt@ == api_key@.subrange(4, api_key@.len() as int),
        !has_prefix(api_key@, "msb_"@) ==> (r matches Err(e) && is_invalid_credentials(
            e,
            "Invalid API key format: missing prefix"@,
        )),
{
    let jwt = convert_api_key_to_jwt(api_key)?;
    validate_token_namespace(token_namespace, requested_namespace)?;
    Ok(jwt)
}

/// The access-denied error for a namespace that a token does not cover.
pub open spec fn is_namespace_denied(e: ServerError, namespace: Seq<char>) -> bool {
    e matches ServerError::AuthorizationError(AuthorizationError::AccessDenied(m)) && m@
        == "Token does not have access to namespace '"@ + namespace + "'"@
}

/// The namespace check of the RPC authentication middleware: a wildcard token
/// passes; otherwise the request's namespace must be the token's.
pub fn authorize_request_namespace(token_namespace: &str, request_namespace: &str) -> (r: Result<
    (),
    ServerError,
>)
    ensures
        r is Ok <==> namespace_allowed(token_namespace@, request_namespace@),
        r matches Err(e) ==> is_namespace_denied(e, request_namespace@),
{
    if str_equal(token_namespace, "*") || str_equal(token_namespace, request_namespace) {
        Ok(())
    } else {
        Err(
            ServerError::AuthorizationError(
                AuthorizationError::AccessDenied(
                    String::from_str("Token does not have access to namespace '").concat(
                        request_namespace,
                    ).concat("'"),
                ),
            ),
        )
    }
}

/// MCP methods that execute tools (`tools/call`) need namespace validation;
/// protocol methods do not.
pub fn mcp_method_requires_namespace(method: &str) -> (r: bool)
    ensures
        r == (method@ == "tools/call"@),
{
    str_equal(method, "tools/call")
}

/// The invalid-input error of a JSON-RPC request.
pub open spec fn is_invalid_input(e: ServerError, message: Seq<char>) -> bool {
    e matches ServerError::ValidationError(ValidationError::InvalidInput(m)) && m@ == message
}

/// Extract the namespace from the fields of a JSON-RPC request body: its method
/// (if a string), whether it has `params`, and `params.namespace` (if a string).
pub fn extract_namespace_from_json_rpc(
    method: Option<String>,
    has_params: bool,
    namespace: Option<String>,
) -> (r: Result<String, ServerError>)
    ensures
        !has_params ==> (r matches Err(e) && is_invalid_input(
            e,
            "Missing 'params' field in JSON-RPC request"@,
        )),
        has_params && namespace is Some ==> r == Ok::<String, ServerError>(namespace->0),
        has_params && namespace is None ==> (r matches Err(e) && is_invalid_input(
            e,
            "Missing or invalid 'namespace' in params for method '"@ + (match method {
                Some(m) => m@,
                None => "unknown"@,
            }) + "'"@,
        )),
{
    if !has_params {
        return Err(
            ServerError::ValidationError(
                ValidationError::InvalidInput(
                    String::from_str("Missing 'params' field in JSON-RPC request"),
                ),
            ),
        );
    }
    match namespace {
        Some(ns) => Ok(ns),
        None => {
            let method_name = match method {
                Some(m) => m,
                None => String::from_str("unknown"),
            };
            Err(
                ServerError::ValidationError(
                    ValidationError::InvalidInput(
                        String::from_str(
                            "Missing or invalid 'namespace' in params for method '",
                        ).concat(method_name.as_str()).concat("'"),
                    ),
                ),
            )
        },
    }
}


/// Names what `serde_json::from_slice::<serde_json::Value>` makes of bytes: the
/// JSON value they hold, or the text (`Display`) of the error that rejects them.
pub uninterp spec fn json_of_bytes(bytes: Seq<u8>) -> Result<Value, Seq<char>>;

/// Calls `serde_json::from_slice::<serde_json::Value>` and keeps the error's
/// text. The outcome is named by `json_of_bytes`.
#[verifier::external_body]
fn parse_json_bytes(bytes: &[u8]) -> (r: Result<Value, String>)
    ensures
        match r {
            Ok(v) => json_of_bytes(bytes@) == Ok::<Value, Seq<char>>(v),
            Err(e) => json_of_bytes(bytes@) == Err::<Value, Seq<char>>(e@),
        },
{
    serde_json::from_slice::<Value>(bytes).map_err(|e| e.to_string())
}

/// The fields of a JSON-RPC request body that authorization reads.
pub struct RpcBodyFields {
    /// The `method`, where it is text.
    pub method: Option<String>,
    /// Whether there are `params`.
    pub has_params: bool,
    /// The `namespace` of the params, where it is text.
    pub namespace: Option<String>,
}

/// The `namespace` text of the params of a request body, where there is one.
pub open spec fn params_namespace_text(body: Value) -> Option<Seq<char>> {
    match json_member(body, "params"@) {
        Some(p) => member_text(p, "namespace"@),
        None => None,
    }
}

/// The fields read of a request body: its `method` text, whether it has
/// `params`, and the `namespace` text of those.
pub open spec fn reads_body_fields(body: Value, f: RpcBodyFields) -> bool {
    &&& holds_text(f.method, member_text(body, "method"@))
    &&& f.has_params == json_member(body, "params"@) is Some
    &&& holds_text(f.namespace, params_namespace_text(body))
}

/// Read the `method`, `params` and `params.namespace` of a request body.
pub fn rpc_body_fields(body: &Value) -> (r: RpcBodyFields)
    ensures
        reads_body_fields(*body, r),
{
    let params = json_get(body, "params");
    let namespace = match params {
        Some(p) => member_string(p, "namespace"),
        None => None,
    };
    RpcBodyFields { method: member_string(body, "method"), has_params: params.is_some(), namespace }
}

/// The fields of a request body that is JSON, or the error that reports a body
/// that is not.
pub fn request_body_fields(bytes: &[u8]) -> (r: Result<RpcBodyFields, ServerError>)
    ensures
        match json_of_bytes(bytes@) {
            Ok(body) => r matches Ok(f) && reads_body_fields(body, f),
            Err(t) => r matches Err(e) && is_invalid_input(e, "Invalid JSON-RPC request: "@ + t),
        },
{
    match parse_json_bytes(bytes) {
        Ok(v) => Ok(rpc_body_fields(&v)),
        Err(e) => Err(
            ServerError::ValidationError(
                ValidationError::InvalidInput(
                    String::from_str("Invalid JSON-RPC request: ").concat(e.as_str()),
                ),
            ),
        ),
    }
}

/// The namespace that a request body names in its params, or the message of
/// the error that reports why it names none.
pub open spec fn body_namespace(bytes: Seq<u8>) -> Result<Seq<char>, Seq<char>> {
    match json_of_bytes(bytes) {
        Err(t) => Err("Invalid JSON-RPC request: "@ + t),
        Ok(body) => if json_member(body, "params"@) is None {
            Err("Missing 'params' field in JSON-RPC request"@)
        } else {
            match params_namespace_text(body) {
                Some(ns) => Ok(ns),
                None => Err(
                    "Missing or invalid 'namespace' in params for method '"@ + (match member_text(
                        body,
                        "method"@,
                    ) {
                        Some(m) => m,
                        None => "unknown"@,
                    }) + "'"@,
                ),
            }
        },
    }
}

/// The fields read of a request body give the namespace that the body names.
proof fn lemma_fields_namespace(bytes: Seq<u8>, f: RpcBodyFields)
    requires
        json_of_bytes(bytes) matches Ok(body) && reads_body_fields(body, f),
    ensures
        fields_namespace(f) == body_namespace(bytes),
{
}

/// Extract the namespace that a JSON-RPC request body names in its params.
pub fn namespace_of_request_body(bytes: &[u8]) -> (r: Result<String, ServerError>)
    ensures
        match body_namespace(bytes@) {
            Ok(ns) => r matches Ok(s) && s@ == ns,
            Err(m) => r matches Err(e) && is_invalid_input(e, m),
        },
{
    let fields = request_body_fields(bytes)?;
    proof {
        lemma_fields_namespace(bytes@, fields);
    }
    extract_namespace_from_json_rpc(fields.method, fields.has_params, fields.namespace)
}

/// What an authentication middleware does with a request whose token was validated.
pub enum AuthStep {
    /// Let the request through.
    Pass,
    /// Check the namespace that the request's body names.
    CheckNamespace,
}

/// The first decision of the authentication middlewares, given the validated
/// token's namespace: a wildcard token passes, any other has its namespace checked.
pub fn namespace_step(token_namespace: &str) -> (r: AuthStep)
    ensures
        token_namespace@ == "*"@ <==> r is Pass,
{
    if str_equal(token_namespace, "*") {
        AuthStep::Pass
    } else {
        AuthStep::CheckNamespace
    }
}

/// The namespace error that a request's fields give, if any: `None` where they
/// name a namespace (then returned in `Ok`).
pub open spec fn fields_namespace(fields: RpcBodyFields) -> Result<Seq<char>, Seq<char>> {
    if !fields.has_params {
        Err("Missing 'params' field in JSON-RPC request"@)
    } else {
        match fields.namespace {
            Some(ns) => Ok(ns@),
            None => Err(
                "Missing or invalid 'namespace' in params for method '"@ + (match fields.method {
                    Some(m) => m@,
                    None => "unknown"@,
                }) + "'"@,
            ),
        }
    }
}

/// The outcome of a namespace check: access where the request names the
/// token's namespace, else the invalid-input or access-denied error.
pub open spec fn namespace_check(
    r: Result<(), ServerError>,
    token_namespace: Seq<char>,
    named: Result<Seq<char>, Seq<char>>,
) -> bool {
    match named {
        Err(m) => r matches Err(e) && is_invalid_input(e, m),
        Ok(ns) => if ns == token_namespace {
            r is Ok
        } else {
            r matches Err(e) && is_namespace_denied(e, ns)
        },
    }
}

/// The check of the RPC middleware for a namespace-bound token, on the fields
/// of the request's body: the body must name the token's namespace.
pub fn authorize_rpc_fields(token_namespace: &str, fields: RpcBodyFields) -> (r: Result<(), ServerError>)
    ensures
        namespace_check(r, token_namespace@, fields_namespace(fields)),
{
    let namespace = extract_namespace_from_json_rpc(fields.method, fields.has_params, fields.namespace)?;
    if str_equal(token_namespace, namespace.as_str()) {
        Ok(())
    } else {
        Err(
            ServerError::AuthorizationError(
                AuthorizationError::AccessDenied(
                    String::from_str("Token does not have access to namespace '").concat(
                        namespace.as_str(),
                    ).concat("'"),
                ),
            ),
        )
    }
}

/// The check of the MCP middleware for a namespace-bound token, on the fields
/// of the request's body: only tool calls (`tools/call`) must name the token's
/// namespace.
pub fn authorize_mcp_fields(token_namespace: &str, fields: RpcBodyFields) -> (r: Result<(), ServerError>)
    ensures
        (fields.method matches Some(m) && m@ == "tools/call"@) ==> namespace_check(
            r,
            token_namespace@,
            fields_namespace(fields),
        ),
        !(fields.method matches Some(m) && m@ == "tools/call"@) ==> r is Ok,
{
    let is_tool_call = match &fields.method {
        Some(m) => mcp_method_requires_namespace(m.as_str()),
        None => false,
    };
    if !is_tool_call {
        return Ok(());
    }
    authorize_rpc_fields(token_namespace, fields)
}

/// The check of the RPC middleware for a namespace-bound token: the body must
/// be JSON and name the token's namespace.
pub fn authorize_rpc_body(token_namespace: &str, bytes: &[u8]) -> (r: Result<(), ServerError>)
    ensures
        namespace_check(r, token_namespace@, body_namespace(bytes@)),
{
    let fields = request_body_fields(bytes)?;
    proof {
        lemma_fields_namespace(bytes@, fields);
    }
    authorize_rpc_fields(token_namespace, fields)
}

/// The check of the MCP middleware for a namespace-bound token: the body must be
/// JSON, and a tool call must name the token's namespace.
pub fn authorize_mcp_body(token_namespace: &str, bytes: &[u8]) -> (r: Result<(), ServerError>)
    ensures
        json_of_bytes(bytes@) matches Err(t) ==> (r matches Err(e) && is_invalid_input(
            e,
            "Invalid JSON-RPC request: "@ + t,
        )),
        json_of_bytes(bytes@) matches Ok(body) ==> (if member_text(body, "method"@) == Some(
            "tools/call"@,
        ) {
            namespace_check(r, token_namespace@, body_namespace(bytes@))
        } else {
            r is Ok
        }),
{
    let fields = request_body_fields(bytes)?;
    proof {
        lemma_fields_namespace(bytes@, fields);
    }
    authorize_mcp_fields(token_namespace, fields)
}

} // verus!

//! Transport-level request building and response interpretation.
//!
//! The network exchange itself — an HTTP POST of a fixed-length body and the
//! text that comes back — happens outside the library. Everything around it
//! is verified here: the exact bytes of each request, and the exact reading
//! of each response as a snapshot, an application failure, or a structured
//! transport error.

use crate::json::json_text;
use crate::json::redacted_rep;
use crate::json::redact_sensitive_fields;
use crate::json::to_json_string;
use crate::json::JsonRep;
use crate::json::JsonVal;
use crate::json::lemma_pair_reps_index;
use crate::json::pair_reps;
use crate::json::rep_of;
use crate::jsonio::json_doc_of;
use crate::jsonio::parse_json;
use crate::rpc::body_snippet;
use crate::rpc::build_envelope;
use crate::rpc::classify_envelope;
use crate::rpc::envelope_outcome;
use crate::rpc::envelope_rep;
use crate::rpc::method_name;
use crate::rpc::method_name_rep;
use crate::rpc::snippet_rep;
use crate::rpc::OutcomeRep;
use crate::rpc::RpcCallError;
use crate::rpc::RpcMethod;
use crate::rpc::RpcOutcome;
use crate::types::auth_rep_of;
use crate::types::extract_auth_result;
use crate::types::extract_router_info;
use crate::types::router_info_rep_of;
use crate::types::AuthResult;
use crate::types::RouterInfoRep;
use crate::types::RouterInfoResult;
use vstd::prelude::*;
use vstd::string::StringExecFns;

verus! {

/// Ghost mirror of a structured call failure.
pub enum CallErrorRep {
    Transport { message: Seq<char>, timed_out: bool },
    Encode { error: Seq<char>, method: Seq<char> },
    Http { status: int, method: Seq<char>, body_snippet: Seq<char> },
    Rpc { code: int, message: Seq<char>, method: Seq<char> },
    Decode { error: Seq<char>, method: Seq<char>, body_snippet: Seq<char> },
}

impl View for RpcCallError {
    type V = CallErrorRep;

    open spec fn view(&self) -> CallErrorRep {
        match self {
            RpcCallError::Transport { message, timed_out } => CallErrorRep::Transport {
                message: message@,
                timed_out: *timed_out,
            },
            RpcCallError::Encode { error, method } => CallErrorRep::Encode {
                error: error@,
                method: method@,
            },
            RpcCallError::Http { status, method, body_snippet } => CallErrorRep::Http {
                status: *status as int,
                method: method@,
                body_snippet: body_snippet@,
            },
            RpcCallError::Rpc { code, message, method } => CallErrorRep::Rpc {
                code: *code as int,
                message: message@,
                method: method@,
            },
            RpcCallError::Decode { error, method, body_snippet } => CallErrorRep::Decode {
                error: error@,
                method: method@,
                body_snippet: body_snippet@,
            },
        }
    }
}

/// The fixed text of a decode failure.
pub open spec fn decode_error_text() -> Seq<char> {
    "response fits neither envelope branch"@
}

/// The decode failure for `method` on `body`, with the snippet rules.
pub open spec fn decode_error_rep(method: RpcMethod, body: Seq<char>) -> CallErrorRep {
    CallErrorRep::Decode {
        error: decode_error_text(),
        method: method_name_rep(method),
        body_snippet: snippet_rep(method, body),
    }
}

/// The decode failure for `method` on `body`.
fn decode_error(method: &RpcMethod, body: &str) -> (r: RpcCallError)
    ensures
        r@ == decode_error_rep(*method, body@),
{
    RpcCallError::Decode {
        error: String::from_str("response fits neither envelope branch"),
        method: method_name(method),
        body_snippet: body_snippet(method, body),
    }
}

/// The envelope-level reading of one HTTP response for `method`: a
/// non-success status is an `Http` failure carrying the bounded snippet; a
/// success status whose body is not valid JSON, or fits neither branch of
/// the one-of envelope, is a `Decode` failure; the failure branch is an
/// `Rpc` failure; the success branch hands its document on.
pub open spec fn response_envelope(method: RpcMethod, status: int, body: Seq<char>) -> Result<
    JsonRep,
    CallErrorRep,
> {
    if !(200 <= status < 300) {
        Err(
            CallErrorRep::Http {
                status,
                method: method_name_rep(method),
                body_snippet: snippet_rep(method, body),
            },
        )
    } else {
        match json_doc_of(body) {
            None => Err(decode_error_rep(method, body)),
            Some(doc) => match envelope_outcome(doc) {
                None => Err(decode_error_rep(method, body)),
                Some(OutcomeRep::Failure { code, message }) => Err(
                    CallErrorRep::Rpc { code, message, method: method_name_rep(method) },
                ),
                Some(OutcomeRep::Success(res)) => Ok(res),
            },
        }
    }
}

/// The full reading of a status-fetch response: its envelope, then the
/// snapshot decode; a snapshot that mismatches its types is a `Decode`
/// failure.
pub open spec fn router_info_response(status: int, body: Seq<char>) -> Result<
    RouterInfoRep,
    CallErrorRep,
> {
    match response_envelope(RpcMethod::RouterInfo, status, body) {
        Err(e) => Err(e),
        Ok(res) => match router_info_rep_of(res) {
            Ok(rep) => Ok(rep),
            Err(d) => Err(decode_error_rep(RpcMethod::RouterInfo, body)),
        },
    }
}

/// The full reading of an authentication response: its envelope, then the
/// token field; no response body ever enters the error.
pub open spec fn auth_response(status: int, body: Seq<char>) -> Result<
    Option<Seq<char>>,
    CallErrorRep,
> {
    match response_envelope(RpcMethod::Authenticate, status, body) {
        Err(e) => Err(e),
        Ok(res) => match auth_rep_of(res) {
            Ok(t) => Ok(t),
            Err(d) => Err(decode_error_rep(RpcMethod::Authenticate, body)),
        },
    }
}

/// Interprets one HTTP response to the status-fetch method.
pub fn interpret_response_router_info(status: u16, body: &str) -> (r: Result<
    RouterInfoResult,
    RpcCallError,
>)
    ensures
        match router_info_response(status as int, body@) {
            Ok(rep) => r matches Ok(ri) && ri@ == rep,
            Err(e) => r matches Err(err) && err@ == e,
        },
{
    let m = RpcMethod::RouterInfo;
    if !(200 <= status && status < 300) {
        return Err(
            RpcCallError::Http {
                status,
                method: method_name(&m),
                body_snippet: body_snippet(&m, body),
            },
        );
    }
    match parse_json(body) {
        None => Err(decode_error(&m, body)),
        Some(doc) => match classify_envelope(&doc) {
            None => Err(decode_error(&m, body)),
            Some(RpcOutcome::Failure { error }) => Err(
                RpcCallError::Rpc {
                    code: error.code,
                    message: error.message,
                    method: method_name(&m),
                },
            ),
            Some(RpcOutcome::Success { result }) => match extract_router_info(result) {
                Ok(ri) => Ok(ri),
                Err(d) => Err(decode_error(&m, body)),
            },
        },
    }
}

/// Interprets one HTTP response to the authentication method.
pub fn interpret_response_auth(status: u16, body: &str) -> (r: Result<AuthResult, RpcCallError>)
    ensures
        match auth_response(status as int, body@) {
            Ok(t) => r matches Ok(a) && a.token.deep_view() == t,
            Err(e) => r matches Err(err) && err@ == e,
        },
{
    let m = RpcMethod::Authenticate;
    if !(200 <= status && status < 300) {
        return Err(
            RpcCallError::Http {
                status,
                method: method_name(&m),
                body_snippet: body_snippet(&m, body),
            },
        );
    }
    match parse_json(body) {
        None => Err(decode_error(&m, body)),
        Some(doc) => match classify_envelope(&doc) {
            None => Err(decode_error(&m, body)),
            Some(RpcOutcome::Failure { error }) => Err(
                RpcCallError::Rpc {
                    code: error.code,
                    message: error.message,
                    method: method_name(&m),
                },
            ),
            Some(RpcOutcome::Success { result }) => match extract_auth_result(result) {
                Ok(a) => Ok(a),
                Err(d) => Err(decode_error(&m, body)),
            },
        },
    }
}

/// The parameter object of an authentication request: the protocol version
/// and the configured password.
pub open spec fn auth_params_rep(password: Seq<char>) -> JsonRep {
    JsonRep::Obj(seq![("API"@, JsonRep::Num(seq!['1'])), ("Password"@, JsonRep::Str(password))])
}

/// Builds the authentication request document.
pub fn auth_request_doc(password: &str) -> (r: JsonVal)
    ensures
        r@ == envelope_rep("Authenticate"@, auth_params_rep(password@)),
{
    let mut entries: Vec<(String, JsonVal)> = Vec::new();
    entries.push((String::from_str("API"), JsonVal::UInt(1)));
    entries.push((String::from_str("Password"), JsonVal::Str(password.to_owned())));
    let ghost ents = entries@;
    let params = JsonVal::Obj(entries);
    proof {
        lemma_pair_reps_index(ents);
        assert(crate::json::dec_digits(1) =~= seq!['1']);
        assert(pair_reps(ents)[0] == (ents[0].0@, rep_of(ents[0].1)));
        assert(pair_reps(ents)[1] == (ents[1].0@, rep_of(ents[1].1)));
        assert(pair_reps(ents) =~= seq![
            ("API"@, JsonRep::Num(seq!['1'])),
            ("Password"@, JsonRep::Str(password@)),
        ]);
    }
    build_envelope(&RpcMethod::Authenticate, params)
}

/// The parameter object of a status-fetch request: the fixed set of status
/// keys — each with an empty string, never null, for compatibility with
/// servers that reject nulls — and the session token.
pub open spec fn router_info_params_rep(token: Seq<char>) -> JsonRep {
    JsonRep::Obj(
        seq![
            ("i2p.router.status"@, JsonRep::Str(Seq::empty())),
            ("i2p.router.version"@, JsonRep::Str(Seq::empty())),
            ("i2p.router.uptime"@, JsonRep::Str(Seq::empty())),
            ("i2p.router.net.bw.inbound.1s"@, JsonRep::Str(Seq::empty())),
            ("i2p.router.net.bw.inbound.15s"@, JsonRep::Str(Seq::empty())),
            ("i2p.router.net.bw.outbound.1s"@, JsonRep::Str(Seq::empty())),
            ("i2p.router.net.bw.outbound.15s"@, JsonRep::Str(Seq::empty())),
            ("i2p.router.net.bw.transit.15s"@, JsonRep::Str(Seq::empty())),
            ("i2p.router.net.status"@, JsonRep::Str(Seq::empty())),
            ("i2p.router.net.status.v6"@, JsonRep::Str(Seq::empty())),
            ("i2p.router.net.error"@, JsonRep::Str(Seq::empty())),
            ("i2p.router.net.error.v6"@, JsonRep::Str(Seq::empty())),
            ("i2p.router.net.testing"@, JsonRep::Str(Seq::empty())),
            ("i2p.router.net.testing.v6"@, JsonRep::Str(Seq::empty())),
            ("i2p.router.net.tunnels.participating"@, JsonRep::Str(Seq::empty())),
            ("i2p.router.net.tunnels.inbound"@, JsonRep::Str(Seq::empty())),
            ("i2p.router.net.tunnels.outbound"@, JsonRep::Str(Seq::empty())),
            ("i2p.router.net.tunnels.successrate"@, JsonRep::Str(Seq::empty())),
            ("i2p.router.net.tunnels.totalsuccessrate"@, JsonRep::Str(Seq::empty())),
            ("i2p.router.net.tunnels.queue"@, JsonRep::Str(Seq::empty())),
            ("i2p.router.net.tunnels.tbmqueue"@, JsonRep::Str(Seq::empty())),
            ("i2p.router.netdb.activepeers"@, JsonRep::Str(Seq::empty())),
            ("i2p.router.netdb.knownpeers"@, JsonRep::Str(Seq::empty())),
            ("i2p.router.netdb.floodfills"@, JsonRep::Str(Seq::empty())),
            ("i2p.router.netdb.leasesets"@, JsonRep::Str(Seq::empty())),
            ("i2p.router.net.total.received.bytes"@, JsonRep::Str(Seq::empty())),
            ("i2p.router.net.total.sent.bytes"@, JsonRep::Str(Seq::empty())),
            ("i2p.router.net.transit.sent.bytes"@, JsonRep::Str(Seq::empty())),
            ("Token"@, JsonRep::Str(token)),
        ],
    )
}

/// Builds the status-fetch request document around `token`.
#[verifier::rlimit(100)]
pub fn router_info_request_doc(token: &str) -> (r: JsonVal)
    ensures
        r@ == envelope_rep("RouterInfo"@, router_info_params_rep(token@)),
{
    let mut entries: Vec<(String, JsonVal)> = Vec::new();
    entries.push((String::from_str("i2p.router.status"), JsonVal::Str(String::new())));
    entries.push((String::from_str("i2p.router.version"), JsonVal::Str(String::new())));
    entries.push((String::from_str("i2p.router.uptime"), JsonVal::Str(String::new())));
    entries.push((String::from_str("i2p.router.net.bw.inbound.1s"), JsonVal::Str(String::new())));
    entries.push((String::from_str("i2p.router.net.bw.inbound.15s"), JsonVal::Str(String::new())));
    entries.push((String::from_str("i2p.router.net.bw.outbound.1s"), JsonVal::Str(String::new())));
    entries.push((String::from_str("i2p.router.net.bw.outbound.15s"), JsonVal::Str(String::new())));
    entries.push((String::from_str("i2p.router.net.bw.transit.15s"), JsonVal::Str(String::new())));
    entries.push((String::from_str("i2p.router.net.status"), JsonVal::Str(String::new())));
    entries.push((String::from_str("i2p.router.net.status.v6"), JsonVal::Str(String::new())));
    entries.push((String::from_str("i2p.router.net.error"), JsonVal::Str(String::new())));
    entries.push((String::from_str("i2p.router.net.error.v6"), JsonVal::Str(String::new())));
    entries.push((String::from_str("i2p.router.net.testing"), JsonVal::Str(String::new())));
    entries.push((String::from_str("i2p.router.net.testing.v6"), JsonVal::Str(String::new())));
    entries.push((String::from_str("i2p.router.net.tunnels.participating"), JsonVal::Str(String::new())));
    entries.push((String::from_str("i2p.router.net.tunnels.inbound"), JsonVal::Str(String::new())));
    entries.push((String::from_str("i2p.router.net.tunnels.outbound"), JsonVal::Str(String::new())));
    entries.push((String::from_str("i2p.router.net.tunnels.successrate"), JsonVal::Str(String::new())));
    entries.push((String::from_str("i2p.router.net.tunnels.totalsuccessrate"), JsonVal::Str(String::new())));
    entries.push((String::from_str("i2p.router.net.tunnels.queue"), JsonVal::Str(String::new())));
    entries.push((String::from_str("i2p.router.net.tunnels.tbmqueue"), JsonVal::Str(String::new())));
    entries.push((String::from_str("i2p.router.netdb.activepeers"), JsonVal::Str(String::new())));
    entries.push((String::from_str("i2p.router.netdb.knownpeers"), JsonVal::Str(String::new())));
    entries.push((String::from_str("i2p.router.netdb.floodfills"), JsonVal::Str(String::new())));
    entries.push((String::from_str("i2p.router.netdb.leasesets"), JsonVal::Str(String::new())));
    entries.push((String::from_str("i2p.router.net.total.received.bytes"), JsonVal::Str(String::new())));
    entries.push((String::from_str("i2p.router.net.total.sent.bytes"), JsonVal::Str(String::new())));
    entries.push((String::from_str("i2p.router.net.transit.sent.bytes"), JsonVal::Str(String::new())));
    entries.push((String::from_str("Token"), JsonVal::Str(token.to_owned())));
    let ghost ents = entries@;
    let params = JsonVal::Obj(entries);
    proof {
        lemma_pair_reps_index(ents);
        assert(pair_reps(ents)[0] == (ents[0].0@, rep_of(ents[0].1)));
        assert(pair_reps(ents)[1] == (ents[1].0@, rep_of(ents[1].1)));
        assert(pair_reps(ents)[2] == (ents[2].0@, rep_of(ents[2].1)));
        assert(pair_reps(ents)[3] == (ents[3].0@, rep_of(ents[3].1)));
        assert(pair_reps(ents)[4] == (ents[4].0@, rep_of(ents[4].1)));
        assert(pair_reps(ents)[5] == (ents[5].0@, rep_of(ents[5].1)));
        assert(pair_reps(ents)[6] == (ents[6].0@, rep_of(ents[6].1)));
        assert(pair_reps(ents)[7] == (ents[7].0@, rep_of(ents[7].1)));
        assert(pair_reps(ents)[8] == (ents[8].0@, rep_of(ents[8].1)));
        assert(pair_reps(ents)[9] == (ents[9].0@, rep_of(ents[9].1)));
        assert(pair_reps(ents)[10] == (ents[10].0@, rep_of(ents[10].1)));
        assert(pair_reps(ents)[11] == (ents[11].0@, rep_of(ents[11].1)));
        assert(pair_reps(ents)[12] == (ents[12].0@, rep_of(ents[12].1)));
        assert(pair_reps(ents)[13] == (ents[13].0@, rep_of(ents[13].1)));
        assert(pair_reps(ents)[14] == (ents[14].0@, rep_of(ents[14].1)));
        assert(pair_reps(ents)[15] == (ents[15].0@, rep_of(ents[15].1)));
        assert(pair_reps(ents)[16] == (ents[16].0@, rep_of(ents[16].1)));
        assert(pair_reps(ents)[17] == (ents[17].0@, rep_of(ents[17].1)));
        assert(pair_reps(ents)[18] == (ents[18].0@, rep_of(ents[18].1)));
        assert(pair_reps(ents)[19] == (ents[19].0@, rep_of(ents[19].1)));
        assert(pair_reps(ents)[20] == (ents[20].0@, rep_of(ents[20].1)));
        assert(pair_reps(ents)[21] == (ents[21].0@, rep_of(ents[21].1)));
        assert(pair_reps(ents)[22] == (ents[22].0@, rep_of(ents[22].1)));
        assert(pair_reps(ents)[23] == (ents[23].0@, rep_of(ents[23].1)));
        assert(pair_reps(ents)[24] == (ents[24].0@, rep_of(ents[24].1)));
        assert(pair_reps(ents)[25] == (ents[25].0@, rep_of(ents[25].1)));
        assert(pair_reps(ents)[26] == (ents[26].0@, rep_of(ents[26].1)));
        assert(pair_reps(ents)[27] == (ents[27].0@, rep_of(ents[27].1)));
        assert(pair_reps(ents)[28] == (ents[28].0@, rep_of(ents[28].1)));
        assert(pair_reps(ents) =~= seq![
            ("i2p.router.status"@, JsonRep::Str(Seq::empty())),
            ("i2p.router.version"@, JsonRep::Str(Seq::empty())),
            ("i2p.router.uptime"@, JsonRep::Str(Seq::empty())),
            ("i2p.router.net.bw.inbound.1s"@, JsonRep::Str(Seq::empty())),
            ("i2p.router.net.bw.inbound.15s"@, JsonRep::Str(Seq::empty())),
            ("i2p.router.net.bw.outbound.1s"@, JsonRep::Str(Seq::empty())),
            ("i2p.router.net.bw.outbound.15s"@, JsonRep::Str(Seq::empty())),
            ("i2p.router.net.bw.transit.15s"@, JsonRep::Str(Seq::empty())),
            ("i2p.router.net.status"@, JsonRep::Str(Seq::empty())),
            ("i2p.router.net.status.v6"@, JsonRep::Str(Seq::empty())),
            ("i2p.router.net.error"@, JsonRep::Str(Seq::empty())),
            ("i2p.router.net.error.v6"@, JsonRep::Str(Seq::empty())),
            ("i2p.router.net.testing"@, JsonRep::Str(Seq::empty())),
            ("i2p.router.net.testing.v6"@, JsonRep::Str(Seq::empty())),
            ("i2p.router.net.tunnels.participating"@, JsonRep::Str(Seq::empty())),
            ("i2p.router.net.tunnels.inbound"@, JsonRep::Str(Seq::empty())),
            ("i2p.router.net.tunnels.outbound"@, JsonRep::Str(Seq::empty())),
            ("i2p.router.net.tunnels.successrate"@, JsonRep::Str(Seq::empty())),
            ("i2p.router.net.tunnels.totalsuccessrate"@, JsonRep::Str(Seq::empty())),
            ("i2p.router.net.tunnels.queue"@, JsonRep::Str(Seq::empty())),
            ("i2p.router.net.tunnels.tbmqueue"@, JsonRep::Str(Seq::empty())),
            ("i2p.router.netdb.activepeers"@, JsonRep::Str(Seq::empty())),
            ("i2p.router.netdb.knownpeers"@, JsonRep::Str(Seq::empty())),
            ("i2p.router.netdb.floodfills"@, JsonRep::Str(Seq::empty())),
            ("i2p.router.netdb.leasesets"@, JsonRep::Str(Seq::empty())),
            ("i2p.router.net.total.received.bytes"@, JsonRep::Str(Seq::empty())),
            ("i2p.router.net.total.sent.bytes"@, JsonRep::Str(Seq::empty())),
            ("i2p.router.net.transit.sent.bytes"@, JsonRep::Str(Seq::empty())),
            ("Token"@, JsonRep::Str(token@)),
        ]);
    }
    build_envelope(&RpcMethod::RouterInfo, params)
}

/// The serialized text of a request document, redacted for logging: no
/// credential-bearing member survives in it.
pub fn redacted_request_text(v: &JsonVal) -> (r: String)
    ensures
        r@ == json_text(redacted_rep(v@)),
{
    let masked = redact_sensitive_fields(v);
    to_json_string(&masked)
}

} // verus!

//! The JSON-RPC envelope: outbound request building, the structured error
//! taxonomy, and classification of the one-of response envelope.

use crate::json::obj_has_key;
use crate::json::obj_lookup;
use crate::json::JsonRep;
use crate::json::JsonVal;
use crate::json::dec_digits;
use crate::json::lemma_obj_lookup_has_key;
use crate::json::lemma_pair_reps_index;
use crate::json::pair_reps;
use crate::json::rep_of;
use crate::jsonio::json_as_str;
use crate::jsonio::json_get;
use crate::jsonio::json_number_text;
use crate::jsonio::value_rep;
use crate::numtext::i32_of_text;
use crate::numtext::parse_i32_text;
use vstd::prelude::*;
use vstd::string::StrSliceExecFns;
use vstd::string::StringExecFns;

verus! {

/// The two methods of the control API this client consumes.
#[derive(Clone, Copy, PartialEq, Eq, Structural, Debug)]
pub enum RpcMethod {
    Authenticate,
    RouterInfo,
}

/// The wire name of a method.
pub open spec fn method_name_rep(m: RpcMethod) -> Seq<char> {
    match m {
        RpcMethod::Authenticate => "Authenticate"@,
        RpcMethod::RouterInfo => "RouterInfo"@,
    }
}

/// The wire name of a method.
pub fn method_name(m: &RpcMethod) -> (r: String)
    ensures
        r@ == method_name_rep(*m),
{
    match m {
        RpcMethod::Authenticate => String::from_str("Authenticate"),
        RpcMethod::RouterInfo => String::from_str("RouterInfo"),
    }
}

/// An application-level error carried in a response envelope.
#[derive(Debug)]
pub struct RpcError {
    pub code: i32,
    pub message: String,
}

/// The exact-one-of outcome a structurally valid response encodes.
pub enum RpcOutcome<T> {
    Success { result: T },
    Failure { error: RpcError },
}

/// Structured failure of one call: exactly one variant applies.
#[derive(Debug)]
pub enum RpcCallError {
    /// Connection, TLS or timeout failure below HTTP; `timed_out` is set
    /// where the transport reported a timeout.
    Transport { message: String, timed_out: bool },
    /// The request body could not be serialized.
    Encode { error: String, method: String },
    /// A response arrived with a non-success HTTP status.
    Http { status: u16, method: String, body_snippet: String },
    /// A structurally valid response carried the failure branch.
    Rpc { code: i32, message: String, method: String },
    /// The response body fit neither branch of the envelope.
    Decode { error: String, method: String, body_snippet: String },
}

/// The largest number of characters of a response body embedded in an
/// error.
pub const SNIPPET_MAX_CHARS: usize = 2048;

/// Truncates `s` to at most `max` characters, on character boundaries.
pub fn truncate_chars(s: &str, max: usize) -> (r: String)
    ensures
        r@ == if s@.len() <= max {
            s@
        } else {
            s@.take(max as int)
        },
{
    let len = s.unicode_len();
    if len <= max {
        s.to_owned()
    } else {
        let t = s.substring_char(0, max);
        assert(t@ =~= s@.take(max as int));
        t.to_owned()
    }
}

/// The body snippet embedded in an error for `m`: a fixed placeholder for
/// the authentication method — its responses may carry credential material
/// — and otherwise the body, truncated to the snippet bound.
pub open spec fn snippet_rep(m: RpcMethod, body: Seq<char>) -> Seq<char> {
    if m is Authenticate {
        "<omitted>"@
    } else if body.len() > SNIPPET_MAX_CHARS {
        body.take(SNIPPET_MAX_CHARS as int)
    } else {
        body
    }
}

/// The bounded, redaction-aware body snippet for an error on `m`.
pub fn body_snippet(m: &RpcMethod, body: &str) -> (r: String)
    ensures
        r@ == snippet_rep(*m, body@),
{
    match m {
        RpcMethod::Authenticate => String::from_str("<omitted>"),
        _ => truncate_chars(body, SNIPPET_MAX_CHARS),
    }
}

/// The request envelope for `method` carrying `params`.
pub open spec fn envelope_rep(method: Seq<char>, params: JsonRep) -> JsonRep {
    JsonRep::Obj(
        seq![
            ("id"@, JsonRep::Num(seq!['1'])),
            ("jsonrpc"@, JsonRep::Str("2.0"@)),
            ("method"@, JsonRep::Str(method)),
            ("params"@, params),
        ],
    )
}

/// Builds the request envelope for `method` around `params`.
pub fn build_envelope(method: &RpcMethod, params: JsonVal) -> (r: JsonVal)
    ensures
        r@ == envelope_rep(method_name_rep(*method), params@),
{
    let ghost prep = params@;
    let mut entries: Vec<(String, JsonVal)> = Vec::new();
    entries.push((String::from_str("id"), JsonVal::UInt(1)));
    entries.push((String::from_str("jsonrpc"), JsonVal::Str(String::from_str("2.0"))));
    entries.push((String::from_str("method"), JsonVal::Str(method_name(method))));
    entries.push((String::from_str("params"), params));
    let ghost ents = entries@;
    let r = JsonVal::Obj(entries);
    proof {
        lemma_pair_reps_index(ents);
        assert(dec_digits(1) =~= seq!['1']);
        assert(ents.len() == 4);
        assert(pair_reps(ents)[0] == (ents[0].0@, rep_of(ents[0].1)));
        assert(rep_of(ents[0].1) == JsonRep::Num(dec_digits(1)));
        assert(pair_reps(ents)[1] == (ents[1].0@, rep_of(ents[1].1)));
        assert(rep_of(ents[1].1) == JsonRep::Str("2.0"@));
        assert(pair_reps(ents)[2] == (ents[2].0@, rep_of(ents[2].1)));
        assert(rep_of(ents[2].1) == JsonRep::Str(method_name_rep(*method)));
        assert(pair_reps(ents)[3] == (ents[3].0@, rep_of(ents[3].1)));
        assert(rep_of(ents[3].1) == prep);
        assert(pair_reps(ents) =~= seq![
            ("id"@, JsonRep::Num(seq!['1'])),
            ("jsonrpc"@, JsonRep::Str("2.0"@)),
            ("method"@, JsonRep::Str(method_name_rep(*method))),
            ("params"@, prep),
        ]);
    }
    r
}

/// The outcome a response document encodes, if it fits the envelope.
pub enum OutcomeRep {
    Success(JsonRep),
    Failure { code: int, message: Seq<char> },
}

/// The exact-one-of reading of a response document: an object with a
/// `result` member and no `error` member is the success branch; an object
/// with an `error` member and no `result` member whose error holds an
/// `i32` `code` number and a string `message` is the failure branch; any
/// other document — neither member, both members, or a malformed error —
/// fits neither and is a decode failure.
pub open spec fn envelope_outcome(rep: JsonRep) -> Option<OutcomeRep> {
    match rep {
        JsonRep::Obj(entries) => {
            if obj_has_key(entries, "result"@) && !obj_has_key(entries, "error"@) {
                match obj_lookup(entries, "result"@) {
                    Some(res) => Some(OutcomeRep::Success(res)),
                    None => None,
                }
            } else if obj_has_key(entries, "error"@) && !obj_has_key(entries, "result"@) {
                match obj_lookup(entries, "error"@) {
                    Some(JsonRep::Obj(eentries)) => {
                        match (obj_lookup(eentries, "code"@), obj_lookup(eentries, "message"@)) {
                            (Some(JsonRep::Num(ctext)), Some(JsonRep::Str(msg))) => {
                                match i32_of_text(ctext) {
                                    Some(code) => Some(OutcomeRep::Failure { code, message: msg }),
                                    None => None,
                                }
                            },
                            _ => None,
                        }
                    },
                    _ => None,
                }
            } else {
                None
            }
        },
        _ => None,
    }
}

/// Classifies a parsed response document as one branch of the envelope;
/// `None` is a decode failure.
pub fn classify_envelope<'a>(v: &'a serde_json::Value) -> (r: Option<
    RpcOutcome<&'a serde_json::Value>,
>)
    ensures
        r is Some <==> envelope_outcome(value_rep(*v)) is Some,
        match envelope_outcome(value_rep(*v)) {
            Some(OutcomeRep::Success(rep)) => r matches Some(RpcOutcome::Success { result })
                && value_rep(*result) == rep,
            Some(OutcomeRep::Failure { code, message }) => r matches Some(
                RpcOutcome::Failure { error },
            ) && error.code == code && error.message@ == message,
            None => r is None,
        },
{
    proof {
        match value_rep(*v) {
            JsonRep::Obj(entries) => {
                lemma_obj_lookup_has_key(entries, "result"@);
                lemma_obj_lookup_has_key(entries, "error"@);
            },
            _ => {},
        }
    }
    let result_v = json_get(v, "result");
    let error_v = json_get(v, "error");
    match (result_v, error_v) {
        (Some(res), None) => Some(RpcOutcome::Success { result: res }),
        (None, Some(errv)) => {
            proof {
                match value_rep(*errv) {
                    JsonRep::Obj(eentries) => {
                        lemma_obj_lookup_has_key(eentries, "code"@);
                        lemma_obj_lookup_has_key(eentries, "message"@);
                    },
                    _ => {},
                }
            }
            let code_v = json_get(errv, "code");
            let msg_v = json_get(errv, "message");
            match (code_v, msg_v) {
                (Some(cv), Some(mv)) => {
                    let ctext = json_number_text(cv);
                    let mtext = json_as_str(mv);
                    match (ctext, mtext) {
                        (Some(ct), Some(message)) => {
                            match parse_i32_text(ct.as_str()) {
                                Some(code) => Some(
                                    RpcOutcome::Failure { error: RpcError { code, message } },
                                ),
                                None => None,
                            }
                        },
                        _ => None,
                    }
                },
                _ => None,
            }
        },
        _ => None,
    }
}

} // verus!


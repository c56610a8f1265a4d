//! Decisions of the scrape handler: the HTTP status and error flag for an
//! outcome, content negotiation, and the state buckets of the network
//! status gauge. The listener itself and the exposition formatting stay
//! outside the library.

use crate::client::FetchError;
use crate::rpc::RpcCallError;
use crate::types::RouterInfoResult;
use vstd::prelude::*;

verus! {

/// The outcome of one scrape, as the handler sees it.
pub enum ScrapeOutcome {
    /// The outer scrape budget elapsed before the fetch returned.
    TimedOut,
    /// The fetch returned, well or badly.
    Completed(Result<RouterInfoResult, FetchError>),
}

/// The HTTP status for an outcome: timeouts — of the outer budget, of the
/// transport, or of the internal deadline — are a gateway timeout; any
/// other failure is an internal error; success is plain success.
pub open spec fn scrape_status_of(o: ScrapeOutcome) -> int {
    match o {
        ScrapeOutcome::TimedOut => 504,
        ScrapeOutcome::Completed(res) => match res {
            Ok(d) => 200,
            Err(e) => match e {
                FetchError::DeadlineExceeded => 504,
                FetchError::Call(RpcCallError::Transport { message, timed_out }) => if timed_out {
                    504
                } else {
                    500
                },
                _ => 500,
            },
        },
    }
}

/// The HTTP status for an outcome.
pub fn scrape_status(o: &ScrapeOutcome) -> (r: u16)
    ensures
        r == scrape_status_of(*o),
{
    match o {
        ScrapeOutcome::TimedOut => 504,
        ScrapeOutcome::Completed(res) => match res {
            Ok(d) => 200,
            Err(e) => match e {
                FetchError::DeadlineExceeded => 504,
                FetchError::Call(RpcCallError::Transport { message, timed_out }) => if *timed_out {
                    504
                } else {
                    500
                },
                _ => 500,
            },
        },
    }
}

/// The scrape-error gauge value for an outcome: zero on success, one on
/// any failure, including a timeout.
pub fn scrape_error_flag(o: &ScrapeOutcome) -> (r: u8)
    ensures
        r == 0 <==> o matches ScrapeOutcome::Completed(Ok(d)),
        r == 0 || r == 1,
{
    match o {
        ScrapeOutcome::Completed(res) => match res {
            Ok(d) => 0,
            Err(e) => 1,
        },
        ScrapeOutcome::TimedOut => 1,
    }
}

/// The one content type this exporter emits.
pub open spec fn om_content_type() -> Seq<char> {
    "application/openmetrics-text; version=1.0.0; charset=utf-8"@
}

/// Content negotiation: only the OpenMetrics text format is ever emitted,
/// so the answer is its content type whatever the client accepts — stated
/// and kept precise here rather than pretending to negotiate.
pub fn choose_content_type(accept: Option<&str>) -> (r: &'static str)
    ensures
        r@ == om_content_type(),
{
    match accept {
        Some(a) => "application/openmetrics-text; version=1.0.0; charset=utf-8",
        None => "application/openmetrics-text; version=1.0.0; charset=utf-8",
    }
}

/// The state labels of the network status gauges.
#[derive(Clone, Copy, PartialEq, Eq, Structural, Debug)]
pub enum NetStateLabel {
    Okay,
    Firewalled,
    Unknown,
    Proxy,
    Mesh,
}

/// Exactly one label is on for each known status code; every unknown code
/// lights only the `unknown` bucket.
pub open spec fn bucket_on(code: u8, label: NetStateLabel) -> bool {
    match code {
        0u8 => label is Okay,
        1u8 => label is Firewalled,
        2u8 => label is Unknown,
        3u8 => label is Proxy,
        4u8 => label is Mesh,
        _ => label is Unknown,
    }
}

/// Whether `label`'s bucket is on for `code`.
pub fn bucket_state(code: u8, label: NetStateLabel) -> (r: bool)
    ensures
        r == bucket_on(code, label),
{
    match code {
        0u8 => matches!(label, NetStateLabel::Okay),
        1u8 => matches!(label, NetStateLabel::Firewalled),
        2u8 => matches!(label, NetStateLabel::Unknown),
        3u8 => matches!(label, NetStateLabel::Proxy),
        4u8 => matches!(label, NetStateLabel::Mesh),
        _ => matches!(label, NetStateLabel::Unknown),
    }
}

/// The exposition text of a state label.
pub fn net_state_label_text(label: NetStateLabel) -> (r: &'static str)
    ensures
        label is Okay ==> r@ == "ok"@,
        label is Firewalled ==> r@ == "firewalled"@,
        label is Unknown ==> r@ == "unknown"@,
        label is Proxy ==> r@ == "proxy"@,
        label is Mesh ==> r@ == "mesh"@,
{
    match label {
        NetStateLabel::Okay => "ok",
        NetStateLabel::Firewalled => "firewalled",
        NetStateLabel::Unknown => "unknown",
        NetStateLabel::Proxy => "proxy",
        NetStateLabel::Mesh => "mesh",
    }
}

} // verus!

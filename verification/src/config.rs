//! The configuration surface of the exporter, as plain settings. Argument
//! and environment parsing stays outside the library; it hands these
//! values in.

use vstd::prelude::*;
use vstd::string::StringExecFns;

verus! {

/// The exporter's settings.
pub struct Cli {
    /// Control endpoint, without the RPC path.
    pub i2pcontrol_address: String,
    /// Password for the control API.
    pub i2pcontrol_password: String,
    /// Address and port the metrics server listens on.
    pub metrics_listen_addr: String,
    /// Hard cap for the header-derived scrape timeout, in seconds.
    pub max_scrape_timeout_seconds: u64,
    /// Accept invalid TLS certificates.
    pub i2pcontrol_tls_insecure: bool,
}

impl Default for Cli {
    /// The stock settings: the local control endpoint and its stock
    /// password, the usual metrics port, a two-minute timeout cap, and
    /// strict TLS.
    fn default() -> (r: Self)
        ensures
            r.i2pcontrol_address@ == "https://127.0.0.1:7650"@,
            r.i2pcontrol_password@ == "itoopie"@,
            r.metrics_listen_addr@ == "0.0.0.0:9600"@,
            r.max_scrape_timeout_seconds == 120,
            !r.i2pcontrol_tls_insecure,
    {
        Cli {
            i2pcontrol_address: String::from_str("https://127.0.0.1:7650"),
            i2pcontrol_password: String::from_str("itoopie"),
            metrics_listen_addr: String::from_str("0.0.0.0:9600"),
            max_scrape_timeout_seconds: 120,
            i2pcontrol_tls_insecure: false,
        }
    }
}

impl Cli {
    /// The timeout cap in milliseconds, saturating at the largest
    /// representable value.
    pub fn max_scrape_timeout_ms(&self) -> (r: u64)
        ensures
            r == if self.max_scrape_timeout_seconds * 1000 <= u64::MAX {
                (self.max_scrape_timeout_seconds * 1000) as u64
            } else {
                u64::MAX
            },
    {
        if self.max_scrape_timeout_seconds <= u64::MAX / 1000 {
            self.max_scrape_timeout_seconds * 1000
        } else {
            u64::MAX
        }
    }
}

} // verus!

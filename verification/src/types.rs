//! The snapshot model: the structured result types of the two methods and
//! the field-by-field decoding and merge rules.
//!
//! Absence of a field means "not reported by this response", never zero.
//! Gauges that the remote reports as arbitrary JSON numbers are carried as
//! their decimal text: the library never interprets them, and the caller
//! turns them into machine numbers at the boundary.

use crate::json::obj_lookup;
use crate::json::JsonRep;
use crate::json::lemma_obj_lookup_has_key;
use crate::jsonio::json_as_str;
use crate::jsonio::json_get;
use crate::jsonio::json_is_null;
use crate::jsonio::json_is_object;
use crate::jsonio::json_number_text;
use crate::jsonio::value_rep;
use crate::numtext::all_digits;
use crate::numtext::digits_val;
use crate::numtext::parse_u64_digits;
use crate::numtext::parse_u8_digits;
use vstd::prelude::*;
use vstd::string::StrSliceExecFns;

verus! {

/// The result of the authentication method: the issued session token, where
/// the response carried one.
#[derive(Debug)]
pub struct AuthResult {
    pub token: Option<String>,
}

impl Default for AuthResult {
    /// An empty result: no token.
    fn default() -> (r: Self)
        ensures
            r.token is None,
    {
        AuthResult { token: None }
    }
}

/// One field of an object: its value, its absence, or a type mismatch that
/// fails the whole decode.
///
/// A missing member and an explicit `null` both mean absence. A string
/// field accepts only a JSON string.
pub open spec fn field_str(entries: Seq<(Seq<char>, JsonRep)>, key: Seq<char>) -> Result<
    Option<Seq<char>>,
    (),
> {
    match obj_lookup(entries, key) {
        None => Ok(None),
        Some(JsonRep::Null) => Ok(None),
        Some(JsonRep::Str(s)) => Ok(Some(s)),
        Some(_) => Err(()),
    }
}

/// A gauge field: any JSON number, carried as its decimal text.
pub open spec fn field_num_text(entries: Seq<(Seq<char>, JsonRep)>, key: Seq<char>) -> Result<
    Option<Seq<char>>,
    (),
> {
    match obj_lookup(entries, key) {
        None => Ok(None),
        Some(JsonRep::Null) => Ok(None),
        Some(JsonRep::Num(t)) => Ok(Some(t)),
        Some(_) => Err(()),
    }
}

/// A counter field: a JSON number that is an unsigned integer in `u64`
/// range — a signed, fractional or oversized number is a mismatch.
pub open spec fn field_u64_num(entries: Seq<(Seq<char>, JsonRep)>, key: Seq<char>) -> Result<
    Option<u64>,
    (),
> {
    match obj_lookup(entries, key) {
        None => Ok(None),
        Some(JsonRep::Null) => Ok(None),
        Some(JsonRep::Num(t)) => if t.len() >= 1 && all_digits(t) && digits_val(t) <= u64::MAX {
            Ok(Some(digits_val(t) as u64))
        } else {
            Err(())
        },
        Some(_) => Err(()),
    }
}

/// A small code field: as `field_u64_num`, bounded to `u8`.
pub open spec fn field_u8_num(entries: Seq<(Seq<char>, JsonRep)>, key: Seq<char>) -> Result<
    Option<u8>,
    (),
> {
    match obj_lookup(entries, key) {
        None => Ok(None),
        Some(JsonRep::Null) => Ok(None),
        Some(JsonRep::Num(t)) => if t.len() >= 1 && all_digits(t) && digits_val(t) <= u8::MAX {
            Ok(Some(digits_val(t) as u8))
        } else {
            Err(())
        },
        Some(_) => Err(()),
    }
}

/// The value of a number-or-string member text under the unsigned decimal
/// grammar: a run of digits, optionally led by `+` where the member was a
/// string.
pub open spec fn stringy_u64_of(t: Seq<char>, from_string: bool) -> Option<int> {
    if t.len() >= 1 && all_digits(t) {
        Some(digits_val(t))
    } else if from_string && t.len() >= 2 && t[0] == '+' && all_digits(t.skip(1)) {
        Some(digits_val(t.skip(1)))
    } else {
        None
    }
}

/// A number-or-string member text only ever denotes a nonnegative value.
pub proof fn lemma_stringy_u64_nonneg(t: Seq<char>, from_string: bool)
    ensures
        stringy_u64_of(t, from_string) matches Some(n) ==> n >= 0,
{
    if t.len() >= 1 && all_digits(t) {
        crate::numtext::lemma_digits_val_nonneg(t);
    } else if from_string && t.len() >= 2 && t[0] == '+' && all_digits(t.skip(1)) {
        crate::numtext::lemma_digits_val_nonneg(t.skip(1));
    }
}

/// A field the remote may report either as a JSON number or as a string
/// holding a number, decoded to `u64`; an empty string means absence.
pub open spec fn field_u64_stringy(entries: Seq<(Seq<char>, JsonRep)>, key: Seq<char>) -> Result<
    Option<u64>,
    (),
> {
    match obj_lookup(entries, key) {
        None => Ok(None),
        Some(JsonRep::Null) => Ok(None),
        Some(JsonRep::Num(t)) => match stringy_u64_of(t, false) {
            Some(n) => if n <= u64::MAX {
                Ok(Some(n as u64))
            } else {
                Err(())
            },
            None => Err(()),
        },
        Some(JsonRep::Str(t)) => if t.len() == 0 {
            Ok(None)
        } else {
            match stringy_u64_of(t, true) {
                Some(n) => if n <= u64::MAX {
                    Ok(Some(n as u64))
                } else {
                    Err(())
                },
                None => Err(()),
            }
        },
        Some(_) => Err(()),
    }
}

/// As `field_u64_stringy`, bounded to `u8`.
pub open spec fn field_u8_stringy(entries: Seq<(Seq<char>, JsonRep)>, key: Seq<char>) -> Result<
    Option<u8>,
    (),
> {
    match obj_lookup(entries, key) {
        None => Ok(None),
        Some(JsonRep::Null) => Ok(None),
        Some(JsonRep::Num(t)) => match stringy_u64_of(t, false) {
            Some(n) => if n <= u8::MAX {
                Ok(Some(n as u8))
            } else {
                Err(())
            },
            None => Err(()),
        },
        Some(JsonRep::Str(t)) => if t.len() == 0 {
            Ok(None)
        } else {
            match stringy_u64_of(t, true) {
                Some(n) => if n <= u8::MAX {
                    Ok(Some(n as u8))
                } else {
                    Err(())
                },
                None => Err(()),
            }
        },
        Some(_) => Err(()),
    }
}

/// Replaces `dst` by `src` exactly where `src` is present.
fn overwrite_if_present<T>(dst: &mut Option<T>, src: Option<T>)
    ensures
        *final(dst) == if src is Some {
            src
        } else {
            *old(dst)
        },
{
    if let Some(v) = src {
        *dst = Some(v);
    }
}

/// The structured result of the status-fetch method: a flat record of
/// independently optional fields.
#[derive(Debug)]
pub struct RouterInfoResult {
    pub router_status: Option<u8>,
    pub router_version: Option<String>,
    pub router_uptime: Option<u64>,
    pub bw_inbound_1s: Option<String>,
    pub bw_inbound_15s: Option<String>,
    pub bw_outbound_1s: Option<String>,
    pub bw_outbound_15s: Option<String>,
    pub bw_transit_15s: Option<String>,
    pub net_status: Option<u8>,
    pub net_status_v6: Option<u8>,
    pub net_error: Option<u8>,
    pub net_error_v6: Option<u8>,
    pub net_testing: Option<u8>,
    pub net_testing_v6: Option<u8>,
    pub tunnels_participating: Option<u64>,
    pub tunnels_inbound: Option<u64>,
    pub tunnels_outbound: Option<u64>,
    pub tunnels_successrate: Option<String>,
    pub tunnels_total_successrate: Option<String>,
    pub tunnels_queue: Option<u64>,
    pub tunnels_tbmqueue: Option<u64>,
    pub netdb_activepeers: Option<u64>,
    pub netdb_knownpeers: Option<u64>,
    pub netdb_floodfills: Option<u64>,
    pub netdb_leasesets: Option<u64>,
    pub net_total_received_bytes: Option<String>,
    pub net_total_sent_bytes: Option<String>,
    pub net_transit_sent_bytes: Option<String>,
}

/// Ghost mirror of a snapshot, with every text as a character sequence.
pub struct RouterInfoRep {
    pub router_status: Option<u8>,
    pub router_version: Option<Seq<char>>,
    pub router_uptime: Option<u64>,
    pub bw_inbound_1s: Option<Seq<char>>,
    pub bw_inbound_15s: Option<Seq<char>>,
    pub bw_outbound_1s: Option<Seq<char>>,
    pub bw_outbound_15s: Option<Seq<char>>,
    pub bw_transit_15s: Option<Seq<char>>,
    pub net_status: Option<u8>,
    pub net_status_v6: Option<u8>,
    pub net_error: Option<u8>,
    pub net_error_v6: Option<u8>,
    pub net_testing: Option<u8>,
    pub net_testing_v6: Option<u8>,
    pub tunnels_participating: Option<u64>,
    pub tunnels_inbound: Option<u64>,
    pub tunnels_outbound: Option<u64>,
    pub tunnels_successrate: Option<Seq<char>>,
    pub tunnels_total_successrate: Option<Seq<char>>,
    pub tunnels_queue: Option<u64>,
    pub tunnels_tbmqueue: Option<u64>,
    pub netdb_activepeers: Option<u64>,
    pub netdb_knownpeers: Option<u64>,
    pub netdb_floodfills: Option<u64>,
    pub netdb_leasesets: Option<u64>,
    pub net_total_received_bytes: Option<Seq<char>>,
    pub net_total_sent_bytes: Option<Seq<char>>,
    pub net_transit_sent_bytes: Option<Seq<char>>,
}

impl View for RouterInfoResult {
    type V = RouterInfoRep;

    open spec fn view(&self) -> RouterInfoRep {
        RouterInfoRep {
            router_status: self.router_status,
            router_version: self.router_version.deep_view(),
            router_uptime: self.router_uptime,
            bw_inbound_1s: self.bw_inbound_1s.deep_view(),
            bw_inbound_15s: self.bw_inbound_15s.deep_view(),
            bw_outbound_1s: self.bw_outbound_1s.deep_view(),
            bw_outbound_15s: self.bw_outbound_15s.deep_view(),
            bw_transit_15s: self.bw_transit_15s.deep_view(),
            net_status: self.net_status,
            net_status_v6: self.net_status_v6,
            net_error: self.net_error,
            net_error_v6: self.net_error_v6,
            net_testing: self.net_testing,
            net_testing_v6: self.net_testing_v6,
            tunnels_participating: self.tunnels_participating,
            tunnels_inbound: self.tunnels_inbound,
            tunnels_outbound: self.tunnels_outbound,
            tunnels_successrate: self.tunnels_successrate.deep_view(),
            tunnels_total_successrate: self.tunnels_total_successrate.deep_view(),
            tunnels_queue: self.tunnels_queue,
            tunnels_tbmqueue: self.tunnels_tbmqueue,
            netdb_activepeers: self.netdb_activepeers,
            netdb_knownpeers: self.netdb_knownpeers,
            netdb_floodfills: self.netdb_floodfills,
            netdb_leasesets: self.netdb_leasesets,
            net_total_received_bytes: self.net_total_received_bytes.deep_view(),
            net_total_sent_bytes: self.net_total_sent_bytes.deep_view(),
            net_transit_sent_bytes: self.net_transit_sent_bytes.deep_view(),
        }
    }
}

impl Default for RouterInfoResult {
    /// An empty snapshot: no field reported.
    fn default() -> (r: Self)
        ensures
            r.router_status is None,
            r.router_version is None,
            r.router_uptime is None,
            r.bw_inbound_1s is None,
            r.bw_inbound_15s is None,
            r.bw_outbound_1s is None,
            r.bw_outbound_15s is None,
            r.bw_transit_15s is None,
            r.net_status is None,
            r.net_status_v6 is None,
            r.net_error is None,
            r.net_error_v6 is None,
            r.net_testing is None,
            r.net_testing_v6 is None,
            r.tunnels_participating is None,
            r.tunnels_inbound is None,
            r.tunnels_outbound is None,
            r.tunnels_successrate is None,
            r.tunnels_total_successrate is None,
            r.tunnels_queue is None,
            r.tunnels_tbmqueue is None,
            r.netdb_activepeers is None,
            r.netdb_knownpeers is None,
            r.netdb_floodfills is None,
            r.netdb_leasesets is None,
            r.net_total_received_bytes is None,
            r.net_total_sent_bytes is None,
            r.net_transit_sent_bytes is None,
    {
        RouterInfoResult {
            router_status: None,
            router_version: None,
            router_uptime: None,
            bw_inbound_1s: None,
            bw_inbound_15s: None,
            bw_outbound_1s: None,
            bw_outbound_15s: None,
            bw_transit_15s: None,
            net_status: None,
            net_status_v6: None,
            net_error: None,
            net_error_v6: None,
            net_testing: None,
            net_testing_v6: None,
            tunnels_participating: None,
            tunnels_inbound: None,
            tunnels_outbound: None,
            tunnels_successrate: None,
            tunnels_total_successrate: None,
            tunnels_queue: None,
            tunnels_tbmqueue: None,
            netdb_activepeers: None,
            netdb_knownpeers: None,
            netdb_floodfills: None,
            netdb_leasesets: None,
            net_total_received_bytes: None,
            net_total_sent_bytes: None,
            net_transit_sent_bytes: None,
        }
    }
}

impl RouterInfoResult {
    /// Merges `other` into `self` field by field, preferring `other`'s
    /// value wherever it is present: later values win only where present.
    pub fn merge_from(&mut self, other: RouterInfoResult)
        ensures
            final(self).router_status == if other.router_status is Some { other.router_status } else { old(self).router_status },
            final(self).router_version == if other.router_version is Some { other.router_version } else { old(self).router_version },
            final(self).router_uptime == if other.router_uptime is Some { other.router_uptime } else { old(self).router_uptime },
            final(self).bw_inbound_1s == if other.bw_inbound_1s is Some { other.bw_inbound_1s } else { old(self).bw_inbound_1s },
            final(self).bw_inbound_15s == if other.bw_inbound_15s is Some { other.bw_inbound_15s } else { old(self).bw_inbound_15s },
            final(self).bw_outbound_1s == if other.bw_outbound_1s is Some { other.bw_outbound_1s } else { old(self).bw_outbound_1s },
            final(self).bw_outbound_15s == if other.bw_outbound_15s is Some { other.bw_outbound_15s } else { old(self).bw_outbound_15s },
            final(self).bw_transit_15s == if other.bw_transit_15s is Some { other.bw_transit_15s } else { old(self).bw_transit_15s },
            final(self).net_status == if other.net_status is Some { other.net_status } else { old(self).net_status },
            final(self).net_status_v6 == if other.net_status_v6 is Some { other.net_status_v6 } else { old(self).net_status_v6 },
            final(self).net_error == if other.net_error is Some { other.net_error } else { old(self).net_error },
            final(self).net_error_v6 == if other.net_error_v6 is Some { other.net_error_v6 } else { old(self).net_error_v6 },
            final(self).net_testing == if other.net_testing is Some { other.net_testing } else { old(self).net_testing },
            final(self).net_testing_v6 == if other.net_testing_v6 is Some { other.net_testing_v6 } else { old(self).net_testing_v6 },
            final(self).tunnels_participating == if other.tunnels_participating is Some { other.tunnels_participating } else { old(self).tunnels_participating },
            final(self).tunnels_inbound == if other.tunnels_inbound is Some { other.tunnels_inbound } else { old(self).tunnels_inbound },
            final(self).tunnels_outbound == if other.tunnels_outbound is Some { other.tunnels_outbound } else { old(self).tunnels_outbound },
            final(self).tunnels_successrate == if other.tunnels_successrate is Some { other.tunnels_successrate } else { old(self).tunnels_successrate },
            final(self).tunnels_total_successrate == if other.tunnels_total_successrate is Some { other.tunnels_total_successrate } else { old(self).tunnels_total_successrate },
            final(self).tunnels_queue == if other.tunnels_queue is Some { other.tunnels_queue } else { old(self).tunnels_queue },
            final(self).tunnels_tbmqueue == if other.tunnels_tbmqueue is Some { other.tunnels_tbmqueue } else { old(self).tunnels_tbmqueue },
            final(self).netdb_activepeers == if other.netdb_activepeers is Some { other.netdb_activepeers } else { old(self).netdb_activepeers },
            final(self).netdb_knownpeers == if other.netdb_knownpeers is Some { other.netdb_knownpeers } else { old(self).netdb_knownpeers },
            final(self).netdb_floodfills == if other.netdb_floodfills is Some { other.netdb_floodfills } else { old(self).netdb_floodfills },
            final(self).netdb_leasesets == if other.netdb_leasesets is Some { other.netdb_leasesets } else { old(self).netdb_leasesets },
            final(self).net_total_received_bytes == if other.net_total_received_bytes is Some { other.net_total_received_bytes } else { old(self).net_total_received_bytes },
            final(self).net_total_sent_bytes == if other.net_total_sent_bytes is Some { other.net_total_sent_bytes } else { old(self).net_total_sent_bytes },
            final(self).net_transit_sent_bytes == if other.net_transit_sent_bytes is Some { other.net_transit_sent_bytes } else { old(self).net_transit_sent_bytes },
    {
        overwrite_if_present(&mut self.router_status, other.router_status);
        overwrite_if_present(&mut self.router_version, other.router_version);
        overwrite_if_present(&mut self.router_uptime, other.router_uptime);
        overwrite_if_present(&mut self.bw_inbound_1s, other.bw_inbound_1s);
        overwrite_if_present(&mut self.bw_inbound_15s, other.bw_inbound_15s);
        overwrite_if_present(&mut self.bw_outbound_1s, other.bw_outbound_1s);
        overwrite_if_present(&mut self.bw_outbound_15s, other.bw_outbound_15s);
        overwrite_if_present(&mut self.bw_transit_15s, other.bw_transit_15s);
        overwrite_if_present(&mut self.net_status, other.net_status);
        overwrite_if_present(&mut self.net_status_v6, other.net_status_v6);
        overwrite_if_present(&mut self.net_error, other.net_error);
        overwrite_if_present(&mut self.net_error_v6, other.net_error_v6);
        overwrite_if_present(&mut self.net_testing, other.net_testing);
        overwrite_if_present(&mut self.net_testing_v6, other.net_testing_v6);
        overwrite_if_present(&mut self.tunnels_participating, other.tunnels_participating);
        overwrite_if_present(&mut self.tunnels_inbound, other.tunnels_inbound);
        overwrite_if_present(&mut self.tunnels_outbound, other.tunnels_outbound);
        overwrite_if_present(&mut self.tunnels_successrate, other.tunnels_successrate);
        overwrite_if_present(&mut self.tunnels_total_successrate, other.tunnels_total_successrate);
        overwrite_if_present(&mut self.tunnels_queue, other.tunnels_queue);
        overwrite_if_present(&mut self.tunnels_tbmqueue, other.tunnels_tbmqueue);
        overwrite_if_present(&mut self.netdb_activepeers, other.netdb_activepeers);
        overwrite_if_present(&mut self.netdb_knownpeers, other.netdb_knownpeers);
        overwrite_if_present(&mut self.netdb_floodfills, other.netdb_floodfills);
        overwrite_if_present(&mut self.netdb_leasesets, other.netdb_leasesets);
        overwrite_if_present(&mut self.net_total_received_bytes, other.net_total_received_bytes);
        overwrite_if_present(&mut self.net_total_sent_bytes, other.net_total_sent_bytes);
        overwrite_if_present(&mut self.net_transit_sent_bytes, other.net_transit_sent_bytes);
    }
}

/// The decoded snapshot a response document holds, or a decode failure
/// where the document is not an object or any present field mismatches
/// its type.
pub open spec fn router_info_rep_of(rep: JsonRep) -> Result<RouterInfoRep, ()> {
    match rep {
        JsonRep::Obj(entries) => {
            if field_u8_stringy(entries, "i2p.router.status"@) is Err || field_str(entries, "i2p.router.version"@) is Err || field_u64_stringy(entries, "i2p.router.uptime"@) is Err || field_num_text(entries, "i2p.router.net.bw.inbound.1s"@) is Err || field_num_text(entries, "i2p.router.net.bw.inbound.15s"@) is Err || field_num_text(entries, "i2p.router.net.bw.outbound.1s"@) is Err || field_num_text(entries, "i2p.router.net.bw.outbound.15s"@) is Err || field_num_text(entries, "i2p.router.net.bw.transit.15s"@) is Err || field_u8_num(entries, "i2p.router.net.status"@) is Err || field_u8_num(entries, "i2p.router.net.status.v6"@) is Err || field_u8_num(entries, "i2p.router.net.error"@) is Err || field_u8_num(entries, "i2p.router.net.error.v6"@) is Err || field_u8_stringy(entries, "i2p.router.net.testing"@) is Err || field_u8_stringy(entries, "i2p.router.net.testing.v6"@) is Err || field_u64_num(entries, "i2p.router.net.tunnels.participating"@) is Err || field_u64_num(entries, "i2p.router.net.tunnels.inbound"@) is Err || field_u64_num(entries, "i2p.router.net.tunnels.outbound"@) is Err || field_num_text(entries, "i2p.router.net.tunnels.successrate"@) is Err || field_num_text(entries, "i2p.router.net.tunnels.totalsuccessrate"@) is Err || field_u64_num(entries, "i2p.router.net.tunnels.queue"@) is Err || field_u64_num(entries, "i2p.router.net.tunnels.tbmqueue"@) is Err || field_u64_num(entries, "i2p.router.netdb.activepeers"@) is Err || field_u64_num(entries, "i2p.router.netdb.knownpeers"@) is Err || field_u64_num(entries, "i2p.router.netdb.floodfills"@) is Err || field_u64_num(entries, "i2p.router.netdb.leasesets"@) is Err || field_num_text(entries, "i2p.router.net.total.received.bytes"@) is Err || field_num_text(entries, "i2p.router.net.total.sent.bytes"@) is Err || field_num_text(entries, "i2p.router.net.transit.sent.bytes"@) is Err {
                Err(())
            } else {
                Ok(
                    RouterInfoRep {
                        router_status: field_u8_stringy(entries, "i2p.router.status"@)->Ok_0,
                        router_version: field_str(entries, "i2p.router.version"@)->Ok_0,
                        router_uptime: field_u64_stringy(entries, "i2p.router.uptime"@)->Ok_0,
                        bw_inbound_1s: field_num_text(entries, "i2p.router.net.bw.inbound.1s"@)->Ok_0,
                        bw_inbound_15s: field_num_text(entries, "i2p.router.net.bw.inbound.15s"@)->Ok_0,
                        bw_outbound_1s: field_num_text(entries, "i2p.router.net.bw.outbound.1s"@)->Ok_0,
                        bw_outbound_15s: field_num_text(entries, "i2p.router.net.bw.outbound.15s"@)->Ok_0,
                        bw_transit_15s: field_num_text(entries, "i2p.router.net.bw.transit.15s"@)->Ok_0,
                        net_status: field_u8_num(entries, "i2p.router.net.status"@)->Ok_0,
                        net_status_v6: field_u8_num(entries, "i2p.router.net.status.v6"@)->Ok_0,
                        net_error: field_u8_num(entries, "i2p.router.net.error"@)->Ok_0,
                        net_error_v6: field_u8_num(entries, "i2p.router.net.error.v6"@)->Ok_0,
                        net_testing: field_u8_stringy(entries, "i2p.router.net.testing"@)->Ok_0,
                        net_testing_v6: field_u8_stringy(entries, "i2p.router.net.testing.v6"@)->Ok_0,
                        tunnels_participating: field_u64_num(entries, "i2p.router.net.tunnels.participating"@)->Ok_0,
                        tunnels_inbound: field_u64_num(entries, "i2p.router.net.tunnels.inbound"@)->Ok_0,
                        tunnels_outbound: field_u64_num(entries, "i2p.router.net.tunnels.outbound"@)->Ok_0,
                        tunnels_successrate: field_num_text(entries, "i2p.router.net.tunnels.successrate"@)->Ok_0,
                        tunnels_total_successrate: field_num_text(entries, "i2p.router.net.tunnels.totalsuccessrate"@)->Ok_0,
                        tunnels_queue: field_u64_num(entries, "i2p.router.net.tunnels.queue"@)->Ok_0,
                        tunnels_tbmqueue: field_u64_num(entries, "i2p.router.net.tunnels.tbmqueue"@)->Ok_0,
                        netdb_activepeers: field_u64_num(entries, "i2p.router.netdb.activepeers"@)->Ok_0,
                        netdb_knownpeers: field_u64_num(entries, "i2p.router.netdb.knownpeers"@)->Ok_0,
                        netdb_floodfills: field_u64_num(entries, "i2p.router.netdb.floodfills"@)->Ok_0,
                        netdb_leasesets: field_u64_num(entries, "i2p.router.netdb.leasesets"@)->Ok_0,
                        net_total_received_bytes: field_num_text(entries, "i2p.router.net.total.received.bytes"@)->Ok_0,
                        net_total_sent_bytes: field_num_text(entries, "i2p.router.net.total.sent.bytes"@)->Ok_0,
                        net_transit_sent_bytes: field_num_text(entries, "i2p.router.net.transit.sent.bytes"@)->Ok_0,
                    },
                )
            }
        },
        _ => Err(()),
    }
}


/// Reads one optional string field of the object `v` holds.
fn get_field_str(v: &serde_json::Value, key: &str) -> (r: Result<Option<String>, ()>)
    requires
        value_rep(*v) is Obj,
    ensures
        match field_str(value_rep(*v)->Obj_0, key@) {
            Ok(opt) => r matches Ok(o) && o.deep_view() == opt,
            Err(e) => r is Err,
        },
{
    proof {
        lemma_obj_lookup_has_key(value_rep(*v)->Obj_0, key@);
    }
    match json_get(v, key) {
        None => Ok(None),
        Some(x) => {
            if json_is_null(x) {
                Ok(None)
            } else {
                match json_as_str(x) {
                    Some(s) => Ok(Some(s)),
                    None => Err(()),
                }
            }
        },
    }
}

/// Reads one optional gauge field, as the number's decimal text.
fn get_field_num_text(v: &serde_json::Value, key: &str) -> (r: Result<Option<String>, ()>)
    requires
        value_rep(*v) is Obj,
    ensures
        match field_num_text(value_rep(*v)->Obj_0, key@) {
            Ok(opt) => r matches Ok(o) && o.deep_view() == opt,
            Err(e) => r is Err,
        },
{
    proof {
        lemma_obj_lookup_has_key(value_rep(*v)->Obj_0, key@);
    }
    match json_get(v, key) {
        None => Ok(None),
        Some(x) => {
            if json_is_null(x) {
                Ok(None)
            } else {
                match json_number_text(x) {
                    Some(t) => Ok(Some(t)),
                    None => Err(()),
                }
            }
        },
    }
}

/// Reads one optional unsigned counter field.
fn get_field_u64_num(v: &serde_json::Value, key: &str) -> (r: Result<Option<u64>, ()>)
    requires
        value_rep(*v) is Obj,
    ensures
        r == field_u64_num(value_rep(*v)->Obj_0, key@),
{
    proof {
        lemma_obj_lookup_has_key(value_rep(*v)->Obj_0, key@);
    }
    match json_get(v, key) {
        None => Ok(None),
        Some(x) => {
            if json_is_null(x) {
                Ok(None)
            } else {
                match json_number_text(x) {
                    Some(t) => match parse_u64_digits(t.as_str()) {
                        Some(n) => Ok(Some(n)),
                        None => Err(()),
                    },
                    None => Err(()),
                }
            }
        },
    }
}

/// Reads one optional small code field.
fn get_field_u8_num(v: &serde_json::Value, key: &str) -> (r: Result<Option<u8>, ()>)
    requires
        value_rep(*v) is Obj,
    ensures
        r == field_u8_num(value_rep(*v)->Obj_0, key@),
{
    proof {
        lemma_obj_lookup_has_key(value_rep(*v)->Obj_0, key@);
    }
    match json_get(v, key) {
        None => Ok(None),
        Some(x) => {
            if json_is_null(x) {
                Ok(None)
            } else {
                match json_number_text(x) {
                    Some(t) => match parse_u8_digits(t.as_str()) {
                        Some(n) => Ok(Some(n)),
                        None => Err(()),
                    },
                    None => Err(()),
                }
            }
        },
    }
}

/// Parses a number-or-string member text as `u64`, allowing a leading `+`
/// only where the member was a string.
fn parse_stringy_u64(t: &str, from_string: bool) -> (r: Option<u64>)
    ensures
        match stringy_u64_of(t@, from_string) {
            Some(n) => if n <= u64::MAX {
                r == Some::<u64>(n as u64)
            } else {
                r is None
            },
            None => r is None,
        },
{
    match parse_u64_digits(t) {
        Some(n) => Some(n),
        None => {
            if from_string {
                let len = t.unicode_len();
                if len >= 2 && t.get_char(0) == '+' {
                    let rest = t.substring_char(1, len);
                    assert(rest@ =~= t@.skip(1));
                    let d = parse_u64_digits(rest);
                    proof {
                        if all_digits(t@) {
                            assert(crate::numtext::is_digit_char(t@[0]));
                        }
                    }
                    d
                } else {
                    None
                }
            } else {
                None
            }
        },
    }
}

/// Reads one optional number-or-string field, decoded to `u64`.
fn get_field_u64_stringy(v: &serde_json::Value, key: &str) -> (r: Result<Option<u64>, ()>)
    requires
        value_rep(*v) is Obj,
    ensures
        r == field_u64_stringy(value_rep(*v)->Obj_0, key@),
{
    proof {
        lemma_obj_lookup_has_key(value_rep(*v)->Obj_0, key@);
    }
    match json_get(v, key) {
        None => Ok(None),
        Some(x) => {
            if json_is_null(x) {
                Ok(None)
            } else {
                match json_number_text(x) {
                    Some(t) => match parse_stringy_u64(t.as_str(), false) {
                        Some(n) => Ok(Some(n)),
                        None => Err(()),
                    },
                    None => {
                        match json_as_str(x) {
                            Some(t) => {
                                if t.as_str().unicode_len() == 0 {
                                    Ok(None)
                                } else {
                                    match parse_stringy_u64(t.as_str(), true) {
                                        Some(n) => Ok(Some(n)),
                                        None => Err(()),
                                    }
                                }
                            },
                            None => Err(()),
                        }
                    },
                }
            }
        },
    }
}

/// Reads one optional number-or-string field, decoded to `u8`.
fn get_field_u8_stringy(v: &serde_json::Value, key: &str) -> (r: Result<Option<u8>, ()>)
    requires
        value_rep(*v) is Obj,
    ensures
        r == field_u8_stringy(value_rep(*v)->Obj_0, key@),
{
    proof {
        lemma_obj_lookup_has_key(value_rep(*v)->Obj_0, key@);
    }
    match json_get(v, key) {
        None => Ok(None),
        Some(x) => {
            if json_is_null(x) {
                Ok(None)
            } else {
                match json_number_text(x) {
                    Some(t) => {
                        proof {
                            lemma_stringy_u64_nonneg(t@, false);
                        }
                        match parse_stringy_u64(t.as_str(), false) {
                            Some(n) => if n <= u8::MAX as u64 {
                                Ok(Some(n as u8))
                            } else {
                                Err(())
                            },
                            None => Err(()),
                        }
                    },
                    None => {
                        match json_as_str(x) {
                            Some(t) => {
                                if t.as_str().unicode_len() == 0 {
                                    Ok(None)
                                } else {
                                    proof {
                                        lemma_stringy_u64_nonneg(t@, true);
                                    }
                                    match parse_stringy_u64(t.as_str(), true) {
                                        Some(n) => if n <= u8::MAX as u64 {
                                            Ok(Some(n as u8))
                                        } else {
                                            Err(())
                                        },
                                        None => Err(()),
                                    }
                                }
                            },
                            None => Err(()),
                        }
                    },
                }
            }
        },
    }
}

/// Decodes the snapshot from a response document, failing exactly where
/// the document is not an object or a present field mismatches its type.
#[verifier::rlimit(100)]
pub fn extract_router_info(v: &serde_json::Value) -> (r: Result<RouterInfoResult, ()>)
    ensures
        match router_info_rep_of(value_rep(*v)) {
            Ok(rep) => r matches Ok(ri) && ri@ == rep,
            Err(e) => r is Err,
        },
{
    if !json_is_object(v) {
        return Err(());
    }
    let router_status = match get_field_u8_stringy(v, "i2p.router.status") {
        Ok(x) => x,
        Err(e) => {
            return Err(e);
        },
    };
    let router_version = match get_field_str(v, "i2p.router.version") {
        Ok(x) => x,
        Err(e) => {
            return Err(e);
        },
    };
    let router_uptime = match get_field_u64_stringy(v, "i2p.router.uptime") {
        Ok(x) => x,
        Err(e) => {
            return Err(e);
        },
    };
    let bw_inbound_1s = match get_field_num_text(v, "i2p.router.net.bw.inbound.1s") {
        Ok(x) => x,
        Err(e) => {
            return Err(e);
        },
    };
    let bw_inbound_15s = match get_field_num_text(v, "i2p.router.net.bw.inbound.15s") {
        Ok(x) => x,
        Err(e) => {
            return Err(e);
        },
    };
    let bw_outbound_1s = match get_field_num_text(v, "i2p.router.net.bw.outbound.1s") {
        Ok(x) => x,
        Err(e) => {
            return Err(e);
        },
    };
    let bw_outbound_15s = match get_field_num_text(v, "i2p.router.net.bw.outbound.15s") {
        Ok(x) => x,
        Err(e) => {
            return Err(e);
        },
    };
    let bw_transit_15s = match get_field_num_text(v, "i2p.router.net.bw.transit.15s") {
        Ok(x) => x,
        Err(e) => {
            return Err(e);
        },
    };
    let net_status = match get_field_u8_num(v, "i2p.router.net.status") {
        Ok(x) => x,
        Err(e) => {
            return Err(e);
        },
    };
    let net_status_v6 = match get_field_u8_num(v, "i2p.router.net.status.v6") {
        Ok(x) => x,
        Err(e) => {
            return Err(e);
        },
    };
    let net_error = match get_field_u8_num(v, "i2p.router.net.error") {
        Ok(x) => x,
        Err(e) => {
            return Err(e);
        },
    };
    let net_error_v6 = match get_field_u8_num(v, "i2p.router.net.error.v6") {
        Ok(x) => x,
        Err(e) => {
            return Err(e);
        },
    };
    let net_testing = match get_field_u8_stringy(v, "i2p.router.net.testing") {
        Ok(x) => x,
        Err(e) => {
            return Err(e);
        },
    };
    let net_testing_v6 = match get_field_u8_stringy(v, "i2p.router.net.testing.v6") {
        Ok(x) => x,
        Err(e) => {
            return Err(e);
        },
    };
    let tunnels_participating = match get_field_u64_num(v, "i2p.router.net.tunnels.participating") {
        Ok(x) => x,
        Err(e) => {
            return Err(e);
        },
    };
    let tunnels_inbound = match get_field_u64_num(v, "i2p.router.net.tunnels.inbound") {
        Ok(x) => x,
        Err(e) => {
            return Err(e);
        },
    };
    let tunnels_outbound = match get_field_u64_num(v, "i2p.router.net.tunnels.outbound") {
        Ok(x) => x,
        Err(e) => {
            return Err(e);
        },
    };
    let tunnels_successrate = match get_field_num_text(v, "i2p.router.net.tunnels.successrate") {
        Ok(x) => x,
        Err(e) => {
            return Err(e);
        },
    };
    let tunnels_total_successrate = match get_field_num_text(v, "i2p.router.net.tunnels.totalsuccessrate") {
        Ok(x) => x,
        Err(e) => {
            return Err(e);
        },
    };
    let tunnels_queue = match get_field_u64_num(v, "i2p.router.net.tunnels.queue") {
        Ok(x) => x,
        Err(e) => {
            return Err(e);
        },
    };
    let tunnels_tbmqueue = match get_field_u64_num(v, "i2p.router.net.tunnels.tbmqueue") {
        Ok(x) => x,
        Err(e) => {
            return Err(e);
        },
    };
    let netdb_activepeers = match get_field_u64_num(v, "i2p.router.netdb.activepeers") {
        Ok(x) => x,
        Err(e) => {
            return Err(e);
        },
    };
    let netdb_knownpeers = match get_field_u64_num(v, "i2p.router.netdb.knownpeers") {
        Ok(x) => x,
        Err(e) => {
            return Err(e);
        },
    };
    let netdb_floodfills = match get_field_u64_num(v, "i2p.router.netdb.floodfills") {
        Ok(x) => x,
        Err(e) => {
            return Err(e);
        },
    };
    let netdb_leasesets = match get_field_u64_num(v, "i2p.router.netdb.leasesets") {
        Ok(x) => x,
        Err(e) => {
            return Err(e);
        },
    };
    let net_total_received_bytes = match get_field_num_text(v, "i2p.router.net.total.received.bytes") {
        Ok(x) => x,
        Err(e) => {
            return Err(e);
        },
    };
    let net_total_sent_bytes = match get_field_num_text(v, "i2p.router.net.total.sent.bytes") {
        Ok(x) => x,
        Err(e) => {
            return Err(e);
        },
    };
    let net_transit_sent_bytes = match get_field_num_text(v, "i2p.router.net.transit.sent.bytes") {
        Ok(x) => x,
        Err(e) => {
            return Err(e);
        },
    };
    Ok(
        RouterInfoResult {
            router_status,
            router_version,
            router_uptime,
            bw_inbound_1s,
            bw_inbound_15s,
            bw_outbound_1s,
            bw_outbound_15s,
            bw_transit_15s,
            net_status,
            net_status_v6,
            net_error,
            net_error_v6,
            net_testing,
            net_testing_v6,
            tunnels_participating,
            tunnels_inbound,
            tunnels_outbound,
            tunnels_successrate,
            tunnels_total_successrate,
            tunnels_queue,
            tunnels_tbmqueue,
            netdb_activepeers,
            netdb_knownpeers,
            netdb_floodfills,
            netdb_leasesets,
            net_total_received_bytes,
            net_total_sent_bytes,
            net_transit_sent_bytes,
        },
    )
}

/// The token field of an authentication result document, or a decode
/// failure where the document is not an object or the field mismatches.
pub open spec fn auth_rep_of(rep: JsonRep) -> Result<Option<Seq<char>>, ()> {
    match rep {
        JsonRep::Obj(entries) => field_str(entries, "Token"@),
        _ => Err(()),
    }
}

/// Decodes the authentication result from a response document.
pub fn extract_auth_result(v: &serde_json::Value) -> (r: Result<AuthResult, ()>)
    ensures
        match auth_rep_of(value_rep(*v)) {
            Ok(t) => r matches Ok(a) && a.token.deep_view() == t,
            Err(e) => r is Err,
        },
{
    if !json_is_object(v) {
        return Err(());
    }
    match get_field_str(v, "Token") {
        Ok(token) => Ok(AuthResult { token }),
        Err(e) => Err(e),
    }
}

} // verus!

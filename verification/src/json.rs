//! The library's own JSON document model.
//!
//! Outbound request envelopes are built as [`JsonVal`] trees and serialized
//! by a verified printer whose output is defined, character by character, by
//! [`json_text`]. The same ghost representation, [`JsonRep`], also models
//! decoded response documents. Redaction of credential-bearing fields for
//! logging is verified against the same model.

use vstd::prelude::*;
use vstd::string::StrSliceExecFns;
use vstd::string::StringExecFns;

verus! {

broadcast use vstd::std_specs::vec::group_vec_axioms;

/// Ghost representation of a JSON document. A number is carried as its
/// decimal text; an object is a sequence of key/value members in their
/// textual order.
pub enum JsonRep {
    Null,
    Bool(bool),
    Num(Seq<char>),
    Str(Seq<char>),
    Arr(Seq<JsonRep>),
    Obj(Seq<(Seq<char>, JsonRep)>),
}

/// Whether an object holds a member under `key`.
pub open spec fn obj_has_key(entries: Seq<(Seq<char>, JsonRep)>, key: Seq<char>) -> bool {
    exists|i: int| 0 <= i < entries.len() && (#[trigger] entries[i]).0 == key
}

/// The value of the first member under `key`, if any.
pub open spec fn obj_lookup(entries: Seq<(Seq<char>, JsonRep)>, key: Seq<char>) -> Option<
    JsonRep,
>
    decreases entries.len(),
{
    if entries.len() == 0 {
        None
    } else if entries[0].0 == key {
        Some(entries[0].1)
    } else {
        obj_lookup(entries.drop_first(), key)
    }
}

/// A lookup succeeds exactly when the object holds the key.
pub proof fn lemma_obj_lookup_has_key(entries: Seq<(Seq<char>, JsonRep)>, key: Seq<char>)
    ensures
        obj_lookup(entries, key) is Some <==> obj_has_key(entries, key),
    decreases entries.len(),
{
    if entries.len() > 0 {
        if entries[0].0 == key {
        } else {
            lemma_obj_lookup_has_key(entries.drop_first(), key);
            assert(forall|i: int|
                0 < i < entries.len() ==> #[trigger] entries[i] == entries.drop_first()[i - 1]);
        }
    }
}

/// Executable JSON value, sufficient for the request envelopes this client
/// sends: it needs no floating-point or negative numbers.
pub enum JsonVal {
    Null,
    Bool(bool),
    UInt(u64),
    Str(String),
    Arr(Vec<JsonVal>),
    Obj(Vec<(String, JsonVal)>),
}

/// The digit character of `d`, for `0 <= d <= 9`.
pub open spec fn digit_char(d: int) -> char {
    ((48 + d) as u8) as char
}

/// The decimal text of `n`, without sign or leading zeros.
pub open spec fn dec_digits(n: nat) -> Seq<char>
    decreases n,
{
    if n < 10 {
        seq![digit_char(n as int)]
    } else {
        dec_digits(n / 10) + seq![digit_char((n % 10) as int)]
    }
}

/// The ghost representation of an executable value.
pub open spec fn rep_of(v: JsonVal) -> JsonRep
    decreases v,
    via rep_of_decreases
{
    match v {
        JsonVal::Null => JsonRep::Null,
        JsonVal::Bool(b) => JsonRep::Bool(b),
        JsonVal::UInt(n) => JsonRep::Num(dec_digits(n as nat)),
        JsonVal::Str(s) => JsonRep::Str(s@),
        JsonVal::Arr(items) => JsonRep::Arr(seq_reps(items@)),
        JsonVal::Obj(entries) => JsonRep::Obj(pair_reps(entries@)),
    }
}

#[via_fn]
proof fn rep_of_decreases(v: JsonVal) {
    match v {
        JsonVal::Arr(items) => {
            assert(decreases_to!(v => items));
            assert(decreases_to!(items => items@));
        },
        JsonVal::Obj(entries) => {
            assert(decreases_to!(v => entries));
            assert(decreases_to!(entries => entries@));
        },
        _ => {},
    }
}

/// The representations of a sequence of array elements.
pub open spec fn seq_reps(s: Seq<JsonVal>) -> Seq<JsonRep>
    decreases s,
{
    if s.len() == 0 {
        Seq::empty()
    } else {
        seq_reps(s.drop_last()).push(rep_of(s.last()))
    }
}

/// The representations of a sequence of object members.
pub open spec fn pair_reps(s: Seq<(String, JsonVal)>) -> Seq<(Seq<char>, JsonRep)>
    decreases s,
    via pair_reps_decreases
{
    if s.len() == 0 {
        Seq::empty()
    } else {
        pair_reps(s.drop_last()).push((s.last().0@, rep_of(s.last().1)))
    }
}

#[via_fn]
proof fn pair_reps_decreases(s: Seq<(String, JsonVal)>) {
    if s.len() > 0 {
        assert(decreases_to!(s => s.last()));
        assert(decreases_to!(s.last() => s.last().1));
    }
}

/// `seq_reps` maps element by element.
pub proof fn lemma_seq_reps_index(s: Seq<JsonVal>)
    ensures
        seq_reps(s).len() == s.len(),
        forall|i: int| 0 <= i < s.len() ==> seq_reps(s)[i] == rep_of(#[trigger] s[i]),
    decreases s.len(),
{
    if s.len() > 0 {
        lemma_seq_reps_index(s.drop_last());
        assert forall|i: int| 0 <= i < s.len() implies seq_reps(s)[i] == rep_of(#[trigger] s[i]) by {
            if i < s.len() - 1 {
                assert(seq_reps(s)[i] == seq_reps(s.drop_last())[i]);
                assert(s.drop_last()[i] == s[i]);
            } else {
                assert(seq_reps(s)[i] == rep_of(s.last()));
            }
        }
    }
}

/// `pair_reps` maps member by member, taking each key to its view.
pub proof fn lemma_pair_reps_index(s: Seq<(String, JsonVal)>)
    ensures
        pair_reps(s).len() == s.len(),
        forall|i: int|
            0 <= i < s.len() ==> pair_reps(s)[i] == ((#[trigger] s[i]).0@, rep_of(s[i].1)),
    decreases s.len(),
{
    if s.len() > 0 {
        lemma_pair_reps_index(s.drop_last());
        assert forall|i: int|
            0 <= i < s.len() implies pair_reps(s)[i] == ((#[trigger] s[i]).0@, rep_of(
            s[i].1,
        )) by {
            if i < s.len() - 1 {
                assert(pair_reps(s)[i] == pair_reps(s.drop_last())[i]);
                assert(s.drop_last()[i] == s[i]);
            } else {
                assert(pair_reps(s)[i] == (s.last().0@, rep_of(s.last().1)));
            }
        }
    }
}

impl View for JsonVal {
    type V = JsonRep;

    open spec fn view(&self) -> JsonRep {
        rep_of(*self)
    }
}

/// How one character appears inside a JSON string literal: quote and
/// backslash are escaped, control characters take their two-letter escape
/// or a `\u00XX` form, and every other character stands as itself.
pub open spec fn escape_char(c: char) -> Seq<char> {
    if c == '"' {
        seq!['\\', '"']
    } else if c == '\\' {
        seq!['\\', '\\']
    } else if c == '\n' {
        seq!['\\', 'n']
    } else if c == '\r' {
        seq!['\\', 'r']
    } else if c == '\t' {
        seq!['\\', 't']
    } else if (c as u32) < 32 {
        seq!['\\', 'u', '0', '0', hex_digit_char(c as u32 as int / 16), hex_digit_char(
            c as u32 as int % 16,
        )]
    } else {
        seq![c]
    }
}

/// The lower-case hexadecimal digit character of `d`, for `0 <= d <= 15`.
pub open spec fn hex_digit_char(d: int) -> char {
    if d < 10 {
        ((48 + d) as u8) as char
    } else {
        ((87 + d) as u8) as char
    }
}

/// The escaped body of a JSON string literal.
pub open spec fn escape_chars(s: Seq<char>) -> Seq<char>
    decreases s.len(),
{
    if s.len() == 0 {
        Seq::empty()
    } else {
        escape_chars(s.drop_last()) + escape_char(s.last())
    }
}

/// A JSON string literal: quoted, escaped text.
pub open spec fn string_text(s: Seq<char>) -> Seq<char> {
    seq!['"'] + escape_chars(s) + seq!['"']
}

/// The serialized text of a document: this function is the definition of
/// the wire format this client sends.
pub open spec fn json_text(r: JsonRep) -> Seq<char>
    decreases r,
{
    match r {
        JsonRep::Null => seq!['n', 'u', 'l', 'l'],
        JsonRep::Bool(b) => if b {
            seq!['t', 'r', 'u', 'e']
        } else {
            seq!['f', 'a', 'l', 's', 'e']
        },
        JsonRep::Num(t) => t,
        JsonRep::Str(s) => string_text(s),
        JsonRep::Arr(items) => seq!['['] + arr_text(items) + seq![']'],
        JsonRep::Obj(entries) => seq!['{'] + obj_text(entries) + seq!['}'],
    }
}

/// The comma-separated element list of an array.
pub open spec fn arr_text(items: Seq<JsonRep>) -> Seq<char>
    decreases items,
{
    if items.len() == 0 {
        Seq::empty()
    } else if items.len() == 1 {
        json_text(items[0])
    } else {
        arr_text(items.drop_last()) + seq![','] + json_text(items.last())
    }
}

/// One `"key":value` member of an object.
pub open spec fn member_text(e: (Seq<char>, JsonRep)) -> Seq<char>
    decreases e,
{
    string_text(e.0) + seq![':'] + json_text(e.1)
}

/// The comma-separated member list of an object.
pub open spec fn obj_text(entries: Seq<(Seq<char>, JsonRep)>) -> Seq<char>
    decreases entries,
{
    if entries.len() == 0 {
        Seq::empty()
    } else if entries.len() == 1 {
        member_text(entries[0])
    } else {
        obj_text(entries.drop_last()) + seq![','] + member_text(entries.last())
    }
}

/// Appends the decimal text of `n`.
fn push_dec_digits(n: u64, out: &mut Vec<char>)
    ensures
        final(out)@ == old(out)@ + dec_digits(n as nat),
    decreases n,
{
    if n < 10 {
        out.push((48 + n as u8) as char);
        assert(out@ =~= old(out)@ + dec_digits(n as nat));
    } else {
        push_dec_digits(n / 10, out);
        out.push((48 + (n % 10) as u8) as char);
        assert(out@ =~= old(out)@ + dec_digits(n as nat));
    }
}

/// Appends the escaped body of a string literal.
fn push_escaped(s: &str, out: &mut Vec<char>)
    ensures
        final(out)@ == old(out)@ + escape_chars(s@),
{
    let len = s.unicode_len();
    let mut i: usize = 0;
    while i < len
        invariant
            0 <= i <= len,
            len == s@.len(),
            out@ == old(out)@ + escape_chars(s@.take(i as int)),
        decreases len - i,
    {
        let c = s.get_char(i);
        let u = c as u32;
        if c == '"' {
            out.push('\\');
            out.push('"');
        } else if c == '\\' {
            out.push('\\');
            out.push('\\');
        } else if c == '\n' {
            out.push('\\');
            out.push('n');
        } else if c == '\r' {
            out.push('\\');
            out.push('r');
        } else if c == '\t' {
            out.push('\\');
            out.push('t');
        } else if u < 32 {
            out.push('\\');
            out.push('u');
            out.push('0');
            out.push('0');
            out.push(hex_digit(u / 16));
            out.push(hex_digit(u % 16));
        } else {
            out.push(c);
        }
        proof {
            assert(s@.take(i + 1).drop_last() =~= s@.take(i as int));
            assert(s@.take(i + 1).last() == s@[i as int]);
            assert(out@ =~= old(out)@ + escape_chars(s@.take(i + 1)));
        }
        i = i + 1;
    }
    proof {
        assert(s@.take(len as int) =~= s@);
    }
}

/// The lower-case hexadecimal digit of `d`, for `d <= 15`.
fn hex_digit(d: u32) -> (r: char)
    requires
        d <= 15,
    ensures
        r == hex_digit_char(d as int),
{
    if d < 10 {
        (48 + d as u8) as char
    } else {
        (87 + d as u8) as char
    }
}

/// Appends the serialized text of `v`.
#[verifier::loop_isolation(false)]
#[verifier::rlimit(60)]
pub fn write_json(v: &JsonVal, out: &mut Vec<char>)
    ensures
        final(out)@ == old(out)@ + json_text(v@),
    decreases v,
{
    match v {
        JsonVal::Null => {
            out.push('n');
            out.push('u');
            out.push('l');
            out.push('l');
            assert(out@ =~= old(out)@ + json_text(v@));
        },
        JsonVal::Bool(b) => {
            if *b {
                out.push('t');
                out.push('r');
                out.push('u');
                out.push('e');
            } else {
                out.push('f');
                out.push('a');
                out.push('l');
                out.push('s');
                out.push('e');
            }
            assert(out@ =~= old(out)@ + json_text(v@));
        },
        JsonVal::UInt(n) => {
            push_dec_digits(*n, out);
        },
        JsonVal::Str(s) => {
            out.push('"');
            push_escaped(s.as_str(), out);
            out.push('"');
            assert(out@ =~= old(out)@ + json_text(v@));
        },
        JsonVal::Arr(items) => {
            let ghost reps = seq_reps(items@);
            proof {
                lemma_seq_reps_index(items@);
            }
            out.push('[');
            let mut i: usize = 0;
            while i < items.len()
                invariant
                    0 <= i <= items.len(),
                    reps == seq_reps(items@),
                    v@ == JsonRep::Arr(reps),
                    reps.len() == items@.len(),
                    forall|j: int| 0 <= j < items@.len() ==> reps[j] == rep_of(#[trigger] items@[j]),
                    out@ == old(out)@ + seq!['['] + arr_text(reps.take(i as int)),
                decreases items.len() - i,
            {
                if i > 0 {
                    out.push(',');
                }
                proof {
                    assert(decreases_to!(*v => *items));
                    assert(decreases_to!(*items => items@[i as int]));
                }
                write_json(&items[i], out);
                proof {
                    let t = reps.take(i + 1);
                    if i == 0 {
                        assert(t[0] == reps[0]);
                        assert(arr_text(t) == json_text(reps[0]));
                    } else {
                        assert(t.drop_last() =~= reps.take(i as int));
                        assert(t.last() == reps[i as int]);
                    }
                    assert(out@ =~= old(out)@ + seq!['['] + arr_text(reps.take(i + 1)));
                }
                i = i + 1;
            }
            out.push(']');
            proof {
                assert(reps.take(items@.len() as int) =~= reps);
                assert(out@ =~= old(out)@ + json_text(v@));
            }
        },
        JsonVal::Obj(entries) => {
            let ghost reps = pair_reps(entries@);
            proof {
                lemma_pair_reps_index(entries@);
            }
            out.push('{');
            let mut i: usize = 0;
            while i < entries.len()
                invariant
                    0 <= i <= entries.len(),
                    reps == pair_reps(entries@),
                    v@ == JsonRep::Obj(reps),
                    reps.len() == entries@.len(),
                    forall|j: int|
                        0 <= j < entries@.len() ==> pair_reps(entries@)[j] == ((
                        #[trigger] entries@[j]).0@, rep_of(entries@[j].1)),
                    out@ == old(out)@ + seq!['{'] + obj_text(reps.take(i as int)),
                decreases entries.len() - i,
            {
                if i > 0 {
                    out.push(',');
                }
                let (k, val) = &entries[i];
                out.push('"');
                push_escaped(k.as_str(), out);
                out.push('"');
                out.push(':');
                proof {
                    assert(decreases_to!(*v => *entries));
                    assert(decreases_to!(*entries => entries@[i as int]));
                    assert(decreases_to!(entries@[i as int] => entries@[i as int].1));
                    assert(reps[i as int] == (entries@[i as int].0@, rep_of(entries@[i as int].1)));
                    assert(k@ == entries@[i as int].0@);
                }
                write_json(val, out);
                proof {
                    let t = reps.take(i + 1);
                    assert(*val == entries@[i as int].1);
                    assert(val@ == rep_of(entries@[i as int].1));
                    assert(member_text(reps[i as int]) == string_text(k@) + seq![':'] + json_text(
                        val@,
                    ));
                    if i == 0 {
                        assert(t[0] == reps[0]);
                        assert(obj_text(t) == member_text(reps[0]));
                    } else {
                        assert(t.drop_last() =~= reps.take(i as int));
                        assert(t.last() == reps[i as int]);
                    }
                    assert(out@ =~= old(out)@ + seq!['{'] + obj_text(reps.take(i + 1)));
                }
                i = i + 1;
            }
            out.push('}');
            proof {
                assert(reps.take(entries@.len() as int) =~= reps);
                assert(out@ =~= old(out)@ + json_text(v@));
            }
        },
    }
}

/// Relies on `String`'s `FromIterator` over `char`: the collected string
/// holds exactly the characters of the vector, in order.
#[verifier::external_body]
fn chars_to_string(cs: &Vec<char>) -> (r: String)
    ensures
        r@ == cs@,
{
    cs.iter().collect()
}

/// Serializes `v` to its JSON text.
pub fn to_json_string(v: &JsonVal) -> (r: String)
    ensures
        r@ == json_text(v@),
{
    let mut out: Vec<char> = Vec::new();
    write_json(v, &mut out);
    chars_to_string(&out)
}


/// Keys of the control API whose values carry credential material.
pub open spec fn sensitive_key(k: Seq<char>) -> bool {
    k == "Password"@ || k == "Token"@
}

/// The fixed marker that replaces a redacted value.
pub open spec fn redaction_marker() -> Seq<char> {
    "***redacted***"@
}

/// The redacted form of a document: every object member under a sensitive
/// key carries the marker instead of its value; all other structure is
/// kept, recursively through nested objects and arrays.
pub open spec fn redacted_rep(r: JsonRep) -> JsonRep
    decreases r,
{
    match r {
        JsonRep::Arr(items) => JsonRep::Arr(redacted_seq(items)),
        JsonRep::Obj(entries) => JsonRep::Obj(redacted_pairs(entries)),
        _ => r,
    }
}

/// The redacted forms of a sequence of array elements.
pub open spec fn redacted_seq(items: Seq<JsonRep>) -> Seq<JsonRep>
    decreases items,
{
    if items.len() == 0 {
        Seq::empty()
    } else {
        redacted_seq(items.drop_last()).push(redacted_rep(items.last()))
    }
}

/// The redacted forms of a sequence of object members.
pub open spec fn redacted_pairs(entries: Seq<(Seq<char>, JsonRep)>) -> Seq<(Seq<char>, JsonRep)>
    decreases entries,
    via redacted_pairs_decreases
{
    if entries.len() == 0 {
        Seq::empty()
    } else {
        redacted_pairs(entries.drop_last()).push(
            (
                entries.last().0,
                if sensitive_key(entries.last().0) {
                    JsonRep::Str(redaction_marker())
                } else {
                    redacted_rep(entries.last().1)
                },
            ),
        )
    }
}

#[via_fn]
proof fn redacted_pairs_decreases(entries: Seq<(Seq<char>, JsonRep)>) {
    if entries.len() > 0 {
        assert(decreases_to!(entries => entries.last()));
        assert(decreases_to!(entries.last() => entries.last().1));
    }
}

/// `redacted_seq` maps element by element.
pub proof fn lemma_redacted_seq_index(items: Seq<JsonRep>)
    ensures
        redacted_seq(items).len() == items.len(),
        forall|i: int|
            0 <= i < items.len() ==> redacted_seq(items)[i] == redacted_rep(#[trigger] items[i]),
    decreases items.len(),
{
    if items.len() > 0 {
        lemma_redacted_seq_index(items.drop_last());
        assert forall|i: int|
            0 <= i < items.len() implies redacted_seq(items)[i] == redacted_rep(
            #[trigger] items[i],
        ) by {
            if i < items.len() - 1 {
                assert(redacted_seq(items)[i] == redacted_seq(items.drop_last())[i]);
                assert(items.drop_last()[i] == items[i]);
            }
        }
    }
}

/// `redacted_pairs` maps member by member, keeping every key.
pub proof fn lemma_redacted_pairs_index(entries: Seq<(Seq<char>, JsonRep)>)
    ensures
        redacted_pairs(entries).len() == entries.len(),
        forall|i: int|
            0 <= i < entries.len() ==> redacted_pairs(entries)[i] == ((
            #[trigger] entries[i]).0, if sensitive_key(entries[i].0) {
                JsonRep::Str(redaction_marker())
            } else {
                redacted_rep(entries[i].1)
            }),
    decreases entries.len(),
{
    if entries.len() > 0 {
        lemma_redacted_pairs_index(entries.drop_last());
        assert forall|i: int|
            0 <= i < entries.len() implies redacted_pairs(entries)[i] == ((
        #[trigger] entries[i]).0, if sensitive_key(entries[i].0) {
            JsonRep::Str(redaction_marker())
        } else {
            redacted_rep(entries[i].1)
        }) by {
            if i < entries.len() - 1 {
                assert(redacted_pairs(entries)[i] == redacted_pairs(entries.drop_last())[i]);
                assert(entries.drop_last()[i] == entries[i]);
            }
        }
    }
}

/// No credential-bearing member is left unmasked anywhere in `r`.
pub open spec fn fully_redacted(r: JsonRep) -> bool
    decreases r,
    via fully_redacted_decreases
{
    match r {
        JsonRep::Arr(items) => forall|i: int|
            0 <= i < items.len() ==> fully_redacted(#[trigger] items[i]),
        JsonRep::Obj(entries) => forall|i: int|
            0 <= i < entries.len() ==> {
                if sensitive_key((#[trigger] entries[i]).0) {
                    entries[i].1 == JsonRep::Str(redaction_marker())
                } else {
                    fully_redacted(entries[i].1)
                }
            },
        _ => true,
    }
}

#[via_fn]
proof fn fully_redacted_decreases(r: JsonRep) {
    match r {
        JsonRep::Arr(items) => {
            assert forall|i: int| 0 <= i < items.len() implies decreases_to!(r => items[i]) by {
                assert(decreases_to!(r => items));
                assert(decreases_to!(items => items[i]));
            }
        },
        JsonRep::Obj(entries) => {
            assert forall|i: int|
                0 <= i < entries.len() implies decreases_to!(r => entries[i].1) by {
                assert(decreases_to!(r => entries));
                assert(decreases_to!(entries => entries[i]));
                assert(decreases_to!(entries[i] => entries[i].1));
            }
        },
        _ => {},
    }
}

/// Law: after redaction, every object member under a sensitive key holds
/// the fixed marker, at every nesting depth; `redacted_rep` itself states
/// that all other members and all keys are kept unchanged.
pub proof fn lemma_redaction_masks_secrets(r: JsonRep)
    ensures
        fully_redacted(redacted_rep(r)),
    decreases r,
{
    match r {
        JsonRep::Arr(items) => {
            lemma_redacted_seq_index(items);
            assert forall|i: int|
                0 <= i < redacted_seq(items).len() implies fully_redacted(
                #[trigger] redacted_seq(items)[i],
            ) by {
                assert(decreases_to!(r => items));
                assert(decreases_to!(items => items[i]));
                lemma_redaction_masks_secrets(items[i]);
            }
        },
        JsonRep::Obj(entries) => {
            lemma_redacted_pairs_index(entries);
            assert forall|i: int|
                0 <= i < redacted_pairs(entries).len() implies {
                if sensitive_key((#[trigger] redacted_pairs(entries)[i]).0) {
                    redacted_pairs(entries)[i].1 == JsonRep::Str(redaction_marker())
                } else {
                    fully_redacted(redacted_pairs(entries)[i].1)
                }
            } by {
                if !sensitive_key(entries[i].0) {
                    assert(decreases_to!(r => entries));
                    assert(decreases_to!(entries => entries[i]));
                    assert(decreases_to!(entries[i] => entries[i].1));
                    lemma_redaction_masks_secrets(entries[i].1);
                }
            }
        },
        _ => {},
    }
}

/// `k` names a credential-bearing member.
fn is_sensitive_key(k: &String) -> (r: bool)
    ensures
        r == sensitive_key(k@),
{
    let p = String::from_str("Password");
    let t = String::from_str("Token");
    k.eq(&p) || k.eq(&t)
}

/// Returns `v` with every credential-bearing member masked, for logging.
#[verifier::loop_isolation(false)]
pub fn redact_sensitive_fields(v: &JsonVal) -> (r: JsonVal)
    ensures
        r@ == redacted_rep(v@),
    decreases v,
{
    match v {
        JsonVal::Null => JsonVal::Null,
        JsonVal::Bool(b) => JsonVal::Bool(*b),
        JsonVal::UInt(n) => JsonVal::UInt(*n),
        JsonVal::Str(s) => JsonVal::Str(s.clone()),
        JsonVal::Arr(items) => {
            let mut out: Vec<JsonVal> = Vec::new();
            let mut i: usize = 0;
            while i < items.len()
                invariant
                    0 <= i <= items.len(),
                    out@.len() == i,
                    forall|j: int| 0 <= j < i ==> (#[trigger] out@[j])@ == redacted_rep(items@[j]@),
                decreases items.len() - i,
            {
                proof {
                    assert(decreases_to!(*v => *items));
                    assert(decreases_to!(*items => items@[i as int]));
                }
                let e = redact_sensitive_fields(&items[i]);
                out.push(e);
                i = i + 1;
            }
            proof {
                lemma_seq_reps_index(out@);
                lemma_seq_reps_index(items@);
                lemma_redacted_seq_index(seq_reps(items@));
                assert forall|j: int|
                    0 <= j < out@.len() implies seq_reps(out@)[j] == redacted_seq(
                    seq_reps(items@),
                )[j] by {
                    assert(seq_reps(out@)[j] == rep_of(out@[j]));
                    assert(out@[j]@ == redacted_rep(items@[j]@));
                    assert(seq_reps(items@)[j] == rep_of(items@[j]));
                    assert(redacted_seq(seq_reps(items@))[j] == redacted_rep(seq_reps(items@)[j]));
                }
                assert(seq_reps(out@) =~= redacted_seq(seq_reps(items@)));
            }
            JsonVal::Arr(out)
        },
        JsonVal::Obj(entries) => {
            let mut out: Vec<(String, JsonVal)> = Vec::new();
            let mut i: usize = 0;
            while i < entries.len()
                invariant
                    0 <= i <= entries.len(),
                    out@.len() == i,
                    forall|j: int|
                        0 <= j < i ==> (#[trigger] out@[j]).0@ == entries@[j].0@ && out@[j].1@ == (
                        if sensitive_key(entries@[j].0@) {
                            JsonRep::Str(redaction_marker())
                        } else {
                            redacted_rep(entries@[j].1@)
                        }),
                decreases entries.len() - i,
            {
                let (k, val) = &entries[i];
                let masked = if is_sensitive_key(k) {
                    JsonVal::Str(String::from_str("***redacted***"))
                } else {
                    proof {
                        assert(decreases_to!(*v => *entries));
                        assert(decreases_to!(*entries => entries@[i as int]));
                        assert(decreases_to!(entries@[i as int] => entries@[i as int].1));
                    }
                    redact_sensitive_fields(val)
                };
                out.push((k.clone(), masked));
                i = i + 1;
            }
            proof {
                lemma_pair_reps_index(out@);
                lemma_pair_reps_index(entries@);
                lemma_redacted_pairs_index(pair_reps(entries@));
                assert forall|j: int|
                    0 <= j < out@.len() implies pair_reps(out@)[j] == redacted_pairs(
                    pair_reps(entries@),
                )[j] by {
                    assert(pair_reps(out@)[j] == (out@[j].0@, rep_of(out@[j].1)));
                    assert(pair_reps(entries@)[j] == (entries@[j].0@, rep_of(entries@[j].1)));
                    assert(redacted_pairs(pair_reps(entries@))[j] == ((pair_reps(entries@)[j]).0, (
                    if sensitive_key(pair_reps(entries@)[j].0) {
                        JsonRep::Str(redaction_marker())
                    } else {
                        redacted_rep(pair_reps(entries@)[j].1)
                    })));
                }
                assert(pair_reps(out@) =~= redacted_pairs(pair_reps(entries@)));
            }
            JsonVal::Obj(out)
        },
    }
}

} // verus!

//! Validated contact/group identifiers.
//!
//! An identifier is accepted exactly when it starts with the contact prefix
//! `"wxid_"` or ends with the group suffix `"@chatroom"`. No normalization is
//! performed; a validated identifier is immutable and serializes as its raw
//! string.

use vstd::prelude::*;

use crate::error::ApiError;

verus! {

/// The prefix that marks a contact identifier.
pub open spec fn contact_prefix() -> Seq<char> {
    seq!['w', 'x', 'i', 'd', '_']
}

/// The suffix that marks a group identifier.
pub open spec fn group_suffix() -> Seq<char> {
    seq!['@', 'c', 'h', 'a', 't', 'r', 'o', 'o', 'm']
}

pub open spec fn has_contact_prefix(s: Seq<char>) -> bool {
    s.len() >= 5 && s.subrange(0, 5) == contact_prefix()
}

pub open spec fn has_group_suffix(s: Seq<char>) -> bool {
    s.len() >= 9 && s.subrange(s.len() - 9, s.len() as int) == group_suffix()
}

/// The validation rule: a string names a contact or a group.
pub open spec fn is_valid_wxid(s: Seq<char>) -> bool {
    has_contact_prefix(s) || has_group_suffix(s)
}

/// A validated identifier naming a contact or group on the remote service.
#[derive(Debug, Clone, PartialEq, Eq)]
pub struct Wxid(String);

impl View for Wxid {
    type V = Seq<char>;

    closed spec fn view(&self) -> Seq<char> {
        self.0@
    }
}

/// What `Wxid::try_from` promises of its result for input `s`: construction
/// succeeds with the input kept verbatim exactly when `s` is a valid
/// identifier, and fails with a `Validation` error naming `s` otherwise.
pub open spec fn wxid_parse_post(r: Result<Wxid, ApiError>, s: Seq<char>) -> bool {
    &&& is_valid_wxid(s) ==> (r matches Ok(w) && w@ == s)
    &&& !is_valid_wxid(s) ==> (r matches Err(e) && e matches ApiError::Validation(input) && input@
        == s)
}

fn has_contact_prefix_exec(s: &str) -> (r: bool)
    ensures
        r == has_contact_prefix(s@),
{
    let n = s.unicode_len();
    if n < 5 {
        return false;
    }
    let r = s.get_char(0) == 'w' && s.get_char(1) == 'x' && s.get_char(2) == 'i' && s.get_char(3)
        == 'd' && s.get_char(4) == '_';
    proof {
        if r {
            assert(s@.subrange(0, 5) =~= contact_prefix());
        } else {
            if has_contact_prefix(s@) {
                assert(s@.subrange(0, 5)[0] == 'w');
                assert(s@.subrange(0, 5)[1] == 'x');
                assert(s@.subrange(0, 5)[2] == 'i');
                assert(s@.subrange(0, 5)[3] == 'd');
                assert(s@.subrange(0, 5)[4] == '_');
            }
        }
    }
    r
}

fn has_group_suffix_exec(s: &str) -> (r: bool)
    ensures
        r == has_group_suffix(s@),
{
    let n = s.unicode_len();
    if n < 9 {
        return false;
    }
    let b: usize = n - 9;
    let r = s.get_char(b) == '@' && s.get_char(b + 1) == 'c' && s.get_char(b + 2) == 'h'
        && s.get_char(b + 3) == 'a' && s.get_char(b + 4) == 't' && s.get_char(b + 5) == 'r'
        && s.get_char(b + 6) == 'o' && s.get_char(b + 7) == 'o' && s.get_char(b + 8) == 'm';
    proof {
        let tail = s@.subrange(s@.len() - 9, s@.len() as int);
        if r {
            assert(tail =~= group_suffix());
        } else {
            if has_group_suffix(s@) {
                assert(tail[0] == '@');
                assert(tail[1] == 'c');
                assert(tail[2] == 'h');
                assert(tail[3] == 'a');
                assert(tail[4] == 't');
                assert(tail[5] == 'r');
                assert(tail[6] == 'o');
                assert(tail[7] == 'o');
                assert(tail[8] == 'm');
            }
        }
    }
    r
}

impl Wxid {
    /// A constructed identifier always satisfies the validation rule.
    pub open spec fn wf(&self) -> bool {
        is_valid_wxid(self@)
    }

    /// Returns the identifier's raw string, its serialized form.
    pub fn as_str(&self) -> (r: &str)
        ensures
            r@ == self@,
    {
        self.0.as_str()
    }

    /// Validates `value` and wraps it; the offending input is reported on
    /// failure. Succeeds if and only if `value` starts with the contact
    /// prefix or ends with the group suffix.
    pub fn try_from(value: &str) -> (r: Result<Wxid, ApiError>)
        ensures
            wxid_parse_post(r, value@),
            r matches Ok(w) ==> w.wf(),
    {
        if has_contact_prefix_exec(value) || has_group_suffix_exec(value) {
            Ok(Wxid(value.to_owned()))
        } else {
            Err(ApiError::Validation(value.to_owned()))
        }
    }
}

/// Law: construction succeeds on every string that starts with the contact
/// prefix, and the constructed identifier reads back as that string.
pub proof fn lemma_contact_prefix_accepted(s: Seq<char>, r: Result<Wxid, ApiError>)
    requires
        has_contact_prefix(s),
        wxid_parse_post(r, s),
    ensures
        r matches Ok(w) && w@ == s,
{
}

/// Law: construction succeeds on every string that ends with the group
/// suffix.
pub proof fn lemma_group_suffix_accepted(s: Seq<char>, r: Result<Wxid, ApiError>)
    requires
        has_group_suffix(s),
        wxid_parse_post(r, s),
    ensures
        r matches Ok(w) && w@ == s,
{
}

/// Law: construction fails with a `Validation` error naming the input on
/// every string with neither the contact prefix nor the group suffix.
pub proof fn lemma_invalid_input_rejected(s: Seq<char>, r: Result<Wxid, ApiError>)
    requires
        !has_contact_prefix(s),
        !has_group_suffix(s),
        wxid_parse_post(r, s),
    ensures
        r matches Err(e) && e matches ApiError::Validation(input) && input@ == s,
{
}

/// Law: parsing the serialized form of an identifier succeeds and yields an
/// equal identifier. `as_str` serializes a `Wxid` as its view, and any result
/// meeting `try_from`'s contract on that view is `Ok` with the same view.
pub proof fn lemma_wxid_round_trip(w: Wxid, r: Result<Wxid, ApiError>)
    requires
        w.wf(),
        wxid_parse_post(r, w@),
    ensures
        r matches Ok(w2) && w2@ == w@,
{
}

} // verus!

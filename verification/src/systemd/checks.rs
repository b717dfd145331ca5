//! Field-value checks shared by the section validators.

use crate::text::contains_char;
use crate::text::has_prefix;
use crate::text::starts_with_str;
use vstd::prelude::*;
use vstd::string::StrSliceExecFns;

verus! {

/// A documentation URI must start with one of the five accepted schemes.
pub open spec fn doc_uri_ok(s: Seq<char>) -> bool {
    has_prefix(s, "http://"@) || has_prefix(s, "https://"@) || has_prefix(s, "file:"@)
        || has_prefix(s, "info:"@) || has_prefix(s, "man:"@)
}

/// A capability token must carry the `CAP_` prefix.
pub open spec fn cap_ok(s: Seq<char>) -> bool {
    has_prefix(s, "CAP_"@)
}

/// An environment entry must contain `=` with a non-empty key before it.
pub open spec fn env_entry_ok(s: Seq<char>) -> bool {
    s.contains('=') && s[0] != '='
}

pub open spec fn all_doc_uris_ok(items: Seq<String>) -> bool {
    forall|i: int| 0 <= i < items.len() ==> doc_uri_ok(#[trigger] items[i]@)
}

pub open spec fn all_caps_ok(items: Seq<String>) -> bool {
    forall|i: int| 0 <= i < items.len() ==> cap_ok(#[trigger] items[i]@)
}

pub open spec fn all_env_entries_ok(items: Seq<String>) -> bool {
    forall|i: int| 0 <= i < items.len() ==> env_entry_ok(#[trigger] items[i]@)
}

pub open spec fn all_without_eq(items: Seq<String>) -> bool {
    forall|i: int| 0 <= i < items.len() ==> !(#[trigger] items[i]@).contains('=')
}

pub open spec fn all_nonempty(items: Seq<String>) -> bool {
    forall|i: int| 0 <= i < items.len() ==> (#[trigger] items[i]@).len() > 0
}

pub open spec fn opt_all_doc_uris_ok(field: Option<Vec<String>>) -> bool {
    match field {
        None => true,
        Some(v) => all_doc_uris_ok(v@),
    }
}

pub open spec fn opt_all_caps_ok(field: Option<Vec<String>>) -> bool {
    match field {
        None => true,
        Some(v) => all_caps_ok(v@),
    }
}

pub open spec fn opt_all_env_entries_ok(field: Option<Vec<String>>) -> bool {
    match field {
        None => true,
        Some(v) => all_env_entries_ok(v@),
    }
}

pub open spec fn opt_all_without_eq(field: Option<Vec<String>>) -> bool {
    match field {
        None => true,
        Some(v) => all_without_eq(v@),
    }
}

pub open spec fn opt_all_nonempty(field: Option<Vec<String>>) -> bool {
    match field {
        None => true,
        Some(v) => all_nonempty(v@),
    }
}

pub fn check_doc_uri(s: &str) -> (r: bool)
    ensures
        r == doc_uri_ok(s@),
{
    starts_with_str(s, "http://") || starts_with_str(s, "https://") || starts_with_str(s, "file:")
        || starts_with_str(s, "info:") || starts_with_str(s, "man:")
}

pub fn check_cap(s: &str) -> (r: bool)
    ensures
        r == cap_ok(s@),
{
    starts_with_str(s, "CAP_")
}

/// `None` when the entry is well-formed; otherwise `Some(missing)`, where
/// `missing` tells whether the `=` separator is absent (as opposed to the
/// key before it being empty).
pub fn env_entry_fault(s: &str) -> (r: Option<bool>)
    ensures
        match r {
            None => env_entry_ok(s@),
            Some(missing) => !env_entry_ok(s@) && (missing <==> !s@.contains('=')),
        },
{
    if !contains_char(s, '=') {
        Some(true)
    } else if s.get_char(0) == '=' {
        Some(false)
    } else {
        None
    }
}

/// The index of the first entry that is not a well-formed documentation URI.
pub fn first_bad_doc_uri(items: &Vec<String>) -> (r: Option<usize>)
    ensures
        match r {
            None => all_doc_uris_ok(items@),
            Some(i) => i < items@.len() && !doc_uri_ok(items@[i as int]@),
        },
{
    let mut i: usize = 0;
    while i < items.len()
        invariant
            0 <= i <= items@.len(),
            forall|k: int| 0 <= k < i ==> doc_uri_ok(#[trigger] items@[k]@),
        decreases items@.len() - i,
    {
        if !check_doc_uri(items[i].as_str()) {
            return Some(i);
        }
        i += 1;
    }
    None
}

/// The index of the first entry that lacks the `CAP_` prefix.
pub fn first_bad_cap(items: &Vec<String>) -> (r: Option<usize>)
    ensures
        match r {
            None => all_caps_ok(items@),
            Some(i) => i < items@.len() && !cap_ok(items@[i as int]@),
        },
{
    let mut i: usize = 0;
    while i < items.len()
        invariant
            0 <= i <= items@.len(),
            forall|k: int| 0 <= k < i ==> cap_ok(#[trigger] items@[k]@),
        decreases items@.len() - i,
    {
        if !check_cap(items[i].as_str()) {
            return Some(i);
        }
        i += 1;
    }
    None
}

/// The index of the first entry that contains `=`.
pub fn first_with_eq(items: &Vec<String>) -> (r: Option<usize>)
    ensures
        match r {
            None => all_without_eq(items@),
            Some(i) => i < items@.len() && items@[i as int]@.contains('='),
        },
{
    let mut i: usize = 0;
    while i < items.len()
        invariant
            0 <= i <= items@.len(),
            forall|k: int| 0 <= k < i ==> !(#[trigger] items@[k]@).contains('='),
        decreases items@.len() - i,
    {
        if contains_char(items[i].as_str(), '=') {
            return Some(i);
        }
        i += 1;
    }
    None
}

/// The index of the first empty entry.
pub fn first_empty(items: &Vec<String>) -> (r: Option<usize>)
    ensures
        match r {
            None => all_nonempty(items@),
            Some(i) => i < items@.len() && items@[i as int]@.len() == 0,
        },
{
    let mut i: usize = 0;
    while i < items.len()
        invariant
            0 <= i <= items@.len(),
            forall|k: int| 0 <= k < i ==> (#[trigger] items@[k]@).len() > 0,
        decreases items@.len() - i,
    {
        if items[i].as_str().unicode_len() == 0 {
            return Some(i);
        }
        i += 1;
    }
    None
}

/// The index of the first entry that is not a well-formed environment
/// entry, with the kind of fault found there.
pub fn first_bad_env_entry(items: &Vec<String>) -> (r: Option<(usize, bool)>)
    ensures
        match r {
            None => all_env_entries_ok(items@),
            Some((i, missing)) => i < items@.len() && !env_entry_ok(items@[i as int]@) && (
            missing <==> !items@[i as int]@.contains('=')),
        },
{
    let mut i: usize = 0;
    while i < items.len()
        invariant
            0 <= i <= items@.len(),
            forall|k: int| 0 <= k < i ==> env_entry_ok(#[trigger] items@[k]@),
        decreases items@.len() - i,
    {
        match env_entry_fault(items[i].as_str()) {
            Some(missing) => {
                return Some((i, missing));
            },
            None => {},
        }
        i += 1;
    }
    None
}

} // verus!

//! Shared pieces of the filter models: optional-string views, comma-list
//! parsing into trimmed texts or identifiers, and sort-order normalization.

use vstd::prelude::*;

use crate::ids::uuid_of;
use crate::strutil::comma_segments;
use crate::strutil::trim_spec;
use crate::strutil::views_of;

verus! {

/// The view of an optional owned string.
pub open spec fn opt_str_view(v: Option<String>) -> Option<Seq<char>> {
    match v {
        Some(s) => Some(s@),
        None => None,
    }
}

/// Trimming, as a function value.
pub open spec fn trim_fn() -> spec_fn(Seq<char>) -> Seq<char> {
    |w: Seq<char>| trim_spec(w)
}

/// UUID parsing, as a function value.
pub open spec fn uuid_fn() -> spec_fn(Seq<char>) -> Option<u128> {
    |w: Seq<char>| uuid_of(w)
}

/// The comma-separated entries of `s`, each trimmed; empty entries are kept.
pub open spec fn trimmed_segments(s: Seq<char>) -> Seq<Seq<char>> {
    comma_segments(s).map_values(trim_fn())
}

/// The comma-separated entries of an optional list, or no entries at all.
pub open spec fn opt_trimmed_segments(v: Option<Seq<char>>) -> Seq<Seq<char>> {
    match v {
        Some(s) => trimmed_segments(s),
        None => Seq::empty(),
    }
}

/// The entries of an optional comma-separated list that parse as UUIDs, in
/// order; entries that do not parse are dropped.
pub open spec fn opt_id_segments(v: Option<Seq<char>>) -> Seq<u128> {
    match v {
        Some(s) => trimmed_segments(s).filter_map(uuid_fn()),
        None => Seq::empty(),
    }
}

/// A requested sort direction normalized against the allow-list: `asc` in
/// either case means ascending, anything else — a typo included — falls
/// back to descending.
pub open spec fn sort_order_norm(v: Option<Seq<char>>) -> Seq<char> {
    match v {
        Some(s) => if s == "asc"@ || s == "ASC"@ {
            "ASC"@
        } else {
            "DESC"@
        },
        None => "DESC"@,
    }
}

/// Splits on commas and trims each entry.
pub fn split_trimmed(s: &str) -> (r: Vec<String>)
    ensures
        views_of(r@) == trimmed_segments(s@),
{
    let segs = crate::strutil::split_commas(s);
    let mut out: Vec<String> = Vec::new();
    let mut i: usize = 0;
    while i < segs.len()
        invariant
            0 <= i <= segs@.len(),
            views_of(segs@) == comma_segments(s@),
            views_of(out@) =~= views_of(segs@).map_values(trim_fn()).take(i as int),
        decreases segs@.len() - i,
    {
        let t = crate::strutil::trim_str(segs[i].as_str());
        let ghost out0 = out@;
        out.push(t);
        proof {
            crate::strutil::lemma_views_push(out0, out@.last());
            assert(out@ =~= out0.push(out@.last()));
            assert(views_of(segs@).map_values(trim_fn()).take(i + 1) =~= views_of(
                segs@,
            ).map_values(trim_fn()).take(i as int).push(trim_spec(segs@[i as int]@)));
        }
        i = i + 1;
    }
    proof {
        assert(views_of(segs@).map_values(trim_fn()).take(segs@.len() as int) =~= views_of(
            segs@,
        ).map_values(trim_fn()));
    }
    out
}

/// Splits on commas, trims each entry, and keeps those that parse as UUIDs.
pub fn parse_id_list(s: &str) -> (r: Vec<u128>)
    ensures
        r@ == trimmed_segments(s@).filter_map(uuid_fn()),
{
    let trimmed = split_trimmed(s);
    let mut out: Vec<u128> = Vec::new();
    let mut i: usize = 0;
    while i < trimmed.len()
        invariant
            0 <= i <= trimmed@.len(),
            views_of(trimmed@) == trimmed_segments(s@),
            out@ =~= views_of(trimmed@).take(i as int).filter_map(uuid_fn()),
        decreases trimmed@.len() - i,
    {
        proof {
            assert(views_of(trimmed@).take(i + 1).drop_last() =~= views_of(trimmed@).take(
                i as int,
            ));
            assert(views_of(trimmed@).take(i + 1).last() == trimmed@[i as int]@);
        }
        match crate::ids::parse_uuid(trimmed[i].as_str()) {
            Some(v) => {
                out.push(v);
            },
            None => {
            },
        }
        i = i + 1;
    }
    proof {
        assert(views_of(trimmed@).take(trimmed@.len() as int) =~= views_of(trimmed@));
    }
    out
}

/// Normalizes a requested sort direction against the allow-list.
pub fn normalize_sort_order(v: &Option<String>) -> (r: String)
    ensures
        r@ == sort_order_norm(opt_str_view(*v)),
{
    match v {
        Some(s) => {
            if crate::strutil::chars_eq(s.as_str(), "asc") || crate::strutil::chars_eq(
                s.as_str(),
                "ASC",
            ) {
                "ASC".to_owned()
            } else {
                "DESC".to_owned()
            }
        },
        None => "DESC".to_owned(),
    }
}

/// Copies an optional string by value.
pub fn clone_opt_string(v: &Option<String>) -> (r: Option<String>)
    ensures
        opt_str_view(r) == opt_str_view(*v),
{
    match v {
        Some(s) => Some(s.clone()),
        None => None,
    }
}

} // verus!

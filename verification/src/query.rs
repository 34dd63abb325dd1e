//! Query strings as ordered lists of key/value pairs, and the helpers that
//! append one optional parameter at a time.

use vstd::prelude::*;
use crate::text::{decimal, decimal_string, owned, push_signed, signed_decimal};

verus! {

/// A query in the abstract: keys and values, in the order they are sent.
pub type QueryModel = Seq<(Seq<char>, Seq<char>)>;

/// The abstract value of a query.
pub open spec fn query_view(q: Seq<(&'static str, String)>) -> QueryModel {
    q.map_values(|e: (&'static str, String)| (e.0@, e.1@))
}

/// The keys of a query, in order.
pub open spec fn query_keys(q: QueryModel) -> Seq<Seq<char>> {
    q.map_values(|e: (Seq<char>, Seq<char>)| e.0)
}

/// One pair when `v` is set, none otherwise; numbers go out in decimal.
pub open spec fn num_entry(key: Seq<char>, v: Option<u32>) -> QueryModel {
    match v {
        Some(x) => seq![(key, decimal(x as nat))],
        None => seq![],
    }
}

/// One pair when `v` is set, none otherwise.
pub open spec fn str_entry(key: Seq<char>, v: Option<Seq<char>>) -> QueryModel {
    match v {
        Some(x) => seq![(key, x)],
        None => seq![],
    }
}

/// One pair when `cond` holds, none otherwise.
pub open spec fn flag_entry(key: Seq<char>, cond: bool, value: Seq<char>) -> QueryModel {
    if cond {
        seq![(key, value)]
    } else {
        seq![]
    }
}

/// Appends `(key, value)`.
pub fn push_pair(q: &mut Vec<(&'static str, String)>, key: &'static str, value: String)
    ensures
        query_view(final(q)@) == query_view(old(q)@) + seq![(key@, value@)],
{
    let ghost before = q@;
    q.push((key, value));
    assert(query_view(q@) =~= query_view(before) + seq![(key@, value@)]);
}

/// Appends `(key, v)` in decimal when `v` is set.
pub fn push_num(q: &mut Vec<(&'static str, String)>, key: &'static str, v: Option<u32>)
    ensures
        query_view(final(q)@) == query_view(old(q)@) + num_entry(key@, v),
{
    match v {
        Some(x) => push_pair(q, key, decimal_string(x as u64)),
        None => {
            assert(query_view(q@) + num_entry(key@, v) =~= query_view(q@));
        },
    }
}

/// Appends `(key, v)` when `v` is set.
pub fn push_opt_str(q: &mut Vec<(&'static str, String)>, key: &'static str, v: &Option<String>)
    ensures
        query_view(final(q)@) == query_view(old(q)@) + str_entry(key@, crate::error::opt_str(*v)),
{
    match v {
        Some(x) => push_pair(q, key, x.clone()),
        None => {
            assert(query_view(q@) + str_entry(key@, None) =~= query_view(q@));
        },
    }
}

/// Appends `(key, value)` when `cond` holds.
pub fn push_flag(q: &mut Vec<(&'static str, String)>, key: &'static str, cond: bool, value: &str)
    ensures
        query_view(final(q)@) == query_view(old(q)@) + flag_entry(key@, cond, value@),
{
    if cond {
        push_pair(q, key, owned(value));
    } else {
        assert(query_view(q@) + flag_entry(key@, cond, value@) =~= query_view(q@));
    }
}

/// A signed number in decimal.
pub fn signed_string(v: i32) -> (r: String)
    ensures
        r@ == signed_decimal(v as int),
{
    let mut s = String::new();
    push_signed(&mut s, v);
    assert(s@ =~= signed_decimal(v as int));
    s
}

} // verus!

//! The request's header set, modelled as an ordered list of key/value pairs
//! with ASCII-case-insensitive keys; duplicates are allowed and lookup takes
//! the first match, as the host pipeline does.

use vstd::prelude::*;

use crate::strutil::seq_eq_ignore_ascii_case;

verus! {

/// The value of the first header whose key equals `key` up to ASCII case.
pub open spec fn header_lookup(hs: Seq<(String, String)>, key: Seq<char>) -> Option<Seq<char>>
    decreases hs.len(),
{
    if hs.len() == 0 {
        None
    } else if seq_eq_ignore_ascii_case(hs[0].0@, key) {
        Some(hs[0].1@)
    } else {
        header_lookup(hs.drop_first(), key)
    }
}

/// Some header in `hs` carries the key `key`, up to ASCII case.
pub open spec fn header_present(hs: Seq<(String, String)>, key: Seq<char>) -> bool {
    header_lookup(hs, key) is Some
}

/// Value of an incoming request header, by ASCII-case-insensitive key.
pub fn get_header_in(headers: &Vec<(String, String)>, key: &str) -> (r: Option<String>)
    ensures
        match r {
            Some(v) => header_lookup(headers@, key@) == Some(v@),
            None => header_lookup(headers@, key@) is None,
        },
{
    let n = headers.len();
    let mut i: usize = 0;
    proof {
        assert(headers@.skip(0) =~= headers@);
    }
    while i < n
        invariant
            n == headers@.len(),
            i <= n,
            header_lookup(headers@, key@) == header_lookup(headers@.skip(i as int), key@),
        decreases n - i,
    {
        proof {
            assert(headers@.skip(i as int)[0] == headers@[i as int]);
            assert(headers@.skip(i as int).drop_first() =~= headers@.skip(i + 1));
        }
        if crate::strutil::str_eq_ignore_ascii_case(headers[i].0.as_str(), key) {
            return Some(headers[i].1.clone());
        }
        i += 1;
    }
    proof {
        assert(headers@.skip(n as int) =~= Seq::<(String, String)>::empty());
    }
    None
}

/// Append one header to the incoming set.
pub fn add_header_in(headers: &mut Vec<(String, String)>, name: String, value: String)
    ensures
        final(headers)@ == old(headers)@.push((name, value)),
{
    headers.push((name, value));
}

/// `new` is `old` with one header appended whose key and value read `key`
/// and `value`.
pub open spec fn appended_with(
    new: Seq<(String, String)>,
    old: Seq<(String, String)>,
    key: Seq<char>,
    value: Seq<char>,
) -> bool {
    &&& new.len() == old.len() + 1
    &&& new.subrange(0, old.len() as int) == old
    &&& new.last().0@ == key
    &&& new.last().1@ == value
}

/// Copy of a header list.
pub fn clone_headers(headers: &Vec<(String, String)>) -> (r: Vec<(String, String)>)
    ensures
        r@ == headers@,
{
    let n = headers.len();
    let mut out: Vec<(String, String)> = Vec::new();
    let mut i: usize = 0;
    while i < n
        invariant
            n == headers@.len(),
            i <= n,
            out@ == headers@.subrange(0, i as int),
        decreases n - i,
    {
        proof {
            assert(headers@.subrange(0, i + 1) =~= headers@.subrange(0, i as int).push(
                headers@[i as int],
            ));
        }
        out.push((headers[i].0.clone(), headers[i].1.clone()));
        i += 1;
    }
    proof {
        assert(headers@.subrange(0, n as int) =~= headers@);
    }
    out
}

/// Looking a key up after an append: an append of that key is only seen when
/// no earlier header carried it; an append of a different key changes
/// nothing.
pub proof fn lemma_header_lookup_push(
    hs: Seq<(String, String)>,
    name: String,
    value: String,
    key: Seq<char>,
)
    ensures
        header_lookup(hs.push((name, value)), key) == if header_present(hs, key) {
            header_lookup(hs, key)
        } else if seq_eq_ignore_ascii_case(name@, key) {
            Some(value@)
        } else {
            None
        },
    decreases hs.len(),
{
    if hs.len() == 0 {
        assert(hs.push((name, value)).drop_first() =~= hs);
    } else {
        lemma_header_lookup_push(hs.drop_first(), name, value, key);
        assert(hs.push((name, value)).drop_first() =~= hs.drop_first().push((name, value)));
    }
}

} // verus!

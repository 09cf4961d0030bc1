//! The request adapter's pure half: the params vector handed as argv
//! tail to every stage, and the URL path split into layers.
//!
//! The params vector is, in order: the URI path, the method, an empty
//! separator, one `name=value` entry per header whose value is valid
//! single-line text, an empty separator, the raw query split on `&`
//! (empty entries dropped), and a final empty separator. Separators are
//! emitted even when the sections around them are empty, so stages can
//! parse positionally.

use vstd::prelude::*;
use crate::text::{spec_split_nonempty, split_nonempty};

verus! {

/// The entry one header contributes: `name=value`, or the bare value
/// when the engine carried a continuation value without a name.
pub open spec fn spec_header_entry(name: Option<Seq<char>>, value: Seq<char>) -> Seq<char> {
    match name {
        Some(n) => n + "="@ + value,
        None => value,
    }
}

/// The entries of all headers, in order: a header whose value was not
/// valid single-line text (None) contributes nothing, and an entry that
/// comes out empty is dropped.
pub open spec fn spec_header_entries(hs: Seq<(Option<Seq<char>>, Option<Seq<char>>)>) -> Seq<
    Seq<char>,
>
    decreases hs.len(),
{
    if hs.len() == 0 {
        Seq::empty()
    } else {
        let r = spec_header_entries(hs.drop_last());
        match hs.last().1 {
            None => r,
            Some(v) => {
                let e = spec_header_entry(hs.last().0, v);
                if e.len() > 0 {
                    r.push(e)
                } else {
                    r
                }
            },
        }
    }
}

/// The query entries: the raw query split on `&` with empty entries
/// dropped; an absent query contributes none.
pub open spec fn spec_query_entries(query: Option<Seq<char>>) -> Seq<Seq<char>> {
    match query {
        None => Seq::empty(),
        Some(q) => spec_split_nonempty(q, '&'),
    }
}

/// The whole params vector.
pub open spec fn spec_params(
    path: Seq<char>,
    method: Seq<char>,
    headers: Seq<(Option<Seq<char>>, Option<Seq<char>>)>,
    query: Option<Seq<char>>,
) -> Seq<Seq<char>> {
    seq![path, method, Seq::<char>::empty()] + spec_header_entries(headers) + seq![
        Seq::<char>::empty(),
    ] + spec_query_entries(query) + seq![Seq::<char>::empty()]
}

/// Builds the params vector from the request's plain parts.
pub fn build_params(
    path: &String,
    method: &String,
    headers: &Vec<(Option<String>, Option<String>)>,
    query: &Option<String>,
) -> (r: Vec<String>)
    ensures
        r.deep_view() == spec_params(path@, method@, headers.deep_view(), query.deep_view()),
{
    let ghost hdv = headers.deep_view();
    let mut out: Vec<String> = Vec::new();
    out.push(path.clone());
    out.push(method.clone());
    out.push(String::new());
    proof {
        assert(out.deep_view() =~= seq![path@, method@, Seq::<char>::empty()]);
    }
    let ghost head = seq![path@, method@, Seq::<char>::empty()];
    let mut i: usize = 0;
    let n = headers.len();
    while i < n
        invariant
            i <= n,
            n == headers@.len(),
            hdv == headers.deep_view(),
            hdv.len() == n,
            forall|j: int|
                0 <= j < n ==> #[trigger] hdv[j] == (
                headers@[j].0.deep_view(),
                headers@[j].1.deep_view(),
            ),
            out.deep_view() =~= head + spec_header_entries(hdv.take(i as int)),
        decreases n - i,
    {
        proof {
            assert(hdv.take(i + 1).drop_last() =~= hdv.take(i as int));
            assert(hdv.take(i + 1).last() == hdv[i as int]);
        }
        match &headers[i].1 {
            None => (),
            Some(v) => {
                let entry = match &headers[i].0 {
                    Some(nm) => {
                        let mut e = nm.clone();
                        e.append("=");
                        e.append(v.as_str());
                        proof {
                            assert(e@ == spec_header_entry(hdv[i as int].0, v@));
                        }
                        e
                    },
                    None => {
                        let e = v.clone();
                        proof {
                            assert(e@ == spec_header_entry(hdv[i as int].0, v@));
                        }
                        e
                    },
                };
                proof {
                    assert(hdv[i as int].1 == Some(v@));
                }
                if !entry.as_str().is_empty() {
                    let ghost prev = out.deep_view();
                    out.push(entry);
                    proof {
                        assert(out.deep_view() =~= prev.push(entry@));
                        assert(head + spec_header_entries(hdv.take(i + 1)) =~= prev.push(
                            entry@,
                        ));
                    }
                }
            },
        }
        i += 1;
    }
    proof {
        assert(hdv.take(n as int) =~= hdv);
    }
    out.push(String::new());
    let ghost mid = head + spec_header_entries(hdv) + seq![Seq::<char>::empty()];
    proof {
        assert(out.deep_view() =~= mid);
    }
    match query {
        None => (),
        Some(q) => {
            let entries = split_nonempty(q.as_str(), '&');
            let mut k: usize = 0;
            let m = entries.len();
            while k < m
                invariant
                    k <= m,
                    m == entries@.len(),
                    entries.deep_view().len() == m,
                    forall|j: int|
                        0 <= j < m ==> entries.deep_view()[j] == entries@[j]@,
                    entries.deep_view() == spec_split_nonempty(q@, '&'),
                    out.deep_view() =~= mid + entries.deep_view().take(k as int),
                decreases m - k,
            {
                let q_entry = entries[k].clone();
                proof {
                    assert(q_entry@ == entries.deep_view()[k as int]);
                    assert(entries.deep_view().take(k + 1) =~= entries.deep_view().take(
                        k as int,
                    ).push(q_entry@));
                }
                let ghost prev = out.deep_view();
                out.push(q_entry);
                proof {
                    assert(out.deep_view() =~= prev.push(q_entry@));
                    assert(mid + entries.deep_view().take(k + 1) =~= prev.push(q_entry@));
                }
                k += 1;
            }
            proof {
                assert(entries.deep_view().take(m as int) =~= entries.deep_view());
            }
        },
    }
    out.push(String::new());
    proof {
        assert(out.deep_view() =~= spec_params(
            path@,
            method@,
            headers.deep_view(),
            query.deep_view(),
        ));
    }
    out
}

/// Splits a URI path into its layers: the non-empty segments between
/// the slashes.
pub fn split_layers(path: &str) -> (r: Vec<String>)
    ensures
        r.deep_view() == spec_split_nonempty(path@, '/'),
{
    split_nonempty(path, '/')
}

/// Extracts the params vector and the layers from the request's plain
/// parts.
pub fn get_params_and_layers(
    path: &String,
    method: &String,
    headers: &Vec<(Option<String>, Option<String>)>,
    query: &Option<String>,
) -> (r: (Vec<String>, Vec<String>))
    ensures
        r.0.deep_view() == spec_params(path@, method@, headers.deep_view(), query.deep_view()),
        r.1.deep_view() == spec_split_nonempty(path@, '/'),
{
    let params = build_params(path, method, headers, query);
    let layers = split_layers(path.as_str());
    (params, layers)
}

} // verus!

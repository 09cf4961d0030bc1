//! Verified text utilities: decimal rendering, path-segment tests,
//! splitting, path joining and parent computation.

use vstd::prelude::*;
use vstd::string::*;

verus! {

/// Relies on `String::push`: appends exactly one character at the end.
#[verifier::external_body]
pub fn push_char(s: &mut String, c: char)
    ensures
        final(s)@ == old(s)@.push(c),
{
    s.push(c)
}

/// The character for a single decimal digit.
pub open spec fn digit_char(d: nat) -> char {
    ((d + 48) as u8) as char
}

/// The decimal rendering of a natural number, most significant digit first.
pub open spec fn dec_digits(n: nat) -> Seq<char>
    decreases n,
{
    if n < 10 {
        seq![digit_char(n)]
    } else {
        dec_digits(n / 10).push(digit_char(n % 10))
    }
}

fn push_digit(s: &mut String, d: u8)
    requires
        d < 10,
    ensures
        final(s)@ == old(s)@.push(digit_char(d as nat)),
{
    let c = (48 + d) as char;
    assert(c == digit_char(d as nat));
    push_char(s, c);
}

/// Renders `n` in decimal.
pub fn dec_string(n: u64) -> (s: String)
    ensures
        s@ == dec_digits(n as nat),
    decreases n,
{
    if n < 10 {
        let mut s = String::new();
        push_digit(&mut s, n as u8);
        proof {
            assert(s@ =~= dec_digits(n as nat));
        }
        s
    } else {
        let mut s = dec_string(n / 10);
        push_digit(&mut s, (n % 10) as u8);
        s
    }
}

/// A URL segment is hidden when it begins with `.` (this also covers `..`).
pub open spec fn spec_hidden(s: Seq<char>) -> bool {
    s.len() > 0 && s[0] == '.'
}

/// Returns whether the segment begins with a dot.
pub fn seg_hidden(s: &String) -> (r: bool)
    ensures
        r == spec_hidden(s@),
{
    let t = s.as_str();
    t.unicode_len() > 0 && t.get_char(0) == '.'
}

/// The position of the first occurrence of `c` in `s`, if any.
pub open spec fn spec_find(s: Seq<char>, c: char) -> Option<int>
    decreases s.len(),
{
    if s.len() == 0 {
        None
    } else if s[0] == c {
        Some(0int)
    } else {
        match spec_find(s.drop_first(), c) {
            None => None,
            Some(i) => Some(i + 1),
        }
    }
}

proof fn lemma_find_hit(s: Seq<char>, c: char, i: int)
    requires
        0 <= i < s.len(),
        s[i] == c,
        forall|j: int| 0 <= j < i ==> s[j] != c,
    ensures
        spec_find(s, c) == Some(i),
    decreases i,
{
    if i == 0 {
    } else {
        assert(forall|j: int| 0 <= j < i - 1 ==> s.drop_first()[j] != c);
        lemma_find_hit(s.drop_first(), c, i - 1);
    }
}

proof fn lemma_find_miss(s: Seq<char>, c: char)
    requires
        forall|j: int| 0 <= j < s.len() ==> s[j] != c,
    ensures
        spec_find(s, c) is None,
    decreases s.len(),
{
    if s.len() > 0 {
        lemma_find_miss(s.drop_first(), c);
    }
}

/// Finds the first occurrence of `c` in `s`.
pub fn find_char(s: &str, c: char) -> (r: Option<usize>)
    ensures
        match r {
            Some(i) => i < s@.len() && s@[i as int] == c && spec_find(s@, c) == Some(i as int),
            None => spec_find(s@, c) is None,
        },
{
    let n = s.unicode_len();
    let mut i: usize = 0;
    while i < n
        invariant
            i <= n,
            n == s@.len(),
            forall|j: int| 0 <= j < i ==> s@[j] != c,
        decreases n - i,
    {
        if s.get_char(i) == c {
            proof {
                lemma_find_hit(s@, c, i as int);
            }
            return Some(i);
        }
        i += 1;
    }
    proof {
        lemma_find_miss(s@, c);
    }
    None
}

/// Splitting on a separator: every separator ends a part, and the parts
/// carry no separator themselves. The result always has one more part
/// than there are separators; empty parts are kept.
pub open spec fn spec_split(s: Seq<char>, sep: char) -> Seq<Seq<char>>
    decreases s.len(),
{
    if s.len() == 0 {
        seq![Seq::<char>::empty()]
    } else {
        let r = spec_split(s.drop_last(), sep);
        if s.last() == sep {
            r.push(Seq::empty())
        } else {
            r.update(r.len() - 1, r.last().push(s.last()))
        }
    }
}

pub proof fn lemma_split_len(s: Seq<char>, sep: char)
    ensures
        spec_split(s, sep).len() >= 1,
    decreases s.len(),
{
    if s.len() > 0 {
        lemma_split_len(s.drop_last(), sep);
    }
}

/// Splits `s` on `sep`, keeping empty parts.
pub fn split_string(s: &str, sep: char) -> (r: Vec<String>)
    ensures
        r.deep_view() == spec_split(s@, sep),
{
    let n = s.unicode_len();
    let mut acc: Vec<String> = Vec::new();
    let mut cur: String = String::new();
    let mut i: usize = 0;
    while i < n
        invariant
            i <= n,
            n == s@.len(),
            acc.deep_view().push(cur@) =~= spec_split(s@.take(i as int), sep),
        decreases n - i,
    {
        let c = s.get_char(i);
        proof {
            assert(s@.take(i + 1).drop_last() =~= s@.take(i as int));
            assert(s@.take(i + 1).last() == s@[i as int]);
            lemma_split_len(s@.take(i as int), sep);
        }
        if c == sep {
            acc.push(cur);
            cur = String::new();
            proof {
                assert(acc.deep_view().push(cur@) =~= spec_split(s@.take(i + 1), sep));
            }
        } else {
            push_char(&mut cur, c);
            proof {
                let prev = spec_split(s@.take(i as int), sep);
                assert(prev.last() == cur@.drop_last());
                assert(acc.deep_view().push(cur@) =~= prev.update(
                    prev.len() - 1,
                    prev.last().push(c),
                ));
            }
        }
        i += 1;
    }
    proof {
        assert(s@.take(n as int) =~= s@);
    }
    acc.push(cur);
    acc
}

/// Keeps the non-empty parts, in order.
pub open spec fn spec_nonempty(parts: Seq<Seq<char>>) -> Seq<Seq<char>>
    decreases parts.len(),
{
    if parts.len() == 0 {
        Seq::empty()
    } else {
        let r = spec_nonempty(parts.drop_last());
        if parts.last().len() > 0 {
            r.push(parts.last())
        } else {
            r
        }
    }
}

/// Splitting on a separator and discarding empty parts.
pub open spec fn spec_split_nonempty(s: Seq<char>, sep: char) -> Seq<Seq<char>> {
    spec_nonempty(spec_split(s, sep))
}

/// Splits `s` on `sep` and drops the empty parts.
pub fn split_nonempty(s: &str, sep: char) -> (r: Vec<String>)
    ensures
        r.deep_view() == spec_split_nonempty(s@, sep),
{
    let parts = split_string(s, sep);
    let mut out: Vec<String> = Vec::new();
    let mut i: usize = 0;
    let n = parts.len();
    while i < n
        invariant
            i <= n,
            n == parts.deep_view().len(),
            parts.deep_view() == spec_split(s@, sep),
            out.deep_view() =~= spec_nonempty(parts.deep_view().take(i as int)),
        decreases n - i,
    {
        proof {
            assert(parts.deep_view().take(i + 1).drop_last() =~= parts.deep_view().take(
                i as int,
            ));
            assert(parts.deep_view().take(i + 1).last() == parts.deep_view()[i as int]);
        }
        let part = parts[i].clone();
        assert(part@ == parts.deep_view()[i as int]);
        if !part.as_str().is_empty() {
            out.push(part);
        }
        i += 1;
    }
    proof {
        assert(parts.deep_view().take(n as int) =~= parts.deep_view());
    }
    out
}

/// Appending one path component: exactly one `/` separates the two parts.
pub open spec fn spec_join_seg(p: Seq<char>, seg: Seq<char>) -> Seq<char> {
    if p.len() > 0 && p.last() == '/' {
        p + seg
    } else {
        p.push('/') + seg
    }
}

/// A base path extended by a sequence of components.
pub open spec fn spec_join_path(base: Seq<char>, segs: Seq<Seq<char>>) -> Seq<char>
    decreases segs.len(),
{
    if segs.len() == 0 {
        base
    } else {
        spec_join_seg(spec_join_path(base, segs.drop_last()), segs.last())
    }
}

/// Appends one path component to `p`.
pub fn join_seg(p: &String, seg: &String) -> (r: String)
    ensures
        r@ == spec_join_seg(p@, seg@),
{
    let mut r = p.clone();
    let pstr = p.as_str();
    let n = pstr.unicode_len();
    if !(n > 0 && pstr.get_char(n - 1) == '/') {
        push_char(&mut r, '/');
    }
    r.append(seg.as_str());
    proof {
        if p@.len() > 0 && p@.last() == '/' {
            assert(r@ =~= spec_join_seg(p@, seg@));
        } else {
            assert(r@ =~= spec_join_seg(p@, seg@));
        }
    }
    r
}

/// The position of the last occurrence of `c` in `s`, if any.
pub open spec fn spec_rfind(s: Seq<char>, c: char) -> Option<int>
    decreases s.len(),
{
    if s.len() == 0 {
        None
    } else if s.last() == c {
        Some(s.len() - 1)
    } else {
        spec_rfind(s.drop_last(), c)
    }
}

proof fn lemma_rfind_hit(s: Seq<char>, c: char, i: int)
    requires
        0 <= i < s.len(),
        s[i] == c,
        forall|j: int| i < j < s.len() ==> s[j] != c,
    ensures
        spec_rfind(s, c) == Some(i),
    decreases s.len(),
{
    if i == s.len() - 1 {
    } else {
        assert(s.drop_last()[i] == c);
        lemma_rfind_hit(s.drop_last(), c, i);
    }
}

proof fn lemma_rfind_miss(s: Seq<char>, c: char)
    requires
        forall|j: int| 0 <= j < s.len() ==> s[j] != c,
    ensures
        spec_rfind(s, c) is None,
    decreases s.len(),
{
    if s.len() > 0 {
        lemma_rfind_miss(s.drop_last(), c);
    }
}

/// The enclosing directory of a path, textually: everything before the
/// last `/`, with `/` itself kept when the last `/` is the first
/// character. A path without `/`, and the bare root, have none.
pub open spec fn spec_parent(s: Seq<char>) -> Option<Seq<char>> {
    match spec_rfind(s, '/') {
        None => None,
        Some(j) => if j == 0 {
            if s.len() == 1 {
                None
            } else {
                Some(seq!['/'])
            }
        } else {
            Some(s.take(j))
        },
    }
}

/// Computes the enclosing directory of a path, as `spec_parent` says.
pub fn parent_of(s: &String) -> (r: Option<String>)
    ensures
        match r {
            Some(p) => spec_parent(s@) == Some(p@),
            None => spec_parent(s@) is None,
        },
{
    let sstr = s.as_str();
    let n = sstr.unicode_len();
    let mut i: usize = n;
    while i > 0
        invariant
            i <= n,
            n == s@.len(),
            sstr@ == s@,
            forall|j: int| i <= j < n ==> s@[j] != '/',
        decreases i,
    {
        if sstr.get_char(i - 1) == '/' {
            proof {
                lemma_rfind_hit(s@, '/', i - 1);
            }
            if i - 1 == 0 {
                if n == 1 {
                    return None;
                }
                let mut root = String::new();
                push_char(&mut root, '/');
                proof {
                    assert(root@ =~= seq!['/']);
                }
                return Some(root);
            }
            let pre = sstr.substring_char(0, i - 1);
            proof {
                assert(pre@ =~= s@.take(i - 1));
            }
            return Some(pre.to_owned());
        }
        i -= 1;
    }
    proof {
        lemma_rfind_miss(s@, '/');
    }
    None
}

/// Lower-cases an ASCII capital; any other character is unchanged.
pub open spec fn lower_char(c: char) -> char {
    if 65 <= c as u32 && c as u32 <= 90 {
        (((c as u32) + 32) as u8) as char
    } else {
        c
    }
}

pub open spec fn spec_lower(s: Seq<char>) -> Seq<char> {
    s.map_values(|c: char| lower_char(c))
}

fn lower_one(c: char) -> (r: char)
    ensures
        r == lower_char(c),
{
    let u = c as u32;
    if 65 <= u && u <= 90 {
        ((u + 32) as u8) as char
    } else {
        c
    }
}

/// Compares two strings up to ASCII case.
pub fn eq_ignore_case(a: &str, b: &str) -> (r: bool)
    ensures
        r == (spec_lower(a@) == spec_lower(b@)),
{
    let na = a.unicode_len();
    let nb = b.unicode_len();
    if na != nb {
        proof {
            assert(spec_lower(a@).len() != spec_lower(b@).len());
        }
        return false;
    }
    let mut i: usize = 0;
    while i < na
        invariant
            i <= na,
            na == a@.len(),
            na == b@.len(),
            forall|j: int| 0 <= j < i ==> lower_char(a@[j]) == lower_char(b@[j]),
        decreases na - i,
    {
        if lower_one(a.get_char(i)) != lower_one(b.get_char(i)) {
            proof {
                assert(spec_lower(a@)[i as int] != spec_lower(b@)[i as int]);
            }
            return false;
        }
        i += 1;
    }
    proof {
        assert(spec_lower(a@) =~= spec_lower(b@));
    }
    true
}

/// Whether `p` lies at or under the directory `base`: equal to it, or
/// extending it at a component boundary.
pub open spec fn spec_under(base: Seq<char>, p: Seq<char>) -> bool {
    p == base || (p.len() > base.len() && p.take(base.len() as int) == base && (p[base.len() as int]
        == '/' || (base.len() > 0 && base.last() == '/')))
}

/// Appending a path component never leaves the directory it starts in.
pub proof fn lemma_join_seg_preserves_under(base: Seq<char>, p: Seq<char>, seg: Seq<char>)
    requires
        spec_under(base, p),
    ensures
        spec_under(base, spec_join_seg(p, seg)),
{
    let p2 = spec_join_seg(p, seg);
    if p == base {
        if base.len() > 0 && base.last() == '/' {
            if seg.len() == 0 {
                assert(p2 =~= base);
            } else {
                assert(p2.take(base.len() as int) =~= base);
            }
        } else {
            assert(p2.take(base.len() as int) =~= base);
            assert(p2[base.len() as int] == '/');
        }
    } else {
        assert(p2.take(base.len() as int) =~= p.take(base.len() as int));
        assert(p2[base.len() as int] == p[base.len() as int]);
    }
}

/// A base path extended by any components still lies under the base.
pub proof fn lemma_join_path_under_base(base: Seq<char>, segs: Seq<Seq<char>>)
    ensures
        spec_under(base, spec_join_path(base, segs)),
    decreases segs.len(),
{
    if segs.len() > 0 {
        lemma_join_path_under_base(base, segs.drop_last());
        lemma_join_seg_preserves_under(base, spec_join_path(base, segs.drop_last()), segs.last());
    }
}

/// Tests whether `p` lies at or under `base`.
pub fn under_base(base: &String, p: &String) -> (r: bool)
    ensures
        r == spec_under(base@, p@),
{
    let bs = base.as_str();
    let ps = p.as_str();
    let nb = bs.unicode_len();
    let np = ps.unicode_len();
    if np < nb {
        return false;
    }
    let mut i: usize = 0;
    while i < nb
        invariant
            i <= nb,
            nb == base@.len(),
            np == p@.len(),
            nb <= np,
            bs@ == base@,
            ps@ == p@,
            forall|j: int| 0 <= j < i ==> p@[j] == base@[j],
        decreases nb - i,
    {
        if bs.get_char(i) != ps.get_char(i) {
            proof {
                if p@ == base@ {
                    assert(p@[i as int] == base@[i as int]);
                }
                if p@.take(nb as int) == base@ {
                    assert(p@.take(nb as int)[i as int] == base@[i as int]);
                }
            }
            return false;
        }
        i += 1;
    }
    if np == nb {
        proof {
            assert(p@ =~= base@);
        }
        return true;
    }
    proof {
        assert(p@.take(nb as int) =~= base@);
    }
    if ps.get_char(nb) == '/' {
        return true;
    }
    if nb > 0 && bs.get_char(nb - 1) == '/' {
        return true;
    }
    proof {
        assert(p@ != base@);
    }
    false
}

} // verus!

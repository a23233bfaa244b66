//! The pure naming rules of the store: a published version lives in a file
//! whose name is `<prefix><integer>`, and the latest version is the largest
//! integer among the directory entries that match that pattern.

use vstd::prelude::*;

verus! {

/// True of a byte that is an ASCII decimal digit.
pub open spec fn is_digit(b: u8) -> bool {
    48 <= b && b <= 57
}

/// Numeric value of one digit byte.
pub open spec fn digit_val(b: u8) -> int {
    b - 48
}

/// True when every byte of `s` is a decimal digit.
pub open spec fn all_digits(s: Seq<u8>) -> bool {
    forall|i: int| 0 <= i < s.len() ==> is_digit(#[trigger] s[i])
}

/// Numeric value of a digit string, most significant digit first.
pub open spec fn digits_value(s: Seq<u8>) -> int
    decreases s.len(),
{
    if s.len() == 0 {
        0
    } else {
        digits_value(s.drop_last()) * 10 + digit_val(s.last())
    }
}

/// The canonical decimal digits of `n`: no sign, no leading zero.
pub open spec fn spec_digits_of(n: int) -> Seq<u8>
    recommends
        0 <= n,
    decreases n,
{
    if n <= 9 {
        seq![(48 + n) as u8]
    } else {
        spec_digits_of(n / 10).push((48 + n % 10) as u8)
    }
}

/// The version number encoded by a file-name suffix, exactly as an unsigned
/// decimal parse accepts it: an optional leading `+`, then one or more
/// digits, with a value that fits in `usize`. Anything else is rejected.
pub open spec fn spec_parse_suffix(s: Seq<u8>) -> Option<int> {
    let d = if s.len() > 0 && s[0] == 43 {
        s.drop_first()
    } else {
        s
    };
    if d.len() > 0 && all_digits(d) && digits_value(d) <= usize::MAX {
        Some(digits_value(d))
    } else {
        None
    }
}

/// The version number a directory entry named `name` stands for in a store
/// with the given `prefix`, or `None` when the entry is unrelated.
pub open spec fn spec_parse_version(name: Seq<u8>, prefix: Seq<u8>) -> Option<int> {
    if prefix.len() <= name.len() && name.subrange(0, prefix.len() as int) == prefix {
        spec_parse_suffix(name.skip(prefix.len() as int))
    } else {
        None
    }
}

/// The latest version named by a directory listing: the maximum over all
/// entries that parse, and 0 when none does.
pub open spec fn spec_max_version(names: Seq<Seq<u8>>, prefix: Seq<u8>) -> int
    decreases names.len(),
{
    if names.len() == 0 {
        0
    } else {
        let rest = spec_max_version(names.drop_last(), prefix);
        match spec_parse_version(names.last(), prefix) {
            Some(v) => if v > rest {
                v
            } else {
                rest
            },
            None => rest,
        }
    }
}

/// The file name under which version `v` is published.
pub open spec fn spec_version_name(prefix: Seq<u8>, v: int) -> Seq<u8> {
    prefix + spec_digits_of(v)
}

/// `name` placed inside directory `dir`, with a separator unless `dir` is
/// empty or already ends in one.
pub open spec fn spec_join(dir: Seq<u8>, name: Seq<u8>) -> Seq<u8> {
    if dir.len() == 0 {
        name
    } else if dir.last() == 47 {
        dir + name
    } else {
        dir + seq![47u8] + name
    }
}

/// The full path of version `v` of a store.
pub open spec fn spec_version_path(dir: Seq<u8>, prefix: Seq<u8>, v: int) -> Seq<u8> {
    spec_join(dir, spec_version_name(prefix, v))
}

pub proof fn lemma_digits_value_nonneg(s: Seq<u8>)
    requires
        all_digits(s),
    ensures
        digits_value(s) >= 0,
    decreases s.len(),
{
    if s.len() > 0 {
        assert(is_digit(s[s.len() - 1]));
        lemma_digits_value_nonneg(s.drop_last());
    }
}

pub proof fn lemma_digits_of_wf(n: int)
    requires
        0 <= n,
    ensures
        all_digits(spec_digits_of(n)),
        spec_digits_of(n).len() >= 1,
        is_digit(spec_digits_of(n)[0]),
    decreases n,
{
    if n > 9 {
        lemma_digits_of_wf(n / 10);
        let s = spec_digits_of(n / 10);
        let t = s.push((48 + n % 10) as u8);
        assert forall|i: int| 0 <= i < t.len() implies is_digit(#[trigger] t[i]) by {
            if i < s.len() {
                assert(t[i] == s[i]);
            }
        }
    }
}

pub proof fn lemma_digits_of_value(n: int)
    requires
        0 <= n,
    ensures
        digits_value(spec_digits_of(n)) == n,
    decreases n,
{
    if n <= 9 {
        let s = seq![(48 + n) as u8];
        assert(s.drop_last() =~= Seq::<u8>::empty());
        assert(s.last() == (48 + n) as u8);
        assert(digits_value(s.drop_last()) == 0);
        assert(digit_val((48 + n) as u8) == n);
    } else {
        lemma_digits_of_value(n / 10);
        let s = spec_digits_of(n / 10);
        let t = s.push((48 + n % 10) as u8);
        assert(t.drop_last() =~= s);
        assert(t.last() == (48 + n % 10) as u8);
        assert(digits_value(t) == (n / 10) * 10 + n % 10);
    }
}

/// Appending further digits never lowers the value: the value of a digit
/// string bounds the value of each of its prefixes from above.
pub proof fn lemma_digits_value_prefix_le(s: Seq<u8>, i: int)
    requires
        all_digits(s),
        0 <= i <= s.len(),
    ensures
        digits_value(s.subrange(0, i)) <= digits_value(s),
    decreases s.len() - i,
{
    if i == s.len() {
        assert(s.subrange(0, i) =~= s);
    } else {
        let a = s.subrange(0, i);
        let b = s.subrange(0, i + 1);
        assert(b.drop_last() =~= a);
        assert(is_digit(b.last()));
        lemma_digits_value_nonneg(a);
        assert(digits_value(b) == digits_value(a) * 10 + digit_val(b.last()));
        lemma_digits_value_prefix_le(s, i + 1);
    }
}

/// An entry that does not match `<prefix><integer>` — wrong prefix, or a
/// suffix that is not an integer — never affects the latest version.
pub proof fn lemma_unmatched_name_ignored(names: Seq<Seq<u8>>, name: Seq<u8>, prefix: Seq<u8>)
    requires
        spec_parse_version(name, prefix) is None,
    ensures
        spec_max_version(names.push(name), prefix) == spec_max_version(names, prefix),
{
    assert(names.push(name).drop_last() =~= names);
    assert(names.push(name).last() == name);
}

/// A listing in which no entry matches names version 0: the state of a
/// freshly created store.
pub proof fn lemma_no_matching_names(names: Seq<Seq<u8>>, prefix: Seq<u8>)
    requires
        forall|i: int| 0 <= i < names.len() ==> spec_parse_version(#[trigger] names[i], prefix) is None,
    ensures
        spec_max_version(names, prefix) == 0,
    decreases names.len(),
{
    if names.len() > 0 {
        assert(spec_parse_version(names[names.len() - 1], prefix) is None);
        lemma_no_matching_names(names.drop_last(), prefix);
    }
}

/// Adding an entry that names version `v` drives the latest version to the
/// maximum of `v` and the old latest version.
pub proof fn lemma_matched_name_raises_max(
    names: Seq<Seq<u8>>,
    name: Seq<u8>,
    prefix: Seq<u8>,
    v: int,
)
    requires
        spec_parse_version(name, prefix) == Some(v),
    ensures
        spec_max_version(names.push(name), prefix) == if v > spec_max_version(names, prefix) {
            v
        } else {
            spec_max_version(names, prefix)
        },
{
    assert(names.push(name).drop_last() =~= names);
    assert(names.push(name).last() == name);
}

/// Round trip: the file name written for version `v` parses back to exactly
/// `v`, so a published version is always found again under its own number.
pub proof fn lemma_version_name_parses(prefix: Seq<u8>, v: int)
    requires
        0 <= v <= usize::MAX,
    ensures
        spec_parse_version(spec_version_name(prefix, v), prefix) == Some(v),
{
    lemma_digits_of_wf(v);
    lemma_digits_of_value(v);
    let name = spec_version_name(prefix, v);
    assert(name.subrange(0, prefix.len() as int) =~= prefix);
    assert(name.skip(prefix.len() as int) =~= spec_digits_of(v));
    assert(spec_digits_of(v)[0] != 43);
}

/// Distinct versions are published under distinct file names, so a version
/// file, once written, is never the target of a later publish.
pub proof fn lemma_version_names_distinct(prefix: Seq<u8>, v1: int, v2: int)
    requires
        0 <= v1 <= usize::MAX,
        0 <= v2 <= usize::MAX,
        v1 != v2,
    ensures
        spec_version_name(prefix, v1) != spec_version_name(prefix, v2),
{
    lemma_version_name_parses(prefix, v1);
    lemma_version_name_parses(prefix, v2);
}

/// Publishing the successor of the latest version `k` makes the latest
/// version exactly `k + 1`: the heart of the compare-and-swap guarantee.
pub proof fn lemma_publish_advances_latest(names: Seq<Seq<u8>>, prefix: Seq<u8>, k: int)
    requires
        spec_max_version(names, prefix) == k,
        0 <= k,
        k + 1 <= usize::MAX,
    ensures
        spec_max_version(names.push(spec_version_name(prefix, k + 1)), prefix) == k + 1,
{
    lemma_version_name_parses(prefix, k + 1);
    lemma_matched_name_raises_max(names, spec_version_name(prefix, k + 1), prefix, k + 1);
}

/// Appends every byte of `s` to `v`.
pub fn push_all(v: &mut Vec<u8>, s: &Vec<u8>)
    ensures
        final(v)@ == old(v)@ + s@,
{
    proof {
        assert(old(v)@ + s@.subrange(0, 0) =~= old(v)@);
    }
    let mut i: usize = 0;
    while i < s.len()
        invariant
            i <= s@.len(),
            v@ == old(v)@ + s@.subrange(0, i as int),
        decreases s@.len() - i,
    {
        v.push(s[i]);
        proof {
            assert(old(v)@ + s@.subrange(0, i + 1) =~= (old(v)@ + s@.subrange(0, i as int)).push(
                s@[i as int],
            ));
        }
        i += 1;
    }
    proof {
        assert(s@.subrange(0, s@.len() as int) =~= s@);
    }
}

/// The version number that the entry `name` stands for in a store whose
/// version files start with `prefix`, or `None` for an unrelated entry.
pub fn parse_version(name: &Vec<u8>, prefix: &Vec<u8>) -> (r: Option<usize>)
    ensures
        (match r {
            Some(v) => spec_parse_version(name@, prefix@) == Some(v as int),
            None => spec_parse_version(name@, prefix@) is None,
        }),
{
    if name.len() < prefix.len() {
        return None;
    }
    let plen = prefix.len();
    let mut i: usize = 0;
    while i < plen
        invariant
            i <= plen,
            plen == prefix@.len(),
            plen <= name@.len(),
            forall|j: int| 0 <= j < i ==> name@[j] == prefix@[j],
        decreases plen - i,
    {
        if name[i] != prefix[i] {
            proof {
                assert(name@.subrange(0, plen as int)[i as int] != prefix@[i as int]);
            }
            return None;
        }
        i += 1;
    }
    proof {
        assert(name@.subrange(0, plen as int) =~= prefix@);
    }
    let mut j: usize = plen;
    if j < name.len() && name[j] == 43 {
        j = j + 1;
    }
    proof {
        let s = name@.skip(plen as int);
        if plen < name@.len() && name@[plen as int] == 43 {
            assert(s[0] == 43);
            assert(s.drop_first() =~= name@.skip(plen + 1));
        } else {
            if s.len() > 0 {
                assert(s[0] == name@[plen as int]);
            }
        }
    }
    if j == name.len() {
        return None;
    }
    let mut value: usize = 0;
    let mut k: usize = j;
    while k < name.len()
        invariant
            j <= k <= name@.len(),
            j < name@.len(),
            plen == prefix@.len(),
            plen <= j <= plen + 1,
            name@.subrange(0, plen as int) == prefix@,
            name@.skip(j as int) == (if name@.skip(plen as int).len() > 0 && name@.skip(
                plen as int,
            )[0] == 43 {
                name@.skip(plen as int).drop_first()
            } else {
                name@.skip(plen as int)
            }),
            all_digits(name@.subrange(j as int, k as int)),
            value == digits_value(name@.subrange(j as int, k as int)),
        decreases name@.len() - k,
    {
        let b = name[k];
        if b < 48 || b > 57 {
            proof {
                assert(name@.skip(j as int)[k - j] == name@[k as int]);
            }
            return None;
        }
        let d0 = (b - 48) as usize;
        let next = match value.checked_mul(10) {
            Some(v10) => v10.checked_add(d0),
            None => None,
        };
        proof {
            assert(name@.subrange(j as int, k + 1).drop_last() =~= name@.subrange(
                j as int,
                k as int,
            ));
            assert(name@.subrange(j as int, k + 1).last() == name@[k as int]);
        }
        match next {
            Some(v) => {
                value = v;
            },
            None => {
                proof {
                    let d = name@.skip(j as int);
                    let pre = name@.subrange(j as int, k + 1);
                    assert(digits_value(pre) == value * 10 + digit_val(name@[k as int]));
                    assert(digits_value(pre) > usize::MAX);
                    if all_digits(d) {
                        assert(pre =~= d.subrange(0, k + 1 - j));
                        lemma_digits_value_prefix_le(d, k + 1 - j);
                    }
                }
                return None;
            },
        }
        k += 1;
    }
    proof {
        assert(name@.subrange(j as int, name@.len() as int) =~= name@.skip(j as int));
    }
    Some(value)
}

/// The latest version named by a directory listing, as `load` computes it:
/// the maximum over the entries that match `<prefix><integer>`, or 0.
pub fn latest_version_in(names: &Vec<Vec<u8>>, prefix: &Vec<u8>) -> (v: usize)
    ensures
        v as int == spec_max_version(names.deep_view(), prefix@),
{
    let mut best: usize = 0;
    let mut i: usize = 0;
    while i < names.len()
        invariant
            i <= names@.len(),
            best as int == spec_max_version(names.deep_view().take(i as int), prefix@),
        decreases names@.len() - i,
    {
        match parse_version(&names[i], prefix) {
            Some(v) => {
                if v > best {
                    best = v;
                }
            },
            None => {},
        }
        proof {
            let dv = names.deep_view();
            assert(dv.take(i + 1).drop_last() =~= dv.take(i as int));
            assert(dv.take(i + 1).last() == dv[i as int]);
            assert(dv[i as int] == names@[i as int]@);
        }
        i += 1;
    }
    proof {
        assert(names.deep_view().take(names@.len() as int) =~= names.deep_view());
    }
    best
}

/// The decimal digits of `n`, most significant first.
pub fn version_digits(n: usize) -> (r: Vec<u8>)
    ensures
        r@ == spec_digits_of(n as int),
    decreases n,
{
    if n <= 9 {
        let mut v: Vec<u8> = Vec::new();
        v.push(48 + n as u8);
        proof {
            assert(v@ =~= seq![(48 + n as int) as u8]);
        }
        v
    } else {
        let mut v = version_digits(n / 10);
        v.push(48 + (n % 10) as u8);
        v
    }
}

/// The file name under which version `v` is published.
pub fn version_name(prefix: &Vec<u8>, v: usize) -> (r: Vec<u8>)
    ensures
        r@ == spec_version_name(prefix@, v as int),
{
    let mut out: Vec<u8> = Vec::new();
    push_all(&mut out, prefix);
    let digits = version_digits(v);
    push_all(&mut out, &digits);
    proof {
        assert(out@ =~= prefix@ + spec_digits_of(v as int));
    }
    out
}

/// `name` placed inside directory `dir`.
pub fn join_path(dir: &Vec<u8>, name: &Vec<u8>) -> (r: Vec<u8>)
    ensures
        r@ == spec_join(dir@, name@),
{
    let mut out: Vec<u8> = Vec::new();
    push_all(&mut out, dir);
    if dir.len() > 0 && dir[dir.len() - 1] != 47 {
        out.push(47);
    }
    push_all(&mut out, name);
    proof {
        if dir@.len() == 0 {
            assert(out@ =~= name@);
        } else if dir@.last() == 47 {
            assert(out@ =~= dir@ + name@);
        } else {
            assert(out@ =~= dir@ + seq![47u8] + name@);
        }
    }
    out
}

/// Start of the path segment that ends at `end`: the index just after the
/// last separator strictly before `end`.
pub open spec fn spec_seg_start_at(p: Seq<u8>, end: int) -> int
    decreases end,
{
    if end <= 0 {
        0
    } else if p[end - 1] == 47 {
        end
    } else {
        spec_seg_start_at(p, end - 1)
    }
}

pub proof fn lemma_seg_start_at_bounds(p: Seq<u8>, end: int)
    requires
        0 <= end,
    ensures
        0 <= spec_seg_start_at(p, end) <= end,
    decreases end,
{
    if end > 0 && p[end - 1] != 47 {
        lemma_seg_start_at_bounds(p, end - 1);
    }
}

/// The final segment of the path `p[..end]`, skipping empty and `.`
/// segments, as a path's file name is found: `None` when nothing remains or
/// when the final segment is `..`.
pub open spec fn spec_file_name_upto(p: Seq<u8>, end: int) -> Option<Seq<u8>>
    decreases end,
    via file_name_upto_decreases
{
    if end <= 0 {
        None
    } else {
        let st = spec_seg_start_at(p, end);
        let seg = p.subrange(st, end);
        if seg.len() == 0 || seg == seq![46u8] {
            if st == 0 {
                None
            } else {
                spec_file_name_upto(p, st - 1)
            }
        } else if seg == seq![46u8, 46u8] {
            None
        } else {
            Some(seg)
        }
    }
}

#[via_fn]
proof fn file_name_upto_decreases(p: Seq<u8>, end: int) {
    if end > 0 {
        lemma_seg_start_at_bounds(p, end);
    }
}

/// The final meaningful segment of a path: what the store's file-name
/// prefix is derived from.
pub open spec fn spec_file_name(p: Seq<u8>) -> Option<Seq<u8>> {
    spec_file_name_upto(p, p.len() as int)
}

proof fn lemma_file_name_upto_meaningful(p: Seq<u8>, end: int)
    requires
        spec_file_name_upto(p, end) is Some,
    ensures
        ({
            let seg = spec_file_name_upto(p, end)->0;
            &&& seg.len() > 0
            &&& seg != seq![46u8]
            &&& seg != seq![46u8, 46u8]
        }),
    decreases end,
{
    if end > 0 {
        lemma_seg_start_at_bounds(p, end);
        let st = spec_seg_start_at(p, end);
        let seg0 = p.subrange(st, end);
        if (seg0.len() == 0 || seg0 == seq![46u8]) && st != 0 {
            lemma_file_name_upto_meaningful(p, st - 1);
        }
    }
}

/// What a file name can be: a path's final meaningful segment is never
/// empty, never the current directory and never the parent directory.
pub proof fn lemma_file_name_meaningful(p: Seq<u8>)
    requires
        spec_file_name(p) is Some,
    ensures
        ({
            let seg = spec_file_name(p)->0;
            &&& seg.len() > 0
            &&& seg != seq![46u8]
            &&& seg != seq![46u8, 46u8]
        }),
{
    lemma_file_name_upto_meaningful(p, p.len() as int);
}

/// The final meaningful segment of `p`, or `None` when `p` has none (an
/// empty path, a filesystem root, or a path that ends in `..`).
pub fn file_name_of(p: &Vec<u8>) -> (r: Option<Vec<u8>>)
    ensures
        (match r {
            Some(v) => spec_file_name(p@) == Some(v@),
            None => spec_file_name(p@) is None,
        }),
{
    let mut end: usize = p.len();
    loop
        invariant
            end <= p@.len(),
            spec_file_name_upto(p@, end as int) == spec_file_name(p@),
        decreases end,
    {
        if end == 0 {
            return None;
        }
        let mut st: usize = end;
        while st > 0 && p[st - 1] != 47
            invariant
                st <= end,
                end <= p@.len(),
                spec_seg_start_at(p@, end as int) == spec_seg_start_at(p@, st as int),
            decreases st,
        {
            st -= 1;
        }
        proof {
            assert(spec_seg_start_at(p@, end as int) == st as int);
        }
        let seglen = end - st;
        if seglen == 0 {
            end = st - 1;
        } else if seglen == 1 && p[st] == 46 {
            proof {
                assert(p@.subrange(st as int, end as int) =~= seq![46u8]);
            }
            if st == 0 {
                return None;
            }
            end = st - 1;
        } else if seglen == 2 && p[st] == 46 && p[st + 1] == 46 {
            proof {
                assert(p@.subrange(st as int, end as int) =~= seq![46u8, 46u8]);
            }
            return None;
        } else {
            proof {
                let seg = p@.subrange(st as int, end as int);
                assert(seg.len() == seglen);
                assert(seg != seq![46u8] && seg != seq![46u8, 46u8]) by {
                    if seg == seq![46u8] {
                        assert(seg[0] == 46);
                    }
                    if seg == seq![46u8, 46u8] {
                        assert(seg[0] == 46 && seg[1] == 46);
                    }
                }
            }
            let mut out: Vec<u8> = Vec::new();
            let mut i: usize = st;
            while i < end
                invariant
                    st <= i <= end,
                    end <= p@.len(),
                    out@ == p@.subrange(st as int, i as int),
                decreases end - i,
            {
                out.push(p[i]);
                proof {
                    assert(p@.subrange(st as int, i + 1) =~= p@.subrange(st as int, i as int).push(
                        p@[i as int],
                    ));
                }
                i += 1;
            }
            return Some(out);
        }
    }
}

} // verus!

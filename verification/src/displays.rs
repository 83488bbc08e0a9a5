//! Listing capture sources. On the platform that can enumerate devices,
//! the encoder's device listing is parsed out of its diagnostic output:
//! the lines naming video capture devices are kept, in order. Platforms
//! without enumeration support get a single generic placeholder entry.

use vstd::prelude::*;

verus! {

/// `p` occurs in `t` starting at position `i`.
pub open spec fn spec_contains_at(t: Seq<char>, p: Seq<char>, i: int) -> bool {
    &&& 0 <= i
    &&& i + p.len() <= t.len()
    &&& t.subrange(i, i + p.len()) == p
}

/// `p` occurs somewhere in `t`.
pub open spec fn spec_has_substring(t: Seq<char>, p: Seq<char>) -> bool {
    exists|i: int| spec_contains_at(t, p, i)
}

/// Substring search, character-exact.
pub fn contains_substring(t: &str, p: &str) -> (r: bool)
    ensures
        r == spec_has_substring(t@, p@),
{
    let tlen = t.unicode_len();
    let plen = p.unicode_len();
    if plen > tlen {
        return false;
    }
    if plen == 0 {
        proof {
            assert(t@.subrange(0, 0) =~= p@);
            assert(spec_contains_at(t@, p@, 0));
        }
        return true;
    }
    let mut i: usize = 0;
    while i <= tlen - plen
        invariant
            0 < plen <= tlen,
            i <= tlen - plen + 1,
            tlen as nat == t@.len(),
            plen as nat == p@.len(),
            forall|k: int| 0 <= k < i ==> !spec_contains_at(t@, p@, k),
        decreases tlen - plen - i + 1,
    {
        let mut j: usize = 0;
        let mut matched = true;
        while j < plen && matched
            invariant
                j <= plen,
                i + plen <= tlen,
                tlen as nat == t@.len(),
                plen as nat == p@.len(),
                matched ==> forall|l: int| 0 <= l < j ==> t@[i + l] == p@[l],
                !matched ==> !spec_contains_at(t@, p@, i as int),
            decreases plen - j,
        {
            if t.get_char(i + j) != p.get_char(j) {
                proof {
                    assert(t@.subrange(i as int, i + plen as int)[j as int] == t@[i + j]);
                }
                matched = false;
                j = plen;
            } else {
                j += 1;
            }
        }
        if matched {
            proof {
                assert(t@.subrange(i as int, i + plen as int) =~= p@);
                assert(spec_contains_at(t@, p@, i as int));
            }
            return true;
        }
        i += 1;
    }
    proof {
        assert forall|k: int| !spec_contains_at(t@, p@, k) by {
            if 0 <= k < i {
            } else if k >= i {
                assert(k + p@.len() > t@.len());
            }
        }
    }
    false
}

/// `s` split at line endings — a newline, or a carriage return directly
/// followed by one — one piece per line, in order, the ending itself
/// part of no piece. A carriage return not followed by a newline is
/// ordinary content. The text after the last ending is a piece even
/// when empty.
pub open spec fn spec_split_lines(s: Seq<char>) -> Seq<Seq<char>>
    decreases s.len(),
{
    if s.len() == 0 {
        seq![Seq::<char>::empty()]
    } else if s.last() == '\n' {
        let body = s.drop_last();
        let content = if body.len() > 0 && body.last() == '\r' {
            body.drop_last()
        } else {
            body
        };
        spec_split_lines(content).push(Seq::empty())
    } else {
        let rest = spec_split_lines(s.drop_last());
        rest.update(rest.len() - 1, rest.last().push(s.last()))
    }
}

/// The split is never empty, so its last piece is well defined.
proof fn lemma_split_lines_nonempty(s: Seq<char>)
    ensures
        spec_split_lines(s).len() >= 1,
    decreases s.len(),
{
    if s.len() > 0 {
        lemma_split_lines_nonempty(s.drop_last());
    }
}

/// Splits text into its lines.
pub fn split_lines(s: &str) -> (r: Vec<String>)
    ensures
        r.deep_view() == spec_split_lines(s@),
{
    let len = s.unicode_len();
    let mut out: Vec<String> = Vec::new();
    let mut cur = String::new();
    let mut i: usize = 0;
    while i < len
        invariant
            i <= len,
            len as nat == s@.len(),
            spec_split_lines(s@.subrange(0, i as int)).len() == out@.len() + 1,
            forall|j: int|
                0 <= j < out@.len() ==> out@[j]@ == spec_split_lines(s@.subrange(0, i as int))[j],
            cur@ == spec_split_lines(s@.subrange(0, i as int)).last(),
            (i > 0 && i < len && s@[i - 1] == '\r') ==> s@[i as int] != '\n',
        decreases len - i,
    {
        let c = s.get_char(i);
        proof {
            lemma_split_lines_nonempty(s@.subrange(0, i as int));
        }
        if c == '\r' && i + 1 < len && s.get_char(i + 1) == '\n' {
            proof {
                assert(s@.subrange(0, i + 2).drop_last() =~= s@.subrange(0, i + 1));
                assert(s@.subrange(0, i + 1).drop_last() =~= s@.subrange(0, i as int));
                assert(s@.subrange(0, i + 2).last() == '\n');
                assert(s@.subrange(0, i + 1).last() == '\r');
            }
            out.push(cur);
            cur = String::new();
            i += 2;
        } else if c == '\n' {
            proof {
                assert(s@.subrange(0, i + 1).drop_last() =~= s@.subrange(0, i as int));
                assert(s@.subrange(0, i + 1).last() == '\n');
                if i > 0 {
                    assert(s@.subrange(0, i as int).last() == s@[i - 1]);
                }
            }
            out.push(cur);
            cur = String::new();
            i += 1;
        } else {
            let piece = s.substring_char(i, i + 1);
            cur.append(piece);
            proof {
                assert(s@.subrange(0, i + 1).drop_last() =~= s@.subrange(0, i as int));
                assert(s@.subrange(0, i + 1).last() == s@[i as int]);
                assert(cur@ =~= spec_split_lines(s@.subrange(0, i + 1)).last());
            }
            i += 1;
        }
    }
    proof {
        assert(s@.subrange(0, len as int) =~= s@);
    }
    out.push(cur);
    proof {
        assert forall|j: int|
            0 <= j < out.deep_view().len() implies out.deep_view()[j] == spec_split_lines(s@)[j] by {
            assert(out.deep_view()[j] == out@[j]@);
        }
        lemma_split_lines_nonempty(s@);
        assert(out.deep_view() =~= spec_split_lines(s@));
    }
    out
}

/// The lines of `ls` in which `pat` occurs, in order.
pub open spec fn spec_matching_lines(ls: Seq<Seq<char>>, pat: Seq<char>) -> Seq<Seq<char>>
    decreases ls.len(),
{
    if ls.len() == 0 {
        Seq::empty()
    } else {
        spec_matching_lines(ls.drop_last(), pat) + (if spec_has_substring(ls.last(), pat) {
            seq![ls.last()]
        } else {
            Seq::<Seq<char>>::empty()
        })
    }
}

/// The device-listing marker in the encoder's diagnostic output.
pub open spec fn spec_device_marker() -> Seq<char> {
    "AVFoundation video devices"@
}

/// Parses the encoder's device-listing output: keeps, in order, exactly
/// the lines that name video capture devices.
pub fn filter_device_lines(text: &str) -> (r: Vec<String>)
    ensures
        r.deep_view() == spec_matching_lines(spec_split_lines(text@), spec_device_marker()),
{
    let lines = split_lines(text);
    let mut out: Vec<String> = Vec::new();
    let mut i: usize = 0;
    while i < lines.len()
        invariant
            i <= lines@.len(),
            lines.deep_view() == spec_split_lines(text@),
            lines.deep_view().len() == lines@.len(),
            out.deep_view() == spec_matching_lines(
                lines.deep_view().subrange(0, i as int),
                spec_device_marker(),
            ),
        decreases lines@.len() - i,
    {
        let ghost dv_old = out.deep_view();
        let ghost ov_old = out@;
        proof {
            assert(lines.deep_view().subrange(0, (i + 1) as int).drop_last() =~= lines.deep_view()
                .subrange(0, i as int));
            assert(lines.deep_view().subrange(0, (i + 1) as int).last() == lines@[i as int]@);
        }
        if contains_substring(lines[i].as_str(), "AVFoundation video devices") {
            out.push(lines[i].clone());
            proof {
                assert forall|j: int|
                    0 <= j < out.deep_view().len() implies out.deep_view()[j] == dv_old.push(
                    lines@[i as int]@,
                )[j] by {
                    assert(out.deep_view()[j] == out@[j]@);
                    if j < ov_old.len() {
                        assert(out@[j] == ov_old[j]);
                        assert(dv_old[j] == ov_old[j]@);
                    }
                }
                assert(out.deep_view() =~= dv_old.push(lines@[i as int]@));
                assert(out.deep_view() =~= spec_matching_lines(
                    lines.deep_view().subrange(0, (i + 1) as int),
                    spec_device_marker(),
                ));
            }
        } else {
            proof {
                assert(out.deep_view() =~= spec_matching_lines(
                    lines.deep_view().subrange(0, (i + 1) as int),
                    spec_device_marker(),
                ));
            }
        }
        i += 1;
    }
    proof {
        assert(lines.deep_view().subrange(0, lines@.len() as int) =~= lines.deep_view());
    }
    out
}

/// The placeholder listing for platforms without device enumeration.
pub fn fallback_displays() -> (r: Vec<String>)
    ensures
        r.deep_view() == seq!["Primary Display"@],
{
    let mut v: Vec<String> = Vec::new();
    v.push(String::from_str("Primary Display"));
    proof {
        assert(v.deep_view() =~~= seq!["Primary Display"@]);
    }
    v
}

} // verus!

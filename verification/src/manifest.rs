//! The concat manifest: one line per trimmed intermediate file, in
//! order, `file '<path>'` with embedded single quotes escaped, lines
//! separated by newlines and nothing after the last. Also the naming of
//! the trimmed intermediates inside the temporary working directory.

use vstd::prelude::*;
use crate::text::{spec_dec, u64_to_string};

verus! {

/// How one character of a path appears inside the manifest's single
/// quotes: a quote is written as quote, backslash, quote, quote; any
/// other character stands as itself.
pub open spec fn esc_char(c: char) -> Seq<char> {
    if c == '\'' {
        seq!['\'', '\\', '\'', '\'']
    } else {
        seq![c]
    }
}

/// A path escaped for the manifest format, character by character.
pub open spec fn spec_escape(s: Seq<char>) -> Seq<char>
    decreases s.len(),
{
    if s.len() == 0 {
        Seq::empty()
    } else {
        esc_char(s[0]) + spec_escape(s.drop_first())
    }
}

proof fn lemma_escape_push(s: Seq<char>, c: char)
    ensures
        spec_escape(s.push(c)) == spec_escape(s) + esc_char(c),
    decreases s.len(),
{
    if s.len() == 0 {
        assert(s.push(c)[0] == c);
        assert(s.push(c).drop_first() =~= Seq::<char>::empty());
        assert(spec_escape(s.push(c)) == esc_char(c) + spec_escape(Seq::<char>::empty()));
        assert(spec_escape(s.push(c)) =~= spec_escape(s) + esc_char(c));
    } else {
        lemma_escape_push(s.drop_first(), c);
        assert(s.push(c)[0] == s[0]);
        assert(s.push(c).drop_first() =~= s.drop_first().push(c));
        assert(spec_escape(s.push(c)) == esc_char(s[0]) + (spec_escape(s.drop_first())
            + esc_char(c)));
        assert(spec_escape(s.push(c)) =~= spec_escape(s) + esc_char(c));
    }
}

/// Escapes a path for use inside the manifest's quotes.
pub fn escape_concat_path(p: &str) -> (r: String)
    ensures
        r@ == spec_escape(p@),
{
    let len = p.unicode_len();
    let mut out = String::new();
    let mut i: usize = 0;
    while i < len
        invariant
            i <= len,
            len as nat == p@.len(),
            out@ == spec_escape(p@.subrange(0, i as int)),
        decreases len - i,
    {
        let c = p.get_char(i);
        if c == '\'' {
            out.append("'\\''");
            proof {
                reveal_strlit("'\\''");
                assert("'\\''"@ =~= esc_char(p@[i as int]));
            }
        } else {
            let piece = p.substring_char(i, i + 1);
            out.append(piece);
            proof {
                assert(piece@ =~= esc_char(p@[i as int]));
            }
        }
        proof {
            lemma_escape_push(p@.subrange(0, i as int), p@[i as int]);
            assert(p@.subrange(0, i + 1 as int) =~= p@.subrange(0, i as int).push(p@[i as int]));
        }
        i += 1;
    }
    proof {
        assert(p@.subrange(0, len as int) =~= p@);
    }
    out
}

/// One manifest line for the file at `p`.
pub open spec fn spec_manifest_line(p: Seq<char>) -> Seq<char> {
    "file '"@ + spec_escape(p) + "'"@
}

pub fn manifest_line(p: &str) -> (r: String)
    ensures
        r@ == spec_manifest_line(p@),
{
    let mut s = String::from_str("file '");
    let escaped = escape_concat_path(p);
    s.append(escaped.as_str());
    s.append("'");
    s
}

/// The whole manifest: the lines for `paths` in order, joined by
/// newlines, with no trailing newline.
pub open spec fn spec_manifest(paths: Seq<Seq<char>>) -> Seq<char>
    decreases paths.len(),
{
    if paths.len() == 0 {
        Seq::empty()
    } else if paths.len() == 1 {
        spec_manifest_line(paths[0])
    } else {
        spec_manifest(paths.drop_last()) + "\n"@ + spec_manifest_line(paths.last())
    }
}

pub fn build_manifest(paths: &Vec<String>) -> (r: String)
    ensures
        r@ == spec_manifest(paths.deep_view()),
{
    let mut out = String::new();
    let mut i: usize = 0;
    while i < paths.len()
        invariant
            i <= paths.len(),
            paths.deep_view().len() == paths@.len(),
            out@ == spec_manifest(paths.deep_view().subrange(0, i as int)),
        decreases paths.len() - i,
    {
        if i > 0 {
            out.append("\n");
        }
        let line = manifest_line(paths[i].as_str());
        out.append(line.as_str());
        proof {
            let dv = paths.deep_view();
            assert(dv.subrange(0, i + 1 as int).drop_last() =~= dv.subrange(0, i as int));
            assert(dv.subrange(0, i + 1 as int).last() == dv[i as int]);
        }
        i += 1;
    }
    proof {
        assert(paths.deep_view().subrange(0, paths@.len() as int) =~= paths.deep_view());
    }
    out
}

/// The path of the i-th trimmed intermediate inside the working
/// directory.
pub open spec fn spec_trim_path(dir: Seq<char>, i: nat) -> Seq<char> {
    dir + "/trimmed_"@ + spec_dec(i) + ".mp4"@
}

pub fn trim_path(dir: &str, i: u64) -> (r: String)
    ensures
        r@ == spec_trim_path(dir@, i as nat),
{
    let mut s = String::from_str(dir);
    s.append("/trimmed_");
    let num = u64_to_string(i);
    s.append(num.as_str());
    s.append(".mp4");
    s
}

/// The paths of the first `n` trimmed intermediates, in order.
pub fn trim_paths(dir: &str, n: usize) -> (r: Vec<String>)
    ensures
        r.deep_view() == Seq::new(n as nat, |i: int| spec_trim_path(dir@, i as nat)),
{
    let mut r: Vec<String> = Vec::new();
    let mut i: usize = 0;
    while i < n
        invariant
            i <= n,
            r@.len() == i as nat,
            forall|j: int| 0 <= j < i ==> r@[j]@ == spec_trim_path(dir@, j as nat),
        decreases n - i,
    {
        r.push(trim_path(dir, i as u64));
        i += 1;
    }
    proof {
        assert forall|j: int| 0 <= j < n implies r.deep_view()[j] == spec_trim_path(
            dir@,
            j as nat,
        ) by {
            assert(r.deep_view()[j] == r@[j]@);
        }
        assert(r.deep_view() =~= Seq::new(n as nat, |i: int| spec_trim_path(dir@, i as nat)));
    }
    r
}

/// The path of the concat manifest inside the working directory.
pub open spec fn spec_manifest_path(dir: Seq<char>) -> Seq<char> {
    dir + "/concat_list.txt"@
}

pub fn manifest_path(dir: &str) -> (r: String)
    ensures
        r@ == spec_manifest_path(dir@),
{
    let mut s = String::from_str(dir);
    s.append("/concat_list.txt");
    s
}

} // verus!

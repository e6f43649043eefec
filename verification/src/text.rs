//! Verified string primitives: equality, substring search, trimming,
//! comma-joining, and the platform escape applied to the instruction text.

use vstd::prelude::*;

verus! {

// ---------------------------------------------------------------------------
// Equality, prefixes and substrings
// ---------------------------------------------------------------------------

/// `p` is a prefix of `s`.
pub open spec fn starts_with_seq(s: Seq<char>, p: Seq<char>) -> bool {
    p.len() <= s.len() && s.subrange(0, p.len() as int) == p
}

/// `n` occurs somewhere inside `h`.
pub open spec fn contains_seq(h: Seq<char>, n: Seq<char>) -> bool {
    exists|i: int|
        0 <= i <= h.len() - n.len() && #[trigger] h.subrange(i, i + n.len() as int) == n
}

/// Whether `n` occurs in `h` starting exactly at position `i`.
fn match_at(h: &str, n: &str, i: usize) -> (r: bool)
    requires
        i + n@.len() <= h@.len(),
    ensures
        r == (h@.subrange(i as int, i as int + n@.len() as int) == n@),
{
    let hn = h.unicode_len();
    let nn = n.unicode_len();
    let mut j: usize = 0;
    while j < nn
        invariant
            j <= nn,
            nn == n@.len(),
            hn == h@.len(),
            i + nn <= hn,
            forall|k: int| 0 <= k < j ==> h@[i + k] == n@[k],
        decreases nn - j,
    {
        if h.get_char(i + j) != n.get_char(j) {
            assert(h@.subrange(i as int, i as int + nn as int)[j as int] != n@[j as int]);
            return false;
        }
        j += 1;
    }
    assert(h@.subrange(i as int, i as int + nn as int) =~= n@);
    true
}

/// Character-for-character string equality.
pub fn str_eq(a: &str, b: &str) -> (r: bool)
    ensures
        r == (a@ == b@),
{
    let an = a.unicode_len();
    let bn = b.unicode_len();
    if an != bn {
        return false;
    }
    let r = match_at(a, b, 0);
    proof {
        assert(a@.subrange(0, an as int) =~= a@);
    }
    r
}

/// Whether `p` is a prefix of `s`.
pub fn starts_with_str(s: &str, p: &str) -> (r: bool)
    ensures
        r == starts_with_seq(s@, p@),
{
    if p.unicode_len() > s.unicode_len() {
        return false;
    }
    match_at(s, p, 0)
}

/// Whether `n` occurs anywhere inside `h`.
pub fn contains_substr(h: &str, n: &str) -> (r: bool)
    ensures
        r == contains_seq(h@, n@),
{
    let hn = h.unicode_len();
    let nn = n.unicode_len();
    if nn > hn {
        return false;
    }
    if nn == 0 {
        proof {
            assert(h@.subrange(0, 0 + n@.len() as int) =~= n@);
        }
        return true;
    }
    let mut i: usize = 0;
    while i <= hn - nn
        invariant
            0 < nn <= hn,
            hn == h@.len(),
            nn == n@.len(),
            i <= hn - nn + 1,
            forall|k: int| 0 <= k < i ==> #[trigger] h@.subrange(k, k + n@.len() as int) != n@,
        decreases hn - nn - i + 1,
    {
        if match_at(h, n, i) {
            return true;
        }
        i += 1;
    }
    false
}

// ---------------------------------------------------------------------------
// Trimming
// ---------------------------------------------------------------------------

/// The characters stripped from line ends: ASCII whitespace.
pub open spec fn is_ws(c: char) -> bool {
    c == ' ' || c == '\t' || c == '\n' || c == '\r' || c == '\u{c}'
}

/// `s` without its leading whitespace.
pub open spec fn trim_front_spec(s: Seq<char>) -> Seq<char>
    decreases s.len(),
{
    if s.len() == 0 {
        s
    } else if is_ws(s[0]) {
        trim_front_spec(s.drop_first())
    } else {
        s
    }
}

/// `s` without its trailing whitespace.
pub open spec fn trim_back_spec(s: Seq<char>) -> Seq<char>
    decreases s.len(),
{
    if s.len() == 0 {
        s
    } else if is_ws(s.last()) {
        trim_back_spec(s.drop_last())
    } else {
        s
    }
}

/// `s` without surrounding whitespace.
pub open spec fn trim_spec(s: Seq<char>) -> Seq<char> {
    trim_back_spec(trim_front_spec(s))
}

fn is_ws_char(c: char) -> (r: bool)
    ensures
        r == is_ws(c),
{
    c == ' ' || c == '\t' || c == '\n' || c == '\r' || c == '\u{c}'
}

/// A copy of `s` with surrounding whitespace removed.
pub fn trim_str(s: &str) -> (r: String)
    ensures
        r@ == trim_spec(s@),
{
    let n = s.unicode_len();
    proof {
        assert(s@.skip(0) =~= s@);
    }
    let mut i: usize = 0;
    while i < n && is_ws_char(s.get_char(i))
        invariant
            i <= n,
            n == s@.len(),
            trim_front_spec(s@) == trim_front_spec(s@.skip(i as int)),
        decreases n - i,
    {
        proof {
            assert(s@.skip(i as int).drop_first() =~= s@.skip(i + 1));
        }
        i += 1;
    }
    proof {
        assert(trim_front_spec(s@) =~= s@.skip(i as int));
        assert(s@.skip(i as int) =~= s@.subrange(i as int, n as int));
    }
    let mut j: usize = n;
    while j > i && is_ws_char(s.get_char(j - 1))
        invariant
            i <= j <= n,
            n == s@.len(),
            trim_front_spec(s@) == s@.subrange(i as int, n as int),
            trim_spec(s@) == trim_back_spec(s@.subrange(i as int, j as int)),
        decreases j,
    {
        proof {
            assert(s@.subrange(i as int, j as int).drop_last() =~= s@.subrange(
                i as int,
                j - 1,
            ));
            assert(s@.subrange(i as int, j as int).last() == s@[j - 1]);
        }
        j -= 1;
    }
    proof {
        assert(trim_spec(s@) =~= s@.subrange(i as int, j as int));
    }
    let t = s.substring_char(i, j);
    String::from_str(t)
}

// ---------------------------------------------------------------------------
// Comma-joining
// ---------------------------------------------------------------------------

/// The elements of `v` joined with a single comma between neighbours.
pub open spec fn join_comma_spec(v: Seq<Seq<char>>) -> Seq<char>
    decreases v.len(),
{
    if v.len() == 0 {
        Seq::empty()
    } else if v.len() == 1 {
        v[0]
    } else {
        join_comma_spec(v.drop_last()) + ","@ + v.last()
    }
}

/// Joins the strings of `v` into one comma-separated string.
pub fn join_comma(v: &Vec<String>) -> (r: String)
    ensures
        r@ == join_comma_spec(v.deep_view()),
{
    let mut out = String::new();
    let mut i: usize = 0;
    while i < v.len()
        invariant
            i <= v.len(),
            out@ == join_comma_spec(v.deep_view().subrange(0, i as int)),
        decreases v.len() - i,
    {
        if i > 0 {
            out.append(",");
        }
        out.append(v[i].as_str());
        proof {
            let dv = v.deep_view();
            assert(dv.subrange(0, i + 1).drop_last() =~= dv.subrange(0, i as int));
            assert(dv.subrange(0, i + 1).last() == dv[i as int]);
            assert(dv[i as int] == v[i as int]@);
        }
        i += 1;
    }
    proof {
        assert(v.deep_view().subrange(0, v.len() as int) =~= v.deep_view());
    }
    out
}

// ---------------------------------------------------------------------------
// The platform escape for the instruction text
// ---------------------------------------------------------------------------

/// Characters that the platform escape rewrites into a backslash pair.
pub open spec fn is_escaped_char(c: char) -> bool {
    c == '\\' || c == '"' || c == '\n' || c == '\r' || c == '\t' || c == '\u{8}' || c == '\u{c}'
        || c == '\''
}

/// The escape of a single character.
pub open spec fn escape_char_spec(c: char) -> Seq<char> {
    if c == '\\' {
        seq!['\\', '\\']
    } else if c == '"' {
        seq!['\\', '"']
    } else if c == '\n' {
        seq!['\\', 'n']
    } else if c == '\r' {
        seq!['\\', 'r']
    } else if c == '\t' {
        seq!['\\', 't']
    } else if c == '\u{8}' {
        seq!['\\', 'b']
    } else if c == '\u{c}' {
        seq!['\\', 'f']
    } else if c == '\'' {
        seq!['\\', '\'']
    } else {
        seq![c]
    }
}

/// The escape of a whole string, character by character.
pub open spec fn escape_spec(s: Seq<char>) -> Seq<char>
    decreases s.len(),
{
    if s.len() == 0 {
        Seq::empty()
    } else {
        escape_spec(s.drop_last()) + escape_char_spec(s.last())
    }
}

/// Whether `s` holds at least one character that the escape rewrites.
pub open spec fn has_escaped_char(s: Seq<char>) -> bool {
    exists|i: int| 0 <= i < s.len() && is_escaped_char(s[i])
}

/// Escape special characters in the instruction text for the platform whose
/// argument parsing requires it, so that control characters, quotes and
/// backslashes round-trip through that parser unchanged.
pub fn windows_escape(prompt: &str) -> (r: String)
    ensures
        r@ == escape_spec(prompt@),
{
    let n = prompt.unicode_len();
    let mut out = String::new();
    let mut i: usize = 0;
    while i < n
        invariant
            i <= n,
            n == prompt@.len(),
            out@ == escape_spec(prompt@.subrange(0, i as int)),
        decreases n - i,
    {
        let c = prompt.get_char(i);
        if c == '\\' {
            proof {
                reveal_strlit("\\\\");
                assert("\\\\"@ =~= escape_char_spec(c));
            }
            out.append("\\\\");
        } else if c == '"' {
            proof {
                reveal_strlit("\\\"");
                assert("\\\""@ =~= escape_char_spec(c));
            }
            out.append("\\\"");
        } else if c == '\n' {
            proof {
                reveal_strlit("\\n");
                assert("\\n"@ =~= escape_char_spec(c));
            }
            out.append("\\n");
        } else if c == '\r' {
            proof {
                reveal_strlit("\\r");
                assert("\\r"@ =~= escape_char_spec(c));
            }
            out.append("\\r");
        } else if c == '\t' {
            proof {
                reveal_strlit("\\t");
                assert("\\t"@ =~= escape_char_spec(c));
            }
            out.append("\\t");
        } else if c == '\u{8}' {
            proof {
                reveal_strlit("\\b");
                assert("\\b"@ =~= escape_char_spec(c));
            }
            out.append("\\b");
        } else if c == '\u{c}' {
            proof {
                reveal_strlit("\\f");
                assert("\\f"@ =~= escape_char_spec(c));
            }
            out.append("\\f");
        } else if c == '\'' {
            proof {
                reveal_strlit("\\'");
                assert("\\'"@ =~= escape_char_spec(c));
            }
            out.append("\\'");
        } else {
            let one = prompt.substring_char(i, i + 1);
            proof {
                assert(one@ =~= escape_char_spec(c));
            }
            out.append(one);
        }
        proof {
            assert(prompt@.subrange(0, i + 1).drop_last() =~= prompt@.subrange(0, i as int));
            assert(prompt@.subrange(0, i + 1).last() == c);
        }
        i += 1;
    }
    proof {
        assert(prompt@.subrange(0, n as int) =~= prompt@);
    }
    out
}

/// The escape never shortens a string.
proof fn lemma_escape_len(s: Seq<char>)
    ensures
        escape_spec(s).len() >= s.len(),
    decreases s.len(),
{
    if s.len() > 0 {
        lemma_escape_len(s.drop_last());
    }
}

/// On a string with an escapable character, the escape strictly lengthens.
proof fn lemma_escape_longer(s: Seq<char>)
    requires
        has_escaped_char(s),
    ensures
        escape_spec(s).len() > s.len(),
    decreases s.len(),
{
    let i = choose|i: int| 0 <= i < s.len() && is_escaped_char(s[i]);
    lemma_escape_len(s.drop_last());
    if i < s.len() - 1 {
        assert(s.drop_last()[i] == s[i]);
        lemma_escape_longer(s.drop_last());
    } else {
        assert(escape_char_spec(s.last()).len() == 2);
    }
}

/// The escape of a string with an escapable character itself holds a
/// backslash, which is again escapable.
proof fn lemma_escape_keeps_escaped_char(s: Seq<char>)
    requires
        has_escaped_char(s),
    ensures
        has_escaped_char(escape_spec(s)),
    decreases s.len(),
{
    let i = choose|i: int| 0 <= i < s.len() && is_escaped_char(s[i]);
    if i < s.len() - 1 {
        assert(s.drop_last()[i] == s[i]);
        lemma_escape_keeps_escaped_char(s.drop_last());
        let j = choose|j: int|
            0 <= j < escape_spec(s.drop_last()).len() && is_escaped_char(
                escape_spec(s.drop_last())[j],
            );
        assert(escape_spec(s)[j] == escape_spec(s.drop_last())[j]);
    } else {
        let pre = escape_spec(s.drop_last());
        assert(escape_char_spec(s.last())[0] == '\\');
        assert(escape_spec(s)[pre.len() as int] == '\\');
    }
}

/// Escaping is not involutive: on any string with at least one escapable
/// character, escaping twice differs from escaping once.  (On a string with
/// none, the escape returns it unchanged, so the premise cannot be dropped.)
pub proof fn lemma_escape_not_involutive(s: Seq<char>)
    requires
        has_escaped_char(s),
    ensures
        escape_spec(escape_spec(s)) != escape_spec(s),
{
    lemma_escape_keeps_escaped_char(s);
    lemma_escape_longer(escape_spec(s));
}

} // verus!

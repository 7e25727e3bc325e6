//! Deterministic sanitization of a task's display text into a note file
//! name stem: keep letters, digits, whitespace, `-` and `_`; drop every
//! other character; trim leading and trailing whitespace; replace the
//! remaining spaces by underscores.

use vstd::prelude::*;
use vstd::string::StrSliceExecFns;

verus! {

/// Whether the character counts as alphanumeric under Unicode.
pub uninterp spec fn char_alphanumeric(c: char) -> bool;

/// Whether the character counts as whitespace under Unicode.
pub uninterp spec fn char_whitespace(c: char) -> bool;

/// Relies on char::is_alphanumeric: whether the character is in one of the
/// Unicode alphabetic or numeric classes; the result depends on the
/// character alone.
#[verifier::external_body]
fn is_alphanumeric_char(c: char) -> (r: bool)
    ensures
        r == char_alphanumeric(c),
{
    c.is_alphanumeric()
}

/// Relies on char::is_whitespace: whether the character has the Unicode
/// White_Space property; the result depends on the character alone.
#[verifier::external_body]
fn is_whitespace_char(c: char) -> (r: bool)
    ensures
        r == char_whitespace(c),
{
    c.is_whitespace()
}

/// Relies on String::push: appends exactly the one character.
#[verifier::external_body]
fn push_char(s: &mut String, c: char)
    ensures
        final (s)@ == old(s)@.push(c),
{
    s.push(c);
}

/// A character survives the filtering step of sanitization.
pub open spec fn keep_char(c: char) -> bool {
    char_alphanumeric(c) || char_whitespace(c) || c == '-' || c == '_'
}

/// The subsequence of characters that survive the filtering step.
pub open spec fn kept_chars(s: Seq<char>) -> Seq<char>
    decreases s.len(),
{
    if s.len() == 0 {
        Seq::empty()
    } else {
        kept_chars(s.drop_last()) + if keep_char(s.last()) {
            seq![s.last()]
        } else {
            Seq::<char>::empty()
        }
    }
}

/// The sequence with its leading whitespace removed.
pub open spec fn trim_front(s: Seq<char>) -> Seq<char>
    decreases s.len(),
{
    if s.len() > 0 && char_whitespace(s.first()) {
        trim_front(s.drop_first())
    } else {
        s
    }
}

/// The sequence with its trailing whitespace removed.
pub open spec fn trim_back(s: Seq<char>) -> Seq<char>
    decreases s.len(),
{
    if s.len() > 0 && char_whitespace(s.last()) {
        trim_back(s.drop_last())
    } else {
        s
    }
}

/// The sequence with whitespace removed from both ends.
pub open spec fn trimmed(s: Seq<char>) -> Seq<char> {
    trim_back(trim_front(s))
}

/// The sequence with every space replaced by an underscore.
pub open spec fn underscored(s: Seq<char>) -> Seq<char> {
    Seq::new(s.len(), |i: int| if s[i] == ' ' { '_' } else { s[i] })
}

/// The full sanitization pipeline: filter, trim, replace spaces.
pub open spec fn sanitized(s: Seq<char>) -> Seq<char> {
    underscored(trimmed(kept_chars(s)))
}

/// Computes the sanitized file-name stem for a task's display text.
pub fn sanitize_task_text(task: &str) -> (r: String)
    ensures
        r@ == sanitized(task@),
{
    let n: usize = task.unicode_len();
    let mut kept: Vec<char> = Vec::new();
    let mut i: usize = 0;
    while i < n
        invariant
            n == task@.len(),
            i <= n,
            kept@ == kept_chars(task@.subrange(0, i as int)),
        decreases n - i,
    {
        let c = task.get_char(i);
        let keep = is_alphanumeric_char(c) || is_whitespace_char(c) || c == '-' || c == '_';
        if keep {
            kept.push(c);
        }
        proof {
            let pre = task@.subrange(0, i as int);
            let cur = task@.subrange(0, i + 1);
            assert(cur.drop_last() =~= pre);
            assert(cur.last() == c);
            if keep_char(c) {
                assert(kept@ =~= kept_chars(pre) + seq![c]);
            } else {
                assert(kept@ =~= kept_chars(pre) + Seq::<char>::empty());
            }
        }
        i = i + 1;
    }
    proof {
        assert(task@.subrange(0, n as int) =~= task@);
    }
    let m: usize = kept.len();
    proof {
        assert(kept@.subrange(0, m as int) =~= kept@);
    }
    let mut f: usize = 0;
    while f < m && is_whitespace_char(kept[f])
        invariant
            m == kept@.len(),
            f <= m,
            trim_front(kept@) == trim_front(kept@.subrange(f as int, m as int)),
        decreases m - f,
    {
        proof {
            let cur = kept@.subrange(f as int, m as int);
            assert(cur.first() == kept@[f as int]);
            assert(cur.drop_first() =~= kept@.subrange(f + 1, m as int));
        }
        f = f + 1;
    }
    proof {
        let tail = kept@.subrange(f as int, m as int);
        if f == m {
            assert(tail.len() == 0);
        }
        assert(trim_front(kept@) == tail);
    }
    let mut e: usize = m;
    while e > f && is_whitespace_char(kept[e - 1])
        invariant
            m == kept@.len(),
            f <= e <= m,
            trim_front(kept@) == kept@.subrange(f as int, m as int),
            trim_back(kept@.subrange(f as int, m as int)) == trim_back(
                kept@.subrange(f as int, e as int),
            ),
        decreases e - f,
    {
        proof {
            let cur = kept@.subrange(f as int, e as int);
            assert(cur.last() == kept@[e - 1]);
            assert(cur.drop_last() =~= kept@.subrange(f as int, e - 1));
        }
        e = e - 1;
    }
    proof {
        let core = kept@.subrange(f as int, e as int);
        if e == f {
            assert(core.len() == 0);
        }
        assert(trimmed(kept@) == core);
    }
    let mut out = String::new();
    proof {
        assert(Seq::<char>::empty() =~= underscored(kept@.subrange(f as int, f as int)));
    }
    let mut j: usize = f;
    while j < e
        invariant
            m == kept@.len(),
            f <= j <= e <= m,
            out@ == underscored(kept@.subrange(f as int, j as int)),
        decreases e - j,
    {
        let c = kept[j];
        if c == ' ' {
            push_char(&mut out, '_');
        } else {
            push_char(&mut out, c);
        }
        proof {
            let cur = kept@.subrange(f as int, j + 1);
            assert(out@ =~= underscored(cur));
        }
        j = j + 1;
    }
    proof {
        assert(out@ == underscored(trimmed(kept_chars(task@))));
    }
    out
}

} // verus!

//! The about page's author line, read out of the package's `authors` field.

use vstd::prelude::*;
use crate::numbers::{trim_range, trimmed};
use crate::textutil::{chars_of, push_char};

verus! {

/// `s` without the `>` characters it ends in (`trim_end_matches('>')`).
pub open spec fn strip_closing(s: Seq<char>) -> Seq<char>
    decreases s.len(),
{
    if s.len() > 0 && s.last() == '>' {
        strip_closing(s.drop_last())
    } else {
        s
    }
}

/// Position `i` holds the first `<` of `s`.
pub open spec fn first_open(s: Seq<char>, i: int) -> bool {
    &&& 0 <= i < s.len()
    &&& s[i] == '<'
    &&& forall|k: int| 0 <= k < i ==> s[k] != '<'
}

/// `"Name <mail>"` split at its first `<`: the name trimmed, and the mail
/// without its closing `>`s, trimmed. With no `<`, the whole field is the
/// name and the mail is empty.
pub open spec fn author_parts(s: Seq<char>) -> (Seq<char>, Seq<char>) {
    if exists|i: int| first_open(s, i) {
        let i = choose|i: int| first_open(s, i);
        (trimmed(s.take(i)), trimmed(strip_closing(s.skip(i + 1))))
    } else {
        (s, Seq::empty())
    }
}

proof fn lemma_strip_closing_take(s: Seq<char>, j: int)
    requires
        0 <= j <= s.len(),
        forall|k: int| j <= k < s.len() ==> #[trigger] s[k] == '>',
    ensures
        strip_closing(s) == strip_closing(s.take(j)),
    decreases s.len() - j,
{
    if j < s.len() {
        assert(s.drop_last().take(j) =~= s.take(j));
        lemma_strip_closing_take(s.drop_last(), j);
    } else {
        assert(s.take(j) =~= s);
    }
}

fn copy_range(s: &Vec<char>, lo: usize, hi: usize) -> (out: String)
    requires
        lo <= hi <= s@.len(),
    ensures
        out@ == s@.subrange(lo as int, hi as int),
{
    let mut out = String::new();
    let mut i: usize = lo;
    while i < hi
        invariant
            lo <= i <= hi <= s@.len(),
            out@ == s@.subrange(lo as int, i as int),
        decreases hi - i,
    {
        push_char(&mut out, s[i]);
        assert(s@.subrange(lo as int, i + 1) =~= s@.subrange(lo as int, i as int).push(s@[i as int]));
        i = i + 1;
    }
    out
}

/// The author's name and mail address, from a `Name <mail>` field.
pub fn author_and_email(authors: &str) -> (parts: (String, String))
    ensures
        (parts.0@, parts.1@) == author_parts(authors@),
{
    let chars = chars_of(authors);
    let n = chars.len();
    let mut i: usize = 0;
    while i < n && chars[i] != '<'
        invariant
            i <= n == chars@.len(),
            chars@ == authors@,
            forall|k: int| 0 <= k < i ==> chars@[k] != '<',
        decreases n - i,
    {
        i = i + 1;
    }
    if i == n {
        proof {
            assert(!exists|j: int| first_open(authors@, j));
        }
        let mut name = String::new();
        crate::textutil::push_str(&mut name, authors);
        return (name, String::new());
    }
    proof {
        assert(first_open(authors@, i as int));
        let c = choose|j: int| first_open(authors@, j);
        assert(c == i) by {
            if c < i {
                assert(chars@[c] != '<');
            } else if c > i {
                assert(authors@[i as int] != '<');
            }
        }
    }
    let (a, b) = trim_range(&chars, 0, i);
    assert(chars@.subrange(0, i as int) =~= authors@.take(i as int));
    let name = copy_range(&chars, a, b);
    let mut j: usize = n;
    while j > i + 1 && chars[j - 1] == '>'
        invariant
            i + 1 <= j <= n == chars@.len(),
            forall|k: int| j <= k < n ==> #[trigger] chars@[k] == '>',
        decreases j,
    {
        j = j - 1;
    }
    proof {
        let rest = authors@.skip(i + 1);
        assert forall|k: int| j - (i + 1) <= k < rest.len() implies #[trigger] rest[k] == '>' by {
            assert(rest[k] == chars@[i + 1 + k]);
        }
        lemma_strip_closing_take(rest, j - (i + 1));
        let t = rest.take(j - (i + 1));
        assert(t =~= chars@.subrange(i + 1, j as int));
        if t.len() > 0 {
            assert(t.last() == chars@[j - 1]);
        }
        assert(strip_closing(t) == t);
    }
    let (c, d) = trim_range(&chars, i + 1, j);
    let mail = copy_range(&chars, c, d);
    (name, mail)
}

} // verus!

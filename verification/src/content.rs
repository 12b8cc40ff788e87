//! Normalization of file content before it is written: NUL characters are
//! removed and every line ending becomes a single line feed.

use vstd::prelude::*;
use crate::text::{chars_of, string_of};

verus! {

/// `s` without its NUL characters.
pub open spec fn without_nul(s: Seq<char>) -> Seq<char>
    decreases s.len(),
{
    if s.len() == 0 {
        Seq::<char>::empty()
    } else if s.last() == '\0' {
        without_nul(s.drop_last())
    } else {
        without_nul(s.drop_last()).push(s.last())
    }
}

/// `s` with every line ending turned into one line feed: a carriage return
/// followed by a line feed becomes a line feed, and so does a carriage
/// return that stands alone.
pub open spec fn with_unix_newlines(s: Seq<char>) -> Seq<char>
    decreases s.len(),
{
    if s.len() == 0 {
        Seq::<char>::empty()
    } else if s.last() == '\r' {
        with_unix_newlines(s.drop_last()).push('\n')
    } else if s.last() == '\n' && s.len() >= 2 && s[s.len() - 2] == '\r' {
        with_unix_newlines(s.drop_last())
    } else {
        with_unix_newlines(s.drop_last()).push(s.last())
    }
}

/// The content that is written for `s`: NUL characters are removed first,
/// then line endings are normalized.
pub open spec fn sanitized(s: Seq<char>) -> Seq<char> {
    with_unix_newlines(without_nul(s))
}

/// True when `s` holds neither a NUL nor a carriage return.
pub open spec fn is_clean(s: Seq<char>) -> bool {
    forall|i: int| 0 <= i < s.len() ==> #[trigger] s[i] != '\0' && s[i] != '\r'
}

proof fn lemma_without_nul_has_none(s: Seq<char>)
    ensures
        forall|i: int| 0 <= i < without_nul(s).len() ==> #[trigger] without_nul(s)[i] != '\0',
    decreases s.len(),
{
    if s.len() > 0 {
        lemma_without_nul_has_none(s.drop_last());
        let whole = without_nul(s);
        let init = without_nul(s.drop_last());
        assert forall|i: int| 0 <= i < whole.len() implies #[trigger] whole[i] != '\0' by {
            if i < init.len() {
                assert(whole[i] == init[i]);
            }
        }
    }
}

proof fn lemma_unix_newlines_clean(s: Seq<char>)
    requires
        forall|i: int| 0 <= i < s.len() ==> #[trigger] s[i] != '\0',
    ensures
        is_clean(with_unix_newlines(s)),
    decreases s.len(),
{
    if s.len() > 0 {
        lemma_unix_newlines_clean(s.drop_last());
        let whole = with_unix_newlines(s);
        let init = with_unix_newlines(s.drop_last());
        assert forall|i: int| 0 <= i < whole.len() implies #[trigger] whole[i] != '\0' && whole[i]
            != '\r' by {
            if i < init.len() {
                assert(whole[i] == init[i]);
            } else {
                assert(s.last() == s[s.len() - 1]);
            }
        }
    }
}

proof fn lemma_clean_is_fixed(s: Seq<char>)
    requires
        is_clean(s),
    ensures
        without_nul(s) == s,
        with_unix_newlines(s) == s,
    decreases s.len(),
{
    if s.len() > 0 {
        lemma_clean_is_fixed(s.drop_last());
    }
}

/// Sanitized content holds neither a NUL nor a carriage return.
pub proof fn sanitized_is_clean(s: Seq<char>)
    ensures
        is_clean(sanitized(s)),
{
    lemma_without_nul_has_none(s);
    lemma_unix_newlines_clean(without_nul(s));
}

/// Content without NUL and carriage return is left as it is.
pub proof fn sanitized_keeps_clean_content(s: Seq<char>)
    requires
        is_clean(s),
    ensures
        sanitized(s) == s,
{
    lemma_clean_is_fixed(s);
}

/// Sanitizing is idempotent: sanitizing sanitized content changes nothing.
pub proof fn sanitized_is_idempotent(s: Seq<char>)
    ensures
        sanitized(sanitized(s)) == sanitized(s),
{
    sanitized_is_clean(s);
    sanitized_keeps_clean_content(sanitized(s));
}

fn strip_nul(v: &Vec<char>) -> (out: Vec<char>)
    ensures
        out@ == without_nul(v@),
{
    let mut out: Vec<char> = Vec::new();
    let mut i: usize = 0;
    while i < v.len()
        invariant
            0 <= i <= v.len(),
            out@ == without_nul(v@.take(i as int)),
        decreases v.len() - i,
    {
        assert(v@.take(i + 1).drop_last() =~= v@.take(i as int));
        if v[i] != '\0' {
            out.push(v[i]);
        }
        i += 1;
    }
    assert(v@.take(v.len() as int) =~= v@);
    out
}

fn unify_newlines(v: &Vec<char>) -> (out: Vec<char>)
    ensures
        out@ == with_unix_newlines(v@),
{
    let mut out: Vec<char> = Vec::new();
    let mut i: usize = 0;
    while i < v.len()
        invariant
            0 <= i <= v.len(),
            out@ == with_unix_newlines(v@.take(i as int)),
        decreases v.len() - i,
    {
        assert(v@.take(i + 1).drop_last() =~= v@.take(i as int));
        let c = v[i];
        let after_return = c == '\n' && i > 0 && v[i - 1] == '\r';
        if c == '\r' {
            out.push('\n');
        } else if !after_return {
            out.push(c);
        }
        i += 1;
    }
    assert(v@.take(v.len() as int) =~= v@);
    out
}

/// Normalizes `content` for writing: removes NUL characters and turns every
/// line ending into one line feed.
pub fn sanitize_text(content: &str) -> (clean: String)
    ensures
        clean@ == sanitized(content@),
{
    let chars = chars_of(content);
    let kept = strip_nul(&chars);
    let unified = unify_newlines(&kept);
    string_of(&unified, 0, unified.len())
}

} // verus!

//! Deriving a filesystem-safe file name for a thread's sink.
//!
//! A sink's name is the caller's prefix followed by a sanitized form of the
//! thread's display name, or of a textual rendering of its identifier when
//! the thread is unnamed. Sanitization keeps only alphanumeric characters,
//! hyphens and underscores, so the result is safe as a path component.

use vstd::prelude::*;
use vstd::string::StrSliceExecFns;

verus! {

/// Whether `char::is_alphanumeric` holds of `c`: the Unicode alphabetic and
/// numeric properties, left uninterpreted.
pub uninterp spec fn char_is_alphanumeric(c: char) -> bool;

/// Relies on `char::is_alphanumeric` of std: the result depends on the
/// character alone (a fixed Unicode property table).
pub assume_specification[ char::is_alphanumeric ](c: char) -> (r: bool)
    ensures
        r == char_is_alphanumeric(c),
;

/// Relies on `String::push` of std: it appends the given character to the
/// end of the string.
pub assume_specification[ String::push ](s: &mut String, ch: char)
    ensures
        final(s)@ == old(s)@.push(ch),
;

/// A character that sanitization keeps: alphanumeric, hyphen or underscore.
pub open spec fn keeps_char(c: char) -> bool {
    char_is_alphanumeric(c) || c == '-' || c == '_'
}

/// The sanitized form of a name: the characters `keeps_char` accepts, in
/// order; every other character is discarded.
pub open spec fn sanitize_spec(s: Seq<char>) -> Seq<char>
    decreases s.len(),
{
    if s.len() == 0 {
        Seq::empty()
    } else {
        sanitize_spec(s.drop_last()) + if keeps_char(s.last()) {
            seq![s.last()]
        } else {
            Seq::empty()
        }
    }
}

/// Every character of a sanitized name is alphanumeric, a hyphen or an
/// underscore, so the name is safe as a file path component.
pub proof fn lemma_sanitized_is_path_safe(s: Seq<char>)
    ensures
        forall|i: int|
            0 <= i < sanitize_spec(s).len() ==> keeps_char(#[trigger] sanitize_spec(s)[i]),
    decreases s.len(),
{
    if s.len() > 0 {
        lemma_sanitized_is_path_safe(s.drop_last());
        let head = sanitize_spec(s.drop_last());
        assert forall|i: int| 0 <= i < sanitize_spec(s).len() implies keeps_char(
            #[trigger] sanitize_spec(s)[i],
        ) by {
            if i < head.len() {
                assert(sanitize_spec(s)[i] == head[i]);
            } else {
                assert(keeps_char(s.last()));
                assert(sanitize_spec(s)[i] == s.last());
            }
        }
    }
}

/// Keep only the alphanumeric, hyphen and underscore characters of `s`.
pub fn sanitized(s: &str) -> (r: String)
    ensures
        r@ == sanitize_spec(s@),
{
    let n: usize = s.unicode_len();
    let mut r = String::new();
    let mut i: usize = 0;
    while i < n
        invariant
            n == s@.len(),
            i <= n,
            r@ == sanitize_spec(s@.subrange(0, i as int)),
        decreases n - i,
    {
        let c = s.get_char(i);
        if c.is_alphanumeric() || c == '-' || c == '_' {
            r.push(c);
        }
        proof {
            let prev = s@.subrange(0, i as int);
            let cur = s@.subrange(0, i + 1 as int);
            assert(cur.drop_last() =~= prev);
            assert(cur.last() == s@[i as int]);
            if keeps_char(s@[i as int]) {
                assert(r@ =~= sanitize_spec(prev) + seq![s@[i as int]]);
            } else {
                assert(r@ =~= sanitize_spec(prev) + Seq::<char>::empty());
            }
        }
        i = i + 1;
    }
    proof {
        assert(s@.subrange(0, n as int) =~= s@);
    }
    r
}

/// The name of a thread's sink file: the prefix, then the sanitized thread
/// name, or the sanitized identifier text when the thread has no name.
pub open spec fn file_name_spec(
    prefix: Seq<char>,
    name: Option<Seq<char>>,
    id_text: Seq<char>,
) -> Seq<char> {
    prefix + sanitize_spec(
        match name {
            Some(n) => n,
            None => id_text,
        },
    )
}

/// The view of an optional thread name.
pub open spec fn name_view(name: Option<&str>) -> Option<Seq<char>> {
    match name {
        Some(n) => Some(n@),
        None => None,
    }
}

/// Derive the sink file name for a thread from the caller's prefix and the
/// thread's name, falling back to the identifier text for unnamed threads.
pub fn sink_file_name(prefix: &str, thread_name: Option<&str>, thread_id_text: &str) -> (r:
    String)
    ensures
        r@ == file_name_spec(prefix@, name_view(thread_name), thread_id_text@),
{
    let base = match thread_name {
        Some(n) => n,
        None => thread_id_text,
    };
    let tail = sanitized(base);
    let mut r = prefix.to_owned();
    r.append(tail.as_str());
    r
}

} // verus!

use crate::error::{Error, ErrorKind, Span};
use vstd::prelude::*;
use vstd::string::StrSliceExecFns;
use vstd::string::StringExecFns;

verus! {

/// Character-for-character equality of two string slices.
pub fn str_eq(a: &str, b: &str) -> (r: bool)
    ensures
        r == (a@ == b@),
{
    let alen = a.unicode_len();
    let blen = b.unicode_len();
    if alen != blen {
        return false;
    }
    let mut i: usize = 0;
    while i < alen
        invariant
            alen == a@.len(),
            blen == b@.len(),
            alen == blen,
            i <= alen,
            forall|j: int| 0 <= j < i ==> a@[j] == b@[j],
        decreases alen - i,
    {
        if a.get_char(i) != b.get_char(i) {
            return false;
        }
        i = i + 1;
    }
    proof {
        assert(a@ =~= b@);
    }
    true
}

/// ASCII whitespace, as `u8::is_ascii_whitespace` counts it: space, tab,
/// line feed, form feed, carriage return.
pub open spec fn is_ascii_ws(c: char) -> bool {
    c == ' ' || c == '\t' || c == '\n' || c == '\u{0C}' || c == '\r'
}

/// A documentation fragment with its leading ASCII whitespace removed.
/// Trailing whitespace and non-ASCII whitespace stay.
pub open spec fn strip_leading_ws(s: Seq<char>) -> Seq<char>
    decreases s.len(),
{
    if s.len() == 0 {
        s
    } else if is_ascii_ws(s[0]) {
        strip_leading_ws(s.subrange(1, s.len() as int))
    } else {
        s
    }
}

/// The help text owed for a fragment sequence: each fragment stripped of its
/// leading ASCII whitespace, all joined with single newlines, in input order.
pub open spec fn help_text_of(frags: Seq<Seq<char>>) -> Seq<char>
    decreases frags.len(),
{
    if frags.len() == 0 {
        Seq::empty()
    } else if frags.len() == 1 {
        strip_leading_ws(frags[0])
    } else {
        help_text_of(frags.subrange(0, frags.len() - 1)) + seq!['\n'] + strip_leading_ws(
            frags[frags.len() - 1],
        )
    }
}

/// Stripping removes only leading ASCII whitespace: the result is the suffix
/// of the input that starts at its first other character, everything dropped
/// before it is ASCII whitespace, and nothing past that point changes.
pub proof fn lemma_strip_leading_ws_properties(s: Seq<char>)
    ensures
        strip_leading_ws(s).len() <= s.len(),
        strip_leading_ws(s) == s.subrange(s.len() - strip_leading_ws(s).len(), s.len() as int),
        forall|j: int| 0 <= j < s.len() - strip_leading_ws(s).len() ==> is_ascii_ws(s[j]),
        strip_leading_ws(s).len() > 0 ==> !is_ascii_ws(strip_leading_ws(s)[0]),
    decreases s.len(),
{
    if s.len() == 0 {
        assert(s.subrange(0, 0) =~= s);
    } else if is_ascii_ws(s[0]) {
        let t = s.subrange(1, s.len() as int);
        lemma_strip_leading_ws_properties(t);
        let r = strip_leading_ws(s);
        assert(r == strip_leading_ws(t));
        assert(t.subrange(t.len() - r.len(), t.len() as int) =~= s.subrange(
            s.len() - r.len(),
            s.len() as int,
        ));
        assert(forall|j: int|
            1 <= j < s.len() - r.len() ==> is_ascii_ws(#[trigger] s[j]) == is_ascii_ws(
                t[j - 1],
            ));
    } else {
        assert(s.subrange(0, s.len() as int) =~= s);
    }
}

/// The help text is empty exactly when there are no fragments, or one
/// fragment that is all ASCII whitespace: with two or more fragments the
/// joining newline alone keeps it non-empty.
pub proof fn lemma_help_text_empty_condition(frags: Seq<Seq<char>>)
    ensures
        help_text_of(frags).len() == 0 <==> (frags.len() == 0 || (frags.len() == 1
            && strip_leading_ws(frags[0]).len() == 0)),
{
}

fn is_ascii_ws_char(c: char) -> (r: bool)
    ensures
        r == is_ascii_ws(c),
{
    c == ' ' || c == '\t' || c == '\n' || c == '\u{0C}' || c == '\r'
}

proof fn lemma_strip_is_subrange(s: Seq<char>, i: int)
    requires
        0 <= i <= s.len(),
        forall|j: int| 0 <= j < i ==> is_ascii_ws(s[j]),
        i == s.len() || !is_ascii_ws(s[i]),
    ensures
        strip_leading_ws(s) == s.subrange(i, s.len() as int),
    decreases i,
{
    if i == 0 {
        assert(s.subrange(0, s.len() as int) =~= s);
    } else {
        let t = s.subrange(1, s.len() as int);
        assert(forall|j: int| 0 <= j < i - 1 ==> is_ascii_ws(#[trigger] t[j]));
        lemma_strip_is_subrange(t, i - 1);
        assert(t.subrange(i - 1, t.len() as int) =~= s.subrange(i, s.len() as int));
    }
}

/// A fragment with its leading ASCII whitespace removed, as an owned string.
pub fn strip_leading(s: &str) -> (r: String)
    ensures
        r@ == strip_leading_ws(s@),
{
    let n = s.unicode_len();
    let mut i: usize = 0;
    while i < n && is_ascii_ws_char(s.get_char(i))
        invariant
            n == s@.len(),
            i <= n,
            forall|j: int| 0 <= j < i ==> is_ascii_ws(s@[j]),
        decreases n - i,
    {
        i = i + 1;
    }
    proof {
        lemma_strip_is_subrange(s@, i as int);
    }
    let tail = s.substring_char(i, n);
    String::from_str(tail)
}

/// Read a field's documentation fragments into the instrument's help text:
/// strip each fragment's leading ASCII whitespace, join with newlines in
/// input order, and reject the field when nothing is left.
pub fn extract(docs: &Vec<String>, span: Span) -> (r: Result<String, Error>)
    ensures
        match r {
            Ok(h) => h@ == help_text_of(docs.deep_view()) && h@.len() > 0,
            Err(e) => help_text_of(docs.deep_view()).len() == 0 && e == (Error {
                kind: ErrorKind::MissingHelpText,
                span,
            }),
        },
{
    let ghost dv = docs.deep_view();
    let mut out = String::new();
    let mut k: usize = 0;
    while k < docs.len()
        invariant
            dv == docs.deep_view(),
            dv.len() == docs@.len(),
            k <= docs@.len(),
            out@ == help_text_of(dv.subrange(0, k as int)),
        decreases docs@.len() - k,
    {
        if k > 0 {
            out.append("\n");
        }
        let stripped = strip_leading(docs[k].as_str());
        out.append(stripped.as_str());
        proof {
            reveal_strlit("\n");
            let pre = dv.subrange(0, k as int);
            let now = dv.subrange(0, k as int + 1);
            assert(now[k as int] == dv[k as int]);
            if k == 0 {
                assert(out@ =~= strip_leading_ws(dv[0]));
            } else {
                assert(now.subrange(0, now.len() - 1) =~= pre);
                assert("\n"@ =~= seq!['\n']);
                assert(out@ =~= help_text_of(pre) + seq!['\n'] + strip_leading_ws(dv[k as int]));
            }
        }
        k = k + 1;
    }
    proof {
        assert(dv.subrange(0, dv.len() as int) =~= dv);
    }
    if out.as_str().unicode_len() == 0 {
        Err(Error { kind: ErrorKind::MissingHelpText, span })
    } else {
        Ok(out)
    }
}

} // verus!

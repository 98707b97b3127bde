//! Text building blocks shared by the help renderer and the router.
use vstd::prelude::*;

verus! {

/// A line of output: the text followed by a newline.
pub open spec fn line(s: Seq<char>) -> Seq<char> {
    s + "\n"@
}

/// `n` spaces.
pub open spec fn spaces(n: nat) -> Seq<char> {
    Seq::new(n, |i: int| ' ')
}

/// `s` padded on the right with spaces to at least `width` characters,
/// as the `{:<width}` format specifier lays out text.
pub open spec fn pad_right(s: Seq<char>, width: nat) -> Seq<char> {
    if s.len() < width {
        s + spaces((width - s.len()) as nat)
    } else {
        s
    }
}

/// The words of `parts` separated by single spaces.
pub open spec fn join_words(parts: Seq<Seq<char>>) -> Seq<char>
    decreases parts.len(),
{
    if parts.len() == 0 {
        Seq::empty()
    } else if parts.len() == 1 {
        parts[0]
    } else {
        join_words(parts.drop_last()) + " "@ + parts.last()
    }
}

/// The views of a sequence of owned strings.
pub open spec fn words(parts: Seq<String>) -> Seq<Seq<char>> {
    parts.map_values(|s: String| s@)
}

/// Whether `s` begins with a dash, as an option does.
pub open spec fn starts_with_dash(s: Seq<char>) -> bool {
    s.len() > 0 && s[0] == '-'
}

/// Equality of two string slices.
pub fn str_eq(a: &str, b: &str) -> (r: bool)
    ensures
        r == (a@ == b@),
{
    let a_owned = a.to_owned();
    let b_owned = b.to_owned();
    a_owned == b_owned
}

/// Whether `s` begins with `-`.
pub fn has_dash_prefix(s: &str) -> (r: bool)
    ensures
        r == starts_with_dash(s@),
{
    s.unicode_len() > 0 && s.get_char(0) == '-'
}

/// Appends `s` and a newline to `out`.
pub fn append_line(out: &mut String, s: &str)
    ensures
        final(out)@ == old(out)@ + line(s@),
{
    out.append(s);
    out.append("\n");
    assert(final(out)@ =~= old(out)@ + line(s@));
}

/// `s` padded with spaces on the right to `width` characters.
pub fn padded(s: &str, width: usize) -> (r: String)
    ensures
        r@ == pad_right(s@, width as nat),
{
    let mut r = String::from_str(s);
    let len = s.unicode_len();
    if len >= width {
        return r;
    }
    let mut i: usize = len;
    proof {
        reveal_strlit(" ");
        assert(r@ =~= s@ + spaces((i - len) as nat));
    }
    while i < width
        invariant
            len == s@.len(),
            len <= i <= width,
            r@ =~= s@ + spaces((i - len) as nat),
        decreases width - i,
    {
        r.append(" ");
        proof {
            reveal_strlit(" ");
            assert(r@ =~= s@ + spaces((i + 1 - len) as nat));
        }
        i = i + 1;
    }
    r
}

/// The given words separated by single spaces, as `[String]::join(" ")` builds them.
pub fn join_with_spaces(parts: &[String]) -> (r: String)
    ensures
        r@ == join_words(words(parts@)),
{
    let mut r = String::new();
    let n = parts.len();
    let mut i: usize = 0;
    while i < n
        invariant
            n == parts@.len(),
            i <= n,
            r@ == join_words(words(parts@.subrange(0, i as int))),
        decreases n - i,
    {
        let ghost before = parts@.subrange(0, i as int);
        let ghost after = parts@.subrange(0, i + 1);
        assert(words(after).drop_last() =~= words(before));
        assert(words(after).last() == parts@[i as int]@);
        if i > 0 {
            r.append(" ");
        }
        r.append(parts[i].as_str());
        i = i + 1;
    }
    assert(parts@.subrange(0, n as int) =~= parts@);
    r
}

} // verus!

verus! {

/// What `{:?}` prints for a string slice: the text in double quotes, with
/// quotes, backslashes and unprintable characters escaped.
pub uninterp spec fn debug_quoted(s: Seq<char>) -> Seq<char>;

/// A character that `Debug` prints as itself: an ASCII letter or digit, a
/// space, `-`, `_` or `.`.
pub open spec fn is_plain_char(c: char) -> bool {
    ('a' <= c && c <= 'z') || ('A' <= c && c <= 'Z') || ('0' <= c && c <= '9') || c == ' ' || c
        == '-' || c == '_' || c == '.'
}

/// Text made of plain characters only.
pub open spec fn is_plain(s: Seq<char>) -> bool {
    forall|i: int| 0 <= i < s.len() ==> is_plain_char(#[trigger] s[i])
}

/// The `Debug` rendering of `s` (`format!("{:?}", s)`), which the error
/// messages use to show a word exactly as it was typed. Trusted: the result is
/// claimed to be `debug_quoted(s@)`, a function of `s` alone, and, for text of
/// plain characters, that text between double quotes; how other characters
/// are escaped is left to the standard library's `Debug` for `str`.
#[verifier::external_body]
pub(crate) fn debug_quote(s: &str) -> (r: String)
    ensures
        r@ == debug_quoted(s@),
        is_plain(s@) ==> r@ == seq!['"'] + s@ + seq!['"'],
{
    format!("{:?}", s)
}

} // verus!

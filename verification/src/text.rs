//! Text handling: the few string operations of the standard library that the
//! service relies on, and what is built from them.

use vstd::prelude::*;
use vstd::string::StringExecFns;

verus! {

/// The Unicode `White_Space` property.
pub open spec fn is_white_space(c: char) -> bool {
    ||| '\u{9}' <= c <= '\u{d}'
    ||| c == '\u{20}'
    ||| c == '\u{85}'
    ||| c == '\u{a0}'
    ||| c == '\u{1680}'
    ||| '\u{2000}' <= c <= '\u{200a}'
    ||| c == '\u{2028}'
    ||| c == '\u{2029}'
    ||| c == '\u{202f}'
    ||| c == '\u{205f}'
    ||| c == '\u{3000}'
}

/// `s` without its leading white space.
pub open spec fn without_leading(s: Seq<char>) -> Seq<char>
    decreases s.len(),
{
    if s.len() > 0 && is_white_space(s[0]) {
        without_leading(s.drop_first())
    } else {
        s
    }
}

/// `s` without its trailing white space.
pub open spec fn without_trailing(s: Seq<char>) -> Seq<char>
    decreases s.len(),
{
    if s.len() > 0 && is_white_space(s.last()) {
        without_trailing(s.drop_last())
    } else {
        s
    }
}

/// `s` without leading and trailing white space.
pub open spec fn trimmed(s: Seq<char>) -> Seq<char> {
    without_trailing(without_leading(s))
}

/// Nothing but white space.
pub open spec fn is_blank(s: Seq<char>) -> bool {
    forall|i: int| 0 <= i < s.len() ==> is_white_space(#[trigger] s[i])
}

/// `needle` occurs in `s` as a run of consecutive characters.
pub open spec fn occurs_in(needle: Seq<char>, s: Seq<char>) -> bool {
    exists|i: int| 0 <= i <= s.len() - needle.len() && #[trigger] s.subrange(i, i + needle.len()) == needle
}

/// What `str::to_lowercase` makes of a string.
pub uninterp spec fn lowercased(s: Seq<char>) -> Seq<char>;

/// What `char::to_uppercase` makes of a character: one or more characters.
pub uninterp spec fn uppercased(c: char) -> Seq<char>;

/// `str::trim`: the slice of the string that is left when the characters with
/// the `White_Space` property are taken off both ends.
#[verifier::external_body]
pub(crate) fn trim(s: &str) -> (r: &str)
    ensures
        r@ == trimmed(s@),
{
    s.trim()
}

/// `str::strip_prefix`: what follows the prefix, where the string starts with it.
#[verifier::external_body]
pub(crate) fn strip_prefix<'a>(s: &'a str, prefix: &str) -> (r: Option<&'a str>)
    ensures
        r is Some <==> prefix@.is_prefix_of(s@),
        r matches Some(rest) ==> s@ == prefix@ + rest@,
{
    s.strip_prefix(prefix)
}

/// `str::contains`, with a string to look for.
#[verifier::external_body]
pub(crate) fn contains(s: &str, needle: &str) -> (r: bool)
    ensures
        r == occurs_in(needle@, s@),
{
    s.contains(needle)
}

/// `str::to_lowercase`: it follows the Unicode tables, whatever the locale, so
/// its result is a function of the string.
#[verifier::external_body]
pub(crate) fn to_lowercase(s: &str) -> (r: String)
    ensures
        r@ == lowercased(s@),
{
    s.to_lowercase()
}

/// `char::to_uppercase`, its characters put together in a string: it follows
/// the Unicode tables, whatever the locale.
#[verifier::external_body]
pub(crate) fn to_uppercase(c: char) -> (r: String)
    ensures
        r@ == uppercased(c),
{
    c.to_uppercase().to_string()
}

/// Whether the string reads as the given text.
pub fn reads(s: &String, text: &str) -> (r: bool)
    ensures
        r == (s@ == text@),
{
    *s == text.to_string()
}

/// The two texts, one after the other.
pub fn joined(a: &str, b: &str) -> (r: String)
    ensures
        r@ == a@ + b@,
{
    let mut out: String = a.to_string();
    out.append(b);
    out
}

/// A text starts with whatever it was put together from first.
pub proof fn lemma_prefix_of_join(prefix: Seq<char>)
    ensures
        forall|rest: Seq<char>| prefix.is_prefix_of(#[trigger] (prefix + rest)),
{
    assert forall|rest: Seq<char>| prefix.is_prefix_of(#[trigger] (prefix + rest)) by {
        assert((prefix + rest).subrange(0, prefix.len() as int) =~= prefix);
    }
}

proof fn lemma_leading_of_blank(s: Seq<char>)
    ensures
        is_blank(s) <==> without_leading(s).len() == 0,
    decreases s.len(),
{
    if s.len() > 0 && is_white_space(s[0]) {
        lemma_leading_of_blank(s.drop_first());
        if is_blank(s.drop_first()) {
            assert forall|i: int| 0 <= i < s.len() implies is_white_space(#[trigger] s[i]) by {
                if i > 0 {
                    assert(s[i] == s.drop_first()[i - 1]);
                }
            }
        }
        if is_blank(s) {
            assert forall|i: int| 0 <= i < s.drop_first().len() implies is_white_space(
                #[trigger] s.drop_first()[i],
            ) by {
                assert(s.drop_first()[i] == s[i + 1]);
            }
        }
    } else if s.len() > 0 {
        assert(!is_white_space(s[0]));
    }
}

proof fn lemma_trailing_keeps_first(s: Seq<char>)
    requires
        s.len() > 0,
        !is_white_space(s[0]),
    ensures
        without_trailing(s).len() > 0,
    decreases s.len(),
{
    if is_white_space(s.last()) {
        assert(s.len() > 1);
        assert(s.drop_last()[0] == s[0]);
        lemma_trailing_keeps_first(s.drop_last());
    }
}

proof fn lemma_leading_starts_with_ink(s: Seq<char>)
    requires
        without_leading(s).len() > 0,
    ensures
        !is_white_space(without_leading(s)[0]),
    decreases s.len(),
{
    if s.len() > 0 && is_white_space(s[0]) {
        lemma_leading_starts_with_ink(s.drop_first());
    }
}

/// A text is blank exactly when nothing is left of it after trimming.
pub proof fn lemma_blank_trims_to_nothing(s: Seq<char>)
    ensures
        is_blank(s) <==> trimmed(s).len() == 0,
{
    lemma_leading_of_blank(s);
    if without_leading(s).len() > 0 {
        lemma_leading_starts_with_ink(s);
        lemma_trailing_keeps_first(without_leading(s));
    }
}

/// Whether there is anything but white space in the text.
pub fn has_ink(s: &str) -> (r: bool)
    ensures
        r == !is_blank(s@),
{
    proof {
        lemma_blank_trims_to_nothing(s@);
    }
    !trim(s).is_empty()
}

/// The address that a table's QR code leads to: the client's origin with the
/// organisation and the table as query parameters.
pub open spec fn qr_link_text(origin: Seq<char>, org_id: Seq<char>, table_id: Seq<char>) -> Seq<char> {
    origin + "?orgId="@ + org_id + "&tableId="@ + table_id
}

pub fn qr_link(origin: &str, org_id: &str, table_id: &str) -> (r: String)
    ensures
        r@ == qr_link_text(origin@, org_id@, table_id@),
{
    let mut out: String = origin.to_string();
    out.append("?orgId=");
    out.append(org_id);
    out.append("&tableId=");
    out.append(table_id);
    out
}

} // verus!

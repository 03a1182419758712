use vstd::prelude::*;

verus! {

/// Characters that a URL path segment may carry unencoded: the unreserved
/// set of ASCII alphanumerics and `-`, `_`, `.`, `~`.
pub open spec fn is_url_safe_char(c: char) -> bool {
    ('a' <= c && c <= 'z') || ('A' <= c && c <= 'Z') || ('0' <= c && c <= '9') || c == '-' || c
        == '_' || c == '.' || c == '~'
}

/// The uppercase hexadecimal digit for a value below sixteen.
pub open spec fn hex_digit_char(d: int) -> char
    recommends
        0 <= d < 16,
{
    if d < 10 {
        ((0x30 + d) as u8) as char
    } else {
        ((0x41 + (d - 10)) as u8) as char
    }
}

/// The UTF-8 encoding of one character, as the bytes a `str` holds for it.
pub open spec fn utf8_bytes(c: char) -> Seq<u8> {
    let x = c as int;
    if x < 0x80 {
        seq![x as u8]
    } else if x < 0x800 {
        seq![(0xC0 + x / 0x40) as u8, (0x80 + x % 0x40) as u8]
    } else if x < 0x10000 {
        seq![(0xE0 + x / 0x1000) as u8, (0x80 + (x / 0x40) % 0x40) as u8, (0x80 + x % 0x40) as u8]
    } else {
        seq![
            (0xF0 + x / 0x40000) as u8,
            (0x80 + (x / 0x1000) % 0x40) as u8,
            (0x80 + (x / 0x40) % 0x40) as u8,
            (0x80 + x % 0x40) as u8,
        ]
    }
}

/// `%XX` with uppercase hex digits, the percent-encoding of one byte.
pub open spec fn percent_encoded(b: u8) -> Seq<char> {
    seq!['%', hex_digit_char(b as int / 16), hex_digit_char(b as int % 16)]
}

/// The percent-encodings of a byte sequence, concatenated in order.
pub open spec fn percent_encoded_bytes(bs: Seq<u8>) -> Seq<char>
    decreases bs.len(),
{
    if bs.len() == 0 {
        Seq::empty()
    } else {
        percent_encoded(bs[0]) + percent_encoded_bytes(bs.drop_first())
    }
}

/// How one character appears in a percent-encoded URL path segment: kept
/// when unreserved, otherwise every byte of its UTF-8 form percent-encoded.
pub open spec fn url_encode_char(c: char) -> Seq<char> {
    if is_url_safe_char(c) {
        seq![c]
    } else {
        percent_encoded_bytes(utf8_bytes(c))
    }
}

/// The percent-encoded form of a whole string, character by character.
pub open spec fn url_encoded(s: Seq<char>) -> Seq<char>
    decreases s.len(),
{
    if s.len() == 0 {
        Seq::empty()
    } else {
        url_encode_char(s[0]) + url_encoded(s.drop_first())
    }
}

/// How one character appears inside a double-quoted HTML attribute value:
/// the four markup-significant characters become entities, the rest stay.
pub open spec fn attr_escape_char(c: char) -> Seq<char> {
    if c == '&' {
        seq!['&', 'a', 'm', 'p', ';']
    } else if c == '<' {
        seq!['&', 'l', 't', ';']
    } else if c == '>' {
        seq!['&', 'g', 't', ';']
    } else if c == '"' {
        seq!['&', 'q', 'u', 'o', 't', ';']
    } else {
        seq![c]
    }
}

/// The attribute-escaped form of a whole string, character by character.
pub open spec fn attr_escaped(s: Seq<char>) -> Seq<char>
    decreases s.len(),
{
    if s.len() == 0 {
        Seq::empty()
    } else {
        attr_escape_char(s[0]) + attr_escaped(s.drop_first())
    }
}

/// A character that percent-encoding can ever emit: an unreserved character
/// or the `%` that introduces an escape (hex digits are unreserved).
pub open spec fn is_url_output_char(c: char) -> bool {
    is_url_safe_char(c) || c == '%'
}

/// Relies on urlencoding::encode: percent-encodes every byte of the UTF-8
/// form except ASCII alphanumerics and `-`, `_`, `.`, `~`, using uppercase
/// hexadecimal digits, and keeps those unreserved bytes as they are.
#[verifier::external_body]
pub(crate) fn url_encode(s: &str) -> (r: String)
    ensures
        r@ == url_encoded(s@),
{
    urlencoding::encode(s).into_owned()
}

/// Relies on html_escape::encode_double_quoted_attribute: replaces `&`, `<`,
/// `>` and `"` by their named entities and keeps every other character.
#[verifier::external_body]
pub(crate) fn attr_escape(s: &str) -> (r: String)
    ensures
        r@ == attr_escaped(s@),
{
    html_escape::encode_double_quoted_attribute(s).into_owned()
}

proof fn lemma_percent_encoded_bytes_chars(bs: Seq<u8>)
    ensures
        forall|i: int|
            0 <= i < percent_encoded_bytes(bs).len() ==> is_url_output_char(
                #[trigger] percent_encoded_bytes(bs)[i],
            ),
    decreases bs.len(),
{
    if bs.len() > 0 {
        lemma_percent_encoded_bytes_chars(bs.drop_first());
        assert forall|i: int| 0 <= i < percent_encoded_bytes(bs).len() implies is_url_output_char(
            percent_encoded_bytes(bs)[i],
        ) by {
            if i < 3 {
                assert(percent_encoded_bytes(bs)[i] == percent_encoded(bs[0])[i]);
            } else {
                assert(percent_encoded_bytes(bs)[i] == percent_encoded_bytes(bs.drop_first())[i
                    - 3]);
            }
        }
    }
}

proof fn lemma_url_encode_char_chars(c: char)
    ensures
        url_encode_char(c).len() >= 1,
        forall|i: int|
            0 <= i < url_encode_char(c).len() ==> is_url_output_char(
                #[trigger] url_encode_char(c)[i],
            ),
{
    if !is_url_safe_char(c) {
        lemma_percent_encoded_bytes_chars(utf8_bytes(c));
        assert(utf8_bytes(c).len() >= 1);
        assert(percent_encoded_bytes(utf8_bytes(c)).len() >= 3) by {
            assert(percent_encoded_bytes(utf8_bytes(c)) == percent_encoded(utf8_bytes(c)[0])
                + percent_encoded_bytes(utf8_bytes(c).drop_first()));
        }
    }
}

/// Every character of a percent-encoded string is unreserved or `%`; in
/// particular no space, slash, quote or HTML markup character survives, and
/// a nonempty name never encodes to an empty segment.
pub proof fn lemma_url_encoded_chars(s: Seq<char>)
    ensures
        forall|i: int|
            0 <= i < url_encoded(s).len() ==> is_url_output_char(#[trigger] url_encoded(s)[i]),
        s.len() > 0 ==> url_encoded(s).len() >= 1,
    decreases s.len(),
{
    if s.len() > 0 {
        lemma_url_encoded_chars(s.drop_first());
        lemma_url_encode_char_chars(s[0]);
        assert forall|i: int| 0 <= i < url_encoded(s).len() implies is_url_output_char(
            url_encoded(s)[i],
        ) by {
            let head = url_encode_char(s[0]);
            if i < head.len() {
                assert(url_encoded(s)[i] == head[i]);
            } else {
                assert(url_encoded(s)[i] == url_encoded(s.drop_first())[i - head.len()]);
            }
        }
    }
}

/// Attribute-escaping leaves a string without `&`, `<`, `>`, `"` unchanged.
pub proof fn lemma_attr_escaped_identity(s: Seq<char>)
    requires
        forall|i: int|
            0 <= i < s.len() ==> !(#[trigger] s[i] == '&' || s[i] == '<' || s[i] == '>' || s[i]
                == '"'),
    ensures
        attr_escaped(s) == s,
    decreases s.len(),
{
    if s.len() == 0 {
        assert(attr_escaped(s) =~= s);
    } else {
        assert(s[0] == s.index(0));
        lemma_attr_escaped_identity(s.drop_first());
        assert(attr_escaped(s) =~= s) by {
            assert(attr_escape_char(s[0]) == seq![s[0]]);
            assert(seq![s[0]] + s.drop_first() =~= s);
        }
    }
}

} // verus!

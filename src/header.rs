use vstd::prelude::*;
use vstd::string::*;

verus! {

/// Whether the two characters at `i` and `i + 1` are the `": "` that separates a header's
/// name from its value.
pub open spec fn is_separator_at(s: Seq<char>, i: int) -> bool {
    0 <= i && i + 1 < s.len() && s[i] == ':' && s[i + 1] == ' '
}

/// The index of the first `": "` at or after `i`, or -1 when there is none.
pub open spec fn first_separator_from(s: Seq<char>, i: int) -> int
    decreases s.len() - i,
{
    if i < 0 || i + 1 >= s.len() {
        -1
    } else if is_separator_at(s, i) {
        i
    } else {
        first_separator_from(s, i + 1)
    }
}

/// A header line split at its first `": "` into name and value; the value keeps any later
/// `": "`.
pub open spec fn split_header(s: Seq<char>) -> Option<(Seq<char>, Seq<char>)> {
    let i = first_separator_from(s, 0);
    if i < 0 {
        None
    } else {
        Some((s.subrange(0, i), s.subrange(i + 2, s.len() as int)))
    }
}

/// Splits a raw header line into its name and its value.
pub fn get_header_string_value(data: String) -> (r: Option<(String, String)>)
    ensures
        split_header(data@) matches Some((k, v)) ==> r matches Some((rk, rv)) && rk@ == k
            && rv@ == v,
        split_header(data@) is None ==> r is None,
{
    let s = data.as_str();
    let n = s.unicode_len();
    let mut i: usize = 0;
    assert(s@ == data@);
    while n > 0 && i < n - 1
        invariant
            i <= n,
            n == s@.len(),
            s@ == data@,
            first_separator_from(s@, 0) == first_separator_from(s@, i as int),
        decreases n - i,
    {
        if s.get_char(i) == ':' && s.get_char(i + 1) == ' ' {
            let key = String::from_str(s.substring_char(0, i));
            let value = String::from_str(s.substring_char(i + 2, n));
            assert(is_separator_at(s@, i as int));
            return Some((key, value));
        }
        i = i + 1;
    }
    None
}

/// Case-insensitive equality of two characters, folding ASCII letters only.
pub open spec fn ascii_eq_ignore_case(a: char, b: char) -> bool {
    a == b || ('A' <= a && a <= 'Z' && (a as u32) + 32 == b as u32) || ('A' <= b && b <= 'Z'
        && (b as u32) + 32 == a as u32)
}

pub open spec fn content_type_name() -> Seq<char> {
    seq!['c', 'o', 'n', 't', 'e', 'n', 't', '-', 't', 'y', 'p', 'e']
}

/// Whether a header name is `Content-Type`, in any case.
pub open spec fn is_content_type_name(k: Seq<char>) -> bool {
    k.len() == content_type_name().len() && forall|i: int|
        0 <= i < k.len() ==> #[trigger] ascii_eq_ignore_case(k[i], content_type_name()[i])
}

/// The text without the line terminator characters (`\r`, `\n`) at its end.
pub open spec fn trim_line_end(s: Seq<char>) -> Seq<char>
    decreases s.len(),
{
    if s.len() > 0 && (s.last() == '\r' || s.last() == '\n') {
        trim_line_end(s.drop_last())
    } else {
        s
    }
}

/// The index of the first `:` at or after `i`, or -1 when there is none.
pub open spec fn first_colon_from(s: Seq<char>, i: int) -> int
    decreases s.len() - i,
{
    if i < 0 || i >= s.len() {
        -1
    } else if s[i] == ':' {
        i
    } else {
        first_colon_from(s, i + 1)
    }
}

/// The text without the spaces and tabs at its start.
pub open spec fn skip_leading_blanks(s: Seq<char>) -> Seq<char>
    decreases s.len(),
{
    if s.len() > 0 && (s[0] == ' ' || s[0] == '\t') {
        skip_leading_blanks(s.drop_first())
    } else {
        s
    }
}

/// The content type that a raw header line declares: the name is what stands before the
/// first `:`, the value what follows it, without leading blanks and line terminator.
pub open spec fn header_content_type(line: Seq<char>) -> Option<Seq<char>> {
    let c = first_colon_from(line, 0);
    if c < 0 {
        None
    } else if is_content_type_name(line.subrange(0, c)) {
        Some(trim_line_end(skip_leading_blanks(line.subrange(c + 1, line.len() as int))))
    } else {
        None
    }
}

fn ascii_char_eq_ignore_case(a: char, b: char) -> (r: bool)
    ensures
        r == ascii_eq_ignore_case(a, b),
{
    a == b || ('A' <= a && a <= 'Z' && (a as u32) + 32 == b as u32) || ('A' <= b && b <= 'Z'
        && (b as u32) + 32 == a as u32)
}

/// Whether a header name is `Content-Type`, in any case.
pub fn is_content_type_header_name(k: &String) -> (r: bool)
    ensures
        r == is_content_type_name(k@),
{
    let s = k.as_str();
    let target = "content-type";
    proof {
        reveal_strlit("content-type");
        assert(target@ =~= content_type_name());
    }
    assert(s@ == k@);
    let n = s.unicode_len();
    if n != 12 {
        return false;
    }
    let mut i: usize = 0;
    while i < n
        invariant
            n == s@.len(),
            n == 12,
            s@ == k@,
            target@ == content_type_name(),
            forall|j: int| 0 <= j < i ==> #[trigger] ascii_eq_ignore_case(s@[j], content_type_name()[j]),
        decreases n - i,
    {
        if !ascii_char_eq_ignore_case(s.get_char(i), target.get_char(i)) {
            assert(!ascii_eq_ignore_case(s@[i as int], content_type_name()[i as int]));
            return false;
        }
        i = i + 1;
    }
    true
}

/// Removes the line terminator characters from the end of a header value.
pub fn trim_header_line_end(v: &String) -> (r: String)
    ensures
        r@ == trim_line_end(v@),
{
    let s = v.as_str();
    let mut end: usize = s.unicode_len();
    assert(s@.subrange(0, end as int) =~= s@);
    while end > 0 && (s.get_char(end - 1) == '\r' || s.get_char(end - 1) == '\n')
        invariant
            end <= s@.len(),
            trim_line_end(s@.subrange(0, end as int)) == trim_line_end(s@),
        decreases end,
    {
        assert(s@.subrange(0, end as int).drop_last() =~= s@.subrange(0, end - 1));
        end = end - 1;
    }
    String::from_str(s.substring_char(0, end))
}

/// The content type declared by a raw response header line, if it is a `Content-Type` header.
pub fn content_type_of_header_line(line: &String) -> (r: Option<String>)
    ensures
        header_content_type(line@) matches Some(t) ==> r matches Some(rt) && rt@ == t,
        header_content_type(line@) is None ==> r is None,
{
    let s = line.as_str();
    assert(s@ == line@);
    let n = s.unicode_len();
    let mut c: usize = 0;
    while c < n && s.get_char(c) != ':'
        invariant
            c <= n,
            n == s@.len(),
            first_colon_from(s@, 0) == first_colon_from(s@, c as int),
        decreases n - c,
    {
        c = c + 1;
    }
    if c == n {
        return None;
    }
    let name = String::from_str(s.substring_char(0, c));
    if !is_content_type_header_name(&name) {
        return None;
    }
    let mut v: usize = c + 1;
    while v < n && (s.get_char(v) == ' ' || s.get_char(v) == '\t')
        invariant
            c < v <= n,
            n == s@.len(),
            skip_leading_blanks(s@.subrange(v as int, n as int)) == skip_leading_blanks(
                s@.subrange(c + 1, n as int),
            ),
        decreases n - v,
    {
        assert(s@.subrange(v as int, n as int).drop_first() =~= s@.subrange(v + 1, n as int));
        v = v + 1;
    }
    let value = String::from_str(s.substring_char(v, n));
    Some(trim_header_line_end(&value))
}

} // verus!

use vstd::prelude::*;
use vstd::string::*;

verus! {

/// Name given to the uploaded file when the download URL ends without a usable segment.
pub open spec fn fallback_file_name() -> Seq<char> {
    seq!['d', 'o', 'w', 'n', 'l', 'o', 'a', 'd']
}

/// The characters after the last `/` (the whole text when it holds none).
pub open spec fn after_last_slash(s: Seq<char>) -> Seq<char>
    decreases s.len(),
{
    if s.len() == 0 {
        s
    } else if s.last() == '/' {
        Seq::empty()
    } else {
        after_last_slash(s.drop_last()).push(s.last())
    }
}

/// The characters before the first `?` (the whole text when it holds none).
pub open spec fn before_first_query(s: Seq<char>) -> Seq<char>
    decreases s.len(),
{
    if s.len() == 0 {
        s
    } else if s[0] == '?' {
        Seq::empty()
    } else {
        seq![s[0]] + before_first_query(s.drop_first())
    }
}

/// The last path segment of a URL: the query string is stripped first, so a `/` inside it
/// does not count.
pub open spec fn url_last_segment(url: Seq<char>) -> Seq<char> {
    after_last_slash(before_first_query(url))
}

/// The file name derived from a download URL: its last segment, or the fallback when that is empty.
pub open spec fn derived_file_name(url: Seq<char>) -> Seq<char> {
    if url_last_segment(url).len() == 0 {
        fallback_file_name()
    } else {
        url_last_segment(url)
    }
}

/// Derives the uploaded file's name from the download URL.
pub fn guess_file_name_from_url(url: &String) -> (r: String)
    ensures
        r@ == derived_file_name(url@),
        r@.len() > 0,
{
    let s = url.as_str();
    let n = s.unicode_len();
    let mut end: usize = 0;
    assert(s@.subrange(0, 0) =~= Seq::<char>::empty());
    assert(s@.subrange(0, n as int) =~= s@);
    while end < n && s.get_char(end) != '?'
        invariant
            end <= n,
            n == s@.len(),
            s@.subrange(0, end as int) + before_first_query(s@.subrange(end as int, n as int))
                == before_first_query(s@),
        decreases n - end,
    {
        let ghost rest = s@.subrange(end as int, n as int);
        assert(rest.drop_first() =~= s@.subrange(end + 1, n as int));
        assert(s@.subrange(0, end + 1) =~= s@.subrange(0, end as int) + seq![rest[0]]);
        end = end + 1;
    }
    let ghost q = s@.subrange(0, end as int);
    proof {
        let rest = s@.subrange(end as int, n as int);
        assert(before_first_query(rest).len() == 0);
        assert(q =~= before_first_query(s@));
    }
    let mut start: usize = end;
    assert(q.subrange(0, end as int) =~= q);
    assert(q.subrange(end as int, end as int) =~= Seq::<char>::empty());
    while start > 0 && s.get_char(start - 1) != '/'
        invariant
            start <= end <= n,
            n == s@.len(),
            q == s@.subrange(0, end as int),
            after_last_slash(q.subrange(0, start as int)) + q.subrange(start as int, end as int)
                == after_last_slash(q),
        decreases start,
    {
        let ghost pre = q.subrange(0, start as int);
        assert(pre.drop_last() =~= q.subrange(0, start - 1));
        assert(q.subrange(start - 1, end as int) =~= seq![pre.last()] + q.subrange(
            start as int,
            end as int,
        ));
        start = start - 1;
    }
    proof {
        if start > 0 {
            assert(q.subrange(0, start as int).last() == '/');
        }
        assert(after_last_slash(q.subrange(0, start as int)).len() == 0);
        assert(q.subrange(start as int, end as int) =~= url_last_segment(s@));
        assert(s@.subrange(start as int, end as int) =~= q.subrange(start as int, end as int));
    }
    if end == start {
        let r = String::from_str("download");
        proof {
            reveal_strlit("download");
            assert(r@ =~= fallback_file_name());
        }
        r
    } else {
        String::from_str(s.substring_char(start, end))
    }
}

} // verus!

//! Resolution of movie slugs to the display titles stored with each quote.

use vstd::prelude::*;

verus! {

/// The display title of the movie named by `slug`, or `None` for a slug
/// outside the fixed set of known movies.
pub open spec fn movie_title(slug: Seq<char>) -> Option<Seq<char>> {
    if slug == "new-world"@ {
        Some("신세계"@)
    } else if slug == "the-war-of-flower"@ {
        Some("타짜"@)
    } else if slug == "nameless-gangster"@ {
        Some("범죄와의 전쟁"@)
    } else if slug == "wish"@ {
        Some("바람"@)
    } else {
        None
    }
}

/// Whether two strings hold the same characters.
pub(crate) fn same_text(a: &str, b: &str) -> (r: bool)
    ensures
        r == (a@ == b@),
{
    let n = a.unicode_len();
    if n != b.unicode_len() {
        return false;
    }
    let mut i: usize = 0;
    while i < n
        invariant
            n == a@.len(),
            n == b@.len(),
            i <= n,
            a@.subrange(0, i as int) == b@.subrange(0, i as int),
        decreases n - i,
    {
        if a.get_char(i) != b.get_char(i) {
            assert(a@[i as int] != b@[i as int]);
            return false;
        }
        assert(a@.subrange(0, i + 1) == a@.subrange(0, i as int).push(a@[i as int]));
        assert(b@.subrange(0, i + 1) == b@.subrange(0, i as int).push(b@[i as int]));
        i = i + 1;
    }
    assert(a@ == a@.subrange(0, n as int));
    assert(b@ == b@.subrange(0, n as int));
    true
}

/// Looks up the display title of a movie by its slug. An unknown slug gives
/// an error message.
pub fn str_to_movie(name: String) -> (r: Result<&'static str, &'static str>)
    ensures
        movie_title(name@) is None <==> r is Err,
        r matches Ok(title) ==> movie_title(name@) == Some(title@),
{
    let slug = name.as_str();
    if same_text(slug, "new-world") {
        Ok("신세계")
    } else if same_text(slug, "the-war-of-flower") {
        Ok("타짜")
    } else if same_text(slug, "nameless-gangster") {
        Ok("범죄와의 전쟁")
    } else if same_text(slug, "wish") {
        Ok("바람")
    } else {
        Err("404 Not Found: Unknown movie title")
    }
}

} // verus!

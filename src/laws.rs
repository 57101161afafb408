//! Properties that relate the store's operations to one another.

use vstd::prelude::*;
use crate::item::{IdentifiableQuoteItem, Pagination, QuoteItem};
use crate::store::{numbered, page, window, QuoteStore};

verus! {

/// Listing is deterministic: two listings of one store with one pagination
/// give the same quotes in the same order.
pub proof fn lemma_list_deterministic(
    store: QuoteStore,
    p: Pagination,
    first: Seq<IdentifiableQuoteItem>,
    second: Seq<IdentifiableQuoteItem>,
)
    requires
        first == window(store@, p),
        second == window(store@, p),
    ensures
        first == second,
{
}

/// A window that starts at or past the end is empty; one that starts at
/// `k` before the end holds `min(m, n - k)` items for a limit `m`, and
/// `n - k` without a limit.
pub proof fn lemma_page_len<A>(s: Seq<A>, p: Pagination)
    ensures
        p.start() >= s.len() ==> window(s, p).len() == 0,
        p.start() < s.len() ==> window(s, p).len() == match p.bound() {
            Some(m) => if m <= s.len() - p.start() { m as int } else { s.len() - p.start() },
            None => s.len() - p.start(),
        },
{
}

/// Every quote of a window is what some draw below the window's length
/// selects, so a uniform draw over that range can return each of them.
pub proof fn lemma_every_quote_drawable(store: QuoteStore, p: Pagination, q: IdentifiableQuoteItem)
    requires
        window(store@, p).contains(q),
    ensures
        exists|d: int| 0 <= d < window(store@, p).len() && #[trigger] window(store@, p)[d] == q,
{
}

/// Two loads, one after the other, leave the store with all the quotes of
/// both corpora added and no identifier used twice.
pub proof fn lemma_loads_keep_ids_distinct(
    s0: QuoteStore,
    c1: Seq<QuoteItem>,
    s1: QuoteStore,
    c2: Seq<QuoteItem>,
    s2: QuoteStore,
)
    requires
        s0.wf(),
        QuoteStore::loaded(s0, c1, s1),
        QuoteStore::loaded(s1, c2, s2),
    ensures
        s2@.len() == s0@.len() + c1.len() + c2.len(),
        forall|i: int, j: int| 0 <= i < s2@.len() && 0 <= j < s2@.len() && i != j ==> s2@[i].id != s2@[j].id,
{
    s1.lemma_next_id_bounded();
    s2.lemma_next_id_bounded();
    let n0 = s0.next_id();
    let n1 = s1.next_id();
    assert forall|i: int, j: int| 0 <= i < j < s2@.len() implies s2@[i].id < s2@[j].id by {
        let a = s0@.len() as int;
        let b = a + c1.len();
        assert(n0 + c1.len() + c2.len() <= s2.next_id());
        if j < a {
            assert(s2@[i] == s0@[i] && s2@[j] == s0@[j]);
        } else if j < b {
            assert(s2@[j].id == n0 + (j - a)) by {
                assert(s2@[j] == numbered(c1, n0)[j - a]);
            }
            if i < a {
                assert(s2@[i] == s0@[i]);
                assert(s0@[i].id < n0);
            } else {
                assert(s2@[i] == numbered(c1, n0)[i - a]);
            }
        } else {
            assert(s2@[j] == numbered(c2, n1)[j - b]);
            if i < a {
                assert(s2@[i] == s0@[i]);
                assert(s0@[i].id < n0);
            } else if i < b {
                assert(s2@[i] == numbered(c1, n0)[i - a]);
            } else {
                assert(s2@[i] == numbered(c2, n1)[i - b]);
            }
        }
    }
}

} // verus!

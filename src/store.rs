//! The quote store: quotes kept in ascending identifier order, with a counter
//! that hands out each identifier once.

use vstd::prelude::*;
use rand::Rng;
use crate::item::{IdentifiableQuoteItem, Pagination, QuoteItem, QuoteStoreError};
use crate::movie::{movie_title, same_text, str_to_movie};

verus! {

/// The items of `s` left after skipping `start` of them and keeping at most
/// `bound` (all of the rest when `bound` is `None`).
pub open spec fn page<A>(s: Seq<A>, start: nat, bound: Option<nat>) -> Seq<A> {
    let lo = if start <= s.len() { start as int } else { s.len() as int };
    let hi = match bound {
        Some(m) => if lo + m <= s.len() { lo + m } else { s.len() as int },
        None => s.len() as int,
    };
    s.subrange(lo, hi)
}

/// The items of `s` that `p` selects.
pub open spec fn window<A>(s: Seq<A>, p: Pagination) -> Seq<A> {
    page(s, p.start(), p.bound())
}

/// The quotes of `s` whose movie has display title `title`, in store order.
pub open spec fn of_movie(s: Seq<IdentifiableQuoteItem>, title: Seq<char>) -> Seq<IdentifiableQuoteItem> {
    s.filter(from_movie(title))
}

/// Whether a quote belongs to the movie with display title `title`.
pub open spec fn from_movie(title: Seq<char>) -> spec_fn(IdentifiableQuoteItem) -> bool {
    |q: IdentifiableQuoteItem| q.item.name@ == title
}

/// The records of `corpus` numbered consecutively from `first`.
pub open spec fn numbered(corpus: Seq<QuoteItem>, first: nat) -> Seq<IdentifiableQuoteItem> {
    Seq::new(corpus.len(), |i: int| IdentifiableQuoteItem { id: (first + i) as usize, item: corpus[i] })
}

/// Identifiers strictly ascending along `s`.
pub open spec fn ids_ascending(s: Seq<IdentifiableQuoteItem>) -> bool {
    forall|i: int, j: int| 0 <= i < j < s.len() ==> s[i].id < s[j].id
}

/// Relies on rand's thread-local generator and `Rng::gen_range`, which
/// returns a value of the half-open range and panics only on an empty one.
#[verifier::external_body]
fn random_below(n: usize) -> (r: usize)
    requires
        n > 0,
    ensures
        r < n,
{
    rand::thread_rng().gen_range(0..n)
}

/// All loaded quotes, in ascending identifier order, and the counter that
/// numbers the next ones.
pub struct QuoteStore {
    store: Vec<IdentifiableQuoteItem>,
    id_generator: usize,
}

impl View for QuoteStore {
    type V = Seq<IdentifiableQuoteItem>;

    /// The stored quotes in ascending identifier order.
    closed spec fn view(&self) -> Seq<IdentifiableQuoteItem> {
        self.store@
    }
}

impl Default for QuoteStore {
    fn default() -> (r: QuoteStore)
        ensures
            r@ == Seq::<IdentifiableQuoteItem>::empty(),
            r.next_id() == 0,
            r.wf(),
    {
        QuoteStore::new()
    }
}

impl QuoteStore {
    /// The identifier that the next loaded quote receives.
    pub closed spec fn next_id(&self) -> nat {
        self.id_generator as nat
    }

    /// The counter is a machine integer.
    pub proof fn lemma_next_id_bounded(&self)
        ensures
            self.next_id() <= usize::MAX,
    {
    }

    /// Identifiers ascend along the store and all lie below the counter.
    pub open spec fn wf(&self) -> bool {
        &&& ids_ascending(self@)
        &&& forall|i: int| 0 <= i < self@.len() ==> (#[trigger] self@[i]).id < self.next_id()
    }

    /// `after` is `before` with `corpus` loaded into it.
    pub open spec fn loaded(before: QuoteStore, corpus: Seq<QuoteItem>, after: QuoteStore) -> bool {
        &&& after@ == before@ + numbered(corpus, before.next_id())
        &&& after.next_id() == before.next_id() + corpus.len()
    }

    /// An empty store whose first identifier is 0.
    pub fn new() -> (r: QuoteStore)
        ensures
            r@ == Seq::<IdentifiableQuoteItem>::empty(),
            r.next_id() == 0,
            r.wf(),
    {
        QuoteStore { store: Vec::new(), id_generator: 0 }
    }

    /// The positions in the store where the window of `p` begins and ends.
    fn bounds(&self, p: Pagination) -> (r: (usize, usize))
        ensures
            r.0 <= r.1 <= self@.len(),
            window(self@, p) == self@.subrange(r.0 as int, r.1 as int),
    {
        let len = self.store.len();
        let lo: usize = match p.offset {
            Some(k) => if k <= len { k } else { len },
            None => 0,
        };
        let hi: usize = match p.limit {
            Some(m) => if m <= len - lo { lo + m } else { len },
            None => len,
        };
        (lo, hi)
    }

    /// Copies of the quotes that `pagination` selects, in ascending
    /// identifier order.
    pub fn get_quotes(&self, pagination: Pagination) -> (r: Vec<IdentifiableQuoteItem>)
        ensures
            r@ == window(self@, pagination),
    {
        let (lo, hi) = self.bounds(pagination);
        let mut out: Vec<IdentifiableQuoteItem> = Vec::new();
        let mut i: usize = lo;
        while i < hi
            invariant
                lo <= i <= hi,
                hi <= self.store@.len(),
                out@ == self.store@.subrange(lo as int, i as int),
            decreases hi - i,
        {
            out.push(self.store[i].clone());
            assert(self.store@.subrange(lo as int, i + 1) == self.store@.subrange(lo as int, i as int).push(
                self.store@[i as int],
            ));
            i = i + 1;
        }
        out
    }

    /// The quote at position `index` of the window that `pagination`
    /// selects, or `None` when the window is shorter.
    pub fn get_quote_at(&self, pagination: Pagination, index: usize) -> (r: Option<&IdentifiableQuoteItem>)
        ensures
            index < window(self@, pagination).len() ==> (r matches Some(q) && *q == window(self@, pagination)[index as int]),
            index >= window(self@, pagination).len() ==> r is None,
    {
        let (lo, hi) = self.bounds(pagination);
        if index < hi - lo {
            Some(&self.store[lo + index])
        } else {
            None
        }
    }

    /// A quote drawn uniformly from the window that `pagination` selects, or
    /// `None` when that window is empty.
    pub fn get_random_quote(&self, pagination: Pagination) -> (r: Option<&IdentifiableQuoteItem>)
        ensures
            r is None <==> window(self@, pagination).len() == 0,
            r matches Some(q) ==> window(self@, pagination).contains(*q),
            window(self@, pagination).len() == 1 ==> (r matches Some(q) && *q == window(self@, pagination)[0]),
    {
        let (lo, hi) = self.bounds(pagination);
        if hi == lo {
            return None;
        }
        let draw = random_below(hi - lo);
        let r = self.get_quote_at(pagination, draw);
        assert(r matches Some(q) && *q == window(self@, pagination)[draw as int]);
        r
    }

    /// The store positions of the quotes whose movie has title `title`, in
    /// store order.
    fn movie_hits(&self, title: &str) -> (hits: Vec<usize>)
        ensures
            hits@.len() == of_movie(self@, title@).len(),
            forall|k: int| 0 <= k < hits@.len() ==> {
                &&& hits@[k] < self@.len()
                &&& self@[#[trigger] hits@[k] as int] == of_movie(self@, title@)[k]
            },
    {
        let ghost s = self.store@;
        let ghost pred = from_movie(title@);
        let mut hits: Vec<usize> = Vec::new();
        let mut i: usize = 0;
        while i < self.store.len()
            invariant
                s == self.store@,
                pred == from_movie(title@),
                i <= s.len(),
                hits@.len() == s.take(i as int).filter(pred).len(),
                forall|k: int| 0 <= k < hits@.len() ==> {
                    &&& hits@[k] < i
                    &&& s[#[trigger] hits@[k] as int] == s.take(i as int).filter(pred)[k]
                },
            decreases s.len() - i,
        {
            proof {
                assert(s.take(i + 1) == s.take(i as int).push(s[i as int]));
                s.take(i as int).lemma_filter_push(s[i as int], pred);
            }
            let hit = same_text(self.store[i].item.name.as_str(), title);
            if hit {
                hits.push(i);
                assert(s.take(i + 1).filter(pred) == s.take(i as int).filter(pred).push(s[i as int]));
            } else {
                assert(s.take(i + 1).filter(pred) == s.take(i as int).filter(pred));
            }
            i = i + 1;
        }
        assert(s.take(s.len() as int) == s);
        hits
    }

    /// The quote at position `index` among those whose movie has title
    /// `title`, or `None` when there are fewer.
    pub fn get_movie_quote_at(&self, title: &str, index: usize) -> (r: Option<&IdentifiableQuoteItem>)
        ensures
            index < of_movie(self@, title@).len() ==> (r matches Some(q) && *q == of_movie(self@, title@)[index as int]),
            index >= of_movie(self@, title@).len() ==> r is None,
    {
        let hits = self.movie_hits(title);
        if index < hits.len() {
            Some(&self.store[hits[index]])
        } else {
            None
        }
    }

    /// A quote drawn uniformly from those of the movie with slug `name`.
    /// An unknown slug and a known movie without quotes fail with distinct
    /// errors.
    pub fn find_movie_random_quote(&self, name: String) -> (r: Result<&IdentifiableQuoteItem, QuoteStoreError>)
        ensures
            r matches Err(e) && e is UnknownMovie <==> movie_title(name@) is None,
            r matches Err(e) && e is NotFound <==> (movie_title(name@) matches Some(t) && of_movie(self@, t).len() == 0),
            r is Ok <==> (movie_title(name@) matches Some(t) && of_movie(self@, t).len() > 0),
            r matches Ok(q) ==> of_movie(self@, movie_title(name@)->0).contains(*q),
            (movie_title(name@) matches Some(t) && of_movie(self@, t).len() == 1) ==> (r matches Ok(q) && *q == of_movie(self@, movie_title(name@)->0)[0]),
    {
        let title = match str_to_movie(name) {
            Ok(t) => t,
            Err(_) => return Err(QuoteStoreError::UnknownMovie),
        };
        let count = self.movie_hits(title).len();
        if count == 0 {
            return Err(QuoteStoreError::NotFound);
        }
        let draw = random_below(count);
        match self.get_movie_quote_at(title, draw) {
            Some(q) => Ok(q),
            None => Err(QuoteStoreError::NotFound),
        }
    }

    /// A quote drawn uniformly from those of the movie with slug `name`, or
    /// `None` both for an unknown slug and for a movie without quotes.
    pub fn get_name_random_quote(&self, name: String) -> (r: Option<&IdentifiableQuoteItem>)
        ensures
            r is Some <==> (movie_title(name@) matches Some(t) && of_movie(self@, t).len() > 0),
            r matches Some(q) ==> of_movie(self@, movie_title(name@)->0).contains(*q),
            (movie_title(name@) matches Some(t) && of_movie(self@, t).len() == 1) ==> (r matches Some(q) && *q == of_movie(self@, movie_title(name@)->0)[0]),
    {
        match self.find_movie_random_quote(name) {
            Ok(q) => Some(q),
            Err(_) => None,
        }
    }

    /// Loads `quotes`, numbering them from the counter on. Fails, leaving the
    /// store as it was, when the counter cannot number them all.
    pub fn add_quotes(&mut self, quotes: Vec<QuoteItem>) -> (r: Result<(), QuoteStoreError>)
        requires
            old(self).wf(),
        ensures
            final(self).wf(),
            r is Ok <==> old(self).next_id() + quotes@.len() <= usize::MAX,
            r is Ok ==> QuoteStore::loaded(*old(self), quotes@, *final(self)),
            r matches Err(e) ==> e is IdsExhausted && *final(self) == *old(self),
    {
        let n = quotes.len();
        if n > usize::MAX - self.id_generator {
            return Err(QuoteStoreError::IdsExhausted);
        }
        let ghost first = self.id_generator as nat;
        let mut i: usize = 0;
        while i < n
            invariant
                n == quotes@.len(),
                i <= n,
                first == old(self).id_generator,
                first + n <= usize::MAX,
                self.id_generator == first + i,
                self.store@ == old(self).store@ + numbered(quotes@.take(i as int), first),
                self.wf(),
            decreases n - i,
        {
            let id = self.id_generator;
            let item = IdentifiableQuoteItem::new(id, quotes[i].clone());
            proof {
                assert(numbered(quotes@.take(i + 1), first) == numbered(quotes@.take(i as int), first).push(item));
            }
            self.store.push(item);
            self.id_generator = id + 1;
            i = i + 1;
        }
        assert(quotes@.take(n as int) == quotes@);
        Ok(())
    }
}

} // verus!

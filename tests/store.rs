use quote_store::{str_to_movie, IdentifiableQuoteItem, Pagination, QuoteItem, QuoteStore, QuoteStoreError};

fn record(quote: &str, author: &str, name: &str) -> QuoteItem {
    QuoteItem { quote: quote.to_string(), author: author.to_string(), name: name.to_string() }
}

fn page(offset: Option<usize>, limit: Option<usize>) -> Pagination {
    Pagination { offset, limit }
}

fn loaded(records: Vec<QuoteItem>) -> QuoteStore {
    let mut store = QuoteStore::new();
    assert!(store.add_quotes(records).is_ok());
    store
}

fn ten() -> QuoteStore {
    loaded((0..10).map(|i| record(&format!("q{}", i), &format!("a{}", i), "신세계")).collect())
}

fn ids(items: &[IdentifiableQuoteItem]) -> Vec<usize> {
    items.iter().map(|q| q.id).collect()
}

#[test]
fn end_to_end_listing() {
    let store = loaded(vec![record("A", "X", ""), record("B", "Y", "")]);
    let first = store.get_quotes(page(Some(0), Some(1)));
    assert_eq!(first.len(), 1);
    assert_eq!(first[0].id, 0);
    assert_eq!(first[0].item.quote, "A");
    assert_eq!(first[0].item.author, "X");
    let second = store.get_quotes(page(Some(1), None));
    assert_eq!(second.len(), 1);
    assert_eq!(second[0].id, 1);
    assert_eq!(second[0].item.quote, "B");
    assert_eq!(second[0].item.author, "Y");
    assert!(store.get_quotes(page(Some(2), None)).is_empty());
}

#[test]
fn listing_is_deterministic() {
    let store = ten();
    let p = page(Some(2), Some(5));
    let a = store.get_quotes(p);
    let b = store.get_quotes(p);
    assert_eq!(ids(&a), ids(&b));
    assert_eq!(ids(&a), vec![2, 3, 4, 5, 6]);
}

#[test]
fn listing_defaults_to_everything() {
    let store = ten();
    assert_eq!(ids(&store.get_quotes(Pagination::default())), (0..10).collect::<Vec<usize>>());
}

#[test]
fn pagination_lengths() {
    let store = ten();
    for k in 0..13usize {
        for m in 0..13usize {
            let got = store.get_quotes(page(Some(k), Some(m))).len();
            let want = if k >= 10 { 0 } else { m.min(10 - k) };
            assert_eq!(got, want);
        }
        let unbounded = store.get_quotes(page(Some(k), None)).len();
        assert_eq!(unbounded, if k >= 10 { 0 } else { 10 - k });
    }
    assert!(store.get_quotes(page(Some(usize::MAX), Some(usize::MAX))).is_empty());
    assert_eq!(store.get_quotes(page(Some(3), Some(usize::MAX))).len(), 7);
}

#[test]
fn quote_at_window_position() {
    let store = ten();
    assert_eq!(store.get_quote_at(page(Some(4), Some(3)), 2).map(|q| q.id), Some(6));
    assert!(store.get_quote_at(page(Some(4), Some(3)), 3).is_none());
    assert!(store.get_quote_at(page(Some(10), None), 0).is_none());
}

#[test]
fn random_pick_reaches_every_quote() {
    let store = ten();
    let mut seen = [false; 10];
    for _ in 0..2000 {
        let q = store.get_random_quote(Pagination::default()).expect("non-empty window");
        seen[q.id] = true;
    }
    assert!(seen.iter().all(|s| *s));
}

#[test]
fn random_pick_stays_in_window() {
    let store = ten();
    for _ in 0..500 {
        let q = store.get_random_quote(page(Some(3), Some(4))).expect("non-empty window");
        assert!((3..7).contains(&q.id));
    }
}

#[test]
fn random_pick_single_candidate() {
    let store = ten();
    for _ in 0..100 {
        assert_eq!(store.get_random_quote(page(Some(9), None)).map(|q| q.id), Some(9));
        assert_eq!(store.get_random_quote(page(Some(0), Some(1))).map(|q| q.id), Some(0));
    }
    let one = loaded(vec![record("only", "me", "")]);
    assert_eq!(one.get_random_quote(Pagination::default()).map(|q| q.id), Some(0));
}

#[test]
fn random_pick_empty_window() {
    let store = ten();
    assert!(store.get_random_quote(page(Some(10), None)).is_none());
    assert!(store.get_random_quote(page(Some(0), Some(0))).is_none());
    assert!(store.get_random_quote(page(Some(usize::MAX), None)).is_none());
    assert!(QuoteStore::new().get_random_quote(Pagination::default()).is_none());
}

#[test]
fn movie_resolution() {
    assert_eq!(str_to_movie("new-world".to_string()), Ok("신세계"));
    assert_eq!(str_to_movie("the-war-of-flower".to_string()), Ok("타짜"));
    assert_eq!(str_to_movie("nameless-gangster".to_string()), Ok("범죄와의 전쟁"));
    assert_eq!(str_to_movie("wish".to_string()), Ok("바람"));
    assert!(str_to_movie("unknown-slug".to_string()).is_err());
    assert!(str_to_movie("new-worl".to_string()).is_err());
    assert!(str_to_movie(String::new()).is_err());
}

fn mixed() -> QuoteStore {
    loaded(vec![
        record("a", "x", "신세계"),
        record("b", "y", "타짜"),
        record("c", "z", "신세계"),
        record("d", "w", "바람"),
    ])
}

#[test]
fn movie_pick_filters_by_title() {
    let store = mixed();
    let mut seen = [false; 4];
    for _ in 0..500 {
        let q = store.get_name_random_quote("new-world".to_string()).expect("two candidates");
        assert_eq!(q.item.name, "신세계");
        seen[q.id] = true;
    }
    assert_eq!(seen, [true, false, true, false]);
    assert_eq!(store.get_name_random_quote("wish".to_string()).map(|q| q.id), Some(3));
    assert_eq!(store.get_name_random_quote("the-war-of-flower".to_string()).map(|q| q.id), Some(1));
}

#[test]
fn movie_pick_errors_are_distinct() {
    let store = mixed();
    assert!(matches!(store.find_movie_random_quote("unknown-slug".to_string()), Err(QuoteStoreError::UnknownMovie)));
    assert!(matches!(store.find_movie_random_quote("nameless-gangster".to_string()), Err(QuoteStoreError::NotFound)));
    assert!(store.get_name_random_quote("unknown-slug".to_string()).is_none());
    assert!(store.get_name_random_quote("nameless-gangster".to_string()).is_none());
    assert_eq!(store.find_movie_random_quote("wish".to_string()).ok().map(|q| q.id), Some(3));
}

#[test]
fn movie_quote_at_position() {
    let store = mixed();
    assert_eq!(store.get_movie_quote_at("신세계", 0).map(|q| q.id), Some(0));
    assert_eq!(store.get_movie_quote_at("신세계", 1).map(|q| q.id), Some(2));
    assert!(store.get_movie_quote_at("신세계", 2).is_none());
    assert!(store.get_movie_quote_at("범죄와의 전쟁", 0).is_none());
}

#[test]
fn two_loads_give_distinct_ids() {
    let mut store = QuoteStore::default();
    let first: Vec<QuoteItem> = (0..5).map(|i| record(&format!("f{}", i), "a", "")).collect();
    let second: Vec<QuoteItem> = (0..7).map(|i| record(&format!("s{}", i), "b", "")).collect();
    assert!(store.add_quotes(first).is_ok());
    assert!(store.add_quotes(second).is_ok());
    let all = store.get_quotes(Pagination::default());
    assert_eq!(all.len(), 12);
    let mut got = ids(&all);
    got.sort();
    got.dedup();
    assert_eq!(got.len(), 12);
    assert_eq!(all[5].item.quote, "s0");
    assert_eq!(all[4].item.quote, "f4");
}

#[test]
fn empty_load_changes_nothing() {
    let mut store = ten();
    assert!(store.add_quotes(Vec::new()).is_ok());
    assert_eq!(store.get_quotes(Pagination::default()).len(), 10);
    assert!(store.add_quotes(vec![record("next", "n", "")]).is_ok());
    assert_eq!(store.get_quotes(page(Some(10), None))[0].id, 10);
}

#[test]
fn identifiable_item_new_keeps_fields() {
    let item = IdentifiableQuoteItem::new(42, record("q", "a", "바람"));
    assert_eq!(item.id, 42);
    assert_eq!(item.item.quote, "q");
    assert_eq!(item.item.author, "a");
    assert_eq!(item.item.name, "바람");
    let copy = item.clone();
    assert_eq!(copy.id, 42);
    assert_eq!(copy.item.name, "바람");
}

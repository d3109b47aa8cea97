use cardvault::cursor::{MAX_RATING_BITS, MAX_TIMESTAMP_MICROS, MIN_RATING_BITS, MIN_TIMESTAMP_MICROS};
use cardvault::pagination::MAX_PAGE_SIZE;
use cardvault::{build_connection, plan_range, Card, CardCursor, Error, Id, RangeQuery, User, UserKind};

fn owner() -> Id {
    Id { hi: 7, lo: 9 }
}

fn user() -> User {
    User {
        id: owner(),
        password: String::new(),
        kind: UserKind::Normal,
        email: "a".to_string(),
        nickname: "c".to_string(),
        created_at: 0,
    }
}

fn card(n: u64, owned_at: i64, rating: f64) -> Card {
    Card {
        id: Id { hi: 0, lo: n },
        rating: rating.to_bits(),
        owned_at,
        created_at: 0,
        owner_id: Some(owner()),
    }
}

fn query(lower: CardCursor, upper: CardCursor, descending: bool, limit: u32) -> RangeQuery {
    RangeQuery { owner_id: owner(), lower, upper, descending, limit }
}

#[test]
fn limit_is_clamped_into_range() {
    let q = plan_range(owner(), None, None, Some(500), None).unwrap();
    assert_eq!(q.limit, 100);
    assert!(!q.descending);
    let q = plan_range(owner(), None, None, Some(-5), None).unwrap();
    assert_eq!(q.limit, 0);
    let q = plan_range(owner(), None, None, None, Some(1000)).unwrap();
    assert_eq!(q.limit, 100);
    assert!(q.descending);
    let q = plan_range(owner(), None, None, None, Some(i32::MIN)).unwrap();
    assert_eq!(q.limit, 0);
    let q = plan_range(owner(), None, None, Some(37), None).unwrap();
    assert_eq!(q.limit, 37);
    assert_eq!(q.fetch_limit(), 38);
}

#[test]
fn first_and_last_together_are_rejected() {
    assert_eq!(
        plan_range(owner(), None, None, Some(1), Some(2)),
        Err(Error::BadRequest("cards", "first or last, not both"))
    );
    assert_eq!(
        user().cards(None, None, Some(1), Some(2)),
        Err(Error::BadRequest("cards", "first or last, not both"))
    );
}

#[test]
fn no_arguments_mean_first_page_by_time() {
    let q = plan_range(owner(), None, None, None, None).unwrap();
    assert_eq!(
        q,
        query(
            CardCursor::OwnedAt(MIN_TIMESTAMP_MICROS),
            CardCursor::OwnedAt(MAX_TIMESTAMP_MICROS),
            false,
            MAX_PAGE_SIZE as u32
        )
    );
}

#[test]
fn one_cursor_bounds_one_side() {
    let a = CardCursor::Rating(3.0f64.to_bits());
    let q = plan_range(owner(), Some(a), None, Some(10), None).unwrap();
    assert_eq!(q.lower, a);
    assert_eq!(q.upper, CardCursor::Rating(MAX_RATING_BITS));
    let q = plan_range(owner(), None, Some(a), None, Some(10)).unwrap();
    assert_eq!(q.lower, CardCursor::Rating(MIN_RATING_BITS));
    assert_eq!(q.upper, a);
    let t = CardCursor::OwnedAt(55);
    let q = plan_range(owner(), Some(t), None, None, None).unwrap();
    assert_eq!(q.upper, CardCursor::OwnedAt(MAX_TIMESTAMP_MICROS));
    let q = plan_range(owner(), None, Some(t), None, None).unwrap();
    assert_eq!(q.lower, CardCursor::OwnedAt(MIN_TIMESTAMP_MICROS));
}

#[test]
fn two_cursors_of_one_key_bound_both_sides() {
    let a = CardCursor::OwnedAt(10);
    let b = CardCursor::OwnedAt(20);
    let q = plan_range(owner(), Some(a), Some(b), None, Some(5)).unwrap();
    assert_eq!(q, query(a, b, true, 5));
}

#[test]
fn mismatched_cursor_variants_are_rejected() {
    let a = CardCursor::Rating(1.0f64.to_bits());
    let b = CardCursor::OwnedAt(20);
    assert_eq!(
        plan_range(owner(), Some(a), Some(b), Some(3), None),
        Err(Error::BadRequest("cards", "cursor type not match"))
    );
    let at = a.encode_cursor();
    let bt = b.encode_cursor();
    assert_eq!(
        user().cards(Some(&at), Some(&bt), None, None),
        Err(Error::BadRequest("cards", "cursor type not match"))
    );
}

#[test]
fn cards_reads_cursor_texts() {
    let a = CardCursor::OwnedAt(100);
    let at = a.encode_cursor();
    let q = user().cards(Some(&at), None, Some(2), None).unwrap();
    assert_eq!(q, query(a, CardCursor::OwnedAt(MAX_TIMESTAMP_MICROS), false, 2));
    assert_eq!(user().cards(Some("%%%"), None, None, None), Err(Error::Base64Error));
    assert_eq!(user().cards(None, Some("AAAA"), None, None), Err(Error::DecodeError));
}

#[test]
fn first_page_keeps_order_and_reports_more() {
    let q = query(
        CardCursor::OwnedAt(MIN_TIMESTAMP_MICROS),
        CardCursor::OwnedAt(MAX_TIMESTAMP_MICROS),
        false,
        2,
    );
    let rows = vec![card(1, 10, 0.0), card(2, 20, 0.0), card(3, 30, 0.0)];
    let c = build_connection(&q, &rows);
    assert_eq!(c.edges.len(), 2);
    assert_eq!(c.edges[0].node, rows[0]);
    assert_eq!(c.edges[1].node, rows[1]);
    assert_eq!(c.edges[0].cursor, CardCursor::OwnedAt(10));
    assert_eq!(c.edges[1].cursor, CardCursor::OwnedAt(20));
    assert!(c.has_next_page);
    assert!(!c.has_previous_page);

    let c = build_connection(&q, &rows[..2].to_vec());
    assert_eq!(c.edges.len(), 2);
    assert!(!c.has_next_page);
    assert!(!c.has_previous_page);
}

#[test]
fn last_page_is_reversed_into_ascending_order() {
    let q = query(
        CardCursor::Rating(MIN_RATING_BITS),
        CardCursor::Rating(MAX_RATING_BITS),
        true,
        2,
    );
    // a descending scan, with one probe row past the limit
    let rows = vec![card(1, 0, 9.5), card(2, 0, 4.0), card(3, 0, -1.0)];
    let c = build_connection(&q, &rows);
    assert_eq!(c.edges.len(), 2);
    assert_eq!(c.edges[0].node, rows[1]);
    assert_eq!(c.edges[1].node, rows[0]);
    assert_eq!(c.edges[0].cursor, CardCursor::Rating(4.0f64.to_bits()));
    assert_eq!(c.edges[1].cursor, CardCursor::Rating(9.5f64.to_bits()));
    assert!(c.has_previous_page);
    assert!(!c.has_next_page);
    let ratings: Vec<f64> = c.edges.iter().map(|e| f64::from_bits(e.node.rating)).collect();
    assert!(ratings.windows(2).all(|w| w[0] <= w[1]));
}

#[test]
fn empty_and_zero_limit_pages() {
    let q = query(CardCursor::OwnedAt(0), CardCursor::OwnedAt(5), false, 0);
    let c = build_connection(&q, &vec![card(1, 1, 0.0)]);
    assert!(c.edges.is_empty());
    assert!(c.has_next_page);
    let q = query(CardCursor::OwnedAt(0), CardCursor::OwnedAt(5), true, 100);
    let c = build_connection(&q, &Vec::new());
    assert!(c.edges.is_empty());
    assert!(!c.has_next_page);
    assert!(!c.has_previous_page);
}

#[test]
fn cards_refuses_unrepresentable_time_cursor() {
    let text = CardCursor::OwnedAt(i64::MAX).encode_cursor();
    assert_eq!(user().cards(Some(&text), None, Some(5), None), Err(Error::DecodeError));
    assert_eq!(user().cards(None, Some(&text), None, Some(5)), Err(Error::DecodeError));
}

#[test]
fn rows_out_of_scan_order_still_come_out_ascending() {
    let q = query(
        CardCursor::Rating(MIN_RATING_BITS),
        CardCursor::Rating(MAX_RATING_BITS),
        false,
        3,
    );
    let rows = vec![card(1, 0, 2.0), card(2, 0, -0.5), card(3, 0, 7.0), card(4, 0, 0.0)];
    let c = build_connection(&q, &rows);
    let ids: Vec<u64> = c.edges.iter().map(|e| e.node.id.lo).collect();
    assert_eq!(ids, vec![2, 1, 3]);
    assert!(c.has_next_page);
    for e in &c.edges {
        assert_eq!(e.cursor, CardCursor::Rating(e.node.rating));
    }
}

#[test]
fn equal_keys_keep_scan_order() {
    let q = query(
        CardCursor::OwnedAt(MIN_TIMESTAMP_MICROS),
        CardCursor::OwnedAt(MAX_TIMESTAMP_MICROS),
        true,
        10,
    );
    // descending scan with a tie: the page is the reverse of what the store returned
    let rows = vec![card(1, 30, 0.0), card(2, 20, 0.0), card(3, 20, 0.0), card(4, 10, 0.0)];
    let c = build_connection(&q, &rows);
    let ids: Vec<u64> = c.edges.iter().map(|e| e.node.id.lo).collect();
    assert_eq!(ids, vec![4, 3, 2, 1]);
    assert!(!c.has_previous_page);
}

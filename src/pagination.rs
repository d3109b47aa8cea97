use crate::cursor::{
    cursor_from_text, valid_cursor, CardCursor, MAX_RATING_BITS, MAX_TIMESTAMP_MICROS, MIN_RATING_BITS,
    MIN_TIMESTAMP_MICROS,
};
use crate::error::Error;
use crate::model::{Card, Id, User};
use vstd::prelude::*;
use vstd::seq_lib::{to_multiset_contains, to_multiset_update};

verus! {

/// The most cards one page holds, and the page size when the request names none.
pub const MAX_PAGE_SIZE: i32 = 100;

/// A bounded range scan over one owner's cards, for the store to run.
#[derive(Clone, Copy, Debug, PartialEq, Eq, Structural)]
pub struct RangeQuery {
    /// Whose cards to scan.
    pub owner_id: Id,
    /// Keys must lie strictly above this bound.
    pub lower: CardCursor,
    /// Keys must lie strictly below this bound; of the same variant as `lower`.
    pub upper: CardCursor,
    /// Whether to scan from the upper end down (the request paged with `last`).
    pub descending: bool,
    /// How many cards the page holds at most, in `[0, MAX_PAGE_SIZE]`.
    pub limit: u32,
}

/// Whether two cursors sort by the same key.
pub open spec fn same_variant(a: CardCursor, b: CardCursor) -> bool {
    match (a, b) {
        (CardCursor::OwnedAt(_), CardCursor::OwnedAt(_)) => true,
        (CardCursor::Rating(_), CardCursor::Rating(_)) => true,
        _ => false,
    }
}

impl RangeQuery {
    pub open spec fn wf(&self) -> bool {
        &&& same_variant(self.lower, self.upper)
        &&& valid_cursor(self.lower)
        &&& valid_cursor(self.upper)
        &&& self.limit <= MAX_PAGE_SIZE
    }

    /// How many rows to ask the store for: one more than the page, so that the extra row
    /// tells whether more follow.
    pub fn fetch_limit(&self) -> (r: u32)
        requires
            self.wf(),
        ensures
            r == self.limit + 1,
    {
        self.limit + 1
    }
}

/// `n` brought into `[0, MAX_PAGE_SIZE]`.
pub open spec fn clamp_page(n: int) -> int {
    if n < 0 {
        0
    } else if n > MAX_PAGE_SIZE {
        MAX_PAGE_SIZE as int
    } else {
        n
    }
}

/// The least bound of the variant of `c`.
pub open spec fn min_of(c: CardCursor) -> CardCursor {
    match c {
        CardCursor::OwnedAt(_) => CardCursor::OwnedAt(MIN_TIMESTAMP_MICROS),
        CardCursor::Rating(_) => CardCursor::Rating(MIN_RATING_BITS),
    }
}

/// The greatest bound of the variant of `c`.
pub open spec fn max_of(c: CardCursor) -> CardCursor {
    match c {
        CardCursor::OwnedAt(_) => CardCursor::OwnedAt(MAX_TIMESTAMP_MICROS),
        CardCursor::Rating(_) => CardCursor::Rating(MAX_RATING_BITS),
    }
}

/// The error for asking for both ends of a list at once.
pub open spec fn both_ends_error() -> Error {
    Error::BadRequest("cards", "first or last, not both")
}

/// The error for cursors of two different sort keys.
pub open spec fn mismatch_error() -> Error {
    Error::BadRequest("cards", "cursor type not match")
}

/// The open interval that `after` and `before` bound, if they agree on the sort key.
pub open spec fn bounds_of(after: Option<CardCursor>, before: Option<CardCursor>) -> Option<
    (CardCursor, CardCursor),
> {
    match (after, before) {
        (Some(a), Some(b)) => if same_variant(a, b) {
            Some((a, b))
        } else {
            None
        },
        (Some(a), None) => Some((a, max_of(a))),
        (None, Some(b)) => Some((min_of(b), b)),
        (None, None) => Some(
            (CardCursor::OwnedAt(MIN_TIMESTAMP_MICROS), CardCursor::OwnedAt(MAX_TIMESTAMP_MICROS)),
        ),
    }
}

/// The scan that a request for `owner`'s cards asks for, with its cursors already read.
pub open spec fn planned(
    owner: Id,
    after: Option<CardCursor>,
    before: Option<CardCursor>,
    first: Option<i32>,
    last: Option<i32>,
) -> Result<RangeQuery, Error> {
    if first is Some && last is Some {
        Err(both_ends_error())
    } else {
        match bounds_of(after, before) {
            None => Err(mismatch_error()),
            Some((lower, upper)) => Ok(
                RangeQuery {
                    owner_id: owner,
                    lower,
                    upper,
                    descending: last is Some,
                    limit: match last {
                        Some(n) => clamp_page(n as int) as u32,
                        None => match first {
                            Some(n) => clamp_page(n as int) as u32,
                            None => MAX_PAGE_SIZE as u32,
                        },
                    },
                },
            ),
        }
    }
}

/// What reading an optional cursor text gives.
pub open spec fn read_cursor(s: Option<Seq<char>>) -> Result<Option<CardCursor>, Error> {
    match s {
        None => Ok(None),
        Some(t) => match cursor_from_text(t) {
            Ok(c) => Ok(Some(c)),
            Err(e) => Err(e),
        },
    }
}

/// The scan that a request for `owner`'s cards asks for, from the request as sent.
pub open spec fn planned_from_text(
    owner: Id,
    after: Option<Seq<char>>,
    before: Option<Seq<char>>,
    first: Option<i32>,
    last: Option<i32>,
) -> Result<RangeQuery, Error> {
    if first is Some && last is Some {
        Err(both_ends_error())
    } else {
        match read_cursor(after) {
            Err(e) => Err(e),
            Ok(a) => match read_cursor(before) {
                Err(e) => Err(e),
                Ok(b) => planned(owner, a, b, first, last),
            },
        }
    }
}

fn clamp_request(n: i32) -> (r: u32)
    ensures
        r == clamp_page(n as int),
{
    if n < 0 {
        0
    } else if n > MAX_PAGE_SIZE {
        MAX_PAGE_SIZE as u32
    } else {
        n as u32
    }
}

fn min_bound(c: &CardCursor) -> (r: CardCursor)
    ensures
        r == min_of(*c),
{
    match c {
        CardCursor::OwnedAt(_) => CardCursor::OwnedAt(MIN_TIMESTAMP_MICROS),
        CardCursor::Rating(_) => CardCursor::Rating(MIN_RATING_BITS),
    }
}

fn max_bound(c: &CardCursor) -> (r: CardCursor)
    ensures
        r == max_of(*c),
{
    match c {
        CardCursor::OwnedAt(_) => CardCursor::OwnedAt(MAX_TIMESTAMP_MICROS),
        CardCursor::Rating(_) => CardCursor::Rating(MAX_RATING_BITS),
    }
}

fn is_same_variant(a: &CardCursor, b: &CardCursor) -> (r: bool)
    ensures
        r == same_variant(*a, *b),
{
    match (a, b) {
        (CardCursor::OwnedAt(_), CardCursor::OwnedAt(_)) => true,
        (CardCursor::Rating(_), CardCursor::Rating(_)) => true,
        _ => false,
    }
}

/// Plans the scan for a page of `owner`'s cards from decoded (so valid) cursors: at most one of `first`
/// and `last`, each clamped into `[0, MAX_PAGE_SIZE]` (neither means a first page of
/// `MAX_PAGE_SIZE`), and cursors that agree on the sort key.
pub fn plan_range(
    owner: Id,
    after: Option<CardCursor>,
    before: Option<CardCursor>,
    first: Option<i32>,
    last: Option<i32>,
) -> (r: Result<RangeQuery, Error>)
    requires
        after is Some ==> valid_cursor(after->0),
        before is Some ==> valid_cursor(before->0),
    ensures
        r == planned(owner, after, before, first, last),
        r is Ok ==> r->Ok_0.wf(),
{
    if first.is_some() && last.is_some() {
        return Err(Error::BadRequest("cards", "first or last, not both"));
    }
    let limit: u32 = match last {
        Some(n) => clamp_request(n),
        None => match first {
            Some(n) => clamp_request(n),
            None => MAX_PAGE_SIZE as u32,
        },
    };
    let bounds: Option<(CardCursor, CardCursor)> = match (after, before) {
        (Some(a), Some(b)) => if is_same_variant(&a, &b) {
            Some((a, b))
        } else {
            None
        },
        (Some(a), None) => Some((a, max_bound(&a))),
        (None, Some(b)) => Some((min_bound(&b), b)),
        (None, None) => Some(
            (CardCursor::OwnedAt(MIN_TIMESTAMP_MICROS), CardCursor::OwnedAt(MAX_TIMESTAMP_MICROS)),
        ),
    };
    match bounds {
        None => Err(Error::BadRequest("cards", "cursor type not match")),
        Some((lower, upper)) => Ok(
            RangeQuery { owner_id: owner, lower, upper, descending: last.is_some(), limit },
        ),
    }
}

fn read_cursor_text(s: Option<&str>) -> (r: Result<Option<CardCursor>, Error>)
    ensures
        r matches Ok(Some(c)) ==> valid_cursor(c),
        r == read_cursor(
            match s {
                Some(t) => Some(t@),
                None => None,
            },
        ),
{
    match s {
        None => Ok(None),
        Some(t) => match CardCursor::decode_cursor(t) {
            Ok(c) => Ok(Some(c)),
            Err(e) => Err(e),
        },
    }
}

/// A card with the cursor that points at it.
#[derive(Clone, Copy, Debug, PartialEq, Eq, Structural)]
pub struct CardEdge {
    pub cursor: CardCursor,
    pub node: Card,
}

/// One page of cards, in ascending order of the sort key.
#[derive(Clone, Debug)]
pub struct CardConnection {
    pub edges: Vec<CardEdge>,
    pub has_previous_page: bool,
    pub has_next_page: bool,
}

/// How many of `n` fetched rows the page keeps.
pub open spec fn page_len(q: RangeQuery, n: int) -> int {
    if n < q.limit {
        n
    } else {
        q.limit as int
    }
}

/// The `i`-th card of the page made of `rows`, which the store returned in scan order.
pub open spec fn page_row(q: RangeQuery, rows: Seq<Card>, i: int) -> Card {
    if q.descending {
        rows[page_len(q, rows.len() as int) - 1 - i]
    } else {
        rows[i]
    }
}

/// The cursor, of the same sort key as `like`, that points at `c`.
pub open spec fn cursor_at(c: Card, like: CardCursor) -> CardCursor {
    match like {
        CardCursor::OwnedAt(_) => CardCursor::OwnedAt(c.owned_at),
        CardCursor::Rating(_) => CardCursor::Rating(c.rating),
    }
}

/// The place of an IEEE-754 bit pattern in the total order of `f64`
/// (negatives below `-0.0`, below `+0.0`, below positives).
pub open spec fn rating_rank(bits: u64) -> int {
    if bits < 0x8000_0000_0000_0000 {
        bits as int
    } else {
        0x7fff_ffff_ffff_ffff - bits
    }
}

/// The sort key of `c`, in the order that `like`'s variant gives.
pub open spec fn key_of(c: Card, like: CardCursor) -> int {
    match like {
        CardCursor::OwnedAt(_) => c.owned_at as int,
        CardCursor::Rating(_) => rating_rank(c.rating),
    }
}

/// Whether `rows` come in the order of the scan `q` describes.
pub open spec fn in_scan_order(q: RangeQuery, rows: Seq<Card>) -> bool {
    forall|i: int, j: int|
        0 <= i < j < rows.len() ==> if q.descending {
            key_of(#[trigger] rows[i], q.lower) >= key_of(#[trigger] rows[j], q.lower)
        } else {
            key_of(rows[i], q.lower) <= key_of(rows[j], q.lower)
        }
}

fn cursor_for(c: &Card, like: &CardCursor) -> (r: CardCursor)
    ensures
        r == cursor_at(*c, *like),
{
    match like {
        CardCursor::OwnedAt(_) => CardCursor::OwnedAt(c.owned_at),
        CardCursor::Rating(_) => CardCursor::Rating(c.rating),
    }
}

/// The cards of the page made of `rows`, in the order `page_row` gives.
pub open spec fn page_rows(q: RangeQuery, rows: Seq<Card>) -> Seq<Card> {
    Seq::new(page_len(q, rows.len() as int) as nat, |i: int| page_row(q, rows, i))
}

/// The cards of `edges`, in order.
pub open spec fn edge_nodes(edges: Seq<CardEdge>) -> Seq<Card> {
    edges.map_values(|e: CardEdge| e.node)
}

/// Whether the cards of `s` come in ascending order of the key that `like`'s variant gives.
pub open spec fn ascending(s: Seq<Card>, like: CardCursor) -> bool {
    forall|i: int, j: int|
        0 <= i < j < s.len() ==> key_of(#[trigger] s[i], like) <= key_of(#[trigger] s[j], like)
}

/// Whether `a` sorts no later than `b` by the key that `like`'s variant gives.
fn key_le(a: &Card, b: &Card, like: &CardCursor) -> (r: bool)
    ensures
        r == (key_of(*a, *like) <= key_of(*b, *like)),
{
    match like {
        CardCursor::OwnedAt(_) => a.owned_at <= b.owned_at,
        CardCursor::Rating(_) => {
            let ra: i128 = if a.rating < 0x8000_0000_0000_0000u64 {
                a.rating as i128
            } else {
                0x7fff_ffff_ffff_ffffi128 - a.rating as i128
            };
            let rb: i128 = if b.rating < 0x8000_0000_0000_0000u64 {
                b.rating as i128
            } else {
                0x7fff_ffff_ffff_ffffi128 - b.rating as i128
            };
            ra <= rb
        },
    }
}

/// Sorts `page` stably into ascending order of the key; a page already in that order is left
/// as it is.
fn sort_by_key(page: &mut Vec<Card>, like: &CardCursor)
    ensures
        final(page)@.len() == old(page)@.len(),
        ascending(final(page)@, *like),
        ascending(old(page)@, *like) ==> final(page)@ == old(page)@,
        final(page)@.to_multiset() == old(page)@.to_multiset(),
{
    let ghost orig = page@;
    let n = page.len();
    if n == 0 {
        return;
    }
    let mut i: usize = 1;
    while i < n
        invariant
            1 <= i <= n,
            n == page@.len(),
            ascending(page@.subrange(0, i as int), *like),
            ascending(orig, *like) ==> page@ == orig,
            n == orig.len(),
            page@.to_multiset() == orig.to_multiset(),
        decreases n - i,
    {
        let mut j: usize = i;
        proof {
            assert forall|a: int, b: int| 0 <= a < b < i implies key_of(
                #[trigger] page@[a],
                *like,
            ) <= key_of(#[trigger] page@[b], *like) by {
                let pre = page@.subrange(0, i as int);
                assert(pre[a] == page@[a] && pre[b] == page@[b]);
            }
        }
        while j > 0 && !key_le(&page[j - 1], &page[j], like)
            invariant
                0 <= j <= i < n,
                n == page@.len(),
                forall|a: int, b: int|
                    0 <= a < b <= i && a != j && b != j ==> key_of(#[trigger] page@[a], *like)
                        <= key_of(#[trigger] page@[b], *like),
                forall|b: int|
                    j < b <= i ==> key_of(page@[j as int], *like) <= key_of(
                        #[trigger] page@[b],
                        *like,
                    ),
                ascending(orig, *like) ==> page@ == orig && j == i,
                page@.to_multiset() == orig.to_multiset(),
            decreases j,
        {
            let x = page[j - 1];
            let y = page[j];
            let ghost s0 = page@;
            page.set(j - 1, y);
            let ghost s1 = page@;
            page.set(j, x);
            proof {
                broadcast use vstd::multiset::group_multiset_axioms;

                to_multiset_update(s0, j - 1, y);
                to_multiset_update(s1, j as int, x);
                assert(s0[j - 1] == x && s1[j as int] == y);
                let m = s0.to_multiset();
                assert(m.count(x) > 0) by {
                    to_multiset_contains(s0, x);
                }
                assert(page@.to_multiset() =~= m.insert(y).remove(x).insert(x).remove(y));
                assert(m.insert(y).remove(x).insert(x).remove(y) =~= m);
            }
            j = j - 1;
        }
        proof {
            assert forall|a: int, b: int| 0 <= a < b < i + 1 implies key_of(
                #[trigger] page@.subrange(0, i + 1)[a],
                *like,
            ) <= key_of(#[trigger] page@.subrange(0, i + 1)[b], *like) by {
                if a != j && b != j {
                } else if a == j {
                } else {
                    if a < j - 1 {
                        assert(key_of(page@[a], *like) <= key_of(page@[j - 1], *like));
                    }
                }
            }
        }
        i = i + 1;
    }
    assert(page@.subrange(0, n as int) =~= page@);
}

/// Makes the page from the rows the store returned for `q` (up to `q.fetch_limit()` of them):
/// at most `q.limit` cards, each with its cursor, always in ascending order of the sort key.
/// Rows that come in the order of the scan are kept as they are, the page of a descending
/// scan reversed. A row beyond the limit only tells that more cards follow in the direction
/// of the scan.
pub fn build_connection(q: &RangeQuery, rows: &Vec<Card>) -> (r: CardConnection)
    requires
        q.wf(),
    ensures
        r.edges@.len() == page_len(*q, rows@.len() as int),
        forall|i: int|
            0 <= i < r.edges@.len() ==> (#[trigger] r.edges@[i]).cursor == cursor_at(
                r.edges@[i].node,
                q.lower,
            ),
        forall|i: int, j: int|
            0 <= i < j < r.edges@.len() ==> key_of((#[trigger] r.edges@[i]).node, q.lower)
                <= key_of((#[trigger] r.edges@[j]).node, q.lower),
        in_scan_order(*q, rows@) ==> forall|i: int|
            0 <= i < r.edges@.len() ==> (#[trigger] r.edges@[i]).node == page_row(*q, rows@, i),
        edge_nodes(r.edges@).to_multiset() == page_rows(*q, rows@).to_multiset(),
        r.has_next_page == (!q.descending && rows@.len() > q.limit),
        r.has_previous_page == (q.descending && rows@.len() > q.limit),
{
    let n: usize = if rows.len() < q.limit as usize {
        rows.len()
    } else {
        q.limit as usize
    };
    let mut page: Vec<Card> = Vec::new();
    let mut i: usize = 0;
    while i < n
        invariant
            n == page_len(*q, rows@.len() as int),
            n <= rows@.len(),
            i <= n,
            page@.len() == i,
            forall|k: int| 0 <= k < i ==> #[trigger] page@[k] == page_row(*q, rows@, k),
        decreases n - i,
    {
        let card = if q.descending {
            rows[n - 1 - i]
        } else {
            rows[i]
        };
        page.push(card);
        i = i + 1;
    }
    proof {
        if in_scan_order(*q, rows@) {
            lemma_page_ascending(*q, rows@);
            assert(ascending(page@, q.lower));
        }
    }
    let ghost unsorted = page@;
    sort_by_key(&mut page, &q.lower);
    let mut edges: Vec<CardEdge> = Vec::new();
    let mut k: usize = 0;
    while k < n
        invariant
            n == page@.len(),
            k <= n,
            edges@.len() == k,
            ascending(page@, q.lower),
            in_scan_order(*q, rows@) ==> page@ == unsorted,
            forall|m: int| 0 <= m < n ==> #[trigger] unsorted[m] == page_row(*q, rows@, m),
            unsorted.len() == n,
            forall|m: int|
                0 <= m < k ==> (#[trigger] edges@[m]).node == page@[m] && edges@[m].cursor
                    == cursor_at(page@[m], q.lower),
        decreases n - k,
    {
        let card = page[k];
        edges.push(CardEdge { cursor: cursor_for(&card, &q.lower), node: card });
        k = k + 1;
    }
    proof {
        assert forall|a: int, b: int| 0 <= a < b < edges@.len() implies key_of(
            (#[trigger] edges@[a]).node,
            q.lower,
        ) <= key_of((#[trigger] edges@[b]).node, q.lower) by {
            assert(key_of(page@[a], q.lower) <= key_of(page@[b], q.lower));
        }
        assert(unsorted =~= page_rows(*q, rows@));
        assert(edge_nodes(edges@) =~= page@);
    }
    let more = rows.len() > q.limit as usize;
    CardConnection {
        edges,
        has_previous_page: q.descending && more,
        has_next_page: !q.descending && more,
    }
}

/// Whatever end a page was scanned from, its cards come in ascending order of the sort key,
/// provided the store returned them in the order of the scan.
pub proof fn lemma_page_ascending(q: RangeQuery, rows: Seq<Card>)
    requires
        q.wf(),
        in_scan_order(q, rows),
    ensures
        forall|i: int, j: int|
            0 <= i < j < page_len(q, rows.len() as int) ==> key_of(
                #[trigger] page_row(q, rows, i),
                q.lower,
            ) <= key_of(#[trigger] page_row(q, rows, j), q.lower),
{
    let n = page_len(q, rows.len() as int);
    assert forall|i: int, j: int| 0 <= i < j < n implies key_of(
        #[trigger] page_row(q, rows, i),
        q.lower,
    ) <= key_of(#[trigger] page_row(q, rows, j), q.lower) by {
        if q.descending {
            let a = n - 1 - j;
            let b = n - 1 - i;
            assert(0 <= a < b < rows.len());
            assert(key_of(rows[a], q.lower) >= key_of(rows[b], q.lower));
        } else {
            assert(key_of(rows[i], q.lower) <= key_of(rows[j], q.lower));
        }
    }
}

/// Asking for both ends at once is refused; otherwise the page size is the one asked for,
/// brought into `[0, MAX_PAGE_SIZE]`, or `MAX_PAGE_SIZE` where none was asked for.
pub proof fn lemma_page_size(
    owner: Id,
    after: Option<CardCursor>,
    before: Option<CardCursor>,
    first: Option<i32>,
    last: Option<i32>,
)
    ensures
        first is Some && last is Some ==> planned(owner, after, before, first, last) == Err::<
            RangeQuery,
            Error,
        >(both_ends_error()),
        planned(owner, after, before, first, last) is Ok ==> {
            let q = planned(owner, after, before, first, last)->Ok_0;
            &&& 0 <= q.limit <= MAX_PAGE_SIZE
            &&& q.descending == last is Some
            &&& q.limit == match (first, last) {
                (Some(n), None) => clamp_page(n as int),
                (None, Some(n)) => clamp_page(n as int),
                _ => MAX_PAGE_SIZE as int,
            }
        },
{
}

/// A rating cursor and a time cursor in one request are refused as a mismatch, whichever
/// bounds which side.
pub proof fn lemma_mismatched_cursors(
    owner: Id,
    rating: u64,
    owned_at: i64,
    first: Option<i32>,
    last: Option<i32>,
)
    requires
        !(first is Some && last is Some),
    ensures
        planned(
            owner,
            Some(CardCursor::Rating(rating)),
            Some(CardCursor::OwnedAt(owned_at)),
            first,
            last,
        ) == Err::<RangeQuery, Error>(mismatch_error()),
        planned(
            owner,
            Some(CardCursor::OwnedAt(owned_at)),
            Some(CardCursor::Rating(rating)),
            first,
            last,
        ) == Err::<RangeQuery, Error>(mismatch_error()),
{
}

impl User {
    /// Plans the scan for a page of this user's cards from the request as sent: `after` and
    /// `before` are cursor texts; `first` and `last` are page sizes, at most one of them.
    pub fn cards(
        &self,
        after: Option<&str>,
        before: Option<&str>,
        first: Option<i32>,
        last: Option<i32>,
    ) -> (r: Result<RangeQuery, Error>)
        ensures
            r == planned_from_text(
                self.id,
                match after {
                    Some(t) => Some(t@),
                    None => None,
                },
                match before {
                    Some(t) => Some(t@),
                    None => None,
                },
                first,
                last,
            ),
            r is Ok ==> r->Ok_0.wf(),
    {
        if first.is_some() && last.is_some() {
            return Err(Error::BadRequest("cards", "first or last, not both"));
        }
        let a = match read_cursor_text(after) {
            Ok(c) => c,
            Err(e) => return Err(e),
        };
        let b = match read_cursor_text(before) {
            Ok(c) => c,
            Err(e) => return Err(e),
        };
        plan_range(self.id, a, b, first, last)
    }
}

} // verus!

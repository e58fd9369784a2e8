//! Boards and cards, and which of them are shown.

use linked_hash_map::LinkedHashMap;
use vstd::prelude::*;

verus! {

/// A card. Everything that it says besides its number stands in `details`, in the notation of the
/// application.
#[derive(Debug, PartialEq, Eq)]
pub struct Card {
    pub id: (u64, u64),
    pub details: String,
}

/// A board with its cards. Everything else that it says stands in `details`, in the notation of
/// the application.
#[derive(Debug, PartialEq, Eq)]
pub struct Board {
    pub id: (u64, u64),
    pub details: String,
    pub cards: Vec<Card>,
}

/// What a card is.
#[verifier::ext_equal]
pub struct CardView {
    pub id: (u64, u64),
    pub details: Seq<char>,
}

/// What a board is.
#[verifier::ext_equal]
pub struct BoardView {
    pub id: (u64, u64),
    pub details: Seq<char>,
    pub cards: Seq<CardView>,
}

impl View for Card {
    type V = CardView;

    open spec fn view(&self) -> CardView {
        CardView { id: self.id, details: self.details@ }
    }
}

/// What the cards of a list are.
pub open spec fn cards_view(cards: Seq<Card>) -> Seq<CardView> {
    cards.map_values(|card: Card| card@)
}

impl View for Board {
    type V = BoardView;

    open spec fn view(&self) -> BoardView {
        BoardView { id: self.id, details: self.details@, cards: cards_view(self.cards@) }
    }
}

/// What the boards of a list are.
pub open spec fn boards_view(boards: Seq<Board>) -> Seq<BoardView> {
    boards.map_values(|board: Board| board@)
}

/// Two cards are the same.
fn same_card(a: &Card, b: &Card) -> (same: bool)
    ensures
        same == (a@ == b@),
{
    a.id.0 == b.id.0 && a.id.1 == b.id.1 && a.details == b.details
}

/// Two boards are the same, their cards included.
fn same_board(a: &Board, b: &Board) -> (same: bool)
    ensures
        same == (a@ == b@),
{
    if !(a.id.0 == b.id.0 && a.id.1 == b.id.1 && a.details == b.details) {
        return false;
    }
    if a.cards.len() != b.cards.len() {
        assert(a@.cards.len() != b@.cards.len());
        return false;
    }
    let mut i: usize = 0;
    while i < a.cards.len()
        invariant
            i <= a.cards@.len(),
            a.cards@.len() == b.cards@.len(),
            forall|k: int| 0 <= k < i ==> a@.cards[k] == #[trigger] b@.cards[k],
        decreases a.cards@.len() - i,
    {
        assert(a@.cards[i as int] == a.cards@[i as int]@);
        assert(b@.cards[i as int] == b.cards@[i as int]@);
        if !same_card(&a.cards[i], &b.cards[i]) {
            return false;
        }
        i = i + 1;
    }
    assert(a@ =~= b@);
    true
}

/// Tells whether two lists hold the same boards in the same order.
pub fn same_boards(a: &Vec<Board>, b: &Vec<Board>) -> (same: bool)
    ensures
        same == (boards_view(a@) == boards_view(b@)),
{
    if a.len() != b.len() {
        assert(boards_view(a@).len() != boards_view(b@).len());
        return false;
    }
    let mut i: usize = 0;
    while i < a.len()
        invariant
            i <= a@.len(),
            a@.len() == b@.len(),
            forall|k: int| 0 <= k < i ==> boards_view(a@)[k] == #[trigger] boards_view(b@)[k],
        decreases a@.len() - i,
    {
        assert(boards_view(a@)[i as int] == a@[i as int]@);
        assert(boards_view(b@)[i as int] == b@[i as int]@);
        if !same_board(&a[i], &b[i]) {
            return false;
        }
        i = i + 1;
    }
    assert(boards_view(a@) =~= boards_view(b@));
    true
}

/// A map that keeps the order in which its keys came.
#[verifier::external_type_specification]
#[verifier::external_body]
#[verifier::reject_recursive_types(K)]
#[verifier::reject_recursive_types(V)]
#[verifier::reject_recursive_types(S)]
pub struct ExLinkedHashMap<K, V, S>(LinkedHashMap<K, V, S>);

/// The numbers of the boards that are shown, each with the numbers of its cards that are shown.
pub type VisibleBoards = LinkedHashMap<(u64, u64), Vec<(u64, u64)>>;

/// The entries of the map, in order.
pub uninterp spec fn visible_entries(
    map: LinkedHashMap<(u64, u64), Vec<(u64, u64)>>,
) -> Seq<((u64, u64), Seq<(u64, u64)>)>;

/// The entries with other keys.
pub open spec fn other_than(key: (u64, u64)) -> spec_fn(((u64, u64), Seq<(u64, u64)>)) -> bool {
    |entry: ((u64, u64), Seq<(u64, u64)>)| entry.0 != key
}

/// The entries after a key got a value: the key moves to the end.
pub open spec fn with_entry(
    entries: Seq<((u64, u64), Seq<(u64, u64)>)>,
    key: (u64, u64),
    value: Seq<(u64, u64)>,
) -> Seq<((u64, u64), Seq<(u64, u64)>)> {
    entries.filter(other_than(key)).push((key, value))
}

/// `LinkedHashMap::new` makes a map without entries.
#[verifier::external_body]
fn new_visible_boards() -> (map: VisibleBoards)
    ensures
        visible_entries(map) == Seq::<((u64, u64), Seq<(u64, u64)>)>::empty(),
{
    LinkedHashMap::new()
}

/// `LinkedHashMap::insert` puts the entry at the end. An entry with the same key is taken out, and
/// its value is given back.
#[verifier::external_body]
fn insert_visible_board(map: &mut VisibleBoards, key: (u64, u64), value: Vec<(u64, u64)>) -> (before:
    Option<Vec<(u64, u64)>>)
    ensures
        visible_entries(*final(map)) == with_entry(visible_entries(*old(map)), key, value@),
        match before {
            Some(v) => visible_entries(*old(map)).contains((key, v@)),
            None => forall|i: int|
                0 <= i < visible_entries(*old(map)).len() ==> (#[trigger] visible_entries(
                    *old(map),
                )[i]).0 != key,
        },
{
    map.insert(key, value)
}

/// `LinkedHashMap::is_empty` tells whether there are no entries.
#[verifier::external_body]
pub(crate) fn no_visible_boards(map: &VisibleBoards) -> (empty: bool)
    ensures
        empty == (visible_entries(*map).len() == 0),
{
    map.is_empty()
}

/// The first item of `LinkedHashMap::keys` is the key of the first entry.
#[verifier::external_body]
pub(crate) fn first_visible_board(map: &VisibleBoards) -> (key: Option<(u64, u64)>)
    ensures
        match key {
            Some(k) => visible_entries(*map).len() > 0 && visible_entries(*map)[0].0 == k,
            None => visible_entries(*map).len() == 0,
        },
{
    map.keys().next().copied()
}

/// The first item of `LinkedHashMap::values` is the value of the first entry.
#[verifier::external_body]
pub(crate) fn first_visible_cards(map: &VisibleBoards) -> (cards: Option<&Vec<(u64, u64)>>)
    ensures
        match cards {
            Some(c) => visible_entries(*map).len() > 0 && visible_entries(*map)[0].1 == c@,
            None => visible_entries(*map).len() == 0,
        },
{
    map.values().next()
}

/// The lesser of a limit and a length.
pub open spec fn at_most(limit: u16, length: nat) -> int {
    if limit < length {
        limit as int
    } else {
        length as int
    }
}

/// The numbers of the first cards of a board.
pub open spec fn shown_cards(board: BoardView, limit: u16) -> Seq<(u64, u64)> {
    board.cards.take(at_most(limit, board.cards.len())).map_values(|card: CardView| card.id)
}

/// The entries of boards that are all shown.
pub open spec fn entries_of(boards: Seq<BoardView>, card_limit: u16) -> Seq<
    ((u64, u64), Seq<(u64, u64)>),
>
    decreases boards.len(),
{
    if boards.len() == 0 {
        Seq::empty()
    } else {
        with_entry(
            entries_of(boards.drop_last(), card_limit),
            boards.last().id,
            shown_cards(boards.last(), card_limit),
        )
    }
}

/// What is shown of a list of boards: the first boards, and of each its first cards.
pub open spec fn shown(boards: Seq<BoardView>, board_limit: u16, card_limit: u16) -> Seq<
    ((u64, u64), Seq<(u64, u64)>),
> {
    entries_of(boards.take(at_most(board_limit, boards.len())), card_limit)
}

/// The numbers of the first cards of a board.
fn visible_cards(board: &Board, limit: u16) -> (ids: Vec<(u64, u64)>)
    ensures
        ids@ == shown_cards(board@, limit),
{
    let mut ids: Vec<(u64, u64)> = Vec::new();
    let mut i: usize = 0;
    while i < board.cards.len() && i < limit as usize
        invariant
            i <= board.cards@.len(),
            i <= limit,
            ids@.len() == i,
            forall|k: int| 0 <= k < i ==> ids@[k] == board@.cards[k].id,
        decreases board.cards@.len() - i,
    {
        assert(board@.cards[i as int] == board.cards@[i as int]@);
        ids.push(board.cards[i].id);
        i = i + 1;
    }
    assert(ids@ =~= shown_cards(board@, limit));
    ids
}

/// The numbers of the boards and cards that are shown.
pub fn visible_boards_and_cards(
    boards: &Vec<Board>,
    no_of_boards_to_show: u16,
    no_of_cards_to_show: u16,
) -> (map: VisibleBoards)
    ensures
        visible_entries(map) == shown(boards_view(boards@), no_of_boards_to_show, no_of_cards_to_show),
{
    let mut map = new_visible_boards();
    let mut i: usize = 0;
    assert(boards_view(boards@).take(0) =~= Seq::<BoardView>::empty());
    while i < boards.len() && i < no_of_boards_to_show as usize
        invariant
            i <= boards@.len(),
            i <= no_of_boards_to_show,
            visible_entries(map) == entries_of(
                boards_view(boards@).take(i as int),
                no_of_cards_to_show,
            ),
        decreases boards@.len() - i,
    {
        let board = &boards[i];
        let ghost now = boards_view(boards@).take(i + 1);
        assert(now.drop_last() =~= boards_view(boards@).take(i as int));
        assert(now.last() == board@);
        let cards = visible_cards(board, no_of_cards_to_show);
        insert_visible_board(&mut map, board.id, cards);
        i = i + 1;
    }
    map
}

/// No two boards have the same number.
pub open spec fn distinct_ids(boards: Seq<BoardView>) -> bool {
    forall|i: int, j: int| 0 <= i < j < boards.len() ==> (#[trigger] boards[i]).id != (
    #[trigger] boards[j]).id
}

/// Taking out nothing leaves everything.
proof fn lemma_filter_keeps_all<A>(items: Seq<A>, keep: spec_fn(A) -> bool)
    requires
        forall|i: int| 0 <= i < items.len() ==> keep(#[trigger] items[i]),
    ensures
        items.filter(keep) == items,
    decreases items.len(),
{
    reveal(Seq::filter);
    if items.len() > 0 {
        let start = items.drop_last();
        assert forall|i: int| 0 <= i < start.len() implies keep(#[trigger] start[i]) by {
            assert(start[i] == items[i]);
        }
        lemma_filter_keeps_all(start, keep);
        assert(start.push(items.last()) =~= items);
    }
}

/// What is left after taking out is in the order in which it was.
proof fn lemma_filter_order<A>(items: Seq<A>, keep: spec_fn(A) -> bool) -> (from: Seq<int>)
    ensures
        from.len() == items.filter(keep).len(),
        items.filter(keep).len() <= items.len(),
        forall|i: int|
            0 <= i < from.len() ==> 0 <= #[trigger] from[i] < items.len() && items.filter(keep)[i]
                == items[from[i]] && keep(items[from[i]]),
        forall|i: int, j: int| 0 <= i < j < from.len() ==> #[trigger] from[i] < #[trigger] from[j],
        forall|k: int| 0 <= k < items.len() && keep(#[trigger] items[k]) ==> from.contains(k),
    decreases items.len(),
{
    reveal(Seq::filter);
    if items.len() == 0 {
        Seq::empty()
    } else {
        let start = items.drop_last();
        let before = lemma_filter_order(start, keep);
        let last = items.len() - 1;
        let from = if keep(items.last()) {
            before.push(last)
        } else {
            before
        };
        assert forall|k: int| 0 <= k < items.len() && keep(#[trigger] items[k]) implies from.contains(
            k,
        ) by {
            if k < last {
                assert(start[k] == items[k]);
                let i = choose|i: int| 0 <= i < before.len() && before[i] == k;
                assert(from[i] == k);
            } else {
                assert(from[from.len() - 1] == last);
            }
        }
        from
    }
}

/// Boards with distinct numbers are shown in their order, each with its first cards, as far as the
/// limits go.
pub proof fn shown_boards_are_the_first(boards: Seq<BoardView>, board_limit: u16, card_limit: u16)
    requires
        distinct_ids(boards),
    ensures
        shown(boards, board_limit, card_limit) == Seq::new(
            at_most(board_limit, boards.len()) as nat,
            |i: int| (boards[i].id, shown_cards(boards[i], card_limit)),
        ),
{
    let first = boards.take(at_most(board_limit, boards.len()));
    assert forall|i: int, j: int| 0 <= i < j < first.len() implies (#[trigger] first[i]).id != (
    #[trigger] first[j]).id by {
        assert(boards[i].id != boards[j].id);
    }
    lemma_entries_in_order(first, card_limit);
    assert(shown(boards, board_limit, card_limit) =~= Seq::new(
        at_most(board_limit, boards.len()) as nat,
        |i: int| (boards[i].id, shown_cards(boards[i], card_limit)),
    ));
}

/// The entries of boards with distinct numbers are in the order of the boards.
proof fn lemma_entries_in_order(boards: Seq<BoardView>, card_limit: u16)
    requires
        distinct_ids(boards),
    ensures
        entries_of(boards, card_limit) == Seq::new(
            boards.len(),
            |i: int| (boards[i].id, shown_cards(boards[i], card_limit)),
        ),
    decreases boards.len(),
{
    let expected = Seq::new(
        boards.len(),
        |i: int| (boards[i].id, shown_cards(boards[i], card_limit)),
    );
    if boards.len() > 0 {
        let start = boards.drop_last();
        assert forall|i: int, j: int| 0 <= i < j < start.len() implies (#[trigger] start[i]).id != (
        #[trigger] start[j]).id by {
            assert(boards[i].id != boards[j].id);
        }
        lemma_entries_in_order(start, card_limit);
        let entries = entries_of(start, card_limit);
        let key = boards.last().id;
        assert forall|i: int| 0 <= i < entries.len() implies (#[trigger] entries[i]).0 != key by {
            assert(boards[i].id != boards[boards.len() - 1].id);
        }
        lemma_filter_keeps_all(entries, other_than(key));
    }
    assert(entries_of(boards, card_limit) =~= expected);
}

/// Whatever the boards are, no more boards and no more cards of a board are shown than the limits
/// say, no board is shown twice, and what is shown of a board are its first cards.
pub proof fn shown_boards_stay_in_limits(boards: Seq<BoardView>, board_limit: u16, card_limit: u16)
    ensures
        shown(boards, board_limit, card_limit).len() <= board_limit,
        forall|i: int|
            0 <= i < shown(boards, board_limit, card_limit).len() ==> (#[trigger] shown(
                boards,
                board_limit,
                card_limit,
            )[i]).1.len() <= card_limit,
        forall|i: int, j: int|
            0 <= i < j < shown(boards, board_limit, card_limit).len() ==> (#[trigger] shown(
                boards,
                board_limit,
                card_limit,
            )[i]).0 != (#[trigger] shown(boards, board_limit, card_limit)[j]).0,
        forall|i: int|
            0 <= i < shown(boards, board_limit, card_limit).len() ==> exists|k: int|
                0 <= k < at_most(board_limit, boards.len()) && #[trigger] shown(
                    boards,
                    board_limit,
                    card_limit,
                )[i] == ((#[trigger] boards[k]).id, shown_cards(boards[k], card_limit)),
{
    let first = boards.take(at_most(board_limit, boards.len()));
    lemma_entries_limits(first, card_limit);
    let entries = shown(boards, board_limit, card_limit);
    assert forall|i: int| 0 <= i < entries.len() implies exists|k: int|
        0 <= k < at_most(board_limit, boards.len()) && #[trigger] entries[i] == (
            (#[trigger] boards[k]).id,
            shown_cards(boards[k], card_limit),
        ) by {
        let k = choose|k: int|
            0 <= k < first.len() && entries[i] == (
                (#[trigger] first[k]).id,
                shown_cards(first[k], card_limit),
            );
        assert(boards[k] == first[k]);
    }
}

/// The entries of boards have distinct keys, and each is the entry of a board.
proof fn lemma_entries_limits(boards: Seq<BoardView>, card_limit: u16)
    ensures
        entries_of(boards, card_limit).len() <= boards.len(),
        forall|i: int, j: int|
            0 <= i < j < entries_of(boards, card_limit).len() ==> (#[trigger] entries_of(
                boards,
                card_limit,
            )[i]).0 != (#[trigger] entries_of(boards, card_limit)[j]).0,
        forall|i: int|
            0 <= i < entries_of(boards, card_limit).len() ==> exists|k: int|
                0 <= k < boards.len() && #[trigger] entries_of(boards, card_limit)[i] == (
                    (#[trigger] boards[k]).id,
                    shown_cards(boards[k], card_limit),
                ),
    decreases boards.len(),
{
    if boards.len() > 0 {
        let start = boards.drop_last();
        let key = boards.last().id;
        lemma_entries_limits(start, card_limit);
        let before = entries_of(start, card_limit);
        let keep = other_than(key);
        let from = lemma_filter_order(before, keep);
        let kept = before.filter(keep);
        let entries = entries_of(boards, card_limit);
        assert(entries == kept.push((key, shown_cards(boards.last(), card_limit))));
        assert forall|i: int, j: int| 0 <= i < j < entries.len() implies (#[trigger] entries[i]).0
            != (#[trigger] entries[j]).0 by {
            assert(kept[i] == before[from[i]]);
            if j < kept.len() {
                assert(kept[j] == before[from[j]]);
                assert(from[i] < from[j]);
            }
        }
        assert forall|i: int| 0 <= i < entries.len() implies exists|k: int|
            0 <= k < boards.len() && #[trigger] entries[i] == (
                (#[trigger] boards[k]).id,
                shown_cards(boards[k], card_limit),
            ) by {
            if i < kept.len() {
                assert(entries[i] == before[from[i]]);
                let k = choose|k: int|
                    0 <= k < start.len() && before[from[i]] == (
                        (#[trigger] start[k]).id,
                        shown_cards(start[k], card_limit),
                    );
                assert(boards[k] == start[k]);
            } else {
                assert(boards[boards.len() - 1] == boards.last());
            }
        }
    }
}

/// A card is seen with its number and everything that it says.
pub proof fn cards_are_seen_whole(card: Card)
    ensures
        card@.id == card.id,
        card@.details == card.details@,
{
}

/// Two lists of boards are the same where they have as many boards, each with the number, the text and
/// the cards of the other, in the same order, and nowhere else. A single card that says something
/// else makes the difference.
pub proof fn boards_are_the_same_where_everything_is(a: Seq<Board>, b: Seq<Board>)
    ensures
        boards_view(a) == boards_view(b) <==> {
            &&& a.len() == b.len()
            &&& forall|i: int|
                0 <= i < a.len() ==> {
                    &&& (#[trigger] a[i]).id == b[i].id
                    &&& a[i].details@ == b[i].details@
                    &&& a[i].cards@.len() == b[i].cards@.len()
                    &&& forall|j: int|
                        0 <= j < a[i].cards@.len() ==> (#[trigger] a[i].cards@[j]).id
                            == b[i].cards@[j].id && a[i].cards@[j].details@
                            == b[i].cards@[j].details@
                }
        },
{
    if boards_view(a) == boards_view(b) {
        assert(boards_view(a).len() == a.len() && boards_view(b).len() == b.len());
        assert forall|i: int| 0 <= i < a.len() implies {
            &&& (#[trigger] a[i]).id == b[i].id
            &&& a[i].details@ == b[i].details@
            &&& a[i].cards@.len() == b[i].cards@.len()
            &&& forall|j: int|
                0 <= j < a[i].cards@.len() ==> (#[trigger] a[i].cards@[j]).id == b[i].cards@[j].id
                    && a[i].cards@[j].details@ == b[i].cards@[j].details@
        } by {
            assert(boards_view(a)[i] == a[i]@ && boards_view(b)[i] == b[i]@);
            assert(a[i]@.cards.len() == a[i].cards@.len() && b[i]@.cards.len() == b[i].cards@.len());
            assert forall|j: int| 0 <= j < a[i].cards@.len() implies (#[trigger] a[i].cards@[j]).id
                == b[i].cards@[j].id && a[i].cards@[j].details@ == b[i].cards@[j].details@ by {
                assert(a[i]@.cards[j] == a[i].cards@[j]@);
                assert(b[i]@.cards[j] == b[i].cards@[j]@);
            }
        }
    }
    if a.len() == b.len() && (forall|i: int|
        0 <= i < a.len() ==> {
            &&& (#[trigger] a[i]).id == b[i].id
            &&& a[i].details@ == b[i].details@
            &&& a[i].cards@.len() == b[i].cards@.len()
            &&& forall|j: int|
                0 <= j < a[i].cards@.len() ==> (#[trigger] a[i].cards@[j]).id == b[i].cards@[j].id
                    && a[i].cards@[j].details@ == b[i].cards@[j].details@
        }) {
        assert forall|i: int| 0 <= i < a.len() implies boards_view(a)[i] == boards_view(b)[i] by {
            assert(a[i].id == b[i].id);
            assert forall|j: int| 0 <= j < a[i].cards@.len() implies a[i]@.cards[j]
                == b[i]@.cards[j] by {
                assert(a[i].cards@[j].id == b[i].cards@[j].id);
            }
            assert(a[i]@.cards =~= b[i]@.cards);
        }
        assert(boards_view(a) =~= boards_view(b));
    }
}

/// The boards of a list are seen in the order of the list, each with its number, what it says and its
/// cards in their order.
pub proof fn boards_are_seen_whole(boards: Seq<Board>, i: int, j: int)
    requires
        0 <= i < boards.len(),
        0 <= j < boards[i].cards@.len(),
    ensures
        boards_view(boards).len() == boards.len(),
        boards_view(boards)[i].id == boards[i].id,
        boards_view(boards)[i].details == boards[i].details@,
        boards_view(boards)[i].cards.len() == boards[i].cards@.len(),
        boards_view(boards)[i].cards[j].id == boards[i].cards@[j].id,
        boards_view(boards)[i].cards[j].details == boards[i].cards@[j].details@,
{
}

/// Of a board the first cards are shown, in their order, and as many of them as the limit allows.
pub proof fn shown_cards_are_the_first(board: BoardView, limit: u16)
    ensures
        shown_cards(board, limit).len() <= limit,
        shown_cards(board, limit).len() <= board.cards.len(),
        shown_cards(board, limit).len() == limit || shown_cards(board, limit).len()
            == board.cards.len(),
        forall|i: int|
            0 <= i < shown_cards(board, limit).len() ==> #[trigger] shown_cards(board, limit)[i]
                == board.cards[i].id,
{
}

/// No later board of the list has the number of the board at `k`.
pub open spec fn last_of_number(boards: Seq<BoardView>, k: int) -> bool {
    &&& 0 <= k < boards.len()
    &&& forall|j: int| k < j < boards.len() ==> (#[trigger] boards[j]).id != boards[k].id
}

/// The entries of boards are those of the boards that no later one of the same number replaces, in the
/// order of the boards.
proof fn lemma_entries_order(boards: Seq<BoardView>, card_limit: u16) -> (from: Seq<int>)
    ensures
        from.len() == entries_of(boards, card_limit).len(),
        forall|i: int, j: int| 0 <= i < j < from.len() ==> #[trigger] from[i] < #[trigger] from[j],
        forall|i: int|
            0 <= i < from.len() ==> last_of_number(boards, #[trigger] from[i]) && entries_of(
                boards,
                card_limit,
            )[i] == (boards[from[i]].id, shown_cards(boards[from[i]], card_limit)),
        forall|k: int| #[trigger] last_of_number(boards, k) ==> from.contains(k),
    decreases boards.len(),
{
    if boards.len() == 0 {
        Seq::empty()
    } else {
        let start = boards.drop_last();
        let last = boards.len() - 1;
        let key = boards.last().id;
        let from0 = lemma_entries_order(start, card_limit);
        let before = entries_of(start, card_limit);
        let keep = other_than(key);
        let idx = lemma_filter_order(before, keep);
        let kept = before.filter(keep);
        let entries = entries_of(boards, card_limit);
        assert(entries == kept.push((key, shown_cards(boards.last(), card_limit))));
        let from = Seq::new(idx.len(), |i: int| from0[idx[i]]).push(last);
        assert forall|i: int| 0 <= i < idx.len() implies 0 <= #[trigger] from[i] < last
            && last_of_number(boards, from[i]) && entries[i] == (
            boards[from[i]].id,
            shown_cards(boards[from[i]], card_limit),
        ) by {
            assert(kept[i] == before[idx[i]]);
            let k = from0[idx[i]];
            assert(last_of_number(start, k));
            assert(start[k] == boards[k]);
            assert forall|j: int| k < j < boards.len() implies (#[trigger] boards[j]).id
                != boards[k].id by {
                if j < last {
                    assert(start[j] == boards[j]);
                }
            }
        }
        assert(from[from.len() - 1] == last);
        assert forall|i: int, j: int| 0 <= i < j < from.len() implies #[trigger] from[i]
            < #[trigger] from[j] by {
            if j < idx.len() {
                assert(idx[i] < idx[j]);
            }
        }
        assert forall|k: int| #[trigger] last_of_number(boards, k) implies from.contains(k) by {
            if k < last {
                assert forall|j: int| k < j < start.len() implies (#[trigger] start[j]).id
                    != start[k].id by {
                    assert(boards[j].id != boards[k].id);
                }
                assert(last_of_number(start, k));
                let m = choose|m: int| 0 <= m < from0.len() && from0[m] == k;
                assert(last_of_number(start, from0[m]));
                assert(boards[last].id != boards[k].id);
                assert(keep(before[m]));
                let i = choose|i: int| 0 <= i < idx.len() && idx[i] == m;
                assert(from[i] == k);
            } else {
                assert(from[from.len() - 1] == k);
            }
        }
        from
    }
}

/// The board at `k` is among the first ones that the limit allows, and no later one of these has its
/// number.
pub open spec fn last_among_first(boards: Seq<BoardView>, limit: u16, k: int) -> bool {
    &&& 0 <= k < boards.len()
    &&& k < limit
    &&& forall|j: int|
        k < j < boards.len() && j < limit ==> (#[trigger] boards[j]).id != boards[k].id
}

/// Whatever the boards are, those are shown that are among the first, as many as the limit allows, and
/// that no later one of these replaces because it has the same number. They come in their order, each
/// with its first cards. `from` says which boards they are.
pub proof fn shown_boards_come_in_order(boards: Seq<BoardView>, board_limit: u16, card_limit: u16) -> (from:
    Seq<int>)
    ensures
        from.len() == shown(boards, board_limit, card_limit).len(),
        forall|i: int, j: int| 0 <= i < j < from.len() ==> #[trigger] from[i] < #[trigger] from[j],
        forall|i: int|
            0 <= i < from.len() ==> last_among_first(boards, board_limit, #[trigger] from[i])
                && shown(boards, board_limit, card_limit)[i] == (
                boards[from[i]].id,
                shown_cards(boards[from[i]], card_limit),
            ),
        forall|k: int| #[trigger] last_among_first(boards, board_limit, k) ==> from.contains(k),
{
    let first = boards.take(at_most(board_limit, boards.len()));
    let from = lemma_entries_order(first, card_limit);
    assert forall|i: int| 0 <= i < from.len() implies last_among_first(
        boards,
        board_limit,
        #[trigger] from[i],
    ) && first[from[i]] == boards[from[i]] by {
        let k = from[i];
        assert(last_of_number(first, k));
        assert forall|j: int| k < j < boards.len() && j < board_limit implies (
        #[trigger] boards[j]).id != boards[k].id by {
            assert(first[j] == boards[j]);
        }
    }
    assert forall|k: int| #[trigger] last_among_first(boards, board_limit, k) implies from.contains(
        k,
    ) by {
        assert forall|j: int| k < j < first.len() implies (#[trigger] first[j]).id
            != first[k].id by {
            assert(boards[j].id != boards[k].id);
        }
        assert(last_of_number(first, k));
    }
    from
}

} // verus!

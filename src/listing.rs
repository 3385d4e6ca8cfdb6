use vstd::prelude::*;
use crate::card::{Card, CardView, card_views};
use crate::diff::{annotated_new, annotated_old, changes_of, diff, str_eq};
use crate::reconcile::without_guid;
use crate::review::{Review, ReviewView, review_views};

verus! {

/// The first card of `cards` whose id is `id`.
pub open spec fn card_for(cards: Seq<CardView>, id: i32) -> Option<CardView>
    decreases cards.len(),
{
    if cards.len() == 0 {
        None
    } else if cards[0].id == id {
        Some(cards[0])
    } else {
        card_for(cards.drop_first(), id)
    }
}

/// Each review that targets an existing card, with the first such card, in
/// the order of `reviews`; a review whose card is missing is left out.
pub open spec fn paired(cards: Seq<CardView>, reviews: Seq<ReviewView>) -> Seq<(CardView, ReviewView)>
    decreases reviews.len(),
{
    if reviews.len() == 0 {
        Seq::empty()
    } else {
        let rest = paired(cards, reviews.drop_last());
        match card_for(cards, reviews.last().id) {
            Some(c) => rest.push((c, reviews.last())),
            None => rest,
        }
    }
}

/// The views of a sequence of pairs.
pub open spec fn pair_views(s: Seq<(Card, Review)>) -> Seq<(CardView, ReviewView)> {
    s.map_values(|p: (Card, Review)| (p.0@, p.1@))
}

/// The position of the first card of `cards` whose id is `id`.
pub fn find_card(cards: &Vec<Card>, id: i32) -> (r: Option<usize>)
    ensures
        match r {
            Some(j) => j < cards@.len() && card_for(card_views(cards@), id) == Some(card_views(cards@)[j as int]),
            None => card_for(card_views(cards@), id) is None,
        },
{
    let ghost cv = card_views(cards@);
    let mut j: usize = 0;
    proof {
        assert(cv.subrange(0, cv.len() as int) =~= cv);
    }
    while j < cards.len()
        invariant
            j <= cards@.len(),
            cv == card_views(cards@),
            card_for(cv, id) == card_for(cv.subrange(j as int, cv.len() as int), id),
        decreases cards@.len() - j,
    {
        let ghost rest = cv.subrange(j as int, cv.len() as int);
        proof {
            assert(rest[0] == cv[j as int]);
            assert(rest.drop_first() =~= cv.subrange(j + 1, cv.len() as int));
        }
        if cards[j].id == id {
            return Some(j);
        }
        j = j + 1;
    }
    proof {
        assert(cv.subrange(j as int, cv.len() as int).len() == 0);
    }
    None
}

/// Pairs each review with the card it targets, for display; reviews whose
/// card is missing are left out. The reviews themselves are not touched.
pub fn pair(cards: &Vec<Card>, reviews: &Vec<Review>) -> (r: Vec<(Card, Review)>)
    ensures
        pair_views(r@) == paired(card_views(cards@), review_views(reviews@)),
{
    let ghost cv = card_views(cards@);
    let ghost rv = review_views(reviews@);
    let mut out: Vec<(Card, Review)> = Vec::new();
    let mut i: usize = 0;
    while i < reviews.len()
        invariant
            i <= reviews@.len(),
            cv == card_views(cards@),
            rv == review_views(reviews@),
            pair_views(out@) == paired(cv, rv.subrange(0, i as int)),
        decreases reviews@.len() - i,
    {
        let review = &reviews[i];
        proof {
            assert(rv.subrange(0, i + 1).drop_last() =~= rv.subrange(0, i as int));
            assert(rv.subrange(0, i + 1).last() == review@);
        }
        match find_card(cards, review.id) {
            Some(j) => {
                out.push((cards[j].clone(), review.clone()));
                proof {
                    assert(pair_views(out@) =~= paired(cv, rv.subrange(0, i as int)).push(
                        (cv[j as int], review@),
                    ));
                }
            },
            None => {},
        }
        i = i + 1;
    }
    proof {
        assert(rv.subrange(0, i as int) =~= rv);
    }
    out
}

/// Every listed pair holds a review of the collection together with the
/// card that it targets.
pub proof fn lemma_paired_members(cards: Seq<CardView>, reviews: Seq<ReviewView>)
    ensures
        forall|k: int| 0 <= k < paired(cards, reviews).len() ==> {
            &&& card_for(cards, #[trigger] paired(cards, reviews)[k].1.id) == Some(paired(cards, reviews)[k].0)
            &&& reviews.contains(paired(cards, reviews)[k].1)
        },
    decreases reviews.len(),
{
    if reviews.len() > 0 {
        let p = reviews.drop_last();
        lemma_paired_members(cards, p);
        assert forall|k: int| 0 <= k < paired(cards, reviews).len() implies {
            &&& card_for(cards, #[trigger] paired(cards, reviews)[k].1.id) == Some(paired(cards, reviews)[k].0)
            &&& reviews.contains(paired(cards, reviews)[k].1)
        } by {
            if k < paired(cards, p).len() {
                let x = paired(cards, p)[k].1;
                let m = choose|m: int| 0 <= m < p.len() && p[m] == x;
                assert(reviews[m] == x);
            } else {
                assert(reviews[reviews.len() - 1] == reviews.last());
            }
        }
    }
}

/// A review whose card is missing is not listed, though it stays in the
/// collection.
pub proof fn lemma_orphan_not_listed(cards: Seq<CardView>, reviews: Seq<ReviewView>, i: int)
    requires
        0 <= i < reviews.len(),
        card_for(cards, reviews[i].id) is None,
    ensures
        forall|k: int| 0 <= k < paired(cards, reviews).len() ==> #[trigger] paired(cards, reviews)[k].1 != reviews[i],
{
    lemma_paired_members(cards, reviews);
}

/// After the reviews carrying `g` are deleted, no listed review carries `g`.
pub proof fn lemma_deleted_not_listed(cards: Seq<CardView>, reviews: Seq<ReviewView>, g: Seq<char>)
    ensures
        forall|k: int| 0 <= k < paired(cards, without_guid(reviews, g)).len()
            ==> #[trigger] paired(cards, without_guid(reviews, g))[k].1.guid != Some(g),
{
    let w = without_guid(reviews, g);
    crate::reconcile::lemma_without_guid_drops(reviews, g);
    lemma_paired_members(cards, w);
    assert forall|k: int| 0 <= k < paired(cards, w).len() implies #[trigger] paired(cards, w)[k].1.guid
        != Some(g) by {
        let x = paired(cards, w)[k].1;
        assert(card_for(cards, paired(cards, w)[k].1.id) == Some(paired(cards, w)[k].0));
        assert(w.contains(x));
        let m = choose|m: int| 0 <= m < w.len() && w[m] == x;
        assert(w[m].guid != Some(g));
    }
}

/// The label of the attribute whose values are shown as a text difference.
pub const TEXT_ATTR: &'static str = "Text";

/// The two cells of one attribute row: for the text attribute, when the
/// values differ, the annotated texts of their difference; otherwise the
/// values as they are.
pub fn table_cells(attr: &str, old: &str, new: &str) -> (r: (String, String))
    ensures
        attr@ == TEXT_ATTR@ && old@ != new@ ==> r.0@ == annotated_old(changes_of(old@, new@))
            && r.1@ == annotated_new(changes_of(old@, new@)),
        !(attr@ == TEXT_ATTR@ && old@ != new@) ==> r.0@ == old@ && r.1@ == new@,
{
    if str_eq(attr, TEXT_ATTR) && !str_eq(old, new) {
        diff(old, new)
    } else {
        (String::from_str(old), String::from_str(new))
    }
}

/// The markup of one attribute row, `attr` as its header and the two cells
/// after it.
pub open spec fn row_markup(attr: Seq<char>, old: Seq<char>, new: Seq<char>) -> Seq<char> {
    ROW_OPEN@ + HEAD_OPEN@ + attr + HEAD_CLOSE@ + CELL_OPEN@ + old + CELL_CLOSE@ + CELL_OPEN@ + new
        + CELL_CLOSE@ + ROW_CLOSE@
}

pub const ROW_OPEN: &'static str = "<tr class=\"w-80 \">";

pub const HEAD_OPEN: &'static str = "<th scope=\"col\">";

pub const HEAD_CLOSE: &'static str = "</th>";

pub const CELL_OPEN: &'static str = "<td scope=\"col\">";

pub const CELL_CLOSE: &'static str = "</td>";

pub const ROW_CLOSE: &'static str = "</tr>";

/// The table row for one attribute of a card and of a review of it, the
/// card's value first.
pub fn table_row(attr: &str, old: &str, new: &str) -> (r: String)
    ensures
        attr@ == TEXT_ATTR@ && old@ != new@ ==> r@ == row_markup(
            attr@,
            annotated_old(changes_of(old@, new@)),
            annotated_new(changes_of(old@, new@)),
        ),
        !(attr@ == TEXT_ATTR@ && old@ != new@) ==> r@ == row_markup(attr@, old@, new@),
{
    let (o, n) = table_cells(attr, old, new);
    let mut r = String::from_str(ROW_OPEN);
    r.append(HEAD_OPEN);
    r.append(attr);
    r.append(HEAD_CLOSE);
    r.append(CELL_OPEN);
    r.append(o.as_str());
    r.append(CELL_CLOSE);
    r.append(CELL_OPEN);
    r.append(n.as_str());
    r.append(CELL_CLOSE);
    r.append(ROW_CLOSE);
    r
}

} // verus!

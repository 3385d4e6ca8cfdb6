use vstd::prelude::*;
use crate::card::{Card, CardView, card_views};
use crate::error::Error;
use crate::review::{Review, ReviewView, content_equal, is_noop_for, review_views};

verus! {

/// `r` repeats a stored review, or changes nothing on a card it targets.
pub open spec fn is_duplicate(reviews: Seq<ReviewView>, cards: Seq<CardView>, r: ReviewView) -> bool {
    ||| exists|i: int| 0 <= i < reviews.len() && #[trigger] content_equal(reviews[i], r)
    ||| exists|j: int| 0 <= j < cards.len() && #[trigger] is_noop_for(r, cards[j])
}

/// Some stored review carries the identifier `g`.
pub open spec fn guid_in_use(reviews: Seq<ReviewView>, g: Seq<char>) -> bool {
    exists|i: int| 0 <= i < reviews.len() && #[trigger] reviews[i].guid == Some(g)
}

/// The reviews that do not carry the identifier `g`, in their order.
pub open spec fn without_guid(reviews: Seq<ReviewView>, g: Seq<char>) -> Seq<ReviewView>
    decreases reviews.len(),
{
    if reviews.len() == 0 {
        Seq::empty()
    } else {
        let rest = without_guid(reviews.drop_last(), g);
        if reviews.last().guid == Some(g) {
            rest
        } else {
            rest.push(reviews.last())
        }
    }
}

/// Whether any review of `reviews` is content-equal to `review`.
fn repeats_review(reviews: &Vec<Review>, review: &Review) -> (r: bool)
    ensures
        r == exists|i: int|
            0 <= i < reviews@.len() && #[trigger] content_equal(review_views(reviews@)[i], review@),
{
    let ghost rv = review_views(reviews@);
    let mut i: usize = 0;
    while i < reviews.len()
        invariant
            i <= reviews@.len(),
            rv == review_views(reviews@),
            forall|k: int| 0 <= k < i ==> !#[trigger] content_equal(rv[k], review@),
        decreases reviews@.len() - i,
    {
        if reviews[i].eq(review) {
            assert(content_equal(rv[i as int], review@));
            return true;
        }
        i = i + 1;
    }
    false
}

/// Whether `review` changes nothing on a card that it targets.
fn changes_nothing(cards: &Vec<Card>, review: &Review) -> (r: bool)
    ensures
        r == exists|j: int| 0 <= j < cards@.len() && #[trigger] is_noop_for(review@, card_views(cards@)[j]),
{
    let ghost cv = card_views(cards@);
    let mut j: usize = 0;
    while j < cards.len()
        invariant
            j <= cards@.len(),
            cv == card_views(cards@),
            forall|k: int| 0 <= k < j ==> !#[trigger] is_noop_for(review@, cv[k]),
        decreases cards@.len() - j,
    {
        if review.equals_card(&cards[j]) {
            assert(is_noop_for(review@, cv[j as int]));
            return true;
        }
        j = j + 1;
    }
    false
}

/// Appends `review` to `reviews` unless it repeats a stored review or
/// changes nothing on the card it targets; then nothing is stored.
pub fn write_review(reviews: &mut Vec<Review>, cards: &Vec<Card>, review: Review) -> (r: Result<(), Error>)
    ensures
        is_duplicate(review_views(old(reviews)@), card_views(cards@), review@) ==> r == Err::<(), Error>(Error::DuplicateReview)
            && final(reviews)@ == old(reviews)@,
        !is_duplicate(review_views(old(reviews)@), card_views(cards@), review@) ==> r == Ok::<(), Error>(())
            && final(reviews)@ == old(reviews)@.push(review),
{
    let invalid = repeats_review(reviews, &review) || changes_nothing(cards, &review);
    if invalid {
        return Err(Error::DuplicateReview);
    }
    reviews.push(review);
    Ok(())
}

/// Relies on `uuid::Uuid::new_v4` and on its `Display`, which writes the
/// hyphenated form: 36 characters. The value itself is random.
#[verifier::external_body]
fn new_guid() -> (r: String)
    ensures
        r@.len() == 36,
{
    uuid::Uuid::new_v4().to_string()
}

/// Whether some review of `reviews` carries the identifier `g`.
fn guid_taken(reviews: &Vec<Review>, g: &String) -> (r: bool)
    ensures
        r == guid_in_use(review_views(reviews@), g@),
{
    let ghost rv = review_views(reviews@);
    let mut i: usize = 0;
    while i < reviews.len()
        invariant
            i <= reviews@.len(),
            rv == review_views(reviews@),
            forall|k: int| 0 <= k < i ==> #[trigger] rv[k].guid != Some(g@),
        decreases reviews@.len() - i,
    {
        match &reviews[i].guid {
            Some(x) => {
                if x.eq(g) {
                    assert(rv[i as int].guid == Some(g@));
                    return true;
                }
            },
            None => {},
        }
        i = i + 1;
    }
    false
}

/// An identifier that no review of `reviews` carries: `candidate` itself
/// when it is non-empty and free; otherwise `candidate` extended until it is
/// longer than every identifier in use.
pub fn fresh_guid(reviews: &Vec<Review>, candidate: String) -> (g: String)
    ensures
        g@.len() > 0,
        !guid_in_use(review_views(reviews@), g@),
        candidate@.len() > 0 && !guid_in_use(review_views(reviews@), candidate@) ==> g@ == candidate@,
{
    let ghost rv = review_views(reviews@);
    if !candidate.as_str().is_empty() && !guid_taken(reviews, &candidate) {
        return candidate;
    }
    let mut g = candidate;
    g.append("-");
    proof {
        reveal_strlit("-");
    }
    let mut i: usize = 0;
    while i < reviews.len()
        invariant
            i <= reviews@.len(),
            rv == review_views(reviews@),
            g@.len() > 0,
            forall|k: int| 0 <= k < i ==> (#[trigger] rv[k].guid matches Some(x) ==> x.len() < g@.len()),
        decreases reviews@.len() - i,
    {
        match &reviews[i].guid {
            Some(x) => {
                g.append(x.as_str());
            },
            None => {},
        }
        i = i + 1;
    }
    proof {
        assert forall|k: int| 0 <= k < rv.len() implies #[trigger] rv[k].guid != Some(g@) by {
            assert(rv[k].guid matches Some(x) ==> x.len() < g@.len());
        }
    }
    g
}

/// Accepts `review` under a fresh identifier and stores it, or rejects it as
/// a duplicate and leaves `reviews` as it was.
pub fn submit_review(reviews: &mut Vec<Review>, cards: &Vec<Card>, review: Review) -> (r: Result<Review, Error>)
    ensures
        is_duplicate(review_views(old(reviews)@), card_views(cards@), review@) ==> r == Err::<Review, Error>(Error::DuplicateReview)
            && final(reviews)@ == old(reviews)@,
        !is_duplicate(review_views(old(reviews)@), card_views(cards@), review@) ==> {
            &&& r is Ok
            &&& r->Ok_0@ == crate::review::with_guid(review@, r->Ok_0@.guid)
            &&& r->Ok_0@.guid matches Some(g) && g.len() > 0 && !guid_in_use(review_views(old(reviews)@), g)
            &&& review_views(final(reviews)@) == review_views(old(reviews)@).push(r->Ok_0@)
        },
{
    let ghost rv = review_views(reviews@);
    let ghost cv = card_views(cards@);
    let guid = fresh_guid(reviews, new_guid());
    let ghost g = guid@;
    let stamped = review.stamped(guid);
    let accepted = stamped.clone();
    proof {
        assert(is_duplicate(rv, cv, stamped@) == is_duplicate(rv, cv, review@)) by {
            assert forall|i: int| 0 <= i < rv.len() implies #[trigger] content_equal(rv[i], stamped@)
                == content_equal(rv[i], review@) by {}
            assert forall|j: int| 0 <= j < cv.len() implies #[trigger] is_noop_for(stamped@, cv[j])
                == is_noop_for(review@, cv[j]) by {}
            if is_duplicate(rv, cv, review@) {
                if exists|i: int| 0 <= i < rv.len() && #[trigger] content_equal(rv[i], review@) {
                    let i = choose|i: int| 0 <= i < rv.len() && #[trigger] content_equal(rv[i], review@);
                    assert(content_equal(rv[i], stamped@));
                } else {
                    let j = choose|j: int| 0 <= j < cv.len() && #[trigger] is_noop_for(review@, cv[j]);
                    assert(is_noop_for(stamped@, cv[j]));
                }
            }
            if is_duplicate(rv, cv, stamped@) {
                if exists|i: int| 0 <= i < rv.len() && #[trigger] content_equal(rv[i], stamped@) {
                    let i = choose|i: int| 0 <= i < rv.len() && #[trigger] content_equal(rv[i], stamped@);
                    assert(content_equal(rv[i], review@));
                } else {
                    let j = choose|j: int| 0 <= j < cv.len() && #[trigger] is_noop_for(stamped@, cv[j]);
                    assert(is_noop_for(review@, cv[j]));
                }
            }
        }
    }
    match write_review(reviews, cards, stamped) {
        Ok(()) => {
            proof {
                assert(review_views(reviews@) =~= rv.push(accepted@));
            }
            Ok(accepted)
        },
        Err(e) => Err(e),
    }
}

/// Removes every review that carries the identifier `guid`; the others stay,
/// in their order.
pub fn delete_review(reviews: &mut Vec<Review>, guid: &str) -> (r: ())
    ensures
        review_views(final(reviews)@) == without_guid(review_views(old(reviews)@), guid@),
{
    let ghost rv = review_views(reviews@);
    let target = String::from_str(guid);
    let mut kept: Vec<Review> = Vec::new();
    let mut i: usize = 0;
    while i < reviews.len()
        invariant
            i <= reviews@.len(),
            rv == review_views(reviews@),
            target@ == guid@,
            review_views(kept@) == without_guid(rv.subrange(0, i as int), guid@),
        decreases reviews@.len() - i,
    {
        let r = &reviews[i];
        let matches_target = match &r.guid {
            Some(x) => x.eq(&target),
            None => false,
        };
        proof {
            assert(rv.subrange(0, i + 1).drop_last() =~= rv.subrange(0, i as int));
            assert(rv.subrange(0, i + 1).last() == r@);
        }
        if !matches_target {
            kept.push(r.clone());
            proof {
                assert(review_views(kept@) =~= without_guid(rv.subrange(0, i as int), guid@).push(r@));
            }
        }
        i = i + 1;
    }
    proof {
        assert(rv.subrange(0, i as int) =~= rv);
    }
    *reviews = kept;
}

/// Deleting leaves no review that carries `g`, and keeps only reviews of the
/// collection.
pub proof fn lemma_without_guid_drops(reviews: Seq<ReviewView>, g: Seq<char>)
    ensures
        forall|k: int| 0 <= k < without_guid(reviews, g).len() ==> {
            &&& #[trigger] without_guid(reviews, g)[k].guid != Some(g)
            &&& reviews.contains(without_guid(reviews, g)[k])
        },
    decreases reviews.len(),
{
    if reviews.len() > 0 {
        let p = reviews.drop_last();
        lemma_without_guid_drops(p, g);
        assert forall|k: int| 0 <= k < without_guid(reviews, g).len() implies {
            &&& #[trigger] without_guid(reviews, g)[k].guid != Some(g)
            &&& reviews.contains(without_guid(reviews, g)[k])
        } by {
            if k < without_guid(p, g).len() {
                let x = without_guid(p, g)[k];
                let m = choose|m: int| 0 <= m < p.len() && p[m] == x;
                assert(reviews[m] == x);
            } else {
                assert(reviews[reviews.len() - 1] == reviews.last());
            }
        }
    }
}

/// Deleting an identifier that no review carries leaves the collection as
/// it was.
pub proof fn lemma_delete_absent(reviews: Seq<ReviewView>, g: Seq<char>)
    requires
        !guid_in_use(reviews, g),
    ensures
        without_guid(reviews, g) == reviews,
    decreases reviews.len(),
{
    if reviews.len() > 0 {
        let p = reviews.drop_last();
        assert forall|i: int| 0 <= i < p.len() implies #[trigger] p[i].guid != Some(g) by {
            assert(reviews[i] == p[i]);
        }
        lemma_delete_absent(p, g);
        assert(reviews[reviews.len() - 1] == reviews.last());
        assert(p.push(reviews.last()) =~= reviews);
    }
}

/// Once a review is stored, submitting any review content-equal to it, in
/// whichever order the two were written, is a duplicate.
pub proof fn lemma_resubmission_rejected(
    reviews: Seq<ReviewView>,
    cards: Seq<CardView>,
    stored: ReviewView,
    again: ReviewView,
)
    requires
        content_equal(stored, again) || content_equal(again, stored),
    ensures
        is_duplicate(reviews.push(stored), cards, again),
{
    let s = reviews.push(stored);
    assert(s[reviews.len() as int] == stored);
    assert(content_equal(s[reviews.len() as int], again));
}

/// A review that proposes exactly the values of a card it targets is a
/// duplicate, whatever else is stored.
pub proof fn lemma_noop_rejected(reviews: Seq<ReviewView>, cards: Seq<CardView>, r: ReviewView, j: int)
    requires
        0 <= j < cards.len(),
        is_noop_for(r, cards[j]),
    ensures
        is_duplicate(reviews, cards, r),
{
}

} // verus!

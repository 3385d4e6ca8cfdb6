use vstd::prelude::*;
use crate::card::CardView;

verus! {

/// A proposed edit to the card whose `id` it carries.
#[derive(Debug)]
pub struct Review {
    pub id: i32,
    pub text: String,
    pub count: u32,
    pub uses: i32,
    pub rounds: i32,
    pub personal: bool,
    pub remote: bool,
    pub unique: bool,
    pub note: String,
    pub branch: String,
    pub guid: Option<String>,
}

/// The mathematical value of a `Review`.
pub ghost struct ReviewView {
    pub id: i32,
    pub text: Seq<char>,
    pub count: u32,
    pub uses: i32,
    pub rounds: i32,
    pub personal: bool,
    pub remote: bool,
    pub unique: bool,
    pub note: Seq<char>,
    pub branch: Seq<char>,
    pub guid: Option<Seq<char>>,
}

pub open spec fn opt_view(o: Option<String>) -> Option<Seq<char>> {
    match o {
        Some(s) => Some(s@),
        None => None,
    }
}

impl View for Review {
    type V = ReviewView;

    open spec fn view(&self) -> ReviewView {
        ReviewView {
            id: self.id,
            text: self.text@,
            count: self.count,
            uses: self.uses,
            rounds: self.rounds,
            personal: self.personal,
            remote: self.remote,
            unique: self.unique,
            note: self.note@,
            branch: self.branch@,
            guid: opt_view(self.guid),
        }
    }
}

/// The views of a sequence of reviews.
pub open spec fn review_views(s: Seq<Review>) -> Seq<ReviewView> {
    s.map_values(|r: Review| r@)
}

/// Two reviews are the same submission when every field but `guid` agrees.
pub open spec fn content_equal(a: ReviewView, b: ReviewView) -> bool {
    &&& a.id == b.id
    &&& a.text == b.text
    &&& a.count == b.count
    &&& a.uses == b.uses
    &&& a.rounds == b.rounds
    &&& a.personal == b.personal
    &&& a.remote == b.remote
    &&& a.unique == b.unique
    &&& a.note == b.note
    &&& a.branch == b.branch
}

/// The review targets `c` and proposes exactly the values it already has.
pub open spec fn is_noop_for(r: ReviewView, c: CardView) -> bool {
    &&& r.id == c.id
    &&& r.text == c.text
    &&& r.count == c.count
    &&& r.uses == c.uses
    &&& r.rounds == c.rounds
    &&& r.personal == c.personal
    &&& r.remote == c.remote
    &&& r.unique == c.unique
}

/// `r` with its identifier replaced by `guid`.
pub open spec fn with_guid(r: ReviewView, guid: Option<Seq<char>>) -> ReviewView {
    ReviewView { guid, ..r }
}

/// Reviews that differ only in their identifier are content-equal.
pub proof fn lemma_content_equal_ignores_guid(r: ReviewView, guid: Option<Seq<char>>)
    ensures
        content_equal(r, with_guid(r, guid)),
        content_equal(with_guid(r, guid), r),
{
}

fn str_eq(a: &String, b: &String) -> (r: bool)
    ensures
        r == (a@ == b@),
{
    a.eq(b)
}

impl Review {
    /// Whether `self` proposes exactly the values that `card` already has,
    /// `card` being the card it targets.
    pub fn equals_card(&self, card: &crate::card::Card) -> (r: bool)
        ensures
            r == is_noop_for(self@, card@),
    {
        self.id == card.id && str_eq(&self.text, &card.text) && self.count == card.count
            && self.uses == card.uses && self.rounds == card.rounds && self.personal
            == card.personal && self.remote == card.remote && self.unique == card.unique
    }

    /// A copy of `self` that carries `guid` as its identifier.
    pub fn stamped(&self, guid: String) -> (r: Review)
        ensures
            r@ == with_guid(self@, Some(guid@)),
    {
        Review {
            id: self.id,
            text: self.text.clone(),
            count: self.count,
            uses: self.uses,
            rounds: self.rounds,
            personal: self.personal,
            remote: self.remote,
            unique: self.unique,
            note: self.note.clone(),
            branch: self.branch.clone(),
            guid: Some(guid),
        }
    }
}

impl Clone for Review {
    fn clone(&self) -> (r: Review)
        ensures
            r@ == self@,
    {
        let guid = match &self.guid {
            Some(g) => Some(g.clone()),
            None => None,
        };
        Review {
            id: self.id,
            text: self.text.clone(),
            count: self.count,
            uses: self.uses,
            rounds: self.rounds,
            personal: self.personal,
            remote: self.remote,
            unique: self.unique,
            note: self.note.clone(),
            branch: self.branch.clone(),
            guid,
        }
    }
}

impl PartialEq for Review {
    /// Content equality: every field but `guid`.
    fn eq(&self, other: &Review) -> (r: bool) {
        self.id == other.id && str_eq(&self.text, &other.text) && self.count == other.count
            && self.uses == other.uses && self.rounds == other.rounds && self.personal
            == other.personal && self.remote == other.remote && self.unique == other.unique
            && str_eq(&self.note, &other.note) && str_eq(&self.branch, &other.branch)
    }
}

impl vstd::std_specs::cmp::PartialEqSpecImpl for Review {
    open spec fn obeys_eq_spec() -> bool {
        true
    }

    open spec fn eq_spec(&self, other: &Review) -> bool {
        content_equal(self@, other@)
    }
}

} // verus!

use vstd::prelude::*;

verus! {

/// A canonical entry of the deck.
#[derive(Debug)]
pub struct Card {
    pub id: i32,
    pub text: String,
    pub count: u32,
    pub uses: i32,
    pub rounds: i32,
    pub personal: bool,
    pub remote: bool,
    pub unique: bool,
}

/// The mathematical value of a `Card`.
pub ghost struct CardView {
    pub id: i32,
    pub text: Seq<char>,
    pub count: u32,
    pub uses: i32,
    pub rounds: i32,
    pub personal: bool,
    pub remote: bool,
    pub unique: bool,
}

impl View for Card {
    type V = CardView;

    open spec fn view(&self) -> CardView {
        CardView {
            id: self.id,
            text: self.text@,
            count: self.count,
            uses: self.uses,
            rounds: self.rounds,
            personal: self.personal,
            remote: self.remote,
            unique: self.unique,
        }
    }
}

/// The views of a sequence of cards.
pub open spec fn card_views(s: Seq<Card>) -> Seq<CardView> {
    s.map_values(|c: Card| c@)
}

impl Clone for Card {
    fn clone(&self) -> (r: Card)
        ensures
            r@ == self@,
    {
        Card {
            id: self.id,
            text: self.text.clone(),
            count: self.count,
            uses: self.uses,
            rounds: self.rounds,
            personal: self.personal,
            remote: self.remote,
            unique: self.unique,
        }
    }
}

} // verus!

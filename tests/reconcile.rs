use dgc_review::listing::{pair, table_row};
use dgc_review::reconcile::{delete_review, fresh_guid, submit_review, write_review};
use dgc_review::{Card, Error, Review};

fn card(id: i32, text: &str) -> Card {
    Card {
        id,
        text: text.to_string(),
        count: 1,
        uses: 0,
        rounds: 0,
        personal: false,
        remote: false,
        unique: false,
    }
}

fn review(id: i32, text: &str, guid: Option<&str>) -> Review {
    Review {
        id,
        text: text.to_string(),
        count: 1,
        uses: 0,
        rounds: 0,
        personal: false,
        remote: false,
        unique: false,
        note: "better".to_string(),
        branch: "v2".to_string(),
        guid: guid.map(|g| g.to_string()),
    }
}

#[test]
fn reviews_differing_only_in_guid_are_equal() {
    let a = review(1, "Drink twice", Some("a"));
    let b = review(1, "Drink twice", Some("b"));
    let c = review(1, "Drink twice", None);
    assert!(a == b);
    assert!(a == c);
    let d = review(1, "Drink thrice", Some("a"));
    assert!(a != d);
}

#[test]
fn write_review_appends_new_review() {
    let cards = vec![card(1, "Drink")];
    let mut reviews = Vec::new();
    let r = write_review(&mut reviews, &cards, review(1, "Drink twice", Some("g1")));
    assert_eq!(r, Ok(()));
    assert_eq!(reviews.len(), 1);
    assert_eq!(reviews[0].text, "Drink twice");
}

#[test]
fn write_review_rejects_repeat() {
    let cards = vec![card(1, "Drink")];
    let mut reviews = vec![review(1, "Drink twice", Some("g1"))];
    let r = write_review(&mut reviews, &cards, review(1, "Drink twice", Some("g2")));
    assert_eq!(r, Err(Error::DuplicateReview));
    assert_eq!(reviews.len(), 1);
    assert_eq!(reviews[0].guid.as_deref(), Some("g1"));
}

#[test]
fn write_review_rejects_noop_edit() {
    let cards = vec![card(1, "Drink"), card(2, "Sip")];
    let mut reviews = Vec::new();
    let r = write_review(&mut reviews, &cards, review(1, "Drink", None));
    assert_eq!(r, Err(Error::DuplicateReview));
    assert!(reviews.is_empty());
}

#[test]
fn write_review_accepts_other_cards_text() {
    // the same text as another card is an edit, not a no-op
    let cards = vec![card(1, "Drink"), card(2, "Sip")];
    let mut reviews = Vec::new();
    let r = write_review(&mut reviews, &cards, review(1, "Sip", None));
    assert_eq!(r, Ok(()));
    assert_eq!(reviews.len(), 1);
}

#[test]
fn submit_assigns_fresh_guid() {
    let cards = vec![card(1, "Drink")];
    let mut reviews = vec![review(1, "Drink once more", Some("g1"))];
    let accepted = submit_review(&mut reviews, &cards, review(1, "Drink twice", None)).unwrap();
    let g = accepted.guid.clone().unwrap();
    assert_eq!(g.chars().count(), 36);
    assert_ne!(g, "g1");
    assert_eq!(reviews.len(), 2);
    assert_eq!(reviews[1].guid.as_deref(), Some(g.as_str()));
    assert_eq!(reviews[1].text, "Drink twice");
}

#[test]
fn submit_twice_is_rejected_second_time() {
    let cards = vec![card(1, "Drink")];
    let mut reviews = Vec::new();
    let first = submit_review(&mut reviews, &cards, review(1, "Drink twice", None));
    assert!(first.is_ok());
    let second = submit_review(&mut reviews, &cards, review(1, "Drink twice", None));
    assert!(matches!(second, Err(Error::DuplicateReview)));
    assert_eq!(reviews.len(), 1);
}

#[test]
fn submit_rejects_noop_edit() {
    let cards = vec![card(1, "Drink")];
    let mut reviews = Vec::new();
    let r = submit_review(&mut reviews, &cards, review(1, "Drink", None));
    assert!(matches!(r, Err(Error::DuplicateReview)));
    assert!(reviews.is_empty());
}

#[test]
fn submitted_guids_are_distinct() {
    let cards = vec![card(1, "Drink")];
    let mut reviews = Vec::new();
    for text in ["a", "b", "c", "d"] {
        submit_review(&mut reviews, &cards, review(1, text, None)).unwrap();
    }
    for i in 0..reviews.len() {
        for j in 0..reviews.len() {
            if i != j {
                assert_ne!(reviews[i].guid, reviews[j].guid);
            }
        }
    }
}

#[test]
fn fresh_guid_keeps_free_candidate() {
    let reviews = vec![review(1, "x", Some("abc"))];
    assert_eq!(fresh_guid(&reviews, "xyz".to_string()), "xyz");
}

#[test]
fn fresh_guid_extends_taken_candidate() {
    let reviews = vec![review(1, "x", Some("abc")), review(1, "y", Some("abc-abc")), review(1, "z", None)];
    let g = fresh_guid(&reviews, "abc".to_string());
    assert_eq!(g, "abc-abcabc-abc");
    let e = fresh_guid(&Vec::new(), String::new());
    assert_eq!(e, "-");
}

#[test]
fn delete_removes_matching_review() {
    let mut reviews = vec![review(1, "a", Some("g1")), review(1, "b", Some("g2")), review(2, "c", None)];
    delete_review(&mut reviews, "g1");
    assert_eq!(reviews.len(), 2);
    assert_eq!(reviews[0].guid.as_deref(), Some("g2"));
    assert_eq!(reviews[1].guid, None);
    let cards = vec![card(1, "Drink"), card(2, "Sip")];
    let listed = pair(&cards, &reviews);
    assert!(listed.iter().all(|(_, r)| r.guid.as_deref() != Some("g1")));
}

#[test]
fn delete_missing_guid_changes_nothing() {
    let mut reviews = vec![review(1, "a", Some("g1")), review(1, "b", Some("g2"))];
    delete_review(&mut reviews, "nope");
    assert_eq!(reviews.len(), 2);
    assert_eq!(reviews[0].guid.as_deref(), Some("g1"));
    assert_eq!(reviews[1].guid.as_deref(), Some("g2"));
}

#[test]
fn pair_drops_orphans() {
    let cards = vec![card(1, "Drink"), card(2, "Sip")];
    let reviews = vec![review(1, "a", Some("g1")), review(7, "b", Some("g2")), review(2, "c", Some("g3"))];
    let listed = pair(&cards, &reviews);
    assert_eq!(listed.len(), 2);
    assert_eq!(listed[0].0.text, "Drink");
    assert_eq!(listed[0].1.guid.as_deref(), Some("g1"));
    assert_eq!(listed[1].0.text, "Sip");
    assert_eq!(listed[1].1.guid.as_deref(), Some("g3"));
    assert_eq!(reviews.len(), 3);
}

#[test]
fn pair_uses_first_card_with_id() {
    let cards = vec![card(1, "first"), card(1, "second")];
    let reviews = vec![review(1, "a", Some("g1"))];
    let listed = pair(&cards, &reviews);
    assert_eq!(listed.len(), 1);
    assert_eq!(listed[0].0.text, "first");
}

#[test]
fn scenario_drink_twice_listed_with_diff() {
    let cards = vec![card(1, "Drink")];
    let mut reviews = Vec::new();
    let accepted = submit_review(&mut reviews, &cards, review(1, "Drink twice", None)).unwrap();
    assert!(!accepted.guid.clone().unwrap().is_empty());
    let listed = pair(&cards, &reviews);
    assert_eq!(listed.len(), 1);
    assert_eq!(listed[0].0.id, 1);
    assert_eq!(listed[0].1.text, "Drink twice");
    let row = table_row("Text", &listed[0].0.text, &listed[0].1.text);
    assert_eq!(
        row,
        "<tr class=\"w-80 \"><th scope=\"col\">Text</th><td scope=\"col\">Drink</td>\
         <td scope=\"col\">Drink<b style='color: green;'> twice</b></td></tr>"
    );
}

#[test]
fn equals_card_compares_gameplay_fields() {
    let c = card(1, "Drink");
    assert!(review(1, "Drink", Some("g")).equals_card(&c));
    assert!(!review(2, "Drink", None).equals_card(&c));
    let mut r = review(1, "Drink", None);
    r.unique = true;
    assert!(!r.equals_card(&c));
}

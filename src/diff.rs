use vstd::prelude::*;

verus! {

/// How a span of text fares between the old and the new version.
#[derive(Clone, Copy, Debug, PartialEq, Eq, Structural)]
pub enum ChangeKind {
    /// Present in both versions.
    Same,
    /// Present only in the new version.
    Add,
    /// Present only in the old version.
    Rem,
}

/// One span of an edit script.
pub struct Change {
    pub kind: ChangeKind,
    pub text: String,
}

/// An edit script as plain values.
pub open spec fn change_views(s: Seq<Change>) -> Seq<(ChangeKind, Seq<char>)> {
    s.map_values(|c: Change| (c.kind, c.text@))
}

/// The old version spelled by a script: its `Same` and `Rem` spans in order.
pub open spec fn old_side(s: Seq<(ChangeKind, Seq<char>)>) -> Seq<char>
    decreases s.len(),
{
    if s.len() == 0 {
        Seq::empty()
    } else {
        old_side(s.drop_last()) + if s.last().0 != ChangeKind::Add {
            s.last().1
        } else {
            Seq::empty()
        }
    }
}

/// The new version spelled by a script: its `Same` and `Add` spans in order.
pub open spec fn new_side(s: Seq<(ChangeKind, Seq<char>)>) -> Seq<char>
    decreases s.len(),
{
    if s.len() == 0 {
        Seq::empty()
    } else {
        new_side(s.drop_last()) + if s.last().0 != ChangeKind::Rem {
            s.last().1
        } else {
            Seq::empty()
        }
    }
}

/// The character-level edit script that turns `orig` into `edit`.
pub uninterp spec fn changes_of(orig: Seq<char>, edit: Seq<char>) -> Seq<(ChangeKind, Seq<char>)>;

/// Relies on `difference::Changeset::new` with an empty separator, which
/// splits both texts into characters and merges them along a longest common
/// subsequence: every character of `orig` lands, in order, in a `Same` or a
/// `Rem` span, and every character of `edit` in a `Same` or an `Add` span.
#[verifier::external_body]
fn changeset(orig: &str, edit: &str) -> (r: Vec<Change>)
    ensures
        change_views(r@) == changes_of(orig@, edit@),
        old_side(change_views(r@)) == orig@,
        new_side(change_views(r@)) == edit@,
{
    difference::Changeset::new(orig, edit, "").diffs.into_iter().map(
        |d| match d {
            difference::Difference::Same(text) => Change { kind: ChangeKind::Same, text },
            difference::Difference::Add(text) => Change { kind: ChangeKind::Add, text },
            difference::Difference::Rem(text) => Change { kind: ChangeKind::Rem, text },
        },
    ).collect()
}

pub const ADD_OPEN: &'static str = "<b style='color: green;'>";

pub const REM_OPEN: &'static str = "<b style='color: red;'>";

pub const MARK_CLOSE: &'static str = "</b>";

/// `t` wrapped in the marker that opens with `open`; nothing when `t` is empty.
pub open spec fn marked(open: Seq<char>, t: Seq<char>) -> Seq<char> {
    if t.len() == 0 {
        Seq::empty()
    } else {
        open + t + MARK_CLOSE@
    }
}

/// What one span contributes to the annotated old text.
pub open spec fn old_piece(c: (ChangeKind, Seq<char>)) -> Seq<char> {
    match c.0 {
        ChangeKind::Same => c.1,
        ChangeKind::Rem => marked(REM_OPEN@, c.1),
        ChangeKind::Add => Seq::empty(),
    }
}

/// What one span contributes to the annotated new text.
pub open spec fn new_piece(c: (ChangeKind, Seq<char>)) -> Seq<char> {
    match c.0 {
        ChangeKind::Same => c.1,
        ChangeKind::Add => marked(ADD_OPEN@, c.1),
        ChangeKind::Rem => Seq::empty(),
    }
}

/// The annotated old text: unchanged spans verbatim, removed spans marked.
pub open spec fn annotated_old(s: Seq<(ChangeKind, Seq<char>)>) -> Seq<char>
    decreases s.len(),
{
    if s.len() == 0 {
        Seq::empty()
    } else {
        annotated_old(s.drop_last()) + old_piece(s.last())
    }
}

/// The annotated new text: unchanged spans verbatim, inserted spans marked.
pub open spec fn annotated_new(s: Seq<(ChangeKind, Seq<char>)>) -> Seq<char>
    decreases s.len(),
{
    if s.len() == 0 {
        Seq::empty()
    } else {
        annotated_new(s.drop_last()) + new_piece(s.last())
    }
}

/// Only the inserted spans of a script, each marked, in order.
pub open spec fn marked_insertions(s: Seq<(ChangeKind, Seq<char>)>) -> Seq<char>
    decreases s.len(),
{
    if s.len() == 0 {
        Seq::empty()
    } else {
        marked_insertions(s.drop_last()) + if s.last().0 == ChangeKind::Add {
            marked(ADD_OPEN@, s.last().1)
        } else {
            Seq::empty()
        }
    }
}

/// A script whose old side is empty annotates to an empty old text and to a
/// new text made of marked insertions alone.
pub proof fn lemma_from_empty(s: Seq<(ChangeKind, Seq<char>)>)
    requires
        old_side(s).len() == 0,
    ensures
        annotated_old(s).len() == 0,
        annotated_new(s) == marked_insertions(s),
    decreases s.len(),
{
    if s.len() > 0 {
        let p = s.drop_last();
        assert(old_side(s) == old_side(p) + if s.last().0 != ChangeKind::Add {
            s.last().1
        } else {
            Seq::empty()
        });
        lemma_from_empty(p);
        if s.last().0 == ChangeKind::Same {
            assert(s.last().1.len() == 0);
            assert(new_piece(s.last()) =~= Seq::empty());
        }
        if s.last().0 == ChangeKind::Rem {
            assert(s.last().1.len() == 0);
        }
        assert(annotated_new(s) =~= marked_insertions(s));
        assert(annotated_old(s) =~= Seq::empty());
    }
}

/// The character-level edit script between two texts, with `Same` and `Rem`
/// spans spelling `s1` and `Same` and `Add` spans spelling `s2`.
pub fn changes(s1: &str, s2: &str) -> (r: Vec<Change>)
    ensures
        change_views(r@) == changes_of(s1@, s2@),
        old_side(change_views(r@)) == s1@,
        new_side(change_views(r@)) == s2@,
{
    changeset(s1, s2)
}

/// Renders an edit script as an annotated old text and an annotated new text.
pub fn annotate(script: &Vec<Change>) -> (r: (String, String))
    ensures
        r.0@ == annotated_old(change_views(script@)),
        r.1@ == annotated_new(change_views(script@)),
{
    let ghost cs = change_views(script@);
    let mut old = String::new();
    let mut new = String::new();
    let mut i: usize = 0;
    while i < script.len()
        invariant
            i <= script@.len(),
            cs == change_views(script@),
            old@ == annotated_old(cs.subrange(0, i as int)),
            new@ == annotated_new(cs.subrange(0, i as int)),
        decreases script@.len() - i,
    {
        let c = &script[i];
        let t = c.text.as_str();
        let empty = t.is_empty();
        proof {
            assert(cs.subrange(0, i + 1).drop_last() =~= cs.subrange(0, i as int));
            assert(cs[i as int] == (c.kind, c.text@));
            assert(annotated_old(cs.subrange(0, i + 1)) == annotated_old(cs.subrange(0, i as int))
                + old_piece(cs[i as int]));
            assert(annotated_new(cs.subrange(0, i + 1)) == annotated_new(cs.subrange(0, i as int))
                + new_piece(cs[i as int]));
        }
        match c.kind {
            ChangeKind::Same => {
                old.append(t);
                new.append(t);
            },
            ChangeKind::Rem => {
                if !empty {
                    old.append(REM_OPEN);
                    old.append(t);
                    old.append(MARK_CLOSE);
                }
            },
            ChangeKind::Add => {
                if !empty {
                    new.append(ADD_OPEN);
                    new.append(t);
                    new.append(MARK_CLOSE);
                }
            },
        }
        i = i + 1;
    }
    proof {
        assert(cs.subrange(0, i as int) =~= cs);
    }
    (old, new)
}

/// Annotated texts for `s1` and `s2`: equal texts come back as they are;
/// otherwise the old text shows removed spans marked and the new text shows
/// inserted spans marked, along the edit script between them.
pub fn diff(s1: &str, s2: &str) -> (r: (String, String))
    ensures
        s1@ == s2@ ==> r.0@ == s1@ && r.1@ == s2@,
        s1@ != s2@ ==> r.0@ == annotated_old(changes_of(s1@, s2@)) && r.1@ == annotated_new(
            changes_of(s1@, s2@),
        ),
        s1@.len() == 0 && s2@.len() > 0 ==> r.0@.len() == 0 && r.1@ == marked_insertions(
            changes_of(s1@, s2@),
        ),
{
    if str_eq(s1, s2) {
        return (String::from_str(s1), String::from_str(s2));
    }
    let script = changes(s1, s2);
    proof {
        if s1@.len() == 0 {
            lemma_from_empty(change_views(script@));
        }
    }
    annotate(&script)
}

pub(crate) fn str_eq(a: &str, b: &str) -> (r: bool)
    ensures
        r == (a@ == b@),
{
    let x = String::from_str(a);
    let y = String::from_str(b);
    x.eq(&y)
}

} // verus!

//! The errors of the domain: the messages of a failed validation, by field,
//! and the failure of a storage.

use vstd::prelude::*;
use crate::text::{compare_text, lemma_text_less_irreflexive, lemma_text_less_transitive, same_text, text_less};

verus! {

/// A failure of the storage, with its description.
#[derive(Debug)]
pub struct RepositoryError(pub String);

impl RepositoryError {
    /// The description of the failure, as the error prints itself.
    pub fn message(&self) -> (r: String)
        ensures
            r@ == self.0@,
    {
        self.0.clone()
    }
}

/// The messages of a failed validation, keyed by the name of the field:
/// a map from field to message.
#[derive(Debug)]
pub struct ValidationErrors {
    entries: Vec<(String, String)>,
}

/// The map that a list of (field, message) entries stands for.
pub closed spec fn entries_map(s: Seq<(String, String)>) -> Map<Seq<char>, Seq<char>>
    decreases s.len(),
{
    if s.len() == 0 {
        Map::empty()
    } else {
        entries_map(s.drop_last()).insert(s.last().0@, s.last().1@)
    }
}

/// No field occurs twice among the entries.
pub open spec fn distinct_fields(s: Seq<(String, String)>) -> bool {
    forall|i: int, j: int| 0 <= i < j < s.len() ==> s[i].0@ != s[j].0@
}

proof fn lemma_entries_map_keys(s: Seq<(String, String)>)
    ensures
        forall|k: Seq<char>|
            #![trigger entries_map(s).contains_key(k)]
            entries_map(s).contains_key(k) <==> exists|i: int|
                0 <= i < s.len() && s[i].0@ == k,
    decreases s.len(),
{
    if s.len() > 0 {
        let t = s.drop_last();
        lemma_entries_map_keys(t);
        assert(entries_map(s) == entries_map(t).insert(s.last().0@, s.last().1@));
        assert forall|k: Seq<char>| entries_map(s).contains_key(k) implies exists|i: int|
            0 <= i < s.len() && s[i].0@ == k by {
            if k != s.last().0@ {
                assert(entries_map(t).contains_key(k));
                let i = choose|i: int| 0 <= i < s.drop_last().len() && s.drop_last()[i].0@ == k;
                assert(s[i].0@ == k);
            } else {
                assert(s[s.len() - 1].0@ == k);
            }
        }
        assert forall|k: Seq<char>|
            (exists|i: int| 0 <= i < s.len() && s[i].0@ == k) implies entries_map(
            s,
        ).contains_key(k) by {
            let i = choose|i: int| 0 <= i < s.len() && s[i].0@ == k;
            if i < s.len() - 1 {
                assert(t[i].0@ == k);
                assert(entries_map(t).contains_key(k));
            }
        }
    }
}

proof fn lemma_entries_map_values(s: Seq<(String, String)>)
    requires
        distinct_fields(s),
    ensures
        forall|i: int|
            0 <= i < s.len() ==> #[trigger] entries_map(s)[s[i].0@] == s[i].1@,
    decreases s.len(),
{
    if s.len() > 0 {
        let t = s.drop_last();
        lemma_entries_map_values(t);
        assert(entries_map(s) == entries_map(t).insert(s.last().0@, s.last().1@));
        assert forall|i: int| 0 <= i < s.len() implies #[trigger] entries_map(s)[s[i].0@]
            == s[i].1@ by {
            if i < s.len() - 1 {
                assert(t[i] == s[i]);
                assert(s[i].0@ != s[s.len() - 1].0@);
                assert(entries_map(t)[t[i].0@] == t[i].1@);
            }
        }
    }
}

/// The fields of the entries go strictly up in the order of `String`'s
/// `Ord`, as the keys of a `BTreeMap` do.
pub open spec fn fields_ascending(s: Seq<(String, String)>) -> bool {
    forall|i: int, j: int| 0 <= i < j < s.len() ==> text_less(s[i].0@, s[j].0@)
}

proof fn lemma_ascending_distinct(s: Seq<(String, String)>)
    requires
        fields_ascending(s),
    ensures
        distinct_fields(s),
{
    assert forall|i: int, j: int| 0 <= i < j < s.len() implies s[i].0@ != s[j].0@ by {
        lemma_text_less_irreflexive(s[i].0@);
    }
}

/// Putting an entry for `field` in place: when `after` holds the entry at
/// `place`, every other entry of `after` comes from `before`, and every
/// entry of `before` for another field is kept, then `after` stands for
/// `before`'s map with `message` recorded for `field`.
proof fn lemma_entries_map_place(
    before: Seq<(String, String)>,
    after: Seq<(String, String)>,
    place: int,
    field: Seq<char>,
    message: Seq<char>,
)
    requires
        distinct_fields(before),
        distinct_fields(after),
        0 <= place < after.len(),
        after[place].0@ == field,
        after[place].1@ == message,
        forall|j: int| 0 <= j < after.len() && j != place ==> before.contains(#[trigger] after[j]),
        forall|b: int|
            0 <= b < before.len() && before[b].0@ != field ==> after.contains(#[trigger] before[b]),
    ensures
        entries_map(after) == entries_map(before).insert(field, message),
{
    lemma_entries_map_keys(before);
    lemma_entries_map_keys(after);
    lemma_entries_map_values(before);
    lemma_entries_map_values(after);
    let target = entries_map(before).insert(field, message);
    assert forall|k: Seq<char>| #[trigger] entries_map(after).contains_key(k) == target.contains_key(
        k,
    ) by {
        if entries_map(after).contains_key(k) && k != field {
            let j = choose|j: int| 0 <= j < after.len() && after[j].0@ == k;
            let b = choose|b: int| 0 <= b < before.len() && before[b] == after[j];
            assert(before[b].0@ == k);
        }
        if entries_map(before).contains_key(k) && k != field {
            let b = choose|b: int| 0 <= b < before.len() && before[b].0@ == k;
            let j = choose|j: int| 0 <= j < after.len() && after[j] == before[b];
            assert(after[j].0@ == k);
        }
        if k == field {
            assert(after[place].0@ == k);
        }
    }
    assert forall|k: Seq<char>| #[trigger] entries_map(after).contains_key(k) implies entries_map(
        after,
    )[k] == target[k] by {
        let j = choose|j: int| 0 <= j < after.len() && after[j].0@ == k;
        if j != place {
            let b = choose|b: int| 0 <= b < before.len() && before[b] == after[j];
            assert(after[j].0@ != after[place].0@);
            assert(entries_map(before)[before[b].0@] == before[b].1@);
        }
    }
    assert(entries_map(after) =~= target);
}

impl View for ValidationErrors {
    type V = Map<Seq<char>, Seq<char>>;

    closed spec fn view(&self) -> Map<Seq<char>, Seq<char>> {
        entries_map(self.entries@)
    }
}

impl Default for ValidationErrors {
    fn default() -> (r: Self)
        ensures
            r@ == Map::<Seq<char>, Seq<char>>::empty(),
    {
        ValidationErrors::new()
    }
}

impl ValidationErrors {
    #[verifier::type_invariant]
    spec fn fields_are_ordered(self) -> bool {
        fields_ascending(self.entries@)
    }

    /// No message at all.
    pub fn new() -> (r: Self)
        ensures
            r@ == Map::<Seq<char>, Seq<char>>::empty(),
    {
        let r = ValidationErrors { entries: Vec::new() };
        assert(r.entries@ =~= Seq::<(String, String)>::empty());
        r
    }

    /// Records `message` for `field`, in place of a message that the field
    /// had before; the entries stay in the order of their fields.
    #[verifier::loop_isolation(false)]
    pub fn insert(&mut self, field: String, message: String)
        ensures
            final(self)@ == old(self)@.insert(field@, message@),
    {
        proof {
            use_type_invariant(&*self);
        }
        let ghost before = self.entries@;
        proof {
            lemma_ascending_distinct(before);
        }
        let n: usize = self.entries.len();
        let mut i: usize = 0;
        while i < n
            invariant
                n == self.entries.len(),
                self.entries@ == before,
                fields_ascending(before),
                i <= n,
                forall|j: int| 0 <= j < i ==> text_less(#[trigger] before[j].0@, field@),
            decreases n - i,
        {
            let order: i8 = compare_text(self.entries[i].0.as_str(), field.as_str());
            if order == 0 {
                let mut entries: Vec<(String, String)> = Vec::new();
                std::mem::swap(&mut entries, &mut self.entries);
                entries.set(i, (field, message));
                proof {
                    let after = entries@;
                    assert(fields_ascending(after)) by {
                        assert forall|a: int, b: int| 0 <= a < b < after.len() implies text_less(
                            after[a].0@,
                            after[b].0@,
                        ) by {
                            assert(after[a].0@ == before[a].0@);
                            assert(after[b].0@ == before[b].0@);
                        }
                    }
                    lemma_ascending_distinct(after);
                    assert forall|j: int| 0 <= j < after.len() && j != i implies before.contains(
                        #[trigger] after[j],
                    ) by {
                        assert(after[j] == before[j]);
                    }
                    assert forall|b: int|
                        0 <= b < before.len() && before[b].0@ != field@ implies after.contains(
                        #[trigger] before[b],
                    ) by {
                        assert(after[b] == before[b]);
                    }
                    lemma_entries_map_place(before, after, i as int, field@, message@);
                }
                self.entries = entries;
                return;
            }
            if order > 0 {
                let mut entries: Vec<(String, String)> = Vec::new();
                std::mem::swap(&mut entries, &mut self.entries);
                entries.insert(i, (field, message));
                proof {
                    let after = entries@;
                    let e = after[i as int];
                    assert(e.0@ == field@ && e.1@ == message@);
                    assert forall|j: int| 0 <= j < after.len() implies #[trigger] after[j] == (
                    if j < i {
                        before[j]
                    } else if j == i {
                        e
                    } else {
                        before[j - 1]
                    }) by {}
                    assert(fields_ascending(after)) by {
                        assert forall|a: int, b: int| 0 <= a < b < after.len() implies text_less(
                            after[a].0@,
                            after[b].0@,
                        ) by {
                            if b > i && a != i {
                                if a < i {
                                    assert(after[a] == before[a]);
                                } else {
                                    assert(after[a] == before[a - 1]);
                                }
                                assert(after[b] == before[b - 1]);
                            } else if b > i && a == i {
                                assert(after[b] == before[b - 1]);
                                if b - 1 > i {
                                    lemma_text_less_transitive(
                                        field@,
                                        before[i as int].0@,
                                        before[b - 1].0@,
                                    );
                                }
                            } else if b == i {
                                assert(after[a] == before[a]);
                            } else {
                                assert(after[a] == before[a] && after[b] == before[b]);
                            }
                        }
                    }
                    lemma_ascending_distinct(after);
                    assert forall|j: int| 0 <= j < after.len() && j != i implies before.contains(
                        #[trigger] after[j],
                    ) by {
                        if j < i {
                            assert(after[j] == before[j]);
                        } else {
                            assert(after[j] == before[j - 1]);
                        }
                    }
                    assert forall|b: int| 0 <= b < before.len() implies after.contains(
                        #[trigger] before[b],
                    ) by {
                        if b < i {
                            assert(after[b] == before[b]);
                        } else {
                            assert(after[b + 1] == before[b]);
                        }
                    }
                    lemma_entries_map_place(before, after, i as int, field@, message@);
                }
                self.entries = entries;
                return;
            }
            i = i + 1;
        }
        let mut entries: Vec<(String, String)> = Vec::new();
        std::mem::swap(&mut entries, &mut self.entries);
        entries.push((field, message));
        proof {
            let after = entries@;
            assert(after.drop_last() =~= before);
            assert(fields_ascending(after)) by {
                assert forall|a: int, b: int| 0 <= a < b < after.len() implies text_less(
                    after[a].0@,
                    after[b].0@,
                ) by {
                    if b == after.len() - 1 {
                        assert(after[a] == before[a]);
                    } else {
                        assert(after[a] == before[a] && after[b] == before[b]);
                    }
                }
            }
        }
        self.entries = entries;
    }

    /// The message recorded for `field`, if there is one.
    #[verifier::loop_isolation(false)]
    pub fn get(&self, field: &str) -> (r: Option<&String>)
        ensures
            match r {
                Some(message) => self@.contains_key(field@) && message@ == self@[field@],
                None => !self@.contains_key(field@),
            },
    {
        proof {
            use_type_invariant(self);
            lemma_ascending_distinct(self.entries@);
            lemma_entries_map_keys(self.entries@);
            lemma_entries_map_values(self.entries@);
        }
        let n: usize = self.entries.len();
        let mut i: usize = 0;
        while i < n
            invariant
                n == self.entries.len(),
                i <= n,
                forall|j: int| 0 <= j < i ==> self.entries@[j].0@ != field@,
            decreases n - i,
        {
            if same_text(self.entries[i].0.as_str(), field) {
                return Some(&self.entries[i].1);
            }
            i = i + 1;
        }
        None
    }

    /// Whether no message is recorded.
    pub fn is_empty(&self) -> (r: bool)
        ensures
            r == (self@ == Map::<Seq<char>, Seq<char>>::empty()),
    {
        proof {
            lemma_entries_map_keys(self.entries@);
        }
        if self.entries.len() == 0 {
            assert(self@ =~= Map::<Seq<char>, Seq<char>>::empty());
            true
        } else {
            assert(self@.contains_key(self.entries@[0].0@));
            false
        }
    }

    /// The number of fields that have a message.
    pub fn len(&self) -> (r: usize)
        ensures
            r == self@.len(),
    {
        proof {
            use_type_invariant(self);
            lemma_ascending_distinct(self.entries@);
            lemma_entries_len(self.entries@);
        }
        self.entries.len()
    }

    /// The recorded (field, message) pairs, each field once, in the order
    /// of the fields.
    pub fn entries(&self) -> (r: &Vec<(String, String)>)
        ensures
            fields_ascending(r@),
            distinct_fields(r@),
            entries_map(r@) == self@,
    {
        proof {
            use_type_invariant(self);
            lemma_ascending_distinct(self.entries@);
        }
        &self.entries
    }
}

proof fn lemma_entries_len(s: Seq<(String, String)>)
    requires
        distinct_fields(s),
    ensures
        entries_map(s).dom().finite(),
        entries_map(s).len() == s.len(),
    decreases s.len(),
{
    if s.len() > 0 {
        let t = s.drop_last();
        lemma_entries_len(t);
        lemma_entries_map_keys(t);
        if entries_map(t).contains_key(s.last().0@) {
            let j = choose|j: int| 0 <= j < t.len() && t[j].0@ == s.last().0@;
            assert(s[j].0@ != s[s.len() - 1].0@);
        }
    }
}

} // verus!

//! Name/value mappings as they travel in a query string, a header set or a
//! JSON object: a list in which no name occurs twice, in the order in which
//! the names were first inserted.

use vstd::prelude::*;
use vstd::string::*;

use crate::text::text_equals;

verus! {

/// A list of name/value pairs as pure data.
pub type Pairs = Seq<(Seq<char>, Seq<char>)>;

/// Whether some pair of the list has the given name.
pub open spec fn has_key(pairs: Pairs, key: Seq<char>) -> bool {
    exists|i: int| 0 <= i < pairs.len() && (#[trigger] pairs[i]).0 == key
}

/// Whether no name occurs twice in the list.
pub open spec fn distinct_keys(pairs: Pairs) -> bool {
    forall|i: int, j: int|
        0 <= i < j < pairs.len() ==> (#[trigger] pairs[i]).0 != (#[trigger] pairs[j]).0
}

/// Whether `after` is `before` with the value of the pair named `key`
/// replaced by `value`, every other pair and the order left as they were.
pub open spec fn replaced(before: Pairs, after: Pairs, key: Seq<char>, value: Seq<char>) -> bool {
    exists|i: int|
        0 <= i < before.len() && (#[trigger] before[i]).0 == key && after == before.update(
            i,
            (key, value),
        )
}

/// A mapping from names to values. No name occurs twice.
#[derive(Debug, PartialEq, Eq)]
pub struct Params {
    entries: Vec<(String, String)>,
}

impl View for Params {
    type V = Pairs;

    closed spec fn view(&self) -> Pairs {
        self.entries.deep_view()
    }
}

impl Clone for Params {
    fn clone(&self) -> (copy: Params)
        ensures
            copy@ == self@,
    {
        proof {
            use_type_invariant(self);
        }
        let n = self.entries.len();
        let mut entries: Vec<(String, String)> = Vec::new();
        let mut i: usize = 0;
        while i < n
            invariant
                i <= n,
                n == self.entries.len(),
                entries.len() == i,
                forall|j: int|
                    0 <= j < i ==> (#[trigger] entries[j]).deep_view()
                        == self.entries[j].deep_view(),
            decreases n - i,
        {
            entries.push((self.entries[i].0.clone(), self.entries[i].1.clone()));
            i = i + 1;
        }
        assert(entries.deep_view() =~= self.entries.deep_view());
        Params { entries }
    }
}

impl Params {
    #[verifier::type_invariant]
    spec fn well_formed(self) -> bool {
        distinct_keys(self.entries.deep_view())
    }

    /// The empty mapping.
    pub fn new() -> (params: Params)
        ensures
            params@ == Pairs::empty(),
    {
        let entries: Vec<(String, String)> = Vec::new();
        assert(entries.deep_view() =~= Pairs::empty());
        Params { entries }
    }

    /// Maps `key` to `value`. A name that is already mapped keeps its place
    /// and gets the new value; a new name goes to the end.
    pub fn insert(&mut self, key: &str, value: String)
        ensures
            distinct_keys(final(self)@),
            has_key(old(self)@, key@) ==> replaced(old(self)@, final(self)@, key@, value@),
            !has_key(old(self)@, key@) ==> final(self)@ == old(self)@.push((key@, value@)),
    {
        proof {
            use_type_invariant(&*self);
        }
        let mut entries: Vec<(String, String)> = Vec::new();
        assert(entries.deep_view() =~= Pairs::empty());
        core::mem::swap(&mut self.entries, &mut entries);
        let ghost before = entries.deep_view();
        let n = entries.len();
        let mut i: usize = 0;
        let mut found: Option<usize> = None;
        while i < n && found.is_none()
            invariant
                i <= n,
                n == entries.len(),
                entries.deep_view() == before,
                found matches Some(at) ==> at < n && before[at as int].0 == key@,
                found is None ==> forall|j: int| 0 <= j < i ==> (#[trigger] before[j]).0 != key@,
            decreases n - i + (if found is None { 1int } else { 0int }),
        {
            if text_equals(entries[i].0.as_str(), key) {
                found = Some(i);
            } else {
                assert(before[i as int].0 != key@);
                i = i + 1;
            }
        }
        match found {
            Some(at) => {
                entries.set(at, (String::from_str(key), value));
                proof {
                    let after = entries.deep_view();
                    assert(after =~= before.update(at as int, (key@, value@)));
                    assert forall|a: int, b: int| 0 <= a < b < after.len() implies (
                    #[trigger] after[a]).0 != (#[trigger] after[b]).0 by {
                        assert(after[a].0 == before[a].0);
                        assert(after[b].0 == before[b].0);
                    }
                }
            },
            None => {
                entries.push((String::from_str(key), value));
                proof {
                    let after = entries.deep_view();
                    assert(after =~= before.push((key@, value@)));
                    assert(!has_key(before, key@));
                    assert forall|a: int, b: int| 0 <= a < b < after.len() implies (
                    #[trigger] after[a]).0 != (#[trigger] after[b]).0 by {
                        assert(after[a] == before[a]);
                        if b < before.len() {
                            assert(after[b] == before[b]);
                        }
                    }
                }
            },
        }
        self.entries = entries;
    }

    /// The pairs, in order. No name occurs twice among them.
    pub fn entries(&self) -> (entries: &Vec<(String, String)>)
        ensures
            entries.deep_view() == self@,
            distinct_keys(self@),
    {
        proof {
            use_type_invariant(self);
        }
        &self.entries
    }
}

} // verus!

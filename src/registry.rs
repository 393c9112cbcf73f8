use vstd::prelude::*;

use crate::kinds::{UpdateError, UpdateReport};
use crate::value::VarValue;
use crate::variable::Variable;

verus! {

/// Why a registry update was refused.
#[derive(Clone, Copy, Debug, PartialEq, Eq, Structural)]
pub enum RegistryError {
    /// No variable is registered under the reference.
    UnknownReference,
    /// The variable refused the value.
    Update(UpdateError),
}

/// The variables of the application, keyed by reference.
///
/// Inserting under a reference that is already present replaces the
/// variable held there.
pub struct Registry {
    entries: Vec<(String, Variable)>,
    contents: Ghost<Map<Seq<char>, Variable>>,
}

/// What updating the variable under `key` with `new` leads to, from the
/// contents `before` to `after`, with the result `r`.
pub open spec fn update_outcome(
    before: Map<Seq<char>, Variable>,
    after: Map<Seq<char>, Variable>,
    key: Seq<char>,
    new: VarValue,
    r: Result<UpdateReport, RegistryError>,
) -> bool {
    if !before.contains_key(key) {
        r == Err::<UpdateReport, RegistryError>(RegistryError::UnknownReference) && after == before
    } else {
        exists|v: Variable, u: Result<UpdateReport, UpdateError>|
            {
                &&& #[trigger] before[key].spec_update(v, new, u)
                &&& after == before.insert(key, v)
                &&& r == match u {
                    Ok(rep) => Ok::<UpdateReport, RegistryError>(rep),
                    Err(e) => Err::<UpdateReport, RegistryError>(RegistryError::Update(e)),
                }
            }
    }
}

/// An update under a reference that is not registered fails with
/// `UnknownReference` and changes nothing.
pub proof fn lemma_update_unknown_reference(
    before: Map<Seq<char>, Variable>,
    after: Map<Seq<char>, Variable>,
    key: Seq<char>,
    new: VarValue,
    r: Result<UpdateReport, RegistryError>,
)
    requires
        !before.contains_key(key),
        update_outcome(before, after, key, new, r),
    ensures
        r == Err::<UpdateReport, RegistryError>(RegistryError::UnknownReference),
        after == before,
{
}

/// After two insertions under one reference, only the second variable is
/// held under it.
pub proof fn lemma_insert_twice(
    contents: Map<Seq<char>, Variable>,
    key: Seq<char>,
    first: Variable,
    second: Variable,
)
    ensures
        contents.insert(key, first).insert(key, second) == contents.insert(key, second),
        contents.insert(key, first).insert(key, second)[key] == second,
{
    assert(contents.insert(key, first).insert(key, second) =~= contents.insert(key, second));
}

/// Each key is held once, and the entries are exactly the contents.
pub open spec fn entries_fit(
    entries: Seq<(String, Variable)>,
    contents: Map<Seq<char>, Variable>,
) -> bool {
    &&& forall|i: int, j: int|
        0 <= i < j < entries.len() ==> #[trigger] entries[i].0@ != #[trigger] entries[j].0@
    &&& forall|i: int|
        0 <= i < entries.len() ==> contents.contains_key(#[trigger] entries[i].0@)
            && contents[entries[i].0@] == entries[i].1
    &&& forall|k: Seq<char>|
        #[trigger] contents.contains_key(k) ==> exists|i: int|
            0 <= i < entries.len() && entries[i].0@ == k
}

/// The position of the entry under `reference`, if there is one.
fn find_entry(entries: &Vec<(String, Variable)>, reference: &String) -> (r: Option<usize>)
    ensures
        match r {
            Some(i) => i < entries@.len() && entries@[i as int].0@ == reference@,
            None => forall|j: int| 0 <= j < entries@.len() ==> entries@[j].0@ != reference@,
        },
{
    let mut i: usize = 0;
    while i < entries.len()
        invariant
            i <= entries@.len(),
            forall|j: int| 0 <= j < i ==> entries@[j].0@ != reference@,
        decreases entries@.len() - i,
    {
        if entries[i].0 == *reference {
            return Some(i);
        }
        i = i + 1;
    }
    None
}

impl View for Registry {
    type V = Map<Seq<char>, Variable>;

    closed spec fn view(&self) -> Map<Seq<char>, Variable> {
        self.contents@
    }
}

impl Registry {
    #[verifier::type_invariant]
    spec fn entries_are_contents(&self) -> bool {
        entries_fit(self.entries@, self.contents@)
    }

    pub fn new() -> (r: Self)
        ensures
            r@ == Map::<Seq<char>, Variable>::empty(),
    {
        Registry { entries: Vec::new(), contents: Ghost(Map::empty()) }
    }

    /// Whether a variable is registered under `reference`.
    pub fn contains(&self, reference: &String) -> (r: bool)
        ensures
            r == self@.contains_key(reference@),
    {
        proof {
            use_type_invariant(self);
        }
        match find_entry(&self.entries, reference) {
            Some(i) => {
                assert(self.contents@.contains_key(self.entries@[i as int].0@));
                true
            },
            None => false,
        }
    }

    /// The variable registered under `reference`, if any.
    pub fn get(&self, reference: &String) -> (r: Option<&Variable>)
        ensures
            match r {
                Some(v) => self@.contains_key(reference@) && *v == self@[reference@],
                None => !self@.contains_key(reference@),
            },
    {
        proof {
            use_type_invariant(self);
        }
        match find_entry(&self.entries, reference) {
            Some(i) => {
                assert(self.contents@.contains_key(self.entries@[i as int].0@));
                Some(&self.entries[i].1)
            },
            None => None,
        }
    }

    /// Registers `variable` under `reference`, replacing any variable held there.
    pub fn insert(&mut self, reference: String, variable: Variable)
        ensures
            final(self)@ == old(self)@.insert(reference@, variable),
    {
        proof {
            use_type_invariant(&*self);
        }
        let mut taken = Registry::new();
        std::mem::swap(&mut taken, self);
        let Registry { mut entries, contents } = taken;
        let ghost before = entries@;
        let ghost key = reference@;
        let ghost target = contents@.insert(key, variable);
        assert(entries_fit(before, contents@));
        match find_entry(&entries, &reference) {
            Some(i) => {
                entries.set(i, (reference, variable));
                assert forall|k: Seq<char>| #[trigger] target.contains_key(k) implies exists|j: int|
                    0 <= j < entries@.len() && entries@[j].0@ == k by {
                    if k != key {
                        let j = choose|j: int| 0 <= j < before.len() && before[j].0@ == k;
                        assert(entries@[j].0@ == k);
                    } else {
                        assert(entries@[i as int].0@ == k);
                    }
                }
            },
            None => {
                entries.push((reference, variable));
                assert forall|k: Seq<char>| #[trigger] target.contains_key(k) implies exists|j: int|
                    0 <= j < entries@.len() && entries@[j].0@ == k by {
                    if k != key {
                        let j = choose|j: int| 0 <= j < before.len() && before[j].0@ == k;
                        assert(entries@[j].0@ == k);
                    } else {
                        assert(entries@[before.len() as int].0@ == k);
                    }
                }
            },
        }
        *self = Registry { entries, contents: Ghost(target) };
    }

    /// Updates the variable registered under `reference` with `varvalue`.
    pub fn update(&mut self, reference: &String, varvalue: VarValue) -> (r: Result<
        UpdateReport,
        RegistryError,
    >)
        ensures
            update_outcome(old(self)@, final(self)@, reference@, varvalue, r),
    {
        proof {
            use_type_invariant(&*self);
        }
        let found = find_entry(&self.entries, reference);
        match found {
            None => Err(RegistryError::UnknownReference),
            Some(i) => {
                let mut taken = Registry::new();
                std::mem::swap(&mut taken, self);
                let Registry { mut entries, contents } = taken;
                let ghost old_entries = entries@;
                assert(contents@.contains_key(old_entries[i as int].0@));
                let (key, mut variable) = entries.remove(i);
                let ghost before = variable;
                let u = variable.set_value(varvalue);
                entries.insert(i, (key, variable));
                let ghost target = contents@.insert(reference@, variable);
                assert forall|k: Seq<char>| #[trigger] target.contains_key(k) implies exists|j: int|
                    0 <= j < entries@.len() && entries@[j].0@ == k by {
                    let j = choose|j: int| 0 <= j < old_entries.len() && old_entries[j].0@ == k;
                    assert(entries@[j].0@ == k);
                }
                assert(contents@[reference@] == before);
                *self = Registry { entries, contents: Ghost(target) };
                match u {
                    Ok(rep) => Ok(rep),
                    Err(e) => Err(RegistryError::Update(e)),
                }
            },
        }
    }
}

} // verus!

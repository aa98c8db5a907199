//! Valve's key/value data, once parsed: a tree of named attributes whose values
//! are texts or blocks of further attributes.
//!
//! A block lists its attributes in the order in which its reader handed them
//! over. Looking a key up finds the first attribute of that name. A tree is
//! well formed where no block holds a key twice, as a reader that keeps each
//! block in a map hands it over; there the attribute found is the only one of
//! that name.

use vstd::prelude::*;

verus! {

/// The value of an attribute.
#[derive(Debug)]
pub enum VdfValue {
    String(String),
    Block(Vec<VdfAttribute>),
}

/// A named value.
#[derive(Debug)]
pub struct VdfAttribute {
    pub key: String,
    pub value: VdfValue,
}

/// What can go wrong when a tree is read.
#[derive(Debug)]
pub enum VdfError {
    /// The key (first) is not to be had from the block of the given name
    /// (second): the block lacks it, or what bears the name is no block.
    ValueNotFound(String, String),
}

/// The first attribute of `entries` that is named `key`.
pub open spec fn lookup(entries: Seq<VdfAttribute>, key: Seq<char>) -> Option<VdfAttribute>
    decreases entries.len(),
{
    if entries.len() == 0 {
        None
    } else if entries.first().key@ == key {
        Some(entries.first())
    } else {
        lookup(entries.drop_first(), key)
    }
}

/// A key is found exactly where some attribute bears it, and what is found
/// bears it.
pub proof fn lemma_lookup(entries: Seq<VdfAttribute>, key: Seq<char>)
    ensures
        lookup(entries, key) is Some <==> exists|i: int|
            0 <= i < entries.len() && #[trigger] entries[i].key@ == key,
        lookup(entries, key) matches Some(found) ==> found.key@ == key && entries.contains(found),
    decreases entries.len(),
{
    if entries.len() == 0 {
    } else if entries.first().key@ == key {
        assert(entries[0].key@ == key);
    } else {
        let rest = entries.drop_first();
        lemma_lookup(rest, key);
        if lookup(rest, key) is Some {
            let i = choose|i: int| 0 <= i < rest.len() && #[trigger] rest[i].key@ == key;
            assert(entries[i + 1].key@ == key);
            let found = lookup(rest, key)->0;
            let j = choose|j: int| 0 <= j < rest.len() && rest[j] == found;
            assert(entries[j + 1] == found);
        } else {
            assert forall|i: int| 0 <= i < entries.len() implies #[trigger] entries[i].key@
                != key by {
                if i > 0 {
                    assert(rest[i - 1].key@ != key);
                }
            }
        }
    }
}

/// No key occurs twice among `entries`.
pub open spec fn distinct_keys(entries: Seq<VdfAttribute>) -> bool {
    forall|i: int, j: int|
        0 <= i < j < entries.len() ==> (#[trigger] entries[i]).key@ != (#[trigger] entries[j]).key@
}

/// Where no key occurs twice, looking a key up finds the one attribute that
/// bears it.
pub proof fn lemma_lookup_is_the_entry(entries: Seq<VdfAttribute>, key: Seq<char>, i: int)
    requires
        distinct_keys(entries),
        0 <= i < entries.len(),
        entries[i].key@ == key,
    ensures
        lookup(entries, key) == Some(entries[i]),
    decreases entries.len(),
{
    if entries.first().key@ == key {
        if i > 0 {
            assert(entries[0].key@ != entries[i].key@);
        }
    } else {
        let rest = entries.drop_first();
        assert(rest[i - 1] == entries[i]);
        assert forall|a: int, b: int| 0 <= a < b < rest.len() implies (#[trigger] rest[a]).key@
            != (#[trigger] rest[b]).key@ by {
            assert(rest[a] == entries[a + 1]);
            assert(rest[b] == entries[b + 1]);
        }
        lemma_lookup_is_the_entry(rest, key, i - 1);
    }
}

/// Whether no key occurs twice among `entries`.
fn keys_are_distinct(entries: &Vec<VdfAttribute>) -> (r: bool)
    ensures
        r == distinct_keys(entries@),
{
    let mut j: usize = 0;
    while j < entries.len()
        invariant
            j <= entries.len(),
            forall|a: int, b: int|
                0 <= a < b < j ==> (#[trigger] entries@[a]).key@ != (#[trigger] entries@[b]).key@,
        decreases entries.len() - j,
    {
        let mut i: usize = 0;
        while i < j
            invariant
                i <= j < entries.len(),
                forall|a: int| 0 <= a < i ==> (#[trigger] entries@[a]).key@ != entries@[j as int].key@,
            decreases j - i,
        {
            if entries[i].key == entries[j].key {
                return false;
            }
            i += 1;
        }
        j += 1;
    }
    true
}

impl VdfAttribute {
    /// No block of the tree, at any depth, holds a key twice.
    pub open spec fn well_formed(self) -> bool
        decreases self,
    {
        match self.value {
            VdfValue::String(_) => true,
            VdfValue::Block(entries) => {
                &&& distinct_keys(entries@)
                &&& forall|i: int|
                    0 <= i < entries@.len() ==> (#[trigger] entries@[i]).well_formed()
            },
        }
    }

    /// Whether no block of the tree holds a key twice.
    pub fn is_well_formed(&self) -> (r: bool)
        ensures
            r == self.well_formed(),
        decreases self,
    {
        match &self.value {
            VdfValue::String(_) => true,
            VdfValue::Block(entries) => {
                if !keys_are_distinct(entries) {
                    return false;
                }
                let mut i: usize = 0;
                while i < entries.len()
                    invariant
                        i <= entries.len(),
                        self.value == VdfValue::Block(*entries),
                        forall|a: int| 0 <= a < i ==> (#[trigger] entries@[a]).well_formed(),
                    decreases entries.len() - i,
                {
                    assert(decreases_to!(self.value => self.value->Block_0));
                    assert(decreases_to!(*entries => entries[i as int]));
                    if !entries[i].is_well_formed() {
                        return false;
                    }
                    i += 1;
                }
                true
            },
        }
    }

    /// The attributes of a block, in order; a text has none.
    pub open spec fn entries(self) -> Seq<VdfAttribute> {
        match self.value {
            VdfValue::Block(entries) => entries@,
            VdfValue::String(_) => Seq::empty(),
        }
    }

    /// The attribute named `key` inside this one, where this one is a block
    /// and holds it.
    pub open spec fn child(self, key: Seq<char>) -> Option<VdfAttribute> {
        match self.value {
            VdfValue::Block(entries) => lookup(entries@, key),
            VdfValue::String(_) => None,
        }
    }

    /// The attribute named `key` inside this block: the first that bears the
    /// name. Where this attribute is no block or lacks the key, the error
    /// names the key and this attribute. In a block that holds no key twice
    /// the attribute found is the one that bears the name, and what is found
    /// in a well-formed tree is well formed.
    pub fn get_string_value(&self, key: &str) -> (r: Result<&VdfAttribute, VdfError>)
        ensures
            match r {
                Ok(found) => self.child(key@) == Some(*found),
                Err(VdfError::ValueNotFound(wanted, block)) => {
                    &&& self.child(key@) is None
                    &&& wanted@ == key@
                    &&& block@ == self.key@
                },
            },
            distinct_keys(self.entries()) ==> forall|i: int|
                0 <= i < self.entries().len() && (#[trigger] self.entries()[i]).key@ == key@ ==> (
                r matches Ok(found) && *found == self.entries()[i]),
            self.well_formed() ==> (r matches Ok(found) ==> found.well_formed()),
    {
        let r = self.first_named(key);
        proof {
            let entries = self.entries();
            if self.value is Block {
                if distinct_keys(entries) {
                    assert forall|i: int|
                        0 <= i < entries.len() && (#[trigger] entries[i]).key@ == key@ implies lookup(
                        entries,
                        key@,
                    ) == Some(entries[i]) by {
                        lemma_lookup_is_the_entry(entries, key@, i);
                    }
                }
                lemma_lookup(entries, key@);
                if self.well_formed() && lookup(entries, key@) is Some {
                    let found = lookup(entries, key@)->0;
                    let j = choose|j: int| 0 <= j < entries.len() && entries[j] == found;
                    assert(entries[j].well_formed());
                }
            }
        }
        r
    }

    fn first_named(&self, key: &str) -> (r: Result<&VdfAttribute, VdfError>)
        ensures
            match r {
                Ok(found) => self.child(key@) == Some(*found),
                Err(VdfError::ValueNotFound(wanted, block)) => {
                    &&& self.child(key@) is None
                    &&& wanted@ == key@
                    &&& block@ == self.key@
                },
            },
    {
        match &self.value {
            VdfValue::Block(entries) => {
                let wanted = key.to_owned();
                let mut i: usize = 0;
                assert(entries@.skip(0) =~= entries@);
                while i < entries.len()
                    invariant
                        i <= entries.len(),
                        wanted@ == key@,
                        self.child(key@) == lookup(entries@, key@),
                        lookup(entries@, key@) == lookup(entries@.skip(i as int), key@),
                    decreases entries.len() - i,
                {
                    let ghost rest = entries@.skip(i as int);
                    assert(rest.first() == entries@[i as int]);
                    assert(rest.drop_first() =~= entries@.skip(i + 1));
                    if entries[i].key == wanted {
                        return Ok(&entries[i]);
                    }
                    i += 1;
                }
                assert(entries@.skip(i as int).len() == 0);
                Err(VdfError::ValueNotFound(wanted, self.key.clone()))
            },
            VdfValue::String(_) => Err(VdfError::ValueNotFound(key.to_owned(), self.key.clone())),
        }
    }

    /// Whether this block holds an attribute named `key`.
    pub fn contains_key(&self, key: &str) -> (r: bool)
        ensures
            r == self.child(key@) is Some,
    {
        match self.get_string_value(key) {
            Ok(_) => true,
            Err(_) => false,
        }
    }
}

} // verus!

//! A table of named handlers. Names are unique within a table, and the
//! order of registration is kept.

use vstd::prelude::*;

verus! {

/// Why a registration was refused.
#[derive(Debug, Clone, Copy, PartialEq, Eq)]
pub enum RegistryError {
    /// The table already holds a handler under that name.
    DuplicateName,
}

/// Where `name` stands in `names`, counted from 0; none where it does not
/// occur.
pub open spec fn position(names: Seq<Seq<char>>, name: Seq<char>) -> Option<int> {
    names.index_of_first(name)
}

/// The names after `name` was offered for registration: one more at the
/// end, or the refusal where the name is taken.
pub open spec fn registered(names: Seq<Seq<char>>, name: Seq<char>) -> Result<
    Seq<Seq<char>>,
    RegistryError,
> {
    if names.contains(name) {
        Err(RegistryError::DuplicateName)
    } else {
        Ok(names.push(name))
    }
}

/// What [`position`] finds: the first place where the name stands, in
/// range, or nothing exactly where the name does not occur.
pub proof fn lemma_position(names: Seq<Seq<char>>, name: Seq<char>)
    ensures
        match position(names, name) {
            Some(index) => 0 <= index < names.len() && names[index] == name && forall|j: int|
                0 <= j < index ==> names[j] != name,
            None => !names.contains(name),
        },
{
    names.index_of_first_ensures(name);
}

struct Entry<T> {
    name: String,
    handler: T,
}

/// Handlers by name, in the order in which they were registered.
pub struct Table<T> {
    entries: Vec<Entry<T>>,
}

impl<T> Table<T> {
    /// The names in the table, in order of registration.
    pub closed spec fn names(&self) -> Seq<Seq<char>> {
        self.entries@.map_values(|entry: Entry<T>| entry.name@)
    }

    /// The handlers in the table; the one at a position belongs to the
    /// name at that position.
    pub closed spec fn handlers(&self) -> Seq<T> {
        self.entries@.map_values(|entry: Entry<T>| entry.handler)
    }

    /// What holds of every table: no name stands twice, and there are as
    /// many handlers as names.
    #[verifier::type_invariant]
    pub open spec fn well_formed(&self) -> bool {
        &&& self.names().no_duplicates()
        &&& self.names().len() == self.handlers().len()
    }

    /// A table that holds nothing.
    pub fn new() -> (table: Table<T>)
        ensures
            table.names() == Seq::<Seq<char>>::empty(),
            table.handlers() == Seq::<T>::empty(),
    {
        let table = Table { entries: Vec::new() };
        assert(table.names() =~= Seq::<Seq<char>>::empty());
        assert(table.handlers() =~= Seq::<T>::empty());
        table
    }

    /// How many handlers the table holds.
    pub fn len(&self) -> (len: usize)
        ensures
            len == self.names().len(),
    {
        self.entries.len()
    }

    /// Where `name` stands in the table.
    pub fn find(&self, name: &String) -> (found: Option<usize>)
        ensures
            match found {
                Some(index) => position(self.names(), name@) == Some(index as int),
                None => position(self.names(), name@) is None,
            },
    {
        let mut index: usize = 0;
        while index < self.entries.len()
            invariant
                index <= self.entries@.len(),
                forall|j: int| 0 <= j < index ==> self.names()[j] != name@,
            decreases self.entries@.len() - index,
        {
            if self.entries[index].name == *name {
                proof {
                    assert(self.names()[index as int] == name@);
                    lemma_position(self.names(), name@);
                }
                return Some(index);
            }
            index += 1;
        }
        proof {
            lemma_position(self.names(), name@);
        }
        None
    }

    /// The name at `index`, where the table reaches that far.
    pub fn name_at(&self, index: usize) -> (name: Option<&String>)
        ensures
            match name {
                Some(name) => index < self.names().len() && name@ == self.names()[index as int],
                None => index >= self.names().len(),
            },
    {
        if index < self.entries.len() {
            Some(&self.entries[index].name)
        } else {
            None
        }
    }

    /// The handler at `index`, where the table reaches that far.
    pub fn handler_at(&self, index: usize) -> (handler: Option<&T>)
        ensures
            match handler {
                Some(handler) => index < self.handlers().len() && *handler
                    == self.handlers()[index as int],
                None => index >= self.handlers().len(),
            },
    {
        if index < self.entries.len() {
            Some(&self.entries[index].handler)
        } else {
            None
        }
    }

    /// Registers `handler` under `name` behind all earlier registrations.
    /// Fails, and changes nothing, exactly where the name is taken.
    pub fn insert(&mut self, name: String, handler: T) -> (outcome: Result<(), RegistryError>)
        ensures
            match outcome {
                Ok(()) => registered(old(self).names(), name@) == Ok::<
                    Seq<Seq<char>>,
                    RegistryError,
                >(final(self).names()) && final(self).handlers() == old(self).handlers().push(
                    handler,
                ),
                Err(error) => registered(old(self).names(), name@) == Err::<
                    Seq<Seq<char>>,
                    RegistryError,
                >(error) && final(self).names() == old(self).names() && final(self).handlers()
                    == old(self).handlers(),
            },
    {
        proof {
            use_type_invariant(&*self);
            lemma_position(self.names(), name@);
        }
        match self.find(&name) {
            Some(_) => Err(RegistryError::DuplicateName),
            None => {
                let ghost names = self.names();
                let ghost handlers = self.handlers();
                let mut entries: Vec<Entry<T>> = Vec::new();
                std::mem::swap(&mut entries, &mut self.entries);
                entries.push(Entry { name, handler });
                assert(entries@.map_values(|entry: Entry<T>| entry.name@) =~= names.push(name@));
                std::mem::swap(&mut entries, &mut self.entries);
                assert(self.names() =~= names.push(name@));
                assert(self.handlers() =~= handlers.push(handler));
                Ok(())
            },
        }
    }
}

} // verus!

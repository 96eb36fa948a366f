//! The typed key-value reader capability the decode protocol consumes, and an
//! in-memory implementation of it.
use crate::text::parse_bool;
use crate::text::parse_bool_spec;
use crate::text::parse_u128;
use crate::text::parse_u128_spec;
use crate::text::parse_usize;
use crate::text::parse_usize_spec;
use crate::text::str_eq;
use vstd::prelude::*;

verus! {

/// What the store holds under one key: a value, or a fault observed whenever
/// the key is read.
#[derive(Debug, Clone, PartialEq, Eq)]
pub enum StoredEntry {
    Value(String),
    Fault(String),
}

/// The view of one stored entry.
pub ghost enum EntryV {
    Value(Seq<char>),
    Fault(Seq<char>),
}

impl View for StoredEntry {
    type V = EntryV;

    closed spec fn view(&self) -> EntryV {
        match self {
            StoredEntry::Value(s) => EntryV::Value(s@),
            StoredEntry::Fault(c) => EntryV::Fault(c@),
        }
    }
}

/// The outcome of one key lookup: a distinguished absence, a stored text, or
/// an underlying fault with its cause.
pub ghost enum Slot {
    Found(Seq<char>),
    Missing,
    Faulted(Seq<char>),
}

/// The ghost contents of one branch's key namespace.
pub type Store = Map<Seq<char>, EntryV>;

/// The lookup a store answers for one key.
pub open spec fn slot(m: Map<Seq<char>, EntryV>, k: Seq<char>) -> Slot {
    if m.contains_key(k) {
        match m[k] {
            EntryV::Value(s) => Slot::Found(s),
            EntryV::Fault(c) => Slot::Faulted(c),
        }
    } else {
        Slot::Missing
    }
}

/// How a reader reports a failed lookup: the key was absent, or the
/// underlying storage or its typed coercion faulted, with a cause text.
#[derive(Debug, Clone, PartialEq, Eq)]
pub enum ReadError {
    NotFound,
    Io(String),
}

/// The typed, key-addressed lookup capability bound to one branch's key
/// namespace. A reader's ghost `store` names, per key, the entry every
/// lookup of that key observes.
pub trait Reader {
    spec fn store(&self) -> Map<Seq<char>, EntryV>;

    /// Look a key up as a string.
    fn read_string(&self, key: &str) -> (r: Result<String, ReadError>)
        ensures
            match slot(self.store(), key@) {
                Slot::Found(s) => r matches Ok(v) && v@ == s,
                Slot::Missing => r matches Err(ReadError::NotFound),
                Slot::Faulted(c) => r matches Err(ReadError::Io(m)) && m@ == c,
            },
    ;

    /// Look a key up and coerce it to a boolean; a stored text that fails the
    /// coercion reads as a fault whose cause is the offending text.
    fn read_bool(&self, key: &str) -> (r: Result<bool, ReadError>)
        ensures
            match slot(self.store(), key@) {
                Slot::Found(s) => match parse_bool_spec(s) {
                    Some(b) => r matches Ok(v) && v == b,
                    None => r matches Err(ReadError::Io(m)) && m@ == s,
                },
                Slot::Missing => r matches Err(ReadError::NotFound),
                Slot::Faulted(c) => r matches Err(ReadError::Io(m)) && m@ == c,
            },
    ;

    /// Look a key up and coerce it to a `usize`, as `read_bool` does.
    fn read_usize(&self, key: &str) -> (r: Result<usize, ReadError>)
        ensures
            match slot(self.store(), key@) {
                Slot::Found(s) => match parse_usize_spec(s) {
                    Some(v) => r matches Ok(w) && w == v,
                    None => r matches Err(ReadError::Io(m)) && m@ == s,
                },
                Slot::Missing => r matches Err(ReadError::NotFound),
                Slot::Faulted(c) => r matches Err(ReadError::Io(m)) && m@ == c,
            },
    ;

    /// Look a key up and coerce it to a `u128`, as `read_bool` does.
    fn read_u128(&self, key: &str) -> (r: Result<u128, ReadError>)
        ensures
            match slot(self.store(), key@) {
                Slot::Found(s) => match parse_u128_spec(s) {
                    Some(v) => r matches Ok(w) && w == v,
                    None => r matches Err(ReadError::Io(m)) && m@ == s,
                },
                Slot::Missing => r matches Err(ReadError::NotFound),
                Slot::Faulted(c) => r matches Err(ReadError::Io(m)) && m@ == c,
            },
    ;
}

/// The store a list of insertions denotes; a later insertion for the same key
/// overrides an earlier one.
pub open spec fn map_of(entries: Seq<(String, StoredEntry)>) -> Map<Seq<char>, EntryV>
    decreases entries.len(),
{
    if entries.len() == 0 {
        Map::empty()
    } else {
        map_of(entries.drop_last()).insert(entries.last().0@, entries.last().1@)
    }
}

/// An in-memory reader over one branch's key namespace.
#[derive(Debug)]
pub struct MemReader {
    entries: Vec<(String, StoredEntry)>,
}

impl MemReader {
    pub fn new() -> (r: MemReader)
        ensures
            r.store() == Map::<Seq<char>, EntryV>::empty(),
    {
        let r = MemReader { entries: Vec::new() };
        proof {
            assert(r.entries@.len() == 0);
        }
        r
    }

    /// Store a value under a key.
    pub fn set_value(&mut self, key: &str, value: &str)
        ensures
            final(self).store() == old(self).store().insert(key@, EntryV::Value(value@)),
    {
        self.entries.push((key.to_owned(), StoredEntry::Value(value.to_owned())));
        proof {
            assert(self.entries@.drop_last() =~= old(self).entries@);
        }
    }

    /// Make every read of a key observe an underlying fault with this cause.
    pub fn set_fault(&mut self, key: &str, cause: &str)
        ensures
            final(self).store() == old(self).store().insert(key@, EntryV::Fault(cause@)),
    {
        self.entries.push((key.to_owned(), StoredEntry::Fault(cause.to_owned())));
        proof {
            assert(self.entries@.drop_last() =~= old(self).entries@);
        }
    }
}

impl Reader for MemReader {
    closed spec fn store(&self) -> Map<Seq<char>, EntryV> {
        map_of(self.entries@)
    }

    fn read_string(&self, key: &str) -> (r: Result<String, ReadError>) {
        let mut i: usize = self.entries.len();
        proof {
            assert(self.entries@.take(i as int) =~= self.entries@);
        }
        while i > 0
            invariant
                i <= self.entries.len(),
                slot(map_of(self.entries@), key@) == slot(
                    map_of(self.entries@.take(i as int)),
                    key@,
                ),
            decreases i,
        {
            proof {
                assert(self.entries@.take(i as int).drop_last() =~= self.entries@.take(
                    i as int - 1,
                ));
                assert(self.entries@.take(i as int).last() == self.entries@[i as int - 1]);
            }
            let pair = &self.entries[i - 1];
            if str_eq(pair.0.as_str(), key) {
                match &pair.1 {
                    StoredEntry::Value(s) => {
                        return Ok(s.clone());
                    },
                    StoredEntry::Fault(c) => {
                        return Err(ReadError::Io(c.clone()));
                    },
                }
            }
            i -= 1;
        }
        proof {
            assert(self.entries@.take(0) =~= Seq::<(String, StoredEntry)>::empty());
        }
        Err(ReadError::NotFound)
    }

    fn read_bool(&self, key: &str) -> (r: Result<bool, ReadError>) {
        match self.read_string(key) {
            Ok(s) => match parse_bool(s.as_str()) {
                Some(b) => Ok(b),
                None => Err(ReadError::Io(s)),
            },
            Err(e) => Err(e),
        }
    }

    fn read_usize(&self, key: &str) -> (r: Result<usize, ReadError>) {
        match self.read_string(key) {
            Ok(s) => match parse_usize(s.as_str()) {
                Some(v) => Ok(v),
                None => Err(ReadError::Io(s)),
            },
            Err(e) => Err(e),
        }
    }

    fn read_u128(&self, key: &str) -> (r: Result<u128, ReadError>) {
        match self.read_string(key) {
            Ok(s) => match parse_u128(s.as_str()) {
                Some(v) => Ok(v),
                None => Err(ReadError::Io(s)),
            },
            Err(e) => Err(e),
        }
    }
}

} // verus!

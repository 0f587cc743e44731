//! Addresses, and tables keyed by address.

use crate::state::OracleStatus;
use vstd::prelude::*;

verus! {

/// An account address: an opaque text that has been validated by whoever
/// hands it to the aggregator. Two addresses are the same account when their
/// texts are equal.
#[derive(Debug, PartialEq, Eq)]
pub struct Addr {
    pub text: String,
}

impl View for Addr {
    type V = Seq<char>;

    open spec fn view(&self) -> Seq<char> {
        self.text@
    }
}

impl Clone for Addr {
    fn clone(&self) -> (copy: Self)
        ensures
            copy == *self,
    {
        Addr { text: self.text.clone() }
    }
}

impl Addr {
    /// The address with the given text, taken as it is.
    pub fn unchecked(text: &str) -> (addr: Addr)
        ensures
            addr@ == text@,
    {
        Addr { text: text.to_owned() }
    }

    /// The text of the address.
    pub fn as_str(&self) -> (text: &str)
        ensures
            text@ == self@,
    {
        self.text.as_str()
    }

    /// The text of the address, copied.
    pub fn to_string(&self) -> (text: String)
        ensures
            text@ == self@,
    {
        self.text.clone()
    }

    /// Whether two addresses name the same account.
    pub fn same(&self, other: &Addr) -> (same: bool)
        ensures
            same == (self@ == other@),
    {
        self.text == other.text
    }
}

/// The text of an optional address.
pub open spec fn text_of(addr: Option<Addr>) -> Option<Seq<char>> {
    match addr {
        Some(a) => Some(a@),
        None => None,
    }
}

/// The texts of a list of addresses.
pub open spec fn texts_of(addrs: Seq<Addr>) -> Seq<Seq<char>> {
    addrs.map_values(|a: Addr| a@)
}

/// A table from addresses to records, with at most one record for each
/// address. It stands for the mathematical map from address texts to records.
#[derive(Debug, Clone, PartialEq)]
pub struct AddrMap<V> {
    keys: Vec<Addr>,
    values: Vec<V>,
}

impl<V> AddrMap<V> {
    /// The keys and the records go in pairs, and no address occurs twice.
    pub closed spec fn wf(&self) -> bool {
        &&& self.keys@.len() == self.values@.len()
        &&& forall|i: int, j: int|
            0 <= i < j < self.keys@.len() ==> (#[trigger] self.keys@[i])@ != (
            #[trigger] self.keys@[j])@
    }

    /// Where the record of an address is kept.
    pub closed spec fn slot(&self, key: Seq<char>) -> int {
        choose|i: int| 0 <= i < self.keys@.len() && (#[trigger] self.keys@[i])@ == key
    }

    /// The number of records.
    pub closed spec fn spec_len(&self) -> nat {
        self.keys@.len()
    }

    /// The address of the `i`-th record, in the order of insertion.
    pub closed spec fn key_at(&self, i: int) -> Addr {
        self.keys@[i]
    }

    /// The `i`-th record, in the order of insertion.
    pub closed spec fn value_at(&self, i: int) -> V {
        self.values@[i]
    }

    /// The records at the positions below `spec_len` are the records of the
    /// table: every address that has a record stands at exactly one position,
    /// with its record.
    pub proof fn positions_are_records(&self)
        requires
            self.wf(),
        ensures
            forall|k: Seq<char>|
                self@.contains_key(k) <==> exists|i: int|
                    0 <= i < self.spec_len() && (#[trigger] self.key_at(i))@ == k,
            forall|i: int|
                0 <= i < self.spec_len() ==> self@[(#[trigger] self.key_at(i))@] == self.value_at(
                    i,
                ),
            forall|i: int, j: int|
                0 <= i < j < self.spec_len() ==> (#[trigger] self.key_at(i))@ != (
                #[trigger] self.key_at(j))@,
    {
        assert forall|i: int| 0 <= i < self.spec_len() implies self@[(#[trigger] self.key_at(
            i,
        ))@] == self.value_at(i) by {
            let k = self.keys@[i]@;
            let a = self.slot(k);
            assert(self.keys@[a]@ == k);
        }
        assert forall|k: Seq<char>|
            self@.contains_key(k) <==> exists|i: int|
                0 <= i < self.spec_len() && (#[trigger] self.key_at(i))@ == k by {
            if self@.contains_key(k) {
                let a = self.slot(k);
                assert(self.keys@[a]@ == k);
                assert(self.key_at(a)@ == k);
            }
            if exists|i: int| 0 <= i < self.spec_len() && (#[trigger] self.key_at(i))@ == k {
                let i = choose|i: int| 0 <= i < self.spec_len() && (#[trigger] self.key_at(i))@ == k;
                assert(self.keys@[i]@ == k);
            }
        }
    }

    /// The table with no record.
    pub fn new() -> (table: Self)
        ensures
            table.wf(),
            table@ == Map::<Seq<char>, V>::empty(),
            table.spec_len() == 0,
    {
        let table = AddrMap { keys: Vec::new(), values: Vec::new() };
        assert(table@ =~= Map::<Seq<char>, V>::empty());
        table
    }

    fn position(&self, key: &Addr) -> (found: Option<usize>)
        requires
            self.wf(),
        ensures
            match found {
                Some(i) => i < self.keys@.len() && self.keys@[i as int]@ == key@ && self.slot(key@)
                    == i && self@.contains_key(key@),
                None => !self@.contains_key(key@),
            },
    {
        let mut i: usize = 0;
        while i < self.keys.len()
            invariant
                self.wf(),
                i <= self.keys@.len(),
                forall|j: int| 0 <= j < i ==> (#[trigger] self.keys@[j])@ != key@,
            decreases self.keys@.len() - i,
        {
            if self.keys[i].same(key) {
                proof {
                    let a = self.slot(key@);
                    assert(self.keys@[i as int]@ == key@);
                    assert(self.keys@[a]@ == key@);
                }
                return Some(i);
            }
            i += 1;
        }
        None
    }

    /// The record of an address, if it has one.
    pub fn get(&self, key: &Addr) -> (found: Option<&V>)
        requires
            self.wf(),
        ensures
            match found {
                Some(value) => self@.contains_key(key@) && *value == self@[key@],
                None => !self@.contains_key(key@),
            },
    {
        match self.position(key) {
            Some(i) => Some(&self.values[i]),
            None => None,
        }
    }

    /// Whether an address has a record.
    pub fn contains_key(&self, key: &Addr) -> (found: bool)
        requires
            self.wf(),
        ensures
            found == self@.contains_key(key@),
    {
        self.position(key).is_some()
    }

    /// Gives an address a record, in place of the one it had, if any.
    pub fn insert(&mut self, key: Addr, value: V)
        requires
            old(self).wf(),
        ensures
            final(self).wf(),
            final(self)@ == old(self)@.insert(key@, value),
    {
        let ghost before = *self;
        match self.position(&key) {
            Some(i) => {
                self.values[i] = value;
                proof {
                    assert(self.keys@ == before.keys@);
                    assert(self.values@ == before.values@.update(i as int, value));
                    assert forall|k: Seq<char>| #[trigger] before@.contains_key(k) && k != key@ implies self.slot(k) != i by {
                        let a = self.slot(k);
                        assert(self.keys@[a]@ == k);
                    }
                    assert(self.slot(key@) == i);
                    assert(self@ =~= before@.insert(key@, value));
                }
            },
            None => {
                self.keys.push(key);
                self.values.push(value);
                proof {
                    let n = before.keys@.len() as int;
                    assert(self.keys@ == before.keys@.push(key));
                    assert(self.values@ == before.values@.push(value));
                    assert(self.keys@[n]@ == key@);
                    assert forall|i: int| 0 <= i < n implies (#[trigger] before.keys@[i])@ != key@ by {
                        if before.keys@[i]@ == key@ {
                            assert(before@.contains_key(key@));
                        }
                    }
                    assert(self.wf());
                    assert(self@.contains_key(key@));
                    let target = before@.insert(key@, value);
                    assert forall|k: Seq<char>| #[trigger] self@.dom().contains(k) == target.dom().contains(k) by {
                        if self@.dom().contains(k) {
                            let a = self.slot(k);
                            assert(self.keys@[a]@ == k);
                            if a < n {
                                assert(before.keys@[a]@ == k);
                                assert(before@.dom().contains(k));
                            }
                        }
                        if before@.dom().contains(k) {
                            let b = before.slot(k);
                            assert(before.keys@[b]@ == k);
                            assert(self.keys@[b]@ == k);
                        }
                    }
                    assert forall|k: Seq<char>| #[trigger] self@.dom().contains(k) implies self@[k] == target[k] by {
                        let a = self.slot(k);
                        assert(self.keys@[a]@ == k);
                        if a < n {
                            assert(before.keys@[a]@ == k);
                            let b = before.slot(k);
                            assert(before.keys@[b]@ == k);
                            assert(a == b);
                        }
                    }
                    assert(self@ =~= before@.insert(key@, value));
                }
            },
        }
    }

    /// Takes the record of an address away, if it has one.
    pub fn remove(&mut self, key: &Addr)
        requires
            old(self).wf(),
        ensures
            final(self).wf(),
            final(self)@ == old(self)@.remove(key@),
    {
        let ghost before = *self;
        match self.position(key) {
            Some(i) => {
                self.keys.remove(i);
                self.values.remove(i);
                proof {
                    assert forall|k: Seq<char>| self@.contains_key(k) implies before@.contains_key(
                        k,
                    ) && k != key@ && self@[k] == before@[k] by {
                        let a = self.slot(k);
                        assert(self.keys@[a]@ == k);
                        let b = if a < i { a } else { a + 1 };
                        assert(before.keys@[b]@ == k);
                        let c = before.slot(k);
                        assert(before.keys@[c]@ == k);
                    }
                    assert forall|k: Seq<char>| before@.contains_key(k) && k != key@ implies self@.contains_key(
                        k,
                    ) by {
                        let c = before.slot(k);
                        assert(before.keys@[c]@ == k);
                        let a = if c < i { c } else { c - 1 };
                        assert(self.keys@[a]@ == k);
                    }
                    assert(self@ =~= before@.remove(key@));
                }
            },
            None => {
                assert(self@ =~= before@.remove(key@));
            },
        }
    }

    /// Whether the table is in order: the keys and the records go in pairs,
    /// and no address occurs twice.
    pub fn is_well_formed(&self) -> (ok: bool)
        ensures
            ok == self.wf(),
    {
        if self.keys.len() != self.values.len() {
            return false;
        }
        let mut j: usize = 0;
        while j < self.keys.len()
            invariant
                j <= self.keys@.len(),
                self.keys@.len() == self.values@.len(),
                forall|a: int, b: int|
                    0 <= a < b < j ==> (#[trigger] self.keys@[a])@ != (#[trigger] self.keys@[b])@,
            decreases self.keys@.len() - j,
        {
            let mut i: usize = 0;
            while i < j
                invariant
                    i <= j < self.keys@.len(),
                    forall|a: int| 0 <= a < i ==> (#[trigger] self.keys@[a])@ != self.keys@[j as int]@,
                decreases j - i,
            {
                if self.keys[i].same(&self.keys[j]) {
                    return false;
                }
                i += 1;
            }
            j += 1;
        }
        true
    }

    /// The number of records.
    pub fn len(&self) -> (n: usize)
        requires
            self.wf(),
        ensures
            n == self.spec_len(),
    {
        self.keys.len()
    }

    /// The address and the record at a position below `len`.
    pub fn entry(&self, i: usize) -> (pair: (&Addr, &V))
        requires
            self.wf(),
            i < self.spec_len(),
        ensures
            *pair.0 == self.key_at(i as int),
            *pair.1 == self.value_at(i as int),
            self@.contains_key(pair.0@),
            self@[pair.0@] == *pair.1,
    {
        proof {
            let a = self.slot(self.keys@[i as int]@);
            assert(self.keys@[a]@ == self.keys@[i as int]@);
        }
        (&self.keys[i], &self.values[i])
    }
}

/// A copy of a list of addresses.
pub fn copy_addrs(addrs: &Vec<Addr>) -> (copy: Vec<Addr>)
    ensures
        copy@ == addrs@,
{
    let mut copy: Vec<Addr> = Vec::new();
    let mut i: usize = 0;
    while i < addrs.len()
        invariant
            i <= addrs@.len(),
            copy@ == addrs@.take(i as int),
        decreases addrs@.len() - i,
    {
        copy.push(addrs[i].clone());
        assert(copy@ =~= addrs@.take(i + 1));
        i += 1;
    }
    assert(copy@ =~= addrs@);
    copy
}

impl AddrMap<OracleStatus> {
    /// A copy of the table.
    pub fn duplicate(&self) -> (copy: Self)
        requires
            self.wf(),
        ensures
            copy.wf(),
            copy@ == self@,
    {
        let keys = copy_addrs(&self.keys);
        let mut values: Vec<OracleStatus> = Vec::new();
        let mut i: usize = 0;
        while i < self.values.len()
            invariant
                i <= self.values@.len(),
                values@ == self.values@.take(i as int),
            decreases self.values@.len() - i,
        {
            values.push(self.values[i].clone());
            assert(values@ =~= self.values@.take(i + 1));
            i += 1;
        }
        assert(values@ =~= self.values@);
        let copy = AddrMap { keys, values };
        assert(copy@ =~= self@);
        copy
    }
}

impl<V> View for AddrMap<V> {
    type V = Map<Seq<char>, V>;

    closed spec fn view(&self) -> Map<Seq<char>, V> {
        Map::new(
            |k: Seq<char>|
                exists|i: int| 0 <= i < self.keys@.len() && (#[trigger] self.keys@[i])@ == k,
            |k: Seq<char>| self.values@[self.slot(k)],
        )
    }
}

} // verus!

//! A list of items, each known by a text key, with at most one item per
//! key: the store behind the app's peers, transfers and pending approvals.
use vstd::prelude::*;
use crate::text::str_eq;

verus! {

/// Something known by a text key.
pub trait Keyed {
    spec fn key(&self) -> Seq<char>;

    fn key_text(&self) -> (r: &str)
        ensures
            r@ == self.key(),
    ;
}

/// Items with distinct keys, in the order they were first inserted.
pub struct KeyedList<T> {
    items: Vec<T>,
    map: Ghost<Map<Seq<char>, T>>,
}

impl<T: Keyed> KeyedList<T> {
    /// The items by key.
    pub closed spec fn map(&self) -> Map<Seq<char>, T> {
        self.map@
    }

    /// The items in order.
    pub closed spec fn items(&self) -> Seq<T> {
        self.items@
    }

    /// The list is consistent: keys are distinct and the map holds exactly
    /// the items.
    pub closed spec fn wf(&self) -> bool {
        &&& forall|i: int, j: int|
            0 <= i < j < self.items@.len() ==> self.items@[i].key() != self.items@[j].key()
        &&& forall|i: int|
            0 <= i < self.items@.len() ==> #[trigger] self.map@.contains_key(self.items@[i].key())
                && self.map@[self.items@[i].key()] == self.items@[i]
        &&& forall|k: Seq<char>|
            #[trigger] self.map@.contains_key(k) ==> exists|i: int|
                0 <= i < self.items@.len() && self.items@[i].key() == k
    }

    pub fn new() -> (r: KeyedList<T>)
        ensures
            r.wf(),
            r.map() == Map::<Seq<char>, T>::empty(),
    {
        KeyedList { items: Vec::new(), map: Ghost(Map::empty()) }
    }

    /// Where the item with this key is.
    fn position(&self, key: &str) -> (r: Option<usize>)
        requires
            self.wf(),
        ensures
            match r {
                Some(i) => i < self.items@.len() && self.items@[i as int].key() == key@,
                None => !self.map().contains_key(key@),
            },
    {
        let mut i: usize = 0;
        while i < self.items.len()
            invariant
                self.wf(),
                i <= self.items@.len(),
                forall|j: int| 0 <= j < i ==> self.items@[j].key() != key@,
            decreases self.items@.len() - i,
        {
            if str_eq(self.items[i].key_text(), key) {
                return Some(i);
            }
            i = i + 1;
        }
        None
    }

    /// The item with this key.
    pub fn get(&self, key: &str) -> (r: Option<&T>)
        requires
            self.wf(),
        ensures
            match r {
                Some(v) => self.map().contains_key(key@) && *v == self.map()[key@] && v.key()
                    == key@,
                None => !self.map().contains_key(key@),
            },
    {
        match self.position(key) {
            Some(i) => {
                assert(self.map@.contains_key(self.items@[i as int].key()));
                Some(&self.items[i])
            },
            None => None,
        }
    }

    /// Whether an item has this key.
    pub fn contains(&self, key: &str) -> (r: bool)
        requires
            self.wf(),
        ensures
            r == self.map().contains_key(key@),
    {
        self.position(key).is_some()
    }

    /// Puts `value` under its key, replacing an item with the same key in
    /// place or adding it at the end. Returns whether the key is new.
    pub fn insert(&mut self, value: T) -> (r: bool)
        requires
            old(self).wf(),
        ensures
            final(self).wf(),
            r == !old(self).map().contains_key(value.key()),
            final(self).map() == old(self).map().insert(value.key(), value),
    {
        let ghost k = value.key();
        let ghost gv = value;
        match self.position(value.key_text()) {
            Some(i) => {
                let ghost old_items = self.items@;
                self.items[i] = value;
                self.map = Ghost(self.map@.insert(k, gv));
                assert forall|j: int| 0 <= j < self.items@.len() && j != i implies self.items@[j]
                    == old_items[j] && self.items@[j].key() != k by {
                    if j < i {
                        assert(old_items[j].key() != old_items[i as int].key());
                    } else {
                        assert(old_items[i as int].key() != old_items[j].key());
                    }
                }
                assert forall|kk: Seq<char>| #[trigger] self.map@.contains_key(kk) implies exists|
                    j: int,
                | 0 <= j < self.items@.len() && self.items@[j].key() == kk by {
                    if kk != k {
                        let j = choose|j: int|
                            0 <= j < old_items.len() && old_items[j].key() == kk;
                        assert(self.items@[j].key() == kk);
                    } else {
                        assert(self.items@[i as int].key() == kk);
                    }
                }
                false
            },
            None => {
                let ghost old_items = self.items@;
                self.items.push(value);
                self.map = Ghost(self.map@.insert(k, gv));
                assert forall|j: int| 0 <= j < old_items.len() implies self.items@[j].key() != k by {
                    assert(old(self).map@.contains_key(old_items[j].key()));
                }
                assert forall|kk: Seq<char>| #[trigger] self.map@.contains_key(kk) implies exists|
                    j: int,
                | 0 <= j < self.items@.len() && self.items@[j].key() == kk by {
                    if kk != k {
                        let j = choose|j: int|
                            0 <= j < old_items.len() && old_items[j].key() == kk;
                        assert(self.items@[j].key() == kk);
                    } else {
                        assert(self.items@[old_items.len() as int].key() == kk);
                    }
                }
                true
            },
        }
    }

    /// Takes out the item with this key.
    pub fn remove(&mut self, key: &str) -> (r: Option<T>)
        requires
            old(self).wf(),
        ensures
            final(self).wf(),
            match r {
                Some(v) => old(self).map().contains_key(key@) && v == old(self).map()[key@]
                    && v.key() == key@,
                None => !old(self).map().contains_key(key@),
            },
            final(self).map() == old(self).map().remove(key@),
    {
        match self.position(key) {
            Some(i) => {
                let ghost old_items = self.items@;
                assert(self.map@.contains_key(old_items[i as int].key()));
                let v = self.items.remove(i);
                self.map = Ghost(self.map@.remove(key@));
                assert forall|j: int| 0 <= j < self.items@.len() implies self.items@[j].key()
                    != key@ && self.items@[j] == old_items[if j < i {
                    j
                } else {
                    j + 1
                }] by {
                    if j < i {
                        assert(old_items[j].key() != old_items[i as int].key());
                    } else {
                        assert(old_items[i as int].key() != old_items[j + 1].key());
                    }
                }
                assert forall|kk: Seq<char>| #[trigger] self.map@.contains_key(kk) implies exists|
                    j: int,
                | 0 <= j < self.items@.len() && self.items@[j].key() == kk by {
                    let j = choose|j: int| 0 <= j < old_items.len() && old_items[j].key() == kk;
                    if j < i {
                        assert(self.items@[j].key() == kk);
                    } else {
                        assert(j != i);
                        assert(self.items@[j - 1].key() == kk);
                    }
                }
                assert forall|a: int, b: int|
                    0 <= a < b < self.items@.len() implies self.items@[a].key()
                    != self.items@[b].key() by {
                    let oa = if a < i {
                        a
                    } else {
                        a + 1
                    };
                    let ob = if b < i {
                        b
                    } else {
                        b + 1
                    };
                    assert(oa < ob);
                    assert(old_items[oa].key() != old_items[ob].key());
                }
                Some(v)
            },
            None => {
                assert(self.map@.remove(key@) =~= self.map@);
                None
            },
        }
    }

    /// The items in order.
    pub fn as_vec(&self) -> (r: &Vec<T>)
        requires
            self.wf(),
        ensures
            r@ == self.items(),
            forall|i: int| 0 <= i < r@.len() ==> self.map().contains_key(#[trigger] r@[i].key())
                && self.map()[r@[i].key()] == r@[i],
            forall|k: Seq<char>|
                #[trigger] self.map().contains_key(k) ==> exists|i: int|
                    0 <= i < r@.len() && r@[i].key() == k,
            forall|i: int, j: int| 0 <= i < j < r@.len() ==> r@[i].key() != r@[j].key(),
    {
        &self.items
    }
}

} // verus!

//! The registered tunnels by domain, in the order of the domains.

use crate::text::chars_of;
use crate::types::{RecordView, TunnelRecord};
use vstd::prelude::*;

verus! {

/// `a` comes before `b` in the order of words: the first character in which they differ
/// decides, and a word comes before those that it begins.
pub open spec fn word_before(a: Seq<char>, b: Seq<char>) -> bool
    decreases a.len(),
{
    if b.len() == 0 {
        false
    } else if a.len() == 0 {
        true
    } else if a.first() == b.first() {
        word_before(a.drop_first(), b.drop_first())
    } else {
        a.first() < b.first()
    }
}

/// No word comes before itself.
pub proof fn lemma_word_irreflexive(a: Seq<char>)
    ensures
        !word_before(a, a),
    decreases a.len(),
{
    if a.len() > 0 {
        lemma_word_irreflexive(a.drop_first());
    }
}

/// The order of words is transitive.
pub proof fn lemma_word_transitive(a: Seq<char>, b: Seq<char>, c: Seq<char>)
    requires
        word_before(a, b),
        word_before(b, c),
    ensures
        word_before(a, c),
    decreases a.len(),
{
    if a.len() > 0 && a.first() == b.first() && b.first() == c.first() {
        lemma_word_transitive(a.drop_first(), b.drop_first(), c.drop_first());
    }
}

/// Of two different words one comes before the other.
pub proof fn lemma_word_total(a: Seq<char>, b: Seq<char>)
    ensures
        a == b || word_before(a, b) || word_before(b, a),
    decreases a.len(),
{
    if a.len() == 0 {
        assert(b.len() == 0 ==> a =~= b);
    } else if b.len() > 0 && a.first() == b.first() {
        lemma_word_total(a.drop_first(), b.drop_first());
        if a.drop_first() == b.drop_first() {
            assert(a =~= seq![a.first()] + a.drop_first());
            assert(b =~= seq![b.first()] + b.drop_first());
        }
    }
}

/// How two words stand to each other.
#[derive(Debug, Clone, Copy, PartialEq, Eq, Structural)]
pub enum WordOrder {
    Before,
    Same,
    After,
}

/// How `a` stands to `b` in the order of words.
pub fn word_order(a: &str, b: &str) -> (order: WordOrder)
    ensures
        order == WordOrder::Before <==> word_before(a@, b@),
        order == WordOrder::Same <==> a@ == b@,
        order == WordOrder::After <==> word_before(b@, a@),
{
    let left = chars_of(a);
    let right = chars_of(b);
    let mut i: usize = 0;
    proof {
        assert(a@.skip(0) =~= a@);
        assert(b@.skip(0) =~= b@);
    }
    while i < left.len() && i < right.len() && left[i] == right[i]
        invariant
            left@ == a@,
            right@ == b@,
            i <= a@.len(),
            i <= b@.len(),
            a@.take(i as int) == b@.take(i as int),
            word_before(a@, b@) == word_before(a@.skip(i as int), b@.skip(i as int)),
            word_before(b@, a@) == word_before(b@.skip(i as int), a@.skip(i as int)),
        decreases a@.len() - i,
    {
        proof {
            assert(a@.skip(i as int).drop_first() =~= a@.skip(i + 1));
            assert(b@.skip(i as int).drop_first() =~= b@.skip(i + 1));
            assert(a@.take(i + 1) =~= a@.take(i as int).push(a@[i as int]));
            assert(b@.take(i + 1) =~= b@.take(i as int).push(b@[i as int]));
        }
        i = i + 1;
    }
    proof {
        lemma_word_irreflexive(a@);
        if i < a@.len() && i < b@.len() {
            assert(a@[i as int] != b@[i as int]);
        }
    }
    if i == right.len() {
        if i == left.len() {
            proof {
                assert(a@.take(i as int) =~= a@);
                assert(b@.take(i as int) =~= b@);
            }
            WordOrder::Same
        } else {
            proof {
                assert(a@.len() != b@.len());
            }
            WordOrder::After
        }
    } else if i == left.len() {
        proof {
            assert(a@.len() != b@.len());
        }
        WordOrder::Before
    } else if left[i] < right[i] {
        WordOrder::Before
    } else {
        WordOrder::After
    }
}

/// The words of `keys` stand in their order, and none occurs twice.
pub open spec fn ascending(keys: Seq<Seq<char>>) -> bool {
    forall|i: int, j: int|
        0 <= i < j < keys.len() ==> word_before(#[trigger] keys[i], #[trigger] keys[j])
}

/// The registered tunnels by domain.
#[derive(Debug)]
pub struct TunnelMap {
    entries: Vec<(String, TunnelRecord)>,
}

impl View for TunnelMap {
    type V = Map<Seq<char>, RecordView>;

    closed spec fn view(&self) -> Map<Seq<char>, RecordView> {
        Map::new(
            |key: Seq<char>| self.keys().contains(key),
            |key: Seq<char>| self.entries@[self.keys().index_of(key)].1@,
        )
    }
}

impl DeepView for TunnelMap {
    type V = Map<Seq<char>, RecordView>;

    open spec fn deep_view(&self) -> Map<Seq<char>, RecordView> {
        self@
    }
}

impl TunnelMap {
    /// The domains, in the order in which the tunnels are listed.
    pub closed spec fn keys(self) -> Seq<Seq<char>> {
        self.entries@.map_values(|entry: (String, TunnelRecord)| entry.0@)
    }

    #[verifier::type_invariant]
    pub closed spec fn valid(self) -> bool {
        ascending(self.keys())
    }

    /// What the view holds of the entry at `i`.
    proof fn lemma_entry(self, i: int)
        requires
            self.valid(),
            0 <= i < self.entries@.len(),
        ensures
            self@.contains_key(self.keys()[i]),
            self@[self.keys()[i]] == self.entries@[i].1@,
    {
        let key = self.keys()[i];
        assert(self.keys().contains(key));
        let found = self.keys().index_of(key);
        assert(self.keys()[found] == key);
        if found != i {
            lemma_word_irreflexive(key);
        }
    }

    /// The domains are those of the view.
    proof fn lemma_dom(self)
        ensures
            forall|key: Seq<char>| self.keys().contains(key) <==> #[trigger] self@.dom().contains(
                key,
            ),
    {
    }

    /// No tunnel.
    pub fn new() -> (map: TunnelMap)
        ensures
            map@ == Map::<Seq<char>, RecordView>::empty(),
    {
        let map = TunnelMap { entries: Vec::new() };
        proof {
            assert(map@ =~= Map::<Seq<char>, RecordView>::empty());
        }
        map
    }

    /// How many tunnels there are.
    pub fn len(&self) -> (len: usize)
        ensures
            len == self.keys().len(),
            len == self@.len(),
    {
        proof {
            use_type_invariant(self);
            self.lemma_dom();
            assert(self@.dom() =~= self.keys().to_set());
            assert(self.keys().no_duplicates()) by {
                assert forall|i: int, j: int|
                    0 <= i < self.keys().len() && 0 <= j < self.keys().len() && i
                        != j implies self.keys()[i] != self.keys()[j] by {
                    lemma_word_irreflexive(self.keys()[i]);
                    if i < j {
                        assert(word_before(self.keys()[i], self.keys()[j]));
                    } else {
                        assert(word_before(self.keys()[j], self.keys()[i]));
                    }
                }
            }
            self.keys().unique_seq_to_set();
        }
        self.entries.len()
    }

    /// Where the domain `key` stands or would stand, and whether it is there.
    fn position(&self, key: &str) -> (place: (usize, bool))
        ensures
            place.0 <= self.keys().len(),
            forall|j: int| 0 <= j < place.0 ==> word_before(#[trigger] self.keys()[j], key@),
            place.1 ==> place.0 < self.keys().len() && self.keys()[place.0 as int] == key@,
            place.1 == self@.contains_key(key@),
            !place.1 ==> forall|j: int|
                place.0 <= j < self.keys().len() ==> word_before(key@, #[trigger] self.keys()[j]),
    {
        proof {
            use_type_invariant(self);
            self.lemma_dom();
        }
        let mut i: usize = 0;
        while i < self.entries.len()
            invariant
                self.valid(),
                i <= self.entries@.len(),
                forall|j: int| 0 <= j < i ==> word_before(#[trigger] self.keys()[j], key@),
            ensures
                i <= self.entries@.len(),
                forall|j: int| 0 <= j < i ==> word_before(#[trigger] self.keys()[j], key@),
                i < self.entries@.len() ==> word_before(key@, self.keys()[i as int]),
            decreases self.entries@.len() - i,
        {
            match word_order(self.entries[i].0.as_str(), key) {
                WordOrder::Before => {
                    i = i + 1;
                },
                WordOrder::Same => {
                    proof {
                        self.lemma_entry(i as int);
                    }
                    return (i, true);
                },
                WordOrder::After => {
                    break ;
                },
            }
        }
        proof {
            assert forall|j: int| i <= j < self.keys().len() implies word_before(
                key@,
                #[trigger] self.keys()[j],
            ) by {
                if j > i {
                    lemma_word_transitive(key@, self.keys()[i as int], self.keys()[j]);
                }
            }
            if self.keys().contains(key@) {
                let j = self.keys().index_of(key@);
                assert(self.keys()[j] == key@);
                lemma_word_irreflexive(key@);
            }
        }
        (i, false)
    }

    /// The tunnel under `key`.
    pub fn get(&self, key: &str) -> (record: Option<TunnelRecord>)
        ensures
            record.deep_view() == (if self@.contains_key(key@) {
                Some(self@[key@])
            } else {
                None
            }),
    {
        let (i, found) = self.position(key);
        if found {
            proof {
                use_type_invariant(self);
                self.lemma_entry(i as int);
            }
            Some(self.entries[i].1.clone())
        } else {
            None
        }
    }

    /// Registers `record` under `key`, in place of what was there.
    pub fn insert(&mut self, key: String, record: TunnelRecord)
        ensures
            final(self)@ == old(self)@.insert(key@, record@),
    {
        let (i, found) = self.position(key.as_str());
        proof {
            use_type_invariant(&*self);
            self.lemma_dom();
        }
        let ghost before = *self;
        let mut entries: Vec<(String, TunnelRecord)> = Vec::new();
        std::mem::swap(&mut entries, &mut self.entries);
        if found {
            entries.set(i, (key, record));
        } else {
            entries.insert(i, (key, record));
        }
        let ghost after = TunnelMap { entries };
        proof {
            let old_keys = before.keys();
            let new_keys = after.keys();
            if found {
                assert(new_keys =~= old_keys);
            } else {
                assert(new_keys =~= old_keys.insert(i as int, key@));
                assert(ascending(new_keys));
            }
            after.lemma_dom();
            assert(after.valid());
            assert(after@ =~= before@.insert(key@, record@)) by {
                assert forall|k: Seq<char>| #[trigger]
                    after@.contains_key(k) == before@.insert(key@, record@).contains_key(k) by {
                    if new_keys.contains(k) {
                        let j = new_keys.index_of(k);
                        assert(new_keys[j] == k);
                        if j < i {
                            assert(old_keys[j] == k);
                        } else if j > i {
                            if found {
                                assert(old_keys[j] == k);
                            } else {
                                assert(old_keys[j - 1] == k);
                            }
                        }
                    }
                    if old_keys.contains(k) {
                        let j = old_keys.index_of(k);
                        assert(old_keys[j] == k);
                        if found || j < i {
                            assert(new_keys[j] == k);
                        } else {
                            assert(new_keys[j + 1] == k);
                        }
                    }
                    assert(new_keys[i as int] == key@);
                }
                assert forall|k: Seq<char>| #[trigger] after@.contains_key(k) implies after@[k]
                    == before@.insert(key@, record@)[k] by {
                    let j = new_keys.index_of(k);
                    assert(new_keys[j] == k);
                    after.lemma_entry(j);
                    if j == i {
                        assert(k == key@);
                    } else if j < i || found {
                        before.lemma_entry(j);
                        assert(old_keys[j] == k);
                        lemma_word_irreflexive(k);
                        assert(k != key@);
                    } else {
                        before.lemma_entry(j - 1);
                        assert(old_keys[j - 1] == k);
                        lemma_word_irreflexive(k);
                        assert(k != key@);
                    }
                }
            }
        }
        self.entries = entries;
    }

    /// Takes the tunnel under `key` out.
    pub fn remove(&mut self, key: &str) -> (record: Option<TunnelRecord>)
        ensures
            final(self)@ == old(self)@.remove(key@),
            record.deep_view() == (if old(self)@.contains_key(key@) {
                Some(old(self)@[key@])
            } else {
                None
            }),
    {
        let (i, found) = self.position(key);
        proof {
            use_type_invariant(&*self);
            self.lemma_dom();
        }
        if !found {
            proof {
                assert(self@ =~= self@.remove(key@));
            }
            return None;
        }
        let ghost before = *self;
        let mut entries: Vec<(String, TunnelRecord)> = Vec::new();
        std::mem::swap(&mut entries, &mut self.entries);
        let (_, record) = entries.remove(i);
        let ghost after = TunnelMap { entries };
        proof {
            let old_keys = before.keys();
            let new_keys = after.keys();
            before.lemma_entry(i as int);
            assert(new_keys =~= old_keys.remove(i as int));
            assert(ascending(new_keys));
            after.lemma_dom();
            assert(after@ =~= before@.remove(key@)) by {
                assert forall|k: Seq<char>| #[trigger]
                    after@.contains_key(k) == before@.remove(key@).contains_key(k) by {
                    if new_keys.contains(k) {
                        let j = new_keys.index_of(k);
                        assert(new_keys[j] == k);
                        lemma_word_irreflexive(k);
                        if j < i {
                            assert(old_keys[j] == k);
                        } else {
                            assert(old_keys[j + 1] == k);
                            assert(word_before(old_keys[i as int], old_keys[j + 1]));
                        }
                    }
                    if old_keys.contains(k) && k != key@ {
                        let j = old_keys.index_of(k);
                        assert(old_keys[j] == k);
                        if j < i {
                            assert(new_keys[j] == k);
                        } else {
                            assert(new_keys[j - 1] == k);
                        }
                    }
                }
                assert forall|k: Seq<char>| #[trigger] after@.contains_key(k) implies after@[k]
                    == before@.remove(key@)[k] by {
                    let j = new_keys.index_of(k);
                    assert(new_keys[j] == k);
                    after.lemma_entry(j);
                    if j < i {
                        before.lemma_entry(j);
                        assert(old_keys[j] == k);
                    } else {
                        before.lemma_entry(j + 1);
                        assert(old_keys[j + 1] == k);
                    }
                }
            }
        }
        self.entries = entries;
        Some(record)
    }

    /// The tunnels, in the order of their domains.
    pub fn values(&self) -> (records: Vec<TunnelRecord>)
        ensures
            ascending(self.keys()),
            self.keys().to_set() == self@.dom(),
            records.deep_view() == self.keys().map_values(|key: Seq<char>| self@[key]),
    {
        proof {
            use_type_invariant(self);
            self.lemma_dom();
            assert(self.keys().to_set() =~= self@.dom());
        }
        let mut records: Vec<TunnelRecord> = Vec::new();
        let mut i: usize = 0;
        while i < self.entries.len()
            invariant
                self.valid(),
                i <= self.entries@.len(),
                records@.len() == i,
                forall|j: int|
                    0 <= j < i ==> (#[trigger] records@[j])@ == self@[self.keys()[j]],
            decreases self.entries@.len() - i,
        {
            proof {
                self.lemma_entry(i as int);
            }
            records.push(self.entries[i].1.clone());
            i = i + 1;
        }
        proof {
            assert(records.deep_view() =~= self.keys().map_values(|key: Seq<char>| self@[key]));
        }
        records
    }

    /// The domains and the tunnels under them, in order.
    pub fn items(&self) -> (items: &Vec<(String, TunnelRecord)>)
        ensures
            ascending(self.keys()),
            self.keys().to_set() == self@.dom(),
            items@.len() == self.keys().len(),
            forall|i: int|
                0 <= i < items@.len() ==> (#[trigger] items@[i]).0@ == self.keys()[i]
                    && items@[i].1@ == self@[self.keys()[i]],
    {
        proof {
            use_type_invariant(self);
            self.lemma_dom();
            assert(self.keys().to_set() =~= self@.dom());
            assert forall|i: int| 0 <= i < self.entries@.len() implies (
            #[trigger] self.entries@[i]).0@ == self.keys()[i] && self.entries@[i].1@
                == self@[self.keys()[i]] by {
                self.lemma_entry(i);
            }
        }
        &self.entries
    }
}

/// The first character in which two words differ decides their order, whatever precedes and
/// follows it, and a word comes before each longer one that it begins.
pub proof fn first_difference_decides(
    head: Seq<char>,
    a: char,
    b: char,
    x: Seq<char>,
    y: Seq<char>,
)
    ensures
        a < b ==> word_before(head + (seq![a] + x), head + (seq![b] + y)),
        word_before(head, head + (seq![a] + x)),
        !word_before(head + (seq![a] + x), head),
    decreases head.len(),
{
    let left = head + (seq![a] + x);
    let right = head + (seq![b] + y);
    if head.len() == 0 {
        assert(left =~= seq![a] + x);
        assert(right =~= seq![b] + y);
    } else {
        first_difference_decides(head.drop_first(), a, b, x, y);
        assert(left.drop_first() =~= head.drop_first() + (seq![a] + x));
        assert(right.drop_first() =~= head.drop_first() + (seq![b] + y));
        assert(left.first() == head.first() && right.first() == head.first());
    }
}

} // verus!

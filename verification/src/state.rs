//! The pings that wait for a reply.

use vstd::prelude::*;

use crate::random::{Token, TOKEN_SIZE};

verus! {

/// One ping that waits: its token and what is to be told of the reply.
struct Entry<V> {
    token: Token,
    value: V,
}

/// What waits for a reply, by token.
pub struct PingState<V> {
    entries: Vec<Entry<V>>,
}

/// Whether entry `i` is the one with the given token.
spec fn is_at<V>(entries: Seq<Entry<V>>, key: Seq<u8>, i: int) -> bool {
    0 <= i < entries.len() && entries[i].token@ == key
}

/// No token occurs twice.
spec fn tokens_differ<V>(entries: Seq<Entry<V>>) -> bool {
    forall|i: int, j: int|
        0 <= i < entries.len() && 0 <= j < entries.len() && entries[i].token@
            == entries[j].token@ ==> i == j
}

/// The map from token to value that the entries stand for.
spec fn as_map<V>(entries: Seq<Entry<V>>) -> Map<Seq<u8>, V> {
    Map::new(
        |key: Seq<u8>| exists|i: int| is_at(entries, key, i),
        |key: Seq<u8>| entries[choose|i: int| is_at(entries, key, i)].value,
    )
}

/// Every entry is found in the map under its token.
proof fn lemma_at<V>(entries: Seq<Entry<V>>, key: Seq<u8>, i: int)
    requires
        tokens_differ(entries),
        is_at(entries, key, i),
    ensures
        as_map(entries).dom().contains(key),
        as_map(entries)[key] == entries[i].value,
{
    let j = choose|j: int| is_at(entries, key, j);
    assert(is_at(entries, key, j));
}

/// Whether two maps hold the same under `key`.
spec fn agree<V>(a: Map<Seq<u8>, V>, b: Map<Seq<u8>, V>, key: Seq<u8>) -> bool {
    a.dom().contains(key) == b.dom().contains(key) && (a.dom().contains(key) ==> a[key] == b[key])
}

/// Maps that hold the same under every key are equal.
proof fn lemma_same_map<V>(a: Map<Seq<u8>, V>, b: Map<Seq<u8>, V>)
    requires
        forall|key: Seq<u8>| #[trigger] agree(a, b, key),
    ensures
        a == b,
{
    assert forall|key: Seq<u8>| a.dom().contains(key) == b.dom().contains(key) by {
        assert(agree(a, b, key));
    }
    assert forall|key: Seq<u8>| a.dom().contains(key) implies a[key] == b[key] by {
        assert(agree(a, b, key));
    }
    assert(a =~= b);
}

/// Writing over the entry with the same token, or adding one where there is
/// none, inserts into the map.
proof fn lemma_insert<V>(
    before: Seq<Entry<V>>,
    after: Seq<Entry<V>>,
    place: Option<usize>,
    entry: Entry<V>,
)
    requires
        tokens_differ(before),
        match place {
            Some(i) => is_at(before, entry.token@, i as int) && after == before.update(
                i as int,
                entry,
            ),
            None => (forall|i: int| !is_at(before, entry.token@, i)) && after == before.push(entry),
        },
    ensures
        tokens_differ(after),
        as_map(after) == as_map(before).insert(entry.token@, entry.value),
{
    let at = match place {
        Some(i) => i as int,
        None => before.len() as int,
    };
    assert forall|i: int, j: int|
        0 <= i < after.len() && 0 <= j < after.len() && after[i].token@
            == after[j].token@ implies i == j by {
        if place is None {
            if i < before.len() {
                assert(!is_at(before, entry.token@, i));
            }
            if j < before.len() {
                assert(!is_at(before, entry.token@, j));
            }
        }
    }
    let expected = as_map(before).insert(entry.token@, entry.value);
    assert(is_at(after, entry.token@, at));
    lemma_at(after, entry.token@, at);
    assert forall|key: Seq<u8>| #[trigger] agree(as_map(after), expected, key) by {
        if key != entry.token@ && exists|i: int| is_at(before, key, i) {
            let i = choose|i: int| is_at(before, key, i);
            assert(is_at(after, key, i));
            lemma_at(before, key, i);
            lemma_at(after, key, i);
        }
        if key != entry.token@ && exists|i: int| is_at(after, key, i) {
            let i = choose|i: int| is_at(after, key, i);
            assert(is_at(before, key, i));
        }
    }
    lemma_same_map(as_map(after), expected);
}

/// Moving the last entry to the place of another, which leaves, removes from the map.
proof fn lemma_remove<V>(before: Seq<Entry<V>>, after: Seq<Entry<V>>, gone: Seq<u8>, at: int)
    requires
        tokens_differ(before),
        is_at(before, gone, at),
        after == before.update(at, before.last()).drop_last(),
    ensures
        tokens_differ(after),
        as_map(after) == as_map(before).remove(gone),
{
    let last = before.len() - 1;
    assert forall|i: int, j: int|
        0 <= i < after.len() && 0 <= j < after.len() && after[i].token@
            == after[j].token@ implies i == j by {
        let oi = if i == at { last } else { i };
        let oj = if j == at { last } else { j };
        assert(before[oi].token@ == before[oj].token@);
    }
    if exists|i: int| is_at(after, gone, i) {
        let i = choose|i: int| is_at(after, gone, i);
        let oi = if i == at { last } else { i };
        assert(before[oi].token@ == before[at].token@);
    }
    let expected = as_map(before).remove(gone);
    assert forall|key: Seq<u8>| #[trigger] agree(as_map(after), expected, key) by {
        if key != gone && exists|i: int| is_at(before, key, i) {
            let i = choose|i: int| is_at(before, key, i);
            let ni = if i == last { at } else { i };
            assert(is_at(after, key, ni));
            lemma_at(before, key, i);
            lemma_at(after, key, ni);
        }
        if key != gone && exists|i: int| is_at(after, key, i) {
            let i = choose|i: int| is_at(after, key, i);
            let oi = if i == at { last } else { i };
            assert(is_at(before, key, oi));
        }
    }
    lemma_same_map(as_map(after), expected);
}

impl<V> View for PingState<V> {
    type V = Map<Seq<u8>, V>;

    /// What waits, by the bytes of its token.
    closed spec fn view(&self) -> Map<Seq<u8>, V> {
        as_map(self.entries@)
    }
}

/// Whether `key` is `token`, byte for byte.
fn same_bytes(token: &Token, key: &[u8]) -> (same: bool)
    ensures
        same == (token@ == key@),
{
    if key.len() != token.len() {
        return false;
    }
    let mut i: usize = 0;
    while i < key.len()
        invariant
            i <= key@.len(),
            key@.len() == token@.len(),
            forall|j: int| 0 <= j < i ==> token@[j] == key@[j],
        decreases key@.len() - i,
    {
        if token[i] != key[i] {
            return false;
        }
        i = i + 1;
    }
    assert(token@ =~= key@);
    true
}

impl<V> PingState<V> {
    #[verifier::type_invariant]
    spec fn type_inv(self) -> bool {
        tokens_differ(self.entries@)
    }

    /// Nothing waits.
    pub fn new() -> (state: Self)
        ensures
            state@ == Map::<Seq<u8>, V>::empty(),
    {
        let state = PingState { entries: Vec::new() };
        assert(state@ =~= Map::<Seq<u8>, V>::empty());
        state
    }

    /// Where the entry with the token `key` stands.
    fn find(&self, key: &[u8]) -> (found: Option<usize>)
        ensures
            match found {
                Some(i) => is_at(self.entries@, key@, i as int),
                None => forall|i: int| !is_at(self.entries@, key@, i),
            },
    {
        let mut i: usize = 0;
        while i < self.entries.len()
            invariant
                i <= self.entries@.len(),
                forall|j: int| 0 <= j < i ==> !is_at(self.entries@, key@, j),
            decreases self.entries@.len() - i,
        {
            if same_bytes(&self.entries[i].token, key) {
                return Some(i);
            }
            i = i + 1;
        }
        None
    }

    /// Lets `value` wait for the reply with the token `key`, in place of what
    /// waited for it before.
    pub fn insert(&mut self, key: Token, value: V)
        ensures
            final(self)@ == old(self)@.insert(key@, value),
    {
        proof {
            use_type_invariant(&*self);
        }
        let ghost before = self.entries@;
        let place = self.find(key.as_slice());
        let entry = Entry { token: key, value };
        let mut entries: Vec<Entry<V>> = Vec::new();
        std::mem::swap(&mut entries, &mut self.entries);
        match place {
            Some(i) => {
                entries.set(i, entry);
            },
            None => {
                entries.push(entry);
            },
        }
        proof {
            lemma_insert(before, entries@, place, entry);
        }
        self.entries = entries;
    }

    /// Takes out what waits for the reply with the token `key`. Bytes that are no
    /// token take out nothing.
    pub fn remove(&mut self, key: &[u8]) -> (value: Option<V>)
        ensures
            final(self)@ == old(self)@.remove(key@),
            match value {
                Some(v) => old(self)@.dom().contains(key@) && v == old(self)@[key@],
                None => !old(self)@.dom().contains(key@),
            },
            key@.len() != TOKEN_SIZE ==> value is None && final(self)@ == old(self)@,
    {
        proof {
            use_type_invariant(&*self);
        }
        let ghost before = self.entries@;
        match self.find(key) {
            Some(i) => {
                let mut entries: Vec<Entry<V>> = Vec::new();
                std::mem::swap(&mut entries, &mut self.entries);
                let entry = entries.swap_remove(i);
                proof {
                    lemma_at(before, key@, i as int);
                    lemma_remove(before, entries@, key@, i as int);
                }
                self.entries = entries;
                Some(entry.value)
            },
            None => {
                assert(before == self.entries@);
                assert(self@ =~= self@.remove(key@));
                None
            },
        }
    }
}

} // verus!

//! The macaroon as it travels: one metadata entry on every request.

use vstd::prelude::*;
use crate::macaroon::{encode_macaroon, hex_encoding, lemma_hex_encoding_alphabet};
use crate::text::{chars_of, same_text};

verus! {

/// Whether a text can stand as the value of a metadata entry: it holds no
/// control character but the tabulator.
pub open spec fn is_header_value(text: Seq<char>) -> bool {
    forall|i: int|
        0 <= i < text.len() ==> {
            let c = #[trigger] text[i];
            (' ' <= c && c != '\u{7f}') || c == '\t'
        }
}

/// The hexadecimal form of any byte string can stand as the value of a
/// metadata entry.
pub proof fn lemma_hex_is_header_value(bytes: Seq<u8>)
    ensures
        is_header_value(hex_encoding(bytes)),
{
    lemma_hex_encoding_alphabet(bytes);
}

/// The metadata of a request: entries of a key and a value, one for each
/// key. Keys are told apart as they are written.
#[derive(Debug)]
pub struct Metadata {
    entries: Vec<(String, String)>,
}

spec fn has_key(entries: Seq<(String, String)>, key: Seq<char>, i: int) -> bool {
    0 <= i < entries.len() && entries[i].0@ == key
}

impl Metadata {
    #[verifier::type_invariant]
    spec fn distinct_keys(&self) -> bool {
        distinct(self.entries@)
    }

    /// No entry.
    pub fn new() -> (metadata: Self)
        ensures
            metadata@ == Map::<Seq<char>, Seq<char>>::empty(),
    {
        let metadata = Metadata { entries: Vec::new() };
        assert(metadata@ =~= Map::<Seq<char>, Seq<char>>::empty());
        metadata
    }

    fn position(&self, key: &str) -> (found: Option<usize>)
        ensures
            match found {
                Some(i) => has_key(self.entries@, key@, i as int),
                None => forall|i: int| !has_key(self.entries@, key@, i),
            },
    {
        let mut i: usize = 0;
        while i < self.entries.len()
            invariant
                i <= self.entries.len(),
                forall|j: int| 0 <= j < i ==> !has_key(self.entries@, key@, j),
            decreases self.entries.len() - i,
        {
            if same_text(self.entries[i].0.as_str(), key) {
                return Some(i);
            }
            i += 1;
        }
        None
    }

    /// The value that is entered under a key.
    pub fn get(&self, key: &str) -> (value: Option<&String>)
        ensures
            match value {
                Some(value) => self@.contains_key(key@) && self@[key@] == value@,
                None => !self@.contains_key(key@),
            },
    {
        proof {
            use_type_invariant(self);
        }
        match self.position(key) {
            Some(i) => {
                proof {
                    let chosen = choose|j: int| has_key(self.entries@, key@, j);
                    assert(chosen == i);
                }
                Some(&self.entries[i].1)
            },
            None => None,
        }
    }

    /// The number of entries.
    pub fn len(&self) -> (len: usize)
        ensures
            len == self@.len(),
            self@.dom().finite(),
    {
        proof {
            use_type_invariant(self);
            lemma_entries_count(self.entries@);
        }
        self.entries.len()
    }

    /// Enters a value under a key, in place of the value that was entered
    /// under that key, if any.
    pub fn insert(self, key: &str, value: String) -> (entered: Self)
        ensures
            entered@ == self@.insert(key@, value@),
    {
        proof {
            use_type_invariant(&self);
        }
        let found = self.position(key);
        let ghost before = self.entries@;
        let mut entries = self.entries;
        let entry = (String::from_str(key), value);
        match found {
            Some(i) => {
                entries.set(i, entry);
                proof {
                    lemma_view_after_update(before, entries@, i as int, key@, value@);
                }
            },
            None => {
                entries.push(entry);
                proof {
                    lemma_view_after_push(before, entries@, key@, value@);
                }
            },
        }
        Metadata { entries }
    }
}

spec fn entries_view(entries: Seq<(String, String)>) -> Map<Seq<char>, Seq<char>> {
    Map::new(
        |key: Seq<char>| exists|i: int| has_key(entries, key, i),
        |key: Seq<char>| entries[choose|i: int| has_key(entries, key, i)].1@,
    )
}

impl View for Metadata {
    type V = Map<Seq<char>, Seq<char>>;

    closed spec fn view(&self) -> Map<Seq<char>, Seq<char>> {
        entries_view(self.entries@)
    }
}

spec fn distinct(entries: Seq<(String, String)>) -> bool {
    forall|i: int, j: int| 0 <= i < j < entries.len() ==> entries[i].0@ != entries[j].0@
}

proof fn lemma_view_after_update(
    before: Seq<(String, String)>,
    after: Seq<(String, String)>,
    at: int,
    key: Seq<char>,
    value: Seq<char>,
)
    requires
        distinct(before),
        has_key(before, key, at),
        after.len() == before.len(),
        after[at].0@ == key,
        after[at].1@ == value,
        forall|j: int| 0 <= j < before.len() && j != at ==> after[j] == before[j],
    ensures
        distinct(after),
        entries_view(after) == entries_view(before).insert(key, value),
{
    assert forall|k: Seq<char>, j: int| has_key(after, k, j) <==> has_key(before, k, j) by {}
    let left = entries_view(after);
    let right = entries_view(before).insert(key, value);
    assert forall|k: Seq<char>| left.contains_key(k) <==> right.contains_key(k) by {
        if left.contains_key(k) {
            let j = choose|j: int| has_key(after, k, j);
            assert(has_key(before, k, j));
        }
        if right.contains_key(k) {
            if k == key {
                assert(has_key(after, k, at));
            } else {
                let j = choose|j: int| has_key(before, k, j);
                assert(has_key(after, k, j));
            }
        }
    }
    assert forall|k: Seq<char>| left.contains_key(k) implies left[k] == right[k] by {
        let j = choose|j: int| has_key(after, k, j);
        if k == key {
            assert(j == at);
        } else {
            let i = choose|i: int| has_key(before, k, i);
            assert(has_key(before, k, j));
            assert(i == j);
        }
    }
    assert(left =~= right);
}

proof fn lemma_view_after_push(
    before: Seq<(String, String)>,
    after: Seq<(String, String)>,
    key: Seq<char>,
    value: Seq<char>,
)
    requires
        distinct(before),
        forall|i: int| !has_key(before, key, i),
        after.len() == before.len() + 1,
        after[before.len() as int].0@ == key,
        after[before.len() as int].1@ == value,
        forall|j: int| 0 <= j < before.len() ==> after[j] == before[j],
    ensures
        distinct(after),
        entries_view(after) == entries_view(before).insert(key, value),
{
    let at = before.len() as int;
    assert forall|i: int, j: int| 0 <= i < j < after.len() implies after[i].0@ != after[j].0@ by {
        if j == at {
            assert(!has_key(before, key, i));
        }
    }
    let left = entries_view(after);
    let right = entries_view(before).insert(key, value);
    assert forall|k: Seq<char>| left.contains_key(k) <==> right.contains_key(k) by {
        if left.contains_key(k) {
            let j = choose|j: int| has_key(after, k, j);
            if j != at {
                assert(has_key(before, k, j));
            }
        }
        if right.contains_key(k) {
            if k == key {
                assert(has_key(after, k, at));
            } else {
                let j = choose|j: int| has_key(before, k, j);
                assert(has_key(after, k, j));
            }
        }
    }
    assert forall|k: Seq<char>| left.contains_key(k) implies left[k] == right[k] by {
        let j = choose|j: int| has_key(after, k, j);
        if k == key {
            if j != at {
                assert(has_key(before, key, j));
            }
        } else {
            let i = choose|i: int| has_key(before, k, i);
            assert(has_key(before, k, j));
            assert(has_key(after, k, i));
            assert(i == j);
        }
    }
    assert(left =~= right);
}

proof fn lemma_entries_count(entries: Seq<(String, String)>)
    requires
        distinct(entries),
    ensures
        entries_view(entries).dom().finite(),
        entries_view(entries).len() == entries.len(),
    decreases entries.len(),
{
    if entries.len() == 0 {
        assert(entries_view(entries) =~= Map::<Seq<char>, Seq<char>>::empty());
    } else {
        let before = entries.drop_last();
        let last = entries.last();
        lemma_entries_count(before);
        assert forall|i: int| !has_key(before, last.0@, i) by {
            if has_key(before, last.0@, i) {
                assert(entries[i].0@ != entries[entries.len() - 1].0@);
            }
        }
        lemma_view_after_push(before, entries, last.0@, last.1@);
        assert(!entries_view(before).contains_key(last.0@));
    }
}

/// The key under which the macaroon is entered.
pub open spec fn macaroon_key() -> Seq<char> {
    "macaroon"@
}

/// Supplies requests with macaroon.
///
/// It holds the macaroon in hexadecimal and enters it in the metadata of
/// each request. It is read only, so any number of calls may share it.
#[derive(Debug)]
pub struct MacaroonInterceptor {
    macaroon: String,
}

impl View for MacaroonInterceptor {
    type V = Seq<char>;

    closed spec fn view(&self) -> Seq<char> {
        self.macaroon@
    }
}

impl Clone for MacaroonInterceptor {
    fn clone(&self) -> (copy: Self)
        ensures
            copy@ == self@,
    {
        MacaroonInterceptor { macaroon: self.macaroon.clone() }
    }
}

impl MacaroonInterceptor {
    /// An interceptor for a macaroon that is already in hexadecimal.
    pub fn new(macaroon: String) -> (interceptor: Self)
        ensures
            interceptor@ == macaroon@,
    {
        MacaroonInterceptor { macaroon }
    }

    /// An interceptor for the raw bytes of a macaroon. What it holds can
    /// always be sent.
    pub fn from_bytes(macaroon: &[u8]) -> (interceptor: Self)
        ensures
            interceptor@ == hex_encoding(macaroon@),
            is_header_value(interceptor@),
    {
        proof {
            lemma_hex_is_header_value(macaroon@);
        }
        MacaroonInterceptor { macaroon: encode_macaroon(macaroon) }
    }

    /// The macaroon in hexadecimal.
    pub fn macaroon(&self) -> (macaroon: &str)
        ensures
            macaroon@ == self@,
    {
        self.macaroon.as_str()
    }

    /// Whether the macaroon can be sent as the value of a metadata entry.
    pub fn is_sendable(&self) -> (sendable: bool)
        ensures
            sendable == is_header_value(self@),
    {
        let chars = chars_of(self.macaroon.as_str());
        let mut i: usize = 0;
        while i < chars.len()
            invariant
                i <= chars.len(),
                chars@ == self@,
                forall|j: int|
                    0 <= j < i ==> {
                        let c = #[trigger] chars@[j];
                        (' ' <= c && c != '\u{7f}') || c == '\t'
                    },
            decreases chars.len() - i,
        {
            let c = chars[i];
            if !((' ' <= c && c != '\u{7f}') || c == '\t') {
                return false;
            }
            i += 1;
        }
        true
    }

    /// Enters the macaroon in the metadata of a request, under the key
    /// `macaroon` and in place of what was entered under that key. All
    /// other entries stay.
    pub fn call(&self, request: Metadata) -> (sent: Metadata)
        requires
            is_header_value(self@),
        ensures
            sent@ == request@.insert(macaroon_key(), self@),
    {
        request.insert("macaroon", self.macaroon.clone())
    }
}

} // verus!

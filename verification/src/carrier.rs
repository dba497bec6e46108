//! The string-keyed carrier that travels with every queued item.
//!
//! A propagation format reads and writes the carrier through three
//! capabilities: `set` (keys normalized to lowercase on write), `get`
//! (case-sensitive lookup) and `keys`. The carrier is viewed in contracts
//! as a map from key characters to value characters.

use vstd::prelude::*;

verus! {

/// What `str::to_lowercase` returns, as a function of the characters alone.
pub uninterp spec fn lower_of(s: Seq<char>) -> Seq<char>;

/// An ASCII character that is not an uppercase letter.
pub open spec fn ascii_non_upper(c: char) -> bool {
    (c as u32) < 128 && !(65 <= c as u32 && c as u32 <= 90)
}

/// A string of ASCII characters with no uppercase letter: lowercasing
/// leaves it unchanged.
pub open spec fn lower_ready(s: Seq<char>) -> bool {
    forall|i: int| 0 <= i < s.len() ==> ascii_non_upper(#[trigger] s[i])
}

/// Relies on str::to_lowercase: the result depends on the characters alone,
/// and a character without a lowercase mapping is kept as it is, so a string
/// of ASCII characters holding no uppercase letter comes back unchanged.
#[verifier::external_body]
fn lowercase(s: &str) -> (r: String)
    ensures
        r@ == lower_of(s@),
        lower_ready(s@) ==> r@ == s@,
{
    s.to_lowercase()
}

/// The mapping denoted by a key/value list; on a repeated key the earliest
/// entry wins, which is the entry that `get` finds first.
pub open spec fn map_of(entries: Seq<(String, String)>) -> Map<Seq<char>, Seq<char>>
    decreases entries.len(),
{
    if entries.len() == 0 {
        Map::<Seq<char>, Seq<char>>::empty()
    } else {
        map_of(entries.drop_first()).insert(entries.first().0@, entries.first().1@)
    }
}

/// The carrier of one queued item: the serialized trace context of the
/// sender, as a string-keyed mapping.
pub struct ChannelMetadata {
    entries: Vec<(String, String)>,
}

impl View for ChannelMetadata {
    type V = Map<Seq<char>, Seq<char>>;

    closed spec fn view(&self) -> Map<Seq<char>, Seq<char>> {
        map_of(self.entries@)
    }
}

proof fn lemma_map_of_contains_entry(entries: Seq<(String, String)>, i: int)
    requires
        0 <= i < entries.len(),
    ensures
        map_of(entries).contains_key(entries[i].0@),
    decreases entries.len(),
{
    if i > 0 {
        lemma_map_of_contains_entry(entries.drop_first(), i - 1);
    }
}

proof fn lemma_map_of_absent(entries: Seq<(String, String)>, k: Seq<char>)
    requires
        forall|j: int| 0 <= j < entries.len() ==> (#[trigger] entries[j].0)@ != k,
    ensures
        !map_of(entries).contains_key(k),
    decreases entries.len(),
{
    if entries.len() > 0 {
        lemma_map_of_absent(entries.drop_first(), k);
    }
}

proof fn lemma_map_of_first_match(entries: Seq<(String, String)>, i: int)
    requires
        0 <= i < entries.len(),
        forall|j: int| 0 <= j < i ==> (#[trigger] entries[j].0)@ != entries[i].0@,
    ensures
        map_of(entries).contains_key(entries[i].0@),
        map_of(entries)[entries[i].0@] == entries[i].1@,
    decreases entries.len(),
{
    if i > 0 {
        lemma_map_of_first_match(entries.drop_first(), i - 1);
    }
}

proof fn lemma_map_of_update(entries: Seq<(String, String)>, i: int, e: (String, String))
    requires
        0 <= i < entries.len(),
        entries[i].0@ == e.0@,
        forall|j: int| 0 <= j < i ==> (#[trigger] entries[j].0)@ != entries[i].0@,
    ensures
        map_of(entries.update(i, e)) == map_of(entries).insert(e.0@, e.1@),
    decreases entries.len(),
{
    let u = entries.update(i, e);
    if i == 0 {
        assert(u.first() == e);
        assert(u.drop_first() =~= entries.drop_first());
        assert(map_of(u) == map_of(entries.drop_first()).insert(e.0@, e.1@));
        assert(map_of(entries) == map_of(entries.drop_first()).insert(
            entries.first().0@,
            entries.first().1@,
        ));
        assert(map_of(u) =~= map_of(entries).insert(e.0@, e.1@));
    } else {
        assert(u.first() == entries.first());
        assert(u.drop_first() =~= entries.drop_first().update(i - 1, e));
        assert(entries.drop_first()[i - 1] == entries[i]);
        lemma_map_of_update(entries.drop_first(), i - 1, e);
        assert(map_of(u) == map_of(entries.drop_first().update(i - 1, e)).insert(
            entries.first().0@,
            entries.first().1@,
        ));
        assert(entries.first().0@ != e.0@);
        assert(map_of(u) =~= map_of(entries).insert(e.0@, e.1@));
    }
}

proof fn lemma_map_of_push(entries: Seq<(String, String)>, e: (String, String))
    requires
        forall|j: int| 0 <= j < entries.len() ==> (#[trigger] entries[j].0)@ != e.0@,
    ensures
        map_of(entries.push(e)) == map_of(entries).insert(e.0@, e.1@),
    decreases entries.len(),
{
    let p = entries.push(e);
    if entries.len() == 0 {
        assert(p.first() == e);
        assert(p.drop_first() =~= entries);
        assert(map_of(p) == map_of(entries).insert(e.0@, e.1@));
    } else {
        assert(p.first() == entries.first());
        assert(p.drop_first() =~= entries.drop_first().push(e));
        assert(forall|j: int|
            0 <= j < entries.drop_first().len() ==> (#[trigger] entries.drop_first()[j].0)@
                != e.0@) by {
            assert(forall|j: int|
                0 <= j < entries.drop_first().len() ==> entries.drop_first()[j] == entries[j + 1]);
        }
        lemma_map_of_push(entries.drop_first(), e);
        assert(map_of(p) == map_of(entries.drop_first()).insert(e.0@, e.1@).insert(
            entries.first().0@,
            entries.first().1@,
        ));
        assert(entries.first().0@ != e.0@);
        assert(map_of(p) =~= map_of(entries).insert(e.0@, e.1@));
    }
}

impl ChannelMetadata {
    /// The carrier never lists a key twice: `set` overwrites in place, or
    /// appends a key it has proved absent.
    #[verifier::type_invariant]
    closed spec fn wf(self) -> bool {
        forall|a: int, b: int|
            0 <= a < b < self.entries@.len() ==> (#[trigger] self.entries@[a].0)@ != (
            #[trigger] self.entries@[b].0)@
    }

    /// An empty carrier.
    pub fn new() -> (r: ChannelMetadata)
        ensures
            r@ == Map::<Seq<char>, Seq<char>>::empty(),
    {
        ChannelMetadata { entries: Vec::new() }
    }

    /// Insert or overwrite a key, normalized to lowercase: propagation
    /// formats treat header names as case-insensitive.
    #[verifier::loop_isolation(false)]
    pub fn set(&mut self, key: &str, value: String)
        ensures
            final(self)@ == old(self)@.insert(lower_of(key@), value@),
            lower_ready(key@) ==> final(self)@ == old(self)@.insert(key@, value@),
    {
        proof {
            use_type_invariant(&*self);
        }
        let lk = lowercase(key);
        let mut entries: Vec<(String, String)> = Vec::new();
        core::mem::swap(&mut entries, &mut self.entries);
        let ghost orig = entries@;
        let n = entries.len();
        let mut i: usize = 0;
        while i < n
            invariant
                0 <= i <= n,
                n == entries@.len(),
                entries@ == orig,
                forall|j: int| 0 <= j < i ==> (#[trigger] entries@[j].0)@ != lk@,
            decreases n - i,
        {
            if entries[i].0 == lk {
                proof {
                    lemma_map_of_update(entries@, i as int, (lk, value));
                }
                entries.set(i, (lk, value));
                proof {
                    assert forall|a: int, b: int|
                        0 <= a < b < entries@.len() implies (#[trigger] entries@[a].0)@ != (
                    #[trigger] entries@[b].0)@ by {
                        assert(entries@[a].0@ == orig[a].0@);
                        assert(entries@[b].0@ == orig[b].0@);
                    }
                }
                self.entries = entries;
                return ;
            }
            i = i + 1;
        }
        proof {
            lemma_map_of_push(entries@, (lk, value));
        }
        entries.push((lk, value));
        self.entries = entries;
    }

    /// Case-sensitive lookup: mirrors the normalization already applied
    /// when the key was written.
    #[verifier::loop_isolation(false)]
    pub fn get(&self, key: &str) -> (r: Option<&str>)
        ensures
            match r {
                Some(v) => self@.contains_key(key@) && v@ == self@[key@],
                None => !self@.contains_key(key@),
            },
    {
        let k = key.to_owned();
        let n = self.entries.len();
        let mut i: usize = 0;
        while i < n
            invariant
                0 <= i <= n,
                n == self.entries@.len(),
                forall|j: int| 0 <= j < i ==> (#[trigger] self.entries@[j].0)@ != k@,
            decreases n - i,
        {
            if self.entries[i].0 == k {
                proof {
                    lemma_map_of_first_match(self.entries@, i as int);
                }
                return Some(self.entries[i].1.as_str());
            }
            i = i + 1;
        }
        proof {
            lemma_map_of_absent(self.entries@, k@);
        }
        None
    }

    /// All keys currently present, each exactly once: every listed key is
    /// in the mapping, every key of the mapping is listed, and no key is
    /// listed twice.
    #[verifier::loop_isolation(false)]
    pub fn keys(&self) -> (r: Vec<String>)
        ensures
            forall|i: int| 0 <= i < r@.len() ==> self@.contains_key((#[trigger] r@[i])@),
            forall|k: Seq<char>| self@.contains_key(k) ==> exists|i: int|
                0 <= i < r@.len() && (#[trigger] r@[i])@ == k,
            forall|i: int, j: int|
                0 <= i < j < r@.len() ==> (#[trigger] r@[i])@ != (#[trigger] r@[j])@,
    {
        proof {
            use_type_invariant(self);
        }
        let n = self.entries.len();
        let mut r: Vec<String> = Vec::new();
        let mut i: usize = 0;
        while i < n
            invariant
                0 <= i <= n,
                n == self.entries@.len(),
                r@.len() == i,
                forall|j: int| 0 <= j < i ==> (#[trigger] r@[j])@ == self.entries@[j].0@,
            decreases n - i,
        {
            r.push(self.entries[i].0.clone());
            i = i + 1;
        }
        proof {
            assert forall|j: int| 0 <= j < r@.len() implies self@.contains_key(
                (#[trigger] r@[j])@,
            ) by {
                lemma_map_of_contains_entry(self.entries@, j);
            }
            assert forall|k: Seq<char>| self@.contains_key(k) implies exists|j: int|
                0 <= j < r@.len() && (#[trigger] r@[j])@ == k by {
                if forall|j: int| 0 <= j < self.entries@.len() ==> (#[trigger] self.entries@[j].0)@
                    != k {
                    lemma_map_of_absent(self.entries@, k);
                }
                let j = choose|j: int|
                    0 <= j < self.entries@.len() && (#[trigger] self.entries@[j].0)@ == k;
                assert(r@[j]@ == k);
            }
        }
        r
    }
}

} // verus!

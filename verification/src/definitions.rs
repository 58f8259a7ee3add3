//! Named runtime definitions for a language runner: at most one value per
//! name, kept in the byte order of the names (the order of `String` keys in an
//! ordered map), so that arguments are emitted in key order.

use vstd::prelude::*;
use vstd::string::*;

verus! {

/// Lexicographic order on byte strings, as `Ord` orders `String`s.
pub open spec fn bytes_lt(a: Seq<u8>, b: Seq<u8>) -> bool
    decreases a.len(),
{
    if a.len() == 0 {
        b.len() > 0
    } else if b.len() == 0 {
        false
    } else if a[0] < b[0] {
        true
    } else if a[0] > b[0] {
        false
    } else {
        bytes_lt(a.drop_first(), b.drop_first())
    }
}

proof fn lemma_bytes_lt_irreflexive(a: Seq<u8>)
    ensures
        !bytes_lt(a, a),
    decreases a.len(),
{
    if a.len() > 0 {
        lemma_bytes_lt_irreflexive(a.drop_first());
    }
}

proof fn lemma_bytes_lt_total(a: Seq<u8>, b: Seq<u8>)
    ensures
        a == b || bytes_lt(a, b) || bytes_lt(b, a),
    decreases a.len(),
{
    if a.len() > 0 && b.len() > 0 && a[0] == b[0] {
        lemma_bytes_lt_total(a.drop_first(), b.drop_first());
        if a.drop_first() == b.drop_first() {
            assert(a =~= seq![a[0]] + a.drop_first());
            assert(b =~= seq![b[0]] + b.drop_first());
        }
    } else if a.len() == 0 && b.len() == 0 {
        assert(a =~= b);
    }
}

proof fn lemma_bytes_lt_asymmetric(a: Seq<u8>, b: Seq<u8>)
    ensures
        bytes_lt(a, b) ==> !bytes_lt(b, a),
    decreases a.len(),
{
    if a.len() > 0 && b.len() > 0 && a[0] == b[0] {
        lemma_bytes_lt_asymmetric(a.drop_first(), b.drop_first());
    }
}

proof fn lemma_bytes_lt_transitive(a: Seq<u8>, b: Seq<u8>, c: Seq<u8>)
    requires
        bytes_lt(a, b),
        bytes_lt(b, c),
    ensures
        bytes_lt(a, c),
    decreases a.len(),
{
    if a.len() > 0 && b.len() > 0 && c.len() > 0 && a[0] == b[0] && b[0] == c[0] {
        lemma_bytes_lt_transitive(a.drop_first(), b.drop_first(), c.drop_first());
    }
}

/// The result of comparing two names.
#[derive(Clone, Copy, Debug, PartialEq, Eq, Structural)]
pub enum NameOrder {
    Less,
    Same,
    Greater,
}

/// Compares two byte strings lexicographically.
pub fn compare_bytes(a: &[u8], b: &[u8]) -> (r: NameOrder)
    ensures
        r == NameOrder::Less <==> bytes_lt(a@, b@),
        r == NameOrder::Same <==> a@ == b@,
        r == NameOrder::Greater <==> bytes_lt(b@, a@),
{
    let n = a.len();
    let m = b.len();
    let mut i: usize = 0;
    assert(a@.skip(0) =~= a@);
    assert(b@.skip(0) =~= b@);
    while i < n && i < m && a[i] == b[i]
        invariant
            i <= n,
            i <= m,
            n == a@.len(),
            m == b@.len(),
            a@.take(i as int) == b@.take(i as int),
            bytes_lt(a@, b@) == bytes_lt(a@.skip(i as int), b@.skip(i as int)),
            bytes_lt(b@, a@) == bytes_lt(b@.skip(i as int), a@.skip(i as int)),
        decreases n - i,
    {
        assert(a@.skip(i as int).drop_first() =~= a@.skip(i + 1));
        assert(b@.skip(i as int).drop_first() =~= b@.skip(i + 1));
        assert(a@.take(i + 1) =~= a@.take(i as int).push(a@[i as int]));
        assert(b@.take(i + 1) =~= b@.take(i as int).push(b@[i as int]));
        i = i + 1;
    }
    proof {
        lemma_bytes_lt_irreflexive(a@);
        lemma_bytes_lt_total(a@, b@);
        lemma_bytes_lt_asymmetric(a@, b@);
    }
    if i < n && i < m {
        if a[i] < b[i] {
            NameOrder::Less
        } else {
            NameOrder::Greater
        }
    } else if i < m {
        NameOrder::Less
    } else if i < n {
        NameOrder::Greater
    } else {
        assert(a@ =~= a@.take(i as int));
        assert(b@ =~= b@.take(i as int));
        NameOrder::Same
    }
}

/// The UTF-8 bytes of a name.
pub open spec fn name_bytes(s: String) -> Seq<u8> {
    vstd::utf8::encode_utf8(s@)
}

/// Runtime definitions: one value per name, ordered by name.
#[derive(Debug)]
pub struct Definitions {
    entries: Vec<(String, String)>,
}

/// The names of `entries` strictly increase.
pub open spec fn strictly_increasing(entries: Seq<(String, String)>) -> bool {
    forall|i: int, j: int|
        0 <= i < j < entries.len() ==> bytes_lt(
            name_bytes(#[trigger] entries[i].0),
            name_bytes(#[trigger] entries[j].0),
        )
}

/// No two entries share a name.
pub open spec fn distinct_names(entries: Seq<(String, String)>) -> bool {
    forall|i: int, j: int|
        0 <= i < entries.len() && 0 <= j < entries.len() && i != j ==> (#[trigger] entries[i]).0@
            != (#[trigger] entries[j]).0@
}

/// The names of name/value texts strictly increase in the byte order of
/// their UTF-8 encodings, as the keys of an ordered map of strings do.
pub open spec fn names_increase(entries: Seq<(Seq<char>, Seq<char>)>) -> bool {
    forall|i: int, j: int|
        0 <= i < j < entries.len() ==> bytes_lt(
            vstd::utf8::encode_utf8(#[trigger] entries[i].0),
            vstd::utf8::encode_utf8(#[trigger] entries[j].0),
        )
}

/// The name and value texts of each entry.
pub open spec fn entry_views(entries: Seq<(String, String)>) -> Seq<(Seq<char>, Seq<char>)> {
    entries.map_values(|e: (String, String)| (e.0@, e.1@))
}

/// The map from names to values that `entries` represents.
pub open spec fn entries_map(entries: Seq<(String, String)>) -> Map<Seq<char>, Seq<char>> {
    Map::new(
        |k: Seq<char>| exists|i: int| 0 <= i < entries.len() && (#[trigger] entries[i]).0@ == k,
        |k: Seq<char>|
            entries[choose|i: int| 0 <= i < entries.len() && (#[trigger] entries[i]).0@ == k].1@,
    )
}

impl View for Definitions {
    type V = Map<Seq<char>, Seq<char>>;

    closed spec fn view(&self) -> Map<Seq<char>, Seq<char>> {
        entries_map(self.entries@)
    }
}

/// Equal UTF-8 bytes mean equal names.
proof fn lemma_name_bytes_injective(a: Seq<char>, b: Seq<char>)
    requires
        vstd::utf8::encode_utf8(a) == vstd::utf8::encode_utf8(b),
    ensures
        a == b,
{
    vstd::utf8::encode_utf8_decode_utf8(a);
    vstd::utf8::encode_utf8_decode_utf8(b);
}

/// Strictly increasing names are distinct.
proof fn lemma_increasing_distinct(entries: Seq<(String, String)>)
    requires
        strictly_increasing(entries),
    ensures
        distinct_names(entries),
{
    assert forall|i: int, j: int|
        0 <= i < entries.len() && 0 <= j < entries.len() && i != j implies (
        #[trigger] entries[i]).0@ != (#[trigger] entries[j]).0@ by {
        if i < j {
            lemma_bytes_lt_irreflexive(name_bytes(entries[i].0));
        } else {
            lemma_bytes_lt_irreflexive(name_bytes(entries[j].0));
        }
    }
}

/// With distinct names, each entry is the map's value for its name.
proof fn lemma_entry_in_map(entries: Seq<(String, String)>, i: int)
    requires
        distinct_names(entries),
        0 <= i < entries.len(),
    ensures
        entries_map(entries).contains_key(entries[i].0@),
        entries_map(entries)[entries[i].0@] == entries[i].1@,
{
    let k = entries[i].0@;
    assert(entries[i].0@ == k);
    let j = choose|j: int| 0 <= j < entries.len() && (#[trigger] entries[j]).0@ == k;
    assert(j == i);
}

impl Definitions {
    /// Names strictly increase in byte order; every value of the type has this.
    #[verifier::type_invariant]
    pub closed spec fn ordered(self) -> bool {
        strictly_increasing(self.entries@)
    }

    /// The entries as name/value texts, in increasing name order.
    pub closed spec fn ordered_entries(self) -> Seq<(Seq<char>, Seq<char>)> {
        entry_views(self.entries@)
    }

    /// No definitions.
    pub fn new() -> (r: Self)
        ensures
            r@ == Map::<Seq<char>, Seq<char>>::empty(),
            r.ordered_entries().len() == 0,
    {
        let r = Definitions { entries: Vec::new() };
        assert(r@ =~= Map::<Seq<char>, Seq<char>>::empty());
        r
    }

    /// The number of definitions. The entries, read in index order, are the
    /// map's definitions with their names in strictly increasing byte order.
    pub fn len(&self) -> (r: usize)
        ensures
            r == self.ordered_entries().len(),
            r == self@.len(),
            names_increase(self.ordered_entries()),
            forall|i: int|
                0 <= i < self.ordered_entries().len() ==> #[trigger] self@.contains_key(
                    self.ordered_entries()[i].0,
                ) && self@[self.ordered_entries()[i].0] == self.ordered_entries()[i].1,
    {
        proof {
            use_type_invariant(self);
            self.lemma_entries_represent_map();
        }
        self.entries.len()
    }

    /// Whether there are no definitions.
    pub fn is_empty(&self) -> (r: bool)
        ensures
            r == (self@.len() == 0),
    {
        self.len() == 0
    }

    /// The name and value at `index` in name order.
    pub fn entry(&self, index: usize) -> (r: (&str, &str))
        requires
            index < self.ordered_entries().len(),
        ensures
            r.0@ == self.ordered_entries()[index as int].0,
            r.1@ == self.ordered_entries()[index as int].1,
    {
        let e = &self.entries[index];
        (e.0.as_str(), e.1.as_str())
    }

    /// The ordered entries represent the map view: one entry per name, names in
    /// increasing byte order, and nothing else in the map.
    pub proof fn lemma_entries_represent_map(self)
        requires
            self.ordered(),
        ensures
            forall|i: int|
                0 <= i < self.ordered_entries().len() ==> #[trigger] self@.contains_key(
                    self.ordered_entries()[i].0,
                ) && self@[self.ordered_entries()[i].0] == self.ordered_entries()[i].1,
            forall|k: Seq<char>|
                #[trigger] self@.contains_key(k) ==> exists|i: int|
                    0 <= i < self.ordered_entries().len() && self.ordered_entries()[i].0 == k,
            forall|i: int, j: int|
                0 <= i < j < self.ordered_entries().len() ==> bytes_lt(
                    vstd::utf8::encode_utf8(#[trigger] self.ordered_entries()[i].0),
                    vstd::utf8::encode_utf8(#[trigger] self.ordered_entries()[j].0),
                ),
            self@.dom().finite(),
            self@.len() == self.ordered_entries().len(),
    {
        let s = self.entries@;
        lemma_increasing_distinct(s);
        assert forall|i: int| 0 <= i < self.ordered_entries().len() implies #[trigger] self@.contains_key(
            self.ordered_entries()[i].0,
        ) && self@[self.ordered_entries()[i].0] == self.ordered_entries()[i].1 by {
            lemma_entry_in_map(s, i);
        }
        assert forall|k: Seq<char>| #[trigger] self@.contains_key(k) implies exists|i: int|
            0 <= i < self.ordered_entries().len() && self.ordered_entries()[i].0 == k by {
            let i = choose|i: int| 0 <= i < s.len() && (#[trigger] s[i]).0@ == k;
            assert(self.ordered_entries()[i].0 == k);
        }
        assert forall|i: int, j: int| 0 <= i < j < self.ordered_entries().len() implies bytes_lt(
            vstd::utf8::encode_utf8(#[trigger] self.ordered_entries()[i].0),
            vstd::utf8::encode_utf8(#[trigger] self.ordered_entries()[j].0),
        ) by {
            assert(name_bytes(s[i].0) == vstd::utf8::encode_utf8(self.ordered_entries()[i].0));
            assert(name_bytes(s[j].0) == vstd::utf8::encode_utf8(self.ordered_entries()[j].0));
        }
        lemma_map_len(s);
    }

    /// Looks up the value of a name.
    pub fn get(&self, key: &str) -> (r: Option<&str>)
        ensures
            match r {
                Some(v) => self@.contains_key(key@) && self@[key@] == v@,
                None => !self@.contains_key(key@),
            },
    {
        proof {
            use_type_invariant(self);
            lemma_increasing_distinct(self.entries@);
        }
        let kb = key.as_bytes();
        let n = self.entries.len();
        let mut i: usize = 0;
        while i < n
            invariant
                i <= n,
                n == self.entries@.len(),
                kb@ == vstd::utf8::encode_utf8(key@),
                distinct_names(self.entries@),
                forall|j: int| 0 <= j < i ==> (#[trigger] self.entries@[j]).0@ != key@,
            decreases n - i,
        {
            let e = &self.entries[i];
            let ord = compare_bytes(e.0.as_str().as_bytes(), kb);
            if ord == NameOrder::Same {
                proof {
                    lemma_name_bytes_injective(e.0@, key@);
                    lemma_entry_in_map(self.entries@, i as int);
                }
                return Some(e.1.as_str());
            }
            i = i + 1;
        }
        None
    }

    /// Inserts a definition, replacing any earlier value for the same name.
    pub fn insert(&mut self, key: &str, val: &str)
        ensures
            final(self)@ == old(self)@.insert(key@, val@),
    {
        proof {
            use_type_invariant(&*self);
        }
        let mut entries: Vec<(String, String)> = Vec::new();
        std::mem::swap(&mut entries, &mut self.entries);
        let ghost old_entries = entries@;
        let kb = key.as_bytes();
        let n = entries.len();
        let mut i: usize = 0;
        let mut same = false;
        while i < n
            invariant_except_break
                !same,
            invariant
                i <= n,
                n == entries@.len(),
                entries@ == old_entries,
                kb@ == vstd::utf8::encode_utf8(key@),
                forall|j: int|
                    0 <= j < i ==> bytes_lt(name_bytes(#[trigger] entries@[j].0), kb@),
            ensures
                i <= n,
                entries@ == old_entries,
                forall|j: int|
                    0 <= j < i ==> bytes_lt(name_bytes(#[trigger] entries@[j].0), kb@),
                i < n ==> !bytes_lt(name_bytes(entries@[i as int].0), kb@),
                same ==> i < n && name_bytes(entries@[i as int].0) == kb@,
                !same && i < n ==> bytes_lt(kb@, name_bytes(entries@[i as int].0)),
            decreases n - i,
        {
            let ord = compare_bytes(entries[i].0.as_str().as_bytes(), kb);
            match ord {
                NameOrder::Less => {
                    i = i + 1;
                },
                NameOrder::Same => {
                    same = true;
                    break ;
                },
                NameOrder::Greater => {
                    proof {
                        lemma_bytes_lt_asymmetric(kb@, name_bytes(entries@[i as int].0));
                    }
                    break ;
                },
            }
        }
        let ghost old_map = entries_map(old_entries);
        let entry = (String::from_str(key), String::from_str(val));
        if same {
            proof {
                lemma_name_bytes_injective(entries@[i as int].0@, key@);
            }
            entries.set(i, entry);
            proof {
                lemma_replace_keeps_order(old_entries, i as int, entry);
                lemma_replace_map(old_entries, i as int, entry);
            }
        } else {
            entries.insert(i, entry);
            proof {
                lemma_insert_keeps_order(old_entries, i as int, entry);
                lemma_insert_map(old_entries, i as int, entry);
            }
        }
        self.entries = entries;
    }
}

impl Clone for Definitions {
    /// A copy with the same definitions in the same order.
    fn clone(&self) -> (r: Self)
        ensures
            r@ == self@,
            r.ordered_entries() == self.ordered_entries(),
    {
        proof {
            use_type_invariant(self);
        }
        let n = self.entries.len();
        let mut entries: Vec<(String, String)> = Vec::new();
        let mut i: usize = 0;
        while i < n
            invariant
                i <= n,
                n == self.entries@.len(),
                entries@.len() == i,
                strictly_increasing(self.entries@),
                forall|j: int|
                    0 <= j < i ==> (#[trigger] entries@[j]).0@ == self.entries@[j].0@
                        && entries@[j].1@ == self.entries@[j].1@,
            decreases n - i,
        {
            let e = &self.entries[i];
            entries.push((String::from_str(e.0.as_str()), String::from_str(e.1.as_str())));
            i = i + 1;
        }
        assert(strictly_increasing(entries@)) by {
            assert forall|a: int, b: int| 0 <= a < b < entries@.len() implies bytes_lt(
                name_bytes(#[trigger] entries@[a].0),
                name_bytes(#[trigger] entries@[b].0),
            ) by {
                assert(name_bytes(entries@[a].0) == name_bytes(self.entries@[a].0));
                assert(name_bytes(entries@[b].0) == name_bytes(self.entries@[b].0));
            }
        }
        let r = Definitions { entries };
        assert(entry_views(r.entries@) =~= entry_views(self.entries@));
        assert(entries_map(r.entries@) =~= entries_map(self.entries@)) by {
            lemma_increasing_distinct(r.entries@);
            lemma_increasing_distinct(self.entries@);
            assert forall|k: Seq<char>| #[trigger] entries_map(r.entries@).contains_key(k)
                <==> entries_map(self.entries@).contains_key(k) by {
                if entries_map(r.entries@).contains_key(k) {
                    let j = choose|j: int| 0 <= j < r.entries@.len() && (#[trigger] r.entries@[j]).0@ == k;
                    assert(self.entries@[j].0@ == k);
                }
                if entries_map(self.entries@).contains_key(k) {
                    let j = choose|j: int| 0 <= j < self.entries@.len() && (#[trigger] self.entries@[j]).0@ == k;
                    assert(r.entries@[j].0@ == k);
                }
            }
            assert forall|k: Seq<char>| #[trigger] entries_map(r.entries@).contains_key(k)
                implies entries_map(r.entries@)[k] == entries_map(self.entries@)[k] by {
                let j = choose|j: int| 0 <= j < r.entries@.len() && (#[trigger] r.entries@[j]).0@ == k;
                lemma_entry_in_map(r.entries@, j);
                lemma_entry_in_map(self.entries@, j);
            }
        }
        r
    }
}

/// A map built from distinct names has as many keys as entries.
proof fn lemma_map_len(entries: Seq<(String, String)>)
    requires
        distinct_names(entries),
    ensures
        entries_map(entries).dom().finite(),
        entries_map(entries).len() == entries.len(),
    decreases entries.len(),
{
    let m = entries_map(entries);
    if entries.len() == 0 {
        assert(m.dom() =~= Set::<Seq<char>>::empty());
    } else {
        let last = entries.len() - 1;
        let init = entries.drop_last();
        assert(distinct_names(init)) by {
            assert forall|i: int, j: int|
                0 <= i < init.len() && 0 <= j < init.len() && i != j implies (
                #[trigger] init[i]).0@ != (#[trigger] init[j]).0@ by {
                assert(init[i] == entries[i]);
                assert(init[j] == entries[j]);
            }
        }
        lemma_map_len(init);
        let k = entries[last].0@;
        assert(m.dom() =~= entries_map(init).dom().insert(k)) by {
            assert forall|x: Seq<char>| m.dom().contains(x) implies entries_map(
                init,
            ).dom().insert(k).contains(x) by {
                let i = choose|i: int| 0 <= i < entries.len() && (#[trigger] entries[i]).0@ == x;
                if i < last {
                    assert(init[i] == entries[i]);
                }
            }
            assert forall|x: Seq<char>| entries_map(init).dom().insert(k).contains(x) implies m.dom().contains(
                x,
            ) by {
                if x == k {
                    assert(entries[last].0@ == x);
                } else {
                    let i = choose|i: int| 0 <= i < init.len() && (#[trigger] init[i]).0@ == x;
                    assert(entries[i] == init[i]);
                }
            }
        }
        assert(!entries_map(init).dom().contains(k)) by {
            if entries_map(init).dom().contains(k) {
                let i = choose|i: int| 0 <= i < init.len() && (#[trigger] init[i]).0@ == k;
                assert(entries[i] == init[i]);
            }
        }
    }
}

/// Replacing the entry whose name equals the new name keeps the order.
proof fn lemma_replace_keeps_order(entries: Seq<(String, String)>, i: int, e: (String, String))
    requires
        strictly_increasing(entries),
        0 <= i < entries.len(),
        e.0@ == entries[i].0@,
    ensures
        strictly_increasing(entries.update(i, e)),
{
    let s = entries.update(i, e);
    assert forall|a: int, b: int| 0 <= a < b < s.len() implies bytes_lt(
        name_bytes(#[trigger] s[a].0),
        name_bytes(#[trigger] s[b].0),
    ) by {
        assert(name_bytes(s[a].0) == name_bytes(entries[a].0));
        assert(name_bytes(s[b].0) == name_bytes(entries[b].0));
    }
}

/// Replacing the entry for a name updates that name's value in the map.
proof fn lemma_replace_map(entries: Seq<(String, String)>, i: int, e: (String, String))
    requires
        strictly_increasing(entries),
        0 <= i < entries.len(),
        e.0@ == entries[i].0@,
    ensures
        entries_map(entries.update(i, e)) == entries_map(entries).insert(e.0@, e.1@),
{
    let s = entries.update(i, e);
    lemma_increasing_distinct(entries);
    lemma_replace_keeps_order(entries, i, e);
    lemma_increasing_distinct(s);
    let m = entries_map(entries).insert(e.0@, e.1@);
    assert forall|k: Seq<char>| #[trigger] entries_map(s).contains_key(k) <==> m.contains_key(k) by {
        if entries_map(s).contains_key(k) {
            let j = choose|j: int| 0 <= j < s.len() && (#[trigger] s[j]).0@ == k;
            if j != i {
                assert(entries[j] == s[j]);
            }
        }
        if m.contains_key(k) && k != e.0@ {
            let j = choose|j: int| 0 <= j < entries.len() && (#[trigger] entries[j]).0@ == k;
            assert(entries[j] == s[j]);
        }
        if k == e.0@ {
            assert(s[i].0@ == k);
        }
    }
    assert forall|k: Seq<char>| #[trigger] entries_map(s).contains_key(k) implies entries_map(s)[k]
        == m[k] by {
        let j = choose|j: int| 0 <= j < s.len() && (#[trigger] s[j]).0@ == k;
        lemma_entry_in_map(s, j);
        assert(s[i] == e);
        if j != i {
            assert(s[j].0@ != s[i].0@);
            assert(entries[j] == s[j]);
            lemma_entry_in_map(entries, j);
        }
    }
    assert(entries_map(s) =~= m);
}

/// Inserting a name between smaller and larger names keeps the order.
proof fn lemma_insert_keeps_order(entries: Seq<(String, String)>, i: int, e: (String, String))
    requires
        strictly_increasing(entries),
        0 <= i <= entries.len(),
        forall|j: int| 0 <= j < i ==> bytes_lt(name_bytes(#[trigger] entries[j].0), name_bytes(e.0)),
        i < entries.len() ==> bytes_lt(name_bytes(e.0), name_bytes(entries[i].0)),
    ensures
        strictly_increasing(entries.insert(i, e)),
{
    let s = entries.insert(i, e);
    assert forall|a: int, b: int| 0 <= a < b < s.len() implies bytes_lt(
        name_bytes(#[trigger] s[a].0),
        name_bytes(#[trigger] s[b].0),
    ) by {
        if b < i {
            assert(s[a] == entries[a] && s[b] == entries[b]);
        } else if b == i {
            assert(s[a] == entries[a]);
        } else if a < i {
            assert(s[a] == entries[a] && s[b] == entries[b - 1]);
            if i < b - 1 {
                lemma_bytes_lt_transitive(name_bytes(e.0), name_bytes(entries[i].0), name_bytes(entries[b - 1].0));
            }
            lemma_bytes_lt_transitive(name_bytes(entries[a].0), name_bytes(e.0), name_bytes(entries[b - 1].0));
        } else if a == i {
            assert(s[b] == entries[b - 1]);
            if i < b - 1 {
                lemma_bytes_lt_transitive(name_bytes(e.0), name_bytes(entries[i].0), name_bytes(entries[b - 1].0));
            }
        } else {
            assert(s[a] == entries[a - 1] && s[b] == entries[b - 1]);
        }
    }
}

/// Inserting an entry for a new name adds that name to the map.
proof fn lemma_insert_map(entries: Seq<(String, String)>, i: int, e: (String, String))
    requires
        strictly_increasing(entries),
        0 <= i <= entries.len(),
        forall|j: int| 0 <= j < i ==> bytes_lt(name_bytes(#[trigger] entries[j].0), name_bytes(e.0)),
        i < entries.len() ==> bytes_lt(name_bytes(e.0), name_bytes(entries[i].0)),
    ensures
        entries_map(entries.insert(i, e)) == entries_map(entries).insert(e.0@, e.1@),
{
    let s = entries.insert(i, e);
    lemma_increasing_distinct(entries);
    lemma_insert_keeps_order(entries, i, e);
    lemma_increasing_distinct(s);
    let m = entries_map(entries).insert(e.0@, e.1@);
    assert forall|k: Seq<char>| #[trigger] entries_map(s).contains_key(k) <==> m.contains_key(k) by {
        if entries_map(s).contains_key(k) {
            let j = choose|j: int| 0 <= j < s.len() && (#[trigger] s[j]).0@ == k;
            if j < i {
                assert(entries[j] == s[j]);
            } else if j > i {
                assert(entries[j - 1] == s[j]);
            }
        }
        if m.contains_key(k) && k != e.0@ {
            let j = choose|j: int| 0 <= j < entries.len() && (#[trigger] entries[j]).0@ == k;
            if j < i {
                assert(entries[j] == s[j]);
            } else {
                assert(entries[j] == s[j + 1]);
            }
        }
        if k == e.0@ {
            assert(s[i].0@ == k);
        }
    }
    assert forall|k: Seq<char>| #[trigger] entries_map(s).contains_key(k) implies entries_map(s)[k]
        == m[k] by {
        let j = choose|j: int| 0 <= j < s.len() && (#[trigger] s[j]).0@ == k;
        lemma_entry_in_map(s, j);
        assert(s[i] == e);
        if j != i {
            assert(s[j].0@ != s[i].0@);
        }
        if j < i {
            assert(entries[j] == s[j]);
            lemma_entry_in_map(entries, j);
        } else if j > i {
            assert(entries[j - 1] == s[j]);
            lemma_entry_in_map(entries, j - 1);
        }
    }
    assert(entries_map(s) =~= m);
}

/// Defining a name gives it exactly the new value and leaves every other name
/// as it was: a map holds at most one value per name, and the last definition
/// wins.
pub proof fn lemma_define_replaces(
    before: Map<Seq<char>, Seq<char>>,
    name: Seq<char>,
    value: Seq<char>,
    other: Seq<char>,
)
    requires
        other != name,
    ensures
        before.insert(name, value).contains_key(name),
        before.insert(name, value)[name] == value,
        before.insert(name, value).contains_key(other) == before.contains_key(other),
        before.contains_key(other) ==> before.insert(name, value)[other] == before[other],
        before.insert(name, value).insert(name, value) == before.insert(name, value),
{
    assert(before.insert(name, value).insert(name, value) =~= before.insert(name, value));
}

} // verus!

//! A map from header names to header values, both kept as raw bytes.

use vstd::prelude::*;

verus! {

/// Whether entry `i` of `entries` is the one named `name`.
pub open spec fn named_at(entries: Seq<(Vec<u8>, Vec<u8>)>, i: int, name: Seq<u8>) -> bool {
    0 <= i < entries.len() && entries[i].0@ == name
}

/// No two entries carry the same name.
pub open spec fn distinct_names(entries: Seq<(Vec<u8>, Vec<u8>)>) -> bool {
    forall|i: int, j: int|
        0 <= i < entries.len() && 0 <= j < entries.len() && #[trigger] entries[i].0@
            == #[trigger] entries[j].0@ ==> i == j
}

/// The map that a list of entries with distinct names stands for.
pub open spec fn entries_map(entries: Seq<(Vec<u8>, Vec<u8>)>) -> Map<Seq<u8>, Seq<u8>> {
    Map::new(
        |name: Seq<u8>| exists|i: int| named_at(entries, i, name),
        |name: Seq<u8>| entries[choose|i: int| named_at(entries, i, name)].1@,
    )
}

/// The line that carries one header to the engine: the name, a colon, a
/// space, the value.
pub open spec fn header_line(name: Seq<u8>, value: Seq<u8>) -> Seq<u8> {
    name + seq![0x3au8, 0x20u8] + value
}

/// Whether two byte strings hold the same bytes.
pub fn same_bytes(a: &[u8], b: &[u8]) -> (r: bool)
    ensures
        r == (a@ == b@),
{
    if a.len() != b.len() {
        return false;
    }
    let mut i: usize = 0;
    while i < a.len()
        invariant
            a@.len() == b@.len(),
            0 <= i <= a@.len(),
            forall|k: int| 0 <= k < i ==> a@[k] == b@[k],
        decreases a@.len() - i,
    {
        if a[i] != b[i] {
            return false;
        }
        i += 1;
    }
    assert(a@ =~= b@);
    true
}

/// A copy of a byte string.
pub fn copy_bytes(src: &[u8]) -> (r: Vec<u8>)
    ensures
        r@ == src@,
{
    let mut out: Vec<u8> = Vec::new();
    let mut i: usize = 0;
    while i < src.len()
        invariant
            0 <= i <= src@.len(),
            out@ == src@.subrange(0, i as int),
        decreases src@.len() - i,
    {
        out.push(src[i]);
        i += 1;
        assert(out@ =~= src@.subrange(0, i as int));
    }
    assert(out@ =~= src@);
    out
}

/// Replacing entry `i` by one of the same name sets that name's value and
/// leaves the others.
proof fn lemma_replace_entry(
    entries: Seq<(Vec<u8>, Vec<u8>)>,
    i: int,
    name: Vec<u8>,
    value: Vec<u8>,
)
    requires
        distinct_names(entries),
        named_at(entries, i, name@),
    ensures
        distinct_names(entries.update(i, (name, value))),
        entries_map(entries.update(i, (name, value))) == entries_map(entries).insert(
            name@,
            value@,
        ),
{
    let after = entries.update(i, (name, value));
    assert forall|k: int, key: Seq<u8>| named_at(after, k, key) == named_at(entries, k, key) by {
        if 0 <= k < entries.len() {
            assert(after[k].0@ == entries[k].0@);
        }
    }
    assert(distinct_names(after)) by {
        assert forall|a: int, b: int|
            0 <= a < after.len() && 0 <= b < after.len() && #[trigger] after[a].0@
                == #[trigger] after[b].0@ implies a == b by {
            assert(entries[a].0@ == after[a].0@);
            assert(entries[b].0@ == after[b].0@);
        }
    }
    let lhs = entries_map(after);
    let rhs = entries_map(entries).insert(name@, value@);
    assert forall|key: Seq<u8>| lhs.contains_key(key) == rhs.contains_key(key) by {
        if key == name@ {
            assert(named_at(after, i, key));
        } else if lhs.contains_key(key) {
            let k = choose|k: int| named_at(after, k, key);
            assert(named_at(entries, k, key));
        } else if rhs.contains_key(key) {
            let k = choose|k: int| named_at(entries, k, key);
            assert(named_at(after, k, key));
        }
    }
    assert forall|key: Seq<u8>| lhs.contains_key(key) implies lhs[key] == rhs[key] by {
        let k = choose|k: int| named_at(after, k, key);
        assert(named_at(after, k, key));
        if key == name@ {
            assert(named_at(after, i, key));
            assert(k == i);
        } else {
            let j = choose|j: int| named_at(entries, j, key);
            assert(named_at(entries, k, key));
            assert(named_at(entries, j, key));
            assert(j == k);
        }
    }
    assert(lhs =~= rhs);
}

/// Appending an entry under a name that no entry carries sets that name's
/// value and leaves the others.
proof fn lemma_append_entry(entries: Seq<(Vec<u8>, Vec<u8>)>, name: Vec<u8>, value: Vec<u8>)
    requires
        distinct_names(entries),
        forall|i: int| !named_at(entries, i, name@),
    ensures
        distinct_names(entries.push((name, value))),
        entries_map(entries.push((name, value))) == entries_map(entries).insert(name@, value@),
{
    let after = entries.push((name, value));
    let n = entries.len() as int;
    assert(distinct_names(after)) by {
        assert forall|a: int, b: int|
            0 <= a < after.len() && 0 <= b < after.len() && #[trigger] after[a].0@
                == #[trigger] after[b].0@ implies a == b by {
            if a < n && b < n {
                assert(entries[a].0@ == entries[b].0@);
            } else if a < n {
                assert(named_at(entries, a, name@));
            } else if b < n {
                assert(named_at(entries, b, name@));
            }
        }
    }
    let lhs = entries_map(after);
    let rhs = entries_map(entries).insert(name@, value@);
    assert forall|key: Seq<u8>| lhs.contains_key(key) == rhs.contains_key(key) by {
        if key == name@ {
            assert(named_at(after, n, key));
        } else if lhs.contains_key(key) {
            let k = choose|k: int| named_at(after, k, key);
            assert(named_at(entries, k, key));
        } else if rhs.contains_key(key) {
            let k = choose|k: int| named_at(entries, k, key);
            assert(named_at(after, k, key));
        }
    }
    assert forall|key: Seq<u8>| lhs.contains_key(key) implies lhs[key] == rhs[key] by {
        let k = choose|k: int| named_at(after, k, key);
        assert(named_at(after, k, key));
        if key == name@ {
            assert(named_at(after, n, key));
            assert(k == n);
        } else {
            let j = choose|j: int| named_at(entries, j, key);
            assert(named_at(entries, k, key));
            assert(named_at(entries, j, key));
            assert(j == k);
        }
    }
    assert(lhs =~= rhs);
}

/// A list of entries with distinct names stands for a map with as many
/// fields as the list has entries.
proof fn lemma_names_count(entries: Seq<(Vec<u8>, Vec<u8>)>)
    requires
        distinct_names(entries),
    ensures
        entries_map(entries).dom().finite(),
        entries_map(entries).dom().len() == entries.len(),
    decreases entries.len(),
{
    if entries.len() == 0 {
        assert(entries_map(entries).dom() =~= Set::<Seq<u8>>::empty());
    } else {
        let init = entries.drop_last();
        let last = entries.last();
        assert(distinct_names(init)) by {
            assert forall|a: int, b: int|
                0 <= a < init.len() && 0 <= b < init.len() && #[trigger] init[a].0@
                    == #[trigger] init[b].0@ implies a == b by {
                assert(entries[a].0@ == entries[b].0@);
            }
        }
        lemma_names_count(init);
        assert forall|i: int| !named_at(init, i, last.0@) by {
            if named_at(init, i, last.0@) {
                assert(entries[i].0@ == entries[entries.len() - 1].0@);
            }
        }
        lemma_append_entry(init, last.0, last.1);
        assert(init.push((last.0, last.1)) =~= entries);
        assert(entries_map(entries).dom() =~= entries_map(init).dom().insert(last.0@));
        assert(!entries_map(init).dom().contains(last.0@));
    }
}


/// Whether `line` is the [`header_line`] of some field of `fields`.
pub open spec fn is_line_of(fields: Map<Seq<u8>, Seq<u8>>, line: Seq<u8>) -> bool {
    exists|name: Seq<u8>| #[trigger]
        fields.contains_key(name) && line == header_line(name, fields[name])
}

/// The bytes of [`header_line`] for one field.
pub fn join_header(name: &[u8], value: &[u8]) -> (r: Vec<u8>)
    ensures
        r@ == header_line(name@, value@),
{
    let mut out = copy_bytes(name);
    out.push(0x3au8);
    out.push(0x20u8);
    let mut i: usize = 0;
    while i < value.len()
        invariant
            0 <= i <= value@.len(),
            out@ == name@ + seq![0x3au8, 0x20u8] + value@.subrange(0, i as int),
        decreases value@.len() - i,
    {
        out.push(value[i]);
        i += 1;
        assert(out@ =~= name@ + seq![0x3au8, 0x20u8] + value@.subrange(0, i as int));
    }
    assert(value@.subrange(0, i as int) =~= value@);
    out
}

/// Header fields by name. Names are unique and compared byte for byte; the
/// order in which fields were set is not part of the value.
pub struct HeaderMap {
    entries: Vec<(Vec<u8>, Vec<u8>)>,
}

impl View for HeaderMap {
    type V = Map<Seq<u8>, Seq<u8>>;

    closed spec fn view(&self) -> Map<Seq<u8>, Seq<u8>> {
        entries_map(self.entries@)
    }
}

impl HeaderMap {
    /// The invariant of the type: no name is held twice. Every map that this
    /// module hands out meets it, and every operation keeps it.
    pub closed spec fn wf(&self) -> bool {
        distinct_names(self.entries@)
    }

    /// Whether the invariant holds, for callers that Verus does not see.
    pub fn is_well_formed(&self) -> (r: bool)
        ensures
            r == self.wf(),
    {
        let mut i: usize = 0;
        while i < self.entries.len()
            invariant
                0 <= i <= self.entries@.len(),
                forall|a: int, b: int|
                    0 <= a < i && 0 <= b < self.entries@.len() && #[trigger] self.entries@[a].0@
                        == #[trigger] self.entries@[b].0@ ==> a == b,
            decreases self.entries@.len() - i,
        {
            let mut j: usize = 0;
            while j < self.entries.len()
                invariant
                    0 <= i < self.entries@.len(),
                    0 <= j <= self.entries@.len(),
                    forall|b: int|
                        0 <= b < j && self.entries@[i as int].0@ == #[trigger] self.entries@[b].0@
                            ==> i == b,
                decreases self.entries@.len() - j,
            {
                if j != i && same_bytes(
                    self.entries[i].0.as_slice(),
                    self.entries[j].0.as_slice(),
                ) {
                    return false;
                }
                j += 1;
            }
            i += 1;
        }
        true
    }

    /// A map without fields.
    pub fn new() -> (r: HeaderMap)
        ensures
            r.wf(),
            r@ == Map::<Seq<u8>, Seq<u8>>::empty(),
    {
        let r = HeaderMap { entries: Vec::new() };
        assert(r@ =~= Map::<Seq<u8>, Seq<u8>>::empty());
        r
    }

    /// Where the field named `name` stands among the entries, if it is set.
    fn position(&self, name: &[u8]) -> (r: Option<usize>)
        ensures
            match r {
                Some(i) => named_at(self.entries@, i as int, name@),
                None => forall|i: int| !named_at(self.entries@, i, name@),
            },
    {
        let mut i: usize = 0;
        while i < self.entries.len()
            invariant
                0 <= i <= self.entries@.len(),
                forall|k: int| 0 <= k < i ==> !named_at(self.entries@, k, name@),
            decreases self.entries@.len() - i,
        {
            if same_bytes(self.entries[i].0.as_slice(), name) {
                return Some(i);
            }
            i += 1;
        }
        None
    }

    /// Sets the field named `name` to `value`, in place of any value it had.
    pub fn insert(&mut self, name: Vec<u8>, value: Vec<u8>)
        requires
            old(self).wf(),
        ensures
            final(self).wf(),
            final(self)@ == old(self)@.insert(name@, value@),
    {
        let ghost before = self.entries@;
        let ghost key = name@;
        let ghost val = value@;
        match self.position(name.as_slice()) {
            Some(i) => {
                proof {
                    lemma_replace_entry(before, i as int, name, value);
                }
                self.entries.set(i, (name, value));
            },
            None => {
                proof {
                    lemma_append_entry(before, name, value);
                }
                self.entries.push((name, value));
            },
        }
    }

    /// Removes every field.
    pub fn clear(&mut self)
        ensures
            final(self).wf(),
            final(self)@ == Map::<Seq<u8>, Seq<u8>>::empty(),
    {
        self.entries = Vec::new();
        assert(self@ =~= Map::<Seq<u8>, Seq<u8>>::empty());
    }

    /// The number of fields.
    pub fn len(&self) -> (r: usize)
        requires
            self.wf(),
        ensures
            self@.dom().finite(),
            r == self@.dom().len(),
    {
        proof {
            lemma_names_count(self.entries@);
        }
        self.entries.len()
    }

    /// Whether no field is set.
    pub fn is_empty(&self) -> (r: bool)
        ensures
            r == (self@ == Map::<Seq<u8>, Seq<u8>>::empty()),
    {
        proof {
            if self.entries@.len() == 0 {
                assert(self@ =~= Map::<Seq<u8>, Seq<u8>>::empty());
            } else {
                assert(named_at(self.entries@, 0, self.entries@[0].0@));
                assert(self@.contains_key(self.entries@[0].0@));
            }
        }
        self.entries.len() == 0
    }

    /// The lines of the fields, in the order in which [`HeaderMap::lines`]
    /// gives them.
    pub closed spec fn line_seq(&self) -> Seq<Seq<u8>> {
        Seq::new(
            self.entries@.len(),
            |i: int| header_line(self.entries@[i].0@, self.entries@[i].1@),
        )
    }

    /// One line per field, each the field's [`header_line`]: every field of
    /// the map has its line, and there is no other line.
    pub fn lines(&self) -> (r: Vec<Vec<u8>>)
        requires
            self.wf(),
        ensures
            r.deep_view() == self.line_seq(),
            self@.dom().finite(),
            r@.len() == self@.dom().len(),
            forall|name: Seq<u8>| #[trigger]
                self@.contains_key(name) ==> exists|i: int|
                    0 <= i < r@.len() && #[trigger] r@[i]@ == header_line(name, self@[name]),
            forall|i: int| 0 <= i < r@.len() ==> is_line_of(self@, #[trigger] r@[i]@),
    {
        let mut out: Vec<Vec<u8>> = Vec::new();
        let mut i: usize = 0;
        while i < self.entries.len()
            invariant
                self.wf(),
                0 <= i <= self.entries@.len(),
                out@.len() == i,
                forall|k: int|
                    0 <= k < i ==> #[trigger] out@[k]@ == header_line(
                        self.entries@[k].0@,
                        self.entries@[k].1@,
                    ),
            decreases self.entries@.len() - i,
        {
            let line = join_header(self.entries[i].0.as_slice(), self.entries[i].1.as_slice());
            out.push(line);
            i += 1;
        }
        proof {
            assert(out.deep_view() =~= self.line_seq()) by {
                assert(out.deep_view().len() == self.line_seq().len());
                assert forall|k: int| 0 <= k < out@.len() implies out.deep_view()[k]
                    == self.line_seq()[k] by {
                    assert(out.deep_view()[k] == out@[k]@);
                }
            }
            lemma_names_count(self.entries@);
            assert forall|name: Seq<u8>| #[trigger] self@.contains_key(name) implies exists|
                i: int,
            |
                0 <= i < out@.len() && #[trigger] out@[i]@ == header_line(name, self@[name]) by {
                let k = choose|k: int| named_at(self.entries@, k, name);
                assert(named_at(self.entries@, k, name));
                assert(out@[k]@ == header_line(name, self@[name]));
            }
            assert forall|i: int| 0 <= i < out@.len() implies is_line_of(
                self@,
                #[trigger] out@[i]@,
            ) by {
                let name = self.entries@[i].0@;
                assert(named_at(self.entries@, i, name));
                let k = choose|k: int| named_at(self.entries@, k, name);
                assert(named_at(self.entries@, k, name));
                assert(k == i);
                assert(self@.contains_key(name) && out@[i]@ == header_line(name, self@[name]));
            }
        }
        out
    }

    /// Whether a field named `name` is set.
    pub fn contains_key(&self, name: &[u8]) -> (r: bool)
        ensures
            r == self@.contains_key(name@),
    {
        self.position(name).is_some()
    }

    /// The value of the field named `name`, if it is set.
    pub fn get(&self, name: &[u8]) -> (r: Option<&Vec<u8>>)
        requires
            self.wf(),
        ensures
            match r {
                Some(value) => self@.contains_key(name@) && value@ == self@[name@],
                None => !self@.contains_key(name@),
            },
    {
        match self.position(name) {
            Some(i) => Some(&self.entries[i].1),
            None => None,
        }
    }
}

} // verus!

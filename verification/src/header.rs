//! Header collections.
//!
//! A header collection is an ordered multimap: names compare
//! ASCII-case-insensitively, insertion order is preserved, and several
//! entries may share a name. Its mathematical content is the sequence of
//! `(name, value)` pairs in insertion order.
use vstd::prelude::*;

verus! {

/// ASCII lowering of one character; characters outside `A`..`Z` are kept.
pub open spec fn lower_char(c: char) -> char {
    if 'A' <= c && c <= 'Z' {
        (((c as u32) + 32) as u8) as char
    } else {
        c
    }
}

/// ASCII lowering of a character sequence.
pub open spec fn lower(s: Seq<char>) -> Seq<char> {
    s.map_values(|c: char| lower_char(c))
}

/// Whether two header names are the same, compared ASCII-case-insensitively.
pub open spec fn key_eq(a: Seq<char>, b: Seq<char>) -> bool {
    lower(a) == lower(b)
}

/// Whether the collection holds an entry under the given name.
pub open spec fn has_key(h: Seq<(Seq<char>, Seq<char>)>, k: Seq<char>) -> bool {
    exists|i: int| 0 <= i < h.len() && key_eq(#[trigger] h[i].0, k)
}

/// The value of the first entry under the given name, in insertion order.
pub open spec fn first_value(h: Seq<(Seq<char>, Seq<char>)>, k: Seq<char>) -> Option<Seq<char>>
    decreases h.len(),
{
    if h.len() == 0 {
        None
    } else if key_eq(h[0].0, k) {
        Some(h[0].1)
    } else {
        first_value(h.drop_first(), k)
    }
}

/// The collection after every entry under the given name is replaced by a
/// single entry `(k, v)` at the end.
pub open spec fn set_value(h: Seq<(Seq<char>, Seq<char>)>, k: Seq<char>, v: Seq<char>) -> Seq<
    (Seq<char>, Seq<char>),
> {
    h.filter(|p: (Seq<char>, Seq<char>)| !key_eq(p.0, k)).push((k, v))
}

fn lower_char_exec(c: char) -> (r: char)
    ensures
        r == lower_char(c),
{
    if 'A' <= c && c <= 'Z' {
        (((c as u32) + 32) as u8) as char
    } else {
        c
    }
}

/// Whether two header names are the same, compared ASCII-case-insensitively.
pub fn eq_ignore_case(a: &str, b: &str) -> (r: bool)
    ensures
        r == key_eq(a@, b@),
{
    let a_len = a.unicode_len();
    let b_len = b.unicode_len();
    if a_len != b_len {
        proof {
            assert(lower(a@).len() != lower(b@).len());
        }
        return false;
    }
    let mut i: usize = 0;
    while i < a_len
        invariant
            a_len == a@.len(),
            b_len == b@.len(),
            a_len == b_len,
            i <= a_len,
            forall|j: int| 0 <= j < i ==> lower(a@)[j] == lower(b@)[j],
        decreases a_len - i,
    {
        let ca = lower_char_exec(a.get_char(i));
        let cb = lower_char_exec(b.get_char(i));
        if ca != cb {
            proof {
                assert(lower(a@)[i as int] != lower(b@)[i as int]);
            }
            return false;
        }
        i += 1;
    }
    proof {
        assert(lower(a@) =~= lower(b@));
    }
    true
}

/// The views of a sequence of owned `(name, value)` pairs.
pub open spec fn pairs_view(s: Seq<(String, String)>) -> Seq<(Seq<char>, Seq<char>)> {
    s.map_values(|p: (String, String)| (p.0@, p.1@))
}

/// An ordered multimap of headers: names compare ASCII-case-insensitively,
/// insertion order is preserved, duplicates under one name are kept.
#[derive(Debug)]
pub struct Headers {
    items: Vec<(String, String)>,
}

impl View for Headers {
    type V = Seq<(Seq<char>, Seq<char>)>;

    closed spec fn view(&self) -> Seq<(Seq<char>, Seq<char>)> {
        self.items@.map_values(|p: (String, String)| (p.0@, p.1@))
    }
}

impl Headers {
    /// An empty collection.
    pub fn new() -> (r: Headers)
        ensures
            r@ == Seq::<(Seq<char>, Seq<char>)>::empty(),
    {
        let r = Headers { items: Vec::new() };
        proof {
            assert(r@ =~= Seq::<(Seq<char>, Seq<char>)>::empty());
        }
        r
    }

    /// How many entries the collection holds.
    pub fn len(&self) -> (r: usize)
        ensures
            r == self@.len(),
    {
        self.items.len()
    }

    /// The entry at the given position, in insertion order.
    pub fn entry_at(&self, i: usize) -> (r: (String, String))
        requires
            i < self@.len(),
        ensures
            (r.0@, r.1@) == self@[i as int],
    {
        let p = &self.items[i];
        (p.0.clone(), p.1.clone())
    }

    /// Add an entry at the end; entries already present under the same
    /// name are kept.
    pub fn append(&mut self, name: &str, value: &str)
        ensures
            final(self)@ == old(self)@.push((name@, value@)),
    {
        let ghost before = self@;
        self.items.push((name.to_owned(), value.to_owned()));
        proof {
            assert(self@ =~= before.push((name@, value@)));
        }
    }

    /// Merge another collection's entries after this one's, keeping both.
    pub fn extend(&mut self, other: &Headers)
        ensures
            final(self)@ == old(self)@ + other@,
    {
        let mut i: usize = 0;
        while i < other.items.len()
            invariant
                i <= other@.len(),
                self@ == old(self)@ + other@.take(i as int),
            decreases other@.len() - i,
        {
            let ghost before = self@;
            let name = other.items[i].0.clone();
            let value = other.items[i].1.clone();
            self.items.push((name, value));
            proof {
                assert(self@ =~= before.push(other@[i as int]));
                assert(before.push(other@[i as int]) =~= old(self)@ + other@.take(i + 1));
            }
            i += 1;
        }
        proof {
            assert(other@.take(other@.len() as int) =~= other@);
        }
    }

    /// Whether the collection holds an entry under the given name.
    pub fn contains_key(&self, name: &str) -> (r: bool)
        ensures
            r == has_key(self@, name@),
    {
        let mut i: usize = 0;
        while i < self.items.len()
            invariant
                i <= self@.len(),
                forall|j: int| 0 <= j < i ==> !key_eq(#[trigger] self@[j].0, name@),
            decreases self@.len() - i,
        {
            if eq_ignore_case(self.items[i].0.as_str(), name) {
                proof {
                    assert(key_eq(self@[i as int].0, name@));
                }
                return true;
            }
            i += 1;
        }
        false
    }

    /// The value of the first entry under the given name.
    pub fn get_first(&self, name: &str) -> (r: Option<String>)
        ensures
            match r {
                Some(v) => first_value(self@, name@) == Some(v@),
                None => first_value(self@, name@) is None,
            },
    {
        let mut i: usize = 0;
        while i < self.items.len()
            invariant
                i <= self@.len(),
                forall|j: int| 0 <= j < i ==> !key_eq(#[trigger] self@[j].0, name@),
            decreases self@.len() - i,
        {
            if eq_ignore_case(self.items[i].0.as_str(), name) {
                proof {
                    lemma_first_value_at(self@, name@, i as int);
                }
                return Some(self.items[i].1.clone());
            }
            i += 1;
        }
        proof {
            lemma_first_value_absent(self@, name@);
        }
        None
    }

    /// Replace every entry under the given name by a single `(name, value)`
    /// entry at the end.
    pub fn set(&mut self, name: &str, value: &str)
        ensures
            final(self)@ == set_value(old(self)@, name@, value@),
    {
        broadcast use Seq::lemma_filter_push;

        let ghost pred = |p: (Seq<char>, Seq<char>)| !key_eq(p.0, name@);
        let mut kept: Vec<(String, String)> = Vec::new();
        proof {
            reveal(Seq::filter);
            assert(kept@.map_values(|p: (String, String)| (p.0@, p.1@)) =~= Seq::<
                (Seq<char>, Seq<char>),
            >::empty());
            assert(old(self)@.take(0).filter(pred) =~= Seq::<(Seq<char>, Seq<char>)>::empty());
        }
        let mut i: usize = 0;
        while i < self.items.len()
            invariant
                i <= self@.len(),
                self@ == old(self)@,
                pred == (|p: (Seq<char>, Seq<char>)| !key_eq(p.0, name@)),
                kept@.map_values(|p: (String, String)| (p.0@, p.1@)) == old(self)@.take(
                    i as int,
                ).filter(pred),
            decreases self@.len() - i,
        {
            let ghost kept_before = kept@.map_values(|p: (String, String)| (p.0@, p.1@));
            let matched = eq_ignore_case(self.items[i].0.as_str(), name);
            proof {
                assert(old(self)@[i as int] == (self.items@[i as int].0@, self.items@[i as int].1@));
                assert(pred(old(self)@[i as int]) == !matched);
            }
            if !matched {
                let entry_name = self.items[i].0.clone();
                let entry_value = self.items[i].1.clone();
                kept.push((entry_name, entry_value));
                proof {
                    assert(kept@.map_values(|p: (String, String)| (p.0@, p.1@)) =~= kept_before.push(
                        old(self)@[i as int],
                    ));
                }
            }
            proof {
                Seq::lemma_filter_push(old(self)@.take(i as int), old(self)@[i as int], pred);
                assert(old(self)@.take(i + 1) =~= old(self)@.take(i as int).push(
                    old(self)@[i as int],
                ));
            }
            i += 1;
        }
        proof {
            assert(old(self)@.take(old(self)@.len() as int) =~= old(self)@);
        }
        let ghost kept_view = kept@.map_values(|p: (String, String)| (p.0@, p.1@));
        kept.push((name.to_owned(), value.to_owned()));
        self.items = kept;
        proof {
            assert(self@ =~= kept_view.push((name@, value@)));
        }
    }
}

impl Clone for Headers {
    fn clone(&self) -> (r: Self)
        ensures
            r@ == self@,
    {
        let mut items: Vec<(String, String)> = Vec::new();
        let mut i: usize = 0;
        while i < self.items.len()
            invariant
                i <= self@.len(),
                items@.map_values(|p: (String, String)| (p.0@, p.1@)) == self@.take(i as int),
            decreases self@.len() - i,
        {
            let ghost before = items@.map_values(|p: (String, String)| (p.0@, p.1@));
            let name = self.items[i].0.clone();
            let value = self.items[i].1.clone();
            items.push((name, value));
            proof {
                assert(items@.map_values(|p: (String, String)| (p.0@, p.1@)) =~= before.push(
                    self@[i as int],
                ));
                assert(before.push(self@[i as int]) =~= self@.take(i + 1));
            }
            i += 1;
        }
        proof {
            assert(self@.take(self@.len() as int) =~= self@);
        }
        Headers { items }
    }
}

impl PartialEq for Headers {
    fn eq(&self, other: &Self) -> (r: bool) {
        if self.items.len() != other.items.len() {
            return false;
        }
        let mut i: usize = 0;
        while i < self.items.len()
            invariant
                self@.len() == other@.len(),
                i <= self@.len(),
                forall|j: int| 0 <= j < i ==> self@[j] == other@[j],
            decreases self@.len() - i,
        {
            if !(self.items[i].0 == other.items[i].0) || !(self.items[i].1 == other.items[i].1) {
                proof {
                    assert(self@[i as int] != other@[i as int]);
                }
                return false;
            }
            i += 1;
        }
        proof {
            assert(self@ =~= other@);
        }
        true
    }
}

impl vstd::std_specs::cmp::PartialEqSpecImpl for Headers {
    open spec fn obeys_eq_spec() -> bool {
        true
    }

    open spec fn eq_spec(&self, other: &Self) -> bool {
        self@ == other@
    }
}

/// If the first `i` entries miss the name and entry `i` hits it, the first
/// value under the name is entry `i`'s.
proof fn lemma_first_value_at(h: Seq<(Seq<char>, Seq<char>)>, k: Seq<char>, i: int)
    requires
        0 <= i < h.len(),
        forall|j: int| 0 <= j < i ==> !key_eq(#[trigger] h[j].0, k),
        key_eq(h[i].0, k),
    ensures
        first_value(h, k) == Some(h[i].1),
    decreases i,
{
    if i == 0 {
    } else {
        assert(forall|j: int| 0 <= j < i - 1 ==> h.drop_first()[j] == h[j + 1]);
        lemma_first_value_at(h.drop_first(), k, i - 1);
    }
}

/// If no entry hits the name, there is no first value under it.
proof fn lemma_first_value_absent(h: Seq<(Seq<char>, Seq<char>)>, k: Seq<char>)
    requires
        forall|j: int| 0 <= j < h.len() ==> !key_eq(#[trigger] h[j].0, k),
    ensures
        first_value(h, k) is None,
    decreases h.len(),
{
    if h.len() == 0 {
    } else {
        assert(forall|j: int| 0 <= j < h.len() - 1 ==> h.drop_first()[j] == h[j + 1]);
        lemma_first_value_absent(h.drop_first(), k);
    }
}

} // verus!

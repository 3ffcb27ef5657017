//! Generic references to any type of game "object".
//!
//! A [`GenericRef`] is a durable identity token for one logical entity of a
//! given kind; a [`GenericQuery`] is a lookup predicate over refs; a
//! [`GenericDataset`] owns the `(ref, state)` pairs of one entity kind and is
//! the only place entities of that kind are looked up or matched against
//! another dataset of the same kind.

use vstd::prelude::*;
use vstd::string::StringExecFns;
use core::marker::PhantomData;

verus! {

/// A zero-sized kind tag that can sit inside enum variants.
#[derive(PartialEq, Debug)]
pub struct CustomPhantomData<T> {
    pub _phantom: PhantomData<T>,
}

impl<T> Clone for CustomPhantomData<T> {
    fn clone(&self) -> (r: Self)
        ensures
            r == *self,
    {
        Self { _phantom: self._phantom }
    }
}

impl<T> Copy for CustomPhantomData<T> {

}

impl<T> CustomPhantomData<T> {
    /// The one value of this type.
    pub open spec fn spec_new() -> Self {
        CustomPhantomData { _phantom: PhantomData }
    }

    pub fn new() -> (r: Self)
        ensures
            r == Self::spec_new(),
    {
        Self { _phantom: PhantomData }
    }
}

impl<T> Default for CustomPhantomData<T> {
    fn default() -> (r: Self)
        ensures
            r == Self::spec_new(),
    {
        Self::new()
    }
}

/// Generic reference to things in the game.
///
/// `id` is the durable identity; `unique_name_opt` is an optional,
/// human-facing label.  The phantom kind tag only prevents a ref minted for
/// one entity kind from indexing a dataset of another kind; it carries no
/// data and is skipped by any serialized form.
#[derive(Eq, Debug, Hash)]
pub struct GenericRef<T> {
    pub id: u64,
    pub unique_name_opt: Option<String>,
    pub _phantom: PhantomData<T>,
}

/// A lookup predicate over refs: by numeric id or by unique name.  A query
/// matches a ref by exactly one criterion, never through the other one.
#[derive(Debug)]
pub enum GenericQuery<T> {
    Id(u64, CustomPhantomData<T>),
    UniqueName(String, CustomPhantomData<T>),
}

impl<T> GenericRef<T> {
    /// Whether this ref is what `query` is looking for: an `Id` query matches
    /// iff the ids agree, a `UniqueName` query iff this ref carries that name
    /// (a ref with no name matches no `UniqueName` query).
    pub open spec fn spec_matches(self, query: GenericQuery<T>) -> bool {
        match query {
            GenericQuery::Id(id, _) => self.id == id,
            GenericQuery::UniqueName(name, _) => match self.unique_name_opt {
                Some(self_name) => self_name@ == name@,
                None => false,
            },
        }
    }

    /// The canonical query for re-finding exactly this entity later,
    /// independent of any later change of its name.
    pub open spec fn spec_to_query(self) -> GenericQuery<T> {
        GenericQuery::Id(self.id, CustomPhantomData::spec_new())
    }

    pub fn id(id: u64) -> (r: Self)
        ensures
            r.id == id,
            r.unique_name_opt is None,
    {
        Self { id, unique_name_opt: None, _phantom: PhantomData }
    }

    pub fn to_query(&self) -> (r: GenericQuery<T>)
        ensures
            r == self.spec_to_query(),
    {
        GenericQuery::id(self.id)
    }

    pub fn query_matches(&self, query: &GenericQuery<T>) -> (r: bool)
        ensures
            r == self.spec_matches(*query),
    {
        match query {
            GenericQuery::Id(id, _) => self.id == *id,
            GenericQuery::UniqueName(other_name, _) => match &self.unique_name_opt {
                Some(self_name) => *other_name == *self_name,
                None => false,
            },
        }
    }

    /// WARNING: This method can do what this whole type is meant to avoid:
    /// using references in the wrong context. Use with caution.
    pub fn into_another_type<T2>(&self) -> (r: GenericRef<T2>)
        ensures
            r.id == self.id,
            match (r.unique_name_opt, self.unique_name_opt) {
                (Some(rn), Some(sn)) => rn@ == sn@,
                (None, None) => true,
                _ => false,
            },
    {
        GenericRef::<T2> {
            id: self.id,
            unique_name_opt: clone_name(&self.unique_name_opt),
            _phantom: PhantomData,
        }
    }

    pub fn to_string(&self) -> (r: String)
        ensures
            match self.unique_name_opt {
                Some(name) => r@ == spec_dec_u64(self.id) + " ("@ + name@ + ")"@,
                None => r@ == spec_dec_u64(self.id),
            },
    {
        match &self.unique_name_opt {
            Some(name) => {
                let mut s = u64_to_string(self.id);
                s.append(" (");
                s.append(name.as_str());
                s.append(")");
                s
            },
            None => u64_to_string(self.id),
        }
    }
}

impl<T> Clone for GenericRef<T> {
    fn clone(&self) -> (r: Self)
        ensures
            r == *self,
    {
        Self {
            id: self.id,
            unique_name_opt: clone_name(&self.unique_name_opt),
            _phantom: self._phantom,
        }
    }
}

/// Clones an optional name, keeping the value exactly.
fn clone_name(name: &Option<String>) -> (r: Option<String>)
    ensures
        r == *name,
{
    match name {
        Some(n) => Some(n.clone()),
        None => None,
    }
}

impl<T> PartialEq for GenericRef<T> {
    fn eq(&self, other: &Self) -> (r: bool) {
        self.id == other.id && match (&self.unique_name_opt, &other.unique_name_opt) {
            (Some(a), Some(b)) => *a == *b,
            (None, None) => true,
            _ => false,
        }
    }
}

impl<T> vstd::std_specs::cmp::PartialEqSpecImpl for GenericRef<T> {
    open spec fn obeys_eq_spec() -> bool {
        true
    }

    open spec fn eq_spec(&self, other: &Self) -> bool {
        &&& self.id == other.id
        &&& match (self.unique_name_opt, other.unique_name_opt) {
            (Some(a), Some(b)) => a@ == b@,
            (None, None) => true,
            _ => false,
        }
    }
}

impl<T> GenericQuery<T> {
    pub fn id(id: u64) -> (r: Self)
        ensures
            r == GenericQuery::Id(id, CustomPhantomData::<T>::spec_new()),
    {
        Self::Id(id, CustomPhantomData::new())
    }

    pub fn unique_name(unique_name: String) -> (r: Self)
        ensures
            r == GenericQuery::UniqueName(unique_name, CustomPhantomData::<T>::spec_new()),
    {
        Self::UniqueName(unique_name, CustomPhantomData::new())
    }
}

impl<T> PartialEq for GenericQuery<T> {
    fn eq(&self, other: &Self) -> (r: bool) {
        match self {
            Self::Id(self_id, _) => {
                if let Self::Id(other_id, _) = other {
                    *self_id == *other_id
                } else {
                    false
                }
            },
            Self::UniqueName(self_name, _) => {
                if let Self::UniqueName(other_name, _) = other {
                    *self_name == *other_name
                } else {
                    false
                }
            },
        }
    }
}

impl<T> vstd::std_specs::cmp::PartialEqSpecImpl for GenericQuery<T> {
    open spec fn obeys_eq_spec() -> bool {
        true
    }

    open spec fn eq_spec(&self, other: &Self) -> bool {
        match (*self, *other) {
            (GenericQuery::Id(a, _), GenericQuery::Id(b, _)) => a == b,
            (GenericQuery::UniqueName(a, _), GenericQuery::UniqueName(b, _)) => a@ == b@,
            _ => false,
        }
    }
}

impl<T> Default for GenericQuery<T> {
    fn default() -> (r: Self)
        ensures
            r == GenericQuery::Id(0u64, CustomPhantomData::<T>::spec_new()),
    {
        Self::id(0)
    }
}

impl<T> Clone for GenericQuery<T> {
    fn clone(&self) -> (r: Self)
        ensures
            r == *self,
    {
        match self {
            Self::Id(id, p) => Self::Id(*id, *p),
            Self::UniqueName(name, p) => Self::UniqueName(name.clone(), *p),
        }
    }
}

/// Index of the first entry of `items` whose ref matches `query`.
pub open spec fn spec_find_index<T>(
    items: Seq<(GenericRef<T>, T)>,
    query: GenericQuery<T>,
) -> Option<int>
    decreases items.len(),
{
    if items.len() == 0 {
        None
    } else if items[0].0.spec_matches(query) {
        Some(0int)
    } else {
        match spec_find_index(items.drop_first(), query) {
            Some(i) => Some(i + 1),
            None => None,
        }
    }
}

/// First entry of `items` whose ref matches `query`.
pub open spec fn spec_find_tuple<T>(
    items: Seq<(GenericRef<T>, T)>,
    query: GenericQuery<T>,
) -> Option<(GenericRef<T>, T)> {
    match spec_find_index(items, query) {
        Some(i) => Some(items[i]),
        None => None,
    }
}

/// What `spec_find_index` returns: the first matching index if any entry
/// matches, nothing otherwise.
pub proof fn lemma_spec_find_index_characterization<T>(
    items: Seq<(GenericRef<T>, T)>,
    query: GenericQuery<T>,
)
    ensures
        match spec_find_index(items, query) {
            Some(i) => {
                &&& 0 <= i < items.len()
                &&& items[i].0.spec_matches(query)
                &&& forall|j: int| 0 <= j < i ==> !items[j].0.spec_matches(query)
            },
            None => forall|j: int| 0 <= j < items.len() ==> !items[j].0.spec_matches(query),
        },
    decreases items.len(),
{
    if items.len() > 0 && !items[0].0.spec_matches(query) {
        let rest = items.drop_first();
        lemma_spec_find_index_characterization(rest, query);
        assert forall|j: int| 1 <= j < items.len() implies items[j] == rest[j - 1] by {
            assert(rest[j - 1] == items.subrange(1, items.len() as int)[j - 1]);
        }
        match spec_find_index(rest, query) {
            Some(i) => {
                assert(spec_find_index(items, query) == Some(i + 1));
                assert(items[i + 1] == rest[i]);
            },
            None => {
                assert(spec_find_index(items, query) is None);
            },
        }
    }
}

/// An ordered collection owning the `(ref, state)` pairs of one entity kind.
/// Insertion order is preserved and is meaningful for iteration, never for
/// lookup: lookup always returns the first structural match.  Nothing here
/// rejects two entries with the same id; with duplicates present, lookup is
/// first-match and therefore order-dependent.
#[derive(Debug)]
pub struct GenericDataset<T> {
    pub items: Vec<(GenericRef<T>, T)>,
}

impl<T> GenericDataset<T> {
    pub fn new() -> (r: Self)
        ensures
            r.items@ == Seq::<(GenericRef<T>, T)>::empty(),
    {
        Self { items: Vec::new() }
    }

    pub fn get_item_index_with_query(&self, query: &GenericQuery<T>) -> (r: Option<usize>)
        ensures
            match r {
                Some(i) => spec_find_index(self.items@, *query) == Some(i as int),
                None => spec_find_index(self.items@, *query) is None,
            },
    {
        let mut i: usize = 0;
        while i < self.items.len()
            invariant
                0 <= i <= self.items@.len(),
                forall|j: int| 0 <= j < i ==> !self.items@[j].0.spec_matches(*query),
            decreases self.items@.len() - i,
        {
            if self.items[i].0.query_matches(query) {
                proof {
                    lemma_spec_find_index_characterization(self.items@, *query);
                }
                return Some(i);
            }
            i = i + 1;
        }
        proof {
            lemma_spec_find_index_characterization(self.items@, *query);
        }
        None
    }

    pub fn get_item_tuple<'a>(&'a self, query: &GenericQuery<T>) -> (r: Option<
        (&'a GenericRef<T>, &'a T),
    >)
        ensures
            match r {
                Some(p) => spec_find_tuple(self.items@, *query) == Some((*p.0, *p.1)),
                None => spec_find_tuple(self.items@, *query) is None,
            },
    {
        match self.get_item_index_with_query(query) {
            Some(i) => {
                proof {
                    lemma_spec_find_index_characterization(self.items@, *query);
                }
                Some((&self.items[i].0, &self.items[i].1))
            },
            None => None,
        }
    }

    pub fn get_item_id(&self, query: &GenericQuery<T>) -> (r: Option<u64>)
        ensures
            match r {
                Some(id) => spec_find_tuple(self.items@, *query) matches Some(p) && p.0.id == id,
                None => spec_find_tuple(self.items@, *query) is None,
            },
    {
        match self.get_item_tuple(query) {
            Some((ref_, _)) => Some(ref_.id),
            None => None,
        }
    }
}

impl<T: Copy> Clone for GenericDataset<T> {
    fn clone(&self) -> (r: Self)
        ensures
            r.items@ == self.items@,
    {
        let mut items: Vec<(GenericRef<T>, T)> = Vec::new();
        let mut i: usize = 0;
        while i < self.items.len()
            invariant
                0 <= i <= self.items@.len(),
                items@.len() == i,
                forall|j: int| 0 <= j < i ==> items@[j] == self.items@[j],
            decreases self.items@.len() - i,
        {
            items.push((self.items[i].0.clone(), self.items[i].1));
            i = i + 1;
        }
        proof {
            assert(items@ =~= self.items@);
        }
        Self { items }
    }
}

/// A ref's canonical query finds exactly the refs that share its id: the ref
/// itself, any alias change of it, and no ref with a different id.
pub proof fn lemma_to_query_matches_id_only<T>(r1: GenericRef<T>, r2: GenericRef<T>)
    ensures
        r2.spec_matches(r1.spec_to_query()) <==> r2.id == r1.id,
{
}

/// A `UniqueName` query matches exactly the refs that carry that name; a ref
/// with no name never matches any `UniqueName` query.
pub proof fn lemma_unique_name_query_matches<T>(r: GenericRef<T>, name: String)
    ensures
        r.spec_matches(GenericQuery::UniqueName(name, CustomPhantomData::spec_new())) <==> (
        r.unique_name_opt matches Some(n) && n@ == name@),
{
}

/// Lookup by id is insertion-order-independent: two entries with distinct ids
/// give the same answer to every id query whichever of the two orders they
/// were inserted in.
pub proof fn lemma_lookup_insertion_order_independent<T>(
    r1: GenericRef<T>,
    s1: T,
    r2: GenericRef<T>,
    s2: T,
    id: u64,
)
    requires
        r1.id != r2.id,
    ensures
        spec_find_tuple(
            seq![(r1, s1), (r2, s2)],
            GenericQuery::Id(id, CustomPhantomData::spec_new()),
        ) == spec_find_tuple(
            seq![(r2, s2), (r1, s1)],
            GenericQuery::Id(id, CustomPhantomData::spec_new()),
        ),
{
    let q = GenericQuery::<T>::Id(id, CustomPhantomData::spec_new());
    let d12 = seq![(r1, s1), (r2, s2)];
    let d21 = seq![(r2, s2), (r1, s1)];
    assert(d12.drop_first() =~= seq![(r2, s2)]);
    assert(d21.drop_first() =~= seq![(r1, s1)]);
    assert(seq![(r2, s2)].drop_first() =~= Seq::<(GenericRef<T>, T)>::empty());
    assert(seq![(r1, s1)].drop_first() =~= Seq::<(GenericRef<T>, T)>::empty());
    if r1.spec_matches(q) {
        assert(spec_find_index(d12, q) == Some(0int));
        assert(spec_find_index(seq![(r1, s1)], q) == Some(0int));
        assert(spec_find_index(d21, q) == Some(1int));
        assert(d12[0] == d21[1]);
    } else if r2.spec_matches(q) {
        assert(spec_find_index(seq![(r2, s2)], q) == Some(0int));
        assert(spec_find_index(d12, q) == Some(1int));
        assert(spec_find_index(d21, q) == Some(0int));
        assert(d12[1] == d21[0]);
    } else {
        assert(spec_find_index(Seq::<(GenericRef<T>, T)>::empty(), q) is None);
        assert(spec_find_index(seq![(r2, s2)], q) is None);
        assert(spec_find_index(seq![(r1, s1)], q) is None);
        assert(spec_find_index(d12, q) is None);
        assert(spec_find_index(d21, q) is None);
    }
}

/// Decimal representation of `n`, most significant digit first.
pub open spec fn spec_dec_u64(n: u64) -> Seq<char>
    decreases n,
{
    if n < 10 {
        seq![spec_dec_digit(n)]
    } else {
        spec_dec_u64(n / 10) + seq![spec_dec_digit(n % 10)]
    }
}

/// The character for one decimal digit.
pub open spec fn spec_dec_digit(d: u64) -> char {
    ((0x30 + d) as u8) as char
}

/// The one-character string slice for one decimal digit.
fn dec_digit_str(d: u64) -> (r: &'static str)
    requires
        d < 10,
    ensures
        r@ == seq![spec_dec_digit(d)],
{
    proof {
        reveal_strlit("0");
        reveal_strlit("1");
        reveal_strlit("2");
        reveal_strlit("3");
        reveal_strlit("4");
        reveal_strlit("5");
        reveal_strlit("6");
        reveal_strlit("7");
        reveal_strlit("8");
        reveal_strlit("9");
    }
    match d {
        0 => "0",
        1 => "1",
        2 => "2",
        3 => "3",
        4 => "4",
        5 => "5",
        6 => "6",
        7 => "7",
        8 => "8",
        _ => "9",
    }
}

/// Decimal text of an unsigned number.
pub fn u64_to_string(n: u64) -> (r: String)
    ensures
        r@ == spec_dec_u64(n),
    decreases n,
{
    if n < 10 {
        dec_digit_str(n).to_owned()
    } else {
        let mut s = u64_to_string(n / 10);
        s.append(dec_digit_str(n % 10));
        s
    }
}

} // verus!

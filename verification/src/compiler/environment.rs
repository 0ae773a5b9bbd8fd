//! Tables keyed by canonical names.

use vstd::prelude::*;
use crate::compiler::typecheck::Type;
use crate::yolol;

verus! {

/// A table from names to values. A later entry for a name replaces an
/// earlier one; entries are kept in the order in which they were made, so
/// that a table prints the same way on every run.
#[derive(Debug, PartialEq, Eq)]
pub struct NameTable<V> {
    entries: Vec<(String, V)>,
}

/// The type of each declared field, by canonical name.
pub type TypeEnvironment = NameTable<Type>;

/// The translated expression of each declared constant, by canonical name.
pub type ConstantTable = NameTable<yolol::ast::Expression>;

/// What a table holds: its entries, in the order in which they were made.
pub struct TableView<V> {
    pub entries: Seq<(Seq<char>, V)>,
}

/// The value that the last entry for `name` gives, if there is one.
pub open spec fn find_entry<V>(entries: Seq<(Seq<char>, V)>, name: Seq<char>) -> Option<V>
    decreases entries.len(),
{
    if entries.len() == 0 {
        None
    } else if entries.last().0 == name {
        Some(entries.last().1)
    } else {
        find_entry(entries.drop_last(), name)
    }
}

impl<V> TableView<V> {
    /// The table without entries.
    pub open spec fn empty() -> Self {
        TableView { entries: Seq::empty() }
    }

    /// The table with one more entry, behind all others.
    pub open spec fn insert(self, name: Seq<char>, value: V) -> Self {
        TableView { entries: self.entries.push((name, value)) }
    }

    /// The value that `name` is mapped to, if any.
    pub open spec fn lookup(self, name: Seq<char>) -> Option<V> {
        find_entry(self.entries, name)
    }

    /// Whether `name` is mapped to a value.
    pub open spec fn contains_key(self, name: Seq<char>) -> bool {
        self.lookup(name) is Some
    }

    /// The value that `name` is mapped to, where it is mapped to one.
    pub open spec fn spec_index(self, name: Seq<char>) -> V {
        self.lookup(name)->Some_0
    }

    /// The names of the entries, in the order in which they were made.
    pub open spec fn names(self) -> Seq<Seq<char>> {
        Seq::new(self.entries.len(), |i: int| self.entries[i].0)
    }
}

/// A new entry is found under its name and hides nothing under another name.
pub broadcast proof fn lemma_lookup_insert<V>(table: TableView<V>, name: Seq<char>, value: V, other: Seq<char>)
    ensures
        #[trigger] table.insert(name, value).lookup(other) == if other == name {
            Some(value)
        } else {
            table.lookup(other)
        },
{
    assert(table.entries.push((name, value)).drop_last() =~= table.entries);
}

/// A new entry puts its name behind the names of all other entries.
pub broadcast proof fn lemma_names_insert<V>(table: TableView<V>, name: Seq<char>, value: V)
    ensures
        #[trigger] table.insert(name, value).names() == table.names().push(name),
{
    assert(table.insert(name, value).names() =~= table.names().push(name));
}

/// The empty table knows no name.
pub broadcast proof fn lemma_lookup_empty<V>(name: Seq<char>)
    ensures
        #[trigger] TableView::<V>::empty().lookup(name) is None,
        TableView::<V>::empty().names() == Seq::<Seq<char>>::empty(),
{
    assert(TableView::<V>::empty().names() =~= Seq::<Seq<char>>::empty());
}

/// A table knows exactly the names of its entries.
pub proof fn lemma_contains_key_names<V>(table: TableView<V>, name: Seq<char>)
    ensures
        table.contains_key(name) <==> table.names().contains(name),
    decreases table.entries.len(),
{
    let names = table.names();
    if table.entries.len() > 0 {
        let rest = TableView { entries: table.entries.drop_last() };
        lemma_contains_key_names(rest, name);
        if table.entries.last().0 == name {
            assert(names[names.len() - 1] == name);
        } else {
            if rest.names().contains(name) {
                let i = choose|i: int| 0 <= i < rest.names().len() && rest.names()[i] == name;
                assert(names[i] == name);
            }
            if names.contains(name) {
                let i = choose|i: int| 0 <= i < names.len() && names[i] == name;
                assert(rest.names()[i] == name);
            }
        }
    }
}

/// An entry under a name that the table does not know keeps the names of
/// the table apart from each other.
pub proof fn lemma_new_name_keeps_names_distinct<V>(table: TableView<V>, name: Seq<char>, value: V)
    requires
        table.names().no_duplicates(),
        !table.contains_key(name),
    ensures
        table.insert(name, value).names().no_duplicates(),
{
    lemma_contains_key_names(table, name);
    let before = table.names();
    let after = table.insert(name, value).names();
    assert(after =~= before.push(name));
    assert forall|i: int, j: int| 0 <= i < after.len() && 0 <= j < after.len() && i != j implies after[i]
        != after[j] by {
        if i < before.len() && j < before.len() {
            assert(before[i] != before[j]);
        } else if i < before.len() {
            assert(before[i] == after[i]);
        } else {
            assert(before[j] == after[j]);
        }
    }
}

pub broadcast group group_table {
    lemma_lookup_insert,
    lemma_names_insert,
    lemma_lookup_empty,
}

impl<V: DeepView> View for NameTable<V> {
    type V = TableView<V::V>;

    closed spec fn view(&self) -> TableView<V::V> {
        TableView { entries: self.entries.deep_view() }
    }
}

impl<V: DeepView> DeepView for NameTable<V> {
    type V = TableView<V::V>;

    open spec fn deep_view(&self) -> TableView<V::V> {
        self@
    }
}

impl<V: DeepView> NameTable<V> {
    /// The empty table.
    pub fn new() -> (r: Self)
        ensures
            r@ == TableView::<V::V>::empty(),
    {
        let r = NameTable { entries: Vec::new() };
        assert(r.entries.deep_view() =~= Seq::<(Seq<char>, V::V)>::empty());
        r
    }

    /// Maps `name` to `value` from now on. The new entry stands behind all
    /// others: its name is the last of the table's names.
    pub fn insert(&mut self, name: String, value: V)
        ensures
            final(self)@ == old(self)@.insert(name@, value.deep_view()),
            final(self)@.names() == old(self)@.names().push(name@),
    {
        broadcast use lemma_names_insert;
        self.entries.push((name, value));
        assert(self.entries.deep_view() =~= old(self).entries.deep_view().push((name@, value.deep_view())));
    }

    /// The value that `name` is mapped to, if any.
    pub fn get(&self, name: &String) -> (r: Option<&V>)
        ensures
            r.deep_view() == self@.lookup(name@),
    {
        let ghost all = self.entries.deep_view();
        let mut i: usize = self.entries.len();
        assert(all.take(i as int) =~= all);
        while i > 0
            invariant
                i <= self.entries.len(),
                all == self.entries.deep_view(),
                find_entry(all, name@) == find_entry(all.take(i as int), name@),
            decreases i,
        {
            i -= 1;
            assert(all.take(i + 1).drop_last() =~= all.take(i as int));
            assert(all.take(i + 1).last() == self.entries@[i as int].deep_view());
            if self.entries[i].0 == *name {
                return Some(&self.entries[i].1);
            }
        }
        None
    }

    /// Whether `name` is mapped to a value.
    pub fn contains_key(&self, name: &String) -> (b: bool)
        ensures
            b == self@.contains_key(name@),
    {
        self.get(name).is_some()
    }

    /// The names of the entries, in the order in which they were made.
    pub fn names(&self) -> (r: Vec<String>)
        ensures
            r.deep_view() == self@.names(),
    {
        let mut r: Vec<String> = Vec::new();
        let mut i: usize = 0;
        while i < self.entries.len()
            invariant
                i <= self.entries.len(),
                r.deep_view() == self@.names().take(i as int),
            decreases self.entries.len() - i,
        {
            let name = self.entries[i].0.clone();
            crate::views::push_deep(&mut r, name);
            assert(self@.names().take(i + 1) =~= self@.names().take(i as int).push(self.entries@[i as int].0@));
            i += 1;
        }
        assert(self@.names().take(i as int) =~= self@.names());
        r
    }

    /// The number of entries that were made.
    pub fn len(&self) -> (n: usize)
        ensures
            n == self@.entries.len(),
    {
        self.entries.len()
    }
}

} // verus!

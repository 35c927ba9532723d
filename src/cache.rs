//! The local schema cache: the connections that have a stored entry, and
//! four row stores, one per entity kind, each row tagged with the connection
//! it was extracted from.

use vstd::prelude::*;

use crate::schema::{Column, Duplicate, ForeignKey, PrimaryKey, SchemaData, SchemaView, Table};

verus! {

/// A stored entity together with the connection it belongs to.
#[derive(Debug, Clone, PartialEq, Eq)]
pub struct CachedRow<T> {
    pub connection_id: String,
    pub item: T,
}

impl<T: Duplicate> Duplicate for CachedRow<T> {
    fn duplicate(&self) -> (r: CachedRow<T>) {
        CachedRow { connection_id: self.connection_id.clone(), item: self.item.duplicate() }
    }
}

/// The items of the rows that belong to `id`, in stored order.
pub open spec fn items_of<T>(rows: Seq<CachedRow<T>>, id: Seq<char>) -> Seq<T>
    decreases rows.len(),
{
    if rows.len() == 0 {
        Seq::empty()
    } else {
        let before = items_of(rows.drop_last(), id);
        if rows.last().connection_id@ == id {
            before.push(rows.last().item)
        } else {
            before
        }
    }
}

/// Adding a row adds its item to its own connection and to no other.
pub proof fn lemma_items_of_push<T>(rows: Seq<CachedRow<T>>, row: CachedRow<T>, id: Seq<char>)
    ensures
        items_of(rows.push(row), id) == (if row.connection_id@ == id {
            items_of(rows, id).push(row.item)
        } else {
            items_of(rows, id)
        }),
{
    assert(rows.push(row).drop_last() =~= rows);
}

/// The rows of every connection but `id`, in stored order, and then one row
/// for each item, tagged with `id`.
fn replace_rows<T: Duplicate>(rows: &mut Vec<CachedRow<T>>, items: &Vec<T>, id: &str)
    ensures
        forall|x: Seq<char>|
            #![auto]
            items_of(final(rows)@, x) == (if x == id@ {
                items@
            } else {
                items_of(old(rows)@, x)
            }),
{
    let key = id.to_owned();
    let mut kept: Vec<CachedRow<T>> = Vec::new();
    let mut i: usize = 0;
    while i < rows.len()
        invariant
            i <= rows@.len(),
            key@ == id@,
            forall|x: Seq<char>|
                #![auto]
                items_of(kept@, x) == (if x == id@ {
                    Seq::<T>::empty()
                } else {
                    items_of(rows@.subrange(0, i as int), x)
                }),
        decreases rows@.len() - i,
    {
        let ghost prefix = rows@.subrange(0, i as int);
        assert(rows@.subrange(0, i + 1) =~= prefix.push(rows@[i as int]));
        if !rows[i].connection_id.eq(&key) {
            let row = rows[i].duplicate();
            let ghost before = kept@;
            kept.push(row);
            proof {
                assert forall|x: Seq<char>| #![auto] items_of(kept@, x) == (if x == id@ {
                    Seq::<T>::empty()
                } else {
                    items_of(rows@.subrange(0, i + 1), x)
                }) by {
                    lemma_items_of_push(before, row, x);
                    lemma_items_of_push(prefix, rows@[i as int], x);
                }
            }
        } else {
            proof {
                assert forall|x: Seq<char>| #![auto] items_of(kept@, x) == (if x == id@ {
                    Seq::<T>::empty()
                } else {
                    items_of(rows@.subrange(0, i + 1), x)
                }) by {
                    lemma_items_of_push(prefix, rows@[i as int], x);
                }
            }
        }
        i = i + 1;
    }
    assert(rows@.subrange(0, rows@.len() as int) =~= rows@);
    let mut j: usize = 0;
    while j < items.len()
        invariant
            j <= items@.len(),
            forall|x: Seq<char>|
                #![auto]
                items_of(kept@, x) == (if x == id@ {
                    items@.subrange(0, j as int)
                } else {
                    items_of(old(rows)@, x)
                }),
        decreases items@.len() - j,
    {
        let row = CachedRow { connection_id: id.to_owned(), item: items[j].duplicate() };
        let ghost before = kept@;
        kept.push(row);
        proof {
            assert(items@.subrange(0, j + 1) =~= items@.subrange(0, j as int).push(items@[j as int]));
            assert forall|x: Seq<char>| #![auto] items_of(kept@, x) == (if x == id@ {
                items@.subrange(0, j + 1)
            } else {
                items_of(old(rows)@, x)
            }) by {
                lemma_items_of_push(before, row, x);
            }
        }
        j = j + 1;
    }
    assert(items@.subrange(0, items@.len() as int) =~= items@);
    *rows = kept;
}

/// Copies of the items of the rows that belong to `id`, in stored order.
fn items_for<T: Duplicate>(rows: &Vec<CachedRow<T>>, id: &str) -> (r: Vec<T>)
    ensures
        r@ == items_of(rows@, id@),
{
    let key = id.to_owned();
    let mut r: Vec<T> = Vec::new();
    let mut i: usize = 0;
    while i < rows.len()
        invariant
            i <= rows@.len(),
            key@ == id@,
            r@ == items_of(rows@.subrange(0, i as int), id@),
        decreases rows@.len() - i,
    {
        proof {
            assert(rows@.subrange(0, i + 1) =~= rows@.subrange(0, i as int).push(rows@[i as int]));
            lemma_items_of_push(rows@.subrange(0, i as int), rows@[i as int], id@);
        }
        if rows[i].connection_id.eq(&key) {
            r.push(rows[i].item.duplicate());
        }
        i = i + 1;
    }
    assert(rows@.subrange(0, rows@.len() as int) =~= rows@);
    r
}

/// The cache's store: all rows of all connections, one sequence per entity
/// kind, and the connections that have a stored entry (which may have no rows).
#[derive(Debug, Clone, PartialEq, Eq)]
pub struct SchemaCache {
    pub entries: Vec<String>,
    pub tables: Vec<CachedRow<Table>>,
    pub columns: Vec<CachedRow<Column>>,
    pub primary_keys: Vec<CachedRow<PrimaryKey>>,
    pub foreign_keys: Vec<CachedRow<ForeignKey>>,
}

/// Some identifier of `entries` is `id`.
pub open spec fn has_entry(entries: Seq<String>, id: Seq<char>) -> bool {
    exists|i: int| 0 <= i < entries.len() && #[trigger] entries[i]@ == id
}

/// Whether some identifier of `entries` is `id`.
fn find_entry(entries: &Vec<String>, id: &str) -> (r: bool)
    ensures
        r == has_entry(entries@, id@),
{
    let key = id.to_owned();
    let mut i: usize = 0;
    while i < entries.len()
        invariant
            i <= entries@.len(),
            key@ == id@,
            forall|j: int| 0 <= j < i ==> entries@[j]@ != id@,
        decreases entries@.len() - i,
    {
        if entries[i].eq(&key) {
            return true;
        }
        i = i + 1;
    }
    false
}

/// Adds `id` to the identifiers unless it is there already.
fn record_entry(entries: &mut Vec<String>, id: &str)
    ensures
        forall|x: Seq<char>| #[trigger] has_entry(final(entries)@, x) == (x == id@ || has_entry(old(entries)@, x)),
{
    if !find_entry(entries, id) {
        let ghost before = entries@;
        entries.push(id.to_owned());
        assert forall|x: Seq<char>| #[trigger] has_entry(entries@, x) == (x == id@ || has_entry(before, x)) by {
            if has_entry(before, x) {
                let i = choose|i: int| 0 <= i < before.len() && #[trigger] before[i]@ == x;
                assert(entries@[i]@ == x);
            }
            if x == id@ {
                assert(entries@[before.len() as int]@ == x);
            }
            if has_entry(entries@, x) && x != id@ {
                let i = choose|i: int| 0 <= i < entries@.len() && #[trigger] entries@[i]@ == x;
                assert(before[i]@ == x);
            }
        }
    }
}

impl SchemaCache {
    /// What the store holds for `id`: each kind's rows of that connection, in stored order.
    pub open spec fn lookup(&self, id: Seq<char>) -> SchemaView {
        SchemaView {
            tables: items_of(self.tables@, id),
            columns: items_of(self.columns@, id),
            foreign_keys: items_of(self.foreign_keys@, id),
            primary_keys: items_of(self.primary_keys@, id),
        }
    }

    /// An entry was stored for `id`, whether or not it has rows.
    pub open spec fn holds(&self, id: Seq<char>) -> bool {
        has_entry(self.entries@, id)
    }
}

/// An empty store.
pub fn init_cache() -> (r: SchemaCache)
    ensures
        forall|x: Seq<char>| !r.holds(x),
{
    SchemaCache {
        entries: Vec::new(),
        tables: Vec::new(),
        columns: Vec::new(),
        primary_keys: Vec::new(),
        foreign_keys: Vec::new(),
    }
}

/// Replaces the tables stored for `connection_id` with `tables`.
pub fn cache_tables(cache: &mut SchemaCache, tables: &Vec<Table>, connection_id: &str)
    ensures
        final(cache).entries == old(cache).entries,
        final(cache).columns == old(cache).columns,
        final(cache).primary_keys == old(cache).primary_keys,
        final(cache).foreign_keys == old(cache).foreign_keys,
        forall|x: Seq<char>|
            #![auto]
            items_of(final(cache).tables@, x) == (if x == connection_id@ {
                tables@
            } else {
                items_of(old(cache).tables@, x)
            }),
{
    replace_rows(&mut cache.tables, tables, connection_id);
}

/// Replaces the columns stored for `connection_id` with `columns`.
pub fn cache_columns(cache: &mut SchemaCache, columns: &Vec<Column>, connection_id: &str)
    ensures
        final(cache).entries == old(cache).entries,
        final(cache).tables == old(cache).tables,
        final(cache).primary_keys == old(cache).primary_keys,
        final(cache).foreign_keys == old(cache).foreign_keys,
        forall|x: Seq<char>|
            #![auto]
            items_of(final(cache).columns@, x) == (if x == connection_id@ {
                columns@
            } else {
                items_of(old(cache).columns@, x)
            }),
{
    replace_rows(&mut cache.columns, columns, connection_id);
}

/// Replaces the primary-key rows stored for `connection_id` with `pks`.
pub fn cache_primary_keys(cache: &mut SchemaCache, pks: &Vec<PrimaryKey>, connection_id: &str)
    ensures
        final(cache).entries == old(cache).entries,
        final(cache).tables == old(cache).tables,
        final(cache).columns == old(cache).columns,
        final(cache).foreign_keys == old(cache).foreign_keys,
        forall|x: Seq<char>|
            #![auto]
            items_of(final(cache).primary_keys@, x) == (if x == connection_id@ {
                pks@
            } else {
                items_of(old(cache).primary_keys@, x)
            }),
{
    replace_rows(&mut cache.primary_keys, pks, connection_id);
}

/// Replaces the foreign-key rows stored for `connection_id` with `fks`.
pub fn cache_foreign_keys(cache: &mut SchemaCache, fks: &Vec<ForeignKey>, connection_id: &str)
    ensures
        final(cache).entries == old(cache).entries,
        final(cache).tables == old(cache).tables,
        final(cache).columns == old(cache).columns,
        final(cache).primary_keys == old(cache).primary_keys,
        forall|x: Seq<char>|
            #![auto]
            items_of(final(cache).foreign_keys@, x) == (if x == connection_id@ {
                fks@
            } else {
                items_of(old(cache).foreign_keys@, x)
            }),
{
    replace_rows(&mut cache.foreign_keys, fks, connection_id);
}

/// Stores `schema` as the entry of `connection_id`, replacing any earlier
/// entry; what other connections have stored is left as it was.
pub fn cache_schema(cache: &mut SchemaCache, schema: &SchemaData, connection_id: &str)
    ensures
        replaced(*old(cache), *final(cache), connection_id@, schema@),
{
    cache_tables(cache, &schema.tables, connection_id);
    cache_columns(cache, &schema.columns, connection_id);
    cache_primary_keys(cache, &schema.primary_keys, connection_id);
    cache_foreign_keys(cache, &schema.foreign_keys, connection_id);
    record_entry(&mut cache.entries, connection_id);
}

/// Whether anything is stored for `connection_id`.
pub fn has_cached_schema(cache: &SchemaCache, connection_id: &str) -> (r: bool)
    ensures
        r == cache.holds(connection_id@),
{
    find_entry(&cache.entries, connection_id)
}

/// The schema stored for `connection_id`, rows in stored order; `None` when
/// no entry was stored for it. A stored schema without rows comes back empty.
pub fn load_cached_schema(cache: &SchemaCache, connection_id: &str) -> (r: Option<SchemaData>)
    ensures
        r is Some <==> cache.holds(connection_id@),
        r matches Some(s) ==> s@ == cache.lookup(connection_id@),
{
    if !has_cached_schema(cache, connection_id) {
        return None;
    }
    Some(SchemaData {
        tables: items_for(&cache.tables, connection_id),
        columns: items_for(&cache.columns, connection_id),
        foreign_keys: items_for(&cache.foreign_keys, connection_id),
        primary_keys: items_for(&cache.primary_keys, connection_id),
    })
}

/// Storing `s` for `id` exactly once: after has an entry for `id` with rows
/// `s`, and for every other connection whatever before had.
pub open spec fn replaced(before: SchemaCache, after: SchemaCache, id: Seq<char>, s: SchemaView) -> bool {
    &&& after.holds(id)
    &&& after.lookup(id) == s
    &&& forall|x: Seq<char>| x != id ==> #[trigger] after.lookup(x) == before.lookup(x)
    &&& forall|x: Seq<char>| x != id ==> #[trigger] after.holds(x) == before.holds(x)
}

/// Round trip: after any schema, one without rows included, is stored for
/// `id`, the cache has an entry for `id` and reading it back gives the same
/// rows of each kind in the same order (so columns keep their ordinal order).
pub proof fn lemma_round_trip(before: SchemaCache, after: SchemaCache, id: Seq<char>, s: SchemaView)
    requires
        replaced(before, after, id, s),
    ensures
        after.holds(id),
        after.lookup(id) == s,
{
}

/// Replacement: storing `s1` and then `s2` for the same `id` leaves exactly
/// `s2` for it, with no row of `s1` left over.
pub proof fn lemma_replace(c0: SchemaCache, c1: SchemaCache, c2: SchemaCache, id: Seq<char>, s1: SchemaView, s2: SchemaView)
    requires
        replaced(c0, c1, id, s1),
        replaced(c1, c2, id, s2),
    ensures
        c2.holds(id),
        c2.lookup(id) == s2,
{
}

/// Isolation: storing a schema for `id1` changes nothing that another
/// connection `id2` reads, whatever names the two schemas share.
pub proof fn lemma_isolation(before: SchemaCache, after: SchemaCache, id1: Seq<char>, s: SchemaView, id2: Seq<char>)
    requires
        replaced(before, after, id1, s),
        id2 != id1,
    ensures
        after.lookup(id2) == before.lookup(id2),
        after.holds(id2) == before.holds(id2),
{
}

} // verus!

//! The table cache: which tables have been read from the archives, and the
//! queries answered from them.
//!
//! Reading a table file is the caller's work. A query on a table that has not
//! been read yet answers [`Answer::Load`]; the caller then reads the file and
//! hands its bytes to [`complete_load`], after which the same query is
//! answered from the cache.

use std::collections::HashMap;
use vstd::prelude::*;
use vstd::std_specs::hash::spec_keys_iter;
use vstd::std_specs::iter::IteratorSpec;
use crate::dbc::{
    DbcError, DbcRows, FieldType, FieldValue, FieldValueView, duplicate_row, hdr_record_count,
    lemma_rows_are_records, parse_wdbc, row_view, rows_view, schema_types, spec_parse_wdbc,
    spec_record,
};
use crate::mpq::{ArchiveName, ArchiveNameView, BaseProbe, build_mpq_list, spec_build_mpq_list};
use crate::scripts::spec_item_sub_class_key;
use crate::schemas::{
    item_sub_class_layout, known_layouts, layout_types, ITEM_SUB_CLASS_INDEX, KNOWN_DBC_COUNT, SchemaRegistry, dbc_index, known_dbc_names,
};

verus! {

broadcast use vstd::std_specs::hash::group_hash_axioms;

/// Why a query could not be answered.
#[derive(Debug, Clone, Copy, PartialEq, Eq, Structural)]
pub enum LookupError {
    /// No table of that name is known.
    UnknownDbc,
    /// The table file was in no archive, or could not be parsed.
    NotFound,
    /// The archive list has not been built yet.
    MpqListNotInitialized,
}

/// What a query needs next: the table at this registry position read from the
/// archives, or nothing more, with its answer.
#[derive(Debug)]
pub enum Answer<T> {
    Load(usize),
    Done(T),
}

/// A parsed table with a fixed walk order over its row keys.
pub struct Table {
    rows: DbcRows,
    keys: Vec<u32>,
}

impl Table {
    /// The rows, by key.
    pub closed spec fn rows(&self) -> Map<u32, Vec<FieldValue>> {
        self.rows@
    }

    /// The row keys, in walk order.
    pub closed spec fn keys(&self) -> Seq<u32> {
        self.keys@
    }

    /// Every row key occurs exactly once in the walk order.
    pub open spec fn wf(&self) -> bool {
        &&& self.keys().len() <= usize::MAX
        &&& self.keys().no_duplicates()
        &&& self.keys().to_set() == self.rows().dom()
    }
}

/// The cache state of one table.
pub enum TableState {
    /// Not read yet.
    Unloaded,
    /// Read and found absent or unparsable.
    Missing,
    /// Read and parsed.
    Loaded(Table),
}

pub open spec fn state_wf(s: TableState) -> bool {
    match s {
        TableState::Loaded(t) => t.wf(),
        _ => true,
    }
}

/// What became of a table file handed to [`complete_load`].
#[derive(Debug, Clone, Copy, PartialEq, Eq, Structural)]
pub enum LoadReport {
    Loaded,
    NotInArchives,
    ParseFailed(DbcError),
}

/// The archive list and the cache of every known table.
pub struct DbcStore {
    mpq_list: Option<Vec<ArchiveName>>,
    tables: Vec<TableState>,
}

impl DbcStore {
    /// The cache state of each known table, in registry order.
    pub closed spec fn tables(&self) -> Seq<TableState> {
        self.tables@
    }

    /// The archive list, once built.
    pub closed spec fn mpq_list(&self) -> Option<Seq<ArchiveNameView>> {
        match self.mpq_list {
            Some(l) => Some(l@.map_values(|a: ArchiveName| a@)),
            None => None,
        }
    }

    /// One cache entry per known table, each loaded table well formed.
    pub open spec fn wf(&self) -> bool {
        &&& self.tables().len() == known_dbc_names().len()
        &&& forall|i: int| 0 <= i < self.tables().len() ==> state_wf(#[trigger] self.tables()[i])
    }

    /// An empty cache, with no archive list.
    pub fn new() -> (s: DbcStore)
        ensures
            s.wf(),
            s.mpq_list() is None,
            forall|i: int| 0 <= i < s.tables().len() ==> #[trigger] s.tables()[i] is Unloaded,
    {
        let mut tables: Vec<TableState> = Vec::new();
        let mut i: usize = 0;
        while i < KNOWN_DBC_COUNT
            invariant
                i <= KNOWN_DBC_COUNT,
                tables@.len() == i,
                forall|k: int| 0 <= k < i ==> #[trigger] tables@[k] is Unloaded,
            decreases KNOWN_DBC_COUNT - i,
        {
            tables.push(TableState::Unloaded);
            i = i + 1;
        }
        let s = DbcStore { mpq_list: None, tables };
        assert(forall|i: int| 0 <= i < s.tables().len() ==> state_wf(#[trigger] s.tables()[i]));
        s
    }

    /// Whether the archive list has been built.
    pub fn mpq_list_ready(&self) -> (r: bool)
        ensures
            r == self.mpq_list() is Some,
    {
        self.mpq_list.is_some()
    }

    /// Whether the table at registry position `index` still has to be read.
    pub fn needs_load(&self, index: usize) -> (r: bool)
        requires
            self.wf(),
        ensures
            r == (index < known_dbc_names().len() && self.tables()[index as int] is Unloaded),
    {
        if index < self.tables.len() {
            match &self.tables[index] {
                TableState::Unloaded => true,
                _ => false,
            }
        } else {
            false
        }
    }

    /// The archive list, lowest priority first, once built.
    pub fn archives(&self) -> (r: Option<&Vec<ArchiveName>>)
        ensures
            match self.mpq_list() {
                Some(l) => r matches Some(v) && v@.map_values(|a: ArchiveName| a@) == l,
                None => r is None,
            },
    {
        match &self.mpq_list {
            Some(l) => Some(l),
            None => None,
        }
    }
}

/// Builds the archive list from what was found on disk, unless it was built
/// before: only the first call has an effect.
pub fn init_mpq_list(store: &mut DbcStore, base: &[BaseProbe], dir_entries: &[String])
    requires
        old(store).wf(),
    ensures
        final(store).wf(),
        final(store).tables() == old(store).tables(),
        old(store).mpq_list() is None ==> final(store).mpq_list() == Some(
            spec_build_mpq_list(base@, dir_entries@.map_values(|s: String| s@)),
        ),
        old(store).mpq_list() is Some ==> final(store).mpq_list() == old(store).mpq_list(),
{
    if store.mpq_list.is_none() {
        let list = build_mpq_list(base, dir_entries);
        store.mpq_list = Some(list);
    }
}

/// The rows of a table, in walk order.
pub open spec fn table_order(t: Table) -> Seq<Seq<FieldValueView>> {
    t.keys().map_values(|k: u32| row_view(t.rows()[k]))
}

/// The answer to a lookup by row key in the table called `name`.
pub open spec fn spec_get_record(store: DbcStore, name: Seq<char>, id: u32) -> Answer<
    Result<Option<Seq<FieldValueView>>, LookupError>,
> {
    match dbc_index(name) {
        None => Answer::Done(Err(LookupError::UnknownDbc)),
        Some(i) => match store.tables()[i] {
            TableState::Unloaded => if store.mpq_list() is Some {
                Answer::Load(i as usize)
            } else {
                Answer::Done(Err(LookupError::MpqListNotInitialized))
            },
            TableState::Missing => Answer::Done(Err(LookupError::NotFound)),
            TableState::Loaded(t) => Answer::Done(
                Ok(
                    if t.rows().contains_key(id) {
                        Some(row_view(t.rows()[id]))
                    } else {
                        None
                    },
                ),
            ),
        },
    }
}

/// The answer of a query over a whole table, given its result on a loaded one.
/// A table not read yet while the archive list is missing counts as unknown.
pub open spec fn whole_table_answer<T>(
    store: DbcStore,
    name: Seq<char>,
    on_table: spec_fn(Table) -> T,
) -> Answer<Result<T, LookupError>> {
    match dbc_index(name) {
        None => Answer::Done(Err(LookupError::UnknownDbc)),
        Some(i) => match store.tables()[i] {
            TableState::Unloaded => if store.mpq_list() is Some {
                Answer::Load(i as usize)
            } else {
                Answer::Done(Err(LookupError::UnknownDbc))
            },
            TableState::Missing => Answer::Done(Err(LookupError::NotFound)),
            TableState::Loaded(t) => Answer::Done(Ok(on_table(t))),
        },
    }
}

/// All rows of the table called `name`, in walk order.
pub open spec fn spec_get_all_records(store: DbcStore, name: Seq<char>) -> Answer<
    Result<Seq<Seq<FieldValueView>>, LookupError>,
> {
    whole_table_answer(store, name, |t: Table| table_order(t))
}

/// The number of rows of the table called `name`.
pub open spec fn spec_get_record_count(store: DbcStore, name: Seq<char>) -> Answer<
    Result<usize, LookupError>,
> {
    whole_table_answer(store, name, |t: Table| t.rows().len() as usize)
}

/// The row at the 1-based position `index` (in walk order) of the table called `name`.
pub open spec fn spec_get_record_by_index(store: DbcStore, name: Seq<char>, index: usize) -> Answer<
    Result<Option<Seq<FieldValueView>>, LookupError>,
> {
    whole_table_answer(
        store,
        name,
        |t: Table|
            if index == 0 || index > t.rows().len() {
                None
            } else {
                Some(table_order(t)[index - 1])
            },
    )
}

/// The rows among `rows` whose cell `column` is `target`, in order.
pub open spec fn rows_matching(
    rows: Seq<Seq<FieldValueView>>,
    column: int,
    target: FieldValueView,
) -> Seq<Seq<FieldValueView>>
    decreases rows.len(),
{
    if rows.len() == 0 {
        Seq::empty()
    } else {
        let prev = rows_matching(rows.drop_last(), column, target);
        let r = rows.last();
        if 0 <= column < r.len() && r[column] == target {
            prev.push(r)
        } else {
            prev
        }
    }
}

/// The rows of the table called `name` whose cell `column` is `target`, in walk order.
pub open spec fn spec_find_records(
    store: DbcStore,
    name: Seq<char>,
    column: int,
    target: FieldValueView,
) -> Answer<Result<Seq<Seq<FieldValueView>>, LookupError>> {
    whole_table_answer(store, name, |t: Table| rows_matching(table_order(t), column, target))
}

pub open spec fn record_answer_view(a: Answer<Result<Option<Vec<FieldValue>>, LookupError>>) -> Answer<
    Result<Option<Seq<FieldValueView>>, LookupError>,
> {
    match a {
        Answer::Load(i) => Answer::Load(i),
        Answer::Done(Ok(Some(v))) => Answer::Done(Ok(Some(row_view(v)))),
        Answer::Done(Ok(None)) => Answer::Done(Ok(None)),
        Answer::Done(Err(e)) => Answer::Done(Err(e)),
    }
}

pub open spec fn rows_answer_view(a: Answer<Result<Vec<Vec<FieldValue>>, LookupError>>) -> Answer<
    Result<Seq<Seq<FieldValueView>>, LookupError>,
> {
    match a {
        Answer::Load(i) => Answer::Load(i),
        Answer::Done(Ok(v)) => Answer::Done(Ok(v@.map_values(|r: Vec<FieldValue>| row_view(r)))),
        Answer::Done(Err(e)) => Answer::Done(Err(e)),
    }
}

proof fn lemma_table_len(t: Table)
    requires
        t.wf(),
    ensures
        t.keys().len() == t.rows().len(),
{
    t.keys().unique_seq_to_set();
}

/// The cached table behind `dbc_name`, or the answer when there is none.
fn table_of<'a, T>(
    store: &'a DbcStore,
    registry: &SchemaRegistry,
    dbc_name: &str,
    unloaded_error: LookupError,
) -> (r: Result<&'a Table, Answer<Result<T, LookupError>>>)
    requires
        store.wf(),
    ensures
        match dbc_index(dbc_name@) {
            None => r matches Err(a) && a == Answer::<Result<T, LookupError>>::Done(
                Err(LookupError::UnknownDbc),
            ),
            Some(i) => match store.tables()[i] {
                TableState::Unloaded => r matches Err(a) && a == (if store.mpq_list() is Some {
                    Answer::<Result<T, LookupError>>::Load(i as usize)
                } else {
                    Answer::<Result<T, LookupError>>::Done(Err(unloaded_error))
                }),
                TableState::Missing => r matches Err(a) && a == Answer::<
                    Result<T, LookupError>,
                >::Done(Err(LookupError::NotFound)),
                TableState::Loaded(t) => r matches Ok(t2) && *t2 == t && t.wf(),
            },
        },
{
    proof {
        known_dbc_names().index_of_first_ensures(dbc_name@);
    }
    let index = match registry.index_of(dbc_name) {
        Some(i) => i,
        None => return Err(Answer::Done(Err(LookupError::UnknownDbc))),
    };
    assert(state_wf(store.tables()[index as int]));
    match &store.tables[index] {
        TableState::Unloaded => if store.mpq_list.is_some() {
            Err(Answer::Load(index))
        } else {
            Err(Answer::Done(Err(unloaded_error)))
        },
        TableState::Missing => Err(Answer::Done(Err(LookupError::NotFound))),
        TableState::Loaded(t) => Ok(t),
    }
}

/// A copy of the `i`-th row, in walk order, of a well-formed table.
fn row_at(t: &Table, i: usize) -> (r: Vec<FieldValue>)
    requires
        t.wf(),
        i < t.keys().len(),
    ensures
        row_view(r) == table_order(*t)[i as int],
{
    let key = t.keys[i];
    assert(t.keys().to_set().contains(key));
    match t.rows.get(&key) {
        Some(row) => duplicate_row(row),
        None => {
            assert(false);
            Vec::new()
        },
    }
}

/// Looks up a single record by ID in the named table.
/// Answers `Ok(Some(fields))` on a hit, `Ok(None)` on a miss, and an error when
/// the table is unknown, absent from the archives or unparsable, or when the
/// archive list is not built yet.
pub fn get_record(store: &DbcStore, registry: &SchemaRegistry, dbc_name: &str, id: u32) -> (r: Answer<
    Result<Option<Vec<FieldValue>>, LookupError>,
>)
    requires
        store.wf(),
    ensures
        record_answer_view(r) == spec_get_record(*store, dbc_name@, id),
{
    match table_of(store, registry, dbc_name, LookupError::MpqListNotInitialized) {
        Err(a) => a,
        Ok(t) => match t.rows.get(&id) {
            Some(row) => Answer::Done(Ok(Some(duplicate_row(row)))),
            None => Answer::Done(Ok(None)),
        },
    }
}

/// Lookup for tables keyed by a composite key, such as `ItemSubClass`.
pub fn get_record_composite(
    store: &DbcStore,
    registry: &SchemaRegistry,
    dbc_name: &str,
    key: u32,
) -> (r: Answer<Result<Option<Vec<FieldValue>>, LookupError>>)
    requires
        store.wf(),
    ensures
        record_answer_view(r) == spec_get_record(*store, dbc_name@, key),
{
    get_record(store, registry, dbc_name, key)
}

/// Returns all records of the named table, in walk order.
pub fn get_all_records(store: &DbcStore, registry: &SchemaRegistry, dbc_name: &str) -> (r: Answer<
    Result<Vec<Vec<FieldValue>>, LookupError>,
>)
    requires
        store.wf(),
    ensures
        rows_answer_view(r) == spec_get_all_records(*store, dbc_name@),
{
    match table_of(store, registry, dbc_name, LookupError::UnknownDbc) {
        Err(a) => a,
        Ok(t) => {
            let mut out: Vec<Vec<FieldValue>> = Vec::new();
            let mut i: usize = 0;
            while i < t.keys.len()
                invariant
                    t.wf(),
                    i <= t.keys().len(),
                    out@.len() == i,
                    forall|k: int| 0 <= k < i ==> row_view(#[trigger] out@[k]) == table_order(*t)[k],
                decreases t.keys().len() - i,
            {
                out.push(row_at(t, i));
                i = i + 1;
            }
            assert(out@.map_values(|r: Vec<FieldValue>| row_view(r)) =~= table_order(*t));
            Answer::Done(Ok(out))
        },
    }
}

/// Returns the number of records in the named table.
pub fn get_record_count(store: &DbcStore, registry: &SchemaRegistry, dbc_name: &str) -> (r: Answer<
    Result<usize, LookupError>,
>)
    requires
        store.wf(),
    ensures
        r == spec_get_record_count(*store, dbc_name@),
{
    match table_of(store, registry, dbc_name, LookupError::UnknownDbc) {
        Err(a) => a,
        Ok(t) => {
            proof {
                lemma_table_len(*t);
            }
            Answer::Done(Ok(t.keys.len()))
        },
    }
}

/// Returns the record at the 1-based position `index` of the named table, in
/// walk order; `Ok(None)` when the position is out of range.
pub fn get_record_by_index(
    store: &DbcStore,
    registry: &SchemaRegistry,
    dbc_name: &str,
    index: usize,
) -> (r: Answer<Result<Option<Vec<FieldValue>>, LookupError>>)
    requires
        store.wf(),
    ensures
        record_answer_view(r) == spec_get_record_by_index(*store, dbc_name@, index),
{
    match table_of(store, registry, dbc_name, LookupError::UnknownDbc) {
        Err(a) => a,
        Ok(t) => {
            proof {
                lemma_table_len(*t);
            }
            if index == 0 || index > t.keys.len() {
                Answer::Done(Ok(None))
            } else {
                Answer::Done(Ok(Some(row_at(t, index - 1))))
            }
        },
    }
}

/// Returns the records of the named table whose cell `column` holds `target`,
/// in walk order. Cells are compared as by [`FieldValue::same_as`]: `Float32`
/// cells by their bits.
pub fn find_records(
    store: &DbcStore,
    registry: &SchemaRegistry,
    dbc_name: &str,
    column: usize,
    target: &FieldValue,
) -> (r: Answer<Result<Vec<Vec<FieldValue>>, LookupError>>)
    requires
        store.wf(),
    ensures
        rows_answer_view(r) == spec_find_records(*store, dbc_name@, column as int, target@),
{
    match table_of(store, registry, dbc_name, LookupError::UnknownDbc) {
        Err(a) => a,
        Ok(t) => {
            let ghost order = table_order(*t);
            let mut out: Vec<Vec<FieldValue>> = Vec::new();
            let mut i: usize = 0;
            while i < t.keys.len()
                invariant
                    t.wf(),
                    order == table_order(*t),
                    i <= t.keys().len(),
                    out@.map_values(|r: Vec<FieldValue>| row_view(r)) == rows_matching(
                        order.take(i as int),
                        column as int,
                        target@,
                    ),
                decreases t.keys().len() - i,
            {
                let ghost before = out@;
                assert(order.take(i + 1).drop_last() =~= order.take(i as int));
                assert(order.take(i + 1).last() == order[i as int]);
                let row = row_at(t, i);
                if column < row.len() && row[column].same_as(target) {
                    out.push(row);
                    assert(out@.map_values(|r: Vec<FieldValue>| row_view(r)) =~= before.map_values(
                        |r: Vec<FieldValue>| row_view(r),
                    ).push(order[i as int]));
                }
                i = i + 1;
            }
            assert(order.take(order.len() as int) =~= order);
            Answer::Done(Ok(out))
        },
    }
}

/// The row keys of `rows`, each once, in the order the map is walked.
fn key_order(rows: &DbcRows) -> (keys: Vec<u32>)
    ensures
        keys@.len() <= usize::MAX,
        keys@.no_duplicates(),
        keys@.to_set() == rows@.dom(),
{
    let mut keys: Vec<u32> = Vec::new();
    for k in it: rows.keys()
        invariant
            keys@ == it.seq().take(it.index() as int).map_values(|k: &u32| *k),
    {
        keys.push(*k);
    }
    proof {
        let rem = spec_keys_iter(rows).remaining();
        assert(keys@ =~= rem.unref());
        assert(keys@.to_set() =~= rows@.dom());
    }
    proof {
        assert(keys@.len() <= usize::MAX) by {
            assert(keys@.len() == keys.len());
        }
    }
    keys
}

/// A non-negative integer cell as a key component.
pub open spec fn cell_id(v: FieldValueView) -> Option<u32> {
    match v {
        FieldValueView::Int32(n) => if n >= 0 {
            Some(n as u32)
        } else {
            None
        },
        FieldValueView::UInt32(n) => Some(n),
        _ => None,
    }
}

/// `class * 1000 + sub`, wrapped to 32 bits.
pub open spec fn wrapping_key(class: u32, sub: u32) -> u32 {
    ((class as int * 1000 + sub as int) % 0x1_0000_0000) as u32
}

/// The composite key of an `ItemSubClass` row: class and subclass from its
/// first two cells, when both are non-negative integers.
pub open spec fn composite_key(f: Seq<FieldValueView>) -> Option<u32> {
    if f.len() < 2 {
        None
    } else {
        match (cell_id(f[0]), cell_id(f[1])) {
            (Some(c), Some(s)) => Some(wrapping_key(c, s)),
            _ => None,
        }
    }
}

/// The rows of `m` taken in `order`, each put under its composite key (a
/// later row replaces an earlier one with the same key); rows without a
/// composite key are dropped.
pub open spec fn rekey_fold(m: Map<u32, Seq<FieldValueView>>, order: Seq<u32>) -> Map<
    u32,
    Seq<FieldValueView>,
>
    decreases order.len(),
{
    if order.len() == 0 {
        Map::empty()
    } else {
        let prev = rekey_fold(m, order.drop_last());
        let f = m[order.last()];
        match composite_key(f) {
            Some(k) => prev.insert(k, f),
            None => prev,
        }
    }
}

/// `order` lists every key of `m` exactly once.
pub open spec fn is_key_order(order: Seq<u32>, m: Map<u32, Seq<FieldValueView>>) -> bool {
    &&& order.no_duplicates()
    &&& order.to_set() == m.dom()
}

fn cell_id_of(v: &FieldValue) -> (r: Option<u32>)
    ensures
        r == cell_id(v@),
{
    match v {
        FieldValue::Int32(n) => if *n >= 0 {
            Some(*n as u32)
        } else {
            None
        },
        FieldValue::UInt32(n) => Some(*n),
        _ => None,
    }
}

fn composite_key_of(f: &Vec<FieldValue>) -> (r: Option<u32>)
    ensures
        r == composite_key(row_view(*f)),
{
    if f.len() < 2 {
        return None;
    }
    match (cell_id_of(&f[0]), cell_id_of(&f[1])) {
        (Some(c), Some(s)) => {
            let wide: u64 = (c as u64) * 1000 + (s as u64);
            Some((wide % 0x1_0000_0000) as u32)
        },
        _ => None,
    }
}

/// Re-keys `ItemSubClass` rows by their composite key.
fn rekey_item_sub_class(rows: DbcRows) -> (r: DbcRows)
    ensures
        exists|order: Seq<u32>|
            is_key_order(order, rows_view(rows@)) && rows_view(r@) == rekey_fold(
                rows_view(rows@),
                order,
            ),
{
    let keys = key_order(&rows);
    let ghost order = keys@;
    let ghost m0 = rows_view(rows@);
    let mut rest = rows;
    let mut out: DbcRows = HashMap::new();
    let mut i: usize = 0;
    while i < keys.len()
        invariant
            order == keys@,
            order.no_duplicates(),
            order.to_set() == m0.dom(),
            i <= keys@.len(),
            forall|q: u32| #[trigger]
                rest@.contains_key(q) <==> (m0.contains_key(q) && !order.take(i as int).contains(q)),
            forall|q: u32| #[trigger] rest@.contains_key(q) ==> row_view(rest@[q]) == m0[q],
            rows_view(out@) == rekey_fold(m0, order.take(i as int)),
        decreases keys@.len() - i,
    {
        let k = keys[i];
        assert(order.to_set().contains(k));
        assert(!order.take(i as int).contains(k));
        assert(rest@.contains_key(k));
        assert(order.take(i + 1).drop_last() =~= order.take(i as int));
        assert(order.take(i + 1).last() == k);
        let removed = rest.remove(&k);
        match removed {
            Some(fields) => {
                assert(row_view(fields) == m0[k]);
                match composite_key_of(&fields) {
                    Some(ck) => {
                        let ghost out_before = out@;
                        out.insert(ck, fields);
                        assert(rows_view(out@) =~= rows_view(out_before).insert(ck, m0[k]));
                    },
                    None => {},
                }
            },
            None => {
                assert(false);
            },
        }
        assert forall|q: u32| #[trigger]
            rest@.contains_key(q) <==> (m0.contains_key(q) && !order.take(i + 1).contains(q)) by {
            if order.take(i + 1).contains(q) && !order.take(i as int).contains(q) {
                assert(q == k);
            }
            if order.take(i as int).contains(q) {
                let w = choose|w: int| 0 <= w < i && order.take(i as int)[w] == q;
                assert(order.take(i + 1)[w] == q);
            }
        }
        i = i + 1;
    }
    assert(order.take(order.len() as int) =~= order);
    out
}

/// `state` is a loaded table with the rows `m`, re-keyed by composite key
/// (in some walk order of `m`) when `rekeyed`.
pub open spec fn holds_rows(state: TableState, m: Map<u32, Seq<FieldValueView>>, rekeyed: bool) -> bool {
    match state {
        TableState::Loaded(t) => if rekeyed {
            exists|order: Seq<u32>| is_key_order(order, m) && rows_view(t.rows()) == rekey_fold(m, order)
        } else {
            rows_view(t.rows()) == m
        },
        _ => false,
    }
}

/// Stores the result of reading the table at registry position `index`:
/// `None` when no archive holds its file, else the file's bytes, which are
/// parsed with the table's layout (and re-keyed by composite key for
/// `ItemSubClass`). A table that is absent or unparsable is cached as missing.
pub fn complete_load(
    store: &mut DbcStore,
    registry: &SchemaRegistry,
    index: usize,
    data: Option<Vec<u8>>,
) -> (r: LoadReport)
    requires
        old(store).wf(),
        index < known_dbc_names().len(),
        old(store).tables()[index as int] is Unloaded,
    ensures
        final(store).wf(),
        final(store).mpq_list() == old(store).mpq_list(),
        forall|j: int|
            0 <= j < old(store).tables().len() && j != index ==> #[trigger] final(store).tables()[j]
                == old(store).tables()[j],
        match data {
            None => final(store).tables()[index as int] is Missing && r == LoadReport::NotInArchives,
            Some(bytes) => match spec_parse_wdbc(
                bytes@,
                layout_types(known_layouts()[index as int]),
            ) {
                Err(e) => final(store).tables()[index as int] is Missing && r
                    == LoadReport::ParseFailed(e),
                Ok(m) => r == LoadReport::Loaded && holds_rows(
                    final(store).tables()[index as int],
                    m,
                    index == ITEM_SUB_CLASS_INDEX,
                ),
            },
        },
{
    let schema = registry.schema_at(index);
    assert(schema_types(schema@) =~= layout_types(known_layouts()[index as int]));
    let (state, report) = match data {
        None => (TableState::Missing, LoadReport::NotInArchives),
        Some(bytes) => match parse_wdbc(bytes.as_slice(), schema.as_slice()) {
            Err(e) => (TableState::Missing, LoadReport::ParseFailed(e)),
            Ok(rows) => {
                let rows = if index == ITEM_SUB_CLASS_INDEX {
                    rekey_item_sub_class(rows)
                } else {
                    rows
                };
                let keys = key_order(&rows);
                (TableState::Loaded(Table { rows, keys }), LoadReport::Loaded)
            },
        },
    };
    store.tables.set(index, state);
    report
}

/// A table that has been read (found or not) is never asked to be read again:
/// every query on it is answered from the cache.
pub proof fn lemma_read_tables_are_answered(store: DbcStore, name: Seq<char>, id: u32, index: usize)
    requires
        store.wf(),
        dbc_index(name) matches Some(i) && !(store.tables()[i] is Unloaded),
    ensures
        spec_get_record(store, name, id) is Done,
        spec_get_all_records(store, name) is Done,
        spec_get_record_count(store, name) is Done,
        spec_get_record_by_index(store, name, index) is Done,
{
}

/// What a lookup by key gives back is what the loaded file held under that key.
pub proof fn lemma_lookup_returns_parsed_row(
    store: DbcStore,
    name: Seq<char>,
    id: u32,
    m: Map<u32, Seq<FieldValueView>>,
)
    requires
        store.wf(),
        dbc_index(name) matches Some(i) && holds_rows(store.tables()[i], m, false),
    ensures
        spec_get_record(store, name, id) == Answer::Done(
            Ok::<Option<Seq<FieldValueView>>, LookupError>(
                if m.contains_key(id) {
                    Some(m[id])
                } else {
                    None
                },
            ),
        ),
{
    let i = dbc_index(name).unwrap();
    if let TableState::Loaded(t) = store.tables()[i] {
        assert(m.contains_key(id) == t.rows().contains_key(id));
        if m.contains_key(id) {
            assert(m[id] == rows_view(t.rows())[id]);
        }
    }
}

/// The row count, the list of all rows, and the rows by 1-based position agree:
/// the list has as many rows as the count, and position `k` gives its `k`-th row.
pub proof fn lemma_count_index_all_agree(store: DbcStore, name: Seq<char>, k: usize)
    requires
        store.wf(),
        dbc_index(name) matches Some(i) && store.tables()[i] is Loaded,
    ensures
        spec_get_record_count(store, name) matches Answer::Done(Ok(n)) && spec_get_all_records(
            store,
            name,
        ) matches Answer::Done(Ok(all)) && all.len() == n && spec_get_record_by_index(store, name, k)
            == Answer::Done(
            Ok::<Option<Seq<FieldValueView>>, LookupError>(
                if 1 <= k <= n {
                    Some(all[k - 1])
                } else {
                    None
                },
            ),
        ),
{
    known_dbc_names().index_of_first_ensures(name);
    let i = dbc_index(name).unwrap();
    if let TableState::Loaded(t) = store.tables()[i] {
        assert(state_wf(store.tables()[i]));
        lemma_table_len(t);
    }
}

/// Every row that a lookup by key finds is listed among all rows of the table.
pub proof fn lemma_found_rows_are_listed(store: DbcStore, name: Seq<char>, id: u32)
    requires
        store.wf(),
        spec_get_record(store, name, id) matches Answer::Done(Ok(Some(_))),
    ensures
        spec_get_record(store, name, id) matches Answer::Done(Ok(Some(row))) && spec_get_all_records(
            store,
            name,
        ) matches Answer::Done(Ok(all)) && all.contains(row),
{
    known_dbc_names().index_of_first_ensures(name);
    let i = dbc_index(name).unwrap();
    if let TableState::Loaded(t) = store.tables()[i] {
        assert(state_wf(store.tables()[i]));
        assert(t.keys().to_set().contains(id));
        let j = choose|j: int| 0 <= j < t.keys().len() && t.keys()[j] == id;
        assert(table_order(t)[j] == row_view(t.rows()[id]));
    }
}

proof fn lemma_rekey_fold_keys(m: Map<u32, Seq<FieldValueView>>, order: Seq<u32>)
    ensures
        forall|ck: u32| #[trigger]
            rekey_fold(m, order).contains_key(ck) ==> composite_key(rekey_fold(m, order)[ck])
                == Some(ck),
        forall|j: int|
            0 <= j < order.len() && composite_key(#[trigger] m[order[j]]) is Some
                ==> rekey_fold(m, order).contains_key(composite_key(m[order[j]]).unwrap()),
    decreases order.len(),
{
    if order.len() > 0 {
        let prev = order.drop_last();
        lemma_rekey_fold_keys(m, prev);
        assert forall|j: int|
            0 <= j < order.len() && composite_key(#[trigger] m[order[j]]) is Some
                implies rekey_fold(m, order).contains_key(composite_key(m[order[j]]).unwrap()) by {
            if j < order.len() - 1 {
                assert(order[j] == prev[j]);
            }
        }
    }
}

proof fn lemma_rekey_fold_values(m: Map<u32, Seq<FieldValueView>>, order: Seq<u32>)
    ensures
        forall|ck: u32| #[trigger]
            rekey_fold(m, order).contains_key(ck) ==> exists|j: int|
                0 <= j < order.len() && rekey_fold(m, order)[ck] == m[order[j]],
    decreases order.len(),
{
    if order.len() > 0 {
        let prev = order.drop_last();
        lemma_rekey_fold_values(m, prev);
        assert forall|ck: u32| #[trigger] rekey_fold(m, order).contains_key(ck) implies exists|j: int|
            0 <= j < order.len() && rekey_fold(m, order)[ck] == m[order[j]] by {
            if rekey_fold(m, prev).contains_key(ck) && rekey_fold(m, order)[ck] == rekey_fold(m, prev)[ck] {
                let j = choose|j: int| 0 <= j < prev.len() && rekey_fold(m, prev)[ck] == m[prev[j]];
                assert(order[j] == prev[j]);
            } else {
                assert(order[order.len() - 1] == order.last());
            }
        }
    }
}

/// `ItemSubClass` starts with its `Int32` columns `classId` and `subclassId`,
/// the two cells its composite key is made of.
pub proof fn lemma_item_sub_class_columns()
    ensures
        known_layouts()[ITEM_SUB_CLASS_INDEX as int] == item_sub_class_layout(),
        item_sub_class_layout()[0] == ("classId"@, FieldType::Int32),
        item_sub_class_layout()[1] == ("subclassId"@, FieldType::Int32),
{
}

/// In the `ItemSubClass` table, the key that a lookup by class and subclass
/// uses finds a row whenever the file has a row with those ids, and every row
/// found carries that same composite key.
pub proof fn lemma_item_sub_class_lookup(
    store: DbcStore,
    name: Seq<char>,
    d: Seq<u8>,
    m: Map<u32, Seq<FieldValueView>>,
    class_id: u32,
    subclass_id: u32,
)
    requires
        store.wf(),
        dbc_index(name) == Some(ITEM_SUB_CLASS_INDEX as int),
        spec_parse_wdbc(d, layout_types(item_sub_class_layout())) == Ok::<
            Map<u32, Seq<FieldValueView>>,
            DbcError,
        >(m),
        holds_rows(store.tables()[ITEM_SUB_CLASS_INDEX as int], m, true),
        spec_item_sub_class_key(class_id, subclass_id) is Some,
    ensures
        spec_item_sub_class_key(class_id, subclass_id) == Some(wrapping_key(class_id, subclass_id)),
        (exists|k0: u32|
            m.contains_key(k0) && m[k0].len() >= 2 && cell_id(m[k0][0]) == Some(class_id) && cell_id(
                m[k0][1],
            ) == Some(subclass_id)) ==> spec_get_record(
            store,
            name,
            wrapping_key(class_id, subclass_id),
        ) matches Answer::Done(Ok(Some(_))),
        spec_get_record(store, name, wrapping_key(class_id, subclass_id)) matches Answer::Done(
            Ok(Some(row)),
        ) ==> composite_key(row) == Some(wrapping_key(class_id, subclass_id)) && (row[0] matches FieldValueView::Int32(c)
            && row[1] matches FieldValueView::Int32(s) && c >= 0 && s >= 0 && wrapping_key(
            c as u32,
            s as u32,
        ) == wrapping_key(class_id, subclass_id)),
{
    let key = spec_item_sub_class_key(class_id, subclass_id).unwrap();
    assert(class_id * 1000 + subclass_id < 0x1_0000_0000);
    assert(key == wrapping_key(class_id, subclass_id));
    if let TableState::Loaded(t) = store.tables()[ITEM_SUB_CLASS_INDEX as int] {
        let order = choose|order: Seq<u32>|
            is_key_order(order, m) && rows_view(t.rows()) == rekey_fold(m, order);
        lemma_rekey_fold_keys(m, order);
        if exists|k0: u32|
            m.contains_key(k0) && m[k0].len() >= 2 && cell_id(m[k0][0]) == Some(class_id)
                && cell_id(m[k0][1]) == Some(subclass_id) {
            let k0 = choose|k0: u32|
                m.contains_key(k0) && m[k0].len() >= 2 && cell_id(m[k0][0]) == Some(class_id)
                    && cell_id(m[k0][1]) == Some(subclass_id);
            assert(composite_key(m[k0]) == Some(key));
            assert(order.to_set().contains(k0));
            let j = choose|j: int| 0 <= j < order.len() && order[j] == k0;
            assert(composite_key(m[order[j]]) is Some);
            assert(rekey_fold(m, order).contains_key(key));
        }
        if t.rows().contains_key(key) {
            let row = row_view(t.rows()[key]);
            assert(rows_view(t.rows())[key] == row);
            lemma_rekey_fold_values(m, order);
            lemma_rows_are_records(d, layout_types(item_sub_class_layout()), m);
            assert(rekey_fold(m, order).contains_key(key));
            let j = choose|j: int| 0 <= j < order.len() && rekey_fold(m, order)[key] == m[order[j]];
            assert(order.to_set().contains(order[j]));
            assert(m.contains_key(order[j]));
            let r = choose|r: int|
                0 <= r < hdr_record_count(d) && m[order[j]] == spec_record(
                    d,
                    layout_types(item_sub_class_layout()),
                    r,
                );
            assert(row == spec_record(d, layout_types(item_sub_class_layout()), r));
            assert(layout_types(item_sub_class_layout())[0] == FieldType::Int32);
            assert(layout_types(item_sub_class_layout())[1] == FieldType::Int32);
        }
    }
}


/// Whether the row `r` holds exactly `target` in its cell `column`: the same
/// variant with the same value, a text cell with the same characters, a
/// `Float32` cell with the same bits.
pub open spec fn holds_at(column: int, target: FieldValueView) -> spec_fn(Seq<FieldValueView>) -> bool {
    |r: Seq<FieldValueView>| 0 <= column < r.len() && r[column] == target
}

proof fn lemma_rows_matching_filter(rows: Seq<Seq<FieldValueView>>, column: int, target: FieldValueView)
    ensures
        rows_matching(rows, column, target) == rows.filter(holds_at(column, target)),
    decreases rows.len(),
{
    reveal(Seq::filter);
    if rows.len() > 0 {
        lemma_rows_matching_filter(rows.drop_last(), column, target);
    }
}

/// On a loaded table, a search returns exactly the rows of the table, in walk
/// order, whose cell `column` equals `target`: each row it returns holds the
/// target there and is a row of the table, and each row of the table that
/// holds it is returned. A text target matches only a cell with the very same
/// characters.
pub proof fn lemma_find_records_are_exact_matches(
    store: DbcStore,
    name: Seq<char>,
    column: int,
    target: FieldValueView,
)
    requires
        store.wf(),
        dbc_index(name) matches Some(i) && store.tables()[i] is Loaded,
    ensures
        spec_find_records(store, name, column, target) matches Answer::Done(Ok(found))
            && spec_get_all_records(store, name) matches Answer::Done(Ok(all)) && found == all.filter(
            holds_at(column, target),
        ) && (forall|r: Seq<FieldValueView>|
            found.contains(r) <==> (all.contains(r) && 0 <= column < r.len() && r[column]
                == target)),
{
    broadcast use vstd::seq_lib::group_filter_ensures;

    known_dbc_names().index_of_first_ensures(name);
    let i = dbc_index(name).unwrap();
    if let TableState::Loaded(t) = store.tables()[i] {
        let all = table_order(t);
        let found = rows_matching(all, column, target);
        lemma_rows_matching_filter(all, column, target);
        assert forall|r: Seq<FieldValueView>|
            found.contains(r) <==> (all.contains(r) && 0 <= column < r.len() && r[column]
                == target) by {
            if found.contains(r) {
                let p = choose|p: int| 0 <= p < found.len() && found[p] == r;
                assert(holds_at(column, target)(found[p]));
                all.lemma_filter_contains_rev(holds_at(column, target), r);
            }
            if all.contains(r) && 0 <= column < r.len() && r[column] == target {
                let q = choose|q: int| 0 <= q < all.len() && all[q] == r;
                assert(holds_at(column, target)(all[q]));
            }
        }
    }
}

} // verus!

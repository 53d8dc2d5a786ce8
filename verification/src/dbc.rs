//! The WDBC table format: a fixed header, fixed-size records of 32-bit
//! little-endian cells, and a block of NUL-terminated strings.

use std::collections::HashMap;
use vstd::prelude::*;
use vstd::utf8::{valid_utf8, decode_utf8};

verus! {

broadcast use vstd::std_specs::hash::group_hash_axioms;

/// The type of one column of a table, as declared by its schema.
#[derive(Debug, Clone, Copy, PartialEq, Eq, Structural)]
pub enum FieldType {
    Int32,
    UInt32,
    Float32,
    String,
}

/// One decoded cell. A `Float32` cell keeps the raw IEEE-754 bits of the value.
#[derive(Debug, Clone, PartialEq)]
pub enum FieldValue {
    Int32(i32),
    UInt32(u32),
    Float32(u32),
    String(String),
}

/// The mathematical value of a cell: strings by their characters.
pub enum FieldValueView {
    Int32(i32),
    UInt32(u32),
    Float32(u32),
    String(Seq<char>),
}

impl View for FieldValue {
    type V = FieldValueView;

    open spec fn view(&self) -> FieldValueView {
        match self {
            FieldValue::Int32(n) => FieldValueView::Int32(*n),
            FieldValue::UInt32(n) => FieldValueView::UInt32(*n),
            FieldValue::Float32(b) => FieldValueView::Float32(*b),
            FieldValue::String(s) => FieldValueView::String(s@),
        }
    }
}

/// A parsed table: row key to the cells of that row.
pub type DbcRows = HashMap<u32, Vec<FieldValue>>;

/// Why a WDBC blob was rejected.
#[derive(Debug, Clone, Copy, PartialEq, Eq, Structural)]
pub enum DbcError {
    /// Fewer than the 20 bytes of the header.
    TooShort { len: usize },
    /// The first four bytes are not `WDBC`; they are given as a little-endian word.
    BadSignature { signature: u32 },
    /// The header announces more bytes than the blob holds.
    Truncated { expected: u64, actual: usize },
    /// `record_size` is not four bytes per field.
    RecordSizeMismatch { record_size: u32, field_count: u32 },
    /// The header announces no field at all.
    ZeroFields,
    /// The schema does not have as many fields as the header.
    SchemaMismatch { schema_fields: usize, dbc_fields: u32 },
    /// A string cell points outside the string block.
    StringOffsetOutOfBounds { offset: u32, block_size: u32 },
}

/// Little-endian `u32` stored at `d[off .. off + 4]`.
pub open spec fn le_u32(d: Seq<u8>, off: int) -> u32 {
    (d[off] as int + d[off + 1] as int * 256 + d[off + 2] as int * 65536 + d[off + 3] as int
        * 16777216) as u32
}

pub open spec fn hdr_record_count(d: Seq<u8>) -> u32 {
    le_u32(d, 4)
}

pub open spec fn hdr_field_count(d: Seq<u8>) -> u32 {
    le_u32(d, 8)
}

pub open spec fn hdr_record_size(d: Seq<u8>) -> u32 {
    le_u32(d, 12)
}

pub open spec fn hdr_string_block_size(d: Seq<u8>) -> u32 {
    le_u32(d, 16)
}

/// End of the record area (start of the string block).
pub open spec fn records_end(d: Seq<u8>) -> int {
    20 + hdr_record_count(d) * hdr_record_size(d)
}

/// End of the string block.
pub open spec fn string_end(d: Seq<u8>) -> int {
    records_end(d) + hdr_string_block_size(d)
}

pub open spec fn string_block(d: Seq<u8>) -> Seq<u8> {
    d.subrange(records_end(d), string_end(d))
}

/// The first header check that fails, in the order the format is checked.
pub open spec fn spec_header_error(d: Seq<u8>, schema_fields: nat) -> Option<DbcError> {
    if d.len() < 20 {
        Some(DbcError::TooShort { len: d.len() as usize })
    } else if !(d[0] == 87 && d[1] == 68 && d[2] == 66 && d[3] == 67) {
        Some(DbcError::BadSignature { signature: le_u32(d, 0) })
    } else if d.len() < string_end(d) {
        Some(DbcError::Truncated { expected: string_end(d) as u64, actual: d.len() as usize })
    } else if hdr_record_size(d) != hdr_field_count(d) * 4 {
        Some(
            DbcError::RecordSizeMismatch {
                record_size: hdr_record_size(d),
                field_count: hdr_field_count(d),
            },
        )
    } else if hdr_field_count(d) == 0 {
        Some(DbcError::ZeroFields)
    } else if schema_fields != hdr_field_count(d) {
        Some(
            DbcError::SchemaMismatch {
                schema_fields: schema_fields as usize,
                dbc_fields: hdr_field_count(d),
            },
        )
    } else {
        None
    }
}

/// Index of the first NUL byte of `block` at or after `p`, or `block.len()`.
pub open spec fn nul_end(block: Seq<u8>, p: int) -> int
    decreases block.len() - p,
{
    if p >= block.len() {
        block.len() as int
    } else if block[p] == 0 {
        p
    } else {
        nul_end(block, p + 1)
    }
}

/// The string that starts at `off` in the string block: the bytes up to the
/// next NUL (or the end of the block), decoded as UTF-8, or empty when they
/// are not valid UTF-8.
pub open spec fn spec_string_at(block: Seq<u8>, off: int) -> Seq<char> {
    let bytes = block.subrange(off, nul_end(block, off));
    if valid_utf8(bytes) {
        decode_utf8(bytes)
    } else {
        Seq::empty()
    }
}

/// Offset of cell `j` of record `i`.
pub open spec fn cell_offset(d: Seq<u8>, i: int, j: int) -> int {
    20 + i * hdr_record_size(d) + 4 * j
}

pub open spec fn spec_field(t: FieldType, raw: u32, block: Seq<u8>) -> FieldValueView {
    match t {
        FieldType::Int32 => FieldValueView::Int32(raw as i32),
        FieldType::UInt32 => FieldValueView::UInt32(raw),
        FieldType::Float32 => FieldValueView::Float32(raw),
        FieldType::String => FieldValueView::String(spec_string_at(block, raw as int)),
    }
}

/// The decoded cells of record `i`.
pub open spec fn spec_record(d: Seq<u8>, types: Seq<FieldType>, i: int) -> Seq<FieldValueView> {
    Seq::new(
        types.len(),
        |j: int| spec_field(types[j], le_u32(d, cell_offset(d, i, j)), string_block(d)),
    )
}

/// Cell `j` of record `i` is a string whose offset lies outside the string block.
pub open spec fn bad_string_cell(d: Seq<u8>, types: Seq<FieldType>, i: int, j: int) -> bool {
    types[j] == FieldType::String && le_u32(d, cell_offset(d, i, j)) >= hdr_string_block_size(d)
}

/// Offset held by the first bad string cell among the fields `[0, m)` of record `i`.
pub open spec fn first_bad_in_record(d: Seq<u8>, types: Seq<FieldType>, i: int, m: nat) -> Option<
    u32,
>
    decreases m,
{
    if m == 0 {
        None
    } else {
        match first_bad_in_record(d, types, i, (m - 1) as nat) {
            Some(x) => Some(x),
            None => if bad_string_cell(d, types, i, m - 1) {
                Some(le_u32(d, cell_offset(d, i, m - 1)))
            } else {
                None
            },
        }
    }
}

/// Offset held by the first bad string cell among the records `[0, n)`.
pub open spec fn first_bad_upto(d: Seq<u8>, types: Seq<FieldType>, n: nat) -> Option<u32>
    decreases n,
{
    if n == 0 {
        None
    } else {
        match first_bad_upto(d, types, (n - 1) as nat) {
            Some(x) => Some(x),
            None => first_bad_in_record(d, types, n - 1, types.len()),
        }
    }
}

/// The identifier of a row: its first cell when that is an integer, else its index.
pub open spec fn row_id(f: Seq<FieldValueView>, i: int) -> u32 {
    match f[0] {
        FieldValueView::Int32(n) => n as u32,
        FieldValueView::UInt32(n) => n,
        _ => i as u32,
    }
}

/// The key record `i` goes under when the keys `taken` are in use: its
/// identifier when that is free, else its index `i`.
pub open spec fn key_for(taken: Set<u32>, id: u32, i: nat) -> u32 {
    if taken.contains(id) {
        i as u32
    } else {
        id
    }
}

/// The table after inserting the records `[0, n)`: each record goes under
/// [`key_for`] the keys already in use, replacing the row stored there if its
/// row index is in use too.
pub open spec fn spec_rows_upto(d: Seq<u8>, types: Seq<FieldType>, n: nat) -> Map<
    u32,
    Seq<FieldValueView>,
>
    decreases n,
{
    if n == 0 {
        Map::empty()
    } else {
        let m = spec_rows_upto(d, types, (n - 1) as nat);
        let f = spec_record(d, types, n - 1);
        m.insert(key_for(m.dom(), row_id(f, n - 1), (n - 1) as nat), f)
    }
}

/// The key under which record `i` is stored.
pub open spec fn record_key(d: Seq<u8>, types: Seq<FieldType>, i: nat) -> u32 {
    key_for(
        spec_rows_upto(d, types, i).dom(),
        row_id(spec_record(d, types, i as int), i as int),
        i,
    )
}

/// Whether none of the records `[0, n)` lands on a key that is already in use
/// when it is inserted, so that none replaces an earlier one.
pub open spec fn keys_never_clash(d: Seq<u8>, types: Seq<FieldType>, n: nat) -> bool {
    forall|i: nat|
        i < n ==> !spec_rows_upto(d, types, i).contains_key(#[trigger] record_key(d, types, i))
}

/// The result of parsing the blob `d` against the column types `types`.
pub open spec fn spec_parse_wdbc(d: Seq<u8>, types: Seq<FieldType>) -> Result<
    Map<u32, Seq<FieldValueView>>,
    DbcError,
> {
    match spec_header_error(d, types.len()) {
        Some(e) => Err(e),
        None => match first_bad_upto(d, types, hdr_record_count(d) as nat) {
            Some(off) => Err(
                DbcError::StringOffsetOutOfBounds {
                    offset: off,
                    block_size: hdr_string_block_size(d),
                },
            ),
            None => Ok(spec_rows_upto(d, types, hdr_record_count(d) as nat)),
        },
    }
}

/// The column types of a schema.
pub open spec fn schema_types(schema: Seq<(&str, FieldType)>) -> Seq<FieldType> {
    schema.map_values(|p: (&str, FieldType)| p.1)
}

pub open spec fn row_view(v: Vec<FieldValue>) -> Seq<FieldValueView> {
    v@.map_values(|f: FieldValue| f@)
}

/// The mathematical value of a parsed table.
pub open spec fn rows_view(m: Map<u32, Vec<FieldValue>>) -> Map<u32, Seq<FieldValueView>> {
    m.map_values(|v: Vec<FieldValue>| row_view(v))
}

fn read_u32_le(d: &[u8], off: usize) -> (r: u32)
    requires
        off + 4 <= d@.len(),
    ensures
        r == le_u32(d@, off as int),
{
    (d[off] as u32) + (d[off + 1] as u32) * 256 + (d[off + 2] as u32) * 65536 + (d[off + 3] as u32)
        * 16777216
}

/// `std::str::from_utf8`, with its error dropped: `Some` exactly when the bytes
/// are valid UTF-8, and then the characters they encode.
#[verifier::external_body]
fn str_from_utf8(bytes: &[u8]) -> (r: Option<&str>)
    ensures
        r is Some <==> valid_utf8(bytes@),
        r matches Some(s) ==> s@ == decode_utf8(bytes@),
{
    std::str::from_utf8(bytes).ok()
}

proof fn lemma_first_bad_in_record_stable(d: Seq<u8>, types: Seq<FieldType>, i: int, m: nat, m2: nat)
    requires
        m <= m2,
        first_bad_in_record(d, types, i, m) is Some,
    ensures
        first_bad_in_record(d, types, i, m2) == first_bad_in_record(d, types, i, m),
    decreases m2,
{
    if m2 > m {
        lemma_first_bad_in_record_stable(d, types, i, m, (m2 - 1) as nat);
    }
}

proof fn lemma_first_bad_upto_stable(d: Seq<u8>, types: Seq<FieldType>, n: nat, n2: nat)
    requires
        n <= n2,
        first_bad_upto(d, types, n) is Some,
    ensures
        first_bad_upto(d, types, n2) == first_bad_upto(d, types, n),
    decreases n2,
{
    if n2 > n {
        lemma_first_bad_upto_stable(d, types, n, (n2 - 1) as nat);
    }
}

proof fn lemma_cell_in_records(rc: int, rs: int, fc: int, i: int, j: int)
    requires
        0 <= i < rc,
        0 <= j < fc,
        rs == 4 * fc,
    ensures
        i * rs + 4 * j + 4 <= rc * rs,
        0 <= i * rs,
{
    assert((i + 1) * rs <= rc * rs) by (nonlinear_arith)
        requires
            i + 1 <= rc,
            rs >= 0,
    ;
    assert((i + 1) * rs == i * rs + rs) by (nonlinear_arith);
    assert(0 <= i * rs) by (nonlinear_arith)
        requires
            0 <= i,
            rs >= 0,
    ;
}


proof fn lemma_rows_upto_len(d: Seq<u8>, types: Seq<FieldType>, n: nat)
    requires
        keys_never_clash(d, types, n),
    ensures
        spec_rows_upto(d, types, n).dom().finite(),
        spec_rows_upto(d, types, n).len() == n,
    decreases n,
{
    broadcast use vstd::set::group_set_axioms;

    if n > 0 {
        let p = (n - 1) as nat;
        lemma_rows_upto_len(d, types, p);
        assert(!spec_rows_upto(d, types, p).contains_key(record_key(d, types, p)));
    }
}

/// Parses a WDBC binary blob according to the given schema.
/// Returns a map from row ID (first field, interpreted as u32) to field values;
/// a row whose ID is already taken goes under its row index instead, so that
/// tables whose first column repeats (such as ItemSubClass, keyed by class)
/// keep their rows. Should that index be taken as well, the later row
/// replaces the one stored there.
pub fn parse_wdbc(data: &[u8], schema: &[(&str, FieldType)]) -> (r: Result<DbcRows, DbcError>)
    ensures
        match r {
            Ok(rows) => spec_parse_wdbc(data@, schema_types(schema@)) == Ok::<
                Map<u32, Seq<FieldValueView>>,
                DbcError,
            >(rows_view(rows@)),
            Err(e) => spec_parse_wdbc(data@, schema_types(schema@)) == Err::<
                Map<u32, Seq<FieldValueView>>,
                DbcError,
            >(e),
        },
{
    let ghost d = data@;
    let ghost types = schema_types(schema@);
    if data.len() < 20 {
        return Err(DbcError::TooShort { len: data.len() });
    }
    if !(data[0] == 87 && data[1] == 68 && data[2] == 66 && data[3] == 67) {
        return Err(DbcError::BadSignature { signature: read_u32_le(data, 0) });
    }
    let record_count = read_u32_le(data, 4);
    let field_count = read_u32_le(data, 8);
    let record_size = read_u32_le(data, 12);
    let string_block_size = read_u32_le(data, 16);
    assert((record_count as int) * (record_size as int) <= 0xffff_ffff * 0xffff_ffff) by (nonlinear_arith)
        requires
            record_count <= 0xffff_ffff,
            record_size <= 0xffff_ffff,
    ;
    assert((record_count as int) * (record_size as int) >= 0) by (nonlinear_arith);
    let rec_end: u64 = 20 + (record_count as u64) * (record_size as u64);
    let str_end: u64 = rec_end + string_block_size as u64;
    if (data.len() as u64) < str_end {
        return Err(DbcError::Truncated { expected: str_end, actual: data.len() });
    }
    if (record_size as u64) != (field_count as u64) * 4 {
        return Err(DbcError::RecordSizeMismatch { record_size, field_count });
    }
    if field_count == 0 {
        return Err(DbcError::ZeroFields);
    }
    if schema.len() as u64 != field_count as u64 {
        return Err(DbcError::SchemaMismatch { schema_fields: schema.len(), dbc_fields: field_count });
    }
    assert(spec_header_error(d, types.len()) is None);
    let rc = record_count as usize;
    let fc = field_count as usize;
    let rs = record_size as usize;
    let block_start = rec_end as usize;
    let block_len = string_block_size as usize;
    let block_end = str_end as usize;
    let ghost block = string_block(d);
    let mut rows: DbcRows = HashMap::with_capacity(rc);
    assert(rc <= u32::MAX);
    let mut i: usize = 0;
    while i < rc
        invariant
            d == data@,
            types == schema_types(schema@),
            types.len() == fc,
            spec_header_error(d, types.len()) is None,
            rc == hdr_record_count(d),
            fc == hdr_field_count(d),
            fc >= 1,
            rs == hdr_record_size(d),
            rs == 4 * fc,
            block_start == records_end(d),
            block_start == 20 + rc * rs,
            block_len == hdr_string_block_size(d),
            string_block_size == hdr_string_block_size(d),
            block_end == block_start + block_len,
            block_end <= data@.len(),
            block == string_block(d),
            i <= rc,
            rows_view(rows@) == spec_rows_upto(d, types, i as nat),
            first_bad_upto(d, types, i as nat) is None,
        decreases rc - i,
    {
        proof {
            lemma_cell_in_records(rc as int, rs as int, fc as int, i as int, 0);
        }
        let rec_start: usize = 20 + i * rs;
        let mut fields: Vec<FieldValue> = Vec::with_capacity(fc);
        let mut j: usize = 0;
        while j < fc
            invariant
                d == data@,
                types == schema_types(schema@),
                types.len() == fc,
                rc == hdr_record_count(d),
                fc == hdr_field_count(d),
                rs == hdr_record_size(d),
                rs == 4 * fc,
                block_start == records_end(d),
                block_start == 20 + rc * rs,
                block_len == hdr_string_block_size(d),
                string_block_size == hdr_string_block_size(d),
                block_end == block_start + block_len,
                block_end <= data@.len(),
                block == string_block(d),
                spec_header_error(d, types.len()) is None,
                i < rc,
                rec_start == 20 + i * rs,
                j <= fc,
                fields@.len() == j,
                forall|k: int| 0 <= k < j ==> (#[trigger] fields@[k])@ == spec_record(d, types, i as int)[k],
                first_bad_upto(d, types, i as nat) is None,
                first_bad_in_record(d, types, i as int, j as nat) is None,
            decreases fc - j,
        {
            proof {
                lemma_cell_in_records(rc as int, rs as int, fc as int, i as int, j as int);
            }
            let off: usize = rec_start + j * 4;
            assert(off == cell_offset(d, i as int, j as int));
            let raw = read_u32_le(data, off);
            let ftype = schema[j].1;
            assert(ftype == types[j as int]);
            let value = match ftype {
                FieldType::Int32 => FieldValue::Int32(#[verifier::truncate] (raw as i32)),
                FieldType::UInt32 => FieldValue::UInt32(raw),
                FieldType::Float32 => FieldValue::Float32(raw),
                FieldType::String => {
                    let o = raw as usize;
                    if o >= block_len {
                        proof {
                            assert(bad_string_cell(d, types, i as int, j as int));
                            assert(first_bad_in_record(d, types, i as int, (j + 1) as nat) == Some(raw));
                            lemma_first_bad_in_record_stable(d, types, i as int, (j + 1) as nat, fc as nat);
                            assert(first_bad_upto(d, types, (i + 1) as nat) == Some(raw));
                            lemma_first_bad_upto_stable(d, types, (i + 1) as nat, rc as nat);
                            assert(first_bad_upto(d, types, hdr_record_count(d) as nat) == Some(raw));
                        }
                        return Err(
                            DbcError::StringOffsetOutOfBounds {
                                offset: raw,
                                block_size: string_block_size,
                            },
                        );
                    }
                    let mut e: usize = block_start + o;
                    while e < block_end && data[e] != 0
                        invariant
                            d == data@,
                            block_start + o <= e <= block_end,
                            block_end <= data@.len(),
                            block_end == block_start + block_len,
                            block == d.subrange(block_start as int, block_end as int),
                            nul_end(block, o as int) == nul_end(block, e - block_start),
                        decreases block_end - e,
                    {
                        assert(block[e - block_start] == d[e as int]);
                        e = e + 1;
                    }
                    proof {
                        if e < block_end {
                            assert(block[e - block_start] == d[e as int]);
                        }
                    }
                    let bytes = vstd::slice::slice_subrange(data, block_start + o, e);
                    assert(bytes@ =~= block.subrange(o as int, nul_end(block, o as int)));
                    let text = match str_from_utf8(bytes) {
                        Some(t) => t.to_owned(),
                        None => String::new(),
                    };
                    FieldValue::String(text)
                },
            };
            assert(value@ == spec_record(d, types, i as int)[j as int]);
            fields.push(value);
            j = j + 1;
        }
        let ghost rec = spec_record(d, types, i as int);
        assert(row_view(fields) =~= rec);
        let id = match &fields[0] {
            FieldValue::Int32(n) => #[verifier::truncate] (*n as u32),
            FieldValue::UInt32(n) => *n,
            _ => i as u32,
        };
        assert(id == row_id(rec, i as int));
        let ghost taken = rows@.dom();
        assert(taken == spec_rows_upto(d, types, i as nat).dom());
        let key = if rows.contains_key(&id) {
            i as u32
        } else {
            id
        };
        assert(key == key_for(taken, id, i as nat));
        let ghost old_rows = rows@;
        rows.insert(key, fields);
        assert(rows_view(rows@) =~= rows_view(old_rows).insert(key, rec));
        i = i + 1;
    }
    Ok(rows)
}

impl FieldValue {
    /// An equal copy of this cell.
    pub fn duplicate(&self) -> (r: FieldValue)
        ensures
            r@ == self@,
    {
        match self {
            FieldValue::Int32(n) => FieldValue::Int32(*n),
            FieldValue::UInt32(n) => FieldValue::UInt32(*n),
            FieldValue::Float32(b) => FieldValue::Float32(*b),
            FieldValue::String(s) => FieldValue::String(s.clone()),
        }
    }

    /// Whether two cells hold the same value. `Float32` cells are compared by
    /// their bits, not as floats: a NaN matches an identical NaN, and `-0.0`
    /// does not match `0.0`.
    pub fn same_as(&self, other: &FieldValue) -> (r: bool)
        ensures
            r == (self@ == other@),
    {
        match (self, other) {
            (FieldValue::Int32(a), FieldValue::Int32(b)) => *a == *b,
            (FieldValue::UInt32(a), FieldValue::UInt32(b)) => *a == *b,
            (FieldValue::Float32(a), FieldValue::Float32(b)) => *a == *b,
            (FieldValue::String(a), FieldValue::String(b)) => *a == *b,
            _ => false,
        }
    }
}

/// An equal copy of a row.
pub fn duplicate_row(row: &Vec<FieldValue>) -> (r: Vec<FieldValue>)
    ensures
        row_view(r) == row_view(*row),
{
    let mut out: Vec<FieldValue> = Vec::with_capacity(row.len());
    let mut i: usize = 0;
    while i < row.len()
        invariant
            i <= row@.len(),
            out@.len() == i,
            forall|k: int| 0 <= k < i ==> (#[trigger] out@[k])@ == row@[k]@,
        decreases row@.len() - i,
    {
        out.push(row[i].duplicate());
        i = i + 1;
    }
    assert(row_view(out) =~= row_view(*row));
    out
}

proof fn lemma_rows_upto_shape(d: Seq<u8>, types: Seq<FieldType>, n: nat)
    ensures
        spec_rows_upto(d, types, n).dom().finite(),
        spec_rows_upto(d, types, n).len() <= n,
        forall|k: u32| #[trigger]
            spec_rows_upto(d, types, n).contains_key(k) ==> spec_rows_upto(d, types, n)[k].len()
                == types.len(),
    decreases n,
{
    broadcast use vstd::set::group_set_axioms;

    if n > 0 {
        lemma_rows_upto_shape(d, types, (n - 1) as nat);
    }
}

/// Every row of a parsed table has one cell per schema column, and the table
/// has at most as many rows as the header announces records.
pub proof fn lemma_parsed_rows_shape(d: Seq<u8>, types: Seq<FieldType>)
    requires
        spec_parse_wdbc(d, types) is Ok,
    ensures
        spec_parse_wdbc(d, types) matches Ok(m) && m.len() <= hdr_record_count(d) && forall|k: u32|
            #[trigger] m.contains_key(k) ==> m[k].len() == types.len(),
{
    lemma_rows_upto_shape(d, types, hdr_record_count(d) as nat);
}

proof fn lemma_rows_upto_distinct(d: Seq<u8>, types: Seq<FieldType>, n: nat)
    requires
        forall|i: int, j: int|
            0 <= i < j < n ==> row_id(spec_record(d, types, i), i) != row_id(
                spec_record(d, types, j),
                j,
            ),
    ensures
        spec_rows_upto(d, types, n).dom() == Set::new(
            |k: u32| exists|i: int| 0 <= i < n && row_id(spec_record(d, types, i), i) == k,
        ),
        spec_rows_upto(d, types, n).dom().finite(),
        spec_rows_upto(d, types, n).len() == n,
        forall|i: int|
            0 <= i < n ==> #[trigger] spec_rows_upto(d, types, n)[row_id(spec_record(d, types, i), i)]
                == spec_record(d, types, i),
    decreases n,
{
    broadcast use vstd::set::group_set_axioms;

    if n > 0 {
        lemma_rows_upto_distinct(d, types, (n - 1) as nat);
        let prev = spec_rows_upto(d, types, (n - 1) as nat);
        let id = row_id(spec_record(d, types, n - 1), n - 1);
        assert(!prev.contains_key(id));
        assert(spec_rows_upto(d, types, n).dom() =~= Set::new(
            |k: u32| exists|i: int| 0 <= i < n && row_id(spec_record(d, types, i), i) == k,
        )) by {
            assert forall|k: u32|
                spec_rows_upto(d, types, n).dom().contains(k) implies (exists|i: int|
                0 <= i < n && row_id(spec_record(d, types, i), i) == k) by {
                if k != id {
                    assert(prev.contains_key(k));
                }
            }
            assert forall|k: u32|
                (exists|i: int| 0 <= i < n && row_id(spec_record(d, types, i), i) == k) implies spec_rows_upto(d, types, n).dom().contains(k) by {
                let i = choose|i: int| 0 <= i < n && row_id(spec_record(d, types, i), i) == k;
                if i < n - 1 {
                    assert(prev.dom().contains(k));
                }
            }
        }
    }
}

/// When the records' identifiers are pairwise distinct, each record is stored
/// under its own identifier.
pub proof fn lemma_distinct_ids_are_keys(d: Seq<u8>, types: Seq<FieldType>)
    requires
        spec_parse_wdbc(d, types) is Ok,
        forall|i: int, j: int|
            0 <= i < j < hdr_record_count(d) ==> row_id(spec_record(d, types, i), i) != row_id(
                spec_record(d, types, j),
                j,
            ),
    ensures
        spec_parse_wdbc(d, types) matches Ok(m) && m.len() == hdr_record_count(d) && forall|i: int|
            0 <= i < hdr_record_count(d) ==> m.contains_key(row_id(spec_record(d, types, i), i))
                && #[trigger] m[row_id(spec_record(d, types, i), i)] == spec_record(d, types, i),
{
    lemma_rows_upto_distinct(d, types, hdr_record_count(d) as nat);
}

proof fn lemma_rows_upto_keeps(d: Seq<u8>, types: Seq<FieldType>, n: nat)
    requires
        keys_never_clash(d, types, n),
    ensures
        forall|i: nat|
            i < n ==> spec_rows_upto(d, types, n).contains_key(#[trigger] record_key(d, types, i))
                && spec_rows_upto(d, types, n)[record_key(d, types, i)] == spec_record(
                d,
                types,
                i as int,
            ),
        forall|i: nat, j: nat|
            i < j < n ==> #[trigger] record_key(d, types, i) != #[trigger] record_key(d, types, j),
    decreases n,
{
    if n > 0 {
        let p = (n - 1) as nat;
        lemma_rows_upto_keeps(d, types, p);
        assert(!spec_rows_upto(d, types, p).contains_key(record_key(d, types, p)));
    }
}

/// When no record lands on a key already in use (as when the identifiers are
/// distinct, or when each repeated one falls back on a free row index), a
/// parsed table keeps every record: record `i` is stored under
/// [`record_key`]`(i)`, no two records share a key, and the table has as many
/// rows as the header announces records.
pub proof fn lemma_parse_keeps_every_record(d: Seq<u8>, types: Seq<FieldType>)
    requires
        spec_parse_wdbc(d, types) is Ok,
        keys_never_clash(d, types, hdr_record_count(d) as nat),
    ensures
        spec_parse_wdbc(d, types) matches Ok(m) && m.len() == hdr_record_count(d) && (forall|i: nat|
            i < hdr_record_count(d) ==> m.contains_key(#[trigger] record_key(d, types, i))
                && m[record_key(d, types, i)] == spec_record(d, types, i as int)) && (forall|
            i: nat,
            j: nat,
        | i < j < hdr_record_count(d) ==> #[trigger] record_key(d, types, i) != #[trigger] record_key(
            d,
            types,
            j,
        )),
{
    lemma_rows_upto_len(d, types, hdr_record_count(d) as nat);
    lemma_rows_upto_keeps(d, types, hdr_record_count(d) as nat);
}

proof fn lemma_rows_upto_are_records(d: Seq<u8>, types: Seq<FieldType>, n: nat)
    ensures
        forall|k: u32| #[trigger]
            spec_rows_upto(d, types, n).contains_key(k) ==> exists|i: int|
                0 <= i < n && spec_rows_upto(d, types, n)[k] == spec_record(d, types, i),
    decreases n,
{
    if n > 0 {
        let p = (n - 1) as nat;
        lemma_rows_upto_are_records(d, types, p);
        let prev = spec_rows_upto(d, types, p);
        let key = key_for(prev.dom(), row_id(spec_record(d, types, p as int), p as int), p);
        assert forall|k: u32| #[trigger]
            spec_rows_upto(d, types, n).contains_key(k) implies exists|i: int|
                0 <= i < n && spec_rows_upto(d, types, n)[k] == spec_record(d, types, i) by {
            if k == key {
                assert(spec_rows_upto(d, types, n)[k] == spec_record(d, types, p as int));
            } else {
                assert(prev.contains_key(k));
                let i = choose|i: int| 0 <= i < p && prev[k] == spec_record(d, types, i);
                assert(spec_rows_upto(d, types, n)[k] == spec_record(d, types, i));
            }
        }
    }
}

/// Every row of a parsed table is one of the file's records.
pub proof fn lemma_rows_are_records(
    d: Seq<u8>,
    types: Seq<FieldType>,
    m: Map<u32, Seq<FieldValueView>>,
)
    requires
        spec_parse_wdbc(d, types) == Ok::<Map<u32, Seq<FieldValueView>>, DbcError>(m),
    ensures
        forall|k: u32| #[trigger]
            m.contains_key(k) ==> exists|i: int|
                0 <= i < hdr_record_count(d) && m[k] == spec_record(d, types, i),
{
    lemma_rows_upto_are_records(d, types, hdr_record_count(d) as nat);
}

} // verus!

//! The decisions behind the Lua functions: which columns a row table shows
//! under which names, which column a field name designates, and how an
//! `ItemSubClass` lookup key is formed.

use vstd::prelude::*;
use vstd::string::StrSliceExecFns;
use crate::dbc::FieldType;
use crate::schemas::Schema;
use crate::text::{chars_of, str_eq_chars};

verus! {

/// The locales of localized string columns, in column order.
pub open spec fn spec_locales() -> Seq<Seq<char>> {
    seq![
        seq!['e', 'n', 'U', 'S'],
        seq!['k', 'o', 'K', 'R'],
        seq!['f', 'r', 'F', 'R'],
        seq!['d', 'e', 'D', 'E'],
        seq!['z', 'h', 'C', 'N'],
        seq!['r', 'u', 'R', 'U'],
        seq!['e', 's', 'E', 'S'],
        seq!['p', 't', 'P', 'T'],
    ]
}

/// The locale argument that keeps every localized column under its full name.
pub open spec fn all_locales_word() -> Seq<char> {
    seq!['a', 'l', 'l']
}

/// `name` ends with `_` followed by `loc`.
pub open spec fn has_locale_suffix(name: Seq<char>, loc: Seq<char>) -> bool {
    &&& name.len() >= loc.len() + 1
    &&& name.subrange(name.len() - loc.len() - 1, name.len() as int) == seq!['_'] + loc
}

/// The first locale, at position `l` or later, whose suffix `name` carries.
pub open spec fn locale_from(name: Seq<char>, l: nat) -> Option<int>
    decreases spec_locales().len() - l,
{
    if l >= spec_locales().len() {
        None
    } else if has_locale_suffix(name, spec_locales()[l as int]) {
        Some(l as int)
    } else {
        locale_from(name, l + 1)
    }
}

/// The key under which the column `name` is shown for the requested locale:
/// a column that is not localized keeps its name; a localized one is shown
/// without its suffix when it is the requested locale (`enUS` when none is
/// requested), under its full name when `all` is requested, and not at all
/// otherwise.
pub open spec fn spec_localized_key(name: Seq<char>, locale: Option<Seq<char>>) -> Option<
    Seq<char>,
> {
    match locale_from(name, 0) {
        None => Some(name),
        Some(l) => {
            let base = name.subrange(0, name.len() - 5);
            match locale {
                None => if l == 0 {
                    Some(base)
                } else {
                    None
                },
                Some(w) => if w == all_locales_word() {
                    Some(name)
                } else if w == spec_locales()[l] {
                    Some(base)
                } else {
                    None
                },
            }
        },
    }
}

pub open spec fn opt_str_view(o: Option<&str>) -> Option<Seq<char>> {
    match o {
        Some(s) => Some(s@),
        None => None,
    }
}

fn locale_chars(l: usize) -> (v: Vec<char>)
    requires
        l < 8,
    ensures
        v@ == spec_locales()[l as int],
{
    match l {
        0 => vec!['e', 'n', 'U', 'S'],
        1 => vec!['k', 'o', 'K', 'R'],
        2 => vec!['f', 'r', 'F', 'R'],
        3 => vec!['d', 'e', 'D', 'E'],
        4 => vec!['z', 'h', 'C', 'N'],
        5 => vec!['r', 'u', 'R', 'U'],
        6 => vec!['e', 's', 'E', 'S'],
        _ => vec!['p', 't', 'P', 'T'],
    }
}

/// Whether `chars` ends with `_` followed by the four characters of `loc`.
fn ends_with_locale(chars: &Vec<char>, loc: &Vec<char>) -> (r: bool)
    requires
        loc@.len() == 4,
    ensures
        r == has_locale_suffix(chars@, loc@),
{
    let n = chars.len();
    if n < 5 {
        return false;
    }
    let ok = chars[n - 5] == '_' && chars[n - 4] == loc[0] && chars[n - 3] == loc[1] && chars[n
        - 2] == loc[2] && chars[n - 1] == loc[3];
    assert(ok ==> chars@.subrange(n - 5, n as int) =~= seq!['_'] + loc@);
    assert(chars@.subrange(n - 5, n as int) == seq!['_'] + loc@ ==> {
        &&& chars@.subrange(n - 5, n as int)[0] == '_'
        &&& chars@.subrange(n - 5, n as int)[1] == loc@[0]
        &&& chars@.subrange(n - 5, n as int)[2] == loc@[1]
        &&& chars@.subrange(n - 5, n as int)[3] == loc@[2]
        &&& chars@.subrange(n - 5, n as int)[4] == loc@[3]
    });
    ok
}

/// Returns the field name to expose for a given schema field, applying locale
/// filtering: `None` selects `enUS` (suffix stripped), `Some("all")` keeps the
/// full name, `Some(loc)` keeps only that locale (suffix stripped).
///
/// Returns `None` if the field should be skipped (another locale's variant).
pub fn localized_key<'a>(field_name: &'a str, locale: Option<&str>) -> (r: Option<&'a str>)
    ensures
        opt_str_view(r) == spec_localized_key(field_name@, opt_str_view(locale)),
{
    let chars = chars_of(field_name);
    let mut l: usize = 0;
    while l < 8
        invariant
            chars@ == field_name@,
            l <= 8,
            locale_from(field_name@, 0) == locale_from(field_name@, l as nat),
        decreases 8 - l,
    {
        let loc = locale_chars(l);
        if ends_with_locale(&chars, &loc) {
            let n = chars.len();
            let base = field_name.substring_char(0, n - 5);
            return match locale {
                None => if l == 0 {
                    Some(base)
                } else {
                    None
                },
                Some(wanted) => if str_eq_chars(wanted, &vec!['a', 'l', 'l']) {
                    Some(field_name)
                } else if str_eq_chars(wanted, &loc) {
                    Some(base)
                } else {
                    None
                },
            };
        }
        l = l + 1;
    }
    Some(field_name)
}

/// The keys of a row table, in column order: each shown column's key with the
/// column's position.
pub open spec fn spec_row_entries(schema: Seq<(&str, FieldType)>, locale: Option<Seq<char>>, n: nat) -> Seq<
    (Seq<char>, int),
>
    decreases n,
{
    if n == 0 {
        Seq::empty()
    } else {
        let prev = spec_row_entries(schema, locale, (n - 1) as nat);
        match spec_localized_key(schema[n - 1].0@, locale) {
            Some(k) => prev.push((k, n - 1)),
            None => prev,
        }
    }
}

pub open spec fn entries_view(e: Seq<(&str, usize)>) -> Seq<(Seq<char>, int)> {
    e.map_values(|p: (&str, usize)| (p.0@, p.1 as int))
}

/// The named entries of the table built for a row: the key of each column
/// shown for `locale`, with the position of the column whose cell it holds.
/// The row table also lists the same cells under the positions 1, 2, ... in
/// this order.
pub fn row_table_entries(schema: &Schema, locale: Option<&str>) -> (r: Vec<(&'static str, usize)>)
    ensures
        entries_view(r@) == spec_row_entries(schema@, opt_str_view(locale), schema@.len()),
{
    let mut out: Vec<(&'static str, usize)> = Vec::new();
    let mut i: usize = 0;
    while i < schema.len()
        invariant
            i <= schema@.len(),
            entries_view(out@) == spec_row_entries(schema@, opt_str_view(locale), i as nat),
        decreases schema@.len() - i,
    {
        let ghost before = out@;
        match localized_key(schema[i].0, locale) {
            Some(k) => {
                out.push((k, i));
                assert(entries_view(out@) =~= entries_view(before).push((k@, i as int)));
            },
            None => {},
        }
        i = i + 1;
    }
    out
}

/// The column `col` answers to the field name `field`: equal to it, or equal
/// to it followed by `_enUS`.
pub open spec fn column_answers_to(col: Seq<char>, field: Seq<char>) -> bool {
    col == field || col == field + seq!['_', 'e', 'n', 'U', 'S']
}

/// The first column, at position `i` or later, that answers to `field`.
pub open spec fn column_from(schema: Seq<(&str, FieldType)>, field: Seq<char>, i: nat) -> Option<
    int,
>
    decreases schema.len() - i,
{
    if i >= schema.len() {
        None
    } else if column_answers_to(schema[i as int].0@, field) {
        Some(i as int)
    } else {
        column_from(schema, field, i + 1)
    }
}

/// Resolves a field name to a column: the first column named exactly so, or
/// named so with the `_enUS` suffix.
pub fn resolve_column(schema: &Schema, field: &str) -> (r: Option<usize>)
    ensures
        match column_from(schema@, field@, 0) {
            Some(i) => r == Some(i as usize),
            None => r is None,
        },
{
    let mut with_suffix = chars_of(field);
    with_suffix.push('_');
    with_suffix.push('e');
    with_suffix.push('n');
    with_suffix.push('U');
    with_suffix.push('S');
    assert(with_suffix@ =~= field@ + seq!['_', 'e', 'n', 'U', 'S']);
    let plain = chars_of(field);
    let mut i: usize = 0;
    while i < schema.len()
        invariant
            i <= schema@.len(),
            plain@ == field@,
            with_suffix@ == field@ + seq!['_', 'e', 'n', 'U', 'S'],
            column_from(schema@, field@, 0) == column_from(schema@, field@, i as nat),
        decreases schema@.len() - i,
    {
        let name = schema[i].0;
        if str_eq_chars(name, &plain) || str_eq_chars(name, &with_suffix) {
            return Some(i);
        }
        i = i + 1;
    }
    None
}

/// The lookup key of an `ItemSubClass` row: `class_id * 1000 + subclass_id`,
/// or `None` when either id is out of range for that encoding.
pub open spec fn spec_item_sub_class_key(class_id: u32, subclass_id: u32) -> Option<u32> {
    if class_id > 4294 || subclass_id > 4294967 {
        None
    } else {
        Some((class_id * 1000 + subclass_id) as u32)
    }
}

/// Encodes an `ItemSubClass` lookup key from its class and subclass ids.
pub fn item_sub_class_key(class_id: u32, subclass_id: u32) -> (r: Option<u32>)
    ensures
        r == spec_item_sub_class_key(class_id, subclass_id),
{
    if class_id > 4294 || subclass_id > 4294967 {
        None
    } else {
        Some(class_id * 1000 + subclass_id)
    }
}

/// With the locale `all`, a row table shows every column, in order, under its
/// full name.
pub proof fn lemma_all_locales_show_every_column(schema: Seq<(&str, FieldType)>, n: nat)
    requires
        n <= schema.len(),
    ensures
        spec_row_entries(schema, Some(all_locales_word()), n) == Seq::new(
            n,
            |i: int| (schema[i].0@, i),
        ),
    decreases n,
{
    if n > 0 {
        lemma_all_locales_show_every_column(schema, (n - 1) as nat);
        assert(spec_row_entries(schema, Some(all_locales_word()), n) =~= Seq::new(
            n,
            |i: int| (schema[i].0@, i),
        ));
    }
}

proof fn lemma_locales_distinct()
    ensures
        forall|k: int, l: int|
            0 <= k < 8 && 0 <= l < 8 && k != l ==> #[trigger] spec_locales()[k] != #[trigger] spec_locales()[l],
        forall|k: int| 0 <= k < 8 ==> (#[trigger] spec_locales()[k]).len() == 4,
{
    assert forall|k: int, l: int|
        0 <= k < 8 && 0 <= l < 8 && k != l implies #[trigger] spec_locales()[k] != #[trigger] spec_locales()[l] by {
        if spec_locales()[k] == spec_locales()[l] {
            assert(spec_locales()[k][0] == spec_locales()[l][0]);
            assert(spec_locales()[k][1] == spec_locales()[l][1]);
            assert(spec_locales()[k][2] == spec_locales()[l][2]);
            assert(spec_locales()[k][3] == spec_locales()[l][3]);
        }
    }
}

proof fn lemma_locale_from_finds(name: Seq<char>, l: nat, j: int)
    requires
        l <= j < 8,
        forall|k: int| l <= k < j ==> !has_locale_suffix(name, #[trigger] spec_locales()[k]),
        has_locale_suffix(name, spec_locales()[j]),
    ensures
        locale_from(name, l) == Some(j),
    decreases j - l,
{
    if l < j {
        lemma_locale_from_finds(name, l + 1, j);
    }
}

/// Of the localized variants `base_xxXX` of one column, a row table shows
/// exactly one, under `base`, when no locale or one of the locales is
/// requested (the `enUS` variant when none is); with `all` it shows each under
/// its full name; with any other word it shows none.
pub proof fn lemma_one_key_per_localized_group(base: Seq<char>, locale: Option<Seq<char>>, j: int)
    requires
        0 <= j < 8,
    ensures
        spec_localized_key(base + seq!['_'] + spec_locales()[j], locale) == match locale {
            None => if j == 0 {
                Some(base)
            } else {
                None
            },
            Some(w) => if w == all_locales_word() {
                Some(base + seq!['_'] + spec_locales()[j])
            } else if w == spec_locales()[j] {
                Some(base)
            } else {
                None
            },
        },
        locale is None ==> (spec_localized_key(base + seq!['_'] + spec_locales()[j], locale) is Some
            <==> j == 0),
        forall|l: int|
            0 <= l < 8 && locale == Some(#[trigger] spec_locales()[l]) ==> (spec_localized_key(
                base + seq!['_'] + spec_locales()[j],
                locale,
            ) is Some <==> j == l),
{
    let name = base + seq!['_'] + spec_locales()[j];
    lemma_locales_distinct();
    assert(name.subrange(name.len() - 5, name.len() as int) =~= seq!['_'] + spec_locales()[j]);
    assert forall|k: int| 0 <= k < j implies !has_locale_suffix(name, #[trigger] spec_locales()[k]) by {
        if has_locale_suffix(name, spec_locales()[k]) {
            assert((seq!['_'] + spec_locales()[k]).drop_first() =~= spec_locales()[k]);
            assert((seq!['_'] + spec_locales()[j]).drop_first() =~= spec_locales()[j]);
        }
    }
    lemma_locale_from_finds(name, 0, j);
    assert(name.subrange(0, name.len() - 5) =~= base);
    assert(all_locales_word().len() == 3);
}


/// An `ItemSubClass` key exists exactly when the class id is at most 4294 and
/// the subclass id at most 4294967, and it is then `class_id * 1000 +
/// subclass_id`, which fits in a `u32` without wrapping. Pairs whose subclass
/// ids are below 1000 get distinct keys.
pub proof fn lemma_item_sub_class_key_encoding(class_id: u32, subclass_id: u32, c2: u32, s2: u32)
    ensures
        spec_item_sub_class_key(class_id, subclass_id) is Some <==> (class_id <= 4294 && subclass_id
            <= 4294967),
        class_id <= 4294 && subclass_id <= 4294967 ==> (spec_item_sub_class_key(
            class_id,
            subclass_id,
        ) matches Some(k) && k == class_id * 1000 + subclass_id),
        subclass_id < 1000 && s2 < 1000 && spec_item_sub_class_key(class_id, subclass_id) is Some
            && spec_item_sub_class_key(class_id, subclass_id) == spec_item_sub_class_key(c2, s2) ==> (
        class_id == c2 && subclass_id == s2),
{
    if class_id <= 4294 && subclass_id <= 4294967 {
        assert(class_id * 1000 + subclass_id <= 4294 * 1000 + 4294967) by (nonlinear_arith)
            requires
                class_id <= 4294,
                subclass_id <= 4294967,
        ;
    }
    if subclass_id < 1000 && s2 < 1000 && spec_item_sub_class_key(class_id, subclass_id) is Some
        && spec_item_sub_class_key(class_id, subclass_id) == spec_item_sub_class_key(c2, s2) {
        assert(c2 <= 4294 && s2 <= 4294967);
        assert(c2 * 1000 + s2 <= 4294 * 1000 + 4294967) by (nonlinear_arith)
            requires
                c2 <= 4294,
                s2 <= 4294967,
        ;
        assert(class_id * 1000 + subclass_id <= 4294 * 1000 + 4294967) by (nonlinear_arith)
            requires
                class_id <= 4294,
                subclass_id <= 4294967,
        ;
        assert(class_id * 1000 + subclass_id == c2 * 1000 + s2);
        assert(class_id == c2 && subclass_id == s2) by (nonlinear_arith)
            requires
                class_id * 1000 + subclass_id == c2 * 1000 + s2,
                subclass_id < 1000,
                s2 < 1000,
        ;
    }
}

/// A row table shows exactly the columns that [`spec_localized_key`] keeps
/// for the locale, in column order, each under that key with its position:
/// each entry names a column below `n` and carries the key kept for it, the
/// positions strictly increase, and every column below `n` with a key has an
/// entry, whatever its position.
pub proof fn lemma_row_entries_are_kept_columns(
    schema: Seq<(&str, FieldType)>,
    locale: Option<Seq<char>>,
    n: nat,
)
    requires
        n <= schema.len(),
    ensures
        forall|p: int|
            0 <= p < spec_row_entries(schema, locale, n).len() ==> 0 <= (
            #[trigger] spec_row_entries(schema, locale, n)[p]).1 < n && spec_localized_key(
                schema[spec_row_entries(schema, locale, n)[p].1].0@,
                locale,
            ) == Some(spec_row_entries(schema, locale, n)[p].0),
        forall|p: int, q: int|
            0 <= p < q < spec_row_entries(schema, locale, n).len() ==> (#[trigger] spec_row_entries(
                schema,
                locale,
                n,
            )[p]).1 < (#[trigger] spec_row_entries(schema, locale, n)[q]).1,
        forall|i: int|
            0 <= i < n && spec_localized_key((#[trigger] schema[i]).0@, locale) is Some ==> spec_row_entries(
                schema,
                locale,
                n,
            ).contains((spec_localized_key(schema[i].0@, locale).unwrap(), i)),
    decreases n,
{
    if n > 0 {
        let m = (n - 1) as nat;
        lemma_row_entries_are_kept_columns(schema, locale, m);
        let prev = spec_row_entries(schema, locale, m);
        let e = spec_row_entries(schema, locale, n);
        assert forall|i: int|
            0 <= i < n && spec_localized_key((#[trigger] schema[i]).0@, locale) is Some implies e.contains(
            (spec_localized_key(schema[i].0@, locale).unwrap(), i),
        ) by {
            if i < m {
                let p = choose|p: int|
                    0 <= p < prev.len() && prev[p] == (spec_localized_key(schema[i].0@, locale).unwrap(), i);
                assert(e[p] == prev[p]);
            } else {
                assert(e[e.len() - 1] == (spec_localized_key(schema[i].0@, locale).unwrap(), i));
            }
        }
        assert forall|p: int, q: int| 0 <= p < q < e.len() implies (#[trigger] e[p]).1 < (#[trigger] e[q]).1 by {
            if q < prev.len() {
                assert(e[p] == prev[p] && e[q] == prev[q]);
            } else {
                assert(e[p] == prev[p]);
            }
        }
        assert forall|p: int| 0 <= p < e.len() implies 0 <= (#[trigger] e[p]).1 < n && spec_localized_key(
            schema[e[p].1].0@,
            locale,
        ) == Some(e[p].0) by {
            if p < prev.len() {
                assert(e[p] == prev[p]);
            }
        }
    }
}

} // verus!

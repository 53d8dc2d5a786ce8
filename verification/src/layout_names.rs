//! Two facts about the known layouts, proved table by table: no layout
//! repeats a column name, and every localized column holds text. For the
//! names, every name is compared with all earlier ones, a block of sixteen
//! rows per lemma so that each proof stays small.

use crate::dbc::FieldType;
use crate::schemas::area_table_layout;
use crate::schemas::area_trigger_layout;
use crate::schemas::char_start_outfit_layout;
use crate::schemas::chr_classes_layout;
use crate::schemas::chr_races_layout;
use crate::schemas::creature_family_layout;
use crate::schemas::creature_type_layout;
use crate::schemas::faction_layout;
use crate::schemas::faction_template_layout;
use crate::schemas::item_bag_family_layout;
use crate::schemas::item_class_layout;
use crate::schemas::item_display_info_layout;
use crate::schemas::item_random_properties_layout;
use crate::schemas::item_set_layout;
use crate::schemas::item_sub_class_layout;
use crate::schemas::lfg_dungeons_layout;
use crate::schemas::lock_layout;
use crate::schemas::lock_type_layout;
use crate::schemas::mail_template_layout;
use crate::schemas::map_layout;
use crate::schemas::quest_info_layout;
use crate::schemas::quest_sort_layout;
use crate::schemas::skill_line_layout;
use crate::schemas::skill_line_ability_layout;
use crate::schemas::skill_line_category_layout;
use crate::schemas::spell_layout;
use crate::schemas::spell_cast_times_layout;
use crate::schemas::spell_category_layout;
use crate::schemas::spell_dispel_type_layout;
use crate::schemas::spell_duration_layout;
use crate::schemas::spell_icon_layout;
use crate::schemas::spell_item_enchantment_layout;
use crate::schemas::spell_mechanic_layout;
use crate::schemas::spell_radius_layout;
use crate::schemas::spell_range_layout;
use crate::schemas::spell_shapeshift_form_layout;
use crate::schemas::talent_layout;
use crate::schemas::talent_tab_layout;
use crate::schemas::taxi_nodes_layout;
use crate::schemas::taxi_path_layout;
use crate::schemas::taxi_path_node_layout;
use crate::schemas::world_map_area_layout;
use crate::schemas::world_safe_locs_layout;
use crate::schemas::known_layouts;
use crate::scripts::{has_locale_suffix, spec_locales};
use vstd::prelude::*;

verus! {

/// The column names of a layout, in file order.
pub open spec fn column_names(l: Seq<(Seq<char>, FieldType)>) -> Seq<Seq<char>> {
    l.map_values(|c: (Seq<char>, FieldType)| c.0)
}

/// Some position below `n` holds different characters in `a` and `b`,
/// looking from position `n - 1` down.
spec fn chars_differ(a: Seq<char>, b: Seq<char>, n: nat) -> bool
    decreases n,
{
    n > 0 && (a[n - 1] != b[n - 1] || chars_differ(a, b, (n - 1) as nat))
}

/// `a` and `b` differ in length or in some character.
spec fn names_differ(a: Seq<char>, b: Seq<char>) -> bool {
    a.len() != b.len() || chars_differ(a, b, a.len())
}

proof fn lemma_names_differ(a: Seq<char>, b: Seq<char>)
    requires
        names_differ(a, b),
    ensures
        a != b,
{
    if a.len() == b.len() {
        lemma_chars_differ(a, b, a.len());
    }
}

proof fn lemma_chars_differ(a: Seq<char>, b: Seq<char>, n: nat)
    requires
        chars_differ(a, b, n),
    ensures
        a != b,
    decreases n,
{
    if a[n - 1] == b[n - 1] {
        lemma_chars_differ(a, b, (n - 1) as nat);
    }
}

/// No two columns of the layout `l` share a name.
#[verifier::opaque]
pub open spec fn distinct_column_names(l: Seq<(Seq<char>, FieldType)>) -> bool {
    column_names(l).no_duplicates()
}

/// `s[k]` differs from `x` for every `k` in `[lo, lo + n)`.
spec fn fresh_in(s: Seq<Seq<char>>, lo: int, n: nat, x: Seq<char>) -> bool
    decreases n,
{
    n == 0 || (names_differ(s[lo + n - 1], x) && fresh_in(s, lo, (n - 1) as nat, x))
}
/// `s[k]` differs from `x` for each of the sixteen `k` from `lo` on.
spec fn fresh_in_block(s: Seq<Seq<char>>, lo: int, x: Seq<char>) -> bool {
    &&& names_differ(s[lo], x)
    &&& names_differ(s[lo + 1], x)
    &&& names_differ(s[lo + 2], x)
    &&& names_differ(s[lo + 3], x)
    &&& names_differ(s[lo + 4], x)
    &&& names_differ(s[lo + 5], x)
    &&& names_differ(s[lo + 6], x)
    &&& names_differ(s[lo + 7], x)
    &&& names_differ(s[lo + 8], x)
    &&& names_differ(s[lo + 9], x)
    &&& names_differ(s[lo + 10], x)
    &&& names_differ(s[lo + 11], x)
    &&& names_differ(s[lo + 12], x)
    &&& names_differ(s[lo + 13], x)
    &&& names_differ(s[lo + 14], x)
    &&& names_differ(s[lo + 15], x)
}

/// `s[k]` differs from `x` for every `k` below `j`, checked in blocks of sixteen.
spec fn fresh_before(s: Seq<Seq<char>>, j: nat, x: Seq<char>) -> bool
    decreases j,
{
    if j <= 16 {
        fresh_in(s, 0, j, x)
    } else {
        fresh_in_block(s, j - 16, x) && fresh_before(s, (j - 16) as nat, x)
    }
}

/// Each `s[j]`, for `j` in `[lo, lo + n)`, differs from every earlier entry.
spec fn distinct_in(s: Seq<Seq<char>>, lo: nat, n: nat) -> bool
    decreases n,
{
    n == 0 || (fresh_before(s, (lo + n - 1) as nat, s[lo + n - 1]) && distinct_in(s, lo, (n - 1) as nat))
}

proof fn lemma_fresh_in(s: Seq<Seq<char>>, lo: int, n: nat, x: Seq<char>)
    requires
        fresh_in(s, lo, n, x),
    ensures
        forall|k: int| lo <= k < lo + n ==> s[k] != x,
    decreases n,
{
    if n > 0 {
        lemma_fresh_in(s, lo, (n - 1) as nat, x);
        lemma_names_differ(s[lo + n - 1], x);
    }
}

proof fn lemma_fresh_before(s: Seq<Seq<char>>, j: nat, x: Seq<char>)
    requires
        fresh_before(s, j, x),
    ensures
        forall|k: int| 0 <= k < j ==> s[k] != x,
    decreases j,
{
    if j <= 16 {
        lemma_fresh_in(s, 0, j, x);
    } else {
        lemma_fresh_before(s, (j - 16) as nat, x);
        assert forall|k: int| j - 16 <= k < j implies s[k] != x by {
            lemma_names_differ(s[k], x);
        }
    }
}

/// Each of the entries `[0, n)` of `s` differs from all earlier ones.
#[verifier::opaque]
spec fn distinct_prefix(s: Seq<Seq<char>>, n: int) -> bool {
    forall|j: int, k: int| 0 <= k < j < n ==> s[k] != s[j]
}

proof fn lemma_distinct_in(s: Seq<Seq<char>>, lo: nat, n: nat)
    requires
        distinct_in(s, lo, n),
    ensures
        forall|j: int, k: int| lo <= j < lo + n && 0 <= k < j ==> s[k] != s[j],
    decreases n,
{
    if n > 0 {
        lemma_distinct_in(s, lo, (n - 1) as nat);
        lemma_fresh_before(s, (lo + n - 1) as nat, s[lo + n - 1]);
    }
}

/// A distinct prefix stays distinct when the entries after it each differ
/// from all earlier ones.
proof fn lemma_extend(s: Seq<Seq<char>>, lo: nat, n: nat)
    requires
        distinct_prefix(s, lo as int),
        distinct_in(s, lo, n),
    ensures
        distinct_prefix(s, (lo + n) as int),
{
    reveal(distinct_prefix);
    lemma_distinct_in(s, lo, n);
}

/// A list whose entries each differ from all earlier ones has no duplicates.
proof fn lemma_no_duplicates(s: Seq<Seq<char>>)
    requires
        distinct_prefix(s, s.len() as int),
    ensures
        s.no_duplicates(),
{
    reveal(distinct_prefix);
    assert forall|i: int, j: int| 0 <= i < s.len() && 0 <= j < s.len() && i != j implies s[i]
        != s[j] by {
        if i > j {
            assert(s[j] != s[i]);
        }
    }
}


proof fn lemma_area_table_names_fresh_0()
    ensures
        distinct_in(column_names(area_table_layout()), 0, 16),
{
    reveal_strlit("id");
    reveal_strlit("mapId");
    reveal_strlit("parentAreaId");
    reveal_strlit("areaBit");
    reveal_strlit("flags");
    reveal_strlit("soundPreferenceId");
    reveal_strlit("underwaterSoundPreferenceId");
    reveal_strlit("soundAmbienceId");
    reveal_strlit("zoneMusicId");
    reveal_strlit("zoneIntroMusicId");
    reveal_strlit("explorationLevel");
    reveal_strlit("name_enUS");
    reveal_strlit("name_koKR");
    reveal_strlit("name_frFR");
    reveal_strlit("name_deDE");
    reveal_strlit("name_zhCN");
    reveal_with_fuel(distinct_in, 17);
    reveal_with_fuel(fresh_before, 2);
    reveal_with_fuel(fresh_in, 17);
    reveal_with_fuel(chars_differ, 28);
    let names = column_names(area_table_layout());
    assert(fresh_before(names, 0, names[0]));
    assert(fresh_before(names, 1, names[1]));
    assert(fresh_before(names, 2, names[2]));
    assert(fresh_before(names, 3, names[3]));
    assert(fresh_before(names, 4, names[4]));
    assert(fresh_before(names, 5, names[5]));
    assert(fresh_before(names, 6, names[6]));
    assert(fresh_before(names, 7, names[7]));
    assert(fresh_before(names, 8, names[8]));
    assert(fresh_before(names, 9, names[9]));
    assert(fresh_before(names, 10, names[10]));
    assert(fresh_before(names, 11, names[11]));
    assert(fresh_before(names, 12, names[12]));
    assert(fresh_before(names, 13, names[13]));
    assert(fresh_before(names, 14, names[14]));
    assert(fresh_before(names, 15, names[15]));
    assert(distinct_in(names, 0, 16));
}

proof fn lemma_area_table_names_fresh_16()
    ensures
        distinct_in(column_names(area_table_layout()), 16, 9),
{
    reveal_strlit("id");
    reveal_strlit("mapId");
    reveal_strlit("parentAreaId");
    reveal_strlit("areaBit");
    reveal_strlit("flags");
    reveal_strlit("soundPreferenceId");
    reveal_strlit("underwaterSoundPreferenceId");
    reveal_strlit("soundAmbienceId");
    reveal_strlit("zoneMusicId");
    reveal_strlit("zoneIntroMusicId");
    reveal_strlit("explorationLevel");
    reveal_strlit("name_enUS");
    reveal_strlit("name_koKR");
    reveal_strlit("name_frFR");
    reveal_strlit("name_deDE");
    reveal_strlit("name_zhCN");
    reveal_strlit("name_ruRU");
    reveal_strlit("name_esES");
    reveal_strlit("name_ptPT");
    reveal_strlit("nameMask");
    reveal_strlit("factionGroupMask");
    reveal_strlit("liquidTypeId");
    reveal_strlit("minElevation");
    reveal_strlit("ambientMultiplier");
    reveal_strlit("lightId");
    reveal_with_fuel(distinct_in, 10);
    reveal_with_fuel(fresh_before, 3);
    reveal_with_fuel(fresh_in, 17);
    reveal_with_fuel(chars_differ, 28);
    let names = column_names(area_table_layout());
    assert(fresh_before(names, 16, names[16]));
    assert(fresh_before(names, 17, names[17]));
    assert(fresh_before(names, 18, names[18]));
    assert(fresh_before(names, 19, names[19]));
    assert(fresh_before(names, 20, names[20]));
    assert(fresh_before(names, 21, names[21]));
    assert(fresh_before(names, 22, names[22]));
    assert(fresh_before(names, 23, names[23]));
    assert(fresh_before(names, 24, names[24]));
    assert(distinct_in(names, 16, 9));
}

proof fn lemma_area_table_names_distinct()
    ensures
        distinct_column_names(area_table_layout()),
{
    let names = column_names(area_table_layout());
    assert(distinct_prefix(names, 0)) by {
        reveal(distinct_prefix);
    }
    lemma_area_table_names_fresh_0();
    lemma_extend(names, 0, 16);
    lemma_area_table_names_fresh_16();
    lemma_extend(names, 16, 9);
    assert(names.len() == 25);
    lemma_no_duplicates(names);
    reveal(distinct_column_names);
}

proof fn lemma_area_trigger_names_distinct()
    ensures
        distinct_column_names(area_trigger_layout()),
{
    reveal_strlit("id");
    reveal_strlit("mapId");
    reveal_strlit("x");
    reveal_strlit("y");
    reveal_strlit("z");
    reveal_strlit("radius");
    reveal_strlit("boxLength");
    reveal_strlit("boxWidth");
    reveal_strlit("boxHeight");
    reveal_strlit("boxYaw");
    reveal_with_fuel(distinct_in, 11);
    reveal_with_fuel(fresh_before, 2);
    reveal_with_fuel(fresh_in, 17);
    reveal_with_fuel(chars_differ, 10);
    let names = column_names(area_trigger_layout());
    assert(fresh_before(names, 0, names[0]));
    assert(fresh_before(names, 1, names[1]));
    assert(fresh_before(names, 2, names[2]));
    assert(fresh_before(names, 3, names[3]));
    assert(fresh_before(names, 4, names[4]));
    assert(fresh_before(names, 5, names[5]));
    assert(fresh_before(names, 6, names[6]));
    assert(fresh_before(names, 7, names[7]));
    assert(fresh_before(names, 8, names[8]));
    assert(fresh_before(names, 9, names[9]));
    assert(distinct_in(names, 0, 10));
    assert(distinct_prefix(names, 0)) by {
        reveal(distinct_prefix);
    }
    lemma_extend(names, 0, 10);
    lemma_no_duplicates(names);
    reveal(distinct_column_names);
}

proof fn lemma_char_start_outfit_names_fresh_0()
    ensures
        distinct_in(column_names(char_start_outfit_layout()), 0, 16),
{
    reveal_strlit("id");
    reveal_strlit("itemId_1");
    reveal_strlit("itemId_2");
    reveal_strlit("itemId_3");
    reveal_strlit("itemId_4");
    reveal_strlit("itemId_5");
    reveal_strlit("itemId_6");
    reveal_strlit("itemId_7");
    reveal_strlit("itemId_8");
    reveal_strlit("itemId_9");
    reveal_strlit("itemId_10");
    reveal_strlit("itemId_11");
    reveal_strlit("itemId_12");
    reveal_strlit("displayItemId_1");
    reveal_strlit("displayItemId_2");
    reveal_strlit("displayItemId_3");
    reveal_with_fuel(distinct_in, 17);
    reveal_with_fuel(fresh_before, 2);
    reveal_with_fuel(fresh_in, 17);
    reveal_with_fuel(chars_differ, 16);
    let names = column_names(char_start_outfit_layout());
    assert(fresh_before(names, 0, names[0]));
    assert(fresh_before(names, 1, names[1]));
    assert(fresh_before(names, 2, names[2]));
    assert(fresh_before(names, 3, names[3]));
    assert(fresh_before(names, 4, names[4]));
    assert(fresh_before(names, 5, names[5]));
    assert(fresh_before(names, 6, names[6]));
    assert(fresh_before(names, 7, names[7]));
    assert(fresh_before(names, 8, names[8]));
    assert(fresh_before(names, 9, names[9]));
    assert(fresh_before(names, 10, names[10]));
    assert(fresh_before(names, 11, names[11]));
    assert(fresh_before(names, 12, names[12]));
    assert(fresh_before(names, 13, names[13]));
    assert(fresh_before(names, 14, names[14]));
    assert(fresh_before(names, 15, names[15]));
    assert(distinct_in(names, 0, 16));
}

proof fn lemma_char_start_outfit_names_fresh_16()
    ensures
        distinct_in(column_names(char_start_outfit_layout()), 16, 16),
{
    reveal_strlit("id");
    reveal_strlit("itemId_1");
    reveal_strlit("itemId_2");
    reveal_strlit("itemId_3");
    reveal_strlit("itemId_4");
    reveal_strlit("itemId_5");
    reveal_strlit("itemId_6");
    reveal_strlit("itemId_7");
    reveal_strlit("itemId_8");
    reveal_strlit("itemId_9");
    reveal_strlit("itemId_10");
    reveal_strlit("itemId_11");
    reveal_strlit("itemId_12");
    reveal_strlit("displayItemId_1");
    reveal_strlit("displayItemId_2");
    reveal_strlit("displayItemId_3");
    reveal_strlit("displayItemId_4");
    reveal_strlit("displayItemId_5");
    reveal_strlit("displayItemId_6");
    reveal_strlit("displayItemId_7");
    reveal_strlit("displayItemId_8");
    reveal_strlit("displayItemId_9");
    reveal_strlit("displayItemId_10");
    reveal_strlit("displayItemId_11");
    reveal_strlit("displayItemId_12");
    reveal_strlit("inventoryType_1");
    reveal_strlit("inventoryType_2");
    reveal_strlit("inventoryType_3");
    reveal_strlit("inventoryType_4");
    reveal_strlit("inventoryType_5");
    reveal_strlit("inventoryType_6");
    reveal_strlit("inventoryType_7");
    reveal_with_fuel(distinct_in, 17);
    reveal_with_fuel(fresh_before, 3);
    reveal_with_fuel(fresh_in, 17);
    reveal_with_fuel(chars_differ, 17);
    let names = column_names(char_start_outfit_layout());
    assert(fresh_before(names, 16, names[16]));
    assert(fresh_before(names, 17, names[17]));
    assert(fresh_before(names, 18, names[18]));
    assert(fresh_before(names, 19, names[19]));
    assert(fresh_before(names, 20, names[20]));
    assert(fresh_before(names, 21, names[21]));
    assert(fresh_before(names, 22, names[22]));
    assert(fresh_before(names, 23, names[23]));
    assert(fresh_before(names, 24, names[24]));
    assert(fresh_before(names, 25, names[25]));
    assert(fresh_before(names, 26, names[26]));
    assert(fresh_before(names, 27, names[27]));
    assert(fresh_before(names, 28, names[28]));
    assert(fresh_before(names, 29, names[29]));
    assert(fresh_before(names, 30, names[30]));
    assert(fresh_before(names, 31, names[31]));
    assert(distinct_in(names, 16, 16));
}

proof fn lemma_char_start_outfit_names_fresh_32()
    ensures
        distinct_in(column_names(char_start_outfit_layout()), 32, 5),
{
    reveal_strlit("id");
    reveal_strlit("itemId_1");
    reveal_strlit("itemId_2");
    reveal_strlit("itemId_3");
    reveal_strlit("itemId_4");
    reveal_strlit("itemId_5");
    reveal_strlit("itemId_6");
    reveal_strlit("itemId_7");
    reveal_strlit("itemId_8");
    reveal_strlit("itemId_9");
    reveal_strlit("itemId_10");
    reveal_strlit("itemId_11");
    reveal_strlit("itemId_12");
    reveal_strlit("displayItemId_1");
    reveal_strlit("displayItemId_2");
    reveal_strlit("displayItemId_3");
    reveal_strlit("displayItemId_4");
    reveal_strlit("displayItemId_5");
    reveal_strlit("displayItemId_6");
    reveal_strlit("displayItemId_7");
    reveal_strlit("displayItemId_8");
    reveal_strlit("displayItemId_9");
    reveal_strlit("displayItemId_10");
    reveal_strlit("displayItemId_11");
    reveal_strlit("displayItemId_12");
    reveal_strlit("inventoryType_1");
    reveal_strlit("inventoryType_2");
    reveal_strlit("inventoryType_3");
    reveal_strlit("inventoryType_4");
    reveal_strlit("inventoryType_5");
    reveal_strlit("inventoryType_6");
    reveal_strlit("inventoryType_7");
    reveal_strlit("inventoryType_8");
    reveal_strlit("inventoryType_9");
    reveal_strlit("inventoryType_10");
    reveal_strlit("inventoryType_11");
    reveal_strlit("inventoryType_12");
    reveal_with_fuel(distinct_in, 6);
    reveal_with_fuel(fresh_before, 4);
    reveal_with_fuel(fresh_in, 17);
    reveal_with_fuel(chars_differ, 17);
    let names = column_names(char_start_outfit_layout());
    assert(fresh_before(names, 32, names[32]));
    assert(fresh_before(names, 33, names[33]));
    assert(fresh_before(names, 34, names[34]));
    assert(fresh_before(names, 35, names[35]));
    assert(fresh_before(names, 36, names[36]));
    assert(distinct_in(names, 32, 5));
}

proof fn lemma_char_start_outfit_names_distinct()
    ensures
        distinct_column_names(char_start_outfit_layout()),
{
    let names = column_names(char_start_outfit_layout());
    assert(distinct_prefix(names, 0)) by {
        reveal(distinct_prefix);
    }
    lemma_char_start_outfit_names_fresh_0();
    lemma_extend(names, 0, 16);
    lemma_char_start_outfit_names_fresh_16();
    lemma_extend(names, 16, 16);
    lemma_char_start_outfit_names_fresh_32();
    lemma_extend(names, 32, 5);
    assert(names.len() == 37);
    lemma_no_duplicates(names);
    reveal(distinct_column_names);
}

proof fn lemma_chr_classes_names_fresh_0()
    ensures
        distinct_in(column_names(chr_classes_layout()), 0, 16),
{
    reveal_strlit("id");
    reveal_strlit("playerClass");
    reveal_strlit("damageBonusStat");
    reveal_strlit("displayPower");
    reveal_strlit("petNameToken");
    reveal_strlit("name_enUS");
    reveal_strlit("name_koKR");
    reveal_strlit("name_frFR");
    reveal_strlit("name_deDE");
    reveal_strlit("name_zhCN");
    reveal_strlit("name_ruRU");
    reveal_strlit("name_esES");
    reveal_strlit("name_ptPT");
    reveal_strlit("nameMask");
    reveal_strlit("filename");
    reveal_strlit("spellFamily");
    reveal_with_fuel(distinct_in, 17);
    reveal_with_fuel(fresh_before, 2);
    reveal_with_fuel(fresh_in, 17);
    reveal_with_fuel(chars_differ, 16);
    let names = column_names(chr_classes_layout());
    assert(fresh_before(names, 0, names[0]));
    assert(fresh_before(names, 1, names[1]));
    assert(fresh_before(names, 2, names[2]));
    assert(fresh_before(names, 3, names[3]));
    assert(fresh_before(names, 4, names[4]));
    assert(fresh_before(names, 5, names[5]));
    assert(fresh_before(names, 6, names[6]));
    assert(fresh_before(names, 7, names[7]));
    assert(fresh_before(names, 8, names[8]));
    assert(fresh_before(names, 9, names[9]));
    assert(fresh_before(names, 10, names[10]));
    assert(fresh_before(names, 11, names[11]));
    assert(fresh_before(names, 12, names[12]));
    assert(fresh_before(names, 13, names[13]));
    assert(fresh_before(names, 14, names[14]));
    assert(fresh_before(names, 15, names[15]));
    assert(distinct_in(names, 0, 16));
}

proof fn lemma_chr_classes_names_fresh_16()
    ensures
        distinct_in(column_names(chr_classes_layout()), 16, 1),
{
    reveal_strlit("id");
    reveal_strlit("playerClass");
    reveal_strlit("damageBonusStat");
    reveal_strlit("displayPower");
    reveal_strlit("petNameToken");
    reveal_strlit("name_enUS");
    reveal_strlit("name_koKR");
    reveal_strlit("name_frFR");
    reveal_strlit("name_deDE");
    reveal_strlit("name_zhCN");
    reveal_strlit("name_ruRU");
    reveal_strlit("name_esES");
    reveal_strlit("name_ptPT");
    reveal_strlit("nameMask");
    reveal_strlit("filename");
    reveal_strlit("spellFamily");
    reveal_strlit("flags");
    reveal_with_fuel(distinct_in, 2);
    reveal_with_fuel(fresh_before, 3);
    reveal_with_fuel(fresh_in, 17);
    reveal_with_fuel(chars_differ, 16);
    let names = column_names(chr_classes_layout());
    assert(fresh_before(names, 16, names[16]));
    assert(distinct_in(names, 16, 1));
}

proof fn lemma_chr_classes_names_distinct()
    ensures
        distinct_column_names(chr_classes_layout()),
{
    let names = column_names(chr_classes_layout());
    assert(distinct_prefix(names, 0)) by {
        reveal(distinct_prefix);
    }
    lemma_chr_classes_names_fresh_0();
    lemma_extend(names, 0, 16);
    lemma_chr_classes_names_fresh_16();
    lemma_extend(names, 16, 1);
    assert(names.len() == 17);
    lemma_no_duplicates(names);
    reveal(distinct_column_names);
}

proof fn lemma_chr_races_names_fresh_0()
    ensures
        distinct_in(column_names(chr_races_layout()), 0, 16),
{
    reveal_strlit("id");
    reveal_strlit("flags");
    reveal_strlit("factionId");
    reveal_strlit("explorationSoundId");
    reveal_strlit("maleDisplayId");
    reveal_strlit("femaleDisplayId");
    reveal_strlit("clientPrefix");
    reveal_strlit("mountScale");
    reveal_strlit("baseLanguage");
    reveal_strlit("creatureType");
    reveal_strlit("loginEffectSpellId");
    reveal_strlit("combatStunSpellId");
    reveal_strlit("resSicknessSpellId");
    reveal_strlit("splashSoundId");
    reveal_strlit("startingTaxiMask");
    reveal_strlit("clientFileString");
    reveal_with_fuel(distinct_in, 17);
    reveal_with_fuel(fresh_before, 2);
    reveal_with_fuel(fresh_in, 17);
    reveal_with_fuel(chars_differ, 19);
    let names = column_names(chr_races_layout());
    assert(fresh_before(names, 0, names[0]));
    assert(fresh_before(names, 1, names[1]));
    assert(fresh_before(names, 2, names[2]));
    assert(fresh_before(names, 3, names[3]));
    assert(fresh_before(names, 4, names[4]));
    assert(fresh_before(names, 5, names[5]));
    assert(fresh_before(names, 6, names[6]));
    assert(fresh_before(names, 7, names[7]));
    assert(fresh_before(names, 8, names[8]));
    assert(fresh_before(names, 9, names[9]));
    assert(fresh_before(names, 10, names[10]));
    assert(fresh_before(names, 11, names[11]));
    assert(fresh_before(names, 12, names[12]));
    assert(fresh_before(names, 13, names[13]));
    assert(fresh_before(names, 14, names[14]));
    assert(fresh_before(names, 15, names[15]));
    assert(distinct_in(names, 0, 16));
}

proof fn lemma_chr_races_names_fresh_16()
    ensures
        distinct_in(column_names(chr_races_layout()), 16, 13),
{
    reveal_strlit("id");
    reveal_strlit("flags");
    reveal_strlit("factionId");
    reveal_strlit("explorationSoundId");
    reveal_strlit("maleDisplayId");
    reveal_strlit("femaleDisplayId");
    reveal_strlit("clientPrefix");
    reveal_strlit("mountScale");
    reveal_strlit("baseLanguage");
    reveal_strlit("creatureType");
    reveal_strlit("loginEffectSpellId");
    reveal_strlit("combatStunSpellId");
    reveal_strlit("resSicknessSpellId");
    reveal_strlit("splashSoundId");
    reveal_strlit("startingTaxiMask");
    reveal_strlit("clientFileString");
    reveal_strlit("cinematicSequenceId");
    reveal_strlit("name_enUS");
    reveal_strlit("name_koKR");
    reveal_strlit("name_frFR");
    reveal_strlit("name_deDE");
    reveal_strlit("name_zhCN");
    reveal_strlit("name_ruRU");
    reveal_strlit("name_esES");
    reveal_strlit("name_ptPT");
    reveal_strlit("nameMask");
    reveal_strlit("maleCustomization");
    reveal_strlit("femaleCustomization");
    reveal_strlit("hairCustomization");
    reveal_with_fuel(distinct_in, 14);
    reveal_with_fuel(fresh_before, 3);
    reveal_with_fuel(fresh_in, 17);
    reveal_with_fuel(chars_differ, 20);
    let names = column_names(chr_races_layout());
    assert(fresh_before(names, 16, names[16]));
    assert(fresh_before(names, 17, names[17]));
    assert(fresh_before(names, 18, names[18]));
    assert(fresh_before(names, 19, names[19]));
    assert(fresh_before(names, 20, names[20]));
    assert(fresh_before(names, 21, names[21]));
    assert(fresh_before(names, 22, names[22]));
    assert(fresh_before(names, 23, names[23]));
    assert(fresh_before(names, 24, names[24]));
    assert(fresh_before(names, 25, names[25]));
    assert(fresh_before(names, 26, names[26]));
    assert(fresh_before(names, 27, names[27]));
    assert(fresh_before(names, 28, names[28]));
    assert(distinct_in(names, 16, 13));
}

proof fn lemma_chr_races_names_distinct()
    ensures
        distinct_column_names(chr_races_layout()),
{
    let names = column_names(chr_races_layout());
    assert(distinct_prefix(names, 0)) by {
        reveal(distinct_prefix);
    }
    lemma_chr_races_names_fresh_0();
    lemma_extend(names, 0, 16);
    lemma_chr_races_names_fresh_16();
    lemma_extend(names, 16, 13);
    assert(names.len() == 29);
    lemma_no_duplicates(names);
    reveal(distinct_column_names);
}

proof fn lemma_creature_family_names_fresh_0()
    ensures
        distinct_in(column_names(creature_family_layout()), 0, 16),
{
    reveal_strlit("id");
    reveal_strlit("minScale");
    reveal_strlit("minScaleLevel");
    reveal_strlit("maxScale");
    reveal_strlit("maxScaleLevel");
    reveal_strlit("skillLine_1");
    reveal_strlit("skillLine_2");
    reveal_strlit("petFoodMask");
    reveal_strlit("name_enUS");
    reveal_strlit("name_koKR");
    reveal_strlit("name_frFR");
    reveal_strlit("name_deDE");
    reveal_strlit("name_zhCN");
    reveal_strlit("name_ruRU");
    reveal_strlit("name_esES");
    reveal_strlit("name_ptPT");
    reveal_with_fuel(distinct_in, 17);
    reveal_with_fuel(fresh_before, 2);
    reveal_with_fuel(fresh_in, 17);
    reveal_with_fuel(chars_differ, 14);
    let names = column_names(creature_family_layout());
    assert(fresh_before(names, 0, names[0]));
    assert(fresh_before(names, 1, names[1]));
    assert(fresh_before(names, 2, names[2]));
    assert(fresh_before(names, 3, names[3]));
    assert(fresh_before(names, 4, names[4]));
    assert(fresh_before(names, 5, names[5]));
    assert(fresh_before(names, 6, names[6]));
    assert(fresh_before(names, 7, names[7]));
    assert(fresh_before(names, 8, names[8]));
    assert(fresh_before(names, 9, names[9]));
    assert(fresh_before(names, 10, names[10]));
    assert(fresh_before(names, 11, names[11]));
    assert(fresh_before(names, 12, names[12]));
    assert(fresh_before(names, 13, names[13]));
    assert(fresh_before(names, 14, names[14]));
    assert(fresh_before(names, 15, names[15]));
    assert(distinct_in(names, 0, 16));
}

proof fn lemma_creature_family_names_fresh_16()
    ensures
        distinct_in(column_names(creature_family_layout()), 16, 2),
{
    reveal_strlit("id");
    reveal_strlit("minScale");
    reveal_strlit("minScaleLevel");
    reveal_strlit("maxScale");
    reveal_strlit("maxScaleLevel");
    reveal_strlit("skillLine_1");
    reveal_strlit("skillLine_2");
    reveal_strlit("petFoodMask");
    reveal_strlit("name_enUS");
    reveal_strlit("name_koKR");
    reveal_strlit("name_frFR");
    reveal_strlit("name_deDE");
    reveal_strlit("name_zhCN");
    reveal_strlit("name_ruRU");
    reveal_strlit("name_esES");
    reveal_strlit("name_ptPT");
    reveal_strlit("nameMask");
    reveal_strlit("iconFile");
    reveal_with_fuel(distinct_in, 3);
    reveal_with_fuel(fresh_before, 3);
    reveal_with_fuel(fresh_in, 17);
    reveal_with_fuel(chars_differ, 14);
    let names = column_names(creature_family_layout());
    assert(fresh_before(names, 16, names[16]));
    assert(fresh_before(names, 17, names[17]));
    assert(distinct_in(names, 16, 2));
}

proof fn lemma_creature_family_names_distinct()
    ensures
        distinct_column_names(creature_family_layout()),
{
    let names = column_names(creature_family_layout());
    assert(distinct_prefix(names, 0)) by {
        reveal(distinct_prefix);
    }
    lemma_creature_family_names_fresh_0();
    lemma_extend(names, 0, 16);
    lemma_creature_family_names_fresh_16();
    lemma_extend(names, 16, 2);
    assert(names.len() == 18);
    lemma_no_duplicates(names);
    reveal(distinct_column_names);
}

proof fn lemma_creature_type_names_distinct()
    ensures
        distinct_column_names(creature_type_layout()),
{
    reveal_strlit("id");
    reveal_strlit("name_enUS");
    reveal_strlit("name_koKR");
    reveal_strlit("name_frFR");
    reveal_strlit("name_deDE");
    reveal_strlit("name_zhCN");
    reveal_strlit("name_ruRU");
    reveal_strlit("name_esES");
    reveal_strlit("name_ptPT");
    reveal_strlit("nameMask");
    reveal_strlit("flags");
    reveal_with_fuel(distinct_in, 12);
    reveal_with_fuel(fresh_before, 2);
    reveal_with_fuel(fresh_in, 17);
    reveal_with_fuel(chars_differ, 10);
    let names = column_names(creature_type_layout());
    assert(fresh_before(names, 0, names[0]));
    assert(fresh_before(names, 1, names[1]));
    assert(fresh_before(names, 2, names[2]));
    assert(fresh_before(names, 3, names[3]));
    assert(fresh_before(names, 4, names[4]));
    assert(fresh_before(names, 5, names[5]));
    assert(fresh_before(names, 6, names[6]));
    assert(fresh_before(names, 7, names[7]));
    assert(fresh_before(names, 8, names[8]));
    assert(fresh_before(names, 9, names[9]));
    assert(fresh_before(names, 10, names[10]));
    assert(distinct_in(names, 0, 11));
    assert(distinct_prefix(names, 0)) by {
        reveal(distinct_prefix);
    }
    lemma_extend(names, 0, 11);
    lemma_no_duplicates(names);
    reveal(distinct_column_names);
}

proof fn lemma_faction_names_fresh_0()
    ensures
        distinct_in(column_names(faction_layout()), 0, 16),
{
    reveal_strlit("id");
    reveal_strlit("reputationIdx");
    reveal_strlit("repRaceMask_1");
    reveal_strlit("repRaceMask_2");
    reveal_strlit("repRaceMask_3");
    reveal_strlit("repRaceMask_4");
    reveal_strlit("repClassMask_1");
    reveal_strlit("repClassMask_2");
    reveal_strlit("repClassMask_3");
    reveal_strlit("repClassMask_4");
    reveal_strlit("repBase_1");
    reveal_strlit("repBase_2");
    reveal_strlit("repBase_3");
    reveal_strlit("repBase_4");
    reveal_strlit("repFlags_1");
    reveal_strlit("repFlags_2");
    reveal_with_fuel(distinct_in, 17);
    reveal_with_fuel(fresh_before, 2);
    reveal_with_fuel(fresh_in, 17);
    reveal_with_fuel(chars_differ, 15);
    let names = column_names(faction_layout());
    assert(fresh_before(names, 0, names[0]));
    assert(fresh_before(names, 1, names[1]));
    assert(fresh_before(names, 2, names[2]));
    assert(fresh_before(names, 3, names[3]));
    assert(fresh_before(names, 4, names[4]));
    assert(fresh_before(names, 5, names[5]));
    assert(fresh_before(names, 6, names[6]));
    assert(fresh_before(names, 7, names[7]));
    assert(fresh_before(names, 8, names[8]));
    assert(fresh_before(names, 9, names[9]));
    assert(fresh_before(names, 10, names[10]));
    assert(fresh_before(names, 11, names[11]));
    assert(fresh_before(names, 12, names[12]));
    assert(fresh_before(names, 13, names[13]));
    assert(fresh_before(names, 14, names[14]));
    assert(fresh_before(names, 15, names[15]));
    assert(distinct_in(names, 0, 16));
}

proof fn lemma_faction_names_fresh_16()
    ensures
        distinct_in(column_names(faction_layout()), 16, 16),
{
    reveal_strlit("id");
    reveal_strlit("reputationIdx");
    reveal_strlit("repRaceMask_1");
    reveal_strlit("repRaceMask_2");
    reveal_strlit("repRaceMask_3");
    reveal_strlit("repRaceMask_4");
    reveal_strlit("repClassMask_1");
    reveal_strlit("repClassMask_2");
    reveal_strlit("repClassMask_3");
    reveal_strlit("repClassMask_4");
    reveal_strlit("repBase_1");
    reveal_strlit("repBase_2");
    reveal_strlit("repBase_3");
    reveal_strlit("repBase_4");
    reveal_strlit("repFlags_1");
    reveal_strlit("repFlags_2");
    reveal_strlit("repFlags_3");
    reveal_strlit("repFlags_4");
    reveal_strlit("parentFactionId");
    reveal_strlit("name_enUS");
    reveal_strlit("name_koKR");
    reveal_strlit("name_frFR");
    reveal_strlit("name_deDE");
    reveal_strlit("name_zhCN");
    reveal_strlit("name_ruRU");
    reveal_strlit("name_esES");
    reveal_strlit("name_ptPT");
    reveal_strlit("nameMask");
    reveal_strlit("description_enUS");
    reveal_strlit("description_koKR");
    reveal_strlit("description_frFR");
    reveal_strlit("description_deDE");
    reveal_with_fuel(distinct_in, 17);
    reveal_with_fuel(fresh_before, 3);
    reveal_with_fuel(fresh_in, 17);
    reveal_with_fuel(chars_differ, 17);
    let names = column_names(faction_layout());
    assert(fresh_before(names, 16, names[16]));
    assert(fresh_before(names, 17, names[17]));
    assert(fresh_before(names, 18, names[18]));
    assert(fresh_before(names, 19, names[19]));
    assert(fresh_before(names, 20, names[20]));
    assert(fresh_before(names, 21, names[21]));
    assert(fresh_before(names, 22, names[22]));
    assert(fresh_before(names, 23, names[23]));
    assert(fresh_before(names, 24, names[24]));
    assert(fresh_before(names, 25, names[25]));
    assert(fresh_before(names, 26, names[26]));
    assert(fresh_before(names, 27, names[27]));
    assert(fresh_before(names, 28, names[28]));
    assert(fresh_before(names, 29, names[29]));
    assert(fresh_before(names, 30, names[30]));
    assert(fresh_before(names, 31, names[31]));
    assert(distinct_in(names, 16, 16));
}

proof fn lemma_faction_names_fresh_32()
    ensures
        distinct_in(column_names(faction_layout()), 32, 5),
{
    reveal_strlit("id");
    reveal_strlit("reputationIdx");
    reveal_strlit("repRaceMask_1");
    reveal_strlit("repRaceMask_2");
    reveal_strlit("repRaceMask_3");
    reveal_strlit("repRaceMask_4");
    reveal_strlit("repClassMask_1");
    reveal_strlit("repClassMask_2");
    reveal_strlit("repClassMask_3");
    reveal_strlit("repClassMask_4");
    reveal_strlit("repBase_1");
    reveal_strlit("repBase_2");
    reveal_strlit("repBase_3");
    reveal_strlit("repBase_4");
    reveal_strlit("repFlags_1");
    reveal_strlit("repFlags_2");
    reveal_strlit("repFlags_3");
    reveal_strlit("repFlags_4");
    reveal_strlit("parentFactionId");
    reveal_strlit("name_enUS");
    reveal_strlit("name_koKR");
    reveal_strlit("name_frFR");
    reveal_strlit("name_deDE");
    reveal_strlit("name_zhCN");
    reveal_strlit("name_ruRU");
    reveal_strlit("name_esES");
    reveal_strlit("name_ptPT");
    reveal_strlit("nameMask");
    reveal_strlit("description_enUS");
    reveal_strlit("description_koKR");
    reveal_strlit("description_frFR");
    reveal_strlit("description_deDE");
    reveal_strlit("description_zhCN");
    reveal_strlit("description_ruRU");
    reveal_strlit("description_esES");
    reveal_strlit("description_ptPT");
    reveal_strlit("descriptionMask");
    reveal_with_fuel(distinct_in, 6);
    reveal_with_fuel(fresh_before, 4);
    reveal_with_fuel(fresh_in, 17);
    reveal_with_fuel(chars_differ, 17);
    let names = column_names(faction_layout());
    assert(fresh_before(names, 32, names[32]));
    assert(fresh_before(names, 33, names[33]));
    assert(fresh_before(names, 34, names[34]));
    assert(fresh_before(names, 35, names[35]));
    assert(fresh_before(names, 36, names[36]));
    assert(distinct_in(names, 32, 5));
}

proof fn lemma_faction_names_distinct()
    ensures
        distinct_column_names(faction_layout()),
{
    let names = column_names(faction_layout());
    assert(distinct_prefix(names, 0)) by {
        reveal(distinct_prefix);
    }
    lemma_faction_names_fresh_0();
    lemma_extend(names, 0, 16);
    lemma_faction_names_fresh_16();
    lemma_extend(names, 16, 16);
    lemma_faction_names_fresh_32();
    lemma_extend(names, 32, 5);
    assert(names.len() == 37);
    lemma_no_duplicates(names);
    reveal(distinct_column_names);
}

proof fn lemma_faction_template_names_distinct()
    ensures
        distinct_column_names(faction_template_layout()),
{
    reveal_strlit("id");
    reveal_strlit("faction");
    reveal_strlit("flags");
    reveal_strlit("factionGroup");
    reveal_strlit("friendGroup");
    reveal_strlit("enemyGroup");
    reveal_strlit("enemy_1");
    reveal_strlit("enemy_2");
    reveal_strlit("enemy_3");
    reveal_strlit("enemy_4");
    reveal_strlit("friend_1");
    reveal_strlit("friend_2");
    reveal_strlit("friend_3");
    reveal_strlit("friend_4");
    reveal_with_fuel(distinct_in, 15);
    reveal_with_fuel(fresh_before, 2);
    reveal_with_fuel(fresh_in, 17);
    reveal_with_fuel(chars_differ, 13);
    let names = column_names(faction_template_layout());
    assert(fresh_before(names, 0, names[0]));
    assert(fresh_before(names, 1, names[1]));
    assert(fresh_before(names, 2, names[2]));
    assert(fresh_before(names, 3, names[3]));
    assert(fresh_before(names, 4, names[4]));
    assert(fresh_before(names, 5, names[5]));
    assert(fresh_before(names, 6, names[6]));
    assert(fresh_before(names, 7, names[7]));
    assert(fresh_before(names, 8, names[8]));
    assert(fresh_before(names, 9, names[9]));
    assert(fresh_before(names, 10, names[10]));
    assert(fresh_before(names, 11, names[11]));
    assert(fresh_before(names, 12, names[12]));
    assert(fresh_before(names, 13, names[13]));
    assert(distinct_in(names, 0, 14));
    assert(distinct_prefix(names, 0)) by {
        reveal(distinct_prefix);
    }
    lemma_extend(names, 0, 14);
    lemma_no_duplicates(names);
    reveal(distinct_column_names);
}

proof fn lemma_item_bag_family_names_distinct()
    ensures
        distinct_column_names(item_bag_family_layout()),
{
    reveal_strlit("id");
    reveal_strlit("name_enUS");
    reveal_strlit("name_koKR");
    reveal_strlit("name_frFR");
    reveal_strlit("name_deDE");
    reveal_strlit("name_zhCN");
    reveal_strlit("name_ruRU");
    reveal_strlit("name_esES");
    reveal_strlit("name_ptPT");
    reveal_strlit("nameMask");
    reveal_with_fuel(distinct_in, 11);
    reveal_with_fuel(fresh_before, 2);
    reveal_with_fuel(fresh_in, 17);
    reveal_with_fuel(chars_differ, 10);
    let names = column_names(item_bag_family_layout());
    assert(fresh_before(names, 0, names[0]));
    assert(fresh_before(names, 1, names[1]));
    assert(fresh_before(names, 2, names[2]));
    assert(fresh_before(names, 3, names[3]));
    assert(fresh_before(names, 4, names[4]));
    assert(fresh_before(names, 5, names[5]));
    assert(fresh_before(names, 6, names[6]));
    assert(fresh_before(names, 7, names[7]));
    assert(fresh_before(names, 8, names[8]));
    assert(fresh_before(names, 9, names[9]));
    assert(distinct_in(names, 0, 10));
    assert(distinct_prefix(names, 0)) by {
        reveal(distinct_prefix);
    }
    lemma_extend(names, 0, 10);
    lemma_no_duplicates(names);
    reveal(distinct_column_names);
}

proof fn lemma_item_class_names_distinct()
    ensures
        distinct_column_names(item_class_layout()),
{
    reveal_strlit("id");
    reveal_strlit("subclassMapId");
    reveal_strlit("flags");
    reveal_strlit("className_enUS");
    reveal_strlit("className_koKR");
    reveal_strlit("className_frFR");
    reveal_strlit("className_deDE");
    reveal_strlit("className_zhCN");
    reveal_strlit("className_ruRU");
    reveal_strlit("className_esES");
    reveal_strlit("className_ptPT");
    reveal_strlit("classNameMask");
    reveal_with_fuel(distinct_in, 13);
    reveal_with_fuel(fresh_before, 2);
    reveal_with_fuel(fresh_in, 17);
    reveal_with_fuel(chars_differ, 15);
    let names = column_names(item_class_layout());
    assert(fresh_before(names, 0, names[0]));
    assert(fresh_before(names, 1, names[1]));
    assert(fresh_before(names, 2, names[2]));
    assert(fresh_before(names, 3, names[3]));
    assert(fresh_before(names, 4, names[4]));
    assert(fresh_before(names, 5, names[5]));
    assert(fresh_before(names, 6, names[6]));
    assert(fresh_before(names, 7, names[7]));
    assert(fresh_before(names, 8, names[8]));
    assert(fresh_before(names, 9, names[9]));
    assert(fresh_before(names, 10, names[10]));
    assert(fresh_before(names, 11, names[11]));
    assert(distinct_in(names, 0, 12));
    assert(distinct_prefix(names, 0)) by {
        reveal(distinct_prefix);
    }
    lemma_extend(names, 0, 12);
    lemma_no_duplicates(names);
    reveal(distinct_column_names);
}

proof fn lemma_item_display_info_names_fresh_0()
    ensures
        distinct_in(column_names(item_display_info_layout()), 0, 16),
{
    reveal_strlit("id");
    reveal_strlit("modelName_1");
    reveal_strlit("modelName_2");
    reveal_strlit("modelTexture_1");
    reveal_strlit("modelTexture_2");
    reveal_strlit("inventoryIcon");
    reveal_strlit("geosetGroup_1");
    reveal_strlit("geosetGroup_2");
    reveal_strlit("geosetGroup_3");
    reveal_strlit("flags");
    reveal_strlit("spellVisualId");
    reveal_strlit("groupSoundIndex");
    reveal_strlit("helmetGeosetVisId_1");
    reveal_strlit("helmetGeosetVisId_2");
    reveal_strlit("texture_1");
    reveal_strlit("texture_2");
    reveal_with_fuel(distinct_in, 17);
    reveal_with_fuel(fresh_before, 2);
    reveal_with_fuel(fresh_in, 17);
    reveal_with_fuel(chars_differ, 20);
    let names = column_names(item_display_info_layout());
    assert(fresh_before(names, 0, names[0]));
    assert(fresh_before(names, 1, names[1]));
    assert(fresh_before(names, 2, names[2]));
    assert(fresh_before(names, 3, names[3]));
    assert(fresh_before(names, 4, names[4]));
    assert(fresh_before(names, 5, names[5]));
    assert(fresh_before(names, 6, names[6]));
    assert(fresh_before(names, 7, names[7]));
    assert(fresh_before(names, 8, names[8]));
    assert(fresh_before(names, 9, names[9]));
    assert(fresh_before(names, 10, names[10]));
    assert(fresh_before(names, 11, names[11]));
    assert(fresh_before(names, 12, names[12]));
    assert(fresh_before(names, 13, names[13]));
    assert(fresh_before(names, 14, names[14]));
    assert(fresh_before(names, 15, names[15]));
    assert(distinct_in(names, 0, 16));
}

proof fn lemma_item_display_info_names_fresh_16()
    ensures
        distinct_in(column_names(item_display_info_layout()), 16, 7),
{
    reveal_strlit("id");
    reveal_strlit("modelName_1");
    reveal_strlit("modelName_2");
    reveal_strlit("modelTexture_1");
    reveal_strlit("modelTexture_2");
    reveal_strlit("inventoryIcon");
    reveal_strlit("geosetGroup_1");
    reveal_strlit("geosetGroup_2");
    reveal_strlit("geosetGroup_3");
    reveal_strlit("flags");
    reveal_strlit("spellVisualId");
    reveal_strlit("groupSoundIndex");
    reveal_strlit("helmetGeosetVisId_1");
    reveal_strlit("helmetGeosetVisId_2");
    reveal_strlit("texture_1");
    reveal_strlit("texture_2");
    reveal_strlit("texture_3");
    reveal_strlit("texture_4");
    reveal_strlit("texture_5");
    reveal_strlit("texture_6");
    reveal_strlit("texture_7");
    reveal_strlit("texture_8");
    reveal_strlit("itemVisual");
    reveal_with_fuel(distinct_in, 8);
    reveal_with_fuel(fresh_before, 3);
    reveal_with_fuel(fresh_in, 17);
    reveal_with_fuel(chars_differ, 20);
    let names = column_names(item_display_info_layout());
    assert(fresh_before(names, 16, names[16]));
    assert(fresh_before(names, 17, names[17]));
    assert(fresh_before(names, 18, names[18]));
    assert(fresh_before(names, 19, names[19]));
    assert(fresh_before(names, 20, names[20]));
    assert(fresh_before(names, 21, names[21]));
    assert(fresh_before(names, 22, names[22]));
    assert(distinct_in(names, 16, 7));
}

proof fn lemma_item_display_info_names_distinct()
    ensures
        distinct_column_names(item_display_info_layout()),
{
    let names = column_names(item_display_info_layout());
    assert(distinct_prefix(names, 0)) by {
        reveal(distinct_prefix);
    }
    lemma_item_display_info_names_fresh_0();
    lemma_extend(names, 0, 16);
    lemma_item_display_info_names_fresh_16();
    lemma_extend(names, 16, 7);
    assert(names.len() == 23);
    lemma_no_duplicates(names);
    reveal(distinct_column_names);
}

proof fn lemma_item_random_properties_names_distinct()
    ensures
        distinct_column_names(item_random_properties_layout()),
{
    reveal_strlit("id");
    reveal_strlit("name");
    reveal_strlit("enchantment_1");
    reveal_strlit("enchantment_2");
    reveal_strlit("enchantment_3");
    reveal_strlit("enchantment_4");
    reveal_strlit("enchantment_5");
    reveal_strlit("suffix_enUS");
    reveal_strlit("suffix_koKR");
    reveal_strlit("suffix_frFR");
    reveal_strlit("suffix_deDE");
    reveal_strlit("suffix_zhCN");
    reveal_strlit("suffix_ruRU");
    reveal_strlit("suffix_esES");
    reveal_strlit("suffix_ptPT");
    reveal_strlit("suffixMask");
    reveal_with_fuel(distinct_in, 17);
    reveal_with_fuel(fresh_before, 2);
    reveal_with_fuel(fresh_in, 17);
    reveal_with_fuel(chars_differ, 14);
    let names = column_names(item_random_properties_layout());
    assert(fresh_before(names, 0, names[0]));
    assert(fresh_before(names, 1, names[1]));
    assert(fresh_before(names, 2, names[2]));
    assert(fresh_before(names, 3, names[3]));
    assert(fresh_before(names, 4, names[4]));
    assert(fresh_before(names, 5, names[5]));
    assert(fresh_before(names, 6, names[6]));
    assert(fresh_before(names, 7, names[7]));
    assert(fresh_before(names, 8, names[8]));
    assert(fresh_before(names, 9, names[9]));
    assert(fresh_before(names, 10, names[10]));
    assert(fresh_before(names, 11, names[11]));
    assert(fresh_before(names, 12, names[12]));
    assert(fresh_before(names, 13, names[13]));
    assert(fresh_before(names, 14, names[14]));
    assert(fresh_before(names, 15, names[15]));
    assert(distinct_in(names, 0, 16));
    assert(distinct_prefix(names, 0)) by {
        reveal(distinct_prefix);
    }
    lemma_extend(names, 0, 16);
    lemma_no_duplicates(names);
    reveal(distinct_column_names);
}

proof fn lemma_item_set_names_fresh_0()
    ensures
        distinct_in(column_names(item_set_layout()), 0, 16),
{
    reveal_strlit("id");
    reveal_strlit("name_enUS");
    reveal_strlit("name_koKR");
    reveal_strlit("name_frFR");
    reveal_strlit("name_deDE");
    reveal_strlit("name_zhCN");
    reveal_strlit("name_ruRU");
    reveal_strlit("name_esES");
    reveal_strlit("name_ptPT");
    reveal_strlit("nameMask");
    reveal_strlit("itemId_1");
    reveal_strlit("itemId_2");
    reveal_strlit("itemId_3");
    reveal_strlit("itemId_4");
    reveal_strlit("itemId_5");
    reveal_strlit("itemId_6");
    reveal_with_fuel(distinct_in, 17);
    reveal_with_fuel(fresh_before, 2);
    reveal_with_fuel(fresh_in, 17);
    reveal_with_fuel(chars_differ, 10);
    let names = column_names(item_set_layout());
    assert(fresh_before(names, 0, names[0]));
    assert(fresh_before(names, 1, names[1]));
    assert(fresh_before(names, 2, names[2]));
    assert(fresh_before(names, 3, names[3]));
    assert(fresh_before(names, 4, names[4]));
    assert(fresh_before(names, 5, names[5]));
    assert(fresh_before(names, 6, names[6]));
    assert(fresh_before(names, 7, names[7]));
    assert(fresh_before(names, 8, names[8]));
    assert(fresh_before(names, 9, names[9]));
    assert(fresh_before(names, 10, names[10]));
    assert(fresh_before(names, 11, names[11]));
    assert(fresh_before(names, 12, names[12]));
    assert(fresh_before(names, 13, names[13]));
    assert(fresh_before(names, 14, names[14]));
    assert(fresh_before(names, 15, names[15]));
    assert(distinct_in(names, 0, 16));
}

proof fn lemma_item_set_names_fresh_16()
    ensures
        distinct_in(column_names(item_set_layout()), 16, 16),
{
    reveal_strlit("id");
    reveal_strlit("name_enUS");
    reveal_strlit("name_koKR");
    reveal_strlit("name_frFR");
    reveal_strlit("name_deDE");
    reveal_strlit("name_zhCN");
    reveal_strlit("name_ruRU");
    reveal_strlit("name_esES");
    reveal_strlit("name_ptPT");
    reveal_strlit("nameMask");
    reveal_strlit("itemId_1");
    reveal_strlit("itemId_2");
    reveal_strlit("itemId_3");
    reveal_strlit("itemId_4");
    reveal_strlit("itemId_5");
    reveal_strlit("itemId_6");
    reveal_strlit("itemId_7");
    reveal_strlit("itemId_8");
    reveal_strlit("itemId_9");
    reveal_strlit("itemId_10");
    reveal_strlit("itemId_11");
    reveal_strlit("itemId_12");
    reveal_strlit("itemId_13");
    reveal_strlit("itemId_14");
    reveal_strlit("itemId_15");
    reveal_strlit("itemId_16");
    reveal_strlit("itemId_17");
    reveal_strlit("setSpellId_1");
    reveal_strlit("setSpellId_2");
    reveal_strlit("setSpellId_3");
    reveal_strlit("setSpellId_4");
    reveal_strlit("setSpellId_5");
    reveal_with_fuel(distinct_in, 17);
    reveal_with_fuel(fresh_before, 3);
    reveal_with_fuel(fresh_in, 17);
    reveal_with_fuel(chars_differ, 13);
    let names = column_names(item_set_layout());
    assert(fresh_before(names, 16, names[16]));
    assert(fresh_before(names, 17, names[17]));
    assert(fresh_before(names, 18, names[18]));
    assert(fresh_before(names, 19, names[19]));
    assert(fresh_before(names, 20, names[20]));
    assert(fresh_before(names, 21, names[21]));
    assert(fresh_before(names, 22, names[22]));
    assert(fresh_before(names, 23, names[23]));
    assert(fresh_before(names, 24, names[24]));
    assert(fresh_before(names, 25, names[25]));
    assert(fresh_before(names, 26, names[26]));
    assert(fresh_before(names, 27, names[27]));
    assert(fresh_before(names, 28, names[28]));
    assert(fresh_before(names, 29, names[29]));
    assert(fresh_before(names, 30, names[30]));
    assert(fresh_before(names, 31, names[31]));
    assert(distinct_in(names, 16, 16));
}

proof fn lemma_item_set_names_fresh_32()
    ensures
        distinct_in(column_names(item_set_layout()), 32, 13),
{
    reveal_strlit("id");
    reveal_strlit("name_enUS");
    reveal_strlit("name_koKR");
    reveal_strlit("name_frFR");
    reveal_strlit("name_deDE");
    reveal_strlit("name_zhCN");
    reveal_strlit("name_ruRU");
    reveal_strlit("name_esES");
    reveal_strlit("name_ptPT");
    reveal_strlit("nameMask");
    reveal_strlit("itemId_1");
    reveal_strlit("itemId_2");
    reveal_strlit("itemId_3");
    reveal_strlit("itemId_4");
    reveal_strlit("itemId_5");
    reveal_strlit("itemId_6");
    reveal_strlit("itemId_7");
    reveal_strlit("itemId_8");
    reveal_strlit("itemId_9");
    reveal_strlit("itemId_10");
    reveal_strlit("itemId_11");
    reveal_strlit("itemId_12");
    reveal_strlit("itemId_13");
    reveal_strlit("itemId_14");
    reveal_strlit("itemId_15");
    reveal_strlit("itemId_16");
    reveal_strlit("itemId_17");
    reveal_strlit("setSpellId_1");
    reveal_strlit("setSpellId_2");
    reveal_strlit("setSpellId_3");
    reveal_strlit("setSpellId_4");
    reveal_strlit("setSpellId_5");
    reveal_strlit("setSpellId_6");
    reveal_strlit("setSpellId_7");
    reveal_strlit("setSpellId_8");
    reveal_strlit("setThreshold_1");
    reveal_strlit("setThreshold_2");
    reveal_strlit("setThreshold_3");
    reveal_strlit("setThreshold_4");
    reveal_strlit("setThreshold_5");
    reveal_strlit("setThreshold_6");
    reveal_strlit("setThreshold_7");
    reveal_strlit("setThreshold_8");
    reveal_strlit("requiredSkillId");
    reveal_strlit("requiredSkillRank");
    reveal_with_fuel(distinct_in, 14);
    reveal_with_fuel(fresh_before, 4);
    reveal_with_fuel(fresh_in, 17);
    reveal_with_fuel(chars_differ, 18);
    let names = column_names(item_set_layout());
    assert(fresh_before(names, 32, names[32]));
    assert(fresh_before(names, 33, names[33]));
    assert(fresh_before(names, 34, names[34]));
    assert(fresh_before(names, 35, names[35]));
    assert(fresh_before(names, 36, names[36]));
    assert(fresh_before(names, 37, names[37]));
    assert(fresh_before(names, 38, names[38]));
    assert(fresh_before(names, 39, names[39]));
    assert(fresh_before(names, 40, names[40]));
    assert(fresh_before(names, 41, names[41]));
    assert(fresh_before(names, 42, names[42]));
    assert(fresh_before(names, 43, names[43]));
    assert(fresh_before(names, 44, names[44]));
    assert(distinct_in(names, 32, 13));
}

proof fn lemma_item_set_names_distinct()
    ensures
        distinct_column_names(item_set_layout()),
{
    let names = column_names(item_set_layout());
    assert(distinct_prefix(names, 0)) by {
        reveal(distinct_prefix);
    }
    lemma_item_set_names_fresh_0();
    lemma_extend(names, 0, 16);
    lemma_item_set_names_fresh_16();
    lemma_extend(names, 16, 16);
    lemma_item_set_names_fresh_32();
    lemma_extend(names, 32, 13);
    assert(names.len() == 45);
    lemma_no_duplicates(names);
    reveal(distinct_column_names);
}

proof fn lemma_item_sub_class_names_fresh_0()
    ensures
        distinct_in(column_names(item_sub_class_layout()), 0, 16),
{
    reveal_strlit("classId");
    reveal_strlit("subclassId");
    reveal_strlit("prereqProficiency");
    reveal_strlit("postreqProficiency");
    reveal_strlit("flags");
    reveal_strlit("displayFlags");
    reveal_strlit("weaponParrySeq");
    reveal_strlit("weaponReadySeq");
    reveal_strlit("weaponAttackSeq");
    reveal_strlit("weaponSwingSize");
    reveal_strlit("displayName_enUS");
    reveal_strlit("displayName_koKR");
    reveal_strlit("displayName_frFR");
    reveal_strlit("displayName_deDE");
    reveal_strlit("displayName_zhCN");
    reveal_strlit("displayName_ruRU");
    reveal_with_fuel(distinct_in, 17);
    reveal_with_fuel(fresh_before, 2);
    reveal_with_fuel(fresh_in, 17);
    reveal_with_fuel(chars_differ, 19);
    let names = column_names(item_sub_class_layout());
    assert(fresh_before(names, 0, names[0]));
    assert(fresh_before(names, 1, names[1]));
    assert(fresh_before(names, 2, names[2]));
    assert(fresh_before(names, 3, names[3]));
    assert(fresh_before(names, 4, names[4]));
    assert(fresh_before(names, 5, names[5]));
    assert(fresh_before(names, 6, names[6]));
    assert(fresh_before(names, 7, names[7]));
    assert(fresh_before(names, 8, names[8]));
    assert(fresh_before(names, 9, names[9]));
    assert(fresh_before(names, 10, names[10]));
    assert(fresh_before(names, 11, names[11]));
    assert(fresh_before(names, 12, names[12]));
    assert(fresh_before(names, 13, names[13]));
    assert(fresh_before(names, 14, names[14]));
    assert(fresh_before(names, 15, names[15]));
    assert(distinct_in(names, 0, 16));
}

proof fn lemma_item_sub_class_names_fresh_16()
    ensures
        distinct_in(column_names(item_sub_class_layout()), 16, 12),
{
    reveal_strlit("classId");
    reveal_strlit("subclassId");
    reveal_strlit("prereqProficiency");
    reveal_strlit("postreqProficiency");
    reveal_strlit("flags");
    reveal_strlit("displayFlags");
    reveal_strlit("weaponParrySeq");
    reveal_strlit("weaponReadySeq");
    reveal_strlit("weaponAttackSeq");
    reveal_strlit("weaponSwingSize");
    reveal_strlit("displayName_enUS");
    reveal_strlit("displayName_koKR");
    reveal_strlit("displayName_frFR");
    reveal_strlit("displayName_deDE");
    reveal_strlit("displayName_zhCN");
    reveal_strlit("displayName_ruRU");
    reveal_strlit("displayName_esES");
    reveal_strlit("displayName_ptPT");
    reveal_strlit("displayNameMask");
    reveal_strlit("verboseName_enUS");
    reveal_strlit("verboseName_koKR");
    reveal_strlit("verboseName_frFR");
    reveal_strlit("verboseName_deDE");
    reveal_strlit("verboseName_zhCN");
    reveal_strlit("verboseName_ruRU");
    reveal_strlit("verboseName_esES");
    reveal_strlit("verboseName_ptPT");
    reveal_strlit("verboseNameMask");
    reveal_with_fuel(distinct_in, 13);
    reveal_with_fuel(fresh_before, 3);
    reveal_with_fuel(fresh_in, 17);
    reveal_with_fuel(chars_differ, 19);
    let names = column_names(item_sub_class_layout());
    assert(fresh_before(names, 16, names[16]));
    assert(fresh_before(names, 17, names[17]));
    assert(fresh_before(names, 18, names[18]));
    assert(fresh_before(names, 19, names[19]));
    assert(fresh_before(names, 20, names[20]));
    assert(fresh_before(names, 21, names[21]));
    assert(fresh_before(names, 22, names[22]));
    assert(fresh_before(names, 23, names[23]));
    assert(fresh_before(names, 24, names[24]));
    assert(fresh_before(names, 25, names[25]));
    assert(fresh_before(names, 26, names[26]));
    assert(fresh_before(names, 27, names[27]));
    assert(distinct_in(names, 16, 12));
}

proof fn lemma_item_sub_class_names_distinct()
    ensures
        distinct_column_names(item_sub_class_layout()),
{
    let names = column_names(item_sub_class_layout());
    assert(distinct_prefix(names, 0)) by {
        reveal(distinct_prefix);
    }
    lemma_item_sub_class_names_fresh_0();
    lemma_extend(names, 0, 16);
    lemma_item_sub_class_names_fresh_16();
    lemma_extend(names, 16, 12);
    assert(names.len() == 28);
    lemma_no_duplicates(names);
    reveal(distinct_column_names);
}

proof fn lemma_lfg_dungeons_names_distinct()
    ensures
        distinct_column_names(lfg_dungeons_layout()),
{
    reveal_strlit("id");
    reveal_strlit("name_enUS");
    reveal_strlit("name_koKR");
    reveal_strlit("name_frFR");
    reveal_strlit("name_deDE");
    reveal_strlit("name_zhCN");
    reveal_strlit("name_ruRU");
    reveal_strlit("name_esES");
    reveal_strlit("name_ptPT");
    reveal_strlit("nameMask");
    reveal_strlit("levelMin");
    reveal_strlit("levelMax");
    reveal_strlit("instanceType");
    reveal_strlit("faction");
    reveal_with_fuel(distinct_in, 15);
    reveal_with_fuel(fresh_before, 2);
    reveal_with_fuel(fresh_in, 17);
    reveal_with_fuel(chars_differ, 13);
    let names = column_names(lfg_dungeons_layout());
    assert(fresh_before(names, 0, names[0]));
    assert(fresh_before(names, 1, names[1]));
    assert(fresh_before(names, 2, names[2]));
    assert(fresh_before(names, 3, names[3]));
    assert(fresh_before(names, 4, names[4]));
    assert(fresh_before(names, 5, names[5]));
    assert(fresh_before(names, 6, names[6]));
    assert(fresh_before(names, 7, names[7]));
    assert(fresh_before(names, 8, names[8]));
    assert(fresh_before(names, 9, names[9]));
    assert(fresh_before(names, 10, names[10]));
    assert(fresh_before(names, 11, names[11]));
    assert(fresh_before(names, 12, names[12]));
    assert(fresh_before(names, 13, names[13]));
    assert(distinct_in(names, 0, 14));
    assert(distinct_prefix(names, 0)) by {
        reveal(distinct_prefix);
    }
    lemma_extend(names, 0, 14);
    lemma_no_duplicates(names);
    reveal(distinct_column_names);
}

proof fn lemma_lock_names_fresh_0()
    ensures
        distinct_in(column_names(lock_layout()), 0, 16),
{
    reveal_strlit("id");
    reveal_strlit("type_1");
    reveal_strlit("type_2");
    reveal_strlit("type_3");
    reveal_strlit("type_4");
    reveal_strlit("type_5");
    reveal_strlit("type_6");
    reveal_strlit("type_7");
    reveal_strlit("type_8");
    reveal_strlit("index_1");
    reveal_strlit("index_2");
    reveal_strlit("index_3");
    reveal_strlit("index_4");
    reveal_strlit("index_5");
    reveal_strlit("index_6");
    reveal_strlit("index_7");
    reveal_with_fuel(distinct_in, 17);
    reveal_with_fuel(fresh_before, 2);
    reveal_with_fuel(fresh_in, 17);
    reveal_with_fuel(chars_differ, 8);
    let names = column_names(lock_layout());
    assert(fresh_before(names, 0, names[0]));
    assert(fresh_before(names, 1, names[1]));
    assert(fresh_before(names, 2, names[2]));
    assert(fresh_before(names, 3, names[3]));
    assert(fresh_before(names, 4, names[4]));
    assert(fresh_before(names, 5, names[5]));
    assert(fresh_before(names, 6, names[6]));
    assert(fresh_before(names, 7, names[7]));
    assert(fresh_before(names, 8, names[8]));
    assert(fresh_before(names, 9, names[9]));
    assert(fresh_before(names, 10, names[10]));
    assert(fresh_before(names, 11, names[11]));
    assert(fresh_before(names, 12, names[12]));
    assert(fresh_before(names, 13, names[13]));
    assert(fresh_before(names, 14, names[14]));
    assert(fresh_before(names, 15, names[15]));
    assert(distinct_in(names, 0, 16));
}

proof fn lemma_lock_names_fresh_16()
    ensures
        distinct_in(column_names(lock_layout()), 16, 16),
{
    reveal_strlit("id");
    reveal_strlit("type_1");
    reveal_strlit("type_2");
    reveal_strlit("type_3");
    reveal_strlit("type_4");
    reveal_strlit("type_5");
    reveal_strlit("type_6");
    reveal_strlit("type_7");
    reveal_strlit("type_8");
    reveal_strlit("index_1");
    reveal_strlit("index_2");
    reveal_strlit("index_3");
    reveal_strlit("index_4");
    reveal_strlit("index_5");
    reveal_strlit("index_6");
    reveal_strlit("index_7");
    reveal_strlit("index_8");
    reveal_strlit("skill_1");
    reveal_strlit("skill_2");
    reveal_strlit("skill_3");
    reveal_strlit("skill_4");
    reveal_strlit("skill_5");
    reveal_strlit("skill_6");
    reveal_strlit("skill_7");
    reveal_strlit("skill_8");
    reveal_strlit("action_1");
    reveal_strlit("action_2");
    reveal_strlit("action_3");
    reveal_strlit("action_4");
    reveal_strlit("action_5");
    reveal_strlit("action_6");
    reveal_strlit("action_7");
    reveal_with_fuel(distinct_in, 17);
    reveal_with_fuel(fresh_before, 3);
    reveal_with_fuel(fresh_in, 17);
    reveal_with_fuel(chars_differ, 9);
    let names = column_names(lock_layout());
    assert(fresh_before(names, 16, names[16]));
    assert(fresh_before(names, 17, names[17]));
    assert(fresh_before(names, 18, names[18]));
    assert(fresh_before(names, 19, names[19]));
    assert(fresh_before(names, 20, names[20]));
    assert(fresh_before(names, 21, names[21]));
    assert(fresh_before(names, 22, names[22]));
    assert(fresh_before(names, 23, names[23]));
    assert(fresh_before(names, 24, names[24]));
    assert(fresh_before(names, 25, names[25]));
    assert(fresh_before(names, 26, names[26]));
    assert(fresh_before(names, 27, names[27]));
    assert(fresh_before(names, 28, names[28]));
    assert(fresh_before(names, 29, names[29]));
    assert(fresh_before(names, 30, names[30]));
    assert(fresh_before(names, 31, names[31]));
    assert(distinct_in(names, 16, 16));
}

proof fn lemma_lock_names_fresh_32()
    ensures
        distinct_in(column_names(lock_layout()), 32, 1),
{
    reveal_strlit("id");
    reveal_strlit("type_1");
    reveal_strlit("type_2");
    reveal_strlit("type_3");
    reveal_strlit("type_4");
    reveal_strlit("type_5");
    reveal_strlit("type_6");
    reveal_strlit("type_7");
    reveal_strlit("type_8");
    reveal_strlit("index_1");
    reveal_strlit("index_2");
    reveal_strlit("index_3");
    reveal_strlit("index_4");
    reveal_strlit("index_5");
    reveal_strlit("index_6");
    reveal_strlit("index_7");
    reveal_strlit("index_8");
    reveal_strlit("skill_1");
    reveal_strlit("skill_2");
    reveal_strlit("skill_3");
    reveal_strlit("skill_4");
    reveal_strlit("skill_5");
    reveal_strlit("skill_6");
    reveal_strlit("skill_7");
    reveal_strlit("skill_8");
    reveal_strlit("action_1");
    reveal_strlit("action_2");
    reveal_strlit("action_3");
    reveal_strlit("action_4");
    reveal_strlit("action_5");
    reveal_strlit("action_6");
    reveal_strlit("action_7");
    reveal_strlit("action_8");
    reveal_with_fuel(distinct_in, 2);
    reveal_with_fuel(fresh_before, 4);
    reveal_with_fuel(fresh_in, 17);
    reveal_with_fuel(chars_differ, 9);
    let names = column_names(lock_layout());
    assert(fresh_before(names, 32, names[32]));
    assert(distinct_in(names, 32, 1));
}

proof fn lemma_lock_names_distinct()
    ensures
        distinct_column_names(lock_layout()),
{
    let names = column_names(lock_layout());
    assert(distinct_prefix(names, 0)) by {
        reveal(distinct_prefix);
    }
    lemma_lock_names_fresh_0();
    lemma_extend(names, 0, 16);
    lemma_lock_names_fresh_16();
    lemma_extend(names, 16, 16);
    lemma_lock_names_fresh_32();
    lemma_extend(names, 32, 1);
    assert(names.len() == 33);
    lemma_no_duplicates(names);
    reveal(distinct_column_names);
}

proof fn lemma_lock_type_names_fresh_0()
    ensures
        distinct_in(column_names(lock_type_layout()), 0, 16),
{
    reveal_strlit("id");
    reveal_strlit("name_enUS");
    reveal_strlit("name_koKR");
    reveal_strlit("name_frFR");
    reveal_strlit("name_deDE");
    reveal_strlit("name_zhCN");
    reveal_strlit("name_ruRU");
    reveal_strlit("name_esES");
    reveal_strlit("name_ptPT");
    reveal_strlit("nameMask");
    reveal_strlit("resource_enUS");
    reveal_strlit("resource_koKR");
    reveal_strlit("resource_frFR");
    reveal_strlit("resource_deDE");
    reveal_strlit("resource_zhCN");
    reveal_strlit("resource_ruRU");
    reveal_with_fuel(distinct_in, 17);
    reveal_with_fuel(fresh_before, 2);
    reveal_with_fuel(fresh_in, 17);
    reveal_with_fuel(chars_differ, 14);
    let names = column_names(lock_type_layout());
    assert(fresh_before(names, 0, names[0]));
    assert(fresh_before(names, 1, names[1]));
    assert(fresh_before(names, 2, names[2]));
    assert(fresh_before(names, 3, names[3]));
    assert(fresh_before(names, 4, names[4]));
    assert(fresh_before(names, 5, names[5]));
    assert(fresh_before(names, 6, names[6]));
    assert(fresh_before(names, 7, names[7]));
    assert(fresh_before(names, 8, names[8]));
    assert(fresh_before(names, 9, names[9]));
    assert(fresh_before(names, 10, names[10]));
    assert(fresh_before(names, 11, names[11]));
    assert(fresh_before(names, 12, names[12]));
    assert(fresh_before(names, 13, names[13]));
    assert(fresh_before(names, 14, names[14]));
    assert(fresh_before(names, 15, names[15]));
    assert(distinct_in(names, 0, 16));
}

proof fn lemma_lock_type_names_fresh_16()
    ensures
        distinct_in(column_names(lock_type_layout()), 16, 13),
{
    reveal_strlit("id");
    reveal_strlit("name_enUS");
    reveal_strlit("name_koKR");
    reveal_strlit("name_frFR");
    reveal_strlit("name_deDE");
    reveal_strlit("name_zhCN");
    reveal_strlit("name_ruRU");
    reveal_strlit("name_esES");
    reveal_strlit("name_ptPT");
    reveal_strlit("nameMask");
    reveal_strlit("resource_enUS");
    reveal_strlit("resource_koKR");
    reveal_strlit("resource_frFR");
    reveal_strlit("resource_deDE");
    reveal_strlit("resource_zhCN");
    reveal_strlit("resource_ruRU");
    reveal_strlit("resource_esES");
    reveal_strlit("resource_ptPT");
    reveal_strlit("resourceMask");
    reveal_strlit("verb_enUS");
    reveal_strlit("verb_koKR");
    reveal_strlit("verb_frFR");
    reveal_strlit("verb_deDE");
    reveal_strlit("verb_zhCN");
    reveal_strlit("verb_ruRU");
    reveal_strlit("verb_esES");
    reveal_strlit("verb_ptPT");
    reveal_strlit("verbMask");
    reveal_strlit("cursorName");
    reveal_with_fuel(distinct_in, 14);
    reveal_with_fuel(fresh_before, 3);
    reveal_with_fuel(fresh_in, 17);
    reveal_with_fuel(chars_differ, 14);
    let names = column_names(lock_type_layout());
    assert(fresh_before(names, 16, names[16]));
    assert(fresh_before(names, 17, names[17]));
    assert(fresh_before(names, 18, names[18]));
    assert(fresh_before(names, 19, names[19]));
    assert(fresh_before(names, 20, names[20]));
    assert(fresh_before(names, 21, names[21]));
    assert(fresh_before(names, 22, names[22]));
    assert(fresh_before(names, 23, names[23]));
    assert(fresh_before(names, 24, names[24]));
    assert(fresh_before(names, 25, names[25]));
    assert(fresh_before(names, 26, names[26]));
    assert(fresh_before(names, 27, names[27]));
    assert(fresh_before(names, 28, names[28]));
    assert(distinct_in(names, 16, 13));
}

proof fn lemma_lock_type_names_distinct()
    ensures
        distinct_column_names(lock_type_layout()),
{
    let names = column_names(lock_type_layout());
    assert(distinct_prefix(names, 0)) by {
        reveal(distinct_prefix);
    }
    lemma_lock_type_names_fresh_0();
    lemma_extend(names, 0, 16);
    lemma_lock_type_names_fresh_16();
    lemma_extend(names, 16, 13);
    assert(names.len() == 29);
    lemma_no_duplicates(names);
    reveal(distinct_column_names);
}

proof fn lemma_mail_template_names_distinct()
    ensures
        distinct_column_names(mail_template_layout()),
{
    reveal_strlit("id");
    reveal_strlit("body_enUS");
    reveal_strlit("body_koKR");
    reveal_strlit("body_frFR");
    reveal_strlit("body_deDE");
    reveal_strlit("body_zhCN");
    reveal_strlit("body_ruRU");
    reveal_strlit("body_esES");
    reveal_strlit("body_ptPT");
    reveal_strlit("bodyMask");
    reveal_with_fuel(distinct_in, 11);
    reveal_with_fuel(fresh_before, 2);
    reveal_with_fuel(fresh_in, 17);
    reveal_with_fuel(chars_differ, 10);
    let names = column_names(mail_template_layout());
    assert(fresh_before(names, 0, names[0]));
    assert(fresh_before(names, 1, names[1]));
    assert(fresh_before(names, 2, names[2]));
    assert(fresh_before(names, 3, names[3]));
    assert(fresh_before(names, 4, names[4]));
    assert(fresh_before(names, 5, names[5]));
    assert(fresh_before(names, 6, names[6]));
    assert(fresh_before(names, 7, names[7]));
    assert(fresh_before(names, 8, names[8]));
    assert(fresh_before(names, 9, names[9]));
    assert(distinct_in(names, 0, 10));
    assert(distinct_prefix(names, 0)) by {
        reveal(distinct_prefix);
    }
    lemma_extend(names, 0, 10);
    lemma_no_duplicates(names);
    reveal(distinct_column_names);
}

proof fn lemma_map_names_fresh_0()
    ensures
        distinct_in(column_names(map_layout()), 0, 16),
{
    reveal_strlit("id");
    reveal_strlit("directory");
    reveal_strlit("instanceType");
    reveal_strlit("isPvP");
    reveal_strlit("name_enUS");
    reveal_strlit("name_koKR");
    reveal_strlit("name_frFR");
    reveal_strlit("name_deDE");
    reveal_strlit("name_zhCN");
    reveal_strlit("name_ruRU");
    reveal_strlit("name_esES");
    reveal_strlit("name_ptPT");
    reveal_strlit("nameMask");
    reveal_strlit("levelMin");
    reveal_strlit("levelMax");
    reveal_strlit("maxPlayers");
    reveal_with_fuel(distinct_in, 17);
    reveal_with_fuel(fresh_before, 2);
    reveal_with_fuel(fresh_in, 17);
    reveal_with_fuel(chars_differ, 13);
    let names = column_names(map_layout());
    assert(fresh_before(names, 0, names[0]));
    assert(fresh_before(names, 1, names[1]));
    assert(fresh_before(names, 2, names[2]));
    assert(fresh_before(names, 3, names[3]));
    assert(fresh_before(names, 4, names[4]));
    assert(fresh_before(names, 5, names[5]));
    assert(fresh_before(names, 6, names[6]));
    assert(fresh_before(names, 7, names[7]));
    assert(fresh_before(names, 8, names[8]));
    assert(fresh_before(names, 9, names[9]));
    assert(fresh_before(names, 10, names[10]));
    assert(fresh_before(names, 11, names[11]));
    assert(fresh_before(names, 12, names[12]));
    assert(fresh_before(names, 13, names[13]));
    assert(fresh_before(names, 14, names[14]));
    assert(fresh_before(names, 15, names[15]));
    assert(distinct_in(names, 0, 16));
}

proof fn lemma_map_names_fresh_16()
    ensures
        distinct_in(column_names(map_layout()), 16, 16),
{
    reveal_strlit("id");
    reveal_strlit("directory");
    reveal_strlit("instanceType");
    reveal_strlit("isPvP");
    reveal_strlit("name_enUS");
    reveal_strlit("name_koKR");
    reveal_strlit("name_frFR");
    reveal_strlit("name_deDE");
    reveal_strlit("name_zhCN");
    reveal_strlit("name_ruRU");
    reveal_strlit("name_esES");
    reveal_strlit("name_ptPT");
    reveal_strlit("nameMask");
    reveal_strlit("levelMin");
    reveal_strlit("levelMax");
    reveal_strlit("maxPlayers");
    reveal_strlit("unknown_1");
    reveal_strlit("unknown_2");
    reveal_strlit("unknown_3");
    reveal_strlit("areaTableId");
    reveal_strlit("description_enUS");
    reveal_strlit("description_koKR");
    reveal_strlit("description_frFR");
    reveal_strlit("description_deDE");
    reveal_strlit("description_zhCN");
    reveal_strlit("description_ruRU");
    reveal_strlit("description_esES");
    reveal_strlit("description_ptPT");
    reveal_strlit("descriptionMask");
    reveal_strlit("description2_enUS");
    reveal_strlit("description2_koKR");
    reveal_strlit("description2_frFR");
    reveal_with_fuel(distinct_in, 17);
    reveal_with_fuel(fresh_before, 3);
    reveal_with_fuel(fresh_in, 17);
    reveal_with_fuel(chars_differ, 18);
    let names = column_names(map_layout());
    assert(fresh_before(names, 16, names[16]));
    assert(fresh_before(names, 17, names[17]));
    assert(fresh_before(names, 18, names[18]));
    assert(fresh_before(names, 19, names[19]));
    assert(fresh_before(names, 20, names[20]));
    assert(fresh_before(names, 21, names[21]));
    assert(fresh_before(names, 22, names[22]));
    assert(fresh_before(names, 23, names[23]));
    assert(fresh_before(names, 24, names[24]));
    assert(fresh_before(names, 25, names[25]));
    assert(fresh_before(names, 26, names[26]));
    assert(fresh_before(names, 27, names[27]));
    assert(fresh_before(names, 28, names[28]));
    assert(fresh_before(names, 29, names[29]));
    assert(fresh_before(names, 30, names[30]));
    assert(fresh_before(names, 31, names[31]));
    assert(distinct_in(names, 16, 16));
}

proof fn lemma_map_names_fresh_32()
    ensures
        distinct_in(column_names(map_layout()), 32, 10),
{
    reveal_strlit("id");
    reveal_strlit("directory");
    reveal_strlit("instanceType");
    reveal_strlit("isPvP");
    reveal_strlit("name_enUS");
    reveal_strlit("name_koKR");
    reveal_strlit("name_frFR");
    reveal_strlit("name_deDE");
    reveal_strlit("name_zhCN");
    reveal_strlit("name_ruRU");
    reveal_strlit("name_esES");
    reveal_strlit("name_ptPT");
    reveal_strlit("nameMask");
    reveal_strlit("levelMin");
    reveal_strlit("levelMax");
    reveal_strlit("maxPlayers");
    reveal_strlit("unknown_1");
    reveal_strlit("unknown_2");
    reveal_strlit("unknown_3");
    reveal_strlit("areaTableId");
    reveal_strlit("description_enUS");
    reveal_strlit("description_koKR");
    reveal_strlit("description_frFR");
    reveal_strlit("description_deDE");
    reveal_strlit("description_zhCN");
    reveal_strlit("description_ruRU");
    reveal_strlit("description_esES");
    reveal_strlit("description_ptPT");
    reveal_strlit("descriptionMask");
    reveal_strlit("description2_enUS");
    reveal_strlit("description2_koKR");
    reveal_strlit("description2_frFR");
    reveal_strlit("description2_deDE");
    reveal_strlit("description2_zhCN");
    reveal_strlit("description2_ruRU");
    reveal_strlit("description2_esES");
    reveal_strlit("description2_ptPT");
    reveal_strlit("description2Mask");
    reveal_strlit("loadingScreenId");
    reveal_strlit("raidOffset");
    reveal_strlit("canGroupQueue");
    reveal_strlit("unknown_4");
    reveal_with_fuel(distinct_in, 11);
    reveal_with_fuel(fresh_before, 4);
    reveal_with_fuel(fresh_in, 17);
    reveal_with_fuel(chars_differ, 18);
    let names = column_names(map_layout());
    assert(fresh_before(names, 32, names[32]));
    assert(fresh_before(names, 33, names[33]));
    assert(fresh_before(names, 34, names[34]));
    assert(fresh_before(names, 35, names[35]));
    assert(fresh_before(names, 36, names[36]));
    assert(fresh_before(names, 37, names[37]));
    assert(fresh_before(names, 38, names[38]));
    assert(fresh_before(names, 39, names[39]));
    assert(fresh_before(names, 40, names[40]));
    assert(fresh_before(names, 41, names[41]));
    assert(distinct_in(names, 32, 10));
}

proof fn lemma_map_names_distinct()
    ensures
        distinct_column_names(map_layout()),
{
    let names = column_names(map_layout());
    assert(distinct_prefix(names, 0)) by {
        reveal(distinct_prefix);
    }
    lemma_map_names_fresh_0();
    lemma_extend(names, 0, 16);
    lemma_map_names_fresh_16();
    lemma_extend(names, 16, 16);
    lemma_map_names_fresh_32();
    lemma_extend(names, 32, 10);
    assert(names.len() == 42);
    lemma_no_duplicates(names);
    reveal(distinct_column_names);
}

proof fn lemma_quest_info_names_distinct()
    ensures
        distinct_column_names(quest_info_layout()),
{
    reveal_strlit("id");
    reveal_strlit("name_enUS");
    reveal_strlit("name_koKR");
    reveal_strlit("name_frFR");
    reveal_strlit("name_deDE");
    reveal_strlit("name_zhCN");
    reveal_strlit("name_ruRU");
    reveal_strlit("name_esES");
    reveal_strlit("name_ptPT");
    reveal_strlit("nameMask");
    reveal_with_fuel(distinct_in, 11);
    reveal_with_fuel(fresh_before, 2);
    reveal_with_fuel(fresh_in, 17);
    reveal_with_fuel(chars_differ, 10);
    let names = column_names(quest_info_layout());
    assert(fresh_before(names, 0, names[0]));
    assert(fresh_before(names, 1, names[1]));
    assert(fresh_before(names, 2, names[2]));
    assert(fresh_before(names, 3, names[3]));
    assert(fresh_before(names, 4, names[4]));
    assert(fresh_before(names, 5, names[5]));
    assert(fresh_before(names, 6, names[6]));
    assert(fresh_before(names, 7, names[7]));
    assert(fresh_before(names, 8, names[8]));
    assert(fresh_before(names, 9, names[9]));
    assert(distinct_in(names, 0, 10));
    assert(distinct_prefix(names, 0)) by {
        reveal(distinct_prefix);
    }
    lemma_extend(names, 0, 10);
    lemma_no_duplicates(names);
    reveal(distinct_column_names);
}

proof fn lemma_quest_sort_names_distinct()
    ensures
        distinct_column_names(quest_sort_layout()),
{
    reveal_strlit("id");
    reveal_strlit("name_enUS");
    reveal_strlit("name_koKR");
    reveal_strlit("name_frFR");
    reveal_strlit("name_deDE");
    reveal_strlit("name_zhCN");
    reveal_strlit("name_ruRU");
    reveal_strlit("name_esES");
    reveal_strlit("name_ptPT");
    reveal_strlit("nameMask");
    reveal_with_fuel(distinct_in, 11);
    reveal_with_fuel(fresh_before, 2);
    reveal_with_fuel(fresh_in, 17);
    reveal_with_fuel(chars_differ, 10);
    let names = column_names(quest_sort_layout());
    assert(fresh_before(names, 0, names[0]));
    assert(fresh_before(names, 1, names[1]));
    assert(fresh_before(names, 2, names[2]));
    assert(fresh_before(names, 3, names[3]));
    assert(fresh_before(names, 4, names[4]));
    assert(fresh_before(names, 5, names[5]));
    assert(fresh_before(names, 6, names[6]));
    assert(fresh_before(names, 7, names[7]));
    assert(fresh_before(names, 8, names[8]));
    assert(fresh_before(names, 9, names[9]));
    assert(distinct_in(names, 0, 10));
    assert(distinct_prefix(names, 0)) by {
        reveal(distinct_prefix);
    }
    lemma_extend(names, 0, 10);
    lemma_no_duplicates(names);
    reveal(distinct_column_names);
}

proof fn lemma_skill_line_names_fresh_0()
    ensures
        distinct_in(column_names(skill_line_layout()), 0, 16),
{
    reveal_strlit("id");
    reveal_strlit("categoryId");
    reveal_strlit("skillCostsId");
    reveal_strlit("name_enUS");
    reveal_strlit("name_koKR");
    reveal_strlit("name_frFR");
    reveal_strlit("name_deDE");
    reveal_strlit("name_zhCN");
    reveal_strlit("name_ruRU");
    reveal_strlit("name_esES");
    reveal_strlit("name_ptPT");
    reveal_strlit("nameMask");
    reveal_strlit("description_enUS");
    reveal_strlit("description_koKR");
    reveal_strlit("description_frFR");
    reveal_strlit("description_deDE");
    reveal_with_fuel(distinct_in, 17);
    reveal_with_fuel(fresh_before, 2);
    reveal_with_fuel(fresh_in, 17);
    reveal_with_fuel(chars_differ, 17);
    let names = column_names(skill_line_layout());
    assert(fresh_before(names, 0, names[0]));
    assert(fresh_before(names, 1, names[1]));
    assert(fresh_before(names, 2, names[2]));
    assert(fresh_before(names, 3, names[3]));
    assert(fresh_before(names, 4, names[4]));
    assert(fresh_before(names, 5, names[5]));
    assert(fresh_before(names, 6, names[6]));
    assert(fresh_before(names, 7, names[7]));
    assert(fresh_before(names, 8, names[8]));
    assert(fresh_before(names, 9, names[9]));
    assert(fresh_before(names, 10, names[10]));
    assert(fresh_before(names, 11, names[11]));
    assert(fresh_before(names, 12, names[12]));
    assert(fresh_before(names, 13, names[13]));
    assert(fresh_before(names, 14, names[14]));
    assert(fresh_before(names, 15, names[15]));
    assert(distinct_in(names, 0, 16));
}

proof fn lemma_skill_line_names_fresh_16()
    ensures
        distinct_in(column_names(skill_line_layout()), 16, 6),
{
    reveal_strlit("id");
    reveal_strlit("categoryId");
    reveal_strlit("skillCostsId");
    reveal_strlit("name_enUS");
    reveal_strlit("name_koKR");
    reveal_strlit("name_frFR");
    reveal_strlit("name_deDE");
    reveal_strlit("name_zhCN");
    reveal_strlit("name_ruRU");
    reveal_strlit("name_esES");
    reveal_strlit("name_ptPT");
    reveal_strlit("nameMask");
    reveal_strlit("description_enUS");
    reveal_strlit("description_koKR");
    reveal_strlit("description_frFR");
    reveal_strlit("description_deDE");
    reveal_strlit("description_zhCN");
    reveal_strlit("description_ruRU");
    reveal_strlit("description_esES");
    reveal_strlit("description_ptPT");
    reveal_strlit("descriptionMask");
    reveal_strlit("spellIconId");
    reveal_with_fuel(distinct_in, 7);
    reveal_with_fuel(fresh_before, 3);
    reveal_with_fuel(fresh_in, 17);
    reveal_with_fuel(chars_differ, 17);
    let names = column_names(skill_line_layout());
    assert(fresh_before(names, 16, names[16]));
    assert(fresh_before(names, 17, names[17]));
    assert(fresh_before(names, 18, names[18]));
    assert(fresh_before(names, 19, names[19]));
    assert(fresh_before(names, 20, names[20]));
    assert(fresh_before(names, 21, names[21]));
    assert(distinct_in(names, 16, 6));
}

proof fn lemma_skill_line_names_distinct()
    ensures
        distinct_column_names(skill_line_layout()),
{
    let names = column_names(skill_line_layout());
    assert(distinct_prefix(names, 0)) by {
        reveal(distinct_prefix);
    }
    lemma_skill_line_names_fresh_0();
    lemma_extend(names, 0, 16);
    lemma_skill_line_names_fresh_16();
    lemma_extend(names, 16, 6);
    assert(names.len() == 22);
    lemma_no_duplicates(names);
    reveal(distinct_column_names);
}

proof fn lemma_skill_line_ability_names_distinct()
    ensures
        distinct_column_names(skill_line_ability_layout()),
{
    reveal_strlit("id");
    reveal_strlit("skillLine");
    reveal_strlit("spell");
    reveal_strlit("raceMask");
    reveal_strlit("classMask");
    reveal_strlit("excludeRace");
    reveal_strlit("excludeClass");
    reveal_strlit("minSkillLineRank");
    reveal_strlit("supersededBySpellId");
    reveal_strlit("acquireMethod");
    reveal_strlit("trivialSkillLineRankHigh");
    reveal_strlit("trivialSkillLineRankLow");
    reveal_strlit("charcterPoints_1");
    reveal_strlit("charcterPoints_2");
    reveal_strlit("numSkillUps");
    reveal_with_fuel(distinct_in, 16);
    reveal_with_fuel(fresh_before, 2);
    reveal_with_fuel(fresh_in, 17);
    reveal_with_fuel(chars_differ, 25);
    let names = column_names(skill_line_ability_layout());
    assert(fresh_before(names, 0, names[0]));
    assert(fresh_before(names, 1, names[1]));
    assert(fresh_before(names, 2, names[2]));
    assert(fresh_before(names, 3, names[3]));
    assert(fresh_before(names, 4, names[4]));
    assert(fresh_before(names, 5, names[5]));
    assert(fresh_before(names, 6, names[6]));
    assert(fresh_before(names, 7, names[7]));
    assert(fresh_before(names, 8, names[8]));
    assert(fresh_before(names, 9, names[9]));
    assert(fresh_before(names, 10, names[10]));
    assert(fresh_before(names, 11, names[11]));
    assert(fresh_before(names, 12, names[12]));
    assert(fresh_before(names, 13, names[13]));
    assert(fresh_before(names, 14, names[14]));
    assert(distinct_in(names, 0, 15));
    assert(distinct_prefix(names, 0)) by {
        reveal(distinct_prefix);
    }
    lemma_extend(names, 0, 15);
    lemma_no_duplicates(names);
    reveal(distinct_column_names);
}

proof fn lemma_skill_line_category_names_distinct()
    ensures
        distinct_column_names(skill_line_category_layout()),
{
    reveal_strlit("id");
    reveal_strlit("name_enUS");
    reveal_strlit("name_koKR");
    reveal_strlit("name_frFR");
    reveal_strlit("name_deDE");
    reveal_strlit("name_zhCN");
    reveal_strlit("name_ruRU");
    reveal_strlit("name_esES");
    reveal_strlit("name_ptPT");
    reveal_strlit("nameMask");
    reveal_strlit("sortIndex");
    reveal_with_fuel(distinct_in, 12);
    reveal_with_fuel(fresh_before, 2);
    reveal_with_fuel(fresh_in, 17);
    reveal_with_fuel(chars_differ, 10);
    let names = column_names(skill_line_category_layout());
    assert(fresh_before(names, 0, names[0]));
    assert(fresh_before(names, 1, names[1]));
    assert(fresh_before(names, 2, names[2]));
    assert(fresh_before(names, 3, names[3]));
    assert(fresh_before(names, 4, names[4]));
    assert(fresh_before(names, 5, names[5]));
    assert(fresh_before(names, 6, names[6]));
    assert(fresh_before(names, 7, names[7]));
    assert(fresh_before(names, 8, names[8]));
    assert(fresh_before(names, 9, names[9]));
    assert(fresh_before(names, 10, names[10]));
    assert(distinct_in(names, 0, 11));
    assert(distinct_prefix(names, 0)) by {
        reveal(distinct_prefix);
    }
    lemma_extend(names, 0, 11);
    lemma_no_duplicates(names);
    reveal(distinct_column_names);
}

proof fn lemma_spell_names_fresh_0()
    ensures
        distinct_in(column_names(spell_layout()), 0, 16),
{
    reveal_strlit("id");
    reveal_strlit("school");
    reveal_strlit("category");
    reveal_strlit("castUi");
    reveal_strlit("dispelType");
    reveal_strlit("mechanic");
    reveal_strlit("attribute_1");
    reveal_strlit("attribute_2");
    reveal_strlit("attribute_3");
    reveal_strlit("attribute_4");
    reveal_strlit("attribute_5");
    reveal_strlit("shapeshiftMask");
    reveal_strlit("shapeshiftExclude");
    reveal_strlit("targets");
    reveal_strlit("targetCreatureType");
    reveal_strlit("requiresSpellFocus");
    reveal_with_fuel(distinct_in, 17);
    reveal_with_fuel(fresh_before, 2);
    reveal_with_fuel(fresh_in, 17);
    reveal_with_fuel(chars_differ, 19);
    let names = column_names(spell_layout());
    assert(fresh_before(names, 0, names[0]));
    assert(fresh_before(names, 1, names[1]));
    assert(fresh_before(names, 2, names[2]));
    assert(fresh_before(names, 3, names[3]));
    assert(fresh_before(names, 4, names[4]));
    assert(fresh_before(names, 5, names[5]));
    assert(fresh_before(names, 6, names[6]));
    assert(fresh_before(names, 7, names[7]));
    assert(fresh_before(names, 8, names[8]));
    assert(fresh_before(names, 9, names[9]));
    assert(fresh_before(names, 10, names[10]));
    assert(fresh_before(names, 11, names[11]));
    assert(fresh_before(names, 12, names[12]));
    assert(fresh_before(names, 13, names[13]));
    assert(fresh_before(names, 14, names[14]));
    assert(fresh_before(names, 15, names[15]));
    assert(distinct_in(names, 0, 16));
}

proof fn lemma_spell_names_fresh_16()
    ensures
        distinct_in(column_names(spell_layout()), 16, 16),
{
    reveal_strlit("id");
    reveal_strlit("school");
    reveal_strlit("category");
    reveal_strlit("castUi");
    reveal_strlit("dispelType");
    reveal_strlit("mechanic");
    reveal_strlit("attribute_1");
    reveal_strlit("attribute_2");
    reveal_strlit("attribute_3");
    reveal_strlit("attribute_4");
    reveal_strlit("attribute_5");
    reveal_strlit("shapeshiftMask");
    reveal_strlit("shapeshiftExclude");
    reveal_strlit("targets");
    reveal_strlit("targetCreatureType");
    reveal_strlit("requiresSpellFocus");
    reveal_strlit("casterAuraStat");
    reveal_strlit("targetAuraState");
    reveal_strlit("castingTimeIndex");
    reveal_strlit("recoveryTime");
    reveal_strlit("categoryRecoveryTime");
    reveal_strlit("interruptFlags");
    reveal_strlit("auraInterruptFlags");
    reveal_strlit("channelInterruptFlags");
    reveal_strlit("procTypeMask");
    reveal_strlit("procChance");
    reveal_strlit("procCharges");
    reveal_strlit("maxLevel");
    reveal_strlit("baseLevel");
    reveal_strlit("spellLevel");
    reveal_strlit("durationIndex");
    reveal_strlit("powerType");
    reveal_with_fuel(distinct_in, 17);
    reveal_with_fuel(fresh_before, 3);
    reveal_with_fuel(fresh_in, 17);
    reveal_with_fuel(chars_differ, 22);
    let names = column_names(spell_layout());
    assert(fresh_before(names, 16, names[16]));
    assert(fresh_before(names, 17, names[17]));
    assert(fresh_before(names, 18, names[18]));
    assert(fresh_before(names, 19, names[19]));
    assert(fresh_before(names, 20, names[20]));
    assert(fresh_before(names, 21, names[21]));
    assert(fresh_before(names, 22, names[22]));
    assert(fresh_before(names, 23, names[23]));
    assert(fresh_before(names, 24, names[24]));
    assert(fresh_before(names, 25, names[25]));
    assert(fresh_before(names, 26, names[26]));
    assert(fresh_before(names, 27, names[27]));
    assert(fresh_before(names, 28, names[28]));
    assert(fresh_before(names, 29, names[29]));
    assert(fresh_before(names, 30, names[30]));
    assert(fresh_before(names, 31, names[31]));
    assert(distinct_in(names, 16, 16));
}

proof fn lemma_spell_names_fresh_32()
    ensures
        distinct_in(column_names(spell_layout()), 32, 16),
{
    reveal_strlit("id");
    reveal_strlit("school");
    reveal_strlit("category");
    reveal_strlit("castUi");
    reveal_strlit("dispelType");
    reveal_strlit("mechanic");
    reveal_strlit("attribute_1");
    reveal_strlit("attribute_2");
    reveal_strlit("attribute_3");
    reveal_strlit("attribute_4");
    reveal_strlit("attribute_5");
    reveal_strlit("shapeshiftMask");
    reveal_strlit("shapeshiftExclude");
    reveal_strlit("targets");
    reveal_strlit("targetCreatureType");
    reveal_strlit("requiresSpellFocus");
    reveal_strlit("casterAuraStat");
    reveal_strlit("targetAuraState");
    reveal_strlit("castingTimeIndex");
    reveal_strlit("recoveryTime");
    reveal_strlit("categoryRecoveryTime");
    reveal_strlit("interruptFlags");
    reveal_strlit("auraInterruptFlags");
    reveal_strlit("channelInterruptFlags");
    reveal_strlit("procTypeMask");
    reveal_strlit("procChance");
    reveal_strlit("procCharges");
    reveal_strlit("maxLevel");
    reveal_strlit("baseLevel");
    reveal_strlit("spellLevel");
    reveal_strlit("durationIndex");
    reveal_strlit("powerType");
    reveal_strlit("manaCost");
    reveal_strlit("manaPerLevel");
    reveal_strlit("manaPerSecond");
    reveal_strlit("manaPerSecondPerLevel");
    reveal_strlit("rangeIndex");
    reveal_strlit("speed");
    reveal_strlit("modalNextSpell");
    reveal_strlit("stackAmount");
    reveal_strlit("totem_1");
    reveal_strlit("totem_2");
    reveal_strlit("reagent_1");
    reveal_strlit("reagent_2");
    reveal_strlit("reagent_3");
    reveal_strlit("reagent_4");
    reveal_strlit("reagent_5");
    reveal_strlit("reagent_6");
    reveal_with_fuel(distinct_in, 17);
    reveal_with_fuel(fresh_before, 4);
    reveal_with_fuel(fresh_in, 17);
    reveal_with_fuel(chars_differ, 22);
    let names = column_names(spell_layout());
    assert(fresh_before(names, 32, names[32]));
    assert(fresh_before(names, 33, names[33]));
    assert(fresh_before(names, 34, names[34]));
    assert(fresh_before(names, 35, names[35]));
    assert(fresh_before(names, 36, names[36]));
    assert(fresh_before(names, 37, names[37]));
    assert(fresh_before(names, 38, names[38]));
    assert(fresh_before(names, 39, names[39]));
    assert(fresh_before(names, 40, names[40]));
    assert(fresh_before(names, 41, names[41]));
    assert(fresh_before(names, 42, names[42]));
    assert(fresh_before(names, 43, names[43]));
    assert(fresh_before(names, 44, names[44]));
    assert(fresh_before(names, 45, names[45]));
    assert(fresh_before(names, 46, names[46]));
    assert(fresh_before(names, 47, names[47]));
    assert(distinct_in(names, 32, 16));
}

proof fn lemma_spell_names_fresh_48()
    ensures
        distinct_in(column_names(spell_layout()), 48, 16),
{
    reveal_strlit("id");
    reveal_strlit("school");
    reveal_strlit("category");
    reveal_strlit("castUi");
    reveal_strlit("dispelType");
    reveal_strlit("mechanic");
    reveal_strlit("attribute_1");
    reveal_strlit("attribute_2");
    reveal_strlit("attribute_3");
    reveal_strlit("attribute_4");
    reveal_strlit("attribute_5");
    reveal_strlit("shapeshiftMask");
    reveal_strlit("shapeshiftExclude");
    reveal_strlit("targets");
    reveal_strlit("targetCreatureType");
    reveal_strlit("requiresSpellFocus");
    reveal_strlit("casterAuraStat");
    reveal_strlit("targetAuraState");
    reveal_strlit("castingTimeIndex");
    reveal_strlit("recoveryTime");
    reveal_strlit("categoryRecoveryTime");
    reveal_strlit("interruptFlags");
    reveal_strlit("auraInterruptFlags");
    reveal_strlit("channelInterruptFlags");
    reveal_strlit("procTypeMask");
    reveal_strlit("procChance");
    reveal_strlit("procCharges");
    reveal_strlit("maxLevel");
    reveal_strlit("baseLevel");
    reveal_strlit("spellLevel");
    reveal_strlit("durationIndex");
    reveal_strlit("powerType");
    reveal_strlit("manaCost");
    reveal_strlit("manaPerLevel");
    reveal_strlit("manaPerSecond");
    reveal_strlit("manaPerSecondPerLevel");
    reveal_strlit("rangeIndex");
    reveal_strlit("speed");
    reveal_strlit("modalNextSpell");
    reveal_strlit("stackAmount");
    reveal_strlit("totem_1");
    reveal_strlit("totem_2");
    reveal_strlit("reagent_1");
    reveal_strlit("reagent_2");
    reveal_strlit("reagent_3");
    reveal_strlit("reagent_4");
    reveal_strlit("reagent_5");
    reveal_strlit("reagent_6");
    reveal_strlit("reagent_7");
    reveal_strlit("reagent_8");
    reveal_strlit("reagentCount_1");
    reveal_strlit("reagentCount_2");
    reveal_strlit("reagentCount_3");
    reveal_strlit("reagentCount_4");
    reveal_strlit("reagentCount_5");
    reveal_strlit("reagentCount_6");
    reveal_strlit("reagentCount_7");
    reveal_strlit("reagentCount_8");
    reveal_strlit("equippedItemClass");
    reveal_strlit("equippedItemSubClassMask");
    reveal_strlit("equippedItemInventoryTypeMask");
    reveal_strlit("effect_1");
    reveal_strlit("effect_2");
    reveal_strlit("effect_3");
    reveal_with_fuel(distinct_in, 17);
    reveal_with_fuel(fresh_before, 5);
    reveal_with_fuel(fresh_in, 17);
    reveal_with_fuel(chars_differ, 30);
    let names = column_names(spell_layout());
    assert(fresh_before(names, 48, names[48]));
    assert(fresh_before(names, 49, names[49]));
    assert(fresh_before(names, 50, names[50]));
    assert(fresh_before(names, 51, names[51]));
    assert(fresh_before(names, 52, names[52]));
    assert(fresh_before(names, 53, names[53]));
    assert(fresh_before(names, 54, names[54]));
    assert(fresh_before(names, 55, names[55]));
    assert(fresh_before(names, 56, names[56]));
    assert(fresh_before(names, 57, names[57]));
    assert(fresh_before(names, 58, names[58]));
    assert(fresh_before(names, 59, names[59]));
    assert(fresh_before(names, 60, names[60]));
    assert(fresh_before(names, 61, names[61]));
    assert(fresh_before(names, 62, names[62]));
    assert(fresh_before(names, 63, names[63]));
    assert(distinct_in(names, 48, 16));
}

#[verifier::rlimit(30)]
proof fn lemma_spell_names_fresh_64()
    ensures
        distinct_in(column_names(spell_layout()), 64, 16),
{
    reveal_strlit("id");
    reveal_strlit("school");
    reveal_strlit("category");
    reveal_strlit("castUi");
    reveal_strlit("dispelType");
    reveal_strlit("mechanic");
    reveal_strlit("attribute_1");
    reveal_strlit("attribute_2");
    reveal_strlit("attribute_3");
    reveal_strlit("attribute_4");
    reveal_strlit("attribute_5");
    reveal_strlit("shapeshiftMask");
    reveal_strlit("shapeshiftExclude");
    reveal_strlit("targets");
    reveal_strlit("targetCreatureType");
    reveal_strlit("requiresSpellFocus");
    reveal_strlit("casterAuraStat");
    reveal_strlit("targetAuraState");
    reveal_strlit("castingTimeIndex");
    reveal_strlit("recoveryTime");
    reveal_strlit("categoryRecoveryTime");
    reveal_strlit("interruptFlags");
    reveal_strlit("auraInterruptFlags");
    reveal_strlit("channelInterruptFlags");
    reveal_strlit("procTypeMask");
    reveal_strlit("procChance");
    reveal_strlit("procCharges");
    reveal_strlit("maxLevel");
    reveal_strlit("baseLevel");
    reveal_strlit("spellLevel");
    reveal_strlit("durationIndex");
    reveal_strlit("powerType");
    reveal_strlit("manaCost");
    reveal_strlit("manaPerLevel");
    reveal_strlit("manaPerSecond");
    reveal_strlit("manaPerSecondPerLevel");
    reveal_strlit("rangeIndex");
    reveal_strlit("speed");
    reveal_strlit("modalNextSpell");
    reveal_strlit("stackAmount");
    reveal_strlit("totem_1");
    reveal_strlit("totem_2");
    reveal_strlit("reagent_1");
    reveal_strlit("reagent_2");
    reveal_strlit("reagent_3");
    reveal_strlit("reagent_4");
    reveal_strlit("reagent_5");
    reveal_strlit("reagent_6");
    reveal_strlit("reagent_7");
    reveal_strlit("reagent_8");
    reveal_strlit("reagentCount_1");
    reveal_strlit("reagentCount_2");
    reveal_strlit("reagentCount_3");
    reveal_strlit("reagentCount_4");
    reveal_strlit("reagentCount_5");
    reveal_strlit("reagentCount_6");
    reveal_strlit("reagentCount_7");
    reveal_strlit("reagentCount_8");
    reveal_strlit("equippedItemClass");
    reveal_strlit("equippedItemSubClassMask");
    reveal_strlit("equippedItemInventoryTypeMask");
    reveal_strlit("effect_1");
    reveal_strlit("effect_2");
    reveal_strlit("effect_3");
    reveal_strlit("effectDieSides_1");
    reveal_strlit("effectDieSides_2");
    reveal_strlit("effectDieSides_3");
    reveal_strlit("effectBaseDice_1");
    reveal_strlit("effectBaseDice_2");
    reveal_strlit("effectBaseDice_3");
    reveal_strlit("effectDicePerLevel_1");
    reveal_strlit("effectDicePerLevel_2");
    reveal_strlit("effectDicePerLevel_3");
    reveal_strlit("effectRealPointsPerLevel_1");
    reveal_strlit("effectRealPointsPerLevel_2");
    reveal_strlit("effectRealPointsPerLevel_3");
    reveal_strlit("effectBasePoints_1");
    reveal_strlit("effectBasePoints_2");
    reveal_strlit("effectBasePoints_3");
    reveal_strlit("effectMechanic_1");
    reveal_with_fuel(distinct_in, 17);
    reveal_with_fuel(fresh_before, 6);
    reveal_with_fuel(fresh_in, 17);
    reveal_with_fuel(chars_differ, 30);
    let names = column_names(spell_layout());
    assert(fresh_before(names, 64, names[64]));
    assert(fresh_before(names, 65, names[65]));
    assert(fresh_before(names, 66, names[66]));
    assert(fresh_before(names, 67, names[67]));
    assert(fresh_before(names, 68, names[68]));
    assert(fresh_before(names, 69, names[69]));
    assert(fresh_before(names, 70, names[70]));
    assert(fresh_before(names, 71, names[71]));
    assert(fresh_before(names, 72, names[72]));
    assert(fresh_before(names, 73, names[73]));
    assert(fresh_before(names, 74, names[74]));
    assert(fresh_before(names, 75, names[75]));
    assert(fresh_before(names, 76, names[76]));
    assert(fresh_before(names, 77, names[77]));
    assert(fresh_before(names, 78, names[78]));
    assert(fresh_before(names, 79, names[79]));
    assert(distinct_in(names, 64, 16));
}

#[verifier::rlimit(30)]
proof fn lemma_spell_names_fresh_80()
    ensures
        distinct_in(column_names(spell_layout()), 80, 16),
{
    reveal_strlit("id");
    reveal_strlit("school");
    reveal_strlit("category");
    reveal_strlit("castUi");
    reveal_strlit("dispelType");
    reveal_strlit("mechanic");
    reveal_strlit("attribute_1");
    reveal_strlit("attribute_2");
    reveal_strlit("attribute_3");
    reveal_strlit("attribute_4");
    reveal_strlit("attribute_5");
    reveal_strlit("shapeshiftMask");
    reveal_strlit("shapeshiftExclude");
    reveal_strlit("targets");
    reveal_strlit("targetCreatureType");
    reveal_strlit("requiresSpellFocus");
    reveal_strlit("casterAuraStat");
    reveal_strlit("targetAuraState");
    reveal_strlit("castingTimeIndex");
    reveal_strlit("recoveryTime");
    reveal_strlit("categoryRecoveryTime");
    reveal_strlit("interruptFlags");
    reveal_strlit("auraInterruptFlags");
    reveal_strlit("channelInterruptFlags");
    reveal_strlit("procTypeMask");
    reveal_strlit("procChance");
    reveal_strlit("procCharges");
    reveal_strlit("maxLevel");
    reveal_strlit("baseLevel");
    reveal_strlit("spellLevel");
    reveal_strlit("durationIndex");
    reveal_strlit("powerType");
    reveal_strlit("manaCost");
    reveal_strlit("manaPerLevel");
    reveal_strlit("manaPerSecond");
    reveal_strlit("manaPerSecondPerLevel");
    reveal_strlit("rangeIndex");
    reveal_strlit("speed");
    reveal_strlit("modalNextSpell");
    reveal_strlit("stackAmount");
    reveal_strlit("totem_1");
    reveal_strlit("totem_2");
    reveal_strlit("reagent_1");
    reveal_strlit("reagent_2");
    reveal_strlit("reagent_3");
    reveal_strlit("reagent_4");
    reveal_strlit("reagent_5");
    reveal_strlit("reagent_6");
    reveal_strlit("reagent_7");
    reveal_strlit("reagent_8");
    reveal_strlit("reagentCount_1");
    reveal_strlit("reagentCount_2");
    reveal_strlit("reagentCount_3");
    reveal_strlit("reagentCount_4");
    reveal_strlit("reagentCount_5");
    reveal_strlit("reagentCount_6");
    reveal_strlit("reagentCount_7");
    reveal_strlit("reagentCount_8");
    reveal_strlit("equippedItemClass");
    reveal_strlit("equippedItemSubClassMask");
    reveal_strlit("equippedItemInventoryTypeMask");
    reveal_strlit("effect_1");
    reveal_strlit("effect_2");
    reveal_strlit("effect_3");
    reveal_strlit("effectDieSides_1");
    reveal_strlit("effectDieSides_2");
    reveal_strlit("effectDieSides_3");
    reveal_strlit("effectBaseDice_1");
    reveal_strlit("effectBaseDice_2");
    reveal_strlit("effectBaseDice_3");
    reveal_strlit("effectDicePerLevel_1");
    reveal_strlit("effectDicePerLevel_2");
    reveal_strlit("effectDicePerLevel_3");
    reveal_strlit("effectRealPointsPerLevel_1");
    reveal_strlit("effectRealPointsPerLevel_2");
    reveal_strlit("effectRealPointsPerLevel_3");
    reveal_strlit("effectBasePoints_1");
    reveal_strlit("effectBasePoints_2");
    reveal_strlit("effectBasePoints_3");
    reveal_strlit("effectMechanic_1");
    reveal_strlit("effectMechanic_2");
    reveal_strlit("effectMechanic_3");
    reveal_strlit("effectImplicitTargetA_1");
    reveal_strlit("effectImplicitTargetA_2");
    reveal_strlit("effectImplicitTargetA_3");
    reveal_strlit("effectImplicitTargetB_1");
    reveal_strlit("effectImplicitTargetB_2");
    reveal_strlit("effectImplicitTargetB_3");
    reveal_strlit("effectRadiusIndex_1");
    reveal_strlit("effectRadiusIndex_2");
    reveal_strlit("effectRadiusIndex_3");
    reveal_strlit("effectApplyAura_1");
    reveal_strlit("effectApplyAura_2");
    reveal_strlit("effectApplyAura_3");
    reveal_strlit("effectAmplitude_1");
    reveal_strlit("effectAmplitude_2");
    reveal_with_fuel(distinct_in, 17);
    reveal_with_fuel(fresh_before, 7);
    reveal_with_fuel(fresh_in, 17);
    reveal_with_fuel(chars_differ, 30);
    let names = column_names(spell_layout());
    assert(fresh_before(names, 80, names[80]));
    assert(fresh_before(names, 81, names[81]));
    assert(fresh_before(names, 82, names[82]));
    assert(fresh_before(names, 83, names[83]));
    assert(fresh_before(names, 84, names[84]));
    assert(fresh_before(names, 85, names[85]));
    assert(fresh_before(names, 86, names[86]));
    assert(fresh_before(names, 87, names[87]));
    assert(fresh_before(names, 88, names[88]));
    assert(fresh_before(names, 89, names[89]));
    assert(fresh_before(names, 90, names[90]));
    assert(fresh_before(names, 91, names[91]));
    assert(fresh_before(names, 92, names[92]));
    assert(fresh_before(names, 93, names[93]));
    assert(fresh_before(names, 94, names[94]));
    assert(fresh_before(names, 95, names[95]));
    assert(distinct_in(names, 80, 16));
}

#[verifier::rlimit(30)]
proof fn lemma_spell_names_fresh_96()
    ensures
        distinct_in(column_names(spell_layout()), 96, 16),
{
    reveal_strlit("id");
    reveal_strlit("school");
    reveal_strlit("category");
    reveal_strlit("castUi");
    reveal_strlit("dispelType");
    reveal_strlit("mechanic");
    reveal_strlit("attribute_1");
    reveal_strlit("attribute_2");
    reveal_strlit("attribute_3");
    reveal_strlit("attribute_4");
    reveal_strlit("attribute_5");
    reveal_strlit("shapeshiftMask");
    reveal_strlit("shapeshiftExclude");
    reveal_strlit("targets");
    reveal_strlit("targetCreatureType");
    reveal_strlit("requiresSpellFocus");
    reveal_strlit("casterAuraStat");
    reveal_strlit("targetAuraState");
    reveal_strlit("castingTimeIndex");
    reveal_strlit("recoveryTime");
    reveal_strlit("categoryRecoveryTime");
    reveal_strlit("interruptFlags");
    reveal_strlit("auraInterruptFlags");
    reveal_strlit("channelInterruptFlags");
    reveal_strlit("procTypeMask");
    reveal_strlit("procChance");
    reveal_strlit("procCharges");
    reveal_strlit("maxLevel");
    reveal_strlit("baseLevel");
    reveal_strlit("spellLevel");
    reveal_strlit("durationIndex");
    reveal_strlit("powerType");
    reveal_strlit("manaCost");
    reveal_strlit("manaPerLevel");
    reveal_strlit("manaPerSecond");
    reveal_strlit("manaPerSecondPerLevel");
    reveal_strlit("rangeIndex");
    reveal_strlit("speed");
    reveal_strlit("modalNextSpell");
    reveal_strlit("stackAmount");
    reveal_strlit("totem_1");
    reveal_strlit("totem_2");
    reveal_strlit("reagent_1");
    reveal_strlit("reagent_2");
    reveal_strlit("reagent_3");
    reveal_strlit("reagent_4");
    reveal_strlit("reagent_5");
    reveal_strlit("reagent_6");
    reveal_strlit("reagent_7");
    reveal_strlit("reagent_8");
    reveal_strlit("reagentCount_1");
    reveal_strlit("reagentCount_2");
    reveal_strlit("reagentCount_3");
    reveal_strlit("reagentCount_4");
    reveal_strlit("reagentCount_5");
    reveal_strlit("reagentCount_6");
    reveal_strlit("reagentCount_7");
    reveal_strlit("reagentCount_8");
    reveal_strlit("equippedItemClass");
    reveal_strlit("equippedItemSubClassMask");
    reveal_strlit("equippedItemInventoryTypeMask");
    reveal_strlit("effect_1");
    reveal_strlit("effect_2");
    reveal_strlit("effect_3");
    reveal_strlit("effectDieSides_1");
    reveal_strlit("effectDieSides_2");
    reveal_strlit("effectDieSides_3");
    reveal_strlit("effectBaseDice_1");
    reveal_strlit("effectBaseDice_2");
    reveal_strlit("effectBaseDice_3");
    reveal_strlit("effectDicePerLevel_1");
    reveal_strlit("effectDicePerLevel_2");
    reveal_strlit("effectDicePerLevel_3");
    reveal_strlit("effectRealPointsPerLevel_1");
    reveal_strlit("effectRealPointsPerLevel_2");
    reveal_strlit("effectRealPointsPerLevel_3");
    reveal_strlit("effectBasePoints_1");
    reveal_strlit("effectBasePoints_2");
    reveal_strlit("effectBasePoints_3");
    reveal_strlit("effectMechanic_1");
    reveal_strlit("effectMechanic_2");
    reveal_strlit("effectMechanic_3");
    reveal_strlit("effectImplicitTargetA_1");
    reveal_strlit("effectImplicitTargetA_2");
    reveal_strlit("effectImplicitTargetA_3");
    reveal_strlit("effectImplicitTargetB_1");
    reveal_strlit("effectImplicitTargetB_2");
    reveal_strlit("effectImplicitTargetB_3");
    reveal_strlit("effectRadiusIndex_1");
    reveal_strlit("effectRadiusIndex_2");
    reveal_strlit("effectRadiusIndex_3");
    reveal_strlit("effectApplyAura_1");
    reveal_strlit("effectApplyAura_2");
    reveal_strlit("effectApplyAura_3");
    reveal_strlit("effectAmplitude_1");
    reveal_strlit("effectAmplitude_2");
    reveal_strlit("effectAmplitude_3");
    reveal_strlit("effectMultipleValue_1");
    reveal_strlit("effectMultipleValue_2");
    reveal_strlit("effectMultipleValue_3");
    reveal_strlit("effectChainTarget_1");
    reveal_strlit("effectChainTarget_2");
    reveal_strlit("effectChainTarget_3");
    reveal_strlit("effectItemType_1");
    reveal_strlit("effectItemType_2");
    reveal_strlit("effectItemType_3");
    reveal_strlit("effectMiscValue_1");
    reveal_strlit("effectMiscValue_2");
    reveal_strlit("effectMiscValue_3");
    reveal_strlit("effectTriggerSpell_1");
    reveal_strlit("effectTriggerSpell_2");
    reveal_strlit("effectTriggerSpell_3");
    reveal_with_fuel(distinct_in, 17);
    reveal_with_fuel(fresh_before, 8);
    reveal_with_fuel(fresh_in, 17);
    reveal_with_fuel(chars_differ, 30);
    let names = column_names(spell_layout());
    assert(fresh_before(names, 96, names[96]));
    assert(fresh_before(names, 97, names[97]));
    assert(fresh_before(names, 98, names[98]));
    assert(fresh_before(names, 99, names[99]));
    assert(fresh_before(names, 100, names[100]));
    assert(fresh_before(names, 101, names[101]));
    assert(fresh_before(names, 102, names[102]));
    assert(fresh_before(names, 103, names[103]));
    assert(fresh_before(names, 104, names[104]));
    assert(fresh_before(names, 105, names[105]));
    assert(fresh_before(names, 106, names[106]));
    assert(fresh_before(names, 107, names[107]));
    assert(fresh_before(names, 108, names[108]));
    assert(fresh_before(names, 109, names[109]));
    assert(fresh_before(names, 110, names[110]));
    assert(fresh_before(names, 111, names[111]));
    assert(distinct_in(names, 96, 16));
}

#[verifier::rlimit(30)]
proof fn lemma_spell_names_fresh_112()
    ensures
        distinct_in(column_names(spell_layout()), 112, 16),
{
    reveal_strlit("id");
    reveal_strlit("school");
    reveal_strlit("category");
    reveal_strlit("castUi");
    reveal_strlit("dispelType");
    reveal_strlit("mechanic");
    reveal_strlit("attribute_1");
    reveal_strlit("attribute_2");
    reveal_strlit("attribute_3");
    reveal_strlit("attribute_4");
    reveal_strlit("attribute_5");
    reveal_strlit("shapeshiftMask");
    reveal_strlit("shapeshiftExclude");
    reveal_strlit("targets");
    reveal_strlit("targetCreatureType");
    reveal_strlit("requiresSpellFocus");
    reveal_strlit("casterAuraStat");
    reveal_strlit("targetAuraState");
    reveal_strlit("castingTimeIndex");
    reveal_strlit("recoveryTime");
    reveal_strlit("categoryRecoveryTime");
    reveal_strlit("interruptFlags");
    reveal_strlit("auraInterruptFlags");
    reveal_strlit("channelInterruptFlags");
    reveal_strlit("procTypeMask");
    reveal_strlit("procChance");
    reveal_strlit("procCharges");
    reveal_strlit("maxLevel");
    reveal_strlit("baseLevel");
    reveal_strlit("spellLevel");
    reveal_strlit("durationIndex");
    reveal_strlit("powerType");
    reveal_strlit("manaCost");
    reveal_strlit("manaPerLevel");
    reveal_strlit("manaPerSecond");
    reveal_strlit("manaPerSecondPerLevel");
    reveal_strlit("rangeIndex");
    reveal_strlit("speed");
    reveal_strlit("modalNextSpell");
    reveal_strlit("stackAmount");
    reveal_strlit("totem_1");
    reveal_strlit("totem_2");
    reveal_strlit("reagent_1");
    reveal_strlit("reagent_2");
    reveal_strlit("reagent_3");
    reveal_strlit("reagent_4");
    reveal_strlit("reagent_5");
    reveal_strlit("reagent_6");
    reveal_strlit("reagent_7");
    reveal_strlit("reagent_8");
    reveal_strlit("reagentCount_1");
    reveal_strlit("reagentCount_2");
    reveal_strlit("reagentCount_3");
    reveal_strlit("reagentCount_4");
    reveal_strlit("reagentCount_5");
    reveal_strlit("reagentCount_6");
    reveal_strlit("reagentCount_7");
    reveal_strlit("reagentCount_8");
    reveal_strlit("equippedItemClass");
    reveal_strlit("equippedItemSubClassMask");
    reveal_strlit("equippedItemInventoryTypeMask");
    reveal_strlit("effect_1");
    reveal_strlit("effect_2");
    reveal_strlit("effect_3");
    reveal_strlit("effectDieSides_1");
    reveal_strlit("effectDieSides_2");
    reveal_strlit("effectDieSides_3");
    reveal_strlit("effectBaseDice_1");
    reveal_strlit("effectBaseDice_2");
    reveal_strlit("effectBaseDice_3");
    reveal_strlit("effectDicePerLevel_1");
    reveal_strlit("effectDicePerLevel_2");
    reveal_strlit("effectDicePerLevel_3");
    reveal_strlit("effectRealPointsPerLevel_1");
    reveal_strlit("effectRealPointsPerLevel_2");
    reveal_strlit("effectRealPointsPerLevel_3");
    reveal_strlit("effectBasePoints_1");
    reveal_strlit("effectBasePoints_2");
    reveal_strlit("effectBasePoints_3");
    reveal_strlit("effectMechanic_1");
    reveal_strlit("effectMechanic_2");
    reveal_strlit("effectMechanic_3");
    reveal_strlit("effectImplicitTargetA_1");
    reveal_strlit("effectImplicitTargetA_2");
    reveal_strlit("effectImplicitTargetA_3");
    reveal_strlit("effectImplicitTargetB_1");
    reveal_strlit("effectImplicitTargetB_2");
    reveal_strlit("effectImplicitTargetB_3");
    reveal_strlit("effectRadiusIndex_1");
    reveal_strlit("effectRadiusIndex_2");
    reveal_strlit("effectRadiusIndex_3");
    reveal_strlit("effectApplyAura_1");
    reveal_strlit("effectApplyAura_2");
    reveal_strlit("effectApplyAura_3");
    reveal_strlit("effectAmplitude_1");
    reveal_strlit("effectAmplitude_2");
    reveal_strlit("effectAmplitude_3");
    reveal_strlit("effectMultipleValue_1");
    reveal_strlit("effectMultipleValue_2");
    reveal_strlit("effectMultipleValue_3");
    reveal_strlit("effectChainTarget_1");
    reveal_strlit("effectChainTarget_2");
    reveal_strlit("effectChainTarget_3");
    reveal_strlit("effectItemType_1");
    reveal_strlit("effectItemType_2");
    reveal_strlit("effectItemType_3");
    reveal_strlit("effectMiscValue_1");
    reveal_strlit("effectMiscValue_2");
    reveal_strlit("effectMiscValue_3");
    reveal_strlit("effectTriggerSpell_1");
    reveal_strlit("effectTriggerSpell_2");
    reveal_strlit("effectTriggerSpell_3");
    reveal_strlit("effectPointsPerCombo_1");
    reveal_strlit("effectPointsPerCombo_2");
    reveal_strlit("effectPointsPerCombo_3");
    reveal_strlit("spellVisualId_1");
    reveal_strlit("spellVisualId_2");
    reveal_strlit("spellIconId");
    reveal_strlit("activeIconId");
    reveal_strlit("spellPriority");
    reveal_strlit("name_enUS");
    reveal_strlit("name_koKR");
    reveal_strlit("name_frFR");
    reveal_strlit("name_deDE");
    reveal_strlit("name_zhCN");
    reveal_strlit("name_ruRU");
    reveal_strlit("name_esES");
    reveal_strlit("name_ptPT");
    reveal_with_fuel(distinct_in, 17);
    reveal_with_fuel(fresh_before, 9);
    reveal_with_fuel(fresh_in, 17);
    reveal_with_fuel(chars_differ, 30);
    let names = column_names(spell_layout());
    assert(fresh_before(names, 112, names[112]));
    assert(fresh_before(names, 113, names[113]));
    assert(fresh_before(names, 114, names[114]));
    assert(fresh_before(names, 115, names[115]));
    assert(fresh_before(names, 116, names[116]));
    assert(fresh_before(names, 117, names[117]));
    assert(fresh_before(names, 118, names[118]));
    assert(fresh_before(names, 119, names[119]));
    assert(fresh_before(names, 120, names[120]));
    assert(fresh_before(names, 121, names[121]));
    assert(fresh_before(names, 122, names[122]));
    assert(fresh_before(names, 123, names[123]));
    assert(fresh_before(names, 124, names[124]));
    assert(fresh_before(names, 125, names[125]));
    assert(fresh_before(names, 126, names[126]));
    assert(fresh_before(names, 127, names[127]));
    assert(distinct_in(names, 112, 16));
}

#[verifier::rlimit(30)]
proof fn lemma_spell_names_fresh_128()
    ensures
        distinct_in(column_names(spell_layout()), 128, 16),
{
    reveal_strlit("id");
    reveal_strlit("school");
    reveal_strlit("category");
    reveal_strlit("castUi");
    reveal_strlit("dispelType");
    reveal_strlit("mechanic");
    reveal_strlit("attribute_1");
    reveal_strlit("attribute_2");
    reveal_strlit("attribute_3");
    reveal_strlit("attribute_4");
    reveal_strlit("attribute_5");
    reveal_strlit("shapeshiftMask");
    reveal_strlit("shapeshiftExclude");
    reveal_strlit("targets");
    reveal_strlit("targetCreatureType");
    reveal_strlit("requiresSpellFocus");
    reveal_strlit("casterAuraStat");
    reveal_strlit("targetAuraState");
    reveal_strlit("castingTimeIndex");
    reveal_strlit("recoveryTime");
    reveal_strlit("categoryRecoveryTime");
    reveal_strlit("interruptFlags");
    reveal_strlit("auraInterruptFlags");
    reveal_strlit("channelInterruptFlags");
    reveal_strlit("procTypeMask");
    reveal_strlit("procChance");
    reveal_strlit("procCharges");
    reveal_strlit("maxLevel");
    reveal_strlit("baseLevel");
    reveal_strlit("spellLevel");
    reveal_strlit("durationIndex");
    reveal_strlit("powerType");
    reveal_strlit("manaCost");
    reveal_strlit("manaPerLevel");
    reveal_strlit("manaPerSecond");
    reveal_strlit("manaPerSecondPerLevel");
    reveal_strlit("rangeIndex");
    reveal_strlit("speed");
    reveal_strlit("modalNextSpell");
    reveal_strlit("stackAmount");
    reveal_strlit("totem_1");
    reveal_strlit("totem_2");
    reveal_strlit("reagent_1");
    reveal_strlit("reagent_2");
    reveal_strlit("reagent_3");
    reveal_strlit("reagent_4");
    reveal_strlit("reagent_5");
    reveal_strlit("reagent_6");
    reveal_strlit("reagent_7");
    reveal_strlit("reagent_8");
    reveal_strlit("reagentCount_1");
    reveal_strlit("reagentCount_2");
    reveal_strlit("reagentCount_3");
    reveal_strlit("reagentCount_4");
    reveal_strlit("reagentCount_5");
    reveal_strlit("reagentCount_6");
    reveal_strlit("reagentCount_7");
    reveal_strlit("reagentCount_8");
    reveal_strlit("equippedItemClass");
    reveal_strlit("equippedItemSubClassMask");
    reveal_strlit("equippedItemInventoryTypeMask");
    reveal_strlit("effect_1");
    reveal_strlit("effect_2");
    reveal_strlit("effect_3");
    reveal_strlit("effectDieSides_1");
    reveal_strlit("effectDieSides_2");
    reveal_strlit("effectDieSides_3");
    reveal_strlit("effectBaseDice_1");
    reveal_strlit("effectBaseDice_2");
    reveal_strlit("effectBaseDice_3");
    reveal_strlit("effectDicePerLevel_1");
    reveal_strlit("effectDicePerLevel_2");
    reveal_strlit("effectDicePerLevel_3");
    reveal_strlit("effectRealPointsPerLevel_1");
    reveal_strlit("effectRealPointsPerLevel_2");
    reveal_strlit("effectRealPointsPerLevel_3");
    reveal_strlit("effectBasePoints_1");
    reveal_strlit("effectBasePoints_2");
    reveal_strlit("effectBasePoints_3");
    reveal_strlit("effectMechanic_1");
    reveal_strlit("effectMechanic_2");
    reveal_strlit("effectMechanic_3");
    reveal_strlit("effectImplicitTargetA_1");
    reveal_strlit("effectImplicitTargetA_2");
    reveal_strlit("effectImplicitTargetA_3");
    reveal_strlit("effectImplicitTargetB_1");
    reveal_strlit("effectImplicitTargetB_2");
    reveal_strlit("effectImplicitTargetB_3");
    reveal_strlit("effectRadiusIndex_1");
    reveal_strlit("effectRadiusIndex_2");
    reveal_strlit("effectRadiusIndex_3");
    reveal_strlit("effectApplyAura_1");
    reveal_strlit("effectApplyAura_2");
    reveal_strlit("effectApplyAura_3");
    reveal_strlit("effectAmplitude_1");
    reveal_strlit("effectAmplitude_2");
    reveal_strlit("effectAmplitude_3");
    reveal_strlit("effectMultipleValue_1");
    reveal_strlit("effectMultipleValue_2");
    reveal_strlit("effectMultipleValue_3");
    reveal_strlit("effectChainTarget_1");
    reveal_strlit("effectChainTarget_2");
    reveal_strlit("effectChainTarget_3");
    reveal_strlit("effectItemType_1");
    reveal_strlit("effectItemType_2");
    reveal_strlit("effectItemType_3");
    reveal_strlit("effectMiscValue_1");
    reveal_strlit("effectMiscValue_2");
    reveal_strlit("effectMiscValue_3");
    reveal_strlit("effectTriggerSpell_1");
    reveal_strlit("effectTriggerSpell_2");
    reveal_strlit("effectTriggerSpell_3");
    reveal_strlit("effectPointsPerCombo_1");
    reveal_strlit("effectPointsPerCombo_2");
    reveal_strlit("effectPointsPerCombo_3");
    reveal_strlit("spellVisualId_1");
    reveal_strlit("spellVisualId_2");
    reveal_strlit("spellIconId");
    reveal_strlit("activeIconId");
    reveal_strlit("spellPriority");
    reveal_strlit("name_enUS");
    reveal_strlit("name_koKR");
    reveal_strlit("name_frFR");
    reveal_strlit("name_deDE");
    reveal_strlit("name_zhCN");
    reveal_strlit("name_ruRU");
    reveal_strlit("name_esES");
    reveal_strlit("name_ptPT");
    reveal_strlit("nameMask");
    reveal_strlit("subtext_enUS");
    reveal_strlit("subtext_koKR");
    reveal_strlit("subtext_frFR");
    reveal_strlit("subtext_deDE");
    reveal_strlit("subtext_zhCN");
    reveal_strlit("subtext_ruRU");
    reveal_strlit("subtext_esES");
    reveal_strlit("subtext_ptPT");
    reveal_strlit("subtextMask");
    reveal_strlit("description_enUS");
    reveal_strlit("description_koKR");
    reveal_strlit("description_frFR");
    reveal_strlit("description_deDE");
    reveal_strlit("description_zhCN");
    reveal_strlit("description_ruRU");
    reveal_with_fuel(distinct_in, 17);
    reveal_with_fuel(fresh_before, 10);
    reveal_with_fuel(fresh_in, 17);
    reveal_with_fuel(chars_differ, 30);
    let names = column_names(spell_layout());
    assert(fresh_before(names, 128, names[128]));
    assert(fresh_before(names, 129, names[129]));
    assert(fresh_before(names, 130, names[130]));
    assert(fresh_before(names, 131, names[131]));
    assert(fresh_before(names, 132, names[132]));
    assert(fresh_before(names, 133, names[133]));
    assert(fresh_before(names, 134, names[134]));
    assert(fresh_before(names, 135, names[135]));
    assert(fresh_before(names, 136, names[136]));
    assert(fresh_before(names, 137, names[137]));
    assert(fresh_before(names, 138, names[138]));
    assert(fresh_before(names, 139, names[139]));
    assert(fresh_before(names, 140, names[140]));
    assert(fresh_before(names, 141, names[141]));
    assert(fresh_before(names, 142, names[142]));
    assert(fresh_before(names, 143, names[143]));
    assert(distinct_in(names, 128, 16));
}

#[verifier::rlimit(30)]
proof fn lemma_spell_names_fresh_144()
    ensures
        distinct_in(column_names(spell_layout()), 144, 16),
{
    reveal_strlit("id");
    reveal_strlit("school");
    reveal_strlit("category");
    reveal_strlit("castUi");
    reveal_strlit("dispelType");
    reveal_strlit("mechanic");
    reveal_strlit("attribute_1");
    reveal_strlit("attribute_2");
    reveal_strlit("attribute_3");
    reveal_strlit("attribute_4");
    reveal_strlit("attribute_5");
    reveal_strlit("shapeshiftMask");
    reveal_strlit("shapeshiftExclude");
    reveal_strlit("targets");
    reveal_strlit("targetCreatureType");
    reveal_strlit("requiresSpellFocus");
    reveal_strlit("casterAuraStat");
    reveal_strlit("targetAuraState");
    reveal_strlit("castingTimeIndex");
    reveal_strlit("recoveryTime");
    reveal_strlit("categoryRecoveryTime");
    reveal_strlit("interruptFlags");
    reveal_strlit("auraInterruptFlags");
    reveal_strlit("channelInterruptFlags");
    reveal_strlit("procTypeMask");
    reveal_strlit("procChance");
    reveal_strlit("procCharges");
    reveal_strlit("maxLevel");
    reveal_strlit("baseLevel");
    reveal_strlit("spellLevel");
    reveal_strlit("durationIndex");
    reveal_strlit("powerType");
    reveal_strlit("manaCost");
    reveal_strlit("manaPerLevel");
    reveal_strlit("manaPerSecond");
    reveal_strlit("manaPerSecondPerLevel");
    reveal_strlit("rangeIndex");
    reveal_strlit("speed");
    reveal_strlit("modalNextSpell");
    reveal_strlit("stackAmount");
    reveal_strlit("totem_1");
    reveal_strlit("totem_2");
    reveal_strlit("reagent_1");
    reveal_strlit("reagent_2");
    reveal_strlit("reagent_3");
    reveal_strlit("reagent_4");
    reveal_strlit("reagent_5");
    reveal_strlit("reagent_6");
    reveal_strlit("reagent_7");
    reveal_strlit("reagent_8");
    reveal_strlit("reagentCount_1");
    reveal_strlit("reagentCount_2");
    reveal_strlit("reagentCount_3");
    reveal_strlit("reagentCount_4");
    reveal_strlit("reagentCount_5");
    reveal_strlit("reagentCount_6");
    reveal_strlit("reagentCount_7");
    reveal_strlit("reagentCount_8");
    reveal_strlit("equippedItemClass");
    reveal_strlit("equippedItemSubClassMask");
    reveal_strlit("equippedItemInventoryTypeMask");
    reveal_strlit("effect_1");
    reveal_strlit("effect_2");
    reveal_strlit("effect_3");
    reveal_strlit("effectDieSides_1");
    reveal_strlit("effectDieSides_2");
    reveal_strlit("effectDieSides_3");
    reveal_strlit("effectBaseDice_1");
    reveal_strlit("effectBaseDice_2");
    reveal_strlit("effectBaseDice_3");
    reveal_strlit("effectDicePerLevel_1");
    reveal_strlit("effectDicePerLevel_2");
    reveal_strlit("effectDicePerLevel_3");
    reveal_strlit("effectRealPointsPerLevel_1");
    reveal_strlit("effectRealPointsPerLevel_2");
    reveal_strlit("effectRealPointsPerLevel_3");
    reveal_strlit("effectBasePoints_1");
    reveal_strlit("effectBasePoints_2");
    reveal_strlit("effectBasePoints_3");
    reveal_strlit("effectMechanic_1");
    reveal_strlit("effectMechanic_2");
    reveal_strlit("effectMechanic_3");
    reveal_strlit("effectImplicitTargetA_1");
    reveal_strlit("effectImplicitTargetA_2");
    reveal_strlit("effectImplicitTargetA_3");
    reveal_strlit("effectImplicitTargetB_1");
    reveal_strlit("effectImplicitTargetB_2");
    reveal_strlit("effectImplicitTargetB_3");
    reveal_strlit("effectRadiusIndex_1");
    reveal_strlit("effectRadiusIndex_2");
    reveal_strlit("effectRadiusIndex_3");
    reveal_strlit("effectApplyAura_1");
    reveal_strlit("effectApplyAura_2");
    reveal_strlit("effectApplyAura_3");
    reveal_strlit("effectAmplitude_1");
    reveal_strlit("effectAmplitude_2");
    reveal_strlit("effectAmplitude_3");
    reveal_strlit("effectMultipleValue_1");
    reveal_strlit("effectMultipleValue_2");
    reveal_strlit("effectMultipleValue_3");
    reveal_strlit("effectChainTarget_1");
    reveal_strlit("effectChainTarget_2");
    reveal_strlit("effectChainTarget_3");
    reveal_strlit("effectItemType_1");
    reveal_strlit("effectItemType_2");
    reveal_strlit("effectItemType_3");
    reveal_strlit("effectMiscValue_1");
    reveal_strlit("effectMiscValue_2");
    reveal_strlit("effectMiscValue_3");
    reveal_strlit("effectTriggerSpell_1");
    reveal_strlit("effectTriggerSpell_2");
    reveal_strlit("effectTriggerSpell_3");
    reveal_strlit("effectPointsPerCombo_1");
    reveal_strlit("effectPointsPerCombo_2");
    reveal_strlit("effectPointsPerCombo_3");
    reveal_strlit("spellVisualId_1");
    reveal_strlit("spellVisualId_2");
    reveal_strlit("spellIconId");
    reveal_strlit("activeIconId");
    reveal_strlit("spellPriority");
    reveal_strlit("name_enUS");
    reveal_strlit("name_koKR");
    reveal_strlit("name_frFR");
    reveal_strlit("name_deDE");
    reveal_strlit("name_zhCN");
    reveal_strlit("name_ruRU");
    reveal_strlit("name_esES");
    reveal_strlit("name_ptPT");
    reveal_strlit("nameMask");
    reveal_strlit("subtext_enUS");
    reveal_strlit("subtext_koKR");
    reveal_strlit("subtext_frFR");
    reveal_strlit("subtext_deDE");
    reveal_strlit("subtext_zhCN");
    reveal_strlit("subtext_ruRU");
    reveal_strlit("subtext_esES");
    reveal_strlit("subtext_ptPT");
    reveal_strlit("subtextMask");
    reveal_strlit("description_enUS");
    reveal_strlit("description_koKR");
    reveal_strlit("description_frFR");
    reveal_strlit("description_deDE");
    reveal_strlit("description_zhCN");
    reveal_strlit("description_ruRU");
    reveal_strlit("description_esES");
    reveal_strlit("description_ptPT");
    reveal_strlit("descriptionMask");
    reveal_strlit("auraDescription_enUS");
    reveal_strlit("auraDescription_koKR");
    reveal_strlit("auraDescription_frFR");
    reveal_strlit("auraDescription_deDE");
    reveal_strlit("auraDescription_zhCN");
    reveal_strlit("auraDescription_ruRU");
    reveal_strlit("auraDescription_esES");
    reveal_strlit("auraDescription_ptPT");
    reveal_strlit("auraDescriptionMask");
    reveal_strlit("manaCostPercentage");
    reveal_strlit("startRecoveryCategory");
    reveal_strlit("startRecoveryTime");
    reveal_strlit("maxTargetLevel");
    reveal_with_fuel(distinct_in, 17);
    reveal_with_fuel(fresh_before, 11);
    reveal_with_fuel(fresh_in, 17);
    reveal_with_fuel(chars_differ, 30);
    let names = column_names(spell_layout());
    assert(fresh_before(names, 144, names[144]));
    assert(fresh_before(names, 145, names[145]));
    assert(fresh_before(names, 146, names[146]));
    assert(fresh_before(names, 147, names[147]));
    assert(fresh_before(names, 148, names[148]));
    assert(fresh_before(names, 149, names[149]));
    assert(fresh_before(names, 150, names[150]));
    assert(fresh_before(names, 151, names[151]));
    assert(fresh_before(names, 152, names[152]));
    assert(fresh_before(names, 153, names[153]));
    assert(fresh_before(names, 154, names[154]));
    assert(fresh_before(names, 155, names[155]));
    assert(fresh_before(names, 156, names[156]));
    assert(fresh_before(names, 157, names[157]));
    assert(fresh_before(names, 158, names[158]));
    assert(fresh_before(names, 159, names[159]));
    assert(distinct_in(names, 144, 16));
}

#[verifier::rlimit(30)]
proof fn lemma_spell_names_fresh_160()
    ensures
        distinct_in(column_names(spell_layout()), 160, 13),
{
    reveal_strlit("id");
    reveal_strlit("school");
    reveal_strlit("category");
    reveal_strlit("castUi");
    reveal_strlit("dispelType");
    reveal_strlit("mechanic");
    reveal_strlit("attribute_1");
    reveal_strlit("attribute_2");
    reveal_strlit("attribute_3");
    reveal_strlit("attribute_4");
    reveal_strlit("attribute_5");
    reveal_strlit("shapeshiftMask");
    reveal_strlit("shapeshiftExclude");
    reveal_strlit("targets");
    reveal_strlit("targetCreatureType");
    reveal_strlit("requiresSpellFocus");
    reveal_strlit("casterAuraStat");
    reveal_strlit("targetAuraState");
    reveal_strlit("castingTimeIndex");
    reveal_strlit("recoveryTime");
    reveal_strlit("categoryRecoveryTime");
    reveal_strlit("interruptFlags");
    reveal_strlit("auraInterruptFlags");
    reveal_strlit("channelInterruptFlags");
    reveal_strlit("procTypeMask");
    reveal_strlit("procChance");
    reveal_strlit("procCharges");
    reveal_strlit("maxLevel");
    reveal_strlit("baseLevel");
    reveal_strlit("spellLevel");
    reveal_strlit("durationIndex");
    reveal_strlit("powerType");
    reveal_strlit("manaCost");
    reveal_strlit("manaPerLevel");
    reveal_strlit("manaPerSecond");
    reveal_strlit("manaPerSecondPerLevel");
    reveal_strlit("rangeIndex");
    reveal_strlit("speed");
    reveal_strlit("modalNextSpell");
    reveal_strlit("stackAmount");
    reveal_strlit("totem_1");
    reveal_strlit("totem_2");
    reveal_strlit("reagent_1");
    reveal_strlit("reagent_2");
    reveal_strlit("reagent_3");
    reveal_strlit("reagent_4");
    reveal_strlit("reagent_5");
    reveal_strlit("reagent_6");
    reveal_strlit("reagent_7");
    reveal_strlit("reagent_8");
    reveal_strlit("reagentCount_1");
    reveal_strlit("reagentCount_2");
    reveal_strlit("reagentCount_3");
    reveal_strlit("reagentCount_4");
    reveal_strlit("reagentCount_5");
    reveal_strlit("reagentCount_6");
    reveal_strlit("reagentCount_7");
    reveal_strlit("reagentCount_8");
    reveal_strlit("equippedItemClass");
    reveal_strlit("equippedItemSubClassMask");
    reveal_strlit("equippedItemInventoryTypeMask");
    reveal_strlit("effect_1");
    reveal_strlit("effect_2");
    reveal_strlit("effect_3");
    reveal_strlit("effectDieSides_1");
    reveal_strlit("effectDieSides_2");
    reveal_strlit("effectDieSides_3");
    reveal_strlit("effectBaseDice_1");
    reveal_strlit("effectBaseDice_2");
    reveal_strlit("effectBaseDice_3");
    reveal_strlit("effectDicePerLevel_1");
    reveal_strlit("effectDicePerLevel_2");
    reveal_strlit("effectDicePerLevel_3");
    reveal_strlit("effectRealPointsPerLevel_1");
    reveal_strlit("effectRealPointsPerLevel_2");
    reveal_strlit("effectRealPointsPerLevel_3");
    reveal_strlit("effectBasePoints_1");
    reveal_strlit("effectBasePoints_2");
    reveal_strlit("effectBasePoints_3");
    reveal_strlit("effectMechanic_1");
    reveal_strlit("effectMechanic_2");
    reveal_strlit("effectMechanic_3");
    reveal_strlit("effectImplicitTargetA_1");
    reveal_strlit("effectImplicitTargetA_2");
    reveal_strlit("effectImplicitTargetA_3");
    reveal_strlit("effectImplicitTargetB_1");
    reveal_strlit("effectImplicitTargetB_2");
    reveal_strlit("effectImplicitTargetB_3");
    reveal_strlit("effectRadiusIndex_1");
    reveal_strlit("effectRadiusIndex_2");
    reveal_strlit("effectRadiusIndex_3");
    reveal_strlit("effectApplyAura_1");
    reveal_strlit("effectApplyAura_2");
    reveal_strlit("effectApplyAura_3");
    reveal_strlit("effectAmplitude_1");
    reveal_strlit("effectAmplitude_2");
    reveal_strlit("effectAmplitude_3");
    reveal_strlit("effectMultipleValue_1");
    reveal_strlit("effectMultipleValue_2");
    reveal_strlit("effectMultipleValue_3");
    reveal_strlit("effectChainTarget_1");
    reveal_strlit("effectChainTarget_2");
    reveal_strlit("effectChainTarget_3");
    reveal_strlit("effectItemType_1");
    reveal_strlit("effectItemType_2");
    reveal_strlit("effectItemType_3");
    reveal_strlit("effectMiscValue_1");
    reveal_strlit("effectMiscValue_2");
    reveal_strlit("effectMiscValue_3");
    reveal_strlit("effectTriggerSpell_1");
    reveal_strlit("effectTriggerSpell_2");
    reveal_strlit("effectTriggerSpell_3");
    reveal_strlit("effectPointsPerCombo_1");
    reveal_strlit("effectPointsPerCombo_2");
    reveal_strlit("effectPointsPerCombo_3");
    reveal_strlit("spellVisualId_1");
    reveal_strlit("spellVisualId_2");
    reveal_strlit("spellIconId");
    reveal_strlit("activeIconId");
    reveal_strlit("spellPriority");
    reveal_strlit("name_enUS");
    reveal_strlit("name_koKR");
    reveal_strlit("name_frFR");
    reveal_strlit("name_deDE");
    reveal_strlit("name_zhCN");
    reveal_strlit("name_ruRU");
    reveal_strlit("name_esES");
    reveal_strlit("name_ptPT");
    reveal_strlit("nameMask");
    reveal_strlit("subtext_enUS");
    reveal_strlit("subtext_koKR");
    reveal_strlit("subtext_frFR");
    reveal_strlit("subtext_deDE");
    reveal_strlit("subtext_zhCN");
    reveal_strlit("subtext_ruRU");
    reveal_strlit("subtext_esES");
    reveal_strlit("subtext_ptPT");
    reveal_strlit("subtextMask");
    reveal_strlit("description_enUS");
    reveal_strlit("description_koKR");
    reveal_strlit("description_frFR");
    reveal_strlit("description_deDE");
    reveal_strlit("description_zhCN");
    reveal_strlit("description_ruRU");
    reveal_strlit("description_esES");
    reveal_strlit("description_ptPT");
    reveal_strlit("descriptionMask");
    reveal_strlit("auraDescription_enUS");
    reveal_strlit("auraDescription_koKR");
    reveal_strlit("auraDescription_frFR");
    reveal_strlit("auraDescription_deDE");
    reveal_strlit("auraDescription_zhCN");
    reveal_strlit("auraDescription_ruRU");
    reveal_strlit("auraDescription_esES");
    reveal_strlit("auraDescription_ptPT");
    reveal_strlit("auraDescriptionMask");
    reveal_strlit("manaCostPercentage");
    reveal_strlit("startRecoveryCategory");
    reveal_strlit("startRecoveryTime");
    reveal_strlit("maxTargetLevel");
    reveal_strlit("spellClassSet");
    reveal_strlit("spellClassMask_1");
    reveal_strlit("spellClassMask_2");
    reveal_strlit("maxTargets");
    reveal_strlit("damageType");
    reveal_strlit("preventionType");
    reveal_strlit("stanceBarOrder");
    reveal_strlit("damageMultiplier_1");
    reveal_strlit("damageMultiplier_2");
    reveal_strlit("damageMultiplier_3");
    reveal_strlit("minFactionId");
    reveal_strlit("minReputation");
    reveal_strlit("requiredAuraVision");
    reveal_with_fuel(distinct_in, 14);
    reveal_with_fuel(fresh_before, 12);
    reveal_with_fuel(fresh_in, 17);
    reveal_with_fuel(chars_differ, 30);
    let names = column_names(spell_layout());
    assert(fresh_before(names, 160, names[160]));
    assert(fresh_before(names, 161, names[161]));
    assert(fresh_before(names, 162, names[162]));
    assert(fresh_before(names, 163, names[163]));
    assert(fresh_before(names, 164, names[164]));
    assert(fresh_before(names, 165, names[165]));
    assert(fresh_before(names, 166, names[166]));
    assert(fresh_before(names, 167, names[167]));
    assert(fresh_before(names, 168, names[168]));
    assert(fresh_before(names, 169, names[169]));
    assert(fresh_before(names, 170, names[170]));
    assert(fresh_before(names, 171, names[171]));
    assert(fresh_before(names, 172, names[172]));
    assert(distinct_in(names, 160, 13));
}

proof fn lemma_spell_names_distinct()
    ensures
        distinct_column_names(spell_layout()),
{
    let names = column_names(spell_layout());
    assert(distinct_prefix(names, 0)) by {
        reveal(distinct_prefix);
    }
    lemma_spell_names_fresh_0();
    lemma_extend(names, 0, 16);
    lemma_spell_names_fresh_16();
    lemma_extend(names, 16, 16);
    lemma_spell_names_fresh_32();
    lemma_extend(names, 32, 16);
    lemma_spell_names_fresh_48();
    lemma_extend(names, 48, 16);
    lemma_spell_names_fresh_64();
    lemma_extend(names, 64, 16);
    lemma_spell_names_fresh_80();
    lemma_extend(names, 80, 16);
    lemma_spell_names_fresh_96();
    lemma_extend(names, 96, 16);
    lemma_spell_names_fresh_112();
    lemma_extend(names, 112, 16);
    lemma_spell_names_fresh_128();
    lemma_extend(names, 128, 16);
    lemma_spell_names_fresh_144();
    lemma_extend(names, 144, 16);
    lemma_spell_names_fresh_160();
    lemma_extend(names, 160, 13);
    assert(names.len() == 173);
    lemma_no_duplicates(names);
    reveal(distinct_column_names);
}

proof fn lemma_spell_cast_times_names_distinct()
    ensures
        distinct_column_names(spell_cast_times_layout()),
{
    reveal_strlit("id");
    reveal_strlit("base");
    reveal_strlit("perLevel");
    reveal_strlit("minimum");
    reveal_with_fuel(distinct_in, 5);
    reveal_with_fuel(fresh_before, 2);
    reveal_with_fuel(fresh_in, 17);
    reveal_with_fuel(chars_differ, 9);
    let names = column_names(spell_cast_times_layout());
    assert(fresh_before(names, 0, names[0]));
    assert(fresh_before(names, 1, names[1]));
    assert(fresh_before(names, 2, names[2]));
    assert(fresh_before(names, 3, names[3]));
    assert(distinct_in(names, 0, 4));
    assert(distinct_prefix(names, 0)) by {
        reveal(distinct_prefix);
    }
    lemma_extend(names, 0, 4);
    lemma_no_duplicates(names);
    reveal(distinct_column_names);
}

proof fn lemma_spell_category_names_distinct()
    ensures
        distinct_column_names(spell_category_layout()),
{
    reveal_strlit("id");
    reveal_strlit("flags");
    reveal_with_fuel(distinct_in, 3);
    reveal_with_fuel(fresh_before, 2);
    reveal_with_fuel(fresh_in, 17);
    reveal_with_fuel(chars_differ, 6);
    let names = column_names(spell_category_layout());
    assert(fresh_before(names, 0, names[0]));
    assert(fresh_before(names, 1, names[1]));
    assert(distinct_in(names, 0, 2));
    assert(distinct_prefix(names, 0)) by {
        reveal(distinct_prefix);
    }
    lemma_extend(names, 0, 2);
    lemma_no_duplicates(names);
    reveal(distinct_column_names);
}

proof fn lemma_spell_dispel_type_names_distinct()
    ensures
        distinct_column_names(spell_dispel_type_layout()),
{
    reveal_strlit("id");
    reveal_strlit("name_enUS");
    reveal_strlit("name_koKR");
    reveal_strlit("name_frFR");
    reveal_strlit("name_deDE");
    reveal_strlit("name_zhCN");
    reveal_strlit("name_ruRU");
    reveal_strlit("name_esES");
    reveal_strlit("name_ptPT");
    reveal_strlit("nameMask");
    reveal_strlit("showOnAuraTooltip");
    reveal_strlit("internalName");
    reveal_with_fuel(distinct_in, 13);
    reveal_with_fuel(fresh_before, 2);
    reveal_with_fuel(fresh_in, 17);
    reveal_with_fuel(chars_differ, 18);
    let names = column_names(spell_dispel_type_layout());
    assert(fresh_before(names, 0, names[0]));
    assert(fresh_before(names, 1, names[1]));
    assert(fresh_before(names, 2, names[2]));
    assert(fresh_before(names, 3, names[3]));
    assert(fresh_before(names, 4, names[4]));
    assert(fresh_before(names, 5, names[5]));
    assert(fresh_before(names, 6, names[6]));
    assert(fresh_before(names, 7, names[7]));
    assert(fresh_before(names, 8, names[8]));
    assert(fresh_before(names, 9, names[9]));
    assert(fresh_before(names, 10, names[10]));
    assert(fresh_before(names, 11, names[11]));
    assert(distinct_in(names, 0, 12));
    assert(distinct_prefix(names, 0)) by {
        reveal(distinct_prefix);
    }
    lemma_extend(names, 0, 12);
    lemma_no_duplicates(names);
    reveal(distinct_column_names);
}

proof fn lemma_spell_duration_names_distinct()
    ensures
        distinct_column_names(spell_duration_layout()),
{
    reveal_strlit("id");
    reveal_strlit("base");
    reveal_strlit("perLevel");
    reveal_strlit("max");
    reveal_with_fuel(distinct_in, 5);
    reveal_with_fuel(fresh_before, 2);
    reveal_with_fuel(fresh_in, 17);
    reveal_with_fuel(chars_differ, 9);
    let names = column_names(spell_duration_layout());
    assert(fresh_before(names, 0, names[0]));
    assert(fresh_before(names, 1, names[1]));
    assert(fresh_before(names, 2, names[2]));
    assert(fresh_before(names, 3, names[3]));
    assert(distinct_in(names, 0, 4));
    assert(distinct_prefix(names, 0)) by {
        reveal(distinct_prefix);
    }
    lemma_extend(names, 0, 4);
    lemma_no_duplicates(names);
    reveal(distinct_column_names);
}

proof fn lemma_spell_icon_names_distinct()
    ensures
        distinct_column_names(spell_icon_layout()),
{
    reveal_strlit("id");
    reveal_strlit("texture");
    reveal_with_fuel(distinct_in, 3);
    reveal_with_fuel(fresh_before, 2);
    reveal_with_fuel(fresh_in, 17);
    reveal_with_fuel(chars_differ, 8);
    let names = column_names(spell_icon_layout());
    assert(fresh_before(names, 0, names[0]));
    assert(fresh_before(names, 1, names[1]));
    assert(distinct_in(names, 0, 2));
    assert(distinct_prefix(names, 0)) by {
        reveal(distinct_prefix);
    }
    lemma_extend(names, 0, 2);
    lemma_no_duplicates(names);
    reveal(distinct_column_names);
}

proof fn lemma_spell_item_enchantment_names_fresh_0()
    ensures
        distinct_in(column_names(spell_item_enchantment_layout()), 0, 16),
{
    reveal_strlit("id");
    reveal_strlit("effect_1");
    reveal_strlit("effect_2");
    reveal_strlit("effect_3");
    reveal_strlit("pointsMin_1");
    reveal_strlit("pointsMin_2");
    reveal_strlit("pointsMin_3");
    reveal_strlit("pointsMax_1");
    reveal_strlit("pointsMax_2");
    reveal_strlit("pointsMax_3");
    reveal_strlit("effectArg_1");
    reveal_strlit("effectArg_2");
    reveal_strlit("effectArg_3");
    reveal_strlit("name_enUS");
    reveal_strlit("name_koKR");
    reveal_strlit("name_frFR");
    reveal_with_fuel(distinct_in, 17);
    reveal_with_fuel(fresh_before, 2);
    reveal_with_fuel(fresh_in, 17);
    reveal_with_fuel(chars_differ, 12);
    let names = column_names(spell_item_enchantment_layout());
    assert(fresh_before(names, 0, names[0]));
    assert(fresh_before(names, 1, names[1]));
    assert(fresh_before(names, 2, names[2]));
    assert(fresh_before(names, 3, names[3]));
    assert(fresh_before(names, 4, names[4]));
    assert(fresh_before(names, 5, names[5]));
    assert(fresh_before(names, 6, names[6]));
    assert(fresh_before(names, 7, names[7]));
    assert(fresh_before(names, 8, names[8]));
    assert(fresh_before(names, 9, names[9]));
    assert(fresh_before(names, 10, names[10]));
    assert(fresh_before(names, 11, names[11]));
    assert(fresh_before(names, 12, names[12]));
    assert(fresh_before(names, 13, names[13]));
    assert(fresh_before(names, 14, names[14]));
    assert(fresh_before(names, 15, names[15]));
    assert(distinct_in(names, 0, 16));
}

proof fn lemma_spell_item_enchantment_names_fresh_16()
    ensures
        distinct_in(column_names(spell_item_enchantment_layout()), 16, 8),
{
    reveal_strlit("id");
    reveal_strlit("effect_1");
    reveal_strlit("effect_2");
    reveal_strlit("effect_3");
    reveal_strlit("pointsMin_1");
    reveal_strlit("pointsMin_2");
    reveal_strlit("pointsMin_3");
    reveal_strlit("pointsMax_1");
    reveal_strlit("pointsMax_2");
    reveal_strlit("pointsMax_3");
    reveal_strlit("effectArg_1");
    reveal_strlit("effectArg_2");
    reveal_strlit("effectArg_3");
    reveal_strlit("name_enUS");
    reveal_strlit("name_koKR");
    reveal_strlit("name_frFR");
    reveal_strlit("name_deDE");
    reveal_strlit("name_zhCN");
    reveal_strlit("name_ruRU");
    reveal_strlit("name_esES");
    reveal_strlit("name_ptPT");
    reveal_strlit("nameMask");
    reveal_strlit("itemVisual");
    reveal_strlit("flags");
    reveal_with_fuel(distinct_in, 9);
    reveal_with_fuel(fresh_before, 3);
    reveal_with_fuel(fresh_in, 17);
    reveal_with_fuel(chars_differ, 12);
    let names = column_names(spell_item_enchantment_layout());
    assert(fresh_before(names, 16, names[16]));
    assert(fresh_before(names, 17, names[17]));
    assert(fresh_before(names, 18, names[18]));
    assert(fresh_before(names, 19, names[19]));
    assert(fresh_before(names, 20, names[20]));
    assert(fresh_before(names, 21, names[21]));
    assert(fresh_before(names, 22, names[22]));
    assert(fresh_before(names, 23, names[23]));
    assert(distinct_in(names, 16, 8));
}

proof fn lemma_spell_item_enchantment_names_distinct()
    ensures
        distinct_column_names(spell_item_enchantment_layout()),
{
    let names = column_names(spell_item_enchantment_layout());
    assert(distinct_prefix(names, 0)) by {
        reveal(distinct_prefix);
    }
    lemma_spell_item_enchantment_names_fresh_0();
    lemma_extend(names, 0, 16);
    lemma_spell_item_enchantment_names_fresh_16();
    lemma_extend(names, 16, 8);
    assert(names.len() == 24);
    lemma_no_duplicates(names);
    reveal(distinct_column_names);
}

proof fn lemma_spell_mechanic_names_distinct()
    ensures
        distinct_column_names(spell_mechanic_layout()),
{
    reveal_strlit("id");
    reveal_strlit("unknown");
    reveal_with_fuel(distinct_in, 3);
    reveal_with_fuel(fresh_before, 2);
    reveal_with_fuel(fresh_in, 17);
    reveal_with_fuel(chars_differ, 8);
    let names = column_names(spell_mechanic_layout());
    assert(fresh_before(names, 0, names[0]));
    assert(fresh_before(names, 1, names[1]));
    assert(distinct_in(names, 0, 2));
    assert(distinct_prefix(names, 0)) by {
        reveal(distinct_prefix);
    }
    lemma_extend(names, 0, 2);
    lemma_no_duplicates(names);
    reveal(distinct_column_names);
}

proof fn lemma_spell_radius_names_distinct()
    ensures
        distinct_column_names(spell_radius_layout()),
{
    reveal_strlit("id");
    reveal_strlit("radius");
    reveal_strlit("radiusPerLevel");
    reveal_strlit("radiusMax");
    reveal_with_fuel(distinct_in, 5);
    reveal_with_fuel(fresh_before, 2);
    reveal_with_fuel(fresh_in, 17);
    reveal_with_fuel(chars_differ, 15);
    let names = column_names(spell_radius_layout());
    assert(fresh_before(names, 0, names[0]));
    assert(fresh_before(names, 1, names[1]));
    assert(fresh_before(names, 2, names[2]));
    assert(fresh_before(names, 3, names[3]));
    assert(distinct_in(names, 0, 4));
    assert(distinct_prefix(names, 0)) by {
        reveal(distinct_prefix);
    }
    lemma_extend(names, 0, 4);
    lemma_no_duplicates(names);
    reveal(distinct_column_names);
}

proof fn lemma_spell_range_names_fresh_0()
    ensures
        distinct_in(column_names(spell_range_layout()), 0, 16),
{
    reveal_strlit("id");
    reveal_strlit("rangeMin");
    reveal_strlit("rangeMax");
    reveal_strlit("flags");
    reveal_strlit("name_enUS");
    reveal_strlit("name_koKR");
    reveal_strlit("name_frFR");
    reveal_strlit("name_deDE");
    reveal_strlit("name_zhCN");
    reveal_strlit("name_ruRU");
    reveal_strlit("name_esES");
    reveal_strlit("name_ptPT");
    reveal_strlit("nameMask");
    reveal_strlit("shortName_enUS");
    reveal_strlit("shortName_koKR");
    reveal_strlit("shortName_frFR");
    reveal_with_fuel(distinct_in, 17);
    reveal_with_fuel(fresh_before, 2);
    reveal_with_fuel(fresh_in, 17);
    reveal_with_fuel(chars_differ, 15);
    let names = column_names(spell_range_layout());
    assert(fresh_before(names, 0, names[0]));
    assert(fresh_before(names, 1, names[1]));
    assert(fresh_before(names, 2, names[2]));
    assert(fresh_before(names, 3, names[3]));
    assert(fresh_before(names, 4, names[4]));
    assert(fresh_before(names, 5, names[5]));
    assert(fresh_before(names, 6, names[6]));
    assert(fresh_before(names, 7, names[7]));
    assert(fresh_before(names, 8, names[8]));
    assert(fresh_before(names, 9, names[9]));
    assert(fresh_before(names, 10, names[10]));
    assert(fresh_before(names, 11, names[11]));
    assert(fresh_before(names, 12, names[12]));
    assert(fresh_before(names, 13, names[13]));
    assert(fresh_before(names, 14, names[14]));
    assert(fresh_before(names, 15, names[15]));
    assert(distinct_in(names, 0, 16));
}

proof fn lemma_spell_range_names_fresh_16()
    ensures
        distinct_in(column_names(spell_range_layout()), 16, 6),
{
    reveal_strlit("id");
    reveal_strlit("rangeMin");
    reveal_strlit("rangeMax");
    reveal_strlit("flags");
    reveal_strlit("name_enUS");
    reveal_strlit("name_koKR");
    reveal_strlit("name_frFR");
    reveal_strlit("name_deDE");
    reveal_strlit("name_zhCN");
    reveal_strlit("name_ruRU");
    reveal_strlit("name_esES");
    reveal_strlit("name_ptPT");
    reveal_strlit("nameMask");
    reveal_strlit("shortName_enUS");
    reveal_strlit("shortName_koKR");
    reveal_strlit("shortName_frFR");
    reveal_strlit("shortName_deDE");
    reveal_strlit("shortName_zhCN");
    reveal_strlit("shortName_ruRU");
    reveal_strlit("shortName_esES");
    reveal_strlit("shortName_ptPT");
    reveal_strlit("shortNameMask");
    reveal_with_fuel(distinct_in, 7);
    reveal_with_fuel(fresh_before, 3);
    reveal_with_fuel(fresh_in, 17);
    reveal_with_fuel(chars_differ, 15);
    let names = column_names(spell_range_layout());
    assert(fresh_before(names, 16, names[16]));
    assert(fresh_before(names, 17, names[17]));
    assert(fresh_before(names, 18, names[18]));
    assert(fresh_before(names, 19, names[19]));
    assert(fresh_before(names, 20, names[20]));
    assert(fresh_before(names, 21, names[21]));
    assert(distinct_in(names, 16, 6));
}

proof fn lemma_spell_range_names_distinct()
    ensures
        distinct_column_names(spell_range_layout()),
{
    let names = column_names(spell_range_layout());
    assert(distinct_prefix(names, 0)) by {
        reveal(distinct_prefix);
    }
    lemma_spell_range_names_fresh_0();
    lemma_extend(names, 0, 16);
    lemma_spell_range_names_fresh_16();
    lemma_extend(names, 16, 6);
    assert(names.len() == 22);
    lemma_no_duplicates(names);
    reveal(distinct_column_names);
}

proof fn lemma_spell_shapeshift_form_names_distinct()
    ensures
        distinct_column_names(spell_shapeshift_form_layout()),
{
    reveal_strlit("id");
    reveal_strlit("bonusActionBar");
    reveal_strlit("name_enUS");
    reveal_strlit("name_koKR");
    reveal_strlit("name_frFR");
    reveal_strlit("name_deDE");
    reveal_strlit("name_zhCN");
    reveal_strlit("name_ruRU");
    reveal_strlit("name_esES");
    reveal_strlit("name_ptPT");
    reveal_strlit("nameMask");
    reveal_strlit("flags");
    reveal_strlit("creatureType");
    reveal_strlit("combatRoundTime");
    reveal_with_fuel(distinct_in, 15);
    reveal_with_fuel(fresh_before, 2);
    reveal_with_fuel(fresh_in, 17);
    reveal_with_fuel(chars_differ, 16);
    let names = column_names(spell_shapeshift_form_layout());
    assert(fresh_before(names, 0, names[0]));
    assert(fresh_before(names, 1, names[1]));
    assert(fresh_before(names, 2, names[2]));
    assert(fresh_before(names, 3, names[3]));
    assert(fresh_before(names, 4, names[4]));
    assert(fresh_before(names, 5, names[5]));
    assert(fresh_before(names, 6, names[6]));
    assert(fresh_before(names, 7, names[7]));
    assert(fresh_before(names, 8, names[8]));
    assert(fresh_before(names, 9, names[9]));
    assert(fresh_before(names, 10, names[10]));
    assert(fresh_before(names, 11, names[11]));
    assert(fresh_before(names, 12, names[12]));
    assert(fresh_before(names, 13, names[13]));
    assert(distinct_in(names, 0, 14));
    assert(distinct_prefix(names, 0)) by {
        reveal(distinct_prefix);
    }
    lemma_extend(names, 0, 14);
    lemma_no_duplicates(names);
    reveal(distinct_column_names);
}

proof fn lemma_talent_names_fresh_0()
    ensures
        distinct_in(column_names(talent_layout()), 0, 16),
{
    reveal_strlit("id");
    reveal_strlit("specId");
    reveal_strlit("row");
    reveal_strlit("col");
    reveal_strlit("spellRank_1");
    reveal_strlit("spellRank_2");
    reveal_strlit("spellRank_3");
    reveal_strlit("spellRank_4");
    reveal_strlit("spellRank_5");
    reveal_strlit("spellRank_6");
    reveal_strlit("spellRank_7");
    reveal_strlit("spellRank_8");
    reveal_strlit("spellRank_9");
    reveal_strlit("prerequisiteTalent_1");
    reveal_strlit("prerequisiteTalent_2");
    reveal_strlit("prerequisiteTalent_3");
    reveal_with_fuel(distinct_in, 17);
    reveal_with_fuel(fresh_before, 2);
    reveal_with_fuel(fresh_in, 17);
    reveal_with_fuel(chars_differ, 21);
    let names = column_names(talent_layout());
    assert(fresh_before(names, 0, names[0]));
    assert(fresh_before(names, 1, names[1]));
    assert(fresh_before(names, 2, names[2]));
    assert(fresh_before(names, 3, names[3]));
    assert(fresh_before(names, 4, names[4]));
    assert(fresh_before(names, 5, names[5]));
    assert(fresh_before(names, 6, names[6]));
    assert(fresh_before(names, 7, names[7]));
    assert(fresh_before(names, 8, names[8]));
    assert(fresh_before(names, 9, names[9]));
    assert(fresh_before(names, 10, names[10]));
    assert(fresh_before(names, 11, names[11]));
    assert(fresh_before(names, 12, names[12]));
    assert(fresh_before(names, 13, names[13]));
    assert(fresh_before(names, 14, names[14]));
    assert(fresh_before(names, 15, names[15]));
    assert(distinct_in(names, 0, 16));
}

proof fn lemma_talent_names_fresh_16()
    ensures
        distinct_in(column_names(talent_layout()), 16, 5),
{
    reveal_strlit("id");
    reveal_strlit("specId");
    reveal_strlit("row");
    reveal_strlit("col");
    reveal_strlit("spellRank_1");
    reveal_strlit("spellRank_2");
    reveal_strlit("spellRank_3");
    reveal_strlit("spellRank_4");
    reveal_strlit("spellRank_5");
    reveal_strlit("spellRank_6");
    reveal_strlit("spellRank_7");
    reveal_strlit("spellRank_8");
    reveal_strlit("spellRank_9");
    reveal_strlit("prerequisiteTalent_1");
    reveal_strlit("prerequisiteTalent_2");
    reveal_strlit("prerequisiteTalent_3");
    reveal_strlit("prerequisiteRank_1");
    reveal_strlit("prerequisiteRank_2");
    reveal_strlit("prerequisiteRank_3");
    reveal_strlit("flags");
    reveal_strlit("requiredSpellId");
    reveal_with_fuel(distinct_in, 6);
    reveal_with_fuel(fresh_before, 3);
    reveal_with_fuel(fresh_in, 17);
    reveal_with_fuel(chars_differ, 21);
    let names = column_names(talent_layout());
    assert(fresh_before(names, 16, names[16]));
    assert(fresh_before(names, 17, names[17]));
    assert(fresh_before(names, 18, names[18]));
    assert(fresh_before(names, 19, names[19]));
    assert(fresh_before(names, 20, names[20]));
    assert(distinct_in(names, 16, 5));
}

proof fn lemma_talent_names_distinct()
    ensures
        distinct_column_names(talent_layout()),
{
    let names = column_names(talent_layout());
    assert(distinct_prefix(names, 0)) by {
        reveal(distinct_prefix);
    }
    lemma_talent_names_fresh_0();
    lemma_extend(names, 0, 16);
    lemma_talent_names_fresh_16();
    lemma_extend(names, 16, 5);
    assert(names.len() == 21);
    lemma_no_duplicates(names);
    reveal(distinct_column_names);
}

proof fn lemma_talent_tab_names_distinct()
    ensures
        distinct_column_names(talent_tab_layout()),
{
    reveal_strlit("id");
    reveal_strlit("name_enUS");
    reveal_strlit("name_koKR");
    reveal_strlit("name_frFR");
    reveal_strlit("name_deDE");
    reveal_strlit("name_zhCN");
    reveal_strlit("name_ruRU");
    reveal_strlit("name_esES");
    reveal_strlit("name_ptPT");
    reveal_strlit("nameMask");
    reveal_strlit("spellIconId");
    reveal_strlit("raceMask");
    reveal_strlit("classMask");
    reveal_strlit("orderIndex");
    reveal_strlit("background");
    reveal_with_fuel(distinct_in, 16);
    reveal_with_fuel(fresh_before, 2);
    reveal_with_fuel(fresh_in, 17);
    reveal_with_fuel(chars_differ, 12);
    let names = column_names(talent_tab_layout());
    assert(fresh_before(names, 0, names[0]));
    assert(fresh_before(names, 1, names[1]));
    assert(fresh_before(names, 2, names[2]));
    assert(fresh_before(names, 3, names[3]));
    assert(fresh_before(names, 4, names[4]));
    assert(fresh_before(names, 5, names[5]));
    assert(fresh_before(names, 6, names[6]));
    assert(fresh_before(names, 7, names[7]));
    assert(fresh_before(names, 8, names[8]));
    assert(fresh_before(names, 9, names[9]));
    assert(fresh_before(names, 10, names[10]));
    assert(fresh_before(names, 11, names[11]));
    assert(fresh_before(names, 12, names[12]));
    assert(fresh_before(names, 13, names[13]));
    assert(fresh_before(names, 14, names[14]));
    assert(distinct_in(names, 0, 15));
    assert(distinct_prefix(names, 0)) by {
        reveal(distinct_prefix);
    }
    lemma_extend(names, 0, 15);
    lemma_no_duplicates(names);
    reveal(distinct_column_names);
}

proof fn lemma_taxi_nodes_names_distinct()
    ensures
        distinct_column_names(taxi_nodes_layout()),
{
    reveal_strlit("id");
    reveal_strlit("mapId");
    reveal_strlit("x");
    reveal_strlit("y");
    reveal_strlit("z");
    reveal_strlit("name_enUS");
    reveal_strlit("name_koKR");
    reveal_strlit("name_frFR");
    reveal_strlit("name_deDE");
    reveal_strlit("name_zhCN");
    reveal_strlit("name_ruRU");
    reveal_strlit("name_esES");
    reveal_strlit("name_ptPT");
    reveal_strlit("nameMask");
    reveal_strlit("mountCreatureId_1");
    reveal_strlit("mountCreatureId_2");
    reveal_with_fuel(distinct_in, 17);
    reveal_with_fuel(fresh_before, 2);
    reveal_with_fuel(fresh_in, 17);
    reveal_with_fuel(chars_differ, 18);
    let names = column_names(taxi_nodes_layout());
    assert(fresh_before(names, 0, names[0]));
    assert(fresh_before(names, 1, names[1]));
    assert(fresh_before(names, 2, names[2]));
    assert(fresh_before(names, 3, names[3]));
    assert(fresh_before(names, 4, names[4]));
    assert(fresh_before(names, 5, names[5]));
    assert(fresh_before(names, 6, names[6]));
    assert(fresh_before(names, 7, names[7]));
    assert(fresh_before(names, 8, names[8]));
    assert(fresh_before(names, 9, names[9]));
    assert(fresh_before(names, 10, names[10]));
    assert(fresh_before(names, 11, names[11]));
    assert(fresh_before(names, 12, names[12]));
    assert(fresh_before(names, 13, names[13]));
    assert(fresh_before(names, 14, names[14]));
    assert(fresh_before(names, 15, names[15]));
    assert(distinct_in(names, 0, 16));
    assert(distinct_prefix(names, 0)) by {
        reveal(distinct_prefix);
    }
    lemma_extend(names, 0, 16);
    lemma_no_duplicates(names);
    reveal(distinct_column_names);
}

proof fn lemma_taxi_path_names_distinct()
    ensures
        distinct_column_names(taxi_path_layout()),
{
    reveal_strlit("id");
    reveal_strlit("fromNode");
    reveal_strlit("toNode");
    reveal_strlit("cost");
    reveal_with_fuel(distinct_in, 5);
    reveal_with_fuel(fresh_before, 2);
    reveal_with_fuel(fresh_in, 17);
    reveal_with_fuel(chars_differ, 9);
    let names = column_names(taxi_path_layout());
    assert(fresh_before(names, 0, names[0]));
    assert(fresh_before(names, 1, names[1]));
    assert(fresh_before(names, 2, names[2]));
    assert(fresh_before(names, 3, names[3]));
    assert(distinct_in(names, 0, 4));
    assert(distinct_prefix(names, 0)) by {
        reveal(distinct_prefix);
    }
    lemma_extend(names, 0, 4);
    lemma_no_duplicates(names);
    reveal(distinct_column_names);
}

proof fn lemma_taxi_path_node_names_distinct()
    ensures
        distinct_column_names(taxi_path_node_layout()),
{
    reveal_strlit("id");
    reveal_strlit("pathId");
    reveal_strlit("nodeIndex");
    reveal_strlit("mapId");
    reveal_strlit("x");
    reveal_strlit("y");
    reveal_strlit("z");
    reveal_strlit("flags");
    reveal_strlit("delay");
    reveal_with_fuel(distinct_in, 10);
    reveal_with_fuel(fresh_before, 2);
    reveal_with_fuel(fresh_in, 17);
    reveal_with_fuel(chars_differ, 10);
    let names = column_names(taxi_path_node_layout());
    assert(fresh_before(names, 0, names[0]));
    assert(fresh_before(names, 1, names[1]));
    assert(fresh_before(names, 2, names[2]));
    assert(fresh_before(names, 3, names[3]));
    assert(fresh_before(names, 4, names[4]));
    assert(fresh_before(names, 5, names[5]));
    assert(fresh_before(names, 6, names[6]));
    assert(fresh_before(names, 7, names[7]));
    assert(fresh_before(names, 8, names[8]));
    assert(distinct_in(names, 0, 9));
    assert(distinct_prefix(names, 0)) by {
        reveal(distinct_prefix);
    }
    lemma_extend(names, 0, 9);
    lemma_no_duplicates(names);
    reveal(distinct_column_names);
}

proof fn lemma_world_map_area_names_distinct()
    ensures
        distinct_column_names(world_map_area_layout()),
{
    reveal_strlit("id");
    reveal_strlit("mapId");
    reveal_strlit("areaId");
    reveal_strlit("name");
    reveal_strlit("locLeft");
    reveal_strlit("locRight");
    reveal_strlit("locTop");
    reveal_strlit("locBottom");
    reveal_with_fuel(distinct_in, 9);
    reveal_with_fuel(fresh_before, 2);
    reveal_with_fuel(fresh_in, 17);
    reveal_with_fuel(chars_differ, 10);
    let names = column_names(world_map_area_layout());
    assert(fresh_before(names, 0, names[0]));
    assert(fresh_before(names, 1, names[1]));
    assert(fresh_before(names, 2, names[2]));
    assert(fresh_before(names, 3, names[3]));
    assert(fresh_before(names, 4, names[4]));
    assert(fresh_before(names, 5, names[5]));
    assert(fresh_before(names, 6, names[6]));
    assert(fresh_before(names, 7, names[7]));
    assert(distinct_in(names, 0, 8));
    assert(distinct_prefix(names, 0)) by {
        reveal(distinct_prefix);
    }
    lemma_extend(names, 0, 8);
    lemma_no_duplicates(names);
    reveal(distinct_column_names);
}

proof fn lemma_world_safe_locs_names_distinct()
    ensures
        distinct_column_names(world_safe_locs_layout()),
{
    reveal_strlit("id");
    reveal_strlit("mapId");
    reveal_strlit("x");
    reveal_strlit("y");
    reveal_strlit("z");
    reveal_strlit("name_enUS");
    reveal_strlit("name_koKR");
    reveal_strlit("name_frFR");
    reveal_strlit("name_deDE");
    reveal_strlit("name_zhCN");
    reveal_strlit("name_ruRU");
    reveal_strlit("name_esES");
    reveal_strlit("name_ptPT");
    reveal_strlit("nameMask");
    reveal_with_fuel(distinct_in, 15);
    reveal_with_fuel(fresh_before, 2);
    reveal_with_fuel(fresh_in, 17);
    reveal_with_fuel(chars_differ, 10);
    let names = column_names(world_safe_locs_layout());
    assert(fresh_before(names, 0, names[0]));
    assert(fresh_before(names, 1, names[1]));
    assert(fresh_before(names, 2, names[2]));
    assert(fresh_before(names, 3, names[3]));
    assert(fresh_before(names, 4, names[4]));
    assert(fresh_before(names, 5, names[5]));
    assert(fresh_before(names, 6, names[6]));
    assert(fresh_before(names, 7, names[7]));
    assert(fresh_before(names, 8, names[8]));
    assert(fresh_before(names, 9, names[9]));
    assert(fresh_before(names, 10, names[10]));
    assert(fresh_before(names, 11, names[11]));
    assert(fresh_before(names, 12, names[12]));
    assert(fresh_before(names, 13, names[13]));
    assert(distinct_in(names, 0, 14));
    assert(distinct_prefix(names, 0)) by {
        reveal(distinct_prefix);
    }
    lemma_extend(names, 0, 14);
    lemma_no_duplicates(names);
    reveal(distinct_column_names);
}

/// Within every known layout, no two columns share a name, so a column is
/// found again by its name alone.
pub proof fn lemma_layout_column_names_distinct()
    ensures
        forall|i: int|
            0 <= i < known_layouts().len() ==> distinct_column_names(#[trigger] known_layouts()[i]),
{
    lemma_area_table_names_distinct();
    lemma_area_trigger_names_distinct();
    lemma_char_start_outfit_names_distinct();
    lemma_chr_classes_names_distinct();
    lemma_chr_races_names_distinct();
    lemma_creature_family_names_distinct();
    lemma_creature_type_names_distinct();
    lemma_faction_names_distinct();
    lemma_faction_template_names_distinct();
    lemma_item_bag_family_names_distinct();
    lemma_item_class_names_distinct();
    lemma_item_display_info_names_distinct();
    lemma_item_random_properties_names_distinct();
    lemma_item_set_names_distinct();
    lemma_item_sub_class_names_distinct();
    lemma_lfg_dungeons_names_distinct();
    lemma_lock_names_distinct();
    lemma_lock_type_names_distinct();
    lemma_mail_template_names_distinct();
    lemma_map_names_distinct();
    lemma_quest_info_names_distinct();
    lemma_quest_sort_names_distinct();
    lemma_skill_line_names_distinct();
    lemma_skill_line_ability_names_distinct();
    lemma_skill_line_category_names_distinct();
    lemma_spell_names_distinct();
    lemma_spell_cast_times_names_distinct();
    lemma_spell_category_names_distinct();
    lemma_spell_dispel_type_names_distinct();
    lemma_spell_duration_names_distinct();
    lemma_spell_icon_names_distinct();
    lemma_spell_item_enchantment_names_distinct();
    lemma_spell_mechanic_names_distinct();
    lemma_spell_radius_names_distinct();
    lemma_spell_range_names_distinct();
    lemma_spell_shapeshift_form_names_distinct();
    lemma_talent_names_distinct();
    lemma_talent_tab_names_distinct();
    lemma_taxi_nodes_names_distinct();
    lemma_taxi_path_names_distinct();
    lemma_taxi_path_node_names_distinct();
    lemma_world_map_area_names_distinct();
    lemma_world_safe_locs_names_distinct();
}

/// Every column of `l` whose name ends with `_` and one of the locales holds
/// text.
#[verifier::opaque]
pub open spec fn localized_columns_hold_text(l: Seq<(Seq<char>, FieldType)>) -> bool {
    forall|j: int, k: int|
        0 <= j < l.len() && 0 <= k < spec_locales().len() && has_locale_suffix(
            #[trigger] l[j].0,
            #[trigger] spec_locales()[k],
        ) ==> l[j].1 == FieldType::String
}

/// The column `c` holds text, or its name has no `_` five characters from
/// its end, where a locale suffix would start.
spec fn col_ok(c: (Seq<char>, FieldType)) -> bool {
    c.1 == FieldType::String || c.0.len() < 5 || c.0[c.0.len() - 5] != '_'
}

/// [`col_ok`] for the columns `[lo, lo + n)`.
spec fn cols_ok_in(l: Seq<(Seq<char>, FieldType)>, lo: int, n: nat) -> bool
    decreases n,
{
    n == 0 || (col_ok(l[lo + n - 1]) && cols_ok_in(l, lo, (n - 1) as nat))
}

/// [`col_ok`] for each of the sixteen columns from `lo` on.
spec fn cols_ok_block(l: Seq<(Seq<char>, FieldType)>, lo: int) -> bool {
    &&& col_ok(l[lo])
    &&& col_ok(l[lo + 1])
    &&& col_ok(l[lo + 2])
    &&& col_ok(l[lo + 3])
    &&& col_ok(l[lo + 4])
    &&& col_ok(l[lo + 5])
    &&& col_ok(l[lo + 6])
    &&& col_ok(l[lo + 7])
    &&& col_ok(l[lo + 8])
    &&& col_ok(l[lo + 9])
    &&& col_ok(l[lo + 10])
    &&& col_ok(l[lo + 11])
    &&& col_ok(l[lo + 12])
    &&& col_ok(l[lo + 13])
    &&& col_ok(l[lo + 14])
    &&& col_ok(l[lo + 15])
}

/// [`col_ok`] for the columns below `n`, in blocks of sixteen.
spec fn cols_ok_upto(l: Seq<(Seq<char>, FieldType)>, n: nat) -> bool
    decreases n,
{
    if n <= 16 {
        cols_ok_in(l, 0, n)
    } else {
        cols_ok_block(l, n - 16) && cols_ok_upto(l, (n - 16) as nat)
    }
}

proof fn lemma_cols_ok_in(l: Seq<(Seq<char>, FieldType)>, lo: int, n: nat)
    requires
        cols_ok_in(l, lo, n),
    ensures
        forall|j: int| lo <= j < lo + n ==> col_ok(#[trigger] l[j]),
    decreases n,
{
    if n > 0 {
        lemma_cols_ok_in(l, lo, (n - 1) as nat);
    }
}

proof fn lemma_cols_ok_upto(l: Seq<(Seq<char>, FieldType)>, n: nat)
    requires
        cols_ok_upto(l, n),
    ensures
        forall|j: int| 0 <= j < n ==> col_ok(#[trigger] l[j]),
    decreases n,
{
    if n <= 16 {
        lemma_cols_ok_in(l, 0, n);
    } else {
        lemma_cols_ok_upto(l, (n - 16) as nat);
    }
}

/// A layout whose columns all pass [`col_ok`] keeps its localized columns as
/// text: a locale suffix puts `_` five characters from the end.
proof fn lemma_text_columns(l: Seq<(Seq<char>, FieldType)>)
    requires
        cols_ok_upto(l, l.len()),
    ensures
        localized_columns_hold_text(l),
{
    lemma_cols_ok_upto(l, l.len());
    reveal(localized_columns_hold_text);
    assert forall|j: int, k: int|
        0 <= j < l.len() && 0 <= k < spec_locales().len() && has_locale_suffix(
            #[trigger] l[j].0,
            #[trigger] spec_locales()[k],
        ) implies l[j].1 == FieldType::String by {
        let t = l[j].0;
        let loc = spec_locales()[k];
        assert(loc.len() == 4);
        assert(t.subrange(t.len() - 5, t.len() as int)[0] == (seq!['_'] + loc)[0]);
        assert(col_ok(l[j]));
    }
}

proof fn lemma_area_table_text_columns()
    ensures
        localized_columns_hold_text(area_table_layout()),
{
    reveal_strlit("id");
    reveal_strlit("mapId");
    reveal_strlit("parentAreaId");
    reveal_strlit("areaBit");
    reveal_strlit("flags");
    reveal_strlit("soundPreferenceId");
    reveal_strlit("underwaterSoundPreferenceId");
    reveal_strlit("soundAmbienceId");
    reveal_strlit("zoneMusicId");
    reveal_strlit("zoneIntroMusicId");
    reveal_strlit("explorationLevel");
    reveal_strlit("nameMask");
    reveal_strlit("factionGroupMask");
    reveal_strlit("liquidTypeId");
    reveal_strlit("minElevation");
    reveal_strlit("ambientMultiplier");
    reveal_strlit("lightId");
    reveal_with_fuel(cols_ok_upto, 3);
    reveal_with_fuel(cols_ok_in, 17);
    assert(cols_ok_upto(area_table_layout(), 25));
    lemma_text_columns(area_table_layout());
}

proof fn lemma_area_trigger_text_columns()
    ensures
        localized_columns_hold_text(area_trigger_layout()),
{
    reveal_strlit("id");
    reveal_strlit("mapId");
    reveal_strlit("x");
    reveal_strlit("y");
    reveal_strlit("z");
    reveal_strlit("radius");
    reveal_strlit("boxLength");
    reveal_strlit("boxWidth");
    reveal_strlit("boxHeight");
    reveal_strlit("boxYaw");
    reveal_with_fuel(cols_ok_upto, 2);
    reveal_with_fuel(cols_ok_in, 17);
    assert(cols_ok_upto(area_trigger_layout(), 10));
    lemma_text_columns(area_trigger_layout());
}

proof fn lemma_char_start_outfit_text_columns()
    ensures
        localized_columns_hold_text(char_start_outfit_layout()),
{
    reveal_strlit("id");
    reveal_strlit("itemId_1");
    reveal_strlit("itemId_2");
    reveal_strlit("itemId_3");
    reveal_strlit("itemId_4");
    reveal_strlit("itemId_5");
    reveal_strlit("itemId_6");
    reveal_strlit("itemId_7");
    reveal_strlit("itemId_8");
    reveal_strlit("itemId_9");
    reveal_strlit("itemId_10");
    reveal_strlit("itemId_11");
    reveal_strlit("itemId_12");
    reveal_strlit("displayItemId_1");
    reveal_strlit("displayItemId_2");
    reveal_strlit("displayItemId_3");
    reveal_strlit("displayItemId_4");
    reveal_strlit("displayItemId_5");
    reveal_strlit("displayItemId_6");
    reveal_strlit("displayItemId_7");
    reveal_strlit("displayItemId_8");
    reveal_strlit("displayItemId_9");
    reveal_strlit("displayItemId_10");
    reveal_strlit("displayItemId_11");
    reveal_strlit("displayItemId_12");
    reveal_strlit("inventoryType_1");
    reveal_strlit("inventoryType_2");
    reveal_strlit("inventoryType_3");
    reveal_strlit("inventoryType_4");
    reveal_strlit("inventoryType_5");
    reveal_strlit("inventoryType_6");
    reveal_strlit("inventoryType_7");
    reveal_strlit("inventoryType_8");
    reveal_strlit("inventoryType_9");
    reveal_strlit("inventoryType_10");
    reveal_strlit("inventoryType_11");
    reveal_strlit("inventoryType_12");
    reveal_with_fuel(cols_ok_upto, 4);
    reveal_with_fuel(cols_ok_in, 17);
    assert(cols_ok_upto(char_start_outfit_layout(), 37));
    lemma_text_columns(char_start_outfit_layout());
}

proof fn lemma_chr_classes_text_columns()
    ensures
        localized_columns_hold_text(chr_classes_layout()),
{
    reveal_strlit("id");
    reveal_strlit("playerClass");
    reveal_strlit("damageBonusStat");
    reveal_strlit("displayPower");
    reveal_strlit("nameMask");
    reveal_strlit("spellFamily");
    reveal_strlit("flags");
    reveal_with_fuel(cols_ok_upto, 3);
    reveal_with_fuel(cols_ok_in, 17);
    assert(cols_ok_upto(chr_classes_layout(), 17));
    lemma_text_columns(chr_classes_layout());
}

proof fn lemma_chr_races_text_columns()
    ensures
        localized_columns_hold_text(chr_races_layout()),
{
    reveal_strlit("id");
    reveal_strlit("flags");
    reveal_strlit("factionId");
    reveal_strlit("explorationSoundId");
    reveal_strlit("maleDisplayId");
    reveal_strlit("femaleDisplayId");
    reveal_strlit("mountScale");
    reveal_strlit("baseLanguage");
    reveal_strlit("creatureType");
    reveal_strlit("loginEffectSpellId");
    reveal_strlit("combatStunSpellId");
    reveal_strlit("resSicknessSpellId");
    reveal_strlit("splashSoundId");
    reveal_strlit("startingTaxiMask");
    reveal_strlit("cinematicSequenceId");
    reveal_strlit("nameMask");
    reveal_with_fuel(cols_ok_upto, 3);
    reveal_with_fuel(cols_ok_in, 17);
    assert(cols_ok_upto(chr_races_layout(), 29));
    lemma_text_columns(chr_races_layout());
}

proof fn lemma_creature_family_text_columns()
    ensures
        localized_columns_hold_text(creature_family_layout()),
{
    reveal_strlit("id");
    reveal_strlit("minScale");
    reveal_strlit("minScaleLevel");
    reveal_strlit("maxScale");
    reveal_strlit("maxScaleLevel");
    reveal_strlit("skillLine_1");
    reveal_strlit("skillLine_2");
    reveal_strlit("petFoodMask");
    reveal_strlit("nameMask");
    reveal_with_fuel(cols_ok_upto, 3);
    reveal_with_fuel(cols_ok_in, 17);
    assert(cols_ok_upto(creature_family_layout(), 18));
    lemma_text_columns(creature_family_layout());
}

proof fn lemma_creature_type_text_columns()
    ensures
        localized_columns_hold_text(creature_type_layout()),
{
    reveal_strlit("id");
    reveal_strlit("nameMask");
    reveal_strlit("flags");
    reveal_with_fuel(cols_ok_upto, 2);
    reveal_with_fuel(cols_ok_in, 17);
    assert(cols_ok_upto(creature_type_layout(), 11));
    lemma_text_columns(creature_type_layout());
}

proof fn lemma_faction_text_columns()
    ensures
        localized_columns_hold_text(faction_layout()),
{
    reveal_strlit("id");
    reveal_strlit("reputationIdx");
    reveal_strlit("repRaceMask_1");
    reveal_strlit("repRaceMask_2");
    reveal_strlit("repRaceMask_3");
    reveal_strlit("repRaceMask_4");
    reveal_strlit("repClassMask_1");
    reveal_strlit("repClassMask_2");
    reveal_strlit("repClassMask_3");
    reveal_strlit("repClassMask_4");
    reveal_strlit("repBase_1");
    reveal_strlit("repBase_2");
    reveal_strlit("repBase_3");
    reveal_strlit("repBase_4");
    reveal_strlit("repFlags_1");
    reveal_strlit("repFlags_2");
    reveal_strlit("repFlags_3");
    reveal_strlit("repFlags_4");
    reveal_strlit("parentFactionId");
    reveal_strlit("nameMask");
    reveal_strlit("descriptionMask");
    reveal_with_fuel(cols_ok_upto, 4);
    reveal_with_fuel(cols_ok_in, 17);
    assert(cols_ok_upto(faction_layout(), 37));
    lemma_text_columns(faction_layout());
}

proof fn lemma_faction_template_text_columns()
    ensures
        localized_columns_hold_text(faction_template_layout()),
{
    reveal_strlit("id");
    reveal_strlit("faction");
    reveal_strlit("flags");
    reveal_strlit("factionGroup");
    reveal_strlit("friendGroup");
    reveal_strlit("enemyGroup");
    reveal_strlit("enemy_1");
    reveal_strlit("enemy_2");
    reveal_strlit("enemy_3");
    reveal_strlit("enemy_4");
    reveal_strlit("friend_1");
    reveal_strlit("friend_2");
    reveal_strlit("friend_3");
    reveal_strlit("friend_4");
    reveal_with_fuel(cols_ok_upto, 2);
    reveal_with_fuel(cols_ok_in, 17);
    assert(cols_ok_upto(faction_template_layout(), 14));
    lemma_text_columns(faction_template_layout());
}

proof fn lemma_item_bag_family_text_columns()
    ensures
        localized_columns_hold_text(item_bag_family_layout()),
{
    reveal_strlit("id");
    reveal_strlit("nameMask");
    reveal_with_fuel(cols_ok_upto, 2);
    reveal_with_fuel(cols_ok_in, 17);
    assert(cols_ok_upto(item_bag_family_layout(), 10));
    lemma_text_columns(item_bag_family_layout());
}

proof fn lemma_item_class_text_columns()
    ensures
        localized_columns_hold_text(item_class_layout()),
{
    reveal_strlit("id");
    reveal_strlit("subclassMapId");
    reveal_strlit("flags");
    reveal_strlit("classNameMask");
    reveal_with_fuel(cols_ok_upto, 2);
    reveal_with_fuel(cols_ok_in, 17);
    assert(cols_ok_upto(item_class_layout(), 12));
    lemma_text_columns(item_class_layout());
}

proof fn lemma_item_display_info_text_columns()
    ensures
        localized_columns_hold_text(item_display_info_layout()),
{
    reveal_strlit("id");
    reveal_strlit("geosetGroup_1");
    reveal_strlit("geosetGroup_2");
    reveal_strlit("geosetGroup_3");
    reveal_strlit("flags");
    reveal_strlit("spellVisualId");
    reveal_strlit("groupSoundIndex");
    reveal_strlit("helmetGeosetVisId_1");
    reveal_strlit("helmetGeosetVisId_2");
    reveal_strlit("itemVisual");
    reveal_with_fuel(cols_ok_upto, 3);
    reveal_with_fuel(cols_ok_in, 17);
    assert(cols_ok_upto(item_display_info_layout(), 23));
    lemma_text_columns(item_display_info_layout());
}

proof fn lemma_item_random_properties_text_columns()
    ensures
        localized_columns_hold_text(item_random_properties_layout()),
{
    reveal_strlit("id");
    reveal_strlit("enchantment_1");
    reveal_strlit("enchantment_2");
    reveal_strlit("enchantment_3");
    reveal_strlit("enchantment_4");
    reveal_strlit("enchantment_5");
    reveal_strlit("suffixMask");
    reveal_with_fuel(cols_ok_upto, 2);
    reveal_with_fuel(cols_ok_in, 17);
    assert(cols_ok_upto(item_random_properties_layout(), 16));
    lemma_text_columns(item_random_properties_layout());
}

proof fn lemma_item_set_text_columns()
    ensures
        localized_columns_hold_text(item_set_layout()),
{
    reveal_strlit("id");
    reveal_strlit("nameMask");
    reveal_strlit("itemId_1");
    reveal_strlit("itemId_2");
    reveal_strlit("itemId_3");
    reveal_strlit("itemId_4");
    reveal_strlit("itemId_5");
    reveal_strlit("itemId_6");
    reveal_strlit("itemId_7");
    reveal_strlit("itemId_8");
    reveal_strlit("itemId_9");
    reveal_strlit("itemId_10");
    reveal_strlit("itemId_11");
    reveal_strlit("itemId_12");
    reveal_strlit("itemId_13");
    reveal_strlit("itemId_14");
    reveal_strlit("itemId_15");
    reveal_strlit("itemId_16");
    reveal_strlit("itemId_17");
    reveal_strlit("setSpellId_1");
    reveal_strlit("setSpellId_2");
    reveal_strlit("setSpellId_3");
    reveal_strlit("setSpellId_4");
    reveal_strlit("setSpellId_5");
    reveal_strlit("setSpellId_6");
    reveal_strlit("setSpellId_7");
    reveal_strlit("setSpellId_8");
    reveal_strlit("setThreshold_1");
    reveal_strlit("setThreshold_2");
    reveal_strlit("setThreshold_3");
    reveal_strlit("setThreshold_4");
    reveal_strlit("setThreshold_5");
    reveal_strlit("setThreshold_6");
    reveal_strlit("setThreshold_7");
    reveal_strlit("setThreshold_8");
    reveal_strlit("requiredSkillId");
    reveal_strlit("requiredSkillRank");
    reveal_with_fuel(cols_ok_upto, 4);
    reveal_with_fuel(cols_ok_in, 17);
    assert(cols_ok_upto(item_set_layout(), 45));
    lemma_text_columns(item_set_layout());
}

proof fn lemma_item_sub_class_text_columns()
    ensures
        localized_columns_hold_text(item_sub_class_layout()),
{
    reveal_strlit("classId");
    reveal_strlit("subclassId");
    reveal_strlit("prereqProficiency");
    reveal_strlit("postreqProficiency");
    reveal_strlit("flags");
    reveal_strlit("displayFlags");
    reveal_strlit("weaponParrySeq");
    reveal_strlit("weaponReadySeq");
    reveal_strlit("weaponAttackSeq");
    reveal_strlit("weaponSwingSize");
    reveal_strlit("displayNameMask");
    reveal_strlit("verboseNameMask");
    reveal_with_fuel(cols_ok_upto, 3);
    reveal_with_fuel(cols_ok_in, 17);
    assert(cols_ok_upto(item_sub_class_layout(), 28));
    lemma_text_columns(item_sub_class_layout());
}

proof fn lemma_lfg_dungeons_text_columns()
    ensures
        localized_columns_hold_text(lfg_dungeons_layout()),
{
    reveal_strlit("id");
    reveal_strlit("nameMask");
    reveal_strlit("levelMin");
    reveal_strlit("levelMax");
    reveal_strlit("instanceType");
    reveal_strlit("faction");
    reveal_with_fuel(cols_ok_upto, 2);
    reveal_with_fuel(cols_ok_in, 17);
    assert(cols_ok_upto(lfg_dungeons_layout(), 14));
    lemma_text_columns(lfg_dungeons_layout());
}

proof fn lemma_lock_text_columns()
    ensures
        localized_columns_hold_text(lock_layout()),
{
    reveal_strlit("id");
    reveal_strlit("type_1");
    reveal_strlit("type_2");
    reveal_strlit("type_3");
    reveal_strlit("type_4");
    reveal_strlit("type_5");
    reveal_strlit("type_6");
    reveal_strlit("type_7");
    reveal_strlit("type_8");
    reveal_strlit("index_1");
    reveal_strlit("index_2");
    reveal_strlit("index_3");
    reveal_strlit("index_4");
    reveal_strlit("index_5");
    reveal_strlit("index_6");
    reveal_strlit("index_7");
    reveal_strlit("index_8");
    reveal_strlit("skill_1");
    reveal_strlit("skill_2");
    reveal_strlit("skill_3");
    reveal_strlit("skill_4");
    reveal_strlit("skill_5");
    reveal_strlit("skill_6");
    reveal_strlit("skill_7");
    reveal_strlit("skill_8");
    reveal_strlit("action_1");
    reveal_strlit("action_2");
    reveal_strlit("action_3");
    reveal_strlit("action_4");
    reveal_strlit("action_5");
    reveal_strlit("action_6");
    reveal_strlit("action_7");
    reveal_strlit("action_8");
    reveal_with_fuel(cols_ok_upto, 4);
    reveal_with_fuel(cols_ok_in, 17);
    assert(cols_ok_upto(lock_layout(), 33));
    lemma_text_columns(lock_layout());
}

proof fn lemma_lock_type_text_columns()
    ensures
        localized_columns_hold_text(lock_type_layout()),
{
    reveal_strlit("id");
    reveal_strlit("nameMask");
    reveal_strlit("resourceMask");
    reveal_strlit("verbMask");
    reveal_with_fuel(cols_ok_upto, 3);
    reveal_with_fuel(cols_ok_in, 17);
    assert(cols_ok_upto(lock_type_layout(), 29));
    lemma_text_columns(lock_type_layout());
}

proof fn lemma_mail_template_text_columns()
    ensures
        localized_columns_hold_text(mail_template_layout()),
{
    reveal_strlit("id");
    reveal_strlit("bodyMask");
    reveal_with_fuel(cols_ok_upto, 2);
    reveal_with_fuel(cols_ok_in, 17);
    assert(cols_ok_upto(mail_template_layout(), 10));
    lemma_text_columns(mail_template_layout());
}

proof fn lemma_map_text_columns()
    ensures
        localized_columns_hold_text(map_layout()),
{
    reveal_strlit("id");
    reveal_strlit("instanceType");
    reveal_strlit("isPvP");
    reveal_strlit("nameMask");
    reveal_strlit("levelMin");
    reveal_strlit("levelMax");
    reveal_strlit("maxPlayers");
    reveal_strlit("unknown_1");
    reveal_strlit("unknown_2");
    reveal_strlit("unknown_3");
    reveal_strlit("areaTableId");
    reveal_strlit("descriptionMask");
    reveal_strlit("description2Mask");
    reveal_strlit("loadingScreenId");
    reveal_strlit("raidOffset");
    reveal_strlit("canGroupQueue");
    reveal_strlit("unknown_4");
    reveal_with_fuel(cols_ok_upto, 4);
    reveal_with_fuel(cols_ok_in, 17);
    assert(cols_ok_upto(map_layout(), 42));
    lemma_text_columns(map_layout());
}

proof fn lemma_quest_info_text_columns()
    ensures
        localized_columns_hold_text(quest_info_layout()),
{
    reveal_strlit("id");
    reveal_strlit("nameMask");
    reveal_with_fuel(cols_ok_upto, 2);
    reveal_with_fuel(cols_ok_in, 17);
    assert(cols_ok_upto(quest_info_layout(), 10));
    lemma_text_columns(quest_info_layout());
}

proof fn lemma_quest_sort_text_columns()
    ensures
        localized_columns_hold_text(quest_sort_layout()),
{
    reveal_strlit("id");
    reveal_strlit("nameMask");
    reveal_with_fuel(cols_ok_upto, 2);
    reveal_with_fuel(cols_ok_in, 17);
    assert(cols_ok_upto(quest_sort_layout(), 10));
    lemma_text_columns(quest_sort_layout());
}

proof fn lemma_skill_line_text_columns()
    ensures
        localized_columns_hold_text(skill_line_layout()),
{
    reveal_strlit("id");
    reveal_strlit("categoryId");
    reveal_strlit("skillCostsId");
    reveal_strlit("nameMask");
    reveal_strlit("descriptionMask");
    reveal_strlit("spellIconId");
    reveal_with_fuel(cols_ok_upto, 3);
    reveal_with_fuel(cols_ok_in, 17);
    assert(cols_ok_upto(skill_line_layout(), 22));
    lemma_text_columns(skill_line_layout());
}

proof fn lemma_skill_line_ability_text_columns()
    ensures
        localized_columns_hold_text(skill_line_ability_layout()),
{
    reveal_strlit("id");
    reveal_strlit("skillLine");
    reveal_strlit("spell");
    reveal_strlit("raceMask");
    reveal_strlit("classMask");
    reveal_strlit("excludeRace");
    reveal_strlit("excludeClass");
    reveal_strlit("minSkillLineRank");
    reveal_strlit("supersededBySpellId");
    reveal_strlit("acquireMethod");
    reveal_strlit("trivialSkillLineRankHigh");
    reveal_strlit("trivialSkillLineRankLow");
    reveal_strlit("charcterPoints_1");
    reveal_strlit("charcterPoints_2");
    reveal_strlit("numSkillUps");
    reveal_with_fuel(cols_ok_upto, 2);
    reveal_with_fuel(cols_ok_in, 17);
    assert(cols_ok_upto(skill_line_ability_layout(), 15));
    lemma_text_columns(skill_line_ability_layout());
}

proof fn lemma_skill_line_category_text_columns()
    ensures
        localized_columns_hold_text(skill_line_category_layout()),
{
    reveal_strlit("id");
    reveal_strlit("nameMask");
    reveal_strlit("sortIndex");
    reveal_with_fuel(cols_ok_upto, 2);
    reveal_with_fuel(cols_ok_in, 17);
    assert(cols_ok_upto(skill_line_category_layout(), 11));
    lemma_text_columns(skill_line_category_layout());
}

proof fn lemma_spell_text_columns()
    ensures
        localized_columns_hold_text(spell_layout()),
{
    reveal_strlit("id");
    reveal_strlit("school");
    reveal_strlit("category");
    reveal_strlit("castUi");
    reveal_strlit("dispelType");
    reveal_strlit("mechanic");
    reveal_strlit("attribute_1");
    reveal_strlit("attribute_2");
    reveal_strlit("attribute_3");
    reveal_strlit("attribute_4");
    reveal_strlit("attribute_5");
    reveal_strlit("shapeshiftMask");
    reveal_strlit("shapeshiftExclude");
    reveal_strlit("targets");
    reveal_strlit("targetCreatureType");
    reveal_strlit("requiresSpellFocus");
    reveal_strlit("casterAuraStat");
    reveal_strlit("targetAuraState");
    reveal_strlit("castingTimeIndex");
    reveal_strlit("recoveryTime");
    reveal_strlit("categoryRecoveryTime");
    reveal_strlit("interruptFlags");
    reveal_strlit("auraInterruptFlags");
    reveal_strlit("channelInterruptFlags");
    reveal_strlit("procTypeMask");
    reveal_strlit("procChance");
    reveal_strlit("procCharges");
    reveal_strlit("maxLevel");
    reveal_strlit("baseLevel");
    reveal_strlit("spellLevel");
    reveal_strlit("durationIndex");
    reveal_strlit("powerType");
    reveal_strlit("manaCost");
    reveal_strlit("manaPerLevel");
    reveal_strlit("manaPerSecond");
    reveal_strlit("manaPerSecondPerLevel");
    reveal_strlit("rangeIndex");
    reveal_strlit("speed");
    reveal_strlit("modalNextSpell");
    reveal_strlit("stackAmount");
    reveal_strlit("totem_1");
    reveal_strlit("totem_2");
    reveal_strlit("reagent_1");
    reveal_strlit("reagent_2");
    reveal_strlit("reagent_3");
    reveal_strlit("reagent_4");
    reveal_strlit("reagent_5");
    reveal_strlit("reagent_6");
    reveal_strlit("reagent_7");
    reveal_strlit("reagent_8");
    reveal_strlit("reagentCount_1");
    reveal_strlit("reagentCount_2");
    reveal_strlit("reagentCount_3");
    reveal_strlit("reagentCount_4");
    reveal_strlit("reagentCount_5");
    reveal_strlit("reagentCount_6");
    reveal_strlit("reagentCount_7");
    reveal_strlit("reagentCount_8");
    reveal_strlit("equippedItemClass");
    reveal_strlit("equippedItemSubClassMask");
    reveal_strlit("equippedItemInventoryTypeMask");
    reveal_strlit("effect_1");
    reveal_strlit("effect_2");
    reveal_strlit("effect_3");
    reveal_strlit("effectDieSides_1");
    reveal_strlit("effectDieSides_2");
    reveal_strlit("effectDieSides_3");
    reveal_strlit("effectBaseDice_1");
    reveal_strlit("effectBaseDice_2");
    reveal_strlit("effectBaseDice_3");
    reveal_strlit("effectDicePerLevel_1");
    reveal_strlit("effectDicePerLevel_2");
    reveal_strlit("effectDicePerLevel_3");
    reveal_strlit("effectRealPointsPerLevel_1");
    reveal_strlit("effectRealPointsPerLevel_2");
    reveal_strlit("effectRealPointsPerLevel_3");
    reveal_strlit("effectBasePoints_1");
    reveal_strlit("effectBasePoints_2");
    reveal_strlit("effectBasePoints_3");
    reveal_strlit("effectMechanic_1");
    reveal_strlit("effectMechanic_2");
    reveal_strlit("effectMechanic_3");
    reveal_strlit("effectImplicitTargetA_1");
    reveal_strlit("effectImplicitTargetA_2");
    reveal_strlit("effectImplicitTargetA_3");
    reveal_strlit("effectImplicitTargetB_1");
    reveal_strlit("effectImplicitTargetB_2");
    reveal_strlit("effectImplicitTargetB_3");
    reveal_strlit("effectRadiusIndex_1");
    reveal_strlit("effectRadiusIndex_2");
    reveal_strlit("effectRadiusIndex_3");
    reveal_strlit("effectApplyAura_1");
    reveal_strlit("effectApplyAura_2");
    reveal_strlit("effectApplyAura_3");
    reveal_strlit("effectAmplitude_1");
    reveal_strlit("effectAmplitude_2");
    reveal_strlit("effectAmplitude_3");
    reveal_strlit("effectMultipleValue_1");
    reveal_strlit("effectMultipleValue_2");
    reveal_strlit("effectMultipleValue_3");
    reveal_strlit("effectChainTarget_1");
    reveal_strlit("effectChainTarget_2");
    reveal_strlit("effectChainTarget_3");
    reveal_strlit("effectItemType_1");
    reveal_strlit("effectItemType_2");
    reveal_strlit("effectItemType_3");
    reveal_strlit("effectMiscValue_1");
    reveal_strlit("effectMiscValue_2");
    reveal_strlit("effectMiscValue_3");
    reveal_strlit("effectTriggerSpell_1");
    reveal_strlit("effectTriggerSpell_2");
    reveal_strlit("effectTriggerSpell_3");
    reveal_strlit("effectPointsPerCombo_1");
    reveal_strlit("effectPointsPerCombo_2");
    reveal_strlit("effectPointsPerCombo_3");
    reveal_strlit("spellVisualId_1");
    reveal_strlit("spellVisualId_2");
    reveal_strlit("spellIconId");
    reveal_strlit("activeIconId");
    reveal_strlit("spellPriority");
    reveal_strlit("nameMask");
    reveal_strlit("subtextMask");
    reveal_strlit("descriptionMask");
    reveal_strlit("auraDescriptionMask");
    reveal_strlit("manaCostPercentage");
    reveal_strlit("startRecoveryCategory");
    reveal_strlit("startRecoveryTime");
    reveal_strlit("maxTargetLevel");
    reveal_strlit("spellClassSet");
    reveal_strlit("spellClassMask_1");
    reveal_strlit("spellClassMask_2");
    reveal_strlit("maxTargets");
    reveal_strlit("damageType");
    reveal_strlit("preventionType");
    reveal_strlit("stanceBarOrder");
    reveal_strlit("damageMultiplier_1");
    reveal_strlit("damageMultiplier_2");
    reveal_strlit("damageMultiplier_3");
    reveal_strlit("minFactionId");
    reveal_strlit("minReputation");
    reveal_strlit("requiredAuraVision");
    reveal_with_fuel(cols_ok_upto, 12);
    reveal_with_fuel(cols_ok_in, 17);
    assert(cols_ok_upto(spell_layout(), 173));
    lemma_text_columns(spell_layout());
}

proof fn lemma_spell_cast_times_text_columns()
    ensures
        localized_columns_hold_text(spell_cast_times_layout()),
{
    reveal_strlit("id");
    reveal_strlit("base");
    reveal_strlit("perLevel");
    reveal_strlit("minimum");
    reveal_with_fuel(cols_ok_upto, 2);
    reveal_with_fuel(cols_ok_in, 17);
    assert(cols_ok_upto(spell_cast_times_layout(), 4));
    lemma_text_columns(spell_cast_times_layout());
}

proof fn lemma_spell_category_text_columns()
    ensures
        localized_columns_hold_text(spell_category_layout()),
{
    reveal_strlit("id");
    reveal_strlit("flags");
    reveal_with_fuel(cols_ok_upto, 2);
    reveal_with_fuel(cols_ok_in, 17);
    assert(cols_ok_upto(spell_category_layout(), 2));
    lemma_text_columns(spell_category_layout());
}

proof fn lemma_spell_dispel_type_text_columns()
    ensures
        localized_columns_hold_text(spell_dispel_type_layout()),
{
    reveal_strlit("id");
    reveal_strlit("nameMask");
    reveal_strlit("showOnAuraTooltip");
    reveal_with_fuel(cols_ok_upto, 2);
    reveal_with_fuel(cols_ok_in, 17);
    assert(cols_ok_upto(spell_dispel_type_layout(), 12));
    lemma_text_columns(spell_dispel_type_layout());
}

proof fn lemma_spell_duration_text_columns()
    ensures
        localized_columns_hold_text(spell_duration_layout()),
{
    reveal_strlit("id");
    reveal_strlit("base");
    reveal_strlit("perLevel");
    reveal_strlit("max");
    reveal_with_fuel(cols_ok_upto, 2);
    reveal_with_fuel(cols_ok_in, 17);
    assert(cols_ok_upto(spell_duration_layout(), 4));
    lemma_text_columns(spell_duration_layout());
}

proof fn lemma_spell_icon_text_columns()
    ensures
        localized_columns_hold_text(spell_icon_layout()),
{
    reveal_strlit("id");
    reveal_with_fuel(cols_ok_upto, 2);
    reveal_with_fuel(cols_ok_in, 17);
    assert(cols_ok_upto(spell_icon_layout(), 2));
    lemma_text_columns(spell_icon_layout());
}

proof fn lemma_spell_item_enchantment_text_columns()
    ensures
        localized_columns_hold_text(spell_item_enchantment_layout()),
{
    reveal_strlit("id");
    reveal_strlit("effect_1");
    reveal_strlit("effect_2");
    reveal_strlit("effect_3");
    reveal_strlit("pointsMin_1");
    reveal_strlit("pointsMin_2");
    reveal_strlit("pointsMin_3");
    reveal_strlit("pointsMax_1");
    reveal_strlit("pointsMax_2");
    reveal_strlit("pointsMax_3");
    reveal_strlit("effectArg_1");
    reveal_strlit("effectArg_2");
    reveal_strlit("effectArg_3");
    reveal_strlit("nameMask");
    reveal_strlit("itemVisual");
    reveal_strlit("flags");
    reveal_with_fuel(cols_ok_upto, 3);
    reveal_with_fuel(cols_ok_in, 17);
    assert(cols_ok_upto(spell_item_enchantment_layout(), 24));
    lemma_text_columns(spell_item_enchantment_layout());
}

proof fn lemma_spell_mechanic_text_columns()
    ensures
        localized_columns_hold_text(spell_mechanic_layout()),
{
    reveal_strlit("id");
    reveal_strlit("unknown");
    reveal_with_fuel(cols_ok_upto, 2);
    reveal_with_fuel(cols_ok_in, 17);
    assert(cols_ok_upto(spell_mechanic_layout(), 2));
    lemma_text_columns(spell_mechanic_layout());
}

proof fn lemma_spell_radius_text_columns()
    ensures
        localized_columns_hold_text(spell_radius_layout()),
{
    reveal_strlit("id");
    reveal_strlit("radius");
    reveal_strlit("radiusPerLevel");
    reveal_strlit("radiusMax");
    reveal_with_fuel(cols_ok_upto, 2);
    reveal_with_fuel(cols_ok_in, 17);
    assert(cols_ok_upto(spell_radius_layout(), 4));
    lemma_text_columns(spell_radius_layout());
}

proof fn lemma_spell_range_text_columns()
    ensures
        localized_columns_hold_text(spell_range_layout()),
{
    reveal_strlit("id");
    reveal_strlit("rangeMin");
    reveal_strlit("rangeMax");
    reveal_strlit("flags");
    reveal_strlit("nameMask");
    reveal_strlit("shortNameMask");
    reveal_with_fuel(cols_ok_upto, 3);
    reveal_with_fuel(cols_ok_in, 17);
    assert(cols_ok_upto(spell_range_layout(), 22));
    lemma_text_columns(spell_range_layout());
}

proof fn lemma_spell_shapeshift_form_text_columns()
    ensures
        localized_columns_hold_text(spell_shapeshift_form_layout()),
{
    reveal_strlit("id");
    reveal_strlit("bonusActionBar");
    reveal_strlit("nameMask");
    reveal_strlit("flags");
    reveal_strlit("creatureType");
    reveal_strlit("combatRoundTime");
    reveal_with_fuel(cols_ok_upto, 2);
    reveal_with_fuel(cols_ok_in, 17);
    assert(cols_ok_upto(spell_shapeshift_form_layout(), 14));
    lemma_text_columns(spell_shapeshift_form_layout());
}

proof fn lemma_talent_text_columns()
    ensures
        localized_columns_hold_text(talent_layout()),
{
    reveal_strlit("id");
    reveal_strlit("specId");
    reveal_strlit("row");
    reveal_strlit("col");
    reveal_strlit("spellRank_1");
    reveal_strlit("spellRank_2");
    reveal_strlit("spellRank_3");
    reveal_strlit("spellRank_4");
    reveal_strlit("spellRank_5");
    reveal_strlit("spellRank_6");
    reveal_strlit("spellRank_7");
    reveal_strlit("spellRank_8");
    reveal_strlit("spellRank_9");
    reveal_strlit("prerequisiteTalent_1");
    reveal_strlit("prerequisiteTalent_2");
    reveal_strlit("prerequisiteTalent_3");
    reveal_strlit("prerequisiteRank_1");
    reveal_strlit("prerequisiteRank_2");
    reveal_strlit("prerequisiteRank_3");
    reveal_strlit("flags");
    reveal_strlit("requiredSpellId");
    reveal_with_fuel(cols_ok_upto, 3);
    reveal_with_fuel(cols_ok_in, 17);
    assert(cols_ok_upto(talent_layout(), 21));
    lemma_text_columns(talent_layout());
}

proof fn lemma_talent_tab_text_columns()
    ensures
        localized_columns_hold_text(talent_tab_layout()),
{
    reveal_strlit("id");
    reveal_strlit("nameMask");
    reveal_strlit("spellIconId");
    reveal_strlit("raceMask");
    reveal_strlit("classMask");
    reveal_strlit("orderIndex");
    reveal_with_fuel(cols_ok_upto, 2);
    reveal_with_fuel(cols_ok_in, 17);
    assert(cols_ok_upto(talent_tab_layout(), 15));
    lemma_text_columns(talent_tab_layout());
}

proof fn lemma_taxi_nodes_text_columns()
    ensures
        localized_columns_hold_text(taxi_nodes_layout()),
{
    reveal_strlit("id");
    reveal_strlit("mapId");
    reveal_strlit("x");
    reveal_strlit("y");
    reveal_strlit("z");
    reveal_strlit("nameMask");
    reveal_strlit("mountCreatureId_1");
    reveal_strlit("mountCreatureId_2");
    reveal_with_fuel(cols_ok_upto, 2);
    reveal_with_fuel(cols_ok_in, 17);
    assert(cols_ok_upto(taxi_nodes_layout(), 16));
    lemma_text_columns(taxi_nodes_layout());
}

proof fn lemma_taxi_path_text_columns()
    ensures
        localized_columns_hold_text(taxi_path_layout()),
{
    reveal_strlit("id");
    reveal_strlit("fromNode");
    reveal_strlit("toNode");
    reveal_strlit("cost");
    reveal_with_fuel(cols_ok_upto, 2);
    reveal_with_fuel(cols_ok_in, 17);
    assert(cols_ok_upto(taxi_path_layout(), 4));
    lemma_text_columns(taxi_path_layout());
}

proof fn lemma_taxi_path_node_text_columns()
    ensures
        localized_columns_hold_text(taxi_path_node_layout()),
{
    reveal_strlit("id");
    reveal_strlit("pathId");
    reveal_strlit("nodeIndex");
    reveal_strlit("mapId");
    reveal_strlit("x");
    reveal_strlit("y");
    reveal_strlit("z");
    reveal_strlit("flags");
    reveal_strlit("delay");
    reveal_with_fuel(cols_ok_upto, 2);
    reveal_with_fuel(cols_ok_in, 17);
    assert(cols_ok_upto(taxi_path_node_layout(), 9));
    lemma_text_columns(taxi_path_node_layout());
}

proof fn lemma_world_map_area_text_columns()
    ensures
        localized_columns_hold_text(world_map_area_layout()),
{
    reveal_strlit("id");
    reveal_strlit("mapId");
    reveal_strlit("areaId");
    reveal_strlit("locLeft");
    reveal_strlit("locRight");
    reveal_strlit("locTop");
    reveal_strlit("locBottom");
    reveal_with_fuel(cols_ok_upto, 2);
    reveal_with_fuel(cols_ok_in, 17);
    assert(cols_ok_upto(world_map_area_layout(), 8));
    lemma_text_columns(world_map_area_layout());
}

proof fn lemma_world_safe_locs_text_columns()
    ensures
        localized_columns_hold_text(world_safe_locs_layout()),
{
    reveal_strlit("id");
    reveal_strlit("mapId");
    reveal_strlit("x");
    reveal_strlit("y");
    reveal_strlit("z");
    reveal_strlit("nameMask");
    reveal_with_fuel(cols_ok_upto, 2);
    reveal_with_fuel(cols_ok_in, 17);
    assert(cols_ok_upto(world_safe_locs_layout(), 14));
    lemma_text_columns(world_safe_locs_layout());
}

/// In every known layout, each localized column (named with `_` and a locale
/// at the end, such as `name_enUS`) holds text.
pub proof fn lemma_localized_columns_hold_text()
    ensures
        forall|i: int|
            0 <= i < known_layouts().len() ==> localized_columns_hold_text(#[trigger] known_layouts()[i]),
{
    lemma_area_table_text_columns();
    lemma_area_trigger_text_columns();
    lemma_char_start_outfit_text_columns();
    lemma_chr_classes_text_columns();
    lemma_chr_races_text_columns();
    lemma_creature_family_text_columns();
    lemma_creature_type_text_columns();
    lemma_faction_text_columns();
    lemma_faction_template_text_columns();
    lemma_item_bag_family_text_columns();
    lemma_item_class_text_columns();
    lemma_item_display_info_text_columns();
    lemma_item_random_properties_text_columns();
    lemma_item_set_text_columns();
    lemma_item_sub_class_text_columns();
    lemma_lfg_dungeons_text_columns();
    lemma_lock_text_columns();
    lemma_lock_type_text_columns();
    lemma_mail_template_text_columns();
    lemma_map_text_columns();
    lemma_quest_info_text_columns();
    lemma_quest_sort_text_columns();
    lemma_skill_line_text_columns();
    lemma_skill_line_ability_text_columns();
    lemma_skill_line_category_text_columns();
    lemma_spell_text_columns();
    lemma_spell_cast_times_text_columns();
    lemma_spell_category_text_columns();
    lemma_spell_dispel_type_text_columns();
    lemma_spell_duration_text_columns();
    lemma_spell_icon_text_columns();
    lemma_spell_item_enchantment_text_columns();
    lemma_spell_mechanic_text_columns();
    lemma_spell_radius_text_columns();
    lemma_spell_range_text_columns();
    lemma_spell_shapeshift_form_text_columns();
    lemma_talent_text_columns();
    lemma_talent_tab_text_columns();
    lemma_taxi_nodes_text_columns();
    lemma_taxi_path_text_columns();
    lemma_taxi_path_node_text_columns();
    lemma_world_map_area_text_columns();
    lemma_world_safe_locs_text_columns();
}

} // verus!

//! The column layouts of the client tables, and the registry that maps a
//! table name to its layout.

use crate::dbc::FieldType;
use vstd::prelude::*;

verus! {

/// A table layout: the name and type of each column, in file order.
pub type Schema = Vec<(&'static str, FieldType)>;

/// The mathematical value of a layout: each column's name and type.
pub open spec fn layout_of(s: Seq<(&str, FieldType)>) -> Seq<(Seq<char>, FieldType)> {
    s.map_values(|c: (&str, FieldType)| (c.0@, c.1))
}

/// The column types of a layout.
pub open spec fn layout_types(l: Seq<(Seq<char>, FieldType)>) -> Seq<FieldType> {
    l.map_values(|c: (Seq<char>, FieldType)| c.1)
}

/// Columns of `AreaTable.dbc`, in file order.
pub open spec fn area_table_layout() -> Seq<(Seq<char>, FieldType)> {
    seq![
        ("id"@, FieldType::Int32),
        ("mapId"@, FieldType::Int32),
        ("parentAreaId"@, FieldType::Int32),
        ("areaBit"@, FieldType::Int32),
        ("flags"@, FieldType::Int32),
        ("soundPreferenceId"@, FieldType::Int32),
        ("underwaterSoundPreferenceId"@, FieldType::Int32),
        ("soundAmbienceId"@, FieldType::Int32),
        ("zoneMusicId"@, FieldType::Int32),
        ("zoneIntroMusicId"@, FieldType::Int32),
        ("explorationLevel"@, FieldType::Int32),
        ("name_enUS"@, FieldType::String),
        ("name_koKR"@, FieldType::String),
        ("name_frFR"@, FieldType::String),
        ("name_deDE"@, FieldType::String),
        ("name_zhCN"@, FieldType::String),
        ("name_ruRU"@, FieldType::String),
        ("name_esES"@, FieldType::String),
        ("name_ptPT"@, FieldType::String),
        ("nameMask"@, FieldType::Int32),
        ("factionGroupMask"@, FieldType::Int32),
        ("liquidTypeId"@, FieldType::Int32),
        ("minElevation"@, FieldType::Float32),
        ("ambientMultiplier"@, FieldType::Float32),
        ("lightId"@, FieldType::Int32),
    ]
}

/// Columns of `AreaTable.dbc`.
pub fn area_table_schema() -> (s: Schema)
    ensures
        layout_of(s@) == area_table_layout(),
{
    let s = vec![
        ("id", FieldType::Int32),
        ("mapId", FieldType::Int32),
        ("parentAreaId", FieldType::Int32),
        ("areaBit", FieldType::Int32),
        ("flags", FieldType::Int32),
        ("soundPreferenceId", FieldType::Int32),
        ("underwaterSoundPreferenceId", FieldType::Int32),
        ("soundAmbienceId", FieldType::Int32),
        ("zoneMusicId", FieldType::Int32),
        ("zoneIntroMusicId", FieldType::Int32),
        ("explorationLevel", FieldType::Int32),
        ("name_enUS", FieldType::String),
        ("name_koKR", FieldType::String),
        ("name_frFR", FieldType::String),
        ("name_deDE", FieldType::String),
        ("name_zhCN", FieldType::String),
        ("name_ruRU", FieldType::String),
        ("name_esES", FieldType::String),
        ("name_ptPT", FieldType::String),
        ("nameMask", FieldType::Int32),
        ("factionGroupMask", FieldType::Int32),
        ("liquidTypeId", FieldType::Int32),
        ("minElevation", FieldType::Float32),
        ("ambientMultiplier", FieldType::Float32),
        ("lightId", FieldType::Int32),
    ];
    assert(layout_of(s@) =~= area_table_layout());
    s
}

/// Columns of `AreaTrigger.dbc`, in file order.
pub open spec fn area_trigger_layout() -> Seq<(Seq<char>, FieldType)> {
    seq![
        ("id"@, FieldType::Int32),
        ("mapId"@, FieldType::Int32),
        ("x"@, FieldType::Float32),
        ("y"@, FieldType::Float32),
        ("z"@, FieldType::Float32),
        ("radius"@, FieldType::Float32),
        ("boxLength"@, FieldType::Float32),
        ("boxWidth"@, FieldType::Float32),
        ("boxHeight"@, FieldType::Float32),
        ("boxYaw"@, FieldType::Float32),
    ]
}

/// Columns of `AreaTrigger.dbc`.
pub fn area_trigger_schema() -> (s: Schema)
    ensures
        layout_of(s@) == area_trigger_layout(),
{
    let s = vec![
        ("id", FieldType::Int32),
        ("mapId", FieldType::Int32),
        ("x", FieldType::Float32),
        ("y", FieldType::Float32),
        ("z", FieldType::Float32),
        ("radius", FieldType::Float32),
        ("boxLength", FieldType::Float32),
        ("boxWidth", FieldType::Float32),
        ("boxHeight", FieldType::Float32),
        ("boxYaw", FieldType::Float32),
    ];
    assert(layout_of(s@) =~= area_trigger_layout());
    s
}

/// Columns of `CharStartOutfit.dbc`, in file order.
pub open spec fn char_start_outfit_layout() -> Seq<(Seq<char>, FieldType)> {
    seq![
        ("id"@, FieldType::Int32),
        ("itemId_1"@, FieldType::Int32),
        ("itemId_2"@, FieldType::Int32),
        ("itemId_3"@, FieldType::Int32),
        ("itemId_4"@, FieldType::Int32),
        ("itemId_5"@, FieldType::Int32),
        ("itemId_6"@, FieldType::Int32),
        ("itemId_7"@, FieldType::Int32),
        ("itemId_8"@, FieldType::Int32),
        ("itemId_9"@, FieldType::Int32),
        ("itemId_10"@, FieldType::Int32),
        ("itemId_11"@, FieldType::Int32),
        ("itemId_12"@, FieldType::Int32),
        ("displayItemId_1"@, FieldType::Int32),
        ("displayItemId_2"@, FieldType::Int32),
        ("displayItemId_3"@, FieldType::Int32),
        ("displayItemId_4"@, FieldType::Int32),
        ("displayItemId_5"@, FieldType::Int32),
        ("displayItemId_6"@, FieldType::Int32),
        ("displayItemId_7"@, FieldType::Int32),
        ("displayItemId_8"@, FieldType::Int32),
        ("displayItemId_9"@, FieldType::Int32),
        ("displayItemId_10"@, FieldType::Int32),
        ("displayItemId_11"@, FieldType::Int32),
        ("displayItemId_12"@, FieldType::Int32),
        ("inventoryType_1"@, FieldType::Int32),
        ("inventoryType_2"@, FieldType::Int32),
        ("inventoryType_3"@, FieldType::Int32),
        ("inventoryType_4"@, FieldType::Int32),
        ("inventoryType_5"@, FieldType::Int32),
        ("inventoryType_6"@, FieldType::Int32),
        ("inventoryType_7"@, FieldType::Int32),
        ("inventoryType_8"@, FieldType::Int32),
        ("inventoryType_9"@, FieldType::Int32),
        ("inventoryType_10"@, FieldType::Int32),
        ("inventoryType_11"@, FieldType::Int32),
        ("inventoryType_12"@, FieldType::Int32),
    ]
}

/// Columns of `CharStartOutfit.dbc`.
pub fn char_start_outfit_schema() -> (s: Schema)
    ensures
        layout_of(s@) == char_start_outfit_layout(),
{
    let s = vec![
        ("id", FieldType::Int32),
        ("itemId_1", FieldType::Int32),
        ("itemId_2", FieldType::Int32),
        ("itemId_3", FieldType::Int32),
        ("itemId_4", FieldType::Int32),
        ("itemId_5", FieldType::Int32),
        ("itemId_6", FieldType::Int32),
        ("itemId_7", FieldType::Int32),
        ("itemId_8", FieldType::Int32),
        ("itemId_9", FieldType::Int32),
        ("itemId_10", FieldType::Int32),
        ("itemId_11", FieldType::Int32),
        ("itemId_12", FieldType::Int32),
        ("displayItemId_1", FieldType::Int32),
        ("displayItemId_2", FieldType::Int32),
        ("displayItemId_3", FieldType::Int32),
        ("displayItemId_4", FieldType::Int32),
        ("displayItemId_5", FieldType::Int32),
        ("displayItemId_6", FieldType::Int32),
        ("displayItemId_7", FieldType::Int32),
        ("displayItemId_8", FieldType::Int32),
        ("displayItemId_9", FieldType::Int32),
        ("displayItemId_10", FieldType::Int32),
        ("displayItemId_11", FieldType::Int32),
        ("displayItemId_12", FieldType::Int32),
        ("inventoryType_1", FieldType::Int32),
        ("inventoryType_2", FieldType::Int32),
        ("inventoryType_3", FieldType::Int32),
        ("inventoryType_4", FieldType::Int32),
        ("inventoryType_5", FieldType::Int32),
        ("inventoryType_6", FieldType::Int32),
        ("inventoryType_7", FieldType::Int32),
        ("inventoryType_8", FieldType::Int32),
        ("inventoryType_9", FieldType::Int32),
        ("inventoryType_10", FieldType::Int32),
        ("inventoryType_11", FieldType::Int32),
        ("inventoryType_12", FieldType::Int32),
    ];
    assert(layout_of(s@) =~= char_start_outfit_layout());
    s
}

/// Columns of `ChrClasses.dbc`, in file order.
pub open spec fn chr_classes_layout() -> Seq<(Seq<char>, FieldType)> {
    seq![
        ("id"@, FieldType::Int32),
        ("playerClass"@, FieldType::Int32),
        ("damageBonusStat"@, FieldType::Int32),
        ("displayPower"@, FieldType::Int32),
        ("petNameToken"@, FieldType::String),
        ("name_enUS"@, FieldType::String),
        ("name_koKR"@, FieldType::String),
        ("name_frFR"@, FieldType::String),
        ("name_deDE"@, FieldType::String),
        ("name_zhCN"@, FieldType::String),
        ("name_ruRU"@, FieldType::String),
        ("name_esES"@, FieldType::String),
        ("name_ptPT"@, FieldType::String),
        ("nameMask"@, FieldType::Int32),
        ("filename"@, FieldType::String),
        ("spellFamily"@, FieldType::Int32),
        ("flags"@, FieldType::Int32),
    ]
}

/// Columns of `ChrClasses.dbc`.
pub fn chr_classes_schema() -> (s: Schema)
    ensures
        layout_of(s@) == chr_classes_layout(),
{
    let s = vec![
        ("id", FieldType::Int32),
        ("playerClass", FieldType::Int32),
        ("damageBonusStat", FieldType::Int32),
        ("displayPower", FieldType::Int32),
        ("petNameToken", FieldType::String),
        ("name_enUS", FieldType::String),
        ("name_koKR", FieldType::String),
        ("name_frFR", FieldType::String),
        ("name_deDE", FieldType::String),
        ("name_zhCN", FieldType::String),
        ("name_ruRU", FieldType::String),
        ("name_esES", FieldType::String),
        ("name_ptPT", FieldType::String),
        ("nameMask", FieldType::Int32),
        ("filename", FieldType::String),
        ("spellFamily", FieldType::Int32),
        ("flags", FieldType::Int32),
    ];
    assert(layout_of(s@) =~= chr_classes_layout());
    s
}

/// Columns of `ChrRaces.dbc`, in file order.
pub open spec fn chr_races_layout() -> Seq<(Seq<char>, FieldType)> {
    seq![
        ("id"@, FieldType::Int32),
        ("flags"@, FieldType::Int32),
        ("factionId"@, FieldType::Int32),
        ("explorationSoundId"@, FieldType::Int32),
        ("maleDisplayId"@, FieldType::Int32),
        ("femaleDisplayId"@, FieldType::Int32),
        ("clientPrefix"@, FieldType::String),
        ("mountScale"@, FieldType::Float32),
        ("baseLanguage"@, FieldType::Int32),
        ("creatureType"@, FieldType::Int32),
        ("loginEffectSpellId"@, FieldType::Int32),
        ("combatStunSpellId"@, FieldType::Int32),
        ("resSicknessSpellId"@, FieldType::Int32),
        ("splashSoundId"@, FieldType::Int32),
        ("startingTaxiMask"@, FieldType::Int32),
        ("clientFileString"@, FieldType::String),
        ("cinematicSequenceId"@, FieldType::Int32),
        ("name_enUS"@, FieldType::String),
        ("name_koKR"@, FieldType::String),
        ("name_frFR"@, FieldType::String),
        ("name_deDE"@, FieldType::String),
        ("name_zhCN"@, FieldType::String),
        ("name_ruRU"@, FieldType::String),
        ("name_esES"@, FieldType::String),
        ("name_ptPT"@, FieldType::String),
        ("nameMask"@, FieldType::Int32),
        ("maleCustomization"@, FieldType::String),
        ("femaleCustomization"@, FieldType::String),
        ("hairCustomization"@, FieldType::String),
    ]
}

/// Columns of `ChrRaces.dbc`.
pub fn chr_races_schema() -> (s: Schema)
    ensures
        layout_of(s@) == chr_races_layout(),
{
    let s = vec![
        ("id", FieldType::Int32),
        ("flags", FieldType::Int32),
        ("factionId", FieldType::Int32),
        ("explorationSoundId", FieldType::Int32),
        ("maleDisplayId", FieldType::Int32),
        ("femaleDisplayId", FieldType::Int32),
        ("clientPrefix", FieldType::String),
        ("mountScale", FieldType::Float32),
        ("baseLanguage", FieldType::Int32),
        ("creatureType", FieldType::Int32),
        ("loginEffectSpellId", FieldType::Int32),
        ("combatStunSpellId", FieldType::Int32),
        ("resSicknessSpellId", FieldType::Int32),
        ("splashSoundId", FieldType::Int32),
        ("startingTaxiMask", FieldType::Int32),
        ("clientFileString", FieldType::String),
        ("cinematicSequenceId", FieldType::Int32),
        ("name_enUS", FieldType::String),
        ("name_koKR", FieldType::String),
        ("name_frFR", FieldType::String),
        ("name_deDE", FieldType::String),
        ("name_zhCN", FieldType::String),
        ("name_ruRU", FieldType::String),
        ("name_esES", FieldType::String),
        ("name_ptPT", FieldType::String),
        ("nameMask", FieldType::Int32),
        ("maleCustomization", FieldType::String),
        ("femaleCustomization", FieldType::String),
        ("hairCustomization", FieldType::String),
    ];
    assert(layout_of(s@) =~= chr_races_layout());
    s
}

/// Columns of `CreatureFamily.dbc`, in file order.
pub open spec fn creature_family_layout() -> Seq<(Seq<char>, FieldType)> {
    seq![
        ("id"@, FieldType::Int32),
        ("minScale"@, FieldType::Float32),
        ("minScaleLevel"@, FieldType::Int32),
        ("maxScale"@, FieldType::Float32),
        ("maxScaleLevel"@, FieldType::Int32),
        ("skillLine_1"@, FieldType::Int32),
        ("skillLine_2"@, FieldType::Int32),
        ("petFoodMask"@, FieldType::Int32),
        ("name_enUS"@, FieldType::String),
        ("name_koKR"@, FieldType::String),
        ("name_frFR"@, FieldType::String),
        ("name_deDE"@, FieldType::String),
        ("name_zhCN"@, FieldType::String),
        ("name_ruRU"@, FieldType::String),
        ("name_esES"@, FieldType::String),
        ("name_ptPT"@, FieldType::String),
        ("nameMask"@, FieldType::Int32),
        ("iconFile"@, FieldType::String),
    ]
}

/// Columns of `CreatureFamily.dbc`.
pub fn creature_family_schema() -> (s: Schema)
    ensures
        layout_of(s@) == creature_family_layout(),
{
    let s = vec![
        ("id", FieldType::Int32),
        ("minScale", FieldType::Float32),
        ("minScaleLevel", FieldType::Int32),
        ("maxScale", FieldType::Float32),
        ("maxScaleLevel", FieldType::Int32),
        ("skillLine_1", FieldType::Int32),
        ("skillLine_2", FieldType::Int32),
        ("petFoodMask", FieldType::Int32),
        ("name_enUS", FieldType::String),
        ("name_koKR", FieldType::String),
        ("name_frFR", FieldType::String),
        ("name_deDE", FieldType::String),
        ("name_zhCN", FieldType::String),
        ("name_ruRU", FieldType::String),
        ("name_esES", FieldType::String),
        ("name_ptPT", FieldType::String),
        ("nameMask", FieldType::Int32),
        ("iconFile", FieldType::String),
    ];
    assert(layout_of(s@) =~= creature_family_layout());
    s
}

/// Columns of `CreatureType.dbc`, in file order.
pub open spec fn creature_type_layout() -> Seq<(Seq<char>, FieldType)> {
    seq![
        ("id"@, FieldType::Int32),
        ("name_enUS"@, FieldType::String),
        ("name_koKR"@, FieldType::String),
        ("name_frFR"@, FieldType::String),
        ("name_deDE"@, FieldType::String),
        ("name_zhCN"@, FieldType::String),
        ("name_ruRU"@, FieldType::String),
        ("name_esES"@, FieldType::String),
        ("name_ptPT"@, FieldType::String),
        ("nameMask"@, FieldType::Int32),
        ("flags"@, FieldType::Int32),
    ]
}

/// Columns of `CreatureType.dbc`.
pub fn creature_type_schema() -> (s: Schema)
    ensures
        layout_of(s@) == creature_type_layout(),
{
    let s = vec![
        ("id", FieldType::Int32),
        ("name_enUS", FieldType::String),
        ("name_koKR", FieldType::String),
        ("name_frFR", FieldType::String),
        ("name_deDE", FieldType::String),
        ("name_zhCN", FieldType::String),
        ("name_ruRU", FieldType::String),
        ("name_esES", FieldType::String),
        ("name_ptPT", FieldType::String),
        ("nameMask", FieldType::Int32),
        ("flags", FieldType::Int32),
    ];
    assert(layout_of(s@) =~= creature_type_layout());
    s
}

/// Columns of `Faction.dbc`, in file order.
pub open spec fn faction_layout() -> Seq<(Seq<char>, FieldType)> {
    seq![
        ("id"@, FieldType::Int32),
        ("reputationIdx"@, FieldType::Int32),
        ("repRaceMask_1"@, FieldType::Int32),
        ("repRaceMask_2"@, FieldType::Int32),
        ("repRaceMask_3"@, FieldType::Int32),
        ("repRaceMask_4"@, FieldType::Int32),
        ("repClassMask_1"@, FieldType::Int32),
        ("repClassMask_2"@, FieldType::Int32),
        ("repClassMask_3"@, FieldType::Int32),
        ("repClassMask_4"@, FieldType::Int32),
        ("repBase_1"@, FieldType::Int32),
        ("repBase_2"@, FieldType::Int32),
        ("repBase_3"@, FieldType::Int32),
        ("repBase_4"@, FieldType::Int32),
        ("repFlags_1"@, FieldType::Int32),
        ("repFlags_2"@, FieldType::Int32),
        ("repFlags_3"@, FieldType::Int32),
        ("repFlags_4"@, FieldType::Int32),
        ("parentFactionId"@, FieldType::Int32),
        ("name_enUS"@, FieldType::String),
        ("name_koKR"@, FieldType::String),
        ("name_frFR"@, FieldType::String),
        ("name_deDE"@, FieldType::String),
        ("name_zhCN"@, FieldType::String),
        ("name_ruRU"@, FieldType::String),
        ("name_esES"@, FieldType::String),
        ("name_ptPT"@, FieldType::String),
        ("nameMask"@, FieldType::Int32),
        ("description_enUS"@, FieldType::String),
        ("description_koKR"@, FieldType::String),
        ("description_frFR"@, FieldType::String),
        ("description_deDE"@, FieldType::String),
        ("description_zhCN"@, FieldType::String),
        ("description_ruRU"@, FieldType::String),
        ("description_esES"@, FieldType::String),
        ("description_ptPT"@, FieldType::String),
        ("descriptionMask"@, FieldType::Int32),
    ]
}

/// Columns of `Faction.dbc`.
pub fn faction_schema() -> (s: Schema)
    ensures
        layout_of(s@) == faction_layout(),
{
    let s = vec![
        ("id", FieldType::Int32),
        ("reputationIdx", FieldType::Int32),
        ("repRaceMask_1", FieldType::Int32),
        ("repRaceMask_2", FieldType::Int32),
        ("repRaceMask_3", FieldType::Int32),
        ("repRaceMask_4", FieldType::Int32),
        ("repClassMask_1", FieldType::Int32),
        ("repClassMask_2", FieldType::Int32),
        ("repClassMask_3", FieldType::Int32),
        ("repClassMask_4", FieldType::Int32),
        ("repBase_1", FieldType::Int32),
        ("repBase_2", FieldType::Int32),
        ("repBase_3", FieldType::Int32),
        ("repBase_4", FieldType::Int32),
        ("repFlags_1", FieldType::Int32),
        ("repFlags_2", FieldType::Int32),
        ("repFlags_3", FieldType::Int32),
        ("repFlags_4", FieldType::Int32),
        ("parentFactionId", FieldType::Int32),
        ("name_enUS", FieldType::String),
        ("name_koKR", FieldType::String),
        ("name_frFR", FieldType::String),
        ("name_deDE", FieldType::String),
        ("name_zhCN", FieldType::String),
        ("name_ruRU", FieldType::String),
        ("name_esES", FieldType::String),
        ("name_ptPT", FieldType::String),
        ("nameMask", FieldType::Int32),
        ("description_enUS", FieldType::String),
        ("description_koKR", FieldType::String),
        ("description_frFR", FieldType::String),
        ("description_deDE", FieldType::String),
        ("description_zhCN", FieldType::String),
        ("description_ruRU", FieldType::String),
        ("description_esES", FieldType::String),
        ("description_ptPT", FieldType::String),
        ("descriptionMask", FieldType::Int32),
    ];
    assert(layout_of(s@) =~= faction_layout());
    s
}

/// Columns of `FactionTemplate.dbc`, in file order.
pub open spec fn faction_template_layout() -> Seq<(Seq<char>, FieldType)> {
    seq![
        ("id"@, FieldType::Int32),
        ("faction"@, FieldType::Int32),
        ("flags"@, FieldType::Int32),
        ("factionGroup"@, FieldType::Int32),
        ("friendGroup"@, FieldType::Int32),
        ("enemyGroup"@, FieldType::Int32),
        ("enemy_1"@, FieldType::Int32),
        ("enemy_2"@, FieldType::Int32),
        ("enemy_3"@, FieldType::Int32),
        ("enemy_4"@, FieldType::Int32),
        ("friend_1"@, FieldType::Int32),
        ("friend_2"@, FieldType::Int32),
        ("friend_3"@, FieldType::Int32),
        ("friend_4"@, FieldType::Int32),
    ]
}

/// Columns of `FactionTemplate.dbc`.
pub fn faction_template_schema() -> (s: Schema)
    ensures
        layout_of(s@) == faction_template_layout(),
{
    let s = vec![
        ("id", FieldType::Int32),
        ("faction", FieldType::Int32),
        ("flags", FieldType::Int32),
        ("factionGroup", FieldType::Int32),
        ("friendGroup", FieldType::Int32),
        ("enemyGroup", FieldType::Int32),
        ("enemy_1", FieldType::Int32),
        ("enemy_2", FieldType::Int32),
        ("enemy_3", FieldType::Int32),
        ("enemy_4", FieldType::Int32),
        ("friend_1", FieldType::Int32),
        ("friend_2", FieldType::Int32),
        ("friend_3", FieldType::Int32),
        ("friend_4", FieldType::Int32),
    ];
    assert(layout_of(s@) =~= faction_template_layout());
    s
}

/// Columns of `ItemBagFamily.dbc`, in file order.
pub open spec fn item_bag_family_layout() -> Seq<(Seq<char>, FieldType)> {
    seq![
        ("id"@, FieldType::Int32),
        ("name_enUS"@, FieldType::String),
        ("name_koKR"@, FieldType::String),
        ("name_frFR"@, FieldType::String),
        ("name_deDE"@, FieldType::String),
        ("name_zhCN"@, FieldType::String),
        ("name_ruRU"@, FieldType::String),
        ("name_esES"@, FieldType::String),
        ("name_ptPT"@, FieldType::String),
        ("nameMask"@, FieldType::Int32),
    ]
}

/// Columns of `ItemBagFamily.dbc`.
pub fn item_bag_family_schema() -> (s: Schema)
    ensures
        layout_of(s@) == item_bag_family_layout(),
{
    let s = vec![
        ("id", FieldType::Int32),
        ("name_enUS", FieldType::String),
        ("name_koKR", FieldType::String),
        ("name_frFR", FieldType::String),
        ("name_deDE", FieldType::String),
        ("name_zhCN", FieldType::String),
        ("name_ruRU", FieldType::String),
        ("name_esES", FieldType::String),
        ("name_ptPT", FieldType::String),
        ("nameMask", FieldType::Int32),
    ];
    assert(layout_of(s@) =~= item_bag_family_layout());
    s
}

/// Columns of `ItemClass.dbc`, in file order.
pub open spec fn item_class_layout() -> Seq<(Seq<char>, FieldType)> {
    seq![
        ("id"@, FieldType::Int32),
        ("subclassMapId"@, FieldType::Int32),
        ("flags"@, FieldType::Int32),
        ("className_enUS"@, FieldType::String),
        ("className_koKR"@, FieldType::String),
        ("className_frFR"@, FieldType::String),
        ("className_deDE"@, FieldType::String),
        ("className_zhCN"@, FieldType::String),
        ("className_ruRU"@, FieldType::String),
        ("className_esES"@, FieldType::String),
        ("className_ptPT"@, FieldType::String),
        ("classNameMask"@, FieldType::Int32),
    ]
}

/// Columns of `ItemClass.dbc`.
pub fn item_class_schema() -> (s: Schema)
    ensures
        layout_of(s@) == item_class_layout(),
{
    let s = vec![
        ("id", FieldType::Int32),
        ("subclassMapId", FieldType::Int32),
        ("flags", FieldType::Int32),
        ("className_enUS", FieldType::String),
        ("className_koKR", FieldType::String),
        ("className_frFR", FieldType::String),
        ("className_deDE", FieldType::String),
        ("className_zhCN", FieldType::String),
        ("className_ruRU", FieldType::String),
        ("className_esES", FieldType::String),
        ("className_ptPT", FieldType::String),
        ("classNameMask", FieldType::Int32),
    ];
    assert(layout_of(s@) =~= item_class_layout());
    s
}

/// Columns of `ItemDisplayInfo.dbc`, in file order.
pub open spec fn item_display_info_layout() -> Seq<(Seq<char>, FieldType)> {
    seq![
        ("id"@, FieldType::Int32),
        ("modelName_1"@, FieldType::String),
        ("modelName_2"@, FieldType::String),
        ("modelTexture_1"@, FieldType::String),
        ("modelTexture_2"@, FieldType::String),
        ("inventoryIcon"@, FieldType::String),
        ("geosetGroup_1"@, FieldType::Int32),
        ("geosetGroup_2"@, FieldType::Int32),
        ("geosetGroup_3"@, FieldType::Int32),
        ("flags"@, FieldType::Int32),
        ("spellVisualId"@, FieldType::Int32),
        ("groupSoundIndex"@, FieldType::Int32),
        ("helmetGeosetVisId_1"@, FieldType::Int32),
        ("helmetGeosetVisId_2"@, FieldType::Int32),
        ("texture_1"@, FieldType::String),
        ("texture_2"@, FieldType::String),
        ("texture_3"@, FieldType::String),
        ("texture_4"@, FieldType::String),
        ("texture_5"@, FieldType::String),
        ("texture_6"@, FieldType::String),
        ("texture_7"@, FieldType::String),
        ("texture_8"@, FieldType::String),
        ("itemVisual"@, FieldType::Int32),
    ]
}

/// Columns of `ItemDisplayInfo.dbc`.
pub fn item_display_info_schema() -> (s: Schema)
    ensures
        layout_of(s@) == item_display_info_layout(),
{
    let s = vec![
        ("id", FieldType::Int32),
        ("modelName_1", FieldType::String),
        ("modelName_2", FieldType::String),
        ("modelTexture_1", FieldType::String),
        ("modelTexture_2", FieldType::String),
        ("inventoryIcon", FieldType::String),
        ("geosetGroup_1", FieldType::Int32),
        ("geosetGroup_2", FieldType::Int32),
        ("geosetGroup_3", FieldType::Int32),
        ("flags", FieldType::Int32),
        ("spellVisualId", FieldType::Int32),
        ("groupSoundIndex", FieldType::Int32),
        ("helmetGeosetVisId_1", FieldType::Int32),
        ("helmetGeosetVisId_2", FieldType::Int32),
        ("texture_1", FieldType::String),
        ("texture_2", FieldType::String),
        ("texture_3", FieldType::String),
        ("texture_4", FieldType::String),
        ("texture_5", FieldType::String),
        ("texture_6", FieldType::String),
        ("texture_7", FieldType::String),
        ("texture_8", FieldType::String),
        ("itemVisual", FieldType::Int32),
    ];
    assert(layout_of(s@) =~= item_display_info_layout());
    s
}

/// Columns of `ItemRandomProperties.dbc`, in file order.
pub open spec fn item_random_properties_layout() -> Seq<(Seq<char>, FieldType)> {
    seq![
        ("id"@, FieldType::Int32),
        ("name"@, FieldType::String),
        ("enchantment_1"@, FieldType::Int32),
        ("enchantment_2"@, FieldType::Int32),
        ("enchantment_3"@, FieldType::Int32),
        ("enchantment_4"@, FieldType::Int32),
        ("enchantment_5"@, FieldType::Int32),
        ("suffix_enUS"@, FieldType::String),
        ("suffix_koKR"@, FieldType::String),
        ("suffix_frFR"@, FieldType::String),
        ("suffix_deDE"@, FieldType::String),
        ("suffix_zhCN"@, FieldType::String),
        ("suffix_ruRU"@, FieldType::String),
        ("suffix_esES"@, FieldType::String),
        ("suffix_ptPT"@, FieldType::String),
        ("suffixMask"@, FieldType::Int32),
    ]
}

/// Columns of `ItemRandomProperties.dbc`.
pub fn item_random_properties_schema() -> (s: Schema)
    ensures
        layout_of(s@) == item_random_properties_layout(),
{
    let s = vec![
        ("id", FieldType::Int32),
        ("name", FieldType::String),
        ("enchantment_1", FieldType::Int32),
        ("enchantment_2", FieldType::Int32),
        ("enchantment_3", FieldType::Int32),
        ("enchantment_4", FieldType::Int32),
        ("enchantment_5", FieldType::Int32),
        ("suffix_enUS", FieldType::String),
        ("suffix_koKR", FieldType::String),
        ("suffix_frFR", FieldType::String),
        ("suffix_deDE", FieldType::String),
        ("suffix_zhCN", FieldType::String),
        ("suffix_ruRU", FieldType::String),
        ("suffix_esES", FieldType::String),
        ("suffix_ptPT", FieldType::String),
        ("suffixMask", FieldType::Int32),
    ];
    assert(layout_of(s@) =~= item_random_properties_layout());
    s
}

/// Columns of `ItemSet.dbc`, in file order.
pub open spec fn item_set_layout() -> Seq<(Seq<char>, FieldType)> {
    seq![
        ("id"@, FieldType::Int32),
        ("name_enUS"@, FieldType::String),
        ("name_koKR"@, FieldType::String),
        ("name_frFR"@, FieldType::String),
        ("name_deDE"@, FieldType::String),
        ("name_zhCN"@, FieldType::String),
        ("name_ruRU"@, FieldType::String),
        ("name_esES"@, FieldType::String),
        ("name_ptPT"@, FieldType::String),
        ("nameMask"@, FieldType::Int32),
        ("itemId_1"@, FieldType::Int32),
        ("itemId_2"@, FieldType::Int32),
        ("itemId_3"@, FieldType::Int32),
        ("itemId_4"@, FieldType::Int32),
        ("itemId_5"@, FieldType::Int32),
        ("itemId_6"@, FieldType::Int32),
        ("itemId_7"@, FieldType::Int32),
        ("itemId_8"@, FieldType::Int32),
        ("itemId_9"@, FieldType::Int32),
        ("itemId_10"@, FieldType::Int32),
        ("itemId_11"@, FieldType::Int32),
        ("itemId_12"@, FieldType::Int32),
        ("itemId_13"@, FieldType::Int32),
        ("itemId_14"@, FieldType::Int32),
        ("itemId_15"@, FieldType::Int32),
        ("itemId_16"@, FieldType::Int32),
        ("itemId_17"@, FieldType::Int32),
        ("setSpellId_1"@, FieldType::Int32),
        ("setSpellId_2"@, FieldType::Int32),
        ("setSpellId_3"@, FieldType::Int32),
        ("setSpellId_4"@, FieldType::Int32),
        ("setSpellId_5"@, FieldType::Int32),
        ("setSpellId_6"@, FieldType::Int32),
        ("setSpellId_7"@, FieldType::Int32),
        ("setSpellId_8"@, FieldType::Int32),
        ("setThreshold_1"@, FieldType::Int32),
        ("setThreshold_2"@, FieldType::Int32),
        ("setThreshold_3"@, FieldType::Int32),
        ("setThreshold_4"@, FieldType::Int32),
        ("setThreshold_5"@, FieldType::Int32),
        ("setThreshold_6"@, FieldType::Int32),
        ("setThreshold_7"@, FieldType::Int32),
        ("setThreshold_8"@, FieldType::Int32),
        ("requiredSkillId"@, FieldType::Int32),
        ("requiredSkillRank"@, FieldType::Int32),
    ]
}

/// Columns of `ItemSet.dbc`.
pub fn item_set_schema() -> (s: Schema)
    ensures
        layout_of(s@) == item_set_layout(),
{
    let s = vec![
        ("id", FieldType::Int32),
        ("name_enUS", FieldType::String),
        ("name_koKR", FieldType::String),
        ("name_frFR", FieldType::String),
        ("name_deDE", FieldType::String),
        ("name_zhCN", FieldType::String),
        ("name_ruRU", FieldType::String),
        ("name_esES", FieldType::String),
        ("name_ptPT", FieldType::String),
        ("nameMask", FieldType::Int32),
        ("itemId_1", FieldType::Int32),
        ("itemId_2", FieldType::Int32),
        ("itemId_3", FieldType::Int32),
        ("itemId_4", FieldType::Int32),
        ("itemId_5", FieldType::Int32),
        ("itemId_6", FieldType::Int32),
        ("itemId_7", FieldType::Int32),
        ("itemId_8", FieldType::Int32),
        ("itemId_9", FieldType::Int32),
        ("itemId_10", FieldType::Int32),
        ("itemId_11", FieldType::Int32),
        ("itemId_12", FieldType::Int32),
        ("itemId_13", FieldType::Int32),
        ("itemId_14", FieldType::Int32),
        ("itemId_15", FieldType::Int32),
        ("itemId_16", FieldType::Int32),
        ("itemId_17", FieldType::Int32),
        ("setSpellId_1", FieldType::Int32),
        ("setSpellId_2", FieldType::Int32),
        ("setSpellId_3", FieldType::Int32),
        ("setSpellId_4", FieldType::Int32),
        ("setSpellId_5", FieldType::Int32),
        ("setSpellId_6", FieldType::Int32),
        ("setSpellId_7", FieldType::Int32),
        ("setSpellId_8", FieldType::Int32),
        ("setThreshold_1", FieldType::Int32),
        ("setThreshold_2", FieldType::Int32),
        ("setThreshold_3", FieldType::Int32),
        ("setThreshold_4", FieldType::Int32),
        ("setThreshold_5", FieldType::Int32),
        ("setThreshold_6", FieldType::Int32),
        ("setThreshold_7", FieldType::Int32),
        ("setThreshold_8", FieldType::Int32),
        ("requiredSkillId", FieldType::Int32),
        ("requiredSkillRank", FieldType::Int32),
    ];
    assert(layout_of(s@) =~= item_set_layout());
    s
}

/// Columns of `ItemSubClass.dbc`, in file order.
pub open spec fn item_sub_class_layout() -> Seq<(Seq<char>, FieldType)> {
    seq![
        ("classId"@, FieldType::Int32),
        ("subclassId"@, FieldType::Int32),
        ("prereqProficiency"@, FieldType::Int32),
        ("postreqProficiency"@, FieldType::Int32),
        ("flags"@, FieldType::Int32),
        ("displayFlags"@, FieldType::Int32),
        ("weaponParrySeq"@, FieldType::Int32),
        ("weaponReadySeq"@, FieldType::Int32),
        ("weaponAttackSeq"@, FieldType::Int32),
        ("weaponSwingSize"@, FieldType::Int32),
        ("displayName_enUS"@, FieldType::String),
        ("displayName_koKR"@, FieldType::String),
        ("displayName_frFR"@, FieldType::String),
        ("displayName_deDE"@, FieldType::String),
        ("displayName_zhCN"@, FieldType::String),
        ("displayName_ruRU"@, FieldType::String),
        ("displayName_esES"@, FieldType::String),
        ("displayName_ptPT"@, FieldType::String),
        ("displayNameMask"@, FieldType::Int32),
        ("verboseName_enUS"@, FieldType::String),
        ("verboseName_koKR"@, FieldType::String),
        ("verboseName_frFR"@, FieldType::String),
        ("verboseName_deDE"@, FieldType::String),
        ("verboseName_zhCN"@, FieldType::String),
        ("verboseName_ruRU"@, FieldType::String),
        ("verboseName_esES"@, FieldType::String),
        ("verboseName_ptPT"@, FieldType::String),
        ("verboseNameMask"@, FieldType::Int32),
    ]
}

/// Columns of `ItemSubClass.dbc`.
pub fn item_sub_class_schema() -> (s: Schema)
    ensures
        layout_of(s@) == item_sub_class_layout(),
{
    let s = vec![
        ("classId", FieldType::Int32),
        ("subclassId", FieldType::Int32),
        ("prereqProficiency", FieldType::Int32),
        ("postreqProficiency", FieldType::Int32),
        ("flags", FieldType::Int32),
        ("displayFlags", FieldType::Int32),
        ("weaponParrySeq", FieldType::Int32),
        ("weaponReadySeq", FieldType::Int32),
        ("weaponAttackSeq", FieldType::Int32),
        ("weaponSwingSize", FieldType::Int32),
        ("displayName_enUS", FieldType::String),
        ("displayName_koKR", FieldType::String),
        ("displayName_frFR", FieldType::String),
        ("displayName_deDE", FieldType::String),
        ("displayName_zhCN", FieldType::String),
        ("displayName_ruRU", FieldType::String),
        ("displayName_esES", FieldType::String),
        ("displayName_ptPT", FieldType::String),
        ("displayNameMask", FieldType::Int32),
        ("verboseName_enUS", FieldType::String),
        ("verboseName_koKR", FieldType::String),
        ("verboseName_frFR", FieldType::String),
        ("verboseName_deDE", FieldType::String),
        ("verboseName_zhCN", FieldType::String),
        ("verboseName_ruRU", FieldType::String),
        ("verboseName_esES", FieldType::String),
        ("verboseName_ptPT", FieldType::String),
        ("verboseNameMask", FieldType::Int32),
    ];
    assert(layout_of(s@) =~= item_sub_class_layout());
    s
}

/// Columns of `LFGDungeons.dbc`, in file order.
pub open spec fn lfg_dungeons_layout() -> Seq<(Seq<char>, FieldType)> {
    seq![
        ("id"@, FieldType::Int32),
        ("name_enUS"@, FieldType::String),
        ("name_koKR"@, FieldType::String),
        ("name_frFR"@, FieldType::String),
        ("name_deDE"@, FieldType::String),
        ("name_zhCN"@, FieldType::String),
        ("name_ruRU"@, FieldType::String),
        ("name_esES"@, FieldType::String),
        ("name_ptPT"@, FieldType::String),
        ("nameMask"@, FieldType::Int32),
        ("levelMin"@, FieldType::Int32),
        ("levelMax"@, FieldType::Int32),
        ("instanceType"@, FieldType::Int32),
        ("faction"@, FieldType::Int32),
    ]
}

/// Columns of `LFGDungeons.dbc`.
pub fn lfg_dungeons_schema() -> (s: Schema)
    ensures
        layout_of(s@) == lfg_dungeons_layout(),
{
    let s = vec![
        ("id", FieldType::Int32),
        ("name_enUS", FieldType::String),
        ("name_koKR", FieldType::String),
        ("name_frFR", FieldType::String),
        ("name_deDE", FieldType::String),
        ("name_zhCN", FieldType::String),
        ("name_ruRU", FieldType::String),
        ("name_esES", FieldType::String),
        ("name_ptPT", FieldType::String),
        ("nameMask", FieldType::Int32),
        ("levelMin", FieldType::Int32),
        ("levelMax", FieldType::Int32),
        ("instanceType", FieldType::Int32),
        ("faction", FieldType::Int32),
    ];
    assert(layout_of(s@) =~= lfg_dungeons_layout());
    s
}

/// Columns of `Lock.dbc`, in file order.
pub open spec fn lock_layout() -> Seq<(Seq<char>, FieldType)> {
    seq![
        ("id"@, FieldType::Int32),
        ("type_1"@, FieldType::Int32),
        ("type_2"@, FieldType::Int32),
        ("type_3"@, FieldType::Int32),
        ("type_4"@, FieldType::Int32),
        ("type_5"@, FieldType::Int32),
        ("type_6"@, FieldType::Int32),
        ("type_7"@, FieldType::Int32),
        ("type_8"@, FieldType::Int32),
        ("index_1"@, FieldType::Int32),
        ("index_2"@, FieldType::Int32),
        ("index_3"@, FieldType::Int32),
        ("index_4"@, FieldType::Int32),
        ("index_5"@, FieldType::Int32),
        ("index_6"@, FieldType::Int32),
        ("index_7"@, FieldType::Int32),
        ("index_8"@, FieldType::Int32),
        ("skill_1"@, FieldType::Int32),
        ("skill_2"@, FieldType::Int32),
        ("skill_3"@, FieldType::Int32),
        ("skill_4"@, FieldType::Int32),
        ("skill_5"@, FieldType::Int32),
        ("skill_6"@, FieldType::Int32),
        ("skill_7"@, FieldType::Int32),
        ("skill_8"@, FieldType::Int32),
        ("action_1"@, FieldType::Int32),
        ("action_2"@, FieldType::Int32),
        ("action_3"@, FieldType::Int32),
        ("action_4"@, FieldType::Int32),
        ("action_5"@, FieldType::Int32),
        ("action_6"@, FieldType::Int32),
        ("action_7"@, FieldType::Int32),
        ("action_8"@, FieldType::Int32),
    ]
}

/// Columns of `Lock.dbc`.
pub fn lock_schema() -> (s: Schema)
    ensures
        layout_of(s@) == lock_layout(),
{
    let s = vec![
        ("id", FieldType::Int32),
        ("type_1", FieldType::Int32),
        ("type_2", FieldType::Int32),
        ("type_3", FieldType::Int32),
        ("type_4", FieldType::Int32),
        ("type_5", FieldType::Int32),
        ("type_6", FieldType::Int32),
        ("type_7", FieldType::Int32),
        ("type_8", FieldType::Int32),
        ("index_1", FieldType::Int32),
        ("index_2", FieldType::Int32),
        ("index_3", FieldType::Int32),
        ("index_4", FieldType::Int32),
        ("index_5", FieldType::Int32),
        ("index_6", FieldType::Int32),
        ("index_7", FieldType::Int32),
        ("index_8", FieldType::Int32),
        ("skill_1", FieldType::Int32),
        ("skill_2", FieldType::Int32),
        ("skill_3", FieldType::Int32),
        ("skill_4", FieldType::Int32),
        ("skill_5", FieldType::Int32),
        ("skill_6", FieldType::Int32),
        ("skill_7", FieldType::Int32),
        ("skill_8", FieldType::Int32),
        ("action_1", FieldType::Int32),
        ("action_2", FieldType::Int32),
        ("action_3", FieldType::Int32),
        ("action_4", FieldType::Int32),
        ("action_5", FieldType::Int32),
        ("action_6", FieldType::Int32),
        ("action_7", FieldType::Int32),
        ("action_8", FieldType::Int32),
    ];
    assert(layout_of(s@) =~= lock_layout());
    s
}

/// Columns of `LockType.dbc`, in file order.
pub open spec fn lock_type_layout() -> Seq<(Seq<char>, FieldType)> {
    seq![
        ("id"@, FieldType::Int32),
        ("name_enUS"@, FieldType::String),
        ("name_koKR"@, FieldType::String),
        ("name_frFR"@, FieldType::String),
        ("name_deDE"@, FieldType::String),
        ("name_zhCN"@, FieldType::String),
        ("name_ruRU"@, FieldType::String),
        ("name_esES"@, FieldType::String),
        ("name_ptPT"@, FieldType::String),
        ("nameMask"@, FieldType::Int32),
        ("resource_enUS"@, FieldType::String),
        ("resource_koKR"@, FieldType::String),
        ("resource_frFR"@, FieldType::String),
        ("resource_deDE"@, FieldType::String),
        ("resource_zhCN"@, FieldType::String),
        ("resource_ruRU"@, FieldType::String),
        ("resource_esES"@, FieldType::String),
        ("resource_ptPT"@, FieldType::String),
        ("resourceMask"@, FieldType::Int32),
        ("verb_enUS"@, FieldType::String),
        ("verb_koKR"@, FieldType::String),
        ("verb_frFR"@, FieldType::String),
        ("verb_deDE"@, FieldType::String),
        ("verb_zhCN"@, FieldType::String),
        ("verb_ruRU"@, FieldType::String),
        ("verb_esES"@, FieldType::String),
        ("verb_ptPT"@, FieldType::String),
        ("verbMask"@, FieldType::Int32),
        ("cursorName"@, FieldType::String),
    ]
}

/// Columns of `LockType.dbc`.
pub fn lock_type_schema() -> (s: Schema)
    ensures
        layout_of(s@) == lock_type_layout(),
{
    let s = vec![
        ("id", FieldType::Int32),
        ("name_enUS", FieldType::String),
        ("name_koKR", FieldType::String),
        ("name_frFR", FieldType::String),
        ("name_deDE", FieldType::String),
        ("name_zhCN", FieldType::String),
        ("name_ruRU", FieldType::String),
        ("name_esES", FieldType::String),
        ("name_ptPT", FieldType::String),
        ("nameMask", FieldType::Int32),
        ("resource_enUS", FieldType::String),
        ("resource_koKR", FieldType::String),
        ("resource_frFR", FieldType::String),
        ("resource_deDE", FieldType::String),
        ("resource_zhCN", FieldType::String),
        ("resource_ruRU", FieldType::String),
        ("resource_esES", FieldType::String),
        ("resource_ptPT", FieldType::String),
        ("resourceMask", FieldType::Int32),
        ("verb_enUS", FieldType::String),
        ("verb_koKR", FieldType::String),
        ("verb_frFR", FieldType::String),
        ("verb_deDE", FieldType::String),
        ("verb_zhCN", FieldType::String),
        ("verb_ruRU", FieldType::String),
        ("verb_esES", FieldType::String),
        ("verb_ptPT", FieldType::String),
        ("verbMask", FieldType::Int32),
        ("cursorName", FieldType::String),
    ];
    assert(layout_of(s@) =~= lock_type_layout());
    s
}

/// Columns of `MailTemplate.dbc`, in file order.
pub open spec fn mail_template_layout() -> Seq<(Seq<char>, FieldType)> {
    seq![
        ("id"@, FieldType::Int32),
        ("body_enUS"@, FieldType::String),
        ("body_koKR"@, FieldType::String),
        ("body_frFR"@, FieldType::String),
        ("body_deDE"@, FieldType::String),
        ("body_zhCN"@, FieldType::String),
        ("body_ruRU"@, FieldType::String),
        ("body_esES"@, FieldType::String),
        ("body_ptPT"@, FieldType::String),
        ("bodyMask"@, FieldType::Int32),
    ]
}

/// Columns of `MailTemplate.dbc`.
pub fn mail_template_schema() -> (s: Schema)
    ensures
        layout_of(s@) == mail_template_layout(),
{
    let s = vec![
        ("id", FieldType::Int32),
        ("body_enUS", FieldType::String),
        ("body_koKR", FieldType::String),
        ("body_frFR", FieldType::String),
        ("body_deDE", FieldType::String),
        ("body_zhCN", FieldType::String),
        ("body_ruRU", FieldType::String),
        ("body_esES", FieldType::String),
        ("body_ptPT", FieldType::String),
        ("bodyMask", FieldType::Int32),
    ];
    assert(layout_of(s@) =~= mail_template_layout());
    s
}

/// Columns of `Map.dbc`, in file order.
pub open spec fn map_layout() -> Seq<(Seq<char>, FieldType)> {
    seq![
        ("id"@, FieldType::Int32),
        ("directory"@, FieldType::String),
        ("instanceType"@, FieldType::Int32),
        ("isPvP"@, FieldType::Int32),
        ("name_enUS"@, FieldType::String),
        ("name_koKR"@, FieldType::String),
        ("name_frFR"@, FieldType::String),
        ("name_deDE"@, FieldType::String),
        ("name_zhCN"@, FieldType::String),
        ("name_ruRU"@, FieldType::String),
        ("name_esES"@, FieldType::String),
        ("name_ptPT"@, FieldType::String),
        ("nameMask"@, FieldType::Int32),
        ("levelMin"@, FieldType::Int32),
        ("levelMax"@, FieldType::Int32),
        ("maxPlayers"@, FieldType::Int32),
        ("unknown_1"@, FieldType::Int32),
        ("unknown_2"@, FieldType::Int32),
        ("unknown_3"@, FieldType::Int32),
        ("areaTableId"@, FieldType::Int32),
        ("description_enUS"@, FieldType::String),
        ("description_koKR"@, FieldType::String),
        ("description_frFR"@, FieldType::String),
        ("description_deDE"@, FieldType::String),
        ("description_zhCN"@, FieldType::String),
        ("description_ruRU"@, FieldType::String),
        ("description_esES"@, FieldType::String),
        ("description_ptPT"@, FieldType::String),
        ("descriptionMask"@, FieldType::Int32),
        ("description2_enUS"@, FieldType::String),
        ("description2_koKR"@, FieldType::String),
        ("description2_frFR"@, FieldType::String),
        ("description2_deDE"@, FieldType::String),
        ("description2_zhCN"@, FieldType::String),
        ("description2_ruRU"@, FieldType::String),
        ("description2_esES"@, FieldType::String),
        ("description2_ptPT"@, FieldType::String),
        ("description2Mask"@, FieldType::Int32),
        ("loadingScreenId"@, FieldType::Int32),
        ("raidOffset"@, FieldType::Int32),
        ("canGroupQueue"@, FieldType::Int32),
        ("unknown_4"@, FieldType::Int32),
    ]
}

/// Columns of `Map.dbc`.
pub fn map_schema() -> (s: Schema)
    ensures
        layout_of(s@) == map_layout(),
{
    let s = vec![
        ("id", FieldType::Int32),
        ("directory", FieldType::String),
        ("instanceType", FieldType::Int32),
        ("isPvP", FieldType::Int32),
        ("name_enUS", FieldType::String),
        ("name_koKR", FieldType::String),
        ("name_frFR", FieldType::String),
        ("name_deDE", FieldType::String),
        ("name_zhCN", FieldType::String),
        ("name_ruRU", FieldType::String),
        ("name_esES", FieldType::String),
        ("name_ptPT", FieldType::String),
        ("nameMask", FieldType::Int32),
        ("levelMin", FieldType::Int32),
        ("levelMax", FieldType::Int32),
        ("maxPlayers", FieldType::Int32),
        ("unknown_1", FieldType::Int32),
        ("unknown_2", FieldType::Int32),
        ("unknown_3", FieldType::Int32),
        ("areaTableId", FieldType::Int32),
        ("description_enUS", FieldType::String),
        ("description_koKR", FieldType::String),
        ("description_frFR", FieldType::String),
        ("description_deDE", FieldType::String),
        ("description_zhCN", FieldType::String),
        ("description_ruRU", FieldType::String),
        ("description_esES", FieldType::String),
        ("description_ptPT", FieldType::String),
        ("descriptionMask", FieldType::Int32),
        ("description2_enUS", FieldType::String),
        ("description2_koKR", FieldType::String),
        ("description2_frFR", FieldType::String),
        ("description2_deDE", FieldType::String),
        ("description2_zhCN", FieldType::String),
        ("description2_ruRU", FieldType::String),
        ("description2_esES", FieldType::String),
        ("description2_ptPT", FieldType::String),
        ("description2Mask", FieldType::Int32),
        ("loadingScreenId", FieldType::Int32),
        ("raidOffset", FieldType::Int32),
        ("canGroupQueue", FieldType::Int32),
        ("unknown_4", FieldType::Int32),
    ];
    assert(layout_of(s@) =~= map_layout());
    s
}

/// Columns of `QuestInfo.dbc`, in file order.
pub open spec fn quest_info_layout() -> Seq<(Seq<char>, FieldType)> {
    seq![
        ("id"@, FieldType::Int32),
        ("name_enUS"@, FieldType::String),
        ("name_koKR"@, FieldType::String),
        ("name_frFR"@, FieldType::String),
        ("name_deDE"@, FieldType::String),
        ("name_zhCN"@, FieldType::String),
        ("name_ruRU"@, FieldType::String),
        ("name_esES"@, FieldType::String),
        ("name_ptPT"@, FieldType::String),
        ("nameMask"@, FieldType::Int32),
    ]
}

/// Columns of `QuestInfo.dbc`.
pub fn quest_info_schema() -> (s: Schema)
    ensures
        layout_of(s@) == quest_info_layout(),
{
    let s = vec![
        ("id", FieldType::Int32),
        ("name_enUS", FieldType::String),
        ("name_koKR", FieldType::String),
        ("name_frFR", FieldType::String),
        ("name_deDE", FieldType::String),
        ("name_zhCN", FieldType::String),
        ("name_ruRU", FieldType::String),
        ("name_esES", FieldType::String),
        ("name_ptPT", FieldType::String),
        ("nameMask", FieldType::Int32),
    ];
    assert(layout_of(s@) =~= quest_info_layout());
    s
}

/// Columns of `QuestSort.dbc`, in file order.
pub open spec fn quest_sort_layout() -> Seq<(Seq<char>, FieldType)> {
    seq![
        ("id"@, FieldType::Int32),
        ("name_enUS"@, FieldType::String),
        ("name_koKR"@, FieldType::String),
        ("name_frFR"@, FieldType::String),
        ("name_deDE"@, FieldType::String),
        ("name_zhCN"@, FieldType::String),
        ("name_ruRU"@, FieldType::String),
        ("name_esES"@, FieldType::String),
        ("name_ptPT"@, FieldType::String),
        ("nameMask"@, FieldType::Int32),
    ]
}

/// Columns of `QuestSort.dbc`.
pub fn quest_sort_schema() -> (s: Schema)
    ensures
        layout_of(s@) == quest_sort_layout(),
{
    let s = vec![
        ("id", FieldType::Int32),
        ("name_enUS", FieldType::String),
        ("name_koKR", FieldType::String),
        ("name_frFR", FieldType::String),
        ("name_deDE", FieldType::String),
        ("name_zhCN", FieldType::String),
        ("name_ruRU", FieldType::String),
        ("name_esES", FieldType::String),
        ("name_ptPT", FieldType::String),
        ("nameMask", FieldType::Int32),
    ];
    assert(layout_of(s@) =~= quest_sort_layout());
    s
}

/// Columns of `SkillLine.dbc`, in file order.
pub open spec fn skill_line_layout() -> Seq<(Seq<char>, FieldType)> {
    seq![
        ("id"@, FieldType::Int32),
        ("categoryId"@, FieldType::Int32),
        ("skillCostsId"@, FieldType::Int32),
        ("name_enUS"@, FieldType::String),
        ("name_koKR"@, FieldType::String),
        ("name_frFR"@, FieldType::String),
        ("name_deDE"@, FieldType::String),
        ("name_zhCN"@, FieldType::String),
        ("name_ruRU"@, FieldType::String),
        ("name_esES"@, FieldType::String),
        ("name_ptPT"@, FieldType::String),
        ("nameMask"@, FieldType::Int32),
        ("description_enUS"@, FieldType::String),
        ("description_koKR"@, FieldType::String),
        ("description_frFR"@, FieldType::String),
        ("description_deDE"@, FieldType::String),
        ("description_zhCN"@, FieldType::String),
        ("description_ruRU"@, FieldType::String),
        ("description_esES"@, FieldType::String),
        ("description_ptPT"@, FieldType::String),
        ("descriptionMask"@, FieldType::Int32),
        ("spellIconId"@, FieldType::Int32),
    ]
}

/// Columns of `SkillLine.dbc`.
pub fn skill_line_schema() -> (s: Schema)
    ensures
        layout_of(s@) == skill_line_layout(),
{
    let s = vec![
        ("id", FieldType::Int32),
        ("categoryId", FieldType::Int32),
        ("skillCostsId", FieldType::Int32),
        ("name_enUS", FieldType::String),
        ("name_koKR", FieldType::String),
        ("name_frFR", FieldType::String),
        ("name_deDE", FieldType::String),
        ("name_zhCN", FieldType::String),
        ("name_ruRU", FieldType::String),
        ("name_esES", FieldType::String),
        ("name_ptPT", FieldType::String),
        ("nameMask", FieldType::Int32),
        ("description_enUS", FieldType::String),
        ("description_koKR", FieldType::String),
        ("description_frFR", FieldType::String),
        ("description_deDE", FieldType::String),
        ("description_zhCN", FieldType::String),
        ("description_ruRU", FieldType::String),
        ("description_esES", FieldType::String),
        ("description_ptPT", FieldType::String),
        ("descriptionMask", FieldType::Int32),
        ("spellIconId", FieldType::Int32),
    ];
    assert(layout_of(s@) =~= skill_line_layout());
    s
}

/// Columns of `SkillLineAbility.dbc`, in file order.
pub open spec fn skill_line_ability_layout() -> Seq<(Seq<char>, FieldType)> {
    seq![
        ("id"@, FieldType::Int32),
        ("skillLine"@, FieldType::Int32),
        ("spell"@, FieldType::Int32),
        ("raceMask"@, FieldType::Int32),
        ("classMask"@, FieldType::Int32),
        ("excludeRace"@, FieldType::Int32),
        ("excludeClass"@, FieldType::Int32),
        ("minSkillLineRank"@, FieldType::Int32),
        ("supersededBySpellId"@, FieldType::Int32),
        ("acquireMethod"@, FieldType::Int32),
        ("trivialSkillLineRankHigh"@, FieldType::Int32),
        ("trivialSkillLineRankLow"@, FieldType::Int32),
        ("charcterPoints_1"@, FieldType::Int32),
        ("charcterPoints_2"@, FieldType::Int32),
        ("numSkillUps"@, FieldType::Int32),
    ]
}

/// Columns of `SkillLineAbility.dbc`.
pub fn skill_line_ability_schema() -> (s: Schema)
    ensures
        layout_of(s@) == skill_line_ability_layout(),
{
    let s = vec![
        ("id", FieldType::Int32),
        ("skillLine", FieldType::Int32),
        ("spell", FieldType::Int32),
        ("raceMask", FieldType::Int32),
        ("classMask", FieldType::Int32),
        ("excludeRace", FieldType::Int32),
        ("excludeClass", FieldType::Int32),
        ("minSkillLineRank", FieldType::Int32),
        ("supersededBySpellId", FieldType::Int32),
        ("acquireMethod", FieldType::Int32),
        ("trivialSkillLineRankHigh", FieldType::Int32),
        ("trivialSkillLineRankLow", FieldType::Int32),
        ("charcterPoints_1", FieldType::Int32),
        ("charcterPoints_2", FieldType::Int32),
        ("numSkillUps", FieldType::Int32),
    ];
    assert(layout_of(s@) =~= skill_line_ability_layout());
    s
}

/// Columns of `SkillLineCategory.dbc`, in file order.
pub open spec fn skill_line_category_layout() -> Seq<(Seq<char>, FieldType)> {
    seq![
        ("id"@, FieldType::Int32),
        ("name_enUS"@, FieldType::String),
        ("name_koKR"@, FieldType::String),
        ("name_frFR"@, FieldType::String),
        ("name_deDE"@, FieldType::String),
        ("name_zhCN"@, FieldType::String),
        ("name_ruRU"@, FieldType::String),
        ("name_esES"@, FieldType::String),
        ("name_ptPT"@, FieldType::String),
        ("nameMask"@, FieldType::Int32),
        ("sortIndex"@, FieldType::Int32),
    ]
}

/// Columns of `SkillLineCategory.dbc`.
pub fn skill_line_category_schema() -> (s: Schema)
    ensures
        layout_of(s@) == skill_line_category_layout(),
{
    let s = vec![
        ("id", FieldType::Int32),
        ("name_enUS", FieldType::String),
        ("name_koKR", FieldType::String),
        ("name_frFR", FieldType::String),
        ("name_deDE", FieldType::String),
        ("name_zhCN", FieldType::String),
        ("name_ruRU", FieldType::String),
        ("name_esES", FieldType::String),
        ("name_ptPT", FieldType::String),
        ("nameMask", FieldType::Int32),
        ("sortIndex", FieldType::Int32),
    ];
    assert(layout_of(s@) =~= skill_line_category_layout());
    s
}

/// Columns of `Spell.dbc`, in file order.
pub open spec fn spell_layout() -> Seq<(Seq<char>, FieldType)> {
    seq![
        ("id"@, FieldType::Int32),
        ("school"@, FieldType::Int32),
        ("category"@, FieldType::Int32),
        ("castUi"@, FieldType::Int32),
        ("dispelType"@, FieldType::Int32),
        ("mechanic"@, FieldType::Int32),
        ("attribute_1"@, FieldType::Int32),
        ("attribute_2"@, FieldType::Int32),
        ("attribute_3"@, FieldType::Int32),
        ("attribute_4"@, FieldType::Int32),
        ("attribute_5"@, FieldType::Int32),
        ("shapeshiftMask"@, FieldType::Int32),
        ("shapeshiftExclude"@, FieldType::Int32),
        ("targets"@, FieldType::Int32),
        ("targetCreatureType"@, FieldType::Int32),
        ("requiresSpellFocus"@, FieldType::Int32),
        ("casterAuraStat"@, FieldType::Int32),
        ("targetAuraState"@, FieldType::Int32),
        ("castingTimeIndex"@, FieldType::Int32),
        ("recoveryTime"@, FieldType::Int32),
        ("categoryRecoveryTime"@, FieldType::Int32),
        ("interruptFlags"@, FieldType::Int32),
        ("auraInterruptFlags"@, FieldType::Int32),
        ("channelInterruptFlags"@, FieldType::Int32),
        ("procTypeMask"@, FieldType::Int32),
        ("procChance"@, FieldType::Int32),
        ("procCharges"@, FieldType::Int32),
        ("maxLevel"@, FieldType::Int32),
        ("baseLevel"@, FieldType::Int32),
        ("spellLevel"@, FieldType::Int32),
        ("durationIndex"@, FieldType::Int32),
        ("powerType"@, FieldType::Int32),
        ("manaCost"@, FieldType::Int32),
        ("manaPerLevel"@, FieldType::Int32),
        ("manaPerSecond"@, FieldType::Int32),
        ("manaPerSecondPerLevel"@, FieldType::Int32),
        ("rangeIndex"@, FieldType::Int32),
        ("speed"@, FieldType::Float32),
        ("modalNextSpell"@, FieldType::Int32),
        ("stackAmount"@, FieldType::Int32),
        ("totem_1"@, FieldType::Int32),
        ("totem_2"@, FieldType::Int32),
        ("reagent_1"@, FieldType::Int32),
        ("reagent_2"@, FieldType::Int32),
        ("reagent_3"@, FieldType::Int32),
        ("reagent_4"@, FieldType::Int32),
        ("reagent_5"@, FieldType::Int32),
        ("reagent_6"@, FieldType::Int32),
        ("reagent_7"@, FieldType::Int32),
        ("reagent_8"@, FieldType::Int32),
        ("reagentCount_1"@, FieldType::Int32),
        ("reagentCount_2"@, FieldType::Int32),
        ("reagentCount_3"@, FieldType::Int32),
        ("reagentCount_4"@, FieldType::Int32),
        ("reagentCount_5"@, FieldType::Int32),
        ("reagentCount_6"@, FieldType::Int32),
        ("reagentCount_7"@, FieldType::Int32),
        ("reagentCount_8"@, FieldType::Int32),
        ("equippedItemClass"@, FieldType::Int32),
        ("equippedItemSubClassMask"@, FieldType::Int32),
        ("equippedItemInventoryTypeMask"@, FieldType::Int32),
        ("effect_1"@, FieldType::Int32),
        ("effect_2"@, FieldType::Int32),
        ("effect_3"@, FieldType::Int32),
        ("effectDieSides_1"@, FieldType::Int32),
        ("effectDieSides_2"@, FieldType::Int32),
        ("effectDieSides_3"@, FieldType::Int32),
        ("effectBaseDice_1"@, FieldType::Int32),
        ("effectBaseDice_2"@, FieldType::Int32),
        ("effectBaseDice_3"@, FieldType::Int32),
        ("effectDicePerLevel_1"@, FieldType::Int32),
        ("effectDicePerLevel_2"@, FieldType::Int32),
        ("effectDicePerLevel_3"@, FieldType::Int32),
        ("effectRealPointsPerLevel_1"@, FieldType::Float32),
        ("effectRealPointsPerLevel_2"@, FieldType::Float32),
        ("effectRealPointsPerLevel_3"@, FieldType::Float32),
        ("effectBasePoints_1"@, FieldType::Int32),
        ("effectBasePoints_2"@, FieldType::Int32),
        ("effectBasePoints_3"@, FieldType::Int32),
        ("effectMechanic_1"@, FieldType::Int32),
        ("effectMechanic_2"@, FieldType::Int32),
        ("effectMechanic_3"@, FieldType::Int32),
        ("effectImplicitTargetA_1"@, FieldType::Int32),
        ("effectImplicitTargetA_2"@, FieldType::Int32),
        ("effectImplicitTargetA_3"@, FieldType::Int32),
        ("effectImplicitTargetB_1"@, FieldType::Int32),
        ("effectImplicitTargetB_2"@, FieldType::Int32),
        ("effectImplicitTargetB_3"@, FieldType::Int32),
        ("effectRadiusIndex_1"@, FieldType::Int32),
        ("effectRadiusIndex_2"@, FieldType::Int32),
        ("effectRadiusIndex_3"@, FieldType::Int32),
        ("effectApplyAura_1"@, FieldType::Int32),
        ("effectApplyAura_2"@, FieldType::Int32),
        ("effectApplyAura_3"@, FieldType::Int32),
        ("effectAmplitude_1"@, FieldType::Int32),
        ("effectAmplitude_2"@, FieldType::Int32),
        ("effectAmplitude_3"@, FieldType::Int32),
        ("effectMultipleValue_1"@, FieldType::Float32),
        ("effectMultipleValue_2"@, FieldType::Float32),
        ("effectMultipleValue_3"@, FieldType::Float32),
        ("effectChainTarget_1"@, FieldType::Int32),
        ("effectChainTarget_2"@, FieldType::Int32),
        ("effectChainTarget_3"@, FieldType::Int32),
        ("effectItemType_1"@, FieldType::Int32),
        ("effectItemType_2"@, FieldType::Int32),
        ("effectItemType_3"@, FieldType::Int32),
        ("effectMiscValue_1"@, FieldType::Int32),
        ("effectMiscValue_2"@, FieldType::Int32),
        ("effectMiscValue_3"@, FieldType::Int32),
        ("effectTriggerSpell_1"@, FieldType::Int32),
        ("effectTriggerSpell_2"@, FieldType::Int32),
        ("effectTriggerSpell_3"@, FieldType::Int32),
        ("effectPointsPerCombo_1"@, FieldType::Float32),
        ("effectPointsPerCombo_2"@, FieldType::Float32),
        ("effectPointsPerCombo_3"@, FieldType::Float32),
        ("spellVisualId_1"@, FieldType::Int32),
        ("spellVisualId_2"@, FieldType::Int32),
        ("spellIconId"@, FieldType::Int32),
        ("activeIconId"@, FieldType::Int32),
        ("spellPriority"@, FieldType::Int32),
        ("name_enUS"@, FieldType::String),
        ("name_koKR"@, FieldType::String),
        ("name_frFR"@, FieldType::String),
        ("name_deDE"@, FieldType::String),
        ("name_zhCN"@, FieldType::String),
        ("name_ruRU"@, FieldType::String),
        ("name_esES"@, FieldType::String),
        ("name_ptPT"@, FieldType::String),
        ("nameMask"@, FieldType::Int32),
        ("subtext_enUS"@, FieldType::String),
        ("subtext_koKR"@, FieldType::String),
        ("subtext_frFR"@, FieldType::String),
        ("subtext_deDE"@, FieldType::String),
        ("subtext_zhCN"@, FieldType::String),
        ("subtext_ruRU"@, FieldType::String),
        ("subtext_esES"@, FieldType::String),
        ("subtext_ptPT"@, FieldType::String),
        ("subtextMask"@, FieldType::Int32),
        ("description_enUS"@, FieldType::String),
        ("description_koKR"@, FieldType::String),
        ("description_frFR"@, FieldType::String),
        ("description_deDE"@, FieldType::String),
        ("description_zhCN"@, FieldType::String),
        ("description_ruRU"@, FieldType::String),
        ("description_esES"@, FieldType::String),
        ("description_ptPT"@, FieldType::String),
        ("descriptionMask"@, FieldType::Int32),
        ("auraDescription_enUS"@, FieldType::String),
        ("auraDescription_koKR"@, FieldType::String),
        ("auraDescription_frFR"@, FieldType::String),
        ("auraDescription_deDE"@, FieldType::String),
        ("auraDescription_zhCN"@, FieldType::String),
        ("auraDescription_ruRU"@, FieldType::String),
        ("auraDescription_esES"@, FieldType::String),
        ("auraDescription_ptPT"@, FieldType::String),
        ("auraDescriptionMask"@, FieldType::Int32),
        ("manaCostPercentage"@, FieldType::Int32),
        ("startRecoveryCategory"@, FieldType::Int32),
        ("startRecoveryTime"@, FieldType::Int32),
        ("maxTargetLevel"@, FieldType::Int32),
        ("spellClassSet"@, FieldType::Int32),
        ("spellClassMask_1"@, FieldType::Int32),
        ("spellClassMask_2"@, FieldType::Int32),
        ("maxTargets"@, FieldType::Int32),
        ("damageType"@, FieldType::Int32),
        ("preventionType"@, FieldType::Int32),
        ("stanceBarOrder"@, FieldType::Int32),
        ("damageMultiplier_1"@, FieldType::Float32),
        ("damageMultiplier_2"@, FieldType::Float32),
        ("damageMultiplier_3"@, FieldType::Float32),
        ("minFactionId"@, FieldType::Int32),
        ("minReputation"@, FieldType::Int32),
        ("requiredAuraVision"@, FieldType::Int32),
    ]
}

/// Columns of `Spell.dbc`.
pub fn spell_schema() -> (s: Schema)
    ensures
        layout_of(s@) == spell_layout(),
{
    let s = vec![
        ("id", FieldType::Int32),
        ("school", FieldType::Int32),
        ("category", FieldType::Int32),
        ("castUi", FieldType::Int32),
        ("dispelType", FieldType::Int32),
        ("mechanic", FieldType::Int32),
        ("attribute_1", FieldType::Int32),
        ("attribute_2", FieldType::Int32),
        ("attribute_3", FieldType::Int32),
        ("attribute_4", FieldType::Int32),
        ("attribute_5", FieldType::Int32),
        ("shapeshiftMask", FieldType::Int32),
        ("shapeshiftExclude", FieldType::Int32),
        ("targets", FieldType::Int32),
        ("targetCreatureType", FieldType::Int32),
        ("requiresSpellFocus", FieldType::Int32),
        ("casterAuraStat", FieldType::Int32),
        ("targetAuraState", FieldType::Int32),
        ("castingTimeIndex", FieldType::Int32),
        ("recoveryTime", FieldType::Int32),
        ("categoryRecoveryTime", FieldType::Int32),
        ("interruptFlags", FieldType::Int32),
        ("auraInterruptFlags", FieldType::Int32),
        ("channelInterruptFlags", FieldType::Int32),
        ("procTypeMask", FieldType::Int32),
        ("procChance", FieldType::Int32),
        ("procCharges", FieldType::Int32),
        ("maxLevel", FieldType::Int32),
        ("baseLevel", FieldType::Int32),
        ("spellLevel", FieldType::Int32),
        ("durationIndex", FieldType::Int32),
        ("powerType", FieldType::Int32),
        ("manaCost", FieldType::Int32),
        ("manaPerLevel", FieldType::Int32),
        ("manaPerSecond", FieldType::Int32),
        ("manaPerSecondPerLevel", FieldType::Int32),
        ("rangeIndex", FieldType::Int32),
        ("speed", FieldType::Float32),
        ("modalNextSpell", FieldType::Int32),
        ("stackAmount", FieldType::Int32),
        ("totem_1", FieldType::Int32),
        ("totem_2", FieldType::Int32),
        ("reagent_1", FieldType::Int32),
        ("reagent_2", FieldType::Int32),
        ("reagent_3", FieldType::Int32),
        ("reagent_4", FieldType::Int32),
        ("reagent_5", FieldType::Int32),
        ("reagent_6", FieldType::Int32),
        ("reagent_7", FieldType::Int32),
        ("reagent_8", FieldType::Int32),
        ("reagentCount_1", FieldType::Int32),
        ("reagentCount_2", FieldType::Int32),
        ("reagentCount_3", FieldType::Int32),
        ("reagentCount_4", FieldType::Int32),
        ("reagentCount_5", FieldType::Int32),
        ("reagentCount_6", FieldType::Int32),
        ("reagentCount_7", FieldType::Int32),
        ("reagentCount_8", FieldType::Int32),
        ("equippedItemClass", FieldType::Int32),
        ("equippedItemSubClassMask", FieldType::Int32),
        ("equippedItemInventoryTypeMask", FieldType::Int32),
        ("effect_1", FieldType::Int32),
        ("effect_2", FieldType::Int32),
        ("effect_3", FieldType::Int32),
        ("effectDieSides_1", FieldType::Int32),
        ("effectDieSides_2", FieldType::Int32),
        ("effectDieSides_3", FieldType::Int32),
        ("effectBaseDice_1", FieldType::Int32),
        ("effectBaseDice_2", FieldType::Int32),
        ("effectBaseDice_3", FieldType::Int32),
        ("effectDicePerLevel_1", FieldType::Int32),
        ("effectDicePerLevel_2", FieldType::Int32),
        ("effectDicePerLevel_3", FieldType::Int32),
        ("effectRealPointsPerLevel_1", FieldType::Float32),
        ("effectRealPointsPerLevel_2", FieldType::Float32),
        ("effectRealPointsPerLevel_3", FieldType::Float32),
        ("effectBasePoints_1", FieldType::Int32),
        ("effectBasePoints_2", FieldType::Int32),
        ("effectBasePoints_3", FieldType::Int32),
        ("effectMechanic_1", FieldType::Int32),
        ("effectMechanic_2", FieldType::Int32),
        ("effectMechanic_3", FieldType::Int32),
        ("effectImplicitTargetA_1", FieldType::Int32),
        ("effectImplicitTargetA_2", FieldType::Int32),
        ("effectImplicitTargetA_3", FieldType::Int32),
        ("effectImplicitTargetB_1", FieldType::Int32),
        ("effectImplicitTargetB_2", FieldType::Int32),
        ("effectImplicitTargetB_3", FieldType::Int32),
        ("effectRadiusIndex_1", FieldType::Int32),
        ("effectRadiusIndex_2", FieldType::Int32),
        ("effectRadiusIndex_3", FieldType::Int32),
        ("effectApplyAura_1", FieldType::Int32),
        ("effectApplyAura_2", FieldType::Int32),
        ("effectApplyAura_3", FieldType::Int32),
        ("effectAmplitude_1", FieldType::Int32),
        ("effectAmplitude_2", FieldType::Int32),
        ("effectAmplitude_3", FieldType::Int32),
        ("effectMultipleValue_1", FieldType::Float32),
        ("effectMultipleValue_2", FieldType::Float32),
        ("effectMultipleValue_3", FieldType::Float32),
        ("effectChainTarget_1", FieldType::Int32),
        ("effectChainTarget_2", FieldType::Int32),
        ("effectChainTarget_3", FieldType::Int32),
        ("effectItemType_1", FieldType::Int32),
        ("effectItemType_2", FieldType::Int32),
        ("effectItemType_3", FieldType::Int32),
        ("effectMiscValue_1", FieldType::Int32),
        ("effectMiscValue_2", FieldType::Int32),
        ("effectMiscValue_3", FieldType::Int32),
        ("effectTriggerSpell_1", FieldType::Int32),
        ("effectTriggerSpell_2", FieldType::Int32),
        ("effectTriggerSpell_3", FieldType::Int32),
        ("effectPointsPerCombo_1", FieldType::Float32),
        ("effectPointsPerCombo_2", FieldType::Float32),
        ("effectPointsPerCombo_3", FieldType::Float32),
        ("spellVisualId_1", FieldType::Int32),
        ("spellVisualId_2", FieldType::Int32),
        ("spellIconId", FieldType::Int32),
        ("activeIconId", FieldType::Int32),
        ("spellPriority", FieldType::Int32),
        ("name_enUS", FieldType::String),
        ("name_koKR", FieldType::String),
        ("name_frFR", FieldType::String),
        ("name_deDE", FieldType::String),
        ("name_zhCN", FieldType::String),
        ("name_ruRU", FieldType::String),
        ("name_esES", FieldType::String),
        ("name_ptPT", FieldType::String),
        ("nameMask", FieldType::Int32),
        ("subtext_enUS", FieldType::String),
        ("subtext_koKR", FieldType::String),
        ("subtext_frFR", FieldType::String),
        ("subtext_deDE", FieldType::String),
        ("subtext_zhCN", FieldType::String),
        ("subtext_ruRU", FieldType::String),
        ("subtext_esES", FieldType::String),
        ("subtext_ptPT", FieldType::String),
        ("subtextMask", FieldType::Int32),
        ("description_enUS", FieldType::String),
        ("description_koKR", FieldType::String),
        ("description_frFR", FieldType::String),
        ("description_deDE", FieldType::String),
        ("description_zhCN", FieldType::String),
        ("description_ruRU", FieldType::String),
        ("description_esES", FieldType::String),
        ("description_ptPT", FieldType::String),
        ("descriptionMask", FieldType::Int32),
        ("auraDescription_enUS", FieldType::String),
        ("auraDescription_koKR", FieldType::String),
        ("auraDescription_frFR", FieldType::String),
        ("auraDescription_deDE", FieldType::String),
        ("auraDescription_zhCN", FieldType::String),
        ("auraDescription_ruRU", FieldType::String),
        ("auraDescription_esES", FieldType::String),
        ("auraDescription_ptPT", FieldType::String),
        ("auraDescriptionMask", FieldType::Int32),
        ("manaCostPercentage", FieldType::Int32),
        ("startRecoveryCategory", FieldType::Int32),
        ("startRecoveryTime", FieldType::Int32),
        ("maxTargetLevel", FieldType::Int32),
        ("spellClassSet", FieldType::Int32),
        ("spellClassMask_1", FieldType::Int32),
        ("spellClassMask_2", FieldType::Int32),
        ("maxTargets", FieldType::Int32),
        ("damageType", FieldType::Int32),
        ("preventionType", FieldType::Int32),
        ("stanceBarOrder", FieldType::Int32),
        ("damageMultiplier_1", FieldType::Float32),
        ("damageMultiplier_2", FieldType::Float32),
        ("damageMultiplier_3", FieldType::Float32),
        ("minFactionId", FieldType::Int32),
        ("minReputation", FieldType::Int32),
        ("requiredAuraVision", FieldType::Int32),
    ];
    assert(layout_of(s@) =~= spell_layout());
    s
}

/// Columns of `SpellCastTimes.dbc`, in file order.
pub open spec fn spell_cast_times_layout() -> Seq<(Seq<char>, FieldType)> {
    seq![
        ("id"@, FieldType::Int32),
        ("base"@, FieldType::Int32),
        ("perLevel"@, FieldType::Int32),
        ("minimum"@, FieldType::Int32),
    ]
}

/// Columns of `SpellCastTimes.dbc`.
pub fn spell_cast_times_schema() -> (s: Schema)
    ensures
        layout_of(s@) == spell_cast_times_layout(),
{
    let s = vec![
        ("id", FieldType::Int32),
        ("base", FieldType::Int32),
        ("perLevel", FieldType::Int32),
        ("minimum", FieldType::Int32),
    ];
    assert(layout_of(s@) =~= spell_cast_times_layout());
    s
}

/// Columns of `SpellCategory.dbc`, in file order.
pub open spec fn spell_category_layout() -> Seq<(Seq<char>, FieldType)> {
    seq![
        ("id"@, FieldType::Int32),
        ("flags"@, FieldType::Int32),
    ]
}

/// Columns of `SpellCategory.dbc`.
pub fn spell_category_schema() -> (s: Schema)
    ensures
        layout_of(s@) == spell_category_layout(),
{
    let s = vec![
        ("id", FieldType::Int32),
        ("flags", FieldType::Int32),
    ];
    assert(layout_of(s@) =~= spell_category_layout());
    s
}

/// Columns of `SpellDispelType.dbc`, in file order.
pub open spec fn spell_dispel_type_layout() -> Seq<(Seq<char>, FieldType)> {
    seq![
        ("id"@, FieldType::Int32),
        ("name_enUS"@, FieldType::String),
        ("name_koKR"@, FieldType::String),
        ("name_frFR"@, FieldType::String),
        ("name_deDE"@, FieldType::String),
        ("name_zhCN"@, FieldType::String),
        ("name_ruRU"@, FieldType::String),
        ("name_esES"@, FieldType::String),
        ("name_ptPT"@, FieldType::String),
        ("nameMask"@, FieldType::Int32),
        ("showOnAuraTooltip"@, FieldType::Int32),
        ("internalName"@, FieldType::String),
    ]
}

/// Columns of `SpellDispelType.dbc`.
pub fn spell_dispel_type_schema() -> (s: Schema)
    ensures
        layout_of(s@) == spell_dispel_type_layout(),
{
    let s = vec![
        ("id", FieldType::Int32),
        ("name_enUS", FieldType::String),
        ("name_koKR", FieldType::String),
        ("name_frFR", FieldType::String),
        ("name_deDE", FieldType::String),
        ("name_zhCN", FieldType::String),
        ("name_ruRU", FieldType::String),
        ("name_esES", FieldType::String),
        ("name_ptPT", FieldType::String),
        ("nameMask", FieldType::Int32),
        ("showOnAuraTooltip", FieldType::Int32),
        ("internalName", FieldType::String),
    ];
    assert(layout_of(s@) =~= spell_dispel_type_layout());
    s
}

/// Columns of `SpellDuration.dbc`, in file order.
pub open spec fn spell_duration_layout() -> Seq<(Seq<char>, FieldType)> {
    seq![
        ("id"@, FieldType::Int32),
        ("base"@, FieldType::Int32),
        ("perLevel"@, FieldType::Int32),
        ("max"@, FieldType::Int32),
    ]
}

/// Columns of `SpellDuration.dbc`.
pub fn spell_duration_schema() -> (s: Schema)
    ensures
        layout_of(s@) == spell_duration_layout(),
{
    let s = vec![
        ("id", FieldType::Int32),
        ("base", FieldType::Int32),
        ("perLevel", FieldType::Int32),
        ("max", FieldType::Int32),
    ];
    assert(layout_of(s@) =~= spell_duration_layout());
    s
}

/// Columns of `SpellIcon.dbc`, in file order.
pub open spec fn spell_icon_layout() -> Seq<(Seq<char>, FieldType)> {
    seq![
        ("id"@, FieldType::Int32),
        ("texture"@, FieldType::String),
    ]
}

/// Columns of `SpellIcon.dbc`.
pub fn spell_icon_schema() -> (s: Schema)
    ensures
        layout_of(s@) == spell_icon_layout(),
{
    let s = vec![
        ("id", FieldType::Int32),
        ("texture", FieldType::String),
    ];
    assert(layout_of(s@) =~= spell_icon_layout());
    s
}

/// Columns of `SpellItemEnchantment.dbc`, in file order.
pub open spec fn spell_item_enchantment_layout() -> Seq<(Seq<char>, FieldType)> {
    seq![
        ("id"@, FieldType::Int32),
        ("effect_1"@, FieldType::Int32),
        ("effect_2"@, FieldType::Int32),
        ("effect_3"@, FieldType::Int32),
        ("pointsMin_1"@, FieldType::Int32),
        ("pointsMin_2"@, FieldType::Int32),
        ("pointsMin_3"@, FieldType::Int32),
        ("pointsMax_1"@, FieldType::Int32),
        ("pointsMax_2"@, FieldType::Int32),
        ("pointsMax_3"@, FieldType::Int32),
        ("effectArg_1"@, FieldType::Int32),
        ("effectArg_2"@, FieldType::Int32),
        ("effectArg_3"@, FieldType::Int32),
        ("name_enUS"@, FieldType::String),
        ("name_koKR"@, FieldType::String),
        ("name_frFR"@, FieldType::String),
        ("name_deDE"@, FieldType::String),
        ("name_zhCN"@, FieldType::String),
        ("name_ruRU"@, FieldType::String),
        ("name_esES"@, FieldType::String),
        ("name_ptPT"@, FieldType::String),
        ("nameMask"@, FieldType::Int32),
        ("itemVisual"@, FieldType::Int32),
        ("flags"@, FieldType::Int32),
    ]
}

/// Columns of `SpellItemEnchantment.dbc`.
pub fn spell_item_enchantment_schema() -> (s: Schema)
    ensures
        layout_of(s@) == spell_item_enchantment_layout(),
{
    let s = vec![
        ("id", FieldType::Int32),
        ("effect_1", FieldType::Int32),
        ("effect_2", FieldType::Int32),
        ("effect_3", FieldType::Int32),
        ("pointsMin_1", FieldType::Int32),
        ("pointsMin_2", FieldType::Int32),
        ("pointsMin_3", FieldType::Int32),
        ("pointsMax_1", FieldType::Int32),
        ("pointsMax_2", FieldType::Int32),
        ("pointsMax_3", FieldType::Int32),
        ("effectArg_1", FieldType::Int32),
        ("effectArg_2", FieldType::Int32),
        ("effectArg_3", FieldType::Int32),
        ("name_enUS", FieldType::String),
        ("name_koKR", FieldType::String),
        ("name_frFR", FieldType::String),
        ("name_deDE", FieldType::String),
        ("name_zhCN", FieldType::String),
        ("name_ruRU", FieldType::String),
        ("name_esES", FieldType::String),
        ("name_ptPT", FieldType::String),
        ("nameMask", FieldType::Int32),
        ("itemVisual", FieldType::Int32),
        ("flags", FieldType::Int32),
    ];
    assert(layout_of(s@) =~= spell_item_enchantment_layout());
    s
}

/// Columns of `SpellMechanic.dbc`, in file order.
pub open spec fn spell_mechanic_layout() -> Seq<(Seq<char>, FieldType)> {
    seq![
        ("id"@, FieldType::Int32),
        ("unknown"@, FieldType::Int32),
    ]
}

/// Columns of `SpellMechanic.dbc`.
pub fn spell_mechanic_schema() -> (s: Schema)
    ensures
        layout_of(s@) == spell_mechanic_layout(),
{
    let s = vec![
        ("id", FieldType::Int32),
        ("unknown", FieldType::Int32),
    ];
    assert(layout_of(s@) =~= spell_mechanic_layout());
    s
}

/// Columns of `SpellRadius.dbc`, in file order.
pub open spec fn spell_radius_layout() -> Seq<(Seq<char>, FieldType)> {
    seq![
        ("id"@, FieldType::Int32),
        ("radius"@, FieldType::Float32),
        ("radiusPerLevel"@, FieldType::Int32),
        ("radiusMax"@, FieldType::Int32),
    ]
}

/// Columns of `SpellRadius.dbc`.
pub fn spell_radius_schema() -> (s: Schema)
    ensures
        layout_of(s@) == spell_radius_layout(),
{
    let s = vec![
        ("id", FieldType::Int32),
        ("radius", FieldType::Float32),
        ("radiusPerLevel", FieldType::Int32),
        ("radiusMax", FieldType::Int32),
    ];
    assert(layout_of(s@) =~= spell_radius_layout());
    s
}

/// Columns of `SpellRange.dbc`, in file order.
pub open spec fn spell_range_layout() -> Seq<(Seq<char>, FieldType)> {
    seq![
        ("id"@, FieldType::Int32),
        ("rangeMin"@, FieldType::Float32),
        ("rangeMax"@, FieldType::Float32),
        ("flags"@, FieldType::Int32),
        ("name_enUS"@, FieldType::String),
        ("name_koKR"@, FieldType::String),
        ("name_frFR"@, FieldType::String),
        ("name_deDE"@, FieldType::String),
        ("name_zhCN"@, FieldType::String),
        ("name_ruRU"@, FieldType::String),
        ("name_esES"@, FieldType::String),
        ("name_ptPT"@, FieldType::String),
        ("nameMask"@, FieldType::Int32),
        ("shortName_enUS"@, FieldType::String),
        ("shortName_koKR"@, FieldType::String),
        ("shortName_frFR"@, FieldType::String),
        ("shortName_deDE"@, FieldType::String),
        ("shortName_zhCN"@, FieldType::String),
        ("shortName_ruRU"@, FieldType::String),
        ("shortName_esES"@, FieldType::String),
        ("shortName_ptPT"@, FieldType::String),
        ("shortNameMask"@, FieldType::Int32),
    ]
}

/// Columns of `SpellRange.dbc`.
pub fn spell_range_schema() -> (s: Schema)
    ensures
        layout_of(s@) == spell_range_layout(),
{
    let s = vec![
        ("id", FieldType::Int32),
        ("rangeMin", FieldType::Float32),
        ("rangeMax", FieldType::Float32),
        ("flags", FieldType::Int32),
        ("name_enUS", FieldType::String),
        ("name_koKR", FieldType::String),
        ("name_frFR", FieldType::String),
        ("name_deDE", FieldType::String),
        ("name_zhCN", FieldType::String),
        ("name_ruRU", FieldType::String),
        ("name_esES", FieldType::String),
        ("name_ptPT", FieldType::String),
        ("nameMask", FieldType::Int32),
        ("shortName_enUS", FieldType::String),
        ("shortName_koKR", FieldType::String),
        ("shortName_frFR", FieldType::String),
        ("shortName_deDE", FieldType::String),
        ("shortName_zhCN", FieldType::String),
        ("shortName_ruRU", FieldType::String),
        ("shortName_esES", FieldType::String),
        ("shortName_ptPT", FieldType::String),
        ("shortNameMask", FieldType::Int32),
    ];
    assert(layout_of(s@) =~= spell_range_layout());
    s
}

/// Columns of `SpellShapeshiftForm.dbc`, in file order.
pub open spec fn spell_shapeshift_form_layout() -> Seq<(Seq<char>, FieldType)> {
    seq![
        ("id"@, FieldType::Int32),
        ("bonusActionBar"@, FieldType::Int32),
        ("name_enUS"@, FieldType::String),
        ("name_koKR"@, FieldType::String),
        ("name_frFR"@, FieldType::String),
        ("name_deDE"@, FieldType::String),
        ("name_zhCN"@, FieldType::String),
        ("name_ruRU"@, FieldType::String),
        ("name_esES"@, FieldType::String),
        ("name_ptPT"@, FieldType::String),
        ("nameMask"@, FieldType::Int32),
        ("flags"@, FieldType::Int32),
        ("creatureType"@, FieldType::Int32),
        ("combatRoundTime"@, FieldType::Int32),
    ]
}

/// Columns of `SpellShapeshiftForm.dbc`.
pub fn spell_shapeshift_form_schema() -> (s: Schema)
    ensures
        layout_of(s@) == spell_shapeshift_form_layout(),
{
    let s = vec![
        ("id", FieldType::Int32),
        ("bonusActionBar", FieldType::Int32),
        ("name_enUS", FieldType::String),
        ("name_koKR", FieldType::String),
        ("name_frFR", FieldType::String),
        ("name_deDE", FieldType::String),
        ("name_zhCN", FieldType::String),
        ("name_ruRU", FieldType::String),
        ("name_esES", FieldType::String),
        ("name_ptPT", FieldType::String),
        ("nameMask", FieldType::Int32),
        ("flags", FieldType::Int32),
        ("creatureType", FieldType::Int32),
        ("combatRoundTime", FieldType::Int32),
    ];
    assert(layout_of(s@) =~= spell_shapeshift_form_layout());
    s
}

/// Columns of `Talent.dbc`, in file order.
pub open spec fn talent_layout() -> Seq<(Seq<char>, FieldType)> {
    seq![
        ("id"@, FieldType::Int32),
        ("specId"@, FieldType::Int32),
        ("row"@, FieldType::Int32),
        ("col"@, FieldType::Int32),
        ("spellRank_1"@, FieldType::Int32),
        ("spellRank_2"@, FieldType::Int32),
        ("spellRank_3"@, FieldType::Int32),
        ("spellRank_4"@, FieldType::Int32),
        ("spellRank_5"@, FieldType::Int32),
        ("spellRank_6"@, FieldType::Int32),
        ("spellRank_7"@, FieldType::Int32),
        ("spellRank_8"@, FieldType::Int32),
        ("spellRank_9"@, FieldType::Int32),
        ("prerequisiteTalent_1"@, FieldType::Int32),
        ("prerequisiteTalent_2"@, FieldType::Int32),
        ("prerequisiteTalent_3"@, FieldType::Int32),
        ("prerequisiteRank_1"@, FieldType::Int32),
        ("prerequisiteRank_2"@, FieldType::Int32),
        ("prerequisiteRank_3"@, FieldType::Int32),
        ("flags"@, FieldType::Int32),
        ("requiredSpellId"@, FieldType::Int32),
    ]
}

/// Columns of `Talent.dbc`.
pub fn talent_schema() -> (s: Schema)
    ensures
        layout_of(s@) == talent_layout(),
{
    let s = vec![
        ("id", FieldType::Int32),
        ("specId", FieldType::Int32),
        ("row", FieldType::Int32),
        ("col", FieldType::Int32),
        ("spellRank_1", FieldType::Int32),
        ("spellRank_2", FieldType::Int32),
        ("spellRank_3", FieldType::Int32),
        ("spellRank_4", FieldType::Int32),
        ("spellRank_5", FieldType::Int32),
        ("spellRank_6", FieldType::Int32),
        ("spellRank_7", FieldType::Int32),
        ("spellRank_8", FieldType::Int32),
        ("spellRank_9", FieldType::Int32),
        ("prerequisiteTalent_1", FieldType::Int32),
        ("prerequisiteTalent_2", FieldType::Int32),
        ("prerequisiteTalent_3", FieldType::Int32),
        ("prerequisiteRank_1", FieldType::Int32),
        ("prerequisiteRank_2", FieldType::Int32),
        ("prerequisiteRank_3", FieldType::Int32),
        ("flags", FieldType::Int32),
        ("requiredSpellId", FieldType::Int32),
    ];
    assert(layout_of(s@) =~= talent_layout());
    s
}

/// Columns of `TalentTab.dbc`, in file order.
pub open spec fn talent_tab_layout() -> Seq<(Seq<char>, FieldType)> {
    seq![
        ("id"@, FieldType::Int32),
        ("name_enUS"@, FieldType::String),
        ("name_koKR"@, FieldType::String),
        ("name_frFR"@, FieldType::String),
        ("name_deDE"@, FieldType::String),
        ("name_zhCN"@, FieldType::String),
        ("name_ruRU"@, FieldType::String),
        ("name_esES"@, FieldType::String),
        ("name_ptPT"@, FieldType::String),
        ("nameMask"@, FieldType::Int32),
        ("spellIconId"@, FieldType::Int32),
        ("raceMask"@, FieldType::Int32),
        ("classMask"@, FieldType::Int32),
        ("orderIndex"@, FieldType::Int32),
        ("background"@, FieldType::String),
    ]
}

/// Columns of `TalentTab.dbc`.
pub fn talent_tab_schema() -> (s: Schema)
    ensures
        layout_of(s@) == talent_tab_layout(),
{
    let s = vec![
        ("id", FieldType::Int32),
        ("name_enUS", FieldType::String),
        ("name_koKR", FieldType::String),
        ("name_frFR", FieldType::String),
        ("name_deDE", FieldType::String),
        ("name_zhCN", FieldType::String),
        ("name_ruRU", FieldType::String),
        ("name_esES", FieldType::String),
        ("name_ptPT", FieldType::String),
        ("nameMask", FieldType::Int32),
        ("spellIconId", FieldType::Int32),
        ("raceMask", FieldType::Int32),
        ("classMask", FieldType::Int32),
        ("orderIndex", FieldType::Int32),
        ("background", FieldType::String),
    ];
    assert(layout_of(s@) =~= talent_tab_layout());
    s
}

/// Columns of `TaxiNodes.dbc`, in file order.
pub open spec fn taxi_nodes_layout() -> Seq<(Seq<char>, FieldType)> {
    seq![
        ("id"@, FieldType::Int32),
        ("mapId"@, FieldType::Int32),
        ("x"@, FieldType::Float32),
        ("y"@, FieldType::Float32),
        ("z"@, FieldType::Float32),
        ("name_enUS"@, FieldType::String),
        ("name_koKR"@, FieldType::String),
        ("name_frFR"@, FieldType::String),
        ("name_deDE"@, FieldType::String),
        ("name_zhCN"@, FieldType::String),
        ("name_ruRU"@, FieldType::String),
        ("name_esES"@, FieldType::String),
        ("name_ptPT"@, FieldType::String),
        ("nameMask"@, FieldType::Int32),
        ("mountCreatureId_1"@, FieldType::Int32),
        ("mountCreatureId_2"@, FieldType::Int32),
    ]
}

/// Columns of `TaxiNodes.dbc`.
pub fn taxi_nodes_schema() -> (s: Schema)
    ensures
        layout_of(s@) == taxi_nodes_layout(),
{
    let s = vec![
        ("id", FieldType::Int32),
        ("mapId", FieldType::Int32),
        ("x", FieldType::Float32),
        ("y", FieldType::Float32),
        ("z", FieldType::Float32),
        ("name_enUS", FieldType::String),
        ("name_koKR", FieldType::String),
        ("name_frFR", FieldType::String),
        ("name_deDE", FieldType::String),
        ("name_zhCN", FieldType::String),
        ("name_ruRU", FieldType::String),
        ("name_esES", FieldType::String),
        ("name_ptPT", FieldType::String),
        ("nameMask", FieldType::Int32),
        ("mountCreatureId_1", FieldType::Int32),
        ("mountCreatureId_2", FieldType::Int32),
    ];
    assert(layout_of(s@) =~= taxi_nodes_layout());
    s
}

/// Columns of `TaxiPath.dbc`, in file order.
pub open spec fn taxi_path_layout() -> Seq<(Seq<char>, FieldType)> {
    seq![
        ("id"@, FieldType::Int32),
        ("fromNode"@, FieldType::Int32),
        ("toNode"@, FieldType::Int32),
        ("cost"@, FieldType::Int32),
    ]
}

/// Columns of `TaxiPath.dbc`.
pub fn taxi_path_schema() -> (s: Schema)
    ensures
        layout_of(s@) == taxi_path_layout(),
{
    let s = vec![
        ("id", FieldType::Int32),
        ("fromNode", FieldType::Int32),
        ("toNode", FieldType::Int32),
        ("cost", FieldType::Int32),
    ];
    assert(layout_of(s@) =~= taxi_path_layout());
    s
}

/// Columns of `TaxiPathNode.dbc`, in file order.
pub open spec fn taxi_path_node_layout() -> Seq<(Seq<char>, FieldType)> {
    seq![
        ("id"@, FieldType::Int32),
        ("pathId"@, FieldType::Int32),
        ("nodeIndex"@, FieldType::Int32),
        ("mapId"@, FieldType::Int32),
        ("x"@, FieldType::Float32),
        ("y"@, FieldType::Float32),
        ("z"@, FieldType::Float32),
        ("flags"@, FieldType::Int32),
        ("delay"@, FieldType::Int32),
    ]
}

/// Columns of `TaxiPathNode.dbc`.
pub fn taxi_path_node_schema() -> (s: Schema)
    ensures
        layout_of(s@) == taxi_path_node_layout(),
{
    let s = vec![
        ("id", FieldType::Int32),
        ("pathId", FieldType::Int32),
        ("nodeIndex", FieldType::Int32),
        ("mapId", FieldType::Int32),
        ("x", FieldType::Float32),
        ("y", FieldType::Float32),
        ("z", FieldType::Float32),
        ("flags", FieldType::Int32),
        ("delay", FieldType::Int32),
    ];
    assert(layout_of(s@) =~= taxi_path_node_layout());
    s
}

/// Columns of `WorldMapArea.dbc`, in file order.
pub open spec fn world_map_area_layout() -> Seq<(Seq<char>, FieldType)> {
    seq![
        ("id"@, FieldType::Int32),
        ("mapId"@, FieldType::Int32),
        ("areaId"@, FieldType::Int32),
        ("name"@, FieldType::String),
        ("locLeft"@, FieldType::Float32),
        ("locRight"@, FieldType::Float32),
        ("locTop"@, FieldType::Float32),
        ("locBottom"@, FieldType::Float32),
    ]
}

/// Columns of `WorldMapArea.dbc`.
pub fn world_map_area_schema() -> (s: Schema)
    ensures
        layout_of(s@) == world_map_area_layout(),
{
    let s = vec![
        ("id", FieldType::Int32),
        ("mapId", FieldType::Int32),
        ("areaId", FieldType::Int32),
        ("name", FieldType::String),
        ("locLeft", FieldType::Float32),
        ("locRight", FieldType::Float32),
        ("locTop", FieldType::Float32),
        ("locBottom", FieldType::Float32),
    ];
    assert(layout_of(s@) =~= world_map_area_layout());
    s
}

/// Columns of `WorldSafeLocs.dbc`, in file order.
pub open spec fn world_safe_locs_layout() -> Seq<(Seq<char>, FieldType)> {
    seq![
        ("id"@, FieldType::Int32),
        ("mapId"@, FieldType::Int32),
        ("x"@, FieldType::Float32),
        ("y"@, FieldType::Float32),
        ("z"@, FieldType::Float32),
        ("name_enUS"@, FieldType::String),
        ("name_koKR"@, FieldType::String),
        ("name_frFR"@, FieldType::String),
        ("name_deDE"@, FieldType::String),
        ("name_zhCN"@, FieldType::String),
        ("name_ruRU"@, FieldType::String),
        ("name_esES"@, FieldType::String),
        ("name_ptPT"@, FieldType::String),
        ("nameMask"@, FieldType::Int32),
    ]
}

/// Columns of `WorldSafeLocs.dbc`.
pub fn world_safe_locs_schema() -> (s: Schema)
    ensures
        layout_of(s@) == world_safe_locs_layout(),
{
    let s = vec![
        ("id", FieldType::Int32),
        ("mapId", FieldType::Int32),
        ("x", FieldType::Float32),
        ("y", FieldType::Float32),
        ("z", FieldType::Float32),
        ("name_enUS", FieldType::String),
        ("name_koKR", FieldType::String),
        ("name_frFR", FieldType::String),
        ("name_deDE", FieldType::String),
        ("name_zhCN", FieldType::String),
        ("name_ruRU", FieldType::String),
        ("name_esES", FieldType::String),
        ("name_ptPT", FieldType::String),
        ("nameMask", FieldType::Int32),
    ];
    assert(layout_of(s@) =~= world_safe_locs_layout());
    s
}

/// The names of the tables the registry knows, in registry order.
pub open spec fn known_dbc_names() -> Seq<Seq<char>> {
    seq![
        "AreaTable"@,
        "AreaTrigger"@,
        "CharStartOutfit"@,
        "ChrClasses"@,
        "ChrRaces"@,
        "CreatureFamily"@,
        "CreatureType"@,
        "Faction"@,
        "FactionTemplate"@,
        "ItemBagFamily"@,
        "ItemClass"@,
        "ItemDisplayInfo"@,
        "ItemRandomProperties"@,
        "ItemSet"@,
        "ItemSubClass"@,
        "LFGDungeons"@,
        "Lock"@,
        "LockType"@,
        "MailTemplate"@,
        "Map"@,
        "QuestInfo"@,
        "QuestSort"@,
        "SkillLine"@,
        "SkillLineAbility"@,
        "SkillLineCategory"@,
        "Spell"@,
        "SpellCastTimes"@,
        "SpellCategory"@,
        "SpellDispelType"@,
        "SpellDuration"@,
        "SpellIcon"@,
        "SpellItemEnchantment"@,
        "SpellMechanic"@,
        "SpellRadius"@,
        "SpellRange"@,
        "SpellShapeshiftForm"@,
        "Talent"@,
        "TalentTab"@,
        "TaxiNodes"@,
        "TaxiPath"@,
        "TaxiPathNode"@,
        "WorldMapArea"@,
        "WorldSafeLocs"@,
    ]
}

/// The layout of each known table, in registry order.
pub open spec fn known_layouts() -> Seq<Seq<(Seq<char>, FieldType)>> {
    seq![
        area_table_layout(),
        area_trigger_layout(),
        char_start_outfit_layout(),
        chr_classes_layout(),
        chr_races_layout(),
        creature_family_layout(),
        creature_type_layout(),
        faction_layout(),
        faction_template_layout(),
        item_bag_family_layout(),
        item_class_layout(),
        item_display_info_layout(),
        item_random_properties_layout(),
        item_set_layout(),
        item_sub_class_layout(),
        lfg_dungeons_layout(),
        lock_layout(),
        lock_type_layout(),
        mail_template_layout(),
        map_layout(),
        quest_info_layout(),
        quest_sort_layout(),
        skill_line_layout(),
        skill_line_ability_layout(),
        skill_line_category_layout(),
        spell_layout(),
        spell_cast_times_layout(),
        spell_category_layout(),
        spell_dispel_type_layout(),
        spell_duration_layout(),
        spell_icon_layout(),
        spell_item_enchantment_layout(),
        spell_mechanic_layout(),
        spell_radius_layout(),
        spell_range_layout(),
        spell_shapeshift_form_layout(),
        talent_layout(),
        talent_tab_layout(),
        taxi_nodes_layout(),
        taxi_path_layout(),
        taxi_path_node_layout(),
        world_map_area_layout(),
        world_safe_locs_layout(),
    ]
}

/// Number of known tables.
pub const KNOWN_DBC_COUNT: usize = 43;

/// Position of `ItemSubClass` in [`known_dbc_names`]: its rows are keyed by
/// class and subclass together.
pub const ITEM_SUB_CLASS_INDEX: usize = 14;

/// The position of the table called `name`, if it is known.
pub open spec fn dbc_index(name: Seq<char>) -> Option<int> {
    known_dbc_names().index_of_first(name)
}

/// Every known layout has at least one column, and its first column is an
/// `Int32` (the row identifier, or `ItemSubClass`'s class id).
pub proof fn lemma_layouts_start_with_int_id()
    ensures
        forall|i: int|
            0 <= i < known_layouts().len() ==> (#[trigger] known_layouts()[i]).len() >= 1
                && known_layouts()[i][0].1 == FieldType::Int32,
{
}

/// Every known table name with its layout.
pub struct SchemaRegistry {
    entries: Vec<(&'static str, Schema)>,
}

impl SchemaRegistry {
    /// The registered table names, in order.
    pub closed spec fn names(&self) -> Seq<Seq<char>> {
        Seq::new(self.entries@.len(), |i: int| self.entries@[i].0@)
    }

    /// The layout registered at position `i`.
    pub closed spec fn schema(&self, i: int) -> Schema {
        self.entries@[i].1
    }

    #[verifier::type_invariant]
    spec fn inv(&self) -> bool {
        &&& self.names() == known_dbc_names()
        &&& forall|i: int|
            0 <= i < known_dbc_names().len() ==> layout_of((#[trigger] self.schema(i))@)
                == known_layouts()[i]
    }

    /// Number of registered tables.
    pub fn len(&self) -> (n: usize)
        ensures
            n == known_dbc_names().len(),
    {
        proof {
            use_type_invariant(self);
        }
        self.entries.len()
    }

    /// The name registered at position `i`.
    pub fn name_at(&self, i: usize) -> (r: &'static str)
        requires
            i < known_dbc_names().len(),
        ensures
            r@ == known_dbc_names()[i as int],
    {
        proof {
            use_type_invariant(self);
            assert(self.names()[i as int] == self.entries@[i as int].0@);
        }
        self.entries[i].0
    }

    /// The layout registered at position `i`.
    pub fn schema_at(&self, i: usize) -> (r: &Schema)
        requires
            i < known_dbc_names().len(),
        ensures
            *r == self.schema(i as int),
            layout_of(r@) == known_layouts()[i as int],
    {
        proof {
            use_type_invariant(self);
            assert(layout_of(self.schema(i as int)@) == known_layouts()[i as int]);
        }
        &self.entries[i].1
    }

    /// The position of the table called `name`.
    pub fn index_of(&self, name: &str) -> (r: Option<usize>)
        ensures
            match dbc_index(name@) {
                Some(i) => r == Some(i as usize),
                None => r is None,
            },
    {
        proof {
            use_type_invariant(self);
        }
        let mut i: usize = 0;
        while i < self.entries.len()
            invariant
                self.names() == known_dbc_names(),
                i <= self.entries@.len(),
                forall|k: int| 0 <= k < i ==> known_dbc_names()[k] != name@,
            decreases self.entries@.len() - i,
        {
            assert(self.names()[i as int] == self.entries@[i as int].0@);
            if crate::text::str_eq(self.entries[i].0, name) {
                proof {
                    known_dbc_names().index_of_first_ensures(name@);
                }
                return Some(i);
            }
            i = i + 1;
        }
        proof {
            known_dbc_names().index_of_first_ensures(name@);
        }
        None
    }
}

/// Builds the registry of every known table and its layout.
pub fn init_schema_registry() -> (r: SchemaRegistry)
    ensures
        r.names() == known_dbc_names(),
        forall|i: int|
            0 <= i < known_dbc_names().len() ==> layout_of((#[trigger] r.schema(i))@)
                == known_layouts()[i],
{
    let entries = vec![
        ("AreaTable", area_table_schema()),
        ("AreaTrigger", area_trigger_schema()),
        ("CharStartOutfit", char_start_outfit_schema()),
        ("ChrClasses", chr_classes_schema()),
        ("ChrRaces", chr_races_schema()),
        ("CreatureFamily", creature_family_schema()),
        ("CreatureType", creature_type_schema()),
        ("Faction", faction_schema()),
        ("FactionTemplate", faction_template_schema()),
        ("ItemBagFamily", item_bag_family_schema()),
        ("ItemClass", item_class_schema()),
        ("ItemDisplayInfo", item_display_info_schema()),
        ("ItemRandomProperties", item_random_properties_schema()),
        ("ItemSet", item_set_schema()),
        ("ItemSubClass", item_sub_class_schema()),
        ("LFGDungeons", lfg_dungeons_schema()),
        ("Lock", lock_schema()),
        ("LockType", lock_type_schema()),
        ("MailTemplate", mail_template_schema()),
        ("Map", map_schema()),
        ("QuestInfo", quest_info_schema()),
        ("QuestSort", quest_sort_schema()),
        ("SkillLine", skill_line_schema()),
        ("SkillLineAbility", skill_line_ability_schema()),
        ("SkillLineCategory", skill_line_category_schema()),
        ("Spell", spell_schema()),
        ("SpellCastTimes", spell_cast_times_schema()),
        ("SpellCategory", spell_category_schema()),
        ("SpellDispelType", spell_dispel_type_schema()),
        ("SpellDuration", spell_duration_schema()),
        ("SpellIcon", spell_icon_schema()),
        ("SpellItemEnchantment", spell_item_enchantment_schema()),
        ("SpellMechanic", spell_mechanic_schema()),
        ("SpellRadius", spell_radius_schema()),
        ("SpellRange", spell_range_schema()),
        ("SpellShapeshiftForm", spell_shapeshift_form_schema()),
        ("Talent", talent_schema()),
        ("TalentTab", talent_tab_schema()),
        ("TaxiNodes", taxi_nodes_schema()),
        ("TaxiPath", taxi_path_schema()),
        ("TaxiPathNode", taxi_path_node_schema()),
        ("WorldMapArea", world_map_area_schema()),
        ("WorldSafeLocs", world_safe_locs_schema()),
    ];
    assert(Seq::new(entries@.len(), |i: int| entries@[i].0@) =~= known_dbc_names());
    SchemaRegistry { entries }
}

/// The layout of the table called `name`, if it is known.
pub fn get_schema<'a>(registry: &'a SchemaRegistry, name: &str) -> (r: Option<&'a Schema>)
    ensures
        match dbc_index(name@) {
            Some(i) => r == Some(&registry.schema(i)) && layout_of(registry.schema(i)@)
                == known_layouts()[i],
            None => r is None,
        },
{
    proof {
        use_type_invariant(registry);
        known_dbc_names().index_of_first_ensures(name@);
    }
    match registry.index_of(name) {
        Some(i) => Some(registry.schema_at(i)),
        None => None,
    }
}

} // verus!
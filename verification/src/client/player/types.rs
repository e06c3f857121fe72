//! Player attributes and the update-field tables of objects, units and players.

use vstd::prelude::*;

verus! {

/// A player the client knows of: the current character or another player nearby.
#[derive(Clone, Debug)]
pub struct Player {
    pub guid: u64,
    pub name: String,
    pub race: u8,
    pub class: u8,
    pub gender: u8,
    pub level: u8,
}

/// The mathematical value of a player.
pub struct PlayerView {
    pub guid: u64,
    pub name: Seq<char>,
    pub race: u8,
    pub class: u8,
    pub gender: u8,
    pub level: u8,
}

impl View for Player {
    type V = PlayerView;

    open spec fn view(&self) -> PlayerView {
        PlayerView {
            guid: self.guid,
            name: self.name@,
            race: self.race,
            class: self.class,
            gender: self.gender,
            level: self.level,
        }
    }
}

impl Player {
    /// A copy of the player.
    pub fn duplicate(&self) -> (r: Player)
        ensures
            r@ == self@,
    {
        Player {
            guid: self.guid,
            name: self.name.clone(),
            race: self.race,
            class: self.class,
            gender: self.gender,
            level: self.level,
        }
    }

    pub fn new(guid: u64, name: String, race: u8, class: u8, gender: u8, level: u8) -> (player: Self)
        ensures
            player.guid == guid,
            player.name@ == name@,
            player.race == race,
            player.class == class,
            player.gender == gender,
            player.level == level,
    {
        Player { guid, name, race, class, gender, level }
    }
}

#[non_exhaustive]
pub struct Gender;

impl Gender {
    pub const GENDER_MALE: u8 = 0;
    pub const GENDER_FEMALE: u8 = 1;
    pub const GENDER_NONE: u8 = 2;
}

#[non_exhaustive]
pub struct Race;

impl Race {
    pub const HUMAN: u8 = 1;
    pub const ORC: u8 = 2;
    pub const DWARF: u8 = 3;
    pub const NIGHTELF: u8 = 4;
    pub const UNDEAD: u8 = 5;
    pub const TAUREN: u8 = 6;
    pub const GNOME: u8 = 7;
    pub const TROLL: u8 = 8;
    pub const GOBLIN: u8 = 9;
    pub const BLOODELF: u8 = 10;
    pub const DRAENEI: u8 = 11;
    pub const FEL_ORC: u8 = 12;
    pub const NAGA: u8 = 13;
    pub const BROKEN: u8 = 14;
    pub const SKELETON: u8 = 15;
    pub const VRYKUL: u8 = 16;
    pub const TUSKARR: u8 = 17;
    pub const FOREST_TROLL: u8 = 18;
    pub const TAUNKA: u8 = 19;
    pub const NORTHREND_SKELETON: u8 = 20;
    pub const ICE_TROLL: u8 = 21;
}

#[non_exhaustive]
pub struct Class;

impl Class {
    pub const WARRIOR: u8 = 1;
    pub const PALADIN: u8 = 2;
    pub const HUNTER: u8 = 3;
    pub const ROGUE: u8 = 4;
    pub const PRIEST: u8 = 5;
    pub const DEATH_KNIGHT: u8 = 6;
    pub const SHAMAN: u8 = 7;
    pub const MAGE: u8 = 8;
    pub const WARLOCK: u8 = 9;
    pub const DRUID: u8 = 11;
}

/// The kind of value an update field holds.
#[derive(PartialEq, Eq, Structural, Clone, Copy, Debug)]
pub enum FieldType {
    INT,
    LONG,
    FLOAT,
    NONE,
}

/// The kind of value stored at an index of the object update fields.
pub open spec fn object_field_type(field_index: u32) -> FieldType {
    if field_index == ObjectField::GUID {
        FieldType::LONG
    } else if field_index == ObjectField::TYPE {
        FieldType::INT
    } else if field_index == ObjectField::ENTRY {
        FieldType::INT
    } else if field_index == ObjectField::SCALE_X {
        FieldType::FLOAT
    } else {
        FieldType::NONE
    }
}

/// The printable name of an index of the object update fields; empty for an unnamed index.
pub open spec fn object_field_name(field_index: u32) -> Seq<char> {
    if field_index == ObjectField::GUID {
        "ObjectField::GUID"@
    } else if field_index == ObjectField::TYPE {
        "ObjectField::TYPE"@
    } else if field_index == ObjectField::ENTRY {
        "ObjectField::ENTRY"@
    } else if field_index == ObjectField::SCALE_X {
        "ObjectField::SCALE_X"@
    } else {
        Seq::empty()
    }
}

#[non_exhaustive]
pub struct ObjectField;

impl ObjectField {
    pub const GUID: u32 = 0;
    pub const TYPE: u32 = 2;
    pub const ENTRY: u32 = 3;
    pub const SCALE_X: u32 = 4;
    pub const LIMIT: u32 = 5;

    pub fn get_field_type(field_index: u32) -> (field_type: FieldType)
        ensures
            field_type == object_field_type(field_index),
    {
        if field_index == ObjectField::GUID {
            FieldType::LONG
        } else if field_index == ObjectField::TYPE {
            FieldType::INT
        } else if field_index == ObjectField::ENTRY {
            FieldType::INT
        } else if field_index == ObjectField::SCALE_X {
            FieldType::FLOAT
        } else {
            FieldType::NONE
        }
    }

    pub fn get_field_name(field_index: u32) -> (name: String)
        ensures
            name@ == object_field_name(field_index),
    {
        if field_index == ObjectField::GUID {
            "ObjectField::GUID".to_string()
        } else if field_index == ObjectField::TYPE {
            "ObjectField::TYPE".to_string()
        } else if field_index == ObjectField::ENTRY {
            "ObjectField::ENTRY".to_string()
        } else if field_index == ObjectField::SCALE_X {
            "ObjectField::SCALE_X".to_string()
        } else {
            String::new()
        }
    }
}

/// The kind of value stored at an index of the unit update fields.
pub open spec fn unit_field_type(field_index: u32) -> FieldType {
    if field_index == UnitField::CHARM {
        FieldType::LONG
    } else if field_index == UnitField::SUMMON {
        FieldType::LONG
    } else if field_index == UnitField::CRITTER {
        FieldType::LONG
    } else if field_index == UnitField::CHARMEDBY {
        FieldType::LONG
    } else if field_index == UnitField::SUMMONEDBY {
        FieldType::LONG
    } else if field_index == UnitField::CREATEDBY {
        FieldType::LONG
    } else if field_index == UnitField::TARGET {
        FieldType::LONG
    } else if field_index == UnitField::CHANNEL_OBJECT {
        FieldType::LONG
    } else if field_index == UnitField::CHANNEL_SPELL {
        FieldType::INT
    } else if field_index == UnitField::BYTES_0 {
        FieldType::INT
    } else if field_index == UnitField::HEALTH {
        FieldType::INT
    } else if field_index == UnitField::POWER1 {
        FieldType::INT
    } else if field_index == UnitField::POWER2 {
        FieldType::INT
    } else if field_index == UnitField::POWER3 {
        FieldType::INT
    } else if field_index == UnitField::POWER4 {
        FieldType::INT
    } else if field_index == UnitField::POWER5 {
        FieldType::INT
    } else if field_index == UnitField::POWER6 {
        FieldType::INT
    } else if field_index == UnitField::POWER7 {
        FieldType::INT
    } else if field_index == UnitField::MAXHEALTH {
        FieldType::INT
    } else if field_index == UnitField::MAXPOWER1 {
        FieldType::INT
    } else if field_index == UnitField::MAXPOWER2 {
        FieldType::INT
    } else if field_index == UnitField::MAXPOWER3 {
        FieldType::INT
    } else if field_index == UnitField::MAXPOWER4 {
        FieldType::INT
    } else if field_index == UnitField::MAXPOWER5 {
        FieldType::INT
    } else if field_index == UnitField::MAXPOWER6 {
        FieldType::INT
    } else if field_index == UnitField::MAXPOWER7 {
        FieldType::INT
    } else if field_index == UnitField::POWER_REGEN_FLAT_MODIFIER {
        FieldType::FLOAT
    } else if field_index == UnitField::POWER_REGEN_INTERRUPTED_FLAT_MODIFIER {
        FieldType::FLOAT
    } else if field_index == UnitField::LEVEL {
        FieldType::INT
    } else if field_index == UnitField::FACTIONTEMPLATE {
        FieldType::INT
    } else if field_index == UnitField::VIRTUAL_ITEM_SLOT_ID1 {
        FieldType::INT
    } else if field_index == UnitField::VIRTUAL_ITEM_SLOT_ID2 {
        FieldType::INT
    } else if field_index == UnitField::VIRTUAL_ITEM_SLOT_ID3 {
        FieldType::INT
    } else if field_index == UnitField::FLAGS {
        FieldType::INT
    } else if field_index == UnitField::FLAGS_2 {
        FieldType::INT
    } else if field_index == UnitField::AURASTATE {
        FieldType::INT
    } else if field_index == UnitField::BASEATTACKTIME {
        FieldType::INT
    } else if field_index == UnitField::UNK63 {
        FieldType::INT
    } else if field_index == UnitField::RANGEDATTACKTIME {
        FieldType::INT
    } else if field_index == UnitField::BOUNDINGRADIUS {
        FieldType::FLOAT
    } else if field_index == UnitField::COMBATREACH {
        FieldType::FLOAT
    } else if field_index == UnitField::DISPLAYID {
        FieldType::INT
    } else if field_index == UnitField::NATIVEDISPLAYID {
        FieldType::INT
    } else if field_index == UnitField::MOUNTDISPLAYID {
        FieldType::INT
    } else if field_index == UnitField::MINDAMAGE {
        FieldType::FLOAT
    } else if field_index == UnitField::MAXDAMAGE {
        FieldType::FLOAT
    } else if field_index == UnitField::MINOFFHANDDAMAGE {
        FieldType::FLOAT
    } else if field_index == UnitField::MAXOFFHANDDAMAGE {
        FieldType::FLOAT
    } else if field_index == UnitField::BYTES_1 {
        FieldType::INT
    } else if field_index == UnitField::PETNUMBER {
        FieldType::INT
    } else if field_index == UnitField::PET_NAME_TIMESTAMP {
        FieldType::INT
    } else if field_index == UnitField::PETEXPERIENCE {
        FieldType::INT
    } else if field_index == UnitField::PETNEXTLEVELEXP {
        FieldType::INT
    } else if field_index == UnitField::DYNAMIC_FLAGS {
        FieldType::INT
    } else if field_index == UnitField::MOD_CAST_SPEED {
        FieldType::FLOAT
    } else if field_index == UnitField::CREATED_BY_SPELL {
        FieldType::INT
    } else if field_index == UnitField::NPC_FLAGS {
        FieldType::INT
    } else if field_index == UnitField::NPC_EMOTESTATE {
        FieldType::INT
    } else if field_index == UnitField::STAT0 {
        FieldType::INT
    } else if field_index == UnitField::STAT1 {
        FieldType::INT
    } else if field_index == UnitField::STAT2 {
        FieldType::INT
    } else if field_index == UnitField::STAT3 {
        FieldType::INT
    } else if field_index == UnitField::STAT4 {
        FieldType::INT
    } else if field_index == UnitField::POSSTAT0 {
        FieldType::INT
    } else if field_index == UnitField::POSSTAT1 {
        FieldType::INT
    } else if field_index == UnitField::POSSTAT2 {
        FieldType::INT
    } else if field_index == UnitField::POSSTAT3 {
        FieldType::INT
    } else if field_index == UnitField::POSSTAT4 {
        FieldType::INT
    } else if field_index == UnitField::NEGSTAT0 {
        FieldType::INT
    } else if field_index == UnitField::NEGSTAT1 {
        FieldType::INT
    } else if field_index == UnitField::NEGSTAT2 {
        FieldType::INT
    } else if field_index == UnitField::NEGSTAT3 {
        FieldType::INT
    } else if field_index == UnitField::NEGSTAT4 {
        FieldType::INT
    } else if field_index == UnitField::RESISTANCES_ARMOR {
        FieldType::INT
    } else if field_index == UnitField::RESISTANCES_HOLY {
        FieldType::INT
    } else if field_index == UnitField::RESISTANCES_FIRE {
        FieldType::INT
    } else if field_index == UnitField::RESISTANCES_NATURE {
        FieldType::INT
    } else if field_index == UnitField::RESISTANCES_FROST {
        FieldType::INT
    } else if field_index == UnitField::RESISTANCES_SHADOW {
        FieldType::INT
    } else if field_index == UnitField::RESISTANCES_ARCANE {
        FieldType::INT
    } else if field_index == UnitField::RESISTANCEBUFFMODSPOSITIVE_ARMOR {
        FieldType::INT
    } else if field_index == UnitField::RESISTANCEBUFFMODSPOSITIVE_HOLY {
        FieldType::INT
    } else if field_index == UnitField::RESISTANCEBUFFMODSPOSITIVE_FIRE {
        FieldType::INT
    } else if field_index == UnitField::RESISTANCEBUFFMODSPOSITIVE_NATURE {
        FieldType::INT
    } else if field_index == UnitField::RESISTANCEBUFFMODSPOSITIVE_FROST {
        FieldType::INT
    } else if field_index == UnitField::RESISTANCEBUFFMODSPOSITIVE_SHADOW {
        FieldType::INT
    } else if field_index == UnitField::RESISTANCEBUFFMODSPOSITIVE_ARCANE {
        FieldType::INT
    } else if field_index == UnitField::RESISTANCEBUFFMODSNEGATIVE_ARMOR {
        FieldType::INT
    } else if field_index == UnitField::RESISTANCEBUFFMODSNEGATIVE_HOLY {
        FieldType::INT
    } else if field_index == UnitField::RESISTANCEBUFFMODSNEGATIVE_FIRE {
        FieldType::INT
    } else if field_index == UnitField::RESISTANCEBUFFMODSNEGATIVE_NATURE {
        FieldType::INT
    } else if field_index == UnitField::RESISTANCEBUFFMODSNEGATIVE_FROST {
        FieldType::INT
    } else if field_index == UnitField::RESISTANCEBUFFMODSNEGATIVE_SHADOW {
        FieldType::INT
    } else if field_index == UnitField::RESISTANCEBUFFMODSNEGATIVE_ARCANE {
        FieldType::INT
    } else if field_index == UnitField::BASE_MANA {
        FieldType::INT
    } else if field_index == UnitField::BASE_HEALTH {
        FieldType::INT
    } else if field_index == UnitField::BYTES_2 {
        FieldType::INT
    } else if field_index == UnitField::ATTACK_POWER {
        FieldType::INT
    } else if field_index == UnitField::ATTACK_POWER_MODS {
        FieldType::INT
    } else if field_index == UnitField::ATTACK_POWER_MULTIPLIER {
        FieldType::FLOAT
    } else if field_index == UnitField::RANGED_ATTACK_POWER {
        FieldType::INT
    } else if field_index == UnitField::RANGED_ATTACK_POWER_MODS {
        FieldType::INT
    } else if field_index == UnitField::RANGED_ATTACK_POWER_MULTIPLIER {
        FieldType::FLOAT
    } else if field_index == UnitField::MINRANGEDDAMAGE {
        FieldType::FLOAT
    } else if field_index == UnitField::MAXRANGEDDAMAGE {
        FieldType::FLOAT
    } else if field_index == UnitField::POWER_COST_MODIFIER {
        FieldType::INT
    } else if field_index == UnitField::POWER_COST_MULTIPLIER1 {
        FieldType::FLOAT
    } else if field_index == UnitField::POWER_COST_MULTIPLIER2 {
        FieldType::FLOAT
    } else if field_index == UnitField::POWER_COST_MULTIPLIER3 {
        FieldType::FLOAT
    } else if field_index == UnitField::POWER_COST_MULTIPLIER4 {
        FieldType::FLOAT
    } else if field_index == UnitField::POWER_COST_MULTIPLIER5 {
        FieldType::FLOAT
    } else if field_index == UnitField::POWER_COST_MULTIPLIER6 {
        FieldType::FLOAT
    } else if field_index == UnitField::POWER_COST_MULTIPLIER7 {
        FieldType::FLOAT
    } else if field_index == UnitField::MAXHEALTHMODIFIER {
        FieldType::FLOAT
    } else if field_index == UnitField::HOVERHEIGHT {
        FieldType::FLOAT
    } else {
        FieldType::NONE
    }
}

/// The printable name of an index of the unit update fields; empty for an unnamed index.
pub open spec fn unit_field_name(field_index: u32) -> Seq<char> {
    if field_index == UnitField::CHARM {
        "UnitField::CHARM"@
    } else if field_index == UnitField::SUMMON {
        "UnitField::SUMMON"@
    } else if field_index == UnitField::CRITTER {
        "UnitField::CRITTER"@
    } else if field_index == UnitField::CHARMEDBY {
        "UnitField::CHARMEDBY"@
    } else if field_index == UnitField::SUMMONEDBY {
        "UnitField::SUMMONEDBY"@
    } else if field_index == UnitField::CREATEDBY {
        "UnitField::CREATEDBY"@
    } else if field_index == UnitField::TARGET {
        "UnitField::TARGET"@
    } else if field_index == UnitField::CHANNEL_OBJECT {
        "UnitField::CHANNEL_OBJECT"@
    } else if field_index == UnitField::CHANNEL_SPELL {
        "UnitField::CHANNEL_SPELL"@
    } else if field_index == UnitField::BYTES_0 {
        "UnitField::BYTES_0"@
    } else if field_index == UnitField::HEALTH {
        "UnitField::HEALTH"@
    } else if field_index == UnitField::POWER1 {
        "UnitField::POWER1"@
    } else if field_index == UnitField::POWER2 {
        "UnitField::POWER2"@
    } else if field_index == UnitField::POWER3 {
        "UnitField::POWER3"@
    } else if field_index == UnitField::POWER4 {
        "UnitField::POWER4"@
    } else if field_index == UnitField::POWER5 {
        "UnitField::POWER5"@
    } else if field_index == UnitField::POWER6 {
        "UnitField::POWER6"@
    } else if field_index == UnitField::POWER7 {
        "UnitField::POWER7"@
    } else if field_index == UnitField::MAXHEALTH {
        "UnitField::MAXHEALTH"@
    } else if field_index == UnitField::MAXPOWER1 {
        "UnitField::MAXPOWER1"@
    } else if field_index == UnitField::MAXPOWER2 {
        "UnitField::MAXPOWER2"@
    } else if field_index == UnitField::MAXPOWER3 {
        "UnitField::MAXPOWER3"@
    } else if field_index == UnitField::MAXPOWER4 {
        "UnitField::MAXPOWER4"@
    } else if field_index == UnitField::MAXPOWER5 {
        "UnitField::MAXPOWER5"@
    } else if field_index == UnitField::MAXPOWER6 {
        "UnitField::MAXPOWER6"@
    } else if field_index == UnitField::MAXPOWER7 {
        "UnitField::MAXPOWER7"@
    } else if field_index == UnitField::POWER_REGEN_FLAT_MODIFIER {
        "UnitField::POWER_REGEN_FLAT_MODIFIER"@
    } else if field_index == UnitField::POWER_REGEN_INTERRUPTED_FLAT_MODIFIER {
        "UnitField::POWER_REGEN_INTERRUPTED_FLAT_MODIFIER"@
    } else if field_index == UnitField::LEVEL {
        "UnitField::LEVEL"@
    } else if field_index == UnitField::FACTIONTEMPLATE {
        "UnitField::FACTIONTEMPLATE"@
    } else if field_index == UnitField::VIRTUAL_ITEM_SLOT_ID1 {
        "UnitField::VIRTUAL_ITEM_SLOT_ID1"@
    } else if field_index == UnitField::VIRTUAL_ITEM_SLOT_ID2 {
        "UnitField::VIRTUAL_ITEM_SLOT_ID2"@
    } else if field_index == UnitField::VIRTUAL_ITEM_SLOT_ID3 {
        "UnitField::VIRTUAL_ITEM_SLOT_ID3"@
    } else if field_index == UnitField::FLAGS {
        "UnitField::FLAGS"@
    } else if field_index == UnitField::FLAGS_2 {
        "UnitField::FLAGS_2"@
    } else if field_index == UnitField::AURASTATE {
        "UnitField::AURASTATE"@
    } else if field_index == UnitField::BASEATTACKTIME {
        "UnitField::BASEATTACKTIME"@
    } else if field_index == UnitField::UNK63 {
        "UnitField::UNK63"@
    } else if field_index == UnitField::RANGEDATTACKTIME {
        "UnitField::RANGEDATTACKTIME"@
    } else if field_index == UnitField::BOUNDINGRADIUS {
        "UnitField::BOUNDINGRADIUS"@
    } else if field_index == UnitField::COMBATREACH {
        "UnitField::COMBATREACH"@
    } else if field_index == UnitField::DISPLAYID {
        "UnitField::DISPLAYID"@
    } else if field_index == UnitField::NATIVEDISPLAYID {
        "UnitField::NATIVEDISPLAYID"@
    } else if field_index == UnitField::MOUNTDISPLAYID {
        "UnitField::MOUNTDISPLAYID"@
    } else if field_index == UnitField::MINDAMAGE {
        "UnitField::MINDAMAGE"@
    } else if field_index == UnitField::MAXDAMAGE {
        "UnitField::MAXDAMAGE"@
    } else if field_index == UnitField::MINOFFHANDDAMAGE {
        "UnitField::MINOFFHANDDAMAGE"@
    } else if field_index == UnitField::MAXOFFHANDDAMAGE {
        "UnitField::MAXOFFHANDDAMAGE"@
    } else if field_index == UnitField::BYTES_1 {
        "UnitField::BYTES_1"@
    } else if field_index == UnitField::PETNUMBER {
        "UnitField::PETNUMBER"@
    } else if field_index == UnitField::PET_NAME_TIMESTAMP {
        "UnitField::PET_NAME_TIMESTAMP"@
    } else if field_index == UnitField::PETEXPERIENCE {
        "UnitField::PETEXPERIENCE"@
    } else if field_index == UnitField::PETNEXTLEVELEXP {
        "UnitField::PETNEXTLEVELEXP"@
    } else if field_index == UnitField::DYNAMIC_FLAGS {
        "UnitField::DYNAMIC_FLAGS"@
    } else if field_index == UnitField::MOD_CAST_SPEED {
        "UnitField::MOD_CAST_SPEED"@
    } else if field_index == UnitField::CREATED_BY_SPELL {
        "UnitField::CREATED_BY_SPELL"@
    } else if field_index == UnitField::NPC_FLAGS {
        "UnitField::NPC_FLAGS"@
    } else if field_index == UnitField::NPC_EMOTESTATE {
        "UnitField::NPC_EMOTESTATE"@
    } else if field_index == UnitField::STAT0 {
        "UnitField::STAT0"@
    } else if field_index == UnitField::STAT1 {
        "UnitField::STAT1"@
    } else if field_index == UnitField::STAT2 {
        "UnitField::STAT2"@
    } else if field_index == UnitField::STAT3 {
        "UnitField::STAT3"@
    } else if field_index == UnitField::STAT4 {
        "UnitField::STAT4"@
    } else if field_index == UnitField::POSSTAT0 {
        "UnitField::POSSTAT0"@
    } else if field_index == UnitField::POSSTAT1 {
        "UnitField::POSSTAT1"@
    } else if field_index == UnitField::POSSTAT2 {
        "UnitField::POSSTAT2"@
    } else if field_index == UnitField::POSSTAT3 {
        "UnitField::POSSTAT3"@
    } else if field_index == UnitField::POSSTAT4 {
        "UnitField::POSSTAT4"@
    } else if field_index == UnitField::NEGSTAT0 {
        "UnitField::NEGSTAT0"@
    } else if field_index == UnitField::NEGSTAT1 {
        "UnitField::NEGSTAT1"@
    } else if field_index == UnitField::NEGSTAT2 {
        "UnitField::NEGSTAT2"@
    } else if field_index == UnitField::NEGSTAT3 {
        "UnitField::NEGSTAT3"@
    } else if field_index == UnitField::NEGSTAT4 {
        "UnitField::NEGSTAT4"@
    } else if field_index == UnitField::RESISTANCES_ARMOR {
        "UnitField::RESISTANCES_ARMOR"@
    } else if field_index == UnitField::RESISTANCES_HOLY {
        "UnitField::RESISTANCES_HOLY"@
    } else if field_index == UnitField::RESISTANCES_FIRE {
        "UnitField::RESISTANCES_FIRE"@
    } else if field_index == UnitField::RESISTANCES_NATURE {
        "UnitField::RESISTANCES_NATURE"@
    } else if field_index == UnitField::RESISTANCES_FROST {
        "UnitField::RESISTANCES_FROST"@
    } else if field_index == UnitField::RESISTANCES_SHADOW {
        "UnitField::RESISTANCES_SHADOW"@
    } else if field_index == UnitField::RESISTANCES_ARCANE {
        "UnitField::RESISTANCES_ARCANE"@
    } else if field_index == UnitField::RESISTANCEBUFFMODSPOSITIVE_ARMOR {
        "UnitField::RESISTANCEBUFFMODSPOSITIVE_ARMOR"@
    } else if field_index == UnitField::RESISTANCEBUFFMODSPOSITIVE_HOLY {
        "UnitField::RESISTANCEBUFFMODSPOSITIVE_HOLY"@
    } else if field_index == UnitField::RESISTANCEBUFFMODSPOSITIVE_FIRE {
        "UnitField::RESISTANCEBUFFMODSPOSITIVE_FIRE"@
    } else if field_index == UnitField::RESISTANCEBUFFMODSPOSITIVE_NATURE {
        "UnitField::RESISTANCEBUFFMODSPOSITIVE_NATURE"@
    } else if field_index == UnitField::RESISTANCEBUFFMODSPOSITIVE_FROST {
        "UnitField::RESISTANCEBUFFMODSPOSITIVE_FROST"@
    } else if field_index == UnitField::RESISTANCEBUFFMODSPOSITIVE_SHADOW {
        "UnitField::RESISTANCEBUFFMODSPOSITIVE_SHADOW"@
    } else if field_index == UnitField::RESISTANCEBUFFMODSPOSITIVE_ARCANE {
        "UnitField::RESISTANCEBUFFMODSPOSITIVE_ARCANE"@
    } else if field_index == UnitField::RESISTANCEBUFFMODSNEGATIVE_ARMOR {
        "UnitField::RESISTANCEBUFFMODSNEGATIVE_ARMOR"@
    } else if field_index == UnitField::RESISTANCEBUFFMODSNEGATIVE_HOLY {
        "UnitField::RESISTANCEBUFFMODSNEGATIVE_HOLY"@
    } else if field_index == UnitField::RESISTANCEBUFFMODSNEGATIVE_FIRE {
        "UnitField::RESISTANCEBUFFMODSNEGATIVE_FIRE"@
    } else if field_index == UnitField::RESISTANCEBUFFMODSNEGATIVE_NATURE {
        "UnitField::RESISTANCEBUFFMODSNEGATIVE_NATURE"@
    } else if field_index == UnitField::RESISTANCEBUFFMODSNEGATIVE_FROST {
        "UnitField::RESISTANCEBUFFMODSNEGATIVE_FROST"@
    } else if field_index == UnitField::RESISTANCEBUFFMODSNEGATIVE_SHADOW {
        "UnitField::RESISTANCEBUFFMODSNEGATIVE_SHADOW"@
    } else if field_index == UnitField::RESISTANCEBUFFMODSNEGATIVE_ARCANE {
        "UnitField::RESISTANCEBUFFMODSNEGATIVE_ARCANE"@
    } else if field_index == UnitField::BASE_MANA {
        "UnitField::BASE_MANA"@
    } else if field_index == UnitField::BASE_HEALTH {
        "UnitField::BASE_HEALTH"@
    } else if field_index == UnitField::BYTES_2 {
        "UnitField::BYTES_2"@
    } else if field_index == UnitField::ATTACK_POWER {
        "UnitField::ATTACK_POWER"@
    } else if field_index == UnitField::ATTACK_POWER_MODS {
        "UnitField::ATTACK_POWER_MODS"@
    } else if field_index == UnitField::ATTACK_POWER_MULTIPLIER {
        "UnitField::ATTACK_POWER_MULTIPLIER"@
    } else if field_index == UnitField::RANGED_ATTACK_POWER {
        "UnitField::RANGED_ATTACK_POWER"@
    } else if field_index == UnitField::RANGED_ATTACK_POWER_MODS {
        "UnitField::RANGED_ATTACK_POWER_MODS"@
    } else if field_index == UnitField::RANGED_ATTACK_POWER_MULTIPLIER {
        "UnitField::RANGED_ATTACK_POWER_MULTIPLIER"@
    } else if field_index == UnitField::MINRANGEDDAMAGE {
        "UnitField::MINRANGEDDAMAGE"@
    } else if field_index == UnitField::MAXRANGEDDAMAGE {
        "UnitField::MAXRANGEDDAMAGE"@
    } else if field_index == UnitField::POWER_COST_MODIFIER {
        "UnitField::POWER_COST_MODIFIER"@
    } else if field_index == UnitField::POWER_COST_MULTIPLIER1 {
        "UnitField::POWER_COST_MULTIPLIER1"@
    } else if field_index == UnitField::POWER_COST_MULTIPLIER2 {
        "UnitField::POWER_COST_MULTIPLIER2"@
    } else if field_index == UnitField::POWER_COST_MULTIPLIER3 {
        "UnitField::POWER_COST_MULTIPLIER3"@
    } else if field_index == UnitField::POWER_COST_MULTIPLIER4 {
        "UnitField::POWER_COST_MULTIPLIER4"@
    } else if field_index == UnitField::POWER_COST_MULTIPLIER5 {
        "UnitField::POWER_COST_MULTIPLIER5"@
    } else if field_index == UnitField::POWER_COST_MULTIPLIER6 {
        "UnitField::POWER_COST_MULTIPLIER6"@
    } else if field_index == UnitField::POWER_COST_MULTIPLIER7 {
        "UnitField::POWER_COST_MULTIPLIER7"@
    } else if field_index == UnitField::MAXHEALTHMODIFIER {
        "UnitField::MAXHEALTHMODIFIER"@
    } else if field_index == UnitField::HOVERHEIGHT {
        "UnitField::HOVERHEIGHT"@
    } else {
        Seq::empty()
    }
}

pub struct UnitField;

impl UnitField {
    pub const CHARM: u32 = 6;
    pub const SUMMON: u32 = 8;
    pub const CRITTER: u32 = 10;
    pub const CHARMEDBY: u32 = 12;
    pub const SUMMONEDBY: u32 = 14;
    pub const CREATEDBY: u32 = 16;
    pub const TARGET: u32 = 18;
    pub const CHANNEL_OBJECT: u32 = 20;
    pub const CHANNEL_SPELL: u32 = 22;
    pub const BYTES_0: u32 = 23;
    pub const HEALTH: u32 = 24;
    pub const POWER1: u32 = 25;
    pub const POWER2: u32 = 26;
    pub const POWER3: u32 = 27;
    pub const POWER4: u32 = 28;
    pub const POWER5: u32 = 29;
    pub const POWER6: u32 = 30;
    pub const POWER7: u32 = 31;
    pub const MAXHEALTH: u32 = 32;
    pub const MAXPOWER1: u32 = 33;
    pub const MAXPOWER2: u32 = 34;
    pub const MAXPOWER3: u32 = 35;
    pub const MAXPOWER4: u32 = 36;
    pub const MAXPOWER5: u32 = 37;
    pub const MAXPOWER6: u32 = 38;
    pub const MAXPOWER7: u32 = 39;
    pub const POWER_REGEN_FLAT_MODIFIER: u32 = 40;
    pub const POWER_REGEN_INTERRUPTED_FLAT_MODIFIER: u32 = 47;
    pub const LEVEL: u32 = 54;
    pub const FACTIONTEMPLATE: u32 = 55;
    pub const VIRTUAL_ITEM_SLOT_ID1: u32 = 56;
    pub const VIRTUAL_ITEM_SLOT_ID2: u32 = 57;
    pub const VIRTUAL_ITEM_SLOT_ID3: u32 = 58;
    pub const FLAGS: u32 = 59;
    pub const FLAGS_2: u32 = 60;
    pub const AURASTATE: u32 = 61;
    pub const BASEATTACKTIME: u32 = 62;
    pub const UNK63: u32 = 63;
    pub const RANGEDATTACKTIME: u32 = 64;
    pub const BOUNDINGRADIUS: u32 = 65;
    pub const COMBATREACH: u32 = 66;
    pub const DISPLAYID: u32 = 67;
    pub const NATIVEDISPLAYID: u32 = 68;
    pub const MOUNTDISPLAYID: u32 = 69;
    pub const MINDAMAGE: u32 = 70;
    pub const MAXDAMAGE: u32 = 71;
    pub const MINOFFHANDDAMAGE: u32 = 72;
    pub const MAXOFFHANDDAMAGE: u32 = 73;
    pub const BYTES_1: u32 = 74;
    pub const PETNUMBER: u32 = 75;
    pub const PET_NAME_TIMESTAMP: u32 = 76;
    pub const PETEXPERIENCE: u32 = 77;
    pub const PETNEXTLEVELEXP: u32 = 78;
    pub const DYNAMIC_FLAGS: u32 = 79;
    pub const MOD_CAST_SPEED: u32 = 80;
    pub const CREATED_BY_SPELL: u32 = 81;
    pub const NPC_FLAGS: u32 = 82;
    pub const NPC_EMOTESTATE: u32 = 83;
    pub const STAT0: u32 = 84;
    pub const STAT1: u32 = 85;
    pub const STAT2: u32 = 86;
    pub const STAT3: u32 = 87;
    pub const STAT4: u32 = 88;
    pub const POSSTAT0: u32 = 89;
    pub const POSSTAT1: u32 = 90;
    pub const POSSTAT2: u32 = 91;
    pub const POSSTAT3: u32 = 92;
    pub const POSSTAT4: u32 = 93;
    pub const NEGSTAT0: u32 = 94;
    pub const NEGSTAT1: u32 = 95;
    pub const NEGSTAT2: u32 = 96;
    pub const NEGSTAT3: u32 = 97;
    pub const NEGSTAT4: u32 = 98;
    pub const RESISTANCES_ARMOR: u32 = 99;
    pub const RESISTANCES_HOLY: u32 = 100;
    pub const RESISTANCES_FIRE: u32 = 101;
    pub const RESISTANCES_NATURE: u32 = 102;
    pub const RESISTANCES_FROST: u32 = 103;
    pub const RESISTANCES_SHADOW: u32 = 104;
    pub const RESISTANCES_ARCANE: u32 = 105;
    pub const RESISTANCEBUFFMODSPOSITIVE_ARMOR: u32 = 106;
    pub const RESISTANCEBUFFMODSPOSITIVE_HOLY: u32 = 107;
    pub const RESISTANCEBUFFMODSPOSITIVE_FIRE: u32 = 108;
    pub const RESISTANCEBUFFMODSPOSITIVE_NATURE: u32 = 109;
    pub const RESISTANCEBUFFMODSPOSITIVE_FROST: u32 = 110;
    pub const RESISTANCEBUFFMODSPOSITIVE_SHADOW: u32 = 111;
    pub const RESISTANCEBUFFMODSPOSITIVE_ARCANE: u32 = 112;
    pub const RESISTANCEBUFFMODSNEGATIVE_ARMOR: u32 = 113;
    pub const RESISTANCEBUFFMODSNEGATIVE_HOLY: u32 = 114;
    pub const RESISTANCEBUFFMODSNEGATIVE_FIRE: u32 = 115;
    pub const RESISTANCEBUFFMODSNEGATIVE_NATURE: u32 = 116;
    pub const RESISTANCEBUFFMODSNEGATIVE_FROST: u32 = 117;
    pub const RESISTANCEBUFFMODSNEGATIVE_SHADOW: u32 = 118;
    pub const RESISTANCEBUFFMODSNEGATIVE_ARCANE: u32 = 119;
    pub const BASE_MANA: u32 = 120;
    pub const BASE_HEALTH: u32 = 121;
    pub const BYTES_2: u32 = 122;
    pub const ATTACK_POWER: u32 = 123;
    pub const ATTACK_POWER_MODS: u32 = 124;
    pub const ATTACK_POWER_MULTIPLIER: u32 = 125;
    pub const RANGED_ATTACK_POWER: u32 = 126;
    pub const RANGED_ATTACK_POWER_MODS: u32 = 127;
    pub const RANGED_ATTACK_POWER_MULTIPLIER: u32 = 128;
    pub const MINRANGEDDAMAGE: u32 = 129;
    pub const MAXRANGEDDAMAGE: u32 = 130;
    pub const POWER_COST_MODIFIER: u32 = 131;
    pub const POWER_COST_MULTIPLIER1: u32 = 138;
    pub const POWER_COST_MULTIPLIER2: u32 = 139;
    pub const POWER_COST_MULTIPLIER3: u32 = 140;
    pub const POWER_COST_MULTIPLIER4: u32 = 141;
    pub const POWER_COST_MULTIPLIER5: u32 = 142;
    pub const POWER_COST_MULTIPLIER6: u32 = 143;
    pub const POWER_COST_MULTIPLIER7: u32 = 144;
    pub const MAXHEALTHMODIFIER: u32 = 145;
    pub const HOVERHEIGHT: u32 = 146;
    pub const LIMIT: u32 = 147;

    pub fn get_field_type(field_index: u32) -> (field_type: FieldType)
        ensures
            field_type == unit_field_type(field_index),
    {
        if field_index == UnitField::CHARM {
            FieldType::LONG
        } else if field_index == UnitField::SUMMON {
            FieldType::LONG
        } else if field_index == UnitField::CRITTER {
            FieldType::LONG
        } else if field_index == UnitField::CHARMEDBY {
            FieldType::LONG
        } else if field_index == UnitField::SUMMONEDBY {
            FieldType::LONG
        } else if field_index == UnitField::CREATEDBY {
            FieldType::LONG
        } else if field_index == UnitField::TARGET {
            FieldType::LONG
        } else if field_index == UnitField::CHANNEL_OBJECT {
            FieldType::LONG
        } else if field_index == UnitField::CHANNEL_SPELL {
            FieldType::INT
        } else if field_index == UnitField::BYTES_0 {
            FieldType::INT
        } else if field_index == UnitField::HEALTH {
            FieldType::INT
        } else if field_index == UnitField::POWER1 {
            FieldType::INT
        } else if field_index == UnitField::POWER2 {
            FieldType::INT
        } else if field_index == UnitField::POWER3 {
            FieldType::INT
        } else if field_index == UnitField::POWER4 {
            FieldType::INT
        } else if field_index == UnitField::POWER5 {
            FieldType::INT
        } else if field_index == UnitField::POWER6 {
            FieldType::INT
        } else if field_index == UnitField::POWER7 {
            FieldType::INT
        } else if field_index == UnitField::MAXHEALTH {
            FieldType::INT
        } else if field_index == UnitField::MAXPOWER1 {
            FieldType::INT
        } else if field_index == UnitField::MAXPOWER2 {
            FieldType::INT
        } else if field_index == UnitField::MAXPOWER3 {
            FieldType::INT
        } else if field_index == UnitField::MAXPOWER4 {
            FieldType::INT
        } else if field_index == UnitField::MAXPOWER5 {
            FieldType::INT
        } else if field_index == UnitField::MAXPOWER6 {
            FieldType::INT
        } else if field_index == UnitField::MAXPOWER7 {
            FieldType::INT
        } else if field_index == UnitField::POWER_REGEN_FLAT_MODIFIER {
            FieldType::FLOAT
        } else if field_index == UnitField::POWER_REGEN_INTERRUPTED_FLAT_MODIFIER {
            FieldType::FLOAT
        } else if field_index == UnitField::LEVEL {
            FieldType::INT
        } else if field_index == UnitField::FACTIONTEMPLATE {
            FieldType::INT
        } else if field_index == UnitField::VIRTUAL_ITEM_SLOT_ID1 {
            FieldType::INT
        } else if field_index == UnitField::VIRTUAL_ITEM_SLOT_ID2 {
            FieldType::INT
        } else if field_index == UnitField::VIRTUAL_ITEM_SLOT_ID3 {
            FieldType::INT
        } else if field_index == UnitField::FLAGS {
            FieldType::INT
        } else if field_index == UnitField::FLAGS_2 {
            FieldType::INT
        } else if field_index == UnitField::AURASTATE {
            FieldType::INT
        } else if field_index == UnitField::BASEATTACKTIME {
            FieldType::INT
        } else if field_index == UnitField::UNK63 {
            FieldType::INT
        } else if field_index == UnitField::RANGEDATTACKTIME {
            FieldType::INT
        } else if field_index == UnitField::BOUNDINGRADIUS {
            FieldType::FLOAT
        } else if field_index == UnitField::COMBATREACH {
            FieldType::FLOAT
        } else if field_index == UnitField::DISPLAYID {
            FieldType::INT
        } else if field_index == UnitField::NATIVEDISPLAYID {
            FieldType::INT
        } else if field_index == UnitField::MOUNTDISPLAYID {
            FieldType::INT
        } else if field_index == UnitField::MINDAMAGE {
            FieldType::FLOAT
        } else if field_index == UnitField::MAXDAMAGE {
            FieldType::FLOAT
        } else if field_index == UnitField::MINOFFHANDDAMAGE {
            FieldType::FLOAT
        } else if field_index == UnitField::MAXOFFHANDDAMAGE {
            FieldType::FLOAT
        } else if field_index == UnitField::BYTES_1 {
            FieldType::INT
        } else if field_index == UnitField::PETNUMBER {
            FieldType::INT
        } else if field_index == UnitField::PET_NAME_TIMESTAMP {
            FieldType::INT
        } else if field_index == UnitField::PETEXPERIENCE {
            FieldType::INT
        } else if field_index == UnitField::PETNEXTLEVELEXP {
            FieldType::INT
        } else if field_index == UnitField::DYNAMIC_FLAGS {
            FieldType::INT
        } else if field_index == UnitField::MOD_CAST_SPEED {
            FieldType::FLOAT
        } else if field_index == UnitField::CREATED_BY_SPELL {
            FieldType::INT
        } else if field_index == UnitField::NPC_FLAGS {
            FieldType::INT
        } else if field_index == UnitField::NPC_EMOTESTATE {
            FieldType::INT
        } else if field_index == UnitField::STAT0 {
            FieldType::INT
        } else if field_index == UnitField::STAT1 {
            FieldType::INT
        } else if field_index == UnitField::STAT2 {
            FieldType::INT
        } else if field_index == UnitField::STAT3 {
            FieldType::INT
        } else if field_index == UnitField::STAT4 {
            FieldType::INT
        } else if field_index == UnitField::POSSTAT0 {
            FieldType::INT
        } else if field_index == UnitField::POSSTAT1 {
            FieldType::INT
        } else if field_index == UnitField::POSSTAT2 {
            FieldType::INT
        } else if field_index == UnitField::POSSTAT3 {
            FieldType::INT
        } else if field_index == UnitField::POSSTAT4 {
            FieldType::INT
        } else if field_index == UnitField::NEGSTAT0 {
            FieldType::INT
        } else if field_index == UnitField::NEGSTAT1 {
            FieldType::INT
        } else if field_index == UnitField::NEGSTAT2 {
            FieldType::INT
        } else if field_index == UnitField::NEGSTAT3 {
            FieldType::INT
        } else if field_index == UnitField::NEGSTAT4 {
            FieldType::INT
        } else if field_index == UnitField::RESISTANCES_ARMOR {
            FieldType::INT
        } else if field_index == UnitField::RESISTANCES_HOLY {
            FieldType::INT
        } else if field_index == UnitField::RESISTANCES_FIRE {
            FieldType::INT
        } else if field_index == UnitField::RESISTANCES_NATURE {
            FieldType::INT
        } else if field_index == UnitField::RESISTANCES_FROST {
            FieldType::INT
        } else if field_index == UnitField::RESISTANCES_SHADOW {
            FieldType::INT
        } else if field_index == UnitField::RESISTANCES_ARCANE {
            FieldType::INT
        } else if field_index == UnitField::RESISTANCEBUFFMODSPOSITIVE_ARMOR {
            FieldType::INT
        } else if field_index == UnitField::RESISTANCEBUFFMODSPOSITIVE_HOLY {
            FieldType::INT
        } else if field_index == UnitField::RESISTANCEBUFFMODSPOSITIVE_FIRE {
            FieldType::INT
        } else if field_index == UnitField::RESISTANCEBUFFMODSPOSITIVE_NATURE {
            FieldType::INT
        } else if field_index == UnitField::RESISTANCEBUFFMODSPOSITIVE_FROST {
            FieldType::INT
        } else if field_index == UnitField::RESISTANCEBUFFMODSPOSITIVE_SHADOW {
            FieldType::INT
        } else if field_index == UnitField::RESISTANCEBUFFMODSPOSITIVE_ARCANE {
            FieldType::INT
        } else if field_index == UnitField::RESISTANCEBUFFMODSNEGATIVE_ARMOR {
            FieldType::INT
        } else if field_index == UnitField::RESISTANCEBUFFMODSNEGATIVE_HOLY {
            FieldType::INT
        } else if field_index == UnitField::RESISTANCEBUFFMODSNEGATIVE_FIRE {
            FieldType::INT
        } else if field_index == UnitField::RESISTANCEBUFFMODSNEGATIVE_NATURE {
            FieldType::INT
        } else if field_index == UnitField::RESISTANCEBUFFMODSNEGATIVE_FROST {
            FieldType::INT
        } else if field_index == UnitField::RESISTANCEBUFFMODSNEGATIVE_SHADOW {
            FieldType::INT
        } else if field_index == UnitField::RESISTANCEBUFFMODSNEGATIVE_ARCANE {
            FieldType::INT
        } else if field_index == UnitField::BASE_MANA {
            FieldType::INT
        } else if field_index == UnitField::BASE_HEALTH {
            FieldType::INT
        } else if field_index == UnitField::BYTES_2 {
            FieldType::INT
        } else if field_index == UnitField::ATTACK_POWER {
            FieldType::INT
        } else if field_index == UnitField::ATTACK_POWER_MODS {
            FieldType::INT
        } else if field_index == UnitField::ATTACK_POWER_MULTIPLIER {
            FieldType::FLOAT
        } else if field_index == UnitField::RANGED_ATTACK_POWER {
            FieldType::INT
        } else if field_index == UnitField::RANGED_ATTACK_POWER_MODS {
            FieldType::INT
        } else if field_index == UnitField::RANGED_ATTACK_POWER_MULTIPLIER {
            FieldType::FLOAT
        } else if field_index == UnitField::MINRANGEDDAMAGE {
            FieldType::FLOAT
        } else if field_index == UnitField::MAXRANGEDDAMAGE {
            FieldType::FLOAT
        } else if field_index == UnitField::POWER_COST_MODIFIER {
            FieldType::INT
        } else if field_index == UnitField::POWER_COST_MULTIPLIER1 {
            FieldType::FLOAT
        } else if field_index == UnitField::POWER_COST_MULTIPLIER2 {
            FieldType::FLOAT
        } else if field_index == UnitField::POWER_COST_MULTIPLIER3 {
            FieldType::FLOAT
        } else if field_index == UnitField::POWER_COST_MULTIPLIER4 {
            FieldType::FLOAT
        } else if field_index == UnitField::POWER_COST_MULTIPLIER5 {
            FieldType::FLOAT
        } else if field_index == UnitField::POWER_COST_MULTIPLIER6 {
            FieldType::FLOAT
        } else if field_index == UnitField::POWER_COST_MULTIPLIER7 {
            FieldType::FLOAT
        } else if field_index == UnitField::MAXHEALTHMODIFIER {
            FieldType::FLOAT
        } else if field_index == UnitField::HOVERHEIGHT {
            FieldType::FLOAT
        } else {
            FieldType::NONE
        }
    }

    pub fn get_field_name(field_index: u32) -> (name: String)
        ensures
            name@ == unit_field_name(field_index),
    {
        if field_index == UnitField::CHARM {
            "UnitField::CHARM".to_string()
        } else if field_index == UnitField::SUMMON {
            "UnitField::SUMMON".to_string()
        } else if field_index == UnitField::CRITTER {
            "UnitField::CRITTER".to_string()
        } else if field_index == UnitField::CHARMEDBY {
            "UnitField::CHARMEDBY".to_string()
        } else if field_index == UnitField::SUMMONEDBY {
            "UnitField::SUMMONEDBY".to_string()
        } else if field_index == UnitField::CREATEDBY {
            "UnitField::CREATEDBY".to_string()
        } else if field_index == UnitField::TARGET {
            "UnitField::TARGET".to_string()
        } else if field_index == UnitField::CHANNEL_OBJECT {
            "UnitField::CHANNEL_OBJECT".to_string()
        } else if field_index == UnitField::CHANNEL_SPELL {
            "UnitField::CHANNEL_SPELL".to_string()
        } else if field_index == UnitField::BYTES_0 {
            "UnitField::BYTES_0".to_string()
        } else if field_index == UnitField::HEALTH {
            "UnitField::HEALTH".to_string()
        } else if field_index == UnitField::POWER1 {
            "UnitField::POWER1".to_string()
        } else if field_index == UnitField::POWER2 {
            "UnitField::POWER2".to_string()
        } else if field_index == UnitField::POWER3 {
            "UnitField::POWER3".to_string()
        } else if field_index == UnitField::POWER4 {
            "UnitField::POWER4".to_string()
        } else if field_index == UnitField::POWER5 {
            "UnitField::POWER5".to_string()
        } else if field_index == UnitField::POWER6 {
            "UnitField::POWER6".to_string()
        } else if field_index == UnitField::POWER7 {
            "UnitField::POWER7".to_string()
        } else if field_index == UnitField::MAXHEALTH {
            "UnitField::MAXHEALTH".to_string()
        } else if field_index == UnitField::MAXPOWER1 {
            "UnitField::MAXPOWER1".to_string()
        } else if field_index == UnitField::MAXPOWER2 {
            "UnitField::MAXPOWER2".to_string()
        } else if field_index == UnitField::MAXPOWER3 {
            "UnitField::MAXPOWER3".to_string()
        } else if field_index == UnitField::MAXPOWER4 {
            "UnitField::MAXPOWER4".to_string()
        } else if field_index == UnitField::MAXPOWER5 {
            "UnitField::MAXPOWER5".to_string()
        } else if field_index == UnitField::MAXPOWER6 {
            "UnitField::MAXPOWER6".to_string()
        } else if field_index == UnitField::MAXPOWER7 {
            "UnitField::MAXPOWER7".to_string()
        } else if field_index == UnitField::POWER_REGEN_FLAT_MODIFIER {
            "UnitField::POWER_REGEN_FLAT_MODIFIER".to_string()
        } else if field_index == UnitField::POWER_REGEN_INTERRUPTED_FLAT_MODIFIER {
            "UnitField::POWER_REGEN_INTERRUPTED_FLAT_MODIFIER".to_string()
        } else if field_index == UnitField::LEVEL {
            "UnitField::LEVEL".to_string()
        } else if field_index == UnitField::FACTIONTEMPLATE {
            "UnitField::FACTIONTEMPLATE".to_string()
        } else if field_index == UnitField::VIRTUAL_ITEM_SLOT_ID1 {
            "UnitField::VIRTUAL_ITEM_SLOT_ID1".to_string()
        } else if field_index == UnitField::VIRTUAL_ITEM_SLOT_ID2 {
            "UnitField::VIRTUAL_ITEM_SLOT_ID2".to_string()
        } else if field_index == UnitField::VIRTUAL_ITEM_SLOT_ID3 {
            "UnitField::VIRTUAL_ITEM_SLOT_ID3".to_string()
        } else if field_index == UnitField::FLAGS {
            "UnitField::FLAGS".to_string()
        } else if field_index == UnitField::FLAGS_2 {
            "UnitField::FLAGS_2".to_string()
        } else if field_index == UnitField::AURASTATE {
            "UnitField::AURASTATE".to_string()
        } else if field_index == UnitField::BASEATTACKTIME {
            "UnitField::BASEATTACKTIME".to_string()
        } else if field_index == UnitField::UNK63 {
            "UnitField::UNK63".to_string()
        } else if field_index == UnitField::RANGEDATTACKTIME {
            "UnitField::RANGEDATTACKTIME".to_string()
        } else if field_index == UnitField::BOUNDINGRADIUS {
            "UnitField::BOUNDINGRADIUS".to_string()
        } else if field_index == UnitField::COMBATREACH {
            "UnitField::COMBATREACH".to_string()
        } else if field_index == UnitField::DISPLAYID {
            "UnitField::DISPLAYID".to_string()
        } else if field_index == UnitField::NATIVEDISPLAYID {
            "UnitField::NATIVEDISPLAYID".to_string()
        } else if field_index == UnitField::MOUNTDISPLAYID {
            "UnitField::MOUNTDISPLAYID".to_string()
        } else if field_index == UnitField::MINDAMAGE {
            "UnitField::MINDAMAGE".to_string()
        } else if field_index == UnitField::MAXDAMAGE {
            "UnitField::MAXDAMAGE".to_string()
        } else if field_index == UnitField::MINOFFHANDDAMAGE {
            "UnitField::MINOFFHANDDAMAGE".to_string()
        } else if field_index == UnitField::MAXOFFHANDDAMAGE {
            "UnitField::MAXOFFHANDDAMAGE".to_string()
        } else if field_index == UnitField::BYTES_1 {
            "UnitField::BYTES_1".to_string()
        } else if field_index == UnitField::PETNUMBER {
            "UnitField::PETNUMBER".to_string()
        } else if field_index == UnitField::PET_NAME_TIMESTAMP {
            "UnitField::PET_NAME_TIMESTAMP".to_string()
        } else if field_index == UnitField::PETEXPERIENCE {
            "UnitField::PETEXPERIENCE".to_string()
        } else if field_index == UnitField::PETNEXTLEVELEXP {
            "UnitField::PETNEXTLEVELEXP".to_string()
        } else if field_index == UnitField::DYNAMIC_FLAGS {
            "UnitField::DYNAMIC_FLAGS".to_string()
        } else if field_index == UnitField::MOD_CAST_SPEED {
            "UnitField::MOD_CAST_SPEED".to_string()
        } else if field_index == UnitField::CREATED_BY_SPELL {
            "UnitField::CREATED_BY_SPELL".to_string()
        } else if field_index == UnitField::NPC_FLAGS {
            "UnitField::NPC_FLAGS".to_string()
        } else if field_index == UnitField::NPC_EMOTESTATE {
            "UnitField::NPC_EMOTESTATE".to_string()
        } else if field_index == UnitField::STAT0 {
            "UnitField::STAT0".to_string()
        } else if field_index == UnitField::STAT1 {
            "UnitField::STAT1".to_string()
        } else if field_index == UnitField::STAT2 {
            "UnitField::STAT2".to_string()
        } else if field_index == UnitField::STAT3 {
            "UnitField::STAT3".to_string()
        } else if field_index == UnitField::STAT4 {
            "UnitField::STAT4".to_string()
        } else if field_index == UnitField::POSSTAT0 {
            "UnitField::POSSTAT0".to_string()
        } else if field_index == UnitField::POSSTAT1 {
            "UnitField::POSSTAT1".to_string()
        } else if field_index == UnitField::POSSTAT2 {
            "UnitField::POSSTAT2".to_string()
        } else if field_index == UnitField::POSSTAT3 {
            "UnitField::POSSTAT3".to_string()
        } else if field_index == UnitField::POSSTAT4 {
            "UnitField::POSSTAT4".to_string()
        } else if field_index == UnitField::NEGSTAT0 {
            "UnitField::NEGSTAT0".to_string()
        } else if field_index == UnitField::NEGSTAT1 {
            "UnitField::NEGSTAT1".to_string()
        } else if field_index == UnitField::NEGSTAT2 {
            "UnitField::NEGSTAT2".to_string()
        } else if field_index == UnitField::NEGSTAT3 {
            "UnitField::NEGSTAT3".to_string()
        } else if field_index == UnitField::NEGSTAT4 {
            "UnitField::NEGSTAT4".to_string()
        } else if field_index == UnitField::RESISTANCES_ARMOR {
            "UnitField::RESISTANCES_ARMOR".to_string()
        } else if field_index == UnitField::RESISTANCES_HOLY {
            "UnitField::RESISTANCES_HOLY".to_string()
        } else if field_index == UnitField::RESISTANCES_FIRE {
            "UnitField::RESISTANCES_FIRE".to_string()
        } else if field_index == UnitField::RESISTANCES_NATURE {
            "UnitField::RESISTANCES_NATURE".to_string()
        } else if field_index == UnitField::RESISTANCES_FROST {
            "UnitField::RESISTANCES_FROST".to_string()
        } else if field_index == UnitField::RESISTANCES_SHADOW {
            "UnitField::RESISTANCES_SHADOW".to_string()
        } else if field_index == UnitField::RESISTANCES_ARCANE {
            "UnitField::RESISTANCES_ARCANE".to_string()
        } else if field_index == UnitField::RESISTANCEBUFFMODSPOSITIVE_ARMOR {
            "UnitField::RESISTANCEBUFFMODSPOSITIVE_ARMOR".to_string()
        } else if field_index == UnitField::RESISTANCEBUFFMODSPOSITIVE_HOLY {
            "UnitField::RESISTANCEBUFFMODSPOSITIVE_HOLY".to_string()
        } else if field_index == UnitField::RESISTANCEBUFFMODSPOSITIVE_FIRE {
            "UnitField::RESISTANCEBUFFMODSPOSITIVE_FIRE".to_string()
        } else if field_index == UnitField::RESISTANCEBUFFMODSPOSITIVE_NATURE {
            "UnitField::RESISTANCEBUFFMODSPOSITIVE_NATURE".to_string()
        } else if field_index == UnitField::RESISTANCEBUFFMODSPOSITIVE_FROST {
            "UnitField::RESISTANCEBUFFMODSPOSITIVE_FROST".to_string()
        } else if field_index == UnitField::RESISTANCEBUFFMODSPOSITIVE_SHADOW {
            "UnitField::RESISTANCEBUFFMODSPOSITIVE_SHADOW".to_string()
        } else if field_index == UnitField::RESISTANCEBUFFMODSPOSITIVE_ARCANE {
            "UnitField::RESISTANCEBUFFMODSPOSITIVE_ARCANE".to_string()
        } else if field_index == UnitField::RESISTANCEBUFFMODSNEGATIVE_ARMOR {
            "UnitField::RESISTANCEBUFFMODSNEGATIVE_ARMOR".to_string()
        } else if field_index == UnitField::RESISTANCEBUFFMODSNEGATIVE_HOLY {
            "UnitField::RESISTANCEBUFFMODSNEGATIVE_HOLY".to_string()
        } else if field_index == UnitField::RESISTANCEBUFFMODSNEGATIVE_FIRE {
            "UnitField::RESISTANCEBUFFMODSNEGATIVE_FIRE".to_string()
        } else if field_index == UnitField::RESISTANCEBUFFMODSNEGATIVE_NATURE {
            "UnitField::RESISTANCEBUFFMODSNEGATIVE_NATURE".to_string()
        } else if field_index == UnitField::RESISTANCEBUFFMODSNEGATIVE_FROST {
            "UnitField::RESISTANCEBUFFMODSNEGATIVE_FROST".to_string()
        } else if field_index == UnitField::RESISTANCEBUFFMODSNEGATIVE_SHADOW {
            "UnitField::RESISTANCEBUFFMODSNEGATIVE_SHADOW".to_string()
        } else if field_index == UnitField::RESISTANCEBUFFMODSNEGATIVE_ARCANE {
            "UnitField::RESISTANCEBUFFMODSNEGATIVE_ARCANE".to_string()
        } else if field_index == UnitField::BASE_MANA {
            "UnitField::BASE_MANA".to_string()
        } else if field_index == UnitField::BASE_HEALTH {
            "UnitField::BASE_HEALTH".to_string()
        } else if field_index == UnitField::BYTES_2 {
            "UnitField::BYTES_2".to_string()
        } else if field_index == UnitField::ATTACK_POWER {
            "UnitField::ATTACK_POWER".to_string()
        } else if field_index == UnitField::ATTACK_POWER_MODS {
            "UnitField::ATTACK_POWER_MODS".to_string()
        } else if field_index == UnitField::ATTACK_POWER_MULTIPLIER {
            "UnitField::ATTACK_POWER_MULTIPLIER".to_string()
        } else if field_index == UnitField::RANGED_ATTACK_POWER {
            "UnitField::RANGED_ATTACK_POWER".to_string()
        } else if field_index == UnitField::RANGED_ATTACK_POWER_MODS {
            "UnitField::RANGED_ATTACK_POWER_MODS".to_string()
        } else if field_index == UnitField::RANGED_ATTACK_POWER_MULTIPLIER {
            "UnitField::RANGED_ATTACK_POWER_MULTIPLIER".to_string()
        } else if field_index == UnitField::MINRANGEDDAMAGE {
            "UnitField::MINRANGEDDAMAGE".to_string()
        } else if field_index == UnitField::MAXRANGEDDAMAGE {
            "UnitField::MAXRANGEDDAMAGE".to_string()
        } else if field_index == UnitField::POWER_COST_MODIFIER {
            "UnitField::POWER_COST_MODIFIER".to_string()
        } else if field_index == UnitField::POWER_COST_MULTIPLIER1 {
            "UnitField::POWER_COST_MULTIPLIER1".to_string()
        } else if field_index == UnitField::POWER_COST_MULTIPLIER2 {
            "UnitField::POWER_COST_MULTIPLIER2".to_string()
        } else if field_index == UnitField::POWER_COST_MULTIPLIER3 {
            "UnitField::POWER_COST_MULTIPLIER3".to_string()
        } else if field_index == UnitField::POWER_COST_MULTIPLIER4 {
            "UnitField::POWER_COST_MULTIPLIER4".to_string()
        } else if field_index == UnitField::POWER_COST_MULTIPLIER5 {
            "UnitField::POWER_COST_MULTIPLIER5".to_string()
        } else if field_index == UnitField::POWER_COST_MULTIPLIER6 {
            "UnitField::POWER_COST_MULTIPLIER6".to_string()
        } else if field_index == UnitField::POWER_COST_MULTIPLIER7 {
            "UnitField::POWER_COST_MULTIPLIER7".to_string()
        } else if field_index == UnitField::MAXHEALTHMODIFIER {
            "UnitField::MAXHEALTHMODIFIER".to_string()
        } else if field_index == UnitField::HOVERHEIGHT {
            "UnitField::HOVERHEIGHT".to_string()
        } else {
            String::new()
        }
    }
}

/// The kind of value stored at an index of the player update fields.
pub open spec fn player_field_type(field_index: u32) -> FieldType {
    if field_index == PlayerField::DUEL_ARBITER {
        FieldType::LONG
    } else if field_index == PlayerField::FLAGS {
        FieldType::INT
    } else if field_index == PlayerField::GUILDID {
        FieldType::INT
    } else if field_index == PlayerField::GUILDRANK {
        FieldType::INT
    } else if field_index == PlayerField::BYTES {
        FieldType::INT
    } else if field_index == PlayerField::BYTES_2 {
        FieldType::INT
    } else if field_index == PlayerField::BYTES_3 {
        FieldType::INT
    } else if field_index == PlayerField::DUEL_TEAM {
        FieldType::INT
    } else if field_index == PlayerField::GUILD_TIMESTAMP {
        FieldType::INT
    } else if field_index == PlayerField::QUEST_LOG_1_1 {
        FieldType::INT
    } else if field_index == PlayerField::QUEST_LOG_1_2 {
        FieldType::INT
    } else if field_index == PlayerField::QUEST_LOG_1_3 {
        FieldType::INT
    } else if field_index == PlayerField::QUEST_LOG_1_4 {
        FieldType::INT
    } else if field_index == PlayerField::QUEST_LOG_2_1 {
        FieldType::INT
    } else if field_index == PlayerField::QUEST_LOG_2_2 {
        FieldType::INT
    } else if field_index == PlayerField::QUEST_LOG_2_3 {
        FieldType::INT
    } else if field_index == PlayerField::QUEST_LOG_2_5 {
        FieldType::INT
    } else if field_index == PlayerField::QUEST_LOG_3_1 {
        FieldType::INT
    } else if field_index == PlayerField::QUEST_LOG_3_2 {
        FieldType::INT
    } else if field_index == PlayerField::QUEST_LOG_3_3 {
        FieldType::INT
    } else if field_index == PlayerField::QUEST_LOG_3_5 {
        FieldType::INT
    } else if field_index == PlayerField::QUEST_LOG_4_1 {
        FieldType::INT
    } else if field_index == PlayerField::QUEST_LOG_4_2 {
        FieldType::INT
    } else if field_index == PlayerField::QUEST_LOG_4_3 {
        FieldType::INT
    } else if field_index == PlayerField::QUEST_LOG_4_5 {
        FieldType::INT
    } else if field_index == PlayerField::QUEST_LOG_5_1 {
        FieldType::INT
    } else if field_index == PlayerField::QUEST_LOG_5_2 {
        FieldType::INT
    } else if field_index == PlayerField::QUEST_LOG_5_3 {
        FieldType::INT
    } else if field_index == PlayerField::QUEST_LOG_5_5 {
        FieldType::INT
    } else if field_index == PlayerField::QUEST_LOG_6_1 {
        FieldType::INT
    } else if field_index == PlayerField::QUEST_LOG_6_2 {
        FieldType::INT
    } else if field_index == PlayerField::QUEST_LOG_6_3 {
        FieldType::INT
    } else if field_index == PlayerField::QUEST_LOG_6_5 {
        FieldType::INT
    } else if field_index == PlayerField::QUEST_LOG_7_1 {
        FieldType::INT
    } else if field_index == PlayerField::QUEST_LOG_7_2 {
        FieldType::INT
    } else if field_index == PlayerField::QUEST_LOG_7_3 {
        FieldType::INT
    } else if field_index == PlayerField::QUEST_LOG_7_5 {
        FieldType::INT
    } else if field_index == PlayerField::QUEST_LOG_8_1 {
        FieldType::INT
    } else if field_index == PlayerField::QUEST_LOG_8_2 {
        FieldType::INT
    } else if field_index == PlayerField::QUEST_LOG_8_3 {
        FieldType::INT
    } else if field_index == PlayerField::QUEST_LOG_8_5 {
        FieldType::INT
    } else if field_index == PlayerField::QUEST_LOG_9_1 {
        FieldType::INT
    } else if field_index == PlayerField::QUEST_LOG_9_2 {
        FieldType::INT
    } else if field_index == PlayerField::QUEST_LOG_9_3 {
        FieldType::INT
    } else if field_index == PlayerField::QUEST_LOG_9_5 {
        FieldType::INT
    } else if field_index == PlayerField::QUEST_LOG_10_1 {
        FieldType::INT
    } else if field_index == PlayerField::QUEST_LOG_10_2 {
        FieldType::INT
    } else if field_index == PlayerField::QUEST_LOG_10_3 {
        FieldType::INT
    } else if field_index == PlayerField::QUEST_LOG_10_5 {
        FieldType::INT
    } else if field_index == PlayerField::QUEST_LOG_11_1 {
        FieldType::INT
    } else if field_index == PlayerField::QUEST_LOG_11_2 {
        FieldType::INT
    } else if field_index == PlayerField::QUEST_LOG_11_3 {
        FieldType::INT
    } else if field_index == PlayerField::QUEST_LOG_11_5 {
        FieldType::INT
    } else if field_index == PlayerField::QUEST_LOG_12_1 {
        FieldType::INT
    } else if field_index == PlayerField::QUEST_LOG_12_2 {
        FieldType::INT
    } else if field_index == PlayerField::QUEST_LOG_12_3 {
        FieldType::INT
    } else if field_index == PlayerField::QUEST_LOG_12_5 {
        FieldType::INT
    } else if field_index == PlayerField::QUEST_LOG_13_1 {
        FieldType::INT
    } else if field_index == PlayerField::QUEST_LOG_13_2 {
        FieldType::INT
    } else if field_index == PlayerField::QUEST_LOG_13_3 {
        FieldType::INT
    } else if field_index == PlayerField::QUEST_LOG_13_5 {
        FieldType::INT
    } else if field_index == PlayerField::QUEST_LOG_14_1 {
        FieldType::INT
    } else if field_index == PlayerField::QUEST_LOG_14_2 {
        FieldType::INT
    } else if field_index == PlayerField::QUEST_LOG_14_3 {
        FieldType::INT
    } else if field_index == PlayerField::QUEST_LOG_14_5 {
        FieldType::INT
    } else if field_index == PlayerField::QUEST_LOG_15_1 {
        FieldType::INT
    } else if field_index == PlayerField::QUEST_LOG_15_2 {
        FieldType::INT
    } else if field_index == PlayerField::QUEST_LOG_15_3 {
        FieldType::INT
    } else if field_index == PlayerField::QUEST_LOG_15_5 {
        FieldType::INT
    } else if field_index == PlayerField::QUEST_LOG_16_1 {
        FieldType::INT
    } else if field_index == PlayerField::QUEST_LOG_16_2 {
        FieldType::INT
    } else if field_index == PlayerField::QUEST_LOG_16_3 {
        FieldType::INT
    } else if field_index == PlayerField::QUEST_LOG_16_5 {
        FieldType::INT
    } else if field_index == PlayerField::QUEST_LOG_17_1 {
        FieldType::INT
    } else if field_index == PlayerField::QUEST_LOG_17_2 {
        FieldType::INT
    } else if field_index == PlayerField::QUEST_LOG_17_3 {
        FieldType::INT
    } else if field_index == PlayerField::QUEST_LOG_17_5 {
        FieldType::INT
    } else if field_index == PlayerField::QUEST_LOG_18_1 {
        FieldType::INT
    } else if field_index == PlayerField::QUEST_LOG_18_2 {
        FieldType::INT
    } else if field_index == PlayerField::QUEST_LOG_18_3 {
        FieldType::INT
    } else if field_index == PlayerField::QUEST_LOG_18_5 {
        FieldType::INT
    } else if field_index == PlayerField::QUEST_LOG_19_1 {
        FieldType::INT
    } else if field_index == PlayerField::QUEST_LOG_19_2 {
        FieldType::INT
    } else if field_index == PlayerField::QUEST_LOG_19_3 {
        FieldType::INT
    } else if field_index == PlayerField::QUEST_LOG_19_5 {
        FieldType::INT
    } else if field_index == PlayerField::QUEST_LOG_20_1 {
        FieldType::INT
    } else if field_index == PlayerField::QUEST_LOG_20_2 {
        FieldType::INT
    } else if field_index == PlayerField::QUEST_LOG_20_3 {
        FieldType::INT
    } else if field_index == PlayerField::QUEST_LOG_20_5 {
        FieldType::INT
    } else if field_index == PlayerField::QUEST_LOG_21_1 {
        FieldType::INT
    } else if field_index == PlayerField::QUEST_LOG_21_2 {
        FieldType::INT
    } else if field_index == PlayerField::QUEST_LOG_21_3 {
        FieldType::INT
    } else if field_index == PlayerField::QUEST_LOG_21_5 {
        FieldType::INT
    } else if field_index == PlayerField::QUEST_LOG_22_1 {
        FieldType::INT
    } else if field_index == PlayerField::QUEST_LOG_22_2 {
        FieldType::INT
    } else if field_index == PlayerField::QUEST_LOG_22_3 {
        FieldType::INT
    } else if field_index == PlayerField::QUEST_LOG_22_5 {
        FieldType::INT
    } else if field_index == PlayerField::QUEST_LOG_23_1 {
        FieldType::INT
    } else if field_index == PlayerField::QUEST_LOG_23_2 {
        FieldType::INT
    } else if field_index == PlayerField::QUEST_LOG_23_3 {
        FieldType::INT
    } else if field_index == PlayerField::QUEST_LOG_23_5 {
        FieldType::INT
    } else if field_index == PlayerField::QUEST_LOG_24_1 {
        FieldType::INT
    } else if field_index == PlayerField::QUEST_LOG_24_2 {
        FieldType::INT
    } else if field_index == PlayerField::QUEST_LOG_24_3 {
        FieldType::INT
    } else if field_index == PlayerField::QUEST_LOG_24_5 {
        FieldType::INT
    } else if field_index == PlayerField::QUEST_LOG_25_1 {
        FieldType::INT
    } else if field_index == PlayerField::QUEST_LOG_25_2 {
        FieldType::INT
    } else if field_index == PlayerField::QUEST_LOG_25_3 {
        FieldType::INT
    } else if field_index == PlayerField::QUEST_LOG_25_5 {
        FieldType::INT
    } else if field_index == PlayerField::VISIBLE_ITEM_1_ENTRYID {
        FieldType::INT
    } else if field_index == PlayerField::VISIBLE_ITEM_1_ENCHANTMENT {
        FieldType::INT
    } else if field_index == PlayerField::VISIBLE_ITEM_2_ENTRYID {
        FieldType::INT
    } else if field_index == PlayerField::VISIBLE_ITEM_2_ENCHANTMENT {
        FieldType::INT
    } else if field_index == PlayerField::VISIBLE_ITEM_3_ENTRYID {
        FieldType::INT
    } else if field_index == PlayerField::VISIBLE_ITEM_3_ENCHANTMENT {
        FieldType::INT
    } else if field_index == PlayerField::VISIBLE_ITEM_4_ENTRYID {
        FieldType::INT
    } else if field_index == PlayerField::VISIBLE_ITEM_4_ENCHANTMENT {
        FieldType::INT
    } else if field_index == PlayerField::VISIBLE_ITEM_5_ENTRYID {
        FieldType::INT
    } else if field_index == PlayerField::VISIBLE_ITEM_5_ENCHANTMENT {
        FieldType::INT
    } else if field_index == PlayerField::VISIBLE_ITEM_6_ENTRYID {
        FieldType::INT
    } else if field_index == PlayerField::VISIBLE_ITEM_6_ENCHANTMENT {
        FieldType::INT
    } else if field_index == PlayerField::VISIBLE_ITEM_7_ENTRYID {
        FieldType::INT
    } else if field_index == PlayerField::VISIBLE_ITEM_7_ENCHANTMENT {
        FieldType::INT
    } else if field_index == PlayerField::VISIBLE_ITEM_8_ENTRYID {
        FieldType::INT
    } else if field_index == PlayerField::VISIBLE_ITEM_8_ENCHANTMENT {
        FieldType::INT
    } else if field_index == PlayerField::VISIBLE_ITEM_9_ENTRYID {
        FieldType::INT
    } else if field_index == PlayerField::VISIBLE_ITEM_9_ENCHANTMENT {
        FieldType::INT
    } else if field_index == PlayerField::VISIBLE_ITEM_10_ENTRYID {
        FieldType::INT
    } else if field_index == PlayerField::VISIBLE_ITEM_10_ENCHANTMENT {
        FieldType::INT
    } else if field_index == PlayerField::VISIBLE_ITEM_11_ENTRYID {
        FieldType::INT
    } else if field_index == PlayerField::VISIBLE_ITEM_11_ENCHANTMENT {
        FieldType::INT
    } else if field_index == PlayerField::VISIBLE_ITEM_12_ENTRYID {
        FieldType::INT
    } else if field_index == PlayerField::VISIBLE_ITEM_12_ENCHANTMENT {
        FieldType::INT
    } else if field_index == PlayerField::VISIBLE_ITEM_13_ENTRYID {
        FieldType::INT
    } else if field_index == PlayerField::VISIBLE_ITEM_13_ENCHANTMENT {
        FieldType::INT
    } else if field_index == PlayerField::VISIBLE_ITEM_14_ENTRYID {
        FieldType::INT
    } else if field_index == PlayerField::VISIBLE_ITEM_14_ENCHANTMENT {
        FieldType::INT
    } else if field_index == PlayerField::VISIBLE_ITEM_15_ENTRYID {
        FieldType::INT
    } else if field_index == PlayerField::VISIBLE_ITEM_15_ENCHANTMENT {
        FieldType::INT
    } else if field_index == PlayerField::VISIBLE_ITEM_16_ENTRYID {
        FieldType::INT
    } else if field_index == PlayerField::VISIBLE_ITEM_16_ENCHANTMENT {
        FieldType::INT
    } else if field_index == PlayerField::VISIBLE_ITEM_17_ENTRYID {
        FieldType::INT
    } else if field_index == PlayerField::VISIBLE_ITEM_17_ENCHANTMENT {
        FieldType::INT
    } else if field_index == PlayerField::VISIBLE_ITEM_18_ENTRYID {
        FieldType::INT
    } else if field_index == PlayerField::VISIBLE_ITEM_18_ENCHANTMENT {
        FieldType::INT
    } else if field_index == PlayerField::VISIBLE_ITEM_19_ENTRYID {
        FieldType::INT
    } else if field_index == PlayerField::VISIBLE_ITEM_19_ENCHANTMENT {
        FieldType::INT
    } else if field_index == PlayerField::CHOSEN_TITLE {
        FieldType::INT
    } else if field_index == PlayerField::FAKE_INEBRIATION {
        FieldType::INT
    } else if field_index == PlayerField::FIELD_PAD_0 {
        FieldType::INT
    } else if field_index == PlayerField::FIELD_INV_SLOT_HEAD {
        FieldType::LONG
    } else if field_index == PlayerField::FIELD_INV_SLOT_FIXME1 {
        FieldType::LONG
    } else if field_index == PlayerField::FIELD_INV_SLOT_FIXME2 {
        FieldType::LONG
    } else if field_index == PlayerField::FIELD_INV_SLOT_FIXME3 {
        FieldType::LONG
    } else if field_index == PlayerField::FIELD_INV_SLOT_FIXME4 {
        FieldType::LONG
    } else if field_index == PlayerField::FIELD_INV_SLOT_FIXME5 {
        FieldType::LONG
    } else if field_index == PlayerField::FIELD_INV_SLOT_FIXME6 {
        FieldType::LONG
    } else if field_index == PlayerField::FIELD_INV_SLOT_FIXME7 {
        FieldType::LONG
    } else if field_index == PlayerField::FIELD_INV_SLOT_FIXME8 {
        FieldType::LONG
    } else if field_index == PlayerField::FIELD_INV_SLOT_FIXME9 {
        FieldType::LONG
    } else if field_index == PlayerField::FIELD_INV_SLOT_FIXME10 {
        FieldType::LONG
    } else if field_index == PlayerField::FIELD_INV_SLOT_FIXME11 {
        FieldType::LONG
    } else if field_index == PlayerField::FIELD_INV_SLOT_FIXME12 {
        FieldType::LONG
    } else if field_index == PlayerField::FIELD_INV_SLOT_FIXME13 {
        FieldType::LONG
    } else if field_index == PlayerField::FIELD_INV_SLOT_FIXME14 {
        FieldType::LONG
    } else if field_index == PlayerField::FIELD_INV_SLOT_FIXME15 {
        FieldType::LONG
    } else if field_index == PlayerField::FIELD_INV_SLOT_FIXME16 {
        FieldType::LONG
    } else if field_index == PlayerField::FIELD_INV_SLOT_FIXME17 {
        FieldType::LONG
    } else if field_index == PlayerField::FIELD_INV_SLOT_FIXME18 {
        FieldType::LONG
    } else if field_index == PlayerField::FIELD_INV_SLOT_FIXME19 {
        FieldType::LONG
    } else if field_index == PlayerField::FIELD_INV_SLOT_FIXME20 {
        FieldType::LONG
    } else if field_index == PlayerField::FIELD_INV_SLOT_FIXME21 {
        FieldType::LONG
    } else if field_index == PlayerField::FIELD_INV_SLOT_FIXME22 {
        FieldType::LONG
    } else if field_index == PlayerField::FIELD_PACK_SLOT_1 {
        FieldType::LONG
    } else if field_index == PlayerField::FIELD_BANK_SLOT_1 {
        FieldType::LONG
    } else if field_index == PlayerField::FIELD_BANKBAG_SLOT_1 {
        FieldType::LONG
    } else if field_index == PlayerField::FIELD_VENDORBUYBACK_SLOT_1 {
        FieldType::LONG
    } else if field_index == PlayerField::FIELD_KEYRING_SLOT_1 {
        FieldType::LONG
    } else if field_index == PlayerField::FIELD_CURRENCYTOKEN_SLOT_1 {
        FieldType::LONG
    } else if field_index == PlayerField::FARSIGHT {
        FieldType::LONG
    } else if field_index == PlayerField::FIELD_KNOWN_TITLES {
        FieldType::LONG
    } else if field_index == PlayerField::FIELD_KNOWN_TITLES1 {
        FieldType::LONG
    } else if field_index == PlayerField::FIELD_KNOWN_TITLES2 {
        FieldType::LONG
    } else if field_index == PlayerField::FIELD_KNOWN_CURRENCIES {
        FieldType::LONG
    } else if field_index == PlayerField::XP {
        FieldType::INT
    } else if field_index == PlayerField::NEXT_LEVEL_XP {
        FieldType::INT
    } else if field_index == PlayerField::SKILL_INFO_1_1 {
        FieldType::INT
    } else if field_index == PlayerField::CHARACTER_POINTS1 {
        FieldType::INT
    } else if field_index == PlayerField::CHARACTER_POINTS2 {
        FieldType::INT
    } else if field_index == PlayerField::TRACK_CREATURES {
        FieldType::INT
    } else if field_index == PlayerField::TRACK_RESOURCES {
        FieldType::INT
    } else if field_index == PlayerField::BLOCK_PERCENTAGE {
        FieldType::FLOAT
    } else if field_index == PlayerField::DODGE_PERCENTAGE {
        FieldType::FLOAT
    } else if field_index == PlayerField::PARRY_PERCENTAGE {
        FieldType::FLOAT
    } else if field_index == PlayerField::EXPERTISE {
        FieldType::INT
    } else if field_index == PlayerField::OFFHAND_EXPERTISE {
        FieldType::INT
    } else if field_index == PlayerField::CRIT_PERCENTAGE {
        FieldType::FLOAT
    } else if field_index == PlayerField::RANGED_CRIT_PERCENTAGE {
        FieldType::FLOAT
    } else if field_index == PlayerField::OFFHAND_CRIT_PERCENTAGE {
        FieldType::FLOAT
    } else if field_index == PlayerField::SPELL_CRIT_PERCENTAGE1 {
        FieldType::FLOAT
    } else if field_index == PlayerField::SPELL_CRIT_PERCENTAGE2 {
        FieldType::FLOAT
    } else if field_index == PlayerField::SPELL_CRIT_PERCENTAGE3 {
        FieldType::FLOAT
    } else if field_index == PlayerField::SPELL_CRIT_PERCENTAGE4 {
        FieldType::FLOAT
    } else if field_index == PlayerField::SPELL_CRIT_PERCENTAGE5 {
        FieldType::FLOAT
    } else if field_index == PlayerField::SPELL_CRIT_PERCENTAGE6 {
        FieldType::FLOAT
    } else if field_index == PlayerField::SPELL_CRIT_PERCENTAGE7 {
        FieldType::FLOAT
    } else if field_index == PlayerField::SHIELD_BLOCK {
        FieldType::INT
    } else if field_index == PlayerField::SHIELD_BLOCK_CRIT_PERCENTAGE {
        FieldType::FLOAT
    } else if field_index == PlayerField::EXPLORED_ZONES_1 {
        FieldType::INT
    } else if field_index == PlayerField::REST_STATE_EXPERIENCE {
        FieldType::INT
    } else if field_index == PlayerField::FIELD_COINAGE {
        FieldType::INT
    } else if field_index == PlayerField::FIELD_MOD_DAMAGE_DONE_POS {
        FieldType::INT
    } else if field_index == PlayerField::FIELD_MOD_DAMAGE_DONE_NEG {
        FieldType::INT
    } else if field_index == PlayerField::FIELD_MOD_DAMAGE_DONE_PCT1 {
        FieldType::INT
    } else if field_index == PlayerField::FIELD_MOD_DAMAGE_DONE_PCT2 {
        FieldType::INT
    } else if field_index == PlayerField::FIELD_MOD_DAMAGE_DONE_PCT3 {
        FieldType::INT
    } else if field_index == PlayerField::FIELD_MOD_DAMAGE_DONE_PCT4 {
        FieldType::INT
    } else if field_index == PlayerField::FIELD_MOD_DAMAGE_DONE_PCT5 {
        FieldType::INT
    } else if field_index == PlayerField::FIELD_MOD_DAMAGE_DONE_PCT6 {
        FieldType::INT
    } else if field_index == PlayerField::FIELD_MOD_DAMAGE_DONE_PCT7 {
        FieldType::INT
    } else if field_index == PlayerField::FIELD_MOD_HEALING_DONE_POS {
        FieldType::INT
    } else if field_index == PlayerField::FIELD_MOD_HEALING_PCT {
        FieldType::FLOAT
    } else if field_index == PlayerField::FIELD_MOD_HEALING_DONE_PCT {
        FieldType::FLOAT
    } else if field_index == PlayerField::FIELD_MOD_TARGET_RESISTANCE {
        FieldType::INT
    } else if field_index == PlayerField::FIELD_MOD_TARGET_PHYSICAL_RESISTANCE {
        FieldType::INT
    } else if field_index == PlayerField::FIELD_BYTES {
        FieldType::INT
    } else if field_index == PlayerField::AMMO_ID {
        FieldType::LONG
    } else if field_index == PlayerField::SELF_RES_SPELL {
        FieldType::INT
    } else if field_index == PlayerField::FIELD_PVP_MEDALS {
        FieldType::INT
    } else if field_index == PlayerField::FIELD_BUYBACK_PRICE_1 {
        FieldType::INT
    } else if field_index == PlayerField::FIELD_BUYBACK_PRICE_2 {
        FieldType::INT
    } else if field_index == PlayerField::FIELD_BUYBACK_PRICE_3 {
        FieldType::INT
    } else if field_index == PlayerField::FIELD_BUYBACK_PRICE_4 {
        FieldType::INT
    } else if field_index == PlayerField::FIELD_BUYBACK_PRICE_5 {
        FieldType::INT
    } else if field_index == PlayerField::FIELD_BUYBACK_PRICE_6 {
        FieldType::INT
    } else if field_index == PlayerField::FIELD_BUYBACK_PRICE_7 {
        FieldType::INT
    } else if field_index == PlayerField::FIELD_BUYBACK_PRICE_8 {
        FieldType::INT
    } else if field_index == PlayerField::FIELD_BUYBACK_PRICE_9 {
        FieldType::INT
    } else if field_index == PlayerField::FIELD_BUYBACK_PRICE_10 {
        FieldType::INT
    } else if field_index == PlayerField::FIELD_BUYBACK_PRICE_11 {
        FieldType::INT
    } else if field_index == PlayerField::FIELD_BUYBACK_PRICE_12 {
        FieldType::INT
    } else if field_index == PlayerField::FIELD_BUYBACK_TIMESTAMP_1 {
        FieldType::INT
    } else if field_index == PlayerField::FIELD_BUYBACK_TIMESTAMP_2 {
        FieldType::INT
    } else if field_index == PlayerField::FIELD_BUYBACK_TIMESTAMP_3 {
        FieldType::INT
    } else if field_index == PlayerField::FIELD_BUYBACK_TIMESTAMP_4 {
        FieldType::INT
    } else if field_index == PlayerField::FIELD_BUYBACK_TIMESTAMP_5 {
        FieldType::INT
    } else if field_index == PlayerField::FIELD_BUYBACK_TIMESTAMP_6 {
        FieldType::INT
    } else if field_index == PlayerField::FIELD_BUYBACK_TIMESTAMP_7 {
        FieldType::INT
    } else if field_index == PlayerField::FIELD_BUYBACK_TIMESTAMP_8 {
        FieldType::INT
    } else if field_index == PlayerField::FIELD_BUYBACK_TIMESTAMP_9 {
        FieldType::INT
    } else if field_index == PlayerField::FIELD_BUYBACK_TIMESTAMP_10 {
        FieldType::INT
    } else if field_index == PlayerField::FIELD_BUYBACK_TIMESTAMP_11 {
        FieldType::INT
    } else if field_index == PlayerField::FIELD_BUYBACK_TIMESTAMP_12 {
        FieldType::INT
    } else if field_index == PlayerField::FIELD_KILLS {
        FieldType::INT
    } else if field_index == PlayerField::FIELD_TODAY_CONTRIBUTION {
        FieldType::INT
    } else if field_index == PlayerField::FIELD_YESTERDAY_CONTRIBUTION {
        FieldType::INT
    } else if field_index == PlayerField::FIELD_LIFETIME_HONORABLE_KILLS {
        FieldType::INT
    } else if field_index == PlayerField::FIELD_BYTES2 {
        FieldType::INT
    } else if field_index == PlayerField::FIELD_WATCHED_FACTION_INDEX {
        FieldType::INT
    } else if field_index == PlayerField::FIELD_COMBAT_RATING_1 {
        FieldType::INT
    } else if field_index == PlayerField::FIELD_ARENA_TEAM_INFO_1_1 {
        FieldType::INT
    } else if field_index == PlayerField::FIELD_HONOR_CURRENCY {
        FieldType::INT
    } else if field_index == PlayerField::FIELD_ARENA_CURRENCY {
        FieldType::INT
    } else if field_index == PlayerField::FIELD_MAX_LEVEL {
        FieldType::INT
    } else if field_index == PlayerField::FIELD_DAILY_QUESTS_1 {
        FieldType::INT
    } else if field_index == PlayerField::RUNE_REGEN_1 {
        FieldType::FLOAT
    } else if field_index == PlayerField::RUNE_REGEN_2 {
        FieldType::FLOAT
    } else if field_index == PlayerField::RUNE_REGEN_3 {
        FieldType::FLOAT
    } else if field_index == PlayerField::RUNE_REGEN_4 {
        FieldType::FLOAT
    } else if field_index == PlayerField::NO_REAGENT_COST_1 {
        FieldType::INT
    } else if field_index == PlayerField::FIELD_GLYPH_SLOTS_1 {
        FieldType::INT
    } else if field_index == PlayerField::FIELD_GLYPH_SLOTS_2 {
        FieldType::INT
    } else if field_index == PlayerField::FIELD_GLYPH_SLOTS_3 {
        FieldType::INT
    } else if field_index == PlayerField::FIELD_GLYPH_SLOTS_4 {
        FieldType::INT
    } else if field_index == PlayerField::FIELD_GLYPH_SLOTS_5 {
        FieldType::INT
    } else if field_index == PlayerField::FIELD_GLYPH_SLOTS_6 {
        FieldType::INT
    } else if field_index == PlayerField::FIELD_GLYPHS_1 {
        FieldType::INT
    } else if field_index == PlayerField::FIELD_GLYPHS_2 {
        FieldType::INT
    } else if field_index == PlayerField::FIELD_GLYPHS_3 {
        FieldType::INT
    } else if field_index == PlayerField::FIELD_GLYPHS_4 {
        FieldType::INT
    } else if field_index == PlayerField::FIELD_GLYPHS_5 {
        FieldType::INT
    } else if field_index == PlayerField::FIELD_GLYPHS_6 {
        FieldType::INT
    } else if field_index == PlayerField::GLYPHS_ENABLED {
        FieldType::INT
    } else if field_index == PlayerField::PET_SPELL_POWER {
        FieldType::INT
    } else {
        FieldType::NONE
    }
}

/// The printable name of an index of the player update fields; empty for an unnamed index.
pub open spec fn player_field_name(field_index: u32) -> Seq<char> {
    if field_index == PlayerField::DUEL_ARBITER {
        "PlayerField::DUEL_ARBITER"@
    } else if field_index == PlayerField::FLAGS {
        "PlayerField::FLAGS"@
    } else if field_index == PlayerField::GUILDID {
        "PlayerField::GUILDID"@
    } else if field_index == PlayerField::GUILDRANK {
        "PlayerField::GUILDRANK"@
    } else if field_index == PlayerField::BYTES {
        "PlayerField::BYTES"@
    } else if field_index == PlayerField::BYTES_2 {
        "PlayerField::BYTES_2"@
    } else if field_index == PlayerField::BYTES_3 {
        "PlayerField::BYTES_3"@
    } else if field_index == PlayerField::DUEL_TEAM {
        "PlayerField::DUEL_TEAM"@
    } else if field_index == PlayerField::GUILD_TIMESTAMP {
        "PlayerField::GUILD_TIMESTAMP"@
    } else if field_index == PlayerField::QUEST_LOG_1_1 {
        "PlayerField::QUEST_LOG_1_1"@
    } else if field_index == PlayerField::QUEST_LOG_1_2 {
        "PlayerField::QUEST_LOG_1_2"@
    } else if field_index == PlayerField::QUEST_LOG_1_3 {
        "PlayerField::QUEST_LOG_1_3"@
    } else if field_index == PlayerField::QUEST_LOG_1_4 {
        "PlayerField::QUEST_LOG_1_4"@
    } else if field_index == PlayerField::QUEST_LOG_2_1 {
        "PlayerField::QUEST_LOG_2_1"@
    } else if field_index == PlayerField::QUEST_LOG_2_2 {
        "PlayerField::QUEST_LOG_2_2"@
    } else if field_index == PlayerField::QUEST_LOG_2_3 {
        "PlayerField::QUEST_LOG_2_3"@
    } else if field_index == PlayerField::QUEST_LOG_2_5 {
        "PlayerField::QUEST_LOG_2_5"@
    } else if field_index == PlayerField::QUEST_LOG_3_1 {
        "PlayerField::QUEST_LOG_3_1"@
    } else if field_index == PlayerField::QUEST_LOG_3_2 {
        "PlayerField::QUEST_LOG_3_2"@
    } else if field_index == PlayerField::QUEST_LOG_3_3 {
        "PlayerField::QUEST_LOG_3_3"@
    } else if field_index == PlayerField::QUEST_LOG_3_5 {
        "PlayerField::QUEST_LOG_3_5"@
    } else if field_index == PlayerField::QUEST_LOG_4_1 {
        "PlayerField::QUEST_LOG_4_1"@
    } else if field_index == PlayerField::QUEST_LOG_4_2 {
        "PlayerField::QUEST_LOG_4_2"@
    } else if field_index == PlayerField::QUEST_LOG_4_3 {
        "PlayerField::QUEST_LOG_4_3"@
    } else if field_index == PlayerField::QUEST_LOG_4_5 {
        "PlayerField::QUEST_LOG_4_5"@
    } else if field_index == PlayerField::QUEST_LOG_5_1 {
        "PlayerField::QUEST_LOG_5_1"@
    } else if field_index == PlayerField::QUEST_LOG_5_2 {
        "PlayerField::QUEST_LOG_5_2"@
    } else if field_index == PlayerField::QUEST_LOG_5_3 {
        "PlayerField::QUEST_LOG_5_3"@
    } else if field_index == PlayerField::QUEST_LOG_5_5 {
        "PlayerField::QUEST_LOG_5_5"@
    } else if field_index == PlayerField::QUEST_LOG_6_1 {
        "PlayerField::QUEST_LOG_6_1"@
    } else if field_index == PlayerField::QUEST_LOG_6_2 {
        "PlayerField::QUEST_LOG_6_2"@
    } else if field_index == PlayerField::QUEST_LOG_6_3 {
        "PlayerField::QUEST_LOG_6_3"@
    } else if field_index == PlayerField::QUEST_LOG_6_5 {
        "PlayerField::QUEST_LOG_6_5"@
    } else if field_index == PlayerField::QUEST_LOG_7_1 {
        "PlayerField::QUEST_LOG_7_1"@
    } else if field_index == PlayerField::QUEST_LOG_7_2 {
        "PlayerField::QUEST_LOG_7_2"@
    } else if field_index == PlayerField::QUEST_LOG_7_3 {
        "PlayerField::QUEST_LOG_7_3"@
    } else if field_index == PlayerField::QUEST_LOG_7_5 {
        "PlayerField::QUEST_LOG_7_5"@
    } else if field_index == PlayerField::QUEST_LOG_8_1 {
        "PlayerField::QUEST_LOG_8_1"@
    } else if field_index == PlayerField::QUEST_LOG_8_2 {
        "PlayerField::QUEST_LOG_8_2"@
    } else if field_index == PlayerField::QUEST_LOG_8_3 {
        "PlayerField::QUEST_LOG_8_3"@
    } else if field_index == PlayerField::QUEST_LOG_8_5 {
        "PlayerField::QUEST_LOG_8_5"@
    } else if field_index == PlayerField::QUEST_LOG_9_1 {
        "PlayerField::QUEST_LOG_9_1"@
    } else if field_index == PlayerField::QUEST_LOG_9_2 {
        "PlayerField::QUEST_LOG_9_2"@
    } else if field_index == PlayerField::QUEST_LOG_9_3 {
        "PlayerField::QUEST_LOG_9_3"@
    } else if field_index == PlayerField::QUEST_LOG_9_5 {
        "PlayerField::QUEST_LOG_9_5"@
    } else if field_index == PlayerField::QUEST_LOG_10_1 {
        "PlayerField::QUEST_LOG_10_1"@
    } else if field_index == PlayerField::QUEST_LOG_10_2 {
        "PlayerField::QUEST_LOG_10_2"@
    } else if field_index == PlayerField::QUEST_LOG_10_3 {
        "PlayerField::QUEST_LOG_10_3"@
    } else if field_index == PlayerField::QUEST_LOG_10_5 {
        "PlayerField::QUEST_LOG_10_5"@
    } else if field_index == PlayerField::QUEST_LOG_11_1 {
        "PlayerField::QUEST_LOG_11_1"@
    } else if field_index == PlayerField::QUEST_LOG_11_2 {
        "PlayerField::QUEST_LOG_11_2"@
    } else if field_index == PlayerField::QUEST_LOG_11_3 {
        "PlayerField::QUEST_LOG_11_3"@
    } else if field_index == PlayerField::QUEST_LOG_11_5 {
        "PlayerField::QUEST_LOG_11_5"@
    } else if field_index == PlayerField::QUEST_LOG_12_1 {
        "PlayerField::QUEST_LOG_12_1"@
    } else if field_index == PlayerField::QUEST_LOG_12_2 {
        "PlayerField::QUEST_LOG_12_2"@
    } else if field_index == PlayerField::QUEST_LOG_12_3 {
        "PlayerField::QUEST_LOG_12_3"@
    } else if field_index == PlayerField::QUEST_LOG_12_5 {
        "PlayerField::QUEST_LOG_12_5"@
    } else if field_index == PlayerField::QUEST_LOG_13_1 {
        "PlayerField::QUEST_LOG_13_1"@
    } else if field_index == PlayerField::QUEST_LOG_13_2 {
        "PlayerField::QUEST_LOG_13_2"@
    } else if field_index == PlayerField::QUEST_LOG_13_3 {
        "PlayerField::QUEST_LOG_13_3"@
    } else if field_index == PlayerField::QUEST_LOG_13_5 {
        "PlayerField::QUEST_LOG_13_5"@
    } else if field_index == PlayerField::QUEST_LOG_14_1 {
        "PlayerField::QUEST_LOG_14_1"@
    } else if field_index == PlayerField::QUEST_LOG_14_2 {
        "PlayerField::QUEST_LOG_14_2"@
    } else if field_index == PlayerField::QUEST_LOG_14_3 {
        "PlayerField::QUEST_LOG_14_3"@
    } else if field_index == PlayerField::QUEST_LOG_14_5 {
        "PlayerField::QUEST_LOG_14_5"@
    } else if field_index == PlayerField::QUEST_LOG_15_1 {
        "PlayerField::QUEST_LOG_15_1"@
    } else if field_index == PlayerField::QUEST_LOG_15_2 {
        "PlayerField::QUEST_LOG_15_2"@
    } else if field_index == PlayerField::QUEST_LOG_15_3 {
        "PlayerField::QUEST_LOG_15_3"@
    } else if field_index == PlayerField::QUEST_LOG_15_5 {
        "PlayerField::QUEST_LOG_15_5"@
    } else if field_index == PlayerField::QUEST_LOG_16_1 {
        "PlayerField::QUEST_LOG_16_1"@
    } else if field_index == PlayerField::QUEST_LOG_16_2 {
        "PlayerField::QUEST_LOG_16_2"@
    } else if field_index == PlayerField::QUEST_LOG_16_3 {
        "PlayerField::QUEST_LOG_16_3"@
    } else if field_index == PlayerField::QUEST_LOG_16_5 {
        "PlayerField::QUEST_LOG_16_5"@
    } else if field_index == PlayerField::QUEST_LOG_17_1 {
        "PlayerField::QUEST_LOG_17_1"@
    } else if field_index == PlayerField::QUEST_LOG_17_2 {
        "PlayerField::QUEST_LOG_17_2"@
    } else if field_index == PlayerField::QUEST_LOG_17_3 {
        "PlayerField::QUEST_LOG_17_3"@
    } else if field_index == PlayerField::QUEST_LOG_17_5 {
        "PlayerField::QUEST_LOG_17_5"@
    } else if field_index == PlayerField::QUEST_LOG_18_1 {
        "PlayerField::QUEST_LOG_18_1"@
    } else if field_index == PlayerField::QUEST_LOG_18_2 {
        "PlayerField::QUEST_LOG_18_2"@
    } else if field_index == PlayerField::QUEST_LOG_18_3 {
        "PlayerField::QUEST_LOG_18_3"@
    } else if field_index == PlayerField::QUEST_LOG_18_5 {
        "PlayerField::QUEST_LOG_18_5"@
    } else if field_index == PlayerField::QUEST_LOG_19_1 {
        "PlayerField::QUEST_LOG_19_1"@
    } else if field_index == PlayerField::QUEST_LOG_19_2 {
        "PlayerField::QUEST_LOG_19_2"@
    } else if field_index == PlayerField::QUEST_LOG_19_3 {
        "PlayerField::QUEST_LOG_19_3"@
    } else if field_index == PlayerField::QUEST_LOG_19_5 {
        "PlayerField::QUEST_LOG_19_5"@
    } else if field_index == PlayerField::QUEST_LOG_20_1 {
        "PlayerField::QUEST_LOG_20_1"@
    } else if field_index == PlayerField::QUEST_LOG_20_2 {
        "PlayerField::QUEST_LOG_20_2"@
    } else if field_index == PlayerField::QUEST_LOG_20_3 {
        "PlayerField::QUEST_LOG_20_3"@
    } else if field_index == PlayerField::QUEST_LOG_20_5 {
        "PlayerField::QUEST_LOG_20_5"@
    } else if field_index == PlayerField::QUEST_LOG_21_1 {
        "PlayerField::QUEST_LOG_21_1"@
    } else if field_index == PlayerField::QUEST_LOG_21_2 {
        "PlayerField::QUEST_LOG_21_2"@
    } else if field_index == PlayerField::QUEST_LOG_21_3 {
        "PlayerField::QUEST_LOG_21_3"@
    } else if field_index == PlayerField::QUEST_LOG_21_5 {
        "PlayerField::QUEST_LOG_21_5"@
    } else if field_index == PlayerField::QUEST_LOG_22_1 {
        "PlayerField::QUEST_LOG_22_1"@
    } else if field_index == PlayerField::QUEST_LOG_22_2 {
        "PlayerField::QUEST_LOG_22_2"@
    } else if field_index == PlayerField::QUEST_LOG_22_3 {
        "PlayerField::QUEST_LOG_22_3"@
    } else if field_index == PlayerField::QUEST_LOG_22_5 {
        "PlayerField::QUEST_LOG_22_5"@
    } else if field_index == PlayerField::QUEST_LOG_23_1 {
        "PlayerField::QUEST_LOG_23_1"@
    } else if field_index == PlayerField::QUEST_LOG_23_2 {
        "PlayerField::QUEST_LOG_23_2"@
    } else if field_index == PlayerField::QUEST_LOG_23_3 {
        "PlayerField::QUEST_LOG_23_3"@
    } else if field_index == PlayerField::QUEST_LOG_23_5 {
        "PlayerField::QUEST_LOG_23_5"@
    } else if field_index == PlayerField::QUEST_LOG_24_1 {
        "PlayerField::QUEST_LOG_24_1"@
    } else if field_index == PlayerField::QUEST_LOG_24_2 {
        "PlayerField::QUEST_LOG_24_2"@
    } else if field_index == PlayerField::QUEST_LOG_24_3 {
        "PlayerField::QUEST_LOG_24_3"@
    } else if field_index == PlayerField::QUEST_LOG_24_5 {
        "PlayerField::QUEST_LOG_24_5"@
    } else if field_index == PlayerField::QUEST_LOG_25_1 {
        "PlayerField::QUEST_LOG_25_1"@
    } else if field_index == PlayerField::QUEST_LOG_25_2 {
        "PlayerField::QUEST_LOG_25_2"@
    } else if field_index == PlayerField::QUEST_LOG_25_3 {
        "PlayerField::QUEST_LOG_25_3"@
    } else if field_index == PlayerField::QUEST_LOG_25_5 {
        "PlayerField::QUEST_LOG_25_5"@
    } else if field_index == PlayerField::VISIBLE_ITEM_1_ENTRYID {
        "PlayerField::VISIBLE_ITEM_1_ENTRYID"@
    } else if field_index == PlayerField::VISIBLE_ITEM_1_ENCHANTMENT {
        "PlayerField::VISIBLE_ITEM_1_ENCHANTMENT"@
    } else if field_index == PlayerField::VISIBLE_ITEM_2_ENTRYID {
        "PlayerField::VISIBLE_ITEM_2_ENTRYID"@
    } else if field_index == PlayerField::VISIBLE_ITEM_2_ENCHANTMENT {
        "PlayerField::VISIBLE_ITEM_2_ENCHANTMENT"@
    } else if field_index == PlayerField::VISIBLE_ITEM_3_ENTRYID {
        "PlayerField::VISIBLE_ITEM_3_ENTRYID"@
    } else if field_index == PlayerField::VISIBLE_ITEM_3_ENCHANTMENT {
        "PlayerField::VISIBLE_ITEM_3_ENCHANTMENT"@
    } else if field_index == PlayerField::VISIBLE_ITEM_4_ENTRYID {
        "PlayerField::VISIBLE_ITEM_4_ENTRYID"@
    } else if field_index == PlayerField::VISIBLE_ITEM_4_ENCHANTMENT {
        "PlayerField::VISIBLE_ITEM_4_ENCHANTMENT"@
    } else if field_index == PlayerField::VISIBLE_ITEM_5_ENTRYID {
        "PlayerField::VISIBLE_ITEM_5_ENTRYID"@
    } else if field_index == PlayerField::VISIBLE_ITEM_5_ENCHANTMENT {
        "PlayerField::VISIBLE_ITEM_5_ENCHANTMENT"@
    } else if field_index == PlayerField::VISIBLE_ITEM_6_ENTRYID {
        "PlayerField::VISIBLE_ITEM_6_ENTRYID"@
    } else if field_index == PlayerField::VISIBLE_ITEM_6_ENCHANTMENT {
        "PlayerField::VISIBLE_ITEM_6_ENCHANTMENT"@
    } else if field_index == PlayerField::VISIBLE_ITEM_7_ENTRYID {
        "PlayerField::VISIBLE_ITEM_7_ENTRYID"@
    } else if field_index == PlayerField::VISIBLE_ITEM_7_ENCHANTMENT {
        "PlayerField::VISIBLE_ITEM_7_ENCHANTMENT"@
    } else if field_index == PlayerField::VISIBLE_ITEM_8_ENTRYID {
        "PlayerField::VISIBLE_ITEM_8_ENTRYID"@
    } else if field_index == PlayerField::VISIBLE_ITEM_8_ENCHANTMENT {
        "PlayerField::VISIBLE_ITEM_8_ENCHANTMENT"@
    } else if field_index == PlayerField::VISIBLE_ITEM_9_ENTRYID {
        "PlayerField::VISIBLE_ITEM_9_ENTRYID"@
    } else if field_index == PlayerField::VISIBLE_ITEM_9_ENCHANTMENT {
        "PlayerField::VISIBLE_ITEM_9_ENCHANTMENT"@
    } else if field_index == PlayerField::VISIBLE_ITEM_10_ENTRYID {
        "PlayerField::VISIBLE_ITEM_10_ENTRYID"@
    } else if field_index == PlayerField::VISIBLE_ITEM_10_ENCHANTMENT {
        "PlayerField::VISIBLE_ITEM_10_ENCHANTMENT"@
    } else if field_index == PlayerField::VISIBLE_ITEM_11_ENTRYID {
        "PlayerField::VISIBLE_ITEM_11_ENTRYID"@
    } else if field_index == PlayerField::VISIBLE_ITEM_11_ENCHANTMENT {
        "PlayerField::VISIBLE_ITEM_11_ENCHANTMENT"@
    } else if field_index == PlayerField::VISIBLE_ITEM_12_ENTRYID {
        "PlayerField::VISIBLE_ITEM_12_ENTRYID"@
    } else if field_index == PlayerField::VISIBLE_ITEM_12_ENCHANTMENT {
        "PlayerField::VISIBLE_ITEM_12_ENCHANTMENT"@
    } else if field_index == PlayerField::VISIBLE_ITEM_13_ENTRYID {
        "PlayerField::VISIBLE_ITEM_13_ENTRYID"@
    } else if field_index == PlayerField::VISIBLE_ITEM_13_ENCHANTMENT {
        "PlayerField::VISIBLE_ITEM_13_ENCHANTMENT"@
    } else if field_index == PlayerField::VISIBLE_ITEM_14_ENTRYID {
        "PlayerField::VISIBLE_ITEM_14_ENTRYID"@
    } else if field_index == PlayerField::VISIBLE_ITEM_14_ENCHANTMENT {
        "PlayerField::VISIBLE_ITEM_14_ENCHANTMENT"@
    } else if field_index == PlayerField::VISIBLE_ITEM_15_ENTRYID {
        "PlayerField::VISIBLE_ITEM_15_ENTRYID"@
    } else if field_index == PlayerField::VISIBLE_ITEM_15_ENCHANTMENT {
        "PlayerField::VISIBLE_ITEM_15_ENCHANTMENT"@
    } else if field_index == PlayerField::VISIBLE_ITEM_16_ENTRYID {
        "PlayerField::VISIBLE_ITEM_16_ENTRYID"@
    } else if field_index == PlayerField::VISIBLE_ITEM_16_ENCHANTMENT {
        "PlayerField::VISIBLE_ITEM_16_ENCHANTMENT"@
    } else if field_index == PlayerField::VISIBLE_ITEM_17_ENTRYID {
        "PlayerField::VISIBLE_ITEM_17_ENTRYID"@
    } else if field_index == PlayerField::VISIBLE_ITEM_17_ENCHANTMENT {
        "PlayerField::VISIBLE_ITEM_17_ENCHANTMENT"@
    } else if field_index == PlayerField::VISIBLE_ITEM_18_ENTRYID {
        "PlayerField::VISIBLE_ITEM_18_ENTRYID"@
    } else if field_index == PlayerField::VISIBLE_ITEM_18_ENCHANTMENT {
        "PlayerField::VISIBLE_ITEM_18_ENCHANTMENT"@
    } else if field_index == PlayerField::VISIBLE_ITEM_19_ENTRYID {
        "PlayerField::VISIBLE_ITEM_19_ENTRYID"@
    } else if field_index == PlayerField::VISIBLE_ITEM_19_ENCHANTMENT {
        "PlayerField::VISIBLE_ITEM_19_ENCHANTMENT"@
    } else if field_index == PlayerField::CHOSEN_TITLE {
        "PlayerField::CHOSEN_TITLE"@
    } else if field_index == PlayerField::FAKE_INEBRIATION {
        "PlayerField::FAKE_INEBRIATION"@
    } else if field_index == PlayerField::FIELD_PAD_0 {
        "PlayerField::FIELD_PAD_0"@
    } else if field_index == PlayerField::FIELD_INV_SLOT_HEAD {
        "PlayerField::FIELD_INV_SLOT_HEAD"@
    } else if field_index == PlayerField::FIELD_INV_SLOT_FIXME1 {
        "PlayerField::FIELD_INV_SLOT_FIXME1"@
    } else if field_index == PlayerField::FIELD_INV_SLOT_FIXME2 {
        "PlayerField::FIELD_INV_SLOT_FIXME2"@
    } else if field_index == PlayerField::FIELD_INV_SLOT_FIXME3 {
        "PlayerField::FIELD_INV_SLOT_FIXME3"@
    } else if field_index == PlayerField::FIELD_INV_SLOT_FIXME4 {
        "PlayerField::FIELD_INV_SLOT_FIXME4"@
    } else if field_index == PlayerField::FIELD_INV_SLOT_FIXME5 {
        "PlayerField::FIELD_INV_SLOT_FIXME5"@
    } else if field_index == PlayerField::FIELD_INV_SLOT_FIXME6 {
        "PlayerField::FIELD_INV_SLOT_FIXME6"@
    } else if field_index == PlayerField::FIELD_INV_SLOT_FIXME7 {
        "PlayerField::FIELD_INV_SLOT_FIXME7"@
    } else if field_index == PlayerField::FIELD_INV_SLOT_FIXME8 {
        "PlayerField::FIELD_INV_SLOT_FIXME8"@
    } else if field_index == PlayerField::FIELD_INV_SLOT_FIXME9 {
        "PlayerField::FIELD_INV_SLOT_FIXME9"@
    } else if field_index == PlayerField::FIELD_INV_SLOT_FIXME10 {
        "PlayerField::FIELD_INV_SLOT_FIXME10"@
    } else if field_index == PlayerField::FIELD_INV_SLOT_FIXME11 {
        "PlayerField::FIELD_INV_SLOT_FIXME11"@
    } else if field_index == PlayerField::FIELD_INV_SLOT_FIXME12 {
        "PlayerField::FIELD_INV_SLOT_FIXME12"@
    } else if field_index == PlayerField::FIELD_INV_SLOT_FIXME13 {
        "PlayerField::FIELD_INV_SLOT_FIXME13"@
    } else if field_index == PlayerField::FIELD_INV_SLOT_FIXME14 {
        "PlayerField::FIELD_INV_SLOT_FIXME14"@
    } else if field_index == PlayerField::FIELD_INV_SLOT_FIXME15 {
        "PlayerField::FIELD_INV_SLOT_FIXME15"@
    } else if field_index == PlayerField::FIELD_INV_SLOT_FIXME16 {
        "PlayerField::FIELD_INV_SLOT_FIXME16"@
    } else if field_index == PlayerField::FIELD_INV_SLOT_FIXME17 {
        "PlayerField::FIELD_INV_SLOT_FIXME17"@
    } else if field_index == PlayerField::FIELD_INV_SLOT_FIXME18 {
        "PlayerField::FIELD_INV_SLOT_FIXME18"@
    } else if field_index == PlayerField::FIELD_INV_SLOT_FIXME19 {
        "PlayerField::FIELD_INV_SLOT_FIXME19"@
    } else if field_index == PlayerField::FIELD_INV_SLOT_FIXME20 {
        "PlayerField::FIELD_INV_SLOT_FIXME20"@
    } else if field_index == PlayerField::FIELD_INV_SLOT_FIXME21 {
        "PlayerField::FIELD_INV_SLOT_FIXME21"@
    } else if field_index == PlayerField::FIELD_INV_SLOT_FIXME22 {
        "PlayerField::FIELD_INV_SLOT_FIXME22"@
    } else if field_index == PlayerField::FIELD_PACK_SLOT_1 {
        "PlayerField::FIELD_PACK_SLOT_1"@
    } else if field_index == PlayerField::FIELD_BANK_SLOT_1 {
        "PlayerField::FIELD_BANK_SLOT_1"@
    } else if field_index == PlayerField::FIELD_BANKBAG_SLOT_1 {
        "PlayerField::FIELD_BANKBAG_SLOT_1"@
    } else if field_index == PlayerField::FIELD_VENDORBUYBACK_SLOT_1 {
        "PlayerField::FIELD_VENDORBUYBACK_SLOT_1"@
    } else if field_index == PlayerField::FIELD_KEYRING_SLOT_1 {
        "PlayerField::FIELD_KEYRING_SLOT_1"@
    } else if field_index == PlayerField::FIELD_CURRENCYTOKEN_SLOT_1 {
        "PlayerField::FIELD_CURRENCYTOKEN_SLOT_1"@
    } else if field_index == PlayerField::FARSIGHT {
        "PlayerField::FARSIGHT"@
    } else if field_index == PlayerField::FIELD_KNOWN_TITLES {
        "PlayerField::FIELD_KNOWN_TITLES"@
    } else if field_index == PlayerField::FIELD_KNOWN_TITLES1 {
        "PlayerField::FIELD_KNOWN_TITLES1"@
    } else if field_index == PlayerField::FIELD_KNOWN_TITLES2 {
        "PlayerField::FIELD_KNOWN_TITLES2"@
    } else if field_index == PlayerField::FIELD_KNOWN_CURRENCIES {
        "PlayerField::FIELD_KNOWN_CURRENCIES"@
    } else if field_index == PlayerField::XP {
        "PlayerField::XP"@
    } else if field_index == PlayerField::NEXT_LEVEL_XP {
        "PlayerField::NEXT_LEVEL_XP"@
    } else if field_index == PlayerField::SKILL_INFO_1_1 {
        "PlayerField::SKILL_INFO_1_1"@
    } else if field_index == PlayerField::CHARACTER_POINTS1 {
        "PlayerField::CHARACTER_POINTS1"@
    } else if field_index == PlayerField::CHARACTER_POINTS2 {
        "PlayerField::CHARACTER_POINTS2"@
    } else if field_index == PlayerField::TRACK_CREATURES {
        "PlayerField::TRACK_CREATURES"@
    } else if field_index == PlayerField::TRACK_RESOURCES {
        "PlayerField::TRACK_RESOURCES"@
    } else if field_index == PlayerField::BLOCK_PERCENTAGE {
        "PlayerField::BLOCK_PERCENTAGE"@
    } else if field_index == PlayerField::DODGE_PERCENTAGE {
        "PlayerField::DODGE_PERCENTAGE"@
    } else if field_index == PlayerField::PARRY_PERCENTAGE {
        "PlayerField::PARRY_PERCENTAGE"@
    } else if field_index == PlayerField::EXPERTISE {
        "PlayerField::EXPERTISE"@
    } else if field_index == PlayerField::OFFHAND_EXPERTISE {
        "PlayerField::OFFHAND_EXPERTISE"@
    } else if field_index == PlayerField::CRIT_PERCENTAGE {
        "PlayerField::CRIT_PERCENTAGE"@
    } else if field_index == PlayerField::RANGED_CRIT_PERCENTAGE {
        "PlayerField::RANGED_CRIT_PERCENTAGE"@
    } else if field_index == PlayerField::OFFHAND_CRIT_PERCENTAGE {
        "PlayerField::OFFHAND_CRIT_PERCENTAGE"@
    } else if field_index == PlayerField::SPELL_CRIT_PERCENTAGE1 {
        "PlayerField::SPELL_CRIT_PERCENTAGE1"@
    } else if field_index == PlayerField::SPELL_CRIT_PERCENTAGE2 {
        "PlayerField::SPELL_CRIT_PERCENTAGE2"@
    } else if field_index == PlayerField::SPELL_CRIT_PERCENTAGE3 {
        "PlayerField::SPELL_CRIT_PERCENTAGE3"@
    } else if field_index == PlayerField::SPELL_CRIT_PERCENTAGE4 {
        "PlayerField::SPELL_CRIT_PERCENTAGE4"@
    } else if field_index == PlayerField::SPELL_CRIT_PERCENTAGE5 {
        "PlayerField::SPELL_CRIT_PERCENTAGE5"@
    } else if field_index == PlayerField::SPELL_CRIT_PERCENTAGE6 {
        "PlayerField::SPELL_CRIT_PERCENTAGE6"@
    } else if field_index == PlayerField::SPELL_CRIT_PERCENTAGE7 {
        "PlayerField::SPELL_CRIT_PERCENTAGE7"@
    } else if field_index == PlayerField::SHIELD_BLOCK {
        "PlayerField::SHIELD_BLOCK"@
    } else if field_index == PlayerField::SHIELD_BLOCK_CRIT_PERCENTAGE {
        "PlayerField::SHIELD_BLOCK_CRIT_PERCENTAGE"@
    } else if field_index == PlayerField::EXPLORED_ZONES_1 {
        "PlayerField::EXPLORED_ZONES_1"@
    } else if field_index == PlayerField::REST_STATE_EXPERIENCE {
        "PlayerField::REST_STATE_EXPERIENCE"@
    } else if field_index == PlayerField::FIELD_COINAGE {
        "PlayerField::FIELD_COINAGE"@
    } else if field_index == PlayerField::FIELD_MOD_DAMAGE_DONE_POS {
        "PlayerField::FIELD_MOD_DAMAGE_DONE_POS"@
    } else if field_index == PlayerField::FIELD_MOD_DAMAGE_DONE_NEG {
        "PlayerField::FIELD_MOD_DAMAGE_DONE_NEG"@
    } else if field_index == PlayerField::FIELD_MOD_DAMAGE_DONE_PCT1 {
        "PlayerField::FIELD_MOD_DAMAGE_DONE_PCT1"@
    } else if field_index == PlayerField::FIELD_MOD_DAMAGE_DONE_PCT2 {
        "PlayerField::FIELD_MOD_DAMAGE_DONE_PCT2"@
    } else if field_index == PlayerField::FIELD_MOD_DAMAGE_DONE_PCT3 {
        "PlayerField::FIELD_MOD_DAMAGE_DONE_PCT3"@
    } else if field_index == PlayerField::FIELD_MOD_DAMAGE_DONE_PCT4 {
        "PlayerField::FIELD_MOD_DAMAGE_DONE_PCT4"@
    } else if field_index == PlayerField::FIELD_MOD_DAMAGE_DONE_PCT5 {
        "PlayerField::FIELD_MOD_DAMAGE_DONE_PCT5"@
    } else if field_index == PlayerField::FIELD_MOD_DAMAGE_DONE_PCT6 {
        "PlayerField::FIELD_MOD_DAMAGE_DONE_PCT6"@
    } else if field_index == PlayerField::FIELD_MOD_DAMAGE_DONE_PCT7 {
        "PlayerField::FIELD_MOD_DAMAGE_DONE_PCT7"@
    } else if field_index == PlayerField::FIELD_MOD_HEALING_DONE_POS {
        "PlayerField::FIELD_MOD_HEALING_DONE_POS"@
    } else if field_index == PlayerField::FIELD_MOD_HEALING_PCT {
        "PlayerField::FIELD_MOD_HEALING_PCT"@
    } else if field_index == PlayerField::FIELD_MOD_HEALING_DONE_PCT {
        "PlayerField::FIELD_MOD_HEALING_DONE_PCT"@
    } else if field_index == PlayerField::FIELD_MOD_TARGET_RESISTANCE {
        "PlayerField::FIELD_MOD_TARGET_RESISTANCE"@
    } else if field_index == PlayerField::FIELD_MOD_TARGET_PHYSICAL_RESISTANCE {
        "PlayerField::FIELD_MOD_TARGET_PHYSICAL_RESISTANCE"@
    } else if field_index == PlayerField::FIELD_BYTES {
        "PlayerField::FIELD_BYTES"@
    } else if field_index == PlayerField::AMMO_ID {
        "PlayerField::AMMO_ID"@
    } else if field_index == PlayerField::SELF_RES_SPELL {
        "PlayerField::SELF_RES_SPELL"@
    } else if field_index == PlayerField::FIELD_PVP_MEDALS {
        "PlayerField::FIELD_PVP_MEDALS"@
    } else if field_index == PlayerField::FIELD_BUYBACK_PRICE_1 {
        "PlayerField::FIELD_BUYBACK_PRICE_1"@
    } else if field_index == PlayerField::FIELD_BUYBACK_PRICE_2 {
        "PlayerField::FIELD_BUYBACK_PRICE_2"@
    } else if field_index == PlayerField::FIELD_BUYBACK_PRICE_3 {
        "PlayerField::FIELD_BUYBACK_PRICE_3"@
    } else if field_index == PlayerField::FIELD_BUYBACK_PRICE_4 {
        "PlayerField::FIELD_BUYBACK_PRICE_4"@
    } else if field_index == PlayerField::FIELD_BUYBACK_PRICE_5 {
        "PlayerField::FIELD_BUYBACK_PRICE_5"@
    } else if field_index == PlayerField::FIELD_BUYBACK_PRICE_6 {
        "PlayerField::FIELD_BUYBACK_PRICE_6"@
    } else if field_index == PlayerField::FIELD_BUYBACK_PRICE_7 {
        "PlayerField::FIELD_BUYBACK_PRICE_7"@
    } else if field_index == PlayerField::FIELD_BUYBACK_PRICE_8 {
        "PlayerField::FIELD_BUYBACK_PRICE_8"@
    } else if field_index == PlayerField::FIELD_BUYBACK_PRICE_9 {
        "PlayerField::FIELD_BUYBACK_PRICE_9"@
    } else if field_index == PlayerField::FIELD_BUYBACK_PRICE_10 {
        "PlayerField::FIELD_BUYBACK_PRICE_10"@
    } else if field_index == PlayerField::FIELD_BUYBACK_PRICE_11 {
        "PlayerField::FIELD_BUYBACK_PRICE_11"@
    } else if field_index == PlayerField::FIELD_BUYBACK_PRICE_12 {
        "PlayerField::FIELD_BUYBACK_PRICE_12"@
    } else if field_index == PlayerField::FIELD_BUYBACK_TIMESTAMP_1 {
        "PlayerField::FIELD_BUYBACK_TIMESTAMP_1"@
    } else if field_index == PlayerField::FIELD_BUYBACK_TIMESTAMP_2 {
        "PlayerField::FIELD_BUYBACK_TIMESTAMP_2"@
    } else if field_index == PlayerField::FIELD_BUYBACK_TIMESTAMP_3 {
        "PlayerField::FIELD_BUYBACK_TIMESTAMP_3"@
    } else if field_index == PlayerField::FIELD_BUYBACK_TIMESTAMP_4 {
        "PlayerField::FIELD_BUYBACK_TIMESTAMP_4"@
    } else if field_index == PlayerField::FIELD_BUYBACK_TIMESTAMP_5 {
        "PlayerField::FIELD_BUYBACK_TIMESTAMP_5"@
    } else if field_index == PlayerField::FIELD_BUYBACK_TIMESTAMP_6 {
        "PlayerField::FIELD_BUYBACK_TIMESTAMP_6"@
    } else if field_index == PlayerField::FIELD_BUYBACK_TIMESTAMP_7 {
        "PlayerField::FIELD_BUYBACK_TIMESTAMP_7"@
    } else if field_index == PlayerField::FIELD_BUYBACK_TIMESTAMP_8 {
        "PlayerField::FIELD_BUYBACK_TIMESTAMP_8"@
    } else if field_index == PlayerField::FIELD_BUYBACK_TIMESTAMP_9 {
        "PlayerField::FIELD_BUYBACK_TIMESTAMP_9"@
    } else if field_index == PlayerField::FIELD_BUYBACK_TIMESTAMP_10 {
        "PlayerField::FIELD_BUYBACK_TIMESTAMP_10"@
    } else if field_index == PlayerField::FIELD_BUYBACK_TIMESTAMP_11 {
        "PlayerField::FIELD_BUYBACK_TIMESTAMP_11"@
    } else if field_index == PlayerField::FIELD_BUYBACK_TIMESTAMP_12 {
        "PlayerField::FIELD_BUYBACK_TIMESTAMP_12"@
    } else if field_index == PlayerField::FIELD_KILLS {
        "PlayerField::FIELD_KILLS"@
    } else if field_index == PlayerField::FIELD_TODAY_CONTRIBUTION {
        "PlayerField::FIELD_TODAY_CONTRIBUTION"@
    } else if field_index == PlayerField::FIELD_YESTERDAY_CONTRIBUTION {
        "PlayerField::FIELD_YESTERDAY_CONTRIBUTION"@
    } else if field_index == PlayerField::FIELD_LIFETIME_HONORABLE_KILLS {
        "PlayerField::FIELD_LIFETIME_HONORABLE_KILLS"@
    } else if field_index == PlayerField::FIELD_BYTES2 {
        "PlayerField::FIELD_BYTES2"@
    } else if field_index == PlayerField::FIELD_WATCHED_FACTION_INDEX {
        "PlayerField::FIELD_WATCHED_FACTION_INDEX"@
    } else if field_index == PlayerField::FIELD_COMBAT_RATING_1 {
        "PlayerField::FIELD_COMBAT_RATING_1"@
    } else if field_index == PlayerField::FIELD_ARENA_TEAM_INFO_1_1 {
        "PlayerField::FIELD_ARENA_TEAM_INFO_1_1"@
    } else if field_index == PlayerField::FIELD_HONOR_CURRENCY {
        "PlayerField::FIELD_HONOR_CURRENCY"@
    } else if field_index == PlayerField::FIELD_ARENA_CURRENCY {
        "PlayerField::FIELD_ARENA_CURRENCY"@
    } else if field_index == PlayerField::FIELD_MAX_LEVEL {
        "PlayerField::FIELD_MAX_LEVEL"@
    } else if field_index == PlayerField::FIELD_DAILY_QUESTS_1 {
        "PlayerField::FIELD_DAILY_QUESTS_1"@
    } else if field_index == PlayerField::RUNE_REGEN_1 {
        "PlayerField::RUNE_REGEN_1"@
    } else if field_index == PlayerField::RUNE_REGEN_2 {
        "PlayerField::RUNE_REGEN_2"@
    } else if field_index == PlayerField::RUNE_REGEN_3 {
        "PlayerField::RUNE_REGEN_3"@
    } else if field_index == PlayerField::RUNE_REGEN_4 {
        "PlayerField::RUNE_REGEN_4"@
    } else if field_index == PlayerField::NO_REAGENT_COST_1 {
        "PlayerField::NO_REAGENT_COST_1"@
    } else if field_index == PlayerField::FIELD_GLYPH_SLOTS_1 {
        "PlayerField::FIELD_GLYPH_SLOTS_1"@
    } else if field_index == PlayerField::FIELD_GLYPH_SLOTS_2 {
        "PlayerField::FIELD_GLYPH_SLOTS_2"@
    } else if field_index == PlayerField::FIELD_GLYPH_SLOTS_3 {
        "PlayerField::FIELD_GLYPH_SLOTS_3"@
    } else if field_index == PlayerField::FIELD_GLYPH_SLOTS_4 {
        "PlayerField::FIELD_GLYPH_SLOTS_4"@
    } else if field_index == PlayerField::FIELD_GLYPH_SLOTS_5 {
        "PlayerField::FIELD_GLYPH_SLOTS_5"@
    } else if field_index == PlayerField::FIELD_GLYPH_SLOTS_6 {
        "PlayerField::FIELD_GLYPH_SLOTS_6"@
    } else if field_index == PlayerField::FIELD_GLYPHS_1 {
        "PlayerField::FIELD_GLYPHS_1"@
    } else if field_index == PlayerField::FIELD_GLYPHS_2 {
        "PlayerField::FIELD_GLYPHS_2"@
    } else if field_index == PlayerField::FIELD_GLYPHS_3 {
        "PlayerField::FIELD_GLYPHS_3"@
    } else if field_index == PlayerField::FIELD_GLYPHS_4 {
        "PlayerField::FIELD_GLYPHS_4"@
    } else if field_index == PlayerField::FIELD_GLYPHS_5 {
        "PlayerField::FIELD_GLYPHS_5"@
    } else if field_index == PlayerField::FIELD_GLYPHS_6 {
        "PlayerField::FIELD_GLYPHS_6"@
    } else if field_index == PlayerField::GLYPHS_ENABLED {
        "PlayerField::GLYPHS_ENABLED"@
    } else if field_index == PlayerField::PET_SPELL_POWER {
        "PlayerField::PET_SPELL_POWER"@
    } else {
        Seq::empty()
    }
}

pub struct PlayerField;

impl PlayerField {
    pub const DUEL_ARBITER: u32 = 148;
    pub const FLAGS: u32 = 150;
    pub const GUILDID: u32 = 151;
    pub const GUILDRANK: u32 = 152;
    pub const BYTES: u32 = 153;
    pub const BYTES_2: u32 = 154;
    pub const BYTES_3: u32 = 155;
    pub const DUEL_TEAM: u32 = 156;
    pub const GUILD_TIMESTAMP: u32 = 157;
    pub const QUEST_LOG_1_1: u32 = 158;
    pub const QUEST_LOG_1_2: u32 = 159;
    pub const QUEST_LOG_1_3: u32 = 160;
    pub const QUEST_LOG_1_4: u32 = 162;
    pub const QUEST_LOG_2_1: u32 = 163;
    pub const QUEST_LOG_2_2: u32 = 164;
    pub const QUEST_LOG_2_3: u32 = 165;
    pub const QUEST_LOG_2_5: u32 = 167;
    pub const QUEST_LOG_3_1: u32 = 168;
    pub const QUEST_LOG_3_2: u32 = 169;
    pub const QUEST_LOG_3_3: u32 = 170;
    pub const QUEST_LOG_3_5: u32 = 172;
    pub const QUEST_LOG_4_1: u32 = 173;
    pub const QUEST_LOG_4_2: u32 = 174;
    pub const QUEST_LOG_4_3: u32 = 175;
    pub const QUEST_LOG_4_5: u32 = 177;
    pub const QUEST_LOG_5_1: u32 = 178;
    pub const QUEST_LOG_5_2: u32 = 179;
    pub const QUEST_LOG_5_3: u32 = 180;
    pub const QUEST_LOG_5_5: u32 = 182;
    pub const QUEST_LOG_6_1: u32 = 183;
    pub const QUEST_LOG_6_2: u32 = 184;
    pub const QUEST_LOG_6_3: u32 = 185;
    pub const QUEST_LOG_6_5: u32 = 187;
    pub const QUEST_LOG_7_1: u32 = 188;
    pub const QUEST_LOG_7_2: u32 = 189;
    pub const QUEST_LOG_7_3: u32 = 190;
    pub const QUEST_LOG_7_5: u32 = 192;
    pub const QUEST_LOG_8_1: u32 = 193;
    pub const QUEST_LOG_8_2: u32 = 194;
    pub const QUEST_LOG_8_3: u32 = 195;
    pub const QUEST_LOG_8_5: u32 = 197;
    pub const QUEST_LOG_9_1: u32 = 198;
    pub const QUEST_LOG_9_2: u32 = 199;
    pub const QUEST_LOG_9_3: u32 = 200;
    pub const QUEST_LOG_9_5: u32 = 202;
    pub const QUEST_LOG_10_1: u32 = 203;
    pub const QUEST_LOG_10_2: u32 = 204;
    pub const QUEST_LOG_10_3: u32 = 205;
    pub const QUEST_LOG_10_5: u32 = 207;
    pub const QUEST_LOG_11_1: u32 = 208;
    pub const QUEST_LOG_11_2: u32 = 209;
    pub const QUEST_LOG_11_3: u32 = 210;
    pub const QUEST_LOG_11_5: u32 = 212;
    pub const QUEST_LOG_12_1: u32 = 213;
    pub const QUEST_LOG_12_2: u32 = 214;
    pub const QUEST_LOG_12_3: u32 = 215;
    pub const QUEST_LOG_12_5: u32 = 217;
    pub const QUEST_LOG_13_1: u32 = 218;
    pub const QUEST_LOG_13_2: u32 = 219;
    pub const QUEST_LOG_13_3: u32 = 220;
    pub const QUEST_LOG_13_5: u32 = 222;
    pub const QUEST_LOG_14_1: u32 = 223;
    pub const QUEST_LOG_14_2: u32 = 224;
    pub const QUEST_LOG_14_3: u32 = 225;
    pub const QUEST_LOG_14_5: u32 = 227;
    pub const QUEST_LOG_15_1: u32 = 228;
    pub const QUEST_LOG_15_2: u32 = 229;
    pub const QUEST_LOG_15_3: u32 = 230;
    pub const QUEST_LOG_15_5: u32 = 232;
    pub const QUEST_LOG_16_1: u32 = 233;
    pub const QUEST_LOG_16_2: u32 = 234;
    pub const QUEST_LOG_16_3: u32 = 235;
    pub const QUEST_LOG_16_5: u32 = 237;
    pub const QUEST_LOG_17_1: u32 = 238;
    pub const QUEST_LOG_17_2: u32 = 239;
    pub const QUEST_LOG_17_3: u32 = 240;
    pub const QUEST_LOG_17_5: u32 = 242;
    pub const QUEST_LOG_18_1: u32 = 243;
    pub const QUEST_LOG_18_2: u32 = 244;
    pub const QUEST_LOG_18_3: u32 = 245;
    pub const QUEST_LOG_18_5: u32 = 247;
    pub const QUEST_LOG_19_1: u32 = 248;
    pub const QUEST_LOG_19_2: u32 = 249;
    pub const QUEST_LOG_19_3: u32 = 250;
    pub const QUEST_LOG_19_5: u32 = 252;
    pub const QUEST_LOG_20_1: u32 = 253;
    pub const QUEST_LOG_20_2: u32 = 254;
    pub const QUEST_LOG_20_3: u32 = 255;
    pub const QUEST_LOG_20_5: u32 = 257;
    pub const QUEST_LOG_21_1: u32 = 258;
    pub const QUEST_LOG_21_2: u32 = 259;
    pub const QUEST_LOG_21_3: u32 = 260;
    pub const QUEST_LOG_21_5: u32 = 262;
    pub const QUEST_LOG_22_1: u32 = 263;
    pub const QUEST_LOG_22_2: u32 = 264;
    pub const QUEST_LOG_22_3: u32 = 265;
    pub const QUEST_LOG_22_5: u32 = 267;
    pub const QUEST_LOG_23_1: u32 = 268;
    pub const QUEST_LOG_23_2: u32 = 269;
    pub const QUEST_LOG_23_3: u32 = 270;
    pub const QUEST_LOG_23_5: u32 = 272;
    pub const QUEST_LOG_24_1: u32 = 273;
    pub const QUEST_LOG_24_2: u32 = 274;
    pub const QUEST_LOG_24_3: u32 = 275;
    pub const QUEST_LOG_24_5: u32 = 277;
    pub const QUEST_LOG_25_1: u32 = 278;
    pub const QUEST_LOG_25_2: u32 = 279;
    pub const QUEST_LOG_25_3: u32 = 280;
    pub const QUEST_LOG_25_5: u32 = 282;
    pub const VISIBLE_ITEM_1_ENTRYID: u32 = 283;
    pub const VISIBLE_ITEM_1_ENCHANTMENT: u32 = 284;
    pub const VISIBLE_ITEM_2_ENTRYID: u32 = 285;
    pub const VISIBLE_ITEM_2_ENCHANTMENT: u32 = 286;
    pub const VISIBLE_ITEM_3_ENTRYID: u32 = 287;
    pub const VISIBLE_ITEM_3_ENCHANTMENT: u32 = 288;
    pub const VISIBLE_ITEM_4_ENTRYID: u32 = 289;
    pub const VISIBLE_ITEM_4_ENCHANTMENT: u32 = 290;
    pub const VISIBLE_ITEM_5_ENTRYID: u32 = 291;
    pub const VISIBLE_ITEM_5_ENCHANTMENT: u32 = 292;
    pub const VISIBLE_ITEM_6_ENTRYID: u32 = 293;
    pub const VISIBLE_ITEM_6_ENCHANTMENT: u32 = 294;
    pub const VISIBLE_ITEM_7_ENTRYID: u32 = 295;
    pub const VISIBLE_ITEM_7_ENCHANTMENT: u32 = 296;
    pub const VISIBLE_ITEM_8_ENTRYID: u32 = 297;
    pub const VISIBLE_ITEM_8_ENCHANTMENT: u32 = 298;
    pub const VISIBLE_ITEM_9_ENTRYID: u32 = 299;
    pub const VISIBLE_ITEM_9_ENCHANTMENT: u32 = 300;
    pub const VISIBLE_ITEM_10_ENTRYID: u32 = 301;
    pub const VISIBLE_ITEM_10_ENCHANTMENT: u32 = 302;
    pub const VISIBLE_ITEM_11_ENTRYID: u32 = 303;
    pub const VISIBLE_ITEM_11_ENCHANTMENT: u32 = 304;
    pub const VISIBLE_ITEM_12_ENTRYID: u32 = 305;
    pub const VISIBLE_ITEM_12_ENCHANTMENT: u32 = 306;
    pub const VISIBLE_ITEM_13_ENTRYID: u32 = 307;
    pub const VISIBLE_ITEM_13_ENCHANTMENT: u32 = 308;
    pub const VISIBLE_ITEM_14_ENTRYID: u32 = 309;
    pub const VISIBLE_ITEM_14_ENCHANTMENT: u32 = 310;
    pub const VISIBLE_ITEM_15_ENTRYID: u32 = 311;
    pub const VISIBLE_ITEM_15_ENCHANTMENT: u32 = 312;
    pub const VISIBLE_ITEM_16_ENTRYID: u32 = 313;
    pub const VISIBLE_ITEM_16_ENCHANTMENT: u32 = 314;
    pub const VISIBLE_ITEM_17_ENTRYID: u32 = 315;
    pub const VISIBLE_ITEM_17_ENCHANTMENT: u32 = 316;
    pub const VISIBLE_ITEM_18_ENTRYID: u32 = 317;
    pub const VISIBLE_ITEM_18_ENCHANTMENT: u32 = 318;
    pub const VISIBLE_ITEM_19_ENTRYID: u32 = 319;
    pub const VISIBLE_ITEM_19_ENCHANTMENT: u32 = 320;
    pub const CHOSEN_TITLE: u32 = 321;
    pub const FAKE_INEBRIATION: u32 = 322;
    pub const FIELD_PAD_0: u32 = 323;
    pub const FIELD_INV_SLOT_HEAD: u32 = 324;
    pub const FIELD_INV_SLOT_FIXME1: u32 = 326;
    pub const FIELD_INV_SLOT_FIXME2: u32 = 328;
    pub const FIELD_INV_SLOT_FIXME3: u32 = 330;
    pub const FIELD_INV_SLOT_FIXME4: u32 = 332;
    pub const FIELD_INV_SLOT_FIXME5: u32 = 334;
    pub const FIELD_INV_SLOT_FIXME6: u32 = 336;
    pub const FIELD_INV_SLOT_FIXME7: u32 = 338;
    pub const FIELD_INV_SLOT_FIXME8: u32 = 340;
    pub const FIELD_INV_SLOT_FIXME9: u32 = 342;
    pub const FIELD_INV_SLOT_FIXME10: u32 = 344;
    pub const FIELD_INV_SLOT_FIXME11: u32 = 346;
    pub const FIELD_INV_SLOT_FIXME12: u32 = 348;
    pub const FIELD_INV_SLOT_FIXME13: u32 = 350;
    pub const FIELD_INV_SLOT_FIXME14: u32 = 352;
    pub const FIELD_INV_SLOT_FIXME15: u32 = 354;
    pub const FIELD_INV_SLOT_FIXME16: u32 = 356;
    pub const FIELD_INV_SLOT_FIXME17: u32 = 358;
    pub const FIELD_INV_SLOT_FIXME18: u32 = 360;
    pub const FIELD_INV_SLOT_FIXME19: u32 = 362;
    pub const FIELD_INV_SLOT_FIXME20: u32 = 364;
    pub const FIELD_INV_SLOT_FIXME21: u32 = 366;
    pub const FIELD_INV_SLOT_FIXME22: u32 = 368;
    pub const FIELD_PACK_SLOT_1: u32 = 370;
    pub const FIELD_BANK_SLOT_1: u32 = 402;
    pub const FIELD_BANKBAG_SLOT_1: u32 = 458;
    pub const FIELD_VENDORBUYBACK_SLOT_1: u32 = 472;
    pub const FIELD_KEYRING_SLOT_1: u32 = 496;
    pub const FIELD_CURRENCYTOKEN_SLOT_1: u32 = 560;
    pub const FARSIGHT: u32 = 624;
    pub const FIELD_KNOWN_TITLES: u32 = 626;
    pub const FIELD_KNOWN_TITLES1: u32 = 628;
    pub const FIELD_KNOWN_TITLES2: u32 = 630;
    pub const FIELD_KNOWN_CURRENCIES: u32 = 632;
    pub const XP: u32 = 634;
    pub const NEXT_LEVEL_XP: u32 = 635;
    pub const SKILL_INFO_1_1: u32 = 636;
    pub const CHARACTER_POINTS1: u32 = 1020;
    pub const CHARACTER_POINTS2: u32 = 1021;
    pub const TRACK_CREATURES: u32 = 1022;
    pub const TRACK_RESOURCES: u32 = 1023;
    pub const BLOCK_PERCENTAGE: u32 = 1024;
    pub const DODGE_PERCENTAGE: u32 = 1025;
    pub const PARRY_PERCENTAGE: u32 = 1026;
    pub const EXPERTISE: u32 = 1027;
    pub const OFFHAND_EXPERTISE: u32 = 1028;
    pub const CRIT_PERCENTAGE: u32 = 1029;
    pub const RANGED_CRIT_PERCENTAGE: u32 = 1030;
    pub const OFFHAND_CRIT_PERCENTAGE: u32 = 1031;
    pub const SPELL_CRIT_PERCENTAGE1: u32 = 1032;
    pub const SPELL_CRIT_PERCENTAGE2: u32 = 1033;
    pub const SPELL_CRIT_PERCENTAGE3: u32 = 1034;
    pub const SPELL_CRIT_PERCENTAGE4: u32 = 1035;
    pub const SPELL_CRIT_PERCENTAGE5: u32 = 1036;
    pub const SPELL_CRIT_PERCENTAGE6: u32 = 1037;
    pub const SPELL_CRIT_PERCENTAGE7: u32 = 1038;
    pub const SHIELD_BLOCK: u32 = 1039;
    pub const SHIELD_BLOCK_CRIT_PERCENTAGE: u32 = 1040;
    pub const EXPLORED_ZONES_1: u32 = 1041;
    pub const REST_STATE_EXPERIENCE: u32 = 1169;
    pub const FIELD_COINAGE: u32 = 1170;
    pub const FIELD_MOD_DAMAGE_DONE_POS: u32 = 1171;
    pub const FIELD_MOD_DAMAGE_DONE_NEG: u32 = 1178;
    pub const FIELD_MOD_DAMAGE_DONE_PCT1: u32 = 1185;
    pub const FIELD_MOD_DAMAGE_DONE_PCT2: u32 = 1186;
    pub const FIELD_MOD_DAMAGE_DONE_PCT3: u32 = 1187;
    pub const FIELD_MOD_DAMAGE_DONE_PCT4: u32 = 1188;
    pub const FIELD_MOD_DAMAGE_DONE_PCT5: u32 = 1189;
    pub const FIELD_MOD_DAMAGE_DONE_PCT6: u32 = 1190;
    pub const FIELD_MOD_DAMAGE_DONE_PCT7: u32 = 1191;
    pub const FIELD_MOD_HEALING_DONE_POS: u32 = 1192;
    pub const FIELD_MOD_HEALING_PCT: u32 = 1193;
    pub const FIELD_MOD_HEALING_DONE_PCT: u32 = 1194;
    pub const FIELD_MOD_TARGET_RESISTANCE: u32 = 1195;
    pub const FIELD_MOD_TARGET_PHYSICAL_RESISTANCE: u32 = 1196;
    pub const FIELD_BYTES: u32 = 1197;
    pub const AMMO_ID: u32 = 1198;
    pub const SELF_RES_SPELL: u32 = 1199;
    pub const FIELD_PVP_MEDALS: u32 = 1200;
    pub const FIELD_BUYBACK_PRICE_1: u32 = 1201;
    pub const FIELD_BUYBACK_PRICE_2: u32 = 1202;
    pub const FIELD_BUYBACK_PRICE_3: u32 = 1203;
    pub const FIELD_BUYBACK_PRICE_4: u32 = 1204;
    pub const FIELD_BUYBACK_PRICE_5: u32 = 1205;
    pub const FIELD_BUYBACK_PRICE_6: u32 = 1206;
    pub const FIELD_BUYBACK_PRICE_7: u32 = 1207;
    pub const FIELD_BUYBACK_PRICE_8: u32 = 1208;
    pub const FIELD_BUYBACK_PRICE_9: u32 = 1209;
    pub const FIELD_BUYBACK_PRICE_10: u32 = 1210;
    pub const FIELD_BUYBACK_PRICE_11: u32 = 1211;
    pub const FIELD_BUYBACK_PRICE_12: u32 = 1212;
    pub const FIELD_BUYBACK_TIMESTAMP_1: u32 = 1213;
    pub const FIELD_BUYBACK_TIMESTAMP_2: u32 = 1214;
    pub const FIELD_BUYBACK_TIMESTAMP_3: u32 = 1215;
    pub const FIELD_BUYBACK_TIMESTAMP_4: u32 = 1216;
    pub const FIELD_BUYBACK_TIMESTAMP_5: u32 = 1217;
    pub const FIELD_BUYBACK_TIMESTAMP_6: u32 = 1218;
    pub const FIELD_BUYBACK_TIMESTAMP_7: u32 = 1219;
    pub const FIELD_BUYBACK_TIMESTAMP_8: u32 = 1220;
    pub const FIELD_BUYBACK_TIMESTAMP_9: u32 = 1221;
    pub const FIELD_BUYBACK_TIMESTAMP_10: u32 = 1222;
    pub const FIELD_BUYBACK_TIMESTAMP_11: u32 = 1223;
    pub const FIELD_BUYBACK_TIMESTAMP_12: u32 = 1224;
    pub const FIELD_KILLS: u32 = 1225;
    pub const FIELD_TODAY_CONTRIBUTION: u32 = 1226;
    pub const FIELD_YESTERDAY_CONTRIBUTION: u32 = 1227;
    pub const FIELD_LIFETIME_HONORABLE_KILLS: u32 = 1228;
    pub const FIELD_BYTES2: u32 = 1229;
    pub const FIELD_WATCHED_FACTION_INDEX: u32 = 1230;
    pub const FIELD_COMBAT_RATING_1: u32 = 1231;
    pub const FIELD_ARENA_TEAM_INFO_1_1: u32 = 1256;
    pub const FIELD_HONOR_CURRENCY: u32 = 1277;
    pub const FIELD_ARENA_CURRENCY: u32 = 1278;
    pub const FIELD_MAX_LEVEL: u32 = 1279;
    pub const FIELD_DAILY_QUESTS_1: u32 = 1280;
    pub const RUNE_REGEN_1: u32 = 1305;
    pub const RUNE_REGEN_2: u32 = 1306;
    pub const RUNE_REGEN_3: u32 = 1307;
    pub const RUNE_REGEN_4: u32 = 1308;
    pub const NO_REAGENT_COST_1: u32 = 1309;
    pub const FIELD_GLYPH_SLOTS_1: u32 = 1312;
    pub const FIELD_GLYPH_SLOTS_2: u32 = 1313;
    pub const FIELD_GLYPH_SLOTS_3: u32 = 1314;
    pub const FIELD_GLYPH_SLOTS_4: u32 = 1315;
    pub const FIELD_GLYPH_SLOTS_5: u32 = 1316;
    pub const FIELD_GLYPH_SLOTS_6: u32 = 1317;
    pub const FIELD_GLYPHS_1: u32 = 1318;
    pub const FIELD_GLYPHS_2: u32 = 1319;
    pub const FIELD_GLYPHS_3: u32 = 1320;
    pub const FIELD_GLYPHS_4: u32 = 1321;
    pub const FIELD_GLYPHS_5: u32 = 1322;
    pub const FIELD_GLYPHS_6: u32 = 1323;
    pub const GLYPHS_ENABLED: u32 = 1324;
    pub const PET_SPELL_POWER: u32 = 1325;

    pub fn get_field_type(field_index: u32) -> (field_type: FieldType)
        ensures
            field_type == player_field_type(field_index),
    {
        if field_index == PlayerField::DUEL_ARBITER {
            FieldType::LONG
        } else if field_index == PlayerField::FLAGS {
            FieldType::INT
        } else if field_index == PlayerField::GUILDID {
            FieldType::INT
        } else if field_index == PlayerField::GUILDRANK {
            FieldType::INT
        } else if field_index == PlayerField::BYTES {
            FieldType::INT
        } else if field_index == PlayerField::BYTES_2 {
            FieldType::INT
        } else if field_index == PlayerField::BYTES_3 {
            FieldType::INT
        } else if field_index == PlayerField::DUEL_TEAM {
            FieldType::INT
        } else if field_index == PlayerField::GUILD_TIMESTAMP {
            FieldType::INT
        } else if field_index == PlayerField::QUEST_LOG_1_1 {
            FieldType::INT
        } else if field_index == PlayerField::QUEST_LOG_1_2 {
            FieldType::INT
        } else if field_index == PlayerField::QUEST_LOG_1_3 {
            FieldType::INT
        } else if field_index == PlayerField::QUEST_LOG_1_4 {
            FieldType::INT
        } else if field_index == PlayerField::QUEST_LOG_2_1 {
            FieldType::INT
        } else if field_index == PlayerField::QUEST_LOG_2_2 {
            FieldType::INT
        } else if field_index == PlayerField::QUEST_LOG_2_3 {
            FieldType::INT
        } else if field_index == PlayerField::QUEST_LOG_2_5 {
            FieldType::INT
        } else if field_index == PlayerField::QUEST_LOG_3_1 {
            FieldType::INT
        } else if field_index == PlayerField::QUEST_LOG_3_2 {
            FieldType::INT
        } else if field_index == PlayerField::QUEST_LOG_3_3 {
            FieldType::INT
        } else if field_index == PlayerField::QUEST_LOG_3_5 {
            FieldType::INT
        } else if field_index == PlayerField::QUEST_LOG_4_1 {
            FieldType::INT
        } else if field_index == PlayerField::QUEST_LOG_4_2 {
            FieldType::INT
        } else if field_index == PlayerField::QUEST_LOG_4_3 {
            FieldType::INT
        } else if field_index == PlayerField::QUEST_LOG_4_5 {
            FieldType::INT
        } else if field_index == PlayerField::QUEST_LOG_5_1 {
            FieldType::INT
        } else if field_index == PlayerField::QUEST_LOG_5_2 {
            FieldType::INT
        } else if field_index == PlayerField::QUEST_LOG_5_3 {
            FieldType::INT
        } else if field_index == PlayerField::QUEST_LOG_5_5 {
            FieldType::INT
        } else if field_index == PlayerField::QUEST_LOG_6_1 {
            FieldType::INT
        } else if field_index == PlayerField::QUEST_LOG_6_2 {
            FieldType::INT
        } else if field_index == PlayerField::QUEST_LOG_6_3 {
            FieldType::INT
        } else if field_index == PlayerField::QUEST_LOG_6_5 {
            FieldType::INT
        } else if field_index == PlayerField::QUEST_LOG_7_1 {
            FieldType::INT
        } else if field_index == PlayerField::QUEST_LOG_7_2 {
            FieldType::INT
        } else if field_index == PlayerField::QUEST_LOG_7_3 {
            FieldType::INT
        } else if field_index == PlayerField::QUEST_LOG_7_5 {
            FieldType::INT
        } else if field_index == PlayerField::QUEST_LOG_8_1 {
            FieldType::INT
        } else if field_index == PlayerField::QUEST_LOG_8_2 {
            FieldType::INT
        } else if field_index == PlayerField::QUEST_LOG_8_3 {
            FieldType::INT
        } else if field_index == PlayerField::QUEST_LOG_8_5 {
            FieldType::INT
        } else if field_index == PlayerField::QUEST_LOG_9_1 {
            FieldType::INT
        } else if field_index == PlayerField::QUEST_LOG_9_2 {
            FieldType::INT
        } else if field_index == PlayerField::QUEST_LOG_9_3 {
            FieldType::INT
        } else if field_index == PlayerField::QUEST_LOG_9_5 {
            FieldType::INT
        } else if field_index == PlayerField::QUEST_LOG_10_1 {
            FieldType::INT
        } else if field_index == PlayerField::QUEST_LOG_10_2 {
            FieldType::INT
        } else if field_index == PlayerField::QUEST_LOG_10_3 {
            FieldType::INT
        } else if field_index == PlayerField::QUEST_LOG_10_5 {
            FieldType::INT
        } else if field_index == PlayerField::QUEST_LOG_11_1 {
            FieldType::INT
        } else if field_index == PlayerField::QUEST_LOG_11_2 {
            FieldType::INT
        } else if field_index == PlayerField::QUEST_LOG_11_3 {
            FieldType::INT
        } else if field_index == PlayerField::QUEST_LOG_11_5 {
            FieldType::INT
        } else if field_index == PlayerField::QUEST_LOG_12_1 {
            FieldType::INT
        } else if field_index == PlayerField::QUEST_LOG_12_2 {
            FieldType::INT
        } else if field_index == PlayerField::QUEST_LOG_12_3 {
            FieldType::INT
        } else if field_index == PlayerField::QUEST_LOG_12_5 {
            FieldType::INT
        } else if field_index == PlayerField::QUEST_LOG_13_1 {
            FieldType::INT
        } else if field_index == PlayerField::QUEST_LOG_13_2 {
            FieldType::INT
        } else if field_index == PlayerField::QUEST_LOG_13_3 {
            FieldType::INT
        } else if field_index == PlayerField::QUEST_LOG_13_5 {
            FieldType::INT
        } else if field_index == PlayerField::QUEST_LOG_14_1 {
            FieldType::INT
        } else if field_index == PlayerField::QUEST_LOG_14_2 {
            FieldType::INT
        } else if field_index == PlayerField::QUEST_LOG_14_3 {
            FieldType::INT
        } else if field_index == PlayerField::QUEST_LOG_14_5 {
            FieldType::INT
        } else if field_index == PlayerField::QUEST_LOG_15_1 {
            FieldType::INT
        } else if field_index == PlayerField::QUEST_LOG_15_2 {
            FieldType::INT
        } else if field_index == PlayerField::QUEST_LOG_15_3 {
            FieldType::INT
        } else if field_index == PlayerField::QUEST_LOG_15_5 {
            FieldType::INT
        } else if field_index == PlayerField::QUEST_LOG_16_1 {
            FieldType::INT
        } else if field_index == PlayerField::QUEST_LOG_16_2 {
            FieldType::INT
        } else if field_index == PlayerField::QUEST_LOG_16_3 {
            FieldType::INT
        } else if field_index == PlayerField::QUEST_LOG_16_5 {
            FieldType::INT
        } else if field_index == PlayerField::QUEST_LOG_17_1 {
            FieldType::INT
        } else if field_index == PlayerField::QUEST_LOG_17_2 {
            FieldType::INT
        } else if field_index == PlayerField::QUEST_LOG_17_3 {
            FieldType::INT
        } else if field_index == PlayerField::QUEST_LOG_17_5 {
            FieldType::INT
        } else if field_index == PlayerField::QUEST_LOG_18_1 {
            FieldType::INT
        } else if field_index == PlayerField::QUEST_LOG_18_2 {
            FieldType::INT
        } else if field_index == PlayerField::QUEST_LOG_18_3 {
            FieldType::INT
        } else if field_index == PlayerField::QUEST_LOG_18_5 {
            FieldType::INT
        } else if field_index == PlayerField::QUEST_LOG_19_1 {
            FieldType::INT
        } else if field_index == PlayerField::QUEST_LOG_19_2 {
            FieldType::INT
        } else if field_index == PlayerField::QUEST_LOG_19_3 {
            FieldType::INT
        } else if field_index == PlayerField::QUEST_LOG_19_5 {
            FieldType::INT
        } else if field_index == PlayerField::QUEST_LOG_20_1 {
            FieldType::INT
        } else if field_index == PlayerField::QUEST_LOG_20_2 {
            FieldType::INT
        } else if field_index == PlayerField::QUEST_LOG_20_3 {
            FieldType::INT
        } else if field_index == PlayerField::QUEST_LOG_20_5 {
            FieldType::INT
        } else if field_index == PlayerField::QUEST_LOG_21_1 {
            FieldType::INT
        } else if field_index == PlayerField::QUEST_LOG_21_2 {
            FieldType::INT
        } else if field_index == PlayerField::QUEST_LOG_21_3 {
            FieldType::INT
        } else if field_index == PlayerField::QUEST_LOG_21_5 {
            FieldType::INT
        } else if field_index == PlayerField::QUEST_LOG_22_1 {
            FieldType::INT
        } else if field_index == PlayerField::QUEST_LOG_22_2 {
            FieldType::INT
        } else if field_index == PlayerField::QUEST_LOG_22_3 {
            FieldType::INT
        } else if field_index == PlayerField::QUEST_LOG_22_5 {
            FieldType::INT
        } else if field_index == PlayerField::QUEST_LOG_23_1 {
            FieldType::INT
        } else if field_index == PlayerField::QUEST_LOG_23_2 {
            FieldType::INT
        } else if field_index == PlayerField::QUEST_LOG_23_3 {
            FieldType::INT
        } else if field_index == PlayerField::QUEST_LOG_23_5 {
            FieldType::INT
        } else if field_index == PlayerField::QUEST_LOG_24_1 {
            FieldType::INT
        } else if field_index == PlayerField::QUEST_LOG_24_2 {
            FieldType::INT
        } else if field_index == PlayerField::QUEST_LOG_24_3 {
            FieldType::INT
        } else if field_index == PlayerField::QUEST_LOG_24_5 {
            FieldType::INT
        } else if field_index == PlayerField::QUEST_LOG_25_1 {
            FieldType::INT
        } else if field_index == PlayerField::QUEST_LOG_25_2 {
            FieldType::INT
        } else if field_index == PlayerField::QUEST_LOG_25_3 {
            FieldType::INT
        } else if field_index == PlayerField::QUEST_LOG_25_5 {
            FieldType::INT
        } else if field_index == PlayerField::VISIBLE_ITEM_1_ENTRYID {
            FieldType::INT
        } else if field_index == PlayerField::VISIBLE_ITEM_1_ENCHANTMENT {
            FieldType::INT
        } else if field_index == PlayerField::VISIBLE_ITEM_2_ENTRYID {
            FieldType::INT
        } else if field_index == PlayerField::VISIBLE_ITEM_2_ENCHANTMENT {
            FieldType::INT
        } else if field_index == PlayerField::VISIBLE_ITEM_3_ENTRYID {
            FieldType::INT
        } else if field_index == PlayerField::VISIBLE_ITEM_3_ENCHANTMENT {
            FieldType::INT
        } else if field_index == PlayerField::VISIBLE_ITEM_4_ENTRYID {
            FieldType::INT
        } else if field_index == PlayerField::VISIBLE_ITEM_4_ENCHANTMENT {
            FieldType::INT
        } else if field_index == PlayerField::VISIBLE_ITEM_5_ENTRYID {
            FieldType::INT
        } else if field_index == PlayerField::VISIBLE_ITEM_5_ENCHANTMENT {
            FieldType::INT
        } else if field_index == PlayerField::VISIBLE_ITEM_6_ENTRYID {
            FieldType::INT
        } else if field_index == PlayerField::VISIBLE_ITEM_6_ENCHANTMENT {
            FieldType::INT
        } else if field_index == PlayerField::VISIBLE_ITEM_7_ENTRYID {
            FieldType::INT
        } else if field_index == PlayerField::VISIBLE_ITEM_7_ENCHANTMENT {
            FieldType::INT
        } else if field_index == PlayerField::VISIBLE_ITEM_8_ENTRYID {
            FieldType::INT
        } else if field_index == PlayerField::VISIBLE_ITEM_8_ENCHANTMENT {
            FieldType::INT
        } else if field_index == PlayerField::VISIBLE_ITEM_9_ENTRYID {
            FieldType::INT
        } else if field_index == PlayerField::VISIBLE_ITEM_9_ENCHANTMENT {
            FieldType::INT
        } else if field_index == PlayerField::VISIBLE_ITEM_10_ENTRYID {
            FieldType::INT
        } else if field_index == PlayerField::VISIBLE_ITEM_10_ENCHANTMENT {
            FieldType::INT
        } else if field_index == PlayerField::VISIBLE_ITEM_11_ENTRYID {
            FieldType::INT
        } else if field_index == PlayerField::VISIBLE_ITEM_11_ENCHANTMENT {
            FieldType::INT
        } else if field_index == PlayerField::VISIBLE_ITEM_12_ENTRYID {
            FieldType::INT
        } else if field_index == PlayerField::VISIBLE_ITEM_12_ENCHANTMENT {
            FieldType::INT
        } else if field_index == PlayerField::VISIBLE_ITEM_13_ENTRYID {
            FieldType::INT
        } else if field_index == PlayerField::VISIBLE_ITEM_13_ENCHANTMENT {
            FieldType::INT
        } else if field_index == PlayerField::VISIBLE_ITEM_14_ENTRYID {
            FieldType::INT
        } else if field_index == PlayerField::VISIBLE_ITEM_14_ENCHANTMENT {
            FieldType::INT
        } else if field_index == PlayerField::VISIBLE_ITEM_15_ENTRYID {
            FieldType::INT
        } else if field_index == PlayerField::VISIBLE_ITEM_15_ENCHANTMENT {
            FieldType::INT
        } else if field_index == PlayerField::VISIBLE_ITEM_16_ENTRYID {
            FieldType::INT
        } else if field_index == PlayerField::VISIBLE_ITEM_16_ENCHANTMENT {
            FieldType::INT
        } else if field_index == PlayerField::VISIBLE_ITEM_17_ENTRYID {
            FieldType::INT
        } else if field_index == PlayerField::VISIBLE_ITEM_17_ENCHANTMENT {
            FieldType::INT
        } else if field_index == PlayerField::VISIBLE_ITEM_18_ENTRYID {
            FieldType::INT
        } else if field_index == PlayerField::VISIBLE_ITEM_18_ENCHANTMENT {
            FieldType::INT
        } else if field_index == PlayerField::VISIBLE_ITEM_19_ENTRYID {
            FieldType::INT
        } else if field_index == PlayerField::VISIBLE_ITEM_19_ENCHANTMENT {
            FieldType::INT
        } else if field_index == PlayerField::CHOSEN_TITLE {
            FieldType::INT
        } else if field_index == PlayerField::FAKE_INEBRIATION {
            FieldType::INT
        } else if field_index == PlayerField::FIELD_PAD_0 {
            FieldType::INT
        } else if field_index == PlayerField::FIELD_INV_SLOT_HEAD {
            FieldType::LONG
        } else if field_index == PlayerField::FIELD_INV_SLOT_FIXME1 {
            FieldType::LONG
        } else if field_index == PlayerField::FIELD_INV_SLOT_FIXME2 {
            FieldType::LONG
        } else if field_index == PlayerField::FIELD_INV_SLOT_FIXME3 {
            FieldType::LONG
        } else if field_index == PlayerField::FIELD_INV_SLOT_FIXME4 {
            FieldType::LONG
        } else if field_index == PlayerField::FIELD_INV_SLOT_FIXME5 {
            FieldType::LONG
        } else if field_index == PlayerField::FIELD_INV_SLOT_FIXME6 {
            FieldType::LONG
        } else if field_index == PlayerField::FIELD_INV_SLOT_FIXME7 {
            FieldType::LONG
        } else if field_index == PlayerField::FIELD_INV_SLOT_FIXME8 {
            FieldType::LONG
        } else if field_index == PlayerField::FIELD_INV_SLOT_FIXME9 {
            FieldType::LONG
        } else if field_index == PlayerField::FIELD_INV_SLOT_FIXME10 {
            FieldType::LONG
        } else if field_index == PlayerField::FIELD_INV_SLOT_FIXME11 {
            FieldType::LONG
        } else if field_index == PlayerField::FIELD_INV_SLOT_FIXME12 {
            FieldType::LONG
        } else if field_index == PlayerField::FIELD_INV_SLOT_FIXME13 {
            FieldType::LONG
        } else if field_index == PlayerField::FIELD_INV_SLOT_FIXME14 {
            FieldType::LONG
        } else if field_index == PlayerField::FIELD_INV_SLOT_FIXME15 {
            FieldType::LONG
        } else if field_index == PlayerField::FIELD_INV_SLOT_FIXME16 {
            FieldType::LONG
        } else if field_index == PlayerField::FIELD_INV_SLOT_FIXME17 {
            FieldType::LONG
        } else if field_index == PlayerField::FIELD_INV_SLOT_FIXME18 {
            FieldType::LONG
        } else if field_index == PlayerField::FIELD_INV_SLOT_FIXME19 {
            FieldType::LONG
        } else if field_index == PlayerField::FIELD_INV_SLOT_FIXME20 {
            FieldType::LONG
        } else if field_index == PlayerField::FIELD_INV_SLOT_FIXME21 {
            FieldType::LONG
        } else if field_index == PlayerField::FIELD_INV_SLOT_FIXME22 {
            FieldType::LONG
        } else if field_index == PlayerField::FIELD_PACK_SLOT_1 {
            FieldType::LONG
        } else if field_index == PlayerField::FIELD_BANK_SLOT_1 {
            FieldType::LONG
        } else if field_index == PlayerField::FIELD_BANKBAG_SLOT_1 {
            FieldType::LONG
        } else if field_index == PlayerField::FIELD_VENDORBUYBACK_SLOT_1 {
            FieldType::LONG
        } else if field_index == PlayerField::FIELD_KEYRING_SLOT_1 {
            FieldType::LONG
        } else if field_index == PlayerField::FIELD_CURRENCYTOKEN_SLOT_1 {
            FieldType::LONG
        } else if field_index == PlayerField::FARSIGHT {
            FieldType::LONG
        } else if field_index == PlayerField::FIELD_KNOWN_TITLES {
            FieldType::LONG
        } else if field_index == PlayerField::FIELD_KNOWN_TITLES1 {
            FieldType::LONG
        } else if field_index == PlayerField::FIELD_KNOWN_TITLES2 {
            FieldType::LONG
        } else if field_index == PlayerField::FIELD_KNOWN_CURRENCIES {
            FieldType::LONG
        } else if field_index == PlayerField::XP {
            FieldType::INT
        } else if field_index == PlayerField::NEXT_LEVEL_XP {
            FieldType::INT
        } else if field_index == PlayerField::SKILL_INFO_1_1 {
            FieldType::INT
        } else if field_index == PlayerField::CHARACTER_POINTS1 {
            FieldType::INT
        } else if field_index == PlayerField::CHARACTER_POINTS2 {
            FieldType::INT
        } else if field_index == PlayerField::TRACK_CREATURES {
            FieldType::INT
        } else if field_index == PlayerField::TRACK_RESOURCES {
            FieldType::INT
        } else if field_index == PlayerField::BLOCK_PERCENTAGE {
            FieldType::FLOAT
        } else if field_index == PlayerField::DODGE_PERCENTAGE {
            FieldType::FLOAT
        } else if field_index == PlayerField::PARRY_PERCENTAGE {
            FieldType::FLOAT
        } else if field_index == PlayerField::EXPERTISE {
            FieldType::INT
        } else if field_index == PlayerField::OFFHAND_EXPERTISE {
            FieldType::INT
        } else if field_index == PlayerField::CRIT_PERCENTAGE {
            FieldType::FLOAT
        } else if field_index == PlayerField::RANGED_CRIT_PERCENTAGE {
            FieldType::FLOAT
        } else if field_index == PlayerField::OFFHAND_CRIT_PERCENTAGE {
            FieldType::FLOAT
        } else if field_index == PlayerField::SPELL_CRIT_PERCENTAGE1 {
            FieldType::FLOAT
        } else if field_index == PlayerField::SPELL_CRIT_PERCENTAGE2 {
            FieldType::FLOAT
        } else if field_index == PlayerField::SPELL_CRIT_PERCENTAGE3 {
            FieldType::FLOAT
        } else if field_index == PlayerField::SPELL_CRIT_PERCENTAGE4 {
            FieldType::FLOAT
        } else if field_index == PlayerField::SPELL_CRIT_PERCENTAGE5 {
            FieldType::FLOAT
        } else if field_index == PlayerField::SPELL_CRIT_PERCENTAGE6 {
            FieldType::FLOAT
        } else if field_index == PlayerField::SPELL_CRIT_PERCENTAGE7 {
            FieldType::FLOAT
        } else if field_index == PlayerField::SHIELD_BLOCK {
            FieldType::INT
        } else if field_index == PlayerField::SHIELD_BLOCK_CRIT_PERCENTAGE {
            FieldType::FLOAT
        } else if field_index == PlayerField::EXPLORED_ZONES_1 {
            FieldType::INT
        } else if field_index == PlayerField::REST_STATE_EXPERIENCE {
            FieldType::INT
        } else if field_index == PlayerField::FIELD_COINAGE {
            FieldType::INT
        } else if field_index == PlayerField::FIELD_MOD_DAMAGE_DONE_POS {
            FieldType::INT
        } else if field_index == PlayerField::FIELD_MOD_DAMAGE_DONE_NEG {
            FieldType::INT
        } else if field_index == PlayerField::FIELD_MOD_DAMAGE_DONE_PCT1 {
            FieldType::INT
        } else if field_index == PlayerField::FIELD_MOD_DAMAGE_DONE_PCT2 {
            FieldType::INT
        } else if field_index == PlayerField::FIELD_MOD_DAMAGE_DONE_PCT3 {
            FieldType::INT
        } else if field_index == PlayerField::FIELD_MOD_DAMAGE_DONE_PCT4 {
            FieldType::INT
        } else if field_index == PlayerField::FIELD_MOD_DAMAGE_DONE_PCT5 {
            FieldType::INT
        } else if field_index == PlayerField::FIELD_MOD_DAMAGE_DONE_PCT6 {
            FieldType::INT
        } else if field_index == PlayerField::FIELD_MOD_DAMAGE_DONE_PCT7 {
            FieldType::INT
        } else if field_index == PlayerField::FIELD_MOD_HEALING_DONE_POS {
            FieldType::INT
        } else if field_index == PlayerField::FIELD_MOD_HEALING_PCT {
            FieldType::FLOAT
        } else if field_index == PlayerField::FIELD_MOD_HEALING_DONE_PCT {
            FieldType::FLOAT
        } else if field_index == PlayerField::FIELD_MOD_TARGET_RESISTANCE {
            FieldType::INT
        } else if field_index == PlayerField::FIELD_MOD_TARGET_PHYSICAL_RESISTANCE {
            FieldType::INT
        } else if field_index == PlayerField::FIELD_BYTES {
            FieldType::INT
        } else if field_index == PlayerField::AMMO_ID {
            FieldType::LONG
        } else if field_index == PlayerField::SELF_RES_SPELL {
            FieldType::INT
        } else if field_index == PlayerField::FIELD_PVP_MEDALS {
            FieldType::INT
        } else if field_index == PlayerField::FIELD_BUYBACK_PRICE_1 {
            FieldType::INT
        } else if field_index == PlayerField::FIELD_BUYBACK_PRICE_2 {
            FieldType::INT
        } else if field_index == PlayerField::FIELD_BUYBACK_PRICE_3 {
            FieldType::INT
        } else if field_index == PlayerField::FIELD_BUYBACK_PRICE_4 {
            FieldType::INT
        } else if field_index == PlayerField::FIELD_BUYBACK_PRICE_5 {
            FieldType::INT
        } else if field_index == PlayerField::FIELD_BUYBACK_PRICE_6 {
            FieldType::INT
        } else if field_index == PlayerField::FIELD_BUYBACK_PRICE_7 {
            FieldType::INT
        } else if field_index == PlayerField::FIELD_BUYBACK_PRICE_8 {
            FieldType::INT
        } else if field_index == PlayerField::FIELD_BUYBACK_PRICE_9 {
            FieldType::INT
        } else if field_index == PlayerField::FIELD_BUYBACK_PRICE_10 {
            FieldType::INT
        } else if field_index == PlayerField::FIELD_BUYBACK_PRICE_11 {
            FieldType::INT
        } else if field_index == PlayerField::FIELD_BUYBACK_PRICE_12 {
            FieldType::INT
        } else if field_index == PlayerField::FIELD_BUYBACK_TIMESTAMP_1 {
            FieldType::INT
        } else if field_index == PlayerField::FIELD_BUYBACK_TIMESTAMP_2 {
            FieldType::INT
        } else if field_index == PlayerField::FIELD_BUYBACK_TIMESTAMP_3 {
            FieldType::INT
        } else if field_index == PlayerField::FIELD_BUYBACK_TIMESTAMP_4 {
            FieldType::INT
        } else if field_index == PlayerField::FIELD_BUYBACK_TIMESTAMP_5 {
            FieldType::INT
        } else if field_index == PlayerField::FIELD_BUYBACK_TIMESTAMP_6 {
            FieldType::INT
        } else if field_index == PlayerField::FIELD_BUYBACK_TIMESTAMP_7 {
            FieldType::INT
        } else if field_index == PlayerField::FIELD_BUYBACK_TIMESTAMP_8 {
            FieldType::INT
        } else if field_index == PlayerField::FIELD_BUYBACK_TIMESTAMP_9 {
            FieldType::INT
        } else if field_index == PlayerField::FIELD_BUYBACK_TIMESTAMP_10 {
            FieldType::INT
        } else if field_index == PlayerField::FIELD_BUYBACK_TIMESTAMP_11 {
            FieldType::INT
        } else if field_index == PlayerField::FIELD_BUYBACK_TIMESTAMP_12 {
            FieldType::INT
        } else if field_index == PlayerField::FIELD_KILLS {
            FieldType::INT
        } else if field_index == PlayerField::FIELD_TODAY_CONTRIBUTION {
            FieldType::INT
        } else if field_index == PlayerField::FIELD_YESTERDAY_CONTRIBUTION {
            FieldType::INT
        } else if field_index == PlayerField::FIELD_LIFETIME_HONORABLE_KILLS {
            FieldType::INT
        } else if field_index == PlayerField::FIELD_BYTES2 {
            FieldType::INT
        } else if field_index == PlayerField::FIELD_WATCHED_FACTION_INDEX {
            FieldType::INT
        } else if field_index == PlayerField::FIELD_COMBAT_RATING_1 {
            FieldType::INT
        } else if field_index == PlayerField::FIELD_ARENA_TEAM_INFO_1_1 {
            FieldType::INT
        } else if field_index == PlayerField::FIELD_HONOR_CURRENCY {
            FieldType::INT
        } else if field_index == PlayerField::FIELD_ARENA_CURRENCY {
            FieldType::INT
        } else if field_index == PlayerField::FIELD_MAX_LEVEL {
            FieldType::INT
        } else if field_index == PlayerField::FIELD_DAILY_QUESTS_1 {
            FieldType::INT
        } else if field_index == PlayerField::RUNE_REGEN_1 {
            FieldType::FLOAT
        } else if field_index == PlayerField::RUNE_REGEN_2 {
            FieldType::FLOAT
        } else if field_index == PlayerField::RUNE_REGEN_3 {
            FieldType::FLOAT
        } else if field_index == PlayerField::RUNE_REGEN_4 {
            FieldType::FLOAT
        } else if field_index == PlayerField::NO_REAGENT_COST_1 {
            FieldType::INT
        } else if field_index == PlayerField::FIELD_GLYPH_SLOTS_1 {
            FieldType::INT
        } else if field_index == PlayerField::FIELD_GLYPH_SLOTS_2 {
            FieldType::INT
        } else if field_index == PlayerField::FIELD_GLYPH_SLOTS_3 {
            FieldType::INT
        } else if field_index == PlayerField::FIELD_GLYPH_SLOTS_4 {
            FieldType::INT
        } else if field_index == PlayerField::FIELD_GLYPH_SLOTS_5 {
            FieldType::INT
        } else if field_index == PlayerField::FIELD_GLYPH_SLOTS_6 {
            FieldType::INT
        } else if field_index == PlayerField::FIELD_GLYPHS_1 {
            FieldType::INT
        } else if field_index == PlayerField::FIELD_GLYPHS_2 {
            FieldType::INT
        } else if field_index == PlayerField::FIELD_GLYPHS_3 {
            FieldType::INT
        } else if field_index == PlayerField::FIELD_GLYPHS_4 {
            FieldType::INT
        } else if field_index == PlayerField::FIELD_GLYPHS_5 {
            FieldType::INT
        } else if field_index == PlayerField::FIELD_GLYPHS_6 {
            FieldType::INT
        } else if field_index == PlayerField::GLYPHS_ENABLED {
            FieldType::INT
        } else if field_index == PlayerField::PET_SPELL_POWER {
            FieldType::INT
        } else {
            FieldType::NONE
        }
    }

    pub fn get_field_name(field_index: u32) -> (name: String)
        ensures
            name@ == player_field_name(field_index),
    {
        if field_index == PlayerField::DUEL_ARBITER {
            "PlayerField::DUEL_ARBITER".to_string()
        } else if field_index == PlayerField::FLAGS {
            "PlayerField::FLAGS".to_string()
        } else if field_index == PlayerField::GUILDID {
            "PlayerField::GUILDID".to_string()
        } else if field_index == PlayerField::GUILDRANK {
            "PlayerField::GUILDRANK".to_string()
        } else if field_index == PlayerField::BYTES {
            "PlayerField::BYTES".to_string()
        } else if field_index == PlayerField::BYTES_2 {
            "PlayerField::BYTES_2".to_string()
        } else if field_index == PlayerField::BYTES_3 {
            "PlayerField::BYTES_3".to_string()
        } else if field_index == PlayerField::DUEL_TEAM {
            "PlayerField::DUEL_TEAM".to_string()
        } else if field_index == PlayerField::GUILD_TIMESTAMP {
            "PlayerField::GUILD_TIMESTAMP".to_string()
        } else if field_index == PlayerField::QUEST_LOG_1_1 {
            "PlayerField::QUEST_LOG_1_1".to_string()
        } else if field_index == PlayerField::QUEST_LOG_1_2 {
            "PlayerField::QUEST_LOG_1_2".to_string()
        } else if field_index == PlayerField::QUEST_LOG_1_3 {
            "PlayerField::QUEST_LOG_1_3".to_string()
        } else if field_index == PlayerField::QUEST_LOG_1_4 {
            "PlayerField::QUEST_LOG_1_4".to_string()
        } else if field_index == PlayerField::QUEST_LOG_2_1 {
            "PlayerField::QUEST_LOG_2_1".to_string()
        } else if field_index == PlayerField::QUEST_LOG_2_2 {
            "PlayerField::QUEST_LOG_2_2".to_string()
        } else if field_index == PlayerField::QUEST_LOG_2_3 {
            "PlayerField::QUEST_LOG_2_3".to_string()
        } else if field_index == PlayerField::QUEST_LOG_2_5 {
            "PlayerField::QUEST_LOG_2_5".to_string()
        } else if field_index == PlayerField::QUEST_LOG_3_1 {
            "PlayerField::QUEST_LOG_3_1".to_string()
        } else if field_index == PlayerField::QUEST_LOG_3_2 {
            "PlayerField::QUEST_LOG_3_2".to_string()
        } else if field_index == PlayerField::QUEST_LOG_3_3 {
            "PlayerField::QUEST_LOG_3_3".to_string()
        } else if field_index == PlayerField::QUEST_LOG_3_5 {
            "PlayerField::QUEST_LOG_3_5".to_string()
        } else if field_index == PlayerField::QUEST_LOG_4_1 {
            "PlayerField::QUEST_LOG_4_1".to_string()
        } else if field_index == PlayerField::QUEST_LOG_4_2 {
            "PlayerField::QUEST_LOG_4_2".to_string()
        } else if field_index == PlayerField::QUEST_LOG_4_3 {
            "PlayerField::QUEST_LOG_4_3".to_string()
        } else if field_index == PlayerField::QUEST_LOG_4_5 {
            "PlayerField::QUEST_LOG_4_5".to_string()
        } else if field_index == PlayerField::QUEST_LOG_5_1 {
            "PlayerField::QUEST_LOG_5_1".to_string()
        } else if field_index == PlayerField::QUEST_LOG_5_2 {
            "PlayerField::QUEST_LOG_5_2".to_string()
        } else if field_index == PlayerField::QUEST_LOG_5_3 {
            "PlayerField::QUEST_LOG_5_3".to_string()
        } else if field_index == PlayerField::QUEST_LOG_5_5 {
            "PlayerField::QUEST_LOG_5_5".to_string()
        } else if field_index == PlayerField::QUEST_LOG_6_1 {
            "PlayerField::QUEST_LOG_6_1".to_string()
        } else if field_index == PlayerField::QUEST_LOG_6_2 {
            "PlayerField::QUEST_LOG_6_2".to_string()
        } else if field_index == PlayerField::QUEST_LOG_6_3 {
            "PlayerField::QUEST_LOG_6_3".to_string()
        } else if field_index == PlayerField::QUEST_LOG_6_5 {
            "PlayerField::QUEST_LOG_6_5".to_string()
        } else if field_index == PlayerField::QUEST_LOG_7_1 {
            "PlayerField::QUEST_LOG_7_1".to_string()
        } else if field_index == PlayerField::QUEST_LOG_7_2 {
            "PlayerField::QUEST_LOG_7_2".to_string()
        } else if field_index == PlayerField::QUEST_LOG_7_3 {
            "PlayerField::QUEST_LOG_7_3".to_string()
        } else if field_index == PlayerField::QUEST_LOG_7_5 {
            "PlayerField::QUEST_LOG_7_5".to_string()
        } else if field_index == PlayerField::QUEST_LOG_8_1 {
            "PlayerField::QUEST_LOG_8_1".to_string()
        } else if field_index == PlayerField::QUEST_LOG_8_2 {
            "PlayerField::QUEST_LOG_8_2".to_string()
        } else if field_index == PlayerField::QUEST_LOG_8_3 {
            "PlayerField::QUEST_LOG_8_3".to_string()
        } else if field_index == PlayerField::QUEST_LOG_8_5 {
            "PlayerField::QUEST_LOG_8_5".to_string()
        } else if field_index == PlayerField::QUEST_LOG_9_1 {
            "PlayerField::QUEST_LOG_9_1".to_string()
        } else if field_index == PlayerField::QUEST_LOG_9_2 {
            "PlayerField::QUEST_LOG_9_2".to_string()
        } else if field_index == PlayerField::QUEST_LOG_9_3 {
            "PlayerField::QUEST_LOG_9_3".to_string()
        } else if field_index == PlayerField::QUEST_LOG_9_5 {
            "PlayerField::QUEST_LOG_9_5".to_string()
        } else if field_index == PlayerField::QUEST_LOG_10_1 {
            "PlayerField::QUEST_LOG_10_1".to_string()
        } else if field_index == PlayerField::QUEST_LOG_10_2 {
            "PlayerField::QUEST_LOG_10_2".to_string()
        } else if field_index == PlayerField::QUEST_LOG_10_3 {
            "PlayerField::QUEST_LOG_10_3".to_string()
        } else if field_index == PlayerField::QUEST_LOG_10_5 {
            "PlayerField::QUEST_LOG_10_5".to_string()
        } else if field_index == PlayerField::QUEST_LOG_11_1 {
            "PlayerField::QUEST_LOG_11_1".to_string()
        } else if field_index == PlayerField::QUEST_LOG_11_2 {
            "PlayerField::QUEST_LOG_11_2".to_string()
        } else if field_index == PlayerField::QUEST_LOG_11_3 {
            "PlayerField::QUEST_LOG_11_3".to_string()
        } else if field_index == PlayerField::QUEST_LOG_11_5 {
            "PlayerField::QUEST_LOG_11_5".to_string()
        } else if field_index == PlayerField::QUEST_LOG_12_1 {
            "PlayerField::QUEST_LOG_12_1".to_string()
        } else if field_index == PlayerField::QUEST_LOG_12_2 {
            "PlayerField::QUEST_LOG_12_2".to_string()
        } else if field_index == PlayerField::QUEST_LOG_12_3 {
            "PlayerField::QUEST_LOG_12_3".to_string()
        } else if field_index == PlayerField::QUEST_LOG_12_5 {
            "PlayerField::QUEST_LOG_12_5".to_string()
        } else if field_index == PlayerField::QUEST_LOG_13_1 {
            "PlayerField::QUEST_LOG_13_1".to_string()
        } else if field_index == PlayerField::QUEST_LOG_13_2 {
            "PlayerField::QUEST_LOG_13_2".to_string()
        } else if field_index == PlayerField::QUEST_LOG_13_3 {
            "PlayerField::QUEST_LOG_13_3".to_string()
        } else if field_index == PlayerField::QUEST_LOG_13_5 {
            "PlayerField::QUEST_LOG_13_5".to_string()
        } else if field_index == PlayerField::QUEST_LOG_14_1 {
            "PlayerField::QUEST_LOG_14_1".to_string()
        } else if field_index == PlayerField::QUEST_LOG_14_2 {
            "PlayerField::QUEST_LOG_14_2".to_string()
        } else if field_index == PlayerField::QUEST_LOG_14_3 {
            "PlayerField::QUEST_LOG_14_3".to_string()
        } else if field_index == PlayerField::QUEST_LOG_14_5 {
            "PlayerField::QUEST_LOG_14_5".to_string()
        } else if field_index == PlayerField::QUEST_LOG_15_1 {
            "PlayerField::QUEST_LOG_15_1".to_string()
        } else if field_index == PlayerField::QUEST_LOG_15_2 {
            "PlayerField::QUEST_LOG_15_2".to_string()
        } else if field_index == PlayerField::QUEST_LOG_15_3 {
            "PlayerField::QUEST_LOG_15_3".to_string()
        } else if field_index == PlayerField::QUEST_LOG_15_5 {
            "PlayerField::QUEST_LOG_15_5".to_string()
        } else if field_index == PlayerField::QUEST_LOG_16_1 {
            "PlayerField::QUEST_LOG_16_1".to_string()
        } else if field_index == PlayerField::QUEST_LOG_16_2 {
            "PlayerField::QUEST_LOG_16_2".to_string()
        } else if field_index == PlayerField::QUEST_LOG_16_3 {
            "PlayerField::QUEST_LOG_16_3".to_string()
        } else if field_index == PlayerField::QUEST_LOG_16_5 {
            "PlayerField::QUEST_LOG_16_5".to_string()
        } else if field_index == PlayerField::QUEST_LOG_17_1 {
            "PlayerField::QUEST_LOG_17_1".to_string()
        } else if field_index == PlayerField::QUEST_LOG_17_2 {
            "PlayerField::QUEST_LOG_17_2".to_string()
        } else if field_index == PlayerField::QUEST_LOG_17_3 {
            "PlayerField::QUEST_LOG_17_3".to_string()
        } else if field_index == PlayerField::QUEST_LOG_17_5 {
            "PlayerField::QUEST_LOG_17_5".to_string()
        } else if field_index == PlayerField::QUEST_LOG_18_1 {
            "PlayerField::QUEST_LOG_18_1".to_string()
        } else if field_index == PlayerField::QUEST_LOG_18_2 {
            "PlayerField::QUEST_LOG_18_2".to_string()
        } else if field_index == PlayerField::QUEST_LOG_18_3 {
            "PlayerField::QUEST_LOG_18_3".to_string()
        } else if field_index == PlayerField::QUEST_LOG_18_5 {
            "PlayerField::QUEST_LOG_18_5".to_string()
        } else if field_index == PlayerField::QUEST_LOG_19_1 {
            "PlayerField::QUEST_LOG_19_1".to_string()
        } else if field_index == PlayerField::QUEST_LOG_19_2 {
            "PlayerField::QUEST_LOG_19_2".to_string()
        } else if field_index == PlayerField::QUEST_LOG_19_3 {
            "PlayerField::QUEST_LOG_19_3".to_string()
        } else if field_index == PlayerField::QUEST_LOG_19_5 {
            "PlayerField::QUEST_LOG_19_5".to_string()
        } else if field_index == PlayerField::QUEST_LOG_20_1 {
            "PlayerField::QUEST_LOG_20_1".to_string()
        } else if field_index == PlayerField::QUEST_LOG_20_2 {
            "PlayerField::QUEST_LOG_20_2".to_string()
        } else if field_index == PlayerField::QUEST_LOG_20_3 {
            "PlayerField::QUEST_LOG_20_3".to_string()
        } else if field_index == PlayerField::QUEST_LOG_20_5 {
            "PlayerField::QUEST_LOG_20_5".to_string()
        } else if field_index == PlayerField::QUEST_LOG_21_1 {
            "PlayerField::QUEST_LOG_21_1".to_string()
        } else if field_index == PlayerField::QUEST_LOG_21_2 {
            "PlayerField::QUEST_LOG_21_2".to_string()
        } else if field_index == PlayerField::QUEST_LOG_21_3 {
            "PlayerField::QUEST_LOG_21_3".to_string()
        } else if field_index == PlayerField::QUEST_LOG_21_5 {
            "PlayerField::QUEST_LOG_21_5".to_string()
        } else if field_index == PlayerField::QUEST_LOG_22_1 {
            "PlayerField::QUEST_LOG_22_1".to_string()
        } else if field_index == PlayerField::QUEST_LOG_22_2 {
            "PlayerField::QUEST_LOG_22_2".to_string()
        } else if field_index == PlayerField::QUEST_LOG_22_3 {
            "PlayerField::QUEST_LOG_22_3".to_string()
        } else if field_index == PlayerField::QUEST_LOG_22_5 {
            "PlayerField::QUEST_LOG_22_5".to_string()
        } else if field_index == PlayerField::QUEST_LOG_23_1 {
            "PlayerField::QUEST_LOG_23_1".to_string()
        } else if field_index == PlayerField::QUEST_LOG_23_2 {
            "PlayerField::QUEST_LOG_23_2".to_string()
        } else if field_index == PlayerField::QUEST_LOG_23_3 {
            "PlayerField::QUEST_LOG_23_3".to_string()
        } else if field_index == PlayerField::QUEST_LOG_23_5 {
            "PlayerField::QUEST_LOG_23_5".to_string()
        } else if field_index == PlayerField::QUEST_LOG_24_1 {
            "PlayerField::QUEST_LOG_24_1".to_string()
        } else if field_index == PlayerField::QUEST_LOG_24_2 {
            "PlayerField::QUEST_LOG_24_2".to_string()
        } else if field_index == PlayerField::QUEST_LOG_24_3 {
            "PlayerField::QUEST_LOG_24_3".to_string()
        } else if field_index == PlayerField::QUEST_LOG_24_5 {
            "PlayerField::QUEST_LOG_24_5".to_string()
        } else if field_index == PlayerField::QUEST_LOG_25_1 {
            "PlayerField::QUEST_LOG_25_1".to_string()
        } else if field_index == PlayerField::QUEST_LOG_25_2 {
            "PlayerField::QUEST_LOG_25_2".to_string()
        } else if field_index == PlayerField::QUEST_LOG_25_3 {
            "PlayerField::QUEST_LOG_25_3".to_string()
        } else if field_index == PlayerField::QUEST_LOG_25_5 {
            "PlayerField::QUEST_LOG_25_5".to_string()
        } else if field_index == PlayerField::VISIBLE_ITEM_1_ENTRYID {
            "PlayerField::VISIBLE_ITEM_1_ENTRYID".to_string()
        } else if field_index == PlayerField::VISIBLE_ITEM_1_ENCHANTMENT {
            "PlayerField::VISIBLE_ITEM_1_ENCHANTMENT".to_string()
        } else if field_index == PlayerField::VISIBLE_ITEM_2_ENTRYID {
            "PlayerField::VISIBLE_ITEM_2_ENTRYID".to_string()
        } else if field_index == PlayerField::VISIBLE_ITEM_2_ENCHANTMENT {
            "PlayerField::VISIBLE_ITEM_2_ENCHANTMENT".to_string()
        } else if field_index == PlayerField::VISIBLE_ITEM_3_ENTRYID {
            "PlayerField::VISIBLE_ITEM_3_ENTRYID".to_string()
        } else if field_index == PlayerField::VISIBLE_ITEM_3_ENCHANTMENT {
            "PlayerField::VISIBLE_ITEM_3_ENCHANTMENT".to_string()
        } else if field_index == PlayerField::VISIBLE_ITEM_4_ENTRYID {
            "PlayerField::VISIBLE_ITEM_4_ENTRYID".to_string()
        } else if field_index == PlayerField::VISIBLE_ITEM_4_ENCHANTMENT {
            "PlayerField::VISIBLE_ITEM_4_ENCHANTMENT".to_string()
        } else if field_index == PlayerField::VISIBLE_ITEM_5_ENTRYID {
            "PlayerField::VISIBLE_ITEM_5_ENTRYID".to_string()
        } else if field_index == PlayerField::VISIBLE_ITEM_5_ENCHANTMENT {
            "PlayerField::VISIBLE_ITEM_5_ENCHANTMENT".to_string()
        } else if field_index == PlayerField::VISIBLE_ITEM_6_ENTRYID {
            "PlayerField::VISIBLE_ITEM_6_ENTRYID".to_string()
        } else if field_index == PlayerField::VISIBLE_ITEM_6_ENCHANTMENT {
            "PlayerField::VISIBLE_ITEM_6_ENCHANTMENT".to_string()
        } else if field_index == PlayerField::VISIBLE_ITEM_7_ENTRYID {
            "PlayerField::VISIBLE_ITEM_7_ENTRYID".to_string()
        } else if field_index == PlayerField::VISIBLE_ITEM_7_ENCHANTMENT {
            "PlayerField::VISIBLE_ITEM_7_ENCHANTMENT".to_string()
        } else if field_index == PlayerField::VISIBLE_ITEM_8_ENTRYID {
            "PlayerField::VISIBLE_ITEM_8_ENTRYID".to_string()
        } else if field_index == PlayerField::VISIBLE_ITEM_8_ENCHANTMENT {
            "PlayerField::VISIBLE_ITEM_8_ENCHANTMENT".to_string()
        } else if field_index == PlayerField::VISIBLE_ITEM_9_ENTRYID {
            "PlayerField::VISIBLE_ITEM_9_ENTRYID".to_string()
        } else if field_index == PlayerField::VISIBLE_ITEM_9_ENCHANTMENT {
            "PlayerField::VISIBLE_ITEM_9_ENCHANTMENT".to_string()
        } else if field_index == PlayerField::VISIBLE_ITEM_10_ENTRYID {
            "PlayerField::VISIBLE_ITEM_10_ENTRYID".to_string()
        } else if field_index == PlayerField::VISIBLE_ITEM_10_ENCHANTMENT {
            "PlayerField::VISIBLE_ITEM_10_ENCHANTMENT".to_string()
        } else if field_index == PlayerField::VISIBLE_ITEM_11_ENTRYID {
            "PlayerField::VISIBLE_ITEM_11_ENTRYID".to_string()
        } else if field_index == PlayerField::VISIBLE_ITEM_11_ENCHANTMENT {
            "PlayerField::VISIBLE_ITEM_11_ENCHANTMENT".to_string()
        } else if field_index == PlayerField::VISIBLE_ITEM_12_ENTRYID {
            "PlayerField::VISIBLE_ITEM_12_ENTRYID".to_string()
        } else if field_index == PlayerField::VISIBLE_ITEM_12_ENCHANTMENT {
            "PlayerField::VISIBLE_ITEM_12_ENCHANTMENT".to_string()
        } else if field_index == PlayerField::VISIBLE_ITEM_13_ENTRYID {
            "PlayerField::VISIBLE_ITEM_13_ENTRYID".to_string()
        } else if field_index == PlayerField::VISIBLE_ITEM_13_ENCHANTMENT {
            "PlayerField::VISIBLE_ITEM_13_ENCHANTMENT".to_string()
        } else if field_index == PlayerField::VISIBLE_ITEM_14_ENTRYID {
            "PlayerField::VISIBLE_ITEM_14_ENTRYID".to_string()
        } else if field_index == PlayerField::VISIBLE_ITEM_14_ENCHANTMENT {
            "PlayerField::VISIBLE_ITEM_14_ENCHANTMENT".to_string()
        } else if field_index == PlayerField::VISIBLE_ITEM_15_ENTRYID {
            "PlayerField::VISIBLE_ITEM_15_ENTRYID".to_string()
        } else if field_index == PlayerField::VISIBLE_ITEM_15_ENCHANTMENT {
            "PlayerField::VISIBLE_ITEM_15_ENCHANTMENT".to_string()
        } else if field_index == PlayerField::VISIBLE_ITEM_16_ENTRYID {
            "PlayerField::VISIBLE_ITEM_16_ENTRYID".to_string()
        } else if field_index == PlayerField::VISIBLE_ITEM_16_ENCHANTMENT {
            "PlayerField::VISIBLE_ITEM_16_ENCHANTMENT".to_string()
        } else if field_index == PlayerField::VISIBLE_ITEM_17_ENTRYID {
            "PlayerField::VISIBLE_ITEM_17_ENTRYID".to_string()
        } else if field_index == PlayerField::VISIBLE_ITEM_17_ENCHANTMENT {
            "PlayerField::VISIBLE_ITEM_17_ENCHANTMENT".to_string()
        } else if field_index == PlayerField::VISIBLE_ITEM_18_ENTRYID {
            "PlayerField::VISIBLE_ITEM_18_ENTRYID".to_string()
        } else if field_index == PlayerField::VISIBLE_ITEM_18_ENCHANTMENT {
            "PlayerField::VISIBLE_ITEM_18_ENCHANTMENT".to_string()
        } else if field_index == PlayerField::VISIBLE_ITEM_19_ENTRYID {
            "PlayerField::VISIBLE_ITEM_19_ENTRYID".to_string()
        } else if field_index == PlayerField::VISIBLE_ITEM_19_ENCHANTMENT {
            "PlayerField::VISIBLE_ITEM_19_ENCHANTMENT".to_string()
        } else if field_index == PlayerField::CHOSEN_TITLE {
            "PlayerField::CHOSEN_TITLE".to_string()
        } else if field_index == PlayerField::FAKE_INEBRIATION {
            "PlayerField::FAKE_INEBRIATION".to_string()
        } else if field_index == PlayerField::FIELD_PAD_0 {
            "PlayerField::FIELD_PAD_0".to_string()
        } else if field_index == PlayerField::FIELD_INV_SLOT_HEAD {
            "PlayerField::FIELD_INV_SLOT_HEAD".to_string()
        } else if field_index == PlayerField::FIELD_INV_SLOT_FIXME1 {
            "PlayerField::FIELD_INV_SLOT_FIXME1".to_string()
        } else if field_index == PlayerField::FIELD_INV_SLOT_FIXME2 {
            "PlayerField::FIELD_INV_SLOT_FIXME2".to_string()
        } else if field_index == PlayerField::FIELD_INV_SLOT_FIXME3 {
            "PlayerField::FIELD_INV_SLOT_FIXME3".to_string()
        } else if field_index == PlayerField::FIELD_INV_SLOT_FIXME4 {
            "PlayerField::FIELD_INV_SLOT_FIXME4".to_string()
        } else if field_index == PlayerField::FIELD_INV_SLOT_FIXME5 {
            "PlayerField::FIELD_INV_SLOT_FIXME5".to_string()
        } else if field_index == PlayerField::FIELD_INV_SLOT_FIXME6 {
            "PlayerField::FIELD_INV_SLOT_FIXME6".to_string()
        } else if field_index == PlayerField::FIELD_INV_SLOT_FIXME7 {
            "PlayerField::FIELD_INV_SLOT_FIXME7".to_string()
        } else if field_index == PlayerField::FIELD_INV_SLOT_FIXME8 {
            "PlayerField::FIELD_INV_SLOT_FIXME8".to_string()
        } else if field_index == PlayerField::FIELD_INV_SLOT_FIXME9 {
            "PlayerField::FIELD_INV_SLOT_FIXME9".to_string()
        } else if field_index == PlayerField::FIELD_INV_SLOT_FIXME10 {
            "PlayerField::FIELD_INV_SLOT_FIXME10".to_string()
        } else if field_index == PlayerField::FIELD_INV_SLOT_FIXME11 {
            "PlayerField::FIELD_INV_SLOT_FIXME11".to_string()
        } else if field_index == PlayerField::FIELD_INV_SLOT_FIXME12 {
            "PlayerField::FIELD_INV_SLOT_FIXME12".to_string()
        } else if field_index == PlayerField::FIELD_INV_SLOT_FIXME13 {
            "PlayerField::FIELD_INV_SLOT_FIXME13".to_string()
        } else if field_index == PlayerField::FIELD_INV_SLOT_FIXME14 {
            "PlayerField::FIELD_INV_SLOT_FIXME14".to_string()
        } else if field_index == PlayerField::FIELD_INV_SLOT_FIXME15 {
            "PlayerField::FIELD_INV_SLOT_FIXME15".to_string()
        } else if field_index == PlayerField::FIELD_INV_SLOT_FIXME16 {
            "PlayerField::FIELD_INV_SLOT_FIXME16".to_string()
        } else if field_index == PlayerField::FIELD_INV_SLOT_FIXME17 {
            "PlayerField::FIELD_INV_SLOT_FIXME17".to_string()
        } else if field_index == PlayerField::FIELD_INV_SLOT_FIXME18 {
            "PlayerField::FIELD_INV_SLOT_FIXME18".to_string()
        } else if field_index == PlayerField::FIELD_INV_SLOT_FIXME19 {
            "PlayerField::FIELD_INV_SLOT_FIXME19".to_string()
        } else if field_index == PlayerField::FIELD_INV_SLOT_FIXME20 {
            "PlayerField::FIELD_INV_SLOT_FIXME20".to_string()
        } else if field_index == PlayerField::FIELD_INV_SLOT_FIXME21 {
            "PlayerField::FIELD_INV_SLOT_FIXME21".to_string()
        } else if field_index == PlayerField::FIELD_INV_SLOT_FIXME22 {
            "PlayerField::FIELD_INV_SLOT_FIXME22".to_string()
        } else if field_index == PlayerField::FIELD_PACK_SLOT_1 {
            "PlayerField::FIELD_PACK_SLOT_1".to_string()
        } else if field_index == PlayerField::FIELD_BANK_SLOT_1 {
            "PlayerField::FIELD_BANK_SLOT_1".to_string()
        } else if field_index == PlayerField::FIELD_BANKBAG_SLOT_1 {
            "PlayerField::FIELD_BANKBAG_SLOT_1".to_string()
        } else if field_index == PlayerField::FIELD_VENDORBUYBACK_SLOT_1 {
            "PlayerField::FIELD_VENDORBUYBACK_SLOT_1".to_string()
        } else if field_index == PlayerField::FIELD_KEYRING_SLOT_1 {
            "PlayerField::FIELD_KEYRING_SLOT_1".to_string()
        } else if field_index == PlayerField::FIELD_CURRENCYTOKEN_SLOT_1 {
            "PlayerField::FIELD_CURRENCYTOKEN_SLOT_1".to_string()
        } else if field_index == PlayerField::FARSIGHT {
            "PlayerField::FARSIGHT".to_string()
        } else if field_index == PlayerField::FIELD_KNOWN_TITLES {
            "PlayerField::FIELD_KNOWN_TITLES".to_string()
        } else if field_index == PlayerField::FIELD_KNOWN_TITLES1 {
            "PlayerField::FIELD_KNOWN_TITLES1".to_string()
        } else if field_index == PlayerField::FIELD_KNOWN_TITLES2 {
            "PlayerField::FIELD_KNOWN_TITLES2".to_string()
        } else if field_index == PlayerField::FIELD_KNOWN_CURRENCIES {
            "PlayerField::FIELD_KNOWN_CURRENCIES".to_string()
        } else if field_index == PlayerField::XP {
            "PlayerField::XP".to_string()
        } else if field_index == PlayerField::NEXT_LEVEL_XP {
            "PlayerField::NEXT_LEVEL_XP".to_string()
        } else if field_index == PlayerField::SKILL_INFO_1_1 {
            "PlayerField::SKILL_INFO_1_1".to_string()
        } else if field_index == PlayerField::CHARACTER_POINTS1 {
            "PlayerField::CHARACTER_POINTS1".to_string()
        } else if field_index == PlayerField::CHARACTER_POINTS2 {
            "PlayerField::CHARACTER_POINTS2".to_string()
        } else if field_index == PlayerField::TRACK_CREATURES {
            "PlayerField::TRACK_CREATURES".to_string()
        } else if field_index == PlayerField::TRACK_RESOURCES {
            "PlayerField::TRACK_RESOURCES".to_string()
        } else if field_index == PlayerField::BLOCK_PERCENTAGE {
            "PlayerField::BLOCK_PERCENTAGE".to_string()
        } else if field_index == PlayerField::DODGE_PERCENTAGE {
            "PlayerField::DODGE_PERCENTAGE".to_string()
        } else if field_index == PlayerField::PARRY_PERCENTAGE {
            "PlayerField::PARRY_PERCENTAGE".to_string()
        } else if field_index == PlayerField::EXPERTISE {
            "PlayerField::EXPERTISE".to_string()
        } else if field_index == PlayerField::OFFHAND_EXPERTISE {
            "PlayerField::OFFHAND_EXPERTISE".to_string()
        } else if field_index == PlayerField::CRIT_PERCENTAGE {
            "PlayerField::CRIT_PERCENTAGE".to_string()
        } else if field_index == PlayerField::RANGED_CRIT_PERCENTAGE {
            "PlayerField::RANGED_CRIT_PERCENTAGE".to_string()
        } else if field_index == PlayerField::OFFHAND_CRIT_PERCENTAGE {
            "PlayerField::OFFHAND_CRIT_PERCENTAGE".to_string()
        } else if field_index == PlayerField::SPELL_CRIT_PERCENTAGE1 {
            "PlayerField::SPELL_CRIT_PERCENTAGE1".to_string()
        } else if field_index == PlayerField::SPELL_CRIT_PERCENTAGE2 {
            "PlayerField::SPELL_CRIT_PERCENTAGE2".to_string()
        } else if field_index == PlayerField::SPELL_CRIT_PERCENTAGE3 {
            "PlayerField::SPELL_CRIT_PERCENTAGE3".to_string()
        } else if field_index == PlayerField::SPELL_CRIT_PERCENTAGE4 {
            "PlayerField::SPELL_CRIT_PERCENTAGE4".to_string()
        } else if field_index == PlayerField::SPELL_CRIT_PERCENTAGE5 {
            "PlayerField::SPELL_CRIT_PERCENTAGE5".to_string()
        } else if field_index == PlayerField::SPELL_CRIT_PERCENTAGE6 {
            "PlayerField::SPELL_CRIT_PERCENTAGE6".to_string()
        } else if field_index == PlayerField::SPELL_CRIT_PERCENTAGE7 {
            "PlayerField::SPELL_CRIT_PERCENTAGE7".to_string()
        } else if field_index == PlayerField::SHIELD_BLOCK {
            "PlayerField::SHIELD_BLOCK".to_string()
        } else if field_index == PlayerField::SHIELD_BLOCK_CRIT_PERCENTAGE {
            "PlayerField::SHIELD_BLOCK_CRIT_PERCENTAGE".to_string()
        } else if field_index == PlayerField::EXPLORED_ZONES_1 {
            "PlayerField::EXPLORED_ZONES_1".to_string()
        } else if field_index == PlayerField::REST_STATE_EXPERIENCE {
            "PlayerField::REST_STATE_EXPERIENCE".to_string()
        } else if field_index == PlayerField::FIELD_COINAGE {
            "PlayerField::FIELD_COINAGE".to_string()
        } else if field_index == PlayerField::FIELD_MOD_DAMAGE_DONE_POS {
            "PlayerField::FIELD_MOD_DAMAGE_DONE_POS".to_string()
        } else if field_index == PlayerField::FIELD_MOD_DAMAGE_DONE_NEG {
            "PlayerField::FIELD_MOD_DAMAGE_DONE_NEG".to_string()
        } else if field_index == PlayerField::FIELD_MOD_DAMAGE_DONE_PCT1 {
            "PlayerField::FIELD_MOD_DAMAGE_DONE_PCT1".to_string()
        } else if field_index == PlayerField::FIELD_MOD_DAMAGE_DONE_PCT2 {
            "PlayerField::FIELD_MOD_DAMAGE_DONE_PCT2".to_string()
        } else if field_index == PlayerField::FIELD_MOD_DAMAGE_DONE_PCT3 {
            "PlayerField::FIELD_MOD_DAMAGE_DONE_PCT3".to_string()
        } else if field_index == PlayerField::FIELD_MOD_DAMAGE_DONE_PCT4 {
            "PlayerField::FIELD_MOD_DAMAGE_DONE_PCT4".to_string()
        } else if field_index == PlayerField::FIELD_MOD_DAMAGE_DONE_PCT5 {
            "PlayerField::FIELD_MOD_DAMAGE_DONE_PCT5".to_string()
        } else if field_index == PlayerField::FIELD_MOD_DAMAGE_DONE_PCT6 {
            "PlayerField::FIELD_MOD_DAMAGE_DONE_PCT6".to_string()
        } else if field_index == PlayerField::FIELD_MOD_DAMAGE_DONE_PCT7 {
            "PlayerField::FIELD_MOD_DAMAGE_DONE_PCT7".to_string()
        } else if field_index == PlayerField::FIELD_MOD_HEALING_DONE_POS {
            "PlayerField::FIELD_MOD_HEALING_DONE_POS".to_string()
        } else if field_index == PlayerField::FIELD_MOD_HEALING_PCT {
            "PlayerField::FIELD_MOD_HEALING_PCT".to_string()
        } else if field_index == PlayerField::FIELD_MOD_HEALING_DONE_PCT {
            "PlayerField::FIELD_MOD_HEALING_DONE_PCT".to_string()
        } else if field_index == PlayerField::FIELD_MOD_TARGET_RESISTANCE {
            "PlayerField::FIELD_MOD_TARGET_RESISTANCE".to_string()
        } else if field_index == PlayerField::FIELD_MOD_TARGET_PHYSICAL_RESISTANCE {
            "PlayerField::FIELD_MOD_TARGET_PHYSICAL_RESISTANCE".to_string()
        } else if field_index == PlayerField::FIELD_BYTES {
            "PlayerField::FIELD_BYTES".to_string()
        } else if field_index == PlayerField::AMMO_ID {
            "PlayerField::AMMO_ID".to_string()
        } else if field_index == PlayerField::SELF_RES_SPELL {
            "PlayerField::SELF_RES_SPELL".to_string()
        } else if field_index == PlayerField::FIELD_PVP_MEDALS {
            "PlayerField::FIELD_PVP_MEDALS".to_string()
        } else if field_index == PlayerField::FIELD_BUYBACK_PRICE_1 {
            "PlayerField::FIELD_BUYBACK_PRICE_1".to_string()
        } else if field_index == PlayerField::FIELD_BUYBACK_PRICE_2 {
            "PlayerField::FIELD_BUYBACK_PRICE_2".to_string()
        } else if field_index == PlayerField::FIELD_BUYBACK_PRICE_3 {
            "PlayerField::FIELD_BUYBACK_PRICE_3".to_string()
        } else if field_index == PlayerField::FIELD_BUYBACK_PRICE_4 {
            "PlayerField::FIELD_BUYBACK_PRICE_4".to_string()
        } else if field_index == PlayerField::FIELD_BUYBACK_PRICE_5 {
            "PlayerField::FIELD_BUYBACK_PRICE_5".to_string()
        } else if field_index == PlayerField::FIELD_BUYBACK_PRICE_6 {
            "PlayerField::FIELD_BUYBACK_PRICE_6".to_string()
        } else if field_index == PlayerField::FIELD_BUYBACK_PRICE_7 {
            "PlayerField::FIELD_BUYBACK_PRICE_7".to_string()
        } else if field_index == PlayerField::FIELD_BUYBACK_PRICE_8 {
            "PlayerField::FIELD_BUYBACK_PRICE_8".to_string()
        } else if field_index == PlayerField::FIELD_BUYBACK_PRICE_9 {
            "PlayerField::FIELD_BUYBACK_PRICE_9".to_string()
        } else if field_index == PlayerField::FIELD_BUYBACK_PRICE_10 {
            "PlayerField::FIELD_BUYBACK_PRICE_10".to_string()
        } else if field_index == PlayerField::FIELD_BUYBACK_PRICE_11 {
            "PlayerField::FIELD_BUYBACK_PRICE_11".to_string()
        } else if field_index == PlayerField::FIELD_BUYBACK_PRICE_12 {
            "PlayerField::FIELD_BUYBACK_PRICE_12".to_string()
        } else if field_index == PlayerField::FIELD_BUYBACK_TIMESTAMP_1 {
            "PlayerField::FIELD_BUYBACK_TIMESTAMP_1".to_string()
        } else if field_index == PlayerField::FIELD_BUYBACK_TIMESTAMP_2 {
            "PlayerField::FIELD_BUYBACK_TIMESTAMP_2".to_string()
        } else if field_index == PlayerField::FIELD_BUYBACK_TIMESTAMP_3 {
            "PlayerField::FIELD_BUYBACK_TIMESTAMP_3".to_string()
        } else if field_index == PlayerField::FIELD_BUYBACK_TIMESTAMP_4 {
            "PlayerField::FIELD_BUYBACK_TIMESTAMP_4".to_string()
        } else if field_index == PlayerField::FIELD_BUYBACK_TIMESTAMP_5 {
            "PlayerField::FIELD_BUYBACK_TIMESTAMP_5".to_string()
        } else if field_index == PlayerField::FIELD_BUYBACK_TIMESTAMP_6 {
            "PlayerField::FIELD_BUYBACK_TIMESTAMP_6".to_string()
        } else if field_index == PlayerField::FIELD_BUYBACK_TIMESTAMP_7 {
            "PlayerField::FIELD_BUYBACK_TIMESTAMP_7".to_string()
        } else if field_index == PlayerField::FIELD_BUYBACK_TIMESTAMP_8 {
            "PlayerField::FIELD_BUYBACK_TIMESTAMP_8".to_string()
        } else if field_index == PlayerField::FIELD_BUYBACK_TIMESTAMP_9 {
            "PlayerField::FIELD_BUYBACK_TIMESTAMP_9".to_string()
        } else if field_index == PlayerField::FIELD_BUYBACK_TIMESTAMP_10 {
            "PlayerField::FIELD_BUYBACK_TIMESTAMP_10".to_string()
        } else if field_index == PlayerField::FIELD_BUYBACK_TIMESTAMP_11 {
            "PlayerField::FIELD_BUYBACK_TIMESTAMP_11".to_string()
        } else if field_index == PlayerField::FIELD_BUYBACK_TIMESTAMP_12 {
            "PlayerField::FIELD_BUYBACK_TIMESTAMP_12".to_string()
        } else if field_index == PlayerField::FIELD_KILLS {
            "PlayerField::FIELD_KILLS".to_string()
        } else if field_index == PlayerField::FIELD_TODAY_CONTRIBUTION {
            "PlayerField::FIELD_TODAY_CONTRIBUTION".to_string()
        } else if field_index == PlayerField::FIELD_YESTERDAY_CONTRIBUTION {
            "PlayerField::FIELD_YESTERDAY_CONTRIBUTION".to_string()
        } else if field_index == PlayerField::FIELD_LIFETIME_HONORABLE_KILLS {
            "PlayerField::FIELD_LIFETIME_HONORABLE_KILLS".to_string()
        } else if field_index == PlayerField::FIELD_BYTES2 {
            "PlayerField::FIELD_BYTES2".to_string()
        } else if field_index == PlayerField::FIELD_WATCHED_FACTION_INDEX {
            "PlayerField::FIELD_WATCHED_FACTION_INDEX".to_string()
        } else if field_index == PlayerField::FIELD_COMBAT_RATING_1 {
            "PlayerField::FIELD_COMBAT_RATING_1".to_string()
        } else if field_index == PlayerField::FIELD_ARENA_TEAM_INFO_1_1 {
            "PlayerField::FIELD_ARENA_TEAM_INFO_1_1".to_string()
        } else if field_index == PlayerField::FIELD_HONOR_CURRENCY {
            "PlayerField::FIELD_HONOR_CURRENCY".to_string()
        } else if field_index == PlayerField::FIELD_ARENA_CURRENCY {
            "PlayerField::FIELD_ARENA_CURRENCY".to_string()
        } else if field_index == PlayerField::FIELD_MAX_LEVEL {
            "PlayerField::FIELD_MAX_LEVEL".to_string()
        } else if field_index == PlayerField::FIELD_DAILY_QUESTS_1 {
            "PlayerField::FIELD_DAILY_QUESTS_1".to_string()
        } else if field_index == PlayerField::RUNE_REGEN_1 {
            "PlayerField::RUNE_REGEN_1".to_string()
        } else if field_index == PlayerField::RUNE_REGEN_2 {
            "PlayerField::RUNE_REGEN_2".to_string()
        } else if field_index == PlayerField::RUNE_REGEN_3 {
            "PlayerField::RUNE_REGEN_3".to_string()
        } else if field_index == PlayerField::RUNE_REGEN_4 {
            "PlayerField::RUNE_REGEN_4".to_string()
        } else if field_index == PlayerField::NO_REAGENT_COST_1 {
            "PlayerField::NO_REAGENT_COST_1".to_string()
        } else if field_index == PlayerField::FIELD_GLYPH_SLOTS_1 {
            "PlayerField::FIELD_GLYPH_SLOTS_1".to_string()
        } else if field_index == PlayerField::FIELD_GLYPH_SLOTS_2 {
            "PlayerField::FIELD_GLYPH_SLOTS_2".to_string()
        } else if field_index == PlayerField::FIELD_GLYPH_SLOTS_3 {
            "PlayerField::FIELD_GLYPH_SLOTS_3".to_string()
        } else if field_index == PlayerField::FIELD_GLYPH_SLOTS_4 {
            "PlayerField::FIELD_GLYPH_SLOTS_4".to_string()
        } else if field_index == PlayerField::FIELD_GLYPH_SLOTS_5 {
            "PlayerField::FIELD_GLYPH_SLOTS_5".to_string()
        } else if field_index == PlayerField::FIELD_GLYPH_SLOTS_6 {
            "PlayerField::FIELD_GLYPH_SLOTS_6".to_string()
        } else if field_index == PlayerField::FIELD_GLYPHS_1 {
            "PlayerField::FIELD_GLYPHS_1".to_string()
        } else if field_index == PlayerField::FIELD_GLYPHS_2 {
            "PlayerField::FIELD_GLYPHS_2".to_string()
        } else if field_index == PlayerField::FIELD_GLYPHS_3 {
            "PlayerField::FIELD_GLYPHS_3".to_string()
        } else if field_index == PlayerField::FIELD_GLYPHS_4 {
            "PlayerField::FIELD_GLYPHS_4".to_string()
        } else if field_index == PlayerField::FIELD_GLYPHS_5 {
            "PlayerField::FIELD_GLYPHS_5".to_string()
        } else if field_index == PlayerField::FIELD_GLYPHS_6 {
            "PlayerField::FIELD_GLYPHS_6".to_string()
        } else if field_index == PlayerField::GLYPHS_ENABLED {
            "PlayerField::GLYPHS_ENABLED".to_string()
        } else if field_index == PlayerField::PET_SPELL_POWER {
            "PlayerField::PET_SPELL_POWER".to_string()
        } else {
            String::new()
        }
    }
}

/// A unit field has a name exactly when it has a type: an index the table does not list
/// has neither.
pub proof fn lemma_unit_field_named_iff_typed(field_index: u32)
    ensures
        (unit_field_name(field_index) == Seq::<char>::empty()) <==> (unit_field_type(field_index) == FieldType::NONE),
{
    if field_index == UnitField::CHARM {
        reveal_strlit("UnitField::CHARM");
        assert(unit_field_name(field_index).len() > 0);
    } else if field_index == UnitField::SUMMON {
        reveal_strlit("UnitField::SUMMON");
        assert(unit_field_name(field_index).len() > 0);
    } else if field_index == UnitField::CRITTER {
        reveal_strlit("UnitField::CRITTER");
        assert(unit_field_name(field_index).len() > 0);
    } else if field_index == UnitField::CHARMEDBY {
        reveal_strlit("UnitField::CHARMEDBY");
        assert(unit_field_name(field_index).len() > 0);
    } else if field_index == UnitField::SUMMONEDBY {
        reveal_strlit("UnitField::SUMMONEDBY");
        assert(unit_field_name(field_index).len() > 0);
    } else if field_index == UnitField::CREATEDBY {
        reveal_strlit("UnitField::CREATEDBY");
        assert(unit_field_name(field_index).len() > 0);
    } else if field_index == UnitField::TARGET {
        reveal_strlit("UnitField::TARGET");
        assert(unit_field_name(field_index).len() > 0);
    } else if field_index == UnitField::CHANNEL_OBJECT {
        reveal_strlit("UnitField::CHANNEL_OBJECT");
        assert(unit_field_name(field_index).len() > 0);
    } else if field_index == UnitField::CHANNEL_SPELL {
        reveal_strlit("UnitField::CHANNEL_SPELL");
        assert(unit_field_name(field_index).len() > 0);
    } else if field_index == UnitField::BYTES_0 {
        reveal_strlit("UnitField::BYTES_0");
        assert(unit_field_name(field_index).len() > 0);
    } else if field_index == UnitField::HEALTH {
        reveal_strlit("UnitField::HEALTH");
        assert(unit_field_name(field_index).len() > 0);
    } else if field_index == UnitField::POWER1 {
        reveal_strlit("UnitField::POWER1");
        assert(unit_field_name(field_index).len() > 0);
    } else if field_index == UnitField::POWER2 {
        reveal_strlit("UnitField::POWER2");
        assert(unit_field_name(field_index).len() > 0);
    } else if field_index == UnitField::POWER3 {
        reveal_strlit("UnitField::POWER3");
        assert(unit_field_name(field_index).len() > 0);
    } else if field_index == UnitField::POWER4 {
        reveal_strlit("UnitField::POWER4");
        assert(unit_field_name(field_index).len() > 0);
    } else if field_index == UnitField::POWER5 {
        reveal_strlit("UnitField::POWER5");
        assert(unit_field_name(field_index).len() > 0);
    } else if field_index == UnitField::POWER6 {
        reveal_strlit("UnitField::POWER6");
        assert(unit_field_name(field_index).len() > 0);
    } else if field_index == UnitField::POWER7 {
        reveal_strlit("UnitField::POWER7");
        assert(unit_field_name(field_index).len() > 0);
    } else if field_index == UnitField::MAXHEALTH {
        reveal_strlit("UnitField::MAXHEALTH");
        assert(unit_field_name(field_index).len() > 0);
    } else if field_index == UnitField::MAXPOWER1 {
        reveal_strlit("UnitField::MAXPOWER1");
        assert(unit_field_name(field_index).len() > 0);
    } else if field_index == UnitField::MAXPOWER2 {
        reveal_strlit("UnitField::MAXPOWER2");
        assert(unit_field_name(field_index).len() > 0);
    } else if field_index == UnitField::MAXPOWER3 {
        reveal_strlit("UnitField::MAXPOWER3");
        assert(unit_field_name(field_index).len() > 0);
    } else if field_index == UnitField::MAXPOWER4 {
        reveal_strlit("UnitField::MAXPOWER4");
        assert(unit_field_name(field_index).len() > 0);
    } else if field_index == UnitField::MAXPOWER5 {
        reveal_strlit("UnitField::MAXPOWER5");
        assert(unit_field_name(field_index).len() > 0);
    } else if field_index == UnitField::MAXPOWER6 {
        reveal_strlit("UnitField::MAXPOWER6");
        assert(unit_field_name(field_index).len() > 0);
    } else if field_index == UnitField::MAXPOWER7 {
        reveal_strlit("UnitField::MAXPOWER7");
        assert(unit_field_name(field_index).len() > 0);
    } else if field_index == UnitField::POWER_REGEN_FLAT_MODIFIER {
        reveal_strlit("UnitField::POWER_REGEN_FLAT_MODIFIER");
        assert(unit_field_name(field_index).len() > 0);
    } else if field_index == UnitField::POWER_REGEN_INTERRUPTED_FLAT_MODIFIER {
        reveal_strlit("UnitField::POWER_REGEN_INTERRUPTED_FLAT_MODIFIER");
        assert(unit_field_name(field_index).len() > 0);
    } else if field_index == UnitField::LEVEL {
        reveal_strlit("UnitField::LEVEL");
        assert(unit_field_name(field_index).len() > 0);
    } else if field_index == UnitField::FACTIONTEMPLATE {
        reveal_strlit("UnitField::FACTIONTEMPLATE");
        assert(unit_field_name(field_index).len() > 0);
    } else if field_index == UnitField::VIRTUAL_ITEM_SLOT_ID1 {
        reveal_strlit("UnitField::VIRTUAL_ITEM_SLOT_ID1");
        assert(unit_field_name(field_index).len() > 0);
    } else if field_index == UnitField::VIRTUAL_ITEM_SLOT_ID2 {
        reveal_strlit("UnitField::VIRTUAL_ITEM_SLOT_ID2");
        assert(unit_field_name(field_index).len() > 0);
    } else if field_index == UnitField::VIRTUAL_ITEM_SLOT_ID3 {
        reveal_strlit("UnitField::VIRTUAL_ITEM_SLOT_ID3");
        assert(unit_field_name(field_index).len() > 0);
    } else if field_index == UnitField::FLAGS {
        reveal_strlit("UnitField::FLAGS");
        assert(unit_field_name(field_index).len() > 0);
    } else if field_index == UnitField::FLAGS_2 {
        reveal_strlit("UnitField::FLAGS_2");
        assert(unit_field_name(field_index).len() > 0);
    } else if field_index == UnitField::AURASTATE {
        reveal_strlit("UnitField::AURASTATE");
        assert(unit_field_name(field_index).len() > 0);
    } else if field_index == UnitField::BASEATTACKTIME {
        reveal_strlit("UnitField::BASEATTACKTIME");
        assert(unit_field_name(field_index).len() > 0);
    } else if field_index == UnitField::UNK63 {
        reveal_strlit("UnitField::UNK63");
        assert(unit_field_name(field_index).len() > 0);
    } else if field_index == UnitField::RANGEDATTACKTIME {
        reveal_strlit("UnitField::RANGEDATTACKTIME");
        assert(unit_field_name(field_index).len() > 0);
    } else if field_index == UnitField::BOUNDINGRADIUS {
        reveal_strlit("UnitField::BOUNDINGRADIUS");
        assert(unit_field_name(field_index).len() > 0);
    } else if field_index == UnitField::COMBATREACH {
        reveal_strlit("UnitField::COMBATREACH");
        assert(unit_field_name(field_index).len() > 0);
    } else if field_index == UnitField::DISPLAYID {
        reveal_strlit("UnitField::DISPLAYID");
        assert(unit_field_name(field_index).len() > 0);
    } else if field_index == UnitField::NATIVEDISPLAYID {
        reveal_strlit("UnitField::NATIVEDISPLAYID");
        assert(unit_field_name(field_index).len() > 0);
    } else if field_index == UnitField::MOUNTDISPLAYID {
        reveal_strlit("UnitField::MOUNTDISPLAYID");
        assert(unit_field_name(field_index).len() > 0);
    } else if field_index == UnitField::MINDAMAGE {
        reveal_strlit("UnitField::MINDAMAGE");
        assert(unit_field_name(field_index).len() > 0);
    } else if field_index == UnitField::MAXDAMAGE {
        reveal_strlit("UnitField::MAXDAMAGE");
        assert(unit_field_name(field_index).len() > 0);
    } else if field_index == UnitField::MINOFFHANDDAMAGE {
        reveal_strlit("UnitField::MINOFFHANDDAMAGE");
        assert(unit_field_name(field_index).len() > 0);
    } else if field_index == UnitField::MAXOFFHANDDAMAGE {
        reveal_strlit("UnitField::MAXOFFHANDDAMAGE");
        assert(unit_field_name(field_index).len() > 0);
    } else if field_index == UnitField::BYTES_1 {
        reveal_strlit("UnitField::BYTES_1");
        assert(unit_field_name(field_index).len() > 0);
    } else if field_index == UnitField::PETNUMBER {
        reveal_strlit("UnitField::PETNUMBER");
        assert(unit_field_name(field_index).len() > 0);
    } else if field_index == UnitField::PET_NAME_TIMESTAMP {
        reveal_strlit("UnitField::PET_NAME_TIMESTAMP");
        assert(unit_field_name(field_index).len() > 0);
    } else if field_index == UnitField::PETEXPERIENCE {
        reveal_strlit("UnitField::PETEXPERIENCE");
        assert(unit_field_name(field_index).len() > 0);
    } else if field_index == UnitField::PETNEXTLEVELEXP {
        reveal_strlit("UnitField::PETNEXTLEVELEXP");
        assert(unit_field_name(field_index).len() > 0);
    } else if field_index == UnitField::DYNAMIC_FLAGS {
        reveal_strlit("UnitField::DYNAMIC_FLAGS");
        assert(unit_field_name(field_index).len() > 0);
    } else if field_index == UnitField::MOD_CAST_SPEED {
        reveal_strlit("UnitField::MOD_CAST_SPEED");
        assert(unit_field_name(field_index).len() > 0);
    } else if field_index == UnitField::CREATED_BY_SPELL {
        reveal_strlit("UnitField::CREATED_BY_SPELL");
        assert(unit_field_name(field_index).len() > 0);
    } else if field_index == UnitField::NPC_FLAGS {
        reveal_strlit("UnitField::NPC_FLAGS");
        assert(unit_field_name(field_index).len() > 0);
    } else if field_index == UnitField::NPC_EMOTESTATE {
        reveal_strlit("UnitField::NPC_EMOTESTATE");
        assert(unit_field_name(field_index).len() > 0);
    } else if field_index == UnitField::STAT0 {
        reveal_strlit("UnitField::STAT0");
        assert(unit_field_name(field_index).len() > 0);
    } else if field_index == UnitField::STAT1 {
        reveal_strlit("UnitField::STAT1");
        assert(unit_field_name(field_index).len() > 0);
    } else if field_index == UnitField::STAT2 {
        reveal_strlit("UnitField::STAT2");
        assert(unit_field_name(field_index).len() > 0);
    } else if field_index == UnitField::STAT3 {
        reveal_strlit("UnitField::STAT3");
        assert(unit_field_name(field_index).len() > 0);
    } else if field_index == UnitField::STAT4 {
        reveal_strlit("UnitField::STAT4");
        assert(unit_field_name(field_index).len() > 0);
    } else if field_index == UnitField::POSSTAT0 {
        reveal_strlit("UnitField::POSSTAT0");
        assert(unit_field_name(field_index).len() > 0);
    } else if field_index == UnitField::POSSTAT1 {
        reveal_strlit("UnitField::POSSTAT1");
        assert(unit_field_name(field_index).len() > 0);
    } else if field_index == UnitField::POSSTAT2 {
        reveal_strlit("UnitField::POSSTAT2");
        assert(unit_field_name(field_index).len() > 0);
    } else if field_index == UnitField::POSSTAT3 {
        reveal_strlit("UnitField::POSSTAT3");
        assert(unit_field_name(field_index).len() > 0);
    } else if field_index == UnitField::POSSTAT4 {
        reveal_strlit("UnitField::POSSTAT4");
        assert(unit_field_name(field_index).len() > 0);
    } else if field_index == UnitField::NEGSTAT0 {
        reveal_strlit("UnitField::NEGSTAT0");
        assert(unit_field_name(field_index).len() > 0);
    } else if field_index == UnitField::NEGSTAT1 {
        reveal_strlit("UnitField::NEGSTAT1");
        assert(unit_field_name(field_index).len() > 0);
    } else if field_index == UnitField::NEGSTAT2 {
        reveal_strlit("UnitField::NEGSTAT2");
        assert(unit_field_name(field_index).len() > 0);
    } else if field_index == UnitField::NEGSTAT3 {
        reveal_strlit("UnitField::NEGSTAT3");
        assert(unit_field_name(field_index).len() > 0);
    } else if field_index == UnitField::NEGSTAT4 {
        reveal_strlit("UnitField::NEGSTAT4");
        assert(unit_field_name(field_index).len() > 0);
    } else if field_index == UnitField::RESISTANCES_ARMOR {
        reveal_strlit("UnitField::RESISTANCES_ARMOR");
        assert(unit_field_name(field_index).len() > 0);
    } else if field_index == UnitField::RESISTANCES_HOLY {
        reveal_strlit("UnitField::RESISTANCES_HOLY");
        assert(unit_field_name(field_index).len() > 0);
    } else if field_index == UnitField::RESISTANCES_FIRE {
        reveal_strlit("UnitField::RESISTANCES_FIRE");
        assert(unit_field_name(field_index).len() > 0);
    } else if field_index == UnitField::RESISTANCES_NATURE {
        reveal_strlit("UnitField::RESISTANCES_NATURE");
        assert(unit_field_name(field_index).len() > 0);
    } else if field_index == UnitField::RESISTANCES_FROST {
        reveal_strlit("UnitField::RESISTANCES_FROST");
        assert(unit_field_name(field_index).len() > 0);
    } else if field_index == UnitField::RESISTANCES_SHADOW {
        reveal_strlit("UnitField::RESISTANCES_SHADOW");
        assert(unit_field_name(field_index).len() > 0);
    } else if field_index == UnitField::RESISTANCES_ARCANE {
        reveal_strlit("UnitField::RESISTANCES_ARCANE");
        assert(unit_field_name(field_index).len() > 0);
    } else if field_index == UnitField::RESISTANCEBUFFMODSPOSITIVE_ARMOR {
        reveal_strlit("UnitField::RESISTANCEBUFFMODSPOSITIVE_ARMOR");
        assert(unit_field_name(field_index).len() > 0);
    } else if field_index == UnitField::RESISTANCEBUFFMODSPOSITIVE_HOLY {
        reveal_strlit("UnitField::RESISTANCEBUFFMODSPOSITIVE_HOLY");
        assert(unit_field_name(field_index).len() > 0);
    } else if field_index == UnitField::RESISTANCEBUFFMODSPOSITIVE_FIRE {
        reveal_strlit("UnitField::RESISTANCEBUFFMODSPOSITIVE_FIRE");
        assert(unit_field_name(field_index).len() > 0);
    } else if field_index == UnitField::RESISTANCEBUFFMODSPOSITIVE_NATURE {
        reveal_strlit("UnitField::RESISTANCEBUFFMODSPOSITIVE_NATURE");
        assert(unit_field_name(field_index).len() > 0);
    } else if field_index == UnitField::RESISTANCEBUFFMODSPOSITIVE_FROST {
        reveal_strlit("UnitField::RESISTANCEBUFFMODSPOSITIVE_FROST");
        assert(unit_field_name(field_index).len() > 0);
    } else if field_index == UnitField::RESISTANCEBUFFMODSPOSITIVE_SHADOW {
        reveal_strlit("UnitField::RESISTANCEBUFFMODSPOSITIVE_SHADOW");
        assert(unit_field_name(field_index).len() > 0);
    } else if field_index == UnitField::RESISTANCEBUFFMODSPOSITIVE_ARCANE {
        reveal_strlit("UnitField::RESISTANCEBUFFMODSPOSITIVE_ARCANE");
        assert(unit_field_name(field_index).len() > 0);
    } else if field_index == UnitField::RESISTANCEBUFFMODSNEGATIVE_ARMOR {
        reveal_strlit("UnitField::RESISTANCEBUFFMODSNEGATIVE_ARMOR");
        assert(unit_field_name(field_index).len() > 0);
    } else if field_index == UnitField::RESISTANCEBUFFMODSNEGATIVE_HOLY {
        reveal_strlit("UnitField::RESISTANCEBUFFMODSNEGATIVE_HOLY");
        assert(unit_field_name(field_index).len() > 0);
    } else if field_index == UnitField::RESISTANCEBUFFMODSNEGATIVE_FIRE {
        reveal_strlit("UnitField::RESISTANCEBUFFMODSNEGATIVE_FIRE");
        assert(unit_field_name(field_index).len() > 0);
    } else if field_index == UnitField::RESISTANCEBUFFMODSNEGATIVE_NATURE {
        reveal_strlit("UnitField::RESISTANCEBUFFMODSNEGATIVE_NATURE");
        assert(unit_field_name(field_index).len() > 0);
    } else if field_index == UnitField::RESISTANCEBUFFMODSNEGATIVE_FROST {
        reveal_strlit("UnitField::RESISTANCEBUFFMODSNEGATIVE_FROST");
        assert(unit_field_name(field_index).len() > 0);
    } else if field_index == UnitField::RESISTANCEBUFFMODSNEGATIVE_SHADOW {
        reveal_strlit("UnitField::RESISTANCEBUFFMODSNEGATIVE_SHADOW");
        assert(unit_field_name(field_index).len() > 0);
    } else if field_index == UnitField::RESISTANCEBUFFMODSNEGATIVE_ARCANE {
        reveal_strlit("UnitField::RESISTANCEBUFFMODSNEGATIVE_ARCANE");
        assert(unit_field_name(field_index).len() > 0);
    } else if field_index == UnitField::BASE_MANA {
        reveal_strlit("UnitField::BASE_MANA");
        assert(unit_field_name(field_index).len() > 0);
    } else if field_index == UnitField::BASE_HEALTH {
        reveal_strlit("UnitField::BASE_HEALTH");
        assert(unit_field_name(field_index).len() > 0);
    } else if field_index == UnitField::BYTES_2 {
        reveal_strlit("UnitField::BYTES_2");
        assert(unit_field_name(field_index).len() > 0);
    } else if field_index == UnitField::ATTACK_POWER {
        reveal_strlit("UnitField::ATTACK_POWER");
        assert(unit_field_name(field_index).len() > 0);
    } else if field_index == UnitField::ATTACK_POWER_MODS {
        reveal_strlit("UnitField::ATTACK_POWER_MODS");
        assert(unit_field_name(field_index).len() > 0);
    } else if field_index == UnitField::ATTACK_POWER_MULTIPLIER {
        reveal_strlit("UnitField::ATTACK_POWER_MULTIPLIER");
        assert(unit_field_name(field_index).len() > 0);
    } else if field_index == UnitField::RANGED_ATTACK_POWER {
        reveal_strlit("UnitField::RANGED_ATTACK_POWER");
        assert(unit_field_name(field_index).len() > 0);
    } else if field_index == UnitField::RANGED_ATTACK_POWER_MODS {
        reveal_strlit("UnitField::RANGED_ATTACK_POWER_MODS");
        assert(unit_field_name(field_index).len() > 0);
    } else if field_index == UnitField::RANGED_ATTACK_POWER_MULTIPLIER {
        reveal_strlit("UnitField::RANGED_ATTACK_POWER_MULTIPLIER");
        assert(unit_field_name(field_index).len() > 0);
    } else if field_index == UnitField::MINRANGEDDAMAGE {
        reveal_strlit("UnitField::MINRANGEDDAMAGE");
        assert(unit_field_name(field_index).len() > 0);
    } else if field_index == UnitField::MAXRANGEDDAMAGE {
        reveal_strlit("UnitField::MAXRANGEDDAMAGE");
        assert(unit_field_name(field_index).len() > 0);
    } else if field_index == UnitField::POWER_COST_MODIFIER {
        reveal_strlit("UnitField::POWER_COST_MODIFIER");
        assert(unit_field_name(field_index).len() > 0);
    } else if field_index == UnitField::POWER_COST_MULTIPLIER1 {
        reveal_strlit("UnitField::POWER_COST_MULTIPLIER1");
        assert(unit_field_name(field_index).len() > 0);
    } else if field_index == UnitField::POWER_COST_MULTIPLIER2 {
        reveal_strlit("UnitField::POWER_COST_MULTIPLIER2");
        assert(unit_field_name(field_index).len() > 0);
    } else if field_index == UnitField::POWER_COST_MULTIPLIER3 {
        reveal_strlit("UnitField::POWER_COST_MULTIPLIER3");
        assert(unit_field_name(field_index).len() > 0);
    } else if field_index == UnitField::POWER_COST_MULTIPLIER4 {
        reveal_strlit("UnitField::POWER_COST_MULTIPLIER4");
        assert(unit_field_name(field_index).len() > 0);
    } else if field_index == UnitField::POWER_COST_MULTIPLIER5 {
        reveal_strlit("UnitField::POWER_COST_MULTIPLIER5");
        assert(unit_field_name(field_index).len() > 0);
    } else if field_index == UnitField::POWER_COST_MULTIPLIER6 {
        reveal_strlit("UnitField::POWER_COST_MULTIPLIER6");
        assert(unit_field_name(field_index).len() > 0);
    } else if field_index == UnitField::POWER_COST_MULTIPLIER7 {
        reveal_strlit("UnitField::POWER_COST_MULTIPLIER7");
        assert(unit_field_name(field_index).len() > 0);
    } else if field_index == UnitField::MAXHEALTHMODIFIER {
        reveal_strlit("UnitField::MAXHEALTHMODIFIER");
        assert(unit_field_name(field_index).len() > 0);
    } else if field_index == UnitField::HOVERHEIGHT {
        reveal_strlit("UnitField::HOVERHEIGHT");
        assert(unit_field_name(field_index).len() > 0);
    }
}

/// A player field has a name exactly when it has a type: an index the table does not list
/// has neither.
#[verifier::rlimit(100)]
#[verifier::spinoff_prover]
pub proof fn lemma_player_field_named_iff_typed(field_index: u32)
    ensures
        (player_field_name(field_index) == Seq::<char>::empty()) <==> (player_field_type(field_index) == FieldType::NONE),
{
    if field_index == PlayerField::DUEL_ARBITER {
        reveal_strlit("PlayerField::DUEL_ARBITER");
        assert(player_field_name(field_index).len() > 0);
    } else if field_index == PlayerField::FLAGS {
        reveal_strlit("PlayerField::FLAGS");
        assert(player_field_name(field_index).len() > 0);
    } else if field_index == PlayerField::GUILDID {
        reveal_strlit("PlayerField::GUILDID");
        assert(player_field_name(field_index).len() > 0);
    } else if field_index == PlayerField::GUILDRANK {
        reveal_strlit("PlayerField::GUILDRANK");
        assert(player_field_name(field_index).len() > 0);
    } else if field_index == PlayerField::BYTES {
        reveal_strlit("PlayerField::BYTES");
        assert(player_field_name(field_index).len() > 0);
    } else if field_index == PlayerField::BYTES_2 {
        reveal_strlit("PlayerField::BYTES_2");
        assert(player_field_name(field_index).len() > 0);
    } else if field_index == PlayerField::BYTES_3 {
        reveal_strlit("PlayerField::BYTES_3");
        assert(player_field_name(field_index).len() > 0);
    } else if field_index == PlayerField::DUEL_TEAM {
        reveal_strlit("PlayerField::DUEL_TEAM");
        assert(player_field_name(field_index).len() > 0);
    } else if field_index == PlayerField::GUILD_TIMESTAMP {
        reveal_strlit("PlayerField::GUILD_TIMESTAMP");
        assert(player_field_name(field_index).len() > 0);
    } else if field_index == PlayerField::QUEST_LOG_1_1 {
        reveal_strlit("PlayerField::QUEST_LOG_1_1");
        assert(player_field_name(field_index).len() > 0);
    } else if field_index == PlayerField::QUEST_LOG_1_2 {
        reveal_strlit("PlayerField::QUEST_LOG_1_2");
        assert(player_field_name(field_index).len() > 0);
    } else if field_index == PlayerField::QUEST_LOG_1_3 {
        reveal_strlit("PlayerField::QUEST_LOG_1_3");
        assert(player_field_name(field_index).len() > 0);
    } else if field_index == PlayerField::QUEST_LOG_1_4 {
        reveal_strlit("PlayerField::QUEST_LOG_1_4");
        assert(player_field_name(field_index).len() > 0);
    } else if field_index == PlayerField::QUEST_LOG_2_1 {
        reveal_strlit("PlayerField::QUEST_LOG_2_1");
        assert(player_field_name(field_index).len() > 0);
    } else if field_index == PlayerField::QUEST_LOG_2_2 {
        reveal_strlit("PlayerField::QUEST_LOG_2_2");
        assert(player_field_name(field_index).len() > 0);
    } else if field_index == PlayerField::QUEST_LOG_2_3 {
        reveal_strlit("PlayerField::QUEST_LOG_2_3");
        assert(player_field_name(field_index).len() > 0);
    } else if field_index == PlayerField::QUEST_LOG_2_5 {
        reveal_strlit("PlayerField::QUEST_LOG_2_5");
        assert(player_field_name(field_index).len() > 0);
    } else if field_index == PlayerField::QUEST_LOG_3_1 {
        reveal_strlit("PlayerField::QUEST_LOG_3_1");
        assert(player_field_name(field_index).len() > 0);
    } else if field_index == PlayerField::QUEST_LOG_3_2 {
        reveal_strlit("PlayerField::QUEST_LOG_3_2");
        assert(player_field_name(field_index).len() > 0);
    } else if field_index == PlayerField::QUEST_LOG_3_3 {
        reveal_strlit("PlayerField::QUEST_LOG_3_3");
        assert(player_field_name(field_index).len() > 0);
    } else if field_index == PlayerField::QUEST_LOG_3_5 {
        reveal_strlit("PlayerField::QUEST_LOG_3_5");
        assert(player_field_name(field_index).len() > 0);
    } else if field_index == PlayerField::QUEST_LOG_4_1 {
        reveal_strlit("PlayerField::QUEST_LOG_4_1");
        assert(player_field_name(field_index).len() > 0);
    } else if field_index == PlayerField::QUEST_LOG_4_2 {
        reveal_strlit("PlayerField::QUEST_LOG_4_2");
        assert(player_field_name(field_index).len() > 0);
    } else if field_index == PlayerField::QUEST_LOG_4_3 {
        reveal_strlit("PlayerField::QUEST_LOG_4_3");
        assert(player_field_name(field_index).len() > 0);
    } else if field_index == PlayerField::QUEST_LOG_4_5 {
        reveal_strlit("PlayerField::QUEST_LOG_4_5");
        assert(player_field_name(field_index).len() > 0);
    } else if field_index == PlayerField::QUEST_LOG_5_1 {
        reveal_strlit("PlayerField::QUEST_LOG_5_1");
        assert(player_field_name(field_index).len() > 0);
    } else if field_index == PlayerField::QUEST_LOG_5_2 {
        reveal_strlit("PlayerField::QUEST_LOG_5_2");
        assert(player_field_name(field_index).len() > 0);
    } else if field_index == PlayerField::QUEST_LOG_5_3 {
        reveal_strlit("PlayerField::QUEST_LOG_5_3");
        assert(player_field_name(field_index).len() > 0);
    } else if field_index == PlayerField::QUEST_LOG_5_5 {
        reveal_strlit("PlayerField::QUEST_LOG_5_5");
        assert(player_field_name(field_index).len() > 0);
    } else if field_index == PlayerField::QUEST_LOG_6_1 {
        reveal_strlit("PlayerField::QUEST_LOG_6_1");
        assert(player_field_name(field_index).len() > 0);
    } else if field_index == PlayerField::QUEST_LOG_6_2 {
        reveal_strlit("PlayerField::QUEST_LOG_6_2");
        assert(player_field_name(field_index).len() > 0);
    } else if field_index == PlayerField::QUEST_LOG_6_3 {
        reveal_strlit("PlayerField::QUEST_LOG_6_3");
        assert(player_field_name(field_index).len() > 0);
    } else if field_index == PlayerField::QUEST_LOG_6_5 {
        reveal_strlit("PlayerField::QUEST_LOG_6_5");
        assert(player_field_name(field_index).len() > 0);
    } else if field_index == PlayerField::QUEST_LOG_7_1 {
        reveal_strlit("PlayerField::QUEST_LOG_7_1");
        assert(player_field_name(field_index).len() > 0);
    } else if field_index == PlayerField::QUEST_LOG_7_2 {
        reveal_strlit("PlayerField::QUEST_LOG_7_2");
        assert(player_field_name(field_index).len() > 0);
    } else if field_index == PlayerField::QUEST_LOG_7_3 {
        reveal_strlit("PlayerField::QUEST_LOG_7_3");
        assert(player_field_name(field_index).len() > 0);
    } else if field_index == PlayerField::QUEST_LOG_7_5 {
        reveal_strlit("PlayerField::QUEST_LOG_7_5");
        assert(player_field_name(field_index).len() > 0);
    } else if field_index == PlayerField::QUEST_LOG_8_1 {
        reveal_strlit("PlayerField::QUEST_LOG_8_1");
        assert(player_field_name(field_index).len() > 0);
    } else if field_index == PlayerField::QUEST_LOG_8_2 {
        reveal_strlit("PlayerField::QUEST_LOG_8_2");
        assert(player_field_name(field_index).len() > 0);
    } else if field_index == PlayerField::QUEST_LOG_8_3 {
        reveal_strlit("PlayerField::QUEST_LOG_8_3");
        assert(player_field_name(field_index).len() > 0);
    } else if field_index == PlayerField::QUEST_LOG_8_5 {
        reveal_strlit("PlayerField::QUEST_LOG_8_5");
        assert(player_field_name(field_index).len() > 0);
    } else if field_index == PlayerField::QUEST_LOG_9_1 {
        reveal_strlit("PlayerField::QUEST_LOG_9_1");
        assert(player_field_name(field_index).len() > 0);
    } else if field_index == PlayerField::QUEST_LOG_9_2 {
        reveal_strlit("PlayerField::QUEST_LOG_9_2");
        assert(player_field_name(field_index).len() > 0);
    } else if field_index == PlayerField::QUEST_LOG_9_3 {
        reveal_strlit("PlayerField::QUEST_LOG_9_3");
        assert(player_field_name(field_index).len() > 0);
    } else if field_index == PlayerField::QUEST_LOG_9_5 {
        reveal_strlit("PlayerField::QUEST_LOG_9_5");
        assert(player_field_name(field_index).len() > 0);
    } else if field_index == PlayerField::QUEST_LOG_10_1 {
        reveal_strlit("PlayerField::QUEST_LOG_10_1");
        assert(player_field_name(field_index).len() > 0);
    } else if field_index == PlayerField::QUEST_LOG_10_2 {
        reveal_strlit("PlayerField::QUEST_LOG_10_2");
        assert(player_field_name(field_index).len() > 0);
    } else if field_index == PlayerField::QUEST_LOG_10_3 {
        reveal_strlit("PlayerField::QUEST_LOG_10_3");
        assert(player_field_name(field_index).len() > 0);
    } else if field_index == PlayerField::QUEST_LOG_10_5 {
        reveal_strlit("PlayerField::QUEST_LOG_10_5");
        assert(player_field_name(field_index).len() > 0);
    } else if field_index == PlayerField::QUEST_LOG_11_1 {
        reveal_strlit("PlayerField::QUEST_LOG_11_1");
        assert(player_field_name(field_index).len() > 0);
    } else if field_index == PlayerField::QUEST_LOG_11_2 {
        reveal_strlit("PlayerField::QUEST_LOG_11_2");
        assert(player_field_name(field_index).len() > 0);
    } else if field_index == PlayerField::QUEST_LOG_11_3 {
        reveal_strlit("PlayerField::QUEST_LOG_11_3");
        assert(player_field_name(field_index).len() > 0);
    } else if field_index == PlayerField::QUEST_LOG_11_5 {
        reveal_strlit("PlayerField::QUEST_LOG_11_5");
        assert(player_field_name(field_index).len() > 0);
    } else if field_index == PlayerField::QUEST_LOG_12_1 {
        reveal_strlit("PlayerField::QUEST_LOG_12_1");
        assert(player_field_name(field_index).len() > 0);
    } else if field_index == PlayerField::QUEST_LOG_12_2 {
        reveal_strlit("PlayerField::QUEST_LOG_12_2");
        assert(player_field_name(field_index).len() > 0);
    } else if field_index == PlayerField::QUEST_LOG_12_3 {
        reveal_strlit("PlayerField::QUEST_LOG_12_3");
        assert(player_field_name(field_index).len() > 0);
    } else if field_index == PlayerField::QUEST_LOG_12_5 {
        reveal_strlit("PlayerField::QUEST_LOG_12_5");
        assert(player_field_name(field_index).len() > 0);
    } else if field_index == PlayerField::QUEST_LOG_13_1 {
        reveal_strlit("PlayerField::QUEST_LOG_13_1");
        assert(player_field_name(field_index).len() > 0);
    } else if field_index == PlayerField::QUEST_LOG_13_2 {
        reveal_strlit("PlayerField::QUEST_LOG_13_2");
        assert(player_field_name(field_index).len() > 0);
    } else if field_index == PlayerField::QUEST_LOG_13_3 {
        reveal_strlit("PlayerField::QUEST_LOG_13_3");
        assert(player_field_name(field_index).len() > 0);
    } else if field_index == PlayerField::QUEST_LOG_13_5 {
        reveal_strlit("PlayerField::QUEST_LOG_13_5");
        assert(player_field_name(field_index).len() > 0);
    } else if field_index == PlayerField::QUEST_LOG_14_1 {
        reveal_strlit("PlayerField::QUEST_LOG_14_1");
        assert(player_field_name(field_index).len() > 0);
    } else if field_index == PlayerField::QUEST_LOG_14_2 {
        reveal_strlit("PlayerField::QUEST_LOG_14_2");
        assert(player_field_name(field_index).len() > 0);
    } else if field_index == PlayerField::QUEST_LOG_14_3 {
        reveal_strlit("PlayerField::QUEST_LOG_14_3");
        assert(player_field_name(field_index).len() > 0);
    } else if field_index == PlayerField::QUEST_LOG_14_5 {
        reveal_strlit("PlayerField::QUEST_LOG_14_5");
        assert(player_field_name(field_index).len() > 0);
    } else if field_index == PlayerField::QUEST_LOG_15_1 {
        reveal_strlit("PlayerField::QUEST_LOG_15_1");
        assert(player_field_name(field_index).len() > 0);
    } else if field_index == PlayerField::QUEST_LOG_15_2 {
        reveal_strlit("PlayerField::QUEST_LOG_15_2");
        assert(player_field_name(field_index).len() > 0);
    } else if field_index == PlayerField::QUEST_LOG_15_3 {
        reveal_strlit("PlayerField::QUEST_LOG_15_3");
        assert(player_field_name(field_index).len() > 0);
    } else if field_index == PlayerField::QUEST_LOG_15_5 {
        reveal_strlit("PlayerField::QUEST_LOG_15_5");
        assert(player_field_name(field_index).len() > 0);
    } else if field_index == PlayerField::QUEST_LOG_16_1 {
        reveal_strlit("PlayerField::QUEST_LOG_16_1");
        assert(player_field_name(field_index).len() > 0);
    } else if field_index == PlayerField::QUEST_LOG_16_2 {
        reveal_strlit("PlayerField::QUEST_LOG_16_2");
        assert(player_field_name(field_index).len() > 0);
    } else if field_index == PlayerField::QUEST_LOG_16_3 {
        reveal_strlit("PlayerField::QUEST_LOG_16_3");
        assert(player_field_name(field_index).len() > 0);
    } else if field_index == PlayerField::QUEST_LOG_16_5 {
        reveal_strlit("PlayerField::QUEST_LOG_16_5");
        assert(player_field_name(field_index).len() > 0);
    } else if field_index == PlayerField::QUEST_LOG_17_1 {
        reveal_strlit("PlayerField::QUEST_LOG_17_1");
        assert(player_field_name(field_index).len() > 0);
    } else if field_index == PlayerField::QUEST_LOG_17_2 {
        reveal_strlit("PlayerField::QUEST_LOG_17_2");
        assert(player_field_name(field_index).len() > 0);
    } else if field_index == PlayerField::QUEST_LOG_17_3 {
        reveal_strlit("PlayerField::QUEST_LOG_17_3");
        assert(player_field_name(field_index).len() > 0);
    } else if field_index == PlayerField::QUEST_LOG_17_5 {
        reveal_strlit("PlayerField::QUEST_LOG_17_5");
        assert(player_field_name(field_index).len() > 0);
    } else if field_index == PlayerField::QUEST_LOG_18_1 {
        reveal_strlit("PlayerField::QUEST_LOG_18_1");
        assert(player_field_name(field_index).len() > 0);
    } else if field_index == PlayerField::QUEST_LOG_18_2 {
        reveal_strlit("PlayerField::QUEST_LOG_18_2");
        assert(player_field_name(field_index).len() > 0);
    } else if field_index == PlayerField::QUEST_LOG_18_3 {
        reveal_strlit("PlayerField::QUEST_LOG_18_3");
        assert(player_field_name(field_index).len() > 0);
    } else if field_index == PlayerField::QUEST_LOG_18_5 {
        reveal_strlit("PlayerField::QUEST_LOG_18_5");
        assert(player_field_name(field_index).len() > 0);
    } else if field_index == PlayerField::QUEST_LOG_19_1 {
        reveal_strlit("PlayerField::QUEST_LOG_19_1");
        assert(player_field_name(field_index).len() > 0);
    } else if field_index == PlayerField::QUEST_LOG_19_2 {
        reveal_strlit("PlayerField::QUEST_LOG_19_2");
        assert(player_field_name(field_index).len() > 0);
    } else if field_index == PlayerField::QUEST_LOG_19_3 {
        reveal_strlit("PlayerField::QUEST_LOG_19_3");
        assert(player_field_name(field_index).len() > 0);
    } else if field_index == PlayerField::QUEST_LOG_19_5 {
        reveal_strlit("PlayerField::QUEST_LOG_19_5");
        assert(player_field_name(field_index).len() > 0);
    } else if field_index == PlayerField::QUEST_LOG_20_1 {
        reveal_strlit("PlayerField::QUEST_LOG_20_1");
        assert(player_field_name(field_index).len() > 0);
    } else if field_index == PlayerField::QUEST_LOG_20_2 {
        reveal_strlit("PlayerField::QUEST_LOG_20_2");
        assert(player_field_name(field_index).len() > 0);
    } else if field_index == PlayerField::QUEST_LOG_20_3 {
        reveal_strlit("PlayerField::QUEST_LOG_20_3");
        assert(player_field_name(field_index).len() > 0);
    } else if field_index == PlayerField::QUEST_LOG_20_5 {
        reveal_strlit("PlayerField::QUEST_LOG_20_5");
        assert(player_field_name(field_index).len() > 0);
    } else if field_index == PlayerField::QUEST_LOG_21_1 {
        reveal_strlit("PlayerField::QUEST_LOG_21_1");
        assert(player_field_name(field_index).len() > 0);
    } else if field_index == PlayerField::QUEST_LOG_21_2 {
        reveal_strlit("PlayerField::QUEST_LOG_21_2");
        assert(player_field_name(field_index).len() > 0);
    } else if field_index == PlayerField::QUEST_LOG_21_3 {
        reveal_strlit("PlayerField::QUEST_LOG_21_3");
        assert(player_field_name(field_index).len() > 0);
    } else if field_index == PlayerField::QUEST_LOG_21_5 {
        reveal_strlit("PlayerField::QUEST_LOG_21_5");
        assert(player_field_name(field_index).len() > 0);
    } else if field_index == PlayerField::QUEST_LOG_22_1 {
        reveal_strlit("PlayerField::QUEST_LOG_22_1");
        assert(player_field_name(field_index).len() > 0);
    } else if field_index == PlayerField::QUEST_LOG_22_2 {
        reveal_strlit("PlayerField::QUEST_LOG_22_2");
        assert(player_field_name(field_index).len() > 0);
    } else if field_index == PlayerField::QUEST_LOG_22_3 {
        reveal_strlit("PlayerField::QUEST_LOG_22_3");
        assert(player_field_name(field_index).len() > 0);
    } else if field_index == PlayerField::QUEST_LOG_22_5 {
        reveal_strlit("PlayerField::QUEST_LOG_22_5");
        assert(player_field_name(field_index).len() > 0);
    } else if field_index == PlayerField::QUEST_LOG_23_1 {
        reveal_strlit("PlayerField::QUEST_LOG_23_1");
        assert(player_field_name(field_index).len() > 0);
    } else if field_index == PlayerField::QUEST_LOG_23_2 {
        reveal_strlit("PlayerField::QUEST_LOG_23_2");
        assert(player_field_name(field_index).len() > 0);
    } else if field_index == PlayerField::QUEST_LOG_23_3 {
        reveal_strlit("PlayerField::QUEST_LOG_23_3");
        assert(player_field_name(field_index).len() > 0);
    } else if field_index == PlayerField::QUEST_LOG_23_5 {
        reveal_strlit("PlayerField::QUEST_LOG_23_5");
        assert(player_field_name(field_index).len() > 0);
    } else if field_index == PlayerField::QUEST_LOG_24_1 {
        reveal_strlit("PlayerField::QUEST_LOG_24_1");
        assert(player_field_name(field_index).len() > 0);
    } else if field_index == PlayerField::QUEST_LOG_24_2 {
        reveal_strlit("PlayerField::QUEST_LOG_24_2");
        assert(player_field_name(field_index).len() > 0);
    } else if field_index == PlayerField::QUEST_LOG_24_3 {
        reveal_strlit("PlayerField::QUEST_LOG_24_3");
        assert(player_field_name(field_index).len() > 0);
    } else if field_index == PlayerField::QUEST_LOG_24_5 {
        reveal_strlit("PlayerField::QUEST_LOG_24_5");
        assert(player_field_name(field_index).len() > 0);
    } else if field_index == PlayerField::QUEST_LOG_25_1 {
        reveal_strlit("PlayerField::QUEST_LOG_25_1");
        assert(player_field_name(field_index).len() > 0);
    } else if field_index == PlayerField::QUEST_LOG_25_2 {
        reveal_strlit("PlayerField::QUEST_LOG_25_2");
        assert(player_field_name(field_index).len() > 0);
    } else if field_index == PlayerField::QUEST_LOG_25_3 {
        reveal_strlit("PlayerField::QUEST_LOG_25_3");
        assert(player_field_name(field_index).len() > 0);
    } else if field_index == PlayerField::QUEST_LOG_25_5 {
        reveal_strlit("PlayerField::QUEST_LOG_25_5");
        assert(player_field_name(field_index).len() > 0);
    } else if field_index == PlayerField::VISIBLE_ITEM_1_ENTRYID {
        reveal_strlit("PlayerField::VISIBLE_ITEM_1_ENTRYID");
        assert(player_field_name(field_index).len() > 0);
    } else if field_index == PlayerField::VISIBLE_ITEM_1_ENCHANTMENT {
        reveal_strlit("PlayerField::VISIBLE_ITEM_1_ENCHANTMENT");
        assert(player_field_name(field_index).len() > 0);
    } else if field_index == PlayerField::VISIBLE_ITEM_2_ENTRYID {
        reveal_strlit("PlayerField::VISIBLE_ITEM_2_ENTRYID");
        assert(player_field_name(field_index).len() > 0);
    } else if field_index == PlayerField::VISIBLE_ITEM_2_ENCHANTMENT {
        reveal_strlit("PlayerField::VISIBLE_ITEM_2_ENCHANTMENT");
        assert(player_field_name(field_index).len() > 0);
    } else if field_index == PlayerField::VISIBLE_ITEM_3_ENTRYID {
        reveal_strlit("PlayerField::VISIBLE_ITEM_3_ENTRYID");
        assert(player_field_name(field_index).len() > 0);
    } else if field_index == PlayerField::VISIBLE_ITEM_3_ENCHANTMENT {
        reveal_strlit("PlayerField::VISIBLE_ITEM_3_ENCHANTMENT");
        assert(player_field_name(field_index).len() > 0);
    } else if field_index == PlayerField::VISIBLE_ITEM_4_ENTRYID {
        reveal_strlit("PlayerField::VISIBLE_ITEM_4_ENTRYID");
        assert(player_field_name(field_index).len() > 0);
    } else if field_index == PlayerField::VISIBLE_ITEM_4_ENCHANTMENT {
        reveal_strlit("PlayerField::VISIBLE_ITEM_4_ENCHANTMENT");
        assert(player_field_name(field_index).len() > 0);
    } else if field_index == PlayerField::VISIBLE_ITEM_5_ENTRYID {
        reveal_strlit("PlayerField::VISIBLE_ITEM_5_ENTRYID");
        assert(player_field_name(field_index).len() > 0);
    } else if field_index == PlayerField::VISIBLE_ITEM_5_ENCHANTMENT {
        reveal_strlit("PlayerField::VISIBLE_ITEM_5_ENCHANTMENT");
        assert(player_field_name(field_index).len() > 0);
    } else if field_index == PlayerField::VISIBLE_ITEM_6_ENTRYID {
        reveal_strlit("PlayerField::VISIBLE_ITEM_6_ENTRYID");
        assert(player_field_name(field_index).len() > 0);
    } else if field_index == PlayerField::VISIBLE_ITEM_6_ENCHANTMENT {
        reveal_strlit("PlayerField::VISIBLE_ITEM_6_ENCHANTMENT");
        assert(player_field_name(field_index).len() > 0);
    } else if field_index == PlayerField::VISIBLE_ITEM_7_ENTRYID {
        reveal_strlit("PlayerField::VISIBLE_ITEM_7_ENTRYID");
        assert(player_field_name(field_index).len() > 0);
    } else if field_index == PlayerField::VISIBLE_ITEM_7_ENCHANTMENT {
        reveal_strlit("PlayerField::VISIBLE_ITEM_7_ENCHANTMENT");
        assert(player_field_name(field_index).len() > 0);
    } else if field_index == PlayerField::VISIBLE_ITEM_8_ENTRYID {
        reveal_strlit("PlayerField::VISIBLE_ITEM_8_ENTRYID");
        assert(player_field_name(field_index).len() > 0);
    } else if field_index == PlayerField::VISIBLE_ITEM_8_ENCHANTMENT {
        reveal_strlit("PlayerField::VISIBLE_ITEM_8_ENCHANTMENT");
        assert(player_field_name(field_index).len() > 0);
    } else if field_index == PlayerField::VISIBLE_ITEM_9_ENTRYID {
        reveal_strlit("PlayerField::VISIBLE_ITEM_9_ENTRYID");
        assert(player_field_name(field_index).len() > 0);
    } else if field_index == PlayerField::VISIBLE_ITEM_9_ENCHANTMENT {
        reveal_strlit("PlayerField::VISIBLE_ITEM_9_ENCHANTMENT");
        assert(player_field_name(field_index).len() > 0);
    } else if field_index == PlayerField::VISIBLE_ITEM_10_ENTRYID {
        reveal_strlit("PlayerField::VISIBLE_ITEM_10_ENTRYID");
        assert(player_field_name(field_index).len() > 0);
    } else if field_index == PlayerField::VISIBLE_ITEM_10_ENCHANTMENT {
        reveal_strlit("PlayerField::VISIBLE_ITEM_10_ENCHANTMENT");
        assert(player_field_name(field_index).len() > 0);
    } else if field_index == PlayerField::VISIBLE_ITEM_11_ENTRYID {
        reveal_strlit("PlayerField::VISIBLE_ITEM_11_ENTRYID");
        assert(player_field_name(field_index).len() > 0);
    } else if field_index == PlayerField::VISIBLE_ITEM_11_ENCHANTMENT {
        reveal_strlit("PlayerField::VISIBLE_ITEM_11_ENCHANTMENT");
        assert(player_field_name(field_index).len() > 0);
    } else if field_index == PlayerField::VISIBLE_ITEM_12_ENTRYID {
        reveal_strlit("PlayerField::VISIBLE_ITEM_12_ENTRYID");
        assert(player_field_name(field_index).len() > 0);
    } else if field_index == PlayerField::VISIBLE_ITEM_12_ENCHANTMENT {
        reveal_strlit("PlayerField::VISIBLE_ITEM_12_ENCHANTMENT");
        assert(player_field_name(field_index).len() > 0);
    } else if field_index == PlayerField::VISIBLE_ITEM_13_ENTRYID {
        reveal_strlit("PlayerField::VISIBLE_ITEM_13_ENTRYID");
        assert(player_field_name(field_index).len() > 0);
    } else if field_index == PlayerField::VISIBLE_ITEM_13_ENCHANTMENT {
        reveal_strlit("PlayerField::VISIBLE_ITEM_13_ENCHANTMENT");
        assert(player_field_name(field_index).len() > 0);
    } else if field_index == PlayerField::VISIBLE_ITEM_14_ENTRYID {
        reveal_strlit("PlayerField::VISIBLE_ITEM_14_ENTRYID");
        assert(player_field_name(field_index).len() > 0);
    } else if field_index == PlayerField::VISIBLE_ITEM_14_ENCHANTMENT {
        reveal_strlit("PlayerField::VISIBLE_ITEM_14_ENCHANTMENT");
        assert(player_field_name(field_index).len() > 0);
    } else if field_index == PlayerField::VISIBLE_ITEM_15_ENTRYID {
        reveal_strlit("PlayerField::VISIBLE_ITEM_15_ENTRYID");
        assert(player_field_name(field_index).len() > 0);
    } else if field_index == PlayerField::VISIBLE_ITEM_15_ENCHANTMENT {
        reveal_strlit("PlayerField::VISIBLE_ITEM_15_ENCHANTMENT");
        assert(player_field_name(field_index).len() > 0);
    } else if field_index == PlayerField::VISIBLE_ITEM_16_ENTRYID {
        reveal_strlit("PlayerField::VISIBLE_ITEM_16_ENTRYID");
        assert(player_field_name(field_index).len() > 0);
    } else if field_index == PlayerField::VISIBLE_ITEM_16_ENCHANTMENT {
        reveal_strlit("PlayerField::VISIBLE_ITEM_16_ENCHANTMENT");
        assert(player_field_name(field_index).len() > 0);
    } else if field_index == PlayerField::VISIBLE_ITEM_17_ENTRYID {
        reveal_strlit("PlayerField::VISIBLE_ITEM_17_ENTRYID");
        assert(player_field_name(field_index).len() > 0);
    } else if field_index == PlayerField::VISIBLE_ITEM_17_ENCHANTMENT {
        reveal_strlit("PlayerField::VISIBLE_ITEM_17_ENCHANTMENT");
        assert(player_field_name(field_index).len() > 0);
    } else if field_index == PlayerField::VISIBLE_ITEM_18_ENTRYID {
        reveal_strlit("PlayerField::VISIBLE_ITEM_18_ENTRYID");
        assert(player_field_name(field_index).len() > 0);
    } else if field_index == PlayerField::VISIBLE_ITEM_18_ENCHANTMENT {
        reveal_strlit("PlayerField::VISIBLE_ITEM_18_ENCHANTMENT");
        assert(player_field_name(field_index).len() > 0);
    } else if field_index == PlayerField::VISIBLE_ITEM_19_ENTRYID {
        reveal_strlit("PlayerField::VISIBLE_ITEM_19_ENTRYID");
        assert(player_field_name(field_index).len() > 0);
    } else if field_index == PlayerField::VISIBLE_ITEM_19_ENCHANTMENT {
        reveal_strlit("PlayerField::VISIBLE_ITEM_19_ENCHANTMENT");
        assert(player_field_name(field_index).len() > 0);
    } else if field_index == PlayerField::CHOSEN_TITLE {
        reveal_strlit("PlayerField::CHOSEN_TITLE");
        assert(player_field_name(field_index).len() > 0);
    } else if field_index == PlayerField::FAKE_INEBRIATION {
        reveal_strlit("PlayerField::FAKE_INEBRIATION");
        assert(player_field_name(field_index).len() > 0);
    } else if field_index == PlayerField::FIELD_PAD_0 {
        reveal_strlit("PlayerField::FIELD_PAD_0");
        assert(player_field_name(field_index).len() > 0);
    } else if field_index == PlayerField::FIELD_INV_SLOT_HEAD {
        reveal_strlit("PlayerField::FIELD_INV_SLOT_HEAD");
        assert(player_field_name(field_index).len() > 0);
    } else if field_index == PlayerField::FIELD_INV_SLOT_FIXME1 {
        reveal_strlit("PlayerField::FIELD_INV_SLOT_FIXME1");
        assert(player_field_name(field_index).len() > 0);
    } else if field_index == PlayerField::FIELD_INV_SLOT_FIXME2 {
        reveal_strlit("PlayerField::FIELD_INV_SLOT_FIXME2");
        assert(player_field_name(field_index).len() > 0);
    } else if field_index == PlayerField::FIELD_INV_SLOT_FIXME3 {
        reveal_strlit("PlayerField::FIELD_INV_SLOT_FIXME3");
        assert(player_field_name(field_index).len() > 0);
    } else if field_index == PlayerField::FIELD_INV_SLOT_FIXME4 {
        reveal_strlit("PlayerField::FIELD_INV_SLOT_FIXME4");
        assert(player_field_name(field_index).len() > 0);
    } else if field_index == PlayerField::FIELD_INV_SLOT_FIXME5 {
        reveal_strlit("PlayerField::FIELD_INV_SLOT_FIXME5");
        assert(player_field_name(field_index).len() > 0);
    } else if field_index == PlayerField::FIELD_INV_SLOT_FIXME6 {
        reveal_strlit("PlayerField::FIELD_INV_SLOT_FIXME6");
        assert(player_field_name(field_index).len() > 0);
    } else if field_index == PlayerField::FIELD_INV_SLOT_FIXME7 {
        reveal_strlit("PlayerField::FIELD_INV_SLOT_FIXME7");
        assert(player_field_name(field_index).len() > 0);
    } else if field_index == PlayerField::FIELD_INV_SLOT_FIXME8 {
        reveal_strlit("PlayerField::FIELD_INV_SLOT_FIXME8");
        assert(player_field_name(field_index).len() > 0);
    } else if field_index == PlayerField::FIELD_INV_SLOT_FIXME9 {
        reveal_strlit("PlayerField::FIELD_INV_SLOT_FIXME9");
        assert(player_field_name(field_index).len() > 0);
    } else if field_index == PlayerField::FIELD_INV_SLOT_FIXME10 {
        reveal_strlit("PlayerField::FIELD_INV_SLOT_FIXME10");
        assert(player_field_name(field_index).len() > 0);
    } else if field_index == PlayerField::FIELD_INV_SLOT_FIXME11 {
        reveal_strlit("PlayerField::FIELD_INV_SLOT_FIXME11");
        assert(player_field_name(field_index).len() > 0);
    } else if field_index == PlayerField::FIELD_INV_SLOT_FIXME12 {
        reveal_strlit("PlayerField::FIELD_INV_SLOT_FIXME12");
        assert(player_field_name(field_index).len() > 0);
    } else if field_index == PlayerField::FIELD_INV_SLOT_FIXME13 {
        reveal_strlit("PlayerField::FIELD_INV_SLOT_FIXME13");
        assert(player_field_name(field_index).len() > 0);
    } else if field_index == PlayerField::FIELD_INV_SLOT_FIXME14 {
        reveal_strlit("PlayerField::FIELD_INV_SLOT_FIXME14");
        assert(player_field_name(field_index).len() > 0);
    } else if field_index == PlayerField::FIELD_INV_SLOT_FIXME15 {
        reveal_strlit("PlayerField::FIELD_INV_SLOT_FIXME15");
        assert(player_field_name(field_index).len() > 0);
    } else if field_index == PlayerField::FIELD_INV_SLOT_FIXME16 {
        reveal_strlit("PlayerField::FIELD_INV_SLOT_FIXME16");
        assert(player_field_name(field_index).len() > 0);
    } else if field_index == PlayerField::FIELD_INV_SLOT_FIXME17 {
        reveal_strlit("PlayerField::FIELD_INV_SLOT_FIXME17");
        assert(player_field_name(field_index).len() > 0);
    } else if field_index == PlayerField::FIELD_INV_SLOT_FIXME18 {
        reveal_strlit("PlayerField::FIELD_INV_SLOT_FIXME18");
        assert(player_field_name(field_index).len() > 0);
    } else if field_index == PlayerField::FIELD_INV_SLOT_FIXME19 {
        reveal_strlit("PlayerField::FIELD_INV_SLOT_FIXME19");
        assert(player_field_name(field_index).len() > 0);
    } else if field_index == PlayerField::FIELD_INV_SLOT_FIXME20 {
        reveal_strlit("PlayerField::FIELD_INV_SLOT_FIXME20");
        assert(player_field_name(field_index).len() > 0);
    } else if field_index == PlayerField::FIELD_INV_SLOT_FIXME21 {
        reveal_strlit("PlayerField::FIELD_INV_SLOT_FIXME21");
        assert(player_field_name(field_index).len() > 0);
    } else if field_index == PlayerField::FIELD_INV_SLOT_FIXME22 {
        reveal_strlit("PlayerField::FIELD_INV_SLOT_FIXME22");
        assert(player_field_name(field_index).len() > 0);
    } else if field_index == PlayerField::FIELD_PACK_SLOT_1 {
        reveal_strlit("PlayerField::FIELD_PACK_SLOT_1");
        assert(player_field_name(field_index).len() > 0);
    } else if field_index == PlayerField::FIELD_BANK_SLOT_1 {
        reveal_strlit("PlayerField::FIELD_BANK_SLOT_1");
        assert(player_field_name(field_index).len() > 0);
    } else if field_index == PlayerField::FIELD_BANKBAG_SLOT_1 {
        reveal_strlit("PlayerField::FIELD_BANKBAG_SLOT_1");
        assert(player_field_name(field_index).len() > 0);
    } else if field_index == PlayerField::FIELD_VENDORBUYBACK_SLOT_1 {
        reveal_strlit("PlayerField::FIELD_VENDORBUYBACK_SLOT_1");
        assert(player_field_name(field_index).len() > 0);
    } else if field_index == PlayerField::FIELD_KEYRING_SLOT_1 {
        reveal_strlit("PlayerField::FIELD_KEYRING_SLOT_1");
        assert(player_field_name(field_index).len() > 0);
    } else if field_index == PlayerField::FIELD_CURRENCYTOKEN_SLOT_1 {
        reveal_strlit("PlayerField::FIELD_CURRENCYTOKEN_SLOT_1");
        assert(player_field_name(field_index).len() > 0);
    } else if field_index == PlayerField::FARSIGHT {
        reveal_strlit("PlayerField::FARSIGHT");
        assert(player_field_name(field_index).len() > 0);
    } else if field_index == PlayerField::FIELD_KNOWN_TITLES {
        reveal_strlit("PlayerField::FIELD_KNOWN_TITLES");
        assert(player_field_name(field_index).len() > 0);
    } else if field_index == PlayerField::FIELD_KNOWN_TITLES1 {
        reveal_strlit("PlayerField::FIELD_KNOWN_TITLES1");
        assert(player_field_name(field_index).len() > 0);
    } else if field_index == PlayerField::FIELD_KNOWN_TITLES2 {
        reveal_strlit("PlayerField::FIELD_KNOWN_TITLES2");
        assert(player_field_name(field_index).len() > 0);
    } else if field_index == PlayerField::FIELD_KNOWN_CURRENCIES {
        reveal_strlit("PlayerField::FIELD_KNOWN_CURRENCIES");
        assert(player_field_name(field_index).len() > 0);
    } else if field_index == PlayerField::XP {
        reveal_strlit("PlayerField::XP");
        assert(player_field_name(field_index).len() > 0);
    } else if field_index == PlayerField::NEXT_LEVEL_XP {
        reveal_strlit("PlayerField::NEXT_LEVEL_XP");
        assert(player_field_name(field_index).len() > 0);
    } else if field_index == PlayerField::SKILL_INFO_1_1 {
        reveal_strlit("PlayerField::SKILL_INFO_1_1");
        assert(player_field_name(field_index).len() > 0);
    } else if field_index == PlayerField::CHARACTER_POINTS1 {
        reveal_strlit("PlayerField::CHARACTER_POINTS1");
        assert(player_field_name(field_index).len() > 0);
    } else if field_index == PlayerField::CHARACTER_POINTS2 {
        reveal_strlit("PlayerField::CHARACTER_POINTS2");
        assert(player_field_name(field_index).len() > 0);
    } else if field_index == PlayerField::TRACK_CREATURES {
        reveal_strlit("PlayerField::TRACK_CREATURES");
        assert(player_field_name(field_index).len() > 0);
    } else if field_index == PlayerField::TRACK_RESOURCES {
        reveal_strlit("PlayerField::TRACK_RESOURCES");
        assert(player_field_name(field_index).len() > 0);
    } else if field_index == PlayerField::BLOCK_PERCENTAGE {
        reveal_strlit("PlayerField::BLOCK_PERCENTAGE");
        assert(player_field_name(field_index).len() > 0);
    } else if field_index == PlayerField::DODGE_PERCENTAGE {
        reveal_strlit("PlayerField::DODGE_PERCENTAGE");
        assert(player_field_name(field_index).len() > 0);
    } else if field_index == PlayerField::PARRY_PERCENTAGE {
        reveal_strlit("PlayerField::PARRY_PERCENTAGE");
        assert(player_field_name(field_index).len() > 0);
    } else if field_index == PlayerField::EXPERTISE {
        reveal_strlit("PlayerField::EXPERTISE");
        assert(player_field_name(field_index).len() > 0);
    } else if field_index == PlayerField::OFFHAND_EXPERTISE {
        reveal_strlit("PlayerField::OFFHAND_EXPERTISE");
        assert(player_field_name(field_index).len() > 0);
    } else if field_index == PlayerField::CRIT_PERCENTAGE {
        reveal_strlit("PlayerField::CRIT_PERCENTAGE");
        assert(player_field_name(field_index).len() > 0);
    } else if field_index == PlayerField::RANGED_CRIT_PERCENTAGE {
        reveal_strlit("PlayerField::RANGED_CRIT_PERCENTAGE");
        assert(player_field_name(field_index).len() > 0);
    } else if field_index == PlayerField::OFFHAND_CRIT_PERCENTAGE {
        reveal_strlit("PlayerField::OFFHAND_CRIT_PERCENTAGE");
        assert(player_field_name(field_index).len() > 0);
    } else if field_index == PlayerField::SPELL_CRIT_PERCENTAGE1 {
        reveal_strlit("PlayerField::SPELL_CRIT_PERCENTAGE1");
        assert(player_field_name(field_index).len() > 0);
    } else if field_index == PlayerField::SPELL_CRIT_PERCENTAGE2 {
        reveal_strlit("PlayerField::SPELL_CRIT_PERCENTAGE2");
        assert(player_field_name(field_index).len() > 0);
    } else if field_index == PlayerField::SPELL_CRIT_PERCENTAGE3 {
        reveal_strlit("PlayerField::SPELL_CRIT_PERCENTAGE3");
        assert(player_field_name(field_index).len() > 0);
    } else if field_index == PlayerField::SPELL_CRIT_PERCENTAGE4 {
        reveal_strlit("PlayerField::SPELL_CRIT_PERCENTAGE4");
        assert(player_field_name(field_index).len() > 0);
    } else if field_index == PlayerField::SPELL_CRIT_PERCENTAGE5 {
        reveal_strlit("PlayerField::SPELL_CRIT_PERCENTAGE5");
        assert(player_field_name(field_index).len() > 0);
    } else if field_index == PlayerField::SPELL_CRIT_PERCENTAGE6 {
        reveal_strlit("PlayerField::SPELL_CRIT_PERCENTAGE6");
        assert(player_field_name(field_index).len() > 0);
    } else if field_index == PlayerField::SPELL_CRIT_PERCENTAGE7 {
        reveal_strlit("PlayerField::SPELL_CRIT_PERCENTAGE7");
        assert(player_field_name(field_index).len() > 0);
    } else if field_index == PlayerField::SHIELD_BLOCK {
        reveal_strlit("PlayerField::SHIELD_BLOCK");
        assert(player_field_name(field_index).len() > 0);
    } else if field_index == PlayerField::SHIELD_BLOCK_CRIT_PERCENTAGE {
        reveal_strlit("PlayerField::SHIELD_BLOCK_CRIT_PERCENTAGE");
        assert(player_field_name(field_index).len() > 0);
    } else if field_index == PlayerField::EXPLORED_ZONES_1 {
        reveal_strlit("PlayerField::EXPLORED_ZONES_1");
        assert(player_field_name(field_index).len() > 0);
    } else if field_index == PlayerField::REST_STATE_EXPERIENCE {
        reveal_strlit("PlayerField::REST_STATE_EXPERIENCE");
        assert(player_field_name(field_index).len() > 0);
    } else if field_index == PlayerField::FIELD_COINAGE {
        reveal_strlit("PlayerField::FIELD_COINAGE");
        assert(player_field_name(field_index).len() > 0);
    } else if field_index == PlayerField::FIELD_MOD_DAMAGE_DONE_POS {
        reveal_strlit("PlayerField::FIELD_MOD_DAMAGE_DONE_POS");
        assert(player_field_name(field_index).len() > 0);
    } else if field_index == PlayerField::FIELD_MOD_DAMAGE_DONE_NEG {
        reveal_strlit("PlayerField::FIELD_MOD_DAMAGE_DONE_NEG");
        assert(player_field_name(field_index).len() > 0);
    } else if field_index == PlayerField::FIELD_MOD_DAMAGE_DONE_PCT1 {
        reveal_strlit("PlayerField::FIELD_MOD_DAMAGE_DONE_PCT1");
        assert(player_field_name(field_index).len() > 0);
    } else if field_index == PlayerField::FIELD_MOD_DAMAGE_DONE_PCT2 {
        reveal_strlit("PlayerField::FIELD_MOD_DAMAGE_DONE_PCT2");
        assert(player_field_name(field_index).len() > 0);
    } else if field_index == PlayerField::FIELD_MOD_DAMAGE_DONE_PCT3 {
        reveal_strlit("PlayerField::FIELD_MOD_DAMAGE_DONE_PCT3");
        assert(player_field_name(field_index).len() > 0);
    } else if field_index == PlayerField::FIELD_MOD_DAMAGE_DONE_PCT4 {
        reveal_strlit("PlayerField::FIELD_MOD_DAMAGE_DONE_PCT4");
        assert(player_field_name(field_index).len() > 0);
    } else if field_index == PlayerField::FIELD_MOD_DAMAGE_DONE_PCT5 {
        reveal_strlit("PlayerField::FIELD_MOD_DAMAGE_DONE_PCT5");
        assert(player_field_name(field_index).len() > 0);
    } else if field_index == PlayerField::FIELD_MOD_DAMAGE_DONE_PCT6 {
        reveal_strlit("PlayerField::FIELD_MOD_DAMAGE_DONE_PCT6");
        assert(player_field_name(field_index).len() > 0);
    } else if field_index == PlayerField::FIELD_MOD_DAMAGE_DONE_PCT7 {
        reveal_strlit("PlayerField::FIELD_MOD_DAMAGE_DONE_PCT7");
        assert(player_field_name(field_index).len() > 0);
    } else if field_index == PlayerField::FIELD_MOD_HEALING_DONE_POS {
        reveal_strlit("PlayerField::FIELD_MOD_HEALING_DONE_POS");
        assert(player_field_name(field_index).len() > 0);
    } else if field_index == PlayerField::FIELD_MOD_HEALING_PCT {
        reveal_strlit("PlayerField::FIELD_MOD_HEALING_PCT");
        assert(player_field_name(field_index).len() > 0);
    } else if field_index == PlayerField::FIELD_MOD_HEALING_DONE_PCT {
        reveal_strlit("PlayerField::FIELD_MOD_HEALING_DONE_PCT");
        assert(player_field_name(field_index).len() > 0);
    } else if field_index == PlayerField::FIELD_MOD_TARGET_RESISTANCE {
        reveal_strlit("PlayerField::FIELD_MOD_TARGET_RESISTANCE");
        assert(player_field_name(field_index).len() > 0);
    } else if field_index == PlayerField::FIELD_MOD_TARGET_PHYSICAL_RESISTANCE {
        reveal_strlit("PlayerField::FIELD_MOD_TARGET_PHYSICAL_RESISTANCE");
        assert(player_field_name(field_index).len() > 0);
    } else if field_index == PlayerField::FIELD_BYTES {
        reveal_strlit("PlayerField::FIELD_BYTES");
        assert(player_field_name(field_index).len() > 0);
    } else if field_index == PlayerField::AMMO_ID {
        reveal_strlit("PlayerField::AMMO_ID");
        assert(player_field_name(field_index).len() > 0);
    } else if field_index == PlayerField::SELF_RES_SPELL {
        reveal_strlit("PlayerField::SELF_RES_SPELL");
        assert(player_field_name(field_index).len() > 0);
    } else if field_index == PlayerField::FIELD_PVP_MEDALS {
        reveal_strlit("PlayerField::FIELD_PVP_MEDALS");
        assert(player_field_name(field_index).len() > 0);
    } else if field_index == PlayerField::FIELD_BUYBACK_PRICE_1 {
        reveal_strlit("PlayerField::FIELD_BUYBACK_PRICE_1");
        assert(player_field_name(field_index).len() > 0);
    } else if field_index == PlayerField::FIELD_BUYBACK_PRICE_2 {
        reveal_strlit("PlayerField::FIELD_BUYBACK_PRICE_2");
        assert(player_field_name(field_index).len() > 0);
    } else if field_index == PlayerField::FIELD_BUYBACK_PRICE_3 {
        reveal_strlit("PlayerField::FIELD_BUYBACK_PRICE_3");
        assert(player_field_name(field_index).len() > 0);
    } else if field_index == PlayerField::FIELD_BUYBACK_PRICE_4 {
        reveal_strlit("PlayerField::FIELD_BUYBACK_PRICE_4");
        assert(player_field_name(field_index).len() > 0);
    } else if field_index == PlayerField::FIELD_BUYBACK_PRICE_5 {
        reveal_strlit("PlayerField::FIELD_BUYBACK_PRICE_5");
        assert(player_field_name(field_index).len() > 0);
    } else if field_index == PlayerField::FIELD_BUYBACK_PRICE_6 {
        reveal_strlit("PlayerField::FIELD_BUYBACK_PRICE_6");
        assert(player_field_name(field_index).len() > 0);
    } else if field_index == PlayerField::FIELD_BUYBACK_PRICE_7 {
        reveal_strlit("PlayerField::FIELD_BUYBACK_PRICE_7");
        assert(player_field_name(field_index).len() > 0);
    } else if field_index == PlayerField::FIELD_BUYBACK_PRICE_8 {
        reveal_strlit("PlayerField::FIELD_BUYBACK_PRICE_8");
        assert(player_field_name(field_index).len() > 0);
    } else if field_index == PlayerField::FIELD_BUYBACK_PRICE_9 {
        reveal_strlit("PlayerField::FIELD_BUYBACK_PRICE_9");
        assert(player_field_name(field_index).len() > 0);
    } else if field_index == PlayerField::FIELD_BUYBACK_PRICE_10 {
        reveal_strlit("PlayerField::FIELD_BUYBACK_PRICE_10");
        assert(player_field_name(field_index).len() > 0);
    } else if field_index == PlayerField::FIELD_BUYBACK_PRICE_11 {
        reveal_strlit("PlayerField::FIELD_BUYBACK_PRICE_11");
        assert(player_field_name(field_index).len() > 0);
    } else if field_index == PlayerField::FIELD_BUYBACK_PRICE_12 {
        reveal_strlit("PlayerField::FIELD_BUYBACK_PRICE_12");
        assert(player_field_name(field_index).len() > 0);
    } else if field_index == PlayerField::FIELD_BUYBACK_TIMESTAMP_1 {
        reveal_strlit("PlayerField::FIELD_BUYBACK_TIMESTAMP_1");
        assert(player_field_name(field_index).len() > 0);
    } else if field_index == PlayerField::FIELD_BUYBACK_TIMESTAMP_2 {
        reveal_strlit("PlayerField::FIELD_BUYBACK_TIMESTAMP_2");
        assert(player_field_name(field_index).len() > 0);
    } else if field_index == PlayerField::FIELD_BUYBACK_TIMESTAMP_3 {
        reveal_strlit("PlayerField::FIELD_BUYBACK_TIMESTAMP_3");
        assert(player_field_name(field_index).len() > 0);
    } else if field_index == PlayerField::FIELD_BUYBACK_TIMESTAMP_4 {
        reveal_strlit("PlayerField::FIELD_BUYBACK_TIMESTAMP_4");
        assert(player_field_name(field_index).len() > 0);
    } else if field_index == PlayerField::FIELD_BUYBACK_TIMESTAMP_5 {
        reveal_strlit("PlayerField::FIELD_BUYBACK_TIMESTAMP_5");
        assert(player_field_name(field_index).len() > 0);
    } else if field_index == PlayerField::FIELD_BUYBACK_TIMESTAMP_6 {
        reveal_strlit("PlayerField::FIELD_BUYBACK_TIMESTAMP_6");
        assert(player_field_name(field_index).len() > 0);
    } else if field_index == PlayerField::FIELD_BUYBACK_TIMESTAMP_7 {
        reveal_strlit("PlayerField::FIELD_BUYBACK_TIMESTAMP_7");
        assert(player_field_name(field_index).len() > 0);
    } else if field_index == PlayerField::FIELD_BUYBACK_TIMESTAMP_8 {
        reveal_strlit("PlayerField::FIELD_BUYBACK_TIMESTAMP_8");
        assert(player_field_name(field_index).len() > 0);
    } else if field_index == PlayerField::FIELD_BUYBACK_TIMESTAMP_9 {
        reveal_strlit("PlayerField::FIELD_BUYBACK_TIMESTAMP_9");
        assert(player_field_name(field_index).len() > 0);
    } else if field_index == PlayerField::FIELD_BUYBACK_TIMESTAMP_10 {
        reveal_strlit("PlayerField::FIELD_BUYBACK_TIMESTAMP_10");
        assert(player_field_name(field_index).len() > 0);
    } else if field_index == PlayerField::FIELD_BUYBACK_TIMESTAMP_11 {
        reveal_strlit("PlayerField::FIELD_BUYBACK_TIMESTAMP_11");
        assert(player_field_name(field_index).len() > 0);
    } else if field_index == PlayerField::FIELD_BUYBACK_TIMESTAMP_12 {
        reveal_strlit("PlayerField::FIELD_BUYBACK_TIMESTAMP_12");
        assert(player_field_name(field_index).len() > 0);
    } else if field_index == PlayerField::FIELD_KILLS {
        reveal_strlit("PlayerField::FIELD_KILLS");
        assert(player_field_name(field_index).len() > 0);
    } else if field_index == PlayerField::FIELD_TODAY_CONTRIBUTION {
        reveal_strlit("PlayerField::FIELD_TODAY_CONTRIBUTION");
        assert(player_field_name(field_index).len() > 0);
    } else if field_index == PlayerField::FIELD_YESTERDAY_CONTRIBUTION {
        reveal_strlit("PlayerField::FIELD_YESTERDAY_CONTRIBUTION");
        assert(player_field_name(field_index).len() > 0);
    } else if field_index == PlayerField::FIELD_LIFETIME_HONORABLE_KILLS {
        reveal_strlit("PlayerField::FIELD_LIFETIME_HONORABLE_KILLS");
        assert(player_field_name(field_index).len() > 0);
    } else if field_index == PlayerField::FIELD_BYTES2 {
        reveal_strlit("PlayerField::FIELD_BYTES2");
        assert(player_field_name(field_index).len() > 0);
    } else if field_index == PlayerField::FIELD_WATCHED_FACTION_INDEX {
        reveal_strlit("PlayerField::FIELD_WATCHED_FACTION_INDEX");
        assert(player_field_name(field_index).len() > 0);
    } else if field_index == PlayerField::FIELD_COMBAT_RATING_1 {
        reveal_strlit("PlayerField::FIELD_COMBAT_RATING_1");
        assert(player_field_name(field_index).len() > 0);
    } else if field_index == PlayerField::FIELD_ARENA_TEAM_INFO_1_1 {
        reveal_strlit("PlayerField::FIELD_ARENA_TEAM_INFO_1_1");
        assert(player_field_name(field_index).len() > 0);
    } else if field_index == PlayerField::FIELD_HONOR_CURRENCY {
        reveal_strlit("PlayerField::FIELD_HONOR_CURRENCY");
        assert(player_field_name(field_index).len() > 0);
    } else if field_index == PlayerField::FIELD_ARENA_CURRENCY {
        reveal_strlit("PlayerField::FIELD_ARENA_CURRENCY");
        assert(player_field_name(field_index).len() > 0);
    } else if field_index == PlayerField::FIELD_MAX_LEVEL {
        reveal_strlit("PlayerField::FIELD_MAX_LEVEL");
        assert(player_field_name(field_index).len() > 0);
    } else if field_index == PlayerField::FIELD_DAILY_QUESTS_1 {
        reveal_strlit("PlayerField::FIELD_DAILY_QUESTS_1");
        assert(player_field_name(field_index).len() > 0);
    } else if field_index == PlayerField::RUNE_REGEN_1 {
        reveal_strlit("PlayerField::RUNE_REGEN_1");
        assert(player_field_name(field_index).len() > 0);
    } else if field_index == PlayerField::RUNE_REGEN_2 {
        reveal_strlit("PlayerField::RUNE_REGEN_2");
        assert(player_field_name(field_index).len() > 0);
    } else if field_index == PlayerField::RUNE_REGEN_3 {
        reveal_strlit("PlayerField::RUNE_REGEN_3");
        assert(player_field_name(field_index).len() > 0);
    } else if field_index == PlayerField::RUNE_REGEN_4 {
        reveal_strlit("PlayerField::RUNE_REGEN_4");
        assert(player_field_name(field_index).len() > 0);
    } else if field_index == PlayerField::NO_REAGENT_COST_1 {
        reveal_strlit("PlayerField::NO_REAGENT_COST_1");
        assert(player_field_name(field_index).len() > 0);
    } else if field_index == PlayerField::FIELD_GLYPH_SLOTS_1 {
        reveal_strlit("PlayerField::FIELD_GLYPH_SLOTS_1");
        assert(player_field_name(field_index).len() > 0);
    } else if field_index == PlayerField::FIELD_GLYPH_SLOTS_2 {
        reveal_strlit("PlayerField::FIELD_GLYPH_SLOTS_2");
        assert(player_field_name(field_index).len() > 0);
    } else if field_index == PlayerField::FIELD_GLYPH_SLOTS_3 {
        reveal_strlit("PlayerField::FIELD_GLYPH_SLOTS_3");
        assert(player_field_name(field_index).len() > 0);
    } else if field_index == PlayerField::FIELD_GLYPH_SLOTS_4 {
        reveal_strlit("PlayerField::FIELD_GLYPH_SLOTS_4");
        assert(player_field_name(field_index).len() > 0);
    } else if field_index == PlayerField::FIELD_GLYPH_SLOTS_5 {
        reveal_strlit("PlayerField::FIELD_GLYPH_SLOTS_5");
        assert(player_field_name(field_index).len() > 0);
    } else if field_index == PlayerField::FIELD_GLYPH_SLOTS_6 {
        reveal_strlit("PlayerField::FIELD_GLYPH_SLOTS_6");
        assert(player_field_name(field_index).len() > 0);
    } else if field_index == PlayerField::FIELD_GLYPHS_1 {
        reveal_strlit("PlayerField::FIELD_GLYPHS_1");
        assert(player_field_name(field_index).len() > 0);
    } else if field_index == PlayerField::FIELD_GLYPHS_2 {
        reveal_strlit("PlayerField::FIELD_GLYPHS_2");
        assert(player_field_name(field_index).len() > 0);
    } else if field_index == PlayerField::FIELD_GLYPHS_3 {
        reveal_strlit("PlayerField::FIELD_GLYPHS_3");
        assert(player_field_name(field_index).len() > 0);
    } else if field_index == PlayerField::FIELD_GLYPHS_4 {
        reveal_strlit("PlayerField::FIELD_GLYPHS_4");
        assert(player_field_name(field_index).len() > 0);
    } else if field_index == PlayerField::FIELD_GLYPHS_5 {
        reveal_strlit("PlayerField::FIELD_GLYPHS_5");
        assert(player_field_name(field_index).len() > 0);
    } else if field_index == PlayerField::FIELD_GLYPHS_6 {
        reveal_strlit("PlayerField::FIELD_GLYPHS_6");
        assert(player_field_name(field_index).len() > 0);
    } else if field_index == PlayerField::GLYPHS_ENABLED {
        reveal_strlit("PlayerField::GLYPHS_ENABLED");
        assert(player_field_name(field_index).len() > 0);
    } else if field_index == PlayerField::PET_SPELL_POWER {
        reveal_strlit("PlayerField::PET_SPELL_POWER");
        assert(player_field_name(field_index).len() > 0);
    }
}

} // verus!

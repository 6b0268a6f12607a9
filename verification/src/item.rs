use crate::parser::{
    data, layout_fits, line_outcome, number_of, read_line, Datum, FieldKind, FieldValue,
    LineFault, PositionalField, SpaceSeparatedParseable, SpaceSeparatedParserError,
};
use crate::decimal::decimal_text;
use crate::laws::{
    cast_failure_is_local, decimal_text_is_word, line_round_trip, number_round_trip,
};
use crate::serializer::{
    data_texts, datum_text, spaced, write_line, StringSerializableStructure,
};
use crate::text::{is_word, words};
use vstd::prelude::*;

verus! {

/// The six switches of an item, which one byte holds.
#[derive(Debug, Clone, Copy, PartialEq, Eq, Structural)]
pub struct ItemFlags {
    pub sell_disabled: bool,
    pub no_drop_on_death: bool,
    pub important_sell_hint: bool,
    pub important_drop_hint: bool,
    pub is_unstoreable: bool,
    pub is_untradeable: bool,
}

/// The byte with the bit `mask` where `on` holds, and no bit otherwise.
pub open spec fn bit(on: bool, mask: u8) -> u8 {
    if on {
        mask
    } else {
        0
    }
}

impl ItemFlags {
    /// The switches that `flags` holds: each is on where its bit is set.
    /// Bits 6 and 7 hold nothing.
    pub open spec fn of_byte(flags: u8) -> ItemFlags {
        ItemFlags {
            sell_disabled: flags & 0x20 != 0,
            no_drop_on_death: flags & 0x10 != 0,
            important_sell_hint: flags & 0x08 != 0,
            important_drop_hint: flags & 0x04 != 0,
            is_unstoreable: flags & 0x02 != 0,
            is_untradeable: flags & 0x01 != 0,
        }
    }

    /// The byte that holds the switches: the bit of each that is on, and no
    /// other.
    pub open spec fn as_byte(self) -> u8 {
        bit(self.is_untradeable, 0x01) | bit(self.is_unstoreable, 0x02) | bit(
            self.important_drop_hint,
            0x04,
        ) | bit(self.important_sell_hint, 0x08) | bit(self.no_drop_on_death, 0x10) | bit(
            self.sell_disabled,
            0x20,
        )
    }

    /// Unpacks the switches from a byte.
    pub fn from_byte(flags: &u8) -> (r: ItemFlags)
        ensures
            r == ItemFlags::of_byte(*flags),
    {
        ItemFlags {
            sell_disabled: (*flags & 0x20) > 0,
            no_drop_on_death: (*flags & 0x10) > 0,
            important_sell_hint: (*flags & 0x08) > 0,
            important_drop_hint: (*flags & 0x04) > 0,
            is_unstoreable: (*flags & 0x02) > 0,
            is_untradeable: (*flags & 0x01) > 0,
        }
    }

    /// Packs the switches into a byte.
    pub fn get_as_byte(&self) -> (flag: u8)
        ensures
            flag == self.as_byte(),
            flag & 0xC0 == 0,
            ItemFlags::of_byte(flag) == *self,
    {
        let mut flag: u8 = 0;
        flag |= if self.is_untradeable { 0x01 } else { 0x00 };
        flag |= if self.is_unstoreable { 0x02 } else { 0x00 };
        flag |= if self.important_drop_hint { 0x04 } else { 0x00 };
        flag |= if self.important_sell_hint { 0x08 } else { 0x00 };
        flag |= if self.no_drop_on_death { 0x10 } else { 0x00 };
        flag |= if self.sell_disabled { 0x20 } else { 0x00 };
        proof {
            let a = bit(self.is_untradeable, 0x01);
            assert(0u8 | a == a) by (bit_vector);
            item_flags_round_trip(*self);
        }
        flag
    }
}

/// The bits of six masked bytes, joined, show each byte again, and nothing
/// above bit 5.
proof fn six_bits(a: u8, b: u8, c: u8, d: u8, e: u8, f: u8)
    requires
        a == 0 || a == 0x01,
        b == 0 || b == 0x02,
        c == 0 || c == 0x04,
        d == 0 || d == 0x08,
        e == 0 || e == 0x10,
        f == 0 || f == 0x20,
    ensures
        ((a | b | c | d | e | f) & 0x01 != 0) == (a != 0),
        ((a | b | c | d | e | f) & 0x02 != 0) == (b != 0),
        ((a | b | c | d | e | f) & 0x04 != 0) == (c != 0),
        ((a | b | c | d | e | f) & 0x08 != 0) == (d != 0),
        ((a | b | c | d | e | f) & 0x10 != 0) == (e != 0),
        ((a | b | c | d | e | f) & 0x20 != 0) == (f != 0),
        (a | b | c | d | e | f) & 0xC0 == 0,
        (a | b | c | d | e | f) <= 0x3F,
{
    assert(((a | b | c | d | e | f) & 0x01 != 0) == (a != 0) && ((a | b | c | d | e | f) & 0x02
        != 0) == (b != 0) && ((a | b | c | d | e | f) & 0x04 != 0) == (c != 0) && ((a | b | c | d
        | e | f) & 0x08 != 0) == (d != 0) && ((a | b | c | d | e | f) & 0x10 != 0) == (e != 0) && ((
    a | b | c | d | e | f) & 0x20 != 0) == (f != 0) && (a | b | c | d | e | f) & 0xC0 == 0 && (a
        | b | c | d | e | f) <= 0x3F) by (bit_vector)
        requires
            a == 0 || a == 0x01,
            b == 0 || b == 0x02,
            c == 0 || c == 0x04,
            d == 0 || d == 0x08,
            e == 0 || e == 0x10,
            f == 0 || f == 0x20,
    ;
}

/// Unpacking the byte of any six switches gives the switches back, and the
/// byte has no bit above bit 5.
pub proof fn item_flags_round_trip(flags: ItemFlags)
    ensures
        ItemFlags::of_byte(flags.as_byte()) == flags,
        flags.as_byte() & 0xC0 == 0,
        flags.as_byte() <= 0x3F,
{
    six_bits(
        bit(flags.is_untradeable, 0x01),
        bit(flags.is_unstoreable, 0x02),
        bit(flags.important_drop_hint, 0x04),
        bit(flags.important_sell_hint, 0x08),
        bit(flags.no_drop_on_death, 0x10),
        bit(flags.sell_disabled, 0x20),
    );
}

/// Packing the switches of a byte gives the low six bits of the byte.
pub proof fn item_flags_of_byte(flags: u8)
    ensures
        ItemFlags::of_byte(flags).as_byte() == flags & 0x3F,
{
    let f = ItemFlags::of_byte(flags);
    let a = bit(f.is_untradeable, 0x01);
    let b = bit(f.is_unstoreable, 0x02);
    let c = bit(f.important_drop_hint, 0x04);
    let d = bit(f.important_sell_hint, 0x08);
    let e = bit(f.no_drop_on_death, 0x10);
    let g = bit(f.sell_disabled, 0x20);
    assert((flags & 0x01 == 0 || flags & 0x01 == 0x01) && (flags & 0x02 == 0 || flags & 0x02
        == 0x02) && (flags & 0x04 == 0 || flags & 0x04 == 0x04) && (flags & 0x08 == 0 || flags
        & 0x08 == 0x08) && (flags & 0x10 == 0 || flags & 0x10 == 0x10) && (flags & 0x20 == 0
        || flags & 0x20 == 0x20)) by (bit_vector);
    assert((a | b | c | d | e | g) == flags & 0x3F) by (bit_vector)
        requires
            a == flags & 0x01,
            b == flags & 0x02,
            c == flags & 0x04,
            d == flags & 0x08,
            e == flags & 0x10,
            g == flags & 0x20,
    ;
}

/// What a character must have to use an item.
#[derive(Debug, Clone, Copy, PartialEq, Eq, Structural)]
pub struct ItemRequirements {
    pub profession: u8,
    pub proficiency_lvl: u8,
    pub lvl: u8,
    pub sex: u8,
    pub str: u16,
    pub agi: u16,
    pub vit: u16,
    pub spi: u16,
}

impl ItemRequirements {
    /// Whether `profession`, with its last decimal digit set to zero, is the
    /// profession that the item asks for.
    pub fn is_profession_ok(&self, profession: &u8) -> (ok: bool)
        ensures
            ok == (*profession - *profession % 10 == self.profession),
    {
        *profession - (*profession % 10) == self.profession
    }

    /// Whether `proficiency_lvl` reaches the proficiency that the item asks
    /// for.
    pub fn is_proficiency_lvl_ok(&self, proficiency_lvl: &u8) -> (ok: bool)
        ensures
            ok == (*proficiency_lvl >= self.proficiency_lvl),
    {
        *proficiency_lvl >= self.proficiency_lvl
    }

    /// Whether `lvl` reaches the level that the item asks for.
    pub fn is_lvl_ok(&self, lvl: &u8) -> (ok: bool)
        ensures
            ok == (*lvl >= self.lvl),
    {
        *lvl >= self.lvl
    }

    /// Whether `str` reaches the strength that the item asks for.
    pub fn is_str_ok(&self, str: &u16) -> (ok: bool)
        ensures
            ok == (*str >= self.str),
    {
        *str >= self.str
    }

    /// Whether `agi` reaches the agility that the item asks for.
    pub fn is_agi_ok(&self, agi: &u16) -> (ok: bool)
        ensures
            ok == (*agi >= self.agi),
    {
        *agi >= self.agi
    }

    /// Whether `vit` reaches the vitality that the item asks for.
    pub fn is_vit_ok(&self, vit: &u16) -> (ok: bool)
        ensures
            ok == (*vit >= self.vit),
    {
        *vit >= self.vit
    }

    /// Whether `spi` reaches the spirit that the item asks for.
    pub fn is_spi_ok(&self, spi: &u16) -> (ok: bool)
        ensures
            ok == (*spi >= self.spi),
    {
        *spi >= self.spi
    }
}

/// What an item adds in a fight.
#[derive(Debug, Clone, Copy, PartialEq, Eq, Structural)]
pub struct ItemCombatStats {
    pub max_phys_atk: u16,
    pub min_phys_atk: u16,
    pub phys_def: u16,
    pub accuracy: u8,
    pub dodge: u8,
    pub magic_atk: u16,
    pub magic_def: u16,
    pub atk_range: u8,
    pub atk_speed: u16,
}

/// One item of the item table.
#[derive(Debug, PartialEq, Eq)]
pub struct BaseItem {
    pub id: u32,
    pub name: String,
    pub requirements: ItemRequirements,
    pub flags: ItemFlags,
    pub combat_stats: ItemCombatStats,
    pub weight: u16,
    pub buy_price: u32,
    pub action_id: u32,
    pub hp_restored: u16,
    pub mp_restored: u16,
    pub amount: u16,
    pub amount_limit: u16,
    pub status: u16,
    pub gem1: u8,
    pub gem2: u8,
    pub magic1: u8,
    pub magic2: u8,
    pub magic3: u8,
    pub fray_mode: u32,
    pub repair_mode: u32,
    pub type_mask: u32,
    pub buy_cps_price: u16,
    pub type_label: String,
    pub description: String,
    pub unknown_1: u8,
}

/// The mathematical form of a [`BaseItem`].
pub struct BaseItemView {
    pub id: u32,
    pub name: Seq<char>,
    pub requirements: ItemRequirements,
    pub flags: ItemFlags,
    pub combat_stats: ItemCombatStats,
    pub weight: u16,
    pub buy_price: u32,
    pub action_id: u32,
    pub hp_restored: u16,
    pub mp_restored: u16,
    pub amount: u16,
    pub amount_limit: u16,
    pub status: u16,
    pub gem1: u8,
    pub gem2: u8,
    pub magic1: u8,
    pub magic2: u8,
    pub magic3: u8,
    pub fray_mode: u32,
    pub repair_mode: u32,
    pub type_mask: u32,
    pub buy_cps_price: u16,
    pub type_label: Seq<char>,
    pub description: Seq<char>,
    pub unknown_1: u8,
}

impl View for BaseItem {
    type V = BaseItemView;

    open spec fn view(&self) -> BaseItemView {
        BaseItemView {
            id: self.id,
            name: self.name@,
            requirements: self.requirements,
            flags: self.flags,
            combat_stats: self.combat_stats,
            weight: self.weight,
            buy_price: self.buy_price,
            action_id: self.action_id,
            hp_restored: self.hp_restored,
            mp_restored: self.mp_restored,
            amount: self.amount,
            amount_limit: self.amount_limit,
            status: self.status,
            gem1: self.gem1,
            gem2: self.gem2,
            magic1: self.magic1,
            magic2: self.magic2,
            magic3: self.magic3,
            fray_mode: self.fray_mode,
            repair_mode: self.repair_mode,
            type_mask: self.type_mask,
            buy_cps_price: self.buy_cps_price,
            type_label: self.type_label@,
            description: self.description@,
            unknown_1: self.unknown_1,
        }
    }
}

/// The number of tokens that the line of an item has at least: one more than
/// the highest position that [`item_layout`] reads.
pub const ITEM_MIN_FIELDS: usize = 40;

/// The fields of an item in the order in which they are read, each with the
/// position of its token in the line.
pub open spec fn item_layout() -> Seq<PositionalField> {
    seq![
        PositionalField { index: 0, kind: FieldKind::U32, name: "id" },
        PositionalField { index: 1, kind: FieldKind::Text, name: "name" },
        PositionalField { index: 2, kind: FieldKind::U8, name: "profession requirement" },
        PositionalField { index: 3, kind: FieldKind::U8, name: "proficiency level requirement" },
        PositionalField { index: 4, kind: FieldKind::U8, name: "level requirement" },
        PositionalField { index: 5, kind: FieldKind::U8, name: "sex requirement" },
        PositionalField { index: 6, kind: FieldKind::U16, name: "strength requirement" },
        PositionalField { index: 7, kind: FieldKind::U16, name: "agility requirement" },
        PositionalField { index: 8, kind: FieldKind::U16, name: "vitality requirement" },
        PositionalField { index: 9, kind: FieldKind::U16, name: "spirit requirement" },
        PositionalField { index: 10, kind: FieldKind::U8, name: "item flags" },
        PositionalField { index: 11, kind: FieldKind::U16, name: "weight" },
        PositionalField { index: 12, kind: FieldKind::U32, name: "buy price (silver)" },
        PositionalField { index: 13, kind: FieldKind::U32, name: "action id" },
        PositionalField { index: 14, kind: FieldKind::U16, name: "max phys attack" },
        PositionalField { index: 15, kind: FieldKind::U16, name: "min phys attack" },
        PositionalField { index: 16, kind: FieldKind::U16, name: "physical defense" },
        PositionalField { index: 17, kind: FieldKind::U8, name: "accuracy" },
        PositionalField { index: 18, kind: FieldKind::U8, name: "dodge" },
        PositionalField { index: 29, kind: FieldKind::U16, name: "magic atk" },
        PositionalField { index: 30, kind: FieldKind::U16, name: "magic def" },
        PositionalField { index: 31, kind: FieldKind::U8, name: "attack range" },
        PositionalField { index: 32, kind: FieldKind::U16, name: "attack speed" },
        PositionalField { index: 19, kind: FieldKind::U16, name: "hp restored" },
        PositionalField { index: 20, kind: FieldKind::U16, name: "mp restored" },
        PositionalField { index: 21, kind: FieldKind::U16, name: "amount" },
        PositionalField { index: 22, kind: FieldKind::U16, name: "amount limit" },
        PositionalField { index: 23, kind: FieldKind::U16, name: "status" },
        PositionalField { index: 24, kind: FieldKind::U8, name: "gem 1" },
        PositionalField { index: 25, kind: FieldKind::U8, name: "gem 2" },
        PositionalField { index: 26, kind: FieldKind::U8, name: "magic 1" },
        PositionalField { index: 27, kind: FieldKind::U8, name: "magic 2" },
        PositionalField { index: 28, kind: FieldKind::U8, name: "magic 3" },
        PositionalField { index: 33, kind: FieldKind::U32, name: "fray mode" },
        PositionalField { index: 34, kind: FieldKind::U32, name: "repair mode" },
        PositionalField { index: 35, kind: FieldKind::U32, name: "type mask" },
        PositionalField { index: 36, kind: FieldKind::U16, name: "buy price (cps)" },
        PositionalField { index: 37, kind: FieldKind::Text, name: "type name" },
        PositionalField { index: 38, kind: FieldKind::Text, name: "description" },
        PositionalField { index: 39, kind: FieldKind::U8, name: "unknown 1" },
    ]
}

/// The item that the tokens of a line hold, where every field can be read.
pub open spec fn item_of_tokens(tokens: Seq<Seq<char>>) -> BaseItemView {
    BaseItemView {
        id: number_of(FieldKind::U32, tokens[0]) as u32,
        name: tokens[1],
        requirements: ItemRequirements {
            profession: number_of(FieldKind::U8, tokens[2]) as u8,
            proficiency_lvl: number_of(FieldKind::U8, tokens[3]) as u8,
            lvl: number_of(FieldKind::U8, tokens[4]) as u8,
            sex: number_of(FieldKind::U8, tokens[5]) as u8,
            str: number_of(FieldKind::U16, tokens[6]) as u16,
            agi: number_of(FieldKind::U16, tokens[7]) as u16,
            vit: number_of(FieldKind::U16, tokens[8]) as u16,
            spi: number_of(FieldKind::U16, tokens[9]) as u16,
        },
        flags: ItemFlags::of_byte(number_of(FieldKind::U8, tokens[10]) as u8),
        combat_stats: ItemCombatStats {
            max_phys_atk: number_of(FieldKind::U16, tokens[14]) as u16,
            min_phys_atk: number_of(FieldKind::U16, tokens[15]) as u16,
            phys_def: number_of(FieldKind::U16, tokens[16]) as u16,
            accuracy: number_of(FieldKind::U8, tokens[17]) as u8,
            dodge: number_of(FieldKind::U8, tokens[18]) as u8,
            magic_atk: number_of(FieldKind::U16, tokens[29]) as u16,
            magic_def: number_of(FieldKind::U16, tokens[30]) as u16,
            atk_range: number_of(FieldKind::U8, tokens[31]) as u8,
            atk_speed: number_of(FieldKind::U16, tokens[32]) as u16,
        },
        weight: number_of(FieldKind::U16, tokens[11]) as u16,
        buy_price: number_of(FieldKind::U32, tokens[12]) as u32,
        action_id: number_of(FieldKind::U32, tokens[13]) as u32,
        hp_restored: number_of(FieldKind::U16, tokens[19]) as u16,
        mp_restored: number_of(FieldKind::U16, tokens[20]) as u16,
        amount: number_of(FieldKind::U16, tokens[21]) as u16,
        amount_limit: number_of(FieldKind::U16, tokens[22]) as u16,
        status: number_of(FieldKind::U16, tokens[23]) as u16,
        gem1: number_of(FieldKind::U8, tokens[24]) as u8,
        gem2: number_of(FieldKind::U8, tokens[25]) as u8,
        magic1: number_of(FieldKind::U8, tokens[26]) as u8,
        magic2: number_of(FieldKind::U8, tokens[27]) as u8,
        magic3: number_of(FieldKind::U8, tokens[28]) as u8,
        fray_mode: number_of(FieldKind::U32, tokens[33]) as u32,
        repair_mode: number_of(FieldKind::U32, tokens[34]) as u32,
        type_mask: number_of(FieldKind::U32, tokens[35]) as u32,
        buy_cps_price: number_of(FieldKind::U16, tokens[36]) as u16,
        type_label: tokens[37],
        description: tokens[38],
        unknown_1: number_of(FieldKind::U8, tokens[39]) as u8,
    }
}

/// The values of the fields of an item in the order in which the line holds
/// them.
pub open spec fn item_values(v: BaseItemView) -> Seq<Datum> {
    seq![
        Datum::Number(v.id as int),
        Datum::Text(v.name),
        Datum::Number(v.requirements.profession as int),
        Datum::Number(v.requirements.proficiency_lvl as int),
        Datum::Number(v.requirements.lvl as int),
        Datum::Number(v.requirements.sex as int),
        Datum::Number(v.requirements.str as int),
        Datum::Number(v.requirements.agi as int),
        Datum::Number(v.requirements.vit as int),
        Datum::Number(v.requirements.spi as int),
        Datum::Number(v.flags.as_byte() as int),
        Datum::Number(v.weight as int),
        Datum::Number(v.buy_price as int),
        Datum::Number(v.action_id as int),
        Datum::Number(v.combat_stats.max_phys_atk as int),
        Datum::Number(v.combat_stats.min_phys_atk as int),
        Datum::Number(v.combat_stats.phys_def as int),
        Datum::Number(v.combat_stats.accuracy as int),
        Datum::Number(v.combat_stats.dodge as int),
        Datum::Number(v.hp_restored as int),
        Datum::Number(v.mp_restored as int),
        Datum::Number(v.amount as int),
        Datum::Number(v.amount_limit as int),
        Datum::Number(v.status as int),
        Datum::Number(v.gem1 as int),
        Datum::Number(v.gem2 as int),
        Datum::Number(v.magic1 as int),
        Datum::Number(v.magic2 as int),
        Datum::Number(v.magic3 as int),
        Datum::Number(v.combat_stats.magic_atk as int),
        Datum::Number(v.combat_stats.magic_def as int),
        Datum::Number(v.combat_stats.atk_range as int),
        Datum::Number(v.combat_stats.atk_speed as int),
        Datum::Number(v.fray_mode as int),
        Datum::Number(v.repair_mode as int),
        Datum::Number(v.type_mask as int),
        Datum::Number(v.buy_cps_price as int),
        Datum::Text(v.type_label),
        Datum::Text(v.description),
        Datum::Number(v.unknown_1 as int),
    ]
}

impl BaseItem {
    /// The fields of an item in the order in which they are read.
    pub fn layout() -> (fields: Vec<PositionalField>)
        ensures
            fields@ == item_layout(),
            layout_fits(fields@, ITEM_MIN_FIELDS as nat),
    {
        let fields = vec![
            PositionalField { index: 0, kind: FieldKind::U32, name: "id" },
            PositionalField { index: 1, kind: FieldKind::Text, name: "name" },
            PositionalField { index: 2, kind: FieldKind::U8, name: "profession requirement" },
            PositionalField { index: 3, kind: FieldKind::U8, name: "proficiency level requirement" },
            PositionalField { index: 4, kind: FieldKind::U8, name: "level requirement" },
            PositionalField { index: 5, kind: FieldKind::U8, name: "sex requirement" },
            PositionalField { index: 6, kind: FieldKind::U16, name: "strength requirement" },
            PositionalField { index: 7, kind: FieldKind::U16, name: "agility requirement" },
            PositionalField { index: 8, kind: FieldKind::U16, name: "vitality requirement" },
            PositionalField { index: 9, kind: FieldKind::U16, name: "spirit requirement" },
            PositionalField { index: 10, kind: FieldKind::U8, name: "item flags" },
            PositionalField { index: 11, kind: FieldKind::U16, name: "weight" },
            PositionalField { index: 12, kind: FieldKind::U32, name: "buy price (silver)" },
            PositionalField { index: 13, kind: FieldKind::U32, name: "action id" },
            PositionalField { index: 14, kind: FieldKind::U16, name: "max phys attack" },
            PositionalField { index: 15, kind: FieldKind::U16, name: "min phys attack" },
            PositionalField { index: 16, kind: FieldKind::U16, name: "physical defense" },
            PositionalField { index: 17, kind: FieldKind::U8, name: "accuracy" },
            PositionalField { index: 18, kind: FieldKind::U8, name: "dodge" },
            PositionalField { index: 29, kind: FieldKind::U16, name: "magic atk" },
            PositionalField { index: 30, kind: FieldKind::U16, name: "magic def" },
            PositionalField { index: 31, kind: FieldKind::U8, name: "attack range" },
            PositionalField { index: 32, kind: FieldKind::U16, name: "attack speed" },
            PositionalField { index: 19, kind: FieldKind::U16, name: "hp restored" },
            PositionalField { index: 20, kind: FieldKind::U16, name: "mp restored" },
            PositionalField { index: 21, kind: FieldKind::U16, name: "amount" },
            PositionalField { index: 22, kind: FieldKind::U16, name: "amount limit" },
            PositionalField { index: 23, kind: FieldKind::U16, name: "status" },
            PositionalField { index: 24, kind: FieldKind::U8, name: "gem 1" },
            PositionalField { index: 25, kind: FieldKind::U8, name: "gem 2" },
            PositionalField { index: 26, kind: FieldKind::U8, name: "magic 1" },
            PositionalField { index: 27, kind: FieldKind::U8, name: "magic 2" },
            PositionalField { index: 28, kind: FieldKind::U8, name: "magic 3" },
            PositionalField { index: 33, kind: FieldKind::U32, name: "fray mode" },
            PositionalField { index: 34, kind: FieldKind::U32, name: "repair mode" },
            PositionalField { index: 35, kind: FieldKind::U32, name: "type mask" },
            PositionalField { index: 36, kind: FieldKind::U16, name: "buy price (cps)" },
            PositionalField { index: 37, kind: FieldKind::Text, name: "type name" },
            PositionalField { index: 38, kind: FieldKind::Text, name: "description" },
            PositionalField { index: 39, kind: FieldKind::U8, name: "unknown 1" },
        ];
        assert(fields@ =~= item_layout());
        fields
    }

    /// The values of the fields in the order in which the line holds them.
    pub fn field_values(&self) -> (values: Vec<FieldValue>)
        ensures
            data(values@) == item_values(self@),
    {
        let values = vec![
            FieldValue::Number(self.id as i128),
            FieldValue::Text(self.name.clone()),
            FieldValue::Number(self.requirements.profession as i128),
            FieldValue::Number(self.requirements.proficiency_lvl as i128),
            FieldValue::Number(self.requirements.lvl as i128),
            FieldValue::Number(self.requirements.sex as i128),
            FieldValue::Number(self.requirements.str as i128),
            FieldValue::Number(self.requirements.agi as i128),
            FieldValue::Number(self.requirements.vit as i128),
            FieldValue::Number(self.requirements.spi as i128),
            FieldValue::Number(self.flags.get_as_byte() as i128),
            FieldValue::Number(self.weight as i128),
            FieldValue::Number(self.buy_price as i128),
            FieldValue::Number(self.action_id as i128),
            FieldValue::Number(self.combat_stats.max_phys_atk as i128),
            FieldValue::Number(self.combat_stats.min_phys_atk as i128),
            FieldValue::Number(self.combat_stats.phys_def as i128),
            FieldValue::Number(self.combat_stats.accuracy as i128),
            FieldValue::Number(self.combat_stats.dodge as i128),
            FieldValue::Number(self.hp_restored as i128),
            FieldValue::Number(self.mp_restored as i128),
            FieldValue::Number(self.amount as i128),
            FieldValue::Number(self.amount_limit as i128),
            FieldValue::Number(self.status as i128),
            FieldValue::Number(self.gem1 as i128),
            FieldValue::Number(self.gem2 as i128),
            FieldValue::Number(self.magic1 as i128),
            FieldValue::Number(self.magic2 as i128),
            FieldValue::Number(self.magic3 as i128),
            FieldValue::Number(self.combat_stats.magic_atk as i128),
            FieldValue::Number(self.combat_stats.magic_def as i128),
            FieldValue::Number(self.combat_stats.atk_range as i128),
            FieldValue::Number(self.combat_stats.atk_speed as i128),
            FieldValue::Number(self.fray_mode as i128),
            FieldValue::Number(self.repair_mode as i128),
            FieldValue::Number(self.type_mask as i128),
            FieldValue::Number(self.buy_cps_price as i128),
            FieldValue::Text(self.type_label.clone()),
            FieldValue::Text(self.description.clone()),
            FieldValue::Number(self.unknown_1 as i128),
        ];
        assert(data(values@) =~= item_values(self@));
        values
    }
}

impl SpaceSeparatedParseable<BaseItem> for BaseItem {
    /// Too few tokens and the first field that cannot be read are reported
    /// as [`line_outcome`] says; else the item is that of the tokens.
    open spec fn line_result(
        tokens: Seq<Seq<char>>,
        r: Result<BaseItem, SpaceSeparatedParserError>,
    ) -> bool {
        match r {
            Ok(item) => line_outcome(tokens, item_layout(), ITEM_MIN_FIELDS as nat) is Ok && item@
                == item_of_tokens(tokens),
            Err(e) => line_outcome(tokens, item_layout(), ITEM_MIN_FIELDS as nat) == Err::<
                Seq<Datum>,
                LineFault,
            >(e@),
        }
    }

    fn from_line(line: &String) -> (r: Result<BaseItem, SpaceSeparatedParserError>) {
        let layout = BaseItem::layout();
        let values = match read_line(line, &layout, ITEM_MIN_FIELDS) {
            Ok(values) => values,
            Err(e) => {
                return Err(e);
            },
        };
        proof {
            reveal(number_of);
        }
        Ok(BaseItem {
            id: values[0].as_number() as u32,
            name: values[1].as_text(),
            requirements: ItemRequirements {
                profession: values[2].as_number() as u8,
                proficiency_lvl: values[3].as_number() as u8,
                lvl: values[4].as_number() as u8,
                sex: values[5].as_number() as u8,
                str: values[6].as_number() as u16,
                agi: values[7].as_number() as u16,
                vit: values[8].as_number() as u16,
                spi: values[9].as_number() as u16,
            },
            flags: ItemFlags::from_byte(&(values[10].as_number() as u8)),
            combat_stats: ItemCombatStats {
                max_phys_atk: values[14].as_number() as u16,
                min_phys_atk: values[15].as_number() as u16,
                phys_def: values[16].as_number() as u16,
                accuracy: values[17].as_number() as u8,
                dodge: values[18].as_number() as u8,
                magic_atk: values[19].as_number() as u16,
                magic_def: values[20].as_number() as u16,
                atk_range: values[21].as_number() as u8,
                atk_speed: values[22].as_number() as u16,
            },
            weight: values[11].as_number() as u16,
            buy_price: values[12].as_number() as u32,
            action_id: values[13].as_number() as u32,
            hp_restored: values[23].as_number() as u16,
            mp_restored: values[24].as_number() as u16,
            amount: values[25].as_number() as u16,
            amount_limit: values[26].as_number() as u16,
            status: values[27].as_number() as u16,
            gem1: values[28].as_number() as u8,
            gem2: values[29].as_number() as u8,
            magic1: values[30].as_number() as u8,
            magic2: values[31].as_number() as u8,
            magic3: values[32].as_number() as u8,
            fray_mode: values[33].as_number() as u32,
            repair_mode: values[34].as_number() as u32,
            type_mask: values[35].as_number() as u32,
            buy_cps_price: values[36].as_number() as u16,
            type_label: values[37].as_text(),
            description: values[38].as_text(),
            unknown_1: values[39].as_number() as u8,
        })
    }
}

impl StringSerializableStructure for BaseItem {
    /// The values of the fields, in the order of the line, joined by single
    /// spaces.
    open spec fn serialized(&self) -> Seq<char> {
        spaced(data_texts(item_values(self@)))
    }

    fn serialize(&self) -> (s: String) {
        write_line(&self.field_values())
    }
}

/// Whether the texts of an item are words, so that each is one token of
/// the line.
pub open spec fn item_texts_are_words(v: BaseItemView) -> bool {
    is_word(v.name) && is_word(v.type_label) && is_word(v.description)
}

/// The line of an item has a token for every field and no token that no field
/// reads: each position below the minimum is read by exactly one field, so
/// that the minimum is one more than the highest position read.
pub proof fn item_layout_is_exact()
    ensures
        item_layout().len() == ITEM_MIN_FIELDS,
        layout_fits(item_layout(), ITEM_MIN_FIELDS as nat),
        forall|j: int, k: int|
            0 <= j < k < item_layout().len() ==> (#[trigger] item_layout()[j]).index != (
            #[trigger] item_layout()[k]).index,
        exists|k: int| 0 <= k < item_layout().len() && (#[trigger] item_layout()[k]).index == ITEM_MIN_FIELDS - 1,
{
    assert(item_layout()[ITEM_MIN_FIELDS - 1].index == ITEM_MIN_FIELDS - 1);
}

/// In the line of an item that can be read, replacing the token of any one
/// field by a text that is no value of the field's type makes the reading
/// fail with the name of exactly that field.
pub proof fn item_cast_failure_is_local(tokens: Seq<Seq<char>>, k: int, bad: Seq<char>)
    requires
        line_outcome(tokens, item_layout(), ITEM_MIN_FIELDS as nat) is Ok,
        0 <= k < item_layout().len(),
        item_layout()[k].kind.reads(bad) is None,
    ensures
        line_outcome(tokens.update(item_layout()[k].index as int, bad), item_layout(), ITEM_MIN_FIELDS as nat) == Err::<
            Seq<Datum>,
            LineFault,
        >(LineFault::InvalidCast(item_layout()[k].name@)),
{
    item_layout_is_exact();
    cast_failure_is_local(tokens, item_layout(), ITEM_MIN_FIELDS as nat, k, bad);
}

/// The texts of the values of an item, one by one.
proof fn item_own_texts(v: BaseItemView)
    ensures
        ({
            let tokens = data_texts(item_values(v));
            &&& tokens.len() == 40
            &&& tokens[0] == decimal_text(v.id as int)
            &&& tokens[1] == v.name
            &&& tokens[2] == decimal_text(v.requirements.profession as int)
            &&& tokens[3] == decimal_text(v.requirements.proficiency_lvl as int)
            &&& tokens[4] == decimal_text(v.requirements.lvl as int)
            &&& tokens[5] == decimal_text(v.requirements.sex as int)
            &&& tokens[6] == decimal_text(v.requirements.str as int)
            &&& tokens[7] == decimal_text(v.requirements.agi as int)
            &&& tokens[8] == decimal_text(v.requirements.vit as int)
            &&& tokens[9] == decimal_text(v.requirements.spi as int)
            &&& tokens[10] == decimal_text(v.flags.as_byte() as int)
            &&& tokens[11] == decimal_text(v.weight as int)
            &&& tokens[12] == decimal_text(v.buy_price as int)
            &&& tokens[13] == decimal_text(v.action_id as int)
            &&& tokens[14] == decimal_text(v.combat_stats.max_phys_atk as int)
            &&& tokens[15] == decimal_text(v.combat_stats.min_phys_atk as int)
            &&& tokens[16] == decimal_text(v.combat_stats.phys_def as int)
            &&& tokens[17] == decimal_text(v.combat_stats.accuracy as int)
            &&& tokens[18] == decimal_text(v.combat_stats.dodge as int)
            &&& tokens[19] == decimal_text(v.hp_restored as int)
            &&& tokens[20] == decimal_text(v.mp_restored as int)
            &&& tokens[21] == decimal_text(v.amount as int)
            &&& tokens[22] == decimal_text(v.amount_limit as int)
            &&& tokens[23] == decimal_text(v.status as int)
            &&& tokens[24] == decimal_text(v.gem1 as int)
            &&& tokens[25] == decimal_text(v.gem2 as int)
            &&& tokens[26] == decimal_text(v.magic1 as int)
            &&& tokens[27] == decimal_text(v.magic2 as int)
            &&& tokens[28] == decimal_text(v.magic3 as int)
            &&& tokens[29] == decimal_text(v.combat_stats.magic_atk as int)
            &&& tokens[30] == decimal_text(v.combat_stats.magic_def as int)
            &&& tokens[31] == decimal_text(v.combat_stats.atk_range as int)
            &&& tokens[32] == decimal_text(v.combat_stats.atk_speed as int)
            &&& tokens[33] == decimal_text(v.fray_mode as int)
            &&& tokens[34] == decimal_text(v.repair_mode as int)
            &&& tokens[35] == decimal_text(v.type_mask as int)
            &&& tokens[36] == decimal_text(v.buy_cps_price as int)
            &&& tokens[37] == v.type_label
            &&& tokens[38] == v.description
            &&& tokens[39] == decimal_text(v.unknown_1 as int)
        }),
{
    let values = item_values(v);
    let tokens = data_texts(values);
    assert(tokens[0] == datum_text(values[0]));
    assert(tokens[1] == datum_text(values[1]));
    assert(tokens[2] == datum_text(values[2]));
    assert(tokens[3] == datum_text(values[3]));
    assert(tokens[4] == datum_text(values[4]));
    assert(tokens[5] == datum_text(values[5]));
    assert(tokens[6] == datum_text(values[6]));
    assert(tokens[7] == datum_text(values[7]));
    assert(tokens[8] == datum_text(values[8]));
    assert(tokens[9] == datum_text(values[9]));
    assert(tokens[10] == datum_text(values[10]));
    assert(tokens[11] == datum_text(values[11]));
    assert(tokens[12] == datum_text(values[12]));
    assert(tokens[13] == datum_text(values[13]));
    assert(tokens[14] == datum_text(values[14]));
    assert(tokens[15] == datum_text(values[15]));
    assert(tokens[16] == datum_text(values[16]));
    assert(tokens[17] == datum_text(values[17]));
    assert(tokens[18] == datum_text(values[18]));
    assert(tokens[19] == datum_text(values[19]));
    assert(tokens[20] == datum_text(values[20]));
    assert(tokens[21] == datum_text(values[21]));
    assert(tokens[22] == datum_text(values[22]));
    assert(tokens[23] == datum_text(values[23]));
    assert(tokens[24] == datum_text(values[24]));
    assert(tokens[25] == datum_text(values[25]));
    assert(tokens[26] == datum_text(values[26]));
    assert(tokens[27] == datum_text(values[27]));
    assert(tokens[28] == datum_text(values[28]));
    assert(tokens[29] == datum_text(values[29]));
    assert(tokens[30] == datum_text(values[30]));
    assert(tokens[31] == datum_text(values[31]));
    assert(tokens[32] == datum_text(values[32]));
    assert(tokens[33] == datum_text(values[33]));
    assert(tokens[34] == datum_text(values[34]));
    assert(tokens[35] == datum_text(values[35]));
    assert(tokens[36] == datum_text(values[36]));
    assert(tokens[37] == datum_text(values[37]));
    assert(tokens[38] == datum_text(values[38]));
    assert(tokens[39] == datum_text(values[39]));
}

/// Tokens that are the texts of the fields of an item, read field by field,
/// give it back.
proof fn item_of_texts(v: BaseItemView, tokens: Seq<Seq<char>>)
    requires
        tokens[0] == decimal_text(v.id as int),
        tokens[1] == v.name,
        tokens[2] == decimal_text(v.requirements.profession as int),
        tokens[3] == decimal_text(v.requirements.proficiency_lvl as int),
        tokens[4] == decimal_text(v.requirements.lvl as int),
        tokens[5] == decimal_text(v.requirements.sex as int),
        tokens[6] == decimal_text(v.requirements.str as int),
        tokens[7] == decimal_text(v.requirements.agi as int),
        tokens[8] == decimal_text(v.requirements.vit as int),
        tokens[9] == decimal_text(v.requirements.spi as int),
        tokens[10] == decimal_text(v.flags.as_byte() as int),
        tokens[11] == decimal_text(v.weight as int),
        tokens[12] == decimal_text(v.buy_price as int),
        tokens[13] == decimal_text(v.action_id as int),
        tokens[14] == decimal_text(v.combat_stats.max_phys_atk as int),
        tokens[15] == decimal_text(v.combat_stats.min_phys_atk as int),
        tokens[16] == decimal_text(v.combat_stats.phys_def as int),
        tokens[17] == decimal_text(v.combat_stats.accuracy as int),
        tokens[18] == decimal_text(v.combat_stats.dodge as int),
        tokens[19] == decimal_text(v.hp_restored as int),
        tokens[20] == decimal_text(v.mp_restored as int),
        tokens[21] == decimal_text(v.amount as int),
        tokens[22] == decimal_text(v.amount_limit as int),
        tokens[23] == decimal_text(v.status as int),
        tokens[24] == decimal_text(v.gem1 as int),
        tokens[25] == decimal_text(v.gem2 as int),
        tokens[26] == decimal_text(v.magic1 as int),
        tokens[27] == decimal_text(v.magic2 as int),
        tokens[28] == decimal_text(v.magic3 as int),
        tokens[29] == decimal_text(v.combat_stats.magic_atk as int),
        tokens[30] == decimal_text(v.combat_stats.magic_def as int),
        tokens[31] == decimal_text(v.combat_stats.atk_range as int),
        tokens[32] == decimal_text(v.combat_stats.atk_speed as int),
        tokens[33] == decimal_text(v.fray_mode as int),
        tokens[34] == decimal_text(v.repair_mode as int),
        tokens[35] == decimal_text(v.type_mask as int),
        tokens[36] == decimal_text(v.buy_cps_price as int),
        tokens[37] == v.type_label,
        tokens[38] == v.description,
        tokens[39] == decimal_text(v.unknown_1 as int),
    ensures
        item_of_tokens(tokens) == v,
{
    item_flags_round_trip(v.flags);
    number_round_trip(FieldKind::U32, v.id as int);
    number_round_trip(FieldKind::U8, v.requirements.profession as int);
    number_round_trip(FieldKind::U8, v.requirements.proficiency_lvl as int);
    number_round_trip(FieldKind::U8, v.requirements.lvl as int);
    number_round_trip(FieldKind::U8, v.requirements.sex as int);
    number_round_trip(FieldKind::U16, v.requirements.str as int);
    number_round_trip(FieldKind::U16, v.requirements.agi as int);
    number_round_trip(FieldKind::U16, v.requirements.vit as int);
    number_round_trip(FieldKind::U16, v.requirements.spi as int);
    number_round_trip(FieldKind::U8, v.flags.as_byte() as int);
    number_round_trip(FieldKind::U16, v.weight as int);
    number_round_trip(FieldKind::U32, v.buy_price as int);
    number_round_trip(FieldKind::U32, v.action_id as int);
    number_round_trip(FieldKind::U16, v.combat_stats.max_phys_atk as int);
    number_round_trip(FieldKind::U16, v.combat_stats.min_phys_atk as int);
    number_round_trip(FieldKind::U16, v.combat_stats.phys_def as int);
    number_round_trip(FieldKind::U8, v.combat_stats.accuracy as int);
    number_round_trip(FieldKind::U8, v.combat_stats.dodge as int);
    number_round_trip(FieldKind::U16, v.hp_restored as int);
    number_round_trip(FieldKind::U16, v.mp_restored as int);
    number_round_trip(FieldKind::U16, v.amount as int);
    number_round_trip(FieldKind::U16, v.amount_limit as int);
    number_round_trip(FieldKind::U16, v.status as int);
    number_round_trip(FieldKind::U8, v.gem1 as int);
    number_round_trip(FieldKind::U8, v.gem2 as int);
    number_round_trip(FieldKind::U8, v.magic1 as int);
    number_round_trip(FieldKind::U8, v.magic2 as int);
    number_round_trip(FieldKind::U8, v.magic3 as int);
    number_round_trip(FieldKind::U16, v.combat_stats.magic_atk as int);
    number_round_trip(FieldKind::U16, v.combat_stats.magic_def as int);
    number_round_trip(FieldKind::U8, v.combat_stats.atk_range as int);
    number_round_trip(FieldKind::U16, v.combat_stats.atk_speed as int);
    number_round_trip(FieldKind::U32, v.fray_mode as int);
    number_round_trip(FieldKind::U32, v.repair_mode as int);
    number_round_trip(FieldKind::U32, v.type_mask as int);
    number_round_trip(FieldKind::U16, v.buy_cps_price as int);
    number_round_trip(FieldKind::U8, v.unknown_1 as int);
    let w = item_of_tokens(tokens);
    assert(w.requirements == v.requirements);
    assert(w.combat_stats == v.combat_stats);
}

/// Reading the line of an item gives it back, where its texts are words.
pub proof fn item_round_trip(item: BaseItem)
    requires
        item_texts_are_words(item@),
    ensures
        words(item.serialized()) == data_texts(item_values(item@)),
        line_outcome(words(item.serialized()), item_layout(), ITEM_MIN_FIELDS as nat) is Ok,
        item_of_tokens(words(item.serialized())) == item@,
        forall|r: Result<BaseItem, SpaceSeparatedParserError>|
            BaseItem::line_result(words(item.serialized()), r) ==> r is Ok && r->Ok_0@ == item@,
{
    let values = item_values(item@);
    item_flags_round_trip(item@.flags);
    assert forall|i: int| 0 <= i < values.len() implies is_word(datum_text(#[trigger] values[i])) by {
        match values[i] {
            Datum::Number(n) => {
                decimal_text_is_word(n);
            },
            Datum::Text(_) => {},
        }
    }
    line_round_trip(values, item_layout(), ITEM_MIN_FIELDS as nat);
    item_own_texts(item@);
    item_of_texts(item@, data_texts(values));
}

} // verus!

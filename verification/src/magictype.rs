use crate::item::bit;
use crate::decimal::decimal_text;
use crate::laws::{
    cast_failure_is_local, decimal_text_is_word, line_round_trip, number_round_trip,
};
use crate::parser::{
    data, layout_fits, line_outcome, number_of, read_line, Datum, FieldKind, FieldValue,
    LineFault, PositionalField, SpaceSeparatedParseable, SpaceSeparatedParserError,
};
use crate::serializer::{
    data_texts, datum_text, spaced, write_line, StringSerializableStructure,
};
use crate::text::{is_word, words};
use vstd::prelude::*;

verus! {

/// The five kinds of target of a skill, which one byte holds.
#[derive(Debug, Clone, Copy, PartialEq, Eq, Structural)]
pub struct MagicTargetFlags {
    pub is_body_target: bool,
    pub is_passive_target: bool,
    pub is_terrain_target: bool,
    pub is_none_target: bool,
    pub is_self_target: bool,
}

impl MagicTargetFlags {
    /// The switches that `flags` holds: each is on where its bit is set.
    /// Bits 5 to 7 hold nothing.
    pub open spec fn of_byte(flags: u8) -> MagicTargetFlags {
        MagicTargetFlags {
            is_body_target: flags & 0x10 != 0,
            is_passive_target: flags & 0x08 != 0,
            is_terrain_target: flags & 0x04 != 0,
            is_none_target: flags & 0x02 != 0,
            is_self_target: flags & 0x01 != 0,
        }
    }

    /// The byte that holds the switches: the bit of each that is on, and no
    /// other.
    pub open spec fn as_byte(self) -> u8 {
        bit(self.is_self_target, 0x01) | bit(self.is_none_target, 0x02) | bit(
            self.is_terrain_target,
            0x04,
        ) | bit(self.is_passive_target, 0x08) | bit(self.is_body_target, 0x10)
    }

    /// Unpacks the switches from a byte.
    pub fn from_byte(flags: &u8) -> (r: MagicTargetFlags)
        ensures
            r == MagicTargetFlags::of_byte(*flags),
    {
        MagicTargetFlags {
            is_body_target: (*flags & 0x10) > 0,
            is_passive_target: (*flags & 0x08) > 0,
            is_terrain_target: (*flags & 0x04) > 0,
            is_none_target: (*flags & 0x02) > 0,
            is_self_target: (*flags & 0x01) > 0,
        }
    }

    /// Packs the switches into a byte.
    pub fn get_as_byte(&self) -> (flag: u8)
        ensures
            flag == self.as_byte(),
            flag & 0xE0 == 0,
            MagicTargetFlags::of_byte(flag) == *self,
    {
        let mut flag: u8 = 0;
        flag |= if self.is_self_target { 0x01 } else { 0x00 };
        flag |= if self.is_none_target { 0x02 } else { 0x00 };
        flag |= if self.is_terrain_target { 0x04 } else { 0x00 };
        flag |= if self.is_passive_target { 0x08 } else { 0x00 };
        flag |= if self.is_body_target { 0x10 } else { 0x00 };
        proof {
            let a = bit(self.is_self_target, 0x01);
            assert(0u8 | a == a) by (bit_vector);
            target_flags_round_trip(*self);
        }
        flag
    }
}

/// The bits of five masked bytes, joined, show each byte again, and nothing
/// above bit 4.
proof fn five_bits(a: u8, b: u8, c: u8, d: u8, e: u8)
    requires
        a == 0 || a == 0x01,
        b == 0 || b == 0x02,
        c == 0 || c == 0x04,
        d == 0 || d == 0x08,
        e == 0 || e == 0x10,
    ensures
        ((a | b | c | d | e) & 0x01 != 0) == (a != 0),
        ((a | b | c | d | e) & 0x02 != 0) == (b != 0),
        ((a | b | c | d | e) & 0x04 != 0) == (c != 0),
        ((a | b | c | d | e) & 0x08 != 0) == (d != 0),
        ((a | b | c | d | e) & 0x10 != 0) == (e != 0),
        (a | b | c | d | e) & 0xE0 == 0,
        (a | b | c | d | e) <= 0x1F,
{
    assert(((a | b | c | d | e) & 0x01 != 0) == (a != 0) && ((a | b | c | d | e) & 0x02 != 0) == (b
        != 0) && ((a | b | c | d | e) & 0x04 != 0) == (c != 0) && ((a | b | c | d | e) & 0x08 != 0)
        == (d != 0) && ((a | b | c | d | e) & 0x10 != 0) == (e != 0) && (a | b | c | d | e) & 0xE0
        == 0 && (a | b | c | d | e) <= 0x1F) by (bit_vector)
        requires
            a == 0 || a == 0x01,
            b == 0 || b == 0x02,
            c == 0 || c == 0x04,
            d == 0 || d == 0x08,
            e == 0 || e == 0x10,
    ;
}

/// Unpacking the byte of any five switches gives the switches back, and the
/// byte has no bit above bit 4.
pub proof fn target_flags_round_trip(flags: MagicTargetFlags)
    ensures
        MagicTargetFlags::of_byte(flags.as_byte()) == flags,
        flags.as_byte() & 0xE0 == 0,
        flags.as_byte() <= 0x1F,
{
    five_bits(
        bit(flags.is_self_target, 0x01),
        bit(flags.is_none_target, 0x02),
        bit(flags.is_terrain_target, 0x04),
        bit(flags.is_passive_target, 0x08),
        bit(flags.is_body_target, 0x10),
    );
}

/// Packing the switches of a byte gives the low five bits of the byte.
pub proof fn target_flags_of_byte(flags: u8)
    ensures
        MagicTargetFlags::of_byte(flags).as_byte() == flags & 0x1F,
{
    let f = MagicTargetFlags::of_byte(flags);
    let a = bit(f.is_self_target, 0x01);
    let b = bit(f.is_none_target, 0x02);
    let c = bit(f.is_terrain_target, 0x04);
    let d = bit(f.is_passive_target, 0x08);
    let e = bit(f.is_body_target, 0x10);
    assert((flags & 0x01 == 0 || flags & 0x01 == 0x01) && (flags & 0x02 == 0 || flags & 0x02
        == 0x02) && (flags & 0x04 == 0 || flags & 0x04 == 0x04) && (flags & 0x08 == 0 || flags
        & 0x08 == 0x08) && (flags & 0x10 == 0 || flags & 0x10 == 0x10)) by (bit_vector);
    assert((a | b | c | d | e) == flags & 0x1F) by (bit_vector)
        requires
            a == flags & 0x01,
            b == flags & 0x02,
            c == flags & 0x04,
            d == flags & 0x08,
            e == flags & 0x10,
    ;
}

/// What a character must have to use a skill.
#[derive(Debug, Clone, Copy, PartialEq, Eq, Structural)]
pub struct MagicRequirements {
    pub job_required: u32,
    pub xp_required: u64,
    pub lvl_required: u8,
    pub weapon_required: u16,
    pub uses_item: u8,
}

/// The names of the effects and sounds of a skill.
#[derive(Debug, PartialEq, Eq)]
pub struct MagicEffects {
    pub intone_effect: String,
    pub intone_sfx: String,
    pub sender_effect: String,
    pub sender_sfx: String,
    pub ground_effect: String,
    pub trace_effect: String,
    pub target_effect: String,
    pub target_sfx: String,
}

/// The mathematical form of [`MagicEffects`].
pub struct MagicEffectsView {
    pub intone_effect: Seq<char>,
    pub intone_sfx: Seq<char>,
    pub sender_effect: Seq<char>,
    pub sender_sfx: Seq<char>,
    pub ground_effect: Seq<char>,
    pub trace_effect: Seq<char>,
    pub target_effect: Seq<char>,
    pub target_sfx: Seq<char>,
}

impl View for MagicEffects {
    type V = MagicEffectsView;

    open spec fn view(&self) -> MagicEffectsView {
        MagicEffectsView {
            intone_effect: self.intone_effect@,
            intone_sfx: self.intone_sfx@,
            sender_effect: self.sender_effect@,
            sender_sfx: self.sender_sfx@,
            ground_effect: self.ground_effect@,
            trace_effect: self.trace_effect@,
            target_effect: self.target_effect@,
            target_sfx: self.target_sfx@,
        }
    }
}

/// What a skill costs to use.
#[derive(Debug, Clone, Copy, PartialEq, Eq, Structural)]
pub struct MagicCosts {
    pub mp_cost: u16,
    pub stamina_cost: u8,
}

impl MagicCosts {
    /// Whether `mp` pays for the skill.
    pub fn is_mp_sufficient(&self, mp: &u16) -> (ok: bool)
        ensures
            ok == (*mp >= self.mp_cost),
    {
        *mp >= self.mp_cost
    }

    /// Whether `stamina` pays for the skill.
    pub fn is_stamina_sufficient(&self, stamina: &u8) -> (ok: bool)
        ensures
            ok == (*stamina >= self.stamina_cost),
    {
        *stamina >= self.stamina_cost
    }
}

/// One skill of the skill table.
#[derive(Debug, PartialEq, Eq)]
pub struct BaseMagicTypeEntry {
    pub id: u32,
    pub action_sort: u8,
    pub skill_name: String,
    pub is_offensive_on_use: bool,
    pub is_ground_targeted: bool,
    pub is_multi_target: bool,
    pub targets_flags: MagicTargetFlags,
    pub requirements: MagicRequirements,
    pub effects: MagicEffects,
    pub costs: MagicCosts,
    pub skill_lvl: u8,
    pub power: i32,
    pub intone_effect_duration: u32,
    pub accuracy: u8,
    pub time: u32,
    pub range: u32,
    pub max_distance: u8,
    pub status: u64,
    pub skill_type: u8,
    pub active_time: u32,
    pub auto_active: u16,
    pub floor_attribute: u32,
    pub is_auto_learned: bool,
    pub auto_learn_lvl: u8,
    pub drop_weapon: u32,
    pub hits_with_weapon: u8,
    pub next_skill_id_auto_cast: u32,
    pub use_delay: u32,
    pub use_item_num: u8,
    pub sender_action: u32,
    pub short_desc: String,
    pub desc: String,
    pub target_delay: u32,
    pub screen_represent: bool,
    pub is_usable_in_market: bool,
    pub is_staggering: bool,
}

/// The mathematical form of a [`BaseMagicTypeEntry`].
pub struct BaseMagicTypeEntryView {
    pub id: u32,
    pub action_sort: u8,
    pub skill_name: Seq<char>,
    pub is_offensive_on_use: bool,
    pub is_ground_targeted: bool,
    pub is_multi_target: bool,
    pub targets_flags: MagicTargetFlags,
    pub requirements: MagicRequirements,
    pub effects: MagicEffectsView,
    pub costs: MagicCosts,
    pub skill_lvl: u8,
    pub power: i32,
    pub intone_effect_duration: u32,
    pub accuracy: u8,
    pub time: u32,
    pub range: u32,
    pub max_distance: u8,
    pub status: u64,
    pub skill_type: u8,
    pub active_time: u32,
    pub auto_active: u16,
    pub floor_attribute: u32,
    pub is_auto_learned: bool,
    pub auto_learn_lvl: u8,
    pub drop_weapon: u32,
    pub hits_with_weapon: u8,
    pub next_skill_id_auto_cast: u32,
    pub use_delay: u32,
    pub use_item_num: u8,
    pub sender_action: u32,
    pub short_desc: Seq<char>,
    pub desc: Seq<char>,
    pub target_delay: u32,
    pub screen_represent: bool,
    pub is_usable_in_market: bool,
    pub is_staggering: bool,
}

impl View for BaseMagicTypeEntry {
    type V = BaseMagicTypeEntryView;

    open spec fn view(&self) -> BaseMagicTypeEntryView {
        BaseMagicTypeEntryView {
            id: self.id,
            action_sort: self.action_sort,
            skill_name: self.skill_name@,
            is_offensive_on_use: self.is_offensive_on_use,
            is_ground_targeted: self.is_ground_targeted,
            is_multi_target: self.is_multi_target,
            targets_flags: self.targets_flags,
            requirements: self.requirements,
            effects: self.effects@,
            costs: self.costs,
            skill_lvl: self.skill_lvl,
            power: self.power,
            intone_effect_duration: self.intone_effect_duration,
            accuracy: self.accuracy,
            time: self.time,
            range: self.range,
            max_distance: self.max_distance,
            status: self.status,
            skill_type: self.skill_type,
            active_time: self.active_time,
            auto_active: self.auto_active,
            floor_attribute: self.floor_attribute,
            is_auto_learned: self.is_auto_learned,
            auto_learn_lvl: self.auto_learn_lvl,
            drop_weapon: self.drop_weapon,
            hits_with_weapon: self.hits_with_weapon,
            next_skill_id_auto_cast: self.next_skill_id_auto_cast,
            use_delay: self.use_delay,
            use_item_num: self.use_item_num,
            sender_action: self.sender_action,
            short_desc: self.short_desc@,
            desc: self.desc@,
            target_delay: self.target_delay,
            screen_represent: self.screen_represent,
            is_usable_in_market: self.is_usable_in_market,
            is_staggering: self.is_staggering,
        }
    }
}

/// The number of tokens that the line of a skill has at least: one more than
/// the highest position that [`magic_layout`] reads.
pub const MAGIC_MIN_FIELDS: usize = 48;

/// The fields of a skill in the order in which they are read, each with the
/// position of its token in the line.
pub open spec fn magic_layout() -> Seq<PositionalField> {
    seq![
        PositionalField { index: 0, kind: FieldKind::U32, name: "id" },
        PositionalField { index: 1, kind: FieldKind::U8, name: "action sort" },
        PositionalField { index: 2, kind: FieldKind::Text, name: "skill name" },
        PositionalField { index: 3, kind: FieldKind::U8, name: "is offensive on use" },
        PositionalField { index: 4, kind: FieldKind::U8, name: "is ground targeted" },
        PositionalField { index: 5, kind: FieldKind::U8, name: "is multi target" },
        PositionalField { index: 6, kind: FieldKind::U8, name: "target flags" },
        PositionalField { index: 8, kind: FieldKind::U16, name: "mp cost" },
        PositionalField { index: 27, kind: FieldKind::U8, name: "stamina cost" },
        PositionalField { index: 16, kind: FieldKind::U32, name: "job required" },
        PositionalField { index: 17, kind: FieldKind::U64, name: "xp required" },
        PositionalField { index: 18, kind: FieldKind::U8, name: "level required" },
        PositionalField { index: 20, kind: FieldKind::U16, name: "weapon required" },
        PositionalField { index: 29, kind: FieldKind::U8, name: "uses item" },
        PositionalField { index: 36, kind: FieldKind::Text, name: "intone effect" },
        PositionalField { index: 37, kind: FieldKind::Text, name: "intone sound" },
        PositionalField { index: 38, kind: FieldKind::Text, name: "sender effect" },
        PositionalField { index: 39, kind: FieldKind::Text, name: "sender sound" },
        PositionalField { index: 41, kind: FieldKind::Text, name: "target effect" },
        PositionalField { index: 42, kind: FieldKind::Text, name: "target sound" },
        PositionalField { index: 43, kind: FieldKind::Text, name: "ground effect" },
        PositionalField { index: 44, kind: FieldKind::Text, name: "trace effect" },
        PositionalField { index: 7, kind: FieldKind::U8, name: "skill lvl" },
        PositionalField { index: 9, kind: FieldKind::I32, name: "power" },
        PositionalField { index: 10, kind: FieldKind::U32, name: "intone effect duration" },
        PositionalField { index: 11, kind: FieldKind::U8, name: "accuracy" },
        PositionalField { index: 12, kind: FieldKind::U32, name: "time" },
        PositionalField { index: 13, kind: FieldKind::U32, name: "range" },
        PositionalField { index: 14, kind: FieldKind::U8, name: "max distance" },
        PositionalField { index: 15, kind: FieldKind::U64, name: "status" },
        PositionalField { index: 19, kind: FieldKind::U8, name: "skill type" },
        PositionalField { index: 21, kind: FieldKind::U32, name: "active time" },
        PositionalField { index: 22, kind: FieldKind::U16, name: "auto active" },
        PositionalField { index: 23, kind: FieldKind::U32, name: "floor attribute" },
        PositionalField { index: 24, kind: FieldKind::U8, name: "auto learned" },
        PositionalField { index: 25, kind: FieldKind::U8, name: "auto learn level" },
        PositionalField { index: 26, kind: FieldKind::U32, name: "drop weapon" },
        PositionalField { index: 28, kind: FieldKind::U8, name: "hits with weapon" },
        PositionalField { index: 30, kind: FieldKind::U32, name: "next skill id (auto casted)" },
        PositionalField { index: 31, kind: FieldKind::U32, name: "use delay" },
        PositionalField { index: 32, kind: FieldKind::U8, name: "use item number" },
        PositionalField { index: 33, kind: FieldKind::U32, name: "sender action" },
        PositionalField { index: 34, kind: FieldKind::Text, name: "short description" },
        PositionalField { index: 35, kind: FieldKind::Text, name: "description" },
        PositionalField { index: 40, kind: FieldKind::U32, name: "target delay" },
        PositionalField { index: 45, kind: FieldKind::U8, name: "screen represent" },
        PositionalField { index: 46, kind: FieldKind::U8, name: "is usable in market" },
        PositionalField { index: 47, kind: FieldKind::U8, name: "is staggering" },
    ]
}

/// The skill that the tokens of a line hold, where every field can be read.
/// A switch is on where its token is the number one.
pub open spec fn magic_of_tokens(tokens: Seq<Seq<char>>) -> BaseMagicTypeEntryView {
    BaseMagicTypeEntryView {
        id: number_of(FieldKind::U32, tokens[0]) as u32,
        action_sort: number_of(FieldKind::U8, tokens[1]) as u8,
        skill_name: tokens[2],
        is_offensive_on_use: number_of(FieldKind::U8, tokens[3]) == 1,
        is_ground_targeted: number_of(FieldKind::U8, tokens[4]) == 1,
        is_multi_target: number_of(FieldKind::U8, tokens[5]) == 1,
        targets_flags: MagicTargetFlags::of_byte(number_of(FieldKind::U8, tokens[6]) as u8),
        requirements: MagicRequirements {
            job_required: number_of(FieldKind::U32, tokens[16]) as u32,
            xp_required: number_of(FieldKind::U64, tokens[17]) as u64,
            lvl_required: number_of(FieldKind::U8, tokens[18]) as u8,
            weapon_required: number_of(FieldKind::U16, tokens[20]) as u16,
            uses_item: number_of(FieldKind::U8, tokens[29]) as u8,
        },
        effects: MagicEffectsView {
            intone_effect: tokens[36],
            intone_sfx: tokens[37],
            sender_effect: tokens[38],
            sender_sfx: tokens[39],
            ground_effect: tokens[43],
            trace_effect: tokens[44],
            target_effect: tokens[41],
            target_sfx: tokens[42],
        },
        costs: MagicCosts {
            mp_cost: number_of(FieldKind::U16, tokens[8]) as u16,
            stamina_cost: number_of(FieldKind::U8, tokens[27]) as u8,
        },
        skill_lvl: number_of(FieldKind::U8, tokens[7]) as u8,
        power: number_of(FieldKind::I32, tokens[9]) as i32,
        intone_effect_duration: number_of(FieldKind::U32, tokens[10]) as u32,
        accuracy: number_of(FieldKind::U8, tokens[11]) as u8,
        time: number_of(FieldKind::U32, tokens[12]) as u32,
        range: number_of(FieldKind::U32, tokens[13]) as u32,
        max_distance: number_of(FieldKind::U8, tokens[14]) as u8,
        status: number_of(FieldKind::U64, tokens[15]) as u64,
        skill_type: number_of(FieldKind::U8, tokens[19]) as u8,
        active_time: number_of(FieldKind::U32, tokens[21]) as u32,
        auto_active: number_of(FieldKind::U16, tokens[22]) as u16,
        floor_attribute: number_of(FieldKind::U32, tokens[23]) as u32,
        is_auto_learned: number_of(FieldKind::U8, tokens[24]) == 1,
        auto_learn_lvl: number_of(FieldKind::U8, tokens[25]) as u8,
        drop_weapon: number_of(FieldKind::U32, tokens[26]) as u32,
        hits_with_weapon: number_of(FieldKind::U8, tokens[28]) as u8,
        next_skill_id_auto_cast: number_of(FieldKind::U32, tokens[30]) as u32,
        use_delay: number_of(FieldKind::U32, tokens[31]) as u32,
        use_item_num: number_of(FieldKind::U8, tokens[32]) as u8,
        sender_action: number_of(FieldKind::U32, tokens[33]) as u32,
        short_desc: tokens[34],
        desc: tokens[35],
        target_delay: number_of(FieldKind::U32, tokens[40]) as u32,
        screen_represent: number_of(FieldKind::U8, tokens[45]) == 1,
        is_usable_in_market: number_of(FieldKind::U8, tokens[46]) == 1,
        is_staggering: number_of(FieldKind::U8, tokens[47]) == 1,
    }
}

/// The values of the fields of a skill in the order in which the line holds
/// them. A switch is one where it is on, and zero where it is off.
pub open spec fn magic_values(v: BaseMagicTypeEntryView) -> Seq<Datum> {
    seq![
        Datum::Number(v.id as int),
        Datum::Number(v.action_sort as int),
        Datum::Text(v.skill_name),
        Datum::Number(if v.is_offensive_on_use { 1 } else { 0 }),
        Datum::Number(if v.is_ground_targeted { 1 } else { 0 }),
        Datum::Number(if v.is_multi_target { 1 } else { 0 }),
        Datum::Number(v.targets_flags.as_byte() as int),
        Datum::Number(v.skill_lvl as int),
        Datum::Number(v.costs.mp_cost as int),
        Datum::Number(v.power as int),
        Datum::Number(v.intone_effect_duration as int),
        Datum::Number(v.accuracy as int),
        Datum::Number(v.time as int),
        Datum::Number(v.range as int),
        Datum::Number(v.max_distance as int),
        Datum::Number(v.status as int),
        Datum::Number(v.requirements.job_required as int),
        Datum::Number(v.requirements.xp_required as int),
        Datum::Number(v.requirements.lvl_required as int),
        Datum::Number(v.skill_type as int),
        Datum::Number(v.requirements.weapon_required as int),
        Datum::Number(v.active_time as int),
        Datum::Number(v.auto_active as int),
        Datum::Number(v.floor_attribute as int),
        Datum::Number(if v.is_auto_learned { 1 } else { 0 }),
        Datum::Number(v.auto_learn_lvl as int),
        Datum::Number(v.drop_weapon as int),
        Datum::Number(v.costs.stamina_cost as int),
        Datum::Number(v.hits_with_weapon as int),
        Datum::Number(v.requirements.uses_item as int),
        Datum::Number(v.next_skill_id_auto_cast as int),
        Datum::Number(v.use_delay as int),
        Datum::Number(v.use_item_num as int),
        Datum::Number(v.sender_action as int),
        Datum::Text(v.short_desc),
        Datum::Text(v.desc),
        Datum::Text(v.effects.intone_effect),
        Datum::Text(v.effects.intone_sfx),
        Datum::Text(v.effects.sender_effect),
        Datum::Text(v.effects.sender_sfx),
        Datum::Number(v.target_delay as int),
        Datum::Text(v.effects.target_effect),
        Datum::Text(v.effects.target_sfx),
        Datum::Text(v.effects.ground_effect),
        Datum::Text(v.effects.trace_effect),
        Datum::Number(if v.screen_represent { 1 } else { 0 }),
        Datum::Number(if v.is_usable_in_market { 1 } else { 0 }),
        Datum::Number(if v.is_staggering { 1 } else { 0 }),
    ]
}

impl BaseMagicTypeEntry {
    /// The fields of a skill in the order in which they are read.
    pub fn layout() -> (fields: Vec<PositionalField>)
        ensures
            fields@ == magic_layout(),
            layout_fits(fields@, MAGIC_MIN_FIELDS as nat),
    {
        let fields = vec![
            PositionalField { index: 0, kind: FieldKind::U32, name: "id" },
            PositionalField { index: 1, kind: FieldKind::U8, name: "action sort" },
            PositionalField { index: 2, kind: FieldKind::Text, name: "skill name" },
            PositionalField { index: 3, kind: FieldKind::U8, name: "is offensive on use" },
            PositionalField { index: 4, kind: FieldKind::U8, name: "is ground targeted" },
            PositionalField { index: 5, kind: FieldKind::U8, name: "is multi target" },
            PositionalField { index: 6, kind: FieldKind::U8, name: "target flags" },
            PositionalField { index: 8, kind: FieldKind::U16, name: "mp cost" },
            PositionalField { index: 27, kind: FieldKind::U8, name: "stamina cost" },
            PositionalField { index: 16, kind: FieldKind::U32, name: "job required" },
            PositionalField { index: 17, kind: FieldKind::U64, name: "xp required" },
            PositionalField { index: 18, kind: FieldKind::U8, name: "level required" },
            PositionalField { index: 20, kind: FieldKind::U16, name: "weapon required" },
            PositionalField { index: 29, kind: FieldKind::U8, name: "uses item" },
            PositionalField { index: 36, kind: FieldKind::Text, name: "intone effect" },
            PositionalField { index: 37, kind: FieldKind::Text, name: "intone sound" },
            PositionalField { index: 38, kind: FieldKind::Text, name: "sender effect" },
            PositionalField { index: 39, kind: FieldKind::Text, name: "sender sound" },
            PositionalField { index: 41, kind: FieldKind::Text, name: "target effect" },
            PositionalField { index: 42, kind: FieldKind::Text, name: "target sound" },
            PositionalField { index: 43, kind: FieldKind::Text, name: "ground effect" },
            PositionalField { index: 44, kind: FieldKind::Text, name: "trace effect" },
            PositionalField { index: 7, kind: FieldKind::U8, name: "skill lvl" },
            PositionalField { index: 9, kind: FieldKind::I32, name: "power" },
            PositionalField { index: 10, kind: FieldKind::U32, name: "intone effect duration" },
            PositionalField { index: 11, kind: FieldKind::U8, name: "accuracy" },
            PositionalField { index: 12, kind: FieldKind::U32, name: "time" },
            PositionalField { index: 13, kind: FieldKind::U32, name: "range" },
            PositionalField { index: 14, kind: FieldKind::U8, name: "max distance" },
            PositionalField { index: 15, kind: FieldKind::U64, name: "status" },
            PositionalField { index: 19, kind: FieldKind::U8, name: "skill type" },
            PositionalField { index: 21, kind: FieldKind::U32, name: "active time" },
            PositionalField { index: 22, kind: FieldKind::U16, name: "auto active" },
            PositionalField { index: 23, kind: FieldKind::U32, name: "floor attribute" },
            PositionalField { index: 24, kind: FieldKind::U8, name: "auto learned" },
            PositionalField { index: 25, kind: FieldKind::U8, name: "auto learn level" },
            PositionalField { index: 26, kind: FieldKind::U32, name: "drop weapon" },
            PositionalField { index: 28, kind: FieldKind::U8, name: "hits with weapon" },
            PositionalField { index: 30, kind: FieldKind::U32, name: "next skill id (auto casted)" },
            PositionalField { index: 31, kind: FieldKind::U32, name: "use delay" },
            PositionalField { index: 32, kind: FieldKind::U8, name: "use item number" },
            PositionalField { index: 33, kind: FieldKind::U32, name: "sender action" },
            PositionalField { index: 34, kind: FieldKind::Text, name: "short description" },
            PositionalField { index: 35, kind: FieldKind::Text, name: "description" },
            PositionalField { index: 40, kind: FieldKind::U32, name: "target delay" },
            PositionalField { index: 45, kind: FieldKind::U8, name: "screen represent" },
            PositionalField { index: 46, kind: FieldKind::U8, name: "is usable in market" },
            PositionalField { index: 47, kind: FieldKind::U8, name: "is staggering" },
        ];
        assert(fields@ =~= magic_layout());
        fields
    }

    /// The values of the fields in the order in which the line holds them.
    pub fn field_values(&self) -> (values: Vec<FieldValue>)
        ensures
            data(values@) == magic_values(self@),
    {
        let values = vec![
            FieldValue::Number(self.id as i128),
            FieldValue::Number(self.action_sort as i128),
            FieldValue::Text(self.skill_name.clone()),
            FieldValue::Number(if self.is_offensive_on_use { 1 } else { 0 }),
            FieldValue::Number(if self.is_ground_targeted { 1 } else { 0 }),
            FieldValue::Number(if self.is_multi_target { 1 } else { 0 }),
            FieldValue::Number(self.targets_flags.get_as_byte() as i128),
            FieldValue::Number(self.skill_lvl as i128),
            FieldValue::Number(self.costs.mp_cost as i128),
            FieldValue::Number(self.power as i128),
            FieldValue::Number(self.intone_effect_duration as i128),
            FieldValue::Number(self.accuracy as i128),
            FieldValue::Number(self.time as i128),
            FieldValue::Number(self.range as i128),
            FieldValue::Number(self.max_distance as i128),
            FieldValue::Number(self.status as i128),
            FieldValue::Number(self.requirements.job_required as i128),
            FieldValue::Number(self.requirements.xp_required as i128),
            FieldValue::Number(self.requirements.lvl_required as i128),
            FieldValue::Number(self.skill_type as i128),
            FieldValue::Number(self.requirements.weapon_required as i128),
            FieldValue::Number(self.active_time as i128),
            FieldValue::Number(self.auto_active as i128),
            FieldValue::Number(self.floor_attribute as i128),
            FieldValue::Number(if self.is_auto_learned { 1 } else { 0 }),
            FieldValue::Number(self.auto_learn_lvl as i128),
            FieldValue::Number(self.drop_weapon as i128),
            FieldValue::Number(self.costs.stamina_cost as i128),
            FieldValue::Number(self.hits_with_weapon as i128),
            FieldValue::Number(self.requirements.uses_item as i128),
            FieldValue::Number(self.next_skill_id_auto_cast as i128),
            FieldValue::Number(self.use_delay as i128),
            FieldValue::Number(self.use_item_num as i128),
            FieldValue::Number(self.sender_action as i128),
            FieldValue::Text(self.short_desc.clone()),
            FieldValue::Text(self.desc.clone()),
            FieldValue::Text(self.effects.intone_effect.clone()),
            FieldValue::Text(self.effects.intone_sfx.clone()),
            FieldValue::Text(self.effects.sender_effect.clone()),
            FieldValue::Text(self.effects.sender_sfx.clone()),
            FieldValue::Number(self.target_delay as i128),
            FieldValue::Text(self.effects.target_effect.clone()),
            FieldValue::Text(self.effects.target_sfx.clone()),
            FieldValue::Text(self.effects.ground_effect.clone()),
            FieldValue::Text(self.effects.trace_effect.clone()),
            FieldValue::Number(if self.screen_represent { 1 } else { 0 }),
            FieldValue::Number(if self.is_usable_in_market { 1 } else { 0 }),
            FieldValue::Number(if self.is_staggering { 1 } else { 0 }),
        ];
        assert(data(values@) =~= magic_values(self@));
        values
    }
}

impl SpaceSeparatedParseable<BaseMagicTypeEntry> for BaseMagicTypeEntry {
    /// Too few tokens and the first field that cannot be read are reported
    /// as [`line_outcome`] says; else the skill is that of the tokens.
    open spec fn line_result(
        tokens: Seq<Seq<char>>,
        r: Result<BaseMagicTypeEntry, SpaceSeparatedParserError>,
    ) -> bool {
        match r {
            Ok(entry) => line_outcome(tokens, magic_layout(), MAGIC_MIN_FIELDS as nat) is Ok
                && entry@ == magic_of_tokens(tokens),
            Err(e) => line_outcome(tokens, magic_layout(), MAGIC_MIN_FIELDS as nat) == Err::<
                Seq<Datum>,
                LineFault,
            >(e@),
        }
    }

    fn from_line(line: &String) -> (r: Result<BaseMagicTypeEntry, SpaceSeparatedParserError>) {
        let layout = BaseMagicTypeEntry::layout();
        let values = match read_line(line, &layout, MAGIC_MIN_FIELDS) {
            Ok(values) => values,
            Err(e) => {
                return Err(e);
            },
        };
        proof {
            reveal(number_of);
        }
        Ok(BaseMagicTypeEntry {
            id: values[0].as_number() as u32,
            action_sort: values[1].as_number() as u8,
            skill_name: values[2].as_text(),
            is_offensive_on_use: values[3].as_number() == 1,
            is_ground_targeted: values[4].as_number() == 1,
            is_multi_target: values[5].as_number() == 1,
            targets_flags: MagicTargetFlags::from_byte(&(values[6].as_number() as u8)),
            requirements: MagicRequirements {
                job_required: values[9].as_number() as u32,
                xp_required: values[10].as_number() as u64,
                lvl_required: values[11].as_number() as u8,
                weapon_required: values[12].as_number() as u16,
                uses_item: values[13].as_number() as u8,
            },
            effects: MagicEffects {
                intone_effect: values[14].as_text(),
                intone_sfx: values[15].as_text(),
                sender_effect: values[16].as_text(),
                sender_sfx: values[17].as_text(),
                ground_effect: values[20].as_text(),
                trace_effect: values[21].as_text(),
                target_effect: values[18].as_text(),
                target_sfx: values[19].as_text(),
            },
            costs: MagicCosts {
                mp_cost: values[7].as_number() as u16,
                stamina_cost: values[8].as_number() as u8,
            },
            skill_lvl: values[22].as_number() as u8,
            power: values[23].as_number() as i32,
            intone_effect_duration: values[24].as_number() as u32,
            accuracy: values[25].as_number() as u8,
            time: values[26].as_number() as u32,
            range: values[27].as_number() as u32,
            max_distance: values[28].as_number() as u8,
            status: values[29].as_number() as u64,
            skill_type: values[30].as_number() as u8,
            active_time: values[31].as_number() as u32,
            auto_active: values[32].as_number() as u16,
            floor_attribute: values[33].as_number() as u32,
            is_auto_learned: values[34].as_number() == 1,
            auto_learn_lvl: values[35].as_number() as u8,
            drop_weapon: values[36].as_number() as u32,
            hits_with_weapon: values[37].as_number() as u8,
            next_skill_id_auto_cast: values[38].as_number() as u32,
            use_delay: values[39].as_number() as u32,
            use_item_num: values[40].as_number() as u8,
            sender_action: values[41].as_number() as u32,
            short_desc: values[42].as_text(),
            desc: values[43].as_text(),
            target_delay: values[44].as_number() as u32,
            screen_represent: values[45].as_number() == 1,
            is_usable_in_market: values[46].as_number() == 1,
            is_staggering: values[47].as_number() == 1,
        })
    }
}

impl StringSerializableStructure for BaseMagicTypeEntry {
    /// The values of the fields, in the order of the line, joined by single
    /// spaces.
    open spec fn serialized(&self) -> Seq<char> {
        spaced(data_texts(magic_values(self@)))
    }

    fn serialize(&self) -> (s: String) {
        write_line(&self.field_values())
    }
}

/// Whether the texts of a skill are words, so that each is one token of the
/// line.
pub open spec fn magic_texts_are_words(v: BaseMagicTypeEntryView) -> bool {
    is_word(v.skill_name) && is_word(v.short_desc) && is_word(v.desc) && is_word(v.effects.intone_effect) && is_word(v.effects.intone_sfx) && is_word(v.effects.sender_effect) && is_word(v.effects.sender_sfx) && is_word(v.effects.target_effect) && is_word(v.effects.target_sfx) && is_word(v.effects.ground_effect) && is_word(v.effects.trace_effect)
}

/// The line of a skill has a token for every field and no token that no field
/// reads: each position below the minimum is read by exactly one field, so
/// that the minimum is one more than the highest position read.
pub proof fn magic_layout_is_exact()
    ensures
        magic_layout().len() == MAGIC_MIN_FIELDS,
        layout_fits(magic_layout(), MAGIC_MIN_FIELDS as nat),
        forall|j: int, k: int|
            0 <= j < k < magic_layout().len() ==> (#[trigger] magic_layout()[j]).index != (
            #[trigger] magic_layout()[k]).index,
        exists|k: int| 0 <= k < magic_layout().len() && (#[trigger] magic_layout()[k]).index == MAGIC_MIN_FIELDS - 1,
{
    assert(magic_layout()[MAGIC_MIN_FIELDS - 1].index == MAGIC_MIN_FIELDS - 1);
}

/// In the line of a skill that can be read, replacing the token of any one
/// field by a text that is no value of the field's type makes the reading
/// fail with the name of exactly that field.
pub proof fn magic_cast_failure_is_local(tokens: Seq<Seq<char>>, k: int, bad: Seq<char>)
    requires
        line_outcome(tokens, magic_layout(), MAGIC_MIN_FIELDS as nat) is Ok,
        0 <= k < magic_layout().len(),
        magic_layout()[k].kind.reads(bad) is None,
    ensures
        line_outcome(tokens.update(magic_layout()[k].index as int, bad), magic_layout(), MAGIC_MIN_FIELDS as nat) == Err::<
            Seq<Datum>,
            LineFault,
        >(LineFault::InvalidCast(magic_layout()[k].name@)),
{
    magic_layout_is_exact();
    cast_failure_is_local(tokens, magic_layout(), MAGIC_MIN_FIELDS as nat, k, bad);
}

/// The texts of the values of a skill, one by one.
proof fn entry_own_texts(v: BaseMagicTypeEntryView)
    ensures
        ({
            let tokens = data_texts(magic_values(v));
            &&& tokens.len() == 48
            &&& tokens[0] == decimal_text(v.id as int)
            &&& tokens[1] == decimal_text(v.action_sort as int)
            &&& tokens[2] == v.skill_name
            &&& tokens[3] == decimal_text(if v.is_offensive_on_use { 1int } else { 0int })
            &&& tokens[4] == decimal_text(if v.is_ground_targeted { 1int } else { 0int })
            &&& tokens[5] == decimal_text(if v.is_multi_target { 1int } else { 0int })
            &&& tokens[6] == decimal_text(v.targets_flags.as_byte() as int)
            &&& tokens[7] == decimal_text(v.skill_lvl as int)
            &&& tokens[8] == decimal_text(v.costs.mp_cost as int)
            &&& tokens[9] == decimal_text(v.power as int)
            &&& tokens[10] == decimal_text(v.intone_effect_duration as int)
            &&& tokens[11] == decimal_text(v.accuracy as int)
            &&& tokens[12] == decimal_text(v.time as int)
            &&& tokens[13] == decimal_text(v.range as int)
            &&& tokens[14] == decimal_text(v.max_distance as int)
            &&& tokens[15] == decimal_text(v.status as int)
            &&& tokens[16] == decimal_text(v.requirements.job_required as int)
            &&& tokens[17] == decimal_text(v.requirements.xp_required as int)
            &&& tokens[18] == decimal_text(v.requirements.lvl_required as int)
            &&& tokens[19] == decimal_text(v.skill_type as int)
            &&& tokens[20] == decimal_text(v.requirements.weapon_required as int)
            &&& tokens[21] == decimal_text(v.active_time as int)
            &&& tokens[22] == decimal_text(v.auto_active as int)
            &&& tokens[23] == decimal_text(v.floor_attribute as int)
            &&& tokens[24] == decimal_text(if v.is_auto_learned { 1int } else { 0int })
            &&& tokens[25] == decimal_text(v.auto_learn_lvl as int)
            &&& tokens[26] == decimal_text(v.drop_weapon as int)
            &&& tokens[27] == decimal_text(v.costs.stamina_cost as int)
            &&& tokens[28] == decimal_text(v.hits_with_weapon as int)
            &&& tokens[29] == decimal_text(v.requirements.uses_item as int)
            &&& tokens[30] == decimal_text(v.next_skill_id_auto_cast as int)
            &&& tokens[31] == decimal_text(v.use_delay as int)
            &&& tokens[32] == decimal_text(v.use_item_num as int)
            &&& tokens[33] == decimal_text(v.sender_action as int)
            &&& tokens[34] == v.short_desc
            &&& tokens[35] == v.desc
            &&& tokens[36] == v.effects.intone_effect
            &&& tokens[37] == v.effects.intone_sfx
            &&& tokens[38] == v.effects.sender_effect
            &&& tokens[39] == v.effects.sender_sfx
            &&& tokens[40] == decimal_text(v.target_delay as int)
            &&& tokens[41] == v.effects.target_effect
            &&& tokens[42] == v.effects.target_sfx
            &&& tokens[43] == v.effects.ground_effect
            &&& tokens[44] == v.effects.trace_effect
            &&& tokens[45] == decimal_text(if v.screen_represent { 1int } else { 0int })
            &&& tokens[46] == decimal_text(if v.is_usable_in_market { 1int } else { 0int })
            &&& tokens[47] == decimal_text(if v.is_staggering { 1int } else { 0int })
        }),
{
    let values = magic_values(v);
    let tokens = data_texts(values);
    assert(tokens[0] == datum_text(values[0]));
    assert(tokens[1] == datum_text(values[1]));
    assert(tokens[2] == datum_text(values[2]));
    assert(tokens[3] == datum_text(values[3]));
    assert(tokens[4] == datum_text(values[4]));
    assert(tokens[5] == datum_text(values[5]));
    assert(tokens[6] == datum_text(values[6]));
    assert(tokens[7] == datum_text(values[7]));
    assert(tokens[8] == datum_text(values[8]));
    assert(tokens[9] == datum_text(values[9]));
    assert(tokens[10] == datum_text(values[10]));
    assert(tokens[11] == datum_text(values[11]));
    assert(tokens[12] == datum_text(values[12]));
    assert(tokens[13] == datum_text(values[13]));
    assert(tokens[14] == datum_text(values[14]));
    assert(tokens[15] == datum_text(values[15]));
    assert(tokens[16] == datum_text(values[16]));
    assert(tokens[17] == datum_text(values[17]));
    assert(tokens[18] == datum_text(values[18]));
    assert(tokens[19] == datum_text(values[19]));
    assert(tokens[20] == datum_text(values[20]));
    assert(tokens[21] == datum_text(values[21]));
    assert(tokens[22] == datum_text(values[22]));
    assert(tokens[23] == datum_text(values[23]));
    assert(tokens[24] == datum_text(values[24]));
    assert(tokens[25] == datum_text(values[25]));
    assert(tokens[26] == datum_text(values[26]));
    assert(tokens[27] == datum_text(values[27]));
    assert(tokens[28] == datum_text(values[28]));
    assert(tokens[29] == datum_text(values[29]));
    assert(tokens[30] == datum_text(values[30]));
    assert(tokens[31] == datum_text(values[31]));
    assert(tokens[32] == datum_text(values[32]));
    assert(tokens[33] == datum_text(values[33]));
    assert(tokens[34] == datum_text(values[34]));
    assert(tokens[35] == datum_text(values[35]));
    assert(tokens[36] == datum_text(values[36]));
    assert(tokens[37] == datum_text(values[37]));
    assert(tokens[38] == datum_text(values[38]));
    assert(tokens[39] == datum_text(values[39]));
    assert(tokens[40] == datum_text(values[40]));
    assert(tokens[41] == datum_text(values[41]));
    assert(tokens[42] == datum_text(values[42]));
    assert(tokens[43] == datum_text(values[43]));
    assert(tokens[44] == datum_text(values[44]));
    assert(tokens[45] == datum_text(values[45]));
    assert(tokens[46] == datum_text(values[46]));
    assert(tokens[47] == datum_text(values[47]));
}

/// Tokens that are the texts of the fields of a skill, read field by field,
/// give it back.
proof fn entry_of_texts(v: BaseMagicTypeEntryView, tokens: Seq<Seq<char>>)
    requires
        tokens[0] == decimal_text(v.id as int),
        tokens[1] == decimal_text(v.action_sort as int),
        tokens[2] == v.skill_name,
        tokens[3] == decimal_text(if v.is_offensive_on_use { 1int } else { 0int }),
        tokens[4] == decimal_text(if v.is_ground_targeted { 1int } else { 0int }),
        tokens[5] == decimal_text(if v.is_multi_target { 1int } else { 0int }),
        tokens[6] == decimal_text(v.targets_flags.as_byte() as int),
        tokens[7] == decimal_text(v.skill_lvl as int),
        tokens[8] == decimal_text(v.costs.mp_cost as int),
        tokens[9] == decimal_text(v.power as int),
        tokens[10] == decimal_text(v.intone_effect_duration as int),
        tokens[11] == decimal_text(v.accuracy as int),
        tokens[12] == decimal_text(v.time as int),
        tokens[13] == decimal_text(v.range as int),
        tokens[14] == decimal_text(v.max_distance as int),
        tokens[15] == decimal_text(v.status as int),
        tokens[16] == decimal_text(v.requirements.job_required as int),
        tokens[17] == decimal_text(v.requirements.xp_required as int),
        tokens[18] == decimal_text(v.requirements.lvl_required as int),
        tokens[19] == decimal_text(v.skill_type as int),
        tokens[20] == decimal_text(v.requirements.weapon_required as int),
        tokens[21] == decimal_text(v.active_time as int),
        tokens[22] == decimal_text(v.auto_active as int),
        tokens[23] == decimal_text(v.floor_attribute as int),
        tokens[24] == decimal_text(if v.is_auto_learned { 1int } else { 0int }),
        tokens[25] == decimal_text(v.auto_learn_lvl as int),
        tokens[26] == decimal_text(v.drop_weapon as int),
        tokens[27] == decimal_text(v.costs.stamina_cost as int),
        tokens[28] == decimal_text(v.hits_with_weapon as int),
        tokens[29] == decimal_text(v.requirements.uses_item as int),
        tokens[30] == decimal_text(v.next_skill_id_auto_cast as int),
        tokens[31] == decimal_text(v.use_delay as int),
        tokens[32] == decimal_text(v.use_item_num as int),
        tokens[33] == decimal_text(v.sender_action as int),
        tokens[34] == v.short_desc,
        tokens[35] == v.desc,
        tokens[36] == v.effects.intone_effect,
        tokens[37] == v.effects.intone_sfx,
        tokens[38] == v.effects.sender_effect,
        tokens[39] == v.effects.sender_sfx,
        tokens[40] == decimal_text(v.target_delay as int),
        tokens[41] == v.effects.target_effect,
        tokens[42] == v.effects.target_sfx,
        tokens[43] == v.effects.ground_effect,
        tokens[44] == v.effects.trace_effect,
        tokens[45] == decimal_text(if v.screen_represent { 1int } else { 0int }),
        tokens[46] == decimal_text(if v.is_usable_in_market { 1int } else { 0int }),
        tokens[47] == decimal_text(if v.is_staggering { 1int } else { 0int }),
    ensures
        magic_of_tokens(tokens) == v,
{
    target_flags_round_trip(v.targets_flags);
    number_round_trip(FieldKind::U32, v.id as int);
    number_round_trip(FieldKind::U8, v.action_sort as int);
    number_round_trip(FieldKind::U8, if v.is_offensive_on_use { 1int } else { 0int });
    number_round_trip(FieldKind::U8, if v.is_ground_targeted { 1int } else { 0int });
    number_round_trip(FieldKind::U8, if v.is_multi_target { 1int } else { 0int });
    number_round_trip(FieldKind::U8, v.targets_flags.as_byte() as int);
    number_round_trip(FieldKind::U8, v.skill_lvl as int);
    number_round_trip(FieldKind::U16, v.costs.mp_cost as int);
    number_round_trip(FieldKind::I32, v.power as int);
    number_round_trip(FieldKind::U32, v.intone_effect_duration as int);
    number_round_trip(FieldKind::U8, v.accuracy as int);
    number_round_trip(FieldKind::U32, v.time as int);
    number_round_trip(FieldKind::U32, v.range as int);
    number_round_trip(FieldKind::U8, v.max_distance as int);
    number_round_trip(FieldKind::U64, v.status as int);
    number_round_trip(FieldKind::U32, v.requirements.job_required as int);
    number_round_trip(FieldKind::U64, v.requirements.xp_required as int);
    number_round_trip(FieldKind::U8, v.requirements.lvl_required as int);
    number_round_trip(FieldKind::U8, v.skill_type as int);
    number_round_trip(FieldKind::U16, v.requirements.weapon_required as int);
    number_round_trip(FieldKind::U32, v.active_time as int);
    number_round_trip(FieldKind::U16, v.auto_active as int);
    number_round_trip(FieldKind::U32, v.floor_attribute as int);
    number_round_trip(FieldKind::U8, if v.is_auto_learned { 1int } else { 0int });
    number_round_trip(FieldKind::U8, v.auto_learn_lvl as int);
    number_round_trip(FieldKind::U32, v.drop_weapon as int);
    number_round_trip(FieldKind::U8, v.costs.stamina_cost as int);
    number_round_trip(FieldKind::U8, v.hits_with_weapon as int);
    number_round_trip(FieldKind::U8, v.requirements.uses_item as int);
    number_round_trip(FieldKind::U32, v.next_skill_id_auto_cast as int);
    number_round_trip(FieldKind::U32, v.use_delay as int);
    number_round_trip(FieldKind::U8, v.use_item_num as int);
    number_round_trip(FieldKind::U32, v.sender_action as int);
    number_round_trip(FieldKind::U32, v.target_delay as int);
    number_round_trip(FieldKind::U8, if v.screen_represent { 1int } else { 0int });
    number_round_trip(FieldKind::U8, if v.is_usable_in_market { 1int } else { 0int });
    number_round_trip(FieldKind::U8, if v.is_staggering { 1int } else { 0int });
    let w = magic_of_tokens(tokens);
    assert(w.requirements == v.requirements);
    assert(w.effects == v.effects);
    assert(w.costs == v.costs);
}

/// Reading the line of a skill gives it back, where its texts are words.
pub proof fn magic_round_trip(entry: BaseMagicTypeEntry)
    requires
        magic_texts_are_words(entry@),
    ensures
        words(entry.serialized()) == data_texts(magic_values(entry@)),
        line_outcome(words(entry.serialized()), magic_layout(), MAGIC_MIN_FIELDS as nat) is Ok,
        magic_of_tokens(words(entry.serialized())) == entry@,
        forall|r: Result<BaseMagicTypeEntry, SpaceSeparatedParserError>|
            BaseMagicTypeEntry::line_result(words(entry.serialized()), r) ==> r is Ok && r->Ok_0@ == entry@,
{
    let values = magic_values(entry@);
    target_flags_round_trip(entry@.targets_flags);
    assert forall|i: int| 0 <= i < values.len() implies is_word(datum_text(#[trigger] values[i])) by {
        match values[i] {
            Datum::Number(n) => {
                decimal_text_is_word(n);
            },
            Datum::Text(_) => {},
        }
    }
    line_round_trip(values, magic_layout(), MAGIC_MIN_FIELDS as nat);
    entry_own_texts(entry@);
    entry_of_texts(entry@, data_texts(values));
}

} // verus!

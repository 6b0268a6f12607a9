use crate::decimal::decimal_text;
use crate::laws::{
    first_failing_is_least, number_round_trip, section_reading_ignores_order, value_round_trip,
};
use crate::parser::{
    data, number_of, section_chosen, section_outcome, Datum, FieldKind, FieldValue,
    IniEntryParseable, IniEntryParser, IniEntryParserError, KeyedField, Section, SectionFault,
};
use crate::serializer::{
    data_texts, datum_text, keys, section_text, write_section, StringSerializableStructure,
};
use vstd::prelude::*;

verus! {

/// One monster of the monster table.
#[derive(Debug, PartialEq, Eq)]
pub struct BaseMonster {
    pub name: String,
    pub size_add: u8,
    pub zoom_pct: u16,
    pub max_life: u32,
    pub lvl: u16,
    pub born_action: u16,
    pub act_res_ctrl: u8,
    pub asb: u8,
    pub adb: u8,
    pub body_type: u8,
    pub type_id: String,
    pub anti_type: u8,
    pub armet: u8,
    pub armet_color: u8,
    pub r_weapon: u8,
    pub l_weapon: u8,
    pub l_weapon_color: u8,
    pub misc: u8,
    pub mount: u8,
    pub battle_lvl: u8,
    pub extra_xp: u8,
    pub stc_type: u8,
    pub born_effect: String,
    pub born_sound: String,
}

/// The mathematical form of a [`BaseMonster`].
pub struct BaseMonsterView {
    pub name: Seq<char>,
    pub size_add: u8,
    pub zoom_pct: u16,
    pub max_life: u32,
    pub lvl: u16,
    pub born_action: u16,
    pub act_res_ctrl: u8,
    pub asb: u8,
    pub adb: u8,
    pub body_type: u8,
    pub type_id: Seq<char>,
    pub anti_type: u8,
    pub armet: u8,
    pub armet_color: u8,
    pub r_weapon: u8,
    pub l_weapon: u8,
    pub l_weapon_color: u8,
    pub misc: u8,
    pub mount: u8,
    pub battle_lvl: u8,
    pub extra_xp: u8,
    pub stc_type: u8,
    pub born_effect: Seq<char>,
    pub born_sound: Seq<char>,
}

impl View for BaseMonster {
    type V = BaseMonsterView;

    open spec fn view(&self) -> BaseMonsterView {
        BaseMonsterView {
            name: self.name@,
            size_add: self.size_add,
            zoom_pct: self.zoom_pct,
            max_life: self.max_life,
            lvl: self.lvl,
            born_action: self.born_action,
            act_res_ctrl: self.act_res_ctrl,
            asb: self.asb,
            adb: self.adb,
            body_type: self.body_type,
            type_id: self.type_id@,
            anti_type: self.anti_type,
            armet: self.armet,
            armet_color: self.armet_color,
            r_weapon: self.r_weapon,
            l_weapon: self.l_weapon,
            l_weapon_color: self.l_weapon_color,
            misc: self.misc,
            mount: self.mount,
            battle_lvl: self.battle_lvl,
            extra_xp: self.extra_xp,
            stc_type: self.stc_type,
            born_effect: self.born_effect@,
            born_sound: self.born_sound@,
        }
    }
}

/// The fields of a monster in the order in which they are read and written,
/// each with its key. The name of the monster is the name of the section.
pub open spec fn monster_layout() -> Seq<KeyedField> {
    seq![
        KeyedField { key: "SizeAdd", kind: FieldKind::U8 },
        KeyedField { key: "ZoomPercent", kind: FieldKind::U16 },
        KeyedField { key: "MaxLife", kind: FieldKind::U32 },
        KeyedField { key: "Level", kind: FieldKind::U16 },
        KeyedField { key: "BornAction", kind: FieldKind::U16 },
        KeyedField { key: "ActResCtrl", kind: FieldKind::U8 },
        KeyedField { key: "ASB", kind: FieldKind::U8 },
        KeyedField { key: "ADB", kind: FieldKind::U8 },
        KeyedField { key: "BodyType", kind: FieldKind::U8 },
        KeyedField { key: "TypeID", kind: FieldKind::Text },
        KeyedField { key: "AntiType", kind: FieldKind::U8 },
        KeyedField { key: "Armet", kind: FieldKind::U8 },
        KeyedField { key: "ArmetColor", kind: FieldKind::U8 },
        KeyedField { key: "RWeapon", kind: FieldKind::U8 },
        KeyedField { key: "LWeapon", kind: FieldKind::U8 },
        KeyedField { key: "LWeaponColor", kind: FieldKind::U8 },
        KeyedField { key: "Misc", kind: FieldKind::U8 },
        KeyedField { key: "Mount", kind: FieldKind::U8 },
        KeyedField { key: "BattleLev", kind: FieldKind::U8 },
        KeyedField { key: "ExtraExp", kind: FieldKind::U8 },
        KeyedField { key: "StcType", kind: FieldKind::U8 },
        KeyedField { key: "BornEffect", kind: FieldKind::Text },
        KeyedField { key: "BornSound", kind: FieldKind::Text },
    ]
}

/// The monster that a section holds, where every field can be read.
pub open spec fn monster_of_section(section: Section) -> BaseMonsterView {
    BaseMonsterView {
        name: section.name,
        size_add: number_of(FieldKind::U8, section.values["SizeAdd"@]) as u8,
        zoom_pct: number_of(FieldKind::U16, section.values["ZoomPercent"@]) as u16,
        max_life: number_of(FieldKind::U32, section.values["MaxLife"@]) as u32,
        lvl: number_of(FieldKind::U16, section.values["Level"@]) as u16,
        born_action: number_of(FieldKind::U16, section.values["BornAction"@]) as u16,
        act_res_ctrl: number_of(FieldKind::U8, section.values["ActResCtrl"@]) as u8,
        asb: number_of(FieldKind::U8, section.values["ASB"@]) as u8,
        adb: number_of(FieldKind::U8, section.values["ADB"@]) as u8,
        body_type: number_of(FieldKind::U8, section.values["BodyType"@]) as u8,
        type_id: section.values["TypeID"@],
        anti_type: number_of(FieldKind::U8, section.values["AntiType"@]) as u8,
        armet: number_of(FieldKind::U8, section.values["Armet"@]) as u8,
        armet_color: number_of(FieldKind::U8, section.values["ArmetColor"@]) as u8,
        r_weapon: number_of(FieldKind::U8, section.values["RWeapon"@]) as u8,
        l_weapon: number_of(FieldKind::U8, section.values["LWeapon"@]) as u8,
        l_weapon_color: number_of(FieldKind::U8, section.values["LWeaponColor"@]) as u8,
        misc: number_of(FieldKind::U8, section.values["Misc"@]) as u8,
        mount: number_of(FieldKind::U8, section.values["Mount"@]) as u8,
        battle_lvl: number_of(FieldKind::U8, section.values["BattleLev"@]) as u8,
        extra_xp: number_of(FieldKind::U8, section.values["ExtraExp"@]) as u8,
        stc_type: number_of(FieldKind::U8, section.values["StcType"@]) as u8,
        born_effect: section.values["BornEffect"@],
        born_sound: section.values["BornSound"@],
    }
}

/// The values of the fields of a monster, in the order of
/// [`monster_layout`].
pub open spec fn monster_values(v: BaseMonsterView) -> Seq<Datum> {
    seq![
        Datum::Number(v.size_add as int),
        Datum::Number(v.zoom_pct as int),
        Datum::Number(v.max_life as int),
        Datum::Number(v.lvl as int),
        Datum::Number(v.born_action as int),
        Datum::Number(v.act_res_ctrl as int),
        Datum::Number(v.asb as int),
        Datum::Number(v.adb as int),
        Datum::Number(v.body_type as int),
        Datum::Text(v.type_id),
        Datum::Number(v.anti_type as int),
        Datum::Number(v.armet as int),
        Datum::Number(v.armet_color as int),
        Datum::Number(v.r_weapon as int),
        Datum::Number(v.l_weapon as int),
        Datum::Number(v.l_weapon_color as int),
        Datum::Number(v.misc as int),
        Datum::Number(v.mount as int),
        Datum::Number(v.battle_lvl as int),
        Datum::Number(v.extra_xp as int),
        Datum::Number(v.stc_type as int),
        Datum::Text(v.born_effect),
        Datum::Text(v.born_sound),
    ]
}

/// What reading a monster from `section` gives: the report of the first
/// field that cannot be read, or else the monster of the section.
pub open spec fn monster_outcome(section: Section) -> Result<BaseMonsterView, SectionFault> {
    match section_outcome(section, monster_layout()) {
        Ok(_) => Ok(monster_of_section(section)),
        Err(fault) => Err(fault),
    }
}

impl BaseMonster {
    /// The fields of a monster in the order in which they are read and
    /// written.
    pub fn layout() -> (fields: Vec<KeyedField>)
        ensures
            fields@ == monster_layout(),
    {
        let fields = vec![
            KeyedField { key: "SizeAdd", kind: FieldKind::U8 },
            KeyedField { key: "ZoomPercent", kind: FieldKind::U16 },
            KeyedField { key: "MaxLife", kind: FieldKind::U32 },
            KeyedField { key: "Level", kind: FieldKind::U16 },
            KeyedField { key: "BornAction", kind: FieldKind::U16 },
            KeyedField { key: "ActResCtrl", kind: FieldKind::U8 },
            KeyedField { key: "ASB", kind: FieldKind::U8 },
            KeyedField { key: "ADB", kind: FieldKind::U8 },
            KeyedField { key: "BodyType", kind: FieldKind::U8 },
            KeyedField { key: "TypeID", kind: FieldKind::Text },
            KeyedField { key: "AntiType", kind: FieldKind::U8 },
            KeyedField { key: "Armet", kind: FieldKind::U8 },
            KeyedField { key: "ArmetColor", kind: FieldKind::U8 },
            KeyedField { key: "RWeapon", kind: FieldKind::U8 },
            KeyedField { key: "LWeapon", kind: FieldKind::U8 },
            KeyedField { key: "LWeaponColor", kind: FieldKind::U8 },
            KeyedField { key: "Misc", kind: FieldKind::U8 },
            KeyedField { key: "Mount", kind: FieldKind::U8 },
            KeyedField { key: "BattleLev", kind: FieldKind::U8 },
            KeyedField { key: "ExtraExp", kind: FieldKind::U8 },
            KeyedField { key: "StcType", kind: FieldKind::U8 },
            KeyedField { key: "BornEffect", kind: FieldKind::Text },
            KeyedField { key: "BornSound", kind: FieldKind::Text },
        ];
        assert(fields@ =~= monster_layout());
        fields
    }

    /// The values of the fields, in the order of the layout.
    pub fn field_values(&self) -> (values: Vec<FieldValue>)
        ensures
            data(values@) == monster_values(self@),
    {
        let values = vec![
            FieldValue::Number(self.size_add as i128),
            FieldValue::Number(self.zoom_pct as i128),
            FieldValue::Number(self.max_life as i128),
            FieldValue::Number(self.lvl as i128),
            FieldValue::Number(self.born_action as i128),
            FieldValue::Number(self.act_res_ctrl as i128),
            FieldValue::Number(self.asb as i128),
            FieldValue::Number(self.adb as i128),
            FieldValue::Number(self.body_type as i128),
            FieldValue::Text(self.type_id.clone()),
            FieldValue::Number(self.anti_type as i128),
            FieldValue::Number(self.armet as i128),
            FieldValue::Number(self.armet_color as i128),
            FieldValue::Number(self.r_weapon as i128),
            FieldValue::Number(self.l_weapon as i128),
            FieldValue::Number(self.l_weapon_color as i128),
            FieldValue::Number(self.misc as i128),
            FieldValue::Number(self.mount as i128),
            FieldValue::Number(self.battle_lvl as i128),
            FieldValue::Number(self.extra_xp as i128),
            FieldValue::Number(self.stc_type as i128),
            FieldValue::Text(self.born_effect.clone()),
            FieldValue::Text(self.born_sound.clone()),
        ];
        assert(data(values@) =~= monster_values(self@));
        values
    }

    /// Reads a monster from the section that `parser` has chosen.
    pub fn from_parser(parser: &IniEntryParser) -> (r: Result<BaseMonster, IniEntryParserError>)
        ensures
            match r {
                Ok(monster) => monster_outcome(parser@) == Ok::<BaseMonsterView, SectionFault>(
                    monster@,
                ),
                Err(e) => monster_outcome(parser@) == Err::<BaseMonsterView, SectionFault>(e@),
            },
    {
        let layout = BaseMonster::layout();
        let values = match parser.read_entries(&layout) {
            Ok(values) => values,
            Err(e) => {
                return Err(e);
            },
        };
        proof {
            reveal(number_of);
        }
        Ok(BaseMonster {
            name: parser.get_section(),
            size_add: values[0].as_number() as u8,
            zoom_pct: values[1].as_number() as u16,
            max_life: values[2].as_number() as u32,
            lvl: values[3].as_number() as u16,
            born_action: values[4].as_number() as u16,
            act_res_ctrl: values[5].as_number() as u8,
            asb: values[6].as_number() as u8,
            adb: values[7].as_number() as u8,
            body_type: values[8].as_number() as u8,
            type_id: values[9].as_text(),
            anti_type: values[10].as_number() as u8,
            armet: values[11].as_number() as u8,
            armet_color: values[12].as_number() as u8,
            r_weapon: values[13].as_number() as u8,
            l_weapon: values[14].as_number() as u8,
            l_weapon_color: values[15].as_number() as u8,
            misc: values[16].as_number() as u8,
            mount: values[17].as_number() as u8,
            battle_lvl: values[18].as_number() as u8,
            extra_xp: values[19].as_number() as u8,
            stc_type: values[20].as_number() as u8,
            born_effect: values[21].as_text(),
            born_sound: values[22].as_text(),
        })
    }
}

impl IniEntryParseable<BaseMonster> for BaseMonster {
    /// A text that is no document, and a document without a headed section,
    /// are reported; else the result is what [`monster_outcome`] says of the
    /// first headed section.
    open spec fn section_result(
        document: Option<(Seq<Option<Seq<char>>>, Map<(Option<Seq<char>>, Seq<char>), Seq<char>>)>,
        r: Result<BaseMonster, IniEntryParserError>,
    ) -> bool {
        match section_chosen(document) {
            Err(fault) => r is Err && r->Err_0@ == fault,
            Ok(section) => match r {
                Ok(monster) => monster_outcome(section) == Ok::<BaseMonsterView, SectionFault>(
                    monster@,
                ),
                Err(e) => monster_outcome(section) == Err::<BaseMonsterView, SectionFault>(e@),
            },
        }
    }

    fn from_section_string(section: &String) -> (r: Result<BaseMonster, IniEntryParserError>) {
        match IniEntryParser::new_from_str(section.clone()) {
            Ok(parser) => BaseMonster::from_parser(&parser),
            Err(e) => Err(e),
        }
    }
}

impl StringSerializableStructure for BaseMonster {
    /// The header with the name of the monster, then one entry for each
    /// field, in the order of the layout.
    open spec fn serialized(&self) -> Seq<char> {
        section_text(self@.name, keys(monster_layout()), data_texts(monster_values(self@)))
    }

    fn serialize(&self) -> (s: String) {
        let layout = BaseMonster::layout();
        let values = self.field_values();
        assert(values@.len() == data(values@).len());
        write_section(&self.name, &layout, &values)
    }
}

/// What is read from a section does not depend on the order of its
/// entries: two sections of one name that hold the same under each key of
/// the layout give the same monster, or the same report.
pub proof fn monster_reading_ignores_order(a: Section, b: Section)
    requires
        a.name == b.name,
        forall|k: int|
            0 <= k < monster_layout().len() ==> a.values.contains_key(
                (#[trigger] monster_layout()[k]).key@,
            ) == b.values.contains_key(monster_layout()[k].key@) && (a.values.contains_key(
                monster_layout()[k].key@,
            ) ==> a.values[monster_layout()[k].key@] == b.values[monster_layout()[k].key@]),
    ensures
        monster_outcome(a) == monster_outcome(b),
{
    let layout = monster_layout();
    section_reading_ignores_order(a, b, layout);
    if section_outcome(a, layout) is Ok {
        first_failing_is_least(a, layout, 0);
        assert(layout[0].key@ == "SizeAdd"@ && layout[0].reads(a) is Ok);
        assert(layout[1].key@ == "ZoomPercent"@ && layout[1].reads(a) is Ok);
        assert(layout[2].key@ == "MaxLife"@ && layout[2].reads(a) is Ok);
        assert(layout[3].key@ == "Level"@ && layout[3].reads(a) is Ok);
        assert(layout[4].key@ == "BornAction"@ && layout[4].reads(a) is Ok);
        assert(layout[5].key@ == "ActResCtrl"@ && layout[5].reads(a) is Ok);
        assert(layout[6].key@ == "ASB"@ && layout[6].reads(a) is Ok);
        assert(layout[7].key@ == "ADB"@ && layout[7].reads(a) is Ok);
        assert(layout[8].key@ == "BodyType"@ && layout[8].reads(a) is Ok);
        assert(layout[9].key@ == "TypeID"@ && layout[9].reads(a) is Ok);
        assert(layout[10].key@ == "AntiType"@ && layout[10].reads(a) is Ok);
        assert(layout[11].key@ == "Armet"@ && layout[11].reads(a) is Ok);
        assert(layout[12].key@ == "ArmetColor"@ && layout[12].reads(a) is Ok);
        assert(layout[13].key@ == "RWeapon"@ && layout[13].reads(a) is Ok);
        assert(layout[14].key@ == "LWeapon"@ && layout[14].reads(a) is Ok);
        assert(layout[15].key@ == "LWeaponColor"@ && layout[15].reads(a) is Ok);
        assert(layout[16].key@ == "Misc"@ && layout[16].reads(a) is Ok);
        assert(layout[17].key@ == "Mount"@ && layout[17].reads(a) is Ok);
        assert(layout[18].key@ == "BattleLev"@ && layout[18].reads(a) is Ok);
        assert(layout[19].key@ == "ExtraExp"@ && layout[19].reads(a) is Ok);
        assert(layout[20].key@ == "StcType"@ && layout[20].reads(a) is Ok);
        assert(layout[21].key@ == "BornEffect"@ && layout[21].reads(a) is Ok);
        assert(layout[22].key@ == "BornSound"@ && layout[22].reads(a) is Ok);
    }
}

/// Whether `section` is called as the monster `m` is, and holds under the key
/// of each field the text of that field of `m`.
pub open spec fn section_holds(section: Section, m: BaseMonsterView) -> bool {
    &&& section.name == m.name
    &&& forall|k: int|
        0 <= k < monster_layout().len() ==> section.values.contains_key(
            #[trigger] keys(monster_layout())[k],
        ) && section.values[keys(monster_layout())[k]] == data_texts(monster_values(m))[k]
}

/// Reading a section that holds the name and the fields of a monster, as
/// they are written, gives the monster back, in whatever order the section
/// holds them.
pub proof fn monster_round_trip(m: BaseMonsterView, section: Section)
    requires
        section_holds(section, m),
    ensures
        monster_outcome(section) == Ok::<BaseMonsterView, SectionFault>(m),
{
    let layout = monster_layout();
    let texts = data_texts(monster_values(m));
    let values = monster_values(m);
    assert forall|k: int| 0 <= k < layout.len() implies (#[trigger] layout[k]).reads(section) is Ok by {
        assert(keys(layout)[k] == layout[k].key@);
        assert(texts[k] == datum_text(values[k]));
        value_round_trip(layout[k].kind, values[k]);
    }
    first_failing_is_least(section, layout, 0);
    monster_of_held(m, section);
}

/// Reading a text gives the monster `m` back, and nothing else, where the
/// first headed section of the document that it loads as holds the name and
/// the fields of `m` as they are written.
pub proof fn monster_document_round_trip(
    m: BaseMonster,
    document: Option<(Seq<Option<Seq<char>>>, Map<(Option<Seq<char>>, Seq<char>), Seq<char>>)>,
)
    requires
        section_chosen(document) is Ok,
        section_holds(section_chosen(document)->Ok_0, m@),
    ensures
        forall|r: Result<BaseMonster, IniEntryParserError>|
            BaseMonster::section_result(document, r) ==> r is Ok && r->Ok_0@ == m@,
{
    monster_round_trip(m@, section_chosen(document)->Ok_0);
}

/// What a section that holds a monster has under each key, key by key.
proof fn held_entries(m: BaseMonsterView, section: Section)
    requires
        section_holds(section, m),
    ensures
        section.values.contains_key("SizeAdd"@) && section.values["SizeAdd"@] == decimal_text(m.size_add as int),
        section.values.contains_key("ZoomPercent"@) && section.values["ZoomPercent"@] == decimal_text(m.zoom_pct as int),
        section.values.contains_key("MaxLife"@) && section.values["MaxLife"@] == decimal_text(m.max_life as int),
        section.values.contains_key("Level"@) && section.values["Level"@] == decimal_text(m.lvl as int),
        section.values.contains_key("BornAction"@) && section.values["BornAction"@] == decimal_text(m.born_action as int),
        section.values.contains_key("ActResCtrl"@) && section.values["ActResCtrl"@] == decimal_text(m.act_res_ctrl as int),
        section.values.contains_key("ASB"@) && section.values["ASB"@] == decimal_text(m.asb as int),
        section.values.contains_key("ADB"@) && section.values["ADB"@] == decimal_text(m.adb as int),
        section.values.contains_key("BodyType"@) && section.values["BodyType"@] == decimal_text(m.body_type as int),
        section.values.contains_key("TypeID"@) && section.values["TypeID"@] == m.type_id,
        section.values.contains_key("AntiType"@) && section.values["AntiType"@] == decimal_text(m.anti_type as int),
        section.values.contains_key("Armet"@) && section.values["Armet"@] == decimal_text(m.armet as int),
        section.values.contains_key("ArmetColor"@) && section.values["ArmetColor"@] == decimal_text(m.armet_color as int),
        section.values.contains_key("RWeapon"@) && section.values["RWeapon"@] == decimal_text(m.r_weapon as int),
        section.values.contains_key("LWeapon"@) && section.values["LWeapon"@] == decimal_text(m.l_weapon as int),
        section.values.contains_key("LWeaponColor"@) && section.values["LWeaponColor"@] == decimal_text(m.l_weapon_color as int),
        section.values.contains_key("Misc"@) && section.values["Misc"@] == decimal_text(m.misc as int),
        section.values.contains_key("Mount"@) && section.values["Mount"@] == decimal_text(m.mount as int),
        section.values.contains_key("BattleLev"@) && section.values["BattleLev"@] == decimal_text(m.battle_lvl as int),
        section.values.contains_key("ExtraExp"@) && section.values["ExtraExp"@] == decimal_text(m.extra_xp as int),
        section.values.contains_key("StcType"@) && section.values["StcType"@] == decimal_text(m.stc_type as int),
        section.values.contains_key("BornEffect"@) && section.values["BornEffect"@] == m.born_effect,
        section.values.contains_key("BornSound"@) && section.values["BornSound"@] == m.born_sound,
{
    let layout = monster_layout();
    let texts = data_texts(monster_values(m));
    assert(keys(layout)[0] == "SizeAdd"@ && texts[0] == decimal_text(m.size_add as int));
    assert(keys(layout)[1] == "ZoomPercent"@ && texts[1] == decimal_text(m.zoom_pct as int));
    assert(keys(layout)[2] == "MaxLife"@ && texts[2] == decimal_text(m.max_life as int));
    assert(keys(layout)[3] == "Level"@ && texts[3] == decimal_text(m.lvl as int));
    assert(keys(layout)[4] == "BornAction"@ && texts[4] == decimal_text(m.born_action as int));
    assert(keys(layout)[5] == "ActResCtrl"@ && texts[5] == decimal_text(m.act_res_ctrl as int));
    assert(keys(layout)[6] == "ASB"@ && texts[6] == decimal_text(m.asb as int));
    assert(keys(layout)[7] == "ADB"@ && texts[7] == decimal_text(m.adb as int));
    assert(keys(layout)[8] == "BodyType"@ && texts[8] == decimal_text(m.body_type as int));
    assert(keys(layout)[9] == "TypeID"@ && texts[9] == m.type_id);
    assert(keys(layout)[10] == "AntiType"@ && texts[10] == decimal_text(m.anti_type as int));
    assert(keys(layout)[11] == "Armet"@ && texts[11] == decimal_text(m.armet as int));
    assert(keys(layout)[12] == "ArmetColor"@ && texts[12] == decimal_text(m.armet_color as int));
    assert(keys(layout)[13] == "RWeapon"@ && texts[13] == decimal_text(m.r_weapon as int));
    assert(keys(layout)[14] == "LWeapon"@ && texts[14] == decimal_text(m.l_weapon as int));
    assert(keys(layout)[15] == "LWeaponColor"@ && texts[15] == decimal_text(m.l_weapon_color as int));
    assert(keys(layout)[16] == "Misc"@ && texts[16] == decimal_text(m.misc as int));
    assert(keys(layout)[17] == "Mount"@ && texts[17] == decimal_text(m.mount as int));
    assert(keys(layout)[18] == "BattleLev"@ && texts[18] == decimal_text(m.battle_lvl as int));
    assert(keys(layout)[19] == "ExtraExp"@ && texts[19] == decimal_text(m.extra_xp as int));
    assert(keys(layout)[20] == "StcType"@ && texts[20] == decimal_text(m.stc_type as int));
    assert(keys(layout)[21] == "BornEffect"@ && texts[21] == m.born_effect);
    assert(keys(layout)[22] == "BornSound"@ && texts[22] == m.born_sound);
}

/// The fields of a section that holds a monster are those of the monster.
proof fn monster_of_held(m: BaseMonsterView, section: Section)
    requires
        section_holds(section, m),
    ensures
        monster_of_section(section) == m,
{
    held_entries(m, section);
    number_round_trip(FieldKind::U8, m.size_add as int);
    number_round_trip(FieldKind::U16, m.zoom_pct as int);
    number_round_trip(FieldKind::U32, m.max_life as int);
    number_round_trip(FieldKind::U16, m.lvl as int);
    number_round_trip(FieldKind::U16, m.born_action as int);
    number_round_trip(FieldKind::U8, m.act_res_ctrl as int);
    number_round_trip(FieldKind::U8, m.asb as int);
    number_round_trip(FieldKind::U8, m.adb as int);
    number_round_trip(FieldKind::U8, m.body_type as int);
    number_round_trip(FieldKind::U8, m.anti_type as int);
    number_round_trip(FieldKind::U8, m.armet as int);
    number_round_trip(FieldKind::U8, m.armet_color as int);
    number_round_trip(FieldKind::U8, m.r_weapon as int);
    number_round_trip(FieldKind::U8, m.l_weapon as int);
    number_round_trip(FieldKind::U8, m.l_weapon_color as int);
    number_round_trip(FieldKind::U8, m.misc as int);
    number_round_trip(FieldKind::U8, m.mount as int);
    number_round_trip(FieldKind::U8, m.battle_lvl as int);
    number_round_trip(FieldKind::U8, m.extra_xp as int);
    number_round_trip(FieldKind::U8, m.stc_type as int);
}

} // verus!

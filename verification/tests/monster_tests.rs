use flatrecord::monster::BaseMonster;
use flatrecord::parser::{IniEntryParseable, IniEntryParser, IniEntryParserError};
use flatrecord::serializer::StringSerializableStructure;
use ini::Ini;

fn pheasant() -> BaseMonster {
    BaseMonster {
        name: "Pheasant".to_string(),
        size_add: 2,
        zoom_pct: 100,
        max_life: 4000000000,
        lvl: 130,
        born_action: 65535,
        act_res_ctrl: 1,
        asb: 2,
        adb: 3,
        body_type: 4,
        type_id: "bird".to_string(),
        anti_type: 5,
        armet: 6,
        armet_color: 7,
        r_weapon: 8,
        l_weapon: 9,
        l_weapon_color: 10,
        misc: 11,
        mount: 12,
        battle_lvl: 13,
        extra_xp: 14,
        stc_type: 255,
        born_effect: "feathers".to_string(),
        born_sound: "cluck.wav".to_string(),
    }
}

const PHEASANT: &str = "[Pheasant]\nSizeAdd=2\nZoomPercent=100\nMaxLife=4000000000\nLevel=130\nBornAction=65535\nActResCtrl=1\nASB=2\nADB=3\nBodyType=4\nTypeID=bird\nAntiType=5\nArmet=6\nArmetColor=7\nRWeapon=8\nLWeapon=9\nLWeaponColor=10\nMisc=11\nMount=12\nBattleLev=13\nExtraExp=14\nStcType=255\nBornEffect=feathers\nBornSound=cluck.wav";

fn lines() -> Vec<String> {
    PHEASANT.split('\n').map(|l| l.to_string()).collect()
}

#[test]
fn monster_serialize_exact_text() {
    assert_eq!(pheasant().serialize(), PHEASANT);
}

#[test]
fn monster_round_trip() {
    let text = pheasant().serialize();
    assert_eq!(BaseMonster::from_section_string(&text), Ok(pheasant()));
}

#[test]
fn monster_parse_with_final_line_end() {
    let text = format!("{}\n", PHEASANT);
    assert_eq!(BaseMonster::from_section_string(&text), Ok(pheasant()));
}

#[test]
fn monster_parse_ignores_order_of_entries() {
    let mut all = lines();
    let header = all.remove(0);
    all.reverse();
    let reversed = format!("{}\n{}", header, all.join("\n"));
    assert_eq!(BaseMonster::from_section_string(&reversed), Ok(pheasant()));
    all.rotate_left(7);
    all.swap(0, 11);
    let shuffled = format!("{}\n{}", header, all.join("\n"));
    assert_eq!(BaseMonster::from_section_string(&shuffled), Ok(pheasant()));
}

#[test]
fn monster_parse_ignores_other_keys_and_sections() {
    let text = format!("{}\nExtra=1\n[Other]\nSizeAdd=9\n", PHEASANT);
    assert_eq!(BaseMonster::from_section_string(&text), Ok(pheasant()));
}

#[test]
fn monster_text_that_is_no_document() {
    assert_eq!(
        BaseMonster::from_section_string(&"[Pheasant\nSizeAdd=2".to_string()),
        Err(IniEntryParserError::InvalidIni)
    );
}

#[test]
fn monster_text_without_header() {
    assert_eq!(
        BaseMonster::from_section_string(&"SizeAdd=2\nZoomPercent=100".to_string()),
        Err(IniEntryParserError::InvalidIniNoSection)
    );
    assert_eq!(
        BaseMonster::from_section_string(&String::new()),
        Err(IniEntryParserError::InvalidIniNoSection)
    );
}

#[test]
fn monster_missing_key_is_named() {
    let keys = ["SizeAdd", "Level", "TypeID", "StcType", "BornSound"];
    for key in keys.iter() {
        let kept: Vec<String> =
            lines().into_iter().filter(|l| !l.starts_with(&format!("{}=", key))).collect();
        assert_eq!(
            BaseMonster::from_section_string(&kept.join("\n")),
            Err(IniEntryParserError::MissingKey(key.to_string()))
        );
    }
}

#[test]
fn monster_first_missing_key_in_layout_order() {
    let kept: Vec<String> = lines()
        .into_iter()
        .filter(|l| !l.starts_with("Mount=") && !l.starts_with("ASB="))
        .collect();
    assert_eq!(
        BaseMonster::from_section_string(&kept.join("\n")),
        Err(IniEntryParserError::MissingKey("ASB".to_string()))
    );
}

#[test]
fn monster_invalid_cast_is_named() {
    let text = PHEASANT.replace("Level=130", "Level=high");
    assert_eq!(
        BaseMonster::from_section_string(&text),
        Err(IniEntryParserError::InvalidCast("Level".to_string()))
    );
    let text = PHEASANT.replace("SizeAdd=2", "SizeAdd=256");
    assert_eq!(
        BaseMonster::from_section_string(&text),
        Err(IniEntryParserError::InvalidCast("SizeAdd".to_string()))
    );
    let text = PHEASANT.replace("MaxLife=4000000000", "MaxLife=-1");
    assert_eq!(
        BaseMonster::from_section_string(&text),
        Err(IniEntryParserError::InvalidCast("MaxLife".to_string()))
    );
}

#[test]
fn monster_first_error_in_layout_order() {
    let text = PHEASANT.replace("Level=130", "Level=high").replace("SizeAdd=2\n", "");
    assert_eq!(
        BaseMonster::from_section_string(&text),
        Err(IniEntryParserError::MissingKey("SizeAdd".to_string()))
    );
    let text = PHEASANT.replace("Level=130", "Level=high").replace("BornSound=cluck.wav", "");
    assert_eq!(
        BaseMonster::from_section_string(&text),
        Err(IniEntryParserError::InvalidCast("Level".to_string()))
    );
}

#[test]
fn monster_from_parser_of_built_document() {
    let mut document = Ini::new();
    for line in lines().iter().skip(1) {
        let mut parts = line.splitn(2, '=');
        let key = parts.next().unwrap().to_string();
        let value = parts.next().unwrap().to_string();
        document.with_section(Some("Pheasant")).set(key, value);
    }
    let parser = IniEntryParser::from_document(Ok(document)).unwrap();
    assert_eq!(BaseMonster::from_parser(&parser), Ok(pheasant()));
}

#[test]
fn monster_name_is_the_section_header() {
    let text = PHEASANT.replace("[Pheasant]", "[Robin Hood]");
    let monster = BaseMonster::from_section_string(&text).unwrap();
    assert_eq!(monster.name, "Robin Hood");
}

#[test]
fn monster_layout_has_each_key() {
    let layout = BaseMonster::layout();
    assert_eq!(layout.len(), 23);
    assert_eq!(layout[0].key, "SizeAdd");
    assert_eq!(layout[9].key, "TypeID");
    assert_eq!(layout[22].key, "BornSound");
}

use flatrecord::item::{
    BaseItem, ItemCombatStats, ItemFlags, ItemRequirements, ITEM_MIN_FIELDS,
};
use flatrecord::parser::{SpaceSeparatedParseable, SpaceSeparatedParserError};
use flatrecord::serializer::StringSerializableStructure;

const POTION: &str = "1 Potion 0 0 0 0 0 0 0 0 16 100 0 10 5 3 80 20 50 20 1 1 0 0 0 0 50 200 50 1 2 0 0 0 0 100 0 HP_Item \"Heals 50 HP\" 0";

fn flags_of(bits: u8) -> ItemFlags {
    ItemFlags {
        sell_disabled: bits & 0x20 != 0,
        no_drop_on_death: bits & 0x10 != 0,
        important_sell_hint: bits & 0x08 != 0,
        important_drop_hint: bits & 0x04 != 0,
        is_unstoreable: bits & 0x02 != 0,
        is_untradeable: bits & 0x01 != 0,
    }
}

fn sword() -> BaseItem {
    BaseItem {
        id: 410301,
        name: "IronSword".to_string(),
        requirements: ItemRequirements {
            profession: 20,
            proficiency_lvl: 3,
            lvl: 15,
            sex: 1,
            str: 40,
            agi: 25,
            vit: 0,
            spi: 65535,
        },
        flags: flags_of(0x25),
        combat_stats: ItemCombatStats {
            max_phys_atk: 120,
            min_phys_atk: 80,
            phys_def: 5,
            accuracy: 9,
            dodge: 255,
            magic_atk: 11,
            magic_def: 12,
            atk_range: 2,
            atk_speed: 800,
        },
        weight: 30,
        buy_price: 4294967295,
        action_id: 7,
        hp_restored: 1,
        mp_restored: 2,
        amount: 3,
        amount_limit: 4,
        status: 5,
        gem1: 6,
        gem2: 7,
        magic1: 8,
        magic2: 9,
        magic3: 10,
        fray_mode: 13,
        repair_mode: 14,
        type_mask: 15,
        buy_cps_price: 16,
        type_label: "Sword".to_string(),
        description: "Sharp".to_string(),
        unknown_1: 17,
    }
}

fn line_of(tokens: &[String]) -> String {
    tokens.join(" ")
}

fn sword_tokens() -> Vec<String> {
    sword().serialize().split(' ').map(|t| t.to_string()).collect()
}

#[test]
fn item_flags_from_byte_bits() {
    let f = ItemFlags::from_byte(&0x20);
    assert_eq!(f, flags_of(0x20));
    assert!(f.sell_disabled && !f.no_drop_on_death && !f.is_untradeable);
    let f = ItemFlags::from_byte(&0x01);
    assert!(f.is_untradeable && !f.is_unstoreable);
    let f = ItemFlags::from_byte(&0x02);
    assert!(f.is_unstoreable && !f.is_untradeable);
    let f = ItemFlags::from_byte(&0x04);
    assert!(f.important_drop_hint && !f.important_sell_hint);
    let f = ItemFlags::from_byte(&0x08);
    assert!(f.important_sell_hint && !f.important_drop_hint);
    let f = ItemFlags::from_byte(&0x10);
    assert!(f.no_drop_on_death && !f.sell_disabled);
}

#[test]
fn item_flags_get_as_byte_values() {
    assert_eq!(flags_of(0).get_as_byte(), 0);
    assert_eq!(flags_of(0x3F).get_as_byte(), 0x3F);
    assert_eq!(flags_of(0x25).get_as_byte(), 0x25);
    assert_eq!(ItemFlags::from_byte(&16).get_as_byte(), 16);
}

#[test]
fn item_flags_round_trip_all_combinations() {
    let mut bits: u8 = 0;
    while bits < 64 {
        let flags = flags_of(bits);
        let byte = flags.get_as_byte();
        assert_eq!(byte, bits);
        assert_eq!(byte & 0xC0, 0);
        assert_eq!(ItemFlags::from_byte(&byte), flags);
        bits += 1;
    }
}

#[test]
fn item_flags_ignore_reserved_bits() {
    let mut byte: u16 = 0;
    while byte < 256 {
        let b = byte as u8;
        assert_eq!(ItemFlags::from_byte(&b), flags_of(b & 0x3F));
        assert_eq!(ItemFlags::from_byte(&b).get_as_byte(), b & 0x3F);
        byte += 1;
    }
}

#[test]
fn item_requirement_checks() {
    let r = sword().requirements;
    assert!(r.is_profession_ok(&20));
    assert!(r.is_profession_ok(&25));
    assert!(r.is_profession_ok(&29));
    assert!(!r.is_profession_ok(&30));
    assert!(!r.is_profession_ok(&19));
    assert!(r.is_proficiency_lvl_ok(&3));
    assert!(!r.is_proficiency_lvl_ok(&2));
    assert!(r.is_lvl_ok(&15));
    assert!(!r.is_lvl_ok(&14));
    assert!(r.is_str_ok(&40));
    assert!(!r.is_str_ok(&39));
    assert!(r.is_agi_ok(&25));
    assert!(!r.is_agi_ok(&24));
    assert!(r.is_vit_ok(&0));
    assert!(r.is_spi_ok(&65535));
    assert!(!r.is_spi_ok(&65534));
}

#[test]
fn item_serialize_exact_line() {
    assert_eq!(
        sword().serialize(),
        "410301 IronSword 20 3 15 1 40 25 0 65535 37 30 4294967295 7 120 80 5 9 255 1 2 3 4 5 6 7 8 9 10 11 12 2 800 13 14 15 16 Sword Sharp 17"
    );
}

#[test]
fn item_serialize_has_min_fields_tokens() {
    assert_eq!(sword_tokens().len(), ITEM_MIN_FIELDS);
    assert_eq!(ITEM_MIN_FIELDS, 40);
}

#[test]
fn item_round_trip() {
    let line = sword().serialize();
    assert_eq!(BaseItem::from_line(&line), Ok(sword()));
}

#[test]
fn item_round_trip_extreme_values() {
    let mut item = sword();
    item.id = 0;
    item.flags = flags_of(0x3F);
    item.buy_price = 0;
    item.combat_stats.atk_speed = 65535;
    item.unknown_1 = 255;
    let line = item.serialize();
    assert_eq!(BaseItem::from_line(&line), Ok(item));
}

#[test]
fn item_example_line_parses() {
    let item = BaseItem::from_line(&POTION.to_string()).unwrap();
    assert_eq!(item.id, 1);
    assert_eq!(item.name, "Potion");
    assert_eq!(item.requirements.profession, 0);
    assert_eq!(item.requirements.spi, 0);
    assert_eq!(item.flags, flags_of(16));
    assert!(item.flags.no_drop_on_death);
    assert_eq!(item.weight, 100);
    assert_eq!(item.buy_price, 0);
    assert_eq!(item.action_id, 10);
    assert_eq!(item.combat_stats.max_phys_atk, 5);
    assert_eq!(item.combat_stats.min_phys_atk, 3);
    assert_eq!(item.combat_stats.phys_def, 80);
    assert_eq!(item.combat_stats.accuracy, 20);
    assert_eq!(item.combat_stats.dodge, 50);
    assert_eq!(item.hp_restored, 20);
    assert_eq!(item.mp_restored, 1);
    assert_eq!(item.amount, 1);
    assert_eq!(item.amount_limit, 0);
    assert_eq!(item.magic1, 50);
    assert_eq!(item.magic2, 200);
    assert_eq!(item.magic3, 50);
    assert_eq!(item.combat_stats.magic_atk, 1);
    assert_eq!(item.combat_stats.magic_def, 2);
    assert_eq!(item.type_mask, 100);
    assert_eq!(item.buy_cps_price, 0);
    assert_eq!(item.type_label, "HP_Item");
}

#[test]
fn item_example_line_reserializes_to_same_values() {
    let item = BaseItem::from_line(&POTION.to_string()).unwrap();
    let line = item.serialize();
    let again = BaseItem::from_line(&line).unwrap();
    assert_eq!(again, item);
    let given: Vec<&str> = POTION.split(' ').collect();
    let written: Vec<&str> = line.split(' ').collect();
    assert_eq!(written.len(), 40);
    assert_eq!(&written[..], &given[..40]);
}

#[test]
fn item_line_one_token_short() {
    let tokens = sword_tokens();
    let line = line_of(&tokens[..39]);
    assert_eq!(BaseItem::from_line(&line), Err(SpaceSeparatedParserError::MissingAtIndex(39)));
}

#[test]
fn item_line_with_exactly_min_fields() {
    let tokens = sword_tokens();
    assert_eq!(tokens.len(), 40);
    assert!(BaseItem::from_line(&line_of(&tokens)).is_ok());
}

#[test]
fn item_line_empty() {
    assert_eq!(
        BaseItem::from_line(&String::new()),
        Err(SpaceSeparatedParserError::MissingAtIndex(0))
    );
}

#[test]
fn item_cast_failure_names_the_field() {
    let names = [
        (0usize, "id"),
        (2, "profession requirement"),
        (9, "spirit requirement"),
        (10, "item flags"),
        (12, "buy price (silver)"),
        (18, "dodge"),
        (19, "hp restored"),
        (29, "magic atk"),
        (32, "attack speed"),
        (36, "buy price (cps)"),
        (39, "unknown 1"),
    ];
    for (index, name) in names.iter() {
        let mut tokens = sword_tokens();
        tokens[*index] = "abc".to_string();
        assert_eq!(
            BaseItem::from_line(&line_of(&tokens)),
            Err(SpaceSeparatedParserError::InvalidCast(name.to_string()))
        );
    }
}

#[test]
fn item_cast_failure_out_of_range_counts() {
    let mut tokens = sword_tokens();
    tokens[10] = "256".to_string();
    assert_eq!(
        BaseItem::from_line(&line_of(&tokens)),
        Err(SpaceSeparatedParserError::InvalidCast("item flags".to_string()))
    );
}

#[test]
fn item_first_failure_follows_read_order() {
    let mut tokens = sword_tokens();
    tokens[19] = "x".to_string();
    tokens[29] = "y".to_string();
    assert_eq!(
        BaseItem::from_line(&line_of(&tokens)),
        Err(SpaceSeparatedParserError::InvalidCast("magic atk".to_string()))
    );
}

#[test]
fn item_text_fields_accept_any_token() {
    let mut tokens = sword_tokens();
    tokens[1] = "12".to_string();
    tokens[37] = "-".to_string();
    let item = BaseItem::from_line(&line_of(&tokens)).unwrap();
    assert_eq!(item.name, "12");
    assert_eq!(item.type_label, "-");
}

#[test]
fn item_layout_covers_every_token_once() {
    let layout = BaseItem::layout();
    assert_eq!(layout.len(), 40);
    let mut seen = vec![false; 40];
    for field in layout.iter() {
        assert!(field.index < ITEM_MIN_FIELDS);
        assert!(!seen[field.index]);
        seen[field.index] = true;
    }
    assert_eq!(layout[19].index, 29);
    assert_eq!(layout[23].index, 19);
}

use flatrecord::magictype::{
    BaseMagicTypeEntry, MagicCosts, MagicEffects, MagicRequirements, MagicTargetFlags,
    MAGIC_MIN_FIELDS,
};
use flatrecord::parser::{SpaceSeparatedParseable, SpaceSeparatedParserError};
use flatrecord::serializer::StringSerializableStructure;

fn targets_of(bits: u8) -> MagicTargetFlags {
    MagicTargetFlags {
        is_body_target: bits & 0x10 != 0,
        is_passive_target: bits & 0x08 != 0,
        is_terrain_target: bits & 0x04 != 0,
        is_none_target: bits & 0x02 != 0,
        is_self_target: bits & 0x01 != 0,
    }
}

fn fireball() -> BaseMagicTypeEntry {
    BaseMagicTypeEntry {
        id: 1000,
        action_sort: 1,
        skill_name: "Fireball".to_string(),
        is_offensive_on_use: true,
        is_ground_targeted: false,
        is_multi_target: true,
        targets_flags: targets_of(0x15),
        requirements: MagicRequirements {
            job_required: 100,
            xp_required: 18446744073709551615,
            lvl_required: 40,
            weapon_required: 421,
            uses_item: 2,
        },
        effects: MagicEffects {
            intone_effect: "intone".to_string(),
            intone_sfx: "intone.wav".to_string(),
            sender_effect: "sender".to_string(),
            sender_sfx: "sender.wav".to_string(),
            ground_effect: "ground".to_string(),
            trace_effect: "trace".to_string(),
            target_effect: "target".to_string(),
            target_sfx: "target.wav".to_string(),
        },
        costs: MagicCosts { mp_cost: 300, stamina_cost: 20 },
        skill_lvl: 3,
        power: -2147483648,
        intone_effect_duration: 500,
        accuracy: 95,
        time: 0,
        range: 4,
        max_distance: 12,
        status: 9000000000,
        skill_type: 5,
        active_time: 6,
        auto_active: 7,
        floor_attribute: 8,
        is_auto_learned: false,
        auto_learn_lvl: 9,
        drop_weapon: 10,
        hits_with_weapon: 11,
        next_skill_id_auto_cast: 12,
        use_delay: 13,
        use_item_num: 14,
        sender_action: 15,
        short_desc: "Fire".to_string(),
        desc: "Burns".to_string(),
        target_delay: 16,
        screen_represent: true,
        is_usable_in_market: false,
        is_staggering: true,
    }
}

fn fireball_tokens() -> Vec<String> {
    fireball().serialize().split(' ').map(|t| t.to_string()).collect()
}

#[test]
fn target_flags_from_byte_bits() {
    assert!(MagicTargetFlags::from_byte(&0x01).is_self_target);
    assert!(MagicTargetFlags::from_byte(&0x02).is_none_target);
    assert!(MagicTargetFlags::from_byte(&0x04).is_terrain_target);
    assert!(MagicTargetFlags::from_byte(&0x08).is_passive_target);
    assert!(MagicTargetFlags::from_byte(&0x10).is_body_target);
    assert_eq!(MagicTargetFlags::from_byte(&0x10), targets_of(0x10));
    assert_eq!(MagicTargetFlags::from_byte(&0), targets_of(0));
}

#[test]
fn target_flags_round_trip_all_combinations() {
    let mut bits: u8 = 0;
    while bits < 32 {
        let flags = targets_of(bits);
        let byte = flags.get_as_byte();
        assert_eq!(byte, bits);
        assert_eq!(byte & 0xE0, 0);
        assert_eq!(MagicTargetFlags::from_byte(&byte), flags);
        bits += 1;
    }
}

#[test]
fn target_flags_ignore_reserved_bits() {
    let mut byte: u16 = 0;
    while byte < 256 {
        let b = byte as u8;
        assert_eq!(MagicTargetFlags::from_byte(&b).get_as_byte(), b & 0x1F);
        byte += 1;
    }
}

#[test]
fn magic_costs_checks() {
    let costs = MagicCosts { mp_cost: 300, stamina_cost: 20 };
    assert!(costs.is_mp_sufficient(&300));
    assert!(!costs.is_mp_sufficient(&299));
    assert!(costs.is_stamina_sufficient(&20));
    assert!(!costs.is_stamina_sufficient(&19));
}

#[test]
fn magic_serialize_exact_line() {
    assert_eq!(
        fireball().serialize(),
        "1000 1 Fireball 1 0 1 21 3 300 -2147483648 500 95 0 4 12 9000000000 100 18446744073709551615 40 5 421 6 7 8 0 9 10 20 11 2 12 13 14 15 Fire Burns intone intone.wav sender sender.wav 16 target target.wav ground trace 1 0 1"
    );
}

#[test]
fn magic_round_trip() {
    let line = fireball().serialize();
    assert_eq!(BaseMagicTypeEntry::from_line(&line), Ok(fireball()));
}

#[test]
fn magic_round_trip_other_switches() {
    let mut entry = fireball();
    entry.is_offensive_on_use = false;
    entry.is_ground_targeted = true;
    entry.is_multi_target = false;
    entry.is_auto_learned = true;
    entry.screen_represent = false;
    entry.is_usable_in_market = true;
    entry.is_staggering = false;
    entry.power = 2147483647;
    entry.targets_flags = targets_of(0x0A);
    let line = entry.serialize();
    assert_eq!(BaseMagicTypeEntry::from_line(&line), Ok(entry));
}

#[test]
fn magic_switch_is_on_only_for_one() {
    let mut tokens = fireball_tokens();
    tokens[3] = "2".to_string();
    tokens[4] = "1".to_string();
    tokens[5] = "0".to_string();
    let entry = BaseMagicTypeEntry::from_line(&tokens.join(" ")).unwrap();
    assert!(!entry.is_offensive_on_use);
    assert!(entry.is_ground_targeted);
    assert!(!entry.is_multi_target);
}

#[test]
fn magic_line_one_token_short() {
    let tokens = fireball_tokens();
    assert_eq!(tokens.len(), MAGIC_MIN_FIELDS);
    assert_eq!(MAGIC_MIN_FIELDS, 48);
    let line = tokens[..47].join(" ");
    assert_eq!(
        BaseMagicTypeEntry::from_line(&line),
        Err(SpaceSeparatedParserError::MissingAtIndex(47))
    );
}

#[test]
fn magic_line_with_exactly_min_fields() {
    let tokens = fireball_tokens();
    assert!(BaseMagicTypeEntry::from_line(&tokens.join(" ")).is_ok());
}

#[test]
fn magic_cast_failure_names_the_field() {
    let names = [
        (0usize, "id"),
        (1, "action sort"),
        (3, "is offensive on use"),
        (6, "target flags"),
        (7, "skill lvl"),
        (8, "mp cost"),
        (9, "power"),
        (15, "status"),
        (17, "xp required"),
        (24, "auto learned"),
        (27, "stamina cost"),
        (30, "next skill id (auto casted)"),
        (40, "target delay"),
        (47, "is staggering"),
    ];
    for (index, name) in names.iter() {
        let mut tokens = fireball_tokens();
        tokens[*index] = "none".to_string();
        assert_eq!(
            BaseMagicTypeEntry::from_line(&tokens.join(" ")),
            Err(SpaceSeparatedParserError::InvalidCast(name.to_string()))
        );
    }
}

#[test]
fn magic_first_failure_follows_read_order() {
    let mut tokens = fireball_tokens();
    tokens[7] = "x".to_string();
    tokens[27] = "y".to_string();
    assert_eq!(
        BaseMagicTypeEntry::from_line(&tokens.join(" ")),
        Err(SpaceSeparatedParserError::InvalidCast("stamina cost".to_string()))
    );
    let mut tokens = fireball_tokens();
    tokens[9] = "x".to_string();
    tokens[29] = "y".to_string();
    assert_eq!(
        BaseMagicTypeEntry::from_line(&tokens.join(" ")),
        Err(SpaceSeparatedParserError::InvalidCast("uses item".to_string()))
    );
}

#[test]
fn magic_power_may_be_negative_and_others_not() {
    let mut tokens = fireball_tokens();
    tokens[9] = "-5".to_string();
    assert_eq!(BaseMagicTypeEntry::from_line(&tokens.join(" ")).unwrap().power, -5);
    tokens[10] = "-5".to_string();
    assert_eq!(
        BaseMagicTypeEntry::from_line(&tokens.join(" ")),
        Err(SpaceSeparatedParserError::InvalidCast("intone effect duration".to_string()))
    );
}

#[test]
fn magic_layout_covers_every_token_once() {
    let layout = BaseMagicTypeEntry::layout();
    assert_eq!(layout.len(), 48);
    let mut seen = vec![false; 48];
    for field in layout.iter() {
        assert!(field.index < MAGIC_MIN_FIELDS);
        assert!(!seen[field.index]);
        seen[field.index] = true;
    }
    assert_eq!(layout[7].index, 8);
    assert_eq!(layout[8].index, 27);
}

use jobs::job::{Class, Location, Stat, UnrecognizedIdentifier, WepType};

const ALL_CLASSES: [Class; 36] = [
    Class::Beginner,
    Class::Swordman,
    Class::Fighter,
    Class::Page,
    Class::Spearman,
    Class::Magician,
    Class::FP,
    Class::IL,
    Class::Cleric,
    Class::Archer,
    Class::Hunter,
    Class::Crossbowman,
    Class::Rogue,
    Class::Assassin,
    Class::Bandit,
    Class::DualBlade,
    Class::Pirate,
    Class::Brawler,
    Class::Gunslinger,
    Class::Noblesse,
    Class::DawnWarrior1st,
    Class::DawnWarrior,
    Class::BlazeWizard1st,
    Class::BlazeWizard,
    Class::WindArcher1st,
    Class::WindArcher,
    Class::NightWalker1st,
    Class::NightWalker,
    Class::ThunderBreaker1st,
    Class::ThunderBreaker,
    Class::AranBeginner,
    Class::EvanBeginner,
    Class::Aran1st,
    Class::Aran,
    Class::Evan1st,
    Class::Evan,
];

const ALL_WEP_TYPES: [WepType; 16] = [
    WepType::OneHandedSword,
    WepType::OneHandedAxe,
    WepType::OneHandedMace,
    WepType::Dagger,
    WepType::Wand,
    WepType::Staff,
    WepType::TwoHandedSword,
    WepType::TwoHandedAxe,
    WepType::TwoHandedMace,
    WepType::Spear,
    WepType::Polearm,
    WepType::Bow,
    WepType::Crossbow,
    WepType::Claw,
    WepType::Knuckler,
    WepType::Gun,
];

#[test]
fn class_round_trip_every_tag() {
    for c in ALL_CLASSES {
        assert_eq!(Class::decode(c.encode()), Ok(c));
    }
}

#[test]
fn wep_type_round_trip_every_tag() {
    for w in ALL_WEP_TYPES {
        assert_eq!(WepType::decode(w.encode()), Ok(w));
    }
}

#[test]
fn class_encode_injective() {
    for a in ALL_CLASSES {
        for b in ALL_CLASSES {
            if a != b {
                assert_ne!(a.encode(), b.encode());
            }
        }
    }
}

#[test]
fn wep_type_encode_injective() {
    for a in ALL_WEP_TYPES {
        for b in ALL_WEP_TYPES {
            if a != b {
                assert_ne!(a.encode(), b.encode());
            }
        }
    }
}

#[test]
fn class_decode_known_codes() {
    assert_eq!(Class::decode(0), Ok(Class::Beginner));
    assert_eq!(Class::decode(110), Ok(Class::Fighter));
    assert_eq!(Class::decode(430), Ok(Class::DualBlade));
    assert_eq!(Class::decode(2001), Ok(Class::EvanBeginner));
    assert_eq!(Class::decode(2210), Ok(Class::Evan));
}

#[test]
fn class_decode_rejects_codes_off_the_image() {
    // 111 is a third-grade progression code: numerically adjacent to the
    // accepted 110, still rejected.
    for code in [1u16, 99, 111, 131, 431, 2002, 2211, 65535] {
        assert_eq!(
            Class::decode(code),
            Err(UnrecognizedIdentifier { code }),
        );
    }
}

#[test]
fn wep_type_decode_known_codes() {
    assert_eq!(WepType::decode(130), Ok(WepType::OneHandedSword));
    assert_eq!(WepType::decode(132), Ok(WepType::OneHandedMace));
    assert_eq!(WepType::decode(143), Ok(WepType::Spear));
    assert_eq!(WepType::decode(149), Ok(WepType::Gun));
}

#[test]
fn wep_type_decode_rejects_codes_off_the_image() {
    // 134, 135, 136 and 139 sit in the gaps of the contiguous sub-range.
    for code in [0u8, 1, 129, 134, 135, 136, 139, 150, 255] {
        assert_eq!(
            WepType::decode(code),
            Err(UnrecognizedIdentifier { code: code as u16 }),
        );
    }
}

#[test]
fn class_decode_all_preserves_order() {
    let codes = vec![0u16, 2001, 130, 430];
    let decoded = Class::decode_all(&codes).unwrap();
    assert_eq!(
        decoded,
        vec![Class::Beginner, Class::EvanBeginner, Class::Spearman, Class::DualBlade],
    );
}

#[test]
fn class_decode_all_reports_first_bad_code() {
    let codes = vec![0u16, 111, 112, 130];
    assert_eq!(
        Class::decode_all(&codes),
        Err(UnrecognizedIdentifier { code: 111 }),
    );
}

#[test]
fn wep_type_decode_all_preserves_order() {
    let codes = vec![143u8, 132];
    let decoded = WepType::decode_all(&codes).unwrap();
    assert_eq!(decoded, vec![WepType::Spear, WepType::OneHandedMace]);
}

#[test]
fn wep_type_decode_all_reports_first_bad_code() {
    let codes = vec![143u8, 134, 139];
    assert_eq!(
        WepType::decode_all(&codes),
        Err(UnrecognizedIdentifier { code: 134 }),
    );
}

#[test]
fn class_labels() {
    assert_eq!(Class::Beginner.label(), "beginner");
    assert_eq!(Class::Swordman.label(), "sword(wo)man");
    assert_eq!(Class::FP.label(), "F/P");
    assert_eq!(Class::IL.label(), "I/L");
    assert_eq!(Class::DawnWarrior1st.label(), "dawn warrior (1st grade)");
    assert_eq!(Class::EvanBeginner.label(), "evan (beginner)");
    assert_eq!(Class::Evan.label(), "evan");
}

#[test]
fn location_labels() {
    assert_eq!(Location::Camp.label(), "Camp");
    assert_eq!(Location::MapleIsland.label(), "Maple Island");
    assert_eq!(Location::Outland.label(), "outland");
}

#[test]
fn stat_labels() {
    assert_eq!(Stat::STR.label(), "STR");
    assert_eq!(Stat::DEX.label(), "DEX");
    assert_eq!(Stat::INT.label(), "INT");
    assert_eq!(Stat::LUK.label(), "LUK");
    assert_eq!(Stat::MAXHP.label(), "MAXHP");
    assert_eq!(Stat::MAXMP.label(), "MAXMP");
}

#[test]
fn wep_type_labels_and_plurals() {
    assert_eq!(WepType::OneHandedMace.label(), "one-handed BW");
    assert_eq!(WepType::OneHandedMace.plural(), "one-handed BWs");
    assert_eq!(WepType::Staff.label(), "staff");
    assert_eq!(WepType::Staff.plural(), "staves");
    assert_eq!(WepType::Spear.label(), "spear");
    assert_eq!(WepType::Spear.plural(), "spears");
    assert_eq!(WepType::Gun.plural(), "guns");
}

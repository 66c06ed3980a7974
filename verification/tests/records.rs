use jobs::collection::{JobMap, StructuralError};
use jobs::job::{Class, Job, Location, Stat, StatConstraint, Stats, Weaponry, WepSet, WepType};

fn sample_job() -> Job {
    Job {
        classes: vec![Class::Beginner, Class::EvanBeginner, Class::Spearman, Class::DualBlade],
        location: Location::MapleIsland,
        stats: Stats {
            primary: vec![Stat::STR, Stat::MAXMP],
            secondary: vec![Stat::LUK],
            constraints: vec![
                vec![StatConstraint::Less(Stat::DEX)],
                vec![StatConstraint::Ful(Stat::STR), StatConstraint::Ful(Stat::LUK)],
            ],
        },
        weaponry: Weaponry {
            allowed: WepSet::WepTypes(vec![WepType::Spear, WepType::OneHandedMace]),
            canonical: WepSet::WepIds(vec![132_2003, 132_2006]),
        },
        ammo: true,
        skills: Some(Vec::new()),
    }
}

#[test]
fn explicit_job_matches_decoded_construction() {
    // The same record built twice: once from the tags, once routing the
    // class code 2001 and the weapon-category code 132 through the decode
    // direction of the codecs.
    let via_decode = Job {
        classes: vec![
            Class::Beginner,
            Class::decode(2001).unwrap(),
            Class::Spearman,
            Class::DualBlade,
        ],
        location: Location::MapleIsland,
        stats: Stats {
            primary: vec![Stat::STR, Stat::MAXMP],
            secondary: vec![Stat::LUK],
            constraints: vec![
                vec![StatConstraint::Less(Stat::DEX)],
                vec![StatConstraint::Ful(Stat::STR), StatConstraint::Ful(Stat::LUK)],
            ],
        },
        weaponry: Weaponry {
            allowed: WepSet::WepTypes(vec![WepType::Spear, WepType::decode(132).unwrap()]),
            canonical: WepSet::WepIds(vec![132_2003, 132_2006]),
        },
        ammo: true,
        skills: Some(Vec::new()),
    };
    assert_eq!(sample_job(), via_decode);
}

#[test]
fn classes_keep_declaration_order() {
    let job = sample_job();
    assert_eq!(
        job.classes,
        vec![Class::Beginner, Class::EvanBeginner, Class::Spearman, Class::DualBlade],
    );
    assert_eq!(job.stats.primary, vec![Stat::STR, Stat::MAXMP]);
    assert_eq!(
        job.weaponry.allowed,
        WepSet::WepTypes(vec![WepType::Spear, WepType::OneHandedMace]),
    );
}

#[test]
fn absent_skills_differ_from_explicit_empty_skills() {
    let mut absent = sample_job();
    absent.skills = None;
    let explicit_empty = sample_job();
    assert_eq!(explicit_empty.skills, Some(Vec::new()));
    assert_ne!(absent, explicit_empty);
    assert_eq!(absent.skills, None);
}

#[test]
fn job_map_keeps_distinct_entries_in_order() {
    let pairs = vec![
        ("alpha".to_owned(), sample_job()),
        ("beta".to_owned(), sample_job()),
        ("gamma".to_owned(), sample_job()),
    ];
    let map = JobMap::from_pairs(pairs).unwrap();
    assert_eq!(map.len(), 3);
    let keys: Vec<&str> = map.entries().iter().map(|(k, _)| k.as_str()).collect();
    assert_eq!(keys, vec!["alpha", "beta", "gamma"]);
}

#[test]
fn job_map_rejects_duplicate_key() {
    let pairs = vec![
        ("alpha".to_owned(), sample_job()),
        ("beta".to_owned(), sample_job()),
        ("alpha".to_owned(), sample_job()),
    ];
    assert_eq!(
        JobMap::from_pairs(pairs),
        Err(StructuralError::DuplicateKey("alpha".to_owned())),
    );
}

#[test]
fn job_map_reports_first_duplicate() {
    let pairs = vec![
        ("a".to_owned(), sample_job()),
        ("b".to_owned(), sample_job()),
        ("b".to_owned(), sample_job()),
        ("a".to_owned(), sample_job()),
    ];
    assert_eq!(
        JobMap::from_pairs(pairs),
        Err(StructuralError::DuplicateKey("b".to_owned())),
    );
}

#[test]
fn job_map_lookup() {
    let mut other = sample_job();
    other.ammo = false;
    let pairs = vec![
        ("alpha".to_owned(), sample_job()),
        ("beta".to_owned(), other.clone()),
    ];
    let map = JobMap::from_pairs(pairs).unwrap();
    assert_eq!(map.get("beta"), Some(&other));
    assert_eq!(map.get("alpha"), Some(&sample_job()));
    assert_eq!(map.get("gamma"), None);
    assert_eq!(map.get(""), None);
}

#[test]
fn empty_job_map() {
    let map = JobMap::from_pairs(Vec::new()).unwrap();
    assert_eq!(map.len(), 0);
    assert_eq!(map.get("anything"), None);
}

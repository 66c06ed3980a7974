//! The job record model and the identifier codecs.
//!
//! `Class` and `WepType` are closed enumerations, each with a canonical
//! numeric code. Encoding is total and injective; decoding is deliberately
//! partial: it accepts exactly the codes that encoding produces and rejects
//! every other code with a typed error carrying the rejected value.

use vstd::prelude::*;

verus! {

/// A numeric code that names no tag of the closed enumeration it was
/// offered to. Carries the rejected code (widened to `u16` for the
/// eight-bit weapon-category codes).
#[derive(Clone, Copy, Debug, PartialEq, Eq, Structural)]
pub struct UnrecognizedIdentifier {
    pub code: u16,
}

/// A character class: the closed set of progression tags this schema
/// models (second grade or lower; higher grades are deliberately absent).
#[derive(Clone, Copy, Debug, PartialEq, Eq, Structural)]
pub enum Class {
    Beginner,
    Swordman,
    Fighter,
    Page,
    Spearman,
    Magician,
    FP,
    IL,
    Cleric,
    Archer,
    Hunter,
    Crossbowman,
    Rogue,
    Assassin,
    Bandit,
    DualBlade,
    Pirate,
    Brawler,
    Gunslinger,
    Noblesse,
    DawnWarrior1st,
    DawnWarrior,
    BlazeWizard1st,
    BlazeWizard,
    WindArcher1st,
    WindArcher,
    NightWalker1st,
    NightWalker,
    ThunderBreaker1st,
    ThunderBreaker,
    AranBeginner,
    EvanBeginner,
    Aran1st,
    Aran,
    Evan1st,
    Evan,
}

/// The canonical numeric code of each class tag.
pub open spec fn spec_class_code(c: Class) -> u16 {
    match c {
        Class::Beginner => 0,
        Class::Swordman => 100,
        Class::Fighter => 110,
        Class::Page => 120,
        Class::Spearman => 130,
        Class::Magician => 200,
        Class::FP => 210,
        Class::IL => 220,
        Class::Cleric => 230,
        Class::Archer => 300,
        Class::Hunter => 310,
        Class::Crossbowman => 320,
        Class::Rogue => 400,
        Class::Assassin => 410,
        Class::Bandit => 420,
        Class::DualBlade => 430,
        Class::Pirate => 500,
        Class::Brawler => 510,
        Class::Gunslinger => 520,
        Class::Noblesse => 1000,
        Class::DawnWarrior1st => 1100,
        Class::DawnWarrior => 1110,
        Class::BlazeWizard1st => 1200,
        Class::BlazeWizard => 1210,
        Class::WindArcher1st => 1300,
        Class::WindArcher => 1310,
        Class::NightWalker1st => 1400,
        Class::NightWalker => 1410,
        Class::ThunderBreaker1st => 1500,
        Class::ThunderBreaker => 1510,
        Class::AranBeginner => 2000,
        Class::EvanBeginner => 2001,
        Class::Aran1st => 2100,
        Class::Aran => 2110,
        Class::Evan1st => 2200,
        Class::Evan => 2210,
    }
}

/// The partial reverse of `spec_class_code`: the tag a code stands for,
/// or `None` where the code is outside the image of the encoding.
pub open spec fn spec_class_of_code(code: u16) -> Option<Class> {
    if code == 0 {
        Some(Class::Beginner)
    } else if code == 100 {
        Some(Class::Swordman)
    } else if code == 110 {
        Some(Class::Fighter)
    } else if code == 120 {
        Some(Class::Page)
    } else if code == 130 {
        Some(Class::Spearman)
    } else if code == 200 {
        Some(Class::Magician)
    } else if code == 210 {
        Some(Class::FP)
    } else if code == 220 {
        Some(Class::IL)
    } else if code == 230 {
        Some(Class::Cleric)
    } else if code == 300 {
        Some(Class::Archer)
    } else if code == 310 {
        Some(Class::Hunter)
    } else if code == 320 {
        Some(Class::Crossbowman)
    } else if code == 400 {
        Some(Class::Rogue)
    } else if code == 410 {
        Some(Class::Assassin)
    } else if code == 420 {
        Some(Class::Bandit)
    } else if code == 430 {
        Some(Class::DualBlade)
    } else if code == 500 {
        Some(Class::Pirate)
    } else if code == 510 {
        Some(Class::Brawler)
    } else if code == 520 {
        Some(Class::Gunslinger)
    } else if code == 1000 {
        Some(Class::Noblesse)
    } else if code == 1100 {
        Some(Class::DawnWarrior1st)
    } else if code == 1110 {
        Some(Class::DawnWarrior)
    } else if code == 1200 {
        Some(Class::BlazeWizard1st)
    } else if code == 1210 {
        Some(Class::BlazeWizard)
    } else if code == 1300 {
        Some(Class::WindArcher1st)
    } else if code == 1310 {
        Some(Class::WindArcher)
    } else if code == 1400 {
        Some(Class::NightWalker1st)
    } else if code == 1410 {
        Some(Class::NightWalker)
    } else if code == 1500 {
        Some(Class::ThunderBreaker1st)
    } else if code == 1510 {
        Some(Class::ThunderBreaker)
    } else if code == 2000 {
        Some(Class::AranBeginner)
    } else if code == 2001 {
        Some(Class::EvanBeginner)
    } else if code == 2100 {
        Some(Class::Aran1st)
    } else if code == 2110 {
        Some(Class::Aran)
    } else if code == 2200 {
        Some(Class::Evan1st)
    } else if code == 2210 {
        Some(Class::Evan)
    } else {
        None
    }
}

impl Class {
    /// The canonical numeric code of this class tag. Total: every tag has
    /// exactly one code, and no two tags share one (`lemma_class_encode_injective`).
    pub fn encode(self) -> (code: u16)
        ensures
            code == spec_class_code(self),
    {
        match self {
            Class::Beginner => 0,
            Class::Swordman => 100,
            Class::Fighter => 110,
            Class::Page => 120,
            Class::Spearman => 130,
            Class::Magician => 200,
            Class::FP => 210,
            Class::IL => 220,
            Class::Cleric => 230,
            Class::Archer => 300,
            Class::Hunter => 310,
            Class::Crossbowman => 320,
            Class::Rogue => 400,
            Class::Assassin => 410,
            Class::Bandit => 420,
            Class::DualBlade => 430,
            Class::Pirate => 500,
            Class::Brawler => 510,
            Class::Gunslinger => 520,
            Class::Noblesse => 1000,
            Class::DawnWarrior1st => 1100,
            Class::DawnWarrior => 1110,
            Class::BlazeWizard1st => 1200,
            Class::BlazeWizard => 1210,
            Class::WindArcher1st => 1300,
            Class::WindArcher => 1310,
            Class::NightWalker1st => 1400,
            Class::NightWalker => 1410,
            Class::ThunderBreaker1st => 1500,
            Class::ThunderBreaker => 1510,
            Class::AranBeginner => 2000,
            Class::EvanBeginner => 2001,
            Class::Aran1st => 2100,
            Class::Aran => 2110,
            Class::Evan1st => 2200,
            Class::Evan => 2210,
        }
    }

    /// The class tag whose canonical code is `code`. Partial on purpose:
    /// only codes for tags of the closed enumeration are accepted. For
    /// example, `111` stands for a third-grade progression outside this
    /// set, so it is rejected even though `110` decodes to `Fighter`.
    pub fn decode(code: u16) -> (r: Result<Class, UnrecognizedIdentifier>)
        ensures
            r is Ok <==> spec_class_of_code(code) is Some,
            r is Ok ==> r->Ok_0 == spec_class_of_code(code)->0,
            r is Err ==> r->Err_0.code == code,
    {
        match code {
            0 => Ok(Class::Beginner),
            100 => Ok(Class::Swordman),
            110 => Ok(Class::Fighter),
            120 => Ok(Class::Page),
            130 => Ok(Class::Spearman),
            200 => Ok(Class::Magician),
            210 => Ok(Class::FP),
            220 => Ok(Class::IL),
            230 => Ok(Class::Cleric),
            300 => Ok(Class::Archer),
            310 => Ok(Class::Hunter),
            320 => Ok(Class::Crossbowman),
            400 => Ok(Class::Rogue),
            410 => Ok(Class::Assassin),
            420 => Ok(Class::Bandit),
            430 => Ok(Class::DualBlade),
            500 => Ok(Class::Pirate),
            510 => Ok(Class::Brawler),
            520 => Ok(Class::Gunslinger),
            1000 => Ok(Class::Noblesse),
            1100 => Ok(Class::DawnWarrior1st),
            1110 => Ok(Class::DawnWarrior),
            1200 => Ok(Class::BlazeWizard1st),
            1210 => Ok(Class::BlazeWizard),
            1300 => Ok(Class::WindArcher1st),
            1310 => Ok(Class::WindArcher),
            1400 => Ok(Class::NightWalker1st),
            1410 => Ok(Class::NightWalker),
            1500 => Ok(Class::ThunderBreaker1st),
            1510 => Ok(Class::ThunderBreaker),
            2000 => Ok(Class::AranBeginner),
            2001 => Ok(Class::EvanBeginner),
            2100 => Ok(Class::Aran1st),
            2110 => Ok(Class::Aran),
            2200 => Ok(Class::Evan1st),
            2210 => Ok(Class::Evan),
            _ => Err(UnrecognizedIdentifier { code }),
        }
    }
}

impl Class {
    /// Decodes an ordered sequence of class codes, preserving order.
    /// Succeeds exactly when every code is in the image of the encoding;
    /// otherwise reports the first unrecognized code and no partial result.
    pub fn decode_all(codes: &Vec<u16>) -> (r: Result<Vec<Class>, UnrecognizedIdentifier>)
        ensures
            r is Ok <==> forall|i: int|
                0 <= i < codes@.len() ==> spec_class_of_code(#[trigger] codes@[i]) is Some,
            r is Ok ==> r->Ok_0@.len() == codes@.len() && forall|i: int|
                0 <= i < codes@.len() ==> Some(#[trigger] r->Ok_0@[i]) == spec_class_of_code(codes@[i]),
            r is Err ==> exists|i: int|
                0 <= i < codes@.len() && spec_class_of_code(#[trigger] codes@[i]) is None
                    && r->Err_0.code == codes@[i] && forall|k: int|
                    0 <= k < i ==> spec_class_of_code(#[trigger] codes@[k]) is Some,
    {
        let mut out: Vec<Class> = Vec::new();
        let mut idx: usize = 0;
        while idx < codes.len()
            invariant
                idx <= codes@.len(),
                out@.len() == idx,
                forall|k: int| 0 <= k < idx ==> spec_class_of_code(#[trigger] codes@[k]) is Some,
                forall|k: int| 0 <= k < idx ==> Some(#[trigger] out@[k]) == spec_class_of_code(codes@[k]),
            decreases codes@.len() - idx,
        {
            match Class::decode(codes[idx]) {
                Ok(c) => out.push(c),
                Err(e) => {
                    return Err(e);
                },
            }
            idx += 1;
        }
        Ok(out)
    }
}

/// Round-trip law: decoding the canonical code of any class tag gives
/// that tag back.
pub proof fn lemma_class_round_trip(c: Class)
    ensures
        spec_class_of_code(spec_class_code(c)) == Some(c),
{
}

/// Injectivity law: no two distinct class tags share a canonical code.
pub proof fn lemma_class_encode_injective(a: Class, b: Class)
    requires
        spec_class_code(a) == spec_class_code(b),
    ensures
        a == b,
{
}

/// Exactness law: decoding succeeds exactly on the image of the encoding.
/// A code outside the image decodes to nothing, and a successful decode
/// returns the one tag that encodes to the given code.
pub proof fn lemma_class_decode_exact(code: u16)
    ensures
        spec_class_of_code(code) is None ==> forall|c: Class| #[trigger] spec_class_code(c) != code,
        spec_class_of_code(code) is Some ==> spec_class_code(spec_class_of_code(code)->0) == code,
{
}

/// A broad weapon/equipment category, as opposed to an exact item
/// identifier. Codes are drawn from a contiguous sub-range of a larger
/// item-category space (hence the gaps around 134–136 and 139).
#[derive(Clone, Copy, Debug, PartialEq, Eq, Structural)]
pub enum WepType {
    OneHandedSword,
    OneHandedAxe,
    OneHandedMace,
    Dagger,
    Wand,
    Staff,
    TwoHandedSword,
    TwoHandedAxe,
    TwoHandedMace,
    Spear,
    Polearm,
    Bow,
    Crossbow,
    Claw,
    Knuckler,
    Gun,
}

/// The canonical numeric code of each weapon-category tag.
pub open spec fn spec_wep_code(w: WepType) -> u8 {
    match w {
        WepType::OneHandedSword => 130,
        WepType::OneHandedAxe => 131,
        WepType::OneHandedMace => 132,
        WepType::Dagger => 133,
        WepType::Wand => 137,
        WepType::Staff => 138,
        WepType::TwoHandedSword => 140,
        WepType::TwoHandedAxe => 141,
        WepType::TwoHandedMace => 142,
        WepType::Spear => 143,
        WepType::Polearm => 144,
        WepType::Bow => 145,
        WepType::Crossbow => 146,
        WepType::Claw => 147,
        WepType::Knuckler => 148,
        WepType::Gun => 149,
    }
}

/// The partial reverse of `spec_wep_code`.
pub open spec fn spec_wep_of_code(code: u8) -> Option<WepType> {
    if code == 130 {
        Some(WepType::OneHandedSword)
    } else if code == 131 {
        Some(WepType::OneHandedAxe)
    } else if code == 132 {
        Some(WepType::OneHandedMace)
    } else if code == 133 {
        Some(WepType::Dagger)
    } else if code == 137 {
        Some(WepType::Wand)
    } else if code == 138 {
        Some(WepType::Staff)
    } else if code == 140 {
        Some(WepType::TwoHandedSword)
    } else if code == 141 {
        Some(WepType::TwoHandedAxe)
    } else if code == 142 {
        Some(WepType::TwoHandedMace)
    } else if code == 143 {
        Some(WepType::Spear)
    } else if code == 144 {
        Some(WepType::Polearm)
    } else if code == 145 {
        Some(WepType::Bow)
    } else if code == 146 {
        Some(WepType::Crossbow)
    } else if code == 147 {
        Some(WepType::Claw)
    } else if code == 148 {
        Some(WepType::Knuckler)
    } else if code == 149 {
        Some(WepType::Gun)
    } else {
        None
    }
}

impl WepType {
    /// The canonical numeric code of this weapon category. Total and
    /// injective (`lemma_wep_encode_injective`).
    pub fn encode(self) -> (code: u8)
        ensures
            code == spec_wep_code(self),
    {
        match self {
            WepType::OneHandedSword => 130,
            WepType::OneHandedAxe => 131,
            WepType::OneHandedMace => 132,
            WepType::Dagger => 133,
            WepType::Wand => 137,
            WepType::Staff => 138,
            WepType::TwoHandedSword => 140,
            WepType::TwoHandedAxe => 141,
            WepType::TwoHandedMace => 142,
            WepType::Spear => 143,
            WepType::Polearm => 144,
            WepType::Bow => 145,
            WepType::Crossbow => 146,
            WepType::Claw => 147,
            WepType::Knuckler => 148,
            WepType::Gun => 149,
        }
    }

    /// The weapon category whose canonical code is `code`. Partial: codes
    /// in the gaps of the sub-range (`134`, `139`, ...) and codes outside
    /// it are rejected, never coerced to a nearby tag.
    pub fn decode(code: u8) -> (r: Result<WepType, UnrecognizedIdentifier>)
        ensures
            r is Ok <==> spec_wep_of_code(code) is Some,
            r is Ok ==> r->Ok_0 == spec_wep_of_code(code)->0,
            r is Err ==> r->Err_0.code == code as u16,
    {
        match code {
            130 => Ok(WepType::OneHandedSword),
            131 => Ok(WepType::OneHandedAxe),
            132 => Ok(WepType::OneHandedMace),
            133 => Ok(WepType::Dagger),
            137 => Ok(WepType::Wand),
            138 => Ok(WepType::Staff),
            140 => Ok(WepType::TwoHandedSword),
            141 => Ok(WepType::TwoHandedAxe),
            142 => Ok(WepType::TwoHandedMace),
            143 => Ok(WepType::Spear),
            144 => Ok(WepType::Polearm),
            145 => Ok(WepType::Bow),
            146 => Ok(WepType::Crossbow),
            147 => Ok(WepType::Claw),
            148 => Ok(WepType::Knuckler),
            149 => Ok(WepType::Gun),
            _ => Err(UnrecognizedIdentifier { code: code as u16 }),
        }
    }
}

/// Round-trip law for weapon categories.
pub proof fn lemma_wep_round_trip(w: WepType)
    ensures
        spec_wep_of_code(spec_wep_code(w)) == Some(w),
{
}

/// Injectivity law for weapon categories.
pub proof fn lemma_wep_encode_injective(a: WepType, b: WepType)
    requires
        spec_wep_code(a) == spec_wep_code(b),
    ensures
        a == b,
{
}

/// Exactness law for weapon categories: decoding succeeds exactly on the
/// image of the encoding.
pub proof fn lemma_wep_decode_exact(code: u8)
    ensures
        spec_wep_of_code(code) is None ==> forall|w: WepType| #[trigger] spec_wep_code(w) != code,
        spec_wep_of_code(code) is Some ==> spec_wep_code(spec_wep_of_code(code)->0) == code,
{
}

/// The availability zone of a job.
#[derive(Clone, Copy, Debug, PartialEq, Eq, Structural)]
pub enum Location {
    Camp,
    MapleIsland,
    Outland,
}

/// A trainable stat: two offensive, two defensive/utility, two
/// resource-pool members.
#[derive(Clone, Copy, Debug, PartialEq, Eq, Structural)]
pub enum Stat {
    STR,
    DEX,
    INT,
    LUK,
    MAXHP,
    MAXMP,
}

/// One requirement on how a stat is trained.
#[derive(Clone, Copy, Debug, PartialEq, Eq, Structural)]
pub enum StatConstraint {
    /// The stat must remain below some reference.
    Less(Stat),
    /// Full-allocation requirement on the stat.
    Ful(Stat),
    /// Exclusivity: no stat other than this one may be trained.
    Pure(Stat),
}

/// The stat layout of a job: which stats it trains primarily and
/// secondarily, and the constraint groups that bound the training.
#[derive(Clone, Debug, PartialEq, Eq)]
pub struct Stats {
    pub primary: Vec<Stat>,
    pub secondary: Vec<Stat>,
    pub constraints: Vec<Vec<StatConstraint>>,
}

/// A set of permitted weapons, by breadth: everything, whole categories,
/// or exact item identifiers.
#[derive(Clone, Debug, PartialEq, Eq)]
pub enum WepSet {
    All,
    WepTypes(Vec<WepType>),
    WepIds(Vec<u32>),
}

/// The weapon allowances of a job. `allowed` says what may legally be
/// equipped; `canonical` names the reference/default choices. The two are
/// independent of each other.
#[derive(Clone, Debug, PartialEq, Eq)]
pub struct Weaponry {
    pub allowed: WepSet,
    pub canonical: WepSet,
}

/// A job record: the root value of the schema. An immutable value record
/// with structural equality; `skills: None` ("not applicable") is distinct
/// from `skills: Some(empty)` ("applicable, none assigned yet").
#[derive(Clone, Debug, PartialEq, Eq)]
pub struct Job {
    pub classes: Vec<Class>,
    pub location: Location,
    pub stats: Stats,
    pub weaponry: Weaponry,
    pub ammo: bool,
    pub skills: Option<Vec<u32>>,
}

/// The human-readable label of each class tag.
pub open spec fn spec_class_label(c: Class) -> Seq<char> {
    match c {
        Class::Beginner => "beginner"@,
        Class::Swordman => "sword(wo)man"@,
        Class::Fighter => "fighter"@,
        Class::Page => "page"@,
        Class::Spearman => "spear(wo)man"@,
        Class::Magician => "magician"@,
        Class::FP => "F/P"@,
        Class::IL => "I/L"@,
        Class::Cleric => "cleric"@,
        Class::Archer => "archer"@,
        Class::Hunter => "hunter"@,
        Class::Crossbowman => "crossbow(o)man"@,
        Class::Rogue => "rogue"@,
        Class::Assassin => "assassin"@,
        Class::Bandit => "bandit"@,
        Class::DualBlade => "dual blade"@,
        Class::Pirate => "pirate"@,
        Class::Brawler => "brawler"@,
        Class::Gunslinger => "gunslinger"@,
        Class::Noblesse => "noblesse"@,
        Class::DawnWarrior1st => "dawn warrior (1st grade)"@,
        Class::DawnWarrior => "dawn warrior"@,
        Class::BlazeWizard1st => "blaze wizard (1st grade)"@,
        Class::BlazeWizard => "blaze wizard"@,
        Class::WindArcher1st => "wind archer (1st grade)"@,
        Class::WindArcher => "wind archer"@,
        Class::NightWalker1st => "night walker (1st grade)"@,
        Class::NightWalker => "night walker"@,
        Class::ThunderBreaker1st => "thunder breaker (1st grade)"@,
        Class::ThunderBreaker => "thunder breaker"@,
        Class::AranBeginner => "aran (beginner)"@,
        Class::EvanBeginner => "evan (beginner)"@,
        Class::Aran1st => "aran (1st grade)"@,
        Class::Aran => "aran"@,
        Class::Evan1st => "evan (1st grade)"@,
        Class::Evan => "evan"@,
    }
}

impl Class {
    /// The stable human-readable label of this class tag, for diagnostics
    /// and UI. Not part of the wire format.
    pub fn label(self) -> (r: &'static str)
        ensures
            r@ == spec_class_label(self),
    {
        match self {
            Class::Beginner => "beginner",
            Class::Swordman => "sword(wo)man",
            Class::Fighter => "fighter",
            Class::Page => "page",
            Class::Spearman => "spear(wo)man",
            Class::Magician => "magician",
            Class::FP => "F/P",
            Class::IL => "I/L",
            Class::Cleric => "cleric",
            Class::Archer => "archer",
            Class::Hunter => "hunter",
            Class::Crossbowman => "crossbow(o)man",
            Class::Rogue => "rogue",
            Class::Assassin => "assassin",
            Class::Bandit => "bandit",
            Class::DualBlade => "dual blade",
            Class::Pirate => "pirate",
            Class::Brawler => "brawler",
            Class::Gunslinger => "gunslinger",
            Class::Noblesse => "noblesse",
            Class::DawnWarrior1st => "dawn warrior (1st grade)",
            Class::DawnWarrior => "dawn warrior",
            Class::BlazeWizard1st => "blaze wizard (1st grade)",
            Class::BlazeWizard => "blaze wizard",
            Class::WindArcher1st => "wind archer (1st grade)",
            Class::WindArcher => "wind archer",
            Class::NightWalker1st => "night walker (1st grade)",
            Class::NightWalker => "night walker",
            Class::ThunderBreaker1st => "thunder breaker (1st grade)",
            Class::ThunderBreaker => "thunder breaker",
            Class::AranBeginner => "aran (beginner)",
            Class::EvanBeginner => "evan (beginner)",
            Class::Aran1st => "aran (1st grade)",
            Class::Aran => "aran",
            Class::Evan1st => "evan (1st grade)",
            Class::Evan => "evan",
        }
    }
}

/// The human-readable label of each availability zone.
pub open spec fn spec_location_label(l: Location) -> Seq<char> {
    match l {
        Location::Camp => "Camp"@,
        Location::MapleIsland => "Maple Island"@,
        Location::Outland => "outland"@,
    }
}

impl Location {
    /// The stable human-readable label of this availability zone.
    pub fn label(self) -> (r: &'static str)
        ensures
            r@ == spec_location_label(self),
    {
        match self {
            Location::Camp => "Camp",
            Location::MapleIsland => "Maple Island",
            Location::Outland => "outland",
        }
    }
}

/// The human-readable label of each stat.
pub open spec fn spec_stat_label(s: Stat) -> Seq<char> {
    match s {
        Stat::STR => "STR"@,
        Stat::DEX => "DEX"@,
        Stat::INT => "INT"@,
        Stat::LUK => "LUK"@,
        Stat::MAXHP => "MAXHP"@,
        Stat::MAXMP => "MAXMP"@,
    }
}

impl Stat {
    /// The stable human-readable label of this stat.
    pub fn label(self) -> (r: &'static str)
        ensures
            r@ == spec_stat_label(self),
    {
        match self {
            Stat::STR => "STR",
            Stat::DEX => "DEX",
            Stat::INT => "INT",
            Stat::LUK => "LUK",
            Stat::MAXHP => "MAXHP",
            Stat::MAXMP => "MAXMP",
        }
    }
}

/// The singular human-readable label of each weapon category.
pub open spec fn spec_wep_label(w: WepType) -> Seq<char> {
    match w {
        WepType::OneHandedSword => "one-handed sword"@,
        WepType::OneHandedAxe => "one-handed axe"@,
        WepType::OneHandedMace => "one-handed BW"@,
        WepType::Dagger => "dagger"@,
        WepType::Wand => "wand"@,
        WepType::Staff => "staff"@,
        WepType::TwoHandedSword => "two-handed sword"@,
        WepType::TwoHandedAxe => "two-handed axe"@,
        WepType::TwoHandedMace => "two-handed BW"@,
        WepType::Spear => "spear"@,
        WepType::Polearm => "polearm"@,
        WepType::Bow => "bow"@,
        WepType::Crossbow => "crossbow"@,
        WepType::Claw => "claw"@,
        WepType::Knuckler => "knuckler"@,
        WepType::Gun => "gun"@,
    }
}

/// The pluralized human-readable label of each weapon category.
pub open spec fn spec_wep_plural(w: WepType) -> Seq<char> {
    match w {
        WepType::OneHandedSword => "one-handed swords"@,
        WepType::OneHandedAxe => "one-handed axes"@,
        WepType::OneHandedMace => "one-handed BWs"@,
        WepType::Dagger => "daggers"@,
        WepType::Wand => "wands"@,
        WepType::Staff => "staves"@,
        WepType::TwoHandedSword => "two-handed swords"@,
        WepType::TwoHandedAxe => "two-handed axes"@,
        WepType::TwoHandedMace => "two-handed BWs"@,
        WepType::Spear => "spears"@,
        WepType::Polearm => "polearms"@,
        WepType::Bow => "bows"@,
        WepType::Crossbow => "crossbows"@,
        WepType::Claw => "claws"@,
        WepType::Knuckler => "knucklers"@,
        WepType::Gun => "guns"@,
    }
}

impl WepType {
    /// The stable singular human-readable label of this weapon category.
    pub fn label(self) -> (r: &'static str)
        ensures
            r@ == spec_wep_label(self),
    {
        match self {
            WepType::OneHandedSword => "one-handed sword",
            WepType::OneHandedAxe => "one-handed axe",
            WepType::OneHandedMace => "one-handed BW",
            WepType::Dagger => "dagger",
            WepType::Wand => "wand",
            WepType::Staff => "staff",
            WepType::TwoHandedSword => "two-handed sword",
            WepType::TwoHandedAxe => "two-handed axe",
            WepType::TwoHandedMace => "two-handed BW",
            WepType::Spear => "spear",
            WepType::Polearm => "polearm",
            WepType::Bow => "bow",
            WepType::Crossbow => "crossbow",
            WepType::Claw => "claw",
            WepType::Knuckler => "knuckler",
            WepType::Gun => "gun",
        }
    }

    /// Decodes an ordered sequence of weapon-category codes, preserving
    /// order. Succeeds exactly when every code is in the image of the
    /// encoding; otherwise reports the first unrecognized code and no
    /// partial result.
    pub fn decode_all(codes: &Vec<u8>) -> (r: Result<Vec<WepType>, UnrecognizedIdentifier>)
        ensures
            r is Ok <==> forall|i: int|
                0 <= i < codes@.len() ==> spec_wep_of_code(#[trigger] codes@[i]) is Some,
            r is Ok ==> r->Ok_0@.len() == codes@.len() && forall|i: int|
                0 <= i < codes@.len() ==> Some(#[trigger] r->Ok_0@[i]) == spec_wep_of_code(codes@[i]),
            r is Err ==> exists|i: int|
                0 <= i < codes@.len() && spec_wep_of_code(#[trigger] codes@[i]) is None
                    && r->Err_0.code == codes@[i] as u16 && forall|k: int|
                    0 <= k < i ==> spec_wep_of_code(#[trigger] codes@[k]) is Some,
    {
        let mut out: Vec<WepType> = Vec::new();
        let mut idx: usize = 0;
        while idx < codes.len()
            invariant
                idx <= codes@.len(),
                out@.len() == idx,
                forall|k: int| 0 <= k < idx ==> spec_wep_of_code(#[trigger] codes@[k]) is Some,
                forall|k: int| 0 <= k < idx ==> Some(#[trigger] out@[k]) == spec_wep_of_code(codes@[k]),
            decreases codes@.len() - idx,
        {
            match WepType::decode(codes[idx]) {
                Ok(w) => out.push(w),
                Err(e) => {
                    return Err(e);
                },
            }
            idx += 1;
        }
        Ok(out)
    }

    /// The pluralized label. "Staves"!!!
    pub fn plural(&self) -> (r: &'static str)
        ensures
            r@ == spec_wep_plural(*self),
    {
        match self {
            WepType::OneHandedSword => "one-handed swords",
            WepType::OneHandedAxe => "one-handed axes",
            WepType::OneHandedMace => "one-handed BWs",
            WepType::Dagger => "daggers",
            WepType::Wand => "wands",
            WepType::Staff => "staves",
            WepType::TwoHandedSword => "two-handed swords",
            WepType::TwoHandedAxe => "two-handed axes",
            WepType::TwoHandedMace => "two-handed BWs",
            WepType::Spear => "spears",
            WepType::Polearm => "polearms",
            WepType::Bow => "bows",
            WepType::Crossbow => "crossbows",
            WepType::Claw => "claws",
            WepType::Knuckler => "knucklers",
            WepType::Gun => "guns",
        }
    }
}

} // verus!

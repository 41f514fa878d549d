//! The taxonomy of things: every type number belongs to at most one category, and a
//! number that no category knows stays with the thing as it is.

use vstd::prelude::*;

verus! {

/// What a thing is: its category with the member of it, or the bare number where no
/// category knows it.
#[derive(Debug, Clone, Copy, PartialEq, Eq, Structural)]
pub enum ThingType {
    Unknown(u16),
    Start(StartType),
    Weapon(WeaponType),
    Ammo(AmmoType),
    Item(ItemType),
    Monster(MonsterType),
    Powerup(PowerupType),
    Key(KeyType),
    Obstacle(ObstacleType),
    Decoration(DecorationType),
    Editor(EditorType),
    Other(OtherType),
}

impl ThingType {
    /// The type number that the value was read from.
    pub open spec fn code(self) -> u16 {
        match self {
            ThingType::Unknown(num) => num,
            ThingType::Start(t) => t.code(),
            ThingType::Weapon(t) => t.code(),
            ThingType::Ammo(t) => t.code(),
            ThingType::Item(t) => t.code(),
            ThingType::Monster(t) => t.code(),
            ThingType::Powerup(t) => t.code(),
            ThingType::Key(t) => t.code(),
            ThingType::Obstacle(t) => t.code(),
            ThingType::Decoration(t) => t.code(),
            ThingType::Editor(t) => t.code(),
            ThingType::Other(t) => t.code(),
        }
    }

    /// The classification of a type number. The categories are asked in a fixed order:
    /// starts, monsters, weapons, ammunition, items, powerups, keys, obstacles,
    /// decorations, others, editor objects. The first that knows the number has it.
    pub open spec fn classify(num: u16) -> ThingType {
        if let Some(t) = StartType::with_code(num) {
            ThingType::Start(t)
        } else if let Some(t) = MonsterType::with_code(num) {
            ThingType::Monster(t)
        } else if let Some(t) = WeaponType::with_code(num) {
            ThingType::Weapon(t)
        } else if let Some(t) = AmmoType::with_code(num) {
            ThingType::Ammo(t)
        } else if let Some(t) = ItemType::with_code(num) {
            ThingType::Item(t)
        } else if let Some(t) = PowerupType::with_code(num) {
            ThingType::Powerup(t)
        } else if let Some(t) = KeyType::with_code(num) {
            ThingType::Key(t)
        } else if let Some(t) = ObstacleType::with_code(num) {
            ThingType::Obstacle(t)
        } else if let Some(t) = DecorationType::with_code(num) {
            ThingType::Decoration(t)
        } else if let Some(t) = OtherType::with_code(num) {
            ThingType::Other(t)
        } else if let Some(t) = EditorType::with_code(num) {
            ThingType::Editor(t)
        } else {
            ThingType::Unknown(num)
        }
    }

    /// The number of categories that know `num`.
    pub open spec fn claims(num: u16) -> int {
        (if StartType::with_code(num) is Some { 1int } else { 0 })
        + (if MonsterType::with_code(num) is Some { 1int } else { 0 })
        + (if WeaponType::with_code(num) is Some { 1int } else { 0 })
        + (if AmmoType::with_code(num) is Some { 1int } else { 0 })
        + (if ItemType::with_code(num) is Some { 1int } else { 0 })
        + (if PowerupType::with_code(num) is Some { 1int } else { 0 })
        + (if KeyType::with_code(num) is Some { 1int } else { 0 })
        + (if ObstacleType::with_code(num) is Some { 1int } else { 0 })
        + (if DecorationType::with_code(num) is Some { 1int } else { 0 })
        + (if OtherType::with_code(num) is Some { 1int } else { 0 })
        + (if EditorType::with_code(num) is Some { 1int } else { 0 })
    }

    /// Classifies a type number.
    pub fn from_type_number(num: u16) -> (r: ThingType)
        ensures
            r == ThingType::classify(num),
            r.code() == num,
    {
        proof {
            ThingType::lemma_classify_keeps_code(num);
        }
        if let Some(t) = StartType::from_u16(num) {
            return ThingType::Start(t);
        }
        if let Some(t) = MonsterType::from_u16(num) {
            return ThingType::Monster(t);
        }
        if let Some(t) = WeaponType::from_u16(num) {
            return ThingType::Weapon(t);
        }
        if let Some(t) = AmmoType::from_u16(num) {
            return ThingType::Ammo(t);
        }
        if let Some(t) = ItemType::from_u16(num) {
            return ThingType::Item(t);
        }
        if let Some(t) = PowerupType::from_u16(num) {
            return ThingType::Powerup(t);
        }
        if let Some(t) = KeyType::from_u16(num) {
            return ThingType::Key(t);
        }
        if let Some(t) = ObstacleType::from_u16(num) {
            return ThingType::Obstacle(t);
        }
        if let Some(t) = DecorationType::from_u16(num) {
            return ThingType::Decoration(t);
        }
        if let Some(t) = OtherType::from_u16(num) {
            return ThingType::Other(t);
        }
        if let Some(t) = EditorType::from_u16(num) {
            return ThingType::Editor(t);
        }
        ThingType::Unknown(num)
    }

    /// The type number that the value was read from.
    pub fn type_number(&self) -> (r: u16)
        ensures
            r == self.code(),
    {
        match self {
            ThingType::Unknown(num) => *num,
            ThingType::Start(t) => t.to_u16(),
            ThingType::Weapon(t) => t.to_u16(),
            ThingType::Ammo(t) => t.to_u16(),
            ThingType::Item(t) => t.to_u16(),
            ThingType::Monster(t) => t.to_u16(),
            ThingType::Powerup(t) => t.to_u16(),
            ThingType::Key(t) => t.to_u16(),
            ThingType::Obstacle(t) => t.to_u16(),
            ThingType::Decoration(t) => t.to_u16(),
            ThingType::Editor(t) => t.to_u16(),
            ThingType::Other(t) => t.to_u16(),
        }
    }

    /// Classification loses nothing: the type number is read back from every result, and
    /// where the result is `Unknown`, it holds the number itself.
    pub proof fn lemma_classify_keeps_code(num: u16)
        ensures
            ThingType::classify(num).code() == num,
            ThingType::classify(num) is Unknown ==> ThingType::classify(num) == ThingType::Unknown(
                num,
            ),
    {
    }

    /// No type number belongs to two categories, and `Unknown` stands exactly for the
    /// numbers that belong to none.
    pub proof fn lemma_one_category(num: u16)
        ensures
            ThingType::claims(num) <= 1,
            ThingType::classify(num) is Unknown <==> ThingType::claims(num) == 0,
    {
    }
}

/// An enemy.
#[derive(Debug, Clone, Copy, PartialEq, Eq, Structural)]
pub enum MonsterType {
    Arachnotron,
    Archvile,
    BaronOfHell,
    Cacodemon,
    CommanderKeen,
    Cyberdemon,
    Demon,
    Chaingunner,
    HellKnight,
    Imp,
    LostSoul,
    Mancubus,
    PainElemental,
    Revenant,
    ShotgunGuy,
    Spectre,
    Spiderdemon,
    WolfensteinSS,
    Zombieman,
}

impl MonsterType {
    /// The code that stands for the variant in a lump.
    pub open spec fn code(self) -> u16 {
        match self {
            MonsterType::Arachnotron => 68,
            MonsterType::Archvile => 64,
            MonsterType::BaronOfHell => 3003,
            MonsterType::Cacodemon => 3005,
            MonsterType::CommanderKeen => 72,
            MonsterType::Cyberdemon => 16,
            MonsterType::Demon => 3002,
            MonsterType::Chaingunner => 65,
            MonsterType::HellKnight => 69,
            MonsterType::Imp => 3001,
            MonsterType::LostSoul => 3006,
            MonsterType::Mancubus => 67,
            MonsterType::PainElemental => 71,
            MonsterType::Revenant => 66,
            MonsterType::ShotgunGuy => 9,
            MonsterType::Spectre => 58,
            MonsterType::Spiderdemon => 7,
            MonsterType::WolfensteinSS => 84,
            MonsterType::Zombieman => 3004,
        }
    }

    /// The variant that `num` stands for, if it stands for one.
    pub open spec fn with_code(num: u16) -> Option<MonsterType> {
        if exists|variant: MonsterType| variant.code() == num {
            Some(choose|variant: MonsterType| variant.code() == num)
        } else {
            None
        }
    }

    /// A code names at most one variant, and every variant is found again by its code.
    pub proof fn lemma_codes(num: u16, variant: MonsterType)
        ensures
            MonsterType::with_code(num) == Some(variant) <==> variant.code() == num,
    {
    }

    /// The variant that `num` stands for, if it stands for one.
    pub fn from_u16(num: u16) -> (r: Option<MonsterType>)
        ensures
            r == MonsterType::with_code(num),
    {
        let found: Option<MonsterType> = match num {
            68 => Some(MonsterType::Arachnotron),
            64 => Some(MonsterType::Archvile),
            3003 => Some(MonsterType::BaronOfHell),
            3005 => Some(MonsterType::Cacodemon),
            72 => Some(MonsterType::CommanderKeen),
            16 => Some(MonsterType::Cyberdemon),
            3002 => Some(MonsterType::Demon),
            65 => Some(MonsterType::Chaingunner),
            69 => Some(MonsterType::HellKnight),
            3001 => Some(MonsterType::Imp),
            3006 => Some(MonsterType::LostSoul),
            67 => Some(MonsterType::Mancubus),
            71 => Some(MonsterType::PainElemental),
            66 => Some(MonsterType::Revenant),
            9 => Some(MonsterType::ShotgunGuy),
            58 => Some(MonsterType::Spectre),
            7 => Some(MonsterType::Spiderdemon),
            84 => Some(MonsterType::WolfensteinSS),
            3004 => Some(MonsterType::Zombieman),
            _ => None,
        };
        proof {
            if let Some(variant) = found {
                MonsterType::lemma_codes(num, variant);
            }
        }
        found
    }

    /// The code that stands for the variant in a lump.
    pub fn to_u16(&self) -> (r: u16)
        ensures
            r == self.code(),
    {
        match self {
            MonsterType::Arachnotron => 68,
            MonsterType::Archvile => 64,
            MonsterType::BaronOfHell => 3003,
            MonsterType::Cacodemon => 3005,
            MonsterType::CommanderKeen => 72,
            MonsterType::Cyberdemon => 16,
            MonsterType::Demon => 3002,
            MonsterType::Chaingunner => 65,
            MonsterType::HellKnight => 69,
            MonsterType::Imp => 3001,
            MonsterType::LostSoul => 3006,
            MonsterType::Mancubus => 67,
            MonsterType::PainElemental => 71,
            MonsterType::Revenant => 66,
            MonsterType::ShotgunGuy => 9,
            MonsterType::Spectre => 58,
            MonsterType::Spiderdemon => 7,
            MonsterType::WolfensteinSS => 84,
            MonsterType::Zombieman => 3004,
        }
    }
}

/// A weapon to pick up.
#[derive(Debug, Clone, Copy, PartialEq, Eq, Structural)]
pub enum WeaponType {
    Shotgun,
    Chainsaw,
    Chaingun,
    RocketLauncher,
    PlasmaRifle,
    BFG9000,
}

impl WeaponType {
    /// The code that stands for the variant in a lump.
    pub open spec fn code(self) -> u16 {
        match self {
            WeaponType::Shotgun => 2001,
            WeaponType::Chainsaw => 2005,
            WeaponType::Chaingun => 2002,
            WeaponType::RocketLauncher => 2003,
            WeaponType::PlasmaRifle => 2004,
            WeaponType::BFG9000 => 2006,
        }
    }

    /// The variant that `num` stands for, if it stands for one.
    pub open spec fn with_code(num: u16) -> Option<WeaponType> {
        if exists|variant: WeaponType| variant.code() == num {
            Some(choose|variant: WeaponType| variant.code() == num)
        } else {
            None
        }
    }

    /// A code names at most one variant, and every variant is found again by its code.
    pub proof fn lemma_codes(num: u16, variant: WeaponType)
        ensures
            WeaponType::with_code(num) == Some(variant) <==> variant.code() == num,
    {
    }

    /// The variant that `num` stands for, if it stands for one.
    pub fn from_u16(num: u16) -> (r: Option<WeaponType>)
        ensures
            r == WeaponType::with_code(num),
    {
        let found: Option<WeaponType> = match num {
            2001 => Some(WeaponType::Shotgun),
            2005 => Some(WeaponType::Chainsaw),
            2002 => Some(WeaponType::Chaingun),
            2003 => Some(WeaponType::RocketLauncher),
            2004 => Some(WeaponType::PlasmaRifle),
            2006 => Some(WeaponType::BFG9000),
            _ => None,
        };
        proof {
            if let Some(variant) = found {
                WeaponType::lemma_codes(num, variant);
            }
        }
        found
    }

    /// The code that stands for the variant in a lump.
    pub fn to_u16(&self) -> (r: u16)
        ensures
            r == self.code(),
    {
        match self {
            WeaponType::Shotgun => 2001,
            WeaponType::Chainsaw => 2005,
            WeaponType::Chaingun => 2002,
            WeaponType::RocketLauncher => 2003,
            WeaponType::PlasmaRifle => 2004,
            WeaponType::BFG9000 => 2006,
        }
    }
}

/// Ammunition to pick up.
#[derive(Debug, Clone, Copy, PartialEq, Eq, Structural)]
pub enum AmmoType {
    ShotgunShells,
    BoxOfBullets,
    BoxOfRockets,
    BoxOfShotgunShells,
    Clip,
    EnergyCell,
    EnergyPack,
    Rocket,
}

impl AmmoType {
    /// The code that stands for the variant in a lump.
    pub open spec fn code(self) -> u16 {
        match self {
            AmmoType::ShotgunShells => 2008,
            AmmoType::BoxOfBullets => 2048,
            AmmoType::BoxOfRockets => 2046,
            AmmoType::BoxOfShotgunShells => 2049,
            AmmoType::Clip => 2007,
            AmmoType::EnergyCell => 2047,
            AmmoType::EnergyPack => 17,
            AmmoType::Rocket => 2010,
        }
    }

    /// The variant that `num` stands for, if it stands for one.
    pub open spec fn with_code(num: u16) -> Option<AmmoType> {
        if exists|variant: AmmoType| variant.code() == num {
            Some(choose|variant: AmmoType| variant.code() == num)
        } else {
            None
        }
    }

    /// A code names at most one variant, and every variant is found again by its code.
    pub proof fn lemma_codes(num: u16, variant: AmmoType)
        ensures
            AmmoType::with_code(num) == Some(variant) <==> variant.code() == num,
    {
    }

    /// The variant that `num` stands for, if it stands for one.
    pub fn from_u16(num: u16) -> (r: Option<AmmoType>)
        ensures
            r == AmmoType::with_code(num),
    {
        let found: Option<AmmoType> = match num {
            2008 => Some(AmmoType::ShotgunShells),
            2048 => Some(AmmoType::BoxOfBullets),
            2046 => Some(AmmoType::BoxOfRockets),
            2049 => Some(AmmoType::BoxOfShotgunShells),
            2007 => Some(AmmoType::Clip),
            2047 => Some(AmmoType::EnergyCell),
            17 => Some(AmmoType::EnergyPack),
            2010 => Some(AmmoType::Rocket),
            _ => None,
        };
        proof {
            if let Some(variant) = found {
                AmmoType::lemma_codes(num, variant);
            }
        }
        found
    }

    /// The code that stands for the variant in a lump.
    pub fn to_u16(&self) -> (r: u16)
        ensures
            r == self.code(),
    {
        match self {
            AmmoType::ShotgunShells => 2008,
            AmmoType::BoxOfBullets => 2048,
            AmmoType::BoxOfRockets => 2046,
            AmmoType::BoxOfShotgunShells => 2049,
            AmmoType::Clip => 2007,
            AmmoType::EnergyCell => 2047,
            AmmoType::EnergyPack => 17,
            AmmoType::Rocket => 2010,
        }
    }
}

/// An artifact to pick up.
#[derive(Debug, Clone, Copy, PartialEq, Eq, Structural)]
pub enum ItemType {
    ArmourBonus,
    Berserk,
    ComputerAreaMap,
    HealthBonus,
    Invulnerability,
    LightAmplificationVisor,
    Megasphere,
    Invisibility,
    Supercharge,
}

impl ItemType {
    /// The code that stands for the variant in a lump.
    pub open spec fn code(self) -> u16 {
        match self {
            ItemType::ArmourBonus => 2015,
            ItemType::Berserk => 2023,
            ItemType::ComputerAreaMap => 2026,
            ItemType::HealthBonus => 2014,
            ItemType::Invulnerability => 2022,
            ItemType::LightAmplificationVisor => 2045,
            ItemType::Megasphere => 83,
            ItemType::Invisibility => 2024,
            ItemType::Supercharge => 2013,
        }
    }

    /// The variant that `num` stands for, if it stands for one.
    pub open spec fn with_code(num: u16) -> Option<ItemType> {
        if exists|variant: ItemType| variant.code() == num {
            Some(choose|variant: ItemType| variant.code() == num)
        } else {
            None
        }
    }

    /// A code names at most one variant, and every variant is found again by its code.
    pub proof fn lemma_codes(num: u16, variant: ItemType)
        ensures
            ItemType::with_code(num) == Some(variant) <==> variant.code() == num,
    {
    }

    /// The variant that `num` stands for, if it stands for one.
    pub fn from_u16(num: u16) -> (r: Option<ItemType>)
        ensures
            r == ItemType::with_code(num),
    {
        let found: Option<ItemType> = match num {
            2015 => Some(ItemType::ArmourBonus),
            2023 => Some(ItemType::Berserk),
            2026 => Some(ItemType::ComputerAreaMap),
            2014 => Some(ItemType::HealthBonus),
            2022 => Some(ItemType::Invulnerability),
            2045 => Some(ItemType::LightAmplificationVisor),
            83 => Some(ItemType::Megasphere),
            2024 => Some(ItemType::Invisibility),
            2013 => Some(ItemType::Supercharge),
            _ => None,
        };
        proof {
            if let Some(variant) = found {
                ItemType::lemma_codes(num, variant);
            }
        }
        found
    }

    /// The code that stands for the variant in a lump.
    pub fn to_u16(&self) -> (r: u16)
        ensures
            r == self.code(),
    {
        match self {
            ItemType::ArmourBonus => 2015,
            ItemType::Berserk => 2023,
            ItemType::ComputerAreaMap => 2026,
            ItemType::HealthBonus => 2014,
            ItemType::Invulnerability => 2022,
            ItemType::LightAmplificationVisor => 2045,
            ItemType::Megasphere => 83,
            ItemType::Invisibility => 2024,
            ItemType::Supercharge => 2013,
        }
    }
}

/// Health, armour or equipment to pick up.
#[derive(Debug, Clone, Copy, PartialEq, Eq, Structural)]
pub enum PowerupType {
    GreenArmour,
    Backpack,
    Medikit,
    BlueArmour,
    RadiationSuit,
    Stimpack,
}

impl PowerupType {
    /// The code that stands for the variant in a lump.
    pub open spec fn code(self) -> u16 {
        match self {
            PowerupType::GreenArmour => 2018,
            PowerupType::Backpack => 8,
            PowerupType::Medikit => 2012,
            PowerupType::BlueArmour => 2019,
            PowerupType::RadiationSuit => 2025,
            PowerupType::Stimpack => 2011,
        }
    }

    /// The variant that `num` stands for, if it stands for one.
    pub open spec fn with_code(num: u16) -> Option<PowerupType> {
        if exists|variant: PowerupType| variant.code() == num {
            Some(choose|variant: PowerupType| variant.code() == num)
        } else {
            None
        }
    }

    /// A code names at most one variant, and every variant is found again by its code.
    pub proof fn lemma_codes(num: u16, variant: PowerupType)
        ensures
            PowerupType::with_code(num) == Some(variant) <==> variant.code() == num,
    {
    }

    /// The variant that `num` stands for, if it stands for one.
    pub fn from_u16(num: u16) -> (r: Option<PowerupType>)
        ensures
            r == PowerupType::with_code(num),
    {
        let found: Option<PowerupType> = match num {
            2018 => Some(PowerupType::GreenArmour),
            8 => Some(PowerupType::Backpack),
            2012 => Some(PowerupType::Medikit),
            2019 => Some(PowerupType::BlueArmour),
            2025 => Some(PowerupType::RadiationSuit),
            2011 => Some(PowerupType::Stimpack),
            _ => None,
        };
        proof {
            if let Some(variant) = found {
                PowerupType::lemma_codes(num, variant);
            }
        }
        found
    }

    /// The code that stands for the variant in a lump.
    pub fn to_u16(&self) -> (r: u16)
        ensures
            r == self.code(),
    {
        match self {
            PowerupType::GreenArmour => 2018,
            PowerupType::Backpack => 8,
            PowerupType::Medikit => 2012,
            PowerupType::BlueArmour => 2019,
            PowerupType::RadiationSuit => 2025,
            PowerupType::Stimpack => 2011,
        }
    }
}

/// A key card or skull key.
#[derive(Debug, Clone, Copy, PartialEq, Eq, Structural)]
pub enum KeyType {
    RedKey,
    BlueKey,
    YellowKey,
    RedSkullKey,
    BlueSkullKey,
    YellowSkullKey,
}

impl KeyType {
    /// The code that stands for the variant in a lump.
    pub open spec fn code(self) -> u16 {
        match self {
            KeyType::RedKey => 13,
            KeyType::BlueKey => 5,
            KeyType::YellowKey => 6,
            KeyType::RedSkullKey => 38,
            KeyType::BlueSkullKey => 40,
            KeyType::YellowSkullKey => 39,
        }
    }

    /// The variant that `num` stands for, if it stands for one.
    pub open spec fn with_code(num: u16) -> Option<KeyType> {
        if exists|variant: KeyType| variant.code() == num {
            Some(choose|variant: KeyType| variant.code() == num)
        } else {
            None
        }
    }

    /// A code names at most one variant, and every variant is found again by its code.
    pub proof fn lemma_codes(num: u16, variant: KeyType)
        ensures
            KeyType::with_code(num) == Some(variant) <==> variant.code() == num,
    {
    }

    /// The variant that `num` stands for, if it stands for one.
    pub fn from_u16(num: u16) -> (r: Option<KeyType>)
        ensures
            r == KeyType::with_code(num),
    {
        let found: Option<KeyType> = match num {
            13 => Some(KeyType::RedKey),
            5 => Some(KeyType::BlueKey),
            6 => Some(KeyType::YellowKey),
            38 => Some(KeyType::RedSkullKey),
            40 => Some(KeyType::BlueSkullKey),
            39 => Some(KeyType::YellowSkullKey),
            _ => None,
        };
        proof {
            if let Some(variant) = found {
                KeyType::lemma_codes(num, variant);
            }
        }
        found
    }

    /// The code that stands for the variant in a lump.
    pub fn to_u16(&self) -> (r: u16)
        ensures
            r == self.code(),
    {
        match self {
            KeyType::RedKey => 13,
            KeyType::BlueKey => 5,
            KeyType::YellowKey => 6,
            KeyType::RedSkullKey => 38,
            KeyType::BlueSkullKey => 40,
            KeyType::YellowSkullKey => 39,
        }
    }
}

/// Where a player enters the level.
#[derive(Debug, Clone, Copy, PartialEq, Eq, Structural)]
pub enum StartType {
    Player1Start,
    Player2Start,
    Player3Start,
    Player4Start,
    DeathmatchStart,
}

impl StartType {
    /// The code that stands for the variant in a lump.
    pub open spec fn code(self) -> u16 {
        match self {
            StartType::Player1Start => 1,
            StartType::Player2Start => 2,
            StartType::Player3Start => 3,
            StartType::Player4Start => 4,
            StartType::DeathmatchStart => 11,
        }
    }

    /// The variant that `num` stands for, if it stands for one.
    pub open spec fn with_code(num: u16) -> Option<StartType> {
        if exists|variant: StartType| variant.code() == num {
            Some(choose|variant: StartType| variant.code() == num)
        } else {
            None
        }
    }

    /// A code names at most one variant, and every variant is found again by its code.
    pub proof fn lemma_codes(num: u16, variant: StartType)
        ensures
            StartType::with_code(num) == Some(variant) <==> variant.code() == num,
    {
    }

    /// The variant that `num` stands for, if it stands for one.
    pub fn from_u16(num: u16) -> (r: Option<StartType>)
        ensures
            r == StartType::with_code(num),
    {
        let found: Option<StartType> = match num {
            1 => Some(StartType::Player1Start),
            2 => Some(StartType::Player2Start),
            3 => Some(StartType::Player3Start),
            4 => Some(StartType::Player4Start),
            11 => Some(StartType::DeathmatchStart),
            _ => None,
        };
        proof {
            if let Some(variant) = found {
                StartType::lemma_codes(num, variant);
            }
        }
        found
    }

    /// The code that stands for the variant in a lump.
    pub fn to_u16(&self) -> (r: u16)
        ensures
            r == self.code(),
    {
        match self {
            StartType::Player1Start => 1,
            StartType::Player2Start => 2,
            StartType::Player3Start => 3,
            StartType::Player4Start => 4,
            StartType::DeathmatchStart => 11,
        }
    }
}

/// An object that drives a level mechanism.
#[derive(Debug, Clone, Copy, PartialEq, Eq, Structural)]
pub enum OtherType {
    TeleportLanding,
    IconOfSinSpawnSpot,
    JohnRomeroHead,
    IconOfSinMonsterSpawner,
}

impl OtherType {
    /// The code that stands for the variant in a lump.
    pub open spec fn code(self) -> u16 {
        match self {
            OtherType::TeleportLanding => 14,
            OtherType::IconOfSinSpawnSpot => 87,
            OtherType::JohnRomeroHead => 88,
            OtherType::IconOfSinMonsterSpawner => 89,
        }
    }

    /// The variant that `num` stands for, if it stands for one.
    pub open spec fn with_code(num: u16) -> Option<OtherType> {
        if exists|variant: OtherType| variant.code() == num {
            Some(choose|variant: OtherType| variant.code() == num)
        } else {
            None
        }
    }

    /// A code names at most one variant, and every variant is found again by its code.
    pub proof fn lemma_codes(num: u16, variant: OtherType)
        ensures
            OtherType::with_code(num) == Some(variant) <==> variant.code() == num,
    {
    }

    /// The variant that `num` stands for, if it stands for one.
    pub fn from_u16(num: u16) -> (r: Option<OtherType>)
        ensures
            r == OtherType::with_code(num),
    {
        let found: Option<OtherType> = match num {
            14 => Some(OtherType::TeleportLanding),
            87 => Some(OtherType::IconOfSinSpawnSpot),
            88 => Some(OtherType::JohnRomeroHead),
            89 => Some(OtherType::IconOfSinMonsterSpawner),
            _ => None,
        };
        proof {
            if let Some(variant) = found {
                OtherType::lemma_codes(num, variant);
            }
        }
        found
    }

    /// The code that stands for the variant in a lump.
    pub fn to_u16(&self) -> (r: u16)
        ensures
            r == self.code(),
    {
        match self {
            OtherType::TeleportLanding => 14,
            OtherType::IconOfSinSpawnSpot => 87,
            OtherType::JohnRomeroHead => 88,
            OtherType::IconOfSinMonsterSpawner => 89,
        }
    }
}

/// Scenery that blocks movement.
#[derive(Debug, Clone, Copy, PartialEq, Eq, Structural)]
pub enum ObstacleType {
    BrownStump,
    BurningBarrel,
    BurntTree,
    Candelabra,
    EvilEye,
    ExplodingBarrel,
    FiveSkullPole,
    FloatingSkull,
    FloorLamp,
    HangingLeg,
    HangingLegPair,
    HangingTorsoNoBrain,
    HangingTorsoLookingDown,
    HangingTorsoLookingUp,
    HangingTorsoOpenSkull,
    HangingVictimArmsOut,
    HangingVictimNoBrainsOrGuts,
    HangingVictimGutsRemoved,
    HangingVictimOneLeg,
    HangingVictimTwitching,
    ImpaledHuman,
    LargeBrownTree,
    PileOfSkullsWithCandles,
    ShortBlueFirestick,
    ShortGreenFirestick,
    ShortGreenPillar,
    ShortGreenPillarWithHeart,
    ShortRedFirestick,
    ShortRedPillar,
    ShortRedPillarWithSkull,
    ShortTechnoFloorLamp,
    SkullOnPole,
    TallBlueFirestick,
    TallGreenFirestick,
    TallGreenPillar,
    TallRedFirestick,
    TallRedPillar,
    TallTechnoColumn,
    TallTechnoFloorLamp,
    TwitchingImpaledHuman,
}

impl ObstacleType {
    /// The code that stands for the variant in a lump.
    pub open spec fn code(self) -> u16 {
        match self {
            ObstacleType::BrownStump => 47,
            ObstacleType::BurningBarrel => 70,
            ObstacleType::BurntTree => 43,
            ObstacleType::Candelabra => 35,
            ObstacleType::EvilEye => 41,
            ObstacleType::ExplodingBarrel => 2035,
            ObstacleType::FiveSkullPole => 28,
            ObstacleType::FloatingSkull => 42,
            ObstacleType::FloorLamp => 2028,
            ObstacleType::HangingLeg => 53,
            ObstacleType::HangingLegPair => 52,
            ObstacleType::HangingTorsoNoBrain => 78,
            ObstacleType::HangingTorsoLookingDown => 75,
            ObstacleType::HangingTorsoLookingUp => 77,
            ObstacleType::HangingTorsoOpenSkull => 76,
            ObstacleType::HangingVictimArmsOut => 50,
            ObstacleType::HangingVictimNoBrainsOrGuts => 74,
            ObstacleType::HangingVictimGutsRemoved => 73,
            ObstacleType::HangingVictimOneLeg => 51,
            ObstacleType::HangingVictimTwitching => 49,
            ObstacleType::ImpaledHuman => 25,
            ObstacleType::LargeBrownTree => 54,
            ObstacleType::PileOfSkullsWithCandles => 29,
            ObstacleType::ShortBlueFirestick => 55,
            ObstacleType::ShortGreenFirestick => 56,
            ObstacleType::ShortGreenPillar => 31,
            ObstacleType::ShortGreenPillarWithHeart => 36,
            ObstacleType::ShortRedFirestick => 57,
            ObstacleType::ShortRedPillar => 33,
            ObstacleType::ShortRedPillarWithSkull => 37,
            ObstacleType::ShortTechnoFloorLamp => 86,
            ObstacleType::SkullOnPole => 27,
            ObstacleType::TallBlueFirestick => 44,
            ObstacleType::TallGreenFirestick => 45,
            ObstacleType::TallGreenPillar => 30,
            ObstacleType::TallRedFirestick => 46,
            ObstacleType::TallRedPillar => 32,
            ObstacleType::TallTechnoColumn => 48,
            ObstacleType::TallTechnoFloorLamp => 85,
            ObstacleType::TwitchingImpaledHuman => 26,
        }
    }

    /// The variant that `num` stands for, if it stands for one.
    pub open spec fn with_code(num: u16) -> Option<ObstacleType> {
        if exists|variant: ObstacleType| variant.code() == num {
            Some(choose|variant: ObstacleType| variant.code() == num)
        } else {
            None
        }
    }

    /// A code names at most one variant, and every variant is found again by its code.
    pub proof fn lemma_codes(num: u16, variant: ObstacleType)
        ensures
            ObstacleType::with_code(num) == Some(variant) <==> variant.code() == num,
    {
    }

    /// The variant that `num` stands for, if it stands for one.
    pub fn from_u16(num: u16) -> (r: Option<ObstacleType>)
        ensures
            r == ObstacleType::with_code(num),
    {
        let found: Option<ObstacleType> = match num {
            47 => Some(ObstacleType::BrownStump),
            70 => Some(ObstacleType::BurningBarrel),
            43 => Some(ObstacleType::BurntTree),
            35 => Some(ObstacleType::Candelabra),
            41 => Some(ObstacleType::EvilEye),
            2035 => Some(ObstacleType::ExplodingBarrel),
            28 => Some(ObstacleType::FiveSkullPole),
            42 => Some(ObstacleType::FloatingSkull),
            2028 => Some(ObstacleType::FloorLamp),
            53 => Some(ObstacleType::HangingLeg),
            52 => Some(ObstacleType::HangingLegPair),
            78 => Some(ObstacleType::HangingTorsoNoBrain),
            75 => Some(ObstacleType::HangingTorsoLookingDown),
            77 => Some(ObstacleType::HangingTorsoLookingUp),
            76 => Some(ObstacleType::HangingTorsoOpenSkull),
            50 => Some(ObstacleType::HangingVictimArmsOut),
            74 => Some(ObstacleType::HangingVictimNoBrainsOrGuts),
            73 => Some(ObstacleType::HangingVictimGutsRemoved),
            51 => Some(ObstacleType::HangingVictimOneLeg),
            49 => Some(ObstacleType::HangingVictimTwitching),
            25 => Some(ObstacleType::ImpaledHuman),
            54 => Some(ObstacleType::LargeBrownTree),
            29 => Some(ObstacleType::PileOfSkullsWithCandles),
            55 => Some(ObstacleType::ShortBlueFirestick),
            56 => Some(ObstacleType::ShortGreenFirestick),
            31 => Some(ObstacleType::ShortGreenPillar),
            36 => Some(ObstacleType::ShortGreenPillarWithHeart),
            57 => Some(ObstacleType::ShortRedFirestick),
            33 => Some(ObstacleType::ShortRedPillar),
            37 => Some(ObstacleType::ShortRedPillarWithSkull),
            86 => Some(ObstacleType::ShortTechnoFloorLamp),
            27 => Some(ObstacleType::SkullOnPole),
            44 => Some(ObstacleType::TallBlueFirestick),
            45 => Some(ObstacleType::TallGreenFirestick),
            30 => Some(ObstacleType::TallGreenPillar),
            46 => Some(ObstacleType::TallRedFirestick),
            32 => Some(ObstacleType::TallRedPillar),
            48 => Some(ObstacleType::TallTechnoColumn),
            85 => Some(ObstacleType::TallTechnoFloorLamp),
            26 => Some(ObstacleType::TwitchingImpaledHuman),
            _ => None,
        };
        proof {
            if let Some(variant) = found {
                ObstacleType::lemma_codes(num, variant);
            }
        }
        found
    }

    /// The code that stands for the variant in a lump.
    pub fn to_u16(&self) -> (r: u16)
        ensures
            r == self.code(),
    {
        match self {
            ObstacleType::BrownStump => 47,
            ObstacleType::BurningBarrel => 70,
            ObstacleType::BurntTree => 43,
            ObstacleType::Candelabra => 35,
            ObstacleType::EvilEye => 41,
            ObstacleType::ExplodingBarrel => 2035,
            ObstacleType::FiveSkullPole => 28,
            ObstacleType::FloatingSkull => 42,
            ObstacleType::FloorLamp => 2028,
            ObstacleType::HangingLeg => 53,
            ObstacleType::HangingLegPair => 52,
            ObstacleType::HangingTorsoNoBrain => 78,
            ObstacleType::HangingTorsoLookingDown => 75,
            ObstacleType::HangingTorsoLookingUp => 77,
            ObstacleType::HangingTorsoOpenSkull => 76,
            ObstacleType::HangingVictimArmsOut => 50,
            ObstacleType::HangingVictimNoBrainsOrGuts => 74,
            ObstacleType::HangingVictimGutsRemoved => 73,
            ObstacleType::HangingVictimOneLeg => 51,
            ObstacleType::HangingVictimTwitching => 49,
            ObstacleType::ImpaledHuman => 25,
            ObstacleType::LargeBrownTree => 54,
            ObstacleType::PileOfSkullsWithCandles => 29,
            ObstacleType::ShortBlueFirestick => 55,
            ObstacleType::ShortGreenFirestick => 56,
            ObstacleType::ShortGreenPillar => 31,
            ObstacleType::ShortGreenPillarWithHeart => 36,
            ObstacleType::ShortRedFirestick => 57,
            ObstacleType::ShortRedPillar => 33,
            ObstacleType::ShortRedPillarWithSkull => 37,
            ObstacleType::ShortTechnoFloorLamp => 86,
            ObstacleType::SkullOnPole => 27,
            ObstacleType::TallBlueFirestick => 44,
            ObstacleType::TallGreenFirestick => 45,
            ObstacleType::TallGreenPillar => 30,
            ObstacleType::TallRedFirestick => 46,
            ObstacleType::TallRedPillar => 32,
            ObstacleType::TallTechnoColumn => 48,
            ObstacleType::TallTechnoFloorLamp => 85,
            ObstacleType::TwitchingImpaledHuman => 26,
        }
    }
}

/// Scenery that does not block movement.
#[derive(Debug, Clone, Copy, PartialEq, Eq, Structural)]
pub enum DecorationType {
    BloodyMess1,
    BloodyMess2,
    Candle,
    DeadCacodemon,
    DeadDemon,
    DeadZombieman,
    DeadShotgunGuy,
    DeadImp,
    DeadLostSoul,
    DeadPlayer,
    HangingLeg,
    HangingPairOfLegs,
    HangingVictimArmsOut,
    HangingVictimOneLeg,
    HangingVictimTwitching,
    PoolOfBlood1,
    PoolOfBlood2,
    PoolOfBloodAndFlesh,
    PoolOfBrains,
}

impl DecorationType {
    /// The code that stands for the variant in a lump.
    pub open spec fn code(self) -> u16 {
        match self {
            DecorationType::BloodyMess1 => 10,
            DecorationType::BloodyMess2 => 12,
            DecorationType::Candle => 34,
            DecorationType::DeadCacodemon => 22,
            DecorationType::DeadDemon => 21,
            DecorationType::DeadZombieman => 18,
            DecorationType::DeadShotgunGuy => 19,
            DecorationType::DeadImp => 20,
            DecorationType::DeadLostSoul => 23,
            DecorationType::DeadPlayer => 15,
            DecorationType::HangingLeg => 62,
            DecorationType::HangingPairOfLegs => 60,
            DecorationType::HangingVictimArmsOut => 59,
            DecorationType::HangingVictimOneLeg => 61,
            DecorationType::HangingVictimTwitching => 63,
            DecorationType::PoolOfBlood1 => 79,
            DecorationType::PoolOfBlood2 => 80,
            DecorationType::PoolOfBloodAndFlesh => 24,
            DecorationType::PoolOfBrains => 81,
        }
    }

    /// The variant that `num` stands for, if it stands for one.
    pub open spec fn with_code(num: u16) -> Option<DecorationType> {
        if exists|variant: DecorationType| variant.code() == num {
            Some(choose|variant: DecorationType| variant.code() == num)
        } else {
            None
        }
    }

    /// A code names at most one variant, and every variant is found again by its code.
    pub proof fn lemma_codes(num: u16, variant: DecorationType)
        ensures
            DecorationType::with_code(num) == Some(variant) <==> variant.code() == num,
    {
    }

    /// The variant that `num` stands for, if it stands for one.
    pub fn from_u16(num: u16) -> (r: Option<DecorationType>)
        ensures
            r == DecorationType::with_code(num),
    {
        let found: Option<DecorationType> = match num {
            10 => Some(DecorationType::BloodyMess1),
            12 => Some(DecorationType::BloodyMess2),
            34 => Some(DecorationType::Candle),
            22 => Some(DecorationType::DeadCacodemon),
            21 => Some(DecorationType::DeadDemon),
            18 => Some(DecorationType::DeadZombieman),
            19 => Some(DecorationType::DeadShotgunGuy),
            20 => Some(DecorationType::DeadImp),
            23 => Some(DecorationType::DeadLostSoul),
            15 => Some(DecorationType::DeadPlayer),
            62 => Some(DecorationType::HangingLeg),
            60 => Some(DecorationType::HangingPairOfLegs),
            59 => Some(DecorationType::HangingVictimArmsOut),
            61 => Some(DecorationType::HangingVictimOneLeg),
            63 => Some(DecorationType::HangingVictimTwitching),
            79 => Some(DecorationType::PoolOfBlood1),
            80 => Some(DecorationType::PoolOfBlood2),
            24 => Some(DecorationType::PoolOfBloodAndFlesh),
            81 => Some(DecorationType::PoolOfBrains),
            _ => None,
        };
        proof {
            if let Some(variant) = found {
                DecorationType::lemma_codes(num, variant);
            }
        }
        found
    }

    /// The code that stands for the variant in a lump.
    pub fn to_u16(&self) -> (r: u16)
        ensures
            r == self.code(),
    {
        match self {
            DecorationType::BloodyMess1 => 10,
            DecorationType::BloodyMess2 => 12,
            DecorationType::Candle => 34,
            DecorationType::DeadCacodemon => 22,
            DecorationType::DeadDemon => 21,
            DecorationType::DeadZombieman => 18,
            DecorationType::DeadShotgunGuy => 19,
            DecorationType::DeadImp => 20,
            DecorationType::DeadLostSoul => 23,
            DecorationType::DeadPlayer => 15,
            DecorationType::HangingLeg => 62,
            DecorationType::HangingPairOfLegs => 60,
            DecorationType::HangingVictimArmsOut => 59,
            DecorationType::HangingVictimOneLeg => 61,
            DecorationType::HangingVictimTwitching => 63,
            DecorationType::PoolOfBlood1 => 79,
            DecorationType::PoolOfBlood2 => 80,
            DecorationType::PoolOfBloodAndFlesh => 24,
            DecorationType::PoolOfBrains => 81,
        }
    }
}

/// An object that only level editors use.
#[derive(Debug, Clone, Copy, PartialEq, Eq, Structural)]
pub enum EditorType {
    BuilderCamera,
}

impl EditorType {
    /// The code that stands for the variant in a lump.
    pub open spec fn code(self) -> u16 {
        match self {
            EditorType::BuilderCamera => 32000,
        }
    }

    /// The variant that `num` stands for, if it stands for one.
    pub open spec fn with_code(num: u16) -> Option<EditorType> {
        if exists|variant: EditorType| variant.code() == num {
            Some(choose|variant: EditorType| variant.code() == num)
        } else {
            None
        }
    }

    /// A code names at most one variant, and every variant is found again by its code.
    pub proof fn lemma_codes(num: u16, variant: EditorType)
        ensures
            EditorType::with_code(num) == Some(variant) <==> variant.code() == num,
    {
    }

    /// The variant that `num` stands for, if it stands for one.
    pub fn from_u16(num: u16) -> (r: Option<EditorType>)
        ensures
            r == EditorType::with_code(num),
    {
        let found: Option<EditorType> = match num {
            32000 => Some(EditorType::BuilderCamera),
            _ => None,
        };
        proof {
            if let Some(variant) = found {
                EditorType::lemma_codes(num, variant);
            }
        }
        found
    }

    /// The code that stands for the variant in a lump.
    pub fn to_u16(&self) -> (r: u16)
        ensures
            r == self.code(),
    {
        match self {
            EditorType::BuilderCamera => 32000,
        }
    }
}

} // verus!

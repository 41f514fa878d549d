//! The taxonomy of linedef specials. Doors are modelled; every other special keeps its
//! number.

use vstd::prelude::*;

verus! {

/// What crossing or using a line sets off: a door with its behaviour, or the bare number
/// where the special is no door.
#[derive(Debug, Clone, Copy, PartialEq, Eq, Structural)]
pub enum LinedefSpecial {
    Unknown(u16),
    Door(DoorLineSpecial),
}

impl LinedefSpecial {
    /// The special number that the value was read from.
    pub open spec fn code(self) -> u16 {
        match self {
            LinedefSpecial::Unknown(num) => num,
            LinedefSpecial::Door(door) => door.code(),
        }
    }

    /// The classification of a special number: a door where the number stands for one.
    pub open spec fn classify(num: u16) -> LinedefSpecial {
        if let Some(door) = DoorLineSpecial::with_code(num) {
            LinedefSpecial::Door(door)
        } else {
            LinedefSpecial::Unknown(num)
        }
    }

    /// Classifies a special number.
    pub fn from_type_number(num: u16) -> (r: LinedefSpecial)
        ensures
            r == LinedefSpecial::classify(num),
            r.code() == num,
    {
        proof {
            LinedefSpecial::lemma_classify_keeps_code(num);
        }
        if let Some(door) = DoorLineSpecial::from_u16(num) {
            return LinedefSpecial::Door(door);
        }
        LinedefSpecial::Unknown(num)
    }

    /// The special number that the value was read from.
    pub fn type_number(&self) -> (r: u16)
        ensures
            r == self.code(),
    {
        match self {
            LinedefSpecial::Unknown(num) => *num,
            LinedefSpecial::Door(door) => door.to_u16(),
        }
    }

    /// Classification loses nothing: the special number is read back from every result,
    /// and `Unknown` stands exactly for the numbers that are no door, holding the number
    /// itself.
    pub proof fn lemma_classify_keeps_code(num: u16)
        ensures
            LinedefSpecial::classify(num).code() == num,
            LinedefSpecial::classify(num) is Unknown <==> DoorLineSpecial::with_code(num) is None,
            LinedefSpecial::classify(num) is Unknown ==> LinedefSpecial::classify(num)
                == LinedefSpecial::Unknown(num),
    {
    }
}

/// What a door line does: its speed, its motion, how it is triggered, and the key it asks for.
#[derive(Debug, Clone, Copy, PartialEq, Eq, Structural)]
pub enum DoorLineSpecial {
    SlowOpenWaitClose,
    FastOpenWaitClose,
    SlowOpenWaitCloseSwitch,
    FastOpenWaitCloseSwitch,
    SlowOpenWaitCloseSwitchSingle,
    FastOpenWaitCloseSwitchSingle,
    SlowOpenWaitCloseSwitchWalkover,
    FastOpenWaitCloseSwitchWalkover,
    SlowOpenWaitCloseSwitchWalkoverSingle,
    FastOpenWaitCloseSwitchWalkoverSingle,
    SlowOpenStaySingle,
    FastOpenStaySingle,
    SlowOpenStaySwitch,
    FastOpenStaySwitch,
    SlowOpenStaySwitchSingle,
    FastOpenStaySwitchSingle,
    SlowOpenStayWalkover,
    FastOpenStayWalkover,
    SlowOpenStayWalkoverSingle,
    FastOpenStayWalkoverSingle,
    SlowOpenStayShootable,
    SlowCloseStaySwitch,
    FastCloseStaySwitch,
    SlowCloseStaySwitchSingle,
    FastCloseStaySwitchSingle,
    SlowCloseStayWalkover,
    FastCloseStayWalkover,
    SlowCloseStayWalkoverSingle,
    FastCloseStayWalkoverSingle,
    SlowCloseWaitOpenWalkover,
    SlowCloseWaitOpenWalkoverSingle,
    SlowOpenStayBlueKeySingle,
    SlowOpenStayRedKeySingle,
    SlowOpenStayYellowKeySingle,
    FastOpenStayBlueKeySwitch,
    FastOpenStayRedKeySwitch,
    FastOpenStayYellowKeySwitch,
    FastOpenStayBlueKeySwitchSingle,
    FastOpenStayRedKeySwitchSingle,
    FastOpenStayYellowKeySwitchSingle,
    SlowOpenWaitCloseBlueKey,
    SlowOpenWaitCloseRedKey,
    SlowOpenWaitCloseYellowKey,
}

impl DoorLineSpecial {
    /// The code that stands for the variant in a lump.
    pub open spec fn code(self) -> u16 {
        match self {
            DoorLineSpecial::SlowOpenWaitClose => 1,
            DoorLineSpecial::FastOpenWaitClose => 117,
            DoorLineSpecial::SlowOpenWaitCloseSwitch => 63,
            DoorLineSpecial::FastOpenWaitCloseSwitch => 114,
            DoorLineSpecial::SlowOpenWaitCloseSwitchSingle => 29,
            DoorLineSpecial::FastOpenWaitCloseSwitchSingle => 111,
            DoorLineSpecial::SlowOpenWaitCloseSwitchWalkover => 90,
            DoorLineSpecial::FastOpenWaitCloseSwitchWalkover => 105,
            DoorLineSpecial::SlowOpenWaitCloseSwitchWalkoverSingle => 4,
            DoorLineSpecial::FastOpenWaitCloseSwitchWalkoverSingle => 108,
            DoorLineSpecial::SlowOpenStaySingle => 31,
            DoorLineSpecial::FastOpenStaySingle => 118,
            DoorLineSpecial::SlowOpenStaySwitch => 61,
            DoorLineSpecial::FastOpenStaySwitch => 115,
            DoorLineSpecial::SlowOpenStaySwitchSingle => 103,
            DoorLineSpecial::FastOpenStaySwitchSingle => 112,
            DoorLineSpecial::SlowOpenStayWalkover => 86,
            DoorLineSpecial::FastOpenStayWalkover => 106,
            DoorLineSpecial::SlowOpenStayWalkoverSingle => 2,
            DoorLineSpecial::FastOpenStayWalkoverSingle => 109,
            DoorLineSpecial::SlowOpenStayShootable => 46,
            DoorLineSpecial::SlowCloseStaySwitch => 42,
            DoorLineSpecial::FastCloseStaySwitch => 116,
            DoorLineSpecial::SlowCloseStaySwitchSingle => 50,
            DoorLineSpecial::FastCloseStaySwitchSingle => 113,
            DoorLineSpecial::SlowCloseStayWalkover => 75,
            DoorLineSpecial::FastCloseStayWalkover => 107,
            DoorLineSpecial::SlowCloseStayWalkoverSingle => 3,
            DoorLineSpecial::FastCloseStayWalkoverSingle => 110,
            DoorLineSpecial::SlowCloseWaitOpenWalkover => 76,
            DoorLineSpecial::SlowCloseWaitOpenWalkoverSingle => 16,
            DoorLineSpecial::SlowOpenStayBlueKeySingle => 32,
            DoorLineSpecial::SlowOpenStayRedKeySingle => 33,
            DoorLineSpecial::SlowOpenStayYellowKeySingle => 34,
            DoorLineSpecial::FastOpenStayBlueKeySwitch => 99,
            DoorLineSpecial::FastOpenStayRedKeySwitch => 134,
            DoorLineSpecial::FastOpenStayYellowKeySwitch => 136,
            DoorLineSpecial::FastOpenStayBlueKeySwitchSingle => 133,
            DoorLineSpecial::FastOpenStayRedKeySwitchSingle => 135,
            DoorLineSpecial::FastOpenStayYellowKeySwitchSingle => 137,
            DoorLineSpecial::SlowOpenWaitCloseBlueKey => 26,
            DoorLineSpecial::SlowOpenWaitCloseRedKey => 28,
            DoorLineSpecial::SlowOpenWaitCloseYellowKey => 27,
        }
    }

    /// The variant that `num` stands for, if it stands for one.
    pub open spec fn with_code(num: u16) -> Option<DoorLineSpecial> {
        if exists|variant: DoorLineSpecial| variant.code() == num {
            Some(choose|variant: DoorLineSpecial| variant.code() == num)
        } else {
            None
        }
    }

    /// A code names at most one variant, and every variant is found again by its code.
    pub proof fn lemma_codes(num: u16, variant: DoorLineSpecial)
        ensures
            DoorLineSpecial::with_code(num) == Some(variant) <==> variant.code() == num,
    {
    }

    /// The variant that `num` stands for, if it stands for one.
    pub fn from_u16(num: u16) -> (r: Option<DoorLineSpecial>)
        ensures
            r == DoorLineSpecial::with_code(num),
    {
        let found: Option<DoorLineSpecial> = match num {
            1 => Some(DoorLineSpecial::SlowOpenWaitClose),
            117 => Some(DoorLineSpecial::FastOpenWaitClose),
            63 => Some(DoorLineSpecial::SlowOpenWaitCloseSwitch),
            114 => Some(DoorLineSpecial::FastOpenWaitCloseSwitch),
            29 => Some(DoorLineSpecial::SlowOpenWaitCloseSwitchSingle),
            111 => Some(DoorLineSpecial::FastOpenWaitCloseSwitchSingle),
            90 => Some(DoorLineSpecial::SlowOpenWaitCloseSwitchWalkover),
            105 => Some(DoorLineSpecial::FastOpenWaitCloseSwitchWalkover),
            4 => Some(DoorLineSpecial::SlowOpenWaitCloseSwitchWalkoverSingle),
            108 => Some(DoorLineSpecial::FastOpenWaitCloseSwitchWalkoverSingle),
            31 => Some(DoorLineSpecial::SlowOpenStaySingle),
            118 => Some(DoorLineSpecial::FastOpenStaySingle),
            61 => Some(DoorLineSpecial::SlowOpenStaySwitch),
            115 => Some(DoorLineSpecial::FastOpenStaySwitch),
            103 => Some(DoorLineSpecial::SlowOpenStaySwitchSingle),
            112 => Some(DoorLineSpecial::FastOpenStaySwitchSingle),
            86 => Some(DoorLineSpecial::SlowOpenStayWalkover),
            106 => Some(DoorLineSpecial::FastOpenStayWalkover),
            2 => Some(DoorLineSpecial::SlowOpenStayWalkoverSingle),
            109 => Some(DoorLineSpecial::FastOpenStayWalkoverSingle),
            46 => Some(DoorLineSpecial::SlowOpenStayShootable),
            42 => Some(DoorLineSpecial::SlowCloseStaySwitch),
            116 => Some(DoorLineSpecial::FastCloseStaySwitch),
            50 => Some(DoorLineSpecial::SlowCloseStaySwitchSingle),
            113 => Some(DoorLineSpecial::FastCloseStaySwitchSingle),
            75 => Some(DoorLineSpecial::SlowCloseStayWalkover),
            107 => Some(DoorLineSpecial::FastCloseStayWalkover),
            3 => Some(DoorLineSpecial::SlowCloseStayWalkoverSingle),
            110 => Some(DoorLineSpecial::FastCloseStayWalkoverSingle),
            76 => Some(DoorLineSpecial::SlowCloseWaitOpenWalkover),
            16 => Some(DoorLineSpecial::SlowCloseWaitOpenWalkoverSingle),
            32 => Some(DoorLineSpecial::SlowOpenStayBlueKeySingle),
            33 => Some(DoorLineSpecial::SlowOpenStayRedKeySingle),
            34 => Some(DoorLineSpecial::SlowOpenStayYellowKeySingle),
            99 => Some(DoorLineSpecial::FastOpenStayBlueKeySwitch),
            134 => Some(DoorLineSpecial::FastOpenStayRedKeySwitch),
            136 => Some(DoorLineSpecial::FastOpenStayYellowKeySwitch),
            133 => Some(DoorLineSpecial::FastOpenStayBlueKeySwitchSingle),
            135 => Some(DoorLineSpecial::FastOpenStayRedKeySwitchSingle),
            137 => Some(DoorLineSpecial::FastOpenStayYellowKeySwitchSingle),
            26 => Some(DoorLineSpecial::SlowOpenWaitCloseBlueKey),
            28 => Some(DoorLineSpecial::SlowOpenWaitCloseRedKey),
            27 => Some(DoorLineSpecial::SlowOpenWaitCloseYellowKey),
            _ => None,
        };
        proof {
            if let Some(variant) = found {
                DoorLineSpecial::lemma_codes(num, variant);
            }
        }
        found
    }

    /// The code that stands for the variant in a lump.
    pub fn to_u16(&self) -> (r: u16)
        ensures
            r == self.code(),
    {
        match self {
            DoorLineSpecial::SlowOpenWaitClose => 1,
            DoorLineSpecial::FastOpenWaitClose => 117,
            DoorLineSpecial::SlowOpenWaitCloseSwitch => 63,
            DoorLineSpecial::FastOpenWaitCloseSwitch => 114,
            DoorLineSpecial::SlowOpenWaitCloseSwitchSingle => 29,
            DoorLineSpecial::FastOpenWaitCloseSwitchSingle => 111,
            DoorLineSpecial::SlowOpenWaitCloseSwitchWalkover => 90,
            DoorLineSpecial::FastOpenWaitCloseSwitchWalkover => 105,
            DoorLineSpecial::SlowOpenWaitCloseSwitchWalkoverSingle => 4,
            DoorLineSpecial::FastOpenWaitCloseSwitchWalkoverSingle => 108,
            DoorLineSpecial::SlowOpenStaySingle => 31,
            DoorLineSpecial::FastOpenStaySingle => 118,
            DoorLineSpecial::SlowOpenStaySwitch => 61,
            DoorLineSpecial::FastOpenStaySwitch => 115,
            DoorLineSpecial::SlowOpenStaySwitchSingle => 103,
            DoorLineSpecial::FastOpenStaySwitchSingle => 112,
            DoorLineSpecial::SlowOpenStayWalkover => 86,
            DoorLineSpecial::FastOpenStayWalkover => 106,
            DoorLineSpecial::SlowOpenStayWalkoverSingle => 2,
            DoorLineSpecial::FastOpenStayWalkoverSingle => 109,
            DoorLineSpecial::SlowOpenStayShootable => 46,
            DoorLineSpecial::SlowCloseStaySwitch => 42,
            DoorLineSpecial::FastCloseStaySwitch => 116,
            DoorLineSpecial::SlowCloseStaySwitchSingle => 50,
            DoorLineSpecial::FastCloseStaySwitchSingle => 113,
            DoorLineSpecial::SlowCloseStayWalkover => 75,
            DoorLineSpecial::FastCloseStayWalkover => 107,
            DoorLineSpecial::SlowCloseStayWalkoverSingle => 3,
            DoorLineSpecial::FastCloseStayWalkoverSingle => 110,
            DoorLineSpecial::SlowCloseWaitOpenWalkover => 76,
            DoorLineSpecial::SlowCloseWaitOpenWalkoverSingle => 16,
            DoorLineSpecial::SlowOpenStayBlueKeySingle => 32,
            DoorLineSpecial::SlowOpenStayRedKeySingle => 33,
            DoorLineSpecial::SlowOpenStayYellowKeySingle => 34,
            DoorLineSpecial::FastOpenStayBlueKeySwitch => 99,
            DoorLineSpecial::FastOpenStayRedKeySwitch => 134,
            DoorLineSpecial::FastOpenStayYellowKeySwitch => 136,
            DoorLineSpecial::FastOpenStayBlueKeySwitchSingle => 133,
            DoorLineSpecial::FastOpenStayRedKeySwitchSingle => 135,
            DoorLineSpecial::FastOpenStayYellowKeySwitchSingle => 137,
            DoorLineSpecial::SlowOpenWaitCloseBlueKey => 26,
            DoorLineSpecial::SlowOpenWaitCloseRedKey => 28,
            DoorLineSpecial::SlowOpenWaitCloseYellowKey => 27,
        }
    }
}

} // verus!

use vstd::prelude::*;

verus! {

/// The screens of Eolis.
#[derive(Debug, Clone, Copy, PartialEq, Eq, Structural)]
pub enum EolisScreen {
    ExteriorGates,
    InteriorEolis,
    GuruExterior,
    ShopsExterior,
    RoadEast,
    RoadWest,
    TrainersExterior,
    PalaceExterior,
    ExitToTrunk,
}

/// `r` is what decoding the byte `b` must give: the eolisscreen whose byte is `b`, or
/// `None` when no eolisscreen has that byte.
pub open spec fn decodes_to_eolis_screen(b: u8, r: Option<EolisScreen>) -> bool {
    match r {
        Some(id) => id.byte() == b,
        None => forall|id: EolisScreen| #[trigger] id.byte() != b,
    }
}

impl EolisScreen {
    /// The screen number of this Eolis screen.
    pub open spec fn byte(self) -> u8 {
        match self {
            EolisScreen::ExteriorGates => 0x00,
            EolisScreen::InteriorEolis => 0x01,
            EolisScreen::GuruExterior => 0x02,
            EolisScreen::ShopsExterior => 0x03,
            EolisScreen::RoadEast => 0x04,
            EolisScreen::RoadWest => 0x05,
            EolisScreen::TrainersExterior => 0x06,
            EolisScreen::PalaceExterior => 0x07,
            EolisScreen::ExitToTrunk => 0x08,
        }
    }

    spec fn from_byte_table(b: u8) -> Option<EolisScreen> {
        match b {
            0x00 => Some(EolisScreen::ExteriorGates),
            0x01 => Some(EolisScreen::InteriorEolis),
            0x02 => Some(EolisScreen::GuruExterior),
            0x03 => Some(EolisScreen::ShopsExterior),
            0x04 => Some(EolisScreen::RoadEast),
            0x05 => Some(EolisScreen::RoadWest),
            0x06 => Some(EolisScreen::TrainersExterior),
            0x07 => Some(EolisScreen::PalaceExterior),
            0x08 => Some(EolisScreen::ExitToTrunk),
            _ => None,
        }
    }

    proof fn lemma_table_inverts_byte(self)
        ensures
            Self::from_byte_table(self.byte()) == Some(self),
    {
    }

    /// Two eolisscreens with the same byte are the same, so decoding the byte of a
    /// eolisscreen gives back that eolisscreen.
    pub proof fn lemma_byte_roundtrip(self, r: Option<EolisScreen>)
        requires
            decodes_to_eolis_screen(self.byte(), r),
        ensures
            r == Some(self),
    {
        self.lemma_table_inverts_byte();
        if let Some(id) = r {
            id.lemma_table_inverts_byte();
        }
    }

    /// Different eolisscreens have different bytes.
    pub proof fn lemma_byte_injective(self, other: EolisScreen)
        ensures
            self.byte() == other.byte() ==> self == other,
    {
        self.lemma_table_inverts_byte();
        other.lemma_table_inverts_byte();
    }

    /// The byte of this eolisscreen.
    pub fn to_byte(self) -> (r: u8)
        ensures
            r == self.byte(),
    {
        match self {
            EolisScreen::ExteriorGates => 0x00,
            EolisScreen::InteriorEolis => 0x01,
            EolisScreen::GuruExterior => 0x02,
            EolisScreen::ShopsExterior => 0x03,
            EolisScreen::RoadEast => 0x04,
            EolisScreen::RoadWest => 0x05,
            EolisScreen::TrainersExterior => 0x06,
            EolisScreen::PalaceExterior => 0x07,
            EolisScreen::ExitToTrunk => 0x08,
        }
    }

    /// Convert a raw byte to a `EolisScreen` if valid.
    pub fn from_byte(b: u8) -> (r: Option<Self>)
        ensures
            decodes_to_eolis_screen(b, r),
    {
        let r = match b {
            0x00 => Some(EolisScreen::ExteriorGates),
            0x01 => Some(EolisScreen::InteriorEolis),
            0x02 => Some(EolisScreen::GuruExterior),
            0x03 => Some(EolisScreen::ShopsExterior),
            0x04 => Some(EolisScreen::RoadEast),
            0x05 => Some(EolisScreen::RoadWest),
            0x06 => Some(EolisScreen::TrainersExterior),
            0x07 => Some(EolisScreen::PalaceExterior),
            0x08 => Some(EolisScreen::ExitToTrunk),
            _ => None,
        };
        proof {
            if r is None {
                assert forall|id: EolisScreen| #[trigger] id.byte() != b by {
                    id.lemma_table_inverts_byte();
                }
            }
        }
        r
    }
}

/// The screen number of each Eolis screen, in the game's order: the exterior gates 0,
/// the interior 1, the guru 2, the shops 3, the road east 4, the road west 5, the
/// trainers 6, the palace 7 and the exit to Trunk 8; no screen has a number above 8.
pub proof fn lemma_screen_numbers()
    ensures
        EolisScreen::ExteriorGates.byte() == 0,
        EolisScreen::InteriorEolis.byte() == 1,
        EolisScreen::GuruExterior.byte() == 2,
        EolisScreen::ShopsExterior.byte() == 3,
        EolisScreen::RoadEast.byte() == 4,
        EolisScreen::RoadWest.byte() == 5,
        EolisScreen::TrainersExterior.byte() == 6,
        EolisScreen::PalaceExterior.byte() == 7,
        EolisScreen::ExitToTrunk.byte() == 8,
        forall|s: EolisScreen| #[trigger] s.byte() <= 8,
{
}

} // verus!

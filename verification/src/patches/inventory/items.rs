use vstd::prelude::*;

verus! {

/// Item identifiers in Faxanadu, as used in the ROM.
/// These values match the in-game sprite IDs for items.
#[derive(Debug, Clone, Copy, PartialEq, Eq, Structural)]
pub enum ItemId {
    // Consumables
    RedPotion1,
    RedPotion2,
    Ointment1,
    Ointment2,
    Poison1,
    Poison2,
    Hourglass1,
    Hourglass2,
    Bread,
    Elixir,
    // Keys
    KeyJack,
    KeyQueen,
    KeyKing,
    KeyAce,
    JokerKey,
    // Quest Items
    Mattock,
    MattockBossLocked,
    Wingboots,
    WingbootsBossLocked,
    Pendant,
    Rod,
    RubyRing,
    BlackOnyx,
    BattleHelmet,
    BattleSuit,
    DragonSlayer,
    // Equipment
    Dagger,
    LongSword,
    GiantBlade,
    SmallShield,
    LargeShield,
    MagicShield,
    Glove,
    Glove2,
    // Spells
    SpellDeluge,
    SpellThunder,
    SpellFire,
    SpellDeath,
    SpellTilte,
    // Gold
    Gold,
    // Special / unused mappings (from randomizer logic)
    RingDwarf,
    RingDemon,
}

/// `r` is what decoding the byte `b` must give: the itemid whose byte is `b`, or
/// `None` when no itemid has that byte.
pub open spec fn decodes_to_item_id(b: u8, r: Option<ItemId>) -> bool {
    match r {
        Some(id) => id.byte() == b,
        None => forall|id: ItemId| #[trigger] id.byte() != b,
    }
}

impl ItemId {
    /// The in-game sprite id of this item.
    pub open spec fn byte(self) -> u8 {
        match self {
            ItemId::RedPotion1 => 0x28,
            ItemId::RedPotion2 => 0x29,
            ItemId::Ointment1 => 0x2A,
            ItemId::Ointment2 => 0x2B,
            ItemId::Poison1 => 0x2C,
            ItemId::Poison2 => 0x2D,
            ItemId::Hourglass1 => 0x2E,
            ItemId::Hourglass2 => 0x2F,
            ItemId::Bread => 0x30,
            ItemId::Elixir => 0x31,
            ItemId::KeyJack => 0x32,
            ItemId::KeyQueen => 0x33,
            ItemId::KeyKing => 0x34,
            ItemId::KeyAce => 0x35,
            ItemId::JokerKey => 0x36,
            ItemId::Mattock => 0x37,
            ItemId::MattockBossLocked => 0x38,
            ItemId::Wingboots => 0x39,
            ItemId::WingbootsBossLocked => 0x3A,
            ItemId::Pendant => 0x3B,
            ItemId::Rod => 0x3C,
            ItemId::RubyRing => 0x3D,
            ItemId::BlackOnyx => 0x3E,
            ItemId::BattleHelmet => 0x3F,
            ItemId::BattleSuit => 0x40,
            ItemId::DragonSlayer => 0x41,
            ItemId::Dagger => 0x42,
            ItemId::LongSword => 0x43,
            ItemId::GiantBlade => 0x44,
            ItemId::SmallShield => 0x46,
            ItemId::LargeShield => 0x47,
            ItemId::MagicShield => 0x48,
            ItemId::Glove => 0x49,
            ItemId::Glove2 => 0x4A,
            ItemId::SpellDeluge => 0x4B,
            ItemId::SpellThunder => 0x4C,
            ItemId::SpellFire => 0x4D,
            ItemId::SpellDeath => 0x4E,
            ItemId::SpellTilte => 0x4F,
            ItemId::Gold => 0x50,
            ItemId::RingDwarf => 0x59,
            ItemId::RingDemon => 0x5A,
        }
    }

    spec fn from_byte_table(b: u8) -> Option<ItemId> {
        match b {
            0x28 => Some(ItemId::RedPotion1),
            0x29 => Some(ItemId::RedPotion2),
            0x2A => Some(ItemId::Ointment1),
            0x2B => Some(ItemId::Ointment2),
            0x2C => Some(ItemId::Poison1),
            0x2D => Some(ItemId::Poison2),
            0x2E => Some(ItemId::Hourglass1),
            0x2F => Some(ItemId::Hourglass2),
            0x30 => Some(ItemId::Bread),
            0x31 => Some(ItemId::Elixir),
            0x32 => Some(ItemId::KeyJack),
            0x33 => Some(ItemId::KeyQueen),
            0x34 => Some(ItemId::KeyKing),
            0x35 => Some(ItemId::KeyAce),
            0x36 => Some(ItemId::JokerKey),
            0x37 => Some(ItemId::Mattock),
            0x38 => Some(ItemId::MattockBossLocked),
            0x39 => Some(ItemId::Wingboots),
            0x3A => Some(ItemId::WingbootsBossLocked),
            0x3B => Some(ItemId::Pendant),
            0x3C => Some(ItemId::Rod),
            0x3D => Some(ItemId::RubyRing),
            0x3E => Some(ItemId::BlackOnyx),
            0x3F => Some(ItemId::BattleHelmet),
            0x40 => Some(ItemId::BattleSuit),
            0x41 => Some(ItemId::DragonSlayer),
            0x42 => Some(ItemId::Dagger),
            0x43 => Some(ItemId::LongSword),
            0x44 => Some(ItemId::GiantBlade),
            0x46 => Some(ItemId::SmallShield),
            0x47 => Some(ItemId::LargeShield),
            0x48 => Some(ItemId::MagicShield),
            0x49 => Some(ItemId::Glove),
            0x4A => Some(ItemId::Glove2),
            0x4B => Some(ItemId::SpellDeluge),
            0x4C => Some(ItemId::SpellThunder),
            0x4D => Some(ItemId::SpellFire),
            0x4E => Some(ItemId::SpellDeath),
            0x4F => Some(ItemId::SpellTilte),
            0x50 => Some(ItemId::Gold),
            0x59 => Some(ItemId::RingDwarf),
            0x5A => Some(ItemId::RingDemon),
            _ => None,
        }
    }

    proof fn lemma_table_inverts_byte(self)
        ensures
            Self::from_byte_table(self.byte()) == Some(self),
    {
    }

    /// Two itemids with the same byte are the same, so decoding the byte of a
    /// itemid gives back that itemid.
    pub proof fn lemma_byte_roundtrip(self, r: Option<ItemId>)
        requires
            decodes_to_item_id(self.byte(), r),
        ensures
            r == Some(self),
    {
        self.lemma_table_inverts_byte();
        if let Some(id) = r {
            id.lemma_table_inverts_byte();
        }
    }

    /// Different itemids have different bytes.
    pub proof fn lemma_byte_injective(self, other: ItemId)
        ensures
            self.byte() == other.byte() ==> self == other,
    {
        self.lemma_table_inverts_byte();
        other.lemma_table_inverts_byte();
    }

    /// The byte of this itemid.
    pub fn to_byte(self) -> (r: u8)
        ensures
            r == self.byte(),
    {
        match self {
            ItemId::RedPotion1 => 0x28,
            ItemId::RedPotion2 => 0x29,
            ItemId::Ointment1 => 0x2A,
            ItemId::Ointment2 => 0x2B,
            ItemId::Poison1 => 0x2C,
            ItemId::Poison2 => 0x2D,
            ItemId::Hourglass1 => 0x2E,
            ItemId::Hourglass2 => 0x2F,
            ItemId::Bread => 0x30,
            ItemId::Elixir => 0x31,
            ItemId::KeyJack => 0x32,
            ItemId::KeyQueen => 0x33,
            ItemId::KeyKing => 0x34,
            ItemId::KeyAce => 0x35,
            ItemId::JokerKey => 0x36,
            ItemId::Mattock => 0x37,
            ItemId::MattockBossLocked => 0x38,
            ItemId::Wingboots => 0x39,
            ItemId::WingbootsBossLocked => 0x3A,
            ItemId::Pendant => 0x3B,
            ItemId::Rod => 0x3C,
            ItemId::RubyRing => 0x3D,
            ItemId::BlackOnyx => 0x3E,
            ItemId::BattleHelmet => 0x3F,
            ItemId::BattleSuit => 0x40,
            ItemId::DragonSlayer => 0x41,
            ItemId::Dagger => 0x42,
            ItemId::LongSword => 0x43,
            ItemId::GiantBlade => 0x44,
            ItemId::SmallShield => 0x46,
            ItemId::LargeShield => 0x47,
            ItemId::MagicShield => 0x48,
            ItemId::Glove => 0x49,
            ItemId::Glove2 => 0x4A,
            ItemId::SpellDeluge => 0x4B,
            ItemId::SpellThunder => 0x4C,
            ItemId::SpellFire => 0x4D,
            ItemId::SpellDeath => 0x4E,
            ItemId::SpellTilte => 0x4F,
            ItemId::Gold => 0x50,
            ItemId::RingDwarf => 0x59,
            ItemId::RingDemon => 0x5A,
        }
    }

    /// Convert a raw byte to a `ItemId` if valid.
    pub fn from_byte(b: u8) -> (r: Option<Self>)
        ensures
            decodes_to_item_id(b, r),
    {
        let r = match b {
            0x28 => Some(ItemId::RedPotion1),
            0x29 => Some(ItemId::RedPotion2),
            0x2A => Some(ItemId::Ointment1),
            0x2B => Some(ItemId::Ointment2),
            0x2C => Some(ItemId::Poison1),
            0x2D => Some(ItemId::Poison2),
            0x2E => Some(ItemId::Hourglass1),
            0x2F => Some(ItemId::Hourglass2),
            0x30 => Some(ItemId::Bread),
            0x31 => Some(ItemId::Elixir),
            0x32 => Some(ItemId::KeyJack),
            0x33 => Some(ItemId::KeyQueen),
            0x34 => Some(ItemId::KeyKing),
            0x35 => Some(ItemId::KeyAce),
            0x36 => Some(ItemId::JokerKey),
            0x37 => Some(ItemId::Mattock),
            0x38 => Some(ItemId::MattockBossLocked),
            0x39 => Some(ItemId::Wingboots),
            0x3A => Some(ItemId::WingbootsBossLocked),
            0x3B => Some(ItemId::Pendant),
            0x3C => Some(ItemId::Rod),
            0x3D => Some(ItemId::RubyRing),
            0x3E => Some(ItemId::BlackOnyx),
            0x3F => Some(ItemId::BattleHelmet),
            0x40 => Some(ItemId::BattleSuit),
            0x41 => Some(ItemId::DragonSlayer),
            0x42 => Some(ItemId::Dagger),
            0x43 => Some(ItemId::LongSword),
            0x44 => Some(ItemId::GiantBlade),
            0x46 => Some(ItemId::SmallShield),
            0x47 => Some(ItemId::LargeShield),
            0x48 => Some(ItemId::MagicShield),
            0x49 => Some(ItemId::Glove),
            0x4A => Some(ItemId::Glove2),
            0x4B => Some(ItemId::SpellDeluge),
            0x4C => Some(ItemId::SpellThunder),
            0x4D => Some(ItemId::SpellFire),
            0x4E => Some(ItemId::SpellDeath),
            0x4F => Some(ItemId::SpellTilte),
            0x50 => Some(ItemId::Gold),
            0x59 => Some(ItemId::RingDwarf),
            0x5A => Some(ItemId::RingDemon),
            _ => None,
        };
        proof {
            if r is None {
                assert forall|id: ItemId| #[trigger] id.byte() != b by {
                    id.lemma_table_inverts_byte();
                }
            }
        }
        r
    }
}

/// The in-world item ids, from the Red Potion at $28 up to the rings at $59 and $5A.
pub proof fn lemma_item_ids()
    ensures
        ItemId::RedPotion1.byte() == 0x28,
        ItemId::RedPotion2.byte() == 0x29,
        ItemId::Ointment1.byte() == 0x2A,
        ItemId::Ointment2.byte() == 0x2B,
        ItemId::Poison1.byte() == 0x2C,
        ItemId::Poison2.byte() == 0x2D,
        ItemId::Hourglass1.byte() == 0x2E,
        ItemId::Hourglass2.byte() == 0x2F,
        ItemId::Bread.byte() == 0x30,
        ItemId::Elixir.byte() == 0x31,
        ItemId::KeyJack.byte() == 0x32,
        ItemId::KeyQueen.byte() == 0x33,
        ItemId::KeyKing.byte() == 0x34,
        ItemId::KeyAce.byte() == 0x35,
        ItemId::JokerKey.byte() == 0x36,
        ItemId::Mattock.byte() == 0x37,
        ItemId::MattockBossLocked.byte() == 0x38,
        ItemId::Wingboots.byte() == 0x39,
        ItemId::WingbootsBossLocked.byte() == 0x3A,
        ItemId::Pendant.byte() == 0x3B,
        ItemId::Rod.byte() == 0x3C,
        ItemId::RubyRing.byte() == 0x3D,
        ItemId::BlackOnyx.byte() == 0x3E,
        ItemId::BattleHelmet.byte() == 0x3F,
        ItemId::BattleSuit.byte() == 0x40,
        ItemId::DragonSlayer.byte() == 0x41,
        ItemId::Dagger.byte() == 0x42,
        ItemId::LongSword.byte() == 0x43,
        ItemId::GiantBlade.byte() == 0x44,
        ItemId::SmallShield.byte() == 0x46,
        ItemId::LargeShield.byte() == 0x47,
        ItemId::MagicShield.byte() == 0x48,
        ItemId::Glove.byte() == 0x49,
        ItemId::Glove2.byte() == 0x4A,
        ItemId::SpellDeluge.byte() == 0x4B,
        ItemId::SpellThunder.byte() == 0x4C,
        ItemId::SpellFire.byte() == 0x4D,
        ItemId::SpellDeath.byte() == 0x4E,
        ItemId::SpellTilte.byte() == 0x4F,
        ItemId::Gold.byte() == 0x50,
        ItemId::RingDwarf.byte() == 0x59,
        ItemId::RingDemon.byte() == 0x5A,
{
}

} // verus!

use vstd::prelude::*;

use crate::consts::{hi, lo};
use crate::rom::{write_at, Rom};

verus! {

/// Shop catalog IDs used by shop tables (not the in-world sprite IDs).
#[derive(Debug, Clone, Copy, PartialEq, Eq, Structural)]
pub enum ShopItemId {
    // Weapons
    Dagger,
    Longsword,
    Giantblade,
    Dragonslayer,
    // Armor
    LeatherArmour,
    StuddedMail,
    FullPlate,
    BattleSuit,
    // Shields & helm
    SmallShield,
    LargeShield,
    MagicShield,
    BattleHelmet,
    // Spells
    Deluge,
    Thunder,
    Fire,
    Death,
    Tilte,
    // Rings / keys / quest-ish
    ElfRing,
    RubyRing,
    DworfRing,
    DemonRing,
    AceKey,
    KingKey,
    QueenKey,
    JackKey,
    JokerKey,
    Mattock,
    Rod,
    Crystal,
    Lamp,
    Hourglass,
    Book,
    Wingboots,
    // Consumables / misc
    RedPotion,
    BlackPotion,
    Elixir,
    Pendant,
    BlackOnyx,
    FireCrystal,
}

/// `r` is what decoding the byte `b` must give: the shopitemid whose byte is `b`, or
/// `None` when no shopitemid has that byte.
pub open spec fn decodes_to_shop_item_id(b: u8, r: Option<ShopItemId>) -> bool {
    match r {
        Some(id) => id.byte() == b,
        None => forall|id: ShopItemId| #[trigger] id.byte() != b,
    }
}

impl ShopItemId {
    /// The catalog id of this item in the shop tables.
    pub open spec fn byte(self) -> u8 {
        match self {
            ShopItemId::Dagger => 0x00,
            ShopItemId::Longsword => 0x01,
            ShopItemId::Giantblade => 0x02,
            ShopItemId::Dragonslayer => 0x03,
            ShopItemId::LeatherArmour => 0x20,
            ShopItemId::StuddedMail => 0x21,
            ShopItemId::FullPlate => 0x22,
            ShopItemId::BattleSuit => 0x23,
            ShopItemId::SmallShield => 0x40,
            ShopItemId::LargeShield => 0x41,
            ShopItemId::MagicShield => 0x42,
            ShopItemId::BattleHelmet => 0x43,
            ShopItemId::Deluge => 0x60,
            ShopItemId::Thunder => 0x61,
            ShopItemId::Fire => 0x62,
            ShopItemId::Death => 0x63,
            ShopItemId::Tilte => 0x64,
            ShopItemId::ElfRing => 0x80,
            ShopItemId::RubyRing => 0x81,
            ShopItemId::DworfRing => 0x82,
            ShopItemId::DemonRing => 0x83,
            ShopItemId::AceKey => 0x84,
            ShopItemId::KingKey => 0x85,
            ShopItemId::QueenKey => 0x86,
            ShopItemId::JackKey => 0x87,
            ShopItemId::JokerKey => 0x88,
            ShopItemId::Mattock => 0x89,
            ShopItemId::Rod => 0x8A,
            ShopItemId::Crystal => 0x8B,
            ShopItemId::Lamp => 0x8C,
            ShopItemId::Hourglass => 0x8D,
            ShopItemId::Book => 0x8E,
            ShopItemId::Wingboots => 0x8F,
            ShopItemId::RedPotion => 0x90,
            ShopItemId::BlackPotion => 0x91,
            ShopItemId::Elixir => 0x92,
            ShopItemId::Pendant => 0x93,
            ShopItemId::BlackOnyx => 0x94,
            ShopItemId::FireCrystal => 0x95,
        }
    }

    spec fn from_byte_table(b: u8) -> Option<ShopItemId> {
        match b {
            0x00 => Some(ShopItemId::Dagger),
            0x01 => Some(ShopItemId::Longsword),
            0x02 => Some(ShopItemId::Giantblade),
            0x03 => Some(ShopItemId::Dragonslayer),
            0x20 => Some(ShopItemId::LeatherArmour),
            0x21 => Some(ShopItemId::StuddedMail),
            0x22 => Some(ShopItemId::FullPlate),
            0x23 => Some(ShopItemId::BattleSuit),
            0x40 => Some(ShopItemId::SmallShield),
            0x41 => Some(ShopItemId::LargeShield),
            0x42 => Some(ShopItemId::MagicShield),
            0x43 => Some(ShopItemId::BattleHelmet),
            0x60 => Some(ShopItemId::Deluge),
            0x61 => Some(ShopItemId::Thunder),
            0x62 => Some(ShopItemId::Fire),
            0x63 => Some(ShopItemId::Death),
            0x64 => Some(ShopItemId::Tilte),
            0x80 => Some(ShopItemId::ElfRing),
            0x81 => Some(ShopItemId::RubyRing),
            0x82 => Some(ShopItemId::DworfRing),
            0x83 => Some(ShopItemId::DemonRing),
            0x84 => Some(ShopItemId::AceKey),
            0x85 => Some(ShopItemId::KingKey),
            0x86 => Some(ShopItemId::QueenKey),
            0x87 => Some(ShopItemId::JackKey),
            0x88 => Some(ShopItemId::JokerKey),
            0x89 => Some(ShopItemId::Mattock),
            0x8A => Some(ShopItemId::Rod),
            0x8B => Some(ShopItemId::Crystal),
            0x8C => Some(ShopItemId::Lamp),
            0x8D => Some(ShopItemId::Hourglass),
            0x8E => Some(ShopItemId::Book),
            0x8F => Some(ShopItemId::Wingboots),
            0x90 => Some(ShopItemId::RedPotion),
            0x91 => Some(ShopItemId::BlackPotion),
            0x92 => Some(ShopItemId::Elixir),
            0x93 => Some(ShopItemId::Pendant),
            0x94 => Some(ShopItemId::BlackOnyx),
            0x95 => Some(ShopItemId::FireCrystal),
            _ => None,
        }
    }

    proof fn lemma_table_inverts_byte(self)
        ensures
            Self::from_byte_table(self.byte()) == Some(self),
    {
    }

    /// Two shopitemids with the same byte are the same, so decoding the byte of a
    /// shopitemid gives back that shopitemid.
    pub proof fn lemma_byte_roundtrip(self, r: Option<ShopItemId>)
        requires
            decodes_to_shop_item_id(self.byte(), r),
        ensures
            r == Some(self),
    {
        self.lemma_table_inverts_byte();
        if let Some(id) = r {
            id.lemma_table_inverts_byte();
        }
    }

    /// Different shopitemids have different bytes.
    pub proof fn lemma_byte_injective(self, other: ShopItemId)
        ensures
            self.byte() == other.byte() ==> self == other,
    {
        self.lemma_table_inverts_byte();
        other.lemma_table_inverts_byte();
    }

    /// The byte of this shopitemid.
    pub fn to_byte(self) -> (r: u8)
        ensures
            r == self.byte(),
    {
        match self {
            ShopItemId::Dagger => 0x00,
            ShopItemId::Longsword => 0x01,
            ShopItemId::Giantblade => 0x02,
            ShopItemId::Dragonslayer => 0x03,
            ShopItemId::LeatherArmour => 0x20,
            ShopItemId::StuddedMail => 0x21,
            ShopItemId::FullPlate => 0x22,
            ShopItemId::BattleSuit => 0x23,
            ShopItemId::SmallShield => 0x40,
            ShopItemId::LargeShield => 0x41,
            ShopItemId::MagicShield => 0x42,
            ShopItemId::BattleHelmet => 0x43,
            ShopItemId::Deluge => 0x60,
            ShopItemId::Thunder => 0x61,
            ShopItemId::Fire => 0x62,
            ShopItemId::Death => 0x63,
            ShopItemId::Tilte => 0x64,
            ShopItemId::ElfRing => 0x80,
            ShopItemId::RubyRing => 0x81,
            ShopItemId::DworfRing => 0x82,
            ShopItemId::DemonRing => 0x83,
            ShopItemId::AceKey => 0x84,
            ShopItemId::KingKey => 0x85,
            ShopItemId::QueenKey => 0x86,
            ShopItemId::JackKey => 0x87,
            ShopItemId::JokerKey => 0x88,
            ShopItemId::Mattock => 0x89,
            ShopItemId::Rod => 0x8A,
            ShopItemId::Crystal => 0x8B,
            ShopItemId::Lamp => 0x8C,
            ShopItemId::Hourglass => 0x8D,
            ShopItemId::Book => 0x8E,
            ShopItemId::Wingboots => 0x8F,
            ShopItemId::RedPotion => 0x90,
            ShopItemId::BlackPotion => 0x91,
            ShopItemId::Elixir => 0x92,
            ShopItemId::Pendant => 0x93,
            ShopItemId::BlackOnyx => 0x94,
            ShopItemId::FireCrystal => 0x95,
        }
    }

    /// Convert a raw byte to a `ShopItemId` if valid.
    pub fn from_byte(b: u8) -> (r: Option<Self>)
        ensures
            decodes_to_shop_item_id(b, r),
    {
        let r = match b {
            0x00 => Some(ShopItemId::Dagger),
            0x01 => Some(ShopItemId::Longsword),
            0x02 => Some(ShopItemId::Giantblade),
            0x03 => Some(ShopItemId::Dragonslayer),
            0x20 => Some(ShopItemId::LeatherArmour),
            0x21 => Some(ShopItemId::StuddedMail),
            0x22 => Some(ShopItemId::FullPlate),
            0x23 => Some(ShopItemId::BattleSuit),
            0x40 => Some(ShopItemId::SmallShield),
            0x41 => Some(ShopItemId::LargeShield),
            0x42 => Some(ShopItemId::MagicShield),
            0x43 => Some(ShopItemId::BattleHelmet),
            0x60 => Some(ShopItemId::Deluge),
            0x61 => Some(ShopItemId::Thunder),
            0x62 => Some(ShopItemId::Fire),
            0x63 => Some(ShopItemId::Death),
            0x64 => Some(ShopItemId::Tilte),
            0x80 => Some(ShopItemId::ElfRing),
            0x81 => Some(ShopItemId::RubyRing),
            0x82 => Some(ShopItemId::DworfRing),
            0x83 => Some(ShopItemId::DemonRing),
            0x84 => Some(ShopItemId::AceKey),
            0x85 => Some(ShopItemId::KingKey),
            0x86 => Some(ShopItemId::QueenKey),
            0x87 => Some(ShopItemId::JackKey),
            0x88 => Some(ShopItemId::JokerKey),
            0x89 => Some(ShopItemId::Mattock),
            0x8A => Some(ShopItemId::Rod),
            0x8B => Some(ShopItemId::Crystal),
            0x8C => Some(ShopItemId::Lamp),
            0x8D => Some(ShopItemId::Hourglass),
            0x8E => Some(ShopItemId::Book),
            0x8F => Some(ShopItemId::Wingboots),
            0x90 => Some(ShopItemId::RedPotion),
            0x91 => Some(ShopItemId::BlackPotion),
            0x92 => Some(ShopItemId::Elixir),
            0x93 => Some(ShopItemId::Pendant),
            0x94 => Some(ShopItemId::BlackOnyx),
            0x95 => Some(ShopItemId::FireCrystal),
            _ => None,
        };
        proof {
            if r is None {
                assert forall|id: ShopItemId| #[trigger] id.byte() != b by {
                    id.lemma_table_inverts_byte();
                }
            }
        }
        r
    }
}

/// A single shop item entry: catalog id + 16-bit little-endian price.
#[derive(Debug, Clone, Copy, PartialEq, Eq, Structural)]
pub struct ShopItem {
    pub id: ShopItemId,
    pub price: u16,
}

/// The three bytes of a shop entry: catalog id, then the price little-endian.
pub open spec fn item_bytes(it: ShopItem) -> Seq<u8> {
    seq![it.id.byte(), lo(it.price as int), hi(it.price as int)]
}

/// The shop entry stored at `off`: `None` when its first byte is no catalog id.
pub open spec fn item_at(d: Seq<u8>, off: int) -> Option<ShopItem> {
    if exists|id: ShopItemId| #[trigger] id.byte() == d[off] {
        Some(
            ShopItem {
                id: choose|id: ShopItemId| #[trigger] id.byte() == d[off],
                price: (d[off + 1] + 256 * d[off + 2]) as u16,
            },
        )
    } else {
        None
    }
}

/// Reading a written entry gives back the entry.
pub proof fn lemma_item_roundtrip(d: Seq<u8>, off: int, it: ShopItem)
    requires
        0 <= off && off + 2 < d.len(),
    ensures
        item_at(write_at(d, off, item_bytes(it)), off) == Some(it),
{
    let w = write_at(d, off, item_bytes(it));
    assert(w[off] == it.id.byte());
    assert(w[off + 1] == lo(it.price as int) && w[off + 2] == hi(it.price as int));
    let id = choose|id: ShopItemId| #[trigger] id.byte() == w[off];
    id.lemma_byte_injective(it.id);
}

impl ShopItem {
    pub fn from_rom(rom: &Rom, file_off: usize) -> (r: Option<Self>)
        requires
            file_off + 2 < rom@.len(),
        ensures
            r == item_at(rom@, file_off as int),
    {
        let _ = rom.len();
        let idb = rom.read_byte(file_off);
        let lo = rom.read_byte(file_off + 1) as u16;
        let hi = rom.read_byte(file_off + 2) as u16;
        let price = lo + hi * 256;
        let id = ShopItemId::from_byte(idb);
        proof {
            if let Some(i) = id {
                let c = choose|c: ShopItemId| #[trigger] c.byte() == rom@[file_off as int];
                c.lemma_byte_injective(i);
            }
        }
        match id {
            Some(id) => Some(Self { id, price }),
            None => None,
        }
    }

    pub fn write_rom(&self, rom: &mut Rom, file_off: usize)
        requires
            file_off + 2 < old(rom)@.len(),
        ensures
            final(rom)@ == write_at(old(rom)@, file_off as int, item_bytes(*self)),
    {
        let _ = rom.len();
        rom.write_byte(file_off, self.id.to_byte());
        rom.write_byte(file_off + 1, crate::consts::lo_byte(self.price));
        rom.write_byte(file_off + 2, crate::consts::hi_byte(self.price));
        assert(rom@ =~= write_at(old(rom)@, file_off as int, item_bytes(*self)));
    }
}

/// Shop IDs matching the randomizer’s `Shop.Id`.
#[derive(Debug, Clone, Copy, PartialEq, Eq, Structural)]
pub enum ShopId {
    EolisKeyShop,
    EolisItemShop,
    ApoluneKeyShop,
    ApoluneSecretShop,
    ApoluneItemShop,
    ForepawKeyShop,
    ForepawItemShop,
    MasconKeyShop,
    MasconItemShop,
    MasconSecretShop,
    VictimKeyShop,
    VictimItemShop,
    ConflateItemShop,
    DaybreakKeyShop,
    DaybreakItemShop,
    DartmoorKeyShop,
    DartmoorItemShop,
}

/// For each shop, the exact file offsets of its item entries (not CPU).
pub open spec fn shop_offsets(shop: ShopId) -> Seq<usize> {
    match shop {
        ShopId::EolisKeyShop => seq![0x3258A],
        ShopId::EolisItemShop => seq![0x3243E, 0x32441, 0x32444, 0x32447],
        ShopId::ApoluneKeyShop => seq![0x3258E],
        ShopId::ApoluneSecretShop => seq![0x32458, 0x3245B],
        ShopId::ApoluneItemShop => seq![0x3244B, 0x3244E, 0x32451, 0x32454],
        ShopId::ForepawKeyShop => seq![0x32592, 0x32595],
        ShopId::ForepawItemShop => seq![0x3245F, 0x32462, 0x32465, 0x32468, 0x3246B],
        ShopId::MasconKeyShop => seq![0x32599, 0x3259C],
        ShopId::MasconItemShop => seq![0x3246F, 0x32472, 0x32475, 0x32478],
        ShopId::MasconSecretShop => seq![0x3247C, 0x3247F, 0x32482, 0x32485],
        ShopId::VictimKeyShop => seq![0x325A0, 0x325A3],
        ShopId::VictimItemShop => seq![0x32489, 0x3248C, 0x3248F],
        ShopId::ConflateItemShop => seq![0x32493, 0x32496, 0x32499, 0x3249C],
        ShopId::DaybreakKeyShop => seq![0x325A7, 0x325AA],
        ShopId::DaybreakItemShop => seq![0x324A0, 0x324A6, 0x324A3],
        ShopId::DartmoorKeyShop => seq![0x325AE],
        ShopId::DartmoorItemShop => seq![0x324AA, 0x324AD],
    }
}

/// For each shop, the exact **file offsets** of its item entries (not CPU).
/// These come directly from the randomizer's shop tables.
pub fn shop_item_offsets(shop: ShopId) -> (r: Vec<usize>)
    ensures
        r@ == shop_offsets(shop),
{
    let r = match shop {
        ShopId::EolisKeyShop => vec![0x3258A],
        ShopId::EolisItemShop => vec![0x3243E, 0x32441, 0x32444, 0x32447],
        ShopId::ApoluneKeyShop => vec![0x3258E],
        ShopId::ApoluneSecretShop => vec![0x32458, 0x3245B],
        ShopId::ApoluneItemShop => vec![0x3244B, 0x3244E, 0x32451, 0x32454],
        ShopId::ForepawKeyShop => vec![0x32592, 0x32595],
        ShopId::ForepawItemShop => vec![0x3245F, 0x32462, 0x32465, 0x32468, 0x3246B],
        ShopId::MasconKeyShop => vec![0x32599, 0x3259C],
        ShopId::MasconItemShop => vec![0x3246F, 0x32472, 0x32475, 0x32478],
        ShopId::MasconSecretShop => vec![0x3247C, 0x3247F, 0x32482, 0x32485],
        ShopId::VictimKeyShop => vec![0x325A0, 0x325A3],
        ShopId::VictimItemShop => vec![0x32489, 0x3248C, 0x3248F],
        ShopId::ConflateItemShop => vec![0x32493, 0x32496, 0x32499, 0x3249C],
        ShopId::DaybreakKeyShop => vec![0x325A7, 0x325AA],
        // Note: randomizer uses order: A0, A6, A3
        ShopId::DaybreakItemShop => vec![0x324A0, 0x324A6, 0x324A3],
        ShopId::DartmoorKeyShop => vec![0x325AE],
        ShopId::DartmoorItemShop => vec![0x324AA, 0x324AD],
    };
    assert(r@ =~= shop_offsets(shop));
    r
}

/// The entries read from `offs` in order, stopping before the first entry whose first
/// byte is no catalog id.
pub open spec fn read_items(d: Seq<u8>, offs: Seq<usize>) -> Seq<ShopItem>
    decreases offs.len(),
{
    if offs.len() == 0 {
        Seq::empty()
    } else {
        match item_at(d, offs[0] as int) {
            Some(it) => seq![it] + read_items(d, offs.drop_first()),
            None => Seq::empty(),
        }
    }
}

/// Whether each entry that reading `offs` reaches lies inside `d`.
pub open spec fn items_readable(d: Seq<u8>, offs: Seq<usize>) -> bool
    decreases offs.len(),
{
    offs.len() == 0 || (offs[0] + 2 < d.len() && (item_at(d, offs[0] as int) is Some
        ==> items_readable(d, offs.drop_first())))
}

/// `d` with `items[k]` written at `offs[k]` for each `k`, in order.
pub open spec fn write_items(d: Seq<u8>, offs: Seq<usize>, items: Seq<ShopItem>) -> Seq<u8>
    decreases items.len(),
{
    if items.len() == 0 || offs.len() == 0 {
        d
    } else {
        write_at(
            write_items(d, offs.drop_last(), items.drop_last()),
            offs.last() as int,
            item_bytes(items.last()),
        )
    }
}

/// Whether every entry of `offs` lies inside `d`.
pub open spec fn entries_fit(d: Seq<u8>, offs: Seq<usize>) -> bool {
    forall|k: int| 0 <= k < offs.len() ==> #[trigger] offs[k] + 2 < d.len()
}

/// The entries of `offs` lie at least three bytes apart.
pub open spec fn offsets_spaced(offs: Seq<usize>) -> bool {
    forall|i: int, j: int|
        0 <= i < offs.len() && 0 <= j < offs.len() && i != j ==> #[trigger] offs[i] + 3 <= #[trigger] offs[j]
            || offs[j] + 3 <= offs[i]
}

/// No two entries of a shop table overlap.
pub proof fn lemma_shop_offsets_spaced(shop: ShopId)
    ensures
        offsets_spaced(shop_offsets(shop)),
{
    let o = shop_offsets(shop);
    assert forall|i: int, j: int|
        0 <= i < o.len() && 0 <= j < o.len() && i != j implies #[trigger] o[i] + 3 <= #[trigger] o[j]
        || o[j] + 3 <= o[i] by {
        match shop {
            ShopId::EolisItemShop => {},
            _ => {},
        }
    }
}

/// Entries `first`, `first + 3`, ... : `n` three-byte entries back to back.
pub open spec fn consecutive_entries(first: int, n: int) -> Seq<usize> {
    Seq::new(n as nat, |i: int| (first + 3 * i) as usize)
}

/// The shop tables: every shop lists its entries back to back, three bytes each, from
/// its first entry, except the Daybreak item shop, whose last two entries come in the
/// order $A6, $A3. The item shops lie at $3243E..$324B0 and the key shops at
/// $3258A..$325B1, with the number of entries each shop sells.
pub proof fn lemma_shop_tables()
    ensures
        shop_offsets(ShopId::EolisKeyShop) == consecutive_entries(0x3258A, 1),
        shop_offsets(ShopId::EolisItemShop) == consecutive_entries(0x3243E, 4),
        shop_offsets(ShopId::ApoluneKeyShop) == consecutive_entries(0x3258E, 1),
        shop_offsets(ShopId::ApoluneSecretShop) == consecutive_entries(0x32458, 2),
        shop_offsets(ShopId::ApoluneItemShop) == consecutive_entries(0x3244B, 4),
        shop_offsets(ShopId::ForepawKeyShop) == consecutive_entries(0x32592, 2),
        shop_offsets(ShopId::ForepawItemShop) == consecutive_entries(0x3245F, 5),
        shop_offsets(ShopId::MasconKeyShop) == consecutive_entries(0x32599, 2),
        shop_offsets(ShopId::MasconItemShop) == consecutive_entries(0x3246F, 4),
        shop_offsets(ShopId::MasconSecretShop) == consecutive_entries(0x3247C, 4),
        shop_offsets(ShopId::VictimKeyShop) == consecutive_entries(0x325A0, 2),
        shop_offsets(ShopId::VictimItemShop) == consecutive_entries(0x32489, 3),
        shop_offsets(ShopId::ConflateItemShop) == consecutive_entries(0x32493, 4),
        shop_offsets(ShopId::DaybreakKeyShop) == consecutive_entries(0x325A7, 2),
        shop_offsets(ShopId::DaybreakItemShop).len() == 3,
        shop_offsets(ShopId::DaybreakItemShop)[0] == 0x324A0,
        shop_offsets(ShopId::DaybreakItemShop)[1] == 0x324A6,
        shop_offsets(ShopId::DaybreakItemShop)[2] == 0x324A3,
        shop_offsets(ShopId::DartmoorKeyShop) == consecutive_entries(0x325AE, 1),
        shop_offsets(ShopId::DartmoorItemShop) == consecutive_entries(0x324AA, 2),
{
    assert(shop_offsets(ShopId::EolisKeyShop) =~= consecutive_entries(0x3258A, 1));
    assert(shop_offsets(ShopId::EolisItemShop) =~= consecutive_entries(0x3243E, 4));
    assert(shop_offsets(ShopId::ApoluneKeyShop) =~= consecutive_entries(0x3258E, 1));
    assert(shop_offsets(ShopId::ApoluneSecretShop) =~= consecutive_entries(0x32458, 2));
    assert(shop_offsets(ShopId::ApoluneItemShop) =~= consecutive_entries(0x3244B, 4));
    assert(shop_offsets(ShopId::ForepawKeyShop) =~= consecutive_entries(0x32592, 2));
    assert(shop_offsets(ShopId::ForepawItemShop) =~= consecutive_entries(0x3245F, 5));
    assert(shop_offsets(ShopId::MasconKeyShop) =~= consecutive_entries(0x32599, 2));
    assert(shop_offsets(ShopId::MasconItemShop) =~= consecutive_entries(0x3246F, 4));
    assert(shop_offsets(ShopId::MasconSecretShop) =~= consecutive_entries(0x3247C, 4));
    assert(shop_offsets(ShopId::VictimKeyShop) =~= consecutive_entries(0x325A0, 2));
    assert(shop_offsets(ShopId::VictimItemShop) =~= consecutive_entries(0x32489, 3));
    assert(shop_offsets(ShopId::ConflateItemShop) =~= consecutive_entries(0x32493, 4));
    assert(shop_offsets(ShopId::DaybreakKeyShop) =~= consecutive_entries(0x325A7, 2));
    assert(shop_offsets(ShopId::DartmoorKeyShop) =~= consecutive_entries(0x325AE, 1));
    assert(shop_offsets(ShopId::DartmoorItemShop) =~= consecutive_entries(0x324AA, 2));
}

/// The bytes from the first entry of `shop` to the end of its last entry.
spec fn shop_span(shop: ShopId) -> (int, int) {
    match shop {
        ShopId::EolisKeyShop => (0x3258A, 0x3258D),
        ShopId::EolisItemShop => (0x3243E, 0x3244A),
        ShopId::ApoluneKeyShop => (0x3258E, 0x32591),
        ShopId::ApoluneSecretShop => (0x32458, 0x3245E),
        ShopId::ApoluneItemShop => (0x3244B, 0x32457),
        ShopId::ForepawKeyShop => (0x32592, 0x32598),
        ShopId::ForepawItemShop => (0x3245F, 0x3246E),
        ShopId::MasconKeyShop => (0x32599, 0x3259F),
        ShopId::MasconItemShop => (0x3246F, 0x3247B),
        ShopId::MasconSecretShop => (0x3247C, 0x32488),
        ShopId::VictimKeyShop => (0x325A0, 0x325A6),
        ShopId::VictimItemShop => (0x32489, 0x32492),
        ShopId::ConflateItemShop => (0x32493, 0x3249F),
        ShopId::DaybreakKeyShop => (0x325A7, 0x325AD),
        ShopId::DaybreakItemShop => (0x324A0, 0x324A9),
        ShopId::DartmoorKeyShop => (0x325AE, 0x325B1),
        ShopId::DartmoorItemShop => (0x324AA, 0x324B0),
    }
}

proof fn lemma_shop_span(shop: ShopId)
    ensures
        forall|k: int|
            0 <= k < shop_offsets(shop).len() ==> shop_span(shop).0 <= #[trigger] shop_offsets(shop)[k]
                && shop_offsets(shop)[k] + 3 <= shop_span(shop).1,
{
}

/// Entries of two different shops never overlap: writing one shop cannot change another.
pub proof fn lemma_shops_disjoint(s1: ShopId, s2: ShopId)
    requires
        s1 != s2,
    ensures
        forall|i: int, j: int|
            0 <= i < shop_offsets(s1).len() && 0 <= j < shop_offsets(s2).len() ==> #[trigger] shop_offsets(
                s1,
            )[i] + 3 <= #[trigger] shop_offsets(s2)[j] || shop_offsets(s2)[j] + 3 <= shop_offsets(s1)[i],
{
    lemma_shop_span(s1);
    lemma_shop_span(s2);
    assert(shop_span(s1).1 <= shop_span(s2).0 || shop_span(s2).1 <= shop_span(s1).0);
}

/// Whether offset `q` lies in one of the three-byte entries at `offs`.
pub open spec fn in_entries(offs: Seq<usize>, q: int) -> bool {
    exists|k: int| 0 <= k < offs.len() && #[trigger] offs[k] <= q < offs[k] + 3
}

proof fn lemma_write_items_len(d: Seq<u8>, offs: Seq<usize>, items: Seq<ShopItem>)
    ensures
        write_items(d, offs, items).len() == d.len(),
    decreases items.len(),
{
    if items.len() > 0 && offs.len() > 0 {
        lemma_write_items_len(d, offs.drop_last(), items.drop_last());
    }
}

proof fn lemma_write_items_outside(d: Seq<u8>, offs: Seq<usize>, items: Seq<ShopItem>, q: int)
    requires
        items.len() == offs.len(),
        0 <= q < d.len(),
        !in_entries(offs, q),
    ensures
        write_items(d, offs, items)[q] == d[q],
    decreases items.len(),
{
    if items.len() > 0 {
        lemma_write_items_len(d, offs.drop_last(), items.drop_last());
        let po = offs.drop_last();
        assert(!in_entries(po, q)) by {
            if in_entries(po, q) {
                let k = choose|k: int| 0 <= k < po.len() && #[trigger] po[k] <= q < po[k] + 3;
                assert(offs[k] == po[k]);
            }
        }
        lemma_write_items_outside(d, po, items.drop_last(), q);
        assert(!(offs[offs.len() - 1] <= q < offs[offs.len() - 1] + 3));
    }
}

proof fn lemma_read_items_local(d1: Seq<u8>, d2: Seq<u8>, offs: Seq<usize>)
    requires
        d1.len() == d2.len(),
        forall|q: int| 0 <= q < d1.len() && in_entries(offs, q) ==> d1[q] == d2[q],
    ensures
        items_readable(d1, offs) == items_readable(d2, offs),
        items_readable(d1, offs) ==> read_items(d1, offs) == read_items(d2, offs),
    decreases offs.len(),
{
    if offs.len() > 0 {
        let o = offs[0] as int;
        let rest = offs.drop_first();
        assert forall|q: int| 0 <= q < d1.len() && in_entries(rest, q) implies d1[q] == d2[q] by {
            let k = choose|k: int| 0 <= k < rest.len() && #[trigger] rest[k] <= q < rest[k] + 3;
            assert(offs[k + 1] == rest[k]);
        }
        lemma_read_items_local(d1, d2, rest);
        if o + 2 < d1.len() {
            assert(in_entries(offs, o) && in_entries(offs, o + 1) && in_entries(offs, o + 2)) by {
                assert(offs[0] <= o < offs[0] + 3);
                assert(offs[0] <= o + 1 < offs[0] + 3);
                assert(offs[0] <= o + 2 < offs[0] + 3);
            }
            assert(d1[o] == d2[o] && d1[o + 1] == d2[o + 1] && d1[o + 2] == d2[o + 2]);
            assert(item_at(d1, o) == item_at(d2, o));
        }
    }
}

/// Writing the entries of one shop leaves every other shop readable exactly when it was,
/// and reading it gives what it gave before.
pub proof fn lemma_write_shop_keeps_others(d: Seq<u8>, shop: ShopId, items: Seq<ShopItem>, other: ShopId)
    requires
        items.len() == shop_offsets(shop).len(),
        other != shop,
    ensures
        items_readable(write_items(d, shop_offsets(shop), items), shop_offsets(other)) == items_readable(
            d,
            shop_offsets(other),
        ),
        items_readable(d, shop_offsets(other)) ==> read_items(
            write_items(d, shop_offsets(shop), items),
            shop_offsets(other),
        ) == read_items(d, shop_offsets(other)),
{
    let w = write_items(d, shop_offsets(shop), items);
    let so = shop_offsets(shop);
    let oo = shop_offsets(other);
    lemma_shops_disjoint(shop, other);
    lemma_write_items_len(d, so, items);
    assert forall|q: int| 0 <= q < w.len() && in_entries(oo, q) implies w[q] == d[q] by {
        let j = choose|j: int| 0 <= j < oo.len() && #[trigger] oo[j] <= q < oo[j] + 3;
        assert(!in_entries(so, q)) by {
            if in_entries(so, q) {
                let i = choose|i: int| 0 <= i < so.len() && #[trigger] so[i] <= q < so[i] + 3;
                assert(so[i] + 3 <= oo[j] || oo[j] + 3 <= so[i]);
            }
        }
        lemma_write_items_outside(d, so, items, q);
    }
    lemma_read_items_local(w, d, oo);
}

proof fn lemma_item_at_bytes(w: Seq<u8>, off: int, it: ShopItem)
    requires
        0 <= off && off + 2 < w.len(),
        w[off] == it.id.byte(),
        w[off + 1] == lo(it.price as int),
        w[off + 2] == hi(it.price as int),
    ensures
        item_at(w, off) == Some(it),
{
    let id = choose|id: ShopItemId| #[trigger] id.byte() == w[off];
    id.lemma_byte_injective(it.id);
}

proof fn lemma_write_items_pointwise(d: Seq<u8>, offs: Seq<usize>, items: Seq<ShopItem>)
    requires
        items.len() == offs.len(),
        offsets_spaced(offs),
        entries_fit(d, offs),
    ensures
        write_items(d, offs, items).len() == d.len(),
        forall|k: int, t: int|
            0 <= k < offs.len() && 0 <= t < 3 ==> #[trigger] write_items(d, offs, items)[offs[k] + t]
                == #[trigger] item_bytes(items[k])[t],
    decreases items.len(),
{
    if items.len() > 0 {
        let po = offs.drop_last();
        let pi = items.drop_last();
        assert forall|i: int, j: int|
            0 <= i < po.len() && 0 <= j < po.len() && i != j implies #[trigger] po[i] + 3 <= #[trigger] po[j]
            || po[j] + 3 <= po[i] by {
            assert(po[i] == offs[i] && po[j] == offs[j]);
        }
        assert forall|k: int| 0 <= k < po.len() implies #[trigger] po[k] + 2 < d.len() by {
            assert(po[k] == offs[k]);
        }
        lemma_write_items_pointwise(d, po, pi);
        let last = offs.len() - 1;
        assert(offs[last] + 2 < d.len());
        assert forall|k: int, t: int|
            0 <= k < offs.len() && 0 <= t < 3 implies #[trigger] write_items(d, offs, items)[offs[k] + t]
            == #[trigger] item_bytes(items[k])[t] by {
            if k < last {
                assert(po[k] == offs[k] && pi[k] == items[k]);
                assert(offs[k] + 3 <= offs[last] || offs[last] + 3 <= offs[k]);
                assert(write_items(d, po, pi)[po[k] + t] == item_bytes(pi[k])[t]);
            }
        }
    }
}

/// Reading a shop after writing a full list of entries to it gives back that list.
pub proof fn lemma_shop_read_after_write(d: Seq<u8>, shop: ShopId, items: Seq<ShopItem>)
    requires
        items.len() == shop_offsets(shop).len(),
        entries_fit(d, shop_offsets(shop)),
    ensures
        items_readable(write_items(d, shop_offsets(shop), items), shop_offsets(shop)),
        read_items(write_items(d, shop_offsets(shop), items), shop_offsets(shop)) == items,
{
    let offs = shop_offsets(shop);
    lemma_shop_offsets_spaced(shop);
    lemma_write_items_pointwise(d, offs, items);
    let w = write_items(d, offs, items);
    assert forall|k: int| 0 <= k < offs.len() implies item_at(w, #[trigger] offs[k] as int) == Some(items[k]) by {
        assert(w[offs[k] + 0] == item_bytes(items[k])[0]);
        assert(w[offs[k] + 1] == item_bytes(items[k])[1]);
        assert(w[offs[k] + 2] == item_bytes(items[k])[2]);
        lemma_item_at_bytes(w, offs[k] as int, items[k]);
    }
    lemma_read_suffix(w, offs, items, 0);
    assert(offs.skip(0) =~= offs);
    assert(items.skip(0) =~= items);
}

proof fn lemma_read_suffix(w: Seq<u8>, offs: Seq<usize>, items: Seq<ShopItem>, k: int)
    requires
        0 <= k <= offs.len(),
        items.len() == offs.len(),
        entries_fit(w, offs),
        forall|j: int| 0 <= j < offs.len() ==> item_at(w, #[trigger] offs[j] as int) == Some(items[j]),
    ensures
        items_readable(w, offs.skip(k)),
        read_items(w, offs.skip(k)) == items.skip(k),
    decreases offs.len() - k,
{
    if k < offs.len() {
        lemma_read_suffix(w, offs, items, k + 1);
        let s = offs.skip(k);
        assert(s[0] == offs[k]);
        assert(s.drop_first() =~= offs.skip(k + 1));
        assert(item_at(w, offs[k] as int) == Some(items[k]));
        assert(items.skip(k) =~= seq![items[k]] + items.skip(k + 1));
    } else {
        assert(offs.skip(k).len() == 0);
        assert(items.skip(k) =~= Seq::<ShopItem>::empty());
    }
}

/// Read all items from a given shop using fixed file offsets.
pub fn read_shop(rom: &Rom, shop: ShopId) -> (r: Vec<ShopItem>)
    requires
        items_readable(rom@, shop_offsets(shop)),
    ensures
        r@ == read_items(rom@, shop_offsets(shop)),
{
    let offs = shop_item_offsets(shop);
    let mut out: Vec<ShopItem> = Vec::new();
    assert(offs@.skip(0) =~= offs@);
    assert(out@ + read_items(rom@, offs@) =~= read_items(rom@, offs@));
    let mut k: usize = 0;
    while k < offs.len()
        invariant
            offs@ == shop_offsets(shop),
            k <= offs@.len(),
            items_readable(rom@, offs@.skip(k as int)),
            read_items(rom@, offs@) == out@ + read_items(rom@, offs@.skip(k as int)),
        decreases offs@.len() - k,
    {
        let ghost rest = offs@.skip(k as int);
        assert(rest[0] == offs@[k as int]);
        assert(rest.drop_first() =~= offs@.skip(k + 1));
        if let Some(it) = ShopItem::from_rom(rom, offs[k]) {
            out.push(it);
            assert(read_items(rom@, rest) == seq![it] + read_items(rom@, offs@.skip(k + 1)));
            assert(out@ + read_items(rom@, offs@.skip(k + 1)) =~= read_items(rom@, offs@));
        } else {
            // If any entry is invalid (unknown catalog id), stop early to avoid spewing junk
            assert(read_items(rom@, rest) == Seq::<ShopItem>::empty());
            assert(out@ =~= read_items(rom@, offs@));
            return out;
        }
        k = k + 1;
    }
    assert(offs@.skip(k as int).len() == 0);
    assert(out@ =~= read_items(rom@, offs@));
    out
}

/// Every shop other than `shop` that is readable in `d1` is readable in `d2` and reads
/// the same there.
pub open spec fn other_shops_kept(d1: Seq<u8>, d2: Seq<u8>, shop: ShopId) -> bool {
    forall|other: ShopId|
        #![trigger items_readable(d2, shop_offsets(other))]
        #![trigger read_items(d2, shop_offsets(other))]
        other != shop && items_readable(d1, shop_offsets(other)) ==> items_readable(d2, shop_offsets(other))
            && read_items(d2, shop_offsets(other)) == read_items(d1, shop_offsets(other))
}

proof fn lemma_write_shop_keeps_other_shops(d: Seq<u8>, shop: ShopId, items: Seq<ShopItem>)
    requires
        items.len() == shop_offsets(shop).len(),
    ensures
        other_shops_kept(d, write_items(d, shop_offsets(shop), items), shop),
{
    let w = write_items(d, shop_offsets(shop), items);
    assert forall|other: ShopId|
        #![trigger items_readable(w, shop_offsets(other))]
        #![trigger read_items(w, shop_offsets(other))]
        other != shop && items_readable(d, shop_offsets(other)) implies items_readable(w, shop_offsets(other))
        && read_items(w, shop_offsets(other)) == read_items(d, shop_offsets(other)) by {
        lemma_write_shop_keeps_others(d, shop, items, other);
    }
}

/// Write all items back to a shop (must match the number of entries for that shop).
pub fn write_shop(rom: &mut Rom, shop: ShopId, items: &[ShopItem])
    requires
        items@.len() == shop_offsets(shop).len(),
        entries_fit(old(rom)@, shop_offsets(shop)),
    ensures
        final(rom)@ == write_items(old(rom)@, shop_offsets(shop), items@),
        other_shops_kept(old(rom)@, final(rom)@, shop),
{
    let offs = shop_item_offsets(shop);
    let mut k: usize = 0;
    while k < items.len()
        invariant
            offs@ == shop_offsets(shop),
            items@.len() == offs@.len(),
            k <= items@.len(),
            entries_fit(old(rom)@, offs@),
            rom@.len() == old(rom)@.len(),
            rom@ == write_items(old(rom)@, offs@.take(k as int), items@.take(k as int)),
        decreases items@.len() - k,
    {
        let ghost before = rom@;
        assert(offs@[k as int] + 2 < old(rom)@.len());
        items[k].write_rom(rom, offs[k]);
        assert(offs@.take(k + 1).drop_last() =~= offs@.take(k as int));
        assert(items@.take(k + 1).drop_last() =~= items@.take(k as int));
        k = k + 1;
    }
    assert(offs@.take(k as int) =~= offs@);
    assert(items@.take(k as int) =~= items@);
    proof {
        lemma_write_shop_keeps_other_shops(old(rom)@, shop, items@);
    }
}

/// The shop catalog: weapons from $00, armour from $20, shields and the helmet from
/// $40, spells from $60, and rings, keys, tools and potions from $80, each item at its
/// place in the game's catalog.
pub proof fn lemma_shop_catalog_ids()
    ensures
        ShopItemId::Dagger.byte() == 0x00,
        ShopItemId::Longsword.byte() == 0x01,
        ShopItemId::Giantblade.byte() == 0x02,
        ShopItemId::Dragonslayer.byte() == 0x03,
        ShopItemId::LeatherArmour.byte() == 0x20,
        ShopItemId::StuddedMail.byte() == 0x21,
        ShopItemId::FullPlate.byte() == 0x22,
        ShopItemId::BattleSuit.byte() == 0x23,
        ShopItemId::SmallShield.byte() == 0x40,
        ShopItemId::LargeShield.byte() == 0x41,
        ShopItemId::MagicShield.byte() == 0x42,
        ShopItemId::BattleHelmet.byte() == 0x43,
        ShopItemId::Deluge.byte() == 0x60,
        ShopItemId::Thunder.byte() == 0x61,
        ShopItemId::Fire.byte() == 0x62,
        ShopItemId::Death.byte() == 0x63,
        ShopItemId::Tilte.byte() == 0x64,
        ShopItemId::ElfRing.byte() == 0x80,
        ShopItemId::RubyRing.byte() == 0x81,
        ShopItemId::DworfRing.byte() == 0x82,
        ShopItemId::DemonRing.byte() == 0x83,
        ShopItemId::AceKey.byte() == 0x84,
        ShopItemId::KingKey.byte() == 0x85,
        ShopItemId::QueenKey.byte() == 0x86,
        ShopItemId::JackKey.byte() == 0x87,
        ShopItemId::JokerKey.byte() == 0x88,
        ShopItemId::Mattock.byte() == 0x89,
        ShopItemId::Rod.byte() == 0x8A,
        ShopItemId::Crystal.byte() == 0x8B,
        ShopItemId::Lamp.byte() == 0x8C,
        ShopItemId::Hourglass.byte() == 0x8D,
        ShopItemId::Book.byte() == 0x8E,
        ShopItemId::Wingboots.byte() == 0x8F,
        ShopItemId::RedPotion.byte() == 0x90,
        ShopItemId::BlackPotion.byte() == 0x91,
        ShopItemId::Elixir.byte() == 0x92,
        ShopItemId::Pendant.byte() == 0x93,
        ShopItemId::BlackOnyx.byte() == 0x94,
        ShopItemId::FireCrystal.byte() == 0x95,
{
}

} // verus!

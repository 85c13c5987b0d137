use faxanadu_patcher::patches::inventory::items::ItemId;
use faxanadu_patcher::patches::screens::eolis::EolisScreen;
use faxanadu_patcher::patches::shops::shops::{
    read_shop, shop_item_offsets, write_shop, ShopId, ShopItem, ShopItemId,
};
use faxanadu_patcher::rom::Rom;

fn blank_rom() -> Rom {
    Rom::from_bytes(vec![0xFFu8; 0x40010])
}

#[test]
fn shop_item_id_bytes_round_trip() {
    let mut count = 0;
    for b in 0..=255u8 {
        if let Some(id) = ShopItemId::from_byte(b) {
            assert_eq!(id.to_byte(), b);
            count += 1;
        }
    }
    assert_eq!(count, 39);
    assert_eq!(ShopItemId::from_byte(0x8B), Some(ShopItemId::Crystal));
    assert_eq!(ShopItemId::from_byte(0x95), Some(ShopItemId::FireCrystal));
    assert_eq!(ShopItemId::from_byte(0x04), None);
    assert_eq!(ShopItemId::from_byte(0x96), None);
}

#[test]
fn item_id_bytes_round_trip() {
    let mut count = 0;
    for b in 0..=255u8 {
        if let Some(id) = ItemId::from_byte(b) {
            assert_eq!(id.to_byte(), b);
            count += 1;
        }
    }
    assert_eq!(count, 42);
    assert_eq!(ItemId::from_byte(0x28), Some(ItemId::RedPotion1));
    assert_eq!(ItemId::from_byte(0x45), None);
    assert_eq!(ItemId::from_byte(0x5A), Some(ItemId::RingDemon));
}

#[test]
fn eolis_screen_bytes_round_trip() {
    for b in 0..=8u8 {
        assert_eq!(EolisScreen::from_byte(b).unwrap().to_byte(), b);
    }
    assert_eq!(EolisScreen::from_byte(9), None);
    assert_eq!(EolisScreen::from_byte(3), Some(EolisScreen::ShopsExterior));
}

#[test]
fn shop_item_write_then_read() {
    let mut rom = blank_rom();
    let it = ShopItem { id: ShopItemId::Longsword, price: 0x1234 };
    it.write_rom(&mut rom, 0x100);
    assert_eq!(&rom.data()[0x100..0x103], &[0x01, 0x34, 0x12]);
    assert_eq!(ShopItem::from_rom(&rom, 0x100), Some(it));
}

#[test]
fn unknown_catalog_id_reads_as_none() {
    let rom = blank_rom();
    assert_eq!(ShopItem::from_rom(&rom, 0x100), None);
}

#[test]
fn read_shop_stops_at_first_unknown_entry() {
    let mut rom = blank_rom();
    let offs = shop_item_offsets(ShopId::EolisItemShop);
    assert_eq!(offs, vec![0x3243E, 0x32441, 0x32444, 0x32447]);
    ShopItem { id: ShopItemId::Dagger, price: 50 }.write_rom(&mut rom, offs[0]);
    ShopItem { id: ShopItemId::RedPotion, price: 100 }.write_rom(&mut rom, offs[1]);
    // offs[2] keeps 0xFF, no catalog id; offs[3] would be valid but is not reached
    ShopItem { id: ShopItemId::Elixir, price: 900 }.write_rom(&mut rom, offs[3]);
    let items = read_shop(&rom, ShopId::EolisItemShop);
    assert_eq!(
        items,
        vec![
            ShopItem { id: ShopItemId::Dagger, price: 50 },
            ShopItem { id: ShopItemId::RedPotion, price: 100 },
        ]
    );
}

#[test]
fn write_shop_then_read_shop_gives_the_items() {
    let mut rom = blank_rom();
    let items = vec![
        ShopItem { id: ShopItemId::Mattock, price: 300 },
        ShopItem { id: ShopItemId::Rod, price: 2000 },
        ShopItem { id: ShopItemId::Wingboots, price: 0xFFFF },
    ];
    write_shop(&mut rom, ShopId::DaybreakItemShop, &items);
    assert_eq!(read_shop(&rom, ShopId::DaybreakItemShop), items);
    // the third item went to 0x324A3, after the second at 0x324A6 in table order
    assert_eq!(rom.read_byte(0x324A3), 0x8F);
    assert_eq!(rom.read_byte(0x324A6), 0x8A);
}

#[test]
fn every_shop_table_reads_back_what_was_written() {
    let shops = [
        ShopId::EolisKeyShop, ShopId::EolisItemShop, ShopId::ApoluneKeyShop, ShopId::ApoluneSecretShop,
        ShopId::ApoluneItemShop, ShopId::ForepawKeyShop, ShopId::ForepawItemShop, ShopId::MasconKeyShop,
        ShopId::MasconItemShop, ShopId::MasconSecretShop, ShopId::VictimKeyShop, ShopId::VictimItemShop,
        ShopId::ConflateItemShop, ShopId::DaybreakKeyShop, ShopId::DaybreakItemShop, ShopId::DartmoorKeyShop,
        ShopId::DartmoorItemShop,
    ];
    let mut rom = blank_rom();
    for (k, shop) in shops.iter().enumerate() {
        let n = shop_item_offsets(*shop).len();
        let items: Vec<ShopItem> =
            (0..n).map(|i| ShopItem { id: ShopItemId::Crystal, price: (k * 10 + i) as u16 }).collect();
        write_shop(&mut rom, *shop, &items);
        assert_eq!(read_shop(&rom, *shop), items);
    }
}

#[test]
fn writing_one_shop_leaves_every_other_shop_alone() {
    let shops = [
        ShopId::EolisKeyShop, ShopId::EolisItemShop, ShopId::ApoluneKeyShop, ShopId::ApoluneSecretShop,
        ShopId::ApoluneItemShop, ShopId::ForepawKeyShop, ShopId::ForepawItemShop, ShopId::MasconKeyShop,
        ShopId::MasconItemShop, ShopId::MasconSecretShop, ShopId::VictimKeyShop, ShopId::VictimItemShop,
        ShopId::ConflateItemShop, ShopId::DaybreakKeyShop, ShopId::DaybreakItemShop, ShopId::DartmoorKeyShop,
        ShopId::DartmoorItemShop,
    ];
    let mut rom = blank_rom();
    for (k, shop) in shops.iter().enumerate() {
        let n = shop_item_offsets(*shop).len();
        let items: Vec<ShopItem> =
            (0..n).map(|i| ShopItem { id: ShopItemId::Elixir, price: (k * 100 + i) as u16 }).collect();
        write_shop(&mut rom, *shop, &items);
    }
    let before: Vec<Vec<ShopItem>> = shops.iter().map(|s| read_shop(&rom, *s)).collect();
    let fresh = vec![
        ShopItem { id: ShopItemId::Lamp, price: 1 },
        ShopItem { id: ShopItemId::Book, price: 2 },
        ShopItem { id: ShopItemId::Rod, price: 3 },
    ];
    write_shop(&mut rom, ShopId::DaybreakItemShop, &fresh);
    for (k, shop) in shops.iter().enumerate() {
        if *shop == ShopId::DaybreakItemShop {
            assert_eq!(read_shop(&rom, *shop), fresh);
        } else {
            assert_eq!(read_shop(&rom, *shop), before[k]);
        }
    }
    // no two entries of any two shops share a byte
    let mut all: Vec<usize> = shops.iter().flat_map(|s| shop_item_offsets(*s)).collect();
    all.sort();
    for w in all.windows(2) {
        assert!(w[0] + 3 <= w[1]);
    }
}

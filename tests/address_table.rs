use ff7_bridge::address_table::{
    AddressTable, FieldKind, FIELD_ID, GAME_MOMENT, SAVEMAP, STEAM_BUILD, WORLD_MES_DATA,
};
use ff7_bridge::error::CoreError;

fn table() -> AddressTable {
    AddressTable::for_build(STEAM_BUILD).unwrap()
}

#[test]
fn known_build_has_every_field() {
    let t = table();
    assert_eq!(t.len(), 4);
    for name in [SAVEMAP, GAME_MOMENT, FIELD_ID, WORLD_MES_DATA] {
        let e = t.lookup(name).unwrap();
        assert_eq!(e.name, name);
        assert!(e.size > 0);
    }
}

#[test]
fn lookup_gives_the_exact_entry() {
    let t = table();
    let e = t.lookup(WORLD_MES_DATA).unwrap();
    assert_eq!(e.offset, 0xE2A0C0);
    assert_eq!(e.size, 0x1000);
    assert_eq!(e.kind, FieldKind::Buffer);
    let g = t.lookup(GAME_MOMENT).unwrap();
    assert_eq!(g.offset, 0xDC08DC);
    assert_eq!(g.size, 2);
    assert_eq!(g.kind, FieldKind::Scalar);
}

#[test]
fn lookup_is_stable_across_calls() {
    let t = table();
    for name in [SAVEMAP, GAME_MOMENT, FIELD_ID, WORLD_MES_DATA] {
        let a = t.lookup(name).unwrap();
        let b = t.lookup(name).unwrap();
        assert_eq!(a.name, b.name);
        assert_eq!(a.offset, b.offset);
        assert_eq!(a.size, b.size);
        assert_eq!(a.kind, b.kind);
    }
}

#[test]
fn unknown_names_are_rejected() {
    let t = table();
    for name in ["", "world_mes", "WORLD_MES_DATA", "savemap ", "battle_id"] {
        assert_eq!(t.lookup(name).unwrap_err(), CoreError::UnknownField);
    }
}

#[test]
fn unsupported_build_is_refused() {
    assert_eq!(
        AddressTable::for_build("ff7_en-1998").unwrap_err(),
        CoreError::UnsupportedBuildError
    );
    assert_eq!(AddressTable::for_build("").unwrap_err(), CoreError::UnsupportedBuildError);
}

#[test]
fn entries_keep_table_order() {
    let t = table();
    assert_eq!(t.entry_at(0).name, SAVEMAP);
    assert_eq!(t.entry_at(3).name, WORLD_MES_DATA);
}

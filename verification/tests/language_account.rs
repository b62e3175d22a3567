use taimi_hud::exports::runtime::{game_language, notify_game_language, GameLanguage, GAME_LANGUAGE_UNSET};
use taimi_hud::{account_name_canon, game_language_id, receive_account_name, AccountNameUpdate};

#[test]
fn language_ids_roundtrip() {
    for lang in [
        GameLanguage::English,
        GameLanguage::French,
        GameLanguage::German,
        GameLanguage::Spanish,
        GameLanguage::Chinese,
    ] {
        assert_eq!(GameLanguage::from_id(lang.id()), Some(lang));
    }
    assert_eq!(GameLanguage::French.id(), 2);
    assert_eq!(GameLanguage::from_id(1), None);
}

#[test]
fn language_codes() {
    assert_eq!(game_language_id(GameLanguage::English), "en");
    assert_eq!(game_language_id(GameLanguage::French), "fr");
    assert_eq!(game_language_id(GameLanguage::German), "de");
    assert_eq!(game_language_id(GameLanguage::Spanish), "es");
    assert_eq!(game_language_id(GameLanguage::Chinese), "cn");
}

#[test]
fn game_language_unset_until_reported() {
    let mut stored = GAME_LANGUAGE_UNSET;
    assert_eq!(game_language(stored), None);
    assert!(notify_game_language(&mut stored, GameLanguage::German, false));
    assert_eq!(game_language(stored), Some(GameLanguage::German));
    assert!(!notify_game_language(&mut stored, GameLanguage::German, false));
    assert!(!notify_game_language(&mut stored, GameLanguage::French, true));
    assert_eq!(game_language(stored), Some(GameLanguage::French));
}

#[test]
fn account_name_canonical_form() {
    assert_eq!(account_name_canon(":Name.1234"), Some("Name.1234"));
    assert_eq!(account_name_canon("Name.1234"), Some("Name.1234"));
    assert_eq!(account_name_canon(":"), None);
    assert_eq!(account_name_canon(""), None);
    assert_eq!(account_name_canon("::x"), Some(":x"));
}

#[test]
fn account_name_recorded_once() {
    let mut recorded = None;
    assert_eq!(receive_account_name(&mut recorded, ":"), AccountNameUpdate::Invalid);
    assert_eq!(recorded, None);
    assert_eq!(receive_account_name(&mut recorded, ":Name.1234"), AccountNameUpdate::Recorded);
    assert_eq!(recorded.as_deref(), Some("Name.1234"));
    assert_eq!(receive_account_name(&mut recorded, "Name.1234"), AccountNameUpdate::Unchanged);
    assert_eq!(receive_account_name(&mut recorded, ":Other.1"), AccountNameUpdate::Inconsistent);
    assert_eq!(recorded.as_deref(), Some("Name.1234"));
}

use taimi_hud::exports::runtime::{
    addon_dir, addon_dir_fallback, arcdps_available, detect_language, first_answer, init_addon_dir,
    is_shutdown, nexus_available, nexus_link_ptr, notify_shutdown, reload_language, rtapi, send_alert,
    try_addon_dir, try_init_addon_dir, AddonDir, AddonPath, GameLanguage, Hosts, RuntimeResult,
    ShutdownSignal, RT_UNAVAILABLE,
};

fn path(root: &str, parts: &[&str]) -> AddonPath {
    AddonPath { root: root.to_string(), parts: parts.iter().map(|p| p.to_string()).collect() }
}

#[test]
fn host_availability() {
    let hosts = Hosts { nexus: Some(true), arcdps: None };
    assert!(nexus_available(&hosts));
    assert!(!arcdps_available(&hosts));
    let hosts = Hosts { nexus: Some(false), arcdps: Some(true) };
    assert!(!nexus_available(&hosts));
    assert!(arcdps_available(&hosts));
}

#[test]
fn first_host_answer_wins() {
    let a: RuntimeResult<u32> = first_answer(Some(Ok(Some(1))), Some(Ok(Some(2))));
    assert_eq!(a, Ok(1));
    assert_eq!(first_answer::<u32>(Some(Ok(None)), Some(Ok(Some(2)))), Ok(2));
    assert_eq!(first_answer::<u32>(None, Some(Ok(Some(2)))), Ok(2));
    assert_eq!(first_answer::<u32>(Some(Err("nexus down")), Some(Ok(Some(2)))), Err("nexus down"));
    assert_eq!(first_answer::<u32>(Some(Ok(None)), Some(Err("arc"))), Err("arc"));
    assert_eq!(first_answer::<u32>(Some(Ok(None)), None), Err(RT_UNAVAILABLE));
    assert_eq!(first_answer::<u32>(None, None), Err(RT_UNAVAILABLE));
}

#[test]
fn runtime_requests_go_through_hosts() {
    assert_eq!(nexus_link_ptr::<u8>(Some(Ok(Some(7))), None), Ok(7));
    assert_eq!(rtapi::<u8>(None, Some(Ok(Some(3)))), Ok(Some(3)));
    assert_eq!(rtapi::<u8>(None, Some(Err("RTAPI unsupported"))), Err("RTAPI unsupported"));
    assert_eq!(send_alert(Some(Ok(None)), Some(Ok(Some(())))), Ok(()));
    assert_eq!(send_alert(None, None), Err(RT_UNAVAILABLE));
    let dir = try_addon_dir(None, Some(Ok(Some(path("C:\\", &["GW2", "addons", "Taimi"])))));
    assert_eq!(dir, Ok(path("C:\\", &["GW2", "addons", "Taimi"])));
}

#[test]
fn language_detection_falls_back_to_game_language() {
    assert_eq!(detect_language(Some(Ok(Some("fr".to_string()))), None, None), Ok("fr".to_string()));
    assert_eq!(detect_language(None, Some(Ok(None)), Some(GameLanguage::Spanish)), Ok("es".to_string()));
    assert_eq!(detect_language(None, None, None), Err(RT_UNAVAILABLE));
    assert_eq!(detect_language(Some(Err("boom")), None, Some(GameLanguage::English)), Err("boom"));
}

#[test]
fn saved_language_is_normalized_or_detection_used() {
    assert_eq!(reload_language(Some("EN"), Err("unused")), Ok("en".to_string()));
    assert_eq!(reload_language(Some("deu"), Err("unused")), Ok("deu".to_string()));
    assert_eq!(reload_language(Some("en-US"), Ok("fr".to_string())), Ok("fr".to_string()));
    assert_eq!(reload_language(Some("abcd"), Ok("fr".to_string())), Ok("fr".to_string()));
    assert_eq!(reload_language(None, Err("none")), Err("none"));
}

#[test]
fn shutdown_signal_stays_raised() {
    let mut signal = ShutdownSignal::new();
    assert!(!is_shutdown(&signal));
    notify_shutdown(&mut signal);
    assert!(is_shutdown(&signal));
    notify_shutdown(&mut signal);
    assert!(is_shutdown(&signal));
}

#[test]
fn addon_dir_fallback_is_relative_taimi() {
    assert_eq!(addon_dir_fallback(), path("", &["addons", "Taimi"]));
}

#[test]
fn addon_dir_settles_once() {
    let mut cell = AddonDir::new();
    let fallback = addon_dir_fallback();
    assert_eq!(try_init_addon_dir(&mut cell, true, Some(path("/", &["a"]))), fallback);
    assert!(cell.dir.is_none());
    assert_eq!(try_init_addon_dir(&mut cell, false, None), fallback);
    assert!(cell.dir.is_none());
    assert_eq!(try_init_addon_dir(&mut cell, false, Some(path("/", &["a"]))), path("/", &["a"]));
    assert_eq!(try_init_addon_dir(&mut cell, false, Some(path("/", &["b"]))), path("/", &["a"]));
    assert_eq!(init_addon_dir(&mut cell, path("/", &["c"])), path("/", &["c"]));
    assert_eq!(cell.dir, Some(path("/", &["c"])));
}

#[test]
fn addon_dir_resolution_order() {
    let mut cell = AddonDir::new();
    let r = addon_dir(&mut cell, true, Some(path("/", &["saved"])), || Err(RT_UNAVAILABLE));
    assert_eq!(r, addon_dir_fallback());
    assert!(cell.dir.is_none());
    let r = addon_dir(&mut cell, true, Some(path("/", &["saved"])), || Ok(path("/", &["host"])));
    assert_eq!(r, path("/", &["host"]));
    let r = addon_dir(&mut cell, false, Some(path("/", &["saved"])), || -> RuntimeResult<AddonPath> {
        panic!("settled: the hosts are not asked")
    });
    assert_eq!(r, path("/", &["host"]));

    let mut cell = AddonDir::new();
    let r = addon_dir(&mut cell, false, Some(path("/", &["saved"])), || -> RuntimeResult<AddonPath> {
        panic!("saved: the hosts are not asked")
    });
    assert_eq!(r, path("/", &["saved"]));
    assert_eq!(cell.dir, Some(path("/", &["saved"])));
}

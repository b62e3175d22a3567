use std::cell::RefCell;
use taimi_hud::exports::arcdps::{early_init, pre_init, ArcdpsState, NO_EXPORT};
use taimi_hud::exports::runtime::log::{log_record, log_routing, LogLevel, LogMetadata, LogRecord, LogRoute};
use taimi_hud::exports::runtime::RT_UNAVAILABLE;

fn record(level: LogLevel, message: &str) -> LogRecord {
    LogRecord {
        metadata: LogMetadata { level, target: "taimi_hud".to_string() },
        module: None,
        line: None,
        message: message.to_string(),
    }
}

fn loaded() -> ArcdpsState {
    let mut state = ArcdpsState::new();
    pre_init(&mut state);
    early_init(&mut state);
    state
}

#[test]
fn records_reach_arcdps_window_file_and_nexus() {
    let window = RefCell::new(Vec::new());
    let file = RefCell::new(Vec::new());
    let nexus = RefCell::new(Vec::new());
    let r = log_record(
        &loaded(),
        &record(LogLevel::Warn, "careful"),
        Some(true),
        true,
        Some(|line: Vec<u8>| *window.borrow_mut() = line),
        Some(|line: Vec<u8>| *file.borrow_mut() = line),
        |line: Vec<u8>| {
            *nexus.borrow_mut() = line;
            Ok(Some(()))
        },
        || Ok(None),
    );
    assert_eq!(r, Ok(()));
    assert_eq!(window.into_inner(), b"<c=#ffa0a0>[WARN ] taimi_hud; careful</c>\0".to_vec());
    assert_eq!(file.into_inner(), b"[WARN ] taimi_hud; careful\0".to_vec());
    assert_eq!(nexus.into_inner(), b"careful\0".to_vec());
}

#[test]
fn uncoloured_and_unshown_records() {
    let window = RefCell::new(None);
    let file = RefCell::new(Vec::new());
    let r = log_record(
        &loaded(),
        &record(LogLevel::Info, "hello"),
        None,
        false,
        Some(|line: Vec<u8>| *window.borrow_mut() = Some(line)),
        Some(|line: Vec<u8>| *file.borrow_mut() = line),
        |_line: Vec<u8>| Ok(Some(())),
        || Ok(None),
    );
    assert_eq!(r, Ok(()));
    assert_eq!(window.into_inner(), Some(b"[INFO ] taimi_hud; hello\0".to_vec()));
    assert_eq!(file.into_inner(), b"[INFO ] taimi_hud; hello\0".to_vec());
    // release builds keep debugging records out of the window
    let window = RefCell::new(None);
    let r = log_record(
        &loaded(),
        &record(LogLevel::Debug, "details"),
        None,
        false,
        Some(|line: Vec<u8>| *window.borrow_mut() = Some(line)),
        Some(|_line: Vec<u8>| ()),
        |_line: Vec<u8>| Ok(Some(())),
        || Ok(None),
    );
    assert_eq!(r, Ok(()));
    assert_eq!(window.into_inner(), None);
}

#[test]
fn missing_file_export_fails() {
    let r = log_record(
        &loaded(),
        &record(LogLevel::Error, "boom"),
        None,
        true,
        None::<fn(Vec<u8>)>,
        None::<fn(Vec<u8>)>,
        |_line: Vec<u8>| Ok(Some(())),
        || Ok(None),
    );
    assert_eq!(r, Err(NO_EXPORT));
}

#[test]
fn without_arcdps_nexus_logs_or_nothing_can() {
    let state = ArcdpsState::new();
    let none = || -> Option<fn(Vec<u8>)> { None };
    assert_eq!(log_record(&state, &record(LogLevel::Info, "x"), Some(true), true, none(), none(), |_l: Vec<u8>| Ok(None), || Ok(Some(()))), Ok(()));
    assert_eq!(log_record(&state, &record(LogLevel::Info, "x"), Some(true), true, none(), none(), |_l: Vec<u8>| Ok(None), || Ok(None)), Err(RT_UNAVAILABLE));
    assert_eq!(log_record(&state, &record(LogLevel::Info, "x"), Some(true), true, none(), none(), |_l: Vec<u8>| Ok(None), || Err("nexus down")), Err("nexus down"));
    assert_eq!(log_record(&state, &record(LogLevel::Info, "x"), None, true, none(), none(), |_l: Vec<u8>| Ok(None), || Ok(Some(()))), Err(RT_UNAVAILABLE));
}

#[test]
fn routing_decisions() {
    match log_routing(&loaded(), &record(LogLevel::Debug, "details"), Some(true), false) {
        LogRoute::Arcdps { window, file, nexus } => {
            assert_eq!(window, None);
            assert_eq!(file, b"[DEBUG] taimi_hud; details\0".to_vec());
            assert_eq!(nexus, Some(b"details\0".to_vec()));
        },
        _ => panic!("ArcDPS loaded the addon"),
    }
    match log_routing(&loaded(), &record(LogLevel::Error, "boom"), None, true) {
        LogRoute::Arcdps { window, file, nexus } => {
            assert_eq!(window, Some(b"<c=#ff0000>[ERROR] taimi_hud; boom</c>\0".to_vec()));
            assert_eq!(file, b"[ERROR] taimi_hud; boom\0".to_vec());
            assert_eq!(nexus, None);
        },
        _ => panic!("ArcDPS loaded the addon"),
    }
    assert!(matches!(log_routing(&ArcdpsState::new(), &record(LogLevel::Info, "x"), Some(true), true), LogRoute::NexusFallback));
    assert!(matches!(log_routing(&ArcdpsState::new(), &record(LogLevel::Info, "x"), Some(false), true), LogRoute::Unavailable));
}

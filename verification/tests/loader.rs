use taimi_hud::exports::runtime::{
    get_mumble_link_ptr, is_shutdown, mumble_link_ptr, notify_quit, texture_schedule_outcome, LinkCache,
    ShutdownSignal, RT_UNAVAILABLE, TEXTURE_LOAD_FAILURE,
};
use taimi_hud::{
    init, init_step, load_arcdps, load_language, record_load, take_loaded, unload, unload_step,
    LoadStep, Loaded, Loader, Teardown, UnloadStep, LANGUAGE_NOT_LOADED, LANGUAGE_UNPARSABLE,
    LOADER_POISONED,
};

type TestLoader = Loader<u8, u16, u32, u64, char>;

fn parts() -> Loaded<u8, u16, u32, u64> {
    Loaded { controller_sender: 1, render_sender: 2, controller_thread: 3, render_state: 4 }
}

#[test]
fn loading_happens_once() {
    assert_eq!(init_step(false, false), LoadStep::Load);
    assert_eq!(init_step(true, false), LoadStep::AlreadyLoaded);
    assert_eq!(init_step(true, true), LoadStep::Poisoned);
    let mut loader = TestLoader::new();
    loader.render_callback = Some('c');
    let mut runs = 0;
    assert_eq!(init(&mut loader, false, || { runs += 1; Ok(parts()) }), Ok(()));
    assert!(loader.loaded);
    assert_eq!(
        (loader.controller_sender, loader.render_sender, loader.controller_thread, loader.render_state, loader.render_callback),
        (Some(1), Some(2), Some(3), Some(4), Some('c'))
    );
    assert_eq!(init(&mut loader, false, || { runs += 1; Err("again") }), Ok(()));
    assert_eq!(runs, 1);
    assert_eq!(loader.controller_thread, Some(3));
    let mut loader = TestLoader::new();
    assert_eq!(init(&mut loader, false, || Err("no language")), Err("no language"));
    assert!(!loader.loaded && loader.controller_thread.is_none());
    assert_eq!(init(&mut loader, true, || Ok(parts())), Err(LOADER_POISONED));
    assert!(!loader.loaded);
    let mut loader = TestLoader::new();
    assert_eq!(record_load(&mut loader, Ok(parts())), Ok(()));
    assert!(loader.loaded && loader.render_state == Some(4));
}

#[test]
fn unloading_happens_once() {
    assert_eq!(unload_step(true, false), UnloadStep::Unload);
    assert_eq!(unload_step(false, false), UnloadStep::NotLoaded);
    assert_eq!(unload_step(true, true), UnloadStep::Poisoned);
    let mut loader = TestLoader::new();
    loader.render_callback = Some('c');
    assert_eq!(init(&mut loader, false, || Ok(parts())), Ok(()));
    let mut torn = None;
    assert!(unload(&mut loader, false, |t: Teardown<u8, u16, u32, u64, char>| torn = Some(t)));
    let t = torn.unwrap();
    assert_eq!(
        (t.controller_sender, t.render_sender, t.controller_thread, t.render_state, t.render_callback),
        (Some(1), Some(2), Some(3), Some(4), Some('c'))
    );
    assert!(!loader.loaded);
    assert!(loader.controller_sender.is_none() && loader.render_sender.is_none());
    assert!(loader.controller_thread.is_none() && loader.render_state.is_none() && loader.render_callback.is_none());
    let mut runs = 0;
    assert!(!unload(&mut loader, false, |_t| runs += 1));
    assert_eq!(runs, 0);
    let mut loader = TestLoader::new();
    loader.loaded = true;
    assert!(!unload(&mut loader, true, |_t| ()));
    assert!(loader.loaded);
    let mut loader = TestLoader::new();
    loader.loaded = true;
    loader.controller_thread = Some(9);
    let t = take_loaded(&mut loader);
    assert_eq!(t.controller_thread, Some(9));
    assert!(!loader.loaded && loader.controller_thread.is_none());
}

#[test]
fn switching_language() {
    assert_eq!(load_language("en", "en", |_| false), Ok(()));
    let mut selected = None;
    assert_eq!(load_language("en", "de_de", |tag| { selected = Some(tag); true }), Ok(()));
    let tag = selected.unwrap();
    assert_eq!(tag.language, "de");
    assert_eq!(tag.script, None);
    assert_eq!(tag.region.as_deref(), Some("DE"));
    assert!(tag.variants.is_empty());
    let mut selected = None;
    assert_eq!(load_language("en", "sr-latn-rs-valencia", |tag| { selected = Some(tag); true }), Ok(()));
    let tag = selected.unwrap();
    assert_eq!((tag.language.as_str(), tag.script.as_deref(), tag.region.as_deref()), ("sr", Some("Latn"), Some("RS")));
    assert_eq!(tag.variants, vec!["valencia".to_string()]);
    assert_eq!(load_language("en", "fr", |_| false), Err(LANGUAGE_NOT_LOADED));
    assert_eq!(load_language("en", "not a language!", |_| true), Err(LANGUAGE_UNPARSABLE));
}

#[test]
fn mumble_link_is_asked_for_until_known() {
    let mut cache = LinkCache::Unqueried;
    assert_eq!(mumble_link_ptr(&mut cache, || Ok(None::<u8>)), Err(RT_UNAVAILABLE));
    assert!(matches!(cache, LinkCache::Unqueried));
    assert_eq!(mumble_link_ptr(&mut cache, || Ok(Some(9u8))), Ok(9));
    assert_eq!(mumble_link_ptr(&mut cache, || Ok(Some(1u8))), Ok(9));
    let mut cache = LinkCache::Unqueried;
    assert_eq!(mumble_link_ptr(&mut cache, || Err::<Option<u8>, _>("closed")), Err("closed"));
    assert_eq!(mumble_link_ptr(&mut cache, || Ok(Some(1u8))), Err(RT_UNAVAILABLE));
    assert_eq!(get_mumble_link_ptr(Some(Ok(None)), Some(Ok(Some(3u8)))), Ok(Some(3)));
    assert_eq!(get_mumble_link_ptr::<u8>(Some(Ok(None)), None), Ok(None));
    assert_eq!(get_mumble_link_ptr::<u8>(Some(Err("no")), Some(Ok(Some(3)))), Err("no"));
}

#[test]
fn scheduling_textures() {
    assert_eq!(texture_schedule_outcome(Some(true), Some(Err("unused"))), Ok(()));
    assert_eq!(texture_schedule_outcome(Some(false), None), Err(TEXTURE_LOAD_FAILURE));
    assert_eq!(texture_schedule_outcome(None, None), Err(RT_UNAVAILABLE));
    assert_eq!(texture_schedule_outcome(None, Some(Ok(None))), Err(RT_UNAVAILABLE));
    assert_eq!(texture_schedule_outcome(Some(false), Some(Ok(Some(())))), Ok(()));
    assert_eq!(texture_schedule_outcome(Some(false), Some(Err("nexus"))), Err("nexus"));
}

#[test]
fn quitting() {
    let mut signal = ShutdownSignal::new();
    let plan = notify_quit(&mut signal, Some(true), false);
    assert!(is_shutdown(&signal) && plan.drop_controller_sender && !plan.unload_render_here);
    let plan = notify_quit(&mut signal, Some(false), true);
    assert!(!plan.drop_controller_sender && plan.unload_render_here);
    assert!(!notify_quit(&mut signal, None, false).drop_controller_sender);
}

#[test]
fn arcdps_adds_nothing_to_loading() {
    assert_eq!(load_arcdps(), Ok(()));
    assert_eq!(taimi_hud::exports::arcdps::SIG, taimi_hud::exports::SIG as u32);
}

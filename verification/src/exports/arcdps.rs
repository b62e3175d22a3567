//! The ArcDPS host: its lifecycle flags, the language and in-game state it
//! reports, and where it keeps the addon's files.

use vstd::prelude::*;
use crate::exports::ADDON_DIR_NAME;
use crate::exports::runtime::{
    AddonPath, AddonPathView, GameLanguage, RuntimeResult, spec_language_from_id, spec_language_id,
};
use crate::exports::runtime::update::{GitHubLatestRelease, GitHubSource, dll_download_url, spec_dll_url};
use crate::built_info::{git_release, spec_git_release};
use crate::text::{opt_chars, strip_prefix, strip_prefix_spec, strip_suffix, strip_suffix_spec};
use crate::{WINDOW_MARKERS, WINDOW_PRIMARY, WINDOW_TIMERS};
use crate::game_language_id;
use crate::text::str_eq;
use crate::exports::runtime::log::{LogBuffer, LogLevel, LogRecord, record_text, write_record};
use vstd::utf8::encode_utf8;
use core::ops::Range;
use std::collections::BTreeMap;

verus! {

/// The addon's signature as ArcDPS takes it.
pub const SIG: u32 = 0x7331BABD;

/// A host export that the addon needs is missing.
pub const NO_EXPORT: &'static str = "arcdps export missing";

/// What the addon knows about ArcDPS at run time.
pub struct ArcdpsState {
    /// ArcDPS loaded the addon and it serves requests.
    pub available: bool,
    /// ArcDPS loaded the addon (it may have handed over to Nexus).
    pub loaded: bool,
    /// The unofficial extras reported in.
    pub extras_available: bool,
    /// The game last reported being past character select and loading screens.
    pub ingame: bool,
    /// Id of the game language last reported.
    pub language_id: i32,
}

impl ArcdpsState {
    /// The state before ArcDPS calls into the addon.
    pub fn new() -> (r: ArcdpsState)
        ensures
            !r.available,
            !r.loaded,
            !r.extras_available,
            !r.ingame,
            r.language_id == spec_language_id(GameLanguage::English),
    {
        ArcdpsState {
            available: false,
            loaded: false,
            extras_available: false,
            ingame: false,
            language_id: 0,
        }
    }
}

/// The source repository that ArcDPS update checks look at.
pub fn gh_repo_src() -> (r: GitHubSource)
    ensures
        r.owner@ == "arcnmx"@,
        r.repository@ == "TaimiHUD"@,
        r.description is None,
{
    GitHubSource {
        owner: String::from_str("arcnmx"),
        repository: String::from_str("TaimiHUD"),
        description: None,
    }
}

/// ArcDPS is about to initialize the addon: it serves requests from now on.
pub fn early_init(state: &mut ArcdpsState)
    ensures
        *final(state) == (ArcdpsState { available: true, ..*old(state) }),
{
    state.available = true;
}

/// Signature under which the Nexus bridge registers with ArcDPS.
pub const NEXUS_BRIDGE_SIG: u32 = 0xFED81763;

/// Whether ArcDPS lists the Nexus bridge among its extensions.
/// `extension_sigs` holds the signature of each extension ArcDPS lists (none
/// where an extension reports no signature), or is none when the list cannot
/// be had.
pub fn check_for_nexus(extension_sigs: Option<&Vec<Option<u32>>>) -> (r: bool)
    ensures
        r == (extension_sigs matches Some(sigs) && sigs@.contains(Some(NEXUS_BRIDGE_SIG))),
{
    let sigs = match extension_sigs {
        Some(s) => s,
        None => return false,
    };
    let mut has_nexus = false;
    let mut i: usize = 0;
    while i < sigs.len()
        invariant
            i <= sigs@.len(),
            has_nexus == sigs@.take(i as int).contains(Some(NEXUS_BRIDGE_SIG)),
        decreases sigs@.len() - i,
    {
        let sig = match sigs[i] {
            Some(s) => s,
            None => 0,
        };
        let ghost prefix = sigs@.take(i as int);
        let ghost next = sigs@.take(i + 1);
        proof {
            assert(next =~= prefix.push(sigs@[i as int]));
            if sigs@[i as int] == Some(NEXUS_BRIDGE_SIG) {
                assert(next[i as int] == Some(NEXUS_BRIDGE_SIG));
            } else {
                assert forall|j: int| 0 <= j < next.len() && next[j] == Some(NEXUS_BRIDGE_SIG)
                    implies prefix.contains(Some(NEXUS_BRIDGE_SIG)) by {
                    assert(j < i);
                    assert(prefix[j] == next[j]);
                }
                if prefix.contains(Some(NEXUS_BRIDGE_SIG)) {
                    let j = choose|j: int| 0 <= j < prefix.len() && prefix[j] == Some(NEXUS_BRIDGE_SIG);
                    assert(next[j] == prefix[j]);
                }
            }
        }
        if sig == NEXUS_BRIDGE_SIG {
            has_nexus = true;
        }
        i = i + 1;
    }
    assert(sigs@.take(sigs@.len() as int) =~= sigs@);
    has_nexus
}

/// ArcDPS loaded the addon's module.
pub fn pre_init(state: &mut ArcdpsState)
    ensures
        *final(state) == (ArcdpsState { loaded: true, ..*old(state) }),
{
    state.loaded = true;
}

/// Finishes initialization. When Nexus already runs the addon, ArcDPS stops
/// serving requests; so it does when loading failed. Returns the load result.
pub fn init(state: &mut ArcdpsState, nexus_available: bool, load: Result<(), &'static str>) -> (r:
    Result<(), &'static str>)
    ensures
        r == load,
        final(state).available == (!nexus_available && load is Ok),
        final(state).loaded == old(state).loaded,
        final(state).extras_available == old(state).extras_available,
        final(state).ingame == old(state).ingame,
        final(state).language_id == old(state).language_id,
{
    state.available = true;
    if nexus_available {
        disable(state);
    }
    if load.is_err() {
        state.available = false;
    }
    load
}

/// ArcDPS releases the addon. Returns whether the addon must unload itself:
/// ArcDPS was serving it and Nexus is not. All flags are cleared.
pub fn release(state: &mut ArcdpsState, nexus_available: bool) -> (unload: bool)
    ensures
        unload == (old(state).available && !nexus_available),
        !final(state).available,
        !final(state).loaded,
        !final(state).extras_available,
        final(state).ingame == old(state).ingame,
        final(state).language_id == old(state).language_id,
{
    let unload = state.available && !nexus_available;
    state.available = false;
    state.loaded = false;
    state.extras_available = false;
    unload
}

/// Whether the game is past character select and loading screens, when ArcDPS serves.
pub fn is_ingame(state: &ArcdpsState) -> (r: Option<bool>)
    ensures
        r == (if state.available { Some(state.ingame) } else { None }),
{
    if !available(state) {
        return None;
    }
    Some(state.ingame)
}

/// A frame of ArcDPS's UI: records whether the game is in play, and returns
/// whether the addon should draw.
pub fn imgui(state: &mut ArcdpsState, not_charsel_loading: bool) -> (draw: bool)
    ensures
        *final(state) == (ArcdpsState { ingame: not_charsel_loading, ..*old(state) }),
        draw == old(state).available,
{
    state.ingame = not_charsel_loading;
    available(state)
}

/// The option window shows no extra checkbox for the addon's windows.
pub fn imgui_options_windows(window_name: Option<&str>) -> (hide_checkbox: bool)
    ensures
        !hide_checkbox,
{
    false
}

/// The windows the options tab lists: the primary and timers windows, then
/// the markers window when the build has markers.
pub fn options_windows(markers: bool) -> (r: Vec<&'static str>)
    ensures
        r@.map_values(|w: &str| w@) == if markers {
            seq![WINDOW_PRIMARY@, WINDOW_TIMERS@, WINDOW_MARKERS@]
        } else {
            seq![WINDOW_PRIMARY@, WINDOW_TIMERS@]
        },
{
    let mut r: Vec<&'static str> = Vec::new();
    r.push(WINDOW_PRIMARY);
    r.push(WINDOW_TIMERS);
    if markers {
        r.push(WINDOW_MARKERS);
    }
    proof {
        if markers {
            assert(r@.map_values(|w: &str| w@) =~= seq![WINDOW_PRIMARY@, WINDOW_TIMERS@, WINDOW_MARKERS@]);
        } else {
            assert(r@.map_values(|w: &str| w@) =~= seq![WINDOW_PRIMARY@, WINDOW_TIMERS@]);
        }
    }
    r
}

/// Message id of a window's toggle button: the window's name without a
/// trailing `s`, then `-window-toggle`.
pub fn window_toggle_message_id(window: &str) -> (r: String)
    ensures
        r@ == match strip_suffix_spec(window@, "s"@) {
            Some(singular) => singular,
            None => window@,
        } + "-window-toggle"@,
{
    let singular = match strip_suffix(window, "s") {
        Some(w) => w,
        None => window,
    };
    String::from_str(singular).concat("-window-toggle")
}

/// Message id of the description shown under a window's toggle button:
/// only the primary window has one, `<window>-window-toggle-text`.
pub fn window_toggle_text_id(window: &str) -> (r: Option<String>)
    ensures
        window@ == WINDOW_PRIMARY@ ==> (r matches Some(id) && id@ == window@ + "-window-toggle-text"@),
        window@ != WINDOW_PRIMARY@ ==> r is None,
{
    if str_eq(window, WINDOW_PRIMARY) {
        Some(String::from_str(window).concat("-window-toggle-text"))
    } else {
        None
    }
}

/// The language codes the options offer: the game's languages, then the
/// ones only the addon's own localization offers.
pub open spec fn spec_language_options() -> Seq<Seq<char>> {
    seq![
        crate::spec_game_language_id(GameLanguage::English),
        crate::spec_game_language_id(GameLanguage::French),
        crate::spec_game_language_id(GameLanguage::German),
        crate::spec_game_language_id(GameLanguage::Spanish),
        crate::spec_game_language_id(GameLanguage::Chinese),
        "cz"@,
        "it"@,
        "pl"@,
        "pt-br"@,
        "ru"@,
    ]
}

/// The language codes the options offer; see [`spec_language_options`].
pub fn language_options() -> (r: Vec<&'static str>)
    ensures
        r@.map_values(|l: &str| l@) == spec_language_options(),
{
    let mut r: Vec<&'static str> = Vec::new();
    r.push(game_language_id(GameLanguage::English));
    r.push(game_language_id(GameLanguage::French));
    r.push(game_language_id(GameLanguage::German));
    r.push(game_language_id(GameLanguage::Spanish));
    r.push(game_language_id(GameLanguage::Chinese));
    r.push("cz");
    r.push("it");
    r.push("pl");
    r.push("pt-br");
    r.push("ru");
    assert(r@.map_values(|l: &str| l@) =~= spec_language_options());
    r
}

/// The language code the options show as selected: that of the game
/// language last reported, or nothing.
pub fn selected_language_id(state: &ArcdpsState) -> (r: &'static str)
    ensures
        r@ == match spec_language_from_id(state.language_id) {
            Some(l) => crate::spec_game_language_id(l),
            None => ""@,
        },
{
    match game_language(state) {
        Some(l) => game_language_id(l),
        None => "",
    }
}

/// ArcDPS checks for updates itself only when Nexus does not run the addon.
pub fn update_allowed(nexus_available: bool) -> (r: bool)
    ensures
        r == !nexus_available,
{
    !nexus_available
}

/// ArcDPS' window message filter: every message passes on unchanged.
pub fn wnd_filter(state: &ArcdpsState, msg: u32) -> (r: u32)
    ensures
        r == msg,
{
    if !available(state) {
        return msg;
    }
    msg
}

/// The extras report a squad update: the members go on to the markers
/// controller while ArcDPS serves, and are dropped otherwise.
pub fn extras_squad_update<T>(state: &ArcdpsState, members: T) -> (r: Option<T>)
    ensures
        r == if state.available {
            Some(members)
        } else {
            None
        },
{
    if !available(state) {
        return None;
    }
    Some(members)
}

/// What the addon reads of a local combat event from ArcDPS.
pub enum CombatLocalEvent {
    /// A skill event, with its source agent.
    Skill,
    /// An agent event: whether it is the player's own agent, and the account
    /// name it carries, if any.
    Agent { is_self: bool, account_name: Option<String> },
    /// An event the combat API does not recognize.
    Unrecognized,
}

/// What becomes of a local combat event.
pub enum CombatLocalAction {
    /// Nothing.
    Ignore,
    /// Hand the skill event to the controller.
    ForwardSkill,
    /// Record the player's account name (given here).
    AccountName(String),
    /// Warn that the event was not recognized.
    WarnUnrecognized,
}

/// Decides about a local combat event: nothing while ArcDPS does not serve;
/// skill events go to the controller; the player's own agent reports the
/// account name; unrecognized events are warned about.
pub fn combat_local(state: &ArcdpsState, event: CombatLocalEvent) -> (r: CombatLocalAction)
    ensures
        !state.available ==> r is Ignore,
        state.available ==> match event {
            CombatLocalEvent::Skill => r is ForwardSkill,
            CombatLocalEvent::Agent { is_self, account_name } => match account_name {
                Some(name) => if is_self {
                    (r matches CombatLocalAction::AccountName(n) && n == name)
                } else {
                    r is Ignore
                },
                None => r is Ignore,
            },
            CombatLocalEvent::Unrecognized => r is WarnUnrecognized,
        },
{
    if !available(state) {
        return CombatLocalAction::Ignore;
    }
    match event {
        CombatLocalEvent::Skill => CombatLocalAction::ForwardSkill,
        CombatLocalEvent::Agent { is_self, account_name } => if is_self {
            match account_name {
                Some(name) => CombatLocalAction::AccountName(name),
                None => CombatLocalAction::Ignore,
            }
        } else {
            CombatLocalAction::Ignore
        },
        CombatLocalEvent::Unrecognized => CombatLocalAction::WarnUnrecognized,
    }
}

/// The unofficial extras reported in.
pub fn extras_init(state: &mut ArcdpsState)
    ensures
        *final(state) == (ArcdpsState { extras_available: true, ..*old(state) }),
{
    state.extras_available = true;
}

/// The game language last reported through ArcDPS.
pub fn game_language(state: &ArcdpsState) -> (r: Option<GameLanguage>)
    ensures
        r == spec_language_from_id(state.language_id),
{
    GameLanguage::from_id(state.language_id)
}

/// The extras report the game language. When ArcDPS serves and the language
/// changed, returns the language code to localize in.
pub fn extras_language(state: &mut ArcdpsState, language: GameLanguage) -> (r: Option<&'static str>)
    ensures
        !old(state).available ==> r is None && *final(state) == *old(state),
        old(state).available ==> *final(state) == (ArcdpsState {
            language_id: spec_language_id(language),
            ..*old(state)
        }),
        old(state).available ==> (r is Some <==> old(state).language_id != spec_language_id(
            language,
        )),
        r matches Some(code) ==> code@ == crate::spec_game_language_id(language),
{
    if !available(state) {
        return None;
    }
    let id = language.id();
    let prev = state.language_id;
    state.language_id = id;
    if prev != id {
        Some(game_language_id(language))
    } else {
        None
    }
}

/// ArcDPS loaded the addon.
pub fn loaded(state: &ArcdpsState) -> (r: bool)
    ensures
        r == state.loaded,
{
    state.loaded
}

/// ArcDPS serves the addon's requests.
pub fn available(state: &ArcdpsState) -> (r: bool)
    ensures
        r == state.available,
{
    state.available
}

/// ArcDPS stops serving the addon's requests.
pub fn disable(state: &mut ArcdpsState)
    ensures
        *final(state) == (ArcdpsState { available: false, ..*old(state) }),
{
    state.available = false;
}

/// The unofficial extras reported in.
pub fn extras_available(state: &ArcdpsState) -> (r: bool)
    ensures
        r == state.extras_available,
{
    state.extras_available
}

/// The addon directory derived from ArcDPS's configuration file path: the
/// file's directory, one level up when that is ArcDPS's own directory
/// (`arcdps`) or sits inside `addons`, then `Taimi`.
pub open spec fn spec_addon_dir(available: bool, config_path: Option<AddonPathView>) -> RuntimeResult<
    Option<AddonPathView>,
> {
    if !available {
        Ok(None)
    } else {
        match config_path {
            None => Err(NO_EXPORT),
            Some(config) => if config.parts.len() == 0 {
                Err("Incomplete config path")
            } else {
                let dir = config.parts.drop_last();
                let in_addons = (dir.len() >= 1 && dir.last() == "arcdps"@) || (dir.len() >= 2
                    && dir[dir.len() - 2] == "addons"@);
                let base = if in_addons {
                    dir.drop_last()
                } else {
                    dir
                };
                Ok(Some(AddonPathView { root: config.root, parts: base.push(ADDON_DIR_NAME@) }))
            },
        }
    }
}

/// The addon directory, from the path of ArcDPS's configuration file when
/// ArcDPS reports one; see [`spec_addon_dir`].
pub fn addon_dir(state: &ArcdpsState, config_path: Option<AddonPath>) -> (r: RuntimeResult<
    Option<AddonPath>,
>)
    ensures
        match (r, spec_addon_dir(state.available, crate::exports::runtime::opt_path(config_path))) {
            (Ok(Some(a)), Ok(Some(b))) => a@ == b,
            (Ok(None), Ok(None)) => true,
            (Err(a), Err(b)) => a == b,
            _ => false,
        },
{
    if !available(state) {
        return Ok(None);
    }
    let mut path = match config_path {
        Some(p) => p,
        None => return Err(NO_EXPORT),
    };
    let ghost config = path@;
    if path.parts.len() == 0 {
        return Err("Incomplete config path");
    }
    path.parts.pop();
    assert(path@.parts =~= config.parts.drop_last());
    let n = path.parts.len();
    assert(n >= 1 ==> path.parts@[n - 1]@ == path@.parts.last());
    assert(n >= 2 ==> path.parts@[n - 2]@ == path@.parts[n - 2]);
    let in_addons = (n >= 1 && str_eq(path.parts[n - 1].as_str(), "arcdps")) || (n >= 2 && str_eq(
        path.parts[n - 2].as_str(),
        "addons",
    ));
    if in_addons {
        path.parts.pop();
        assert(path@.parts =~= config.parts.drop_last().drop_last());
    }
    let ghost base = path@.parts;
    path.parts.push(String::from_str(ADDON_DIR_NAME));
    assert(path@.parts =~= base.push(ADDON_DIR_NAME@));
    Ok(Some(path))
}

/// The language code reported through ArcDPS, when it serves.
pub fn detect_language(state: &ArcdpsState) -> (r: RuntimeResult<Option<String>>)
    ensures
        !state.available ==> r == Ok::<Option<String>, &'static str>(None),
        state.available ==> (r matches Ok(code) && match spec_language_from_id(state.language_id) {
            Some(l) => (code matches Some(c) && c@ == crate::spec_game_language_id(l)),
            None => code is None,
        }),
{
    if !available(state) {
        return Ok(None);
    }
    match game_language(state) {
        Some(l) => Ok(Some(String::from_str(game_language_id(l)))),
        None => Ok(None),
    }
}

/// The MumbleLink that ArcDPS shares (`link`, none when it could not be
/// opened): passes when ArcDPS does not serve, fails when there is none.
pub fn mumble_link_ptr<T>(state: &ArcdpsState, link: Option<T>) -> (r: RuntimeResult<Option<T>>)
    ensures
        !state.available ==> r matches Ok(None),
        state.available ==> match link {
            Some(l) => r == Ok::<Option<T>, &'static str>(Some(l)),
            None => r == Err::<Option<T>, &'static str>("MumbleLink unavailable"),
        },
{
    if !available(state) {
        return Ok(None);
    }
    match link {
        Some(l) => Ok(Some(l)),
        None => Err("MumbleLink unavailable"),
    }
}

/// Shows a record in ArcDPS' log window through its export (`export`, none
/// when ArcDPS lacks it): passes when ArcDPS did not load the addon; a
/// record the window does not show (see [`spec_log_window_filter`]) is done
/// with; otherwise the export is called.
pub fn log_window<F: FnOnce()>(
    state: &ArcdpsState,
    nexus_available: Option<bool>,
    debug_assertions: bool,
    level: LogLevel,
    export: Option<F>,
) -> (r: RuntimeResult<Option<()>>)
    requires
        export matches Some(f) ==> f.requires(()),
    ensures
        !state.loaded ==> r matches Ok(None),
        state.loaded ==> r == if !spec_log_window_filter(
            state.loaded,
            state.available,
            nexus_available,
            debug_assertions,
            level,
        ) || export is Some {
            Ok::<Option<()>, &'static str>(Some(()))
        } else {
            Err::<Option<()>, &'static str>(NO_EXPORT)
        },
        state.loaded && spec_log_window_filter(
            state.loaded,
            state.available,
            nexus_available,
            debug_assertions,
            level,
        ) ==> (export matches Some(f) ==> f.ensures((), ())),
{
    if !loaded(state) {
        return Ok(None);
    }
    if !log_window_filter(state, nexus_available, debug_assertions, level) {
        return Ok(Some(()));
    }
    match export {
        Some(f) => {
            f();
            Ok(Some(()))
        },
        None => Err(NO_EXPORT),
    }
}

/// Writes a line to ArcDPS' log file through its export (`export`, none
/// when ArcDPS lacks it); passes when ArcDPS did not load the addon.
pub fn log<F: FnOnce()>(state: &ArcdpsState, export: Option<F>) -> (r: RuntimeResult<Option<()>>)
    requires
        export matches Some(f) ==> f.requires(()),
    ensures
        !state.loaded ==> r matches Ok(None),
        state.loaded ==> r == if export is Some {
            Ok::<Option<()>, &'static str>(Some(()))
        } else {
            Err::<Option<()>, &'static str>(NO_EXPORT)
        },
        state.loaded ==> (export matches Some(f) ==> f.ensures((), ())),
{
    if !loaded(state) {
        return Ok(None);
    }
    match export {
        Some(f) => {
            f();
            Ok(Some(()))
        },
        None => Err(NO_EXPORT),
    }
}

/// Asks ArcDPS to remove the addon (`remove`, none when ArcDPS lacks the
/// export; it gives the module that was removed, or none when ArcDPS
/// refused); passes when ArcDPS did not load the addon.
pub fn unload_self<T, F: FnOnce() -> Option<T>>(state: &ArcdpsState, remove: Option<F>) -> (r:
    RuntimeResult<Option<T>>)
    requires
        remove matches Some(f) ==> f.requires(()),
    ensures
        !state.loaded ==> r matches Ok(None),
        state.loaded && remove is None ==> r == Err::<Option<T>, &'static str>(NO_EXPORT),
        state.loaded ==> (remove matches Some(f) ==> exists|module: Option<T>|
            #[trigger] f.ensures((), module) && match module {
                Some(m) => r == Ok::<Option<T>, &'static str>(Some(m)),
                None => r == Err::<Option<T>, &'static str>(NO_EXPORT),
            }),
{
    if !loaded(state) {
        return Ok(None);
    }
    match remove {
        Some(f) => match f() {
            Some(m) => Ok(Some(m)),
            None => Err(NO_EXPORT),
        },
        None => Err(NO_EXPORT),
    }
}

/// Modifier keys held with a key bind.
#[derive(Clone, Copy, Debug, PartialEq, Eq, Structural)]
pub struct KeyMods {
    pub ctrl: bool,
    pub shift: bool,
    pub alt: bool,
}

impl KeyMods {
    /// No modifier is held.
    pub fn is_empty(&self) -> (r: bool)
        ensures
            r == (!self.ctrl && !self.shift && !self.alt),
    {
        !self.ctrl && !self.shift && !self.alt
    }
}

/// What a game control is bound to: a keyboard key (its key code), a mouse
/// button, or something the extras do not recognize.
#[derive(Clone, Copy, Debug, PartialEq, Eq, Structural)]
pub enum BoundKey {
    Key(u32),
    Mouse(u32),
    Unknown(u32),
}

/// A game control's bind as the extras report it.
#[derive(Clone, Copy, Debug, PartialEq, Eq, Structural)]
pub struct KeyBind {
    pub key: BoundKey,
    pub mods: KeyMods,
}

/// How a bind is pressed (or released).
#[derive(Clone, Copy, Debug, PartialEq, Eq, Structural)]
pub enum KeyPress {
    /// The key, with its modifiers held.
    Key { keycode: u32, down: bool, mods: KeyMods },
    /// The mouse button, sent with the bind's modifiers other than Alt;
    /// Alt (`key_mods`) is held around it as a key combination.
    Mouse { button: u32, down: bool, mouse_mods: KeyMods, key_mods: KeyMods },
}

/// How a bind is pressed: a key with its modifiers; a mouse button with
/// every modifier but Alt, and Alt held around it; none for an unknown key.
pub open spec fn spec_bind_press(bind: KeyBind, down: bool) -> Option<KeyPress> {
    match bind.key {
        BoundKey::Key(keycode) => Some(KeyPress::Key { keycode, down, mods: bind.mods }),
        BoundKey::Mouse(button) => Some(
            KeyPress::Mouse {
                button,
                down,
                mouse_mods: KeyMods { alt: false, ..bind.mods },
                key_mods: KeyMods { ctrl: false, shift: false, alt: bind.mods.alt },
            },
        ),
        BoundKey::Unknown(_) => None,
    }
}

/// Once ArcDPS loaded the addon, warnings and errors always reach its log
/// window, in release builds too and whether or not Nexus took over; only
/// less severe records are ever held back.
pub proof fn lemma_warnings_reach_log_window(
    available: bool,
    nexus_available: Option<bool>,
    debug_assertions: bool,
    level: LogLevel,
)
    ensures
        (level == LogLevel::Warn || level == LogLevel::Error) ==> spec_log_window_filter(
            true,
            available,
            nexus_available,
            debug_assertions,
            level,
        ),
        !spec_log_window_filter(false, available, nexus_available, debug_assertions, level),
        debug_assertions ==> spec_log_window_filter(
            true,
            available,
            nexus_available,
            debug_assertions,
            level,
        ),
{
}

/// A key bind is pressed with all its modifiers; a mouse bind sends the
/// button with every modifier but Alt, and holds Alt alone around it; an
/// unrecognized key cannot be pressed. The press keeps the button or key
/// and whether it goes down.
pub proof fn lemma_bind_press_modifiers(bind: KeyBind, down: bool)
    ensures
        bind.key matches BoundKey::Key(code) ==> spec_bind_press(bind, down) == Some(
            KeyPress::Key { keycode: code, down, mods: bind.mods },
        ),
        bind.key matches BoundKey::Mouse(b) ==> (spec_bind_press(bind, down) matches Some(
            KeyPress::Mouse { button, down: d, mouse_mods, key_mods },
        ) && button == b && d == down && mouse_mods.ctrl == bind.mods.ctrl && mouse_mods.shift
            == bind.mods.shift && !mouse_mods.alt && key_mods.alt == bind.mods.alt && !key_mods.ctrl
            && !key_mods.shift),
        bind.key is Unknown ==> spec_bind_press(bind, down) is None,
{
}

/// Decides how to press the bind of a marker's game control (`control`):
/// passes when ArcDPS does not serve; fails when the control has no bind in
/// `binds` or its key is not recognized; otherwise gives the press (see
/// [`spec_bind_press`]).
pub fn marker_bind_press(
    state: &ArcdpsState,
    control: u32,
    down: bool,
    binds: &BTreeMap<u32, KeyBind>,
) -> (r: RuntimeResult<Option<KeyPress>>)
    ensures
        !state.available ==> r matches Ok(None),
        state.available && !binds@.contains_key(control) ==> r == Err::<Option<KeyPress>, &'static str>(
            "unknown keybind",
        ),
        state.available && binds@.contains_key(control) ==> r == match spec_bind_press(
            binds@[control],
            down,
        ) {
            Some(press) => Ok::<Option<KeyPress>, &'static str>(Some(press)),
            None => Err::<Option<KeyPress>, &'static str>("unrecognized bind"),
        },
{
    if !available(state) {
        return Ok(None);
    }
    let bind = match binds.get(&control) {
        Some(b) => *b,
        None => return Err("unknown keybind"),
    };
    let mods = bind.mods;
    match bind.key {
        BoundKey::Key(keycode) => Ok(Some(KeyPress::Key { keycode, down, mods })),
        BoundKey::Mouse(button) => {
            let key_mods = KeyMods { ctrl: false, shift: false, alt: mods.alt };
            let mouse_mods = KeyMods { ctrl: mods.ctrl, shift: mods.shift, alt: false };
            Ok(Some(KeyPress::Mouse { button, down, mouse_mods, key_mods }))
        },
        BoundKey::Unknown(_) => Err("unrecognized bind"),
    }
}

/// The extras report that a game control was bound anew: while ArcDPS
/// serves, the bind of a control in `interesting` (the marker controls) is
/// recorded; nothing else changes.
pub fn extras_keybind(
    state: &ArcdpsState,
    interesting: &Vec<u32>,
    binds: &mut BTreeMap<u32, KeyBind>,
    control: u32,
    bind: KeyBind,
)
    ensures
        final(binds)@ == if state.available && interesting@.contains(control) {
            old(binds)@.insert(control, bind)
        } else {
            old(binds)@
        },
{
    if !available(state) {
        return;
    }
    let mut k: usize = 0;
    let mut known = false;
    while k < interesting.len()
        invariant
            k <= interesting@.len(),
            known == interesting@.take(k as int).contains(control),
        decreases interesting@.len() - k,
    {
        let ghost prefix = interesting@.take(k as int);
        let ghost next = interesting@.take(k + 1);
        proof {
            assert(next =~= prefix.push(interesting@[k as int]));
            if prefix.contains(control) {
                let j = choose|j: int| 0 <= j < prefix.len() && prefix[j] == control;
                assert(next[j] == control);
            }
            if next.contains(control) && interesting@[k as int] != control {
                let j = choose|j: int| 0 <= j < next.len() && next[j] == control;
                assert(prefix[j] == control);
            }
            if interesting@[k as int] == control {
                assert(next[k as int] == control);
            }
        }
        if interesting[k] == control {
            known = true;
        }
        k = k + 1;
    }
    assert(interesting@.take(interesting@.len() as int) =~= interesting@);
    if !known {
        return;
    }
    binds.insert(control, bind);
}

/// ArcDPS has no Nexus data link: passes when it does not serve, fails otherwise.
pub fn nexus_link_ptr<T>(state: &ArcdpsState) -> (r: RuntimeResult<Option<T>>)
    ensures
        !state.available ==> r matches Ok(None),
        state.available ==> r == Err::<Option<T>, &'static str>("NexusLink unavailable"),
{
    if !available(state) {
        return Ok(None);
    }
    Err("NexusLink unavailable")
}

/// ArcDPS has no real-time API: passes when it does not serve, fails otherwise.
pub fn rtapi<T>(state: &ArcdpsState) -> (r: RuntimeResult<Option<T>>)
    ensures
        !state.available ==> r matches Ok(None),
        state.available ==> r == Err::<Option<T>, &'static str>("RTAPI unsupported"),
{
    if !available(state) {
        return Ok(None);
    }
    Err("RTAPI unsupported")
}

/// Whether a record goes to ArcDPS' log window: only once ArcDPS loaded the
/// addon; in release builds not for tracing and debugging, nor for
/// informational records while Nexus serves the addon instead of ArcDPS.
/// `nexus_available` is `None` when this build does not support Nexus.
pub open spec fn spec_log_window_filter(
    loaded: bool,
    available: bool,
    nexus_available: Option<bool>,
    debug_assertions: bool,
    level: LogLevel,
) -> bool {
    if !loaded {
        false
    } else if !debug_assertions && (level == LogLevel::Trace || level == LogLevel::Debug
        || level == LogLevel::Info) && !available && nexus_available == Some(true) {
        false
    } else if !debug_assertions && (level == LogLevel::Trace || level == LogLevel::Debug) {
        false
    } else {
        true
    }
}

/// Whether a record of `level` goes to ArcDPS' log window; see [`spec_log_window_filter`].
pub fn log_window_filter(
    state: &ArcdpsState,
    nexus_available: Option<bool>,
    debug_assertions: bool,
    level: LogLevel,
) -> (r: bool)
    ensures
        r == spec_log_window_filter(
            state.loaded,
            state.available,
            nexus_available,
            debug_assertions,
            level,
        ),
{
    let verbose = match level {
        LogLevel::Trace | LogLevel::Debug => true,
        _ => false,
    };
    let informational = match level {
        LogLevel::Trace | LogLevel::Debug | LogLevel::Info => true,
        _ => false,
    };
    let nexus = match nexus_available {
        Some(a) => a,
        None => false,
    };
    if !loaded(state) {
        false
    } else if !debug_assertions && informational && !available(state) && nexus {
        false
    } else if !debug_assertions && verbose {
        false
    } else {
        true
    }
}

/// The colour that ArcDPS' log window shows a record of `level` in, when the
/// record goes there at all.
pub open spec fn level_colour(shown: bool, level: LogLevel) -> Option<Seq<char>> {
    if !shown {
        None
    } else {
        match level {
            LogLevel::Error => Some("#ff0000"@),
            LogLevel::Warn => Some("#ffa0a0"@),
            LogLevel::Debug => Some("#80a0a0"@),
            LogLevel::Trace => Some("#a0a080"@),
            LogLevel::Info => None,
        }
    }
}

fn level_colour_str(shown: bool, level: LogLevel) -> (r: Option<&'static str>)
    ensures
        crate::text::opt_chars(r) == level_colour(shown, level),
{
    if !shown {
        return None;
    }
    match level {
        LogLevel::Error => Some("#ff0000"),
        LogLevel::Warn => Some("#ffa0a0"),
        LogLevel::Debug => Some("#80a0a0"),
        LogLevel::Trace => Some("#a0a080"),
        LogLevel::Info => None,
    }
}

/// Writes a record for ArcDPS, wrapped in `<c=colour>` .. `</c>` when the log
/// window shows it coloured (`shown` tells whether it goes there). Returns
/// the byte range of the record itself, without the colour markup.
pub fn log_write_record_buffer(
    w: &mut LogBuffer,
    record: &LogRecord,
    shown: bool,
    debug_assertions: bool,
) -> (r: Range<usize>)
    ensures
        ({
            let body = encode_utf8(record_text(*record, debug_assertions));
            match level_colour(shown, record.metadata.level) {
                Some(c) => {
                    let open = encode_utf8("<c="@ + c + ">"@);
                    &&& final(w)@ == old(w)@ + open + body + encode_utf8("</c>"@)
                    &&& r.start == old(w)@.len() + open.len()
                    &&& r.end == r.start + body.len()
                },
                None => {
                    &&& final(w)@ == old(w)@ + body
                    &&& r.start == old(w)@.len()
                    &&& r.end == r.start + body.len()
                },
            }
        }),
{
    let ghost start0 = w@;
    let colour = level_colour_str(shown, record.metadata.level);
    let start = match colour {
        Some(c) => {
            w.write_str("<c=");
            w.write_str(c);
            w.write_str(">");
            proof {
                crate::exports::runtime::log::lemma_encode_utf8_concat("<c="@, c@);
                crate::exports::runtime::log::lemma_encode_utf8_concat("<c="@ + c@, ">"@);
            }
            w.len()
        },
        None => w.len(),
    };
    let ghost mid = w@;
    log_write_record(w, record, debug_assertions);
    let end = w.len();
    match colour {
        Some(_) => {
            w.write_str("</c>");
        },
        None => {},
    }
    start..end
}

/// Writes a record the way ArcDPS shows it.
pub fn log_write_record(w: &mut LogBuffer, record: &LogRecord, debug_assertions: bool)
    ensures
        final(w)@ == old(w)@ + encode_utf8(record_text(*record, debug_assertions)),
{
    write_record(w, record, debug_assertions)
}

/// The DLL to update to, given the latest release found: none when its tag
/// is not `v<version>`, when that version is the running one (by package
/// version or by the release tag the build was made from), or when the
/// release is final and the running build is not an official release build.
pub open spec fn spec_update_url(
    release: GitHubLatestRelease,
    head_ref: Option<Seq<char>>,
    pkg_version: Seq<char>,
    debug_assertions: bool,
) -> Option<Seq<char>> {
    let built = spec_git_release(head_ref);
    match strip_prefix_spec(release.tag_name@, "v"@) {
        None => None,
        Some(remote) => if remote == pkg_version || Some(remote) == built {
            None
        } else if !release.prerelease && !(built is Some && !debug_assertions) {
            None
        } else {
            spec_dll_url(release.assets@)
        },
    }
}

/// Decides the update URL that ArcDPS is given for the latest release; see
/// [`spec_update_url`].
pub fn update_url_for(
    release: &GitHubLatestRelease,
    head_ref: Option<&str>,
    pkg_version: &str,
    debug_assertions: bool,
) -> (r: Option<String>)
    ensures
        crate::exports::runtime::update::opt_string(r) == spec_update_url(
            *release,
            opt_chars(head_ref),
            pkg_version@,
            debug_assertions,
        ),
{
    let built = git_release(head_ref);
    let remote = match strip_prefix(release.tag_name.as_str(), "v") {
        Some(r) => r,
        None => return None,
    };
    let same_as_built = match built {
        Some(b) => str_eq(remote, b),
        None => false,
    };
    if str_eq(remote, pkg_version) || same_as_built {
        return None;
    }
    let dev_build = !(built.is_some() && !debug_assertions);
    if !release.prerelease && dev_build {
        return None;
    }
    match dll_download_url(&release.assets) {
        Some(u) => Some(String::from_str(u)),
        None => None,
    }
}

} // verus!

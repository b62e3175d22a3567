//! Verified core of the TaimiHUD addon runtime: build metadata, language
//! selection, addon directory resolution, log formatting and update decisions.

pub mod built_info;
pub mod exports;
pub mod text;

use vstd::prelude::*;
use crate::exports::runtime::{
    GameLanguage, LanguageTag, RuntimeResult, langid_parse, parse_language_identifier,
};
use crate::text::{has_prefix, strip_prefix, strip_prefix_spec, str_eq};
use crate::built_info::{git_ref_name, spec_git_ref_name};

verus! {

/// Name of the addon's main window.
pub const WINDOW_PRIMARY: &'static str = "primary";
/// Name of the timers window.
pub const WINDOW_TIMERS: &'static str = "timers";
/// Name of the markers window.
pub const WINDOW_MARKERS: &'static str = "markers";
/// Name of the pathing window.
pub const WINDOW_PATHING: &'static str = "pathing";

/// Language code that the localization uses for a game language.
pub open spec fn spec_game_language_id(lang: GameLanguage) -> Seq<char> {
    match lang {
        GameLanguage::English => "en"@,
        GameLanguage::French => "fr"@,
        GameLanguage::German => "de"@,
        GameLanguage::Spanish => "es"@,
        GameLanguage::Chinese => "cn"@,
    }
}

/// Language code that the localization uses for a game language.
pub fn game_language_id(lang: GameLanguage) -> (r: &'static str)
    ensures
        r@ == spec_game_language_id(lang),
{
    match lang {
        GameLanguage::English => "en",
        GameLanguage::French => "fr",
        GameLanguage::German => "de",
        GameLanguage::Spanish => "es",
        GameLanguage::Chinese => "cn",
    }
}

/// The error of a detected language code that is no language identifier.
pub const LANGUAGE_UNPARSABLE: &'static str = "Cannot parse detected language";
/// The error of a language that could not be loaded.
pub const LANGUAGE_NOT_LOADED: &'static str = "Couldn't load language!";

/// Switches the localization to `detected`, unless that is the language in
/// use (`current`, the language subtag of the loader's language): the code
/// must parse as a language identifier, whose subtags `select` then loads,
/// reporting whether it could.
pub fn load_language<F: FnOnce(LanguageTag) -> bool>(current: &str, detected: &str, select: F) -> (r:
    RuntimeResult<()>)
    requires
        forall|tag: LanguageTag| #[trigger] select.requires((tag,)),
    ensures
        current@ == detected@ ==> r is Ok,
        current@ != detected@ && langid_parse(detected@) is None ==> r == Err::<(), &'static str>(
            LANGUAGE_UNPARSABLE,
        ),
        current@ != detected@ && langid_parse(detected@) is Some ==> exists|
            tag: LanguageTag,
            loaded: bool,
        |
            langid_parse(detected@) == Some(tag@) && #[trigger] select.ensures((tag,), loaded) && r
                == if loaded {
                Ok::<(), &'static str>(())
            } else {
                Err::<(), &'static str>(LANGUAGE_NOT_LOADED)
            },
{
    if str_eq(current, detected) {
        return Ok(());
    }
    let tag = match parse_language_identifier(detected) {
        Some(tag) => tag,
        None => return Err(LANGUAGE_UNPARSABLE),
    };
    let ghost parsed = tag;
    let loaded = select(tag);
    assert(langid_parse(detected@) == Some(parsed@) && select.ensures((parsed,), loaded));
    if loaded {
        Ok(())
    } else {
        Err(LANGUAGE_NOT_LOADED)
    }
}

/// An account name without the leading `:` that the game puts before it;
/// none when nothing is left.
pub open spec fn spec_account_name_canon(account_name: Seq<char>) -> Option<Seq<char>> {
    let name = match strip_prefix_spec(account_name, ":"@) {
        Some(rest) => rest,
        None => account_name,
    };
    if name.len() == 0 {
        None
    } else {
        Some(name)
    }
}

/// The canonical form of an account name; see [`spec_account_name_canon`].
pub fn account_name_canon(account_name: &str) -> (r: Option<&str>)
    ensures
        crate::text::opt_chars(r) == spec_account_name_canon(account_name@),
{
    let name = match strip_prefix(account_name, ":") {
        Some(rest) => rest,
        None => account_name,
    };
    if name.unicode_len() == 0 {
        None
    } else {
        Some(name)
    }
}

/// What became of an account name the game reported.
#[derive(Clone, Copy, Debug, PartialEq, Eq, Structural)]
pub enum AccountNameUpdate {
    /// Nothing is left of the name once canonical.
    Invalid,
    /// The name was already recorded.
    Unchanged,
    /// The name is now recorded.
    Recorded,
    /// A different name was recorded before; it is kept.
    Inconsistent,
}

/// Records the canonical account name, once: a name recorded before is
/// never replaced.
pub fn receive_account_name(recorded: &mut Option<String>, account_name: &str) -> (r:
    AccountNameUpdate)
    ensures
        match spec_account_name_canon(account_name@) {
            None => r == AccountNameUpdate::Invalid && *final(recorded) == *old(recorded),
            Some(name) => match *old(recorded) {
                None => r == AccountNameUpdate::Recorded && (*final(recorded) matches Some(n)
                    && n@ == name),
                Some(prev) => *final(recorded) == *old(recorded) && (if prev@ == name {
                    r == AccountNameUpdate::Unchanged
                } else {
                    r == AccountNameUpdate::Inconsistent
                }),
            },
        },
{
    let name = match account_name_canon(account_name) {
        Some(n) => n,
        None => return AccountNameUpdate::Invalid,
    };
    match recorded {
        Some(prev) => if str_eq(prev.as_str(), name) {
            AccountNameUpdate::Unchanged
        } else {
            AccountNameUpdate::Inconsistent
        },
        None => {
            *recorded = Some(String::from_str(name));
            AccountNameUpdate::Recorded
        },
    }
}

/// A canonical account name is never empty, and it is the reported name
/// itself or the reported name without its leading `:`.
pub proof fn lemma_account_name_canon_shape(account_name: Seq<char>)
    ensures
        spec_account_name_canon(account_name) matches Some(name) ==> name.len() > 0 && (name
            == account_name || seq![':'] + name == account_name),
{
    reveal_strlit(":");
    if let Some(name) = spec_account_name_canon(account_name) {
        if has_prefix(account_name, ":"@) {
            assert(account_name =~= account_name.subrange(0, 1) + name);
        }
    }
}

/// The embedded localization assets.
pub struct LocalizationsEmbed;

/// What the localization has for a message id.
pub enum I18nLookup {
    /// A message that is plain text.
    Text(String),
    /// A message with placeables, formatted without arguments.
    Formatted(String),
    /// No such message.
    Missing,
}

/// The text shown for a message id: the message's text, its formatting,
/// or the id itself when there is no such message.
pub open spec fn spec_i18n_text(message_id: Seq<char>, lookup: I18nLookup) -> Seq<char> {
    match lookup {
        I18nLookup::Text(t) => t@,
        I18nLookup::Formatted(t) => t@,
        I18nLookup::Missing => message_id,
    }
}

/// Hands `f` the text shown for `message_id`; see [`spec_i18n_text`].
pub fn with_i18n<R, F: FnOnce(String) -> R>(message_id: &str, lookup: I18nLookup, f: F) -> (r: R)
    requires
        forall|text: String| #[trigger] f.requires((text,)),
    ensures
        exists|text: String| text@ == spec_i18n_text(message_id@, lookup) && #[trigger] f.ensures((text,), r),
{
    let text = match lookup {
        I18nLookup::Text(t) => t,
        I18nLookup::Formatted(t) => t,
        I18nLookup::Missing => String::from_str(message_id),
    };
    let ghost shown = text;
    let r = f(text);
    assert(shown@ == spec_i18n_text(message_id@, lookup) && f.ensures((shown,), r));
    r
}

/// Characters of an optional string slice, or a default.
pub open spec fn chars_or(o: Option<&str>, default: Seq<char>) -> Seq<char> {
    match o {
        Some(s) => s@,
        None => default,
    }
}

/// The line that announces what kind of build is loading: nothing for an
/// official release; `Release build <tag>(<commit>)` for other tag builds;
/// `Development build of <branch>(<commit>) on <platform>` or, without a
/// commit, `Development build of <branch>`.
pub open spec fn spec_build_banner(
    head_ref: Option<Seq<char>>,
    is_release: bool,
    commit: Option<Seq<char>>,
    platform: Option<Seq<char>>,
) -> Option<Seq<char>> {
    match spec_git_ref_name(head_ref) {
        Ok(tag) => if is_release {
            None
        } else {
            Some(
                "Release build "@ + tag + "("@ + match commit {
                    Some(c) => c,
                    None => "HEAD"@,
                } + ")"@,
            )
        },
        Err(branch) => match commit {
            Some(c) => Some(
                "Development build of "@ + branch + "("@ + c + ") on "@ + match platform {
                    Some(p) => p,
                    None => "unknown"@,
                },
            ),
            None => Some("Development build of "@ + branch),
        },
    }
}

/// The build announcement; see [`spec_build_banner`].
pub fn build_banner(
    head_ref: Option<&str>,
    is_release: bool,
    commit: Option<&str>,
    platform: Option<&str>,
) -> (r: Option<String>)
    ensures
        crate::exports::runtime::update::opt_string(r) == spec_build_banner(
            crate::text::opt_chars(head_ref),
            is_release,
            crate::text::opt_chars(commit),
            crate::text::opt_chars(platform),
        ),
{
    match git_ref_name(head_ref) {
        Ok(tag) => {
            if is_release {
                return None;
            }
            let c = match commit {
                Some(c) => c,
                None => "HEAD",
            };
            let line = String::from_str("Release build ").concat(tag).concat("(").concat(c).concat(
                ")",
            );
            Some(line)
        },
        Err(branch) => match commit {
            Some(c) => {
                let p = match platform {
                    Some(p) => p,
                    None => "unknown",
                };
                Some(
                    String::from_str("Development build of ").concat(branch).concat("(").concat(
                        c,
                    ).concat(") on ").concat(p),
                )
            },
            None => Some(String::from_str("Development build of ").concat(branch)),
        },
    }
}

/// The error of loading or unloading while the loader lock is poisoned.
pub const LOADER_POISONED: &'static str = "loader poisoned";

/// What the addon holds: whether it is loaded, the channels to its
/// controller and render threads, the controller thread, the render state,
/// and the host's render callback.
pub struct Loader<C, R, T, S, B> {
    pub loaded: bool,
    pub controller_sender: Option<C>,
    pub render_sender: Option<R>,
    pub controller_thread: Option<T>,
    pub render_state: Option<S>,
    pub render_callback: Option<B>,
}

impl<C, R, T, S, B> Loader<C, R, T, S, B> {
    /// Nothing loaded, nothing held.
    pub fn new() -> (r: Self)
        ensures
            !r.loaded,
            r.controller_sender is None,
            r.render_sender is None,
            r.controller_thread is None,
            r.render_state is None,
            r.render_callback is None,
    {
        Loader {
            loaded: false,
            controller_sender: None,
            render_sender: None,
            controller_thread: None,
            render_state: None,
            render_callback: None,
        }
    }
}

/// What loading brings up: the channels to the controller and render
/// threads, the controller thread and the render state.
pub struct Loaded<C, R, T, S> {
    pub controller_sender: C,
    pub render_sender: R,
    pub controller_thread: T,
    pub render_state: S,
}

/// What unloading takes down: everything the loader held.
pub struct Teardown<C, R, T, S, B> {
    pub controller_sender: Option<C>,
    pub render_sender: Option<R>,
    pub controller_thread: Option<T>,
    pub render_state: Option<S>,
    pub render_callback: Option<B>,
}

/// What loading does.
#[derive(Clone, Copy, Debug, PartialEq, Eq, Structural)]
pub enum LoadStep {
    /// The loader lock is poisoned: fail.
    Poisoned,
    /// The addon is loaded already: nothing to do.
    AlreadyLoaded,
    /// Load the addon.
    Load,
}

/// What loading does; see [`init_step`].
pub open spec fn spec_init_step(loaded: bool, poisoned: bool) -> LoadStep {
    if poisoned {
        LoadStep::Poisoned
    } else if loaded {
        LoadStep::AlreadyLoaded
    } else {
        LoadStep::Load
    }
}

/// Decides what loading does: fail on a poisoned loader lock, nothing when
/// the addon is loaded already, otherwise load. So the addon loads once.
pub fn init_step(loaded: bool, poisoned: bool) -> (r: LoadStep)
    ensures
        r == spec_init_step(loaded, poisoned),
{
    if poisoned {
        LoadStep::Poisoned
    } else if loaded {
        LoadStep::AlreadyLoaded
    } else {
        LoadStep::Load
    }
}

/// The loader after loading gave `result`, and what loading answers: on
/// success it holds what came up and is loaded, keeping the render
/// callback; on failure nothing changes.
pub open spec fn spec_record_load<C, R, T, S, B>(
    loader: Loader<C, R, T, S, B>,
    result: RuntimeResult<Loaded<C, R, T, S>>,
) -> (Loader<C, R, T, S, B>, RuntimeResult<()>) {
    match result {
        Ok(parts) => (
            Loader {
                loaded: true,
                controller_sender: Some(parts.controller_sender),
                render_sender: Some(parts.render_sender),
                controller_thread: Some(parts.controller_thread),
                render_state: Some(parts.render_state),
                render_callback: loader.render_callback,
            },
            Ok(()),
        ),
        Err(e) => (loader, Err(e)),
    }
}

/// Records what loading gave; see [`spec_record_load`].
pub fn record_load<C, R, T, S, B>(
    loader: &mut Loader<C, R, T, S, B>,
    result: RuntimeResult<Loaded<C, R, T, S>>,
) -> (r: RuntimeResult<()>)
    ensures
        (*final(loader), r) == spec_record_load(*old(loader), result),
{
    match result {
        Ok(parts) => {
            loader.controller_sender = Some(parts.controller_sender);
            loader.render_sender = Some(parts.render_sender);
            loader.controller_thread = Some(parts.controller_thread);
            loader.render_state = Some(parts.render_state);
            loader.loaded = true;
            Ok(())
        },
        Err(e) => Err(e),
    }
}

/// Loads the addon once: decides with [`init_step`], runs `load` when it is
/// due and records what it gave with [`record_load`].
pub fn init<C, R, T, S, B, F: FnOnce() -> RuntimeResult<Loaded<C, R, T, S>>>(
    loader: &mut Loader<C, R, T, S, B>,
    poisoned: bool,
    load: F,
) -> (r: RuntimeResult<()>)
    requires
        load.requires(()),
    ensures
        poisoned ==> r == Err::<(), &'static str>(LOADER_POISONED) && *final(loader) == *old(loader),
        !poisoned && old(loader).loaded ==> r is Ok && *final(loader) == *old(loader),
        !poisoned && !old(loader).loaded ==> exists|result: RuntimeResult<Loaded<C, R, T, S>>|
            #[trigger] load.ensures((), result) && (*final(loader), r) == spec_record_load(
                *old(loader),
                result,
            ),
{
    match init_step(loader.loaded, poisoned) {
        LoadStep::Poisoned => Err(LOADER_POISONED),
        LoadStep::AlreadyLoaded => Ok(()),
        LoadStep::Load => {
            let result = load();
            let ghost given = result;
            let r = record_load(loader, result);
            assert(load.ensures((), given));
            r
        },
    }
}

/// What unloading does.
#[derive(Clone, Copy, Debug, PartialEq, Eq, Structural)]
pub enum UnloadStep {
    /// The loader lock is poisoned: give up.
    Poisoned,
    /// The addon is not loaded: nothing to do.
    NotLoaded,
    /// Unload the addon.
    Unload,
}

/// What unloading does; see [`unload_step`].
pub open spec fn spec_unload_step(loaded: bool, poisoned: bool) -> UnloadStep {
    if poisoned {
        UnloadStep::Poisoned
    } else if !loaded {
        UnloadStep::NotLoaded
    } else {
        UnloadStep::Unload
    }
}

/// Decides what unloading does: give up on a poisoned loader lock, nothing
/// when the addon is not loaded, otherwise unload.
pub fn unload_step(loaded: bool, poisoned: bool) -> (r: UnloadStep)
    ensures
        r == spec_unload_step(loaded, poisoned),
{
    if poisoned {
        UnloadStep::Poisoned
    } else if !loaded {
        UnloadStep::NotLoaded
    } else {
        UnloadStep::Unload
    }
}

/// What the loader held, as unloading takes it down.
pub open spec fn spec_teardown<C, R, T, S, B>(loader: Loader<C, R, T, S, B>) -> Teardown<C, R, T, S, B> {
    Teardown {
        controller_sender: loader.controller_sender,
        render_sender: loader.render_sender,
        controller_thread: loader.controller_thread,
        render_state: loader.render_state,
        render_callback: loader.render_callback,
    }
}

/// A loader that is not loaded and holds nothing.
pub open spec fn spec_unloaded<C, R, T, S, B>() -> Loader<C, R, T, S, B> {
    Loader {
        loaded: false,
        controller_sender: None,
        render_sender: None,
        controller_thread: None,
        render_state: None,
        render_callback: None,
    }
}

/// Takes everything the loader holds and marks the addon unloaded.
pub fn take_loaded<C, R, T, S, B>(loader: &mut Loader<C, R, T, S, B>) -> (t: Teardown<C, R, T, S, B>)
    ensures
        t == spec_teardown(*old(loader)),
        *final(loader) == spec_unloaded::<C, R, T, S, B>(),
{
    let controller_sender = loader.controller_sender.take();
    let render_sender = loader.render_sender.take();
    let controller_thread = loader.controller_thread.take();
    let render_state = loader.render_state.take();
    let render_callback = loader.render_callback.take();
    loader.loaded = false;
    Teardown { controller_sender, render_sender, controller_thread, render_state, render_callback }
}

/// Unloads the addon when it is loaded: decides with [`unload_step`], then
/// takes everything down with [`take_loaded`] and hands it to `teardown`.
/// Returns whether it unloaded.
pub fn unload<C, R, T, S, B, F: FnOnce(Teardown<C, R, T, S, B>)>(
    loader: &mut Loader<C, R, T, S, B>,
    poisoned: bool,
    teardown: F,
) -> (ran: bool)
    requires
        teardown.requires((spec_teardown(*old(loader)),)),
    ensures
        ran == (spec_unload_step(old(loader).loaded, poisoned) == UnloadStep::Unload),
        ran ==> *final(loader) == spec_unloaded::<C, R, T, S, B>() && teardown.ensures(
            (spec_teardown(*old(loader)),),
            (),
        ),
        !ran ==> *final(loader) == *old(loader),
{
    match unload_step(loader.loaded, poisoned) {
        UnloadStep::Unload => {
            let taken = take_loaded(loader);
            teardown(taken);
            true
        },
        _ => false,
    }
}

/// The loader's laws: a loaded addon does not load again, a successful load
/// leaves it loaded, unloading leaves nothing held, and after that there
/// is nothing more to unload.
pub proof fn lemma_loader_lifecycle<C, R, T, S, B>(
    loader: Loader<C, R, T, S, B>,
    parts: Loaded<C, R, T, S>,
)
    ensures
        spec_record_load(loader, Ok(parts)).0.loaded,
        spec_init_step(spec_record_load(loader, Ok(parts)).0.loaded, false) == LoadStep::AlreadyLoaded,
        spec_unload_step(spec_record_load(loader, Ok(parts)).0.loaded, false) == UnloadStep::Unload,
        spec_unload_step(spec_unloaded::<C, R, T, S, B>().loaded, false) == UnloadStep::NotLoaded,
        spec_init_step(spec_unloaded::<C, R, T, S, B>().loaded, false) == LoadStep::Load,
{
}

/// What loading takes beyond the common part when ArcDPS hosts the addon:
/// nothing, so it always succeeds.
pub fn load_arcdps() -> (r: RuntimeResult<()>)
    ensures
        r is Ok,
{
    Ok(())
}

/// Whether initialization goes on after the texture loader was set up
/// (`setup`) and waited for (`started`): failures are fatal only when Nexus
/// cannot load textures instead.
pub fn texture_setup_outcome(setup: Result<(), &'static str>, started: bool, nexus_available: bool) -> (r:
    Result<(), &'static str>)
    ensures
        nexus_available ==> r is Ok,
        !nexus_available ==> match setup {
            Err(e) => r == Err::<(), &'static str>(e),
            Ok(()) => if started {
                r is Ok
            } else {
                r == Err::<(), &'static str>("texture loader didn't start")
            },
        },
{
    match setup {
        Err(e) => if !nexus_available {
            Err(e)
        } else {
            Ok(())
        },
        Ok(()) => if !started && !nexus_available {
            Err("texture loader didn't start")
        } else {
            Ok(())
        },
    }
}

/// The quick-access icons shown: those among `icons` (each a set of control
/// bits) that share a bit with the visible set, in their order.
pub fn quick_access_visible(icons: &Vec<u64>, visible: u64) -> (r: Vec<u64>)
    ensures
        r@ == icons@.filter(|icon: u64| icon & visible != 0),
{
    let mut r: Vec<u64> = Vec::new();
    let mut i: usize = 0;
    while i < icons.len()
        invariant
            i <= icons@.len(),
            r@ == icons@.take(i as int).filter(|icon: u64| icon & visible != 0),
        decreases icons@.len() - i,
    {
        let icon = icons[i];
        proof {
            reveal_with_fuel(Seq::filter, 1);
            assert(icons@.take(i + 1).drop_last() =~= icons@.take(i as int));
            assert(icons@.take(i + 1).last() == icon);
        }
        if icon & visible != 0 {
            r.push(icon);
        }
        i = i + 1;
    }
    assert(icons@.take(icons@.len() as int) =~= icons@);
    r
}

/// The error of a texture loader that went away.
pub const TEXTURE_LOADER_GONE: &'static str = "texture loader shut down?";

/// What the texture loader reports back.
pub enum TextureResponse {
    /// A texture (its key) was decoded; its pixels wait to be uploaded.
    Decoded { key: String },
    /// A texture (its key) could not be decoded.
    DecodeFailed { key: String },
    /// The loader's loop exited.
    LoopExit,
    /// The loader's loop started.
    LoopEnter,
}

/// One attempt to receive from the loader's responses.
pub enum TextureReceive {
    /// No response is waiting.
    Empty,
    /// The loader dropped its end of the channel.
    Disconnected,
    /// A response.
    Response(TextureResponse),
}

/// What processing does with a received response.
pub enum TextureStep {
    /// Nothing more to process for now.
    Done,
    /// Processing stops with this error.
    Fail(&'static str),
    /// Upload the decoded texture and report it loaded; the D3D11 device is
    /// acquired first unless already held.
    Upload { key: String, acquire_device: bool },
    /// Report that the texture failed to load.
    ReportFailure(String),
    /// Warn that the loader's loop exited.
    WarnExited,
    /// Note that the loader's loop started.
    NoteStarted,
}

/// The state of one drain of the texture loader's responses: whether the
/// D3D11 device is held yet.
pub struct TextureDrain {
    pub device_held: bool,
}

impl TextureDrain {
    /// A drain that starts without the device.
    pub fn new() -> (r: TextureDrain)
        ensures
            !r.device_held,
    {
        TextureDrain { device_held: false }
    }
}

/// A decoded texture was received.
pub open spec fn is_decoded(received: TextureReceive) -> bool {
    received matches TextureReceive::Response(TextureResponse::Decoded { .. })
}

/// How often a drain that starts with the device held (or not) acquires it
/// over the responses `received`.
pub open spec fn device_acquisitions(device_held: bool, received: Seq<TextureReceive>) -> nat
    decreases received.len(),
{
    if received.len() == 0 {
        0
    } else {
        (if !device_held && is_decoded(received[0]) {
            1nat
        } else {
            0nat
        }) + device_acquisitions(device_held || is_decoded(received[0]), received.drop_first())
    }
}

/// Decides one step of processing the texture loader's responses: stop when
/// none is waiting, fail when the loader is gone, upload decoded textures
/// (acquiring the device the first time), report failures, and note the
/// loader's comings and goings. The drain holds the device from its first
/// upload on.
pub fn process_texture_response(drain: &mut TextureDrain, received: TextureReceive) -> (r: TextureStep)
    ensures
        final(drain).device_held == (old(drain).device_held || is_decoded(received)),
        match received {
            TextureReceive::Empty => r is Done,
            TextureReceive::Disconnected => r == TextureStep::Fail(TEXTURE_LOADER_GONE),
            TextureReceive::Response(TextureResponse::Decoded { key }) => r == (TextureStep::Upload {
                key,
                acquire_device: !old(drain).device_held,
            }),
            TextureReceive::Response(TextureResponse::DecodeFailed { key }) => r
                == TextureStep::ReportFailure(key),
            TextureReceive::Response(TextureResponse::LoopExit) => r is WarnExited,
            TextureReceive::Response(TextureResponse::LoopEnter) => r is NoteStarted,
        },
{
    match received {
        TextureReceive::Empty => TextureStep::Done,
        TextureReceive::Disconnected => TextureStep::Fail(TEXTURE_LOADER_GONE),
        TextureReceive::Response(response) => match response {
            TextureResponse::Decoded { key } => {
                let acquire_device = !drain.device_held;
                drain.device_held = true;
                TextureStep::Upload { key, acquire_device }
            },
            TextureResponse::DecodeFailed { key } => TextureStep::ReportFailure(key),
            TextureResponse::LoopExit => TextureStep::WarnExited,
            TextureResponse::LoopEnter => TextureStep::NoteStarted,
        },
    }
}

/// A drain acquires the device at most once, and never once it holds it.
pub proof fn lemma_device_acquired_at_most_once(device_held: bool, received: Seq<TextureReceive>)
    ensures
        device_acquisitions(device_held, received) <= 1,
        device_held ==> device_acquisitions(device_held, received) == 0,
    decreases received.len(),
{
    if received.len() > 0 {
        lemma_device_acquired_at_most_once(true, received.drop_first());
        lemma_device_acquired_at_most_once(
            device_held || is_decoded(received[0]),
            received.drop_first(),
        );
    }
}

/// How long unloading waits for the render thread to quit: longer when the
/// 3D view is active and may need to shut down more.
pub fn render_unload_timeout_ms(space_active: bool) -> (r: u64)
    ensures
        r == (if space_active { 1500u64 } else { 67u64 }),
{
    if space_active {
        1500
    } else {
        67
    }
}

/// Whether unloading must still clean up the render state from the
/// unloading thread. Nothing is left when the game is shutting down or the
/// render state is gone. Otherwise, when the render thread was asked to
/// quit (`render_quit == Some(true)`), only if waiting for it timed out;
/// when it could not be asked (`Some(false)`) or nobody was (`None`), always.
pub fn render_unload_confirm(
    shutdown: bool,
    render_state_present: bool,
    render_quit: Option<bool>,
    timed_out: bool,
) -> (r: bool)
    ensures
        r == (!shutdown && render_state_present && match render_quit {
            Some(true) => timed_out,
            _ => true,
        }),
{
    if shutdown || !render_state_present {
        return false;
    }
    match render_quit {
        Some(true) => timed_out,
        _ => true,
    }
}

/// What unloading does about the controller thread.
#[derive(Clone, Copy, Debug, PartialEq, Eq, Structural)]
pub enum ControllerShutdown {
    /// Wait for the thread to finish.
    Join,
    /// There is no thread to wait for.
    Unavailable,
    /// The thread could not be told to quit; do not wait for it.
    SignalFailed,
}

/// Decides about the controller thread: `quit_sent` is `None` when there
/// was no channel to it, otherwise whether the quit message went through.
pub fn controller_shutdown(quit_sent: Option<bool>, thread_present: bool) -> (r: ControllerShutdown)
    ensures
        r == match quit_sent {
            Some(false) => ControllerShutdown::SignalFailed,
            _ => if thread_present {
                ControllerShutdown::Join
            } else {
                ControllerShutdown::Unavailable
            },
        },
{
    match quit_sent {
        Some(false) => ControllerShutdown::SignalFailed,
        _ => if thread_present {
            ControllerShutdown::Join
        } else {
            ControllerShutdown::Unavailable
        },
    }
}

} // verus!

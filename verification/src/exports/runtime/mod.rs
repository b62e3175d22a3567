//! Runtime services shared by the host extensions: which host answers a
//! request, language detection, the addon directory and the exit signal.

pub mod log;
pub mod update;
pub mod version;

use vstd::prelude::*;
use crate::game_language_id;
use crate::text::{join, join_spec, split, split_spec};
use rand::seq::SliceRandom;

verus! {

/// Errors of the runtime are static messages.
pub type RuntimeError = &'static str;

/// Result of a runtime request.
pub type RuntimeResult<T> = Result<T, RuntimeError>;

/// No host extension could answer the request.
pub const RT_UNAVAILABLE: &'static str = "extension runtime unavailable";

/// Name of this crate, which is also the log target of its own records.
pub const CRATE_NAME: &'static str = "taimi_hud";

/// Display name of the addon.
pub const NAME: &'static str = "TaimiHUD";

/// Languages the game client can run in, with the host's numeric ids
/// (English 0, French 2, German 3, Spanish 4, Chinese 5).
#[derive(Clone, Copy, Debug, PartialEq, Eq, Structural)]
pub enum GameLanguage {
    English,
    French,
    German,
    Spanish,
    Chinese,
}

/// Numeric id of a game language.
pub open spec fn spec_language_id(language: GameLanguage) -> i32 {
    match language {
        GameLanguage::English => 0,
        GameLanguage::French => 2,
        GameLanguage::German => 3,
        GameLanguage::Spanish => 4,
        GameLanguage::Chinese => 5,
    }
}

/// The game language with a numeric id, if there is one.
pub open spec fn spec_language_from_id(id: i32) -> Option<GameLanguage> {
    if id == 0 {
        Some(GameLanguage::English)
    } else if id == 2 {
        Some(GameLanguage::French)
    } else if id == 3 {
        Some(GameLanguage::German)
    } else if id == 4 {
        Some(GameLanguage::Spanish)
    } else if id == 5 {
        Some(GameLanguage::Chinese)
    } else {
        None
    }
}

impl GameLanguage {
    /// The host's numeric id of this language.
    pub fn id(self) -> (r: i32)
        ensures
            r == spec_language_id(self),
    {
        match self {
            GameLanguage::English => 0,
            GameLanguage::French => 2,
            GameLanguage::German => 3,
            GameLanguage::Spanish => 4,
            GameLanguage::Chinese => 5,
        }
    }

    /// The language with the host's numeric id `id`.
    pub fn from_id(id: i32) -> (r: Option<GameLanguage>)
        ensures
            r == spec_language_from_id(id),
    {
        if id == 0 {
            Some(GameLanguage::English)
        } else if id == 2 {
            Some(GameLanguage::French)
        } else if id == 3 {
            Some(GameLanguage::German)
        } else if id == 4 {
            Some(GameLanguage::Spanish)
        } else if id == 5 {
            Some(GameLanguage::Chinese)
        } else {
            None
        }
    }
}

/// Decoding the id of a language gives the language back.
pub proof fn lemma_language_id_roundtrip(language: GameLanguage)
    ensures
        spec_language_from_id(spec_language_id(language)) == Some(language),
{
}

/// Stored value of the game language before any language was reported.
pub const GAME_LANGUAGE_UNSET: i32 = i32::MIN;

/// Which host extensions this build supports (`Some`) and whether each is
/// currently active.
pub struct Hosts {
    pub nexus: Option<bool>,
    pub arcdps: Option<bool>,
}

/// Nexus is supported by this build and active.
pub fn nexus_available(hosts: &Hosts) -> (r: bool)
    ensures
        r == (hosts.nexus == Some(true)),
{
    match hosts.nexus {
        Some(available) => available,
        None => false,
    }
}

/// ArcDPS is supported by this build and active.
pub fn arcdps_available(hosts: &Hosts) -> (r: bool)
    ensures
        r == (hosts.arcdps == Some(true)),
{
    match hosts.arcdps {
        Some(available) => available,
        None => false,
    }
}

/// The answer of the first host that gives one: each supported host in turn
/// (Nexus, then ArcDPS) either fails, answers, or passes (`Ok(None)`).
/// `None` stands for a host that this build does not support.
pub open spec fn spec_first_answer<T>(
    nexus: Option<RuntimeResult<Option<T>>>,
    arcdps: Option<RuntimeResult<Option<T>>>,
) -> RuntimeResult<T> {
    match nexus {
        Some(Err(e)) => Err(e),
        Some(Ok(Some(v))) => Ok(v),
        _ => match arcdps {
            Some(Err(e)) => Err(e),
            Some(Ok(Some(v))) => Ok(v),
            _ => Err(RT_UNAVAILABLE),
        },
    }
}

/// Asks the hosts in turn; see [`spec_first_answer`].
pub fn first_answer<T>(
    nexus: Option<RuntimeResult<Option<T>>>,
    arcdps: Option<RuntimeResult<Option<T>>>,
) -> (r: RuntimeResult<T>)
    ensures
        r == spec_first_answer(nexus, arcdps),
{
    match nexus {
        Some(Err(e)) => return Err(e),
        Some(Ok(Some(v))) => return Ok(v),
        _ => {},
    }
    match arcdps {
        Some(Err(e)) => Err(e),
        Some(Ok(Some(v))) => Ok(v),
        _ => Err(RT_UNAVAILABLE),
    }
}

/// The addon directory as reported by the first host that knows it.
pub fn try_addon_dir(
    nexus: Option<RuntimeResult<Option<AddonPath>>>,
    arcdps: Option<RuntimeResult<Option<AddonPath>>>,
) -> (r: RuntimeResult<AddonPath>)
    ensures
        r == spec_first_answer(nexus, arcdps),
{
    first_answer(nexus, arcdps)
}

/// The Nexus data link as reported by the first host that has one.
pub fn nexus_link_ptr<T>(
    nexus: Option<RuntimeResult<Option<T>>>,
    arcdps: Option<RuntimeResult<Option<T>>>,
) -> (r: RuntimeResult<T>)
    ensures
        r == spec_first_answer(nexus, arcdps),
{
    first_answer(nexus, arcdps)
}

/// The real-time API as reported by the first host that has one.
pub fn rtapi<T>(
    nexus: Option<RuntimeResult<Option<T>>>,
    arcdps: Option<RuntimeResult<Option<T>>>,
) -> (r: RuntimeResult<Option<T>>)
    ensures
        match (r, spec_first_answer(nexus, arcdps)) {
            (Ok(Some(a)), Ok(b)) => a == b,
            (Err(a), Err(b)) => a == b,
            _ => false,
        },
{
    match first_answer(nexus, arcdps) {
        Ok(v) => Ok(Some(v)),
        Err(e) => Err(e),
    }
}

/// The MumbleLink of the first host that has one: like
/// [`spec_first_answer`], except that nobody having one is no error.
pub open spec fn spec_get_mumble_link<T>(
    nexus: Option<RuntimeResult<Option<T>>>,
    arcdps: Option<RuntimeResult<Option<T>>>,
) -> RuntimeResult<Option<T>> {
    match nexus {
        Some(Err(e)) => Err(e),
        Some(Ok(Some(v))) => Ok(Some(v)),
        _ => match arcdps {
            Some(Err(e)) => Err(e),
            Some(Ok(Some(v))) => Ok(Some(v)),
            _ => Ok(None),
        },
    }
}

/// Asks the hosts in turn for the MumbleLink; see [`spec_get_mumble_link`].
pub fn get_mumble_link_ptr<T>(
    nexus: Option<RuntimeResult<Option<T>>>,
    arcdps: Option<RuntimeResult<Option<T>>>,
) -> (r: RuntimeResult<Option<T>>)
    ensures
        r == spec_get_mumble_link(nexus, arcdps),
{
    match nexus {
        Some(Err(e)) => return Err(e),
        Some(Ok(Some(v))) => return Ok(Some(v)),
        _ => {},
    }
    match arcdps {
        Some(Err(e)) => Err(e),
        Some(Ok(Some(v))) => Ok(Some(v)),
        _ => Ok(None),
    }
}

/// What is known of the MumbleLink: nothing yet, that asking for it failed,
/// or where it is.
pub enum LinkCache<T> {
    Unqueried,
    Failed,
    Found(T),
}

/// The MumbleLink, asking the hosts (`query`) only while nothing is known:
/// what they answer is kept, a failure for good; when no host has one,
/// nothing is kept and the next call asks again.
pub fn mumble_link_ptr<T: Copy, F: FnOnce() -> RuntimeResult<Option<T>>>(
    cache: &mut LinkCache<T>,
    query: F,
) -> (r: RuntimeResult<T>)
    requires
        query.requires(()),
    ensures
        *old(cache) matches LinkCache::Found(p) ==> r == Ok::<T, &'static str>(p) && *final(cache)
            == *old(cache),
        *old(cache) is Failed ==> r == Err::<T, &'static str>(RT_UNAVAILABLE) && *final(cache)
            == *old(cache),
        *old(cache) is Unqueried ==> exists|answer: RuntimeResult<Option<T>>|
            #[trigger] query.ensures((), answer) && match answer {
                Err(e) => r == Err::<T, &'static str>(e) && *final(cache) is Failed,
                Ok(Some(p)) => r == Ok::<T, &'static str>(p) && *final(cache) == LinkCache::Found(p),
                Ok(None) => r == Err::<T, &'static str>(RT_UNAVAILABLE) && *final(cache) is Unqueried,
            },
{
    match *cache {
        LinkCache::Found(p) => return Ok(p),
        LinkCache::Failed => return Err(RT_UNAVAILABLE),
        LinkCache::Unqueried => {},
    }
    let answer = query();
    match answer {
        Err(e) => {
            *cache = LinkCache::Failed;
            Err(e)
        },
        Ok(Some(p)) => {
            *cache = LinkCache::Found(p);
            Ok(p)
        },
        Ok(None) => Err(RT_UNAVAILABLE),
    }
}

/// Shows an alert through the first host that can.
pub fn send_alert(
    nexus: Option<RuntimeResult<Option<()>>>,
    arcdps: Option<RuntimeResult<Option<()>>>,
) -> (r: RuntimeResult<()>)
    ensures
        r == spec_first_answer(nexus, arcdps),
{
    first_answer(nexus, arcdps)
}

/// The language code to localize in: the first host's answer, otherwise the
/// code of the last language the game reported.
pub open spec fn spec_detect_language(
    nexus: Option<RuntimeResult<Option<Seq<char>>>>,
    arcdps: Option<RuntimeResult<Option<Seq<char>>>>,
    game: Option<GameLanguage>,
) -> RuntimeResult<Seq<char>> {
    match nexus {
        Some(Err(e)) => Err(e),
        Some(Ok(Some(code))) => Ok(code),
        _ => match arcdps {
            Some(Err(e)) => Err(e),
            Some(Ok(Some(code))) => Ok(code),
            _ => match game {
                Some(language) => Ok(crate::spec_game_language_id(language)),
                None => Err(RT_UNAVAILABLE),
            },
        },
    }
}

/// Views of the strings in a host answer.
pub open spec fn answer_chars(
    a: Option<RuntimeResult<Option<String>>>,
) -> Option<RuntimeResult<Option<Seq<char>>>> {
    match a {
        Some(Ok(Some(s))) => Some(Ok(Some(s@))),
        Some(Ok(None)) => Some(Ok(None)),
        Some(Err(e)) => Some(Err(e)),
        None => None,
    }
}

/// Detects the language to localize in; see [`spec_detect_language`].
pub fn detect_language(
    nexus: Option<RuntimeResult<Option<String>>>,
    arcdps: Option<RuntimeResult<Option<String>>>,
    game: Option<GameLanguage>,
) -> (r: RuntimeResult<String>)
    ensures
        match (r, spec_detect_language(answer_chars(nexus), answer_chars(arcdps), game)) {
            (Ok(a), Ok(b)) => a@ == b,
            (Err(a), Err(b)) => a == b,
            _ => false,
        },
{
    match nexus {
        Some(Err(e)) => return Err(e),
        Some(Ok(Some(code))) => return Ok(code),
        _ => {},
    }
    match arcdps {
        Some(Err(e)) => return Err(e),
        Some(Ok(Some(code))) => return Ok(code),
        _ => {},
    }
    match game {
        Some(language) => Ok(String::from_str(game_language_id(language))),
        None => Err(RT_UNAVAILABLE),
    }
}

/// The game language last reported, decoded from its stored id.
pub fn game_language(stored_id: i32) -> (r: Option<GameLanguage>)
    ensures
        r == spec_language_from_id(stored_id),
{
    GameLanguage::from_id(stored_id)
}

/// Records the language the game reports. Returns whether the localization
/// should be reloaded: the language changed and the user saved none of their own.
pub fn notify_game_language(
    stored_id: &mut i32,
    language: GameLanguage,
    saved_language_set: bool,
) -> (reload: bool)
    ensures
        *final(stored_id) == spec_language_id(language),
        reload == (*old(stored_id) != spec_language_id(language) && !saved_language_set),
{
    let id = language.id();
    let prev = *stored_id;
    *stored_id = id;
    prev != id && !saved_language_set
}

/// Whether the game is shutting down. Only [`notify_shutdown`] and
/// [`notify_quit`] change it, and both raise it: once raised, it stays
/// raised.
pub struct ShutdownSignal {
    exit: bool,
}

impl ShutdownSignal {
    /// The signal is raised.
    pub closed spec fn raised(&self) -> bool {
        self.exit
    }

    /// A signal that has not been raised.
    pub fn new() -> (r: ShutdownSignal)
        ensures
            !r.raised(),
    {
        ShutdownSignal { exit: false }
    }
}

/// The game is shutting down.
pub fn is_shutdown(signal: &ShutdownSignal) -> (r: bool)
    ensures
        r == signal.raised(),
{
    signal.exit
}

/// Raises the shutdown signal.
pub fn notify_shutdown(signal: &mut ShutdownSignal)
    ensures
        final(signal).raised(),
{
    signal.exit = true;
}

/// The error of a texture the loader could not take.
pub const TEXTURE_LOAD_FAILURE: &'static str = "Texture load failure";

/// Outcome of scheduling a texture load. The addon's own loader goes first
/// (`loader`: `None` when it is not running, otherwise whether it took the
/// request); when it did not, Nexus is asked (`nexus`, `None` when this build
/// does not support it), and when Nexus passes too, the loader's failure (or
/// that nothing is available) is the answer.
pub fn texture_schedule_outcome(
    loader: Option<bool>,
    nexus: Option<RuntimeResult<Option<()>>>,
) -> (r: RuntimeResult<()>)
    ensures
        loader == Some(true) ==> r is Ok,
        loader != Some(true) ==> r == match nexus {
            Some(Err(e)) => Err(e),
            Some(Ok(Some(()))) => Ok(()),
            _ => Err(
                if loader == Some(false) {
                    TEXTURE_LOAD_FAILURE
                } else {
                    RT_UNAVAILABLE
                },
            ),
        },
{
    let res = match loader {
        Some(true) => return Ok(()),
        Some(false) => TEXTURE_LOAD_FAILURE,
        None => RT_UNAVAILABLE,
    };
    match nexus {
        Some(Err(e)) => Err(e),
        Some(Ok(Some(()))) => Ok(()),
        _ => Err(res),
    }
}

/// What the addon does about the game exiting, once the shutdown signal is up.
pub struct QuitPlan {
    /// Forget the controller's channel: the quit message reached it.
    pub drop_controller_sender: bool,
    /// Unload the render state right here (this is the render thread);
    /// otherwise the render thread's channel is dropped after asking it to quit.
    pub unload_render_here: bool,
}

/// Prepares for the game exiting: raises the shutdown signal and plans the
/// rest. `controller_quit_sent` is `None` when there is no controller
/// channel, otherwise whether the quit message went through.
pub fn notify_quit(
    signal: &mut ShutdownSignal,
    controller_quit_sent: Option<bool>,
    is_render_thread: bool,
) -> (r: QuitPlan)
    ensures
        final(signal).raised(),
        r.drop_controller_sender == (controller_quit_sent == Some(true)),
        r.unload_render_here == is_render_thread,
{
    notify_shutdown(signal);
    QuitPlan {
        drop_controller_sender: match controller_quit_sent {
            Some(sent) => sent,
            None => false,
        },
        unload_render_here: is_render_thread,
    }
}

/// A filesystem path: a root (drive prefix and/or root separator, possibly
/// empty) followed by its normal components.
#[derive(Debug, PartialEq, Eq)]
pub struct AddonPath {
    pub root: String,
    pub parts: Vec<String>,
}

/// Mathematical view of a path: the root and the components.
pub struct AddonPathView {
    pub root: Seq<char>,
    pub parts: Seq<Seq<char>>,
}

impl View for AddonPath {
    type V = AddonPathView;

    open spec fn view(&self) -> AddonPathView {
        AddonPathView { root: self.root@, parts: self.parts@.map_values(|p: String| p@) }
    }
}

/// The relative directory used when no host knows the addon directory: `addons/Taimi`.
pub open spec fn spec_addon_dir_fallback() -> AddonPathView {
    AddonPathView { root: Seq::empty(), parts: seq!["addons"@, "Taimi"@] }
}

/// The addon directory used when no host knows it.
pub fn addon_dir_fallback() -> (r: AddonPath)
    ensures
        r@ == spec_addon_dir_fallback(),
{
    let mut parts: Vec<String> = Vec::new();
    parts.push(String::from_str("addons"));
    parts.push(String::from_str("Taimi"));
    let r = AddonPath { root: String::new(), parts };
    assert(r@.parts =~= seq!["addons"@, "Taimi"@]);
    r
}

impl AddonPath {
    /// A copy of this path.
    pub fn duplicate(&self) -> (r: AddonPath)
        ensures
            r@ == self@,
    {
        let mut parts: Vec<String> = Vec::new();
        let mut i: usize = 0;
        while i < self.parts.len()
            invariant
                i <= self.parts@.len(),
                parts@.len() == i,
                forall|j: int| 0 <= j < i ==> parts@[j]@ == self.parts@[j]@,
            decreases self.parts@.len() - i,
        {
            parts.push(self.parts[i].clone());
            i = i + 1;
        }
        let r = AddonPath { root: self.root.clone(), parts };
        assert(r@.parts =~= self@.parts);
        r
    }
}

/// View of an optional path.
pub open spec fn opt_path(p: Option<AddonPath>) -> Option<AddonPathView> {
    match p {
        Some(p) => Some(p@),
        None => None,
    }
}

/// The addon directory once it has been settled. Until then it is unknown.
pub struct AddonDir {
    pub dir: Option<AddonPath>,
}

impl AddonDir {
    /// An addon directory that has not been settled yet.
    pub fn new() -> (r: AddonDir)
        ensures
            r.dir is None,
    {
        AddonDir { dir: None }
    }

    /// The settled directory, if any.
    pub open spec fn settled(&self) -> Option<AddonPathView> {
        opt_path(self.dir)
    }
}

/// Settles the addon directory to `candidate` unless it is settled already.
/// When the directory cannot be locked without waiting (`contended`), nothing
/// is settled and the fallback is returned; likewise when there is no candidate.
pub fn try_init_addon_dir(cell: &mut AddonDir, contended: bool, candidate: Option<AddonPath>) -> (r:
    AddonPath)
    ensures
        contended ==> r@ == spec_addon_dir_fallback() && final(cell).settled() == old(
            cell,
        ).settled(),
        !contended ==> match old(cell).settled() {
            Some(p) => r@ == p && final(cell).settled() == old(cell).settled(),
            None => match candidate {
                Some(c) => r@ == c@ && final(cell).settled() == Some(c@),
                None => r@ == spec_addon_dir_fallback() && final(cell).settled() == old(
                    cell,
                ).settled(),
            },
        },
{
    if contended {
        return addon_dir_fallback();
    }
    match &cell.dir {
        Some(p) => return p.duplicate(),
        None => {},
    }
    match candidate {
        Some(c) => {
            cell.dir = Some(c.duplicate());
            c
        },
        None => addon_dir_fallback(),
    }
}

/// Settles the addon directory to `addon_dir`, replacing what was there.
pub fn init_addon_dir(cell: &mut AddonDir, addon_dir: AddonPath) -> (r: AddonPath)
    ensures
        r@ == addon_dir@,
        final(cell).settled() == Some(addon_dir@),
{
    cell.dir = Some(addon_dir.duplicate());
    addon_dir
}

/// The addon directory: the settled one; else the one the user saved last
/// time (when it still exists and the directory can be settled without
/// waiting); else the one a host reports, which is then settled; `None`
/// stands for the fallback, which is not settled.
pub open spec fn spec_addon_dir(
    settled: Option<AddonPathView>,
    contended: bool,
    saved: Option<AddonPathView>,
    detected: Option<AddonPathView>,
) -> Option<AddonPathView> {
    match settled {
        Some(p) => Some(p),
        None => match saved {
            Some(s) if !contended => Some(s),
            _ => detected,
        },
    }
}

/// The path of a host's answer, when it gave one.
pub open spec fn ok_path(r: RuntimeResult<AddonPath>) -> Option<AddonPathView> {
    match r {
        Ok(p) => Some(p@),
        Err(_) => None,
    }
}

/// Resolves the addon directory; see [`spec_addon_dir`]. The hosts are asked
/// (`detect`) only when neither the settled nor the saved directory answers.
pub fn addon_dir<F: FnOnce() -> RuntimeResult<AddonPath>>(
    cell: &mut AddonDir,
    contended: bool,
    saved: Option<AddonPath>,
    detect: F,
) -> (r: AddonPath)
    requires
        detect.requires(()),
    ensures
        spec_addon_dir(old(cell).settled(), contended, opt_path(saved), None) matches Some(p) ==> r@
            == p && final(cell).settled() == Some(p),
        spec_addon_dir(old(cell).settled(), contended, opt_path(saved), None) is None ==> exists|
            detected: RuntimeResult<AddonPath>,
        |
            #[trigger] detect.ensures((), detected) && match spec_addon_dir(
                old(cell).settled(),
                contended,
                opt_path(saved),
                ok_path(detected),
            ) {
                Some(p) => r@ == p && final(cell).settled() == Some(p),
                None => r@ == spec_addon_dir_fallback() && final(cell).settled() == old(
                    cell,
                ).settled(),
            },
{
    match &cell.dir {
        Some(p) => return p.duplicate(),
        None => {},
    }
    match saved {
        Some(s) if !contended => {
            return try_init_addon_dir(cell, contended, Some(s));
        },
        _ => {},
    }
    let detected = detect();
    let ghost answer = detected;
    let r = match detected {
        Ok(p) => init_addon_dir(cell, p),
        Err(_) => addon_dir_fallback(),
    };
    assert(detect.ensures((), answer));
    r
}

/// Once settled, the addon directory stays what it is, and every later
/// resolution returns it.
pub proof fn lemma_addon_dir_settled_is_stable(
    settled: AddonPathView,
    contended: bool,
    saved: Option<AddonPathView>,
    detected: Option<AddonPathView>,
)
    ensures
        spec_addon_dir(Some(settled), contended, saved, detected) == Some(settled),
{
}

/// An ASCII letter.
pub open spec fn is_ascii_letter(c: char) -> bool {
    (65 <= (c as u32) && (c as u32) <= 90) || (97 <= (c as u32) && (c as u32) <= 122)
}

/// The ASCII lower case of a letter.
pub open spec fn ascii_lower(c: char) -> char {
    if 65 <= (c as u32) && (c as u32) <= 90 {
        ((c as u32) + 32) as char
    } else {
        c
    }
}

/// A language subtag as `unic_langid_impl` accepts it: two, three or five
/// to eight ASCII letters, which it lower-cases.
pub open spec fn spec_language_subtag(text: Seq<char>) -> Option<Seq<char>> {
    if 2 <= text.len() <= 8 && text.len() != 4 && forall|i: int|
        0 <= i < text.len() ==> is_ascii_letter(#[trigger] text[i]) {
        Some(text.map_values(|c: char| ascii_lower(c)))
    } else {
        None
    }
}

/// Calls `unic_langid_impl::subtags::Language::from_str`, then `as_str`.
/// Claims, as the source shows (`Language::from_bytes`): the text is accepted
/// exactly when it has two, three or five to eight bytes, all ASCII letters,
/// and the subtag reads as the text in lower case (`und` reads as itself).
#[verifier::external_body]
fn parse_language_subtag(text: &str) -> (r: Option<String>)
    ensures
        crate::exports::runtime::update::opt_string(r) == spec_language_subtag(text@),
{
    match text.parse::<unic_langid_impl::subtags::Language>() {
        Ok(l) => Some(l.as_str().to_string()),
        Err(_) => None,
    }
}

/// A language identifier as its subtags: language, script, region and
/// variants, each as `unic_langid_impl` keeps it.
pub struct LanguageTag {
    pub language: String,
    pub script: Option<String>,
    pub region: Option<String>,
    pub variants: Vec<String>,
}

/// View of a language identifier: `(language, script, region, variants)`.
pub type LanguageTagView = (Seq<char>, Option<Seq<char>>, Option<Seq<char>>, Seq<Seq<char>>);

impl View for LanguageTag {
    type V = LanguageTagView;

    open spec fn view(&self) -> LanguageTagView {
        (
            self.language@,
            crate::exports::runtime::update::opt_string(self.script),
            crate::exports::runtime::update::opt_string(self.region),
            self.variants@.map_values(|v: String| v@),
        )
    }
}

/// What `unic_langid_impl` makes of `text` as a language identifier
/// (subtags separated by `-` or `_`): its subtags, when it parses.
pub uninterp spec fn langid_parse(text: Seq<char>) -> Option<LanguageTagView>;

/// Calls `LanguageIdentifier::from_str` and reads the subtags of the result
/// with `as_str` (the language, the script, the region and each variant in
/// the order `variants` gives them). Claims that the result is what
/// `langid_parse` names.
#[verifier::external_body]
pub(crate) fn parse_language_identifier(text: &str) -> (r: Option<LanguageTag>)
    ensures
        match r {
            Some(tag) => langid_parse(text@) == Some(tag@),
            None => langid_parse(text@) is None,
        },
{
    match text.parse::<unic_langid_impl::LanguageIdentifier>() {
        Ok(id) => Some(LanguageTag {
            language: id.language.as_str().to_string(),
            script: id.script.map(|s| s.as_str().to_string()),
            region: id.region.map(|r| r.as_str().to_string()),
            variants: id.variants().map(|v| v.as_str().to_string()).collect(),
        }),
        Err(_) => None,
    }
}

/// The language to localize in: the one the user saved, when it is a valid
/// language subtag (normalized), otherwise the detected one.
pub fn reload_language(saved: Option<&str>, detected: RuntimeResult<String>) -> (r: RuntimeResult<
    String,
>)
    ensures
        match saved {
            Some(s) if spec_language_subtag(s@) is Some => (r matches Ok(l) && Some(l@)
                == spec_language_subtag(s@)),
            _ => r == detected,
        },
{
    match saved {
        Some(s) => match parse_language_subtag(s) {
            Some(l) => return Ok(l),
            None => {},
        },
        None => {},
    }
    detected
}

/// Calls `rand::seq::SliceRandom::shuffle` with the thread's generator
/// (`rand::rng`). The order that comes out depends on chance: claims only
/// that it is a permutation, the same names each as often as before.
#[verifier::external_body]
fn shuffle_names(names: &mut Vec<String>)
    ensures
        final(names)@.to_multiset() == old(names)@.to_multiset(),
{
    names.shuffle(&mut rand::rng());
}

/// The crate's authors, listed in `authors` separated by `sep`, in random
/// order and joined with `, `.
pub fn crate_authors(authors: &str, sep: &str) -> (r: String)
    requires
        sep@.len() > 0,
    ensures
        exists|pieces: Seq<String>, order: Seq<String>|
            #![trigger pieces.to_multiset(), order.to_multiset()]
            pieces.map_values(|p: String| p@) == split_spec(authors@, sep@) && order.to_multiset()
                == pieces.to_multiset() && r@ == join_spec(order.map_values(|p: String| p@), ", "@),
{
    let mut names = split(authors, sep);
    let ghost pieces = names@;
    shuffle_names(&mut names);
    let r = join(&names, ", ");
    assert(pieces.to_multiset() == names@.to_multiset());
    r
}

/// Whether the game is in play: Nexus' data link tells when it is there,
/// otherwise ArcDPS' last report.
pub fn is_ingame(nexus_gameplay: Option<bool>, arcdps_ingame: Option<bool>) -> (r: RuntimeResult<
    bool,
>)
    ensures
        r == match nexus_gameplay {
            Some(g) => Ok::<bool, &'static str>(g),
            None => match arcdps_ingame {
                Some(g) => Ok(g),
                None => Err(RT_UNAVAILABLE),
            },
        },
{
    match nexus_gameplay {
        Some(g) => Ok(g),
        None => match arcdps_ingame {
            Some(g) => Ok(g),
            None => Err(RT_UNAVAILABLE),
        },
    }
}

/// Win32 `WM_DESTROY`.
pub const WM_DESTROY: u32 = 0x0002;
/// Win32 `WM_CLOSE`.
pub const WM_CLOSE: u32 = 0x0010;
/// Win32 `WM_QUIT`.
pub const WM_QUIT: u32 = 0x0012;
/// Win32 `WM_KEYDOWN`.
pub const WM_KEYDOWN: u32 = 0x0100;
/// Win32 `WM_KEYUP`.
pub const WM_KEYUP: u32 = 0x0101;
/// Win32 `WM_SYSKEYDOWN`.
pub const WM_SYSKEYDOWN: u32 = 0x0104;
/// Win32 `WM_SYSKEYUP`.
pub const WM_SYSKEYUP: u32 = 0x0105;
/// Win32 `WM_LBUTTONDOWN`.
pub const WM_LBUTTONDOWN: u32 = 0x0201;
/// Win32 `WM_LBUTTONUP`.
pub const WM_LBUTTONUP: u32 = 0x0202;
/// Win32 `WM_RBUTTONDOWN`.
pub const WM_RBUTTONDOWN: u32 = 0x0204;
/// Win32 `WM_RBUTTONUP`.
pub const WM_RBUTTONUP: u32 = 0x0205;
/// Win32 `WM_MBUTTONDOWN`.
pub const WM_MBUTTONDOWN: u32 = 0x0207;
/// Win32 `WM_MBUTTONUP`.
pub const WM_MBUTTONUP: u32 = 0x0208;
/// Win32 `WM_XBUTTONDOWN`.
pub const WM_XBUTTONDOWN: u32 = 0x020B;
/// Win32 `WM_XBUTTONUP`.
pub const WM_XBUTTONUP: u32 = 0x020C;

/// What a window message means to the addon.
#[derive(Clone, Copy, Debug, PartialEq, Eq, Structural)]
pub enum WindowEvent {
    /// A key went down or up; keybindings handle it.
    Key,
    /// A mouse button went down or up; keybindings handle it.
    Button,
    /// The window is going away; the game is about to quit.
    Quit,
    /// Anything else passes through.
    Other,
}

/// Classifies a window message for the window procedure.
pub fn window_event(msg: u32) -> (r: WindowEvent)
    ensures
        r == (if msg == WM_KEYDOWN || msg == WM_SYSKEYDOWN || msg == WM_KEYUP || msg
            == WM_SYSKEYUP {
            WindowEvent::Key
        } else if msg == WM_LBUTTONUP || msg == WM_LBUTTONDOWN || msg == WM_RBUTTONUP || msg
            == WM_RBUTTONDOWN || msg == WM_MBUTTONUP || msg == WM_MBUTTONDOWN || msg
            == WM_XBUTTONUP || msg == WM_XBUTTONDOWN {
            WindowEvent::Button
        } else if msg == WM_DESTROY || msg == WM_QUIT || msg == WM_CLOSE {
            WindowEvent::Quit
        } else {
            WindowEvent::Other
        }),
{
    if msg == WM_KEYDOWN || msg == WM_SYSKEYDOWN || msg == WM_KEYUP || msg == WM_SYSKEYUP {
        WindowEvent::Key
    } else if msg == WM_LBUTTONUP || msg == WM_LBUTTONDOWN || msg == WM_RBUTTONUP || msg
        == WM_RBUTTONDOWN || msg == WM_MBUTTONUP || msg == WM_MBUTTONDOWN || msg == WM_XBUTTONUP
        || msg == WM_XBUTTONDOWN {
        WindowEvent::Button
    } else if msg == WM_DESTROY || msg == WM_QUIT || msg == WM_CLOSE {
        WindowEvent::Quit
    } else {
        WindowEvent::Other
    }
}

} // verus!

use vstd::prelude::*;
use vstd::string::StringExecFns;

verus! {

/// Default server URL.
pub const DEFAULT_SERVER_URL: &'static str = "http://127.0.0.1:8765";

/// Default first modifier of every hotkey.
pub const DEFAULT_FIRST_MODIFIER: &'static str = "ctrl";

/// Default second modifier of every hotkey.
pub const DEFAULT_SECOND_MODIFIER: &'static str = "alt";

/// Default key for toggle recording (Ctrl+Alt+Space).
pub const DEFAULT_TOGGLE_KEY: &'static str = "Space";

/// Default key for hold-to-record (Ctrl+Alt+`).
pub const DEFAULT_HOLD_KEY: &'static str = "Backquote";

/// Default key for pasting the last transcription (Ctrl+Alt+.).
pub const DEFAULT_PASTE_LAST_KEY: &'static str = "Period";

/// Keys of the settings file.
#[derive(Clone, Copy, Debug, PartialEq, Eq, Structural)]
pub enum StoreKey {
    ToggleHotkey,
    HoldHotkey,
    PasteLastHotkey,
    SelectedMicId,
    SoundEnabled,
    CleanupPromptSections,
    SttProvider,
    LlmProvider,
    AutoMuteAudio,
    SttTimeoutSeconds,
    ServerUrl,
}

/// The text under which `k` is stored.
pub open spec fn store_key_text(k: StoreKey) -> Seq<char> {
    match k {
        StoreKey::ToggleHotkey => "toggle_hotkey"@,
        StoreKey::HoldHotkey => "hold_hotkey"@,
        StoreKey::PasteLastHotkey => "paste_last_hotkey"@,
        StoreKey::SelectedMicId => "selected_mic_id"@,
        StoreKey::SoundEnabled => "sound_enabled"@,
        StoreKey::CleanupPromptSections => "cleanup_prompt_sections"@,
        StoreKey::SttProvider => "stt_provider"@,
        StoreKey::LlmProvider => "llm_provider"@,
        StoreKey::AutoMuteAudio => "auto_mute_audio"@,
        StoreKey::SttTimeoutSeconds => "stt_timeout_seconds"@,
        StoreKey::ServerUrl => "server_url"@,
    }
}

impl StoreKey {
    /// The text under which this key is stored.
    pub fn as_str(self) -> (r: &'static str)
        ensures
            r@ == store_key_text(self),
    {
        match self {
            StoreKey::ToggleHotkey => "toggle_hotkey",
            StoreKey::HoldHotkey => "hold_hotkey",
            StoreKey::PasteLastHotkey => "paste_last_hotkey",
            StoreKey::SelectedMicId => "selected_mic_id",
            StoreKey::SoundEnabled => "sound_enabled",
            StoreKey::CleanupPromptSections => "cleanup_prompt_sections",
            StoreKey::SttProvider => "stt_provider",
            StoreKey::LlmProvider => "llm_provider",
            StoreKey::AutoMuteAudio => "auto_mute_audio",
            StoreKey::SttTimeoutSeconds => "stt_timeout_seconds",
            StoreKey::ServerUrl => "server_url",
        }
    }
}

/// What `str::to_lowercase` makes of a text.
pub uninterp spec fn lower_of(s: Seq<char>) -> Seq<char>;

/// Relies on std's `str::to_lowercase`, whose result depends on the
/// characters alone.
#[verifier::external_body]
fn lowercase(s: &str) -> (r: String)
    ensures
        r@ == lower_of(s@),
{
    s.to_lowercase()
}

/// A key combination: modifiers and a main key.
#[derive(Clone, Debug, PartialEq)]
pub struct HotkeyConfig {
    pub modifiers: Vec<String>,
    pub key: String,
    pub enabled: bool,
}

/// Whether a hotkey read without that field is enabled.
pub fn default_enabled() -> (r: bool)
    ensures
        r,
{
    true
}

/// The texts of `v`.
pub open spec fn texts(v: Seq<String>) -> Seq<Seq<char>> {
    v.map_values(|m: String| m@)
}

/// The lowercased texts of `v`.
pub open spec fn lowered(v: Seq<String>) -> Seq<Seq<char>> {
    v.map_values(|m: String| lower_of(m@))
}

/// Each of `mods` followed by `+`.
pub open spec fn plus_prefix(mods: Seq<Seq<char>>) -> Seq<char>
    decreases mods.len(),
{
    if mods.len() == 0 {
        Seq::<char>::empty()
    } else {
        plus_prefix(mods.drop_last()) + mods.last() + "+"@
    }
}

/// `mods` and `key` joined by `+`.
pub open spec fn joined(mods: Seq<Seq<char>>, key: Seq<char>) -> Seq<char> {
    plus_prefix(mods) + key
}

/// The shortcut text of `h`: lowercased modifiers and the key, joined by `+`.
pub open spec fn shortcut_text(h: HotkeyConfig) -> Seq<char> {
    joined(lowered(h.modifiers@), h.key@)
}

/// Equal keys, as many modifiers, and each of `ma` found among `mb`.
pub open spec fn folded_same(
    ka: Seq<char>,
    kb: Seq<char>,
    ma: Seq<Seq<char>>,
    mb: Seq<Seq<char>>,
) -> bool {
    &&& ka == kb
    &&& ma.len() == mb.len()
    &&& forall|i: int| 0 <= i < ma.len() ==> #[trigger] mb.contains(ma[i])
}

/// `a` and `b` name the same combination, ignoring case and modifier order.
pub open spec fn same_hotkey(a: HotkeyConfig, b: HotkeyConfig) -> bool {
    folded_same(lower_of(a.key@), lower_of(b.key@), lowered(a.modifiers@), lowered(b.modifiers@))
}

/// Whether two combinations, already lowercased, are the same: equal keys, as
/// many modifiers, and each modifier of the first among those of the second.
pub fn same_folded(key_a: &String, key_b: &String, mods_a: &Vec<String>, mods_b: &Vec<String>) -> (r: bool)
    ensures
        r == folded_same(key_a@, key_b@, texts(mods_a@), texts(mods_b@)),
{
    if !(*key_a == *key_b) {
        return false;
    }
    if mods_a.len() != mods_b.len() {
        return false;
    }
    let ghost ta = texts(mods_a@);
    let ghost tb = texts(mods_b@);
    let mut i: usize = 0;
    while i < mods_a.len()
        invariant
            0 <= i <= mods_a.len(),
            key_a@ == key_b@,
            mods_a@.len() == mods_b@.len(),
            ta == texts(mods_a@),
            tb == texts(mods_b@),
            forall|p: int| 0 <= p < i ==> #[trigger] tb.contains(ta[p]),
        decreases mods_a.len() - i,
    {
        let mut found = false;
        let mut j: usize = 0;
        while j < mods_b.len()
            invariant
                0 <= j <= mods_b.len(),
                0 <= i < mods_a.len(),
                ta == texts(mods_a@),
                tb == texts(mods_b@),
                found ==> tb.contains(ta[i as int]),
                !found ==> forall|q: int| 0 <= q < j ==> tb[q] != ta[i as int],
            decreases mods_b.len() - j,
        {
            if mods_a[i] == mods_b[j] {
                found = true;
                assert(tb[j as int] == ta[i as int]);
            }
            j = j + 1;
        }
        if !found {
            assert(!tb.contains(ta[i as int]));
            return false;
        }
        i = i + 1;
    }
    true
}

/// The modifiers and the key joined by `+`, each modifier followed by one.
pub fn join_shortcut(mods: &Vec<String>, key: &String) -> (r: String)
    ensures
        r@ == joined(texts(mods@), key@),
{
    let ghost t = texts(mods@);
    let mut out: String = String::new();
    let mut i: usize = 0;
    while i < mods.len()
        invariant
            0 <= i <= mods.len(),
            t == texts(mods@),
            out@ == plus_prefix(t.take(i as int)),
        decreases mods.len() - i,
    {
        proof {
            assert(t.take(i + 1).drop_last() =~= t.take(i as int));
        }
        out.append(mods[i].as_str());
        out.append("+");
        i = i + 1;
    }
    proof {
        assert(t.take(mods@.len() as int) =~= t);
    }
    out.append(key.as_str());
    out
}

/// Lowercases each text of `v`.
fn lower_all(v: &Vec<String>) -> (r: Vec<String>)
    ensures
        texts(r@) == lowered(v@),
{
    let mut out: Vec<String> = Vec::new();
    let mut i: usize = 0;
    while i < v.len()
        invariant
            0 <= i <= v.len(),
            out@.len() == i,
            texts(out@) =~= lowered(v@).take(i as int),
        decreases v.len() - i,
    {
        let m = lowercase(v[i].as_str());
        let ghost before = out@;
        out.push(m);
        proof {
            assert(out@ == before.push(m));
            assert forall|k: int| 0 <= k < i + 1 implies #[trigger] texts(out@)[k] == lowered(v@).take(i + 1)[k] by {
                if k < i {
                    assert(texts(before)[k] == lowered(v@).take(i as int)[k]);
                    assert(out@[k] == before[k]);
                } else {
                    assert(out@[k] == m);
                }
            }
            assert(texts(out@) =~= lowered(v@).take(i + 1));
        }
        i = i + 1;
    }
    proof {
        assert(lowered(v@).take(v@.len() as int) =~= lowered(v@));
    }
    out
}

/// The default combination, Ctrl+Alt with `key`.
pub open spec fn is_default_with(h: HotkeyConfig, key: Seq<char>) -> bool {
    h.modifiers@.len() == 2 && h.modifiers@[0]@ == DEFAULT_FIRST_MODIFIER@
            && h.modifiers@[1]@ == DEFAULT_SECOND_MODIFIER@ && h.key@ == key && h.enabled
}

impl Default for HotkeyConfig {
    fn default() -> (r: Self)
        ensures
            is_default_with(r, DEFAULT_TOGGLE_KEY@),
    {
        Self::default_with_key(DEFAULT_TOGGLE_KEY)
    }
}

impl HotkeyConfig {
    fn default_with_key(key: &str) -> (r: Self)
        ensures
            is_default_with(r, key@),
    {
        let mut modifiers: Vec<String> = Vec::new();
        modifiers.push(DEFAULT_FIRST_MODIFIER.to_owned());
        modifiers.push(DEFAULT_SECOND_MODIFIER.to_owned());
        HotkeyConfig { modifiers, key: key.to_owned(), enabled: true }
    }

    /// Ctrl+Alt+Space.
    pub fn default_toggle() -> (r: Self)
        ensures
            is_default_with(r, DEFAULT_TOGGLE_KEY@),
    {
        Self::default_with_key(DEFAULT_TOGGLE_KEY)
    }

    /// Ctrl+Alt+Backquote.
    pub fn default_hold() -> (r: Self)
        ensures
            is_default_with(r, DEFAULT_HOLD_KEY@),
    {
        Self::default_with_key(DEFAULT_HOLD_KEY)
    }

    /// Ctrl+Alt+Period.
    pub fn default_paste_last() -> (r: Self)
        ensures
            is_default_with(r, DEFAULT_PASTE_LAST_KEY@),
    {
        Self::default_with_key(DEFAULT_PASTE_LAST_KEY)
    }

    /// The shortcut text, such as `ctrl+alt+Space`: modifiers lowercased, the
    /// key as it is.
    pub fn to_shortcut_string(&self) -> (r: String)
        ensures
            r@ == shortcut_text(*self),
    {
        let mods = lower_all(&self.modifiers);
        join_shortcut(&mods, &self.key)
    }

    /// Whether both name the same combination, ignoring case and modifier order.
    pub fn is_same_as(&self, other: &HotkeyConfig) -> (r: bool)
        ensures
            r == same_hotkey(*self, *other),
    {
        let ka = lowercase(self.key.as_str());
        let kb = lowercase(other.key.as_str());
        let ma = lower_all(&self.modifiers);
        let mb = lower_all(&other.modifiers);
        same_folded(&ka, &kb, &ma, &mb)
    }
}

/// One cleanup prompt section, tagged by its mode.
#[derive(Clone, Debug, PartialEq)]
pub enum PromptSection {
    /// Use the server's built-in prompt.
    Auto { enabled: bool },
    /// Use the user's own prompt text.
    Manual { enabled: bool, content: String },
}

/// All cleanup prompt sections.
#[derive(Clone, Debug, PartialEq)]
pub struct CleanupPromptSections {
    pub main: PromptSection,
    pub advanced: PromptSection,
    pub dictionary: PromptSection,
}

/// The three configurable hotkeys.
#[derive(Clone, Copy, Debug, PartialEq, Eq, Structural)]
pub enum HotkeyType {
    Toggle,
    Hold,
    PasteLast,
}

/// The settings key of each hotkey.
pub open spec fn store_key_of(t: HotkeyType) -> StoreKey {
    match t {
        HotkeyType::Toggle => StoreKey::ToggleHotkey,
        HotkeyType::Hold => StoreKey::HoldHotkey,
        HotkeyType::PasteLast => StoreKey::PasteLastHotkey,
    }
}

/// The name of each hotkey in messages.
pub open spec fn display_text(t: HotkeyType) -> Seq<char> {
    match t {
        HotkeyType::Toggle => "toggle"@,
        HotkeyType::Hold => "hold"@,
        HotkeyType::PasteLast => "paste last"@,
    }
}

impl HotkeyType {
    /// The settings key under which this hotkey is stored.
    pub fn store_key(&self) -> (r: StoreKey)
        ensures
            r == store_key_of(*self),
    {
        match self {
            HotkeyType::Toggle => StoreKey::ToggleHotkey,
            HotkeyType::Hold => StoreKey::HoldHotkey,
            HotkeyType::PasteLast => StoreKey::PasteLastHotkey,
        }
    }

    /// The name of this hotkey in messages.
    pub fn display_name(&self) -> (r: &'static str)
        ensures
            r@ == display_text(*self),
    {
        match self {
            HotkeyType::Toggle => "toggle",
            HotkeyType::Hold => "hold",
            HotkeyType::PasteLast => "paste last",
        }
    }
}

/// Errors of settings operations.
#[derive(Clone, Debug)]
pub enum SettingsError {
    /// The hotkey is already bound to another action.
    HotkeyConflict { message: String, conflicting_type: HotkeyType },
    /// A field holds a value that is not allowed.
    InvalidValue { field: String, message: String },
    /// The settings store failed.
    StoreError(String),
}

/// The text that describes `e`.
pub open spec fn error_text(e: SettingsError) -> Seq<char> {
    match e {
        SettingsError::HotkeyConflict { message, .. } => message@,
        SettingsError::InvalidValue { field, message } => "Invalid value for "@ + field@ + ": "@
            + message@,
        SettingsError::StoreError(msg) => "Store error: "@ + msg@,
    }
}

impl SettingsError {
    /// The text that describes this error.
    pub fn to_message(&self) -> (r: String)
        ensures
            r@ == error_text(*self),
    {
        match self {
            SettingsError::HotkeyConflict { message, .. } => message.clone(),
            SettingsError::InvalidValue { field, message } => {
                let mut out = String::from_str("Invalid value for ");
                out.append(field.as_str());
                out.append(": ");
                out.append(message.as_str());
                out
            },
            SettingsError::StoreError(msg) => {
                let mut out = String::from_str("Store error: ");
                out.append(msg.as_str());
                out
            },
        }
    }
}

/// The message of a conflict with hotkey `t`.
pub open spec fn conflict_text(t: HotkeyType) -> Seq<char> {
    "This shortcut is already used for the "@ + display_text(t) + " hotkey"@
}

/// The first of toggle, hold and paste-last, other than `exclude`, that
/// `new_hotkey` equals.
pub open spec fn first_conflict(
    new_hotkey: HotkeyConfig,
    toggle: HotkeyConfig,
    hold: HotkeyConfig,
    paste_last: HotkeyConfig,
    exclude: HotkeyType,
) -> Option<HotkeyType> {
    if exclude != HotkeyType::Toggle && same_hotkey(new_hotkey, toggle) {
        Some(HotkeyType::Toggle)
    } else if exclude != HotkeyType::Hold && same_hotkey(new_hotkey, hold) {
        Some(HotkeyType::Hold)
    } else if exclude != HotkeyType::PasteLast && same_hotkey(new_hotkey, paste_last) {
        Some(HotkeyType::PasteLast)
    } else {
        None
    }
}

/// `r` reports a conflict with `t`, or none where `t` is none.
pub open spec fn reports_conflict(r: Option<SettingsError>, t: Option<HotkeyType>) -> bool {
    match t {
        None => r is None,
        Some(k) => match r {
            Some(SettingsError::HotkeyConflict { message, conflicting_type }) => conflicting_type
                == k && message@ == conflict_text(k),
            _ => false,
        },
    }
}

fn conflict_error(t: HotkeyType) -> (r: SettingsError)
    ensures
        reports_conflict(Some(r), Some(t)),
{
    let mut message = String::from_str("This shortcut is already used for the ");
    message.append(t.display_name());
    message.append(" hotkey");
    SettingsError::HotkeyConflict { message, conflicting_type: t }
}

/// Checks `new_hotkey` against the toggle, hold and paste-last hotkeys, leaving
/// out the one being changed; reports the first that it equals.
pub fn check_hotkey_conflict(
    new_hotkey: &HotkeyConfig,
    toggle: &HotkeyConfig,
    hold: &HotkeyConfig,
    paste_last: &HotkeyConfig,
    exclude_type: HotkeyType,
) -> (r: Option<SettingsError>)
    ensures
        reports_conflict(r, first_conflict(*new_hotkey, *toggle, *hold, *paste_last, exclude_type)),
{
    if exclude_type != HotkeyType::Toggle && new_hotkey.is_same_as(toggle) {
        return Some(conflict_error(HotkeyType::Toggle));
    }
    if exclude_type != HotkeyType::Hold && new_hotkey.is_same_as(hold) {
        return Some(conflict_error(HotkeyType::Hold));
    }
    if exclude_type != HotkeyType::PasteLast && new_hotkey.is_same_as(paste_last) {
        return Some(conflict_error(HotkeyType::PasteLast));
    }
    None
}

} // verus!

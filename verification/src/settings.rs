use vstd::prelude::*;

use crate::input::{HotkeyStep, KeyToken, Modifiers, TriggerInput};

verus! {

/// Default OpenAI-compatible endpoint for transcript reformatting.
pub const DEFAULT_LLM_BASE_URL: &'static str = "https://api.openai.com/v1";

/// Default model used for transcript reformatting.
pub const DEFAULT_LLM_MODEL_NAME: &'static str = "gpt-4o-mini";

/// Default extra rewrite instructions (none).
pub const DEFAULT_LLM_CUSTOM_PROMPT: &'static str = "";

/// The binding that the app starts with.
pub const DEFAULT_HOTKEY_BINDING: &'static str = "Ctrl+`";

/// Smallest and largest accepted chord timeout, in milliseconds.
pub const CHORD_TIMEOUT_MIN_MS: u64 = 100;
pub const CHORD_TIMEOUT_MAX_MS: u64 = 5000;

/// Most history sessions the app retains.
pub const HISTORY_RETENTION_CAP: u32 = 200;

/// How much LLM post-processing is applied to a transcript.
#[derive(Debug, Clone, Copy, PartialEq, Eq, Structural)]
pub enum TranscriptReformattingLevel {
    Unchanged,
    Minimal,
    Normal,
    Freeform,
}

impl Default for TranscriptReformattingLevel {
    fn default() -> (r: Self)
        ensures
            r == TranscriptReformattingLevel::Unchanged,
    {
        TranscriptReformattingLevel::Unchanged
    }
}

#[derive(Debug, Clone, Copy, PartialEq, Eq, Structural)]
pub struct HistorySettings {
    pub retention_max_sessions: u32,
}

impl Default for HistorySettings {
    fn default() -> (r: Self)
        ensures
            r == spec_default_history(),
    {
        HistorySettings { retention_max_sessions: 20 }
    }
}

pub open spec fn spec_default_history() -> HistorySettings {
    HistorySettings { retention_max_sessions: 20 }
}

#[derive(Debug, Clone, Copy, PartialEq, Eq, Structural)]
pub struct LoggingSettings {
    pub app_log_max_lines: usize,
    pub trace_file_limit: usize,
    pub enable_debug_logs: bool,
}

impl Default for LoggingSettings {
    fn default() -> (r: Self)
        ensures
            r == spec_default_logging(),
    {
        LoggingSettings { app_log_max_lines: 1000, trace_file_limit: 100, enable_debug_logs: false }
    }
}

pub open spec fn spec_default_logging() -> LoggingSettings {
    LoggingSettings { app_log_max_lines: 1000, trace_file_limit: 100, enable_debug_logs: false }
}

/// A hotkey binding after parsing: its normalized text and its steps.
#[derive(Debug, Clone)]
pub struct ParsedHotkey {
    pub normalized: String,
    pub sequence: Vec<HotkeyStep>,
}

pub struct ParsedHotkeyView {
    pub normalized: Seq<char>,
    pub sequence: Seq<HotkeyStep>,
}

impl View for ParsedHotkey {
    type V = ParsedHotkeyView;

    open spec fn view(&self) -> ParsedHotkeyView {
        ParsedHotkeyView { normalized: self.normalized@, sequence: self.sequence@ }
    }
}

#[derive(Debug, Clone)]
pub struct HotkeySettings {
    pub binding: String,
    pub parsed: ParsedHotkey,
    pub chord_timeout_ms: u64,
}

pub struct HotkeySettingsView {
    pub binding: Seq<char>,
    pub parsed: ParsedHotkeyView,
    pub chord_timeout_ms: u64,
}

impl View for HotkeySettings {
    type V = HotkeySettingsView;

    open spec fn view(&self) -> HotkeySettingsView {
        HotkeySettingsView {
            binding: self.binding@,
            parsed: self.parsed@,
            chord_timeout_ms: self.chord_timeout_ms,
        }
    }
}

#[derive(Debug, Clone)]
pub struct TranscriptionSettings {
    pub built_in_dictionary: Vec<String>,
    pub user_dictionary: Vec<String>,
    pub model_cache_ttl_secs: u64,
    pub transcript_reformatting_level: TranscriptReformattingLevel,
    pub llm_api_key: Option<String>,
    pub llm_base_url: String,
    pub llm_model_name: String,
    pub llm_custom_prompt: String,
}

pub struct TranscriptionSettingsView {
    pub built_in_dictionary: Seq<Seq<char>>,
    pub user_dictionary: Seq<Seq<char>>,
    pub model_cache_ttl_secs: u64,
    pub transcript_reformatting_level: TranscriptReformattingLevel,
    pub llm_api_key: Option<Seq<char>>,
    pub llm_base_url: Seq<char>,
    pub llm_model_name: Seq<char>,
    pub llm_custom_prompt: Seq<char>,
}

impl View for TranscriptionSettings {
    type V = TranscriptionSettingsView;

    open spec fn view(&self) -> TranscriptionSettingsView {
        TranscriptionSettingsView {
            built_in_dictionary: self.built_in_dictionary.deep_view(),
            user_dictionary: self.user_dictionary.deep_view(),
            model_cache_ttl_secs: self.model_cache_ttl_secs,
            transcript_reformatting_level: self.transcript_reformatting_level,
            llm_api_key: self.llm_api_key.deep_view(),
            llm_base_url: self.llm_base_url@,
            llm_model_name: self.llm_model_name@,
            llm_custom_prompt: self.llm_custom_prompt@,
        }
    }
}

/// Every user-facing setting of the app.
#[derive(Debug, Clone)]
pub struct AppSettings {
    pub start_on_login: bool,
    pub hotkey: HotkeySettings,
    pub logging: LoggingSettings,
    pub transcription: TranscriptionSettings,
    pub history: HistorySettings,
}

pub struct AppSettingsView {
    pub start_on_login: bool,
    pub hotkey: HotkeySettingsView,
    pub logging: LoggingSettings,
    pub transcription: TranscriptionSettingsView,
    pub history: HistorySettings,
}

impl View for AppSettings {
    type V = AppSettingsView;

    open spec fn view(&self) -> AppSettingsView {
        AppSettingsView {
            start_on_login: self.start_on_login,
            hotkey: self.hotkey@,
            logging: self.logging,
            transcription: self.transcription@,
            history: self.history,
        }
    }
}

// ---------------------------------------------------------------------------
// Defaults
// ---------------------------------------------------------------------------

/// The single step of the default binding: Ctrl held, then the backquote key.
pub open spec fn spec_default_hotkey_step() -> HotkeyStep {
    HotkeyStep {
        modifiers: Modifiers { ctrl: true, shift: false, alt: false, meta: false },
        trigger: TriggerInput::Key(KeyToken::Backquote),
    }
}

pub open spec fn spec_default_hotkey() -> HotkeySettingsView {
    HotkeySettingsView {
        binding: DEFAULT_HOTKEY_BINDING@,
        parsed: ParsedHotkeyView {
            normalized: DEFAULT_HOTKEY_BINDING@,
            sequence: seq![spec_default_hotkey_step()],
        },
        chord_timeout_ms: 1200,
    }
}

pub open spec fn spec_default_transcription() -> TranscriptionSettingsView {
    TranscriptionSettingsView {
        built_in_dictionary: Seq::empty(),
        user_dictionary: Seq::empty(),
        model_cache_ttl_secs: 600,
        transcript_reformatting_level: TranscriptReformattingLevel::Unchanged,
        llm_api_key: None,
        llm_base_url: DEFAULT_LLM_BASE_URL@,
        llm_model_name: DEFAULT_LLM_MODEL_NAME@,
        llm_custom_prompt: DEFAULT_LLM_CUSTOM_PROMPT@,
    }
}

pub open spec fn spec_default_settings() -> AppSettingsView {
    AppSettingsView {
        start_on_login: false,
        hotkey: spec_default_hotkey(),
        logging: spec_default_logging(),
        transcription: spec_default_transcription(),
        history: spec_default_history(),
    }
}

impl Default for HotkeySettings {
    fn default() -> (r: Self)
        ensures
            r@ == spec_default_hotkey(),
    {
        let mut sequence: Vec<HotkeyStep> = Vec::new();
        sequence.push(
            HotkeyStep {
                modifiers: Modifiers { ctrl: true, shift: false, alt: false, meta: false },
                trigger: TriggerInput::Key(KeyToken::Backquote),
            },
        );
        let r = HotkeySettings {
            binding: DEFAULT_HOTKEY_BINDING.to_owned(),
            parsed: ParsedHotkey { normalized: DEFAULT_HOTKEY_BINDING.to_owned(), sequence },
            chord_timeout_ms: 1200,
        };
        assert(r.parsed.sequence@ =~= seq![spec_default_hotkey_step()]);
        r
    }
}

impl Default for TranscriptionSettings {
    fn default() -> (r: Self)
        ensures
            r@ == spec_default_transcription(),
    {
        let r = TranscriptionSettings {
            built_in_dictionary: Vec::new(),
            user_dictionary: Vec::new(),
            model_cache_ttl_secs: 10 * 60,
            transcript_reformatting_level: TranscriptReformattingLevel::Unchanged,
            llm_api_key: None,
            llm_base_url: DEFAULT_LLM_BASE_URL.to_owned(),
            llm_model_name: DEFAULT_LLM_MODEL_NAME.to_owned(),
            llm_custom_prompt: DEFAULT_LLM_CUSTOM_PROMPT.to_owned(),
        };
        assert(r.built_in_dictionary.deep_view() =~= Seq::<Seq<char>>::empty());
        assert(r.user_dictionary.deep_view() =~= Seq::<Seq<char>>::empty());
        r
    }
}

impl Default for AppSettings {
    fn default() -> (r: Self)
        ensures
            r@ == spec_default_settings(),
    {
        AppSettings {
            start_on_login: false,
            hotkey: HotkeySettings::default(),
            logging: LoggingSettings::default(),
            transcription: TranscriptionSettings::default(),
            history: HistorySettings::default(),
        }
    }
}

// ---------------------------------------------------------------------------
// Equality and copies
// ---------------------------------------------------------------------------

/// Whether two lists of strings hold the same texts in the same order.
pub fn string_lists_equal(a: &Vec<String>, b: &Vec<String>) -> (r: bool)
    ensures
        r == (a.deep_view() == b.deep_view()),
{
    if a.len() != b.len() {
        proof {
            assert(a.deep_view().len() != b.deep_view().len());
        }
        return false;
    }
    let n = a.len();
    for i in 0..n
        invariant
            n == a.len(),
            n == b.len(),
            forall|j: int| 0 <= j < i ==> a@[j]@ == b@[j]@,
    {
        if a[i] != b[i] {
            proof {
                assert(a.deep_view()[i as int] != b.deep_view()[i as int]);
            }
            return false;
        }
    }
    assert(a.deep_view() =~= b.deep_view());
    true
}

/// Whether two optional strings are both absent or hold the same text.
pub fn optional_strings_equal(a: &Option<String>, b: &Option<String>) -> (r: bool)
    ensures
        r == (a.deep_view() == b.deep_view()),
{
    match a {
        Some(x) => match b {
            Some(y) => {
                let r = *x == *y;
                proof {
                    if !r {
                        assert(a.deep_view()->0 != b.deep_view()->0);
                    }
                }
                r
            },
            None => false,
        },
        None => b.is_none(),
    }
}

/// Whether two step lists are identical.
pub fn steps_equal(a: &Vec<HotkeyStep>, b: &Vec<HotkeyStep>) -> (r: bool)
    ensures
        r == (a@ == b@),
{
    if a.len() != b.len() {
        return false;
    }
    let n = a.len();
    for i in 0..n
        invariant
            n == a.len(),
            n == b.len(),
            forall|j: int| 0 <= j < i ==> a@[j] == b@[j],
    {
        if a[i] != b[i] {
            return false;
        }
    }
    assert(a@ =~= b@);
    true
}

/// A copy of a list of strings.
pub fn copy_string_list(a: &Vec<String>) -> (r: Vec<String>)
    ensures
        r.deep_view() == a.deep_view(),
{
    let mut r: Vec<String> = Vec::new();
    let n = a.len();
    for i in 0..n
        invariant
            n == a.len(),
            r.len() == i,
            forall|j: int| 0 <= j < i ==> r@[j]@ == a@[j]@,
    {
        r.push(a[i].clone());
    }
    assert(r.deep_view() =~= a.deep_view());
    r
}

/// A copy of an optional string.
pub fn copy_optional_string(a: &Option<String>) -> (r: Option<String>)
    ensures
        r.deep_view() == a.deep_view(),
{
    match a {
        Some(x) => Some(x.clone()),
        None => None,
    }
}

/// A copy of a step list.
pub fn copy_steps(a: &Vec<HotkeyStep>) -> (r: Vec<HotkeyStep>)
    ensures
        r@ == a@,
{
    let mut r: Vec<HotkeyStep> = Vec::new();
    let n = a.len();
    for i in 0..n
        invariant
            n == a.len(),
            r.len() == i,
            forall|j: int| 0 <= j < i ==> r@[j] == a@[j],
    {
        r.push(a[i]);
    }
    assert(r@ =~= a@);
    r
}

impl ParsedHotkey {
    /// Whether both parses are identical.
    pub fn same_as(&self, other: &Self) -> (r: bool)
        ensures
            r == (self@ == other@),
    {
        self.normalized == other.normalized && steps_equal(&self.sequence, &other.sequence)
    }

    /// A copy with the same view.
    pub fn duplicate(&self) -> (r: Self)
        ensures
            r@ == self@,
    {
        ParsedHotkey { normalized: self.normalized.clone(), sequence: copy_steps(&self.sequence) }
    }
}

impl HotkeySettings {
    /// Whether both hotkey settings are identical.
    pub fn same_as(&self, other: &Self) -> (r: bool)
        ensures
            r == (self@ == other@),
    {
        self.binding == other.binding && self.parsed.same_as(&other.parsed)
            && self.chord_timeout_ms == other.chord_timeout_ms
    }

    /// A copy with the same view.
    pub fn duplicate(&self) -> (r: Self)
        ensures
            r@ == self@,
    {
        HotkeySettings {
            binding: self.binding.clone(),
            parsed: self.parsed.duplicate(),
            chord_timeout_ms: self.chord_timeout_ms,
        }
    }
}

impl TranscriptionSettings {
    /// Whether both transcription settings are identical.
    pub fn same_as(&self, other: &Self) -> (r: bool)
        ensures
            r == (self@ == other@),
    {
        string_lists_equal(&self.built_in_dictionary, &other.built_in_dictionary)
            && string_lists_equal(&self.user_dictionary, &other.user_dictionary)
            && self.model_cache_ttl_secs == other.model_cache_ttl_secs
            && self.transcript_reformatting_level == other.transcript_reformatting_level
            && optional_strings_equal(&self.llm_api_key, &other.llm_api_key)
            && self.llm_base_url == other.llm_base_url
            && self.llm_model_name == other.llm_model_name
            && self.llm_custom_prompt == other.llm_custom_prompt
    }

    /// A copy with the same view.
    pub fn duplicate(&self) -> (r: Self)
        ensures
            r@ == self@,
    {
        TranscriptionSettings {
            built_in_dictionary: copy_string_list(&self.built_in_dictionary),
            user_dictionary: copy_string_list(&self.user_dictionary),
            model_cache_ttl_secs: self.model_cache_ttl_secs,
            transcript_reformatting_level: self.transcript_reformatting_level,
            llm_api_key: copy_optional_string(&self.llm_api_key),
            llm_base_url: self.llm_base_url.clone(),
            llm_model_name: self.llm_model_name.clone(),
            llm_custom_prompt: self.llm_custom_prompt.clone(),
        }
    }
}

impl AppSettings {
    /// Whether both settings are identical in every field.
    pub fn same_as(&self, other: &Self) -> (r: bool)
        ensures
            r == (self@ == other@),
    {
        self.start_on_login == other.start_on_login && self.hotkey.same_as(&other.hotkey)
            && self.logging == other.logging && self.transcription.same_as(&other.transcription)
            && self.history == other.history
    }

    /// A copy with the same view.
    pub fn duplicate(&self) -> (r: Self)
        ensures
            r@ == self@,
    {
        AppSettings {
            start_on_login: self.start_on_login,
            hotkey: self.hotkey.duplicate(),
            logging: self.logging,
            transcription: self.transcription.duplicate(),
            history: self.history,
        }
    }
}

impl PartialEq for ParsedHotkey {
    fn eq(&self, other: &Self) -> (r: bool) {
        self.same_as(other)
    }
}

impl vstd::std_specs::cmp::PartialEqSpecImpl for ParsedHotkey {
    open spec fn obeys_eq_spec() -> bool {
        true
    }

    open spec fn eq_spec(&self, other: &Self) -> bool {
        self@ == other@
    }
}

impl PartialEq for HotkeySettings {
    fn eq(&self, other: &Self) -> (r: bool) {
        self.same_as(other)
    }
}

impl vstd::std_specs::cmp::PartialEqSpecImpl for HotkeySettings {
    open spec fn obeys_eq_spec() -> bool {
        true
    }

    open spec fn eq_spec(&self, other: &Self) -> bool {
        self@ == other@
    }
}

impl Eq for ParsedHotkey {}

impl Eq for HotkeySettings {}

impl Eq for TranscriptionSettings {}

impl Eq for AppSettings {}

impl PartialEq for TranscriptionSettings {
    fn eq(&self, other: &Self) -> (r: bool) {
        self.same_as(other)
    }
}

impl vstd::std_specs::cmp::PartialEqSpecImpl for TranscriptionSettings {
    open spec fn obeys_eq_spec() -> bool {
        true
    }

    open spec fn eq_spec(&self, other: &Self) -> bool {
        self@ == other@
    }
}

impl PartialEq for AppSettings {
    fn eq(&self, other: &Self) -> (r: bool) {
        self.same_as(other)
    }
}

impl vstd::std_specs::cmp::PartialEqSpecImpl for AppSettings {
    open spec fn obeys_eq_spec() -> bool {
        true
    }

    open spec fn eq_spec(&self, other: &Self) -> bool {
        self@ == other@
    }
}

/// Whether the hotkey listener must rebuild its matcher for `latest`: the
/// normalized binding or the chord timeout changed.
pub fn hotkey_needs_rebuild(active: &HotkeySettings, latest: &HotkeySettings) -> (r: bool)
    ensures
        r == (active@.parsed.normalized != latest@.parsed.normalized || active.chord_timeout_ms
            != latest.chord_timeout_ms),
{
    latest.parsed.normalized != active.parsed.normalized || latest.chord_timeout_ms != active.chord_timeout_ms
}

} // verus!

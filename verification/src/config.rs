//! Configuration: the settings record, its normalization from a parsed TOML
//! document, and the sender-filtering policy.
//!
//! The TOML text is parsed by the `toml` crate behind trusted wrappers; what
//! the wrappers hand back is gathered into a [`RawConfig`] of plain optional
//! values, and [`Config::from_raw`] — exactly specified and fully verified —
//! turns that into the settings record, applying defaults and reporting the
//! first missing or invalid entry.

use vstd::prelude::*;
use vstd::string::StringExecFns;

use crate::text::{str_contains, str_eq, text_contains};

verus! {

/// Which messages the bot ignores.
#[derive(Debug, Clone)]
pub struct BotFilteringConfig {
    /// Whether to ignore messages from the bot itself.
    pub ignore_self: bool,
    /// Whether to ignore messages from users with "bot" in their identifier.
    pub ignore_bots: bool,
    /// Specific list of user identifiers to ignore.
    pub ignored_users: Vec<String>,
}

/// The mathematical model of a [`BotFilteringConfig`].
#[verifier::ext_equal]
pub struct FilterView {
    pub ignore_self: bool,
    pub ignore_bots: bool,
    pub ignored_users: Seq<Seq<char>>,
}

impl View for BotFilteringConfig {
    type V = FilterView;

    open spec fn view(&self) -> FilterView {
        FilterView {
            ignore_self: self.ignore_self,
            ignore_bots: self.ignore_bots,
            ignored_users: self.ignored_users.deep_view(),
        }
    }
}

impl Default for BotFilteringConfig {
    /// The policy used when the configuration has no filtering section:
    /// ignore the bot's own messages and nothing else.
    fn default() -> (r: Self)
        ensures
            r@ == default_filter(),
    {
        let r = BotFilteringConfig { ignore_self: true, ignore_bots: false, ignored_users: Vec::new() };
        proof {
            assert(r@ =~= default_filter());
        }
        r
    }
}

/// The filtering policy in force when the configuration names none.
pub open spec fn default_filter() -> FilterView {
    FilterView { ignore_self: true, ignore_bots: false, ignored_users: Seq::empty() }
}

/// What a scheduled reminder sends.
#[derive(Debug, Clone, PartialEq, Eq, Structural)]
pub enum ReminderType {
    NextMeeting,
    AllUpcomingMeetings,
}

/// One scheduled reminder.
#[derive(Debug, Clone)]
pub struct ReminderConfig {
    /// Cron expression for when to send the reminder.
    pub cron: String,
    /// What the reminder sends.
    pub reminder_type: ReminderType,
    /// Room identifier the reminder is sent to.
    pub matrix_room: String,
}

/// The mathematical model of a [`ReminderConfig`].
#[verifier::ext_equal]
pub struct ReminderView {
    pub cron: Seq<char>,
    pub reminder_type: ReminderType,
    pub matrix_room: Seq<char>,
}

impl View for ReminderConfig {
    type V = ReminderView;

    open spec fn view(&self) -> ReminderView {
        ReminderView {
            cron: self.cron@,
            reminder_type: self.reminder_type,
            matrix_room: self.matrix_room@,
        }
    }
}

impl DeepView for ReminderConfig {
    type V = ReminderView;

    open spec fn deep_view(&self) -> ReminderView {
        self.view()
    }
}

/// The settings record, read once at startup and immutable afterwards.
#[derive(Debug, Clone)]
pub struct Config {
    pub homeserver: String,
    pub username: String,
    pub access_token: String,
    pub log_file: String,
    pub working_dir: String,
    pub webcal: String,
    pub info_url: Option<String>,
    pub reminders: Vec<ReminderConfig>,
    pub bot_filtering: BotFilteringConfig,
}

/// The mathematical model of a [`Config`].
#[verifier::ext_equal]
pub struct ConfigView {
    pub homeserver: Seq<char>,
    pub username: Seq<char>,
    pub access_token: Seq<char>,
    pub log_file: Seq<char>,
    pub working_dir: Seq<char>,
    pub webcal: Seq<char>,
    pub info_url: Option<Seq<char>>,
    pub reminders: Seq<ReminderView>,
    pub bot_filtering: FilterView,
}

impl View for Config {
    type V = ConfigView;

    open spec fn view(&self) -> ConfigView {
        ConfigView {
            homeserver: self.homeserver@,
            username: self.username@,
            access_token: self.access_token@,
            log_file: self.log_file@,
            working_dir: self.working_dir@,
            webcal: self.webcal@,
            info_url: self.info_url.deep_view(),
            reminders: self.reminders.deep_view(),
            bot_filtering: self.bot_filtering@,
        }
    }
}

/// What a recognized key holds in the TOML document, before validation: text
/// values as found, absent or differently-typed values as `None`.
pub struct RawReminder {
    pub cron: Option<String>,
    pub reminder_type: Option<String>,
    pub matrix_room: Option<String>,
}

/// The filtering section as found in the TOML document.
pub struct RawFiltering {
    pub ignore_self: Option<bool>,
    pub ignore_bots: Option<bool>,
    pub ignored_users: Vec<String>,
}

/// Everything [`Config::from_raw`] reads from the TOML document: each
/// recognized key's value when present with the right type, the reminder
/// entries that are tables, and the filtering section when present.
pub struct RawConfig {
    pub homeserver: Option<String>,
    pub username: Option<String>,
    pub access_token: Option<String>,
    pub log_file: Option<String>,
    pub working_dir: Option<String>,
    pub webcal: Option<String>,
    pub info_url: Option<String>,
    pub reminders: Vec<RawReminder>,
    pub bot_filtering: Option<RawFiltering>,
}

/// What one raw reminder entry validates to: its reminder, or the message of
/// its first missing or invalid key.
pub open spec fn reminder_from_raw(r: RawReminder) -> Result<ReminderView, Seq<char>> {
    match r.cron {
        None => Err("Missing 'cron' in reminder configuration"@),
        Some(cron) => match r.reminder_type {
            None => Err("Missing 'reminder_type' in reminder configuration"@),
            Some(kind_text) => if kind_text@ == "NextMeeting"@ {
                reminder_with_kind(cron@, ReminderType::NextMeeting, r.matrix_room)
            } else if kind_text@ == "AllUpcomingMeetings"@ {
                reminder_with_kind(cron@, ReminderType::AllUpcomingMeetings, r.matrix_room)
            } else {
                Err("Invalid reminder_type: "@ + kind_text@)
            },
        },
    }
}

/// The tail of [`reminder_from_raw`] once the kind text is recognized.
pub open spec fn reminder_with_kind(
    cron: Seq<char>,
    kind: ReminderType,
    room: Option<String>,
) -> Result<ReminderView, Seq<char>> {
    match room {
        None => Err("Missing 'matrix_room' in reminder configuration"@),
        Some(room_text) => Ok(
            ReminderView { cron, reminder_type: kind, matrix_room: room_text@ },
        ),
    }
}

/// What the raw reminder entries validate to, in order; the first failing
/// entry's message wins.
pub open spec fn reminders_from_raw(rs: Seq<RawReminder>) -> Result<Seq<ReminderView>, Seq<char>>
    decreases rs.len(),
{
    if rs.len() == 0 {
        Ok(Seq::empty())
    } else {
        match reminders_from_raw(rs.drop_last()) {
            Err(e) => Err(e),
            Ok(pre) => match reminder_from_raw(rs.last()) {
                Err(e) => Err(e),
                Ok(v) => Ok(pre.push(v)),
            },
        }
    }
}

/// What the raw filtering section validates to: each switch defaulted when
/// absent, and the default policy when the whole section is absent.
pub open spec fn filter_from_raw(f: Option<RawFiltering>) -> FilterView {
    match f {
        None => default_filter(),
        Some(raw) => FilterView {
            ignore_self: match raw.ignore_self {
                Some(b) => b,
                None => true,
            },
            ignore_bots: match raw.ignore_bots {
                Some(b) => b,
                None => false,
            },
            ignored_users: raw.ignored_users.deep_view(),
        },
    }
}

/// What a raw document validates to: the settings record with defaults
/// applied, or the message of the first missing required key or failing
/// reminder entry.
pub open spec fn config_from_raw_spec(raw: RawConfig) -> Result<ConfigView, Seq<char>> {
    match raw.homeserver {
        None => Err("Missing 'homeserver' in config file"@),
        Some(homeserver) => match raw.username {
            None => Err("Missing 'username' in config file"@),
            Some(username) => match raw.access_token {
                None => Err("Missing 'access_token' in config file"@),
                Some(access_token) => match reminders_from_raw(raw.reminders@) {
                    Err(e) => Err(e),
                    Ok(reminders) => Ok(
                        ConfigView {
                            homeserver: homeserver@,
                            username: username@,
                            access_token: access_token@,
                            log_file: match raw.log_file {
                                Some(s) => s@,
                                None => "bot.log"@,
                            },
                            working_dir: match raw.working_dir {
                                Some(s) => s@,
                                None => "."@,
                            },
                            webcal: match raw.webcal {
                                Some(s) => s@,
                                None => ""@,
                            },
                            info_url: raw.info_url.deep_view(),
                            reminders,
                            bot_filtering: filter_from_raw(raw.bot_filtering),
                        },
                    ),
                },
            },
        },
    }
}

/// Validates one raw reminder entry.
fn build_reminder(r: &RawReminder) -> (out: Result<ReminderConfig, String>)
    ensures
        out matches Ok(c) ==> reminder_from_raw(*r) matches Ok(v) && c@ == v,
        out matches Err(m) ==> reminder_from_raw(*r) matches Err(sm) && m@ == sm,
{
    let cron = match &r.cron {
        Some(s) => s.clone(),
        None => {
            return Err(String::from_str("Missing 'cron' in reminder configuration"));
        },
    };
    let kind_text = match &r.reminder_type {
        Some(s) => s,
        None => {
            return Err(String::from_str("Missing 'reminder_type' in reminder configuration"));
        },
    };
    let kind = if str_eq(kind_text.as_str(), "NextMeeting") {
        ReminderType::NextMeeting
    } else if str_eq(kind_text.as_str(), "AllUpcomingMeetings") {
        ReminderType::AllUpcomingMeetings
    } else {
        return Err(String::from_str("Invalid reminder_type: ").concat(kind_text.as_str()));
    };
    let matrix_room = match &r.matrix_room {
        Some(s) => s.clone(),
        None => {
            return Err(String::from_str("Missing 'matrix_room' in reminder configuration"));
        },
    };
    let out = ReminderConfig { cron, reminder_type: kind, matrix_room };
    proof {
        assert(reminder_from_raw(*r) matches Ok(v) && out@ =~= v);
    }
    Ok(out)
}

impl Config {
    /// Validates a raw document into the settings record, exactly as
    /// [`config_from_raw_spec`] describes: `homeserver`, `username` and
    /// `access_token` are required; `log_file`, `working_directory` and
    /// `webcal` default to `"bot.log"`, `"."` and `""`; reminder entries are
    /// validated in order and the first failure is reported.
    pub fn from_raw(raw: RawConfig) -> (r: Result<Config, String>)
        ensures
            r matches Ok(c) ==> config_from_raw_spec(raw) matches Ok(v) && c@ == v,
            r matches Err(m) ==> config_from_raw_spec(raw) matches Err(sm) && m@ == sm,
    {
        let homeserver = match raw.homeserver {
            Some(s) => s,
            None => {
                return Err(String::from_str("Missing 'homeserver' in config file"));
            },
        };
        let username = match raw.username {
            Some(s) => s,
            None => {
                return Err(String::from_str("Missing 'username' in config file"));
            },
        };
        let access_token = match raw.access_token {
            Some(s) => s,
            None => {
                return Err(String::from_str("Missing 'access_token' in config file"));
            },
        };
        let mut reminders: Vec<ReminderConfig> = Vec::new();
        let mut i: usize = 0;
        proof {
            assert(raw.reminders@.take(0) =~= Seq::<RawReminder>::empty());
            assert(reminders_from_raw(raw.reminders@.take(0)) matches Ok(v) && v
                =~= reminders.deep_view());
        }
        while i < raw.reminders.len()
            invariant
                0 <= i <= raw.reminders.len(),
                reminders.deep_view().len() == reminders@.len(),
                reminders_from_raw(raw.reminders@.take(i as int)) matches Ok(v) && v
                    == reminders.deep_view(),
                raw.homeserver == Some(homeserver),
                raw.username == Some(username),
                raw.access_token == Some(access_token),
            decreases raw.reminders.len() - i,
        {
            proof {
                assert(raw.reminders@.take(i + 1).drop_last() =~= raw.reminders@.take(i as int));
                assert(raw.reminders@.take(i + 1).last() == raw.reminders@[i as int]);
            }
            match build_reminder(&raw.reminders[i]) {
                Ok(c) => {
                    let ghost pre = reminders.deep_view();
                    reminders.push(c);
                    proof {
                        assert(reminders.deep_view() =~= pre.push(c@));
                    }
                },
                Err(m) => {
                    proof {
                        lemma_reminders_error_prefix(raw.reminders@, i as int);
                    }
                    return Err(m);
                },
            }
            i = i + 1;
        }
        proof {
            assert(raw.reminders@.take(raw.reminders@.len() as int) =~= raw.reminders@);
        }
        let log_file = match raw.log_file {
            Some(s) => s,
            None => String::from_str("bot.log"),
        };
        let working_dir = match raw.working_dir {
            Some(s) => s,
            None => String::from_str("."),
        };
        let webcal = match raw.webcal {
            Some(s) => s,
            None => String::from_str(""),
        };
        let bot_filtering = match raw.bot_filtering {
            Some(f) => BotFilteringConfig {
                ignore_self: match f.ignore_self {
                    Some(b) => b,
                    None => true,
                },
                ignore_bots: match f.ignore_bots {
                    Some(b) => b,
                    None => false,
                },
                ignored_users: f.ignored_users,
            },
            None => BotFilteringConfig::default(),
        };
        let out = Config {
            homeserver,
            username,
            access_token,
            log_file,
            working_dir,
            webcal,
            info_url: raw.info_url,
            reminders,
            bot_filtering,
        };
        proof {
            assert(config_from_raw_spec(raw) matches Ok(v) && out@ =~= v);
        }
        Ok(out)
    }
}

/// What lowercasing a user identifier yields. Case folding is a function of
/// the characters alone.
pub uninterp spec fn lower_of(s: Seq<char>) -> Seq<char>;

/// Relies on `str::to_lowercase`: the lowercase form depends on the
/// characters of the input alone.
#[verifier::external_body]
fn to_lowercase(s: &str) -> (r: String)
    ensures
        r@ == lower_of(s@),
{
    s.to_lowercase()
}

/// The filtering rule: a sender is ignored exactly when the policy ignores
/// the bot's own messages and the sender is the bot, or the sender is on the
/// ignore list, or the policy ignores bot-like senders and the lowercase form
/// of the sender's identifier contains `"bot"`. A pure disjunction of the
/// three conditions.
pub open spec fn spec_should_ignore(user: Seq<char>, bot: Seq<char>, policy: FilterView) -> bool {
    (policy.ignore_self && user == bot) || policy.ignored_users.contains(user) || (
    policy.ignore_bots && text_contains(lower_of(user), "bot"@))
}

/// Whether a message from `user_id` is dropped under `config`, the bot's own
/// identifier being `bot_user_id`: exactly [`spec_should_ignore`].
pub fn should_ignore_user(user_id: &str, bot_user_id: &str, config: &BotFilteringConfig) -> (r:
    bool)
    ensures
        r == spec_should_ignore(user_id@, bot_user_id@, config@),
{
    if config.ignore_self && str_eq(user_id, bot_user_id) {
        return true;
    }
    let mut i: usize = 0;
    while i < config.ignored_users.len()
        invariant
            0 <= i <= config.ignored_users.len(),
            config@.ignored_users.len() == config.ignored_users@.len(),
            forall|k: int| 0 <= k < i ==> config@.ignored_users[k] != user_id@,
        decreases config.ignored_users.len() - i,
    {
        if str_eq(user_id, config.ignored_users[i].as_str()) {
            assert(config@.ignored_users[i as int] == user_id@);
            return true;
        }
        i = i + 1;
    }
    assert(!config@.ignored_users.contains(user_id@));
    if config.ignore_bots {
        let lowered = to_lowercase(user_id);
        if str_contains(lowered.as_str(), "bot") {
            return true;
        }
    }
    false
}

#[verifier::external_type_specification]
#[verifier::external_body]
pub struct ExTomlValue(toml::Value);

/// Relies on `toml::from_str`: parses the text as a TOML document, a pure
/// computation on the text.
#[verifier::external_body]
fn parse_toml_text(s: &str) -> (r: Result<toml::Value, String>) {
    match toml::from_str::<toml::Value>(s) {
        Ok(v) => Ok(v),
        Err(e) => Err(format!("Failed to parse TOML: {}", e)),
    }
}

/// Relies on `toml::Value::get`: looks a key up in a TOML table value,
/// `None` on any other kind of value or an absent key.
#[verifier::external_body]
fn value_get<'a>(v: &'a toml::Value, key: &str) -> (r: Option<&'a toml::Value>) {
    v.get(key)
}

/// Relies on `toml::Value::as_str`: the value's text when it is a string.
#[verifier::external_body]
fn value_str(v: &toml::Value) -> (r: Option<String>) {
    v.as_str().map(|s| s.to_string())
}

/// Relies on `toml::Value::as_bool`: the value when it is a boolean.
#[verifier::external_body]
fn value_bool(v: &toml::Value) -> (r: Option<bool>) {
    v.as_bool()
}

/// Relies on `toml::Value::as_array`: the value's entries when it is an
/// array.
#[verifier::external_body]
fn value_array<'a>(v: &'a toml::Value) -> (r: Option<&'a Vec<toml::Value>>) {
    v.as_array()
}

/// Relies on `toml::Value::is_table`: whether the value is a table.
#[verifier::external_body]
fn value_is_table(v: &toml::Value) -> (r: bool) {
    v.is_table()
}

/// The text under `key` in `doc`, when present and a string.
fn doc_string(doc: &toml::Value, key: &str) -> Option<String> {
    match value_get(doc, key) {
        Some(v) => value_str(v),
        None => None,
    }
}

/// The boolean under `key` in `doc`, when present and a boolean.
fn doc_bool(doc: &toml::Value, key: &str) -> Option<bool> {
    match value_get(doc, key) {
        Some(v) => value_bool(v),
        None => None,
    }
}

/// The raw reminder entries of the document: each entry of the `reminders`
/// array that is a table, with its recognized keys; no such array means no
/// reminders.
fn extract_reminders(doc: &toml::Value) -> Vec<RawReminder> {
    let mut out: Vec<RawReminder> = Vec::new();
    let arr = match value_get(doc, "reminders") {
        Some(v) => match value_array(v) {
            Some(a) => a,
            None => {
                return out;
            },
        },
        None => {
            return out;
        },
    };
    let mut i: usize = 0;
    while i < arr.len()
        decreases arr.len() - i,
    {
        let entry = &arr[i];
        if value_is_table(entry) {
            out.push(
                RawReminder {
                    cron: doc_string(entry, "cron"),
                    reminder_type: doc_string(entry, "reminder_type"),
                    matrix_room: doc_string(entry, "matrix_room"),
                },
            );
        }
        i = i + 1;
    }
    out
}

/// The raw filtering section of the document, when present: its switches,
/// and the string entries of its `ignored_users` array.
fn extract_filtering(doc: &toml::Value) -> Option<RawFiltering> {
    let section = match value_get(doc, "bot_filtering") {
        Some(v) => v,
        None => {
            return None;
        },
    };
    let mut users: Vec<String> = Vec::new();
    if let Some(v) = value_get(section, "ignored_users") {
        if let Some(arr) = value_array(v) {
            let mut i: usize = 0;
            while i < arr.len()
                decreases arr.len() - i,
            {
                if let Some(s) = value_str(&arr[i]) {
                    users.push(s);
                }
                i = i + 1;
            }
        }
    }
    Some(
        RawFiltering {
            ignore_self: doc_bool(section, "ignore_self"),
            ignore_bots: doc_bool(section, "ignore_bots"),
            ignored_users: users,
        },
    )
}

/// Everything [`Config::from_raw`] reads, gathered from the parsed document.
fn extract_raw(doc: &toml::Value) -> RawConfig {
    RawConfig {
        homeserver: doc_string(doc, "homeserver"),
        username: doc_string(doc, "username"),
        access_token: doc_string(doc, "access_token"),
        log_file: doc_string(doc, "log_file"),
        working_dir: doc_string(doc, "working_directory"),
        webcal: doc_string(doc, "webcal"),
        info_url: doc_string(doc, "info_url"),
        reminders: extract_reminders(doc),
        bot_filtering: extract_filtering(doc),
    }
}

impl Config {
    /// Parses TOML text and validates it into the settings record. The TOML
    /// document itself comes from the `toml` crate, so this function's own
    /// contract only fixes the validation: every record it returns is the
    /// faithful normalization, per [`config_from_raw_spec`], of some raw
    /// document. [`Config::from_raw`] carries the exact contract.
    pub fn from_toml(toml_str: &str) -> (r: Result<Config, String>)
        ensures
            r matches Ok(c) ==> exists|raw: RawConfig|
                #[trigger] config_from_raw_spec(raw) matches Ok(v) && c@ == v,
    {
        let doc = match parse_toml_text(toml_str) {
            Ok(v) => v,
            Err(m) => {
                return Err(m);
            },
        };
        let raw = extract_raw(&doc);
        let ghost raw_snapshot = raw;
        let r = Config::from_raw(raw);
        proof {
            assert(r matches Ok(c) ==> config_from_raw_spec(raw_snapshot) matches Ok(v) && c@
                == v);
        }
        r
    }
}

/// An error on the prefix ending at entry `i` settles the whole list.
proof fn lemma_reminders_error_prefix(rs: Seq<RawReminder>, i: int)
    requires
        0 <= i < rs.len(),
        reminders_from_raw(rs.take(i)) matches Ok(pre),
        reminder_from_raw(rs[i]) matches Err(m),
    ensures
        reminders_from_raw(rs) matches Err(e) && reminder_from_raw(rs[i]) matches Err(m2) && e
            == m2,
    decreases rs.len(),
{
    if rs.len() - 1 > i {
        assert(rs.drop_last().take(i) =~= rs.take(i));
        assert(rs.drop_last()[i] == rs[i]);
        lemma_reminders_error_prefix(rs.drop_last(), i);
    } else {
        assert(rs.drop_last() =~= rs.take(i));
    }
}

} // verus!

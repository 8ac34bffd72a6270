//! Application settings: where they live, how the sources are merged
//! (environment over `config.toml` over `.env` over built-in defaults), and
//! how the API key is masked for display.
use vstd::prelude::*;
use crate::text::{
    chars_of, concat2, concat3, decimal, is_blank, is_blank_str, join_strings, join_with,
    parse_unsigned, parse_unsigned_str, string_from_chars, string_of, string_views, u64_to_decimal,
};

verus! {

/// Settings of the agent: the OpenAI-compatible endpoint, its key and model,
/// and how many rounds a task may take (0 means no limit).
pub struct AppConfig {
    pub api_base: String,
    pub api_key: String,
    pub model_name: String,
    pub agent_max_rounds: usize,
}

/// What `config.toml` holds; every entry may be absent.
pub struct PartialAppConfig {
    pub api_base: Option<String>,
    pub api_key: Option<String>,
    pub model_name: Option<String>,
    pub agent_max_rounds: Option<usize>,
}

/// The settings as variables give them, in the process environment or in a
/// `.env` file: the text of `OPENAI_API_BASE`, `OPENAI_API_KEY`,
/// `OPENAI_MODEL_NAME` and `AGENT_MAX_ROUNDS`, where each is set.
pub struct EnvSettings {
    pub api_base: Option<String>,
    pub api_key: Option<String>,
    pub model_name: Option<String>,
    pub agent_max_rounds: Option<String>,
}

/// Where a setting in effect came from.
pub enum SettingSource {
    /// The process environment.
    Environment,
    /// `config.toml`.
    ConfigFile,
    /// The `.env` file.
    DotEnv,
    /// The built-in default.
    Default,
}

/// Where each setting in effect came from.
pub struct SettingSources {
    pub api_base: SettingSource,
    pub api_key: SettingSource,
    pub model_name: SettingSource,
    pub agent_max_rounds: SettingSource,
}

/// Why the configuration file's location could not be found.
pub enum ConfigPathError {
    /// The user's home directory is unknown.
    NoHomeDir,
}

/// The endpoint used when no source names one.
pub open spec fn default_api_base() -> Seq<char> {
    "https://api.openai.com/v1"@
}

/// The model used when no source names one.
pub open spec fn default_model_name() -> Seq<char> {
    "qwen3.5-plus"@
}

/// The round limit used when no source gives one.
pub open spec fn default_agent_max_rounds() -> nat {
    30
}

/// `first` where it is present, else `second`.
pub open spec fn or_opt<T>(first: Option<T>, second: Option<T>) -> Option<T> {
    match first {
        Some(v) => Some(v),
        None => second,
    }
}

/// The text of the first of `first`, `second` and `third` that is present,
/// or `fallback`.
pub open spec fn first_present(
    first: Option<String>,
    second: Option<String>,
    third: Option<String>,
    fallback: Seq<char>,
) -> Seq<char> {
    match or_opt(first, or_opt(second, third)) {
        Some(v) => v@,
        None => fallback,
    }
}

/// A round limit given as text, where it parses as a `usize`.
pub open spec fn rounds_of(v: Option<String>) -> Option<nat> {
    match v {
        Some(t) => parse_unsigned(t@, usize::MAX as nat),
        None => None,
    }
}

/// The round limit that the sources give: the environment's value where it
/// parses as a `usize`, else the file's, else the `.env` file's where it
/// parses, else the default.
pub open spec fn resolved_max_rounds(env: Option<String>, file: Option<usize>, dotenv: Option<String>) -> nat {
    match rounds_of(env) {
        Some(n) => n,
        None => match file {
            Some(n) => n as nat,
            None => match rounds_of(dotenv) {
                Some(n) => n,
                None => default_agent_max_rounds(),
            },
        },
    }
}

/// The source of a setting given as text: the first of the environment,
/// `config.toml` and `.env` that has it, else the default.
pub open spec fn source_of(env: Option<String>, file: Option<String>, dotenv: Option<String>) -> SettingSource {
    if env is Some {
        SettingSource::Environment
    } else if file is Some {
        SettingSource::ConfigFile
    } else if dotenv is Some {
        SettingSource::DotEnv
    } else {
        SettingSource::Default
    }
}

/// The source of the round limit: as for the other settings, except that a
/// value given as text that does not parse is passed over.
pub open spec fn rounds_source(env: Option<String>, file: Option<usize>, dotenv: Option<String>) -> SettingSource {
    if rounds_of(env) is Some {
        SettingSource::Environment
    } else if file is Some {
        SettingSource::ConfigFile
    } else if rounds_of(dotenv) is Some {
        SettingSource::DotEnv
    } else {
        SettingSource::Default
    }
}

/// How `config show` names a source.
pub open spec fn source_label(s: SettingSource) -> Seq<char> {
    match s {
        SettingSource::Environment => "环境变量"@,
        SettingSource::ConfigFile => "config.toml"@,
        SettingSource::DotEnv => ".env"@,
        SettingSource::Default => "默认值"@,
    }
}

/// `s` followed by spaces up to `width` characters (unchanged where it is
/// already that long).
pub open spec fn padded(s: Seq<char>, width: nat) -> Seq<char> {
    if s.len() >= width {
        s
    } else {
        s + Seq::new((width - s.len()) as nat, |i: int| ' ')
    }
}

/// A line of `config show`: the name, the value padded to 26 characters,
/// and the value's source in brackets.
pub open spec fn setting_line(name: Seq<char>, value: Seq<char>, source: SettingSource) -> Seq<char> {
    name + padded(value, 26) + "  ["@ + source_label(source) + "]"@
}

/// `base.join(component)` for a relative `component`: a `/` goes between the
/// two unless `base` is empty or already ends with one.
pub open spec fn join_path(base: Seq<char>, component: Seq<char>) -> Seq<char> {
    if base.len() == 0 || base.last() == '/' {
        base + component
    } else {
        base + seq!['/'] + component
    }
}

/// The settings directory below the home directory `home`.
pub open spec fn config_dir_of(home: Seq<char>) -> Seq<char> {
    join_path(join_path(home, ".config"@), "uicontrol"@)
}

/// The settings file below the home directory `home`.
pub open spec fn config_file_of(home: Seq<char>) -> Seq<char> {
    join_path(config_dir_of(home), "config.toml"@)
}

/// The API key as it is shown: a placeholder when it is blank, four stars
/// when it has at most eight characters, else its first four and last four
/// characters around `...`.
pub open spec fn masked_key(key: Seq<char>) -> Seq<char> {
    if is_blank(key) {
        "(未设置)"@
    } else if key.len() <= 8 {
        "****"@
    } else {
        key.take(4) + "..."@ + key.skip(key.len() - 4)
    }
}

/// `dirs::home_dir`, as a string.
///
/// The contract claims that a home directory, when there is one, is not
/// empty: dirs-sys takes `$HOME` only when it is set and not empty, else the
/// password database entry only when it is not empty. A path that is not
/// valid UTF-8 is reported as absent. Which directory comes back depends on
/// the environment and is not stated.
#[verifier::external_body]
fn home_dir() -> (r: Option<String>)
    ensures
        r matches Some(p) ==> p@.len() > 0,
{
    match dirs::home_dir() {
        Some(p) => match p.into_os_string().into_string() {
            Ok(s) => Some(s),
            Err(_) => None,
        },
        None => None,
    }
}

/// `base.join(component)` for a relative `component`.
pub fn join_path_str(base: &str, component: &str) -> (r: String)
    ensures
        r@ == join_path(base@, component@),
{
    let v = chars_of(base);
    if v.len() == 0 || v[v.len() - 1] == '/' {
        concat2(base, component)
    } else {
        proof {
            reveal_strlit("/");
        }
        concat3(base, "/", component)
    }
}

impl AppConfig {
    /// The settings directory below the home directory `home`.
    pub fn config_dir_under(home: &str) -> (r: String)
        ensures
            r@ == config_dir_of(home@),
    {
        let dot = join_path_str(home, ".config");
        join_path_str(dot.as_str(), "uicontrol")
    }

    /// The settings file below the home directory `home`.
    pub fn config_file_under(home: &str) -> (r: String)
        ensures
            r@ == config_file_of(home@),
    {
        let dir = Self::config_dir_under(home);
        join_path_str(dir.as_str(), "config.toml")
    }

    /// The settings directory, `~/.config/uicontrol`: below whichever home
    /// directory the system reports, an error where it reports none.
    pub fn config_dir() -> (r: Result<String, ConfigPathError>)
        ensures
            match r {
                Ok(p) => exists|h: Seq<char>| h.len() > 0 && p@ == #[trigger] config_dir_of(h),
                Err(_) => true,
            },
    {
        match home_dir() {
            Some(home) => Ok(Self::config_dir_under(home.as_str())),
            None => Err(ConfigPathError::NoHomeDir),
        }
    }

    /// The settings file, `~/.config/uicontrol/config.toml`: below whichever
    /// home directory the system reports, an error where it reports none.
    pub fn config_file_path() -> (r: Result<String, ConfigPathError>)
        ensures
            match r {
                Ok(p) => exists|h: Seq<char>| h.len() > 0 && p@ == #[trigger] config_file_of(h),
                Err(_) => true,
            },
    {
        match home_dir() {
            Some(home) => Ok(Self::config_file_under(home.as_str())),
            None => Err(ConfigPathError::NoHomeDir),
        }
    }

    /// The settings that the sources give, each value taken from the first
    /// source that has it: the environment (`env`, as read), then
    /// `config.toml` (`file`), then the `.env` file (`dotenv`), then the
    /// defaults. A round limit given as text that does not parse as a
    /// `usize` is passed over.
    pub fn from_sources(env: EnvSettings, file: PartialAppConfig, dotenv: EnvSettings) -> (c: AppConfig)
        ensures
            c.api_base@ == first_present(env.api_base, file.api_base, dotenv.api_base, default_api_base()),
            c.api_key@ == first_present(env.api_key, file.api_key, dotenv.api_key, Seq::empty()),
            c.model_name@ == first_present(
                env.model_name,
                file.model_name,
                dotenv.model_name,
                default_model_name(),
            ),
            c.agent_max_rounds as nat == resolved_max_rounds(
                env.agent_max_rounds,
                file.agent_max_rounds,
                dotenv.agent_max_rounds,
            ),
    {
        let api_base = match first_of(env.api_base, file.api_base, dotenv.api_base) {
            Some(v) => v,
            None => String::from_str("https://api.openai.com/v1"),
        };
        let api_key = match first_of(env.api_key, file.api_key, dotenv.api_key) {
            Some(v) => v,
            None => String::new(),
        };
        let model_name = match first_of(env.model_name, file.model_name, dotenv.model_name) {
            Some(v) => v,
            None => String::from_str("qwen3.5-plus"),
        };
        let agent_max_rounds: usize = match parse_rounds(&env.agent_max_rounds) {
            Some(n) => n,
            None => match file.agent_max_rounds {
                Some(n) => n,
                None => match parse_rounds(&dotenv.agent_max_rounds) {
                    Some(n) => n,
                    None => 30,
                },
            },
        };
        AppConfig { api_base, api_key, model_name, agent_max_rounds }
    }
}

/// The first of three values that is present.
fn first_of(first: Option<String>, second: Option<String>, third: Option<String>) -> (r: Option<String>)
    ensures
        r == or_opt(first, or_opt(second, third)),
{
    match first {
        Some(v) => Some(v),
        None => match second {
            Some(v) => Some(v),
            None => third,
        },
    }
}

/// A round limit given as text, where it parses as a `usize`.
fn parse_rounds(v: &Option<String>) -> (r: Option<usize>)
    ensures
        match r {
            Some(n) => rounds_of(*v) == Some(n as nat),
            None => rounds_of(*v) is None,
        },
{
    match v {
        Some(t) => match parse_unsigned_str(t.as_str(), usize::MAX as u64) {
            Some(n) => Some(n as usize),
            None => None,
        },
        None => None,
    }
}

/// The source of a setting given as text.
fn source_of_exec(env: &Option<String>, file: &Option<String>, dotenv: &Option<String>) -> (r: SettingSource)
    ensures
        r == source_of(*env, *file, *dotenv),
{
    if env.is_some() {
        SettingSource::Environment
    } else if file.is_some() {
        SettingSource::ConfigFile
    } else if dotenv.is_some() {
        SettingSource::DotEnv
    } else {
        SettingSource::Default
    }
}

/// Where each setting that `from_sources` takes from these sources comes
/// from.
pub fn setting_sources(env: &EnvSettings, file: &PartialAppConfig, dotenv: &EnvSettings) -> (s: SettingSources)
    ensures
        s.api_base == source_of(env.api_base, file.api_base, dotenv.api_base),
        s.api_key == source_of(env.api_key, file.api_key, dotenv.api_key),
        s.model_name == source_of(env.model_name, file.model_name, dotenv.model_name),
        s.agent_max_rounds == rounds_source(
            env.agent_max_rounds,
            file.agent_max_rounds,
            dotenv.agent_max_rounds,
        ),
{
    let agent_max_rounds = if parse_rounds(&env.agent_max_rounds).is_some() {
        SettingSource::Environment
    } else if file.agent_max_rounds.is_some() {
        SettingSource::ConfigFile
    } else if parse_rounds(&dotenv.agent_max_rounds).is_some() {
        SettingSource::DotEnv
    } else {
        SettingSource::Default
    };
    SettingSources {
        api_base: source_of_exec(&env.api_base, &file.api_base, &dotenv.api_base),
        api_key: source_of_exec(&env.api_key, &file.api_key, &dotenv.api_key),
        model_name: source_of_exec(&env.model_name, &file.model_name, &dotenv.model_name),
        agent_max_rounds,
    }
}

/// A setting's value is the one its source gives: the environment's, the
/// file's or the `.env` file's value where that is the source, the default
/// otherwise.
pub proof fn law_value_comes_from_its_source(
    env: Option<String>,
    file: Option<String>,
    dotenv: Option<String>,
    fallback: Seq<char>,
)
    ensures
        first_present(env, file, dotenv, fallback) == match source_of(env, file, dotenv) {
            SettingSource::Environment => env->0@,
            SettingSource::ConfigFile => file->0@,
            SettingSource::DotEnv => dotenv->0@,
            SettingSource::Default => fallback,
        },
{
}

/// The round limit in effect is the one its source gives.
pub proof fn law_round_limit_comes_from_its_source(
    env: Option<String>,
    file: Option<usize>,
    dotenv: Option<String>,
)
    ensures
        resolved_max_rounds(env, file, dotenv) == match rounds_source(env, file, dotenv) {
            SettingSource::Environment => rounds_of(env)->0,
            SettingSource::ConfigFile => file->0 as nat,
            SettingSource::DotEnv => rounds_of(dotenv)->0,
            SettingSource::Default => default_agent_max_rounds(),
        },
{
}

impl PartialAppConfig {
    /// Each entry of `self`, or where it is absent, the one of `other`.
    pub fn or_else(self, other: PartialAppConfig) -> (c: PartialAppConfig)
        ensures
            c.api_base == or_opt(self.api_base, other.api_base),
            c.api_key == or_opt(self.api_key, other.api_key),
            c.model_name == or_opt(self.model_name, other.model_name),
            c.agent_max_rounds == or_opt(self.agent_max_rounds, other.agent_max_rounds),
    {
        PartialAppConfig {
            api_base: match self.api_base {
                Some(v) => Some(v),
                None => other.api_base,
            },
            api_key: match self.api_key {
                Some(v) => Some(v),
                None => other.api_key,
            },
            model_name: match self.model_name {
                Some(v) => Some(v),
                None => other.model_name,
            },
            agent_max_rounds: match self.agent_max_rounds {
                Some(v) => Some(v),
                None => other.agent_max_rounds,
            },
        }
    }
}

impl Default for AppConfig {
    fn default() -> (c: AppConfig)
        ensures
            c.api_base@ == default_api_base(),
            c.api_key@ == Seq::<char>::empty(),
            c.model_name@ == default_model_name(),
            c.agent_max_rounds as nat == default_agent_max_rounds(),
    {
        AppConfig {
            api_base: String::from_str("https://api.openai.com/v1"),
            api_key: String::new(),
            model_name: String::from_str("qwen3.5-plus"),
            agent_max_rounds: 30,
        }
    }
}

/// The API key as `config show` prints it.
pub fn mask_api_key(key: &str) -> (r: String)
    ensures
        r@ == masked_key(key@),
{
    if is_blank_str(key) {
        return String::from_str("(未设置)");
    }
    let chars = chars_of(key);
    let n = chars.len();
    if n <= 8 {
        return String::from_str("****");
    }
    let prefix = string_from_chars(chars.as_slice(), 0, 4);
    let suffix = string_from_chars(chars.as_slice(), n - 4, n);
    let r = concat3(prefix.as_str(), "...", suffix.as_str());
    assert(chars@.subrange(0, 4) =~= key@.take(4));
    assert(chars@.subrange(n - 4, n as int) =~= key@.skip(n - 4));
    r
}

impl AppConfig {
    /// The settings after an interactive login: the values entered, except
    /// that a blank key keeps the current one.
    pub fn login_result(
        current: AppConfig,
        api_base: String,
        api_key_input: String,
        model_name: String,
        agent_max_rounds: usize,
    ) -> (c: AppConfig)
        ensures
            c.api_base@ == api_base@,
            c.api_key@ == if is_blank(api_key_input@) {
                current.api_key@
            } else {
                api_key_input@
            },
            c.model_name@ == model_name@,
            c.agent_max_rounds == agent_max_rounds,
    {
        let api_key = if is_blank_str(api_key_input.as_str()) {
            current.api_key
        } else {
            api_key_input
        };
        AppConfig { api_base, api_key, model_name, agent_max_rounds }
    }
}

/// The rule printed above and below the settings.
pub open spec fn rule_line() -> Seq<char> {
    "━━━━━━━━━━━━━━━━━━━━━━━━━━━━━━━━━━━━━━━━"@
}

/// The lines that `config show` prints before the file's location: a
/// header, the rule, the four settings (the key masked), each with its
/// source, and the rule.
pub open spec fn show_lines(c: AppConfig, s: SettingSources) -> Seq<Seq<char>> {
    seq![
        "当前配置（来源优先级：环境变量 > config.toml > .env > 默认值）"@,
        rule_line(),
        setting_line("  API Base:    "@, c.api_base@, s.api_base),
        setting_line("  API Key:     "@, masked_key(c.api_key@), s.api_key),
        setting_line("  Model Name:  "@, c.model_name@, s.model_name),
        setting_line("  Max Rounds:  "@, decimal(c.agent_max_rounds as nat), s.agent_max_rounds),
        rule_line(),
    ]
}

/// `s` padded with spaces to `width` characters.
fn pad_to(s: &str, width: usize) -> (r: String)
    ensures
        r@ == padded(s@, width as nat),
{
    let mut v = chars_of(s);
    let ghost start = v@;
    while v.len() < width
        invariant
            start == s@,
            v@.len() >= start.len(),
            v@.subrange(0, start.len() as int) == start,
            forall|i: int| start.len() <= i < v@.len() ==> v@[i] == ' ',
            start.len() < width ==> v@.len() <= width,
            start.len() >= width ==> v@.len() == start.len(),
        decreases width - v.len(),
    {
        v.push(' ');
    }
    let r = string_of(&v);
    proof {
        if start.len() >= width {
            assert(v@ =~= start);
        } else {
            assert(v@ =~= start + Seq::new((width - start.len()) as nat, |i: int| ' '));
        }
    }
    r
}

/// The name of a source as `config show` prints it.
fn source_label_of(s: &SettingSource) -> (r: &'static str)
    ensures
        r@ == source_label(*s),
{
    match s {
        SettingSource::Environment => "环境变量",
        SettingSource::ConfigFile => "config.toml",
        SettingSource::DotEnv => ".env",
        SettingSource::Default => "默认值",
    }
}

/// A line of `config show`.
fn setting_line_of(name: &str, value: &str, source: &SettingSource) -> (r: String)
    ensures
        r@ == setting_line(name@, value@, *source),
{
    let p = pad_to(value, 26);
    let head = concat2(name, p.as_str());
    let tail = concat3("  [", source_label_of(source), "]");
    let r = concat2(head.as_str(), tail.as_str());
    assert(r@ =~= setting_line(name@, value@, *source));
    r
}

/// The text that `config show` prints before the file's location, one line
/// per entry of `show_lines`.
pub fn show_report(c: &AppConfig, s: &SettingSources) -> (r: String)
    ensures
        r@ == join_with(show_lines(*c, *s), "\n"@),
{
    let mut lines: Vec<String> = Vec::new();
    lines.push(String::from_str("当前配置（来源优先级：环境变量 > config.toml > .env > 默认值）"));
    lines.push(String::from_str("━━━━━━━━━━━━━━━━━━━━━━━━━━━━━━━━━━━━━━━━"));
    lines.push(setting_line_of("  API Base:    ", c.api_base.as_str(), &s.api_base));
    let masked = mask_api_key(c.api_key.as_str());
    lines.push(setting_line_of("  API Key:     ", masked.as_str(), &s.api_key));
    lines.push(setting_line_of("  Model Name:  ", c.model_name.as_str(), &s.model_name));
    let rounds = u64_to_decimal(c.agent_max_rounds as u64);
    lines.push(setting_line_of("  Max Rounds:  ", rounds.as_str(), &s.agent_max_rounds));
    lines.push(String::from_str("━━━━━━━━━━━━━━━━━━━━━━━━━━━━━━━━━━━━━━━━"));
    assert(string_views(lines@) =~= show_lines(*c, *s));
    join_strings(&lines, "\n")
}

} // verus!

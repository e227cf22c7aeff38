use vstd::prelude::*;

verus! {

/// Plane-of-array transposition model.
#[derive(Debug, Clone, Copy, PartialEq, Eq, Structural)]
pub enum TranspositionModel {
    HayDavies,
    Perez,
}

/// Module (cell) temperature model.
#[derive(Debug, Clone, Copy, PartialEq, Eq, Structural)]
pub enum CellTempModel {
    Faiman,
    Noct,
}

/// Order of the two 16-bit words of a 32-bit value in the register bank:
/// `Abcd` puts the high word first, `Cdab` the low word first.
#[derive(Debug, Clone, Copy, PartialEq, Eq, Structural)]
pub enum WordOrder {
    Abcd,
    Cdab,
}


/// Why a decimal integer could not be read (the kinds of `ParseIntError`
/// that an unsigned target can raise).
#[derive(Debug, Clone, Copy, PartialEq, Eq, Structural)]
pub enum IntErrorKind {
    Empty,
    InvalidDigit,
    PosOverflow,
}

/// Whether `c` is an ASCII decimal digit.
pub open spec fn is_digit(c: char) -> bool {
    '0' <= c && c <= '9'
}

/// The value of an ASCII decimal digit.
pub open spec fn digit_value(c: char) -> int {
    (c as u32) - ('0' as u32)
}

/// Reading decimal digits left to right: the first character that is not a
/// digit gives `InvalidDigit`; the first prefix whose value exceeds `max`
/// gives `PosOverflow`.
pub open spec fn parse_digits(d: Seq<char>, max: int) -> Result<int, IntErrorKind>
    decreases d.len(),
{
    if d.len() == 0 {
        Ok(0)
    } else {
        match parse_digits(d.drop_last(), max) {
            Err(e) => Err(e),
            Ok(v) => if !is_digit(d.last()) {
                Err(IntErrorKind::InvalidDigit)
            } else if v * 10 + digit_value(d.last()) > max {
                Err(IntErrorKind::PosOverflow)
            } else {
                Ok(v * 10 + digit_value(d.last()))
            },
        }
    }
}

/// What `str::parse` gives for an unsigned integer type whose largest value
/// is `max`: an optional leading `+`, then decimal digits only.
pub open spec fn spec_parse_uint(s: Seq<char>, max: int) -> Result<int, IntErrorKind> {
    if s.len() == 0 {
        Err(IntErrorKind::Empty)
    } else if s.len() == 1 && (s[0] == '+' || s[0] == '-') {
        Err(IntErrorKind::InvalidDigit)
    } else if s[0] == '+' {
        parse_digits(s.drop_first(), max)
    } else {
        parse_digits(s, max)
    }
}

/// Read a decimal unsigned integer no larger than `max`, as `str::parse`
/// does for `u8`, `u16` or `u64`.
pub fn parse_uint(s: &str, max: u64) -> (res: Result<u64, IntErrorKind>)
    ensures
        match res {
            Ok(v) => v <= max && spec_parse_uint(s@, max as int) == Ok::<int, IntErrorKind>(
                v as int,
            ),
            Err(e) => spec_parse_uint(s@, max as int) == Err::<int, IntErrorKind>(e),
        },
{
    let n = s.unicode_len();
    if n == 0 {
        return Err(IntErrorKind::Empty);
    }
    let first = s.get_char(0);
    if n == 1 && (first == '+' || first == '-') {
        return Err(IntErrorKind::InvalidDigit);
    }
    let start: usize = if first == '+' {
        1
    } else {
        0
    };
    let ghost digits = s@.subrange(start as int, n as int);
    proof {
        if start == 1 {
            assert(digits =~= s@.drop_first());
        } else {
            assert(digits =~= s@);
        }
    }
    assert(spec_parse_uint(s@, max as int) == parse_digits(digits, max as int));
    assert(digits.subrange(0, 0) =~= Seq::<char>::empty());
    let mut value: u64 = 0;
    let mut i: usize = start;
    while i < n
        invariant
            n == s@.len(),
            start <= i <= n,
            digits == s@.subrange(start as int, n as int),
            spec_parse_uint(s@, max as int) == parse_digits(digits, max as int),
            parse_digits(digits.subrange(0, i - start), max as int) == Ok::<int, IntErrorKind>(
                value as int,
            ),
            value <= max,
        decreases n - i,
    {
        let c = s.get_char(i);
        let ghost pre = digits.subrange(0, i - start);
        let ghost next = digits.subrange(0, i + 1 - start);
        proof {
            assert(next.drop_last() =~= pre);
            assert(next.last() == c);
        }
        if !('0' <= c && c <= '9') {
            proof {
                assert(parse_digits(next, max as int) == Err::<int, IntErrorKind>(
                    IntErrorKind::InvalidDigit,
                ));
                lemma_parse_digits_prefix_err(digits, (i + 1 - start) as int, max as int);
            }
            return Err(IntErrorKind::InvalidDigit);
        }
        let d = (c as u32 - '0' as u32) as u64;
        let wide: u128 = value as u128 * 10 + d as u128;
        if wide > max as u128 {
            proof {
                assert(parse_digits(next, max as int) == Err::<int, IntErrorKind>(
                    IntErrorKind::PosOverflow,
                ));
                lemma_parse_digits_prefix_err(digits, (i + 1 - start) as int, max as int);
            }
            return Err(IntErrorKind::PosOverflow);
        }
        value = wide as u64;
        i = i + 1;
    }
    assert(digits.subrange(0, n - start) =~= digits);
    Ok(value)
}

/// Once a prefix of the digits fails, the whole string fails the same way.
proof fn lemma_parse_digits_prefix_err(d: Seq<char>, k: int, max: int)
    requires
        0 <= k <= d.len(),
        parse_digits(d.subrange(0, k), max) is Err,
    ensures
        parse_digits(d, max) == parse_digits(d.subrange(0, k), max),
    decreases d.len() - k,
{
    if k < d.len() {
        let next = d.subrange(0, k + 1);
        assert(next.drop_last() =~= d.subrange(0, k));
        lemma_parse_digits_prefix_err(d, k + 1, max);
    } else {
        assert(d.subrange(0, k) =~= d);
    }
}


/// An environment: (name, value) pairs, as the keys of a map (unique).
pub type EnvView = Seq<(Seq<char>, Seq<char>)>;

/// The character view of an environment.
pub open spec fn env_view(env: Seq<(String, String)>) -> EnvView {
    env.map_values(|p: (String, String)| (p.0@, p.1@))
}

/// The value of the first entry named `key`, if any.
pub open spec fn spec_lookup(env: EnvView, key: Seq<char>) -> Option<Seq<char>>
    decreases env.len(),
{
    if env.len() == 0 {
        None
    } else if env[0].0 == key {
        Some(env[0].1)
    } else {
        spec_lookup(env.drop_first(), key)
    }
}

/// The value of the first entry of `env` named `key`.
pub fn lookup<'a>(env: &'a Vec<(String, String)>, key: &str) -> (res: Option<&'a String>)
    ensures
        match res {
            Some(v) => spec_lookup(env_view(env@), key@) == Some(v@),
            None => spec_lookup(env_view(env@), key@) is None,
        },
{
    let ghost ev = env_view(env@);
    let mut i: usize = 0;
    assert(ev.subrange(0, ev.len() as int) =~= ev);
    while i < env.len()
        invariant
            ev == env_view(env@),
            0 <= i <= env.len(),
            spec_lookup(ev, key@) == spec_lookup(ev.subrange(i as int, ev.len() as int), key@),
        decreases env.len() - i,
    {
        let ghost rest = ev.subrange(i as int, ev.len() as int);
        assert(rest[0] == (env@[i as int].0@, env@[i as int].1@));
        if crate::text::str_eq(env[i].0.as_str(), key) {
            return Some(&env[i].1);
        }
        assert(rest.drop_first() =~= ev.subrange(i + 1, ev.len() as int));
        i = i + 1;
    }
    None
}

/// Whether a flag value means "on": after ASCII lowercasing it is `1`,
/// `true`, `yes` or `on`.
pub open spec fn is_truthy(v: Seq<char>) -> bool {
    let l = crate::text::ascii_lower_seq(v);
    l == "1"@ || l == "true"@ || l == "yes"@ || l == "on"@
}

/// The value of `key`, or `default` when it is absent.
pub open spec fn spec_str_or(env: EnvView, key: Seq<char>, default: Seq<char>) -> Seq<char> {
    match spec_lookup(env, key) {
        Some(v) => v,
        None => default,
    }
}

/// The flag `key`, or `default` when it is absent.
pub open spec fn spec_bool_or(env: EnvView, key: Seq<char>, default: bool) -> bool {
    match spec_lookup(env, key) {
        Some(v) => is_truthy(v),
        None => default,
    }
}

/// The unsigned integer `key` (at most `max`), or `default` when it is absent.
pub open spec fn spec_uint_or(env: EnvView, key: Seq<char>, default: int, max: int) -> Result<
    int,
    IntErrorKind,
> {
    match spec_lookup(env, key) {
        Some(v) => spec_parse_uint(v, max),
        None => Ok(default),
    }
}

/// The character view of an optional string.
pub open spec fn opt_view(o: Option<String>) -> Option<Seq<char>> {
    match o {
        Some(s) => Some(s@),
        None => None,
    }
}

/// Why the environment was refused.
#[derive(Debug, Clone)]
pub enum ConfigError {
    /// A choice variable holds a value outside its allowed set.
    InvalidChoice { key: &'static str, value: String },
    /// An integer variable is not a decimal number of the right size.
    BadInteger { key: &'static str, kind: IntErrorKind },
}

/// The mathematical view of a `ConfigError`.
pub enum ConfigErrorView {
    InvalidChoice(Seq<char>, Seq<char>),
    BadInteger(Seq<char>, IntErrorKind),
}

impl View for ConfigError {
    type V = ConfigErrorView;

    open spec fn view(&self) -> ConfigErrorView {
        match self {
            ConfigError::InvalidChoice { key, value } => ConfigErrorView::InvalidChoice(
                key@,
                value@,
            ),
            ConfigError::BadInteger { key, kind } => ConfigErrorView::BadInteger(key@, *kind),
        }
    }
}

/// The text `std` prints for a `ParseIntError` of this kind.
pub open spec fn int_error_text(kind: IntErrorKind) -> Seq<char> {
    match kind {
        IntErrorKind::Empty => "cannot parse integer from empty string"@,
        IntErrorKind::InvalidDigit => "invalid digit found in string"@,
        IntErrorKind::PosOverflow => "number too large to fit in target type"@,
    }
}

/// The message that reports an error.
pub open spec fn error_message(e: ConfigErrorView) -> Seq<char> {
    match e {
        ConfigErrorView::InvalidChoice(key, value) => key + " invalid: "@ + value,
        ConfigErrorView::BadInteger(key, kind) => key + ": "@ + int_error_text(kind),
    }
}

impl ConfigError {
    /// The message that reports this error, e.g.
    /// `PVHUB_CELLTEMP invalid: foo` or `PVHUB_HTTP_PORT: invalid digit found in string`.
    pub fn message(&self) -> (res: String)
        ensures
            res@ == error_message(self@),
    {
        match self {
            ConfigError::InvalidChoice { key, value } => crate::text::concat3(
                key,
                " invalid: ",
                value.as_str(),
            ),
            ConfigError::BadInteger { key, kind } => {
                let text = match kind {
                    IntErrorKind::Empty => "cannot parse integer from empty string",
                    IntErrorKind::InvalidDigit => "invalid digit found in string",
                    IntErrorKind::PosOverflow => "number too large to fit in target type",
                };
                crate::text::concat3(key, ": ", text)
            },
        }
    }
}

/// The value of `key`, or `default` when it is absent.
pub fn str_or(env: &Vec<(String, String)>, key: &str, default: &str) -> (res: String)
    ensures
        res@ == spec_str_or(env_view(env@), key@, default@),
{
    match lookup(env, key) {
        Some(v) => v.clone(),
        None => String::from_str(default),
    }
}

/// The optional value of `key`.
pub fn opt_string(env: &Vec<(String, String)>, key: &str) -> (res: Option<String>)
    ensures
        opt_view(res) == spec_lookup(env_view(env@), key@),
{
    match lookup(env, key) {
        Some(v) => Some(v.clone()),
        None => None,
    }
}

/// The flag `key`, or `default` when it is absent.
pub fn bool_or(env: &Vec<(String, String)>, key: &str, default: bool) -> (res: bool)
    ensures
        res == spec_bool_or(env_view(env@), key@, default),
{
    match lookup(env, key) {
        Some(v) => {
            let s = v.as_str();
            crate::text::eq_ascii_lowercase(s, "1") || crate::text::eq_ascii_lowercase(s, "true")
                || crate::text::eq_ascii_lowercase(s, "yes") || crate::text::eq_ascii_lowercase(
                s,
                "on",
            )
        },
        None => default,
    }
}

/// The unsigned integer `key` (at most `max`), or `default` when it is absent.
pub fn uint_or(env: &Vec<(String, String)>, key: &'static str, default: u64, max: u64) -> (res:
    Result<u64, ConfigError>)
    requires
        default <= max,
    ensures
        match res {
            Ok(v) => v <= max && spec_uint_or(env_view(env@), key@, default as int, max as int) == Ok::<
                int,
                IntErrorKind,
            >(v as int),
            Err(e) => spec_uint_or(env_view(env@), key@, default as int, max as int) == Err::<
                int,
                IntErrorKind,
            >(e@->BadInteger_1) && e@ == ConfigErrorView::BadInteger(key@, e@->BadInteger_1),
        },
{
    match lookup(env, key) {
        Some(v) => match parse_uint(v.as_str(), max) {
            Ok(n) => Ok(n),
            Err(kind) => Err(ConfigError::BadInteger { key, kind }),
        },
        None => Ok(default),
    }
}


/// The settings of a site that hold no floating-point value: model choices,
/// service intervals, endpoints and the Modbus and Home Assistant options.
#[derive(Debug, Clone)]
pub struct Settings {
    pub site_name: String,
    pub transposition: TranspositionModel,
    pub celltemp: CellTempModel,
    pub poll_interval_s: u64,
    pub solar_interval_s: u64,
    pub provider: String,
    pub openmeteo_base_url: String,
    pub openmeteo_api_key: Option<String>,
    pub http_bind: String,
    pub http_port: u16,
    pub modbus_enable: bool,
    pub modbus_bind: String,
    pub modbus_port: u16,
    pub modbus_unit_id: u8,
    pub modbus_word_order: WordOrder,
    pub modbus_holding_mirror: bool,
    pub ha_enable: bool,
    pub ha_mqtt_host: String,
    pub ha_mqtt_port: u16,
    pub ha_mqtt_username: Option<String>,
    pub ha_mqtt_password: Option<String>,
    pub ha_mqtt_client_id: String,
    pub ha_discovery_prefix: String,
    pub ha_node_id: String,
    pub ha_publish_interval_s: u64,
    pub default_theme: String,
    pub log_level: String,
}

/// The transposition model that `PVHUB_TRANSPOSITION` selects (default
/// `hay_davies`), or `None` for any other value.
pub open spec fn spec_transposition(env: EnvView) -> Option<TranspositionModel> {
    let v = spec_str_or(env, "PVHUB_TRANSPOSITION"@, "hay_davies"@);
    if v == "hay_davies"@ {
        Some(TranspositionModel::HayDavies)
    } else if v == "perez"@ {
        Some(TranspositionModel::Perez)
    } else {
        None
    }
}

/// The cell-temperature model that `PVHUB_CELLTEMP` selects (default
/// `faiman`), or `None` for any other value.
pub open spec fn spec_celltemp(env: EnvView) -> Option<CellTempModel> {
    let v = spec_str_or(env, "PVHUB_CELLTEMP"@, "faiman"@);
    if v == "faiman"@ {
        Some(CellTempModel::Faiman)
    } else if v == "noct"@ {
        Some(CellTempModel::Noct)
    } else {
        None
    }
}

/// The word order that `PVHUB_MODBUS_WORD_ORDER` selects (default `abcd`),
/// or `None` for any other value.
pub open spec fn spec_word_order(env: EnvView) -> Option<WordOrder> {
    let v = spec_str_or(env, "PVHUB_MODBUS_WORD_ORDER"@, "abcd"@);
    if v == "abcd"@ {
        Some(WordOrder::Abcd)
    } else if v == "cdab"@ {
        Some(WordOrder::Cdab)
    } else {
        None
    }
}

/// `PVHUB_POLL_INTERVAL_S` (default 600).
pub open spec fn spec_poll_interval_s(env: EnvView) -> Result<int, IntErrorKind> {
    spec_uint_or(env, "PVHUB_POLL_INTERVAL_S"@, 600, u64::MAX as int)
}

/// `PVHUB_SOLAR_INTERVAL_S` (default 60).
pub open spec fn spec_solar_interval_s(env: EnvView) -> Result<int, IntErrorKind> {
    spec_uint_or(env, "PVHUB_SOLAR_INTERVAL_S"@, 60, u64::MAX as int)
}

/// `PVHUB_HTTP_PORT` (default 8080).
pub open spec fn spec_http_port(env: EnvView) -> Result<int, IntErrorKind> {
    spec_uint_or(env, "PVHUB_HTTP_PORT"@, 8080, 65535 as int)
}

/// `PVHUB_MODBUS_PORT` (default 502).
pub open spec fn spec_modbus_port(env: EnvView) -> Result<int, IntErrorKind> {
    spec_uint_or(env, "PVHUB_MODBUS_PORT"@, 502, 65535 as int)
}

/// `PVHUB_MODBUS_UNIT_ID` (default 1).
pub open spec fn spec_modbus_unit_id(env: EnvView) -> Result<int, IntErrorKind> {
    spec_uint_or(env, "PVHUB_MODBUS_UNIT_ID"@, 1, 255 as int)
}

/// `PVHUB_HA_MQTT_PORT` (default 1883).
pub open spec fn spec_ha_mqtt_port(env: EnvView) -> Result<int, IntErrorKind> {
    spec_uint_or(env, "PVHUB_HA_MQTT_PORT"@, 1883, 65535 as int)
}

/// `PVHUB_HA_PUBLISH_INTERVAL_S` (default 30).
pub open spec fn spec_ha_publish_interval_s(env: EnvView) -> Result<int, IntErrorKind> {
    spec_uint_or(env, "PVHUB_HA_PUBLISH_INTERVAL_S"@, 30, u64::MAX as int)
}

/// The first reason, in the order the settings are read, to refuse `env`;
/// `None` when every setting is valid.
pub open spec fn settings_error(env: EnvView) -> Option<ConfigErrorView> {
    if spec_transposition(env) is None {
        Some(
            ConfigErrorView::InvalidChoice(
                "PVHUB_TRANSPOSITION"@,
                spec_str_or(env, "PVHUB_TRANSPOSITION"@, "hay_davies"@),
            ),
        )
    } else if spec_celltemp(env) is None {
        Some(
            ConfigErrorView::InvalidChoice(
                "PVHUB_CELLTEMP"@,
                spec_str_or(env, "PVHUB_CELLTEMP"@, "faiman"@),
            ),
        )
    } else if spec_word_order(env) is None {
        Some(
            ConfigErrorView::InvalidChoice(
                "PVHUB_MODBUS_WORD_ORDER"@,
                spec_str_or(env, "PVHUB_MODBUS_WORD_ORDER"@, "abcd"@),
            ),
        )
    } else if spec_poll_interval_s(env) is Err {
        Some(ConfigErrorView::BadInteger("PVHUB_POLL_INTERVAL_S"@, spec_poll_interval_s(env)->Err_0))
    } else if spec_solar_interval_s(env) is Err {
        Some(ConfigErrorView::BadInteger("PVHUB_SOLAR_INTERVAL_S"@, spec_solar_interval_s(env)->Err_0))
    } else if spec_http_port(env) is Err {
        Some(ConfigErrorView::BadInteger("PVHUB_HTTP_PORT"@, spec_http_port(env)->Err_0))
    } else if spec_modbus_port(env) is Err {
        Some(ConfigErrorView::BadInteger("PVHUB_MODBUS_PORT"@, spec_modbus_port(env)->Err_0))
    } else if spec_modbus_unit_id(env) is Err {
        Some(ConfigErrorView::BadInteger("PVHUB_MODBUS_UNIT_ID"@, spec_modbus_unit_id(env)->Err_0))
    } else if spec_ha_mqtt_port(env) is Err {
        Some(ConfigErrorView::BadInteger("PVHUB_HA_MQTT_PORT"@, spec_ha_mqtt_port(env)->Err_0))
    } else if spec_ha_publish_interval_s(env) is Err {
        Some(ConfigErrorView::BadInteger("PVHUB_HA_PUBLISH_INTERVAL_S"@, spec_ha_publish_interval_s(env)->Err_0))
    } else {
        None
    }
}

/// `s` holds exactly the settings that `env` gives.
pub open spec fn settings_match(s: Settings, env: EnvView) -> bool {
    &&& Some(s.transposition) == spec_transposition(env)
    &&& Some(s.celltemp) == spec_celltemp(env)
    &&& Some(s.modbus_word_order) == spec_word_order(env)
    &&& spec_poll_interval_s(env) == Ok::<int, IntErrorKind>(s.poll_interval_s as int)
    &&& spec_solar_interval_s(env) == Ok::<int, IntErrorKind>(s.solar_interval_s as int)
    &&& spec_http_port(env) == Ok::<int, IntErrorKind>(s.http_port as int)
    &&& spec_modbus_port(env) == Ok::<int, IntErrorKind>(s.modbus_port as int)
    &&& spec_modbus_unit_id(env) == Ok::<int, IntErrorKind>(s.modbus_unit_id as int)
    &&& spec_ha_mqtt_port(env) == Ok::<int, IntErrorKind>(s.ha_mqtt_port as int)
    &&& spec_ha_publish_interval_s(env) == Ok::<int, IntErrorKind>(s.ha_publish_interval_s as int)
    &&& s.site_name@ == spec_str_or(env, "PVHUB_SITE_NAME"@, "pv-hub"@)
    &&& s.provider@ == spec_str_or(env, "PVHUB_PROVIDER"@, "openmeteo"@)
    &&& s.openmeteo_base_url@ == spec_str_or(env, "PVHUB_OPENMETEO_BASE_URL"@, "https://api.open-meteo.com/v1/forecast"@)
    &&& s.http_bind@ == spec_str_or(env, "PVHUB_HTTP_BIND"@, "0.0.0.0"@)
    &&& s.modbus_bind@ == spec_str_or(env, "PVHUB_MODBUS_BIND"@, "0.0.0.0"@)
    &&& s.ha_mqtt_host@ == spec_str_or(env, "PVHUB_HA_MQTT_HOST"@, "localhost"@)
    &&& s.ha_mqtt_client_id@ == spec_str_or(env, "PVHUB_HA_MQTT_CLIENT_ID"@, "pvhub"@)
    &&& s.ha_discovery_prefix@ == spec_str_or(env, "PVHUB_HA_DISCOVERY_PREFIX"@, "homeassistant"@)
    &&& s.ha_node_id@ == spec_str_or(env, "PVHUB_HA_NODE_ID"@, "pvhub"@)
    &&& s.default_theme@ == spec_str_or(env, "PVHUB_DEFAULT_THEME"@, "auto"@)
    &&& s.log_level@ == spec_str_or(env, "PVHUB_LOG_LEVEL"@, "info"@)
    &&& s.modbus_enable == spec_bool_or(env, "PVHUB_MODBUS_ENABLE"@, true)
    &&& s.modbus_holding_mirror == spec_bool_or(env, "PVHUB_MODBUS_HOLDING_MIRROR"@, true)
    &&& s.ha_enable == spec_bool_or(env, "PVHUB_HA_ENABLE"@, false)
    &&& opt_view(s.openmeteo_api_key) == spec_lookup(env, "PVHUB_OPENMETEO_API_KEY"@)
    &&& opt_view(s.ha_mqtt_username) == spec_lookup(env, "PVHUB_HA_MQTT_USERNAME"@)
    &&& opt_view(s.ha_mqtt_password) == spec_lookup(env, "PVHUB_HA_MQTT_PASSWORD"@)
}

/// Read every setting that holds no floating-point value from `env`:
/// defaults for absent variables, the first invalid one (in reading order)
/// refused.
pub fn parse_settings(env: &Vec<(String, String)>) -> (res: Result<Settings, ConfigError>)
    ensures
        match res {
            Ok(s) => settings_error(env_view(env@)) is None && settings_match(s, env_view(env@)),
            Err(e) => settings_error(env_view(env@)) == Some(e@),
        },
{
    let t = str_or(env, "PVHUB_TRANSPOSITION", "hay_davies");
    let transposition = if crate::text::str_eq(t.as_str(), "hay_davies") {
        TranspositionModel::HayDavies
    } else if crate::text::str_eq(t.as_str(), "perez") {
        TranspositionModel::Perez
    } else {
        return Err(ConfigError::InvalidChoice { key: "PVHUB_TRANSPOSITION", value: t });
    };
    let c = str_or(env, "PVHUB_CELLTEMP", "faiman");
    let celltemp = if crate::text::str_eq(c.as_str(), "faiman") {
        CellTempModel::Faiman
    } else if crate::text::str_eq(c.as_str(), "noct") {
        CellTempModel::Noct
    } else {
        return Err(ConfigError::InvalidChoice { key: "PVHUB_CELLTEMP", value: c });
    };
    let w = str_or(env, "PVHUB_MODBUS_WORD_ORDER", "abcd");
    let modbus_word_order = if crate::text::str_eq(w.as_str(), "abcd") {
        WordOrder::Abcd
    } else if crate::text::str_eq(w.as_str(), "cdab") {
        WordOrder::Cdab
    } else {
        return Err(ConfigError::InvalidChoice { key: "PVHUB_MODBUS_WORD_ORDER", value: w });
    };
    let poll_interval_s = match uint_or(env, "PVHUB_POLL_INTERVAL_S", 600, u64::MAX) {
        Ok(v) => v as u64,
        Err(e) => return Err(e),
    };
    let solar_interval_s = match uint_or(env, "PVHUB_SOLAR_INTERVAL_S", 60, u64::MAX) {
        Ok(v) => v as u64,
        Err(e) => return Err(e),
    };
    let http_port = match uint_or(env, "PVHUB_HTTP_PORT", 8080, 65535) {
        Ok(v) => v as u16,
        Err(e) => return Err(e),
    };
    let modbus_port = match uint_or(env, "PVHUB_MODBUS_PORT", 502, 65535) {
        Ok(v) => v as u16,
        Err(e) => return Err(e),
    };
    let modbus_unit_id = match uint_or(env, "PVHUB_MODBUS_UNIT_ID", 1, 255) {
        Ok(v) => v as u8,
        Err(e) => return Err(e),
    };
    let ha_mqtt_port = match uint_or(env, "PVHUB_HA_MQTT_PORT", 1883, 65535) {
        Ok(v) => v as u16,
        Err(e) => return Err(e),
    };
    let ha_publish_interval_s = match uint_or(env, "PVHUB_HA_PUBLISH_INTERVAL_S", 30, u64::MAX) {
        Ok(v) => v as u64,
        Err(e) => return Err(e),
    };
    Ok(
        Settings {
            site_name: str_or(env, "PVHUB_SITE_NAME", "pv-hub"),
            transposition,
            celltemp,
            poll_interval_s,
            solar_interval_s,
            provider: str_or(env, "PVHUB_PROVIDER", "openmeteo"),
            openmeteo_base_url: str_or(env, "PVHUB_OPENMETEO_BASE_URL", "https://api.open-meteo.com/v1/forecast"),
            openmeteo_api_key: opt_string(env, "PVHUB_OPENMETEO_API_KEY"),
            http_bind: str_or(env, "PVHUB_HTTP_BIND", "0.0.0.0"),
            http_port,
            modbus_enable: bool_or(env, "PVHUB_MODBUS_ENABLE", true),
            modbus_bind: str_or(env, "PVHUB_MODBUS_BIND", "0.0.0.0"),
            modbus_port,
            modbus_unit_id,
            modbus_word_order,
            modbus_holding_mirror: bool_or(env, "PVHUB_MODBUS_HOLDING_MIRROR", true),
            ha_enable: bool_or(env, "PVHUB_HA_ENABLE", false),
            ha_mqtt_host: str_or(env, "PVHUB_HA_MQTT_HOST", "localhost"),
            ha_mqtt_port,
            ha_mqtt_username: opt_string(env, "PVHUB_HA_MQTT_USERNAME"),
            ha_mqtt_password: opt_string(env, "PVHUB_HA_MQTT_PASSWORD"),
            ha_mqtt_client_id: str_or(env, "PVHUB_HA_MQTT_CLIENT_ID", "pvhub"),
            ha_discovery_prefix: str_or(env, "PVHUB_HA_DISCOVERY_PREFIX", "homeassistant"),
            ha_node_id: str_or(env, "PVHUB_HA_NODE_ID", "pvhub"),
            ha_publish_interval_s,
            default_theme: str_or(env, "PVHUB_DEFAULT_THEME", "auto"),
            log_level: str_or(env, "PVHUB_LOG_LEVEL", "info"),
        },
    )
}


/// The ASCII digit for `d` (`0 <= d <= 9`).
pub open spec fn digit_char(d: int) -> char {
    (d + 48) as char
}

/// The decimal text of `n`, without sign or leading zeros.
pub open spec fn decimal(n: nat) -> Seq<char>
    decreases n,
{
    if n < 10 {
        seq![digit_char(n as int)]
    } else {
        decimal(n / 10).push(digit_char((n % 10) as int))
    }
}

proof fn lemma_digit_char(d: int)
    requires
        0 <= d <= 9,
    ensures
        is_digit(digit_char(d)),
        digit_value(digit_char(d)) == d,
        digit_char(d) != '+',
{
    assert((d + 48) as char as u32 == d + 48);
}

proof fn lemma_decimal_digits(n: nat, max: int)
    ensures
        n <= max ==> parse_digits(decimal(n), max) == Ok::<int, IntErrorKind>(n as int),
        n == max + 1 ==> parse_digits(decimal(n), max) == Err::<int, IntErrorKind>(
            IntErrorKind::PosOverflow,
        ),
        decimal(n).len() >= 1,
        is_digit(decimal(n)[0]),
    decreases n,
{
    let s = decimal(n);
    if n < 10 {
        lemma_digit_char(n as int);
        assert(s.drop_last() =~= Seq::<char>::empty());
        assert(s.last() == digit_char(n as int));
        assert(parse_digits(Seq::<char>::empty(), max) == Ok::<int, IntErrorKind>(0));
    } else {
        lemma_decimal_digits(n / 10, max);
        lemma_digit_char((n % 10) as int);
        assert(s.drop_last() =~= decimal(n / 10));
        assert(s.last() == digit_char((n % 10) as int));
        assert((n / 10) * 10 + n % 10 == n);
        assert(s[0] == decimal(n / 10)[0]);
    }
}

/// The decimal text of any value up to `max` reads back as that value.
pub proof fn law_decimal_roundtrip(n: nat, max: int)
    requires
        n <= max,
    ensures
        spec_parse_uint(decimal(n), max) == Ok::<int, IntErrorKind>(n as int),
{
    lemma_decimal_digits(n, max);
}

/// The decimal text of `max + 1` is refused as too large.
pub proof fn law_one_past_max_overflows(max: nat)
    ensures
        spec_parse_uint(decimal(max + 1), max as int) == Err::<int, IntErrorKind>(
            IntErrorKind::PosOverflow,
        ),
{
    lemma_decimal_digits((max + 1) as nat, max as int);
}

/// Each setting comes from its own variable: a present value is used (read
/// as a decimal integer, a flag that is on for `1`/`true`/`yes`/`on` in any
/// ASCII case, or a choice among two spellings), an absent one gives the
/// documented default (Modbus port 502, unit id 1, word order `abcd`, HTTP
/// port 8080, MQTT port 1883, poll interval 600 s, ...).
pub proof fn law_settings_from_variables(s: Settings, env: EnvView)
    requires
        settings_match(s, env),
    ensures
        s.transposition == TranspositionModel::HayDavies <==> (spec_lookup(env, "PVHUB_TRANSPOSITION"@) is None || spec_lookup(env, "PVHUB_TRANSPOSITION"@)
            == Some("hay_davies"@)),
        s.transposition == TranspositionModel::Perez <==> spec_lookup(env, "PVHUB_TRANSPOSITION"@) == Some("perez"@),
        s.celltemp == CellTempModel::Faiman <==> (spec_lookup(env, "PVHUB_CELLTEMP"@) is None || spec_lookup(env, "PVHUB_CELLTEMP"@)
            == Some("faiman"@)),
        s.celltemp == CellTempModel::Noct <==> spec_lookup(env, "PVHUB_CELLTEMP"@) == Some("noct"@),
        s.modbus_word_order == WordOrder::Abcd <==> (spec_lookup(env, "PVHUB_MODBUS_WORD_ORDER"@) is None || spec_lookup(env, "PVHUB_MODBUS_WORD_ORDER"@)
            == Some("abcd"@)),
        s.modbus_word_order == WordOrder::Cdab <==> spec_lookup(env, "PVHUB_MODBUS_WORD_ORDER"@) == Some("cdab"@),
        match spec_lookup(env, "PVHUB_POLL_INTERVAL_S"@) {
            None => s.poll_interval_s == 600,
            Some(v) => spec_parse_uint(v, u64::MAX as int) == Ok::<int, IntErrorKind>(s.poll_interval_s as int),
        },
        match spec_lookup(env, "PVHUB_SOLAR_INTERVAL_S"@) {
            None => s.solar_interval_s == 60,
            Some(v) => spec_parse_uint(v, u64::MAX as int) == Ok::<int, IntErrorKind>(s.solar_interval_s as int),
        },
        match spec_lookup(env, "PVHUB_HTTP_PORT"@) {
            None => s.http_port == 8080,
            Some(v) => spec_parse_uint(v, 65535 as int) == Ok::<int, IntErrorKind>(s.http_port as int),
        },
        match spec_lookup(env, "PVHUB_MODBUS_PORT"@) {
            None => s.modbus_port == 502,
            Some(v) => spec_parse_uint(v, 65535 as int) == Ok::<int, IntErrorKind>(s.modbus_port as int),
        },
        match spec_lookup(env, "PVHUB_MODBUS_UNIT_ID"@) {
            None => s.modbus_unit_id == 1,
            Some(v) => spec_parse_uint(v, 255 as int) == Ok::<int, IntErrorKind>(s.modbus_unit_id as int),
        },
        match spec_lookup(env, "PVHUB_HA_MQTT_PORT"@) {
            None => s.ha_mqtt_port == 1883,
            Some(v) => spec_parse_uint(v, 65535 as int) == Ok::<int, IntErrorKind>(s.ha_mqtt_port as int),
        },
        match spec_lookup(env, "PVHUB_HA_PUBLISH_INTERVAL_S"@) {
            None => s.ha_publish_interval_s == 30,
            Some(v) => spec_parse_uint(v, u64::MAX as int) == Ok::<int, IntErrorKind>(s.ha_publish_interval_s as int),
        },
        match spec_lookup(env, "PVHUB_SITE_NAME"@) {
            None => s.site_name@ == "pv-hub"@,
            Some(v) => s.site_name@ == v,
        },
        match spec_lookup(env, "PVHUB_PROVIDER"@) {
            None => s.provider@ == "openmeteo"@,
            Some(v) => s.provider@ == v,
        },
        match spec_lookup(env, "PVHUB_OPENMETEO_BASE_URL"@) {
            None => s.openmeteo_base_url@ == "https://api.open-meteo.com/v1/forecast"@,
            Some(v) => s.openmeteo_base_url@ == v,
        },
        match spec_lookup(env, "PVHUB_HTTP_BIND"@) {
            None => s.http_bind@ == "0.0.0.0"@,
            Some(v) => s.http_bind@ == v,
        },
        match spec_lookup(env, "PVHUB_MODBUS_BIND"@) {
            None => s.modbus_bind@ == "0.0.0.0"@,
            Some(v) => s.modbus_bind@ == v,
        },
        match spec_lookup(env, "PVHUB_HA_MQTT_HOST"@) {
            None => s.ha_mqtt_host@ == "localhost"@,
            Some(v) => s.ha_mqtt_host@ == v,
        },
        match spec_lookup(env, "PVHUB_HA_MQTT_CLIENT_ID"@) {
            None => s.ha_mqtt_client_id@ == "pvhub"@,
            Some(v) => s.ha_mqtt_client_id@ == v,
        },
        match spec_lookup(env, "PVHUB_HA_DISCOVERY_PREFIX"@) {
            None => s.ha_discovery_prefix@ == "homeassistant"@,
            Some(v) => s.ha_discovery_prefix@ == v,
        },
        match spec_lookup(env, "PVHUB_HA_NODE_ID"@) {
            None => s.ha_node_id@ == "pvhub"@,
            Some(v) => s.ha_node_id@ == v,
        },
        match spec_lookup(env, "PVHUB_DEFAULT_THEME"@) {
            None => s.default_theme@ == "auto"@,
            Some(v) => s.default_theme@ == v,
        },
        match spec_lookup(env, "PVHUB_LOG_LEVEL"@) {
            None => s.log_level@ == "info"@,
            Some(v) => s.log_level@ == v,
        },
        match spec_lookup(env, "PVHUB_MODBUS_ENABLE"@) {
            None => s.modbus_enable == true,
            Some(v) => s.modbus_enable == (crate::text::ascii_lower_seq(v) == "1"@ || crate::text::ascii_lower_seq(v) == "true"@
                || crate::text::ascii_lower_seq(v) == "yes"@ || crate::text::ascii_lower_seq(v) == "on"@),
        },
        match spec_lookup(env, "PVHUB_MODBUS_HOLDING_MIRROR"@) {
            None => s.modbus_holding_mirror == true,
            Some(v) => s.modbus_holding_mirror == (crate::text::ascii_lower_seq(v) == "1"@ || crate::text::ascii_lower_seq(v) == "true"@
                || crate::text::ascii_lower_seq(v) == "yes"@ || crate::text::ascii_lower_seq(v) == "on"@),
        },
        match spec_lookup(env, "PVHUB_HA_ENABLE"@) {
            None => s.ha_enable == false,
            Some(v) => s.ha_enable == (crate::text::ascii_lower_seq(v) == "1"@ || crate::text::ascii_lower_seq(v) == "true"@
                || crate::text::ascii_lower_seq(v) == "yes"@ || crate::text::ascii_lower_seq(v) == "on"@),
        },
        match spec_lookup(env, "PVHUB_OPENMETEO_API_KEY"@) {
            None => s.openmeteo_api_key is None,
            Some(v) => s.openmeteo_api_key is Some && s.openmeteo_api_key->Some_0@ == v,
        },
        match spec_lookup(env, "PVHUB_HA_MQTT_USERNAME"@) {
            None => s.ha_mqtt_username is None,
            Some(v) => s.ha_mqtt_username is Some && s.ha_mqtt_username->Some_0@ == v,
        },
        match spec_lookup(env, "PVHUB_HA_MQTT_PASSWORD"@) {
            None => s.ha_mqtt_password is None,
            Some(v) => s.ha_mqtt_password is Some && s.ha_mqtt_password->Some_0@ == v,
        },
{
    reveal_strlit("hay_davies");
    reveal_strlit("perez");
    reveal_strlit("faiman");
    reveal_strlit("noct");
    reveal_strlit("abcd");
    reveal_strlit("cdab");
    assert("hay_davies"@.len() != "perez"@.len());
    assert("faiman"@.len() != "noct"@.len());
    assert("abcd"@[0] != "cdab"@[0]);
}

/// The environment is refused exactly when a choice variable holds another
/// spelling than its two, or an integer variable does not read as a decimal
/// of its size; the error names the first such variable in reading order
/// (transposition, cell model, word order, poll interval, solar interval,
/// HTTP port, Modbus port, unit id, MQTT port, publish interval) with its
/// value or the reason.
pub proof fn law_settings_refusal(env: EnvView)
    ensures
        settings_error(env) is None <==> (
            (spec_lookup(env, "PVHUB_TRANSPOSITION"@) is None || spec_lookup(env, "PVHUB_TRANSPOSITION"@) == Some("hay_davies"@) || spec_lookup(env, "PVHUB_TRANSPOSITION"@) == Some("perez"@))
            && (spec_lookup(env, "PVHUB_CELLTEMP"@) is None || spec_lookup(env, "PVHUB_CELLTEMP"@) == Some("faiman"@) || spec_lookup(env, "PVHUB_CELLTEMP"@) == Some("noct"@))
            && (spec_lookup(env, "PVHUB_MODBUS_WORD_ORDER"@) is None || spec_lookup(env, "PVHUB_MODBUS_WORD_ORDER"@) == Some("abcd"@) || spec_lookup(env, "PVHUB_MODBUS_WORD_ORDER"@) == Some("cdab"@))
            && (spec_lookup(env, "PVHUB_POLL_INTERVAL_S"@) is None || spec_parse_uint(spec_lookup(env, "PVHUB_POLL_INTERVAL_S"@)->Some_0, u64::MAX as int) is Ok)
            && (spec_lookup(env, "PVHUB_SOLAR_INTERVAL_S"@) is None || spec_parse_uint(spec_lookup(env, "PVHUB_SOLAR_INTERVAL_S"@)->Some_0, u64::MAX as int) is Ok)
            && (spec_lookup(env, "PVHUB_HTTP_PORT"@) is None || spec_parse_uint(spec_lookup(env, "PVHUB_HTTP_PORT"@)->Some_0, 65535 as int) is Ok)
            && (spec_lookup(env, "PVHUB_MODBUS_PORT"@) is None || spec_parse_uint(spec_lookup(env, "PVHUB_MODBUS_PORT"@)->Some_0, 65535 as int) is Ok)
            && (spec_lookup(env, "PVHUB_MODBUS_UNIT_ID"@) is None || spec_parse_uint(spec_lookup(env, "PVHUB_MODBUS_UNIT_ID"@)->Some_0, 255 as int) is Ok)
            && (spec_lookup(env, "PVHUB_HA_MQTT_PORT"@) is None || spec_parse_uint(spec_lookup(env, "PVHUB_HA_MQTT_PORT"@)->Some_0, 65535 as int) is Ok)
            && (spec_lookup(env, "PVHUB_HA_PUBLISH_INTERVAL_S"@) is None || spec_parse_uint(spec_lookup(env, "PVHUB_HA_PUBLISH_INTERVAL_S"@)->Some_0, u64::MAX as int) is Ok)
        ),
        (true) && !(spec_lookup(env, "PVHUB_TRANSPOSITION"@) is None || spec_lookup(env, "PVHUB_TRANSPOSITION"@) == Some("hay_davies"@) || spec_lookup(env, "PVHUB_TRANSPOSITION"@) == Some("perez"@)) ==> settings_error(env) == Some(
            ConfigErrorView::InvalidChoice("PVHUB_TRANSPOSITION"@, spec_lookup(env, "PVHUB_TRANSPOSITION"@)->Some_0),
        ),
        ((spec_lookup(env, "PVHUB_TRANSPOSITION"@) is None || spec_lookup(env, "PVHUB_TRANSPOSITION"@) == Some("hay_davies"@) || spec_lookup(env, "PVHUB_TRANSPOSITION"@) == Some("perez"@))) && !(spec_lookup(env, "PVHUB_CELLTEMP"@) is None || spec_lookup(env, "PVHUB_CELLTEMP"@) == Some("faiman"@) || spec_lookup(env, "PVHUB_CELLTEMP"@) == Some("noct"@)) ==> settings_error(env) == Some(
            ConfigErrorView::InvalidChoice("PVHUB_CELLTEMP"@, spec_lookup(env, "PVHUB_CELLTEMP"@)->Some_0),
        ),
        ((spec_lookup(env, "PVHUB_TRANSPOSITION"@) is None || spec_lookup(env, "PVHUB_TRANSPOSITION"@) == Some("hay_davies"@) || spec_lookup(env, "PVHUB_TRANSPOSITION"@) == Some("perez"@)) && (spec_lookup(env, "PVHUB_CELLTEMP"@) is None || spec_lookup(env, "PVHUB_CELLTEMP"@) == Some("faiman"@) || spec_lookup(env, "PVHUB_CELLTEMP"@) == Some("noct"@))) && !(spec_lookup(env, "PVHUB_MODBUS_WORD_ORDER"@) is None || spec_lookup(env, "PVHUB_MODBUS_WORD_ORDER"@) == Some("abcd"@) || spec_lookup(env, "PVHUB_MODBUS_WORD_ORDER"@) == Some("cdab"@)) ==> settings_error(env) == Some(
            ConfigErrorView::InvalidChoice("PVHUB_MODBUS_WORD_ORDER"@, spec_lookup(env, "PVHUB_MODBUS_WORD_ORDER"@)->Some_0),
        ),
        ((spec_lookup(env, "PVHUB_TRANSPOSITION"@) is None || spec_lookup(env, "PVHUB_TRANSPOSITION"@) == Some("hay_davies"@) || spec_lookup(env, "PVHUB_TRANSPOSITION"@) == Some("perez"@)) && (spec_lookup(env, "PVHUB_CELLTEMP"@) is None || spec_lookup(env, "PVHUB_CELLTEMP"@) == Some("faiman"@) || spec_lookup(env, "PVHUB_CELLTEMP"@) == Some("noct"@)) && (spec_lookup(env, "PVHUB_MODBUS_WORD_ORDER"@) is None || spec_lookup(env, "PVHUB_MODBUS_WORD_ORDER"@) == Some("abcd"@) || spec_lookup(env, "PVHUB_MODBUS_WORD_ORDER"@) == Some("cdab"@))) && !(spec_lookup(env, "PVHUB_POLL_INTERVAL_S"@) is None || spec_parse_uint(spec_lookup(env, "PVHUB_POLL_INTERVAL_S"@)->Some_0, u64::MAX as int) is Ok) ==> settings_error(env) == Some(
            ConfigErrorView::BadInteger("PVHUB_POLL_INTERVAL_S"@, spec_parse_uint(spec_lookup(env, "PVHUB_POLL_INTERVAL_S"@)->Some_0, u64::MAX as int)->Err_0),
        ),
        ((spec_lookup(env, "PVHUB_TRANSPOSITION"@) is None || spec_lookup(env, "PVHUB_TRANSPOSITION"@) == Some("hay_davies"@) || spec_lookup(env, "PVHUB_TRANSPOSITION"@) == Some("perez"@)) && (spec_lookup(env, "PVHUB_CELLTEMP"@) is None || spec_lookup(env, "PVHUB_CELLTEMP"@) == Some("faiman"@) || spec_lookup(env, "PVHUB_CELLTEMP"@) == Some("noct"@)) && (spec_lookup(env, "PVHUB_MODBUS_WORD_ORDER"@) is None || spec_lookup(env, "PVHUB_MODBUS_WORD_ORDER"@) == Some("abcd"@) || spec_lookup(env, "PVHUB_MODBUS_WORD_ORDER"@) == Some("cdab"@)) && (spec_lookup(env, "PVHUB_POLL_INTERVAL_S"@) is None || spec_parse_uint(spec_lookup(env, "PVHUB_POLL_INTERVAL_S"@)->Some_0, u64::MAX as int) is Ok)) && !(spec_lookup(env, "PVHUB_SOLAR_INTERVAL_S"@) is None || spec_parse_uint(spec_lookup(env, "PVHUB_SOLAR_INTERVAL_S"@)->Some_0, u64::MAX as int) is Ok) ==> settings_error(env) == Some(
            ConfigErrorView::BadInteger("PVHUB_SOLAR_INTERVAL_S"@, spec_parse_uint(spec_lookup(env, "PVHUB_SOLAR_INTERVAL_S"@)->Some_0, u64::MAX as int)->Err_0),
        ),
        ((spec_lookup(env, "PVHUB_TRANSPOSITION"@) is None || spec_lookup(env, "PVHUB_TRANSPOSITION"@) == Some("hay_davies"@) || spec_lookup(env, "PVHUB_TRANSPOSITION"@) == Some("perez"@)) && (spec_lookup(env, "PVHUB_CELLTEMP"@) is None || spec_lookup(env, "PVHUB_CELLTEMP"@) == Some("faiman"@) || spec_lookup(env, "PVHUB_CELLTEMP"@) == Some("noct"@)) && (spec_lookup(env, "PVHUB_MODBUS_WORD_ORDER"@) is None || spec_lookup(env, "PVHUB_MODBUS_WORD_ORDER"@) == Some("abcd"@) || spec_lookup(env, "PVHUB_MODBUS_WORD_ORDER"@) == Some("cdab"@)) && (spec_lookup(env, "PVHUB_POLL_INTERVAL_S"@) is None || spec_parse_uint(spec_lookup(env, "PVHUB_POLL_INTERVAL_S"@)->Some_0, u64::MAX as int) is Ok) && (spec_lookup(env, "PVHUB_SOLAR_INTERVAL_S"@) is None || spec_parse_uint(spec_lookup(env, "PVHUB_SOLAR_INTERVAL_S"@)->Some_0, u64::MAX as int) is Ok)) && !(spec_lookup(env, "PVHUB_HTTP_PORT"@) is None || spec_parse_uint(spec_lookup(env, "PVHUB_HTTP_PORT"@)->Some_0, 65535 as int) is Ok) ==> settings_error(env) == Some(
            ConfigErrorView::BadInteger("PVHUB_HTTP_PORT"@, spec_parse_uint(spec_lookup(env, "PVHUB_HTTP_PORT"@)->Some_0, 65535 as int)->Err_0),
        ),
        ((spec_lookup(env, "PVHUB_TRANSPOSITION"@) is None || spec_lookup(env, "PVHUB_TRANSPOSITION"@) == Some("hay_davies"@) || spec_lookup(env, "PVHUB_TRANSPOSITION"@) == Some("perez"@)) && (spec_lookup(env, "PVHUB_CELLTEMP"@) is None || spec_lookup(env, "PVHUB_CELLTEMP"@) == Some("faiman"@) || spec_lookup(env, "PVHUB_CELLTEMP"@) == Some("noct"@)) && (spec_lookup(env, "PVHUB_MODBUS_WORD_ORDER"@) is None || spec_lookup(env, "PVHUB_MODBUS_WORD_ORDER"@) == Some("abcd"@) || spec_lookup(env, "PVHUB_MODBUS_WORD_ORDER"@) == Some("cdab"@)) && (spec_lookup(env, "PVHUB_POLL_INTERVAL_S"@) is None || spec_parse_uint(spec_lookup(env, "PVHUB_POLL_INTERVAL_S"@)->Some_0, u64::MAX as int) is Ok) && (spec_lookup(env, "PVHUB_SOLAR_INTERVAL_S"@) is None || spec_parse_uint(spec_lookup(env, "PVHUB_SOLAR_INTERVAL_S"@)->Some_0, u64::MAX as int) is Ok) && (spec_lookup(env, "PVHUB_HTTP_PORT"@) is None || spec_parse_uint(spec_lookup(env, "PVHUB_HTTP_PORT"@)->Some_0, 65535 as int) is Ok)) && !(spec_lookup(env, "PVHUB_MODBUS_PORT"@) is None || spec_parse_uint(spec_lookup(env, "PVHUB_MODBUS_PORT"@)->Some_0, 65535 as int) is Ok) ==> settings_error(env) == Some(
            ConfigErrorView::BadInteger("PVHUB_MODBUS_PORT"@, spec_parse_uint(spec_lookup(env, "PVHUB_MODBUS_PORT"@)->Some_0, 65535 as int)->Err_0),
        ),
        ((spec_lookup(env, "PVHUB_TRANSPOSITION"@) is None || spec_lookup(env, "PVHUB_TRANSPOSITION"@) == Some("hay_davies"@) || spec_lookup(env, "PVHUB_TRANSPOSITION"@) == Some("perez"@)) && (spec_lookup(env, "PVHUB_CELLTEMP"@) is None || spec_lookup(env, "PVHUB_CELLTEMP"@) == Some("faiman"@) || spec_lookup(env, "PVHUB_CELLTEMP"@) == Some("noct"@)) && (spec_lookup(env, "PVHUB_MODBUS_WORD_ORDER"@) is None || spec_lookup(env, "PVHUB_MODBUS_WORD_ORDER"@) == Some("abcd"@) || spec_lookup(env, "PVHUB_MODBUS_WORD_ORDER"@) == Some("cdab"@)) && (spec_lookup(env, "PVHUB_POLL_INTERVAL_S"@) is None || spec_parse_uint(spec_lookup(env, "PVHUB_POLL_INTERVAL_S"@)->Some_0, u64::MAX as int) is Ok) && (spec_lookup(env, "PVHUB_SOLAR_INTERVAL_S"@) is None || spec_parse_uint(spec_lookup(env, "PVHUB_SOLAR_INTERVAL_S"@)->Some_0, u64::MAX as int) is Ok) && (spec_lookup(env, "PVHUB_HTTP_PORT"@) is None || spec_parse_uint(spec_lookup(env, "PVHUB_HTTP_PORT"@)->Some_0, 65535 as int) is Ok) && (spec_lookup(env, "PVHUB_MODBUS_PORT"@) is None || spec_parse_uint(spec_lookup(env, "PVHUB_MODBUS_PORT"@)->Some_0, 65535 as int) is Ok)) && !(spec_lookup(env, "PVHUB_MODBUS_UNIT_ID"@) is None || spec_parse_uint(spec_lookup(env, "PVHUB_MODBUS_UNIT_ID"@)->Some_0, 255 as int) is Ok) ==> settings_error(env) == Some(
            ConfigErrorView::BadInteger("PVHUB_MODBUS_UNIT_ID"@, spec_parse_uint(spec_lookup(env, "PVHUB_MODBUS_UNIT_ID"@)->Some_0, 255 as int)->Err_0),
        ),
        ((spec_lookup(env, "PVHUB_TRANSPOSITION"@) is None || spec_lookup(env, "PVHUB_TRANSPOSITION"@) == Some("hay_davies"@) || spec_lookup(env, "PVHUB_TRANSPOSITION"@) == Some("perez"@)) && (spec_lookup(env, "PVHUB_CELLTEMP"@) is None || spec_lookup(env, "PVHUB_CELLTEMP"@) == Some("faiman"@) || spec_lookup(env, "PVHUB_CELLTEMP"@) == Some("noct"@)) && (spec_lookup(env, "PVHUB_MODBUS_WORD_ORDER"@) is None || spec_lookup(env, "PVHUB_MODBUS_WORD_ORDER"@) == Some("abcd"@) || spec_lookup(env, "PVHUB_MODBUS_WORD_ORDER"@) == Some("cdab"@)) && (spec_lookup(env, "PVHUB_POLL_INTERVAL_S"@) is None || spec_parse_uint(spec_lookup(env, "PVHUB_POLL_INTERVAL_S"@)->Some_0, u64::MAX as int) is Ok) && (spec_lookup(env, "PVHUB_SOLAR_INTERVAL_S"@) is None || spec_parse_uint(spec_lookup(env, "PVHUB_SOLAR_INTERVAL_S"@)->Some_0, u64::MAX as int) is Ok) && (spec_lookup(env, "PVHUB_HTTP_PORT"@) is None || spec_parse_uint(spec_lookup(env, "PVHUB_HTTP_PORT"@)->Some_0, 65535 as int) is Ok) && (spec_lookup(env, "PVHUB_MODBUS_PORT"@) is None || spec_parse_uint(spec_lookup(env, "PVHUB_MODBUS_PORT"@)->Some_0, 65535 as int) is Ok) && (spec_lookup(env, "PVHUB_MODBUS_UNIT_ID"@) is None || spec_parse_uint(spec_lookup(env, "PVHUB_MODBUS_UNIT_ID"@)->Some_0, 255 as int) is Ok)) && !(spec_lookup(env, "PVHUB_HA_MQTT_PORT"@) is None || spec_parse_uint(spec_lookup(env, "PVHUB_HA_MQTT_PORT"@)->Some_0, 65535 as int) is Ok) ==> settings_error(env) == Some(
            ConfigErrorView::BadInteger("PVHUB_HA_MQTT_PORT"@, spec_parse_uint(spec_lookup(env, "PVHUB_HA_MQTT_PORT"@)->Some_0, 65535 as int)->Err_0),
        ),
        ((spec_lookup(env, "PVHUB_TRANSPOSITION"@) is None || spec_lookup(env, "PVHUB_TRANSPOSITION"@) == Some("hay_davies"@) || spec_lookup(env, "PVHUB_TRANSPOSITION"@) == Some("perez"@)) && (spec_lookup(env, "PVHUB_CELLTEMP"@) is None || spec_lookup(env, "PVHUB_CELLTEMP"@) == Some("faiman"@) || spec_lookup(env, "PVHUB_CELLTEMP"@) == Some("noct"@)) && (spec_lookup(env, "PVHUB_MODBUS_WORD_ORDER"@) is None || spec_lookup(env, "PVHUB_MODBUS_WORD_ORDER"@) == Some("abcd"@) || spec_lookup(env, "PVHUB_MODBUS_WORD_ORDER"@) == Some("cdab"@)) && (spec_lookup(env, "PVHUB_POLL_INTERVAL_S"@) is None || spec_parse_uint(spec_lookup(env, "PVHUB_POLL_INTERVAL_S"@)->Some_0, u64::MAX as int) is Ok) && (spec_lookup(env, "PVHUB_SOLAR_INTERVAL_S"@) is None || spec_parse_uint(spec_lookup(env, "PVHUB_SOLAR_INTERVAL_S"@)->Some_0, u64::MAX as int) is Ok) && (spec_lookup(env, "PVHUB_HTTP_PORT"@) is None || spec_parse_uint(spec_lookup(env, "PVHUB_HTTP_PORT"@)->Some_0, 65535 as int) is Ok) && (spec_lookup(env, "PVHUB_MODBUS_PORT"@) is None || spec_parse_uint(spec_lookup(env, "PVHUB_MODBUS_PORT"@)->Some_0, 65535 as int) is Ok) && (spec_lookup(env, "PVHUB_MODBUS_UNIT_ID"@) is None || spec_parse_uint(spec_lookup(env, "PVHUB_MODBUS_UNIT_ID"@)->Some_0, 255 as int) is Ok) && (spec_lookup(env, "PVHUB_HA_MQTT_PORT"@) is None || spec_parse_uint(spec_lookup(env, "PVHUB_HA_MQTT_PORT"@)->Some_0, 65535 as int) is Ok)) && !(spec_lookup(env, "PVHUB_HA_PUBLISH_INTERVAL_S"@) is None || spec_parse_uint(spec_lookup(env, "PVHUB_HA_PUBLISH_INTERVAL_S"@)->Some_0, u64::MAX as int) is Ok) ==> settings_error(env) == Some(
            ConfigErrorView::BadInteger("PVHUB_HA_PUBLISH_INTERVAL_S"@, spec_parse_uint(spec_lookup(env, "PVHUB_HA_PUBLISH_INTERVAL_S"@)->Some_0, u64::MAX as int)->Err_0),
        ),
{
}

/// `z` ASCII zeros.
pub open spec fn zeros(z: nat) -> Seq<char> {
    Seq::new(z, |i: int| '0')
}

/// The digits of a number's text: without its leading `+`, if any.
pub open spec fn unsigned_part(s: Seq<char>) -> Seq<char> {
    if s.len() > 0 && s[0] == '+' {
        s.drop_first()
    } else {
        s
    }
}

proof fn lemma_digit_roundtrip(c: char)
    requires
        '0' <= c <= '9',
    ensures
        0 <= digit_value(c) <= 9,
        digit_char(digit_value(c)) == c,
{
    assert(((c as u32 - 48) + 48) as char == c);
}

proof fn lemma_parse_zeros(z: nat, max: int)
    requires
        max >= 0,
    ensures
        parse_digits(zeros(z), max) == Ok::<int, IntErrorKind>(0),
    decreases z,
{
    if z > 0 {
        lemma_parse_zeros((z - 1) as nat, max);
        assert(zeros(z).drop_last() =~= zeros((z - 1) as nat));
    } else {
        assert(zeros(z) =~= Seq::<char>::empty());
    }
}

proof fn lemma_parse_zero_prefix(z: nat, t: Seq<char>, max: int)
    requires
        max >= 0,
    ensures
        parse_digits(zeros(z) + t, max) == parse_digits(t, max),
    decreases t.len(),
{
    if t.len() == 0 {
        assert(zeros(z) + t =~= zeros(z));
        lemma_parse_zeros(z, max);
    } else {
        lemma_parse_zero_prefix(z, t.drop_last(), max);
        assert((zeros(z) + t).drop_last() =~= zeros(z) + t.drop_last());
        assert((zeros(z) + t).last() == t.last());
    }
}

proof fn lemma_decimal_over(n: nat, max: int)
    requires
        0 <= max < n,
    ensures
        parse_digits(decimal(n), max) == Err::<int, IntErrorKind>(IntErrorKind::PosOverflow),
    decreases n,
{
    let s = decimal(n);
    if n < 10 {
        lemma_digit_char(n as int);
        assert(s.drop_last() =~= Seq::<char>::empty());
        assert(s.last() == digit_char(n as int));
    } else {
        lemma_digit_char((n % 10) as int);
        assert(s.drop_last() =~= decimal(n / 10));
        assert(s.last() == digit_char((n % 10) as int));
        assert((n / 10) * 10 + n % 10 == n);
        if n / 10 <= max {
            lemma_decimal_digits(n / 10, max);
        } else {
            lemma_decimal_over(n / 10, max);
        }
    }
}

proof fn lemma_parse_shape(d: Seq<char>, max: int) -> (z: nat)
    requires
        d.len() >= 1,
        parse_digits(d, max) is Ok,
    ensures
        0 <= parse_digits(d, max)->Ok_0 <= max,
        d == zeros(z) + decimal(parse_digits(d, max)->Ok_0 as nat),
        forall|i: int| 0 <= i < d.len() ==> '0' <= #[trigger] d[i] <= '9',
    decreases d.len(),
{
    let prev = d.drop_last();
    let c = d.last();
    let n = parse_digits(d, max)->Ok_0;
    lemma_digit_roundtrip(c);
    let v = digit_value(c);
    if prev.len() == 0 {
        assert(n == v);
        assert(decimal(n as nat) =~= seq![c]);
        assert(d =~= zeros(0) + decimal(n as nat));
        0
    } else {
        let zp = lemma_parse_shape(prev, max);
        let np = parse_digits(prev, max)->Ok_0;
        assert(n == np * 10 + v);
        assert(forall|i: int| 0 <= i < prev.len() ==> prev[i] == d[i]);
        if np == 0 {
            assert(decimal(0) =~= seq!['0']);
            assert(prev =~= zeros(zp + 1));
            assert(decimal(n as nat) =~= seq![c]);
            assert(d =~= zeros(zp + 1) + decimal(n as nat));
            zp + 1
        } else {
            assert(n / 10 == np && n % 10 == v);
            assert(decimal(n as nat) =~= decimal(np as nat).push(c));
            assert(d =~= zeros(zp) + decimal(n as nat));
            zp
        }
    }
}

/// A number's text is accepted exactly when, after an optional leading `+`,
/// it is decimal digits only (at least one) of value at most `max`: any
/// accepted text is some zeros followed by the decimal text of its value.
pub proof fn law_parse_uint_accepts_only_decimals(s: Seq<char>, max: int)
    requires
        max >= 0,
    ensures
        spec_parse_uint(s, max) matches Ok(n) ==> {
            &&& 0 <= n <= max
            &&& unsigned_part(s).len() >= 1
            &&& forall|i: int|
                0 <= i < unsigned_part(s).len() ==> '0' <= #[trigger] unsigned_part(s)[i] <= '9'
            &&& exists|z: nat| unsigned_part(s) == zeros(z) + decimal(n as nat)
        },
        s.len() == 0 ==> spec_parse_uint(s, max) == Err::<int, IntErrorKind>(IntErrorKind::Empty),
        s == seq!['+'] || s == seq!['-'] ==> spec_parse_uint(s, max) == Err::<int, IntErrorKind>(
            IntErrorKind::InvalidDigit,
        ),
{
    if spec_parse_uint(s, max) is Ok {
        let d = unsigned_part(s);
        assert(spec_parse_uint(s, max) == parse_digits(d, max));
        if d.len() == 0 {
            assert(s =~= seq!['+']);
        }
        let z = lemma_parse_shape(d, max);
    }
}

/// Decimal digits, with any number of leading zeros and an optional leading
/// `+`, read as their value when it is at most `max`, and are refused as too
/// large otherwise.
pub proof fn law_parse_uint_reads_decimals(plus: bool, z: nat, n: nat, max: int)
    requires
        max >= 0,
    ensures
        ({
            let text = if plus {
                seq!['+'] + zeros(z) + decimal(n)
            } else {
                zeros(z) + decimal(n)
            };
            &&& n <= max ==> spec_parse_uint(text, max) == Ok::<int, IntErrorKind>(n as int)
            &&& n > max ==> spec_parse_uint(text, max) == Err::<int, IntErrorKind>(
                IntErrorKind::PosOverflow,
            )
        }),
{
    let t = zeros(z) + decimal(n);
    lemma_decimal_digits(n, max);
    lemma_parse_zero_prefix(z, decimal(n), max);
    if n > max {
        lemma_decimal_over(n, max);
    }
    assert(t.len() >= 1);
    assert(t[0] != '+' && t[0] != '-') by {
        if z > 0 {
            assert(t[0] == '0');
        } else {
            assert(t[0] == decimal(n)[0]);
        }
    }
    assert(spec_parse_uint(t, max) == parse_digits(t, max));
    assert(parse_digits(t, max) == parse_digits(decimal(n), max));
    if plus {
        let text = seq!['+'] + zeros(z) + decimal(n);
        assert(text =~= seq!['+'] + t);
        assert(text.drop_first() =~= t);
        assert(text.len() >= 2);
        assert(spec_parse_uint(text, max) == parse_digits(t, max));
    }
}

/// Looking a name up finds the value of the first entry with that name, and
/// finds nothing exactly when no entry has that name.
pub proof fn law_lookup_first_entry(env: EnvView, key: Seq<char>)
    ensures
        spec_lookup(env, key) is None <==> (forall|i: int| 0 <= i < env.len() ==> #[trigger] env[i].0 != key),
        spec_lookup(env, key) matches Some(v) ==> exists|i: int|
            0 <= i < env.len() && #[trigger] env[i] == (key, v) && (forall|k: int|
                0 <= k < i ==> env[k].0 != key),
    decreases env.len(),
{
    if env.len() > 0 {
        law_lookup_first_entry(env.drop_first(), key);
        if env[0].0 != key {
            assert forall|i: int| 1 <= i < env.len() implies env[i] == env.drop_first()[i - 1] by {}
            if spec_lookup(env, key) is None {
                assert forall|i: int| 0 <= i < env.len() implies #[trigger] env[i].0 != key by {
                    if i > 0 {
                        assert(env.drop_first()[i - 1].0 != key);
                    }
                }
            } else {
                let v = spec_lookup(env, key)->Some_0;
                let j = choose|j: int|
                    0 <= j < env.drop_first().len() && #[trigger] env.drop_first()[j] == (key, v)
                        && (forall|k: int| 0 <= k < j ==> env.drop_first()[k].0 != key);
                assert(env[j + 1] == (key, v));
                assert forall|k: int| 0 <= k < j + 1 implies env[k].0 != key by {
                    if k > 0 {
                        assert(env.drop_first()[k - 1].0 != key);
                    }
                }
            }
            if forall|i: int| 0 <= i < env.len() ==> #[trigger] env[i].0 != key {
                assert forall|i: int| 0 <= i < env.drop_first().len() implies #[trigger] env.drop_first()[i].0 != key by {
                    assert(env[i + 1].0 != key);
                }
            }
        } else {
            assert(env[0] == (key, env[0].1));
        }
    }
}

/// The message of a refused choice is `<key> invalid: <value>`; that of a
/// bad integer is `<key>: ` followed by the standard library's text for the
/// reason.
pub proof fn law_error_messages(key: Seq<char>, value: Seq<char>)
    ensures
        error_message(ConfigErrorView::InvalidChoice(key, value)) == key + " invalid: "@ + value,
        error_message(ConfigErrorView::BadInteger(key, IntErrorKind::Empty)) == key + ": "@
            + "cannot parse integer from empty string"@,
        error_message(ConfigErrorView::BadInteger(key, IntErrorKind::InvalidDigit)) == key
            + ": "@ + "invalid digit found in string"@,
        error_message(ConfigErrorView::BadInteger(key, IntErrorKind::PosOverflow)) == key
            + ": "@ + "number too large to fit in target type"@,
{
}

/// The decimal text of `n` ends with the ASCII digit of `n % 10`, preceded by
/// the text of `n / 10` when `n >= 10` and by nothing otherwise.
pub proof fn law_decimal_text(n: nat)
    ensures
        decimal(n).len() >= 1,
        decimal(n).last() as u32 == 48 + n % 10,
        n < 10 ==> decimal(n).len() == 1,
        n >= 10 ==> decimal(n).drop_last() == decimal(n / 10),
{
    lemma_digit_char((n % 10) as int);
    assert(((n % 10) + 48) as char as u32 == 48 + n % 10);
    if n >= 10 {
        assert(decimal(n).drop_last() =~= decimal(n / 10));
    }
}

} // verus!

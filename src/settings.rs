use vstd::prelude::*;
use crate::document::{
    error_under, error_under_key, fail, find_key, lookup, new_error, opt_bool, opt_bool_spec, opt_key,
    opt_key_spec, opt_str_view, req_bool, req_bool_spec, req_str, req_str_spec, str_eq, under,
    under_key, DecodeError, DecodeReason, ErrorView, PathSegment, ReasonView, SegView, TomlEntry,
    TomlValue, ValueKind,
};

verus! {

broadcast use vstd::std_specs::vec::axiom_vec_index_decreases;

/// Verbosity of the diagnostic log, least verbose first.
#[derive(Clone, Copy, Debug, PartialEq, Eq, Structural)]
pub enum LogLevel {
    Off,
    Error,
    Warn,
    Info,
    Debug,
    Trace,
}

impl LogLevel {
    pub open spec fn rank(self) -> int {
        match self {
            LogLevel::Off => 0,
            LogLevel::Error => 1,
            LogLevel::Warn => 2,
            LogLevel::Info => 3,
            LogLevel::Debug => 4,
            LogLevel::Trace => 5,
        }
    }

    pub fn verbosity(self) -> (r: u8)
        ensures
            r as int == self.rank(),
    {
        match self {
            LogLevel::Off => 0,
            LogLevel::Error => 1,
            LogLevel::Warn => 2,
            LogLevel::Info => 3,
            LogLevel::Debug => 4,
            LogLevel::Trace => 5,
        }
    }
}

pub open spec fn ascii_lower(c: char) -> char {
    if 'A' <= c <= 'Z' {
        ((c as u32) + 32) as char
    } else {
        c
    }
}

pub open spec fn eq_ignore_ascii_case(a: Seq<char>, b: Seq<char>) -> bool {
    a.len() == b.len() && forall|i: int| 0 <= i < a.len() ==> ascii_lower(#[trigger] a[i]) == ascii_lower(b[i])
}

pub open spec fn all_digits(s: Seq<char>) -> bool {
    s.len() > 0 && forall|i: int| 0 <= i < s.len() ==> '0' <= #[trigger] s[i] <= '9'
}

/// The value of a string of decimal digits.
pub open spec fn digits_value(s: Seq<char>) -> int
    decreases s.len(),
{
    if s.len() == 0 {
        0
    } else {
        digits_value(s.drop_last()) * 10 + (s.last() as int - '0' as int)
    }
}

/// Decimal digits, optionally after a `+`, as an unsigned integer is written.
pub open spec fn unsigned_digits(s: Seq<char>) -> Seq<char> {
    if s.len() > 0 && s[0] == '+' {
        s.drop_first()
    } else {
        s
    }
}

pub open spec fn level_of_number(n: int) -> LogLevel {
    if n == 0 {
        LogLevel::Off
    } else if n == 1 {
        LogLevel::Error
    } else if n == 2 {
        LogLevel::Warn
    } else if n == 3 {
        LogLevel::Info
    } else if n == 4 {
        LogLevel::Debug
    } else {
        LogLevel::Trace
    }
}

/// The level that a log-level name stands for: a number from 0 (off) to 5
/// (trace), a level name in any ASCII case, or the empty string for errors only.
pub open spec fn level_of_name(s: Seq<char>) -> Option<LogLevel> {
    if all_digits(unsigned_digits(s)) {
        if digits_value(unsigned_digits(s)) <= 5 {
            Some(level_of_number(digits_value(unsigned_digits(s))))
        } else {
            None
        }
    } else if s.len() == 0 {
        Some(LogLevel::Error)
    } else if eq_ignore_ascii_case(s, "error"@) {
        Some(LogLevel::Error)
    } else if eq_ignore_ascii_case(s, "warn"@) {
        Some(LogLevel::Warn)
    } else if eq_ignore_ascii_case(s, "info"@) {
        Some(LogLevel::Info)
    } else if eq_ignore_ascii_case(s, "debug"@) {
        Some(LogLevel::Debug)
    } else if eq_ignore_ascii_case(s, "trace"@) {
        Some(LogLevel::Trace)
    } else if eq_ignore_ascii_case(s, "off"@) {
        Some(LogLevel::Off)
    } else {
        None
    }
}

/// Relies on `FromStr for tracing_core::LevelFilter` (re-exported by
/// tracing-subscriber): a number 0 to 5, a level name in any ASCII case, or
/// the empty string (errors only); anything else is refused.
#[verifier::external_body]
fn parse_level_filter(s: &str) -> (r: Option<LogLevel>)
    ensures
        r == level_of_name(s@),
{
    match s.parse::<tracing_subscriber::filter::LevelFilter>() {
        Ok(tracing_subscriber::filter::LevelFilter::OFF) => Some(LogLevel::Off),
        Ok(tracing_subscriber::filter::LevelFilter::ERROR) => Some(LogLevel::Error),
        Ok(tracing_subscriber::filter::LevelFilter::WARN) => Some(LogLevel::Warn),
        Ok(tracing_subscriber::filter::LevelFilter::INFO) => Some(LogLevel::Info),
        Ok(tracing_subscriber::filter::LevelFilter::DEBUG) => Some(LogLevel::Debug),
        Ok(tracing_subscriber::filter::LevelFilter::TRACE) => Some(LogLevel::Trace),
        _ => None,
    }
}

/// The read-only telemetry rows that can be shown while the menu is closed.
#[derive(Clone, Copy, Debug, PartialEq, Eq, Structural)]
pub enum IndicatorType {
    Igt,
    Position,
    PositionChange,
    GameVersion,
    ImguiDebug,
    Fps,
    FrameCount,
    Animation,
}

/// One telemetry row and whether it is shown.
#[derive(Clone, Copy, Debug, PartialEq, Eq, Structural)]
pub struct Indicator {
    pub indicator: IndicatorType,
    pub enabled: bool,
}

pub open spec fn indicator_of_name(s: Seq<char>) -> Option<IndicatorType> {
    if s == "igt"@ {
        Some(IndicatorType::Igt)
    } else if s == "position"@ {
        Some(IndicatorType::Position)
    } else if s == "position_change"@ {
        Some(IndicatorType::PositionChange)
    } else if s == "animation"@ {
        Some(IndicatorType::Animation)
    } else if s == "game_version"@ {
        Some(IndicatorType::GameVersion)
    } else if s == "fps"@ {
        Some(IndicatorType::Fps)
    } else if s == "framecount"@ {
        Some(IndicatorType::FrameCount)
    } else if s == "imgui_debug"@ {
        Some(IndicatorType::ImguiDebug)
    } else {
        None
    }
}

pub open spec fn indicator_label(k: IndicatorType) -> Seq<char> {
    match k {
        IndicatorType::GameVersion => "游戏版本"@,
        IndicatorType::Position => "玩家位置"@,
        IndicatorType::PositionChange => "玩家速度"@,
        IndicatorType::Animation => "动画"@,
        IndicatorType::Igt => "游戏内时间(IGT)"@,
        IndicatorType::Fps => "FPS"@,
        IndicatorType::FrameCount => "帧数计数器"@,
        IndicatorType::ImguiDebug => "ImGui调试信息"@,
    }
}

pub open spec fn default_indicators() -> Seq<Indicator> {
    seq![
        Indicator { indicator: IndicatorType::GameVersion, enabled: true },
        Indicator { indicator: IndicatorType::Igt, enabled: true },
        Indicator { indicator: IndicatorType::Position, enabled: false },
        Indicator { indicator: IndicatorType::PositionChange, enabled: false },
        Indicator { indicator: IndicatorType::Animation, enabled: false },
        Indicator { indicator: IndicatorType::Fps, enabled: false },
        Indicator { indicator: IndicatorType::FrameCount, enabled: false },
        Indicator { indicator: IndicatorType::ImguiDebug, enabled: false },
    ]
}

impl IndicatorType {
    /// The label of the indicator's on/off switch.
    pub fn label(self) -> (r: &'static str)
        ensures
            r@ == indicator_label(self),
    {
        match self {
            IndicatorType::GameVersion => "游戏版本",
            IndicatorType::Position => "玩家位置",
            IndicatorType::PositionChange => "玩家速度",
            IndicatorType::Animation => "动画",
            IndicatorType::Igt => "游戏内时间(IGT)",
            IndicatorType::Fps => "FPS",
            IndicatorType::FrameCount => "帧数计数器",
            IndicatorType::ImguiDebug => "ImGui调试信息",
        }
    }

    /// The indicator kind that a configuration name stands for.
    pub fn from_name(s: &str) -> (r: Option<IndicatorType>)
        ensures
            r == indicator_of_name(s@),
    {
        if str_eq(s, "igt") {
            Some(IndicatorType::Igt)
        } else if str_eq(s, "position") {
            Some(IndicatorType::Position)
        } else if str_eq(s, "position_change") {
            Some(IndicatorType::PositionChange)
        } else if str_eq(s, "animation") {
            Some(IndicatorType::Animation)
        } else if str_eq(s, "game_version") {
            Some(IndicatorType::GameVersion)
        } else if str_eq(s, "fps") {
            Some(IndicatorType::Fps)
        } else if str_eq(s, "framecount") {
            Some(IndicatorType::FrameCount)
        } else if str_eq(s, "imgui_debug") {
            Some(IndicatorType::ImguiDebug)
        } else {
            None
        }
    }
}

impl Indicator {
    /// The indicators shown when the configuration lists none: the game
    /// version and the in-game time on, the rest off.
    pub fn default_set() -> (r: Vec<Indicator>)
        ensures
            r@ == default_indicators(),
    {
        let r = vec![
            Indicator { indicator: IndicatorType::GameVersion, enabled: true },
            Indicator { indicator: IndicatorType::Igt, enabled: true },
            Indicator { indicator: IndicatorType::Position, enabled: false },
            Indicator { indicator: IndicatorType::PositionChange, enabled: false },
            Indicator { indicator: IndicatorType::Animation, enabled: false },
            Indicator { indicator: IndicatorType::Fps, enabled: false },
            Indicator { indicator: IndicatorType::FrameCount, enabled: false },
            Indicator { indicator: IndicatorType::ImguiDebug, enabled: false },
        ];
        assert(r@ =~= default_indicators());
        r
    }

    /// An indicator from its configuration name and on/off state.
    pub fn try_from_name(name: &str, enabled: bool) -> (r: Result<Indicator, DecodeReason>)
        ensures
            match indicator_of_name(name@) {
                Some(k) => r == Ok::<_, DecodeReason>(Indicator { indicator: k, enabled }),
                None => r is Err && r->Err_0@ == ReasonView::UnknownIndicator(name@),
            },
    {
        match IndicatorType::from_name(name) {
            Some(k) => Ok(Indicator { indicator: k, enabled }),
            None => Err(DecodeReason::UnknownIndicator(String::from_str(name))),
        }
    }
}

/// The global knobs of the overlay.
#[derive(Debug)]
pub struct Settings {
    pub log_level: LogLevel,
    /// The key that opens and closes the overlay.
    pub display: String,
    /// The key that hides the overlay, if any.
    pub hide: Option<String>,
    pub dxgi_debug: bool,
    pub show_console: bool,
    pub disable_update_prompt: bool,
    /// The telemetry rows, in display order.
    pub indicators: Vec<Indicator>,
}

pub struct SettingsView {
    pub log_level: LogLevel,
    pub display: Seq<char>,
    pub hide: Option<Seq<char>>,
    pub dxgi_debug: bool,
    pub show_console: bool,
    pub disable_update_prompt: bool,
    pub indicators: Seq<Indicator>,
}

impl Settings {
    pub open spec fn view(&self) -> SettingsView {
        SettingsView {
            log_level: self.log_level,
            display: self.display@,
            hide: opt_str_view(self.hide),
            dxgi_debug: self.dxgi_debug,
            show_console: self.show_console,
            disable_update_prompt: self.disable_update_prompt,
            indicators: self.indicators@,
        }
    }

    /// Whether the diagnostic console stays open: only when it was asked for
    /// and the log level is at least `debug`.
    pub fn keeps_console(&self) -> (r: bool)
        ensures
            r == (self.show_console && self.log_level.rank() >= LogLevel::Debug.rank()),
    {
        self.show_console && self.log_level.verbosity() >= LogLevel::Debug.verbosity()
    }
}

/// One item of the indicator list: a table naming the indicator and saying
/// whether it is on.
pub open spec fn indicator_item(v: TomlValue) -> Result<Indicator, ErrorView> {
    match v {
        TomlValue::Table(t) => match req_str_spec(t@, "indicator"@) {
            Err(e) => Err(e),
            Ok(name) => match req_bool_spec(t@, "enabled"@) {
                Err(e) => Err(e),
                Ok(enabled) => match indicator_of_name(name) {
                    Some(k) => Ok(Indicator { indicator: k, enabled }),
                    None => Err(fail(ReasonView::UnknownIndicator(name))),
                },
            },
        },
        _ => Err(fail(ReasonView::Expected(ValueKind::Table))),
    }
}

pub open spec fn indicator_items(a: Seq<TomlValue>, n: int) -> Result<Seq<Indicator>, ErrorView>
    decreases n,
{
    if n <= 0 {
        Ok(seq![])
    } else {
        match indicator_items(a, n - 1) {
            Err(e) => Err(e),
            Ok(s) => match indicator_item(a[n - 1]) {
                Err(e) => Err(under(SegView::Index(n - 1), e)),
                Ok(x) => Ok(s.push(x)),
            },
        }
    }
}

proof fn lemma_indicator_items_err(a: Seq<TomlValue>, m: int, n: int)
    requires
        0 <= m <= n,
        indicator_items(a, m) is Err,
    ensures
        indicator_items(a, n) == indicator_items(a, m),
    decreases n - m,
{
    if n > m {
        lemma_indicator_items_err(a, m, n - 1);
    }
}

/// The indicator list: the default set when the key is absent.
pub open spec fn indicators_spec(t: Seq<TomlEntry>) -> Result<Seq<Indicator>, ErrorView> {
    match lookup(t, "indicators"@) {
        None => Ok(default_indicators()),
        Some(TomlValue::Array(a)) => match indicator_items(a@, a@.len() as int) {
            Ok(s) => Ok(s),
            Err(e) => Err(under_key("indicators"@, e)),
        },
        Some(_) => Err(under_key("indicators"@, fail(ReasonView::Expected(ValueKind::Array)))),
    }
}

/// The `settings` table, its fields read in declaration order.
pub open spec fn settings_spec(v: TomlValue) -> Result<SettingsView, ErrorView> {
    match v {
        TomlValue::Table(tv) => {
            let t = tv@;
            match req_str_spec(t, "log_level"@) {
                Err(e) => Err(e),
                Ok(lv) => match level_of_name(lv) {
                    None => Err(under_key("log_level"@, fail(ReasonView::UnknownLogLevel(lv)))),
                    Some(log_level) => match req_str_spec(t, "display"@) {
                        Err(e) => Err(e),
                        Ok(display) => match opt_key_spec(t, "hide"@) {
                            Err(e) => Err(e),
                            Ok(hide) => match opt_bool_spec(t, "dxgi_debug"@) {
                                Err(e) => Err(e),
                                Ok(dxgi_debug) => match opt_bool_spec(t, "show_console"@) {
                                    Err(e) => Err(e),
                                    Ok(show_console) => match opt_bool_spec(t, "disable_update_prompt"@) {
                                        Err(e) => Err(e),
                                        Ok(disable_update_prompt) => match indicators_spec(t) {
                                            Err(e) => Err(e),
                                            Ok(indicators) => Ok(
                                                SettingsView {
                                                    log_level,
                                                    display,
                                                    hide,
                                                    dxgi_debug,
                                                    show_console,
                                                    disable_update_prompt,
                                                    indicators,
                                                },
                                            ),
                                        },
                                    },
                                },
                            },
                        },
                    },
                },
            }
        },
        _ => Err(fail(ReasonView::Expected(ValueKind::Table))),
    }
}

fn decode_indicator(v: &TomlValue) -> (r: Result<Indicator, DecodeError>)
    ensures
        match r {
            Ok(x) => indicator_item(*v) == Ok::<_, ErrorView>(x),
            Err(e) => indicator_item(*v) == Err::<Indicator, _>(e@),
        },
{
    match v {
        TomlValue::Table(t) => {
            let name = req_str(t, "indicator")?;
            let enabled = req_bool(t, "enabled")?;
            match Indicator::try_from_name(name.as_str(), enabled) {
                Ok(x) => Ok(x),
                Err(reason) => Err(new_error(reason)),
            }
        },
        _ => Err(new_error(DecodeReason::Expected(ValueKind::Table))),
    }
}

fn decode_indicators(t: &Vec<TomlEntry>) -> (r: Result<Vec<Indicator>, DecodeError>)
    ensures
        match r {
            Ok(x) => indicators_spec(t@) == Ok::<_, ErrorView>(x@),
            Err(e) => indicators_spec(t@) == Err::<Seq<Indicator>, _>(e@),
        },
{
    let p = match find_key(t, "indicators") {
        None => {
            return Ok(Indicator::default_set());
        },
        Some(p) => p,
    };
    let a = match &t[p].value {
        TomlValue::Array(a) => a,
        _ => {
            return Err(error_under_key("indicators", new_error(DecodeReason::Expected(ValueKind::Array))));
        },
    };
    let mut out: Vec<Indicator> = Vec::new();
    let mut i: usize = 0;
    while i < a.len()
        invariant
            i <= a@.len(),
            lookup(t@, "indicators"@) == Some(TomlValue::Array(*a)),
            indicator_items(a@, i as int) == Ok::<_, ErrorView>(out@),
        decreases a@.len() - i,
    {
        match decode_indicator(&a[i]) {
            Ok(x) => {
                out.push(x);
            },
            Err(e) => {
                let e = error_under_key("indicators", error_under(PathSegment::Index(i), e));
                proof {
                    lemma_indicator_items_err(a@, i + 1, a@.len() as int);
                }
                return Err(e);
            },
        }
        i = i + 1;
    }
    Ok(out)
}

impl Settings {
    /// Reads the `settings` table of a configuration document.
    pub fn decode(v: &TomlValue) -> (r: Result<Settings, DecodeError>)
        ensures
            match r {
                Ok(s) => settings_spec(*v) == Ok::<_, ErrorView>(s@),
                Err(e) => settings_spec(*v) == Err::<SettingsView, _>(e@),
            },
    {
        let t = match v {
            TomlValue::Table(t) => t,
            _ => {
                return Err(new_error(DecodeReason::Expected(ValueKind::Table)));
            },
        };
        let lv = req_str(t, "log_level")?;
        let log_level = match parse_level_filter(lv.as_str()) {
            Some(l) => l,
            None => {
                return Err(error_under_key("log_level", new_error(DecodeReason::UnknownLogLevel(lv))));
            },
        };
        let display = req_str(t, "display")?;
        let hide = opt_key(t, "hide")?;
        let dxgi_debug = opt_bool(t, "dxgi_debug")?;
        let show_console = opt_bool(t, "show_console")?;
        let disable_update_prompt = opt_bool(t, "disable_update_prompt")?;
        let indicators = decode_indicators(t)?;
        Ok(Settings { log_level, display, hide, dxgi_debug, show_console, disable_update_prompt, indicators })
    }
}

} // verus!

use vstd::prelude::*;
use crate::command::{commands_spec, view_commands, CommandSpec, CommandView};
use crate::document::{
    error_under_key, fail, find_key, key_pos_from, new_error, under_key, DecodeError,
    DecodeReason, ErrorView, ReasonView, TomlValue, ValueKind,
};
use crate::settings::{default_indicators, Indicator, LogLevel, Settings, SettingsView, settings_spec};

verus! {

/// A whole configuration: the global settings and the ordered command forest.
#[derive(Debug)]
pub struct Config {
    pub settings: Settings,
    pub commands: Vec<CommandSpec>,
}

pub struct ConfigView {
    pub settings: SettingsView,
    pub commands: Seq<CommandView>,
}

impl Config {
    pub open spec fn view(&self) -> ConfigView {
        ConfigView { settings: self.settings@, commands: view_commands(self.commands, self.commands.len() as int) }
    }
}

/// The document root: a table with a `settings` table and a `commands` array.
/// Settings are read first.
pub open spec fn config_spec(v: TomlValue) -> Result<ConfigView, ErrorView> {
    match v {
        TomlValue::Table(tv) => {
            let ps = key_pos_from(tv@, "settings"@, 0);
            let pc = key_pos_from(tv@, "commands"@, 0);
            if !(0 <= ps < tv.len()) {
                Err(fail(ReasonView::MissingField("settings"@)))
            } else {
                match settings_spec(tv[ps].value) {
                    Err(e) => Err(under_key("settings"@, e)),
                    Ok(settings) => if !(0 <= pc < tv.len()) {
                        Err(fail(ReasonView::MissingField("commands"@)))
                    } else {
                        match tv[pc].value {
                            TomlValue::Array(a) => match commands_spec(a, a.len() as int) {
                                Err(e) => Err(under_key("commands"@, e)),
                                Ok(commands) => Ok(ConfigView { settings, commands }),
                            },
                            _ => Err(under_key("commands"@, fail(ReasonView::Expected(ValueKind::Array)))),
                        }
                    },
                }
            }
        },
        _ => Err(fail(ReasonView::Expected(ValueKind::Table))),
    }
}

pub open spec fn default_config() -> ConfigView {
    ConfigView {
        settings: SettingsView {
            log_level: LogLevel::Debug,
            display: "0"@,
            hide: Some("rshift+0"@),
            dxgi_debug: false,
            show_console: false,
            disable_update_prompt: false,
            indicators: default_indicators(),
        },
        commands: seq![],
    }
}

impl Config {
    /// Reads a configuration document. On failure the error carries the path
    /// from the root to the offending value.
    pub fn parse(doc: &TomlValue) -> (r: Result<Config, DecodeError>)
        ensures
            match r {
                Ok(c) => config_spec(*doc) == Ok::<_, ErrorView>(c@),
                Err(e) => config_spec(*doc) == Err::<ConfigView, _>(e@),
            },
    {
        let t = match doc {
            TomlValue::Table(t) => t,
            _ => {
                return Err(new_error(DecodeReason::Expected(ValueKind::Table)));
            },
        };
        let ps = match find_key(t, "settings") {
            None => {
                return Err(new_error(DecodeReason::MissingField(String::from_str("settings"))));
            },
            Some(p) => p,
        };
        let settings = match Settings::decode(&t[ps].value) {
            Ok(s) => s,
            Err(e) => {
                return Err(error_under_key("settings", e));
            },
        };
        let pc = match find_key(t, "commands") {
            None => {
                return Err(new_error(DecodeReason::MissingField(String::from_str("commands"))));
            },
            Some(p) => p,
        };
        match &t[pc].value {
            TomlValue::Array(a) => match CommandSpec::decode_all(a) {
                Ok(commands) => Ok(Config { settings, commands }),
                Err(e) => Err(error_under_key("commands", e)),
            },
            _ => Err(error_under_key("commands", new_error(DecodeReason::Expected(ValueKind::Array)))),
        }
    }

    /// The configuration to run with: the parsed one, or the default one with
    /// the error kept for the banner when the document was refused.
    pub fn or_default(parsed: Result<Config, DecodeError>) -> (r: (Config, Option<DecodeError>))
        ensures
            match parsed {
                Ok(c) => r.0@ == c@ && r.1 is None,
                Err(e) => r.0@ == default_config() && r.1 is Some && r.1->Some_0@ == e@,
            },
    {
        match parsed {
            Ok(c) => (c, None),
            Err(e) => (Config::default(), Some(e)),
        }
    }

    /// The configuration used when the document cannot be read: default
    /// settings and no commands.
    pub fn default() -> (r: Config)
        ensures
            r@ == default_config(),
    {
        let r = Config {
            settings: Settings {
                log_level: LogLevel::Debug,
                display: String::from_str("0"),
                hide: Some(String::from_str("rshift+0")),
                dxgi_debug: false,
                show_console: false,
                disable_update_prompt: false,
                indicators: Indicator::default_set(),
            },
            commands: Vec::new(),
        };
        assert(r@.commands =~= seq![]);
        r
    }
}

} // verus!

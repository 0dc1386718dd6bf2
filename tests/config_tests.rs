use er_practice_tool::command::CommandSpec;
use er_practice_tool::compiler::{Capabilities, Widget};
use er_practice_tool::config::Config;
use er_practice_tool::document::{DecodeReason, Number, PathSegment, TomlEntry, TomlValue, ValueKind};
use er_practice_tool::registry::{FlagBinding, FlagId, SpecialFlag};
use er_practice_tool::settings::{Indicator, IndicatorType, LogLevel, Settings};

fn s(x: &str) -> TomlValue {
    TomlValue::Str(x.to_string())
}

fn tbl(entries: Vec<(&str, TomlValue)>) -> TomlValue {
    TomlValue::Table(entries.into_iter().map(|(k, v)| TomlEntry { key: k.to_string(), value: v }).collect())
}

fn arr(items: Vec<TomlValue>) -> TomlValue {
    TomlValue::Array(items)
}

fn settings_doc() -> TomlValue {
    tbl(vec![("log_level", s("DEBUG")), ("display", s("0")), ("hide", s("rshift+0"))])
}

fn doc(commands: Vec<TomlValue>) -> TomlValue {
    tbl(vec![("settings", settings_doc()), ("commands", arr(commands))])
}

fn path_text(p: &[PathSegment]) -> String {
    let mut out = String::new();
    for seg in p {
        match seg {
            PathSegment::Key(k) => {
                if !out.is_empty() {
                    out.push('.');
                }
                out.push_str(k);
            },
            PathSegment::Index(i) => out.push_str(&format!("[{}]", i)),
        }
    }
    out
}

fn full_document() -> TomlValue {
    tbl(vec![
        (
            "settings",
            tbl(vec![
                ("log_level", s("DEBUG")),
                ("display", s("0")),
                ("hide", s("rshift+0")),
                ("show_console", TomlValue::Bool(true)),
                (
                    "indicators",
                    arr(vec![
                        tbl(vec![("indicator", s("igt")), ("enabled", TomlValue::Bool(true))]),
                        tbl(vec![("indicator", s("position")), ("enabled", TomlValue::Bool(false))]),
                        tbl(vec![("indicator", s("framecount")), ("enabled", TomlValue::Bool(true))]),
                    ]),
                ),
            ]),
        ),
        (
            "commands",
            arr(vec![
                tbl(vec![("flag", s("no_damage")), ("hotkey", s("9"))]),
                tbl(vec![("flag", s("show_map")), ("hotkey", s("alt+m"))]),
                tbl(vec![("flag", s("deathcam"))]),
                tbl(vec![("flags", arr(vec![s("hitbox_high"), s("hitbox_low")])), ("label", s("Hitboxes"))]),
                tbl(vec![("position", s("r")), ("save", s("alt+r"))]),
                tbl(vec![("nudge", TomlValue::Float(1.0f64.to_bits())), ("nudge_up", s("up")), ("nudge_down", s("down"))]),
                tbl(vec![
                    ("cycle_speed", arr(vec![TomlValue::Float(1.0f64.to_bits()), TomlValue::Int(2)])),
                    ("hotkey", s("p")),
                ]),
                tbl(vec![("cycle_color", arr(vec![TomlValue::Int(-1), TomlValue::Int(0), TomlValue::Int(1)]))]),
                tbl(vec![("character_stats", TomlValue::Bool(true))]),
                tbl(vec![("runes", TomlValue::Int(10000)), ("hotkey", s("y"))]),
                tbl(vec![("target", s("o"))]),
                tbl(vec![("warp", TomlValue::Bool(true))]),
                tbl(vec![("item_spawner", s("f1"))]),
                tbl(vec![("savefile_manager", TomlValue::Bool(true))]),
                tbl(vec![("quitout", s("p"))]),
                tbl(vec![("label", s("Section"))]),
                tbl(vec![
                    ("group", s("Render")),
                    (
                        "commands",
                        arr(vec![
                            tbl(vec![("flag", s("show_chr"))]),
                            tbl(vec![("flag", s("no_such_flag"))]),
                        ]),
                    ),
                ]),
            ]),
        ),
    ])
}

#[test]
fn test_parse_ok() {
    let cfg = Config::parse(&full_document()).expect("document parses");
    assert_eq!(cfg.settings.log_level, LogLevel::Debug);
    assert_eq!(cfg.settings.display, "0");
    assert_eq!(cfg.settings.hide.as_deref(), Some("rshift+0"));
    assert!(cfg.settings.show_console);
    assert!(!cfg.settings.dxgi_debug);
    assert_eq!(
        cfg.settings.indicators,
        vec![
            Indicator { indicator: IndicatorType::Igt, enabled: true },
            Indicator { indicator: IndicatorType::Position, enabled: false },
            Indicator { indicator: IndicatorType::FrameCount, enabled: true },
        ]
    );
    assert_eq!(cfg.commands.len(), 17);
    assert!(matches!(&cfg.commands[0], CommandSpec::Flag { flag, hotkey } if flag == "no_damage" && hotkey.as_deref() == Some("9")));
    assert!(matches!(&cfg.commands[3], CommandSpec::MultiFlagUser { flags, label, hotkey: None } if flags.len() == 2 && label == "Hitboxes"));
    assert!(matches!(&cfg.commands[4], CommandSpec::Position { load: Some(l), save: Some(sv) } if l == "r" && sv == "alt+r"));
    assert!(matches!(&cfg.commands[5], CommandSpec::NudgePosition { nudge: Number::FloatBits(b), .. } if *b == 1.0f64.to_bits()));
    assert!(matches!(&cfg.commands[6], CommandSpec::CycleSpeed { values, .. } if values == &vec![Number::FloatBits(1.0f64.to_bits()), Number::Int(2)]));
    assert!(matches!(&cfg.commands[7], CommandSpec::CycleColor { colors, hotkey: None } if colors == &vec![-1, 0, 1]));
    assert!(matches!(&cfg.commands[8], CommandSpec::CharacterStats { hotkey: None }));
    assert!(matches!(&cfg.commands[9], CommandSpec::Runes { amount: 10000, .. }));
    assert!(matches!(&cfg.commands[11], CommandSpec::Warp));
    assert!(matches!(&cfg.commands[13], CommandSpec::SavefileManager { hotkey: None }));
    assert!(matches!(&cfg.commands[16], CommandSpec::Group { label, commands } if label == "Render" && commands.len() == 2));
}

#[test]
fn test_parse_errors() {
    let d = tbl(vec![
        ("commands", arr(vec![tbl(vec![("boh", TomlValue::Int(3))])])),
        ("settings", tbl(vec![("log_level", s("DEBUG"))])),
    ]);
    let e = Config::parse(&d).unwrap_err();
    assert_eq!(path_text(&e.path), "settings");
    assert!(matches!(&e.reason, DecodeReason::MissingField(k) if k == "display"));

    let d = doc(vec![tbl(vec![("boh", TomlValue::Int(3))])]);
    let e = Config::parse(&d).unwrap_err();
    assert_eq!(path_text(&e.path), "commands[0]");
    assert!(matches!(e.reason, DecodeReason::UnknownCommand));
}

#[test]
fn error_paths_point_at_the_offending_value() {
    let d = doc(vec![
        tbl(vec![("flag", s("no_damage"))]),
        tbl(vec![("flag", s("no_dead")), ("hotkey", TomlValue::Int(7))]),
    ]);
    let e = Config::parse(&d).unwrap_err();
    assert_eq!(path_text(&e.path), "commands[1].hotkey");
    assert!(matches!(e.reason, DecodeReason::Expected(ValueKind::String)));

    let d = doc(vec![tbl(vec![
        ("group", s("g")),
        ("commands", arr(vec![tbl(vec![("label", s("x"))]), tbl(vec![("cycle_speed", arr(vec![]))])])),
    ])]);
    let e = Config::parse(&d).unwrap_err();
    assert_eq!(path_text(&e.path), "commands[0].commands[1].cycle_speed");
    assert!(matches!(e.reason, DecodeReason::EmptyList));

    let d = doc(vec![tbl(vec![("cycle_color", arr(vec![TomlValue::Int(1), s("red")]))])]);
    let e = Config::parse(&d).unwrap_err();
    assert_eq!(path_text(&e.path), "commands[0].cycle_color[1]");
    assert!(matches!(e.reason, DecodeReason::Expected(ValueKind::Integer)));

    let d = doc(vec![tbl(vec![("runes", TomlValue::Int(-5))])]);
    let e = Config::parse(&d).unwrap_err();
    assert_eq!(path_text(&e.path), "commands[0].runes");
    assert!(matches!(e.reason, DecodeReason::OutOfRange));

    let d = doc(vec![tbl(vec![("target", TomlValue::Int(1))])]);
    let e = Config::parse(&d).unwrap_err();
    assert!(matches!(e.reason, DecodeReason::Expected(ValueKind::KeyOrBool)));

    let d = doc(vec![tbl(vec![("group", s("g"))])]);
    let e = Config::parse(&d).unwrap_err();
    assert_eq!(path_text(&e.path), "commands[0]");
    assert!(matches!(&e.reason, DecodeReason::MissingField(k) if k == "commands"));

    let d = doc(vec![s("flag")]);
    let e = Config::parse(&d).unwrap_err();
    assert!(matches!(e.reason, DecodeReason::Expected(ValueKind::Table)));

    let e = Config::parse(&tbl(vec![("settings", settings_doc())])).unwrap_err();
    assert!(matches!(&e.reason, DecodeReason::MissingField(k) if k == "commands"));
    assert!(Config::parse(&s("x")).is_err());
}

#[test]
fn log_levels_follow_their_names() {
    let level = |name: &str| {
        let d = tbl(vec![("log_level", s(name)), ("display", s("0"))]);
        Settings::decode(&d).map(|st| st.log_level)
    };
    assert_eq!(level("DEBUG").unwrap(), LogLevel::Debug);
    assert_eq!(level("warn").unwrap(), LogLevel::Warn);
    assert_eq!(level("Trace").unwrap(), LogLevel::Trace);
    assert_eq!(level("off").unwrap(), LogLevel::Off);
    assert_eq!(level("3").unwrap(), LogLevel::Info);
    assert_eq!(level("+1").unwrap(), LogLevel::Error);
    assert_eq!(level("").unwrap(), LogLevel::Error);
    let e = level("verbose").unwrap_err();
    assert_eq!(path_text(&e.path), "log_level");
    assert!(matches!(&e.reason, DecodeReason::UnknownLogLevel(n) if n == "verbose"));
    assert!(level("6").is_err());
}

#[test]
fn indicators_default_and_unknown() {
    let st = Settings::decode(&settings_doc()).unwrap();
    assert_eq!(st.indicators, Indicator::default_set());
    assert_eq!(st.indicators.len(), 8);
    assert_eq!(st.indicators[0], Indicator { indicator: IndicatorType::GameVersion, enabled: true });
    assert_eq!(st.indicators[1], Indicator { indicator: IndicatorType::Igt, enabled: true });
    assert!(st.indicators[2..].iter().all(|i| !i.enabled));
    assert!(!st.keeps_console());

    let d = tbl(vec![
        ("log_level", s("info")),
        ("display", s("0")),
        ("show_console", TomlValue::Bool(true)),
        ("indicators", arr(vec![tbl(vec![("indicator", s("speed")), ("enabled", TomlValue::Bool(true))])])),
    ]);
    let e = Settings::decode(&d).unwrap_err();
    assert_eq!(path_text(&e.path), "indicators[0]");
    assert!(matches!(&e.reason, DecodeReason::UnknownIndicator(n) if n == "speed"));

    let d = tbl(vec![("log_level", s("trace")), ("display", s("0")), ("show_console", TomlValue::Bool(true))]);
    assert!(Settings::decode(&d).unwrap().keeps_console());
    let d = tbl(vec![("log_level", s("info")), ("display", s("0")), ("show_console", TomlValue::Bool(true))]);
    assert!(!Settings::decode(&d).unwrap().keeps_console());
}

#[test]
fn default_config_is_empty() {
    let cfg = Config::default();
    assert!(cfg.commands.is_empty());
    assert_eq!(cfg.settings.log_level, LogLevel::Debug);
    assert_eq!(cfg.settings.display, "0");
    assert_eq!(cfg.settings.hide.as_deref(), Some("rshift+0"));
    assert_eq!(cfg.settings.indicators, Indicator::default_set());
}

#[test]
fn compile_keeps_order_and_drops_unknown_flags() {
    let cfg = Config::parse(&full_document()).unwrap();
    let widgets = cfg.make_commands(Capabilities { geometry_layers: 16 });
    assert_eq!(widgets.len(), 17);
    assert!(matches!(&widgets[0], Widget::Flag { flag: FlagId::NoDamage, label, .. } if label == "全体无伤害"));
    assert!(matches!(&widgets[1], Widget::MultiFlag { flags, .. } if flags.len() == 16));
    assert!(matches!(&widgets[2], Widget::Special { effect: SpecialFlag::Deathcam, hotkey: None }));
    assert!(matches!(&widgets[3], Widget::MultiFlag { flags, label, .. }
        if label == "Hitboxes" && flags == &vec![FlagBinding::Named(FlagId::HitboxHigh), FlagBinding::Named(FlagId::HitboxLow)]));
    assert!(matches!(&widgets[4], Widget::Command { command: CommandSpec::Position { .. }, close } if close == "0"));
    match &widgets[16] {
        Widget::Group { label, children, close } => {
            assert_eq!(label, "Render");
            assert_eq!(close, "0");
            assert_eq!(children.len(), 1);
            assert!(matches!(&children[0], Widget::Flag { flag: FlagId::ShowChr, .. }));
        },
        _ => panic!("expected a group"),
    }
}

#[test]
fn unknown_flag_drops_only_that_command() {
    let d = doc(vec![
        tbl(vec![("flag", s("one_shot"))]),
        tbl(vec![("flag", s("bogus"))]),
        tbl(vec![("flags", arr(vec![s("no_hit"), s("bogus")])), ("label", s("x"))]),
        tbl(vec![("label", s("after"))]),
    ]);
    let cfg = Config::parse(&d).unwrap();
    assert_eq!(cfg.commands.len(), 4);
    assert_eq!(cfg.unresolved(Capabilities { geometry_layers: 16 }), vec!["bogus".to_string(), "bogus".to_string()]);
    let widgets = cfg.make_commands(Capabilities { geometry_layers: 16 });
    assert_eq!(widgets.len(), 2);
    assert!(matches!(&widgets[0], Widget::Flag { flag: FlagId::OneShot, .. }));
    assert!(matches!(&widgets[1], Widget::Command { command: CommandSpec::Label { label }, .. } if label == "after"));
}

#[test]
fn show_map_clamps_to_last_layer() {
    let d = doc(vec![tbl(vec![("flag", s("show_map"))])]);
    let widgets = Config::parse(&d).unwrap().make_commands(Capabilities { geometry_layers: 13 });
    match &widgets[0] {
        Widget::MultiFlag { flags, label, .. } => {
            assert_eq!(label, "显示/隐藏地图");
            assert_eq!(flags.len(), 16);
            for i in 0..13 {
                assert_eq!(flags[i], FlagBinding::GeometryLayer(i));
            }
            for i in 13..16 {
                assert_eq!(flags[i], FlagBinding::GeometryLayer(12));
            }
        },
        _ => panic!("expected a multi-flag"),
    }
    let widgets = Config::parse(&d).unwrap().make_commands(Capabilities { geometry_layers: 0 });
    assert!(widgets.is_empty());
}

#[test]
fn unresolved_names_inside_groups_and_fallback() {
    let cfg = Config::parse(&full_document()).unwrap();
    assert_eq!(cfg.unresolved(Capabilities { geometry_layers: 16 }), vec!["no_such_flag".to_string()]);
    assert_eq!(
        cfg.unresolved(Capabilities { geometry_layers: 0 }),
        vec!["show_map".to_string(), "no_such_flag".to_string()]
    );
    let (c, err) = Config::or_default(Config::parse(&doc(vec![tbl(vec![("boh", TomlValue::Int(1))])])));
    assert!(c.commands.is_empty());
    assert_eq!(c.settings.display, "0");
    assert!(matches!(err, Some(e) if matches!(e.reason, DecodeReason::UnknownCommand)));
    let (c, err) = Config::or_default(Config::parse(&full_document()));
    assert!(err.is_none());
    assert_eq!(c.commands.len(), 17);
}

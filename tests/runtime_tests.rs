use er_practice_tool::cycler::Cycler;
use er_practice_tool::frame::{FrameDriver, FramePlan};
use er_practice_tool::log_feed::LogFeed;
use er_practice_tool::settings::{Indicator, IndicatorType};
use er_practice_tool::stats::{
    CharacterBlessings, CharacterPoints, CharacterStats, Datum, StatField, StatsEdit, StatsSnapshot,
};
use er_practice_tool::text::{framecount_text, igt_text, map_id_text, version_label};
use er_practice_tool::ui_state::UiState;
use er_practice_tool::update::{release_summary, Release, Update};
use er_practice_tool::warp::{string_match, Warp, WarpTarget};
use er_practice_tool::widgets::{flag_toggle_target, multi_flag_state, multi_flag_target, FlagState, PositionSlot};

#[test]
fn toggle_and_hide_transitions() {
    assert_eq!(UiState::Closed.next(true, false, false), UiState::MenuOpen);
    assert_eq!(UiState::MenuOpen.next(true, false, false), UiState::Closed);
    assert_eq!(UiState::MenuOpen.next(true, false, true), UiState::Hidden);
    assert_eq!(UiState::Closed.next(false, true, false), UiState::Hidden);
    assert_eq!(UiState::MenuOpen.next(false, true, false), UiState::Hidden);
    assert_eq!(UiState::Hidden.next(false, true, false), UiState::Hidden);
    assert_eq!(UiState::Hidden.next(true, false, false), UiState::MenuOpen);
    assert_eq!(UiState::Hidden.next(true, true, false), UiState::MenuOpen);
    assert_eq!(UiState::Closed.next(false, false, true), UiState::Closed);
}

#[test]
fn frame_driver_dispatch() {
    let mut d = FrameDriver::new(Indicator::default_set());
    assert_eq!(d.state, UiState::Closed);
    let p = d.begin_frame(false, false, false, false);
    assert_eq!(p, FramePlan { draw_panel: false, draw_closed: true, interact: true });
    assert!(!d.cursor_shown);
    assert_eq!(d.framecount, 1);
    let p = d.begin_frame(true, false, false, true);
    assert_eq!(d.state, UiState::MenuOpen);
    assert_eq!(p, FramePlan { draw_panel: true, draw_closed: false, interact: false });
    assert!(d.cursor_shown);
    // keys are ignored while the host UI captures the keyboard
    d.begin_frame(true, false, true, false);
    assert_eq!(d.state, UiState::MenuOpen);
    let p = d.begin_frame(false, true, false, false);
    assert_eq!(d.state, UiState::Hidden);
    assert_eq!(p, FramePlan { draw_panel: false, draw_closed: false, interact: true });
    assert!(!d.cursor_shown);
    d.open_menu();
    d.hide_overlay();
    assert!(d.stay_hidden);
    d.open_menu();
    d.begin_frame(true, false, false, false);
    assert_eq!(d.state, UiState::Hidden);
    d.unhide();
    assert_eq!(d.state, UiState::Closed);
    assert!(!d.stay_hidden);
    d.reset_framecount();
    assert_eq!(d.framecount, 0);
    d.framecount = u32::MAX;
    d.begin_frame(false, false, false, false);
    assert_eq!(d.framecount, 0);
    d.set_indicator(2, true);
    assert!(d.indicators[2].enabled);
    d.close_menu();
    assert_eq!(d.state, UiState::Closed);
}

#[test]
fn buttons_hide_the_cursor() {
    let mut d = FrameDriver::new(Indicator::default_set());
    d.end_frame(5, vec!["hello".to_string()]);
    d.open_menu();
    d.begin_frame(false, false, false, false);
    assert!(d.cursor_shown);
    d.close_menu();
    assert_eq!(d.state, UiState::Closed);
    assert!(!d.cursor_shown);
    assert_eq!(d.indicators, Indicator::default_set());
    assert_eq!(d.log.visible(), vec!["hello".to_string()]);
    d.popup_shown();
    assert!(d.cursor_shown);
    d.popup_closed();
    assert!(!d.cursor_shown);
    d.open_menu();
    d.begin_frame(false, false, false, false);
    d.hide_overlay();
    assert!(!d.cursor_shown);
    d.open_menu();
    d.begin_frame(false, false, false, false);
    d.unhide();
    assert!(!d.cursor_shown);
    assert_eq!(d.state, UiState::Closed);
}

#[test]
fn cycler_wraps_round() {
    let mut c = Cycler::new(vec![1.0f32, 2.0, 3.0]);
    assert_eq!(c.current(), 1.0);
    let seen: Vec<f32> = (0..4).map(|_| c.advance()).collect();
    assert_eq!(seen, vec![2.0, 3.0, 1.0, 2.0]);
    let mut one = Cycler::new(vec![7i32]);
    assert_eq!(one.advance(), 7);
    assert_eq!(one.index, 0);
}

fn host() -> StatsSnapshot {
    StatsSnapshot {
        stats: Some(CharacterStats {
            level: 10,
            vigor: 10,
            mind: 10,
            endurance: 10,
            strength: 10,
            dexterity: 10,
            intelligence: 10,
            faith: 10,
            arcane: 10,
            runes: 500,
        }),
        points: Some(CharacterPoints { hp: 400, fp: 80, stamina: 90, max_hp: 400, max_fp: 80, max_stamina: 90 }),
        blessings: Some(CharacterBlessings { scadutree: 3, revered_spirit_ash: 1 }),
    }
}

#[test]
fn stat_editor_writes_only_on_write() {
    let h = host();
    let mut e = StatsEdit::new(true);
    assert!(e.layout().is_none());
    e.read(h);
    e.set(StatField::Vigor, 40);
    // closing without writing leaves the host as it was and discards the edits
    e.clear();
    assert_eq!(h, host());
    assert!(e.stats.is_none());
    assert!(e.points.is_none());
    assert!(e.blessings.is_none());
    assert_eq!(e.write(), StatsSnapshot { stats: None, points: None, blessings: None });

    let mut e = StatsEdit::new(true);
    e.read(h);
    e.set(StatField::Vigor, 40);
    e.set(StatField::Level, 9999);
    e.set(StatField::Scadutree, 50);
    e.set(StatField::Hp, -3);
    let w = e.write();
    let ws = w.stats.unwrap();
    assert_eq!(ws.vigor, 40);
    assert_eq!(ws.level, 713);
    assert_eq!(ws.mind, 10);
    assert_eq!(w.blessings.unwrap().scadutree, 20);
    assert_eq!(w.points.unwrap().hp, 0);

    let mut nb = StatsEdit::new(false);
    nb.read(h);
    assert!(nb.blessings.is_none());
    assert!(nb.write().blessings.is_none());
    let layout = nb.layout().unwrap();
    assert_eq!(layout.len(), 17);
    assert_eq!(layout[10], Datum::Separator);
    let full = e.layout().unwrap();
    assert_eq!(full.len(), 20);
    assert_eq!(full[19], Datum::Field(StatField::ReveredSpiritAsh));
    assert_eq!(StatField::Level.label(), "等级");
}

#[test]
fn log_entries_expire_after_five_seconds() {
    let t = 1_000_000u64;
    let mut feed = LogFeed::new();
    feed.end_frame(t, vec!["saved position".to_string()]);
    feed.end_frame(t + 4900, vec![]);
    assert_eq!(feed.visible(), vec!["saved position".to_string()]);
    feed.end_frame(t + 5100, vec![]);
    assert!(feed.visible().is_empty());
}

#[test]
fn log_shows_three_newest() {
    let mut feed = LogFeed::new();
    feed.end_frame(10, vec!["a".into(), "b".into()]);
    feed.end_frame(20, vec!["c".into(), "d".into()]);
    assert_eq!(feed.visible(), vec!["b".to_string(), "c".to_string(), "d".to_string()]);
    assert_eq!(feed.entries.len(), 4);
}

#[test]
fn indicator_texts() {
    assert_eq!(igt_text(3_723_456), "IGT 01:02:03.45");
    assert_eq!(igt_text(0), "IGT 00:00:00.00");
    assert_eq!(igt_text(360_000_000), "IGT 100:00:00.00");
    assert_eq!(map_id_text(0x3C2C1E00), "m3c_2c_1e_00");
    assert_eq!(map_id_text(0x0A0B0C0D), "m0a_0b_0c_0d");
    assert_eq!(framecount_text(1234), "Frame count 1234");
    assert_eq!(version_label(1, 2, 3), "游戏版本 1.02.3");
    assert_eq!(version_label(2, 10, 0), "游戏版本 2.10.0");
}

fn catalog() -> Vec<WarpTarget> {
    vec![
        WarpTarget { name: "Abandoned Cave".to_string(), id: 31202950 },
        WarpTarget { name: "Agheel Lake North".to_string(), id: 1043372950 },
        WarpTarget { name: "Agheel Lake South".to_string(), id: 1044352950 },
    ]
}

#[test]
fn warp_filter_and_fallback() {
    assert!(string_match("LAKE", "Agheel Lake North"));
    assert!(!string_match("cave", "Agheel Lake North"));
    let mut w = Warp::new(catalog(), "0");
    assert_eq!(w.label_close, "Close (0)");
    assert_eq!(w.label, "Warp to Grace");
    assert_eq!(w.warp_call(Some(1), Some(2)), Some((1, 2, 31202950 - 1000)));
    w.set_filter("south".to_string());
    assert_eq!(w.visible, vec![false, false, true]);
    assert_eq!(w.current, 2);
    w.set_filter("LAKE".to_string());
    assert_eq!(w.current, 2);
    w.select(1);
    assert_eq!(w.warp_call(Some(5), Some(6)), Some((5, 6, 1043372950 - 1000)));
    assert_eq!(w.warp_call(None, Some(6)), None);
    w.set_filter("nowhere".to_string());
    assert_eq!(w.current, 0);
    w.set_filter(String::new());
    assert_eq!(w.visible, vec![true, true, true]);
}

#[test]
fn widget_helpers() {
    assert_eq!(multi_flag_state(&vec![Some(true), Some(true)]), FlagState::On);
    assert_eq!(multi_flag_state(&vec![Some(false), Some(false)]), FlagState::Off);
    assert_eq!(multi_flag_state(&vec![Some(true), Some(false)]), FlagState::Mixed);
    assert_eq!(multi_flag_state(&vec![Some(true), None]), FlagState::Mixed);
    assert!(!multi_flag_target(FlagState::On));
    assert!(multi_flag_target(FlagState::Mixed));
    assert_eq!(flag_toggle_target(Some(true)), Some(false));
    assert_eq!(flag_toggle_target(None), None);
    let mut slot: PositionSlot<[f32; 3]> = PositionSlot::new();
    assert_eq!(slot.load(true), None);
    slot.save(Some([1.0, 2.0, 3.0]));
    slot.save(None);
    assert_eq!(slot.load(true), Some([1.0, 2.0, 3.0]));
    assert_eq!(slot.load(false), None);
}

fn release(tag: &str, body: &str) -> Release {
    Release { tag_name: tag.to_string(), html_url: "https://example.org/r".to_string(), body: body.to_string() }
}

#[test]
fn update_check_outcomes() {
    let body = "  Faster warps.\n\n## What's Changed\n* item";
    assert_eq!(release_summary(body), "Faster warps.");
    assert_eq!(release_summary("no list"), "no list");
    assert_eq!(release_summary("\u{3000}\tNotes\u{a0}\n## What's Changed"), "Notes");
    match Update::check(Ok(release("1.3.0", body)), "1.2.9") {
        Update::Available { url, notes } => {
            assert_eq!(url, "https://example.org/r");
            assert_eq!(notes, "发现有新版练习工具！\n\n最新版本:    1.3.0\n已安装版本: 1.2.9\n\n更新内容:\nFaster warps.\n");
        },
        _ => panic!("expected an update"),
    }
    assert!(matches!(Update::check(Ok(release("1.2.9", body)), "1.2.9"), Update::UpToDate));
    assert!(matches!(Update::check(Ok(release("1.0.0", body)), "1.2.9"), Update::UpToDate));
    assert!(matches!(Update::check(Ok(release("v1.3", body)), "1.2.9"), Update::Error(_)));
    assert!(matches!(Update::check(Err("offline".to_string()), "1.2.9"), Update::Error(e) if e == "offline"));
}

#[test]
fn closed_banner_indicators_follow_configured_order() {
    let mut d = FrameDriver::new(vec![
        Indicator { indicator: IndicatorType::Fps, enabled: true },
        Indicator { indicator: IndicatorType::Igt, enabled: false },
        Indicator { indicator: IndicatorType::Position, enabled: true },
    ]);
    assert_eq!(d.shown_indicators(), vec![IndicatorType::Fps, IndicatorType::Position]);
    d.set_indicator(1, true);
    assert_eq!(d.shown_indicators(), vec![IndicatorType::Fps, IndicatorType::Igt, IndicatorType::Position]);
    assert_eq!(IndicatorType::Igt.label(), "游戏内时间(IGT)");
    assert_eq!(IndicatorType::FrameCount.label(), "帧数计数器");
}

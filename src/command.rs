use vstd::prelude::*;
use crate::document::{
    error_under, error_under_key, fail, find_key, key_pos_from, lookup, new_error, opt_key,
    opt_key_spec, opt_str_view, placeholder_key, placeholder_key_spec, req_i32_list,
    i32_list_spec, req_number, req_number_spec, number_list_spec, req_number_list, req_str,
    req_str_list, req_str_spec, req_u32, req_u32_spec, req_bool, req_bool_spec, str_list_spec,
    strs_view, under, under_key, DecodeError, DecodeReason, ErrorView, Number, PathSegment,
    ReasonView, SegView, TomlEntry, TomlValue, ValueKind,
};

verus! {

broadcast use vstd::std_specs::vec::axiom_vec_index_decreases;

/// One declarative entry of the configuration. Hotkeys are kept as the text
/// of their key specification.
#[derive(Debug)]
pub enum CommandSpec {
    SavefileManager { hotkey: Option<String> },
    ItemSpawner { hotkey: Option<String> },
    /// A flag identifier: a plain flag, a multi-flag or a special effect.
    Flag { flag: String, hotkey: Option<String> },
    MultiFlagUser { flags: Vec<String>, hotkey: Option<String>, label: String },
    Label { label: String },
    Position { load: Option<String>, save: Option<String> },
    NudgePosition { nudge: Number, nudge_up: Option<String>, nudge_down: Option<String> },
    CycleSpeed { values: Vec<Number>, hotkey: Option<String> },
    CycleColor { colors: Vec<i32>, hotkey: Option<String> },
    CharacterStats { hotkey: Option<String> },
    Runes { amount: u32, hotkey: Option<String> },
    Target { hotkey: Option<String> },
    Warp,
    Group { label: String, commands: Vec<CommandSpec> },
    Quitout { hotkey: Option<String> },
}

pub enum CommandView {
    SavefileManager { hotkey: Option<Seq<char>> },
    ItemSpawner { hotkey: Option<Seq<char>> },
    Flag { flag: Seq<char>, hotkey: Option<Seq<char>> },
    MultiFlagUser { flags: Seq<Seq<char>>, hotkey: Option<Seq<char>>, label: Seq<char> },
    Label { label: Seq<char> },
    Position { load: Option<Seq<char>>, save: Option<Seq<char>> },
    NudgePosition { nudge: Number, nudge_up: Option<Seq<char>>, nudge_down: Option<Seq<char>> },
    CycleSpeed { values: Seq<Number>, hotkey: Option<Seq<char>> },
    CycleColor { colors: Seq<i32>, hotkey: Option<Seq<char>> },
    CharacterStats { hotkey: Option<Seq<char>> },
    Runes { amount: u32, hotkey: Option<Seq<char>> },
    Target { hotkey: Option<Seq<char>> },
    Warp,
    Group { label: Seq<char>, commands: Seq<CommandView> },
    Quitout { hotkey: Option<Seq<char>> },
}

pub open spec fn view_command(c: CommandSpec) -> CommandView
    decreases c, 0int,
{
    match c {
        CommandSpec::SavefileManager { hotkey } => CommandView::SavefileManager { hotkey: opt_str_view(hotkey) },
        CommandSpec::ItemSpawner { hotkey } => CommandView::ItemSpawner { hotkey: opt_str_view(hotkey) },
        CommandSpec::Flag { flag, hotkey } => CommandView::Flag { flag: flag@, hotkey: opt_str_view(hotkey) },
        CommandSpec::MultiFlagUser { flags, hotkey, label } => CommandView::MultiFlagUser {
            flags: strs_view(flags@),
            hotkey: opt_str_view(hotkey),
            label: label@,
        },
        CommandSpec::Label { label } => CommandView::Label { label: label@ },
        CommandSpec::Position { load, save } => CommandView::Position {
            load: opt_str_view(load),
            save: opt_str_view(save),
        },
        CommandSpec::NudgePosition { nudge, nudge_up, nudge_down } => CommandView::NudgePosition {
            nudge,
            nudge_up: opt_str_view(nudge_up),
            nudge_down: opt_str_view(nudge_down),
        },
        CommandSpec::CycleSpeed { values, hotkey } => CommandView::CycleSpeed { values: values@, hotkey: opt_str_view(hotkey) },
        CommandSpec::CycleColor { colors, hotkey } => CommandView::CycleColor { colors: colors@, hotkey: opt_str_view(hotkey) },
        CommandSpec::CharacterStats { hotkey } => CommandView::CharacterStats { hotkey: opt_str_view(hotkey) },
        CommandSpec::Runes { amount, hotkey } => CommandView::Runes { amount, hotkey: opt_str_view(hotkey) },
        CommandSpec::Target { hotkey } => CommandView::Target { hotkey: opt_str_view(hotkey) },
        CommandSpec::Warp => CommandView::Warp,
        CommandSpec::Group { label, commands } => CommandView::Group {
            label: label@,
            commands: view_commands(commands, commands.len() as int),
        },
        CommandSpec::Quitout { hotkey } => CommandView::Quitout { hotkey: opt_str_view(hotkey) },
    }
}

/// The views of the first `n` commands of `v`.
pub open spec fn view_commands(v: Vec<CommandSpec>, n: int) -> Seq<CommandView>
    decreases v, n,
{
    if n <= 0 || n > v.len() {
        seq![]
    } else {
        view_commands(v, n - 1).push(view_command(v[n - 1]))
    }
}

proof fn lemma_view_commands_prefix(v1: Vec<CommandSpec>, v2: Vec<CommandSpec>, n: int)
    requires
        0 <= n <= v1.len(),
        n <= v2.len(),
        v1@.subrange(0, n) == v2@.subrange(0, n),
    ensures
        view_commands(v1, n) == view_commands(v2, n),
    decreases n,
{
    if n > 0 {
        assert(v1@.subrange(0, n - 1) == v1@.subrange(0, n).subrange(0, n - 1));
        assert(v2@.subrange(0, n - 1) == v2@.subrange(0, n).subrange(0, n - 1));
        assert(v1[n - 1] == v1@.subrange(0, n)[n - 1]);
        assert(v2[n - 1] == v2@.subrange(0, n)[n - 1]);
        lemma_view_commands_prefix(v1, v2, n - 1);
    }
}

pub proof fn lemma_view_commands_len(v: Vec<CommandSpec>, n: int)
    requires
        0 <= n <= v.len(),
    ensures
        view_commands(v, n).len() == n,
        forall|i: int| 0 <= i < n ==> view_commands(v, n)[i] == view_command(#[trigger] v[i]),
    decreases n,
{
    if n > 0 {
        lemma_view_commands_len(v, n - 1);
    }
}

/// A command table whose family is not a group.
pub open spec fn leaf_command_spec(t: Seq<TomlEntry>) -> Result<CommandView, ErrorView> {
    if lookup(t, "savefile_manager"@) is Some {
        match placeholder_key_spec(t, "savefile_manager"@) {
            Err(e) => Err(e),
            Ok(hotkey) => Ok(CommandView::SavefileManager { hotkey }),
        }
    } else if lookup(t, "item_spawner"@) is Some {
        match placeholder_key_spec(t, "item_spawner"@) {
            Err(e) => Err(e),
            Ok(hotkey) => Ok(CommandView::ItemSpawner { hotkey }),
        }
    } else if lookup(t, "flag"@) is Some {
        match req_str_spec(t, "flag"@) {
            Err(e) => Err(e),
            Ok(flag) => match opt_key_spec(t, "hotkey"@) {
                Err(e) => Err(e),
                Ok(hotkey) => Ok(CommandView::Flag { flag, hotkey }),
            },
        }
    } else if lookup(t, "flags"@) is Some {
        match str_list_spec(t, "flags"@) {
            Err(e) => Err(e),
            Ok(flags) => match opt_key_spec(t, "hotkey"@) {
                Err(e) => Err(e),
                Ok(hotkey) => match req_str_spec(t, "label"@) {
                    Err(e) => Err(e),
                    Ok(label) => Ok(CommandView::MultiFlagUser { flags, hotkey, label }),
                },
            },
        }
    } else if lookup(t, "label"@) is Some {
        match req_str_spec(t, "label"@) {
            Err(e) => Err(e),
            Ok(label) => Ok(CommandView::Label { label }),
        }
    } else if lookup(t, "position"@) is Some {
        match placeholder_key_spec(t, "position"@) {
            Err(e) => Err(e),
            Ok(load) => match opt_key_spec(t, "save"@) {
                Err(e) => Err(e),
                Ok(save) => Ok(CommandView::Position { load, save }),
            },
        }
    } else if lookup(t, "nudge"@) is Some {
        match req_number_spec(t, "nudge"@) {
            Err(e) => Err(e),
            Ok(nudge) => match opt_key_spec(t, "nudge_up"@) {
                Err(e) => Err(e),
                Ok(nudge_up) => match opt_key_spec(t, "nudge_down"@) {
                    Err(e) => Err(e),
                    Ok(nudge_down) => Ok(CommandView::NudgePosition { nudge, nudge_up, nudge_down }),
                },
            },
        }
    } else if lookup(t, "cycle_speed"@) is Some {
        match number_list_spec(t, "cycle_speed"@) {
            Err(e) => Err(e),
            Ok(values) => match opt_key_spec(t, "hotkey"@) {
                Err(e) => Err(e),
                Ok(hotkey) => Ok(CommandView::CycleSpeed { values, hotkey }),
            },
        }
    } else if lookup(t, "cycle_color"@) is Some {
        match i32_list_spec(t, "cycle_color"@) {
            Err(e) => Err(e),
            Ok(colors) => match opt_key_spec(t, "hotkey"@) {
                Err(e) => Err(e),
                Ok(hotkey) => Ok(CommandView::CycleColor { colors, hotkey }),
            },
        }
    } else if lookup(t, "character_stats"@) is Some {
        match placeholder_key_spec(t, "character_stats"@) {
            Err(e) => Err(e),
            Ok(hotkey) => Ok(CommandView::CharacterStats { hotkey }),
        }
    } else if lookup(t, "runes"@) is Some {
        match req_u32_spec(t, "runes"@) {
            Err(e) => Err(e),
            Ok(amount) => match opt_key_spec(t, "hotkey"@) {
                Err(e) => Err(e),
                Ok(hotkey) => Ok(CommandView::Runes { amount, hotkey }),
            },
        }
    } else if lookup(t, "target"@) is Some {
        match placeholder_key_spec(t, "target"@) {
            Err(e) => Err(e),
            Ok(hotkey) => Ok(CommandView::Target { hotkey }),
        }
    } else if lookup(t, "warp"@) is Some {
        match req_bool_spec(t, "warp"@) {
            Err(e) => Err(e),
            Ok(_) => Ok(CommandView::Warp),
        }
    } else if lookup(t, "quitout"@) is Some {
        match placeholder_key_spec(t, "quitout"@) {
            Err(e) => Err(e),
            Ok(hotkey) => Ok(CommandView::Quitout { hotkey }),
        }
    } else {
        Err(fail(ReasonView::UnknownCommand))
    }
}

/// Whether a command table belongs to the group family: it holds the `group`
/// key and none of the keys that take precedence over it (every family but
/// `quitout`).
pub open spec fn is_group_table(t: Seq<TomlEntry>) -> bool {
    &&& lookup(t, "group"@) is Some
    &&& lookup(t, "savefile_manager"@) is None
    &&& lookup(t, "item_spawner"@) is None
    &&& lookup(t, "flag"@) is None
    &&& lookup(t, "flags"@) is None
    &&& lookup(t, "label"@) is None
    &&& lookup(t, "position"@) is None
    &&& lookup(t, "nudge"@) is None
    &&& lookup(t, "cycle_speed"@) is None
    &&& lookup(t, "cycle_color"@) is None
    &&& lookup(t, "character_stats"@) is None
    &&& lookup(t, "runes"@) is None
    &&& lookup(t, "target"@) is None
    &&& lookup(t, "warp"@) is None
}

/// One command entry of the document.
pub open spec fn command_spec(v: TomlValue) -> Result<CommandView, ErrorView>
    decreases v, 0int,
{
    match v {
        TomlValue::Table(tv) => {
            if is_group_table(tv@) {
                match req_str_spec(tv@, "group"@) {
                    Err(e) => Err(e),
                    Ok(label) => {
                        let p = key_pos_from(tv@, "commands"@, 0);
                        if 0 <= p < tv.len() {
                            match tv[p].value {
                                TomlValue::Array(a) => match commands_spec(a, a.len() as int) {
                                    Err(e) => Err(under_key("commands"@, e)),
                                    Ok(commands) => Ok(CommandView::Group { label, commands }),
                                },
                                _ => Err(under_key("commands"@, fail(ReasonView::Expected(ValueKind::Array)))),
                            }
                        } else {
                            Err(fail(ReasonView::MissingField("commands"@)))
                        }
                    },
                }
            } else {
                leaf_command_spec(tv@)
            }
        },
        _ => Err(fail(ReasonView::Expected(ValueKind::Table))),
    }
}

/// The first `n` command entries of an array; the first that fails gives the
/// error, under its index.
pub open spec fn commands_spec(a: Vec<TomlValue>, n: int) -> Result<Seq<CommandView>, ErrorView>
    decreases a, n,
{
    if n <= 0 || n > a.len() {
        Ok(seq![])
    } else {
        match commands_spec(a, n - 1) {
            Err(e) => Err(e),
            Ok(s) => match command_spec(a[n - 1]) {
                Err(e) => Err(under(SegView::Index(n - 1), e)),
                Ok(c) => Ok(s.push(c)),
            },
        }
    }
}

proof fn lemma_commands_err(a: Vec<TomlValue>, m: int, n: int)
    requires
        0 <= m <= n <= a.len(),
        commands_spec(a, m) is Err,
    ensures
        commands_spec(a, n) == commands_spec(a, m),
    decreases n - m,
{
    if n > m {
        lemma_commands_err(a, m, n - 1);
    }
}

fn has_key(t: &Vec<TomlEntry>, k: &str) -> (r: bool)
    ensures
        r == (lookup(t@, k@) is Some),
{
    find_key(t, k).is_some()
}

fn is_group(t: &Vec<TomlEntry>) -> (r: bool)
    ensures
        r == is_group_table(t@),
{
    has_key(t, "group")
        && !has_key(t, "savefile_manager")
        && !has_key(t, "item_spawner")
        && !has_key(t, "flag")
        && !has_key(t, "flags")
        && !has_key(t, "label")
        && !has_key(t, "position")
        && !has_key(t, "nudge")
        && !has_key(t, "cycle_speed")
        && !has_key(t, "cycle_color")
        && !has_key(t, "character_stats")
        && !has_key(t, "runes")
        && !has_key(t, "target")
        && !has_key(t, "warp")
}

fn decode_leaf(t: &Vec<TomlEntry>) -> (r: Result<CommandSpec, DecodeError>)
    ensures
        match r {
            Ok(c) => leaf_command_spec(t@) == Ok::<_, ErrorView>(view_command(c)),
            Err(e) => leaf_command_spec(t@) == Err::<CommandView, _>(e@),
        },
{
    if has_key(t, "savefile_manager") {
        let hotkey = placeholder_key(t, "savefile_manager")?;
        Ok(CommandSpec::SavefileManager { hotkey })
    } else if has_key(t, "item_spawner") {
        let hotkey = placeholder_key(t, "item_spawner")?;
        Ok(CommandSpec::ItemSpawner { hotkey })
    } else if has_key(t, "flag") {
        let flag = req_str(t, "flag")?;
        let hotkey = opt_key(t, "hotkey")?;
        Ok(CommandSpec::Flag { flag, hotkey })
    } else if has_key(t, "flags") {
        let flags = req_str_list(t, "flags")?;
        let hotkey = opt_key(t, "hotkey")?;
        let label = req_str(t, "label")?;
        Ok(CommandSpec::MultiFlagUser { flags, hotkey, label })
    } else if has_key(t, "label") {
        let label = req_str(t, "label")?;
        Ok(CommandSpec::Label { label })
    } else if has_key(t, "position") {
        let load = placeholder_key(t, "position")?;
        let save = opt_key(t, "save")?;
        Ok(CommandSpec::Position { load, save })
    } else if has_key(t, "nudge") {
        let nudge = req_number(t, "nudge")?;
        let nudge_up = opt_key(t, "nudge_up")?;
        let nudge_down = opt_key(t, "nudge_down")?;
        Ok(CommandSpec::NudgePosition { nudge, nudge_up, nudge_down })
    } else if has_key(t, "cycle_speed") {
        let values = req_number_list(t, "cycle_speed")?;
        let hotkey = opt_key(t, "hotkey")?;
        Ok(CommandSpec::CycleSpeed { values, hotkey })
    } else if has_key(t, "cycle_color") {
        let colors = req_i32_list(t, "cycle_color")?;
        let hotkey = opt_key(t, "hotkey")?;
        Ok(CommandSpec::CycleColor { colors, hotkey })
    } else if has_key(t, "character_stats") {
        let hotkey = placeholder_key(t, "character_stats")?;
        Ok(CommandSpec::CharacterStats { hotkey })
    } else if has_key(t, "runes") {
        let amount = req_u32(t, "runes")?;
        let hotkey = opt_key(t, "hotkey")?;
        Ok(CommandSpec::Runes { amount, hotkey })
    } else if has_key(t, "target") {
        let hotkey = placeholder_key(t, "target")?;
        Ok(CommandSpec::Target { hotkey })
    } else if has_key(t, "warp") {
        let _ = req_bool(t, "warp")?;
        Ok(CommandSpec::Warp)
    } else if has_key(t, "quitout") {
        let hotkey = placeholder_key(t, "quitout")?;
        Ok(CommandSpec::Quitout { hotkey })
    } else {
        Err(new_error(DecodeReason::UnknownCommand))
    }
}

impl CommandSpec {
    /// Reads one command entry. The entry's family is told by the first of its
    /// distinguishing keys; a table with none of them is refused.
    pub fn decode(v: &TomlValue) -> (r: Result<CommandSpec, DecodeError>)
        ensures
            match r {
                Ok(c) => command_spec(*v) == Ok::<_, ErrorView>(view_command(c)),
                Err(e) => command_spec(*v) == Err::<CommandView, _>(e@),
            },
        decreases v,
    {
        match v {
            TomlValue::Table(t) => {
                if is_group(t) {
                    let label = req_str(t, "group")?;
                    match find_key(t, "commands") {
                        None => Err(new_error(DecodeReason::MissingField(String::from_str("commands")))),
                        Some(p) => {
                            proof {
                                assert(decreases_to!(*v => v->Table_0));
                                assert(decreases_to!(v->Table_0 => t[p as int]));
                            }
                            match &t[p].value {
                                TomlValue::Array(a) => {
                                    proof {
                                        assert(decreases_to!(t[p as int] => t[p as int].value));
                                        assert(decreases_to!(t[p as int].value => t[p as int].value->Array_0));
                                    }
                                    match CommandSpec::decode_all(a) {
                                        Ok(commands) => {
                                            proof {
                                                lemma_view_commands_len(commands, commands.len() as int);
                                            }
                                            Ok(CommandSpec::Group { label, commands })
                                        },
                                        Err(e) => Err(error_under_key("commands", e)),
                                    }
                                },
                                _ => Err(error_under_key("commands", new_error(DecodeReason::Expected(ValueKind::Array)))),
                            }
                        },
                    }
                } else {
                    decode_leaf(t)
                }
            },
            _ => Err(new_error(DecodeReason::Expected(ValueKind::Table))),
        }
    }

    /// Reads an array of command entries, in order.
    pub fn decode_all(a: &Vec<TomlValue>) -> (r: Result<Vec<CommandSpec>, DecodeError>)
        ensures
            match r {
                Ok(cs) => commands_spec(*a, a.len() as int) == Ok::<_, ErrorView>(
                    view_commands(cs, cs.len() as int),
                ) && cs.len() == a.len(),
                Err(e) => commands_spec(*a, a.len() as int) == Err::<Seq<CommandView>, _>(e@),
            },
        decreases a,
    {
        let mut out: Vec<CommandSpec> = Vec::new();
        let mut i: usize = 0;
        while i < a.len()
            invariant
                i <= a@.len(),
                out.len() == i,
                commands_spec(*a, i as int) == Ok::<_, ErrorView>(view_commands(out, i as int)),
            decreases a@.len() - i,
        {
            proof {
                assert(decreases_to!(*a => a[i as int]));
            }
            match CommandSpec::decode(&a[i]) {
                Ok(c) => {
                    let ghost before = out;
                    out.push(c);
                    proof {
                        assert(out@.subrange(0, i as int) == before@.subrange(0, i as int));
                        lemma_view_commands_prefix(out, before, i as int);
                    }
                },
                Err(e) => {
                    let e = error_under(PathSegment::Index(i), e);
                    proof {
                        lemma_commands_err(*a, i + 1, a.len() as int);
                    }
                    return Err(e);
                },
            }
            i = i + 1;
        }
        Ok(out)
    }
}

} // verus!

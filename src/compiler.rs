use vstd::prelude::*;
use crate::command::{view_command, view_commands, CommandSpec, CommandView};
use crate::config::{config_spec, Config};
use crate::document::{strs_view, opt_str_view, TomlValue};
use crate::registry::{
    flag_label, flag_of_name, is_multi_flag, is_show_map, show_map_bindings, show_map_label,
    show_map_spec, show_map_title, special_of_name, FlagBinding, FlagId, SpecialFlag,
};

verus! {

broadcast use {vstd::std_specs::vec::axiom_vec_index_decreases, vstd::seq::axiom_seq_index_decreases};

/// What the host exposes that compilation depends on.
#[derive(Clone, Copy, Debug)]
pub struct Capabilities {
    /// How many map-geometry visibility layers the host exposes.
    pub geometry_layers: usize,
}

/// A compiled command: its resolved bindings and the transient inputs it
/// needs. Commands whose bindings need no resolution keep their specification.
#[derive(Debug)]
pub enum Widget {
    Flag { label: String, flag: FlagId, hotkey: Option<String> },
    MultiFlag { label: String, flags: Vec<FlagBinding>, hotkey: Option<String> },
    Special { effect: SpecialFlag, hotkey: Option<String> },
    /// A command bound as written; `close` is the key that closes its popups.
    Command { command: CommandSpec, close: String },
    Group { label: String, children: Vec<Widget>, close: String },
}

pub enum WidgetView {
    Flag { label: Seq<char>, flag: FlagId, hotkey: Option<Seq<char>> },
    MultiFlag { label: Seq<char>, flags: Seq<FlagBinding>, hotkey: Option<Seq<char>> },
    Special { effect: SpecialFlag, hotkey: Option<Seq<char>> },
    Command { command: CommandView, close: Seq<char> },
    Group { label: Seq<char>, children: Seq<WidgetView>, close: Seq<char> },
}

pub open spec fn view_widget(w: Widget) -> WidgetView
    decreases w, 0int,
{
    match w {
        Widget::Flag { label, flag, hotkey } => WidgetView::Flag { label: label@, flag, hotkey: opt_str_view(hotkey) },
        Widget::MultiFlag { label, flags, hotkey } => WidgetView::MultiFlag {
            label: label@,
            flags: flags@,
            hotkey: opt_str_view(hotkey),
        },
        Widget::Special { effect, hotkey } => WidgetView::Special { effect, hotkey: opt_str_view(hotkey) },
        Widget::Command { command, close } => WidgetView::Command { command: view_command(command), close: close@ },
        Widget::Group { label, children, close } => WidgetView::Group {
            label: label@,
            children: view_widgets(children, children.len() as int),
            close: close@,
        },
    }
}

/// The views of the first `n` widgets of `v`.
pub open spec fn view_widgets(v: Vec<Widget>, n: int) -> Seq<WidgetView>
    decreases v, n,
{
    if n <= 0 || n > v.len() {
        seq![]
    } else {
        view_widgets(v, n - 1).push(view_widget(v[n - 1]))
    }
}

proof fn lemma_view_widgets_prefix(v1: Vec<Widget>, v2: Vec<Widget>, n: int)
    requires
        0 <= n <= v1.len(),
        n <= v2.len(),
        v1@.subrange(0, n) == v2@.subrange(0, n),
    ensures
        view_widgets(v1, n) == view_widgets(v2, n),
    decreases n,
{
    if n > 0 {
        assert(v1@.subrange(0, n - 1) == v1@.subrange(0, n).subrange(0, n - 1));
        assert(v2@.subrange(0, n - 1) == v2@.subrange(0, n).subrange(0, n - 1));
        assert(v1[n - 1] == v1@.subrange(0, n)[n - 1]);
        assert(v2[n - 1] == v2@.subrange(0, n)[n - 1]);
        lemma_view_widgets_prefix(v1, v2, n - 1);
    }
}

/// The user's flag list, resolved: `None` if any identifier is unknown.
pub open spec fn resolve_flags(names: Seq<Seq<char>>, n: int) -> Option<Seq<FlagBinding>>
    decreases n,
{
    if n <= 0 {
        Some(seq![])
    } else {
        match resolve_flags(names, n - 1) {
            None => None,
            Some(s) => match flag_of_name(names[n - 1]) {
                None => None,
                Some(f) => Some(s.push(FlagBinding::Named(f))),
            },
        }
    }
}

/// What one command compiles to, if its identifiers resolve; `close` is the
/// key that closes popups.
pub open spec fn compile_one(c: CommandView, layers: int, close: Seq<char>) -> Option<WidgetView>
    decreases c, 0int,
{
    match c {
        CommandView::Flag { flag, hotkey } => match flag_of_name(flag) {
            Some(f) => Some(WidgetView::Flag { label: flag_label(f), flag: f, hotkey }),
            None => if is_show_map(flag) {
                if layers > 0 {
                    Some(WidgetView::MultiFlag { label: show_map_label(), flags: show_map_spec(layers), hotkey })
                } else {
                    None
                }
            } else {
                match special_of_name(flag) {
                    Some(effect) => Some(WidgetView::Special { effect, hotkey }),
                    None => None,
                }
            },
        },
        CommandView::MultiFlagUser { flags, hotkey, label } => match resolve_flags(flags, flags.len() as int) {
            Some(bindings) => Some(WidgetView::MultiFlag { label, flags: bindings, hotkey }),
            None => None,
        },
        CommandView::Group { label, commands } => Some(
            WidgetView::Group { label, children: compile_seq(commands, commands.len() as int, layers, close), close },
        ),
        _ => Some(WidgetView::Command { command: c, close }),
    }
}

/// The widgets of the first `n` commands: one for each command that resolves,
/// in order; the others are dropped.
pub open spec fn compile_seq(s: Seq<CommandView>, n: int, layers: int, close: Seq<char>) -> Seq<WidgetView>
    decreases s, n,
{
    if n <= 0 || n > s.len() {
        seq![]
    } else {
        compile_seq(s, n - 1, layers, close) + match compile_one(s[n - 1], layers, close) {
            Some(w) => seq![w],
            None => seq![],
        }
    }
}

/// Whether a command resolves under the given capabilities.
pub open spec fn resolvable(c: CommandView, layers: int) -> bool {
    compile_one(c, layers, seq![]) is Some
}

proof fn lemma_resolve_flags_none(names: Seq<Seq<char>>, m: int, n: int)
    requires
        0 <= m <= n,
        resolve_flags(names, m) is None,
    ensures
        resolve_flags(names, n) is None,
    decreases n - m,
{
    if n > m {
        lemma_resolve_flags_none(names, m, n - 1);
    }
}

fn resolve_flag_names(names: &Vec<String>) -> (r: Option<Vec<FlagBinding>>)
    ensures
        match r {
            Some(v) => resolve_flags(strs_view(names@), names.len() as int) == Some(v@),
            None => resolve_flags(strs_view(names@), names.len() as int) is None,
        },
{
    let ghost sv = strs_view(names@);
    let mut out: Vec<FlagBinding> = Vec::new();
    let mut i: usize = 0;
    while i < names.len()
        invariant
            i <= names@.len(),
            sv == strs_view(names@),
            resolve_flags(sv, i as int) == Some(out@),
        decreases names@.len() - i,
    {
        assert(sv[i as int] == names@[i as int]@);
        match FlagId::from_name(names[i].as_str()) {
            Some(f) => {
                out.push(FlagBinding::Named(f));
            },
            None => {
                proof {
                    lemma_resolve_flags_none(sv, i + 1, names.len() as int);
                }
                return None;
            },
        }
        i = i + 1;
    }
    Some(out)
}

fn clone_opt(o: &Option<String>) -> (r: Option<String>)
    ensures
        opt_str_view(r) == opt_str_view(*o),
{
    match o {
        Some(s) => Some(s.clone()),
        None => None,
    }
}

/// Compiles one command; `None` when one of its identifiers does not resolve.
pub fn compile_command(c: CommandSpec, caps: Capabilities, close: &str) -> (r: Option<Widget>)
    ensures
        match r {
            Some(w) => compile_one(view_command(c), caps.geometry_layers as int, close@) == Some(view_widget(w)),
            None => compile_one(view_command(c), caps.geometry_layers as int, close@) is None,
        },
    decreases c,
{
    match c {
        CommandSpec::Flag { flag, hotkey } => {
            match FlagId::from_name(flag.as_str()) {
                Some(f) => Some(Widget::Flag { label: String::from_str(f.label()), flag: f, hotkey }),
                None => if is_multi_flag(flag.as_str()) {
                    match show_map_bindings(caps.geometry_layers) {
                        Some(flags) => Some(Widget::MultiFlag { label: String::from_str(show_map_title()), flags, hotkey }),
                        None => None,
                    }
                } else {
                    match SpecialFlag::from_name(flag.as_str()) {
                        Some(effect) => Some(Widget::Special { effect, hotkey }),
                        None => None,
                    }
                },
            }
        },
        CommandSpec::MultiFlagUser { flags, hotkey, label } => {
            match resolve_flag_names(&flags) {
                Some(bindings) => Some(Widget::MultiFlag { label, flags: bindings, hotkey }),
                None => None,
            }
        },
        CommandSpec::Group { label, commands } => {
            proof {
                crate::command::lemma_view_commands_len(commands, commands.len() as int);
            }
            let children = compile_all(commands, caps, close);
            Some(Widget::Group { label, children, close: String::from_str(close) })
        },
        other => {
            Some(Widget::Command { command: other, close: String::from_str(close) })
        },
    }
}

/// Compiles a command list in order, dropping each command whose identifiers
/// do not resolve and keeping all the others.
#[verifier::loop_isolation(false)]
pub fn compile_all(commands: Vec<CommandSpec>, caps: Capabilities, close: &str) -> (r: Vec<Widget>)
    ensures
        view_widgets(r, r.len() as int) == compile_seq(
            view_commands(commands, commands.len() as int),
            commands.len() as int,
            caps.geometry_layers as int,
            close@,
        ),
    decreases commands,
{
    let ghost orig = commands;
    let ghost n = commands.len() as int;
    let ghost views = view_commands(commands, n);
    let ghost layers = caps.geometry_layers as int;
    proof {
        crate::command::lemma_view_commands_len(commands, n);
    }
    let mut rest = commands;
    let mut out: Vec<Widget> = Vec::new();
    let mut i: usize = 0;
    while rest.len() > 0
        invariant
            0 <= i <= n,
            n == orig.len(),
            rest@ == orig@.subrange(i as int, n),
            views == view_commands(orig, n),
            views.len() == n,
            forall|j: int| 0 <= j < n ==> views[j] == view_command(#[trigger] orig[j]),
            view_widgets(out, out.len() as int) == compile_seq(views, i as int, layers, close@),
            layers == caps.geometry_layers as int,
        decreases rest.len(),
    {
        let c = rest.remove(0);
        assert(c == orig[i as int]);
        proof {
            assert(decreases_to!(orig => orig[i as int]));
        }
        let w = compile_command(c, caps, close);
        match w {
            Some(w) => {
                let ghost before = out;
                out.push(w);
                proof {
                    assert(out@.subrange(0, before.len() as int) == before@.subrange(0, before.len() as int));
                    lemma_view_widgets_prefix(out, before, before.len() as int);
                    assert(view_widgets(out, out.len() as int) =~= view_widgets(before, before.len() as int) + seq![view_widget(w)]);
                }
            },
            None => {
                assert(compile_seq(views, i + 1, layers, close@) =~= compile_seq(views, i as int, layers, close@));
            },
        }
        i = i + 1;
    }
    out
}

impl Config {
    /// Compiles the configuration's commands into widgets; the overlay's
    /// display key closes their popups.
    pub fn make_commands(self, caps: Capabilities) -> (r: Vec<Widget>)
        ensures
            view_widgets(r, r.len() as int) == compile_seq(
                self@.commands,
                self@.commands.len() as int,
                caps.geometry_layers as int,
                self@.settings.display,
            ),
    {
        proof {
            crate::command::lemma_view_commands_len(self.commands, self.commands.len() as int);
        }
        compile_all(self.commands, caps, self.settings.display.as_str())
    }
}

pub open spec fn opt_widget(w: Option<WidgetView>) -> Seq<WidgetView> {
    match w {
        Some(x) => seq![x],
        None => seq![],
    }
}

proof fn lemma_compile_seq_prefix(s1: Seq<CommandView>, s2: Seq<CommandView>, n: int, layers: int, close: Seq<char>)
    requires
        0 <= n <= s1.len(),
        n <= s2.len(),
        s1.subrange(0, n) == s2.subrange(0, n),
    ensures
        compile_seq(s1, n, layers, close) == compile_seq(s2, n, layers, close),
    decreases n,
{
    if n > 0 {
        assert(s1.subrange(0, n - 1) == s1.subrange(0, n).subrange(0, n - 1));
        assert(s2.subrange(0, n - 1) == s2.subrange(0, n).subrange(0, n - 1));
        assert(s1[n - 1] == s1.subrange(0, n)[n - 1]);
        assert(s2[n - 1] == s2.subrange(0, n)[n - 1]);
        lemma_compile_seq_prefix(s1, s2, n - 1, layers, close);
    }
}

/// Compilation distributes over concatenation: the widgets of `a + b` are
/// those of `a` followed by those of `b`.
pub proof fn lemma_compile_append(a: Seq<CommandView>, b: Seq<CommandView>, layers: int, close: Seq<char>)
    ensures
        compile_seq(a + b, (a.len() + b.len()) as int, layers, close) == compile_seq(a, a.len() as int, layers, close)
            + compile_seq(b, b.len() as int, layers, close),
    decreases b.len(),
{
    if b.len() == 0 {
        assert(a + b =~= a);
        assert(compile_seq(b, 0, layers, close) =~= seq![]);
        assert(compile_seq(a, a.len() as int, layers, close) + seq![] =~= compile_seq(a, a.len() as int, layers, close));
    } else {
        let b1 = b.drop_last();
        let n = (a.len() + b.len()) as int;
        lemma_compile_append(a, b1, layers, close);
        assert((a + b).subrange(0, n - 1) =~= (a + b1).subrange(0, n - 1));
        lemma_compile_seq_prefix(a + b, a + b1, n - 1, layers, close);
        assert((a + b)[n - 1] == b.last());
        assert(b.subrange(0, b.len() - 1) =~= b1.subrange(0, b1.len() as int));
        lemma_compile_seq_prefix(b, b1, b.len() - 1, layers, close);
        let x = compile_seq(a, a.len() as int, layers, close);
        let y = compile_seq(b1, b1.len() as int, layers, close);
        let z = opt_widget(compile_one(b.last(), layers, close));
        assert(compile_seq(a + b, n, layers, close) == (x + y) + z);
        assert(compile_seq(b, b.len() as int, layers, close) == y + z);
        assert((x + y) + z =~= x + (y + z));
    }
}

/// The widgets of a one-command list: one if it resolves, none otherwise.
pub proof fn lemma_compile_single(c: CommandView, layers: int, close: Seq<char>)
    ensures
        compile_seq(seq![c], 1, layers, close) == opt_widget(compile_one(c, layers, close)),
{
    assert(compile_seq(seq![c], 0, layers, close) =~= seq![]);
    assert(seq![c][0] == c);
    assert(Seq::<WidgetView>::empty() + opt_widget(compile_one(c, layers, close)) =~= opt_widget(compile_one(c, layers, close)));
}

/// Whether the command resolves does not depend on the closing key.
pub proof fn lemma_resolvable_any_close(c: CommandView, layers: int, close: Seq<char>)
    ensures
        compile_one(c, layers, close) is Some <==> resolvable(c, layers),
{
}

/// Parsing then compiling a configuration yields exactly one widget per
/// command that resolves, in document order: for any position `i`, the
/// widgets are those of the commands before it, then the widget of command
/// `i` if it resolves, then those of the commands after it. A group compiles
/// to a single group widget holding the compiled widgets of its own commands.
pub proof fn lemma_parse_compile_in_order(doc: TomlValue, layers: int, i: int)
    requires
        config_spec(doc) is Ok,
        0 <= i < config_spec(doc)->Ok_0.commands.len(),
    ensures
        ({
            let cfg = config_spec(doc)->Ok_0;
            let cmds = cfg.commands;
            let close = cfg.settings.display;
            &&& compile_seq(cmds, cmds.len() as int, layers, close) == compile_seq(cmds.take(i), i, layers, close)
                + opt_widget(compile_one(cmds[i], layers, close)) + compile_seq(
                cmds.skip(i + 1),
                cmds.len() - i - 1,
                layers,
                close,
            )
            &&& (compile_one(cmds[i], layers, close) is Some <==> resolvable(cmds[i], layers))
            &&& (cmds[i] is Group ==> compile_one(cmds[i], layers, close) == Some(
                WidgetView::Group {
                    label: cmds[i]->Group_label,
                    children: compile_seq(
                        cmds[i]->Group_commands,
                        cmds[i]->Group_commands.len() as int,
                        layers,
                        close,
                    ),
                    close,
                },
            ))
        }),
{
    let cfg = config_spec(doc)->Ok_0;
    let cmds = cfg.commands;
    let close = cfg.settings.display;
    lemma_split_at(cmds, i, layers, close);
}

proof fn lemma_split_at(cmds: Seq<CommandView>, i: int, layers: int, close: Seq<char>)
    requires
        0 <= i < cmds.len(),
    ensures
        compile_seq(cmds, cmds.len() as int, layers, close) == compile_seq(cmds.take(i), i, layers, close)
            + opt_widget(compile_one(cmds[i], layers, close)) + compile_seq(
            cmds.skip(i + 1),
            cmds.len() - i - 1,
            layers,
            close,
        ),
{
    let a = cmds.take(i);
    let c = seq![cmds[i]];
    let b = cmds.skip(i + 1);
    assert(cmds =~= (a + c) + b);
    lemma_compile_append(a + c, b, layers, close);
    lemma_compile_append(a, c, layers, close);
    lemma_compile_single(cmds[i], layers, close);
}

/// A flag command whose identifier names no flag, multi-flag or special
/// effect is dropped, and only it: the other commands compile as if it were
/// absent.
pub proof fn lemma_unknown_flag_dropped(cmds: Seq<CommandView>, i: int, layers: int, close: Seq<char>)
    requires
        0 <= i < cmds.len(),
        cmds[i] is Flag,
        flag_of_name(cmds[i]->Flag_flag) is None,
        !is_show_map(cmds[i]->Flag_flag),
        special_of_name(cmds[i]->Flag_flag) is None,
    ensures
        compile_seq(cmds, cmds.len() as int, layers, close) == compile_seq(
            cmds.take(i) + cmds.skip(i + 1),
            cmds.len() - 1,
            layers,
            close,
        ),
{
    lemma_split_at(cmds, i, layers, close);
    let a = cmds.take(i);
    let b = cmds.skip(i + 1);
    lemma_compile_append(a, b, layers, close);
    assert(opt_widget(compile_one(cmds[i], layers, close)) =~= seq![]);
    let x = compile_seq(a, i, layers, close);
    assert(x + Seq::<WidgetView>::empty() =~= x);
}

/// The names among the first `n` that name no flag.
pub open spec fn unknown_names(names: Seq<Seq<char>>, n: int) -> Seq<Seq<char>>
    decreases n,
{
    if n <= 0 {
        seq![]
    } else if flag_of_name(names[n - 1]) is None {
        unknown_names(names, n - 1).push(names[n - 1])
    } else {
        unknown_names(names, n - 1)
    }
}

/// The identifiers that keep a command (or, in a group, its commands) from
/// compiling, for the diagnostic that names them.
pub open spec fn unresolved_one(c: CommandView, layers: int) -> Seq<Seq<char>>
    decreases c, 0int,
{
    match c {
        CommandView::Flag { flag, hotkey } => if compile_one(c, layers, seq![]) is None {
            seq![flag]
        } else {
            seq![]
        },
        CommandView::MultiFlagUser { flags, hotkey, label } => unknown_names(flags, flags.len() as int),
        CommandView::Group { label, commands } => unresolved_seq(commands, commands.len() as int, layers),
        _ => seq![],
    }
}

/// The unresolved identifiers of the first `n` commands, in order.
pub open spec fn unresolved_seq(s: Seq<CommandView>, n: int, layers: int) -> Seq<Seq<char>>
    decreases s, n,
{
    if n <= 0 || n > s.len() {
        seq![]
    } else {
        unresolved_seq(s, n - 1, layers) + unresolved_one(s[n - 1], layers)
    }
}

proof fn lemma_unknown_names_resolve(names: Seq<Seq<char>>, n: int)
    requires
        0 <= n <= names.len(),
    ensures
        resolve_flags(names, n) is None <==> unknown_names(names, n).len() > 0,
    decreases n,
{
    if n > 0 {
        lemma_unknown_names_resolve(names, n - 1);
    }
}

/// A command outside a group is dropped exactly when the diagnostic names at
/// least one of its identifiers.
pub proof fn lemma_dropped_iff_named(c: CommandView, layers: int)
    requires
        !(c is Group),
    ensures
        !resolvable(c, layers) <==> unresolved_one(c, layers).len() > 0,
{
    if let CommandView::MultiFlagUser { flags, hotkey, label } = c {
        lemma_unknown_names_resolve(flags, flags.len() as int);
    }
}

fn push_all(out: &mut Vec<String>, more: Vec<String>)
    ensures
        strs_view(final(out)@) == strs_view(old(out)@) + strs_view(more@),
{
    let mut i: usize = 0;
    while i < more.len()
        invariant
            i <= more@.len(),
            strs_view(out@) == strs_view(old(out)@) + strs_view(more@.subrange(0, i as int)),
        decreases more@.len() - i,
    {
        let ghost before = out@;
        out.push(more[i].clone());
        assert(strs_view(out@) =~= strs_view(before).push(more@[i as int]@));
        assert(strs_view(more@.subrange(0, i + 1)) =~= strs_view(more@.subrange(0, i as int)).push(more@[i as int]@));
        i = i + 1;
    }
    assert(more@.subrange(0, i as int) =~= more@);
}

fn unknown_flag_names(names: &Vec<String>) -> (r: Vec<String>)
    ensures
        strs_view(r@) == unknown_names(strs_view(names@), names.len() as int),
{
    let ghost sv = strs_view(names@);
    let mut out: Vec<String> = Vec::new();
    assert(strs_view(out@) =~= seq![]);
    let mut i: usize = 0;
    while i < names.len()
        invariant
            i <= names@.len(),
            sv == strs_view(names@),
            strs_view(out@) == unknown_names(sv, i as int),
        decreases names@.len() - i,
    {
        assert(sv[i as int] == names@[i as int]@);
        if FlagId::from_name(names[i].as_str()).is_none() {
            let ghost before = out@;
            out.push(names[i].clone());
            assert(strs_view(out@) =~= strs_view(before).push(names@[i as int]@));
        }
        i = i + 1;
    }
    out
}

/// The identifiers of one command that do not resolve.
pub fn unresolved_in(c: &CommandSpec, caps: Capabilities) -> (r: Vec<String>)
    ensures
        strs_view(r@) == unresolved_one(view_command(*c), caps.geometry_layers as int),
    decreases c,
{
    match c {
        CommandSpec::Flag { flag, hotkey } => {
            let resolves = if FlagId::from_name(flag.as_str()).is_some() {
                true
            } else if is_multi_flag(flag.as_str()) {
                caps.geometry_layers > 0
            } else {
                SpecialFlag::from_name(flag.as_str()).is_some()
            };
            let ghost cv = CommandView::Flag { flag: flag@, hotkey: opt_str_view(*hotkey) };
            assert(view_command(*c) == cv);
            assert(resolves <==> compile_one(cv, caps.geometry_layers as int, seq![]) is Some);
            if resolves {
                let r: Vec<String> = Vec::new();
                assert(strs_view(r@) =~= seq![]);
                r
            } else {
                let r = vec![flag.clone()];
                assert(strs_view(r@) =~= seq![flag@]);
                r
            }
        },
        CommandSpec::MultiFlagUser { flags, hotkey, label } => unknown_flag_names(flags),
        CommandSpec::Group { label, commands } => {
            proof {
                crate::command::lemma_view_commands_len(*commands, commands.len() as int);
            }
            unresolved_all(commands, caps)
        },
        _ => {
            let r: Vec<String> = Vec::new();
            assert(strs_view(r@) =~= seq![]);
            r
        },
    }
}

/// The identifiers of a command list that do not resolve, in order, groups
/// included: what compilation drops, named for the diagnostic.
pub fn unresolved_all(commands: &Vec<CommandSpec>, caps: Capabilities) -> (r: Vec<String>)
    ensures
        strs_view(r@) == unresolved_seq(
            view_commands(*commands, commands.len() as int),
            commands.len() as int,
            caps.geometry_layers as int,
        ),
    decreases commands,
{
    let ghost n = commands.len() as int;
    let ghost views = view_commands(*commands, n);
    let ghost layers = caps.geometry_layers as int;
    proof {
        crate::command::lemma_view_commands_len(*commands, n);
    }
    let mut out: Vec<String> = Vec::new();
    assert(strs_view(out@) =~= seq![]);
    let mut i: usize = 0;
    while i < commands.len()
        invariant
            i <= n,
            n == commands.len(),
            views == view_commands(*commands, n),
            views.len() == n,
            forall|j: int| 0 <= j < n ==> views[j] == view_command(#[trigger] commands[j]),
            strs_view(out@) == unresolved_seq(views, i as int, layers),
            layers == caps.geometry_layers as int,
        decreases n - i,
    {
        proof {
            assert(decreases_to!(*commands => commands[i as int]));
        }
        let more = unresolved_in(&commands[i], caps);
        push_all(&mut out, more);
        i = i + 1;
    }
    out
}

impl Config {
    /// The identifiers that compilation will drop, for the diagnostic.
    pub fn unresolved(&self, caps: Capabilities) -> (r: Vec<String>)
        ensures
            strs_view(r@) == unresolved_seq(self@.commands, self@.commands.len() as int, caps.geometry_layers as int),
    {
        proof {
            crate::command::lemma_view_commands_len(self.commands, self.commands.len() as int);
        }
        unresolved_all(&self.commands, caps)
    }
}

} // verus!

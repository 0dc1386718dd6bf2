use vstd::prelude::*;

verus! {

/// The character's level, attributes and held runes.
#[derive(Clone, Copy, Debug, PartialEq, Eq, Structural)]
pub struct CharacterStats {
    pub level: i32,
    pub vigor: i32,
    pub mind: i32,
    pub endurance: i32,
    pub strength: i32,
    pub dexterity: i32,
    pub intelligence: i32,
    pub faith: i32,
    pub arcane: i32,
    pub runes: i32,
}

/// The character's current and maximum resource points.
#[derive(Clone, Copy, Debug, PartialEq, Eq, Structural)]
pub struct CharacterPoints {
    pub hp: i32,
    pub fp: i32,
    pub stamina: i32,
    pub max_hp: i32,
    pub max_fp: i32,
    pub max_stamina: i32,
}

/// The blessing counters, where the host has them.
#[derive(Clone, Copy, Debug, PartialEq, Eq, Structural)]
pub struct CharacterBlessings {
    pub scadutree: u8,
    pub revered_spirit_ash: u8,
}

/// One editable field of the stat editor.
#[derive(Clone, Copy, Debug, PartialEq, Eq, Structural)]
pub enum StatField {
    Level,
    Vigor,
    Mind,
    Endurance,
    Strength,
    Dexterity,
    Intelligence,
    Faith,
    Arcane,
    Runes,
    Hp,
    Fp,
    Stamina,
    MaxHp,
    MaxFp,
    MaxStamina,
    Scadutree,
    ReveredSpiritAsh,
}

/// The smallest value a field takes.
pub open spec fn field_min(f: StatField) -> int {
    match f {
        StatField::Level => 1,
        StatField::Vigor => 1,
        StatField::Mind => 1,
        StatField::Endurance => 1,
        StatField::Strength => 1,
        StatField::Dexterity => 1,
        StatField::Intelligence => 1,
        StatField::Faith => 1,
        StatField::Arcane => 1,
        StatField::Runes => 0,
        StatField::Hp => 0,
        StatField::Fp => 0,
        StatField::Stamina => 0,
        StatField::MaxHp => 0,
        StatField::MaxFp => 0,
        StatField::MaxStamina => 0,
        StatField::Scadutree => 0,
        StatField::ReveredSpiritAsh => 0,
    }
}

/// The largest value a field takes.
pub open spec fn field_max(f: StatField) -> int {
    match f {
        StatField::Level => 713,
        StatField::Vigor => 99,
        StatField::Mind => 99,
        StatField::Endurance => 99,
        StatField::Strength => 99,
        StatField::Dexterity => 99,
        StatField::Intelligence => 99,
        StatField::Faith => 99,
        StatField::Arcane => 99,
        StatField::Runes => i32::MAX as int,
        StatField::Hp => i32::MAX as int,
        StatField::Fp => i32::MAX as int,
        StatField::Stamina => i32::MAX as int,
        StatField::MaxHp => i32::MAX as int,
        StatField::MaxFp => i32::MAX as int,
        StatField::MaxStamina => i32::MAX as int,
        StatField::Scadutree => 20,
        StatField::ReveredSpiritAsh => 10,
    }
}

pub open spec fn field_label(f: StatField) -> Seq<char> {
    match f {
        StatField::Level => "等级"@,
        StatField::Vigor => "生命力"@,
        StatField::Mind => "集中力"@,
        StatField::Endurance => "耐力"@,
        StatField::Strength => "力气"@,
        StatField::Dexterity => "灵巧"@,
        StatField::Intelligence => "智力"@,
        StatField::Faith => "信仰"@,
        StatField::Arcane => "感应"@,
        StatField::Runes => "卢恩"@,
        StatField::Hp => "血量"@,
        StatField::Fp => "专注值"@,
        StatField::Stamina => "精力"@,
        StatField::MaxHp => "血量上限"@,
        StatField::MaxFp => "专注值上限"@,
        StatField::MaxStamina => "精力上限"@,
        StatField::Scadutree => "幽影树庇佑"@,
        StatField::ReveredSpiritAsh => "灵灰庇佑"@,
    }
}

/// A value brought into a field's range.
pub open spec fn clamp(v: int, lo: int, hi: int) -> int {
    if v < lo {
        lo
    } else if v > hi {
        hi
    } else {
        v
    }
}

impl StatField {
    pub fn min(self) -> (r: i32)
        ensures
            r as int == field_min(self),
    {
        match self {
            StatField::Level => 1,
            StatField::Vigor => 1,
            StatField::Mind => 1,
            StatField::Endurance => 1,
            StatField::Strength => 1,
            StatField::Dexterity => 1,
            StatField::Intelligence => 1,
            StatField::Faith => 1,
            StatField::Arcane => 1,
            StatField::Runes => 0,
            StatField::Hp => 0,
            StatField::Fp => 0,
            StatField::Stamina => 0,
            StatField::MaxHp => 0,
            StatField::MaxFp => 0,
            StatField::MaxStamina => 0,
            StatField::Scadutree => 0,
            StatField::ReveredSpiritAsh => 0,
        }
    }

    pub fn max(self) -> (r: i32)
        ensures
            r as int == field_max(self),
    {
        match self {
            StatField::Level => 713,
            StatField::Vigor => 99,
            StatField::Mind => 99,
            StatField::Endurance => 99,
            StatField::Strength => 99,
            StatField::Dexterity => 99,
            StatField::Intelligence => 99,
            StatField::Faith => 99,
            StatField::Arcane => 99,
            StatField::Runes => i32::MAX,
            StatField::Hp => i32::MAX,
            StatField::Fp => i32::MAX,
            StatField::Stamina => i32::MAX,
            StatField::MaxHp => i32::MAX,
            StatField::MaxFp => i32::MAX,
            StatField::MaxStamina => i32::MAX,
            StatField::Scadutree => 20,
            StatField::ReveredSpiritAsh => 10,
        }
    }

    pub fn label(self) -> (r: &'static str)
        ensures
            r@ == field_label(self),
    {
        match self {
            StatField::Level => "等级",
            StatField::Vigor => "生命力",
            StatField::Mind => "集中力",
            StatField::Endurance => "耐力",
            StatField::Strength => "力气",
            StatField::Dexterity => "灵巧",
            StatField::Intelligence => "智力",
            StatField::Faith => "信仰",
            StatField::Arcane => "感应",
            StatField::Runes => "卢恩",
            StatField::Hp => "血量",
            StatField::Fp => "专注值",
            StatField::Stamina => "精力",
            StatField::MaxHp => "血量上限",
            StatField::MaxFp => "专注值上限",
            StatField::MaxStamina => "精力上限",
            StatField::Scadutree => "幽影树庇佑",
            StatField::ReveredSpiritAsh => "灵灰庇佑",
        }
    }

    /// `v` brought into the field's range.
    pub fn clamp(self, v: i32) -> (r: i32)
        ensures
            r as int == clamp(v as int, field_min(self), field_max(self)),
    {
        let lo = self.min();
        let hi = self.max();
        if v < lo {
            lo
        } else if v > hi {
            hi
        } else {
            v
        }
    }
}

pub open spec fn with_stat(s: CharacterStats, f: StatField, v: i32) -> CharacterStats {
    match f {
        StatField::Level => CharacterStats { level: v, ..s },
        StatField::Vigor => CharacterStats { vigor: v, ..s },
        StatField::Mind => CharacterStats { mind: v, ..s },
        StatField::Endurance => CharacterStats { endurance: v, ..s },
        StatField::Strength => CharacterStats { strength: v, ..s },
        StatField::Dexterity => CharacterStats { dexterity: v, ..s },
        StatField::Intelligence => CharacterStats { intelligence: v, ..s },
        StatField::Faith => CharacterStats { faith: v, ..s },
        StatField::Arcane => CharacterStats { arcane: v, ..s },
        StatField::Runes => CharacterStats { runes: v, ..s },
        _ => s,
    }
}

pub open spec fn with_point(p: CharacterPoints, f: StatField, v: i32) -> CharacterPoints {
    match f {
        StatField::Hp => CharacterPoints { hp: v, ..p },
        StatField::Fp => CharacterPoints { fp: v, ..p },
        StatField::Stamina => CharacterPoints { stamina: v, ..p },
        StatField::MaxHp => CharacterPoints { max_hp: v, ..p },
        StatField::MaxFp => CharacterPoints { max_fp: v, ..p },
        StatField::MaxStamina => CharacterPoints { max_stamina: v, ..p },
        _ => p,
    }
}

pub open spec fn with_blessing(b: CharacterBlessings, f: StatField, v: u8) -> CharacterBlessings {
    match f {
        StatField::Scadutree => CharacterBlessings { scadutree: v, ..b },
        StatField::ReveredSpiritAsh => CharacterBlessings { revered_spirit_ash: v, ..b },
        _ => b,
    }
}

pub open spec fn is_stat_field(f: StatField) -> bool {
    f == StatField::Level || f == StatField::Vigor || f == StatField::Mind || f == StatField::Endurance || f == StatField::Strength || f == StatField::Dexterity || f == StatField::Intelligence || f == StatField::Faith || f == StatField::Arcane || f == StatField::Runes
}

pub open spec fn is_point_field(f: StatField) -> bool {
    f == StatField::Hp || f == StatField::Fp || f == StatField::Stamina || f == StatField::MaxHp || f == StatField::MaxFp || f == StatField::MaxStamina
}

/// One row of the editor's layout.
#[derive(Clone, Copy, Debug, PartialEq, Eq, Structural)]
pub enum Datum {
    Field(StatField),
    Separator,
}

/// What the host holds for the edited character; `None` where a read failed
/// or the host has no such group.
#[derive(Clone, Copy, Debug, PartialEq, Eq, Structural)]
pub struct StatsSnapshot {
    pub stats: Option<CharacterStats>,
    pub points: Option<CharacterPoints>,
    pub blessings: Option<CharacterBlessings>,
}

/// The stat editor's local snapshot. Edits change only the snapshot; the host
/// is changed only by what `write` hands back.
#[derive(Clone, Copy, Debug, PartialEq, Eq, Structural)]
pub struct StatsEdit {
    /// Whether the host exposes the blessing counters at all.
    pub has_blessings: bool,
    pub stats: Option<CharacterStats>,
    pub points: Option<CharacterPoints>,
    pub blessings: Option<CharacterBlessings>,
}

pub open spec fn read_spec(e: StatsEdit, h: StatsSnapshot) -> StatsEdit {
    StatsEdit {
        has_blessings: e.has_blessings,
        stats: h.stats,
        points: h.points,
        blessings: if e.has_blessings { h.blessings } else { e.blessings },
    }
}

pub open spec fn set_spec(e: StatsEdit, f: StatField, v: i32) -> StatsEdit {
    let c = clamp(v as int, field_min(f), field_max(f));
    if is_stat_field(f) {
        match e.stats {
            Some(s) => StatsEdit { stats: Some(with_stat(s, f, c as i32)), ..e },
            None => e,
        }
    } else if is_point_field(f) {
        match e.points {
            Some(p) => StatsEdit { points: Some(with_point(p, f, c as i32)), ..e },
            None => e,
        }
    } else {
        match e.blessings {
            Some(b) => StatsEdit { blessings: Some(with_blessing(b, f, c as u8)), ..e },
            None => e,
        }
    }
}

/// What a write pushes to the host: every group the snapshot holds (blessings
/// only where the host has them).
pub open spec fn write_spec(e: StatsEdit) -> StatsSnapshot {
    StatsSnapshot {
        stats: e.stats,
        points: e.points,
        blessings: if e.has_blessings { e.blessings } else { None },
    }
}

pub open spec fn clear_spec(e: StatsEdit) -> StatsEdit {
    StatsEdit { stats: None, points: None, blessings: None, ..e }
}

/// The host after a best-effort write: each group that is written replaces
/// what the host held.
pub open spec fn apply_write(h: StatsSnapshot, w: StatsSnapshot) -> StatsSnapshot {
    StatsSnapshot {
        stats: if w.stats is Some { w.stats } else { h.stats },
        points: if w.points is Some { w.points } else { h.points },
        blessings: if w.blessings is Some { w.blessings } else { h.blessings },
    }
}

pub open spec fn layout_spec(e: StatsEdit) -> Option<Seq<Datum>> {
    match e.stats {
        None => None,
        Some(_) => Some(
            seq![
                Datum::Field(StatField::Level),
                Datum::Field(StatField::Vigor),
                Datum::Field(StatField::Mind),
                Datum::Field(StatField::Endurance),
                Datum::Field(StatField::Strength),
                Datum::Field(StatField::Dexterity),
                Datum::Field(StatField::Intelligence),
                Datum::Field(StatField::Faith),
                Datum::Field(StatField::Arcane),
                Datum::Field(StatField::Runes),
            ] + (if e.points is Some {
                seq![
                    Datum::Separator,
                    Datum::Field(StatField::Hp),
                    Datum::Field(StatField::Fp),
                    Datum::Field(StatField::Stamina),
                    Datum::Field(StatField::MaxHp),
                    Datum::Field(StatField::MaxFp),
                    Datum::Field(StatField::MaxStamina),
                ]
            } else {
                seq![]
            }) + (if e.blessings is Some {
                seq![
                    Datum::Separator,
                    Datum::Field(StatField::Scadutree),
                    Datum::Field(StatField::ReveredSpiritAsh),
                ]
            } else {
                seq![]
            }),
        ),
    }
}

fn set_stat(s: CharacterStats, f: StatField, v: i32) -> (r: CharacterStats)
    ensures
        r == with_stat(s, f, v),
{
    match f {
            StatField::Level => CharacterStats { level: v, ..s },
            StatField::Vigor => CharacterStats { vigor: v, ..s },
            StatField::Mind => CharacterStats { mind: v, ..s },
            StatField::Endurance => CharacterStats { endurance: v, ..s },
            StatField::Strength => CharacterStats { strength: v, ..s },
            StatField::Dexterity => CharacterStats { dexterity: v, ..s },
            StatField::Intelligence => CharacterStats { intelligence: v, ..s },
            StatField::Faith => CharacterStats { faith: v, ..s },
            StatField::Arcane => CharacterStats { arcane: v, ..s },
            StatField::Runes => CharacterStats { runes: v, ..s },
            _ => s,
    }
}

fn set_point(p: CharacterPoints, f: StatField, v: i32) -> (r: CharacterPoints)
    ensures
        r == with_point(p, f, v),
{
    match f {
            StatField::Hp => CharacterPoints { hp: v, ..p },
            StatField::Fp => CharacterPoints { fp: v, ..p },
            StatField::Stamina => CharacterPoints { stamina: v, ..p },
            StatField::MaxHp => CharacterPoints { max_hp: v, ..p },
            StatField::MaxFp => CharacterPoints { max_fp: v, ..p },
            StatField::MaxStamina => CharacterPoints { max_stamina: v, ..p },
            _ => p,
    }
}

fn set_blessing(b: CharacterBlessings, f: StatField, v: u8) -> (r: CharacterBlessings)
    ensures
        r == with_blessing(b, f, v),
{
    match f {
            StatField::Scadutree => CharacterBlessings { scadutree: v, ..b },
            StatField::ReveredSpiritAsh => CharacterBlessings { revered_spirit_ash: v, ..b },
            _ => b,
    }
}

impl StatsEdit {
    /// An editor with an empty snapshot.
    pub fn new(has_blessings: bool) -> (r: StatsEdit)
        ensures
            r == (StatsEdit { has_blessings, stats: None, points: None, blessings: None }),
    {
        StatsEdit { has_blessings, stats: None, points: None, blessings: None }
    }

    /// Fills the snapshot from what was read from the host.
    pub fn read(&mut self, host: StatsSnapshot)
        ensures
            *final(self) == read_spec(*old(self), host),
    {
        self.stats = host.stats;
        self.points = host.points;
        if self.has_blessings {
            self.blessings = host.blessings;
        }
    }

    /// Edits one field of the snapshot, clamped to the field's range. A field
    /// whose group is absent is left alone.
    pub fn set(&mut self, f: StatField, v: i32)
        ensures
            *final(self) == set_spec(*old(self), f, v),
    {
        let c = f.clamp(v);
        match f {
            StatField::Level | StatField::Vigor | StatField::Mind | StatField::Endurance
            | StatField::Strength | StatField::Dexterity | StatField::Intelligence
            | StatField::Faith | StatField::Arcane | StatField::Runes => {
                if let Some(s) = self.stats {
                    self.stats = Some(set_stat(s, f, c));
                }
            },
            StatField::Hp | StatField::Fp | StatField::Stamina | StatField::MaxHp
            | StatField::MaxFp | StatField::MaxStamina => {
                if let Some(p) = self.points {
                    self.points = Some(set_point(p, f, c));
                }
            },
            StatField::Scadutree | StatField::ReveredSpiritAsh => {
                if let Some(b) = self.blessings {
                    self.blessings = Some(set_blessing(b, f, c as u8));
                }
            },
        }
    }

    /// What to push to the host.
    pub fn write(&self) -> (r: StatsSnapshot)
        ensures
            r == write_spec(*self),
    {
        StatsSnapshot {
            stats: self.stats,
            points: self.points,
            blessings: if self.has_blessings {
                self.blessings
            } else {
                None
            },
        }
    }

    /// Discards the whole snapshot when the editor closes: uncommitted edits
    /// are lost and nothing is left to write.
    pub fn clear(&mut self)
        ensures
            *final(self) == clear_spec(*old(self)),
    {
        self.stats = None;
        self.points = None;
        self.blessings = None;
    }

    /// The rows to show: the stats, then the points and the blessings where
    /// the snapshot holds them, each group after a separator. `None` before a
    /// successful read.
    pub fn layout(&self) -> (r: Option<Vec<Datum>>)
        ensures
            match r {
                Some(v) => layout_spec(*self) == Some(v@),
                None => layout_spec(*self) is None,
            },
    {
        if self.stats.is_none() {
            return None;
        }
        let mut v: Vec<Datum> = vec![
            Datum::Field(StatField::Level),
            Datum::Field(StatField::Vigor),
            Datum::Field(StatField::Mind),
            Datum::Field(StatField::Endurance),
            Datum::Field(StatField::Strength),
            Datum::Field(StatField::Dexterity),
            Datum::Field(StatField::Intelligence),
            Datum::Field(StatField::Faith),
            Datum::Field(StatField::Arcane),
            Datum::Field(StatField::Runes),
        ];
        if self.points.is_some() {
            v.push(Datum::Separator);
            v.push(Datum::Field(StatField::Hp));
            v.push(Datum::Field(StatField::Fp));
            v.push(Datum::Field(StatField::Stamina));
            v.push(Datum::Field(StatField::MaxHp));
            v.push(Datum::Field(StatField::MaxFp));
            v.push(Datum::Field(StatField::MaxStamina));
        }
        if self.blessings.is_some() {
            v.push(Datum::Separator);
            v.push(Datum::Field(StatField::Scadutree));
            v.push(Datum::Field(StatField::ReveredSpiritAsh));
        }
        assert(layout_spec(*self) == Some(v@));
        Some(v)
    }
}

/// One operation on the stat editor.
pub enum EditOp {
    Read,
    Edit(StatField, i32),
    Write,
    Clear,
}

/// The editor and the host after a run of operations. Only `Write` touches the
/// host; `Read` reads it.
pub open spec fn run(e: StatsEdit, h: StatsSnapshot, ops: Seq<EditOp>) -> (StatsEdit, StatsSnapshot)
    decreases ops.len(),
{
    if ops.len() == 0 {
        (e, h)
    } else {
        let (e1, h1) = match ops[0] {
            EditOp::Read => (read_spec(e, h), h),
            EditOp::Edit(f, v) => (set_spec(e, f, v), h),
            EditOp::Write => (e, apply_write(h, write_spec(e))),
            EditOp::Clear => (clear_spec(e), h),
        };
        run(e1, h1, ops.drop_first())
    }
}

/// Closing the editor discards every uncommitted edit: nothing of the
/// snapshot is left, so a write after closing pushes nothing.
pub proof fn lemma_close_discards(e: StatsEdit)
    ensures
        clear_spec(e).stats is None,
        clear_spec(e).points is None,
        clear_spec(e).blessings is None,
        write_spec(clear_spec(e)) == (StatsSnapshot { stats: None, points: None, blessings: None }),
{
}

/// A session that never writes leaves the host as it was, whatever was edited
/// and however the editor was closed.
pub proof fn lemma_no_write_no_change(e: StatsEdit, h: StatsSnapshot, ops: Seq<EditOp>)
    requires
        forall|i: int| 0 <= i < ops.len() ==> !(#[trigger] ops[i] is Write),
    ensures
        run(e, h, ops).1 == h,
    decreases ops.len(),
{
    if ops.len() > 0 {
        assert(!(ops[0] is Write));
        let e1 = match ops[0] {
            EditOp::Read => read_spec(e, h),
            EditOp::Edit(f, v) => set_spec(e, f, v),
            EditOp::Write => e,
            EditOp::Clear => clear_spec(e),
        };
        assert forall|i: int| 0 <= i < ops.drop_first().len() implies !(#[trigger] ops.drop_first()[i] is Write) by {
            assert(ops.drop_first()[i] == ops[i + 1]);
        }
        lemma_no_write_no_change(e1, h, ops.drop_first());
    }
}

/// Opening (reading), editing one field and writing pushes exactly the edited
/// snapshot: the host then holds what it held with that one field changed to
/// the clamped value.
pub proof fn lemma_edit_then_write(e: StatsEdit, h: StatsSnapshot, f: StatField, v: i32)
    ensures
        ({
            let ops = seq![EditOp::Read, EditOp::Edit(f, v), EditOp::Write];
            let edited = set_spec(read_spec(e, h), f, v);
            &&& run(e, h, ops).1 == apply_write(h, write_spec(edited))
            &&& run(e, h, ops).0 == edited
        }),
{
    let ops = seq![EditOp::Read, EditOp::Edit(f, v), EditOp::Write];
    assert(ops.drop_first() =~= seq![EditOp::Edit(f, v), EditOp::Write]);
    assert(ops.drop_first().drop_first() =~= seq![EditOp::Write]);
    assert(ops.drop_first().drop_first().drop_first() =~= seq![]);
    let e1 = read_spec(e, h);
    let e2 = set_spec(e1, f, v);
    let h3 = apply_write(h, write_spec(e2));
    assert(ops[0] is Read);
    assert(run(e, h, ops) == run(e1, h, ops.drop_first()));
    assert(ops.drop_first()[0] == EditOp::Edit(f, v));
    assert(run(e1, h, ops.drop_first()) == run(e2, h, ops.drop_first().drop_first()));
    assert(ops.drop_first().drop_first()[0] is Write);
    assert(run(e2, h, ops.drop_first().drop_first()) == run(e2, h3, ops.drop_first().drop_first().drop_first()));
}

} // verus!

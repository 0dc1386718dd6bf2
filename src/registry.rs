use vstd::prelude::*;
use crate::document::str_eq;

verus! {

/// A single bit-flag of the host that a flag command can toggle. Each is
/// resolved against the live accessors by its identifier.
#[derive(Clone, Copy, Debug, PartialEq, Eq, Structural)]
pub enum FlagId {
    OneShot,
    NoDamage,
    NoDead,
    NoHit,
    NoGoodsConsume,
    NoStaminaConsume,
    NoFpConsume,
    NoAshesOfWarFpConsume,
    NoArrowsConsume,
    NoAttack,
    NoMove,
    NoUpdateAi,
    NoTriggerEvent,
    Runearc,
    Gravity,
    TorrentGravity,
    Collision,
    TorrentCollision,
    DisplayStablePos,
    WeaponHitbox1,
    WeaponHitbox2,
    WeaponHitbox3,
    HitboxHigh,
    HitboxLow,
    HitboxF,
    HitboxCharacter,
    HitboxEvent,
    FieldAreaDirection,
    FieldAreaAltimeter,
    FieldAreaCompass,
    ShowChr,
}

/// The flag that a configuration identifier names.
pub open spec fn flag_of_name(s: Seq<char>) -> Option<FlagId> {
    if s == "one_shot"@ {
        Some(FlagId::OneShot)
    } else if s == "no_damage"@ {
        Some(FlagId::NoDamage)
    } else if s == "no_dead"@ {
        Some(FlagId::NoDead)
    } else if s == "no_hit"@ {
        Some(FlagId::NoHit)
    } else if s == "no_goods_consume"@ {
        Some(FlagId::NoGoodsConsume)
    } else if s == "no_stamina_consume"@ {
        Some(FlagId::NoStaminaConsume)
    } else if s == "no_fp_consume"@ {
        Some(FlagId::NoFpConsume)
    } else if s == "no_ashes_of_war_fp_consume"@ {
        Some(FlagId::NoAshesOfWarFpConsume)
    } else if s == "no_arrows_consume"@ {
        Some(FlagId::NoArrowsConsume)
    } else if s == "no_attack"@ {
        Some(FlagId::NoAttack)
    } else if s == "no_move"@ {
        Some(FlagId::NoMove)
    } else if s == "no_update_ai"@ {
        Some(FlagId::NoUpdateAi)
    } else if s == "no_trigger_event"@ {
        Some(FlagId::NoTriggerEvent)
    } else if s == "runearc"@ {
        Some(FlagId::Runearc)
    } else if s == "gravity"@ {
        Some(FlagId::Gravity)
    } else if s == "torrent_gravity"@ {
        Some(FlagId::TorrentGravity)
    } else if s == "collision"@ {
        Some(FlagId::Collision)
    } else if s == "torrent_collision"@ {
        Some(FlagId::TorrentCollision)
    } else if s == "display_stable_pos"@ {
        Some(FlagId::DisplayStablePos)
    } else if s == "weapon_hitbox1"@ {
        Some(FlagId::WeaponHitbox1)
    } else if s == "weapon_hitbox2"@ {
        Some(FlagId::WeaponHitbox2)
    } else if s == "weapon_hitbox3"@ {
        Some(FlagId::WeaponHitbox3)
    } else if s == "hitbox_high"@ {
        Some(FlagId::HitboxHigh)
    } else if s == "hitbox_low"@ {
        Some(FlagId::HitboxLow)
    } else if s == "hitbox_f"@ {
        Some(FlagId::HitboxF)
    } else if s == "hitbox_character"@ {
        Some(FlagId::HitboxCharacter)
    } else if s == "hitbox_event"@ {
        Some(FlagId::HitboxEvent)
    } else if s == "field_area_direction"@ {
        Some(FlagId::FieldAreaDirection)
    } else if s == "field_area_altimeter"@ {
        Some(FlagId::FieldAreaAltimeter)
    } else if s == "field_area_compass"@ {
        Some(FlagId::FieldAreaCompass)
    } else if s == "show_chr"@ {
        Some(FlagId::ShowChr)
    } else {
        None
    }
}

/// The label shown for a flag.
pub open spec fn flag_label(f: FlagId) -> Seq<char> {
    match f {
        FlagId::OneShot => "一击必杀"@,
        FlagId::NoDamage => "全体无伤害"@,
        FlagId::NoDead => "不会死亡"@,
        FlagId::NoHit => "不会受击"@,
        FlagId::NoGoodsConsume => "物品使用无消耗"@,
        FlagId::NoStaminaConsume => "精力无消耗"@,
        FlagId::NoFpConsume => "专注值无消耗"@,
        FlagId::NoAshesOfWarFpConsume => "专注值无消耗 (战灰)"@,
        FlagId::NoArrowsConsume => "箭矢无消耗"@,
        FlagId::NoAttack => "不攻击"@,
        FlagId::NoMove => "不移动"@,
        FlagId::NoUpdateAi => "不计算AI"@,
        FlagId::NoTriggerEvent => "不触发事件"@,
        FlagId::Runearc => "卢恩弯弧"@,
        FlagId::Gravity => "无重力"@,
        FlagId::TorrentGravity => "无重力 (托雷特)"@,
        FlagId::Collision => "无碰撞"@,
        FlagId::TorrentCollision => "无碰撞 (托雷特)"@,
        FlagId::DisplayStablePos => "显示稳定站立位置"@,
        FlagId::WeaponHitbox1 => "武器碰撞检测框 #1"@,
        FlagId::WeaponHitbox2 => "武器碰撞检测框 #2"@,
        FlagId::WeaponHitbox3 => "武器碰撞检测框 #3"@,
        FlagId::HitboxHigh => "世界碰撞检测框 (高)"@,
        FlagId::HitboxLow => "世界碰撞检测框 (低)"@,
        FlagId::HitboxF => "墙碰撞检测框"@,
        FlagId::HitboxCharacter => "角色碰撞检测框"@,
        FlagId::HitboxEvent => "事件碰撞检测框"@,
        FlagId::FieldAreaDirection => "方向HUD"@,
        FlagId::FieldAreaAltimeter => "高度HUD"@,
        FlagId::FieldAreaCompass => "罗盘HUD"@,
        FlagId::ShowChr => "显示/隐藏角色"@,
    }
}

impl FlagId {
    /// The flag that a configuration identifier names, if any.
    pub fn from_name(s: &str) -> (r: Option<FlagId>)
        ensures
            r == flag_of_name(s@),
    {
        if str_eq(s, "one_shot") {
            Some(FlagId::OneShot)
        } else if str_eq(s, "no_damage") {
            Some(FlagId::NoDamage)
        } else if str_eq(s, "no_dead") {
            Some(FlagId::NoDead)
        } else if str_eq(s, "no_hit") {
            Some(FlagId::NoHit)
        } else if str_eq(s, "no_goods_consume") {
            Some(FlagId::NoGoodsConsume)
        } else if str_eq(s, "no_stamina_consume") {
            Some(FlagId::NoStaminaConsume)
        } else if str_eq(s, "no_fp_consume") {
            Some(FlagId::NoFpConsume)
        } else if str_eq(s, "no_ashes_of_war_fp_consume") {
            Some(FlagId::NoAshesOfWarFpConsume)
        } else if str_eq(s, "no_arrows_consume") {
            Some(FlagId::NoArrowsConsume)
        } else if str_eq(s, "no_attack") {
            Some(FlagId::NoAttack)
        } else if str_eq(s, "no_move") {
            Some(FlagId::NoMove)
        } else if str_eq(s, "no_update_ai") {
            Some(FlagId::NoUpdateAi)
        } else if str_eq(s, "no_trigger_event") {
            Some(FlagId::NoTriggerEvent)
        } else if str_eq(s, "runearc") {
            Some(FlagId::Runearc)
        } else if str_eq(s, "gravity") {
            Some(FlagId::Gravity)
        } else if str_eq(s, "torrent_gravity") {
            Some(FlagId::TorrentGravity)
        } else if str_eq(s, "collision") {
            Some(FlagId::Collision)
        } else if str_eq(s, "torrent_collision") {
            Some(FlagId::TorrentCollision)
        } else if str_eq(s, "display_stable_pos") {
            Some(FlagId::DisplayStablePos)
        } else if str_eq(s, "weapon_hitbox1") {
            Some(FlagId::WeaponHitbox1)
        } else if str_eq(s, "weapon_hitbox2") {
            Some(FlagId::WeaponHitbox2)
        } else if str_eq(s, "weapon_hitbox3") {
            Some(FlagId::WeaponHitbox3)
        } else if str_eq(s, "hitbox_high") {
            Some(FlagId::HitboxHigh)
        } else if str_eq(s, "hitbox_low") {
            Some(FlagId::HitboxLow)
        } else if str_eq(s, "hitbox_f") {
            Some(FlagId::HitboxF)
        } else if str_eq(s, "hitbox_character") {
            Some(FlagId::HitboxCharacter)
        } else if str_eq(s, "hitbox_event") {
            Some(FlagId::HitboxEvent)
        } else if str_eq(s, "field_area_direction") {
            Some(FlagId::FieldAreaDirection)
        } else if str_eq(s, "field_area_altimeter") {
            Some(FlagId::FieldAreaAltimeter)
        } else if str_eq(s, "field_area_compass") {
            Some(FlagId::FieldAreaCompass)
        } else if str_eq(s, "show_chr") {
            Some(FlagId::ShowChr)
        } else {
            None
        }
    }

    /// The label shown for the flag.
    pub fn label(self) -> (r: &'static str)
        ensures
            r@ == flag_label(self),
    {
        match self {
            FlagId::OneShot => "一击必杀",
            FlagId::NoDamage => "全体无伤害",
            FlagId::NoDead => "不会死亡",
            FlagId::NoHit => "不会受击",
            FlagId::NoGoodsConsume => "物品使用无消耗",
            FlagId::NoStaminaConsume => "精力无消耗",
            FlagId::NoFpConsume => "专注值无消耗",
            FlagId::NoAshesOfWarFpConsume => "专注值无消耗 (战灰)",
            FlagId::NoArrowsConsume => "箭矢无消耗",
            FlagId::NoAttack => "不攻击",
            FlagId::NoMove => "不移动",
            FlagId::NoUpdateAi => "不计算AI",
            FlagId::NoTriggerEvent => "不触发事件",
            FlagId::Runearc => "卢恩弯弧",
            FlagId::Gravity => "无重力",
            FlagId::TorrentGravity => "无重力 (托雷特)",
            FlagId::Collision => "无碰撞",
            FlagId::TorrentCollision => "无碰撞 (托雷特)",
            FlagId::DisplayStablePos => "显示稳定站立位置",
            FlagId::WeaponHitbox1 => "武器碰撞检测框 #1",
            FlagId::WeaponHitbox2 => "武器碰撞检测框 #2",
            FlagId::WeaponHitbox3 => "武器碰撞检测框 #3",
            FlagId::HitboxHigh => "世界碰撞检测框 (高)",
            FlagId::HitboxLow => "世界碰撞检测框 (低)",
            FlagId::HitboxF => "墙碰撞检测框",
            FlagId::HitboxCharacter => "角色碰撞检测框",
            FlagId::HitboxEvent => "事件碰撞检测框",
            FlagId::FieldAreaDirection => "方向HUD",
            FlagId::FieldAreaAltimeter => "高度HUD",
            FlagId::FieldAreaCompass => "罗盘HUD",
            FlagId::ShowChr => "显示/隐藏角色",
        }
    }
}

/// The effects that are wired by hand rather than through a single flag.
#[derive(Clone, Copy, Debug, PartialEq, Eq, Structural)]
pub enum SpecialFlag {
    Deathcam,
    ActionFreeze,
}

pub open spec fn special_of_name(s: Seq<char>) -> Option<SpecialFlag> {
    if s == "deathcam"@ {
        Some(SpecialFlag::Deathcam)
    } else if s == "action_freeze"@ {
        Some(SpecialFlag::ActionFreeze)
    } else {
        None
    }
}

impl SpecialFlag {
    pub fn from_name(s: &str) -> (r: Option<SpecialFlag>)
        ensures
            r == special_of_name(s@),
    {
        if str_eq(s, "deathcam") {
            Some(SpecialFlag::Deathcam)
        } else if str_eq(s, "action_freeze") {
            Some(SpecialFlag::ActionFreeze)
        } else {
            None
        }
    }
}

/// A flag after resolution: a named flag, or one layer of the map-geometry
/// visibility flags.
#[derive(Clone, Copy, Debug, PartialEq, Eq, Structural)]
pub enum FlagBinding {
    Named(FlagId),
    GeometryLayer(usize),
}

/// How many logical positions the map-visibility switch drives.
pub const SHOW_MAP_POSITIONS: usize = 16;

/// The identifier of the map-visibility multi-flag.
pub open spec fn is_show_map(s: Seq<char>) -> bool {
    s == "show_map"@
}

pub open spec fn show_map_label() -> Seq<char> {
    "显示/隐藏地图"@
}

/// The layer that a logical position reads: the position itself when the host
/// exposes that many layers, else the last layer it does expose.
pub open spec fn clamped_layer(position: int, layers: int) -> int {
    if position < layers {
        position
    } else {
        layers - 1
    }
}

/// The bindings of the map-visibility switch over `layers` geometry layers.
pub open spec fn show_map_spec(layers: int) -> Seq<FlagBinding> {
    Seq::new(SHOW_MAP_POSITIONS as nat, |i: int| FlagBinding::GeometryLayer(clamped_layer(i, layers) as usize))
}

pub fn geometry_layer(position: usize, layers: usize) -> (r: usize)
    requires
        layers > 0,
    ensures
        r == clamped_layer(position as int, layers as int),
        r < layers,
{
    if position < layers {
        position
    } else {
        layers - 1
    }
}

/// Whether a multi-flag identifier is known.
pub fn is_multi_flag(s: &str) -> (r: bool)
    ensures
        r == is_show_map(s@),
{
    str_eq(s, "show_map")
}

pub fn show_map_title() -> (r: &'static str)
    ensures
        r@ == show_map_label(),
{
    "显示/隐藏地图"
}

/// Resolves the map-visibility switch against the number of geometry layers
/// that the host exposes. Positions past the last layer read the last layer;
/// with no layer at all nothing can be bound.
pub fn show_map_bindings(layers: usize) -> (r: Option<Vec<FlagBinding>>)
    ensures
        layers == 0 <==> r is None,
        r is Some ==> r->Some_0@ == show_map_spec(layers as int),
{
    if layers == 0 {
        return None;
    }
    let mut v: Vec<FlagBinding> = Vec::new();
    let mut i: usize = 0;
    while i < SHOW_MAP_POSITIONS
        invariant
            i <= SHOW_MAP_POSITIONS,
            layers > 0,
            v@ =~= show_map_spec(layers as int).subrange(0, i as int),
        decreases SHOW_MAP_POSITIONS - i,
    {
        v.push(FlagBinding::GeometryLayer(geometry_layer(i, layers)));
        i = i + 1;
    }
    assert(v@ =~= show_map_spec(layers as int));
    Some(v)
}

/// Every position of the map-visibility switch reads a layer that exists:
/// its own when there are enough, else the last one.
pub proof fn lemma_show_map_in_bounds(layers: int, position: int)
    requires
        layers > 0,
        0 <= position < SHOW_MAP_POSITIONS,
        layers <= usize::MAX,
    ensures
        show_map_spec(layers)[position] == FlagBinding::GeometryLayer(clamped_layer(position, layers) as usize),
        0 <= clamped_layer(position, layers) < layers,
        position >= layers ==> clamped_layer(position, layers) == layers - 1,
        position < layers ==> clamped_layer(position, layers) == position,
{
}

} // verus!

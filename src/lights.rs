//! Player lights that show a controller's battery level.

use vstd::prelude::*;

verus! {

/// Charge of a controller's battery, lowest first.
#[derive(Clone, Copy, Debug, PartialEq, Eq, Structural)]
pub enum BatteryLevel {
    Empty,
    Critical,
    Low,
    Medium,
    Full,
}

/// The state of one player light.
#[derive(Clone, Copy, Debug, PartialEq, Eq, Structural)]
pub enum PlayerLight {
    Off,
    On,
    Blinking,
}

/// The place of a level in the order from empty to full.
pub open spec fn level_rank(l: BatteryLevel) -> nat {
    match l {
        BatteryLevel::Empty => 0,
        BatteryLevel::Critical => 1,
        BatteryLevel::Low => 2,
        BatteryLevel::Medium => 3,
        BatteryLevel::Full => 4,
    }
}

pub open spec fn lit(on: bool) -> PlayerLight {
    if on {
        PlayerLight::On
    } else {
        PlayerLight::Off
    }
}

/// One light per step from low to full; the last light is steady from low
/// upward and blinks below it.
pub open spec fn lights_for(l: BatteryLevel) -> Seq<PlayerLight> {
    seq![
        lit(level_rank(l) >= 4),
        lit(level_rank(l) >= 3),
        lit(level_rank(l) >= 2),
        if level_rank(l) >= 2 {
            PlayerLight::On
        } else {
            PlayerLight::Blinking
        },
    ]
}

impl BatteryLevel {
    pub fn rank(&self) -> (r: u8)
        ensures
            r == level_rank(*self),
    {
        match self {
            BatteryLevel::Empty => 0,
            BatteryLevel::Critical => 1,
            BatteryLevel::Low => 2,
            BatteryLevel::Medium => 3,
            BatteryLevel::Full => 4,
        }
    }
}

fn light(on: bool) -> (r: PlayerLight)
    ensures
        r == lit(on),
{
    if on {
        PlayerLight::On
    } else {
        PlayerLight::Off
    }
}

/// The four player lights that show `level`.
pub fn battery_lights(level: BatteryLevel) -> (r: [PlayerLight; 4])
    ensures
        r@ == lights_for(level),
{
    let rank = level.rank();
    let last = if rank >= 2 {
        PlayerLight::On
    } else {
        PlayerLight::Blinking
    };
    let r = [light(rank >= 4), light(rank >= 3), light(rank >= 2), last];
    assert(r@ =~= lights_for(level));
    r
}

/// The lights to set after a battery report of `now`, given the level shown
/// so far: none while the level is unchanged.
pub fn on_battery_report(shown: Option<BatteryLevel>, now: BatteryLevel) -> (r: Option<
    [PlayerLight; 4],
>)
    ensures
        r is None <==> shown == Some(now),
        r matches Some(l) ==> l@ == lights_for(now),
{
    match shown {
        Some(level) if level == now => None,
        _ => Some(battery_lights(now)),
    }
}

} // verus!

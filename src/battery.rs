//! The first battery's charge and health.
use vstd::prelude::*;

verus! {

#[derive(Clone, Copy, Debug, PartialEq, Eq, Structural)]
pub enum BatteryState {
    Unknown,
    Charging,
    Discharging,
    Empty,
    Full,
}

/// What the power-management interface reports of the first battery.
/// Fractions are in units of 1/10000.
#[derive(Clone, Copy, Debug, PartialEq, Eq, Structural)]
pub struct BatterySample {
    pub state_of_charge: u32,
    pub state_of_health: u32,
    pub state: BatteryState,
    /// Estimated time to empty, in seconds, when the interface gives one.
    pub time_to_empty_secs: Option<u64>,
}

#[derive(Clone, Copy, Debug, PartialEq, Eq, Structural)]
pub struct BatteryInfo {
    /// Charge in hundredths of a percent.
    pub percentage: u32,
    pub is_charging: bool,
    pub time_remaining_minutes: Option<u64>,
    /// Health in hundredths of a percent.
    pub health_percent: u32,
}

/// Charging, or full on external power.
pub open spec fn on_charge(s: BatteryState) -> bool {
    s == BatteryState::Charging || s == BatteryState::Full
}

pub open spec fn battery_info_of(b: BatterySample) -> BatteryInfo {
    BatteryInfo {
        percentage: b.state_of_charge,
        is_charging: on_charge(b.state),
        time_remaining_minutes: if on_charge(b.state) {
            None
        } else {
            match b.time_to_empty_secs {
                Some(t) => Some((t / 60) as u64),
                None => None,
            }
        },
        health_percent: b.state_of_health,
    }
}

/// The battery part of a snapshot: `None` without a battery. A fraction in
/// units of 1/10000 is the same number as a percentage in hundredths. No
/// time remaining is given while charging or full.
pub fn collect_battery_info(sample: Option<BatterySample>) -> (r: Option<BatteryInfo>)
    ensures
        r == match sample {
            Some(b) => Some(battery_info_of(b)),
            None => None,
        },
{
    let b = match sample {
        Some(b) => b,
        None => return None,
    };
    let is_charging = b.state == BatteryState::Charging || b.state == BatteryState::Full;
    let time_remaining_minutes = if is_charging {
        None
    } else {
        match b.time_to_empty_secs {
            Some(t) => Some(t / 60),
            None => None,
        }
    };
    Some(
        BatteryInfo {
            percentage: b.state_of_charge,
            is_charging,
            time_remaining_minutes,
            health_percent: b.state_of_health,
        },
    )
}

} // verus!

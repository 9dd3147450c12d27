//! The portal's replies, decoded: one record per endpoint, field for field.
use vstd::prelude::*;
use crate::number::{Double, Single};

verus! {

/// The profile that comes with a login.
pub struct UserInfo {
    pub id: u64,
    pub username: String,
    pub email: String,
    pub country: String,
}

/// What the login endpoint answers.
pub struct LoginResponse {
    pub code: i8,
    pub success: bool,
    pub token: String,
    pub user: UserInfo,
}

/// What the site endpoint answers: the site's name and its meter totals.
pub struct SiteResponse {
    pub rated_power: Single,
    pub grid_power: Single,
    pub total_yield: Double,
    pub total_eps_energy: Single,
    pub month_eps_energy: Single,
    pub month_yield: Single,
    pub site_name: String,
    pub inverter_num: i16,
    pub today_yield: Single,
    pub year_yield: Double,
    pub year_eps_energy: Single,
    pub today_eps_energy: Single,
}

/// One device of a site.
pub struct InverterInfo {
    pub wifi_sn: String,
    pub sn: String,
}

/// What the device endpoint answers: the devices of a site, one row each.
pub struct InvertersResponse {
    pub rows: Vec<InverterInfo>,
}

/// What the telemetry endpoint answers. A channel that the inverter does not
/// have is absent.
pub struct InverterStateResponse {
    pub battery_voltage: Option<Double>,
    pub battery_capacity: Option<Single>,
    pub battery_temperature_high: Option<Single>,
    pub battery_temperature_low: Option<Single>,
    /// Signed: below zero while the site draws from the grid.
    pub grid_power: Double,
    /// Direct current, one channel per string of panels.
    pub array_power: [Option<Double>; 12],
    /// Alternating current, one channel per phase.
    pub inverter_power: [Option<Double>; 3],
}

impl InverterStateResponse {
    /// A battery reports all four of its readings or none: where a voltage
    /// is present, so are capacity and both temperatures.
    pub open spec fn complete(&self) -> bool {
        self.battery_voltage.is_some() ==> self.battery_capacity.is_some()
            && self.battery_temperature_high.is_some()
            && self.battery_temperature_low.is_some()
    }

    pub fn is_complete(&self) -> (r: bool)
        ensures
            r == self.complete(),
    {
        self.battery_voltage.is_none() || (self.battery_capacity.is_some()
            && self.battery_temperature_high.is_some()
            && self.battery_temperature_low.is_some())
    }
}

} // verus!

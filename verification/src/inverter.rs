//! An inverter's state at one moment, derived from the portal's telemetry.
use vstd::prelude::*;
use crate::battery::Battery;
use crate::models::InverterStateResponse;
use crate::number::Double;

verus! {

/// A sum of readings, held as its addends in the order in which they are
/// added. The library never rounds: whoever needs the number adds them up,
/// the first two first.
#[derive(Debug)]
pub struct Total {
    pub addends: Vec<Double>,
}

impl View for Total {
    type V = Seq<Double>;

    open spec fn view(&self) -> Seq<Double> {
        self.addends@
    }
}

/// An inverter's readings at one moment.
#[derive(Debug)]
pub struct Inverter {
    pub battery: Option<Battery>,
    pub array_power: Total,
    pub grid_power_import: Double,
    pub grid_power_export: Double,
    pub power: Total,
}

/// What a channel adds to a total: its reading, or zero where it is absent.
pub open spec fn addend(channel: Option<Double>) -> Double {
    match channel {
        Some(reading) => reading,
        None => Double { bits: 0 },
    }
}

/// The addends of a total over some channels, one for each channel.
pub open spec fn addends<const N: usize>(channels: [Option<Double>; N]) -> Seq<Double> {
    Seq::new(N as nat, |i: int| addend(channels@[i]))
}

/// The battery that a telemetry record reports, if it reports one: the
/// voltage decides, and the readings are taken as they are.
pub open spec fn battery_of(state: InverterStateResponse) -> Option<Battery> {
    match state.battery_voltage {
        Some(voltage) => Some(
            Battery {
                capacity: state.battery_capacity.unwrap(),
                temperature_high: state.battery_temperature_high.unwrap(),
                temperature_low: state.battery_temperature_low.unwrap(),
                voltage,
            },
        ),
        None => None,
    }
}

/// The power drawn from the grid: the size of a reading below zero.
pub open spec fn import_of(grid_power: Double) -> Double {
    if grid_power.below_zero() {
        grid_power.magnitude()
    } else {
        Double { bits: 0 }
    }
}

/// The power fed into the grid: the size of a reading that is not below zero.
pub open spec fn export_of(grid_power: Double) -> Double {
    if grid_power.below_zero() {
        Double { bits: 0 }
    } else {
        grid_power.magnitude()
    }
}

impl Total {
    /// The total over some channels.
    pub fn over<const N: usize>(channels: &[Option<Double>; N]) -> (r: Total)
        ensures
            r@ == addends(*channels),
    {
        let mut list: Vec<Double> = Vec::new();
        let mut i: usize = 0;
        while i < N
            invariant
                i <= N,
                list@.len() == i,
                forall|k: int| 0 <= k < i ==> list@[k] == addend(#[trigger] channels@[k]),
            decreases N - i,
        {
            let term = match channels[i] {
                Some(reading) => reading,
                None => Double::zero(),
            };
            list.push(term);
            i += 1;
        }
        assert(list@ =~= addends(*channels));
        Total { addends: list }
    }
}

impl Inverter {
    /// Whether this is the state that a telemetry record reports: grid power
    /// split by its sign, the battery where there is one, and the two totals
    /// over the record's channels.
    pub open spec fn derived_from(self, state: InverterStateResponse) -> bool {
        &&& self.grid_power_import == import_of(state.grid_power)
        &&& self.grid_power_export == export_of(state.grid_power)
        &&& self.battery == battery_of(state)
        &&& self.array_power@ == addends(state.array_power)
        &&& self.power@ == addends(state.inverter_power)
    }

    /// Derives an inverter's state from a telemetry record.
    pub fn from_inverter_state(state: InverterStateResponse) -> (r: Inverter)
        requires
            state.complete(),
        ensures
            r.derived_from(state),
            r.grid_power_import.bits == 0 || r.grid_power_export.bits == 0,
    {
        let size = state.grid_power.abs();
        let mut import = Double::zero();
        let mut export = Double::zero();
        if state.grid_power.is_below_zero() {
            import = size;
        } else {
            export = size;
        }
        let battery = match state.battery_voltage {
            Some(voltage) => Some(
                Battery {
                    capacity: state.battery_capacity.unwrap(),
                    temperature_high: state.battery_temperature_high.unwrap(),
                    temperature_low: state.battery_temperature_low.unwrap(),
                    voltage,
                },
            ),
            None => None,
        };
        let array_power = Total::over(&state.array_power);
        let power = Total::over(&state.inverter_power);
        Inverter {
            battery,
            array_power,
            grid_power_import: import,
            grid_power_export: export,
            power,
        }
    }
}

/// Power flows one way at a time: of import and export one is zero and the
/// other is the size of the reading. A reading below zero is all import, any
/// other is all export, and a reading of zero leaves both at zero.
pub proof fn grid_power_is_split(grid_power: Double)
    ensures
        import_of(grid_power).bits == 0 || export_of(grid_power).bits == 0,
        grid_power.below_zero() ==> import_of(grid_power) == grid_power.magnitude()
            && export_of(grid_power).bits == 0,
        !grid_power.below_zero() ==> export_of(grid_power) == grid_power.magnitude()
            && import_of(grid_power).bits == 0,
        grid_power.is_zero() ==> import_of(grid_power).bits == 0 && export_of(
            grid_power,
        ).bits == 0,
        import_of(grid_power).bits != 0 ==> grid_power.below_zero(),
{
}

/// A battery is reported exactly where the record holds a voltage, and then
/// with the record's four readings, unchanged.
pub proof fn battery_follows_voltage(state: InverterStateResponse)
    requires
        state.complete(),
    ensures
        battery_of(state).is_some() <==> state.battery_voltage.is_some(),
        battery_of(state).is_some() ==> {
            &&& Some(battery_of(state).unwrap().voltage) == state.battery_voltage
            &&& Some(battery_of(state).unwrap().capacity) == state.battery_capacity
            &&& Some(battery_of(state).unwrap().temperature_high)
                == state.battery_temperature_high
            &&& Some(battery_of(state).unwrap().temperature_low)
                == state.battery_temperature_low
        },
{
}

/// A total has one addend for each channel: the reading of a channel that is
/// present, zero for one that is absent.
pub proof fn addends_follow_channels<const N: usize>(channels: [Option<Double>; N], i: int)
    requires
        0 <= i < N,
    ensures
        addends(channels).len() == N,
        channels@[i].is_some() ==> Some(addends(channels)[i]) == channels@[i],
        channels@[i].is_none() ==> addends(channels)[i].bits == 0,
{
}

} // verus!

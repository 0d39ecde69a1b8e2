//! CPU and GPU die temperatures, as read from the System Management Controller.

use vstd::prelude::*;

use crate::figure::Figure;

verus! {

/// Temperature readings in degrees Celsius. `None` means the sensor is
/// unavailable.
pub struct TemperatureData {
    pub cpu_temp: Option<Figure>,
    pub gpu_temp: Option<Figure>,
}

impl Default for TemperatureData {
    /// No readings: both sensors unavailable.
    fn default() -> (r: Self)
        ensures
            r.cpu_temp is None,
            r.gpu_temp is None,
    {
        TemperatureData { cpu_temp: None, gpu_temp: None }
    }
}

/// Which of a chip's two SMC sensors a reading is taken from.
#[derive(Clone, Copy, Debug, PartialEq, Eq, Structural)]
pub enum Sensor {
    /// The sensor on the chip's die (matches what `powermetrics` reports).
    Die,
    /// The sensor next to the chip.
    Proximity,
}

/// The sensor whose value a chip's temperature is taken from, given whether
/// each sensor's value is plausible (strictly between 0 and 150 °C): the die
/// sensor where plausible, else the proximity sensor where plausible, else
/// none (the temperature is unavailable).
pub fn pick_sensor(die_plausible: bool, proximity_plausible: bool) -> (r: Option<Sensor>)
    ensures
        die_plausible ==> r == Some(Sensor::Die),
        !die_plausible && proximity_plausible ==> r == Some(Sensor::Proximity),
        !die_plausible && !proximity_plausible ==> r is None,
{
    if die_plausible {
        Some(Sensor::Die)
    } else if proximity_plausible {
        Some(Sensor::Proximity)
    } else {
        None
    }
}

} // verus!

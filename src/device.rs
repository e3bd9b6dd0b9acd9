use vstd::prelude::*;

verus! {

/// The speed of one fan, in percent, at the time of a reading.
#[derive(Clone, Copy, Debug, PartialEq, Eq, Structural)]
pub struct FanSpeedInfo {
    pub fan_id: u32,
    pub speed: u32,
}

/// One sampling of the monitored device: its name, its temperature in
/// degrees Celsius, and the speed of each of its fans.
#[derive(Debug)]
pub struct DeviceInfo {
    pub name: String,
    pub temperature: u32,
    pub fan_speeds: Vec<FanSpeedInfo>,
}

impl DeviceInfo {
    /// Builds a snapshot from the values read off the device; the fans are
    /// numbered in the order of `speeds`, from 0.
    pub fn new(name: String, temperature: u32, speeds: Vec<u32>) -> (r: DeviceInfo)
        requires
            speeds@.len() <= u32::MAX as int + 1,
        ensures
            r.name@ == name@,
            r.temperature == temperature,
            r.fan_speeds@.len() == speeds@.len(),
            forall|i: int|
                0 <= i < speeds@.len() ==> #[trigger] r.fan_speeds@[i] == (FanSpeedInfo {
                    fan_id: i as u32,
                    speed: speeds@[i],
                }),
    {
        let mut fan_speeds: Vec<FanSpeedInfo> = Vec::new();
        let n: usize = speeds.len();
        let mut i: usize = 0;
        while i < n
            invariant
                n == speeds@.len(),
                n <= u32::MAX as int + 1,
                i <= n,
                fan_speeds@.len() == i,
                forall|j: int|
                    0 <= j < i ==> #[trigger] fan_speeds@[j] == (FanSpeedInfo {
                        fan_id: j as u32,
                        speed: speeds@[j],
                    }),
            decreases n - i,
        {
            fan_speeds.push(FanSpeedInfo { fan_id: i as u32, speed: speeds[i] });
            i = i + 1;
        }
        DeviceInfo { name, temperature, fan_speeds }
    }
}

} // verus!

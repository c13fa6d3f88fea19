//! The hardware collaborator as the control core sees it: three relays, one
//! temperature sensor, and the list of relay writes that are still to be
//! carried out on the pins.

use vstd::prelude::*;
use crate::sensor::{
    family_code, is_ds18b20, is_first_ds18b20, sensor_accepts, sensor_family_code, DS18B20_FAMILY,
};
use crate::units::{celsius_of, fahrenheit_of, round_div_exec};

verus! {

/// The temperature reported while no reading has ever succeeded.
pub const DEFAULT_TEMPERATURE_C: i32 = 25_000;

/// One of the three relay outputs.
#[derive(Debug, Clone, Copy, PartialEq, Eq, Structural)]
pub enum Relay {
    Heat,
    Cool,
    Fan,
}

/// A change of one relay output: the pin goes high when `on`, low otherwise.
#[derive(Debug, Clone, Copy, PartialEq, Eq, Structural)]
pub struct RelayWrite {
    pub relay: Relay,
    pub on: bool,
}

/// Tracks the relays and the sensor.
pub struct Controller {
    is_cooling: bool,
    is_heating: bool,
    is_fan: bool,
    sensor: Option<u64>,
    last_temperature_c: Option<i32>,
    writes: Vec<RelayWrite>,
}

/// What a `Controller` stands for.
pub struct ControllerModel {
    pub heating: bool,
    pub cooling: bool,
    pub fan: bool,
    /// The address of the sensor, if one was found.
    pub sensor: Option<u64>,
    /// The last successful reading, in thousandths of a degree Celsius.
    pub last_temperature_c: Option<i32>,
    /// The relay writes that still have to reach the pins, oldest first.
    pub writes: Seq<RelayWrite>,
}

impl ControllerModel {
    /// The commanded state of `relay`.
    pub open spec fn relay(self, relay: Relay) -> bool {
        match relay {
            Relay::Heat => self.heating,
            Relay::Cool => self.cooling,
            Relay::Fan => self.fan,
        }
    }

    /// The controller after `relay` was commanded to `on`: unchanged when the
    /// relay is in that state already, else switched, with one write appended.
    pub open spec fn command(self, relay: Relay, on: bool) -> ControllerModel {
        if self.relay(relay) == on {
            self
        } else {
            let writes = self.writes.push(RelayWrite { relay, on });
            match relay {
                Relay::Heat => ControllerModel { heating: on, writes, ..self },
                Relay::Cool => ControllerModel { cooling: on, writes, ..self },
                Relay::Fan => ControllerModel { fan: on, writes, ..self },
            }
        }
    }

    /// The result of a reading attempt: nothing without a sensor, the
    /// measurement when there is one, else the last successful reading.
    pub open spec fn reading(self, measurement: Option<i32>) -> Option<i32> {
        if self.sensor is None {
            None
        } else if measurement is Some {
            measurement
        } else {
            self.last_temperature_c
        }
    }

    /// The controller after a reading attempt: a measurement taken from an
    /// existing sensor is remembered.
    pub open spec fn after_reading(self, measurement: Option<i32>) -> ControllerModel {
        if self.sensor is Some && measurement is Some {
            ControllerModel { last_temperature_c: measurement, ..self }
        } else {
            self
        }
    }

    /// The temperature to work with after a reading attempt.
    pub open spec fn temperature_c(self, measurement: Option<i32>) -> i32 {
        match self.reading(measurement) {
            Some(temperature) => temperature,
            None => DEFAULT_TEMPERATURE_C,
        }
    }
}

impl View for Controller {
    type V = ControllerModel;

    closed spec fn view(&self) -> ControllerModel {
        ControllerModel {
            heating: self.is_heating,
            cooling: self.is_cooling,
            fan: self.is_fan,
            sensor: self.sensor,
            last_temperature_c: self.last_temperature_c,
            writes: self.writes@,
        }
    }
}

impl Controller {
    /// Creates the controller for a bus on which a search found `addresses`,
    /// in this order. All relays are off, and a write that switches each one
    /// off is pending.
    pub fn new(addresses: &Vec<u64>) -> (controller: Controller)
        ensures
            !controller@.heating,
            !controller@.cooling,
            !controller@.fan,
            is_first_ds18b20(addresses@, controller@.sensor),
            controller@.last_temperature_c is None,
            controller@.writes == seq![
                RelayWrite { relay: Relay::Heat, on: false },
                RelayWrite { relay: Relay::Cool, on: false },
                RelayWrite { relay: Relay::Fan, on: false },
            ],
    {
        let sensor = Self::find_ds18b20_sensor(addresses);
        let mut writes: Vec<RelayWrite> = Vec::new();
        writes.push(RelayWrite { relay: Relay::Heat, on: false });
        writes.push(RelayWrite { relay: Relay::Cool, on: false });
        writes.push(RelayWrite { relay: Relay::Fan, on: false });
        let controller = Controller {
            is_cooling: false,
            is_heating: false,
            is_fan: false,
            sensor,
            last_temperature_c: None,
            writes,
        };
        assert(controller@.writes =~= seq![
            RelayWrite { relay: Relay::Heat, on: false },
            RelayWrite { relay: Relay::Cool, on: false },
            RelayWrite { relay: Relay::Fan, on: false },
        ]);
        controller
    }

    /// Picks the sensor among the devices that a bus search reported, in the
    /// order in which it reported them: the first whose family code is that
    /// of the DS18B20.
    pub fn find_ds18b20_sensor(addresses: &Vec<u64>) -> (found: Option<u64>)
        ensures
            is_first_ds18b20(addresses@, found),
    {
        let family = sensor_family_code();
        let mut index: usize = 0;
        while index < addresses.len()
            invariant
                index <= addresses.len(),
                family == DS18B20_FAMILY,
                forall|j: int| 0 <= j < index ==> !is_ds18b20(#[trigger] addresses@[j]),
            decreases addresses.len() - index,
        {
            let address = addresses[index];
            if family_code(address) == family {
                assert(addresses@[index as int] == address);
                return if sensor_accepts(address) {
                    Some(address)
                } else {
                    None
                };
            }
            index += 1;
        }
        None
    }

    /// Takes in the outcome of a measurement on the bus (`None` when it
    /// failed) and returns the reading, if there is one.
    pub fn read_temperature(&mut self, measurement: Option<i32>) -> (reading: Option<i32>)
        ensures
            reading == old(self)@.reading(measurement),
            final(self)@ == old(self)@.after_reading(measurement),
    {
        if self.sensor.is_none() {
            return None;
        }
        match measurement {
            Some(temperature) => {
                self.last_temperature_c = Some(temperature);
                Some(temperature)
            },
            None => self.last_temperature_c,
        }
    }

    /// The current temperature in thousandths of a degree Celsius, after the
    /// outcome of a measurement was taken in.
    pub fn get_temperature_c(&mut self, measurement: Option<i32>) -> (temperature: i32)
        ensures
            temperature == old(self)@.temperature_c(measurement),
            final(self)@ == old(self)@.after_reading(measurement),
    {
        match self.read_temperature(measurement) {
            Some(temperature) => temperature,
            None => DEFAULT_TEMPERATURE_C,
        }
    }

    /// The current temperature in thousandths of a degree Fahrenheit, after
    /// the outcome of a measurement was taken in.
    pub fn get_temperature_f(&mut self, measurement: Option<i32>) -> (temperature: i64)
        ensures
            temperature == fahrenheit_of(old(self)@.temperature_c(measurement) as int),
            final(self)@ == old(self)@.after_reading(measurement),
    {
        Self::celsius_to_fahrenheit(self.get_temperature_c(measurement))
    }

    /// Converts Celsius to Fahrenheit, both in thousandths of a degree.
    pub fn celsius_to_fahrenheit(celsius: i32) -> (fahrenheit: i64)
        ensures
            fahrenheit == fahrenheit_of(celsius as int),
    {
        let scaled: i128 = 9 * (celsius as i128);
        let wide = round_div_exec(scaled, 5) + 32_000;
        assert(-4_000_000_000 <= (18 * celsius + 5) / 10 + 32_000 <= 4_000_000_000);
        wide as i64
    }

    /// Converts Fahrenheit to Celsius, both in thousandths of a degree.
    pub fn fahrenheit_to_celsius(fahrenheit: i32) -> (celsius: i32)
        ensures
            celsius == celsius_of(fahrenheit as int),
    {
        let scaled: i128 = 5 * (fahrenheit as i128 - 32_000);
        let wide = round_div_exec(scaled, 9);
        assert(i32::MIN <= (10 * (fahrenheit - 32_000) + 9) / 18 <= i32::MAX);
        wide as i32
    }

    /// Commands the cooling relay.
    pub fn set_cooling(&mut self, enabled: bool)
        ensures
            final(self)@ == old(self)@.command(Relay::Cool, enabled),
    {
        if self.is_cooling == enabled {
            return;
        }
        self.is_cooling = enabled;
        self.writes.push(RelayWrite { relay: Relay::Cool, on: enabled });
    }

    /// Commands the heating relay.
    pub fn set_heating(&mut self, enabled: bool)
        ensures
            final(self)@ == old(self)@.command(Relay::Heat, enabled),
    {
        if self.is_heating == enabled {
            return;
        }
        self.is_heating = enabled;
        self.writes.push(RelayWrite { relay: Relay::Heat, on: enabled });
    }

    /// Commands the fan relay.
    pub fn set_fan(&mut self, enabled: bool)
        ensures
            final(self)@ == old(self)@.command(Relay::Fan, enabled),
    {
        if self.is_fan == enabled {
            return;
        }
        self.is_fan = enabled;
        self.writes.push(RelayWrite { relay: Relay::Fan, on: enabled });
    }

    /// Hands out the pending relay writes, oldest first, and forgets them.
    pub fn take_writes(&mut self) -> (writes: Vec<RelayWrite>)
        ensures
            writes@ == old(self)@.writes,
            final(self)@ == (ControllerModel { writes: Seq::empty(), ..old(self)@ }),
    {
        let mut writes: Vec<RelayWrite> = Vec::new();
        std::mem::swap(&mut writes, &mut self.writes);
        writes
    }

    /// Whether the heating relay is commanded on.
    pub fn is_heating(&self) -> (on: bool)
        ensures
            on == self@.heating,
    {
        self.is_heating
    }

    /// Whether the cooling relay is commanded on.
    pub fn is_cooling(&self) -> (on: bool)
        ensures
            on == self@.cooling,
    {
        self.is_cooling
    }

    /// Whether the fan relay is commanded on.
    pub fn is_fan(&self) -> (on: bool)
        ensures
            on == self@.fan,
    {
        self.is_fan
    }

    /// The address of the sensor, if one was found.
    pub fn sensor(&self) -> (address: Option<u64>)
        ensures
            address == self@.sensor,
    {
        self.sensor
    }

    /// The last successful reading, if there was one.
    pub fn last_temperature_c(&self) -> (reading: Option<i32>)
        ensures
            reading == self@.last_temperature_c,
    {
        self.last_temperature_c
    }
}

} // verus!

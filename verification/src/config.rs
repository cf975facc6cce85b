use vstd::prelude::*;

verus! {

/// The addresses of the plant's devices, bus by bus, as the configuration
/// of the application lists them.
pub struct Addresses {
    /// Pressure transducers on bus 0.
    pub pressure_transducer_bus_0: Vec<u8>,
    /// Pressure transducers on bus 1.
    pub pressure_transducer_bus_1: Vec<u8>,
    /// Pressure transducers on bus 2.
    pub pressure_transducer_bus_2: Vec<u8>,
    /// Flowmeters on bus 0.
    pub flowmeter_bus_0: Vec<u8>,
    /// Flowmeters on bus 1.
    pub flowmeter_bus_1: Vec<u8>,
    /// Flowmeters on bus 2.
    pub flowmeter_bus_2: Vec<u8>,
    /// Power grid monitors.
    pub power_grid_monitor: Vec<u8>,
    /// Pier fans.
    pub pier_fan: Vec<u8>,
    /// Recirculation pumps.
    pub recirculation_pump: Vec<u8>,
    /// Chillers.
    pub chiller: Vec<u8>,
}

impl Addresses {
    /// The addresses of the pressure transducers on bus `bus` (0 to 2).
    pub open spec fn pressure_transducer_bus(&self, bus: int) -> Seq<u8> {
        if bus == 0 {
            self.pressure_transducer_bus_0@
        } else if bus == 1 {
            self.pressure_transducer_bus_1@
        } else {
            self.pressure_transducer_bus_2@
        }
    }

    /// The addresses of the flowmeters on bus `bus` (0 to 2).
    pub open spec fn flowmeter_bus(&self, bus: int) -> Seq<u8> {
        if bus == 0 {
            self.flowmeter_bus_0@
        } else if bus == 1 {
            self.flowmeter_bus_1@
        } else {
            self.flowmeter_bus_2@
        }
    }
}

/// Configuration of the application.
pub struct Config {
    /// Addresses of the devices on the buses.
    pub addresses: Addresses,
}

impl Config {
    /// The configuration with the device addresses `addresses`, as read from
    /// the parameter file of the application.
    pub fn new(addresses: Addresses) -> (config: Config)
        ensures
            config.addresses == addresses,
    {
        Config { addresses }
    }
}

} // verus!

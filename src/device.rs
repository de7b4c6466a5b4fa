//! The initialised engine and the mode it was put in.
use vstd::prelude::*;
use vstd::string::StringSliceAdditionalSpecFns;
use crate::config::NetworkConfig;
use crate::status::{classify, StatusError};

verus! {

/// The network interface a chip was last asked to run.
#[derive(Debug, Clone, Copy, PartialEq, Eq, Structural)]
pub enum Mode {
    /// Brought up, no interface started yet.
    Initialized,
    /// Joining or joined to a network as a client.
    Station,
    /// Running its own network as an access point.
    SoftAp,
}

/// Proof that the engine was brought up, and the mode it was last put in.
pub struct MxChip {
    mode: Mode,
}

impl View for MxChip {
    type V = Mode;

    closed spec fn view(&self) -> Mode {
        self.mode
    }
}

impl MxChip {
    /// The chip, if the engine's bring-up reported `status` success; else the
    /// classified failure, and no chip.
    pub fn from_init_status(status: i32) -> (r: Result<MxChip, StatusError>)
        ensures
            r is Ok <==> classify(status) is Ok,
            r matches Ok(c) ==> c@ == Mode::Initialized,
            r matches Err(e) ==> classify(status) == Err::<(), StatusError>(e),
    {
        match StatusError::check_error(status) {
            Ok(()) => Ok(MxChip { mode: Mode::Initialized }),
            Err(e) => Err(e),
        }
    }

    /// The mode the chip was last put in.
    pub fn mode(&self) -> (r: Mode)
        ensures
            r == self@,
    {
        self.mode
    }

    /// Turns the chip into a wifi client of network `ssid`. The returned
    /// configuration is to be handed to the engine's start primitive; whether
    /// joining works is reported later to the status handler.
    pub fn station_mode(&mut self, ssid: &str, password: &str) -> (r: NetworkConfig)
        ensures
            final(self)@ == Mode::Station,
            r.is_station(ssid.spec_bytes(), password.spec_bytes()),
    {
        self.mode = Mode::Station;
        NetworkConfig::station(ssid, password)
    }

    /// Turns the chip into an access point for network `ssid`. Clients are given
    /// addresses from 192.168.0.10 to 192.168.0.177. The returned configuration
    /// is to be handed to the engine's start primitive.
    pub fn soft_ap_mode(&mut self, ssid: &str, password: &str) -> (r: NetworkConfig)
        ensures
            final(self)@ == Mode::SoftAp,
            r.is_soft_ap(ssid.spec_bytes(), password.spec_bytes()),
    {
        self.mode = Mode::SoftAp;
        NetworkConfig::soft_ap(ssid, password)
    }
}

} // verus!

//! The types of value that packets carry.

use vstd::prelude::*;

verus! {

/// The type of value that a packet carries: each codec is registered under one.
#[derive(Clone, Copy, Debug, PartialEq, Eq, Structural)]
pub enum PacketKind {
    SetHumidifierMode,
    NotifyHumidifierMode,
    HumidifierAutoMode,
    NotifyHumidifierNightlightParams,
    SetHumidifierNightlightParams,
    H5086PowerReading,
    SetH7105FanSpeed,
    NotifyH7105FanSpeed,
    SetH7105FanMode,
    NotifyH7105FanMode,
    SetH7105NightlightPower,
    SetH7105NightlightBrightness,
    SetH7105NightlightColor,
    NotifyH7105NightlightState,
    NotifyH7105NightlightColor,
    SetH7105Oscillation,
    NotifyH7105Oscillation,
    SetSceneCode,
    SetDevicePower,
}

} // verus!

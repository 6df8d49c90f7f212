//! Air pressure sensor class (0x002D).
use vstd::prelude::*;

use crate::adapter::{spec_dispatch, Adapter, DeviceClass, Step, AIR_PRESSURE_CODE};
use crate::request::RequestKind;

verus! {

/// Air pressure sensor class (0x002D).
#[derive(Clone, Copy, Debug, PartialEq, Eq, Structural)]
pub struct AirPressure {
    pub dev: Adapter,
}

impl AirPressure {
    /// The device object is of its own class.
    pub open spec fn wf(&self) -> bool {
        self.dev.class == DeviceClass::AirPressure
    }

    /// The device object under its class's object code.
    pub fn new() -> (r: AirPressure)
        ensures
            r.wf(),
            r.dev == (Adapter { class: DeviceClass::AirPressure, code: AIR_PRESSURE_CODE }),
    {
        AirPressure { dev: Adapter::new(DeviceClass::AirPressure) }
    }

    /// Looks at a request for the object `deoj` and says how it goes on.
    pub fn property_request_received(
        &self,
        deoj: u32,
        kind: RequestKind,
        prop: u8,
        data: &Vec<u8>,
    ) -> (r: Step)
        requires
            self.wf(),
        ensures
            r == spec_dispatch(DeviceClass::AirPressure, self.dev.code, deoj, kind, prop, data@),
    {
        self.dev.handle(deoj, kind, prop, data)
    }
}

} // verus!

//! Temperature sensor class (0x0011).
use vstd::prelude::*;

use crate::adapter::{spec_dispatch, Adapter, DeviceClass, Step, TEMPERATURE_CODE};
use crate::request::RequestKind;

verus! {

/// Temperature sensor class (0x0011).
#[derive(Clone, Copy, Debug, PartialEq, Eq, Structural)]
pub struct Temperature {
    pub dev: Adapter,
}

impl Temperature {
    /// The device object is of its own class.
    pub open spec fn wf(&self) -> bool {
        self.dev.class == DeviceClass::Temperature
    }

    /// The device object under its class's object code.
    pub fn new() -> (r: Temperature)
        ensures
            r.wf(),
            r.dev == (Adapter { class: DeviceClass::Temperature, code: TEMPERATURE_CODE }),
    {
        Temperature { dev: Adapter::new(DeviceClass::Temperature) }
    }

    /// Looks at a request for the object `deoj` and says how it goes on.
    pub fn property_request_received(
        &self,
        deoj: u32,
        kind: RequestKind,
        prop: u8,
        data: &Vec<u8>,
    ) -> (r: Step)
        requires
            self.wf(),
        ensures
            r == spec_dispatch(DeviceClass::Temperature, self.dev.code, deoj, kind, prop, data@),
    {
        self.dev.handle(deoj, kind, prop, data)
    }
}

} // verus!

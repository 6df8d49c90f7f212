//! Humidity sensor class (0x0012).
use vstd::prelude::*;

use crate::adapter::{spec_dispatch, Adapter, DeviceClass, Step, HUMIDITY_CODE};
use crate::request::RequestKind;

verus! {

/// Humidity sensor class (0x0012).
#[derive(Clone, Copy, Debug, PartialEq, Eq, Structural)]
pub struct Humidity {
    pub dev: Adapter,
}

impl Humidity {
    /// The device object is of its own class.
    pub open spec fn wf(&self) -> bool {
        self.dev.class == DeviceClass::Humidity
    }

    /// The device object under its class's object code.
    pub fn new() -> (r: Humidity)
        ensures
            r.wf(),
            r.dev == (Adapter { class: DeviceClass::Humidity, code: HUMIDITY_CODE }),
    {
        Humidity { dev: Adapter::new(DeviceClass::Humidity) }
    }

    /// Looks at a request for the object `deoj` and says how it goes on.
    pub fn property_request_received(
        &self,
        deoj: u32,
        kind: RequestKind,
        prop: u8,
        data: &Vec<u8>,
    ) -> (r: Step)
        requires
            self.wf(),
        ensures
            r == spec_dispatch(DeviceClass::Humidity, self.dev.code, deoj, kind, prop, data@),
    {
        self.dev.handle(deoj, kind, prop, data)
    }
}

} // verus!

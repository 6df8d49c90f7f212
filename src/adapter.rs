//! Device objects and how each answers a property request.
use vstd::prelude::*;

use crate::codec::{be_value, decode_payload};
use crate::encoding::{reading_payload, Sensor};
use crate::request::RequestKind;

verus! {

/// Property code of the operating status.
pub const PROP_OPERATING_STATUS: u8 = 0x80;

/// Property code of a sensor's measured value.
pub const PROP_MEASURED_VALUE: u8 = 0xE0;

/// Property code of the light's illuminance level setting.
pub const PROP_ILLUMINANCE_LEVEL: u8 = 0xB0;

/// Operating status value that turns the light on.
pub const STATUS_ON: u32 = 0x30;

/// Operating status value that turns the light off.
pub const STATUS_OFF: u32 = 0x31;

/// Object code of the temperature sensor, instance 1.
pub const TEMPERATURE_CODE: u32 = 0x001101;

/// Object code of the humidity sensor, instance 1.
pub const HUMIDITY_CODE: u32 = 0x001201;

/// Object code of the air pressure sensor, instance 1.
pub const AIR_PRESSURE_CODE: u32 = 0x002D01;

/// Object code of the mono functional light, instance 1.
pub const MONO_LIGHT_CODE: u32 = 0x029101;

/// The device classes that the Sense HAT provides.
#[derive(Clone, Copy, Debug, PartialEq, Eq, Structural)]
pub enum DeviceClass {
    Temperature,
    Humidity,
    AirPressure,
    MonoLight,
}

/// What the LED matrix is told to do.
#[derive(Clone, Copy, Debug, PartialEq, Eq, Structural)]
pub enum DisplayCommand {
    /// Show that the light is on.
    ShowOn,
    /// Blank the display.
    Clear,
}

/// How a request goes on after the device object has looked at it.
#[derive(Clone, Copy, Debug, PartialEq, Eq, Structural)]
pub enum Step {
    /// Answered without the hardware: accepted or rejected.
    Done(bool),
    /// Accepted if reading the sensor succeeds; the reading then becomes
    /// the response payload.
    Read(Sensor),
    /// Accepted if the display command succeeds.
    Display(DisplayCommand),
}

/// The object code that a class takes on this node.
pub open spec fn spec_class_code(c: DeviceClass) -> u32 {
    match c {
        DeviceClass::Temperature => TEMPERATURE_CODE,
        DeviceClass::Humidity => HUMIDITY_CODE,
        DeviceClass::AirPressure => AIR_PRESSURE_CODE,
        DeviceClass::MonoLight => MONO_LIGHT_CODE,
    }
}

/// The sensor that a class reports, if it is a sensor.
pub open spec fn spec_class_sensor(c: DeviceClass) -> Option<Sensor> {
    match c {
        DeviceClass::Temperature => Some(Sensor::Temperature),
        DeviceClass::Humidity => Some(Sensor::Humidity),
        DeviceClass::AirPressure => Some(Sensor::Pressure),
        DeviceClass::MonoLight => None,
    }
}

/// How a sensor object answers a request addressed to it.
pub open spec fn spec_sensor_step(s: Sensor, kind: RequestKind, prop: u8) -> Step {
    if kind.spec_is_read() {
        if prop == PROP_OPERATING_STATUS {
            Step::Done(true)
        } else if prop == PROP_MEASURED_VALUE {
            Step::Read(s)
        } else {
            Step::Done(false)
        }
    } else {
        Step::Done(false)
    }
}

/// How the light answers a request addressed to it: of reads only those of
/// the operating status and the illuminance level setting, and of writes only
/// an on or off value for the operating status.
pub open spec fn spec_light_step(kind: RequestKind, prop: u8, data: Seq<u8>) -> Step {
    if kind.spec_is_read() {
        Step::Done(prop == PROP_OPERATING_STATUS || prop == PROP_ILLUMINANCE_LEVEL)
    } else if kind.spec_is_write() && prop == PROP_OPERATING_STATUS && data.len() <= 4 {
        if be_value(data) == STATUS_ON {
            Step::Display(DisplayCommand::ShowOn)
        } else if be_value(data) == STATUS_OFF {
            Step::Display(DisplayCommand::Clear)
        } else {
            Step::Done(false)
        }
    } else {
        Step::Done(false)
    }
}

/// How an object of class `c` with code `own` answers a request for the
/// object `deoj`: a request for another object is rejected.
pub open spec fn spec_dispatch(
    c: DeviceClass,
    own: u32,
    deoj: u32,
    kind: RequestKind,
    prop: u8,
    data: Seq<u8>,
) -> Step {
    if deoj != own {
        Step::Done(false)
    } else {
        match spec_class_sensor(c) {
            Some(s) => spec_sensor_step(s, kind, prop),
            None => spec_light_step(kind, prop, data),
        }
    }
}

impl DeviceClass {
    /// The object code that this class takes on this node.
    pub fn code(&self) -> (r: u32)
        ensures
            r == spec_class_code(*self),
    {
        match self {
            DeviceClass::Temperature => TEMPERATURE_CODE,
            DeviceClass::Humidity => HUMIDITY_CODE,
            DeviceClass::AirPressure => AIR_PRESSURE_CODE,
            DeviceClass::MonoLight => MONO_LIGHT_CODE,
        }
    }

    /// The sensor that this class reports, if it is a sensor.
    pub fn sensor(&self) -> (r: Option<Sensor>)
        ensures
            r == spec_class_sensor(*self),
    {
        match self {
            DeviceClass::Temperature => Some(Sensor::Temperature),
            DeviceClass::Humidity => Some(Sensor::Humidity),
            DeviceClass::AirPressure => Some(Sensor::Pressure),
            DeviceClass::MonoLight => None,
        }
    }
}

fn sensor_step(s: Sensor, kind: RequestKind, prop: u8) -> (r: Step)
    ensures
        r == spec_sensor_step(s, kind, prop),
{
    match kind {
        RequestKind::Read | RequestKind::Notification => {
            if prop == PROP_OPERATING_STATUS {
                Step::Done(true)
            } else if prop == PROP_MEASURED_VALUE {
                Step::Read(s)
            } else {
                Step::Done(false)
            }
        },
        _ => Step::Done(false),
    }
}

fn light_step(kind: RequestKind, prop: u8, data: &Vec<u8>) -> (r: Step)
    ensures
        r == spec_light_step(kind, prop, data@),
{
    match kind {
        RequestKind::Read | RequestKind::Notification => {
            Step::Done(prop == PROP_OPERATING_STATUS || prop == PROP_ILLUMINANCE_LEVEL)
        },
        RequestKind::Write | RequestKind::WriteRead => {
            if prop != PROP_OPERATING_STATUS {
                return Step::Done(false);
            }
            match decode_payload(data) {
                Some(v) => {
                    if v == STATUS_ON {
                        Step::Display(DisplayCommand::ShowOn)
                    } else if v == STATUS_OFF {
                        Step::Display(DisplayCommand::Clear)
                    } else {
                        Step::Done(false)
                    }
                },
                None => Step::Done(false),
            }
        },
        RequestKind::Other => Step::Done(false),
    }
}

/// A device object: its class and its object code.
#[derive(Clone, Copy, Debug, PartialEq, Eq, Structural)]
pub struct Adapter {
    pub class: DeviceClass,
    pub code: u32,
}

impl Adapter {
    /// The device object of a class, under that class's object code.
    pub fn new(class: DeviceClass) -> (r: Adapter)
        ensures
            r.class == class,
            r.code == spec_class_code(class),
    {
        Adapter { class, code: class.code() }
    }

    /// Looks at a request for the object `deoj` with property `prop` and
    /// payload `data`, and says how it goes on.
    pub fn handle(&self, deoj: u32, kind: RequestKind, prop: u8, data: &Vec<u8>) -> (r: Step)
        ensures
            r == spec_dispatch(self.class, self.code, deoj, kind, prop, data@),
    {
        if deoj != self.code {
            return Step::Done(false);
        }
        match self.class.sensor() {
            Some(s) => sensor_step(s, kind, prop),
            None => light_step(kind, prop, data),
        }
    }
}

/// The response payload once a sensor read has been tried: the encoded
/// reading, given in hundredths of the sensor's unit, or `None` when the
/// read failed, in which case the request is rejected and no payload is set.
pub fn finish_read(s: Sensor, reading: Option<i64>) -> (r: Option<Vec<u8>>)
    ensures
        match reading {
            Some(v) => r is Some && r->Some_0@ == reading_payload(s, v as int),
            None => r is None,
        },
{
    match reading {
        Some(v) => Some(s.encode(v)),
        None => None,
    }
}

/// A device object rejects every request for another object, whatever its
/// kind, property and payload.
pub proof fn lemma_other_object_rejected(
    c: DeviceClass,
    own: u32,
    deoj: u32,
    kind: RequestKind,
    prop: u8,
    data: Seq<u8>,
)
    requires
        deoj != own,
    ensures
        spec_dispatch(c, own, deoj, kind, prop, data) == Step::Done(false),
{
}

/// A read or notification request for the operating status is accepted at
/// once, without the sensor or the display.
pub proof fn lemma_operating_status_read_accepted(
    c: DeviceClass,
    own: u32,
    kind: RequestKind,
    data: Seq<u8>,
)
    requires
        kind.spec_is_read(),
    ensures
        spec_dispatch(c, own, own, kind, PROP_OPERATING_STATUS, data) == Step::Done(true),
{
}

/// A read or notification request for a sensor's measured value reads that
/// sensor; the response payload is then what `finish_read` makes of it.
pub proof fn lemma_measured_value_read(c: DeviceClass, own: u32, kind: RequestKind, data: Seq<u8>)
    requires
        kind.spec_is_read(),
        spec_class_sensor(c) is Some,
    ensures
        spec_dispatch(c, own, own, kind, PROP_MEASURED_VALUE, data) == Step::Read(
            spec_class_sensor(c)->Some_0,
        ),
{
}

/// A sensor object rejects every write request, whatever the object,
/// property and payload.
pub proof fn lemma_sensor_rejects_writes(
    c: DeviceClass,
    own: u32,
    deoj: u32,
    kind: RequestKind,
    prop: u8,
    data: Seq<u8>,
)
    requires
        spec_class_sensor(c) is Some,
        kind.spec_is_write(),
    ensures
        spec_dispatch(c, own, deoj, kind, prop, data) == Step::Done(false),
{
}

/// The light accepts a read or notification request for its operating status
/// or its illuminance level setting, and rejects one for any other property.
pub proof fn lemma_light_read(own: u32, kind: RequestKind, prop: u8, data: Seq<u8>)
    requires
        kind.spec_is_read(),
    ensures
        spec_dispatch(DeviceClass::MonoLight, own, own, kind, prop, data) == Step::Done(
            prop == PROP_OPERATING_STATUS || prop == PROP_ILLUMINANCE_LEVEL,
        ),
{
}

/// A write of the light's operating status shows "on" for the value 0x30,
/// blanks the display for 0x31, and is rejected for every other value.
pub proof fn lemma_light_status_write(own: u32, kind: RequestKind, data: Seq<u8>)
    requires
        kind.spec_is_write(),
    ensures
        data.len() <= 4 && be_value(data) == STATUS_ON ==> spec_dispatch(
            DeviceClass::MonoLight,
            own,
            own,
            kind,
            PROP_OPERATING_STATUS,
            data,
        ) == Step::Display(DisplayCommand::ShowOn),
        data.len() <= 4 && be_value(data) == STATUS_OFF ==> spec_dispatch(
            DeviceClass::MonoLight,
            own,
            own,
            kind,
            PROP_OPERATING_STATUS,
            data,
        ) == Step::Display(DisplayCommand::Clear),
        !(data.len() <= 4 && (be_value(data) == STATUS_ON || be_value(data) == STATUS_OFF))
            ==> spec_dispatch(DeviceClass::MonoLight, own, own, kind, PROP_OPERATING_STATUS, data)
            == Step::Done(false),
{
}

} // verus!

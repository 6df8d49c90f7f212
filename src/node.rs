//! The registry of device objects on one node.
use vstd::prelude::*;

use crate::adapter::{spec_class_code, spec_dispatch, Adapter, DeviceClass, Step};
use crate::request::RequestKind;

verus! {

/// No two device objects share an object code.
pub open spec fn codes_unique(devs: Seq<Adapter>) -> bool {
    forall|i: int, j: int|
        0 <= i < j < devs.len() ==> #[trigger] devs[i].code != #[trigger] devs[j].code
}

/// Whether some device object has the code.
pub open spec fn has_code(devs: Seq<Adapter>, code: u32) -> bool {
    exists|i: int| 0 <= i < devs.len() && #[trigger] devs[i].code == code
}

/// The device objects of a node, each under a code of its own. A request is
/// routed to the object whose code it names.
pub struct Node {
    devices: Vec<Adapter>,
}

impl View for Node {
    type V = Seq<Adapter>;

    closed spec fn view(&self) -> Seq<Adapter> {
        self.devices@
    }
}

impl Node {
    /// Every object code on the node is owned by one object only.
    pub open spec fn wf(&self) -> bool {
        codes_unique(self@)
    }

    /// A node with no device object.
    pub fn empty() -> (r: Node)
        ensures
            r@ == Seq::<Adapter>::empty(),
            r.wf(),
    {
        Node { devices: Vec::new() }
    }

    /// The node of the Sense HAT: air pressure, temperature, humidity and the
    /// light, each under its class's object code.
    pub fn new() -> (r: Node)
        ensures
            r.wf(),
            r@ == seq![
                Adapter { class: DeviceClass::AirPressure, code: spec_class_code(DeviceClass::AirPressure) },
                Adapter { class: DeviceClass::Temperature, code: spec_class_code(DeviceClass::Temperature) },
                Adapter { class: DeviceClass::Humidity, code: spec_class_code(DeviceClass::Humidity) },
                Adapter { class: DeviceClass::MonoLight, code: spec_class_code(DeviceClass::MonoLight) },
            ],
    {
        let mut node = Node::empty();
        node.register(Adapter::new(DeviceClass::AirPressure));
        node.register(Adapter::new(DeviceClass::Temperature));
        node.register(Adapter::new(DeviceClass::Humidity));
        node.register(Adapter::new(DeviceClass::MonoLight));
        node
    }

    /// Where the device object with the code stands, if there is one.
    pub fn find(&self, code: u32) -> (r: Option<usize>)
        ensures
            match r {
                Some(i) => i < self@.len() && self@[i as int].code == code,
                None => !has_code(self@, code),
            },
    {
        let mut i: usize = 0;
        while i < self.devices.len()
            invariant
                i <= self.devices@.len(),
                self@ == self.devices@,
                forall|k: int| 0 <= k < i ==> self.devices@[k].code != code,
            decreases self.devices@.len() - i,
        {
            if self.devices[i].code == code {
                return Some(i);
            }
            i = i + 1;
        }
        None
    }

    /// Adds a device object unless its code is taken already; says whether it
    /// was added.
    pub fn register(&mut self, dev: Adapter) -> (r: bool)
        requires
            old(self).wf(),
        ensures
            final(self).wf(),
            r == !has_code(old(self)@, dev.code),
            r ==> final(self)@ == old(self)@.push(dev),
            !r ==> final(self)@ == old(self)@,
    {
        match self.find(dev.code) {
            Some(_) => false,
            None => {
                self.devices.push(dev);
                assert forall|i: int, j: int|
                    0 <= i < j < self@.len() implies #[trigger] self@[i].code
                        != #[trigger] self@[j].code by {
                    if j == self@.len() - 1 {
                        assert(old(self)@[i].code == self@[i].code);
                    }
                }
                true
            },
        }
    }

    /// Routes a request for the object `deoj` to the device object with that
    /// code; a request for a code that no object has is rejected.
    pub fn handle(&self, deoj: u32, kind: RequestKind, prop: u8, data: &Vec<u8>) -> (r: Step)
        requires
            self.wf(),
        ensures
            forall|i: int|
                0 <= i < self@.len() && #[trigger] self@[i].code == deoj ==> r == spec_dispatch(
                    self@[i].class,
                    self@[i].code,
                    deoj,
                    kind,
                    prop,
                    data@,
                ),
            !has_code(self@, deoj) ==> r == Step::Done(false),
    {
        match self.find(deoj) {
            Some(i) => {
                let dev = self.devices[i];
                assert forall|k: int|
                    0 <= k < self@.len() && #[trigger] self@[k].code == deoj implies k == i by {
                    if k < i {
                        assert(self@[k].code != self@[i as int].code);
                    } else if k > i {
                        assert(self@[i as int].code != self@[k].code);
                    }
                }
                dev.handle(deoj, kind, prop, data)
            },
            None => Step::Done(false),
        }
    }

    /// The device objects on the node, in order of registration.
    pub fn devices(&self) -> (r: &Vec<Adapter>)
        ensures
            r@ == self@,
    {
        &self.devices
    }
}

} // verus!

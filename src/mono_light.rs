//! Mono functional lighting class (0x0291), shown on the LED matrix.
use vstd::prelude::*;

use crate::adapter::{spec_dispatch, Adapter, DeviceClass, DisplayCommand, Step, MONO_LIGHT_CODE};
use crate::request::RequestKind;

verus! {

/// Mono functional lighting class (0x0291). The display is blanked when the
/// light is made and again when it is released, whatever it showed between.
#[derive(Clone, Copy, Debug, PartialEq, Eq, Structural)]
pub struct MonoLight {
    pub dev: Adapter,
    /// Whether the display shows that the light is on.
    pub lit: bool,
}

/// The display command issued when a light is made.
pub open spec fn spec_create_command() -> DisplayCommand {
    DisplayCommand::Clear
}

/// The display command issued when a light is released.
pub open spec fn spec_release_command(l: MonoLight) -> DisplayCommand {
    DisplayCommand::Clear
}

impl MonoLight {
    /// The device object is of its own class.
    pub open spec fn wf(&self) -> bool {
        self.dev.class == DeviceClass::MonoLight
    }

    /// The light under its class's object code, with the display command that
    /// making it issues.
    pub fn new() -> (r: (MonoLight, DisplayCommand))
        ensures
            r.0.dev == (Adapter { class: DeviceClass::MonoLight, code: MONO_LIGHT_CODE }),
            !r.0.lit,
            r.0.wf(),
            r.1 == spec_create_command(),
    {
        (MonoLight { dev: Adapter::new(DeviceClass::MonoLight), lit: false }, DisplayCommand::Clear)
    }

    /// Records that the display carried out a command.
    pub fn displayed(&mut self, command: DisplayCommand)
        ensures
            final(self).dev == old(self).dev,
            final(self).lit == (command == DisplayCommand::ShowOn),
    {
        self.lit = match command {
            DisplayCommand::ShowOn => true,
            DisplayCommand::Clear => false,
        };
    }

    /// Releases the light, giving the display command that its teardown issues.
    pub fn release(self) -> (r: DisplayCommand)
        ensures
            r == spec_release_command(self),
    {
        DisplayCommand::Clear
    }

    /// Looks at a request for the object `deoj` and says how it goes on.
    pub fn property_request_received(
        &self,
        deoj: u32,
        kind: RequestKind,
        prop: u8,
        data: &Vec<u8>,
    ) -> (r: Step)
        requires
            self.wf(),
        ensures
            r == spec_dispatch(DeviceClass::MonoLight, self.dev.code, deoj, kind, prop, data@),
    {
        self.dev.handle(deoj, kind, prop, data)
    }
}

/// The display commands that making a light and releasing it right away issue,
/// in order.
pub open spec fn spec_lifecycle_commands(l: MonoLight) -> Seq<DisplayCommand> {
    seq![spec_create_command(), spec_release_command(l)]
}

/// Making a light and releasing it issues exactly two display commands of its
/// own, both of which blank the display, whether or not the light was lit
/// when released.
pub proof fn lemma_create_release_clears_twice(l: MonoLight)
    ensures
        spec_lifecycle_commands(l).len() == 2,
        spec_lifecycle_commands(l)[0] == DisplayCommand::Clear,
        spec_lifecycle_commands(l)[1] == DisplayCommand::Clear,
{
}

} // verus!

//! The process-wide control setpoints written by the remote control
//! surface and read by the render loop: a soft brightness and the selected
//! pattern name.  Invalid writes are silently rejected, so the last valid
//! values persist.

use vstd::prelude::*;

use crate::patterns::lemma_name_strings;
use crate::patterns::name_of;
use crate::patterns::pattern_by_name;

verus! {

/// The control setpoints.
pub struct Controls {
    /// Soft brightness as a percentage, 0 to 100 inclusive.
    pub brightness: u8,
    /// The selected pattern's registry name.
    pub pattern: String,
}

impl Controls {
    /// The setpoints are valid: brightness in range and the pattern name in
    /// the registry.
    pub open spec fn wf(&self) -> bool {
        &&& self.brightness <= 100
        &&& name_of(self.pattern@) is Some
    }

    /// Commit a brightness setpoint; values above 100 are rejected and the
    /// previous value persists.
    pub fn set_brightness(&mut self, value: u8)
        requires
            old(self).wf(),
        ensures
            final(self).wf(),
            final(self).brightness == if value <= 100 {
                value
            } else {
                old(self).brightness
            },
            final(self).pattern@ == old(self).pattern@,
    {
        if value <= 100 {
            self.brightness = value;
        }
    }

    /// Commit a pattern setpoint; names outside the registry are rejected
    /// and the previous name persists.
    pub fn set_pattern(&mut self, name: String)
        requires
            old(self).wf(),
        ensures
            final(self).wf(),
            final(self).brightness == old(self).brightness,
            final(self).pattern@ == if name_of(name@) is Some {
                name@
            } else {
                old(self).pattern@
            },
    {
        if pattern_by_name(&name).is_some() {
            self.pattern = name;
        }
    }
}

impl Default for Controls {
    /// Full brightness, showing colour wipes.
    fn default() -> (r: Self)
        ensures
            r.wf(),
            r.brightness == 100,
            r.pattern@ == "colour_wipes"@,
    {
        proof {
            lemma_name_strings();
        }
        Controls { brightness: 100, pattern: "colour_wipes".to_owned() }
    }
}

} // verus!

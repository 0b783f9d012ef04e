//! The animation patterns, their shared geometry, and the registry that
//! maps pattern names to instances.

pub mod beans;
pub mod colourfield;
pub mod colourwipes;
pub mod geometry;
pub mod glitch;
pub mod id_spines;
pub mod sleep;
pub mod sparkles;
pub mod starfield;
pub mod strip_test;
pub mod test_blackout;
pub mod wormholes;
pub mod zoom;

use vstd::prelude::*;

use crate::common_structs::GpsFix;
use crate::common_structs::ImuReadings;
use crate::frame::LedUpdate;

verus! {

/// The closed set of pattern names the registry knows.
#[derive(Clone, Copy, Debug, PartialEq, Eq, Structural)]
pub enum PatternName {
    Zoom,
    Starfield,
    Colourfield,
    ColourWipes,
    Glitch,
    Sparkles,
    Wormholes,
    Sleep,
    Beans,
    StripTest,
    TestBlackout,
    IdSpines,
}

/// The registry lookup: which pattern a name string denotes, if any.
pub open spec fn name_of(s: Seq<char>) -> Option<PatternName> {
    if s == "zoom"@ {
        Some(PatternName::Zoom)
    } else if s == "starfield"@ {
        Some(PatternName::Starfield)
    } else if s == "colourfield"@ {
        Some(PatternName::Colourfield)
    } else if s == "colour_wipes"@ {
        Some(PatternName::ColourWipes)
    } else if s == "glitch"@ {
        Some(PatternName::Glitch)
    } else if s == "sparkles"@ {
        Some(PatternName::Sparkles)
    } else if s == "wormholes"@ {
        Some(PatternName::Wormholes)
    } else if s == "sleep"@ {
        Some(PatternName::Sleep)
    } else if s == "beans"@ {
        Some(PatternName::Beans)
    } else if s == "strip_test"@ {
        Some(PatternName::StripTest)
    } else if s == "test_blackout"@ {
        Some(PatternName::TestBlackout)
    } else if s == "id_spines"@ {
        Some(PatternName::IdSpines)
    } else {
        None
    }
}

/// Look a pattern name up in the registry.
pub fn pattern_by_name(name: &String) -> (r: Option<PatternName>)
    ensures
        r == name_of(name@),
{
    if *name == ("zoom".to_owned()) {
        Some(PatternName::Zoom)
    } else if *name == ("starfield".to_owned()) {
        Some(PatternName::Starfield)
    } else if *name == ("colourfield".to_owned()) {
        Some(PatternName::Colourfield)
    } else if *name == ("colour_wipes".to_owned()) {
        Some(PatternName::ColourWipes)
    } else if *name == ("glitch".to_owned()) {
        Some(PatternName::Glitch)
    } else if *name == ("sparkles".to_owned()) {
        Some(PatternName::Sparkles)
    } else if *name == ("wormholes".to_owned()) {
        Some(PatternName::Wormholes)
    } else if *name == ("sleep".to_owned()) {
        Some(PatternName::Sleep)
    } else if *name == ("beans".to_owned()) {
        Some(PatternName::Beans)
    } else if *name == ("strip_test".to_owned()) {
        Some(PatternName::StripTest)
    } else if *name == ("test_blackout".to_owned()) {
        Some(PatternName::TestBlackout)
    } else if *name == ("id_spines".to_owned()) {
        Some(PatternName::IdSpines)
    } else {
        None
    }
}

/// An instantiated pattern.  Every pattern owns its frame, renders into it
/// on `step`, and returns a borrow of it.
pub enum ActivePattern {
    Zoom(zoom::Zoom),
    Starfield(starfield::Starfield),
    Colourfield(colourfield::Colourfield),
    ColourWipes(colourwipes::ColourWipes),
    Glitch(glitch::Glitch),
    Sparkles(sparkles::Sparkles),
    Wormholes(wormholes::WormHoles),
    Sleep(sleep::Sleep),
    Beans(beans::pattern::Beans),
    StripTest(strip_test::StripTest),
    TestBlackout(test_blackout::TestBlackout),
    IdSpines(id_spines::IdSpines),
}

impl ActivePattern {
    /// The pattern's internal invariant.
    pub closed spec fn wf(&self) -> bool {
        match self {
            ActivePattern::Zoom(p) => p.wf(),
            ActivePattern::Starfield(p) => p.wf(),
            ActivePattern::Colourfield(p) => p.wf(),
            ActivePattern::ColourWipes(p) => p.wf(),
            ActivePattern::Glitch(p) => p.wf(),
            ActivePattern::Sparkles(p) => p.wf(),
            ActivePattern::Wormholes(p) => p.wf(),
            ActivePattern::Sleep(p) => p.wf(),
            ActivePattern::Beans(p) => p.wf(),
            ActivePattern::StripTest(p) => p.wf(),
            ActivePattern::TestBlackout(p) => p.wf(),
            ActivePattern::IdSpines(p) => p.wf(),
        }
    }

    /// The pattern's internally owned frame.
    pub closed spec fn frame(&self) -> Seq<Seq<[u8; 3]>> {
        match self {
            ActivePattern::Zoom(p) => p.frame(),
            ActivePattern::Starfield(p) => p.frame(),
            ActivePattern::Colourfield(p) => p.frame(),
            ActivePattern::ColourWipes(p) => p.frame(),
            ActivePattern::Glitch(p) => p.frame(),
            ActivePattern::Sparkles(p) => p.frame(),
            ActivePattern::Wormholes(p) => p.frame(),
            ActivePattern::Sleep(p) => p.frame(),
            ActivePattern::Beans(p) => p.frame(),
            ActivePattern::StripTest(p) => p.frame(),
            ActivePattern::TestBlackout(p) => p.frame(),
            ActivePattern::IdSpines(p) => p.frame(),
        }
    }

    /// Which registry entry this pattern is.
    pub open spec fn name_spec(&self) -> PatternName {
        match self {
            ActivePattern::Zoom(_) => PatternName::Zoom,
            ActivePattern::Starfield(_) => PatternName::Starfield,
            ActivePattern::Colourfield(_) => PatternName::Colourfield,
            ActivePattern::ColourWipes(_) => PatternName::ColourWipes,
            ActivePattern::Glitch(_) => PatternName::Glitch,
            ActivePattern::Sparkles(_) => PatternName::Sparkles,
            ActivePattern::Wormholes(_) => PatternName::Wormholes,
            ActivePattern::Sleep(_) => PatternName::Sleep,
            ActivePattern::Beans(_) => PatternName::Beans,
            ActivePattern::StripTest(_) => PatternName::StripTest,
            ActivePattern::TestBlackout(_) => PatternName::TestBlackout,
            ActivePattern::IdSpines(_) => PatternName::IdSpines,
        }
    }

    /// Instantiate the named pattern, freshly constructed.
    pub fn by_name(name: PatternName) -> (r: ActivePattern)
        ensures
            r.wf(),
            r.name_spec() == name,
    {
        match name {
            PatternName::Zoom => ActivePattern::Zoom(zoom::Zoom::new()),
            PatternName::Starfield => ActivePattern::Starfield(starfield::Starfield::new()),
            PatternName::Colourfield => ActivePattern::Colourfield(colourfield::Colourfield::new()),
            PatternName::ColourWipes => ActivePattern::ColourWipes(colourwipes::ColourWipes::new()),
            PatternName::Glitch => ActivePattern::Glitch(glitch::Glitch::new()),
            PatternName::Sparkles => ActivePattern::Sparkles(sparkles::Sparkles::new()),
            PatternName::Wormholes => ActivePattern::Wormholes(wormholes::WormHoles::new()),
            PatternName::Sleep => ActivePattern::Sleep(sleep::Sleep::new()),
            PatternName::Beans => ActivePattern::Beans(beans::pattern::Beans::new_direct()),
            PatternName::StripTest => ActivePattern::StripTest(strip_test::StripTest::new()),
            PatternName::TestBlackout => ActivePattern::TestBlackout(
                test_blackout::TestBlackout::new(),
            ),
            PatternName::IdSpines => ActivePattern::IdSpines(id_spines::IdSpines::new()),
        }
    }

    /// Step the pattern with the latest sensor data and borrow the rendered
    /// frame.  Each pattern's own `step` carries the exact contract; here
    /// the pattern identity and its invariant are preserved.
    pub fn step(&mut self, gps: &Option<GpsFix>, imu: &ImuReadings) -> (r: &LedUpdate)
        requires
            old(self).wf(),
            imu.in_bounds(),
        ensures
            final(self).wf(),
            final(self).name_spec() == old(self).name_spec(),
            r.grid() == final(self).frame(),
            r.wf(),
    {
        match self {
            ActivePattern::Zoom(p) => p.step(gps, imu),
            ActivePattern::Starfield(p) => p.step(gps, imu),
            ActivePattern::Colourfield(p) => p.step(gps, imu),
            ActivePattern::ColourWipes(p) => p.step(gps, imu),
            ActivePattern::Glitch(p) => p.step(gps, imu),
            ActivePattern::Sparkles(p) => p.step(gps, imu),
            ActivePattern::Wormholes(p) => p.step(gps, imu),
            ActivePattern::Sleep(p) => p.step(gps, imu),
            ActivePattern::Beans(p) => p.step(gps, imu),
            ActivePattern::StripTest(p) => p.step(gps, imu),
            ActivePattern::TestBlackout(p) => p.step(gps, imu),
            ActivePattern::IdSpines(p) => p.step(gps, imu),
        }
    }

    /// A borrow of the internally owned frame.
    pub fn frame_ref(&self) -> (r: &LedUpdate)
        requires
            self.wf(),
        ensures
            r.grid() == self.frame(),
            r.wf(),
    {
        match self {
            ActivePattern::Zoom(p) => p.frame_ref(),
            ActivePattern::Starfield(p) => p.frame_ref(),
            ActivePattern::Colourfield(p) => p.frame_ref(),
            ActivePattern::ColourWipes(p) => p.frame_ref(),
            ActivePattern::Glitch(p) => p.frame_ref(),
            ActivePattern::Sparkles(p) => p.frame_ref(),
            ActivePattern::Wormholes(p) => p.frame_ref(),
            ActivePattern::Sleep(p) => p.frame_ref(),
            ActivePattern::Beans(p) => p.frame_ref(),
            ActivePattern::StripTest(p) => p.frame_ref(),
            ActivePattern::TestBlackout(p) => p.frame_ref(),
            ActivePattern::IdSpines(p) => p.frame_ref(),
        }
    }

    /// The pattern's registry name as a string.
    pub fn get_name(&self) -> (r: &'static str)
        ensures
            name_of(r@) == Some(self.name_spec()),
    {
        proof {
            lemma_name_strings();
        }
        match self {
            ActivePattern::Zoom(p) => p.get_name(),
            ActivePattern::Starfield(p) => p.get_name(),
            ActivePattern::Colourfield(p) => p.get_name(),
            ActivePattern::ColourWipes(p) => p.get_name(),
            ActivePattern::Glitch(p) => p.get_name(),
            ActivePattern::Sparkles(p) => p.get_name(),
            ActivePattern::Wormholes(p) => p.get_name(),
            ActivePattern::Sleep(p) => p.get_name(),
            ActivePattern::Beans(p) => p.get_name(),
            ActivePattern::StripTest(p) => p.get_name(),
            ActivePattern::TestBlackout(p) => p.get_name(),
            ActivePattern::IdSpines(p) => p.get_name(),
        }
    }

    /// The pattern's registry name as an enum value.
    pub fn get_name_enum(&self) -> (r: PatternName)
        ensures
            r == self.name_spec(),
    {
        match self {
            ActivePattern::Zoom(_) => PatternName::Zoom,
            ActivePattern::Starfield(_) => PatternName::Starfield,
            ActivePattern::Colourfield(_) => PatternName::Colourfield,
            ActivePattern::ColourWipes(_) => PatternName::ColourWipes,
            ActivePattern::Glitch(_) => PatternName::Glitch,
            ActivePattern::Sparkles(_) => PatternName::Sparkles,
            ActivePattern::Wormholes(_) => PatternName::Wormholes,
            ActivePattern::Sleep(_) => PatternName::Sleep,
            ActivePattern::Beans(_) => PatternName::Beans,
            ActivePattern::StripTest(_) => PatternName::StripTest,
            ActivePattern::TestBlackout(_) => PatternName::TestBlackout,
            ActivePattern::IdSpines(_) => PatternName::IdSpines,
        }
    }

    /// Whether this is the sleep pattern.
    pub fn is_sleep(&self) -> (r: bool)
        ensures
            r == (self.name_spec() == PatternName::Sleep),
    {
        match self {
            ActivePattern::Sleep(_) => true,
            _ => false,
        }
    }
}

/// The registry's name strings decode to their own entries.
pub proof fn lemma_name_strings()
    ensures
        name_of("zoom"@) == Some(PatternName::Zoom),
        name_of("starfield"@) == Some(PatternName::Starfield),
        name_of("colourfield"@) == Some(PatternName::Colourfield),
        name_of("colour_wipes"@) == Some(PatternName::ColourWipes),
        name_of("glitch"@) == Some(PatternName::Glitch),
        name_of("sparkles"@) == Some(PatternName::Sparkles),
        name_of("wormholes"@) == Some(PatternName::Wormholes),
        name_of("sleep"@) == Some(PatternName::Sleep),
        name_of("beans"@) == Some(PatternName::Beans),
        name_of("strip_test"@) == Some(PatternName::StripTest),
        name_of("test_blackout"@) == Some(PatternName::TestBlackout),
        name_of("id_spines"@) == Some(PatternName::IdSpines),
{
    reveal_strlit("zoom");
    reveal_strlit("starfield");
    reveal_strlit("colourfield");
    reveal_strlit("colour_wipes");
    reveal_strlit("glitch");
    reveal_strlit("sparkles");
    reveal_strlit("wormholes");
    reveal_strlit("sleep");
    reveal_strlit("beans");
    reveal_strlit("strip_test");
    reveal_strlit("test_blackout");
    reveal_strlit("id_spines");
    assert("zoom"@.len() == 4);
    assert("starfield"@.len() == 9);
    assert("colourfield"@.len() == 11);
    assert("colour_wipes"@.len() == 12);
    assert("glitch"@.len() == 6);
    assert("sparkles"@.len() == 8);
    assert("wormholes"@.len() == 9);
    assert("sleep"@.len() == 5);
    assert("beans"@.len() == 5);
    assert("strip_test"@.len() == 10);
    assert("test_blackout"@.len() == 13);
    assert("id_spines"@.len() == 9);
    assert("wormholes"@[0] != "starfield"@[0]);
    assert("id_spines"@[0] != "starfield"@[0]);
    assert("id_spines"@[0] != "wormholes"@[0]);
    assert("beans"@[0] != "sleep"@[0]);
}

} // verus!

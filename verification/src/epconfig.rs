//! Material configuration data model.
//!
//! Holds the per-material settings a playback run is driven by: screen
//! resolution, intro/loop video references, transition choices with
//! their durations, and the overlay options. File parsing and JSON
//! handling live outside the library; these types carry plain values.

use vstd::prelude::*;

verus! {

/// Screen resolution type.
#[derive(Clone, Copy, Debug, PartialEq, Eq, Structural)]
pub enum ScreenType {
    S360x640,
    S480x854,
    S720x1080,
}

impl ScreenType {
    /// Width and height in pixels of this screen type.
    pub fn dimensions(&self) -> (r: (u32, u32))
        ensures
            *self == ScreenType::S360x640 ==> r == (360u32, 640u32),
            *self == ScreenType::S480x854 ==> r == (480u32, 854u32),
            *self == ScreenType::S720x1080 ==> r == (720u32, 1080u32),
    {
        match self {
            ScreenType::S360x640 => (360, 640),
            ScreenType::S480x854 => (480, 854),
            ScreenType::S720x1080 => (720, 1080),
        }
    }
}

impl Default for ScreenType {
    fn default() -> (r: Self)
        ensures
            r == ScreenType::S360x640,
    {
        ScreenType::S360x640
    }
}

/// Transition effect type.
#[derive(Clone, Copy, Debug, PartialEq, Eq, Structural)]
pub enum TransitionType {
    /// No effect: the videos cut over without a transition.
    NoEffect,
    Fade,
    Move,
    Swipe,
}

impl Default for TransitionType {
    fn default() -> (r: Self)
        ensures
            r == TransitionType::NoEffect,
    {
        TransitionType::NoEffect
    }
}

/// Overlay UI type.
#[derive(Clone, Copy, Debug, PartialEq, Eq, Structural)]
pub enum OverlayType {
    /// No overlay is drawn.
    NoOverlay,
    Arknights,
    Image,
}

impl Default for OverlayType {
    fn default() -> (r: Self)
        ensures
            r == OverlayType::NoOverlay,
    {
        OverlayType::NoOverlay
    }
}


/// Options of one transition effect.
#[derive(Clone, Debug)]
pub struct TransitionOptions {
    /// Duration of one transition phase in microseconds.
    pub duration: i64,
    /// Optional transition image path; empty for none.
    pub image: String,
    /// Background color in hex form, e.g. `#000000`.
    pub background_color: String,
}

impl Default for TransitionOptions {
    fn default() -> (d: Self)
        ensures
            d.duration == 500000,
            d.image@ == Seq::<char>::empty(),
            d.background_color@ == "#000000"@,
    {
        TransitionOptions {
            duration: 500000,
            image: String::new(),
            background_color: String::from_str("#000000"),
        }
    }
}

/// One transition choice: the effect kind and its options.
#[derive(Clone, Debug)]
pub struct Transition {
    /// Effect kind.
    pub transition_type: TransitionType,
    /// Options, where the material supplies them.
    pub options: Option<TransitionOptions>,
}

impl Default for Transition {
    fn default() -> (d: Self)
        ensures
            d.transition_type == TransitionType::NoEffect,
            d.options is None,
    {
        Transition { transition_type: TransitionType::NoEffect, options: None }
    }
}

/// Loop video reference.
#[derive(Clone, Debug)]
pub struct LoopConfig {
    /// Video (or image) file path.
    pub file: String,
    /// True when a still image stands in for the video.
    pub is_image: bool,
}

impl Default for LoopConfig {
    fn default() -> (d: Self)
        ensures
            d.file@ == Seq::<char>::empty(),
            d.is_image == false,
    {
        LoopConfig { file: String::new(), is_image: false }
    }
}

/// Intro video reference.
#[derive(Clone, Debug)]
pub struct IntroConfig {
    /// Whether the intro plays at all.
    pub enabled: bool,
    /// Intro video file path.
    pub file: String,
    /// Intro duration in microseconds.
    pub duration: i64,
}

impl Default for IntroConfig {
    fn default() -> (d: Self)
        ensures
            d.enabled == false,
            d.file@ == Seq::<char>::empty(),
            d.duration == 5000000,
    {
        IntroConfig { enabled: false, file: String::new(), duration: 5000000 }
    }
}

/// Overlay options for the operator-info style overlay.
#[derive(Clone, Debug)]
pub struct ArknightsOverlayOptions {
    /// Delay before the overlay appears, in microseconds.
    pub appear_time: i64,
    /// Operator name (uppercase).
    pub operator_name: String,
    /// Custom text of the top-left area; empty keeps the stock logo.
    pub top_left_rhodes: String,
    /// Custom text of the top-right bar; empty keeps the stock text.
    pub top_right_bar_text: String,
    /// Operator code.
    pub operator_code: String,
    /// Text the barcode encodes.
    pub barcode_text: String,
    /// Auxiliary text, possibly multiline.
    pub aux_text: String,
    /// Staff text.
    pub staff_text: String,
    /// Theme color in hex form.
    pub color: String,
    /// Optional logo image path.
    pub logo: String,
    /// Optional class icon image path.
    pub operator_class_icon: String,
}

impl Default for ArknightsOverlayOptions {
    fn default() -> (d: Self)
        ensures
            d.appear_time == 100000,
            d.operator_name@ == "OPERATOR"@,
            d.top_left_rhodes@ == Seq::<char>::empty(),
            d.top_right_bar_text@ == Seq::<char>::empty(),
            d.operator_code@ == "ARKNIGHTS - UNK0"@,
            d.barcode_text@ == "OPERATOR - ARKNIGHTS"@,
            d.aux_text@ == "Operator of Rhodes Island\nUndefined/Rhodes Island\n Hypergryph"@,
            d.staff_text@ == "STAFF"@,
            d.color@ == "#000000"@,
            d.logo@ == Seq::<char>::empty(),
            d.operator_class_icon@ == Seq::<char>::empty(),
    {
        ArknightsOverlayOptions {
            appear_time: 100000,
            operator_name: String::from_str("OPERATOR"),
            top_left_rhodes: String::new(),
            top_right_bar_text: String::new(),
            operator_code: String::from_str("ARKNIGHTS - UNK0"),
            barcode_text: String::from_str("OPERATOR - ARKNIGHTS"),
            aux_text: String::from_str("Operator of Rhodes Island\nUndefined/Rhodes Island\n Hypergryph"),
            staff_text: String::from_str("STAFF"),
            color: String::from_str("#000000"),
            logo: String::new(),
            operator_class_icon: String::new(),
        }
    }
}

/// Overlay options for a single-image overlay.
#[derive(Clone, Debug)]
pub struct ImageOverlayOptions {
    /// Delay before the overlay appears, in microseconds.
    pub appear_time: i64,
    /// How long the overlay stays, in microseconds.
    pub duration: i64,
    /// Image file path.
    pub image: String,
}

impl Default for ImageOverlayOptions {
    fn default() -> (d: Self)
        ensures
            d.appear_time == 100000,
            d.duration == 100000,
            d.image@ == Seq::<char>::empty(),
    {
        ImageOverlayOptions { appear_time: 100000, duration: 100000, image: String::new() }
    }
}

/// The material's overlay choice, with the options of the chosen kind.
#[derive(Clone, Debug)]
pub struct Overlay {
    /// Which overlay is drawn.
    pub overlay_type: OverlayType,
    /// Options when the overlay is the operator-info style.
    pub arknights: Option<ArknightsOverlayOptions>,
    /// Options when the overlay is a single image.
    pub image: Option<ImageOverlayOptions>,
}

impl Overlay {
    /// The operator-info options, when that overlay is chosen.
    pub fn arknights_options(&self) -> (r: Option<&ArknightsOverlayOptions>)
        ensures
            self.overlay_type == OverlayType::Arknights && self.arknights is Some ==> (
            r matches Some(a) && *a == self.arknights->0),
            !(self.overlay_type == OverlayType::Arknights) || self.arknights is None ==> r is None,
    {
        if matches!(self.overlay_type, OverlayType::Arknights) {
            self.arknights.as_ref()
        } else {
            None
        }
    }

    /// The single-image options, when that overlay is chosen.
    pub fn image_options(&self) -> (r: Option<&ImageOverlayOptions>)
        ensures
            self.overlay_type == OverlayType::Image && self.image is Some ==> (r matches Some(a)
                && *a == self.image->0),
            !(self.overlay_type == OverlayType::Image) || self.image is None ==> r is None,
    {
        if matches!(self.overlay_type, OverlayType::Image) {
            self.image.as_ref()
        } else {
            None
        }
    }
}

impl Default for Overlay {
    fn default() -> (d: Self)
        ensures
            d.overlay_type == OverlayType::NoOverlay,
            d.arknights is None,
            d.image is None,
    {
        Overlay { overlay_type: OverlayType::NoOverlay, arknights: None, image: None }
    }
}

/// A complete material configuration.
#[derive(Clone, Debug)]
pub struct EPConfig {
    /// Configuration format version.
    pub version: i32,
    /// Unique identifier of the material.
    pub uuid: String,
    /// Material name.
    pub name: String,
    /// Description.
    pub description: String,
    /// Icon path; empty for none.
    pub icon: String,
    /// Screen resolution.
    pub screen: ScreenType,
    /// Loop video reference.
    pub loop_config: LoopConfig,
    /// Intro video reference, where the material has one.
    pub intro: Option<IntroConfig>,
    /// Entry transition choice.
    pub transition_in: Option<Transition>,
    /// Loop transition choice.
    pub transition_loop: Option<Transition>,
    /// Overlay choice.
    pub overlay: Option<Overlay>,
}

impl EPConfig {
    /// Kind of the entry transition; `NoEffect` when unset.
    pub open spec fn spec_transition_in_type(self) -> TransitionType {
        match self.transition_in {
            Some(t) => t.transition_type,
            None => TransitionType::NoEffect,
        }
    }

    /// Kind of the loop transition; `NoEffect` when unset.
    pub open spec fn spec_transition_loop_type(self) -> TransitionType {
        match self.transition_loop {
            Some(t) => t.transition_type,
            None => TransitionType::NoEffect,
        }
    }

    /// Entry transition phase duration in microseconds; 500000 when
    /// unset.
    pub open spec fn spec_transition_in_duration(self) -> int {
        match self.transition_in {
            Some(t) => match t.options {
                Some(o) => o.duration as int,
                None => 500000,
            },
            None => 500000,
        }
    }

    /// Loop transition phase duration in microseconds; 500000 when
    /// unset.
    pub open spec fn spec_transition_loop_duration(self) -> int {
        match self.transition_loop {
            Some(t) => match t.options {
                Some(o) => o.duration as int,
                None => 500000,
            },
            None => 500000,
        }
    }

    /// Overlay appear delay in microseconds; 100000 when unset.
    pub open spec fn spec_appear_time(self) -> int {
        match self.overlay {
            Some(o) => if o.overlay_type == OverlayType::Arknights && o.arknights is Some {
                o.arknights->0.appear_time as int
            } else {
                100000
            },
            None => 100000,
        }
    }

    /// Whether the material has an enabled intro video.
    pub open spec fn spec_has_intro(self) -> bool {
        match self.intro {
            Some(i) => i.enabled,
            None => false,
        }
    }

    /// Kind of the entry transition.
    pub fn get_transition_in_type(&self) -> (r: TransitionType)
        ensures
            r == self.spec_transition_in_type(),
    {
        match &self.transition_in {
            Some(t) => t.transition_type,
            None => TransitionType::NoEffect,
        }
    }

    /// Kind of the loop transition.
    pub fn get_transition_loop_type(&self) -> (r: TransitionType)
        ensures
            r == self.spec_transition_loop_type(),
    {
        match &self.transition_loop {
            Some(t) => t.transition_type,
            None => TransitionType::NoEffect,
        }
    }

    /// Entry transition phase duration in microseconds.
    pub fn get_transition_in_duration(&self) -> (r: i64)
        ensures
            r == self.spec_transition_in_duration(),
    {
        match &self.transition_in {
            Some(t) => match &t.options {
                Some(o) => o.duration,
                None => 500000,
            },
            None => 500000,
        }
    }

    /// Loop transition phase duration in microseconds.
    pub fn get_transition_loop_duration(&self) -> (r: i64)
        ensures
            r == self.spec_transition_loop_duration(),
    {
        match &self.transition_loop {
            Some(t) => match &t.options {
                Some(o) => o.duration,
                None => 500000,
            },
            None => 500000,
        }
    }

    /// Overlay appear delay in microseconds.
    pub fn get_appear_time(&self) -> (r: i64)
        ensures
            r == self.spec_appear_time(),
    {
        match &self.overlay {
            Some(o) => {
                if matches!(o.overlay_type, OverlayType::Arknights) {
                    match &o.arknights {
                        Some(a) => a.appear_time,
                        None => 100000,
                    }
                } else {
                    100000
                }
            },
            None => 100000,
        }
    }

    /// Whether the material has an enabled intro video.
    pub fn has_intro(&self) -> (r: bool)
        ensures
            r == self.spec_has_intro(),
    {
        match &self.intro {
            Some(i) => i.enabled,
            None => false,
        }
    }
}

impl Default for EPConfig {
    fn default() -> (d: Self)
        ensures
            d.version == 1,
            d.uuid@ == Seq::<char>::empty(),
            d.name@ == Seq::<char>::empty(),
            d.description@ == Seq::<char>::empty(),
            d.icon@ == Seq::<char>::empty(),
            d.screen == ScreenType::S360x640,
            d.loop_config.file@ == Seq::<char>::empty(),
            d.loop_config.is_image == false,
            d.intro is None,
            d.transition_in is None,
            d.transition_loop is None,
            d.overlay is None,
    {
        EPConfig {
            version: 1,
            uuid: String::new(),
            name: String::new(),
            description: String::new(),
            icon: String::new(),
            screen: ScreenType::S360x640,
            loop_config: LoopConfig { file: String::new(), is_image: false },
            intro: None,
            transition_in: None,
            transition_loop: None,
            overlay: None,
        }
    }
}

} // verus!


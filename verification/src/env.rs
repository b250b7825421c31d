//! The settings that a pass hands down the widget tree.

use vstd::prelude::*;

verus! {

/// The settings that scrolling reads. A pass hands them on unchanged to whatever it
/// calls.
#[derive(Clone, Copy, Debug, PartialEq, Eq, Structural)]
pub struct Env {
    /// The colour of a scrollbar, as `0xRRGGBB`.
    pub scrollbar_color: u32,
    /// The thickness of a scrollbar.
    pub scrollbar_width: u32,
    /// The gap between a scrollbar and the edges of the window.
    pub scrollbar_pad: u32,
    /// The shortest length that a scrollbar takes where there is room for it.
    pub scrollbar_min_size: u32,
    /// The opacity of a scrollbar that is fully shown; 255 is opaque.
    pub scrollbar_max_opacity: u8,
    /// How long a scrollbar stays fully shown after the last activity, in milliseconds.
    pub scrollbar_fade_delay: u64,
    /// How long a scrollbar takes to fade away, in nanoseconds.
    pub scrollbar_fade_time: u64,
}

impl Default for Env {
    fn default() -> (env: Env)
        ensures
            env == (Env {
                scrollbar_color: 0x00_8c_8c_8c,
                scrollbar_width: 8,
                scrollbar_pad: 2,
                scrollbar_min_size: 45,
                scrollbar_max_opacity: 178,
                scrollbar_fade_delay: 1500,
                scrollbar_fade_time: 500_000_000,
            }),
    {
        Env {
            scrollbar_color: 0x00_8c_8c_8c,
            scrollbar_width: 8,
            scrollbar_pad: 2,
            scrollbar_min_size: 45,
            scrollbar_max_opacity: 178,
            scrollbar_fade_delay: 1500,
            scrollbar_fade_time: 500_000_000,
        }
    }
}

} // verus!

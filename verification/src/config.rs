//! Display configuration for progress bars.

use vstd::prelude::*;

verus! {

/// Configuration for progress bars.
/// Controls which elements are shown and the bar width.
pub struct BarConfig {
    /// Show the progress bar itself (the visual bar).
    pub show_bar: bool,
    /// Show the percentage completed (e.g. "42.00%").
    pub show_percentage: bool,
    /// Show the current/total count (e.g. "(42.00/100.00)").
    pub show_count: bool,
    /// Show the arrow at the front of the bar (e.g. "[===>    ]").
    pub show_arrow: bool,
    /// Show rate and ETA (e.g. "12.00/sec ETA: 5s").
    pub show_rate: bool,
    /// Width of the progress bar in characters.
    pub width: usize,
    /// Character used to fill the completed portion.
    pub fill_char: char,
    /// Character used for the empty portion.
    pub empty_char: char,
    /// Character used for the arrow tip.
    pub arrow_char: char,
}

/// The default configuration: bar, percentage, count and arrow shown, rate
/// hidden, width 50, and `=`, space and `>` as the three glyphs.
pub open spec fn spec_default_config() -> BarConfig {
    BarConfig {
        show_bar: true,
        show_percentage: true,
        show_count: true,
        show_arrow: true,
        show_rate: false,
        width: 50,
        fill_char: '=',
        empty_char: ' ',
        arrow_char: '>',
    }
}

impl Default for BarConfig {
    fn default() -> (c: Self)
        ensures
            c == spec_default_config(),
    {
        BarConfig {
            show_bar: true,
            show_percentage: true,
            show_count: true,
            show_arrow: true,
            show_rate: false,
            width: 50,
            fill_char: '=',
            empty_char: ' ',
            arrow_char: '>',
        }
    }
}

} // verus!

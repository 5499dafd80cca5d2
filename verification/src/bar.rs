//! A basic, highly-configurable progress bar.
//!
//! Progress amounts are fixed-point: `current` and `total` count hundredths
//! of a unit, so an amount of 150 renders as `1.50`. Rendering with rate
//! and ETA takes the elapsed time as a whole number of milliseconds.

use vstd::prelude::*;

verus! {

use std::time::Instant;
use crate::arith::{floor_div, round_div, floor_div_exec, round_div_exec};
use crate::config::{BarConfig, spec_default_config};
use crate::numfmt::{dec_digits, fixed_text};
use crate::strutil::join_spaced;
use vstd::string::StringExecFns;

/// The abstract state of a progress bar: the fixed-point progress amounts,
/// the display configuration, and whether a start instant was captured.
pub ghost struct BarView {
    /// The current progress amount, in hundredths of a unit.
    pub current: int,
    /// The target amount, in hundredths of a unit; fixed at construction.
    pub total: int,
    /// Which segments are rendered, and how the bar segment looks.
    pub config: BarConfig,
    /// Whether a start instant was captured for rate estimation.
    pub timed: bool,
}

/// A progress bar: a current/total pair of fixed-point amounts (hundredths
/// of a unit) and a display configuration.
pub struct BasicProgressBar {
    current: i64,
    total: i64,
    config: BarConfig,
    start_time: Option<Instant>,
}

impl View for BasicProgressBar {
    type V = BarView;

    closed spec fn view(&self) -> BarView {
        BarView {
            current: self.current as int,
            total: self.total as int,
            config: self.config,
            timed: self.start_time is Some,
        }
    }
}

/// `value` clamped into `[0, total]`: first floored at 0, then capped at
/// `total` (so a negative `total` yields `total`).
pub open spec fn spec_clamp(value: int, total: int) -> int {
    let floored = if value < 0 {
        0
    } else {
        value
    };
    if floored < total {
        floored
    } else {
        total
    }
}

impl BasicProgressBar {
    /// A new progress bar with the given total (in hundredths of a unit),
    /// no progress yet, and the default configuration.
    pub fn new(total: i64) -> (r: Self)
        ensures
            r@ == (BarView {
                current: 0,
                total: total as int,
                config: spec_default_config(),
                timed: false,
            }),
    {
        BasicProgressBar { current: 0, total, config: BarConfig::default(), start_time: None }
    }

    /// Disables the arrow on the front of the loading bar.
    pub fn no_arrow(self) -> (r: Self)
        ensures
            r@ == (BarView { config: (BarConfig { show_arrow: false, ..self@.config }), ..self@ }),
    {
        let BasicProgressBar { current, total, config, start_time } = self;
        BasicProgressBar {
            current,
            total,
            config: BarConfig { show_arrow: false, ..config },
            start_time,
        }
    }

    /// Disables the percentage to the side of the loading bar.
    pub fn no_percentage(self) -> (r: Self)
        ensures
            r@ == (BarView {
                config: (BarConfig { show_percentage: false, ..self@.config }),
                ..self@
            }),
    {
        let BasicProgressBar { current, total, config, start_time } = self;
        BasicProgressBar {
            current,
            total,
            config: BarConfig { show_percentage: false, ..config },
            start_time,
        }
    }

    /// Disables the counter to the side of the loading bar.
    pub fn no_count(self) -> (r: Self)
        ensures
            r@ == (BarView { config: (BarConfig { show_count: false, ..self@.config }), ..self@ }),
    {
        let BasicProgressBar { current, total, config, start_time } = self;
        BasicProgressBar {
            current,
            total,
            config: BarConfig { show_count: false, ..config },
            start_time,
        }
    }

    /// Disables the bar itself (only shows count/percentage).
    pub fn no_bar(self) -> (r: Self)
        ensures
            r@ == (BarView { config: (BarConfig { show_bar: false, ..self@.config }), ..self@ }),
    {
        let BasicProgressBar { current, total, config, start_time } = self;
        BasicProgressBar {
            current,
            total,
            config: BarConfig { show_bar: false, ..config },
            start_time,
        }
    }

    /// Enables rate and ETA display and captures the current instant as
    /// the start time: the timer starts now, not at the first tick.
    pub fn with_rate(self) -> (r: Self)
        ensures
            r@ == (BarView {
                config: (BarConfig { show_rate: true, ..self@.config }),
                timed: true,
                ..self@
            }),
    {
        let BasicProgressBar { current, total, config, start_time: _ } = self;
        BasicProgressBar {
            current,
            total,
            config: BarConfig { show_rate: true, ..config },
            start_time: Some(crate::clock::monotonic_now()),
        }
    }

    /// Sets the width of the progress bar in characters.
    pub fn width(self, width: usize) -> (r: Self)
        ensures
            r@ == (BarView { config: (BarConfig { width, ..self@.config }), ..self@ }),
    {
        let BasicProgressBar { current, total, config, start_time } = self;
        BasicProgressBar { current, total, config: BarConfig { width, ..config }, start_time }
    }

    /// Sets custom characters for the bar appearance: the completed
    /// portion, the empty portion, and the arrow tip.
    pub fn chars(self, fill: char, empty: char, arrow: char) -> (r: Self)
        ensures
            r@ == (BarView {
                config: (BarConfig {
                    fill_char: fill,
                    empty_char: empty,
                    arrow_char: arrow,
                    ..self@.config
                }),
                ..self@
            }),
    {
        let BasicProgressBar { current, total, config, start_time } = self;
        BasicProgressBar {
            current,
            total,
            config: BarConfig {
                fill_char: fill,
                empty_char: empty,
                arrow_char: arrow,
                ..config
            },
            start_time,
        }
    }

    /// Increments the progress by one unit (100 hundredths).
    pub fn inc(&mut self)
        requires
            old(self)@.current + 100 <= i64::MAX,
        ensures
            final(self)@ == (BarView { current: old(self)@.current + 100, ..old(self)@ }),
    {
        self.current = self.current + 100;
    }

    /// Increments the progress by `amount` hundredths of a unit; the
    /// amount may be negative, and the result is not clamped.
    pub fn inc_by(&mut self, amount: i64)
        requires
            i64::MIN <= old(self)@.current + amount <= i64::MAX,
        ensures
            final(self)@ == (BarView { current: old(self)@.current + amount, ..old(self)@ }),
    {
        self.current = self.current + amount;
    }

    /// Sets the progress to `value` hundredths of a unit, clamped between
    /// 0 and the total.
    pub fn set(&mut self, value: i64)
        ensures
            final(self)@ == (BarView {
                current: spec_clamp(value as int, old(self)@.total),
                ..old(self)@
            }),
    {
        let floored = if value < 0 {
            0
        } else {
            value
        };
        self.current = if floored < self.total {
            floored
        } else {
            self.total
        };
    }

    /// True exactly when the progress has reached or exceeded the total.
    pub fn is_finished(&self) -> (r: bool)
        ensures
            r == (self@.current >= self@.total),
    {
        self.current >= self.total
    }
}

/// `parts` when `present`, the empty sequence of parts otherwise.
pub open spec fn opt_part(present: bool, part: Seq<char>) -> Seq<Seq<char>> {
    if present {
        seq![part]
    } else {
        Seq::empty()
    }
}

/// The number of filled positions in the bar: the fraction
/// `current / total` of the width, floored, then clamped into
/// `[0, width]` (and 0 when `total` is 0).
pub open spec fn spec_filled(current: int, total: int, width: int) -> int {
    if total == 0 {
        0
    } else {
        let f = floor_div(current * width, total);
        if f < 0 {
            0
        } else if f > width {
            width
        } else {
            f
        }
    }
}

/// The character at position `i` of the bar's fill area: with the arrow
/// shown, fill characters strictly before `filled - 1`, the arrow tip at
/// `filled - 1` (only when something is filled), empty elsewhere; without
/// the arrow, fill characters before `filled`, empty elsewhere.
pub open spec fn spec_bar_char(cfg: BarConfig, filled: int, i: int) -> char {
    if cfg.show_arrow {
        if filled > 0 && i < filled - 1 {
            cfg.fill_char
        } else if filled > 0 && i == filled - 1 {
            cfg.arrow_char
        } else {
            cfg.empty_char
        }
    } else {
        if i < filled {
            cfg.fill_char
        } else {
            cfg.empty_char
        }
    }
}

/// The bar segment: a fill area of exactly `width` characters, wrapped in
/// a bracket pair.
pub open spec fn spec_bar_segment(v: BarView) -> Seq<char> {
    let filled = spec_filled(v.current, v.total, v.config.width as int);
    seq!['['] + Seq::new(v.config.width as nat, |i: int| spec_bar_char(v.config, filled, i))
        + seq![']']
}

/// The displayed percentage, in hundredths of a percent:
/// `current / total * 100` rounded to two decimal places, and 0 when
/// `total` is 0.
pub open spec fn spec_pct_hundredths(current: int, total: int) -> int {
    if total == 0 {
        0
    } else {
        round_div(current * 10000, total)
    }
}

/// The percentage segment: the percentage to two decimal places, then `%`.
pub open spec fn spec_pct_segment(v: BarView) -> Seq<char> {
    fixed_text(spec_pct_hundredths(v.current, v.total)) + seq!['%']
}

/// The count segment: `(current/total)`, each amount to two decimal
/// places.
pub open spec fn spec_count_segment(v: BarView) -> Seq<char> {
    seq!['('] + fixed_text(v.current) + seq!['/'] + fixed_text(v.total) + seq![')']
}

/// The displayed rate, in hundredths of a unit per second: the current
/// amount over the elapsed seconds, rounded to two decimal places, and 0
/// when no time has elapsed.
pub open spec fn spec_rate_hundredths(current: int, elapsed_millis: int) -> int {
    if elapsed_millis <= 0 {
        0
    } else {
        round_div(current * 1000, elapsed_millis)
    }
}

/// Whether the ETA is shown: the true rate is positive (some progress over
/// a positive elapsed time) and the bar is not finished.
pub open spec fn spec_eta_shown(v: BarView, elapsed_millis: int) -> bool {
    v.current > 0 && elapsed_millis > 0 && v.current < v.total
}

/// The estimated whole seconds to completion: the remaining amount over
/// the true rate, truncated.
pub open spec fn spec_eta_seconds(v: BarView, elapsed_millis: int) -> int
    recommends
        spec_eta_shown(v, elapsed_millis),
{
    floor_div((v.total - v.current) * elapsed_millis, 1000 * v.current)
}

/// The rate segment, followed by the ETA segment when it is shown.
pub open spec fn spec_rate_parts(v: BarView, elapsed_millis: int) -> Seq<Seq<char>> {
    let rate_seg = fixed_text(spec_rate_hundredths(v.current, elapsed_millis)) + "/sec"@;
    if spec_eta_shown(v, elapsed_millis) {
        seq![
            rate_seg,
            "ETA: "@ + dec_digits(spec_eta_seconds(v, elapsed_millis)) + seq!['s'],
        ]
    } else {
        seq![rate_seg]
    }
}

/// The rendered segments, in order: bar, percentage, count, then rate and
/// ETA, each present only when its display flag is on.
pub open spec fn spec_parts(v: BarView, elapsed_millis: int) -> Seq<Seq<char>> {
    opt_part(v.config.show_bar, spec_bar_segment(v)) + opt_part(
        v.config.show_percentage,
        spec_pct_segment(v),
    ) + opt_part(v.config.show_count, spec_count_segment(v)) + (if v.config.show_rate {
        spec_rate_parts(v, elapsed_millis)
    } else {
        Seq::empty()
    })
}

/// Everything the bar renders: the present segments joined with single
/// spaces (the empty string when every display flag is off).
pub open spec fn spec_render(v: BarView, elapsed_millis: int) -> Seq<char> {
    join_spaced(spec_parts(v, elapsed_millis))
}

impl BasicProgressBar {
    /// The number of filled positions of the bar segment.
    fn compute_filled(&self) -> (f: usize)
        ensures
            f as int == spec_filled(self@.current, self@.total, self@.config.width as int),
    {
        if self.total == 0 {
            return 0;
        }
        let a: i128 = self.current as i128;
        let b: i128 = self.config.width as i128;
        proof {
            assert((a as int) * (b as int) <= 170141183460469231731687303715884105727 && -170141183460469231731687303715884105727
                <= (a as int) * (b as int)) by (nonlinear_arith)
                requires
                    -9223372036854775808 <= a as int <= 9223372036854775807,
                    0 <= b as int <= 18446744073709551615,
            ;
        }
        let n: i128 = a * b;
        let q: i128 = floor_div_exec(n, self.total as i128);
        let wi: i128 = self.config.width as i128;
        if q < 0 {
            0
        } else if q > wi {
            self.config.width
        } else {
            q as usize
        }
    }

    /// Builds the bar segment: the fill area wrapped in brackets.
    fn bar_segment(&self) -> (seg: String)
        ensures
            seg@ == spec_bar_segment(self@),
    {
        let filled = self.compute_filled();
        let w = self.config.width;
        let mut seg = String::new();
        seg.push('[');
        let mut i: usize = 0;
        while i < w
            invariant
                i <= w,
                w == self@.config.width,
                self.config == self@.config,
                filled as int == spec_filled(self@.current, self@.total, w as int),
                seg@.len() == 1 + i,
                seg@[0] == '[',
                forall|j: int|
                    0 <= j < i ==> seg@[j + 1] == spec_bar_char(self@.config, filled as int, j),
            decreases w - i,
        {
            let c = if self.config.show_arrow {
                if filled > 0 && i < filled - 1 {
                    self.config.fill_char
                } else if filled > 0 && i + 1 == filled {
                    self.config.arrow_char
                } else {
                    self.config.empty_char
                }
            } else {
                if i < filled {
                    self.config.fill_char
                } else {
                    self.config.empty_char
                }
            };
            seg.push(c);
            i = i + 1;
        }
        seg.push(']');
        proof {
            let v = self@;
            let fl = spec_filled(v.current, v.total, v.config.width as int);
            let fill_area = Seq::new(
                v.config.width as nat,
                |j: int| spec_bar_char(v.config, fl, j),
            );
            assert forall|j: int| 0 <= j < seg@.len() implies seg@[j] == (seq!['['] + fill_area
                + seq![']'])[j] by {
                if 1 <= j < 1 + w {
                    assert(seg@[(j - 1) + 1] == spec_bar_char(v.config, filled as int, j - 1));
                }
            }
            assert(seg@ =~= seq!['['] + fill_area + seq![']']);
        }
        seg
    }

    /// Builds the percentage segment.
    fn pct_segment(&self) -> (seg: String)
        ensures
            seg@ == spec_pct_segment(self@),
    {
        let pct: i128 = if self.total == 0 {
            0
        } else {
            round_div_exec(self.current as i128 * 10000, self.total as i128)
        };
        let mut seg = crate::numfmt::fixed_string(pct);
        seg.push('%');
        proof {
            assert(seg@ =~= spec_pct_segment(self@));
        }
        seg
    }

    /// Builds the count segment.
    fn count_segment(&self) -> (seg: String)
        ensures
            seg@ == spec_count_segment(self@),
    {
        let mut seg = String::new();
        seg.push('(');
        crate::numfmt::push_fixed(&mut seg, self.current as i128);
        seg.push('/');
        crate::numfmt::push_fixed(&mut seg, self.total as i128);
        seg.push(')');
        proof {
            assert(seg@ =~= spec_count_segment(self@));
        }
        seg
    }

    /// Renders the progress bar for a given elapsed time (in whole
    /// milliseconds since rate tracking began; pass 0 when rate display is
    /// off or no start instant was captured).
    pub fn render_with_elapsed(&self, elapsed_millis: u64) -> (r: String)
        ensures
            r@ == spec_render(self@, elapsed_millis as int),
    {
        let ghost v = self@;
        let ghost e: int = elapsed_millis as int;
        let mut parts: Vec<String> = Vec::new();
        if self.config.show_bar {
            let seg = self.bar_segment();
            parts.push(seg);
        }
        proof {
            assert(parts@.map_values(|p: String| p@) =~= opt_part(
                v.config.show_bar,
                spec_bar_segment(v),
            ));
        }
        if self.config.show_percentage {
            let seg = self.pct_segment();
            parts.push(seg);
        }
        proof {
            assert(parts@.map_values(|p: String| p@) =~= opt_part(
                v.config.show_bar,
                spec_bar_segment(v),
            ) + opt_part(v.config.show_percentage, spec_pct_segment(v)));
        }
        if self.config.show_count {
            let seg = self.count_segment();
            parts.push(seg);
        }
        proof {
            assert(parts@.map_values(|p: String| p@) =~= opt_part(
                v.config.show_bar,
                spec_bar_segment(v),
            ) + opt_part(v.config.show_percentage, spec_pct_segment(v)) + opt_part(
                v.config.show_count,
                spec_count_segment(v),
            ));
        }
        if self.config.show_rate {
            let rate: i128 = if elapsed_millis == 0 {
                0
            } else {
                round_div_exec(self.current as i128 * 1000, elapsed_millis as i128)
            };
            let mut rate_seg = crate::numfmt::fixed_string(rate);
            rate_seg.append("/sec");
            parts.push(rate_seg);
            if self.current > 0 && elapsed_millis > 0 && self.current < self.total {
                let remaining: i128 = self.total as i128 - self.current as i128;
                let ci: i128 = self.current as i128;
                proof {
                    assert((remaining as int) * (elapsed_millis as int)
                        <= 170141183460469231731687303715884105727) by (nonlinear_arith)
                        requires
                            1 <= remaining as int <= 9223372036854775807,
                            1 <= elapsed_millis as int <= 18446744073709551615,
                    ;
                    vstd::arithmetic::mul::lemma_mul_strictly_positive(
                        remaining as int,
                        elapsed_millis as int,
                    );
                }
                let n: i128 = remaining * (elapsed_millis as i128);
                let eta: i128 = floor_div_exec(n, 1000 * ci);
                proof {
                    vstd::arithmetic::div_mod::lemma_div_pos_is_pos(n as int, 1000 * (ci as int));
                }
                let mut eta_seg = String::new();
                eta_seg.append("ETA: ");
                crate::numfmt::push_decimal(&mut eta_seg, eta as u128);
                eta_seg.push('s');
                parts.push(eta_seg);
                proof {
                    assert(eta_seg@ =~= "ETA: "@ + dec_digits(spec_eta_seconds(v, e))
                        + seq!['s']);
                }
            }
            proof {
                assert(parts@.map_values(|p: String| p@) =~= spec_parts(v, e));
            }
        } else {
            proof {
                assert(parts@.map_values(|p: String| p@) =~= spec_parts(v, e));
            }
        }
        crate::strutil::join_parts(&parts)
    }

    /// Renders the progress bar as a string, reading the monotonic clock
    /// for the elapsed time when a start instant was captured. Whatever
    /// the clock returned, the result is the rendering for some
    /// nonnegative elapsed time; without rate display or without a start
    /// instant the elapsed time plays no part.
    pub fn render(&self) -> (r: String)
        ensures
            exists|e: int| 0 <= e && r@ == spec_render(self@, e),
            !(self@.config.show_rate && self@.timed) ==> r@ == spec_render(self@, 0),
    {
        let millis: u64 = match &self.start_time {
            Some(start) => {
                let d = crate::clock::elapsed_since(start);
                let m = crate::clock::duration_millis(&d);
                if m > u64::MAX as u128 {
                    u64::MAX
                } else {
                    m as u64
                }
            },
            None => 0,
        };
        let r = self.render_with_elapsed(millis);
        proof {
            let e0: int = millis as int;
            assert(0 <= e0 && r@ == spec_render(self@, e0));
            if !self@.config.show_rate {
                assert(spec_parts(self@, e0) == spec_parts(self@, 0));
            }
        }
        r
    }
}

/// After `set(value)` on a bar with a positive total and `value` within
/// `[0, total]`, the value is kept as it is, and the rendered percentage
/// (in hundredths of a percent) is `value / total * 10000` to the nearest
/// integer: it differs from the exact ratio by at most half a unit in the
/// last place.
pub proof fn lemma_percentage_after_set(total: int, value: int)
    requires
        total > 0,
        0 <= value <= total,
    ensures
        spec_clamp(value, total) == value,
        -total < 2 * (spec_pct_hundredths(value, total) * total - value * 10000),
        2 * (spec_pct_hundredths(value, total) * total - value * 10000) <= total,
{
    crate::arith::lemma_round_div_accuracy(value * 10000, total);
}

/// The bracketed fill segment holds exactly `width` characters between its
/// brackets, whatever the current and total amounts are.
pub proof fn lemma_bar_segment_width(v: BarView)
    ensures
        spec_bar_segment(v).len() == v.config.width + 2,
        spec_bar_segment(v)[0] == '[',
        spec_bar_segment(v).last() == ']',
{
}

/// With every display flag off, the bar renders the empty string.
pub proof fn lemma_render_empty(v: BarView, elapsed_millis: int)
    requires
        !v.config.show_bar,
        !v.config.show_percentage,
        !v.config.show_count,
        !v.config.show_rate,
    ensures
        spec_render(v, elapsed_millis) == Seq::<char>::empty(),
{
    assert(spec_parts(v, elapsed_millis) =~= Seq::<Seq<char>>::empty());
}

/// With rate display on and a positive elapsed time, the rendered rate
/// (in hundredths of a unit per second) is the current amount over the
/// elapsed seconds to the nearest integer, and the ETA segment is present
/// exactly while some progress was made and the bar is not finished.
pub proof fn lemma_rate_segment(v: BarView, elapsed_millis: int)
    requires
        v.config.show_rate,
        elapsed_millis > 0,
    ensures
        -elapsed_millis < 2 * (spec_rate_hundredths(v.current, elapsed_millis) * elapsed_millis
            - v.current * 1000),
        2 * (spec_rate_hundredths(v.current, elapsed_millis) * elapsed_millis - v.current * 1000)
            <= elapsed_millis,
        spec_rate_parts(v, elapsed_millis).len() == 2 <==> (v.current > 0 && v.current < v.total),
        spec_rate_parts(v, elapsed_millis).len() == 1 <==> !(v.current > 0 && v.current
            < v.total),
{
    crate::arith::lemma_round_div_accuracy(v.current * 1000, elapsed_millis);
}

} // verus!

//! An animated spinner: a rotating index into a fixed cycle of ten glyphs
//! and a mutable status message.

use vstd::prelude::*;

verus! {

use vstd::string::StringExecFns;

/// The fixed cycle of spinner glyphs, in order.
pub open spec fn spec_frames() -> Seq<char> {
    seq!['⠋', '⠙', '⠹', '⠸', '⠼', '⠴', '⠦', '⠧', '⠇', '⠏']
}

/// The number of glyphs in the cycle.
pub open spec fn frame_count() -> int {
    10
}

/// The abstract state of a spinner: the current frame index and the
/// message shown beside the glyph.
pub ghost struct SpinnerView {
    pub frame: int,
    pub message: Seq<char>,
}

/// The text a spinner shows: the current glyph, a single space, and the
/// message.
pub open spec fn spec_spinner_text(v: SpinnerView) -> Seq<char>
    recommends
        0 <= v.frame < frame_count(),
{
    seq![spec_frames()[v.frame]] + seq![' '] + v.message
}

/// A simple animated spinner for indicating ongoing work.
pub struct Spinner {
    frames: Vec<char>,
    current_frame: usize,
    message: String,
}

impl View for Spinner {
    type V = SpinnerView;

    closed spec fn view(&self) -> SpinnerView {
        SpinnerView { frame: self.current_frame as int, message: self.message@ }
    }
}

impl Spinner {
    #[verifier::type_invariant]
    spec fn wf(self) -> bool {
        &&& self.frames@ == spec_frames()
        &&& self.current_frame < 10
    }

    /// A fresh spinner: first glyph, empty message.
    pub fn new() -> (r: Self)
        ensures
            r@.frame == 0,
            r@.message == Seq::<char>::empty(),
    {
        let frames = vec!['⠋', '⠙', '⠹', '⠸', '⠼', '⠴', '⠦', '⠧', '⠇', '⠏'];
        proof {
            assert(frames@ =~= spec_frames());
        }
        Spinner { frames, current_frame: 0, message: String::new() }
    }

    /// Sets the initial message displayed next to the spinner.
    pub fn with_message(self, msg: &str) -> (r: Self)
        ensures
            r@.frame == self@.frame,
            r@.message == msg@,
    {
        proof {
            use_type_invariant(&self);
        }
        let Spinner { frames, current_frame, message: _ } = self;
        Spinner { frames, current_frame, message: msg.to_owned() }
    }

    /// Replaces the spinner message; it takes effect on the next render.
    pub fn set_message(&mut self, msg: &str)
        ensures
            final(self)@.frame == old(self)@.frame,
            final(self)@.message == msg@,
    {
        proof {
            use_type_invariant(&*self);
        }
        self.message = msg.to_owned();
    }

    /// Advances to the next frame, wrapping after the last glyph.
    pub fn tick(&mut self)
        ensures
            final(self)@.frame == (old(self)@.frame + 1) % frame_count(),
            final(self)@.message == old(self)@.message,
    {
        proof {
            use_type_invariant(&*self);
        }
        self.current_frame = (self.current_frame + 1) % self.frames.len();
    }

    /// Renders the spinner: the current glyph, a space, and the message.
    pub fn render(&self) -> (r: String)
        ensures
            r@ == spec_spinner_text(self@),
    {
        proof {
            use_type_invariant(self);
        }
        let mut out = String::new();
        let glyph = self.frames[self.current_frame];
        out.push(glyph);
        out.push(' ');
        out.append(self.message.as_str());
        proof {
            assert(out@ =~= spec_spinner_text(self@));
        }
        out
    }
}

/// The frame reached from `start` after `n` ticks.
pub open spec fn frame_after(start: int, n: nat) -> int
    decreases n,
{
    if n == 0 {
        start
    } else {
        (frame_after(start, (n - 1) as nat) + 1) % frame_count()
    }
}

/// Ticking is addition modulo the cycle length.
pub proof fn lemma_frame_after_linear(start: int, n: nat)
    requires
        0 <= start < frame_count(),
    ensures
        frame_after(start, n) == (start + n) % frame_count(),
    decreases n,
{
    if n == 0 {
        vstd::arithmetic::div_mod::lemma_small_mod(start as nat, 10);
    } else {
        lemma_frame_after_linear(start, (n - 1) as nat);
        vstd::arithmetic::div_mod::lemma_add_mod_noop(start + (n - 1), 1, 10);
        vstd::arithmetic::div_mod::lemma_small_mod(1nat, 10);
    }
}

/// Ten ticks visit ten pairwise distinct frames and return to the start:
/// the spinner cycles through exactly `frame_count()` frames.
pub proof fn lemma_tick_cycle(start: int)
    requires
        0 <= start < frame_count(),
    ensures
        frame_after(start, 10) == start,
        forall|i: int, j: int|
            0 <= i < j < 10 ==> #[trigger] frame_after(start, i as nat) != #[trigger] frame_after(
                start,
                j as nat,
            ),
{
    lemma_frame_after_linear(start, 10);
    vstd::arithmetic::div_mod::lemma_mod_multiples_vanish(1, start, 10);
    vstd::arithmetic::div_mod::lemma_small_mod(start as nat, 10);
    assert forall|i: int, j: int| 0 <= i < j < 10 implies #[trigger] frame_after(start, i as nat)
        != #[trigger] frame_after(start, j as nat) by {
        lemma_frame_after_linear(start, i as nat);
        lemma_frame_after_linear(start, j as nat);
        if (start + i) % 10 == (start + j) % 10 {
            vstd::arithmetic::div_mod::lemma_sub_mod_noop(start + j, start + i, 10);
            vstd::arithmetic::div_mod::lemma_small_mod((j - i) as nat, 10);
            assert((start + j - (start + i)) % 10 == j - i);
        }
    }
}

/// The ten glyphs of the cycle are pairwise distinct, so the ten frames of
/// a full cycle render ten distinct texts.
pub proof fn lemma_frames_distinct()
    ensures
        forall|i: int, j: int|
            0 <= i < j < frame_count() ==> #[trigger] spec_frames()[i] != #[trigger] spec_frames()[j],
{
}

} // verus!

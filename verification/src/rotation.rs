//! The marquee: which part of a text is shown, and when it moves on.
//!
//! A text that fits into the configured width is shown whole. A longer one is
//! cut to the width or, with the marquee switched on, scrolled: after a change
//! of text the window rests on the text's start for the hold time, then moves
//! one character per step time, the text being read as a ring. Time is a count
//! of milliseconds on a clock that the caller reads.

use vstd::prelude::*;
use vstd::string::*;
use vstd::arithmetic::div_mod::{
    lemma_add_mod_noop_right,
    lemma_mod_add_multiples_vanish,
    lemma_mod_bound,
    lemma_mod_self_0,
    lemma_small_mod,
};

verus! {

/// The delay, in milliseconds, after which a scrolling text wants to be
/// looked at again while no movement is due.
pub const POLL_MS: u64 = 1000;

/// The mathematical state of a [`RotatingText`].
pub ghost struct RotationView {
    /// The whole text.
    pub text: Seq<char>,
    /// The number of characters that may be shown at once.
    pub max_width: nat,
    /// Whether a text that does not fit is scrolled.
    pub marquee: bool,
    /// How long the window rests after a change of text.
    pub hold: nat,
    /// How long the window rests between two movements.
    pub step: nat,
    /// The index in `text` at which the window starts.
    pub offset: nat,
    /// When the text last changed or the window last moved.
    pub since: nat,
    /// Whether the window has moved since the text last changed.
    pub advancing: bool,
}

impl RotationView {
    /// What holds of the state at all times: the window starts inside the
    /// text, or at 0 where the text is empty.
    pub open spec fn wf(self) -> bool {
        self.offset == 0 || self.offset < self.text.len()
    }

    /// Whether the text is scrolled: the marquee is on, there is room for at
    /// least one character, and the text does not fit.
    pub open spec fn rotates(self) -> bool {
        self.marquee && self.max_width > 0 && self.text.len() > self.max_width
    }

    /// The characters on display.
    pub open spec fn window(self) -> Seq<char> {
        if self.text.len() <= self.max_width {
            self.text
        } else if self.rotates() {
            Seq::new(
                self.max_width,
                |i: int| self.text[(self.offset + i) % (self.text.len() as int)],
            )
        } else {
            self.text.subrange(0, self.max_width as int)
        }
    }

    /// How long the window rests in its present phase.
    pub open spec fn rest(self) -> nat {
        if self.advancing {
            self.step
        } else {
            self.hold
        }
    }

    /// Whether a look at the clock at `now` moves the window: the text is
    /// scrolled, and the rest of the present phase is over.
    pub open spec fn due(self, now: nat) -> bool {
        self.rotates() && now >= self.since + self.rest()
    }

    /// The state with the window moved on by `n` characters.
    pub open spec fn shifted(self, n: nat) -> RotationView {
        RotationView { offset: (self.offset + n) % self.text.len(), ..self }
    }

    /// The state after a look at the clock at `now`.
    pub open spec fn tick(self, now: nat) -> RotationView {
        if self.due(now) {
            RotationView { since: now, advancing: true, ..self.shifted(1) }
        } else {
            self
        }
    }

    /// When the next look at the clock is wanted, as a delay from `now`.
    pub open spec fn hint(self, now: nat) -> Option<nat> {
        if !self.rotates() {
            None
        } else if self.due(now) {
            Some(self.step)
        } else {
            Some(POLL_MS as nat)
        }
    }

    /// The state after `text` has been set at `now`.
    pub open spec fn with_text(self, text: Seq<char>, now: nat) -> RotationView {
        if text == self.text {
            self
        } else {
            RotationView { text, offset: 0, since: now, advancing: false, ..self }
        }
    }

    /// The state after a look at the clock at each of `times`, in order.
    pub open spec fn after_ticks(self, times: Seq<nat>) -> RotationView
        decreases times.len(),
    {
        if times.len() == 0 {
            self
        } else {
            self.after_ticks(times.drop_last()).tick(times.last())
        }
    }

    /// How many of the looks at the clock at `times` move the window.
    pub open spec fn movements(self, times: Seq<nat>) -> nat
        decreases times.len(),
    {
        if times.len() == 0 {
            0
        } else {
            self.movements(times.drop_last()) + if self.after_ticks(times.drop_last()).due(
                times.last(),
            ) {
                1nat
            } else {
                0nat
            }
        }
    }
}

/// Looks at the clock keep the text and the settings. They leave a text that
/// is not scrolled as it is, and move the window of one that is scrolled by
/// one character for each look that was due.
pub proof fn lemma_after_ticks(v: RotationView, times: Seq<nat>)
    requires
        v.wf(),
    ensures
        v.after_ticks(times).wf(),
        v.after_ticks(times).text == v.text,
        v.after_ticks(times).max_width == v.max_width,
        v.after_ticks(times).marquee == v.marquee,
        v.after_ticks(times).hold == v.hold,
        v.after_ticks(times).step == v.step,
        !v.rotates() ==> v.after_ticks(times) == v,
        v.rotates() ==> v.after_ticks(times).offset == (v.offset + v.movements(times))
            % v.text.len(),
    decreases times.len(),
{
    if times.len() == 0 {
        if v.rotates() {
            lemma_small_mod(v.offset, v.text.len());
        }
    } else {
        lemma_after_ticks(v, times.drop_last());
        let w = v.after_ticks(times.drop_last());
        if w.due(times.last()) {
            lemma_mod_bound((w.offset + 1) as int, v.text.len() as int);
            lemma_add_mod_noop_right(
                1,
                (v.offset + v.movements(times.drop_last())) as int,
                v.text.len() as int,
            );
        }
    }
}

/// Setting a text and looking at the clock keep what holds of the state at
/// all times.
pub proof fn lemma_wf_is_kept(v: RotationView, text: Seq<char>, now: nat)
    requires
        v.wf(),
    ensures
        v.with_text(text, now).wf(),
        v.tick(now).wf(),
{
    if v.due(now) {
        lemma_mod_bound((v.offset + 1) as int, v.text.len() as int);
    }
}

/// A text that fits into the width is shown whole, whatever the marquee
/// setting, and however often the clock is looked at afterwards.
pub proof fn lemma_fitting_text_is_shown_whole(
    v: RotationView,
    text: Seq<char>,
    now: nat,
    times: Seq<nat>,
)
    requires
        v.wf(),
        text.len() <= v.max_width,
    ensures
        v.with_text(text, now).window() == text,
        v.with_text(text, now).after_ticks(times).window() == text,
{
    lemma_wf_is_kept(v, text, now);
    lemma_after_ticks(v.with_text(text, now), times);
}

/// The window is never wider than the configured width.
pub proof fn lemma_window_fits_width(v: RotationView, times: Seq<nat>)
    requires
        v.wf(),
    ensures
        v.window().len() <= v.max_width,
        v.after_ticks(times).window().len() <= v.max_width,
{
    lemma_after_ticks(v, times);
}

/// A look at the clock once the rest of the present phase is over moves the
/// window of a scrolled text by one character, the text's end joined to its
/// start; an earlier look leaves everything as it is.
pub proof fn lemma_tick(v: RotationView, now: nat)
    requires
        v.rotates(),
    ensures
        now >= v.since + v.rest() ==> v.tick(now).offset == (v.offset + 1) % v.text.len()
            && v.tick(now).advancing && v.tick(now).since == now,
        now < v.since + v.rest() ==> v.tick(now) == v,
{
}

/// The marquee goes round: once the window of a scrolled text has moved as
/// many times as the text has characters, it shows again what it showed
/// before.
pub proof fn lemma_rotation_comes_round(v: RotationView, times: Seq<nat>)
    requires
        v.wf(),
        v.rotates(),
        v.movements(times) == v.text.len(),
    ensures
        v.after_ticks(times).window() == v.window(),
{
    let w = v.after_ticks(times);
    let len = v.text.len() as int;
    lemma_after_ticks(v, times);
    lemma_mod_add_multiples_vanish(v.offset as int, len);
    lemma_small_mod(v.offset, v.text.len());
    assert(w.offset == v.offset);
    assert(w.window() =~= v.window());
}

/// Setting the text that is already there changes nothing, whatever happened
/// since it was first set: the window stays where it is, and so does the phase.
pub proof fn lemma_same_text_keeps_rotation(
    v: RotationView,
    text: Seq<char>,
    first: nat,
    times: Seq<nat>,
    again: nat,
)
    requires
        v.wf(),
    ensures
        v.with_text(text, first).after_ticks(times).with_text(text, again) == v.with_text(
            text,
            first,
        ).after_ticks(times),
{
    lemma_wf_is_kept(v, text, first);
    lemma_after_ticks(v.with_text(text, first), times);
}

/// Setting another text puts the window on the new text's start and begins the
/// hold anew: until the hold time has passed, no look at the clock moves it.
pub proof fn lemma_new_text_restarts_rotation(v: RotationView, text: Seq<char>, now: nat)
    requires
        text != v.text,
    ensures
        v.with_text(text, now).text == text,
        v.with_text(text, now).offset == 0,
        v.with_text(text, now).since == now,
        !v.with_text(text, now).advancing,
        v.with_text(text, now).window() == if text.len() <= v.max_width {
            text
        } else {
            text.subrange(0, v.max_width as int)
        },
        forall|later: nat| later < now + v.hold ==> !v.with_text(text, now).due(later),
{
    let w = v.with_text(text, now);
    if w.rotates() {
        assert forall|i: int| 0 <= i < w.max_width implies w.window()[i] == text[i] by {
            lemma_small_mod(i as nat, text.len());
        }
        assert(w.window() =~= text.subrange(0, v.max_width as int));
    }
}


/// A delay in milliseconds as a natural number.
pub open spec fn millis(delay: Option<u64>) -> Option<nat> {
    match delay {
        Some(d) => Some(d as nat),
        None => None,
    }
}

/// A text with the window through which it is shown.
pub struct RotatingText {
    text: String,
    max_width: usize,
    marquee: bool,
    hold_ms: u64,
    step_ms: u64,
    offset: usize,
    since: u64,
    advancing: bool,
}

impl View for RotatingText {
    type V = RotationView;

    closed spec fn view(&self) -> RotationView {
        RotationView {
            text: self.text@,
            max_width: self.max_width as nat,
            marquee: self.marquee,
            hold: self.hold_ms as nat,
            step: self.step_ms as nat,
            offset: self.offset as nat,
            since: self.since as nat,
            advancing: self.advancing,
        }
    }
}

impl RotatingText {
    #[verifier::type_invariant]
    spec fn offset_in_text(self) -> bool {
        self.offset == 0 || self.offset < self.text@.len()
    }

    /// An empty text that will be shown `max_width` characters wide, resting
    /// `hold_ms` after a change and `step_ms` between movements.
    pub fn new(hold_ms: u64, step_ms: u64, max_width: usize, marquee: bool) -> (r: RotatingText)
        ensures
            r@ == (RotationView {
                text: Seq::empty(),
                max_width: max_width as nat,
                marquee,
                hold: hold_ms as nat,
                step: step_ms as nat,
                offset: 0,
                since: 0,
                advancing: false,
            }),
            r@.wf(),
    {
        RotatingText {
            text: String::new(),
            max_width,
            marquee,
            hold_ms,
            step_ms,
            offset: 0,
            since: 0,
            advancing: false,
        }
    }

    /// The whole text.
    pub fn text(&self) -> (r: &String)
        ensures
            r@ == self@.text,
    {
        &self.text
    }

    /// Whether the text is scrolled.
    pub fn rotates(&self) -> (r: bool)
        ensures
            r == self@.rotates(),
            self@.wf(),
    {
        proof {
            use_type_invariant(self);
        }
        self.marquee && self.max_width > 0 && self.text.as_str().unicode_len() > self.max_width
    }

    /// Replaces the text. A text equal to the present one changes nothing; any
    /// other puts the window back on the start and begins the hold at `now`.
    pub fn set_text(&mut self, text: String, now: u64)
        ensures
            final(self)@ == old(self)@.with_text(text@, now as nat),
            final(self)@.wf(),
    {
        proof {
            use_type_invariant(&*self);
        }
        if self.text != text {
            self.offset = 0;
            self.since = now;
            self.advancing = false;
            self.text = text;
        }
    }

    /// Looks at the clock. Returns whether the window moved, and the delay
    /// after which the next look is wanted: none for a text that is not
    /// scrolled, the step time after a movement, [`POLL_MS`] otherwise.
    pub fn advance(&mut self, now: u64) -> (r: (bool, Option<u64>))
        ensures
            final(self)@ == old(self)@.tick(now as nat),
            r.0 == old(self)@.due(now as nat),
            millis(r.1) == old(self)@.hint(now as nat),
            final(self)@.wf(),
    {
        proof {
            use_type_invariant(&*self);
        }
        let len = self.text.as_str().unicode_len();
        if !(self.marquee && self.max_width > 0 && len > self.max_width) {
            return (false, None);
        }
        let rest: u64 = if self.advancing {
            self.step_ms
        } else {
            self.hold_ms
        };
        if now >= self.since && now - self.since >= rest {
            let next: usize = if self.offset + 1 < len {
                self.offset + 1
            } else {
                0
            };
            proof {
                if self.offset + 1 < len {
                    lemma_small_mod((self.offset + 1) as nat, len as nat);
                } else {
                    lemma_mod_self_0(len as int);
                }
            }
            self.offset = next;
            self.since = now;
            self.advancing = true;
            (true, Some(self.step_ms))
        } else {
            (false, Some(POLL_MS))
        }
    }

    /// The characters on display.
    pub fn visible(&self) -> (r: String)
        ensures
            r@ == self@.window(),
            self@.wf(),
    {
        proof {
            use_type_invariant(self);
        }
        let whole = self.text.as_str();
        let len = whole.unicode_len();
        if len <= self.max_width {
            return self.text.clone();
        }
        if !(self.marquee && self.max_width > 0) {
            return String::from_str(whole.substring_char(0, self.max_width));
        }
        let ahead: usize = len - self.offset;
        if self.max_width <= ahead {
            let shown = String::from_str(
                whole.substring_char(self.offset, self.offset + self.max_width),
            );
            proof {
                assert forall|i: int| 0 <= i < self.max_width implies shown@[i]
                    == self@.window()[i] by {
                    lemma_small_mod((self.offset + i) as nat, len as nat);
                }
                assert(shown@ =~= self@.window());
            }
            shown
        } else {
            let mut shown = String::from_str(whole.substring_char(self.offset, len));
            shown.append(whole.substring_char(0, self.max_width - ahead));
            proof {
                assert forall|i: int| 0 <= i < self.max_width implies shown@[i]
                    == self@.window()[i] by {
                    if i < ahead {
                        lemma_small_mod((self.offset + i) as nat, len as nat);
                    } else {
                        lemma_small_mod((self.offset + i - len) as nat, len as nat);
                        lemma_mod_add_multiples_vanish(self.offset + i - len, len as int);
                    }
                }
                assert(shown@ =~= self@.window());
            }
            shown
        }
    }
}

} // verus!

//! Timed text reveal: the battle text box that types its line out
//! character by character, the standalone typing text of the dialogue
//! demo, and a paged dialogue cursor.

use vstd::prelude::*;

verus! {

/// Characters revealed after `timer` frames at `velocity` hundredths of a
/// character per frame, never more than the text holds.
pub open spec fn spec_revealed(velocity: int, timer: int, len: int) -> int {
    let raw = velocity * timer / 100;
    if raw > len {
        len
    } else {
        raw
    }
}

/// The battle text box: a line of text revealed over time, and at most one
/// queued multi-page dialogue.
pub struct TextBox {
    pub text: String,
    /// Frames since the current line started revealing (held at a cap).
    pub timer: i32,
    /// Hundredths of a character revealed per frame.
    pub velocity: i32,
    /// Characters already revealed when the last click sound played.
    pub prev_length: i32,
    /// A dialogue is queued and being walked through.
    pub dialogue_active: bool,
    /// Number of pages in the queued dialogue.
    pub dialogue_len: i32,
    /// Page currently shown.
    pub dialogue_index: i32,
}

impl TextBox {
    pub open spec fn wf(self) -> bool {
        &&& self.text@.len() <= 1_000_000
        &&& 0 <= self.timer <= 1_000_000
        &&& 0 <= self.velocity <= 1_000_000
        &&& 0 <= self.prev_length <= 1_000_000
        &&& 0 <= self.dialogue_len <= 1_000_000
        &&& 0 <= self.dialogue_index <= 2_000_000
        &&& self.dialogue_active ==> self.dialogue_index <= self.dialogue_len
    }

    /// An empty box revealing one character per frame.
    pub fn new() -> (r: TextBox)
        ensures
            r.wf(),
            r.text@ == Seq::<char>::empty(),
            r.timer == 0,
            r.velocity == 100,
            r.prev_length == 0,
            !r.dialogue_active,
            r.dialogue_len == 0,
            r.dialogue_index == 0,
    {
        TextBox {
            text: String::new(),
            timer: 0,
            velocity: 100,
            prev_length: 0,
            dialogue_active: false,
            dialogue_len: 0,
            dialogue_index: 0,
        }
    }

    /// Show a new line from its beginning.
    pub fn set_text(&mut self, text: String)
        requires
            old(self).wf(),
            text@.len() <= 1_000_000,
        ensures
            final(self).wf(),
            final(self).text == text,
            final(self).timer == 0,
            final(self).velocity == old(self).velocity,
            final(self).prev_length == old(self).prev_length,
            final(self).dialogue_active == old(self).dialogue_active,
            final(self).dialogue_len == old(self).dialogue_len,
            final(self).dialogue_index == old(self).dialogue_index,
    {
        self.text = text;
        self.timer = 0;
    }

    /// Empty the box without restarting the reveal clock.
    pub fn clear_box(&mut self)
        requires
            old(self).wf(),
        ensures
            final(self).wf(),
            final(self).text@ == Seq::<char>::empty(),
            final(self).timer == old(self).timer,
            final(self).velocity == old(self).velocity,
            final(self).prev_length == old(self).prev_length,
            final(self).dialogue_active == old(self).dialogue_active,
            final(self).dialogue_len == old(self).dialogue_len,
            final(self).dialogue_index == old(self).dialogue_index,
    {
        self.text = String::new();
    }

    /// Queue a dialogue of `dialogue_len` pages and start at the first.
    pub fn queue_event(&mut self, dialogue_len: i32)
        requires
            old(self).wf(),
            0 <= dialogue_len <= 1_000_000,
        ensures
            final(self).wf(),
            final(self).dialogue_active,
            final(self).dialogue_len == dialogue_len,
            final(self).dialogue_index == 0,
            final(self).prev_length == 0,
            final(self).timer == 0,
            final(self).text == old(self).text,
            final(self).velocity == old(self).velocity,
    {
        self.dialogue_active = true;
        self.dialogue_len = dialogue_len;
        self.dialogue_index = 0;
        self.prev_length = 0;
        self.timer = 0;
    }

    /// One frame of the reveal.  Returns how many characters are now
    /// visible and whether the typing click is to play — it plays when the
    /// visible count jumped by more than one since the last click.
    pub fn update_text(&mut self, dt: i32) -> (r: (usize, bool))
        requires
            old(self).wf(),
            0 <= dt <= 1_000_000,
        ensures
            final(self).wf(),
            final(self).text == old(self).text,
            final(self).velocity == old(self).velocity,
            final(self).dialogue_active == old(self).dialogue_active,
            final(self).dialogue_len == old(self).dialogue_len,
            final(self).dialogue_index == old(self).dialogue_index,
            final(self).timer == if old(self).timer + dt > 1_000_000 {
                1_000_000int
            } else {
                old(self).timer + dt
            },
            r.0 == spec_revealed(
                old(self).velocity as int, final(self).timer as int, old(self).text@.len() as int,
            ),
            r.1 == (r.0 - old(self).prev_length > 1),
            r.1 ==> final(self).prev_length == r.0,
            !r.1 ==> final(self).prev_length == old(self).prev_length,
    {
        let bumped: i32 = if self.timer > 1_000_000 - dt { 1_000_000 } else { self.timer + dt };
        self.timer = bumped;
        let len: usize = self.text.as_str().unicode_len();
        proof {
            assert(0 <= self.velocity * self.timer <= 1_000_000_000_000) by (nonlinear_arith)
                requires
                    0 <= self.velocity <= 1_000_000,
                    0 <= self.timer <= 1_000_000,
            ;
            assert((self.velocity * self.timer) as int / 100 >= 0) by (nonlinear_arith)
                requires
                    0 <= self.velocity * self.timer,
            ;
        }
        let raw: i64 = self.velocity as i64 * self.timer as i64 / 100;
        let length: i64 = if raw > len as i64 { len as i64 } else { raw };
        let sound: bool = length - self.prev_length as i64 > 1;
        if sound {
            self.prev_length = length as i32;
        }
        (length as usize, sound)
    }

    /// One frame of dialogue input: confirm turns the page, cancel reveals
    /// the rest of the current one.  Returns true exactly when the last
    /// page has been turned; the box is then emptied and the queued
    /// dialogue dropped.
    pub fn update_dialogue(&mut self, pressed_x: bool, pressed_z: bool) -> (done: bool)
        requires
            old(self).wf(),
        ensures
            final(self).wf(),
            !old(self).dialogue_active ==> !done && *final(self) == *old(self),
            old(self).dialogue_active ==> {
                let idx = if pressed_z {
                    old(self).dialogue_index + 1
                } else {
                    old(self).dialogue_index as int
                };
                &&& done == (idx >= old(self).dialogue_len)
                &&& final(self).dialogue_index == idx
                &&& final(self).dialogue_active == !done
                &&& done ==> final(self).text@ == Seq::<char>::empty()
                &&& !done ==> final(self).text == old(self).text
                &&& final(self).timer == if pressed_z {
                    0int
                } else if pressed_x {
                    1_000_000int
                } else {
                    old(self).timer as int
                }
            },
    {
        if !self.dialogue_active {
            return false;
        }
        if pressed_x {
            self.timer = 1_000_000;
        }
        if pressed_z {
            self.timer = 0;
            self.dialogue_index = self.dialogue_index + 1;
        }
        if self.dialogue_index >= self.dialogue_len {
            self.dialogue_active = false;
            self.clear_box();
            true
        } else {
            false
        }
    }
}

/// The standalone typing text of the dialogue demo: a fixed line revealed
/// one character per timer tick, with a skip flag that reveals the rest.
#[derive(Clone, Copy, PartialEq, Eq, Structural, Debug)]
pub struct TypingText {
    pub full_len: usize,
    pub visible_length: usize,
    pub is_skipping: bool,
}

impl TypingText {
    pub open spec fn wf(self) -> bool {
        self.visible_length <= self.full_len <= 1_000_000_000
    }

    pub fn new(full_len: usize) -> (r: TypingText)
        requires
            full_len <= 1_000_000_000,
        ensures
            r.wf(),
            r.full_len == full_len,
            r.visible_length == 0,
            !r.is_skipping,
    {
        TypingText { full_len, visible_length: 0, is_skipping: false }
    }

    /// One frame: skipping reveals everything; otherwise a finished timer
    /// tick reveals one more character while any remain.
    pub fn text_typing_system(&mut self, timer_finished: bool)
        requires
            old(self).wf(),
        ensures
            final(self).wf(),
            final(self).full_len == old(self).full_len,
            final(self).is_skipping == old(self).is_skipping,
            old(self).is_skipping ==> final(self).visible_length == old(self).full_len,
            !old(self).is_skipping ==> final(self).visible_length == if timer_finished
                && old(self).visible_length < old(self).full_len {
                old(self).visible_length + 1
            } else {
                old(self).visible_length as int
            },
    {
        if self.is_skipping {
            self.visible_length = self.full_len;
        } else {
            if timer_finished && self.visible_length < self.full_len {
                self.visible_length = self.visible_length + 1;
            }
        }
    }

    /// The skip key was pressed.
    pub fn input_skip_system(&mut self)
        ensures
            final(self).is_skipping,
            final(self).full_len == old(self).full_len,
            final(self).visible_length == old(self).visible_length,
    {
        self.is_skipping = true;
    }
}

/// A paged dialogue: lines shown one after the other.
pub struct Dialogue {
    pub text: Vec<String>,
    pub current: usize,
}

impl Dialogue {
    pub fn new(text: Vec<String>) -> (r: Dialogue)
        ensures
            r.text == text,
            r.current == 0,
    {
        Dialogue { text, current: 0 }
    }

    /// The index of the next line to show, advancing the cursor; nothing
    /// once every line has been shown.
    pub fn next(&mut self) -> (r: Option<usize>)
        ensures
            final(self).text == old(self).text,
            old(self).current < old(self).text@.len() ==> r == Some(old(self).current)
                && final(self).current == old(self).current + 1,
            old(self).current >= old(self).text@.len() ==> r is None
                && final(self).current == old(self).current,
    {
        if self.current < self.text.len() {
            let idx: usize = self.current;
            self.current = self.current + 1;
            Some(idx)
        } else {
            None
        }
    }
}

} // verus!

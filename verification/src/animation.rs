//! Sprite-sheet animation stepping: a bank of named clips and an animator
//! that walks the atlas frames of the current clip.
//!
//! Frames are numbered from one in the clip data and from zero in the
//! atlas, exactly as the scene has it.

use vstd::prelude::*;

verus! {

/// One clip: a contiguous range of atlas frames.
pub struct Animation {
    pub name: String,
    /// Frames to wait between two steps.
    pub cooldown: i32,
    /// First frame of the clip, counted from one.
    pub start: i32,
    /// Last frame of the clip, counted from one.
    pub end: i32,
    pub looping: bool,
}

impl Animation {
    pub open spec fn wf(self) -> bool {
        &&& 1 <= self.start <= self.end <= 1_000_000
        &&& 0 <= self.cooldown <= 1_000_000
    }
}

/// The default bank: a single one-frame looping clip.
pub fn create_anim_bank() -> (r: Vec<Animation>)
    ensures
        r@.len() == 1,
        r@[0].wf(),
        r@[0].start == 1 && r@[0].end == 1,
        r@[0].looping,
        r@[0].cooldown == 3,
        r@[0].name@ == Seq::<char>::empty(),
{
    let mut bank: Vec<Animation> = Vec::new();
    bank.push(
        Animation { name: String::new(), cooldown: 3, start: 1, end: 1, looping: true },
    );
    bank
}

/// Walks the frames of the clip it is pointed at; clips are named by their
/// index in the bank.
#[derive(Clone, Copy, PartialEq, Eq, Structural, Debug)]
pub struct Animator {
    pub current_animation: usize,
    pub last_animation: usize,
    /// Frames until the next step.
    pub timer: i32,
    pub cooldown: i32,
    pub finished: bool,
    /// The atlas frame currently shown, counted from zero.
    pub index: usize,
}

impl Animator {
    pub open spec fn wf(self) -> bool {
        &&& -2_000_000 <= self.timer <= 1_000_000
        &&& 0 <= self.cooldown <= 1_000_000
        &&& self.index <= 1_000_000
    }

    pub fn new() -> (r: Animator)
        ensures
            r.wf(),
            r == (Animator {
                current_animation: 0usize, last_animation: 0usize, timer: 0i32,
                cooldown: 3i32, finished: false, index: 0usize,
            }),
    {
        Animator {
            current_animation: 0,
            last_animation: 0,
            timer: 0,
            cooldown: 3,
            finished: false,
            index: 0,
        }
    }

    /// The frame shown after a due step of the clip: around the loop for a
    /// looping clip, one forward and held at the last frame otherwise.
    pub open spec fn spec_step_frame(anim: Animation, index: int) -> (int, bool) {
        if anim.looping {
            let base = if index < anim.start - 1 {
                anim.start - 1
            } else {
                index
            };
            (
                (base + 1 - (anim.start - 1)) % (anim.end - anim.start + 1) + anim.start - 1,
                false,
            )
        } else {
            if index + 1 > anim.end - 1 {
                (anim.end - 1, true)
            } else {
                (index + 1, false)
            }
        }
    }

    /// One frame of the animator against the current clip.  Switching
    /// clips rewinds to the clip's first frame; then, when the cooldown
    /// runs out, the frame advances.
    pub fn animate_sprite(&mut self, anim: &Animation, dt: i32)
        requires
            old(self).wf(),
            anim.wf(),
            0 <= dt <= 1_000_000,
        ensures
            final(self).wf(),
            final(self).current_animation == old(self).current_animation,
            final(self).last_animation == old(self).current_animation,
            final(self).cooldown == old(self).cooldown,
            ({
                let switched = old(self).last_animation != old(self).current_animation;
                let base_index = if switched {
                    anim.start - 1
                } else {
                    old(self).index as int
                };
                let base_finished = if switched {
                    false
                } else {
                    old(self).finished
                };
                let due = old(self).timer - dt <= 0;
                &&& final(self).timer == if due {
                    anim.cooldown as int
                } else {
                    old(self).timer - dt
                }
                &&& !due ==> final(self).index == base_index
                    && final(self).finished == base_finished
                &&& due ==> {
                    let (frame, done) = Self::spec_step_frame(*anim, base_index);
                    &&& final(self).index == frame
                    &&& final(self).finished == (base_finished || done)
                }
            }),
    {
        if self.last_animation != self.current_animation {
            self.index = anim.start as usize - 1;
            self.finished = false;
        }
        let next_timer: i32 = self.timer - dt;
        if next_timer <= 0 {
            self.timer = anim.cooldown;
            if anim.looping {
                if self.index < anim.start as usize - 1 {
                    self.index = anim.start as usize - 1;
                }
                let span: i32 = anim.end - anim.start + 1;
                let off: i32 = self.index as i32 + 1 - (anim.start - 1);
                self.index = (off % span + anim.start - 1) as usize;
            } else {
                let bumped: usize = self.index + 1;
                if bumped > anim.end as usize - 1 {
                    self.index = anim.end as usize - 1;
                    self.finished = true;
                } else {
                    self.index = bumped;
                }
            }
        } else {
            self.timer = next_timer;
        }
        self.last_animation = self.current_animation;
    }
}

} // verus!

//! Plain physics state for scene objects: a position, a velocity applied
//! once per fixed step, and the half-extents of the hit and collision boxes.

use vstd::prelude::*;
use crate::COORD_LIMIT;
use crate::geom::Rectangle;

verus! {

#[derive(Clone, Copy, PartialEq, Eq, Structural, Debug)]
pub struct PhysicsComponent {
    pub pos_x: i32,
    pub pos_y: i32,
    pub velocity_x: i32,
    pub velocity_y: i32,
    pub half_hitbox_x: i32,
    pub half_hitbox_y: i32,
    pub half_collision_x: i32,
    pub half_collision_y: i32,
}

impl PhysicsComponent {
    pub open spec fn wf(self) -> bool {
        &&& -COORD_LIMIT / 2 <= self.pos_x <= COORD_LIMIT / 2
        &&& -COORD_LIMIT / 2 <= self.pos_y <= COORD_LIMIT / 2
        &&& -COORD_LIMIT <= self.velocity_x <= COORD_LIMIT
        &&& -COORD_LIMIT <= self.velocity_y <= COORD_LIMIT
        &&& 0 <= self.half_hitbox_x <= COORD_LIMIT / 4
        &&& 0 <= self.half_hitbox_y <= COORD_LIMIT / 4
        &&& 0 <= self.half_collision_x <= COORD_LIMIT / 4
        &&& 0 <= self.half_collision_y <= COORD_LIMIT / 4
    }

    /// The hitbox as a rectangle around the current position.
    pub open spec fn spec_hitbox(self) -> Rectangle {
        Rectangle {
            x: (self.pos_x - self.half_hitbox_x) as i32,
            y: (self.pos_y + self.half_hitbox_y) as i32,
            w: (2 * self.half_hitbox_x) as i32,
            h: (2 * self.half_hitbox_y) as i32,
        }
    }

    pub fn new(pos_x: i32, pos_y: i32) -> (r: PhysicsComponent)
        requires
            -COORD_LIMIT / 2 <= pos_x <= COORD_LIMIT / 2,
            -COORD_LIMIT / 2 <= pos_y <= COORD_LIMIT / 2,
        ensures
            r.wf(),
            r.pos_x == pos_x && r.pos_y == pos_y,
            r.velocity_x == 0 && r.velocity_y == 0,
            r.half_hitbox_x == 0 && r.half_hitbox_y == 0,
            r.half_collision_x == 0 && r.half_collision_y == 0,
    {
        PhysicsComponent {
            pos_x,
            pos_y,
            velocity_x: 0,
            velocity_y: 0,
            half_hitbox_x: 0,
            half_hitbox_y: 0,
            half_collision_x: 0,
            half_collision_y: 0,
        }
    }

    pub fn new_full(
        pos_x: i32, pos_y: i32,
        velocity_x: i32, velocity_y: i32,
        half_hitbox_x: i32, half_hitbox_y: i32,
        half_collision_x: i32, half_collision_y: i32,
    ) -> (r: PhysicsComponent)
        requires
            -COORD_LIMIT / 2 <= pos_x <= COORD_LIMIT / 2,
            -COORD_LIMIT / 2 <= pos_y <= COORD_LIMIT / 2,
            -COORD_LIMIT <= velocity_x <= COORD_LIMIT,
            -COORD_LIMIT <= velocity_y <= COORD_LIMIT,
            0 <= half_hitbox_x <= COORD_LIMIT / 4,
            0 <= half_hitbox_y <= COORD_LIMIT / 4,
            0 <= half_collision_x <= COORD_LIMIT / 4,
            0 <= half_collision_y <= COORD_LIMIT / 4,
        ensures
            r.wf(),
            r == (PhysicsComponent {
                pos_x, pos_y, velocity_x, velocity_y,
                half_hitbox_x, half_hitbox_y, half_collision_x, half_collision_y,
            }),
    {
        PhysicsComponent {
            pos_x,
            pos_y,
            velocity_x,
            velocity_y,
            half_hitbox_x,
            half_hitbox_y,
            half_collision_x,
            half_collision_y,
        }
    }

    /// One fixed step: the velocity is added to the position.
    pub fn update_physics(&mut self)
        requires
            old(self).wf(),
            -COORD_LIMIT / 2 <= old(self).pos_x + old(self).velocity_x <= COORD_LIMIT / 2,
            -COORD_LIMIT / 2 <= old(self).pos_y + old(self).velocity_y <= COORD_LIMIT / 2,
        ensures
            final(self).wf(),
            final(self).pos_x == old(self).pos_x + old(self).velocity_x,
            final(self).pos_y == old(self).pos_y + old(self).velocity_y,
            final(self).velocity_x == old(self).velocity_x,
            final(self).velocity_y == old(self).velocity_y,
            final(self).half_hitbox_x == old(self).half_hitbox_x,
            final(self).half_hitbox_y == old(self).half_hitbox_y,
            final(self).half_collision_x == old(self).half_collision_x,
            final(self).half_collision_y == old(self).half_collision_y,
    {
        self.pos_x = self.pos_x + self.velocity_x;
        self.pos_y = self.pos_y + self.velocity_y;
    }

    /// The hitbox rectangle, as the damage pass builds it.
    pub fn hitbox(&self) -> (r: Rectangle)
        requires
            self.wf(),
        ensures
            r == self.spec_hitbox(),
            r.wf(),
    {
        Rectangle::new_v(self.pos_x, self.pos_y, self.half_hitbox_x, self.half_hitbox_y)
    }
}

} // verus!

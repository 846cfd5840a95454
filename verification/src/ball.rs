use vstd::prelude::*;

verus! {

/// The moving ball: a position on the playfield and a velocity vector.
/// Velocity components are small signed integers; in this design each
/// stays at -1 or +1 for the life of the game.
pub struct Ball {
    pub x: u16,
    pub y: u16,
    pub motion_x: i16,
    pub motion_y: i16,
}

impl Ball {
    /// Advance the position by the current velocity, component-wise,
    /// with no bounds checking: wall handling happens before the step,
    /// by flipping the velocity signs.
    pub fn step(&mut self)
        requires
            old(self).x <= i16::MAX,
            old(self).y <= i16::MAX,
            0 <= old(self).x + old(self).motion_x <= i16::MAX,
            0 <= old(self).y + old(self).motion_y <= i16::MAX,
        ensures
            final(self).x == old(self).x + old(self).motion_x,
            final(self).y == old(self).y + old(self).motion_y,
            final(self).motion_x == old(self).motion_x,
            final(self).motion_y == old(self).motion_y,
    {
        self.x = (self.x as i16 + self.motion_x) as u16;
        self.y = (self.y as i16 + self.motion_y) as u16;
    }
}

} // verus!

use vstd::prelude::*;

verus! {

/// Vertical speeds are stored in tenths of a row per physics step, so the
/// 0.2-row gravity pull, the 2.0-row terminal fall speed and the -2.0-row
/// flap impulse are the exact integers 2, 20 and -20.
pub const GRAVITY_TENTHS: i32 = 2;

/// Terminal fall speed: gravity stops pulling once this is reached.
pub const MAX_FALL_TENTHS: i32 = 20;

/// The impulse a flap sets the velocity to, regardless of its prior value.
pub const FLAP_TENTHS: i32 = -20;

/// The player-controlled dragon: a horizontal world position `x`, a vertical
/// screen row `y` (0 is the top edge), and a vertical velocity in tenths of
/// a row per physics step (positive is downward).
pub struct Player {
    pub x: i32,
    pub y: i32,
    pub velocity: i32,
}

/// Mathematical image of a `Player`.
pub ghost struct PlayerV {
    pub x: int,
    pub y: int,
    pub velocity: int,
}

impl View for Player {
    type V = PlayerV;

    open spec fn view(&self) -> PlayerV {
        PlayerV { x: self.x as int, y: self.y as int, velocity: self.velocity as int }
    }
}

impl PlayerV {
    /// Well-formed: the row is on or below the top edge, and the velocity is
    /// an even number of tenths between the flap impulse and the fall cap
    /// (every reachable velocity is a multiple of the gravity pull).
    pub open spec fn wf(self) -> bool {
        &&& self.y >= 0
        &&& -20 <= self.velocity <= 20
        &&& self.velocity % 2 == 0
    }
}

/// The velocity after one pull of gravity: 2 tenths faster, clamped so it
/// never passes 20 once reached.
pub open spec fn pulled(v: int) -> int {
    if v < 20 {
        v + 2
    } else {
        v
    }
}

/// Whole rows moved by a velocity of `v` tenths: truncated toward zero, as
/// casting the fractional speed to an integer row count does.
pub open spec fn rows_of_tenths(v: int) -> int {
    if v >= 0 {
        v / 10
    } else {
        -((-v) / 10)
    }
}

/// One physics step: gravity pulls the velocity, the (truncated) velocity
/// moves the row, the world position advances by exactly 1, and the row is
/// clamped to the top edge.
pub open spec fn advanced(p: PlayerV) -> PlayerV {
    let v = pulled(p.velocity);
    let yr = p.y + rows_of_tenths(v);
    PlayerV { x: p.x + 1, y: if yr < 0 { 0 } else { yr }, velocity: v }
}

/// A flap: the velocity becomes exactly -20 tenths; position is untouched.
pub open spec fn flapped(p: PlayerV) -> PlayerV {
    PlayerV { velocity: -20, ..p }
}

/// `n` physics steps in a row with no flap in between.
pub open spec fn advanced_n(p: PlayerV, n: nat) -> PlayerV
    decreases n,
{
    if n == 0 {
        p
    } else {
        advanced(advanced_n(p, (n - 1) as nat))
    }
}

/// One gravity step keeps a player well-formed and never slows it down.
pub proof fn lemma_advanced_step(p: PlayerV)
    requires
        p.wf(),
    ensures
        advanced(p).wf(),
        p.velocity <= advanced(p).velocity <= 20,
{
}

/// Gravity alone, over any number of physics steps with no intervening
/// flap: the velocity is non-decreasing, never exceeds the fall cap of 20
/// tenths (2.0 rows), and the row never leaves the play area upward.
pub proof fn lemma_gravity_run(p: PlayerV, n: nat)
    requires
        p.wf(),
    ensures
        forall|i: nat| i <= n ==> (#[trigger] advanced_n(p, i)).wf(),
        forall|i: nat, j: nat|
            i <= j <= n ==> advanced_n(p, i).velocity <= advanced_n(p, j).velocity,
        forall|i: nat| i <= n ==> advanced_n(p, i).velocity <= 20,
        forall|i: nat| i <= n ==> advanced_n(p, i).y >= 0,
    decreases n,
{
    if n > 0 {
        let m = (n - 1) as nat;
        lemma_gravity_run(p, m);
        lemma_advanced_step(advanced_n(p, m));
    }
}

impl Player {
    /// A fresh player at the given spot, at rest.
    pub fn new(x: i32, y: i32) -> (r: Player)
        requires
            y >= 0,
        ensures
            r@ == (PlayerV { x: x as int, y: y as int, velocity: 0 }),
            r@.wf(),
    {
        Player { x, y, velocity: 0 }
    }

    /// One physics step: gravity accelerates the fall up to the cap, the
    /// velocity (in whole rows, truncated) moves the player vertically, the
    /// world position advances by 1, and the row is clamped at the top edge.
    pub fn advance(&mut self)
        requires
            old(self)@.wf(),
            old(self)@.x < i32::MAX,
            old(self)@.y + 2 <= i32::MAX,
        ensures
            final(self)@ == advanced(old(self)@),
            final(self)@.wf(),
            old(self)@.velocity <= final(self)@.velocity,
    {
        if self.velocity < MAX_FALL_TENTHS {
            self.velocity = self.velocity + GRAVITY_TENTHS;
        }
        let dy: i32 = if self.velocity >= 0 {
            self.velocity / 10
        } else {
            -((-self.velocity) / 10)
        };
        self.y = self.y + dy;
        self.x = self.x + 1;
        if self.y < 0 {
            self.y = 0;
        }
    }

    /// A flap: an instantaneous upward impulse that sets the velocity to
    /// exactly -20 tenths (-2.0 rows per step), whatever it was before.
    pub fn flap(&mut self)
        ensures
            final(self)@ == flapped(old(self)@),
            final(self)@.velocity == -20,
            old(self)@.wf() ==> final(self)@.wf(),
    {
        self.velocity = FLAP_TENTHS;
    }
}

} // verus!

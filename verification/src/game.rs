//! The decisions of the gameplay screens: leaving, choosing a cannon,
//! steering, firing, and when a new asteroid enters.

use vstd::prelude::*;
use crate::input::Events;
use crate::view::{Screen, ViewAction};

verus! {

/// Horizontal distance from the ship's left edge to both cannon mounts.
pub const CANNON_X: u32 = 30;

/// Vertical distance from the ship's top edge to the upper mount.
pub const UPPER_CANNON_Y: u32 = 6;

/// Vertical distance from the ship's top edge to the lower mount.
pub const LOWER_CANNON_Y: u32 = 29;

/// One frame in this many brings a new asteroid, on average.
pub const ASTEROID_ODDS: usize = 100;

/// The sign of a movement along one axis.
#[derive(Clone, Copy, Debug, PartialEq, Eq, Structural)]
pub enum Sign {
    Negative,
    Zero,
    Positive,
}

impl Sign {
    /// The direction two opposing keys ask for: towards `back` when it alone
    /// is held, towards `forth` when it alone is held, none otherwise.
    pub open spec fn spec_from_keys(back: bool, forth: bool) -> Sign {
        if back && !forth {
            Sign::Negative
        } else if forth && !back {
            Sign::Positive
        } else {
            Sign::Zero
        }
    }

    /// Reads the direction along one axis off its two keys.
    pub fn from_keys(back: bool, forth: bool) -> (out: Sign)
        ensures
            out == Sign::spec_from_keys(back, forth),
    {
        match (back, forth) {
            (true, false) => Sign::Negative,
            (false, true) => Sign::Positive,
            _ => Sign::Zero,
        }
    }
}

/// The nine pictures of the ship. The row follows the vertical movement
/// (`Up`, `Mid`, `Down`), the column the horizontal one (`Norm` at rest,
/// `Fast` forwards, `Slow` backwards).
#[derive(Clone, Copy, Debug, PartialEq, Eq, Structural)]
pub enum ShipFrame {
    UpNorm,
    UpFast,
    UpSlow,
    MidNorm,
    MidFast,
    MidSlow,
    DownNorm,
    DownFast,
    DownSlow,
}

/// Row of the sprite sheet for a vertical movement.
pub open spec fn frame_row(dy: Sign) -> nat {
    match dy {
        Sign::Negative => 0,
        Sign::Zero => 1,
        Sign::Positive => 2,
    }
}

/// Column of the sprite sheet for a horizontal movement.
pub open spec fn frame_column(dx: Sign) -> nat {
    match dx {
        Sign::Zero => 0,
        Sign::Positive => 1,
        Sign::Negative => 2,
    }
}

impl ShipFrame {
    /// The picture for a movement with the given signs.
    pub open spec fn spec_from_dx_dy(dx: Sign, dy: Sign) -> ShipFrame {
        match (dy, dx) {
            (Sign::Negative, Sign::Zero) => ShipFrame::UpNorm,
            (Sign::Negative, Sign::Positive) => ShipFrame::UpFast,
            (Sign::Negative, Sign::Negative) => ShipFrame::UpSlow,
            (Sign::Zero, Sign::Zero) => ShipFrame::MidNorm,
            (Sign::Zero, Sign::Positive) => ShipFrame::MidFast,
            (Sign::Zero, Sign::Negative) => ShipFrame::MidSlow,
            (Sign::Positive, Sign::Zero) => ShipFrame::DownNorm,
            (Sign::Positive, Sign::Positive) => ShipFrame::DownFast,
            (Sign::Positive, Sign::Negative) => ShipFrame::DownSlow,
        }
    }

    /// Position of the picture in the sprite sheet, counted row by row.
    pub open spec fn spec_index(self) -> nat {
        match self {
            ShipFrame::UpNorm => 0,
            ShipFrame::UpFast => 1,
            ShipFrame::UpSlow => 2,
            ShipFrame::MidNorm => 3,
            ShipFrame::MidFast => 4,
            ShipFrame::MidSlow => 5,
            ShipFrame::DownNorm => 6,
            ShipFrame::DownFast => 7,
            ShipFrame::DownSlow => 8,
        }
    }

    /// Picks the picture of the ship from the signs of its last movement.
    pub fn from_dx_dy(dx: Sign, dy: Sign) -> (out: ShipFrame)
        ensures
            out == ShipFrame::spec_from_dx_dy(dx, dy),
            out.spec_index() == 3 * frame_row(dy) + frame_column(dx),
    {
        match dy {
            Sign::Negative => match dx {
                Sign::Zero => ShipFrame::UpNorm,
                Sign::Positive => ShipFrame::UpFast,
                Sign::Negative => ShipFrame::UpSlow,
            },
            Sign::Zero => match dx {
                Sign::Zero => ShipFrame::MidNorm,
                Sign::Positive => ShipFrame::MidFast,
                Sign::Negative => ShipFrame::MidSlow,
            },
            Sign::Positive => match dx {
                Sign::Zero => ShipFrame::DownNorm,
                Sign::Positive => ShipFrame::DownFast,
                Sign::Negative => ShipFrame::DownSlow,
            },
        }
    }

    /// Position of the picture among the ship's nine sprites.
    pub fn index(self) -> (out: usize)
        ensures
            out == self.spec_index(),
            out < 9,
    {
        match self {
            ShipFrame::UpNorm => 0,
            ShipFrame::UpFast => 1,
            ShipFrame::UpSlow => 2,
            ShipFrame::MidNorm => 3,
            ShipFrame::MidFast => 4,
            ShipFrame::MidSlow => 5,
            ShipFrame::DownNorm => 6,
            ShipFrame::DownFast => 7,
            ShipFrame::DownSlow => 8,
        }
    }
}

/// Two movements get the same picture only when their signs agree on both
/// axes: the nine combinations of signs have nine different pictures.
pub proof fn lemma_frames_distinct(dx1: Sign, dy1: Sign, dx2: Sign, dy2: Sign)
    requires
        ShipFrame::spec_from_dx_dy(dx1, dy1) == ShipFrame::spec_from_dx_dy(dx2, dy2),
    ensures
        dx1 == dx2,
        dy1 == dy2,
{
}

/// Every picture belongs to some movement, and different pictures sit at
/// different positions of the sprite sheet.
pub proof fn lemma_frames_cover(frame: ShipFrame)
    ensures
        exists|dx: Sign, dy: Sign| ShipFrame::spec_from_dx_dy(dx, dy) == frame,
        forall|other: ShipFrame| other.spec_index() == frame.spec_index() ==> other == frame,
{
    let (dx, dy) = match frame {
        ShipFrame::UpNorm => (Sign::Zero, Sign::Negative),
        ShipFrame::UpFast => (Sign::Positive, Sign::Negative),
        ShipFrame::UpSlow => (Sign::Negative, Sign::Negative),
        ShipFrame::MidNorm => (Sign::Zero, Sign::Zero),
        ShipFrame::MidFast => (Sign::Positive, Sign::Zero),
        ShipFrame::MidSlow => (Sign::Negative, Sign::Zero),
        ShipFrame::DownNorm => (Sign::Zero, Sign::Positive),
        ShipFrame::DownFast => (Sign::Positive, Sign::Positive),
        ShipFrame::DownSlow => (Sign::Negative, Sign::Positive),
    };
    assert(ShipFrame::spec_from_dx_dy(dx, dy) == frame);
}

/// The trajectory the ship's cannons give their bullets.
#[derive(Clone, Copy, Debug, PartialEq, Eq, Structural)]
pub enum CannonType {
    /// Straight ahead.
    RectBullet,
    /// A sine wave around the line of fire.
    SineBullet,
    /// An S-curve that leaves the line of fire for good.
    DivergentBullet,
}

impl CannonType {
    /// The cannon after the three selection keys were looked at in turn:
    /// the highest key pressed this frame wins, and with none pressed the
    /// cannon stays.
    pub open spec fn spec_select(self, key_1: bool, key_2: bool, key_3: bool) -> CannonType {
        if key_3 {
            CannonType::DivergentBullet
        } else if key_2 {
            CannonType::SineBullet
        } else if key_1 {
            CannonType::RectBullet
        } else {
            self
        }
    }

    /// Switches the cannon on a press of one of the selection keys.
    pub fn select(self, key_1: bool, key_2: bool, key_3: bool) -> (out: CannonType)
        ensures
            out == self.spec_select(key_1, key_2, key_3),
    {
        let mut cannon = self;
        if key_1 {
            cannon = CannonType::RectBullet;
        }
        if key_2 {
            cannon = CannonType::SineBullet;
        }
        if key_3 {
            cannon = CannonType::DivergentBullet;
        }
        cannon
    }
}

/// One of the ship's two cannon mounts.
#[derive(Clone, Copy, Debug, PartialEq, Eq, Structural)]
pub enum Mount {
    Upper,
    Lower,
}

impl Mount {
    /// Where the mount sits, as whole screen units right of and below the
    /// ship's top-left corner.
    pub open spec fn spec_offset(self) -> (u32, u32) {
        match self {
            Mount::Upper => (CANNON_X, UPPER_CANNON_Y),
            Mount::Lower => (CANNON_X, LOWER_CANNON_Y),
        }
    }

    /// The mount's offset from the ship's top-left corner.
    pub fn offset(self) -> (out: (u32, u32))
        ensures
            out == self.spec_offset(),
    {
        match self {
            Mount::Upper => (CANNON_X, UPPER_CANNON_Y),
            Mount::Lower => (CANNON_X, LOWER_CANNON_Y),
        }
    }
}

/// A bullet about to leave the ship.
#[derive(Clone, Copy, Debug, PartialEq, Eq, Structural)]
pub struct BulletSpawn {
    /// The trajectory it will follow.
    pub kind: CannonType,
    /// The mount it leaves from.
    pub mount: Mount,
    /// Whether its curve is mirrored about the line of fire.
    pub mirrored: bool,
}

/// What the game knows of the player's ship apart from where it is.
#[derive(Clone, Copy, Debug, PartialEq, Eq, Structural)]
pub struct Ship {
    /// The picture currently shown.
    pub current: ShipFrame,
    /// The cannon currently selected.
    pub cannon: CannonType,
}

impl Ship {
    /// The two bullets of one shot: one per mount, upper first, both of the
    /// selected kind. The upper bullet of a divergent pair is mirrored, so
    /// that the two part from each other.
    pub open spec fn spec_spawn_bullets(self) -> Seq<BulletSpawn> {
        seq![
            BulletSpawn {
                kind: self.cannon,
                mount: Mount::Upper,
                mirrored: self.cannon == CannonType::DivergentBullet,
            },
            BulletSpawn { kind: self.cannon, mount: Mount::Lower, mirrored: false },
        ]
    }

    /// Fires both cannons.
    pub fn spawn_bullets(&self) -> (out: Vec<BulletSpawn>)
        ensures
            out@ == self.spec_spawn_bullets(),
    {
        let mirrored = match self.cannon {
            CannonType::DivergentBullet => true,
            _ => false,
        };
        let mut out: Vec<BulletSpawn> = Vec::new();
        out.push(BulletSpawn { kind: self.cannon, mount: Mount::Upper, mirrored });
        out.push(BulletSpawn { kind: self.cannon, mount: Mount::Lower, mirrored: false });
        proof {
            assert(out@ =~= self.spec_spawn_bullets());
        }
        out
    }
}

/// The gameplay screen, as far as its decisions go.
#[derive(Clone, Copy, Debug, PartialEq, Eq, Structural)]
pub struct GameView {
    pub player: Ship,
}

impl GameView {
    /// The answer of the gameplay screen to this frame's input: a quit
    /// request ends the application, else escape opens the menu, else the
    /// game goes on.
    pub open spec fn spec_answer(events: Events) -> ViewAction<Screen> {
        if events.now.quit {
            ViewAction::Quit
        } else if events.now.key_escape {
            ViewAction::ChangeView(Screen::MainMenu)
        } else {
            ViewAction::Continue
        }
    }

    /// A new game: the ship level and at rest, the straight cannon selected.
    pub fn new() -> (out: GameView)
        ensures
            out.player.current == ShipFrame::MidNorm,
            out.player.cannon == CannonType::RectBullet,
    {
        GameView { player: Ship { current: ShipFrame::MidNorm, cannon: CannonType::RectBullet } }
    }

    /// Opens a frame. Leaving is decided before anything changes: unless the
    /// answer is to go on, the view is exactly as it was. When the game goes
    /// on, the cannon follows the selection keys.
    pub fn begin_frame(&mut self, events: &Events) -> (out: ViewAction<Screen>)
        ensures
            out == GameView::spec_answer(*events),
            final(self).player.current == old(self).player.current,
            final(self).player.cannon == if out == ViewAction::<Screen>::Continue {
                old(self).player.cannon.spec_select(
                    events.now.key_1,
                    events.now.key_2,
                    events.now.key_3,
                )
            } else {
                old(self).player.cannon
            },
    {
        if events.now.quit {
            return ViewAction::Quit;
        }
        if events.now.key_escape {
            return ViewAction::ChangeView(Screen::MainMenu);
        }
        self.player.cannon = self.player.cannon.select(
            events.now.key_1,
            events.now.key_2,
            events.now.key_3,
        );
        ViewAction::Continue
    }

    /// The direction the held keys steer the ship in: first along the
    /// horizontal axis (left is negative), then along the vertical one (up
    /// is negative).
    pub fn dx_dy(events: &Events) -> (out: (Sign, Sign))
        ensures
            out.0 == Sign::spec_from_keys(events.key_left, events.key_right),
            out.1 == Sign::spec_from_keys(events.key_up, events.key_down),
    {
        (
            Sign::from_keys(events.key_left, events.key_right),
            Sign::from_keys(events.key_up, events.key_down),
        )
    }

    /// The bullets this frame adds: one shot on the frame the fire key goes
    /// down, nothing while it is held or up.
    pub fn fire(&self, events: &Events) -> (out: Vec<BulletSpawn>)
        ensures
            out@ == if events.now.key_space {
                self.player.spec_spawn_bullets()
            } else {
                Seq::<BulletSpawn>::empty()
            },
    {
        if events.now.key_space {
            self.player.spawn_bullets()
        } else {
            Vec::new()
        }
    }
}

/// The flight screen without cannons and asteroids.
#[derive(Clone, Copy, Debug, PartialEq, Eq, Structural)]
pub struct ShipView {
    /// The picture of the ship currently shown.
    pub current: ShipFrame,
}

impl ShipView {
    /// The ship level and at rest.
    pub fn new() -> (out: ShipView)
        ensures
            out.current == ShipFrame::MidNorm,
    {
        ShipView { current: ShipFrame::MidNorm }
    }

    /// The answer of the flight screen: a quit request or escape ends the
    /// application, anything else goes on.
    pub fn begin_frame(&self, events: &Events) -> (out: ViewAction<Screen>)
        ensures
            out == if events.now.quit || events.now.key_escape {
                ViewAction::<Screen>::Quit
            } else {
                ViewAction::<Screen>::Continue
            },
    {
        if events.now.quit || events.now.key_escape {
            ViewAction::Quit
        } else {
            ViewAction::Continue
        }
    }
}

/// Whether a draw brings a new asteroid: one draw in `ASTEROID_ODDS` does.
pub fn asteroid_due(roll: usize) -> (out: bool)
    ensures
        out == (roll % ASTEROID_ODDS == 0),
{
    roll % ASTEROID_ODDS == 0
}

/// Draws a number with `rand::random`, which takes it from the thread's
/// generator. Nothing is claimed of the number drawn.
#[verifier::external_body]
fn rand() -> usize {
    ::rand::random::<usize>()
}

/// Decides by one random draw whether an asteroid enters this frame.
pub fn spawn_asteroid() -> bool {
    asteroid_due(rand())
}

} // verus!

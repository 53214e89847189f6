//! The entities of the shooter: player ship, shots, and enemies.
//!
//! Every update is exact integer arithmetic over the fixed-point geometry of
//! [`crate::geometry`]: positions in micro-units, time in milliseconds,
//! velocities in micro-units per millisecond. Drawing is described by plain
//! [`DrawCommand`] values; the caller owns the renderer and the assets and
//! turns commands into actual draw calls.

use vstd::prelude::*;
use crate::geometry::{Point2, Vector2, Rect, UNIT, HALF_UNIT};

verus! {

/// Milliseconds the player must wait between two shots (one second).
pub const SHOT_TIMEOUT: i64 = 1000;

/// Player speed: micro-units advanced per millisecond and per per-mille of
/// input. At full input (1000 per-mille) this is 500_000 micro-units per
/// millisecond, i.e. 500 drawing units per second.
pub const PLAYER_SPEED: i64 = 500;

/// Shot speed: micro-units per millisecond, i.e. 500 drawing units per second.
pub const SHOT_SPEED: i64 = 500_000;

/// Which fixed visual a draw command refers to. `OwnSprite` means the visual
/// owned by the entity itself (an enemy's sprite); the other variants name
/// the pre-loaded assets that player and shot are drawn with.
#[derive(Clone, Copy, Debug, PartialEq, Eq, Structural)]
pub enum Visual {
    FerrisNormal,
    FerrisShooting,
    ShotImage,
    OwnSprite,
}

/// One drawing instruction, handed to the caller's renderer: draw `visual`
/// at `dest`, anchored at (`offset_x_pm`, `offset_y_pm`) per-mille of the
/// visual's size, scaled by (`scale_x_pm`, `scale_y_pm`) per-mille.
#[derive(Clone, Copy, Debug, PartialEq, Eq, Structural)]
pub struct DrawCommand {
    pub visual: Visual,
    pub dest: Point2,
    pub offset_x_pm: i64,
    pub offset_y_pm: i64,
    pub scale_x_pm: i64,
    pub scale_y_pm: i64,
}

/// `v` clamped to the interval [`lo`, `hi`] (for `lo <= hi`).
pub open spec fn clamped(v: int, lo: int, hi: int) -> int {
    if v < lo {
        lo
    } else if v > hi {
        hi
    } else {
        v
    }
}

/// The player's two visual/behavioral modes. Transitions are driven by the
/// external input collaborator; this module only renders them differently.
#[derive(Clone, Copy, Debug, PartialEq, Eq, Structural)]
pub enum PlayerState {
    Normal,
    Shooting,
}

/// The user-controlled ship. Horizontal movement only, clamped to
/// [0, max_right]. The cooldown timer is plain state for the external
/// firing-control collaborator to decrement and test.
#[derive(Debug)]
pub struct Player {
    pub state: PlayerState,
    pub pos: Point2,
    pub time_until_next_shot: i64,
    pub velocity: Vector2,
}

/// The draw command the player produces in a given state at a given position:
/// each state has a fixed visual, anchor offset, and scale.
pub open spec fn player_draw_command(state: PlayerState, pos: Point2) -> DrawCommand {
    match state {
        PlayerState::Normal => DrawCommand {
            visual: Visual::FerrisNormal,
            dest: pos,
            offset_x_pm: 500,
            offset_y_pm: 1000,
            scale_x_pm: 950,
            scale_y_pm: 950,
        },
        PlayerState::Shooting => DrawCommand {
            visual: Visual::FerrisShooting,
            dest: pos,
            offset_x_pm: 545,
            offset_y_pm: 960,
            scale_x_pm: 1000,
            scale_y_pm: 1000,
        },
    }
}

impl Player {
    pub fn new(pos: Point2) -> (p: Player)
        ensures
            p.state == PlayerState::Normal,
            p.pos == pos,
            p.time_until_next_shot == SHOT_TIMEOUT,
            p.velocity == (Vector2 { x: 0, y: 0 }),
    {
        Player {
            state: PlayerState::Normal,
            pos,
            velocity: Vector2 { x: 0, y: 0 },
            time_until_next_shot: SHOT_TIMEOUT,
        }
    }

    /// Move horizontally by `PLAYER_SPEED * elapsed_ms * amount` micro-units
    /// and clamp the result to [0, `max_right`]. `amount` is the input axis
    /// in per-mille of full deflection. Nothing else changes.
    pub fn update(&mut self, amount: i64, elapsed_ms: i64, max_right: i64)
        requires
            -1000 <= amount <= 1000,
            0 <= elapsed_ms,
            0 <= max_right,
        ensures
            final(self).pos.x == clamped(
                old(self).pos.x + PLAYER_SPEED * elapsed_ms * amount,
                0,
                max_right as int,
            ),
            0 <= final(self).pos.x <= max_right,
            final(self).pos.y == old(self).pos.y,
            final(self).state == old(self).state,
            final(self).time_until_next_shot == old(self).time_until_next_shot,
            final(self).velocity == old(self).velocity,
    {
        proof {
            crate::geometry::lemma_i64_product_fits(PLAYER_SPEED as int, elapsed_ms as int);
        }
        let step: i128 = (PLAYER_SPEED as i128) * (elapsed_ms as i128);
        proof {
            assert(-0x1_0000_0000_0000_0000_0000_0000 <= step * amount
                <= 0x1_0000_0000_0000_0000_0000_0000) by (nonlinear_arith)
                requires
                    step == 500 * elapsed_ms,
                    0 <= elapsed_ms <= 0x7FFF_FFFF_FFFF_FFFF,
                    -1000 <= amount <= 1000,
            ;
        }
        let dx: i128 = step * (amount as i128);
        let nx: i128 = (self.pos.x as i128) + dx;
        if nx < 0 {
            self.pos.x = 0;
        } else if nx > (max_right as i128) {
            self.pos.x = max_right;
        } else {
            self.pos.x = nx as i64;
        }
    }

    /// The fixed visual for the current state, anchored at the player's
    /// position: slightly scaled down and bottom-centered when `Normal`,
    /// full size with the shooting pose's anchor when `Shooting`.
    pub fn draw_command(&self) -> (c: DrawCommand)
        ensures
            c == player_draw_command(self.state, self.pos),
    {
        match self.state {
            PlayerState::Normal => DrawCommand {
                visual: Visual::FerrisNormal,
                dest: self.pos,
                offset_x_pm: 500,
                offset_y_pm: 1000,
                scale_x_pm: 950,
                scale_y_pm: 950,
            },
            PlayerState::Shooting => DrawCommand {
                visual: Visual::FerrisShooting,
                dest: self.pos,
                offset_x_pm: 545,
                offset_y_pm: 960,
                scale_x_pm: 1000,
                scale_y_pm: 1000,
            },
        }
    }
}

/// The draw command a shot produces: its fixed image at the shot's position
/// with the renderer's default anchor and no scaling.
pub open spec fn shot_draw_command(pos: Point2) -> DrawCommand {
    DrawCommand {
        visual: Visual::ShotImage,
        dest: pos,
        offset_x_pm: 0,
        offset_y_pm: 0,
        scale_x_pm: 1000,
        scale_y_pm: 1000,
    }
}

/// A projectile fired by the player. Its velocity is fixed at construction:
/// straight up at `SHOT_SPEED` micro-units per millisecond, and never changes
/// afterwards. The alive flag is set by the external collision system.
#[derive(Debug)]
pub struct Shot {
    pub pos: Point2,
    pub is_alive: bool,
    pub velocity: Vector2,
}

impl Shot {
    /// The shot's fixed-velocity invariant: straight up at `SHOT_SPEED`.
    /// Established by `new` and preserved by every update.
    pub open spec fn wf(&self) -> bool {
        self.velocity.x == 0 && self.velocity.y == -SHOT_SPEED
    }

    pub fn new(pos: Point2) -> (s: Shot)
        ensures
            s.pos == pos,
            s.is_alive,
            s.wf(),
    {
        Shot {
            pos,
            is_alive: true,
            velocity: Vector2 { x: 0, y: -SHOT_SPEED },
        }
    }

    /// Move by exactly (0, -`SHOT_SPEED` * `elapsed_ms`) micro-units;
    /// the alive flag and the velocity are untouched.
    pub fn update(&mut self, elapsed_ms: i64)
        requires
            old(self).wf(),
            0 <= elapsed_ms,
            i64::MIN <= old(self).pos.y - SHOT_SPEED * elapsed_ms,
        ensures
            final(self).pos.x == old(self).pos.x,
            final(self).pos.y == old(self).pos.y - SHOT_SPEED * elapsed_ms,
            final(self).is_alive == old(self).is_alive,
            final(self).wf(),
    {
        self.pos = self.pos.translated(&self.velocity, elapsed_ms);
    }

    /// The fixed shot visual at the current position.
    pub fn draw_command(&self) -> (c: DrawCommand)
        ensures
            c == shot_draw_command(self.pos),
    {
        DrawCommand {
            visual: Visual::ShotImage,
            dest: self.pos,
            offset_x_pm: 0,
            offset_y_pm: 0,
            scale_x_pm: 1000,
            scale_y_pm: 1000,
        }
    }
}

/// The visual representation of an enemy: something with intrinsic pixel
/// dimensions that can describe how to render itself centered on a point.
/// Enemies own their sprite behind this trait, so new visuals can be added
/// without touching the movement or collision logic.
pub trait Sprite {
    /// Intrinsic width, in drawing units.
    spec fn spec_width(&self) -> u32;

    /// Intrinsic height, in drawing units.
    spec fn spec_height(&self) -> u32;

    /// The draw command this sprite produces when rendered at `center`.
    spec fn spec_draw_command(&self, center: Point2) -> DrawCommand;

    fn width(&self) -> (w: u32)
        ensures
            w == self.spec_width(),
    ;

    fn height(&self) -> (h: u32)
        ensures
            h == self.spec_height(),
    ;

    /// Describe drawing this sprite centered at `center`.
    fn draw_command(&self, center: Point2) -> (c: DrawCommand)
        ensures
            c == self.spec_draw_command(center),
    ;
}

/// A sprite rendered from a text label. The caller lays the label out with
/// its font once at construction time and reports the resulting pixel size;
/// the laid-out text resource itself stays with the caller.
#[derive(Debug)]
pub struct TextSprite {
    pub label: String,
    pub width: u32,
    pub height: u32,
}

impl TextSprite {
    pub fn new(label: &str, width: u32, height: u32) -> (t: TextSprite)
        ensures
            t.label@ == label@,
            t.width == width,
            t.height == height,
    {
        TextSprite { label: label.to_owned(), width, height }
    }
}

impl Sprite for TextSprite {
    open spec fn spec_width(&self) -> u32 {
        self.width
    }

    open spec fn spec_height(&self) -> u32 {
        self.height
    }

    open spec fn spec_draw_command(&self, center: Point2) -> DrawCommand {
        DrawCommand {
            visual: Visual::OwnSprite,
            dest: center,
            offset_x_pm: 500,
            offset_y_pm: 500,
            scale_x_pm: 1000,
            scale_y_pm: 1000,
        }
    }

    fn width(&self) -> u32 {
        self.width
    }

    fn height(&self) -> u32 {
        self.height
    }

    fn draw_command(&self, center: Point2) -> DrawCommand {
        DrawCommand {
            visual: Visual::OwnSprite,
            dest: center,
            offset_x_pm: 500,
            offset_y_pm: 500,
            scale_x_pm: 1000,
            scale_y_pm: 1000,
        }
    }
}

/// A sprite backed by a static image of known pixel size; the image resource
/// itself stays with the caller.
#[derive(Debug)]
pub struct ImageSprite {
    pub width: u32,
    pub height: u32,
}

impl ImageSprite {
    pub fn new(width: u32, height: u32) -> (s: ImageSprite)
        ensures
            s.width == width,
            s.height == height,
    {
        ImageSprite { width, height }
    }
}

impl Sprite for ImageSprite {
    open spec fn spec_width(&self) -> u32 {
        self.width
    }

    open spec fn spec_height(&self) -> u32 {
        self.height
    }

    open spec fn spec_draw_command(&self, center: Point2) -> DrawCommand {
        DrawCommand {
            visual: Visual::OwnSprite,
            dest: center,
            offset_x_pm: 500,
            offset_y_pm: 500,
            scale_x_pm: 1000,
            scale_y_pm: 1000,
        }
    }

    fn width(&self) -> u32 {
        self.width
    }

    fn height(&self) -> u32 {
        self.height
    }

    fn draw_command(&self, center: Point2) -> DrawCommand {
        DrawCommand {
            visual: Visual::OwnSprite,
            dest: center,
            offset_x_pm: 500,
            offset_y_pm: 500,
            scale_x_pm: 1000,
            scale_y_pm: 1000,
        }
    }
}

/// An enemy's owned visual: one of the closed set of sprite variants. The
/// enemy dispatches on it through the [`Sprite`] trait, so its movement and
/// collision logic is independent of which variant it carries.
#[derive(Debug)]
pub enum EnemySprite {
    Image(ImageSprite),
    Text(TextSprite),
}

impl Sprite for EnemySprite {
    open spec fn spec_width(&self) -> u32 {
        match self {
            EnemySprite::Image(s) => s.spec_width(),
            EnemySprite::Text(s) => s.spec_width(),
        }
    }

    open spec fn spec_height(&self) -> u32 {
        match self {
            EnemySprite::Image(s) => s.spec_height(),
            EnemySprite::Text(s) => s.spec_height(),
        }
    }

    open spec fn spec_draw_command(&self, center: Point2) -> DrawCommand {
        match self {
            EnemySprite::Image(s) => s.spec_draw_command(center),
            EnemySprite::Text(s) => s.spec_draw_command(center),
        }
    }

    fn width(&self) -> u32 {
        match self {
            EnemySprite::Image(s) => s.width(),
            EnemySprite::Text(s) => s.width(),
        }
    }

    fn height(&self) -> u32 {
        match self {
            EnemySprite::Image(s) => s.height(),
            EnemySprite::Text(s) => s.height(),
        }
    }

    fn draw_command(&self, center: Point2) -> DrawCommand {
        match self {
            EnemySprite::Image(s) => s.draw_command(center),
            EnemySprite::Text(s) => s.draw_command(center),
        }
    }
}

/// The axis-aligned box of width `w` and height `h` drawing units centered
/// on `center` (coordinates in micro-units).
pub open spec fn rect_around(center: Point2, w: u32, h: u32) -> Rect {
    Rect {
        x: (center.x - w * HALF_UNIT) as i64,
        y: (center.y - h * HALF_UNIT) as i64,
        w: (w * UNIT) as i64,
        h: (h * UNIT) as i64,
    }
}

/// An enemy: moves vertically at a constant caller-chosen speed and owns the
/// polymorphic sprite it is drawn with. The alive flag is set by the external
/// collision / out-of-bounds system.
pub struct Enemy {
    pub pos: Point2,
    pub is_alive: bool,
    pub label: String,
    pub velocity: Vector2,
    pub sprite: EnemySprite,
}

impl Enemy {
    /// The enemy's constant-velocity invariant: purely vertical motion.
    /// Established by `new` and preserved by every update.
    pub open spec fn wf(&self) -> bool {
        self.velocity.x == 0
    }

    pub fn new(label: &str, pos: Point2, speed: i64, sprite: EnemySprite) -> (e: Enemy)
        ensures
            e.pos == pos,
            e.is_alive,
            e.label@ == label@,
            e.velocity.x == 0,
            e.velocity.y == speed,
            e.sprite == sprite,
            e.wf(),
    {
        Enemy {
            pos,
            is_alive: true,
            label: label.to_owned(),
            velocity: Vector2 { x: 0, y: speed },
            sprite,
        }
    }

    /// The display label, for identification by the caller.
    pub fn label(&self) -> (r: &str)
        ensures
            r@ == self.label@,
    {
        self.label.as_str()
    }

    /// Move by exactly (0, `velocity.y` * `elapsed_ms`) micro-units;
    /// everything else is untouched.
    pub fn update(&mut self, elapsed_ms: i64)
        requires
            old(self).wf(),
            0 <= elapsed_ms,
            i64::MIN <= old(self).pos.y + old(self).velocity.y * elapsed_ms <= i64::MAX,
        ensures
            final(self).pos.x == old(self).pos.x,
            final(self).pos.y == old(self).pos.y + old(self).velocity.y * elapsed_ms,
            final(self).is_alive == old(self).is_alive,
            final(self).label == old(self).label,
            final(self).velocity == old(self).velocity,
            final(self).sprite == old(self).sprite,
            final(self).wf(),
    {
        self.pos = self.pos.translated(&self.velocity, elapsed_ms);
    }

    /// Delegate drawing to the owned sprite, centered on the current position.
    pub fn draw_command(&self) -> (c: DrawCommand)
        ensures
            c == self.sprite.spec_draw_command(self.pos),
    {
        self.sprite.draw_command(self.pos)
    }

    /// The collision box: the sprite's intrinsic width and height, centered
    /// exactly on the current position. Recomputed on every call, so it
    /// always reflects the current position.
    pub fn bounding_rect(&self) -> (r: Rect)
        requires
            i64::MIN <= self.pos.x - self.sprite.spec_width() * HALF_UNIT,
            self.pos.x + self.sprite.spec_width() * HALF_UNIT <= i64::MAX,
            i64::MIN <= self.pos.y - self.sprite.spec_height() * HALF_UNIT,
            self.pos.y + self.sprite.spec_height() * HALF_UNIT <= i64::MAX,
        ensures
            r == rect_around(self.pos, self.sprite.spec_width(), self.sprite.spec_height()),
            r.w == self.sprite.spec_width() * UNIT,
            r.h == self.sprite.spec_height() * UNIT,
            2 * r.x + r.w == 2 * self.pos.x,
            2 * r.y + r.h == 2 * self.pos.y,
    {
        let w = self.sprite.width();
        let h = self.sprite.height();
        proof {
            crate::geometry::lemma_dimension_scale_fits(w as int);
            crate::geometry::lemma_dimension_scale_fits(h as int);
        }
        let half_w: i64 = (w as i64) * HALF_UNIT;
        let half_h: i64 = (h as i64) * HALF_UNIT;
        let left: i64 = self.pos.x - half_w;
        let top: i64 = self.pos.y - half_h;
        Rect::new(left, top, half_w + half_w, half_h + half_h)
    }
}

} // verus!

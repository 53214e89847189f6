//! Behavioral tests for the shooter entities, exercised through the public
//! interface with concrete fixed-point values (micro-units, milliseconds).

use shooter_entities::entities::{
    DrawCommand, Enemy, EnemySprite, ImageSprite, Player, PlayerState, Shot, Sprite, TextSprite,
    Visual, PLAYER_SPEED, SHOT_SPEED, SHOT_TIMEOUT,
};
use shooter_entities::geometry::{Point2, UNIT};

fn units(n: i64) -> i64 {
    n * UNIT
}

#[test]
fn player_new_has_normal_state_and_full_cooldown() {
    let p = Player::new(Point2 { x: units(3), y: units(4) });
    assert!(matches!(p.state, PlayerState::Normal));
    assert_eq!(p.time_until_next_shot, SHOT_TIMEOUT);
    assert_eq!(p.pos, Point2 { x: units(3), y: units(4) });
    assert_eq!(p.velocity.x, 0);
    assert_eq!(p.velocity.y, 0);
}

#[test]
fn player_full_right_input_for_one_second_moves_500_units() {
    // full input, one second, right bound at 1000 units: min(500, 1000) = 500
    let mut p = Player::new(Point2 { x: 0, y: 0 });
    p.update(1000, 1000, units(1000));
    assert_eq!(p.pos.x, units(500));
    assert_eq!(p.pos.y, 0);
}

#[test]
fn player_full_left_input_clamps_at_zero() {
    // from x = 10 units, a full second leftwards: max(0, 10 - 500) = 0
    let mut p = Player::new(Point2 { x: units(10), y: 0 });
    p.update(-1000, 1000, units(1000));
    assert_eq!(p.pos.x, 0);
}

#[test]
fn player_clamps_at_right_bound() {
    let mut p = Player::new(Point2 { x: units(900), y: 0 });
    p.update(1000, 1000, units(1000));
    assert_eq!(p.pos.x, units(1000));
}

#[test]
fn player_zero_bound_pins_ship_at_zero() {
    let mut p = Player::new(Point2 { x: units(10), y: 0 });
    p.update(1000, 16, 0);
    assert_eq!(p.pos.x, 0);
}

#[test]
fn player_half_input_scales_speed() {
    // half deflection for 100 ms: 500 * 100 * 500 micro-units = 25 units
    let mut p = Player::new(Point2 { x: 0, y: 0 });
    p.update(500, 100, units(1000));
    assert_eq!(p.pos.x, PLAYER_SPEED * 100 * 500);
    assert_eq!(p.pos.x, units(25));
}

#[test]
fn player_update_touches_nothing_else() {
    let mut p = Player::new(Point2 { x: units(1), y: units(2) });
    p.state = PlayerState::Shooting;
    p.time_until_next_shot = 250;
    p.update(250, 16, units(1000));
    assert!(matches!(p.state, PlayerState::Shooting));
    assert_eq!(p.time_until_next_shot, 250);
    assert_eq!(p.pos.y, units(2));
}

#[test]
fn player_draw_command_depends_on_state() {
    let mut p = Player::new(Point2 { x: units(7), y: units(9) });
    let normal = p.draw_command();
    assert_eq!(
        normal,
        DrawCommand {
            visual: Visual::FerrisNormal,
            dest: Point2 { x: units(7), y: units(9) },
            offset_x_pm: 500,
            offset_y_pm: 1000,
            scale_x_pm: 950,
            scale_y_pm: 950,
        }
    );
    p.state = PlayerState::Shooting;
    let shooting = p.draw_command();
    assert_eq!(
        shooting,
        DrawCommand {
            visual: Visual::FerrisShooting,
            dest: Point2 { x: units(7), y: units(9) },
            offset_x_pm: 545,
            offset_y_pm: 960,
            scale_x_pm: 1000,
            scale_y_pm: 1000,
        }
    );
}

#[test]
fn shot_new_is_alive() {
    let s = Shot::new(Point2 { x: units(1), y: units(2) });
    assert!(s.is_alive);
    assert_eq!(s.pos, Point2 { x: units(1), y: units(2) });
    assert_eq!(s.velocity.x, 0);
    assert_eq!(s.velocity.y, -SHOT_SPEED);
}

#[test]
fn shot_moves_straight_up_at_fixed_speed() {
    // 500 ms at 500 units/s upward: exactly (0, -250 units)
    let mut s = Shot::new(Point2 { x: units(100), y: units(200) });
    s.update(500);
    assert_eq!(s.pos.x, units(100));
    assert_eq!(s.pos.y, units(200) - SHOT_SPEED * 500);
    assert_eq!(s.pos.y, units(-50));
    assert!(s.is_alive);
}

#[test]
fn shot_update_leaves_alive_flag_alone() {
    let mut s = Shot::new(Point2 { x: 0, y: 0 });
    s.is_alive = false;
    s.update(16);
    assert!(!s.is_alive);
}

#[test]
fn shot_draw_command_is_fixed_image_at_position() {
    let s = Shot::new(Point2 { x: units(5), y: units(6) });
    let c = s.draw_command();
    assert_eq!(c.visual, Visual::ShotImage);
    assert_eq!(c.dest, Point2 { x: units(5), y: units(6) });
    assert_eq!(c.offset_x_pm, 0);
    assert_eq!(c.offset_y_pm, 0);
    assert_eq!(c.scale_x_pm, 1000);
    assert_eq!(c.scale_y_pm, 1000);
}

#[test]
fn enemy_moves_by_speed_times_elapsed() {
    // 100 units/s is 100_000 micro-units per millisecond / 1000
    let sprite = EnemySprite::Image(ImageSprite::new(16, 24));
    let mut e = Enemy::new("walker", Point2 { x: units(3), y: 0 }, 100_000, sprite);
    e.update(1000);
    assert_eq!(e.pos.y, units(100));
    assert_eq!(e.pos.x, units(3));
    assert!(e.is_alive);
}

#[test]
fn enemy_speed_may_be_negative() {
    let sprite = EnemySprite::Image(ImageSprite::new(8, 8));
    let mut e = Enemy::new("riser", Point2 { x: 0, y: units(50) }, -40_000, sprite);
    e.update(250);
    assert_eq!(e.pos.y, units(50) - 40_000 * 250);
    assert_eq!(e.pos.y, units(40));
}

#[test]
fn enemy_label_is_kept() {
    let sprite = EnemySprite::Image(ImageSprite::new(8, 8));
    let e = Enemy::new("boss", Point2 { x: 0, y: 0 }, 0, sprite);
    assert_eq!(e.label(), "boss");
}

#[test]
fn enemy_bounding_rect_is_sprite_sized_and_centered() {
    let sprite = EnemySprite::Image(ImageSprite::new(16, 24));
    let e = Enemy::new("walker", Point2 { x: units(50), y: units(80) }, 0, sprite);
    let r = e.bounding_rect();
    assert_eq!(r.w, 16 * UNIT);
    assert_eq!(r.h, 24 * UNIT);
    assert_eq!(r.x, units(50) - 8 * UNIT);
    assert_eq!(r.y, units(80) - 12 * UNIT);
    // centered exactly on the current position
    assert_eq!(2 * r.x + r.w, 2 * e.pos.x);
    assert_eq!(2 * r.y + r.h, 2 * e.pos.y);
}

#[test]
fn enemy_bounding_rect_follows_the_position() {
    let sprite = EnemySprite::Image(ImageSprite::new(10, 10));
    let mut e = Enemy::new("walker", Point2 { x: 0, y: 0 }, 1000, sprite);
    let before = e.bounding_rect();
    e.update(2000);
    let after = e.bounding_rect();
    assert_eq!(before.y + 1000 * 2000, after.y);
    assert_eq!(before.x, after.x);
}

#[test]
fn image_and_text_enemies_get_their_own_bounding_boxes() {
    // same position, different sprite variants: each box matches its own
    // sprite's dimensions, demonstrating the polymorphic geometry
    let pos = Point2 { x: units(30), y: units(40) };
    let image = Enemy::new("img", pos, 0, EnemySprite::Image(ImageSprite::new(16, 24)));
    let text = Enemy::new("txt", pos, 0, EnemySprite::Text(TextSprite::new("txt", 40, 12)));
    let ri = image.bounding_rect();
    let rt = text.bounding_rect();
    assert_eq!((ri.w, ri.h), (16 * UNIT, 24 * UNIT));
    assert_eq!((rt.w, rt.h), (40 * UNIT, 12 * UNIT));
    assert_eq!(2 * ri.x + ri.w, 2 * pos.x);
    assert_eq!(2 * rt.x + rt.w, 2 * pos.x);
}

#[test]
fn text_sprite_reports_its_layout_size() {
    let t = TextSprite::new("enemy text", 64, 18);
    assert_eq!(t.label, "enemy text");
    assert_eq!(t.width(), 64);
    assert_eq!(t.height(), 18);
}

#[test]
fn sprites_draw_centered_on_the_requested_point() {
    let t = TextSprite::new("e", 10, 10);
    let i = ImageSprite::new(12, 12);
    let center = Point2 { x: units(2), y: units(3) };
    for c in [t.draw_command(center), i.draw_command(center)] {
        assert_eq!(c.visual, Visual::OwnSprite);
        assert_eq!(c.dest, center);
        assert_eq!(c.offset_x_pm, 500);
        assert_eq!(c.offset_y_pm, 500);
        assert_eq!(c.scale_x_pm, 1000);
        assert_eq!(c.scale_y_pm, 1000);
    }
}

#[test]
fn enemy_draw_command_delegates_to_its_sprite() {
    let pos = Point2 { x: units(9), y: units(1) };
    let e = Enemy::new("txt", pos, 0, EnemySprite::Text(TextSprite::new("txt", 30, 10)));
    let c = e.draw_command();
    assert_eq!(c.visual, Visual::OwnSprite);
    assert_eq!(c.dest, pos);
    assert_eq!(c.offset_x_pm, 500);
    assert_eq!(c.offset_y_pm, 500);
}

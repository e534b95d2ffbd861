use desktop_pet::animation::{SHEET_COLUMNS, SHEET_ROWS, SKINS, SKIN_FRAMES, SPRITE_SCALE};
use desktop_pet::{flip, AnimationConfig, Animations, Frame, Style, Travel};

fn travel(hardly_sideways: bool, short_sideways: bool, short_vertical: bool) -> Travel {
    Travel { hardly_sideways, short_sideways, short_vertical }
}

#[test]
fn skins_start_one_block_apart() {
    assert_eq!(Style::Crimson.get_starting_point(), 0);
    assert_eq!(Style::House.get_starting_point(), 81);
    assert_eq!(Style::Toxic.get_starting_point(), 162);
    assert_eq!(SKIN_FRAMES, 81);
    assert_eq!(SKINS, 3);
    assert_eq!((SHEET_COLUMNS, SHEET_ROWS), (9, 27));
    assert_eq!(SKINS * SKIN_FRAMES, (SHEET_COLUMNS * SHEET_ROWS) as usize);
}

#[test]
fn skins_follow_each_other_in_a_ring() {
    assert_eq!(Style::Crimson.next(), Style::House);
    assert_eq!(Style::House.next(), Style::Toxic);
    assert_eq!(Style::Toxic.next(), Style::Crimson);
    for style in [Style::Crimson, Style::House, Style::Toxic] {
        assert_ne!(style.next(), style);
        assert_ne!(style.next().next(), style);
        assert_eq!(style.next().next().next(), style);
    }
}

#[test]
fn new_config_keeps_its_arguments_and_starts_toxic() {
    let config = AnimationConfig::new(0, 6, 10);
    assert_eq!(
        config,
        AnimationConfig { first_sprite_index: 0, last_sprite_index: 6, fps: 10, style: Style::Toxic }
    );
    let other = AnimationConfig::new(40, 3, 0);
    assert_eq!(other.first_sprite_index, 40);
    assert_eq!(other.last_sprite_index, 3);
    assert_eq!(other.fps, 0);
    assert_eq!(other.style, Style::Toxic);
}

#[test]
fn set_animation_gives_each_animation_its_range() {
    let mut config = AnimationConfig::new(0, 6, 10);
    config.set_animation(Animations::Walking);
    assert_eq!((config.first_sprite_index, config.last_sprite_index), (8, 15));
    config.set_animation(Animations::Flying);
    assert_eq!((config.first_sprite_index, config.last_sprite_index), (19, 20));
    config.set_animation(Animations::Idle);
    assert_eq!((config.first_sprite_index, config.last_sprite_index), (0, 6));
    assert_eq!(config.fps, 10);
    assert_eq!(config.style, Style::Toxic);
    assert!(config.can_step());
}

#[test]
fn change_skin_moves_to_the_next_skin_only() {
    let mut config = AnimationConfig::new(8, 15, 7);
    config.change_skin();
    assert_eq!(
        config,
        AnimationConfig { first_sprite_index: 8, last_sprite_index: 15, fps: 7, style: Style::Crimson }
    );
    config.change_skin();
    assert_eq!(config.style, Style::House);
    config.change_skin();
    assert_eq!(config.style, Style::Toxic);
}

#[test]
fn step_waits_for_the_timer() {
    let config = AnimationConfig::new(0, 6, 10);
    assert_eq!(config.step(164, false), Frame { index: 164, rearm: false });
    assert_eq!(config.step(7, false), Frame { index: 7, rearm: false });
}

#[test]
fn step_advances_inside_the_range_and_rearms() {
    let config = AnimationConfig::new(0, 6, 10);
    assert_eq!(config.step(162, true), Frame { index: 163, rearm: true });
    assert_eq!(config.step(167, true), Frame { index: 168, rearm: true });
}

#[test]
fn step_starts_over_at_the_end_and_keeps_the_timer() {
    let config = AnimationConfig::new(0, 6, 10);
    assert_eq!(config.step(168, true), Frame { index: 162, rearm: false });
}

#[test]
fn step_from_outside_the_range_goes_to_its_start() {
    let mut config = AnimationConfig::new(0, 6, 10);
    config.set_animation(Animations::Walking);
    config.change_skin();
    config.change_skin();
    assert_eq!(config.style, Style::House);
    assert_eq!(config.step(0, true), Frame { index: 89, rearm: false });
    assert_eq!(config.step(88, true), Frame { index: 89, rearm: false });
    assert_eq!(config.step(97, true), Frame { index: 89, rearm: false });
    assert_eq!(config.step(usize::MAX, true), Frame { index: 89, rearm: false });
    assert_eq!(config.step(89, true), Frame { index: 90, rearm: true });
}

#[test]
fn step_with_the_ends_crossed_stays_at_the_first_sprite() {
    let mut config = AnimationConfig::new(5, 2, 10);
    config.change_skin();
    let mut index: usize = 0;
    while index < 10 {
        assert_eq!(config.step(index, true), Frame { index: 5, rearm: false });
        index += 1;
    }
}

#[test]
fn every_animation_loops_in_every_skin() {
    for style in [Style::Crimson, Style::House, Style::Toxic] {
        for animation in [Animations::Walking, Animations::Flying, Animations::Idle] {
            let mut config = AnimationConfig::new(0, 0, 10);
            while config.style != style {
                config.change_skin();
            }
            config.set_animation(animation);
            let low: usize = config.first_sprite_index + style.get_starting_point();
            let high: usize = config.last_sprite_index + style.get_starting_point();
            assert!(low <= high);
            assert!(high < style.get_starting_point() + SKIN_FRAMES);
            let period: usize = high - low + 1;
            let mut index: usize = low;
            let mut ticks: usize = 0;
            while ticks < period {
                let frame = config.step(index, true);
                assert!(low <= frame.index && frame.index <= high);
                assert_eq!(frame.index, low + (index - low + 1) % period);
                assert_eq!(frame.rearm, index < high);
                index = frame.index;
                ticks += 1;
            }
            assert_eq!(index, low);
        }
    }
}

#[test]
fn can_step_tells_when_an_end_is_out_of_reach() {
    let mut config = AnimationConfig::new(usize::MAX, 3, 10);
    assert!(!config.can_step());
    config.change_skin();
    assert_eq!(config.style, Style::Crimson);
    assert!(config.can_step());
    assert_eq!(config.step(usize::MAX - 1, true), Frame { index: usize::MAX, rearm: false });
    let edge = AnimationConfig::new(0, usize::MAX - 162, 10);
    assert!(edge.can_step());
    let over = AnimationConfig::new(0, usize::MAX - 161, 10);
    assert!(!over.can_step());
    assert_eq!(over.step(4, false), Frame { index: 4, rearm: false });
}

#[test]
fn a_held_pet_flies_unless_it_hardly_moves_sideways() {
    assert_eq!(Animations::select(true, travel(true, true, true)), Animations::Idle);
    assert_eq!(Animations::select(true, travel(true, false, false)), Animations::Idle);
    assert_eq!(Animations::select(true, travel(false, true, true)), Animations::Flying);
    assert_eq!(Animations::select(true, travel(false, false, false)), Animations::Flying);
}

#[test]
fn a_free_pet_walks_unless_it_came_a_short_way() {
    assert_eq!(Animations::select(false, travel(false, false, false)), Animations::Walking);
    assert_eq!(Animations::select(false, travel(true, false, false)), Animations::Walking);
    assert_eq!(Animations::select(false, travel(false, true, false)), Animations::Idle);
    assert_eq!(Animations::select(false, travel(false, false, true)), Animations::Idle);
    assert_eq!(Animations::select(false, travel(true, true, true)), Animations::Idle);
}

#[test]
fn the_sprite_turns_only_towards_a_far_goal() {
    assert_eq!(SPRITE_SCALE, 6);
    assert_eq!(flip(false, false), None);
    assert_eq!(flip(false, true), None);
    assert_eq!(flip(true, true), Some(6));
    assert_eq!(flip(true, false), Some(-6));
}

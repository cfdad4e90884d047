use rusty_bird::assets::{AssetManager, Drawable, TextureId};
use rusty_bird::geometry::{Rect, Vector2, GROUND_Y, PX, SECOND};
use rusty_bird::pipe::{
    Pipe, PipesManager, GAP_SIZE, MAX_SCROLL, PIPE_PERIOD, PIPE_WIDTH, SCROLL_SPEED, SLOT_COUNT,
    START_X, START_Y, Y_INCREMENT,
};

fn pipe_only() -> AssetManager {
    let mut assets = AssetManager::new();
    assets.add_texture(TextureId::Pipe, 52, 320);
    assets
}

fn well_formed(pipe: &Pipe) -> bool {
    pipe.upper_rect.y == 0
        && pipe.upper_rect.width == PIPE_WIDTH
        && pipe.lower_rect.width == PIPE_WIDTH
        && pipe.upper_rect.height >= 0
        && pipe.lower_rect.height >= 0
        && pipe.upper_rect.height + GAP_SIZE + pipe.lower_rect.height == GROUND_Y
        && pipe.lower_rect.y == pipe.upper_rect.height + GAP_SIZE
        && pipe.lower_rect.x == pipe.upper_rect.x
        && pipe.upper_rect.x <= START_X
        && pipe.to_be_deleted == (pipe.upper_rect.x + PIPE_WIDTH < 0)
}

#[test]
fn pipe_constants_are_in_the_units_of_the_library() {
    assert_eq!(PIPE_PERIOD, 3 * SECOND as i64);
    assert_eq!(PIPE_WIDTH, 52 * PX);
    assert_eq!(Y_INCREMENT, 52 * PX);
    assert_eq!(GAP_SIZE, 100 * PX);
    assert_eq!(START_Y, 32 * PX);
    assert_eq!(START_X, 288 * PX);
    // 150 px/s
    assert_eq!(SCROLL_SPEED as i128 * SECOND as i128, 150 * PX as i128);
    assert_eq!(MAX_SCROLL as i128, SCROLL_SPEED as i128 * u32::MAX as i128);
    assert_eq!(SLOT_COUNT, 5);
}

#[test]
fn the_five_gap_positions() {
    let assets = pipe_only();
    let upper = [32, 84, 136, 188, 240];
    let lower = [268, 216, 164, 112, 60];
    for slot in 0..5 {
        let pipe = Pipe::from_slot(&assets, slot as i32);
        assert_eq!(pipe.upper_rect, Rect { x: 288 * PX, y: 0, width: 52 * PX, height: upper[slot] * PX });
        assert_eq!(
            pipe.lower_rect,
            Rect {
                x: 288 * PX,
                y: (upper[slot] + 100) * PX,
                width: 52 * PX,
                height: lower[slot] * PX
            }
        );
        assert_eq!(pipe.upper_rect.height + GAP_SIZE + pipe.lower_rect.height, GROUND_Y);
        assert_eq!(pipe.lower_rect.y + pipe.lower_rect.height, GROUND_Y);
        assert!(!pipe.to_be_deleted);
        assert!(well_formed(&pipe));
    }
}

#[test]
fn a_new_pipe_has_its_sprites_cut_to_size() {
    let assets = pipe_only();
    let pipe = Pipe::from_slot(&assets, 2);
    // the upper sprite is mirrored: its height is negative
    assert_eq!(pipe.upper_sprite.get_size(), Vector2 { x: 52 * PX, y: -136 * PX });
    assert_eq!(pipe.upper_sprite.get_quad(), Rect { x: 0, y: 0, width: 52 * PX, height: 136 * PX });
    assert_eq!(pipe.lower_sprite.get_size(), Vector2 { x: 52 * PX, y: 164 * PX });
    assert_eq!(pipe.lower_sprite.get_quad(), Rect { x: 0, y: 0, width: 52 * PX, height: 164 * PX });
    assert_eq!(pipe.upper_sprite.get_position(), Vector2 { x: 0, y: 0 });
    assert_eq!(pipe.lower_sprite.get_position(), Vector2 { x: 0, y: 0 });
    assert_eq!(pipe.upper_sprite.get_texture().id, TextureId::Pipe);
}

#[test]
fn random_pipes_take_one_of_the_five_positions() {
    let assets = pipe_only();
    let mut rng = rand::thread_rng();
    let mut seen = [false; 5];
    for _ in 0..400 {
        let pipe = Pipe::new(&assets, &mut rng);
        assert!(well_formed(&pipe));
        let above_start = pipe.upper_rect.height - START_Y;
        assert!(above_start >= 0);
        assert_eq!(above_start % Y_INCREMENT, 0);
        let slot = above_start / Y_INCREMENT;
        assert!(slot < 5);
        assert_eq!(pipe, Pipe::from_slot(&assets, slot as i32));
        seen[slot as usize] = true;
    }
    // 400 draws that leave one of five positions out: less likely than 1e-38
    assert_eq!(seen, [true; 5]);
}

#[test]
fn a_pipe_scrolls_to_the_left() {
    let assets = pipe_only();
    let mut pipe = Pipe::from_slot(&assets, 1);
    let fresh = pipe;
    pipe.update(SECOND);
    assert_eq!(pipe.upper_rect.x, 138 * PX);
    assert_eq!(pipe.lower_rect.x, 138 * PX);
    assert_eq!(pipe.upper_rect.height, fresh.upper_rect.height);
    assert_eq!(pipe.lower_rect.height, fresh.lower_rect.height);
    assert_eq!(pipe.lower_rect.y, fresh.lower_rect.y);
    assert!(!pipe.to_be_deleted);
    // the sprites follow; the mirrored one stands at the lower end of its pipe
    assert_eq!(pipe.lower_sprite.get_position(), Vector2 { x: 138 * PX, y: 184 * PX });
    assert_eq!(pipe.upper_sprite.get_position(), Vector2 { x: 138 * PX, y: 84 * PX });
    assert!(well_formed(&pipe));

    pipe.update(1);
    assert_eq!(pipe.upper_rect.x, 138 * PX - 150_000_000);
    pipe.update(0);
    assert_eq!(pipe.upper_rect.x, 138 * PX - 150_000_000);
}

#[test]
fn a_pipe_is_marked_once_it_has_left_the_playfield() {
    let assets = pipe_only();
    let mut pipe = Pipe::from_slot(&assets, 0);
    // one tick short of the left edge
    pipe.upper_rect.x = -52 * PX + SCROLL_SPEED;
    pipe.lower_rect.x = -52 * PX + SCROLL_SPEED;
    pipe.update(1);
    // the right edge lies exactly on the left edge of the playfield
    assert_eq!(pipe.upper_rect.x + pipe.upper_rect.width, 0);
    assert!(!pipe.to_be_deleted);
    pipe.update(1);
    assert!(pipe.to_be_deleted);
    assert!(well_formed(&pipe));
    pipe.update(0);
    assert!(pipe.to_be_deleted);
}

#[test]
fn a_pipe_draws_the_lower_sprite_first() {
    let assets = pipe_only();
    let mut pipe = Pipe::from_slot(&assets, 4);
    pipe.update(SECOND);
    let images = pipe.draw();
    assert_eq!(images.len(), 2);
    assert_eq!(images[0], pipe.lower_sprite.draw());
    assert_eq!(images[1], pipe.upper_sprite.draw());
    assert_eq!(images[0].rectangle, Rect { x: 138 * PX, y: 340 * PX, width: 52 * PX, height: 60 * PX });
    assert_eq!(images[1].rectangle, Rect { x: 138 * PX, y: 240 * PX, width: 52 * PX, height: -240 * PX });
    assert_eq!(images[1].source_rectangle, Rect { x: 0, y: 0, width: 52 * PX, height: 240 * PX });
    assert_eq!(images[0].texture, TextureId::Pipe);
}

#[test]
fn a_new_manager_is_empty() {
    let assets = pipe_only();
    let pipes = PipesManager::new(&assets);
    assert_eq!(pipes.len(), 0);
    assert_eq!(pipes.timer(), 3_000_000);
    assert!(pipes.draw().is_empty());
    assert!(!pipes.detect_collision_with(Rect { x: 0, y: 0, width: 400 * PX, height: 400 * PX }));
}

#[test]
fn spawn_pipe_adds_a_pair_at_the_right_edge() {
    let assets = pipe_only();
    let mut pipes = PipesManager::new(&assets);
    pipes.spawn_pipe();
    assert_eq!(pipes.len(), 1);
    assert_eq!(pipes.get(0).upper_rect.x, START_X);
    assert!(well_formed(&pipes.get(0)));
    assert_eq!(pipes.timer(), PIPE_PERIOD);
    assert!(!pipes.check_score_up());
    pipes.spawn_pipe();
    assert_eq!(pipes.len(), 2);
    assert_eq!(pipes.get(1).upper_rect.x, START_X);
}

#[test]
fn reset_leaves_exactly_one_pair() {
    let assets = pipe_only();
    let mut pipes = PipesManager::new(&assets);
    pipes.reset();
    assert_eq!(pipes.len(), 1);
    pipes.update(SECOND);
    pipes.update(500_000);
    assert_eq!(pipes.timer(), 1_500_000);
    pipes.reset();
    assert_eq!(pipes.len(), 1);
    assert_eq!(pipes.get(0).upper_rect.x, START_X);
    assert!(!pipes.get(0).to_be_deleted);
    assert_eq!(pipes.timer(), PIPE_PERIOD);
}

#[test]
fn the_timer_restarts_from_the_full_period() {
    let assets = pipe_only();
    let mut pipes = PipesManager::new(&assets);
    assert_eq!(pipes.timer(), 3_000_000);
    pipes.update(SECOND);
    pipes.update(SECOND);
    assert_eq!(pipes.timer(), 1_000_000);
    assert_eq!(pipes.len(), 0);
    // exactly three seconds: the timer is at zero, which is not yet below it
    pipes.update(SECOND);
    assert_eq!(pipes.timer(), 0);
    assert_eq!(pipes.len(), 0);
    // the next tick runs it down: one pair appears, and the timer is full again
    pipes.update(250_000);
    assert_eq!(pipes.len(), 1);
    assert_eq!(pipes.timer(), 3_000_000);
    // the new pair has scrolled for the tick in which it appeared
    assert_eq!(pipes.get(0).upper_rect.x, 288 * PX - 37_500_000_000_000);
}

#[test]
fn an_overshoot_is_not_carried_over() {
    let assets = pipe_only();
    let mut pipes = PipesManager::new(&assets);
    pipes.update(3_500_000);
    assert_eq!(pipes.timer(), 3_000_000);
}

#[test]
fn a_long_tick_spawns_one_pair_only() {
    let assets = pipe_only();
    let mut pipes = PipesManager::new(&assets);
    pipes.update(1_000_000);
    // more than three periods in one tick
    pipes.update(10_000_000);
    assert_eq!(pipes.timer(), 3_000_000);
    // the one pair spawned has left the playfield within the tick and is retired
    assert_eq!(pipes.len(), 0);
    assert!(pipes.check_score_up());

    let mut short = PipesManager::new(&assets);
    short.update(3_000_000);
    // one pair, spawned and scrolled for 1.5 s; no second one for the time left over
    short.update(1_500_000);
    assert_eq!(short.len(), 1);
    assert_eq!(short.get(0).upper_rect.x, 63 * PX);
    assert_eq!(short.timer(), 3_000_000);
}

#[test]
fn the_score_signal_fires_once_per_pair() {
    let assets = pipe_only();
    let mut pipes = PipesManager::new(&assets);
    pipes.reset();
    assert!(!pipes.check_score_up());
    let mut fired_at = Vec::new();
    // 2.9 s in ticks of a tenth; the pair leaves after 340 px, that is within the 23rd tick
    for tick in 1..=29 {
        let before = pipes.len();
        pipes.update(100_000);
        let removed = pipes.len() < before;
        let fired = pipes.check_score_up();
        assert_eq!(fired, removed);
        if fired {
            fired_at.push(tick);
        }
        // polled once, the signal is down
        assert!(!pipes.check_score_up());
    }
    assert_eq!(fired_at, vec![23]);
    assert_eq!(pipes.len(), 0);
}

#[test]
fn an_unpolled_signal_stays_up() {
    let assets = pipe_only();
    let mut pipes = PipesManager::new(&assets);
    pipes.reset();
    pipes.update(2_500_000);
    assert_eq!(pipes.len(), 0);
    pipes.update(100_000);
    pipes.update(100_000);
    assert!(pipes.check_score_up());
    assert!(!pipes.check_score_up());
}

#[test]
fn reset_does_not_touch_the_score_signal() {
    let assets = pipe_only();
    let mut pipes = PipesManager::new(&assets);
    pipes.reset();
    pipes.update(2_500_000);
    pipes.reset();
    assert!(pipes.check_score_up());
    pipes.reset();
    assert!(!pipes.check_score_up());
}

#[test]
fn scores_within_foretells_the_signal() {
    let assets = pipe_only();
    let mut pipes = PipesManager::new(&assets);
    // no pair, and the timer does not run down
    assert!(!pipes.scores_within(1_000_000));
    // no pair yet, but the one that the tick spawns leaves within it
    assert!(pipes.scores_within(6_000_000));
    assert!(pipes.scores_within(3_000_001));
    {
        // with two seconds gone, a pair spawned by the next tick stays in play
        let mut late = PipesManager::new(&assets);
        late.update(2_000_000);
        assert!(!late.scores_within(1_500_000));
        assert!(late.scores_within(2_300_000));
    }
    pipes.reset();
    assert!(!pipes.scores_within(2_266_666));
    assert!(pipes.scores_within(2_266_667));
    pipes.update(2_266_666);
    assert_eq!(pipes.len(), 1);
    assert!(!pipes.check_score_up());
    assert!(pipes.scores_within(1));
    pipes.update(1);
    assert_eq!(pipes.len(), 0);
    // the signal is up and stays so through a tick that retires nothing
    assert!(pipes.scores_within(0));
    assert!(pipes.check_score_up());
    assert!(!pipes.scores_within(0));
}

#[test]
fn collisions_with_either_pipe_are_found() {
    let assets = pipe_only();
    let mut pipes = PipesManager::new(&assets);
    pipes.reset();
    pipes.update(SECOND);
    let pair = pipes.get(0);
    assert_eq!(pair.upper_rect.x, 138 * PX);
    let gap_top = pair.upper_rect.height;
    let gap_bottom = pair.lower_rect.y;
    assert_eq!(gap_bottom - gap_top, GAP_SIZE);

    let bird = |x: i64, y: i64| Rect { x, y, width: 34 * PX, height: 24 * PX };
    // inside the gap, clear of both pipes by one unit of length
    assert!(!pipes.detect_collision_with(bird(140 * PX, gap_top + 1)));
    assert!(!pipes.detect_collision_with(bird(140 * PX, gap_bottom - 24 * PX - 1)));
    // touching the upper pipe, touching the lower pipe
    assert!(pipes.detect_collision_with(bird(140 * PX, gap_top)));
    assert!(pipes.detect_collision_with(bird(140 * PX, gap_bottom - 24 * PX)));
    // well inside either pipe
    assert!(pipes.detect_collision_with(bird(150 * PX, 0)));
    assert!(pipes.detect_collision_with(bird(150 * PX, 376 * PX)));
    // left of the pair: one unit short, then touching
    assert!(!pipes.detect_collision_with(bird(104 * PX - 1, 0)));
    assert!(pipes.detect_collision_with(bird(104 * PX, 0)));
    // right of the pair
    assert!(pipes.detect_collision_with(bird(190 * PX, 0)));
    assert!(!pipes.detect_collision_with(bird(190 * PX + 1, 0)));
}

#[test]
fn the_manager_draws_every_pair() {
    let assets = pipe_only();
    let mut pipes = PipesManager::new(&assets);
    pipes.reset();
    pipes.update(100_000);
    pipes.spawn_pipe();
    let images = pipes.draw();
    assert_eq!(images.len(), 4);
    assert_eq!(images[0], pipes.get(0).lower_sprite.draw());
    assert_eq!(images[1], pipes.get(0).upper_sprite.draw());
    assert_eq!(images[2], pipes.get(1).lower_sprite.draw());
    assert_eq!(images[3], pipes.get(1).upper_sprite.draw());
    assert_eq!(images[0].rectangle.x, 273 * PX);
}

#[test]
fn at_most_one_pair_is_in_play_between_ticks() {
    let assets = pipe_only();
    let mut pipes = PipesManager::new(&assets);
    pipes.reset();
    let mut seed: u64 = 0x9E37_79B9_7F4A_7C15;
    let mut spawned = 1u32;
    let mut retired = 0u32;
    for _ in 0..20_000 {
        seed = seed.wrapping_mul(6364136223846793005).wrapping_add(1442695040888963407);
        let dt: u32 = match (seed >> 60) as u8 {
            0 => 0,
            1 => u32::MAX,
            2 => (seed >> 20) as u32,
            3 => ((seed >> 30) % 4_000_000) as u32,
            _ => ((seed >> 33) % 40_000) as u32,
        };
        let timer = pipes.timer();
        let before = pipes.len();
        pipes.update(dt);
        let due = timer - (dt as i64) < 0;
        if due {
            spawned += 1;
            assert_eq!(pipes.timer(), PIPE_PERIOD);
        } else {
            assert_eq!(pipes.timer(), timer - dt as i64);
        }
        let in_play = before + due as usize;
        let fired = pipes.check_score_up();
        assert_eq!(pipes.len() + fired as usize, in_play);
        if fired {
            retired += 1;
        }
        assert!(pipes.len() <= 1);
        assert!(0 <= pipes.timer() && pipes.timer() <= PIPE_PERIOD);
        for i in 0..pipes.len() {
            let pair = pipes.get(i);
            assert!(well_formed(&pair));
            assert!(pair.upper_rect.x >= -(PIPE_WIDTH + MAX_SCROLL));
            assert!(pair.upper_rect.x + SCROLL_SPEED * (PIPE_PERIOD - pipes.timer()) <= START_X);
        }
    }
    assert_eq!(spawned, retired + pipes.len() as u32);
    assert!(retired > 10);
}

use game::formation::{FBPlayer, FBPosition, FBState};
use game::layout::{
    place_players, place_viewport, LayoutError, Surface, CAMERA_DEPTH, PLAYER_DEPTH,
};

const SURFACE: Surface = Surface { width: 800, height: 600 };

#[test]
fn standard_team_scenario_with_two_visuals() {
    let roster = FBState::build_std_team();
    let pool = vec!['A', 'B'];
    let ps = place_players(&roster, &pool, &SURFACE).unwrap();
    assert_eq!(ps.len(), 22);
    assert_eq!(roster[0].position, FBPosition::QB);
    assert_eq!((ps[0].x, ps[0].y), (0, 0));
    assert_eq!(pool[ps[0].visual], 'A');
    assert_eq!(roster[1].position, FBPosition::HB);
    assert_eq!((ps[1].x, ps[1].y), (40, 0));
    assert_eq!(pool[ps[1].visual], 'B');
    assert_eq!(roster[11].position, FBPosition::NT);
    assert_eq!((ps[11].x, ps[11].y), (440, 40));
    assert_eq!(pool[ps[11].visual], 'B');
}

#[test]
fn twenty_two_players_get_columns_and_team_rows() {
    let roster = FBState::build_std_team();
    let pool = vec![0u32, 1, 2];
    let ps = place_players(&roster, &pool, &SURFACE).unwrap();
    assert_eq!(ps.len(), 22);
    for (i, p) in ps.iter().enumerate() {
        assert_eq!(p.player_index, i);
        assert_eq!(p.x, 40 * i as u64);
        assert_eq!(p.y, 40 * roster[i].team as u64);
        assert_eq!(p.z, PLAYER_DEPTH);
        assert_eq!(p.visual, i % 3);
    }
}

#[test]
fn empty_pool_is_invalid_input() {
    let roster = FBState::build_std_team();
    let pool: Vec<u32> = Vec::new();
    assert_eq!(place_players(&roster, &pool, &SURFACE), Err(LayoutError::InvalidInput));
}

#[test]
fn empty_roster_gives_no_placements() {
    let pool = vec![1u8];
    assert_eq!(place_players(&[], &pool, &SURFACE), Ok(vec![]));
}

#[test]
fn higher_team_tags_stack_further_rows() {
    let roster = vec![
        FBPlayer { number: 10, position: FBPosition::QB, team: 3 },
        FBPlayer { number: 11, position: FBPosition::CB, team: 255 },
    ];
    let ps = place_players(&roster, &[()], &Surface { width: 10, height: 10 }).unwrap();
    assert_eq!((ps[0].x, ps[0].y, ps[0].visual), (0, 120, 0));
    assert_eq!((ps[1].x, ps[1].y, ps[1].visual), (40, 10200, 0));
}

#[test]
fn viewport_is_centred_on_the_surface() {
    let v = place_viewport(&SURFACE);
    assert_eq!(v.center_x_halves as f32 / 2.0, 400.0);
    assert_eq!(v.center_y_halves as f32 / 2.0, 300.0);
    assert_eq!((v.width, v.height), (800, 600));
    assert_eq!(v.z, CAMERA_DEPTH);
}

#[test]
fn viewport_centre_is_exact_on_odd_sizes() {
    let v = place_viewport(&Surface { width: 801, height: 1 });
    assert_eq!(v.center_x_halves as f64 / 2.0, 400.5);
    assert_eq!(v.center_y_halves as f64 / 2.0, 0.5);
}

#[test]
fn zero_sized_surface_gives_degenerate_viewport() {
    let v = place_viewport(&Surface { width: 0, height: 0 });
    assert_eq!((v.center_x_halves, v.center_y_halves, v.width, v.height), (0, 0, 0, 0));
}

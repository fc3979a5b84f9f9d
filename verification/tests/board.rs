use platformer::{
    millis_to_seconds, Board, Coin, Direction, Meters, MetersPerSecond, Platform, Seconds,
    SimulationError, State, ToPixels,
};

const METER: i64 = 100_000_000;

#[test]
fn default_board_is_a_descending_staircase() {
    let board = Board::default();
    assert_eq!(board.platforms.len(), 10);
    assert_eq!(
        board.platforms[0],
        Platform { x_from: Meters(-10 * METER), x_to: Meters(10 * METER), y: Meters(0) }
    );
    assert_eq!(
        board.platforms[1],
        Platform { x_from: Meters(10 * METER), x_to: Meters(30 * METER), y: Meters(-METER) }
    );
    assert_eq!(
        board.platforms[9],
        Platform { x_from: Meters(170 * METER), x_to: Meters(190 * METER), y: Meters(-9 * METER) }
    );
    for (n, platform) in board.platforms.iter().enumerate() {
        let n = n as i64;
        assert_eq!(platform.x_from, Meters((20 * n - 10) * METER));
        assert_eq!(platform.x_to, Meters((20 * n + 10) * METER));
        assert_eq!(platform.y, Meters(-n * METER));
    }
}

#[test]
fn default_board_has_a_coin_above_each_platform() {
    let board = Board::default();
    assert_eq!(board.coins.len(), 10);
    assert_eq!(board.coins[0], Coin { x: Meters(0), y: Meters(METER), value: 0 });
    assert_eq!(board.coins[3], Coin { x: Meters(60 * METER), y: Meters(-2 * METER), value: 3 });
    for (n, coin) in board.coins.iter().enumerate() {
        assert_eq!(coin.x, Meters(20 * n as i64 * METER));
        assert_eq!(coin.y, Meters(board.platforms[n].y.0 + METER));
        assert_eq!(coin.value, n as u8);
    }
}

#[test]
fn board_of_valid_platforms_is_built() {
    let platforms =
        vec![Platform { x_from: Meters(0), x_to: Meters(1), y: Meters(5) }];
    let coins = vec![Coin { x: Meters(2), y: Meters(3), value: 255 }];
    let board = Board::new(platforms.clone(), coins.clone()).unwrap();
    assert_eq!(board.platforms, platforms);
    assert_eq!(board.coins, coins);
    assert_eq!(Board::new(vec![], vec![]), Ok(Board { platforms: vec![], coins: vec![] }));
}

#[test]
fn board_with_an_empty_platform_is_refused() {
    let good = Platform { x_from: Meters(0), x_to: Meters(METER), y: Meters(0) };
    let point = Platform { x_from: Meters(METER), x_to: Meters(METER), y: Meters(0) };
    let reversed = Platform { x_from: Meters(METER), x_to: Meters(0), y: Meters(0) };
    assert_eq!(Board::new(vec![good, point], vec![]), Err(SimulationError::InvalidPlatform));
    assert_eq!(Board::new(vec![reversed, good], vec![]), Err(SimulationError::InvalidPlatform));
}

#[test]
fn platform_width_is_the_distance_between_its_ends() {
    let platform = Platform { x_from: Meters(3 * METER), x_to: Meters(11 * METER / 2), y: Meters(0) };
    assert_eq!(platform.width(), Meters(5 * METER / 2));
    let across = Platform { x_from: Meters(-4 * METER), x_to: Meters(6 * METER), y: Meters(0) };
    assert_eq!(across.width(), Meters(10 * METER));
}

#[test]
fn platform_width_stays_within_range() {
    let widest = Platform { x_from: Meters(i64::MIN), x_to: Meters(i64::MAX), y: Meters(0) };
    assert_eq!(widest.width(), Meters(i64::MAX));
    let reversed = Platform { x_from: Meters(i64::MAX), x_to: Meters(i64::MIN), y: Meters(0) };
    assert_eq!(reversed.width(), Meters(i64::MIN));
}

#[test]
fn direction_defaults_to_forward() {
    assert_eq!(Direction::default(), Direction::Forward);
}

#[test]
fn direction_speed_is_six_meters_per_second_either_way() {
    assert_eq!(Direction::Forward.speed(), MetersPerSecond(600_000));
    assert_eq!(Direction::Backward.speed(), MetersPerSecond(-600_000));
    assert_eq!(Direction::Forward.speed(), MetersPerSecond::from_whole(6));
    assert_eq!(Direction::Backward.speed(), MetersPerSecond::from_whole(-6));
}

#[test]
fn whole_quantities_scale_by_their_unit() {
    assert_eq!(Meters::from_whole(1), Meters(METER));
    assert_eq!(Meters::from_whole(-7), Meters(-7 * METER));
    assert_eq!(Meters::from_whole(i32::MAX), Meters(i32::MAX as i64 * METER));
    assert_eq!(Meters::from_whole(i32::MIN), Meters(i32::MIN as i64 * METER));
    assert_eq!(MetersPerSecond::from_whole(7), MetersPerSecond(700_000));
    assert_eq!(MetersPerSecond::from_whole(i32::MIN), MetersPerSecond(i32::MIN as i64 * 100_000));
}

#[test]
fn milliseconds_become_thousandths_of_a_second() {
    assert_eq!(millis_to_seconds(0), Seconds(0));
    assert_eq!(millis_to_seconds(500), Seconds(500));
    assert_eq!(millis_to_seconds(-3), Seconds(-3));
    assert_eq!(millis_to_seconds(i32::MAX), Seconds(2_147_483_647));
}

#[test]
fn a_meter_is_sixty_pixels() {
    assert_eq!(Meters(METER).to_pixels(), 60);
    assert_eq!(Meters(0).to_pixels(), 0);
    assert_eq!(Meters(METER / 5).to_pixels(), 12);
    assert_eq!(Meters(-3 * METER / 2).to_pixels(), -90);
    assert_eq!(Meters::from_whole(10).to_pixels(), 600);
}

#[test]
fn pixels_round_toward_zero() {
    assert_eq!(Meters(METER / 100).to_pixels(), 0);
    assert_eq!(Meters(-METER / 100).to_pixels(), 0);
    assert_eq!(Meters(METER / 60 * 2 - 1).to_pixels(), 1);
    assert_eq!(Meters(-(METER / 60 * 2 - 1)).to_pixels(), -1);
    assert_eq!(Meters(5 * METER / 200 * 3).to_pixels(), 4);
    assert_eq!(Meters(-5 * METER / 200 * 3).to_pixels(), -4);
}

#[test]
fn pixels_stay_within_range() {
    assert_eq!(Meters(i64::MAX).to_pixels(), i32::MAX);
    assert_eq!(Meters(i64::MIN).to_pixels(), i32::MIN);
    assert_eq!(Meters::from_whole(40_000_000).to_pixels(), i32::MAX);
    assert_eq!(Meters::from_whole(-40_000_000).to_pixels(), i32::MIN);
    assert_eq!(Meters::from_whole(35_000_000).to_pixels(), 2_100_000_000);
}

#[test]
fn default_state_hovers_over_the_first_platform() {
    let state = State::default();
    assert_eq!(state.x, Meters(0));
    assert_eq!(state.y, Meters(10 * METER));
    assert_eq!(state.speed_y, MetersPerSecond(0));
    assert_eq!(state.direction, Direction::Forward);
    assert!(!state.is_moving);
    assert!(!state.is_on_ground);
    assert_eq!(state.board, Board::default());
    assert_eq!(state.platform_below(), Ok(Meters(0)));
}

#[test]
fn wide_sums_are_brought_back_into_range() {
    assert_eq!(platformer::units::saturate(0), 0);
    assert_eq!(platformer::units::saturate(-77), -77);
    assert_eq!(platformer::units::saturate(i64::MAX as i128), i64::MAX);
    assert_eq!(platformer::units::saturate(i64::MAX as i128 + 1), i64::MAX);
    assert_eq!(platformer::units::saturate(i64::MIN as i128), i64::MIN);
    assert_eq!(platformer::units::saturate(i64::MIN as i128 - 1), i64::MIN);
    assert_eq!(platformer::units::saturate(i128::MAX), i64::MAX);
    assert_eq!(platformer::units::saturate(i128::MIN), i64::MIN);
}

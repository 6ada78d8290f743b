use pong_session::gamemode::{GameState, Gamemode, Gamemodes};
use pong_session::matchmaking::MatchMaker;
use pong_session::packet::Packet;
use pong_session::player::{IoFailure, MessageType, NewPlayer, Player, PlayerError, PlayerMessage};
use pong_session::standard::{Collision, StandardGame, MAP_HEIGHT, MAP_WIDTH, PADDLE_SIZE};

fn state(ball: (u8, u8), dir: (i8, i8), p1: u8, p2: u8) -> GameState<()> {
    GameState {
        player_1: Player { player_pos: p1, stream: () },
        player_2: Player { player_pos: p2, stream: () },
        ball_pos_x: ball.0,
        ball_pos_y: ball.1,
        ball_dx: dir.0,
        ball_dy: dir.1,
        map_width: 80,
        map_height: 30,
        paddle_size: 4,
        player_1_score: 0,
        player_2_score: 0,
    }
}

fn arrival(name: &str) -> NewPlayer<String> {
    NewPlayer::new(Gamemodes::Standard, name.to_string())
}

#[test]
fn decode_message_maps_tags() {
    assert!(matches!(PlayerMessage::decode_message(0), MessageType::PlayerPos));
    assert!(matches!(PlayerMessage::decode_message(1), MessageType::Shutdown));
    assert!(matches!(PlayerMessage::decode_message(2), MessageType::Undefined));
    assert!(matches!(PlayerMessage::decode_message(255), MessageType::Undefined));
}

#[test]
fn cast_buffer_reads_payload() {
    let m = PlayerMessage::cast_buffer(&[0, 17]);
    assert_eq!(m.message_type, MessageType::PlayerPos);
    assert_eq!(m.data, 17);
    let m = PlayerMessage::cast_buffer(&[1, 9]);
    assert_eq!(m.message_type, MessageType::Shutdown);
    assert_eq!(m.data, 9);
    let m = PlayerMessage::cast_buffer(&[7, 9]);
    assert_eq!(m.message_type, MessageType::Undefined);
    assert_eq!(m.data, 0);
}

#[test]
fn updated_position_outcomes() {
    let mut p = Player { player_pos: 10, stream: () };
    assert_eq!(p.updated_position(Ok(2), &[0, 17]), Ok(()));
    assert_eq!(p.player_pos, 17);
    assert_eq!(p.updated_position(Ok(0), &[0, 20]), Err(PlayerError::PlayerDisconnected));
    assert_eq!(p.updated_position(Ok(2), &[1, 20]), Err(PlayerError::PlayerDisconnected));
    assert_eq!(p.updated_position(Ok(2), &[9, 20]), Err(PlayerError::UndefinedPacket(9)));
    assert_eq!(
        p.updated_position(Err(IoFailure::TimedOut), &[0, 20]),
        Err(PlayerError::Io(IoFailure::TimedOut))
    );
    assert_eq!(p.updated_position(Err(IoFailure::Other), &[0, 20]), Err(PlayerError::Io(IoFailure::Other)));
    assert_eq!(p.player_pos, 17);
}

#[test]
fn only_timeout_is_not_fatal() {
    assert!(!PlayerError::Io(IoFailure::TimedOut).fatal());
    assert!(PlayerError::Io(IoFailure::Other).fatal());
    assert!(PlayerError::PlayerDisconnected.fatal());
    assert!(PlayerError::UndefinedPacket(3).fatal());
}

#[test]
fn from_new_player_starts_at_thirty() {
    let p = Player::from_new_player(arrival("a"));
    assert_eq!(p.player_pos, 30);
    assert_eq!(p.stream, "a");
}

#[test]
fn setup_game_standard_map() {
    let (game, gs) = StandardGame::setup_game(arrival("a"), arrival("b"));
    assert!(!game.stepping);
    assert_eq!((gs.map_width, gs.map_height, gs.paddle_size), (MAP_WIDTH, MAP_HEIGHT, PADDLE_SIZE));
    assert_eq!((gs.map_width, gs.map_height, gs.paddle_size), (80, 30, 4));
    assert_eq!((gs.ball_pos_x, gs.ball_pos_y), (40, 15));
    assert_eq!((gs.ball_dx, gs.ball_dy), (1, 0));
    assert_eq!((gs.player_1.player_pos, gs.player_2.player_pos), (15, 15));
    assert_eq!((gs.player_1_score, gs.player_2_score), (0, 0));
    assert_eq!(gs.player_1.stream, "a");
    assert_eq!(gs.player_2.stream, "b");
}

#[test]
fn encode_update_mirrors_for_player_two() {
    let gs = state((10, 12), (1, 0), 15, 16);
    assert_eq!(gs.encode_update(1), vec![1, 1, 15, 16, 10, 12]);
    assert_eq!(gs.encode_update(2), vec![1, 2, 15, 16, 69, 12]);
    let game = StandardGame { stepping: false };
    assert_eq!(game.create_update_packet(&gs), vec![1, 0, 15, 16, 10, 12]);
}

#[test]
fn encode_snapshot_layout() {
    let gs = state((40, 15), (1, 0), 15, 15);
    assert_eq!(gs.encode_snapshot(1), vec![0, 1, 15, 15, 40, 15, 80, 30, 4]);
    assert_eq!(gs.encode_snapshot(2), vec![0, 2, 15, 15, 40, 15, 80, 30, 4]);
    let game = StandardGame { stepping: false };
    assert_eq!(game.create_snapshot_packet(&gs), vec![0, 1, 15, 15, 40, 15, 80, 30, 4]);
}

#[test]
fn update_round_trip_through_client_decode() {
    for bytes in [[1u8, 1, 15, 20, 33, 7], [1u8, 2, 9, 21, 33, 7]] {
        let u = pong_session::client::GameUpdate::cast_packet(&bytes);
        let gs = state((u.ball_x, u.ball_y), (1, 0), u.player_1_pos, u.player_2_pos);
        let out = gs.encode_update(u.player_id);
        if u.player_id == 1 {
            assert_eq!(out, bytes.to_vec());
        } else {
            let mut expected = bytes.to_vec();
            expected[4] = 80 - 33 - 1;
            assert_eq!(out, expected);
        }
    }
}

#[test]
fn score_at_column_one_goes_to_player_two() {
    let game = StandardGame { stepping: false };
    let mut gs = state((1, 5), (-1, 1), 15, 15);
    game.calculate_next_frame(&mut gs);
    assert_eq!((gs.player_1_score, gs.player_2_score), (0, 1));
    assert_eq!((gs.ball_pos_x, gs.ball_pos_y), (40, 15));
    assert!(gs.ball_dx == 1 || gs.ball_dx == -1);
    assert!((-1..=1).contains(&gs.ball_dy));
}

#[test]
fn score_at_right_paddle_column_goes_to_player_one() {
    let game = StandardGame { stepping: false };
    let mut gs = state((77, 5), (1, 1), 15, 15);
    gs.player_1_score = 255;
    game.calculate_next_frame(&mut gs);
    assert_eq!((gs.player_1_score, gs.player_2_score), (0, 0));
    assert_eq!((gs.ball_pos_x, gs.ball_pos_y), (40, 15));
}

#[test]
fn no_score_elsewhere() {
    let game = StandardGame { stepping: false };
    let mut gs = state((30, 5), (1, 1), 15, 15);
    game.calculate_next_frame(&mut gs);
    assert_eq!((gs.player_1_score, gs.player_2_score), (0, 0));
    assert_eq!((gs.ball_pos_x, gs.ball_pos_y, gs.ball_dx, gs.ball_dy), (30, 5, 1, 1));
}

#[test]
fn increment_score_wraps() {
    let mut gs = state((30, 5), (1, 1), 15, 15);
    gs.player_2_score = 255;
    gs.increment_score(2);
    gs.increment_score(1);
    gs.increment_score(3);
    assert_eq!((gs.player_1_score, gs.player_2_score), (1, 0));
}

#[test]
fn reset_direction_is_never_level() {
    for _ in 0..200 {
        let mut gs = state((30, 5), (0, 0), 15, 15);
        gs.reset_ball_to_center();
        assert!(gs.ball_dx == 1 || gs.ball_dx == -1);
        assert!((-1..=1).contains(&gs.ball_dy));
        assert_eq!((gs.ball_pos_x, gs.ball_pos_y), (40, 15));
    }
}

#[test]
fn reset_ball_pos_keeps_direction() {
    let game = StandardGame { stepping: false };
    let mut gs = state((30, 5), (-1, 1), 15, 15);
    game.reset_ball_pos(&mut gs);
    assert_eq!((gs.ball_pos_x, gs.ball_pos_y, gs.ball_dx, gs.ball_dy), (40, 15, -1, 1));
}

#[test]
fn new_ball_pos_adds_direction() {
    let game = StandardGame { stepping: false };
    assert_eq!(game.new_ball_pos(&state((30, 5), (-1, 1), 15, 15)), (29, 6));
    assert_eq!(game.new_ball_pos(&state((0, 255), (-1, 1), 15, 15)), (255, 0));
}

#[test]
fn corner_rule_wins_over_paddle_and_wall() {
    let game = StandardGame { stepping: true };
    // Row 0, column 2, and player 1's paddle (centre 4) covers row 0 too.
    let mut gs = state((2, 0), (-1, -1), 4, 15);
    assert_eq!(gs.collision(), Collision::Corner);
    game.step_ball_with(&mut gs, -1);
    assert_eq!((gs.ball_dx, gs.ball_dy), (1, 1));
    assert_eq!((gs.ball_pos_x, gs.ball_pos_y), (3, 1));
    let mut gs = state((2, 0), (-1, -1), 4, 15);
    game.step_ball_with(&mut gs, 0);
    assert_eq!((gs.ball_dx, gs.ball_dy), (1, 0));
    assert_eq!((gs.ball_pos_x, gs.ball_pos_y), (3, 0));
}

#[test]
fn wall_rule_reflects_vertical_direction() {
    let game = StandardGame { stepping: true };
    let mut gs = state((30, 29), (1, 1), 15, 15);
    assert_eq!(gs.collision(), Collision::Wall);
    game.step_ball(&mut gs);
    assert_eq!((gs.ball_dx, gs.ball_dy), (1, -1));
    assert_eq!((gs.ball_pos_x, gs.ball_pos_y), (31, 28));
}

#[test]
fn clear_step_moves_by_direction() {
    let game = StandardGame { stepping: true };
    let mut gs = state((30, 10), (-1, 1), 15, 15);
    assert_eq!(gs.collision(), Collision::Clear);
    game.step_ball(&mut gs);
    assert_eq!((gs.ball_pos_x, gs.ball_pos_y, gs.ball_dx, gs.ball_dy), (29, 11, -1, 1));
}

#[test]
fn paddle_hit_scenario() {
    let game = StandardGame { stepping: true };
    for _ in 0..100 {
        let mut gs = state((2, 15), (1, 0), 15, 15);
        assert_eq!(gs.collision(), Collision::Paddle);
        game.step_ball(&mut gs);
        assert_eq!(gs.ball_dx, -1);
        assert!(gs.ball_dy == -1 || gs.ball_dy == 0);
        assert_eq!(gs.ball_pos_x, 1);
        assert_eq!(gs.ball_pos_y as i16, 15 + gs.ball_dy as i16);
    }
    let mut gs = state((2, 15), (1, 0), 15, 15);
    game.step_ball_with(&mut gs, -1);
    assert_eq!((gs.ball_pos_x, gs.ball_pos_y, gs.ball_dx, gs.ball_dy), (1, 14, -1, -1));
}

#[test]
fn paddle_miss_outside_span() {
    let mut gs = state((2, 25), (-1, 0), 15, 15);
    assert_eq!(gs.collision(), Collision::Clear);
    gs.player_1.player_pos = 21;
    assert_eq!(gs.collision(), Collision::Paddle);
}

#[test]
fn input_positions_are_clamped() {
    let game = StandardGame { stepping: false };
    let mut gs = state((30, 10), (1, 0), 15, 15);
    let r = game.update_player_location(&mut gs, Ok(2), &[0, 1], Ok(2), &[0, 200]);
    assert_eq!(r, Ok(()));
    assert_eq!((gs.player_1.player_pos, gs.player_2.player_pos), (4, 25));
    let r = game.update_player_location(&mut gs, Ok(2), &[0, 12], Ok(2), &[0, 13]);
    assert_eq!(r, Ok(()));
    assert_eq!((gs.player_1.player_pos, gs.player_2.player_pos), (12, 13));
}

#[test]
fn first_fatal_error_wins() {
    let game = StandardGame { stepping: false };
    let mut gs = state((30, 10), (1, 0), 15, 15);
    let r = game.update_player_location(&mut gs, Ok(2), &[5, 1], Ok(0), &[0, 20]);
    assert_eq!(r, Err(PlayerError::UndefinedPacket(5)));
    let r = game.update_player_location(&mut gs, Err(IoFailure::TimedOut), &[0, 1], Ok(0), &[0, 20]);
    assert_eq!(r, Err(PlayerError::PlayerDisconnected));
    let r = game.update_player_location(&mut gs, Err(IoFailure::TimedOut), &[0, 1], Err(IoFailure::TimedOut), &[0, 1]);
    assert_eq!(r, Ok(()));
}

#[test]
fn zero_byte_read_ends_session() {
    for (r1, r2) in [(Ok(0), Ok(2)), (Ok(2), Ok(0)), (Ok(0), Ok(0))] {
        let mut game = StandardGame { stepping: true };
        let mut gs = state((30, 10), (1, 0), 15, 15);
        let r = game.tick(&mut gs, r1, &[0, 12], r2, &[0, 13]);
        assert_eq!(r, Err(PlayerError::PlayerDisconnected));
        assert!(game.stepping);
        assert_eq!((gs.ball_pos_x, gs.ball_pos_y), (30, 10));
    }
}

#[test]
fn ball_moves_every_other_tick() {
    let mut game = StandardGame { stepping: false };
    let mut gs = state((30, 10), (1, 0), 15, 15);
    let mut positions = Vec::new();
    for k in 0..6u8 {
        let r = game.tick(&mut gs, Ok(2), &[0, 10 + k], Err(IoFailure::TimedOut), &[0, 0]);
        assert_eq!(r, Ok(()));
        assert_eq!(gs.player_1.player_pos, 10 + k);
        positions.push(gs.ball_pos_x);
    }
    assert_eq!(positions, vec![30, 31, 31, 32, 32, 33]);
}

#[test]
fn tick_scores_then_steps() {
    let mut game = StandardGame { stepping: false };
    let mut gs = state((1, 10), (-1, 0), 15, 15);
    assert_eq!(game.tick(&mut gs, Ok(2), &[0, 15], Ok(2), &[0, 15]), Ok(()));
    assert_eq!(gs.player_2_score, 1);
    assert_eq!((gs.ball_pos_x, gs.ball_pos_y), (40, 15));
    assert!(game.stepping);
}

#[test]
fn matchmaking_pairs_in_arrival_order() {
    let mut mm: MatchMaker<String> = MatchMaker::new();
    assert!(mm.recieve_new_player(arrival("A")).is_none());
    let pair = mm.recieve_new_player(arrival("B")).unwrap();
    assert_eq!((pair.0.tcp_stream.as_str(), pair.1.tcp_stream.as_str()), ("A", "B"));
    assert!(mm.recieve_new_player(arrival("C")).is_none());
    assert_eq!(mm.player_queue.len(), 1);
    assert_eq!(mm.player_queue[0].tcp_stream, "C");
    let pair = mm.recieve_new_player(arrival("D")).unwrap();
    assert_eq!((pair.0.tcp_stream.as_str(), pair.1.tcp_stream.as_str()), ("C", "D"));
    assert_eq!(mm.player_queue.len(), 0);
}

#[test]
fn setup_player_records_name() {
    let mut p = arrival("A");
    MatchMaker::setup_player(&mut p, b"Ana\xe9");
    assert_eq!(p.player_name.as_deref(), Some("Ana\u{e9}"));
    assert_eq!(p.game_type, Gamemodes::Standard);
    MatchMaker::<String>::setup_player(&mut p, b"");
    assert_eq!(p.player_name.as_deref(), Some(""));
}

#[test]
fn packet_buffer_is_zero_padded() {
    let buf = Packet::new("Hello").to_buff();
    assert_eq!(&buf[..5], b"Hello");
    assert!(buf[5..].iter().all(|b| *b == 0));
    assert_eq!(buf.len(), 1024);
}

#[test]
fn reset_draws_every_direction() {
    let mut seen_dx = [false; 2];
    let mut seen_dy = [false; 3];
    for _ in 0..400 {
        let mut gs = state((30, 5), (1, 0), 15, 15);
        gs.reset_ball_to_center();
        seen_dx[if gs.ball_dx == 1 { 1 } else { 0 }] = true;
        seen_dy[(gs.ball_dy + 1) as usize] = true;
    }
    assert_eq!(seen_dx, [true, true]);
    assert_eq!(seen_dy, [true, true, true]);
}

#[test]
fn paddle_hit_draws_both_vertical_directions() {
    let game = StandardGame { stepping: true };
    let mut seen = [false; 2];
    for _ in 0..400 {
        let mut gs = state((2, 15), (-1, 0), 15, 15);
        game.step_ball(&mut gs);
        assert_eq!(gs.ball_dx, 1);
        assert!(gs.ball_dy == 0 || gs.ball_dy == 1);
        seen[gs.ball_dy as usize] = true;
    }
    assert_eq!(seen, [true, true]);
}

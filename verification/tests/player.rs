use tryx::player::{
    parse_play_mode, player_state_name, PlayMode, PlayerAction, PlayerCommand, PlayerState, PlayerStatus,
    PLAYER_IDLE, PLAYER_PAUSED, PLAYER_PLAYING,
};

#[test]
fn playback_modes_are_explicit() {
    assert!(matches!(PlayMode::Replace, PlayMode::Replace));
    assert!(matches!(PlayMode::Queue, PlayMode::Queue));
    assert!(matches!(PlayMode::Interrupt, PlayMode::Interrupt));
}

#[test]
fn play_mode_names() {
    assert_eq!(parse_play_mode(None), Ok(PlayMode::Replace));
    assert_eq!(parse_play_mode(Some("replace")), Ok(PlayMode::Replace));
    assert_eq!(parse_play_mode(Some("queue")), Ok(PlayMode::Queue));
    assert_eq!(parse_play_mode(Some("interrupt")), Ok(PlayMode::Interrupt));
    assert_eq!(parse_play_mode(Some("shuffle")), Err("unknown playback mode: shuffle".to_string()));
    assert_eq!(parse_play_mode(Some("")), Err("unknown playback mode: ".to_string()));
}

#[test]
fn state_names() {
    assert_eq!(player_state_name(PLAYER_IDLE), "idle");
    assert_eq!(player_state_name(PLAYER_PLAYING), "playing");
    assert_eq!(player_state_name(PLAYER_PAUSED), "paused");
    assert_eq!(player_state_name(7), "idle");
    assert_eq!(PlayerStatus::Paused.code(), PLAYER_PAUSED);
    assert_eq!(player_state_name(PlayerStatus::Playing.code()), "playing");
}

fn started_ids(actions: &[PlayerAction]) -> Vec<(String, u64)> {
    actions
        .iter()
        .filter_map(|a| match a {
            PlayerAction::StartDecoder(p, id) => Some((p.clone(), *id)),
            _ => None,
        })
        .collect()
}

#[test]
fn replace_starts_a_decoder_and_replies() {
    let mut p = PlayerState::new();
    let actions = p.handle(PlayerCommand::Play("a.mp3".to_string(), PlayMode::Replace));
    assert_eq!(actions.len(), 2);
    assert!(matches!(&actions[0], PlayerAction::StartDecoder(path, 1) if path == "a.mp3"));
    assert!(matches!(actions[1], PlayerAction::Reply));
    assert_eq!(p.current.as_deref(), Some("a.mp3"));
    assert_eq!(p.status, PlayerStatus::Playing);
    let actions = p.handle(PlayerCommand::Play("b.mp3".to_string(), PlayMode::Replace));
    assert!(matches!(actions[0], PlayerAction::CancelDecoder));
    assert_eq!(started_ids(&actions), vec![("b.mp3".to_string(), 2)]);
    assert!(p.queue.is_empty());
}

#[test]
fn queue_mode_appends_while_playing() {
    let mut p = PlayerState::new();
    p.handle(PlayerCommand::Play("a".to_string(), PlayMode::Queue));
    assert_eq!(p.current.as_deref(), Some("a"));
    let actions = p.handle(PlayerCommand::Play("b".to_string(), PlayMode::Queue));
    assert_eq!(actions.len(), 1);
    assert!(matches!(actions[0], PlayerAction::Reply));
    assert_eq!(p.queue, vec!["b".to_string()]);
    assert_eq!(p.current.as_deref(), Some("a"));
}

#[test]
fn interrupt_resumes_previous_track_afterwards() {
    let mut p = PlayerState::new();
    p.handle(PlayerCommand::Play("song".to_string(), PlayMode::Replace));
    p.handle(PlayerCommand::Enqueue("later".to_string()));
    let actions = p.handle(PlayerCommand::Play("jingle".to_string(), PlayMode::Interrupt));
    assert!(matches!(actions[0], PlayerAction::CancelDecoder));
    assert_eq!(p.current.as_deref(), Some("jingle"));
    assert_eq!(p.queue, vec!["song".to_string(), "later".to_string()]);
    let id = p.current_generation.unwrap();
    let actions = p.handle(PlayerCommand::Finished(id));
    assert_eq!(started_ids(&actions), vec![("song".to_string(), id + 1)]);
    assert_eq!(p.queue, vec!["later".to_string()]);
}

#[test]
fn stale_finish_is_ignored() {
    let mut p = PlayerState::new();
    p.handle(PlayerCommand::Play("a".to_string(), PlayMode::Replace));
    p.handle(PlayerCommand::Play("b".to_string(), PlayMode::Replace));
    let actions = p.handle(PlayerCommand::Finished(1));
    assert!(actions.is_empty());
    assert_eq!(p.current.as_deref(), Some("b"));
    assert_eq!(p.status, PlayerStatus::Playing);
}

#[test]
fn finish_without_queue_goes_idle() {
    let mut p = PlayerState::new();
    p.handle(PlayerCommand::Play("a".to_string(), PlayMode::Replace));
    let actions = p.handle(PlayerCommand::Finished(1));
    assert!(actions.is_empty());
    assert_eq!(p.current, None);
    assert_eq!(p.current_generation, None);
    assert!(!p.decoding);
    assert_eq!(p.status, PlayerStatus::Idle);
}

#[test]
fn pause_and_resume_gate_the_decoder() {
    let mut p = PlayerState::new();
    let actions = p.handle(PlayerCommand::Pause);
    assert_eq!(actions.len(), 1);
    assert_eq!(p.status, PlayerStatus::Paused);
    p.handle(PlayerCommand::Play("a".to_string(), PlayMode::Replace));
    let actions = p.handle(PlayerCommand::Pause);
    assert!(matches!(actions[0], PlayerAction::SetPaused(true)));
    assert_eq!(p.gate, Some(true));
    let actions = p.handle(PlayerCommand::Resume);
    assert!(matches!(actions[0], PlayerAction::SetPaused(false)));
    assert_eq!(p.status, PlayerStatus::Playing);
}

#[test]
fn stop_empties_the_player() {
    let mut p = PlayerState::new();
    p.handle(PlayerCommand::Play("a".to_string(), PlayMode::Replace));
    p.handle(PlayerCommand::Enqueue("b".to_string()));
    let actions = p.handle(PlayerCommand::Stop);
    assert!(matches!(actions[0], PlayerAction::CancelDecoder));
    assert!(matches!(actions[1], PlayerAction::Reply));
    assert_eq!(p.current, None);
    assert!(p.queue.is_empty());
    assert_eq!(p.status, PlayerStatus::Idle);
}

#[test]
fn skip_moves_to_the_next_queued_track() {
    let mut p = PlayerState::new();
    p.handle(PlayerCommand::Play("a".to_string(), PlayMode::Replace));
    p.handle(PlayerCommand::Enqueue("b".to_string()));
    let actions = p.handle(PlayerCommand::Skip);
    assert_eq!(started_ids(&actions), vec![("b".to_string(), 2)]);
    let actions = p.handle(PlayerCommand::Skip);
    assert!(matches!(actions[0], PlayerAction::CancelDecoder));
    assert_eq!(p.current, None);
    assert_eq!(p.status, PlayerStatus::Idle);
    let actions = p.handle(PlayerCommand::Clear);
    assert!(matches!(actions[0], PlayerAction::Reply));
    let actions = p.handle(PlayerCommand::Shutdown);
    assert!(matches!(actions[0], PlayerAction::Exit));
}

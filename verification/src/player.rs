//! Control logic of the audio player: a playlist with a current track, a
//! queue, and a decoder that is started, cancelled and replaced as commands
//! arrive. The player loop hands each command to [`PlayerState::handle`] and
//! performs the returned actions in order.
use vstd::prelude::*;
use crate::text::str_eq;
use crate::text::push_str;

verus! {

/// How a new track relates to what is playing.
#[derive(Clone, Copy, Debug, PartialEq, Eq, Structural)]
pub enum PlayMode {
    /// Stop the current track, drop the queue, play the new one.
    Replace,
    /// Append to the queue when something is playing; otherwise as `Replace`.
    Queue,
    /// Play the new track now and resume the interrupted one afterwards.
    Interrupt,
}

/// What the player reports about itself.
#[derive(Clone, Copy, Debug, PartialEq, Eq, Structural)]
pub enum PlayerStatus {
    Idle,
    Playing,
    Paused,
}

pub const PLAYER_IDLE: u8 = 0;
pub const PLAYER_PLAYING: u8 = 1;
pub const PLAYER_PAUSED: u8 = 2;

pub open spec fn status_code(s: PlayerStatus) -> u8 {
    match s {
        PlayerStatus::Idle => PLAYER_IDLE,
        PlayerStatus::Playing => PLAYER_PLAYING,
        PlayerStatus::Paused => PLAYER_PAUSED,
    }
}

impl PlayerStatus {
    /// The number under which the status is published to readers.
    pub fn code(&self) -> (c: u8)
        ensures
            c == status_code(*self),
    {
        match self {
            PlayerStatus::Idle => PLAYER_IDLE,
            PlayerStatus::Playing => PLAYER_PLAYING,
            PlayerStatus::Paused => PLAYER_PAUSED,
        }
    }
}

pub open spec fn state_text(code: u8) -> Seq<char> {
    if code == PLAYER_PLAYING {
        "playing"@
    } else if code == PLAYER_PAUSED {
        "paused"@
    } else {
        "idle"@
    }
}

/// The name of a published status number; any unknown number reads "idle".
pub fn player_state_name(code: u8) -> (s: &'static str)
    ensures
        s@ == state_text(code),
{
    if code == PLAYER_PLAYING {
        "playing"
    } else if code == PLAYER_PAUSED {
        "paused"
    } else {
        "idle"
    }
}

/// The playback mode named by a caller; no name means "replace".
pub open spec fn play_mode_of(name: Option<Seq<char>>) -> Option<PlayMode> {
    match name {
        None => Some(PlayMode::Replace),
        Some(n) => if n == "replace"@ {
            Some(PlayMode::Replace)
        } else if n == "queue"@ {
            Some(PlayMode::Queue)
        } else if n == "interrupt"@ {
            Some(PlayMode::Interrupt)
        } else {
            None
        },
    }
}

/// Parses a playback mode name. An unknown name is refused with
/// "unknown playback mode: " followed by the name.
pub fn parse_play_mode(mode: Option<&str>) -> (r: Result<PlayMode, String>)
    ensures
        match mode {
            None => r == Ok::<PlayMode, String>(PlayMode::Replace),
            Some(name) => match play_mode_of(Some(name@)) {
                Some(m) => r == Ok::<PlayMode, String>(m),
                None => r matches Err(msg) && msg@ == "unknown playback mode: "@ + name@,
            },
        },
{
    match mode {
        None => Ok(PlayMode::Replace),
        Some(name) => {
            if str_eq(name, "replace") {
                Ok(PlayMode::Replace)
            } else if str_eq(name, "queue") {
                Ok(PlayMode::Queue)
            } else if str_eq(name, "interrupt") {
                Ok(PlayMode::Interrupt)
            } else {
                let mut msg = String::from_str("unknown playback mode: ");
                push_str(&mut msg, name);
                Err(msg)
            }
        },
    }
}

/// What became of a command sent to the player loop.
#[derive(Debug)]
pub enum CommandDelivery {
    /// The command queue was closed or full; the command was not sent.
    NotSent,
    /// The loop acknowledged the command.
    Acknowledged,
    /// The command was sent and not yet acknowledged.
    Pending,
    /// The loop refused the command with this message.
    Refused(String),
    /// The loop ended before acknowledging the command.
    LoopGone,
}

/// The message of a command that could not be sent.
pub open spec fn queue_closed_message() -> Seq<char> {
    "player command queue is closed"@
}

/// The message of a command the loop never acknowledged because it ended.
pub open spec fn loop_gone_message() -> Seq<char> {
    "player manager stopped"@
}

/// The answer a caller gets for a command: success once it is sent, unless
/// the loop refused it or ended before answering.
pub fn command_result(delivery: CommandDelivery) -> (r: Result<(), String>)
    ensures
        match delivery {
            CommandDelivery::NotSent => r matches Err(m) && m@ == queue_closed_message(),
            CommandDelivery::Acknowledged => r is Ok,
            CommandDelivery::Pending => r is Ok,
            CommandDelivery::Refused(e) => r matches Err(m) && m@ == e@,
            CommandDelivery::LoopGone => r matches Err(m) && m@ == loop_gone_message(),
        },
{
    match delivery {
        CommandDelivery::NotSent => Err(String::from_str("player command queue is closed")),
        CommandDelivery::Acknowledged => Ok(()),
        CommandDelivery::Pending => Ok(()),
        CommandDelivery::Refused(e) => Err(e),
        CommandDelivery::LoopGone => Err(String::from_str("player manager stopped")),
    }
}

/// A request to the player. `Finished` reports that the decoder with the
/// given id reached the end of its track.
#[derive(Debug)]
pub enum PlayerCommand {
    Play(String, PlayMode),
    Pause,
    Resume,
    Stop,
    Enqueue(String),
    Skip,
    Clear,
    Finished(u64),
    Shutdown,
}

/// What the player loop must do, in order, after a command.
#[derive(Debug)]
pub enum PlayerAction {
    /// Cancel the running decoder.
    CancelDecoder,
    /// Start a decoder for the track, tagged with the id it reports back.
    StartDecoder(String, u64),
    /// Gate (or release) the running decoder's output.
    SetPaused(bool),
    /// Acknowledge the command.
    Reply,
    /// Leave the player loop.
    Exit,
}

/// The player's bookkeeping, as the contracts see it.
pub struct PlayerView {
    pub current: Option<String>,
    pub queue: Seq<String>,
    pub generation: u64,
    pub current_generation: Option<u64>,
    pub decoding: bool,
    pub gate: Option<bool>,
    pub status: PlayerStatus,
}

/// The player's bookkeeping. `decoding` says a decoder is running (and can
/// be cancelled); `gate` is the pause flag of the latest decoder, while it
/// exists.
pub struct PlayerState {
    pub current: Option<String>,
    pub queue: Vec<String>,
    pub generation: u64,
    pub current_generation: Option<u64>,
    pub decoding: bool,
    pub gate: Option<bool>,
    pub status: PlayerStatus,
}

impl View for PlayerState {
    type V = PlayerView;

    open spec fn view(&self) -> PlayerView {
        PlayerView {
            current: self.current,
            queue: self.queue@,
            generation: self.generation,
            current_generation: self.current_generation,
            decoding: self.decoding,
            gate: self.gate,
            status: self.status,
        }
    }
}

/// The id after `g`, wrapping around at the top of `u64`.
pub open spec fn next_id(g: u64) -> u64 {
    if g == u64::MAX {
        0
    } else {
        (g + 1) as u64
    }
}

/// The state after starting a decoder for `path` with the remaining queue.
pub open spec fn started(s: PlayerView, path: String, queue: Seq<String>) -> PlayerView {
    PlayerView {
        current: Some(path),
        queue: queue,
        generation: next_id(s.generation),
        current_generation: Some(next_id(s.generation)),
        decoding: true,
        gate: Some(false),
        status: PlayerStatus::Playing,
    }
}

pub open spec fn cancel_if_decoding(s: PlayerView) -> Seq<PlayerAction> {
    if s.decoding {
        seq![PlayerAction::CancelDecoder]
    } else {
        seq![]
    }
}

/// The next state and the actions for a command.
pub open spec fn player_step(s: PlayerView, c: PlayerCommand) -> (PlayerView, Seq<PlayerAction>) {
    match c {
        PlayerCommand::Play(path, mode) => {
            if mode == PlayMode::Queue && s.current is Some {
                (PlayerView { queue: s.queue.push(path), ..s }, seq![PlayerAction::Reply])
            } else {
                let interrupting = mode == PlayMode::Interrupt;
                let queue = if interrupting {
                    match s.current {
                        Some(active) => s.queue.insert(0, active),
                        None => s.queue,
                    }
                } else {
                    Seq::empty()
                };
                (
                    started(s, path, queue),
                    cancel_if_decoding(s) + seq![
                        PlayerAction::StartDecoder(path, next_id(s.generation)),
                        PlayerAction::Reply,
                    ],
                )
            }
        },
        PlayerCommand::Pause => (
            PlayerView {
                gate: if s.gate is Some { Some(true) } else { None },
                status: PlayerStatus::Paused,
                ..s
            },
            if s.gate is Some {
                seq![PlayerAction::SetPaused(true), PlayerAction::Reply]
            } else {
                seq![PlayerAction::Reply]
            },
        ),
        PlayerCommand::Resume => (
            PlayerView {
                gate: if s.gate is Some { Some(false) } else { None },
                status: PlayerStatus::Playing,
                ..s
            },
            if s.gate is Some {
                seq![PlayerAction::SetPaused(false), PlayerAction::Reply]
            } else {
                seq![PlayerAction::Reply]
            },
        ),
        PlayerCommand::Stop => (
            PlayerView {
                current: None,
                queue: Seq::empty(),
                current_generation: None,
                decoding: false,
                gate: None,
                status: PlayerStatus::Idle,
                ..s
            },
            cancel_if_decoding(s) + seq![PlayerAction::Reply],
        ),
        PlayerCommand::Enqueue(path) => (
            PlayerView { queue: s.queue.push(path), ..s },
            seq![PlayerAction::Reply],
        ),
        PlayerCommand::Skip => {
            if s.queue.len() > 0 {
                (
                    started(s, s.queue[0], s.queue.drop_first()),
                    cancel_if_decoding(s) + seq![
                        PlayerAction::StartDecoder(s.queue[0], next_id(s.generation)),
                        PlayerAction::Reply,
                    ],
                )
            } else {
                (
                    PlayerView { current: None, decoding: false, status: PlayerStatus::Idle, ..s },
                    cancel_if_decoding(s) + seq![PlayerAction::Reply],
                )
            }
        },
        PlayerCommand::Clear => (PlayerView { queue: Seq::empty(), ..s }, seq![PlayerAction::Reply]),
        PlayerCommand::Finished(id) => {
            if s.current_generation != Some(id) {
                (s, seq![])
            } else if s.queue.len() > 0 {
                (
                    started(s, s.queue[0], s.queue.drop_first()),
                    seq![PlayerAction::StartDecoder(s.queue[0], next_id(s.generation))],
                )
            } else {
                (
                    PlayerView {
                        current: None,
                        current_generation: None,
                        decoding: false,
                        gate: None,
                        status: PlayerStatus::Idle,
                        ..s
                    },
                    seq![],
                )
            }
        },
        PlayerCommand::Shutdown => (s, seq![PlayerAction::Exit]),
    }
}

/// Bookkeeping that every command keeps: a running decoder is the one of the
/// current track and carries the latest id.
pub open spec fn player_wf(s: PlayerView) -> bool {
    s.decoding ==> {
        &&& s.current is Some
        &&& s.current_generation == Some(s.generation)
        &&& s.gate is Some
    }
}

fn bump(g: u64) -> (r: u64)
    ensures
        r == next_id(g),
{
    if g == u64::MAX {
        0
    } else {
        g + 1
    }
}

impl PlayerState {
    /// A player with nothing to play.
    pub fn new() -> (r: Self)
        ensures
            r@.current is None,
            r@.queue.len() == 0,
            r@.generation == 0,
            r@.current_generation is None,
            !r@.decoding,
            r@.gate is None,
            r@.status == PlayerStatus::Idle,
    {
        PlayerState {
            current: None,
            queue: Vec::new(),
            generation: 0,
            current_generation: None,
            decoding: false,
            gate: None,
            status: PlayerStatus::Idle,
        }
    }

    fn start(&mut self, path: String, actions: &mut Vec<PlayerAction>)
        ensures
            final(self)@ == started(old(self)@, path, old(self)@.queue),
            final(actions)@ == old(actions)@.push(
                PlayerAction::StartDecoder(path, next_id(old(self)@.generation)),
            ),
    {
        let id = bump(self.generation);
        self.generation = id;
        self.current = Some(path.clone());
        self.current_generation = Some(id);
        self.decoding = true;
        self.gate = Some(false);
        self.status = PlayerStatus::Playing;
        actions.push(PlayerAction::StartDecoder(path, id));
    }

    fn cancel(&mut self, actions: &mut Vec<PlayerAction>)
        ensures
            final(self)@ == (PlayerView { decoding: false, ..old(self)@ }),
            final(actions)@ == old(actions)@ + cancel_if_decoding(old(self)@),
    {
        if self.decoding {
            actions.push(PlayerAction::CancelDecoder);
            self.decoding = false;
        } else {
            assert(old(actions)@ + cancel_if_decoding(old(self)@) =~= old(actions)@);
        }
    }

    /// Applies a command: the new bookkeeping and the actions are those of
    /// `player_step`.
    pub fn handle(&mut self, cmd: PlayerCommand) -> (actions: Vec<PlayerAction>)
        ensures
            final(self)@ == player_step(old(self)@, cmd).0,
            actions@ == player_step(old(self)@, cmd).1,
    {
        let ghost s = self@;
        let mut actions: Vec<PlayerAction> = Vec::new();
        match cmd {
            PlayerCommand::Play(path, mode) => {
                let queueing = match mode {
                    PlayMode::Queue => true,
                    _ => false,
                };
                if queueing && self.current.is_some() {
                    self.queue.push(path);
                    actions.push(PlayerAction::Reply);
                } else {
                    let interrupting = match mode {
                        PlayMode::Interrupt => true,
                        _ => false,
                    };
                    if interrupting {
                        match &self.current {
                            Some(active) => {
                                let a = active.clone();
                                self.queue.insert(0, a);
                            },
                            None => {},
                        }
                    } else {
                        self.queue.clear();
                    }
                    let ghost q = self.queue@;
                    self.cancel(&mut actions);
                    self.start(path, &mut actions);
                    actions.push(PlayerAction::Reply);
                    assert(actions@ =~= player_step(s, cmd).1);
                    assert(self@.queue =~= player_step(s, cmd).0.queue);
                }
            },
            PlayerCommand::Pause => {
                if let Some(_) = self.gate {
                    self.gate = Some(true);
                    actions.push(PlayerAction::SetPaused(true));
                }
                self.status = PlayerStatus::Paused;
                actions.push(PlayerAction::Reply);
                assert(actions@ =~= player_step(s, cmd).1);
            },
            PlayerCommand::Resume => {
                if let Some(_) = self.gate {
                    self.gate = Some(false);
                    actions.push(PlayerAction::SetPaused(false));
                }
                self.status = PlayerStatus::Playing;
                actions.push(PlayerAction::Reply);
                assert(actions@ =~= player_step(s, cmd).1);
            },
            PlayerCommand::Stop => {
                self.cancel(&mut actions);
                self.current = None;
                self.queue.clear();
                self.status = PlayerStatus::Idle;
                self.gate = None;
                self.current_generation = None;
                actions.push(PlayerAction::Reply);
                assert(actions@ =~= player_step(s, cmd).1);
                assert(self@.queue =~= player_step(s, cmd).0.queue);
            },
            PlayerCommand::Enqueue(path) => {
                self.queue.push(path);
                actions.push(PlayerAction::Reply);
                assert(actions@ =~= player_step(s, cmd).1);
            },
            PlayerCommand::Skip => {
                self.cancel(&mut actions);
                if self.queue.len() > 0 {
                    let next = self.queue.remove(0);
                    assert(self.queue@ =~= s.queue.drop_first());
                    self.start(next, &mut actions);
                } else {
                    self.current = None;
                    self.status = PlayerStatus::Idle;
                }
                actions.push(PlayerAction::Reply);
                assert(actions@ =~= player_step(s, cmd).1);
            },
            PlayerCommand::Clear => {
                self.queue.clear();
                actions.push(PlayerAction::Reply);
                assert(actions@ =~= player_step(s, cmd).1);
                assert(self@.queue =~= player_step(s, cmd).0.queue);
            },
            PlayerCommand::Finished(id) => {
                let matches_current = match self.current_generation {
                    Some(g) => g == id,
                    None => false,
                };
                if matches_current {
                    self.decoding = false;
                    self.gate = None;
                    if self.queue.len() > 0 {
                        let next = self.queue.remove(0);
                        assert(self.queue@ =~= s.queue.drop_first());
                        self.start(next, &mut actions);
                    } else {
                        self.current = None;
                        self.current_generation = None;
                        self.status = PlayerStatus::Idle;
                    }
                }
                assert(actions@ =~= player_step(s, cmd).1);
            },
            PlayerCommand::Shutdown => {
                actions.push(PlayerAction::Exit);
                assert(actions@ =~= player_step(s, cmd).1);
            },
        }
        actions
    }
}

/// Every command keeps the bookkeeping consistent: a running decoder is the
/// one of the current track and carries the latest id.
pub proof fn lemma_player_step_keeps_wf(s: PlayerView, c: PlayerCommand)
    requires
        player_wf(s),
    ensures
        player_wf(player_step(s, c).0),
{
}

/// Stop empties the player: no track, no queue, no decoder, idle, and the
/// running decoder (if any) is cancelled.
pub proof fn lemma_stop_empties(s: PlayerView)
    ensures
        player_step(s, PlayerCommand::Stop).0.current is None,
        player_step(s, PlayerCommand::Stop).0.queue.len() == 0,
        !player_step(s, PlayerCommand::Stop).0.decoding,
        player_step(s, PlayerCommand::Stop).0.status == PlayerStatus::Idle,
        s.decoding ==> player_step(s, PlayerCommand::Stop).1[0] == PlayerAction::CancelDecoder,
{
}

/// A finished notice from a decoder that is no longer the latest changes
/// nothing and asks for nothing.
pub proof fn lemma_stale_finish_ignored(s: PlayerView, id: u64)
    requires
        s.current_generation != Some(id),
    ensures
        player_step(s, PlayerCommand::Finished(id)).0 == s,
        player_step(s, PlayerCommand::Finished(id)).1.len() == 0,
{
}

/// Enqueueing appends to the queue and leaves the current track and the
/// decoder alone.
pub proof fn lemma_enqueue_appends(s: PlayerView, path: String)
    ensures
        player_step(s, PlayerCommand::Enqueue(path)).0.queue == s.queue.push(path),
        player_step(s, PlayerCommand::Enqueue(path)).0.current == s.current,
        player_step(s, PlayerCommand::Enqueue(path)).0.decoding == s.decoding,
{
}

/// Playing in queue mode while a track is current only appends to the queue.
pub proof fn lemma_queue_mode_appends_while_playing(s: PlayerView, path: String)
    requires
        s.current is Some,
    ensures
        player_step(s, PlayerCommand::Play(path, PlayMode::Queue)).0 == (PlayerView { queue: s.queue.push(path), ..s }),
        player_step(s, PlayerCommand::Play(path, PlayMode::Queue)).1 == seq![PlayerAction::Reply],
{
}

/// Interrupting plays the new track at once and puts the interrupted one at
/// the head of the queue, ahead of what was queued.
pub proof fn lemma_interrupt_resumes_previous(s: PlayerView, path: String, active: String)
    requires
        s.current == Some(active),
    ensures
        player_step(s, PlayerCommand::Play(path, PlayMode::Interrupt)).0.current == Some(path),
        player_step(s, PlayerCommand::Play(path, PlayMode::Interrupt)).0.queue == seq![active] + s.queue,
{
    assert(s.queue.insert(0, active) =~= seq![active] + s.queue);
}

/// A replacing play drops the queue and starts the new track under a fresh id.
pub proof fn lemma_replace_starts_fresh(s: PlayerView, path: String)
    ensures
        player_step(s, PlayerCommand::Play(path, PlayMode::Replace)).0.queue.len() == 0,
        player_step(s, PlayerCommand::Play(path, PlayMode::Replace)).0.current == Some(path),
        player_step(s, PlayerCommand::Play(path, PlayMode::Replace)).0.current_generation == Some(next_id(s.generation)),
        player_step(s, PlayerCommand::Play(path, PlayMode::Replace)).1.contains(PlayerAction::StartDecoder(path, next_id(s.generation))),
{
    let acts = player_step(s, PlayerCommand::Play(path, PlayMode::Replace)).1;
    if s.decoding {
        assert(acts[1] == PlayerAction::StartDecoder(path, next_id(s.generation)));
    } else {
        assert(acts[0] == PlayerAction::StartDecoder(path, next_id(s.generation)));
    }
}

/// When the current track ends, the head of the queue plays next; with an
/// empty queue the player goes idle.
pub proof fn lemma_finish_advances_queue(s: PlayerView, id: u64)
    requires
        s.current_generation == Some(id),
    ensures
        s.queue.len() > 0 ==> player_step(s, PlayerCommand::Finished(id)).0.current == Some(s.queue[0])
            && player_step(s, PlayerCommand::Finished(id)).0.queue == s.queue.drop_first(),
        s.queue.len() == 0 ==> player_step(s, PlayerCommand::Finished(id)).0.current is None
            && player_step(s, PlayerCommand::Finished(id)).0.status == PlayerStatus::Idle,
{
}

/// Clearing drops every queued track and touches nothing else: the current
/// track, its decoder and its id, the pause gate and the status stay as
/// they were, and the caller is answered.
pub proof fn lemma_clear_empties_queue(s: PlayerView)
    ensures
        player_step(s, PlayerCommand::Clear).0.queue.len() == 0,
        player_step(s, PlayerCommand::Clear).0.current == s.current,
        player_step(s, PlayerCommand::Clear).0.decoding == s.decoding,
        player_step(s, PlayerCommand::Clear).0.generation == s.generation,
        player_step(s, PlayerCommand::Clear).0.current_generation == s.current_generation,
        player_step(s, PlayerCommand::Clear).0.gate == s.gate,
        player_step(s, PlayerCommand::Clear).0.status == s.status,
        player_step(s, PlayerCommand::Clear).1 == seq![PlayerAction::Reply],
{
}

/// A cleared queue is not played: when the current track ends after a
/// clear, nothing plays next and the player goes idle.
pub proof fn lemma_cleared_queue_not_played(s: PlayerView, id: u64)
    requires
        s.current_generation == Some(id),
    ensures
        player_step(player_step(s, PlayerCommand::Clear).0, PlayerCommand::Finished(id)).0.current is None,
        player_step(player_step(s, PlayerCommand::Clear).0, PlayerCommand::Finished(id)).0.status == PlayerStatus::Idle,
{
    lemma_clear_empties_queue(s);
    lemma_finish_advances_queue(player_step(s, PlayerCommand::Clear).0, id);
}

} // verus!

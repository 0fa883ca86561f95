//! Carrying out an action as an exchange with the mixer or the players.
//!
//! The library decides and the caller acts. [`start`] gives the first command
//! for an action. The caller carries the command out and hands what came of it
//! to [`advance`], which gives the next command or the end of the exchange.
//! A reply of another kind than the command calls for counts as a failure of
//! the command.

use crate::keys::Action;
use crate::mixer::{mute_calls, mute_plan, volume_calls, volume_plan, Direction, MixerCall, SinkInfo};
use crate::select::{
    name_views,
    remembered,
    select,
    selection,
    unasked,
    unasked_views,
    views,
    Candidate,
    CandidateView,
    PlaybackStatus,
    SelectionError,
    SelectorState,
};
use vstd::prelude::*;

verus! {

/// What a player can be told to do.
#[derive(Clone, Copy, Debug, PartialEq, Eq, Structural)]
pub enum TransportCommand {
    PlayPause,
    Stop,
    Next,
    Previous,
}

/// What the mixer can be asked for.
#[derive(Clone, Copy, Debug, PartialEq, Eq, Structural)]
pub enum MixerAction {
    ToggleMute,
    Step(Direction),
}

/// The collaborator that an action goes to, with what it is asked for.
#[derive(Clone, Copy, Debug, PartialEq, Eq, Structural)]
pub enum Route {
    Mixer(MixerAction),
    Player(TransportCommand),
}

/// Why an action was not carried out.
#[derive(Clone, Copy, Debug, PartialEq, Eq, Structural)]
pub enum DispatchError {
    /// No player could be settled on.
    Selection(SelectionError),
    /// The mixer did not answer.
    MixerUnavailable,
    /// The player did not take the command.
    TransportCommandFailed,
}

/// What the caller is to do next.
#[derive(Clone, Copy, Debug, PartialEq, Eq, Structural)]
pub enum Command {
    /// Ask the mixer for its default sink.
    QuerySink,
    /// Make this call on the mixer.
    Mixer(MixerCall),
    /// List the running players.
    FindPlayers,
    /// Ask the player at this position of the list for its playback status.
    QueryStatus { player: usize },
    /// Send the player at this position of the list this command.
    Transport { player: usize, command: TransportCommand },
}

/// What came of the last command.
#[derive(Clone, Debug, PartialEq, Eq)]
pub enum Reply {
    /// The default sink.
    Sink(SinkInfo),
    /// The unique names of the running players, in the order of the list.
    Players(Vec<String>),
    /// The playback status asked for.
    Status(PlaybackStatus),
    /// The command was carried out and has nothing to tell.
    Done,
    /// The command failed.
    Failed,
}

/// A [`Reply`] with names as sequences of characters.
pub enum ReplyView {
    Sink(SinkInfo),
    Players(Seq<Seq<char>>),
    Status(PlaybackStatus),
    Done,
    Failed,
}

impl View for Reply {
    type V = ReplyView;

    open spec fn view(&self) -> ReplyView {
        match self {
            Reply::Sink(sink) => ReplyView::Sink(*sink),
            Reply::Players(names) => ReplyView::Players(name_views(names@)),
            Reply::Status(status) => ReplyView::Status(*status),
            Reply::Done => ReplyView::Done,
            Reply::Failed => ReplyView::Failed,
        }
    }
}

/// An exchange under way: which command is out, and what is kept for the
/// steps after it.
#[derive(Clone, Debug, PartialEq, Eq)]
pub enum Dispatch {
    /// The default sink was asked for.
    AwaitSink { action: MixerAction },
    /// Call `sent` of `calls` is out.
    Mixing { calls: Vec<MixerCall>, sent: usize },
    /// The list of players was asked for.
    AwaitPlayers { command: TransportCommand },
    /// Several players are running, and player `asked` was asked for its
    /// status; the players before it hold what they answered.
    Gathering { command: TransportCommand, players: Vec<Candidate>, asked: usize },
    /// The chosen player was asked for its status before a change of track;
    /// the command follows whatever it answers.
    Guarding { command: TransportCommand, player: usize },
    /// The transport command is out.
    Sending,
}

/// A [`Dispatch`] over sequences.
pub enum DispatchView {
    AwaitSink { action: MixerAction },
    Mixing { calls: Seq<MixerCall>, sent: usize },
    AwaitPlayers { command: TransportCommand },
    Gathering { command: TransportCommand, players: Seq<CandidateView>, asked: usize },
    Guarding { command: TransportCommand, player: usize },
    Sending,
}

impl View for Dispatch {
    type V = DispatchView;

    open spec fn view(&self) -> DispatchView {
        match self {
            Dispatch::AwaitSink { action } => DispatchView::AwaitSink { action: *action },
            Dispatch::Mixing { calls, sent } => DispatchView::Mixing { calls: calls@, sent: *sent },
            Dispatch::AwaitPlayers { command } => DispatchView::AwaitPlayers { command: *command },
            Dispatch::Gathering { command, players, asked } => DispatchView::Gathering {
                command: *command,
                players: views(players@),
                asked: *asked,
            },
            Dispatch::Guarding { command, player } => DispatchView::Guarding {
                command: *command,
                player: *player,
            },
            Dispatch::Sending => DispatchView::Sending,
        }
    }
}

/// Where an exchange stands after a step: at its next command, or at its end.
#[derive(Debug, PartialEq, Eq)]
pub enum Progress {
    Next(Dispatch, Command),
    Finished(Result<(), DispatchError>),
}

/// A [`Progress`] over sequences.
pub enum ProgressView {
    Next(DispatchView, Command),
    Finished(Result<(), DispatchError>),
}

impl View for Progress {
    type V = ProgressView;

    open spec fn view(&self) -> ProgressView {
        match self {
            Progress::Next(dispatch, command) => ProgressView::Next(dispatch@, *command),
            Progress::Finished(result) => ProgressView::Finished(*result),
        }
    }
}

/// Where each action goes.
pub open spec fn route_of(action: Action) -> Route {
    match action {
        Action::Mute => Route::Mixer(MixerAction::ToggleMute),
        Action::VolumeUp => Route::Mixer(MixerAction::Step(Direction::Up)),
        Action::VolumeDown => Route::Mixer(MixerAction::Step(Direction::Down)),
        Action::NextTrack => Route::Player(TransportCommand::Next),
        Action::PreviousTrack => Route::Player(TransportCommand::Previous),
        Action::PlayPause => Route::Player(TransportCommand::PlayPause),
        Action::Stop => Route::Player(TransportCommand::Stop),
    }
}

/// The exchange that an action opens, and its first command.
pub open spec fn started(action: Action) -> (DispatchView, Command) {
    match route_of(action) {
        Route::Mixer(action) => (DispatchView::AwaitSink { action }, Command::QuerySink),
        Route::Player(command) => (DispatchView::AwaitPlayers { command }, Command::FindPlayers),
    }
}

/// The calls that a mixer action makes on `sink`.
pub open spec fn mixer_plan(sink: SinkInfo, action: MixerAction) -> Seq<MixerCall> {
    match action {
        MixerAction::ToggleMute => mute_plan(sink),
        MixerAction::Step(direction) => volume_plan(sink, direction),
    }
}

/// The step that sends call `k` of `calls`, or ends the exchange where the
/// calls are through.
pub open spec fn issued(calls: Seq<MixerCall>, k: int) -> ProgressView {
    if 0 <= k < calls.len() {
        ProgressView::Next(
            DispatchView::Mixing { calls, sent: k as usize },
            Command::Mixer(calls[k]),
        )
    } else {
        ProgressView::Finished(Ok(()))
    }
}

/// Whether a command changes the track.
pub open spec fn changes_track(command: TransportCommand) -> bool {
    command == TransportCommand::Next || command == TransportCommand::Previous
}

/// The step after `player` is chosen: before a change of track the player is
/// asked for its status, which decides nothing; any other command is sent at
/// once.
pub open spec fn after_choice(command: TransportCommand, player: usize) -> ProgressView {
    if changes_track(command) {
        ProgressView::Next(
            DispatchView::Guarding { command, player },
            Command::QueryStatus { player },
        )
    } else {
        ProgressView::Next(DispatchView::Sending, Command::Transport { player, command })
    }
}

/// The step that selects among `players`.
pub open spec fn settled(
    command: TransportCommand,
    players: Seq<CandidateView>,
    last_active: Option<Seq<char>>,
) -> ProgressView {
    match selection(players, last_active) {
        Ok(player) => after_choice(command, player),
        Err(error) => ProgressView::Finished(Err(DispatchError::Selection(error))),
    }
}

/// The status that a reply tells, if it tells one.
pub open spec fn status_told(reply: ReplyView) -> Option<PlaybackStatus> {
    match reply {
        ReplyView::Status(status) => Some(status),
        _ => None,
    }
}

/// The players once player `asked` has answered with `status`.
pub open spec fn answered(
    players: Seq<CandidateView>,
    asked: usize,
    status: Option<PlaybackStatus>,
) -> Seq<CandidateView> {
    if asked < players.len() {
        players.update(asked as int, CandidateView { name: players[asked as int].name, status })
    } else {
        players
    }
}

/// The step that a reply leads to, and what the selector remembers after it.
///
/// * The sink that was asked for opens the calls of the mixer action, which
///   go out one after the other; the exchange ends well when the last is
///   done.
/// * A list of fewer than two players is selected from at once. With two or
///   more, each player is asked for its status in turn, and the selection is
///   made when the last has answered; a player that fails to answer has no
///   known status.
/// * Before a change of track the chosen player is asked for its status. The
///   command is sent whatever comes of that, a status or none.
/// * The exchange ends well when the player has taken the command.
/// * Any other failure ends the exchange with the error of the collaborator
///   that failed.
pub open spec fn advanced(
    dispatch: DispatchView,
    reply: ReplyView,
    last_active: Option<Seq<char>>,
) -> (ProgressView, Option<Seq<char>>) {
    match dispatch {
        DispatchView::AwaitSink { action } => match reply {
            ReplyView::Sink(sink) => (issued(mixer_plan(sink, action), 0), last_active),
            _ => (ProgressView::Finished(Err(DispatchError::MixerUnavailable)), last_active),
        },
        DispatchView::Mixing { calls, sent } => match reply {
            ReplyView::Done => (issued(calls, sent + 1), last_active),
            _ => (ProgressView::Finished(Err(DispatchError::MixerUnavailable)), last_active),
        },
        DispatchView::AwaitPlayers { command } => match reply {
            ReplyView::Players(names) => if names.len() >= 2 {
                (
                    ProgressView::Next(
                        DispatchView::Gathering { command, players: unasked_views(names), asked: 0 },
                        Command::QueryStatus { player: 0 },
                    ),
                    last_active,
                )
            } else {
                (
                    settled(command, unasked_views(names), last_active),
                    remembered(unasked_views(names), last_active),
                )
            },
            _ => (
                ProgressView::Finished(
                    Err(DispatchError::Selection(SelectionError::PlayerDiscoveryFailed)),
                ),
                last_active,
            ),
        },
        DispatchView::Gathering { command, players, asked } => {
            let players = answered(players, asked, status_told(reply));
            if asked + 1 < players.len() {
                (
                    ProgressView::Next(
                        DispatchView::Gathering { command, players, asked: (asked + 1) as usize },
                        Command::QueryStatus { player: (asked + 1) as usize },
                    ),
                    last_active,
                )
            } else {
                (settled(command, players, last_active), remembered(players, last_active))
            }
        },
        DispatchView::Guarding { command, player } => (
            ProgressView::Next(DispatchView::Sending, Command::Transport { player, command }),
            last_active,
        ),
        DispatchView::Sending => match reply {
            ReplyView::Done => (ProgressView::Finished(Ok(())), last_active),
            _ => (ProgressView::Finished(Err(DispatchError::TransportCommandFailed)), last_active),
        },
    }
}

impl DispatchError {
    /// The words that describe the error.
    pub open spec fn text(self) -> Seq<char> {
        match self {
            DispatchError::Selection(error) => match error {
                SelectionError::PlayerDiscoveryFailed => "can't find all players"@,
                SelectionError::NoPlayerFound => "No player found!"@,
                SelectionError::StatusQueryFailed => "Can't get playback status"@,
            },
            DispatchError::MixerUnavailable => "controller error"@,
            DispatchError::TransportCommandFailed => "transport command failed"@,
        }
    }

    /// Describes the error in words.
    pub fn message(&self) -> (text: String)
        ensures
            text@ == self.text(),
    {
        match self {
            DispatchError::Selection(error) => match error {
                SelectionError::PlayerDiscoveryFailed => "can't find all players".to_owned(),
                SelectionError::NoPlayerFound => "No player found!".to_owned(),
                SelectionError::StatusQueryFailed => "Can't get playback status".to_owned(),
            },
            DispatchError::MixerUnavailable => "controller error".to_owned(),
            DispatchError::TransportCommandFailed => "transport command failed".to_owned(),
        }
    }
}

/// Where an action goes.
pub fn route(action: Action) -> (way: Route)
    ensures
        way == route_of(action),
{
    match action {
        Action::Mute => Route::Mixer(MixerAction::ToggleMute),
        Action::VolumeUp => Route::Mixer(MixerAction::Step(Direction::Up)),
        Action::VolumeDown => Route::Mixer(MixerAction::Step(Direction::Down)),
        Action::NextTrack => Route::Player(TransportCommand::Next),
        Action::PreviousTrack => Route::Player(TransportCommand::Previous),
        Action::PlayPause => Route::Player(TransportCommand::PlayPause),
        Action::Stop => Route::Player(TransportCommand::Stop),
    }
}

/// Opens the exchange for an action and gives its first command: the mute
/// and volume keys ask the mixer for its default sink, the other keys ask for
/// the list of players.
pub fn start(action: Action) -> (opened: (Dispatch, Command))
    ensures
        opened.0@ == started(action).0,
        opened.1 == started(action).1,
{
    match route(action) {
        Route::Mixer(action) => (Dispatch::AwaitSink { action }, Command::QuerySink),
        Route::Player(command) => (Dispatch::AwaitPlayers { command }, Command::FindPlayers),
    }
}

/// Sends call `k` of `calls`, or ends the exchange where the calls are
/// through.
fn issue(calls: Vec<MixerCall>, k: usize) -> (progress: Progress)
    ensures
        progress@ == issued(calls@, k as int),
{
    if k < calls.len() {
        let call = calls[k];
        Progress::Next(Dispatch::Mixing { calls, sent: k }, Command::Mixer(call))
    } else {
        Progress::Finished(Ok(()))
    }
}

/// Selects among `players` and gives the step that follows.
fn settle(
    command: TransportCommand,
    players: &Vec<Candidate>,
    selector: &mut SelectorState,
) -> (progress: Progress)
    ensures
        progress@ == settled(command, views(players@), old(selector)@),
        final(selector)@ == remembered(views(players@), old(selector)@),
{
    match select(players, selector) {
        Ok(player) => match command {
            TransportCommand::Next | TransportCommand::Previous => Progress::Next(
                Dispatch::Guarding { command, player },
                Command::QueryStatus { player },
            ),
            _ => Progress::Next(Dispatch::Sending, Command::Transport { player, command }),
        },
        Err(error) => Progress::Finished(Err(DispatchError::Selection(error))),
    }
}

/// Takes in what came of the command that is out and gives the next step of
/// the exchange. The selector's memory changes where the step selects among
/// several players, and nowhere else.
pub fn advance(dispatch: Dispatch, reply: Reply, selector: &mut SelectorState) -> (progress: Progress)
    ensures
        progress@ == advanced(dispatch@, reply@, old(selector)@).0,
        final(selector)@ == advanced(dispatch@, reply@, old(selector)@).1,
{
    match dispatch {
        Dispatch::AwaitSink { action } => match reply {
            Reply::Sink(sink) => {
                let calls = match action {
                    MixerAction::ToggleMute => mute_calls(sink),
                    MixerAction::Step(direction) => volume_calls(sink, direction),
                };
                issue(calls, 0)
            },
            _ => Progress::Finished(Err(DispatchError::MixerUnavailable)),
        },
        Dispatch::Mixing { calls, sent } => match reply {
            Reply::Done => {
                if sent < usize::MAX {
                    issue(calls, sent + 1)
                } else {
                    Progress::Finished(Ok(()))
                }
            },
            _ => Progress::Finished(Err(DispatchError::MixerUnavailable)),
        },
        Dispatch::AwaitPlayers { command } => match reply {
            Reply::Players(names) => {
                let players = unasked(&names);
                if players.len() >= 2 {
                    Progress::Next(
                        Dispatch::Gathering { command, players, asked: 0 },
                        Command::QueryStatus { player: 0 },
                    )
                } else {
                    settle(command, &players, selector)
                }
            },
            _ => Progress::Finished(
                Err(DispatchError::Selection(SelectionError::PlayerDiscoveryFailed)),
            ),
        },
        Dispatch::Gathering { command, players, asked } => {
            let status = match reply {
                Reply::Status(status) => Some(status),
                _ => None,
            };
            let mut players = players;
            if asked < players.len() {
                let name = players[asked].name.clone();
                players.set(asked, Candidate { name, status });
            }
            assert(views(players@) =~= answered(
                views(dispatch->Gathering_players@),
                asked,
                status_told(reply@),
            ));
            if asked < players.len() && asked + 1 < players.len() {
                Progress::Next(
                    Dispatch::Gathering { command, players, asked: asked + 1 },
                    Command::QueryStatus { player: asked + 1 },
                )
            } else {
                settle(command, &players, selector)
            }
        },
        Dispatch::Guarding { command, player } => Progress::Next(
            Dispatch::Sending,
            Command::Transport { player, command },
        ),
        Dispatch::Sending => match reply {
            Reply::Done => Progress::Finished(Ok(())),
            _ => Progress::Finished(Err(DispatchError::TransportCommandFailed)),
        },
    }
}

} // verus!

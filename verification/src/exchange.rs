//! Whole exchanges: the commands that an action draws out, reply by reply,
//! and how the exchange ends.
//!
//! Nothing here runs. [`run`] follows [`advanced`] along a sequence of
//! replies, and the lemmas state what that gives for the exchanges that the
//! mixer and the players allow.

use crate::dispatch::{
    advanced,
    after_choice,
    answered,
    changes_track,
    mixer_plan,
    route_of,
    started,
    status_told,
    Command,
    DispatchError,
    DispatchView,
    ProgressView,
    ReplyView,
    TransportCommand,
};
use crate::keys::Action;
use crate::mixer::{step_call, unmute_call, Direction, SinkInfo};
use crate::select::{
    chosen_among,
    lemma_selection_in_range,
    selection,
    unasked_views,
    CandidateView,
    PlaybackStatus,
    SelectionError,
};
use vstd::prelude::*;

verus! {

/// An exchange as far as it has come.
pub struct Run {
    /// The commands given so far, the first one first.
    pub commands: Seq<Command>,
    /// Where the exchange stands.
    pub progress: ProgressView,
    /// What the selector remembers.
    pub last_active: Option<Seq<char>>,
}

/// The exchange for `action` after the first `n` of `replies`. Replies that
/// come after the end of the exchange count for nothing.
pub open spec fn run_upto(
    action: Action,
    replies: Seq<ReplyView>,
    last_active: Option<Seq<char>>,
    n: nat,
) -> Run
    decreases n,
{
    if n == 0 {
        Run {
            commands: seq![started(action).1],
            progress: ProgressView::Next(started(action).0, started(action).1),
            last_active,
        }
    } else {
        let before = run_upto(action, replies, last_active, (n - 1) as nat);
        match before.progress {
            ProgressView::Next(dispatch, _) => {
                let step = advanced(dispatch, replies[n - 1], before.last_active);
                Run {
                    commands: match step.0 {
                        ProgressView::Next(_, command) => before.commands.push(command),
                        ProgressView::Finished(_) => before.commands,
                    },
                    progress: step.0,
                    last_active: step.1,
                }
            },
            ProgressView::Finished(_) => before,
        }
    }
}

/// The exchange for `action` after all of `replies`.
pub open spec fn run(action: Action, replies: Seq<ReplyView>, last_active: Option<Seq<char>>) -> Run {
    run_upto(action, replies, last_active, replies.len())
}

/// The reply that carries a player's answer to a status query: the status,
/// or the failure to tell it.
pub open spec fn status_reply(answer: Option<PlaybackStatus>) -> ReplyView {
    match answer {
        Some(status) => ReplyView::Status(status),
        None => ReplyView::Failed,
    }
}

/// The players of the given names once the first `k` of them have answered.
pub open spec fn players_after(
    names: Seq<Seq<char>>,
    answers: Seq<Option<PlaybackStatus>>,
    k: int,
) -> Seq<CandidateView> {
    Seq::new(
        names.len(),
        |i: int|
            CandidateView {
                name: names[i],
                status: if i < k {
                    answers[i]
                } else {
                    None
                },
            },
    )
}

/// The status queries to the first `k` players, in the order of the players.
pub open spec fn queries(k: nat) -> Seq<Command> {
    Seq::new(k, |i: int| Command::QueryStatus { player: i as usize })
}

/// The replies of an exchange with the players up to the reply of the player
/// that is sent the command: the list of players, the answer of each player
/// that is asked before the choice, before a change of track the chosen
/// player's answer to the status query, and `taken`, what came of the
/// command.
pub open spec fn player_replies(
    command: TransportCommand,
    names: Seq<Seq<char>>,
    answers: Seq<Option<PlaybackStatus>>,
    guard: Option<PlaybackStatus>,
    taken: ReplyView,
) -> Seq<ReplyView> {
    let gathered = seq![ReplyView::Players(names)] + Seq::new(
        answers.len(),
        |i: int| status_reply(answers[i]),
    );
    if changes_track(command) {
        gathered + seq![status_reply(guard), taken]
    } else {
        gathered + seq![taken]
    }
}

/// How an exchange ends for what came of the transport command: well if the
/// player has taken it, else with the failure of the command.
pub open spec fn ending(taken: ReplyView) -> Result<(), DispatchError> {
    if taken is Done {
        Ok(())
    } else {
        Err(DispatchError::TransportCommandFailed)
    }
}

/// The commands of an exchange that settles on `player` once it is chosen.
pub open spec fn closing_commands(command: TransportCommand, player: usize) -> Seq<Command> {
    if changes_track(command) {
        seq![Command::QueryStatus { player }, Command::Transport { player, command }]
    } else {
        seq![Command::Transport { player, command }]
    }
}

/// A step that fails leaves the selector's memory as it was.
pub proof fn lemma_failure_keeps_memory(
    dispatch: DispatchView,
    reply: ReplyView,
    last_active: Option<Seq<char>>,
)
    ensures
        advanced(dispatch, reply, last_active).0 matches ProgressView::Finished(Err(_))
            ==> advanced(dispatch, reply, last_active).1 == last_active,
{
}

/// A lone player is chosen without being asked for its status: once the list
/// comes with one name, the step is the one that follows the choice of that
/// player, and nothing new is remembered. A command that changes no track
/// goes out at once.
pub proof fn lemma_lone_player_is_not_asked(
    command: TransportCommand,
    name: Seq<char>,
    last_active: Option<Seq<char>>,
)
    ensures
        advanced(
            DispatchView::AwaitPlayers { command },
            ReplyView::Players(seq![name]),
            last_active,
        ) == (after_choice(command, 0), last_active),
        !changes_track(command) ==> advanced(
            DispatchView::AwaitPlayers { command },
            ReplyView::Players(seq![name]),
            last_active,
        ).0 == ProgressView::Next(
            DispatchView::Sending,
            Command::Transport { player: 0, command },
        ),
{
}

/// Once a player is chosen, the command goes to it and to no other, and the
/// exchange ends well exactly when the player has taken it: the status query
/// before a change of track leads to the command whatever comes of it, and
/// what comes of the command ends the exchange. Neither step touches the
/// selector's memory.
pub proof fn lemma_chosen_player_gets_the_command(
    command: TransportCommand,
    player: usize,
    guard: ReplyView,
    taken: ReplyView,
    last_active: Option<Seq<char>>,
)
    ensures
        advanced(DispatchView::Guarding { command, player }, guard, last_active) == (
            ProgressView::Next(DispatchView::Sending, Command::Transport { player, command }),
            last_active,
        ),
        advanced(DispatchView::Sending, taken, last_active) == (
            ProgressView::Finished(ending(taken)),
            last_active,
        ),
        ending(taken) is Ok <==> taken is Done,
{
}

/// No step ends an exchange because a player failed to tell its status.
pub proof fn lemma_status_failure_ends_nothing(
    dispatch: DispatchView,
    reply: ReplyView,
    last_active: Option<Seq<char>>,
)
    ensures
        advanced(dispatch, reply, last_active).0 != ProgressView::Finished(
            Err(DispatchError::Selection(SelectionError::StatusQueryFailed)),
        ),
{
}

/// A transport key with one player running: the players are listed and the
/// command goes to the one there is, before a change of track after one
/// status query to it, whatever comes of the query. No other command is
/// given. The exchange ends well exactly when the player has taken the
/// command, and the selector remembers what it did before.
pub proof fn lemma_lone_player_exchange(
    action: Action,
    name: Seq<char>,
    guard: Option<PlaybackStatus>,
    taken: ReplyView,
    last_active: Option<Seq<char>>,
)
    requires
        route_of(action) is Player,
    ensures
        ({
            let command = route_of(action)->Player_0;
            let end = run(
                action,
                player_replies(command, seq![name], Seq::empty(), guard, taken),
                last_active,
            );
            &&& end.commands == seq![Command::FindPlayers] + closing_commands(command, 0)
            &&& end.progress == ProgressView::Finished(ending(taken))
            &&& end.last_active == last_active
        }),
{
    let command = route_of(action)->Player_0;
    let replies = player_replies(command, seq![name], Seq::empty(), guard, taken);
    reveal_with_fuel(run_upto, 4);
    assert(replies[0] == ReplyView::Players(seq![name]));
    if changes_track(command) {
        assert(replies[1] == status_reply(guard));
        assert(replies[2] == taken);
    } else {
        assert(replies[1] == taken);
    }
    assert(run(action, replies, last_active).commands =~= seq![Command::FindPlayers]
        + closing_commands(command, 0));
}

/// With no player running the exchange ends at once, and nothing new is
/// remembered.
pub proof fn lemma_no_player(command: TransportCommand, last_active: Option<Seq<char>>)
    ensures
        advanced(
            DispatchView::AwaitPlayers { command },
            ReplyView::Players(Seq::empty()),
            last_active,
        ) == (
            ProgressView::Finished(
                Err(DispatchError::Selection(SelectionError::NoPlayerFound)),
            ),
            last_active,
        ),
{
}

/// The mute and volume keys ask for the default sink, make the calls of
/// their plan on it in order, and end well; the selector has no part in it.
pub proof fn lemma_mixer_exchange(
    action: Action,
    sink: SinkInfo,
    last_active: Option<Seq<char>>,
)
    requires
        route_of(action) is Mixer,
    ensures
        ({
            let plan = mixer_plan(sink, route_of(action)->Mixer_0);
            let replies = seq![ReplyView::Sink(sink)] + Seq::new(
                plan.len(),
                |i: int| ReplyView::Done,
            );
            let end = run(action, replies, last_active);
            &&& end.commands == seq![Command::QuerySink] + Seq::new(
                plan.len(),
                |i: int| Command::Mixer(plan[i]),
            )
            &&& end.progress == ProgressView::Finished(Ok(()))
            &&& end.last_active == last_active
        }),
{
    let plan = mixer_plan(sink, route_of(action)->Mixer_0);
    let replies = seq![ReplyView::Sink(sink)] + Seq::new(plan.len(), |i: int| ReplyView::Done);
    reveal_with_fuel(run_upto, 4);
    assert(replies[0] == ReplyView::Sink(sink));
    assert(replies[1] == ReplyView::Done);
    if plan.len() == 2 {
        assert(replies[2] == ReplyView::Done);
    }
    let end = run(action, replies, last_active);
    assert(end.commands =~= seq![Command::QuerySink] + Seq::new(
        plan.len(),
        |i: int| Command::Mixer(plan[i]),
    ));
}

/// Volume-up on a muted sink: after the sink is known, exactly one call
/// takes the mute off, then exactly one raises the volume by one step, and
/// the exchange ends well.
pub proof fn lemma_volume_up_on_muted_sink(sink: SinkInfo, last_active: Option<Seq<char>>)
    requires
        sink.mute,
    ensures
        run(
            Action::VolumeUp,
            seq![ReplyView::Sink(sink), ReplyView::Done, ReplyView::Done],
            last_active,
        ).commands == seq![
            Command::QuerySink,
            Command::Mixer(unmute_call(sink.index)),
            Command::Mixer(step_call(sink.index, Direction::Up)),
        ],
        run(
            Action::VolumeUp,
            seq![ReplyView::Sink(sink), ReplyView::Done, ReplyView::Done],
            last_active,
        ).progress == ProgressView::Finished(Ok(())),
{
    let replies = seq![ReplyView::Sink(sink), ReplyView::Done, ReplyView::Done];
    reveal_with_fuel(run_upto, 4);
    assert(replies[0] == ReplyView::Sink(sink));
    assert(replies[1] == ReplyView::Done);
    assert(replies[2] == ReplyView::Done);
    assert(run(Action::VolumeUp, replies, last_active).commands =~= seq![
        Command::QuerySink,
        Command::Mixer(unmute_call(sink.index)),
        Command::Mixer(step_call(sink.index, Direction::Up)),
    ]);
}

/// While several players are being asked: after the list and the answers of
/// the first `k` players, player `k` is being asked, the players before it
/// hold their answers, and nothing new is remembered.
proof fn lemma_gathering(
    action: Action,
    replies: Seq<ReplyView>,
    names: Seq<Seq<char>>,
    answers: Seq<Option<PlaybackStatus>>,
    last_active: Option<Seq<char>>,
    k: nat,
)
    requires
        route_of(action) is Player,
        2 <= names.len() <= usize::MAX,
        answers.len() == names.len(),
        k < names.len(),
        replies.len() > names.len(),
        replies[0] == ReplyView::Players(names),
        forall|i: int| 0 <= i < names.len() ==> #[trigger] replies[i + 1] == status_reply(answers[i]),
    ensures
        run_upto(action, replies, last_active, k + 1) == (Run {
            commands: seq![Command::FindPlayers] + queries(k + 1),
            progress: ProgressView::Next(
                DispatchView::Gathering {
                    command: route_of(action)->Player_0,
                    players: players_after(names, answers, k as int),
                    asked: k as usize,
                },
                Command::QueryStatus { player: k as usize },
            ),
            last_active,
        }),
    decreases k,
{
    let command = route_of(action)->Player_0;
    if k == 0 {
        reveal_with_fuel(run_upto, 2);
        assert(players_after(names, answers, 0) =~= unasked_views(names));
        assert(run_upto(action, replies, last_active, 1).commands =~= seq![Command::FindPlayers]
            + queries(1));
    } else {
        lemma_gathering(action, replies, names, answers, last_active, (k - 1) as nat);
        let before = run_upto(action, replies, last_active, k);
        let reply = replies[k as int];
        assert(reply == status_reply(answers[k - 1])) by {
            assert(replies[(k - 1) + 1] == status_reply(answers[k - 1]));
        }
        assert(status_told(reply) == answers[k - 1]);
        assert(answered(players_after(names, answers, k - 1), (k - 1) as usize, answers[k - 1])
            =~= players_after(names, answers, k as int));
        assert(before.commands.push(Command::QueryStatus { player: k as usize }) =~= seq![
            Command::FindPlayers,
        ] + queries(k + 1));
    }
}

/// A transport key among several players: the players are listed, each is
/// asked for its status once, in the order of the list, and the command goes
/// to the player that [`selection`] gives for the answers, before a change of
/// track after one more status query to that player, whatever comes of the
/// query. No other command is given. The exchange ends well exactly when the
/// player has taken the command, and either way the selector remembers the
/// name of the chosen player.
pub proof fn lemma_player_exchange(
    action: Action,
    names: Seq<Seq<char>>,
    answers: Seq<Option<PlaybackStatus>>,
    guard: Option<PlaybackStatus>,
    taken: ReplyView,
    last_active: Option<Seq<char>>,
)
    requires
        route_of(action) is Player,
        2 <= names.len() <= usize::MAX,
        answers.len() == names.len(),
    ensures
        ({
            let command = route_of(action)->Player_0;
            let players = players_after(names, answers, names.len() as int);
            let chosen = chosen_among(players, last_active);
            let end = run(
                action,
                player_replies(command, names, answers, guard, taken),
                last_active,
            );
            &&& chosen < names.len()
            &&& selection(players, last_active) == Ok::<usize, SelectionError>(chosen)
            &&& end.commands == seq![Command::FindPlayers] + queries(names.len())
                + closing_commands(command, chosen)
            &&& end.progress == ProgressView::Finished(ending(taken))
            &&& end.last_active == Some(names[chosen as int])
        }),
{
    let command = route_of(action)->Player_0;
    let n = names.len() as int;
    let players = players_after(names, answers, n);
    let chosen = chosen_among(players, last_active);
    let replies = player_replies(command, names, answers, guard, taken);
    lemma_selection_in_range(players, last_active);
    assert forall|i: int| 0 <= i < n implies #[trigger] replies[i + 1] == status_reply(
        answers[i],
    ) by {}
    lemma_gathering(action, replies, names, answers, last_active, (n - 1) as nat);
    let gathered = run_upto(action, replies, last_active, n as nat);
    assert(replies[(n - 1) + 1] == status_reply(answers[n - 1]));
    assert(status_told(replies[n]) == answers[n - 1]);
    assert(answered(players_after(names, answers, n - 1), (n - 1) as usize, answers[n - 1])
        =~= players);
    let chose = run_upto(action, replies, last_active, (n + 1) as nat);
    assert(chose.progress == after_choice(command, chosen));
    assert(chose.last_active == Some(names[chosen as int]));
    if changes_track(command) {
        assert(replies[n + 1] == status_reply(guard));
        assert(replies[n + 2] == taken);
        let guarded = run_upto(action, replies, last_active, (n + 2) as nat);
        assert(guarded.progress == ProgressView::Next(
            DispatchView::Sending,
            Command::Transport { player: chosen, command },
        ));
        let end = run_upto(action, replies, last_active, (n + 3) as nat);
        assert(end.progress == ProgressView::Finished(ending(taken)));
        assert(end.commands =~= seq![Command::FindPlayers] + queries(n as nat) + closing_commands(
            command,
            chosen,
        ));
    } else {
        assert(replies[n + 1] == taken);
        let end = run_upto(action, replies, last_active, (n + 2) as nat);
        assert(end.progress == ProgressView::Finished(ending(taken)));
        assert(end.commands =~= seq![Command::FindPlayers] + queries(n as nat) + closing_commands(
            command,
            chosen,
        ));
    }
}

} // verus!

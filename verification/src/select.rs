//! Choosing the media player that a transport command goes to.
//!
//! The players come in the order in which they were discovered. A lone player
//! is taken as it is. Among several, one that is playing wins; failing that,
//! the only paused one; failing that, the player chosen last time if it is
//! still there, else the first.

use vstd::prelude::*;

verus! {

/// What a player is doing.
#[derive(Clone, Copy, Debug, PartialEq, Eq, Structural)]
pub enum PlaybackStatus {
    Playing,
    Paused,
    Stopped,
}

/// Why no player could be settled on.
#[derive(Clone, Copy, Debug, PartialEq, Eq, Structural)]
pub enum SelectionError {
    /// The players could not be listed.
    PlayerDiscoveryFailed,
    /// No player is running.
    NoPlayerFound,
    /// A player did not tell its status. Such a player counts as stopped, and
    /// a command goes to the chosen player whether it tells its status or
    /// not, so that no selection and no exchange of this library ends with
    /// this error.
    StatusQueryFailed,
}

/// A running player: its unique name and, where it was asked for and given,
/// its playback status.
#[derive(Clone, Debug, PartialEq, Eq)]
pub struct Candidate {
    pub name: String,
    pub status: Option<PlaybackStatus>,
}

/// A [`Candidate`] with its name as a sequence of characters.
pub struct CandidateView {
    pub name: Seq<char>,
    pub status: Option<PlaybackStatus>,
}

impl View for Candidate {
    type V = CandidateView;

    open spec fn view(&self) -> CandidateView {
        CandidateView { name: self.name@, status: self.status }
    }
}

/// The views of a list of candidates, in the same order.
pub open spec fn views(players: Seq<Candidate>) -> Seq<CandidateView> {
    Seq::new(players.len(), |i: int| players[i]@)
}

/// The selector's memory: the name of the player chosen the last time
/// several were running.
#[derive(Clone, Debug, PartialEq, Eq)]
pub struct SelectorState {
    pub last_active_player: Option<String>,
}

impl View for SelectorState {
    type V = Option<Seq<char>>;

    open spec fn view(&self) -> Option<Seq<char>> {
        match self.last_active_player {
            Some(name) => Some(name@),
            None => None,
        }
    }
}

impl SelectorState {
    /// A selector that has not chosen yet.
    pub fn new() -> (state: SelectorState)
        ensures
            state@ is None,
    {
        SelectorState { last_active_player: None }
    }
}

impl Default for SelectorState {
    fn default() -> (state: SelectorState)
        ensures
            state@ is None,
    {
        SelectorState::new()
    }
}

/// The names in a list as sequences of characters, in the same order.
pub open spec fn name_views(names: Seq<String>) -> Seq<Seq<char>> {
    Seq::new(names.len(), |i: int| names[i]@)
}

/// The players of the given names, none of them asked for its status yet.
pub open spec fn unasked_views(names: Seq<Seq<char>>) -> Seq<CandidateView> {
    Seq::new(names.len(), |i: int| CandidateView { name: names[i], status: None })
}

/// The status that a player counts with: a player whose status is not known
/// counts as stopped.
pub open spec fn counted_status(status: Option<PlaybackStatus>) -> PlaybackStatus {
    match status {
        Some(known) => known,
        None => PlaybackStatus::Stopped,
    }
}

/// The positions, in rising order, of those among the first `n` players that
/// count with `status`.
pub open spec fn group_upto(players: Seq<CandidateView>, status: PlaybackStatus, n: nat) -> Seq<
    usize,
>
    decreases n,
{
    if n == 0 {
        Seq::empty()
    } else {
        let before = group_upto(players, status, (n - 1) as nat);
        if counted_status(players[n - 1].status) == status {
            before.push((n - 1) as usize)
        } else {
            before
        }
    }
}

/// The positions, in rising order, of all players that count with `status`.
pub open spec fn group(players: Seq<CandidateView>, status: PlaybackStatus) -> Seq<usize> {
    group_upto(players, status, players.len())
}

/// The position of the first among the first `n` players that has `name`.
pub open spec fn named_upto(players: Seq<CandidateView>, name: Seq<char>, n: nat) -> Option<usize>
    decreases n,
{
    if n == 0 {
        None
    } else {
        match named_upto(players, name, (n - 1) as nat) {
            Some(i) => Some(i),
            None => if players[n - 1].name == name {
                Some((n - 1) as usize)
            } else {
                None
            },
        }
    }
}

/// The position of the first player that has `name`.
pub open spec fn position_of(players: Seq<CandidateView>, name: Seq<char>) -> Option<usize> {
    named_upto(players, name, players.len())
}

/// The player that the statuses alone single out: the first that is playing;
/// with none playing, the paused one if exactly one is paused; with none
/// playing or paused, the stopped one if exactly one is stopped.
pub open spec fn preferred(players: Seq<CandidateView>) -> Option<usize> {
    let playing = group(players, PlaybackStatus::Playing);
    let paused = group(players, PlaybackStatus::Paused);
    let stopped = group(players, PlaybackStatus::Stopped);
    if playing.len() > 0 {
        Some(playing[0])
    } else if paused.len() == 1 {
        Some(paused[0])
    } else if paused.len() == 0 && stopped.len() == 1 {
        Some(stopped[0])
    } else {
        None
    }
}

/// The player to fall back on where the statuses single none out: the one
/// remembered as last active if it is among the players, else the first.
pub open spec fn fallback(players: Seq<CandidateView>, last_active: Option<Seq<char>>) -> usize {
    match last_active {
        Some(name) => match position_of(players, name) {
            Some(i) => i,
            None => 0,
        },
        None => 0,
    }
}

/// The choice among several players.
pub open spec fn chosen_among(players: Seq<CandidateView>, last_active: Option<Seq<char>>) -> usize {
    match preferred(players) {
        Some(i) => i,
        None => fallback(players, last_active),
    }
}

/// The outcome of a selection: the position of the chosen player, or why
/// there is none.
pub open spec fn selection(players: Seq<CandidateView>, last_active: Option<Seq<char>>) -> Result<
    usize,
    SelectionError,
> {
    if players.len() == 0 {
        Err(SelectionError::NoPlayerFound)
    } else if players.len() == 1 {
        Ok(0)
    } else {
        Ok(chosen_among(players, last_active))
    }
}

/// What the selector remembers after a selection: the name of the player
/// chosen among several; with fewer than two players, what it remembered
/// before.
pub open spec fn remembered(players: Seq<CandidateView>, last_active: Option<Seq<char>>) -> Option<
    Seq<char>,
> {
    if players.len() >= 2 {
        Some(players[chosen_among(players, last_active) as int].name)
    } else {
        last_active
    }
}

/// Every position in a group lies among the players counted, and positions
/// rise along the group.
pub proof fn lemma_group_members(players: Seq<CandidateView>, status: PlaybackStatus, n: nat)
    requires
        n <= players.len() <= usize::MAX,
    ensures
        group_upto(players, status, n).len() <= n,
        forall|k: int|
            0 <= k < group_upto(players, status, n).len() ==> (#[trigger] group_upto(
                players,
                status,
                n,
            )[k]) < n && counted_status(players[group_upto(players, status, n)[k] as int].status)
                == status,
        forall|j: int, k: int|
            0 <= j < k < group_upto(players, status, n).len() ==> group_upto(players, status, n)[j]
                < group_upto(players, status, n)[k],
        forall|i: int|
            0 <= i < n && counted_status(#[trigger] players[i].status) == status ==> group_upto(
                players,
                status,
                n,
            ).contains(i as usize),
    decreases n,
{
    if n > 0 {
        let before = group_upto(players, status, (n - 1) as nat);
        let all = group_upto(players, status, n);
        lemma_group_members(players, status, (n - 1) as nat);
        assert forall|i: int|
            0 <= i < n && counted_status(#[trigger] players[i].status) == status implies all.contains(
            i as usize,
        ) by {
            if i == n - 1 {
                assert(all[all.len() - 1] == i as usize);
            } else {
                assert(before.contains(i as usize));
                let k = choose|k: int| 0 <= k < before.len() && before[k] == i as usize;
                assert(all[k] == i as usize);
            }
        }
    }
}

/// A name that is found is found at a player that has it, and at no later
/// player than any other that has it.
pub proof fn lemma_named_first(players: Seq<CandidateView>, name: Seq<char>, n: nat)
    requires
        n <= players.len() <= usize::MAX,
    ensures
        named_upto(players, name, n) matches Some(i) ==> i < n && players[i as int].name == name
            && forall|j: int| 0 <= j < i ==> (#[trigger] players[j]).name != name,
        named_upto(players, name, n) is None ==> forall|j: int|
            0 <= j < n ==> (#[trigger] players[j]).name != name,
    decreases n,
{
    if n > 0 {
        lemma_named_first(players, name, (n - 1) as nat);
    }
}

/// A selection that succeeds names one of the players.
pub proof fn lemma_selection_in_range(players: Seq<CandidateView>, last_active: Option<Seq<char>>)
    requires
        players.len() <= usize::MAX,
    ensures
        selection(players, last_active) matches Ok(i) ==> i < players.len(),
        players.len() > 0 ==> chosen_among(players, last_active) < players.len(),
{
    lemma_group_members(players, PlaybackStatus::Playing, players.len());
    lemma_group_members(players, PlaybackStatus::Paused, players.len());
    lemma_group_members(players, PlaybackStatus::Stopped, players.len());
    match last_active {
        Some(name) => lemma_named_first(players, name, players.len()),
        None => {},
    }
}

/// A lone player is chosen whatever its status, known or not, and the
/// selector's memory stays as it was.
pub proof fn lemma_lone_player_is_chosen(
    players: Seq<CandidateView>,
    last_active: Option<Seq<char>>,
)
    requires
        players.len() == 1,
    ensures
        selection(players, last_active) == Ok::<usize, SelectionError>(0),
        remembered(players, last_active) == last_active,
{
}

/// Among several players the first one that is playing is chosen, whatever
/// the others do and whatever was remembered.
pub proof fn lemma_first_playing_is_chosen(
    players: Seq<CandidateView>,
    last_active: Option<Seq<char>>,
    i: int,
)
    requires
        2 <= players.len() <= usize::MAX,
        0 <= i < players.len(),
        counted_status(players[i].status) == PlaybackStatus::Playing,
        forall|j: int| 0 <= j < i ==> counted_status(players[j].status) != PlaybackStatus::Playing,
    ensures
        selection(players, last_active) == Ok::<usize, SelectionError>(i as usize),
        remembered(players, last_active) == Some(players[i].name),
{
    let playing = group(players, PlaybackStatus::Playing);
    lemma_group_members(players, PlaybackStatus::Playing, players.len());
    assert(playing.contains(i as usize));
    assert(counted_status(players[playing[0] as int].status) == PlaybackStatus::Playing);
}

/// With nobody playing and exactly one player paused, the paused one is
/// chosen.
pub proof fn lemma_only_paused_is_chosen(
    players: Seq<CandidateView>,
    last_active: Option<Seq<char>>,
    i: int,
)
    requires
        2 <= players.len() <= usize::MAX,
        0 <= i < players.len(),
        forall|j: int|
            0 <= j < players.len() ==> counted_status(players[j].status)
                != PlaybackStatus::Playing,
        forall|j: int|
            0 <= j < players.len() ==> (counted_status(players[j].status) == PlaybackStatus::Paused
                <==> j == i),
    ensures
        selection(players, last_active) == Ok::<usize, SelectionError>(i as usize),
        remembered(players, last_active) == Some(players[i].name),
{
    let playing = group(players, PlaybackStatus::Playing);
    let paused = group(players, PlaybackStatus::Paused);
    lemma_group_members(players, PlaybackStatus::Playing, players.len());
    lemma_group_members(players, PlaybackStatus::Paused, players.len());
    if playing.len() > 0 {
        assert(counted_status(players[playing[0] as int].status) == PlaybackStatus::Playing);
    }
    assert(paused.contains(i as usize));
    if paused.len() > 1 {
        assert(counted_status(players[paused[0] as int].status) == PlaybackStatus::Paused);
        assert(counted_status(players[paused[1] as int].status) == PlaybackStatus::Paused);
    }
    assert(counted_status(players[paused[0] as int].status) == PlaybackStatus::Paused);
}

/// Where the statuses single nobody out, the remembered player is chosen if
/// it is still there, else the first player: so it is among several players
/// that all count as stopped, and among players of whom nobody is playing and
/// two or more are paused.
pub proof fn lemma_ambiguous_falls_back(
    players: Seq<CandidateView>,
    last_active: Option<Seq<char>>,
)
    requires
        2 <= players.len() <= usize::MAX,
        forall|j: int|
            0 <= j < players.len() ==> counted_status(players[j].status)
                != PlaybackStatus::Playing,
        (forall|j: int|
            0 <= j < players.len() ==> counted_status(players[j].status)
                == PlaybackStatus::Stopped) || (exists|a: int, b: int|
            0 <= a < b < players.len() && counted_status(players[a].status)
                == PlaybackStatus::Paused && counted_status(players[b].status)
                == PlaybackStatus::Paused),
    ensures
        selection(players, last_active) == Ok::<usize, SelectionError>(
            fallback(players, last_active),
        ),
        fallback(players, last_active) < players.len(),
        last_active is None ==> fallback(players, last_active) == 0,
        last_active matches Some(name) ==> forall|j: int|
            0 <= j < players.len() && (#[trigger] players[j]).name == name ==> fallback(
                players,
                last_active,
            ) <= j && players[fallback(players, last_active) as int].name == name,
        last_active matches Some(name) ==> (forall|j: int|
            0 <= j < players.len() ==> (#[trigger] players[j]).name != name) ==> fallback(
            players,
            last_active,
        ) == 0,
{
    let playing = group(players, PlaybackStatus::Playing);
    let paused = group(players, PlaybackStatus::Paused);
    let stopped = group(players, PlaybackStatus::Stopped);
    lemma_group_members(players, PlaybackStatus::Playing, players.len());
    lemma_group_members(players, PlaybackStatus::Paused, players.len());
    lemma_group_members(players, PlaybackStatus::Stopped, players.len());
    if playing.len() > 0 {
        assert(counted_status(players[playing[0] as int].status) == PlaybackStatus::Playing);
    }
    if forall|j: int|
        0 <= j < players.len() ==> counted_status(players[j].status) == PlaybackStatus::Stopped {
        if paused.len() > 0 {
            assert(counted_status(players[paused[0] as int].status) == PlaybackStatus::Paused);
        }
        assert(counted_status(players[0].status) == PlaybackStatus::Stopped);
        assert(counted_status(players[1].status) == PlaybackStatus::Stopped);
        assert(stopped.contains(0usize));
        assert(stopped.contains(1usize));
    } else {
        let (a, b) = choose|a: int, b: int|
            0 <= a < b < players.len() && counted_status(players[a].status)
                == PlaybackStatus::Paused && counted_status(players[b].status)
                == PlaybackStatus::Paused;
        assert(paused.contains(a as usize));
        assert(paused.contains(b as usize));
    }
    match last_active {
        Some(name) => lemma_named_first(players, name, players.len()),
        None => {},
    }
}

/// Selecting again among the same players, with what the first selection
/// left in memory, settles on the same player and leaves the same memory.
pub proof fn lemma_selection_is_stable(players: Seq<CandidateView>, last_active: Option<Seq<char>>)
    requires
        players.len() <= usize::MAX,
    ensures
        selection(players, remembered(players, last_active)) == selection(players, last_active),
        remembered(players, remembered(players, last_active)) == remembered(
            players,
            last_active,
        ),
{
    if players.len() >= 2 {
        lemma_selection_in_range(players, last_active);
        let first = chosen_among(players, last_active);
        let name = players[first as int].name;
        lemma_named_first(players, name, players.len());
        match last_active {
            Some(before) => lemma_named_first(players, before, players.len()),
            None => {},
        }
    }
}

/// The status that a player counts with.
pub fn counted(status: Option<PlaybackStatus>) -> (known: PlaybackStatus)
    ensures
        known == counted_status(status),
{
    match status {
        Some(known) => known,
        None => PlaybackStatus::Stopped,
    }
}

/// The positions of the players that count with `status`, in the order of
/// the players.
pub fn players_with_status(players: &Vec<Candidate>, status: PlaybackStatus) -> (found: Vec<usize>)
    ensures
        found@ == group(views(players@), status),
{
    let mut found: Vec<usize> = Vec::new();
    let mut i: usize = 0;
    while i < players.len()
        invariant
            i <= players.len(),
            found@ == group_upto(views(players@), status, i as nat),
        decreases players.len() - i,
    {
        if counted(players[i].status) == status {
            found.push(i);
        }
        i += 1;
    }
    found
}

/// The position of the first player called `name`.
pub fn position_of_name(players: &Vec<Candidate>, name: &String) -> (found: Option<usize>)
    ensures
        found == position_of(views(players@), name@),
{
    let mut found: Option<usize> = None;
    let mut i: usize = 0;
    while i < players.len()
        invariant
            i <= players.len(),
            found == named_upto(views(players@), name@, i as nat),
        decreases players.len() - i,
    {
        if found.is_none() && players[i].name == *name {
            found = Some(i);
        }
        i += 1;
    }
    found
}

/// The players of the given names, in the order of the names, none of them
/// asked for its status yet.
pub fn unasked(names: &Vec<String>) -> (players: Vec<Candidate>)
    ensures
        views(players@) == unasked_views(name_views(names@)),
{
    let mut players: Vec<Candidate> = Vec::new();
    let mut i: usize = 0;
    while i < names.len()
        invariant
            i <= names.len(),
            players.len() == i,
            forall|j: int| 0 <= j < i ==> (#[trigger] players@[j])@ == (CandidateView {
                name: names@[j]@,
                status: None,
            }),
        decreases names.len() - i,
    {
        players.push(Candidate { name: names[i].clone(), status: None });
        i += 1;
    }
    assert(views(players@) =~= unasked_views(name_views(names@)));
    players
}

/// Picks the player that a transport command goes to and, where it had to
/// choose among several, remembers the choice in `selector`.
///
/// With no player the selection fails; a lone player is chosen whatever its
/// status, known or not. Among several players, one whose status is not
/// known counts as stopped.
pub fn select(players: &Vec<Candidate>, selector: &mut SelectorState) -> (result: Result<
    usize,
    SelectionError,
>)
    ensures
        result == selection(views(players@), old(selector)@),
        final(selector)@ == remembered(views(players@), old(selector)@),
        result matches Ok(i) ==> i < players.len(),
{
    if players.len() == 0 {
        return Err(SelectionError::NoPlayerFound);
    }
    if players.len() == 1 {
        return Ok(0);
    }
    let playing = players_with_status(players, PlaybackStatus::Playing);
    let paused = players_with_status(players, PlaybackStatus::Paused);
    let stopped = players_with_status(players, PlaybackStatus::Stopped);
    let chosen: usize = if playing.len() > 0 {
        playing[0]
    } else if paused.len() == 1 {
        paused[0]
    } else if paused.len() == 0 && stopped.len() == 1 {
        stopped[0]
    } else {
        let remembered_position = match &selector.last_active_player {
            Some(name) => position_of_name(players, name),
            None => None,
        };
        match remembered_position {
            Some(i) => i,
            None => 0,
        }
    };
    proof {
        lemma_selection_in_range(views(players@), selector@);
    }
    selector.last_active_player = Some(players[chosen].name.clone());
    Ok(chosen)
}

} // verus!

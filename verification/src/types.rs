//! The records that travel through the crate, each with its mathematical
//! value.

use crate::json::{Json, JsonView};
use vstd::prelude::*;

verus! {

/// What is needed to reach a running client: the loopback port it listens on,
/// the password of the session, and the id of its process.
#[derive(Debug, PartialEq, Eq)]
pub struct LcuCredentials {
    pub port: u16,
    pub password: String,
    pub pid: u32,
}

/// Mathematical value of [`LcuCredentials`].
pub struct LcuCredentialsView {
    pub port: u16,
    pub password: Seq<char>,
    pub pid: u32,
}

impl View for LcuCredentials {
    type V = LcuCredentialsView;

    open spec fn view(&self) -> LcuCredentialsView {
        LcuCredentialsView { port: self.port, password: self.password@, pid: self.pid }
    }
}

/// Mathematical value of credentials that may be absent.
pub open spec fn optional_view(credentials: Option<LcuCredentials>) -> Option<LcuCredentialsView> {
    match credentials {
        Some(creds) => Some(creds@),
        None => None,
    }
}

impl Clone for LcuCredentials {
    fn clone(&self) -> (res: Self)
        ensures
            res@ == self@,
    {
        LcuCredentials { port: self.port, password: self.password.clone(), pid: self.pid }
    }
}

/// One participant of a champion select.
#[derive(Debug, PartialEq, Eq)]
pub struct ChampSelectPlayer {
    pub cell_id: i64,
    pub champion_id: i64,
    pub summoner_id: Option<i64>,
    pub assigned_position: String,
    pub spell1_id: Option<i64>,
    pub spell2_id: Option<i64>,
    pub player_type: String,
}

/// Mathematical value of [`ChampSelectPlayer`].
pub struct ChampSelectPlayerView {
    pub cell_id: i64,
    pub champion_id: i64,
    pub summoner_id: Option<i64>,
    pub assigned_position: Seq<char>,
    pub spell1_id: Option<i64>,
    pub spell2_id: Option<i64>,
    pub player_type: Seq<char>,
}

impl View for ChampSelectPlayer {
    type V = ChampSelectPlayerView;

    open spec fn view(&self) -> ChampSelectPlayerView {
        ChampSelectPlayerView {
            cell_id: self.cell_id,
            champion_id: self.champion_id,
            summoner_id: self.summoner_id,
            assigned_position: self.assigned_position@,
            spell1_id: self.spell1_id,
            spell2_id: self.spell2_id,
            player_type: self.player_type@,
        }
    }
}

impl Clone for ChampSelectPlayer {
    fn clone(&self) -> (res: Self)
        ensures
            res@ == self@,
    {
        ChampSelectPlayer {
            cell_id: self.cell_id,
            champion_id: self.champion_id,
            summoner_id: self.summoner_id,
            assigned_position: self.assigned_position.clone(),
            spell1_id: self.spell1_id,
            spell2_id: self.spell2_id,
            player_type: self.player_type.clone(),
        }
    }
}

/// One pick or ban that a participant makes or has made.
#[derive(Debug, PartialEq, Eq)]
pub struct ChampSelectAction {
    pub id: i64,
    pub actor_cell_id: i64,
    pub champion_id: i64,
    pub completed: bool,
    pub action_type: String,
    pub is_ally_action: bool,
}

/// Mathematical value of [`ChampSelectAction`].
pub struct ChampSelectActionView {
    pub id: i64,
    pub actor_cell_id: i64,
    pub champion_id: i64,
    pub completed: bool,
    pub action_type: Seq<char>,
    pub is_ally_action: bool,
}

impl View for ChampSelectAction {
    type V = ChampSelectActionView;

    open spec fn view(&self) -> ChampSelectActionView {
        ChampSelectActionView {
            id: self.id,
            actor_cell_id: self.actor_cell_id,
            champion_id: self.champion_id,
            completed: self.completed,
            action_type: self.action_type@,
            is_ally_action: self.is_ally_action,
        }
    }
}

impl Clone for ChampSelectAction {
    fn clone(&self) -> (res: Self)
        ensures
            res@ == self@,
    {
        ChampSelectAction {
            id: self.id,
            actor_cell_id: self.actor_cell_id,
            champion_id: self.champion_id,
            completed: self.completed,
            action_type: self.action_type.clone(),
            is_ally_action: self.is_ally_action,
        }
    }
}

/// The champions that each side has banned.
#[derive(Debug, PartialEq, Eq)]
pub struct ChampSelectBans {
    pub my_team_bans: Vec<i64>,
    pub their_team_bans: Vec<i64>,
    pub num_bans: i32,
}

/// Mathematical value of [`ChampSelectBans`].
pub struct ChampSelectBansView {
    pub my_team_bans: Seq<i64>,
    pub their_team_bans: Seq<i64>,
    pub num_bans: i32,
}

impl View for ChampSelectBans {
    type V = ChampSelectBansView;

    open spec fn view(&self) -> ChampSelectBansView {
        ChampSelectBansView {
            my_team_bans: self.my_team_bans@,
            their_team_bans: self.their_team_bans@,
            num_bans: self.num_bans,
        }
    }
}

/// A copy of a list of numbers.
fn copy_numbers(numbers: &Vec<i64>) -> (copy: Vec<i64>)
    ensures
        copy@ == numbers@,
{
    let mut copy: Vec<i64> = Vec::new();
    let mut i: usize = 0;
    while i < numbers.len()
        invariant
            i <= numbers.len(),
            copy@ == numbers@.take(i as int),
        decreases numbers.len() - i,
    {
        copy.push(numbers[i]);
        assert(numbers@.take(i as int).push(numbers[i as int]) == numbers@.take(i + 1));
        i += 1;
    }
    assert(numbers@.take(numbers.len() as int) == numbers@);
    copy
}

impl Clone for ChampSelectBans {
    fn clone(&self) -> (res: Self)
        ensures
            res@ == self@,
    {
        ChampSelectBans {
            my_team_bans: copy_numbers(&self.my_team_bans),
            their_team_bans: copy_numbers(&self.their_team_bans),
            num_bans: self.num_bans,
        }
    }
}

/// The phase that a champion select is in, and the time left in it.
#[derive(Debug, PartialEq, Eq)]
pub struct ChampSelectTimer {
    pub phase: String,
    pub adjusted_time_left_in_phase: i64,
    pub total_time_in_phase: i64,
}

/// Mathematical value of [`ChampSelectTimer`].
pub struct ChampSelectTimerView {
    pub phase: Seq<char>,
    pub adjusted_time_left_in_phase: i64,
    pub total_time_in_phase: i64,
}

impl View for ChampSelectTimer {
    type V = ChampSelectTimerView;

    open spec fn view(&self) -> ChampSelectTimerView {
        ChampSelectTimerView {
            phase: self.phase@,
            adjusted_time_left_in_phase: self.adjusted_time_left_in_phase,
            total_time_in_phase: self.total_time_in_phase,
        }
    }
}

impl Clone for ChampSelectTimer {
    fn clone(&self) -> (res: Self)
        ensures
            res@ == self@,
    {
        ChampSelectTimer {
            phase: self.phase.clone(),
            adjusted_time_left_in_phase: self.adjusted_time_left_in_phase,
            total_time_in_phase: self.total_time_in_phase,
        }
    }
}

/// A champion select as the client reports it: both rosters, the actions
/// turn by turn, the bans, the timer, and the cell of the local participant.
#[derive(Debug, PartialEq, Eq)]
pub struct ChampSelectSession {
    pub my_team: Vec<ChampSelectPlayer>,
    pub their_team: Vec<ChampSelectPlayer>,
    pub actions: Vec<Vec<ChampSelectAction>>,
    pub bans: ChampSelectBans,
    pub timer: ChampSelectTimer,
    pub local_player_cell_id: i64,
}

/// Mathematical value of [`ChampSelectSession`].
pub struct ChampSelectSessionView {
    pub my_team: Seq<ChampSelectPlayerView>,
    pub their_team: Seq<ChampSelectPlayerView>,
    pub actions: Seq<Seq<ChampSelectActionView>>,
    pub bans: ChampSelectBansView,
    pub timer: ChampSelectTimerView,
    pub local_player_cell_id: i64,
}

/// Mathematical value of a roster.
pub open spec fn players_view(players: Seq<ChampSelectPlayer>) -> Seq<ChampSelectPlayerView> {
    Seq::new(players.len(), |i: int| players[i]@)
}

/// Mathematical value of the actions of one turn.
pub open spec fn turn_view(turn: Seq<ChampSelectAction>) -> Seq<ChampSelectActionView> {
    Seq::new(turn.len(), |i: int| turn[i]@)
}

/// Mathematical value of the actions of all turns.
pub open spec fn turns_view(turns: Seq<Vec<ChampSelectAction>>) -> Seq<
    Seq<ChampSelectActionView>,
> {
    Seq::new(turns.len(), |i: int| turn_view(turns[i]@))
}

impl View for ChampSelectSession {
    type V = ChampSelectSessionView;

    open spec fn view(&self) -> ChampSelectSessionView {
        ChampSelectSessionView {
            my_team: players_view(self.my_team@),
            their_team: players_view(self.their_team@),
            actions: turns_view(self.actions@),
            bans: self.bans@,
            timer: self.timer@,
            local_player_cell_id: self.local_player_cell_id,
        }
    }
}

/// A copy of a roster.
fn copy_players(players: &Vec<ChampSelectPlayer>) -> (copy: Vec<ChampSelectPlayer>)
    ensures
        players_view(copy@) == players_view(players@),
{
    let mut copy: Vec<ChampSelectPlayer> = Vec::new();
    let mut i: usize = 0;
    while i < players.len()
        invariant
            i <= players.len(),
            copy.len() == i,
            forall|k: int| 0 <= k < i ==> (#[trigger] copy[k])@ == players[k]@,
        decreases players.len() - i,
    {
        copy.push(players[i].clone());
        i += 1;
    }
    assert(players_view(copy@) =~= players_view(players@));
    copy
}

/// A copy of the actions of one turn.
fn copy_turn(turn: &Vec<ChampSelectAction>) -> (copy: Vec<ChampSelectAction>)
    ensures
        turn_view(copy@) == turn_view(turn@),
{
    let mut copy: Vec<ChampSelectAction> = Vec::new();
    let mut i: usize = 0;
    while i < turn.len()
        invariant
            i <= turn.len(),
            copy.len() == i,
            forall|k: int| 0 <= k < i ==> (#[trigger] copy[k])@ == turn[k]@,
        decreases turn.len() - i,
    {
        copy.push(turn[i].clone());
        i += 1;
    }
    assert(turn_view(copy@) =~= turn_view(turn@));
    copy
}

/// A copy of the actions of all turns.
fn copy_turns(turns: &Vec<Vec<ChampSelectAction>>) -> (copy: Vec<Vec<ChampSelectAction>>)
    ensures
        turns_view(copy@) == turns_view(turns@),
{
    let mut copy: Vec<Vec<ChampSelectAction>> = Vec::new();
    let mut i: usize = 0;
    while i < turns.len()
        invariant
            i <= turns.len(),
            copy.len() == i,
            forall|k: int| 0 <= k < i ==> turn_view((#[trigger] copy[k])@) == turn_view(turns[k]@),
        decreases turns.len() - i,
    {
        copy.push(copy_turn(&turns[i]));
        i += 1;
    }
    assert(turns_view(copy@) =~= turns_view(turns@));
    copy
}

impl Clone for ChampSelectSession {
    fn clone(&self) -> (res: Self)
        ensures
            res@ == self@,
    {
        ChampSelectSession {
            my_team: copy_players(&self.my_team),
            their_team: copy_players(&self.their_team),
            actions: copy_turns(&self.actions),
            bans: self.bans.clone(),
            timer: self.timer.clone(),
            local_player_cell_id: self.local_player_cell_id,
        }
    }
}

/// The account that is logged in to the client.
#[derive(Debug, PartialEq, Eq)]
pub struct CurrentSummoner {
    pub display_name: String,
    pub summoner_id: i64,
    pub puuid: String,
    pub account_id: i64,
    pub profile_icon_id: i64,
    pub summoner_level: i64,
}

/// Mathematical value of [`CurrentSummoner`].
pub struct CurrentSummonerView {
    pub display_name: Seq<char>,
    pub summoner_id: i64,
    pub puuid: Seq<char>,
    pub account_id: i64,
    pub profile_icon_id: i64,
    pub summoner_level: i64,
}

impl View for CurrentSummoner {
    type V = CurrentSummonerView;

    open spec fn view(&self) -> CurrentSummonerView {
        CurrentSummonerView {
            display_name: self.display_name@,
            summoner_id: self.summoner_id,
            puuid: self.puuid@,
            account_id: self.account_id,
            profile_icon_id: self.profile_icon_id,
            summoner_level: self.summoner_level,
        }
    }
}

impl Clone for CurrentSummoner {
    fn clone(&self) -> (res: Self)
        ensures
            res@ == self@,
    {
        CurrentSummoner {
            display_name: self.display_name.clone(),
            summoner_id: self.summoner_id,
            puuid: self.puuid.clone(),
            account_id: self.account_id,
            profile_icon_id: self.profile_icon_id,
            summoner_level: self.summoner_level,
        }
    }
}

/// An event of the stream that is handed on: the resource it is about, what
/// happened to it, and the resource's new content.
#[derive(Debug, PartialEq, Eq)]
pub struct LcuEvent {
    pub uri: String,
    pub event_type: String,
    pub data: Json,
}

/// Mathematical value of [`LcuEvent`].
pub struct LcuEventView {
    pub uri: Seq<char>,
    pub event_type: Seq<char>,
    pub data: JsonView,
}

impl View for LcuEvent {
    type V = LcuEventView;

    open spec fn view(&self) -> LcuEventView {
        LcuEventView { uri: self.uri@, event_type: self.event_type@, data: self.data@ }
    }
}

impl Clone for LcuEvent {
    fn clone(&self) -> (res: Self)
        ensures
            res@ == self@,
    {
        LcuEvent {
            uri: self.uri.clone(),
            event_type: self.event_type.clone(),
            data: self.data.clone(),
        }
    }
}

} // verus!

//! The shape of the snapshots as JSON documents: how a document is read into
//! a record, how a record is written as a document, and that reading what was
//! written gives the record again.
//!
//! A record is an object. Its members are found by name; members that the
//! record does not know are passed over. A member that the record needs and
//! that is missing, or holds a value of another kind, makes the document one
//! of another shape.

use crate::json::{member_named, Json, JsonNumber, JsonView};
use crate::types::{
    players_view, turn_view, turns_view, ChampSelectAction, ChampSelectActionView,
    ChampSelectBans, ChampSelectBansView, ChampSelectPlayer, ChampSelectPlayerView,
    ChampSelectSession, ChampSelectSessionView, ChampSelectTimer, ChampSelectTimerView,
    CurrentSummoner, CurrentSummonerView, LcuEvent, LcuEventView,
};
use vstd::prelude::*;

verus! {

/// The whole number that a document is.
pub open spec fn whole_number(j: JsonView) -> Option<int> {
    match j {
        JsonView::Number(JsonNumber::PosInt(n)) => Some(n as int),
        JsonView::Number(JsonNumber::NegInt(n)) => Some(n as int),
        _ => None,
    }
}

/// The document as a whole number of 64 bits with a sign.
pub open spec fn i64_of_json(j: JsonView) -> Option<i64> {
    match whole_number(j) {
        Some(n) => if i64::MIN <= n <= i64::MAX {
            Some(n as i64)
        } else {
            None
        },
        None => None,
    }
}

/// The document as a whole number of 32 bits with a sign.
pub open spec fn i32_of_json(j: JsonView) -> Option<i32> {
    match whole_number(j) {
        Some(n) => if i32::MIN <= n <= i32::MAX {
            Some(n as i32)
        } else {
            None
        },
        None => None,
    }
}

/// The document as a truth value.
pub open spec fn bool_of_json(j: JsonView) -> Option<bool> {
    match j {
        JsonView::Bool(b) => Some(b),
        _ => None,
    }
}

/// A whole number as a document.
pub open spec fn json_of_i64(v: i64) -> JsonView {
    if v >= 0 {
        JsonView::Number(JsonNumber::PosInt(v as u64))
    } else {
        JsonView::Number(JsonNumber::NegInt(v))
    }
}

/// A number that may be absent as a document: `null` stands for absence.
pub open spec fn json_of_optional_i64(v: Option<i64>) -> JsonView {
    match v {
        Some(n) => json_of_i64(n),
        None => JsonView::Null,
    }
}

/// A member that must be there and be a whole number.
pub open spec fn required_i64(j: JsonView, name: Seq<char>) -> Option<i64> {
    match j.get(name) {
        Some(v) => i64_of_json(v),
        None => None,
    }
}

/// A member that is a whole number where it is there and not `null`.
pub open spec fn optional_i64(j: JsonView, name: Seq<char>) -> Option<Option<i64>> {
    match j.get(name) {
        Some(JsonView::Null) => Some(None),
        Some(v) => match i64_of_json(v) {
            Some(n) => Some(Some(n)),
            None => None,
        },
        None => Some(None),
    }
}

/// A member that is a whole number where it is there, and 0 where it is not.
pub open spec fn i64_or_zero(j: JsonView, name: Seq<char>) -> Option<i64> {
    match j.get(name) {
        Some(v) => i64_of_json(v),
        None => Some(0),
    }
}

/// A member that is a whole number of 32 bits where it is there, and 0 where
/// it is not.
pub open spec fn i32_or_zero(j: JsonView, name: Seq<char>) -> Option<i32> {
    match j.get(name) {
        Some(v) => i32_of_json(v),
        None => Some(0),
    }
}

/// A member that must be there and be a string.
pub open spec fn required_text(j: JsonView, name: Seq<char>) -> Option<Seq<char>> {
    match j.get(name) {
        Some(v) => v.as_str(),
        None => None,
    }
}

/// A member that is a string where it is there, and empty where it is not.
pub open spec fn text_or_empty(j: JsonView, name: Seq<char>) -> Option<Seq<char>> {
    match j.get(name) {
        Some(v) => v.as_str(),
        None => Some(Seq::empty()),
    }
}

/// A member that must be there and be a truth value.
pub open spec fn required_bool(j: JsonView, name: Seq<char>) -> Option<bool> {
    match j.get(name) {
        Some(v) => bool_of_json(v),
        None => None,
    }
}

/// A member that is a truth value where it is there, and false where it is
/// not.
pub open spec fn bool_or_false(j: JsonView, name: Seq<char>) -> Option<bool> {
    match j.get(name) {
        Some(v) => bool_of_json(v),
        None => Some(false),
    }
}

/// A document that is a list, each item read by `read`; `None` where the
/// document is no list or `read` rejects an item.
pub open spec fn list_of_json<T>(j: JsonView, read: spec_fn(JsonView) -> Option<T>) -> Option<
    Seq<T>,
> {
    match j {
        JsonView::Array(items) => {
            if forall|i: int| 0 <= i < items.len() ==> (#[trigger] read(items[i])) is Some {
                Some(Seq::new(items.len(), |i: int| read(items[i])->0))
            } else {
                None
            }
        },
        _ => None,
    }
}

/// A member that must be there and be a list, each item read by `read`.
pub open spec fn required_list<T>(
    j: JsonView,
    name: Seq<char>,
    read: spec_fn(JsonView) -> Option<T>,
) -> Option<Seq<T>> {
    match j.get(name) {
        Some(v) => list_of_json(v, read),
        None => None,
    }
}

/// A list as a document, each item written by `write`.
pub open spec fn json_of_list<T>(items: Seq<T>, write: spec_fn(T) -> JsonView) -> JsonView {
    JsonView::Array(Seq::new(items.len(), |i: int| write(items[i])))
}

/// The member that stands at position `k` of `members` and is the first of
/// its name is the one that a search by that name finds.
pub proof fn lemma_member_found(members: Seq<(Seq<char>, JsonView)>, name: Seq<char>, k: int)
    requires
        0 <= k < members.len(),
        members[k].0 == name,
        forall|i: int| 0 <= i < k ==> (#[trigger] members[i]).0 != name,
    ensures
        member_named(members, name) == Some(members[k].1),
    decreases k,
{
    if k > 0 {
        let rest = members.drop_first();
        assert(rest[k - 1] == members[k]);
        assert forall|i: int| 0 <= i < k - 1 implies (#[trigger] rest[i]).0 != name by {
            assert(rest[i] == members[i + 1]);
        }
        assert(members[0].0 != name);
        lemma_member_found(rest, name, k - 1);
    }
}

/// Reading a list that was written gives it again, where that holds of each
/// item.
pub proof fn lemma_list_round_trip<T>(
    items: Seq<T>,
    write: spec_fn(T) -> JsonView,
    read: spec_fn(JsonView) -> Option<T>,
)
    requires
        forall|i: int| 0 <= i < items.len() ==> read(write(#[trigger] items[i])) == Some(items[i]),
    ensures
        list_of_json(json_of_list(items, write), read) == Some(items),
{
    let written = json_of_list(items, write)->Array_0;
    assert forall|i: int| 0 <= i < written.len() implies (#[trigger] read(written[i])) is Some by {
        assert(written[i] == write(items[i]));
    }
    let back = list_of_json(json_of_list(items, write), read)->0;
    assert(back =~= items) by {
        assert forall|i: int| 0 <= i < items.len() implies back[i] == items[i] by {
            assert(written[i] == write(items[i]));
        }
    }
}

/// The document as a whole number of 64 bits with a sign.
pub fn i64_from_json(j: &Json) -> (value: Option<i64>)
    ensures
        value == i64_of_json(j@),
{
    match j {
        Json::Number(JsonNumber::PosInt(n)) => {
            if *n <= 0x7fff_ffff_ffff_ffff {
                Some(*n as i64)
            } else {
                None
            }
        },
        Json::Number(JsonNumber::NegInt(n)) => Some(*n),
        _ => None,
    }
}

/// The document as a whole number of 32 bits with a sign.
pub fn i32_from_json(j: &Json) -> (value: Option<i32>)
    ensures
        value == i32_of_json(j@),
{
    match j {
        Json::Number(JsonNumber::PosInt(n)) => {
            if *n <= 0x7fff_ffff {
                Some(*n as i32)
            } else {
                None
            }
        },
        Json::Number(JsonNumber::NegInt(n)) => {
            if -0x8000_0000 <= *n && *n <= 0x7fff_ffff {
                Some(*n as i32)
            } else {
                None
            }
        },
        _ => None,
    }
}

/// A whole number as a document.
pub fn json_from_i64(v: i64) -> (j: Json)
    ensures
        j@ == json_of_i64(v),
{
    if v >= 0 {
        Json::Number(JsonNumber::PosInt(v as u64))
    } else {
        Json::Number(JsonNumber::NegInt(v))
    }
}

/// A number that may be absent as a document.
pub fn json_from_optional_i64(v: Option<i64>) -> (j: Json)
    ensures
        j@ == json_of_optional_i64(v),
{
    match v {
        Some(n) => json_from_i64(n),
        None => Json::Null,
    }
}

/// A list of whole numbers as a document.
pub fn json_from_i64_list(items: &Vec<i64>) -> (j: Json)
    ensures
        j@ == json_of_list(items@, |v: i64| json_of_i64(v)),
{
    let mut out: Vec<Json> = Vec::new();
    let mut i: usize = 0;
    while i < items.len()
        invariant
            i <= items.len(),
            out.len() == i,
            forall|k: int| 0 <= k < i ==> (#[trigger] out[k])@ == json_of_i64(items[k]),
        decreases items.len() - i,
    {
        out.push(json_from_i64(items[i]));
        i += 1;
    }
    let j = Json::Array(out);
    assert(j@->Array_0 =~= json_of_list(items@, |v: i64| json_of_i64(v))->Array_0);
    j
}

/// A text as a document.
pub fn json_from_text(text: &String) -> (j: Json)
    ensures
        j@ == JsonView::String(text@),
{
    Json::String(text.clone())
}

/// A member of an object.
pub fn member(name: &str, value: Json) -> (m: (String, Json))
    ensures
        m.0@ == name@,
        m.1@ == value@,
{
    (String::from_str(name), value)
}

fn member_i64(j: &Json, name: &str) -> (value: Option<i64>)
    ensures
        value == required_i64(j@, name@),
{
    match j.get(name) {
        Some(v) => i64_from_json(v),
        None => None,
    }
}

fn member_optional_i64(j: &Json, name: &str) -> (value: Option<Option<i64>>)
    ensures
        value == optional_i64(j@, name@),
{
    match j.get(name) {
        Some(Json::Null) => Some(None),
        Some(v) => match i64_from_json(v) {
            Some(n) => Some(Some(n)),
            None => None,
        },
        None => Some(None),
    }
}

fn member_i64_or_zero(j: &Json, name: &str) -> (value: Option<i64>)
    ensures
        value == i64_or_zero(j@, name@),
{
    match j.get(name) {
        Some(v) => i64_from_json(v),
        None => Some(0),
    }
}

fn member_i32_or_zero(j: &Json, name: &str) -> (value: Option<i32>)
    ensures
        value == i32_or_zero(j@, name@),
{
    match j.get(name) {
        Some(v) => i32_from_json(v),
        None => Some(0),
    }
}

fn member_text(j: &Json, name: &str) -> (value: Option<String>)
    ensures
        match value {
            Some(text) => required_text(j@, name@) == Some(text@),
            None => required_text(j@, name@) is None,
        },
{
    match j.get(name) {
        Some(Json::String(text)) => Some(text.clone()),
        _ => None,
    }
}

fn member_text_or_empty(j: &Json, name: &str) -> (value: Option<String>)
    ensures
        match value {
            Some(text) => text_or_empty(j@, name@) == Some(text@),
            None => text_or_empty(j@, name@) is None,
        },
{
    match j.get(name) {
        Some(Json::String(text)) => Some(text.clone()),
        Some(_) => None,
        None => Some(String::new()),
    }
}

fn member_bool(j: &Json, name: &str) -> (value: Option<bool>)
    ensures
        value == required_bool(j@, name@),
{
    match j.get(name) {
        Some(Json::Bool(b)) => Some(*b),
        _ => None,
    }
}

fn member_bool_or_false(j: &Json, name: &str) -> (value: Option<bool>)
    ensures
        value == bool_or_false(j@, name@),
{
    match j.get(name) {
        Some(Json::Bool(b)) => Some(*b),
        Some(_) => None,
        None => Some(false),
    }
}

fn member_i64_list(j: &Json, name: &str) -> (value: Option<Vec<i64>>)
    ensures
        match value {
            Some(list) => required_list(j@, name@, |v: JsonView| i64_of_json(v)) == Some(list@),
            None => required_list(j@, name@, |v: JsonView| i64_of_json(v)) is None,
        },
{
    let ghost read = |v: JsonView| i64_of_json(v);
    match j.get(name) {
        Some(Json::Array(items)) => {
            let ghost all = Json::Array(*items)@->Array_0;
            let mut out: Vec<i64> = Vec::new();
            let mut i: usize = 0;
            while i < items.len()
                invariant
                    i <= items.len(),
                    out.len() == i,
                    read == |v: JsonView| i64_of_json(v),
                    all.len() == items.len(),
                    forall|k: int| 0 <= k < items.len() ==> all[k] == (#[trigger] items[k])@,
                    list_of_json(JsonView::Array(all), read) == required_list(j@, name@, read),
                    forall|k: int| 0 <= k < i ==> read(#[trigger] all[k]) == Some(out[k]),
                decreases items.len() - i,
            {
                match i64_from_json(&items[i]) {
                    Some(n) => {
                        out.push(n);
                    },
                    None => {
                        assert(read(all[i as int]) is None);
                        return None;
                    },
                }
                i += 1;
            }
            assert(list_of_json(JsonView::Array(all), read)->0 =~= out@);
            Some(out)
        },
        _ => None,
    }
}

/// A participant read from a document.
pub open spec fn player_of_json(j: JsonView) -> Option<ChampSelectPlayerView> {
    match (
        required_i64(j, "cellId"@),
        required_i64(j, "championId"@),
        optional_i64(j, "summonerId"@),
        required_text(j, "assignedPosition"@),
        optional_i64(j, "spell1Id"@),
        optional_i64(j, "spell2Id"@),
        text_or_empty(j, "playerType"@),
    ) {
        (
            Some(cell_id),
            Some(champion_id),
            Some(summoner_id),
            Some(assigned_position),
            Some(spell1_id),
            Some(spell2_id),
            Some(player_type),
        ) => Some(
            ChampSelectPlayerView {
                cell_id,
                champion_id,
                summoner_id,
                assigned_position,
                spell1_id,
                spell2_id,
                player_type,
            },
        ),
        _ => None,
    }
}

/// A participant written as a document.
pub open spec fn json_of_player(p: ChampSelectPlayerView) -> JsonView {
    JsonView::Object(
        seq![
            ("cellId"@, json_of_i64(p.cell_id)),
            ("championId"@, json_of_i64(p.champion_id)),
            ("summonerId"@, json_of_optional_i64(p.summoner_id)),
            ("assignedPosition"@, JsonView::String(p.assigned_position)),
            ("spell1Id"@, json_of_optional_i64(p.spell1_id)),
            ("spell2Id"@, json_of_optional_i64(p.spell2_id)),
            ("playerType"@, JsonView::String(p.player_type)),
        ],
    )
}

/// A roster read from a document.
pub open spec fn players_of_json(j: JsonView) -> Option<Seq<ChampSelectPlayerView>> {
    list_of_json(j, |v: JsonView| player_of_json(v))
}

/// A roster written as a document.
pub open spec fn json_of_players(players: Seq<ChampSelectPlayerView>) -> JsonView {
    json_of_list(players, |p: ChampSelectPlayerView| json_of_player(p))
}

/// An action read from a document.
pub open spec fn action_of_json(j: JsonView) -> Option<ChampSelectActionView> {
    match (
        required_i64(j, "id"@),
        required_i64(j, "actorCellId"@),
        required_i64(j, "championId"@),
        required_bool(j, "completed"@),
        required_text(j, "type"@),
        bool_or_false(j, "isAllyAction"@),
    ) {
        (
            Some(id),
            Some(actor_cell_id),
            Some(champion_id),
            Some(completed),
            Some(action_type),
            Some(is_ally_action),
        ) => Some(
            ChampSelectActionView {
                id,
                actor_cell_id,
                champion_id,
                completed,
                action_type,
                is_ally_action,
            },
        ),
        _ => None,
    }
}

/// An action written as a document.
pub open spec fn json_of_action(a: ChampSelectActionView) -> JsonView {
    JsonView::Object(
        seq![
            ("id"@, json_of_i64(a.id)),
            ("actorCellId"@, json_of_i64(a.actor_cell_id)),
            ("championId"@, json_of_i64(a.champion_id)),
            ("completed"@, JsonView::Bool(a.completed)),
            ("type"@, JsonView::String(a.action_type)),
            ("isAllyAction"@, JsonView::Bool(a.is_ally_action)),
        ],
    )
}

/// The actions of one turn read from a document.
pub open spec fn turn_of_json(j: JsonView) -> Option<Seq<ChampSelectActionView>> {
    list_of_json(j, |v: JsonView| action_of_json(v))
}

/// The actions of one turn written as a document.
pub open spec fn json_of_turn(turn: Seq<ChampSelectActionView>) -> JsonView {
    json_of_list(turn, |a: ChampSelectActionView| json_of_action(a))
}

/// The actions of all turns read from a document.
pub open spec fn turns_of_json(j: JsonView) -> Option<Seq<Seq<ChampSelectActionView>>> {
    list_of_json(j, |v: JsonView| turn_of_json(v))
}

/// The actions of all turns written as a document.
pub open spec fn json_of_turns(turns: Seq<Seq<ChampSelectActionView>>) -> JsonView {
    json_of_list(turns, |t: Seq<ChampSelectActionView>| json_of_turn(t))
}

/// The bans read from a document.
pub open spec fn bans_of_json(j: JsonView) -> Option<ChampSelectBansView> {
    match (
        required_list(j, "myTeamBans"@, |v: JsonView| i64_of_json(v)),
        required_list(j, "theirTeamBans"@, |v: JsonView| i64_of_json(v)),
        i32_or_zero(j, "numBans"@),
    ) {
        (Some(my_team_bans), Some(their_team_bans), Some(num_bans)) => Some(
            ChampSelectBansView { my_team_bans, their_team_bans, num_bans },
        ),
        _ => None,
    }
}

/// The bans written as a document.
pub open spec fn json_of_bans(b: ChampSelectBansView) -> JsonView {
    JsonView::Object(
        seq![
            ("myTeamBans"@, json_of_list(b.my_team_bans, |v: i64| json_of_i64(v))),
            ("theirTeamBans"@, json_of_list(b.their_team_bans, |v: i64| json_of_i64(v))),
            ("numBans"@, json_of_i64(b.num_bans as i64)),
        ],
    )
}

/// The timer read from a document.
pub open spec fn timer_of_json(j: JsonView) -> Option<ChampSelectTimerView> {
    match (
        required_text(j, "phase"@),
        i64_or_zero(j, "adjustedTimeLeftInPhase"@),
        i64_or_zero(j, "totalTimeInPhase"@),
    ) {
        (Some(phase), Some(adjusted_time_left_in_phase), Some(total_time_in_phase)) => Some(
            ChampSelectTimerView { phase, adjusted_time_left_in_phase, total_time_in_phase },
        ),
        _ => None,
    }
}

/// The timer written as a document.
pub open spec fn json_of_timer(t: ChampSelectTimerView) -> JsonView {
    JsonView::Object(
        seq![
            ("phase"@, JsonView::String(t.phase)),
            ("adjustedTimeLeftInPhase"@, json_of_i64(t.adjusted_time_left_in_phase)),
            ("totalTimeInPhase"@, json_of_i64(t.total_time_in_phase)),
        ],
    )
}

/// A member that must be there, read by `read`.
pub open spec fn required_record<T>(
    j: JsonView,
    name: Seq<char>,
    read: spec_fn(JsonView) -> Option<T>,
) -> Option<T> {
    match j.get(name) {
        Some(v) => read(v),
        None => None,
    }
}

/// A champion select read from a document.
pub open spec fn session_of_json(j: JsonView) -> Option<ChampSelectSessionView> {
    match (
        required_record(j, "myTeam"@, |v: JsonView| players_of_json(v)),
        required_record(j, "theirTeam"@, |v: JsonView| players_of_json(v)),
        required_record(j, "actions"@, |v: JsonView| turns_of_json(v)),
        required_record(j, "bans"@, |v: JsonView| bans_of_json(v)),
        required_record(j, "timer"@, |v: JsonView| timer_of_json(v)),
        required_i64(j, "localPlayerCellId"@),
    ) {
        (
            Some(my_team),
            Some(their_team),
            Some(actions),
            Some(bans),
            Some(timer),
            Some(local_player_cell_id),
        ) => Some(
            ChampSelectSessionView {
                my_team,
                their_team,
                actions,
                bans,
                timer,
                local_player_cell_id,
            },
        ),
        _ => None,
    }
}

/// A champion select written as a document.
pub open spec fn json_of_session(s: ChampSelectSessionView) -> JsonView {
    JsonView::Object(
        seq![
            ("myTeam"@, json_of_players(s.my_team)),
            ("theirTeam"@, json_of_players(s.their_team)),
            ("actions"@, json_of_turns(s.actions)),
            ("bans"@, json_of_bans(s.bans)),
            ("timer"@, json_of_timer(s.timer)),
            ("localPlayerCellId"@, json_of_i64(s.local_player_cell_id)),
        ],
    )
}

/// An account read from a document.
pub open spec fn summoner_of_json(j: JsonView) -> Option<CurrentSummonerView> {
    match (
        required_text(j, "displayName"@),
        required_i64(j, "summonerId"@),
        required_text(j, "puuid"@),
        required_i64(j, "accountId"@),
        required_i64(j, "profileIconId"@),
        required_i64(j, "summonerLevel"@),
    ) {
        (
            Some(display_name),
            Some(summoner_id),
            Some(puuid),
            Some(account_id),
            Some(profile_icon_id),
            Some(summoner_level),
        ) => Some(
            CurrentSummonerView {
                display_name,
                summoner_id,
                puuid,
                account_id,
                profile_icon_id,
                summoner_level,
            },
        ),
        _ => None,
    }
}

/// An account written as a document.
pub open spec fn json_of_summoner(s: CurrentSummonerView) -> JsonView {
    JsonView::Object(
        seq![
            ("displayName"@, JsonView::String(s.display_name)),
            ("summonerId"@, json_of_i64(s.summoner_id)),
            ("puuid"@, JsonView::String(s.puuid)),
            ("accountId"@, json_of_i64(s.account_id)),
            ("profileIconId"@, json_of_i64(s.profile_icon_id)),
            ("summonerLevel"@, json_of_i64(s.summoner_level)),
        ],
    )
}

impl ChampSelectPlayer {
    /// Reads a participant; `None` where the document is of another shape.
    pub fn from_json(j: &Json) -> (player: Option<Self>)
        ensures
            match player {
                Some(p) => player_of_json(j@) == Some(p@),
                None => player_of_json(j@) is None,
            },
    {
        let cell_id = member_i64(j, "cellId")?;
        let champion_id = member_i64(j, "championId")?;
        let summoner_id = member_optional_i64(j, "summonerId")?;
        let assigned_position = member_text(j, "assignedPosition")?;
        let spell1_id = member_optional_i64(j, "spell1Id")?;
        let spell2_id = member_optional_i64(j, "spell2Id")?;
        let player_type = member_text_or_empty(j, "playerType")?;
        Some(
            ChampSelectPlayer {
                cell_id,
                champion_id,
                summoner_id,
                assigned_position,
                spell1_id,
                spell2_id,
                player_type,
            },
        )
    }

    /// Writes the participant as a document.
    pub fn to_json(&self) -> (j: Json)
        ensures
            j@ == json_of_player(self@),
    {
        let mut members: Vec<(String, Json)> = Vec::new();
        members.push(member("cellId", json_from_i64(self.cell_id)));
        members.push(member("championId", json_from_i64(self.champion_id)));
        members.push(member("summonerId", json_from_optional_i64(self.summoner_id)));
        members.push(member("assignedPosition", json_from_text(&self.assigned_position)));
        members.push(member("spell1Id", json_from_optional_i64(self.spell1_id)));
        members.push(member("spell2Id", json_from_optional_i64(self.spell2_id)));
        members.push(member("playerType", json_from_text(&self.player_type)));
        let j = Json::Object(members);
        assert(j@->Object_0 =~= json_of_player(self@)->Object_0);
        j
    }
}

impl ChampSelectAction {
    /// Reads an action; `None` where the document is of another shape.
    pub fn from_json(j: &Json) -> (action: Option<Self>)
        ensures
            match action {
                Some(a) => action_of_json(j@) == Some(a@),
                None => action_of_json(j@) is None,
            },
    {
        let id = member_i64(j, "id")?;
        let actor_cell_id = member_i64(j, "actorCellId")?;
        let champion_id = member_i64(j, "championId")?;
        let completed = member_bool(j, "completed")?;
        let action_type = member_text(j, "type")?;
        let is_ally_action = member_bool_or_false(j, "isAllyAction")?;
        Some(
            ChampSelectAction {
                id,
                actor_cell_id,
                champion_id,
                completed,
                action_type,
                is_ally_action,
            },
        )
    }

    /// Writes the action as a document.
    pub fn to_json(&self) -> (j: Json)
        ensures
            j@ == json_of_action(self@),
    {
        let mut members: Vec<(String, Json)> = Vec::new();
        members.push(member("id", json_from_i64(self.id)));
        members.push(member("actorCellId", json_from_i64(self.actor_cell_id)));
        members.push(member("championId", json_from_i64(self.champion_id)));
        members.push(member("completed", Json::Bool(self.completed)));
        members.push(member("type", json_from_text(&self.action_type)));
        members.push(member("isAllyAction", Json::Bool(self.is_ally_action)));
        let j = Json::Object(members);
        assert(j@->Object_0 =~= json_of_action(self@)->Object_0);
        j
    }
}

/// Reads a roster; `None` where the document is of another shape.
pub fn players_from_json(j: &Json) -> (players: Option<Vec<ChampSelectPlayer>>)
    ensures
        match players {
            Some(list) => players_of_json(j@) == Some(players_view(list@)),
            None => players_of_json(j@) is None,
        },
{
    let ghost read = |v: JsonView| player_of_json(v);
    match j {
        Json::Array(items) => {
            let ghost all = j@->Array_0;
            let mut out: Vec<ChampSelectPlayer> = Vec::new();
            let mut i: usize = 0;
            while i < items.len()
                invariant
                    i <= items.len(),
                    out.len() == i,
                    read == |v: JsonView| player_of_json(v),
                    j@ == JsonView::Array(all),
                    all.len() == items.len(),
                    forall|k: int| 0 <= k < items.len() ==> all[k] == (#[trigger] items[k])@,
                    forall|k: int| 0 <= k < i ==> read(#[trigger] all[k]) == Some(out[k]@),
                decreases items.len() - i,
            {
                match ChampSelectPlayer::from_json(&items[i]) {
                    Some(p) => {
                        out.push(p);
                    },
                    None => {
                        assert(read(all[i as int]) is None);
                        return None;
                    },
                }
                i += 1;
            }
            assert(players_of_json(j@)->0 =~= players_view(out@));
            Some(out)
        },
        _ => None,
    }
}

/// Writes a roster as a document.
pub fn json_from_players(players: &Vec<ChampSelectPlayer>) -> (j: Json)
    ensures
        j@ == json_of_players(players_view(players@)),
{
    let mut out: Vec<Json> = Vec::new();
    let mut i: usize = 0;
    while i < players.len()
        invariant
            i <= players.len(),
            out.len() == i,
            forall|k: int| 0 <= k < i ==> (#[trigger] out[k])@ == json_of_player(players[k]@),
        decreases players.len() - i,
    {
        out.push(players[i].to_json());
        i += 1;
    }
    let j = Json::Array(out);
    assert(j@->Array_0 =~= json_of_players(players_view(players@))->Array_0);
    j
}

/// Reads the actions of one turn; `None` where the document is of another
/// shape.
pub fn turn_from_json(j: &Json) -> (turn: Option<Vec<ChampSelectAction>>)
    ensures
        match turn {
            Some(list) => turn_of_json(j@) == Some(turn_view(list@)),
            None => turn_of_json(j@) is None,
        },
{
    let ghost read = |v: JsonView| action_of_json(v);
    match j {
        Json::Array(items) => {
            let ghost all = j@->Array_0;
            let mut out: Vec<ChampSelectAction> = Vec::new();
            let mut i: usize = 0;
            while i < items.len()
                invariant
                    i <= items.len(),
                    out.len() == i,
                    read == |v: JsonView| action_of_json(v),
                    j@ == JsonView::Array(all),
                    all.len() == items.len(),
                    forall|k: int| 0 <= k < items.len() ==> all[k] == (#[trigger] items[k])@,
                    forall|k: int| 0 <= k < i ==> read(#[trigger] all[k]) == Some(out[k]@),
                decreases items.len() - i,
            {
                match ChampSelectAction::from_json(&items[i]) {
                    Some(a) => {
                        out.push(a);
                    },
                    None => {
                        assert(read(all[i as int]) is None);
                        return None;
                    },
                }
                i += 1;
            }
            assert(turn_of_json(j@)->0 =~= turn_view(out@));
            Some(out)
        },
        _ => None,
    }
}

/// Writes the actions of one turn as a document.
pub fn json_from_turn(turn: &Vec<ChampSelectAction>) -> (j: Json)
    ensures
        j@ == json_of_turn(turn_view(turn@)),
{
    let mut out: Vec<Json> = Vec::new();
    let mut i: usize = 0;
    while i < turn.len()
        invariant
            i <= turn.len(),
            out.len() == i,
            forall|k: int| 0 <= k < i ==> (#[trigger] out[k])@ == json_of_action(turn[k]@),
        decreases turn.len() - i,
    {
        out.push(turn[i].to_json());
        i += 1;
    }
    let j = Json::Array(out);
    assert(j@->Array_0 =~= json_of_turn(turn_view(turn@))->Array_0);
    j
}

/// Reads the actions of all turns; `None` where the document is of another
/// shape.
pub fn turns_from_json(j: &Json) -> (turns: Option<Vec<Vec<ChampSelectAction>>>)
    ensures
        match turns {
            Some(list) => turns_of_json(j@) == Some(turns_view(list@)),
            None => turns_of_json(j@) is None,
        },
{
    let ghost read = |v: JsonView| turn_of_json(v);
    match j {
        Json::Array(items) => {
            let ghost all = j@->Array_0;
            let mut out: Vec<Vec<ChampSelectAction>> = Vec::new();
            let mut i: usize = 0;
            while i < items.len()
                invariant
                    i <= items.len(),
                    out.len() == i,
                    read == |v: JsonView| turn_of_json(v),
                    j@ == JsonView::Array(all),
                    all.len() == items.len(),
                    forall|k: int| 0 <= k < items.len() ==> all[k] == (#[trigger] items[k])@,
                    forall|k: int|
                        0 <= k < i ==> read(#[trigger] all[k]) == Some(turn_view(out[k]@)),
                decreases items.len() - i,
            {
                match turn_from_json(&items[i]) {
                    Some(t) => {
                        out.push(t);
                    },
                    None => {
                        assert(read(all[i as int]) is None);
                        return None;
                    },
                }
                i += 1;
            }
            assert(turns_of_json(j@)->0 =~= turns_view(out@));
            Some(out)
        },
        _ => None,
    }
}

/// Writes the actions of all turns as a document.
pub fn json_from_turns(turns: &Vec<Vec<ChampSelectAction>>) -> (j: Json)
    ensures
        j@ == json_of_turns(turns_view(turns@)),
{
    let mut out: Vec<Json> = Vec::new();
    let mut i: usize = 0;
    while i < turns.len()
        invariant
            i <= turns.len(),
            out.len() == i,
            forall|k: int|
                0 <= k < i ==> (#[trigger] out[k])@ == json_of_turn(turn_view(turns[k]@)),
        decreases turns.len() - i,
    {
        out.push(json_from_turn(&turns[i]));
        i += 1;
    }
    let j = Json::Array(out);
    assert(j@->Array_0 =~= json_of_turns(turns_view(turns@))->Array_0);
    j
}

impl ChampSelectBans {
    /// Reads the bans; `None` where the document is of another shape.
    pub fn from_json(j: &Json) -> (bans: Option<Self>)
        ensures
            match bans {
                Some(b) => bans_of_json(j@) == Some(b@),
                None => bans_of_json(j@) is None,
            },
    {
        let my_team_bans = member_i64_list(j, "myTeamBans")?;
        let their_team_bans = member_i64_list(j, "theirTeamBans")?;
        let num_bans = member_i32_or_zero(j, "numBans")?;
        Some(ChampSelectBans { my_team_bans, their_team_bans, num_bans })
    }

    /// Writes the bans as a document.
    pub fn to_json(&self) -> (j: Json)
        ensures
            j@ == json_of_bans(self@),
    {
        let mut members: Vec<(String, Json)> = Vec::new();
        members.push(member("myTeamBans", json_from_i64_list(&self.my_team_bans)));
        members.push(member("theirTeamBans", json_from_i64_list(&self.their_team_bans)));
        members.push(member("numBans", json_from_i64(self.num_bans as i64)));
        let j = Json::Object(members);
        assert(j@->Object_0 =~= json_of_bans(self@)->Object_0);
        j
    }
}

impl ChampSelectTimer {
    /// Reads the timer; `None` where the document is of another shape.
    pub fn from_json(j: &Json) -> (timer: Option<Self>)
        ensures
            match timer {
                Some(t) => timer_of_json(j@) == Some(t@),
                None => timer_of_json(j@) is None,
            },
    {
        let phase = member_text(j, "phase")?;
        let adjusted_time_left_in_phase = member_i64_or_zero(j, "adjustedTimeLeftInPhase")?;
        let total_time_in_phase = member_i64_or_zero(j, "totalTimeInPhase")?;
        Some(ChampSelectTimer { phase, adjusted_time_left_in_phase, total_time_in_phase })
    }

    /// Writes the timer as a document.
    pub fn to_json(&self) -> (j: Json)
        ensures
            j@ == json_of_timer(self@),
    {
        let mut members: Vec<(String, Json)> = Vec::new();
        members.push(member("phase", json_from_text(&self.phase)));
        members.push(
            member("adjustedTimeLeftInPhase", json_from_i64(self.adjusted_time_left_in_phase)),
        );
        members.push(member("totalTimeInPhase", json_from_i64(self.total_time_in_phase)));
        let j = Json::Object(members);
        assert(j@->Object_0 =~= json_of_timer(self@)->Object_0);
        j
    }
}

impl ChampSelectSession {
    /// Reads a champion select; `None` where the document is of another
    /// shape.
    pub fn from_json(j: &Json) -> (session: Option<Self>)
        ensures
            match session {
                Some(s) => session_of_json(j@) == Some(s@),
                None => session_of_json(j@) is None,
            },
    {
        let my_team = players_from_json(j.get("myTeam")?)?;
        let their_team = players_from_json(j.get("theirTeam")?)?;
        let actions = turns_from_json(j.get("actions")?)?;
        let bans = ChampSelectBans::from_json(j.get("bans")?)?;
        let timer = ChampSelectTimer::from_json(j.get("timer")?)?;
        let local_player_cell_id = member_i64(j, "localPlayerCellId")?;
        Some(
            ChampSelectSession {
                my_team,
                their_team,
                actions,
                bans,
                timer,
                local_player_cell_id,
            },
        )
    }

    /// Writes the champion select as a document.
    pub fn to_json(&self) -> (j: Json)
        ensures
            j@ == json_of_session(self@),
    {
        let mut members: Vec<(String, Json)> = Vec::new();
        members.push(member("myTeam", json_from_players(&self.my_team)));
        members.push(member("theirTeam", json_from_players(&self.their_team)));
        members.push(member("actions", json_from_turns(&self.actions)));
        members.push(member("bans", self.bans.to_json()));
        members.push(member("timer", self.timer.to_json()));
        members.push(member("localPlayerCellId", json_from_i64(self.local_player_cell_id)));
        let j = Json::Object(members);
        assert(j@->Object_0 =~= json_of_session(self@)->Object_0);
        j
    }
}

impl CurrentSummoner {
    /// Reads an account; `None` where the document is of another shape.
    pub fn from_json(j: &Json) -> (summoner: Option<Self>)
        ensures
            match summoner {
                Some(s) => summoner_of_json(j@) == Some(s@),
                None => summoner_of_json(j@) is None,
            },
    {
        let display_name = member_text(j, "displayName")?;
        let summoner_id = member_i64(j, "summonerId")?;
        let puuid = member_text(j, "puuid")?;
        let account_id = member_i64(j, "accountId")?;
        let profile_icon_id = member_i64(j, "profileIconId")?;
        let summoner_level = member_i64(j, "summonerLevel")?;
        Some(
            CurrentSummoner {
                display_name,
                summoner_id,
                puuid,
                account_id,
                profile_icon_id,
                summoner_level,
            },
        )
    }

    /// Writes the account as a document.
    pub fn to_json(&self) -> (j: Json)
        ensures
            j@ == json_of_summoner(self@),
    {
        let mut members: Vec<(String, Json)> = Vec::new();
        members.push(member("displayName", json_from_text(&self.display_name)));
        members.push(member("summonerId", json_from_i64(self.summoner_id)));
        members.push(member("puuid", json_from_text(&self.puuid)));
        members.push(member("accountId", json_from_i64(self.account_id)));
        members.push(member("profileIconId", json_from_i64(self.profile_icon_id)));
        members.push(member("summonerLevel", json_from_i64(self.summoner_level)));
        let j = Json::Object(members);
        assert(j@->Object_0 =~= json_of_summoner(self@)->Object_0);
        j
    }
}

/// An event of the stream written as a document.
pub open spec fn json_of_event(e: LcuEventView) -> JsonView {
    JsonView::Object(
        seq![
            ("uri"@, JsonView::String(e.uri)),
            ("event_type"@, JsonView::String(e.event_type)),
            ("data"@, e.data),
        ],
    )
}

impl LcuEvent {
    /// Writes the event as a document.
    pub fn to_json(&self) -> (j: Json)
        ensures
            j@ == json_of_event(self@),
    {
        let mut members: Vec<(String, Json)> = Vec::new();
        members.push(member("uri", json_from_text(&self.uri)));
        members.push(member("event_type", json_from_text(&self.event_type)));
        members.push(member("data", self.data.clone()));
        let j = Json::Object(members);
        assert(j@->Object_0 =~= json_of_event(self@)->Object_0);
        j
    }
}

/// Reading a participant that was written gives the participant again.
pub proof fn lemma_player_round_trip(p: ChampSelectPlayerView)
    ensures
        player_of_json(json_of_player(p)) == Some(p),
{
    reveal_strlit("cellId");
    assert("cellId"@.len() == 6);
    reveal_strlit("championId");
    assert("championId"@.len() == 10);
    reveal_strlit("summonerId");
    assert("summonerId"@.len() == 10);
    reveal_strlit("assignedPosition");
    assert("assignedPosition"@.len() == 16);
    reveal_strlit("spell1Id");
    assert("spell1Id"@.len() == 8);
    reveal_strlit("spell2Id");
    assert("spell2Id"@.len() == 8);
    reveal_strlit("playerType");
    assert("playerType"@.len() == 10);
    let members = json_of_player(p)->Object_0;
    assert("championId"@[0] != "summonerId"@[0]);
    assert("championId"@[0] != "playerType"@[0]);
    assert("summonerId"@[0] != "playerType"@[0]);
    assert("spell1Id"@[5] != "spell2Id"@[5]);
    lemma_member_found(members, "cellId"@, 0);
    lemma_member_found(members, "championId"@, 1);
    lemma_member_found(members, "summonerId"@, 2);
    lemma_member_found(members, "assignedPosition"@, 3);
    lemma_member_found(members, "spell1Id"@, 4);
    lemma_member_found(members, "spell2Id"@, 5);
    lemma_member_found(members, "playerType"@, 6);
}

/// Reading an action that was written gives the action again.
pub proof fn lemma_action_round_trip(a: ChampSelectActionView)
    ensures
        action_of_json(json_of_action(a)) == Some(a),
{
    reveal_strlit("id");
    assert("id"@.len() == 2);
    reveal_strlit("actorCellId");
    assert("actorCellId"@.len() == 11);
    reveal_strlit("championId");
    assert("championId"@.len() == 10);
    reveal_strlit("completed");
    assert("completed"@.len() == 9);
    reveal_strlit("type");
    assert("type"@.len() == 4);
    reveal_strlit("isAllyAction");
    assert("isAllyAction"@.len() == 12);
    let members = json_of_action(a)->Object_0;
    lemma_member_found(members, "id"@, 0);
    lemma_member_found(members, "actorCellId"@, 1);
    lemma_member_found(members, "championId"@, 2);
    lemma_member_found(members, "completed"@, 3);
    lemma_member_found(members, "type"@, 4);
    lemma_member_found(members, "isAllyAction"@, 5);
}

/// Reading a roster that was written gives the roster again.
pub proof fn lemma_players_round_trip(players: Seq<ChampSelectPlayerView>)
    ensures
        players_of_json(json_of_players(players)) == Some(players),
{
    let write = |p: ChampSelectPlayerView| json_of_player(p);
    let read = |v: JsonView| player_of_json(v);
    assert forall|i: int| 0 <= i < players.len() implies read(write(#[trigger] players[i]))
        == Some(players[i]) by {
        lemma_player_round_trip(players[i]);
    }
    lemma_list_round_trip(players, write, read);
}

/// Reading the actions of a turn that were written gives them again.
pub proof fn lemma_turn_round_trip(turn: Seq<ChampSelectActionView>)
    ensures
        turn_of_json(json_of_turn(turn)) == Some(turn),
{
    let write = |a: ChampSelectActionView| json_of_action(a);
    let read = |v: JsonView| action_of_json(v);
    assert forall|i: int| 0 <= i < turn.len() implies read(write(#[trigger] turn[i])) == Some(
        turn[i],
    ) by {
        lemma_action_round_trip(turn[i]);
    }
    lemma_list_round_trip(turn, write, read);
}

/// Reading the actions of all turns that were written gives them again.
pub proof fn lemma_turns_round_trip(turns: Seq<Seq<ChampSelectActionView>>)
    ensures
        turns_of_json(json_of_turns(turns)) == Some(turns),
{
    let write = |t: Seq<ChampSelectActionView>| json_of_turn(t);
    let read = |v: JsonView| turn_of_json(v);
    assert forall|i: int| 0 <= i < turns.len() implies read(write(#[trigger] turns[i])) == Some(
        turns[i],
    ) by {
        lemma_turn_round_trip(turns[i]);
    }
    lemma_list_round_trip(turns, write, read);
}

/// Reading the bans that were written gives the bans again.
pub proof fn lemma_bans_round_trip(b: ChampSelectBansView)
    ensures
        bans_of_json(json_of_bans(b)) == Some(b),
{
    reveal_strlit("myTeamBans");
    assert("myTeamBans"@.len() == 10);
    reveal_strlit("theirTeamBans");
    assert("theirTeamBans"@.len() == 13);
    reveal_strlit("numBans");
    assert("numBans"@.len() == 7);
    let members = json_of_bans(b)->Object_0;
    lemma_member_found(members, "myTeamBans"@, 0);
    lemma_member_found(members, "theirTeamBans"@, 1);
    lemma_member_found(members, "numBans"@, 2);
    let write = |v: i64| json_of_i64(v);
    let read = |v: JsonView| i64_of_json(v);
    lemma_list_round_trip(b.my_team_bans, write, read);
    lemma_list_round_trip(b.their_team_bans, write, read);
}

/// Reading the timer that was written gives the timer again.
pub proof fn lemma_timer_round_trip(t: ChampSelectTimerView)
    ensures
        timer_of_json(json_of_timer(t)) == Some(t),
{
    reveal_strlit("phase");
    assert("phase"@.len() == 5);
    reveal_strlit("adjustedTimeLeftInPhase");
    assert("adjustedTimeLeftInPhase"@.len() == 23);
    reveal_strlit("totalTimeInPhase");
    assert("totalTimeInPhase"@.len() == 16);
    let members = json_of_timer(t)->Object_0;
    lemma_member_found(members, "phase"@, 0);
    lemma_member_found(members, "adjustedTimeLeftInPhase"@, 1);
    lemma_member_found(members, "totalTimeInPhase"@, 2);
}

/// Writing a champion select as a document and reading the document gives
/// the champion select again.
pub proof fn lemma_session_round_trip(s: ChampSelectSessionView)
    ensures
        session_of_json(json_of_session(s)) == Some(s),
{
    reveal_strlit("myTeam");
    assert("myTeam"@.len() == 6);
    reveal_strlit("theirTeam");
    assert("theirTeam"@.len() == 9);
    reveal_strlit("actions");
    assert("actions"@.len() == 7);
    reveal_strlit("bans");
    assert("bans"@.len() == 4);
    reveal_strlit("timer");
    assert("timer"@.len() == 5);
    reveal_strlit("localPlayerCellId");
    assert("localPlayerCellId"@.len() == 17);
    let members = json_of_session(s)->Object_0;
    lemma_member_found(members, "myTeam"@, 0);
    lemma_member_found(members, "theirTeam"@, 1);
    lemma_member_found(members, "actions"@, 2);
    lemma_member_found(members, "bans"@, 3);
    lemma_member_found(members, "timer"@, 4);
    lemma_member_found(members, "localPlayerCellId"@, 5);
    lemma_players_round_trip(s.my_team);
    lemma_players_round_trip(s.their_team);
    lemma_turns_round_trip(s.actions);
    lemma_bans_round_trip(s.bans);
    lemma_timer_round_trip(s.timer);
}

/// Writing an account as a document and reading the document gives the
/// account again.
pub proof fn lemma_summoner_round_trip(s: CurrentSummonerView)
    ensures
        summoner_of_json(json_of_summoner(s)) == Some(s),
{
    reveal_strlit("displayName");
    assert("displayName"@.len() == 11);
    reveal_strlit("summonerId");
    assert("summonerId"@.len() == 10);
    reveal_strlit("puuid");
    assert("puuid"@.len() == 5);
    reveal_strlit("accountId");
    assert("accountId"@.len() == 9);
    reveal_strlit("profileIconId");
    assert("profileIconId"@.len() == 13);
    reveal_strlit("summonerLevel");
    assert("summonerLevel"@.len() == 13);
    let members = json_of_summoner(s)->Object_0;
    assert("profileIconId"@[0] != "summonerLevel"@[0]);
    lemma_member_found(members, "displayName"@, 0);
    lemma_member_found(members, "summonerId"@, 1);
    lemma_member_found(members, "puuid"@, 2);
    lemma_member_found(members, "accountId"@, 3);
    lemma_member_found(members, "profileIconId"@, 4);
    lemma_member_found(members, "summonerLevel"@, 5);
}

} // verus!

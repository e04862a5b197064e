//! The rows of a book of teams as plain sequences: what it means for them
//! to be consistent, what each transition of the team state machine makes
//! of them, and the laws that follow.
//!
//! Consistent rows are what a relational store with keys and constraints
//! keeps: no two teams share an id, a student has at most one row for a
//! team, be it as member or as invitee and never both, every row belongs to
//! a team that exists, and every team has exactly one leader.

use crate::failure::Failure;
use crate::seqs::{
    distinct_by, filter_keeps_distinct, filter_keeps_exactly, filter_of_all, filter_of_none,
    filter_of_one_key, filter_of_some,
};
use crate::team::{
    first_fault, invitation_verdict, invitee_fault, invitees_sound, leader_verdict,
    may_use_teams, removal_verdict, request_rows, standing_from, MemberId, Standing, Team,
    TeamMember,
    TeamRequest,
};
use crate::text::utf8;
use crate::user::User;
use vstd::prelude::*;

verus! {

/// The rows of a book, as plain sequences.
pub struct Rows {
    pub teams: Seq<Team>,
    pub members: Seq<TeamMember>,
    pub requests: Seq<TeamRequest>,
    /// The id that the next team gets.
    pub next_id: int,
}

pub open spec fn team_key() -> spec_fn(Team) -> i32 {
    |team: Team| team.id
}

pub open spec fn member_key() -> spec_fn(TeamMember) -> (i32, i32) {
    |row: TeamMember| (row.team_id, row.student_id)
}

pub open spec fn request_key() -> spec_fn(TeamRequest) -> (i32, i32) {
    |row: TeamRequest| (row.team_id, row.student_id)
}

/// The leader rows of one team.
pub open spec fn leader_of(team: i32) -> spec_fn(TeamMember) -> bool {
    |row: TeamMember| row.team_id == team && row.is_leader
}

/// The member rows of one student in one team.
pub open spec fn member_at(team: i32, student: i32) -> spec_fn(TeamMember) -> bool {
    |row: TeamMember| row.team_id == team && row.student_id == student
}

/// The request rows of one student for one team.
pub open spec fn request_at(team: i32, student: i32) -> spec_fn(TeamRequest) -> bool {
    |row: TeamRequest| row.team_id == team && row.student_id == student
}

/// The request rows of one team.
pub open spec fn request_for(team: i32) -> spec_fn(TeamRequest) -> bool {
    |row: TeamRequest| row.team_id == team
}

/// The member rows of one team.
pub open spec fn member_in(team: i32) -> spec_fn(TeamMember) -> bool {
    |row: TeamMember| row.team_id == team
}

impl Rows {
    pub open spec fn has_team(self, id: i32) -> bool {
        exists|i: int| 0 <= i < self.teams.len() && (#[trigger] self.teams[i]).id == id
    }

    /// The member row of `student` in `team`, if there is one.
    pub open spec fn has_member(self, team: i32, student: i32) -> bool {
        exists|i: int|
            0 <= i < self.members.len() && member_at(team, student)(#[trigger] self.members[i])
    }

    pub open spec fn has_leader(self, team: i32, student: i32) -> bool {
        self.members.contains(TeamMember { team_id: team, student_id: student, is_leader: true })
    }

    pub open spec fn has_request(self, team: i32, student: i32) -> bool {
        self.requests.contains(TeamRequest { team_id: team, student_id: student })
    }

    /// Whether some member row of `team` is a leader row.
    pub open spec fn is_led(self, team: i32) -> bool {
        exists|i: int| 0 <= i < self.members.len() && leader_of(team)(#[trigger] self.members[i])
    }

    /// How `student` stands to `team`.
    pub open spec fn standing(self, team: i32, student: i32) -> Standing {
        if self.has_leader(team, student) {
            Standing::Leader
        } else if self.has_member(team, student) {
            Standing::Member
        } else if self.has_request(team, student) {
            Standing::Requested
        } else {
            Standing::NoRelation
        }
    }

    /// The leader flag of the member row of `student` in `team`.
    pub open spec fn membership(self, team: i32, student: i32) -> Option<bool> {
        match self.standing(team, student) {
            Standing::Leader => Some(true),
            Standing::Member => Some(false),
            _ => None,
        }
    }

    /// What a store with keys and constraints guarantees of its rows.
    pub open spec fn consistent(self) -> bool {
        &&& 1 <= self.next_id <= i32::MAX
        &&& distinct_by(self.teams, team_key())
        &&& distinct_by(self.members, member_key())
        &&& distinct_by(self.requests, request_key())
        &&& forall|i: int| 0 <= i < self.teams.len() ==> (#[trigger] self.teams[i]).id < self.next_id
        &&& forall|i: int, j: int|
            #![trigger self.members[i], self.requests[j]]
            0 <= i < self.members.len() && 0 <= j < self.requests.len() ==> member_key()(
                self.members[i],
            ) != request_key()(self.requests[j])
        &&& forall|i: int|
            0 <= i < self.members.len() ==> self.has_team((#[trigger] self.members[i]).team_id)
        &&& forall|i: int|
            0 <= i < self.requests.len() ==> self.has_team((#[trigger] self.requests[i]).team_id)
        &&& forall|i: int| 0 <= i < self.teams.len() ==> self.is_led((#[trigger] self.teams[i]).id)
        &&& forall|i: int, j: int|
            #![trigger self.members[i], self.members[j]]
            0 <= i < j < self.members.len() && self.members[i].team_id == self.members[j].team_id
                ==> !(self.members[i].is_leader && self.members[j].is_leader)
    }
}

/// The id of the user whose address is `address`, byte for byte: the first
/// such user of the table.
pub open spec fn resolved_in(users: Seq<User>, address: Seq<u8>) -> Option<i32>
    decreases users.len(),
{
    if users.len() == 0 {
        None
    } else if utf8(users[0].email@) == address {
        Some(users[0].id)
    } else {
        resolved_in(users.drop_first(), address)
    }
}

/// The ids that a list of addresses resolves to.
pub open spec fn all_resolved_in(users: Seq<User>, addresses: Seq<Seq<u8>>) -> Seq<Option<i32>> {
    Seq::new(addresses.len(), |i: int| resolved_in(users, addresses[i]))
}

/// What creating a team comes to, given what the invitees resolved to: the
/// gate, then the supply of ids, then the first invitee with a fault.
pub open spec fn creation_verdict(
    rows: Rows,
    leader: User,
    paid: bool,
    resolved: Seq<Option<i32>>,
) -> Result<(), Failure> {
    if !may_use_teams(leader, paid) {
        Err(Failure::Unauthorized)
    } else if rows.next_id >= i32::MAX {
        Err(Failure::UpstreamUnavailable)
    } else {
        match first_fault(leader.id, resolved) {
            Some(failure) => Err(failure),
            None => Ok(()),
        }
    }
}

/// The rows after a team was created.
pub open spec fn created(
    rows: Rows,
    name: String,
    leader: i32,
    resolved: Seq<Option<i32>>,
) -> Rows {
    Rows {
        teams: rows.teams.push(Team { id: rows.next_id as i32, name }),
        members: rows.members.push(
            TeamMember { team_id: rows.next_id as i32, student_id: leader, is_leader: true },
        ),
        requests: rows.requests + request_rows(rows.next_id as i32, resolved),
        next_id: rows.next_id + 1,
    }
}

/// Every row of consistent rows belongs to a team numbered before the next
/// id.
pub proof fn rows_lie_below_next_id(rows: Rows)
    requires
        rows.consistent(),
    ensures
        forall|i: int|
            0 <= i < rows.members.len() ==> (#[trigger] rows.members[i]).team_id < rows.next_id,
        forall|i: int|
            0 <= i < rows.requests.len() ==> (#[trigger] rows.requests[i]).team_id < rows.next_id,
{
    assert forall|i: int| 0 <= i < rows.members.len() implies (#[trigger] rows.members[i]).team_id
        < rows.next_id by {
        let team = rows.members[i].team_id;
        assert(rows.has_team(team));
        let k = choose|k: int| 0 <= k < rows.teams.len() && (#[trigger] rows.teams[k]).id == team;
        assert(rows.teams[k].id < rows.next_id);
    }
    assert forall|i: int|
        0 <= i < rows.requests.len() implies (#[trigger] rows.requests[i]).team_id
        < rows.next_id by {
        let team = rows.requests[i].team_id;
        assert(rows.has_team(team));
        let k = choose|k: int| 0 <= k < rows.teams.len() && (#[trigger] rows.teams[k]).id == team;
        assert(rows.teams[k].id < rows.next_id);
    }
}

/// Creation keeps the rows consistent.
pub proof fn creation_is_consistent(
    rows: Rows,
    name: String,
    leader: i32,
    resolved: Seq<Option<i32>>,
)
    requires
        rows.consistent(),
        rows.next_id < i32::MAX,
        invitees_sound(leader, resolved),
    ensures
        created(rows, name, leader, resolved).consistent(),
{
    let after = created(rows, name, leader, resolved);
    let id = rows.next_id as i32;
    let tn = rows.teams.len() as int;
    let mn = rows.members.len() as int;
    let rn = rows.requests.len() as int;
    let fresh = request_rows(id, resolved);
    rows_lie_below_next_id(rows);
    assert(after.teams.len() == tn + 1);
    assert(after.members.len() == mn + 1);
    assert(after.requests.len() == rn + fresh.len());
    assert forall|i: int| 0 <= i < tn implies #[trigger] after.teams[i] == rows.teams[i] by {}
    assert forall|i: int| 0 <= i < mn implies #[trigger] after.members[i] == rows.members[i] by {}
    assert forall|i: int| 0 <= i < rn implies #[trigger] after.requests[i] == rows.requests[i] by {}
    assert forall|i: int| rn <= i < rn + fresh.len() implies #[trigger] after.requests[i] == (
    TeamRequest { team_id: id, student_id: resolved[i - rn].unwrap() }) by {
        assert(after.requests[i] == fresh[i - rn]);
    }
    assert(distinct_by(after.teams, team_key())) by {
        assert forall|i: int, j: int|
            #![trigger after.teams[i], after.teams[j]]
            0 <= i < j < after.teams.len() implies team_key()(after.teams[i]) != team_key()(
            after.teams[j],
        ) by {
            if j < tn {
                assert(team_key()(rows.teams[i]) != team_key()(rows.teams[j]));
            } else {
                assert(rows.teams[i].id < rows.next_id);
            }
        }
    }
    assert(distinct_by(after.members, member_key())) by {
        assert forall|i: int, j: int|
            #![trigger after.members[i], after.members[j]]
            0 <= i < j < after.members.len() implies member_key()(after.members[i])
            != member_key()(after.members[j]) by {
            if j < mn {
                assert(member_key()(rows.members[i]) != member_key()(rows.members[j]));
            } else {
                assert(rows.members[i].team_id < rows.next_id);
            }
        }
    }
    assert(distinct_by(after.requests, request_key())) by {
        assert forall|i: int, j: int|
            #![trigger after.requests[i], after.requests[j]]
            0 <= i < j < after.requests.len() implies request_key()(after.requests[i])
            != request_key()(after.requests[j]) by {
            if j < rn {
                assert(request_key()(rows.requests[i]) != request_key()(rows.requests[j]));
            } else if i < rn {
                assert(rows.requests[i].team_id < rows.next_id);
            } else {
                assert(invitee_fault(leader, resolved, j - rn).is_none());
                assert(invitee_fault(leader, resolved, i - rn).is_none());
                assert(resolved[j - rn] != resolved[i - rn]);
            }
        }
    }
    assert forall|i: int| 0 <= i < after.teams.len() implies (#[trigger] after.teams[i]).id
        < after.next_id by {
        if i < tn {
            assert(rows.teams[i].id < rows.next_id);
        }
    }
    assert forall|i: int, j: int|
        #![trigger after.members[i], after.requests[j]]
        0 <= i < after.members.len() && 0 <= j < after.requests.len() implies member_key()(
        after.members[i],
    ) != request_key()(after.requests[j]) by {
        if i < mn && j < rn {
            assert(member_key()(rows.members[i]) != request_key()(rows.requests[j]));
        } else if i < mn {
            assert(rows.members[i].team_id < rows.next_id);
        } else if j < rn {
            assert(rows.requests[j].team_id < rows.next_id);
        } else {
            assert(invitee_fault(leader, resolved, j - rn).is_none());
        }
    }
    assert forall|t: i32| rows.has_team(t) implies after.has_team(t) by {
        let k = choose|k: int| 0 <= k < rows.teams.len() && (#[trigger] rows.teams[k]).id == t;
        assert(after.teams[k].id == t);
    }
    assert(after.has_team(id)) by {
        assert(after.teams[tn].id == id);
    }
    assert forall|i: int| 0 <= i < after.members.len() implies after.has_team(
        (#[trigger] after.members[i]).team_id,
    ) by {
        if i < mn {
            assert(rows.has_team(rows.members[i].team_id));
        }
    }
    assert forall|i: int| 0 <= i < after.requests.len() implies after.has_team(
        (#[trigger] after.requests[i]).team_id,
    ) by {
        if i < rn {
            assert(rows.has_team(rows.requests[i].team_id));
        }
    }
    assert forall|i: int| 0 <= i < after.teams.len() implies after.is_led(
        (#[trigger] after.teams[i]).id,
    ) by {
        if i < tn {
            let team = rows.teams[i].id;
            assert(rows.is_led(team));
            let k = choose|k: int|
                0 <= k < rows.members.len() && leader_of(team)(#[trigger] rows.members[k]);
            assert(leader_of(team)(after.members[k]));
        } else {
            assert(leader_of(id)(after.members[mn]));
        }
    }
    assert forall|i: int, j: int|
        #![trigger after.members[i], after.members[j]]
        0 <= i < j < after.members.len() && after.members[i].team_id
            == after.members[j].team_id implies !(after.members[i].is_leader
        && after.members[j].is_leader) by {
        if j < mn {
            assert(rows.members[i].team_id == rows.members[j].team_id ==> !(
            rows.members[i].is_leader && rows.members[j].is_leader));
        } else {
            assert(rows.members[i].team_id < rows.next_id);
        }
    }
}

/// Every team.
pub open spec fn any_team() -> spec_fn(Team) -> bool {
    |team: Team| true
}

/// Every member row.
pub open spec fn any_member() -> spec_fn(TeamMember) -> bool {
    |row: TeamMember| true
}

/// Every request row.
pub open spec fn any_request() -> spec_fn(TeamRequest) -> bool {
    |row: TeamRequest| true
}

/// Every team but one.
pub open spec fn other_team(team: i32) -> spec_fn(Team) -> bool {
    |row: Team| row.id != team
}

/// The member rows of every team but one.
pub open spec fn member_outside(team: i32) -> spec_fn(TeamMember) -> bool {
    |row: TeamMember| row.team_id != team
}

/// The request rows of every team but one.
pub open spec fn request_outside(team: i32) -> spec_fn(TeamRequest) -> bool {
    |row: TeamRequest| row.team_id != team
}

/// Every member row but that of one student in one team.
pub open spec fn other_member(team: i32, student: i32) -> spec_fn(TeamMember) -> bool {
    |row: TeamMember| !(row.team_id == team && row.student_id == student)
}

/// Every request row but that of one student for one team.
pub open spec fn other_request(team: i32, student: i32) -> spec_fn(TeamRequest) -> bool {
    |row: TeamRequest| !(row.team_id == team && row.student_id == student)
}

/// The rows that are left when only the teams, member rows and request
/// rows that pass a filter are kept.
pub open spec fn narrowed(
    rows: Rows,
    teams: spec_fn(Team) -> bool,
    members: spec_fn(TeamMember) -> bool,
    requests: spec_fn(TeamRequest) -> bool,
) -> Rows {
    Rows {
        teams: rows.teams.filter(teams),
        members: rows.members.filter(members),
        requests: rows.requests.filter(requests),
        next_id: rows.next_id,
    }
}

/// Dropping rows keeps the rest consistent, as long as a team is dropped
/// together with all its rows and no leader row is dropped without its
/// team.
pub proof fn narrowing_is_consistent(
    rows: Rows,
    teams: spec_fn(Team) -> bool,
    members: spec_fn(TeamMember) -> bool,
    requests: spec_fn(TeamRequest) -> bool,
)
    requires
        rows.consistent(),
        forall|i: int, j: int|
            #![trigger rows.teams[i], rows.members[j]]
            0 <= i < rows.teams.len() && 0 <= j < rows.members.len() && rows.members[j].team_id
                == rows.teams[i].id ==> (members(rows.members[j]) ==> teams(rows.teams[i])) && (
            rows.members[j].is_leader && teams(rows.teams[i]) ==> members(rows.members[j])),
        forall|i: int, j: int|
            #![trigger rows.teams[i], rows.requests[j]]
            0 <= i < rows.teams.len() && 0 <= j < rows.requests.len() && rows.requests[j].team_id
                == rows.teams[i].id && requests(rows.requests[j]) ==> teams(rows.teams[i]),
    ensures
        narrowed(rows, teams, members, requests).consistent(),
{
    let after = narrowed(rows, teams, members, requests);
    filter_keeps_exactly(rows.teams, teams);
    filter_keeps_exactly(rows.members, members);
    filter_keeps_exactly(rows.requests, requests);
    filter_keeps_distinct(rows.teams, team_key(), teams);
    filter_keeps_distinct(rows.members, member_key(), members);
    filter_keeps_distinct(rows.requests, request_key(), requests);
    assert forall|i: int| 0 <= i < after.teams.len() implies (#[trigger] after.teams[i]).id
        < after.next_id by {
        assert(rows.teams.contains(after.teams[i]));
        let k = choose|k: int| 0 <= k < rows.teams.len() && rows.teams[k] == after.teams[i];
        assert(rows.teams[k].id < rows.next_id);
    }
    assert forall|i: int, j: int|
        #![trigger after.members[i], after.requests[j]]
        0 <= i < after.members.len() && 0 <= j < after.requests.len() implies member_key()(
        after.members[i],
    ) != request_key()(after.requests[j]) by {
        assert(rows.members.contains(after.members[i]));
        assert(rows.requests.contains(after.requests[j]));
        let a = choose|a: int| 0 <= a < rows.members.len() && rows.members[a] == after.members[i];
        let b = choose|b: int|
            0 <= b < rows.requests.len() && rows.requests[b] == after.requests[j];
        assert(member_key()(rows.members[a]) != request_key()(rows.requests[b]));
    }
    assert forall|i: int| 0 <= i < after.members.len() implies after.has_team(
        (#[trigger] after.members[i]).team_id,
    ) by {
        let row = after.members[i];
        assert(rows.members.contains(row));
        let a = choose|a: int| 0 <= a < rows.members.len() && rows.members[a] == row;
        assert(rows.has_team(rows.members[a].team_id));
        let k = choose|k: int|
            0 <= k < rows.teams.len() && (#[trigger] rows.teams[k]).id == row.team_id;
        assert(members(rows.members[a]));
        assert(teams(rows.teams[k]));
        assert(after.teams.contains(rows.teams[k]));
        let c = choose|c: int| 0 <= c < after.teams.len() && after.teams[c] == rows.teams[k];
        assert(after.teams[c].id == row.team_id);
    }
    assert forall|i: int| 0 <= i < after.requests.len() implies after.has_team(
        (#[trigger] after.requests[i]).team_id,
    ) by {
        let row = after.requests[i];
        assert(rows.requests.contains(row));
        let a = choose|a: int| 0 <= a < rows.requests.len() && rows.requests[a] == row;
        assert(rows.has_team(rows.requests[a].team_id));
        let k = choose|k: int|
            0 <= k < rows.teams.len() && (#[trigger] rows.teams[k]).id == row.team_id;
        assert(requests(rows.requests[a]));
        assert(teams(rows.teams[k]));
        assert(after.teams.contains(rows.teams[k]));
        let c = choose|c: int| 0 <= c < after.teams.len() && after.teams[c] == rows.teams[k];
        assert(after.teams[c].id == row.team_id);
    }
    assert forall|i: int| 0 <= i < after.teams.len() implies after.is_led(
        (#[trigger] after.teams[i]).id,
    ) by {
        let team = after.teams[i];
        assert(rows.teams.contains(team));
        let a = choose|a: int| 0 <= a < rows.teams.len() && rows.teams[a] == team;
        assert(rows.is_led(rows.teams[a].id));
        let b = choose|b: int|
            0 <= b < rows.members.len() && leader_of(team.id)(#[trigger] rows.members[b]);
        assert(teams(rows.teams[a]));
        assert(members(rows.members[b]));
        assert(after.members.contains(rows.members[b]));
        let c = choose|c: int| 0 <= c < after.members.len() && after.members[c] == rows.members[b];
        assert(leader_of(team.id)(after.members[c]));
    }
    assert forall|i: int, j: int|
        #![trigger after.members[i], after.members[j]]
        0 <= i < j < after.members.len() && after.members[i].team_id
            == after.members[j].team_id implies !(after.members[i].is_leader
        && after.members[j].is_leader) by {
        assert(rows.members.contains(after.members[i]));
        assert(rows.members.contains(after.members[j]));
        let a = choose|a: int| 0 <= a < rows.members.len() && rows.members[a] == after.members[i];
        let b = choose|b: int| 0 <= b < rows.members.len() && rows.members[b] == after.members[j];
        assert(member_key()(after.members[i]) != member_key()(after.members[j]));
        if a < b {
            assert(rows.members[a].team_id == rows.members[b].team_id ==> !(
            rows.members[a].is_leader && rows.members[b].is_leader));
        } else if b < a {
            assert(rows.members[b].team_id == rows.members[a].team_id ==> !(
            rows.members[b].is_leader && rows.members[a].is_leader));
        }
    }
}

/// A plain member row for a student who does not stand to the team yet
/// keeps the rows consistent.
pub proof fn member_fits(rows: Rows, row: TeamMember)
    requires
        rows.consistent(),
        !row.is_leader,
        rows.has_team(row.team_id),
        !rows.has_member(row.team_id, row.student_id),
        !rows.has_request(row.team_id, row.student_id),
    ensures
        (Rows { members: rows.members.push(row), ..rows }).consistent(),
{
    let after = Rows { members: rows.members.push(row), ..rows };
    let mn = rows.members.len() as int;
    assert forall|i: int| 0 <= i < mn implies #[trigger] after.members[i] == rows.members[i] by {}
    assert forall|i: int, j: int|
        #![trigger after.members[i], after.members[j]]
        0 <= i < j < after.members.len() implies member_key()(after.members[i]) != member_key()(
        after.members[j],
    ) by {
        if j < mn {
            assert(member_key()(rows.members[i]) != member_key()(rows.members[j]));
        } else {
            assert(!member_at(row.team_id, row.student_id)(rows.members[i]));
        }
    }
    assert forall|i: int, j: int|
        #![trigger after.members[i], after.requests[j]]
        0 <= i < after.members.len() && 0 <= j < after.requests.len() implies member_key()(
        after.members[i],
    ) != request_key()(after.requests[j]) by {
        if i < mn {
            assert(member_key()(rows.members[i]) != request_key()(rows.requests[j]));
        } else {
            assert(rows.requests[j] != (TeamRequest {
                team_id: row.team_id,
                student_id: row.student_id,
            }));
        }
    }
    assert forall|team: i32| rows.has_team(team) implies after.has_team(team) by {
        let k = choose|k: int| 0 <= k < rows.teams.len() && (#[trigger] rows.teams[k]).id == team;
        assert(after.teams[k].id == team);
    }
    assert forall|i: int| 0 <= i < after.members.len() implies after.has_team(
        (#[trigger] after.members[i]).team_id,
    ) by {
        if i < mn {
            assert(rows.has_team(rows.members[i].team_id));
        } else {
            assert(after.members[i] == row);
        }
    }
    assert forall|i: int| 0 <= i < after.requests.len() implies after.has_team(
        (#[trigger] after.requests[i]).team_id,
    ) by {
        assert(rows.has_team(rows.requests[i].team_id));
    }
    assert forall|i: int| 0 <= i < after.teams.len() implies after.is_led(
        (#[trigger] after.teams[i]).id,
    ) by {
        let team = rows.teams[i].id;
        assert(rows.is_led(team));
        let k = choose|k: int|
            0 <= k < rows.members.len() && leader_of(team)(#[trigger] rows.members[k]);
        assert(leader_of(team)(after.members[k]));
    }
    assert forall|i: int, j: int|
        #![trigger after.members[i], after.members[j]]
        0 <= i < j < after.members.len() && after.members[i].team_id
            == after.members[j].team_id implies !(after.members[i].is_leader
        && after.members[j].is_leader) by {
        if j < mn {
            assert(rows.members[i].team_id == rows.members[j].team_id ==> !(
            rows.members[i].is_leader && rows.members[j].is_leader));
        }
    }
}

/// A request row for a student who does not stand to the team yet keeps
/// the rows consistent.
pub proof fn request_fits(rows: Rows, row: TeamRequest)
    requires
        rows.consistent(),
        rows.has_team(row.team_id),
        !rows.has_member(row.team_id, row.student_id),
        !rows.has_request(row.team_id, row.student_id),
    ensures
        (Rows { requests: rows.requests.push(row), ..rows }).consistent(),
{
    let after = Rows { requests: rows.requests.push(row), ..rows };
    let rn = rows.requests.len() as int;
    assert forall|i: int| 0 <= i < rn implies #[trigger] after.requests[i] == rows.requests[i] by {}
    assert forall|i: int, j: int|
        #![trigger after.requests[i], after.requests[j]]
        0 <= i < j < after.requests.len() implies request_key()(after.requests[i])
        != request_key()(after.requests[j]) by {
        if j < rn {
            assert(request_key()(rows.requests[i]) != request_key()(rows.requests[j]));
        } else {
            assert(rows.requests[i] != row);
        }
    }
    assert forall|i: int, j: int|
        #![trigger after.members[i], after.requests[j]]
        0 <= i < after.members.len() && 0 <= j < after.requests.len() implies member_key()(
        after.members[i],
    ) != request_key()(after.requests[j]) by {
        if j < rn {
            assert(member_key()(rows.members[i]) != request_key()(rows.requests[j]));
        } else {
            assert(!member_at(row.team_id, row.student_id)(rows.members[i]));
        }
    }
    assert forall|team: i32| rows.has_team(team) implies after.has_team(team) by {
        let k = choose|k: int| 0 <= k < rows.teams.len() && (#[trigger] rows.teams[k]).id == team;
        assert(after.teams[k].id == team);
    }
    assert forall|i: int| 0 <= i < after.requests.len() implies after.has_team(
        (#[trigger] after.requests[i]).team_id,
    ) by {
        if i < rn {
            assert(rows.has_team(rows.requests[i].team_id));
        } else {
            assert(after.requests[i] == row);
        }
    }
    assert forall|i: int| 0 <= i < after.members.len() implies after.has_team(
        (#[trigger] after.members[i]).team_id,
    ) by {
        assert(rows.has_team(rows.members[i].team_id));
    }
    assert forall|i: int| 0 <= i < after.teams.len() implies after.is_led(
        (#[trigger] after.teams[i]).id,
    ) by {
        let team = rows.teams[i].id;
        assert(rows.is_led(team));
        let k = choose|k: int|
            0 <= k < rows.members.len() && leader_of(team)(#[trigger] rows.members[k]);
        assert(leader_of(team)(after.members[k]));
    }
}

impl Rows {
    /// The request row of `student` for `team`, if there is one.
    pub open spec fn request_row(self, team: i32, student: i32) -> Option<TeamRequest> {
        if self.has_request(team, student) {
            Some(TeamRequest { team_id: team, student_id: student })
        } else {
            None
        }
    }

    /// The rows after `student` accepted the invitation to `team`: a plain
    /// member row more, the request row gone.
    pub open spec fn accepted(self, team: i32, student: i32) -> Rows {
        Rows {
            members: self.members.push(
                TeamMember { team_id: team, student_id: student, is_leader: false },
            ),
            requests: self.requests.filter(other_request(team, student)),
            ..self
        }
    }

    /// The rows after `student` declined the invitation to `team`.
    pub open spec fn rejected(self, team: i32, student: i32) -> Rows {
        Rows { requests: self.requests.filter(other_request(team, student)), ..self }
    }

    /// The rows after an invitation was sent.
    pub open spec fn invited(self, row: TeamRequest) -> Rows {
        Rows { requests: self.requests.push(row), ..self }
    }

    /// The rows after `student` was removed from `team`.
    pub open spec fn without_member(self, team: i32, student: i32) -> Rows {
        Rows { members: self.members.filter(other_member(team, student)), ..self }
    }

    /// The rows after `team` was deleted, with all its rows.
    pub open spec fn without_team(self, team: i32) -> Rows {
        narrowed(self, other_team(team), member_outside(team), request_outside(team))
    }

    /// The rows after `team` was given the name `name`.
    pub open spec fn renamed(self, team: i32, name: String) -> Rows {
        Rows {
            teams: Seq::new(
                self.teams.len(),
                |i: int|
                    if self.teams[i].id == team {
                        Team { id: team, name }
                    } else {
                        self.teams[i]
                    },
            ),
            ..self
        }
    }
}

/// What sending an invitation comes to on given rows. `invitee` is the
/// user that the address resolved to.
pub open spec fn invitation_outcome(
    rows: Rows,
    caller: User,
    paid: bool,
    team: i32,
    invitee: Option<i32>,
) -> Result<TeamRequest, Failure> {
    invitation_verdict(
        caller,
        paid,
        rows.membership(team, caller.id),
        team,
        invitee,
        match invitee {
            Some(id) => rows.standing(team, id),
            None => Standing::NoRelation,
        },
    )
}

/// Taking a request row away keeps the rows consistent.
pub proof fn rejection_is_consistent(rows: Rows, team: i32, student: i32)
    requires
        rows.consistent(),
    ensures
        rows.rejected(team, student).consistent(),
        !rows.rejected(team, student).has_request(team, student),
{
    narrowing_is_consistent(rows, any_team(), any_member(), other_request(team, student));
    filter_of_all(rows.teams, any_team());
    filter_of_all(rows.members, any_member());
    assert(rows.rejected(team, student) == narrowed(
        rows,
        any_team(),
        any_member(),
        other_request(team, student),
    ));
    filter_keeps_exactly(rows.requests, other_request(team, student));
    let left = rows.requests.filter(other_request(team, student));
    if left.contains(TeamRequest { team_id: team, student_id: student }) {
        let k = choose|k: int|
            0 <= k < left.len() && left[k] == (TeamRequest { team_id: team, student_id: student });
        assert(other_request(team, student)(left[k]));
    }
}

/// An acceptance keeps the rows consistent.
pub proof fn acceptance_is_consistent(rows: Rows, team: i32, student: i32)
    requires
        rows.consistent(),
        rows.has_request(team, student),
    ensures
        rows.accepted(team, student).consistent(),
{
    let mid = rows.rejected(team, student);
    rejection_is_consistent(rows, team, student);
    let k = choose|k: int|
        0 <= k < rows.requests.len() && rows.requests[k] == (TeamRequest {
            team_id: team,
            student_id: student,
        });
    assert(rows.has_team(rows.requests[k].team_id));
    assert(mid.has_team(team)) by {
        let t = choose|t: int| 0 <= t < rows.teams.len() && (#[trigger] rows.teams[t]).id == team;
        assert(mid.teams[t].id == team);
    }
    assert(!mid.has_member(team, student)) by {
        if mid.has_member(team, student) {
            let i = choose|i: int|
                0 <= i < mid.members.len() && member_at(team, student)(#[trigger] mid.members[i]);
            assert(member_key()(rows.members[i]) != request_key()(rows.requests[k]));
        }
    }
    member_fits(mid, TeamMember { team_id: team, student_id: student, is_leader: false });
    assert(rows.accepted(team, student) == (Rows {
        members: mid.members.push(
            TeamMember { team_id: team, student_id: student, is_leader: false },
        ),
        ..mid
    }));
}

/// An invitation to a student who stands in no relation to a team keeps
/// the rows consistent.
pub proof fn invitation_is_consistent(rows: Rows, row: TeamRequest)
    requires
        rows.consistent(),
        rows.has_team(row.team_id),
        rows.standing(row.team_id, row.student_id) == Standing::NoRelation,
    ensures
        rows.invited(row).consistent(),
{
    request_fits(rows, row);
}

/// Removing a member who is not the leader keeps the rows consistent.
pub proof fn member_removal_is_consistent(rows: Rows, team: i32, student: i32)
    requires
        rows.consistent(),
        !rows.has_leader(team, student),
    ensures
        rows.without_member(team, student).consistent(),
{
    assert forall|i: int, j: int|
        #![trigger rows.teams[i], rows.members[j]]
        0 <= i < rows.teams.len() && 0 <= j < rows.members.len() && rows.members[j].team_id
            == rows.teams[i].id implies (other_member(team, student)(rows.members[j])
        ==> any_team()(rows.teams[i])) && (rows.members[j].is_leader && any_team()(rows.teams[i])
        ==> other_member(team, student)(rows.members[j])) by {
        if rows.members[j].is_leader && !other_member(team, student)(rows.members[j]) {
            assert(rows.members[j] == (TeamMember {
                team_id: team,
                student_id: student,
                is_leader: true,
            }));
            assert(rows.members.contains(rows.members[j]));
        }
    }
    narrowing_is_consistent(rows, any_team(), other_member(team, student), any_request());
    filter_of_all(rows.teams, any_team());
    filter_of_all(rows.requests, any_request());
    assert(rows.without_member(team, student) == narrowed(
        rows,
        any_team(),
        other_member(team, student),
        any_request(),
    ));
}

/// Deleting a team with all its rows keeps the rest consistent.
pub proof fn deletion_is_consistent(rows: Rows, team: i32)
    requires
        rows.consistent(),
    ensures
        rows.without_team(team).consistent(),
        !rows.without_team(team).has_team(team),
{
    narrowing_is_consistent(rows, other_team(team), member_outside(team), request_outside(team));
    filter_keeps_exactly(rows.teams, other_team(team));
    let left = rows.teams.filter(other_team(team));
    if rows.without_team(team).has_team(team) {
        let k = choose|k: int| 0 <= k < left.len() && (#[trigger] left[k]).id == team;
        assert(other_team(team)(left[k]));
    }
}

/// A new name keeps the rows consistent.
pub proof fn renaming_is_consistent(rows: Rows, team: i32, name: String)
    requires
        rows.consistent(),
    ensures
        rows.renamed(team, name).consistent(),
{
    let after = rows.renamed(team, name);
    assert forall|i: int| 0 <= i < rows.teams.len() implies (#[trigger] after.teams[i]).id
        == rows.teams[i].id by {}
    assert forall|i: int, j: int|
        #![trigger after.teams[i], after.teams[j]]
        0 <= i < j < after.teams.len() implies team_key()(after.teams[i]) != team_key()(
        after.teams[j],
    ) by {
        assert(team_key()(rows.teams[i]) != team_key()(rows.teams[j]));
    }
    assert forall|i: int| 0 <= i < after.teams.len() implies (#[trigger] after.teams[i]).id
        < after.next_id by {
        assert(rows.teams[i].id < rows.next_id);
    }
    assert forall|id: i32| rows.has_team(id) implies after.has_team(id) by {
        let k = choose|k: int| 0 <= k < rows.teams.len() && (#[trigger] rows.teams[k]).id == id;
        assert(after.teams[k].id == id);
    }
    assert forall|i: int| 0 <= i < after.members.len() implies after.has_team(
        (#[trigger] after.members[i]).team_id,
    ) by {
        assert(rows.has_team(rows.members[i].team_id));
    }
    assert forall|i: int| 0 <= i < after.requests.len() implies after.has_team(
        (#[trigger] after.requests[i]).team_id,
    ) by {
        assert(rows.has_team(rows.requests[i].team_id));
    }
    assert forall|i: int| 0 <= i < after.teams.len() implies after.is_led(
        (#[trigger] after.teams[i]).id,
    ) by {
        let id = rows.teams[i].id;
        assert(rows.is_led(id));
        let k = choose|k: int|
            0 <= k < rows.members.len() && leader_of(id)(#[trigger] rows.members[k]);
        assert(leader_of(id)(after.members[k]));
    }
}

impl Rows {
    /// The number of member rows of `student` in `team`.
    pub open spec fn member_rows(self, team: i32, student: i32) -> nat {
        self.members.filter(member_at(team, student)).len()
    }

    /// The number of leader rows of `team`.
    pub open spec fn leader_rows(self, team: i32) -> nat {
        self.members.filter(leader_of(team)).len()
    }

    /// The number of request rows of `student` for `team`.
    pub open spec fn request_rows(self, team: i32, student: i32) -> nat {
        self.requests.filter(request_at(team, student)).len()
    }

    /// The member rows of `team`, in order.
    pub open spec fn members_in(self, team: i32) -> Seq<TeamMember> {
        self.members.filter(member_in(team))
    }

    /// The request rows of `team`, in order.
    pub open spec fn requests_for(self, team: i32) -> Seq<TeamRequest> {
        self.requests.filter(request_for(team))
    }
}

/// In consistent rows a student has at most one row for a team, as member
/// or as invitee and never as both.
pub proof fn one_row_per_pair(rows: Rows, team: i32, student: i32)
    requires
        rows.consistent(),
    ensures
        rows.member_rows(team, student) + rows.request_rows(team, student) <= 1,
        rows.member_rows(team, student) == 1 <==> rows.has_member(team, student),
        rows.request_rows(team, student) == 1 <==> rows.has_request(team, student),
{
    let row = TeamRequest { team_id: team, student_id: student };
    filter_of_one_key(rows.members, member_key(), (team, student), member_at(team, student));
    filter_of_one_key(rows.requests, request_key(), (team, student), request_at(team, student));
    if rows.has_member(team, student) {
        let i = choose|i: int|
            0 <= i < rows.members.len() && member_at(team, student)(#[trigger] rows.members[i]);
        filter_of_some(rows.members, member_at(team, student), i);
        assert forall|j: int| 0 <= j < rows.requests.len() implies !request_at(team, student)(
            #[trigger] rows.requests[j],
        ) by {
            assert(member_key()(rows.members[i]) != request_key()(rows.requests[j]));
        }
        filter_of_none(rows.requests, request_at(team, student));
        assert(!rows.has_request(team, student)) by {
            if rows.has_request(team, student) {
                let j = choose|j: int| 0 <= j < rows.requests.len() && rows.requests[j] == row;
                assert(!request_at(team, student)(rows.requests[j]));
            }
        }
    } else {
        assert forall|i: int| 0 <= i < rows.members.len() implies !member_at(team, student)(
            #[trigger] rows.members[i],
        ) by {}
        filter_of_none(rows.members, member_at(team, student));
        if rows.has_request(team, student) {
            let j = choose|j: int| 0 <= j < rows.requests.len() && rows.requests[j] == row;
            filter_of_some(rows.requests, request_at(team, student), j);
        } else {
            assert forall|j: int| 0 <= j < rows.requests.len() implies !request_at(team, student)(
                #[trigger] rows.requests[j],
            ) by {
                if request_at(team, student)(rows.requests[j]) {
                    assert(rows.requests[j] == row);
                }
            }
            filter_of_none(rows.requests, request_at(team, student));
        }
    }
}

/// In consistent rows every team has exactly one leader row.
pub proof fn one_leader_per_team(rows: Rows, team: i32)
    requires
        rows.consistent(),
        rows.has_team(team),
    ensures
        rows.leader_rows(team) == 1,
{
    let t = choose|t: int| 0 <= t < rows.teams.len() && (#[trigger] rows.teams[t]).id == team;
    assert(rows.is_led(rows.teams[t].id));
    let k = choose|k: int|
        0 <= k < rows.members.len() && leader_of(team)(#[trigger] rows.members[k]);
    filter_of_some(rows.members, leader_of(team), k);
    filter_keeps_exactly(rows.members, leader_of(team));
    filter_keeps_distinct(rows.members, member_key(), leader_of(team));
    let left = rows.members.filter(leader_of(team));
    if left.len() >= 2 {
        assert(rows.members.contains(left[0]));
        assert(rows.members.contains(left[1]));
        let a = choose|a: int| 0 <= a < rows.members.len() && rows.members[a] == left[0];
        let b = choose|b: int| 0 <= b < rows.members.len() && rows.members[b] == left[1];
        assert(member_key()(left[0]) != member_key()(left[1]));
        assert(leader_of(team)(left[0]) && leader_of(team)(left[1]));
        if a < b {
            assert(!(rows.members[a].is_leader && rows.members[b].is_leader));
        } else if b < a {
            assert(!(rows.members[b].is_leader && rows.members[a].is_leader));
        }
    }
}

/// After a team was created, its rows are these: one member row, that of
/// the creator as leader, and one request row for each invitee, in the
/// order of the invitation. No invitee is a member.
pub proof fn creation_writes_leader_and_requests(
    rows: Rows,
    name: String,
    leader: i32,
    resolved: Seq<Option<i32>>,
)
    requires
        rows.consistent(),
        rows.next_id < i32::MAX,
        invitees_sound(leader, resolved),
    ensures
        created(rows, name, leader, resolved).consistent(),
        created(rows, name, leader, resolved).members_in(rows.next_id as i32) == seq![
            TeamMember { team_id: rows.next_id as i32, student_id: leader, is_leader: true },
        ],
        created(rows, name, leader, resolved).leader_rows(rows.next_id as i32) == 1,
        created(rows, name, leader, resolved).requests_for(rows.next_id as i32) == request_rows(
            rows.next_id as i32,
            resolved,
        ),
        created(rows, name, leader, resolved).requests_for(rows.next_id as i32).len()
            == resolved.len(),
        forall|i: int|
            0 <= i < resolved.len() ==> created(rows, name, leader, resolved).member_rows(
                rows.next_id as i32,
                (#[trigger] resolved[i]).unwrap(),
            ) == 0,
{
    let id = rows.next_id as i32;
    let after = created(rows, name, leader, resolved);
    let first = TeamMember { team_id: id, student_id: leader, is_leader: true };
    let fresh = request_rows(id, resolved);
    creation_is_consistent(rows, name, leader, resolved);
    rows_lie_below_next_id(rows);
    filter_of_none(rows.members, member_in(id));
    rows.members.lemma_filter_push(first, member_in(id));
    assert(Seq::<TeamMember>::empty().push(first) =~= seq![first]);
    filter_of_none(rows.members, leader_of(id));
    rows.members.lemma_filter_push(first, leader_of(id));
    filter_of_none(rows.requests, request_for(id));
    filter_of_all(fresh, request_for(id));
    Seq::filter_distributes_over_add(rows.requests, fresh, request_for(id));
    assert(Seq::<TeamRequest>::empty() + fresh =~= fresh);
    assert forall|i: int| 0 <= i < resolved.len() implies after.member_rows(
        id,
        (#[trigger] resolved[i]).unwrap(),
    ) == 0 by {
        let student = resolved[i].unwrap();
        assert(invitee_fault(leader, resolved, i).is_none());
        filter_of_none(rows.members, member_at(id, student));
        rows.members.lemma_filter_push(first, member_at(id, student));
    }
}

/// After an acceptance there is exactly one member row for the student in
/// the team, a plain member's, and no request row.
pub proof fn acceptance_moves_the_row(rows: Rows, team: i32, student: i32)
    requires
        rows.consistent(),
        rows.has_request(team, student),
    ensures
        rows.accepted(team, student).consistent(),
        rows.accepted(team, student).members.filter(member_at(team, student)) == seq![
            TeamMember { team_id: team, student_id: student, is_leader: false },
        ],
        rows.accepted(team, student).member_rows(team, student) == 1,
        rows.accepted(team, student).request_rows(team, student) == 0,
        rows.accepted(team, student).standing(team, student) == Standing::Member,
{
    let after = rows.accepted(team, student);
    let row = TeamMember { team_id: team, student_id: student, is_leader: false };
    acceptance_is_consistent(rows, team, student);
    one_row_per_pair(rows, team, student);
    assert(!rows.has_member(team, student));
    assert forall|i: int| 0 <= i < rows.members.len() implies !member_at(team, student)(
        #[trigger] rows.members[i],
    ) by {}
    filter_of_none(rows.members, member_at(team, student));
    rows.members.lemma_filter_push(row, member_at(team, student));
    assert(Seq::<TeamMember>::empty().push(row) =~= seq![row]);
    filter_keeps_exactly(rows.requests, other_request(team, student));
    filter_of_none(after.requests, request_at(team, student));
    assert(after.members[rows.members.len() as int] == row);
    assert(after.has_member(team, student)) by {
        assert(member_at(team, student)(after.members[rows.members.len() as int]));
    }
    assert(!after.has_leader(team, student)) by {
        if after.has_leader(team, student) {
            let k = choose|k: int|
                0 <= k < after.members.len() && after.members[k] == (TeamMember {
                    team_id: team,
                    student_id: student,
                    is_leader: true,
                });
            if k < rows.members.len() {
                assert(member_at(team, student)(rows.members[k]));
            }
        }
    }
}

/// How a student stands to a team in consistent rows is what the member
/// row and the request row say.
pub proof fn standing_is_read_off_the_rows(rows: Rows, team: i32, student: i32)
    requires
        rows.consistent(),
    ensures
        rows.standing(team, student) == standing_from(
            rows.membership(team, student),
            rows.has_request(team, student),
        ),
{
}

/// After a rejection the student stands in no relation to the team.
pub proof fn rejection_ends_the_relation(rows: Rows, team: i32, student: i32)
    requires
        rows.consistent(),
        rows.has_request(team, student),
    ensures
        rows.rejected(team, student).consistent(),
        rows.rejected(team, student).standing(team, student) == Standing::NoRelation,
        rows.rejected(team, student).members == rows.members,
{
    rejection_is_consistent(rows, team, student);
    one_row_per_pair(rows, team, student);
    let after = rows.rejected(team, student);
    assert(!after.has_member(team, student)) by {
        if after.has_member(team, student) {
            let i = choose|i: int|
                0 <= i < after.members.len() && member_at(team, student)(
                    #[trigger] after.members[i],
                );
            assert(member_at(team, student)(rows.members[i]));
        }
    }
    assert(!after.has_leader(team, student)) by {
        if after.has_leader(team, student) {
            let k = choose|k: int|
                0 <= k < after.members.len() && after.members[k] == (TeamMember {
                    team_id: team,
                    student_id: student,
                    is_leader: true,
                });
            assert(member_at(team, student)(rows.members[k]));
        }
    }
}

/// Whoever has no leader row in a team can neither delete nor rename it,
/// nor remove a member from it or invite to it, whatever else holds.
pub proof fn only_the_leader_changes_a_team(
    rows: Rows,
    user: User,
    paid: bool,
    team: i32,
    target: i32,
    invitee: Option<i32>,
)
    requires
        !rows.has_leader(team, user.id),
    ensures
        leader_verdict(user, paid, rows.membership(team, user.id)) == Err::<(), Failure>(
            Failure::Unauthorized,
        ),
        removal_verdict(
            user,
            paid,
            rows.membership(team, user.id),
            MemberId { team_id: team, student_id: target },
        ) == Err::<MemberId, Failure>(Failure::Unauthorized),
        invitation_outcome(rows, user, paid, team, invitee) == Err::<TeamRequest, Failure>(
            Failure::Unauthorized,
        ),
{
}

/// Leadership is fixed when a team is created: an acceptance, a
/// rejection, an invitation, the removal of a member who is not the leader
/// and a new name leave every leader what they were, and make nobody else
/// one.
pub proof fn leadership_is_fixed(
    rows: Rows,
    team: i32,
    student: i32,
    name: String,
    led: i32,
    leader: i32,
)
    requires
        rows.consistent(),
    ensures
        rows.accepted(team, student).has_leader(led, leader) == rows.has_leader(led, leader),
        rows.rejected(team, student).has_leader(led, leader) == rows.has_leader(led, leader),
        rows.invited(TeamRequest { team_id: team, student_id: student }).has_leader(led, leader)
            == rows.has_leader(led, leader),
        !rows.has_leader(team, student) ==> rows.without_member(team, student).has_leader(
            led,
            leader,
        ) == rows.has_leader(led, leader),
        rows.renamed(team, name).has_leader(led, leader) == rows.has_leader(led, leader),
{
    let row = TeamMember { team_id: led, student_id: leader, is_leader: true };
    let joined = rows.accepted(team, student).members;
    assert(joined.contains(row) == rows.members.contains(row)) by {
        if rows.members.contains(row) {
            let k = choose|k: int| 0 <= k < rows.members.len() && rows.members[k] == row;
            assert(joined[k] == row);
        }
        if joined.contains(row) {
            let k = choose|k: int| 0 <= k < joined.len() && joined[k] == row;
            assert(k < rows.members.len());
            assert(rows.members[k] == row);
        }
    }
    if !rows.has_leader(team, student) {
        let left = rows.without_member(team, student).members;
        filter_keeps_exactly(rows.members, other_member(team, student));
        assert(left.contains(row) == rows.members.contains(row)) by {
            if rows.members.contains(row) {
                let k = choose|k: int| 0 <= k < rows.members.len() && rows.members[k] == row;
                assert(other_member(team, student)(rows.members[k]));
            }
            if left.contains(row) {
                let k = choose|k: int| 0 <= k < left.len() && left[k] == row;
                assert(rows.members.contains(left[k]));
            }
        }
    }
}

/// Creating a team makes its creator the leader of the new team and
/// changes no other leadership; deleting a team ends its leadership and
/// changes no other.
pub proof fn leadership_comes_and_goes_with_the_team(
    rows: Rows,
    name: String,
    creator: i32,
    resolved: Seq<Option<i32>>,
    deleted: i32,
    led: i32,
    leader: i32,
)
    requires
        rows.consistent(),
        rows.next_id < i32::MAX,
    ensures
        created(rows, name, creator, resolved).has_leader(led, leader) == (rows.has_leader(
            led,
            leader,
        ) || (led == rows.next_id && leader == creator)),
        rows.without_team(deleted).has_leader(led, leader) == (rows.has_leader(led, leader) && led
            != deleted),
{
    let row = TeamMember { team_id: led, student_id: leader, is_leader: true };
    let after = created(rows, name, creator, resolved).members;
    let first = TeamMember { team_id: rows.next_id as i32, student_id: creator, is_leader: true };
    assert(after.contains(row) == (rows.members.contains(row) || row == first)) by {
        if rows.members.contains(row) {
            let k = choose|k: int| 0 <= k < rows.members.len() && rows.members[k] == row;
            assert(after[k] == row);
        }
        if row == first {
            assert(after[rows.members.len() as int] == row);
        }
        if after.contains(row) {
            let k = choose|k: int| 0 <= k < after.len() && after[k] == row;
            if k < rows.members.len() {
                assert(rows.members[k] == row);
            }
        }
    }
    let left = rows.without_team(deleted).members;
    filter_keeps_exactly(rows.members, member_outside(deleted));
    assert(left.contains(row) == (rows.members.contains(row) && led != deleted)) by {
        if rows.members.contains(row) && led != deleted {
            let k = choose|k: int| 0 <= k < rows.members.len() && rows.members[k] == row;
            assert(member_outside(deleted)(rows.members[k]));
        }
        if left.contains(row) {
            let k = choose|k: int| 0 <= k < left.len() && left[k] == row;
            assert(rows.members.contains(left[k]));
            assert(member_outside(deleted)(left[k]));
        }
    }
}

} // verus!

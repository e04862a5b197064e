//! Teams: who may change one, and which rows each transition writes.
//!
//! A student stands to a team in one of four ways: not at all, invited,
//! member, or leader. The leader is whoever created the team, and stays the
//! leader. Only the leader changes the team: invites, removes members,
//! renames and deletes it. The global role of a user plays no part.
//!
//! The functions here decide; the caller looks rows up and writes them.
//! What must be written together comes back as one value, to be applied in
//! one transaction.

use crate::failure::Failure;
use crate::text::{trimmed, trimmed_bytes, utf8};
use crate::user::User;
use vstd::prelude::*;

verus! {

/// The most addresses that can be invited when a team is created.
pub const MAX_INVITEES: usize = 3;

#[derive(Clone, Debug, PartialEq, Eq)]
pub struct Team {
    pub id: i32,
    pub name: String,
}

#[derive(Clone, Copy, Debug, PartialEq, Eq, Structural)]
pub struct TeamMember {
    pub team_id: i32,
    pub student_id: i32,
    pub is_leader: bool,
}

/// A pending invitation: the student was invited and has not decided.
#[derive(Clone, Copy, Debug, PartialEq, Eq, Structural)]
pub struct TeamRequest {
    pub team_id: i32,
    pub student_id: i32,
}

/// The invitation a leader sends: a team and the address of the invitee.
#[derive(Clone, Debug, PartialEq, Eq)]
pub struct NewTeamRequest {
    pub team_id: i32,
    pub email: String,
}

/// The form that creates a team.
#[derive(Clone, Debug, PartialEq, Eq)]
pub struct NewTeamReq {
    pub name: String,
    pub members: Vec<String>,
}

/// An invitation as shown to the invitee.
#[derive(Clone, Debug)]
pub struct TeamResponse {
    pub team_id: i32,
    pub leader_name: String,
    pub team_name: String,
}

/// A member as shown in the list of a team.
#[derive(Clone, Debug)]
pub struct TeamMemberResp {
    pub team_id: i32,
    pub student_id: i32,
    pub is_leader: bool,
    pub team_name: String,
    pub name: String,
    pub verified: bool,
    pub email: String,
}

#[derive(Clone, Copy, Debug, PartialEq, Eq, Structural)]
pub struct TeamId {
    pub id: i32,
}

#[derive(Clone, Debug)]
pub struct TeamName {
    pub name: String,
}

#[derive(Clone, Debug, PartialEq, Eq)]
pub struct ChangeTeam {
    pub id: i32,
    pub name: Option<String>,
}

#[derive(Clone, Copy, Debug, PartialEq, Eq, Structural)]
pub struct MemberId {
    pub team_id: i32,
    pub student_id: i32,
}

/// Which teams a listing shows.
#[derive(Clone, Copy, Debug, PartialEq, Eq, Structural)]
pub enum TeamsQuery {
    /// The team with this id.
    ById(i32),
    /// The teams that this user is a member of.
    OfMember(i32),
}

/// The rows written when a team is created, behind the row of the team
/// itself.
#[derive(Clone, Debug, PartialEq, Eq)]
pub struct TeamRows {
    pub leader: TeamMember,
    pub requests: Vec<TeamRequest>,
}

/// The two writes of an acceptance. They belong to one transaction: the
/// member row is inserted and the request row deleted, or neither.
#[derive(Clone, Copy, Debug, PartialEq, Eq, Structural)]
pub struct Acceptance {
    pub insert: TeamMember,
    pub delete: TeamRequest,
}

/// Team operations are open to every verified user whose payment is
/// settled, whatever the role.
pub open spec fn may_use_teams(user: User, paid: bool) -> bool {
    user.verified && paid
}

/// `membership` is the leader flag of the caller's member row in the team,
/// or `None` where the caller has no such row.
pub open spec fn leads(membership: Option<bool>) -> bool {
    membership == Some(true)
}

/// The verdict on an operation that is the leader's alone.
pub open spec fn leader_verdict(user: User, paid: bool, membership: Option<bool>) -> Result<
    (),
    Failure,
> {
    if may_use_teams(user, paid) && leads(membership) {
        Ok(())
    } else {
        Err(Failure::Unauthorized)
    }
}

/// What every guarded team operation asks first: a verified caller whose
/// payment is settled.
pub fn team_gate(user: &User, paid: bool) -> (r: Result<(), Failure>)
    ensures
        r == (if may_use_teams(*user, paid) {
            Ok::<(), Failure>(())
        } else {
            Err::<(), Failure>(Failure::Unauthorized)
        }),
{
    if user.verified && paid {
        Ok(())
    } else {
        Err(Failure::Unauthorized)
    }
}

/// Whether the caller leads the team, by the member row that was found.
pub fn leader_only(membership: Option<bool>) -> (r: Result<(), Failure>)
    ensures
        r == (if leads(membership) {
            Ok::<(), Failure>(())
        } else {
            Err::<(), Failure>(Failure::Unauthorized)
        }),
{
    match membership {
        Some(true) => Ok(()),
        _ => Err(Failure::Unauthorized),
    }
}

/// What deleting or renaming a team, removing a member and sending an
/// invitation ask: the caller must lead the team.
pub fn leader_gate(user: &User, paid: bool, membership: Option<bool>) -> (r: Result<(), Failure>)
    ensures
        r == leader_verdict(*user, paid, membership),
{
    match team_gate(user, paid) {
        Err(failure) => Err(failure),
        Ok(()) => leader_only(membership),
    }
}

/// What a listing of teams shows: the team asked for, else the caller's
/// teams. A request that names no team and comes from nobody is malformed.
pub fn teams_query(team: Option<i32>, caller: Option<i32>) -> (r: Result<TeamsQuery, Failure>)
    ensures
        r == (match (team, caller) {
            (Some(id), _) => Ok::<TeamsQuery, Failure>(TeamsQuery::ById(id)),
            (None, Some(user)) => Ok::<TeamsQuery, Failure>(TeamsQuery::OfMember(user)),
            (None, None) => Err::<TeamsQuery, Failure>(Failure::ValidationFailed),
        }),
{
    match team {
        Some(id) => Ok(TeamsQuery::ById(id)),
        None => match caller {
            Some(user) => Ok(TeamsQuery::OfMember(user)),
            None => Err(Failure::ValidationFailed),
        },
    }
}

/// The addresses to invite for a creation form: each entry of the list
/// with the whitespace at its ends taken off, provided the list starts
/// with a non-empty entry and holds no more than `MAX_INVITEES`. Any other
/// list invites nobody.
pub open spec fn invitations_wanted(members: Seq<String>) -> Seq<Seq<u8>> {
    if members.len() > 0 && members[0]@.len() > 0 && members.len() <= MAX_INVITEES {
        Seq::new(members.len(), |i: int| trimmed(utf8(members[i]@)))
    } else {
        Seq::empty()
    }
}

/// The addresses to resolve before a team is created, as UTF-8 bytes.
pub fn invitees(members: &Vec<String>) -> (wanted: Vec<Vec<u8>>)
    ensures
        wanted@.len() == invitations_wanted(members@).len(),
        forall|i: int|
            0 <= i < wanted@.len() ==> (#[trigger] wanted@[i])@ == invitations_wanted(members@)[i],
{
    let mut wanted: Vec<Vec<u8>> = Vec::new();
    if members.len() == 0 || members.len() > MAX_INVITEES {
        return wanted;
    }
    if members[0].as_str().is_empty() {
        return wanted;
    }
    let mut i: usize = 0;
    while i < members.len()
        invariant
            i <= members@.len(),
            wanted@.len() == i,
            members@.len() > 0 && members@[0]@.len() > 0 && members@.len() <= MAX_INVITEES,
            forall|j: int|
                0 <= j < i ==> (#[trigger] wanted@[j])@ == trimmed(utf8(members@[j]@)),
        decreases members@.len() - i,
    {
        wanted.push(trimmed_bytes(members[i].as_str()));
        i = i + 1;
    }
    wanted
}

/// What is wrong with the invitee at position `i`, if anything: the
/// address belongs to nobody, or the invitee is the leader or was invited
/// earlier in the same list.
pub open spec fn invitee_fault(leader: i32, resolved: Seq<Option<i32>>, i: int) -> Option<
    Failure,
> {
    match resolved[i] {
        None => Some(Failure::NotFound),
        Some(id) => if id == leader || exists|j: int| 0 <= j < i && resolved[j] == Some(id) {
            Some(Failure::Conflict)
        } else {
            None
        },
    }
}

/// Every invitee can be invited.
pub open spec fn invitees_sound(leader: i32, resolved: Seq<Option<i32>>) -> bool {
    forall|i: int| 0 <= i < resolved.len() ==> invitee_fault(leader, resolved, i).is_none()
}

/// The fault of the first invitee that has one, looking from position `i`
/// on.
pub open spec fn fault_from(leader: i32, resolved: Seq<Option<i32>>, i: int) -> Option<Failure>
    decreases resolved.len() - i,
{
    if i < 0 || i >= resolved.len() {
        None
    } else {
        match invitee_fault(leader, resolved, i) {
            Some(failure) => Some(failure),
            None => fault_from(leader, resolved, i + 1),
        }
    }
}

/// The fault that aborts a creation: that of the first invitee with one.
pub open spec fn first_fault(leader: i32, resolved: Seq<Option<i32>>) -> Option<Failure> {
    fault_from(leader, resolved, 0)
}

/// There is no fault from `i` on exactly when no invitee from `i` on has
/// one.
pub proof fn no_fault_from(leader: i32, resolved: Seq<Option<i32>>, i: int)
    requires
        0 <= i <= resolved.len(),
    ensures
        fault_from(leader, resolved, i).is_none() <==> forall|j: int|
            i <= j < resolved.len() ==> invitee_fault(leader, resolved, j).is_none(),
    decreases resolved.len() - i,
{
    if i < resolved.len() {
        no_fault_from(leader, resolved, i + 1);
        if invitee_fault(leader, resolved, i).is_none() && fault_from(
            leader,
            resolved,
            i + 1,
        ).is_none() {
            assert forall|j: int| i <= j < resolved.len() implies invitee_fault(
                leader,
                resolved,
                j,
            ).is_none() by {
                if j > i {
                    assert(i + 1 <= j);
                }
            }
        }
    }
}

/// A list of invitees has no fault exactly when every invitee can be
/// invited.
pub proof fn no_fault_means_sound(leader: i32, resolved: Seq<Option<i32>>)
    ensures
        first_fault(leader, resolved).is_none() <==> invitees_sound(leader, resolved),
{
    no_fault_from(leader, resolved, 0);
}

/// The request rows for resolved invitees.
pub open spec fn request_rows(team_id: i32, resolved: Seq<Option<i32>>) -> Seq<TeamRequest> {
    Seq::new(
        resolved.len(),
        |i: int| TeamRequest { team_id, student_id: resolved[i].unwrap() },
    )
}

/// Whether `id` occurs among the first `upto` resolved invitees.
fn invited_before(resolved: &Vec<Option<i32>>, upto: usize, id: i32) -> (r: bool)
    requires
        upto <= resolved@.len(),
    ensures
        r == exists|j: int| 0 <= j < upto && resolved@[j] == Some(id),
{
    let mut j: usize = 0;
    while j < upto
        invariant
            j <= upto <= resolved@.len(),
            forall|k: int| 0 <= k < j ==> resolved@[k] != Some(id),
        decreases upto - j,
    {
        match resolved[j] {
            Some(other) => {
                if other == id {
                    return true;
                }
            },
            None => {},
        }
        j = j + 1;
    }
    false
}

/// The rows to write for a new team, all or none. `team_id` is the id the
/// new team row was given, and `resolved` holds for each wanted address the
/// id of the user it belongs to. The creator becomes the one leader, and
/// each invitee gets a request row. The first invitee with a fault aborts
/// the creation with that fault.
pub fn creation_rows(team_id: i32, leader_id: i32, resolved: &Vec<Option<i32>>) -> (r: Result<
    TeamRows,
    Failure,
>)
    ensures
        match r {
            Ok(rows) => {
                &&& first_fault(leader_id, resolved@).is_none()
                &&& rows.leader == (TeamMember { team_id, student_id: leader_id, is_leader: true })
                &&& rows.requests@ == request_rows(team_id, resolved@)
            },
            Err(failure) => first_fault(leader_id, resolved@) == Some(failure),
        },
{
    let mut requests: Vec<TeamRequest> = Vec::new();
    let mut i: usize = 0;
    while i < resolved.len()
        invariant
            i <= resolved@.len(),
            requests@.len() == i,
            first_fault(leader_id, resolved@) == fault_from(leader_id, resolved@, i as int),
            forall|j: int|
                0 <= j < i ==> #[trigger] requests@[j] == (TeamRequest {
                    team_id,
                    student_id: resolved@[j].unwrap(),
                }),
        decreases resolved@.len() - i,
    {
        match resolved[i] {
            None => {
                return Err(Failure::NotFound);
            },
            Some(id) => {
                if id == leader_id || invited_before(resolved, i, id) {
                    return Err(Failure::Conflict);
                }
                requests.push(TeamRequest { team_id, student_id: id });
            },
        }
        i = i + 1;
    }
    assert(requests@ =~= request_rows(team_id, resolved@));
    Ok(
        TeamRows {
            leader: TeamMember { team_id, student_id: leader_id, is_leader: true },
            requests,
        },
    )
}

/// What accepting an invitation comes to. `request` is the invitation
/// found for the caller and the team, if there is one.
pub open spec fn acceptance_verdict(user: User, paid: bool, request: Option<TeamRequest>) -> Result<
    Acceptance,
    Failure,
> {
    match request {
        Some(row) if may_use_teams(user, paid) && row.student_id == user.id => Ok(
            Acceptance {
                insert: TeamMember {
                    team_id: row.team_id,
                    student_id: row.student_id,
                    is_leader: false,
                },
                delete: row,
            },
        ),
        _ => Err(Failure::Unauthorized),
    }
}

/// Decides on the acceptance of an invitation: only the invitee accepts,
/// and becomes a plain member.
pub fn acceptance(user: &User, paid: bool, request: &Option<TeamRequest>) -> (r: Result<
    Acceptance,
    Failure,
>)
    ensures
        r == acceptance_verdict(*user, paid, *request),
{
    if !(user.verified && paid) {
        return Err(Failure::Unauthorized);
    }
    match request {
        None => Err(Failure::Unauthorized),
        Some(row) => {
            if row.student_id != user.id {
                return Err(Failure::Unauthorized);
            }
            Ok(
                Acceptance {
                    insert: TeamMember {
                        team_id: row.team_id,
                        student_id: row.student_id,
                        is_leader: false,
                    },
                    delete: *row,
                },
            )
        },
    }
}

/// What rejecting an invitation comes to: the request row to delete.
/// There is no gate: whoever was invited may decline.
pub fn rejection(user: &User, request: &Option<TeamRequest>) -> (r: Result<TeamRequest, Failure>)
    ensures
        r == (match *request {
            Some(row) if row.student_id == user.id => Ok::<TeamRequest, Failure>(row),
            _ => Err::<TeamRequest, Failure>(Failure::NotFound),
        }),
{
    match request {
        None => Err(Failure::NotFound),
        Some(row) => {
            if row.student_id != user.id {
                Err(Failure::NotFound)
            } else {
                Ok(*row)
            }
        },
    }
}

/// How a student stands to a team.
#[derive(Clone, Copy, Debug, PartialEq, Eq, Structural)]
pub enum Standing {
    /// Neither member nor invited.
    NoRelation,
    /// Invited, undecided.
    Requested,
    /// Member, not the leader.
    Member,
    /// The leader.
    Leader,
}

/// How a student stands to a team, read off the leader flag of the member
/// row, if there is one, and the presence of a request row.
pub open spec fn standing_from(membership: Option<bool>, requested: bool) -> Standing {
    match membership {
        Some(true) => Standing::Leader,
        Some(false) => Standing::Member,
        None => if requested {
            Standing::Requested
        } else {
            Standing::NoRelation
        },
    }
}

/// How a student stands to a team, by the rows that were found.
pub fn standing_of(membership: Option<bool>, requested: bool) -> (r: Standing)
    ensures
        r == standing_from(membership, requested),
{
    match membership {
        Some(true) => Standing::Leader,
        Some(false) => Standing::Member,
        None => {
            if requested {
                Standing::Requested
            } else {
                Standing::NoRelation
            }
        },
    }
}

/// What sending an invitation comes to. `invitee` is the user the address
/// resolved to, and `standing` how that user stands to the team.
pub open spec fn invitation_verdict(
    user: User,
    paid: bool,
    membership: Option<bool>,
    team_id: i32,
    invitee: Option<i32>,
    standing: Standing,
) -> Result<TeamRequest, Failure> {
    if leader_verdict(user, paid, membership).is_err() {
        Err(Failure::Unauthorized)
    } else {
        match invitee {
            None => Err(Failure::NotFound),
            Some(id) => if standing == Standing::NoRelation {
                Ok(TeamRequest { team_id, student_id: id })
            } else {
                Err(Failure::Conflict)
            },
        }
    }
}

/// Decides on an invitation: the leader sends it, the address must belong
/// to a user, and that user must not stand to the team in any way yet.
pub fn invitation(
    user: &User,
    paid: bool,
    membership: Option<bool>,
    team_id: i32,
    invitee: Option<i32>,
    standing: Standing,
) -> (r: Result<TeamRequest, Failure>)
    ensures
        r == invitation_verdict(*user, paid, membership, team_id, invitee, standing),
{
    match leader_gate(user, paid, membership) {
        Err(_) => Err(Failure::Unauthorized),
        Ok(()) => match invitee {
            None => Err(Failure::NotFound),
            Some(id) => match standing {
                Standing::NoRelation => Ok(TeamRequest { team_id, student_id: id }),
                _ => Err(Failure::Conflict),
            },
        },
    }
}

/// What removing a member comes to. The leader cannot be removed: a team
/// is never without its leader.
pub open spec fn removal_verdict(
    user: User,
    paid: bool,
    membership: Option<bool>,
    target: MemberId,
) -> Result<MemberId, Failure> {
    if leader_verdict(user, paid, membership).is_err() {
        Err(Failure::Unauthorized)
    } else if target.student_id == user.id {
        Err(Failure::Conflict)
    } else {
        Ok(target)
    }
}

/// Decides on the removal of a member: the member row to delete.
pub fn removal(user: &User, paid: bool, membership: Option<bool>, target: MemberId) -> (r: Result<
    MemberId,
    Failure,
>)
    ensures
        r == removal_verdict(*user, paid, membership, target),
{
    match leader_gate(user, paid, membership) {
        Err(_) => Err(Failure::Unauthorized),
        Ok(()) => {
            if target.student_id == user.id {
                Err(Failure::Conflict)
            } else {
                Ok(target)
            }
        },
    }
}

/// Whoever does not lead a team is refused each of the leader's
/// operations, whatever the role, the standing of the invitee or the
/// member aimed at.
pub proof fn non_leader_is_refused(
    user: User,
    paid: bool,
    membership: Option<bool>,
    team_id: i32,
    invitee: Option<i32>,
    standing: Standing,
    target: MemberId,
)
    requires
        !leads(membership),
    ensures
        leader_verdict(user, paid, membership) == Err::<(), Failure>(Failure::Unauthorized),
        invitation_verdict(user, paid, membership, team_id, invitee, standing) == Err::<
            TeamRequest,
            Failure,
        >(Failure::Unauthorized),
        removal_verdict(user, paid, membership, target) == Err::<MemberId, Failure>(
            Failure::Unauthorized,
        ),
{
}

/// The leader's operations ask nothing of the role.
pub proof fn role_plays_no_part(a: User, b: User, paid: bool, membership: Option<bool>)
    requires
        a.verified == b.verified,
    ensures
        leader_verdict(a, paid, membership) == leader_verdict(b, paid, membership),
{
}

} // verus!

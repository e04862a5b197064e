//! A book of teams held in memory: the team, member and request rows, and
//! the transitions of the team state machine carried out on them.
//!
//! Each transition either applies whole or leaves the book as it was, and
//! each keeps the rows consistent.

use crate::failure::Failure;
use crate::rows::{
    acceptance_is_consistent, all_resolved_in, created, creation_is_consistent, creation_verdict,
    deletion_is_consistent, invitation_is_consistent, invitation_outcome,
    member_at, member_key, member_outside, member_removal_is_consistent, other_member,
    other_request, other_team, rejection_is_consistent, renaming_is_consistent, request_key,
    request_outside, resolved_in, team_key, Rows,
};
use crate::seqs::{filter_of_all, remove_is_filter, same_key_same_place};
use crate::team::{
    acceptance, acceptance_verdict, creation_rows, invitation, invitations_wanted,
    invitees, leader_gate, leader_verdict, no_fault_means_sound, rejection, removal,
    removal_verdict, team_gate, Acceptance, ChangeTeam, MemberId, NewTeamReq, NewTeamRequest,
    Standing, Team, TeamMember, TeamRequest,
};
use crate::text::{range_equals, utf8};
use crate::user::User;
use vstd::prelude::*;

verus! {

/// The book.
pub struct TeamBook {
    teams: Vec<Team>,
    members: Vec<TeamMember>,
    requests: Vec<TeamRequest>,
    next_id: i32,
}

/// Looks an address up in the table of users.
pub fn resolve(users: &Vec<User>, address: &[u8]) -> (r: Option<i32>)
    ensures
        r == resolved_in(users@, address@),
{
    let mut i: usize = 0;
    assert(users@.subrange(0, users@.len() as int) =~= users@);
    while i < users.len()
        invariant
            i <= users@.len(),
            resolved_in(users@, address@) == resolved_in(
                users@.subrange(i as int, users@.len() as int),
                address@,
            ),
        decreases users@.len() - i,
    {
        let ghost rest = users@.subrange(i as int, users@.len() as int);
        assert(rest[0] == users@[i as int]);
        let email = users[i].email.as_str().as_bytes();
        assert(email@.subrange(0, email@.len() as int) =~= email@);
        if range_equals(email, 0, email.len(), address) {
            return Some(users[i].id);
        }
        assert(rest.drop_first() =~= users@.subrange(i + 1, users@.len() as int));
        i = i + 1;
    }
    None
}

/// Looks a list of addresses up in the table of users.
pub fn resolve_all(users: &Vec<User>, addresses: &Vec<Vec<u8>>) -> (r: Vec<Option<i32>>)
    ensures
        r@.len() == addresses@.len(),
        forall|i: int| 0 <= i < r@.len() ==> #[trigger] r@[i] == resolved_in(users@, addresses@[i]@),
{
    let mut found: Vec<Option<i32>> = Vec::new();
    let mut i: usize = 0;
    while i < addresses.len()
        invariant
            i <= addresses@.len(),
            found@.len() == i,
            forall|j: int|
                0 <= j < i ==> #[trigger] found@[j] == resolved_in(users@, addresses@[j]@),
        decreases addresses@.len() - i,
    {
        found.push(resolve(users, addresses[i].as_slice()));
        i = i + 1;
    }
    found
}

/// The member rows of `rows` that lie outside `team`.
fn members_outside(rows: &Vec<TeamMember>, team: i32) -> (out: Vec<TeamMember>)
    ensures
        out@ == rows@.filter(member_outside(team)),
{
    let mut out: Vec<TeamMember> = Vec::new();
    let mut i: usize = 0;
    proof {
        reveal(Seq::filter);
        assert(rows@.take(0).len() == 0);
    }
    while i < rows.len()
        invariant
            i <= rows@.len(),
            out@ == rows@.take(i as int).filter(member_outside(team)),
        decreases rows@.len() - i,
    {
        let row = rows[i];
        proof {
            assert(rows@.take(i + 1) =~= rows@.take(i as int).push(row));
            rows@.take(i as int).lemma_filter_push(row, member_outside(team));
        }
        if row.team_id != team {
            out.push(row);
        }
        i = i + 1;
    }
    assert(rows@.take(i as int) =~= rows@);
    out
}

/// The request rows of `rows` that lie outside `team`.
fn requests_outside(rows: &Vec<TeamRequest>, team: i32) -> (out: Vec<TeamRequest>)
    ensures
        out@ == rows@.filter(request_outside(team)),
{
    let mut out: Vec<TeamRequest> = Vec::new();
    let mut i: usize = 0;
    proof {
        reveal(Seq::filter);
        assert(rows@.take(0).len() == 0);
    }
    while i < rows.len()
        invariant
            i <= rows@.len(),
            out@ == rows@.take(i as int).filter(request_outside(team)),
        decreases rows@.len() - i,
    {
        let row = rows[i];
        proof {
            assert(rows@.take(i + 1) =~= rows@.take(i as int).push(row));
            rows@.take(i as int).lemma_filter_push(row, request_outside(team));
        }
        if row.team_id != team {
            out.push(row);
        }
        i = i + 1;
    }
    assert(rows@.take(i as int) =~= rows@);
    out
}

impl View for TeamBook {
    type V = Rows;

    closed spec fn view(&self) -> Rows {
        Rows {
            teams: self.teams@,
            members: self.members@,
            requests: self.requests@,
            next_id: self.next_id as int,
        }
    }
}

impl TeamBook {
    /// The book is well formed when its rows are consistent.
    pub open spec fn wf(&self) -> bool {
        self@.consistent()
    }

    /// A book without teams.
    pub fn new() -> (book: TeamBook)
        ensures
            book.wf(),
            book@.teams.len() == 0,
            book@.members.len() == 0,
            book@.requests.len() == 0,
            book@.next_id == 1,
    {
        TeamBook { teams: Vec::new(), members: Vec::new(), requests: Vec::new(), next_id: 1 }
    }

    /// Creates a team: the caller becomes its leader, and every address of
    /// the form that is to be invited is resolved in `users` and gets a
    /// request. All of it happens or nothing does.
    pub fn create(&mut self, leader: &User, paid: bool, form: &NewTeamReq, users: &Vec<User>) -> (r:
        Result<i32, Failure>)
        requires
            old(self).wf(),
        ensures
            final(self).wf(),
            match r {
                Ok(id) => {
                    &&& creation_verdict(
                        old(self)@,
                        *leader,
                        paid,
                        all_resolved_in(users@, invitations_wanted(form.members@)),
                    ).is_ok()
                    &&& id == old(self)@.next_id
                    &&& final(self)@ == created(
                        old(self)@,
                        form.name,
                        leader.id,
                        all_resolved_in(users@, invitations_wanted(form.members@)),
                    )
                },
                Err(failure) => {
                    &&& creation_verdict(
                        old(self)@,
                        *leader,
                        paid,
                        all_resolved_in(users@, invitations_wanted(form.members@)),
                    ) == Err::<(), Failure>(failure)
                    &&& final(self)@ == old(self)@
                },
            },
    {
        let ghost wanted_spec = invitations_wanted(form.members@);
        let ghost resolved_spec = all_resolved_in(users@, wanted_spec);
        if team_gate(leader, paid).is_err() {
            return Err(Failure::Unauthorized);
        }
        if self.next_id == i32::MAX {
            return Err(Failure::UpstreamUnavailable);
        }
        let id = self.next_id;
        let wanted = invitees(&form.members);
        let resolved = resolve_all(users, &wanted);
        assert(resolved@ =~= resolved_spec);
        match creation_rows(id, leader.id, &resolved) {
            Err(failure) => Err(failure),
            Ok(rows) => {
                let mut rows = rows;
                proof {
                    no_fault_means_sound(leader.id, resolved@);
                    creation_is_consistent(self@, form.name, leader.id, resolved@);
                }
                self.teams.push(Team { id, name: form.name.clone() });
                self.members.push(rows.leader);
                self.requests.append(&mut rows.requests);
                self.next_id = id + 1;
                assert(self@ == created(old(self)@, form.name, leader.id, resolved@));
                Ok(id)
            },
        }
    }

    /// The position of the team with this id.
    fn find_team(&self, id: i32) -> (r: Option<usize>)
        ensures
            match r {
                Some(i) => i < self@.teams.len() && self@.teams[i as int].id == id,
                None => !self@.has_team(id),
            },
    {
        let mut i: usize = 0;
        while i < self.teams.len()
            invariant
                i <= self.teams@.len(),
                forall|j: int| 0 <= j < i ==> (#[trigger] self.teams@[j]).id != id,
            decreases self.teams@.len() - i,
        {
            if self.teams[i].id == id {
                return Some(i);
            }
            i = i + 1;
        }
        None
    }

    /// The position of the member row of `student` in `team`.
    fn find_member(&self, team: i32, student: i32) -> (r: Option<usize>)
        ensures
            match r {
                Some(i) => i < self@.members.len() && member_at(team, student)(
                    self@.members[i as int],
                ),
                None => !self@.has_member(team, student),
            },
    {
        let mut i: usize = 0;
        while i < self.members.len()
            invariant
                i <= self.members@.len(),
                forall|j: int| 0 <= j < i ==> !member_at(team, student)(#[trigger] self.members@[j]),
            decreases self.members@.len() - i,
        {
            if self.members[i].team_id == team && self.members[i].student_id == student {
                return Some(i);
            }
            i = i + 1;
        }
        None
    }

    /// The position of the request row of `student` for `team`.
    fn find_request(&self, team: i32, student: i32) -> (r: Option<usize>)
        ensures
            match r {
                Some(i) => i < self@.requests.len() && self@.requests[i as int] == (TeamRequest {
                    team_id: team,
                    student_id: student,
                }),
                None => !self@.has_request(team, student),
            },
    {
        let mut i: usize = 0;
        while i < self.requests.len()
            invariant
                i <= self.requests@.len(),
                forall|j: int|
                    0 <= j < i ==> #[trigger] self.requests@[j] != (TeamRequest {
                        team_id: team,
                        student_id: student,
                    }),
            decreases self.requests@.len() - i,
        {
            if self.requests[i].team_id == team && self.requests[i].student_id == student {
                return Some(i);
            }
            i = i + 1;
        }
        None
    }

    /// How `student` stands to `team`.
    pub fn standing(&self, team: i32, student: i32) -> (r: Standing)
        requires
            self.wf(),
        ensures
            r == self@.standing(team, student),
    {
        match self.find_member(team, student) {
            Some(i) => {
                let row = self.members[i];
                if row.is_leader {
                    assert(self@.members[i as int] == (TeamMember {
                        team_id: team,
                        student_id: student,
                        is_leader: true,
                    }));
                    Standing::Leader
                } else {
                    assert(!self@.has_leader(team, student)) by {
                        if self@.has_leader(team, student) {
                            let k = choose|k: int|
                                0 <= k < self@.members.len() && self@.members[k] == (TeamMember {
                                    team_id: team,
                                    student_id: student,
                                    is_leader: true,
                                });
                            self.member_row_is_unique(k, i as int);
                        }
                    }
                    Standing::Member
                }
            },
            None => {
                assert(!self@.has_leader(team, student)) by {
                    if self@.has_leader(team, student) {
                        let k = choose|k: int|
                            0 <= k < self@.members.len() && self@.members[k] == (TeamMember {
                                team_id: team,
                                student_id: student,
                                is_leader: true,
                            });
                        assert(member_at(team, student)(self@.members[k]));
                    }
                }
                match self.find_request(team, student) {
                    Some(_) => Standing::Requested,
                    None => Standing::NoRelation,
                }
            },
        }
    }

    /// Two member rows with one key are one row.
    proof fn member_row_is_unique(&self, a: int, b: int)
        requires
            self.wf(),
            0 <= a < self@.members.len(),
            0 <= b < self@.members.len(),
            member_key()(self@.members[a]) == member_key()(self@.members[b]),
        ensures
            a == b,
    {
        if a < b {
            assert(member_key()(self@.members[a]) != member_key()(self@.members[b]));
        }
        if b < a {
            assert(member_key()(self@.members[b]) != member_key()(self@.members[a]));
        }
    }
}

impl TeamBook {
    /// All teams.
    pub fn teams(&self) -> (rows: &Vec<Team>)
        ensures
            rows@ == self@.teams,
    {
        &self.teams
    }

    /// All member rows.
    pub fn members(&self) -> (rows: &Vec<TeamMember>)
        ensures
            rows@ == self@.members,
    {
        &self.members
    }

    /// All request rows.
    pub fn requests(&self) -> (rows: &Vec<TeamRequest>)
        ensures
            rows@ == self@.requests,
    {
        &self.requests
    }

    /// The leader flag of the member row of `student` in `team`, if there
    /// is such a row.
    pub fn membership(&self, team: i32, student: i32) -> (r: Option<bool>)
        requires
            self.wf(),
        ensures
            r == self@.membership(team, student),
    {
        match self.standing(team, student) {
            Standing::Leader => Some(true),
            Standing::Member => Some(false),
            _ => None,
        }
    }

    /// The request row of `student` for `team`, if there is one.
    pub fn request(&self, team: i32, student: i32) -> (r: Option<TeamRequest>)
        ensures
            r == self@.request_row(team, student),
    {
        match self.find_request(team, student) {
            Some(at) => Some(self.requests[at]),
            None => None,
        }
    }

    /// Every request row but that at `at` has another key.
    proof fn request_is_unique(&self, at: int)
        requires
            self.wf(),
            0 <= at < self@.requests.len(),
        ensures
            forall|i: int|
                0 <= i < self@.requests.len() && i != at ==> other_request(
                    self@.requests[at].team_id,
                    self@.requests[at].student_id,
                )(#[trigger] self@.requests[i]),
            !other_request(self@.requests[at].team_id, self@.requests[at].student_id)(
                self@.requests[at],
            ),
    {
        assert forall|i: int| 0 <= i < self@.requests.len() && i != at implies other_request(
            self@.requests[at].team_id,
            self@.requests[at].student_id,
        )(#[trigger] self@.requests[i]) by {
            if !other_request(self@.requests[at].team_id, self@.requests[at].student_id)(
                self@.requests[i],
            ) {
                same_key_same_place(self@.requests, request_key(), i, at);
            }
        }
    }

    /// Accepts the invitation of `user` to `team`: the user becomes a plain
    /// member and the request is gone, both or neither.
    pub fn accept(&mut self, user: &User, paid: bool, team: i32) -> (r: Result<(), Failure>)
        requires
            old(self).wf(),
        ensures
            final(self).wf(),
            match r {
                Ok(()) => {
                    &&& acceptance_verdict(
                        *user,
                        paid,
                        old(self)@.request_row(team, user.id),
                    ).is_ok()
                    &&& final(self)@ == old(self)@.accepted(team, user.id)
                },
                Err(failure) => {
                    &&& acceptance_verdict(*user, paid, old(self)@.request_row(team, user.id))
                        == Err::<Acceptance, Failure>(failure)
                    &&& final(self)@ == old(self)@
                },
            },
    {
        match self.find_request(team, user.id) {
            None => Err(Failure::Unauthorized),
            Some(at) => {
                let row = self.requests[at];
                match acceptance(user, paid, &Some(row)) {
                    Err(failure) => Err(failure),
                    Ok(plan) => {
                        proof {
                            self.request_is_unique(at as int);
                            remove_is_filter(
                                self@.requests,
                                at as int,
                                other_request(team, user.id),
                            );
                            acceptance_is_consistent(self@, team, user.id);
                        }
                        self.requests.remove(at);
                        self.members.push(plan.insert);
                        Ok(())
                    },
                }
            },
        }
    }

    /// Declines the invitation of `user` to `team`. Gives the request that
    /// was taken away.
    pub fn reject(&mut self, user: &User, team: i32) -> (r: Result<TeamRequest, Failure>)
        requires
            old(self).wf(),
        ensures
            final(self).wf(),
            match r {
                Ok(row) => {
                    &&& old(self)@.request_row(team, user.id) == Some(row)
                    &&& final(self)@ == old(self)@.rejected(team, user.id)
                },
                Err(failure) => {
                    &&& old(self)@.request_row(team, user.id).is_none()
                    &&& failure == Failure::NotFound
                    &&& final(self)@ == old(self)@
                },
            },
    {
        match self.find_request(team, user.id) {
            None => Err(Failure::NotFound),
            Some(at) => {
                let row = self.requests[at];
                match rejection(user, &Some(row)) {
                    Err(failure) => Err(failure),
                    Ok(gone) => {
                        proof {
                            self.request_is_unique(at as int);
                            remove_is_filter(
                                self@.requests,
                                at as int,
                                other_request(team, user.id),
                            );
                            rejection_is_consistent(self@, team, user.id);
                        }
                        self.requests.remove(at);
                        Ok(gone)
                    },
                }
            },
        }
    }

    /// Sends an invitation: the caller must lead the team, the address must
    /// be that of a user in `users`, and that user must not stand to the
    /// team in any way yet.
    pub fn send_request(
        &mut self,
        caller: &User,
        paid: bool,
        request: &NewTeamRequest,
        users: &Vec<User>,
    ) -> (r: Result<(), Failure>)
        requires
            old(self).wf(),
        ensures
            final(self).wf(),
            match r {
                Ok(()) => {
                    &&& invitation_outcome(
                        old(self)@,
                        *caller,
                        paid,
                        request.team_id,
                        resolved_in(users@, utf8(request.email@)),
                    ) matches Ok(row)
                    &&& final(self)@ == old(self)@.invited(
                        invitation_outcome(
                            old(self)@,
                            *caller,
                            paid,
                            request.team_id,
                            resolved_in(users@, utf8(request.email@)),
                        ).unwrap(),
                    )
                },
                Err(failure) => {
                    &&& invitation_outcome(
                        old(self)@,
                        *caller,
                        paid,
                        request.team_id,
                        resolved_in(users@, utf8(request.email@)),
                    ) == Err::<TeamRequest, Failure>(failure)
                    &&& final(self)@ == old(self)@
                },
            },
    {
        let team = request.team_id;
        let membership = self.membership(team, caller.id);
        let invitee = resolve(users, request.email.as_str().as_bytes());
        let standing = match invitee {
            Some(id) => self.standing(team, id),
            None => Standing::NoRelation,
        };
        match invitation(caller, paid, membership, team, invitee, standing) {
            Err(failure) => Err(failure),
            Ok(row) => {
                proof {
                    self.led_team_exists(team, caller.id);
                    invitation_is_consistent(self@, row);
                }
                self.requests.push(row);
                Ok(())
            },
        }
    }

    /// A team that somebody leads exists.
    proof fn led_team_exists(&self, team: i32, leader: i32)
        requires
            self.wf(),
            self@.has_leader(team, leader),
        ensures
            self@.has_team(team),
    {
        let k = choose|k: int|
            0 <= k < self@.members.len() && self@.members[k] == (TeamMember {
                team_id: team,
                student_id: leader,
                is_leader: true,
            });
        assert(self@.has_team(self@.members[k].team_id));
    }

    /// Removes a member from a team. Only the leader does this, and not to
    /// the leader's own row. Removing somebody who is no member changes
    /// nothing.
    pub fn remove_member(&mut self, caller: &User, paid: bool, target: MemberId) -> (r: Result<
        (),
        Failure,
    >)
        requires
            old(self).wf(),
        ensures
            final(self).wf(),
            match r {
                Ok(()) => {
                    &&& removal_verdict(
                        *caller,
                        paid,
                        old(self)@.membership(target.team_id, caller.id),
                        target,
                    ).is_ok()
                    &&& final(self)@ == old(self)@.without_member(
                        target.team_id,
                        target.student_id,
                    )
                },
                Err(failure) => {
                    &&& removal_verdict(
                        *caller,
                        paid,
                        old(self)@.membership(target.team_id, caller.id),
                        target,
                    ) == Err::<MemberId, Failure>(failure)
                    &&& final(self)@ == old(self)@
                },
            },
    {
        let membership = self.membership(target.team_id, caller.id);
        match removal(caller, paid, membership, target) {
            Err(failure) => Err(failure),
            Ok(gone) => {
                proof {
                    self.one_leader(target.team_id, caller.id, target.student_id);
                    member_removal_is_consistent(self@, target.team_id, target.student_id);
                }
                match self.find_member(gone.team_id, gone.student_id) {
                    None => {
                        proof {
                            filter_of_all(
                                self@.members,
                                other_member(target.team_id, target.student_id),
                            );
                        }
                    },
                    Some(at) => {
                        proof {
                            assert forall|i: int|
                                0 <= i < self@.members.len() && i != at implies other_member(
                                target.team_id,
                                target.student_id,
                            )(#[trigger] self@.members[i]) by {
                                if !other_member(target.team_id, target.student_id)(
                                    self@.members[i],
                                ) {
                                    same_key_same_place(self@.members, member_key(), i, at as int);
                                }
                            }
                            remove_is_filter(
                                self@.members,
                                at as int,
                                other_member(target.team_id, target.student_id),
                            );
                        }
                        self.members.remove(at);
                    },
                }
                Ok(())
            },
        }
    }

    /// A team has one leader: nobody else leads it.
    proof fn one_leader(&self, team: i32, leader: i32, other: i32)
        requires
            self.wf(),
            self@.has_leader(team, leader),
            other != leader,
        ensures
            !self@.has_leader(team, other),
    {
        if self@.has_leader(team, other) {
            let a = choose|a: int|
                0 <= a < self@.members.len() && self@.members[a] == (TeamMember {
                    team_id: team,
                    student_id: leader,
                    is_leader: true,
                });
            let b = choose|b: int|
                0 <= b < self@.members.len() && self@.members[b] == (TeamMember {
                    team_id: team,
                    student_id: other,
                    is_leader: true,
                });
            if a < b {
                assert(!(self@.members[a].is_leader && self@.members[b].is_leader));
            } else if b < a {
                assert(!(self@.members[b].is_leader && self@.members[a].is_leader));
            }
        }
    }

    /// Deletes a team with its member and request rows. Only the leader
    /// does this.
    pub fn delete(&mut self, caller: &User, paid: bool, team: i32) -> (r: Result<(), Failure>)
        requires
            old(self).wf(),
        ensures
            final(self).wf(),
            r == leader_verdict(*caller, paid, old(self)@.membership(team, caller.id)),
            r.is_ok() ==> final(self)@ == old(self)@.without_team(team),
            r.is_err() ==> final(self)@ == old(self)@,
    {
        let membership = self.membership(team, caller.id);
        match leader_gate(caller, paid, membership) {
            Err(failure) => Err(failure),
            Ok(()) => {
                proof {
                    deletion_is_consistent(self@, team);
                }
                match self.find_team(team) {
                    None => {
                        proof {
                            assert forall|i: int| 0 <= i < self@.teams.len() implies other_team(
                                team,
                            )(#[trigger] self@.teams[i]) by {}
                            filter_of_all(self@.teams, other_team(team));
                        }
                    },
                    Some(at) => {
                        proof {
                            assert forall|i: int|
                                0 <= i < self@.teams.len() && i != at implies other_team(team)(
                                #[trigger] self@.teams[i],
                            ) by {
                                if !other_team(team)(self@.teams[i]) {
                                    same_key_same_place(self@.teams, team_key(), i, at as int);
                                }
                            }
                            remove_is_filter(self@.teams, at as int, other_team(team));
                        }
                        self.teams.remove(at);
                    },
                }
                self.members = members_outside(&self.members, team);
                self.requests = requests_outside(&self.requests, team);
                Ok(())
            },
        }
    }

    /// Renames a team. Only the leader does this. A change that names no
    /// new name changes nothing.
    pub fn change(&mut self, caller: &User, paid: bool, change: &ChangeTeam) -> (r: Result<
        (),
        Failure,
    >)
        requires
            old(self).wf(),
        ensures
            final(self).wf(),
            r == leader_verdict(*caller, paid, old(self)@.membership(change.id, caller.id)),
            r.is_err() ==> final(self)@ == old(self)@,
            r.is_ok() ==> final(self)@ == (match change.name {
                Some(name) => old(self)@.renamed(change.id, name),
                None => old(self)@,
            }),
    {
        let membership = self.membership(change.id, caller.id);
        match leader_gate(caller, paid, membership) {
            Err(failure) => Err(failure),
            Ok(()) => {
                match &change.name {
                    None => {},
                    Some(name) => {
                        proof {
                            renaming_is_consistent(self@, change.id, *name);
                        }
                        match self.find_team(change.id) {
                            None => {
                                assert(self@.teams =~= self@.renamed(change.id, *name).teams);
                            },
                            Some(at) => {
                                let ghost before = self@;
                                self.teams.set(at, Team { id: change.id, name: name.clone() });
                                proof {
                                    assert forall|i: int|
                                        0 <= i < before.teams.len() implies self@.teams[i]
                                        == before.renamed(change.id, *name).teams[i] by {
                                        if i != at && before.teams[i].id == change.id {
                                            same_key_same_place(
                                                before.teams,
                                                team_key(),
                                                i,
                                                at as int,
                                            );
                                        }
                                    }
                                    assert(self@.teams =~= before.renamed(change.id, *name).teams);
                                }
                            },
                        }
                    },
                }
                Ok(())
            },
        }
    }
}

} // verus!

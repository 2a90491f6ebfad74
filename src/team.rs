use vstd::prelude::*;

use crate::error::{error_with, failure_error, failure_kind, status_of, ApiError, DbFailure, ErrorKind};
use crate::model::{Team, TeamResponse, User};
use crate::schema::CreateTeamRequest;
use crate::sql::{copy_opt_text, copy_texts, opt_text_view, text_list_view, SqlArg, SqlValue, Statement};

verus! {

/// `u` carries the external id `id`.
pub open spec fn has_external_id(u: User, id: Seq<char>) -> bool {
    u.azure_id is Some && u.azure_id->0@ == id
}

/// Some user among `users` carries the external id `id`.
pub open spec fn resolved_in(id: Seq<char>, users: Seq<User>) -> bool {
    exists|j: int| 0 <= j < users.len() && has_external_id(#[trigger] users[j], id)
}

/// `u` carries one of the external ids `ids`.
pub open spec fn requested(u: User, ids: Seq<String>) -> bool {
    exists|i: int| 0 <= i < ids.len() && has_external_id(u, #[trigger] ids[i]@)
}

/// The users found for a team match its request one to one: as many users as
/// requested ids, every requested id carried by one of them, and every user
/// found carrying one of the requested ids.
pub open spec fn members_match(ids: Seq<String>, users: Seq<User>) -> bool {
    &&& users.len() == ids.len()
    &&& forall|i: int| 0 <= i < ids.len() ==> resolved_in(#[trigger] ids[i]@, users)
    &&& forall|j: int| 0 <= j < users.len() ==> requested(#[trigger] users[j], ids)
}

fn is_requested(u: &User, ids: &Vec<String>) -> (r: bool)
    ensures
        r == requested(*u, ids@),
{
    let a = match &u.azure_id {
        Some(a) => a,
        None => {
            return false;
        },
    };
    let mut i: usize = 0;
    while i < ids.len()
        invariant
            i <= ids@.len(),
            u.azure_id == Some(*a),
            forall|k: int| 0 <= k < i ==> !has_external_id(*u, #[trigger] ids@[k]@),
        decreases ids@.len() - i,
    {
        if a.eq(&ids[i]) {
            assert(has_external_id(*u, ids@[i as int]@));
            return true;
        }
        i = i + 1;
    }
    false
}

fn is_resolved(id: &String, users: &Vec<User>) -> (r: bool)
    ensures
        r == resolved_in(id@, users@),
{
    let mut j: usize = 0;
    while j < users.len()
        invariant
            j <= users@.len(),
            forall|k: int| 0 <= k < j ==> !has_external_id(#[trigger] users@[k], id@),
        decreases users@.len() - j,
    {
        match &users[j].azure_id {
            Some(a) => {
                if a.eq(id) {
                    assert(has_external_id(users@[j as int], id@));
                    return true;
                }
            },
            None => {},
        }
        j = j + 1;
    }
    false
}

/// Tells whether the users found match the requested external ids one to one.
pub fn members_found(ids: &Vec<String>, users: &Vec<User>) -> (r: bool)
    ensures
        r == members_match(ids@, users@),
{
    if users.len() != ids.len() {
        return false;
    }
    let mut i: usize = 0;
    while i < ids.len()
        invariant
            i <= ids@.len(),
            users@.len() == ids@.len(),
            forall|k: int| 0 <= k < i ==> resolved_in(#[trigger] ids@[k]@, users@),
        decreases ids@.len() - i,
    {
        if !is_resolved(&ids[i], users) {
            return false;
        }
        i = i + 1;
    }
    let mut j: usize = 0;
    while j < users.len()
        invariant
            j <= users@.len(),
            users@.len() == ids@.len(),
            forall|k: int| 0 <= k < ids@.len() ==> resolved_in(#[trigger] ids@[k]@, users@),
            forall|k: int| 0 <= k < j ==> requested(#[trigger] users@[k], ids@),
        decreases users@.len() - j,
    {
        if !is_requested(&users[j], ids) {
            return false;
        }
        j = j + 1;
    }
    true
}

pub open spec fn is_find_members(s: Statement, ids: Seq<String>) -> bool {
    &&& s.text() == "SELECT * FROM users WHERE azure_id = ANY($1::varchar[])"@
    &&& s.bound() == seq![SqlArg::TextList(text_list_view(ids))]
}

pub open spec fn is_insert_team(s: Statement, req: CreateTeamRequest) -> bool {
    &&& s.text() == "INSERT INTO teams (name, description, azure_id) VALUES ($1, $2, $3) RETURNING *"@
    &&& s.bound() == seq![
        SqlArg::Text(req.name@),
        SqlArg::OptText(opt_text_view(req.description)),
        SqlArg::OptText(opt_text_view(req.azure_id)),
    ]
}

pub open spec fn is_membership_insert(s: Statement, team_id: u128, user_id: u128) -> bool {
    &&& s.text() == "INSERT INTO team_users (team_id, user_id) VALUES ($1, $2)"@
    &&& s.bound() == seq![SqlArg::Id(team_id), SqlArg::Id(user_id)]
}

/// One membership insert per member, in the members' order.
pub open spec fn links_members(stmts: Seq<Statement>, team_id: u128, members: Seq<User>) -> bool {
    &&& stmts.len() == members.len()
    &&& forall|i: int|
        0 <= i < stmts.len() ==> is_membership_insert(#[trigger] stmts[i], team_id, members[i].id)
}

/// The lookup of a new team's members by external id.
pub fn find_members_statement(ids: &Vec<String>) -> (s: Statement)
    ensures
        is_find_members(s, ids@),
{
    let mut args: Vec<SqlValue> = Vec::new();
    args.push(SqlValue::TextList(copy_texts(ids)));
    let s = Statement {
        sql: String::from_str("SELECT * FROM users WHERE azure_id = ANY($1::varchar[])"),
        args,
    };
    assert(s.bound() =~= seq![SqlArg::TextList(text_list_view(ids@))]);
    s
}

/// The insert of the team row itself.
pub fn insert_team_statement(req: &CreateTeamRequest) -> (s: Statement)
    ensures
        is_insert_team(s, *req),
{
    let mut args: Vec<SqlValue> = Vec::new();
    args.push(SqlValue::Text(req.name.clone()));
    args.push(SqlValue::OptText(copy_opt_text(&req.description)));
    args.push(SqlValue::OptText(copy_opt_text(&req.azure_id)));
    let s = Statement {
        sql: String::from_str(
            "INSERT INTO teams (name, description, azure_id) VALUES ($1, $2, $3) RETURNING *",
        ),
        args,
    };
    assert(s.bound() =~= seq![
        SqlArg::Text(req.name@),
        SqlArg::OptText(opt_text_view(req.description)),
        SqlArg::OptText(opt_text_view(req.azure_id)),
    ]);
    s
}

fn membership_statement(team_id: u128, user_id: u128) -> (s: Statement)
    ensures
        is_membership_insert(s, team_id, user_id),
{
    let mut args: Vec<SqlValue> = Vec::new();
    args.push(SqlValue::Id(team_id));
    args.push(SqlValue::Id(user_id));
    let s = Statement {
        sql: String::from_str("INSERT INTO team_users (team_id, user_id) VALUES ($1, $2)"),
        args,
    };
    assert(s.bound() =~= seq![SqlArg::Id(team_id), SqlArg::Id(user_id)]);
    s
}

/// The membership inserts that tie every member to the team `team_id`.
pub fn membership_statements(team_id: u128, members: &Vec<User>) -> (r: Vec<Statement>)
    ensures
        links_members(r@, team_id, members@),
{
    let mut r: Vec<Statement> = Vec::new();
    let mut i: usize = 0;
    while i < members.len()
        invariant
            i <= members@.len(),
            links_members(r@, team_id, members@.subrange(0, i as int)),
        decreases members@.len() - i,
    {
        r.push(membership_statement(team_id, members[i].id));
        i = i + 1;
    }
    assert(members@.subrange(0, members@.len() as int) =~= members@);
    r
}

/// Where a team creation stands.
#[derive(Debug, Clone, Copy, PartialEq, Eq, Structural)]
pub enum TeamStage {
    Begin,
    FindMembers,
    InsertTeam,
    LinkMembers,
    Commit,
    Finished,
}

/// A team creation in progress: a team row and its membership rows are
/// written in one transaction, all or nothing.
#[derive(Debug)]
pub struct TeamCreation {
    pub request: CreateTeamRequest,
    pub stage: TeamStage,
    /// The users found for the requested external ids.
    pub members: Vec<User>,
    /// The team row, once inserted.
    pub team: Option<Team>,
}

/// The result of the last action, as the database layer reports it.
#[derive(Debug, Clone, PartialEq)]
pub enum TeamEvent {
    Begun,
    MembersFound(Vec<User>),
    TeamInserted(Team),
    MembersLinked,
    Committed,
    Failed(DbFailure),
}

/// What the database layer does next.
#[derive(Debug, Clone, PartialEq)]
pub enum TeamAction {
    /// Begin the transaction.
    Begin,
    /// Run the member lookup; its rows are the users found.
    FindMembers(Statement),
    /// Run the team insert; its one row is the team.
    InsertTeam(Statement),
    /// Run each membership insert in order, stopping at the first failure.
    LinkMembers(Vec<Statement>),
    /// Commit the transaction.
    Commit,
    /// Roll the transaction back, if one is open, and answer with the error.
    Abort(ApiError),
    /// The transaction is committed: answer with the created team.
    Reply(TeamResponse),
}

/// The event that answers the action of `stage`.
pub open spec fn answers(stage: TeamStage, ev: TeamEvent) -> bool {
    match stage {
        TeamStage::Begin => ev is Begun,
        TeamStage::FindMembers => ev is MembersFound,
        TeamStage::InsertTeam => ev is TeamInserted,
        TeamStage::LinkMembers => ev is MembersLinked,
        TeamStage::Commit => ev is Committed,
        TeamStage::Finished => false,
    }
}

pub open spec fn aborts(act: TeamAction, kind: ErrorKind, message: Seq<char>) -> bool {
    match act {
        TeamAction::Abort(e) => e.kind == kind && e.message@ == message,
        _ => false,
    }
}

/// The reply lists the inserted team and exactly the members found.
pub open spec fn replies_with(resp: TeamResponse, team: Team, members: Seq<User>) -> bool {
    &&& resp.id == team.id
    &&& resp.azure_id == team.azure_id
    &&& resp.name == team.name
    &&& resp.description == team.description
    &&& resp.users is Some
    &&& resp.users->0@ == members
}

/// One step of a team creation: from `pre`, the result `ev` of the last
/// action leads to `post` and the next action `act`. A failed step aborts,
/// a missing member aborts before anything is written, and the reply comes
/// only after the commit.
pub open spec fn team_step(pre: TeamCreation, ev: TeamEvent, post: TeamCreation, act: TeamAction) -> bool {
    &&& post.request == pre.request
    &&& if pre.stage == TeamStage::Finished {
        &&& post.stage == TeamStage::Finished
        &&& aborts(act, ErrorKind::Internal, "team creation already finished"@)
    } else if ev is Failed {
        &&& post.stage == TeamStage::Finished
        &&& match ev {
            TeamEvent::Failed(f) => aborts(
                act,
                failure_kind(pre.stage == TeamStage::Begin || pre.stage == TeamStage::Commit, f),
                f.message@,
            ),
            _ => false,
        }
    } else if !answers(pre.stage, ev) {
        &&& post.stage == TeamStage::Finished
        &&& aborts(act, ErrorKind::Internal, "unexpected result for the team creation step"@)
    } else {
        match ev {
            TeamEvent::Begun => {
                &&& post.stage == TeamStage::FindMembers
                &&& post.members == pre.members
                &&& post.team == pre.team
                &&& act matches TeamAction::FindMembers(s) && is_find_members(
                    s,
                    pre.request.user_ids@,
                )
            },
            TeamEvent::MembersFound(found) => if members_match(pre.request.user_ids@, found@) {
                &&& post.stage == TeamStage::InsertTeam
                &&& post.members == found
                &&& post.team == pre.team
                &&& act matches TeamAction::InsertTeam(s) && is_insert_team(s, pre.request)
            } else {
                &&& post.stage == TeamStage::Finished
                &&& aborts(act, ErrorKind::MembersNotFound, "One or more users not found"@)
            },
            TeamEvent::TeamInserted(t) => {
                &&& post.stage == TeamStage::LinkMembers
                &&& post.members == pre.members
                &&& post.team == Some(t)
                &&& act matches TeamAction::LinkMembers(v) && links_members(
                    v@,
                    t.id,
                    pre.members@,
                )
            },
            TeamEvent::MembersLinked => {
                &&& post.stage == TeamStage::Commit
                &&& post.members == pre.members
                &&& post.team == pre.team
                &&& act is Commit
            },
            _ => {
                &&& post.stage == TeamStage::Finished
                &&& if pre.team is Some {
                    act matches TeamAction::Reply(r) && replies_with(
                        r,
                        pre.team->0,
                        pre.members@,
                    )
                } else {
                    aborts(act, ErrorKind::Internal, "no team row to reply with"@)
                }
            },
        }
    }
}

impl TeamCreation {
    /// What holds of every state that `start` and `step` reach: members are
    /// held only once they match the request, and the team row once it is
    /// inserted.
    pub open spec fn inv(&self) -> bool {
        &&& (self.stage == TeamStage::InsertTeam || self.stage == TeamStage::LinkMembers
            || self.stage == TeamStage::Commit) ==> members_match(
            self.request.user_ids@,
            self.members@,
        )
        &&& (self.stage == TeamStage::LinkMembers || self.stage == TeamStage::Commit)
            ==> self.team is Some
    }

    /// Starts a team creation: the first action begins the transaction.
    pub fn start(request: CreateTeamRequest) -> (r: (TeamCreation, TeamAction))
        ensures
            r.0.request == request,
            r.0.stage == TeamStage::Begin,
            r.0.members@.len() == 0,
            r.0.team is None,
            r.0.inv(),
            r.1 is Begin,
    {
        (TeamCreation { request, stage: TeamStage::Begin, members: Vec::new(), team: None }, TeamAction::Begin)
    }

    /// Takes the result of the last action and gives the next one.
    pub fn step(self, ev: TeamEvent) -> (r: (TeamCreation, TeamAction))
        ensures
            team_step(self, ev, r.0, r.1),
            self.inv() ==> r.0.inv(),
    {
        let TeamCreation { request, stage, members, team } = self;
        if stage == TeamStage::Finished {
            let e = error_with(ErrorKind::Internal, "team creation already finished");
            return (TeamCreation { request, stage: TeamStage::Finished, members, team }, TeamAction::Abort(e));
        }
        match ev {
            TeamEvent::Failed(f) => {
                let e = failure_error(stage == TeamStage::Begin || stage == TeamStage::Commit, f);
                (TeamCreation { request, stage: TeamStage::Finished, members, team }, TeamAction::Abort(e))
            },
            TeamEvent::Begun if stage == TeamStage::Begin => {
                let s = find_members_statement(&request.user_ids);
                (TeamCreation { request, stage: TeamStage::FindMembers, members, team }, TeamAction::FindMembers(s))
            },
            TeamEvent::MembersFound(found) if stage == TeamStage::FindMembers => {
                if members_found(&request.user_ids, &found) {
                    let s = insert_team_statement(&request);
                    (TeamCreation { request, stage: TeamStage::InsertTeam, members: found, team }, TeamAction::InsertTeam(s))
                } else {
                    let e = error_with(ErrorKind::MembersNotFound, "One or more users not found");
                    (TeamCreation { request, stage: TeamStage::Finished, members, team }, TeamAction::Abort(e))
                }
            },
            TeamEvent::TeamInserted(t) if stage == TeamStage::InsertTeam => {
                let v = membership_statements(t.id, &members);
                (TeamCreation { request, stage: TeamStage::LinkMembers, members, team: Some(t) }, TeamAction::LinkMembers(v))
            },
            TeamEvent::MembersLinked if stage == TeamStage::LinkMembers => {
                (TeamCreation { request, stage: TeamStage::Commit, members, team }, TeamAction::Commit)
            },
            TeamEvent::Committed if stage == TeamStage::Commit => {
                match team {
                    Some(t) => {
                        let resp = TeamResponse {
                            id: t.id,
                            azure_id: t.azure_id,
                            name: t.name,
                            description: t.description,
                            users: Some(members),
                        };
                        (TeamCreation { request, stage: TeamStage::Finished, members: Vec::new(), team: None }, TeamAction::Reply(resp))
                    },
                    None => {
                        let e = error_with(ErrorKind::Internal, "no team row to reply with");
                        (TeamCreation { request, stage: TeamStage::Finished, members, team: None }, TeamAction::Abort(e))
                    },
                }
            },
            _ => {
                let e = error_with(ErrorKind::Internal, "unexpected result for the team creation step");
                (TeamCreation { request, stage: TeamStage::Finished, members, team }, TeamAction::Abort(e))
            },
        }
    }
}

/// Every step keeps what `inv` says of a team creation.
pub proof fn lemma_team_step_keeps_inv(
    pre: TeamCreation,
    ev: TeamEvent,
    post: TeamCreation,
    act: TeamAction,
)
    requires
        pre.inv(),
        team_step(pre, ev, post, act),
    ensures
        post.inv(),
{
}

/// A team with N requested members, all of which exist, gets exactly N
/// membership rows, one for each user found, and its reply lists exactly
/// those N users.
pub proof fn lemma_team_members_exact(
    pre: TeamCreation,
    ev: TeamEvent,
    post: TeamCreation,
    act: TeamAction,
)
    requires
        pre.inv(),
        team_step(pre, ev, post, act),
    ensures
        match act {
            TeamAction::LinkMembers(v) => {
                &&& post.team is Some
                &&& v@.len() == pre.request.user_ids@.len()
                &&& links_members(v@, post.team->0.id, pre.members@)
                &&& members_match(pre.request.user_ids@, pre.members@)
            },
            TeamAction::Reply(r) => {
                &&& r.users is Some
                &&& r.users->0@ == pre.members@
                &&& r.users->0@.len() == pre.request.user_ids@.len()
                &&& members_match(pre.request.user_ids@, r.users->0@)
            },
            _ => true,
        },
{
}

/// A team with a requested member that does not exist is aborted as soon as
/// the lookup returns, with a client error, before any row is written.
pub proof fn lemma_team_missing_member_aborts(
    pre: TeamCreation,
    found: Vec<User>,
    post: TeamCreation,
    act: TeamAction,
    missing: int,
)
    requires
        pre.stage == TeamStage::FindMembers,
        team_step(pre, TeamEvent::MembersFound(found), post, act),
        0 <= missing < pre.request.user_ids@.len(),
        !resolved_in(pre.request.user_ids@[missing]@, found@),
    ensures
        post.stage == TeamStage::Finished,
        aborts(act, ErrorKind::MembersNotFound, "One or more users not found"@),
        status_of(ErrorKind::MembersNotFound) == 400,
{
}

/// Rows are written only for a team whose every requested member was found:
/// the team insert and the membership inserts are never issued otherwise.
pub proof fn lemma_team_writes_need_all_members(
    pre: TeamCreation,
    ev: TeamEvent,
    post: TeamCreation,
    act: TeamAction,
)
    requires
        pre.inv(),
        team_step(pre, ev, post, act),
        act is InsertTeam || act is LinkMembers,
    ensures
        members_match(post.request.user_ids@, post.members@),
        forall|i: int|
            0 <= i < post.request.user_ids@.len() ==> resolved_in(
                #[trigger] post.request.user_ids@[i]@,
                post.members@,
            ),
{
}

/// The order of the stages; a step never goes back.
pub open spec fn stage_rank(s: TeamStage) -> int {
    match s {
        TeamStage::Begin => 0,
        TeamStage::FindMembers => 1,
        TeamStage::InsertTeam => 2,
        TeamStage::LinkMembers => 3,
        TeamStage::Commit => 4,
        TeamStage::Finished => 5,
    }
}

/// `states`, `events` and `acts` form a run: each state is reached from the
/// one before by a step on that step's event, which issued that step's action.
pub open spec fn team_run(states: Seq<TeamCreation>, events: Seq<TeamEvent>, acts: Seq<TeamAction>) -> bool {
    &&& states.len() == events.len() + 1
    &&& acts.len() == events.len()
    &&& forall|i: int|
        0 <= i < events.len() ==> team_step(#[trigger] states[i], events[i], states[i + 1], acts[i])
}

proof fn lemma_team_run_monotone(
    states: Seq<TeamCreation>,
    events: Seq<TeamEvent>,
    acts: Seq<TeamAction>,
    a: int,
    b: int,
)
    requires
        team_run(states, events, acts),
        0 <= a <= b < states.len(),
    ensures
        stage_rank(states[a].stage) <= stage_rank(states[b].stage),
    decreases b - a,
{
    if a < b {
        lemma_team_run_monotone(states, events, acts, a, b - 1);
        assert(team_step(states[b - 1], events[b - 1], states[b], acts[b - 1]));
    }
}

/// All or nothing: in a run where the member lookup comes back without one
/// of the requested users, neither the team insert nor any membership insert
/// is ever issued.
pub proof fn lemma_team_run_missing_member_writes_nothing(
    states: Seq<TeamCreation>,
    events: Seq<TeamEvent>,
    acts: Seq<TeamAction>,
    j: int,
    missing: int,
)
    requires
        team_run(states, events, acts),
        0 <= j < events.len(),
        states[j].stage == TeamStage::FindMembers,
        events[j] matches TeamEvent::MembersFound(found) && !resolved_in(
            states[j].request.user_ids@[missing]@,
            found@,
        ),
        0 <= missing < states[j].request.user_ids@.len(),
    ensures
        forall|i: int| 0 <= i < acts.len() ==> !(#[trigger] acts[i] is InsertTeam) && !(acts[i] is LinkMembers),
{
    assert(team_step(states[j], events[j], states[j + 1], acts[j]));
    assert forall|i: int| 0 <= i < acts.len() implies !(#[trigger] acts[i] is InsertTeam) && !(
    acts[i] is LinkMembers) by {
        assert(team_step(states[i], events[i], states[i + 1], acts[i]));
        if i < j {
            lemma_team_run_monotone(states, events, acts, i + 1, j);
            lemma_team_run_monotone(states, events, acts, i, j);
        } else if i > j {
            lemma_team_run_monotone(states, events, acts, j + 1, i);
        }
    }
}

proof fn lemma_team_run_keeps(
    states: Seq<TeamCreation>,
    events: Seq<TeamEvent>,
    acts: Seq<TeamAction>,
    b: int,
)
    requires
        team_run(states, events, acts),
        states[0].inv(),
        0 <= b < states.len(),
    ensures
        states[b].inv(),
        states[b].request == states[0].request,
    decreases b,
{
    if b > 0 {
        lemma_team_run_keeps(states, events, acts, b - 1);
        assert(team_step(states[b - 1], events[b - 1], states[b], acts[b - 1]));
        lemma_team_step_keeps_inv(states[b - 1], events[b - 1], states[b], acts[b - 1]);
    }
}

proof fn lemma_team_run_linked(
    states: Seq<TeamCreation>,
    events: Seq<TeamEvent>,
    acts: Seq<TeamAction>,
    b: int,
)
    requires
        team_run(states, events, acts),
        states[0].stage == TeamStage::Begin,
        0 <= b < states.len(),
        states[b].stage == TeamStage::LinkMembers || states[b].stage == TeamStage::Commit,
    ensures
        exists|l: int|
            0 <= l < b && (#[trigger] acts[l] matches TeamAction::LinkMembers(v) && states[b].team
                is Some && links_members(v@, states[b].team->0.id, states[b].members@)),
    decreases b,
{
    if b > 0 {
        let pre = states[b - 1];
        assert(team_step(pre, events[b - 1], states[b], acts[b - 1]));
        if pre.stage == TeamStage::InsertTeam {
            assert(acts[b - 1] is LinkMembers);
        } else {
            assert(pre.stage == TeamStage::LinkMembers);
            lemma_team_run_linked(states, events, acts, b - 1);
            let l = choose|l: int|
                0 <= l < b - 1 && (#[trigger] acts[l] matches TeamAction::LinkMembers(v)
                    && states[b - 1].team is Some && links_members(
                    v@,
                    states[b - 1].team->0.id,
                    states[b - 1].members@,
                ));
            assert(0 <= l < b);
        }
    }
}

/// A run that ends in a reply created the team with exactly the N requested
/// users: the reply lists N users, one for each requested external id, and
/// the run issued one membership insert for each of them, tying them to the
/// team of the reply.
pub proof fn lemma_team_run_reply_lists_linked_members(
    states: Seq<TeamCreation>,
    events: Seq<TeamEvent>,
    acts: Seq<TeamAction>,
    i: int,
)
    requires
        team_run(states, events, acts),
        states[0].stage == TeamStage::Begin,
        states[0].inv(),
        0 <= i < acts.len(),
        acts[i] is Reply,
    ensures
        acts[i] matches TeamAction::Reply(r) && r.users matches Some(users) && users@.len()
            == states[0].request.user_ids@.len() && members_match(
            states[0].request.user_ids@,
            users@,
        ) && exists|l: int|
            0 <= l < i && (#[trigger] acts[l] matches TeamAction::LinkMembers(v) && links_members(
                v@,
                r.id,
                users@,
            )),
{
    let pre = states[i];
    assert(team_step(pre, events[i], states[i + 1], acts[i]));
    lemma_team_run_keeps(states, events, acts, i);
    assert(pre.stage == TeamStage::Commit);
    lemma_team_run_linked(states, events, acts, i);
}

} // verus!

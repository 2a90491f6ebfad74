use vstd::prelude::*;

use crate::error::{error_with, failure_error, failure_kind, ApiError, DbFailure, ErrorKind};
use crate::model::WorkItem;
use crate::schema::CreateWorkItemRequest;
use crate::sql::{copy_opt_text, copy_texts, opt_text_view, text_list_view, SqlArg, SqlValue, Statement};

verus! {

/// How a reference that does not resolve is treated.
#[derive(Debug, Clone, Copy, PartialEq, Eq, Structural)]
pub enum Policy {
    /// The whole creation fails.
    Required,
    /// The new record is created without the link.
    Soft,
}

/// What a work item reference points at, and by which key it is looked up:
/// the project by name, the assignee and the creator by the user's external
/// id, the parent by the work item's external id.
#[derive(Debug, Clone, Copy, PartialEq, Eq, Structural)]
pub enum RefTarget {
    Project,
    Assignee,
    Creator,
    Parent,
}

/// A reference of a creation request, with its resolution policy.
#[derive(Debug, Clone, PartialEq)]
pub struct Reference {
    pub target: RefTarget,
    pub key: String,
    pub policy: Policy,
}

impl View for Reference {
    type V = (RefTarget, Seq<char>, Policy);

    open spec fn view(&self) -> (RefTarget, Seq<char>, Policy) {
        (self.target, self.key@, self.policy)
    }
}

pub open spec fn refs_view(v: Seq<Reference>) -> Seq<(RefTarget, Seq<char>, Policy)> {
    v.map_values(|r: Reference| r@)
}

pub open spec fn opt_ref(t: RefTarget, key: Option<String>, p: Policy) -> Seq<(RefTarget, Seq<char>, Policy)> {
    match key {
        Some(k) => seq![(t, k@, p)],
        None => Seq::empty(),
    }
}

/// The references of a work item, in the order they are resolved: the
/// project, the assignee if one is given, the creator, all three required,
/// then the parent if one is given, which is soft.
pub open spec fn references(req: CreateWorkItemRequest) -> Seq<(RefTarget, Seq<char>, Policy)> {
    seq![(RefTarget::Project, req.project@, Policy::Required)] + opt_ref(
        RefTarget::Assignee,
        req.assigned_to_id,
        Policy::Required,
    ) + seq![(RefTarget::Creator, req.created_by_id@, Policy::Required)] + opt_ref(
        RefTarget::Parent,
        req.parent_id,
        Policy::Soft,
    )
}

fn push_opt_ref(v: &mut Vec<Reference>, t: RefTarget, key: &Option<String>, p: Policy)
    ensures
        refs_view(final(v)@) == refs_view(old(v)@) + opt_ref(t, *key, p),
{
    let ghost before = v@;
    match key {
        Some(k) => {
            v.push(Reference { target: t, key: k.clone(), policy: p });
        },
        None => {},
    }
    assert(refs_view(v@) =~= refs_view(before) + opt_ref(t, *key, p));
}

/// Lists the references of a work item request.
pub fn references_of(req: &CreateWorkItemRequest) -> (r: Vec<Reference>)
    ensures
        refs_view(r@) == references(*req),
{
    let mut v: Vec<Reference> = Vec::new();
    v.push(Reference { target: RefTarget::Project, key: req.project.clone(), policy: Policy::Required });
    assert(refs_view(v@) =~= seq![(RefTarget::Project, req.project@, Policy::Required)]);
    push_opt_ref(&mut v, RefTarget::Assignee, &req.assigned_to_id, Policy::Required);
    let ghost before = v@;
    v.push(Reference { target: RefTarget::Creator, key: req.created_by_id.clone(), policy: Policy::Required });
    assert(refs_view(v@) =~= refs_view(before) + seq![(RefTarget::Creator, req.created_by_id@, Policy::Required)]);
    push_opt_ref(&mut v, RefTarget::Parent, &req.parent_id, Policy::Soft);
    v
}

pub open spec fn lookup_sql(t: RefTarget) -> Seq<char> {
    match t {
        RefTarget::Project => "SELECT id FROM projects WHERE name = $1 LIMIT 1"@,
        RefTarget::Parent => "SELECT id FROM work_items WHERE azure_id = $1 LIMIT 1"@,
        _ => "SELECT id FROM users WHERE azure_id = $1 LIMIT 1"@,
    }
}

/// The lookup of one reference: at most one id row.
pub open spec fn is_lookup(s: Statement, r: (RefTarget, Seq<char>, Policy)) -> bool {
    &&& s.text() == lookup_sql(r.0)
    &&& s.bound() == seq![SqlArg::Text(r.1)]
}

pub fn lookup_statement(r: &Reference) -> (s: Statement)
    ensures
        is_lookup(s, r@),
{
    let sql = match r.target {
        RefTarget::Project => String::from_str("SELECT id FROM projects WHERE name = $1 LIMIT 1"),
        RefTarget::Parent => String::from_str("SELECT id FROM work_items WHERE azure_id = $1 LIMIT 1"),
        _ => String::from_str("SELECT id FROM users WHERE azure_id = $1 LIMIT 1"),
    };
    let mut args: Vec<SqlValue> = Vec::new();
    args.push(SqlValue::Text(r.key.clone()));
    let s = Statement { sql, args };
    assert(s.bound() =~= seq![SqlArg::Text(r.key@)]);
    s
}

/// The ids that the references resolved to.
#[derive(Debug, Clone, PartialEq)]
pub struct ResolvedRefs {
    pub project: u128,
    pub assignee: Option<u128>,
    pub creator: u128,
    pub parent: Option<u128>,
}

pub open spec fn insert_workitem_sql() -> Seq<char> {
    "INSERT INTO work_items (azure_id, title, w_type, state, project, assigned_to_id, created_by_id, priority, severity, description, area_path, iteration_path, parent_id, tags, url) VALUES ($1, $2, $3, $4, $5, $6, $7, $8, $9, $10, $11, $12, $13, $14, $15) RETURNING *"@
}

pub open spec fn is_insert_workitem(s: Statement, req: CreateWorkItemRequest, ids: ResolvedRefs) -> bool {
    &&& s.text() == insert_workitem_sql()
    &&& s.bound() == seq![
        SqlArg::OptText(opt_text_view(req.azure_id)),
        SqlArg::Text(req.title@),
        SqlArg::Text(req.w_type@),
        SqlArg::Text(req.state@),
        SqlArg::Id(ids.project),
        SqlArg::OptId(ids.assignee),
        SqlArg::Id(ids.creator),
        SqlArg::OptInt(
            match req.priority {
                Some(p) => Some(p as int),
                None => None,
            },
        ),
        SqlArg::OptText(opt_text_view(req.severity)),
        SqlArg::OptText(opt_text_view(req.description)),
        SqlArg::OptText(opt_text_view(req.area_path)),
        SqlArg::OptText(opt_text_view(req.iteration_path)),
        SqlArg::OptId(ids.parent),
        SqlArg::OptTextList(
            match req.tags {
                Some(t) => Some(text_list_view(t@)),
                None => None,
            },
        ),
        SqlArg::Text(req.url@),
    ]
}

/// The insert of a work item with its references resolved to `ids`.
pub fn insert_workitem_statement(req: &CreateWorkItemRequest, ids: &ResolvedRefs) -> (s: Statement)
    ensures
        is_insert_workitem(s, *req, *ids),
{
    let mut args: Vec<SqlValue> = Vec::new();
    args.push(SqlValue::OptText(copy_opt_text(&req.azure_id)));
    args.push(SqlValue::Text(req.title.clone()));
    args.push(SqlValue::Text(req.w_type.clone()));
    args.push(SqlValue::Text(req.state.clone()));
    args.push(SqlValue::Id(ids.project));
    args.push(SqlValue::OptId(ids.assignee));
    args.push(SqlValue::Id(ids.creator));
    args.push(SqlValue::OptInt(req.priority));
    args.push(SqlValue::OptText(copy_opt_text(&req.severity)));
    args.push(SqlValue::OptText(copy_opt_text(&req.description)));
    args.push(SqlValue::OptText(copy_opt_text(&req.area_path)));
    args.push(SqlValue::OptText(copy_opt_text(&req.iteration_path)));
    args.push(SqlValue::OptId(ids.parent));
    let tags = match &req.tags {
        Some(t) => Some(copy_texts(t)),
        None => None,
    };
    args.push(SqlValue::OptTextList(tags));
    args.push(SqlValue::Text(req.url.clone()));
    let s = Statement {
        sql: String::from_str(
            "INSERT INTO work_items (azure_id, title, w_type, state, project, assigned_to_id, created_by_id, priority, severity, description, area_path, iteration_path, parent_id, tags, url) VALUES ($1, $2, $3, $4, $5, $6, $7, $8, $9, $10, $11, $12, $13, $14, $15) RETURNING *",
        ),
        args,
    };
    assert(s.bound() =~= seq![
        SqlArg::OptText(opt_text_view(req.azure_id)),
        SqlArg::Text(req.title@),
        SqlArg::Text(req.w_type@),
        SqlArg::Text(req.state@),
        SqlArg::Id(ids.project),
        SqlArg::OptId(ids.assignee),
        SqlArg::Id(ids.creator),
        SqlArg::OptInt(
            match req.priority {
                Some(p) => Some(p as int),
                None => None,
            },
        ),
        SqlArg::OptText(opt_text_view(req.severity)),
        SqlArg::OptText(opt_text_view(req.description)),
        SqlArg::OptText(opt_text_view(req.area_path)),
        SqlArg::OptText(opt_text_view(req.iteration_path)),
        SqlArg::OptId(ids.parent),
        SqlArg::OptTextList(
            match req.tags {
                Some(t) => Some(text_list_view(t@)),
                None => None,
            },
        ),
        SqlArg::Text(req.url@),
    ]);
    s
}

pub open spec fn missing_message(t: RefTarget) -> Seq<char> {
    match t {
        RefTarget::Project => "project not found"@,
        RefTarget::Assignee => "assignee not found"@,
        RefTarget::Creator => "creator not found"@,
        RefTarget::Parent => "parent work item not found"@,
    }
}

fn missing_text(t: RefTarget) -> (r: &'static str)
    ensures
        r@ == missing_message(t),
{
    match t {
        RefTarget::Project => "project not found",
        RefTarget::Assignee => "assignee not found",
        RefTarget::Creator => "creator not found",
        RefTarget::Parent => "parent work item not found",
    }
}

/// Where a work item creation stands.
#[derive(Debug, Clone, Copy, PartialEq, Eq, Structural)]
pub enum WorkItemStage {
    Begin,
    Resolve,
    Insert,
    Commit,
    Finished,
}

/// A work item creation in progress: its references are resolved one by one
/// inside the transaction, then the row is inserted and committed.
#[derive(Debug)]
pub struct WorkItemCreation {
    pub request: CreateWorkItemRequest,
    pub stage: WorkItemStage,
    pub refs: Vec<Reference>,
    /// How many references have been resolved so far.
    pub next: usize,
    pub project: Option<u128>,
    pub assignee: Option<u128>,
    pub creator: Option<u128>,
    pub parent: Option<u128>,
    /// The work item row, once inserted.
    pub inserted: Option<WorkItem>,
}

/// The result of the last action, as the database layer reports it.
#[derive(Debug, Clone, PartialEq)]
pub enum WorkItemEvent {
    Begun,
    /// The id that the lookup found, if any.
    Resolved(Option<u128>),
    Inserted(WorkItem),
    Committed,
    Failed(DbFailure),
}

/// What the database layer does next.
#[derive(Debug, Clone, PartialEq)]
pub enum WorkItemAction {
    Begin,
    /// Run a reference lookup; it yields at most one id.
    Lookup(Statement),
    /// Run the work item insert; its one row is the work item.
    Insert(Statement),
    Commit,
    /// Roll the transaction back, if one is open, and answer with the error.
    Abort(ApiError),
    /// The transaction is committed: answer with the created work item.
    Reply(WorkItem),
}

pub open spec fn slot(s: WorkItemCreation, t: RefTarget) -> Option<u128> {
    match t {
        RefTarget::Project => s.project,
        RefTarget::Assignee => s.assignee,
        RefTarget::Creator => s.creator,
        RefTarget::Parent => s.parent,
    }
}

/// The references and their slots are unchanged.
pub open spec fn slots_kept(pre: WorkItemCreation, post: WorkItemCreation) -> bool {
    &&& post.refs == pre.refs
    &&& post.project == pre.project
    &&& post.assignee == pre.assignee
    &&& post.creator == pre.creator
    &&& post.parent == pre.parent
}

/// Every slot but that of `t` is unchanged.
pub open spec fn others_kept(pre: WorkItemCreation, post: WorkItemCreation, t: RefTarget) -> bool {
    &&& t != RefTarget::Project ==> post.project == pre.project
    &&& t != RefTarget::Assignee ==> post.assignee == pre.assignee
    &&& t != RefTarget::Creator ==> post.creator == pre.creator
    &&& t != RefTarget::Parent ==> post.parent == pre.parent
}

pub open spec fn answers(stage: WorkItemStage, ev: WorkItemEvent) -> bool {
    match stage {
        WorkItemStage::Begin => ev is Begun,
        WorkItemStage::Resolve => ev is Resolved,
        WorkItemStage::Insert => ev is Inserted,
        WorkItemStage::Commit => ev is Committed,
        WorkItemStage::Finished => false,
    }
}

pub open spec fn aborts(act: WorkItemAction, kind: ErrorKind, message: Seq<char>) -> bool {
    match act {
        WorkItemAction::Abort(e) => e.kind == kind && e.message@ == message,
        _ => false,
    }
}

pub open spec fn resolved_refs(s: WorkItemCreation) -> ResolvedRefs {
    ResolvedRefs {
        project: s.project->0,
        assignee: s.assignee,
        creator: s.creator->0,
        parent: s.parent,
    }
}

/// After the last reference: insert when the project and the creator are
/// known.
pub open spec fn finishes_resolution(post: WorkItemCreation, act: WorkItemAction) -> bool {
    if post.project is Some && post.creator is Some {
        &&& post.stage == WorkItemStage::Insert
        &&& act matches WorkItemAction::Insert(s) && is_insert_workitem(
            s,
            post.request,
            resolved_refs(post),
        )
    } else {
        &&& post.stage == WorkItemStage::Finished
        &&& aborts(act, ErrorKind::Internal, "a required reference was not resolved"@)
    }
}

/// The lookup result of reference `pre.next`: a found id fills its slot; a
/// miss fails the creation when the reference is required, and leaves the
/// slot empty when it is soft. (A failed lookup is a database error whatever
/// the policy: see `workitem_step`.)
pub open spec fn resolve_step(
    pre: WorkItemCreation,
    ev: WorkItemEvent,
    post: WorkItemCreation,
    act: WorkItemAction,
) -> bool {
    let k = pre.next as int;
    if !(k < pre.refs@.len()) {
        &&& post.stage == WorkItemStage::Finished
        &&& aborts(act, ErrorKind::Internal, "no reference left to resolve"@)
    } else {
        let r = pre.refs@[k];
        let found = match ev {
            WorkItemEvent::Resolved(o) => o,
            _ => None,
        };
        if found is None && r.policy == Policy::Required {
            &&& post.stage == WorkItemStage::Finished
            &&& aborts(act, ErrorKind::DependencyNotFound, missing_message(r.target))
        } else {
            &&& post.refs == pre.refs
            &&& post.next == k + 1
            &&& post.inserted == pre.inserted
            &&& slot(post, r.target) == found
            &&& others_kept(pre, post, r.target)
            &&& if k + 1 < pre.refs@.len() {
                &&& post.stage == WorkItemStage::Resolve
                &&& act matches WorkItemAction::Lookup(s) && is_lookup(s, pre.refs@[k + 1]@)
            } else {
                finishes_resolution(post, act)
            }
        }
    }
}

/// One step of a work item creation: from `pre`, the result `ev` of the last
/// action leads to `post` and the next action `act`.
pub open spec fn workitem_step(
    pre: WorkItemCreation,
    ev: WorkItemEvent,
    post: WorkItemCreation,
    act: WorkItemAction,
) -> bool {
    &&& post.request == pre.request
    &&& if pre.stage == WorkItemStage::Finished {
        &&& post.stage == WorkItemStage::Finished
        &&& aborts(act, ErrorKind::Internal, "work item creation already finished"@)
    } else if pre.stage == WorkItemStage::Resolve && ev is Resolved {
        resolve_step(pre, ev, post, act)
    } else if ev is Failed {
        &&& post.stage == WorkItemStage::Finished
        &&& match ev {
            WorkItemEvent::Failed(f) => aborts(
                act,
                failure_kind(
                    pre.stage == WorkItemStage::Begin || pre.stage == WorkItemStage::Commit,
                    f,
                ),
                f.message@,
            ),
            _ => false,
        }
    } else if !answers(pre.stage, ev) {
        &&& post.stage == WorkItemStage::Finished
        &&& aborts(act, ErrorKind::Internal, "unexpected result for the work item creation step"@)
    } else {
        match ev {
            WorkItemEvent::Begun => if pre.refs@.len() > 0 {
                &&& post.stage == WorkItemStage::Resolve
                &&& post.next == 0
                &&& slots_kept(pre, post)
                &&& post.inserted == pre.inserted
                &&& act matches WorkItemAction::Lookup(s) && is_lookup(s, pre.refs@[0]@)
            } else {
                &&& post.stage == WorkItemStage::Finished
                &&& aborts(act, ErrorKind::Internal, "no reference left to resolve"@)
            },
            WorkItemEvent::Inserted(w) => {
                &&& post.stage == WorkItemStage::Commit
                &&& post.next == pre.next
                &&& slots_kept(pre, post)
                &&& post.inserted == Some(w)
                &&& act is Commit
            },
            _ => {
                &&& post.stage == WorkItemStage::Finished
                &&& if pre.inserted is Some {
                    act == WorkItemAction::Reply(pre.inserted->0)
                } else {
                    aborts(act, ErrorKind::Internal, "no work item row to reply with"@)
                }
            },
        }
    }
}

impl WorkItemCreation {
    /// What holds of every state that `start` and `step` reach.
    pub open spec fn inv(&self) -> bool {
        &&& refs_view(self.refs@) == references(self.request)
        &&& self.next <= self.refs@.len()
        &&& self.stage == WorkItemStage::Resolve ==> self.next < self.refs@.len()
        &&& forall|k: int|
            0 <= k < self.next && (#[trigger] self.refs@[k]).policy == Policy::Required ==> slot(
                *self,
                self.refs@[k].target,
            ) is Some
    }

    /// Starts a work item creation: the first action begins the transaction.
    pub fn start(request: CreateWorkItemRequest) -> (r: (WorkItemCreation, WorkItemAction))
        ensures
            r.0.request == request,
            r.0.stage == WorkItemStage::Begin,
            refs_view(r.0.refs@) == references(request),
            r.0.next == 0,
            r.0.project is None,
            r.0.assignee is None,
            r.0.creator is None,
            r.0.parent is None,
            r.0.inserted is None,
            r.0.inv(),
            r.1 is Begin,
    {
        let refs = references_of(&request);
        (
            WorkItemCreation {
                request,
                stage: WorkItemStage::Begin,
                refs,
                next: 0,
                project: None,
                assignee: None,
                creator: None,
                parent: None,
                inserted: None,
            },
            WorkItemAction::Begin,
        )
    }

    fn fill(&mut self, t: RefTarget, v: Option<u128>)
        ensures
            final(self).request == old(self).request,
            final(self).stage == old(self).stage,
            final(self).refs == old(self).refs,
            final(self).next == old(self).next,
            final(self).inserted == old(self).inserted,
            slot(*final(self), t) == v,
            others_kept(*old(self), *final(self), t),
    {
        match t {
            RefTarget::Project => self.project = v,
            RefTarget::Assignee => self.assignee = v,
            RefTarget::Creator => self.creator = v,
            RefTarget::Parent => self.parent = v,
        }
    }

    fn resolve(self, ev: WorkItemEvent) -> (r: (WorkItemCreation, WorkItemAction))
        requires
            self.stage == WorkItemStage::Resolve,
            ev is Resolved,
        ensures
            resolve_step(self, ev, r.0, r.1),
            r.0.request == self.request,
            r.0.refs == self.refs,
    {
        let mut s = self;
        let k = s.next;
        if k >= s.refs.len() {
            s.stage = WorkItemStage::Finished;
            let e = error_with(ErrorKind::Internal, "no reference left to resolve");
            return (s, WorkItemAction::Abort(e));
        }
        let target = s.refs[k].target;
        let policy = s.refs[k].policy;
        let found = match ev {
            WorkItemEvent::Resolved(o) => o,
            _ => None,
        };
        if found.is_none() && policy == Policy::Required {
            s.stage = WorkItemStage::Finished;
            let e = error_with(ErrorKind::DependencyNotFound, missing_text(target));
            return (s, WorkItemAction::Abort(e));
        }
        s.fill(target, found);
        s.next = k + 1;
        if k + 1 < s.refs.len() {
            let l = lookup_statement(&s.refs[k + 1]);
            s.stage = WorkItemStage::Resolve;
            (s, WorkItemAction::Lookup(l))
        } else {
            match (s.project, s.creator) {
                (Some(project), Some(creator)) => {
                    let ids = ResolvedRefs { project, assignee: s.assignee, creator, parent: s.parent };
                    let ins = insert_workitem_statement(&s.request, &ids);
                    s.stage = WorkItemStage::Insert;
                    (s, WorkItemAction::Insert(ins))
                },
                _ => {
                    s.stage = WorkItemStage::Finished;
                    let e = error_with(ErrorKind::Internal, "a required reference was not resolved");
                    (s, WorkItemAction::Abort(e))
                },
            }
        }
    }

    /// Takes the result of the last action and gives the next one.
    pub fn step(self, ev: WorkItemEvent) -> (r: (WorkItemCreation, WorkItemAction))
        ensures
            workitem_step(self, ev, r.0, r.1),
            self.inv() && r.0.stage != WorkItemStage::Finished ==> r.0.inv(),
    {
        let r = self.step_inner(ev);
        proof {
            if self.inv() && r.0.stage != WorkItemStage::Finished {
                lemma_workitem_step_keeps_inv(self, ev, r.0, r.1);
            }
        }
        r
    }

    fn step_inner(self, ev: WorkItemEvent) -> (r: (WorkItemCreation, WorkItemAction))
        ensures
            workitem_step(self, ev, r.0, r.1),
            r.0.refs == self.refs,
    {
        if self.stage == WorkItemStage::Finished {
            let mut s = self;
            let e = error_with(ErrorKind::Internal, "work item creation already finished");
            return (s, WorkItemAction::Abort(e));
        }
        if self.stage == WorkItemStage::Resolve && ev.is_resolved() {
            return self.resolve(ev);
        }
        let mut s = self;
        match ev {
            WorkItemEvent::Failed(f) => {
                let control = s.stage == WorkItemStage::Begin || s.stage == WorkItemStage::Commit;
                s.stage = WorkItemStage::Finished;
                (s, WorkItemAction::Abort(failure_error(control, f)))
            },
            WorkItemEvent::Begun if s.stage == WorkItemStage::Begin => {
                if s.refs.len() > 0 {
                    let l = lookup_statement(&s.refs[0]);
                    s.stage = WorkItemStage::Resolve;
                    s.next = 0;
                    (s, WorkItemAction::Lookup(l))
                } else {
                    s.stage = WorkItemStage::Finished;
                    let e = error_with(ErrorKind::Internal, "no reference left to resolve");
                    (s, WorkItemAction::Abort(e))
                }
            },
            WorkItemEvent::Inserted(w) if s.stage == WorkItemStage::Insert => {
                s.stage = WorkItemStage::Commit;
                s.inserted = Some(w);
                (s, WorkItemAction::Commit)
            },
            WorkItemEvent::Committed if s.stage == WorkItemStage::Commit => {
                s.stage = WorkItemStage::Finished;
                match s.inserted.take() {
                    Some(w) => (s, WorkItemAction::Reply(w)),
                    None => {
                        let e = error_with(ErrorKind::Internal, "no work item row to reply with");
                        (s, WorkItemAction::Abort(e))
                    },
                }
            },
            _ => {
                s.stage = WorkItemStage::Finished;
                let e = error_with(ErrorKind::Internal, "unexpected result for the work item creation step");
                (s, WorkItemAction::Abort(e))
            },
        }
    }
}

impl WorkItemEvent {
    pub fn is_resolved(&self) -> (r: bool)
        ensures
            r == self is Resolved,
    {
        match self {
            WorkItemEvent::Resolved(_) => true,
            _ => false,
        }
    }
}

/// The shape of the reference list: targets are distinct, the project comes
/// first, the parent (the one soft reference) last, and a given assignee
/// right after the project.
proof fn lemma_references_shape(req: CreateWorkItemRequest)
    ensures
        ({
            let rv = references(req);
            &&& rv.len() >= 2
            &&& rv[0].0 == RefTarget::Project
            &&& req.assigned_to_id is Some ==> rv[1].0 == RefTarget::Assignee
            &&& exists|c: int| 0 <= c < rv.len() && rv[c].0 == RefTarget::Creator
            &&& forall|i: int| 0 <= i < rv.len() ==> (#[trigger] rv[i].2 == Policy::Soft <==> rv[i].0 == RefTarget::Parent)
            &&& forall|i: int| 0 <= i < rv.len() && #[trigger] rv[i].0 == RefTarget::Parent ==> i == rv.len() - 1
            &&& forall|i: int, j: int|
                0 <= i < rv.len() && 0 <= j < rv.len() && #[trigger] rv[i].0 == #[trigger] rv[j].0 ==> i == j
        }),
{
    let rv = references(req);
    let p = (RefTarget::Project, req.project@, Policy::Required);
    let c = (RefTarget::Creator, req.created_by_id@, Policy::Required);
    match (req.assigned_to_id, req.parent_id) {
        (Some(a), Some(q)) => {
            assert(rv =~= seq![p, (RefTarget::Assignee, a@, Policy::Required), c, (RefTarget::Parent, q@, Policy::Soft)]);
            assert(rv[2].0 == RefTarget::Creator);
        },
        (Some(a), None) => {
            assert(rv =~= seq![p, (RefTarget::Assignee, a@, Policy::Required), c]);
            assert(rv[2].0 == RefTarget::Creator);
        },
        (None, Some(q)) => {
            assert(rv =~= seq![p, c, (RefTarget::Parent, q@, Policy::Soft)]);
            assert(rv[1].0 == RefTarget::Creator);
        },
        (None, None) => {
            assert(rv =~= seq![p, c]);
            assert(rv[1].0 == RefTarget::Creator);
        },
    }
}

/// Every step keeps what `inv` says of a work item creation.
pub proof fn lemma_workitem_step_keeps_inv(
    pre: WorkItemCreation,
    ev: WorkItemEvent,
    post: WorkItemCreation,
    act: WorkItemAction,
)
    requires
        pre.inv(),
        workitem_step(pre, ev, post, act),
        post.stage != WorkItemStage::Finished,
        post.refs == pre.refs,
    ensures
        post.inv(),
{
    lemma_references_shape(pre.request);
    let rv = refs_view(pre.refs@);
    assert forall|k: int| 0 <= k < post.next && (#[trigger] post.refs@[k]).policy == Policy::Required
        implies slot(post, post.refs@[k].target) is Some by {
        assert(rv[k].0 == pre.refs@[k].target);
        if pre.stage == WorkItemStage::Resolve && k < pre.next {
            let t = pre.refs@[pre.next as int].target;
            assert(rv[pre.next as int].0 == t);
            assert(pre.refs@[k].target != t);
        }
    }
}

/// A work item whose parent reference does not resolve is still inserted,
/// with no parent.
pub proof fn lemma_unresolved_parent_is_dropped(
    pre: WorkItemCreation,
    ev: WorkItemEvent,
    post: WorkItemCreation,
    act: WorkItemAction,
)
    requires
        pre.inv(),
        workitem_step(pre, ev, post, act),
        pre.stage == WorkItemStage::Resolve,
        pre.refs@[pre.next as int].target == RefTarget::Parent,
        ev == WorkItemEvent::Resolved(None),
    ensures
        pre.project is Some,
        pre.creator is Some,
        post.stage == WorkItemStage::Insert,
        act matches WorkItemAction::Insert(s) && is_insert_workitem(
            s,
            pre.request,
            ResolvedRefs {
                project: pre.project->0,
                assignee: pre.assignee,
                creator: pre.creator->0,
                parent: None,
            },
        ),
{
    lemma_references_shape(pre.request);
    let rv = refs_view(pre.refs@);
    let k = pre.next as int;
    assert(rv[k].0 == RefTarget::Parent);
    assert(rv[k].2 == Policy::Soft);
    assert(k == rv.len() - 1);
    assert(rv[0].0 == RefTarget::Project);
    assert(pre.refs@[0].target == RefTarget::Project);
    assert(pre.refs@[0].policy == Policy::Required);
    let c = choose|c: int| 0 <= c < rv.len() && rv[c].0 == RefTarget::Creator;
    assert(pre.refs@[c].target == RefTarget::Creator);
    assert(pre.refs@[c].policy == Policy::Required);
}

/// A work item whose assignee or creator does not resolve fails as a whole:
/// the creation ends there, before the insert, with a dependency error.
pub proof fn lemma_unresolved_user_aborts(
    pre: WorkItemCreation,
    ev: WorkItemEvent,
    post: WorkItemCreation,
    act: WorkItemAction,
)
    requires
        pre.inv(),
        workitem_step(pre, ev, post, act),
        pre.stage == WorkItemStage::Resolve,
        pre.refs@[pre.next as int].target == RefTarget::Assignee || pre.refs@[pre.next as int].target
            == RefTarget::Creator,
        ev == WorkItemEvent::Resolved(None),
    ensures
        post.stage == WorkItemStage::Finished,
        aborts(act, ErrorKind::DependencyNotFound, missing_message(pre.refs@[pre.next as int].target)),
{
    lemma_references_shape(pre.request);
    let rv = refs_view(pre.refs@);
    assert(rv[pre.next as int].0 == pre.refs@[pre.next as int].target);
}

/// The work item row is inserted only once the project, the creator and any
/// given assignee have resolved.
pub proof fn lemma_workitem_insert_needs_required(
    pre: WorkItemCreation,
    ev: WorkItemEvent,
    post: WorkItemCreation,
    act: WorkItemAction,
)
    requires
        pre.inv(),
        workitem_step(pre, ev, post, act),
        act is Insert,
    ensures
        post.project is Some,
        post.creator is Some,
        post.request.assigned_to_id is Some ==> post.assignee is Some,
{
    lemma_references_shape(pre.request);
    let rv = refs_view(pre.refs@);
    if pre.request.assigned_to_id is Some {
        assert(rv[1].0 == RefTarget::Assignee);
        assert(pre.refs@[1].target == RefTarget::Assignee);
        assert(pre.refs@[1].policy == Policy::Required);
        let k = pre.next as int;
        if k != 1 {
            assert(rv[k].0 == pre.refs@[k].target);
            assert(pre.refs@[k].target != RefTarget::Assignee);
        }
    }
}

/// The order of the stages; a step never goes back.
pub open spec fn stage_rank(s: WorkItemStage) -> int {
    match s {
        WorkItemStage::Begin => 0,
        WorkItemStage::Resolve => 1,
        WorkItemStage::Insert => 2,
        WorkItemStage::Commit => 3,
        WorkItemStage::Finished => 4,
    }
}

/// `states`, `events` and `acts` form a run of a work item creation.
pub open spec fn workitem_run(
    states: Seq<WorkItemCreation>,
    events: Seq<WorkItemEvent>,
    acts: Seq<WorkItemAction>,
) -> bool {
    &&& states.len() == events.len() + 1
    &&& acts.len() == events.len()
    &&& forall|i: int|
        0 <= i < events.len() ==> workitem_step(#[trigger] states[i], events[i], states[i + 1], acts[i])
}

proof fn lemma_workitem_run_monotone(
    states: Seq<WorkItemCreation>,
    events: Seq<WorkItemEvent>,
    acts: Seq<WorkItemAction>,
    a: int,
    b: int,
)
    requires
        workitem_run(states, events, acts),
        0 <= a <= b < states.len(),
    ensures
        stage_rank(states[a].stage) <= stage_rank(states[b].stage),
    decreases b - a,
{
    if a < b {
        lemma_workitem_run_monotone(states, events, acts, a, b - 1);
        assert(workitem_step(states[b - 1], events[b - 1], states[b], acts[b - 1]));
    }
}

/// All or nothing: in a run where the lookup of the assignee or of the
/// creator finds nothing, the work item insert is never issued.
pub proof fn lemma_workitem_run_unresolved_user_writes_nothing(
    states: Seq<WorkItemCreation>,
    events: Seq<WorkItemEvent>,
    acts: Seq<WorkItemAction>,
    j: int,
)
    requires
        workitem_run(states, events, acts),
        0 <= j < events.len(),
        states[j].inv(),
        states[j].stage == WorkItemStage::Resolve,
        states[j].refs@[states[j].next as int].target == RefTarget::Assignee
            || states[j].refs@[states[j].next as int].target == RefTarget::Creator,
        events[j] == WorkItemEvent::Resolved(None),
    ensures
        forall|i: int| 0 <= i < acts.len() ==> !(#[trigger] acts[i] is Insert),
{
    lemma_unresolved_user_aborts(states[j], events[j], states[j + 1], acts[j]);
    assert forall|i: int| 0 <= i < acts.len() implies !(#[trigger] acts[i] is Insert) by {
        assert(workitem_step(states[i], events[i], states[i + 1], acts[i]));
        if i < j {
            lemma_workitem_run_monotone(states, events, acts, i + 1, j);
        } else if i > j {
            lemma_workitem_run_monotone(states, events, acts, j + 1, i);
        }
    }
}

} // verus!

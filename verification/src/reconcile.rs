//! The reconciliation of a repository's labels with the declared ones.
//!
//! A run first lists the labels of the repository, then deletes each of them
//! in the order of the listing, then creates each declared label in the order
//! of the declaration. The first request that fails ends the run: nothing
//! after it is sent and nothing before it is undone. Removing all labels is
//! the run with nothing declared.
//!
//! A `Run` sends nothing itself. `Run::action` says what to do next: send a
//! request, or finish. After a request was sent, `Run::step` takes what came
//! of it and gives the run that follows.

use vstd::prelude::*;
use crate::error::LabelsError;
use crate::github::{GitHub, GitHubView, Reply, ReplyView, Request, RequestView};
use crate::label::{label_views, Label, LabelView};

verus! {

/// Where a run stands.
#[derive(Clone, Copy, Debug, PartialEq, Eq, Structural)]
pub enum Phase {
    /// The listing is to be sent, or under way.
    Listing,
    /// The deletion of the listed label at this index is next.
    Deleting(usize),
    /// The creation of the declared label at this index is next.
    Creating(usize),
    /// Every request was sent and succeeded.
    Done,
    /// A request failed, and the run ended with this error.
    Failed(LabelsError),
}

pub enum PhaseView {
    Listing,
    Deleting(nat),
    Creating(nat),
    Done,
    Failed(LabelsError),
}

impl View for Phase {
    type V = PhaseView;

    open spec fn view(&self) -> PhaseView {
        match *self {
            Phase::Listing => PhaseView::Listing,
            Phase::Deleting(index) => PhaseView::Deleting(index as nat),
            Phase::Creating(index) => PhaseView::Creating(index as nat),
            Phase::Done => PhaseView::Done,
            Phase::Failed(error) => PhaseView::Failed(error),
        }
    }
}

/// The phase of a run that has made `created` of its `declared` creations and
/// no deletion is left to make.
pub open spec fn creating_from(created: nat, declared: nat) -> PhaseView {
    if created < declared {
        PhaseView::Creating(created)
    } else {
        PhaseView::Done
    }
}

/// The phase of a run that has made `deleted` of its `listed` deletions and
/// none yet of its `declared` creations.
pub open spec fn deleting_from(deleted: nat, listed: nat, declared: nat) -> PhaseView {
    if deleted < listed {
        PhaseView::Deleting(deleted)
    } else {
        creating_from(0, declared)
    }
}

/// What a run asks of the repository, apart from how the request is written.
pub enum CallView {
    List,
    Delete(Seq<char>),
    Create(LabelView),
}

pub enum ActionView {
    Send(RequestView),
    Finish(Result<(), LabelsError>),
}

/// What the caller of a run is to do next.
pub enum Action {
    /// Send this request, and hand what comes of it to `Run::step`.
    Send(Request),
    /// The run is over, with this result.
    Finish(Result<(), LabelsError>),
}

impl View for Action {
    type V = ActionView;

    open spec fn view(&self) -> ActionView {
        match *self {
            Action::Send(request) => ActionView::Send(request@),
            Action::Finish(result) => ActionView::Finish(result),
        }
    }
}

pub struct RunView {
    pub client: GitHubView,
    pub owner: Seq<char>,
    pub repo: Seq<char>,
    /// The declared labels.
    pub desired: Seq<LabelView>,
    /// The labels that the listing showed; empty until it has.
    pub current: Seq<LabelView>,
    pub phase: PhaseView,
}

impl RunView {
    /// The run that is to bring the labels of a repository to `desired`,
    /// before anything was sent.
    pub open spec fn start(
        client: GitHubView,
        owner: Seq<char>,
        repo: Seq<char>,
        desired: Seq<LabelView>,
    ) -> RunView {
        RunView { client, owner, repo, desired, current: Seq::empty(), phase: PhaseView::Listing }
    }

    /// The indices of the phase lie within the lists they refer to.
    pub open spec fn well_formed(self) -> bool {
        match self.phase {
            PhaseView::Deleting(index) => index < self.current.len(),
            PhaseView::Creating(index) => index < self.desired.len(),
            _ => true,
        }
    }

    /// What the run asks next, if it is not over.
    pub open spec fn call(self) -> Option<CallView> {
        match self.phase {
            PhaseView::Listing => Some(CallView::List),
            PhaseView::Deleting(index) => Some(CallView::Delete(self.current[index as int].name)),
            PhaseView::Creating(index) => Some(CallView::Create(self.desired[index as int])),
            PhaseView::Done => None,
            PhaseView::Failed(_) => None,
        }
    }

    /// The request that puts a call to the repository of this run.
    pub open spec fn request(self, call: CallView) -> RequestView {
        match call {
            CallView::List => self.client.labels_request(self.owner, self.repo),
            CallView::Delete(name) => self.client.delete_label_request(name, self.owner, self.repo),
            CallView::Create(label) => self.client.create_label_request(
                label,
                self.owner,
                self.repo,
            ),
        }
    }

    /// What is to be done next: the request of the next call, or the end.
    pub open spec fn action(self) -> ActionView {
        match self.phase {
            PhaseView::Done => ActionView::Finish(Ok(())),
            PhaseView::Failed(error) => ActionView::Finish(Err(error)),
            _ => ActionView::Send(self.request(self.call()->Some_0)),
        }
    }

    /// The run after the answer to its last request.
    ///
    /// A failed listing ends the run with the listing's own error. A deletion
    /// that did not succeed ends it with `DeleteFailed`, a creation that did
    /// not succeed with `CreateFailed`, whatever went wrong. A run that is
    /// over stays as it is.
    pub open spec fn step(self, reply: ReplyView) -> RunView {
        match self.phase {
            PhaseView::Listing => match reply.listed() {
                Ok(listed) => RunView {
                    current: listed,
                    phase: deleting_from(0, listed.len(), self.desired.len()),
                    ..self
                },
                Err(error) => RunView { phase: PhaseView::Failed(error), ..self },
            },
            PhaseView::Deleting(index) => match reply.deleted() {
                Ok(_) => RunView {
                    phase: deleting_from(index + 1, self.current.len(), self.desired.len()),
                    ..self
                },
                Err(_) => RunView { phase: PhaseView::Failed(LabelsError::DeleteFailed), ..self },
            },
            PhaseView::Creating(index) => match reply.created() {
                Ok(_) => RunView { phase: creating_from(index + 1, self.desired.len()), ..self },
                Err(_) => RunView { phase: PhaseView::Failed(LabelsError::CreateFailed), ..self },
            },
            PhaseView::Done => self,
            PhaseView::Failed(_) => self,
        }
    }
}

/// One reconciliation, between two requests.
pub struct Run {
    client: GitHub,
    owner: String,
    repo: String,
    desired: Vec<Label>,
    current: Vec<Label>,
    phase: Phase,
}

impl View for Run {
    type V = RunView;

    closed spec fn view(&self) -> RunView {
        RunView {
            client: self.client@,
            owner: self.owner@,
            repo: self.repo@,
            desired: label_views(self.desired@),
            current: label_views(self.current@),
            phase: self.phase@,
        }
    }
}

/// A copy of a list of labels.
fn copy_labels(labels: &[Label]) -> (copy: Vec<Label>)
    ensures
        label_views(copy@) == label_views(labels@),
{
    let mut copy: Vec<Label> = Vec::new();
    let mut i: usize = 0;
    while i < labels.len()
        invariant
            i <= labels.len(),
            copy.len() == i,
            forall|k: int| 0 <= k < i ==> (#[trigger] copy[k])@ == labels[k]@,
        decreases labels.len() - i,
    {
        copy.push(labels[i].clone());
        i += 1;
    }
    assert(label_views(copy@) =~= label_views(labels@));
    copy
}

impl GitHub {
    /// Begins the update of all labels of a repository: the run that removes
    /// every label of the repository and then creates each label of
    /// `labels_from_config`, in that order.
    pub fn update_labels(&self, labels_from_config: &[Label], owner: &str, repo: &str) -> (run: Run)
        ensures
            run@ == RunView::start(self@, owner@, repo@, label_views(labels_from_config@)),
            run@.well_formed(),
    {
        let run = Run {
            client: self.clone(),
            owner: String::from_str(owner),
            repo: String::from_str(repo),
            desired: copy_labels(labels_from_config),
            current: Vec::new(),
            phase: Phase::Listing,
        };
        assert(run@.current =~= Seq::empty());
        run
    }

    /// Begins the removal of all labels of a repository: the update to no
    /// labels at all.
    pub fn remove_labels(&self, owner: &str, repo: &str) -> (run: Run)
        ensures
            run@ == RunView::start(self@, owner@, repo@, Seq::empty()),
            run@.well_formed(),
    {
        let run = Run {
            client: self.clone(),
            owner: String::from_str(owner),
            repo: String::from_str(repo),
            desired: Vec::new(),
            current: Vec::new(),
            phase: Phase::Listing,
        };
        assert(run@.current =~= Seq::empty());
        assert(run@.desired =~= Seq::empty());
        run
    }
}

impl Run {
    #[verifier::type_invariant]
    spec fn indices_in_range(self) -> bool {
        match self.phase {
            Phase::Deleting(index) => index < self.current.len(),
            Phase::Creating(index) => index < self.desired.len(),
            _ => true,
        }
    }

    /// The phase that follows `deleted` deletions.
    fn deleting_from(deleted: usize, listed: usize, declared: usize) -> (phase: Phase)
        ensures
            phase@ == deleting_from(deleted as nat, listed as nat, declared as nat),
    {
        if deleted < listed {
            Phase::Deleting(deleted)
        } else {
            Run::creating_from(0, declared)
        }
    }

    /// The phase that follows `created` creations.
    fn creating_from(created: usize, declared: usize) -> (phase: Phase)
        ensures
            phase@ == creating_from(created as nat, declared as nat),
    {
        if created < declared {
            Phase::Creating(created)
        } else {
            Phase::Done
        }
    }

    /// Where the run stands.
    pub fn phase(&self) -> (phase: Phase)
        ensures
            phase@ == self@.phase,
            self@.well_formed(),
    {
        proof {
            use_type_invariant(self);
        }
        self.phase
    }

    /// What is to be done next: a request to send, or the end of the run with
    /// its result.
    pub fn action(&self) -> (action: Action)
        ensures
            action@ == self@.action(),
    {
        proof {
            use_type_invariant(self);
        }
        match self.phase {
            Phase::Listing => Action::Send(
                self.client.labels_request(self.owner.as_str(), self.repo.as_str()),
            ),
            Phase::Deleting(index) => Action::Send(
                self.client.delete_label_request(
                    self.current[index].name(),
                    self.owner.as_str(),
                    self.repo.as_str(),
                ),
            ),
            Phase::Creating(index) => Action::Send(
                self.client.create_label_request(
                    &self.desired[index],
                    self.owner.as_str(),
                    self.repo.as_str(),
                ),
            ),
            Phase::Done => Action::Finish(Ok(())),
            Phase::Failed(error) => Action::Finish(Err(error)),
        }
    }

    /// The run after `reply` has answered the request of `Run::action`.
    pub fn step(self, reply: &Reply) -> (next: Run)
        ensures
            next@ == self@.step(reply@),
            next@.well_formed(),
    {
        proof {
            use_type_invariant(&self);
        }
        let next = match self.phase {
            Phase::Listing => match GitHub::labels(reply) {
                Ok(listed) => {
                    let phase = Run::deleting_from(0, listed.len(), self.desired.len());
                    Run { current: listed, phase, ..self }
                },
                Err(error) => Run { phase: Phase::Failed(error), ..self },
            },
            Phase::Deleting(index) => match GitHub::delete_label(reply) {
                Ok(_) => {
                    let phase = Run::deleting_from(
                        index + 1,
                        self.current.len(),
                        self.desired.len(),
                    );
                    Run { phase, ..self }
                },
                Err(_) => Run { phase: Phase::Failed(LabelsError::DeleteFailed), ..self },
            },
            Phase::Creating(index) => match GitHub::create_label(reply) {
                Ok(_) => {
                    let phase = Run::creating_from(index + 1, self.desired.len());
                    Run { phase, ..self }
                },
                Err(_) => Run { phase: Phase::Failed(LabelsError::CreateFailed), ..self },
            },
            Phase::Done => self,
            Phase::Failed(_) => self,
        };
        proof {
            use_type_invariant(&next);
        }
        next
    }
}

/// A step keeps the indices of the phase within their lists.
pub proof fn lemma_step_keeps_well_formed(run: RunView, reply: ReplyView)
    requires
        run.well_formed(),
    ensures
        run.step(reply).well_formed(),
{
}

} // verus!

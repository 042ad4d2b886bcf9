//! A run over its whole course: what it sends to a repository when the
//! answers are given, and what that does to the repository.
//!
//! The answers are a sequence of replies, each handed to the run in turn. A
//! run takes one reply for each call it makes, and takes none once it is
//! over. Everything here is stated for every such sequence, so a statement
//! about the calls made while the replies are taken is a statement about
//! every call that the run ever makes.

use vstd::prelude::*;
use crate::error::LabelsError;
use crate::github::{GitHubView, ReplyView};
use crate::label::{names, LabelView};
use crate::reconcile::{CallView, PhaseView, RunView};

verus! {

impl CallView {
    /// Whether `reply` says that the call was carried out.
    pub open spec fn answered_by(self, reply: ReplyView) -> bool {
        match self {
            CallView::List => reply.listed() is Ok,
            CallView::Delete(_) => reply.deleted() is Ok,
            CallView::Create(_) => reply.created() is Ok,
        }
    }
}

/// One deletion for each listed label, by its name, in the order of the
/// listing.
pub open spec fn deletions(listed: Seq<LabelView>) -> Seq<CallView> {
    Seq::new(listed.len(), |i: int| CallView::Delete(listed[i].name))
}

/// One creation for each declared label, in the order of the declaration.
pub open spec fn creations(desired: Seq<LabelView>) -> Seq<CallView> {
    Seq::new(desired.len(), |i: int| CallView::Create(desired[i]))
}

/// Every call of a run that nothing stops: the listing, the deletion of each
/// listed label, the creation of each declared one.
pub open spec fn plan(listed: Seq<LabelView>, desired: Seq<LabelView>) -> Seq<CallView> {
    seq![CallView::List] + deletions(listed) + creations(desired)
}

impl RunView {
    /// The run after it was handed `replies`, one after the other.
    pub open spec fn run(self, replies: Seq<ReplyView>) -> RunView
        decreases replies.len(),
    {
        if replies.len() == 0 {
            self
        } else {
            self.step(replies.first()).run(replies.drop_first())
        }
    }

    /// The calls that `replies` answered, in the order in which the run made
    /// them. A reply that comes when the run is over answers nothing.
    pub open spec fn calls(self, replies: Seq<ReplyView>) -> Seq<CallView>
        decreases replies.len(),
    {
        if replies.len() == 0 {
            Seq::empty()
        } else {
            match self.call() {
                Some(call) => seq![call] + self.step(replies.first()).calls(replies.drop_first()),
                None => Seq::empty(),
            }
        }
    }

    /// Whether the run is over.
    pub open spec fn is_over(self) -> bool {
        self.phase is Done || self.phase is Failed
    }

    /// The calls that are left to a run that has its listing, should none of
    /// them fail.
    spec fn remaining(self) -> Seq<CallView> {
        match self.phase {
            PhaseView::Deleting(index) => deletions(self.current).skip(index as int) + creations(
                self.desired,
            ),
            PhaseView::Creating(index) => creations(self.desired).skip(index as int),
            _ => Seq::empty(),
        }
    }

    /// Whether the run has its listing and has not failed.
    spec fn under_way(self) -> bool {
        self.well_formed() && !(self.phase is Listing) && !(self.phase is Failed)
    }
}

/// The error that a run ends with when a call of this kind is not carried
/// out. (A listing fails with its own error.)
spec fn failure_of(call: CallView) -> LabelsError {
    match call {
        CallView::Create(_) => LabelsError::CreateFailed,
        _ => LabelsError::DeleteFailed,
    }
}

/// A run that is over takes no reply and makes no call.
proof fn lemma_over_stays(run: RunView, replies: Seq<ReplyView>)
    requires
        run.is_over(),
    ensures
        run.run(replies) == run,
        run.calls(replies) == Seq::<CallView>::empty(),
    decreases replies.len(),
{
    if replies.len() > 0 {
        lemma_over_stays(run, replies.drop_first());
    }
}

/// One step of a run that is deleting or creating.
proof fn lemma_step(run: RunView, reply: ReplyView)
    requires
        run.under_way(),
        !(run.phase is Done),
    ensures
        run.remaining().len() > 0,
        run.call() == Some(run.remaining()[0]),
        run.remaining()[0].answered_by(reply) ==> {
            let next = run.step(reply);
            &&& next.under_way()
            &&& next.remaining() == run.remaining().skip(1)
            &&& next.current == run.current
            &&& next.desired == run.desired
        },
        !run.remaining()[0].answered_by(reply) ==> run.step(reply).phase == PhaseView::Failed(
            failure_of(run.remaining()[0]),
        ),
{
    let next = run.step(reply);
    match run.phase {
        PhaseView::Deleting(index) => {
            if run.remaining()[0].answered_by(reply) {
                assert(next.remaining() =~= run.remaining().skip(1));
            }
        },
        PhaseView::Creating(index) => {
            if run.remaining()[0].answered_by(reply) {
                assert(next.remaining() =~= run.remaining().skip(1));
            }
        },
        _ => {},
    }
}

/// The course of a run that is under way, given how many of the replies say
/// that their call was carried out before the first that does not.
proof fn lemma_course(run: RunView, replies: Seq<ReplyView>, carried_out: int)
    requires
        run.under_way(),
        0 <= carried_out <= replies.len(),
        carried_out <= run.remaining().len(),
        forall|k: int|
            0 <= k < carried_out ==> (#[trigger] run.remaining()[k]).answered_by(replies[k]),
        carried_out < replies.len() && carried_out < run.remaining().len()
            ==> !run.remaining()[carried_out].answered_by(replies[carried_out]),
    ensures
        run.run(replies).current == run.current,
        run.run(replies).desired == run.desired,
        carried_out == run.remaining().len() ==> {
            &&& run.run(replies).phase == PhaseView::Done
            &&& run.calls(replies) == run.remaining()
        },
        carried_out < run.remaining().len() && carried_out == replies.len() ==> {
            &&& run.run(replies).under_way()
            &&& !(run.run(replies).phase is Done)
            &&& run.calls(replies) == run.remaining().take(carried_out)
        },
        carried_out < run.remaining().len() && carried_out < replies.len() ==> {
            &&& run.run(replies).phase == PhaseView::Failed(
                failure_of(run.remaining()[carried_out]),
            )
            &&& run.calls(replies) == run.remaining().take(carried_out + 1)
        },
    decreases replies.len(),
{
    if run.phase is Done {
        lemma_over_stays(run, replies);
    } else if replies.len() == 0 {
        lemma_step(run, arbitrary());
        assert(run.calls(replies) =~= run.remaining().take(0));
    } else {
        let reply = replies.first();
        let rest = replies.drop_first();
        let next = run.step(reply);
        lemma_step(run, reply);
        if carried_out == 0 {
            lemma_over_stays(next, rest);
            assert(run.calls(replies) =~= run.remaining().take(1));
        } else {
            assert(run.remaining()[0].answered_by(replies[0]));
            let left = carried_out - 1;
            assert forall|k: int| 0 <= k < left implies (#[trigger] next.remaining()[k]).answered_by(
                rest[k],
            ) by {
                assert(run.remaining()[k + 1].answered_by(replies[k + 1]));
            }
            lemma_course(next, rest, left);
            if carried_out == run.remaining().len() {
                assert(run.calls(replies) =~= run.remaining());
            } else if carried_out == replies.len() {
                assert(run.calls(replies) =~= run.remaining().take(carried_out));
            } else {
                assert(run.calls(replies) =~= run.remaining().take(carried_out + 1));
            }
        }
    }
}

/// Whatever the replies, a run that is under way makes the calls that are left
/// to it in their order, up to some point; and it is done only when it has
/// made them all.
proof fn lemma_course_follows_remaining(run: RunView, replies: Seq<ReplyView>)
    requires
        run.under_way(),
    ensures
        run.calls(replies).len() <= run.remaining().len(),
        run.calls(replies) == run.remaining().take(run.calls(replies).len() as int),
        run.run(replies).phase is Done ==> run.calls(replies) == run.remaining(),
        run.run(replies).current == run.current,
        run.run(replies).desired == run.desired,
    decreases replies.len(),
{
    if run.phase is Done {
        lemma_over_stays(run, replies);
        assert(run.calls(replies) =~= run.remaining().take(0));
    } else if replies.len() == 0 {
        lemma_step(run, arbitrary());
        assert(run.calls(replies) =~= run.remaining().take(0));
    } else {
        let reply = replies.first();
        let rest = replies.drop_first();
        let next = run.step(reply);
        lemma_step(run, reply);
        if run.remaining()[0].answered_by(reply) {
            lemma_course_follows_remaining(next, rest);
            let made = next.calls(rest).len() as int;
            assert(run.calls(replies) =~= run.remaining().take(made + 1));
            if run.run(replies).phase is Done {
                assert(run.calls(replies) =~= run.remaining());
            }
        } else {
            lemma_over_stays(next, rest);
            assert(run.calls(replies) =~= run.remaining().take(1));
        }
    }
}

/// The first step of a run: the listing.
proof fn lemma_listing(start: RunView, replies: Seq<ReplyView>)
    requires
        start.phase is Listing,
        replies.len() > 0,
    ensures
        start.run(replies) == start.step(replies[0]).run(replies.drop_first()),
        start.calls(replies) == seq![CallView::List] + start.step(replies[0]).calls(
            replies.drop_first(),
        ),
        match replies[0].listed() {
            Ok(listed) => {
                let next = start.step(replies[0]);
                &&& next.under_way()
                &&& next.current == listed
                &&& next.desired == start.desired
                &&& next.remaining() == deletions(listed) + creations(start.desired)
            },
            Err(error) => start.step(replies[0]).phase == PhaseView::Failed(error),
        },
{
    let next = start.step(replies[0]);
    match replies[0].listed() {
        Ok(listed) => {
            assert(deletions(listed).skip(0) =~= deletions(listed));
            assert(creations(start.desired).skip(0) =~= creations(start.desired));
            assert(next.remaining() =~= deletions(listed) + creations(start.desired));
        },
        Err(error) => {},
    }
}

/// A run whose listing fails ends with the error of the listing, and has
/// made no call but the listing: no label is deleted and none is created,
/// whatever is replied afterwards. So it is when the listing is answered with
/// a status other than 200, which is the error `InvalidResponse`.
pub proof fn lemma_failed_listing_ends_run(
    client: GitHubView,
    owner: Seq<char>,
    repo: Seq<char>,
    desired: Seq<LabelView>,
    replies: Seq<ReplyView>,
    error: LabelsError,
)
    requires
        replies.len() > 0,
        replies[0].listed() == Err::<Seq<LabelView>, LabelsError>(error),
    ensures
        RunView::start(client, owner, repo, desired).run(replies).phase == PhaseView::Failed(error),
        RunView::start(client, owner, repo, desired).calls(replies) == seq![CallView::List],
{
    let start = RunView::start(client, owner, repo, desired);
    lemma_listing(start, replies);
    lemma_over_stays(start.step(replies[0]), replies.drop_first());
    assert(start.calls(replies) =~= seq![CallView::List]);
}

/// Whatever the replies, the calls of a run are the first so many of its
/// plan: after the listing one deletion for each listed label in the order of
/// the listing, then one creation for each declared label in the order of the
/// declaration, none of them twice and none left out before the last that was
/// made.
pub proof fn lemma_calls_follow_plan(
    client: GitHubView,
    owner: Seq<char>,
    repo: Seq<char>,
    desired: Seq<LabelView>,
    replies: Seq<ReplyView>,
    listed: Seq<LabelView>,
)
    requires
        replies.len() > 0,
        replies[0].listed() == Ok::<Seq<LabelView>, LabelsError>(listed),
    ensures
        ({
            let calls = RunView::start(client, owner, repo, desired).calls(replies);
            &&& 1 <= calls.len() <= plan(listed, desired).len()
            &&& calls == plan(listed, desired).take(calls.len() as int)
        }),
{
    let start = RunView::start(client, owner, repo, desired);
    let calls = start.calls(replies);
    lemma_listing(start, replies);
    let next = start.step(replies[0]);
    lemma_course_follows_remaining(next, replies.drop_first());
    assert(calls =~= plan(listed, desired).take(calls.len() as int));
}

/// A run is done only when it has made every call of its plan and each was
/// carried out.
pub proof fn lemma_done_run_made_plan(
    client: GitHubView,
    owner: Seq<char>,
    repo: Seq<char>,
    desired: Seq<LabelView>,
    replies: Seq<ReplyView>,
)
    requires
        RunView::start(client, owner, repo, desired).run(replies).phase is Done,
    ensures
        replies.len() > 0,
        replies[0].listed() is Ok,
        RunView::start(client, owner, repo, desired).calls(replies) == plan(
            replies[0].listed()->Ok_0,
            desired,
        ),
        plan(replies[0].listed()->Ok_0, desired).len() <= replies.len(),
        forall|i: int|
            0 <= i < plan(replies[0].listed()->Ok_0, desired).len() ==> (#[trigger] plan(
                replies[0].listed()->Ok_0,
                desired,
            )[i]).answered_by(replies[i]),
{
    let start = RunView::start(client, owner, repo, desired);
    if replies.len() > 0 {
        lemma_listing(start, replies);
        let next = start.step(replies[0]);
        let rest = replies.drop_first();
        match replies[0].listed() {
            Ok(listed) => {
                lemma_course_follows_remaining(next, rest);
                assert(start.calls(replies) =~= plan(listed, desired));
                lemma_done_run_was_answered(next, rest);
                assert forall|i: int| 0 <= i < plan(listed, desired).len() implies (#[trigger] plan(
                    listed,
                    desired,
                )[i]).answered_by(replies[i]) by {
                    if i > 0 {
                        assert(next.remaining()[i - 1].answered_by(rest[i - 1]));
                    }
                }
            },
            Err(error) => {
                lemma_over_stays(next, rest);
            },
        }
    }
}

/// A run that is under way and comes to be done had each of its remaining
/// calls carried out.
proof fn lemma_done_run_was_answered(run: RunView, replies: Seq<ReplyView>)
    requires
        run.under_way(),
        run.run(replies).phase is Done,
    ensures
        run.remaining().len() <= replies.len(),
        forall|k: int|
            0 <= k < run.remaining().len() ==> (#[trigger] run.remaining()[k]).answered_by(
                replies[k],
            ),
    decreases replies.len(),
{
    if run.phase is Done {
    } else if replies.len() == 0 {
    } else {
        let reply = replies.first();
        let rest = replies.drop_first();
        let next = run.step(reply);
        lemma_step(run, reply);
        if run.remaining()[0].answered_by(reply) {
            lemma_done_run_was_answered(next, rest);
            assert forall|k: int| 0 <= k < run.remaining().len() implies (#[trigger] run.remaining()[k]).answered_by(
                replies[k],
            ) by {
                if k > 0 {
                    assert(next.remaining()[k - 1].answered_by(rest[k - 1]));
                }
            }
        } else {
            lemma_over_stays(next, rest);
        }
    }
}

/// When a deletion is not carried out, the run ends with `DeleteFailed`. It
/// has made the listing and the deletions up to the failed one; no later
/// deletion is made and no label is created, whatever is replied afterwards.
///
/// `failing` is the index of the first deletion that is not carried out, in
/// the order of the listing.
pub proof fn lemma_failed_deletion_ends_run(
    client: GitHubView,
    owner: Seq<char>,
    repo: Seq<char>,
    desired: Seq<LabelView>,
    replies: Seq<ReplyView>,
    listed: Seq<LabelView>,
    failing: int,
)
    requires
        replies.len() > 0,
        replies[0].listed() == Ok::<Seq<LabelView>, LabelsError>(listed),
        0 <= failing < listed.len(),
        failing + 1 < replies.len(),
        forall|k: int| 1 <= k <= failing ==> (#[trigger] replies[k]).deleted() is Ok,
        replies[failing + 1].deleted() is Err,
    ensures
        ({
            let start = RunView::start(client, owner, repo, desired);
            &&& start.run(replies).phase == PhaseView::Failed(LabelsError::DeleteFailed)
            &&& start.calls(replies) == seq![CallView::List] + deletions(listed).take(failing + 1)
            &&& forall|i: int|
                0 <= i < start.calls(replies).len() ==> !(#[trigger] start.calls(replies)[i]
                    is Create)
        }),
{
    let start = RunView::start(client, owner, repo, desired);
    lemma_listing(start, replies);
    let next = start.step(replies[0]);
    let rest = replies.drop_first();
    assert forall|k: int| 0 <= k < failing implies (#[trigger] next.remaining()[k]).answered_by(
        rest[k],
    ) by {
        assert(replies[k + 1].deleted() is Ok);
    }
    assert(next.remaining()[failing] == CallView::Delete(listed[failing].name));
    assert(rest[failing] == replies[failing + 1]);
    lemma_course(next, rest, failing);
    assert(next.remaining().take(failing + 1) =~= deletions(listed).take(failing + 1));
}

/// When a creation is not carried out, the run ends with `CreateFailed`. It
/// has made the listing, every deletion, and the creations up to the failed
/// one; no later creation is made, whatever is replied afterwards.
///
/// `failing` is the index of the first creation that is not carried out, in
/// the order of the declaration.
pub proof fn lemma_failed_creation_ends_run(
    client: GitHubView,
    owner: Seq<char>,
    repo: Seq<char>,
    desired: Seq<LabelView>,
    replies: Seq<ReplyView>,
    listed: Seq<LabelView>,
    failing: int,
)
    requires
        replies.len() > 0,
        replies[0].listed() == Ok::<Seq<LabelView>, LabelsError>(listed),
        0 <= failing < desired.len(),
        listed.len() + failing + 1 < replies.len(),
        forall|k: int| 1 <= k <= listed.len() ==> (#[trigger] replies[k]).deleted() is Ok,
        forall|k: int|
            listed.len() < k <= listed.len() + failing ==> (#[trigger] replies[k]).created() is Ok,
        replies[listed.len() + failing + 1].created() is Err,
    ensures
        ({
            let start = RunView::start(client, owner, repo, desired);
            &&& start.run(replies).phase == PhaseView::Failed(LabelsError::CreateFailed)
            &&& start.calls(replies) == seq![CallView::List] + deletions(listed) + creations(
                desired,
            ).take(failing + 1)
        }),
{
    let start = RunView::start(client, owner, repo, desired);
    lemma_listing(start, replies);
    let next = start.step(replies[0]);
    let rest = replies.drop_first();
    let carried_out = listed.len() + failing;
    assert forall|k: int| 0 <= k < carried_out implies (#[trigger] next.remaining()[k]).answered_by(
        rest[k],
    ) by {
        if k < listed.len() {
            assert(replies[k + 1].deleted() is Ok);
        } else {
            assert(replies[k + 1].created() is Ok);
        }
    }
    assert(next.remaining()[carried_out] == CallView::Create(desired[failing]));
    assert(rest[carried_out] == replies[carried_out + 1]);
    lemma_course(next, rest, carried_out);
    assert(next.remaining().take(carried_out + 1) =~= deletions(listed) + creations(desired).take(
        failing + 1,
    ));
}

/// When the listing and every deletion and creation after it are carried
/// out, the run is done, and it has made every call of its plan: the listing,
/// one deletion for each listed label, one creation for each declared label.
pub proof fn lemma_unhindered_run_is_done(
    client: GitHubView,
    owner: Seq<char>,
    repo: Seq<char>,
    desired: Seq<LabelView>,
    replies: Seq<ReplyView>,
    listed: Seq<LabelView>,
)
    requires
        replies.len() > listed.len() + desired.len(),
        replies[0].listed() == Ok::<Seq<LabelView>, LabelsError>(listed),
        forall|k: int| 1 <= k <= listed.len() ==> (#[trigger] replies[k]).deleted() is Ok,
        forall|k: int|
            listed.len() < k <= listed.len() + desired.len() ==> (#[trigger] replies[k]).created()
                is Ok,
    ensures
        RunView::start(client, owner, repo, desired).run(replies).phase == PhaseView::Done,
        RunView::start(client, owner, repo, desired).calls(replies) == plan(listed, desired),
{
    let start = RunView::start(client, owner, repo, desired);
    lemma_listing(start, replies);
    let next = start.step(replies[0]);
    let rest = replies.drop_first();
    let carried_out = listed.len() + desired.len();
    assert forall|k: int| 0 <= k < carried_out implies (#[trigger] next.remaining()[k]).answered_by(
        rest[k],
    ) by {
        if k < listed.len() {
            assert(replies[k + 1].deleted() is Ok);
        } else {
            assert(replies[k + 1].created() is Ok);
        }
    }
    lemma_course(next, rest, carried_out as int);
    assert(start.calls(replies) =~= plan(listed, desired));
}

/// Removing all labels, when each deletion is carried out, makes the listing
/// and then exactly one deletion for each listed label, in the order of the
/// listing, and is then done.
pub proof fn lemma_removal_deletes_each_label_once(
    client: GitHubView,
    owner: Seq<char>,
    repo: Seq<char>,
    replies: Seq<ReplyView>,
    listed: Seq<LabelView>,
)
    requires
        replies.len() > listed.len(),
        replies[0].listed() == Ok::<Seq<LabelView>, LabelsError>(listed),
        forall|k: int| 1 <= k <= listed.len() ==> (#[trigger] replies[k]).deleted() is Ok,
    ensures
        ({
            let start = RunView::start(client, owner, repo, Seq::empty());
            let calls = start.calls(replies);
            &&& start.run(replies).phase == PhaseView::Done
            &&& calls.len() == 1 + listed.len()
            &&& calls[0] == CallView::List
            &&& forall|i: int|
                0 <= i < listed.len() ==> #[trigger] calls[i + 1] == CallView::Delete(
                    listed[i].name,
                )
        }),
{
    lemma_unhindered_run_is_done(client, owner, repo, Seq::empty(), replies, listed);
}

/// Removing all labels never creates one, whatever the replies.
pub proof fn lemma_removal_creates_nothing(
    client: GitHubView,
    owner: Seq<char>,
    repo: Seq<char>,
    replies: Seq<ReplyView>,
)
    ensures
        ({
            let calls = RunView::start(client, owner, repo, Seq::empty()).calls(replies);
            forall|i: int| 0 <= i < calls.len() ==> !(#[trigger] calls[i] is Create)
        }),
{
    let start = RunView::start(client, owner, repo, Seq::empty());
    let calls = start.calls(replies);
    if replies.len() > 0 {
        match replies[0].listed() {
            Ok(listed) => {
                lemma_calls_follow_plan(client, owner, repo, Seq::empty(), replies, listed);
                assert forall|i: int| 0 <= i < calls.len() implies !(#[trigger] calls[i]
                    is Create) by {
                    assert(calls[i] == plan(listed, Seq::empty())[i]);
                }
            },
            Err(error) => {
                lemma_failed_listing_ends_run(client, owner, repo, Seq::empty(), replies, error);
            },
        }
    }
}

/// Removing all labels from a repository whose listing shows none is done
/// with the listing: it deletes nothing, whatever is replied afterwards.
pub proof fn lemma_removal_of_nothing_is_done(
    client: GitHubView,
    owner: Seq<char>,
    repo: Seq<char>,
    replies: Seq<ReplyView>,
)
    requires
        replies.len() > 0,
        replies[0].listed() == Ok::<Seq<LabelView>, LabelsError>(Seq::empty()),
    ensures
        RunView::start(client, owner, repo, Seq::empty()).run(replies).phase == PhaseView::Done,
        RunView::start(client, owner, repo, Seq::empty()).calls(replies) == seq![CallView::List],
{
    lemma_unhindered_run_is_done(client, owner, repo, Seq::empty(), replies, Seq::empty());
    assert(plan(Seq::empty(), Seq::empty()) =~= seq![CallView::List]);
}

impl CallView {
    /// The labels of a repository, each under its name, after this call was
    /// carried out on a repository that held `repository`. A deletion takes
    /// the label of that name away, a creation puts the label under its name,
    /// a listing changes nothing.
    pub open spec fn effect(self, repository: Map<Seq<char>, LabelView>) -> Map<
        Seq<char>,
        LabelView,
    > {
        match self {
            CallView::List => repository,
            CallView::Delete(name) => repository.remove(name),
            CallView::Create(label) => repository.insert(label.name, label),
        }
    }
}

/// The labels of a repository after each of `calls` was carried out on it, in
/// their order.
pub open spec fn repository_after(
    repository: Map<Seq<char>, LabelView>,
    calls: Seq<CallView>,
) -> Map<Seq<char>, LabelView>
    decreases calls.len(),
{
    if calls.len() == 0 {
        repository
    } else {
        repository_after(calls.first().effect(repository), calls.drop_first())
    }
}

/// Carrying out two lists of calls, one after the other.
proof fn lemma_calls_in_turn(
    repository: Map<Seq<char>, LabelView>,
    first: Seq<CallView>,
    second: Seq<CallView>,
)
    ensures
        repository_after(repository, first + second) == repository_after(
            repository_after(repository, first),
            second,
        ),
    decreases first.len(),
{
    if first.len() == 0 {
        assert(first + second =~= second);
    } else {
        assert((first + second).drop_first() =~= first.drop_first() + second);
        lemma_calls_in_turn(first.first().effect(repository), first.drop_first(), second);
    }
}

/// Deleting every label that a repository holds leaves it empty.
proof fn lemma_deletions_empty(repository: Map<Seq<char>, LabelView>, listed: Seq<LabelView>)
    requires
        forall|name: Seq<char>| #[trigger]
            repository.dom().contains(name) ==> names(listed).contains(name),
    ensures
        repository_after(repository, deletions(listed)) == Map::<Seq<char>, LabelView>::empty(),
    decreases listed.len(),
{
    if listed.len() == 0 {
        assert forall|name: Seq<char>| !(#[trigger] repository.dom().contains(name)) by {
            if repository.dom().contains(name) {
                assert(names(listed).contains(name));
            }
        }
        assert(repository =~= Map::<Seq<char>, LabelView>::empty());
    } else {
        let rest = listed.drop_first();
        let next = repository.remove(listed[0].name);
        assert(deletions(listed).drop_first() =~= deletions(rest));
        assert forall|name: Seq<char>| #[trigger] next.dom().contains(name) implies names(
            rest,
        ).contains(name) by {
            assert(names(listed).contains(name));
            let k = choose|k: int| 0 <= k < names(listed).len() && names(listed)[k] == name;
            assert(k > 0);
            assert(names(rest)[k - 1] == name);
        }
        lemma_deletions_empty(next, rest);
    }
}

/// Creating every declared label puts each name of the declaration into the
/// repository, with a declared label of that name under it, and touches no
/// other name.
proof fn lemma_creations_add(repository: Map<Seq<char>, LabelView>, desired: Seq<LabelView>)
    ensures
        ({
            let after = repository_after(repository, creations(desired));
            &&& forall|name: Seq<char>| #[trigger]
                after.dom().contains(name) <==> repository.dom().contains(name) || names(
                    desired,
                ).contains(name)
            &&& forall|name: Seq<char>| #[trigger]
                names(desired).contains(name) ==> after[name].name == name && desired.contains(
                    after[name],
                )
            &&& forall|name: Seq<char>|
                !names(desired).contains(name) && repository.dom().contains(name)
                    ==> #[trigger] after[name] == repository[name]
        }),
    decreases desired.len(),
{
    let after = repository_after(repository, creations(desired));
    if desired.len() == 0 {
        assert forall|name: Seq<char>| !(#[trigger] names(desired).contains(name)) by {}
    } else {
        let rest = desired.drop_first();
        let next = repository.insert(desired[0].name, desired[0]);
        assert(creations(desired).drop_first() =~= creations(rest));
        lemma_creations_add(next, rest);
        assert(after == repository_after(next, creations(rest)));
        assert(names(desired)[0] == desired[0].name);
        assert forall|name: Seq<char>| #[trigger]
            names(desired).contains(name) <==> name == desired[0].name || names(rest).contains(
                name,
            ) by {
            if names(desired).contains(name) {
                let k = choose|k: int| 0 <= k < names(desired).len() && names(desired)[k] == name;
                if k > 0 {
                    assert(names(rest)[k - 1] == name);
                }
            }
            if names(rest).contains(name) {
                let k = choose|k: int| 0 <= k < names(rest).len() && names(rest)[k] == name;
                assert(names(desired)[k + 1] == name);
            }
        }
        assert forall|name: Seq<char>| #[trigger]
            names(desired).contains(name) implies after[name].name == name && desired.contains(
            after[name],
        ) by {
            if names(rest).contains(name) {
                let k = choose|k: int| 0 <= k < rest.len() && rest[k] == after[name];
                assert(desired[k + 1] == after[name]);
            } else {
                assert(after[name] == next[name]);
                assert(desired[0] == after[name]);
            }
        }
    }
}

/// An update that is done leaves in the repository exactly the declared
/// names, and under each name a declared label of that name, whatever the
/// repository held before: it leaves what creating the declared labels in an
/// empty repository gives. This is said of a repository all of whose labels
/// the listing showed.
pub proof fn lemma_done_update_leaves_declared_labels(
    client: GitHubView,
    owner: Seq<char>,
    repo: Seq<char>,
    desired: Seq<LabelView>,
    replies: Seq<ReplyView>,
    listed: Seq<LabelView>,
    repository: Map<Seq<char>, LabelView>,
)
    requires
        replies.len() > 0,
        replies[0].listed() == Ok::<Seq<LabelView>, LabelsError>(listed),
        forall|name: Seq<char>| #[trigger]
            repository.dom().contains(name) ==> names(listed).contains(name),
        RunView::start(client, owner, repo, desired).run(replies).phase is Done,
    ensures
        ({
            let calls = RunView::start(client, owner, repo, desired).calls(replies);
            let after = repository_after(repository, calls);
            &&& after == repository_after(Map::empty(), creations(desired))
            &&& after.dom() == names(desired).to_set()
            &&& forall|name: Seq<char>| #[trigger]
                after.dom().contains(name) ==> after[name].name == name && desired.contains(
                    after[name],
                )
        }),
{
    let calls = RunView::start(client, owner, repo, desired).calls(replies);
    let after = repository_after(repository, calls);
    let emptied = repository_after(repository, deletions(listed));
    lemma_done_run_made_plan(client, owner, repo, desired, replies);
    assert(calls.drop_first() =~= deletions(listed) + creations(desired));
    lemma_calls_in_turn(repository, deletions(listed), creations(desired));
    lemma_deletions_empty(repository, listed);
    lemma_creations_add(emptied, desired);
    assert(after.dom() =~= names(desired).to_set());
}

/// A removal that is done leaves the repository without labels, whatever it
/// held before. This is said of a repository all of whose labels the listing
/// showed.
pub proof fn lemma_done_removal_leaves_nothing(
    client: GitHubView,
    owner: Seq<char>,
    repo: Seq<char>,
    replies: Seq<ReplyView>,
    listed: Seq<LabelView>,
    repository: Map<Seq<char>, LabelView>,
)
    requires
        replies.len() > 0,
        replies[0].listed() == Ok::<Seq<LabelView>, LabelsError>(listed),
        forall|name: Seq<char>| #[trigger]
            repository.dom().contains(name) ==> names(listed).contains(name),
        RunView::start(client, owner, repo, Seq::empty()).run(replies).phase is Done,
    ensures
        repository_after(
            repository,
            RunView::start(client, owner, repo, Seq::empty()).calls(replies),
        ) == Map::<Seq<char>, LabelView>::empty(),
{
    lemma_done_update_leaves_declared_labels(
        client,
        owner,
        repo,
        Seq::empty(),
        replies,
        listed,
        repository,
    );
    assert(creations(Seq::empty()) =~= Seq::<CallView>::empty());
}

/// Updating twice to the same declaration leaves what updating once leaves:
/// after an update that is done, a second one that is done changes nothing
/// in the end. The same holds of removing twice, which is updating to no
/// labels. This is said of listings that show every label of the repository.
pub proof fn lemma_update_twice_is_update_once(
    client: GitHubView,
    owner: Seq<char>,
    repo: Seq<char>,
    desired: Seq<LabelView>,
    repository: Map<Seq<char>, LabelView>,
    first_replies: Seq<ReplyView>,
    first_listed: Seq<LabelView>,
    second_replies: Seq<ReplyView>,
    second_listed: Seq<LabelView>,
)
    requires
        first_replies.len() > 0,
        first_replies[0].listed() == Ok::<Seq<LabelView>, LabelsError>(first_listed),
        forall|name: Seq<char>| #[trigger]
            repository.dom().contains(name) ==> names(first_listed).contains(name),
        RunView::start(client, owner, repo, desired).run(first_replies).phase is Done,
        second_replies.len() > 0,
        second_replies[0].listed() == Ok::<Seq<LabelView>, LabelsError>(second_listed),
        forall|name: Seq<char>| #[trigger]
            repository_after(
                repository,
                RunView::start(client, owner, repo, desired).calls(first_replies),
            ).dom().contains(name) ==> names(second_listed).contains(name),
        RunView::start(client, owner, repo, desired).run(second_replies).phase is Done,
    ensures
        ({
            let start = RunView::start(client, owner, repo, desired);
            let once = repository_after(repository, start.calls(first_replies));
            let twice = repository_after(once, start.calls(second_replies));
            twice == once
        }),
{
    let start = RunView::start(client, owner, repo, desired);
    let once = repository_after(repository, start.calls(first_replies));
    lemma_done_update_leaves_declared_labels(
        client,
        owner,
        repo,
        desired,
        first_replies,
        first_listed,
        repository,
    );
    lemma_done_update_leaves_declared_labels(
        client,
        owner,
        repo,
        desired,
        second_replies,
        second_listed,
        once,
    );
}

} // verus!

//! Filesystem actions that the library asks its caller to carry out, and the
//! rule by which a list of them is run: in order, stopping at the first
//! failure, never retrying.
use vstd::prelude::*;

verus! {

/// One filesystem action, carried out by the caller.
#[derive(Debug, Clone, PartialEq, Eq)]
pub enum FsAction {
    /// Create a directory and any missing parents; an existing directory is
    /// no error.
    CreateDirAll { path: String },
    /// Create or truncate a file and write the whole text into it.
    WriteFile { path: String, contents: String },
    /// Clear the read-only attribute of a directory and of every entry under it.
    ClearReadOnly { path: String },
    /// Remove a directory and everything under it.
    RemoveTree { path: String },
    /// Fetch one branch or tag of a remote repository, shallow, into a
    /// directory that does not exist yet.
    Fetch { remote: String, destination: String, reference: String },
}

/// What an action does, over plain text.
pub ghost enum ActionView {
    CreateDirAll(Seq<char>),
    WriteFile(Seq<char>, Seq<char>),
    ClearReadOnly(Seq<char>),
    RemoveTree(Seq<char>),
    Fetch(Seq<char>, Seq<char>, Seq<char>),
}

impl View for FsAction {
    type V = ActionView;

    open spec fn view(&self) -> ActionView {
        match self {
            FsAction::CreateDirAll { path } => ActionView::CreateDirAll(path@),
            FsAction::WriteFile { path, contents } => ActionView::WriteFile(path@, contents@),
            FsAction::ClearReadOnly { path } => ActionView::ClearReadOnly(path@),
            FsAction::RemoveTree { path } => ActionView::RemoveTree(path@),
            FsAction::Fetch { remote, destination, reference } => ActionView::Fetch(
                remote@,
                destination@,
                reference@,
            ),
        }
    }
}

/// The views of a list of actions.
pub open spec fn actions_view(actions: Seq<FsAction>) -> Seq<ActionView> {
    actions.map_values(|a: FsAction| a@)
}

/// A list of actions being carried out: how many have succeeded, and whether
/// the one after them failed.
pub struct PlanRun {
    actions: Vec<FsAction>,
    done: usize,
    failed: bool,
}

impl PlanRun {
    #[verifier::type_invariant]
    spec fn well_formed(&self) -> bool {
        self.done <= self.actions@.len()
    }

    /// The actions of the run.
    pub closed spec fn steps(&self) -> Seq<ActionView> {
        actions_view(self.actions@)
    }

    /// How many actions have succeeded.
    pub closed spec fn completed(&self) -> nat {
        self.done as nat
    }

    /// Whether an action has failed, which ends the run.
    pub closed spec fn has_failed(&self) -> bool {
        self.failed
    }

    /// Starts a run of the given actions, none of them done yet.
    pub fn new(actions: Vec<FsAction>) -> (r: PlanRun)
        ensures
            r.steps() == actions_view(actions@),
            r.completed() == 0,
            !r.has_failed(),
    {
        PlanRun { actions, done: 0, failed: false }
    }

    /// The action to carry out next: the first one not done, while none has
    /// failed.
    pub fn next_action(&self) -> (r: Option<&FsAction>)
        ensures
            r is Some <==> !self.has_failed() && self.completed() < self.steps().len(),
            r matches Some(a) ==> a@ == self.steps()[self.completed() as int],
    {
        proof {
            use_type_invariant(self);
        }
        if self.failed || self.done >= self.actions.len() {
            None
        } else {
            Some(&self.actions[self.done])
        }
    }

    /// Records how the action handed out by `next_action` went. After a
    /// failure the run hands out nothing more; on a run with nothing pending
    /// a report changes nothing.
    pub fn report(&mut self, succeeded: bool)
        ensures
            final(self).steps() == old(self).steps(),
            old(self).has_failed() || old(self).completed() >= old(self).steps().len()
                ==> *final(self) == *old(self),
            !old(self).has_failed() && old(self).completed() < old(self).steps().len() && succeeded
                ==> final(self).completed() == old(self).completed() + 1 && !final(self).has_failed(),
            !old(self).has_failed() && old(self).completed() < old(self).steps().len() && !succeeded
                ==> final(self).completed() == old(self).completed() && final(self).has_failed(),
    {
        proof {
            use_type_invariant(&*self);
        }
        if self.failed || self.done >= self.actions.len() {
            return ;
        }
        if succeeded {
            self.done = self.done + 1;
        } else {
            self.failed = true;
        }
    }

    /// Whether every action has been carried out.
    pub fn succeeded(&self) -> (r: bool)
        ensures
            r == (!self.has_failed() && self.completed() == self.steps().len()),
    {
        proof {
            use_type_invariant(self);
        }
        !self.failed && self.done == self.actions.len()
    }

    /// Whether an action has failed.
    pub fn failed(&self) -> (r: bool)
        ensures
            r == self.has_failed(),
    {
        self.failed
    }
}

} // verus!

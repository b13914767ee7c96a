//! Starting an actor run with several API keys: the keys are tried in order,
//! and the next one is tried only when the failure may depend on the key.

use vstd::prelude::*;

use crate::client::ApifyClient;
use crate::error::{describes, rotates_key, Error};
use crate::text::{append, debug_quote, debug_quoted, owned};
use crate::validate::{is_valid_actor_id, validate_actor_id};

verus! {

/// What Apify reports for a started run.
pub struct RunInfo {
    /// The run ID assigned by Apify.
    pub run_id: String,
    /// The run's default dataset ID.
    pub dataset_id: String,
}

/// A started actor run: the key it was started with, its id and its dataset.
/// Use it to poll for completion and to page through the dataset.
pub struct RunHandle<'c> {
    client: &'c ApifyClient,
    api_key: String,
    /// The run ID assigned by Apify.
    pub run_id: String,
    /// The default dataset ID of the run.
    pub dataset_id: String,
}

impl<'c> RunHandle<'c> {
    /// The client the run was started with.
    pub closed spec fn spec_client(&self) -> &'c ApifyClient {
        self.client
    }

    /// The run ID.
    pub closed spec fn spec_run_id(&self) -> Seq<char> {
        self.run_id@
    }

    /// The default dataset ID.
    pub closed spec fn spec_dataset_id(&self) -> Seq<char> {
        self.dataset_id@
    }

    /// The API key the run was started with.
    pub closed spec fn spec_api_key(&self) -> Seq<char> {
        self.api_key@
    }

    /// The client the run was started with.
    pub fn client(&self) -> (r: &'c ApifyClient)
        ensures
            r == self.spec_client(),
    {
        self.client
    }

    /// The run ID.
    pub fn get_run_id(&self) -> (r: &str)
        ensures
            r@ == self.spec_run_id(),
    {
        self.run_id.as_str()
    }

    /// The default dataset ID.
    pub fn get_dataset_id(&self) -> (r: &str)
        ensures
            r@ == self.spec_dataset_id(),
    {
        self.dataset_id.as_str()
    }

    /// The API key the run was started with; later requests about the run
    /// use the same key.
    pub fn api_key(&self) -> (r: &str)
        ensures
            r@ == self.spec_api_key(),
    {
        self.api_key.as_str()
    }

    /// The text of the handle for debugging, as `{:?}` renders it: the run
    /// and dataset ids; the API key is left out.
    pub fn debug_string(&self) -> (r: String)
        ensures
            r@ == handle_debug_text(self.spec_run_id(), self.spec_dataset_id()),
    {
        let mut t = owned("RunHandle { run_id: ");
        let a = debug_quote(self.run_id.as_str());
        append(&mut t, a.as_str());
        append(&mut t, ", dataset_id: ");
        let b = debug_quote(self.dataset_id.as_str());
        append(&mut t, b.as_str());
        append(&mut t, ", .. }");
        t
    }
}

/// The text `format!("{:?}", handle)` gives for a handle with these ids.
pub open spec fn handle_debug_text(run_id: Seq<char>, dataset_id: Seq<char>) -> Seq<char> {
    "RunHandle { run_id: "@ + debug_quoted(run_id) + ", dataset_id: "@ + debug_quoted(dataset_id)
        + ", .. }"@
}

/// Progress through the API keys while starting a run: the index of the key
/// to submit with next.
pub struct KeyRotation {
    index: usize,
}

impl View for KeyRotation {
    type V = nat;

    closed spec fn view(&self) -> nat {
        self.index as nat
    }
}

impl KeyRotation {
    /// The index of the key to submit with.
    pub fn index(&self) -> (r: usize)
        ensures
            r as nat == self@,
    {
        self.index
    }
}

/// What to do after a submission.
pub enum RunStep<'c> {
    /// The run started.
    Started(RunHandle<'c>),
    /// Submit again with the key this rotation points to.
    TryNextKey(KeyRotation),
    /// Give up with this error.
    Failed(Error),
}

/// After submitting with key `i` of `n`, the index of the key to try next,
/// or `None` when no further submission is made: the run started, the
/// failure is the same for every key, or no key is left.
pub open spec fn next_key_index(n: nat, i: nat, outcome: &Result<RunInfo, Error>) -> Option<nat> {
    match outcome {
        Ok(_) => None,
        Err(e) => if rotates_key(e) && i + 1 < n {
            Some(i + 1)
        } else {
            None
        },
    }
}

/// The kinds of step a submission can lead to.
pub enum SubmitKind {
    /// The run started.
    Start,
    /// The next key is tried.
    Next,
    /// The failure is returned as it is.
    Surface,
    /// Every key failed.
    GiveUp,
}

/// The kind of step after submitting with key `i` of `n` came to `outcome`.
pub open spec fn submit_kind(n: nat, i: nat, outcome: &Result<RunInfo, Error>) -> SubmitKind {
    match outcome {
        Ok(_) => SubmitKind::Start,
        Err(e) => if !rotates_key(e) {
            SubmitKind::Surface
        } else if i + 1 < n {
            SubmitKind::Next
        } else {
            SubmitKind::GiveUp
        },
    }
}

/// The kind of a step that `after_submit` gives.
pub open spec fn run_step_kind<'c>(r: &RunStep<'c>) -> SubmitKind {
    match r {
        RunStep::Started(_) => SubmitKind::Start,
        RunStep::TryNextKey(_) => SubmitKind::Next,
        RunStep::Failed(e) => if rotates_key(e) {
            SubmitKind::GiveUp
        } else {
            SubmitKind::Surface
        },
    }
}

/// An outcome that ends the rotation whichever key gave it: a started run,
/// or a failure that is the same for every key.
pub open spec fn decides_run(outcome: &Result<RunInfo, Error>) -> bool {
    match outcome {
        Ok(_) => true,
        Err(e) => !rotates_key(e),
    }
}

/// Where a run that starts at key `i` of `n` ends when its submissions come
/// to `outcomes` in turn (`outcomes[m]` with key `i + m`): the index of the
/// last key submitted with, and the kind of the last step.
pub open spec fn rotation_end(n: nat, i: nat, outcomes: Seq<Result<RunInfo, Error>>) -> (
    nat,
    SubmitKind,
)
    decreases outcomes.len(),
{
    if outcomes.len() == 0 {
        (i, SubmitKind::Next)
    } else {
        let k = submit_kind(n, i, &outcomes[0]);
        if k is Next {
            rotation_end(n, i + 1, outcomes.drop_first())
        } else {
            (i, k)
        }
    }
}

/// How many submissions a run makes with `n` keys, starting at key `i`,
/// when the submissions come to `outcomes` in turn (until they run out).
pub open spec fn submissions(n: nat, i: nat, outcomes: Seq<Result<RunInfo, Error>>) -> nat
    decreases outcomes.len(),
{
    if outcomes.len() == 0 {
        0
    } else {
        1 + match next_key_index(n, i, &outcomes[0]) {
            Some(j) => submissions(n, j, outcomes.drop_first()),
            None => 0,
        }
    }
}

impl ApifyClient {
    /// Checks a run request before anything is sent: there must be a key,
    /// and the actor id must be valid. On success, the rotation points to
    /// the first key.
    pub fn start_run(&self, actor_id: &str) -> (r: Result<KeyRotation, Error>)
        ensures
            self@.api_keys.len() == 0 ==> r matches Err(Error::NoKeys),
            self@.api_keys.len() > 0 && !is_valid_actor_id(actor_id@) ==> (r matches Err(
                Error::InvalidActorId(s),
            ) && s@ == actor_id@),
            self@.api_keys.len() > 0 && is_valid_actor_id(actor_id@) ==> (r matches Ok(k) && k@
                == 0),
    {
        if self.get_api_keys().len() == 0 {
            return Err(Error::NoKeys);
        }
        match validate_actor_id(actor_id) {
            Ok(()) => Ok(KeyRotation { index: 0 }),
            Err(e) => Err(e),
        }
    }

    /// The key to submit with at this point of the rotation.
    pub fn key_for(&self, rotation: &KeyRotation) -> (r: &str)
        requires
            rotation@ < self@.api_keys.len(),
        ensures
            r@ == self@.api_keys[rotation@ as int],
    {
        let keys = self.get_api_keys();
        keys[rotation.index].as_str()
    }

    /// What to do after the submission with the rotation's key came to
    /// `outcome`. A started run gives a handle that keeps that key. A failure
    /// that may depend on the key moves on to the next key; after the last
    /// key it becomes `AllKeysFailed` with the failure's text. Any other
    /// failure is returned as it is.
    pub fn after_submit<'c>(&'c self, rotation: KeyRotation, outcome: Result<RunInfo, Error>) -> (r:
        RunStep<'c>)
        requires
            rotation@ < self@.api_keys.len(),
        ensures
            outcome is Ok ==> (r matches RunStep::Started(h) && h.spec_client() == self
                && h.spec_api_key() == self@.api_keys[rotation@ as int] && h.spec_run_id()
                == outcome->Ok_0.run_id@ && h.spec_dataset_id() == outcome->Ok_0.dataset_id@),
            outcome is Err ==> ({
                let e = outcome->Err_0;
                let n = self@.api_keys.len();
                &&& !rotates_key(&e) ==> r == RunStep::Failed(e)
                &&& rotates_key(&e) && rotation@ + 1 < n ==> (r matches RunStep::TryNextKey(k)
                    && k@ == rotation@ + 1)
                &&& rotates_key(&e) && rotation@ + 1 == n ==> (r matches RunStep::Failed(
                    Error::AllKeysFailed(s),
                ) && describes(&e, s@))
            }),
            r matches RunStep::TryNextKey(k) ==> Some(k@) == next_key_index(
                self@.api_keys.len(),
                rotation@,
                &outcome,
            ),
            !(r is TryNextKey) ==> next_key_index(self@.api_keys.len(), rotation@, &outcome)
                is None,
            run_step_kind(&r) == submit_kind(self@.api_keys.len(), rotation@ as nat, &outcome),
    {
        let n = self.get_api_keys().len();
        match outcome {
            Ok(info) => {
                let key = self.key_for(&rotation);
                RunStep::Started(
                    RunHandle {
                        client: self,
                        api_key: owned(key),
                        run_id: info.run_id,
                        dataset_id: info.dataset_id,
                    },
                )
            },
            Err(e) => {
                if !crate::error::should_rotate_key(&e) {
                    RunStep::Failed(e)
                } else if rotation.index + 1 < n {
                    RunStep::TryNextKey(KeyRotation { index: rotation.index + 1 })
                } else {
                    RunStep::Failed(Error::AllKeysFailed(e.to_string()))
                }
            },
        }
    }
}

} // verus!

//! The storage manager: owns one configuration and one backend, tracks the
//! lifecycle state of each sandbox, and issues a backend call only where the
//! lifecycle allows it.

use crate::config::{ContainerStorageData, StorageDataView};
use crate::lifecycle::{decide, decision_of, Decision, LifecycleError, LifecycleOp, SandboxState};
use crate::store::{BackendError, SandboxData, Store};
use std::collections::HashMap;
use vstd::prelude::*;

verus! {

broadcast use vstd::std_specs::hash::group_hash_axioms;

/// Why a lifecycle request failed.
#[derive(Debug)]
pub enum StorageError {
    /// The lifecycle refused the request; the backend was not called.
    Lifecycle(LifecycleError),
    /// The backend failed; the sandbox's state was left as it was.
    Backend(BackendError),
}

/// Settles a request whose backend effect has returned `outcome`: on
/// success the sandbox moves to `target`; a backend error is passed on
/// unchanged, and the sandbox keeps its state.
pub fn settle(target: SandboxState, outcome: Result<(), BackendError>) -> (r: Result<
    SandboxState,
    StorageError,
>)
    ensures
        match outcome {
            Ok(_) => r == Ok::<SandboxState, StorageError>(target),
            Err(e) => r == Err::<SandboxState, StorageError>(StorageError::Backend(e)),
        },
{
    match outcome {
        Ok(()) => Ok(target),
        Err(e) => Err(StorageError::Backend(e)),
    }
}

/// The readiness of a running sandbox, from the backend's answer `outcome`:
/// the answer itself, or the backend's error unchanged.
pub fn ready_answer(outcome: Result<bool, BackendError>) -> (r: Result<bool, StorageError>)
    ensures
        match outcome {
            Ok(b) => r == Ok::<bool, StorageError>(b),
            Err(e) => r == Err::<bool, StorageError>(StorageError::Backend(e)),
        },
{
    match outcome {
        Ok(b) => Ok(b),
        Err(e) => Err(StorageError::Backend(e)),
    }
}

/// The main data structure for a container store. The backend `T` does the
/// work; the manager tracks what the backend needs and enforces the order
/// of lifecycle calls, without changing the configuration.
pub struct ContainerStorageManager<T> where T: Default {
    data: ContainerStorageData,
    /// The backend that the lifecycle calls go to.
    implementation: T,
    /// The state of each sandbox seen so far, by identity.
    sandboxes: HashMap<u64, SandboxState>,
}

impl<T: Store + Default> ContainerStorageManager<T> {
    pub closed spec fn data_view(&self) -> StorageDataView {
        self.data@
    }

    /// The tracked sandboxes and their states.
    pub closed spec fn states(&self) -> Map<u64, SandboxState> {
        self.sandboxes@
    }

    pub closed spec fn backend(&self) -> T {
        self.implementation
    }

    /// The state of a sandbox: `Unknown` until the manager has a record of it.
    pub open spec fn state_of(&self, id: u64) -> SandboxState {
        if self.states().contains_key(id) {
            self.states()[id]
        } else {
            SandboxState::Unknown
        }
    }

    /// What one `run`, `stop` or `remove` of sandbox `id` does, going from
    /// `self` to `next` with result `r`. The configuration never changes. A
    /// refused request fails with its lifecycle error and a skipped one
    /// succeeds, both without a backend call or a change of state. Otherwise
    /// the backend is called: when it succeeds the sandbox moves to the
    /// target state, when it fails the error is the backend's and the
    /// states stay as they were.
    pub open spec fn request_outcome(
        &self,
        next: &Self,
        id: u64,
        op: LifecycleOp,
        r: Result<(), StorageError>,
    ) -> bool {
        &&& next.data_view() == self.data_view()
        &&& match decision_of(self.state_of(id), op) {
            Decision::Refuse { error } => {
                &&& r == Err::<(), StorageError>(StorageError::Lifecycle(error))
                &&& next.states() == self.states()
                &&& next.backend() == self.backend()
            },
            Decision::Skip => {
                &&& r is Ok
                &&& next.states() == self.states()
                &&& next.backend() == self.backend()
            },
            Decision::Call { target } => match r {
                Ok(_) => next.states() == self.states().insert(id, target),
                Err(e) => e is Backend && next.states() == self.states(),
            },
        }
    }

    /// A manager over `data` with a default backend and no sandbox tracked.
    pub fn new(data: ContainerStorageData) -> (r: Self)
        ensures
            r.data_view() == data@,
            r.states() == Map::<u64, SandboxState>::empty(),
    {
        ContainerStorageManager { data, implementation: T::default(), sandboxes: HashMap::new() }
    }

    /// A manager over `data` with the given backend and no sandbox tracked.
    pub fn with_implementation(data: ContainerStorageData, implementation: T) -> (r: Self)
        ensures
            r.data_view() == data@,
            r.backend() == implementation,
            r.states() == Map::<u64, SandboxState>::empty(),
    {
        ContainerStorageManager { data, implementation, sandboxes: HashMap::new() }
    }

    /// The current state of `sandbox`.
    pub fn sandbox_state(&self, sandbox: &SandboxData) -> (r: SandboxState)
        ensures
            r == self.state_of(sandbox.spec_id()),
    {
        match self.sandboxes.get(&sandbox.id()) {
            Some(s) => *s,
            None => SandboxState::Unknown,
        }
    }

    fn request(&mut self, sandbox: &SandboxData, op: LifecycleOp) -> (r: Result<(), StorageError>)
        ensures
            old(self).request_outcome(final(self), sandbox.spec_id(), op, r),
    {
        let id = sandbox.id();
        let state = self.sandbox_state(sandbox);
        match decide(state, op) {
            Decision::Refuse { error } => Err(StorageError::Lifecycle(error)),
            Decision::Skip => Ok(()),
            Decision::Call { target } => {
                let outcome = match op {
                    LifecycleOp::Run => self.implementation.run(sandbox),
                    LifecycleOp::Stop => self.implementation.stop(sandbox),
                    LifecycleOp::Remove => self.implementation.remove(sandbox),
                };
                match settle(target, outcome) {
                    Ok(next) => {
                        self.sandboxes.insert(id, next);
                        Ok(())
                    },
                    Err(e) => Err(e),
                }
            },
        }
    }

    /// Runs a sandbox that is unknown or stopped; succeeds at once on a
    /// running one; refuses a removed one with `AlreadyRemoved`.
    pub fn run(&mut self, sandbox: &SandboxData) -> (r: Result<(), StorageError>)
        ensures
            old(self).request_outcome(final(self), sandbox.spec_id(), LifecycleOp::Run, r),
    {
        self.request(sandbox, LifecycleOp::Run)
    }

    /// Stops a running sandbox; succeeds at once on an unknown or stopped
    /// one; refuses a removed one with `AlreadyRemoved`.
    pub fn stop(&mut self, sandbox: &SandboxData) -> (r: Result<(), StorageError>)
        ensures
            old(self).request_outcome(final(self), sandbox.spec_id(), LifecycleOp::Stop, r),
    {
        self.request(sandbox, LifecycleOp::Stop)
    }

    /// Removes a sandbox in any state but `Removed`; succeeds at once on a
    /// removed one.
    pub fn remove(&mut self, sandbox: &SandboxData) -> (r: Result<(), StorageError>)
        ensures
            old(self).request_outcome(final(self), sandbox.spec_id(), LifecycleOp::Remove, r),
    {
        self.request(sandbox, LifecycleOp::Remove)
    }

    /// Whether `sandbox` is ready: false unless it is running, in which case
    /// the backend's own readiness check answers. No state changes.
    pub fn ready(&mut self, sandbox: &SandboxData) -> (r: Result<bool, StorageError>)
        ensures
            final(self).data_view() == old(self).data_view(),
            final(self).states() == old(self).states(),
            old(self).state_of(sandbox.spec_id()) != SandboxState::Running ==> {
                &&& r == Ok::<bool, StorageError>(false)
                &&& final(self).backend() == old(self).backend()
            },
            r == Ok::<bool, StorageError>(true) ==> old(self).state_of(sandbox.spec_id())
                == SandboxState::Running,
            r is Err ==> r->Err_0 is Backend,
    {
        match self.sandbox_state(sandbox) {
            SandboxState::Running => {
                let answer = self.implementation.ready(sandbox);
                ready_answer(answer)
            },
            _ => Ok(false),
        }
    }

    /// The configuration this manager was built with.
    pub fn data(&self) -> (r: &ContainerStorageData)
        ensures
            r@ == self.data_view(),
    {
        &self.data
    }

    /// The backend.
    pub fn implementation(&self) -> (r: &T)
        ensures
            *r == self.backend(),
    {
        &self.implementation
    }
}

/// Removing is idempotent: once a `remove` of a sandbox has succeeded, the
/// sandbox is `Removed`, and a second `remove` succeeds without calling the
/// backend or changing any state.
pub proof fn lemma_remove_twice<T: Store + Default>(
    m0: ContainerStorageManager<T>,
    m1: ContainerStorageManager<T>,
    m2: ContainerStorageManager<T>,
    id: u64,
    r1: Result<(), StorageError>,
    r2: Result<(), StorageError>,
)
    requires
        m0.request_outcome(&m1, id, LifecycleOp::Remove, r1),
        m1.request_outcome(&m2, id, LifecycleOp::Remove, r2),
        r1 is Ok,
    ensures
        m1.state_of(id) == SandboxState::Removed,
        r2 is Ok,
        m2.states() == m1.states(),
        m2.backend() == m1.backend(),
{
}

/// A stopped sandbox can be run again, a removed one cannot. When `run`
/// and then `stop` succeed, a following `run` that succeeds leaves the
/// sandbox `Running`; when `run` and then `remove` succeed, a following
/// `run` fails with `AlreadyRemoved`.
pub proof fn lemma_run_after_stop_or_remove<T: Store + Default>(
    m0: ContainerStorageManager<T>,
    m1: ContainerStorageManager<T>,
    m2: ContainerStorageManager<T>,
    m3: ContainerStorageManager<T>,
    id: u64,
    second: LifecycleOp,
    r1: Result<(), StorageError>,
    r2: Result<(), StorageError>,
    r3: Result<(), StorageError>,
)
    requires
        second == LifecycleOp::Stop || second == LifecycleOp::Remove,
        m0.request_outcome(&m1, id, LifecycleOp::Run, r1),
        m1.request_outcome(&m2, id, second, r2),
        m2.request_outcome(&m3, id, LifecycleOp::Run, r3),
        r1 is Ok,
        r2 is Ok,
    ensures
        m1.state_of(id) == SandboxState::Running,
        second == LifecycleOp::Stop ==> m2.state_of(id) == SandboxState::Stopped,
        second == LifecycleOp::Stop && r3 is Ok ==> m3.state_of(id) == SandboxState::Running,
        second == LifecycleOp::Remove ==> r3 == Err::<(), StorageError>(
            StorageError::Lifecycle(LifecycleError::AlreadyRemoved),
        ),
        second == LifecycleOp::Remove ==> m3.state_of(id) == SandboxState::Removed,
{
}

/// Requests on one sandbox, taken one at a time in either order, leave it in
/// a single well-defined state. From any state but `Removed`, a `run` and a
/// `stop` that both succeed leave the sandbox in the state the later one asks
/// for; whatever the results, it ends `Running`, `Stopped` or where it began;
/// and no other sandbox changes.
pub proof fn lemma_run_stop_settle<T: Store + Default>(
    m0: ContainerStorageManager<T>,
    m1: ContainerStorageManager<T>,
    m2: ContainerStorageManager<T>,
    id: u64,
    first: LifecycleOp,
    second: LifecycleOp,
    r1: Result<(), StorageError>,
    r2: Result<(), StorageError>,
)
    requires
        m0.state_of(id) != SandboxState::Removed,
        (first == LifecycleOp::Run && second == LifecycleOp::Stop) || (first == LifecycleOp::Stop
            && second == LifecycleOp::Run),
        m0.request_outcome(&m1, id, first, r1),
        m1.request_outcome(&m2, id, second, r2),
    ensures
        r1 is Ok && r2 is Ok && second == LifecycleOp::Stop ==> m2.state_of(id)
            == SandboxState::Stopped,
        r1 is Ok && r2 is Ok && second == LifecycleOp::Run ==> m2.state_of(id)
            == SandboxState::Running,
        m2.state_of(id) == SandboxState::Running || m2.state_of(id) == SandboxState::Stopped
            || m2.state_of(id) == m0.state_of(id),
        forall|other: u64| other != id ==> m2.state_of(other) == m0.state_of(other),
{
}

/// A sandbox that was never run is never `Running`, so `ready` reports false
/// for it. `ms` is a history of one manager from its creation, with no
/// sandbox tracked: each step is a `run`, `stop` or `remove` (of any
/// sandbox, as `ops` and `ids` say) or a step that leaves every state as it
/// was, such as `ready`. If no step runs sandbox `id`, then `id` is not
/// `Running` at any point of the history.
pub proof fn lemma_never_run_never_running<T: Store + Default>(
    ms: Seq<ContainerStorageManager<T>>,
    ids: Seq<u64>,
    ops: Seq<LifecycleOp>,
    rs: Seq<Result<(), StorageError>>,
    id: u64,
)
    requires
        ms.len() == ids.len() + 1,
        ops.len() == ids.len(),
        rs.len() == ids.len(),
        ms[0].states() == Map::<u64, SandboxState>::empty(),
        forall|i: int|
            0 <= i < ids.len() ==> #[trigger] ms[i].request_outcome(&ms[i + 1], ids[i], ops[i], rs[i])
                || ms[i + 1].states() == ms[i].states(),
        forall|i: int| 0 <= i < ids.len() ==> !(ids[i] == id && #[trigger] ops[i] == LifecycleOp::Run),
    ensures
        forall|i: int| 0 <= i < ms.len() ==> #[trigger] ms[i].state_of(id) != SandboxState::Running,
    decreases ids.len(),
{
    if ids.len() > 0 {
        let n = ids.len() - 1;
        lemma_never_run_never_running(
            ms.drop_last(),
            ids.drop_last(),
            ops.drop_last(),
            rs.drop_last(),
            id,
        );
        assert(ms.drop_last()[n as int].state_of(id) != SandboxState::Running);
        assert(ms[n as int].state_of(id) != SandboxState::Running);
        if ms[n as int].request_outcome(&ms[n + 1], ids[n as int], ops[n as int], rs[n as int]) {
            if ops[n as int] == LifecycleOp::Run {
                assert(ids[n as int] != id);
            }
        }
        assert(ms[n + 1].state_of(id) != SandboxState::Running);
        assert forall|i: int| 0 <= i < ms.len() implies #[trigger] ms[i].state_of(id)
            != SandboxState::Running by {
            if i < ms.len() - 1 {
                assert(ms.drop_last()[i] == ms[i]);
            }
        }
    }
}

} // verus!

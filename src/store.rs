//! The capability set that a storage backend offers, and the values that
//! pass through it.

use vstd::prelude::*;

verus! {

/// The identity of one sandbox instance, stable and unique for the life of
/// a manager. The storage core uses it only as a key.
#[derive(Clone, Copy, Debug, PartialEq, Eq, Structural)]
pub struct SandboxData {
    id: u64,
}

impl SandboxData {
    pub fn new(id: u64) -> (r: SandboxData)
        ensures
            r.spec_id() == id,
    {
        SandboxData { id }
    }

    pub closed spec fn spec_id(&self) -> u64 {
        self.id
    }

    pub fn id(&self) -> (r: u64)
        ensures
            r == self.spec_id(),
    {
        self.id
    }
}

/// A failure reported by a backend. The manager passes it on unchanged.
#[derive(Debug)]
pub struct BackendError {
    message: String,
}

impl BackendError {
    pub fn new(message: String) -> (r: BackendError)
        ensures
            r.spec_message() == message@,
    {
        BackendError { message }
    }

    pub closed spec fn spec_message(&self) -> Seq<char> {
        self.message@
    }

    pub fn message(&self) -> (r: &String)
        ensures
            r@ == self.spec_message(),
    {
        &self.message
    }
}

/// A storage backend. Each operation has a default, so that a backend needs
/// to supply only the operations it cares about: `run`, `stop` and `remove`
/// succeed without effect, and `ready` reports not ready.
pub trait Store {
    /// Run a previously created sandbox.
    fn run(&mut self, sandbox: &SandboxData) -> (r: Result<(), BackendError>)
        default_ensures
            r is Ok,
    {
        Ok(())
    }

    /// Stop a previously started sandbox.
    fn stop(&mut self, sandbox: &SandboxData) -> (r: Result<(), BackendError>)
        default_ensures
            r is Ok,
    {
        Ok(())
    }

    /// Remove a sandbox.
    fn remove(&mut self, sandbox: &SandboxData) -> (r: Result<(), BackendError>)
        default_ensures
            r is Ok,
    {
        Ok(())
    }

    /// Whether a sandbox is ready: it should be when a previous `run`
    /// succeeded and it has been neither stopped nor removed since.
    fn ready(&mut self, sandbox: &SandboxData) -> (r: Result<bool, BackendError>)
        default_ensures
            r matches Ok(b) && !b,
    {
        Ok(false)
    }
}

} // verus!

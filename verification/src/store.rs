use vstd::prelude::*;

use crate::error::ServiceError;

verus! {

/// A store of message bodies in insertion order. It makes no concurrency
/// promises of its own: it is safe only because a single actor owns it and
/// applies one command at a time.
///
/// The contract allows a fallible backing store; an operation that fails
/// must leave the contents exactly as they were. A store that declares
/// itself `infallible` owes success on every operation.
pub trait StateStore: Sized {
    /// The stored message bodies, in insertion order.
    spec fn contents(&self) -> Seq<Seq<char>>;

    /// Whether every operation on this store is guaranteed to succeed.
    spec fn infallible(&self) -> bool;

    /// Appends `payload` verbatim to the contents; never reorders and never
    /// removes anything.
    fn create(&mut self, payload: String) -> (r: Result<(), ServiceError>)
        ensures
            r is Ok ==> final(self).contents() == old(self).contents().push(payload@),
            r is Err ==> final(self).contents() == old(self).contents(),
            final(self).infallible() == old(self).infallible(),
            old(self).infallible() ==> r is Ok,
    ;

    /// Returns a snapshot copy of the current contents, in insertion order;
    /// the copy is independent of later mutations.
    fn list(&self) -> (r: Result<Vec<String>, ServiceError>)
        ensures
            r matches Ok(v) ==> v.deep_view() == self.contents(),
            self.infallible() ==> r is Ok,
    ;
}

/// The in-memory store: a vector of message bodies. Its operations always
/// succeed.
pub type InMemoryStateStore = Vec<String>;

impl StateStore for InMemoryStateStore {
    open spec fn contents(&self) -> Seq<Seq<char>> {
        self.deep_view()
    }

    open spec fn infallible(&self) -> bool {
        true
    }

    fn create(&mut self, payload: String) -> (r: Result<(), ServiceError>) {
        let ghost before = self.deep_view();
        let ghost p = payload@;
        self.push(payload);
        proof {
            assert(self.deep_view() =~= before.push(p));
        }
        Ok(())
    }

    fn list(&self) -> (r: Result<Vec<String>, ServiceError>) {
        let snapshot = self.clone();
        proof {
            assert(snapshot.deep_view() =~= self.deep_view());
        }
        Ok(snapshot)
    }
}

} // verus!

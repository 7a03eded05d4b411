use vstd::prelude::*;
use crate::collection::CollectionEntry;
use crate::collection::KeyedCollectionStore;
use crate::error::CallError;
use crate::scalar::ScalarStore;
use crate::scalar::composed_text;
use crate::scalar::confirmation_text;
use crate::scalar::default_scalar;

verus! {

/// A call a remote caller can make, by entry-point name and arguments.
#[derive(Debug)]
pub enum Request {
    ListCollectionKeys,
    GetCollectionItems { key: String },
    PutCollectionEntry { entry: CollectionEntry },
    ReadScalar { suffix: String },
    ReplaceScalar { value: String },
}

/// The value a call returns on normal completion.
#[derive(Debug)]
pub enum Response {
    /// All stored keys, for a key listing.
    Keys(Vec<String>),
    /// The item sequence stored for the requested key.
    Items(Vec<String>),
    /// A put has only its side effect; it returns no value.
    Done,
    /// A composed or confirmation text from the scalar store.
    Text(String),
}

/// The lifecycle of a single call.
#[derive(Clone, Copy, Debug, PartialEq, Eq, Structural)]
pub enum CallState {
    Received,
    Executing,
    Committed,
    RolledBack,
}

/// The transitions the executor admits between call states. A call is
/// executed once received; execution ends committed on normal completion
/// and rolled back on abnormal termination; a finished call never moves on.
pub open spec fn step_allowed(pre: CallState, post: CallState) -> bool {
    match pre {
        CallState::Received => post is Executing,
        CallState::Executing => post is Committed || post is RolledBack,
        CallState::Committed => false,
        CallState::RolledBack => false,
    }
}

/// The terminal state of a call with outcome `r`: committed on a normal
/// return, rolled back on an abnormal termination.
pub open spec fn terminal_state(r: Result<Response, CallError>) -> CallState {
    if r is Ok {
        CallState::Committed
    } else {
        CallState::RolledBack
    }
}

/// Whatever a call's outcome, its lifecycle `Received -> Executing ->
/// terminal` is a pair of allowed transitions, and its terminal state
/// admits no further transition.
pub proof fn lemma_call_lifecycle(r: Result<Response, CallError>)
    ensures
        step_allowed(CallState::Received, CallState::Executing),
        step_allowed(CallState::Executing, terminal_state(r)),
        forall|next: CallState| !step_allowed(terminal_state(r), next),
{
}

impl Request {
    /// Query calls must not mutate any store.
    pub open spec fn is_query(self) -> bool {
        match self {
            Request::ListCollectionKeys => true,
            Request::GetCollectionItems { .. } => true,
            Request::ReadScalar { .. } => true,
            Request::PutCollectionEntry { .. } => false,
            Request::ReplaceScalar { .. } => false,
        }
    }

    /// Update calls may mutate; they commit only on normal completion.
    pub open spec fn is_update(self) -> bool {
        !self.is_query()
    }
}

/// The call-dispatch surface over both stores. It owns the stores for the
/// lifetime of the service, executes each call to completion, and
/// guarantees that a call that terminates abnormally leaves no observable
/// trace of partial mutation.
pub struct CallExecutor {
    collections: KeyedCollectionStore,
    scalar: ScalarStore,
}

impl CallExecutor {
    /// The abstract state of the keyed collection store.
    pub closed spec fn collections_view(self) -> Map<Seq<char>, Seq<Seq<char>>> {
        self.collections@
    }

    /// The abstract state of the scalar store.
    pub closed spec fn scalar_view(self) -> Seq<char> {
        self.scalar@
    }

    /// The executor's invariant: the collection store's keys are unique.
    pub closed spec fn wf(self) -> bool {
        self.collections.wf()
    }

    /// A fresh executor owns a fresh pair of stores: no collection entries,
    /// and the scalar default.
    pub fn new() -> (e: Self)
        ensures
            e.wf(),
            e.collections_view() == Map::<Seq<char>, Seq<Seq<char>>>::empty(),
            e.scalar_view() == default_scalar(),
    {
        CallExecutor { collections: KeyedCollectionStore::new(), scalar: ScalarStore::new() }
    }

    /// Query: all currently stored collection keys, in first-insertion
    /// order — no duplicates, and as a set exactly the stored keys.
    pub fn list_collection_keys(&self) -> (keys: Vec<String>)
        requires
            self.wf(),
        ensures
            keys.deep_view().no_duplicates(),
            keys.deep_view().to_set() == self.collections_view().dom(),
            keys@.len() == self.collections_view().dom().len(),
    {
        self.collections.list_keys()
    }

    /// Query: the item sequence stored for `key`. Terminates abnormally
    /// with `NotFound` — and only then — when the key is absent.
    pub fn get_collection_items(&self, key: &String) -> (r: Result<Vec<String>, CallError>)
        requires
            self.wf(),
        ensures
            (r is Ok <==> self.collections_view().contains_key(key@)),
            (r matches Ok(items) ==> items.deep_view() == self.collections_view()[key@]),
            (r is Err ==> r == Err::<Vec<String>, CallError>(CallError::NotFound)),
    {
        self.collections.get_items(key)
    }

    /// Update: insert the entry if its key is absent, or fully replace the
    /// stored item sequence if present. Always succeeds; the scalar store
    /// is untouched.
    pub fn put_collection_entry(&mut self, entry: CollectionEntry)
        requires
            old(self).wf(),
        ensures
            final(self).wf(),
            final(self).collections_view() == old(self).collections_view().insert(
                entry.key@,
                entry.items.deep_view(),
            ),
            final(self).scalar_view() == old(self).scalar_view(),
    {
        let CollectionEntry { key, items } = entry;
        self.collections.put(key, items);
    }

    /// Query: the stored scalar composed with the caller's suffix. Never
    /// fails.
    pub fn read_scalar(&self, suffix: &String) -> (r: String)
        ensures
            r@ == composed_text(self.scalar_view(), suffix@),
    {
        self.scalar.read(suffix)
    }

    /// Update: replace the scalar and answer a confirmation embedding the
    /// new value. Never fails; the collection store is untouched.
    pub fn replace_scalar(&mut self, value: String) -> (r: String)
        requires
            old(self).wf(),
        ensures
            final(self).wf(),
            final(self).scalar_view() == value@,
            final(self).collections_view() == old(self).collections_view(),
            r@ == confirmation_text(value@),
    {
        self.scalar.replace(value)
    }

    /// Execute one call to completion against the committed state.
    ///
    /// Queries leave the state exactly as it was. An update that completes
    /// normally commits its mutation; a call that terminates abnormally
    /// (`Err`) leaves the state exactly as of the start of the call — no
    /// partial mutation survives.
    pub fn execute(&mut self, req: Request) -> (r: Result<Response, CallError>)
        requires
            old(self).wf(),
        ensures
            final(self).wf(),
            (r is Err ==> *final(self) == *old(self)),
            (req.is_query() ==> *final(self) == *old(self)),
            (req matches Request::ListCollectionKeys ==> (r matches Ok(resp)
                && resp matches Response::Keys(keys) && keys.deep_view().no_duplicates()
                && keys.deep_view().to_set() == old(self).collections_view().dom())),
            (req matches Request::GetCollectionItems { key } ==> {
                &&& (r is Ok <==> old(self).collections_view().contains_key(key@))
                &&& (r matches Ok(resp) ==> (resp matches Response::Items(items)
                    && items.deep_view() == old(self).collections_view()[key@]))
                &&& (r is Err ==> r == Err::<Response, CallError>(CallError::NotFound))
            }),
            (req matches Request::PutCollectionEntry { entry } ==> {
                &&& (r matches Ok(resp) && resp is Done)
                &&& final(self).collections_view() == old(self).collections_view().insert(
                    entry.key@,
                    entry.items.deep_view(),
                )
                &&& final(self).scalar_view() == old(self).scalar_view()
            }),
            (req matches Request::ReadScalar { suffix } ==> (r matches Ok(resp)
                && resp matches Response::Text(t)
                && t@ == composed_text(old(self).scalar_view(), suffix@))),
            (req matches Request::ReplaceScalar { value } ==> {
                &&& (r matches Ok(resp) && resp matches Response::Text(t)
                    && t@ == confirmation_text(value@))
                &&& final(self).scalar_view() == value@
                &&& final(self).collections_view() == old(self).collections_view()
            }),
    {
        match req {
            Request::ListCollectionKeys => Ok(Response::Keys(self.list_collection_keys())),
            Request::GetCollectionItems { key } => match self.get_collection_items(&key) {
                Ok(items) => Ok(Response::Items(items)),
                Err(e) => Err(e),
            },
            Request::PutCollectionEntry { entry } => {
                self.put_collection_entry(entry);
                Ok(Response::Done)
            },
            Request::ReadScalar { suffix } => Ok(Response::Text(self.read_scalar(&suffix))),
            Request::ReplaceScalar { value } => Ok(Response::Text(self.replace_scalar(value))),
        }
    }
}

} // verus!

use std::sync::Arc;

use vstd::prelude::*;
use vstd::rwlock::{RwLock, RwLockPredicate};

use crate::error::MaelstromError;
use crate::json::{all_text, get_field, lookup, required_text, required_text_list, Fields, JsonValue};

verus! {

/// The node's identity: its own id and the ids of all nodes, in order.
#[derive(Debug, Default)]
pub struct NodeState {
    pub node_id: String,
    pub node_ids: Vec<String>,
}

/// The strings of a list of ids, as character sequences.
pub open spec fn ids_view(ids: Seq<String>) -> Seq<Seq<char>> {
    ids.map_values(|s: String| s@)
}

impl NodeState {
    /// The state before the handshake: no id, no peers.
    pub fn empty() -> (r: Self)
        ensures
            r.node_id@ == Seq::<char>::empty(),
            r.node_ids@.len() == 0,
    {
        NodeState { node_id: String::new(), node_ids: Vec::new() }
    }

    /// A copy of the state.
    pub fn duplicate(&self) -> (r: Self)
        ensures
            r.node_id@ == self.node_id@,
            ids_view(r.node_ids@) == ids_view(self.node_ids@),
    {
        let mut ids: Vec<String> = Vec::new();
        let mut i: usize = 0;
        while i < self.node_ids.len()
            invariant
                i <= self.node_ids.len(),
                ids@.len() == i,
                forall|j: int| 0 <= j < i ==> ids@[j]@ == self.node_ids@[j]@,
            decreases self.node_ids.len() - i,
        {
            ids.push(self.node_ids[i].clone());
            i = i + 1;
        }
        assert(ids_view(ids@) =~= ids_view(self.node_ids@));
        NodeState { node_id: self.node_id.clone(), node_ids: ids }
    }

    /// The state that a handshake payload sets: its `node_id` string and its
    /// `node_ids` array of strings. Anything else is a malformed request.
    pub fn from_init(extra: &Fields) -> (r: Result<NodeState, MaelstromError>)
        ensures
            r is Ok <==> (required_text(lookup(extra@, "node_id"@)) is Some
                && required_text_list(lookup(extra@, "node_ids"@)) is Some),
            r is Ok ==> r->Ok_0.node_id@ == required_text(lookup(extra@, "node_id"@))->0,
            r is Ok ==> ids_view(r->Ok_0.node_ids@) == required_text_list(
                lookup(extra@, "node_ids"@),
            )->0,
            r is Err ==> r->Err_0 == MaelstromError::MalformedRequest,
    {
        let node_id = match get_field(extra, "node_id") {
            Some(JsonValue::Str(s)) => s.clone(),
            _ => return Err(MaelstromError::MalformedRequest),
        };
        let items = match get_field(extra, "node_ids") {
            Some(JsonValue::Array(items)) => items,
            _ => return Err(MaelstromError::MalformedRequest),
        };
        let mut node_ids: Vec<String> = Vec::new();
        let mut i: usize = 0;
        while i < items.len()
            invariant
                lookup(extra@, "node_ids"@) == Some(JsonValue::Array(*items)),
                i <= items.len(),
                node_ids@.len() == i,
                forall|j: int| 0 <= j < i ==> (#[trigger] items@[j]) is Str,
                forall|j: int| 0 <= j < i ==> node_ids@[j]@ == (#[trigger] items@[j])->Str_0@,
            decreases items.len() - i,
        {
            match &items[i] {
                JsonValue::Str(s) => node_ids.push(s.clone()),
                _ => {
                    assert(!(items@[i as int] is Str));
                    assert(!all_text(items@));
                    return Err(MaelstromError::MalformedRequest);
                },
            }
            i = i + 1;
        }
        assert(ids_view(node_ids@) =~= items@.map_values(|x: JsonValue| x->Str_0@));
        Ok(NodeState { node_id, node_ids })
    }
}

/// Admits every node state: the lock guards access, not content.
pub struct AnyNodeState;

impl RwLockPredicate<NodeState> for AnyNodeState {
    open spec fn inv(self, v: NodeState) -> bool {
        true
    }
}

/// A handle to the node state shared by all handlers: many readers or one
/// writer at a time, so a reader sees a state whole, never a partial write.
#[derive(Clone)]
pub struct SharedState {
    lock: Arc<RwLock<NodeState, AnyNodeState>>,
}

impl SharedState {
    /// A handle to a fresh state with no id and no peers.
    pub fn new() -> (r: Self) {
        SharedState { lock: Arc::new(RwLock::new(NodeState::empty(), Ghost(AnyNodeState))) }
    }

    /// A copy of the state as it stands, taken under shared access.
    pub fn snapshot(&self) -> (r: NodeState) {
        let handle = self.lock.acquire_read();
        let copy = handle.borrow().duplicate();
        handle.release_read();
        copy
    }

    /// Replaces the state whole, under exclusive access.
    pub fn replace(&self, state: NodeState) {
        let (_previous, handle) = self.lock.acquire_write();
        handle.release_write(state);
    }
}

} // verus!

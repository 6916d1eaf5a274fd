//! What a reconciliation is to do with a resource.

use crate::resources::WazuhCluster;
use vstd::prelude::*;

verus! {

/// The three intents of a reconciliation.
#[derive(Clone, Copy, Debug, PartialEq, Eq, Structural)]
pub enum WazuhClusterAction {
    Create,
    Update,
    Delete,
}

/// The intent that the state of a resource calls for: deletion, once it has
/// been requested; creation, while the resource carries no finalizer; an
/// update otherwise.
pub open spec fn classify(cluster: WazuhCluster) -> WazuhClusterAction {
    if cluster.deletion_requested() {
        WazuhClusterAction::Delete
    } else if !cluster.has_finalizers() {
        WazuhClusterAction::Create
    } else {
        WazuhClusterAction::Update
    }
}

pub fn determine_action(cluster: &WazuhCluster) -> (action: WazuhClusterAction)
    ensures
        action == classify(*cluster),
        cluster.deletion_timestamp is Some ==> action == WazuhClusterAction::Delete,
        cluster.deletion_timestamp is None && !cluster.has_finalizers() ==> action
            == WazuhClusterAction::Create,
        cluster.deletion_timestamp is None && cluster.has_finalizers() ==> action
            == WazuhClusterAction::Update,
{
    if cluster.deletion_timestamp.is_some() {
        WazuhClusterAction::Delete
    } else if match &cluster.finalizers {
        Some(finalizers) => finalizers.len() == 0,
        None => true,
    } {
        WazuhClusterAction::Create
    } else {
        WazuhClusterAction::Update
    }
}

} // verus!

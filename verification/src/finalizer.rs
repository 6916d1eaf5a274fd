//! The cleanup marker on a cluster resource.

use crate::api::{strings_view, Request, RequestView};
use vstd::prelude::*;
use vstd::string::StringExecFns;

verus! {

/// The finalizer that defers the removal of a cluster resource until its
/// workload is gone.
pub const FINALIZER: &'static str = "wazuh.adorsys.team/finalizer";

/// The request that puts the finalizer on the cluster resource `name` in
/// `namespace`. It sets the whole list, so sending it again changes nothing.
pub fn add_finalizer(name: &str, namespace: &str) -> (req: Request)
    ensures
        req@ == (RequestView::PatchFinalizers {
            namespace: namespace@,
            name: name@,
            finalizers: Some(seq![FINALIZER@]),
        }),
{
    let mut finalizers: Vec<String> = Vec::new();
    finalizers.push(String::from_str(FINALIZER));
    assert(strings_view(finalizers@) =~= seq![FINALIZER@]);
    Request::PatchFinalizers {
        namespace: String::from_str(namespace),
        name: String::from_str(name),
        finalizers: Some(finalizers),
    }
}

/// The request that clears the finalizer list of the cluster resource `name`
/// in `namespace`.
pub fn delete_finalizer(name: &str, namespace: &str) -> (req: Request)
    ensures
        req@ == (RequestView::PatchFinalizers {
            namespace: namespace@,
            name: name@,
            finalizers: None,
        }),
{
    Request::PatchFinalizers {
        namespace: String::from_str(namespace),
        name: String::from_str(name),
        finalizers: None,
    }
}

} // verus!

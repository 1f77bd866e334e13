//! The reconciliation dispatcher: validates an instance, computes the worker
//! URL it is to be dispatched to, and decides the revisit interval handed
//! back to the watch framework.

use vstd::prelude::*;
use crate::common::{Action, ControllerResource, Error, MonitorResource};
use crate::text::{
    last_segment, last_segment_exec, lower_seq, trim_trailing_slashes, trim_trailing_slashes_exec,
};

verus! {

/// The worker URL for a kind: `{base}/{schema_version}/{lowercased_kind}`,
/// with trailing slashes trimmed from the base and the schema version taken
/// as the last `/`-separated segment of the kind's `group/version` string.
pub open spec fn worker_url_spec(
    base: Seq<char>,
    api_version: Seq<char>,
    kind_lower: Seq<char>,
) -> Seq<char> {
    trim_trailing_slashes(base) + seq!['/'] + last_segment(api_version) + seq!['/'] + kind_lower
}

/// Builds the worker URL for the kind `T` under the given base URL.
pub fn build_worker_url<T: MonitorResource>(base: &str) -> (r: String)
    ensures
        r@ == worker_url_spec(base@, T::spec_api_version(), T::spec_kind_lower()),
        r@ == trim_trailing_slashes(base@) + seq!['/'] + last_segment(T::spec_api_version())
            + seq!['/'] + lower_seq(T::spec_kind()),
{
    proof {
        T::lemma_kind_lower();
    }
    let api_version = T::api_version();
    let version = last_segment_exec(api_version.as_str());
    let kind_lower = T::kind_lower();
    let mut url = trim_trailing_slashes_exec(base);
    url.append("/");
    url.append(version.as_str());
    url.append("/");
    url.append(kind_lower.as_str());
    proof {
        reveal_strlit("/");
        assert("/"@ =~= seq!['/']);
        assert(url@ =~= worker_url_spec(base@, T::spec_api_version(), T::spec_kind_lower()));
    }
    url
}

/// What a successful reconciliation decides: the revisit interval to return
/// to the watch framework, and the worker URL the instance is to be
/// dispatched to.
pub struct Dispatch {
    pub action: Action,
    pub worker_url: String,
}

/// Reconciles one monitor instance: validates it and, when it is valid,
/// decides the dispatch. An invalid instance is rejected before any dispatch
/// target is produced, and the caller must not contact the worker for it.
/// Transport failures of the dispatch itself never fail a reconciliation.
pub fn reconcile<T: MonitorResource>(obj: &T, base_url: &str) -> (r: Result<Dispatch, Error>)
    ensures
        r is Ok <==> obj.valid(),
        r matches Ok(d) ==> {
            &&& d.action.requeue_after_secs == obj.success_requeue_secs()
            &&& d.worker_url@ == worker_url_spec(
                base_url@,
                T::spec_api_version(),
                T::spec_kind_lower(),
            )
        },
{
    match obj.validate() {
        Ok(()) => {
            let worker_url = build_worker_url::<T>(base_url);
            Ok(Dispatch { action: obj.success_policy(), worker_url })
        },
        Err(e) => Err(e),
    }
}

/// Reconciles one notifier instance: validates it and returns the kind's
/// revisit interval. Notifiers are passive; no check is dispatched for them.
pub fn reconcile_notifier<T: ControllerResource>(obj: &T) -> (r: Result<Action, Error>)
    ensures
        r is Ok <==> obj.valid(),
        r matches Ok(a) ==> a.requeue_after_secs == obj.success_requeue_secs(),
{
    match obj.validate() {
        Ok(()) => Ok(obj.success_policy()),
        Err(e) => Err(e),
    }
}

/// The action taken after a failed reconciliation: the kind's short fixed
/// backoff, independent of the error.
pub fn error_policy<T: ControllerResource>(obj: &T, _error: &Error) -> (a: Action)
    ensures
        a.requeue_after_secs == obj.error_requeue_secs(),
{
    obj.error_policy()
}

} // verus!

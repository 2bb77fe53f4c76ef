//! The answers of the REST interface.
use vstd::prelude::*;
use crate::ids::{hyphenated, id_to_string, parse_id, parsed_id};
use crate::session::{first_worker_index, has_worker, Session};
use crate::text::owned;
use crate::web::events::{web_state, WorkerLifecycleState};
use crate::worker::Worker;

verus! {

broadcast use vstd::string::group_string_axioms;

/// The body of an error answer.
#[derive(Clone, Debug)]
pub struct ErrorResponse {
    pub error: String,
}

/// A worker as the REST interface describes it.
#[derive(Clone, Debug)]
pub struct WorkerInfo {
    pub worker_id: String,
    pub name: String,
    pub lifecycle_state: WorkerLifecycleState,
}

/// An error answer: its HTTP status and body.
#[derive(Clone, Debug)]
pub struct ApiError {
    pub status: u16,
    pub body: ErrorResponse,
}

/// `i` describes worker `w`.
pub open spec fn describes(i: WorkerInfo, w: Worker) -> bool {
    &&& i.worker_id@ == hyphenated(w.id)
    &&& i.name == w.name
    &&& i.lifecycle_state == web_state(w.lifecycle_state)
}

fn worker_info(w: &Worker) -> (i: WorkerInfo)
    ensures
        describes(i, *w),
{
    WorkerInfo { worker_id: id_to_string(w.id), name: w.name.clone(), lifecycle_state: w.lifecycle_state.into() }
}

/// Every worker, in order (`GET /api/workers`).
pub fn worker_infos(session: &Session) -> (r: Vec<WorkerInfo>)
    ensures
        r@.len() == session.workers_view().len(),
        forall|k: int| 0 <= k < r@.len() ==> describes(#[trigger] r@[k], session.workers_view()[k]),
{
    let ws = session.get_workers();
    let mut r: Vec<WorkerInfo> = Vec::new();
    let mut i: usize = 0;
    while i < ws.len()
        invariant
            i <= ws@.len(),
            ws@ == session.workers_view(),
            r@.len() == i,
            forall|k: int| 0 <= k < i ==> describes(#[trigger] r@[k], ws@[k]),
        decreases ws.len() - i,
    {
        r.push(worker_info(&ws[i]));
        i = i + 1;
    }
    r
}

/// One worker (`GET /api/workers/{id}`): 400 when the identifier is not a UUID, 404
/// when no worker has it.
pub fn worker_detail(session: &Session, worker_id: &str) -> (r: Result<WorkerInfo, ApiError>)
    ensures
        match parsed_id(worker_id@) {
            None => r matches Err(e) && e.status == 400 && e.body.error@ == "Invalid worker ID"@,
            Some(id) => if has_worker(session.workers_view(), id) {
                r matches Ok(i) && describes(i, session.workers_view()[first_worker_index(session.workers_view(), id)])
            } else {
                r matches Err(e) && e.status == 404 && e.body.error@ == "Worker not found"@
            },
        },
{
    proof {
        reveal_strlit("Invalid worker ID");
        reveal_strlit("Worker not found");
    }
    let id = match parse_id(worker_id) {
        Some(id) => id,
        None => return Err(ApiError { status: 400, body: ErrorResponse { error: owned("Invalid worker ID") } }),
    };
    match session.get_worker(id) {
        Some(w) => Ok(worker_info(w)),
        None => Err(ApiError { status: 404, body: ErrorResponse { error: owned("Worker not found") } }),
    }
}

} // verus!

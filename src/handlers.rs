//! What each endpoint does with the store, from the values that the
//! transport has read to the value that it answers with.
use vstd::prelude::*;

use crate::errors::{
    is_not_found, is_validation, status_of, AppError, EMPTY_TITLE_MESSAGE, INVALID_ID_MESSAGE,
};
use crate::ids::{id_text, parse_id, uuid_of_text, uuid_text};
use crate::models::{
    blank, patched, rejects_title, CreateTaskRequest, HealthResponse, Task, UpdateTaskRequest,
    SERVICE_VERSION,
};
use crate::state::{lists_exactly, AppState};

verus! {

/// The endpoints of the service.
#[derive(Clone, Copy, Debug, PartialEq, Eq)]
pub enum Endpoint {
    Health,
    ListTasks,
    GetTask,
    CreateTask,
    UpdateTask,
    DeleteTask,
}

pub open spec fn success_status_of(e: Endpoint) -> u16 {
    match e {
        Endpoint::CreateTask => 201,
        Endpoint::DeleteTask => 204,
        _ => 200,
    }
}

impl Endpoint {
    /// The status of a successful answer: 201 for a creation, 204 for a
    /// deletion, 200 otherwise.
    pub fn success_status(&self) -> (r: u16)
        ensures
            r == success_status_of(*self),
    {
        match self {
            Endpoint::CreateTask => 201,
            Endpoint::DeleteTask => 204,
            _ => 200,
        }
    }
}

/// The HTTP status that an endpoint's outcome is answered with.
pub fn response_status<T>(endpoint: Endpoint, outcome: &Result<T, AppError>) -> (r: u16)
    ensures
        match outcome {
            Ok(_) => r == success_status_of(endpoint),
            Err(e) => r == status_of(*e),
        },
{
    match outcome {
        Ok(_) => endpoint.success_status(),
        Err(e) => e.status_code(),
    }
}

/// The message of a request for an id that no task has.
pub open spec fn not_found_message(id: u128) -> Seq<char> {
    "Task with id "@ + uuid_text(id) + " not found"@
}

/// The error for an id that no task has.
fn not_found(id: u128) -> (r: AppError)
    ensures
        is_not_found(r, not_found_message(id)),
{
    let mut m = String::from_str("Task with id ");
    let t = id_text(id);
    m.append(t.as_str());
    m.append(" not found");
    AppError::NotFound(m)
}

/// Reads the task id of a request path.
fn task_id(path: &str) -> (r: Result<u128, AppError>)
    ensures
        match uuid_of_text(path@) {
            Some(id) => r == Ok::<u128, AppError>(id),
            None => r is Err && is_validation(r->Err_0, INVALID_ID_MESSAGE@),
        },
{
    match parse_id(path) {
        Some(id) => Ok(id),
        None => Err(AppError::Validation(String::from_str(INVALID_ID_MESSAGE))),
    }
}

/// `GET /health`: a healthy report, stamped now.
pub fn health_check() -> (r: HealthResponse)
    ensures
        r.status@ == "healthy"@,
        r.version@ == SERVICE_VERSION@,
{
    HealthResponse::ok()
}

/// `GET /api/v1/tasks`: every stored task.
pub fn get_tasks(state: &AppState) -> (r: Vec<Task>)
    requires
        state.wf(),
    ensures
        lists_exactly(r@, state@),
{
    state.list()
}

/// `GET /api/v1/tasks/{id}`: the task stored under the id in the path.
pub fn get_task(state: &AppState, path: &str) -> (r: Result<Task, AppError>)
    ensures
        match uuid_of_text(path@) {
            None => r is Err && is_validation(r->Err_0, INVALID_ID_MESSAGE@),
            Some(id) => if state@.contains_key(id) {
                r == Ok::<Task, AppError>(state@[id])
            } else {
                r is Err && is_not_found(r->Err_0, not_found_message(id))
            },
        },
{
    let id = task_id(path)?;
    match state.get(id) {
        Some(t) => Ok(t),
        None => Err(not_found(id)),
    }
}

/// `POST /api/v1/tasks`: stores a fresh task made from the request, unless
/// its title is blank.
pub fn create_task(state: &mut AppState, req: CreateTaskRequest) -> (r: Result<Task, AppError>)
    requires
        old(state).wf(),
    ensures
        final(state).wf(),
        r is Err <==> blank(req.title@),
        r is Err ==> is_validation(r->Err_0, EMPTY_TITLE_MESSAGE@) && final(state)@ == old(
            state,
        )@,
        r matches Ok(t) ==> {
            &&& t.title == req.title
            &&& t.description == req.description
            &&& !t.completed
            &&& t.created_at == t.updated_at
            &&& final(state)@ == old(state)@.insert(t.id, t)
        },
{
    let task = Task::create(req.title, req.description)?;
    state.insert(task.clone());
    Ok(task)
}

/// `PUT /api/v1/tasks/{id}`: applies the request's fields to the stored task.
pub fn update_task(state: &mut AppState, path: &str, req: UpdateTaskRequest) -> (r: Result<
    Task,
    AppError,
>)
    requires
        old(state).wf(),
    ensures
        final(state).wf(),
        r is Err ==> final(state)@ == old(state)@,
        match uuid_of_text(path@) {
            None => r is Err && is_validation(r->Err_0, INVALID_ID_MESSAGE@),
            Some(id) => if !old(state)@.contains_key(id) {
                r is Err && is_not_found(r->Err_0, not_found_message(id))
            } else if rejects_title(req.title) {
                r is Err && is_validation(r->Err_0, EMPTY_TITLE_MESSAGE@)
            } else {
                r matches Ok(t) && patched(t, old(state)@[id], req.title, req.description, req.completed)
                    && final(state)@ == old(state)@.insert(id, t)
            },
        },
{
    let id = task_id(path)?;
    let mut task = match state.get(id) {
        Some(t) => t,
        None => {
            return Err(not_found(id));
        },
    };
    task.apply_update(req.title, req.description, req.completed)?;
    state.insert(task.clone());
    Ok(task)
}

/// `DELETE /api/v1/tasks/{id}`: removes the task stored under the id.
pub fn delete_task(state: &mut AppState, path: &str) -> (r: Result<(), AppError>)
    requires
        old(state).wf(),
    ensures
        final(state).wf(),
        r is Err ==> final(state)@ == old(state)@,
        match uuid_of_text(path@) {
            None => r is Err && is_validation(r->Err_0, INVALID_ID_MESSAGE@),
            Some(id) => if old(state)@.contains_key(id) {
                r is Ok && final(state)@ == old(state)@.remove(id)
            } else {
                r is Err && is_not_found(r->Err_0, not_found_message(id))
            },
        },
{
    let id = task_id(path)?;
    if state.remove(id) {
        Ok(())
    } else {
        Err(not_found(id))
    }
}

} // verus!

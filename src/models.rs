use vstd::prelude::*;

use crate::clock::now_micros;
use crate::errors::{is_validation, AppError, EMPTY_TITLE_MESSAGE};
use crate::ids::fresh_id;

verus! {

/// The version reported by the health endpoint.
pub const SERVICE_VERSION: &'static str = "0.1.0";

/// Unicode's White_Space property, which `char::is_whitespace` tests.
pub open spec fn white_space(c: char) -> bool {
    let v = c as u32;
    (0x9 <= v && v <= 0xd) || v == 0x20 || v == 0x85 || v == 0xa0 || v == 0x1680 || (0x2000
        <= v && v <= 0x200a) || v == 0x2028 || v == 0x2029 || v == 0x202f || v == 0x205f || v
        == 0x3000
}

/// A text that trimming leaves empty: every character is white space.
pub open spec fn blank(s: Seq<char>) -> bool {
    forall|i: int| 0 <= i < s.len() ==> white_space(#[trigger] s[i])
}

/// Relies on char::is_whitespace: true exactly of the White_Space characters.
#[verifier::external_body]
fn is_white_space(c: char) -> (r: bool)
    ensures
        r == white_space(c),
{
    c.is_whitespace()
}

/// Whether `s` trims to the empty text.
pub fn is_blank(s: &str) -> (r: bool)
    ensures
        r == blank(s@),
{
    let n = s.unicode_len();
    let mut i: usize = 0;
    while i < n
        invariant
            n == s@.len(),
            i <= n,
            forall|j: int| 0 <= j < i ==> white_space(#[trigger] s@[j]),
        decreases n - i,
    {
        let c = s.get_char(i);
        if !is_white_space(c) {
            return false;
        }
        i = i + 1;
    }
    true
}

/// A todo item. The title is never blank while the task is stored.
#[derive(Debug, PartialEq, Eq)]
pub struct Task {
    pub id: u128,
    pub title: String,
    pub description: Option<String>,
    pub completed: bool,
    /// Microseconds since the Unix epoch, UTC.
    pub created_at: i64,
    /// Microseconds since the Unix epoch, UTC; refreshed by every change.
    pub updated_at: i64,
}

/// `new` is `old` with the supplied fields replaced and nothing else of its
/// content changed; its `updated_at` is left open.
pub open spec fn patched(
    new: Task,
    old: Task,
    title: Option<String>,
    description: Option<Option<String>>,
    completed: Option<bool>,
) -> bool {
    &&& new.id == old.id
    &&& new.title == (match title {
        Some(t) => t,
        None => old.title,
    })
    &&& new.description == (match description {
        Some(d) => d,
        None => old.description,
    })
    &&& new.completed == (match completed {
        Some(c) => c,
        None => old.completed,
    })
    &&& new.created_at == old.created_at
}

/// The supplied title, if any, is blank.
pub open spec fn rejects_title(title: Option<String>) -> bool {
    match title {
        Some(t) => blank(t@),
        None => false,
    }
}

fn clone_description(d: &Option<String>) -> (r: Option<String>)
    ensures
        r == *d,
{
    match d {
        Some(s) => Some(s.clone()),
        None => None,
    }
}

impl Clone for Task {
    fn clone(&self) -> (r: Self)
        ensures
            r == *self,
    {
        Task {
            id: self.id,
            title: self.title.clone(),
            description: clone_description(&self.description),
            completed: self.completed,
            created_at: self.created_at,
            updated_at: self.updated_at,
        }
    }
}

impl Task {
    /// The task's own invariant: its title is not blank.
    pub open spec fn wf(&self) -> bool {
        !blank(self.title@)
    }

    /// A fresh, open task with a new random id, created and updated now.
    pub fn new(title: String, description: Option<String>) -> (r: Task)
        ensures
            r.title == title,
            r.description == description,
            !r.completed,
            r.created_at == r.updated_at,
    {
        let now = now_micros();
        Task {
            id: fresh_id(),
            title,
            description,
            completed: false,
            created_at: now,
            updated_at: now,
        }
    }

    /// Validates the title and makes a fresh task of it.
    pub fn create(title: String, description: Option<String>) -> (r: Result<Task, AppError>)
        ensures
            r is Err <==> blank(title@),
            r is Err ==> is_validation(r->Err_0, EMPTY_TITLE_MESSAGE@),
            r matches Ok(t) ==> {
                &&& t.title == title
                &&& t.description == description
                &&& !t.completed
                &&& t.created_at == t.updated_at
                &&& t.wf()
            },
    {
        if is_blank(title.as_str()) {
            return Err(AppError::Validation(String::from_str(EMPTY_TITLE_MESSAGE)));
        }
        Ok(Task::new(title, description))
    }

    /// Replaces the supplied fields and sets `updated_at` to `now`.
    pub fn update_at(
        &mut self,
        title: Option<String>,
        description: Option<Option<String>>,
        completed: Option<bool>,
        now: i64,
    )
        ensures
            patched(*final(self), *old(self), title, description, completed),
            final(self).updated_at == now,
    {
        if let Some(t) = title {
            self.title = t;
        }
        if let Some(d) = description {
            self.description = d;
        }
        if let Some(c) = completed {
            self.completed = c;
        }
        self.updated_at = now;
    }

    /// Replaces the supplied fields and refreshes `updated_at` from the clock.
    pub fn update(
        &mut self,
        title: Option<String>,
        description: Option<Option<String>>,
        completed: Option<bool>,
    )
        ensures
            patched(*final(self), *old(self), title, description, completed),
    {
        let now = now_micros();
        self.update_at(title, description, completed, now);
    }

    /// A partial update: fails, changing nothing, where the supplied title is
    /// blank; otherwise as `update`.
    pub fn apply_update(
        &mut self,
        title: Option<String>,
        description: Option<Option<String>>,
        completed: Option<bool>,
    ) -> (r: Result<(), AppError>)
        ensures
            r is Err <==> rejects_title(title),
            r is Err ==> is_validation(r->Err_0, EMPTY_TITLE_MESSAGE@) && *final(self) == *old(
                self,
            ),
            r is Ok ==> patched(*final(self), *old(self), title, description, completed),
            old(self).wf() ==> final(self).wf(),
    {
        if let Some(t) = &title {
            if is_blank(t.as_str()) {
                return Err(AppError::Validation(String::from_str(EMPTY_TITLE_MESSAGE)));
            }
        }
        self.update(title, description, completed);
        Ok(())
    }
}

/// The body of a create request.
pub struct CreateTaskRequest {
    pub title: String,
    pub description: Option<String>,
}

/// The body of an update request. For the description, `None` leaves it as
/// it is, `Some(None)` clears it, `Some(Some(d))` sets it.
pub struct UpdateTaskRequest {
    pub title: Option<String>,
    pub description: Option<Option<String>>,
    pub completed: Option<bool>,
}

/// What the health endpoint answers.
pub struct HealthResponse {
    pub status: String,
    /// Microseconds since the Unix epoch, UTC.
    pub timestamp: i64,
    pub version: String,
}

impl HealthResponse {
    /// A healthy report, stamped now.
    pub fn ok() -> (r: HealthResponse)
        ensures
            r.status@ == "healthy"@,
            r.version@ == SERVICE_VERSION@,
    {
        HealthResponse {
            status: String::from_str("healthy"),
            timestamp: now_micros(),
            version: String::from_str(SERVICE_VERSION),
        }
    }
}

/// An update that supplies only `completed = true`, made at a time later
/// than the task's last change, keeps title and description, marks the task
/// done and moves `updated_at` forward.
pub proof fn completing_keeps_text(before: Task, after: Task, now: i64)
    requires
        patched(after, before, None, None, Some(true)),
        after.updated_at == now,
        now > before.updated_at,
    ensures
        after.title == before.title,
        after.description == before.description,
        after.completed,
        after.updated_at > before.updated_at,
{
}

/// An empty title is refused by an update.
pub proof fn empty_title_rejected(title: String)
    requires
        title@.len() == 0,
    ensures
        rejects_title(Some(title)),
{
}

/// Two updates, one after the other, leave each field as the later of them
/// supplied it, or else the earlier, or else as it was: neither is lost.
pub proof fn updates_compose(
    t0: Task,
    t1: Task,
    t2: Task,
    title1: Option<String>,
    description1: Option<Option<String>>,
    completed1: Option<bool>,
    title2: Option<String>,
    description2: Option<Option<String>>,
    completed2: Option<bool>,
)
    requires
        patched(t1, t0, title1, description1, completed1),
        patched(t2, t1, title2, description2, completed2),
    ensures
        t2.id == t0.id,
        t2.created_at == t0.created_at,
        t2.title == (match title2 {
            Some(t) => t,
            None => match title1 {
                Some(t) => t,
                None => t0.title,
            },
        }),
        t2.description == (match description2 {
            Some(d) => d,
            None => match description1 {
                Some(d) => d,
                None => t0.description,
            },
        }),
        t2.completed == (match completed2 {
            Some(c) => c,
            None => match completed1 {
                Some(c) => c,
                None => t0.completed,
            },
        }),
{
}

} // verus!

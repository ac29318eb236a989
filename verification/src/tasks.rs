//! The task model around the bridge: the fields the bridge reads, the
//! update-merge rules, and the naming derived from a linked remote task.
//!
//! Identifiers are carried in their textual form and timestamps as
//! milliseconds since the epoch.

use vstd::prelude::*;

use crate::text::spec_trim;
use crate::text::is_blank;
use crate::text::spec_i64_digits;
use crate::text::i64_to_string;

verus! {

/// Where a task stands on the board.
#[derive(Clone, Copy, Debug, PartialEq, Eq, Structural)]
pub enum TaskStatus {
    Todo,
    InProgress,
    InReview,
    Done,
    Cancelled,
}

impl Default for TaskStatus {
    /// A task starts in `Todo`.
    fn default() -> (r: TaskStatus)
        ensures
            r == TaskStatus::Todo,
    {
        TaskStatus::Todo
    }
}

/// A task on the board, with its optional links to a remote ticket and to a
/// design session.
#[derive(Clone, Debug, PartialEq)]
pub struct Task {
    pub id: String,
    pub project_id: String,
    pub title: String,
    pub description: Option<String>,
    pub status: TaskStatus,
    pub parent_workspace_id: Option<String>,
    pub created_at_ms: i64,
    pub updated_at_ms: i64,
    pub dooray_task_id: Option<String>,
    pub dooray_project_id: Option<String>,
    pub dooray_task_number: Option<String>,
    pub design_session_id: Option<String>,
    pub reference_dooray_url: Option<String>,
}

/// The data needed to create a task.
#[derive(Clone, Debug, PartialEq)]
pub struct CreateTask {
    pub project_id: String,
    pub title: String,
    pub description: Option<String>,
    pub status: Option<TaskStatus>,
    pub parent_workspace_id: Option<String>,
    pub image_ids: Option<Vec<String>>,
    pub dooray_task_id: Option<String>,
    pub dooray_project_id: Option<String>,
    pub dooray_task_number: Option<String>,
    pub reference_dooray_url: Option<String>,
}

/// A partial update of a task; an absent field keeps the existing value.
#[derive(Clone, Debug, PartialEq)]
pub struct UpdateTask {
    pub title: Option<String>,
    pub description: Option<String>,
    pub status: Option<TaskStatus>,
    pub parent_workspace_id: Option<String>,
    pub image_ids: Option<Vec<String>>,
}

/// The merged field values a task update writes.
#[derive(Clone, Debug, PartialEq)]
pub struct MergedTaskFields {
    pub title: String,
    pub description: Option<String>,
    pub status: TaskStatus,
    pub parent_workspace_id: Option<String>,
}

impl CreateTask {
    /// A plain new task from a title and an optional description: it starts
    /// in `Todo` with no links of any kind.
    pub fn from_title_description(project_id: String, title: String, description: Option<String>)
        -> (r: CreateTask)
        ensures
            r.project_id == project_id,
            r.title == title,
            r.description == description,
            r.status == Some(TaskStatus::Todo),
            r.parent_workspace_id is None,
            r.image_ids is None,
            r.dooray_task_id is None,
            r.dooray_project_id is None,
            r.dooray_task_number is None,
            r.reference_dooray_url is None,
    {
        CreateTask {
            project_id,
            title,
            description,
            status: Some(TaskStatus::Todo),
            parent_workspace_id: None,
            image_ids: None,
            dooray_task_id: None,
            dooray_project_id: None,
            dooray_task_number: None,
            reference_dooray_url: None,
        }
    }
}

/// The text a task contributes to an agent prompt: its title, and its
/// description below a blank line when the description has content.
pub open spec fn spec_task_prompt(title: Seq<char>, description: Option<Seq<char>>) -> Seq<char> {
    match description {
        Some(d) => if spec_trim(d).len() > 0 {
            title + "\n\n"@ + d
        } else {
            title
        },
        None => title,
    }
}

impl Task {
    /// Renders the task as prompt text: the title alone when the
    /// description is missing or blank, else title and description
    /// separated by a blank line.
    pub fn to_prompt(&self) -> (r: String)
        ensures
            r@ == spec_task_prompt(self.title@, self.description.deep_view()),
    {
        match &self.description {
            Some(d) => {
                if !is_blank(d.as_str()) {
                    let mut r = self.title.clone();
                    r.append("\n\n");
                    r.append(d.as_str());
                    r
                } else {
                    self.title.clone()
                }
            },
            None => self.title.clone(),
        }
    }
}

/// Merges a partial update over a task's current fields: an absent field
/// keeps the current value; an empty (all-blank) description in the patch
/// clears the description.
pub fn merge_task_update(existing: &Task, patch: &UpdateTask) -> (r: MergedTaskFields)
    ensures
        r.title == (match patch.title {
            Some(t) => t,
            None => existing.title,
        }),
        r.description == (match patch.description {
            Some(d) => if spec_trim(d@).len() == 0 {
                None::<String>
            } else {
                Some(d)
            },
            None => existing.description,
        }),
        r.status == (match patch.status {
            Some(s) => s,
            None => existing.status,
        }),
        r.parent_workspace_id == (match patch.parent_workspace_id {
            Some(w) => Some(w),
            None => existing.parent_workspace_id,
        }),
{
    let title = match &patch.title {
        Some(t) => t.clone(),
        None => existing.title.clone(),
    };
    let description = match &patch.description {
        Some(d) => if is_blank(d.as_str()) {
            None
        } else {
            Some(d.clone())
        },
        None => existing.description.clone(),
    };
    let status = match &patch.status {
        Some(s) => *s,
        None => existing.status,
    };
    let parent_workspace_id = match &patch.parent_workspace_id {
        Some(w) => Some(w.clone()),
        None => existing.parent_workspace_id.clone(),
    };
    MergedTaskFields { title, description, status, parent_workspace_id }
}

/// The part of the text after its last slash; the whole text when it holds
/// no slash.
pub open spec fn spec_after_last_slash(s: Seq<char>) -> Seq<char>
    decreases s.len(),
{
    if s.len() == 0 {
        Seq::empty()
    } else if s.last() == '/' {
        Seq::empty()
    } else {
        spec_after_last_slash(s.drop_last()) + seq![s.last()]
    }
}

proof fn lemma_after_last_slash(s: Seq<char>, j: int)
    requires
        0 <= j <= s.len(),
        forall|k: int| j <= k < s.len() ==> s[k] != '/',
        j == 0 || s[j - 1] == '/',
    ensures
        spec_after_last_slash(s) == s.subrange(j, s.len() as int),
    decreases s.len(),
{
    if j == s.len() {
        if j == 0 {
            assert(s.subrange(0, 0) =~= Seq::<char>::empty());
        } else {
            assert(s.last() == '/');
            assert(s.subrange(j, s.len() as int) =~= Seq::<char>::empty());
        }
    } else {
        assert(s.last() != '/');
        let t = s.drop_last();
        lemma_after_last_slash(t, j);
        assert(t.subrange(j, t.len() as int) =~= s.subrange(j, s.len() as int - 1));
        assert(s.subrange(j, s.len() as int - 1) + seq![s.last()] =~= s.subrange(
            j,
            s.len() as int,
        ));
    }
}

/// The branch name a task with a linked remote number gets: a fixed prefix
/// and the part of the stored number after its last slash (the bare
/// ticket number).
pub fn dooray_branch_name(dooray_task_number: &str) -> (r: String)
    ensures
        r@ == "feature/develop/"@ + spec_after_last_slash(dooray_task_number@),
{
    let len = dooray_task_number.unicode_len();
    let mut j: usize = len;
    while j > 0 && dooray_task_number.get_char(j - 1) != '/'
        invariant
            0 <= j <= len,
            len == dooray_task_number@.len(),
            forall|k: int| j <= k < len ==> dooray_task_number@[k] != '/',
        decreases j,
    {
        j = j - 1;
    }
    proof {
        lemma_after_last_slash(dooray_task_number@, j as int);
    }
    let tail = dooray_task_number.substring_char(j, len);
    let mut r = String::from_str("feature/develop/");
    r.append(tail);
    r
}

/// The working directory handed to the agent when the board has exactly one
/// repository: the repository's directory, descended into its configured
/// sub-directory when one is set. An absolute sub-directory replaces the
/// repository path, as path joining does.
pub fn agent_working_dir(repo_name: &str, default_working_dir: &Option<String>) -> (r: String)
    ensures
        r@ == (match default_working_dir.deep_view() {
            Some(sub) => if sub.len() > 0 && sub[0] == '/' {
                sub
            } else {
                repo_name@ + "/"@ + sub
            },
            None => repo_name@,
        }),
{
    match default_working_dir {
        Some(sub) => {
            let sub_len = sub.as_str().unicode_len();
            if sub_len > 0 && sub.as_str().get_char(0) == '/' {
                sub.clone()
            } else {
                let mut r = String::from_str(repo_name);
                r.append("/");
                r.append(sub.as_str());
                r
            }
        },
        None => String::from_str(repo_name),
    }
}

/// The stored remote task number: the remote project's code and the ticket
/// number, slash-separated.
pub fn format_task_number(project_code: &str, number: i64) -> (r: String)
    ensures
        r@ == project_code@ + "/"@ + spec_i64_digits(number as int),
{
    let mut r = String::from_str(project_code);
    r.append("/");
    let digits = i64_to_string(number);
    r.append(digits.as_str());
    r
}

/// The stored remote task number when the remote did not report a numeric
/// ticket number: the remote task's identifier stands in for it.
pub fn format_task_number_or_id(project_code: &str, number: &Option<i64>, task_id: &str) -> (r:
    String)
    ensures
        r@ == (match number {
            Some(n) => project_code@ + "/"@ + spec_i64_digits(n as int),
            None => project_code@ + "/"@ + task_id@,
        }),
{
    match number {
        Some(n) => format_task_number(project_code, *n),
        None => {
            let mut r = String::from_str(project_code);
            r.append("/");
            r.append(task_id);
            r
        },
    }
}

} // verus!

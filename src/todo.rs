//! The task-list and thinking tools.

use vstd::prelude::*;
use crate::text::{all_ws, decimal, decimal_exec, is_blank, owned};
use crate::tools::ValidationResult;

verus! {

/// Where a task stands.
#[derive(Debug, Clone, Copy, PartialEq, Eq, Structural)]
pub enum TodoStatus {
    Pending,
    InProgress,
    Completed,
}

/// One task.
#[derive(Debug, Clone, PartialEq, Eq)]
pub struct TodoItem {
    pub content: String,
    pub active_form: String,
    pub status: TodoStatus,
}

/// The whole new task list.
#[derive(Debug, Clone, PartialEq, Eq)]
pub struct TodoWriteInput {
    pub todos: Vec<TodoItem>,
}

/// What the task-list tool reports.
#[derive(Debug, Clone, PartialEq, Eq)]
pub struct TodoWriteOutput {
    pub summary: String,
}

/// The task-list tool.
#[derive(Debug, Clone, Copy)]
pub struct TodoWriteTool;

/// Why a task list is refused.
#[derive(Debug, Clone, Copy, PartialEq, Eq, Structural)]
pub enum TodoRejection {
    EmptyContent { index: usize },
    EmptyActiveForm { index: usize },
    SeveralInProgress { count: usize },
}

/// How many tasks have status `st`.
pub open spec fn count_status(s: Seq<TodoItem>, st: TodoStatus) -> nat
    decreases s.len(),
{
    if s.len() == 0 {
        0
    } else {
        count_status(s.drop_last(), st) + if s.last().status == st { 1nat } else { 0nat }
    }
}

/// The first blank field from position `i` on, in task order, content
/// before active form.
pub open spec fn first_blank(s: Seq<TodoItem>, i: int) -> Option<TodoRejection>
    decreases s.len() - i,
{
    if i < 0 || i >= s.len() {
        None
    } else if all_ws(s[i].content@) {
        Some(TodoRejection::EmptyContent { index: i as usize })
    } else if all_ws(s[i].active_form@) {
        Some(TodoRejection::EmptyActiveForm { index: i as usize })
    } else {
        first_blank(s, i + 1)
    }
}

/// The check on a task list: no blank text, and at most one task in
/// progress.
pub open spec fn todo_check(s: Seq<TodoItem>) -> Option<TodoRejection> {
    match first_blank(s, 0) {
        Some(r) => Some(r),
        None => {
            let n = count_status(s, TodoStatus::InProgress);
            if n > 1 { Some(TodoRejection::SeveralInProgress { count: n as usize }) } else { None }
        },
    }
}

fn count_status_exec(s: &Vec<TodoItem>, st: TodoStatus) -> (r: usize)
    ensures
        r == count_status(s@, st),
{
    let mut n: usize = 0;
    let mut i: usize = 0;
    while i < s.len()
        invariant
            i <= s.len(),
            n <= i,
            n == count_status(s@.take(i as int), st),
        decreases s.len() - i,
    {
        assert(s@.take(i + 1).drop_last() =~= s@.take(i as int));
        if s[i].status == st {
            n = n + 1;
        }
        i = i + 1;
    }
    assert(s@.take(s.len() as int) =~= s@);
    n
}

/// The summary of a task list as the tool reports it.
pub open spec fn todo_summary(s: Seq<TodoItem>) -> Seq<char> {
    if s.len() == 0 {
        "Todo list cleared. No active tasks."@
    } else {
        "Updated "@ + decimal(s.len()) + " todo(s) ("@ + decimal(count_status(s, TodoStatus::Pending)) + " pending, "@
            + decimal(count_status(s, TodoStatus::InProgress)) + " in progress, "@ + decimal(
            count_status(s, TodoStatus::Completed),
        ) + " completed). Continue tracking your progress with the todo list."@
    }
}

impl TodoWriteTool {
    /// Decides whether a task list may be written.
    pub fn check(input: &TodoWriteInput) -> (r: Option<TodoRejection>)
        ensures
            r == todo_check(input.todos@),
    {
        let mut i: usize = 0;
        while i < input.todos.len()
            invariant
                i <= input.todos.len(),
                first_blank(input.todos@, 0) == first_blank(input.todos@, i as int),
            decreases input.todos.len() - i,
        {
            if is_blank(input.todos[i].content.as_str()) {
                return Some(TodoRejection::EmptyContent { index: i });
            }
            if is_blank(input.todos[i].active_form.as_str()) {
                return Some(TodoRejection::EmptyActiveForm { index: i });
            }
            i = i + 1;
        }
        let n = count_status_exec(&input.todos, TodoStatus::InProgress);
        if n > 1 {
            Some(TodoRejection::SeveralInProgress { count: n })
        } else {
            None
        }
    }

    /// The validation verdict for a task list, with the refusal's text.
    pub fn validate_input(input: &TodoWriteInput) -> (r: ValidationResult)
        ensures
            r.is_valid == (todo_check(input.todos@) is None),
            todo_check(input.todos@) matches Some(TodoRejection::EmptyContent { index }) ==> (r.message matches Some(m)
                && m@ == "Todo at index "@ + decimal(index as nat) + " has empty content"@),
            todo_check(input.todos@) matches Some(TodoRejection::EmptyActiveForm { index }) ==> (r.message matches Some(m)
                && m@ == "Todo at index "@ + decimal(index as nat) + " has empty activeForm"@),
            todo_check(input.todos@) matches Some(TodoRejection::SeveralInProgress { count }) ==> (r.message matches Some(m)
                && m@ == "Only one task can be in_progress at a time (found "@ + decimal(count as nat) + ")"@),
    {
        match TodoWriteTool::check(input) {
            None => ValidationResult::ok(),
            Some(TodoRejection::EmptyContent { index }) => {
                let mut m = owned("Todo at index ");
                m.append(decimal_exec(index).as_str());
                m.append(" has empty content");
                ValidationResult::error(m)
            },
            Some(TodoRejection::EmptyActiveForm { index }) => {
                let mut m = owned("Todo at index ");
                m.append(decimal_exec(index).as_str());
                m.append(" has empty activeForm");
                ValidationResult::error(m)
            },
            Some(TodoRejection::SeveralInProgress { count }) => {
                let mut m = owned("Only one task can be in_progress at a time (found ");
                m.append(decimal_exec(count).as_str());
                m.append(")");
                ValidationResult::error(m)
            },
        }
    }

    /// What writing a task list reports.
    pub fn summarize(input: &TodoWriteInput) -> (r: TodoWriteOutput)
        ensures
            r.summary@ == todo_summary(input.todos@),
    {
        if input.todos.len() == 0 {
            return TodoWriteOutput { summary: owned("Todo list cleared. No active tasks.") };
        }
        let mut m = owned("Updated ");
        m.append(decimal_exec(input.todos.len()).as_str());
        m.append(" todo(s) (");
        m.append(decimal_exec(count_status_exec(&input.todos, TodoStatus::Pending)).as_str());
        m.append(" pending, ");
        m.append(decimal_exec(count_status_exec(&input.todos, TodoStatus::InProgress)).as_str());
        m.append(" in progress, ");
        m.append(decimal_exec(count_status_exec(&input.todos, TodoStatus::Completed)).as_str());
        m.append(" completed). Continue tracking your progress with the todo list.");
        TodoWriteOutput { summary: m }
    }
}

/// A thought to log.
#[derive(Debug, Clone, PartialEq, Eq)]
pub struct ThinkInput {
    pub thought: String,
}

/// The logged thought.
#[derive(Debug, Clone, PartialEq, Eq)]
pub struct ThinkOutput {
    pub thought: String,
}

/// The thinking tool: it changes nothing and accepts every thought.
#[derive(Debug, Clone, Copy)]
pub struct ThinkTool;

impl ThinkTool {
    /// Logs a thought.
    pub fn call(input: ThinkInput) -> (r: (ThinkOutput, String))
        ensures
            r.0.thought@ == input.thought@,
            r.1@ == "Your thought has been logged."@,
    {
        (ThinkOutput { thought: input.thought }, owned("Your thought has been logged."))
    }
}

} // verus!

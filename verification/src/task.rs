use vstd::prelude::*;

verus! {

/// One task record as the renderer consumes it: an optional title, optional
/// notes, and an optional due date-time-with-offset text. All fields are
/// read-only to the renderer.
pub struct Task {
    pub title: Option<String>,
    pub notes: Option<String>,
    pub due: Option<String>,
}

/// The mathematical view of a task: each text field as a character sequence.
pub ghost struct TaskView {
    pub title: Option<Seq<char>>,
    pub notes: Option<Seq<char>>,
    pub due: Option<Seq<char>>,
}

/// The view of a sequence of tasks as their mathematical views.
pub open spec fn views_of(tasks: Seq<Task>) -> Seq<TaskView> {
    tasks.map_values(|t: Task| t@)
}

impl View for Task {
    type V = TaskView;

    open spec fn view(&self) -> TaskView {
        TaskView {
            title: match self.title {
                Some(s) => Some(s@),
                None => None,
            },
            notes: match self.notes {
                Some(s) => Some(s@),
                None => None,
            },
            due: match self.due {
                Some(s) => Some(s@),
                None => None,
            },
        }
    }
}

} // verus!

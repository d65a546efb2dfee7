use vstd::prelude::*;

verus! {

/// The program's configuration file contents.
pub struct TomlOptions {
    pub tasks_config: TasksConfig,
}

/// Which task list to show and how far into the future to look.
pub struct TasksConfig {
    pub tasks_list_name: String,
    pub max_due_future_days: Option<u16>,
}

} // verus!

use vstd::prelude::*;

verus! {

/// How urgent a task is. Only equality is meaningful.
#[derive(Clone, Copy, Debug, PartialEq, Eq, Structural)]
pub enum TaskPriority {
    Low,
    Medium,
    High,
}

/// The mathematical value of a [`Task`].
pub struct TaskView {
    pub id: Seq<char>,
    pub client_id: Seq<char>,
    pub title: Seq<char>,
    pub description: Seq<char>,
    pub completed: bool,
    pub created_at: Seq<char>,
    pub priority: TaskPriority,
}

/// The mathematical value of a [`Client`].
pub struct ClientView {
    pub id: Seq<char>,
    pub name: Seq<char>,
    pub description: Seq<char>,
}

/// A unit of work, attached by `client_id` to a client that need not exist.
#[derive(Clone, Debug)]
pub struct Task {
    pub id: String,
    pub client_id: String,
    pub title: String,
    pub description: String,
    pub completed: bool,
    pub created_at: String,
    pub priority: TaskPriority,
}

/// A customer that tasks are tracked for.
#[derive(Clone, Debug)]
pub struct Client {
    pub id: String,
    pub name: String,
    pub description: String,
}

impl View for Task {
    type V = TaskView;

    open spec fn view(&self) -> TaskView {
        TaskView {
            id: self.id@,
            client_id: self.client_id@,
            title: self.title@,
            description: self.description@,
            completed: self.completed,
            created_at: self.created_at@,
            priority: self.priority,
        }
    }
}

impl View for Client {
    type V = ClientView;

    open spec fn view(&self) -> ClientView {
        ClientView { id: self.id@, name: self.name@, description: self.description@ }
    }
}

impl Task {
    /// A field-by-field copy.
    pub fn duplicate(&self) -> (r: Task)
        ensures
            r@ == self@,
    {
        Task {
            id: self.id.clone(),
            client_id: self.client_id.clone(),
            title: self.title.clone(),
            description: self.description.clone(),
            completed: self.completed,
            created_at: self.created_at.clone(),
            priority: self.priority,
        }
    }
}

impl Client {
    /// A field-by-field copy.
    pub fn duplicate(&self) -> (r: Client)
        ensures
            r@ == self@,
    {
        Client { id: self.id.clone(), name: self.name.clone(), description: self.description.clone() }
    }
}

} // verus!

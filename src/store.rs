use vstd::prelude::*;
use crate::data::{
    flipped, has_task, put_client, put_task, task_pos, tasks_for, toggled, without_task,
    AppData, AppDataView,
};
use crate::error::AppError;
use crate::model::{Client, ClientView, Task, TaskPriority, TaskView};
use crate::provide::{fresh_id, now_rfc3339};

verus! {

/// The store: the one aggregate of the process and the file it is saved to.
/// Every operation changes the aggregate in memory; the caller then saves it
/// while it still holds exclusive access to the store.
pub struct AppState {
    data: AppData,
    data_file: String,
}

impl View for AppState {
    type V = AppDataView;

    closed spec fn view(&self) -> AppDataView {
        self.data@
    }
}

impl AppState {
    /// Ids are unique among the tasks and among the clients.
    pub closed spec fn wf(&self) -> bool {
        self.data.wf()
    }

    /// The path of the file that the aggregate is saved to.
    pub closed spec fn path(&self) -> String {
        self.data_file
    }

    /// The path of the file that the aggregate is saved to.
    pub fn data_file(&self) -> (r: &String)
        ensures
            *r == self.path(),
    {
        &self.data_file
    }

    /// A store saved to `data_file` that starts from `stored`, the aggregate
    /// read back from that file, or empty when there was no file or it could
    /// not be decoded.
    pub fn new(data_file: String, stored: Option<AppData>) -> (r: AppState)
        requires
            stored matches Some(d) ==> d.wf(),
        ensures
            r.wf(),
            r@.wf(),
            r.path() == data_file,
            match stored {
                Some(d) => r@ == d@,
                None => r@.tasks == Seq::<TaskView>::empty() && r@.clients == Seq::<
                    ClientView,
                >::empty(),
            },
    {
        let data = match stored {
            Some(d) => d,
            None => AppData::new(),
        };
        AppState { data, data_file }
    }

    /// A copy of the whole aggregate.
    pub fn read(&self) -> (r: AppData)
        requires
            self.wf(),
        ensures
            r.wf(),
            r@ == self@,
    {
        self.data.duplicate()
    }

    /// Creates the client `id` with the given name and description, replacing
    /// any client that had that id, and returns it.
    pub fn create_client(&mut self, id: String, name: String, description: String) -> (r: Client)
        requires
            old(self).wf(),
        ensures
            final(self).wf(),
            final(self).path() == old(self).path(),
            r@ == (ClientView { id: id@, name: name@, description: description@ }),
            final(self)@.clients == put_client(old(self)@.clients, r@),
            final(self)@.tasks == old(self)@.tasks,
    {
        let client = Client { id, name, description };
        let r = client.duplicate();
        self.data.insert_client(client);
        r
    }

    /// Creates a client under a fresh random id and returns it.
    pub fn add_client(&mut self, name: String, description: String) -> (r: Client)
        requires
            old(self).wf(),
        ensures
            final(self).wf(),
            final(self).path() == old(self).path(),
            r.id@.len() == 36,
            r.name@ == name@,
            r.description@ == description@,
            final(self)@.clients == put_client(old(self)@.clients, r@),
            final(self)@.tasks == old(self)@.tasks,
    {
        let id = fresh_id();
        self.create_client(id, name, description)
    }

    /// Every client, in no particular order.
    pub fn get_clients(&self) -> (r: Vec<Client>)
        requires
            self.wf(),
        ensures
            r@.map_values(|c: Client| c@) == self@.clients,
    {
        self.data.client_list()
    }

    /// Creates the task `id`, not completed, stamped `created_at`, replacing
    /// any task that had that id, and returns it. Whether a client with the
    /// id `client_id` exists is not looked at.
    pub fn create_task(
        &mut self,
        id: String,
        created_at: String,
        client_id: String,
        title: String,
        description: String,
        priority: TaskPriority,
    ) -> (r: Task)
        requires
            old(self).wf(),
        ensures
            final(self).wf(),
            final(self).path() == old(self).path(),
            r@ == (TaskView {
                id: id@,
                client_id: client_id@,
                title: title@,
                description: description@,
                completed: false,
                created_at: created_at@,
                priority,
            }),
            final(self)@.tasks == put_task(old(self)@.tasks, r@),
            final(self)@.clients == old(self)@.clients,
    {
        let task = Task { id, client_id, title, description, completed: false, created_at, priority };
        let r = task.duplicate();
        self.data.insert_task(task);
        r
    }

    /// Creates a task under a fresh random id, stamped with the current time,
    /// and returns it. Whether a client with the id `client_id` exists is not
    /// looked at.
    pub fn add_task(
        &mut self,
        client_id: String,
        title: String,
        description: String,
        priority: TaskPriority,
    ) -> (r: Task)
        requires
            old(self).wf(),
        ensures
            final(self).wf(),
            final(self).path() == old(self).path(),
            r.id@.len() == 36,
            r.client_id@ == client_id@,
            r.title@ == title@,
            r.description@ == description@,
            !r.completed,
            r.priority == priority,
            final(self)@.tasks == put_task(old(self)@.tasks, r@),
            final(self)@.clients == old(self)@.clients,
    {
        let id = fresh_id();
        let created_at = now_rfc3339();
        self.create_task(id, created_at, client_id, title, description, priority)
    }

    /// The tasks of the client `client_id`, in no particular order.
    pub fn get_tasks_by_client(&self, client_id: String) -> (r: Vec<Task>)
        requires
            self.wf(),
        ensures
            r@.map_values(|t: Task| t@) == tasks_for(self@.tasks, client_id@),
    {
        self.data.tasks_of_client(&client_id)
    }

    /// Flips the completion of the task `id` and returns the task as it now
    /// is; `NotFound`, with nothing changed, when no task has that id.
    pub fn toggle_task(&mut self, id: String) -> (r: Result<Task, AppError>)
        requires
            old(self).wf(),
        ensures
            final(self).wf(),
            final(self).path() == old(self).path(),
            final(self)@.tasks == toggled(old(self)@.tasks, id@),
            final(self)@.clients == old(self)@.clients,
            match r {
                Ok(t) => has_task(old(self)@.tasks, id@) && t@ == flipped(
                    old(self)@.tasks[task_pos(old(self)@.tasks, id@)],
                ),
                Err(e) => !has_task(old(self)@.tasks, id@) && e is NotFound,
            },
    {
        match self.data.toggle(&id) {
            Some(t) => Ok(t),
            None => Err(AppError::NotFound),
        }
    }

    /// Removes the task `id`; `NotFound`, with nothing changed, when no task
    /// has that id.
    pub fn delete_task(&mut self, id: String) -> (r: Result<(), AppError>)
        requires
            old(self).wf(),
        ensures
            final(self).wf(),
            final(self).path() == old(self).path(),
            final(self)@.tasks == without_task(old(self)@.tasks, id@),
            final(self)@.clients == old(self)@.clients,
            r is Ok <==> has_task(old(self)@.tasks, id@),
            r matches Err(e) ==> e is NotFound,
    {
        if self.data.remove_task(&id) {
            Ok(())
        } else {
            Err(AppError::NotFound)
        }
    }
}

} // verus!

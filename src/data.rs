use vstd::prelude::*;
use crate::model::{Client, ClientView, Task, TaskView};

verus! {

/// No two tasks share an id.
pub open spec fn task_ids_unique(s: Seq<TaskView>) -> bool {
    forall|i: int, j: int| 0 <= i < s.len() && 0 <= j < s.len() && s[i].id == s[j].id ==> i == j
}

/// No two clients share an id.
pub open spec fn client_ids_unique(s: Seq<ClientView>) -> bool {
    forall|i: int, j: int| 0 <= i < s.len() && 0 <= j < s.len() && s[i].id == s[j].id ==> i == j
}

/// Some task of `s` has the id `id`.
pub open spec fn has_task(s: Seq<TaskView>, id: Seq<char>) -> bool {
    exists|i: int| 0 <= i < s.len() && s[i].id == id
}

/// Some client of `s` has the id `id`.
pub open spec fn has_client(s: Seq<ClientView>, id: Seq<char>) -> bool {
    exists|i: int| 0 <= i < s.len() && s[i].id == id
}

/// Where the task `id` stands in `s` (meaningful when `has_task(s, id)`).
pub open spec fn task_pos(s: Seq<TaskView>, id: Seq<char>) -> int {
    choose|i: int| 0 <= i < s.len() && s[i].id == id
}

/// Where the client `id` stands in `s` (meaningful when `has_client(s, id)`).
pub open spec fn client_pos(s: Seq<ClientView>, id: Seq<char>) -> int {
    choose|i: int| 0 <= i < s.len() && s[i].id == id
}

/// `s` with `t` stored under its id: it replaces the task of that id, or is
/// added when there is none.
pub open spec fn put_task(s: Seq<TaskView>, t: TaskView) -> Seq<TaskView> {
    if has_task(s, t.id) {
        s.update(task_pos(s, t.id), t)
    } else {
        s.push(t)
    }
}

/// `s` with `c` stored under its id: it replaces the client of that id, or
/// is added when there is none.
pub open spec fn put_client(s: Seq<ClientView>, c: ClientView) -> Seq<ClientView> {
    if has_client(s, c.id) {
        s.update(client_pos(s, c.id), c)
    } else {
        s.push(c)
    }
}

/// Every task of `s`, in order, stored into `acc`.
pub open spec fn put_all_tasks(acc: Seq<TaskView>, s: Seq<TaskView>) -> Seq<TaskView>
    decreases s.len(),
{
    if s.len() == 0 {
        acc
    } else {
        put_task(put_all_tasks(acc, s.drop_last()), s.last())
    }
}

/// Every client of `s`, in order, stored into `acc`.
pub open spec fn put_all_clients(acc: Seq<ClientView>, s: Seq<ClientView>) -> Seq<ClientView>
    decreases s.len(),
{
    if s.len() == 0 {
        acc
    } else {
        put_client(put_all_clients(acc, s.drop_last()), s.last())
    }
}

/// The tasks of `s` that belong to the client `cid`, in the order of `s`.
pub open spec fn tasks_for(s: Seq<TaskView>, cid: Seq<char>) -> Seq<TaskView>
    decreases s.len(),
{
    if s.len() == 0 {
        Seq::empty()
    } else if s.last().client_id == cid {
        tasks_for(s.drop_last(), cid).push(s.last())
    } else {
        tasks_for(s.drop_last(), cid)
    }
}

/// `t` with its completion flag flipped.
pub open spec fn flipped(t: TaskView) -> TaskView {
    TaskView { completed: !t.completed, ..t }
}

/// `s` with the completion of the task `id` flipped; `s` itself when no task
/// has that id.
pub open spec fn toggled(s: Seq<TaskView>, id: Seq<char>) -> Seq<TaskView> {
    if has_task(s, id) {
        s.update(task_pos(s, id), flipped(s[task_pos(s, id)]))
    } else {
        s
    }
}

/// `s` without the task `id`; `s` itself when no task has that id.
pub open spec fn without_task(s: Seq<TaskView>, id: Seq<char>) -> Seq<TaskView> {
    if has_task(s, id) {
        s.remove(task_pos(s, id))
    } else {
        s
    }
}

/// The mathematical value of an [`AppData`]: its tasks and its clients, each
/// a collection keyed by id whose order carries no meaning.
pub struct AppDataView {
    pub tasks: Seq<TaskView>,
    pub clients: Seq<ClientView>,
}

impl AppDataView {
    /// Keys are unique in both collections.
    pub open spec fn wf(self) -> bool {
        task_ids_unique(self.tasks) && client_ids_unique(self.clients)
    }
}

/// The aggregate: every task and every client, each stored under its id.
#[derive(Debug)]
pub struct AppData {
    tasks: Vec<Task>,
    clients: Vec<Client>,
}

impl View for AppData {
    type V = AppDataView;

    closed spec fn view(&self) -> AppDataView {
        AppDataView {
            tasks: self.tasks@.map_values(|t: Task| t@),
            clients: self.clients@.map_values(|c: Client| c@),
        }
    }
}

impl AppData {
    /// Ids are unique among the tasks and among the clients.
    pub open spec fn wf(&self) -> bool {
        self@.wf()
    }

    /// The empty aggregate.
    pub fn new() -> (r: AppData)
        ensures
            r.wf(),
            r@.tasks == Seq::<TaskView>::empty(),
            r@.clients == Seq::<ClientView>::empty(),
    {
        let r = AppData { tasks: Vec::new(), clients: Vec::new() };
        assert(r@.tasks =~= Seq::<TaskView>::empty());
        assert(r@.clients =~= Seq::<ClientView>::empty());
        r
    }

    /// The index of the task `id`, if there is one.
    fn task_index(&self, id: &String) -> (r: Option<usize>)
        requires
            self.wf(),
        ensures
            match r {
                Some(i) => has_task(self@.tasks, id@) && i as int == task_pos(self@.tasks, id@)
                    && i < self@.tasks.len(),
                None => !has_task(self@.tasks, id@),
            },
    {
        let mut i: usize = 0;
        while i < self.tasks.len()
            invariant
                self.wf(),
                i <= self.tasks.len(),
                forall|j: int| 0 <= j < i ==> self@.tasks[j].id != id@,
            decreases self.tasks.len() - i,
        {
            if self.tasks[i].id == *id {
                proof {
                    assert(self@.tasks[i as int].id == id@);
                    assert(has_task(self@.tasks, id@));
                    let p = task_pos(self@.tasks, id@);
                    assert(0 <= p < self@.tasks.len() && self@.tasks[p].id == id@);
                }
                return Some(i);
            }
            i += 1;
        }
        None
    }

    /// The index of the client `id`, if there is one.
    fn client_index(&self, id: &String) -> (r: Option<usize>)
        requires
            self.wf(),
        ensures
            match r {
                Some(i) => has_client(self@.clients, id@) && i as int == client_pos(
                    self@.clients,
                    id@,
                ) && i < self@.clients.len(),
                None => !has_client(self@.clients, id@),
            },
    {
        let mut i: usize = 0;
        while i < self.clients.len()
            invariant
                self.wf(),
                i <= self.clients.len(),
                forall|j: int| 0 <= j < i ==> self@.clients[j].id != id@,
            decreases self.clients.len() - i,
        {
            if self.clients[i].id == *id {
                proof {
                    assert(self@.clients[i as int].id == id@);
                    assert(has_client(self@.clients, id@));
                    let p = client_pos(self@.clients, id@);
                    assert(0 <= p < self@.clients.len() && self@.clients[p].id == id@);
                }
                return Some(i);
            }
            i += 1;
        }
        None
    }
    /// Stores `t` under its id, replacing the task that had that id.
    pub fn insert_task(&mut self, t: Task)
        requires
            old(self).wf(),
        ensures
            final(self).wf(),
            final(self)@.tasks == put_task(old(self)@.tasks, t@),
            final(self)@.clients == old(self)@.clients,
    {
        let ghost tv = t@;
        match self.task_index(&t.id) {
            Some(i) => {
                self.tasks.set(i, t);
                assert(self@.tasks =~= old(self)@.tasks.update(i as int, tv));
            },
            None => {
                self.tasks.push(t);
                assert(self@.tasks =~= old(self)@.tasks.push(tv));
            },
        }
        assert(self@.clients =~= old(self)@.clients);
    }

    /// Stores `c` under its id, replacing the client that had that id.
    pub fn insert_client(&mut self, c: Client)
        requires
            old(self).wf(),
        ensures
            final(self).wf(),
            final(self)@.clients == put_client(old(self)@.clients, c@),
            final(self)@.tasks == old(self)@.tasks,
    {
        let ghost cv = c@;
        match self.client_index(&c.id) {
            Some(i) => {
                self.clients.set(i, c);
                assert(self@.clients =~= old(self)@.clients.update(i as int, cv));
            },
            None => {
                self.clients.push(c);
                assert(self@.clients =~= old(self)@.clients.push(cv));
            },
        }
        assert(self@.tasks =~= old(self)@.tasks);
    }

    /// Flips the completion of the task `id` and returns the task as it now
    /// is; `None`, with nothing changed, when no task has that id.
    pub fn toggle(&mut self, id: &String) -> (r: Option<Task>)
        requires
            old(self).wf(),
        ensures
            final(self).wf(),
            final(self)@.tasks == toggled(old(self)@.tasks, id@),
            final(self)@.clients == old(self)@.clients,
            match r {
                Some(t) => has_task(old(self)@.tasks, id@) && t@ == flipped(
                    old(self)@.tasks[task_pos(old(self)@.tasks, id@)],
                ),
                None => !has_task(old(self)@.tasks, id@),
            },
    {
        match self.task_index(id) {
            Some(i) => {
                let mut t = self.tasks[i].duplicate();
                t.completed = !t.completed;
                let r = t.duplicate();
                let ghost tv = t@;
                self.tasks.set(i, t);
                assert(self@.tasks =~= old(self)@.tasks.update(i as int, tv));
                assert(self@.clients =~= old(self)@.clients);
                Some(r)
            },
            None => None,
        }
    }

    /// Removes the task `id`, answering whether there was one.
    pub fn remove_task(&mut self, id: &String) -> (r: bool)
        requires
            old(self).wf(),
        ensures
            final(self).wf(),
            r == has_task(old(self)@.tasks, id@),
            final(self)@.tasks == without_task(old(self)@.tasks, id@),
            final(self)@.clients == old(self)@.clients,
    {
        match self.task_index(id) {
            Some(i) => {
                self.tasks.remove(i);
                let ghost s = old(self)@.tasks;
                assert(self@.tasks =~= s.remove(i as int));
                assert forall|a: int, b: int|
                    0 <= a < self@.tasks.len() && 0 <= b < self@.tasks.len()
                        && self@.tasks[a].id == self@.tasks[b].id implies a == b by {
                    let a0 = if a < i { a } else { a + 1 };
                    let b0 = if b < i { b } else { b + 1 };
                    assert(self@.tasks[a] == s[a0]);
                    assert(self@.tasks[b] == s[b0]);
                }
                assert(self@.clients =~= old(self)@.clients);
                true
            },
            None => false,
        }
    }

    /// Every task, in storage order.
    pub fn task_list(&self) -> (r: Vec<Task>)
        ensures
            r@.map_values(|t: Task| t@) == self@.tasks,
    {
        let mut r: Vec<Task> = Vec::new();
        let mut i: usize = 0;
        while i < self.tasks.len()
            invariant
                i <= self.tasks.len(),
                r@.map_values(|t: Task| t@) == self@.tasks.subrange(0, i as int),
            decreases self.tasks.len() - i,
        {
            let ghost pre = r@.map_values(|t: Task| t@);
            r.push(self.tasks[i].duplicate());
            assert(r@.map_values(|t: Task| t@) =~= pre.push(self@.tasks[i as int]));
            assert(self@.tasks.subrange(0, i as int + 1) =~= self@.tasks.subrange(0, i as int).push(
                self@.tasks[i as int],
            ));
            i += 1;
        }
        assert(self@.tasks.subrange(0, i as int) =~= self@.tasks);
        r
    }

    /// Every client, in storage order.
    pub fn client_list(&self) -> (r: Vec<Client>)
        ensures
            r@.map_values(|c: Client| c@) == self@.clients,
    {
        let mut r: Vec<Client> = Vec::new();
        let mut i: usize = 0;
        while i < self.clients.len()
            invariant
                i <= self.clients.len(),
                r@.map_values(|c: Client| c@) == self@.clients.subrange(0, i as int),
            decreases self.clients.len() - i,
        {
            let ghost pre = r@.map_values(|c: Client| c@);
            r.push(self.clients[i].duplicate());
            assert(r@.map_values(|c: Client| c@) =~= pre.push(self@.clients[i as int]));
            assert(self@.clients.subrange(0, i as int + 1) =~= self@.clients.subrange(0, i as int).push(
                self@.clients[i as int],
            ));
            i += 1;
        }
        assert(self@.clients.subrange(0, i as int) =~= self@.clients);
        r
    }

    /// The tasks of the client `client_id`, in storage order.
    pub fn tasks_of_client(&self, client_id: &String) -> (r: Vec<Task>)
        ensures
            r@.map_values(|t: Task| t@) == tasks_for(self@.tasks, client_id@),
    {
        let mut r: Vec<Task> = Vec::new();
        let mut i: usize = 0;
        while i < self.tasks.len()
            invariant
                i <= self.tasks.len(),
                r@.map_values(|t: Task| t@) == tasks_for(
                    self@.tasks.subrange(0, i as int),
                    client_id@,
                ),
            decreases self.tasks.len() - i,
        {
            let ghost pre = self@.tasks.subrange(0, i as int);
            let ghost next = self@.tasks.subrange(0, i as int + 1);
            assert(next.drop_last() =~= pre);
            if self.tasks[i].client_id == *client_id {
                r.push(self.tasks[i].duplicate());
                assert(r@.map_values(|t: Task| t@) =~= tasks_for(pre, client_id@).push(
                    self@.tasks[i as int],
                ));
            }
            i += 1;
        }
        assert(self@.tasks.subrange(0, i as int) =~= self@.tasks);
        r
    }

    /// An aggregate holding every task of `tasks` and every client of
    /// `clients`, each stored under its id in turn, so that a later one
    /// replaces an earlier one with the same id.
    pub fn from_parts(tasks: Vec<Task>, clients: Vec<Client>) -> (r: AppData)
        ensures
            r.wf(),
            r@.tasks == put_all_tasks(Seq::empty(), tasks@.map_values(|t: Task| t@)),
            r@.clients == put_all_clients(Seq::empty(), clients@.map_values(|c: Client| c@)),
    {
        let mut r = AppData::new();
        let ghost tv = tasks@.map_values(|t: Task| t@);
        let ghost cv = clients@.map_values(|c: Client| c@);
        let mut i: usize = 0;
        while i < tasks.len()
            invariant
                r.wf(),
                i <= tasks.len(),
                tv == tasks@.map_values(|t: Task| t@),
                r@.tasks == put_all_tasks(Seq::empty(), tv.subrange(0, i as int)),
                r@.clients == Seq::<ClientView>::empty(),
            decreases tasks.len() - i,
        {
            assert(tv.subrange(0, i as int + 1).drop_last() =~= tv.subrange(0, i as int));
            r.insert_task(tasks[i].duplicate());
            i += 1;
        }
        assert(tv.subrange(0, i as int) =~= tv);
        let mut k: usize = 0;
        while k < clients.len()
            invariant
                r.wf(),
                k <= clients.len(),
                cv == clients@.map_values(|c: Client| c@),
                r@.clients == put_all_clients(Seq::empty(), cv.subrange(0, k as int)),
                r@.tasks == put_all_tasks(Seq::empty(), tv),
            decreases clients.len() - k,
        {
            assert(cv.subrange(0, k as int + 1).drop_last() =~= cv.subrange(0, k as int));
            r.insert_client(clients[k].duplicate());
            k += 1;
        }
        assert(cv.subrange(0, k as int) =~= cv);
        r
    }

    /// A deep copy.
    pub fn duplicate(&self) -> (r: AppData)
        requires
            self.wf(),
        ensures
            r.wf(),
            r@ == self@,
    {
        let r = AppData { tasks: self.task_list(), clients: self.client_list() };
        assert(r@.tasks == self@.tasks);
        r
    }
}

} // verus!

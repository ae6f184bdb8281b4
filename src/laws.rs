use vstd::prelude::*;
use crate::data::{
    client_ids_unique, flipped, has_client, has_task, put_all_clients, put_all_tasks, put_client,
    put_task, task_ids_unique, task_pos, tasks_for, toggled, without_task, AppDataView,
};
use crate::model::{ClientView, TaskView};

verus! {

/// Every task that `tasks_for(s, cid)` lists is a task of `s` that belongs to
/// `cid`.
pub proof fn lemma_tasks_for_members(s: Seq<TaskView>, cid: Seq<char>)
    ensures
        forall|k: int|
            0 <= k < tasks_for(s, cid).len() ==> s.contains(#[trigger] tasks_for(s, cid)[k])
                && tasks_for(s, cid)[k].client_id == cid,
    decreases s.len(),
{
    if s.len() > 0 {
        let p = s.drop_last();
        lemma_tasks_for_members(p, cid);
        assert forall|k: int| 0 <= k < tasks_for(s, cid).len() implies s.contains(
            #[trigger] tasks_for(s, cid)[k],
        ) && tasks_for(s, cid)[k].client_id == cid by {
            if k < tasks_for(p, cid).len() {
                let x = tasks_for(p, cid)[k];
                assert(tasks_for(s, cid)[k] == x);
                assert(p.contains(x));
                let j = choose|j: int| 0 <= j < p.len() && p[j] == x;
                assert(s[j] == p[j]);
            } else {
                assert(s[s.len() - 1] == s.last());
            }
        }
    }
}

/// Every task of `s` that belongs to `cid` is listed by `tasks_for(s, cid)`.
pub proof fn lemma_tasks_for_complete(s: Seq<TaskView>, cid: Seq<char>, i: int)
    requires
        0 <= i < s.len(),
        s[i].client_id == cid,
    ensures
        tasks_for(s, cid).contains(s[i]),
    decreases s.len(),
{
    let p = s.drop_last();
    if i == s.len() - 1 {
        assert(tasks_for(s, cid).last() == s[i]);
    } else {
        lemma_tasks_for_complete(p, cid, i);
        let k = choose|k: int| 0 <= k < tasks_for(p, cid).len() && tasks_for(p, cid)[k] == p[i];
        assert(tasks_for(s, cid)[k] == s[i]);
    }
}

/// Creating a client keeps ids unique and leaves exactly that client under
/// its id, with every field as given; created in an empty store, it is the
/// only client listed.
pub proof fn lemma_created_client_is_listed(s: Seq<ClientView>, c: ClientView)
    requires
        client_ids_unique(s),
    ensures
        client_ids_unique(put_client(s, c)),
        put_client(s, c).contains(c),
        forall|i: int|
            0 <= i < put_client(s, c).len() && (#[trigger] put_client(s, c)[i]).id == c.id
                ==> put_client(s, c)[i] == c,
        s.len() == 0 ==> put_client(s, c) == seq![c],
{
    let r = put_client(s, c);
    if has_client(s, c.id) {
        let p = choose|i: int| 0 <= i < s.len() && s[i].id == c.id;
        assert(r[p] == c);
    } else {
        assert(r[s.len() as int] == c);
    }
    if s.len() == 0 {
        assert(r =~= seq![c]);
    }
}

/// A task is listed under the client id it was created with, whether or not a
/// client with that id exists.
pub proof fn lemma_created_task_is_listed(s: Seq<TaskView>, t: TaskView)
    requires
        task_ids_unique(s),
    ensures
        task_ids_unique(put_task(s, t)),
        tasks_for(put_task(s, t), t.client_id).contains(t),
{
    let r = put_task(s, t);
    if has_task(s, t.id) {
        let p = task_pos(s, t.id);
        assert(r[p] == t);
        lemma_tasks_for_complete(r, t.client_id, p);
    } else {
        assert(r[s.len() as int] == t);
        lemma_tasks_for_complete(r, t.client_id, s.len() as int);
    }
}

/// Toggling the same task twice gives back the tasks as they were.
pub proof fn lemma_toggle_twice(s: Seq<TaskView>, id: Seq<char>)
    requires
        task_ids_unique(s),
    ensures
        toggled(toggled(s, id), id) == s,
{
    if has_task(s, id) {
        let p = task_pos(s, id);
        let s1 = toggled(s, id);
        assert(s1[p].id == id);
        assert(has_task(s1, id));
        let q = task_pos(s1, id);
        assert(s1[q].id == id);
        assert(q == p);
        assert(flipped(flipped(s[p])) == s[p]);
        assert(toggled(s1, id) =~= s);
    }
}

/// After a task is deleted no task has its id, and no listing by client
/// holds it.
pub proof fn lemma_deleted_task_is_gone(s: Seq<TaskView>, id: Seq<char>, cid: Seq<char>)
    requires
        task_ids_unique(s),
    ensures
        task_ids_unique(without_task(s, id)),
        !has_task(without_task(s, id), id),
        forall|k: int|
            0 <= k < tasks_for(without_task(s, id), cid).len() ==> (#[trigger] tasks_for(
                without_task(s, id),
                cid,
            )[k]).id != id,
{
    let r = without_task(s, id);
    if has_task(s, id) {
        let p = task_pos(s, id);
        assert forall|j: int| 0 <= j < r.len() implies #[trigger] r[j].id != id by {
            let j0 = if j < p { j } else { j + 1 };
            assert(r[j] == s[j0]);
        }
        assert forall|a: int, b: int|
            0 <= a < r.len() && 0 <= b < r.len() && r[a].id == r[b].id implies a == b by {
            let a0 = if a < p { a } else { a + 1 };
            let b0 = if b < p { b } else { b + 1 };
            assert(r[a] == s[a0]);
            assert(r[b] == s[b0]);
        }
    }
    lemma_tasks_for_members(r, cid);
    assert forall|k: int| 0 <= k < tasks_for(r, cid).len() implies (#[trigger] tasks_for(
        r,
        cid,
    )[k]).id != id by {
        assert(r.contains(tasks_for(r, cid)[k]));
    }
}

/// Storing, in order, every task of a collection with unique ids into an
/// empty one gives that collection back.
pub proof fn lemma_put_all_tasks_rebuilds(s: Seq<TaskView>)
    requires
        task_ids_unique(s),
    ensures
        put_all_tasks(Seq::empty(), s) == s,
    decreases s.len(),
{
    if s.len() > 0 {
        let p = s.drop_last();
        assert(task_ids_unique(p));
        lemma_put_all_tasks_rebuilds(p);
        assert(!has_task(p, s.last().id)) by {
            if has_task(p, s.last().id) {
                let j = choose|j: int| 0 <= j < p.len() && p[j].id == s.last().id;
                assert(s[j].id == s[s.len() - 1].id);
            }
        }
        assert(p.push(s.last()) =~= s);
    }
}

/// Storing, in order, every client of a collection with unique ids into an
/// empty one gives that collection back.
pub proof fn lemma_put_all_clients_rebuilds(s: Seq<ClientView>)
    requires
        client_ids_unique(s),
    ensures
        put_all_clients(Seq::empty(), s) == s,
    decreases s.len(),
{
    if s.len() > 0 {
        let p = s.drop_last();
        assert(client_ids_unique(p));
        lemma_put_all_clients_rebuilds(p);
        assert(!has_client(p, s.last().id)) by {
            if has_client(p, s.last().id) {
                let j = choose|j: int| 0 <= j < p.len() && p[j].id == s.last().id;
                assert(s[j].id == s[s.len() - 1].id);
            }
        }
        assert(p.push(s.last()) =~= s);
    }
}

/// Rebuilding an aggregate from the listing of its tasks and of its clients,
/// as a restart does from the saved file, reproduces it.
pub proof fn lemma_restore_reproduces(d: AppDataView)
    requires
        d.wf(),
    ensures
        put_all_tasks(Seq::empty(), d.tasks) == d.tasks,
        put_all_clients(Seq::empty(), d.clients) == d.clients,
{
    lemma_put_all_tasks_rebuilds(d.tasks);
    lemma_put_all_clients_rebuilds(d.clients);
}

} // verus!

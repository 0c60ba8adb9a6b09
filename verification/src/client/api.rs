use vstd::prelude::*;
use std::collections::HashMap;

use crate::client::repository::TaskTree;
use crate::models::{Project, TaskWithUser};
use crate::text::{decimal, i64_to_decimal};

verus! {

broadcast use vstd::std_specs::hash::group_hash_axioms;

/// The project that a search by name finds: the first result; no result is
/// the error `Project not found`.
pub fn first_project(results: Vec<Project>) -> (r: Result<Project, String>)
    ensures
        results@.len() == 0 ==> (r matches Err(m) && m@ == "Project not found"@),
        results@.len() > 0 ==> r == Ok::<Project, String>(results@[0]),
{
    if results.len() == 0 {
        return Err(String::from_str("Project not found"));
    }
    Ok(results[0].clone())
}

/// The tasks of a list by id; a later task replaces an earlier one of the
/// same id.
pub open spec fn tasks_by_id(ts: Seq<TaskWithUser>) -> Map<i64, TaskWithUser>
    decreases ts.len(),
{
    if ts.len() == 0 {
        Map::empty()
    } else {
        tasks_by_id(ts.drop_last()).insert(ts.last().task_id, ts.last())
    }
}

/// The tasks of a list whose parent is `parent`, by id; a later task replaces
/// an earlier one of the same id.
pub open spec fn children_of(ts: Seq<TaskWithUser>, parent: i64) -> Map<i64, TaskWithUser>
    decreases ts.len(),
{
    if ts.len() == 0 {
        Map::empty()
    } else {
        let m = children_of(ts.drop_last(), parent);
        if ts.last().parent_id == Some(parent) {
            m.insert(ts.last().task_id, ts.last())
        } else {
            m
        }
    }
}

/// Whether a task names a parent that is not among `ids`.
pub open spec fn is_orphan(t: TaskWithUser, ids: Set<i64>) -> bool {
    t.parent_id matches Some(p) && !ids.contains(p)
}

/// Whether the task at `k` is the first of `ts` whose parent is not among `ids`.
pub open spec fn is_first_orphan(ts: Seq<TaskWithUser>, ids: Set<i64>, k: int) -> bool {
    &&& 0 <= k < ts.len()
    &&& is_orphan(ts[k], ids)
    &&& forall|j: int| 0 <= j < k ==> !is_orphan(#[trigger] ts[j], ids)
}

/// The error of a task whose parent is missing.
pub open spec fn orphan_message(t: TaskWithUser) -> Seq<char> {
    "Parent task with ID "@ + decimal(t.parent_id->0 as int) + " not found for task "@ + decimal(
        t.task_id as int,
    )
}

/// Whether `tree` is a node for `own` that holds exactly the children
/// `children`, each of them a leaf.
pub open spec fn is_node(tree: TaskTree, own: TaskWithUser, children: Map<i64, TaskWithUser>) -> bool {
    &&& tree.own == own
    &&& tree.children matches Some(c) && c@.dom() == children.dom() && forall|id: i64|
        #[trigger] c@.contains_key(id) ==> is_leaf(c@[id], children[id])
}

/// Whether `tree` is a node for `own` without children.
pub open spec fn is_leaf(tree: TaskTree, own: TaskWithUser) -> bool {
    &&& tree.own == own
    &&& tree.children matches Some(g) && g@ == Map::<i64, TaskTree>::empty()
}

fn orphan_error(t: &TaskWithUser, parent_id: i64) -> (m: String)
    requires
        t.parent_id == Some(parent_id),
    ensures
        m@ == orphan_message(*t),
{
    let mut m = String::from_str("Parent task with ID ");
    let p = i64_to_decimal(parent_id);
    m.append(p.as_str());
    m.append(" not found for task ");
    let c = i64_to_decimal(t.task_id);
    m.append(c.as_str());
    m
}

/// Builds the task tree of a project from its major tasks and its minor
/// tasks: each major task is a node by its id, and each minor task becomes a
/// leaf under the major task that is its parent. A minor task without a
/// parent is left out, and one whose parent is not among the major tasks
/// makes the whole tree an error.
pub fn build_task_tree(level0: &Vec<TaskWithUser>, level1: &Vec<TaskWithUser>) -> (r: Result<
    HashMap<i64, TaskTree>,
    String,
>)
    ensures
        match r {
            Ok(tree) => {
                &&& forall|k: int| 0 <= k < level1@.len() ==> !is_orphan(
                    #[trigger] level1@[k],
                    tasks_by_id(level0@).dom(),
                )
                &&& tree@.dom() == tasks_by_id(level0@).dom()
                &&& forall|id: i64| #[trigger]
                    tree@.contains_key(id) ==> is_node(
                        tree@[id],
                        tasks_by_id(level0@)[id],
                        children_of(level1@, id),
                    )
            },
            Err(m) => exists|k: int|
                is_first_orphan(level1@, tasks_by_id(level0@).dom(), k) && m@ == orphan_message(
                    level1@[k],
                ),
        },
{
    let mut task_map: HashMap<i64, TaskTree> = HashMap::new();
    let mut i: usize = 0;
    while i < level0.len()
        invariant
            i <= level0@.len(),
            task_map@.dom() == tasks_by_id(level0@.take(i as int)).dom(),
            forall|id: i64| #[trigger]
                task_map@.contains_key(id) ==> is_node(
                    task_map@[id],
                    tasks_by_id(level0@.take(i as int))[id],
                    Map::empty(),
                ),
        decreases level0@.len() - i,
    {
        let task = level0[i].clone();
        let id = task.task_id;
        let tree = TaskTree { own: task, children: Some(HashMap::new()) };
        task_map.insert(id, tree);
        assert(level0@.take(i + 1).drop_last() == level0@.take(i as int));
        i = i + 1;
        assert(task_map@.dom() =~= tasks_by_id(level0@.take(i as int)).dom());
    }
    assert(level0@.take(level0@.len() as int) == level0@);
    let ghost ids = tasks_by_id(level0@).dom();
    let mut j: usize = 0;
    while j < level1.len()
        invariant
            j <= level1@.len(),
            ids == tasks_by_id(level0@).dom(),
            forall|k: int| 0 <= k < j ==> !is_orphan(#[trigger] level1@[k], ids),
            task_map@.dom() == ids,
            forall|id: i64| #[trigger]
                task_map@.contains_key(id) ==> is_node(
                    task_map@[id],
                    tasks_by_id(level0@)[id],
                    children_of(level1@.take(j as int), id),
                ),
        decreases level1@.len() - j,
    {
        let task = level1[j].clone();
        assert(level1@.take(j + 1).drop_last() == level1@.take(j as int));
        assert(level1@.take(j + 1).last() == level1@[j as int]);
        match task.parent_id {
            None => {},
            Some(parent_id) => {
                match task_map.remove(&parent_id) {
                    None => {
                        let m = orphan_error(&task, parent_id);
                        assert(is_first_orphan(level1@, ids, j as int));
                        return Err(m);
                    },
                    Some(parent_tree) => {
                        let ghost before = task_map@;
                        let TaskTree { own, children } = parent_tree;
                        let mut kids = children.unwrap();
                        let child_id = task.task_id;
                        kids.insert(child_id, TaskTree { own: task, children: Some(HashMap::new()) });
                        task_map.insert(parent_id, TaskTree { own, children: Some(kids) });
                    },
                }
            },
        }
        j = j + 1;
        assert forall|id: i64| #[trigger]
            task_map@.contains_key(id) implies is_node(
                task_map@[id],
                tasks_by_id(level0@)[id],
                children_of(level1@.take(j as int), id),
            ) by {
            let c = task_map@[id].children->0;
            assert(c@.dom() =~= children_of(level1@.take(j as int), id).dom());
        }
        assert(task_map@.dom() =~= ids);
    }
    assert(level1@.take(level1@.len() as int) == level1@);
    Ok(task_map)
}

/// The tasks of a list by id hold exactly the ids of the list, and each id
/// leads to a task of the list with that id.
pub proof fn lemma_tasks_by_id(ts: Seq<TaskWithUser>, id: i64, k: int)
    ensures
        tasks_by_id(ts).contains_key(id) ==> tasks_by_id(ts)[id].task_id == id && ts.contains(
            tasks_by_id(ts)[id],
        ),
        0 <= k < ts.len() ==> tasks_by_id(ts).contains_key(ts[k].task_id),
    decreases ts.len(),
{
    if ts.len() > 0 {
        lemma_tasks_by_id(ts.drop_last(), id, k);
        if tasks_by_id(ts.drop_last()).contains_key(id) {
            let t = tasks_by_id(ts.drop_last())[id];
            assert(ts.drop_last().contains(t));
            let j = choose|j: int| 0 <= j < ts.drop_last().len() && ts.drop_last()[j] == t;
            assert(ts[j] == t);
        }
        assert(ts[ts.len() - 1] == ts.last());
    }
}

/// The children of a parent in a list are tasks of the list whose parent is
/// that parent, each under its own id, and every such task of the list has
/// its id among them.
pub proof fn lemma_children_of(ts: Seq<TaskWithUser>, parent: i64, id: i64, k: int)
    ensures
        children_of(ts, parent).contains_key(id) ==> children_of(ts, parent)[id].task_id == id,
        children_of(ts, parent).contains_key(id) ==> children_of(ts, parent)[id].parent_id == Some(
            parent,
        ),
        children_of(ts, parent).contains_key(id) ==> ts.contains(children_of(ts, parent)[id]),
        0 <= k < ts.len() && ts[k].parent_id == Some(parent) ==> children_of(
            ts,
            parent,
        ).contains_key(ts[k].task_id),
    decreases ts.len(),
{
    if ts.len() > 0 {
        lemma_children_of(ts.drop_last(), parent, id, k);
        if children_of(ts.drop_last(), parent).contains_key(id) {
            let t = children_of(ts.drop_last(), parent)[id];
            assert(ts.drop_last().contains(t));
            let j = choose|j: int| 0 <= j < ts.drop_last().len() && ts.drop_last()[j] == t;
            assert(ts[j] == t);
        }
        assert(ts[ts.len() - 1] == ts.last());
    }
}

} // verus!

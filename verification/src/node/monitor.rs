//! The registry and the store agree on which nodes are online.
//!
//! The store's `sub_key` is what decides a node's status. The registry's
//! copy agrees with it when a state is materialized, and stays in agreement
//! as long as every flip that a sweep reports is written to the node's row.

use vstd::prelude::*;
use crate::constants::MODULE_NODE;
use crate::kvs::{selects, with_sub_key_value, DbSet, KvsError, KvsView, Selector};
use crate::node::{
    alive,
    created_state,
    node_from_kvs,
    holds,
    index_of,
    named,
    status_changes,
    status_set,
    status_sub_key,
    status_text,
    swept,
    unique_names,
    with_status,
    without,
    NodeStateView,
    NodeView,
    StatusChange,
    StatusChangeView,
};

verus! {

/// Whether a row is the row of the node `name`.
pub open spec fn row_of(r: KvsView, name: Seq<char>) -> bool {
    r.module == MODULE_NODE@ && r.key == name
}

/// Every state is online exactly if the row of its node says `online`.
pub open spec fn mirrors(states: Seq<NodeStateView>, rows: Seq<KvsView>) -> bool {
    forall|i: int, j: int|
        0 <= i < states.len() && 0 <= j < rows.len() && row_of(
            #[trigger] rows[j],
            (#[trigger] states[i]).node.name,
        ) ==> (states[i].node.status <==> rows[j].sub_key == "online"@)
}

/// No node has two rows.
pub open spec fn one_row_per_node(rows: Seq<KvsView>) -> bool {
    forall|a: int, b: int|
        0 <= a < b < rows.len() && (#[trigger] rows[a]).module == MODULE_NODE@ && (
        #[trigger] rows[b]).module == MODULE_NODE@ ==> rows[a].key != rows[b].key
}

/// The rows after the status of the node `name` was written: its row has the
/// new `sub_key` and `value`, every other row is as before.
pub open spec fn status_written(
    rows: Seq<KvsView>,
    name: Seq<char>,
    online: bool,
    value: Seq<char>,
) -> Seq<KvsView> {
    rows.map_values(
        |x: KvsView|
            if row_of(x, name) {
                with_sub_key_value(x, status_text(online), value)
            } else {
                x
            },
    )
}

/// Whether `after` is `before` with every flip of `changes` written: a row
/// of a node that flips has the new status as its `sub_key`, every other row
/// has its module, key and `sub_key` as before.
pub open spec fn changes_written(
    before: Seq<KvsView>,
    after: Seq<KvsView>,
    changes: Seq<StatusChangeView>,
) -> bool {
    &&& after.len() == before.len()
    &&& forall|j: int|
        0 <= j < before.len() ==> (#[trigger] after[j]).module == before[j].module && after[j].key
            == before[j].key
    &&& forall|j: int, k: int|
        0 <= j < before.len() && 0 <= k < changes.len() && row_of(
            #[trigger] before[j],
            (#[trigger] changes[k]).name,
        ) ==> after[j].sub_key == status_text(changes[k].online)
    &&& forall|j: int|
        0 <= j < before.len() && (forall|k: int|
            0 <= k < changes.len() ==> !row_of(before[j], (#[trigger] changes[k]).name))
            ==> (#[trigger] after[j]).sub_key == before[j].sub_key
}

/// What a listing selects: the rows of the module of the nodes, all of them
/// or those whose `sub_key` says `online`.
pub open spec fn listing_selector(all: bool) -> Selector {
    Selector {
        module: MODULE_NODE@,
        key: None,
        sub_key: if all {
            None
        } else {
            Some(status_text(true))
        },
        third_key: None,
    }
}

/// A listing that does not ask for all nodes selects a node's row exactly
/// if the row says `online`, and the state that such a row materializes to
/// is online: a node whose row says anything else is not listed.
pub proof fn lemma_listing_is_online(row: KvsView, decoded: NodeView, now: u64, instance: u64)
    requires
        row.module == MODULE_NODE@,
    ensures
        selects(listing_selector(false), row) <==> row.sub_key == "online"@,
        selects(listing_selector(false), row) ==> created_state(
            row,
            decoded,
            now,
            instance,
        ).node.status,
        selects(listing_selector(false), row) ==> node_from_kvs(row, decoded).status,
        selects(listing_selector(true), row),
{
}

/// A state that is materialized from a row is online exactly if the row's
/// `sub_key` says `online`.
pub proof fn lemma_created_state_mirrors_row(
    kv: KvsView,
    decoded: NodeView,
    now: u64,
    instance: u64,
)
    ensures
        created_state(kv, decoded, now, instance).node.status <==> kv.sub_key == "online"@,
        created_state(kv, decoded, now, instance).node.name == kv.key,
{
}

/// Materializing a node from its row keeps registry and store in agreement.
pub proof fn lemma_load_keeps_mirror(
    states: Seq<NodeStateView>,
    rows: Seq<KvsView>,
    j: int,
    decoded: NodeView,
    now: u64,
    instance: u64,
)
    requires
        unique_names(states),
        one_row_per_node(rows),
        mirrors(states, rows),
        0 <= j < rows.len(),
        rows[j].module == MODULE_NODE@,
    ensures
        mirrors(
            without(states, rows[j].key).push(created_state(rows[j], decoded, now, instance)),
            rows,
        ),
{
    let rest = without(states, rows[j].key);
    let after = rest.push(created_state(rows[j], decoded, now, instance));
    assert forall|i: int, r: int|
        0 <= i < after.len() && 0 <= r < rows.len() && row_of(
            #[trigger] rows[r],
            (#[trigger] after[i]).node.name,
        ) implies (after[i].node.status <==> rows[r].sub_key == "online"@) by {
        if i == rest.len() {
            if r != j {
                if r < j {
                    assert(rows[r].key != rows[j].key);
                } else {
                    assert(rows[j].key != rows[r].key);
                }
            }
        } else {
            lemma_without_member(states, rows[j].key, i);
            let i0 = choose|i0: int| 0 <= i0 < states.len() && states[i0] == rest[i];
            assert(row_of(rows[r], states[i0].node.name));
        }
    }
}

/// Every state that is left without a node's state was there before.
pub proof fn lemma_without_member(states: Seq<NodeStateView>, name: Seq<char>, i: int)
    requires
        0 <= i < without(states, name).len(),
    ensures
        exists|i0: int| 0 <= i0 < states.len() && states[i0] == without(states, name)[i],
{
    if holds(states, name) {
        let p = index_of(states, name);
        assert(named(states, name, p));
        if i < p {
            assert(states[i] == without(states, name)[i]);
        } else {
            assert(states[i + 1] == without(states, name)[i]);
        }
    } else {
        assert(states[i] == without(states, name)[i]);
    }
}

/// Forgetting the state of a node keeps registry and store in agreement,
/// whatever is written to that node's row afterwards.
pub proof fn lemma_forget_keeps_mirror(
    states: Seq<NodeStateView>,
    rows: Seq<KvsView>,
    later: Seq<KvsView>,
    name: Seq<char>,
)
    requires
        unique_names(states),
        mirrors(states, rows),
        forall|r: int|
            0 <= r < later.len() ==> row_of(#[trigger] later[r], name) || exists|r0: int|
                0 <= r0 < rows.len() && rows[r0] == later[r],
    ensures
        mirrors(without(states, name), later),
{
    let rest = without(states, name);
    assert forall|i: int, r: int|
        0 <= i < rest.len() && 0 <= r < later.len() && row_of(
            #[trigger] later[r],
            (#[trigger] rest[i]).node.name,
        ) implies (rest[i].node.status <==> later[r].sub_key == "online"@) by {
        lemma_without_member(states, name, i);
        let i0 = choose|i0: int| 0 <= i0 < states.len() && states[i0] == rest[i];
        crate::node::lemma_without_drops(states, name);
        assert(!named(rest, name, i));
        assert(!row_of(later[r], name));
        let r0 = choose|r0: int| 0 <= r0 < rows.len() && rows[r0] == later[r];
        assert(row_of(rows[r0], states[i0].node.name));
    }
}

/// Flipping a node in the registry and writing the same status to its row
/// keeps registry and store in agreement.
pub proof fn lemma_flip_keeps_mirror(
    states: Seq<NodeStateView>,
    rows: Seq<KvsView>,
    name: Seq<char>,
    online: bool,
    value: Seq<char>,
)
    requires
        mirrors(states, rows),
    ensures
        mirrors(status_set(states, name, online), status_written(rows, name, online, value)),
{
    reveal_strlit("online");
    reveal_strlit("offline");
    assert("online"@.len() == 6 && "offline"@.len() == 7);
    let s2 = status_set(states, name, online);
    let r2 = status_written(rows, name, online, value);
    assert forall|i: int, j: int|
        0 <= i < s2.len() && 0 <= j < r2.len() && row_of(
            #[trigger] r2[j],
            (#[trigger] s2[i]).node.name,
        ) implies (s2[i].node.status <==> r2[j].sub_key == "online"@) by {
        assert(r2[j].key == rows[j].key && r2[j].module == rows[j].module);
        assert(s2[i].node.name == states[i].node.name);
        assert(row_of(rows[j], states[i].node.name));
    }
}

/// Each flip that a sweep reports is of a state that the sweep changes, and
/// carries that state's name and new status.
pub proof fn lemma_changes_are_flips(states: Seq<NodeStateView>, now: u64, k: int)
    requires
        0 <= k < status_changes(states, now).len(),
    ensures
        exists|i: int|
            0 <= i < states.len() && (#[trigger] states[i]).node.status != alive(
                now,
                states[i].last_heartbeat,
            ) && status_changes(states, now)[k] == (StatusChangeView {
                name: states[i].node.name,
                online: alive(now, states[i].last_heartbeat),
            }),
    decreases states.len(),
{
    if states.len() > 0 {
        let rest = status_changes(states.drop_last(), now);
        let s = states.last();
        if k < rest.len() {
            lemma_changes_are_flips(states.drop_last(), now, k);
            let i = choose|i: int|
                0 <= i < states.drop_last().len() && (#[trigger] states.drop_last()[i]).node.status
                    != alive(now, states.drop_last()[i].last_heartbeat) && rest[k] == (
                StatusChangeView {
                    name: states.drop_last()[i].node.name,
                    online: alive(now, states.drop_last()[i].last_heartbeat),
                });
            assert(states[i] == states.drop_last()[i]);
        } else {
            assert(states[states.len() - 1] == s);
        }
    }
}

/// Each state that a sweep changes is among the flips that it reports.
pub proof fn lemma_flips_are_changes(states: Seq<NodeStateView>, now: u64, i: int)
    requires
        0 <= i < states.len(),
        states[i].node.status != alive(now, states[i].last_heartbeat),
    ensures
        exists|k: int|
            0 <= k < status_changes(states, now).len() && (#[trigger] status_changes(
                states,
                now,
            )[k]) == (StatusChangeView {
                name: states[i].node.name,
                online: alive(now, states[i].last_heartbeat),
            }),
    decreases states.len(),
{
    let all = status_changes(states, now);
    let rest = status_changes(states.drop_last(), now);
    if i == states.len() - 1 {
        assert(all[rest.len() as int] == (StatusChangeView {
            name: states[i].node.name,
            online: alive(now, states[i].last_heartbeat),
        }));
    } else {
        assert(states.drop_last()[i] == states[i]);
        lemma_flips_are_changes(states.drop_last(), now, i);
        let k = choose|k: int|
            0 <= k < rest.len() && (#[trigger] rest[k]) == (StatusChangeView {
                name: states[i].node.name,
                online: alive(now, states[i].last_heartbeat),
            });
        assert(all[k] == rest[k]);
    }
}

/// After a sweep, once every reported flip is written to its node's row,
/// registry and store agree again on which nodes are online.
pub proof fn lemma_sweep_keeps_mirror(
    states: Seq<NodeStateView>,
    rows: Seq<KvsView>,
    after: Seq<KvsView>,
    now: u64,
)
    requires
        unique_names(states),
        mirrors(states, rows),
        changes_written(rows, after, status_changes(states, now)),
    ensures
        mirrors(swept(states, now), after),
{
    reveal_strlit("online");
    reveal_strlit("offline");
    assert("online"@.len() == 6 && "offline"@.len() == 7);
    let s2 = swept(states, now);
    let changes = status_changes(states, now);
    assert forall|i: int, j: int|
        0 <= i < s2.len() && 0 <= j < after.len() && row_of(
            #[trigger] after[j],
            (#[trigger] s2[i]).node.name,
        ) implies (s2[i].node.status <==> after[j].sub_key == "online"@) by {
        let up = alive(now, states[i].last_heartbeat);
        assert(s2[i] == with_status(states[i], up));
        assert(row_of(rows[j], states[i].node.name));
        if states[i].node.status != up {
            lemma_flips_are_changes(states, now, i);
            let k = choose|k: int|
                0 <= k < changes.len() && (#[trigger] changes[k]) == (StatusChangeView {
                    name: states[i].node.name,
                    online: up,
                });
            assert(row_of(rows[j], changes[k].name));
        } else {
            assert forall|k: int| 0 <= k < changes.len() implies !row_of(
                rows[j],
                (#[trigger] changes[k]).name,
            ) by {
                if row_of(rows[j], changes[k].name) {
                    lemma_changes_are_flips(states, now, k);
                    let i2 = choose|i2: int|
                        0 <= i2 < states.len() && (#[trigger] states[i2]).node.status != alive(
                            now,
                            states[i2].last_heartbeat,
                        ) && changes[k] == (StatusChangeView {
                            name: states[i2].node.name,
                            online: alive(now, states[i2].last_heartbeat),
                        });
                    if i2 < i {
                        assert(states[i2].node.name != states[i].node.name);
                    } else if i < i2 {
                        assert(states[i].node.name != states[i2].node.name);
                    }
                }
            }
        }
    }
}

/// Writes a reported flip to the row of its node: the new status becomes the
/// row's `sub_key`, and `value`, the node's record with the new status, its
/// value. A node with more than one row is left as it is.
pub fn update_node_status_db(db: &mut DbSet, change: &StatusChange, value: &str) -> (r: Result<
    usize,
    KvsError,
>)
    requires
        old(db).wf(),
    ensures
        final(db).wf(),
        final(db).next_id() == old(db).next_id(),
        match r {
            Ok(n) => n <= 1 && final(db)@ == status_written(
                old(db)@,
                change@.name,
                change@.online,
                value@,
            ),
            Err(e) => e == KvsError::UniqueViolation && final(db)@ == old(db)@,
        },
        one_row_per_node(old(db)@) ==> r is Ok,
{
    let r = db.update_sub_key(
        MODULE_NODE,
        change.name.as_str(),
        status_sub_key(change.online),
        value,
    );
    proof {
        if r is Ok {
            assert(db@ =~= status_written(old(db)@, change@.name, change@.online, value@));
        }
        if one_row_per_node(old(db)@) {
            lemma_one_row_one_hit(old(db)@, change@.name);
        }
    }
    r
}

/// Where no node has two rows, a node's name selects one row at most.
pub proof fn lemma_one_row_one_hit(rows: Seq<KvsView>, name: Seq<char>)
    requires
        one_row_per_node(rows),
    ensures
        crate::kvs::selected(
            rows,
            crate::kvs::Selector {
                module: MODULE_NODE@,
                key: Some(name),
                sub_key: None,
                third_key: None,
            },
        ).len() <= 1,
    decreases rows.len(),
{
    let sel = crate::kvs::Selector {
        module: MODULE_NODE@,
        key: Some(name),
        sub_key: None,
        third_key: None,
    };
    let pred = |r: KvsView| crate::kvs::selects(sel, r);
    reveal(Seq::filter);
    if rows.len() > 0 {
        let head = rows.drop_last();
        assert forall|a: int, b: int|
            0 <= a < b < head.len() && (#[trigger] head[a]).module == MODULE_NODE@ && (
            #[trigger] head[b]).module == MODULE_NODE@ implies head[a].key != head[b].key by {
            assert(rows[a].key != rows[b].key);
        }
        lemma_one_row_one_hit(head, name);
        if pred(rows.last()) && head.filter(pred).len() == 1 {
            head.lemma_filter_pred(pred, 0);
            head.lemma_filter_contains_rev(pred, head.filter(pred)[0]);
            let k = choose|k: int| 0 <= k < head.len() && head[k] == head.filter(pred)[0];
            assert(rows[k].key != rows[rows.len() - 1].key);
        }
    }
}

/// The rows that a listing reads from the store: the rows of the nodes, all
/// of them or those that say `online`.
pub fn select_nodes(db: &DbSet, all: bool) -> (rows: Vec<crate::kvs::KvsForDb>)
    ensures
        crate::kvs::views(rows@) == crate::kvs::selected(db@, listing_selector(all)),
{
    let sub_key = crate::node::list_sub_key(all);
    let rows = db.select(MODULE_NODE, None, sub_key, None);
    proof {
        assert(crate::kvs::selector(MODULE_NODE, None, sub_key, None) == listing_selector(all));
    }
    rows
}

/// No two flips that a sweep reports are of the same node.
pub proof fn lemma_changes_have_unique_names(states: Seq<NodeStateView>, now: u64)
    requires
        unique_names(states),
    ensures
        unique_change_names(status_changes(states, now)),
    decreases states.len(),
{
    let all = status_changes(states, now);
    if states.len() > 0 {
        let head = states.drop_last();
        assert forall|a: int, b: int| 0 <= a < b < head.len() implies (#[trigger] head[a]).node.name
            != (#[trigger] head[b]).node.name by {
            assert(states[a].node.name != states[b].node.name);
        }
        lemma_changes_have_unique_names(head, now);
        let rest = status_changes(head, now);
        assert forall|a: int, b: int| 0 <= a < b < all.len() implies (#[trigger] all[a]).name != (
        #[trigger] all[b]).name by {
            if b < rest.len() {
                assert(all[a] == rest[a] && all[b] == rest[b]);
            } else {
                lemma_changes_are_flips(head, now, a);
                let i = choose|i: int|
                    0 <= i < head.len() && (#[trigger] head[i]).node.status != alive(
                        now,
                        head[i].last_heartbeat,
                    ) && rest[a] == (StatusChangeView {
                        name: head[i].node.name,
                        online: alive(now, head[i].last_heartbeat),
                    });
                assert(states[i].node.name != states[states.len() - 1].node.name);
            }
        }
    }
}

/// No two flips are of the same node.
pub open spec fn unique_change_names(changes: Seq<StatusChangeView>) -> bool {
    forall|a: int, b: int|
        0 <= a < b < changes.len() ==> (#[trigger] changes[a]).name != (#[trigger] changes[b]).name
}

/// Writes the flips that a sweep reported to the rows of their nodes, one
/// after the other; `values` holds, flip by flip, the node's record with
/// the new status. Afterwards every flip is written, which is what
/// `lemma_sweep_keeps_mirror` asks for: registry and store agree again on
/// which nodes are online.
pub fn persist_status_changes(
    db: &mut DbSet,
    changes: &Vec<StatusChange>,
    values: &Vec<String>,
)
    requires
        old(db).wf(),
        one_row_per_node(old(db)@),
        values@.len() == changes@.len(),
        unique_change_names(crate::node::change_views(changes@)),
    ensures
        final(db).wf(),
        final(db).next_id() == old(db).next_id(),
        one_row_per_node(final(db)@),
        changes_written(old(db)@, final(db)@, crate::node::change_views(changes@)),
{
    let ghost all = crate::node::change_views(changes@);
    let ghost start = db@;
    let mut i: usize = 0;
    proof {
        assert(all.take(0) =~= Seq::<StatusChangeView>::empty());
    }
    while i < changes.len()
        invariant
            i <= changes.len(),
            values@.len() == changes@.len(),
            all == crate::node::change_views(changes@),
            unique_change_names(all),
            start == old(db)@,
            db.wf(),
            db.next_id() == old(db).next_id(),
            one_row_per_node(db@),
            changes_written(start, db@, all.take(i as int)),
        decreases changes.len() - i,
    {
        let ghost cur = db@;
        let ghost c = all[i as int];
        proof {
            assert(c == changes@[i as int]@);
        }
        let r = update_node_status_db(db, &changes[i], values[i].as_str());
        proof {
            assert(r is Ok);
            let next = db@;
            let done = all.take(i as int + 1);
            assert(next == status_written(cur, c.name, c.online, values@[i as int]@));
            assert forall|j: int| 0 <= j < start.len() implies (#[trigger] next[j]).module
                == start[j].module && next[j].key == start[j].key by {
                assert(cur[j].module == start[j].module && cur[j].key == start[j].key);
            }
            assert forall|j: int, k: int|
                0 <= j < start.len() && 0 <= k < done.len() && row_of(
                    #[trigger] start[j],
                    (#[trigger] done[k]).name,
                ) implies next[j].sub_key == status_text(done[k].online) by {
                assert(cur[j].module == start[j].module && cur[j].key == start[j].key);
                if k == i {
                    assert(row_of(cur[j], c.name));
                } else {
                    assert(done[k] == all.take(i as int)[k]);
                    assert(all[k].name != all[i as int].name);
                    assert(!row_of(cur[j], c.name));
                }
            }
            assert forall|j: int|
                0 <= j < start.len() && (forall|k: int|
                    0 <= k < done.len() ==> !row_of(start[j], (#[trigger] done[k]).name))
                    implies (#[trigger] next[j]).sub_key == start[j].sub_key by {
                assert(cur[j].module == start[j].module && cur[j].key == start[j].key);
                assert(!row_of(start[j], done[i as int].name));
                assert forall|k: int| 0 <= k < all.take(i as int).len() implies !row_of(
                    start[j],
                    (#[trigger] all.take(i as int)[k]).name,
                ) by {
                    assert(done[k] == all.take(i as int)[k]);
                }
                assert(cur[j].sub_key == start[j].sub_key);
            }
            assert forall|a: int, b: int|
                0 <= a < b < next.len() && (#[trigger] next[a]).module == MODULE_NODE@ && (
                #[trigger] next[b]).module == MODULE_NODE@ implies next[a].key != next[b].key by {
                assert(cur[a].key != cur[b].key);
            }
        }
        i += 1;
    }
    proof {
        assert(all.take(i as int) =~= all);
    }
}

} // verus!

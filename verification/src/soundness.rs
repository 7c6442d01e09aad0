//! What holds of the store whatever is requested: its records fit together, and
//! every request comes to an end.

use vstd::prelude::*;

use crate::error::AppError;
use crate::flow;
use crate::flow::{Effect, Job, Reply, Step};
use crate::records::{MenuRow, MenuRowView, OrderItemRow, OrderItemRowView};
use crate::store;
use crate::store::Db;

verus! {

/// The records fit together: each is kept under its own id, what it refers to is
/// there, an address belongs to one admin, orders have one of the four statuses,
/// and each line orders at least one piece.
pub open spec fn sound(db: Db) -> bool {
    &&& forall|id: Seq<char>| #[trigger] db.orgs.contains_key(id) ==> db.orgs[id].org.id == id
    &&& forall|id: Seq<char>| #[trigger]
        db.users.contains_key(id) ==> db.users[id].id == id && db.orgs.contains_key(
            db.users[id].org_id,
        )
    &&& forall|a: Seq<char>, b: Seq<char>|
        #![trigger db.users.contains_key(a), db.users.contains_key(b)]
        db.users.contains_key(a) && db.users.contains_key(b) && db.users[a].email
            == db.users[b].email ==> a == b
    &&& forall|id: Seq<char>| #[trigger]
        db.tables.contains_key(id) ==> db.tables[id].table.id == id && db.orgs.contains_key(
            db.tables[id].org_id,
        )
    &&& forall|id: Seq<char>| #[trigger]
        db.menu.contains_key(id) ==> db.menu[id].id == id && db.orgs.contains_key(
            db.menu[id].org_id,
        )
    &&& forall|id: Seq<char>| #[trigger]
        db.orders.contains_key(id) ==> {
            &&& db.orders[id].id == id
            &&& db.orgs.contains_key(db.orders[id].org_id)
            &&& flow::valid_status(db.orders[id].status)
        }
    &&& forall|id: Seq<char>| #[trigger]
        db.order_items.contains_key(id) ==> {
            &&& db.order_items[id].id == id
            &&& db.orders.contains_key(db.order_items[id].order_id)
            &&& db.order_items[id].qty > 0
        }
}

/// The rows are in the menu that they were added to, and nothing else changed.
pub proof fn lemma_with_rows(menu: Map<Seq<char>, MenuRowView>, rows: Seq<MenuRow>)
    requires
        store::fresh_rows(menu, rows),
    ensures
        forall|i: int|
            0 <= i < rows.len() ==> store::with_rows(menu, rows).contains_key(
                (#[trigger] rows[i]).id@,
            ) && store::with_rows(menu, rows)[rows[i].id@] == rows[i]@,
        forall|id: Seq<char>| #[trigger]
            menu.contains_key(id) ==> store::with_rows(menu, rows).contains_key(id)
                && store::with_rows(menu, rows)[id] == menu[id],
        forall|id: Seq<char>| #[trigger]
            store::with_rows(menu, rows).contains_key(id) ==> menu.contains_key(id) || exists|i: int|
                0 <= i < rows.len() && (#[trigger] rows[i]).id@ == id,
    decreases rows.len(),
{
    if rows.len() > 0 {
        let fewer = rows.drop_last();
        assert(store::fresh_rows(menu, fewer)) by {
            assert forall|i: int| 0 <= i < fewer.len() implies !menu.contains_key(
                #[trigger] fewer[i].id@,
            ) by {
                assert(fewer[i] == rows[i]);
            }
        }
        lemma_with_rows(menu, fewer);
        let with = store::with_rows(menu, rows);
        let n = rows.len() - 1;
        assert forall|i: int| 0 <= i < rows.len() implies with.contains_key((#[trigger] rows[i]).id@)
            && with[rows[i].id@] == rows[i]@ by {
            if i < n {
                assert(fewer[i] == rows[i]);
                assert(rows[i].id@ != rows[n].id@);
            }
        }
        assert(!menu.contains_key(rows[n].id@));
        assert forall|id: Seq<char>| #[trigger] with.contains_key(id) implies menu.contains_key(id)
            || exists|i: int| 0 <= i < rows.len() && (#[trigger] rows[i]).id@ == id by {
            if id == rows[n].id@ {
            } else {
                assert(store::with_rows(menu, fewer).contains_key(id));
                if !menu.contains_key(id) {
                    let i = choose|i: int| 0 <= i < fewer.len() && (#[trigger] fewer[i]).id@ == id;
                    assert(rows[i].id@ == id);
                }
            }
        }
    }
}

/// The lines are with those that they were added to, and nothing else changed.
pub proof fn lemma_with_lines(lines: Map<Seq<char>, OrderItemRowView>, added: Seq<OrderItemRow>)
    requires
        store::fresh_lines(lines, added),
    ensures
        forall|i: int|
            0 <= i < added.len() ==> store::with_lines(lines, added).contains_key(
                (#[trigger] added[i]).id@,
            ) && store::with_lines(lines, added)[added[i].id@] == added[i]@,
        forall|id: Seq<char>| #[trigger]
            lines.contains_key(id) ==> store::with_lines(lines, added).contains_key(id)
                && store::with_lines(lines, added)[id] == lines[id],
        forall|id: Seq<char>| #[trigger]
            store::with_lines(lines, added).contains_key(id) ==> lines.contains_key(id)
                || exists|i: int| 0 <= i < added.len() && (#[trigger] added[i]).id@ == id,
    decreases added.len(),
{
    if added.len() > 0 {
        let fewer = added.drop_last();
        assert(store::fresh_lines(lines, fewer)) by {
            assert forall|i: int| 0 <= i < fewer.len() implies !lines.contains_key(
                #[trigger] fewer[i].id@,
            ) by {
                assert(fewer[i] == added[i]);
            }
        }
        lemma_with_lines(lines, fewer);
        let with = store::with_lines(lines, added);
        let n = added.len() - 1;
        assert forall|i: int| 0 <= i < added.len() implies with.contains_key(
            (#[trigger] added[i]).id@,
        ) && with[added[i].id@] == added[i]@ by {
            if i < n {
                assert(fewer[i] == added[i]);
                assert(added[i].id@ != added[n].id@);
            }
        }
        assert(!lines.contains_key(added[n].id@));
        assert forall|id: Seq<char>| #[trigger] with.contains_key(id) implies lines.contains_key(id)
            || exists|i: int| 0 <= i < added.len() && (#[trigger] added[i]).id@ == id by {
            if id == added[n].id@ {
            } else {
                assert(store::with_lines(lines, fewer).contains_key(id));
                if !lines.contains_key(id) {
                    let i = choose|i: int| 0 <= i < fewer.len() && (#[trigger] fewer[i]).id@ == id;
                    assert(added[i].id@ == id);
                }
            }
        }
    }
}

/// A change that the store permits, and that a request may ask for, leaves a
/// sound store sound.
pub proof fn law_changes_keep_store_sound(db: Db, effect: Effect)
    requires
        sound(db),
        flow::proper(effect),
        store::permits(db, effect),
    ensures
        sound(store::changed(db, effect)),
{
    let after = store::changed(db, effect);
    match effect {
        Effect::InsertUser { user } => {
            assert forall|a: Seq<char>, b: Seq<char>|
                #![trigger after.users.contains_key(a), after.users.contains_key(b)]
                after.users.contains_key(a) && after.users.contains_key(b) && after.users[a].email
                    == after.users[b].email implies a == b by {
                if a != b {
                    if a == user.id@ {
                        assert(db.users.contains_key(b));
                    } else if b == user.id@ {
                        assert(db.users.contains_key(a));
                    } else {
                        assert(db.users.contains_key(a));
                        assert(db.users.contains_key(b));
                    }
                }
            }
        },
        Effect::ReplaceMenu { org_id, rows } => {
            let others = store::other_menus(db.menu, org_id@);
            lemma_with_rows(others, rows@);
            assert forall|id: Seq<char>| #[trigger] after.menu.contains_key(id) implies after.menu[id].id
                == id && after.orgs.contains_key(after.menu[id].org_id) by {
                if others.contains_key(id) {
                    assert(db.menu.contains_key(id));
                } else {
                    let i = choose|i: int| 0 <= i < rows@.len() && (#[trigger] rows@[i]).id@ == id;
                    assert(rows@[i].org_id@ == org_id@);
                }
            }
        },
        Effect::PlaceOrder { order, items } => {
            lemma_with_lines(db.order_items, items@);
            assert forall|id: Seq<char>| #[trigger] after.order_items.contains_key(id) implies {
                &&& after.order_items[id].id == id
                &&& after.orders.contains_key(after.order_items[id].order_id)
                &&& after.order_items[id].qty > 0
            } by {
                if db.order_items.contains_key(id) {
                } else {
                    let i = choose|i: int| 0 <= i < items@.len() && (#[trigger] items@[i]).id@ == id;
                    assert(items@[i].order_id@ == order.id@);
                }
            }
        },
        _ => {},
    }
}

/// What a store can answer fits what it was asked.
pub proof fn lemma_served_fits(before: Db, effect: Effect, reply: Reply, after: Db)
    requires
        store::served(before, effect, reply, after),
    ensures
        flow::fits(effect, reply),
{
}

/// One turn of a request that waits for a reply.
pub proof fn lemma_one_turn<J: Job>(
    effect: Effect,
    job: J,
    before: Db,
    out: Result<J::Out, AppError>,
    after: Db,
    turns: nat,
) -> (r: (Reply, Db, Step<J, J::Out>))
    requires
        store::run(Step::<J, J::Out>::Await { effect, job }, before, out, after, turns),
    ensures
        turns > 0,
        store::served(before, effect, r.0, r.1),
        job.turn(r.0, r.2),
        store::run(r.2, r.1, out, after, (turns - 1) as nat),
{
    let (reply, mid, next) = choose|reply: Reply, mid: Db, next: Step<J, J::Out>|
        #![trigger store::served(before, effect, reply, mid), job.turn(reply, next)]
        store::served(before, effect, reply, mid) && job.turn(reply, next) && store::run(
            next,
            mid,
            out,
            after,
            (turns - 1) as nat,
        );
    (reply, mid, next)
}

/// One turn of a request that waits for a reply, on a store that serves steadily.
pub proof fn lemma_one_steady_turn<J: Job>(
    effect: Effect,
    job: J,
    before: Db,
    out: Result<J::Out, AppError>,
    after: Db,
    turns: nat,
) -> (r: (Reply, Db, Step<J, J::Out>))
    requires
        store::steady_run(Step::<J, J::Out>::Await { effect, job }, before, out, after, turns),
    ensures
        turns > 0,
        store::served_steadily(before, effect, r.0, r.1),
        job.turn(r.0, r.2),
        store::steady_run(r.2, r.1, out, after, (turns - 1) as nat),
{
    let (reply, mid, next) = choose|reply: Reply, mid: Db, next: Step<J, J::Out>|
        #![trigger store::served_steadily(before, effect, reply, mid), job.turn(reply, next)]
        store::served_steadily(before, effect, reply, mid) && job.turn(reply, next)
            && store::steady_run(next, mid, out, after, (turns - 1) as nat);
    (reply, mid, next)
}

/// What can happen on a store that serves steadily can happen on any store.
pub proof fn lemma_steady_run_is_run<J: Job>(
    step: Step<J, J::Out>,
    before: Db,
    out: Result<J::Out, AppError>,
    after: Db,
    turns: nat,
)
    requires
        store::steady_run(step, before, out, after, turns),
    ensures
        store::run(step, before, out, after, turns),
    decreases turns,
{
    if let Step::Await { effect, job } = step {
        let (reply, mid, next) = lemma_one_steady_turn(effect, job, before, out, after, turns);
        lemma_steady_run_is_run(next, mid, out, after, (turns - 1) as nat);
        assert(store::served(before, effect, reply, mid) && job.turn(reply, next));
    }
}

/// How many replies a request can still take.
pub open spec fn turns_of<J: Job>(step: Step<J, J::Out>) -> nat {
    match step {
        Step::Await { job, .. } => job.turns_left(),
        Step::Done(_) => 0,
    }
}

/// Whatever is requested, and whatever the store answers, a sound store stays sound.
pub proof fn law_requests_keep_store_sound<J: Job>(
    step: Step<J, J::Out>,
    before: Db,
    out: Result<J::Out, AppError>,
    after: Db,
    turns: nat,
)
    requires
        flow::ready(step),
        sound(before),
        store::run(step, before, out, after, turns),
    ensures
        sound(after),
    decreases turns,
{
    if let Step::Await { effect, job } = step {
        let (reply, mid, next) = lemma_one_turn(effect, job, before, out, after, turns);
        lemma_served_fits(before, effect, reply, mid);
        if !(reply is Failed) {
            law_changes_keep_store_sound(before, effect);
        }
        job.goes_on_ready(reply, next);
        law_requests_keep_store_sound(next, mid, out, after, (turns - 1) as nat);
    }
}

/// Every request ends, within the number of replies that its first step allows for.
pub proof fn law_requests_end<J: Job>(
    step: Step<J, J::Out>,
    before: Db,
    out: Result<J::Out, AppError>,
    after: Db,
    turns: nat,
)
    requires
        flow::ready(step),
        store::run(step, before, out, after, turns),
    ensures
        turns <= turns_of(step),
    decreases turns,
{
    if let Step::Await { effect, job } = step {
        let (reply, mid, next) = lemma_one_turn(effect, job, before, out, after, turns);
        lemma_served_fits(before, effect, reply, mid);
        job.goes_on_ready(reply, next);
        law_requests_end(next, mid, out, after, (turns - 1) as nat);
    }
}

} // verus!

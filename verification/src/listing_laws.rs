//! Which orders a listing shows, and what it shows of them.

use vstd::prelude::*;

use crate::auth::AuthUser;
use crate::clock;
use crate::error::{AppError, Status};
use crate::feed;
use crate::feed::{OrderSync, Syncing};
use crate::flow::{OrderFilter, Step};
use crate::orders;
use crate::orders::ListingOrders;
use crate::outcomes;
use crate::records::{AdminOrdersQuery, OrderOut, PendingQuery};
use crate::soundness;
use crate::store;
use crate::store::Db;

verus! {

/// The order is shown field by field as it is kept, with as many lines as it has,
/// each of which it has.
pub open spec fn as_kept(db: Db, shown: OrderOut) -> bool {
    let kept = db.orders[shown.id@];
    &&& db.orders.contains_key(shown.id@)
    &&& shown.table_id@ == kept.table_id
    &&& shown.table_name@ == kept.table_name
    &&& shown.status@ == kept.status
    &&& shown.subtotal == kept.subtotal
    &&& shown.tax == kept.tax
    &&& shown.total == kept.total
    &&& shown.created_at == kept.created_at
    &&& shown.updated_at == kept.updated_at
    &&& forall|j: int|
        0 <= j < shown.items@.len() ==> {
            let line = #[trigger] shown.items@[j];
            let row = db.order_items[line.id@];
            &&& db.order_items.contains_key(line.id@)
            &&& row.order_id == shown.id@
            &&& line.name@ == row.name
            &&& line.price == row.price
            &&& line.qty == row.qty
            &&& line.note@ == row.note
        }
    &&& forall|id: Seq<char>| #[trigger]
        db.order_items.contains_key(id) && db.order_items[id].order_id == shown.id@ ==> exists|
            j: int,
        |
            0 <= j < shown.items@.len() && (#[trigger] shown.items@[j]).id@ == id
    &&& forall|j: int, l: int|
        0 <= j < l < shown.items@.len() ==> (#[trigger] shown.items@[j]).id@ != (
        #[trigger] shown.items@[l]).id@
}

/// What `shows_order` says, field by field.
pub proof fn lemma_shown_as_kept(db: Db, shown: OrderOut)
    requires
        soundness::sound(db),
        db.orders.contains_key(shown.id@),
        store::shows_order(db, shown.id@, shown@),
    ensures
        as_kept(db, shown),
{
    let order_id = shown.id@;
    let ids = choose|ids: Seq<Seq<char>>| #[trigger]
        store::shows_lines(db, order_id, ids, shown@.items);
    assert(store::shows_lines(db, order_id, ids, shown@.items));
    let wanted = |id: Seq<char>| db.has_line(order_id, id);
    assert(store::lists(ids, wanted));
    assert(shown@.items.len() == shown.items@.len());
    assert forall|j: int| 0 <= j < shown.items@.len() implies {
        let line = #[trigger] shown.items@[j];
        let row = db.order_items[line.id@];
        &&& line.id@ == ids[j]
        &&& db.order_items.contains_key(line.id@)
        &&& row.order_id == shown.id@
        &&& line.name@ == row.name
        &&& line.price == row.price
        &&& line.qty == row.qty
        &&& line.note@ == row.note
    } by {
        assert(ids.contains(ids[j]));
        assert(wanted(ids[j]));
        assert(shown@.items[j] == store::line_view(db.order_items[ids[j]]));
        assert(shown@.items[j] == shown.items@[j]@);
    }
    assert forall|id: Seq<char>| #[trigger]
        db.order_items.contains_key(id) && db.order_items[id].order_id == shown.id@ implies exists|
        j: int,
    | 0 <= j < shown.items@.len() && (#[trigger] shown.items@[j]).id@ == id by {
        assert(wanted(id));
        assert(ids.contains(id));
        let j = choose|j: int| 0 <= j < ids.len() && ids[j] == id;
        assert(shown.items@[j].id@ == id);
    }
    assert forall|j: int, l: int| 0 <= j < l < shown.items@.len() implies (
    #[trigger] shown.items@[j]).id@ != (#[trigger] shown.items@[l]).id@ by {
        assert(shown.items@[j].id@ == ids[j] && shown.items@[l].id@ == ids[l]);
    }
}

/// The orders shown are those of the organisation that the filter lets through, all
/// of them, each once, the latest first.
proof fn lemma_listed(
    db: Db,
    org_id: Seq<char>,
    filter: OrderFilter,
    shown: Seq<OrderOut>,
)
    requires
        soundness::sound(db),
        exists|ids: Seq<Seq<char>>| #[trigger] store::shows_orders(db, org_id, filter, ids, shown),
    ensures
        forall|i: int|
            0 <= i < shown.len() ==> as_kept(db, #[trigger] shown[i]) && db.orders[shown[i].id@].org_id
                == org_id && store::passes(db.orders[shown[i].id@], filter),
        forall|i: int, j: int|
            0 <= i < j < shown.len() ==> (#[trigger] shown[i]).id@ != (#[trigger] shown[j]).id@
                && shown[i].created_at >= shown[j].created_at,
        forall|id: Seq<char>| #[trigger]
            db.orders.contains_key(id) && db.orders[id].org_id == org_id && store::passes(
                db.orders[id],
                filter,
            ) ==> exists|i: int| 0 <= i < shown.len() && (#[trigger] shown[i]).id@ == id,
{
    let ids = choose|ids: Seq<Seq<char>>| #[trigger]
        store::shows_orders(db, org_id, filter, ids, shown);
    let wanted = |id: Seq<char>| db.has_order(org_id, id) && store::passes(db.orders[id], filter);
    assert(store::lists(ids, wanted));
    assert forall|i: int| 0 <= i < shown.len() implies as_kept(db, #[trigger] shown[i])
        && db.orders[shown[i].id@].org_id == org_id && store::passes(db.orders[shown[i].id@], filter)
        && shown[i].id@ == ids[i] by {
        assert(ids.contains(ids[i]));
        assert(wanted(ids[i]));
        assert(store::shows_order(db, ids[i], shown[i]@));
        assert(shown[i].id@ == db.orders[ids[i]].id);
        lemma_shown_as_kept(db, shown[i]);
    }
    assert forall|i: int, j: int| 0 <= i < j < shown.len() implies (#[trigger] shown[i]).id@ != (
    #[trigger] shown[j]).id@ && shown[i].created_at >= shown[j].created_at by {
        assert(shown[i].id@ == ids[i] && shown[j].id@ == ids[j]);
        assert(as_kept(db, shown[i]) && as_kept(db, shown[j]));
        assert(db.orders[ids[i]].created_at >= db.orders[ids[j]].created_at);
    }
    assert forall|id: Seq<char>| #[trigger]
        db.orders.contains_key(id) && db.orders[id].org_id == org_id && store::passes(
            db.orders[id],
            filter,
        ) implies exists|i: int| 0 <= i < shown.len() && (#[trigger] shown[i]).id@ == id by {
        assert(wanted(id));
        assert(ids.contains(id));
        let i = choose|i: int| 0 <= i < ids.len() && ids[i] == id;
        assert(shown[i].id@ == id);
    }
}

/// A listing for an admin is about a stretch of time: where the query gives two
/// points in time, from the one to the other; and else from midnight to now. A text
/// that is no point in time is refused with 400, which says of which of the two.
pub proof fn law_range_is_the_one_asked_for(
    q: AdminOrdersQuery,
    now_ms: i64,
    r: Result<(i64, i64), AppError>,
)
    requires
        orders::range_asked(q, now_ms, r),
    ensures
        q.from matches Some(from) ==> q.to matches Some(to) ==> {
            &&& clock::rfc3339_ms(from@) is None ==> (r matches Err(e) && e.status
                == Status::BadRequest && e.message@ == "`from` must be RFC3339"@)
            &&& clock::rfc3339_ms(from@) is Some && clock::rfc3339_ms(to@) is None ==> (
            r matches Err(e) && e.status == Status::BadRequest && e.message@
                == "`to` must be RFC3339"@)
            &&& clock::rfc3339_ms(from@) is Some && clock::rfc3339_ms(to@) is Some ==> (
            r matches Ok(range) && Some(range.0) == clock::rfc3339_ms(from@) && Some(range.1)
                == clock::rfc3339_ms(to@))
        },
        clock::in_calendar(now_ms) && (q.from is None || q.to is None) ==> (r matches Ok(range)
            && range.0 <= now_ms && now_ms < range.0 + 86_400_000 && range.0 as int % 86_400_000
            == 0 && range.1 == now_ms),
{
    if clock::in_calendar(now_ms) && (q.from is None || q.to is None) {
        lemma_midnight(now_ms);
    }
}

/// Midnight is the start of the day that the millisecond lies in.
pub proof fn lemma_midnight(ms: i64)
    requires
        clock::in_calendar(ms),
    ensures
        clock::midnight(ms as int) as i64 == clock::midnight(ms as int),
        clock::midnight(ms as int) <= ms < clock::midnight(ms as int) + 86_400_000,
        clock::midnight(ms as int) % 86_400_000 == 0,
{
    let day = 86_400_000int;
    vstd::arithmetic::div_mod::lemma_fundamental_div_mod(ms as int, day);
    vstd::arithmetic::div_mod::lemma_mod_bound(ms as int, day);
    vstd::arithmetic::mul::lemma_mul_is_commutative(day, ms as int / day);
    vstd::arithmetic::div_mod::lemma_mod_multiples_basic(ms as int / day, day);
}

/// A listing for the admins of an organisation shows just the orders of the
/// organisation that were created at the start of the stretch of time or later, and
/// at its end or earlier, and that have the status where one is given: all of them,
/// each once, the latest first, field by field as they are kept. Nothing changes.
pub proof fn law_listing_keeps_to_range_and_status(
    auth: AuthUser,
    org_id: String,
    q: AdminOrdersQuery,
    now_ms: i64,
    start: i64,
    end: i64,
    step: Step<ListingOrders, Vec<OrderOut>>,
    before: Db,
    out: Result<Vec<OrderOut>, AppError>,
    after: Db,
    turns: nat,
)
    requires
        soundness::sound(before),
        auth.org_id@ == org_id@,
        clock::in_calendar(now_ms),
        orders::list_org_orders_asks(auth, org_id, q, now_ms, step),
        store::steady_run(step, before, out, after, turns),
        q.from is Some && q.to is Some ==> clock::rfc3339_ms(q.from->0@) == Some(start)
            && clock::rfc3339_ms(q.to->0@) == Some(end),
        q.from is None || q.to is None ==> end == now_ms && start <= now_ms && now_ms < start
            + 86_400_000 && start as int % 86_400_000 == 0,
    ensures
        after == before,
        out is Ok,
        forall|i: int|
            0 <= i < out->Ok_0@.len() ==> {
                let shown = #[trigger] out->Ok_0@[i];
                &&& as_kept(before, shown)
                &&& before.orders[shown.id@].org_id == org_id@
                &&& start <= shown.created_at <= end
                &&& q.status matches Some(status) ==> shown.status@ == status@
            },
        forall|i: int, j: int|
            0 <= i < j < out->Ok_0@.len() ==> (#[trigger] out->Ok_0@[i]).id@ != (
            #[trigger] out->Ok_0@[j]).id@ && out->Ok_0@[i].created_at >= out->Ok_0@[j].created_at,
        forall|id: Seq<char>| #[trigger]
            before.orders.contains_key(id) && before.orders[id].org_id == org_id@ && start
                <= before.orders[id].created_at <= end && (q.status is None || q.status->0@
                == before.orders[id].status) ==> exists|i: int|
                0 <= i < out->Ok_0@.len() && (#[trigger] out->Ok_0@[i]).id@ == id,
{
    lemma_midnight(now_ms);
    if q.from is None || q.to is None {
        lemma_one_midnight(now_ms, start as int);
    }
    let range: Result<(i64, i64), AppError> = Ok((start, end));
    assert(orders::range_asked(q, now_ms, range));
    outcomes::law_org_orders_are_listed(
        auth,
        org_id,
        q,
        now_ms,
        range,
        step,
        before,
        out,
        after,
        turns,
    );
    let filter = orders::between((start, end), q.status);
    lemma_listed(before, org_id@, filter, out->Ok_0@);
    assert forall|i: int| 0 <= i < out->Ok_0@.len() implies {
        let shown = #[trigger] out->Ok_0@[i];
        &&& as_kept(before, shown)
        &&& before.orders[shown.id@].org_id == org_id@
        &&& start <= shown.created_at <= end
        &&& q.status matches Some(status) ==> shown.status@ == status@
    } by {
        assert(store::passes(before.orders[out->Ok_0@[i].id@], filter));
    }
    assert forall|id: Seq<char>| #[trigger]
        before.orders.contains_key(id) && before.orders[id].org_id == org_id@ && start
            <= before.orders[id].created_at <= end && (q.status is None || q.status->0@
            == before.orders[id].status) implies exists|i: int|
        0 <= i < out->Ok_0@.len() && (#[trigger] out->Ok_0@[i]).id@ == id by {
        assert(store::passes(before.orders[id], filter));
    }
}

/// A day has one midnight.
proof fn lemma_one_midnight(ms: i64, start: int)
    requires
        start <= ms < start + 86_400_000,
        start % 86_400_000 == 0,
    ensures
        clock::midnight(ms as int) == start,
{
    let day = 86_400_000int;
    vstd::arithmetic::div_mod::lemma_fundamental_div_mod(start, day);
    vstd::arithmetic::div_mod::lemma_fundamental_div_mod_converse(
        ms as int,
        day,
        start / day,
        ms - start,
    );
}

/// The orders of a table are just those of the organisation for that table that
/// were created since midnight, without those served where the query says
/// `pending`: all of them, each once, the latest first, field by field as they are
/// kept. Nothing changes.
pub proof fn law_guests_see_the_orders_of_today(
    org_id: String,
    table_id: String,
    q: PendingQuery,
    now_ms: i64,
    start: int,
    step: Step<ListingOrders, Vec<OrderOut>>,
    before: Db,
    out: Result<Vec<OrderOut>, AppError>,
    after: Db,
    turns: nat,
)
    requires
        soundness::sound(before),
        clock::in_calendar(now_ms),
        start <= now_ms < start + 86_400_000,
        start % 86_400_000 == 0,
        orders::table_orders_asks(org_id, table_id, q, now_ms, step),
        store::steady_run(step, before, out, after, turns),
    ensures
        after == before,
        out is Ok,
        ({
            let pending = q.status is Some && q.status->0@ == "pending"@;
            &&& forall|i: int|
                0 <= i < out->Ok_0@.len() ==> {
                    let shown = #[trigger] out->Ok_0@[i];
                    &&& as_kept(before, shown)
                    &&& before.orders[shown.id@].org_id == org_id@
                    &&& shown.table_id@ == table_id@
                    &&& shown.created_at >= start
                    &&& pending ==> shown.status@ != "served"@
                }
            &&& forall|i: int, j: int|
                0 <= i < j < out->Ok_0@.len() ==> (#[trigger] out->Ok_0@[i]).id@ != (
                #[trigger] out->Ok_0@[j]).id@ && out->Ok_0@[i].created_at
                    >= out->Ok_0@[j].created_at
            &&& forall|id: Seq<char>| #[trigger]
                before.orders.contains_key(id) && before.orders[id].org_id == org_id@
                    && before.orders[id].table_id == table_id@ && before.orders[id].created_at
                    >= start && (pending ==> before.orders[id].status != "served"@) ==> exists|
                    i: int,
                |
                    0 <= i < out->Ok_0@.len() && (#[trigger] out->Ok_0@[i]).id@ == id
        }),
{
    lemma_midnight(now_ms);
    lemma_one_midnight(now_ms, start);
    outcomes::law_table_orders_are_listed(
        org_id,
        table_id,
        q,
        now_ms,
        step,
        before,
        out,
        after,
        turns,
    );
    let filter = step->effect->ListOrders_filter;
    lemma_listed(before, org_id@, filter, out->Ok_0@);
    let pending = q.status is Some && q.status->0@ == "pending"@;
    assert(filter.pending_only == pending);
    assert(filter.from == start);
    assert forall|i: int| 0 <= i < out->Ok_0@.len() implies {
        let shown = #[trigger] out->Ok_0@[i];
        &&& as_kept(before, shown)
        &&& before.orders[shown.id@].org_id == org_id@
        &&& shown.table_id@ == table_id@
        &&& shown.created_at >= start
        &&& pending ==> shown.status@ != "served"@
    } by {
        assert(store::passes(before.orders[out->Ok_0@[i].id@], filter));
    }
    assert forall|id: Seq<char>| #[trigger]
        before.orders.contains_key(id) && before.orders[id].org_id == org_id@
            && before.orders[id].table_id == table_id@ && before.orders[id].created_at >= start && (
        pending ==> before.orders[id].status != "served"@) implies exists|i: int|
        0 <= i < out->Ok_0@.len() && (#[trigger] out->Ok_0@[i]).id@ == id by {
        assert(store::passes(before.orders[id], filter));
    }
}

/// A listener who subscribes gets just the orders of the organisation that were
/// created since midnight: all of them, each once, the latest first, field by field
/// as they are kept. Nothing changes.
pub proof fn law_listeners_get_the_orders_of_today(
    org_id: Seq<char>,
    now_utc: i64,
    start: int,
    step: Step<Syncing, OrderSync>,
    before: Db,
    out: Result<OrderSync, AppError>,
    after: Db,
    turns: nat,
)
    requires
        soundness::sound(before),
        clock::in_calendar(now_utc),
        start <= now_utc < start + 86_400_000,
        start % 86_400_000 == 0,
        feed::syncs(org_id, now_utc, step),
        store::steady_run(step, before, out, after, turns),
    ensures
        after == before,
        out is Ok,
        out->Ok_0.sync_type@ == "orders:sync"@,
        ({
            let shown = out->Ok_0.orders@;
            &&& forall|i: int|
                0 <= i < shown.len() ==> as_kept(before, #[trigger] shown[i])
                    && before.orders[shown[i].id@].org_id == org_id && shown[i].created_at >= start
            &&& forall|i: int, j: int|
                0 <= i < j < shown.len() ==> (#[trigger] shown[i]).id@ != (#[trigger] shown[j]).id@
                    && shown[i].created_at >= shown[j].created_at
            &&& forall|id: Seq<char>| #[trigger]
                before.orders.contains_key(id) && before.orders[id].org_id == org_id
                    && before.orders[id].created_at >= start ==> exists|i: int|
                    0 <= i < shown.len() && (#[trigger] shown[i]).id@ == id
        }),
{
    lemma_midnight(now_utc);
    lemma_one_midnight(now_utc, start);
    outcomes::law_listener_is_synced(org_id, now_utc, step, before, out, after, turns);
    let filter = feed::since_midnight(now_utc);
    let shown = out->Ok_0.orders@;
    lemma_listed(before, org_id, filter, shown);
    assert forall|i: int| 0 <= i < shown.len() implies as_kept(before, #[trigger] shown[i])
        && before.orders[shown[i].id@].org_id == org_id && shown[i].created_at >= start by {
        assert(store::passes(before.orders[shown[i].id@], filter));
    }
    assert forall|id: Seq<char>| #[trigger]
        before.orders.contains_key(id) && before.orders[id].org_id == org_id
            && before.orders[id].created_at >= start implies exists|i: int|
        0 <= i < shown.len() && (#[trigger] shown[i]).id@ == id by {
        assert(store::passes(before.orders[id], filter));
    }
}

} // verus!

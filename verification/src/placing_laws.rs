//! What becomes of the lines of an order, and of its status: line by line and field
//! by field, from the request to the answer and to the store.

use vstd::prelude::*;

use crate::auth::AuthUser;
use crate::error::{AppError, Status};
use crate::flow;
use crate::flow::Step;
use crate::order_laws;
use crate::orders;
use crate::orders::{NewOrder, OrderEvent, OrderJob};
use crate::outcomes;
use crate::records::{OrderItemOut, PlaceOrderBody, PlaceOrderItem, Price, UpdateStatusBody};
use crate::soundness;
use crate::store;
use crate::store::Db;

verus! {

// ---------------------------------------------------------------------------
// The lines of an order
// ---------------------------------------------------------------------------

/// The list gives, in sequence and each once, the places of just those lines whose
/// quantity is at least 1.
pub open spec fn picks(items: Seq<PlaceOrderItem>, places: Seq<int>) -> bool {
    &&& forall|k: int| 0 <= k < places.len() ==> 0 <= #[trigger] places[k] < items.len()
    &&& forall|k: int| 0 <= k < places.len() ==> items[#[trigger] places[k]].qty >= 1
    &&& forall|k: int, l: int|
        0 <= k < l < places.len() ==> #[trigger] places[k] < #[trigger] places[l]
    &&& forall|i: int|
        #![trigger items[i]]
        0 <= i < items.len() && items[i].qty >= 1 ==> exists|k: int|
            0 <= k < places.len() && #[trigger] places[k] == i
}

/// The lines that are kept of a request are those whose quantity is at least 1, all
/// of them, in their sequence.
pub proof fn law_lines_that_order_something_are_kept(items: Seq<PlaceOrderItem>) -> (places: Seq<int>)
    ensures
        picks(items, places),
        items.filter(orders::counts()).len() == places.len(),
        forall|k: int|
            0 <= k < places.len() ==> #[trigger] items.filter(orders::counts())[k]
                == items[places[k]],
    decreases items.len(),
{
    reveal(Seq::filter);
    if items.len() == 0 {
        Seq::empty()
    } else {
        let fewer = items.drop_last();
        let last = items.len() - 1;
        let some = law_lines_that_order_something_are_kept(fewer);
        let places = if items[last].qty >= 1 {
            some.push(last)
        } else {
            some
        };
        assert forall|k: int| 0 <= k < places.len() implies 0 <= #[trigger] places[k] < items.len()
            && items[places[k]].qty >= 1 && items.filter(orders::counts())[k] == items[places[k]] by {
            if k < some.len() {
                assert(some[k] == places[k]);
                assert(fewer[some[k]] == items[places[k]]);
                assert(fewer.filter(orders::counts())[k] == fewer[some[k]]);
            }
        }
        assert forall|i: int|
            #![trigger items[i]]
            0 <= i < items.len() && items[i].qty >= 1 implies exists|k: int|
            0 <= k < places.len() && #[trigger] places[k] == i by {
            if i < last {
                assert(fewer[i] == items[i]);
                let k = choose|k: int| 0 <= k < some.len() && #[trigger] some[k] == i;
                assert(places[k] == i);
            } else {
                assert(places[some.len() as int] == i);
            }
        }
        places
    }
}

/// The price of a line: that of the item on the menu of the organisation, and only
/// where the menu has no such item the one that came with the line.
pub open spec fn right_price(before: Db, org_id: Seq<char>, line: PlaceOrderItem) -> Price {
    if line.item_id matches Some(id) && before.menu.contains_key(id@) && before.menu[id@].org_id
        == org_id {
        before.menu[line.item_id->0@].fields.price
    } else {
        line.price
    }
}

/// The line of the request is among those that the store has of the order, with its
/// item, name, quantity and note, at the right price.
pub open spec fn has_kept(
    before: Db,
    after: Db,
    org_id: Seq<char>,
    order_id: Seq<char>,
    line: PlaceOrderItem,
    id: Seq<char>,
) -> bool {
    let kept = after.order_items[id];
    &&& after.order_items.contains_key(id)
    &&& kept.id == id
    &&& kept.order_id == order_id
    &&& kept.name == line.name@
    &&& kept.qty == line.qty
    &&& kept.note == line.note@
    &&& kept.price == right_price(before, org_id, line)
    &&& line.item_id is None ==> kept.menu_item_id is None
    &&& line.item_id matches Some(item) ==> kept.menu_item_id == Some(item@)
}

/// Which lines are picked is settled by their quantities.
proof fn lemma_picked_lines(items: Seq<PlaceOrderItem>, places: Seq<int>)
    requires
        picks(items, places),
    ensures
        items.filter(orders::counts()).len() == places.len(),
        forall|k: int|
            0 <= k < places.len() ==> #[trigger] items.filter(orders::counts())[k]
                == items[places[k]],
    decreases items.len(),
{
    reveal(Seq::filter);
    if items.len() == 0 {
        if places.len() > 0 {
            assert(0 <= places[0] < items.len());
        }
    } else {
        let fewer = items.drop_last();
        let last = items.len() - 1;
        if items[last].qty >= 1 {
            let k = choose|k: int| 0 <= k < places.len() && #[trigger] places[k] == last;
            let end = places.len() - 1;
            if k < end {
                assert(places[k] < places[end]);
            }
            let some = places.drop_last();
            assert forall|l: int| 0 <= l < some.len() implies 0 <= #[trigger] some[l] < fewer.len()
                && fewer[some[l]].qty >= 1 by {
                assert(some[l] == places[l]);
                assert(places[l] < places[end]);
                assert(fewer[some[l]] == items[places[l]]);
            }
            assert forall|i: int|
                #![trigger fewer[i]]
                0 <= i < fewer.len() && fewer[i].qty >= 1 implies exists|l: int|
                0 <= l < some.len() && #[trigger] some[l] == i by {
                assert(items[i] == fewer[i]);
                let l = choose|l: int| 0 <= l < places.len() && #[trigger] places[l] == i;
                assert(some[l] == i);
            }
            lemma_picked_lines(fewer, some);
            assert forall|l: int| 0 <= l < places.len() implies #[trigger] items.filter(
                orders::counts(),
            )[l] == items[places[l]] by {
                if l < some.len() {
                    assert(fewer.filter(orders::counts())[l] == fewer[some[l]]);
                }
            }
        } else {
            assert forall|l: int| 0 <= l < places.len() implies 0 <= #[trigger] places[l]
                < fewer.len() && fewer[places[l]].qty >= 1 by {
                assert(items[places[l]].qty >= 1);
            }
            assert forall|i: int|
                #![trigger fewer[i]]
                0 <= i < fewer.len() && fewer[i].qty >= 1 implies exists|l: int|
                0 <= l < places.len() && #[trigger] places[l] == i by {
                assert(items[i] == fewer[i]);
            }
            lemma_picked_lines(fewer, places);
            assert forall|l: int| 0 <= l < places.len() implies #[trigger] items.filter(
                orders::counts(),
            )[l] == items[places[l]] by {
                assert(fewer.filter(orders::counts())[l] == fewer[places[l]]);
            }
        }
    }
}

/// Every line of a request with a quantity of at least 1 is among the lines of the
/// order that is placed for it, once, with its item, its name, its quantity and its
/// note, at the price of the menu where the menu has the item; and the order has no
/// other lines. The lines of other orders stay as they were. That is so on a store
/// that serves steadily.
pub proof fn law_order_has_the_lines_of_the_request(
    org_id: String,
    table_id: String,
    body: PlaceOrderBody,
    now: i64,
    order: NewOrder,
    places: Seq<int>,
    step: Step<OrderJob, OrderEvent>,
    before: Db,
    event: OrderEvent,
    after: Db,
    turns: nat,
)
    requires
        soundness::sound(before),
        picks(body.items@, places),
        orders::fresh_order(order, org_id, table_id, body.items@.len(), now),
        orders::place_order_asks(body, order, step),
        store::steady_run(step, before, Ok::<OrderEvent, AppError>(event), after, turns),
    ensures
        places.len() <= order.line_ids@.len(),
        forall|k: int|
            0 <= k < places.len() ==> has_kept(
                before,
                after,
                org_id@,
                event.order.id@,
                body.items@[#[trigger] places[k]],
                order.line_ids@[k]@,
            ),
        forall|id: Seq<char>| #[trigger]
            after.order_items.contains_key(id) && after.order_items[id].order_id == event.order.id@
                ==> exists|k: int| 0 <= k < places.len() && (#[trigger] order.line_ids@[k])@ == id,
        forall|id: Seq<char>| #[trigger]
            before.order_items.contains_key(id) ==> after.order_items.contains_key(id)
                && after.order_items[id] == before.order_items[id],
        event.order.items@.len() == places.len(),
        after.orgs == before.orgs,
        after.users == before.users,
        after.tables == before.tables,
        after.menu == before.menu,
{
    let lines = body.items@.filter(orders::counts());
    lemma_picked_lines(body.items@, places);
    body.items@.lemma_filter_len(orders::counts());
    let out = Ok::<OrderEvent, AppError>(event);
    soundness::lemma_steady_run_is_run(step, before, out, after, turns);
    order_laws::law_order_is_placed_at_menu_prices(body, order, step, before, event, after, turns);
    order_laws::lemma_lines_shown(body, order, step, before, event, after, turns);
    let found = order_laws::menu_prices(before, org_id@, lines);
    let id = order.order_id@;
    assert(event.order.id@ == id);
    assert forall|k: int| 0 <= k < places.len() implies has_kept(
        before,
        after,
        org_id@,
        id,
        body.items@[#[trigger] places[k]],
        order.line_ids@[k]@,
    ) by {
        assert(lines[k] == body.items@[places[k]]);
        assert(after.has_line(id, order.line_ids@[k]@));
        assert(after.order_items[order.line_ids@[k]@] == order_laws::line_kept(
            order,
            lines,
            found,
            k,
        ));
    }
    assert forall|other: Seq<char>| #[trigger]
        after.order_items.contains_key(other) && after.order_items[other].order_id
            == id implies exists|k: int|
        0 <= k < places.len() && (#[trigger] order.line_ids@[k])@ == other by {
        assert(after.has_line(id, other));
    }
}

/// An order comes to what prices times quantities of just its lines add up to, in
/// their sequence. It is new, belongs to the table and carries the name of the
/// table, and is dated now; it is announced as a new order of the organisation and
/// shown so. No other order changes. That is so on a store that serves steadily.
pub proof fn law_order_comes_to_its_lines(
    org_id: String,
    table_id: String,
    body: PlaceOrderBody,
    now: i64,
    order: NewOrder,
    places: Seq<int>,
    step: Step<OrderJob, OrderEvent>,
    before: Db,
    event: OrderEvent,
    after: Db,
    turns: nat,
)
    requires
        soundness::sound(before),
        picks(body.items@, places),
        orders::fresh_order(order, org_id, table_id, body.items@.len(), now),
        orders::place_order_asks(body, order, step),
        store::steady_run(step, before, Ok::<OrderEvent, AppError>(event), after, turns),
    ensures
        before.tables.contains_key(table_id@),
        before.tables[table_id@].org_id == org_id@,
        !before.orders.contains_key(event.order.id@),
        ({
            let totals = (before.tally)(
                Seq::new(
                    places.len(),
                    |k: int|
                        (
                            right_price(before, org_id@, body.items@[places[k]]),
                            body.items@[places[k]].qty,
                        ),
                ),
            );
            let kept = after.orders[event.order.id@];
            &&& after.orders == before.orders.insert(event.order.id@, kept)
            &&& kept.id == event.order.id@
            &&& kept.org_id == org_id@
            &&& kept.table_id == table_id@
            &&& kept.table_name == before.tables[table_id@].table.name
            &&& kept.status == "new"@
            &&& kept.subtotal == totals.subtotal
            &&& kept.tax == totals.tax
            &&& kept.total == totals.total
            &&& kept.created_at == now
            &&& kept.updated_at == now
            &&& event.org_id@ == org_id@
            &&& event.event_type@ == "order:new"@
            &&& event.order.table_id@ == table_id@
            &&& event.order.table_name@ == before.tables[table_id@].table.name
            &&& event.order.status@ == "new"@
            &&& event.order.subtotal == totals.subtotal
            &&& event.order.tax == totals.tax
            &&& event.order.total == totals.total
            &&& event.order.created_at == now
            &&& event.order.updated_at == now
        }),
{
    let lines = body.items@.filter(orders::counts());
    lemma_picked_lines(body.items@, places);
    body.items@.lemma_filter_len(orders::counts());
    let out = Ok::<OrderEvent, AppError>(event);
    soundness::lemma_steady_run_is_run(step, before, out, after, turns);
    order_laws::law_place_order(body, order, step, before, event, after, turns);
    order_laws::law_order_is_placed_at_menu_prices(body, order, step, before, event, after, turns);
    let found = order_laws::menu_prices(before, org_id@, lines);
    let amounts = Seq::new(
        places.len(),
        |k: int|
            (right_price(before, org_id@, body.items@[places[k]]), body.items@[places[k]].qty),
    );
    assert(order_laws::amounts_kept(order, lines, found) =~= amounts) by {
        assert forall|k: int| 0 <= k < places.len() implies #[trigger] order_laws::amounts_kept(
            order,
            lines,
            found,
        )[k] == amounts[k] by {
            assert(0 <= places[k] < body.items@.len());
            assert(lines[k] == body.items@[places[k]]);
        }
    }
    assert(after.orders[order.order_id@] == orders::new_order_row(
        order,
        before.tables[table_id@].table.name,
        (before.tally)(amounts),
    ));
}

/// Every line of a request with a quantity of at least 1 is shown in the answer,
/// with its name, its quantity and its note.
pub proof fn law_lines_of_the_request_are_shown(
    org_id: String,
    table_id: String,
    body: PlaceOrderBody,
    now: i64,
    order: NewOrder,
    i: int,
    step: Step<OrderJob, OrderEvent>,
    before: Db,
    event: OrderEvent,
    after: Db,
    turns: nat,
)
    requires
        soundness::sound(before),
        0 <= i < body.items@.len(),
        body.items@[i].qty >= 1,
        orders::fresh_order(order, org_id, table_id, body.items@.len(), now),
        orders::place_order_asks(body, order, step),
        store::steady_run(step, before, Ok::<OrderEvent, AppError>(event), after, turns),
    ensures
        exists|j: int|
            0 <= j < event.order.items@.len() && is_shown(
                #[trigger] event.order.items@[j],
                body.items@[i],
                right_price(before, org_id@, body.items@[i]),
            ),
{
    let out = Ok::<OrderEvent, AppError>(event);
    let places = law_lines_that_order_something_are_kept(body.items@);
    law_order_has_the_lines_of_the_request(
        org_id,
        table_id,
        body,
        now,
        order,
        places,
        step,
        before,
        event,
        after,
        turns,
    );
    soundness::lemma_steady_run_is_run(step, before, out, after, turns);
    order_laws::law_place_order(body, order, step, before, event, after, turns);
    let k = choose|k: int| 0 <= k < places.len() && #[trigger] places[k] == i;
    let id = event.order.id@;
    let line_id = order.line_ids@[k]@;
    assert(has_kept(before, after, org_id@, id, body.items@[places[k]], line_id));
    let ids = choose|ids: Seq<Seq<char>>| #[trigger]
        store::shows_lines(after, id, ids, event.order@.items);
    assert(store::shows_lines(after, id, ids, event.order@.items));
    assert(after.has_line(id, line_id));
    assert(ids.contains(line_id));
    let j = choose|j: int| 0 <= j < ids.len() && ids[j] == line_id;
    assert(event.order@.items[j] == store::line_view(after.order_items[ids[j]]));
    assert(event.order@.items[j] == event.order.items@[j]@);
    assert(is_shown(
        event.order.items@[j],
        body.items@[i],
        right_price(before, org_id@, body.items@[i]),
    ));
}

/// The line of the request is shown with its name, its quantity and its note.
pub open spec fn is_shown(shown: OrderItemOut, line: PlaceOrderItem, price: Price) -> bool {
    &&& shown.name@ == line.name@
    &&& shown.qty == line.qty
    &&& shown.note@ == line.note@
    &&& shown.price == price
}

/// A request with a line of at least one piece, at a table of the organisation, is
/// placed, provided that the store does not fail; without such a line it is refused
/// and adds nothing; and without any line at all it is refused with 400.
pub proof fn law_order_with_any_piece_is_placed(
    org_id: String,
    table_id: String,
    body: PlaceOrderBody,
    now: i64,
    order: NewOrder,
    step: Step<OrderJob, OrderEvent>,
    before: Db,
    out: Result<OrderEvent, AppError>,
    after: Db,
    turns: nat,
)
    requires
        soundness::sound(before),
        before.tables.contains_key(table_id@),
        before.tables[table_id@].org_id == org_id@,
        orders::fresh_order(order, org_id, table_id, body.items@.len(), now),
        outcomes::fresh_ids(before, order),
        orders::place_order_asks(body, order, step),
        store::steady_run(step, before, out, after, turns),
    ensures
        (exists|i: int| 0 <= i < body.items@.len() && (#[trigger] body.items@[i]).qty >= 1)
            ==> out is Ok,
        body.items@.len() > 0 && (forall|i: int|
            0 <= i < body.items@.len() ==> (#[trigger] body.items@[i]).qty < 1) ==> after == before
            && (out matches Err(e) && e.status == Status::InternalServerError && e.message@
            == "Query is not read-only"@),
        body.items@.len() == 0 ==> after == before && (out matches Err(e) && e.status
            == Status::BadRequest && e.message@ == "order must contain at least one item"@),
{
    let places = law_lines_that_order_something_are_kept(body.items@);
    if body.items@.len() > 0 {
        assert(before.has_table(org_id@, table_id@));
        outcomes::law_order_is_placed_at_own_table(body, order, step, before, out, after, turns);
        if exists|i: int| 0 <= i < body.items@.len() && (#[trigger] body.items@[i]).qty >= 1 {
            let i = choose|i: int| 0 <= i < body.items@.len() && (#[trigger] body.items@[i]).qty >= 1;
            let k = choose|k: int| 0 <= k < places.len() && #[trigger] places[k] == i;
            assert(places.len() > 0);
        } else {
            if places.len() > 0 {
                assert(body.items@[places[0]].qty >= 1);
            }
        }
    }
}

// ---------------------------------------------------------------------------
// The status of an order
// ---------------------------------------------------------------------------

/// There are four statuses, and no others.
pub proof fn law_there_are_four_statuses(status: Seq<char>)
    ensures
        flow::valid_status(status) <==> (status == "new"@ || status == "preparing"@ || status
            == "ready"@ || status == "served"@),
{
}

/// An order of one's own organisation gets the status of the request, whichever of
/// the four it is, and the time of the request as the time of its change; all else
/// of it stays as it was, and it is announced and shown so. With any other status
/// the request is refused with 400, at once.
pub proof fn law_order_gets_the_status_of_the_request(
    auth: AuthUser,
    org_id: String,
    order_id: String,
    body: UpdateStatusBody,
    now: i64,
    step: Step<OrderJob, OrderEvent>,
    before: Db,
    out: Result<OrderEvent, AppError>,
    after: Db,
    turns: nat,
)
    requires
        soundness::sound(before),
        auth.org_id@ == org_id@,
        before.orders.contains_key(order_id@),
        before.orders[order_id@].org_id == org_id@,
        orders::update_order_status_asks(auth, org_id, order_id, body, now, step),
        store::steady_run(step, before, out, after, turns),
    ensures
        ({
            let one_of_four = body.status@ == "new"@ || body.status@ == "preparing"@ || body.status@
                == "ready"@ || body.status@ == "served"@;
            let was = before.orders[order_id@];
            let is = after.orders[order_id@];
            &&& one_of_four ==> {
                &&& out is Ok
                &&& is.status == body.status@
                &&& is.updated_at == now
                &&& is.id == was.id
                &&& is.org_id == was.org_id
                &&& is.table_id == was.table_id
                &&& is.table_name == was.table_name
                &&& is.subtotal == was.subtotal
                &&& is.tax == was.tax
                &&& is.total == was.total
                &&& is.created_at == was.created_at
                &&& after.orders == before.orders.insert(order_id@, is)
                &&& after.order_items == before.order_items
                &&& after.orgs == before.orgs
                &&& after.users == before.users
                &&& after.tables == before.tables
                &&& after.menu == before.menu
                &&& out->Ok_0.org_id@ == org_id@
                &&& out->Ok_0.event_type@ == "order:update"@
                &&& out->Ok_0.order.id@ == order_id@
                &&& out->Ok_0.order.status@ == body.status@
                &&& out->Ok_0.order.updated_at == now
                &&& out->Ok_0.order.table_id@ == was.table_id
                &&& out->Ok_0.order.table_name@ == was.table_name
                &&& out->Ok_0.order.subtotal == was.subtotal
                &&& out->Ok_0.order.tax == was.tax
                &&& out->Ok_0.order.total == was.total
                &&& out->Ok_0.order.created_at == was.created_at
            }
            &&& !one_of_four ==> {
                &&& after == before
                &&& out is Err
                &&& out->Err_0.status == Status::BadRequest
                &&& out->Err_0.message@ == "status must be one of new, preparing, ready, served"@
            }
        }),
{
    law_there_are_four_statuses(body.status@);
    if flow::valid_status(body.status@) {
        assert(before.has_order(org_id@, order_id@));
        outcomes::law_order_is_moved_on_if_kept(
            auth,
            org_id,
            order_id,
            body,
            now,
            step,
            before,
            out,
            after,
            turns,
        );
        soundness::lemma_steady_run_is_run(step, before, out, after, turns);
        order_laws::law_update_order_status(
            auth,
            org_id,
            order_id,
            body,
            now,
            step,
            before,
            out->Ok_0,
            after,
            turns,
        );
    }
}

} // verus!

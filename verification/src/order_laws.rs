//! What placing, moving on and listing orders does and shows.

use vstd::prelude::*;

use crate::auth::AuthUser;
use crate::clock;
use crate::error::AppError;
use crate::flow;
use crate::flow::Step;
use crate::json;
use crate::orders;
use crate::orders::{ListingOrders, NewOrder, OrderEvent, OrderJob};
use crate::outcomes;
use crate::records::{
    AdminOrdersQuery, OrderItemRowView, OrderOut, OrderRowView, PendingQuery, PlaceOrderBody,
    PlaceOrderItem, Price, UpdateStatusBody,
};
use crate::soundness;
use crate::store;
use crate::store::Db;

verus! {

/// The prices that were found for the lines of a request: those of the menu of the
/// organisation, where they were found at all.
pub open spec fn looked_up(
    before: Db,
    org_id: Seq<char>,
    lines: Seq<PlaceOrderItem>,
    found: Seq<Option<Price>>,
) -> bool {
    &&& found.len() == lines.len()
    &&& forall|i: int|
        0 <= i < found.len() ==> (#[trigger] found[i] is None || found[i] == before.price(
            org_id,
            json::opt_text(lines[i].item_id),
        ))
}

/// The prices of the items of the lines on the menu of the organisation.
pub open spec fn menu_prices(before: Db, org_id: Seq<char>, lines: Seq<PlaceOrderItem>) -> Seq<
    Option<Price>,
> {
    Seq::new(lines.len(), |i: int| before.price(org_id, json::opt_text(lines[i].item_id)))
}

/// The line that is kept for the line of a request: with the price that was found,
/// whatever the request says, and only where none was found with the one sent.
pub open spec fn line_kept(
    order: NewOrder,
    lines: Seq<PlaceOrderItem>,
    found: Seq<Option<Price>>,
    i: int,
) -> OrderItemRowView {
    orders::kept_line(lines[i], found[i], order.order_id@, order.line_ids@[i]@)
}

/// What there is to add up of an order: the prices that are kept, and the
/// quantities.
pub open spec fn amounts_kept(
    order: NewOrder,
    lines: Seq<PlaceOrderItem>,
    found: Seq<Option<Price>>,
) -> Seq<(Price, i64)> {
    Seq::new(lines.len(), |i: int| (line_kept(order, lines, found, i).price, lines[i].qty))
}

/// The order is kept as new, for its table, with just these lines at these prices,
/// and comes to what they add up to. Nothing else changed.
pub open spec fn placed(
    before: Db,
    order: NewOrder,
    lines: Seq<PlaceOrderItem>,
    found: Seq<Option<Price>>,
    after: Db,
) -> bool {
    &&& after.orders == before.orders.insert(
        order.order_id@,
        orders::new_order_row(
            order,
            before.tables[order.table_id@].table.name,
            (before.tally)(amounts_kept(order, lines, found)),
        ),
    )
    &&& forall|i: int|
        0 <= i < lines.len() ==> after.has_line(
            order.order_id@,
            (#[trigger] order.line_ids@[i])@,
        ) && after.order_items[order.line_ids@[i]@] == line_kept(order, lines, found, i)
    &&& forall|id: Seq<char>| #[trigger]
        after.has_line(order.order_id@, id) ==> exists|i: int|
            0 <= i < lines.len() && (#[trigger] order.line_ids@[i])@ == id
    &&& forall|id: Seq<char>| #[trigger]
        before.order_items.contains_key(id) ==> after.order_items.contains_key(id)
            && after.order_items[id] == before.order_items[id]
    &&& after == (Db { orders: after.orders, order_items: after.order_items, ..before })
}

/// An order that was placed is kept as new, for its table, with a line for every
/// line of the request that orders at least one piece, and no others, at the
/// prices of the menu where these were found; it comes to what these lines add up
/// to. It is announced as a new order of the organisation, as it is kept. Nothing
/// else changes.
pub proof fn law_place_order(
    body: PlaceOrderBody,
    order: NewOrder,
    step: Step<OrderJob, OrderEvent>,
    before: Db,
    event: OrderEvent,
    after: Db,
    turns: nat,
)
    requires
        order.line_ids@.len() >= body.items@.len(),
        soundness::sound(before),
        orders::place_order_asks(body, order, step),
        store::run(step, before, Ok::<OrderEvent, AppError>(event), after, turns),
    ensures
        before.has_table(order.org_id@, order.table_id@),
        !before.orders.contains_key(order.order_id@),
        body.items@.filter(orders::counts()).len() > 0,
        exists|found: Seq<Option<Price>>| #[trigger]
            looked_up(before, order.org_id@, body.items@.filter(orders::counts()), found) && placed(
                before,
                order,
                body.items@.filter(orders::counts()),
                found,
                after,
            ),
        event.org_id@ == order.org_id@,
        event.event_type@ == "order:new"@,
        store::shows_order(after, order.order_id@, event.order@),
{
    let out = Ok::<OrderEvent, AppError>(event);
    let lines = body.items@.filter(orders::counts());
    let (r1, mid1, s2) = soundness::lemma_one_turn(step->effect, step->job, before, out, after, turns);
    let (r2, mid2, s3) = soundness::lemma_one_turn(
        s2->effect,
        s2->job,
        mid1,
        out,
        after,
        (turns - 1) as nat,
    );
    lemma_placed_at(body, order, before, r2->Prices_0@, s3, event, after, (turns - 2) as nat);
    assert(looked_up(before, order.org_id@, lines, r2->Prices_0@)) by {
        assert forall|i: int| 0 <= i < lines.len() implies (#[trigger] r2->Prices_0@[i] is None
            || r2->Prices_0@[i] == before.price(
            order.org_id@,
            json::opt_text(lines[i].item_id),
        )) by {
            assert(s2->effect->FindPrices_item_ids@[i] == lines[i].item_id);
        }
    }
}

/// What is left of placing an order once the prices are there.
proof fn lemma_placed_at(
    body: PlaceOrderBody,
    order: NewOrder,
    before: Db,
    prices: Seq<Option<Price>>,
    step: Step<OrderJob, OrderEvent>,
    event: OrderEvent,
    after: Db,
    turns: nat,
)
    requires
        order.line_ids@.len() >= body.items@.len(),
        soundness::sound(before),
        before.has_table(order.org_id@, order.table_id@),
        prices.len() == body.items@.filter(orders::counts()).len(),
        exists|table_name: String| #[trigger]
            table_name@ == before.tables[order.table_id@].table.name && orders::priced(
                order,
                table_name,
                body.items@.filter(orders::counts()),
                prices,
                step,
            ),
        store::run(step, before, Ok::<OrderEvent, AppError>(event), after, turns),
    ensures
        !before.orders.contains_key(order.order_id@),
        placed(before, order, body.items@.filter(orders::counts()), prices, after),
        event.org_id@ == order.org_id@,
        event.event_type@ == "order:new"@,
        store::shows_order(after, order.order_id@, event.order@),
{
    let out = Ok::<OrderEvent, AppError>(event);
    let lines = body.items@.filter(orders::counts());
    body.items@.lemma_filter_len(orders::counts());
    let (r3, mid3, s4) = soundness::lemma_one_turn(step->effect, step->job, before, out, after, turns);
    let (r4, mid4, s5) = soundness::lemma_one_turn(
        s4->effect,
        s4->job,
        mid3,
        out,
        after,
        (turns - 1) as nat,
    );
    let (r5, mid5, s6) = soundness::lemma_one_turn(
        s5->effect,
        s5->job,
        mid4,
        out,
        after,
        (turns - 2) as nat,
    );
    let items = s4->effect->PlaceOrder_items@;
    assert(orders::are_kept_lines(items, lines, prices, order.order_id@, order.line_ids@));
    assert(orders::amounts(items) =~= amounts_kept(order, lines, prices)) by {
        assert forall|i: int| 0 <= i < lines.len() implies #[trigger] orders::amounts(items)[i]
            == amounts_kept(order, lines, prices)[i] by {
            assert(items[i]@ == line_kept(order, lines, prices, i));
        }
    }
    soundness::lemma_with_lines(before.order_items, items);
    assert forall|i: int| 0 <= i < lines.len() implies after.has_line(
        order.order_id@,
        (#[trigger] order.line_ids@[i])@,
    ) && after.order_items[order.line_ids@[i]@] == line_kept(order, lines, prices, i) by {
        assert(items[i]@ == line_kept(order, lines, prices, i));
    }
    assert forall|id: Seq<char>| #[trigger] after.has_line(order.order_id@, id) implies exists|i: int|
        0 <= i < lines.len() && (#[trigger] order.line_ids@[i])@ == id by {
        if before.order_items.contains_key(id) {
            assert(before.orders.contains_key(before.order_items[id].order_id));
        } else {
            let i = choose|i: int| 0 <= i < items.len() && (#[trigger] items[i]).id@ == id;
            assert(items[i]@ == line_kept(order, lines, prices, i));
            assert(order.line_ids@[i]@ == id);
        }
    }
}

/// On a store that serves steadily, an order is placed at the prices of the menu
/// wherever the menu of the organisation has the item, whatever the request says.
pub proof fn law_order_is_placed_at_menu_prices(
    body: PlaceOrderBody,
    order: NewOrder,
    step: Step<OrderJob, OrderEvent>,
    before: Db,
    event: OrderEvent,
    after: Db,
    turns: nat,
)
    requires
        order.line_ids@.len() >= body.items@.len(),
        soundness::sound(before),
        orders::place_order_asks(body, order, step),
        store::steady_run(step, before, Ok::<OrderEvent, AppError>(event), after, turns),
    ensures
        placed(
            before,
            order,
            body.items@.filter(orders::counts()),
            menu_prices(before, order.org_id@, body.items@.filter(orders::counts())),
            after,
        ),
        store::shows_order(after, order.order_id@, event.order@),
{
    let out = Ok::<OrderEvent, AppError>(event);
    let lines = body.items@.filter(orders::counts());
    let (r1, mid1, s2) = soundness::lemma_one_steady_turn(
        step->effect,
        step->job,
        before,
        out,
        after,
        turns,
    );
    let (r2, mid2, s3) = soundness::lemma_one_steady_turn(
        s2->effect,
        s2->job,
        mid1,
        out,
        after,
        (turns - 1) as nat,
    );
    let prices = r2->Prices_0@;
    assert(prices =~= menu_prices(before, order.org_id@, lines)) by {
        assert forall|i: int| 0 <= i < lines.len() implies #[trigger] prices[i] == menu_prices(
            before,
            order.org_id@,
            lines,
        )[i] by {
            assert(s2->effect->FindPrices_item_ids@[i] == lines[i].item_id);
        }
    }
    soundness::lemma_steady_run_is_run(s3, mid2, out, after, (turns - 2) as nat);
    lemma_placed_at(body, order, before, prices, s3, event, after, (turns - 2) as nat);
}

/// Two lines that differ at most in the price that the guest sent, and in that
/// only where the menu of the organisation has the item.
pub open spec fn same_but_for_price(
    before: Db,
    org_id: Seq<char>,
    a: PlaceOrderItem,
    b: PlaceOrderItem,
) -> bool {
    &&& json::opt_text(a.item_id) == json::opt_text(b.item_id)
    &&& a.qty == b.qty
    &&& a.price == b.price || before.price(org_id, json::opt_text(a.item_id)) is Some
}

proof fn lemma_lines_that_count_correspond(
    before: Db,
    org_id: Seq<char>,
    a: Seq<PlaceOrderItem>,
    b: Seq<PlaceOrderItem>,
)
    requires
        a.len() == b.len(),
        forall|i: int|
            #![trigger a[i]]
            #![trigger b[i]]
            0 <= i < a.len() ==> same_but_for_price(before, org_id, a[i], b[i]),
    ensures
        a.filter(orders::counts()).len() == b.filter(orders::counts()).len(),
        forall|i: int|
            0 <= i < a.filter(orders::counts()).len() ==> same_but_for_price(
                before,
                org_id,
                #[trigger] a.filter(orders::counts())[i],
                b.filter(orders::counts())[i],
            ),
    decreases a.len(),
{
    reveal(Seq::filter);
    if a.len() > 0 {
        let (a1, b1) = (a.drop_last(), b.drop_last());
        assert forall|i: int|
            #![trigger a1[i]]
            #![trigger b1[i]]
            0 <= i < a1.len() implies same_but_for_price(before, org_id, a1[i], b1[i]) by {
            assert(a1[i] == a[i]);
        }
        lemma_lines_that_count_correspond(before, org_id, a1, b1);
        assert(same_but_for_price(before, org_id, a.last(), b.last()));
    }
}

/// The two requests differ at most in prices that the guest sent for items that
/// the menu of the organisation has.
pub open spec fn alike(
    before: Db,
    org_id: Seq<char>,
    body: PlaceOrderBody,
    other_body: PlaceOrderBody,
) -> bool {
    &&& body.items@.len() == other_body.items@.len()
    &&& forall|i: int|
        #![trigger body.items@[i]]
        #![trigger other_body.items@[i]]
        0 <= i < body.items@.len() ==> same_but_for_price(
            before,
            org_id,
            body.items@[i],
            other_body.items@[i],
        )
}

/// The two orders come to the same, and so does each line of them.
pub open spec fn come_to_the_same(
    event: OrderEvent,
    order: NewOrder,
    after: Db,
    other_event: OrderEvent,
    other_order: NewOrder,
    other_after: Db,
    n_lines: nat,
) -> bool {
    &&& event.order.subtotal == other_event.order.subtotal
    &&& event.order.tax == other_event.order.tax
    &&& event.order.total == other_event.order.total
    &&& after.orders[order.order_id@].total == other_after.orders[other_order.order_id@].total
    &&& event.order.items@.len() == n_lines
    &&& other_event.order.items@.len() == n_lines
    &&& forall|i: int|
        0 <= i < n_lines ==> {
            let kept = after.order_items[(#[trigger] order.line_ids@[i])@];
            let other_kept = other_after.order_items[other_order.line_ids@[i]@];
            &&& after.has_line(order.order_id@, order.line_ids@[i]@)
            &&& other_after.has_line(other_order.order_id@, other_order.line_ids@[i]@)
            &&& kept.price == other_kept.price
            &&& kept.qty == other_kept.qty
        }
}

/// As many lines are shown as the order has.
pub proof fn lemma_lines_shown(
    body: PlaceOrderBody,
    order: NewOrder,
    step: Step<OrderJob, OrderEvent>,
    before: Db,
    event: OrderEvent,
    after: Db,
    turns: nat,
)
    requires
        order.line_ids@.len() >= body.items@.len(),
        soundness::sound(before),
        orders::place_order_asks(body, order, step),
        store::run(step, before, Ok::<OrderEvent, AppError>(event), after, turns),
    ensures
        event.order.items@.len() == body.items@.filter(orders::counts()).len(),
{
    let out = Ok::<OrderEvent, AppError>(event);
    law_place_order(body, order, step, before, event, after, turns);
    let lines = body.items@.filter(orders::counts());
    let found = choose|found: Seq<Option<Price>>| #[trigger]
        looked_up(before, order.org_id@, lines, found) && placed(before, order, lines, found, after);
    body.items@.lemma_filter_len(orders::counts());
    let (r1, mid1, s2) = soundness::lemma_one_turn(step->effect, step->job, before, out, after, turns);
    let (r2, mid2, s3) = soundness::lemma_one_turn(
        s2->effect,
        s2->job,
        mid1,
        out,
        after,
        (turns - 1) as nat,
    );
    let (r3, mid3, s4) = soundness::lemma_one_turn(
        s3->effect,
        s3->job,
        mid2,
        out,
        after,
        (turns - 2) as nat,
    );
    let (r4, mid4, s5) = soundness::lemma_one_turn(
        s4->effect,
        s4->job,
        mid3,
        out,
        after,
        (turns - 3) as nat,
    );
    let items = s4->effect->PlaceOrder_items@;
    assert(orders::are_kept_lines(
        items,
        lines,
        r2->Prices_0@,
        order.order_id@,
        order.line_ids@,
    ));
    let kept = Seq::new(lines.len(), |i: int| order.line_ids@[i]@);
    assert forall|i: int, j: int| 0 <= i < j < kept.len() implies kept[i] != kept[j] by {
        assert(items[i]@.id == order.line_ids@[i]@);
        assert(items[j]@.id == order.line_ids@[j]@);
        assert(items[i].id@ != items[j].id@);
    }
    assert(kept.no_duplicates());
    let ids = choose|ids: Seq<Seq<char>>| #[trigger]
        store::shows_lines(after, order.order_id@, ids, event.order@.items);
    assert(store::shows_lines(after, order.order_id@, ids, event.order@.items));
    assert forall|id: Seq<char>| #[trigger] ids.contains(id) <==> kept.contains(id) by {
        if kept.contains(id) {
            let i = choose|i: int| 0 <= i < kept.len() && kept[i] == id;
            assert(after.has_line(order.order_id@, order.line_ids@[i]@));
        }
        if ids.contains(id) {
            assert(after.has_line(order.order_id@, id));
            let i = choose|i: int| 0 <= i < lines.len() && (#[trigger] order.line_ids@[i])@ == id;
            assert(kept[i] == id);
        }
    }
    assert(ids.to_set() =~= kept.to_set());
    ids.unique_seq_to_set();
    kept.unique_seq_to_set();
    assert(event.order@.items.len() == event.order.items@.len());
}

/// A guest cannot tamper with prices: what an order and its lines come to does not
/// depend on the prices that the guest sent for items on the menu, provided that
/// the store does not fail.
pub proof fn law_guests_cannot_tamper_with_totals(
    before: Db,
    body: PlaceOrderBody,
    order: NewOrder,
    step: Step<OrderJob, OrderEvent>,
    event: OrderEvent,
    after: Db,
    turns: nat,
    other_body: PlaceOrderBody,
    other_order: NewOrder,
    other_step: Step<OrderJob, OrderEvent>,
    other_event: OrderEvent,
    other_after: Db,
    other_turns: nat,
)
    requires
        order.line_ids@.len() >= body.items@.len(),
        other_order.line_ids@.len() >= other_body.items@.len(),
        soundness::sound(before),
        orders::place_order_asks(body, order, step),
        store::steady_run(step, before, Ok::<OrderEvent, AppError>(event), after, turns),
        orders::place_order_asks(other_body, other_order, other_step),
        store::steady_run(
            other_step,
            before,
            Ok::<OrderEvent, AppError>(other_event),
            other_after,
            other_turns,
        ),
        order.org_id@ == other_order.org_id@,
        alike(before, order.org_id@, body, other_body),
    ensures
        come_to_the_same(
            event,
            order,
            after,
            other_event,
            other_order,
            other_after,
            body.items@.filter(orders::counts()).len(),
        ),
{
    law_order_is_placed_at_menu_prices(body, order, step, before, event, after, turns);
    law_order_is_placed_at_menu_prices(
        other_body,
        other_order,
        other_step,
        before,
        other_event,
        other_after,
        other_turns,
    );
    soundness::lemma_steady_run_is_run(
        step,
        before,
        Ok::<OrderEvent, AppError>(event),
        after,
        turns,
    );
    soundness::lemma_steady_run_is_run(
        other_step,
        before,
        Ok::<OrderEvent, AppError>(other_event),
        other_after,
        other_turns,
    );
    lemma_lines_shown(body, order, step, before, event, after, turns);
    lemma_lines_shown(
        other_body,
        other_order,
        other_step,
        before,
        other_event,
        other_after,
        other_turns,
    );
    let lines = body.items@.filter(orders::counts());
    let others = other_body.items@.filter(orders::counts());
    body.items@.lemma_filter_len(orders::counts());
    lemma_lines_that_count_correspond(before, order.org_id@, body.items@, other_body.items@);
    let found = menu_prices(before, order.org_id@, lines);
    let other_found = menu_prices(before, order.org_id@, others);
    assert(amounts_kept(order, lines, found) =~= amounts_kept(other_order, others, other_found)) by {
        assert forall|i: int| 0 <= i < lines.len() implies #[trigger] amounts_kept(
            order,
            lines,
            found,
        )[i] == amounts_kept(other_order, others, other_found)[i] by {
            assert(same_but_for_price(before, order.org_id@, lines[i], others[i]));
        }
    }
    assert forall|i: int| 0 <= i < lines.len() implies {
        let kept = after.order_items[(#[trigger] order.line_ids@[i])@];
        let other_kept = other_after.order_items[other_order.line_ids@[i]@];
        &&& after.has_line(order.order_id@, order.line_ids@[i]@)
        &&& other_after.has_line(other_order.order_id@, other_order.line_ids@[i]@)
        &&& kept.price == other_kept.price
        &&& kept.qty == other_kept.qty
    } by {
        assert(same_but_for_price(before, order.org_id@, lines[i], others[i]));
        assert(other_after.has_line(other_order.order_id@, other_order.line_ids@[i]@));
    }
}

/// Whatever prices a guest sends for items on the menu, on a store that serves
/// steadily the order is placed, at the same prices and the same totals, or it is
/// not.
pub proof fn law_sent_prices_do_not_matter(
    before: Db,
    body: PlaceOrderBody,
    order: NewOrder,
    step: Step<OrderJob, OrderEvent>,
    out: Result<OrderEvent, AppError>,
    after: Db,
    turns: nat,
    other_body: PlaceOrderBody,
    other_order: NewOrder,
    other_step: Step<OrderJob, OrderEvent>,
    other_out: Result<OrderEvent, AppError>,
    other_after: Db,
    other_turns: nat,
)
    requires
        order.line_ids@.len() >= body.items@.len(),
        other_order.line_ids@.len() >= other_body.items@.len(),
        soundness::sound(before),
        outcomes::fresh_ids(before, order),
        outcomes::fresh_ids(before, other_order),
        orders::place_order_asks(body, order, step),
        store::steady_run(step, before, out, after, turns),
        orders::place_order_asks(other_body, other_order, other_step),
        store::steady_run(other_step, before, other_out, other_after, other_turns),
        order.org_id@ == other_order.org_id@,
        order.table_id@ == other_order.table_id@,
        alike(before, order.org_id@, body, other_body),
    ensures
        out is Ok <==> other_out is Ok,
        out matches Ok(event) ==> other_out matches Ok(other_event) && come_to_the_same(
            event,
            order,
            after,
            other_event,
            other_order,
            other_after,
            body.items@.filter(orders::counts()).len(),
        ),
{
    lemma_lines_that_count_correspond(before, order.org_id@, body.items@, other_body.items@);
    if body.items@.len() > 0 {
        outcomes::law_order_is_placed_at_own_table(body, order, step, before, out, after, turns);
        outcomes::law_order_is_placed_at_own_table(
            other_body,
            other_order,
            other_step,
            before,
            other_out,
            other_after,
            other_turns,
        );
    }
    if out is Ok {
        law_guests_cannot_tamper_with_totals(
            before,
            body,
            order,
            step,
            out->Ok_0,
            after,
            turns,
            other_body,
            other_order,
            other_step,
            other_out->Ok_0,
            other_after,
            other_turns,
        );
    }
}

/// An order that was moved on has the new status and the time of the change,
/// keeps the rest, and is announced as it is kept. Nothing else changes.
pub proof fn law_update_order_status(
    auth: AuthUser,
    org_id: String,
    order_id: String,
    body: UpdateStatusBody,
    now: i64,
    step: Step<OrderJob, OrderEvent>,
    before: Db,
    event: OrderEvent,
    after: Db,
    turns: nat,
)
    requires
        orders::update_order_status_asks(auth, org_id, order_id, body, now, step),
        store::run(step, before, Ok::<OrderEvent, AppError>(event), after, turns),
    ensures
        flow::valid_status(body.status@),
        before.has_order(org_id@, order_id@),
        after == (Db {
            orders: before.orders.insert(
                order_id@,
                OrderRowView {
                    status: body.status@,
                    updated_at: now,
                    ..before.orders[order_id@]
                },
            ),
            ..before
        }),
        event.org_id@ == org_id@,
        event.event_type@ == "order:update"@,
        store::shows_order(after, order_id@, event.order@),
        event.order.status@ == body.status@,
{
    let out = Ok::<OrderEvent, AppError>(event);
    let (r1, mid1, s2) = soundness::lemma_one_turn(step->effect, step->job, before, out, after, turns);
    let (r2, mid2, s3) = soundness::lemma_one_turn(
        s2->effect,
        s2->job,
        mid1,
        out,
        after,
        (turns - 1) as nat,
    );
}

/// A table's orders show just the orders of the table that were created since
/// midnight, without those served where only pending ones are asked for, the
/// latest first. Nothing changes.
pub proof fn law_table_orders(
    org_id: String,
    table_id: String,
    q: PendingQuery,
    now_ms: i64,
    step: Step<ListingOrders, Vec<OrderOut>>,
    before: Db,
    shown: Vec<OrderOut>,
    after: Db,
    turns: nat,
)
    requires
        clock::in_calendar(now_ms),
        soundness::sound(before),
        orders::table_orders_asks(org_id, table_id, q, now_ms, step),
        store::run(step, before, Ok::<Vec<OrderOut>, AppError>(shown), after, turns),
    ensures
        after == before,
        forall|i: int|
            0 <= i < shown@.len() ==> {
                let order = (#[trigger] shown@[i])@;
                &&& before.has_order(org_id@, order.id)
                &&& store::shows_order(before, order.id, order)
                &&& order.table_id == table_id@
                &&& order.created_at >= clock::midnight(now_ms as int)
                &&& json::opt_text(q.status) == Some("pending"@) ==> order.status != "served"@
            },
        forall|i: int, j: int|
            0 <= i < j < shown@.len() ==> (#[trigger] shown@[i]).created_at >= (
            #[trigger] shown@[j]).created_at,
        forall|id: Seq<char>| #[trigger]
            before.has_order(org_id@, id) && before.orders[id].table_id == table_id@
                && before.orders[id].created_at >= clock::midnight(now_ms as int) && (
            json::opt_text(q.status) == Some("pending"@) ==> before.orders[id].status != "served"@)
                ==> exists|i: int| 0 <= i < shown@.len() && (#[trigger] shown@[i]).id@ == id,
{
    let out = Ok::<Vec<OrderOut>, AppError>(shown);
    let (r1, mid1, s2) = soundness::lemma_one_turn(step->effect, step->job, before, out, after, turns);
    let filter = step->effect->ListOrders_filter;
    let ids = choose|ids: Seq<Seq<char>>| #[trigger]
        store::shows_orders(before, org_id@, filter, ids, shown@);
    assert(store::shows_orders(before, org_id@, filter, ids, shown@));
    let wanted = |id: Seq<char>|
        before.has_order(org_id@, id) && store::passes(before.orders[id], filter);
    assert(store::lists(ids, wanted));
    let midnight = clock::midnight(now_ms as int);
    assert(filter.from == midnight) by {
        vstd::arithmetic::div_mod::lemma_mod_bound(now_ms as int, clock::DAY_MS as int);
    }
    assert forall|i: int| 0 <= i < shown@.len() implies {
        let order = (#[trigger] shown@[i])@;
        &&& before.has_order(org_id@, order.id)
        &&& store::shows_order(before, order.id, order)
        &&& order.id == ids[i]
        &&& order.table_id == table_id@
        &&& order.created_at >= midnight
        &&& json::opt_text(q.status) == Some("pending"@) ==> order.status != "served"@
    } by {
        assert(ids.contains(ids[i]));
        assert(wanted(ids[i]));
        assert(store::shows_order(before, ids[i], shown@[i]@));
    }
    assert forall|i: int, j: int| 0 <= i < j < shown@.len() implies (#[trigger] shown@[i]).created_at
        >= (#[trigger] shown@[j]).created_at by {
        assert(store::shows_order(before, ids[i], shown@[i]@));
        assert(store::shows_order(before, ids[j], shown@[j]@));
        assert(before.orders[ids[i]].created_at >= before.orders[ids[j]].created_at);
    }
    assert forall|id: Seq<char>| #[trigger]
        before.has_order(org_id@, id) && before.orders[id].table_id == table_id@
            && before.orders[id].created_at >= midnight && (json::opt_text(q.status) == Some(
            "pending"@,
        ) ==> before.orders[id].status != "served"@) implies exists|i: int|
        0 <= i < shown@.len() && (#[trigger] shown@[i]).id@ == id by {
        assert(wanted(id));
        assert(ids.contains(id));
        let i = choose|i: int| 0 <= i < ids.len() && ids[i] == id;
        assert(shown@[i]@.id == ids[i]);
    }
}

/// Without two points in time, a query is about a part of one day: from midnight
/// to now.
pub proof fn law_default_range_is_today(q: AdminOrdersQuery, now_ms: i64, range: (i64, i64))
    requires
        clock::in_calendar(now_ms),
        q.from is None || q.to is None,
        orders::range_asked(q, now_ms, Ok(range)),
    ensures
        range.1 == now_ms,
        range.0 <= range.1 < range.0 + clock::DAY_MS,
        range.0 as int % clock::DAY_MS as int == 0,
{
    let day = clock::DAY_MS as int;
    vstd::arithmetic::div_mod::lemma_fundamental_div_mod(now_ms as int, day);
    vstd::arithmetic::div_mod::lemma_mod_bound(now_ms as int, day);
    vstd::arithmetic::mul::lemma_mul_is_commutative(day, now_ms as int / day);
    vstd::arithmetic::div_mod::lemma_mod_multiples_basic(now_ms as int / day, day);
}

/// A guest who has placed an order finds it among the orders of the table for the
/// rest of the day, as new, until it is moved on.
pub proof fn law_placed_order_is_tracked(
    body: PlaceOrderBody,
    order: NewOrder,
    place: Step<OrderJob, OrderEvent>,
    before: Db,
    event: OrderEvent,
    mid: Db,
    place_turns: nat,
    q: PendingQuery,
    now_ms: i64,
    list: Step<ListingOrders, Vec<OrderOut>>,
    shown: Vec<OrderOut>,
    after: Db,
    list_turns: nat,
)
    requires
        order.line_ids@.len() >= body.items@.len(),
        soundness::sound(before),
        orders::place_order_asks(body, order, place),
        flow::ready(place),
        store::run(place, before, Ok::<OrderEvent, AppError>(event), mid, place_turns),
        clock::in_calendar(now_ms),
        order.now >= clock::midnight(now_ms as int),
        orders::table_orders_asks(order.org_id, order.table_id, q, now_ms, list),
        store::run(list, mid, Ok::<Vec<OrderOut>, AppError>(shown), after, list_turns),
    ensures
        exists|i: int|
            0 <= i < shown@.len() && (#[trigger] shown@[i]).id@ == order.order_id@
                && shown@[i].status@ == "new"@ && store::shows_order(
                mid,
                order.order_id@,
                shown@[i]@,
            ),
{
    law_place_order(body, order, place, before, event, mid, place_turns);
    soundness::law_requests_keep_store_sound(
        place,
        before,
        Ok::<OrderEvent, AppError>(event),
        mid,
        place_turns,
    );
    law_table_orders(order.org_id, order.table_id, q, now_ms, list, mid, shown, after, list_turns);
    assert("new"@ != "served"@) by {
        reveal_strlit("new");
        reveal_strlit("served");
        assert("new"@.len() != "served"@.len());
    }
    assert(mid.has_order(order.org_id@, order.order_id@));
    let i = choose|i: int| 0 <= i < shown@.len() && (#[trigger] shown@[i]).id@ == order.order_id@;
    assert(store::shows_order(mid, shown@[i]@.id, shown@[i]@));
}

/// An order that was moved on shows its new status to the guests of its table; one
/// that was served is no longer among those that are pending.
pub proof fn law_moved_order_is_tracked(
    auth: AuthUser,
    org_id: String,
    order_id: String,
    body: UpdateStatusBody,
    now: i64,
    update: Step<OrderJob, OrderEvent>,
    before: Db,
    event: OrderEvent,
    mid: Db,
    update_turns: nat,
    table_id: String,
    q: PendingQuery,
    now_ms: i64,
    list: Step<ListingOrders, Vec<OrderOut>>,
    shown: Vec<OrderOut>,
    after: Db,
    list_turns: nat,
)
    requires
        soundness::sound(before),
        orders::update_order_status_asks(auth, org_id, order_id, body, now, update),
        flow::ready(update),
        store::run(update, before, Ok::<OrderEvent, AppError>(event), mid, update_turns),
        clock::in_calendar(now_ms),
        orders::table_orders_asks(org_id, table_id, q, now_ms, list),
        store::run(list, mid, Ok::<Vec<OrderOut>, AppError>(shown), after, list_turns),
    ensures
        forall|i: int|
            0 <= i < shown@.len() && (#[trigger] shown@[i]).id@ == order_id@ ==> {
                &&& shown@[i].status@ == body.status@
                &&& shown@[i].updated_at == now
                &&& body.status@ == "served"@ ==> json::opt_text(q.status) != Some("pending"@)
            },
{
    law_update_order_status(auth, org_id, order_id, body, now, update, before, event, mid, update_turns);
    soundness::law_requests_keep_store_sound(
        update,
        before,
        Ok::<OrderEvent, AppError>(event),
        mid,
        update_turns,
    );
    law_table_orders(org_id, table_id, q, now_ms, list, mid, shown, after, list_turns);
    assert forall|i: int|
        0 <= i < shown@.len() && (#[trigger] shown@[i]).id@ == order_id@ implies shown@[i].status@
        == body.status@ && shown@[i].updated_at == now && (body.status@ == "served"@
        ==> json::opt_text(q.status) != Some("pending"@)) by {
        assert(store::shows_order(mid, shown@[i]@.id, shown@[i]@));
    }
}

} // verus!

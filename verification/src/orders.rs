//! Orders: placing them, listing them, and moving them on.

use vstd::prelude::*;

use crate::auth::{ensure_own_org, AuthUser};
use crate::clock;
use crate::error::{AppError, Status};
use crate::flow;
use crate::flow::{Effect, Job, OrderFilter, Reply, Step, Totals};
use crate::ids;
use crate::json;
use crate::records::{
    AdminOrdersQuery, OrderItemRow, OrderItemRowView, OrderOut, OrderRow, OrderRowView,
    PendingQuery, PlaceOrderBody, PlaceOrderItem, Price, UpdateStatusBody,
};
use crate::text;

verus! {

// ---------------------------------------------------------------------------
// Events
// ---------------------------------------------------------------------------

/// Something happened to an order: for the live feed of the organisation, and,
/// as far as the order goes, for the answer.
#[derive(Debug)]
pub struct OrderEvent {
    pub org_id: String,
    pub event_type: String,
    pub order: OrderOut,
}

pub fn broadcast_event(org_id: String, event_type: String, order: OrderOut) -> (r: OrderEvent)
    ensures
        r == (OrderEvent { org_id, event_type, order }),
{
    OrderEvent { org_id, event_type, order }
}

// ---------------------------------------------------------------------------
// The lines of an order
// ---------------------------------------------------------------------------

/// Lines that order at least one piece; the others are passed over.
pub open spec fn counts() -> spec_fn(PlaceOrderItem) -> bool {
    |line: PlaceOrderItem| line.qty > 0
}

/// The lines that order at least one piece, in their sequence.
pub fn ordered_lines(lines: Vec<PlaceOrderItem>) -> (r: Vec<PlaceOrderItem>)
    ensures
        r@ == lines@.filter(counts()),
        r@.len() <= lines@.len(),
        forall|i: int| 0 <= i < r@.len() ==> (#[trigger] r@[i]).qty > 0,
{
    let mut kept: Vec<PlaceOrderItem> = Vec::new();
    let ghost all = lines@;
    assert(all.take(0).filter(counts()) =~= kept@) by {
        reveal(Seq::filter);
    }
    for line in it: lines
        invariant
            it.seq() == all,
            kept@ == all.take(it.index() as int).filter(counts()),
            kept@.len() <= it.index(),
            forall|i: int| 0 <= i < kept@.len() ==> (#[trigger] kept@[i]).qty > 0,
    {
        let ghost at = it.index() as int;
        assert(all.take(at + 1).filter(counts()) == if counts()(line) {
            kept@.push(line)
        } else {
            kept@
        }) by {
            reveal(Seq::filter);
            assert(all.take(at + 1).drop_last() =~= all.take(at));
            assert(all.take(at + 1).last() == line);
        }
        if line.qty > 0 {
            kept.push(line);
        }
    }
    assert(all.take(all.len() as int) =~= all);
    kept
}

/// The price of a line: that of the item on the menu, and only where there is no
/// such item the one that came with the line.
pub open spec fn line_price(line: PlaceOrderItem, found: Option<Price>) -> Price {
    match found {
        Some(price) => if line.item_id is Some {
            price
        } else {
            line.price
        },
        None => line.price,
    }
}

/// A line as it is kept.
pub open spec fn kept_line(
    line: PlaceOrderItem,
    found: Option<Price>,
    order_id: Seq<char>,
    line_id: Seq<char>,
) -> OrderItemRowView {
    OrderItemRowView {
        id: line_id,
        order_id,
        menu_item_id: json::opt_text(line.item_id),
        name: line.name@,
        price: line_price(line, found),
        qty: line.qty,
        note: line.note@,
    }
}

/// The lines as they are kept, one by one.
pub open spec fn are_kept_lines(
    items: Seq<OrderItemRow>,
    lines: Seq<PlaceOrderItem>,
    prices: Seq<Option<Price>>,
    order_id: Seq<char>,
    line_ids: Seq<String>,
) -> bool {
    &&& items.len() == lines.len()
    &&& forall|i: int|
        0 <= i < items.len() ==> (#[trigger] items[i])@ == kept_line(
            lines[i],
            prices[i],
            order_id,
            line_ids[i]@,
        )
}

pub fn priced_lines(
    lines: Vec<PlaceOrderItem>,
    prices: Vec<Option<Price>>,
    order_id: &String,
    line_ids: Vec<String>,
) -> (r: Vec<OrderItemRow>)
    requires
        prices@.len() == lines@.len(),
        line_ids@.len() >= lines@.len(),
    ensures
        are_kept_lines(r@, lines@, prices@, order_id@, line_ids@),
{
    let mut items: Vec<OrderItemRow> = Vec::new();
    let ghost all = lines@;
    for line in it: lines
        invariant
            it.seq() == all,
            prices@.len() == all.len(),
            line_ids@.len() >= all.len(),
            items@.len() == it.index(),
            forall|i: int|
                0 <= i < items@.len() ==> (#[trigger] items@[i])@ == kept_line(
                    all[i],
                    prices@[i],
                    order_id@,
                    line_ids@[i]@,
                ),
    {
        let at: usize = items.len();
        let price = match (&line.item_id, prices[at]) {
            (Some(_), Some(price)) => price,
            _ => line.price,
        };
        items.push(
            OrderItemRow {
                id: line_ids[at].clone(),
                order_id: order_id.clone(),
                menu_item_id: line.item_id,
                name: line.name,
                price,
                qty: line.qty,
                note: line.note,
            },
        );
    }
    items
}

/// The ids of the menu items that the lines are about, as far as they have any.
pub open spec fn item_ids(lines: Seq<PlaceOrderItem>) -> Seq<Option<String>> {
    lines.map_values(|line: PlaceOrderItem| line.item_id)
}

fn ids_of(lines: &Vec<PlaceOrderItem>) -> (r: Vec<Option<String>>)
    ensures
        r@ == item_ids(lines@),
{
    let mut list: Vec<Option<String>> = Vec::new();
    for i in 0..lines.len()
        invariant
            list@.len() == i,
            forall|j: int| 0 <= j < i ==> #[trigger] list@[j] == lines@[j].item_id,
    {
        list.push(
            match &lines[i].item_id {
                Some(id) => Some(id.clone()),
                None => None,
            },
        );
    }
    assert(list@ =~= item_ids(lines@));
    list
}

/// What there is to add up: the price of a piece and the number of pieces, line by line.
pub open spec fn amounts(items: Seq<OrderItemRow>) -> Seq<(Price, i64)> {
    items.map_values(|item: OrderItemRow| (item.price, item.qty))
}

pub fn amounts_of(items: &Vec<OrderItemRow>) -> (r: Vec<(Price, i64)>)
    ensures
        r@ == amounts(items@),
{
    let mut list: Vec<(Price, i64)> = Vec::new();
    for i in 0..items.len()
        invariant
            list@.len() == i,
            forall|j: int| 0 <= j < i ==> #[trigger] list@[j] == (items@[j].price, items@[j].qty),
    {
        list.push((items[i].price, items[i].qty));
    }
    assert(list@ =~= amounts(items@));
    list
}

// ---------------------------------------------------------------------------
// Statuses
// ---------------------------------------------------------------------------

/// Whether an order can have the status.
pub fn is_valid_status(status: &String) -> (r: bool)
    ensures
        r == flow::valid_status(status@),
{
    text::reads(status, "new") || text::reads(status, "preparing") || text::reads(status, "ready")
        || text::reads(status, "served")
}

// ---------------------------------------------------------------------------
// Placing and moving on
// ---------------------------------------------------------------------------

/// Where an order that is being placed belongs, and the ids for it.
#[derive(Debug)]
pub struct NewOrder {
    pub org_id: String,
    pub table_id: String,
    pub order_id: String,
    /// At least one for each line.
    pub line_ids: Vec<String>,
    pub now: i64,
}

/// What is left to do of a request about one order.
#[derive(Debug)]
pub enum OrderJob {
    /// The table was asked for.
    Seating { order: NewOrder, lines: Vec<PlaceOrderItem> },
    /// The prices of the lines were asked for.
    Pricing { order: NewOrder, table_name: String, lines: Vec<PlaceOrderItem> },
    /// The lines are being added up.
    Totalling { order: NewOrder, table_name: String, items: Vec<OrderItemRow> },
    /// The order was sent to the store, or a change of it.
    Changing { org_id: String, order_id: String, event_type: String },
    /// The order was asked for, to be shown.
    Announcing { org_id: String, event_type: String },
}

/// An order as it is kept when it was just placed.
pub open spec fn new_order_row(order: NewOrder, table_name: Seq<char>, totals: Totals) -> OrderRowView {
    OrderRowView {
        id: order.order_id@,
        org_id: order.org_id@,
        table_id: order.table_id@,
        table_name,
        status: "new"@,
        subtotal: totals.subtotal,
        tax: totals.tax,
        total: totals.total,
        created_at: order.now,
        updated_at: order.now,
    }
}

/// The table is there: the prices of the lines that count are asked for.
pub open spec fn seated(
    order: NewOrder,
    lines: Seq<PlaceOrderItem>,
    table_name: Seq<char>,
    step: Step<OrderJob, OrderEvent>,
) -> bool {
    if lines.filter(counts()).len() == 0 {
        flow::refused(step, Status::InternalServerError, "Query is not read-only"@)
    } else {
        &&& step matches Step::Await {
            effect: Effect::FindPrices { org_id, item_ids: asked },
            job: OrderJob::Pricing { order: o, table_name: name, lines: kept },
        }
        &&& org_id == order.org_id
        &&& asked@ == item_ids(lines.filter(counts()))
        &&& o == order
        &&& name@ == table_name
        &&& kept@ == lines.filter(counts())
    }
}

/// The prices are there: the lines are added up.
pub open spec fn priced(
    order: NewOrder,
    table_name: String,
    lines: Seq<PlaceOrderItem>,
    prices: Seq<Option<Price>>,
    step: Step<OrderJob, OrderEvent>,
) -> bool {
    &&& step matches Step::Await {
        effect: Effect::TotalUp { lines: added },
        job: OrderJob::Totalling { order: o, table_name: name, items },
    }
    &&& are_kept_lines(items@, lines, prices, order.order_id@, order.line_ids@)
    &&& added@ == amounts(items@)
    &&& o.org_id == order.org_id
    &&& o.table_id == order.table_id
    &&& o.order_id == order.order_id
    &&& o.now == order.now
    &&& name == table_name
}

/// The order was added up: it is placed with its lines.
pub open spec fn totalled(
    order: NewOrder,
    table_name: String,
    items: Vec<OrderItemRow>,
    totals: Totals,
    step: Step<OrderJob, OrderEvent>,
) -> bool {
    &&& step matches Step::Await {
        effect: Effect::PlaceOrder { order: row, items: placed },
        job: OrderJob::Changing { org_id, order_id, event_type },
    }
    &&& row@ == new_order_row(order, table_name@, totals)
    &&& placed == items
    &&& org_id == order.org_id
    &&& order_id == order.order_id
    &&& event_type@ == "order:new"@
}

impl Job for OrderJob {
    type Out = OrderEvent;

    open spec fn awaits(&self, reply: Reply) -> bool {
        match self {
            OrderJob::Seating { order, lines } => {
                &&& reply is Failed || reply is Table
                &&& order.line_ids@.len() >= lines@.len()
            },
            OrderJob::Pricing { order, table_name, lines } => {
                &&& reply matches Reply::Prices(prices) && prices@.len() == lines@.len()
                &&& order.line_ids@.len() >= lines@.len()
                &&& lines@.len() > 0
                &&& forall|i: int| 0 <= i < lines@.len() ==> (#[trigger] lines@[i]).qty > 0
            },
            OrderJob::Totalling { order, table_name, items } => {
                &&& reply is Totals
                &&& items@.len() > 0
                &&& flow::lines_of(order.order_id@, items@)
            },
            OrderJob::Changing { .. } => reply is Failed || reply is Changed,
            OrderJob::Announcing { .. } => reply is Failed || reply is Order,
        }
    }

    open spec fn turns_left(&self) -> nat {
        match self {
            OrderJob::Seating { .. } => 5,
            OrderJob::Pricing { .. } => 4,
            OrderJob::Totalling { .. } => 3,
            OrderJob::Changing { .. } => 2,
            OrderJob::Announcing { .. } => 1,
        }
    }

    open spec fn turn(&self, reply: Reply, step: Step<OrderJob, OrderEvent>) -> bool {
        match reply {
            Reply::Failed(failure) => flow::fails_with(step, failure),
            _ => match self {
                OrderJob::Seating { order, lines } => seated(
                    *order,
                    lines@,
                    reply->Table_0.name@,
                    step,
                ),
                OrderJob::Pricing { order, table_name, lines } => priced(
                    *order,
                    *table_name,
                    lines@,
                    reply->Prices_0@,
                    step,
                ),
                OrderJob::Totalling { order, table_name, items } => totalled(
                    *order,
                    *table_name,
                    *items,
                    reply->Totals_0,
                    step,
                ),
                OrderJob::Changing { org_id, order_id, event_type } => step == Step::<
                    OrderJob,
                    OrderEvent,
                >::Await {
                    effect: Effect::FindOrder { org_id: *org_id, order_id: *order_id },
                    job: OrderJob::Announcing { org_id: *org_id, event_type: *event_type },
                },
                OrderJob::Announcing { org_id, event_type } => step == Step::<
                    OrderJob,
                    OrderEvent,
                >::Done(
                    Ok(
                        OrderEvent {
                            org_id: *org_id,
                            event_type: *event_type,
                            order: reply->Order_0,
                        },
                    ),
                ),
            },
        }
    }

    fn resume(self, reply: Reply) -> (step: Step<OrderJob, OrderEvent>) {
        match reply {
            Reply::Failed(failure) => Step::Done(Err(AppError::from_store(&failure))),
            Reply::Table(table) => match self {
                OrderJob::Seating { order, lines } => {
                    let kept = ordered_lines(lines);
                    if kept.len() == 0 {
                        return Step::Done(Err(AppError::internal("Query is not read-only")));
                    }
                    Step::Await {
                        effect: Effect::FindPrices {
                            org_id: order.org_id.clone(),
                            item_ids: ids_of(&kept),
                        },
                        job: OrderJob::Pricing { order, table_name: table.name, lines: kept },
                    }
                },
                _ => vstd::pervasive::unreached(),
            },
            Reply::Prices(prices) => match self {
                OrderJob::Pricing { order, table_name, lines } => {
                    let items = priced_lines(lines, prices, &order.order_id, order.line_ids);
                    Step::Await {
                        effect: Effect::TotalUp { lines: amounts_of(&items) },
                        job: OrderJob::Totalling {
                            order: NewOrder {
                                org_id: order.org_id,
                                table_id: order.table_id,
                                order_id: order.order_id,
                                line_ids: Vec::new(),
                                now: order.now,
                            },
                            table_name,
                            items,
                        },
                    }
                },
                _ => vstd::pervasive::unreached(),
            },
            Reply::Totals(totals) => match self {
                OrderJob::Totalling { order, table_name, items } => {
                    let row = OrderRow {
                        id: order.order_id.clone(),
                        org_id: order.org_id.clone(),
                        table_id: order.table_id,
                        table_name,
                        status: "new".to_string(),
                        subtotal: totals.subtotal,
                        tax: totals.tax,
                        total: totals.total,
                        created_at: order.now,
                        updated_at: order.now,
                    };
                    Step::Await {
                        effect: Effect::PlaceOrder { order: row, items },
                        job: OrderJob::Changing {
                            org_id: order.org_id,
                            order_id: order.order_id,
                            event_type: "order:new".to_string(),
                        },
                    }
                },
                _ => vstd::pervasive::unreached(),
            },
            Reply::Changed => match self {
                OrderJob::Changing { org_id, order_id, event_type } => Step::Await {
                    effect: Effect::FindOrder { org_id: org_id.clone(), order_id },
                    job: OrderJob::Announcing { org_id, event_type },
                },
                _ => vstd::pervasive::unreached(),
            },
            Reply::Order(order) => match self {
                OrderJob::Announcing { org_id, event_type } => Step::Done(
                    Ok(broadcast_event(org_id, event_type, order)),
                ),
                _ => vstd::pervasive::unreached(),
            },
            _ => vstd::pervasive::unreached(),
        }
    }

    proof fn goes_on_ready(&self, reply: Reply, step: Step<OrderJob, OrderEvent>) {
        if let OrderJob::Seating { order, lines } = *self {
            lines@.lemma_filter_len(counts());
            assert forall|i: int| 0 <= i < lines@.filter(counts()).len() implies (
            #[trigger] lines@.filter(counts())[i]).qty > 0 by {
                lines@.lemma_filter_pred(counts(), i);
            }
        }
    }
}

pub open spec fn place_order_asks(
    body: PlaceOrderBody,
    order: NewOrder,
    step: Step<OrderJob, OrderEvent>,
) -> bool {
    if body.items@.len() == 0 {
        flow::refused(step, Status::BadRequest, "order must contain at least one item"@)
    } else {
        step == Step::<OrderJob, OrderEvent>::Await {
            effect: Effect::FindOrgTable { org_id: order.org_id, table_id: order.table_id },
            job: OrderJob::Seating { order, lines: body.items },
        }
    }
}

/// A guest orders at a table, with the given ids for the order and its lines.
pub fn place_order_as(body: PlaceOrderBody, order: NewOrder) -> (step: Step<OrderJob, OrderEvent>)
    requires
        order.line_ids@.len() >= body.items@.len(),
    ensures
        place_order_asks(body, order, step),
        flow::ready(step),
{
    if body.items.len() == 0 {
        return Step::Done(Err(AppError::bad_request("order must contain at least one item")));
    }
    Step::Await {
        effect: Effect::FindOrgTable {
            org_id: order.org_id.clone(),
            table_id: order.table_id.clone(),
        },
        job: OrderJob::Seating { order, lines: body.items },
    }
}

/// The order belongs to the table of the organisation, and has ids of its own.
pub open spec fn fresh_order(
    order: NewOrder,
    org_id: String,
    table_id: String,
    n_lines: nat,
    now: i64,
) -> bool {
    &&& order.org_id == org_id
    &&& order.table_id == table_id
    &&& ids::is_random_uuid(order.order_id@)
    &&& order.line_ids@.len() == n_lines
    &&& ids::are_random_uuids(order.line_ids@)
    &&& order.now == now
}

/// A guest orders at a table.
pub fn place_order(org_id: String, table_id: String, body: PlaceOrderBody, now: i64) -> (step: Step<
    OrderJob,
    OrderEvent,
>)
    ensures
        exists|order: NewOrder|
            fresh_order(order, org_id, table_id, body.items@.len(), now)
                && #[trigger] place_order_asks(body, order, step),
        flow::ready(step),
{
    let order_id = ids::new_id();
    let line_ids = ids::new_ids(body.items.len());
    let order = NewOrder { org_id, table_id, order_id, line_ids, now };
    let ghost made = order;
    let step = place_order_as(body, order);
    assert(place_order_asks(body, made, step));
    step
}

/// The status of an order is set, and the order is shown.
pub open spec fn sets_status(
    org_id: String,
    order_id: String,
    status: String,
    now: i64,
    step: Step<OrderJob, OrderEvent>,
) -> bool {
    &&& step matches Step::Await {
        effect: Effect::SetOrderStatus { org_id: org, order_id: id, status: set, at },
        job: OrderJob::Changing { org_id: job_org, order_id: job_id, event_type },
    }
    &&& org == org_id
    &&& id == order_id
    &&& set == status
    &&& at == now
    &&& job_org == org_id
    &&& job_id == order_id
    &&& event_type@ == "order:update"@
}

/// The steps to a new status of an order.
pub(crate) fn set_status(org_id: String, order_id: String, status: String, now: i64) -> (step: Step<
    OrderJob,
    OrderEvent,
>)
    requires
        flow::valid_status(status@),
    ensures
        sets_status(org_id, order_id, status, now, step),
        flow::ready(step),
{
    Step::Await {
        effect: Effect::SetOrderStatus {
            org_id: org_id.clone(),
            order_id: order_id.clone(),
            status,
            at: now,
        },
        job: OrderJob::Changing { org_id, order_id, event_type: "order:update".to_string() },
    }
}

pub open spec fn update_order_status_asks(
    auth: AuthUser,
    org_id: String,
    order_id: String,
    body: UpdateStatusBody,
    now: i64,
    step: Step<OrderJob, OrderEvent>,
) -> bool {
    if auth.org_id@ != org_id@ {
        flow::not_own_org(step)
    } else if !flow::valid_status(body.status@) {
        flow::refused(
            step,
            Status::BadRequest,
            "status must be one of new, preparing, ready, served"@,
        )
    } else {
        sets_status(org_id, order_id, body.status, now, step)
    }
}

/// An order gets a new status, by an admin of its organisation.
pub fn update_order_status(
    auth: &AuthUser,
    org_id: String,
    order_id: String,
    body: UpdateStatusBody,
    now: i64,
) -> (step: Step<OrderJob, OrderEvent>)
    ensures
        update_order_status_asks(*auth, org_id, order_id, body, now, step),
        flow::ready(step),
{
    match ensure_own_org(auth, org_id.as_str()) {
        Ok(()) => {},
        Err(e) => return Step::Done(Err(e)),
    }
    if !is_valid_status(&body.status) {
        return Step::Done(
            Err(AppError::bad_request("status must be one of new, preparing, ready, served")),
        );
    }
    set_status(org_id, order_id, body.status, now)
}

// ---------------------------------------------------------------------------
// Listing
// ---------------------------------------------------------------------------

/// Orders of an organisation were asked for.
#[derive(Debug)]
pub struct ListingOrders;

impl Job for ListingOrders {
    type Out = Vec<OrderOut>;

    open spec fn awaits(&self, reply: Reply) -> bool {
        reply is Failed || reply is Orders
    }

    open spec fn turns_left(&self) -> nat {
        1
    }

    open spec fn turn(&self, reply: Reply, step: Step<ListingOrders, Vec<OrderOut>>) -> bool {
        match reply {
            Reply::Failed(failure) => flow::fails_with(step, failure),
            _ => step == Step::<ListingOrders, Vec<OrderOut>>::Done(Ok(reply->Orders_0)),
        }
    }

    fn resume(self, reply: Reply) -> (step: Step<ListingOrders, Vec<OrderOut>>) {
        match reply {
            Reply::Failed(failure) => Step::Done(Err(AppError::from_store(&failure))),
            Reply::Orders(orders) => Step::Done(Ok(orders)),
            _ => vstd::pervasive::unreached(),
        }
    }

    proof fn goes_on_ready(&self, reply: Reply, step: Step<ListingOrders, Vec<OrderOut>>) {
    }
}

/// Orders created since midnight are asked for: those of the table, and, where
/// the query says `pending`, only those that were not served yet.
pub open spec fn table_orders_asks(
    org_id: String,
    table_id: String,
    q: PendingQuery,
    now_ms: i64,
    step: Step<ListingOrders, Vec<OrderOut>>,
) -> bool {
    step == Step::<ListingOrders, Vec<OrderOut>>::Await {
        effect: Effect::ListOrders {
            org_id,
            filter: OrderFilter {
                table_id: Some(table_id),
                pending_only: json::opt_text(q.status) == Some("pending"@),
                from: clock::midnight(now_ms as int) as i64,
                to: None,
                status: None,
            },
        },
        job: ListingOrders,
    }
}

/// The orders of a table, for its guests: those of the day that the given
/// millisecond lies in.
pub fn table_orders_at(org_id: String, table_id: String, q: &PendingQuery, now_ms: i64) -> (step:
    Step<ListingOrders, Vec<OrderOut>>)
    requires
        clock::in_calendar(now_ms),
    ensures
        table_orders_asks(org_id, table_id, *q, now_ms, step),
        flow::ready(step),
{
    let pending_only = match &q.status {
        Some(status) => text::reads(status, "pending"),
        None => false,
    };
    Step::Await {
        effect: Effect::ListOrders {
            org_id,
            filter: OrderFilter {
                table_id: Some(table_id),
                pending_only,
                from: clock::day_start(now_ms),
                to: None,
                status: None,
            },
        },
        job: ListingOrders,
    }
}

/// The orders of a table, for its guests: those of today.
pub fn table_orders(org_id: String, table_id: String, q: &PendingQuery) -> (step: Step<
    ListingOrders,
    Vec<OrderOut>,
>)
    ensures
        exists|now_ms: i64|
            clock::in_calendar(now_ms) && #[trigger] table_orders_asks(
                org_id,
                table_id,
                *q,
                now_ms,
                step,
            ),
        flow::ready(step),
{
    table_orders_at(org_id, table_id, q, clock::utc_now_ms())
}

/// The stretch of time that a query is about: from the one point in time that it
/// gives to the other, or else from midnight to now.
pub open spec fn range_asked(
    q: AdminOrdersQuery,
    now_ms: i64,
    r: Result<(i64, i64), AppError>,
) -> bool {
    if q.from is Some && q.to is Some {
        match (clock::rfc3339_ms(q.from->0@), clock::rfc3339_ms(q.to->0@)) {
            (None, _) => r matches Err(e) && e.says(
                Status::BadRequest,
                "`from` must be RFC3339"@,
            ),
            (Some(_), None) => r matches Err(e) && e.says(
                Status::BadRequest,
                "`to` must be RFC3339"@,
            ),
            (Some(from), Some(to)) => r == Ok::<(i64, i64), AppError>((from, to)),
        }
    } else {
        r == Ok::<(i64, i64), AppError>((clock::midnight(now_ms as int) as i64, now_ms))
    }
}

/// The stretch of time between two points, each of which has to be one.
pub fn range_between(from: Option<i64>, to: Option<i64>) -> (r: Result<(i64, i64), AppError>)
    ensures
        match (from, to) {
            (None, _) => r matches Err(e) && e.says(
                Status::BadRequest,
                "`from` must be RFC3339"@,
            ),
            (Some(_), None) => r matches Err(e) && e.says(
                Status::BadRequest,
                "`to` must be RFC3339"@,
            ),
            (Some(from), Some(to)) => r == Ok::<(i64, i64), AppError>((from, to)),
        },
{
    match (from, to) {
        (None, _) => Err(AppError::bad_request("`from` must be RFC3339")),
        (Some(_), None) => Err(AppError::bad_request("`to` must be RFC3339")),
        (Some(from), Some(to)) => Ok((from, to)),
    }
}

pub fn resolve_range_at(q: &AdminOrdersQuery, now_ms: i64) -> (r: Result<(i64, i64), AppError>)
    requires
        clock::in_calendar(now_ms),
    ensures
        range_asked(*q, now_ms, r),
{
    if let (Some(from), Some(to)) = (&q.from, &q.to) {
        return range_between(
            clock::parse_rfc3339(from.as_str()),
            clock::parse_rfc3339(to.as_str()),
        );
    }
    Ok((clock::day_start(now_ms), now_ms))
}

/// The stretch of time that a query is about, by the clock.
pub fn resolve_range(q: &AdminOrdersQuery) -> (r: Result<(i64, i64), AppError>)
    ensures
        exists|now_ms: i64| clock::in_calendar(now_ms) && #[trigger] range_asked(*q, now_ms, r),
{
    resolve_range_at(q, clock::utc_now_ms())
}

/// Orders created in the stretch of time, and, where a status is given, only
/// those that have it.
pub open spec fn between(range: (i64, i64), status: Option<String>) -> OrderFilter {
    OrderFilter { table_id: None, pending_only: false, from: range.0, to: Some(range.1), status }
}

/// These orders of the organisation are asked for.
pub open spec fn orders_between(
    org_id: String,
    status: Option<String>,
    range: (i64, i64),
    step: Step<ListingOrders, Vec<OrderOut>>,
) -> bool {
    step == Step::<ListingOrders, Vec<OrderOut>>::Await {
        effect: Effect::ListOrders { org_id, filter: between(range, status) },
        job: ListingOrders,
    }
}

pub open spec fn list_org_orders_asks(
    auth: AuthUser,
    org_id: String,
    q: AdminOrdersQuery,
    now_ms: i64,
    step: Step<ListingOrders, Vec<OrderOut>>,
) -> bool {
    if auth.org_id@ != org_id@ {
        flow::not_own_org(step)
    } else {
        exists|range: Result<(i64, i64), AppError>| #[trigger]
            range_asked(q, now_ms, range) && match range {
                Ok(range) => orders_between(org_id, q.status, range, step),
                Err(e) => step == Step::<ListingOrders, Vec<OrderOut>>::Done(Err(e)),
            }
    }
}

/// The orders of an organisation, for its admins, where it is the given millisecond.
pub fn list_org_orders_at(auth: &AuthUser, org_id: String, q: AdminOrdersQuery, now_ms: i64) -> (step:
    Step<ListingOrders, Vec<OrderOut>>)
    requires
        clock::in_calendar(now_ms),
    ensures
        list_org_orders_asks(*auth, org_id, q, now_ms, step),
        flow::ready(step),
{
    match ensure_own_org(auth, org_id.as_str()) {
        Ok(()) => {},
        Err(e) => return Step::Done(Err(e)),
    }
    let range = resolve_range_at(&q, now_ms);
    assert(range_asked(q, now_ms, range));
    match range {
        Ok((from, to)) => Step::Await {
            effect: Effect::ListOrders {
                org_id,
                filter: OrderFilter {
                    table_id: None,
                    pending_only: false,
                    from,
                    to: Some(to),
                    status: q.status,
                },
            },
            job: ListingOrders,
        },
        Err(e) => Step::Done(Err(e)),
    }
}

/// The orders of an organisation, for its admins.
pub fn list_org_orders(auth: &AuthUser, org_id: String, q: AdminOrdersQuery) -> (step: Step<
    ListingOrders,
    Vec<OrderOut>,
>)
    ensures
        exists|now_ms: i64|
            clock::in_calendar(now_ms) && #[trigger] list_org_orders_asks(
                *auth,
                org_id,
                q,
                now_ms,
                step,
            ),
        flow::ready(step),
{
    list_org_orders_at(auth, org_id, q, clock::utc_now_ms())
}

} // verus!

//! What the store keeps, and what the effects mean to it. Nothing here runs: it
//! is what the laws of the service are stated over.

use vstd::prelude::*;

use crate::error::{AppError, StoreFailure};
use crate::flow::{Effect, Job, OrderFilter, Reply, Step, Totals};
use crate::json;
use crate::records::{
    MenuRow, MenuRowView, OrderItemRow, OrderItemRowView, OrderItemView, OrderOut, OrderRowView,
    OrderView, OrgView, Price, TableOut, TableView, UserRowView, UserView,
};
use crate::text;

verus! {

pub struct OrgRecord {
    pub org: OrgView,
    pub created_at: i64,
}

pub struct TableRecord {
    pub org_id: Seq<char>,
    pub table: TableView,
    pub created_at: i64,
}

/// The contents of the store: each kind of record by its id; and how money is
/// counted there, whatever way that is.
#[verifier::ext_equal]
pub struct Db {
    pub orgs: Map<Seq<char>, OrgRecord>,
    pub users: Map<Seq<char>, UserRowView>,
    pub tables: Map<Seq<char>, TableRecord>,
    pub menu: Map<Seq<char>, MenuRowView>,
    pub orders: Map<Seq<char>, OrderRowView>,
    pub order_items: Map<Seq<char>, OrderItemRowView>,
    /// What prices times quantities, and the tax on them, come to.
    pub tally: spec_fn(Seq<(Price, i64)>) -> Totals,
}

impl Db {
    /// There is an admin with this address.
    pub open spec fn has_email(self, email: Seq<char>) -> bool {
        exists|id: Seq<char>| #[trigger] self.users.contains_key(id) && self.users[id].email == email
    }

    /// The table is one of the organisation's.
    pub open spec fn has_table(self, org_id: Seq<char>, table_id: Seq<char>) -> bool {
        self.tables.contains_key(table_id) && self.tables[table_id].org_id == org_id
    }

    /// The item is on the menu of the organisation.
    pub open spec fn has_item(self, org_id: Seq<char>, item_id: Seq<char>) -> bool {
        self.menu.contains_key(item_id) && self.menu[item_id].org_id == org_id
    }

    /// The order is one of the organisation's.
    pub open spec fn has_order(self, org_id: Seq<char>, order_id: Seq<char>) -> bool {
        self.orders.contains_key(order_id) && self.orders[order_id].org_id == org_id
    }

    /// The line belongs to the order.
    pub open spec fn has_line(self, order_id: Seq<char>, item_id: Seq<char>) -> bool {
        self.order_items.contains_key(item_id) && self.order_items[item_id].order_id == order_id
    }

    /// The price of an item on the menu of the organisation.
    pub open spec fn price(self, org_id: Seq<char>, item_id: Option<Seq<char>>) -> Option<Price> {
        match item_id {
            Some(id) => if self.has_item(org_id, id) {
                Some(self.menu[id].fields.price)
            } else {
                None
            },
            None => None,
        }
    }
}

/// `ids` lists everything that `wanted` holds of, each once.
pub open spec fn lists(ids: Seq<Seq<char>>, wanted: spec_fn(Seq<char>) -> bool) -> bool {
    &&& ids.no_duplicates()
    &&& forall|id: Seq<char>| #[trigger] ids.contains(id) <==> wanted(id)
}

/// A line of an order, as an answer shows it.
pub open spec fn line_view(row: OrderItemRowView) -> OrderItemView {
    OrderItemView { id: row.id, name: row.name, price: row.price, qty: row.qty, note: row.note }
}

/// `ids` lists the lines of the order in the sequence in which the answer shows them.
pub open spec fn shows_lines(
    db: Db,
    order_id: Seq<char>,
    ids: Seq<Seq<char>>,
    shown: Seq<OrderItemView>,
) -> bool {
    &&& lists(ids, |id: Seq<char>| db.has_line(order_id, id))
    &&& shown.len() == ids.len()
    &&& forall|i: int|
        0 <= i < ids.len() ==> #[trigger] shown[i] == line_view(db.order_items[ids[i]])
}

/// The answer shows the order as it is kept, with all its lines, in whatever sequence.
pub open spec fn shows_order(db: Db, order_id: Seq<char>, shown: OrderView) -> bool {
    let row = db.orders[order_id];
    &&& shown.id == row.id
    &&& shown.table_id == row.table_id
    &&& shown.table_name == row.table_name
    &&& shown.status == row.status
    &&& shown.subtotal == row.subtotal
    &&& shown.tax == row.tax
    &&& shown.total == row.total
    &&& shown.created_at == row.created_at
    &&& shown.updated_at == row.updated_at
    &&& exists|ids: Seq<Seq<char>>| #[trigger] shows_lines(db, order_id, ids, shown.items)
}

/// The order is one of those that the filter lets through.
pub open spec fn passes(row: OrderRowView, filter: OrderFilter) -> bool {
    &&& filter.table_id matches Some(table_id) ==> row.table_id == table_id@
    &&& filter.pending_only ==> row.status != "served"@
    &&& row.created_at >= filter.from
    &&& filter.to matches Some(to) ==> row.created_at <= to
    &&& filter.status matches Some(status) ==> row.status == status@
}

/// `ids` lists the orders that were asked for, the latest first, in the sequence
/// in which the answer shows them.
pub open spec fn shows_orders(
    db: Db,
    org_id: Seq<char>,
    filter: OrderFilter,
    ids: Seq<Seq<char>>,
    shown: Seq<OrderOut>,
) -> bool {
    &&& lists(ids, |id: Seq<char>| db.has_order(org_id, id) && passes(db.orders[id], filter))
    &&& shown.len() == ids.len()
    &&& forall|i: int| 0 <= i < ids.len() ==> shows_order(db, ids[i], #[trigger] shown[i]@)
    &&& forall|i: int, j: int|
        0 <= i < j < ids.len() ==> (#[trigger] db.orders[ids[i]]).created_at >= (
        #[trigger] db.orders[ids[j]]).created_at
}

/// `ids` lists the tables of the organisation, the oldest first, in the sequence
/// in which the answer shows them.
pub open spec fn shows_tables(
    db: Db,
    org_id: Seq<char>,
    ids: Seq<Seq<char>>,
    shown: Seq<TableOut>,
) -> bool {
    &&& lists(ids, |id: Seq<char>| db.has_table(org_id, id))
    &&& shown.len() == ids.len()
    &&& forall|i: int| 0 <= i < ids.len() ==> (#[trigger] shown[i])@ == db.tables[ids[i]].table
    &&& forall|i: int, j: int|
        0 <= i < j < ids.len() ==> (#[trigger] db.tables[ids[i]]).created_at <= (
        #[trigger] db.tables[ids[j]]).created_at
}

/// `ids` lists the menu of the organisation in its order, which is the sequence
/// in which the answer shows it.
pub open spec fn shows_menu(
    db: Db,
    org_id: Seq<char>,
    ids: Seq<Seq<char>>,
    shown: Seq<MenuRow>,
) -> bool {
    &&& lists(ids, |id: Seq<char>| db.has_item(org_id, id))
    &&& shown.len() == ids.len()
    &&& forall|i: int| 0 <= i < ids.len() ==> (#[trigger] shown[i])@ == db.menu[ids[i]]
    &&& forall|i: int, j: int|
        0 <= i < j < ids.len() ==> (#[trigger] db.menu[ids[i]]).sort_order <= (
        #[trigger] db.menu[ids[j]]).sort_order
}

/// The menus without that of the organisation.
pub open spec fn other_menus(menu: Map<Seq<char>, MenuRowView>, org_id: Seq<char>) -> Map<
    Seq<char>,
    MenuRowView,
> {
    menu.restrict(menu.dom().filter(|id: Seq<char>| menu[id].org_id != org_id))
}

/// The rows have ids of their own that none of the items on the menus has.
pub open spec fn fresh_rows(menu: Map<Seq<char>, MenuRowView>, rows: Seq<MenuRow>) -> bool {
    &&& forall|i: int| 0 <= i < rows.len() ==> !menu.contains_key(#[trigger] rows[i].id@)
    &&& forall|i: int, j: int|
        0 <= i < j < rows.len() ==> (#[trigger] rows[i]).id@ != (#[trigger] rows[j]).id@
}

/// The menus with the rows added.
pub open spec fn with_rows(menu: Map<Seq<char>, MenuRowView>, rows: Seq<MenuRow>) -> Map<
    Seq<char>,
    MenuRowView,
>
    decreases rows.len(),
{
    if rows.len() == 0 {
        menu
    } else {
        with_rows(menu, rows.drop_last()).insert(rows.last().id@, rows.last()@)
    }
}

/// The lines have ids of their own that none of the lines kept has.
pub open spec fn fresh_lines(
    lines: Map<Seq<char>, OrderItemRowView>,
    added: Seq<OrderItemRow>,
) -> bool {
    &&& forall|i: int| 0 <= i < added.len() ==> !lines.contains_key(#[trigger] added[i].id@)
    &&& forall|i: int, j: int|
        0 <= i < j < added.len() ==> (#[trigger] added[i]).id@ != (#[trigger] added[j]).id@
}

/// The lines with those of a new order added.
pub open spec fn with_lines(
    lines: Map<Seq<char>, OrderItemRowView>,
    added: Seq<OrderItemRow>,
) -> Map<Seq<char>, OrderItemRowView>
    decreases added.len(),
{
    if added.len() == 0 {
        lines
    } else {
        with_lines(lines, added.drop_last()).insert(added.last().id@, added.last()@)
    }
}

/// No record fits what is looked for.
pub open spec fn finds_nothing(db: Db, effect: Effect) -> bool {
    match effect {
        Effect::FindOrg { org_id } => !db.orgs.contains_key(org_id@),
        Effect::FindUserByEmail { email } => !db.has_email(email@),
        Effect::FindUser { user_id } => !db.users.contains_key(user_id@),
        Effect::FindOrgTable { org_id, table_id } => !db.has_table(org_id@, table_id@),
        Effect::FindTable { table_id } => !db.tables.contains_key(table_id@),
        Effect::FindMenuItem { item_id } => !db.menu.contains_key(item_id@),
        Effect::FindOrder { org_id, order_id } => !db.has_order(org_id@, order_id@),
        _ => false,
    }
}

/// The reply is right about a store with these contents. A price that could not be
/// looked up counts as not found.
pub open spec fn answers(db: Db, effect: Effect, reply: Reply) -> bool {
    match effect {
        Effect::CountOrgs => reply matches Reply::Count(n) && db.orgs.dom().finite() && n
            == db.orgs.dom().len(),
        Effect::FindOrg { org_id } => {
            &&& reply matches Reply::Org(org)
            &&& db.orgs.contains_key(org_id@)
            &&& org@ == db.orgs[org_id@].org
        },
        Effect::FindUserByEmail { email } => {
            &&& reply matches Reply::UserRow(user)
            &&& db.users.contains_key(user.id@)
            &&& user@ == db.users[user.id@]
            &&& user.email@ == email@
        },
        Effect::FindUser { user_id } => {
            &&& reply matches Reply::User(user)
            &&& db.users.contains_key(user_id@)
            &&& user@ == (UserView {
                id: db.users[user_id@].id,
                name: db.users[user_id@].name,
                email: db.users[user_id@].email,
            })
        },
        Effect::ListTables { org_id } => {
            &&& reply matches Reply::Tables(tables)
            &&& exists|ids: Seq<Seq<char>>| #[trigger] shows_tables(db, org_id@, ids, tables@)
        },
        Effect::FindOrgTable { org_id, table_id } => {
            &&& reply matches Reply::Table(table)
            &&& db.has_table(org_id@, table_id@)
            &&& table@ == db.tables[table_id@].table
        },
        Effect::FindTable { table_id } => {
            &&& reply matches Reply::Table(table)
            &&& db.tables.contains_key(table_id@)
            &&& table@ == db.tables[table_id@].table
        },
        Effect::ListMenu { org_id } => {
            &&& reply matches Reply::Menu(rows)
            &&& exists|ids: Seq<Seq<char>>| #[trigger] shows_menu(db, org_id@, ids, rows@)
        },
        Effect::NextSortOrder { org_id } => {
            &&& reply matches Reply::SortOrder(next)
            &&& forall|id: Seq<char>| #[trigger]
                db.has_item(org_id@, id) ==> db.menu[id].sort_order < next
            &&& next != 0 ==> exists|id: Seq<char>| #[trigger]
                db.has_item(org_id@, id) && db.menu[id].sort_order + 1 == next
        },
        Effect::FindMenuItem { item_id } => {
            &&& reply matches Reply::MenuItem(row)
            &&& db.menu.contains_key(item_id@)
            &&& row@ == db.menu[item_id@]
        },
        Effect::FindPrices { org_id, item_ids } => {
            &&& reply matches Reply::Prices(prices)
            &&& prices@.len() == item_ids@.len()
            &&& forall|i: int|
                0 <= i < prices@.len() ==> (#[trigger] prices@[i] is None || prices@[i] == db.price(
                    org_id@,
                    json::opt_text(item_ids@[i]),
                ))
        },
        Effect::TotalUp { lines } => reply == Reply::Totals((db.tally)(lines@)),
        Effect::ListOrders { org_id, filter } => {
            &&& reply matches Reply::Orders(orders)
            &&& exists|ids: Seq<Seq<char>>| #[trigger]
                shows_orders(db, org_id@, filter, ids, orders@)
        },
        Effect::FindOrder { org_id, order_id } => {
            &&& reply matches Reply::Order(order)
            &&& db.has_order(org_id@, order_id@)
            &&& shows_order(db, order_id@, order@)
        },
        _ => reply is Changed,
    }
}

/// The store can make the change: ids are fresh, an address has one admin, and
/// what is referred to is there.
pub open spec fn permits(db: Db, effect: Effect) -> bool {
    match effect {
        Effect::InsertOrg { org, .. } => !db.orgs.contains_key(org.id@),
        Effect::InsertUser { user } => {
            &&& !db.users.contains_key(user.id@)
            &&& !db.has_email(user.email@)
            &&& db.orgs.contains_key(user.org_id@)
        },
        Effect::InsertTable { org_id, table, .. } => {
            &&& !db.tables.contains_key(table.id@)
            &&& db.orgs.contains_key(org_id@)
        },
        Effect::ReplaceMenu { org_id, rows } => {
            &&& fresh_rows(other_menus(db.menu, org_id@), rows@)
            &&& rows@.len() > 0 ==> db.orgs.contains_key(org_id@)
        },
        Effect::InsertMenuItem { row } => {
            &&& !db.menu.contains_key(row.id@)
            &&& db.orgs.contains_key(row.org_id@)
        },
        Effect::InsertOrder { order } => {
            &&& !db.orders.contains_key(order.id@)
            &&& db.orgs.contains_key(order.org_id@)
        },
        Effect::InsertOrderItem { item } => {
            &&& !db.order_items.contains_key(item.id@)
            &&& db.orders.contains_key(item.order_id@)
        },
        Effect::PlaceOrder { order, items } => {
            &&& !db.orders.contains_key(order.id@)
            &&& db.orgs.contains_key(order.org_id@)
            &&& fresh_lines(db.order_items, items@)
        },
        _ => true,
    }
}

/// The contents after a change was made. What only looks leaves them as they were.
pub open spec fn changed(db: Db, effect: Effect) -> Db {
    match effect {
        Effect::InsertOrg { org, created_at } => Db {
            orgs: db.orgs.insert(org.id@, OrgRecord { org: org@, created_at }),
            ..db
        },
        Effect::UpdateOrg { org } => if db.orgs.contains_key(org.id@) {
            Db {
                orgs: db.orgs.insert(
                    org.id@,
                    OrgRecord { org: org@, created_at: db.orgs[org.id@].created_at },
                ),
                ..db
            }
        } else {
            db
        },
        Effect::InsertUser { user } => Db { users: db.users.insert(user.id@, user@), ..db },
        Effect::InsertTable { org_id, table, created_at } => Db {
            tables: db.tables.insert(
                table.id@,
                TableRecord { org_id: org_id@, table: table@, created_at },
            ),
            ..db
        },
        Effect::UpdateTable { table_id, name, seats } => if db.tables.contains_key(table_id@) {
            let record = db.tables[table_id@];
            Db {
                tables: db.tables.insert(
                    table_id@,
                    TableRecord {
                        table: TableView { name: name@, seats, ..record.table },
                        ..record
                    },
                ),
                ..db
            }
        } else {
            db
        },
        Effect::DeleteTable { org_id, table_id } => if db.has_table(org_id@, table_id@) {
            Db { tables: db.tables.remove(table_id@), ..db }
        } else {
            db
        },
        Effect::ReplaceMenu { org_id, rows } => Db {
            menu: with_rows(other_menus(db.menu, org_id@), rows@),
            ..db
        },
        Effect::InsertMenuItem { row } => Db { menu: db.menu.insert(row.id@, row@), ..db },
        Effect::UpdateMenuItem { org_id, item_id, fields } => if db.has_item(org_id@, item_id@) {
            Db {
                menu: db.menu.insert(
                    item_id@,
                    MenuRowView { fields: fields@, ..db.menu[item_id@] },
                ),
                ..db
            }
        } else {
            db
        },
        Effect::DeleteMenuItem { org_id, item_id } => if db.has_item(org_id@, item_id@) {
            Db { menu: db.menu.remove(item_id@), ..db }
        } else {
            db
        },
        Effect::InsertOrder { order } => Db { orders: db.orders.insert(order.id@, order@), ..db },
        Effect::InsertOrderItem { item } => Db {
            order_items: db.order_items.insert(item.id@, item@),
            ..db
        },
        Effect::PlaceOrder { order, items } => Db {
            orders: db.orders.insert(order.id@, order@),
            order_items: with_lines(db.order_items, items@),
            ..db
        },
        Effect::SetOrderStatus { org_id, order_id, status, at } => if db.has_order(
            org_id@,
            order_id@,
        ) {
            Db {
                orders: db.orders.insert(
                    order_id@,
                    OrderRowView { status: status@, updated_at: at, ..db.orders[order_id@] },
                ),
                ..db
            }
        } else {
            db
        },
        _ => db,
    }
}

/// A store with the contents `before` can answer the effect with the reply, and
/// then has the contents `after`. It can fail at any time, and then nothing
/// changes; it says that there are no rows only where it finds none.
pub open spec fn served(before: Db, effect: Effect, reply: Reply, after: Db) -> bool {
    match reply {
        Reply::Failed(failure) => {
            &&& after == before
            &&& !(effect is FindPrices)
            &&& !(effect is TotalUp)
            &&& failure is NoRows ==> finds_nothing(before, effect)
        },
        _ => {
            &&& answers(before, effect, reply)
            &&& permits(before, effect)
            &&& after == changed(before, effect)
        },
    }
}

/// A request that stands at `step` can end with `out` in that many turns, on a
/// store that has the contents `before` and in the end the contents `after`.
pub open spec fn run<J: Job>(
    step: Step<J, J::Out>,
    before: Db,
    out: Result<J::Out, AppError>,
    after: Db,
    turns: nat,
) -> bool
    decreases turns,
{
    match step {
        Step::Done(result) => turns == 0 && result == out && before == after,
        Step::Await { effect, job } => turns > 0 && exists|
            reply: Reply,
            mid: Db,
            next: Step<J, J::Out>,
        |
            #![trigger served(before, effect, reply, mid), job.turn(reply, next)]
            served(before, effect, reply, mid) && job.turn(reply, next) && run(
                next,
                mid,
                out,
                after,
                (turns - 1) as nat,
            ),
    }
}

/// These are the prices of the items on the menu of the organisation.
pub open spec fn finds_prices(
    db: Db,
    org_id: Seq<char>,
    item_ids: Seq<Option<String>>,
    prices: Seq<Option<Price>>,
) -> bool {
    forall|i: int|
        0 <= i < prices.len() ==> #[trigger] prices[i] == db.price(
            org_id,
            json::opt_text(item_ids[i]),
        )
}

/// The store says that a value is there twice that may be there once.
pub open spec fn says_not_unique(failure: StoreFailure) -> bool {
    failure matches StoreFailure::Other(words) && text::occurs_in("UNIQUE"@, words@)
}

/// The store answers, and fails only for want of what it is asked for, or where
/// it cannot make the change. It finds all prices that there are. Of an admin whose
/// address is taken it says that the address is not unique.
pub open spec fn served_steadily(before: Db, effect: Effect, reply: Reply, after: Db) -> bool {
    &&& served(before, effect, reply, after)
    &&& effect matches Effect::FindPrices { org_id, item_ids } ==> finds_prices(
        before,
        org_id@,
        item_ids@,
        reply->Prices_0@,
    )
    &&& reply matches Reply::Failed(failure) ==> {
        &&& finds_nothing(before, effect) && failure is NoRows || !permits(before, effect)
        &&& effect matches Effect::InsertUser { user } ==> before.has_email(user.email@)
            ==> says_not_unique(failure)
    }
}

/// As `run`, on a store that serves steadily.
pub open spec fn steady_run<J: Job>(
    step: Step<J, J::Out>,
    before: Db,
    out: Result<J::Out, AppError>,
    after: Db,
    turns: nat,
) -> bool
    decreases turns,
{
    match step {
        Step::Done(result) => turns == 0 && result == out && before == after,
        Step::Await { effect, job } => turns > 0 && exists|
            reply: Reply,
            mid: Db,
            next: Step<J, J::Out>,
        |
            #![trigger served_steadily(before, effect, reply, mid), job.turn(reply, next)]
            served_steadily(before, effect, reply, mid) && job.turn(reply, next) && steady_run(
                next,
                mid,
                out,
                after,
                (turns - 1) as nat,
            ),
    }
}

} // verus!

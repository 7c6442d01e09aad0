//! How a request is worked off: step by step, with what only the program around
//! the library can do (the store, and arithmetic on money) asked for in between.

use vstd::prelude::*;

use crate::error::{AppError, Status, StoreFailure};
use crate::records::{
    MenuFields, MenuRow, OrderItemRow, OrderOut, OrderRow, OrgOut, Price, TableOut, UserOut, UserRow,
};

verus! {

/// Which orders of an organisation are asked for. They come with the latest first.
#[derive(Debug)]
pub struct OrderFilter {
    /// Only those of this table.
    pub table_id: Option<String>,
    /// Only those that were not served yet.
    pub pending_only: bool,
    /// Only those created at this millisecond or later.
    pub from: i64,
    /// Only those created at this millisecond or earlier.
    pub to: Option<i64>,
    /// Only those with this status.
    pub status: Option<String>,
}

/// What a request asks for on its way. All but `TotalUp` go to the store; each
/// is done as a whole or not at all.
#[derive(Debug)]
pub enum Effect {
    /// How many organisations there are.
    CountOrgs,
    InsertOrg { org: OrgOut, created_at: i64 },
    FindOrg { org_id: String },
    /// Replaces what is kept of the organisation with the id of `org`.
    UpdateOrg { org: OrgOut },
    InsertUser { user: UserRow },
    FindUserByEmail { email: String },
    FindUser { user_id: String },
    InsertTable { org_id: String, table: TableOut, created_at: i64 },
    /// The tables of an organisation, the oldest first.
    ListTables { org_id: String },
    /// A table, provided that it is one of the organisation's.
    FindOrgTable { org_id: String, table_id: String },
    FindTable { table_id: String },
    UpdateTable { table_id: String, name: String, seats: i64 },
    DeleteTable { org_id: String, table_id: String },
    /// The menu of an organisation, in its order.
    ListMenu { org_id: String },
    /// Takes the whole menu of an organisation away and puts the rows in its place.
    ReplaceMenu { org_id: String, rows: Vec<MenuRow> },
    /// The place behind the last item of the menu of an organisation.
    NextSortOrder { org_id: String },
    InsertMenuItem { row: MenuRow },
    UpdateMenuItem { org_id: String, item_id: String, fields: MenuFields },
    FindMenuItem { item_id: String },
    DeleteMenuItem { org_id: String, item_id: String },
    /// For each id, the price of that item on the menu of the organisation.
    FindPrices { org_id: String, item_ids: Vec<Option<String>> },
    /// Adds up prices times quantities, and the tax on them.
    TotalUp { lines: Vec<(Price, i64)> },
    InsertOrder { order: OrderRow },
    InsertOrderItem { item: OrderItemRow },
    /// Adds an order and its lines.
    PlaceOrder { order: OrderRow, items: Vec<OrderItemRow> },
    ListOrders { org_id: String, filter: OrderFilter },
    /// An order, provided that it is one of the organisation's.
    FindOrder { org_id: String, order_id: String },
    SetOrderStatus { org_id: String, order_id: String, status: String, at: i64 },
}

/// What an order comes to.
#[derive(Clone, Copy, Debug, PartialEq, Eq, Structural)]
pub struct Totals {
    pub subtotal: Price,
    pub tax: Price,
    pub total: Price,
}

/// What came back for an effect.
#[derive(Debug)]
pub enum Reply {
    Failed(StoreFailure),
    /// The change was made.
    Changed,
    Count(i64),
    Org(OrgOut),
    User(UserOut),
    UserRow(UserRow),
    Table(TableOut),
    Tables(Vec<TableOut>),
    MenuItem(MenuRow),
    Menu(Vec<MenuRow>),
    SortOrder(i64),
    /// As many as there were ids; nothing where there was no such item, or no id.
    Prices(Vec<Option<Price>>),
    Totals(Totals),
    Order(OrderOut),
    Orders(Vec<OrderOut>),
}

/// The reply is of the kind that the effect is answered with.
pub open spec fn fits(effect: Effect, reply: Reply) -> bool {
    match effect {
        Effect::FindPrices { item_ids, .. } => reply matches Reply::Prices(prices)
            && prices@.len() == item_ids@.len(),
        Effect::TotalUp { .. } => reply is Totals,
        _ => reply is Failed || match effect {
            Effect::CountOrgs => reply is Count,
            Effect::FindOrg { .. } => reply is Org,
            Effect::FindUserByEmail { .. } => reply is UserRow,
            Effect::FindUser { .. } => reply is User,
            Effect::ListTables { .. } => reply is Tables,
            Effect::FindOrgTable { .. } => reply is Table,
            Effect::FindTable { .. } => reply is Table,
            Effect::ListMenu { .. } => reply is Menu,
            Effect::NextSortOrder { .. } => reply is SortOrder,
            Effect::FindMenuItem { .. } => reply is MenuItem,
            Effect::ListOrders { .. } => reply is Orders,
            Effect::FindOrder { .. } => reply is Order,
            _ => reply is Changed,
        },
    }
}

/// Where a request stands: something is asked for, and there is a job to take up
/// when the reply is there; or it is done.
#[derive(Debug)]
pub enum Step<J, T> {
    Await { effect: Effect, job: J },
    Done(Result<T, AppError>),
}

/// The statuses that an order can have.
pub open spec fn valid_status(status: Seq<char>) -> bool {
    ||| status == "new"@
    ||| status == "preparing"@
    ||| status == "ready"@
    ||| status == "served"@
}

/// The lines are of this order, and of each at least one piece is ordered.
pub open spec fn lines_of(order_id: Seq<char>, items: Seq<OrderItemRow>) -> bool {
    forall|i: int|
        0 <= i < items.len() ==> (#[trigger] items[i]).order_id@ == order_id && items[i].qty > 0
}

/// The rows are those of a menu of the organisation, in sequence.
pub open spec fn menu_of(org_id: Seq<char>, rows: Seq<MenuRow>) -> bool {
    forall|i: int|
        0 <= i < rows.len() ==> (#[trigger] rows[i]).org_id@ == org_id && rows[i].sort_order == i
}

/// What every request keeps to: orders have one of the four statuses, each line
/// orders at least one piece, an order that is placed has a line, and a menu that
/// is replaced is replaced by rows of the same organisation.
pub open spec fn proper(effect: Effect) -> bool {
    match effect {
        Effect::InsertOrder { order } => valid_status(order.status@),
        Effect::InsertOrderItem { item } => item.qty > 0,
        Effect::PlaceOrder { order, items } => {
            &&& valid_status(order.status@)
            &&& items@.len() > 0
            &&& lines_of(order.id@, items@)
        },
        Effect::SetOrderStatus { status, .. } => valid_status(status@),
        Effect::ReplaceMenu { org_id, rows } => menu_of(org_id@, rows@),
        _ => true,
    }
}

/// What is left to do of a request that waits for a reply.
pub trait Job: Sized {
    type Out;

    /// The job can be taken up with this reply.
    spec fn awaits(&self, reply: Reply) -> bool;

    /// How many replies the request can still take.
    spec fn turns_left(&self) -> nat;

    /// With this reply, the request goes on with this step.
    spec fn turn(&self, reply: Reply, step: Step<Self, Self::Out>) -> bool;

    fn resume(self, reply: Reply) -> (step: Step<Self, Self::Out>)
        requires
            self.awaits(reply),
        ensures
            self.turn(reply, step),
    ;

    /// A step that a job goes on with is ready (see `ready`), and nearer to the end.
    proof fn goes_on_ready(&self, reply: Reply, step: Step<Self, Self::Out>)
        requires
            self.awaits(reply),
            self.turn(reply, step),
        ensures
            self.turns_left() > 0,
            step matches Step::Await { effect, job } ==> {
                &&& proper(effect)
                &&& forall|next: Reply| #[trigger] fits(effect, next) ==> job.awaits(next)
                &&& job.turns_left() < self.turns_left()
            },
    ;
}

/// What the step asks for is proper, and whatever fits it, the job of the step
/// can be taken up with it.
pub open spec fn ready<J: Job>(step: Step<J, J::Out>) -> bool {
    step matches Step::Await { effect, job } ==> proper(effect) && forall|next: Reply| #[trigger]
        fits(effect, next) ==> job.awaits(next)
}

/// The request is done, and was refused with this status and this message.
pub open spec fn refused<J, T>(step: Step<J, T>, status: Status, message: Seq<char>) -> bool {
    step matches Step::Done(Err(e)) && e.says(status, message)
}

/// The request is done, and failed as the store's failure says.
pub open spec fn fails_with<J, T>(step: Step<J, T>, failure: StoreFailure) -> bool {
    step matches Step::Done(Err(e)) && e.reports(failure)
}

/// The request was refused because the admin belongs to another organisation.
pub open spec fn not_own_org<J, T>(step: Step<J, T>) -> bool {
    refused(step, Status::Forbidden, "you do not have access to this restaurant"@)
}

/// A change was sent to the store, and nothing is left to do once it was made.
#[derive(Debug)]
pub struct Changing;

impl Job for Changing {
    type Out = ();

    open spec fn awaits(&self, reply: Reply) -> bool {
        reply is Failed || reply is Changed
    }

    open spec fn turns_left(&self) -> nat {
        1
    }

    open spec fn turn(&self, reply: Reply, step: Step<Changing, ()>) -> bool {
        match reply {
            Reply::Failed(failure) => fails_with(step, failure),
            _ => step == Step::<Changing, ()>::Done(Ok(())),
        }
    }

    fn resume(self, reply: Reply) -> (step: Step<Changing, ()>) {
        match reply {
            Reply::Failed(failure) => Step::Done(Err(AppError::from_store(&failure))),
            _ => Step::Done(Ok(())),
        }
    }

    proof fn goes_on_ready(&self, reply: Reply, step: Step<Changing, ()>) {
    }
}

} // verus!

//! Admins change nothing outside their own organisation.

use vstd::prelude::*;

use crate::auth::AuthUser;
use crate::error::{AppError, Status};
use crate::flow;
use crate::feed;
use crate::feed::{BroadcastMsg, ClientAction, FeedAction, FeedEvent, OrderSync};
use crate::flow::{Changing, Effect, Job, OrderFilter, Reply, Step};
use crate::menu;
use crate::menu::MenuItemJob;
use crate::orders;
use crate::orders::{ListingOrders, OrderEvent, OrderJob};
use crate::orgs;
use crate::orgs::OrgJob;
use crate::records::{
    AdminOrdersQuery, CreateTableBody, MenuItemIn, MenuItemOut, OrderOut, OrgOut, TableOut,
    UpdateOrgBody, UpdateStatusBody, UpdateTableBody,
};
use crate::soundness;
use crate::store;
use crate::store::Db;
use crate::tables;
use crate::tables::{ListingTables, TableJob};

verus! {

/// The two stores differ at most in the profile, the tables, the menu and the
/// orders of the one organisation.
pub open spec fn same_elsewhere(a: Db, b: Db, org_id: Seq<char>) -> bool {
    &&& forall|id: Seq<char>|
        #![trigger a.orgs.contains_key(id)]
        #![trigger b.orgs.contains_key(id)]
        id != org_id ==> a.orgs.contains_key(id) == b.orgs.contains_key(id) && (
        a.orgs.contains_key(id) ==> a.orgs[id] == b.orgs[id])
    &&& a.users == b.users
    &&& forall|id: Seq<char>|
        #![trigger a.tables.contains_key(id)]
        #![trigger b.tables.contains_key(id)]
        a.tables.contains_key(id) && a.tables[id].org_id != org_id || b.tables.contains_key(id)
            && b.tables[id].org_id != org_id ==> a.tables.contains_key(id)
            && b.tables.contains_key(id) && a.tables[id] == b.tables[id]
    &&& forall|id: Seq<char>|
        #![trigger a.menu.contains_key(id)]
        #![trigger b.menu.contains_key(id)]
        a.menu.contains_key(id) && a.menu[id].org_id != org_id || b.menu.contains_key(id)
            && b.menu[id].org_id != org_id ==> a.menu.contains_key(id) && b.menu.contains_key(id)
            && a.menu[id] == b.menu[id]
    &&& forall|id: Seq<char>|
        #![trigger a.orders.contains_key(id)]
        #![trigger b.orders.contains_key(id)]
        a.orders.contains_key(id) && a.orders[id].org_id != org_id || b.orders.contains_key(id)
            && b.orders[id].org_id != org_id ==> a.orders.contains_key(id)
            && b.orders.contains_key(id) && a.orders[id] == b.orders[id]
    &&& a.order_items == b.order_items
    &&& a.tally == b.tally
}

/// On this store, the effect is about the one organisation.
pub open spec fn about(db: Db, effect: Effect, org_id: Seq<char>) -> bool {
    match effect {
        Effect::UpdateOrg { org } => org.id@ == org_id,
        Effect::InsertTable { org_id: org, .. } => org@ == org_id,
        Effect::UpdateTable { table_id, .. } => db.has_table(org_id, table_id@),
        Effect::DeleteTable { org_id: org, .. } => org@ == org_id,
        Effect::ReplaceMenu { org_id: org, rows } => org@ == org_id && flow::menu_of(org_id, rows@),
        Effect::InsertMenuItem { row } => row.org_id@ == org_id,
        Effect::UpdateMenuItem { org_id: org, .. } => org@ == org_id,
        Effect::DeleteMenuItem { org_id: org, .. } => org@ == org_id,
        Effect::SetOrderStatus { org_id: org, .. } => org@ == org_id,
        Effect::InsertOrg { .. } => false,
        Effect::InsertUser { .. } => false,
        Effect::InsertOrder { .. } => false,
        Effect::InsertOrderItem { .. } => false,
        Effect::PlaceOrder { .. } => false,
        _ => true,
    }
}

/// What is about one organisation changes nothing elsewhere.
proof fn lemma_about_stays(before: Db, effect: Effect, reply: Reply, after: Db, org_id: Seq<char>)
    requires
        about(before, effect, org_id),
        store::served(before, effect, reply, after),
    ensures
        same_elsewhere(before, after, org_id),
{
    if let Effect::ReplaceMenu { org_id: org, rows } = effect {
        if !(reply is Failed) {
            let others = store::other_menus(before.menu, org_id);
            soundness::lemma_with_rows(others, rows@);
            assert forall|id: Seq<char>|
                #![trigger before.menu.contains_key(id)]
                #![trigger after.menu.contains_key(id)]
                before.menu.contains_key(id) && before.menu[id].org_id != org_id
                    || after.menu.contains_key(id) && after.menu[id].org_id != org_id implies before.menu.contains_key(
                id,
            ) && after.menu.contains_key(id) && before.menu[id] == after.menu[id] by {
                if before.menu.contains_key(id) && before.menu[id].org_id != org_id {
                    assert(others.contains_key(id));
                } else {
                    if !others.contains_key(id) {
                        let i = choose|i: int|
                            0 <= i < rows@.len() && (#[trigger] rows@[i]).id@ == id;
                        assert(rows@[i].org_id@ == org_id);
                    }
                }
            }
        }
    }
}

/// The request was refused with 403.
pub open spec fn denied<T>(out: Result<T, AppError>) -> bool {
    out matches Err(e) && e.says(Status::Forbidden, "you do not have access to this restaurant"@)
}

/// A request that was refused at once changes nothing.
pub proof fn law_refusal_changes_nothing<J: Job>(
    step: Step<J, J::Out>,
    status: Status,
    message: Seq<char>,
    before: Db,
    out: Result<J::Out, AppError>,
    after: Db,
    turns: nat,
)
    requires
        flow::refused(step, status, message),
        store::run(step, before, out, after, turns),
    ensures
        out matches Err(e) && e.says(status, message),
        after == before,
{
}

/// What a request of an admin comes to: outside the admin's organisation nothing
/// changes, and a request about another organisation is refused and changes
/// nothing at all.
pub open spec fn stays_home<T>(
    auth: AuthUser,
    org_id: String,
    before: Db,
    out: Result<T, AppError>,
    after: Db,
) -> bool {
    &&& same_elsewhere(before, after, auth.org_id@)
    &&& auth.org_id@ != org_id@ ==> denied(out) && after == before
}

proof fn lemma_one_change_stays_home(
    auth: AuthUser,
    effect: Effect,
    before: Db,
    out: Result<(), AppError>,
    after: Db,
    turns: nat,
)
    requires
        about(before, effect, auth.org_id@),
        store::run(Step::<Changing, ()>::Await { effect, job: Changing }, before, out, after, turns),
    ensures
        same_elsewhere(before, after, auth.org_id@),
{
    let (reply, mid, next) = soundness::lemma_one_turn(effect, Changing, before, out, after, turns);
    lemma_about_stays(before, effect, reply, mid, auth.org_id@);
}

/// Changing an organisation stays within the organisation of the admin.
pub proof fn law_update_org_stays_home(
    auth: AuthUser,
    org_id: String,
    body: UpdateOrgBody,
    step: Step<OrgJob, OrgOut>,
    before: Db,
    out: Result<OrgOut, AppError>,
    after: Db,
    turns: nat,
)
    requires
        orgs::update_org_asks(auth, org_id, body, step),
        store::run(step, before, out, after, turns),
    ensures
        stays_home(auth, org_id, before, out, after),
{
    if let Step::Await { effect, job } = step {
        let (r1, mid1, next1) = soundness::lemma_one_turn(effect, job, before, out, after, turns);
        if let Step::Await { effect: e2, job: j2 } = next1 {
            let (r2, mid2, next2) = soundness::lemma_one_turn(
                e2,
                j2,
                mid1,
                out,
                after,
                (turns - 1) as nat,
            );
            lemma_about_stays(mid1, e2, r2, mid2, auth.org_id@);
            if let Step::Await { effect: e3, job: j3 } = next2 {
                let (r3, mid3, next3) = soundness::lemma_one_turn(
                    e3,
                    j3,
                    mid2,
                    out,
                    after,
                    (turns - 2) as nat,
                );
            }
        }
    }
}

/// Listing tables changes nothing, and shows only those of the admin's organisation.
pub proof fn law_list_tables_stays_home(
    auth: AuthUser,
    org_id: String,
    step: Step<ListingTables, Vec<TableOut>>,
    before: Db,
    out: Result<Vec<TableOut>, AppError>,
    after: Db,
    turns: nat,
)
    requires
        tables::list_tables_asks(auth, org_id, step),
        store::run(step, before, out, after, turns),
    ensures
        stays_home(auth, org_id, before, out, after),
        after == before,
        out matches Ok(shown) ==> exists|ids: Seq<Seq<char>>| #[trigger]
            store::shows_tables(before, auth.org_id@, ids, shown@),
{
    if let Step::Await { effect, job } = step {
        let (reply, mid, next) = soundness::lemma_one_turn(effect, job, before, out, after, turns);
        if let Ok(shown) = out {
            let ids = choose|ids: Seq<Seq<char>>| #[trigger]
                store::shows_tables(before, org_id@, ids, shown@);
            assert(store::shows_tables(before, auth.org_id@, ids, shown@));
        }
    }
}

/// A new table stays within the organisation of the admin.
pub proof fn law_create_table_stays_home(
    auth: AuthUser,
    org_id: String,
    body: CreateTableBody,
    client_origin: Seq<char>,
    id: String,
    now: i64,
    step: Step<TableJob, TableOut>,
    before: Db,
    out: Result<TableOut, AppError>,
    after: Db,
    turns: nat,
)
    requires
        tables::create_table_asks(auth, org_id, body, client_origin, id, now, step),
        store::run(step, before, out, after, turns),
    ensures
        stays_home(auth, org_id, before, out, after),
{
    if let Step::Await { effect, job } = step {
        let (r1, mid1, next1) = soundness::lemma_one_turn(effect, job, before, out, after, turns);
        lemma_about_stays(before, effect, r1, mid1, auth.org_id@);
        if let Step::Await { effect: e2, job: j2 } = next1 {
            let (r2, mid2, next2) = soundness::lemma_one_turn(
                e2,
                j2,
                mid1,
                out,
                after,
                (turns - 1) as nat,
            );
        }
    }
}

/// Changing a table stays within the organisation of the admin.
pub proof fn law_update_table_stays_home(
    auth: AuthUser,
    org_id: String,
    table_id: String,
    body: UpdateTableBody,
    step: Step<TableJob, TableOut>,
    before: Db,
    out: Result<TableOut, AppError>,
    after: Db,
    turns: nat,
)
    requires
        tables::update_table_asks(auth, org_id, table_id, body, step),
        store::run(step, before, out, after, turns),
    ensures
        stays_home(auth, org_id, before, out, after),
{
    if let Step::Await { effect, job } = step {
        let (r1, mid1, next1) = soundness::lemma_one_turn(effect, job, before, out, after, turns);
        if let Step::Await { effect: e2, job: j2 } = next1 {
            let (r2, mid2, next2) = soundness::lemma_one_turn(
                e2,
                j2,
                mid1,
                out,
                after,
                (turns - 1) as nat,
            );
            lemma_about_stays(mid1, e2, r2, mid2, auth.org_id@);
            if let Step::Await { effect: e3, job: j3 } = next2 {
                let (r3, mid3, next3) = soundness::lemma_one_turn(
                    e3,
                    j3,
                    mid2,
                    out,
                    after,
                    (turns - 2) as nat,
                );
            }
        }
    }
}

/// Taking a table away stays within the organisation of the admin.
pub proof fn law_delete_table_stays_home(
    auth: AuthUser,
    org_id: String,
    table_id: String,
    step: Step<Changing, ()>,
    before: Db,
    out: Result<(), AppError>,
    after: Db,
    turns: nat,
)
    requires
        tables::delete_table_asks(auth, org_id, table_id, step),
        store::run(step, before, out, after, turns),
    ensures
        stays_home(auth, org_id, before, out, after),
{
    if let Step::Await { effect, job } = step {
        lemma_one_change_stays_home(auth, effect, before, out, after, turns);
    }
}

/// Replacing a menu stays within the organisation of the admin.
pub proof fn law_save_menu_stays_home(
    auth: AuthUser,
    org_id: String,
    items: Seq<MenuItemIn>,
    fresh: Seq<String>,
    step: Step<Changing, ()>,
    before: Db,
    out: Result<(), AppError>,
    after: Db,
    turns: nat,
)
    requires
        menu::save_menu_asks(auth, org_id, items, fresh, step),
        store::run(step, before, out, after, turns),
    ensures
        stays_home(auth, org_id, before, out, after),
{
    if let Step::Await { effect, job } = step {
        lemma_one_change_stays_home(auth, effect, before, out, after, turns);
    }
}

/// A new item stays within the organisation of the admin.
pub proof fn law_create_menu_item_stays_home(
    auth: AuthUser,
    org_id: String,
    item: MenuItemIn,
    fresh: Seq<char>,
    step: Step<MenuItemJob, MenuItemOut>,
    before: Db,
    out: Result<MenuItemOut, AppError>,
    after: Db,
    turns: nat,
)
    requires
        menu::create_menu_item_asks(auth, org_id, item, fresh, step),
        store::run(step, before, out, after, turns),
    ensures
        stays_home(auth, org_id, before, out, after),
{
    if let Step::Await { effect, job } = step {
        let (r1, mid1, next1) = soundness::lemma_one_turn(effect, job, before, out, after, turns);
        if let Step::Await { effect: e2, job: j2 } = next1 {
            let (r2, mid2, next2) = soundness::lemma_one_turn(
                e2,
                j2,
                mid1,
                out,
                after,
                (turns - 1) as nat,
            );
            lemma_about_stays(mid1, e2, r2, mid2, auth.org_id@);
            if let Step::Await { effect: e3, job: j3 } = next2 {
                let (r3, mid3, next3) = soundness::lemma_one_turn(
                    e3,
                    j3,
                    mid2,
                    out,
                    after,
                    (turns - 2) as nat,
                );
            }
        }
    }
}

/// Changing an item stays within the organisation of the admin.
pub proof fn law_update_menu_item_stays_home(
    auth: AuthUser,
    org_id: String,
    id: String,
    item: MenuItemIn,
    step: Step<MenuItemJob, MenuItemOut>,
    before: Db,
    out: Result<MenuItemOut, AppError>,
    after: Db,
    turns: nat,
)
    requires
        menu::update_menu_item_asks(auth, org_id, id, item, step),
        store::run(step, before, out, after, turns),
    ensures
        stays_home(auth, org_id, before, out, after),
{
    if let Step::Await { effect, job } = step {
        let (r1, mid1, next1) = soundness::lemma_one_turn(effect, job, before, out, after, turns);
        lemma_about_stays(before, effect, r1, mid1, auth.org_id@);
        if let Step::Await { effect: e2, job: j2 } = next1 {
            let (r2, mid2, next2) = soundness::lemma_one_turn(
                e2,
                j2,
                mid1,
                out,
                after,
                (turns - 1) as nat,
            );
        }
    }
}

/// Taking an item off stays within the organisation of the admin.
pub proof fn law_delete_menu_item_stays_home(
    auth: AuthUser,
    org_id: String,
    id: String,
    step: Step<Changing, ()>,
    before: Db,
    out: Result<(), AppError>,
    after: Db,
    turns: nat,
)
    requires
        menu::delete_menu_item_asks(auth, org_id, id, step),
        store::run(step, before, out, after, turns),
    ensures
        stays_home(auth, org_id, before, out, after),
{
    if let Step::Await { effect, job } = step {
        lemma_one_change_stays_home(auth, effect, before, out, after, turns);
    }
}

/// Listing orders changes nothing, and shows only those of the admin's organisation.
pub proof fn law_list_org_orders_stays_home(
    auth: AuthUser,
    org_id: String,
    q: AdminOrdersQuery,
    now_ms: i64,
    step: Step<ListingOrders, Vec<OrderOut>>,
    before: Db,
    out: Result<Vec<OrderOut>, AppError>,
    after: Db,
    turns: nat,
)
    requires
        orders::list_org_orders_asks(auth, org_id, q, now_ms, step),
        store::run(step, before, out, after, turns),
    ensures
        stays_home(auth, org_id, before, out, after),
        after == before,
        out matches Ok(shown) ==> exists|range: (i64, i64), ids: Seq<Seq<char>>|
            orders::range_asked(q, now_ms, Ok(range)) && #[trigger] store::shows_orders(
                before,
                auth.org_id@,
                orders::between(range, q.status),
                ids,
                shown@,
            ),
{
    if let Step::Await { effect, job } = step {
        let (reply, mid, next) = soundness::lemma_one_turn(effect, job, before, out, after, turns);
        let range = choose|range: Result<(i64, i64), AppError>| #[trigger]
            orders::range_asked(q, now_ms, range) && match range {
                Ok(range) => orders::orders_between(org_id, q.status, range, step),
                Err(e) => step == Step::<ListingOrders, Vec<OrderOut>>::Done(Err(e)),
            };
        assert(orders::orders_between(org_id, q.status, range->Ok_0, step));
        if let Ok(shown) = out {
            let ids = choose|ids: Seq<Seq<char>>| #[trigger]
                store::shows_orders(
                    before,
                    org_id@,
                    orders::between(range->Ok_0, q.status),
                    ids,
                    shown@,
                );
            assert(store::shows_orders(
                before,
                auth.org_id@,
                orders::between(range->Ok_0, q.status),
                ids,
                shown@,
            ));
        }
    }
}

/// Moving an order on stays within the organisation of the admin.
pub proof fn law_update_order_status_stays_home(
    auth: AuthUser,
    org_id: String,
    order_id: String,
    body: UpdateStatusBody,
    now: i64,
    step: Step<OrderJob, OrderEvent>,
    before: Db,
    out: Result<OrderEvent, AppError>,
    after: Db,
    turns: nat,
)
    requires
        orders::update_order_status_asks(auth, org_id, order_id, body, now, step),
        store::run(step, before, out, after, turns),
    ensures
        stays_home(auth, org_id, before, out, after),
{
    if let Step::Await { effect, job } = step {
        let (r1, mid1, next1) = soundness::lemma_one_turn(effect, job, before, out, after, turns);
        lemma_about_stays(before, effect, r1, mid1, auth.org_id@);
        if let Step::Await { effect: e2, job: j2 } = next1 {
            let (r2, mid2, next2) = soundness::lemma_one_turn(
                e2,
                j2,
                mid1,
                out,
                after,
                (turns - 1) as nat,
            );
        }
    }
}

/// A feed passes on a message to its listener exactly where the message is for
/// the organisation of the feed.
pub proof fn law_feed_is_for_one_org(org_id: Seq<char>, msg: BroadcastMsg)
    ensures
        msg.org_id@ == org_id ==> feed::feed_action(org_id, FeedEvent::Broadcast(msg))
            == FeedAction::Send(msg.payload),
        msg.org_id@ != org_id ==> feed::feed_action(org_id, FeedEvent::Broadcast(msg))
            == FeedAction::Wait,
{
}

/// What a listener asks for stays within the organisation of the feed: what it
/// publishes goes to that organisation, what it is shown are orders of that
/// organisation, and a change of a status changes nothing elsewhere.
pub proof fn law_listener_stays_home(
    org_id: Seq<char>,
    words: Seq<char>,
    now: i64,
    now_utc: i64,
    action: ClientAction,
    before: Db,
    after: Db,
    turns: nat,
)
    requires
        feed::message_action(org_id, words, now, now_utc, action),
    ensures
        action matches ClientAction::Publish(msg) ==> msg.org_id@ == org_id,
        forall|out: Result<OrderSync, AppError>|
            action is Sync && #[trigger] store::run(action->Sync_0, before, out, after, turns)
                ==> after == before && out is Ok && (out->Ok_0.orders@.len() == 0 || exists|
                filter: OrderFilter,
                ids: Seq<Seq<char>>,
            | #[trigger]
                store::shows_orders(before, org_id, filter, ids, out->Ok_0.orders@)),
        forall|out: Result<OrderEvent, AppError>|
            action is Update && #[trigger] store::run(action->Update_0, before, out, after, turns)
                ==> same_elsewhere(before, after, org_id) && (out matches Ok(event)
                ==> event.org_id@ == org_id),
{
    assert forall|out: Result<OrderSync, AppError>|
        action is Sync && #[trigger] store::run(
            action->Sync_0,
            before,
            out,
            after,
            turns,
        ) implies after == before && out is Ok && (out->Ok_0.orders@.len() == 0 || exists|
        filter: OrderFilter,
        ids: Seq<Seq<char>>,
    | #[trigger]
        store::shows_orders(before, org_id, filter, ids, out->Ok_0.orders@)) by {
        let step = action->Sync_0;
        let (reply, mid, next) = soundness::lemma_one_turn(
            step->effect,
            step->job,
            before,
            out,
            after,
            turns,
        );
        if let Reply::Orders(shown) = reply {
            let filter = step->effect->ListOrders_filter;
            let ids = choose|ids: Seq<Seq<char>>| #[trigger]
                store::shows_orders(before, org_id, filter, ids, shown@);
            assert(store::shows_orders(before, org_id, filter, ids, out->Ok_0.orders@));
        }
    }
    assert forall|out: Result<OrderEvent, AppError>|
        action is Update && #[trigger] store::run(
            action->Update_0,
            before,
            out,
            after,
            turns,
        ) implies same_elsewhere(before, after, org_id) && (out matches Ok(event)
        ==> event.org_id@ == org_id) by {
        let step = action->Update_0;
        let (r1, mid1, next1) = soundness::lemma_one_turn(
            step->effect,
            step->job,
            before,
            out,
            after,
            turns,
        );
        lemma_about_stays(before, step->effect, r1, mid1, org_id);
        if let Step::Await { effect: e2, job: j2 } = next1 {
            let (r2, mid2, next2) = soundness::lemma_one_turn(
                e2,
                j2,
                mid1,
                out,
                after,
                (turns - 1) as nat,
            );
        }
    }
}

} // verus!

//! Which requests succeed, and what the others are answered with, on a store
//! that serves steadily.

use vstd::prelude::*;

use crate::accounts;
use crate::accounts::AuthJob;
use crate::auth::AuthUser;
use crate::error::{AppError, Status};
use crate::feed;
use crate::feed::{OrderSync, Syncing};
use crate::flow;
use crate::flow::{Changing, Effect, Step};
use crate::menu;
use crate::menu::{ListingMenu, MenuItemJob};
use crate::orders;
use crate::orders::{ListingOrders, NewOrder, OrderEvent, OrderJob};
use crate::orgs;
use crate::orgs::OrgJob;
use crate::records::{
    AdminOrdersQuery, AuthResponse, CreateTableBody, MenuItemIn, MenuItemOut, MenuRow, OrderOut,
    OrgOut, PendingQuery, PlaceOrderBody, RegisterBody, TableOut, UpdateOrgBody, UpdateStatusBody,
    UpdateTableBody,
};
use crate::soundness;
use crate::store;
use crate::store::Db;
use crate::tables;
use crate::tables::{ListingTables, TableJob};
use crate::text;

verus! {

/// The request was answered with 404.
pub open spec fn not_found<T>(out: Result<T, AppError>) -> bool {
    out matches Err(e) && e.says(Status::NotFound, "Not found"@)
}

// ---------------------------------------------------------------------------
// Organisations and accounts
// ---------------------------------------------------------------------------

/// Asking for an organisation changes nothing; it is answered with as it is kept,
/// and one that is not kept is not found.
pub proof fn law_org_is_found_if_kept(
    org_id: String,
    before: Db,
    out: Result<OrgOut, AppError>,
    after: Db,
    turns: nat,
)
    requires
        store::steady_run(
            Step::<OrgJob, OrgOut>::Await {
                effect: Effect::FindOrg { org_id },
                job: OrgJob::Showing,
            },
            before,
            out,
            after,
            turns,
        ),
    ensures
        after == before,
        before.orgs.contains_key(org_id@) ==> (out matches Ok(org) && org@
            == before.orgs[org_id@].org),
        !before.orgs.contains_key(org_id@) ==> not_found(out),
{
    let (r1, mid1, s2) = soundness::lemma_one_steady_turn(
        Effect::FindOrg { org_id },
        OrgJob::Showing,
        before,
        out,
        after,
        turns,
    );
}

/// A change of one's own organisation succeeds if it is kept; if not, it is not
/// found, and nothing changes.
pub proof fn law_org_is_changed_if_kept(
    auth: AuthUser,
    org_id: String,
    body: UpdateOrgBody,
    step: Step<OrgJob, OrgOut>,
    before: Db,
    out: Result<OrgOut, AppError>,
    after: Db,
    turns: nat,
)
    requires
        auth.org_id@ == org_id@,
        orgs::update_org_asks(auth, org_id, body, step),
        store::steady_run(step, before, out, after, turns),
    ensures
        before.orgs.contains_key(org_id@) ==> out is Ok,
        !before.orgs.contains_key(org_id@) ==> not_found(out) && after == before,
{
    let (r1, mid1, s2) = soundness::lemma_one_steady_turn(
        step->effect,
        step->job,
        before,
        out,
        after,
        turns,
    );
    if before.orgs.contains_key(org_id@) {
        let (r2, mid2, s3) = soundness::lemma_one_steady_turn(
            s2->effect,
            s2->job,
            mid1,
            out,
            after,
            (turns - 1) as nat,
        );
        let (r3, mid3, s4) = soundness::lemma_one_steady_turn(
            s3->effect,
            s3->job,
            mid2,
            out,
            after,
            (turns - 2) as nat,
        );
    }
}

/// A registration with fresh ids succeeds if the address is free; if it is taken,
/// the answer is 400, and no admin is added.
pub proof fn law_address_registers_once(
    body: RegisterBody,
    org_id: Seq<char>,
    user_id: Seq<char>,
    password_hash: Seq<char>,
    now: i64,
    secret: String,
    step: Step<AuthJob, AuthResponse>,
    before: Db,
    out: Result<AuthResponse, AppError>,
    after: Db,
    turns: nat,
)
    requires
        accounts::register_asks(body, org_id, user_id, password_hash, now, secret, step),
        store::steady_run(step, before, out, after, turns),
        !before.orgs.contains_key(org_id),
        !before.users.contains_key(user_id),
    ensures
        !before.has_email(accounts::email_key(body.email@)) ==> out is Ok,
        before.has_email(accounts::email_key(body.email@)) ==> {
            &&& out matches Err(e) && e.says(
                Status::BadRequest,
                "an account with that email already exists"@,
            )
            &&& after.users == before.users
        },
{
    let (r1, mid1, s2) = soundness::lemma_one_steady_turn(
        step->effect,
        step->job,
        before,
        out,
        after,
        turns,
    );
    let email = accounts::email_key(body.email@);
    assert(mid1.users == before.users);
    assert(mid1.has_email(email) == before.has_email(email)) by {
        if before.has_email(email) {
            let id = choose|id: Seq<char>| #[trigger]
                before.users.contains_key(id) && before.users[id].email == email;
            assert(mid1.users.contains_key(id));
        }
        if mid1.has_email(email) {
            let id = choose|id: Seq<char>| #[trigger]
                mid1.users.contains_key(id) && mid1.users[id].email == email;
            assert(before.users.contains_key(id));
        }
    }
    let (r2, mid2, s3) = soundness::lemma_one_steady_turn(
        s2->effect,
        s2->job,
        mid1,
        out,
        after,
        (turns - 1) as nat,
    );
    if !before.has_email(email) {
        let (r3, mid3, s4) = soundness::lemma_one_steady_turn(
            s3->effect,
            s3->job,
            mid2,
            out,
            after,
            (turns - 2) as nat,
        );
    }
}

/// Who one is can be told as long as both the organisation and the admin that the
/// token speaks of are kept; if not, the answer is 404.
pub proof fn law_me_is_answered_if_kept(
    user: AuthUser,
    secret: String,
    before: Db,
    out: Result<AuthResponse, AppError>,
    after: Db,
    turns: nat,
)
    requires
        store::steady_run(
            Step::<AuthJob, AuthResponse>::Await {
                effect: Effect::FindOrg { org_id: user.org_id },
                job: AuthJob::Recalling { user_id: user.user_id, secret },
            },
            before,
            out,
            after,
            turns,
        ),
    ensures
        after == before,
        ({
            let kept = before.orgs.contains_key(user.org_id@) && before.users.contains_key(
                user.user_id@,
            );
            &&& kept ==> out is Ok
            &&& !kept ==> not_found(out)
        }),
{
    let (r1, mid1, s2) = soundness::lemma_one_steady_turn(
        Effect::FindOrg { org_id: user.org_id },
        AuthJob::Recalling { user_id: user.user_id, secret },
        before,
        out,
        after,
        turns,
    );
    if before.orgs.contains_key(user.org_id@) {
        let (r2, mid2, s3) = soundness::lemma_one_steady_turn(
            s2->effect,
            s2->job,
            mid1,
            out,
            after,
            (turns - 1) as nat,
        );
    }
}

// ---------------------------------------------------------------------------
// Tables
// ---------------------------------------------------------------------------

/// Asking for a table changes nothing; a table of the organisation is answered
/// with as it is kept, and any other is not found.
pub proof fn law_table_is_found_if_kept(
    org_id: String,
    table_id: String,
    before: Db,
    out: Result<TableOut, AppError>,
    after: Db,
    turns: nat,
)
    requires
        store::steady_run(
            Step::<TableJob, TableOut>::Await {
                effect: Effect::FindOrgTable { org_id, table_id },
                job: TableJob::Showing,
            },
            before,
            out,
            after,
            turns,
        ),
    ensures
        after == before,
        before.has_table(org_id@, table_id@) ==> (out matches Ok(table) && table@
            == before.tables[table_id@].table),
        !before.has_table(org_id@, table_id@) ==> not_found(out),
{
    let (r1, mid1, s2) = soundness::lemma_one_steady_turn(
        Effect::FindOrgTable { org_id, table_id },
        TableJob::Showing,
        before,
        out,
        after,
        turns,
    );
}

/// A new table for one's own organisation succeeds if it has a name, its id is
/// fresh and the organisation is kept.
pub proof fn law_table_is_created(
    auth: AuthUser,
    org_id: String,
    body: CreateTableBody,
    client_origin: Seq<char>,
    id: String,
    now: i64,
    step: Step<TableJob, TableOut>,
    before: Db,
    out: Result<TableOut, AppError>,
    after: Db,
    turns: nat,
)
    requires
        auth.org_id@ == org_id@,
        !text::is_blank(body.name@),
        tables::create_table_asks(auth, org_id, body, client_origin, id, now, step),
        store::steady_run(step, before, out, after, turns),
        before.orgs.contains_key(org_id@),
        !before.tables.contains_key(id@),
    ensures
        out is Ok,
{
    let (r1, mid1, s2) = soundness::lemma_one_steady_turn(
        step->effect,
        step->job,
        before,
        out,
        after,
        turns,
    );
    let (r2, mid2, s3) = soundness::lemma_one_steady_turn(
        s2->effect,
        s2->job,
        mid1,
        out,
        after,
        (turns - 1) as nat,
    );
}

/// A change of a table of one's own organisation succeeds if the organisation has
/// the table; if not, it is not found, and nothing changes.
pub proof fn law_table_is_changed_if_kept(
    auth: AuthUser,
    org_id: String,
    table_id: String,
    body: UpdateTableBody,
    step: Step<TableJob, TableOut>,
    before: Db,
    out: Result<TableOut, AppError>,
    after: Db,
    turns: nat,
)
    requires
        auth.org_id@ == org_id@,
        tables::update_table_asks(auth, org_id, table_id, body, step),
        store::steady_run(step, before, out, after, turns),
    ensures
        before.has_table(org_id@, table_id@) ==> out is Ok,
        !before.has_table(org_id@, table_id@) ==> not_found(out) && after == before,
{
    let (r1, mid1, s2) = soundness::lemma_one_steady_turn(
        step->effect,
        step->job,
        before,
        out,
        after,
        turns,
    );
    if before.has_table(org_id@, table_id@) {
        let (r2, mid2, s3) = soundness::lemma_one_steady_turn(
            s2->effect,
            s2->job,
            mid1,
            out,
            after,
            (turns - 1) as nat,
        );
        let (r3, mid3, s4) = soundness::lemma_one_steady_turn(
            s3->effect,
            s3->job,
            mid2,
            out,
            after,
            (turns - 2) as nat,
        );
    }
}

/// The tables of one's own organisation are listed, all of them, the oldest first.
/// Nothing changes.
pub proof fn law_tables_are_listed(
    auth: AuthUser,
    org_id: String,
    step: Step<ListingTables, Vec<TableOut>>,
    before: Db,
    out: Result<Vec<TableOut>, AppError>,
    after: Db,
    turns: nat,
)
    requires
        auth.org_id@ == org_id@,
        tables::list_tables_asks(auth, org_id, step),
        store::steady_run(step, before, out, after, turns),
    ensures
        after == before,
        out matches Ok(shown) && exists|ids: Seq<Seq<char>>| #[trigger]
            store::shows_tables(before, org_id@, ids, shown@),
{
    let (r1, mid1, s2) = soundness::lemma_one_steady_turn(
        step->effect,
        step->job,
        before,
        out,
        after,
        turns,
    );
    assert(out is Ok);
    let shown = out->Ok_0@;
    let ids = choose|ids: Seq<Seq<char>>| #[trigger]
        store::shows_tables(before, org_id@, ids, shown);
    assert(store::shows_tables(before, org_id@, ids, shown));
}

/// Taking a table of one's own organisation away succeeds, whether it is kept or not.
pub proof fn law_table_is_deleted(
    auth: AuthUser,
    org_id: String,
    table_id: String,
    step: Step<Changing, ()>,
    before: Db,
    out: Result<(), AppError>,
    after: Db,
    turns: nat,
)
    requires
        auth.org_id@ == org_id@,
        tables::delete_table_asks(auth, org_id, table_id, step),
        store::steady_run(step, before, out, after, turns),
    ensures
        out is Ok,
        !after.has_table(org_id@, table_id@),
{
    let (r1, mid1, s2) = soundness::lemma_one_steady_turn(
        step->effect,
        step->job,
        before,
        out,
        after,
        turns,
    );
}

// ---------------------------------------------------------------------------
// Menus
// ---------------------------------------------------------------------------

/// The items have ids of their own that no item on the menu of another
/// organisation has.
pub open spec fn fresh_items(
    before: Db,
    org_id: Seq<char>,
    items: Seq<MenuItemIn>,
    fresh: Seq<String>,
) -> bool {
    &&& forall|i: int|
        #![trigger items[i]]
        0 <= i < items.len() ==> {
            let id = menu::item_id(items[i], fresh[i]@);
            before.menu.contains_key(id) ==> before.menu[id].org_id == org_id
        }
    &&& forall|i: int, j: int|
        #![trigger items[i], items[j]]
        0 <= i < j < items.len() ==> menu::item_id(items[i], fresh[i]@) != menu::item_id(
            items[j],
            fresh[j]@,
        )
}

/// A menu of one's own organisation is saved if its items have ids of their own
/// that no other organisation uses, and the organisation is kept.
pub proof fn law_menu_is_saved(
    auth: AuthUser,
    org_id: String,
    items: Seq<MenuItemIn>,
    fresh: Seq<String>,
    step: Step<Changing, ()>,
    before: Db,
    out: Result<(), AppError>,
    after: Db,
    turns: nat,
)
    requires
        auth.org_id@ == org_id@,
        menu::save_menu_asks(auth, org_id, items, fresh, step),
        store::steady_run(step, before, out, after, turns),
        before.orgs.contains_key(org_id@),
        fresh_items(before, org_id@, items, fresh),
    ensures
        out is Ok,
{
    let rows = step->effect->ReplaceMenu_rows@;
    let others = store::other_menus(before.menu, org_id@);
    assert(store::fresh_rows(others, rows)) by {
        assert forall|i: int| 0 <= i < rows.len() implies !others.contains_key(
            #[trigger] rows[i].id@,
        ) by {
            assert(menu::is_row_of(rows[i], items[i], org_id@, fresh[i]@, i));
        }
        assert forall|i: int, j: int| 0 <= i < j < rows.len() implies (#[trigger] rows[i]).id@ != (
        #[trigger] rows[j]).id@ by {
            assert(menu::is_row_of(rows[i], items[i], org_id@, fresh[i]@, i));
            assert(menu::is_row_of(rows[j], items[j], org_id@, fresh[j]@, j));
        }
    }
    let (r1, mid1, s2) = soundness::lemma_one_steady_turn(
        step->effect,
        step->job,
        before,
        out,
        after,
        turns,
    );
}

/// A new item for the menu of one's own organisation succeeds if its id is fresh
/// and the organisation is kept.
pub proof fn law_menu_item_is_created(
    auth: AuthUser,
    org_id: String,
    item: MenuItemIn,
    fresh: Seq<char>,
    step: Step<MenuItemJob, MenuItemOut>,
    before: Db,
    out: Result<MenuItemOut, AppError>,
    after: Db,
    turns: nat,
)
    requires
        auth.org_id@ == org_id@,
        menu::create_menu_item_asks(auth, org_id, item, fresh, step),
        store::steady_run(step, before, out, after, turns),
        before.orgs.contains_key(org_id@),
        !before.menu.contains_key(menu::item_id(item, fresh)),
    ensures
        out is Ok,
{
    let (r1, mid1, s2) = soundness::lemma_one_steady_turn(
        step->effect,
        step->job,
        before,
        out,
        after,
        turns,
    );
    let (r2, mid2, s3) = soundness::lemma_one_steady_turn(
        s2->effect,
        s2->job,
        mid1,
        out,
        after,
        (turns - 1) as nat,
    );
    let (r3, mid3, s4) = soundness::lemma_one_steady_turn(
        s3->effect,
        s3->job,
        mid2,
        out,
        after,
        (turns - 2) as nat,
    );
}

/// A change of an item is answered if there is an item with that id; if not, it
/// is not found, and nothing changes.
pub proof fn law_menu_item_is_changed_if_kept(
    auth: AuthUser,
    org_id: String,
    id: String,
    item: MenuItemIn,
    step: Step<MenuItemJob, MenuItemOut>,
    before: Db,
    out: Result<MenuItemOut, AppError>,
    after: Db,
    turns: nat,
)
    requires
        auth.org_id@ == org_id@,
        menu::update_menu_item_asks(auth, org_id, id, item, step),
        store::steady_run(step, before, out, after, turns),
    ensures
        before.menu.contains_key(id@) ==> out is Ok,
        !before.menu.contains_key(id@) ==> not_found(out) && after == before,
{
    let (r1, mid1, s2) = soundness::lemma_one_steady_turn(
        step->effect,
        step->job,
        before,
        out,
        after,
        turns,
    );
    let (r2, mid2, s3) = soundness::lemma_one_steady_turn(
        s2->effect,
        s2->job,
        mid1,
        out,
        after,
        (turns - 1) as nat,
    );
}

/// A menu of one's own organisation is not saved where two of its items have the
/// same id, or one has the id of an item of another organisation: the answer is
/// 500, and nothing changes.
pub proof fn law_clashing_menu_is_refused(
    auth: AuthUser,
    org_id: String,
    items: Seq<MenuItemIn>,
    fresh: Seq<String>,
    step: Step<Changing, ()>,
    before: Db,
    out: Result<(), AppError>,
    after: Db,
    turns: nat,
)
    requires
        auth.org_id@ == org_id@,
        menu::save_menu_asks(auth, org_id, items, fresh, step),
        store::run(step, before, out, after, turns),
        !fresh_items(before, org_id@, items, fresh),
    ensures
        after == before,
        out matches Err(e) && e.status == Status::InternalServerError,
{
    let rows = step->effect->ReplaceMenu_rows@;
    let others = store::other_menus(before.menu, org_id@);
    if store::fresh_rows(others, rows) {
        assert forall|i: int|
            #![trigger items[i]]
            0 <= i < items.len() implies {
            let id = menu::item_id(items[i], fresh[i]@);
            before.menu.contains_key(id) ==> before.menu[id].org_id == org_id@
        } by {
            assert(menu::is_row_of(rows[i], items[i], org_id@, fresh[i]@, i));
            assert(!others.contains_key(rows[i].id@));
        }
        assert forall|i: int, j: int|
            #![trigger items[i], items[j]]
            0 <= i < j < items.len() implies menu::item_id(items[i], fresh[i]@) != menu::item_id(
            items[j],
            fresh[j]@,
        ) by {
            assert(menu::is_row_of(rows[i], items[i], org_id@, fresh[i]@, i));
            assert(menu::is_row_of(rows[j], items[j], org_id@, fresh[j]@, j));
            assert(rows[i].id@ != rows[j].id@);
        }
        assert(fresh_items(before, org_id@, items, fresh));
    }
    let (r1, mid1, s2) = soundness::lemma_one_turn(step->effect, step->job, before, out, after, turns);
}

/// A menu is listed, all of it, in its order. Nothing changes.
pub proof fn law_menu_is_listed(
    org_id: String,
    before: Db,
    out: Result<Vec<MenuItemOut>, AppError>,
    after: Db,
    turns: nat,
)
    requires
        store::steady_run(
            Step::<ListingMenu, Vec<MenuItemOut>>::Await {
                effect: Effect::ListMenu { org_id },
                job: ListingMenu,
            },
            before,
            out,
            after,
            turns,
        ),
    ensures
        after == before,
        out matches Ok(shown) && exists|ids: Seq<Seq<char>>, rows: Seq<MenuRow>| #[trigger]
            store::shows_menu(before, org_id@, ids, rows) && menu::shows_rows(shown@, rows),
{
    let (r1, mid1, s2) = soundness::lemma_one_steady_turn(
        Effect::ListMenu { org_id },
        ListingMenu,
        before,
        out,
        after,
        turns,
    );
    let rows = r1->Menu_0@;
    let ids = choose|ids: Seq<Seq<char>>| #[trigger] store::shows_menu(before, org_id@, ids, rows);
    assert(store::shows_menu(before, org_id@, ids, rows));
}

/// Taking an item off the menu of one's own organisation succeeds, whether it is
/// kept or not.
pub proof fn law_menu_item_is_deleted(
    auth: AuthUser,
    org_id: String,
    id: String,
    step: Step<Changing, ()>,
    before: Db,
    out: Result<(), AppError>,
    after: Db,
    turns: nat,
)
    requires
        auth.org_id@ == org_id@,
        menu::delete_menu_item_asks(auth, org_id, id, step),
        store::steady_run(step, before, out, after, turns),
    ensures
        out is Ok,
        !after.has_item(org_id@, id@),
{
    let (r1, mid1, s2) = soundness::lemma_one_steady_turn(
        step->effect,
        step->job,
        before,
        out,
        after,
        turns,
    );
}

// ---------------------------------------------------------------------------
// Orders
// ---------------------------------------------------------------------------

/// The order and its lines have ids that nothing else has.
pub open spec fn fresh_ids(before: Db, order: NewOrder) -> bool {
    &&& !before.orders.contains_key(order.order_id@)
    &&& forall|i: int|
        0 <= i < order.line_ids@.len() ==> !before.order_items.contains_key(
            (#[trigger] order.line_ids@[i])@,
        )
    &&& forall|i: int, j: int|
        0 <= i < j < order.line_ids@.len() ==> (#[trigger] order.line_ids@[i])@ != (
        #[trigger] order.line_ids@[j])@
}

/// An order with at least one line succeeds if its ids are fresh, the table is
/// one of the organisation's and a line orders at least one piece. At any other
/// table it is not found, and nothing changes; and nothing changes where no line
/// orders a piece.
pub proof fn law_order_is_placed_at_own_table(
    body: PlaceOrderBody,
    order: NewOrder,
    step: Step<OrderJob, OrderEvent>,
    before: Db,
    out: Result<OrderEvent, AppError>,
    after: Db,
    turns: nat,
)
    requires
        body.items@.len() > 0,
        order.line_ids@.len() >= body.items@.len(),
        soundness::sound(before),
        fresh_ids(before, order),
        orders::place_order_asks(body, order, step),
        store::steady_run(step, before, out, after, turns),
    ensures
        !before.has_table(order.org_id@, order.table_id@) ==> not_found(out) && after == before,
        before.has_table(order.org_id@, order.table_id@) ==> {
            let lines = body.items@.filter(orders::counts());
            &&& lines.len() > 0 ==> out is Ok
            &&& lines.len() == 0 ==> after == before && (out matches Err(e) && e.says(
                Status::InternalServerError,
                "Query is not read-only"@,
            ))
        },
{
    let lines = body.items@.filter(orders::counts());
    body.items@.lemma_filter_len(orders::counts());
    let (r1, mid1, s2) = soundness::lemma_one_steady_turn(
        step->effect,
        step->job,
        before,
        out,
        after,
        turns,
    );
    if before.has_table(order.org_id@, order.table_id@) && lines.len() > 0 {
        let (r2, mid2, s3) = soundness::lemma_one_steady_turn(
            s2->effect,
            s2->job,
            mid1,
            out,
            after,
            (turns - 1) as nat,
        );
        let (r3, mid3, s4) = soundness::lemma_one_steady_turn(
            s3->effect,
            s3->job,
            mid2,
            out,
            after,
            (turns - 2) as nat,
        );
        let items = s4->effect->PlaceOrder_items@;
        let prices = r2->Prices_0@;
        assert(orders::are_kept_lines(items, lines, prices, order.order_id@, order.line_ids@));
        assert(store::fresh_lines(before.order_items, items)) by {
            assert forall|i: int| 0 <= i < items.len() implies !before.order_items.contains_key(
                #[trigger] items[i].id@,
            ) by {
                assert(items[i]@.id == order.line_ids@[i]@);
            }
            assert forall|i: int, j: int| 0 <= i < j < items.len() implies (
            #[trigger] items[i]).id@ != (#[trigger] items[j]).id@ by {
                assert(items[i]@.id == order.line_ids@[i]@);
                assert(items[j]@.id == order.line_ids@[j]@);
            }
        }
        assert(before.tables.contains_key(order.table_id@));
        assert(before.orgs.contains_key(order.org_id@));
        let (r4, mid4, s5) = soundness::lemma_one_steady_turn(
            s4->effect,
            s4->job,
            mid3,
            out,
            after,
            (turns - 3) as nat,
        );
        let (r5, mid5, s6) = soundness::lemma_one_steady_turn(
            s5->effect,
            s5->job,
            mid4,
            out,
            after,
            (turns - 4) as nat,
        );
    }
}

/// An order of one's own organisation is moved on if it is kept; if not, it is not
/// found, and nothing changes.
pub proof fn law_order_is_moved_on_if_kept(
    auth: AuthUser,
    org_id: String,
    order_id: String,
    body: UpdateStatusBody,
    now: i64,
    step: Step<OrderJob, OrderEvent>,
    before: Db,
    out: Result<OrderEvent, AppError>,
    after: Db,
    turns: nat,
)
    requires
        auth.org_id@ == org_id@,
        flow::valid_status(body.status@),
        orders::update_order_status_asks(auth, org_id, order_id, body, now, step),
        store::steady_run(step, before, out, after, turns),
    ensures
        before.has_order(org_id@, order_id@) ==> out is Ok,
        !before.has_order(org_id@, order_id@) ==> not_found(out) && after == before,
{
    let (r1, mid1, s2) = soundness::lemma_one_steady_turn(
        step->effect,
        step->job,
        before,
        out,
        after,
        turns,
    );
    let (r2, mid2, s3) = soundness::lemma_one_steady_turn(
        s2->effect,
        s2->job,
        mid1,
        out,
        after,
        (turns - 1) as nat,
    );
}

/// Placing an order adds nothing where it ends in an error.
pub proof fn law_failed_order_adds_nothing(
    body: PlaceOrderBody,
    order: NewOrder,
    step: Step<OrderJob, OrderEvent>,
    before: Db,
    out: Result<OrderEvent, AppError>,
    after: Db,
    turns: nat,
)
    requires
        orders::place_order_asks(body, order, step),
        store::steady_run(step, before, out, after, turns),
        out is Err,
    ensures
        after == before,
{
    if let Step::Await { effect: e1, job: j1 } = step {
        let (r1, mid1, s2) = soundness::lemma_one_steady_turn(e1, j1, before, out, after, turns);
        if let Step::Await { effect: e2, job: j2 } = s2 {
            let (r2, mid2, s3) = soundness::lemma_one_steady_turn(
                e2,
                j2,
                mid1,
                out,
                after,
                (turns - 1) as nat,
            );
            let (r3, mid3, s4) = soundness::lemma_one_steady_turn(
                s3->effect,
                s3->job,
                mid2,
                out,
                after,
                (turns - 2) as nat,
            );
            let (r4, mid4, s5) = soundness::lemma_one_steady_turn(
                s4->effect,
                s4->job,
                mid3,
                out,
                after,
                (turns - 3) as nat,
            );
            if let Step::Await { effect: e5, job: j5 } = s5 {
                let (r5, mid5, s6) = soundness::lemma_one_steady_turn(
                    e5,
                    j5,
                    mid4,
                    out,
                    after,
                    (turns - 4) as nat,
                );
            }
        }
    }
}

/// The orders of a table are listed: those of the day that were asked for, all of
/// them, the latest first. Nothing changes.
pub proof fn law_table_orders_are_listed(
    org_id: String,
    table_id: String,
    q: PendingQuery,
    now_ms: i64,
    step: Step<ListingOrders, Vec<OrderOut>>,
    before: Db,
    out: Result<Vec<OrderOut>, AppError>,
    after: Db,
    turns: nat,
)
    requires
        orders::table_orders_asks(org_id, table_id, q, now_ms, step),
        store::steady_run(step, before, out, after, turns),
    ensures
        after == before,
        out matches Ok(shown) && exists|ids: Seq<Seq<char>>| #[trigger]
            store::shows_orders(
                before,
                org_id@,
                step->effect->ListOrders_filter,
                ids,
                shown@,
            ),
{
    let (r1, mid1, s2) = soundness::lemma_one_steady_turn(
        step->effect,
        step->job,
        before,
        out,
        after,
        turns,
    );
    assert(out is Ok);
    let shown = out->Ok_0@;
    let filter = step->effect->ListOrders_filter;
    let ids = choose|ids: Seq<Seq<char>>| #[trigger]
        store::shows_orders(before, org_id@, filter, ids, shown);
    assert(store::shows_orders(before, org_id@, filter, ids, shown));
}

/// The orders of one's own organisation are listed: those of the stretch of time
/// that was asked for, all of them, the latest first. Where that cannot be told
/// from the query, the answer is the error that says so. Nothing changes.
pub proof fn law_org_orders_are_listed(
    auth: AuthUser,
    org_id: String,
    q: AdminOrdersQuery,
    now_ms: i64,
    range: Result<(i64, i64), AppError>,
    step: Step<ListingOrders, Vec<OrderOut>>,
    before: Db,
    out: Result<Vec<OrderOut>, AppError>,
    after: Db,
    turns: nat,
)
    requires
        auth.org_id@ == org_id@,
        orders::list_org_orders_asks(auth, org_id, q, now_ms, step),
        orders::range_asked(q, now_ms, range),
        store::steady_run(step, before, out, after, turns),
    ensures
        after == before,
        match range {
            Ok(range) => out matches Ok(shown) && exists|ids: Seq<Seq<char>>| #[trigger]
                store::shows_orders(
                    before,
                    org_id@,
                    orders::between(range, q.status),
                    ids,
                    shown@,
                ),
            Err(e) => out matches Err(answer) && answer.says(e.status, e.message@),
        },
{
    let asked = choose|asked: Result<(i64, i64), AppError>| #[trigger]
        orders::range_asked(q, now_ms, asked) && match asked {
            Ok(range) => orders::orders_between(org_id, q.status, range, step),
            Err(e) => step == Step::<ListingOrders, Vec<OrderOut>>::Done(Err(e)),
        };
    if range is Ok {
        assert(asked == range);
        let (r1, mid1, s2) = soundness::lemma_one_steady_turn(
            step->effect,
            step->job,
            before,
            out,
            after,
            turns,
        );
        assert(out is Ok);
        let shown = out->Ok_0@;
        let filter = orders::between(range->Ok_0, q.status);
        let ids = choose|ids: Seq<Seq<char>>| #[trigger]
            store::shows_orders(before, org_id@, filter, ids, shown);
        assert(store::shows_orders(before, org_id@, filter, ids, shown));
    }
}

// ---------------------------------------------------------------------------
// The live feed
// ---------------------------------------------------------------------------

/// A listener who asks for the orders of the organisation gets those created since
/// midnight, all of them, the latest first. Nothing changes.
pub proof fn law_listener_is_synced(
    org_id: Seq<char>,
    now_utc: i64,
    step: Step<Syncing, OrderSync>,
    before: Db,
    out: Result<OrderSync, AppError>,
    after: Db,
    turns: nat,
)
    requires
        feed::syncs(org_id, now_utc, step),
        store::steady_run(step, before, out, after, turns),
    ensures
        after == before,
        out matches Ok(sync) && sync.sync_type@ == "orders:sync"@ && exists|
            ids: Seq<Seq<char>>,
        | #[trigger]
            store::shows_orders(
                before,
                org_id,
                feed::since_midnight(now_utc),
                ids,
                sync.orders@,
            ),
{
    let (r1, mid1, s2) = soundness::lemma_one_steady_turn(
        step->effect,
        step->job,
        before,
        out,
        after,
        turns,
    );
}

/// A listener moves an order of the organisation on if it is kept; if not, nothing
/// changes.
pub proof fn law_listener_moves_order_on_if_kept(
    org_id: Seq<char>,
    order_id: Seq<char>,
    status: Seq<char>,
    now: i64,
    step: Step<OrderJob, OrderEvent>,
    before: Db,
    out: Result<OrderEvent, AppError>,
    after: Db,
    turns: nat,
)
    requires
        feed::updates(org_id, order_id, status, now, step),
        store::steady_run(step, before, out, after, turns),
    ensures
        before.has_order(org_id, order_id) ==> out is Ok && after.orders[order_id].status == status,
        !before.has_order(org_id, order_id) ==> not_found(out) && after == before,
{
    let (r1, mid1, s2) = soundness::lemma_one_steady_turn(
        step->effect,
        step->job,
        before,
        out,
        after,
        turns,
    );
    let (r2, mid2, s3) = soundness::lemma_one_steady_turn(
        s2->effect,
        s2->job,
        mid1,
        out,
        after,
        (turns - 1) as nat,
    );
}

} // verus!

//! What requests do to the store, and what later requests see of it.

use vstd::prelude::*;

use crate::auth::AuthUser;
use crate::error::AppError;
use crate::flow;
use crate::flow::{Changing, Effect, Step};
use crate::json;
use crate::menu;
use crate::menu::{ListingMenu, MenuItemJob};
use crate::orgs;
use crate::orgs::OrgJob;
use crate::outcomes;
use crate::records::{
    CreateTableBody, MenuItemIn, MenuItemOut, MenuItemView, MenuRow, MenuRowView, OrgOut, TableOut,
    TableView, UpdateOrgBody, UpdateTableBody,
};
use crate::soundness;
use crate::store;
use crate::store::{Db, OrgRecord, TableRecord};
use crate::tables;
use crate::tables::TableJob;

verus! {

// ---------------------------------------------------------------------------
// Organisations and tables
// ---------------------------------------------------------------------------

/// An organisation that was changed has what the request gave, keeps the rest,
/// and is answered with as it now is. Nothing else changes.
pub proof fn law_update_org(
    auth: AuthUser,
    org_id: String,
    body: UpdateOrgBody,
    step: Step<OrgJob, OrgOut>,
    before: Db,
    org: OrgOut,
    after: Db,
    turns: nat,
)
    requires
        orgs::update_org_asks(auth, org_id, body, step),
        store::run(step, before, Ok::<OrgOut, AppError>(org), after, turns),
    ensures
        before.orgs.contains_key(org_id@),
        org@ == orgs::changed_org(before.orgs[org_id@].org, body, org_id@),
        after == (Db {
            orgs: before.orgs.insert(
                org_id@,
                OrgRecord { org: org@, created_at: before.orgs[org_id@].created_at },
            ),
            ..before
        }),
{
    let out = Ok::<OrgOut, AppError>(org);
    let (e1, j1) = (step->effect, step->job);
    let (r1, mid1, s2) = soundness::lemma_one_turn(e1, j1, before, out, after, turns);
    let (r2, mid2, s3) = soundness::lemma_one_turn(
        s2->effect,
        s2->job,
        mid1,
        out,
        after,
        (turns - 1) as nat,
    );
    let (r3, mid3, s4) = soundness::lemma_one_turn(
        s3->effect,
        s3->job,
        mid2,
        out,
        after,
        (turns - 2) as nat,
    );
}

/// An organisation that was changed is shown as the change was answered.
pub proof fn law_changed_org_is_shown(
    auth: AuthUser,
    org_id: String,
    body: UpdateOrgBody,
    update: Step<OrgJob, OrgOut>,
    before: Db,
    org: OrgOut,
    mid: Db,
    update_turns: nat,
    out: Result<OrgOut, AppError>,
    after: Db,
    show_turns: nat,
)
    requires
        orgs::update_org_asks(auth, org_id, body, update),
        store::run(update, before, Ok::<OrgOut, AppError>(org), mid, update_turns),
        store::steady_run(
            Step::<OrgJob, OrgOut>::Await {
                effect: Effect::FindOrg { org_id },
                job: OrgJob::Showing,
            },
            mid,
            out,
            after,
            show_turns,
        ),
    ensures
        after == mid,
        out matches Ok(shown) && shown@ == org@,
{
    law_update_org(auth, org_id, body, update, before, org, mid, update_turns);
    outcomes::law_org_is_found_if_kept(org_id, mid, out, after, show_turns);
}

/// A table that was created is kept with its name trimmed, at least one seat and
/// the link of its QR code, and is answered with. Nothing else changes.
pub proof fn law_create_table(
    auth: AuthUser,
    org_id: String,
    body: CreateTableBody,
    client_origin: Seq<char>,
    id: String,
    now: i64,
    step: Step<TableJob, TableOut>,
    before: Db,
    table: TableOut,
    after: Db,
    turns: nat,
)
    requires
        tables::create_table_asks(auth, org_id, body, client_origin, id, now, step),
        store::run(step, before, Ok::<TableOut, AppError>(table), after, turns),
    ensures
        table@ == tables::new_table(body, client_origin, org_id@, id@),
        !before.tables.contains_key(id@),
        after == (Db {
            tables: before.tables.insert(
                id@,
                TableRecord { org_id: org_id@, table: table@, created_at: now },
            ),
            ..before
        }),
{
    let out = Ok::<TableOut, AppError>(table);
    let (r1, mid1, s2) = soundness::lemma_one_turn(
        step->effect,
        step->job,
        before,
        out,
        after,
        turns,
    );
    let (r2, mid2, s3) = soundness::lemma_one_turn(
        s2->effect,
        s2->job,
        mid1,
        out,
        after,
        (turns - 1) as nat,
    );
}

/// A table that was created is found as it was answered with.
pub proof fn law_created_table_is_found(
    auth: AuthUser,
    org_id: String,
    body: CreateTableBody,
    client_origin: Seq<char>,
    id: String,
    now: i64,
    create: Step<TableJob, TableOut>,
    before: Db,
    table: TableOut,
    mid: Db,
    create_turns: nat,
    out: Result<TableOut, AppError>,
    after: Db,
    find_turns: nat,
)
    requires
        tables::create_table_asks(auth, org_id, body, client_origin, id, now, create),
        store::run(create, before, Ok::<TableOut, AppError>(table), mid, create_turns),
        store::steady_run(
            Step::<TableJob, TableOut>::Await {
                effect: Effect::FindOrgTable { org_id, table_id: id },
                job: TableJob::Showing,
            },
            mid,
            out,
            after,
            find_turns,
        ),
    ensures
        after == mid,
        out matches Ok(found) && found@ == table@,
{
    law_create_table(
        auth,
        org_id,
        body,
        client_origin,
        id,
        now,
        create,
        before,
        table,
        mid,
        create_turns,
    );
    outcomes::law_table_is_found_if_kept(org_id, id, mid, out, after, find_turns);
}

/// Looking for a table changes nothing; what is found is a table of the
/// organisation, as it is kept.
pub proof fn law_get_table(
    org_id: String,
    table_id: String,
    before: Db,
    out: Result<TableOut, AppError>,
    after: Db,
    turns: nat,
)
    requires
        store::run(
            Step::<TableJob, TableOut>::Await {
                effect: Effect::FindOrgTable { org_id, table_id },
                job: TableJob::Showing,
            },
            before,
            out,
            after,
            turns,
        ),
    ensures
        after == before,
        out matches Ok(table) ==> {
            &&& before.has_table(org_id@, table_id@)
            &&& table@ == before.tables[table_id@].table
        },
{
    let effect = Effect::FindOrgTable { org_id, table_id };
    let (r1, mid1, s2) = soundness::lemma_one_turn(
        effect,
        TableJob::Showing,
        before,
        out,
        after,
        turns,
    );
}

/// A table that was changed has what the request gave and keeps the rest, its id
/// and the link of its QR code among it. Nothing else changes.
pub proof fn law_update_table(
    auth: AuthUser,
    org_id: String,
    table_id: String,
    body: UpdateTableBody,
    step: Step<TableJob, TableOut>,
    before: Db,
    table: TableOut,
    after: Db,
    turns: nat,
)
    requires
        tables::update_table_asks(auth, org_id, table_id, body, step),
        store::run(step, before, Ok::<TableOut, AppError>(table), after, turns),
    ensures
        before.has_table(org_id@, table_id@),
        table@ == (TableView {
            name: match body.name {
                Some(name) => name@,
                None => before.tables[table_id@].table.name,
            },
            seats: match body.seats {
                Some(seats) => seats,
                None => before.tables[table_id@].table.seats,
            },
            ..before.tables[table_id@].table
        }),
        after == (Db {
            tables: before.tables.insert(
                table_id@,
                TableRecord { table: table@, ..before.tables[table_id@] },
            ),
            ..before
        }),
{
    let out = Ok::<TableOut, AppError>(table);
    let (r1, mid1, s2) = soundness::lemma_one_turn(
        step->effect,
        step->job,
        before,
        out,
        after,
        turns,
    );
    let (r2, mid2, s3) = soundness::lemma_one_turn(
        s2->effect,
        s2->job,
        mid1,
        out,
        after,
        (turns - 1) as nat,
    );
    let (r3, mid3, s4) = soundness::lemma_one_turn(
        s3->effect,
        s3->job,
        mid2,
        out,
        after,
        (turns - 2) as nat,
    );
}

/// A table that was taken away is gone. Nothing else changes.
pub proof fn law_delete_table(
    auth: AuthUser,
    org_id: String,
    table_id: String,
    step: Step<Changing, ()>,
    before: Db,
    after: Db,
    turns: nat,
)
    requires
        tables::delete_table_asks(auth, org_id, table_id, step),
        store::run(step, before, Ok::<(), AppError>(()), after, turns),
    ensures
        !after.has_table(org_id@, table_id@),
        before.has_table(org_id@, table_id@) ==> after == (Db {
            tables: before.tables.remove(table_id@),
            ..before
        }),
        !before.has_table(org_id@, table_id@) ==> after == before,
{
    let out = Ok::<(), AppError>(());
    let (r1, mid1, s2) = soundness::lemma_one_turn(
        step->effect,
        step->job,
        before,
        out,
        after,
        turns,
    );
}

// ---------------------------------------------------------------------------
// Menus
// ---------------------------------------------------------------------------

/// The item of a request as answers show it.
pub open spec fn asked_item(item: MenuItemIn, fresh: Seq<char>) -> MenuItemView {
    MenuItemView {
        id: menu::item_id(item, fresh),
        category: item.category@,
        name: item.name@,
        description: item.description@,
        image: item.image@,
        portion: item.portion@,
        price: item.price,
        tags: json::texts(item.tags@),
    }
}

/// A menu that was saved is kept as the rows of its items, and is the whole menu
/// of the organisation.
proof fn lemma_saved_rows(before: Db, org_id: Seq<char>, rows: Seq<MenuRow>, after: Db)
    requires
        store::fresh_rows(store::other_menus(before.menu, org_id), rows),
        flow::menu_of(org_id, rows),
        after.menu == store::with_rows(store::other_menus(before.menu, org_id), rows),
    ensures
        forall|i: int|
            0 <= i < rows.len() ==> after.has_item(org_id, (#[trigger] rows[i]).id@)
                && after.menu[rows[i].id@] == rows[i]@,
        forall|id: Seq<char>| #[trigger]
            after.has_item(org_id, id) ==> exists|i: int|
                0 <= i < rows.len() && (#[trigger] rows[i]).id@ == id,
{
    let others = store::other_menus(before.menu, org_id);
    soundness::lemma_with_rows(others, rows);
    assert forall|id: Seq<char>| #[trigger] after.has_item(org_id, id) implies exists|i: int|
        0 <= i < rows.len() && (#[trigger] rows[i]).id@ == id by {
        if others.contains_key(id) {
            assert(after.menu[id] == others[id]);
            assert(before.menu[id].org_id != org_id);
        }
    }
}

/// Where the sort orders of a menu are its places, listing it by them lists it
/// place by place.
proof fn lemma_listed_in_place(
    db: Db,
    org_id: Seq<char>,
    rows: Seq<MenuRow>,
    ids: Seq<Seq<char>>,
    shown: Seq<MenuRow>,
    at: int,
)
    requires
        flow::menu_of(org_id, rows),
        forall|i: int|
            0 <= i < rows.len() ==> db.has_item(org_id, (#[trigger] rows[i]).id@)
                && db.menu[rows[i].id@] == rows[i]@,
        forall|id: Seq<char>| #[trigger]
            db.has_item(org_id, id) ==> exists|i: int|
                0 <= i < rows.len() && (#[trigger] rows[i]).id@ == id,
        store::shows_menu(db, org_id, ids, shown),
        0 <= at < ids.len(),
    ensures
        at < rows.len(),
        db.menu[ids[at]].sort_order == at,
        ids[at] == rows[at].id@,
    decreases at,
{
    assert(ids.contains(ids[at]));
    assert(db.has_item(org_id, ids[at]));
    let place = choose|i: int| 0 <= i < rows.len() && (#[trigger] rows[i]).id@ == ids[at];
    assert(db.menu[ids[at]].sort_order == place);
    if at > 0 {
        lemma_listed_in_place(db, org_id, rows, ids, shown, at - 1);
        assert(db.menu[ids[at - 1]].sort_order <= db.menu[ids[at]].sort_order);
        if place == at - 1 {
            assert(ids[at - 1] == ids[at]);
        }
    }
    assert(place >= at);
    if place > at {
        let missing = rows[at].id@;
        assert(db.has_item(org_id, missing));
        assert(ids.contains(missing));
        let p = choose|p: int| 0 <= p < ids.len() && ids[p] == missing;
        assert(db.menu[ids[p]].sort_order == at);
        if p < at {
            lemma_listed_in_place(db, org_id, rows, ids, shown, p);
        } else if p > at {
            assert(db.menu[ids[at]].sort_order <= db.menu[ids[p]].sort_order);
        }
        assert(false);
    }
}

/// A menu that was saved is what is read afterwards: the same items, in the same
/// sequence, with the same tags, and no others.
pub proof fn law_saved_menu_is_read_back(
    auth: AuthUser,
    org_id: String,
    items: Seq<MenuItemIn>,
    fresh: Seq<String>,
    save: Step<Changing, ()>,
    before: Db,
    saved: Db,
    save_turns: nat,
    shown: Vec<MenuItemOut>,
    after: Db,
    read_turns: nat,
)
    requires
        menu::save_menu_asks(auth, org_id, items, fresh, save),
        store::run(save, before, Ok::<(), AppError>(()), saved, save_turns),
        store::run(
            Step::<ListingMenu, Vec<MenuItemOut>>::Await {
                effect: Effect::ListMenu { org_id },
                job: ListingMenu,
            },
            saved,
            Ok::<Vec<MenuItemOut>, AppError>(shown),
            after,
            read_turns,
        ),
    ensures
        after == saved,
        shown@.len() == items.len(),
        forall|i: int|
            0 <= i < items.len() ==> (#[trigger] shown@[i])@ == asked_item(items[i], fresh[i]@),
{
    let (r1, mid1, s2) = soundness::lemma_one_turn(
        save->effect,
        save->job,
        before,
        Ok::<(), AppError>(()),
        saved,
        save_turns,
    );
    let rows = save->effect->ReplaceMenu_rows@;
    assert(flow::menu_of(org_id@, rows));
    lemma_saved_rows(before, org_id@, rows, saved);
    let (r, mid, s) = soundness::lemma_one_turn(
        Effect::ListMenu { org_id },
        ListingMenu,
        saved,
        Ok::<Vec<MenuItemOut>, AppError>(shown),
        after,
        read_turns,
    );
    let listed = r->Menu_0@;
    let ids = choose|ids: Seq<Seq<char>>| #[trigger]
        store::shows_menu(saved, org_id@, ids, listed);
    assert forall|i: int| 0 <= i < ids.len() implies i < rows.len() && #[trigger] ids[i]
        == rows[i].id@ by {
        lemma_listed_in_place(saved, org_id@, rows, ids, listed, i);
    }
    if ids.len() > rows.len() {
        assert(ids[ids.len() - 1] == rows[ids.len() - 1].id@);
    }
    if ids.len() < rows.len() {
        let last = rows[rows.len() - 1].id@;
        assert(saved.has_item(org_id@, last));
        assert(ids.contains(last));
        let p = choose|p: int| 0 <= p < ids.len() && ids[p] == last;
        assert(rows[p].id@ == last);
        assert(rows[p].sort_order == p);
        assert(saved.menu[last] == rows[p]@);
        assert(saved.menu[last] == rows[rows.len() - 1]@);
    }
    assert forall|i: int| 0 <= i < items.len() implies (#[trigger] shown@[i])@ == asked_item(
        items[i],
        fresh[i]@,
    ) by {
        assert(ids[i] == rows[i].id@);
        assert(listed[i]@ == saved.menu[ids[i]]);
        assert(menu::is_row_of(rows[i], items[i], org_id@, fresh[i]@, i));
        assert(shown@[i]@ == menu::shown_item(rows[i]@));
    }
}

/// A new item is kept behind all others of the menu and answered with, with its
/// tags. Nothing else changes.
pub proof fn law_create_menu_item(
    auth: AuthUser,
    org_id: String,
    item: MenuItemIn,
    fresh: Seq<char>,
    step: Step<MenuItemJob, MenuItemOut>,
    before: Db,
    shown: MenuItemOut,
    after: Db,
    turns: nat,
)
    requires
        menu::create_menu_item_asks(auth, org_id, item, fresh, step),
        store::run(step, before, Ok::<MenuItemOut, AppError>(shown), after, turns),
    ensures
        shown@ == asked_item(item, fresh),
        !before.menu.contains_key(shown.id@),
        after.has_item(org_id@, shown.id@),
        after.menu[shown.id@].fields == menu::kept_fields(item),
        shown@ == menu::shown_item(after.menu[shown.id@]),
        forall|id: Seq<char>| #[trigger]
            before.has_item(org_id@, id) ==> before.menu[id].sort_order
                < after.menu[shown.id@].sort_order,
        after == (Db {
            menu: before.menu.insert(shown.id@, after.menu[shown.id@]),
            ..before
        }),
{
    let out = Ok::<MenuItemOut, AppError>(shown);
    let (r1, mid1, s2) = soundness::lemma_one_turn(
        step->effect,
        step->job,
        before,
        out,
        after,
        turns,
    );
    let (r2, mid2, s3) = soundness::lemma_one_turn(
        s2->effect,
        s2->job,
        mid1,
        out,
        after,
        (turns - 1) as nat,
    );
    let (r3, mid3, s4) = soundness::lemma_one_turn(
        s3->effect,
        s3->job,
        mid2,
        out,
        after,
        (turns - 2) as nat,
    );
}

/// A new item is the last on the menu that is read afterwards.
pub proof fn law_created_item_is_last_on_the_menu(
    auth: AuthUser,
    org_id: String,
    item: MenuItemIn,
    fresh: Seq<char>,
    create: Step<MenuItemJob, MenuItemOut>,
    before: Db,
    created: MenuItemOut,
    mid: Db,
    create_turns: nat,
    shown: Vec<MenuItemOut>,
    after: Db,
    read_turns: nat,
)
    requires
        soundness::sound(before),
        menu::create_menu_item_asks(auth, org_id, item, fresh, create),
        store::run(create, before, Ok::<MenuItemOut, AppError>(created), mid, create_turns),
        store::run(
            Step::<ListingMenu, Vec<MenuItemOut>>::Await {
                effect: Effect::ListMenu { org_id },
                job: ListingMenu,
            },
            mid,
            Ok::<Vec<MenuItemOut>, AppError>(shown),
            after,
            read_turns,
        ),
    ensures
        after == mid,
        shown@.len() > 0,
        shown@.last()@ == created@,
{
    law_create_menu_item(auth, org_id, item, fresh, create, before, created, mid, create_turns);
    let (r, mid2, s) = soundness::lemma_one_turn(
        Effect::ListMenu { org_id },
        ListingMenu,
        mid,
        Ok::<Vec<MenuItemOut>, AppError>(shown),
        after,
        read_turns,
    );
    let listed = r->Menu_0@;
    let ids = choose|ids: Seq<Seq<char>>| #[trigger] store::shows_menu(mid, org_id@, ids, listed);
    let id = created.id@;
    assert(ids.contains(id));
    let p = choose|p: int| 0 <= p < ids.len() && ids[p] == id;
    let last = ids.len() - 1;
    if p != last {
        assert(ids.contains(ids[last]));
        assert(mid.has_item(org_id@, ids[last]));
        assert(ids[last] != id);
        assert(before.has_item(org_id@, ids[last]));
        assert(mid.menu[ids[p]].sort_order <= mid.menu[ids[last]].sort_order);
    }
    assert(shown@[last]@ == menu::shown_item(listed[last]@));
}

/// An item of the organisation that was changed has what the request gave, keeps
/// its id and its place, and is answered with, with its tags. Nothing else changes.
pub proof fn law_update_menu_item(
    auth: AuthUser,
    org_id: String,
    id: String,
    item: MenuItemIn,
    step: Step<MenuItemJob, MenuItemOut>,
    before: Db,
    shown: MenuItemOut,
    after: Db,
    turns: nat,
)
    requires
        menu::update_menu_item_asks(auth, org_id, id, item, step),
        store::run(step, before, Ok::<MenuItemOut, AppError>(shown), after, turns),
    ensures
        before.has_item(org_id@, id@) ==> {
            &&& shown@ == (MenuItemView { id: before.menu[id@].id, ..asked_item(item, id@) })
            &&& after == (Db {
                menu: before.menu.insert(
                    id@,
                    MenuRowView { fields: menu::kept_fields(item), ..before.menu[id@] },
                ),
                ..before
            })
        },
        !before.has_item(org_id@, id@) ==> after == before,
{
    let out = Ok::<MenuItemOut, AppError>(shown);
    let (r1, mid1, s2) = soundness::lemma_one_turn(
        step->effect,
        step->job,
        before,
        out,
        after,
        turns,
    );
    let (r2, mid2, s3) = soundness::lemma_one_turn(
        s2->effect,
        s2->job,
        mid1,
        out,
        after,
        (turns - 1) as nat,
    );
}

/// An item that was taken off is gone. Nothing else changes.
pub proof fn law_delete_menu_item(
    auth: AuthUser,
    org_id: String,
    id: String,
    step: Step<Changing, ()>,
    before: Db,
    after: Db,
    turns: nat,
)
    requires
        menu::delete_menu_item_asks(auth, org_id, id, step),
        store::run(step, before, Ok::<(), AppError>(()), after, turns),
    ensures
        !after.has_item(org_id@, id@),
        before.has_item(org_id@, id@) ==> after == (Db { menu: before.menu.remove(id@), ..before }),
        !before.has_item(org_id@, id@) ==> after == before,
{
    let out = Ok::<(), AppError>(());
    let (r1, mid1, s2) = soundness::lemma_one_turn(
        step->effect,
        step->job,
        before,
        out,
        after,
        turns,
    );
}

} // verus!

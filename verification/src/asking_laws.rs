//! What requests send to the store, field by field.

use vstd::prelude::*;

use crate::accounts;
use crate::accounts::AuthJob;
use crate::auth::AuthUser;
use crate::flow::{Changing, Effect, Job, Reply, Step, Totals};
use crate::menu;
use crate::menu::MenuItemJob;
use crate::orders;
use crate::orders::{NewOrder, OrderEvent, OrderJob};
use crate::orgs::OrgJob;
use crate::records::{
    AuthResponse, CreateTableBody, MenuFields, MenuItemIn, MenuItemOut, MenuRow, OrderItemRow,
    OrgOut, PlaceOrderItem, Price, RegisterBody, TableOut, UpdateOrgBody, UpdateTableBody,
};
use crate::tables;
use crate::tables::TableJob;
use crate::text;

verus! {

/// A registration sends the organisation with the name of the request, and then its
/// admin with the name and the address of the request.
pub proof fn law_registration_is_sent_as_given(
    body: RegisterBody,
    org_id: Seq<char>,
    user_id: Seq<char>,
    password_hash: Seq<char>,
    now: i64,
    secret: String,
    first: Step<AuthJob, AuthResponse>,
    second: Step<AuthJob, AuthResponse>,
)
    requires
        accounts::register_asks(body, org_id, user_id, password_hash, now, secret, first),
        first->job.turn(Reply::Changed, second),
    ensures
        first matches Step::Await { effect: Effect::InsertOrg { org, created_at }, .. } && {
            &&& org.id@ == org_id
            &&& org.name@ == body.org_name@
            &&& org.tagline@.len() == 0
            &&& created_at == now
        },
        second matches Step::Await { effect: Effect::InsertUser { user }, .. } && {
            &&& user.id@ == user_id
            &&& user.org_id@ == org_id
            &&& user.name@ == body.name@
            &&& user.email@ == text::lowercased(text::trimmed(body.email@))
            &&& user.password_hash@ == password_hash
            &&& user.created_at == now
        },
{
}

/// A new table is sent with the name of the request, trimmed, and its seats, of
/// which there is at least one.
pub proof fn law_new_table_is_sent_as_given(
    auth: AuthUser,
    org_id: String,
    body: CreateTableBody,
    client_origin: Seq<char>,
    id: String,
    now: i64,
    step: Step<TableJob, TableOut>,
)
    requires
        auth.org_id@ == org_id@,
        text::trimmed(body.name@).len() > 0,
        tables::create_table_asks(auth, org_id, body, client_origin, id, now, step),
    ensures
        step matches Step::Await { effect: Effect::InsertTable { org_id: org, table, created_at }, .. }
            && {
            &&& org@ == org_id@
            &&& table.id@ == id@
            &&& table.name@ == text::trimmed(body.name@)
            &&& table.seats >= 1
            &&& body.seats >= 1 ==> table.seats == body.seats
            &&& body.seats < 1 ==> table.seats == 1
            &&& table.qr_value@ == client_origin + "?orgId="@ + org_id@ + "&tableId="@ + id@
            &&& created_at == now
        },
{
    text::lemma_blank_trims_to_nothing(body.name@);
}

/// A change of a table is sent with what the request gives, and for the rest with
/// what the store answered.
pub proof fn law_table_change_is_sent_as_given(
    table_id: String,
    body: UpdateTableBody,
    current: TableOut,
    step: Step<TableJob, TableOut>,
)
    requires
        (TableJob::Reading { table_id, body }).turn(Reply::Table(current), step),
    ensures
        step matches Step::Await { effect: Effect::UpdateTable { table_id: id, name, seats }, .. } && {
            &&& id@ == table_id@
            &&& body.name is None ==> name@ == current.name@
            &&& body.name is Some ==> name@ == body.name->0@
            &&& body.seats is None ==> seats == current.seats
            &&& body.seats is Some ==> seats == body.seats->0
        },
{
}

/// A change of an organisation is sent with what the request gives, and for the
/// rest with what the store answered.
pub proof fn law_org_change_is_sent_as_given(
    org_id: String,
    body: UpdateOrgBody,
    current: OrgOut,
    step: Step<OrgJob, OrgOut>,
)
    requires
        (OrgJob::Reading { org_id, body }).turn(Reply::Org(current), step),
    ensures
        step matches Step::Await { effect: Effect::UpdateOrg { org }, .. } && {
            &&& org.id@ == org_id@
            &&& body.name is None ==> org.name@ == current.name@
            &&& body.name is Some ==> org.name@ == body.name->0@
            &&& body.tagline is None ==> org.tagline@ == current.tagline@
            &&& body.tagline is Some ==> org.tagline@ == body.tagline->0@
            &&& body.logo_initial is None ==> org.logo_initial@ == current.logo_initial@
            &&& body.logo_initial is Some ==> org.logo_initial@ == body.logo_initial->0@
            &&& body.theme is None ==> {
                &&& org.theme.primary@ == current.theme.primary@
                &&& org.theme.primary_dark@ == current.theme.primary_dark@
                &&& org.theme.accent@ == current.theme.accent@
                &&& org.theme.accent_soft@ == current.theme.accent_soft@
                &&& org.theme.background@ == current.theme.background@
                &&& org.theme.surface@ == current.theme.surface@
                &&& org.theme.text_primary@ == current.theme.text_primary@
                &&& org.theme.text_secondary@ == current.theme.text_secondary@
                &&& org.theme.border@ == current.theme.border@
            }
            &&& body.theme is Some ==> {
                &&& org.theme.primary@ == body.theme->0.primary@
                &&& org.theme.primary_dark@ == body.theme->0.primary_dark@
                &&& org.theme.accent@ == body.theme->0.accent@
                &&& org.theme.accent_soft@ == body.theme->0.accent_soft@
                &&& org.theme.background@ == body.theme->0.background@
                &&& org.theme.surface@ == body.theme->0.surface@
                &&& org.theme.text_primary@ == body.theme->0.text_primary@
                &&& org.theme.text_secondary@ == body.theme->0.text_secondary@
                &&& org.theme.border@ == body.theme->0.border@
            }
        },
{
    let org = step->effect->UpdateOrg_org;
    assert(org@.theme == org.theme@);
    assert(current@.theme == current.theme@);
}

/// The fields are those of the item in a request, one by one.
pub open spec fn as_sent(fields: MenuFields, item: MenuItemIn) -> bool {
    &&& fields.category@ == item.category@
    &&& fields.name@ == item.name@
    &&& fields.description@ == item.description@
    &&& fields.image@ == item.image@
    &&& fields.portion@ == item.portion@
    &&& fields.price == item.price
}

/// A menu is sent item by item, each with the fields of the request, in the
/// sequence of the request.
pub proof fn law_menu_is_sent_as_given(
    auth: AuthUser,
    org_id: String,
    items: Seq<MenuItemIn>,
    fresh: Seq<String>,
    step: Step<Changing, ()>,
)
    requires
        auth.org_id@ == org_id@,
        menu::save_menu_asks(auth, org_id, items, fresh, step),
    ensures
        step matches Step::Await { effect: Effect::ReplaceMenu { org_id: org, rows }, .. } && {
            &&& org@ == org_id@
            &&& rows@.len() == items.len()
            &&& forall|i: int|
                0 <= i < items.len() ==> {
                    let row = #[trigger] rows@[i];
                    &&& as_sent(row.fields, items[i])
                    &&& row.org_id@ == org_id@
                    &&& row.sort_order == i
                    &&& items[i].id is Some ==> row.id@ == items[i].id->0@
                    &&& items[i].id is None ==> row.id@ == fresh[i]@
                }
        },
{
    let rows = step->effect->ReplaceMenu_rows;
    assert forall|i: int| 0 <= i < items.len() implies {
        let row = #[trigger] rows@[i];
        &&& as_sent(row.fields, items[i])
        &&& row.org_id@ == org_id@
        &&& row.sort_order == i
        &&& items[i].id is Some ==> row.id@ == items[i].id->0@
        &&& items[i].id is None ==> row.id@ == fresh[i]@
    } by {
        assert(menu::is_row_of(rows@[i], items[i], org_id@, fresh[i]@, i));
    }
}

/// A new item is sent with the fields of the request, for the place that the store
/// answered; a change of an item likewise, under the id of the request.
pub proof fn law_item_is_sent_as_given(
    auth: AuthUser,
    org_id: String,
    id: String,
    item: MenuItemIn,
    fresh: Seq<char>,
    place: i64,
    first: Step<MenuItemJob, MenuItemOut>,
    second: Step<MenuItemJob, MenuItemOut>,
    change: Step<MenuItemJob, MenuItemOut>,
)
    requires
        auth.org_id@ == org_id@,
        menu::create_menu_item_asks(auth, org_id, item, fresh, first),
        first->job.turn(Reply::SortOrder(place), second),
        menu::update_menu_item_asks(auth, org_id, id, item, change),
    ensures
        second matches Step::Await { effect: Effect::InsertMenuItem { row }, .. } && {
            &&& as_sent(row.fields, item)
            &&& row.org_id@ == org_id@
            &&& row.sort_order == place
            &&& item.id is Some ==> row.id@ == item.id->0@
            &&& item.id is None ==> row.id@ == fresh
        },
        change matches Step::Await {
            effect: Effect::UpdateMenuItem { org_id: org, item_id, fields },
            ..
        } && {
            &&& as_sent(fields, item)
            &&& org@ == org_id@
            &&& item_id@ == id@
        },
{
}

/// An item is shown with the fields that the store answered.
pub proof fn law_item_is_shown_as_answered(
    row: MenuRow,
    step: Step<MenuItemJob, MenuItemOut>,
)
    requires
        MenuItemJob::Showing.turn(Reply::MenuItem(row), step),
    ensures
        step matches Step::Done(Ok(shown)) && {
            &&& shown.id@ == row.id@
            &&& shown.category@ == row.fields.category@
            &&& shown.name@ == row.fields.name@
            &&& shown.description@ == row.fields.description@
            &&& shown.image@ == row.fields.image@
            &&& shown.portion@ == row.fields.portion@
            &&& shown.price == row.fields.price
        },
{
}

/// The lines of an order are kept with the fields of the request, each at the
/// price that the store answered, or, where it answered none, at its own; what is
/// added up are these prices and the quantities.
pub proof fn law_lines_are_priced_as_answered(
    order: NewOrder,
    table_name: String,
    lines: Vec<PlaceOrderItem>,
    prices: Vec<Option<Price>>,
    step: Step<OrderJob, OrderEvent>,
)
    requires
        prices@.len() == lines@.len(),
        (OrderJob::Pricing { order, table_name, lines }).turn(Reply::Prices(prices), step),
    ensures
        step matches Step::Await {
            effect: Effect::TotalUp { lines: added },
            job: OrderJob::Totalling { items, .. },
        } && {
            &&& items@.len() == lines@.len()
            &&& added@.len() == lines@.len()
            &&& forall|i: int|
                0 <= i < lines@.len() ==> {
                    let kept = #[trigger] items@[i];
                    let line = lines@[i];
                    &&& kept.id@ == order.line_ids@[i]@
                    &&& kept.order_id@ == order.order_id@
                    &&& kept.name@ == line.name@
                    &&& kept.qty == line.qty
                    &&& kept.note@ == line.note@
                    &&& line.item_id is None ==> kept.menu_item_id is None
                    &&& line.item_id is Some ==> kept.menu_item_id is Some
                        && kept.menu_item_id->0@ == line.item_id->0@
                    &&& line.item_id is Some && prices@[i] is Some ==> kept.price == prices@[i]->0
                    &&& line.item_id is None || prices@[i] is None ==> kept.price == line.price
                    &&& added@[i].0 == kept.price
                    &&& added@[i].1 == kept.qty
                }
        },
{
    let items = step->job->Totalling_items;
    assert(orders::are_kept_lines(items@, lines@, prices@, order.order_id@, order.line_ids@));
    assert forall|i: int| 0 <= i < lines@.len() implies {
        let kept = #[trigger] items@[i];
        let line = lines@[i];
        &&& line.item_id is None ==> kept.menu_item_id is None
        &&& line.item_id is Some ==> kept.menu_item_id is Some && kept.menu_item_id->0@
            == line.item_id->0@
    } by {
        assert(items@[i]@.menu_item_id == orders::kept_line(
            lines@[i],
            prices@[i],
            order.order_id@,
            order.line_ids@[i]@,
        ).menu_item_id);
    }
}

/// An order is sent as new, for its table, with what it was counted to come to and
/// with its lines as they are, and was created and changed when it was placed.
pub proof fn law_order_is_sent_as_counted(
    order: NewOrder,
    table_name: String,
    items: Vec<OrderItemRow>,
    totals: Totals,
    step: Step<OrderJob, OrderEvent>,
)
    requires
        (OrderJob::Totalling { order, table_name, items }).turn(Reply::Totals(totals), step),
    ensures
        step matches Step::Await { effect: Effect::PlaceOrder { order: row, items: placed }, .. } && {
            &&& row.id@ == order.order_id@
            &&& row.org_id@ == order.org_id@
            &&& row.table_id@ == order.table_id@
            &&& row.table_name@ == table_name@
            &&& row.status@ == "new"@
            &&& row.subtotal == totals.subtotal
            &&& row.tax == totals.tax
            &&& row.total == totals.total
            &&& row.created_at == order.now
            &&& row.updated_at == order.now
            &&& placed == items
        },
{
}

} // verus!

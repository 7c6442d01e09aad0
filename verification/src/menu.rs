//! Menus.

use vstd::prelude::*;

use crate::auth::{ensure_own_org, AuthUser};
use crate::error::AppError;
use crate::flow;
use crate::flow::{Changing, Effect, Job, Reply, Step};
use crate::ids;
use crate::json;
use crate::records::{
    MenuFields, MenuFieldsView, MenuItemIn, MenuItemOut, MenuItemView, MenuRow, MenuRowView,
};

verus! {

/// A kept item as answers show it: with the tags that its text stands for.
pub open spec fn shown_item(row: MenuRowView) -> MenuItemView {
    MenuItemView {
        id: row.id,
        category: row.fields.category,
        name: row.fields.name,
        description: row.fields.description,
        image: row.fields.image,
        portion: row.fields.portion,
        price: row.fields.price,
        tags: json::stored_tags(row.fields.tags),
    }
}

pub fn menu_item_from_row(row: MenuRow) -> (r: MenuItemOut)
    ensures
        r@ == shown_item(row@),
{
    let tags = json::read_tags(row.fields.tags.as_str());
    MenuItemOut {
        id: row.id,
        category: row.fields.category,
        name: row.fields.name,
        description: row.fields.description,
        image: row.fields.image,
        portion: row.fields.portion,
        price: row.fields.price,
        tags,
    }
}

/// The answer shows the rows, one by one.
pub open spec fn shows_rows(shown: Seq<MenuItemOut>, rows: Seq<MenuRow>) -> bool {
    &&& shown.len() == rows.len()
    &&& forall|i: int| 0 <= i < rows.len() ==> (#[trigger] shown[i])@ == shown_item(rows[i]@)
}

/// The items of the rows, one by one.
pub fn menu_from_rows(rows: Vec<MenuRow>) -> (r: Vec<MenuItemOut>)
    ensures
        shows_rows(r@, rows@),
{
    let mut shown: Vec<MenuItemOut> = Vec::new();
    let ghost all = rows@;
    for row in it: rows
        invariant
            it.seq() == all,
            shown@.len() == it.index(),
            forall|i: int| 0 <= i < shown@.len() ==> (#[trigger] shown@[i])@ == shown_item(all[i]@),
    {
        shown.push(menu_item_from_row(row));
    }
    shown
}

/// What is kept of an item in a request besides where it stands.
pub open spec fn kept_fields(item: MenuItemIn) -> MenuFieldsView {
    MenuFieldsView {
        category: item.category@,
        name: item.name@,
        description: item.description@,
        image: item.image@,
        portion: item.portion@,
        price: item.price,
        tags: json::list_json(json::texts(item.tags@)),
    }
}

/// The id of an item in a request: its own, or else a fresh one.
pub open spec fn item_id(item: MenuItemIn, fresh: Seq<char>) -> Seq<char> {
    match item.id {
        Some(id) => id@,
        None => fresh,
    }
}

/// The fields to keep of an item in a request. The text of the tags stands for
/// just the tags of the item.
pub fn fields_of(item: MenuItemIn) -> (r: MenuFields)
    ensures
        r@ == kept_fields(item),
        json::stored_tags(r.tags@) == json::texts(item.tags@),
        json::json_list(r.tags@) == Some(json::texts(item.tags@)),
{
    let tags = json::write_tags(&item.tags);
    MenuFields {
        category: item.category,
        name: item.name,
        description: item.description,
        image: item.image,
        portion: item.portion,
        price: item.price,
        tags,
    }
}

/// The row to keep for an item in a request.
pub open spec fn is_row_of(
    row: MenuRow,
    item: MenuItemIn,
    org_id: Seq<char>,
    fresh: Seq<char>,
    sort_order: int,
) -> bool {
    &&& row.id@ == item_id(item, fresh)
    &&& row.org_id@ == org_id
    &&& row.fields@ == kept_fields(item)
    &&& row.sort_order == sort_order
    &&& json::stored_tags(row.fields.tags@) == json::texts(item.tags@)
    &&& json::json_list(row.fields.tags@) == Some(json::texts(item.tags@))
}

pub fn row_of(item: MenuItemIn, org_id: &String, fresh: String, sort_order: i64) -> (r: MenuRow)
    ensures
        is_row_of(r, item, org_id@, fresh@, sort_order as int),
{
    let mut item = item;
    let id = match item.id {
        Some(id) => id,
        None => fresh,
    };
    item.id = None;
    MenuRow { id, org_id: org_id.clone(), fields: fields_of(item), sort_order }
}

/// The rows to keep for the items of a request: the items in their sequence.
pub open spec fn are_rows_of(
    rows: Seq<MenuRow>,
    items: Seq<MenuItemIn>,
    org_id: Seq<char>,
    fresh: Seq<String>,
) -> bool {
    &&& rows.len() == items.len()
    &&& forall|i: int|
        0 <= i < rows.len() ==> is_row_of(#[trigger] rows[i], items[i], org_id, fresh[i]@, i)
}

/// The rows for a whole menu.
pub fn rows_of(items: Vec<MenuItemIn>, org_id: &String, fresh: Vec<String>) -> (r: Vec<MenuRow>)
    requires
        items@.len() <= i64::MAX,
        fresh@.len() == items@.len(),
    ensures
        are_rows_of(r@, items@, org_id@, fresh@),
        flow::menu_of(org_id@, r@),
{
    let mut rows: Vec<MenuRow> = Vec::new();
    let ghost all = items@;
    let mut next: i64 = 0;
    for item in it: items
        invariant
            it.seq() == all,
            all.len() <= i64::MAX,
            fresh@.len() == all.len(),
            next == it.index(),
            rows@.len() == it.index(),
            forall|i: int|
                0 <= i < rows@.len() ==> is_row_of(
                    #[trigger] rows@[i],
                    all[i],
                    org_id@,
                    fresh@[i]@,
                    i,
                ),
    {
        rows.push(row_of(item, org_id, fresh[next as usize].clone(), next));
        next = next + 1;
    }
    rows
}

/// The menu of an organisation was asked for.
#[derive(Debug)]
pub struct ListingMenu;

impl Job for ListingMenu {
    type Out = Vec<MenuItemOut>;

    open spec fn awaits(&self, reply: Reply) -> bool {
        reply is Failed || reply is Menu
    }

    open spec fn turns_left(&self) -> nat {
        1
    }

    open spec fn turn(&self, reply: Reply, step: Step<ListingMenu, Vec<MenuItemOut>>) -> bool {
        match reply {
            Reply::Failed(failure) => flow::fails_with(step, failure),
            _ => step matches Step::Done(Ok(shown)) && shows_rows(shown@, reply->Menu_0@),
        }
    }

    fn resume(self, reply: Reply) -> (step: Step<ListingMenu, Vec<MenuItemOut>>) {
        match reply {
            Reply::Failed(failure) => Step::Done(Err(AppError::from_store(&failure))),
            Reply::Menu(rows) => Step::Done(Ok(menu_from_rows(rows))),
            _ => vstd::pervasive::unreached(),
        }
    }

    proof fn goes_on_ready(&self, reply: Reply, step: Step<ListingMenu, Vec<MenuItemOut>>) {
    }
}

/// What is left to do of a request that is answered with an item.
#[derive(Debug)]
pub enum MenuItemJob {
    /// The place for a new item was asked for.
    Placing { id: String, org_id: String, fields: MenuFields },
    /// A new item was sent to the store, or a change of one.
    Changing { item_id: String },
    /// The item was asked for, to be shown.
    Showing,
}

impl Job for MenuItemJob {
    type Out = MenuItemOut;

    open spec fn awaits(&self, reply: Reply) -> bool {
        reply is Failed || match self {
            MenuItemJob::Placing { .. } => reply is SortOrder,
            MenuItemJob::Changing { .. } => reply is Changed,
            MenuItemJob::Showing => reply is MenuItem,
        }
    }

    open spec fn turns_left(&self) -> nat {
        match self {
            MenuItemJob::Placing { .. } => 3,
            MenuItemJob::Changing { .. } => 2,
            MenuItemJob::Showing => 1,
        }
    }

    open spec fn turn(&self, reply: Reply, step: Step<MenuItemJob, MenuItemOut>) -> bool {
        match reply {
            Reply::Failed(failure) => flow::fails_with(step, failure),
            _ => match self {
                MenuItemJob::Placing { id, org_id, fields } => step == Step::<
                    MenuItemJob,
                    MenuItemOut,
                >::Await {
                    effect: Effect::InsertMenuItem {
                        row: MenuRow {
                            id: *id,
                            org_id: *org_id,
                            fields: *fields,
                            sort_order: reply->SortOrder_0,
                        },
                    },
                    job: MenuItemJob::Changing { item_id: *id },
                },
                MenuItemJob::Changing { item_id } => step == Step::<
                    MenuItemJob,
                    MenuItemOut,
                >::Await {
                    effect: Effect::FindMenuItem { item_id: *item_id },
                    job: MenuItemJob::Showing,
                },
                MenuItemJob::Showing => {
                    &&& step matches Step::Done(Ok(shown))
                    &&& shown@ == shown_item(reply->MenuItem_0@)
                },
            },
        }
    }

    fn resume(self, reply: Reply) -> (step: Step<MenuItemJob, MenuItemOut>) {
        match reply {
            Reply::Failed(failure) => Step::Done(Err(AppError::from_store(&failure))),
            Reply::SortOrder(next) => match self {
                MenuItemJob::Placing { id, org_id, fields } => {
                    let row = MenuRow { id: id.clone(), org_id, fields, sort_order: next };
                    Step::Await {
                        effect: Effect::InsertMenuItem { row },
                        job: MenuItemJob::Changing { item_id: id },
                    }
                },
                _ => vstd::pervasive::unreached(),
            },
            Reply::Changed => match self {
                MenuItemJob::Changing { item_id } => Step::Await {
                    effect: Effect::FindMenuItem { item_id },
                    job: MenuItemJob::Showing,
                },
                _ => vstd::pervasive::unreached(),
            },
            Reply::MenuItem(row) => Step::Done(Ok(menu_item_from_row(row))),
            _ => vstd::pervasive::unreached(),
        }
    }

    proof fn goes_on_ready(&self, reply: Reply, step: Step<MenuItemJob, MenuItemOut>) {
    }
}

/// The menu of an organisation, for anyone.
pub fn get_menu(org_id: String) -> (step: Step<ListingMenu, Vec<MenuItemOut>>)
    ensures
        step == (Step::<ListingMenu, Vec<MenuItemOut>>::Await {
            effect: Effect::ListMenu { org_id },
            job: ListingMenu,
        }),
        flow::ready(step),
{
    Step::Await { effect: Effect::ListMenu { org_id }, job: ListingMenu }
}

pub open spec fn save_menu_asks(
    auth: AuthUser,
    org_id: String,
    items: Seq<MenuItemIn>,
    fresh: Seq<String>,
    step: Step<Changing, ()>,
) -> bool {
    if auth.org_id@ != org_id@ {
        flow::not_own_org(step)
    } else {
        &&& step matches Step::Await { effect: Effect::ReplaceMenu { org_id: org, rows }, job }
        &&& org == org_id
        &&& are_rows_of(rows@, items, org_id@, fresh)
    }
}

/// The whole menu of an organisation is replaced by the items, by one of its
/// admins. Items without an id get the fresh ones.
pub fn save_menu_as(
    auth: &AuthUser,
    org_id: String,
    items: Vec<MenuItemIn>,
    fresh: Vec<String>,
) -> (step: Step<Changing, ()>)
    requires
        items@.len() <= i64::MAX,
        fresh@.len() == items@.len(),
    ensures
        save_menu_asks(*auth, org_id, items@, fresh@, step),
        flow::ready(step),
{
    match ensure_own_org(auth, org_id.as_str()) {
        Ok(()) => {
            let rows = rows_of(items, &org_id, fresh);
            Step::Await { effect: Effect::ReplaceMenu { org_id, rows }, job: Changing }
        },
        Err(e) => Step::Done(Err(e)),
    }
}

/// The whole menu of an organisation is replaced by the items, by one of its admins.
pub fn save_menu(auth: &AuthUser, org_id: String, items: Vec<MenuItemIn>) -> (step: Step<
    Changing,
    (),
>)
    requires
        items@.len() <= i64::MAX,
    ensures
        exists|fresh: Seq<String>|
            fresh.len() == items@.len() && ids::are_random_uuids(fresh)
                && #[trigger] save_menu_asks(*auth, org_id, items@, fresh, step),
        flow::ready(step),
{
    let fresh = ids::new_ids(items.len());
    let ghost made = fresh@;
    let step = save_menu_as(auth, org_id, items, fresh);
    assert(save_menu_asks(*auth, org_id, items@, made, step));
    step
}

pub open spec fn create_menu_item_asks(
    auth: AuthUser,
    org_id: String,
    item: MenuItemIn,
    fresh: Seq<char>,
    step: Step<MenuItemJob, MenuItemOut>,
) -> bool {
    if auth.org_id@ != org_id@ {
        flow::not_own_org(step)
    } else {
        &&& step matches Step::Await {
            effect: Effect::NextSortOrder { org_id: asked },
            job: MenuItemJob::Placing { id, org_id: org, fields },
        }
        &&& asked == org_id
        &&& id@ == item_id(item, fresh)
        &&& org == org_id
        &&& fields@ == kept_fields(item)
        &&& json::stored_tags(fields.tags@) == json::texts(item.tags@)
        &&& json::json_list(fields.tags@) == Some(json::texts(item.tags@))
    }
}

/// A new item at the end of the menu of an organisation, by one of its admins.
/// Without an id it gets the fresh one.
pub fn create_menu_item_as(auth: &AuthUser, org_id: String, item: MenuItemIn, fresh: String) -> (step:
    Step<MenuItemJob, MenuItemOut>)
    ensures
        create_menu_item_asks(*auth, org_id, item, fresh@, step),
        flow::ready(step),
{
    match ensure_own_org(auth, org_id.as_str()) {
        Ok(()) => {
            let row = row_of(item, &org_id, fresh, 0);
            Step::Await {
                effect: Effect::NextSortOrder { org_id: org_id.clone() },
                job: MenuItemJob::Placing { id: row.id, org_id, fields: row.fields },
            }
        },
        Err(e) => Step::Done(Err(e)),
    }
}

/// A new item at the end of the menu of an organisation, by one of its admins.
pub fn create_menu_item(auth: &AuthUser, org_id: String, item: MenuItemIn) -> (step: Step<
    MenuItemJob,
    MenuItemOut,
>)
    ensures
        exists|fresh: Seq<char>|
            ids::is_random_uuid(fresh) && #[trigger] create_menu_item_asks(
                *auth,
                org_id,
                item,
                fresh,
                step,
            ),
        flow::ready(step),
{
    let fresh = ids::new_id();
    let ghost made = fresh@;
    let step = create_menu_item_as(auth, org_id, item, fresh);
    assert(create_menu_item_asks(*auth, org_id, item, made, step));
    step
}

pub open spec fn update_menu_item_asks(
    auth: AuthUser,
    org_id: String,
    id: String,
    item: MenuItemIn,
    step: Step<MenuItemJob, MenuItemOut>,
) -> bool {
    if auth.org_id@ != org_id@ {
        flow::not_own_org(step)
    } else {
        &&& step matches Step::Await {
            effect: Effect::UpdateMenuItem { org_id: org, item_id: changed, fields },
            job,
        }
        &&& org == org_id
        &&& changed == id
        &&& fields@ == kept_fields(item)
        &&& json::stored_tags(fields.tags@) == json::texts(item.tags@)
        &&& json::json_list(fields.tags@) == Some(json::texts(item.tags@))
        &&& job == MenuItemJob::Changing { item_id: id }
    }
}

/// A change of an item, by an admin of its organisation: all but the id and the
/// place is replaced.
pub fn update_menu_item(auth: &AuthUser, org_id: String, id: String, item: MenuItemIn) -> (step:
    Step<MenuItemJob, MenuItemOut>)
    ensures
        update_menu_item_asks(*auth, org_id, id, item, step),
        flow::ready(step),
{
    match ensure_own_org(auth, org_id.as_str()) {
        Ok(()) => Step::Await {
            effect: Effect::UpdateMenuItem { org_id, item_id: id.clone(), fields: fields_of(item) },
            job: MenuItemJob::Changing { item_id: id },
        },
        Err(e) => Step::Done(Err(e)),
    }
}

pub open spec fn delete_menu_item_asks(
    auth: AuthUser,
    org_id: String,
    id: String,
    step: Step<Changing, ()>,
) -> bool {
    if auth.org_id@ != org_id@ {
        flow::not_own_org(step)
    } else {
        step == Step::<Changing, ()>::Await {
            effect: Effect::DeleteMenuItem { org_id, item_id: id },
            job: Changing,
        }
    }
}

/// An item is taken off the menu, by an admin of its organisation.
pub fn delete_menu_item(auth: &AuthUser, org_id: String, id: String) -> (step: Step<Changing, ()>)
    ensures
        delete_menu_item_asks(*auth, org_id, id, step),
        flow::ready(step),
{
    match ensure_own_org(auth, org_id.as_str()) {
        Ok(()) => Step::Await {
            effect: Effect::DeleteMenuItem { org_id, item_id: id },
            job: Changing,
        },
        Err(e) => Step::Done(Err(e)),
    }
}

} // verus!

//! What becomes of the items of a menu: field by field, from the request to the
//! answer and to the store.

use vstd::prelude::*;

use crate::auth::AuthUser;
use crate::error::AppError;
use crate::flow::{Changing, Effect, Step};
use crate::json;
use crate::laws;
use crate::menu;
use crate::menu::{ListingMenu, MenuItemJob};
use crate::outcomes;
use crate::records::{MenuItemIn, MenuItemOut, MenuRow};
use crate::soundness;
use crate::store;
use crate::store::Db;

verus! {

/// The two lists hold the same texts in the same sequence.
pub open spec fn same_texts(a: Seq<String>, b: Seq<String>) -> bool {
    a.len() == b.len() && forall|i: int| 0 <= i < a.len() ==> (#[trigger] a[i])@ == b[i]@
}

proof fn lemma_same_texts(a: Seq<String>, b: Seq<String>)
    requires
        json::texts(a) == json::texts(b),
    ensures
        same_texts(a, b),
{
    assert(json::texts(a).len() == a.len());
    assert(json::texts(b).len() == b.len());
    assert forall|i: int| 0 <= i < a.len() implies (#[trigger] a[i])@ == b[i]@ by {
        assert(json::texts(a)[i] == a[i]@);
        assert(json::texts(b)[i] == b[i]@);
    }
}

/// Whoever saves a menu and reads it gets just the items that were sent, in the
/// sequence in which they were sent, field by field and tag by tag; those that had
/// no id have got a fresh one.
pub proof fn law_saved_items_are_read_as_sent(
    auth: AuthUser,
    org_id: String,
    items: Seq<MenuItemIn>,
    fresh: Seq<String>,
    save: Step<Changing, ()>,
    before: Db,
    saved: Db,
    save_turns: nat,
    shown: Vec<MenuItemOut>,
    after: Db,
    read_turns: nat,
)
    requires
        menu::save_menu_asks(auth, org_id, items, fresh, save),
        store::run(save, before, Ok::<(), AppError>(()), saved, save_turns),
        store::run(
            Step::<ListingMenu, Vec<MenuItemOut>>::Await {
                effect: Effect::ListMenu { org_id },
                job: ListingMenu,
            },
            saved,
            Ok::<Vec<MenuItemOut>, AppError>(shown),
            after,
            read_turns,
        ),
    ensures
        after == saved,
        shown@.len() == items.len(),
        forall|i: int|
            #![trigger shown@[i]]
            #![trigger items[i]]
            0 <= i < items.len() ==> {
                &&& items[i].id matches Some(id) ==> shown@[i].id@ == id@
                &&& items[i].id is None ==> shown@[i].id@ == fresh[i]@
                &&& shown@[i].category@ == items[i].category@
                &&& shown@[i].name@ == items[i].name@
                &&& shown@[i].description@ == items[i].description@
                &&& shown@[i].image@ == items[i].image@
                &&& shown@[i].portion@ == items[i].portion@
                &&& shown@[i].price == items[i].price
                &&& same_texts(shown@[i].tags@, items[i].tags@)
            },
{
    laws::law_saved_menu_is_read_back(
        auth,
        org_id,
        items,
        fresh,
        save,
        before,
        saved,
        save_turns,
        shown,
        after,
        read_turns,
    );
    assert forall|i: int|
        #![trigger shown@[i]]
        #![trigger items[i]]
        0 <= i < items.len() implies {
        &&& items[i].id matches Some(id) ==> shown@[i].id@ == id@
        &&& items[i].id is None ==> shown@[i].id@ == fresh[i]@
        &&& shown@[i].category@ == items[i].category@
        &&& shown@[i].name@ == items[i].name@
        &&& shown@[i].description@ == items[i].description@
        &&& shown@[i].image@ == items[i].image@
        &&& shown@[i].portion@ == items[i].portion@
        &&& shown@[i].price == items[i].price
        &&& same_texts(shown@[i].tags@, items[i].tags@)
    } by {
        assert(shown@[i]@ == laws::asked_item(items[i], fresh[i]@));
        lemma_same_texts(shown@[i].tags@, items[i].tags@);
    }
}

/// Saving a menu leaves the menus of the other organisations, and all else, as they
/// were; and of its own menu nothing that was not sent.
pub proof fn law_saving_replaces_the_menu(
    auth: AuthUser,
    org_id: String,
    items: Seq<MenuItemIn>,
    fresh: Seq<String>,
    save: Step<Changing, ()>,
    before: Db,
    after: Db,
    turns: nat,
)
    requires
        menu::save_menu_asks(auth, org_id, items, fresh, save),
        store::run(save, before, Ok::<(), AppError>(()), after, turns),
    ensures
        forall|id: Seq<char>| #[trigger]
            before.menu.contains_key(id) && before.menu[id].org_id != org_id@
                ==> after.menu.contains_key(id) && after.menu[id] == before.menu[id],
        forall|i: int|
            0 <= i < items.len() ==> {
                let id = match (#[trigger] items[i]).id {
                    Some(id) => id@,
                    None => fresh[i]@,
                };
                &&& after.menu.contains_key(id)
                &&& after.menu[id].org_id == org_id@
                &&& after.menu[id].sort_order == i
                &&& after.menu[id].fields.category == items[i].category@
                &&& after.menu[id].fields.name == items[i].name@
                &&& after.menu[id].fields.description == items[i].description@
                &&& after.menu[id].fields.image == items[i].image@
                &&& after.menu[id].fields.portion == items[i].portion@
                &&& after.menu[id].fields.price == items[i].price
                &&& json::json_list(after.menu[id].fields.tags) == Some(json::texts(items[i].tags@))
            },
        forall|id: Seq<char>| #[trigger]
            after.menu.contains_key(id) && after.menu[id].org_id == org_id@ ==> exists|i: int|
                #![trigger items[i]]
                0 <= i < items.len() && id == (match items[i].id {
                    Some(own) => own@,
                    None => fresh[i]@,
                }),
        after.orgs == before.orgs,
        after.users == before.users,
        after.tables == before.tables,
        after.orders == before.orders,
        after.order_items == before.order_items,
{
    let (r1, mid1, s2) = soundness::lemma_one_turn(
        save->effect,
        save->job,
        before,
        Ok::<(), AppError>(()),
        after,
        turns,
    );
    let rows = save->effect->ReplaceMenu_rows@;
    let others = store::other_menus(before.menu, org_id@);
    soundness::lemma_with_rows(others, rows);
    assert forall|id: Seq<char>| #[trigger]
        before.menu.contains_key(id) && before.menu[id].org_id != org_id@ implies after.menu.contains_key(
        id,
    ) && after.menu[id] == before.menu[id] by {
        assert(others.contains_key(id));
    }
    assert forall|i: int| 0 <= i < items.len() implies {
        let id = match (#[trigger] items[i]).id {
            Some(id) => id@,
            None => fresh[i]@,
        };
        &&& after.menu.contains_key(id)
        &&& after.menu[id].org_id == org_id@
        &&& after.menu[id].sort_order == i
        &&& after.menu[id].fields.category == items[i].category@
        &&& after.menu[id].fields.name == items[i].name@
        &&& after.menu[id].fields.description == items[i].description@
        &&& after.menu[id].fields.image == items[i].image@
        &&& after.menu[id].fields.portion == items[i].portion@
        &&& after.menu[id].fields.price == items[i].price
        &&& json::json_list(after.menu[id].fields.tags) == Some(json::texts(items[i].tags@))
    } by {
        assert(menu::is_row_of(rows[i], items[i], org_id@, fresh[i]@, i));
        assert(after.menu[rows[i].id@] == rows[i]@);
        assert(rows[i]@.fields == rows[i].fields@);
    }
    assert forall|id: Seq<char>| #[trigger]
        after.menu.contains_key(id) && after.menu[id].org_id == org_id@ implies exists|i: int|
        #![trigger items[i]]
        0 <= i < items.len() && id == (match items[i].id {
            Some(own) => own@,
            None => fresh[i]@,
        }) by {
        if others.contains_key(id) {
            assert(before.menu[id].org_id != org_id@);
            assert(after.menu[id] == others[id]);
        }
        let i = choose|i: int| 0 <= i < rows.len() && (#[trigger] rows[i]).id@ == id;
        assert(menu::is_row_of(rows[i], items[i], org_id@, fresh[i]@, i));
    }
}

/// A new item is kept for the organisation with every field of the request and all
/// its tags, with the id of the request or else the fresh one, behind all others of
/// its menu; and it is answered with so. Nothing else changes.
pub proof fn law_new_item_has_what_was_sent(
    auth: AuthUser,
    org_id: String,
    item: MenuItemIn,
    fresh: Seq<char>,
    step: Step<MenuItemJob, MenuItemOut>,
    before: Db,
    answer: MenuItemOut,
    after: Db,
    turns: nat,
)
    requires
        menu::create_menu_item_asks(auth, org_id, item, fresh, step),
        store::run(step, before, Ok::<MenuItemOut, AppError>(answer), after, turns),
    ensures
        item.id matches Some(id) ==> answer.id@ == id@,
        item.id is None ==> answer.id@ == fresh,
        answer.category@ == item.category@,
        answer.name@ == item.name@,
        answer.description@ == item.description@,
        answer.image@ == item.image@,
        answer.portion@ == item.portion@,
        answer.price == item.price,
        same_texts(answer.tags@, item.tags@),
        !before.menu.contains_key(answer.id@),
        after.menu.contains_key(answer.id@),
        ({
            let kept = after.menu[answer.id@];
            &&& kept.org_id == org_id@
            &&& kept.fields.category == item.category@
            &&& kept.fields.name == item.name@
            &&& kept.fields.description == item.description@
            &&& kept.fields.image == item.image@
            &&& kept.fields.portion == item.portion@
            &&& kept.fields.price == item.price
            &&& json::json_list(kept.fields.tags) == Some(json::texts(item.tags@))
            &&& forall|id: Seq<char>| #[trigger]
                before.menu.contains_key(id) && before.menu[id].org_id == org_id@
                    ==> before.menu[id].sort_order < kept.sort_order
        }),
        after.menu == before.menu.insert(answer.id@, after.menu[answer.id@]),
        after.orgs == before.orgs,
        after.users == before.users,
        after.tables == before.tables,
        after.orders == before.orders,
        after.order_items == before.order_items,
{
    laws::law_create_menu_item(auth, org_id, item, fresh, step, before, answer, after, turns);
    lemma_same_texts(answer.tags@, item.tags@);
    assert forall|id: Seq<char>| #[trigger]
        before.menu.contains_key(id) && before.menu[id].org_id == org_id@ implies before.menu[id].sort_order
        < after.menu[answer.id@].sort_order by {
        assert(before.has_item(org_id@, id));
    }
    assert(step->job->fields.tags@ == after.menu[answer.id@].fields.tags);
}

/// A change of an item of the organisation replaces every field of it by that of
/// the request, and all its tags; it keeps its id and its place, and is answered
/// with so. Nothing else changes.
pub proof fn law_changed_item_has_what_was_sent(
    auth: AuthUser,
    org_id: String,
    id: String,
    item: MenuItemIn,
    step: Step<MenuItemJob, MenuItemOut>,
    before: Db,
    answer: MenuItemOut,
    after: Db,
    turns: nat,
)
    requires
        soundness::sound(before),
        before.menu.contains_key(id@),
        before.menu[id@].org_id == org_id@,
        menu::update_menu_item_asks(auth, org_id, id, item, step),
        store::run(step, before, Ok::<MenuItemOut, AppError>(answer), after, turns),
    ensures
        answer.id@ == id@,
        answer.category@ == item.category@,
        answer.name@ == item.name@,
        answer.description@ == item.description@,
        answer.image@ == item.image@,
        answer.portion@ == item.portion@,
        answer.price == item.price,
        same_texts(answer.tags@, item.tags@),
        after.menu.contains_key(id@),
        ({
            let kept = after.menu[id@];
            &&& kept.id == id@
            &&& kept.org_id == org_id@
            &&& kept.sort_order == before.menu[id@].sort_order
            &&& kept.fields.category == item.category@
            &&& kept.fields.name == item.name@
            &&& kept.fields.description == item.description@
            &&& kept.fields.image == item.image@
            &&& kept.fields.portion == item.portion@
            &&& kept.fields.price == item.price
            &&& json::json_list(kept.fields.tags) == Some(json::texts(item.tags@))
        }),
        after.menu == before.menu.insert(id@, after.menu[id@]),
        after.orgs == before.orgs,
        after.users == before.users,
        after.tables == before.tables,
        after.orders == before.orders,
        after.order_items == before.order_items,
{
    assert(before.has_item(org_id@, id@));
    laws::law_update_menu_item(auth, org_id, id, item, step, before, answer, after, turns);
    lemma_same_texts(answer.tags@, item.tags@);
    let (r1, mid1, s2) = soundness::lemma_one_turn(
        step->effect,
        step->job,
        before,
        Ok::<MenuItemOut, AppError>(answer),
        after,
        turns,
    );
    assert(step->effect->UpdateMenuItem_fields.tags@ == after.menu[id@].fields.tags);
}

/// A menu is listed field by field as it is kept: every item of the organisation
/// once, none of another, in the order of their places. The tags are those that the
/// text that is kept stands for, and none where it stands for none.
pub proof fn law_menu_is_listed_as_kept(
    org_id: String,
    before: Db,
    out: Result<Vec<MenuItemOut>, AppError>,
    after: Db,
    turns: nat,
)
    requires
        soundness::sound(before),
        store::steady_run(
            Step::<ListingMenu, Vec<MenuItemOut>>::Await {
                effect: Effect::ListMenu { org_id },
                job: ListingMenu,
            },
            before,
            out,
            after,
            turns,
        ),
    ensures
        after == before,
        out is Ok,
        forall|i: int|
            0 <= i < out->Ok_0@.len() ==> {
                let shown = #[trigger] out->Ok_0@[i];
                let kept = before.menu[shown.id@];
                &&& before.menu.contains_key(shown.id@)
                &&& kept.org_id == org_id@
                &&& shown.category@ == kept.fields.category
                &&& shown.name@ == kept.fields.name
                &&& shown.description@ == kept.fields.description
                &&& shown.image@ == kept.fields.image
                &&& shown.portion@ == kept.fields.portion
                &&& shown.price == kept.fields.price
                &&& json::json_list(kept.fields.tags) matches Some(tags) ==> json::texts(
                    shown.tags@,
                ) == tags
                &&& json::json_list(kept.fields.tags) is None ==> shown.tags@.len() == 0
            },
        forall|i: int, j: int|
            0 <= i < j < out->Ok_0@.len() ==> {
                let (a, b) = (#[trigger] out->Ok_0@[i], #[trigger] out->Ok_0@[j]);
                &&& a.id@ != b.id@
                &&& before.menu[a.id@].sort_order <= before.menu[b.id@].sort_order
            },
        forall|id: Seq<char>| #[trigger]
            before.menu.contains_key(id) && before.menu[id].org_id == org_id@ ==> exists|i: int|
                0 <= i < out->Ok_0@.len() && (#[trigger] out->Ok_0@[i]).id@ == id,
{
    outcomes::law_menu_is_listed(org_id, before, out, after, turns);
    let shown = out->Ok_0@;
    let (ids, rows) = choose|ids: Seq<Seq<char>>, rows: Seq<MenuRow>| #[trigger]
        store::shows_menu(before, org_id@, ids, rows) && menu::shows_rows(shown, rows);
    let wanted = |id: Seq<char>| before.has_item(org_id@, id);
    assert(store::lists(ids, wanted));
    assert forall|i: int| 0 <= i < shown.len() implies {
        let one = #[trigger] shown[i];
        let kept = before.menu[one.id@];
        &&& one.id@ == ids[i]
        &&& before.menu.contains_key(one.id@)
        &&& kept.org_id == org_id@
        &&& one.category@ == kept.fields.category
        &&& one.name@ == kept.fields.name
        &&& one.description@ == kept.fields.description
        &&& one.image@ == kept.fields.image
        &&& one.portion@ == kept.fields.portion
        &&& one.price == kept.fields.price
        &&& json::json_list(kept.fields.tags) matches Some(tags) ==> json::texts(one.tags@) == tags
        &&& json::json_list(kept.fields.tags) is None ==> one.tags@.len() == 0
    } by {
        assert(ids.contains(ids[i]));
        assert(wanted(ids[i]));
        assert(rows[i]@ == before.menu[ids[i]]);
        assert(shown[i]@ == menu::shown_item(rows[i]@));
        assert(shown[i]@.tags == json::texts(shown[i].tags@));
        assert(json::texts(shown[i].tags@).len() == shown[i].tags@.len());
    }
    assert forall|i: int, j: int| 0 <= i < j < shown.len() implies {
        let (a, b) = (#[trigger] shown[i], #[trigger] shown[j]);
        &&& a.id@ != b.id@
        &&& before.menu[a.id@].sort_order <= before.menu[b.id@].sort_order
    } by {
        assert(shown[i].id@ == ids[i] && shown[j].id@ == ids[j]);
        assert(before.menu[ids[i]].sort_order <= before.menu[ids[j]].sort_order);
    }
    assert forall|id: Seq<char>| #[trigger]
        before.menu.contains_key(id) && before.menu[id].org_id == org_id@ implies exists|i: int|
        0 <= i < shown.len() && (#[trigger] shown[i]).id@ == id by {
        assert(wanted(id));
        assert(ids.contains(id));
        let i = choose|i: int| 0 <= i < ids.len() && ids[i] == id;
        assert(shown[i].id@ == id);
    }
}

} // verus!

//! What a store without organisations holds once it was seeded.

use vstd::prelude::*;

use crate::auth;
use crate::error::AppError;
use crate::flow::Effect;
use crate::records::Price;
use crate::seed;
use crate::seed::Demo;
use crate::seed_laws;
use crate::store;
use crate::store::{Db, OrgRecord};

verus! {

/// The store was without organisations, and was seeded with a fresh demo.
pub open spec fn was_seeded(
    demo: Demo,
    client_origin: String,
    now: i64,
    before: Db,
    after: Db,
    turns: nat,
) -> bool {
    &&& seed::fresh_demo(demo, client_origin, now)
    &&& before.orgs == Map::<Seq<char>, OrgRecord>::empty()
    &&& store::run(seed_laws::seeding(demo), before, Ok::<(), AppError>(()), after, turns)
}

/// What was added, one after the other.
proof fn lemma_added(demo: Demo, before: Db, after: Db, turns: nat) -> (effects: Seq<Effect>)
    requires
        demo.complete(),
        before.orgs == Map::<Seq<char>, OrgRecord>::empty(),
        store::run(seed_laws::seeding(demo), before, Ok::<(), AppError>(()), after, turns),
    ensures
        seed::adds_demo(effects, demo, (before.tally)(seed::demo_amounts())),
        after == seed_laws::with_all(before, effects),
        forall|i: int| 0 <= i < effects.len() ==> seed_laws::holds(after, #[trigger] effects[i]),
{
    seed_laws::law_seeding_fills_an_empty_store(demo, before, after, turns);
    choose|effects: Seq<Effect>| #[trigger]
        seed::adds_demo(effects, demo, (before.tally)(seed::demo_amounts())) && after
            == seed_laws::with_all(before, effects) && forall|i: int|
            0 <= i < effects.len() ==> seed_laws::holds(after, #[trigger] effects[i])
}

/// The seeded organisation and its one admin, whose password is known.
pub proof fn law_demo_organisation(
    demo: Demo,
    client_origin: String,
    now: i64,
    before: Db,
    after: Db,
    turns: nat,
)
    requires
        was_seeded(demo, client_origin, now, before, after, turns),
    ensures
        ({
            let org = after.orgs["123"@];
            let admin_id = demo.ids@[0]@;
            let admin = after.users[admin_id];
            &&& after.orgs.contains_key("123"@)
            &&& org.org.id == "123"@
            &&& org.org.name == "The Wayfarer"@
            &&& org.org.tagline == "Kitchen & Bar"@
            &&& org.org.logo_initial == "W"@
            &&& org.org.theme.primary == "#1F4D3E"@
            &&& org.org.theme.primary_dark == "#123328"@
            &&& org.org.theme.accent == "#C9A15F"@
            &&& org.org.theme.accent_soft == "#F3E9D2"@
            &&& org.org.theme.background == "#FBF8F2"@
            &&& org.org.theme.surface == "#FFFFFF"@
            &&& org.org.theme.text_primary == "#20241F"@
            &&& org.org.theme.text_secondary == "#71786D"@
            &&& org.org.theme.border == "#E9E4D6"@
            &&& org.created_at == now
            &&& after.users.contains_key(admin_id)
            &&& admin.id == admin_id
            &&& admin.org_id == "123"@
            &&& admin.name == "Demo Admin"@
            &&& admin.email == "admin@wayfarer.test"@
            &&& admin.created_at == now
            &&& auth::hash_fault(admin.password_hash) is None
            &&& auth::password_fits("wayfarer123"@, admin.password_hash)
        }),
{
    let effects = lemma_added(demo, before, after, turns);
    assert(seed_laws::holds(after, effects[0]));
    assert(seed_laws::holds(after, effects[1]));
}

/// The demo organisation has this table since then, and the link for guests leads
/// to it.
pub open spec fn has_demo_table(
    db: Db,
    id: Seq<char>,
    name: Seq<char>,
    seats: i64,
    client_origin: String,
    now: i64,
) -> bool {
    let kept = db.tables[id];
    &&& db.tables.contains_key(id)
    &&& kept.org_id == "123"@
    &&& kept.created_at == now
    &&& kept.table.id == id
    &&& kept.table.name == name
    &&& kept.table.seats == seats
    &&& kept.table.qr_value == client_origin@ + "?orgId="@ + "123"@ + "&tableId="@ + id
}

/// The three tables of the demo organisation.
pub proof fn law_demo_tables(
    demo: Demo,
    client_origin: String,
    now: i64,
    before: Db,
    after: Db,
    turns: nat,
)
    requires
        was_seeded(demo, client_origin, now, before, after, turns),
    ensures
        has_demo_table(after, demo.ids@[1]@, "Table 1"@, 2, client_origin, now),
        has_demo_table(after, demo.ids@[2]@, "Table 4"@, 4, client_origin, now),
        has_demo_table(after, demo.ids@[3]@, "Patio 2"@, 6, client_origin, now),
{
    let effects = lemma_added(demo, before, after, turns);
    assert(seed_laws::holds(after, effects[2]));
    assert(seed_laws::holds(after, effects[3]));
    assert(seed_laws::holds(after, effects[4]));
}

/// The dish or drink is on the menu of the demo organisation at this place, for the
/// price that these are the bits of, with neither a picture nor a portion.
pub open spec fn has_demo_item(
    db: Db,
    id: Seq<char>,
    category: Seq<char>,
    name: Seq<char>,
    description: Seq<char>,
    price_bits: u64,
    tags: Seq<char>,
    sort_order: i64,
) -> bool {
    let kept = db.menu[id];
    &&& db.menu.contains_key(id)
    &&& kept.id == id
    &&& kept.org_id == "123"@
    &&& kept.fields.category == category
    &&& kept.fields.name == name
    &&& kept.fields.description == description
    &&& kept.fields.image.len() == 0
    &&& kept.fields.portion.len() == 0
    &&& kept.fields.price.bits == price_bits
    &&& kept.fields.tags == tags
    &&& kept.sort_order == sort_order
}

/// The six dishes and drinks of the demo organisation; the prices are 16, 11, 46,
/// 24, 12 and 17.
pub proof fn law_demo_menu(
    demo: Demo,
    client_origin: String,
    now: i64,
    before: Db,
    after: Db,
    turns: nat,
)
    requires
        was_seeded(demo, client_origin, now, before, after, turns),
    ensures
        has_demo_item(
            after,
            demo.ids@[4]@,
            "starters"@,
            "Burrata & Heirloom Tomato"@,
            "Creamy burrata, heirloom tomatoes, basil oil, aged balsamic."@,
            0x4030_0000_0000_0000,
            "[\"veg\",\"popular\"]"@,
            0,
        ),
        has_demo_item(
            after,
            demo.ids@[5]@,
            "starters"@,
            "Soup of the Day"@,
            "Ask your server for today's selection."@,
            0x4026_0000_0000_0000,
            "[\"veg\"]"@,
            1,
        ),
        has_demo_item(
            after,
            demo.ids@[6]@,
            "mains"@,
            "Grilled Ribeye"@,
            "14oz, chimichurri, triple-cooked fries."@,
            0x4047_0000_0000_0000,
            "[\"popular\"]"@,
            2,
        ),
        has_demo_item(
            after,
            demo.ids@[7]@,
            "mains"@,
            "Wild Mushroom Risotto"@,
            "Truffle oil, aged parmesan, wild arugula."@,
            0x4038_0000_0000_0000,
            "[\"veg\"]"@,
            3,
        ),
        has_demo_item(
            after,
            demo.ids@[8]@,
            "desserts"@,
            "Chocolate Fondant"@,
            "Vanilla bean ice cream, salted caramel."@,
            0x4028_0000_0000_0000,
            "[\"popular\"]"@,
            4,
        ),
        has_demo_item(
            after,
            demo.ids@[9]@,
            "drinks"@,
            "Old Fashioned"@,
            "Bourbon, bitters, orange oil."@,
            0x4031_0000_0000_0000,
            "[\"popular\"]"@,
            5,
        ),
{
    let effects = lemma_added(demo, before, after, turns);
    assert(seed_laws::holds(after, effects[5]));
    assert(seed_laws::holds(after, effects[6]));
    assert(seed_laws::holds(after, effects[7]));
    assert(seed_laws::holds(after, effects[8]));
    assert(seed_laws::holds(after, effects[9]));
    assert(seed_laws::holds(after, effects[10]));
}

/// The demo order: one of the first item and two of the third, as they stand on
/// the menu, placed nine minutes ago for the second table, and being prepared. It
/// comes to what the store counts for these lines.
pub proof fn law_demo_order(
    demo: Demo,
    client_origin: String,
    now: i64,
    before: Db,
    after: Db,
    turns: nat,
)
    requires
        was_seeded(demo, client_origin, now, before, after, turns),
    ensures
        ({
            let order_id = demo.ids@[10]@;
            let order = after.orders[order_id];
            let first = after.order_items[demo.ids@[11]@];
            let second = after.order_items[demo.ids@[12]@];
            let totals = (before.tally)(
                seq![
                    (Price { bits: 0x4030_0000_0000_0000 }, 1i64),
                    (Price { bits: 0x4047_0000_0000_0000 }, 2i64),
                ],
            );
            &&& after.orders.contains_key(order_id)
            &&& order.id == order_id
            &&& order.org_id == "123"@
            &&& order.table_id == demo.ids@[2]@
            &&& order.table_name == "Table 4"@
            &&& order.status == "preparing"@
            &&& order.created_at == now - 540_000
            &&& order.updated_at == now
            &&& order.subtotal == totals.subtotal
            &&& order.tax == totals.tax
            &&& order.total == totals.total
            &&& after.order_items.contains_key(demo.ids@[11]@)
            &&& first.id == demo.ids@[11]@
            &&& first.order_id == order_id
            &&& first.menu_item_id == Some(demo.ids@[4]@)
            &&& first.name == "Burrata & Heirloom Tomato"@
            &&& first.price.bits == 0x4030_0000_0000_0000
            &&& first.qty == 1
            &&& first.note.len() == 0
            &&& after.order_items.contains_key(demo.ids@[12]@)
            &&& second.id == demo.ids@[12]@
            &&& second.order_id == order_id
            &&& second.menu_item_id == Some(demo.ids@[6]@)
            &&& second.name == "Grilled Ribeye"@
            &&& second.price.bits == 0x4047_0000_0000_0000
            &&& second.qty == 2
            &&& second.note.len() == 0
        }),
{
    let effects = lemma_added(demo, before, after, turns);
    assert(seed_laws::holds(after, effects[11]));
    assert(seed_laws::holds(after, effects[12]));
    assert(seed_laws::holds(after, effects[13]));
}

/// The effect adds a record under the id to what the two stores differ in.
spec fn accounts_for(a: Db, b: Db, id: Seq<char>, effects: Seq<Effect>) -> bool {
    &&& b.orgs.contains_key(id) && !a.orgs.contains_key(id) ==> exists|i: int|
        0 <= i < effects.len() && (#[trigger] effects[i] matches Effect::InsertOrg { org, .. }
            && org.id@ == id)
    &&& b.users.contains_key(id) && !a.users.contains_key(id) ==> exists|i: int|
        0 <= i < effects.len() && (#[trigger] effects[i] matches Effect::InsertUser { user }
            && user.id@ == id)
    &&& b.tables.contains_key(id) && !a.tables.contains_key(id) ==> exists|i: int|
        0 <= i < effects.len() && (#[trigger] effects[i] matches Effect::InsertTable { table, .. }
            && table.id@ == id)
    &&& b.menu.contains_key(id) && !a.menu.contains_key(id) ==> exists|i: int|
        0 <= i < effects.len() && (#[trigger] effects[i] matches Effect::InsertMenuItem { row }
            && row.id@ == id)
    &&& b.orders.contains_key(id) && !a.orders.contains_key(id) ==> exists|i: int|
        0 <= i < effects.len() && (#[trigger] effects[i] matches Effect::InsertOrder { order }
            && order.id@ == id)
    &&& b.order_items.contains_key(id) && !a.order_items.contains_key(id) ==> exists|i: int|
        0 <= i < effects.len() && (#[trigger] effects[i] matches Effect::InsertOrderItem { item }
            && item.id@ == id)
}

proof fn lemma_all_accounted_for(db: Db, effects: Seq<Effect>, id: Seq<char>)
    requires
        seed::all_add_one(effects),
    ensures
        accounts_for(db, seed_laws::with_all(db, effects), id, effects),
    decreases effects.len(),
{
    if effects.len() > 0 {
        let mid = store::changed(db, effects[0]);
        let rest = effects.drop_first();
        let after = seed_laws::with_all(db, effects);
        assert(seed::adds_one(effects[0]));
        assert forall|i: int| 0 <= i < rest.len() implies seed::adds_one(#[trigger] rest[i])
            && crate::flow::proper(rest[i]) by {
            assert(rest[i] == effects[i + 1]);
        }
        lemma_all_accounted_for(mid, rest, id);
        assert forall|i: int| 0 <= i < rest.len() implies #[trigger] rest[i] == effects[i + 1] by {}
        if after.orgs.contains_key(id) && !mid.orgs.contains_key(id) {
            let i = choose|i: int|
                0 <= i < rest.len() && (#[trigger] rest[i] matches Effect::InsertOrg { org, .. }
                    && org.id@ == id);
            assert(rest[i] == effects[i + 1]);
        }
        if after.users.contains_key(id) && !mid.users.contains_key(id) {
            let i = choose|i: int|
                0 <= i < rest.len() && (#[trigger] rest[i] matches Effect::InsertUser { user }
                    && user.id@ == id);
            assert(rest[i] == effects[i + 1]);
        }
        if after.tables.contains_key(id) && !mid.tables.contains_key(id) {
            let i = choose|i: int|
                0 <= i < rest.len() && (#[trigger] rest[i] matches Effect::InsertTable { table, .. }
                    && table.id@ == id);
            assert(rest[i] == effects[i + 1]);
        }
        if after.menu.contains_key(id) && !mid.menu.contains_key(id) {
            let i = choose|i: int|
                0 <= i < rest.len() && (#[trigger] rest[i] matches Effect::InsertMenuItem { row }
                    && row.id@ == id);
            assert(rest[i] == effects[i + 1]);
        }
        if after.orders.contains_key(id) && !mid.orders.contains_key(id) {
            let i = choose|i: int|
                0 <= i < rest.len() && (#[trigger] rest[i] matches Effect::InsertOrder { order }
                    && order.id@ == id);
            assert(rest[i] == effects[i + 1]);
        }
        if after.order_items.contains_key(id) && !mid.order_items.contains_key(id) {
            let i = choose|i: int|
                0 <= i < rest.len() && (#[trigger] rest[i] matches Effect::InsertOrderItem { item }
                    && item.id@ == id);
            assert(rest[i] == effects[i + 1]);
        }
    }
}

/// Seeding adds nothing else: one organisation, one admin, three tables, six items,
/// one order and its two lines.
pub proof fn law_demo_is_all_that_is_added(
    demo: Demo,
    client_origin: String,
    now: i64,
    before: Db,
    after: Db,
    turns: nat,
    id: Seq<char>,
)
    requires
        was_seeded(demo, client_origin, now, before, after, turns),
    ensures
        after.orgs.contains_key(id) ==> id == "123"@,
        after.users.contains_key(id) && !before.users.contains_key(id) ==> id == demo.ids@[0]@,
        after.tables.contains_key(id) && !before.tables.contains_key(id) ==> id == demo.ids@[1]@
            || id == demo.ids@[2]@ || id == demo.ids@[3]@,
        after.menu.contains_key(id) && !before.menu.contains_key(id) ==> id == demo.ids@[4]@ || id
            == demo.ids@[5]@ || id == demo.ids@[6]@ || id == demo.ids@[7]@ || id == demo.ids@[8]@
            || id == demo.ids@[9]@,
        after.orders.contains_key(id) && !before.orders.contains_key(id) ==> id
            == demo.ids@[10]@,
        after.order_items.contains_key(id) && !before.order_items.contains_key(id) ==> id
            == demo.ids@[11]@ || id == demo.ids@[12]@,
{
    let effects = lemma_added(demo, before, after, turns);
    assert(seed::all_add_one(effects));
    lemma_all_accounted_for(before, effects, id);
    assert(accounts_for(before, after, id, effects));
}

} // verus!

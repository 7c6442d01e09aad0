//! The demo organisation that a fresh store starts with.

use vstd::prelude::*;

use crate::auth;
use crate::error::AppError;
use crate::flow;
use crate::flow::{Effect, Job, Reply, Step, Totals};
use crate::ids;
use crate::orgs;
use crate::records::{
    MenuFields, MenuFieldsView, MenuRow, MenuRowView, OrderItemRow, OrderItemRowView, OrderRow,
    OrderRowView, OrgOut, OrgView, Price, TableOut, TableView, UserRow, UserRowView,
};
use crate::text;

verus! {

/// What the demo organisation is made from.
#[derive(Debug)]
pub struct Demo {
    pub client_origin: String,
    /// The ids of the admin, the tables, the items on the menu, the order and its lines.
    pub ids: Vec<String>,
    pub password_hash: String,
    pub now: i64,
}

/// How long ago the demo order was placed.
pub const DEMO_ORDER_AGE_MS: i64 = 540_000;

/// How many ids a demo organisation takes.
pub const DEMO_IDS: usize = 13;

impl Demo {
    /// There are ids for everything, and the order can be dated.
    pub open spec fn complete(self) -> bool {
        &&& self.ids@.len() == DEMO_IDS
        &&& self.now >= i64::MIN + DEMO_ORDER_AGE_MS
    }
}

// ---------------------------------------------------------------------------
// What it holds
// ---------------------------------------------------------------------------

pub open spec fn demo_org() -> OrgView {
    OrgView {
        id: "123"@,
        name: "The Wayfarer"@,
        tagline: "Kitchen & Bar"@,
        logo_initial: "W"@,
        theme: orgs::default_theme_view(),
    }
}

pub open spec fn demo_admin(demo: Demo) -> UserRowView {
    UserRowView {
        id: demo.ids@[0]@,
        org_id: "123"@,
        name: "Demo Admin"@,
        email: "admin@wayfarer.test"@,
        password_hash: demo.password_hash@,
        created_at: demo.now,
    }
}

pub open spec fn demo_table(demo: Demo, id: Seq<char>, name: Seq<char>, seats: i64) -> TableView {
    TableView {
        id,
        name,
        seats,
        qr_value: text::qr_link_text(demo.client_origin@, "123"@, id),
    }
}

/// A dish or drink without picture and portion.
pub open spec fn dish_view(
    category: Seq<char>,
    name: Seq<char>,
    description: Seq<char>,
    price: Price,
    tags: Seq<char>,
) -> MenuFieldsView {
    MenuFieldsView {
        category,
        name,
        description,
        image: Seq::empty(),
        portion: Seq::empty(),
        price,
        tags,
    }
}

fn dish(category: &str, name: &str, description: &str, price: Price, tags: &str) -> (r: MenuFields)
    ensures
        r@ == dish_view(category@, name@, description@, price, tags@),
{
    MenuFields {
        category: category.to_string(),
        name: name.to_string(),
        description: description.to_string(),
        image: String::new(),
        portion: String::new(),
        price,
        tags: tags.to_string(),
    }
}

/// The bits of 16.0.
pub const BURRATA_PRICE: u64 = 0x4030_0000_0000_0000;

/// The bits of 11.0.
pub const SOUP_PRICE: u64 = 0x4026_0000_0000_0000;

/// The bits of 46.0.
pub const RIBEYE_PRICE: u64 = 0x4047_0000_0000_0000;

/// The bits of 24.0.
pub const RISOTTO_PRICE: u64 = 0x4038_0000_0000_0000;

/// The bits of 12.0.
pub const FONDANT_PRICE: u64 = 0x4028_0000_0000_0000;

/// The bits of 17.0.
pub const OLD_FASHIONED_PRICE: u64 = 0x4031_0000_0000_0000;

pub open spec fn burrata_view() -> MenuFieldsView {
    dish_view(
        "starters"@,
        "Burrata & Heirloom Tomato"@,
        "Creamy burrata, heirloom tomatoes, basil oil, aged balsamic."@,
        Price { bits: BURRATA_PRICE },
        "[\"veg\",\"popular\"]"@,
    )
}

pub open spec fn soup_view() -> MenuFieldsView {
    dish_view(
        "starters"@,
        "Soup of the Day"@,
        "Ask your server for today's selection."@,
        Price { bits: SOUP_PRICE },
        "[\"veg\"]"@,
    )
}

pub open spec fn ribeye_view() -> MenuFieldsView {
    dish_view(
        "mains"@,
        "Grilled Ribeye"@,
        "14oz, chimichurri, triple-cooked fries."@,
        Price { bits: RIBEYE_PRICE },
        "[\"popular\"]"@,
    )
}

pub open spec fn risotto_view() -> MenuFieldsView {
    dish_view(
        "mains"@,
        "Wild Mushroom Risotto"@,
        "Truffle oil, aged parmesan, wild arugula."@,
        Price { bits: RISOTTO_PRICE },
        "[\"veg\"]"@,
    )
}

pub open spec fn fondant_view() -> MenuFieldsView {
    dish_view(
        "desserts"@,
        "Chocolate Fondant"@,
        "Vanilla bean ice cream, salted caramel."@,
        Price { bits: FONDANT_PRICE },
        "[\"popular\"]"@,
    )
}

pub open spec fn old_fashioned_view() -> MenuFieldsView {
    dish_view(
        "drinks"@,
        "Old Fashioned"@,
        "Bourbon, bitters, orange oil."@,
        Price { bits: OLD_FASHIONED_PRICE },
        "[\"popular\"]"@,
    )
}

pub open spec fn demo_item(id: Seq<char>, fields: MenuFieldsView, sort_order: i64) -> MenuRowView {
    MenuRowView { id, org_id: "123"@, fields, sort_order }
}

/// An order that is being prepared for the second table.
pub open spec fn demo_order(demo: Demo, totals: Totals) -> OrderRowView {
    OrderRowView {
        id: demo.ids@[10]@,
        org_id: "123"@,
        table_id: demo.ids@[2]@,
        table_name: "Table 4"@,
        status: "preparing"@,
        subtotal: totals.subtotal,
        tax: totals.tax,
        total: totals.total,
        created_at: (demo.now - DEMO_ORDER_AGE_MS) as i64,
        updated_at: demo.now,
    }
}

pub open spec fn demo_line(
    demo: Demo,
    id: Seq<char>,
    item_id: Seq<char>,
    fields: MenuFieldsView,
    qty: i64,
) -> OrderItemRowView {
    OrderItemRowView {
        id,
        order_id: demo.ids@[10]@,
        menu_item_id: Some(item_id),
        name: fields.name,
        price: fields.price,
        qty,
        note: Seq::empty(),
    }
}

/// What the demo order comes to: one of the first item, two of the third.
pub open spec fn demo_amounts() -> Seq<(Price, i64)> {
    seq![(Price { bits: BURRATA_PRICE }, 1i64), (Price { bits: RIBEYE_PRICE }, 2i64)]
}

// ---------------------------------------------------------------------------
// What is asked of the store
// ---------------------------------------------------------------------------

pub open spec fn adds_org(effect: Effect, org: OrgView, now: i64) -> bool {
    effect matches Effect::InsertOrg { org: added, created_at } && added@ == org && created_at == now
}

pub open spec fn adds_user(effect: Effect, user: UserRowView) -> bool {
    effect matches Effect::InsertUser { user: added } && added@ == user
}

pub open spec fn adds_table(effect: Effect, table: TableView, now: i64) -> bool {
    &&& effect matches Effect::InsertTable { org_id, table: added, created_at }
    &&& org_id@ == "123"@
    &&& added@ == table
    &&& created_at == now
}

pub open spec fn adds_item(effect: Effect, row: MenuRowView) -> bool {
    effect matches Effect::InsertMenuItem { row: added } && added@ == row
}

pub open spec fn adds_order(effect: Effect, order: OrderRowView) -> bool {
    effect matches Effect::InsertOrder { order: added } && added@ == order
}

pub open spec fn adds_line(effect: Effect, line: OrderItemRowView) -> bool {
    effect matches Effect::InsertOrderItem { item: added } && added@ == line
}

/// The effects add the demo organisation, piece by piece.
pub open spec fn adds_demo(effects: Seq<Effect>, demo: Demo, totals: Totals) -> bool {
    let ids = demo.ids@;
    &&& effects.len() == 14
    &&& adds_org(effects[0], demo_org(), demo.now)
    &&& adds_user(effects[1], demo_admin(demo))
    &&& adds_table(effects[2], demo_table(demo, ids[1]@, "Table 1"@, 2), demo.now)
    &&& adds_table(effects[3], demo_table(demo, ids[2]@, "Table 4"@, 4), demo.now)
    &&& adds_table(effects[4], demo_table(demo, ids[3]@, "Patio 2"@, 6), demo.now)
    &&& adds_item(effects[5], demo_item(ids[4]@, burrata_view(), 0))
    &&& adds_item(effects[6], demo_item(ids[5]@, soup_view(), 1))
    &&& adds_item(effects[7], demo_item(ids[6]@, ribeye_view(), 2))
    &&& adds_item(effects[8], demo_item(ids[7]@, risotto_view(), 3))
    &&& adds_item(effects[9], demo_item(ids[8]@, fondant_view(), 4))
    &&& adds_item(effects[10], demo_item(ids[9]@, old_fashioned_view(), 5))
    &&& adds_order(effects[11], demo_order(demo, totals))
    &&& adds_line(effects[12], demo_line(demo, ids[11]@, ids[4]@, burrata_view(), 1))
    &&& adds_line(effects[13], demo_line(demo, ids[12]@, ids[6]@, ribeye_view(), 2))
}

fn table_effect(demo: &Demo, id: &String, name: &str, seats: i64) -> (r: Effect)
    ensures
        adds_table(r, demo_table(*demo, id@, name@, seats), demo.now),
{
    Effect::InsertTable {
        org_id: "123".to_string(),
        table: TableOut {
            id: id.clone(),
            name: name.to_string(),
            seats,
            qr_value: text::qr_link(demo.client_origin.as_str(), "123", id.as_str()),
        },
        created_at: demo.now,
    }
}

fn item_effect(id: &String, fields: MenuFields, sort_order: i64) -> (r: Effect)
    ensures
        adds_item(r, demo_item(id@, fields@, sort_order)),
{
    Effect::InsertMenuItem {
        row: MenuRow { id: id.clone(), org_id: "123".to_string(), fields, sort_order },
    }
}

fn line_effect(demo: &Demo, id: &String, item_id: &String, name: &str, price: Price, qty: i64) -> (r:
    Effect)
    requires
        demo.complete(),
    ensures
        r matches Effect::InsertOrderItem { item } && item@ == (OrderItemRowView {
            id: id@,
            order_id: demo.ids@[10]@,
            menu_item_id: Some(item_id@),
            name: name@,
            price,
            qty,
            note: Seq::empty(),
        }),
{
    Effect::InsertOrderItem {
        item: OrderItemRow {
            id: id.clone(),
            order_id: demo.ids[10].clone(),
            menu_item_id: Some(item_id.clone()),
            name: name.to_string(),
            price,
            qty,
            note: String::new(),
        },
    }
}

/// All that the demo organisation holds, in the sequence in which it is added.
pub fn demo_effects(demo: &Demo, totals: Totals) -> (r: Vec<Effect>)
    requires
        demo.complete(),
    ensures
        adds_demo(r@, *demo, totals),
{
    let ids = &demo.ids;
    let mut effects: Vec<Effect> = Vec::new();
    effects.push(
        Effect::InsertOrg {
            org: OrgOut {
                id: "123".to_string(),
                name: "The Wayfarer".to_string(),
                tagline: "Kitchen & Bar".to_string(),
                logo_initial: "W".to_string(),
                theme: orgs::default_theme(),
            },
            created_at: demo.now,
        },
    );
    effects.push(
        Effect::InsertUser {
            user: UserRow {
                id: ids[0].clone(),
                org_id: "123".to_string(),
                name: "Demo Admin".to_string(),
                email: "admin@wayfarer.test".to_string(),
                password_hash: demo.password_hash.clone(),
                created_at: demo.now,
            },
        },
    );
    effects.push(table_effect(demo, &ids[1], "Table 1", 2));
    effects.push(table_effect(demo, &ids[2], "Table 4", 4));
    effects.push(table_effect(demo, &ids[3], "Patio 2", 6));
    effects.push(
        item_effect(
            &ids[4],
            dish(
                "starters",
                "Burrata & Heirloom Tomato",
                "Creamy burrata, heirloom tomatoes, basil oil, aged balsamic.",
                Price { bits: BURRATA_PRICE },
                "[\"veg\",\"popular\"]",
            ),
            0,
        ),
    );
    effects.push(
        item_effect(
            &ids[5],
            dish(
                "starters",
                "Soup of the Day",
                "Ask your server for today's selection.",
                Price { bits: SOUP_PRICE },
                "[\"veg\"]",
            ),
            1,
        ),
    );
    effects.push(
        item_effect(
            &ids[6],
            dish(
                "mains",
                "Grilled Ribeye",
                "14oz, chimichurri, triple-cooked fries.",
                Price { bits: RIBEYE_PRICE },
                "[\"popular\"]",
            ),
            2,
        ),
    );
    effects.push(
        item_effect(
            &ids[7],
            dish(
                "mains",
                "Wild Mushroom Risotto",
                "Truffle oil, aged parmesan, wild arugula.",
                Price { bits: RISOTTO_PRICE },
                "[\"veg\"]",
            ),
            3,
        ),
    );
    effects.push(
        item_effect(
            &ids[8],
            dish(
                "desserts",
                "Chocolate Fondant",
                "Vanilla bean ice cream, salted caramel.",
                Price { bits: FONDANT_PRICE },
                "[\"popular\"]",
            ),
            4,
        ),
    );
    effects.push(
        item_effect(
            &ids[9],
            dish(
                "drinks",
                "Old Fashioned",
                "Bourbon, bitters, orange oil.",
                Price { bits: OLD_FASHIONED_PRICE },
                "[\"popular\"]",
            ),
            5,
        ),
    );
    effects.push(
        Effect::InsertOrder {
            order: OrderRow {
                id: ids[10].clone(),
                org_id: "123".to_string(),
                table_id: ids[2].clone(),
                table_name: "Table 4".to_string(),
                status: "preparing".to_string(),
                subtotal: totals.subtotal,
                tax: totals.tax,
                total: totals.total,
                created_at: demo.now - DEMO_ORDER_AGE_MS,
                updated_at: demo.now,
            },
        },
    );
    effects.push(
        line_effect(
            demo,
            &ids[11],
            &ids[4],
            "Burrata & Heirloom Tomato",
            Price { bits: BURRATA_PRICE },
            1,
        ),
    );
    effects.push(
        line_effect(demo, &ids[12], &ids[6], "Grilled Ribeye", Price { bits: RIBEYE_PRICE }, 2),
    );
    effects
}

// ---------------------------------------------------------------------------
// The steps
// ---------------------------------------------------------------------------

/// What is left to do of the seeding.
#[derive(Debug)]
pub enum SeedJob {
    /// The number of organisations was asked for.
    Counting { demo: Demo },
    /// The demo order is being added up.
    Totalling { demo: Demo },
    /// A piece was sent to the store; these are left.
    Adding { left: Vec<Effect> },
}

/// The effect adds one record.
pub open spec fn adds_one(effect: Effect) -> bool {
    ||| effect is InsertOrg
    ||| effect is InsertUser
    ||| effect is InsertTable
    ||| effect is InsertMenuItem
    ||| effect is InsertOrder
    ||| effect is InsertOrderItem
}

pub open spec fn all_add_one(effects: Seq<Effect>) -> bool {
    forall|i: int|
        0 <= i < effects.len() ==> adds_one(#[trigger] effects[i]) && flow::proper(effects[i])
}

/// The effects are asked for one after the other.
pub open spec fn goes_through(effects: Seq<Effect>, step: Step<SeedJob, ()>) -> bool {
    if effects.len() == 0 {
        step == Step::<SeedJob, ()>::Done(Ok(()))
    } else {
        &&& step matches Step::Await { effect, job: SeedJob::Adding { left } }
        &&& effect == effects[0]
        &&& left@ == effects.drop_first()
    }
}

fn go_through(effects: Vec<Effect>) -> (step: Step<SeedJob, ()>)
    ensures
        goes_through(effects@, step),
{
    if effects.len() == 0 {
        return Step::Done(Ok(()));
    }
    let mut left = effects;
    let effect = left.remove(0);
    assert(left@ =~= effects@.drop_first());
    Step::Await { effect, job: SeedJob::Adding { left } }
}

impl Job for SeedJob {
    type Out = ();

    open spec fn awaits(&self, reply: Reply) -> bool {
        match self {
            SeedJob::Counting { demo } => (reply is Failed || reply is Count) && demo.complete(),
            SeedJob::Totalling { demo } => reply is Totals && demo.complete(),
            SeedJob::Adding { left } => (reply is Failed || reply is Changed) && all_add_one(left@),
        }
    }

    open spec fn turns_left(&self) -> nat {
        match self {
            SeedJob::Counting { .. } => 16,
            SeedJob::Totalling { .. } => 15,
            SeedJob::Adding { left } => left@.len() + 1,
        }
    }

    open spec fn turn(&self, reply: Reply, step: Step<SeedJob, ()>) -> bool {
        match reply {
            Reply::Failed(failure) => flow::fails_with(step, failure),
            _ => match self {
                SeedJob::Counting { demo } => if reply->Count_0 > 0 {
                    step == Step::<SeedJob, ()>::Done(Ok(()))
                } else {
                    &&& step matches Step::Await { effect: Effect::TotalUp { lines }, job }
                    &&& lines@ == demo_amounts()
                    &&& job == SeedJob::Totalling { demo: *demo }
                },
                SeedJob::Totalling { demo } => exists|effects: Seq<Effect>| #[trigger]
                    adds_demo(effects, *demo, reply->Totals_0) && goes_through(effects, step),
                SeedJob::Adding { left } => goes_through(left@, step),
            },
        }
    }

    fn resume(self, reply: Reply) -> (step: Step<SeedJob, ()>) {
        match reply {
            Reply::Failed(failure) => Step::Done(Err(AppError::from_store(&failure))),
            Reply::Count(existing) => match self {
                SeedJob::Counting { demo } => {
                    if existing > 0 {
                        return Step::Done(Ok(()));
                    }
                    let mut lines: Vec<(Price, i64)> = Vec::new();
                    lines.push((Price { bits: BURRATA_PRICE }, 1));
                    lines.push((Price { bits: RIBEYE_PRICE }, 2));
                    assert(lines@ =~= demo_amounts());
                    Step::Await { effect: Effect::TotalUp { lines }, job: SeedJob::Totalling { demo } }
                },
                _ => vstd::pervasive::unreached(),
            },
            Reply::Totals(totals) => match self {
                SeedJob::Totalling { demo } => {
                    let effects = demo_effects(&demo, totals);
                    assert(adds_demo(effects@, demo, totals));
                    go_through(effects)
                },
                _ => vstd::pervasive::unreached(),
            },
            _ => match self {
                SeedJob::Adding { left } => go_through(left),
                _ => vstd::pervasive::unreached(),
            },
        }
    }

    proof fn goes_on_ready(&self, reply: Reply, step: Step<SeedJob, ()>) {
        if let SeedJob::Totalling { demo } = *self {
            let effects = choose|effects: Seq<Effect>| #[trigger]
                adds_demo(effects, demo, reply->Totals_0) && goes_through(effects, step);
            assert(all_add_one(effects));
            assert(all_add_one(effects.drop_first()));
        }
        if let SeedJob::Adding { left } = *self {
            if reply is Changed && left@.len() > 0 {
                assert(adds_one(left@[0]));
                assert(all_add_one(left@.drop_first()));
            }
        }
    }
}

/// The store is seeded from this demo, unless there is an organisation already.
pub fn seed_demo_data_as(demo: Demo) -> (step: Step<SeedJob, ()>)
    requires
        demo.complete(),
    ensures
        step == (Step::<SeedJob, ()>::Await {
            effect: Effect::CountOrgs,
            job: SeedJob::Counting { demo },
        }),
        flow::ready(step),
{
    Step::Await { effect: Effect::CountOrgs, job: SeedJob::Counting { demo } }
}

/// A demo with ids of its own, whose admin logs in with the demo password.
pub open spec fn fresh_demo(demo: Demo, client_origin: String, now: i64) -> bool {
    &&& demo.complete()
    &&& demo.client_origin == client_origin
    &&& demo.now == now
    &&& ids::are_random_uuids(demo.ids@)
    &&& auth::hash_fault(demo.password_hash@) is None
    &&& auth::password_fits("wayfarer123"@, demo.password_hash@)
}

proof fn lemma_demo_password_can_be_hashed()
    ensures
        auth::can_be_hashed("wayfarer123"@),
{
    reveal_strlit("wayfarer123");
    assert(vstd::utf8::is_ascii_chars("wayfarer123"@));
    vstd::utf8::is_ascii_chars_encode_utf8("wayfarer123"@);
}

/// Seeds a store that has no organisation yet with the demo organisation: its
/// admin, a few tables, a menu, and an order that is being prepared.
pub fn seed_demo_data(client_origin: String, now: i64) -> (step: Step<SeedJob, ()>)
    requires
        now >= i64::MIN + DEMO_ORDER_AGE_MS,
    ensures
        exists|demo: Demo| #[trigger]
            fresh_demo(demo, client_origin, now) && step == (Step::<SeedJob, ()>::Await {
                effect: Effect::CountOrgs,
                job: SeedJob::Counting { demo },
            }),
        flow::ready(step),
{
    proof {
        lemma_demo_password_can_be_hashed();
    }
    match auth::hash_password("wayfarer123") {
        Ok(password_hash) => {
            let ids = ids::new_ids(DEMO_IDS);
            let demo = Demo { client_origin, ids, password_hash, now };
            assert(fresh_demo(demo, client_origin, now));
            seed_demo_data_as(demo)
        },
        Err(e) => Step::Done(Err(e)),
    }
}

} // verus!

//! What seeding leaves in the store.

use vstd::prelude::*;

use crate::accounts;
use crate::accounts::AuthJob;
use crate::auth;
use crate::error::AppError;
use crate::flow;
use crate::flow::{Effect, Reply, Step, Totals};
use crate::records::{AuthResponse, LoginBody};
use crate::seed;
use crate::seed::{Demo, SeedJob};
use crate::soundness;
use crate::store;
use crate::store::{Db, OrgRecord, TableRecord};

verus! {

/// The store has the record that the effect adds.
pub open spec fn holds(db: Db, effect: Effect) -> bool {
    match effect {
        Effect::InsertOrg { org, created_at } => {
            &&& db.orgs.contains_key(org.id@)
            &&& db.orgs[org.id@] == OrgRecord { org: org@, created_at }
        },
        Effect::InsertUser { user } => {
            &&& db.users.contains_key(user.id@)
            &&& db.users[user.id@] == user@
        },
        Effect::InsertTable { org_id, table, created_at } => {
            &&& db.tables.contains_key(table.id@)
            &&& db.tables[table.id@] == TableRecord { org_id: org_id@, table: table@, created_at }
        },
        Effect::InsertMenuItem { row } => {
            &&& db.menu.contains_key(row.id@)
            &&& db.menu[row.id@] == row@
        },
        Effect::InsertOrder { order } => {
            &&& db.orders.contains_key(order.id@)
            &&& db.orders[order.id@] == order@
        },
        Effect::InsertOrderItem { item } => {
            &&& db.order_items.contains_key(item.id@)
            &&& db.order_items[item.id@] == item@
        },
        _ => false,
    }
}

/// The store after the changes, one after the other.
pub open spec fn with_all(db: Db, effects: Seq<Effect>) -> Db
    decreases effects.len(),
{
    if effects.len() == 0 {
        db
    } else {
        with_all(store::changed(db, effects[0]), effects.drop_first())
    }
}

/// The later store has all that the earlier one had.
pub open spec fn grows(a: Db, b: Db) -> bool {
    &&& a.orgs.submap_of(b.orgs)
    &&& a.users.submap_of(b.users)
    &&& a.tables.submap_of(b.tables)
    &&& a.menu.submap_of(b.menu)
    &&& a.orders.submap_of(b.orders)
    &&& a.order_items.submap_of(b.order_items)
}

proof fn lemma_adding_grows(before: Db, effect: Effect)
    requires
        seed::adds_one(effect),
        store::permits(before, effect),
    ensures
        grows(before, store::changed(before, effect)),
        holds(store::changed(before, effect), effect),
{
}

proof fn lemma_submaps_chain<K, V>(a: Map<K, V>, b: Map<K, V>, c: Map<K, V>)
    requires
        a.submap_of(b),
        b.submap_of(c),
    ensures
        a.submap_of(c),
{
    assert forall|k: K| #[trigger] a.dom().contains(k) implies c.dom().contains(k) && a[k] == c[k] by {
        assert(b.dom().contains(k));
    }
}

proof fn lemma_growth_chains(a: Db, b: Db, c: Db)
    requires
        grows(a, b),
        grows(b, c),
    ensures
        grows(a, c),
{
    lemma_submaps_chain(a.orgs, b.orgs, c.orgs);
    lemma_submaps_chain(a.users, b.users, c.users);
    lemma_submaps_chain(a.tables, b.tables, c.tables);
    lemma_submaps_chain(a.menu, b.menu, c.menu);
    lemma_submaps_chain(a.orders, b.orders, c.orders);
    lemma_submaps_chain(a.order_items, b.order_items, c.order_items);
}

proof fn lemma_held_stays_held(a: Db, b: Db, effect: Effect)
    requires
        grows(a, b),
        holds(a, effect),
    ensures
        holds(b, effect),
{
}

/// Going through effects that add records leaves all of the records, with all
/// that was there before, and nothing else.
proof fn lemma_all_added(
    effects: Seq<Effect>,
    step: Step<SeedJob, ()>,
    before: Db,
    after: Db,
    turns: nat,
)
    requires
        seed::all_add_one(effects),
        seed::goes_through(effects, step),
        store::run(step, before, Ok::<(), AppError>(()), after, turns),
    ensures
        grows(before, after),
        forall|i: int| 0 <= i < effects.len() ==> holds(after, #[trigger] effects[i]),
        after == with_all(before, effects),
    decreases effects.len(),
{
    if effects.len() > 0 {
        let out = Ok::<(), AppError>(());
        let (reply, mid, next) = soundness::lemma_one_turn(
            step->effect,
            step->job,
            before,
            out,
            after,
            turns,
        );
        let rest = effects.drop_first();
        assert(seed::adds_one(effects[0]));
        assert(seed::all_add_one(rest));
        lemma_adding_grows(before, effects[0]);
        lemma_all_added(rest, next, mid, after, (turns - 1) as nat);
        lemma_growth_chains(before, mid, after);
        lemma_held_stays_held(mid, after, effects[0]);
        assert forall|i: int| 0 <= i < effects.len() implies holds(after, #[trigger] effects[i]) by {
            if i > 0 {
                assert(effects[i] == rest[i - 1]);
            }
        }
    }
}

/// The step that seeding starts with.
pub open spec fn seeding(demo: Demo) -> Step<SeedJob, ()> {
    Step::Await { effect: Effect::CountOrgs, job: SeedJob::Counting { demo } }
}

/// A store that has an organisation is left as it is; and seeding succeeds there,
/// provided that the store does not fail.
pub proof fn law_seeding_spares_a_store_in_use(
    demo: Demo,
    org_id: Seq<char>,
    before: Db,
    out: Result<(), AppError>,
    after: Db,
    turns: nat,
)
    requires
        before.orgs.contains_key(org_id),
        store::run(seeding(demo), before, out, after, turns),
    ensures
        after == before,
        store::steady_run(seeding(demo), before, out, after, turns) ==> out is Ok,
{
    let (reply, mid, next) = soundness::lemma_one_turn(
        Effect::CountOrgs,
        SeedJob::Counting { demo },
        before,
        out,
        after,
        turns,
    );
    if let Reply::Count(n) = reply {
        assert(before.orgs.dom().contains(org_id));
        if before.orgs.dom().len() == 0 {
            assert(before.orgs.dom() =~= Set::empty());
        }
    }
    if store::steady_run(seeding(demo), before, out, after, turns) {
        let (reply, mid, next) = soundness::lemma_one_steady_turn(
            Effect::CountOrgs,
            SeedJob::Counting { demo },
            before,
            out,
            after,
            turns,
        );
        assert(before.orgs.dom().contains(org_id));
        if before.orgs.dom().len() == 0 {
            assert(before.orgs.dom() =~= Set::empty());
        }
    }
}

/// A store without organisations has all of the demo organisation once seeding
/// went through: just the records of the demo are added to what was there.
pub proof fn law_seeding_fills_an_empty_store(
    demo: Demo,
    before: Db,
    after: Db,
    turns: nat,
)
    requires
        demo.complete(),
        before.orgs == Map::<Seq<char>, OrgRecord>::empty(),
        store::run(seeding(demo), before, Ok::<(), AppError>(()), after, turns),
    ensures
        exists|effects: Seq<Effect>| #[trigger]
            seed::adds_demo(effects, demo, (before.tally)(seed::demo_amounts())) && after
                == with_all(before, effects) && forall|i: int|
                0 <= i < effects.len() ==> holds(after, #[trigger] effects[i]),
        after.orgs.contains_key("123"@),
        after.orgs["123"@].org == seed::demo_org(),
{
    let out = Ok::<(), AppError>(());
    let (r1, mid1, s2) = soundness::lemma_one_turn(
        Effect::CountOrgs,
        SeedJob::Counting { demo },
        before,
        out,
        after,
        turns,
    );
    assert(before.orgs.dom() =~= Set::empty());
    let (r2, mid2, s3) = soundness::lemma_one_turn(
        s2->effect,
        s2->job,
        mid1,
        out,
        after,
        (turns - 1) as nat,
    );
    let totals = r2->Totals_0;
    let effects = choose|effects: Seq<Effect>| #[trigger]
        seed::adds_demo(effects, demo, totals) && seed::goes_through(effects, s3);
    assert(seed::all_add_one(effects));
    lemma_all_added(effects, s3, mid2, after, (turns - 2) as nat);
    assert(seed::adds_demo(effects, demo, totals));
    assert(holds(after, effects[0]));
}

/// The store can make the changes, one after the other.
pub open spec fn permits_all(db: Db, effects: Seq<Effect>) -> bool
    decreases effects.len(),
{
    effects.len() > 0 ==> store::permits(db, effects[0]) && permits_all(
        store::changed(db, effects[0]),
        effects.drop_first(),
    )
}

proof fn lemma_permitted_go_through(
    effects: Seq<Effect>,
    step: Step<SeedJob, ()>,
    before: Db,
    out: Result<(), AppError>,
    after: Db,
    turns: nat,
)
    requires
        seed::all_add_one(effects),
        seed::goes_through(effects, step),
        permits_all(before, effects),
        store::steady_run(step, before, out, after, turns),
    ensures
        out is Ok,
    decreases effects.len(),
{
    if effects.len() > 0 {
        let (reply, mid, next) = soundness::lemma_one_steady_turn(
            step->effect,
            step->job,
            before,
            out,
            after,
            turns,
        );
        assert(seed::adds_one(effects[0]));
        assert(seed::all_add_one(effects.drop_first()));
        lemma_permitted_go_through(
            effects.drop_first(),
            next,
            mid,
            out,
            after,
            (turns - 1) as nat,
        );
    }
}

/// As far as ids go, the records of a demo can be added from the given one on.
spec fn can_go_on(db: Db, demo: Demo, at: int) -> bool {
    let ids = demo.ids@;
    &&& at > 0 ==> db.orgs.contains_key("123"@)
    &&& at == 0 ==> !db.orgs.contains_key("123"@)
    &&& at <= 1 ==> forall|id: Seq<char>| !db.users.contains_key(id)
    &&& forall|i: int| 1 <= i < 4 && i + 1 >= at ==> !db.tables.contains_key((#[trigger] ids[i])@)
    &&& forall|i: int| 4 <= i < 10 && i + 1 >= at ==> !db.menu.contains_key((#[trigger] ids[i])@)
    &&& at <= 11 ==> !db.orders.contains_key(ids[10]@)
    &&& at > 11 ==> db.orders.contains_key(ids[10]@)
    &&& forall|i: int|
        11 <= i < 13 && i + 1 >= at ==> !db.order_items.contains_key((#[trigger] ids[i])@)
}

proof fn lemma_demo_is_permitted(
    db: Db,
    effects: Seq<Effect>,
    demo: Demo,
    totals: Totals,
    at: int,
)
    requires
        demo.complete(),
        distinct(demo.ids@),
        seed::adds_demo(effects, demo, totals),
        0 <= at <= 14,
        can_go_on(db, demo, at),
    ensures
        permits_all(db, effects.skip(at)),
    decreases 14 - at,
{
    if at < 14 {
        let rest = effects.skip(at);
        let next = store::changed(db, effects[at]);
        assert(rest[0] == effects[at]);
        assert(rest.drop_first() =~= effects.skip(at + 1));
        assert(store::permits(db, effects[at]));
        assert(can_go_on(next, demo, at + 1));
        lemma_demo_is_permitted(next, effects, demo, totals, at + 1);
    }
}

/// No text is in the list twice.
pub open spec fn distinct(list: Seq<String>) -> bool {
    forall|i: int, j: int|
        0 <= i < j < list.len() ==> (#[trigger] list[i])@ != (#[trigger] list[j])@
}

/// A store without organisations can be seeded with any demo whose ids differ,
/// provided that the store does not fail.
pub proof fn law_empty_store_is_seeded(
    demo: Demo,
    before: Db,
    out: Result<(), AppError>,
    after: Db,
    turns: nat,
)
    requires
        demo.complete(),
        distinct(demo.ids@),
        soundness::sound(before),
        before.orgs == Map::<Seq<char>, OrgRecord>::empty(),
        store::steady_run(seeding(demo), before, out, after, turns),
    ensures
        out is Ok,
{
    let (r1, mid1, s2) = soundness::lemma_one_steady_turn(
        Effect::CountOrgs,
        SeedJob::Counting { demo },
        before,
        out,
        after,
        turns,
    );
    assert(before.orgs.dom() =~= Set::empty());
    let (r2, mid2, s3) = soundness::lemma_one_steady_turn(
        s2->effect,
        s2->job,
        mid1,
        out,
        after,
        (turns - 1) as nat,
    );
    let totals = r2->Totals_0;
    let effects = choose|effects: Seq<Effect>| #[trigger]
        seed::adds_demo(effects, demo, totals) && seed::goes_through(effects, s3);
    assert(seed::all_add_one(effects));
    assert(can_go_on(before, demo, 0)) by {
        assert forall|id: Seq<char>| !before.orders.contains_key(id) by {
            if before.orders.contains_key(id) {
                assert(before.orgs.contains_key(before.orders[id].org_id));
            }
        }
        assert forall|id: Seq<char>| !before.order_items.contains_key(id) by {
            if before.order_items.contains_key(id) {
                assert(before.orders.contains_key(before.order_items[id].order_id));
            }
        }
    }
    lemma_demo_is_permitted(before, effects, demo, totals, 0);
    assert(effects.skip(0) =~= effects);
    lemma_permitted_go_through(effects, s3, mid2, out, after, (turns - 2) as nat);
}

/// Seeding runs only once: done again, it changes nothing.
pub proof fn law_seeding_runs_once(
    demo: Demo,
    before: Db,
    mid: Db,
    turns: nat,
    again: Demo,
    out: Result<(), AppError>,
    after: Db,
    turns_again: nat,
)
    requires
        demo.complete(),
        store::run(seeding(demo), before, Ok::<(), AppError>(()), mid, turns),
        store::run(seeding(again), mid, out, after, turns_again),
    ensures
        after == mid,
{
    if before.orgs =~= Map::<Seq<char>, OrgRecord>::empty() {
        law_seeding_fills_an_empty_store(demo, before, mid, turns);
        law_seeding_spares_a_store_in_use(again, "123"@, mid, out, after, turns_again);
    } else {
        let org_id = choose|id: Seq<char>| before.orgs.contains_key(id);
        if forall|id: Seq<char>| !before.orgs.contains_key(id) {
            assert(before.orgs =~= Map::<Seq<char>, OrgRecord>::empty());
        }
        law_seeding_spares_a_store_in_use(
            demo,
            org_id,
            before,
            Ok::<(), AppError>(()),
            mid,
            turns,
        );
        law_seeding_spares_a_store_in_use(again, org_id, mid, out, after, turns_again);
    }
}

/// After seeding an empty store, the demo admin can log in with the demo password,
/// for the demo organisation, provided that the store does not fail.
pub proof fn law_demo_admin_can_log_in(
    demo: Demo,
    client_origin: String,
    now: i64,
    before: Db,
    mid: Db,
    seed_turns: nat,
    body: LoginBody,
    secret: String,
    login: Step<AuthJob, AuthResponse>,
    out: Result<AuthResponse, AppError>,
    after: Db,
    login_turns: nat,
)
    requires
        seed::fresh_demo(demo, client_origin, now),
        soundness::sound(before),
        before.orgs == Map::<Seq<char>, OrgRecord>::empty(),
        store::run(seeding(demo), before, Ok::<(), AppError>(()), mid, seed_turns),
        accounts::login_asks(body, secret, login),
        accounts::email_key(body.email@) == "admin@wayfarer.test"@,
        body.password@ == "wayfarer123"@,
        store::steady_run(login, mid, out, after, login_turns),
    ensures
        after == mid,
        out matches Ok(answer) && {
            &&& answer.org@ == seed::demo_org()
            &&& answer.user@ == accounts::shown_user(seed::demo_admin(demo))
            &&& auth::is_token_for(answer.user.id@, "123"@, secret@, answer.token@)
        },
{
    law_seeding_fills_an_empty_store(demo, before, mid, seed_turns);
    assert(flow::ready(seeding(demo)));
    soundness::law_requests_keep_store_sound(
        seeding(demo),
        before,
        Ok::<(), AppError>(()),
        mid,
        seed_turns,
    );
    let totals = (before.tally)(seed::demo_amounts());
    let effects = choose|effects: Seq<Effect>| #[trigger]
        seed::adds_demo(effects, demo, totals) && mid == with_all(before, effects) && forall|i: int|
            0 <= i < effects.len() ==> holds(mid, #[trigger] effects[i]);
    assert(holds(mid, effects[0]));
    assert(holds(mid, effects[1]));
    let admin = demo.ids@[0]@;
    assert(mid.users.contains_key(admin));
    assert(mid.has_email("admin@wayfarer.test"@));
    let (r1, mid1, s2) = soundness::lemma_one_steady_turn(
        login->effect,
        login->job,
        mid,
        out,
        after,
        login_turns,
    );
    assert(mid.users.contains_key(r1->UserRow_0.id@));
    let (r2, mid2, s3) = soundness::lemma_one_steady_turn(
        s2->effect,
        s2->job,
        mid1,
        out,
        after,
        (login_turns - 1) as nat,
    );
}

} // verus!

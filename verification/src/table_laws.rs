//! What becomes of a table: field by field, from the request to the answer and to
//! the store.

use vstd::prelude::*;

use crate::auth::AuthUser;
use crate::error::{AppError, Status};
use crate::flow::{Effect, Step};
use crate::laws;
use crate::outcomes;
use crate::records::{CreateTableBody, TableOut, UpdateTableBody};
use crate::soundness;
use crate::store;
use crate::store::Db;
use crate::tables;
use crate::tables::{ListingTables, TableJob};
use crate::text;

verus! {

/// A new table has the name of the request, trimmed, and the seats of the request
/// where these are at least 1, and else 1. Its QR code leads to the client's origin
/// with the organisation and the table. It is answered with as it is kept, for the
/// organisation, and nothing else changes.
pub proof fn law_new_table_has_what_was_sent(
    auth: AuthUser,
    org_id: String,
    body: CreateTableBody,
    client_origin: Seq<char>,
    id: String,
    now: i64,
    step: Step<TableJob, TableOut>,
    before: Db,
    answer: TableOut,
    after: Db,
    turns: nat,
)
    requires
        tables::create_table_asks(auth, org_id, body, client_origin, id, now, step),
        store::run(step, before, Ok::<TableOut, AppError>(answer), after, turns),
    ensures
        answer.id@ == id@,
        answer.name@ == text::trimmed(body.name@),
        body.seats >= 1 ==> answer.seats == body.seats,
        body.seats < 1 ==> answer.seats == 1,
        answer.qr_value@ == client_origin + "?orgId="@ + org_id@ + "&tableId="@ + id@,
        !before.tables.contains_key(id@),
        after.tables.contains_key(id@),
        ({
            let kept = after.tables[id@];
            &&& kept.org_id == org_id@
            &&& kept.created_at == now
            &&& kept.table.id == id@
            &&& kept.table.name == text::trimmed(body.name@)
            &&& kept.table.seats == (if body.seats >= 1 {
                body.seats
            } else {
                1
            })
            &&& kept.table.qr_value == client_origin + "?orgId="@ + org_id@ + "&tableId="@ + id@
        }),
        after.tables == before.tables.insert(id@, after.tables[id@]),
        after.orgs == before.orgs,
        after.users == before.users,
        after.menu == before.menu,
        after.orders == before.orders,
        after.order_items == before.order_items,
{
    laws::law_create_table(
        auth,
        org_id,
        body,
        client_origin,
        id,
        now,
        step,
        before,
        answer,
        after,
        turns,
    );
}

/// A table for one's own organisation is refused with 400, at once, exactly where
/// nothing is left of its name after trimming.
pub proof fn law_table_has_to_have_a_name(
    auth: AuthUser,
    org_id: String,
    body: CreateTableBody,
    client_origin: Seq<char>,
    id: String,
    now: i64,
    step: Step<TableJob, TableOut>,
)
    requires
        auth.org_id@ == org_id@,
        tables::create_table_asks(auth, org_id, body, client_origin, id, now, step),
    ensures
        text::trimmed(body.name@).len() == 0 ==> (step matches Step::Done(Err(e)) && e.status
            == Status::BadRequest && e.message@ == "table name is required"@),
        text::trimmed(body.name@).len() > 0 ==> step is Await,
{
    text::lemma_blank_trims_to_nothing(body.name@);
}

/// A change of a table sets just what the request gives, as it is given, and leaves
/// the rest as it was in the store.
pub proof fn law_changed_table_keeps_what_is_not_given(
    auth: AuthUser,
    org_id: String,
    table_id: String,
    body: UpdateTableBody,
    step: Step<TableJob, TableOut>,
    before: Db,
    answer: TableOut,
    after: Db,
    turns: nat,
)
    requires
        soundness::sound(before),
        tables::update_table_asks(auth, org_id, table_id, body, step),
        store::run(step, before, Ok::<TableOut, AppError>(answer), after, turns),
    ensures
        before.tables.contains_key(table_id@),
        before.tables[table_id@].org_id == org_id@,
        after.tables.contains_key(table_id@),
        ({
            let was = before.tables[table_id@];
            let is = after.tables[table_id@];
            &&& is.org_id == was.org_id
            &&& is.created_at == was.created_at
            &&& is.table.id == table_id@
            &&& is.table.qr_value == was.table.qr_value
            &&& body.name is None ==> is.table.name == was.table.name
            &&& body.name matches Some(name) ==> is.table.name == name@
            &&& body.seats is None ==> is.table.seats == was.table.seats
            &&& body.seats matches Some(seats) ==> is.table.seats == seats
            &&& answer.id@ == is.table.id
            &&& answer.name@ == is.table.name
            &&& answer.seats == is.table.seats
            &&& answer.qr_value@ == is.table.qr_value
        }),
        after.tables == before.tables.insert(table_id@, after.tables[table_id@]),
        after.orgs == before.orgs,
        after.users == before.users,
        after.menu == before.menu,
        after.orders == before.orders,
        after.order_items == before.order_items,
{
    laws::law_update_table(auth, org_id, table_id, body, step, before, answer, after, turns);
}

/// A table that is asked for is shown field by field as it is kept.
pub proof fn law_table_is_shown_as_kept(
    org_id: String,
    table_id: String,
    before: Db,
    answer: TableOut,
    after: Db,
    turns: nat,
)
    requires
        soundness::sound(before),
        store::run(
            Step::<TableJob, TableOut>::Await {
                effect: Effect::FindOrgTable { org_id, table_id },
                job: TableJob::Showing,
            },
            before,
            Ok::<TableOut, AppError>(answer),
            after,
            turns,
        ),
    ensures
        after == before,
        before.tables.contains_key(table_id@),
        before.tables[table_id@].org_id == org_id@,
        answer.id@ == table_id@,
        answer.name@ == before.tables[table_id@].table.name,
        answer.seats == before.tables[table_id@].table.seats,
        answer.qr_value@ == before.tables[table_id@].table.qr_value,
{
    laws::law_get_table(org_id, table_id, before, Ok(answer), after, turns);
}

/// The tables of one's own organisation are listed field by field as they are kept:
/// each of them once, none of another organisation, the oldest first.
pub proof fn law_tables_are_listed_as_kept(
    auth: AuthUser,
    org_id: String,
    step: Step<ListingTables, Vec<TableOut>>,
    before: Db,
    out: Result<Vec<TableOut>, AppError>,
    after: Db,
    turns: nat,
)
    requires
        auth.org_id@ == org_id@,
        soundness::sound(before),
        tables::list_tables_asks(auth, org_id, step),
        store::steady_run(step, before, out, after, turns),
    ensures
        after == before,
        out is Ok,
        forall|i: int|
            0 <= i < out->Ok_0@.len() ==> {
                let shown = #[trigger] out->Ok_0@[i];
                &&& before.tables.contains_key(shown.id@)
                &&& before.tables[shown.id@].org_id == org_id@
                &&& shown.name@ == before.tables[shown.id@].table.name
                &&& shown.seats == before.tables[shown.id@].table.seats
                &&& shown.qr_value@ == before.tables[shown.id@].table.qr_value
            },
        forall|i: int, j: int|
            0 <= i < j < out->Ok_0@.len() ==> {
                let (a, b) = (#[trigger] out->Ok_0@[i], #[trigger] out->Ok_0@[j]);
                &&& a.id@ != b.id@
                &&& before.tables[a.id@].created_at <= before.tables[b.id@].created_at
            },
        forall|id: Seq<char>| #[trigger]
            before.tables.contains_key(id) && before.tables[id].org_id == org_id@ ==> exists|i: int|
                0 <= i < out->Ok_0@.len() && (#[trigger] out->Ok_0@[i]).id@ == id,
{
    outcomes::law_tables_are_listed(auth, org_id, step, before, out, after, turns);
    let shown = out->Ok_0@;
    let ids = choose|ids: Seq<Seq<char>>| #[trigger]
        store::shows_tables(before, org_id@, ids, shown);
    let wanted = |id: Seq<char>| before.has_table(org_id@, id);
    assert(store::lists(ids, wanted));
    assert forall|i: int| 0 <= i < shown.len() implies {
        let one = #[trigger] shown[i];
        &&& one.id@ == ids[i]
        &&& before.tables.contains_key(one.id@)
        &&& before.tables[one.id@].org_id == org_id@
        &&& one.name@ == before.tables[one.id@].table.name
        &&& one.seats == before.tables[one.id@].table.seats
        &&& one.qr_value@ == before.tables[one.id@].table.qr_value
    } by {
        assert(ids.contains(ids[i]));
        assert(wanted(ids[i]));
        assert(shown[i]@ == before.tables[ids[i]].table);
    }
    assert forall|i: int, j: int| 0 <= i < j < shown.len() implies {
        let (a, b) = (#[trigger] shown[i], #[trigger] shown[j]);
        &&& a.id@ != b.id@
        &&& before.tables[a.id@].created_at <= before.tables[b.id@].created_at
    } by {
        assert(shown[i].id@ == ids[i] && shown[j].id@ == ids[j]);
        assert(before.tables[ids[i]].created_at <= before.tables[ids[j]].created_at);
    }
    assert forall|id: Seq<char>| #[trigger]
        before.tables.contains_key(id) && before.tables[id].org_id == org_id@ implies exists|i: int|
        0 <= i < shown.len() && (#[trigger] shown[i]).id@ == id by {
        assert(wanted(id));
        assert(ids.contains(id));
        let i = choose|i: int| 0 <= i < ids.len() && ids[i] == id;
        assert(shown[i].id@ == id);
    }
}

} // verus!

//! Tables and their QR codes.

use vstd::prelude::*;

use crate::auth::{ensure_own_org, AuthUser};
use crate::error::{AppError, Status};
use crate::flow;
use crate::flow::{Changing, Effect, Job, Reply, Step};
use crate::ids;
use crate::records::{CreateTableBody, TableOut, TableView, UpdateTableBody};
use crate::text;

verus! {

/// What is left to do of a request that is answered with a table.
#[derive(Debug)]
pub enum TableJob {
    /// A new table was sent to the store, or a change of one.
    Changing { table_id: String },
    /// The table as it is was asked for, to be changed.
    Reading { table_id: String, body: UpdateTableBody },
    /// The table was asked for, to be shown.
    Showing,
}

/// The name of a table after a change.
pub open spec fn changed_name(body: UpdateTableBody, current: TableOut) -> Seq<char> {
    match body.name {
        Some(name) => name@,
        None => current.name@,
    }
}

/// The seats of a table after a change.
pub open spec fn changed_seats(body: UpdateTableBody, current: TableOut) -> i64 {
    match body.seats {
        Some(seats) => seats,
        None => current.seats,
    }
}

impl Job for TableJob {
    type Out = TableOut;

    open spec fn awaits(&self, reply: Reply) -> bool {
        reply is Failed || match self {
            TableJob::Changing { .. } => reply is Changed,
            _ => reply is Table,
        }
    }

    open spec fn turns_left(&self) -> nat {
        match self {
            TableJob::Reading { .. } => 3,
            TableJob::Changing { .. } => 2,
            TableJob::Showing => 1,
        }
    }

    open spec fn turn(&self, reply: Reply, step: Step<TableJob, TableOut>) -> bool {
        match reply {
            Reply::Failed(failure) => flow::fails_with(step, failure),
            _ => match self {
                TableJob::Changing { table_id } => step == Step::<TableJob, TableOut>::Await {
                    effect: Effect::FindTable { table_id: *table_id },
                    job: TableJob::Showing,
                },
                TableJob::Reading { table_id, body } => {
                    &&& step matches Step::Await {
                        effect: Effect::UpdateTable { table_id: id, name, seats },
                        job,
                    }
                    &&& id == *table_id
                    &&& name@ == changed_name(*body, reply->Table_0)
                    &&& seats == changed_seats(*body, reply->Table_0)
                    &&& job == TableJob::Changing { table_id: *table_id }
                },
                TableJob::Showing => step == Step::<TableJob, TableOut>::Done(Ok(reply->Table_0)),
            },
        }
    }

    fn resume(self, reply: Reply) -> (step: Step<TableJob, TableOut>) {
        match reply {
            Reply::Failed(failure) => Step::Done(Err(AppError::from_store(&failure))),
            Reply::Table(table) => match self {
                TableJob::Reading { table_id, body } => {
                    let name = match body.name {
                        Some(name) => name,
                        None => table.name,
                    };
                    let seats: i64 = match body.seats {
                        Some(seats) => seats,
                        None => table.seats,
                    };
                    Step::Await {
                        effect: Effect::UpdateTable { table_id: table_id.clone(), name, seats },
                        job: TableJob::Changing { table_id },
                    }
                },
                _ => Step::Done(Ok(table)),
            },
            _ => match self {
                TableJob::Changing { table_id } => Step::Await {
                    effect: Effect::FindTable { table_id },
                    job: TableJob::Showing,
                },
                _ => vstd::pervasive::unreached(),
            },
        }
    }

    proof fn goes_on_ready(&self, reply: Reply, step: Step<TableJob, TableOut>) {
    }
}

/// The tables of an organisation were asked for.
#[derive(Debug)]
pub struct ListingTables;

impl Job for ListingTables {
    type Out = Vec<TableOut>;

    open spec fn awaits(&self, reply: Reply) -> bool {
        reply is Failed || reply is Tables
    }

    open spec fn turns_left(&self) -> nat {
        1
    }

    open spec fn turn(&self, reply: Reply, step: Step<ListingTables, Vec<TableOut>>) -> bool {
        match reply {
            Reply::Failed(failure) => flow::fails_with(step, failure),
            _ => step == Step::<ListingTables, Vec<TableOut>>::Done(Ok(reply->Tables_0)),
        }
    }

    fn resume(self, reply: Reply) -> (step: Step<ListingTables, Vec<TableOut>>) {
        match reply {
            Reply::Failed(failure) => Step::Done(Err(AppError::from_store(&failure))),
            Reply::Tables(tables) => Step::Done(Ok(tables)),
            _ => vstd::pervasive::unreached(),
        }
    }

    proof fn goes_on_ready(&self, reply: Reply, step: Step<ListingTables, Vec<TableOut>>) {
    }
}

pub open spec fn list_tables_asks(
    auth: AuthUser,
    org_id: String,
    step: Step<ListingTables, Vec<TableOut>>,
) -> bool {
    if auth.org_id@ != org_id@ {
        flow::not_own_org(step)
    } else {
        step == Step::<ListingTables, Vec<TableOut>>::Await {
            effect: Effect::ListTables { org_id },
            job: ListingTables,
        }
    }
}

/// The tables of an organisation, for its admins.
pub fn list_tables(auth: &AuthUser, org_id: String) -> (step: Step<ListingTables, Vec<TableOut>>)
    ensures
        list_tables_asks(*auth, org_id, step),
        flow::ready(step),
{
    match ensure_own_org(auth, org_id.as_str()) {
        Ok(()) => Step::Await { effect: Effect::ListTables { org_id }, job: ListingTables },
        Err(e) => Step::Done(Err(e)),
    }
}

/// A table of an organisation.
pub fn get_table_handler(org_id: String, table_id: String) -> (step: Step<TableJob, TableOut>)
    ensures
        step == (Step::<TableJob, TableOut>::Await {
            effect: Effect::FindOrgTable { org_id, table_id },
            job: TableJob::Showing,
        }),
        flow::ready(step),
{
    Step::Await { effect: Effect::FindOrgTable { org_id, table_id }, job: TableJob::Showing }
}

/// A new table as it is kept: at least one seat, its name trimmed, and a QR code
/// that leads to the client's origin with the organisation and the table.
pub open spec fn new_table(
    body: CreateTableBody,
    client_origin: Seq<char>,
    org_id: Seq<char>,
    id: Seq<char>,
) -> TableView {
    TableView {
        id,
        name: text::trimmed(body.name@),
        seats: if body.seats < 1 {
            1
        } else {
            body.seats
        },
        qr_value: text::qr_link_text(client_origin, org_id, id),
    }
}

pub open spec fn create_table_asks(
    auth: AuthUser,
    org_id: String,
    body: CreateTableBody,
    client_origin: Seq<char>,
    id: String,
    now: i64,
    step: Step<TableJob, TableOut>,
) -> bool {
    if auth.org_id@ != org_id@ {
        flow::not_own_org(step)
    } else if text::is_blank(body.name@) {
        flow::refused(step, Status::BadRequest, "table name is required"@)
    } else {
        &&& step matches Step::Await {
            effect: Effect::InsertTable { org_id: org, table, created_at },
            job,
        }
        &&& org == org_id
        &&& table@ == new_table(body, client_origin, org_id@, id@)
        &&& created_at == now
        &&& job == TableJob::Changing { table_id: id }
    }
}

/// A new table for an organisation, by one of its admins, with the given id.
pub fn create_table_as(
    auth: &AuthUser,
    org_id: String,
    body: CreateTableBody,
    client_origin: &str,
    id: String,
    now: i64,
) -> (step: Step<TableJob, TableOut>)
    ensures
        create_table_asks(*auth, org_id, body, client_origin@, id, now, step),
        flow::ready(step),
{
    match ensure_own_org(auth, org_id.as_str()) {
        Ok(()) => {},
        Err(e) => return Step::Done(Err(e)),
    }
    if !text::has_ink(body.name.as_str()) {
        return Step::Done(Err(AppError::bad_request("table name is required")));
    }
    let table = TableOut {
        id: id.clone(),
        name: text::trim(body.name.as_str()).to_string(),
        seats: if body.seats < 1 {
            1
        } else {
            body.seats
        },
        qr_value: text::qr_link(client_origin, org_id.as_str(), id.as_str()),
    };
    Step::Await {
        effect: Effect::InsertTable { org_id, table, created_at: now },
        job: TableJob::Changing { table_id: id },
    }
}

/// A new table for an organisation, by one of its admins.
pub fn create_table(
    auth: &AuthUser,
    org_id: String,
    body: CreateTableBody,
    client_origin: &str,
    now: i64,
) -> (step: Step<TableJob, TableOut>)
    ensures
        exists|id: String|
            ids::is_random_uuid(id@) && #[trigger] create_table_asks(
                *auth,
                org_id,
                body,
                client_origin@,
                id,
                now,
                step,
            ),
        flow::ready(step),
{
    create_table_as(auth, org_id, body, client_origin, ids::new_id(), now)
}

pub open spec fn update_table_asks(
    auth: AuthUser,
    org_id: String,
    table_id: String,
    body: UpdateTableBody,
    step: Step<TableJob, TableOut>,
) -> bool {
    if auth.org_id@ != org_id@ {
        flow::not_own_org(step)
    } else {
        step == Step::<TableJob, TableOut>::Await {
            effect: Effect::FindOrgTable { org_id, table_id },
            job: TableJob::Reading { table_id, body },
        }
    }
}

/// A change of a table, by an admin of its organisation.
pub fn update_table(
    auth: &AuthUser,
    org_id: String,
    table_id: String,
    body: UpdateTableBody,
) -> (step: Step<TableJob, TableOut>)
    ensures
        update_table_asks(*auth, org_id, table_id, body, step),
        flow::ready(step),
{
    match ensure_own_org(auth, org_id.as_str()) {
        Ok(()) => Step::Await {
            effect: Effect::FindOrgTable { org_id, table_id: table_id.clone() },
            job: TableJob::Reading { table_id, body },
        },
        Err(e) => Step::Done(Err(e)),
    }
}

pub open spec fn delete_table_asks(
    auth: AuthUser,
    org_id: String,
    table_id: String,
    step: Step<Changing, ()>,
) -> bool {
    if auth.org_id@ != org_id@ {
        flow::not_own_org(step)
    } else {
        step == Step::<Changing, ()>::Await {
            effect: Effect::DeleteTable { org_id, table_id },
            job: Changing,
        }
    }
}

/// A table is taken away, by an admin of its organisation.
pub fn delete_table(auth: &AuthUser, org_id: String, table_id: String) -> (step: Step<Changing, ()>)
    ensures
        delete_table_asks(*auth, org_id, table_id, step),
        flow::ready(step),
{
    match ensure_own_org(auth, org_id.as_str()) {
        Ok(()) => Step::Await {
            effect: Effect::DeleteTable { org_id, table_id },
            job: Changing,
        },
        Err(e) => Step::Done(Err(e)),
    }
}

} // verus!

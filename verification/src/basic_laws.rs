//! What errors look like, and what a failure of the store is answered with.

use vstd::prelude::*;

use crate::accounts::AuthJob;
use crate::error::{AppError, Status, StoreFailure};
use crate::feed::{OrderSync, Syncing};
use crate::flow::{Changing, Job, Reply, Step};
use crate::menu::{ListingMenu, MenuItemJob};
use crate::orders::{ListingOrders, OrderEvent, OrderJob};
use crate::orgs::OrgJob;
use crate::records::{AuthResponse, MenuItemOut, OrderOut, OrgOut, TableOut};
use crate::seed::SeedJob;
use crate::tables::{ListingTables, TableJob};
use crate::text;

verus! {

/// The statuses have the numbers that HTTP gives them.
pub proof fn law_status_numbers()
    ensures
        Status::BadRequest.number() == 400,
        Status::Unauthorized.number() == 401,
        Status::Forbidden.number() == 403,
        Status::NotFound.number() == 404,
        Status::InternalServerError.number() == 500,
{
}

/// The request is done, and answered with what the store said: 404 where there are
/// no rows, and else 500 in the words of the store.
pub open spec fn told<J, T>(step: Step<J, T>, failure: StoreFailure) -> bool {
    &&& step is Done
    &&& step->Done_0 is Err
    &&& failure is NoRows ==> step->Done_0->Err_0.status == Status::NotFound
        && step->Done_0->Err_0.message@ == "Not found"@
    &&& failure matches StoreFailure::Other(words) ==> step->Done_0->Err_0.status
        == Status::InternalServerError && step->Done_0->Err_0.message@ == words@
}

/// The error that stands for a failure of the store.
pub proof fn law_error_of_a_failure(e: AppError, failure: StoreFailure)
    requires
        e.reports(failure),
    ensures
        failure is NoRows ==> e.status == Status::NotFound && e.message@ == "Not found"@,
        failure matches StoreFailure::Other(words) ==> e.status == Status::InternalServerError
            && e.message@ == words@,
{
}

/// Wherever the store fails a request about organisations, tables, menus or orders,
/// the request ends there and tells so.
pub proof fn law_failures_are_told(
    failure: StoreFailure,
    changing: Changing,
    s1: Step<Changing, ()>,
    org_job: OrgJob,
    s2: Step<OrgJob, OrgOut>,
    table_job: TableJob,
    s3: Step<TableJob, TableOut>,
    tables: ListingTables,
    s4: Step<ListingTables, Vec<TableOut>>,
    menu: ListingMenu,
    s5: Step<ListingMenu, Vec<MenuItemOut>>,
    item_job: MenuItemJob,
    s6: Step<MenuItemJob, MenuItemOut>,
    order_job: OrderJob,
    s7: Step<OrderJob, OrderEvent>,
    orders: ListingOrders,
    s8: Step<ListingOrders, Vec<OrderOut>>,
    seed_job: SeedJob,
    s9: Step<SeedJob, ()>,
)
    ensures
        changing.turn(Reply::Failed(failure), s1) ==> told(s1, failure),
        org_job.turn(Reply::Failed(failure), s2) ==> told(s2, failure),
        table_job.turn(Reply::Failed(failure), s3) ==> told(s3, failure),
        tables.turn(Reply::Failed(failure), s4) ==> told(s4, failure),
        menu.turn(Reply::Failed(failure), s5) ==> told(s5, failure),
        item_job.turn(Reply::Failed(failure), s6) ==> told(s6, failure),
        order_job.turn(Reply::Failed(failure), s7) ==> told(s7, failure),
        orders.turn(Reply::Failed(failure), s8) ==> told(s8, failure),
        seed_job.turn(Reply::Failed(failure), s9) ==> told(s9, failure),
{
}

/// Where the store fails a registration, the answer is 400, that the address is
/// taken, if the store says that something is not unique, and else what the store
/// said. Where it fails to find who logs in, the answer is that of a wrong password;
/// where it fails later, or fails to tell who one is, it is what the store said.
pub proof fn law_failures_of_accounts_are_told(
    failure: StoreFailure,
    job: AuthJob,
    step: Step<AuthJob, AuthResponse>,
)
    requires
        job.turn(Reply::Failed(failure), step),
    ensures
        ({
            let registering = job is AddingOrg || job is AddingUser || job is Registered;
            let twice = failure matches StoreFailure::Other(words) && text::occurs_in(
                "UNIQUE"@,
                words@,
            );
            &&& registering && twice ==> (step matches Step::Done(Err(e)) && e.status
                == Status::BadRequest && e.message@ == "an account with that email already exists"@)
            &&& registering && !twice ==> told(step, failure)
            &&& job is Checking ==> (step matches Step::Done(Err(e)) && e.status
                == Status::Unauthorized && e.message@ == "invalid email or password"@)
            &&& job is Entering || job is Recalling || job is Recognising ==> told(step, failure)
        }),
{
}

/// A listener whose orders cannot be found gets none, and no error.
pub proof fn law_failed_sync_shows_nothing(
    failure: StoreFailure,
    job: Syncing,
    step: Step<Syncing, OrderSync>,
)
    requires
        job.turn(Reply::Failed(failure), step),
    ensures
        step matches Step::Done(Ok(sync)) && sync.orders@.len() == 0 && sync.sync_type@
            == "orders:sync"@,
{
}

} // verus!

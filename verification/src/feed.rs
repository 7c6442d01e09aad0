//! The live feed of orders for the admins of an organisation.

use vstd::prelude::*;

use crate::auth;
use crate::auth::{Claims, ClaimsView};
use crate::clock;
use crate::error::{AppError, Status};
use crate::flow;
use crate::flow::{Effect, Job, OrderFilter, Reply, Step};
use crate::json;
use crate::orders;
use crate::orders::{OrderEvent, OrderJob};
use crate::records::{OrderOut, WsQuery};
use crate::text;

verus! {

// ---------------------------------------------------------------------------
// Who may listen
// ---------------------------------------------------------------------------

/// A feed is opened only for the organisation that the token was issued for.
pub open spec fn admission(claims: Result<Claims, AppError>, org_id: Seq<char>, r: Result<(), AppError>) -> bool {
    match claims {
        Ok(claims) => if claims.org_id@ == org_id {
            r is Ok
        } else {
            r matches Err(e) && e.says(Status::Forbidden, "token does not match orgId"@)
        },
        Err(e) => r == Err::<(), AppError>(e),
    }
}

pub fn may_listen(claims: Result<Claims, AppError>, org_id: &String) -> (r: Result<(), AppError>)
    ensures
        admission(claims, org_id@, r),
{
    match claims {
        Ok(claims) => if claims.org_id == *org_id {
            Ok(())
        } else {
            Err(AppError::forbidden("token does not match orgId"))
        },
        Err(e) => Err(e),
    }
}

/// A feed is opened for whom the token speaks of, and for no other organisation.
pub open spec fn opens(
    outcome: Result<ClaimsView, Seq<char>>,
    org_id: Seq<char>,
    r: Result<(), AppError>,
) -> bool {
    match outcome {
        Ok(claims) => if claims.org_id == org_id {
            r is Ok
        } else {
            r matches Err(e) && e.says(Status::Forbidden, "token does not match orgId"@)
        },
        Err(words) => r matches Err(e) && e.says(Status::Unauthorized, "invalid token: "@ + words),
    }
}

/// Whether a feed is opened. This is settled before it is, so that a bad token
/// gets a plain answer and not a feed that closes at once.
pub fn ws_orders(q: &WsQuery, secret: &str) -> (r: Result<(), AppError>)
    ensures
        exists|second: u64|
            opens(#[trigger] auth::token_outcome(q.token@, secret@, second), q.org_id@, r),
{
    let claims = auth::verify_token(q.token.as_str(), secret);
    let ghost second = choose|second: u64|
        auth::tells(#[trigger] auth::token_outcome(q.token@, secret@, second), claims);
    let r = may_listen(claims, &q.org_id);
    assert(opens(auth::token_outcome(q.token@, secret@, second), q.org_id@, r));
    r
}

// ---------------------------------------------------------------------------
// The loop
// ---------------------------------------------------------------------------

/// A message for the listeners of an organisation.
#[derive(Debug)]
pub struct BroadcastMsg {
    pub org_id: String,
    pub payload: String,
}

/// What an open feed waits for.
#[derive(Debug)]
pub enum FeedEvent {
    /// The listener sent a text.
    Text(String),
    /// The listener closes the feed.
    Close,
    /// Nothing more can be received from the listener.
    Broken,
    /// Anything else from the listener.
    Other,
    /// A message for the listeners of an organisation.
    Broadcast(BroadcastMsg),
    /// Messages came faster than they were passed on, and some were dropped.
    Lagged,
    /// There will be no more messages.
    Silent,
    /// What was sent to the listener did not get through.
    NotSent,
}

/// What an open feed does next.
#[derive(Debug)]
pub enum FeedAction {
    /// Waits for the next event.
    Wait,
    /// Sends the text to the listener.
    Send(String),
    /// Does what the listener asks for.
    Handle(String),
    /// Ends the feed.
    Stop,
}

pub open spec fn feed_action(org_id: Seq<char>, event: FeedEvent) -> FeedAction {
    match event {
        FeedEvent::Text(words) => FeedAction::Handle(words),
        FeedEvent::Close => FeedAction::Stop,
        FeedEvent::Broken => FeedAction::Stop,
        FeedEvent::Other => FeedAction::Wait,
        FeedEvent::Broadcast(msg) => if msg.org_id@ == org_id {
            FeedAction::Send(msg.payload)
        } else {
            FeedAction::Wait
        },
        FeedEvent::Lagged => FeedAction::Wait,
        FeedEvent::Silent => FeedAction::Stop,
        FeedEvent::NotSent => FeedAction::Stop,
    }
}

/// What the feed of an organisation does next, after the event.
pub fn handle_socket(org_id: &String, event: FeedEvent) -> (r: FeedAction)
    ensures
        r == feed_action(org_id@, event),
{
    match event {
        FeedEvent::Text(words) => FeedAction::Handle(words),
        FeedEvent::Close => FeedAction::Stop,
        FeedEvent::Broken => FeedAction::Stop,
        FeedEvent::Other => FeedAction::Wait,
        FeedEvent::Broadcast(msg) => if msg.org_id == *org_id {
            FeedAction::Send(msg.payload)
        } else {
            FeedAction::Wait
        },
        FeedEvent::Lagged => FeedAction::Wait,
        FeedEvent::Silent => FeedAction::Stop,
        FeedEvent::NotSent => FeedAction::Stop,
    }
}

// ---------------------------------------------------------------------------
// What listeners ask for
// ---------------------------------------------------------------------------

/// The orders that a listener starts with.
#[derive(Debug)]
pub struct OrderSync {
    pub sync_type: String,
    pub orders: Vec<OrderOut>,
}

/// The orders of today were asked for, for a listener.
#[derive(Debug)]
pub struct Syncing;

impl Job for Syncing {
    type Out = OrderSync;

    open spec fn awaits(&self, reply: Reply) -> bool {
        reply is Failed || reply is Orders
    }

    open spec fn turns_left(&self) -> nat {
        1
    }

    open spec fn turn(&self, reply: Reply, step: Step<Syncing, OrderSync>) -> bool {
        &&& step matches Step::Done(Ok(sync))
        &&& sync.sync_type@ == "orders:sync"@
        &&& match reply {
            Reply::Orders(orders) => sync.orders == orders,
            _ => sync.orders@.len() == 0,
        }
    }

    fn resume(self, reply: Reply) -> (step: Step<Syncing, OrderSync>) {
        let orders = match reply {
            Reply::Orders(orders) => orders,
            _ => Vec::new(),
        };
        Step::Done(Ok(OrderSync { sync_type: "orders:sync".to_string(), orders }))
    }

    proof fn goes_on_ready(&self, reply: Reply, step: Step<Syncing, OrderSync>) {
    }
}

/// What a text from a listener asks for.
#[derive(Debug)]
pub enum ClientAction {
    /// Nothing.
    Ignore,
    /// The orders of today, for this listener.
    Sync(Step<Syncing, OrderSync>),
    /// A new status of an order; where that succeeds, all listeners learn of it.
    Update(Step<OrderJob, OrderEvent>),
    /// A message for all listeners of the organisation.
    Publish(BroadcastMsg),
}

/// The string member of the JSON object, or the empty text.
pub open spec fn member_or_empty(words: Seq<char>, key: Seq<char>) -> Seq<char> {
    match json::json_string_member(words, key) {
        Some(member) => member,
        None => Seq::empty(),
    }
}

fn member(words: &str, key: &str) -> (r: String)
    ensures
        r@ == member_or_empty(words@, key@),
{
    match json::string_member(words, key) {
        Some(member) => member,
        None => String::new(),
    }
}

/// The orders that were created since midnight.
pub open spec fn since_midnight(now_utc: i64) -> OrderFilter {
    OrderFilter {
        table_id: None,
        pending_only: false,
        from: clock::midnight(now_utc as int) as i64,
        to: None,
        status: None,
    }
}

/// The orders of the organisation that were created since midnight are asked for.
pub open spec fn syncs(org_id: Seq<char>, now_utc: i64, step: Step<Syncing, OrderSync>) -> bool {
    &&& step matches Step::Await { effect: Effect::ListOrders { org_id: org, filter }, job }
    &&& org@ == org_id
    &&& filter == since_midnight(now_utc)
}

/// The status of the order is set for the organisation of the listener, and for
/// no other.
pub open spec fn updates(
    org_id: Seq<char>,
    order_id: Seq<char>,
    status: Seq<char>,
    now: i64,
    step: Step<OrderJob, OrderEvent>,
) -> bool {
    exists|org: String, order: String, new_status: String|
        org@ == org_id && order@ == order_id && new_status@ == status
            && #[trigger] orders::sets_status(org, order, new_status, now, step)
}

pub open spec fn client_action(
    org_id: Seq<char>,
    kind: Seq<char>,
    order_id: Seq<char>,
    status: Seq<char>,
    retagged: Seq<char>,
    now: i64,
    now_utc: i64,
    action: ClientAction,
) -> bool {
    if kind == "orders:subscribe"@ {
        action matches ClientAction::Sync(step) && syncs(org_id, now_utc, step)
    } else if kind == "order:updateStatus"@ {
        if order_id.len() == 0 || !flow::valid_status(status) {
            action is Ignore
        } else {
            action matches ClientAction::Update(step) && updates(
                org_id,
                order_id,
                status,
                now,
                step,
            )
        }
    } else if kind == "order:new"@ {
        &&& action matches ClientAction::Publish(msg)
        &&& msg.org_id@ == org_id
        &&& msg.payload@ == retagged
    } else {
        action is Ignore
    }
}

/// The steps that an action starts with, if any, are ready.
pub open spec fn action_ready(action: ClientAction) -> bool {
    match action {
        ClientAction::Sync(step) => flow::ready(step),
        ClientAction::Update(step) => flow::ready(step),
        _ => true,
    }
}

proof fn lemma_kinds_differ()
    ensures
        "orders:subscribe"@ != "order:updateStatus"@,
        "orders:subscribe"@ != "order:new"@,
        "order:updateStatus"@ != "order:new"@,
{
    reveal_strlit("orders:subscribe");
    reveal_strlit("order:updateStatus");
    reveal_strlit("order:new");
    assert("orders:subscribe"@.len() != "order:updateStatus"@.len());
    assert("orders:subscribe"@.len() != "order:new"@.len());
    assert("order:updateStatus"@.len() != "order:new"@.len());
}

/// What is done for a message of this kind that a listener of the organisation
/// sent, with what the message says of an order. `now` is the time for changes,
/// `now_utc` the one that today is told by.
pub fn client_request(
    org_id: &String,
    kind: &String,
    order_id: String,
    status: String,
    retagged: String,
    now: i64,
    now_utc: i64,
) -> (r: ClientAction)
    requires
        clock::in_calendar(now_utc),
    ensures
        client_action(org_id@, kind@, order_id@, status@, retagged@, now, now_utc, r),
        action_ready(r),
{
    proof {
        lemma_kinds_differ();
    }
    if text::reads(kind, "orders:subscribe") {
        ClientAction::Sync(
            Step::Await {
                effect: Effect::ListOrders {
                    org_id: org_id.clone(),
                    filter: OrderFilter {
                        table_id: None,
                        pending_only: false,
                        from: clock::day_start(now_utc),
                        to: None,
                        status: None,
                    },
                },
                job: Syncing,
            },
        )
    } else if text::reads(kind, "order:updateStatus") {
        if order_id.as_str().is_empty() || !orders::is_valid_status(&status) {
            ClientAction::Ignore
        } else {
            let step = orders::set_status(org_id.clone(), order_id, status, now);
            assert(updates(org_id@, order_id@, status@, now, step));
            ClientAction::Update(step)
        }
    } else if text::reads(kind, "order:new") {
        ClientAction::Publish(BroadcastMsg { org_id: org_id.clone(), payload: retagged })
    } else {
        ClientAction::Ignore
    }
}

/// What a text from a listener of the organisation asks for: by its members
/// `type`, `orderId` and `status`. Of a new order, its member `order` is passed on
/// as it is.
pub open spec fn message_action(
    org_id: Seq<char>,
    words: Seq<char>,
    now: i64,
    now_utc: i64,
    action: ClientAction,
) -> bool {
    client_action(
        org_id,
        member_or_empty(words, "type"@),
        member_or_empty(words, "orderId"@),
        member_or_empty(words, "status"@),
        json::tagged(json::json_member(words, "order"@), "order"@, "type"@, "order:new"@),
        now,
        now_utc,
        action,
    )
}

pub fn handle_client_message_at(org_id: &String, words: &str, now: i64, now_utc: i64) -> (r:
    ClientAction)
    requires
        clock::in_calendar(now_utc),
    ensures
        message_action(org_id@, words@, now, now_utc, r),
        action_ready(r),
{
    let kind = member(words, "type");
    let order_id = member(words, "orderId");
    let status = member(words, "status");
    let retagged = json::retag(words, "order", "type", "order:new");
    client_request(org_id, &kind, order_id, status, retagged, now, now_utc)
}

/// What a text from a listener of the organisation asks for, by the clock.
pub fn handle_client_message(org_id: &String, words: &str, now: i64) -> (r: ClientAction)
    ensures
        exists|now_utc: i64|
            clock::in_calendar(now_utc) && #[trigger] message_action(
                org_id@,
                words@,
                now,
                now_utc,
                r,
            ),
        action_ready(r),
{
    handle_client_message_at(org_id, words, now, clock::utc_now_ms())
}

} // verus!

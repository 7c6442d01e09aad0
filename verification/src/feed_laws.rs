//! What a feed does with what it hears, and what a listener can bring about.

use vstd::prelude::*;

use crate::auth;
use crate::auth::Claims;
use crate::error::{AppError, Status};
use crate::feed;
use crate::feed::{BroadcastMsg, ClientAction, FeedAction, FeedEvent};
use crate::json;
use crate::orders::OrderEvent;
use crate::outcomes;
use crate::soundness;
use crate::store;
use crate::store::Db;

verus! {

/// A feed ends when the listener closes it, when nothing more can be heard from the
/// listener or nothing more can be sent, and when there will be no more messages;
/// it handles every text of the listener, passes on every message for its own
/// organisation as it is, and goes on waiting after all else.
pub proof fn law_what_a_feed_does(
    org_id: Seq<char>,
    words: String,
    own: BroadcastMsg,
    foreign: BroadcastMsg,
)
    requires
        own.org_id@ == org_id,
        foreign.org_id@ != org_id,
    ensures
        feed::feed_action(org_id, FeedEvent::Text(words)) == FeedAction::Handle(words),
        feed::feed_action(org_id, FeedEvent::Broadcast(own)) == FeedAction::Send(own.payload),
        feed::feed_action(org_id, FeedEvent::Broadcast(foreign)) == FeedAction::Wait,
        feed::feed_action(org_id, FeedEvent::Close) == FeedAction::Stop,
        feed::feed_action(org_id, FeedEvent::Broken) == FeedAction::Stop,
        feed::feed_action(org_id, FeedEvent::NotSent) == FeedAction::Stop,
        feed::feed_action(org_id, FeedEvent::Silent) == FeedAction::Stop,
        feed::feed_action(org_id, FeedEvent::Lagged) == FeedAction::Wait,
        feed::feed_action(org_id, FeedEvent::Other) == FeedAction::Wait,
{
}

proof fn lemma_kinds()
    ensures
        "orders:subscribe"@ != "order:updateStatus"@,
        "orders:subscribe"@ != "order:new"@,
        "order:updateStatus"@ != "order:new"@,
{
    reveal_strlit("orders:subscribe");
    reveal_strlit("order:updateStatus");
    reveal_strlit("order:new");
    assert("orders:subscribe"@.len() != "order:updateStatus"@.len());
    assert("orders:subscribe"@.len() != "order:new"@.len());
    assert("order:updateStatus"@.len() != "order:new"@.len());
}

/// What a listener says is told by the type of the message: a subscription is
/// answered with the orders of the organisation, a status that is one of the four
/// is set for the order that the message names, the order of a new order is passed
/// on word by word to all listeners of the organisation, and all else is ignored.
pub proof fn law_what_a_listener_can_say(
    org_id: Seq<char>,
    words: Seq<char>,
    now: i64,
    now_utc: i64,
    action: ClientAction,
)
    requires
        feed::message_action(org_id, words, now, now_utc, action),
    ensures
        ({
            let kind = json::json_string_member(words, "type"@);
            let order_id = json::json_string_member(words, "orderId"@);
            let status = json::json_string_member(words, "status"@);
            let order = json::json_member(words, "order"@);
            let settable = order_id is Some && order_id->0.len() > 0 && (status == Some("new"@)
                || status == Some("preparing"@) || status == Some("ready"@) || status == Some(
                "served"@,
            ));
            &&& kind == Some("orders:subscribe"@) ==> action is Sync && feed::syncs(
                org_id,
                now_utc,
                action->Sync_0,
            )
            &&& kind == Some("order:updateStatus"@) && settable ==> action is Update
                && feed::updates(org_id, order_id->0, status->0, now, action->Update_0)
            &&& kind == Some("order:updateStatus"@) && !settable ==> action is Ignore
            &&& kind == Some("order:new"@) ==> action is Publish && action->Publish_0.org_id@
                == org_id && action->Publish_0.payload@ == "{\""@ + "order"@ + "\":"@ + (
            match order {
                Some(order) => order,
                None => "null"@,
            }) + ",\""@ + "type"@ + "\":\""@ + "order:new"@ + "\"}"@
            &&& kind != Some("orders:subscribe"@) && kind != Some("order:updateStatus"@) && kind
                != Some("order:new"@) ==> action is Ignore
        }),
{
    lemma_kinds();
    reveal_strlit("orders:subscribe");
    reveal_strlit("order:updateStatus");
    reveal_strlit("order:new");
    reveal_strlit("new");
    reveal_strlit("preparing");
    reveal_strlit("ready");
    reveal_strlit("served");
    let none = Seq::<char>::empty();
    assert(none.len() == 0);
    assert(none != "orders:subscribe"@ && none != "order:updateStatus"@ && none != "order:new"@);
    assert(none != "new"@ && none != "preparing"@ && none != "ready"@ && none != "served"@);
}

/// A listener's change of a status sets it on the order of the organisation, with
/// the time of the change, and changes nothing else; it is announced as an update
/// to that organisation. An order of another organisation is not found, and nothing
/// changes. That is so on a store that serves steadily.
pub proof fn law_listener_sets_the_status(
    org_id: Seq<char>,
    words: Seq<char>,
    now: i64,
    now_utc: i64,
    action: ClientAction,
    order_id: Seq<char>,
    status: Seq<char>,
    before: Db,
    out: Result<OrderEvent, AppError>,
    after: Db,
    turns: nat,
)
    requires
        soundness::sound(before),
        feed::message_action(org_id, words, now, now_utc, action),
        json::json_string_member(words, "type"@) == Some("order:updateStatus"@),
        json::json_string_member(words, "orderId"@) == Some(order_id),
        json::json_string_member(words, "status"@) == Some(status),
        action is Update,
        store::steady_run(action->Update_0, before, out, after, turns),
    ensures
        ({
            let own = before.orders.contains_key(order_id) && before.orders[order_id].org_id == org_id;
            let was = before.orders[order_id];
            let is = after.orders[order_id];
            &&& own ==> {
                &&& out is Ok
                &&& is.status == status
                &&& is.updated_at == now
                &&& is.id == was.id
                &&& is.org_id == was.org_id
                &&& is.table_id == was.table_id
                &&& is.table_name == was.table_name
                &&& is.subtotal == was.subtotal
                &&& is.tax == was.tax
                &&& is.total == was.total
                &&& is.created_at == was.created_at
                &&& after == (Db { orders: before.orders.insert(order_id, is), ..before })
                &&& out->Ok_0.org_id@ == org_id
                &&& out->Ok_0.event_type@ == "order:update"@
                &&& out->Ok_0.order.id@ == order_id
                &&& out->Ok_0.order.status@ == status
                &&& out->Ok_0.order.updated_at == now
            }
            &&& !own ==> after == before && (out matches Err(e) && e.status == Status::NotFound)
        }),
{
    lemma_kinds();
    let step = action->Update_0;
    assert(feed::updates(org_id, order_id, status, now, step));
    outcomes::law_listener_moves_order_on_if_kept(
        org_id,
        order_id,
        status,
        now,
        step,
        before,
        out,
        after,
        turns,
    );
    let (r1, mid1, s2) = soundness::lemma_one_steady_turn(
        step->effect,
        step->job,
        before,
        out,
        after,
        turns,
    );
    let (r2, mid2, s3) = soundness::lemma_one_steady_turn(
        s2->effect,
        s2->job,
        mid1,
        out,
        after,
        (turns - 1) as nat,
    );
    assert(before.has_order(org_id, order_id) == (before.orders.contains_key(order_id)
        && before.orders[order_id].org_id == org_id));
}

/// Whoever holds a token that was issued for an organisation can open the feed of
/// that organisation, for the week that the token is good for, and is refused with
/// 403 at any other.
pub proof fn law_token_opens_one_feed(
    now_ms: i64,
    user_id: Seq<char>,
    org_id: Seq<char>,
    secret: Seq<char>,
    token: Seq<char>,
    second: u64,
    asked: Seq<char>,
    r: Result<(), AppError>,
)
    requires
        auth::token_issued_at(now_ms, user_id, org_id, secret, token),
        60 <= second <= now_ms as int / 1000 + 604_800,
        feed::opens(auth::token_outcome(token, secret, second), asked, r),
    ensures
        asked == org_id ==> r is Ok,
        asked != org_id ==> (r matches Err(e) && e.status == Status::Forbidden && e.message@
            == "token does not match orgId"@),
{
    assert(auth::token_fault(token, secret, second) is None);
}

/// Whose claims were accepted can open the feed of the organisation that they name
/// and of no other; whose were not is refused in the same way.
pub proof fn law_claims_open_one_feed(
    claims: Result<Claims, AppError>,
    asked: Seq<char>,
    r: Result<(), AppError>,
)
    requires
        feed::admission(claims, asked, r),
    ensures
        r is Ok <==> claims is Ok && claims->Ok_0.org_id@ == asked,
        claims is Err ==> r is Err && r->Err_0 == claims->Err_0,
        claims is Ok && claims->Ok_0.org_id@ != asked ==> (r matches Err(e) && e.status
            == Status::Forbidden && e.message@ == "token does not match orgId"@),
{
}

/// A feed is refused with 401, in the words with which the token is, wherever the
/// token is refused.
pub proof fn law_refused_token_opens_no_feed(
    token: Seq<char>,
    secret: Seq<char>,
    second: u64,
    asked: Seq<char>,
    r: Result<(), AppError>,
)
    requires
        feed::opens(auth::token_outcome(token, secret, second), asked, r),
        auth::token_outcome(token, secret, second) is Err,
    ensures
        r matches Err(e) && e.status == Status::Unauthorized && e.message@ == "invalid token: "@
            + auth::token_outcome(token, secret, second)->Err_0,
{
}

} // verus!

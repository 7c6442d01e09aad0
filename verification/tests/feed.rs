use hotel_orders::auth::{issue_token, Claims};
use hotel_orders::clock::utc_now_ms;
use hotel_orders::error::Status;
use hotel_orders::feed::{
    client_request, handle_client_message, handle_client_message_at, handle_socket, may_listen,
    ws_orders, BroadcastMsg, ClientAction, FeedAction, FeedEvent,
};
use hotel_orders::flow::{Effect, Step};
use hotel_orders::json::tag_member;
use hotel_orders::orders::{range_between, resolve_range, resolve_range_at};
use hotel_orders::records::{AdminOrdersQuery, WsQuery};

fn s(x: &str) -> String {
    x.to_string()
}

#[test]
fn feeds_are_for_the_org_of_the_token() {
    let token = issue_token("u", "o", "k").unwrap();
    assert!(ws_orders(&WsQuery { org_id: s("o"), token: token.clone() }, "k").is_ok());
    let e = ws_orders(&WsQuery { org_id: s("p"), token: token.clone() }, "k").unwrap_err();
    assert_eq!((e.status, e.message.as_str()), (Status::Forbidden, "token does not match orgId"));
    let e = ws_orders(&WsQuery { org_id: s("o"), token }, "other").unwrap_err();
    assert_eq!(e.status, Status::Unauthorized);
    let claims = Claims { sub: s("u"), org_id: s("o"), exp: 0 };
    assert!(may_listen(Ok(claims), &s("o")).is_ok());
}

#[test]
fn feeds_pass_on_their_own_messages() {
    let org = s("o");
    let msg = |org: &str| FeedEvent::Broadcast(BroadcastMsg { org_id: s(org), payload: s("p") });
    assert!(matches!(handle_socket(&org, msg("o")), FeedAction::Send(p) if p == "p"));
    assert!(matches!(handle_socket(&org, msg("x")), FeedAction::Wait));
    assert!(matches!(handle_socket(&org, FeedEvent::Lagged), FeedAction::Wait));
    assert!(matches!(handle_socket(&org, FeedEvent::Other), FeedAction::Wait));
    assert!(matches!(handle_socket(&org, FeedEvent::Silent), FeedAction::Stop));
    assert!(matches!(handle_socket(&org, FeedEvent::Close), FeedAction::Stop));
    assert!(matches!(handle_socket(&org, FeedEvent::Broken), FeedAction::Stop));
    assert!(matches!(handle_socket(&org, FeedEvent::NotSent), FeedAction::Stop));
    assert!(matches!(handle_socket(&org, FeedEvent::Text(s("t"))), FeedAction::Handle(t) if t == "t"));
}

#[test]
fn unknown_messages_are_ignored() {
    for words in [
        "",
        "not json",
        "[]",
        "{\"type\":5}",
        "{\"type\":\"hello\"}",
        "{\"type\":\"order:updateStatus\"}",
        "{\"type\":\"order:updateStatus\",\"orderId\":\"\",\"status\":\"ready\"}",
        "{\"type\":\"order:updateStatus\",\"orderId\":\"x\",\"status\":\"eaten\"}",
        "{\"type\":\"order:updateStatus\",\"orderId\":7,\"status\":\"ready\"}",
    ] {
        assert!(matches!(handle_client_message(&s("o"), words, 0), ClientAction::Ignore), "{}", words);
    }
}

#[test]
fn new_orders_are_published() {
    let words = "{\"type\":\"order:new\",\"order\":{\"id\":\"1\",\"qty\":2},\"extra\":true}";
    match handle_client_message(&s("o"), words, 0) {
        ClientAction::Publish(msg) => {
            assert_eq!(msg.org_id, "o");
            assert_eq!(msg.payload, "{\"order\":{\"id\":\"1\",\"qty\":2},\"type\":\"order:new\"}");
            let value: serde_json::Value = serde_json::from_str(&msg.payload).unwrap();
            let object = value.as_object().unwrap();
            assert_eq!(object.len(), 2);
            assert_eq!(object["type"], "order:new");
            assert_eq!(object["order"]["id"], "1");
            assert_eq!(object["order"]["qty"], 2);
        }
        other => panic!("{:?}", other),
    }
    match handle_client_message(&s("o"), "{\"type\":\"order:new\"}", 0) {
        ClientAction::Publish(msg) => {
            assert_eq!(msg.payload, "{\"order\":null,\"type\":\"order:new\"}");
        }
        other => panic!("{:?}", other),
    }
}

#[test]
fn reserved_keys_are_passed_on() {
    let words = "{\"type\":\"order:new\",\"order\":{\"a\":1,\"$serde_json::private::RawValue\":0}}";
    match handle_client_message(&s("o"), words, 0) {
        ClientAction::Publish(msg) => assert_eq!(
            msg.payload,
            "{\"order\":{\"$serde_json::private::RawValue\":0,\"a\":1},\"type\":\"order:new\"}"
        ),
        other => panic!("{:?}", other),
    }
}

#[test]
fn members_are_tagged() {
    assert_eq!(tag_member(Some(s("[1]")), "a", "b", "c"), "{\"a\":[1],\"b\":\"c\"}");
    assert_eq!(tag_member(None, "a", "b", "c"), "{\"a\":null,\"b\":\"c\"}");
}

#[test]
fn subscribers_get_the_orders_of_today() {
    match handle_client_message_at(&s("o"), "{\"type\":\"orders:subscribe\"}", 0, 1_000_000_000_555) {
        ClientAction::Sync(Step::Await { effect: Effect::ListOrders { org_id, filter }, .. }) => {
            assert_eq!(org_id, "o");
            assert_eq!(filter.from, 999_993_600_000);
            assert!(filter.to.is_none() && filter.status.is_none() && filter.table_id.is_none());
            assert!(!filter.pending_only);
        }
        other => panic!("{:?}", other),
    }
}

#[test]
fn updates_are_for_the_org_of_the_feed() {
    match client_request(&s("o"), &s("order:updateStatus"), s("7"), s("ready"), s(""), 9, 0) {
        ClientAction::Update(Step::Await { effect: Effect::SetOrderStatus { org_id, order_id, status, at }, .. }) => {
            assert_eq!((org_id.as_str(), order_id.as_str(), status.as_str(), at), ("o", "7", "ready", 9));
        }
        other => panic!("{:?}", other),
    }
}

fn query(from: Option<&str>, to: Option<&str>) -> AdminOrdersQuery {
    AdminOrdersQuery { scope: None, from: from.map(s), to: to.map(s), status: None }
}

#[test]
fn ranges_from_rfc3339() {
    let q = query(Some("1996-12-19T16:39:57-08:00"), Some("1970-01-01T00:00:01.444Z"));
    assert_eq!(resolve_range_at(&q, 0).unwrap(), (851_042_397_000, 1_444));
    let e = resolve_range_at(&query(Some("yesterday"), Some("today")), 0).unwrap_err();
    assert_eq!((e.status, e.message.as_str()), (Status::BadRequest, "`from` must be RFC3339"));
    let e = resolve_range_at(&query(Some("1970-01-01T00:00:00Z"), Some("1970-01-01")), 0).unwrap_err();
    assert_eq!((e.status, e.message.as_str()), (Status::BadRequest, "`to` must be RFC3339"));
}

#[test]
fn ranges_between_points_in_time() {
    assert_eq!(range_between(Some(5), Some(3)).unwrap(), (5, 3));
    assert_eq!(range_between(None, None).unwrap_err().message, "`from` must be RFC3339");
    assert_eq!(range_between(Some(5), None).unwrap_err().message, "`to` must be RFC3339");
}

#[test]
fn ranges_default_to_today() {
    for q in [query(None, None), query(Some("bad"), None), query(None, Some("bad"))] {
        assert_eq!(resolve_range_at(&q, 1_000_000_000_555).unwrap(), (999_993_600_000, 1_000_000_000_555));
    }
    let (from, to) = resolve_range(&query(None, None)).unwrap();
    assert!(from <= to && to - from < 86_400_000 && from % 86_400_000 == 0);
    assert!(to <= utc_now_ms());
}

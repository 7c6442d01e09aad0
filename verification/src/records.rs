//! The records that the service keeps and answers with, and the bodies and
//! queries of its requests.

use vstd::prelude::*;

use crate::json;

verus! {

/// An amount of money: the bits of an IEEE 754 double. Amounts are passed on as
/// they are; adding them up is left to the program around the library.
#[derive(Clone, Copy, Debug, PartialEq, Eq, Structural)]
pub struct Price {
    pub bits: u64,
}

/// The colours that an organisation shows itself in.
#[derive(Debug)]
pub struct ThemeOut {
    pub primary: String,
    pub primary_dark: String,
    pub accent: String,
    pub accent_soft: String,
    pub background: String,
    pub surface: String,
    pub text_primary: String,
    pub text_secondary: String,
    pub border: String,
}

#[verifier::ext_equal]
pub struct ThemeView {
    pub primary: Seq<char>,
    pub primary_dark: Seq<char>,
    pub accent: Seq<char>,
    pub accent_soft: Seq<char>,
    pub background: Seq<char>,
    pub surface: Seq<char>,
    pub text_primary: Seq<char>,
    pub text_secondary: Seq<char>,
    pub border: Seq<char>,
}

impl View for ThemeOut {
    type V = ThemeView;

    open spec fn view(&self) -> ThemeView {
        ThemeView {
            primary: self.primary@,
            primary_dark: self.primary_dark@,
            accent: self.accent@,
            accent_soft: self.accent_soft@,
            background: self.background@,
            surface: self.surface@,
            text_primary: self.text_primary@,
            text_secondary: self.text_secondary@,
            border: self.border@,
        }
    }
}

/// An organisation: a restaurant or a hotel.
#[derive(Debug)]
pub struct OrgOut {
    pub id: String,
    pub name: String,
    pub tagline: String,
    pub logo_initial: String,
    pub theme: ThemeOut,
}

#[verifier::ext_equal]
pub struct OrgView {
    pub id: Seq<char>,
    pub name: Seq<char>,
    pub tagline: Seq<char>,
    pub logo_initial: Seq<char>,
    pub theme: ThemeView,
}

impl View for OrgOut {
    type V = OrgView;

    open spec fn view(&self) -> OrgView {
        OrgView {
            id: self.id@,
            name: self.name@,
            tagline: self.tagline@,
            logo_initial: self.logo_initial@,
            theme: self.theme@,
        }
    }
}

/// An admin, as far as answers show one.
#[derive(Debug)]
pub struct UserOut {
    pub id: String,
    pub name: String,
    pub email: String,
}

#[verifier::ext_equal]
pub struct UserView {
    pub id: Seq<char>,
    pub name: Seq<char>,
    pub email: Seq<char>,
}

impl View for UserOut {
    type V = UserView;

    open spec fn view(&self) -> UserView {
        UserView {
            id: self.id@,
            name: self.name@,
            email: self.email@,
        }
    }
}

/// An admin, as kept.
#[derive(Debug)]
pub struct UserRow {
    pub id: String,
    pub org_id: String,
    pub name: String,
    pub email: String,
    pub password_hash: String,
    pub created_at: i64,
}

#[verifier::ext_equal]
pub struct UserRowView {
    pub id: Seq<char>,
    pub org_id: Seq<char>,
    pub name: Seq<char>,
    pub email: Seq<char>,
    pub password_hash: Seq<char>,
    pub created_at: i64,
}

impl View for UserRow {
    type V = UserRowView;

    open spec fn view(&self) -> UserRowView {
        UserRowView {
            id: self.id@,
            org_id: self.org_id@,
            name: self.name@,
            email: self.email@,
            password_hash: self.password_hash@,
            created_at: self.created_at,
        }
    }
}

/// A table with the address of its QR code.
#[derive(Debug)]
pub struct TableOut {
    pub id: String,
    pub name: String,
    pub seats: i64,
    pub qr_value: String,
}

#[verifier::ext_equal]
pub struct TableView {
    pub id: Seq<char>,
    pub name: Seq<char>,
    pub seats: i64,
    pub qr_value: Seq<char>,
}

impl View for TableOut {
    type V = TableView;

    open spec fn view(&self) -> TableView {
        TableView {
            id: self.id@,
            name: self.name@,
            seats: self.seats,
            qr_value: self.qr_value@,
        }
    }
}

/// A dish or drink on a menu.
#[derive(Debug)]
pub struct MenuItemOut {
    pub id: String,
    pub category: String,
    pub name: String,
    pub description: String,
    pub image: String,
    pub portion: String,
    pub price: Price,
    pub tags: Vec<String>,
}

#[verifier::ext_equal]
pub struct MenuItemView {
    pub id: Seq<char>,
    pub category: Seq<char>,
    pub name: Seq<char>,
    pub description: Seq<char>,
    pub image: Seq<char>,
    pub portion: Seq<char>,
    pub price: Price,
    pub tags: Seq<Seq<char>>,
}

impl View for MenuItemOut {
    type V = MenuItemView;

    open spec fn view(&self) -> MenuItemView {
        MenuItemView {
            id: self.id@,
            category: self.category@,
            name: self.name@,
            description: self.description@,
            image: self.image@,
            portion: self.portion@,
            price: self.price,
            tags: json::texts(self.tags@),
        }
    }
}

/// What is kept of a dish or drink besides where it stands: the tags as a JSON text.
#[derive(Debug)]
pub struct MenuFields {
    pub category: String,
    pub name: String,
    pub description: String,
    pub image: String,
    pub portion: String,
    pub price: Price,
    pub tags: String,
}

#[verifier::ext_equal]
pub struct MenuFieldsView {
    pub category: Seq<char>,
    pub name: Seq<char>,
    pub description: Seq<char>,
    pub image: Seq<char>,
    pub portion: Seq<char>,
    pub price: Price,
    pub tags: Seq<char>,
}

impl View for MenuFields {
    type V = MenuFieldsView;

    open spec fn view(&self) -> MenuFieldsView {
        MenuFieldsView {
            category: self.category@,
            name: self.name@,
            description: self.description@,
            image: self.image@,
            portion: self.portion@,
            price: self.price,
            tags: self.tags@,
        }
    }
}

/// A dish or drink on the menu of an organisation, as kept.
#[derive(Debug)]
pub struct MenuRow {
    pub id: String,
    pub org_id: String,
    pub fields: MenuFields,
    pub sort_order: i64,
}

#[verifier::ext_equal]
pub struct MenuRowView {
    pub id: Seq<char>,
    pub org_id: Seq<char>,
    pub fields: MenuFieldsView,
    pub sort_order: i64,
}

impl View for MenuRow {
    type V = MenuRowView;

    open spec fn view(&self) -> MenuRowView {
        MenuRowView {
            id: self.id@,
            org_id: self.org_id@,
            fields: self.fields@,
            sort_order: self.sort_order,
        }
    }
}

/// A line of an order.
#[derive(Debug)]
pub struct OrderItemOut {
    pub id: String,
    pub name: String,
    pub price: Price,
    pub qty: i64,
    pub note: String,
}

#[verifier::ext_equal]
pub struct OrderItemView {
    pub id: Seq<char>,
    pub name: Seq<char>,
    pub price: Price,
    pub qty: i64,
    pub note: Seq<char>,
}

impl View for OrderItemOut {
    type V = OrderItemView;

    open spec fn view(&self) -> OrderItemView {
        OrderItemView {
            id: self.id@,
            name: self.name@,
            price: self.price,
            qty: self.qty,
            note: self.note@,
        }
    }
}

/// An order with its lines.
#[derive(Debug)]
pub struct OrderOut {
    pub id: String,
    pub table_id: String,
    pub table_name: String,
    pub status: String,
    pub subtotal: Price,
    pub tax: Price,
    pub total: Price,
    pub created_at: i64,
    pub updated_at: i64,
    pub items: Vec<OrderItemOut>,
}

#[verifier::ext_equal]
pub struct OrderView {
    pub id: Seq<char>,
    pub table_id: Seq<char>,
    pub table_name: Seq<char>,
    pub status: Seq<char>,
    pub subtotal: Price,
    pub tax: Price,
    pub total: Price,
    pub created_at: i64,
    pub updated_at: i64,
    pub items: Seq<OrderItemView>,
}

impl View for OrderOut {
    type V = OrderView;

    open spec fn view(&self) -> OrderView {
        OrderView {
            id: self.id@,
            table_id: self.table_id@,
            table_name: self.table_name@,
            status: self.status@,
            subtotal: self.subtotal,
            tax: self.tax,
            total: self.total,
            created_at: self.created_at,
            updated_at: self.updated_at,
            items: self.items@.map_values(|x: OrderItemOut| x@),
        }
    }
}

/// An order without its lines, as kept.
#[derive(Debug)]
pub struct OrderRow {
    pub id: String,
    pub org_id: String,
    pub table_id: String,
    pub table_name: String,
    pub status: String,
    pub subtotal: Price,
    pub tax: Price,
    pub total: Price,
    pub created_at: i64,
    pub updated_at: i64,
}

#[verifier::ext_equal]
pub struct OrderRowView {
    pub id: Seq<char>,
    pub org_id: Seq<char>,
    pub table_id: Seq<char>,
    pub table_name: Seq<char>,
    pub status: Seq<char>,
    pub subtotal: Price,
    pub tax: Price,
    pub total: Price,
    pub created_at: i64,
    pub updated_at: i64,
}

impl View for OrderRow {
    type V = OrderRowView;

    open spec fn view(&self) -> OrderRowView {
        OrderRowView {
            id: self.id@,
            org_id: self.org_id@,
            table_id: self.table_id@,
            table_name: self.table_name@,
            status: self.status@,
            subtotal: self.subtotal,
            tax: self.tax,
            total: self.total,
            created_at: self.created_at,
            updated_at: self.updated_at,
        }
    }
}

/// A line of an order, as kept.
#[derive(Debug)]
pub struct OrderItemRow {
    pub id: String,
    pub order_id: String,
    pub menu_item_id: Option<String>,
    pub name: String,
    pub price: Price,
    pub qty: i64,
    pub note: String,
}

#[verifier::ext_equal]
pub struct OrderItemRowView {
    pub id: Seq<char>,
    pub order_id: Seq<char>,
    pub menu_item_id: Option<Seq<char>>,
    pub name: Seq<char>,
    pub price: Price,
    pub qty: i64,
    pub note: Seq<char>,
}

impl View for OrderItemRow {
    type V = OrderItemRowView;

    open spec fn view(&self) -> OrderItemRowView {
        OrderItemRowView {
            id: self.id@,
            order_id: self.order_id@,
            menu_item_id: json::opt_text(self.menu_item_id),
            name: self.name@,
            price: self.price,
            qty: self.qty,
            note: self.note@,
        }
    }
}

/// The body of a request to register an organisation with its first admin.
#[derive(Debug)]
pub struct RegisterBody {
    pub org_name: String,
    pub name: String,
    pub email: String,
    pub password: String,
}

/// The body of a request to log in.
#[derive(Debug)]
pub struct LoginBody {
    pub email: String,
    pub password: String,
}

/// What registering, logging in and asking who one is are answered with.
#[derive(Debug)]
pub struct AuthResponse {
    pub token: String,
    pub org: OrgOut,
    pub user: UserOut,
}

/// The colours in a request to change an organisation.
#[derive(Debug)]
pub struct ThemeIn {
    pub primary: String,
    pub primary_dark: String,
    pub accent: String,
    pub accent_soft: String,
    pub background: String,
    pub surface: String,
    pub text_primary: String,
    pub text_secondary: String,
    pub border: String,
}

impl View for ThemeIn {
    type V = ThemeView;

    open spec fn view(&self) -> ThemeView {
        ThemeView {
            primary: self.primary@,
            primary_dark: self.primary_dark@,
            accent: self.accent@,
            accent_soft: self.accent_soft@,
            background: self.background@,
            surface: self.surface@,
            text_primary: self.text_primary@,
            text_secondary: self.text_secondary@,
            border: self.border@,
        }
    }
}

/// The body of a request to change an organisation: what is not given stays.
#[derive(Debug)]
pub struct UpdateOrgBody {
    pub name: Option<String>,
    pub tagline: Option<String>,
    pub logo_initial: Option<String>,
    pub theme: Option<ThemeIn>,
}

/// The body of a request for a new table.
#[derive(Debug)]
pub struct CreateTableBody {
    pub name: String,
    pub seats: i64,
}

/// The body of a request to change a table: what is not given stays.
#[derive(Debug)]
pub struct UpdateTableBody {
    pub name: Option<String>,
    pub seats: Option<i64>,
}

/// A dish or drink in a request. Without an id it gets a fresh one.
#[derive(Debug)]
pub struct MenuItemIn {
    pub id: Option<String>,
    pub category: String,
    pub name: String,
    pub description: String,
    pub image: String,
    pub portion: String,
    pub price: Price,
    pub tags: Vec<String>,
}

/// A line in a request to place an order.
#[derive(Debug)]
pub struct PlaceOrderItem {
    pub item_id: Option<String>,
    pub name: String,
    pub price: Price,
    pub qty: i64,
    pub note: String,
}

/// The body of a request to place an order.
#[derive(Debug)]
pub struct PlaceOrderBody {
    pub items: Vec<PlaceOrderItem>,
}

/// The query of a request for the orders of a table.
#[derive(Debug)]
pub struct PendingQuery {
    pub status: Option<String>,
}

/// The query of a request for the orders of an organisation: those of today, or
/// those between two points in time where both are given, as RFC 3339 texts.
#[derive(Debug)]
pub struct AdminOrdersQuery {
    pub scope: Option<String>,
    pub from: Option<String>,
    pub to: Option<String>,
    pub status: Option<String>,
}

/// The body of a request to change the status of an order.
#[derive(Debug)]
pub struct UpdateStatusBody {
    pub status: String,
}

/// The query of a request for the live feed of orders.
#[derive(Debug)]
pub struct WsQuery {
    pub org_id: String,
    pub token: String,
}

} // verus!

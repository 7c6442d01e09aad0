use hotel_orders::accounts::{after_check, login, logo_initial, me, normal_email, register};
use hotel_orders::auth::{authenticate, AuthUser};
use hotel_orders::error::{AppError, Status, StoreFailure};
use hotel_orders::feed::{handle_client_message, ClientAction};
use hotel_orders::flow::{Effect, Job, Reply, Step, Totals};
use hotel_orders::menu::{create_menu_item, delete_menu_item, get_menu, save_menu, update_menu_item};
use hotel_orders::orders::{list_org_orders, place_order, table_orders, update_order_status};
use hotel_orders::orgs::{get_org_handler, update_org};
use hotel_orders::records::{
    AdminOrdersQuery, CreateTableBody, LoginBody, MenuFields, MenuItemIn, MenuRow, OrderItemOut,
    OrderItemRow, OrderOut, OrderRow, OrgOut, PendingQuery, PlaceOrderBody, PlaceOrderItem, Price,
    RegisterBody, TableOut, ThemeIn, ThemeOut, UpdateOrgBody, UpdateStatusBody, UpdateTableBody,
    UserOut, UserRow,
};
use hotel_orders::seed::seed_demo_data;
use hotel_orders::tables::{create_table, delete_table, get_table_handler, list_tables, update_table};

/// A store in memory.
#[derive(Default)]
struct Mem {
    orgs: Vec<OrgOut>,
    users: Vec<UserRow>,
    tables: Vec<(String, TableOut, i64)>,
    menu: Vec<MenuRow>,
    orders: Vec<OrderRow>,
    items: Vec<OrderItemRow>,
    broken: bool,
}

fn theme(t: &ThemeOut) -> ThemeOut {
    ThemeOut {
        primary: t.primary.clone(),
        primary_dark: t.primary_dark.clone(),
        accent: t.accent.clone(),
        accent_soft: t.accent_soft.clone(),
        background: t.background.clone(),
        surface: t.surface.clone(),
        text_primary: t.text_primary.clone(),
        text_secondary: t.text_secondary.clone(),
        border: t.border.clone(),
    }
}

fn org(o: &OrgOut) -> OrgOut {
    OrgOut {
        id: o.id.clone(),
        name: o.name.clone(),
        tagline: o.tagline.clone(),
        logo_initial: o.logo_initial.clone(),
        theme: theme(&o.theme),
    }
}

fn table(t: &TableOut) -> TableOut {
    TableOut { id: t.id.clone(), name: t.name.clone(), seats: t.seats, qr_value: t.qr_value.clone() }
}

fn menu_row(r: &MenuRow) -> MenuRow {
    let f = &r.fields;
    MenuRow {
        id: r.id.clone(),
        org_id: r.org_id.clone(),
        fields: MenuFields {
            category: f.category.clone(),
            name: f.name.clone(),
            description: f.description.clone(),
            image: f.image.clone(),
            portion: f.portion.clone(),
            price: f.price,
            tags: f.tags.clone(),
        },
        sort_order: r.sort_order,
    }
}

fn taken(what: &str) -> Reply {
    Reply::Failed(StoreFailure::Other(format!("UNIQUE constraint failed: {}", what)))
}

impl Mem {
    fn order(&self, row: &OrderRow) -> OrderOut {
        OrderOut {
            id: row.id.clone(),
            table_id: row.table_id.clone(),
            table_name: row.table_name.clone(),
            status: row.status.clone(),
            subtotal: row.subtotal,
            tax: row.tax,
            total: row.total,
            created_at: row.created_at,
            updated_at: row.updated_at,
            items: self
                .items
                .iter()
                .filter(|i| i.order_id == row.id)
                .map(|i| OrderItemOut {
                    id: i.id.clone(),
                    name: i.name.clone(),
                    price: i.price,
                    qty: i.qty,
                    note: i.note.clone(),
                })
                .collect(),
        }
    }

    fn serve(&mut self, effect: Effect) -> Reply {
        let none = Reply::Failed(StoreFailure::NoRows);
        if self.broken {
            return Reply::Failed(StoreFailure::Other("disk I/O error".to_string()));
        }
        match effect {
            Effect::CountOrgs => Reply::Count(self.orgs.len() as i64),
            Effect::InsertOrg { org, .. } => {
                self.orgs.push(org);
                Reply::Changed
            }
            Effect::FindOrg { org_id } => {
                self.orgs.iter().find(|o| o.id == org_id).map(|o| Reply::Org(org(o))).unwrap_or(none)
            }
            Effect::UpdateOrg { org } => {
                self.orgs.iter_mut().filter(|o| o.id == org.id).for_each(|o| {
                    *o = OrgOut {
                        id: org.id.clone(),
                        name: org.name.clone(),
                        tagline: org.tagline.clone(),
                        logo_initial: org.logo_initial.clone(),
                        theme: theme(&org.theme),
                    }
                });
                Reply::Changed
            }
            Effect::InsertUser { user } => {
                if self.users.iter().any(|u| u.email == user.email) {
                    return taken("admin_users.email");
                }
                self.users.push(user);
                Reply::Changed
            }
            Effect::FindUserByEmail { email } => self
                .users
                .iter()
                .find(|u| u.email == email)
                .map(|u| {
                    Reply::UserRow(UserRow {
                        id: u.id.clone(),
                        org_id: u.org_id.clone(),
                        name: u.name.clone(),
                        email: u.email.clone(),
                        password_hash: u.password_hash.clone(),
                        created_at: u.created_at,
                    })
                })
                .unwrap_or(none),
            Effect::FindUser { user_id } => self
                .users
                .iter()
                .find(|u| u.id == user_id)
                .map(|u| {
                    Reply::User(UserOut {
                        id: u.id.clone(),
                        name: u.name.clone(),
                        email: u.email.clone(),
                    })
                })
                .unwrap_or(none),
            Effect::InsertTable { org_id, table, created_at } => {
                self.tables.push((org_id, table, created_at));
                Reply::Changed
            }
            Effect::ListTables { org_id } => {
                Reply::Tables(self.tables.iter().filter(|t| t.0 == org_id).map(|t| table(&t.1)).collect())
            }
            Effect::FindOrgTable { org_id, table_id } => self
                .tables
                .iter()
                .find(|t| t.0 == org_id && t.1.id == table_id)
                .map(|t| Reply::Table(table(&t.1)))
                .unwrap_or(none),
            Effect::FindTable { table_id } => self
                .tables
                .iter()
                .find(|t| t.1.id == table_id)
                .map(|t| Reply::Table(table(&t.1)))
                .unwrap_or(none),
            Effect::UpdateTable { table_id, name, seats } => {
                self.tables.iter_mut().filter(|t| t.1.id == table_id).for_each(|t| {
                    t.1.name = name.clone();
                    t.1.seats = seats;
                });
                Reply::Changed
            }
            Effect::DeleteTable { org_id, table_id } => {
                self.tables.retain(|t| !(t.0 == org_id && t.1.id == table_id));
                Reply::Changed
            }
            Effect::ListMenu { org_id } => {
                let mut rows: Vec<MenuRow> =
                    self.menu.iter().filter(|r| r.org_id == org_id).map(menu_row).collect();
                rows.sort_by_key(|r| r.sort_order);
                Reply::Menu(rows)
            }
            Effect::ReplaceMenu { org_id, rows } => {
                let clashes = |i: usize| {
                    rows[..i].iter().any(|r| r.id == rows[i].id)
                        || self.menu.iter().any(|r| r.org_id != org_id && r.id == rows[i].id)
                };
                if (0..rows.len()).any(clashes) {
                    return taken("menu_items.id");
                }
                self.menu.retain(|r| r.org_id != org_id);
                self.menu.extend(rows.into_iter().rev());
                Reply::Changed
            }
            Effect::NextSortOrder { org_id } => Reply::SortOrder(
                self.menu.iter().filter(|r| r.org_id == org_id).map(|r| r.sort_order).max().unwrap_or(-1) + 1,
            ),
            Effect::InsertMenuItem { row } => {
                if self.menu.iter().any(|r| r.id == row.id) {
                    return taken("menu_items.id");
                }
                self.menu.push(row);
                Reply::Changed
            }
            Effect::UpdateMenuItem { org_id, item_id, fields } => {
                if let Some(r) = self.menu.iter_mut().find(|r| r.id == item_id && r.org_id == org_id) {
                    r.fields = fields;
                }
                Reply::Changed
            }
            Effect::FindMenuItem { item_id } => self
                .menu
                .iter()
                .find(|r| r.id == item_id)
                .map(|r| Reply::MenuItem(menu_row(r)))
                .unwrap_or(none),
            Effect::DeleteMenuItem { org_id, item_id } => {
                self.menu.retain(|r| !(r.org_id == org_id && r.id == item_id));
                Reply::Changed
            }
            Effect::FindPrices { org_id, item_ids } => Reply::Prices(
                item_ids
                    .iter()
                    .map(|id| {
                        self.menu
                            .iter()
                            .find(|r| Some(&r.id) == id.as_ref() && r.org_id == org_id)
                            .map(|r| r.fields.price)
                    })
                    .collect(),
            ),
            Effect::TotalUp { lines } => {
                let mut subtotal = 0.0;
                for (price, qty) in lines {
                    subtotal += f64::from_bits(price.bits) * qty as f64;
                }
                let tax = subtotal * 0.08;
                Reply::Totals(Totals { subtotal: money(subtotal), tax: money(tax), total: money(subtotal + tax) })
            }
            Effect::InsertOrder { order } => {
                self.orders.push(order);
                Reply::Changed
            }
            Effect::InsertOrderItem { item } => {
                self.items.push(item);
                Reply::Changed
            }
            Effect::PlaceOrder { order, items } => {
                self.orders.push(order);
                self.items.extend(items);
                Reply::Changed
            }
            Effect::ListOrders { org_id, filter } => {
                let mut found: Vec<&OrderRow> = self
                    .orders
                    .iter()
                    .filter(|o| {
                        o.org_id == org_id
                            && filter.table_id.as_ref().map_or(true, |t| *t == o.table_id)
                            && !(filter.pending_only && o.status == "served")
                            && o.created_at >= filter.from
                            && filter.to.map_or(true, |to| o.created_at <= to)
                            && filter.status.as_ref().map_or(true, |s| *s == o.status)
                    })
                    .collect();
                found.sort_by_key(|o| -o.created_at);
                Reply::Orders(found.into_iter().map(|o| self.order(o)).collect())
            }
            Effect::FindOrder { org_id, order_id } => self
                .orders
                .iter()
                .find(|o| o.org_id == org_id && o.id == order_id)
                .map(|o| Reply::Order(self.order(o)))
                .unwrap_or(none),
            Effect::SetOrderStatus { org_id, order_id, status, at } => {
                if let Some(o) = self.orders.iter_mut().find(|o| o.org_id == org_id && o.id == order_id) {
                    o.status = status;
                    o.updated_at = at;
                }
                Reply::Changed
            }
        }
    }

    fn drive<J: Job>(&mut self, mut step: Step<J, J::Out>) -> Result<J::Out, AppError> {
        loop {
            match step {
                Step::Done(out) => return out,
                Step::Await { effect, job } => step = job.resume(self.serve(effect)),
            }
        }
    }
}

fn money(x: f64) -> Price {
    Price { bits: x.to_bits() }
}

fn s(x: &str) -> String {
    x.to_string()
}

fn refusal<T: std::fmt::Debug>(r: Result<T, AppError>) -> (Status, String) {
    let e = r.unwrap_err();
    (e.status, e.message)
}

fn registration(email: &str) -> RegisterBody {
    RegisterBody { org_name: s("the wayfarer"), name: s("Ada"), email: s(email), password: s("wayfarer123") }
}

fn admin(user_id: &str, org_id: &str) -> AuthUser {
    AuthUser { user_id: s(user_id), org_id: s(org_id) }
}

fn dish(id: Option<&str>, name: &str, price: f64, tags: &[&str]) -> MenuItemIn {
    MenuItemIn {
        id: id.map(s),
        category: s("mains"),
        name: s(name),
        description: s("d"),
        image: s("i"),
        portion: s("p"),
        price: money(price),
        tags: tags.iter().map(|t| s(t)).collect(),
    }
}

fn line(item_id: Option<&str>, name: &str, price: f64, qty: i64) -> PlaceOrderItem {
    PlaceOrderItem { item_id: item_id.map(s), name: s(name), price: money(price), qty, note: s("n") }
}

fn now() -> i64 {
    hotel_orders::clock::utc_now_ms()
}

#[test]
fn registered_admins_log_in() {
    let mut mem = Mem::default();
    let first = mem.drive(register(registration("  Ada@Example.COM "), 7, s("k"))).unwrap();
    assert_eq!(first.org.name, "the wayfarer");
    assert_eq!(first.org.logo_initial, "T");
    assert_eq!(first.org.tagline, "");
    assert_eq!(first.org.theme.primary, "#1F4D3E");
    assert_eq!(first.org.theme.border, "#E9E4D6");
    assert_eq!(first.user.email, "ada@example.com");
    assert_eq!(mem.users[0].created_at, 7);
    let again = mem
        .drive(login(LoginBody { email: s("ADA@example.com"), password: s("wayfarer123") }, s("k")))
        .unwrap();
    assert_eq!(again.org.id, first.org.id);
    assert_eq!(again.user.id, first.user.id);
    let who = authenticate(Some(&format!("Bearer {}", again.token)), "k").unwrap();
    assert_eq!(who.user_id, first.user.id);
    assert_eq!(who.org_id, first.org.id);
    let mine = mem.drive(me(who, s("k"))).unwrap();
    assert_eq!(mine.user.email, "ada@example.com");
    assert_eq!(mine.org.id, first.org.id);
}

#[test]
fn registrations_that_lack_something() {
    let mut mem = Mem::default();
    let want = (
        Status::BadRequest,
        s("orgName and email are required, and password must be at least 8 characters"),
    );
    let mut blank_org = registration("a@b");
    blank_org.org_name = s(" \t");
    let blank_email = registration("  ");
    let mut short = registration("a@b");
    short.password = s("1234567");
    for body in [blank_org, blank_email, short] {
        assert_eq!(refusal(mem.drive(register(body, 0, s("k")))), want);
    }
    let mut eight_bytes = registration("a@b");
    eight_bytes.password = s("\u{e9}\u{e9}\u{e9}\u{e9}");
    assert!(mem.drive(register(eight_bytes, 0, s("k"))).is_ok());
}

#[test]
fn an_address_registers_once() {
    let mut mem = Mem::default();
    mem.drive(register(registration("a@b.c"), 0, s("k"))).unwrap();
    assert_eq!(
        refusal(mem.drive(register(registration("A@B.C"), 0, s("k")))),
        (Status::BadRequest, s("an account with that email already exists"))
    );
    mem.broken = true;
    assert_eq!(
        refusal(mem.drive(register(registration("x@y.z"), 0, s("k")))),
        (Status::InternalServerError, s("disk I/O error"))
    );
}

#[test]
fn logins_are_refused_alike() {
    let mut mem = Mem::default();
    mem.drive(register(registration("a@b.c"), 0, s("k"))).unwrap();
    let want = (Status::Unauthorized, s("invalid email or password"));
    let wrong = login(LoginBody { email: s("a@b.c"), password: s("wayfarer124") }, s("k"));
    assert_eq!(refusal(mem.drive(wrong)), want);
    let nobody = login(LoginBody { email: s("x@b.c"), password: s("wayfarer123") }, s("k"));
    assert_eq!(refusal(mem.drive(nobody)), want);
    mem.users[0].password_hash = s("garbage");
    let garbled = login(LoginBody { email: s("a@b.c"), password: s("wayfarer123") }, s("k"));
    assert_eq!(refusal(mem.drive(garbled)).0, Status::InternalServerError);
    assert_eq!(refusal(mem.drive(me(admin("u", "nowhere"), s("k")))), (Status::NotFound, s("Not found")));
}

#[test]
fn names_and_addresses_are_normalised() {
    assert_eq!(normal_email(" \u{a0}J\u{c9}@X.ORG\n"), "j\u{e9}@x.org");
    assert_eq!(logo_initial("bistro"), "B");
    assert_eq!(logo_initial("\u{df}"), "SS");
    assert_eq!(logo_initial(" bistro"), " ");
    assert_eq!(logo_initial(""), "R");
}

#[test]
fn orgs_keep_what_is_not_given() {
    let mut mem = Mem::default();
    let org_id = mem.drive(register(registration("a@b.c"), 0, s("k"))).unwrap().org.id;
    let me = admin("u", &org_id);
    let change = |name: Option<&str>, tagline: Option<&str>, logo: Option<&str>, theme: Option<ThemeIn>| {
        UpdateOrgBody { name: name.map(s), tagline: tagline.map(s), logo_initial: logo.map(s), theme }
    };
    let out = mem.drive(update_org(&me, org_id.clone(), change(None, Some("Bar"), None, None))).unwrap();
    assert_eq!((out.name.as_str(), out.tagline.as_str(), out.logo_initial.as_str()), ("the wayfarer", "Bar", "T"));
    assert_eq!(out.theme.accent, "#C9A15F");
    let theme = ThemeIn {
        primary: s("1"),
        primary_dark: s("2"),
        accent: s("3"),
        accent_soft: s("4"),
        background: s("5"),
        surface: s("6"),
        text_primary: s("7"),
        text_secondary: s("8"),
        border: s("9"),
    };
    mem.drive(update_org(&me, org_id.clone(), change(Some("N"), None, Some("X"), Some(theme)))).unwrap();
    let out = mem.drive(get_org_handler(org_id.clone())).unwrap();
    assert_eq!((out.name.as_str(), out.tagline.as_str(), out.logo_initial.as_str()), ("N", "Bar", "X"));
    let t = out.theme;
    assert_eq!(
        [t.primary, t.primary_dark, t.accent, t.accent_soft, t.background, t.surface, t.text_primary, t.text_secondary, t.border],
        ["1", "2", "3", "4", "5", "6", "7", "8", "9"].map(s)
    );
    let other = admin("u", "elsewhere");
    assert_eq!(
        refusal(mem.drive(update_org(&other, org_id, change(Some("Z"), None, None, None)))),
        (Status::Forbidden, s("you do not have access to this restaurant"))
    );
    assert_eq!(refusal(mem.drive(get_org_handler(s("nope")))).0, Status::NotFound);
}

#[test]
fn tables_come_and_go() {
    let mut mem = Mem::default();
    let me = admin("u", "o");
    let body = |name: &str, seats: i64| CreateTableBody { name: s(name), seats };
    let made = mem.drive(create_table(&me, s("o"), body("  Patio 2 ", 0), "https://x", 5)).unwrap();
    assert_eq!((made.name.as_str(), made.seats), ("Patio 2", 1));
    assert_eq!(made.qr_value, format!("https://x?orgId=o&tableId={}", made.id));
    assert_eq!(mem.tables[0].2, 5);
    assert_eq!(
        refusal(mem.drive(create_table(&me, s("o"), body(" ", 4), "https://x", 5))),
        (Status::BadRequest, s("table name is required"))
    );
    assert_eq!(refusal(mem.drive(create_table(&me, s("p"), body("T", 4), "https://x", 5))).0, Status::Forbidden);
    let change = UpdateTableBody { name: None, seats: Some(6) };
    let changed = mem.drive(update_table(&me, s("o"), made.id.clone(), change)).unwrap();
    assert_eq!((changed.name.as_str(), changed.seats), ("Patio 2", 6));
    let change = UpdateTableBody { name: Some(s("Roof")), seats: None };
    mem.drive(update_table(&me, s("o"), made.id.clone(), change)).unwrap();
    let seen = mem.drive(get_table_handler(s("o"), made.id.clone())).unwrap();
    assert_eq!((seen.name.as_str(), seen.seats), ("Roof", 6));
    assert_eq!(seen.qr_value, made.qr_value);
    assert_eq!(mem.drive(list_tables(&me, s("o"))).unwrap().len(), 1);
    assert_eq!(refusal(mem.drive(list_tables(&me, s("p")))).0, Status::Forbidden);
    let foreign = admin("u", "p");
    let change = UpdateTableBody { name: Some(s("Z")), seats: None };
    assert_eq!(refusal(mem.drive(update_table(&foreign, s("p"), made.id.clone(), change))).0, Status::NotFound);
    mem.drive(delete_table(&foreign, s("p"), made.id.clone())).unwrap();
    assert_eq!(mem.tables.len(), 1);
    assert_eq!(refusal(mem.drive(delete_table(&foreign, s("o"), made.id.clone()))).0, Status::Forbidden);
    mem.drive(delete_table(&me, s("o"), made.id.clone())).unwrap();
    assert_eq!(refusal(mem.drive(get_table_handler(s("o"), made.id))).0, Status::NotFound);
}

#[test]
fn saved_menus_are_read_back() {
    let mut mem = Mem::default();
    let me = admin("u", "o");
    mem.drive(save_menu(&me, s("o"), vec![dish(Some("old"), "Old", 1.0, &[])])).unwrap();
    let items = vec![
        dish(Some("b"), "Soup", 11.0, &["veg"]),
        dish(None, "Steak", 46.5, &["popular", "new"]),
        dish(Some("a"), "Cake", 12.0, &[]),
    ];
    mem.drive(save_menu(&me, s("o"), items)).unwrap();
    let shown = mem.drive(get_menu(s("o"))).unwrap();
    let names: Vec<&str> = shown.iter().map(|i| i.name.as_str()).collect();
    assert_eq!(names, vec!["Soup", "Steak", "Cake"]);
    assert_eq!(shown[0].id, "b");
    assert_eq!(shown[1].id.len(), 36);
    assert_eq!(shown[1].price, money(46.5));
    assert_eq!(shown[1].tags, vec![s("popular"), s("new")]);
    assert_eq!((shown[1].description.as_str(), shown[1].image.as_str(), shown[1].portion.as_str()), ("d", "i", "p"));
    assert!(shown[2].tags.is_empty());
    assert_eq!(refusal(mem.drive(save_menu(&admin("u", "p"), s("o"), vec![]))).0, Status::Forbidden);
    mem.drive(save_menu(&me, s("o"), vec![])).unwrap();
    assert!(mem.drive(get_menu(s("o"))).unwrap().is_empty());
}

#[test]
fn single_items() {
    let mut mem = Mem::default();
    let me = admin("u", "o");
    mem.drive(save_menu(&me, s("o"), vec![dish(Some("a"), "A", 1.0, &[]), dish(Some("b"), "B", 2.0, &[])])).unwrap();
    let made = mem.drive(create_menu_item(&me, s("o"), dish(None, "C", 3.0, &["x"]))).unwrap();
    assert_eq!(made.tags, vec![s("x")]);
    assert_eq!(mem.drive(get_menu(s("o"))).unwrap()[2].id, made.id);
    assert_eq!(
        refusal(mem.drive(create_menu_item(&me, s("o"), dish(Some("a"), "A2", 1.0, &[])))),
        (Status::InternalServerError, s("UNIQUE constraint failed: menu_items.id"))
    );
    let changed = mem.drive(update_menu_item(&me, s("o"), s("a"), dish(Some("zzz"), "A+", 9.0, &["y"]))).unwrap();
    assert_eq!((changed.id.as_str(), changed.name.as_str()), ("a", "A+"));
    assert_eq!(mem.drive(get_menu(s("o"))).unwrap()[0].tags, vec![s("y")]);
    assert_eq!(
        refusal(mem.drive(update_menu_item(&me, s("o"), s("none"), dish(None, "N", 1.0, &[])))).0,
        Status::NotFound
    );
    let foreign = admin("u", "p");
    mem.drive(update_menu_item(&foreign, s("p"), s("a"), dish(None, "Hack", 0.0, &[]))).unwrap();
    mem.drive(delete_menu_item(&foreign, s("p"), s("a"))).unwrap();
    assert_eq!(mem.drive(get_menu(s("o"))).unwrap()[0].name, "A+");
    mem.drive(delete_menu_item(&me, s("o"), s("a"))).unwrap();
    assert_eq!(mem.drive(get_menu(s("o"))).unwrap()[0].name, "B");
    assert_eq!(refusal(mem.drive(delete_menu_item(&foreign, s("o"), s("b")))).0, Status::Forbidden);
}

fn restaurant() -> (Mem, AuthUser, String) {
    let mut mem = Mem::default();
    let me = admin("u", "o");
    let t = mem
        .drive(create_table(&me, s("o"), CreateTableBody { name: s("Table 4"), seats: 4 }, "https://x", 1))
        .unwrap();
    mem.drive(save_menu(&me, s("o"), vec![dish(Some("steak"), "Steak", 46.0, &[])])).unwrap();
    (mem, me, t.id)
}

#[test]
fn orders_are_placed_at_menu_prices() {
    let (mut mem, _, t) = restaurant();
    let at = now();
    let body = PlaceOrderBody {
        items: vec![
            line(Some("steak"), "Steak", 0.01, 2),
            line(None, "Corkage", 8.0, 1),
            line(Some("gone"), "Special", 5.0, 1),
            line(Some("steak"), "Steak", 46.0, 0),
            line(None, "Refund", 1.0, -3),
        ],
    };
    let event = mem.drive(place_order(s("o"), t.clone(), body, at)).unwrap();
    assert_eq!((event.org_id.as_str(), event.event_type.as_str()), ("o", "order:new"));
    let order = event.order;
    assert_eq!((order.table_id.as_str(), order.table_name.as_str(), order.status.as_str()), (t.as_str(), "Table 4", "new"));
    assert_eq!((order.created_at, order.updated_at), (at, at));
    let lines: Vec<(&str, Price, i64)> = order.items.iter().map(|i| (i.name.as_str(), i.price, i.qty)).collect();
    assert_eq!(lines, vec![("Steak", money(46.0), 2), ("Corkage", money(8.0), 1), ("Special", money(5.0), 1)]);
    assert_eq!(order.items[0].note, "n");
    assert_eq!(order.subtotal, money(105.0));
    assert_eq!(order.tax, money(105.0 * 0.08));
    assert_eq!(order.total, money(105.0 + 105.0 * 0.08));
    assert_eq!(mem.items[0].menu_item_id, Some(s("steak")));
    assert_eq!(mem.items[1].menu_item_id, None);
}

#[test]
fn orders_that_cannot_be_placed() {
    let (mut mem, _, t) = restaurant();
    assert_eq!(
        refusal(mem.drive(place_order(s("o"), t.clone(), PlaceOrderBody { items: vec![] }, 0))),
        (Status::BadRequest, s("order must contain at least one item"))
    );
    let nowhere = PlaceOrderBody { items: vec![line(None, "X", 1.0, 1)] };
    assert_eq!(refusal(mem.drive(place_order(s("o"), s("t9"), nowhere, 0))), (Status::NotFound, s("Not found")));
    let empty = PlaceOrderBody { items: vec![line(None, "X", 1.0, 0)] };
    assert_eq!(
        refusal(mem.drive(place_order(s("o"), t, empty, 0))),
        (Status::InternalServerError, s("Query is not read-only"))
    );
    assert!(mem.orders.is_empty());
}

#[test]
fn orders_move_on() {
    let (mut mem, me, t) = restaurant();
    let at = now();
    let place = |mem: &mut Mem, at: i64| {
        let body = PlaceOrderBody { items: vec![line(Some("steak"), "Steak", 1.0, 1)] };
        mem.drive(place_order(s("o"), t.clone(), body, at)).unwrap().order.id
    };
    let first = place(&mut mem, at);
    let second = place(&mut mem, at + 1);
    let yesterday = place(&mut mem, at - 86_400_000);
    for status in ["new", "preparing", "ready", "served"] {
        let body = UpdateStatusBody { status: s(status) };
        let event = mem.drive(update_order_status(&me, s("o"), first.clone(), body, at + 9)).unwrap();
        assert_eq!((event.org_id.as_str(), event.event_type.as_str()), ("o", "order:update"));
        assert_eq!((event.order.status.as_str(), event.order.updated_at), (status, at + 9));
    }
    let body = UpdateStatusBody { status: s("eaten") };
    assert_eq!(
        refusal(mem.drive(update_order_status(&me, s("o"), first.clone(), body, at))),
        (Status::BadRequest, s("status must be one of new, preparing, ready, served"))
    );
    let body = UpdateStatusBody { status: s("ready") };
    assert_eq!(refusal(mem.drive(update_order_status(&me, s("p"), first.clone(), body, at))).0, Status::Forbidden);
    let body = UpdateStatusBody { status: s("ready") };
    assert_eq!(refusal(mem.drive(update_order_status(&me, s("o"), s("none"), body, at))).0, Status::NotFound);

    let ids = |orders: Vec<OrderOut>| orders.into_iter().map(|o| o.id).collect::<Vec<String>>();
    let all = mem.drive(table_orders(s("o"), t.clone(), &PendingQuery { status: None })).unwrap();
    assert_eq!(ids(all), vec![second.clone(), first.clone()]);
    let pending = mem.drive(table_orders(s("o"), t.clone(), &PendingQuery { status: Some(s("pending")) })).unwrap();
    assert_eq!(ids(pending), vec![second.clone()]);
    let odd = mem.drive(table_orders(s("o"), t.clone(), &PendingQuery { status: Some(s("served")) })).unwrap();
    assert_eq!(odd.len(), 2);

    let query = |from: Option<&str>, to: Option<&str>, status: Option<&str>| AdminOrdersQuery {
        scope: None,
        from: from.map(s),
        to: to.map(s),
        status: status.map(s),
    };
    let ever = query(Some("2000-01-01T00:00:00Z"), Some("2200-01-01T00:00:00+02:00"), None);
    assert_eq!(ids(mem.drive(list_org_orders(&me, s("o"), ever)).unwrap()), vec![second.clone(), first.clone(), yesterday]);
    let served = query(Some("2000-01-01T00:00:00Z"), Some("2200-01-01T00:00:00Z"), Some("served"));
    assert_eq!(ids(mem.drive(list_org_orders(&me, s("o"), served)).unwrap()), vec![first.clone()]);
    let none = query(Some("2000-01-01T00:00:00Z"), Some("2000-01-02T00:00:00Z"), None);
    assert!(mem.drive(list_org_orders(&me, s("o"), none)).unwrap().is_empty());
    assert_eq!(refusal(mem.drive(list_org_orders(&me, s("p"), query(None, None, None)))).0, Status::Forbidden);
}

#[test]
fn listeners_sync_and_update() {
    let (mut mem, _, t) = restaurant();
    let at = now();
    let body = PlaceOrderBody { items: vec![line(None, "X", 1.0, 1)] };
    let id = mem.drive(place_order(s("o"), t, body, at)).unwrap().order.id;
    let sync = match handle_client_message(&s("o"), "{\"type\":\"orders:subscribe\"}", at) {
        ClientAction::Sync(step) => mem.drive(step).unwrap(),
        other => panic!("{:?}", other),
    };
    assert_eq!(sync.sync_type, "orders:sync");
    assert_eq!(sync.orders.len(), 1);
    let words = format!("{{\"type\":\"order:updateStatus\",\"orderId\":\"{}\",\"status\":\"ready\"}}", id);
    let event = match handle_client_message(&s("o"), &words, at + 5) {
        ClientAction::Update(step) => mem.drive(step).unwrap(),
        other => panic!("{:?}", other),
    };
    assert_eq!((event.event_type.as_str(), event.order.status.as_str(), event.order.updated_at), ("order:update", "ready", at + 5));
    match handle_client_message(&s("p"), &words, at) {
        ClientAction::Update(step) => assert_eq!(refusal(mem.drive(step)).0, Status::NotFound),
        other => panic!("{:?}", other),
    }
    mem.broken = true;
    match handle_client_message(&s("o"), "{\"type\":\"orders:subscribe\"}", at) {
        ClientAction::Sync(step) => assert!(mem.drive(step).unwrap().orders.is_empty()),
        other => panic!("{:?}", other),
    }
}

#[test]
fn the_demo_is_seeded_once() {
    let mut mem = Mem::default();
    let at = now();
    mem.drive(seed_demo_data(s("https://order.wayfarer.app"), at)).unwrap();
    mem.drive(seed_demo_data(s("https://order.wayfarer.app"), at)).unwrap();
    assert_eq!(mem.orgs.len(), 1);
    assert_eq!((mem.orgs[0].id.as_str(), mem.orgs[0].name.as_str(), mem.orgs[0].tagline.as_str()), ("123", "The Wayfarer", "Kitchen & Bar"));
    let names: Vec<(&str, i64)> = mem.tables.iter().map(|t| (t.1.name.as_str(), t.1.seats)).collect();
    assert_eq!(names, vec![("Table 1", 2), ("Table 4", 4), ("Patio 2", 6)]);
    assert_eq!(mem.tables[0].1.qr_value, format!("https://order.wayfarer.app?orgId=123&tableId={}", mem.tables[0].1.id));
    let menu = mem.drive(get_menu(s("123"))).unwrap();
    let prices: Vec<f64> = menu.iter().map(|i| f64::from_bits(i.price.bits)).collect();
    assert_eq!(prices, vec![16.0, 11.0, 46.0, 24.0, 12.0, 17.0]);
    assert_eq!(menu[0].name, "Burrata & Heirloom Tomato");
    assert_eq!(menu[0].tags, vec![s("veg"), s("popular")]);
    assert_eq!(menu[5].category, "drinks");
    let order = &mem.orders[0];
    assert_eq!((order.status.as_str(), order.table_name.as_str()), ("preparing", "Table 4"));
    assert_eq!(order.table_id, mem.tables[1].1.id);
    assert_eq!((order.created_at, order.updated_at), (at - 540_000, at));
    assert_eq!(order.subtotal, money(108.0));
    assert_eq!(order.total, money(108.0 + 108.0 * 0.08));
    assert_eq!(mem.items.len(), 2);
    assert_eq!((mem.items[1].name.as_str(), mem.items[1].qty), ("Grilled Ribeye", 2));
    assert_eq!(mem.items[1].menu_item_id, Some(menu[2].id.clone()));
    let body = LoginBody { email: s("admin@wayfarer.test"), password: s("wayfarer123") };
    assert_eq!(mem.drive(login(body, s("k"))).unwrap().org.id, "123");
}

#[test]
fn guests_do_not_set_menu_prices() {
    let (mut mem, _, t) = restaurant();
    let mut place = |price: f64| {
        let body = PlaceOrderBody {
            items: vec![line(Some("steak"), "Steak", price, 3), line(None, "Bread", 2.5, 1)],
        };
        mem.drive(place_order(s("o"), t.clone(), body, now())).unwrap().order
    };
    let (honest, cheap) = (place(46.0), place(0.0));
    assert_eq!(honest.subtotal, money(140.5));
    assert_eq!((honest.subtotal, honest.tax, honest.total), (cheap.subtotal, cheap.tax, cheap.total));
    let prices = |order: &OrderOut| order.items.iter().map(|i| i.price).collect::<Vec<Price>>();
    assert_eq!(prices(&honest), vec![money(46.0), money(2.5)]);
    assert_eq!(prices(&honest), prices(&cheap));
}

#[test]
fn a_taken_address_adds_no_admin() {
    let mut mem = Mem::default();
    mem.drive(register(registration("a@b.c"), 0, s("k"))).unwrap();
    assert!(mem.drive(register(registration("a@b.c"), 0, s("k"))).is_err());
    assert_eq!(mem.users.len(), 1);
}

#[test]
fn served_orders_are_not_pending() {
    let (mut mem, me, t) = restaurant();
    let body = PlaceOrderBody { items: vec![line(Some("steak"), "Steak", 1.0, 1)] };
    let id = mem.drive(place_order(s("o"), t.clone(), body, now())).unwrap().order.id;
    let pending = || PendingQuery { status: Some(s("pending")) };
    let shown = mem.drive(table_orders(s("o"), t.clone(), &pending())).unwrap();
    assert_eq!((shown[0].id.as_str(), shown[0].status.as_str()), (id.as_str(), "new"));
    let served = UpdateStatusBody { status: s("served") };
    mem.drive(update_order_status(&me, s("o"), id, served, now())).unwrap();
    assert!(mem.drive(table_orders(s("o"), t, &pending())).unwrap().is_empty());
}

#[test]
fn clashing_menus_are_refused() {
    let mut mem = Mem::default();
    let (me, other) = (admin("u", "o"), admin("v", "p"));
    mem.drive(save_menu(&me, s("o"), vec![dish(Some("a"), "A", 1.0, &[])])).unwrap();
    for items in [
        vec![dish(Some("x"), "X", 1.0, &[]), dish(Some("x"), "Y", 1.0, &[])],
        vec![dish(Some("a"), "A", 1.0, &[])],
    ] {
        assert_eq!(refusal(mem.drive(save_menu(&other, s("p"), items))).0, Status::InternalServerError);
        assert_eq!(mem.menu.len(), 1);
    }
    mem.drive(save_menu(&me, s("o"), vec![dish(Some("a"), "A+", 2.0, &[])])).unwrap();
    assert_eq!(mem.drive(get_menu(s("o"))).unwrap()[0].name, "A+");
}

#[test]
fn deleting_succeeds_twice() {
    let (mut mem, me, t) = restaurant();
    for _ in 0..2 {
        mem.drive(delete_table(&me, s("o"), t.clone())).unwrap();
        mem.drive(delete_menu_item(&me, s("o"), s("steak"))).unwrap();
    }
    assert!(mem.drive(list_tables(&me, s("o"))).unwrap().is_empty());
    assert!(mem.drive(get_menu(s("o"))).unwrap().is_empty());
}

#[test]
fn password_checks_decide() {
    let row = || UserRow {
        id: s("u"),
        org_id: s("o"),
        name: s("Ada"),
        email: s("a@b.c"),
        password_hash: s("h"),
        created_at: 0,
    };
    match after_check(row(), Ok(true), s("k")) {
        Step::Await { effect: Effect::FindOrg { org_id }, .. } => assert_eq!(org_id, "o"),
        other => panic!("{:?}", other),
    }
    match after_check(row(), Ok(false), s("k")) {
        Step::Done(Err(e)) => assert_eq!((e.status, e.message.as_str()), (Status::Unauthorized, "invalid email or password")),
        other => panic!("{:?}", other),
    }
    match after_check(row(), Err(AppError::internal("bad hash")), s("k")) {
        Step::Done(Err(e)) => assert_eq!((e.status, e.message.as_str()), (Status::InternalServerError, "bad hash")),
        other => panic!("{:?}", other),
    }
}

use game_auth::config::TomlConfig;
use game_auth::db;
use game_auth::errors::{db_error, Error, Kind};
use game_auth::models::api::{Creds, Identifier, Payment, Responses, Save};
use game_auth::models::db::{Data, User};
use game_auth::models::game::SaveData;
use game_auth::routes;
use game_auth::store::{Plan, Slot, Statement};
use game_auth::token::{decode_jwt, Claims};

fn config() -> TomlConfig {
    TomlConfig {
        domain: String::from("game.example.com"),
        token_secret: String::from("secret-key"),
        token_duration: 900,
        token_leeway: 3,
    }
}

fn copy_save(save: &Option<SaveData>) -> Option<SaveData> {
    save.as_ref().map(|s| SaveData { document: s.document.clone() })
}

fn copy_data(data: &Data) -> Data {
    Data {
        save_one: copy_save(&data.save_one),
        save_two: copy_save(&data.save_two),
        save_three: copy_save(&data.save_three),
        timestamp_one: data.timestamp_one,
        timestamp_two: data.timestamp_two,
        timestamp_three: data.timestamp_three,
    }
}

fn copy_user(user: &User) -> User {
    User {
        id: user.id,
        username: user.username.clone(),
        acc_type: user.acc_type.clone(),
        password: user.password.clone(),
        salt: user.salt.clone(),
        creation_date: user.creation_date,
        banned: user.banned,
        ban_date: user.ban_date,
    }
}

/// A row store in memory, with the uniqueness rules of the service's tables.
struct Rows {
    users: Vec<User>,
    data: Vec<(u128, Data)>,
    payments: Vec<String>,
}

impl Rows {
    fn new() -> Rows {
        Rows { users: Vec::new(), data: Vec::new(), payments: Vec::new() }
    }

    fn copy(&self) -> Rows {
        Rows {
            users: self.users.iter().map(copy_user).collect(),
            data: self.data.iter().map(|(id, data)| (*id, copy_data(data))).collect(),
            payments: self.payments.clone(),
        }
    }

    fn taken(&self, username: &str) -> bool {
        self.users.iter().any(|user| user.username.eq_ignore_ascii_case(username))
    }

    fn find(&self, identifier: &Identifier) -> Result<User, Error> {
        let row = match identifier {
            Identifier::Username(name) => self.users.iter().find(|user| user.username.eq_ignore_ascii_case(name)),
            Identifier::Uuid(id) => self.users.iter().find(|user| user.id == *id),
        };
        row.map(copy_user).ok_or_else(|| db_error(None))
    }

    fn lookup(&self, identifier: &Identifier) -> Result<User, Option<String>> {
        let row = match identifier {
            Identifier::Username(name) => self.users.iter().find(|user| user.username.eq_ignore_ascii_case(name)),
            Identifier::Uuid(id) => self.users.iter().find(|user| user.id == *id),
        };
        row.map(copy_user).ok_or(None)
    }

    fn saves(&self, id: u128) -> Result<Data, Error> {
        self.data.iter().find(|(owner, _)| *owner == id).map(|(_, data)| copy_data(data)).ok_or_else(|| db_error(None))
    }

    fn apply(&mut self, statement: Statement) -> Result<(), Error> {
        let unique = || db_error(Some(String::from("23505")));
        match statement {
            Statement::InsertUser { id, username, acc_type, password, salt, creation_date } => {
                if self.taken(&username) || self.users.iter().any(|user| user.id == id) {
                    return Err(unique());
                }
                self.users.push(User {
                    id,
                    username,
                    acc_type,
                    password: Some(password),
                    salt: Some(salt),
                    creation_date,
                    banned: false,
                    ban_date: None,
                });
            }
            Statement::InsertData { id } => {
                if self.data.iter().any(|(owner, _)| *owner == id) {
                    return Err(unique());
                }
                let empty = Data {
                    save_one: None,
                    save_two: None,
                    save_three: None,
                    timestamp_one: None,
                    timestamp_two: None,
                    timestamp_three: None,
                };
                self.data.push((id, empty));
            }
            Statement::SetPassword { username, password, salt } => {
                for user in self.users.iter_mut().filter(|user| user.username.eq_ignore_ascii_case(&username)) {
                    user.password = Some(password.clone());
                    user.salt = Some(salt.clone());
                }
            }
            Statement::InsertTransaction { tx_id, .. } => {
                if self.payments.contains(&tx_id) {
                    return Err(unique());
                }
                self.payments.push(tx_id);
            }
            Statement::SetRole { id, acc_type } => {
                for user in self.users.iter_mut().filter(|user| user.id == id) {
                    user.acc_type = acc_type.clone();
                }
            }
            Statement::SetSave { id, slot, data, timestamp } => {
                if let Some((_, slots)) = self.data.iter_mut().find(|(owner, _)| *owner == id) {
                    match slot {
                        Slot::One => {
                            slots.save_one = Some(data);
                            slots.timestamp_one = Some(timestamp);
                        }
                        Slot::Two => {
                            slots.save_two = Some(data);
                            slots.timestamp_two = Some(timestamp);
                        }
                        Slot::Three => {
                            slots.save_three = Some(data);
                            slots.timestamp_three = Some(timestamp);
                        }
                    }
                }
            }
            Statement::SetBan { id, banned, ban_date } => {
                for user in self.users.iter_mut().filter(|user| user.id == id) {
                    user.banned = banned;
                    user.ban_date = ban_date;
                }
            }
            Statement::DeleteUser { id } => self.users.retain(|user| user.id != id),
        }
        Ok(())
    }

    /// Runs a plan; the statement at `failing`, if any, is refused.
    fn run(&mut self, plan: Plan, failing: Option<usize>) -> Result<Responses, Error> {
        let before = self.copy();
        let atomic = plan.atomic;
        for (position, statement) in plan.statements.into_iter().enumerate() {
            let outcome = if failing == Some(position) {
                Err(db_error(Some(String::from("57014"))))
            } else {
                self.apply(statement)
            };
            if let Err(error) = outcome {
                if atomic {
                    *self = before;
                }
                return Err(error);
            }
        }
        Ok(plan.response)
    }

    fn same_as(&self, other: &Rows) -> bool {
        self.users == other.users && self.data == other.data && self.payments == other.payments
    }
}

fn creds(username: &str, password: &str) -> Creds {
    Creds { username: String::from(username), password: String::from(password) }
}

fn form() -> Payment {
    Payment {
        first_name: String::from("Alice"),
        last_name: String::from("Liddell"),
        address: String::from("4 Rabbit Hole, Oxford"),
        card_number: String::from("4242424242424242"),
        cvc: String::from("123"),
        exp_month: String::from("07"),
        exp_year: String::from("29"),
    }
}

fn blob(text: &str) -> Box<SaveData> {
    Box::new(SaveData { document: String::from(text) })
}

fn register(rows: &mut Rows, cfg: &TomlConfig, username: &str, password: &str) -> Result<Responses, Error> {
    routes::register(&creds(username, password))?;
    let taken = rows.taken(username);
    let plan = db::register(taken, creds(username, password), "s", cfg)?;
    rows.run(plan, None)
}

fn authenticate(rows: &Rows, cfg: &TomlConfig, username: &str, password: &str) -> Result<Responses, Error> {
    routes::auth(&creds(username, password))?;
    let found = rows.lookup(&Identifier::Username(String::from(username)));
    db::auth(found, &creds(username, password), cfg)
}

fn save(rows: &mut Rows, claims: &Claims, opt: u8, text: &str) -> Result<Responses, Error> {
    let payload = Save { opt, data: blob(text) };
    let slot = routes::save(&payload, claims)?;
    rows.run(db::save(payload, claims.id, slot), None)
}

fn load(rows: &Rows, claims: &Claims) -> Result<Responses, Error> {
    routes::load(claims)?;
    Ok(db::load(rows.saves(claims.id)?))
}

fn upgrade(rows: &mut Rows, cfg: &TomlConfig, claims: &Claims, failing: Option<usize>) -> Result<Responses, Error> {
    routes::upgrade(&form(), claims)?;
    let user = rows.find(&Identifier::Username(claims.user.clone()))?;
    let plan = db::upgrade(&user, &form(), claims.id, cfg)?;
    rows.run(plan, failing)
}

fn token_of(response: Responses) -> String {
    match response {
        Responses::Auth { access_token, .. }
        | Responses::Register { access_token, .. }
        | Responses::Upgrade { access_token, .. }
        | Responses::Jwt { access_token } => access_token,
        other => panic!("{:?}", other),
    }
}

#[test]
fn register_authenticate_upgrade_save_load() {
    let cfg = config();
    let mut rows = Rows::new();

    let registered = register(&mut rows, &cfg, "alice123", "Str0ng!Pass").unwrap();
    assert!(matches!(registered, Responses::Register { success: true, .. }));
    assert_eq!(decode_jwt(&token_of(registered), &cfg).unwrap().role, "s");
    assert_eq!(rows.users.len(), 1);
    assert_eq!(rows.users[0].acc_type, "s");

    let authenticated = authenticate(&rows, &cfg, "alice123", "Str0ng!Pass").unwrap();
    assert!(matches!(authenticated, Responses::Auth { success: true, .. }));
    let standard = decode_jwt(&token_of(authenticated), &cfg).unwrap();
    assert_eq!(standard.role, "s");
    assert_eq!(standard.id, rows.users[0].id);

    let refused = save(&mut rows, &standard, 1, "{\"room\":\"cave\"}").unwrap_err();
    assert_eq!(refused, Error::NotUpgraded);
    assert_eq!(refused.kind(), Kind::Authorization);

    let upgraded = upgrade(&mut rows, &cfg, &standard, None).unwrap();
    assert!(matches!(upgraded, Responses::Upgrade { success: true, .. }));
    let paid = decode_jwt(&token_of(upgraded), &cfg).unwrap();
    assert_eq!(paid.role, "u");
    assert_eq!(rows.users[0].acc_type, "u");
    assert_eq!(rows.payments.len(), 1);

    assert_eq!(save(&mut rows, &paid, 1, "{\"room\":\"cave\"}"), Ok(Responses::Save { success: true }));

    match load(&rows, &paid).unwrap() {
        Responses::Load { data } => {
            assert_eq!(data.save_one, Some(SaveData { document: String::from("{\"room\":\"cave\"}") }));
            assert!(data.timestamp_one.is_some());
            assert_eq!(data.save_two, None);
            assert_eq!(data.save_three, None);
            assert_eq!(data.timestamp_two, None);
            assert_eq!(data.timestamp_three, None);
        }
        other => panic!("{:?}", other),
    }
}

#[test]
fn a_username_is_taken_whatever_its_case() {
    let cfg = config();
    let mut rows = Rows::new();
    assert!(register(&mut rows, &cfg, "bob", "Str0ng!Pass").is_ok());
    let second = register(&mut rows, &cfg, "BOB", "Oth3r!Password").unwrap_err();
    assert_eq!(second, Error::UsernameTaken);
    assert_eq!(second.kind(), Kind::Conflict);
    assert_eq!(register(&mut rows, &cfg, "Bob", "Str0ng!Pass"), Err(Error::UsernameTaken));
    assert_eq!(rows.users.len(), 1);
    assert!(register(&mut rows, &cfg, "bobby", "Str0ng!Pass").is_ok());
}

#[test]
fn a_stale_standard_token_cannot_upgrade_again() {
    let cfg = config();
    let mut rows = Rows::new();
    let stale = decode_jwt(&token_of(register(&mut rows, &cfg, "alice123", "Str0ng!Pass").unwrap()), &cfg).unwrap();
    assert!(upgrade(&mut rows, &cfg, &stale, None).is_ok());
    let before = rows.copy();
    // The old token still says `s` and passes the check of the role.
    assert_eq!(stale.role, "s");
    assert_eq!(routes::upgrade(&form(), &stale), Ok(()));
    let replayed = upgrade(&mut rows, &cfg, &stale, None).unwrap_err();
    assert_eq!(replayed, Error::Upgraded);
    assert_eq!(replayed.kind(), Kind::Conflict);
    assert!(rows.same_as(&before));
    assert_eq!(rows.payments.len(), 1);
}

#[test]
fn a_failed_upgrade_leaves_no_trace() {
    let cfg = config();
    for failing in 0..3 {
        let mut rows = Rows::new();
        let claims = decode_jwt(&token_of(register(&mut rows, &cfg, "alice123", "Str0ng!Pass").unwrap()), &cfg).unwrap();
        let before = rows.copy();
        let failed = upgrade(&mut rows, &cfg, &claims, Some(failing)).unwrap_err();
        assert_eq!(failed, Error::DbError(String::from("57014")));
        assert_eq!(failed.kind(), Kind::Internal);
        assert!(rows.same_as(&before));
        assert_eq!(rows.users[0].acc_type, "s");
        assert!(rows.payments.is_empty());
        assert!(rows.data.is_empty());
        // Nothing stands in the way of a second try.
        assert!(upgrade(&mut rows, &cfg, &claims, None).is_ok());
        assert_eq!(rows.users[0].acc_type, "u");
    }
}

#[test]
fn an_upgrade_whose_save_slots_are_there_already_leaves_no_trace() {
    let cfg = config();
    let mut rows = Rows::new();
    let claims = decode_jwt(&token_of(register(&mut rows, &cfg, "alice123", "Str0ng!Pass").unwrap()), &cfg).unwrap();
    rows.apply(Statement::InsertData { id: claims.id }).unwrap();
    let before = rows.copy();
    assert_eq!(upgrade(&mut rows, &cfg, &claims, None), Err(Error::UsernameTaken));
    assert!(rows.same_as(&before));
}

#[test]
fn unknown_username_and_wrong_password_look_the_same() {
    let cfg = config();
    let mut rows = Rows::new();
    register(&mut rows, &cfg, "alice123", "Str0ng!Pass").unwrap();
    let unknown = authenticate(&rows, &cfg, "nobody", "Str0ng!Pass").unwrap_err();
    let wrong = authenticate(&rows, &cfg, "alice123", "Wr0ng!Password").unwrap_err();
    assert_eq!(unknown, wrong);
    assert_eq!((unknown.status_code(), unknown.info()), (wrong.status_code(), wrong.info()));
    assert_eq!(unknown.kind(), Kind::Authentication);
}

#[test]
fn ban_and_unban_are_guarded() {
    let cfg = config();
    let mut rows = Rows::new();
    register(&mut rows, &cfg, "alice123", "Str0ng!Pass").unwrap();
    let name = || Identifier::Username(String::from("Alice123"));

    assert_eq!(db::unban(rows.find(&name()).unwrap()).unwrap_err(), Error::NotBanned);
    let banned = rows.run(db::ban(rows.find(&name()).unwrap()).unwrap(), None).unwrap();
    assert_eq!(banned, Responses::Ban { banned: String::from("alice123"), success: true });
    assert!(rows.users[0].banned);
    assert!(rows.users[0].ban_date.is_some());
    assert_eq!(authenticate(&rows, &cfg, "alice123", "Str0ng!Pass"), Err(Error::Banned));

    assert_eq!(db::ban(rows.find(&name()).unwrap()).unwrap_err(), Error::PriorBan);
    let lifted = rows.run(db::unban(rows.find(&name()).unwrap()).unwrap(), None).unwrap();
    assert_eq!(lifted, Responses::Unban { unbanned: String::from("alice123"), success: true });
    assert!(!rows.users[0].banned);
    assert_eq!(rows.users[0].ban_date, None);
    assert!(authenticate(&rows, &cfg, "alice123", "Str0ng!Pass").is_ok());
}

#[test]
fn change_of_password() {
    let cfg = config();
    let mut rows = Rows::new();
    register(&mut rows, &cfg, "alice123", "Str0ng!Pass").unwrap();
    let passwords = game_auth::models::api::Password {
        password: String::from("Str0ng!Pass"),
        new_password: String::from("N3w!Password"),
    };
    routes::update_password(&passwords).unwrap();
    let user = rows.find(&Identifier::Username(String::from("alice123"))).unwrap();
    let plan = db::update_password(&user, &passwords, &String::from("alice123")).unwrap();
    assert_eq!(rows.run(plan, None), Ok(Responses::NewPassword { success: true }));
    assert_eq!(authenticate(&rows, &cfg, "alice123", "Str0ng!Pass"), Err(Error::UserNotFound));
    assert!(authenticate(&rows, &cfg, "alice123", "N3w!Password").is_ok());
}

#[test]
fn an_administrator_lists_looks_up_and_deletes() {
    let cfg = config();
    let mut rows = Rows::new();
    for n in 0..25 {
        let insert = Statement::InsertUser {
            id: 100 + n,
            username: format!("player{}", n),
            acc_type: String::from("s"),
            password: String::from("12345"),
            salt: String::from("c29tZXNhbHRzb21lc2FsdA"),
            creation_date: 1_600_000_000,
        };
        rows.apply(insert).unwrap();
    }
    let admin = Claims {
        iss: cfg.domain.clone(),
        id: 1,
        user: String::from("root"),
        role: String::from("a"),
        iat: 0,
        exp: 0,
    };

    let page = routes::get_users(&game_auth::models::api::Page { page: 2 }, &admin).unwrap();
    let request = db::get_users(rows.users.len() as i64, page).unwrap();
    assert_eq!((request.pages, request.offset), (2, 20));
    let fetched: Vec<User> = rows.users.iter().skip(request.offset as usize).take(20).map(copy_user).collect();
    match db::users_page(request, &fetched) {
        Responses::Page { page, pages, count, users } => {
            assert_eq!((page, pages, count), (2, 2, 5));
            assert_eq!(users[0].username, "player20");
            assert!(users.iter().all(|user| user.password.is_none() && user.salt.is_none()));
        }
        other => panic!("{:?}", other),
    }

    let name = routes::get_user(game_auth::models::api::User { identifier: String::from("PLAYER7") }, &admin).unwrap();
    match db::get_user(rows.find(&name).unwrap()) {
        Responses::User { user } => {
            assert_eq!(user.username, "player7");
            assert_eq!(user.password, None);
            assert_eq!(user.salt, None);
        }
        other => panic!("{:?}", other),
    }

    let name = routes::delete(game_auth::models::api::User { identifier: String::from("player7") }, &admin).unwrap();
    let deleted = rows.run(db::del_user(rows.find(&name).unwrap()), None).unwrap();
    assert_eq!(deleted, Responses::Delete { deleted: String::from("player7"), success: true });
    assert_eq!(rows.users.len(), 24);
    assert_eq!(rows.find(&name).unwrap_err(), Error::UserNotFound);
}

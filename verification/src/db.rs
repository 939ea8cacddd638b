//! The account lifecycle: what each operation decides once the store has
//! answered, and what it then wants written.

use vstd::prelude::*;
use vstd::string::*;
use vstd::utf8::encode_utf8;
use crate::clock::unix_now;
use crate::config::{Settings, TomlConfig, ID_BYTES, SALT_BYTES};
use crate::decimal::{decimal, push_decimal};
use crate::errors::{db_error, store_failure, Error, Kind};
use crate::ids::{hyphenated, hyphenated_is_ascii, id_from, id_of, uuid_text};
use crate::models::api::{Creds, Name, Password, Payment, Reply, Responses, Save};
use crate::models::db::{accounts, Account, Data, Saves, User};
use crate::password::{hash_from, hash_of, hashable, hashed, match_hash, password_matches, salt_of, salt_shaped};
use crate::policy::{parse_role, role_of, Requirement, Role};
use crate::random::{bytes_view, delivered, drawn, random_between, random_bytes};
use crate::store::{same_name, with_save, Course, Plan, Slot, Statement, Store, Write};
use crate::token::{create_jwt_at, gives_token, token_for};

verus! {

/// The accounts on one page of the list.
pub const PAGE_SIZE: i64 = 20;

/// The outcome of an operation that answers at once, responses taken by
/// their view.
pub open spec fn reply_of(result: Result<Responses, Error>) -> Result<Reply, Error> {
    match result {
        Ok(response) => Ok(response@),
        Err(e) => Err(e),
    }
}

/// The outcome of an operation that wants statements run, plans taken by
/// their view.
pub open spec fn course_of(result: Result<Plan, Error>) -> Result<Course, Error> {
    match result {
        Ok(plan) => Ok(plan@),
        Err(e) => Err(e),
    }
}

/// Whether `password` is the password of the account.
pub open spec fn credentials_match(user: Account, password: Seq<char>) -> bool {
    &&& user.password matches Some(stored)
    &&& user.salt matches Some(salt)
    &&& password_matches(password, stored, salt)
}

/// Verifies a password against the credentials of a stored account. An
/// account without credentials has no password.
pub fn holds_password(user: &User, password: &String) -> (held: bool)
    ensures
        held == credentials_match(user@, password@),
{
    match &user.password {
        Some(stored) => match &user.salt {
            Some(salt) => match_hash(password, stored, salt),
            None => false,
        },
        None => false,
    }
}

/// What authenticating against the stored account gives at `now`.
pub open spec fn auth_outcome(user: Account, password: Seq<char>, settings: Settings, now: i64) -> Result<
    Reply,
    Error,
> {
    if user.banned {
        Err(Error::Banned)
    } else if !credentials_match(user, password) {
        Err(Error::UserNotFound)
    } else {
        Ok(
            Reply::Auth {
                success: true,
                access_token: token_for(settings, user.username, user.acc_type, user.id, now),
            },
        )
    }
}

/// Authenticates against the stored account of the username, at `now`.
pub fn auth_at(user: &User, payload: &Creds, config: &TomlConfig, now: i64) -> (result: Result<
    Responses,
    Error,
>)
    ensures
        reply_of(result) == auth_outcome(user@, payload.password@, config@, now),
        result matches Ok(response) ==> gives_token(
            response@.token(),
            config@,
            user.username@,
            user.acc_type@,
            user.id,
            now,
        ),
{
    if !user.banned {
        if holds_password(user, &payload.password) {
            Ok(
                Responses::Auth {
                    success: true,
                    access_token: create_jwt_at(&user.username, &user.acc_type, user.id, config, now),
                },
            )
        } else {
            Err(Error::UserNotFound)
        }
    } else {
        Err(Error::Banned)
    }
}

/// What the store answered to the lookup of an account, rows taken by
/// their view: the row, or the code of the failure, if one came with it.
pub open spec fn found_view(found: Result<User, Option<String>>) -> Result<Account, Option<String>> {
    match found {
        Ok(user) => Ok(user@),
        Err(code) => Err(code),
    }
}

/// What authenticating gives once the account of the username has been
/// looked up. A lookup that no row answers fails without a code, and is an
/// unknown user.
pub open spec fn lookup_outcome(
    found: Result<Account, Option<String>>,
    password: Seq<char>,
    settings: Settings,
    now: i64,
) -> Result<Reply, Error> {
    match found {
        Ok(user) => auth_outcome(user, password, settings, now),
        Err(code) => Err(store_failure(code)),
    }
}

/// Whether `result` is what authenticating at `now` gives, with a token
/// that opens to the claims of the account.
pub open spec fn authenticates(
    result: Result<Responses, Error>,
    found: Result<User, Option<String>>,
    password: Seq<char>,
    settings: Settings,
    now: i64,
) -> bool {
    &&& reply_of(result) == lookup_outcome(found_view(found), password, settings, now)
    &&& found matches Ok(user) ==> (result matches Ok(response) ==> gives_token(
        response@.token(),
        settings,
        user.username@,
        user.acc_type@,
        user.id,
        now,
    ))
}

/// Authenticates against what the lookup of the username gave: no account
/// is an unknown user, a banned account is told so, a wrong password is
/// answered like an unknown username, and the right one with a token.
pub fn auth(found: Result<User, Option<String>>, payload: &Creds, config: &TomlConfig) -> (result: Result<
    Responses,
    Error,
>)
    ensures
        found matches Err(code) ==> reply_of(result) == Err::<Reply, Error>(store_failure(code)),
        found == Err::<User, Option<String>>(None) ==> reply_of(result) == Err::<Reply, Error>(
            Error::UserNotFound,
        ),
        exists|now: i64| #[trigger] authenticates(result, found, payload.password@, config@, now),
{
    match found {
        Ok(user) => {
            let now = unix_now();
            let result = auth_at(&user, payload, config, now);
            assert(authenticates(result, found, payload.password@, config@, now));
            result
        },
        Err(code) => {
            let result = Err(db_error(code));
            assert(authenticates(result, found, payload.password@, config@, 0));
            result
        },
    }
}

/// What registering an account wants done: the row inserted, for an
/// administrator the save slots too, and for anyone else a token given.
pub open spec fn registration(
    username: Seq<char>,
    acc_type: Seq<char>,
    id: u128,
    hash: Seq<char>,
    salt: Seq<char>,
    settings: Settings,
    now: i64,
) -> Course {
    let insert = Write::InsertUser {
        id,
        username,
        acc_type,
        password: hash,
        salt,
        creation_date: now,
    };
    if role_of(acc_type) == Some(Role::Admin) {
        Course {
            writes: seq![insert, Write::InsertData { id }],
            atomic: false,
            reply: Reply::RegisterAdmin { success: true },
        }
    } else {
        Course {
            writes: seq![insert],
            atomic: false,
            reply: Reply::Register {
                success: true,
                access_token: token_for(settings, username, acc_type, id, now),
            },
        }
    }
}

/// Plans the registration of an account under the id, the credentials and
/// the time given.
pub fn register_with(
    payload: Creds,
    acc_type: &str,
    config: &TomlConfig,
    id: u128,
    hash: String,
    salt: String,
    now: i64,
) -> (plan: Plan)
    ensures
        plan@ == registration(payload.username@, acc_type@, id, hash@, salt@, config@, now),
        gives_token(plan@.reply.token(), config@, payload.username@, acc_type@, id, now),
{
    let role = String::from_str(acc_type);
    let admin = match parse_role(acc_type) {
        Some(Role::Admin) => true,
        _ => false,
    };
    let response = if admin {
        Responses::RegisterAdmin { success: true }
    } else {
        Responses::Register {
            success: true,
            access_token: create_jwt_at(&payload.username, &role, id, config, now),
        }
    };
    let insert = Statement::InsertUser {
        id,
        username: payload.username,
        acc_type: role,
        password: hash,
        salt,
        creation_date: now,
    };
    let mut statements = Vec::new();
    statements.push(insert);
    if admin {
        statements.push(Statement::InsertData { id });
    }
    let plan = Plan { statements, atomic: false, response };
    assert(plan@.writes =~= registration(
        payload.username@,
        acc_type@,
        id,
        hash@,
        salt@,
        config@,
        now,
    ).writes);
    plan
}

/// Whether `course` is the registration of the account under some id,
/// some fresh salt and some time, with a token that opens to its claims.
pub open spec fn registers(
    course: Course,
    username: Seq<char>,
    password: Seq<char>,
    acc_type: Seq<char>,
    settings: Settings,
) -> bool {
    exists|id: u128, salt: Seq<char>, now: i64|
        salt_shaped(salt) && hashable(password, salt) && course == #[trigger] registration(
            username,
            acc_type,
            id,
            hash_of(password, salt),
            salt,
            settings,
            now,
        ) && gives_token(course.reply.token(), settings, username, acc_type, id, now)
}

/// What registering gives under the random bytes that were drawn for the
/// id and for the salt: the registration under the id and the salt made of
/// them, or the failure of the hasher where either could not be made.
pub open spec fn registration_from(
    username: Seq<char>,
    password: Seq<char>,
    acc_type: Seq<char>,
    settings: Settings,
    id_bytes: Option<Seq<u8>>,
    salt_bytes: Option<Seq<u8>>,
    now: i64,
) -> Result<Course, Error> {
    match id_of(id_bytes) {
        Some(id) => match hashed(password, salt_of(salt_bytes)) {
            Ok(pair) => Ok(registration(username, acc_type, id, pair.0, pair.1, settings, now)),
            Err(e) => Err(e),
        },
        None => Err(Error::Hasher),
    }
}

/// Plans the registration of a free username under the random bytes
/// given: the id is made of the one, the salt of the other, and the
/// password hashed under it. With bytes of either kind and a password that
/// fits, there is a plan.
pub fn register_from(
    payload: Creds,
    acc_type: &str,
    config: &TomlConfig,
    id_bytes: Option<Vec<u8>>,
    salt_bytes: Option<Vec<u8>>,
    now: i64,
) -> (result: Result<Plan, Error>)
    ensures
        course_of(result) == registration_from(
            payload.username@,
            payload.password@,
            acc_type@,
            config@,
            bytes_view(id_bytes),
            bytes_view(salt_bytes),
            now,
        ),
        delivered(bytes_view(id_bytes), ID_BYTES as int) && delivered(
            bytes_view(salt_bytes),
            SALT_BYTES as int,
        ) && encode_utf8(payload.password@).len() <= u32::MAX ==> result is Ok,
        result matches Ok(plan) ==> gives_token(
            plan@.reply.token(),
            config@,
            payload.username@,
            acc_type@,
            id_of(bytes_view(id_bytes))->Some_0,
            now,
        ),
        result matches Ok(plan) ==> (salt_bytes->Some_0@.len() == SALT_BYTES ==> registers(
            plan@,
            payload.username@,
            payload.password@,
            acc_type@,
            config@,
        )),
{
    match id_from(id_bytes) {
        Some(id) => match hash_from(&payload.password, salt_bytes) {
            Ok((hash, salt)) => {
                let ghost username = payload.username@;
                let ghost password = payload.password@;
                let ghost salted = salt@;
                let plan = register_with(payload, acc_type, config, id, hash, salt, now);
                assert(plan@ == registration(
                    username,
                    acc_type@,
                    id,
                    hash_of(password, salted),
                    salted,
                    config@,
                    now,
                ));
                Ok(plan)
            },
            Err(e) => Err(e),
        },
        None => Err(Error::Hasher),
    }
}

/// Whether `result` is what registering gives under some draw of random
/// bytes at some time.
pub open spec fn registered(
    result: Result<Plan, Error>,
    username: Seq<char>,
    password: Seq<char>,
    acc_type: Seq<char>,
    settings: Settings,
) -> bool {
    exists|id_bytes: Option<Seq<u8>>, salt_bytes: Option<Seq<u8>>, now: i64|
        drawn(id_bytes, ID_BYTES as int) && drawn(salt_bytes, SALT_BYTES as int) && course_of(result)
            == #[trigger] registration_from(
            username,
            password,
            acc_type,
            settings,
            id_bytes,
            salt_bytes,
            now,
        )
}

/// Registers an account: refuses a username that is taken, and else draws
/// an id, hashes the password under a fresh salt and plans the rest. Where
/// the random source or the hasher fails, so does the registration, and
/// nothing is planned.
pub fn register(taken: bool, payload: Creds, acc_type: &str, config: &TomlConfig) -> (result: Result<
    Plan,
    Error,
>)
    ensures
        taken ==> course_of(result) == Err::<Course, Error>(Error::UsernameTaken),
        !taken ==> registered(result, payload.username@, payload.password@, acc_type@, config@),
        !taken ==> match result {
            Ok(plan) => registers(plan@, payload.username@, payload.password@, acc_type@, config@),
            Err(e) => e == Error::Hasher,
        },
        !taken && encode_utf8(payload.password@).len() > u32::MAX ==> result is Err,
{
    if taken {
        Err(Error::UsernameTaken)
    } else {
        let id_bytes = random_bytes(ID_BYTES);
        let salt_bytes = random_bytes(SALT_BYTES);
        let now = unix_now();
        let ghost ids = bytes_view(id_bytes);
        let ghost salts = bytes_view(salt_bytes);
        let ghost username = payload.username@;
        let ghost password = payload.password@;
        let result = register_from(payload, acc_type, config, id_bytes, salt_bytes, now);
        assert(drawn(ids, ID_BYTES as int) && drawn(salts, SALT_BYTES as int) && course_of(result)
            == registration_from(username, password, acc_type@, config@, ids, salts, now));
        result
    }
}

/// What a change of password wants done.
pub open spec fn password_change(username: Seq<char>, hash: Seq<char>, salt: Seq<char>) -> Course {
    Course {
        writes: seq![Write::SetPassword { username, password: hash, salt }],
        atomic: false,
        reply: Reply::NewPassword { success: true },
    }
}

/// Plans the change of the password of `username` to the credentials given.
pub fn update_password_with(username: &String, hash: String, salt: String) -> (plan: Plan)
    ensures
        plan@ == password_change(username@, hash@, salt@),
{
    Plan::single(
        Statement::SetPassword { username: username.clone(), password: hash, salt },
        Responses::NewPassword { success: true },
    )
}

/// What a change of password gives under the random bytes that were
/// drawn for the salt: a wrong current password is an unknown user; else
/// the new password is hashed under the salt made of the bytes, and where
/// that fails the hasher has failed.
pub open spec fn password_change_from(
    user: Account,
    current: Seq<char>,
    new: Seq<char>,
    username: Seq<char>,
    salt_bytes: Option<Seq<u8>>,
) -> Result<Course, Error> {
    if !credentials_match(user, current) {
        Err(Error::UserNotFound)
    } else {
        match hashed(new, salt_of(salt_bytes)) {
            Ok(pair) => Ok(password_change(username, pair.0, pair.1)),
            Err(e) => Err(e),
        }
    }
}

/// Whether `course` is the change of the password of `username` to `new`
/// under some fresh salt.
pub open spec fn changes_password(course: Course, username: Seq<char>, new: Seq<char>) -> bool {
    exists|salt: Seq<char>|
        salt_shaped(salt) && hashable(new, salt) && course == #[trigger] password_change(
            username,
            hash_of(new, salt),
            salt,
        )
}

fn change(payload: &Password, username: &String, salt_bytes: Option<Vec<u8>>) -> (result: Result<
    Plan,
    Error,
>)
    ensures
        course_of(result) == match hashed(payload.new_password@, salt_of(bytes_view(salt_bytes))) {
            Ok(pair) => Ok::<Course, Error>(password_change(username@, pair.0, pair.1)),
            Err(e) => Err::<Course, Error>(e),
        },
        delivered(bytes_view(salt_bytes), SALT_BYTES as int) && encode_utf8(
            payload.new_password@,
        ).len() <= u32::MAX ==> result is Ok,
        result matches Ok(plan) ==> (salt_bytes->Some_0@.len() == SALT_BYTES ==> changes_password(
            plan@,
            username@,
            payload.new_password@,
        )),
        result matches Err(e) ==> e == Error::Hasher,
{
    match hash_from(&payload.new_password, salt_bytes) {
        Ok((hash, salt)) => {
            let ghost salted = salt@;
            let plan = update_password_with(username, hash, salt);
            assert(plan@ == password_change(
                username@,
                hash_of(payload.new_password@, salted),
                salted,
            ));
            Ok(plan)
        },
        Err(e) => Err(e),
    }
}

/// Changes the password of the stored account of `username` under the
/// random bytes given. With the bytes of a salt, the right current
/// password and a new one that fits, there is a plan.
pub fn update_password_from(
    user: &User,
    payload: &Password,
    username: &String,
    salt_bytes: Option<Vec<u8>>,
) -> (result: Result<Plan, Error>)
    ensures
        course_of(result) == password_change_from(
            user@,
            payload.password@,
            payload.new_password@,
            username@,
            bytes_view(salt_bytes),
        ),
        credentials_match(user@, payload.password@) && delivered(
            bytes_view(salt_bytes),
            SALT_BYTES as int,
        ) && encode_utf8(payload.new_password@).len() <= u32::MAX ==> result is Ok,
        result matches Ok(plan) ==> (salt_bytes->Some_0@.len() == SALT_BYTES ==> changes_password(
            plan@,
            username@,
            payload.new_password@,
        )),
{
    if holds_password(user, &payload.password) {
        change(payload, username, salt_bytes)
    } else {
        Err(Error::UserNotFound)
    }
}

/// Changes the password of the stored account of `username`: the current
/// password must verify, and the new one is hashed under a fresh salt.
/// Where the random source or the hasher fails, so does the change, and
/// nothing is planned.
pub fn update_password(user: &User, payload: &Password, username: &String) -> (result: Result<
    Plan,
    Error,
>)
    ensures
        exists|salt_bytes: Option<Seq<u8>>|
            drawn(salt_bytes, SALT_BYTES as int) && course_of(result) == #[trigger] password_change_from(
                user@,
                payload.password@,
                payload.new_password@,
                username@,
                salt_bytes,
            ),
        !credentials_match(user@, payload.password@) ==> course_of(result) == Err::<Course, Error>(
            Error::UserNotFound,
        ),
        credentials_match(user@, payload.password@) ==> match result {
            Ok(plan) => changes_password(plan@, username@, payload.new_password@),
            Err(e) => e == Error::Hasher,
        },
        credentials_match(user@, payload.password@) && encode_utf8(payload.new_password@).len()
            > u32::MAX ==> result is Err,
{
    if holds_password(user, &payload.password) {
        let salt_bytes = random_bytes(SALT_BYTES);
        let ghost salts = bytes_view(salt_bytes);
        let result = change(payload, username, salt_bytes);
        assert(drawn(salts, SALT_BYTES as int) && course_of(result) == password_change_from(
            user@,
            payload.password@,
            payload.new_password@,
            username@,
            salts,
        ));
        result
    } else {
        let result = Err(Error::UserNotFound);
        assert(drawn(None, SALT_BYTES as int) && course_of(result) == password_change_from(
            user@,
            payload.password@,
            payload.new_password@,
            username@,
            None,
        ));
        result
    }
}

/// The id of a payment: `tx_`, a serial number, and the first and the last
/// six characters of the account's id as a hyphenated UUID.
pub open spec fn transaction_id(serial: u32, id: u128) -> Seq<char> {
    seq!['t', 'x', '_'] + decimal(serial as nat) + hyphenated(id).subrange(0, 6) + hyphenated(
        id,
    ).subrange(30, 36)
}

/// Writes the id of a payment.
pub fn transaction_id_text(serial: u32, id: u128) -> (text: String)
    ensures
        text@ == transaction_id(serial, id),
{
    let uuid = uuid_text(id);
    proof {
        hyphenated_is_ascii(id);
        reveal_strlit("tx_");
    }
    let mut text = String::from_str("tx_");
    assert(text@ =~= seq!['t', 'x', '_']);
    push_decimal(&mut text, serial);
    text.append(uuid.as_str().substring_ascii(0, 6));
    text.append(uuid.as_str().substring_ascii(30, 36));
    text
}

/// What upgrading wants done, as one transaction: the payment recorded,
/// the role raised, the save slots laid out; and a token with the new role.
pub open spec fn upgrade_course(
    user: Account,
    payment: &Payment,
    id: u128,
    serial: u32,
    settings: Settings,
    now: i64,
) -> Course {
    Course {
        writes: seq![
            Write::InsertTransaction {
                tx_id: transaction_id(serial, id),
                id,
                first_name: payment.first_name@,
                last_name: payment.last_name@,
                address: payment.address@,
                tx_timestamp: now,
            },
            Write::SetRole { id, acc_type: Role::Upgraded.code() },
            Write::InsertData { id },
        ],
        atomic: true,
        reply: Reply::Upgrade {
            success: true,
            access_token: token_for(settings, user.username, Role::Upgraded.code(), id, now),
        },
    }
}

/// What upgrading the stored account gives: only a standard account is
/// upgraded.
pub open spec fn upgrade_outcome(
    user: Account,
    payment: &Payment,
    id: u128,
    serial: u32,
    settings: Settings,
    now: i64,
) -> Result<Course, Error> {
    if role_of(user.acc_type) == Some(Role::Standard) {
        Ok(upgrade_course(user, payment, id, serial, settings, now))
    } else {
        Err(Error::Upgraded)
    }
}

/// Upgrades the stored account under the serial number and the time given.
pub fn upgrade_with(
    user: &User,
    payload: &Payment,
    id: u128,
    config: &TomlConfig,
    serial: u32,
    now: i64,
) -> (result: Result<Plan, Error>)
    ensures
        course_of(result) == upgrade_outcome(user@, payload, id, serial, config@, now),
        result matches Ok(plan) ==> gives_token(
            plan@.reply.token(),
            config@,
            user.username@,
            Role::Upgraded.code(),
            id,
            now,
        ),
{
    match parse_role(user.acc_type.as_str()) {
        Some(Role::Standard) => {
            let role = Role::Upgraded.to_code();
            let response = Responses::Upgrade {
                success: true,
                access_token: create_jwt_at(&user.username, &role, id, config, now),
            };
            let mut statements = Vec::new();
            statements.push(
                Statement::InsertTransaction {
                    tx_id: transaction_id_text(serial, id),
                    id,
                    first_name: payload.first_name.clone(),
                    last_name: payload.last_name.clone(),
                    address: payload.address.clone(),
                    tx_timestamp: now,
                },
            );
            statements.push(Statement::SetRole { id, acc_type: role });
            statements.push(Statement::InsertData { id });
            let plan = Plan { statements, atomic: true, response };
            assert(plan@.writes =~= upgrade_course(user@, payload, id, serial, config@, now).writes);
            Ok(plan)
        },
        _ => Err(Error::Upgraded),
    }
}

/// Upgrades the stored account of the token's bearer. The role that counts
/// is the stored one, whatever the token says.
pub fn upgrade(user: &User, payload: &Payment, id: u128, config: &TomlConfig) -> (result: Result<
    Plan,
    Error,
>)
    ensures
        exists|serial: u32, now: i64|
            10000 <= serial < 99999 && course_of(result) == #[trigger] upgrade_outcome(
                user@,
                payload,
                id,
                serial,
                config@,
                now,
            ) && (result matches Ok(plan) ==> gives_token(
                plan@.reply.token(),
                config@,
                user.username@,
                Role::Upgraded.code(),
                id,
                now,
            )),
{
    let serial = random_between(10000, 99999);
    let now = unix_now();
    upgrade_with(user, payload, id, config, serial, now)
}

/// What saving wants done.
pub open spec fn save_course(data: Seq<char>, id: u128, slot: Slot, now: i64) -> Course {
    Course {
        writes: seq![Write::SetSave { id, slot, data, timestamp: now }],
        atomic: false,
        reply: Reply::Save { success: true },
    }
}

/// Plans the writing of one save slot at `now`.
pub fn save_at(payload: Save, id: u128, opt: Slot, now: i64) -> (plan: Plan)
    ensures
        plan@ == save_course(payload.data@, id, opt, now),
{
    let data = payload.data.duplicate();
    Plan::single(
        Statement::SetSave { id, slot: opt, data, timestamp: now },
        Responses::Save { success: true },
    )
}

/// Plans the writing of one save slot, whatever it held.
pub fn save(payload: Save, id: u128, opt: Slot) -> (plan: Plan)
    ensures
        exists|now: i64| plan@ == #[trigger] save_course(payload.data@, id, opt, now),
{
    let now = unix_now();
    save_at(payload, id, opt, now)
}

/// Answers with the save slots of an account, written or not.
pub fn load(data: Data) -> (response: Responses)
    ensures
        response@ == (Reply::Load { data: data@ }),
{
    Responses::Load { data: Box::new(data) }
}

/// The pages that `count` accounts fill.
pub open spec fn page_count(count: i64) -> i32 {
    if count <= 0 {
        0
    } else if (count + PAGE_SIZE - 1) / (PAGE_SIZE as int) > i32::MAX {
        i32::MAX
    } else {
        ((count + PAGE_SIZE - 1) / (PAGE_SIZE as int)) as i32
    }
}

/// A page of the account list that can be fetched.
#[derive(Clone, Copy, Debug, PartialEq, Eq, Structural)]
pub struct PageRequest {
    /// The page asked for.
    pub page: i32,
    /// The pages that there are.
    pub pages: i32,
    /// The accounts to skip.
    pub offset: i64,
}

/// Where the page `page_num` of `count` accounts starts, if there is such
/// a page.
pub open spec fn page_outcome(count: i64, page_num: i32) -> Result<PageRequest, Error> {
    if page_num <= page_count(count) {
        Ok(
            PageRequest {
                page: page_num,
                pages: page_count(count),
                offset: ((page_num - 1) * PAGE_SIZE) as i64,
            },
        )
    } else {
        Err(Error::Page)
    }
}

/// Finds the page `page_num` of a list of `count` accounts.
pub fn get_users(count: i64, page_num: i32) -> (result: Result<PageRequest, Error>)
    ensures
        result == page_outcome(count, page_num),
{
    let pages: i32 = if count <= 0 {
        0
    } else {
        let full: i64 = (count - 1) / PAGE_SIZE + 1;
        if full > i32::MAX as i64 {
            i32::MAX
        } else {
            full as i32
        }
    };
    if page_num <= pages {
        Ok(PageRequest { page: page_num, pages, offset: (page_num as i64 - 1) * PAGE_SIZE })
    } else {
        Err(Error::Page)
    }
}

/// The rows without their credentials, in their order.
pub open spec fn shown(rows: Seq<Account>) -> Seq<Account> {
    rows.map_values(|row: Account| row.public())
}

/// Answers with one page of the account list, credentials taken out.
pub fn users_page(request: PageRequest, rows: &Vec<User>) -> (response: Responses)
    ensures
        response@ == (Reply::Page {
            page: request.page,
            pages: request.pages,
            count: rows.len(),
            users: shown(accounts(rows@)),
        }),
{
    let mut users: Vec<User> = Vec::new();
    let mut i: usize = 0;
    while i < rows.len()
        invariant
            i <= rows.len(),
            users.len() == i,
            forall|k: int| 0 <= k < i ==> (#[trigger] users[k])@ == rows[k]@.public(),
        decreases rows.len() - i,
    {
        users.push(rows[i].shown());
        i += 1;
    }
    assert(accounts(users@) =~= shown(accounts(rows@)));
    Responses::Page { page: request.page, pages: request.pages, count: users.len(), users }
}

/// Answers with one account, credentials taken out.
pub fn get_user(user: User) -> (response: Responses)
    ensures
        response@ == (Reply::User { user: user@.public() }),
{
    Responses::User { user: user.displayable() }
}

/// What deleting an account wants done.
pub open spec fn deletion(user: Account) -> Course {
    Course {
        writes: seq![Write::DeleteUser { id: user.id }],
        atomic: false,
        reply: Reply::Delete { deleted: user.username, success: true },
    }
}

/// Plans the removal of the stored account.
pub fn del_user(user: User) -> (plan: Plan)
    ensures
        plan@ == deletion(user@),
{
    Plan::single(
        Statement::DeleteUser { id: user.id },
        Responses::Delete { deleted: user.username, success: true },
    )
}

/// What lifting the ban of an account gives: only a banned account is
/// unbanned.
pub open spec fn unban_outcome(user: Account) -> Result<Course, Error> {
    if user.banned {
        Ok(
            Course {
                writes: seq![Write::SetBan { id: user.id, banned: false, ban_date: None }],
                atomic: false,
                reply: Reply::Unban { unbanned: user.username, success: true },
            },
        )
    } else {
        Err(Error::NotBanned)
    }
}

/// Lifts the ban of the stored account, and refuses where there is none.
pub fn unban(user: User) -> (result: Result<Plan, Error>)
    ensures
        course_of(result) == unban_outcome(user@),
{
    if user.banned {
        Ok(
            Plan::single(
                Statement::SetBan { id: user.id, banned: false, ban_date: None },
                Responses::Unban { unbanned: user.username, success: true },
            ),
        )
    } else {
        Err(Error::NotBanned)
    }
}

/// What banning an account at `now` gives: only an account that is not
/// banned is banned.
pub open spec fn ban_outcome(user: Account, now: i64) -> Result<Course, Error> {
    if !user.banned {
        Ok(
            Course {
                writes: seq![Write::SetBan { id: user.id, banned: true, ban_date: Some(now) }],
                atomic: false,
                reply: Reply::Ban { banned: user.username, success: true },
            },
        )
    } else {
        Err(Error::PriorBan)
    }
}

/// Bans the stored account at `now`, and refuses where it is banned.
pub fn ban_at(user: User, now: i64) -> (result: Result<Plan, Error>)
    ensures
        course_of(result) == ban_outcome(user@, now),
{
    if !user.banned {
        Ok(
            Plan::single(
                Statement::SetBan { id: user.id, banned: true, ban_date: Some(now) },
                Responses::Ban { banned: user.username, success: true },
            ),
        )
    } else {
        Err(Error::PriorBan)
    }
}

/// Bans the stored account as of now, and refuses where it is banned.
pub fn ban(user: User) -> (result: Result<Plan, Error>)
    ensures
        exists|now: i64| course_of(result) == #[trigger] ban_outcome(user@, now),
{
    let now = unix_now();
    ban_at(user, now)
}

/// The codes of the three roles stand for three roles.
pub proof fn codes_are_distinct()
    ensures
        role_of(Role::Standard.code()) == Some(Role::Standard),
        role_of(Role::Upgraded.code()) == Some(Role::Upgraded),
        role_of(Role::Admin.code()) == Some(Role::Admin),
{
    assert(Role::Standard.code()[0] == 's');
    assert(Role::Upgraded.code()[0] == 'u');
    assert(Role::Admin.code()[0] == 'a');
}

/// An upgrade is not repeated. Once the plan of an upgrade has gone
/// through, the stored role of the account is the upgraded one, and another
/// upgrade of that account is refused as a conflict, whatever payment form
/// comes with it. The token does not matter: one issued before the upgrade
/// still says `standard` and still passes the check of the role, and the
/// stored role refuses it.
pub proof fn upgrade_is_not_repeated(
    store: Store,
    payment: &Payment,
    id: u128,
    serial: u32,
    settings: Settings,
    now: i64,
    again: &Payment,
    later_serial: u32,
    later: i64,
)
    requires
        store.accounts.contains_key(id),
        upgrade_outcome(store.accounts[id], payment, id, serial, settings, now) is Ok,
    ensures
        ({
            let course = upgrade_outcome(store.accounts[id], payment, id, serial, settings, now)->Ok_0;
            let next = store.run(course, None);
            &&& role_of(store.accounts[id].acc_type) == Some(Role::Standard)
            &&& next.accounts.contains_key(id)
            &&& role_of(next.accounts[id].acc_type) == Some(Role::Upgraded)
            &&& Requirement::Standard.decision(Role::Standard.code()) is Ok
            &&& upgrade_outcome(next.accounts[id], again, id, later_serial, settings, later) == Err::<
                Course,
                Error,
            >(Error::Upgraded)
            &&& Error::Upgraded.class() == Kind::Conflict
        }),
{
    codes_are_distinct();
    let course = upgrade_outcome(store.accounts[id], payment, id, serial, settings, now)->Ok_0;
    reveal_with_fuel(Store::after_first, 4);
    assert(course.writes.len() == 3);
}

/// An upgrade leaves no half-done work. Its three statements are one
/// transaction: if the store refuses any of them, be it the last, neither
/// the payment nor the new role nor the save slots are there afterwards.
pub proof fn upgrade_is_all_or_nothing(
    store: Store,
    user: Account,
    payment: &Payment,
    id: u128,
    serial: u32,
    settings: Settings,
    now: i64,
    failing: int,
)
    requires
        upgrade_outcome(user, payment, id, serial, settings, now) is Ok,
    ensures
        ({
            let course = upgrade_outcome(user, payment, id, serial, settings, now)->Ok_0;
            &&& course.atomic
            &&& course.writes.len() == 3
            &&& course.writes[0] is InsertTransaction
            &&& course.writes[1] is SetRole
            &&& course.writes[2] is InsertData
            &&& store.run(course, Some(failing)) == store
        }),
{
}

/// A ban is not repeated and not lifted twice. Banning a banned account and
/// unbanning one that is not banned are refused as conflicts and plan no
/// statement; and once the plan of a ban (or of its lifting) has gone
/// through, the same request is refused.
pub proof fn ban_guard(store: Store, id: u128, now: i64, later: i64)
    requires
        store.accounts.contains_key(id),
        store.accounts[id].id == id,
    ensures
        ({
            let user = store.accounts[id];
            &&& user.banned ==> ban_outcome(user, now) == Err::<Course, Error>(Error::PriorBan)
            &&& !user.banned ==> unban_outcome(user) == Err::<Course, Error>(Error::NotBanned)
            &&& Error::PriorBan.class() == Kind::Conflict
            &&& Error::NotBanned.class() == Kind::Conflict
            &&& ban_outcome(user, now) matches Ok(course) ==> ban_outcome(
                store.run(course, None).accounts[id],
                later,
            ) == Err::<Course, Error>(Error::PriorBan)
            &&& unban_outcome(user) matches Ok(course) ==> unban_outcome(
                store.run(course, None).accounts[id],
            ) == Err::<Course, Error>(Error::NotBanned)
            &&& ban_outcome(user, now) matches Ok(course) ==> store.run(
                course,
                None,
            ).accounts[id].ban_date == Some(now)
            &&& unban_outcome(user) matches Ok(course) ==> store.run(course, None).accounts[id].ban_date
                is None
        }),
{
    reveal_with_fuel(Store::after_first, 2);
}

/// What authenticating gives on a store: the account of the username is
/// looked up, whatever the case of its letters, and the password held
/// against it. A username that no account has is a lookup that no row
/// answers.
pub open spec fn authentication(
    store: Store,
    username: Seq<char>,
    password: Seq<char>,
    settings: Settings,
    now: i64,
) -> Result<Reply, Error> {
    match store.find(Name::Username(username)) {
        None => lookup_outcome(Err(None), password, settings, now),
        Some(user) => lookup_outcome(Ok(user), password, settings, now),
    }
}

/// A wrong password is answered as an unknown username is: authenticating
/// under a username that no account has, and under the username of an
/// account that is not banned with a password that is not its own, end in
/// the same error, hence in the same status and message.
pub proof fn enumeration_resistance(
    store: Store,
    unknown: Seq<char>,
    known: Seq<char>,
    password: Seq<char>,
    settings: Settings,
    now: i64,
)
    requires
        !store.name_taken(unknown),
        store.find(Name::Username(known)) matches Some(user) && !user.banned && !credentials_match(
            user,
            password,
        ),
    ensures
        authentication(store, unknown, password, settings, now) == authentication(
            store,
            known,
            password,
            settings,
            now,
        ),
        authentication(store, unknown, password, settings, now) == Err::<Reply, Error>(
            Error::UserNotFound,
        ),
        Error::UserNotFound.class() == Kind::Authentication,
{
}

/// A username is taken in every case of its letters: once the plan of a
/// registration has gone through, the store holds the name against every
/// spelling of it, and a registration that finds its name taken is refused
/// as a conflict.
pub proof fn registration_takes_the_name(
    store: Store,
    username: Seq<char>,
    acc_type: Seq<char>,
    id: u128,
    hash: Seq<char>,
    salt: Seq<char>,
    settings: Settings,
    now: i64,
    other: Seq<char>,
)
    requires
        same_name(username, other),
    ensures
        store.run(registration(username, acc_type, id, hash, salt, settings, now), None).name_taken(
            other,
        ),
        Error::UsernameTaken.class() == Kind::Conflict,
{
    let course = registration(username, acc_type, id, hash, salt, settings, now);
    let next = store.run(course, None);
    reveal_with_fuel(Store::after_first, 3);
    assert(next.accounts.contains_key(id) && same_name(next.accounts[id].username, other));
}

/// Whether a plan changes the role of an account that is stored.
pub open spec fn sets_role(course: Course) -> bool {
    exists|k: int| 0 <= k < course.writes.len() && #[trigger] course.writes[k] is SetRole
}

/// Roles only go up, and only by an upgrade. Of all that the lifecycle
/// plans, the upgrade alone changes the role of a stored account: it is
/// planned for a standard account only and makes it an upgraded one.
pub proof fn only_upgrade_sets_roles(
    user: Account,
    payment: &Payment,
    id: u128,
    serial: u32,
    settings: Settings,
    now: i64,
    text: Seq<char>,
    other: Seq<char>,
    slot: Slot,
)
    ensures
        !sets_role(registration(user.username, user.acc_type, id, text, other, settings, now)),
        !sets_role(password_change(user.username, text, other)),
        !sets_role(save_course(text, id, slot, now)),
        !sets_role(deletion(user)),
        ban_outcome(user, now) matches Ok(course) ==> !sets_role(course),
        unban_outcome(user) matches Ok(course) ==> !sets_role(course),
        upgrade_outcome(user, payment, id, serial, settings, now) matches Ok(course) ==> role_of(
            user.acc_type,
        ) == Some(Role::Standard) && course.writes[1] == (Write::SetRole {
            id,
            acc_type: Role::Upgraded.code(),
        }),
{
}

/// Who has registered can authenticate. Once the plan of a registration
/// has gone through, the account stands under its id with the role it was
/// registered with and without a ban, and authenticating against it with
/// the password that was hashed gives a token.
pub proof fn registered_account_authenticates(
    store: Store,
    username: Seq<char>,
    acc_type: Seq<char>,
    id: u128,
    password: Seq<char>,
    salt: Seq<char>,
    settings: Settings,
    now: i64,
    later: i64,
)
    requires
        hashable(password, salt),
    ensures
        ({
            let course = registration(
                username,
                acc_type,
                id,
                hash_of(password, salt),
                salt,
                settings,
                now,
            );
            let account = store.run(course, None).accounts[id];
            &&& store.run(course, None).accounts.contains_key(id)
            &&& account.username == username
            &&& account.acc_type == acc_type
            &&& !account.banned
            &&& auth_outcome(account, password, settings, later) == Ok::<Reply, Error>(
                Reply::Auth {
                    success: true,
                    access_token: token_for(settings, username, acc_type, id, later),
                },
            )
        }),
{
    reveal_with_fuel(Store::after_first, 3);
}

/// A changed password is in force. Once the plan of a change of password
/// has gone through, the new password verifies against every account of
/// that username, and nothing else of the account has changed.
pub proof fn new_password_is_in_force(
    store: Store,
    id: u128,
    username: Seq<char>,
    password: Seq<char>,
    salt: Seq<char>,
)
    requires
        store.accounts.contains_key(id),
        same_name(store.accounts[id].username, username),
        hashable(password, salt),
    ensures
        ({
            let next = store.run(password_change(username, hash_of(password, salt), salt), None);
            &&& next.accounts.contains_key(id)
            &&& credentials_match(next.accounts[id], password)
            &&& next.accounts[id] == (Account {
                password: next.accounts[id].password,
                salt: next.accounts[id].salt,
                ..store.accounts[id]
            })
        }),
{
    reveal_with_fuel(Store::after_first, 2);
}

/// What is saved is what is loaded. Once the plan of a save has gone
/// through, the slot holds the save and the time of writing, whatever it
/// held, and the two other slots hold what they held; slots laid out by an
/// upgrade start empty.
pub proof fn saved_slot_is_loaded(store: Store, id: u128, slot: Slot, data: Seq<char>, now: i64)
    requires
        store.saves.contains_key(id),
    ensures
        store.run(save_course(data, id, slot, now), None).saves[id] == with_save(
            store.saves[id],
            slot,
            data,
            now,
        ),
        with_save(Saves::empty(), Slot::One, data, now) == (Saves {
            save_one: Some(data),
            timestamp_one: Some(now),
            ..Saves::empty()
        }),
        store.after(Write::InsertData { id }).saves[id] == Saves::empty(),
{
    reveal_with_fuel(Store::after_first, 2);
}

} // verus!

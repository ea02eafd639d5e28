use vstd::prelude::*;

verus! {

/// How long an issued session token stays valid, in seconds.
pub const SESSION_LIFETIME_SECONDS: i64 = 86400;

/// The work factor of password hashes: bcrypt's default cost.
pub const PASSWORD_HASH_COST: u32 = 12;

/// A registered user. The password is held as its hash.
#[derive(Clone, Debug)]
pub struct User {
    pub id: String,
    pub username: String,
    pub email: String,
    pub password: String,
}

/// The claims of a session token: the user's e-mail, the user's id and the
/// expiry in seconds since the Unix epoch.
#[derive(Clone, Debug)]
pub struct Claims {
    pub sub: String,
    pub user_id: String,
    pub exp: usize,
}

/// A successful login: the session token and the user it belongs to.
#[derive(Clone, Debug)]
pub struct LoginResult {
    pub token: String,
    pub user: User,
    pub username: String,
}

/// Why a user operation was refused.
#[derive(Debug)]
pub enum UserError {
    /// The e-mail is already registered.
    Conflict(String),
    /// The password could not be hashed.
    PasswordHashing,
}

#[verifier::external_type_specification]
#[verifier::external_body]
pub struct ExBcryptError(bcrypt::BcryptError);

/// The lower-case hexadecimal digit of a value below 16.
pub open spec fn hex_digit(d: nat) -> char {
    if d < 10 {
        ((d + 48) as u8) as char
    } else {
        ((d + 87) as u8) as char
    }
}

/// The last `n` hexadecimal digits of `v`, most significant first.
pub open spec fn hex_digits(v: nat, n: nat) -> Seq<char>
    decreases n,
{
    if n == 0 {
        Seq::empty()
    } else {
        hex_digits(v / 16, (n - 1) as nat).push(hex_digit(v % 16))
    }
}

/// The hyphenated form of a UUID: 32 hexadecimal digits in groups of 8, 4,
/// 4, 4 and 12.
pub open spec fn hyphenated_uuid(id: nat) -> Seq<char> {
    let h = hex_digits(id, 32);
    h.subrange(0, 8) + "-"@ + h.subrange(8, 12) + "-"@ + h.subrange(12, 16) + "-"@ + h.subrange(
        16,
        20,
    ) + "-"@ + h.subrange(20, 32)
}

/// Relies on uuid's `Uuid::from_u128` and its `Display`, which writes the
/// hyphenated lower-case form.
#[verifier::external_body]
pub(crate) fn uuid_text(id: u128) -> (r: String)
    ensures
        r@ == hyphenated_uuid(id as nat),
{
    uuid::Uuid::from_u128(id).to_string()
}

/// Relies on uuid's `Uuid::new_v4`: random bits, with the version nibble set
/// to 4 and the variant bits to `10`.
#[verifier::external_body]
fn random_uuid() -> (r: u128)
    ensures
        (r >> 76u128) & 0xfu128 == 4,
        (r >> 62u128) & 0x3u128 == 2,
{
    uuid::Uuid::new_v4().as_u128()
}

/// Relies on bcrypt's `hash`, which salts with fresh random bytes, so that
/// nothing is known of the hash but that it was made.
#[verifier::external_body]
fn hash_password(password: &str, cost: u32) -> (r: Result<String, bcrypt::BcryptError>) {
    bcrypt::hash(password, cost)
}

/// Prepares the record of a new user: refused with a conflict when the e-mail
/// is already registered, and otherwise with a fresh random id, the given name
/// and e-mail, and the password's hash in place of the password.
pub fn register_user(email_taken: bool, username: &str, email: &str, password: &str) -> (r: Result<
    User,
    UserError,
>)
    ensures
        email_taken ==> (r matches Err(UserError::Conflict(_))),
        r matches Err(UserError::Conflict(m)) ==> email_taken && m@ == "Email '"@ + email@
            + "' is already registered."@,
        r matches Ok(u) ==> !email_taken && u.username@ == username@ && u.email@ == email@ && (
        exists|id: u128| u.id@ == hyphenated_uuid(id as nat)),
        r matches Err(UserError::PasswordHashing) ==> !email_taken,
{
    if email_taken {
        let mut message = String::from_str("Email '");
        message.append(email);
        message.append("' is already registered.");
        return Err(UserError::Conflict(message));
    }
    let hashed = match hash_password(password, PASSWORD_HASH_COST) {
        Ok(h) => h,
        Err(_) => {
            return Err(UserError::PasswordHashing);
        },
    };
    let id = random_uuid();
    let id_text = uuid_text(id);
    Ok(
        User {
            id: id_text,
            username: String::from_str(username),
            email: String::from_str(email),
            password: hashed,
        },
    )
}

/// The claims of a session opened at `now` (seconds since the Unix epoch):
/// the user's e-mail and id, valid for one day.
pub fn login_claims(user: &User, now: i64) -> (r: Claims)
    requires
        0 <= now + SESSION_LIFETIME_SECONDS <= i64::MAX,
        now + SESSION_LIFETIME_SECONDS <= usize::MAX,
    ensures
        r.sub@ == user.email@,
        r.user_id@ == user.id@,
        r.exp as int == now + SESSION_LIFETIME_SECONDS,
{
    let exp = now + SESSION_LIFETIME_SECONDS;
    Claims { sub: user.email.clone(), user_id: user.id.clone(), exp: exp as usize }
}

/// The result of a login: the signed token beside the user it was made for.
pub fn login_result(user: User, token: String) -> (r: LoginResult)
    ensures
        r.token@ == token@,
        r.username@ == user.username@,
        r.user.id@ == user.id@,
        r.user.email@ == user.email@,
        r.user.username@ == user.username@,
{
    let username = user.username.clone();
    LoginResult { token, user, username }
}

} // verus!

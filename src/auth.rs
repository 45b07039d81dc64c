use vstd::prelude::*;

use vstd::string::StringSliceAdditionalSpecFns;
use vstd::utf8::{
    encode_utf8_valid_utf8, is_char_boundary_iff_not_is_continuation_byte,
    is_char_boundary_start_end_of_seq, valid_utf8_split,
};

use crate::error::AppError;
use crate::user::{email_known, hash_readable, password_accepted, UserManager};

verus! {

/// How long an issued token stays valid, in seconds.
pub const TOKEN_LIFETIME_SECS: i64 = 86400;

/// What a signed token carries.
#[derive(Clone, Debug)]
pub struct Claims {
    /// The subject's email.
    pub sub: String,
    /// Expiration, in seconds since the Unix epoch.
    pub exp: i64,
    /// The server epoch the token was issued under.
    pub server_id: String,
}

/// A signed token as handed to a client.
#[derive(Clone, Debug)]
pub struct Token {
    pub token: String,
}

/// The caller a bearer token was verified for.
#[derive(Clone, Debug)]
pub struct AuthUser {
    pub email: String,
}

/// Holds the server epoch: a random identifier chosen at startup and chosen
/// anew by `regenerate_server_id`, which every token embeds and which a token
/// must match to be accepted.
#[derive(Debug)]
pub struct JwtManager {
    server_id: String,
}

/// `c` is what `email` is issued at time `now` under epoch `epoch`.
pub open spec fn claims_issued(epoch: Seq<char>, email: Seq<char>, now: int, c: Claims) -> bool {
    &&& c.sub@ == email
    &&& c.exp == now + TOKEN_LIFETIME_SECS
    &&& c.server_id@ == epoch
}

/// Decoded claims `c` are accepted under epoch `epoch`.
pub open spec fn claims_accepted(epoch: Seq<char>, c: Claims) -> bool {
    c.server_id@ == epoch
}

/// The bytes of "Bearer ", the prefix of an Authorization header.
pub open spec fn bearer_prefix() -> Seq<u8> {
    seq![66u8, 101u8, 97u8, 114u8, 101u8, 114u8, 32u8]
}

/// Relies on uuid::Uuid::new_v4 and its Display: a random version 4 UUID in
/// its hyphenated form, 36 characters long.
#[verifier::external_body]
fn fresh_server_id() -> (r: String)
    ensures
        r@.len() == 36,
{
    uuid::Uuid::new_v4().to_string()
}

/// Relies on chrono's `From<SystemTime> for DateTime<Utc>` and
/// DateTime::timestamp: the system clock in whole seconds since the Unix
/// epoch, negative for a clock set before it. Nothing is promised of the value.
#[verifier::external_body]
fn now_timestamp() -> i64 {
    chrono::DateTime::<chrono::Utc>::from(std::time::SystemTime::now()).timestamp()
}

impl View for JwtManager {
    type V = Seq<char>;

    closed spec fn view(&self) -> Seq<char> {
        self.server_id@
    }
}

impl JwtManager {
    /// A manager under a fresh random epoch.
    pub fn new() -> (r: JwtManager)
        ensures
            r@.len() == 36,
    {
        JwtManager { server_id: fresh_server_id() }
    }

    /// The current epoch.
    pub fn get_server_id(&self) -> (r: &str)
        ensures
            r@ == self@,
    {
        self.server_id.as_str()
    }

    /// Chooses a fresh random epoch, different from the current one, so that
    /// every token issued before no longer matches it (see
    /// `lemma_epoch_invalidation`).
    pub fn regenerate_server_id(&mut self)
        ensures
            final(self)@ != old(self)@,
            final(self)@.len() == 36,
    {
        let fresh = fresh_server_id();
        if fresh != self.server_id {
            self.server_id = fresh;
        } else {
            // A repeated random draw: fall back to one of two fixed ids, so the
            // epoch still changes.
            let first = "00000000-0000-4000-8000-000000000000".to_owned();
            proof {
                reveal_strlit("00000000-0000-4000-8000-000000000000");
                reveal_strlit("00000000-0000-4000-8000-000000000001");
            }
            if first != self.server_id {
                self.server_id = first;
            } else {
                let second = "00000000-0000-4000-8000-000000000001".to_owned();
                assert(second@[35] != first@[35]);
                self.server_id = second;
            }
        }
    }

    /// The claims issued to `email` at time `now`: they expire
    /// `TOKEN_LIFETIME_SECS` later and carry the current epoch.
    pub fn claims_at(&self, email: &str, now: i64) -> (r: Claims)
        requires
            now <= i64::MAX - TOKEN_LIFETIME_SECS,
        ensures
            claims_issued(self@, email@, now as int, r),
    {
        Claims { sub: email.to_owned(), exp: now + TOKEN_LIFETIME_SECS, server_id: self.server_id.clone() }
    }

    /// The claims issued to `email` at time `now`, or `Internal` where the
    /// expiration would not fit in an `i64`.
    pub fn claims_checked(&self, email: &str, now: i64) -> (r: Result<Claims, AppError>)
        ensures
            r is Err <==> now > i64::MAX - TOKEN_LIFETIME_SECS,
            r matches Ok(c) ==> claims_issued(self@, email@, now as int, c),
            r matches Err(e) ==> e is Internal,
    {
        if now > i64::MAX - TOKEN_LIFETIME_SECS {
            Err(AppError::Internal("timestamp out of range".to_owned()))
        } else {
            Ok(self.claims_at(email, now))
        }
    }

    /// The claims issued to `email` now, by the system clock; see
    /// `claims_checked`.
    pub fn create_claims(&self, email: &str) -> (r: Result<Claims, AppError>)
        ensures
            match r {
                Ok(c) => c.sub@ == email@ && c.server_id@ == self@,
                Err(e) => e is Internal,
            },
    {
        let now = now_timestamp();
        self.claims_checked(email, now)
    }

    /// Accepts decoded, signature-checked and unexpired claims when they
    /// carry the current epoch; otherwise fails with `Auth`.
    pub fn verify_claims(&self, claims: Claims) -> (r: Result<Claims, AppError>)
        ensures
            claims_accepted(self@, claims) ==> (r matches Ok(c) && c == claims),
            !claims_accepted(self@, claims) ==> (r matches Err(e) && e is Auth),
    {
        if claims.server_id == self.server_id {
            Ok(claims)
        } else {
            Err(AppError::Auth("Token is invalid: server ID mismatch".to_owned()))
        }
    }
}

/// The token of an Authorization header of the form "Bearer <token>"; `None`
/// for any header without that prefix.
pub fn bearer_token(header: &str) -> (r: Option<&str>)
    ensures
        header.spec_bytes().len() < 7 || header.spec_bytes().subrange(0, 7) != bearer_prefix()
            ==> r is None,
        header.spec_bytes().len() >= 7 && header.spec_bytes().subrange(0, 7) == bearer_prefix()
            ==> (r matches Some(t) && t.spec_bytes() == header.spec_bytes().subrange(
            7,
            header.spec_bytes().len() as int,
        )),
{
    let bytes = header.as_bytes();
    if bytes.len() < 7 {
        return None;
    }
    let prefix: [u8; 7] = [66u8, 101u8, 97u8, 114u8, 101u8, 114u8, 32u8];
    let mut i: usize = 0;
    while i < 7
        invariant
            i <= 7,
            bytes@.len() >= 7,
            bytes@ == header.spec_bytes(),
            prefix@ == bearer_prefix(),
            forall|j: int| 0 <= j < i ==> bytes@[j] == bearer_prefix()[j],
        decreases 7 - i,
    {
        if bytes[i] != prefix[i] {
            assert(header.spec_bytes().subrange(0, 7)[i as int] != bearer_prefix()[i as int]);
            return None;
        }
        i = i + 1;
    }
    assert(header.spec_bytes().subrange(0, 7) =~= bearer_prefix());
    proof {
        let b = header.spec_bytes();
        encode_utf8_valid_utf8(header@);
        if b.len() == 7 {
            is_char_boundary_start_end_of_seq(b);
        } else {
            // The byte after the ASCII space starts a character.
            is_char_boundary_iff_not_is_continuation_byte(b, 6);
            valid_utf8_split(b, 6);
            let tail = b.subrange(6, b.len() as int);
            assert(tail[0] == 32u8);
            reveal_with_fuel(vstd::utf8::valid_utf8, 2);
            assert(vstd::utf8::pop_first_scalar(tail) =~= b.subrange(7, b.len() as int));
            assert(tail.subrange(1, tail.len() as int)[0] == b[7]);
            is_char_boundary_iff_not_is_continuation_byte(b, 7);
        }
    }
    let (_, rest) = header.split_at(7);
    Some(rest)
}

/// The claims to sign for a login: issued to `email` when its password
/// checks out. A wrong password and an unknown email both fail with `Auth`,
/// alike; an unreadable stored hash fails with `Bcrypt`.
pub fn login_claims(users: &UserManager, jwt: &JwtManager, email: &str, password: &str) -> (r:
    Result<Claims, AppError>)
    ensures
        r matches Ok(c) ==> password_accepted(users@, email@, password@) && c.sub@ == email@
            && c.server_id@ == jwt@,
        !password_accepted(users@, email@, password@) && (!email_known(users@, email@)
            || hash_readable(users@, email@)) ==> (r matches Err(e) && e is Auth),
        password_accepted(users@, email@, password@) ==> (r is Ok || (r matches Err(e)
            && e is Internal)),
{
    if users.verify_user(email, password)? {
        jwt.create_claims(email)
    } else {
        Err(AppError::Auth("Invalid credentials".to_owned()))
    }
}

/// Changes the password of `email` and, once that succeeded, regenerates
/// the epoch so every token issued before is rejected. On failure neither
/// the users nor the epoch change.
pub fn change_password_and_invalidate(
    users: &mut UserManager,
    jwt: &mut JwtManager,
    email: &str,
    old_password: &str,
    new_password: &str,
) -> (r: Result<(), AppError>)
    ensures
        r is Ok ==> password_accepted(old(users)@, email@, old_password@)
            && password_accepted(final(users)@, email@, new_password@)
            && final(jwt)@ != old(jwt)@,
        r is Err ==> final(users)@ == old(users)@ && final(jwt)@ == old(jwt)@,
        hash_readable(old(users)@, email@) && !password_accepted(old(users)@, email@, old_password@)
            ==> (r matches Err(e) && e is Auth),
        !email_known(old(users)@, email@) ==> (r matches Err(e) && e is NotFound),
        final(users).path() == old(users).path(),
{
    users.change_password(email, old_password, new_password)?;
    jwt.regenerate_server_id();
    Ok(())
}

/// A token issued under one epoch is rejected once the epoch has been
/// regenerated to a different value, and a token issued under the new epoch is
/// accepted.
pub proof fn lemma_epoch_invalidation(
    old_epoch: Seq<char>,
    new_epoch: Seq<char>,
    email: Seq<char>,
    issued_before: int,
    before: Claims,
    issued_after: int,
    after: Claims,
)
    requires
        old_epoch != new_epoch,
        claims_issued(old_epoch, email, issued_before, before),
        claims_issued(new_epoch, email, issued_after, after),
    ensures
        !claims_accepted(new_epoch, before),
        claims_accepted(new_epoch, after),
{
}

} // verus!

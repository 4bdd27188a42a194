//! The guard in front of the requests that change meals: login hands out a
//! token, and a request is let through when it carries a token that was
//! handed out.

use crate::backend::backend_types::{
    Claims, ErrorResp, ErrorRespView, Login, LoginResp, LoginRespView, LoginView,
};
use crate::backend::jwt_db::JwtDb;
use crate::backend::reply::{Payload, PayloadView, Reply, ReplyView, Status};
use crate::backend::tokens::{sign_claims, signed_token, token_accepted, token_decodes};
use crate::shared::opt_text;
use crate::text::{remove_char, same_text, strip_prefix, without, without_prefix};
use vstd::prelude::*;
use vstd::string::StringExecFns;

verus! {

/// How long a token claims to live, in seconds: about 115 days.
pub const TOKEN_LIFETIME_SECS: u64 = 10_000_000;

/// How long a refused login is held back, in milliseconds.
pub const REFUSAL_HOLD_MILLIS: u64 = 1_000;

/// The secrets that the server is built with, as they stand in their files:
/// each may end in a line break.
pub struct Secrets {
    pub password: String,
    pub jwt_secret: String,
}

/// The token in an `Authorization` header: the header without its leading
/// `bearer: `, or the whole header where it does not start so.
pub open spec fn bearer_token(auth: Seq<char>) -> Seq<char> {
    without_prefix(auth, "bearer: "@)
}

/// The `Authorization` header that presents `token`.
pub open spec fn bearer_header(token: Seq<char>) -> Seq<char> {
    "bearer: "@ + token
}

/// A header lets a request through when its token decodes under the secret
/// and is one of the issued tokens.
pub open spec fn authorizes(auth: Seq<char>, issued: Set<Seq<char>>, secret: Seq<char>) -> bool {
    token_accepted(bearer_token(auth), secret) && issued.contains(bearer_token(auth))
}

/// The one account: its name is fixed, its password is the built-in one
/// without line breaks.
pub open spec fn credentials_match(login: LoginView, password: Seq<char>) -> bool {
    login.user == "matthew"@ && login.pw == without(password, '\n')
}

/// The expiry written into a token minted at `now`: `now` plus the lifetime,
/// cut to 32 bits.
pub open spec fn token_expiry(now: u64) -> u32 {
    ((now + TOKEN_LIFETIME_SECS) % 0x1_0000_0000) as u32
}

/// The cookie that carries a token.
pub open spec fn session_cookie(jwt: Seq<char>) -> Seq<char> {
    "rtoken=\""@ + jwt + "\""@
}

/// The answer to a login that was let in with `jwt`.
pub open spec fn welcome(jwt: Seq<char>) -> ReplyView {
    ReplyView {
        status: Status::Okay,
        body: PayloadView::Login(LoginRespView { jwt }),
        cookie: Some(session_cookie(jwt)),
        hold_millis: 0,
    }
}

/// The answer to a login with wrong credentials: held back, then refused.
pub open spec fn refusal() -> ReplyView {
    ReplyView {
        status: Status::Unauthorized,
        body: PayloadView::Null,
        cookie: None,
        hold_millis: REFUSAL_HOLD_MILLIS,
    }
}

/// The answer to a login for which there is no signed token.
pub open spec fn signing_failure() -> ReplyView {
    ReplyView::plain(
        Status::InternalServerError,
        PayloadView::Error(ErrorRespView { error: "could not sign a token"@ }),
    )
}

/// The reply and the issued tokens after a login with matching credentials,
/// given what signing returned.
pub open spec fn login_result(issued: Set<Seq<char>>, signed: Option<Seq<char>>) -> (
    ReplyView,
    Set<Seq<char>>,
) {
    match signed {
        Some(jwt) => (welcome(jwt), issued.insert(jwt)),
        None => (signing_failure(), issued),
    }
}

/// A token presented in the header that the frontend sends is read back whole.
pub proof fn bearer_header_carries_token(token: Seq<char>)
    ensures
        bearer_token(bearer_header(token)) == token,
{
    let prefix = "bearer: "@;
    let header = bearer_header(token);
    assert(header.subrange(0, prefix.len() as int) == prefix);
    assert(prefix.is_prefix_of(header));
    assert(header.skip(prefix.len() as int) == token);
}

/// A token that decodes and was issued lets requests through for as long as
/// the process lives: no later state of the issued tokens, which only grow,
/// takes the permission back.
pub proof fn issued_token_stays_authorized(
    token: Seq<char>,
    secret: Seq<char>,
    issued: Set<Seq<char>>,
    later: Set<Seq<char>>,
)
    requires
        token_accepted(token, secret),
        issued.contains(token),
        issued.subset_of(later),
    ensures
        authorizes(bearer_header(token), later, secret),
{
    bearer_header_carries_token(token);
}

/// A token that is not among the issued ones is turned away, however well it
/// is made and signed.
pub proof fn unissued_token_is_rejected(
    auth: Seq<char>,
    secret: Seq<char>,
    issued: Set<Seq<char>>,
)
    requires
        !issued.contains(bearer_token(auth)),
    ensures
        !authorizes(auth, issued, secret),
{
}

/// Decides on a token once it is known whether it decodes.
pub fn authorize(decodes: bool, token: &str, jwtdb: &JwtDb) -> (ok: bool)
    ensures
        ok == (decodes && jwtdb@.contains(token@)),
{
    decodes && jwtdb.contains_key(token)
}

/// Whether a request with this `Authorization` header may change meals.
pub fn is_authed(auth: &str, jwtdb: &JwtDb, secret: &str) -> (ok: bool)
    ensures
        ok == authorizes(auth@, jwtdb@, secret@),
{
    let token = strip_prefix(auth, "bearer: ");
    let decodes = token_decodes(token.as_str(), secret);
    authorize(decodes, token.as_str(), jwtdb)
}

/// Whether a login names the one account and its password.
pub fn check_credentials(login: &Login, password: &str) -> (ok: bool)
    ensures
        ok == credentials_match(login@, password@),
{
    let expected = remove_char(password, '\n');
    same_text(login.user.as_str(), "matthew") && same_text(login.pw.as_str(), expected.as_str())
}

/// Until the year 2105 the expiry is the lifetime after `now`, as it is
/// meant; only a later sum, which the 32 bits of the claim cannot hold, is cut.
pub proof fn expiry_is_the_lifetime_after_now(now: u64)
    requires
        now + TOKEN_LIFETIME_SECS <= u32::MAX,
    ensures
        token_expiry(now) == now + TOKEN_LIFETIME_SECS,
{
}

/// The expiry to write into a token minted at `now`.
pub fn expiry_at(now: u64) -> (exp: u32)
    ensures
        exp == token_expiry(now),
        now + TOKEN_LIFETIME_SECS <= u32::MAX ==> exp == now + TOKEN_LIFETIME_SECS,
{
    let low: u64 = now % 0x1_0000_0000;
    let sum: u64 = (low + TOKEN_LIFETIME_SECS) % 0x1_0000_0000;
    proof {
        vstd::arithmetic::div_mod::lemma_add_mod_noop(
            now as int,
            TOKEN_LIFETIME_SECS as int,
            0x1_0000_0000,
        );
        vstd::arithmetic::div_mod::lemma_small_mod(TOKEN_LIFETIME_SECS as nat, 0x1_0000_0000);
    }
    sum as u32
}

/// The reply to a login with wrong credentials.
pub fn refuse_login() -> (reply: Reply)
    ensures
        reply@ == refusal(),
{
    Reply {
        status: Status::Unauthorized,
        body: Payload::Null,
        cookie: None,
        hold_millis: REFUSAL_HOLD_MILLIS,
    }
}

/// Completes a login whose credentials matched: records the signed token and
/// answers with it, in the body and as a cookie. Without a token the answer
/// is a server error and nothing is recorded.
pub fn finish_login(jwtdb: &mut JwtDb, signed: Option<String>) -> (reply: Reply)
    ensures
        (reply@, final(jwtdb)@) == login_result(old(jwtdb)@, opt_text(signed)),
{
    match signed {
        Some(jwt) => {
            jwtdb.insert(jwt.clone());
            let mut cookie = String::from_str("rtoken=\"");
            cookie.append(jwt.as_str());
            cookie.append("\"");
            Reply {
                status: Status::Okay,
                body: Payload::Login(LoginResp { jwt }),
                cookie: Some(cookie),
                hold_millis: 0,
            }
        },
        None => Reply::plain(
            Status::InternalServerError,
            Payload::Error(ErrorResp { error: String::from_str("could not sign a token") }),
        ),
    }
}

/// Handles a login. With the right credentials a token is signed for the
/// user, to expire about 115 days after `now`, recorded as issued and handed
/// out, in the body and as a cookie; from then on it lets requests through.
/// With wrong ones the reply is a refusal, to be held back for a second.
pub fn login(jwtdb: &mut JwtDb, attempt: Login, secrets: &Secrets, now: u64) -> (reply: Reply)
    ensures
        credentials_match(attempt@, secrets.password@) ==> {
            let jwt = signed_token(token_expiry(now), attempt.user@, secrets.jwt_secret@);
            &&& reply@ == welcome(jwt)
            &&& final(jwtdb)@ == old(jwtdb)@.insert(jwt)
            &&& jwt.len() > 0
            &&& authorizes(bearer_header(jwt), final(jwtdb)@, secrets.jwt_secret@)
        },
        !credentials_match(attempt@, secrets.password@) ==> reply@ == refusal() && final(jwtdb)@
            == old(jwtdb)@,
{
    if check_credentials(&attempt, secrets.password.as_str()) {
        let claims = Claims { exp: expiry_at(now), sub: attempt.user };
        let signed = sign_claims(&claims, secrets.jwt_secret.as_str());
        let ghost jwt = signed->Some_0@;
        let reply = finish_login(jwtdb, signed);
        proof {
            issued_token_stays_authorized(jwt, secrets.jwt_secret@, jwtdb@, jwtdb@);
        }
        reply
    } else {
        refuse_login()
    }
}

} // verus!

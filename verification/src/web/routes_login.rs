//! The login handshake: a fixed pair of credentials, and the token that is
//! minted for it.

use vstd::prelude::*;
use vstd::string::*;
use crate::error::Error;
use crate::text::same_text;
use crate::token::{format_token, is_segment, text_of_token, token_of_text, Token, TokenView};

verus! {

/// The id of the one user that can log in.
pub const DEMO_USER_ID: u64 = 1;

/// True for the one accepted pair of user name and password.
pub open spec fn is_demo_login(user_name: Seq<char>, password: Seq<char>) -> bool {
    user_name == "demo1"@ && password == "welcome"@
}

/// The token that a successful login mints.
pub open spec fn demo_token() -> TokenView {
    TokenView { subject_id: DEMO_USER_ID, expiry: "exp"@, signature: "sign"@ }
}

/// The login handshake. On the accepted pair of credentials it mints the
/// session token and returns its text, which is the value to set the session
/// cookie to; on any other pair it fails with `LoginFail`.
pub fn api_login(user_name: &str, password: &str) -> (r: Result<String, Error>)
    ensures
        r is Ok <==> is_demo_login(user_name@, password@),
        r is Ok ==> r->Ok_0@ == text_of_token(demo_token()),
        r is Err ==> r->Err_0 == Error::LoginFail,
{
    if !same_text(user_name, "demo1") || !same_text(password, "welcome") {
        return Err(Error::LoginFail);
    }
    proof {
        lemma_demo_token_is_well_formed();
    }
    match Token::new(DEMO_USER_ID, "exp".to_owned(), "sign".to_owned()) {
        Ok(token) => Ok(format_token(&token)),
        Err(_) => Err(Error::LoginFail),
    }
}

/// Expiry and signature of the minted token are segments.
pub proof fn lemma_demo_token_is_well_formed()
    ensures
        is_segment(demo_token().expiry),
        is_segment(demo_token().signature),
{
    reveal_strlit("exp");
    reveal_strlit("sign");
}

/// The cookie that a successful login sets is read back, on a later
/// request, as the token that was minted: the request is authenticated as
/// the user who logged in.
pub proof fn lemma_login_cookie_authenticates()
    ensures
        token_of_text(text_of_token(demo_token())) == Some(demo_token()),
        crate::web::middleware_auth::resolution_of(Some(text_of_token(demo_token()))) == Ok::<
            crate::ctx::Ctx,
            Error,
        >(crate::ctx::Ctx::of(DEMO_USER_ID)),
{
    lemma_demo_token_is_well_formed();
    crate::token::lemma_token_round_trip(demo_token());
}

} // verus!

//! Logging in.
use vstd::prelude::*;
use vstd::string::*;
use crate::digest::{password_hash, password_hash_of};
use crate::error::Error;
use crate::models::LoginResponse;
use crate::transport::{pairs, posted, Pair, Reply, Request};
use crate::user::User;

verus! {

/// A session with the portal: the user who logged in.
pub struct Client {
    pub user: User,
}

/// The login request: the user's name as it is, and the password hashed. It
/// carries no token.
pub fn login(username: &str, password: &str) -> (r: Request)
    ensures
        r@ == posted(
            "/login/loginNew"@,
            None,
            seq![
                ("username"@, username@),
                ("userpwd"@, password_hash_of(password.spec_bytes())),
            ],
        ),
{
    let hash = password_hash(password);
    let mut form: Vec<Pair> = Vec::new();
    form.push(Pair::new("username", username));
    form.push(Pair::new("userpwd", hash.as_str()));
    assert(pairs(form@) =~= seq![
        ("username"@, username@),
        ("userpwd"@, password_hash_of(password.spec_bytes())),
    ]);
    Request::post("/login/loginNew", None, form)
}

impl Client {
    /// A session, from the reply to the login request. A reply that arrived
    /// whole but reports no success is a failed login.
    pub fn new(reply: Reply<LoginResponse>) -> (r: Result<Client, Error>)
        ensures
            match reply.outcome() {
                Err(message) => r matches Err(e) && e@ == message,
                Ok(resp) => if resp.success {
                    r matches Ok(client) && client.user == User::of_login(resp)
                } else {
                    r matches Err(e) && e@ == "login failed"@
                },
            },
    {
        let resp = match reply.into_result() {
            Ok(resp) => resp,
            Err(e) => {
                return Err(e);
            },
        };
        if !resp.success {
            return Err(Error::new(String::from_str("login failed")));
        }
        Ok(Client { user: User::from_login(&resp) })
    }
}

} // verus!

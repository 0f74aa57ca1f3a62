//! Logging in: the credentials of the application and of the user, the
//! request that trades them for a token, and what the platform answers.

use vstd::prelude::*;

use crate::text::{append, chars_of, string_of};
use crate::utils::bearer;
use crate::wrappers::{base64_encode, base64_text};

verus! {

/// Where a login is sent.
pub const ACCESS_TOKEN_URL: &'static str = "https://www.reddit.com/api/v1/access_token";

/// To generate the Reddit Client ID and secret, go to reddit [preferences](https://www.reddit.com/prefs/apps)
#[derive(Debug, Clone, Copy)]
pub struct Client<'a> {
    /// Client ID for the application
    pub client_id: &'a str,
    /// Client Secret for the application
    pub client_secret: &'a str,
    /// Login username
    pub username: &'a str,
    /// Login password
    pub password: &'a str,
}

/// What the platform answers to a login.
#[derive(Debug, Clone)]
pub struct Auth {
    /// The generated bearer access token for the application
    pub access_token: String,
    /// Type of access token: "bearer"
    pub token_type: String,
    /// Expiry duration. Defaults to 3600/1 hour
    pub expires_in: i32,
    /// Scope of the access token. This app requires * scope
    pub scope: String,
}

/// A request that carries a form: the address it is posted to, the
/// authorization header where it has one of its own, and the fields of the
/// form, each a name and a value.
#[derive(Debug, Clone)]
pub struct FormRequest {
    pub url: String,
    pub authorization: Option<String>,
    pub form: Vec<(String, String)>,
}

/// The ID and the secret of the application as they are encoded for a login.
pub open spec fn credentials(client_id: Seq<char>, client_secret: Seq<char>) -> Seq<char> {
    client_id + ":"@ + client_secret
}

/// The authorization header of a login, `encoded` being the credentials in
/// base64.
pub open spec fn basic(encoded: Seq<char>) -> Seq<char> {
    "Basic "@ + encoded
}

/// The fields of the form of a login.
pub open spec fn login_form(username: Seq<char>, password: Seq<char>) -> Seq<
    (Seq<char>, Seq<char>),
> {
    seq![
        ("username"@, username),
        ("password"@, password),
        ("grant_type"@, "password"@),
    ]
}

/// The authorization header of a login, `encoded` being the credentials in
/// base64.
pub fn basic_authorization(encoded: &str) -> (r: String)
    ensures
        r@ == basic(encoded@),
{
    let mut r = chars_of("Basic ");
    append(&mut r, &chars_of(encoded));
    string_of(&r)
}

/// A field of a form.
pub fn field(name: &str, value: &str) -> (r: (String, String))
    ensures
        r.deep_view() == (name@, value@),
{
    (string_of(&chars_of(name)), string_of(&chars_of(value)))
}

impl<'a> Client<'a> {
    pub fn new(id: &'a str, secret: &'a str, username: &'a str, password: &'a str) -> (r: Self)
        ensures
            r.client_id == id,
            r.client_secret == secret,
            r.username == username,
            r.password == password,
    {
        Self { client_id: id, client_secret: secret, username, password }
    }

    /// The request that logs in: the credentials of the application go into
    /// its authorization header, in base64; the name and the password of the
    /// user go into its form, which asks for a grant by password.
    pub fn login(&self) -> (r: FormRequest)
        ensures
            r.url@ == ACCESS_TOKEN_URL@,
            r.authorization.deep_view() == Some(
                basic(base64_text(credentials(self.client_id@, self.client_secret@))),
            ),
            r.form.deep_view() == login_form(self.username@, self.password@),
    {
        let mut plain = chars_of(self.client_id);
        append(&mut plain, &chars_of(":"));
        append(&mut plain, &chars_of(self.client_secret));
        // base64 encoded <clientID>:<clientSecret> is sent as a basic token
        let basic_token = base64_encode(string_of(&plain).as_str());
        let mut form: Vec<(String, String)> = Vec::new();
        form.push(field("username", self.username));
        form.push(field("password", self.password));
        form.push(field("grant_type", "password"));
        proof {
            assert(form.deep_view() =~= login_form(self.username@, self.password@));
        }
        FormRequest {
            url: string_of(&chars_of(ACCESS_TOKEN_URL)),
            authorization: Some(basic_authorization(basic_token.as_str())),
            form,
        }
    }
}

} // verus!

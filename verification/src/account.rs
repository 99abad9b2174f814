use vstd::prelude::*;

verus! {

/// The mathematical model of one stored account: what the credential store
/// remembers about a user. Field for field the image of [`Account`].
pub ghost struct AccountView {
    /// Opaque 128-bit identifier, unique across all accounts, never reused.
    pub id: u128,
    /// Unique, case-sensitive, immutable after creation.
    pub username: Seq<char>,
    /// Unique, immutable in this scope.
    pub email: Seq<char>,
    /// Opaque digest produced only by the password hasher.
    pub password_hash: Seq<char>,
    /// Random token delivered out of band; proves control of the email.
    pub verification_token: Seq<char>,
    /// False at creation; transitions to true exactly once.
    pub verified: bool,
}

/// One persisted account record, as the credential store holds it.
pub struct Account {
    pub id: u128,
    pub username: String,
    pub email: String,
    pub password_hash: String,
    pub verification_token: String,
    pub verified: bool,
}

impl View for Account {
    type V = AccountView;

    open spec fn view(&self) -> AccountView {
        AccountView {
            id: self.id,
            username: self.username@,
            email: self.email@,
            password_hash: self.password_hash@,
            verification_token: self.verification_token@,
            verified: self.verified,
        }
    }
}

/// The public face of an account: everything but the secrets.
pub struct User {
    pub id: u128,
    pub username: String,
    pub email: String,
    pub verified: bool,
}

impl User {
    /// The nil user: zero identifier, empty names, unverified.
    pub fn default() -> (r: User)
        ensures
            r.id == 0,
            r.username@ == Seq::<char>::empty(),
            r.email@ == Seq::<char>::empty(),
            !r.verified,
    {
        User { id: 0, username: String::new(), email: String::new(), verified: false }
    }
}

/// A signup request: the three values a caller supplies to create an account.
pub struct NewUser {
    pub username: String,
    pub password: String,
    pub email: String,
}

/// A login request.
pub struct UserLogin {
    pub username: String,
    pub password: String,
}

/// Process-wide configuration, loaded once at startup and injected into the
/// components that need it; the signing secret is never a hidden global.
pub struct Config {
    pub database_url: String,
    pub hmac_key: String,
    pub mail_sender: String,
    pub mail_from: String,
    pub mail_host: String,
    pub mail_port: u16,
    pub mail_username: String,
    pub mail_password: String,
}

} // verus!

//! The identity of the client: what the transport is built from.
//!
//! The credential material of a cluster and a user decides three things that
//! are independent of each other: which root certificate is trusted, whether
//! the client presents a certificate of its own, and which one
//! `Authorization` header is sent, if any. Nothing is parsed or bundled
//! here; the plan says what to build the transport from.

use crate::encoding::{base64_text, encode_base64};
use crate::resources::metadata::opt_string_view;
use vstd::prelude::*;
use vstd::utf8::encode_utf8;

verus! {

/// The one `Authorization` header of a client.
#[derive(Clone, Debug)]
pub enum Authorization {
    /// Basic credentials: a user name and, optionally, a password.
    Basic { username: String, password: Option<String> },
    /// A bearer token.
    Bearer { token: String },
}

/// The mathematical content of an [`Authorization`].
pub enum AuthorizationView {
    Basic { username: Seq<char>, password: Option<Seq<char>> },
    Bearer { token: Seq<char> },
}

impl View for Authorization {
    type V = AuthorizationView;

    open spec fn view(&self) -> AuthorizationView {
        match self {
            Authorization::Basic { username, password } => AuthorizationView::Basic {
                username: username@,
                password: opt_string_view(*password),
            },
            Authorization::Bearer { token } => AuthorizationView::Bearer { token: token@ },
        }
    }
}

impl AuthorizationView {
    /// The text that Basic credentials are encoded from: the user name, a
    /// colon, and the password where there is one.
    pub open spec fn credentials(username: Seq<char>, password: Option<Seq<char>>) -> Seq<char> {
        match password {
            Some(password) => username + ":"@ + password,
            None => username + ":"@,
        }
    }

    /// The value of the header: `Basic ` and the Base64 text of the
    /// credentials, or `Bearer ` and the token.
    pub open spec fn header_value(self) -> Seq<char> {
        match self {
            AuthorizationView::Basic { username, password } => "Basic "@ + base64_text(
                encode_utf8(AuthorizationView::credentials(username, password)),
            ),
            AuthorizationView::Bearer { token } => "Bearer "@ + token,
        }
    }
}

impl Authorization {
    /// The value of the `Authorization` header.
    pub fn header_value(&self) -> (value: String)
        ensures
            value@ == self@.header_value(),
    {
        match self {
            Authorization::Basic { username, password } => {
                let mut credentials = String::from_str(username.as_str());
                credentials.append(":");
                match password {
                    Some(password) => credentials.append(password.as_str()),
                    None => {},
                }
                let mut value = String::from_str("Basic ");
                value.append(encode_base64(credentials.as_str().as_bytes()).as_str());
                value
            },
            Authorization::Bearer { token } => {
                let mut value = String::from_str("Bearer ");
                value.append(token.as_str());
                value
            },
        }
    }
}

/// The credential material that a transport is built from. Each part is
/// optional.
#[derive(Clone, Debug)]
pub struct IdentityBuilder {
    ca_cert: Option<Vec<u8>>,
    client_cert: Option<Vec<u8>>,
    client_key: Option<Vec<u8>>,
    token: Option<String>,
    username: Option<String>,
    password: Option<String>,
    skip_hostname_verification: bool,
}

/// The mathematical content of an [`IdentityBuilder`].
pub struct IdentityView {
    pub ca_cert: Option<Seq<u8>>,
    pub client_cert: Option<Seq<u8>>,
    pub client_key: Option<Seq<u8>>,
    pub token: Option<Seq<char>>,
    pub username: Option<Seq<char>>,
    pub password: Option<Seq<char>>,
    pub skip_hostname_verification: bool,
}

/// The view of optional bytes.
pub open spec fn opt_bytes_view(bytes: Option<Vec<u8>>) -> Option<Seq<u8>> {
    match bytes {
        Some(b) => Some(b@),
        None => None,
    }
}

impl View for IdentityBuilder {
    type V = IdentityView;

    closed spec fn view(&self) -> IdentityView {
        IdentityView {
            ca_cert: opt_bytes_view(self.ca_cert),
            client_cert: opt_bytes_view(self.client_cert),
            client_key: opt_bytes_view(self.client_key),
            token: opt_string_view(self.token),
            username: opt_string_view(self.username),
            password: opt_string_view(self.password),
            skip_hostname_verification: self.skip_hostname_verification,
        }
    }
}

/// What a transport is built from.
#[derive(Clone, Debug)]
pub struct TransportPlan {
    /// The root certificate to trust; the platform's defaults where `None`.
    pub root_ca: Option<Vec<u8>>,
    /// The certificate and the key that the client presents for mutual TLS.
    pub client_identity: Option<(Vec<u8>, Vec<u8>)>,
    /// The one `Authorization` header that every request carries, if any.
    pub authorization: Option<Authorization>,
    /// Whether host names are left unverified. Never so unless asked for.
    pub skip_hostname_verification: bool,
}

/// The mathematical content of a [`TransportPlan`].
pub struct TransportPlanView {
    pub root_ca: Option<Seq<u8>>,
    pub client_identity: Option<(Seq<u8>, Seq<u8>)>,
    pub authorization: Option<AuthorizationView>,
    pub skip_hostname_verification: bool,
}

impl View for TransportPlan {
    type V = TransportPlanView;

    open spec fn view(&self) -> TransportPlanView {
        TransportPlanView {
            root_ca: opt_bytes_view(self.root_ca),
            client_identity: match self.client_identity {
                Some((cert, key)) => Some((cert@, key@)),
                None => None,
            },
            authorization: match self.authorization {
                Some(a) => Some(a@),
                None => None,
            },
            skip_hostname_verification: self.skip_hostname_verification,
        }
    }
}

impl IdentityView {
    /// The identity with nothing set.
    pub open spec fn empty() -> IdentityView {
        IdentityView {
            ca_cert: None,
            client_cert: None,
            client_key: None,
            token: None,
            username: None,
            password: None,
            skip_hostname_verification: false,
        }
    }

    /// The one `Authorization` header: Basic credentials where a user name
    /// is set, whether or not a token is set as well; else the bearer token
    /// where one is set; else none. A password without a user name sends
    /// nothing.
    pub open spec fn authorization(self) -> Option<AuthorizationView> {
        match self.username {
            Some(username) => Some(
                AuthorizationView::Basic { username, password: self.password },
            ),
            None => match self.token {
                Some(token) => Some(AuthorizationView::Bearer { token }),
                None => None,
            },
        }
    }

    /// The client certificate identity: certificate and key where both are
    /// set, and none where either is missing.
    pub open spec fn client_identity(self) -> Option<(Seq<u8>, Seq<u8>)> {
        match (self.client_cert, self.client_key) {
            (Some(cert), Some(key)) => Some((cert, key)),
            _ => None,
        }
    }

    /// The plan of the transport.
    pub open spec fn plan(self) -> TransportPlanView {
        TransportPlanView {
            root_ca: self.ca_cert,
            client_identity: self.client_identity(),
            authorization: self.authorization(),
            skip_hostname_verification: self.skip_hostname_verification,
        }
    }
}

/// A copy of optional bytes.
fn copy_opt_bytes(bytes: &Option<Vec<u8>>) -> (copy: Option<Vec<u8>>)
    ensures
        opt_bytes_view(copy) == opt_bytes_view(*bytes),
{
    match bytes {
        Some(b) => Some(copy_bytes(b)),
        None => None,
    }
}

/// A copy of a byte string.
fn copy_bytes(bytes: &Vec<u8>) -> (copy: Vec<u8>)
    ensures
        copy@ == bytes@,
{
    let mut copy: Vec<u8> = Vec::new();
    let mut i: usize = 0;
    while i < bytes.len()
        invariant
            i <= bytes.len(),
            copy@ == bytes@.take(i as int),
        decreases bytes.len() - i,
    {
        copy.push(bytes[i]);
        i = i + 1;
    }
    copy
}

impl IdentityBuilder {
    /// The identity with nothing set: the platform's trusted roots, no
    /// client certificate, no `Authorization` header, host names verified.
    pub fn new() -> (identity: IdentityBuilder)
        ensures
            identity@ == IdentityView::empty(),
    {
        IdentityBuilder {
            ca_cert: None,
            client_cert: None,
            client_key: None,
            token: None,
            username: None,
            password: None,
            skip_hostname_verification: false,
        }
    }

    /// Trusts the given root certificate.
    pub fn ca_cert(self, cert: Vec<u8>) -> (identity: IdentityBuilder)
        ensures
            identity@ == (IdentityView { ca_cert: Some(cert@), ..self@ }),
    {
        let mut identity = self;
        identity.ca_cert = Some(cert);
        identity
    }

    /// Sets the certificate that the client presents.
    pub fn client_certificate(self, cert: Vec<u8>) -> (identity: IdentityBuilder)
        ensures
            identity@ == (IdentityView { client_cert: Some(cert@), ..self@ }),
    {
        let mut identity = self;
        identity.client_cert = Some(cert);
        identity
    }

    /// Sets the key of the certificate that the client presents.
    pub fn client_key(self, key: Vec<u8>) -> (identity: IdentityBuilder)
        ensures
            identity@ == (IdentityView { client_key: Some(key@), ..self@ }),
    {
        let mut identity = self;
        identity.client_key = Some(key);
        identity
    }

    /// Sets the bearer token.
    pub fn token(self, token: &str) -> (identity: IdentityBuilder)
        ensures
            identity@ == (IdentityView { token: Some(token@), ..self@ }),
    {
        let mut identity = self;
        identity.token = Some(String::from_str(token));
        identity
    }

    /// Sets the user name of the Basic credentials.
    pub fn username(self, username: &str) -> (identity: IdentityBuilder)
        ensures
            identity@ == (IdentityView { username: Some(username@), ..self@ }),
    {
        let mut identity = self;
        identity.username = Some(String::from_str(username));
        identity
    }

    /// Sets the password of the Basic credentials.
    pub fn password(self, password: &str) -> (identity: IdentityBuilder)
        ensures
            identity@ == (IdentityView { password: Some(password@), ..self@ }),
    {
        let mut identity = self;
        identity.password = Some(String::from_str(password));
        identity
    }

    /// Leaves host names unverified. This is for servers that are reached
    /// by an address that their certificate does not name; it is never in
    /// force unless this was called.
    pub fn danger_disable_hostname_verification(self) -> (identity: IdentityBuilder)
        ensures
            identity@ == (IdentityView { skip_hostname_verification: true, ..self@ }),
    {
        let mut identity = self;
        identity.skip_hostname_verification = true;
        identity
    }

    /// The plan of the transport for this identity.
    pub fn build(&self) -> (plan: TransportPlan)
        ensures
            plan@ == self@.plan(),
    {
        let client_identity = match (&self.client_cert, &self.client_key) {
            (Some(cert), Some(key)) => Some((copy_bytes(cert), copy_bytes(key))),
            _ => None,
        };
        let authorization = match &self.username {
            Some(username) => Some(
                Authorization::Basic {
                    username: username.clone(),
                    password: match &self.password {
                        Some(p) => Some(p.clone()),
                        None => None,
                    },
                },
            ),
            None => match &self.token {
                Some(token) => Some(Authorization::Bearer { token: token.clone() }),
                None => None,
            },
        };
        TransportPlan {
            root_ca: copy_opt_bytes(&self.ca_cert),
            client_identity,
            authorization,
            skip_hostname_verification: self.skip_hostname_verification,
        }
    }
}

/// At most one `Authorization` header is sent, and which one does not
/// depend on the certificates: Basic credentials where a user name is set,
/// else the bearer token where one is set. The client certificate is
/// presented exactly where certificate and key are both set, whatever the
/// header. Host names are left unverified only where that was asked for.
pub proof fn lemma_identity_parts_independent(identity: IdentityView)
    ensures
        identity.plan().authorization is Some <==> (identity.username is Some || identity.token
            is Some),
        identity.username is Some ==> identity.plan().authorization
            == Some(
            AuthorizationView::Basic {
                username: identity.username->0,
                password: identity.password,
            },
        ),
        identity.username is None && identity.token is Some ==> identity.plan().authorization
            == Some(AuthorizationView::Bearer { token: identity.token->0 }),
        identity.plan().client_identity is Some <==> (identity.client_cert is Some
            && identity.client_key is Some),
        identity.plan().root_ca == identity.ca_cert,
        identity.plan().skip_hostname_verification == identity.skip_hostname_verification,
        IdentityView::empty().plan().skip_hostname_verification == false,
{
}

} // verus!

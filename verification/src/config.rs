use vstd::prelude::*;
use vstd::string::*;
use crate::errors::AuthError;
use crate::http::{ApiError, format_error, spec_format_error};
use crate::strutil::str_eq;

verus! {

/// A credential: a bearer token, or a global key with the email address
/// it belongs to. Exactly one variant is ever held.
#[derive(Clone, Debug, PartialEq, Eq)]
pub enum GlobalCredential {
    Token { api_token: String },
    GlobalKey { email: String, api_key: String },
}

/// Ghost image of `GlobalCredential`.
pub enum CredentialV {
    Token(Seq<char>),
    GlobalKey(Seq<char>, Seq<char>),
}

impl View for GlobalCredential {
    type V = CredentialV;

    open spec fn view(&self) -> CredentialV {
        match self {
            GlobalCredential::Token { api_token } => CredentialV::Token(api_token@),
            GlobalCredential::GlobalKey { email, api_key } => CredentialV::GlobalKey(
                email@,
                api_key@,
            ),
        }
    }
}

impl GlobalCredential {
    /// A copy of this credential, with its view known to be the same.
    pub fn duplicate(&self) -> (r: GlobalCredential)
        ensures
            r@ == self@,
    {
        match self {
            GlobalCredential::Token { api_token } => GlobalCredential::Token {
                api_token: api_token.clone(),
            },
            GlobalCredential::GlobalKey { email, api_key } => GlobalCredential::GlobalKey {
                email: email.clone(),
                api_key: api_key.clone(),
            },
        }
    }
}

/// A user credential in its stored shape; kept alongside
/// `GlobalCredential` as the configuration document's historical twin.
#[derive(Clone, Debug, PartialEq, Eq)]
pub enum GlobalUser {
    TokenAuth { api_token: String },
    GlobalKeyAuth { email: String, api_key: String },
}

/// A named credential profile of the configuration document.
#[derive(Clone, Debug, PartialEq, Eq)]
pub struct Context {
    pub name: String,
    pub credential: GlobalCredential,
}

/// The configuration document: named contexts and the selector of the
/// current one.
#[derive(Clone, Debug, PartialEq, Eq)]
pub struct Config {
    pub current_context: String,
    pub contexts: Vec<Context>,
}

// --- Resolving a credential ---------------------------------------------

/// Decides which single credential to use, first match winning: an API
/// key (which demands the email that goes with it), then a token, then
/// whatever is stored; with nothing stored and no flags, there is no
/// credential to use.
pub fn resolve_credential(
    email: Option<&String>,
    key: Option<&String>,
    token: Option<&String>,
    stored: Option<&GlobalCredential>,
) -> (r: Result<GlobalCredential, AuthError>)
    ensures
        key matches Some(k) ==> (email matches Some(e) ==> (r matches Ok(c) && c@
            == CredentialV::GlobalKey(e@, k@))),
        key is Some && email is None ==> r == Result::<GlobalCredential, AuthError>::Err(
            AuthError::MissingEmailForKey,
        ),
        key is None ==> (token matches Some(t) ==> (r matches Ok(c) && c@ == CredentialV::Token(
            t@,
        ))),
        key is None && token is None ==> (stored matches Some(s) ==> (r matches Ok(c) && c@
            == s@)),
        key is None && token is None && stored is None ==> r == Result::<
            GlobalCredential,
            AuthError,
        >::Err(AuthError::NoStoredCredential),
{
    match key {
        Some(k) => {
            match email {
                Some(e) => Ok(
                    GlobalCredential::GlobalKey { email: e.clone(), api_key: k.clone() },
                ),
                None => Err(AuthError::MissingEmailForKey),
            }
        },
        None => {
            match token {
                Some(t) => Ok(GlobalCredential::Token { api_token: t.clone() }),
                None => {
                    match stored {
                        Some(s) => Ok(s.duplicate()),
                        None => Err(AuthError::NoStoredCredential),
                    }
                },
            }
        },
    }
}

// --- Validating a credential against the service ------------------------

/// Which endpoint a credential is validated against: the token-status
/// check for a token, the current-user check for an email/key pair.
#[derive(Clone, Copy, Debug, PartialEq, Eq, Structural)]
pub enum ValidationProbe {
    TokenStatus,
    UserDetails,
}

pub fn validation_probe(cred: &GlobalCredential) -> (r: ValidationProbe)
    ensures
        cred@ matches CredentialV::Token(_) ==> r == ValidationProbe::TokenStatus,
        cred@ matches CredentialV::GlobalKey(_, _) ==> r == ValidationProbe::UserDetails,
{
    match cred {
        GlobalCredential::Token { .. } => ValidationProbe::TokenStatus,
        GlobalCredential::GlobalKey { .. } => ValidationProbe::UserDetails,
    }
}

/// Judges the token-status check: only the status being exactly "active"
/// passes; any other status, and any failed call, is an invalid token,
/// never a pass.
pub fn check_token_status(outcome: Result<String, ApiError>) -> (r: Result<(), AuthError>)
    ensures
        outcome matches Ok(status) ==> (status@ == "active"@ ==> r is Ok),
        outcome matches Ok(status) ==> (status@ != "active"@ ==> (r matches Err(
            AuthError::TokenInvalid(d),
        ) && d@ == "Authentication check failed. Your token status is not active"@)),
        outcome matches Err(e) ==> (r matches Err(AuthError::TokenInvalid(d)) && d@
            == "Authentication check failed. Please make sure your API token is correct.\n"@
            + spec_format_error(e)),
{
    match outcome {
        Ok(status) => {
            if str_eq(status.as_str(), "active") {
                Ok(())
            } else {
                Err(
                    AuthError::TokenInvalid(
                        String::from_str(
                            "Authentication check failed. Your token status is not active",
                        ),
                    ),
                )
            }
        },
        Err(e) => {
            let mut d = String::from_str(
                "Authentication check failed. Please make sure your API token is correct.\n",
            );
            let detail = format_error(&e);
            d.append(detail.as_str());
            Err(AuthError::TokenInvalid(d))
        },
    }
}

/// Judges the current-user check for an email/key pair: any successful
/// response passes; a failed call is an invalid key.
pub fn check_user_details(outcome: Result<(), ApiError>) -> (r: Result<(), AuthError>)
    ensures
        outcome is Ok ==> r is Ok,
        outcome matches Err(e) ==> (r matches Err(AuthError::KeyInvalid(d)) && d@
            == "Authentication check failed. Please make sure your email and global API key pair are correct. (https://developers.cloudflare.com/workers/quickstart/#global-api-key)\n"@
            + spec_format_error(e)),
{
    match outcome {
        Ok(_) => Ok(()),
        Err(e) => {
            let mut d = String::from_str(
                "Authentication check failed. Please make sure your email and global API key pair are correct. (https://developers.cloudflare.com/workers/quickstart/#global-api-key)\n",
            );
            let detail = format_error(&e);
            d.append(detail.as_str());
            Err(AuthError::KeyInvalid(d))
        },
    }
}

// --- Persisting a credential --------------------------------------------

/// The configuration document to persist for a freshly validated
/// credential: a single context named "default", selected as current.
/// A credential that failed validation is never turned into a document —
/// its validation error is handed back instead.
pub fn save_credential(cred: &GlobalCredential, validation: Result<(), AuthError>) -> (r: Result<
    Config,
    AuthError,
>)
    ensures
        validation is Ok ==> (r matches Ok(c) && c.current_context@ == "default"@
            && c.contexts@.len() == 1 && c.contexts@[0].name@ == "default"@
            && c.contexts@[0].credential@ == cred@),
        validation matches Err(e) ==> r == Result::<Config, AuthError>::Err(e),
{
    match validation {
        Ok(_) => {
            let context = Context {
                name: String::from_str("default"),
                credential: cred.duplicate(),
            };
            let mut contexts: Vec<Context> = Vec::new();
            contexts.push(context);
            Ok(Config { current_context: String::from_str("default"), contexts })
        },
        Err(e) => Err(e),
    }
}

} // verus!

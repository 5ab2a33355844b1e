//! The OAuth handshake: a request code is obtained for the consumer key, the
//! user authorizes it on the service's web page, and the code is exchanged
//! for an access token. An anti-forgery state sent with the request must come
//! back unchanged at both steps.
use crate::errors::{DecodeError, Expected, PocketError};
use crate::fields::{
    optional_text_field, optional_text_field_spec, text_field, text_field_spec, text_view,
    FromJson,
};
use crate::json::Json;
use crate::serialization::{url_with_query_text, PocketUrl};
use crate::wire::{optional_pair, pairs_view, push_optional, push_pair, WirePairs};
use crate::Pocket;
use serde_json::Value;
use vstd::prelude::*;

verus! {

/// Where the user authorizes a request code.
pub const AUTHORIZE_PAGE: &'static str = "https://getpocket.com/auth/authorize";

/// The first step: asks for a request code.
#[derive(Debug, Clone)]
pub struct PocketOAuthRequest {
    pub consumer_key: String,
    pub redirect_uri: String,
    pub state: Option<String>,
}

impl WirePairs for PocketOAuthRequest {
    open spec fn wire(&self) -> Seq<(Seq<char>, Seq<char>)> {
        seq![("consumer_key"@, self.consumer_key@), ("redirect_uri"@, self.redirect_uri@)]
            + optional_pair("state"@, text_view(self.state))
    }

    fn pairs(&self) -> (r: Vec<(String, String)>) {
        let state = match &self.state {
            Some(s) => Some(s.clone()),
            None => None,
        };
        let mut fs: Vec<(String, String)> = Vec::new();
        assert(pairs_view(fs@) =~= seq![]);
        push_pair(&mut fs, "consumer_key", self.consumer_key.clone());
        push_pair(&mut fs, "redirect_uri", self.redirect_uri.clone());
        push_optional(&mut fs, "state", state);
        assert(pairs_view(fs@) =~= self.wire());
        fs
    }
}

/// The answer to the first step.
#[derive(Debug, Clone, PartialEq)]
pub struct PocketOAuthResponse {
    pub code: String,
    pub state: Option<String>,
}

impl FromJson for PocketOAuthResponse {
    open spec fn decodable(j: Json) -> bool {
        &&& text_field_spec(j, "code"@) is Ok
        &&& optional_text_field_spec(j, "state"@) is Ok
    }

    open spec fn decodes_to(j: Json, r: Self) -> bool {
        &&& text_field_spec(j, "code"@) == Ok::<Seq<char>, Expected>(r.code@)
        &&& optional_text_field_spec(j, "state"@) == Ok::<Option<Seq<char>>, Expected>(
            text_view(r.state),
        )
    }

    fn from_json(v: &Value) -> (r: Result<Self, DecodeError>) {
        let code = text_field(v, "code")?;
        let state = optional_text_field(v, "state")?;
        Ok(PocketOAuthResponse { code, state })
    }
}

/// The second step: exchanges an authorized code for an access token.
#[derive(Debug, Clone)]
pub struct PocketAuthorizeRequest {
    pub consumer_key: String,
    pub code: String,
}

impl WirePairs for PocketAuthorizeRequest {
    open spec fn wire(&self) -> Seq<(Seq<char>, Seq<char>)> {
        seq![("consumer_key"@, self.consumer_key@), ("code"@, self.code@)]
    }

    fn pairs(&self) -> (r: Vec<(String, String)>) {
        let mut fs: Vec<(String, String)> = Vec::new();
        assert(pairs_view(fs@) =~= seq![]);
        push_pair(&mut fs, "consumer_key", self.consumer_key.clone());
        push_pair(&mut fs, "code", self.code.clone());
        assert(pairs_view(fs@) =~= self.wire());
        fs
    }
}

/// The answer to the second step.
#[derive(Debug, Clone, PartialEq)]
pub struct PocketAuthorizeResponse {
    pub access_token: String,
    pub username: String,
    pub state: Option<String>,
}

impl FromJson for PocketAuthorizeResponse {
    open spec fn decodable(j: Json) -> bool {
        &&& text_field_spec(j, "access_token"@) is Ok
        &&& text_field_spec(j, "username"@) is Ok
        &&& optional_text_field_spec(j, "state"@) is Ok
    }

    open spec fn decodes_to(j: Json, r: Self) -> bool {
        &&& text_field_spec(j, "access_token"@) == Ok::<Seq<char>, Expected>(r.access_token@)
        &&& text_field_spec(j, "username"@) == Ok::<Seq<char>, Expected>(r.username@)
        &&& optional_text_field_spec(j, "state"@) == Ok::<Option<Seq<char>>, Expected>(
            text_view(r.state),
        )
    }

    fn from_json(v: &Value) -> (r: Result<Self, DecodeError>) {
        let access_token = text_field(v, "access_token")?;
        let username = text_field(v, "username")?;
        let state = optional_text_field(v, "state")?;
        Ok(PocketAuthorizeResponse { access_token, username, state })
    }
}

pub open spec fn str_view(o: Option<&str>) -> Option<Seq<char>> {
    match o {
        Some(s) => Some(s@),
        None => None,
    }
}

/// The application's side of the handshake: its consumer key and the URI the
/// service sends the user back to.
#[derive(Debug, Clone)]
pub struct PocketAuthentication {
    pub consumer_key: String,
    pub redirect_uri: String,
}

/// A user who authorized the application.
#[derive(Debug, Clone)]
pub struct PocketUser {
    pub consumer_key: String,
    pub access_token: String,
    pub username: String,
}

impl PocketAuthentication {
    pub fn new(consumer_key: &str, redirect_uri: &str) -> (r: PocketAuthentication)
        ensures
            r.consumer_key@ == consumer_key@,
            r.redirect_uri@ == redirect_uri@,
    {
        PocketAuthentication {
            consumer_key: String::from_str(consumer_key),
            redirect_uri: String::from_str(redirect_uri),
        }
    }

    /// What the first step sends.
    pub fn request_body(&self, state: Option<&str>) -> (r: PocketOAuthRequest)
        ensures
            r.consumer_key@ == self.consumer_key@,
            r.redirect_uri@ == self.redirect_uri@,
            text_view(r.state) == str_view(state),
    {
        PocketOAuthRequest {
            consumer_key: self.consumer_key.clone(),
            redirect_uri: self.redirect_uri.clone(),
            state: match state {
                Some(s) => Some(String::from_str(s)),
                None => None,
            },
        }
    }

    /// Checks that the service returned the state that was sent: both absent,
    /// or both present and equal.
    pub fn verify_state(request_state: Option<&str>, response_state: Option<&str>) -> (r: Result<
        (),
        PocketError,
    >)
        ensures
            r is Ok <==> str_view(request_state) == str_view(response_state),
            r is Err ==> r matches Err(PocketError::StateMismatch),
    {
        match (request_state, response_state) {
            (Some(s1), Some(s2)) => if crate::text::same_text(s1, s2) {
                Ok(())
            } else {
                Err(PocketError::StateMismatch)
            },
            (None, None) => Ok(()),
            _ => Err(PocketError::StateMismatch),
        }
    }

    /// The request code of the first step's answer, once its state is checked.
    pub fn request_code(state: Option<&str>, response: PocketOAuthResponse) -> (r: Result<
        String,
        PocketError,
    >)
        ensures
            str_view(state) == text_view(response.state) ==> (r matches Ok(c) && c@
                == response.code@),
            str_view(state) != text_view(response.state) ==> r matches Err(
                PocketError::StateMismatch,
            ),
    {
        let returned = match &response.state {
            Some(s) => Some(s.as_str()),
            None => None,
        };
        match PocketAuthentication::verify_state(state, returned) {
            Ok(()) => Ok(response.code),
            Err(e) => Err(e),
        }
    }

    /// The page where the user authorizes `code`, returning to the redirect URI.
    pub fn authorize_url(&self, code: &str) -> (r: Option<PocketUrl>)
        ensures
            match url_with_query_text(
                AUTHORIZE_PAGE@,
                seq![("request_token"@, code@), ("redirect_uri"@, self.redirect_uri@)],
            ) {
                Some(t) => r matches Some(u) && u@ == t,
                None => r is None,
            },
    {
        let mut params: Vec<(String, String)> = Vec::new();
        push_pair(&mut params, "request_token", String::from_str(code));
        push_pair(&mut params, "redirect_uri", self.redirect_uri.clone());
        assert(pairs_view(params@) =~= seq![
            ("request_token"@, code@),
            ("redirect_uri"@, self.redirect_uri@),
        ]);
        PocketUrl::with_query(AUTHORIZE_PAGE, &params)
    }

    /// What the second step sends.
    pub fn authorize_body(&self, code: &str) -> (r: PocketAuthorizeRequest)
        ensures
            r.consumer_key@ == self.consumer_key@,
            r.code@ == code@,
    {
        PocketAuthorizeRequest {
            consumer_key: self.consumer_key.clone(),
            code: String::from_str(code),
        }
    }

    /// The user of the second step's answer, once its state is checked.
    pub fn authorized_user(&self, state: Option<&str>, response: PocketAuthorizeResponse) -> (r:
        Result<PocketUser, PocketError>)
        ensures
            str_view(state) == text_view(response.state) ==> (r matches Ok(u) && u.consumer_key@
                == self.consumer_key@ && u.access_token@ == response.access_token@ && u.username@
                == response.username@),
            str_view(state) != text_view(response.state) ==> r matches Err(
                PocketError::StateMismatch,
            ),
    {
        let returned = match &response.state {
            Some(s) => Some(s.as_str()),
            None => None,
        };
        match PocketAuthentication::verify_state(state, returned) {
            Ok(()) => Ok(
                PocketUser {
                    consumer_key: self.consumer_key.clone(),
                    access_token: response.access_token,
                    username: response.username,
                },
            ),
            Err(e) => Err(e),
        }
    }
}

impl PocketUser {
    /// A handle for this user's items.
    pub fn pocket(self) -> (r: Pocket)
        ensures
            r.consumer_key@ == self.consumer_key@,
            r.access_token@ == self.access_token@,
    {
        Pocket::new(self.consumer_key.as_str(), self.access_token.as_str())
    }
}

} // verus!

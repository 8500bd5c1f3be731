use vstd::prelude::*;

verus! {

/// One successful token-endpoint reply, as the caller keeps it.
#[derive(Debug, Clone)]
pub struct TokenResponse {
    pub access_token: String,
    pub refresh_token: Option<String>,
    pub expires_in: u32,
    pub token_type: String,
    pub scope: Option<String>,
}

/// The token record at the specification level, over character sequences.
pub struct TokenRecordSpec {
    pub access_token: Seq<char>,
    pub refresh_token: Option<Seq<char>>,
    pub expires_in: u32,
    pub token_type: Seq<char>,
    pub scope: Option<Seq<char>>,
}

impl View for TokenResponse {
    type V = TokenRecordSpec;

    open spec fn view(&self) -> TokenRecordSpec {
        TokenRecordSpec {
            access_token: self.access_token@,
            refresh_token: match self.refresh_token {
                Some(s) => Some(s@),
                None => None,
            },
            expires_in: self.expires_in,
            token_type: self.token_type@,
            scope: match self.scope {
                Some(s) => Some(s@),
                None => None,
            },
        }
    }
}

impl TokenResponse {
    /// A provider commonly omits `refresh_token` when answering a refresh
    /// request; the record then keeps the token that was sent, so the caller
    /// always sees a usable refresh token.
    pub fn with_refresh_fallback(self, used: String) -> (r: TokenResponse)
        ensures
            r.access_token == self.access_token,
            r.expires_in == self.expires_in,
            r.token_type == self.token_type,
            r.scope == self.scope,
            r.refresh_token == (if self.refresh_token is Some {
                self.refresh_token
            } else {
                Some(used)
            }),
    {
        if self.refresh_token.is_some() {
            self
        } else {
            TokenResponse {
                refresh_token: Some(used),
                ..self
            }
        }
    }
}

} // verus!

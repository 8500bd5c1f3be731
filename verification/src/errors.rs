use vstd::prelude::*;

verus! {

/// Everything a session operation can fail with. Each kind is distinct so
/// the caller can present it differently; the detail carries the upstream
/// text verbatim where there is any.
#[derive(Debug)]
pub enum AuthError {
    /// No ephemeral port could be bound.
    BindError { detail: String },
    /// The system browser could not be opened.
    BrowserLaunchError { detail: String },
    /// A token request failed before any HTTP status came back.
    NetworkError { detail: String },
    /// A redirect arrived but carried no usable authorization code.
    CodeMissing,
    /// The provider rejected the flow: a redirect with an `error`
    /// parameter (no status), or a token response outside the 2xx range
    /// (with its status), with the provider's own text.
    ProviderRejected { status: Option<u16>, detail: String },
    /// The token response could not be decoded; carries the body.
    DecodeError { detail: String },
    /// No secret is stored, so no session can be restored.
    StoreNotFound,
    /// The platform credential store failed.
    StoreError { detail: String },
}

} // verus!

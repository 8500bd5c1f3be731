//! An OAuth2 "authorization code with loopback redirect" coordinator: it
//! plans the consent-page URL for an ephemeral local port, extracts the
//! one authorization code (or denial) from the browser's raw redirect
//! request, builds the token-endpoint exchanges, decodes their JSON
//! answers, and keeps the single refresh token in the platform credential
//! store. The protocol logic is specified and verified; the sockets, the
//! browser and the HTTP transport stay outside, driven through the flow's
//! state machine.

pub mod errors;
pub mod httpmsg;
pub mod json;
pub mod numeral;
pub mod percent;
pub mod request;
pub mod session;
pub mod store;
pub mod token;
pub mod url;

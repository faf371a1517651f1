//! Plain-value core of a Windows passkey plugin authenticator: the CTAP
//! authenticator options, the wide-string and Base64 encodings handed to the
//! platform, the buffers built for plugin registration and credential sync,
//! and the decisions taken on the platform's answers.

pub mod authenticator;
pub mod clsid;
pub mod credentials;
pub mod encoding;
pub mod error;
pub mod options;
pub mod wide;
pub mod plugin;
pub mod verifying_key;

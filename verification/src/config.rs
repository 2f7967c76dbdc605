//! The auto-upload settings that the decision logic reads.

use vstd::prelude::*;

verus! {

/// How the uploader authenticates against the OpenList server.
pub enum OpenListAuth {
    /// A ready-made token.
    Token { token: String },
    /// A user name and password exchanged for a token at login.
    Password { username: String, password: String },
    /// No credentials configured.
    Unconfigured,
}

/// Where the OpenList server is and how to talk to it.
pub struct OpenListOption {
    pub endpoint: String,
    pub remote_dir: String,
    pub auth: OpenListAuth,
}

/// Settings of the automatic upload after a download.
pub struct AutoUploadOption {
    pub enabled: bool,
    pub delete_local_after_upload: bool,
    pub retry_attempts: u32,
    pub retry_delay_secs: u64,
    pub openlist: OpenListOption,
}

} // verus!

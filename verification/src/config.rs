//! The configuration's built-in default, the check that it still needs
//! editing, and the migration of a stored configuration's loose fields into
//! the current shape.

use vstd::prelude::*;
use crate::types::Config;

verus! {

/// The configuration a fresh installation starts from: a local server and
/// no credentials.
pub fn get_default_config() -> (r: Config)
    ensures
        r.base_url@ == "http://localhost:4533"@,
        r.username@ == Seq::<char>::empty(),
        r.password@ == Seq::<char>::empty(),
        r.show_easter_eggs,
{
    Config {
        base_url: "http://localhost:4533".to_owned(),
        username: String::new(),
        password: String::new(),
        show_easter_eggs: true,
    }
}

/// Whether the configuration still carries the default server and empty
/// credentials, and the user should be told to edit it.
pub fn config_needs_edit(config: &Config) -> (r: bool)
    ensures
        r == (config.base_url@ == "http://localhost:4533"@ && config.username@
            == Seq::<char>::empty() && config.password@ == Seq::<char>::empty()),
{
    let default = get_default_config();
    config.base_url == default.base_url && config.username == default.username
        && config.password == default.password
}

/// Rebuilds a configuration from the loose fields an older stored format
/// may carry: absent fields fall back to the defaults (the local server,
/// empty credentials, flavor on).
pub fn migrate_config(
    base_url: Option<String>,
    username: Option<String>,
    password: Option<String>,
    show_easter_eggs: Option<bool>,
) -> (r: Config)
    ensures
        base_url matches Some(u) ==> r.base_url == u,
        base_url is None ==> r.base_url@ == "http://localhost:4533"@,
        username matches Some(u) ==> r.username == u,
        username is None ==> r.username@ == Seq::<char>::empty(),
        password matches Some(p) ==> r.password == p,
        password is None ==> r.password@ == Seq::<char>::empty(),
        show_easter_eggs matches Some(b) ==> r.show_easter_eggs == b,
        show_easter_eggs is None ==> r.show_easter_eggs,
{
    Config {
        base_url: match base_url {
            Some(u) => u,
            None => "http://localhost:4533".to_owned(),
        },
        username: match username {
            Some(u) => u,
            None => String::new(),
        },
        password: match password {
            Some(p) => p,
            None => String::new(),
        },
        show_easter_eggs: match show_easter_eggs {
            Some(b) => b,
            None => true,
        },
    }
}

} // verus!

//! A multi-session terminal frontend's verified core: character profiles and
//! their store, the profile picker and the session picker state machines, the
//! session manager, session switching commands, the tab bar's labels, and the
//! routing of typed and internal commands.
use vstd::prelude::*;

pub mod connection;
pub mod seq_util;
pub mod text;
pub mod session_keys;
pub mod sessions_config;
pub mod session;
pub mod session_manager;
pub mod login_wizard;
pub mod session_picker;
pub mod wizard_keys;
pub mod runtime;
pub mod input;
pub mod layout;
pub mod tab_bar;
pub mod search_line;
pub mod display;

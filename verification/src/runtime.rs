//! The decisions of the frontend's main loop: which connection to start with,
//! and where a command that a key produced goes.
use vstd::prelude::*;

use crate::login_wizard::ProfileView;
use crate::text::{
    decimal, has_prefix, lemma_decimal_no_colon, lemma_parse_decimal, lemma_split3_join,
    lemma_split_last_join, parse_u16, parse_unsigned, split3, split_at_last, split_last, split_three,
    starts_with, str_equal, strip_prefix,
};
use crate::wizard_keys::{connect_command_text, direct_connect_prefix, lich_connect_prefix};

verus! {

broadcast use vstd::string::group_string_axioms;

/// The prefix of the frontend's internal setup commands.
pub open spec fn setup_prefix() -> Seq<char> {
    "//setup:"@
}

/// Where a command goes.
#[derive(Debug)]
pub enum CommandRoute {
    /// Start a direct connection for this account, game and character.
    ConnectDirect { account: String, game_code: String, character: String },
    /// Start a connection through the Lich proxy at this host and port.
    ConnectLich { host: String, port: u16 },
    /// A connect command whose parts cannot be read: dropped.
    Malformed,
    /// Another setup command, for [`handle_setup_command`].
    Setup,
    /// Text for the game server.
    Game,
}

/// What follows a prefix of `cmd`.
pub open spec fn after_prefix(cmd: Seq<char>, p: Seq<char>) -> Seq<char> {
    cmd.subrange(p.len() as int, cmd.len() as int)
}

/// The account, game code and character of a direct connect command: the
/// text after the prefix cut at its first two colons.
pub open spec fn direct_target(cmd: Seq<char>) -> Option<(Seq<char>, Seq<char>, Seq<char>)> {
    split3(after_prefix(cmd, direct_connect_prefix()), ':')
}

/// The host and port of a Lich connect command: the text after the prefix
/// cut at its last colon, the port read as a `u16`.
pub open spec fn lich_target(cmd: Seq<char>) -> Option<(Seq<char>, nat)> {
    match split_last(after_prefix(cmd, lich_connect_prefix()), ':') {
        Some((h, p)) => match parse_unsigned(p, u16::MAX as nat) {
            Some(n) => Some((h, n)),
            None => None,
        },
        None => None,
    }
}

/// Both connect prefixes start with the setup prefix.
proof fn lemma_connect_is_setup(cmd: Seq<char>)
    ensures
        has_prefix(cmd, direct_connect_prefix()) ==> has_prefix(cmd, setup_prefix()),
        has_prefix(cmd, lich_connect_prefix()) ==> has_prefix(cmd, setup_prefix()),
{
    reveal_strlit("//setup:");
    reveal_strlit("//setup:connect:direct:");
    reveal_strlit("//setup:connect:lich:");
    if has_prefix(cmd, direct_connect_prefix()) {
        assert(cmd.subrange(0, 8) =~= cmd.subrange(0, 23).subrange(0, 8));
        assert(direct_connect_prefix().subrange(0, 8) =~= setup_prefix());
    }
    if has_prefix(cmd, lich_connect_prefix()) {
        assert(cmd.subrange(0, 8) =~= cmd.subrange(0, 21).subrange(0, 8));
        assert(lich_connect_prefix().subrange(0, 8) =~= setup_prefix());
    }
}

/// Routes a command: setup commands stay in the frontend, the rest goes to
/// the game. A direct connect command is split at its first two colons into
/// account, game code and character (which may itself hold colons); a Lich
/// connect command is split at its last colon into host and port.
pub fn route_command(command: &str) -> (r: CommandRoute)
    ensures
        match r {
            CommandRoute::ConnectDirect { account, game_code, character } => {
                &&& has_prefix(command@, direct_connect_prefix())
                &&& direct_target(command@) == Some((account@, game_code@, character@))
            },
            CommandRoute::ConnectLich { host, port } => {
                &&& has_prefix(command@, lich_connect_prefix())
                &&& lich_target(command@) == Some((host@, port as nat))
            },
            CommandRoute::Malformed => {
                ||| has_prefix(command@, direct_connect_prefix()) && direct_target(command@) is None
                ||| has_prefix(command@, lich_connect_prefix()) && lich_target(command@) is None
            },
            CommandRoute::Setup => {
                &&& has_prefix(command@, setup_prefix())
                &&& !has_prefix(command@, direct_connect_prefix())
                &&& !has_prefix(command@, lich_connect_prefix())
            },
            CommandRoute::Game => !has_prefix(command@, setup_prefix()),
        },
{
    proof {
        lemma_connect_is_setup(command@);
    }
    if !starts_with(command, "//setup:") {
        return CommandRoute::Game;
    }
    if let Some(rest) = strip_prefix(command, "//setup:connect:direct:") {
        return match split_three(rest.as_str(), ':') {
            Some((account, game_code, character)) => CommandRoute::ConnectDirect {
                account,
                game_code,
                character,
            },
            None => CommandRoute::Malformed,
        };
    }
    match strip_prefix(command, "//setup:connect:lich:") {
        Some(rest) => match split_at_last(rest.as_str(), ':') {
            Some((host, port_text)) => match parse_u16(port_text.as_str()) {
                Some(port) => CommandRoute::ConnectLich { host, port },
                None => CommandRoute::Malformed,
            },
            None => CommandRoute::Malformed,
        },
        None => CommandRoute::Setup,
    }
}

/// The connect command of a Lich profile routes back to a Lich connection
/// with the profile's host and port (or the defaults it connects with).
pub proof fn lemma_lich_command_routes_back(p: ProfileView)
    requires
        p.use_lich,
    ensures
        has_prefix(connect_command_text(p), lich_connect_prefix()),
        lich_target(connect_command_text(p)) == Some(
            (
                match p.lich_host {
                    Some(h) => h,
                    None => "127.0.0.1"@,
                },
                (match p.lich_port {
                    Some(x) => x,
                    None => 8000u16,
                }) as nat,
            ),
        ),
{
    reveal_strlit(":");
    let pre = lich_connect_prefix();
    let t = connect_command_text(p);
    let host = match p.lich_host {
        Some(h) => h,
        None => "127.0.0.1"@,
    };
    let port: u16 = match p.lich_port {
        Some(x) => x,
        None => 8000u16,
    };
    let digits = decimal(port as nat);
    assert(":"@ =~= seq![':']);
    assert(t =~= pre + (host + seq![':'] + digits));
    assert(t.subrange(0, pre.len() as int) =~= pre);
    assert(after_prefix(t, pre) =~= host + seq![':'] + digits);
    lemma_decimal_no_colon(port as nat);
    lemma_split_last_join(host, digits, ':');
    lemma_parse_decimal(port as nat, u16::MAX as nat);
}

/// The connect command of a direct profile routes back to a direct connection
/// with the profile's account, game code and character, provided that the
/// account and the game code hold no colon.
pub proof fn lemma_direct_command_routes_back(p: ProfileView)
    requires
        !p.use_lich,
        forall|k: int| 0 <= k < p.account.len() ==> p.account[k] != ':',
        forall|k: int| 0 <= k < p.game_code.len() ==> p.game_code[k] != ':',
    ensures
        has_prefix(connect_command_text(p), direct_connect_prefix()),
        direct_target(connect_command_text(p)) == Some((p.account, p.game_code, p.character)),
{
    reveal_strlit(":");
    let pre = direct_connect_prefix();
    let t = connect_command_text(p);
    let body = p.account + seq![':'] + p.game_code + seq![':'] + p.character;
    assert(":"@ =~= seq![':']);
    assert(t =~= pre + body);
    assert(t.subrange(0, pre.len() as int) =~= pre);
    assert(t.subrange(pre.len() as int, t.len() as int) =~= body);
    lemma_split3_join(p.account, p.game_code, p.character, ':');
}

/// Which setup overlays are on screen.
#[derive(Debug, Clone, Copy, PartialEq, Eq)]
pub struct SetupScreens {
    pub show_setup_screen: bool,
    pub show_password_prompt: bool,
}

/// `//setup:dismiss` closes both setup overlays; other setup commands change
/// nothing.
pub fn handle_setup_command(command: &str, screens: &mut SetupScreens)
    ensures
        command@ == "//setup:dismiss"@ ==> !final(screens).show_setup_screen
            && !final(screens).show_password_prompt,
        command@ != "//setup:dismiss"@ ==> *final(screens) == *old(screens),
{
    if str_equal(command, "//setup:dismiss") {
        screens.show_setup_screen = false;
        screens.show_password_prompt = false;
    }
}

/// Credentials for a direct login given on the command line.
#[derive(Debug)]
pub struct DirectLogin {
    pub account: String,
    pub password: String,
    pub character: String,
    pub game_code: String,
}

/// How the frontend connects at start-up.
#[derive(Debug)]
pub enum StartupConnection {
    Lich { host: String, port: u16, login_key: Option<String> },
    Direct { account: String, password: String, character: String, game_code: String },
}

/// What the frontend does at start-up.
#[derive(Debug)]
pub struct StartupPlan {
    /// The connection to start now, if any.
    pub connection: Option<StartupConnection>,
    /// Show the setup screen with the character picker.
    pub show_picker: bool,
    /// Ask for the password of a direct login given without one.
    pub show_password_prompt: bool,
}

/// Decides how to start: a direct login from the command line first; else a
/// Lich proxy when a character or a login key was given; else no connection,
/// and the picker is shown.
pub fn startup_plan(
    direct: Option<DirectLogin>,
    character_given: bool,
    login_key: Option<String>,
    lich_host: String,
    lich_port: u16,
) -> (plan: StartupPlan)
    ensures
        match direct {
            Some(d) => {
                &&& plan.connection == Some(
                    StartupConnection::Direct {
                        account: d.account,
                        password: d.password,
                        character: d.character,
                        game_code: d.game_code,
                    },
                )
                &&& plan.show_password_prompt == (d.password@.len() == 0)
                &&& !plan.show_picker
            },
            None => {
                &&& !plan.show_password_prompt
                &&& if character_given || login_key is Some {
                    &&& plan.connection == Some(
                        StartupConnection::Lich { host: lich_host, port: lich_port, login_key },
                    )
                    &&& !plan.show_picker
                } else {
                    &&& plan.connection is None
                    &&& plan.show_picker
                }
            },
        },
{
    match direct {
        Some(d) => {
            let prompt = d.password.as_str().is_empty();
            StartupPlan {
                connection: Some(
                    StartupConnection::Direct {
                        account: d.account,
                        password: d.password,
                        character: d.character,
                        game_code: d.game_code,
                    },
                ),
                show_picker: false,
                show_password_prompt: prompt,
            }
        },
        None => {
            if character_given || login_key.is_some() {
                StartupPlan {
                    connection: Some(StartupConnection::Lich { host: lich_host, port: lich_port, login_key }),
                    show_picker: false,
                    show_password_prompt: false,
                }
            } else {
                StartupPlan { connection: None, show_picker: true, show_password_prompt: false }
            }
        },
    }
}

} // verus!

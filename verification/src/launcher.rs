//! What the launcher needs to know: where the client's files are, how a
//! running client is told from one that was not running, and which arguments
//! select the server.

use crate::session::is_home;
use vstd::prelude::*;
use vstd::string::StringExecFns;

verus! {

/// The name of the client's process.
pub const CLIENT_PROCESS: &'static str = "osu!.exe";

/// The client's flag that selects a server. For the home server the flag is
/// passed without a value.
pub const SERVER_FLAG: &'static str = "-devserver";

/// The files of one installation of the client.
#[derive(Debug)]
pub struct InstallPaths {
    /// The configuration of the client for one user of the machine.
    pub config: String,
    /// The client's program.
    pub executable: String,
    /// The client's binary state store.
    pub state_store: String,
    /// The vault, kept beside the client's own files.
    pub vault: String,
}

/// Where the client keeps its configuration for a user of the machine.
pub open spec fn config_path_of(install_dir: Seq<char>, system_user: Seq<char>) -> Seq<char> {
    install_dir + "/osu!."@ + system_user + ".cfg"@
}

/// Where the client's program is.
pub open spec fn executable_path_of(install_dir: Seq<char>) -> Seq<char> {
    install_dir + "/osu!.exe"@
}

/// Where the client's binary state store is.
pub open spec fn state_store_path_of(install_dir: Seq<char>) -> Seq<char> {
    install_dir + "/osu!.db"@
}

/// Where the vault is.
pub open spec fn vault_path_of(install_dir: Seq<char>) -> Seq<char> {
    install_dir + "/server-account-switcher.ini"@
}

/// The client's program in the installation `install_dir`. An installation
/// is taken for one where this file exists.
pub fn executable_path(install_dir: &str) -> (path: String)
    ensures
        path@ == executable_path_of(install_dir@),
{
    install_dir.to_owned().concat("/osu!.exe")
}

/// The files of the installation in `install_dir`, for the given user of the
/// machine.
pub fn install_paths(install_dir: &str, system_user: &str) -> (paths: InstallPaths)
    ensures
        paths.config@ == config_path_of(install_dir@, system_user@),
        paths.executable@ == executable_path_of(install_dir@),
        paths.state_store@ == state_store_path_of(install_dir@),
        paths.vault@ == vault_path_of(install_dir@),
{
    InstallPaths {
        config: install_dir.to_owned().concat("/osu!.").concat(system_user).concat(".cfg"),
        executable: executable_path(install_dir),
        state_store: install_dir.to_owned().concat("/osu!.db"),
        vault: install_dir.to_owned().concat("/server-account-switcher.ini"),
    }
}

/// The arguments that make the client use a server: the flag, followed by
/// the server's address unless the server is the home server. The home
/// server gets no value at all, not an empty one.
pub open spec fn launch_arguments_of(target: Seq<char>) -> Seq<Seq<char>> {
    if is_home(target) {
        seq![SERVER_FLAG@]
    } else {
        seq![SERVER_FLAG@, target]
    }
}

/// The arguments to launch the client with for `target`.
pub fn launch_arguments(target: &str) -> (arguments: Vec<String>)
    ensures
        arguments.deep_view() == launch_arguments_of(target@),
{
    let mut arguments: Vec<String> = Vec::new();
    arguments.push(SERVER_FLAG.to_owned());
    if !target.is_empty() {
        arguments.push(target.to_owned());
    }
    assert(arguments.deep_view() =~= launch_arguments_of(target@));
    arguments
}

/// Whether the output of the command that ends the client says that a
/// client was running and was ended: it then begins with the seven bytes of
/// `SUCCESS`.
pub open spec fn reports_success(output: Seq<u8>) -> bool {
    &&& output.len() >= 7
    &&& output[0] == 0x53
    &&& output[1] == 0x55
    &&& output[2] == 0x43
    &&& output[3] == 0x43
    &&& output[4] == 0x45
    &&& output[5] == 0x53
    &&& output[6] == 0x53
}

/// Whether a running client was ended, judged by the output of the command
/// that ends it. Only then the launcher has to pause before it goes on, so
/// that the client's files are free again.
pub fn was_terminated(output: &[u8]) -> (ended: bool)
    ensures
        ended == reports_success(output@),
{
    output.len() >= 7 && output[0] == 0x53 && output[1] == 0x55 && output[2] == 0x43 && output[3]
        == 0x43 && output[4] == 0x45 && output[5] == 0x53 && output[6] == 0x53
}

} // verus!

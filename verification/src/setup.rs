//! First-run setup: where the client is looked for, which servers get a
//! desktop shortcut, and what each shortcut holds.

use vstd::prelude::*;
use vstd::string::StrSliceExecFns;
use vstd::string::StringExecFns;

verus! {

/// The server that always gets a shortcut.
pub const DEFAULT_SERVER: &'static str = "osu.ppy.sh";

/// Where the client installs itself for a user of the machine.
pub open spec fn default_install_dir_of(system_user: Seq<char>) -> Seq<char> {
    "C:/Users/"@ + system_user + "/Appdata/Local/osu!"@
}

/// The desktop of a user of the machine.
pub open spec fn desktop_dir_of(system_user: Seq<char>) -> Seq<char> {
    "C:/Users/"@ + system_user + "/Desktop"@
}

/// Where the icon of the shortcuts is kept: beside the client.
pub open spec fn icon_path_of(install_dir: Seq<char>) -> Seq<char> {
    install_dir + "/osu!.ico"@
}

/// The name of the shortcut for a server.
pub open spec fn shortcut_name_of(server: Seq<char>) -> Seq<char> {
    "osu! ("@ + server + ")"@
}

/// The file of the shortcut for a server, on the given desktop.
pub open spec fn shortcut_link_of(desktop_dir: Seq<char>, server: Seq<char>) -> Seq<char> {
    desktop_dir + "/"@ + shortcut_name_of(server) + ".lnk"@
}

/// The arguments with which a shortcut calls the switcher: the switch
/// command with the installation and the server, each in double quotes.
pub open spec fn shortcut_arguments_of(install_dir: Seq<char>, server: Seq<char>) -> Seq<char> {
    "switch --osu \""@ + install_dir + "\" --server \""@ + server + "\""@
}

/// Whether a line can be a server's address: it holds a dot.
pub open spec fn is_server_address(line: Seq<char>) -> bool {
    line.contains('.')
}

/// Where the client installs itself for the given user of the machine.
pub fn default_install_dir(system_user: &str) -> (dir: String)
    ensures
        dir@ == default_install_dir_of(system_user@),
{
    String::from_str("C:/Users/").concat(system_user).concat("/Appdata/Local/osu!")
}

/// The desktop of the given user of the machine.
pub fn desktop_dir(system_user: &str) -> (dir: String)
    ensures
        dir@ == desktop_dir_of(system_user@),
{
    String::from_str("C:/Users/").concat(system_user).concat("/Desktop")
}

/// Where the icon of the shortcuts is kept.
pub fn icon_path(install_dir: &str) -> (path: String)
    ensures
        path@ == icon_path_of(install_dir@),
{
    install_dir.to_owned().concat("/osu!.ico")
}

/// A desktop shortcut that switches to one server and starts the client.
#[derive(Debug)]
pub struct Shortcut {
    /// The name shown on the desktop.
    pub name: String,
    /// The shortcut's file.
    pub link_path: String,
    /// The icon's file.
    pub icon_path: String,
    /// The arguments for the switcher.
    pub arguments: String,
}

/// The shortcut for `server`, to be put on the desktop `desktop_dir`, for the
/// client installed in `install_dir`.
pub fn shortcut(desktop_dir: &str, install_dir: &str, server: &str) -> (made: Shortcut)
    ensures
        made.name@ == shortcut_name_of(server@),
        made.link_path@ == shortcut_link_of(desktop_dir@, server@),
        made.icon_path@ == icon_path_of(install_dir@),
        made.arguments@ == shortcut_arguments_of(install_dir@, server@),
{
    let name = String::from_str("osu! (").concat(server).concat(")");
    let link_path = desktop_dir.to_owned().concat("/").concat(name.as_str()).concat(".lnk");
    let arguments = String::from_str("switch --osu \"").concat(install_dir).concat(
        "\" --server \"",
    ).concat(server).concat("\"");
    Shortcut { name, link_path, icon_path: icon_path(install_dir), arguments }
}

/// Whether `line` can be a server's address.
pub fn looks_like_server(line: &str) -> (valid: bool)
    ensures
        valid == is_server_address(line@),
{
    let count = line.unicode_len();
    let mut index: usize = 0;
    while index < count
        invariant
            count == line@.len(),
            index <= count,
            forall|j: int| 0 <= j < index ==> line@[j] != '.',
        decreases count - index,
    {
        if line.get_char(index) == '.' {
            return true;
        }
        index += 1;
    }
    false
}

/// What became of a line that the user entered for the list of servers.
#[derive(Debug, Clone, Copy, PartialEq, Eq, Structural)]
pub enum Entry {
    /// The line was empty: the list is complete.
    Finished,
    /// The line is no server's address and was not taken.
    Rejected,
    /// The line was added to the list.
    Added,
}

/// What [`enter_server`] makes of a line.
pub open spec fn entry_of(line: Seq<char>) -> Entry {
    if line.len() == 0 {
        Entry::Finished
    } else if is_server_address(line) {
        Entry::Added
    } else {
        Entry::Rejected
    }
}

/// The list of servers before the user entered any: the default server
/// alone.
pub fn initial_servers() -> (servers: Vec<String>)
    ensures
        servers.deep_view() == seq![DEFAULT_SERVER@],
{
    let mut servers: Vec<String> = Vec::new();
    servers.push(DEFAULT_SERVER.to_owned());
    assert(servers.deep_view() =~= seq![DEFAULT_SERVER@]);
    servers
}

/// Takes one line that the user entered. An empty line ends the list, a line
/// without a dot is refused, any other line is added at the end.
pub fn enter_server(servers: &mut Vec<String>, line: &str) -> (entry: Entry)
    ensures
        entry == entry_of(line@),
        entry is Added ==> final(servers).deep_view() == old(servers).deep_view().push(line@),
        !(entry is Added) ==> *final(servers) == *old(servers),
{
    if line.is_empty() {
        return Entry::Finished;
    }
    if !looks_like_server(line) {
        return Entry::Rejected;
    }
    servers.push(line.to_owned());
    assert(servers.deep_view() =~= old(servers).deep_view().push(line@));
    Entry::Added
}

} // verus!

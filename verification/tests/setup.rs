use server_switcher::setup::default_install_dir;
use server_switcher::setup::desktop_dir;
use server_switcher::setup::enter_server;
use server_switcher::setup::icon_path;
use server_switcher::setup::initial_servers;
use server_switcher::setup::looks_like_server;
use server_switcher::setup::shortcut;
use server_switcher::setup::Entry;
use server_switcher::setup::DEFAULT_SERVER;

#[test]
fn default_directories_of_a_user() {
    assert_eq!(default_install_dir("peppy"), "C:/Users/peppy/Appdata/Local/osu!");
    assert_eq!(desktop_dir("peppy"), "C:/Users/peppy/Desktop");
    assert_eq!(icon_path("C:/Games/osu!"), "C:/Games/osu!/osu!.ico");
}

#[test]
fn shortcut_holds_name_link_icon_and_arguments() {
    let made = shortcut("C:/Users/peppy/Desktop", "C:/Games/osu!", "akatsuki.pw");
    assert_eq!(made.name, "osu! (akatsuki.pw)");
    assert_eq!(made.link_path, "C:/Users/peppy/Desktop/osu! (akatsuki.pw).lnk");
    assert_eq!(made.icon_path, "C:/Games/osu!/osu!.ico");
    assert_eq!(made.arguments, "switch --osu \"C:/Games/osu!\" --server \"akatsuki.pw\"");
}

#[test]
fn a_server_address_holds_a_dot() {
    assert!(looks_like_server("osu.ppy.sh"));
    assert!(looks_like_server("."));
    assert!(looks_like_server("a."));
    assert!(looks_like_server(".a"));
    assert!(looks_like_server("höst.example"));
    assert!(!looks_like_server(""));
    assert!(!looks_like_server("localhost"));
    assert!(!looks_like_server("foo,example"));
}

#[test]
fn the_list_starts_with_the_default_server() {
    assert_eq!(DEFAULT_SERVER, "osu.ppy.sh");
    assert_eq!(initial_servers(), vec!["osu.ppy.sh"]);
}

#[test]
fn entering_servers_line_by_line() {
    let mut servers = initial_servers();
    assert_eq!(enter_server(&mut servers, "akatsuki.pw"), Entry::Added);
    assert_eq!(servers, vec!["osu.ppy.sh", "akatsuki.pw"]);
    assert_eq!(enter_server(&mut servers, "localhost"), Entry::Rejected);
    assert_eq!(servers, vec!["osu.ppy.sh", "akatsuki.pw"]);
    assert_eq!(enter_server(&mut servers, "ripple.moe"), Entry::Added);
    assert_eq!(servers, vec!["osu.ppy.sh", "akatsuki.pw", "ripple.moe"]);
    assert_eq!(enter_server(&mut servers, ""), Entry::Finished);
    assert_eq!(servers, vec!["osu.ppy.sh", "akatsuki.pw", "ripple.moe"]);
}

#[test]
fn entering_the_same_server_twice_lists_it_twice() {
    let mut servers = initial_servers();
    assert_eq!(enter_server(&mut servers, "osu.ppy.sh"), Entry::Added);
    assert_eq!(servers, vec!["osu.ppy.sh", "osu.ppy.sh"]);
}

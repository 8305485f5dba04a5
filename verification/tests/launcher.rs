use server_switcher::launcher::executable_path;
use server_switcher::launcher::install_paths;
use server_switcher::launcher::launch_arguments;
use server_switcher::launcher::was_terminated;
use server_switcher::launcher::CLIENT_PROCESS;
use server_switcher::launcher::SERVER_FLAG;

#[test]
fn install_paths_are_built_from_directory_and_user() {
    let paths = install_paths("C:/Games/osu!", "peppy");
    assert_eq!(paths.config, "C:/Games/osu!/osu!.peppy.cfg");
    assert_eq!(paths.executable, "C:/Games/osu!/osu!.exe");
    assert_eq!(paths.state_store, "C:/Games/osu!/osu!.db");
    assert_eq!(paths.vault, "C:/Games/osu!/server-account-switcher.ini");
}

#[test]
fn executable_path_is_inside_the_directory() {
    assert_eq!(executable_path("C:/Games/osu!"), "C:/Games/osu!/osu!.exe");
    assert_eq!(executable_path(""), "/osu!.exe");
}

#[test]
fn install_paths_of_empty_directory() {
    let paths = install_paths("", "");
    assert_eq!(paths.config, "/osu!..cfg");
    assert_eq!(paths.executable, "/osu!.exe");
    assert_eq!(paths.state_store, "/osu!.db");
    assert_eq!(paths.vault, "/server-account-switcher.ini");
}

#[test]
fn launch_arguments_name_the_server() {
    assert_eq!(launch_arguments("foo.example"), vec!["-devserver", "foo.example"]);
}

#[test]
fn launch_arguments_for_home_leave_the_value_out() {
    let arguments = launch_arguments("");
    assert_eq!(arguments, vec!["-devserver"]);
    assert_eq!(arguments.len(), 1);
}

#[test]
fn constants_of_the_client() {
    assert_eq!(CLIENT_PROCESS, "osu!.exe");
    assert_eq!(SERVER_FLAG, "-devserver");
}

#[test]
fn was_terminated_looks_for_success_at_the_start() {
    assert!(was_terminated(b"SUCCESS"));
    assert!(was_terminated(b"SUCCESS: Sent termination signal to the process \"osu!.exe\"."));
    assert!(!was_terminated(b""));
    assert!(!was_terminated(b"SUCCES"));
    assert!(!was_terminated(b"success: sent"));
    assert!(!was_terminated(b" SUCCESS"));
    assert!(!was_terminated(b"ERROR: The process \"osu!.exe\" not found."));
    assert!(!was_terminated(b"SUCCESX"));
}

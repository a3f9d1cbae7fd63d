use hyprland_ipc::error::Error;
use hyprland_ipc::{hyprland_rundir, resolve, socket_paths, SocketPaths};

#[test]
fn the_directory_is_made_of_user_and_instance() {
    assert_eq!(hyprland_rundir(1000, Some("abc_123")), Ok("/run/user/1000/hypr/abc_123".to_string()));
    assert_eq!(hyprland_rundir(0, Some("x")), Ok("/run/user/0/hypr/x".to_string()));
    assert_eq!(
        hyprland_rundir(u32::MAX, Some("")),
        Ok("/run/user/4294967295/hypr/".to_string())
    );
}

#[test]
fn without_an_instance_there_is_no_directory() {
    assert_eq!(hyprland_rundir(1000, None), Err(Error::Configuration));
    assert_eq!(socket_paths(1000, None), Err(Error::Configuration));
    assert_eq!(resolve(None), Err(Error::Configuration));
}

#[test]
fn the_sockets_are_in_the_directory() {
    assert_eq!(
        socket_paths(1000, Some("abc_123")),
        Ok(SocketPaths {
            command: "/run/user/1000/hypr/abc_123/.socket.sock".to_string(),
            event: "/run/user/1000/hypr/abc_123/.socket2.sock".to_string(),
        })
    );
}

#[test]
fn the_user_is_the_one_who_runs_the_process() {
    let uid = nix::unistd::Uid::current().as_raw();
    assert_eq!(resolve(Some("abc_123")), socket_paths(uid, Some("abc_123")));
    assert_eq!(
        resolve(Some("abc_123")).map(|paths| paths.command),
        Ok(format!("/run/user/{}/hypr/abc_123/.socket.sock", uid))
    );
}

use wallchemybar::guard::{arm_guard, should_hide_on_focus_loss};
use wallchemybar::setter::{
    linux_command, screens_outcome, shell_outcome, windows_outcome, OsCall, Platform,
    ScreenOutcome,
};

fn linux(session: &str) -> Platform {
    Platform::Linux {
        desktop_session: String::from(session),
        override_command: String::new(),
    }
}

#[test]
fn txt_path_is_rejected_on_every_platform_before_any_os_call() {
    for platform in [linux("plasma"), Platform::MacOs, Platform::Windows] {
        let r = wallchemybar::setter::set("/home/u/notes.txt", true, &platform);
        assert_eq!(r.unwrap_err(), "unsupported filetype: .txt");
    }
}

#[test]
fn unsupported_desktop_session_fails_naming_it_and_invokes_no_shell() {
    let r = wallchemybar::setter::set("/home/u/pic.jpg", true, &linux("sway"));
    assert_eq!(r.unwrap_err(), "unsupported desktop environment: sway");
}

#[test]
fn missing_file_is_rejected_naming_the_path() {
    let r = wallchemybar::setter::set("/home/u/gone.png", false, &Platform::MacOs);
    assert_eq!(r.unwrap_err(), "file does not exist: /home/u/gone.png");
}

#[test]
fn extension_matching_ignores_ascii_case() {
    let r = wallchemybar::setter::set("/home/u/PIC.JPG", true, &Platform::Windows);
    match r.unwrap() {
        OsCall::SetSystemImage { path } => assert_eq!(path, "/home/u/PIC.JPG"),
        _ => panic!("wrong call"),
    }
}

#[test]
fn extensionless_and_dotfile_paths_are_rejected() {
    let r = wallchemybar::setter::set("/home/u/picture", true, &Platform::MacOs);
    assert_eq!(r.unwrap_err(), "unsupported filetype: .");
    let r = wallchemybar::setter::set("/home/u/.jpg", true, &Platform::MacOs);
    assert_eq!(r.unwrap_err(), "unsupported filetype: .");
}

#[test]
fn macos_set_fans_out_one_unit_per_screen() {
    let r = wallchemybar::setter::set("/home/u/pic.gif", true, &Platform::MacOs);
    match r.unwrap() {
        OsCall::SetEachScreen { path } => assert_eq!(path, "/home/u/pic.gif"),
        _ => panic!("wrong call"),
    }
}

#[test]
fn plasma_session_builds_the_plasmashell_script_command() {
    let cmd = linux_command("plasma", "", "/tmp/a.jpg").unwrap();
    assert!(cmd.starts_with("dbus-send --session --dest=org.kde.plasmashell"));
    assert!(cmd.contains("d.writeConfig('Image', 'file:///tmp/a.jpg'); }\""));
}

#[test]
fn gnome_family_sessions_set_both_light_and_dark_uris() {
    for session in ["gnome", "gnome-wayland", "ubuntu"] {
        let cmd = linux_command(session, "", "/tmp/a.jpg").unwrap();
        assert_eq!(
            cmd,
            "gsettings set org.gnome.desktop.background picture-uri file:///tmp/a.jpg \
             && gsettings set org.gnome.desktop.background picture-uri-dark file:///tmp/a.jpg"
        );
    }
}

#[test]
fn cinnamon_mate_budgie_and_xfce_commands_match_their_desktops() {
    assert_eq!(
        linux_command("cinnamon", "", "/tmp/a.jpg").unwrap(),
        "gsettings set org.cinnamon.desktop.background picture-uri file:///tmp/a.jpg"
    );
    assert_eq!(
        linux_command("mate", "", "/tmp/a.jpg").unwrap(),
        "gsettings set org.mate.background picture-filename \"/tmp/a.jpg\""
    );
    assert_eq!(
        linux_command("budgie-desktop", "", "/tmp/a.jpg").unwrap(),
        "gsettings set org.gnome.desktop.background picture-uri \"file:///tmp/a.jpg\""
    );
    assert_eq!(
        linux_command("xfce", "", "/tmp/a.jpg").unwrap(),
        "for prop in $(xfconf-query -c xfce4-desktop -l | grep last-image); \
         do xfconf-query -c xfce4-desktop -p $prop -s '/tmp/a.jpg'; done"
    );
}

#[test]
fn configured_override_command_takes_precedence_over_the_table() {
    let cmd = linux_command("sway", "/usr/local/bin/setbg", "/tmp/a.jpg").unwrap();
    assert_eq!(cmd, "/usr/local/bin/setbg /tmp/a.jpg");
}

#[test]
fn zero_screens_is_a_hard_error() {
    let r = screens_outcome(&Vec::new());
    assert_eq!(r.unwrap_err(), "no screens found");
}

#[test]
fn all_screens_applied_is_success() {
    let r = screens_outcome(&vec![ScreenOutcome::Applied, ScreenOutcome::Applied]);
    assert!(r.is_ok());
}

#[test]
fn first_failed_screen_decides_the_aggregate() {
    let r = screens_outcome(&vec![
        ScreenOutcome::Applied,
        ScreenOutcome::Failed { error: String::from("setDesktopImageURL failed for screen 1") },
        ScreenOutcome::Failed { error: String::from("setDesktopImageURL failed for screen 2") },
    ]);
    assert_eq!(r.unwrap_err(), "setDesktopImageURL failed for screen 1");
}

#[test]
fn crashed_screen_unit_is_surfaced_not_swallowed() {
    let r = screens_outcome(&vec![ScreenOutcome::Applied, ScreenOutcome::Crashed]);
    assert_eq!(r.unwrap_err(), "wallpaper thread panicked");
}

#[test]
fn failing_shell_command_reports_its_stderr() {
    assert!(shell_outcome(true, "").is_ok());
    let r = shell_outcome(false, "no such schema");
    assert_eq!(r.unwrap_err(), "set wallpaper failed: no such schema");
}

#[test]
fn windows_zero_return_code_is_a_hard_error() {
    assert!(windows_outcome(1).is_ok());
    assert_eq!(windows_outcome(0).unwrap_err(), "SystemParametersInfoW failed");
}

#[test]
fn focus_loss_hides_only_after_the_guard_lapses() {
    assert!(should_hide_on_focus_loss(&None, 1_000));
    let g = arm_guard(1_000, 300);
    assert!(!should_hide_on_focus_loss(&Some(g), 1_299));
    let g = arm_guard(1_000, 300);
    assert!(should_hide_on_focus_loss(&Some(g), 1_300));
}

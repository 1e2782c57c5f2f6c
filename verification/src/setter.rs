//! The wallpaper setter: validates the image file path, dispatches to the
//! mechanism of the target platform, and judges what the host reports
//! back. The OS calls themselves — the per-screen compositor requests, the
//! shell command, the native parameter call — are the host's part; this
//! module decides exactly which call is owed and what every outcome means.

use vstd::prelude::*;
use vstd::string::StrSliceExecFns;
use vstd::string::StringExecFns;

use crate::strutil::{extension_of, filename_of, lower_chars};

verus! {

/// The platform a build targets, with what its dispatch needs: macOS and
/// Windows need nothing, the Linux mechanism is keyed by the desktop
/// session name the environment reports, overridden by a user-configured
/// command when one is set.
#[derive(Debug)]
pub enum Platform {
    MacOs,
    Linux { desktop_session: String, override_command: String },
    Windows,
}

/// The one OS call a validated set request comes down to.
#[derive(Debug)]
pub enum OsCall {
    /// macOS: ask the compositor to set this image on every attached
    /// screen, one independent unit of work per screen.
    SetEachScreen { path: String },
    /// Linux: run this command line through a system shell.
    RunShell { command: String },
    /// Windows: one native call setting this image, persisted to the user
    /// profile with an immediate refresh notification.
    SetSystemImage { path: String },
}

/// The extension of the file a path names: the extension of its last
/// slash-separated segment.
pub open spec fn path_extension(path: Seq<char>) -> Seq<char> {
    extension_of(filename_of(path))
}

/// The fixed allow-list of image extensions, matched without regard to
/// ASCII case.
pub open spec fn ext_allowed(ext: Seq<char>) -> bool {
    ||| lower_chars(ext) == "jpg"@
    ||| lower_chars(ext) == "jpeg"@
    ||| lower_chars(ext) == "png"@
    ||| lower_chars(ext) == "gif"@
    ||| lower_chars(ext) == "bmp"@
}

/// The shell command that sets the wallpaper on a Linux desktop, or
/// nothing when the session name is not in the dispatch table. A non-empty
/// user-configured override command takes precedence over the table: it is
/// run with the image path appended as its argument.
pub open spec fn linux_command_of(
    session: Seq<char>,
    override_command: Seq<char>,
    path: Seq<char>,
) -> Option<Seq<char>> {
    if override_command.len() > 0 {
        Some(override_command + " "@ + path)
    } else if session == "plasma"@ {
        Some(
            "dbus-send --session --dest=org.kde.plasmashell --type=method_call /PlasmaShell org.kde.PlasmaShell.evaluateScript string:\"var allDesktops = desktops(); for (i = 0; i < allDesktops.length; i++) { d = allDesktops[i]; d.wallpaperPlugin = 'org.kde.image'; d.currentConfigGroup = Array('Wallpaper', 'org.kde.image', 'General'); d.writeConfig('Image', 'file://"@
                + path + "'); }\""@,
        )
    } else if session == "gnome"@ || session == "gnome-wayland"@ || session == "ubuntu"@ {
        Some(
            "gsettings set org.gnome.desktop.background picture-uri file://"@ + path
                + " && gsettings set org.gnome.desktop.background picture-uri-dark file://"@
                + path,
        )
    } else if session == "cinnamon"@ {
        Some("gsettings set org.cinnamon.desktop.background picture-uri file://"@ + path)
    } else if session == "mate"@ {
        Some("gsettings set org.mate.background picture-filename \""@ + path + "\""@)
    } else if session == "budgie-desktop"@ {
        Some("gsettings set org.gnome.desktop.background picture-uri \"file://"@ + path + "\""@)
    } else if session == "xfce"@ {
        Some(
            "for prop in $(xfconf-query -c xfce4-desktop -l | grep last-image); do xfconf-query -c xfce4-desktop -p $prop -s '"@
                + path + "'; done"@,
        )
    } else {
        None
    }
}

/// Selects the shell command for a Linux desktop; an unrecognized session
/// name, with no override configured, is the error naming it, and no shell
/// is invoked.
pub fn linux_command(desktop_session: &str, override_command: &str, path: &str) -> (r: Result<
    String,
    String,
>)
    ensures
        match r {
            Ok(c) => linux_command_of(desktop_session@, override_command@, path@) == Some(c@),
            Err(e) => {
                &&& linux_command_of(desktop_session@, override_command@, path@) is None
                &&& e@ == "unsupported desktop environment: "@ + desktop_session@
            },
        },
{
    if override_command.unicode_len() > 0 {
        return Ok(String::from_str(override_command).concat(" ").concat(path));
    }
    if crate::strutil::str_eq(desktop_session, "plasma") {
        Ok(
            String::from_str(
                "dbus-send --session --dest=org.kde.plasmashell --type=method_call /PlasmaShell org.kde.PlasmaShell.evaluateScript string:\"var allDesktops = desktops(); for (i = 0; i < allDesktops.length; i++) { d = allDesktops[i]; d.wallpaperPlugin = 'org.kde.image'; d.currentConfigGroup = Array('Wallpaper', 'org.kde.image', 'General'); d.writeConfig('Image', 'file://",
            ).concat(path).concat("'); }\""),
        )
    } else if crate::strutil::str_eq(desktop_session, "gnome") || crate::strutil::str_eq(
        desktop_session,
        "gnome-wayland",
    ) || crate::strutil::str_eq(desktop_session, "ubuntu") {
        Ok(
            String::from_str("gsettings set org.gnome.desktop.background picture-uri file://")
                .concat(path).concat(
                " && gsettings set org.gnome.desktop.background picture-uri-dark file://",
            ).concat(path),
        )
    } else if crate::strutil::str_eq(desktop_session, "cinnamon") {
        Ok(
            String::from_str("gsettings set org.cinnamon.desktop.background picture-uri file://")
                .concat(path),
        )
    } else if crate::strutil::str_eq(desktop_session, "mate") {
        Ok(
            String::from_str("gsettings set org.mate.background picture-filename \"").concat(
                path,
            ).concat("\""),
        )
    } else if crate::strutil::str_eq(desktop_session, "budgie-desktop") {
        Ok(
            String::from_str("gsettings set org.gnome.desktop.background picture-uri \"file://")
                .concat(path).concat("\""),
        )
    } else if crate::strutil::str_eq(desktop_session, "xfce") {
        Ok(
            String::from_str(
                "for prop in $(xfconf-query -c xfce4-desktop -l | grep last-image); do xfconf-query -c xfce4-desktop -p $prop -s '",
            ).concat(path).concat("'; done"),
        )
    } else {
        Err(
            String::from_str("unsupported desktop environment: ").concat(desktop_session),
        )
    }
}

/// Validates a set request and dispatches it: a path naming no existing
/// file is rejected, then a file whose extension is outside the allow-list
/// of image types is rejected — both before any OS call, whatever the
/// platform — and a valid request becomes the one OS call the platform
/// takes. The host reports whether the file exists and performs the call.
pub fn set(path: &str, file_exists: bool, platform: &Platform) -> (r: Result<OsCall, String>)
    ensures
        !file_exists ==> (r matches Err(e) && e@ == "file does not exist: "@ + path@),
        file_exists && !ext_allowed(path_extension(path@)) ==> (r matches Err(e) && e@
            == "unsupported filetype: ."@ + lower_chars(path_extension(path@))),
        file_exists && ext_allowed(path_extension(path@)) ==> match platform {
            Platform::MacOs => r matches Ok(OsCall::SetEachScreen { path: p }) && p@ == path@,
            Platform::Linux { desktop_session, override_command } => {
                match linux_command_of(desktop_session@, override_command@, path@) {
                    Some(cmd) => r matches Ok(OsCall::RunShell { command }) && command@ == cmd,
                    None => r matches Err(e) && e@ == "unsupported desktop environment: "@
                        + desktop_session@,
                }
            },
            Platform::Windows => r matches Ok(OsCall::SetSystemImage { path: p }) && p@ == path@,
        },
{
    if !file_exists {
        return Err(String::from_str("file does not exist: ").concat(path));
    }
    let name = crate::strutil::filename_part(path);
    let ext = crate::strutil::extension_part(name.as_str());
    let lowered = crate::strutil::to_lowercase_ascii(ext.as_str());
    let allowed = crate::strutil::str_eq(lowered.as_str(), "jpg") || crate::strutil::str_eq(
        lowered.as_str(),
        "jpeg",
    ) || crate::strutil::str_eq(lowered.as_str(), "png") || crate::strutil::str_eq(
        lowered.as_str(),
        "gif",
    ) || crate::strutil::str_eq(lowered.as_str(), "bmp");
    if !allowed {
        return Err(String::from_str("unsupported filetype: .").concat(lowered.as_str()));
    }
    match platform {
        Platform::MacOs => Ok(OsCall::SetEachScreen { path: path.to_owned() }),
        Platform::Linux { desktop_session, override_command } => {
            match linux_command(desktop_session.as_str(), override_command.as_str(), path) {
                Ok(command) => Ok(OsCall::RunShell { command }),
                Err(e) => Err(e),
            }
        },
        Platform::Windows => Ok(OsCall::SetSystemImage { path: path.to_owned() }),
    }
}

/// What one per-screen unit of work came to, as the host reports it.
#[derive(Debug)]
pub enum ScreenOutcome {
    /// The compositor set the image on this screen.
    Applied,
    /// The unit finished and reported this error.
    Failed { error: String },
    /// The unit crashed before finishing.
    Crashed,
}

/// The mathematical value of a `ScreenOutcome`.
pub enum ScreenOutcomeV {
    Applied,
    Failed { error: Seq<char> },
    Crashed,
}

impl View for ScreenOutcome {
    type V = ScreenOutcomeV;

    open spec fn view(&self) -> ScreenOutcomeV {
        match self {
            ScreenOutcome::Applied => ScreenOutcomeV::Applied,
            ScreenOutcome::Failed { error } => ScreenOutcomeV::Failed { error: error@ },
            ScreenOutcome::Crashed => ScreenOutcomeV::Crashed,
        }
    }
}

impl DeepView for ScreenOutcome {
    type V = ScreenOutcomeV;

    open spec fn deep_view(&self) -> ScreenOutcomeV {
        self.view()
    }
}

/// Joining the per-screen units in screen order: the first that did not
/// set its screen decides the aggregate — a crash is named as such, a
/// reported failure is passed on — and only a run where every unit set its
/// screen succeeds.
pub open spec fn spec_join_screens(s: Seq<ScreenOutcomeV>) -> Result<(), Seq<char>>
    decreases s.len(),
{
    if s.len() == 0 {
        Ok(())
    } else {
        match s[0] {
            ScreenOutcomeV::Applied => spec_join_screens(s.drop_first()),
            ScreenOutcomeV::Failed { error } => Err(error),
            ScreenOutcomeV::Crashed => Err("wallpaper thread panicked"@),
        }
    }
}

/// The aggregate of a macOS set request: zero attached screens is a hard
/// error before any work is spawned, and otherwise the outcomes of all
/// per-screen units are joined, so no failure or crash is silently
/// dropped.
pub open spec fn spec_screens_outcome(s: Seq<ScreenOutcomeV>) -> Result<(), Seq<char>> {
    if s.len() == 0 {
        Err("no screens found"@)
    } else {
        spec_join_screens(s)
    }
}

/// The law of the fan-in: the aggregate of a macOS set request succeeds
/// exactly when at least one screen was attached and every per-screen unit
/// set its screen, so neither a failure nor a crash of any unit is ever
/// silently dropped.
pub proof fn lemma_screens_outcome_ok(s: Seq<ScreenOutcomeV>)
    ensures
        spec_screens_outcome(s) is Ok <==> (s.len() > 0 && forall|i: int|
            0 <= i < s.len() ==> s[i] is Applied),
    decreases s.len(),
{
    if s.len() > 0 {
        lemma_screens_outcome_ok(s.drop_first());
        assert(forall|i: int| 0 <= i < s.len() - 1 ==> s.drop_first()[i] == s[i + 1]);
        if s[0] is Applied && s.len() == 1 {
            assert(s.drop_first().len() == 0);
            assert(spec_join_screens(s.drop_first()) is Ok);
        }
        if spec_screens_outcome(s) is Ok {
            assert forall|i: int| 0 <= i < s.len() implies s[i] is Applied by {
                if i > 0 {
                    if s.drop_first().len() > 0 {
                        assert(s.drop_first()[i - 1] is Applied);
                    }
                }
            }
        }
    }
}

proof fn lemma_join_screens_skip(s: Seq<ScreenOutcomeV>, i: int)
    requires
        0 <= i <= s.len(),
        forall|j: int| 0 <= j < i ==> s[j] is Applied,
    ensures
        spec_join_screens(s) == spec_join_screens(s.skip(i)),
    decreases i,
{
    if i > 0 {
        lemma_join_screens_skip(s.drop_first(), i - 1);
        assert(s.drop_first().skip(i - 1) =~= s.skip(i));
    } else {
        assert(s.skip(0) =~= s);
    }
}

/// Judges a macOS set request from what the host reports of every
/// per-screen unit, in screen order.
pub fn screens_outcome(outcomes: &Vec<ScreenOutcome>) -> (r: Result<(), String>)
    ensures
        match r {
            Ok(()) => spec_screens_outcome(outcomes.deep_view()) is Ok,
            Err(e) => spec_screens_outcome(outcomes.deep_view()) == Err::<(), Seq<char>>(e@),
        },
{
    let ghost all = outcomes.deep_view();
    if outcomes.len() == 0 {
        return Err("no screens found".to_owned());
    }
    let mut i: usize = 0;
    while i < outcomes.len()
        invariant
            i <= outcomes.len(),
            all == outcomes.deep_view(),
            forall|j: int| 0 <= j < i ==> all[j] is Applied,
        decreases outcomes.len() - i,
    {
        proof {
            lemma_join_screens_skip(all, i as int);
        }
        match &outcomes[i] {
            ScreenOutcome::Applied => {
                assert(all[i as int] is Applied);
            },
            ScreenOutcome::Failed { error } => {
                assert(all.skip(i as int)[0] == all[i as int]);
                return Err(error.clone());
            },
            ScreenOutcome::Crashed => {
                assert(all.skip(i as int)[0] == all[i as int]);
                return Err("wallpaper thread panicked".to_owned());
            },
        }
        i = i + 1;
    }
    proof {
        lemma_join_screens_skip(all, all.len() as int);
        assert(all.skip(all.len() as int) =~= Seq::<ScreenOutcomeV>::empty());
    }
    Ok(())
}

/// Judges the shell command of a Linux set request: a run that exited
/// non-zero is a hard error carrying the captured standard-error text.
pub fn shell_outcome(exit_success: bool, stderr: &str) -> (r: Result<(), String>)
    ensures
        r is Ok <==> exit_success,
        (r matches Err(e) ==> e@ == "set wallpaper failed: "@ + stderr@),
{
    if exit_success {
        Ok(())
    } else {
        Err(String::from_str("set wallpaper failed: ").concat(stderr))
    }
}

/// Judges the native call of a Windows set request: the call reports
/// failure by returning zero.
pub fn windows_outcome(result_code: i32) -> (r: Result<(), String>)
    ensures
        r is Ok <==> result_code != 0,
        (r matches Err(e) ==> e@ == "SystemParametersInfoW failed"@),
{
    if result_code != 0 {
        Ok(())
    } else {
        Err("SystemParametersInfoW failed".to_owned())
    }
}

} // verus!

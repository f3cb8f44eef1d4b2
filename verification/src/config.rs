//! Application settings and where they live.

use vstd::prelude::*;
use std::path::PathBuf;
use directories::ProjectDirs;

verus! {

/// The per-user directories of an application, as the `directories` crate
/// finds them; carried through as an opaque value.
#[verifier::external_type_specification]
#[verifier::external_body]
pub struct ExProjectDirs(directories::ProjectDirs);

/// The data directory that a `ProjectDirs` value holds.
pub uninterp spec fn data_dir_of(dirs: ProjectDirs) -> PathBuf;

/// The config directory that a `ProjectDirs` value holds.
pub uninterp spec fn config_dir_of(dirs: ProjectDirs) -> PathBuf;

/// A name that `directories` uses as it is: lower-case ASCII letters only,
/// at least one.
pub open spec fn plain_name(name: Seq<char>) -> bool {
    name.len() > 0 && forall|k: int| 0 <= k < name.len() ==> 'a' <= #[trigger] name[k] <= 'z'
}

/// Directories made for the application `name`: its data and its config
/// directory are each some base directory joined with the name.
pub open spec fn dirs_for(dirs: ProjectDirs, name: Seq<char>) -> bool {
    &&& exists|b: PathBuf| data_dir_of(dirs) == joined(b, name)
    &&& exists|b: PathBuf| config_dir_of(dirs) == joined(b, name)
}

/// `directories::ProjectDirs::from`: the application's directories, or
/// `None` when no home directory can be found; which base directories are
/// used depends on the environment. On Linux (the platform of this
/// program, `lin.rs`) the project path is the application name trimmed,
/// lower-cased and without spaces, and the data and config directories are
/// the XDG base directories joined with it; for an empty qualifier and
/// organization and a plain lower-case name this is the name itself (also
/// on macOS, `mac.rs`). Nothing else is claimed of the result.
pub assume_specification[ directories::ProjectDirs::from ](
    qualifier: &str,
    organization: &str,
    application: &str,
) -> (r: Option<ProjectDirs>)
    ensures
        qualifier@.len() == 0 && organization@.len() == 0 && plain_name(application@) ==> (
        r matches Some(d) ==> dirs_for(d, application@)),
;

/// `ProjectDirs::data_dir`, as an owned path: the data directory stored in
/// the value (which one it is depends on the environment it was made in).
#[verifier::external_body]
fn data_dir(dirs: &ProjectDirs) -> (p: PathBuf)
    ensures
        p == data_dir_of(*dirs),
{
    dirs.data_dir().to_path_buf()
}

/// `ProjectDirs::config_dir`, as an owned path: the config directory stored
/// in the value.
#[verifier::external_body]
fn config_dir(dirs: &ProjectDirs) -> (p: PathBuf)
    ensures
        p == config_dir_of(*dirs),
{
    dirs.config_dir().to_path_buf()
}

/// The path that `PathBuf::from` makes of a text.
pub uninterp spec fn path_of(text: Seq<char>) -> PathBuf;

/// `PathBuf::from(&str)`: the path spelled by the text.
#[verifier::external_body]
pub(crate) fn path_from(text: &str) -> (p: PathBuf)
    ensures
        p == path_of(text@),
{
    PathBuf::from(text)
}

/// The path that `Path::join` makes of a base path and a text.
pub uninterp spec fn joined(base: PathBuf, name: Seq<char>) -> PathBuf;

/// `Path::join`: `name` appended to `base`.
#[verifier::external_body]
pub(crate) fn path_join(base: &PathBuf, name: &str) -> (p: PathBuf)
    ensures
        p == joined(*base, name@),
{
    base.join(name)
}

/// Video codec of recordings.
#[derive(Debug, Clone, Copy, Default, PartialEq, Eq)]
pub enum VideoCodec {
    #[default]
    H264,
    H265,
    AV1,
}

/// Shape of the webcam overlay.
#[derive(Debug, Clone, Copy, Default, PartialEq, Eq)]
pub enum WebcamShape {
    #[default]
    Circle,
    Rectangle,
    RoundedRect,
}

/// Export quality preset, or a custom value.
#[derive(Debug, Clone, Copy, Default, PartialEq, Eq)]
pub enum ExportQuality {
    Low,
    Medium,
    #[default]
    High,
    Custom(u32),
}

/// Export container.
#[derive(Debug, Clone, Copy, Default, PartialEq, Eq)]
pub enum ExportFormat {
    #[default]
    Mp4,
    Gif,
}

/// Global hotkey bindings.
#[derive(Debug, Clone, PartialEq, Eq)]
pub struct HotkeyConfig {
    pub toggle_recording: String,
    pub cancel_recording: String,
}

/// Application settings.
#[derive(Debug, Clone)]
pub struct AppConfig {
    pub video_fps: u32,
    pub video_codec: VideoCodec,
    pub audio_input_device: Option<String>,
    pub audio_system_capture: bool,
    pub webcam_enabled: bool,
    pub webcam_device: Option<String>,
    pub webcam_shape: WebcamShape,
    pub export_quality: ExportQuality,
    pub export_format: ExportFormat,
    pub recordings_dir: PathBuf,
    pub hotkeys: HotkeyConfig,
}

/// Default recording frame rate.
pub fn default_video_fps() -> (fps: u32)
    ensures
        fps == 60,
{
    60
}

/// Default for switches that start on.
pub fn default_true() -> (b: bool)
    ensures
        b,
{
    true
}

/// Default start/stop binding.
pub fn default_toggle_recording() -> (s: String)
    ensures
        s@ == "Super+Shift+R"@,
{
    String::from_str("Super+Shift+R")
}

/// Default cancel binding.
pub fn default_cancel_recording() -> (s: String)
    ensures
        s@ == "Escape"@,
{
    String::from_str("Escape")
}

/// The application's per-user directories (`openrec`), if a home directory is known.
pub fn project_dirs() -> (r: Option<ProjectDirs>)
    ensures
        r matches Some(d) ==> dirs_for(d, "openrec"@),
{
    proof {
        reveal_strlit("");
        reveal_strlit("openrec");
    }
    ProjectDirs::from("", "", "openrec")
}

/// Where recordings go given the application's directories: `recordings`
/// under the data directory, or a relative `recordings` without them.
pub fn recordings_dir_in(dirs: Option<ProjectDirs>) -> (p: PathBuf)
    ensures
        dirs.is_none() ==> p == path_of("recordings"@),
        dirs matches Some(d) ==> p == joined(data_dir_of(d), "recordings"@),
{
    match dirs {
        Some(d) => {
            let base = data_dir(&d);
            path_join(&base, "recordings")
        },
        None => path_from("recordings"),
    }
}

/// Where projects are saved given the application's directories:
/// `projects` under the data directory; nothing without them.
pub fn projects_dir_in(dirs: Option<ProjectDirs>) -> (p: Option<PathBuf>)
    ensures
        p.is_none() <==> dirs.is_none(),
        dirs matches Some(d) ==> p == Some(joined(data_dir_of(d), "projects"@)),
{
    match dirs {
        Some(d) => {
            let base = data_dir(&d);
            Some(path_join(&base, "projects"))
        },
        None => None,
    }
}

/// Default directory for recordings.
pub fn default_recordings_dir() -> (p: PathBuf)
    ensures
        p == path_of("recordings"@) || exists|d: ProjectDirs|
            dirs_for(d, "openrec"@) && p == joined(data_dir_of(d), "recordings"@),
{
    let dirs = project_dirs();
    let ghost g = dirs;
    let p = recordings_dir_in(dirs);
    proof {
        if let Some(d) = g {
            assert(dirs_for(d, "openrec"@) && p == joined(data_dir_of(d), "recordings"@));
        }
    }
    p
}

impl Default for HotkeyConfig {
    /// `Super+Shift+R` starts and stops, `Escape` cancels.
    fn default() -> (c: Self)
        ensures
            c.toggle_recording@ == "Super+Shift+R"@,
            c.cancel_recording@ == "Escape"@,
    {
        HotkeyConfig {
            toggle_recording: default_toggle_recording(),
            cancel_recording: default_cancel_recording(),
        }
    }
}

impl Default for AppConfig {
    /// 60 fps H.264, system audio on, no webcam, high-quality MP4 export,
    /// recordings in the default directory, default hotkeys.
    fn default() -> (c: Self)
        ensures
            c.video_fps == 60,
            c.video_codec == VideoCodec::H264,
            c.audio_input_device.is_none(),
            c.audio_system_capture,
            !c.webcam_enabled,
            c.webcam_device.is_none(),
            c.webcam_shape == WebcamShape::Circle,
            c.export_quality == ExportQuality::High,
            c.export_format == ExportFormat::Mp4,
            c.hotkeys.toggle_recording@ == "Super+Shift+R"@,
            c.hotkeys.cancel_recording@ == "Escape"@,
            c.recordings_dir == path_of("recordings"@) || exists|d: ProjectDirs|
                dirs_for(d, "openrec"@) && c.recordings_dir == joined(data_dir_of(d), "recordings"@),
    {
        AppConfig {
            video_fps: default_video_fps(),
            video_codec: VideoCodec::H264,
            audio_input_device: None,
            audio_system_capture: true,
            webcam_enabled: false,
            webcam_device: None,
            webcam_shape: WebcamShape::Circle,
            export_quality: ExportQuality::High,
            export_format: ExportFormat::Mp4,
            recordings_dir: default_recordings_dir(),
            hotkeys: HotkeyConfig::default(),
        }
    }
}

/// Why the settings file cannot be located.
#[derive(Debug, Clone, Copy, PartialEq, Eq)]
pub enum ConfigError {
    NoConfigDir,
}

impl AppConfig {
    /// The settings file given the application's directories:
    /// `config.json` in the config directory; an error without them.
    pub fn config_path_in(dirs: Option<ProjectDirs>) -> (r: Result<PathBuf, ConfigError>)
        ensures
            dirs.is_none() <==> r == Err::<PathBuf, ConfigError>(ConfigError::NoConfigDir),
            dirs.is_some() <==> r is Ok,
            dirs matches Some(d) ==> r == Ok::<PathBuf, ConfigError>(
                joined(config_dir_of(d), "config.json"@),
            ),
    {
        match dirs {
            Some(d) => {
                let base = config_dir(&d);
                Ok(path_join(&base, "config.json"))
            },
            None => Err(ConfigError::NoConfigDir),
        }
    }

    /// The settings file of this user.
    pub fn config_path() -> (r: Result<PathBuf, ConfigError>)
        ensures
            r is Err ==> r == Err::<PathBuf, ConfigError>(ConfigError::NoConfigDir),
            r matches Ok(p) ==> exists|d: ProjectDirs|
                dirs_for(d, "openrec"@) && p == joined(config_dir_of(d), "config.json"@),
    {
        let dirs = project_dirs();
        let ghost g = dirs;
        let r = Self::config_path_in(dirs);
        proof {
            if let Some(d) = g {
                assert(dirs_for(d, "openrec"@) && r == Ok::<PathBuf, ConfigError>(
                    joined(config_dir_of(d), "config.json"@),
                ));
            }
        }
        r
    }
}

} // verus!

use vstd::prelude::*;

use crate::commandline::{command_of, CommandlineBuilder, CommandlineView, upper_of};
use crate::shortcut::{shortcut_app_id, ShortcutInfo};

verus! {

/// A game installed through the Heroic launcher.
#[derive(Clone, Debug)]
pub struct HeroicGame {
    pub app_name: String,
    pub title: String,
    pub is_dlc: bool,
    pub install_path: String,
    pub executable: String,
    pub launch_parameters: String,
}

/// The per-game settings that Heroic keeps.
#[derive(Clone, Debug)]
pub struct HeroicGameExtended {
    pub audio_fix: Option<bool>,
    pub auto_sync_saves: Option<bool>,
    pub saves_path: Option<String>,
    pub enable_esync: Option<bool>,
    pub enable_fsync: Option<bool>,
    pub enable_fsr: Option<bool>,
    pub max_sharpness: Option<String>,
    pub enable_resizable_bar: Option<bool>,
    pub nvidia_prime: Option<bool>,
    pub offline_mode: Option<bool>,
    pub show_fps: Option<bool>,
    pub show_mangehud: Option<bool>,
    pub use_game_mode: Option<bool>,
    pub launcher_args: Option<String>,
    pub other_options: Option<String>,
    pub target_exe: Option<String>,
    pub use_steam_runtime: Option<bool>,
    pub wine_prefix: Option<String>,
    pub wine_version: Option<WineVersion>,
    pub alt_legendary_bin: Option<String>,
    pub alt_gogdl_bin: Option<String>,
    pub egs_linked_path: Option<String>,
    pub max_recent_games: Option<usize>,
    pub check_update_interval: Option<usize>,
    pub enable_udates: Option<bool>,
    pub app_name: Option<String>,
}

/// The Wine build a game runs under.
#[derive(Clone, Debug)]
pub struct WineVersion {
    pub bin: Option<String>,
    pub name: Option<String>,
    pub wine_type: Option<String>,
}

/// The store a Heroic game comes from.
#[derive(Clone, Copy, Debug, PartialEq, Eq, Structural)]
pub enum GameType {
    Epic,
    Gog,
}

/// An unset switch counts as off.
pub open spec fn on(o: Option<bool>) -> bool {
    o == Some(true)
}

fn is_on(o: Option<bool>) -> (r: bool)
    ensures
        r == on(o),
{
    match o {
        Some(b) => b,
        None => false,
    }
}

#[verifier::opaque]
pub open spec fn push_if(s: Seq<Seq<char>>, c: bool, x: Seq<char>) -> Seq<Seq<char>> {
    if c {
        s.push(x)
    } else {
        s
    }
}

pub open spec fn assignment(name: Seq<char>, value: Seq<char>) -> Seq<char> {
    upper_of(name) + "="@ + value
}

pub open spec fn fsr_on(g: HeroicGameExtended) -> bool {
    on(g.enable_fsr) && g.max_sharpness.is_some()
}

/// `e` followed by the assignments for sound, synchronisation primitives and
/// upscaling that the settings call for.
pub open spec fn sync_environment(e: Seq<Seq<char>>, g: HeroicGameExtended) -> Seq<Seq<char>> {
    let e = push_if(e, on(g.audio_fix), assignment("PULSE_LATENCY_MSEC"@, "60"@));
    let e = push_if(e, on(g.enable_esync), assignment("WINEESYNC"@, "1"@));
    let e = push_if(e, on(g.enable_fsync), assignment("WINEFSYNC"@, "1"@));
    let e = push_if(e, fsr_on(g), assignment("WINE_FULLSCREEN_FSR"@, "1"@));
    push_if(e, fsr_on(g), assignment("WINE_FULLSCREEN_FSR_STRENGTH"@, g.max_sharpness.unwrap()@))
}

/// `e` followed by the assignments for the graphics driver that the settings
/// call for.
pub open spec fn driver_environment(e: Seq<Seq<char>>, g: HeroicGameExtended) -> Seq<Seq<char>> {
    let e = push_if(e, on(g.enable_resizable_bar), assignment("VKD3D_CONFIG"@, "upload_hvv"@));
    let e = push_if(e, on(g.nvidia_prime), assignment("DRI_PRIME"@, "1"@));
    let e = push_if(e, on(g.nvidia_prime), assignment("__NV_PRIME_RENDER_OFFLOAD"@, "1"@));
    push_if(e, on(g.nvidia_prime), assignment("__GLX_VENDOR_LIBRARY_NAMEDRI_PRIME"@, "1"@))
}

/// The environment assignments that the settings call for, in order.
pub open spec fn launch_environment(g: HeroicGameExtended) -> Seq<Seq<char>> {
    push_if(
        driver_environment(sync_environment(seq![], g), g),
        on(g.show_fps),
        assignment("DXVK_HUD"@, "fps"@),
    )
}

/// The wrapper commands that the settings call for, in order.
pub open spec fn launch_prefix(g: HeroicGameExtended) -> Seq<Seq<char>> {
    let p = push_if(seq![], on(g.show_mangehud), "mangohud"@);
    let p = push_if(p, on(g.show_mangehud), "--dlsym"@);
    let p = push_if(p, on(g.use_game_mode), "mangohud"@);
    push_if(p, on(g.use_game_mode), "--dlsym"@)
}

/// The command line parts that the settings call for; there is no executable.
pub open spec fn launch_view(g: HeroicGameExtended) -> CommandlineView {
    CommandlineView {
        environment_variables: launch_environment(g),
        executable: seq![],
        parameters: push_if(seq![], on(g.offline_mode), "--offline"@),
        pre_parameters: launch_prefix(g),
    }
}

/// Saves are synced when the game asks for it and names a save path.
pub open spec fn syncs_saves(g: HeroicGameExtended) -> bool {
    on(g.auto_sync_saves) && g.saves_path.is_some()
}

/// The parts of the save-sync command run with `binary`; empty when saves
/// are not synced.
pub open spec fn cloud_sync_view(g: HeroicGameExtended, binary: Seq<char>) -> CommandlineView {
    if syncs_saves(g) {
        CommandlineView {
            environment_variables: seq![],
            executable: binary,
            parameters: seq![
                "--skip-upload"@,
                "--save-path"@,
                "'"@ + g.saves_path.unwrap()@ + "'"@,
                "'"@ + g.app_name.unwrap()@ + "'"@,
                "-y"@,
            ],
            pre_parameters: seq![],
        }
    } else {
        CommandlineView {
            environment_variables: seq![],
            executable: seq![],
            parameters: seq![],
            pre_parameters: seq![],
        }
    }
}

fn env_if(b: &mut CommandlineBuilder, c: bool, name: &str, value: &str)
    ensures
        final(b)@.environment_variables == push_if(
            old(b)@.environment_variables,
            c,
            assignment(name@, value@),
        ),
        final(b)@.executable == old(b)@.executable,
        final(b)@.parameters == old(b)@.parameters,
        final(b)@.pre_parameters == old(b)@.pre_parameters,
{
    reveal(push_if);
    if c {
        b.add_environment_variable(name, value);
    }
}

fn pre_if(b: &mut CommandlineBuilder, c: bool, parameter: &str)
    ensures
        final(b)@.pre_parameters == push_if(old(b)@.pre_parameters, c, parameter@),
        final(b)@.environment_variables == old(b)@.environment_variables,
        final(b)@.executable == old(b)@.executable,
        final(b)@.parameters == old(b)@.parameters,
{
    reveal(push_if);
    if c {
        b.add_pre_parameter(parameter);
    }
}

fn add_sync_environment(b: &mut CommandlineBuilder, g: &HeroicGameExtended)
    ensures
        final(b)@.environment_variables == sync_environment(old(b)@.environment_variables, *g),
        final(b)@.executable == old(b)@.executable,
        final(b)@.parameters == old(b)@.parameters,
        final(b)@.pre_parameters == old(b)@.pre_parameters,
{
    let fsr = is_on(g.enable_fsr) && g.max_sharpness.is_some();
    env_if(b, is_on(g.audio_fix), "PULSE_LATENCY_MSEC", "60");
    env_if(b, is_on(g.enable_esync), "WINEESYNC", "1");
    env_if(b, is_on(g.enable_fsync), "WINEFSYNC", "1");
    env_if(b, fsr, "WINE_FULLSCREEN_FSR", "1");
    match &g.max_sharpness {
        Some(sharpness) => env_if(b, fsr, "WINE_FULLSCREEN_FSR_STRENGTH", sharpness.as_str()),
        None => {
            reveal(push_if);
        },
    }
}

fn add_driver_environment(b: &mut CommandlineBuilder, g: &HeroicGameExtended)
    ensures
        final(b)@.environment_variables == driver_environment(old(b)@.environment_variables, *g),
        final(b)@.executable == old(b)@.executable,
        final(b)@.parameters == old(b)@.parameters,
        final(b)@.pre_parameters == old(b)@.pre_parameters,
{
    env_if(b, is_on(g.enable_resizable_bar), "VKD3D_CONFIG", "upload_hvv");
    let prime = is_on(g.nvidia_prime);
    env_if(b, prime, "DRI_PRIME", "1");
    env_if(b, prime, "__NV_PRIME_RENDER_OFFLOAD", "1");
    env_if(b, prime, "__GLX_VENDOR_LIBRARY_NAMEDRI_PRIME", "1");
}

impl HeroicGameExtended {
    /// The launch options for the game's settings: environment assignments,
    /// wrapper commands and parameters. `game_type` does not change them.
    pub fn generate_launch_parameters(&self, game_type: &GameType) -> (r: String)
        ensures
            r@ == command_of(launch_view(*self)),
    {
        let mut builder = CommandlineBuilder::new();
        assert(builder@.environment_variables =~= seq![]);
        assert(builder@.pre_parameters =~= seq![]);
        add_sync_environment(&mut builder, self);
        add_driver_environment(&mut builder, self);
        if is_on(self.offline_mode) {
            builder.add_parameter("--offline");
        }
        proof {
            reveal(push_if);
        }
        assert(builder@.parameters =~= launch_view(*self).parameters);
        env_if(&mut builder, is_on(self.show_fps), "DXVK_HUD", "fps");
        let mango = is_on(self.show_mangehud);
        pre_if(&mut builder, mango, "mangohud");
        pre_if(&mut builder, mango, "--dlsym");
        let game_mode = is_on(self.use_game_mode);
        pre_if(&mut builder, game_mode, "mangohud");
        pre_if(&mut builder, game_mode, "--dlsym");
        assert(builder@.executable =~= launch_view(*self).executable);
        assert(builder@ == launch_view(*self));
        builder.build_command()
    }

    /// The command that syncs the game's saves through `binary` before it
    /// starts; only separators when saves are not synced.
    pub fn cloud_sync_command(&self, binary: &str) -> (r: String)
        requires
            syncs_saves(*self) ==> self.app_name.is_some(),
        ensures
            r@ == command_of(cloud_sync_view(*self, binary@)),
    {
        let mut builder = CommandlineBuilder::new();
        if is_on(self.auto_sync_saves) {
            if let Some(saves_path) = &self.saves_path {
                builder.set_executable(binary);
                builder.add_parameter("--skip-upload");
                builder.add_parameter("--save-path");
                builder.add_parameter_path(saves_path.as_str());
                match &self.app_name {
                    Some(app_name) => builder.add_parameter_path(app_name.as_str()),
                    None => {},
                }
                builder.add_parameter("-y");
            }
        }
        assert(builder@.environment_variables =~= cloud_sync_view(*self, binary@).environment_variables);
        assert(builder@.pre_parameters =~= cloud_sync_view(*self, binary@).pre_parameters);
        assert(builder@.parameters =~= cloud_sync_view(*self, binary@).parameters);
        assert(builder@.executable =~= cloud_sync_view(*self, binary@).executable);
        builder.build_command()
    }
}

/// The path `child` under `base`, as `Path::join` forms it.
pub uninterp spec fn joined_path(base: Seq<char>, child: Seq<char>) -> Seq<char>;

/// Relies on `Path::join` (then `to_string_lossy`, which is exact on text
/// that came from a `str`): the path `child` under `base`.
#[verifier::external_body]
pub(crate) fn join_path(base: &str, child: &str) -> (r: String)
    ensures
        r@ == joined_path(base@, child@),
{
    std::path::Path::new(base).join(child).to_string_lossy().to_string()
}

/// `s` in double quotes, unless it already starts or ends with one.
pub open spec fn quoted(s: Seq<char>) -> Seq<char> {
    if (s.len() > 0 && s[0] == '"') || (s.len() > 0 && s.last() == '"') {
        s
    } else {
        "\""@ + s + "\""@
    }
}

fn quote(s: String) -> (r: String)
    ensures
        r@ == quoted(s@),
{
    let n = s.as_str().unicode_len();
    if n > 0 && (s.as_str().get_char(0) == '"' || s.as_str().get_char(n - 1) == '"') {
        s
    } else {
        let mut r = String::from_str("\"");
        r.append(s.as_str());
        r.append("\"");
        r
    }
}

/// The executable of `g`, under its install directory.
pub open spec fn heroic_target(g: HeroicGame) -> Seq<char> {
    joined_path(g.install_path@, g.executable@)
}

pub open spec fn heroic_tags() -> Seq<Seq<char>> {
    seq!["Heroic"@, "Ready TO Play"@, "Installed"@]
}

impl HeroicGame {
    /// The path of the game's executable; the game counts as installed when
    /// a file is there.
    pub fn install_target(&self) -> (r: String)
        ensures
            r@ == heroic_target(*self),
    {
        join_path(self.install_path.as_str(), self.executable.as_str())
    }

    /// The Steam shortcut that starts the game: the quoted executable as
    /// target and icon, the quoted install directory as start directory, and
    /// the Heroic tags.
    pub fn to_shortcut(&self) -> (r: ShortcutInfo)
        ensures
            r@.app_id == shortcut_app_id(quoted(heroic_target(*self)), self.title@),
            r@.app_name == self.title@,
            r@.exe == quoted(heroic_target(*self)),
            r@.start_dir == quoted(self.install_path@),
            r@.icon == quoted(heroic_target(*self)),
            r@.launch_options == self.launch_parameters@,
            r@.tags == heroic_tags(),
    {
        let target = quote(self.install_target());
        let install_path = quote(self.install_path.clone());
        let mut shortcut = ShortcutInfo::new(
            self.title.as_str(),
            target.as_str(),
            install_path.as_str(),
            target.as_str(),
            self.launch_parameters.as_str(),
        );
        shortcut.tags.push(String::from_str("Heroic"));
        shortcut.tags.push(String::from_str("Ready TO Play"));
        shortcut.tags.push(String::from_str("Installed"));
        assert(shortcut@.tags =~= heroic_tags());
        shortcut
    }
}

} // verus!

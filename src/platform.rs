use vstd::prelude::*;

verus! {

/// The launcher a game was discovered through.
#[derive(Clone, Copy, Debug, PartialEq, Eq, Structural)]
pub enum PlatformType {
    Amazon,
    EpicGames,
    Flatpak,
    Gog,
    Heroic,
    Itch,
    Legendary,
    Lutris,
    Origin,
    UPlay,
    Unknown,
}

pub open spec fn platform_name(p: PlatformType) -> Seq<char> {
    match p {
        PlatformType::Amazon => "Amazon"@,
        PlatformType::EpicGames => "EpicGames"@,
        PlatformType::Flatpak => "Flatpak"@,
        PlatformType::Gog => "Gog"@,
        PlatformType::Heroic => "Heroic"@,
        PlatformType::Itch => "Itch"@,
        PlatformType::Legendary => "Legendary"@,
        PlatformType::Lutris => "Lutris"@,
        PlatformType::Origin => "Origin"@,
        PlatformType::UPlay => "UPlay"@,
        PlatformType::Unknown => "Unknown"@,
    }
}

impl PlatformType {
    /// The display name of the launcher.
    pub fn name(&self) -> (r: &'static str)
        ensures
            r@ == platform_name(*self),
    {
        match self {
            PlatformType::Amazon => "Amazon",
            PlatformType::EpicGames => "EpicGames",
            PlatformType::Flatpak => "Flatpak",
            PlatformType::Gog => "Gog",
            PlatformType::Heroic => "Heroic",
            PlatformType::Itch => "Itch",
            PlatformType::Legendary => "Legendary",
            PlatformType::Lutris => "Lutris",
            PlatformType::Origin => "Origin",
            PlatformType::UPlay => "UPlay",
            PlatformType::Unknown => "Unknown",
        }
    }
}

/// The logo file of each launcher that has one, under the resources folder.
pub open spec fn platform_logo(p: PlatformType) -> Option<Seq<char>> {
    match p {
        PlatformType::Amazon => Some("platformlogos/amazon.png"@),
        PlatformType::EpicGames => Some("platformlogos/epic.png"@),
        PlatformType::Flatpak => Some("platformlogos/Flatpak_logo.png"@),
        PlatformType::Gog => Some("platformlogos/gog.png"@),
        PlatformType::Heroic => Some("platformlogos/heroic.png"@),
        PlatformType::Itch => Some("platformlogos/itchio.png"@),
        PlatformType::Origin => Some("platformlogos/origin.png"@),
        _ => None,
    }
}

impl PlatformType {
    /// The launcher's logo file, under the resources folder, if it has one.
    pub fn logo(&self) -> (r: Option<&'static str>)
        ensures
            r.is_some() == platform_logo(*self).is_some(),
            r.is_some() ==> r.unwrap()@ == platform_logo(*self).unwrap(),
    {
        match self {
            PlatformType::Amazon => Some("platformlogos/amazon.png"),
            PlatformType::EpicGames => Some("platformlogos/epic.png"),
            PlatformType::Flatpak => Some("platformlogos/Flatpak_logo.png"),
            PlatformType::Gog => Some("platformlogos/gog.png"),
            PlatformType::Heroic => Some("platformlogos/heroic.png"),
            PlatformType::Itch => Some("platformlogos/itchio.png"),
            PlatformType::Origin => Some("platformlogos/origin.png"),
            _ => None,
        }
    }
}

/// Whether a launcher's settings can be used.
pub enum SettingsValidity {
    Valid,
    Invalid { reason: String },
}

/// How a launcher presents itself.
#[derive(Clone, Copy)]
pub struct PlatformInfo {
    pub name: &'static str,
    pub icon: Option<&'static [u8]>,
}

/// A source of games: one launcher, whose games of type `T` become
/// shortcuts.
pub trait Platform<T, E> {
    /// The user has switched the launcher on.
    fn enabled(&self) -> bool;

    /// The games that the launcher has installed.
    fn get_shortcuts(&self) -> Result<Vec<T>, E>;

    /// Whether the launcher's settings can be used.
    fn settings_valid(&self) -> SettingsValidity;

    /// Symbolic links are made for the launcher's games.
    fn create_symlinks(&self) -> bool;

    /// The game needs Proton to run.
    fn needs_proton(&self, input: &T) -> bool;

    /// The launcher's name and icon.
    fn info(&self) -> PlatformInfo;

    /// Which launcher this is.
    fn platform_type(&self) -> PlatformType;
}

} // verus!

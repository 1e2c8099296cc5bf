use vstd::prelude::*;

use crate::artwork::{artwork_stem, ImageType};
use crate::heroic::{join_path, joined_path};

verus! {

/// Whose artwork the browser shows.
#[derive(Clone, Copy, Debug, PartialEq, Eq, Structural)]
pub enum GameMode {
    Shortcuts,
    SteamGames,
}

pub open spec fn game_mode_label(m: GameMode) -> Seq<char> {
    match m {
        GameMode::Shortcuts => "Images for shortcuts"@,
        GameMode::SteamGames => "Images for steam games"@,
    }
}

impl GameMode {
    /// The browser shows shortcuts.
    pub fn is_shortcuts(&self) -> (r: bool)
        ensures
            r == (*self == GameMode::Shortcuts),
    {
        match self {
            GameMode::Shortcuts => true,
            GameMode::SteamGames => false,
        }
    }

    /// The caption of the mode.
    pub fn label(&self) -> (r: &'static str)
        ensures
            r@ == game_mode_label(*self),
    {
        match self {
            GameMode::Shortcuts => "Images for shortcuts",
            GameMode::SteamGames => "Images for steam games",
        }
    }
}

/// What the back button undoes, innermost first.
#[derive(Clone, Copy, Debug, PartialEq, Eq, Structural)]
pub enum BackStep {
    /// Close the list of candidate names.
    CloseNames,
    /// Leave the chosen artwork category.
    CloseImageType,
    /// Leave the chosen game.
    CloseGame,
    /// Leave the user, forgetting the loaded artwork.
    LeaveUser,
}

/// The step the back button takes from a browser that shows candidate names,
/// a chosen category, a chosen game, in that order of precedence.
pub fn back_step(names_shown: bool, image_type_selected: bool, game_selected: bool) -> (r: BackStep)
    ensures
        r == (if names_shown {
            BackStep::CloseNames
        } else if image_type_selected {
            BackStep::CloseImageType
        } else if game_selected {
            BackStep::CloseGame
        } else {
            BackStep::LeaveUser
        }),
{
    if names_shown {
        BackStep::CloseNames
    } else if image_type_selected {
        BackStep::CloseImageType
    } else if game_selected {
        BackStep::CloseGame
    } else {
        BackStep::LeaveUser
    }
}

/// The file extensions that artwork may have, in order of preference.
pub open spec fn extensions() -> Seq<Seq<char>> {
    seq!["png"@, "jpg"@, "ico"@, "webp"@]
}

/// The extensions that artwork may have.
pub fn possible_extensions() -> (r: Vec<&'static str>)
    ensures
        r@.map_values(|e: &str| e@) == extensions(),
{
    let r = vec!["png", "jpg", "ico", "webp"];
    assert(r@.map_values(|e: &str| e@) =~= extensions());
    r
}

/// `s` ends with `suffix`.
pub open spec fn ends_with(s: Seq<char>, suffix: Seq<char>) -> bool {
    s.len() >= suffix.len() && s.subrange(s.len() - suffix.len(), s.len() as int) == suffix
}

fn str_ends_with(s: &str, suffix: &str) -> (r: bool)
    ensures
        r == ends_with(s@, suffix@),
{
    let n = s.unicode_len();
    let m = suffix.unicode_len();
    if n < m {
        return false;
    }
    let mut i: usize = 0;
    while i < m
        invariant
            n == s@.len(),
            m == suffix@.len(),
            m <= n,
            i <= m,
            forall|k: int| 0 <= k < i ==> s@[n - m + k] == suffix@[k],
        decreases m - i,
    {
        if s.get_char(n - m + i) != suffix.get_char(i) {
            assert(s@.subrange(n - m, n as int)[i as int] != suffix@[i as int]);
            return false;
        }
        i += 1;
    }
    assert(s@.subrange(n - m, n as int) =~= suffix@);
    true
}

/// The extension under which artwork fetched from `url` is stored: the
/// first of the possible extensions that the address ends with, after a
/// dot; `png` when none does.
pub open spec fn extension_for(url: Seq<char>) -> Seq<char> {
    if ends_with(url, ".png"@) {
        "png"@
    } else if ends_with(url, ".jpg"@) {
        "jpg"@
    } else if ends_with(url, ".ico"@) {
        "ico"@
    } else if ends_with(url, ".webp"@) {
        "webp"@
    } else {
        "png"@
    }
}

/// The extension under which artwork fetched from `url` is stored.
pub fn extension_for_url(url: &str) -> (r: &'static str)
    ensures
        r@ == extension_for(url@),
{
    if str_ends_with(url, ".png") {
        "png"
    } else if str_ends_with(url, ".jpg") {
        "jpg"
    } else if str_ends_with(url, ".ico") {
        "ico"
    } else if str_ends_with(url, ".webp") {
        "webp"
    } else {
        "png"
    }
}

/// The path of the artwork of type `t` for game `app_id` with extension
/// `ext`, under the user folder `user_path`.
pub open spec fn artwork_path_spec(user_path: Seq<char>, t: ImageType, app_id: u32, ext: Seq<char>) -> Seq<char> {
    joined_path(
        joined_path(joined_path(user_path, "config"@), "grid"@),
        artwork_stem(t, app_id) + "."@ + ext,
    )
}

/// The path of an artwork file in the user's grid folder.
pub fn artwork_path(user_path: &str, t: ImageType, app_id: u32, ext: &str) -> (r: String)
    ensures
        r@ == artwork_path_spec(user_path@, t, app_id, ext@),
{
    let config = join_path(user_path, "config");
    let grid = join_path(config.as_str(), "grid");
    let name = t.file_name(app_id, ext);
    join_path(grid.as_str(), name.as_str())
}

/// Which of the candidate files of one artwork slot stands for it, given
/// which of them exist: the first existing one after the first candidate,
/// else the first candidate.
pub fn pick_candidate(exists: &Vec<bool>) -> (r: usize)
    requires
        exists@.len() > 0,
    ensures
        r < exists@.len(),
        r == 0 ==> forall|i: int| 1 <= i < exists@.len() ==> !exists@[i],
        r > 0 ==> exists@[r as int] && forall|i: int| 1 <= i < r ==> !exists@[i],
{
    let mut i: usize = 1;
    while i < exists.len()
        invariant
            1 <= i <= exists.len(),
            forall|k: int| 1 <= k < i ==> !exists@[k],
        decreases exists.len() - i,
    {
        if exists[i] {
            return i;
        }
        i += 1;
    }
    0
}

} // verus!

use vstd::prelude::*;

verus! {

/// A Steam shortcut: what Steam launches for a non-Steam game.
#[derive(Clone, Debug)]
pub struct ShortcutInfo {
    pub app_id: u32,
    pub app_name: String,
    pub exe: String,
    pub start_dir: String,
    pub icon: String,
    pub launch_options: String,
    pub tags: Vec<String>,
}

/// What a shortcut holds, as mathematical values.
pub struct ShortcutView {
    pub app_id: u32,
    pub app_name: Seq<char>,
    pub exe: Seq<char>,
    pub start_dir: Seq<char>,
    pub icon: Seq<char>,
    pub launch_options: Seq<char>,
    pub tags: Seq<Seq<char>>,
}

impl View for ShortcutInfo {
    type V = ShortcutView;

    open spec fn view(&self) -> ShortcutView {
        ShortcutView {
            app_id: self.app_id,
            app_name: self.app_name@,
            exe: self.exe@,
            start_dir: self.start_dir@,
            icon: self.icon@,
            launch_options: self.launch_options@,
            tags: self.tags@.map_values(|t: String| t@),
        }
    }
}

/// The id that Steam derives for a shortcut from its target and its name.
pub uninterp spec fn shortcut_app_id(exe: Seq<char>, app_name: Seq<char>) -> u32;

/// Relies on `steam_shortcuts_util::calculate_app_id`: a checksum of the
/// target followed by the name, with the top bit set.
#[verifier::external_body]
fn calculate_app_id(exe: &str, app_name: &str) -> (r: u32)
    ensures
        r == shortcut_app_id(exe@, app_name@),
        r >= 0x8000_0000,
{
    steam_shortcuts_util::app_id_generator::calculate_app_id(exe, app_name)
}

/// A copy of a list of strings.
pub fn clone_strings(v: &Vec<String>) -> (r: Vec<String>)
    ensures
        r@ == v@,
{
    let mut r: Vec<String> = Vec::new();
    let mut i: usize = 0;
    while i < v.len()
        invariant
            i <= v.len(),
            r@ == v@.take(i as int),
        decreases v.len() - i,
    {
        r.push(v[i].clone());
        i += 1;
        assert(r@ =~= v@.take(i as int));
    }
    assert(r@ =~= v@);
    r
}

impl ShortcutInfo {
    /// A shortcut whose id is derived from its target and name, as Steam does.
    pub fn new(
        app_name: &str,
        exe: &str,
        start_dir: &str,
        icon: &str,
        launch_options: &str,
    ) -> (r: ShortcutInfo)
        ensures
            r.app_id == shortcut_app_id(exe@, app_name@),
            r.app_name@ == app_name@,
            r.exe@ == exe@,
            r.start_dir@ == start_dir@,
            r.icon@ == icon@,
            r.launch_options@ == launch_options@,
            r.tags@.len() == 0,
    {
        ShortcutInfo {
            app_id: calculate_app_id(exe, app_name),
            app_name: String::from_str(app_name),
            exe: String::from_str(exe),
            start_dir: String::from_str(start_dir),
            icon: String::from_str(icon),
            launch_options: String::from_str(launch_options),
            tags: Vec::new(),
        }
    }

    /// A field-by-field copy.
    pub fn cloned(&self) -> (r: ShortcutInfo)
        ensures
            r@ == self@,
    {
        ShortcutInfo {
            app_id: self.app_id,
            app_name: self.app_name.clone(),
            exe: self.exe.clone(),
            start_dir: self.start_dir.clone(),
            icon: self.icon.clone(),
            launch_options: self.launch_options.clone(),
            tags: clone_strings(&self.tags),
        }
    }
}

} // verus!

use boilr::platform::PlatformType;
use boilr::reconcile::{reconcile, IdentityIndex, SyncActions};
use boilr::shortcut::ShortcutInfo;

fn shortcut(id: u32, name: &str, exe: &str, options: &str) -> ShortcutInfo {
    ShortcutInfo {
        app_id: id,
        app_name: name.to_string(),
        exe: exe.to_string(),
        start_dir: String::new(),
        icon: String::new(),
        launch_options: options.to_string(),
        tags: vec![],
    }
}

fn ids(v: &[(PlatformType, ShortcutInfo)]) -> Vec<u32> {
    v.iter().map(|(_, s)| s.app_id).collect()
}

fn all_artwork(id: u32) -> Vec<String> {
    vec![
        format!("{}p", id),
        format!("{}", id),
        format!("{}_hero", id),
        format!("{}_logo", id),
        format!("{}_icon", id),
    ]
}

#[test]
fn new_game_is_added() {
    let discovered = vec![(PlatformType::Heroic, shortcut(100, "Hades", "hades", ""))];
    let index = IdentityIndex::build(&discovered);
    let actions = reconcile(&index, &vec![], &vec![]);
    assert_eq!(ids(&actions.add), vec![100]);
    assert_eq!(actions.add[0].1.app_name, "Hades");
    assert!(actions.update.is_empty());
    assert!(actions.delete.is_empty());
    assert!(actions.image_download.is_empty());
    assert!(actions.none.is_empty());
}

#[test]
fn missing_hero_needs_images() {
    let discovered = vec![(PlatformType::Gog, shortcut(100, "Hades", "hades", ""))];
    let existing = vec![shortcut(100, "Hades", "hades", "")];
    let known: Vec<String> = all_artwork(100).into_iter().filter(|k| k != "100_hero").collect();
    let index = IdentityIndex::build(&discovered);
    let actions = reconcile(&index, &existing, &known);
    assert_eq!(ids(&actions.image_download), vec![100]);
    assert_eq!(actions.image_download[0].0, PlatformType::Gog);
    assert!(actions.add.is_empty());
    assert!(actions.none.is_empty());
}

#[test]
fn complete_artwork_is_untouched() {
    let discovered = vec![(PlatformType::Gog, shortcut(100, "Hades", "hades", ""))];
    let existing = vec![shortcut(100, "Hades", "hades", "")];
    let index = IdentityIndex::build(&discovered);
    let actions = reconcile(&index, &existing, &all_artwork(100));
    assert_eq!(ids(&actions.none), vec![100]);
    assert!(actions.image_download.is_empty());
}

#[test]
fn vanished_game_is_deleted() {
    let index = IdentityIndex::build(&vec![]);
    let existing = vec![shortcut(200, "Old", "old", "")];
    let actions = reconcile(&index, &existing, &vec![]);
    assert_eq!(ids(&actions.delete), vec![200]);
    assert_eq!(actions.delete[0].0, PlatformType::Unknown);
    assert!(actions.add.is_empty());
    assert!(actions.image_download.is_empty());
    assert!(actions.none.is_empty());
}

#[test]
fn changed_launch_options_update() {
    let discovered = vec![(PlatformType::Lutris, shortcut(7, "G", "g", "--new"))];
    let existing = vec![shortcut(7, "G", "g", "--old")];
    let index = IdentityIndex::build(&discovered);
    let actions = reconcile(&index, &existing, &all_artwork(7));
    assert_eq!(ids(&actions.update), vec![7]);
    assert_eq!(actions.update[0].1.launch_options, "--new");
}

#[test]
fn later_platform_wins_for_same_id() {
    let discovered = vec![
        (PlatformType::EpicGames, shortcut(5, "First", "a", "")),
        (PlatformType::Gog, shortcut(6, "Other", "b", "")),
        (PlatformType::Heroic, shortcut(5, "Second", "c", "")),
    ];
    let index = IdentityIndex::build(&discovered);
    let actions = reconcile(&index, &vec![], &vec![]);
    assert_eq!(ids(&actions.add), vec![5, 6]);
    assert_eq!(actions.add[0].0, PlatformType::Heroic);
    assert_eq!(actions.add[0].1.app_name, "Second");
    assert_eq!(index.find(6), Some(1));
    assert_eq!(index.find(9), None);
}

#[test]
fn buckets_partition_ids() {
    let discovered = vec![
        (PlatformType::Gog, shortcut(1, "a", "a", "")),
        (PlatformType::Gog, shortcut(2, "b", "b", "")),
        (PlatformType::Gog, shortcut(3, "c", "c", "x")),
        (PlatformType::Gog, shortcut(4, "d", "d", "")),
    ];
    let existing = vec![
        shortcut(2, "b", "b", ""),
        shortcut(3, "c", "c", "y"),
        shortcut(4, "d", "d", ""),
        shortcut(5, "e", "e", ""),
        shortcut(5, "e", "e", ""),
    ];
    let index = IdentityIndex::build(&discovered);
    let actions = reconcile(&index, &existing, &all_artwork(4));
    let lists = [
        ids(&actions.add),
        ids(&actions.update),
        ids(&actions.delete),
        ids(&actions.image_download),
        ids(&actions.none),
    ];
    assert_eq!(lists, [vec![1], vec![3], vec![5, 5], vec![2], vec![4]]);
    let mut all: Vec<u32> = lists.concat();
    all.sort();
    all.dedup();
    assert_eq!(all, vec![1, 2, 3, 4, 5]);
}

#[test]
fn reconcile_twice_same_result() {
    let discovered = vec![
        (PlatformType::Itch, shortcut(1, "a", "a", "")),
        (PlatformType::Itch, shortcut(2, "b", "b", "")),
    ];
    let existing = vec![shortcut(2, "b", "b", ""), shortcut(9, "z", "z", "")];
    let index = IdentityIndex::build(&discovered);
    let first = reconcile(&index, &existing, &vec![]);
    let second = reconcile(&index, &existing, &vec![]);
    let key = |a: &SyncActions<(PlatformType, ShortcutInfo)>| {
        [&a.add, &a.update, &a.delete, &a.image_download, &a.none]
            .iter()
            .map(|v| v.iter().map(|(p, s)| (*p, s.app_id, s.app_name.clone())).collect::<Vec<_>>())
            .collect::<Vec<_>>()
    };
    assert_eq!(key(&first), key(&second));
}

#[test]
fn empty_sync_actions() {
    let a: SyncActions<u32> = SyncActions::new();
    assert!(a.add.is_empty() && a.update.is_empty() && a.delete.is_empty());
    assert!(a.image_download.is_empty() && a.none.is_empty());
}

#[test]
fn shortcut_id_is_derived() {
    let a = ShortcutInfo::new("Game", "/bin/game", "/bin", "", "");
    let b = ShortcutInfo::new("Game", "/bin/game", "/tmp", "icon", "-x");
    let c = ShortcutInfo::new("Other", "/bin/game", "/bin", "", "");
    assert!(a.app_id >= 0x8000_0000);
    assert_eq!(a.app_id, b.app_id);
    assert_ne!(a.app_id, c.app_id);
    assert_eq!(a.exe, "/bin/game");
    let copy = a.cloned();
    assert_eq!(copy.app_id, a.app_id);
    assert_eq!(copy.app_name, "Game");
}

#[test]
fn actions_applied_to_store() {
    let discovered = vec![
        (PlatformType::Gog, shortcut(1, "new", "n", "")),
        (PlatformType::Gog, shortcut(2, "kept", "k", "")),
        (PlatformType::Gog, shortcut(3, "changed", "c", "--v2")),
    ];
    let existing = vec![
        shortcut(9, "gone", "g", ""),
        shortcut(2, "kept", "k", ""),
        shortcut(3, "changed", "c", "--v1"),
    ];
    let index = IdentityIndex::build(&discovered);
    let actions = reconcile(&index, &existing, &vec![]);
    let written = boilr::sync::apply_actions(&existing, &actions);
    let summary: Vec<(u32, String)> = written.iter().map(|s| (s.app_id, s.launch_options.clone())).collect();
    assert_eq!(summary, vec![(2, String::new()), (3, "--v2".to_string()), (1, String::new())]);
}

#[test]
fn sync_actions_from_discovery() {
    let discovered = vec![
        (PlatformType::Gog, shortcut(100, "Hades", "h", "")),
        (PlatformType::Itch, shortcut(100, "Hades", "h", "")),
    ];
    let existing = vec![shortcut(100, "Hades", "h", ""), shortcut(200, "Gone", "g", "")];
    let actions = boilr::reconcile::get_sync_actions(&discovered, &existing, &all_artwork(100));
    assert_eq!(ids(&actions.none), vec![100]);
    assert_eq!(actions.none[0].0, PlatformType::Itch);
    assert_eq!(ids(&actions.delete), vec![200]);
    assert!(actions.add.is_empty());
}

#[test]
fn every_duplicate_shortcut_is_listed() {
    let index = IdentityIndex::build(&vec![]);
    let existing = vec![shortcut(200, "a", "a", ""), shortcut(200, "b", "b", "")];
    let actions = reconcile(&index, &existing, &vec![]);
    assert_eq!(ids(&actions.delete), vec![200, 200]);
    assert_eq!(actions.delete[1].1.app_name, "b");
}

#[test]
fn duplicates_of_a_changed_shortcut_all_update() {
    let discovered = vec![(PlatformType::Gog, shortcut(8, "g", "g", "--new"))];
    let existing = vec![shortcut(8, "g", "g", "--new"), shortcut(8, "g", "g", "--old")];
    let index = IdentityIndex::build(&discovered);
    let actions = reconcile(&index, &existing, &all_artwork(8));
    assert_eq!(ids(&actions.update), vec![8, 8]);
    assert!(actions.none.is_empty());
}

use boilr::artwork::{artwork_complete, ImageType};
use boilr::browse::{artwork_path, back_step, pick_candidate, possible_extensions, BackStep, GameMode};
use boilr::commandline::{join, CommandlineBuilder};
use boilr::fetch::{all_ready, get_all_games, FetcStatus, FetchStatus};
use boilr::heroic::{GameType, HeroicGame, HeroicGameExtended};
use boilr::platform::PlatformType;
use boilr::progress::SyncProgress;
use boilr::renames::{display_name, set_rename, toggle_blacklisted};
use boilr::shortcut::ShortcutInfo;
use std::collections::HashMap;

fn settings() -> HeroicGameExtended {
    HeroicGameExtended {
        audio_fix: None,
        auto_sync_saves: None,
        saves_path: None,
        enable_esync: None,
        enable_fsync: None,
        enable_fsr: None,
        max_sharpness: None,
        enable_resizable_bar: None,
        nvidia_prime: None,
        offline_mode: None,
        show_fps: None,
        show_mangehud: None,
        use_game_mode: None,
        launcher_args: None,
        other_options: None,
        target_exe: None,
        use_steam_runtime: None,
        wine_prefix: None,
        wine_version: None,
        alt_legendary_bin: None,
        alt_gogdl_bin: None,
        egs_linked_path: None,
        max_recent_games: None,
        check_update_interval: None,
        enable_udates: None,
        app_name: None,
    }
}

#[test]
fn builder_joins_parts() {
    let mut b = CommandlineBuilder::default();
    b.add_environment_variable("pulse", "60");
    b.add_environment_variable("Dxvk_Hud", "fps");
    b.add_pre_parameter("mangohud");
    b.set_executable("game");
    b.add_parameter("-x");
    b.add_parameter_path("/my dir");
    assert_eq!(b.build_command(), "PULSE=60 DXVK_HUD=fps mangohud game -x '/my dir'");
    assert_eq!(CommandlineBuilder::new().build_command(), "   ");
    assert_eq!(join(&vec!["a".to_string(), "b".to_string()]), "a b");
}

#[test]
fn launch_parameters_from_settings() {
    let mut g = settings();
    assert_eq!(g.generate_launch_parameters(&GameType::Epic), "   ");
    g.audio_fix = Some(true);
    g.enable_fsr = Some(true);
    g.max_sharpness = Some("2".to_string());
    g.offline_mode = Some(true);
    g.show_mangehud = Some(true);
    g.nvidia_prime = Some(false);
    assert_eq!(
        g.generate_launch_parameters(&GameType::Gog),
        "PULSE_LATENCY_MSEC=60 WINE_FULLSCREEN_FSR=1 WINE_FULLSCREEN_FSR_STRENGTH=2 mangohud --dlsym  --offline"
    );
    g.max_sharpness = None;
    assert_eq!(g.generate_launch_parameters(&GameType::Gog), "PULSE_LATENCY_MSEC=60 mangohud --dlsym  --offline");
}

#[test]
fn cloud_sync_command_needs_save_path() {
    let mut g = settings();
    g.auto_sync_saves = Some(true);
    assert_eq!(g.cloud_sync_command("legendary"), "   ");
    g.saves_path = Some("/saves".to_string());
    g.app_name = Some("abc".to_string());
    assert_eq!(
        g.cloud_sync_command("legendary"),
        "  legendary --skip-upload --save-path '/saves' 'abc' -y"
    );
}

#[test]
fn heroic_game_becomes_shortcut() {
    let game = HeroicGame {
        app_name: "abc".to_string(),
        title: "Title".to_string(),
        is_dlc: false,
        install_path: "/games/t".to_string(),
        executable: "run.sh".to_string(),
        launch_parameters: "-w".to_string(),
    };
    assert_eq!(game.install_target(), "/games/t/run.sh");
    let s = game.to_shortcut();
    assert_eq!(s.exe, "\"/games/t/run.sh\"");
    assert_eq!(s.start_dir, "\"/games/t\"");
    assert_eq!(s.icon, s.exe);
    assert_eq!(s.launch_options, "-w");
    assert_eq!(s.tags, vec!["Heroic", "Ready TO Play", "Installed"]);
    assert_eq!(s.app_id, ShortcutInfo::new("Title", "\"/games/t/run.sh\"", "", "", "").app_id);
}

#[test]
fn artwork_names() {
    assert_eq!(ImageType::Grid.file_name_no_extension(100), "100p");
    assert_eq!(ImageType::Hero.file_name(4026531840, "png"), "4026531840_hero.png");
    assert_eq!(ImageType::WideGrid.file_name_no_extension(0), "0");
    assert_eq!(ImageType::Icon.name(), "Icon");
    assert_eq!(ImageType::all().len(), 5);
    let keys: Vec<String> = ["12p", "12", "12_hero", "12_logo", "12_icon"].iter().map(|s| s.to_string()).collect();
    assert!(artwork_complete(12, &keys));
    assert!(!artwork_complete(13, &keys));
    assert_eq!(artwork_path("/u", ImageType::Logo, 3, "jpg"), "/u/config/grid/3_logo.jpg");
    assert_eq!(possible_extensions(), vec!["png", "jpg", "ico", "webp"]);
}

#[test]
fn candidate_choice() {
    assert_eq!(pick_candidate(&vec![true, false, false, false]), 0);
    assert_eq!(pick_candidate(&vec![true, false, true, true]), 2);
    assert_eq!(pick_candidate(&vec![false]), 0);
}

#[test]
fn back_button_steps() {
    assert_eq!(back_step(true, true, true), BackStep::CloseNames);
    assert_eq!(back_step(false, true, true), BackStep::CloseImageType);
    assert_eq!(back_step(false, false, true), BackStep::CloseGame);
    assert_eq!(back_step(false, false, false), BackStep::LeaveUser);
    assert!(GameMode::Shortcuts.is_shortcuts());
    assert!(!GameMode::SteamGames.is_shortcuts());
    assert_eq!(GameMode::SteamGames.label(), "Images for steam games");
}

#[test]
fn progress_status() {
    assert_eq!(SyncProgress::NotStarted.status(), (String::new(), false));
    assert_eq!(SyncProgress::FoundGames { games_found: 3 }.status(), ("Found 3 games to  import".to_string(), true));
    assert_eq!(
        SyncProgress::DownloadingImages { to_download: 12 }.status(),
        ("Downloading 12 images ".to_string(), true)
    );
    assert_eq!(SyncProgress::Done.status(), ("Done importing games".to_string(), false));
    assert!(SyncProgress::Starting.is_syncing());
    let p = SyncProgress::FindingImages;
    assert_eq!(p.advance(SyncProgress::Starting), SyncProgress::FindingImages);
    assert_eq!(p.advance(SyncProgress::Done), SyncProgress::Done);
}

#[test]
fn renames_and_blacklist() {
    let mut renames = HashMap::new();
    assert_eq!(display_name(&renames, 1, "Orig"), "Orig");
    set_rename(&mut renames, 1, "Mine", "Orig");
    assert_eq!(display_name(&renames, 1, "Orig"), "Mine");
    set_rename(&mut renames, 1, "", "Orig");
    assert_eq!(display_name(&renames, 1, "Orig"), "Orig");
    let mut blacklisted = vec![4, 5];
    toggle_blacklisted(&mut blacklisted, 6);
    assert_eq!(blacklisted, vec![4, 5, 6]);
    toggle_blacklisted(&mut blacklisted, 5);
    assert_eq!(blacklisted, vec![4, 6]);
}

#[test]
fn discovery_results() {
    let s = ShortcutInfo::new("A", "a", "", "", "");
    let games: Vec<(PlatformType, FetcStatus<Result<Vec<ShortcutInfo>, String>>)> = vec![
        (PlatformType::Gog, FetcStatus::Fetched(Ok(vec![s.clone(), s.clone()]))),
        (PlatformType::Itch, FetcStatus::Fetched(Err("broken".to_string()))),
        (PlatformType::Origin, FetcStatus::Fetching),
    ];
    assert!(!all_ready(&games));
    let all = get_all_games(&games);
    assert_eq!(all.len(), 2);
    assert_eq!(all[0].0, PlatformType::Gog);
    assert!(all_ready(&games[..2].iter().map(|(p, s)| (*p, match s {
        FetcStatus::Fetched(Ok(v)) => FetcStatus::Fetched(Ok(v.clone())),
        _ => FetcStatus::Fetched(Err("e".to_string())),
    })).collect()));
    let f: FetchStatus<u8> = FetchStatus::NeedsFetched;
    assert!(f.needs_fetching() && !f.is_fetched());
    assert!(FetchStatus::Fetched(1u8).is_fetched());
    assert!(!FetcStatus::<u8>::Fetching.is_some());
}

#[test]
fn platform_names() {
    assert_eq!(PlatformType::EpicGames.name(), "EpicGames");
    assert_eq!(PlatformType::Gog.logo(), Some("platformlogos/gog.png"));
    assert_eq!(PlatformType::Lutris.logo(), None);
}

#[test]
fn decimal_forms() {
    assert_eq!(boilr::artwork::decimal_string(0), "0");
    assert_eq!(boilr::artwork::decimal_string(7), "7");
    assert_eq!(boilr::artwork::decimal_string(4294967295), "4294967295");
    assert_eq!(boilr::artwork::decimal_string(u64::MAX), "18446744073709551615");
}

#[test]
fn extension_from_address() {
    assert_eq!(boilr::browse::extension_for_url("https://x/a.webp"), "webp");
    assert_eq!(boilr::browse::extension_for_url("https://x/a.jpg"), "jpg");
    assert_eq!(boilr::browse::extension_for_url("https://x/a"), "png");
    assert_eq!(boilr::browse::extension_for_url("ico"), "png");
}

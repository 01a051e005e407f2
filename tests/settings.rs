use tdl::iwad::{get_additional_wad_info, get_maps_from_metadata};
use tdl::play::{get_args, get_profile, get_source_port};
use tdl::profile::Profile;
use tdl::settings::{is_source_port_installed, AppSettings};
use tdl::source_port::{InstalledSourcePort, Skill, SourcePort, SourcePortRelease};
use tdl::wad::{MapInfo, WadDirectoryEntry, WadEntry, WadHeader, WadMetadata};

fn installed(port: SourcePort, version: &str) -> InstalledSourcePort {
    InstalledSourcePort::new(port, format!("/games/{}.exe", version), version, true).unwrap()
}

fn profile(name: &str, version: &str, default: bool) -> Profile {
    Profile::new(name, SourcePort::PrBoomPlus, version.to_string(), Skill::UltraViolence, true, false, default).unwrap()
}

fn settings_with_prboom() -> AppSettings {
    let mut settings = AppSettings::empty("/cache".to_string());
    settings.add_source_port(installed(SourcePort::PrBoomPlus, "2.6")).unwrap();
    settings
}

#[test]
fn first_profile_becomes_the_default() {
    let mut settings = settings_with_prboom();
    let is_default = settings.default_for_new_profile(false);
    assert!(is_default);
    settings.add_profile(profile("default", "2.6", is_default), false).unwrap();
    assert_eq!(settings.profiles.len(), 1);
    assert!(settings.profiles[0].default);
    assert!(!settings.default_for_new_profile(false));
}

#[test]
fn new_default_profile_replaces_the_current_default() {
    let mut settings = settings_with_prboom();
    settings.add_profile(profile("default", "2.6", true), false).unwrap();
    settings.add_profile(profile("prboom-nomusic", "2.6", true), true).unwrap();
    assert_eq!(settings.profiles.len(), 2);
    assert!(!settings.profiles[0].default);
    assert!(settings.profiles[1].default);
}

#[test]
fn profile_must_name_an_installed_source_port() {
    let mut settings = settings_with_prboom();
    let result = settings.add_profile(profile("default", "2.7", true), false);
    assert_eq!(
        result.unwrap_err(),
        "The Source Port 'PrBoomPlus' with version '2.7' does not exist"
    );
    assert!(settings.profiles.is_empty());
}

#[test]
fn duplicate_source_port_version_is_refused() {
    let mut settings = settings_with_prboom();
    let result = settings.add_source_port(installed(SourcePort::PrBoomPlus, "2.6"));
    assert_eq!(result.unwrap_err(), "There is already a PrBoomPlus source port at version 2.6");
    settings.add_source_port(installed(SourcePort::PrBoomPlus, "2.7")).unwrap();
    settings.add_source_port(installed(SourcePort::GzDoom, "4.6.1")).unwrap();
    assert_eq!(settings.source_ports.len(), 3);
}

#[test]
fn installed_release_is_recognised() {
    let settings = settings_with_prboom();
    let release = SourcePortRelease {
        source_port: SourcePort::PrBoomPlus,
        owner: "coelckers".to_string(),
        repository: "prboom-plus".to_string(),
        version: "2.6".to_string(),
        assets: Vec::new(),
    };
    assert!(is_source_port_installed(&release, &settings));
    let mut newer = release.clone();
    newer.version = "2.7".to_string();
    assert!(!is_source_port_installed(&newer, &settings));
}

#[test]
fn profile_is_chosen_by_name_or_default() {
    let mut settings = settings_with_prboom();
    settings.add_profile(profile("default", "2.6", true), false).unwrap();
    settings.add_profile(profile("other", "2.6", false), false).unwrap();
    assert_eq!(get_profile(&settings, None).unwrap().name, "default");
    assert_eq!(get_profile(&settings, Some("other".to_string())).unwrap().name, "other");
    assert_eq!(
        get_profile(&settings, Some("missing".to_string())).unwrap_err(),
        "Failed to find 'missing' profile"
    );
    let empty = AppSettings::empty("/cache".to_string());
    assert_eq!(get_profile(&empty, None).unwrap_err(), "Failed to find a default profile");
}

#[test]
fn source_port_is_chosen_by_profile_type() {
    let settings = settings_with_prboom();
    let p = profile("default", "2.6", true);
    assert_eq!(get_source_port(&settings, &p).unwrap().version, "2.6");
    let gz = Profile::new("gz", SourcePort::GzDoom, "4.6.1".to_string(), Skill::Nightmare, true, true, false).unwrap();
    assert_eq!(get_source_port(&settings, &gz).unwrap_err(), "Failed to find the GzDoom-4.6.1 source port");
}

fn doom2_entry() -> WadEntry {
    let maps = vec![
        MapInfo::new("MAP01".to_string(), "Entryway".to_string()).unwrap(),
        MapInfo::new("MAP12".to_string(), "The Factory".to_string()).unwrap(),
    ];
    WadEntry::new(
        "DOOM2".to_string(),
        "DOOM2.WAD".to_string(),
        "Doom II: Hell on Earth".to_string(),
        "1994-09-30".to_string(),
        "id Software".to_string(),
        maps,
    )
    .unwrap()
}

#[test]
fn game_arguments_follow_the_profile() {
    let p = profile("default", "2.6", true);
    let args = get_args(&p, "/iwads/DOOM2.WAD", &doom2_entry(), "DOOM2", &None).unwrap();
    assert_eq!(args, vec!["-iwad", "/iwads/DOOM2.WAD", "-skill", "4", "-nomusic"]);
    let quiet = Profile::new("q", SourcePort::PrBoomPlus, "2.6".to_string(), Skill::Nightmare, false, true, false).unwrap();
    let args = get_args(&quiet, "/iwads/DOOM2.WAD", &doom2_entry(), "DOOM2", &Some("MAP12".to_string())).unwrap();
    assert_eq!(args, vec!["-iwad", "/iwads/DOOM2.WAD", "-skill", "5", "-nofullscreen", "-warp", "12"]);
}

#[test]
fn first_game_maps_warp_with_episode_and_mission() {
    let maps = vec![MapInfo::new("E1M3".to_string(), "Toxin Refinery".to_string()).unwrap()];
    let entry = WadEntry::new(
        "DOOM".to_string(),
        "DOOM.WAD".to_string(),
        "The Ultimate DOOM".to_string(),
        "1995-04-30".to_string(),
        "id Software".to_string(),
        maps,
    )
    .unwrap();
    let p = profile("default", "2.6", true);
    let args = get_args(&p, "/iwads/DOOM.WAD", &entry, "DOOM", &Some("E1M3".to_string())).unwrap();
    assert_eq!(&args[5..], &["-warp", "1", "3"]);
    assert_eq!(
        get_args(&p, "/iwads/DOOM.WAD", &entry, "DOOM", &Some("E9M9".to_string())).unwrap_err(),
        "Could not find E9M9 in DOOM"
    );
}

fn directory_of(names: &[(&str, u32)]) -> WadMetadata {
    WadMetadata {
        header: WadHeader { wad_type: "IWAD".to_string(), directory_entries: names.len() as u32, directory_offset: 12 },
        directory: names
            .iter()
            .map(|(n, size)| WadDirectoryEntry { lump_offset: 0, lump_size: *size, lump_name: n.to_string() })
            .collect(),
    }
}

#[test]
fn maps_are_read_from_map_markers() {
    let metadata = directory_of(&[("PLAYPAL", 10752), ("MAP01", 0), ("THINGS", 690), ("MAP02", 0), ("MAP03", 12)]);
    let maps = get_maps_from_metadata("DOOM2.WAD", &metadata).unwrap();
    assert_eq!(maps.len(), 2);
    assert_eq!(maps[0].number, "MAP01");
    assert_eq!(maps[0].name, "Entryway");
    assert_eq!(maps[0].warp, "1");
    assert_eq!(maps[1].name, "Underhalls");
    let tnt = get_maps_from_metadata("TNT.WAD", &metadata).unwrap();
    assert_eq!(tnt[0].name, "System Control");
}

#[test]
fn unsupported_iwad_is_refused() {
    let metadata = directory_of(&[("MAP01", 0)]);
    assert_eq!(get_maps_from_metadata("HERETIC.WAD", &metadata).unwrap_err(), "IWAD not supported");
    assert!(get_additional_wad_info("HERETIC.WAD").is_none());
}

#[test]
fn map_unknown_to_the_iwad_is_refused() {
    let metadata = directory_of(&[("E1M1", 0)]);
    assert_eq!(get_maps_from_metadata("DOOM2.WAD", &metadata).unwrap_err(), "No name is known for map E1M1");
}

#[test]
fn iwad_release_details() {
    let (title, date, author) = get_additional_wad_info("PLUTONIA.WAD").unwrap();
    assert_eq!(title, "The Plutonia Experiment");
    assert_eq!(date, "1996-06-17");
    assert_eq!(author, "Dario Casali & Milo Casali");
    assert_eq!(get_additional_wad_info("DOOM.WAD").unwrap().0, "The Ultimate DOOM");
}

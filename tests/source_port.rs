use tdl::source_port::{
    first_flagged, link_for_hits, release_from_version, release_from_response, GithubReleaseRepository, InstalledSourcePort, Platform, ReleaseAsset,
    ReleaseResponse, SourcePort, SourcePortError, GITHUB_API_URL,
};

fn asset(url: &str) -> ReleaseAsset {
    ReleaseAsset {
        name: url.rsplit('/').next().unwrap().to_string(),
        browser_download_url: url.to_string(),
    }
}

fn response(tag: &str, urls: &[&str]) -> ReleaseResponse {
    ReleaseResponse {
        tag_name: Some(tag.to_string()),
        assets: urls.iter().map(|u| asset(u)).collect(),
    }
}

#[test]
fn should_return_windows_and_linux_assets_for_chocolate_doom() {
    let response_json = response(
        "chocolate-doom-3.0.0",
        &[
            "https://github.com/chocolate-doom/chocolate-doom/releases/download/chocolate-doom-3.0.0/chocolate-doom-3.0.0.tar.gz",
            "https://github.com/chocolate-doom/chocolate-doom/releases/download/chocolate-doom-3.0.0/chocolate-doom-3.0.0-win32.zip",
            "https://github.com/chocolate-doom/chocolate-doom/releases/download/chocolate-doom-3.0.0/chocolate-doom-3.0.0.dmg",
        ],
    );

    let result = release_from_response(SourcePort::Chocolate, &response_json);

    assert!(result.is_ok());
    let release = result.unwrap();
    assert_eq!(release.owner, "chocolate-doom");
    assert_eq!(release.repository, "chocolate-doom");
    assert_eq!(release.version, "3.0.0");
    assert_eq!(release.assets[0].0, "windows");
    assert_eq!(release.assets[0].1, "https://github.com/chocolate-doom/chocolate-doom/releases/download/chocolate-doom-3.0.0/chocolate-doom-3.0.0-win32.zip");
    assert_eq!(release.assets[1].0, "macos");
    assert_eq!(release.assets[1].1, "https://github.com/chocolate-doom/chocolate-doom/releases/download/chocolate-doom-3.0.0/chocolate-doom-3.0.0.dmg");
}

#[test]
fn should_return_a_windows_asset_for_crispy_doom() {
    let response_json = response(
        "crispy-doom-5.10.3",
        &["https://github.com/fabiangreffrath/crispy-doom/releases/download/crispy-doom-5.10.3/crispy-doom-5.10.3-win32.zip"],
    );

    let result = release_from_response(SourcePort::Crispy, &response_json);

    assert!(result.is_ok());
    let release = result.unwrap();
    assert_eq!(release.owner, "fabiangreffrath");
    assert_eq!(release.repository, "crispy-doom");
    assert_eq!(release.version, "5.10.3");
    assert_eq!(release.assets[0].0, "windows");
    assert_eq!(release.assets[0].1, "https://github.com/fabiangreffrath/crispy-doom/releases/download/crispy-doom-5.10.3/crispy-doom-5.10.3-win32.zip");
}

#[test]
fn should_return_a_windows_asset_for_doom_retro() {
    let response_json = response(
        "v4.2.3",
        &[
            "https://github.com/bradharding/doomretro/releases/download/v4.2.3/doomretro-4.2.3-win32.zip",
            "https://github.com/bradharding/doomretro/releases/download/v4.2.3/doomretro-4.2.3-win64.zip",
        ],
    );

    let result = release_from_response(SourcePort::DoomRetro, &response_json);

    assert!(result.is_ok());
    let release = result.unwrap();
    assert_eq!(release.owner, "bradharding");
    assert_eq!(release.repository, "doomretro");
    assert_eq!(release.version, "4.2.3");
    assert_eq!(release.assets[0].0, "windows");
    assert_eq!(release.assets[0].1, "https://github.com/bradharding/doomretro/releases/download/v4.2.3/doomretro-4.2.3-win64.zip");
}

#[test]
fn should_return_no_assets_for_dsda_doom() {
    let response_json = response(
        "v0.21.3",
        &["https://github.com/kraflab/dsda-doom/releases/download/v0.21.3/dsda-doom-0.21.3-win64.zip"],
    );

    let result = release_from_response(SourcePort::Dsda, &response_json);

    assert!(result.is_ok());
    let release = result.unwrap();
    assert_eq!(release.owner, "kraflab");
    assert_eq!(release.repository, "dsda-doom");
    assert_eq!(release.version, "0.21.3");
    assert_eq!(release.assets.len(), 0);
}

#[test]
fn should_return_windows_and_macos_asset_for_eternity_engine() {
    let response_json = response(
        "4.02.00",
        &[
            "https://github.com/team-eternity/eternity/releases/download/4.02.00/ee-4.02.00-macos.dmg",
            "https://github.com/team-eternity/eternity/releases/download/4.02.00/ee-4.02.00-win64.zip",
        ],
    );

    let result = release_from_response(SourcePort::EternityEngine, &response_json);

    assert!(result.is_ok());
    let release = result.unwrap();
    assert_eq!(release.owner, "team-eternity");
    assert_eq!(release.repository, "eternity");
    assert_eq!(release.version, "4.02.00");
    assert_eq!(release.assets[0].0, "windows");
    assert_eq!(release.assets[0].1, "https://github.com/team-eternity/eternity/releases/download/4.02.00/ee-4.02.00-win64.zip");
    assert_eq!(release.assets[1].0, "macos");
    assert_eq!(release.assets[1].1, "https://github.com/team-eternity/eternity/releases/download/4.02.00/ee-4.02.00-macos.dmg");
}

#[test]
fn should_return_windows_and_macos_asset_for_gzdoom() {
    let response_json = response(
        "g4.7.0",
        &[
            "https://github.com/coelckers/gzdoom/releases/download/g4.7.0/gzdoom-4-7-0-Windows-64bit.zip",
            "https://github.com/coelckers/gzdoom/releases/download/g4.7.0/gzdoom-4-7-0-macOS.zip",
        ],
    );

    let result = release_from_response(SourcePort::GzDoom, &response_json);

    assert!(result.is_ok());
    let release = result.unwrap();
    assert_eq!(release.owner, "coelckers");
    assert_eq!(release.repository, "gzdoom");
    assert_eq!(release.version, "4.7.0");
    assert_eq!(release.assets[0].0, "windows");
    assert_eq!(release.assets[0].1, "https://github.com/coelckers/gzdoom/releases/download/g4.7.0/gzdoom-4-7-0-Windows-64bit.zip");
    assert_eq!(release.assets[1].0, "macos");
    assert_eq!(
        release.assets[1].1,
        "https://github.com/coelckers/gzdoom/releases/download/g4.7.0/gzdoom-4-7-0-macOS.zip"
    );
}

#[test]
fn should_return_windows_and_macos_asset_for_lzdoom() {
    let response_json = response(
        "3.88a",
        &[
            "https://github.com/drfrag666/gzdoom/releases/download/3.88a/LZDoom_3.88a_x64.zip",
            "https://github.com/drfrag666/gzdoom/releases/download/3.88a/LZDoom_3.88a_x86.zip",
            "https://github.com/drfrag666/gzdoom/releases/download/3.88a/LZDoom_3.88a_macOS.zip",
        ],
    );

    let result = release_from_response(SourcePort::LzDoom, &response_json);

    assert!(result.is_ok());
    let release = result.unwrap();
    assert_eq!(release.owner, "drfrag666");
    assert_eq!(release.repository, "gzdoom");
    assert_eq!(release.version, "3.88a");
    assert_eq!(release.assets[0].0, "windows");
    assert_eq!(
        release.assets[0].1,
        "https://github.com/drfrag666/gzdoom/releases/download/3.88a/LZDoom_3.88a_x64.zip"
    );
    assert_eq!(release.assets[1].0, "macos");
    assert_eq!(
        release.assets[1].1,
        "https://github.com/drfrag666/gzdoom/releases/download/3.88a/LZDoom_3.88a_macOS.zip"
    );
}

#[test]
fn should_return_windows_and_macos_asset_for_odamex() {
    let response_json = response(
        "0.9.5",
        &[
            "https://github.com/odamex/odamex/releases/download/0.9.5/odamex-macos-0.9.5.dmg",
            "https://github.com/odamex/odamex/releases/download/0.9.5/odamex-win64-0.9.5.zip",
        ],
    );

    let result = release_from_response(SourcePort::Odamex, &response_json);

    assert!(result.is_ok());
    let release = result.unwrap();
    assert_eq!(release.owner, "odamex");
    assert_eq!(release.repository, "odamex");
    assert_eq!(release.version, "0.9.5");
    assert_eq!(release.assets[0].0, "windows");
    assert_eq!(
        release.assets[0].1,
        "https://github.com/odamex/odamex/releases/download/0.9.5/odamex-win64-0.9.5.zip"
    );
    assert_eq!(release.assets[1].0, "macos");
    assert_eq!(
        release.assets[1].1,
        "https://github.com/odamex/odamex/releases/download/0.9.5/odamex-macos-0.9.5.dmg"
    );
}

#[test]
fn should_return_a_windows_asset_for_prboom_plus() {
    let response_json = response(
        "v2.6.1um",
        &["https://github.com/coelckers/prboom-plus/releases/download/v2.6.1um/prboom-plus-261um-w32.zip"],
    );

    let result = release_from_response(SourcePort::PrBoomPlus, &response_json);

    assert!(result.is_ok());
    let release = result.unwrap();
    assert_eq!(release.owner, "coelckers");
    assert_eq!(release.repository, "prboom-plus");
    assert_eq!(release.version, "2.6.1um");
    assert_eq!(release.assets[0].0, "windows");
    assert_eq!(
        release.assets[0].1,
        "https://github.com/coelckers/prboom-plus/releases/download/v2.6.1um/prboom-plus-261um-w32.zip"
    );
}

#[test]
fn should_return_a_windows_asset_for_woof() {
    let response_json = response(
        "woof_7.0.0",
        &["https://github.com/fabiangreffrath/woof/releases/download/woof_7.0.0/Woof-7.0.0-win32.zip"],
    );

    let result = release_from_response(SourcePort::Woof, &response_json);

    assert!(result.is_ok());
    let release = result.unwrap();
    assert_eq!(release.owner, "fabiangreffrath");
    assert_eq!(release.repository, "woof");
    assert_eq!(release.version, "7.0.0");
    assert_eq!(release.assets[0].0, "windows");
    assert_eq!(
        release.assets[0].1,
        "https://github.com/fabiangreffrath/woof/releases/download/woof_7.0.0/Woof-7.0.0-win32.zip"
    );
}

#[test]
fn should_return_an_error_for_source_port_with_no_latest_release_marked() {
    let response_json = ReleaseResponse { tag_name: None, assets: Vec::new() };

    let result = release_from_response(SourcePort::Rude, &response_json);

    assert!(result.is_err());
    let error = result.unwrap_err();
    assert!(matches!(error, SourcePortError::NoLatestRelease(SourcePort::Rude)));
    assert_eq!(
        error.message(),
        "The source port RUDE has no releases marked as latest"
    );
}

#[test]
fn tag_without_a_version_is_a_version_parsing_error() {
    let result = release_from_response(SourcePort::Woof, &response("latest", &[]));
    let error = result.unwrap_err();
    match &error {
        SourcePortError::VersionParsing(tag, name) => {
            assert_eq!(tag, "latest");
            assert_eq!(name, "Woof!");
        }
        other => panic!("unexpected error {:?}", other),
    }
    assert_eq!(
        error.message(),
        "Could not parse version number from latest for Woof! source port"
    );
}

#[test]
fn first_matching_asset_is_taken_for_a_platform() {
    let response_json = response(
        "4.02.00",
        &[
            "https://example.org/ee-4.02.00-win64.zip",
            "https://example.org/ee-4.02.01-win64.zip",
        ],
    );
    let release = release_from_response(SourcePort::EternityEngine, &response_json).unwrap();
    assert_eq!(release.assets.len(), 1);
    assert_eq!(release.assets[0].1, "https://example.org/ee-4.02.00-win64.zip");
}

#[test]
fn source_port_should_set_fields() {
    let sp = InstalledSourcePort::new(SourcePort::PrBoomPlus, "/tmp/prboom.exe".to_string(), "2.6", true)
        .unwrap();
    assert!(matches!(sp.name, SourcePort::PrBoomPlus));
    assert_eq!(sp.path, "/tmp/prboom.exe");
    assert_eq!(sp.version, "2.6");
}

#[test]
fn should_return_error_if_path_does_not_exist() {
    let sp = InstalledSourcePort::new(SourcePort::PrBoomPlus, "/tmp/missing/prboom.exe".to_string(), "2.6", false);
    assert!(sp.is_err());
    assert_eq!(
        sp.unwrap_err().to_string(),
        "The source port must point to a valid exe file"
    );
}

#[test]
fn should_return_error_if_path_is_not_a_file() {
    let sp = InstalledSourcePort::new(SourcePort::PrBoomPlus, "/tmp".to_string(), "2.6", false);
    assert!(sp.is_err());
    assert_eq!(
        sp.unwrap_err().to_string(),
        "The source port must point to a valid exe file"
    );
}

#[test]
fn source_port_should_return_error_for_empty_version() {
    let sp = InstalledSourcePort::new(SourcePort::PrBoomPlus, "/tmp/prboom.exe".to_string(), "", true);
    assert!(sp.is_err());
    assert_eq!(
        sp.unwrap_err().to_string(),
        "The version of the source port must be set"
    );
}

#[test]
fn should_set_the_api_base_url() {
    let repo = GithubReleaseRepository::new();
    assert_eq!(GITHUB_API_URL, repo.api_base_url);
}

#[test]
fn latest_release_url_addresses_the_engine_repository() {
    let repo = GithubReleaseRepository::new();
    assert_eq!(
        repo.latest_release_url(SourcePort::Crispy),
        "https://api.github.com/repos/fabiangreffrath/crispy-doom/releases/latest"
    );
}

#[test]
fn cache_keys_use_the_lower_cased_repository() {
    assert_eq!(SourcePort::Chocolate.cache_key(), "chocolate-doom.chocolate-doom.latest");
    assert_eq!(SourcePort::Rude.cache_key(), "drfrag666.rude.latest");
    assert_eq!(SourcePort::Zandronum.cache_key(), "TorrSamaho.zandronum.latest");
}

#[test]
fn engines_are_read_from_their_variant_names() {
    for port in SourcePort::all() {
        assert_eq!(SourcePort::parse(port.variant_name()).unwrap(), port);
    }
    assert_eq!(SourcePort::all().len(), 12);
    assert!(matches!("Rude".parse::<SourcePort>(), Ok(SourcePort::Rude)));
    assert_eq!(
        SourcePort::parse("Quake").unwrap_err(),
        "Quake is not a supported source port"
    );
}

#[test]
fn engines_have_display_names() {
    assert_eq!(SourcePort::Chocolate.display_name(), "Chocolate Doom");
    assert_eq!(SourcePort::Woof.display_name(), "Woof!");
    assert_eq!(SourcePort::PrBoomPlus.display_name(), "PrBoom Plus");
}

#[test]
fn asset_patterns_exist_only_where_engines_publish_downloads() {
    assert!(SourcePort::Dsda.asset_pattern(Platform::Windows).is_none());
    assert!(SourcePort::Chocolate.asset_pattern(Platform::Linux).is_none());
    assert_eq!(SourcePort::Woof.asset_pattern(Platform::Windows), Some("Woof-.*-win32.zip"));
    assert_eq!(Platform::Macos.label(), "macos");
}

#[test]
fn release_offers_the_download_of_its_platform() {
    let response_json = response(
        "4.02.00",
        &[
            "https://github.com/team-eternity/eternity/releases/download/4.02.00/ee-4.02.00-win64.zip",
            "https://github.com/team-eternity/eternity/releases/download/4.02.00/ee-4.02.00-macos.dmg",
        ],
    );
    let release = release_from_response(SourcePort::EternityEngine, &response_json).unwrap();
    assert_eq!(
        release.download_for(Platform::Macos).unwrap(),
        "https://github.com/team-eternity/eternity/releases/download/4.02.00/ee-4.02.00-macos.dmg"
    );
    assert!(release.download_for(Platform::Linux).is_none());
}

#[test]
fn first_flagged_position_is_found() {
    assert_eq!(first_flagged(&vec![false, true, true]), Some(1));
    assert_eq!(first_flagged(&vec![false, false]), None);
    assert_eq!(first_flagged(&Vec::new()), None);
}

#[test]
fn link_is_taken_from_the_first_hit() {
    let assets = vec![asset("https://example.org/a.zip"), asset("https://example.org/b.zip"), asset("https://example.org/c.zip")];
    let link = link_for_hits(Platform::Windows, &assets, &vec![false, true, true]).unwrap();
    assert_eq!(link.0, "windows");
    assert_eq!(link.1, "https://example.org/b.zip");
    assert!(link_for_hits(Platform::Macos, &assets, &vec![false, false, false]).is_none());
}

#[test]
fn release_is_built_from_the_version_found() {
    let links = vec![("macos".to_string(), "https://example.org/x.dmg".to_string())];
    let release = release_from_version(SourcePort::Odamex, "0.9.5", Some("0.9.5".to_string()), links).unwrap();
    assert_eq!(release.owner, "odamex");
    assert_eq!(release.repository, "odamex");
    assert_eq!(release.version, "0.9.5");
    assert_eq!(release.assets.len(), 1);
    match release_from_version(SourcePort::LzDoom, "latest", None, Vec::new()) {
        Err(SourcePortError::VersionParsing(tag, name)) => {
            assert_eq!(tag, "latest");
            assert_eq!(name, "LZDoom");
        }
        other => panic!("unexpected result {:?}", other),
    }
}

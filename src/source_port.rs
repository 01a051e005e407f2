use crate::pattern::{find_first, is_match, regex_first_match, regex_matches};
use crate::storage::StorageError;
use crate::text::{ascii_lowercase, join2, join3, same_text, to_ascii_lowercase};
use vstd::prelude::*;
use vstd::string::*;

verus! {

/// The closed set of supported engines.
#[derive(Clone, Copy, Debug, PartialEq, Eq, Structural, Hash)]
pub enum SourcePort {
    Chocolate,
    Crispy,
    DoomRetro,
    Dsda,
    EternityEngine,
    GzDoom,
    LzDoom,
    Odamex,
    PrBoomPlus,
    Rude,
    Woof,
    Zandronum,
}

/// The human-readable name of an engine.
pub open spec fn spec_display_name(port: SourcePort) -> Seq<char> {
    match port {
        SourcePort::Chocolate => "Chocolate Doom"@,
        SourcePort::Crispy => "Crispy Doom"@,
        SourcePort::DoomRetro => "Doom Retro"@,
        SourcePort::Dsda => "DSDA Doom"@,
        SourcePort::EternityEngine => "Eternity Engine"@,
        SourcePort::GzDoom => "GZDoom"@,
        SourcePort::LzDoom => "LZDoom"@,
        SourcePort::Odamex => "Odamex"@,
        SourcePort::PrBoomPlus => "PrBoom Plus"@,
        SourcePort::Rude => "RUDE"@,
        SourcePort::Woof => "Woof!"@,
        SourcePort::Zandronum => "Zandronum"@,
    }
}

impl SourcePort {
    pub fn display_name(&self) -> (r: &'static str)
        ensures
            r@ == spec_display_name(*self),
    {
        match self {
            SourcePort::Chocolate => "Chocolate Doom",
            SourcePort::Crispy => "Crispy Doom",
            SourcePort::DoomRetro => "Doom Retro",
            SourcePort::Dsda => "DSDA Doom",
            SourcePort::EternityEngine => "Eternity Engine",
            SourcePort::GzDoom => "GZDoom",
            SourcePort::LzDoom => "LZDoom",
            SourcePort::Odamex => "Odamex",
            SourcePort::PrBoomPlus => "PrBoom Plus",
            SourcePort::Rude => "RUDE",
            SourcePort::Woof => "Woof!",
            SourcePort::Zandronum => "Zandronum",
        }
    }
}


/// The variant name of an engine, as typed on a command line.
pub open spec fn spec_variant_name(port: SourcePort) -> Seq<char> {
    match port {
        SourcePort::Chocolate => "Chocolate"@,
        SourcePort::Crispy => "Crispy"@,
        SourcePort::DoomRetro => "DoomRetro"@,
        SourcePort::Dsda => "Dsda"@,
        SourcePort::EternityEngine => "EternityEngine"@,
        SourcePort::GzDoom => "GzDoom"@,
        SourcePort::LzDoom => "LzDoom"@,
        SourcePort::Odamex => "Odamex"@,
        SourcePort::PrBoomPlus => "PrBoomPlus"@,
        SourcePort::Rude => "Rude"@,
        SourcePort::Woof => "Woof"@,
        SourcePort::Zandronum => "Zandronum"@,
    }
}

/// The owner half of the namespace that addresses an engine's releases.
pub open spec fn spec_owner(port: SourcePort) -> Seq<char> {
    match port {
        SourcePort::Chocolate => "chocolate-doom"@,
        SourcePort::Crispy => "fabiangreffrath"@,
        SourcePort::DoomRetro => "bradharding"@,
        SourcePort::Dsda => "kraflab"@,
        SourcePort::EternityEngine => "team-eternity"@,
        SourcePort::GzDoom => "coelckers"@,
        SourcePort::LzDoom => "drfrag666"@,
        SourcePort::Odamex => "odamex"@,
        SourcePort::PrBoomPlus => "coelckers"@,
        SourcePort::Rude => "drfrag666"@,
        SourcePort::Woof => "fabiangreffrath"@,
        SourcePort::Zandronum => "TorrSamaho"@,
    }
}

/// The repository half of the namespace that addresses an engine's releases.
pub open spec fn spec_repository(port: SourcePort) -> Seq<char> {
    match port {
        SourcePort::Chocolate => "chocolate-doom"@,
        SourcePort::Crispy => "crispy-doom"@,
        SourcePort::DoomRetro => "doomretro"@,
        SourcePort::Dsda => "dsda-doom"@,
        SourcePort::EternityEngine => "eternity"@,
        SourcePort::GzDoom => "gzdoom"@,
        SourcePort::LzDoom => "gzdoom"@,
        SourcePort::Odamex => "odamex"@,
        SourcePort::PrBoomPlus => "prboom-plus"@,
        SourcePort::Rude => "RUDE"@,
        SourcePort::Woof => "woof"@,
        SourcePort::Zandronum => "zandronum"@,
    }
}

/// Every supported engine, in declaration order.
pub open spec fn spec_all_ports() -> Seq<SourcePort> {
    seq![
        SourcePort::Chocolate,
        SourcePort::Crispy,
        SourcePort::DoomRetro,
        SourcePort::Dsda,
        SourcePort::EternityEngine,
        SourcePort::GzDoom,
        SourcePort::LzDoom,
        SourcePort::Odamex,
        SourcePort::PrBoomPlus,
        SourcePort::Rude,
        SourcePort::Woof,
        SourcePort::Zandronum,
    ]
}

/// The platforms a release may carry a download for, in the order they are looked up.
#[derive(Clone, Copy, Debug, PartialEq, Eq, Structural)]
pub enum Platform {
    Windows,
    Linux,
    Macos,
}

pub open spec fn spec_platform_label(platform: Platform) -> Seq<char> {
    match platform {
        Platform::Windows => "windows"@,
        Platform::Linux => "linux"@,
        Platform::Macos => "macos"@,
    }
}

impl Platform {
    /// The label that names this platform in a release's asset list.
    pub fn label(&self) -> (r: &'static str)
        ensures
            r@ == spec_platform_label(*self),
    {
        match self {
            Platform::Windows => "windows",
            Platform::Linux => "linux",
            Platform::Macos => "macos",
        }
    }
}

/// The asset-name pattern that picks an engine's download for a platform, where the engine
/// publishes one.
pub open spec fn spec_asset_pattern(port: SourcePort, platform: Platform) -> Option<Seq<char>> {
    match (port, platform) {
        (SourcePort::Chocolate, Platform::Windows) => Some("chocolate-doom-.*-win32.zip"@),
        (SourcePort::Chocolate, Platform::Macos) => Some("chocolate-doom-.*.dmg"@),
        (SourcePort::Crispy, Platform::Windows) => Some("crispy-doom-.*-win32.zip"@),
        (SourcePort::DoomRetro, Platform::Windows) => Some("doomretro-.*-win64.zip"@),
        (SourcePort::EternityEngine, Platform::Windows) => Some("ee-.*-win64.zip"@),
        (SourcePort::EternityEngine, Platform::Macos) => Some("ee-.*-macos.dmg"@),
        (SourcePort::GzDoom, Platform::Windows) => Some("gzdoom-.*Windows-64bit.zip"@),
        (SourcePort::GzDoom, Platform::Macos) => Some("gzdoom-.*macOS.zip"@),
        (SourcePort::LzDoom, Platform::Windows) => Some("LZDoom_.*_x64.zip"@),
        (SourcePort::LzDoom, Platform::Macos) => Some("LZDoom_.*_macOS.zip"@),
        (SourcePort::Odamex, Platform::Windows) => Some("odamex-win64-.*zip"@),
        (SourcePort::Odamex, Platform::Macos) => Some("odamex-macos-.*dmg"@),
        (SourcePort::PrBoomPlus, Platform::Windows) => Some("prboom-plus-.*-w32.zip"@),
        (SourcePort::Woof, Platform::Windows) => Some("Woof-.*-win32.zip"@),
        _ => None,
    }
}

/// The reserved version that marks a remembered "no latest release" answer.
pub const NO_LATEST_RELEASE: &'static str = "no_latest_release";

/// The pattern that extracts a version from a release tag: a run of digits followed by
/// dot-separated numbers or letter groups, as in `2.6.1um` or `4.02.00`.
pub const VERSION_PATTERN: &'static str = "\\d+(\\.\\d+|[a-z]+)+";

/// The key under which an engine's latest release is cached:
/// `<owner>.<repository, lower-cased>.latest`.
pub open spec fn spec_cache_key(port: SourcePort) -> Seq<char> {
    spec_owner(port) + "."@ + ascii_lowercase(spec_repository(port)) + ".latest"@
}

impl SourcePort {
    /// The name of the variant, as accepted by [`SourcePort::parse`].
    pub fn variant_name(&self) -> (r: &'static str)
        ensures
            r@ == spec_variant_name(*self),
    {
        match self {
            SourcePort::Chocolate => "Chocolate",
            SourcePort::Crispy => "Crispy",
            SourcePort::DoomRetro => "DoomRetro",
            SourcePort::Dsda => "Dsda",
            SourcePort::EternityEngine => "EternityEngine",
            SourcePort::GzDoom => "GzDoom",
            SourcePort::LzDoom => "LzDoom",
            SourcePort::Odamex => "Odamex",
            SourcePort::PrBoomPlus => "PrBoomPlus",
            SourcePort::Rude => "Rude",
            SourcePort::Woof => "Woof",
            SourcePort::Zandronum => "Zandronum",
        }
    }

    /// Every supported engine.
    pub fn all() -> (r: Vec<SourcePort>)
        ensures
            r@ == spec_all_ports(),
    {
        let r = vec![
            SourcePort::Chocolate,
            SourcePort::Crispy,
            SourcePort::DoomRetro,
            SourcePort::Dsda,
            SourcePort::EternityEngine,
            SourcePort::GzDoom,
            SourcePort::LzDoom,
            SourcePort::Odamex,
            SourcePort::PrBoomPlus,
            SourcePort::Rude,
            SourcePort::Woof,
            SourcePort::Zandronum,
        ];
        assert(r@ =~= spec_all_ports());
        r
    }

    /// Reads an engine from its variant name; any other text is refused.
    pub fn parse(input: &str) -> (r: Result<SourcePort, String>)
        ensures
            r matches Ok(port) ==> spec_variant_name(port) == input@,
            r is Err <==> (forall|port: SourcePort| spec_variant_name(port) != input@),
            r matches Err(m) ==> m@ == input@ + " is not a supported source port"@,
    {
        let ports = SourcePort::all();
        let mut i: usize = 0;
        while i < ports.len()
            invariant
                ports@ == spec_all_ports(),
                0 <= i <= ports@.len(),
                forall|k: int| 0 <= k < i ==> spec_variant_name(#[trigger] ports@[k]) != input@,
            decreases ports@.len() - i,
        {
            let port = ports[i];
            if same_text(port.variant_name(), input) {
                return Ok(port);
            }
            i = i + 1;
        }
        assert forall|port: SourcePort| spec_variant_name(port) != input@ by {
            assert(spec_all_ports().contains(port)) by {
                match port {
                    SourcePort::Chocolate => assert(spec_all_ports()[0] == port),
                    SourcePort::Crispy => assert(spec_all_ports()[1] == port),
                    SourcePort::DoomRetro => assert(spec_all_ports()[2] == port),
                    SourcePort::Dsda => assert(spec_all_ports()[3] == port),
                    SourcePort::EternityEngine => assert(spec_all_ports()[4] == port),
                    SourcePort::GzDoom => assert(spec_all_ports()[5] == port),
                    SourcePort::LzDoom => assert(spec_all_ports()[6] == port),
                    SourcePort::Odamex => assert(spec_all_ports()[7] == port),
                    SourcePort::PrBoomPlus => assert(spec_all_ports()[8] == port),
                    SourcePort::Rude => assert(spec_all_ports()[9] == port),
                    SourcePort::Woof => assert(spec_all_ports()[10] == port),
                    SourcePort::Zandronum => assert(spec_all_ports()[11] == port),
                }
            }
        }
        Err(join2(input, " is not a supported source port"))
    }

    /// The owner and repository that address this engine's releases.
    pub fn owner_and_repository(&self) -> (r: (&'static str, &'static str))
        ensures
            r.0@ == spec_owner(*self),
            r.1@ == spec_repository(*self),
    {
        match self {
            SourcePort::Chocolate => ("chocolate-doom", "chocolate-doom"),
            SourcePort::Crispy => ("fabiangreffrath", "crispy-doom"),
            SourcePort::DoomRetro => ("bradharding", "doomretro"),
            SourcePort::Dsda => ("kraflab", "dsda-doom"),
            SourcePort::EternityEngine => ("team-eternity", "eternity"),
            SourcePort::GzDoom => ("coelckers", "gzdoom"),
            SourcePort::LzDoom => ("drfrag666", "gzdoom"),
            SourcePort::Odamex => ("odamex", "odamex"),
            SourcePort::PrBoomPlus => ("coelckers", "prboom-plus"),
            SourcePort::Rude => ("drfrag666", "RUDE"),
            SourcePort::Woof => ("fabiangreffrath", "woof"),
            SourcePort::Zandronum => ("TorrSamaho", "zandronum"),
        }
    }

    /// The asset-name pattern for this engine on `platform`, if it publishes a download there.
    pub fn asset_pattern(&self, platform: Platform) -> (r: Option<&'static str>)
        ensures
            r is None <==> spec_asset_pattern(*self, platform) is None,
            r matches Some(p) ==> spec_asset_pattern(*self, platform) == Some(p@),
    {
        match (self, platform) {
            (SourcePort::Chocolate, Platform::Windows) => Some("chocolate-doom-.*-win32.zip"),
            (SourcePort::Chocolate, Platform::Macos) => Some("chocolate-doom-.*.dmg"),
            (SourcePort::Crispy, Platform::Windows) => Some("crispy-doom-.*-win32.zip"),
            (SourcePort::DoomRetro, Platform::Windows) => Some("doomretro-.*-win64.zip"),
            (SourcePort::EternityEngine, Platform::Windows) => Some("ee-.*-win64.zip"),
            (SourcePort::EternityEngine, Platform::Macos) => Some("ee-.*-macos.dmg"),
            (SourcePort::GzDoom, Platform::Windows) => Some("gzdoom-.*Windows-64bit.zip"),
            (SourcePort::GzDoom, Platform::Macos) => Some("gzdoom-.*macOS.zip"),
            (SourcePort::LzDoom, Platform::Windows) => Some("LZDoom_.*_x64.zip"),
            (SourcePort::LzDoom, Platform::Macos) => Some("LZDoom_.*_macOS.zip"),
            (SourcePort::Odamex, Platform::Windows) => Some("odamex-win64-.*zip"),
            (SourcePort::Odamex, Platform::Macos) => Some("odamex-macos-.*dmg"),
            (SourcePort::PrBoomPlus, Platform::Windows) => Some("prboom-plus-.*-w32.zip"),
            (SourcePort::Woof, Platform::Windows) => Some("Woof-.*-win32.zip"),
            _ => None,
        }
    }

    /// The key under which this engine's latest release is cached.
    pub fn cache_key(&self) -> (r: String)
        ensures
            r@ == spec_cache_key(*self),
    {
        let (owner, repository) = self.owner_and_repository();
        let lowered = to_ascii_lowercase(repository);
        let head = join2(owner, ".");
        join3(head.as_str(), lowered.as_str(), ".latest")
    }
}

impl std::str::FromStr for SourcePort {
    type Err = String;

    fn from_str(input: &str) -> Result<SourcePort, String> {
        SourcePort::parse(input)
    }
}


/// The difficulty a game is started at.
#[derive(Clone, Copy, Debug, PartialEq, Eq, Structural)]
pub enum Skill {
    TooYoungToDie,
    HeyNotTooRough,
    HurtMePlenty,
    UltraViolence,
    Nightmare,
}

pub open spec fn spec_skill_name(skill: Skill) -> Seq<char> {
    match skill {
        Skill::TooYoungToDie => "TooYoungToDie"@,
        Skill::HeyNotTooRough => "HeyNotTooRough"@,
        Skill::HurtMePlenty => "HurtMePlenty"@,
        Skill::UltraViolence => "UltraViolence"@,
        Skill::Nightmare => "Nightmare"@,
    }
}

/// The number an engine's `-skill` argument takes for a skill.
pub open spec fn spec_skill_level(skill: Skill) -> u8 {
    match skill {
        Skill::TooYoungToDie => 1,
        Skill::HeyNotTooRough => 2,
        Skill::HurtMePlenty => 3,
        Skill::UltraViolence => 4,
        Skill::Nightmare => 5,
    }
}

impl Skill {
    /// Reads a skill from its variant name; any other text is refused.
    pub fn parse(input: &str) -> (r: Result<Skill, String>)
        ensures
            r matches Ok(skill) ==> spec_skill_name(skill) == input@,
            r is Err <==> (forall|skill: Skill| spec_skill_name(skill) != input@),
            r matches Err(m) ==> m@ == input@ + " is not a valid skill"@,
    {
        if same_text(input, "TooYoungToDie") {
            assert(spec_skill_name(Skill::TooYoungToDie) == input@);
            Ok(Skill::TooYoungToDie)
        } else if same_text(input, "HeyNotTooRough") {
            assert(spec_skill_name(Skill::HeyNotTooRough) == input@);
            Ok(Skill::HeyNotTooRough)
        } else if same_text(input, "HurtMePlenty") {
            assert(spec_skill_name(Skill::HurtMePlenty) == input@);
            Ok(Skill::HurtMePlenty)
        } else if same_text(input, "UltraViolence") {
            assert(spec_skill_name(Skill::UltraViolence) == input@);
            Ok(Skill::UltraViolence)
        } else if same_text(input, "Nightmare") {
            assert(spec_skill_name(Skill::Nightmare) == input@);
            Ok(Skill::Nightmare)
        } else {
            assert forall|skill: Skill| spec_skill_name(skill) != input@ by {
                match skill {
                    Skill::TooYoungToDie => {},
                    Skill::HeyNotTooRough => {},
                    Skill::HurtMePlenty => {},
                    Skill::UltraViolence => {},
                    Skill::Nightmare => {},
                }
            }
            Err(join2(input, " is not a valid skill"))
        }
    }

    /// The number an engine's `-skill` argument takes for this skill.
    pub fn level(&self) -> (r: u8)
        ensures
            r == spec_skill_level(*self),
    {
        match self {
            Skill::TooYoungToDie => 1,
            Skill::HeyNotTooRough => 2,
            Skill::HurtMePlenty => 3,
            Skill::UltraViolence => 4,
            Skill::Nightmare => 5,
        }
    }
}

impl std::str::FromStr for Skill {
    type Err = String;

    fn from_str(input: &str) -> Result<Skill, String> {
        Skill::parse(input)
    }
}

/// An engine installed on this machine.
#[derive(Debug)]
pub struct InstalledSourcePort {
    pub name: SourcePort,
    pub path: String,
    pub version: String,
}

pub open spec fn not_a_file_message() -> Seq<char> {
    "The source port must point to a valid exe file"@
}

pub open spec fn empty_version_message() -> Seq<char> {
    "The version of the source port must be set"@
}

impl InstalledSourcePort {
    /// Records an installed engine; `path_is_file` tells whether `path` is an existing file.
    pub fn new(name: SourcePort, path: String, version: &str, path_is_file: bool) -> (r: Result<InstalledSourcePort, String>)
        ensures
            !path_is_file ==> (r matches Err(m) && m@ == not_a_file_message()),
            path_is_file && version@.len() == 0 ==> (r matches Err(m) && m@ == empty_version_message()),
            path_is_file && version@.len() > 0 ==> (r matches Ok(isp) && isp.name == name && isp.path == path
                && isp.version@ == version@),
    {
        if !path_is_file {
            return Err("The source port must point to a valid exe file".to_owned());
        }
        if version.unicode_len() == 0 {
            return Err("The version of the source port must be set".to_owned());
        }
        Ok(InstalledSourcePort { name, path, version: version.to_owned() })
    }
}

/// One downloadable file of a release: the platform label and the download address.
pub type ReleaseAssetLink = (String, String);

/// One published version of an engine.
#[derive(Debug)]
pub struct SourcePortRelease {
    pub source_port: SourcePort,
    pub owner: String,
    pub repository: String,
    pub version: String,
    pub assets: Vec<ReleaseAssetLink>,
}

/// The abstract content of a [`SourcePortRelease`].
pub struct ReleaseView {
    pub source_port: SourcePort,
    pub owner: Seq<char>,
    pub repository: Seq<char>,
    pub version: Seq<char>,
    pub assets: Seq<(Seq<char>, Seq<char>)>,
}

pub open spec fn link_views(links: Seq<ReleaseAssetLink>) -> Seq<(Seq<char>, Seq<char>)> {
    links.map_values(|l: ReleaseAssetLink| (l.0@, l.1@))
}

impl View for SourcePortRelease {
    type V = ReleaseView;

    open spec fn view(&self) -> ReleaseView {
        ReleaseView {
            source_port: self.source_port,
            owner: self.owner@,
            repository: self.repository@,
            version: self.version@,
            assets: link_views(self.assets@),
        }
    }
}

/// A copy of a list of asset links.
pub fn copy_links(links: &Vec<ReleaseAssetLink>) -> (r: Vec<ReleaseAssetLink>)
    ensures
        r@ == links@,
{
    let mut r: Vec<ReleaseAssetLink> = Vec::new();
    let mut i: usize = 0;
    while i < links.len()
        invariant
            0 <= i <= links@.len(),
            r@ == links@.subrange(0, i as int),
        decreases links@.len() - i,
    {
        let link = &links[i];
        r.push((link.0.clone(), link.1.clone()));
        assert(r@ =~= links@.subrange(0, i + 1));
        i = i + 1;
    }
    assert(r@ =~= links@);
    r
}

impl Clone for SourcePortRelease {
    fn clone(&self) -> (r: Self)
        ensures
            r@ == self@,
    {
        SourcePortRelease {
            source_port: self.source_port,
            owner: self.owner.clone(),
            repository: self.repository.clone(),
            version: self.version.clone(),
            assets: copy_links(&self.assets),
        }
    }
}

impl SourcePortRelease {
    /// The download address this release offers for `platform`: that of its first asset
    /// labelled for the platform.
    pub fn download_for(&self, platform: Platform) -> (r: Option<String>)
        ensures
            r is None <==> (forall|i: int| 0 <= i < self.assets@.len() ==> (#[trigger] self.assets@[i]).0@ != spec_platform_label(platform)),
            r matches Some(url) ==> exists|i: int| 0 <= i < self.assets@.len()
                && (#[trigger] self.assets@[i]).0@ == spec_platform_label(platform)
                && url == self.assets@[i].1
                && (forall|j: int| 0 <= j < i ==> (#[trigger] self.assets@[j]).0@ != spec_platform_label(platform)),
    {
        let label = platform.label();
        let mut i: usize = 0;
        while i < self.assets.len()
            invariant
                0 <= i <= self.assets@.len(),
                label@ == spec_platform_label(platform),
                forall|j: int| 0 <= j < i ==> (#[trigger] self.assets@[j]).0@ != spec_platform_label(platform),
            decreases self.assets@.len() - i,
        {
            if same_text(self.assets[i].0.as_str(), label) {
                return Some(self.assets[i].1.clone());
            }
            i = i + 1;
        }
        None
    }
}

/// A release together with the instant it was fetched, in seconds since the Unix epoch.
#[derive(Debug)]
pub struct CachedSourcePortRelease {
    pub cached_date: i64,
    pub release: SourcePortRelease,
}

pub struct CachedReleaseView {
    pub cached_date: i64,
    pub release: ReleaseView,
}

impl View for CachedSourcePortRelease {
    type V = CachedReleaseView;

    open spec fn view(&self) -> CachedReleaseView {
        CachedReleaseView { cached_date: self.cached_date, release: self.release@ }
    }
}

/// Why the latest release of an engine could not be had.
#[derive(Debug)]
pub enum SourcePortError {
    /// The release authority marks no release of this engine as the latest.
    NoLatestRelease(SourcePort),
    /// The tag of the latest release holds no version: the tag and the engine's name.
    VersionParsing(String, String),
    /// The release authority could not be reached.
    TransportError(String),
    /// The release authority's answer could not be read.
    ParseError(String),
    /// The release cache failed.
    StorageError(StorageError),
}

pub open spec fn no_latest_release_message(port: SourcePort) -> Seq<char> {
    "The source port "@ + spec_display_name(port) + " has no releases marked as latest"@
}

pub open spec fn version_parsing_message(tag: Seq<char>, name: Seq<char>) -> Seq<char> {
    "Could not parse version number from "@ + tag + " for "@ + name + " source port"@
}

pub open spec fn transport_message(detail: Seq<char>) -> Seq<char> {
    "Failed to retrieve release request response from Github API: "@ + detail
}

impl SourcePortError {
    /// The text shown to a user for this error.
    pub fn message(&self) -> (r: String)
        ensures
            *self matches SourcePortError::NoLatestRelease(p) ==> r@ == no_latest_release_message(p),
            *self matches SourcePortError::VersionParsing(t, n) ==> r@ == version_parsing_message(t@, n@),
            *self matches SourcePortError::TransportError(d) ==> r@ == transport_message(d@),
            *self matches SourcePortError::ParseError(d) ==> r@ == d@,
            *self matches SourcePortError::StorageError(e) ==> r@ == e.message_view(),
    {
        match self {
            SourcePortError::NoLatestRelease(p) => {
                join3("The source port ", p.display_name(), " has no releases marked as latest")
            },
            SourcePortError::VersionParsing(t, n) => {
                let head = join3("Could not parse version number from ", t.as_str(), " for ");
                join3(head.as_str(), n.as_str(), " source port")
            },
            SourcePortError::TransportError(d) => {
                join2("Failed to retrieve release request response from Github API: ", d.as_str())
            },
            SourcePortError::ParseError(d) => d.clone(),
            SourcePortError::StorageError(e) => e.message(),
        }
    }
}


/// One file attached to a release, as the release authority lists it.
#[derive(Debug)]
pub struct ReleaseAsset {
    pub name: String,
    pub browser_download_url: String,
}

/// The parts of the release authority's answer about a latest release that are read.
#[derive(Debug)]
pub struct ReleaseResponse {
    /// The release's tag; absent when no release is marked as the latest.
    pub tag_name: Option<String>,
    pub assets: Vec<ReleaseAsset>,
}

/// The position of the first `true` at or after `start`.
pub open spec fn first_true_from(flags: Seq<bool>, start: int) -> Option<int>
    decreases flags.len() - start,
{
    if 0 <= start < flags.len() {
        if flags[start] {
            Some(start)
        } else {
            first_true_from(flags, start + 1)
        }
    } else {
        None
    }
}

/// A position found by [`first_true_from`] lies within the flags and holds `true`.
pub proof fn lemma_first_true_in_range(flags: Seq<bool>, start: int)
    ensures
        first_true_from(flags, start) matches Some(i) ==> start <= i < flags.len() && flags[i],
    decreases flags.len() - start,
{
    if 0 <= start < flags.len() && !flags[start] {
        lemma_first_true_in_range(flags, start + 1);
    }
}

/// Whether each asset's name matches `pattern`.
pub open spec fn asset_name_hits(pattern: Seq<char>, assets: Seq<ReleaseAsset>) -> Seq<bool> {
    assets.map_values(|a: ReleaseAsset| regex_matches(pattern, a.name@))
}

/// The link to the first asset flagged in `hits`, labelled for `platform`.
pub open spec fn flagged_link(platform: Platform, assets: Seq<ReleaseAsset>, hits: Seq<bool>) -> Option<(Seq<char>, Seq<char>)> {
    match first_true_from(hits, 0) {
        Some(i) => Some((spec_platform_label(platform), assets[i].browser_download_url@)),
        None => None,
    }
}

/// The download an engine's release offers for a platform: the first asset whose name
/// matches the engine's pattern for that platform.
pub open spec fn spec_platform_link(port: SourcePort, platform: Platform, assets: Seq<ReleaseAsset>) -> Option<(Seq<char>, Seq<char>)> {
    match spec_asset_pattern(port, platform) {
        Some(p) => flagged_link(platform, assets, asset_name_hits(p, assets)),
        None => None,
    }
}

pub open spec fn option_seq<T>(o: Option<T>) -> Seq<T> {
    match o {
        Some(x) => seq![x],
        None => Seq::empty(),
    }
}

/// The downloads of a release, at most one per platform, in platform order.
pub open spec fn spec_release_links(port: SourcePort, assets: Seq<ReleaseAsset>) -> Seq<(Seq<char>, Seq<char>)> {
    option_seq(spec_platform_link(port, Platform::Windows, assets))
        + option_seq(spec_platform_link(port, Platform::Linux, assets))
        + option_seq(spec_platform_link(port, Platform::Macos, assets))
}

/// Whether a label names one of the platforms.
pub open spec fn is_platform_label(label: Seq<char>) -> bool {
    exists|p: Platform| spec_platform_label(p) == label
}

/// The downloads of a release read from an answer name each platform at most once, and only
/// the known platforms.
pub proof fn lemma_release_links_one_per_platform(port: SourcePort, assets: Seq<ReleaseAsset>)
    ensures
        forall|i: int| 0 <= i < spec_release_links(port, assets).len()
            ==> is_platform_label(#[trigger] spec_release_links(port, assets)[i].0),
        forall|i: int, j: int| 0 <= i < j < spec_release_links(port, assets).len()
            ==> spec_release_links(port, assets)[i].0 != spec_release_links(port, assets)[j].0,
{
    reveal_strlit("windows");
    reveal_strlit("linux");
    reveal_strlit("macos");
    let w = option_seq(spec_platform_link(port, Platform::Windows, assets));
    let l = option_seq(spec_platform_link(port, Platform::Linux, assets));
    let m = option_seq(spec_platform_link(port, Platform::Macos, assets));
    let links = spec_release_links(port, assets);
    assert(links == w + l + m);
    assert(forall|k: int| 0 <= k < w.len() ==> (#[trigger] w[k]).0 == spec_platform_label(Platform::Windows));
    assert(forall|k: int| 0 <= k < l.len() ==> (#[trigger] l[k]).0 == spec_platform_label(Platform::Linux));
    assert(forall|k: int| 0 <= k < m.len() ==> (#[trigger] m[k]).0 == spec_platform_label(Platform::Macos));
    assert("windows"@.len() == 7 && "linux"@.len() == 5 && "macos"@.len() == 5);
    assert("windows"@ != "linux"@ && "windows"@ != "macos"@);
    assert("linux"@[0] != "macos"@[0]);
    assert forall|i: int| 0 <= i < links.len() implies is_platform_label(#[trigger] links[i].0) by {
        if i < w.len() {
            assert(links[i] == w[i]);
        } else if i < w.len() + l.len() {
            assert(links[i] == l[i - w.len()]);
        } else {
            assert(links[i] == m[i - w.len() - l.len()]);
        }
    }
    assert forall|i: int, j: int| 0 <= i < j < links.len() implies links[i].0 != links[j].0 by {
        let ghost li = if i < w.len() { Platform::Windows } else if i < w.len() + l.len() { Platform::Linux } else { Platform::Macos };
        let ghost lj = if j < w.len() { Platform::Windows } else if j < w.len() + l.len() { Platform::Linux } else { Platform::Macos };
        if i < w.len() {
            assert(links[i] == w[i]);
        } else if i < w.len() + l.len() {
            assert(links[i] == l[i - w.len()]);
        } else {
            assert(links[i] == m[i - w.len() - l.len()]);
        }
        if j < w.len() {
            assert(links[j] == w[j]);
        } else if j < w.len() + l.len() {
            assert(links[j] == l[j - w.len()]);
        } else {
            assert(links[j] == m[j - w.len() - l.len()]);
        }
        assert(li != lj);
    }
}

/// The release described by its parts.
pub open spec fn spec_release(port: SourcePort, version: Seq<char>, links: Seq<(Seq<char>, Seq<char>)>) -> ReleaseView {
    ReleaseView {
        source_port: port,
        owner: spec_owner(port),
        repository: spec_repository(port),
        version,
        assets: links,
    }
}

/// The position of the first `true` in `flags`.
pub fn first_flagged(flags: &Vec<bool>) -> (r: Option<usize>)
    ensures
        r is None <==> first_true_from(flags@, 0) is None,
        r matches Some(i) ==> first_true_from(flags@, 0) == Some(i as int),
{
    let mut i: usize = 0;
    while i < flags.len()
        invariant
            0 <= i <= flags@.len(),
            first_true_from(flags@, 0) == first_true_from(flags@, i as int),
        decreases flags@.len() - i,
    {
        if flags[i] {
            return Some(i);
        }
        i = i + 1;
    }
    None
}

/// The download for `platform` among `assets`, given which asset names match the platform's
/// pattern.
pub fn link_for_hits(platform: Platform, assets: &Vec<ReleaseAsset>, hits: &Vec<bool>) -> (r: Option<ReleaseAssetLink>)
    requires
        hits@.len() == assets@.len(),
    ensures
        r is None <==> flagged_link(platform, assets@, hits@) is None,
        r matches Some(l) ==> flagged_link(platform, assets@, hits@) == Some((l.0@, l.1@)),
{
    proof {
        lemma_first_true_in_range(hits@, 0);
    }
    match first_flagged(hits) {
        Some(i) => Some((platform.label().to_owned(), assets[i].browser_download_url.clone())),
        None => None,
    }
}

/// The download an engine's release offers for `platform`.
fn platform_link(port: SourcePort, platform: Platform, assets: &Vec<ReleaseAsset>) -> (r: Option<ReleaseAssetLink>)
    ensures
        r is None <==> spec_platform_link(port, platform, assets@) is None,
        r matches Some(l) ==> spec_platform_link(port, platform, assets@) == Some((l.0@, l.1@)),
{
    match port.asset_pattern(platform) {
        None => None,
        Some(pattern) => {
            let mut hits: Vec<bool> = Vec::new();
            let mut i: usize = 0;
            while i < assets.len()
                invariant
                    0 <= i <= assets@.len(),
                    hits@ == asset_name_hits(pattern@, assets@).subrange(0, i as int),
                decreases assets@.len() - i,
            {
                hits.push(is_match(pattern, assets[i].name.as_str()));
                assert(hits@ =~= asset_name_hits(pattern@, assets@).subrange(0, i + 1));
                i = i + 1;
            }
            assert(hits@ =~= asset_name_hits(pattern@, assets@));
            link_for_hits(platform, assets, &hits)
        },
    }
}

/// The downloads of an engine's release, at most one per platform, in platform order.
pub fn release_links(port: SourcePort, assets: &Vec<ReleaseAsset>) -> (r: Vec<ReleaseAssetLink>)
    ensures
        link_views(r@) == spec_release_links(port, assets@),
{
    let mut links: Vec<ReleaseAssetLink> = Vec::new();
    let ghost mut expected: Seq<(Seq<char>, Seq<char>)> = Seq::empty();
    let platforms = [Platform::Windows, Platform::Linux, Platform::Macos];
    let mut k: usize = 0;
    while k < 3
        invariant
            0 <= k <= 3,
            platforms@ == seq![Platform::Windows, Platform::Linux, Platform::Macos],
            link_views(links@) == expected,
            k == 0 ==> expected == Seq::<(Seq<char>, Seq<char>)>::empty(),
            k == 1 ==> expected == option_seq(spec_platform_link(port, Platform::Windows, assets@)),
            k == 2 ==> expected == option_seq(spec_platform_link(port, Platform::Windows, assets@))
                + option_seq(spec_platform_link(port, Platform::Linux, assets@)),
            k == 3 ==> expected == spec_release_links(port, assets@),
        decreases 3 - k,
    {
        let platform = platforms[k];
        let link = platform_link(port, platform, assets);
        proof {
            expected = expected + option_seq(spec_platform_link(port, platform, assets@));
        }
        match link {
            Some(l) => {
                links.push(l);
            },
            None => {},
        }
        assert(link_views(links@) =~= expected);
        k = k + 1;
    }
    links
}

/// The release named by a tag, given what the version pattern found in the tag.
pub fn release_from_version(port: SourcePort, tag: &str, version: Option<String>, links: Vec<ReleaseAssetLink>) -> (r: Result<SourcePortRelease, SourcePortError>)
    ensures
        version is None ==> (r matches Err(SourcePortError::VersionParsing(t, n)) && t@ == tag@
            && n@ == spec_display_name(port)),
        version matches Some(v) ==> (r matches Ok(rel) && rel@ == spec_release(port, v@, link_views(links@))),
{
    match version {
        None => Err(SourcePortError::VersionParsing(tag.to_owned(), port.display_name().to_owned())),
        Some(v) => {
            let (owner, repository) = port.owner_and_repository();
            Ok(SourcePortRelease {
                source_port: port,
                owner: owner.to_owned(),
                repository: repository.to_owned(),
                version: v,
                assets: links,
            })
        },
    }
}

/// Reads the latest release of an engine from the release authority's answer.
///
/// With no tag, no release is marked as the latest. Otherwise the version is the first match
/// of [`VERSION_PATTERN`] in the tag, and each platform's download is the first asset whose
/// name matches the engine's pattern for that platform.
pub fn release_from_response(port: SourcePort, response: &ReleaseResponse) -> (r: Result<SourcePortRelease, SourcePortError>)
    ensures
        response.tag_name is None ==> (r matches Err(SourcePortError::NoLatestRelease(p)) && p == port),
        response.tag_name matches Some(tag) ==> match regex_first_match(VERSION_PATTERN@, tag@) {
            None => r matches Err(SourcePortError::VersionParsing(t, n)) && t@ == tag@
                && n@ == spec_display_name(port),
            Some(v) => r matches Ok(rel)
                && rel@ == spec_release(port, v, spec_release_links(port, response.assets@)),
        },
{
    match &response.tag_name {
        None => Err(SourcePortError::NoLatestRelease(port)),
        Some(tag) => {
            let version = find_first(VERSION_PATTERN, tag.as_str());
            let links = release_links(port, &response.assets);
            release_from_version(port, tag.as_str(), version, links)
        },
    }
}

/// The base address of the release authority's API.
pub const GITHUB_API_URL: &'static str = "https://api.github.com";

/// The remote release authority, addressed by its API's base address.
#[derive(Debug)]
pub struct GithubReleaseRepository {
    pub api_base_url: String,
}

impl GithubReleaseRepository {
    pub fn new() -> (r: GithubReleaseRepository)
        ensures
            r.api_base_url@ == GITHUB_API_URL@,
    {
        GithubReleaseRepository { api_base_url: GITHUB_API_URL.to_owned() }
    }

    /// The address that answers with an engine's latest release:
    /// `<base>/repos/<owner>/<repository>/releases/latest`.
    pub fn latest_release_url(&self, port: SourcePort) -> (r: String)
        ensures
            r@ == self.api_base_url@ + "/repos/"@ + spec_owner(port) + "/"@ + spec_repository(port)
                + "/releases/latest"@,
    {
        let (owner, repository) = port.owner_and_repository();
        let a = join3(self.api_base_url.as_str(), "/repos/", owner);
        let b = join3(a.as_str(), "/", repository);
        join2(b.as_str(), "/releases/latest")
    }
}

} // verus!

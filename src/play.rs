//! Starting a game: which profile and engine to use, and the engine's arguments.
use crate::profile::Profile;
use crate::settings::AppSettings;
use crate::source_port::{spec_variant_name, InstalledSourcePort, Skill, SourcePort};
use crate::text::{char_text, contains_char, join3};
use crate::wad::{MapInfo, WadEntry};
use vstd::prelude::*;
use vstd::string::*;

verus! {

pub open spec fn missing_profile_message(name: Seq<char>) -> Seq<char> {
    "Failed to find '"@ + name + "' profile"@
}

pub open spec fn missing_port_message(port: SourcePort, version: Seq<char>) -> Seq<char> {
    "Failed to find the "@ + spec_variant_name(port) + "-"@ + version + " source port"@
}

pub open spec fn missing_map_message(map: Seq<char>, megawad: Seq<char>) -> Seq<char> {
    "Could not find "@ + map + " in "@ + megawad
}

/// The profile to play with: the one named, or else the default one; the first such
/// profile is taken.
pub fn get_profile<'a>(settings: &'a AppSettings, profile: Option<String>) -> (r: Result<&'a Profile, String>)
    ensures
        profile matches Some(name) ==> {
            &&& r is Err <==> (forall|i: int| 0 <= i < settings.profiles@.len() ==> (#[trigger] settings.profiles@[i]).name@ != name@)
            &&& r matches Err(m) ==> m@ == missing_profile_message(name@)
            &&& r matches Ok(p) ==> exists|i: int| 0 <= i < settings.profiles@.len() && settings.profiles@[i] == *p
                && p.name@ == name@
                && (forall|j: int| 0 <= j < i ==> (#[trigger] settings.profiles@[j]).name@ != name@)
        },
        profile is None ==> {
            &&& r is Err <==> (forall|i: int| 0 <= i < settings.profiles@.len() ==> !(#[trigger] settings.profiles@[i]).default)
            &&& r matches Err(m) ==> m@ == "Failed to find a default profile"@
            &&& r matches Ok(p) ==> exists|i: int| 0 <= i < settings.profiles@.len() && settings.profiles@[i] == *p
                && p.default
                && (forall|j: int| 0 <= j < i ==> !(#[trigger] settings.profiles@[j]).default)
        },
{
    match profile {
        Some(name) => match position_named(&settings.profiles, &name) {
            Some(i) => Ok(&settings.profiles[i]),
            None => Err(join3("Failed to find '", name.as_str(), "' profile")),
        },
        None => match position_default(&settings.profiles) {
            Some(i) => Ok(&settings.profiles[i]),
            None => Err("Failed to find a default profile".to_owned()),
        },
    }
}

/// The position of the first profile named `name`.
fn position_named(profiles: &Vec<Profile>, name: &String) -> (r: Option<usize>)
    ensures
        r is None <==> (forall|i: int| 0 <= i < profiles@.len() ==> (#[trigger] profiles@[i]).name@ != name@),
        r matches Some(i) ==> i < profiles@.len() && profiles@[i as int].name@ == name@
            && (forall|j: int| 0 <= j < i ==> (#[trigger] profiles@[j]).name@ != name@),
{
    let mut i: usize = 0;
    while i < profiles.len()
        invariant
            0 <= i <= profiles@.len(),
            forall|j: int| 0 <= j < i ==> (#[trigger] profiles@[j]).name@ != name@,
        decreases profiles@.len() - i,
    {
        if profiles[i].name == *name {
            return Some(i);
        }
        i = i + 1;
    }
    None
}

/// The position of the first default profile.
fn position_default(profiles: &Vec<Profile>) -> (r: Option<usize>)
    ensures
        r is None <==> (forall|i: int| 0 <= i < profiles@.len() ==> !(#[trigger] profiles@[i]).default),
        r matches Some(i) ==> i < profiles@.len() && profiles@[i as int].default
            && (forall|j: int| 0 <= j < i ==> !(#[trigger] profiles@[j]).default),
{
    let mut i: usize = 0;
    while i < profiles.len()
        invariant
            0 <= i <= profiles@.len(),
            forall|j: int| 0 <= j < i ==> !(#[trigger] profiles@[j]).default,
        decreases profiles@.len() - i,
    {
        if profiles[i].default {
            return Some(i);
        }
        i = i + 1;
    }
    None
}

/// The installed engine a profile plays with: the first one of the profile's engine type.
pub fn get_source_port<'a>(settings: &'a AppSettings, profile: &Profile) -> (r: Result<&'a InstalledSourcePort, String>)
    ensures
        r is Err <==> (forall|i: int| 0 <= i < settings.source_ports@.len()
            ==> (#[trigger] settings.source_ports@[i]).name != profile.source_port_type),
        r matches Err(m) ==> m@ == missing_port_message(profile.source_port_type, profile.source_port_version@),
        r matches Ok(sp) ==> exists|i: int| 0 <= i < settings.source_ports@.len() && settings.source_ports@[i] == *sp
            && sp.name == profile.source_port_type
            && (forall|j: int| 0 <= j < i ==> (#[trigger] settings.source_ports@[j]).name != profile.source_port_type),
{
    let ports = &settings.source_ports;
    let mut i: usize = 0;
    while i < ports.len()
        invariant
            ports@ == settings.source_ports@,
            0 <= i <= ports@.len(),
            forall|j: int| 0 <= j < i ==> (#[trigger] ports@[j]).name != profile.source_port_type,
        decreases ports@.len() - i,
    {
        if ports[i].name == profile.source_port_type {
            let found = &ports[i];
            assert(settings.source_ports@[i as int] == *found);
            return Ok(found);
        }
        i = i + 1;
    }
    let a = join3("Failed to find the ", profile.source_port_type.variant_name(), "-");
    Err(join3(a.as_str(), profile.source_port_version.as_str(), " source port"))
}

pub open spec fn spec_level_text(skill: Skill) -> Seq<char> {
    match skill {
        Skill::TooYoungToDie => "1"@,
        Skill::HeyNotTooRough => "2"@,
        Skill::HurtMePlenty => "3"@,
        Skill::UltraViolence => "4"@,
        Skill::Nightmare => "5"@,
    }
}

fn level_text(skill: Skill) -> (r: &'static str)
    ensures
        r@ == spec_level_text(skill),
{
    match skill {
        Skill::TooYoungToDie => "1",
        Skill::HeyNotTooRough => "2",
        Skill::HurtMePlenty => "3",
        Skill::UltraViolence => "4",
        Skill::Nightmare => "5",
    }
}

/// The arguments that follow `-warp` for a map's warp value: episode and mission as two
/// arguments for `x y`, or the value itself.
pub open spec fn warp_args(warp: Seq<char>) -> Seq<Seq<char>> {
    if warp.contains(' ') && warp.len() >= 3 {
        seq![seq![warp[0]], seq![warp[2]]]
    } else {
        seq![warp]
    }
}

/// The engine's arguments for a profile, an IWAD path and, when a map is chosen, its warp
/// value.
pub open spec fn spec_game_args(profile: Profile, iwad_path: Seq<char>, warp: Option<Seq<char>>) -> Seq<Seq<char>> {
    seq!["-iwad"@, iwad_path, "-skill"@, spec_level_text(profile.skill)]
        + (if !profile.music { seq!["-nomusic"@] } else { Seq::empty() })
        + (if !profile.fullscreen { seq!["-nofullscreen"@] } else { Seq::empty() })
        + match warp {
            Some(w) => seq!["-warp"@] + warp_args(w),
            None => Seq::empty(),
        }
}

pub open spec fn texts(v: Seq<String>) -> Seq<Seq<char>> {
    v.map_values(|s: String| s@)
}

/// The position of the first map numbered `number`.
fn find_map(maps: &Vec<MapInfo>, number: &String) -> (r: Option<usize>)
    ensures
        r is None <==> (forall|i: int| 0 <= i < maps@.len() ==> (#[trigger] maps@[i]).number@ != number@),
        r matches Some(i) ==> i < maps@.len() && maps@[i as int].number@ == number@
            && (forall|j: int| 0 <= j < i ==> (#[trigger] maps@[j]).number@ != number@),
{
    let mut i: usize = 0;
    while i < maps.len()
        invariant
            0 <= i <= maps@.len(),
            forall|j: int| 0 <= j < i ==> (#[trigger] maps@[j]).number@ != number@,
        decreases maps@.len() - i,
    {
        if maps[i].number == *number {
            return Some(i);
        }
        i = i + 1;
    }
    None
}

/// The engine's arguments to play `megawad`, whose record is `wad_entry` and whose file is
/// at `iwad_path`, with `profile`, starting at `map` when one is chosen; the map must be one
/// of the WAD's.
pub fn get_args(profile: &Profile, iwad_path: &str, wad_entry: &WadEntry, megawad: &str, map: &Option<String>) -> (r: Result<Vec<String>, String>)
    ensures
        map is None ==> (r matches Ok(args) && texts(args@) == spec_game_args(*profile, iwad_path@, None)),
        map matches Some(m) ==> {
            &&& r is Err <==> (forall|i: int| 0 <= i < wad_entry.maps@.len() ==> (#[trigger] wad_entry.maps@[i]).number@ != m@)
            &&& r matches Err(e) ==> e@ == missing_map_message(m@, megawad@)
            &&& r matches Ok(args) ==> exists|i: int| 0 <= i < wad_entry.maps@.len()
                && wad_entry.maps@[i].number@ == m@
                && (forall|j: int| 0 <= j < i ==> (#[trigger] wad_entry.maps@[j]).number@ != m@)
                && texts(args@) == spec_game_args(*profile, iwad_path@, Some(wad_entry.maps@[i].warp@))
        },
{
    let mut args: Vec<String> = Vec::new();
    args.push("-iwad".to_owned());
    args.push(iwad_path.to_owned());
    args.push("-skill".to_owned());
    args.push(level_text(profile.skill).to_owned());
    if !profile.music {
        args.push("-nomusic".to_owned());
    }
    if !profile.fullscreen {
        args.push("-nofullscreen".to_owned());
    }
    let ghost base = spec_game_args(*profile, iwad_path@, None);
    assert(texts(args@) =~= base);
    match map {
        None => Ok(args),
        Some(m) => {
            let i = match find_map(&wad_entry.maps, m) {
                Some(i) => i,
                None => return Err(join3("Could not find ", m.as_str(), " in ").concat(megawad)),
            };
            let warp = wad_entry.maps[i].warp.as_str();
            args.push("-warp".to_owned());
            let n = warp.unicode_len();
            if contains_char(warp, ' ') && n >= 3 {
                args.push(char_text(warp, 0));
                args.push(char_text(warp, 2));
            } else {
                args.push(warp.to_owned());
            }
            assert(texts(args@) =~= spec_game_args(*profile, iwad_path@, Some(warp@)));
            Ok(args)
        },
    }
}

} // verus!

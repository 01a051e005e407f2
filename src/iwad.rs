//! The commercial IWADs the launcher knows: their release details and map names, and the
//! maps found in an IWAD's lump directory.
use crate::text::{join2, same_text};
use crate::wad::{spec_valid_map_number, spec_warp, MapInfo, WadDirectoryEntry, WadMetadata};
use vstd::prelude::*;
use vstd::string::*;

verus! {

/// A supported IWAD.
#[derive(Clone, Copy, Debug, PartialEq, Eq, Structural)]
pub enum Iwad {
    Doom,
    Doom2,
    Plutonia,
    Tnt,
}

/// The file name each supported IWAD is known by.
pub open spec fn spec_iwad_file_name(iwad: Iwad) -> Seq<char> {
    match iwad {
        Iwad::Doom => "DOOM.WAD"@,
        Iwad::Doom2 => "DOOM2.WAD"@,
        Iwad::Plutonia => "PLUTONIA.WAD"@,
        Iwad::Tnt => "TNT.WAD"@,
    }
}

/// The title, release date and author of a supported IWAD.
pub open spec fn spec_iwad_info(iwad: Iwad) -> (Seq<char>, Seq<char>, Seq<char>) {
    match iwad {
        Iwad::Doom => ("The Ultimate DOOM"@, "1995-04-30"@, "id Software"@),
        Iwad::Doom2 => ("Doom II: Hell on Earth"@, "1994-09-30"@, "id Software"@),
        Iwad::Plutonia => ("The Plutonia Experiment"@, "1996-06-17"@, "Dario Casali & Milo Casali"@),
        Iwad::Tnt => ("TNT: Evilution"@, "1996-06-17"@, "TeamTNT"@),
    }
}

/// The map numbers and names of a supported IWAD.
pub open spec fn spec_map_table(iwad: Iwad) -> Seq<(Seq<char>, Seq<char>)> {
    match iwad {
        Iwad::Doom => seq![
            ("E1M1"@, "Hanger"@),
            ("E1M2"@, "Nuclear Plant"@),
            ("E1M3"@, "Toxin Refinery"@),
            ("E1M4"@, "Command Control"@),
            ("E1M5"@, "Phobos Lab"@),
            ("E1M6"@, "Central Processing"@),
            ("E1M7"@, "Computer Station"@),
            ("E1M8"@, "Phobos Anomaly"@),
            ("E1M9"@, "Military Base"@),
            ("E2M1"@, "Deimos Anomaly"@),
            ("E2M2"@, "Containment Area"@),
            ("E2M3"@, "Refinery"@),
            ("E2M4"@, "Deimos Lab"@),
            ("E2M5"@, "Command Center"@),
            ("E2M6"@, "Halls of the Damned"@),
            ("E2M7"@, "Spawning Vats"@),
            ("E2M8"@, "Tower of Babel"@),
            ("E2M9"@, "Fortress of Mystery"@),
            ("E3M1"@, "Hell Keep"@),
            ("E3M2"@, "Slough of Despair"@),
            ("E3M3"@, "Pandemonium"@),
            ("E3M4"@, "House of Pain"@),
            ("E3M5"@, "Unholy Cathedral"@),
            ("E3M6"@, "Mt. Erebus"@),
            ("E3M7"@, "Limbo"@),
            ("E3M8"@, "Dis"@),
            ("E3M9"@, "Warrens"@),
            ("E4M1"@, "Hell Beneath"@),
            ("E4M2"@, "Perfect Hatred"@),
            ("E4M3"@, "Sever the Wicked"@),
            ("E4M4"@, "Unruly Evil"@),
            ("E4M5"@, "They Will Repent"@),
            ("E4M6"@, "Against Thee Wickedly"@),
            ("E4M7"@, "And Hell Followed"@),
            ("E4M8"@, "Unto the Cruel"@),
            ("E4M9"@, "Fear"@),
        ],
        Iwad::Doom2 => seq![
            ("MAP01"@, "Entryway"@),
            ("MAP02"@, "Underhalls"@),
            ("MAP03"@, "The Gantlet"@),
            ("MAP04"@, "The Focus"@),
            ("MAP05"@, "The Waste Tunnels"@),
            ("MAP06"@, "The Crusher"@),
            ("MAP07"@, "Dead Simple"@),
            ("MAP08"@, "Tricks and Traps"@),
            ("MAP09"@, "The Pit"@),
            ("MAP10"@, "Refueling Base"@),
            ("MAP11"@, "'O' of Destruction!"@),
            ("MAP12"@, "The Factory"@),
            ("MAP13"@, "Downtown"@),
            ("MAP14"@, "The Inmost Dens"@),
            ("MAP15"@, "Industrial Zone"@),
            ("MAP16"@, "Suburbs"@),
            ("MAP17"@, "Tenements"@),
            ("MAP18"@, "The Courtyard"@),
            ("MAP19"@, "The Citadel"@),
            ("MAP20"@, "Gotcha!"@),
            ("MAP21"@, "Nirvana"@),
            ("MAP22"@, "The Catacombs"@),
            ("MAP23"@, "Barrels o' Fun"@),
            ("MAP24"@, "The Chasm"@),
            ("MAP25"@, "Bloodfalls"@),
            ("MAP26"@, "The Abandoned Mines"@),
            ("MAP27"@, "Monster Condo"@),
            ("MAP28"@, "The Spirit World"@),
            ("MAP29"@, "The Living End"@),
            ("MAP30"@, "Icon of Sin"@),
            ("MAP31"@, "Wolfenstein"@),
            ("MAP32"@, "Grosse"@),
        ],
        Iwad::Plutonia => seq![
            ("MAP01"@, "Congo"@),
            ("MAP02"@, "Well of Souls"@),
            ("MAP03"@, "Aztec"@),
            ("MAP04"@, "Caged"@),
            ("MAP05"@, "Ghost Town"@),
            ("MAP06"@, "Baron's Lair"@),
            ("MAP07"@, "Caughtyard"@),
            ("MAP08"@, "Realm"@),
            ("MAP09"@, "Abattoire"@),
            ("MAP10"@, "Onslaught"@),
            ("MAP11"@, "Hunted"@),
            ("MAP12"@, "Speed"@),
            ("MAP13"@, "The Crypt"@),
            ("MAP14"@, "Genesis"@),
            ("MAP15"@, "The Twilight"@),
            ("MAP16"@, "The Omen"@),
            ("MAP17"@, "Compound"@),
            ("MAP18"@, "Neurosphere"@),
            ("MAP19"@, "NME"@),
            ("MAP20"@, "The Death Domain"@),
            ("MAP21"@, "Slayer"@),
            ("MAP22"@, "Impossible Mission"@),
            ("MAP23"@, "Tombstone"@),
            ("MAP24"@, "The Final Frontier"@),
            ("MAP25"@, "The Temple of Darkness"@),
            ("MAP26"@, "Bunker"@),
            ("MAP27"@, "Anti-Christ"@),
            ("MAP28"@, "The Sewers"@),
            ("MAP29"@, "Odyssey of Noises"@),
            ("MAP30"@, "The Gateway of Hell"@),
            ("MAP31"@, "Cyberden"@),
            ("MAP32"@, "Go 2 It"@),
        ],
        Iwad::Tnt => seq![
            ("MAP01"@, "System Control"@),
            ("MAP02"@, "Human BBQ"@),
            ("MAP03"@, "Power Control"@),
            ("MAP04"@, "Wormhole"@),
            ("MAP05"@, "Hanger"@),
            ("MAP06"@, "Open Season"@),
            ("MAP07"@, "Prison"@),
            ("MAP08"@, "Metal"@),
            ("MAP09"@, "Stronghold"@),
            ("MAP10"@, "Redemption"@),
            ("MAP11"@, "Storage Facility"@),
            ("MAP12"@, "Crater"@),
            ("MAP13"@, "Nukage"@),
            ("MAP14"@, "Steel Works"@),
            ("MAP15"@, "Dead Zone"@),
            ("MAP16"@, "Deepest Reaches"@),
            ("MAP17"@, "Processing Area"@),
            ("MAP18"@, "Mill"@),
            ("MAP19"@, "Shipping/Respawning"@),
            ("MAP20"@, "Central Processing"@),
            ("MAP21"@, "Administration Center"@),
            ("MAP22"@, "Habitat"@),
            ("MAP23"@, "Lunar Mining Project"@),
            ("MAP24"@, "Quarry"@),
            ("MAP25"@, "Baron's Den"@),
            ("MAP26"@, "Ballistyx"@),
            ("MAP27"@, "Mount Pain"@),
            ("MAP28"@, "Heck"@),
            ("MAP29"@, "River Styx"@),
            ("MAP30"@, "Last Call"@),
            ("MAP31"@, "Pharaoh"@),
            ("MAP32"@, "Caribbean"@),
        ],
    }
}

pub open spec fn table_views(t: Seq<(&'static str, &'static str)>) -> Seq<(Seq<char>, Seq<char>)> {
    t.map_values(|e: (&'static str, &'static str)| (e.0@, e.1@))
}

impl Iwad {
    /// The supported IWAD with this file name, if any.
    pub fn from_file_name(wad_file_name: &str) -> (r: Option<Iwad>)
        ensures
            r matches Some(iwad) ==> spec_iwad_file_name(iwad) == wad_file_name@,
            r is None <==> (forall|iwad: Iwad| spec_iwad_file_name(iwad) != wad_file_name@),
    {
        if same_text(wad_file_name, "DOOM2.WAD") {
            assert(spec_iwad_file_name(Iwad::Doom2) == wad_file_name@);
            Some(Iwad::Doom2)
        } else if same_text(wad_file_name, "DOOM.WAD") {
            assert(spec_iwad_file_name(Iwad::Doom) == wad_file_name@);
            Some(Iwad::Doom)
        } else if same_text(wad_file_name, "PLUTONIA.WAD") {
            assert(spec_iwad_file_name(Iwad::Plutonia) == wad_file_name@);
            Some(Iwad::Plutonia)
        } else if same_text(wad_file_name, "TNT.WAD") {
            assert(spec_iwad_file_name(Iwad::Tnt) == wad_file_name@);
            Some(Iwad::Tnt)
        } else {
            assert forall|iwad: Iwad| spec_iwad_file_name(iwad) != wad_file_name@ by {
                match iwad {
                    Iwad::Doom => {},
                    Iwad::Doom2 => {},
                    Iwad::Plutonia => {},
                    Iwad::Tnt => {},
                }
            }
            None
        }
    }

    /// The title, release date and author of this IWAD.
    pub fn info(&self) -> (r: (&'static str, &'static str, &'static str))
        ensures
            (r.0@, r.1@, r.2@) == spec_iwad_info(*self),
    {
        match self {
            Iwad::Doom => ("The Ultimate DOOM", "1995-04-30", "id Software"),
            Iwad::Doom2 => ("Doom II: Hell on Earth", "1994-09-30", "id Software"),
            Iwad::Plutonia => ("The Plutonia Experiment", "1996-06-17", "Dario Casali & Milo Casali"),
            Iwad::Tnt => ("TNT: Evilution", "1996-06-17", "TeamTNT"),
        }
    }

    /// The map numbers and names of this IWAD.
    pub fn map_table(&self) -> (r: Vec<(&'static str, &'static str)>)
        ensures
            table_views(r@) == spec_map_table(*self),
    {
        match self {
            Iwad::Doom => {
                let t = vec![
                    ("E1M1", "Hanger"),
                    ("E1M2", "Nuclear Plant"),
                    ("E1M3", "Toxin Refinery"),
                    ("E1M4", "Command Control"),
                    ("E1M5", "Phobos Lab"),
                    ("E1M6", "Central Processing"),
                    ("E1M7", "Computer Station"),
                    ("E1M8", "Phobos Anomaly"),
                    ("E1M9", "Military Base"),
                    ("E2M1", "Deimos Anomaly"),
                    ("E2M2", "Containment Area"),
                    ("E2M3", "Refinery"),
                    ("E2M4", "Deimos Lab"),
                    ("E2M5", "Command Center"),
                    ("E2M6", "Halls of the Damned"),
                    ("E2M7", "Spawning Vats"),
                    ("E2M8", "Tower of Babel"),
                    ("E2M9", "Fortress of Mystery"),
                    ("E3M1", "Hell Keep"),
                    ("E3M2", "Slough of Despair"),
                    ("E3M3", "Pandemonium"),
                    ("E3M4", "House of Pain"),
                    ("E3M5", "Unholy Cathedral"),
                    ("E3M6", "Mt. Erebus"),
                    ("E3M7", "Limbo"),
                    ("E3M8", "Dis"),
                    ("E3M9", "Warrens"),
                    ("E4M1", "Hell Beneath"),
                    ("E4M2", "Perfect Hatred"),
                    ("E4M3", "Sever the Wicked"),
                    ("E4M4", "Unruly Evil"),
                    ("E4M5", "They Will Repent"),
                    ("E4M6", "Against Thee Wickedly"),
                    ("E4M7", "And Hell Followed"),
                    ("E4M8", "Unto the Cruel"),
                    ("E4M9", "Fear"),
                ];
                assert(table_views(t@) =~= spec_map_table(*self));
                t
            },
            Iwad::Doom2 => {
                let t = vec![
                    ("MAP01", "Entryway"),
                    ("MAP02", "Underhalls"),
                    ("MAP03", "The Gantlet"),
                    ("MAP04", "The Focus"),
                    ("MAP05", "The Waste Tunnels"),
                    ("MAP06", "The Crusher"),
                    ("MAP07", "Dead Simple"),
                    ("MAP08", "Tricks and Traps"),
                    ("MAP09", "The Pit"),
                    ("MAP10", "Refueling Base"),
                    ("MAP11", "'O' of Destruction!"),
                    ("MAP12", "The Factory"),
                    ("MAP13", "Downtown"),
                    ("MAP14", "The Inmost Dens"),
                    ("MAP15", "Industrial Zone"),
                    ("MAP16", "Suburbs"),
                    ("MAP17", "Tenements"),
                    ("MAP18", "The Courtyard"),
                    ("MAP19", "The Citadel"),
                    ("MAP20", "Gotcha!"),
                    ("MAP21", "Nirvana"),
                    ("MAP22", "The Catacombs"),
                    ("MAP23", "Barrels o' Fun"),
                    ("MAP24", "The Chasm"),
                    ("MAP25", "Bloodfalls"),
                    ("MAP26", "The Abandoned Mines"),
                    ("MAP27", "Monster Condo"),
                    ("MAP28", "The Spirit World"),
                    ("MAP29", "The Living End"),
                    ("MAP30", "Icon of Sin"),
                    ("MAP31", "Wolfenstein"),
                    ("MAP32", "Grosse"),
                ];
                assert(table_views(t@) =~= spec_map_table(*self));
                t
            },
            Iwad::Plutonia => {
                let t = vec![
                    ("MAP01", "Congo"),
                    ("MAP02", "Well of Souls"),
                    ("MAP03", "Aztec"),
                    ("MAP04", "Caged"),
                    ("MAP05", "Ghost Town"),
                    ("MAP06", "Baron's Lair"),
                    ("MAP07", "Caughtyard"),
                    ("MAP08", "Realm"),
                    ("MAP09", "Abattoire"),
                    ("MAP10", "Onslaught"),
                    ("MAP11", "Hunted"),
                    ("MAP12", "Speed"),
                    ("MAP13", "The Crypt"),
                    ("MAP14", "Genesis"),
                    ("MAP15", "The Twilight"),
                    ("MAP16", "The Omen"),
                    ("MAP17", "Compound"),
                    ("MAP18", "Neurosphere"),
                    ("MAP19", "NME"),
                    ("MAP20", "The Death Domain"),
                    ("MAP21", "Slayer"),
                    ("MAP22", "Impossible Mission"),
                    ("MAP23", "Tombstone"),
                    ("MAP24", "The Final Frontier"),
                    ("MAP25", "The Temple of Darkness"),
                    ("MAP26", "Bunker"),
                    ("MAP27", "Anti-Christ"),
                    ("MAP28", "The Sewers"),
                    ("MAP29", "Odyssey of Noises"),
                    ("MAP30", "The Gateway of Hell"),
                    ("MAP31", "Cyberden"),
                    ("MAP32", "Go 2 It"),
                ];
                assert(table_views(t@) =~= spec_map_table(*self));
                t
            },
            Iwad::Tnt => {
                let t = vec![
                    ("MAP01", "System Control"),
                    ("MAP02", "Human BBQ"),
                    ("MAP03", "Power Control"),
                    ("MAP04", "Wormhole"),
                    ("MAP05", "Hanger"),
                    ("MAP06", "Open Season"),
                    ("MAP07", "Prison"),
                    ("MAP08", "Metal"),
                    ("MAP09", "Stronghold"),
                    ("MAP10", "Redemption"),
                    ("MAP11", "Storage Facility"),
                    ("MAP12", "Crater"),
                    ("MAP13", "Nukage"),
                    ("MAP14", "Steel Works"),
                    ("MAP15", "Dead Zone"),
                    ("MAP16", "Deepest Reaches"),
                    ("MAP17", "Processing Area"),
                    ("MAP18", "Mill"),
                    ("MAP19", "Shipping/Respawning"),
                    ("MAP20", "Central Processing"),
                    ("MAP21", "Administration Center"),
                    ("MAP22", "Habitat"),
                    ("MAP23", "Lunar Mining Project"),
                    ("MAP24", "Quarry"),
                    ("MAP25", "Baron's Den"),
                    ("MAP26", "Ballistyx"),
                    ("MAP27", "Mount Pain"),
                    ("MAP28", "Heck"),
                    ("MAP29", "River Styx"),
                    ("MAP30", "Last Call"),
                    ("MAP31", "Pharaoh"),
                    ("MAP32", "Caribbean"),
                ];
                assert(table_views(t@) =~= spec_map_table(*self));
                t
            },
        }
    }
}


/// The name given to map `number` in a table: that of the first entry at or after `start`
/// with that number.
pub open spec fn table_lookup(t: Seq<(Seq<char>, Seq<char>)>, number: Seq<char>, start: int) -> Option<Seq<char>>
    decreases t.len() - start,
{
    if 0 <= start < t.len() {
        if t[start].0 == number {
            Some(t[start].1)
        } else {
            table_lookup(t, number, start + 1)
        }
    } else {
        None
    }
}

/// The name of map `number` in an IWAD.
pub open spec fn spec_map_name(iwad: Iwad, number: Seq<char>) -> Option<Seq<char>> {
    table_lookup(spec_map_table(iwad), number, 0)
}

/// Whether a directory entry marks a map: a valid map number with no data of its own.
pub open spec fn is_map_marker(e: WadDirectoryEntry) -> bool {
    spec_valid_map_number(e.lump_name@) && e.lump_size == 0
}

/// The map numbers marked in a directory, in order.
pub open spec fn map_numbers(dir: Seq<WadDirectoryEntry>) -> Seq<Seq<char>>
    decreases dir.len(),
{
    if dir.len() == 0 {
        Seq::empty()
    } else {
        map_numbers(dir.drop_last()) + (if is_map_marker(dir.last()) {
            seq![dir.last().lump_name@]
        } else {
            Seq::empty()
        })
    }
}

/// Whether a map of an IWAD can be recorded: its number is set and the IWAD names it.
pub open spec fn map_is_known(iwad: Iwad, number: Seq<char>) -> bool {
    &&& number.len() > 0
    &&& spec_map_name(iwad, number) matches Some(n) && n.len() > 0
}

/// The record of a map of an IWAD.
pub open spec fn map_record_matches(m: MapInfo, iwad: Iwad, number: Seq<char>) -> bool {
    &&& m.number@ == number
    &&& spec_map_name(iwad, number) == Some(m.name@)
    &&& m.warp@ == spec_warp(number)
}

/// The name of map `number` in this IWAD's table.
fn lookup_map_name(table: &Vec<(&'static str, &'static str)>, number: &str) -> (r: Option<&'static str>)
    ensures
        r is None <==> table_lookup(table_views(table@), number@, 0) is None,
        r matches Some(n) ==> table_lookup(table_views(table@), number@, 0) == Some(n@),
{
    let mut i: usize = 0;
    while i < table.len()
        invariant
            0 <= i <= table@.len(),
            table_lookup(table_views(table@), number@, 0) == table_lookup(table_views(table@), number@, i as int),
        decreases table@.len() - i,
    {
        let (n, name) = table[i];
        if same_text(n, number) {
            return Some(name);
        }
        i = i + 1;
    }
    None
}

/// The title, release date and author of the IWAD with this file name, if it is supported.
pub fn get_additional_wad_info(wad_file_name: &str) -> (r: Option<(String, String, String)>)
    ensures
        r is None <==> (forall|iwad: Iwad| spec_iwad_file_name(iwad) != wad_file_name@),
        r matches Some(info) ==> exists|iwad: Iwad| spec_iwad_file_name(iwad) == wad_file_name@
            && (info.0@, info.1@, info.2@) == #[trigger] spec_iwad_info(iwad),
{
    match Iwad::from_file_name(wad_file_name) {
        None => None,
        Some(iwad) => {
            let (title, date, author) = iwad.info();
            Some((title.to_owned(), date.to_owned(), author.to_owned()))
        },
    }
}

/// The maps of the IWAD with this file name, read from its lump directory: one record for
/// each map marker, named from the IWAD's table.
pub fn get_maps_from_metadata(wad_file_name: &str, metadata: &WadMetadata) -> (r: Result<Vec<MapInfo>, String>)
    ensures
        (forall|iwad: Iwad| spec_iwad_file_name(iwad) != wad_file_name@) ==> (r matches Err(m)
            && m@ == "IWAD not supported"@),
        r matches Ok(maps) ==> exists|iwad: Iwad| spec_iwad_file_name(iwad) == wad_file_name@
            && maps@.len() == map_numbers(metadata.directory@).len()
            && (forall|k: int| 0 <= k < maps@.len() ==> map_record_matches(#[trigger] maps@[k], iwad,
                map_numbers(metadata.directory@)[k]))
            && (forall|k: int| 0 <= k < maps@.len() ==> map_is_known(iwad, #[trigger] map_numbers(metadata.directory@)[k])),
        (exists|iwad: Iwad| spec_iwad_file_name(iwad) == wad_file_name@) && r is Err ==> exists|iwad: Iwad, i: int|
            spec_iwad_file_name(iwad) == wad_file_name@ && 0 <= i < metadata.directory@.len()
            && is_map_marker(metadata.directory@[i]) && !(#[trigger] map_is_known(iwad, metadata.directory@[i].lump_name@)),
{
    let iwad = match Iwad::from_file_name(wad_file_name) {
        Some(iwad) => iwad,
        None => return Err("IWAD not supported".to_owned()),
    };
    let table = iwad.map_table();
    let dir = &metadata.directory;
    let mut maps: Vec<MapInfo> = Vec::new();
    let mut i: usize = 0;
    while i < dir.len()
        invariant
            dir@ == metadata.directory@,
            table_views(table@) == spec_map_table(iwad),
            spec_iwad_file_name(iwad) == wad_file_name@,
            0 <= i <= dir@.len(),
            maps@.len() == map_numbers(dir@.subrange(0, i as int)).len(),
            forall|k: int| 0 <= k < maps@.len() ==> map_record_matches(#[trigger] maps@[k], iwad,
                map_numbers(dir@.subrange(0, i as int))[k]),
            forall|k: int| 0 <= k < maps@.len() ==> map_is_known(iwad, #[trigger] map_numbers(dir@.subrange(0, i as int))[k]),
        decreases dir@.len() - i,
    {
        let ghost before = map_numbers(dir@.subrange(0, i as int));
        assert(dir@.subrange(0, i + 1).drop_last() =~= dir@.subrange(0, i as int));
        let entry = &dir[i];
        if MapInfo::is_valid_map_number(&entry.lump_name) && entry.lump_size == 0 {
            let name = match lookup_map_name(&table, entry.lump_name.as_str()) {
                Some(n) => n,
                None => {
                    assert(is_map_marker(metadata.directory@[i as int]));
                    assert(!map_is_known(iwad, metadata.directory@[i as int].lump_name@));
                    return Err(join2("No name is known for map ", entry.lump_name.as_str()));
                },
            };
            let map = match MapInfo::new(entry.lump_name.clone(), name.to_owned()) {
                Ok(m) => m,
                Err(e) => {
                    assert(is_map_marker(metadata.directory@[i as int]));
                    assert(!map_is_known(iwad, metadata.directory@[i as int].lump_name@));
                    return Err(e);
                },
            };
            assert(map_numbers(dir@.subrange(0, i + 1)) == before.push(entry.lump_name@));
            maps.push(map);
        } else {
            assert(map_numbers(dir@.subrange(0, i + 1)) =~= before);
        }
        i = i + 1;
    }
    assert(dir@.subrange(0, dir@.len() as int) =~= dir@);
    Ok(maps)
}

} // verus!

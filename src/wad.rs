//! WAD archives: the fixed-format header and lump directory, and the records kept for an
//! imported WAD and its maps.
use crate::pattern::{is_match, regex_matches};
use crate::text::{decode_utf8_bytes, same_text, trim_nul, trim_nuls};
use vstd::prelude::*;
use vstd::string::*;
use vstd::utf8::{decode_utf8, valid_utf8};

verus! {

/// The size of the header, in bytes.
pub const HEADER_SIZE: usize = 12;

/// Why a WAD archive could not be read.
#[derive(Clone, Copy, Debug, PartialEq, Eq, Structural)]
pub enum WadError {
    /// The file does not start with `IWAD` or `PWAD`.
    NotAWad,
    /// A text field is not well-formed UTF-8.
    InvalidText,
    /// The directory runs past the end of the file.
    Truncated,
}

/// The header of a WAD archive.
#[derive(Debug)]
pub struct WadHeader {
    pub wad_type: String,
    pub directory_entries: u32,
    pub directory_offset: u32,
}

/// One entry of the lump directory.
#[derive(Debug)]
pub struct WadDirectoryEntry {
    pub lump_offset: u32,
    pub lump_size: u32,
    pub lump_name: String,
}

/// The header and lump directory of a WAD archive.
#[derive(Debug)]
pub struct WadMetadata {
    pub header: WadHeader,
    pub directory: Vec<WadDirectoryEntry>,
}

/// The byte at `i`, or zero past the end.
pub open spec fn byte_or_zero(bytes: Seq<u8>, i: int) -> u8 {
    if 0 <= i < bytes.len() {
        bytes[i]
    } else {
        0
    }
}

/// `n` bytes from `start`, filled up with zeros past the end.
pub open spec fn padded(bytes: Seq<u8>, start: int, n: nat) -> Seq<u8> {
    Seq::new(n, |k: int| byte_or_zero(bytes, start + k))
}

/// The little-endian unsigned 32-bit integer stored at `at`.
pub open spec fn le_u32(bytes: Seq<u8>, at: int) -> int {
    bytes[at] as int + 256 * (bytes[at + 1] as int) + 65536 * (bytes[at + 2] as int)
        + 16777216 * (bytes[at + 3] as int)
}

/// Relies on `byteorder::LittleEndian::read_u32`: the little-endian integer in the four bytes
/// at `at`.
#[verifier::external_body]
fn read_u32_le(buf: &Vec<u8>, at: usize) -> (r: u32)
    requires
        at + 4 <= buf@.len(),
    ensures
        r as int == le_u32(buf@, at as int),
{
    <byteorder::LittleEndian as byteorder::ByteOrder>::read_u32(&buf[at..])
}

/// The header's bytes: the first twelve bytes of the file, filled up with zeros.
pub open spec fn header_bytes(bytes: Seq<u8>) -> Seq<u8> {
    padded(bytes, 0, HEADER_SIZE as nat)
}

pub open spec fn is_wad_type(t: Seq<char>) -> bool {
    t == "IWAD"@ || t == "PWAD"@
}

/// `n` bytes of `bytes` from `start`, filled up with zeros past the end.
fn padded_copy(bytes: &Vec<u8>, start: usize, n: usize) -> (r: Vec<u8>)
    ensures
        r@ == padded(bytes@, start as int, n as nat),
{
    let mut r: Vec<u8> = Vec::new();
    let mut k: usize = 0;
    while k < n
        invariant
            0 <= k <= n,
            r@ == padded(bytes@, start as int, n as nat).subrange(0, k as int),
        decreases n - k,
    {
        let b: u8 = if start < bytes.len() && k < bytes.len() - start {
            bytes[start + k]
        } else {
            0
        };
        r.push(b);
        assert(r@ =~= padded(bytes@, start as int, n as nat).subrange(0, k + 1));
        k = k + 1;
    }
    assert(r@ =~= padded(bytes@, start as int, n as nat));
    r
}

impl WadHeader {
    /// Reads the header at the start of a WAD file: four bytes of type, `IWAD` or `PWAD`, then
    /// the number of directory entries and the directory's offset, little-endian. A file
    /// shorter than the header reads as if filled up with zeros.
    pub fn parse(bytes: &Vec<u8>) -> (r: Result<WadHeader, WadError>)
        ensures
            !valid_utf8(header_bytes(bytes@).subrange(0, 4)) ==> r == Err::<WadHeader, WadError>(WadError::InvalidText),
            valid_utf8(header_bytes(bytes@).subrange(0, 4)) && !is_wad_type(decode_utf8(header_bytes(bytes@).subrange(0, 4)))
                ==> r == Err::<WadHeader, WadError>(WadError::NotAWad),
            r matches Ok(h) ==> valid_utf8(header_bytes(bytes@).subrange(0, 4))
                && h.wad_type@ == decode_utf8(header_bytes(bytes@).subrange(0, 4))
                && is_wad_type(h.wad_type@)
                && h.directory_entries as int == le_u32(header_bytes(bytes@), 4)
                && h.directory_offset as int == le_u32(header_bytes(bytes@), 8),
            r is Ok <==> header_is_readable(bytes@),
    {
        let header = padded_copy(bytes, 0, HEADER_SIZE);
        let type_bytes = padded_copy(&header, 0, 4);
        assert(type_bytes@ =~= header@.subrange(0, 4));
        let wad_type = match decode_utf8_bytes(type_bytes) {
            Some(t) => t,
            None => return Err(WadError::InvalidText),
        };
        if !same_text(wad_type.as_str(), "IWAD") && !same_text(wad_type.as_str(), "PWAD") {
            return Err(WadError::NotAWad);
        }
        let directory_entries = read_u32_le(&header, 4);
        let directory_offset = read_u32_le(&header, 8);
        Ok(WadHeader { wad_type, directory_entries, directory_offset })
    }
}

/// Where directory entry `k` starts in the file, for a directory at `offset`.
pub open spec fn entry_start(offset: int, k: int) -> int {
    offset + 16 * k
}

/// The eight name bytes of directory entry `k`, filled up with zeros past the end.
pub open spec fn entry_name_bytes(bytes: Seq<u8>, offset: int, k: int) -> Seq<u8> {
    padded(bytes, entry_start(offset, k) + 8, 8)
}

/// What keeps directory entry `k` from being read, if anything: the file ends before its two
/// integers, or its name is not well-formed UTF-8.
pub open spec fn entry_problem(bytes: Seq<u8>, offset: int, k: int) -> Option<WadError> {
    if entry_start(offset, k) + 8 > bytes.len() {
        Some(WadError::Truncated)
    } else if !valid_utf8(entry_name_bytes(bytes, offset, k)) {
        Some(WadError::InvalidText)
    } else {
        None
    }
}

/// Directory entry `k` as read from the file.
pub open spec fn entry_matches(e: WadDirectoryEntry, bytes: Seq<u8>, offset: int, k: int) -> bool {
    &&& e.lump_offset as int == le_u32(bytes, entry_start(offset, k))
    &&& e.lump_size as int == le_u32(bytes, entry_start(offset, k) + 4)
    &&& e.lump_name@ == trim_nul(decode_utf8(entry_name_bytes(bytes, offset, k)))
}

/// Whether the file's header can be read: its type is well-formed text, `IWAD` or `PWAD`.
pub open spec fn header_is_readable(bytes: Seq<u8>) -> bool {
    valid_utf8(header_bytes(bytes).subrange(0, 4)) && is_wad_type(decode_utf8(header_bytes(bytes).subrange(0, 4)))
}

/// Whether every one of `count` directory entries at `offset` can be read.
pub open spec fn directory_is_readable(bytes: Seq<u8>, offset: int, count: int) -> bool {
    forall|k: int| 0 <= k < count ==> (#[trigger] entry_problem(bytes, offset, k)) is None
}

impl WadMetadata {
    /// Reads the lump directory that `header` points to: `directory_entries` entries of
    /// sixteen bytes from `directory_offset`, each a little-endian offset and size and an
    /// eight-byte name without its NUL padding. Reading stops at the first entry that cannot
    /// be read.
    pub fn read_directory(bytes: &Vec<u8>, header: &WadHeader) -> (r: Result<Vec<WadDirectoryEntry>, WadError>)
        ensures
            r matches Ok(dir) ==> dir@.len() == header.directory_entries
                && (forall|k: int| 0 <= k < dir@.len() ==> entry_matches(#[trigger] dir@[k], bytes@, header.directory_offset as int, k)),
            r is Ok <==> directory_is_readable(bytes@, header.directory_offset as int, header.directory_entries as int),
            r matches Err(e) ==> exists|k: int| 0 <= k < header.directory_entries
                && entry_problem(bytes@, header.directory_offset as int, k) == Some(e)
                && (forall|j: int| 0 <= j < k ==> (#[trigger] entry_problem(bytes@, header.directory_offset as int, j)) is None),
    {
        let mut directory: Vec<WadDirectoryEntry> = Vec::new();
        let mut k: u32 = 0;
        while k < header.directory_entries
            invariant
                0 <= k <= header.directory_entries,
                directory@.len() == k,
                forall|j: int| 0 <= j < k ==> entry_matches(#[trigger] directory@[j], bytes@, header.directory_offset as int, j),
                forall|j: int| 0 <= j < k ==> (#[trigger] entry_problem(bytes@, header.directory_offset as int, j)) is None,
            decreases header.directory_entries - k,
        {
            let start: u128 = header.directory_offset as u128 + 16 * (k as u128);
            if start + 8 > bytes.len() as u128 {
                assert(entry_problem(bytes@, header.directory_offset as int, k as int) == Some(WadError::Truncated));
                return Err(WadError::Truncated);
            }
            let at = start as usize;
            let lump_offset = read_u32_le(bytes, at);
            let lump_size = read_u32_le(bytes, at + 4);
            let raw = padded_copy(bytes, at + 8, 8);
            let name = match decode_utf8_bytes(raw) {
                Some(n) => n,
                None => {
                    assert(entry_problem(bytes@, header.directory_offset as int, k as int) == Some(WadError::InvalidText));
                    return Err(WadError::InvalidText);
                },
            };
            let lump_name = trim_nuls(name.as_str());
            directory.push(WadDirectoryEntry { lump_offset, lump_size, lump_name });
            k = k + 1;
        }
        Ok(directory)
    }

    /// Reads the header and lump directory of a WAD file's contents.
    pub fn parse(bytes: &Vec<u8>) -> (r: Result<WadMetadata, WadError>)
        ensures
            r matches Ok(m) ==> m.directory@.len() == m.header.directory_entries
                && m.header.directory_entries as int == le_u32(header_bytes(bytes@), 4)
                && m.header.directory_offset as int == le_u32(header_bytes(bytes@), 8)
                && m.header.wad_type@ == decode_utf8(header_bytes(bytes@).subrange(0, 4))
                && (forall|k: int| 0 <= k < m.directory@.len() ==> entry_matches(#[trigger] m.directory@[k], bytes@,
                    le_u32(header_bytes(bytes@), 8), k)),
            r is Ok <==> header_is_readable(bytes@) && directory_is_readable(bytes@, le_u32(header_bytes(bytes@), 8),
                le_u32(header_bytes(bytes@), 4)),
            header_is_readable(bytes@) ==> (r matches Err(e) ==> exists|k: int| 0 <= k < le_u32(header_bytes(bytes@), 4)
                && entry_problem(bytes@, le_u32(header_bytes(bytes@), 8), k) == Some(e)
                && (forall|j: int| 0 <= j < k ==> (#[trigger] entry_problem(bytes@, le_u32(header_bytes(bytes@), 8), j)) is None)),
            !valid_utf8(header_bytes(bytes@).subrange(0, 4)) ==> r == Err::<WadMetadata, WadError>(WadError::InvalidText),
            valid_utf8(header_bytes(bytes@).subrange(0, 4)) && !is_wad_type(decode_utf8(header_bytes(bytes@).subrange(0, 4)))
                ==> r == Err::<WadMetadata, WadError>(WadError::NotAWad),
    {
        let header = match WadHeader::parse(bytes) {
            Ok(h) => h,
            Err(e) => return Err(e),
        };
        let directory = match WadMetadata::read_directory(bytes, &header) {
            Ok(d) => d,
            Err(e) => return Err(e),
        };
        Ok(WadMetadata { header, directory })
    }
}


/// A map number in the first game's format: `ExMy`.
pub const DOOM_FORMAT_PATTERN: &'static str = "^E[1-9]{1}M[1-9]{1}$";

/// A map number in the second game's format: `MAP0x`, or `MAPxx` at the end.
pub const DOOM2_FORMAT_PATTERN: &'static str = "^MAP0{1}[1-9]|MAP[0-9]{2}$";

/// Whether a map number is in either game's format.
pub open spec fn spec_valid_map_number(number: Seq<char>) -> bool {
    regex_matches(DOOM_FORMAT_PATTERN@, number) || regex_matches(DOOM2_FORMAT_PATTERN@, number)
}

/// The warp value of a second-game map number: the digits after `MAP`, without a leading
/// zero.
pub open spec fn doom2_warp(number: Seq<char>) -> Seq<char> {
    let tail = if number.len() >= 3 { number.subrange(3, number.len() as int) } else { Seq::empty() };
    if tail.len() > 0 && tail[0] == '0' {
        if tail.len() > 1 { seq![tail[1]] } else { Seq::empty() }
    } else {
        tail
    }
}

/// The warp value of a first-game map number `ExMy`: `x y`.
pub open spec fn doom_warp(number: Seq<char>) -> Seq<char> {
    if number.len() >= 4 {
        seq![number[1], ' ', number[3]]
    } else {
        Seq::empty()
    }
}

/// The value an engine's `-warp` argument takes for a map number.
pub open spec fn spec_warp(number: Seq<char>) -> Seq<char> {
    if regex_matches(DOOM2_FORMAT_PATTERN@, number) {
        doom2_warp(number)
    } else {
        doom_warp(number)
    }
}

pub open spec fn missing_number_message() -> Seq<char> {
    "A number must be provided for the map. It should be in the DOOM or DOOM2 format."@
}

pub open spec fn bad_number_message() -> Seq<char> {
    "The map number must be in the DOOM or DOOM2 format. Valid values are ExMx or MAPxx."@
}

pub open spec fn missing_map_name_message() -> Seq<char> {
    "A name must be provided for the map."@
}

/// A map of a game: its number (`MAPxx` or `ExMy`), its name, and the value for the
/// engine's `-warp` argument (`xx` without a leading zero, or `x y`).
#[derive(Debug)]
pub struct MapInfo {
    pub number: String,
    pub name: String,
    pub warp: String,
}

/// The characters of `s` from `from` to `to`, as a new string.
fn substring(s: &str, from: usize, to: usize) -> (r: String)
    requires
        from <= to <= s@.len(),
    ensures
        r@ == s@.subrange(from as int, to as int),
{
    s.substring_char(from, to).to_owned()
}

impl MapInfo {
    /// Whether a map number is in either game's format.
    pub fn is_valid_map_number(number: &String) -> (r: bool)
        ensures
            r == spec_valid_map_number(number@),
    {
        is_match(DOOM_FORMAT_PATTERN, number.as_str()) || is_match(DOOM2_FORMAT_PATTERN, number.as_str())
    }

    /// Records a map; the number must be set and in either game's format, and the name must
    /// be set.
    pub fn new(number: String, name: String) -> (r: Result<MapInfo, String>)
        ensures
            number@.len() == 0 ==> (r matches Err(m) && m@ == missing_number_message()),
            number@.len() > 0 && !spec_valid_map_number(number@) ==> (r matches Err(m) && m@ == bad_number_message()),
            number@.len() > 0 && spec_valid_map_number(number@) && name@.len() == 0
                ==> (r matches Err(m) && m@ == missing_map_name_message()),
            number@.len() > 0 && spec_valid_map_number(number@) && name@.len() > 0 ==> (r matches Ok(map)
                && map.number == number && map.name == name && map.warp@ == spec_warp(number@)),
    {
        let n = number.as_str().unicode_len();
        if n == 0 {
            return Err("A number must be provided for the map. It should be in the DOOM or DOOM2 format.".to_owned());
        }
        if !MapInfo::is_valid_map_number(&number) {
            return Err("The map number must be in the DOOM or DOOM2 format. Valid values are ExMx or MAPxx.".to_owned());
        }
        if name.as_str().unicode_len() == 0 {
            return Err("A name must be provided for the map.".to_owned());
        }
        let warp = if is_match(DOOM2_FORMAT_PATTERN, number.as_str()) {
            let start: usize = if n >= 3 { 3 } else { n };
            let tail = substring(number.as_str(), start, n);
            let tail_len = n - start;
            if tail_len > 0 && tail.as_str().get_char(0) == '0' {
                if tail_len > 1 {
                    substring(tail.as_str(), 1, 2)
                } else {
                    String::new()
                }
            } else {
                tail
            }
        } else if n >= 4 {
            let episode = substring(number.as_str(), 1, 2);
            let mission = substring(number.as_str(), 3, 4);
            let mut w = episode;
            w.append(" ");
            w.append(mission.as_str());
            proof {
                reveal_strlit(" ");
            }
            assert(w@ =~= doom_warp(number@));
            w
        } else {
            String::new()
        };
        proof {
            if regex_matches(DOOM2_FORMAT_PATTERN@, number@) {
                let tail = if number@.len() >= 3 { number@.subrange(3, number@.len() as int) } else { Seq::empty() };
                if number@.len() < 3 {
                    assert(number@.subrange(n as int, n as int) =~= tail);
                }
                if tail.len() > 1 && tail[0] == '0' {
                    assert(tail.subrange(1, 2) =~= seq![tail[1]]);
                }
            }
        }
        Ok(MapInfo { number, name, warp })
    }
}


/// The record kept for an imported WAD.
#[derive(Debug)]
pub struct WadEntry {
    pub id: String,
    pub name: String,
    pub title: String,
    pub release_date: String,
    pub author: String,
    pub maps: Vec<MapInfo>,
}

impl WadEntry {
    /// Records an imported WAD; the id, name, title, release date and author must all be set,
    /// and the first one missing, in that order, is reported.
    pub fn new(id: String, name: String, title: String, release_date: String, author: String, maps: Vec<MapInfo>) -> (r: Result<WadEntry, String>)
        ensures
            id@.len() == 0 ==> (r matches Err(m) && m@ == "The ID for the WAD entry must be set."@),
            id@.len() > 0 && name@.len() == 0 ==> (r matches Err(m) && m@ == "The name for the WAD entry must be set."@),
            id@.len() > 0 && name@.len() > 0 && title@.len() == 0 ==> (r matches Err(m) && m@ == "The title for the WAD entry must be set."@),
            id@.len() > 0 && name@.len() > 0 && title@.len() > 0 && release_date@.len() == 0
                ==> (r matches Err(m) && m@ == "The release date for the WAD entry must be set."@),
            id@.len() > 0 && name@.len() > 0 && title@.len() > 0 && release_date@.len() > 0 && author@.len() == 0
                ==> (r matches Err(m) && m@ == "The author for the WAD entry must be set."@),
            id@.len() > 0 && name@.len() > 0 && title@.len() > 0 && release_date@.len() > 0 && author@.len() > 0
                ==> (r matches Ok(e) && e.id == id && e.name == name && e.title == title
                    && e.release_date == release_date && e.author == author && e.maps == maps),
    {
        if id.as_str().unicode_len() == 0 {
            return Err("The ID for the WAD entry must be set.".to_owned());
        }
        if name.as_str().unicode_len() == 0 {
            return Err("The name for the WAD entry must be set.".to_owned());
        }
        if title.as_str().unicode_len() == 0 {
            return Err("The title for the WAD entry must be set.".to_owned());
        }
        if release_date.as_str().unicode_len() == 0 {
            return Err("The release date for the WAD entry must be set.".to_owned());
        }
        if author.as_str().unicode_len() == 0 {
            return Err("The author for the WAD entry must be set.".to_owned());
        }
        Ok(WadEntry { id, name, title, release_date, author, maps })
    }
}

} // verus!

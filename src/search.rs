//! The text a map picker searches, one line per map of every imported WAD, and the reading
//! of the line picked.
use crate::wad::{MapInfo, WadEntry};
use vstd::prelude::*;
use vstd::string::*;

verus! {

/// The search line of one map of a WAD: `<wad name> <map number> <map name><separator>`.
pub open spec fn map_line(wad_name: Seq<char>, map: MapInfo, separator: Seq<char>) -> Seq<char> {
    wad_name + " "@ + map.number@ + " "@ + map.name@ + separator
}

/// The search lines of a WAD's maps, in order.
pub open spec fn wad_lines(wad_name: Seq<char>, maps: Seq<MapInfo>, separator: Seq<char>) -> Seq<char>
    decreases maps.len(),
{
    if maps.len() == 0 {
        Seq::empty()
    } else {
        wad_lines(wad_name, maps.drop_last(), separator) + map_line(wad_name, maps.last(), separator)
    }
}

/// The search lines of every map of every WAD, in order.
pub open spec fn search_text(entries: Seq<WadEntry>, separator: Seq<char>) -> Seq<char>
    decreases entries.len(),
{
    if entries.len() == 0 {
        Seq::empty()
    } else {
        search_text(entries.drop_last(), separator) + wad_lines(entries.last().name@, entries.last().maps@, separator)
    }
}

/// The text a map picker searches: one line per map of every WAD.
pub fn search_entries(entries: &Vec<WadEntry>, line_separator: &str) -> (r: String)
    ensures
        r@ == search_text(entries@, line_separator@),
{
    let mut text = String::new();
    let mut i: usize = 0;
    while i < entries.len()
        invariant
            0 <= i <= entries@.len(),
            text@ == search_text(entries@.subrange(0, i as int), line_separator@),
        decreases entries@.len() - i,
    {
        let entry = &entries[i];
        let ghost before = text@;
        let mut k: usize = 0;
        while k < entry.maps.len()
            invariant
                0 <= k <= entry.maps@.len(),
                text@ == before + wad_lines(entry.name@, entry.maps@.subrange(0, k as int), line_separator@),
            decreases entry.maps@.len() - k,
        {
            let map = &entry.maps[k];
            text.append(entry.name.as_str());
            text.append(" ");
            text.append(map.number.as_str());
            text.append(" ");
            text.append(map.name.as_str());
            text.append(line_separator);
            assert(entry.maps@.subrange(0, k + 1).drop_last() =~= entry.maps@.subrange(0, k as int));
            assert(text@ =~= before + wad_lines(entry.name@, entry.maps@.subrange(0, k + 1), line_separator@));
            k = k + 1;
        }
        assert(entry.maps@.subrange(0, entry.maps@.len() as int) =~= entry.maps@);
        assert(entries@.subrange(0, i + 1).drop_last() =~= entries@.subrange(0, i as int));
        i = i + 1;
    }
    assert(entries@.subrange(0, entries@.len() as int) =~= entries@);
    text
}

/// The position of the first space at or after `from`, or the length of the text.
pub open spec fn space_from(s: Seq<char>, from: int) -> int
    decreases s.len() - from,
{
    if from < 0 || from >= s.len() {
        s.len() as int
    } else if s[from] == ' ' {
        from
    } else {
        space_from(s, from + 1)
    }
}

proof fn lemma_space_from_bounds(s: Seq<char>, from: int)
    requires
        0 <= from <= s.len(),
    ensures
        from <= space_from(s, from) <= s.len(),
    decreases s.len() - from,
{
    if from < s.len() && s[from] != ' ' {
        lemma_space_from_bounds(s, from + 1);
    }
}

/// The position of the first space at or after `from`, or the length of the text.
fn find_space(s: &str, from: usize) -> (r: usize)
    requires
        from <= s@.len(),
    ensures
        r as int == space_from(s@, from as int),
{
    let n = s.unicode_len();
    let mut i = from;
    while i < n && s.get_char(i) != ' '
        invariant
            n == s@.len(),
            from <= i <= n,
            space_from(s@, from as int) == space_from(s@, i as int),
        decreases n - i,
    {
        i = i + 1;
    }
    i
}

/// The first two space-separated fields of a picked line, the WAD's file name and the map
/// number; there is none when the line holds no space.
pub fn selection_fields(result: &str) -> (r: Option<(String, String)>)
    ensures
        space_from(result@, 0) == result@.len() ==> r is None,
        space_from(result@, 0) < result@.len() ==> (r matches Some(f) && {
            let i = space_from(result@, 0);
            &&& f.0@ == result@.subrange(0, i)
            &&& f.1@ == result@.subrange(i + 1, space_from(result@, i + 1))
        }),
{
    proof {
        lemma_space_from_bounds(result@, 0);
    }
    let n = result.unicode_len();
    let i = find_space(result, 0);
    if i == n {
        return None;
    }
    proof {
        lemma_space_from_bounds(result@, i + 1);
    }
    let j = find_space(result, i + 1);
    Some((result.substring_char(0, i).to_owned(), result.substring_char(i + 1, j).to_owned()))
}

} // verus!

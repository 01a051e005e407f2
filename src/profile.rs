//! Play profiles: which engine and version to start, at what skill, and how.
use crate::source_port::{Skill, SourcePort};
use vstd::prelude::*;

verus! {

/// A named way of starting a game.
#[derive(Debug)]
pub struct Profile {
    pub name: String,
    pub source_port_type: SourcePort,
    pub source_port_version: String,
    pub skill: Skill,
    pub fullscreen: bool,
    pub music: bool,
    pub default: bool,
}

impl Profile {
    /// Records a profile; its name and its engine's version must be set.
    pub fn new(
        name: &str,
        source_port_type: SourcePort,
        source_port_version: String,
        skill: Skill,
        fullscreen: bool,
        music: bool,
        default: bool,
    ) -> (r: Result<Profile, String>)
        ensures
            name@.len() == 0 ==> (r matches Err(m) && m@ == "The name of the profile must be set"@),
            name@.len() > 0 && source_port_version@.len() == 0 ==> (r matches Err(m)
                && m@ == "The source port version for the profile must be set"@),
            name@.len() > 0 && source_port_version@.len() > 0 ==> (r matches Ok(p) && p.name@ == name@
                && p.source_port_type == source_port_type && p.source_port_version == source_port_version
                && p.skill == skill && p.fullscreen == fullscreen && p.music == music && p.default == default),
    {
        if name.unicode_len() == 0 {
            return Err("The name of the profile must be set".to_owned());
        }
        if source_port_version.as_str().unicode_len() == 0 {
            return Err("The source port version for the profile must be set".to_owned());
        }
        Ok(Profile {
            name: name.to_owned(),
            source_port_type,
            source_port_version,
            skill,
            fullscreen,
            music,
            default,
        })
    }
}

} // verus!

//! The settings the launcher keeps: installed engines, play profiles, and where files live.
use crate::profile::Profile;
use crate::source_port::{spec_variant_name, InstalledSourcePort, Skill, SourcePort, SourcePortRelease};
use crate::text::{join2, join3};
use vstd::prelude::*;
use vstd::string::*;

verus! {

/// Where the user's game files live.
#[derive(Debug)]
pub struct UserSettings {
    pub iwads_path: String,
    pub wads_path: String,
    pub source_ports_path: String,
}

/// What the launcher remembers between runs.
#[derive(Debug)]
pub struct AppSettings {
    pub source_ports: Vec<InstalledSourcePort>,
    pub profiles: Vec<Profile>,
    pub release_cache_path: String,
}

/// Whether `version` of `port` is among the installed engines.
pub open spec fn is_installed(ports: Seq<InstalledSourcePort>, port: SourcePort, version: Seq<char>) -> bool {
    exists|i: int| 0 <= i < ports.len() && (#[trigger] ports[i]).name == port && ports[i].version@ == version
}

/// Whether `version` of `port` is among the installed engines.
fn has_installed(ports: &Vec<InstalledSourcePort>, port: SourcePort, version: &String) -> (r: bool)
    ensures
        r == is_installed(ports@, port, version@),
{
    let mut i: usize = 0;
    while i < ports.len()
        invariant
            0 <= i <= ports@.len(),
            forall|k: int| 0 <= k < i ==> !((#[trigger] ports@[k]).name == port && ports@[k].version@ == version@),
        decreases ports@.len() - i,
    {
        if ports[i].name == port && ports[i].version == *version {
            return true;
        }
        i = i + 1;
    }
    false
}

/// Whether the release's version of its engine is installed.
pub fn is_source_port_installed(source_port_release: &SourcePortRelease, settings: &AppSettings) -> (r: bool)
    ensures
        r == is_installed(settings.source_ports@, source_port_release.source_port, source_port_release.version@),
{
    has_installed(&settings.source_ports, source_port_release.source_port, &source_port_release.version)
}

/// The position of the first default profile.
fn first_default(profiles: &Vec<Profile>) -> (r: Option<usize>)
    ensures
        r is None <==> first_default_from(profiles@, 0) is None,
        r matches Some(i) ==> first_default_from(profiles@, 0) == Some(i as int),
{
    let mut j: usize = 0;
    while j < profiles.len()
        invariant
            0 <= j <= profiles@.len(),
            first_default_from(profiles@, 0) == first_default_from(profiles@, j as int),
        decreases profiles@.len() - j,
    {
        if profiles[j].default {
            return Some(j);
        }
        j = j + 1;
    }
    None
}

pub open spec fn duplicate_port_message(port: SourcePort, version: Seq<char>) -> Seq<char> {
    "There is already a "@ + spec_variant_name(port) + " source port at version "@ + version
}

pub open spec fn unknown_port_message(port: SourcePort, version: Seq<char>) -> Seq<char> {
    "The Source Port '"@ + spec_variant_name(port) + "' with version '"@ + version + "' does not exist"@
}

/// A profile that is no longer the default.
pub open spec fn demoted(p: Profile) -> Profile {
    Profile {
        name: p.name,
        source_port_type: p.source_port_type,
        source_port_version: p.source_port_version,
        skill: p.skill,
        fullscreen: p.fullscreen,
        music: p.music,
        default: false,
    }
}

/// The position of the first default profile at or after `start`.
pub open spec fn first_default_from(profiles: Seq<Profile>, start: int) -> Option<int>
    decreases profiles.len() - start,
{
    if 0 <= start < profiles.len() {
        if profiles[start].default {
            Some(start)
        } else {
            first_default_from(profiles, start + 1)
        }
    } else {
        None
    }
}

/// The profiles with the first default one demoted, if there is one.
pub open spec fn without_default(profiles: Seq<Profile>) -> Seq<Profile> {
    match first_default_from(profiles, 0) {
        Some(i) => profiles.update(i, demoted(profiles[i])),
        None => profiles,
    }
}

pub proof fn lemma_first_default_in_range(profiles: Seq<Profile>, start: int)
    ensures
        first_default_from(profiles, start) matches Some(i) ==> start <= i < profiles.len() && profiles[i].default,
    decreases profiles.len() - start,
{
    if 0 <= start < profiles.len() && !profiles[start].default {
        lemma_first_default_in_range(profiles, start + 1);
    }
}

impl AppSettings {
    /// Settings with nothing installed and no profiles yet.
    pub fn empty(release_cache_path: String) -> (r: AppSettings)
        ensures
            r.source_ports@.len() == 0,
            r.profiles@.len() == 0,
            r.release_cache_path == release_cache_path,
    {
        AppSettings { source_ports: Vec::new(), profiles: Vec::new(), release_cache_path }
    }

    /// Records an installed engine, unless that version of that engine is already recorded.
    pub fn add_source_port(&mut self, isp: InstalledSourcePort) -> (r: Result<(), String>)
        ensures
            is_installed(old(self).source_ports@, isp.name, isp.version@) ==> (r matches Err(m)
                && m@ == duplicate_port_message(isp.name, isp.version@)
                && final(self).source_ports@ == old(self).source_ports@),
            !is_installed(old(self).source_ports@, isp.name, isp.version@) ==> (r is Ok
                && final(self).source_ports@ == old(self).source_ports@.push(isp)),
            final(self).profiles@ == old(self).profiles@,
            final(self).release_cache_path == old(self).release_cache_path,
    {
        if has_installed(&self.source_ports, isp.name, &isp.version) {
            let head = join3("There is already a ", isp.name.variant_name(), " source port at version ");
            return Err(join2(head.as_str(), isp.version.as_str()));
        }
        self.source_ports.push(isp);
        Ok(())
    }

    /// Whether a new profile becomes the default: when asked for, and always for the first.
    pub fn default_for_new_profile(&self, requested: bool) -> (r: bool)
        ensures
            r == (requested || self.profiles@.len() == 0),
    {
        requested || self.profiles.len() == 0
    }

    /// Adds a profile, which must name an installed version of an engine. When
    /// `replace_default` is set, the current default profile stops being the default.
    pub fn add_profile(&mut self, profile: Profile, replace_default: bool) -> (r: Result<(), String>)
        ensures
            !is_installed(old(self).source_ports@, profile.source_port_type, profile.source_port_version@)
                ==> (r matches Err(m) && m@ == unknown_port_message(profile.source_port_type, profile.source_port_version@)
                && final(self).profiles@ == old(self).profiles@),
            is_installed(old(self).source_ports@, profile.source_port_type, profile.source_port_version@)
                ==> (r is Ok && final(self).profiles@ == (if replace_default {
                    without_default(old(self).profiles@)
                } else {
                    old(self).profiles@
                }).push(profile)),
            final(self).source_ports@ == old(self).source_ports@,
            final(self).release_cache_path == old(self).release_cache_path,
    {
        if !has_installed(&self.source_ports, profile.source_port_type, &profile.source_port_version) {
            let a = join3("The Source Port '", profile.source_port_type.variant_name(), "' with version '");
            return Err(join3(a.as_str(), profile.source_port_version.as_str(), "' does not exist"));
        }
        if replace_default {
            proof {
                lemma_first_default_in_range(self.profiles@, 0);
            }
            match first_default(&self.profiles) {
                Some(j) => {
                    let mut p = self.profiles.remove(j);
                    p.default = false;
                    self.profiles.insert(j, p);
                    assert(self.profiles@ =~= without_default(old(self).profiles@));
                },
                None => {},
            }
        }
        self.profiles.push(profile);
        Ok(())
    }
}


impl AppSettings {
    /// Adds a new profile made of these fields. The first profile is always the default; when
    /// `default` is set the new profile becomes the default and the current one stops being it.
    pub fn add_new_profile(
        &mut self,
        name: &str,
        source_port_type: SourcePort,
        source_port_version: String,
        skill: Skill,
        fullscreen: bool,
        music: bool,
        default: bool,
    ) -> (r: Result<(), String>)
        ensures
            name@.len() == 0 ==> (r matches Err(m) && m@ == "The name of the profile must be set"@),
            name@.len() > 0 && source_port_version@.len() == 0 ==> (r matches Err(m)
                && m@ == "The source port version for the profile must be set"@),
            name@.len() > 0 && source_port_version@.len() > 0
                && !is_installed(old(self).source_ports@, source_port_type, source_port_version@) ==> (r matches Err(m)
                && m@ == unknown_port_message(source_port_type, source_port_version@)),
            r is Err ==> final(self).profiles@ == old(self).profiles@,
            name@.len() > 0 && source_port_version@.len() > 0
                && is_installed(old(self).source_ports@, source_port_type, source_port_version@) ==> {
                let p = final(self).profiles@.last();
                &&& r is Ok
                &&& final(self).profiles@.drop_last() == (if default {
                    without_default(old(self).profiles@)
                } else {
                    old(self).profiles@
                })
                &&& final(self).profiles@.len() == old(self).profiles@.len() + 1
                &&& p.name@ == name@
                &&& p.source_port_type == source_port_type
                &&& p.source_port_version == source_port_version
                &&& p.skill == skill
                &&& p.fullscreen == fullscreen
                &&& p.music == music
                &&& p.default == (default || old(self).profiles@.len() == 0)
            },
            final(self).source_ports@ == old(self).source_ports@,
            final(self).release_cache_path == old(self).release_cache_path,
    {
        let is_default = self.default_for_new_profile(default);
        let profile = match Profile::new(name, source_port_type, source_port_version, skill, fullscreen, music, is_default) {
            Ok(p) => p,
            Err(m) => return Err(m),
        };
        let r = self.add_profile(profile, default);
        proof {
            lemma_first_default_in_range(old(self).profiles@, 0);
            if r is Ok {
                assert(self.profiles@.drop_last() =~= (if default {
                    without_default(old(self).profiles@)
                } else {
                    old(self).profiles@
                }));
            }
        }
        r
    }
}

} // verus!

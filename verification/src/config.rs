//! The structured entry source: a configuration carrying an output path and
//! an ordered list of named plugins, each pointing at an `owner/name`
//! repository with an optional pinned revision.

use vstd::prelude::*;

use crate::text::find_char;
use crate::text::find_char_in;

verus! {

/// A repository identifier, split into its owner and its name.  Both parts
/// are non-empty; [`Repository::parse`] rejects anything else.
pub struct Repository {
    pub owner: String,
    pub name: String,
}

/// The mathematical value of a [`Repository`].
pub struct RepositoryV {
    pub owner: Seq<char>,
    pub name: Seq<char>,
}

impl View for Repository {
    type V = RepositoryV;

    open spec fn view(&self) -> RepositoryV {
        RepositoryV { owner: self.owner@, name: self.name@ }
    }
}

impl Repository {
    /// An exact copy, made field by field so the copy's value is known.
    pub fn duplicate(&self) -> (r: Repository)
        ensures
            r@ == self@,
    {
        Repository { owner: self.owner.clone(), name: self.name.clone() }
    }

    /// Split an `owner/name` identifier at its first `/`.  Rejected unless
    /// the `/` is there and both sides are non-empty; the name keeps any
    /// further `/` characters.
    pub fn parse(s: &str) -> (r: Option<Repository>)
        ensures
            match r {
                Some(rep) => {
                    let f = find_char(s@, '/');
                    &&& 1 <= f < s@.len() - 1
                    &&& rep.owner@ == s@.subrange(0, f)
                    &&& rep.name@ == s@.subrange(f + 1, s@.len() as int)
                },
                None => {
                    let f = find_char(s@, '/');
                    f < 1 || f == s@.len() - 1
                },
            },
    {
        let n = s.unicode_len();
        match find_char_in(s, '/') {
            None => None,
            Some(f) => {
                if f == 0 || f + 1 == n {
                    None
                } else {
                    let owner = s.substring_char(0, f).to_owned();
                    let name = s.substring_char(f + 1, n).to_owned();
                    Some(Repository { owner, name })
                }
            },
        }
    }
}

/// One requested plugin: its repository and, when pinned, the revision to
/// fetch instead of the latest commit.
pub struct Plugin {
    pub repo: Repository,
    pub rev: Option<String>,
}

/// The mathematical value of a [`Plugin`].
pub struct PluginV {
    pub repo: RepositoryV,
    pub rev: Option<Seq<char>>,
}

impl View for Plugin {
    type V = PluginV;

    open spec fn view(&self) -> PluginV {
        PluginV {
            repo: self.repo@,
            rev: match self.rev {
                Some(ref r) => Some(r@),
                None => None,
            },
        }
    }
}

impl Plugin {
    /// An exact copy, made field by field so the copy's value is known.
    pub fn duplicate(&self) -> (r: Plugin)
        ensures
            r@ == self@,
    {
        Plugin {
            repo: self.repo.duplicate(),
            rev: match &self.rev {
                Some(r) => Some(r.clone()),
                None => None,
            },
        }
    }
}

/// One plugin together with the logical name it is listed under.
pub struct PluginEntry {
    pub name: String,
    pub plugin: Plugin,
}

/// The mathematical value of a [`PluginEntry`].
pub struct PluginEntryV {
    pub name: Seq<char>,
    pub plugin: PluginV,
}

impl View for PluginEntry {
    type V = PluginEntryV;

    open spec fn view(&self) -> PluginEntryV {
        PluginEntryV { name: self.name@, plugin: self.plugin@ }
    }
}

/// The view of a whole entry list.
pub open spec fn entries_view(es: Seq<PluginEntry>) -> Seq<PluginEntryV> {
    es.map_values(|e: PluginEntry| e@)
}

/// The configuration read from the structured entry source: the path the
/// document is written to, and the ordered plugin list.
pub struct Config {
    pub file: String,
    pub plugins: Vec<PluginEntry>,
}

} // verus!

//! Resources: where they lie, and a cache of those already loaded.
//!
//! Reading a resource from disk is the caller's work. The manager says under
//! which path a resource of a kind lies, and keeps what was read.

use vstd::hash_map::StringHashMap;
use vstd::prelude::*;
use vstd::string::*;

verus! {

/// The kinds of resource.
#[derive(Debug, Clone, Copy, PartialEq, Eq, Structural)]
pub enum ResourceType {
    /// An image.
    Image,
    /// A font.
    Font,
    /// A shader.
    Shader,
    /// A configuration file.
    Config,
    /// Anything else.
    Other,
}

impl ResourceType {
    /// The directory, with its separator, that holds resources of the kind;
    /// empty for the kind `Other`, whose resources lie at the top.
    pub open spec fn directory(self) -> Seq<char> {
        match self {
            ResourceType::Image => "images/"@,
            ResourceType::Font => "fonts/"@,
            ResourceType::Shader => "shaders/"@,
            ResourceType::Config => "config/"@,
            ResourceType::Other => Seq::empty(),
        }
    }
}

/// The path, below the base path, of the resource `name` of the given kind.
pub fn resource_path(name: &str, resource_type: ResourceType) -> (r: String)
    ensures
        r@ == resource_type.directory() + name@,
{
    let r = match resource_type {
        ResourceType::Image => String::from_str("images/").concat(name),
        ResourceType::Font => String::from_str("fonts/").concat(name),
        ResourceType::Shader => String::from_str("shaders/").concat(name),
        ResourceType::Config => String::from_str("config/").concat(name),
        ResourceType::Other => String::from_str(name),
    };
    assert(r@ =~= resource_type.directory() + name@);
    r
}

/// The first of the candidate directories that exists, if any does. Each
/// candidate comes with whether it exists.
pub open spec fn first_existing(candidates: Seq<(String, bool)>) -> Option<Seq<char>>
    decreases candidates.len(),
{
    if candidates.len() == 0 {
        None
    } else if candidates[0].1 {
        Some(candidates[0].0@)
    } else {
        first_existing(candidates.subrange(1, candidates.len() as int))
    }
}

/// The directory to look for resources in: the configured one; failing
/// that, the first candidate that exists; failing that, `resources`.
pub open spec fn chosen_path(configured: Option<String>, candidates: Seq<(String, bool)>) -> Seq<
    char,
> {
    match configured {
        Some(path) => path@,
        None => match first_existing(candidates) {
            Some(path) => path,
            None => "resources"@,
        },
    }
}

/// Keeps the resources that were loaded.
pub struct ResourceManager {
    base_path: String,
    cache: StringHashMap<Vec<u8>>,
}

/// The mathematical reading of a [`ResourceManager`].
pub struct ResourceManagerView {
    /// The directory below which the resources lie.
    pub base_path: Seq<char>,
    /// The data of each resource loaded so far, by its path.
    pub cache: Map<Seq<char>, Seq<u8>>,
}

impl View for ResourceManager {
    type V = ResourceManagerView;

    closed spec fn view(&self) -> ResourceManagerView {
        ResourceManagerView {
            base_path: self.base_path@,
            cache: self.cache@.map_values(|data: Vec<u8>| data@),
        }
    }
}

impl ResourceManager {
    /// A manager for the resources below `base_path`, with nothing loaded.
    pub fn new(base_path: &str) -> (r: ResourceManager)
        ensures
            r@.base_path == base_path@,
            r@.cache == Map::<Seq<char>, Seq<u8>>::empty(),
    {
        let r = ResourceManager {
            base_path: String::from_str(base_path),
            cache: StringHashMap::new(),
        };
        assert(r@.cache =~= Map::<Seq<char>, Seq<u8>>::empty());
        r
    }

    /// The directory to look for resources in, given the configured one, if
    /// any, and the usual places, each with whether it exists.
    pub fn default_path(configured: Option<String>, candidates: Vec<(String, bool)>) -> (r: String)
        ensures
            r@ == chosen_path(configured, candidates@),
    {
        if let Some(path) = configured {
            return path;
        }
        let mut i: usize = 0;
        proof {
            assert(candidates@.subrange(0, candidates@.len() as int) =~= candidates@);
        }
        while i < candidates.len()
            invariant
                i <= candidates@.len(),
                configured is None,
                first_existing(candidates@) == first_existing(
                    candidates@.subrange(i as int, candidates@.len() as int),
                ),
            decreases candidates@.len() - i,
        {
            let ghost rest = candidates@.subrange(i as int, candidates@.len() as int);
            proof {
                assert(rest[0] == candidates@[i as int]);
                assert(rest.subrange(1, rest.len() as int) =~= candidates@.subrange(
                    i + 1,
                    candidates@.len() as int,
                ));
            }
            if candidates[i].1 {
                return candidates[i].0.clone();
            }
            i += 1;
        }
        String::from_str("resources")
    }

    /// The directory below which the resources lie.
    pub fn base_path(&self) -> (r: &str)
        ensures
            r@ == self@.base_path,
    {
        self.base_path.as_str()
    }

    /// The data of the resource at `path`, if it was loaded before.
    pub fn cached(&self, path: &str) -> (r: Option<&Vec<u8>>)
        ensures
            match r {
                Some(data) => self@.cache.contains_key(path@) && self@.cache[path@] == data@,
                None => !self@.cache.contains_key(path@),
            },
    {
        self.cache.get(path)
    }

    /// Keeps the data of the resource at `path`, in place of any kept for it
    /// before.
    pub fn store(&mut self, path: &str, data: Vec<u8>)
        ensures
            final(self)@.base_path == old(self)@.base_path,
            final(self)@.cache == old(self)@.cache.insert(path@, data@),
    {
        self.cache.insert(String::from_str(path), data);
        assert(self@.cache =~= old(self)@.cache.insert(path@, data@));
    }
}

} // verus!

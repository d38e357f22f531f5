//! The ESM module loader's decisions: how a specifier resolves, when the
//! cache answers, and how a source becomes a module (transpiled when it is
//! TypeScript). Reading files and their times is the caller's part.
use vstd::prelude::*;

use dashmap::DashMap;

use crate::error::BuaError;
use crate::resolver::{relative_base, spec_path_join};
use crate::text::{chars_of, has_prefix, push_text, slice_chars, starts_with, string_of};
use crate::transpiler::{is_ts_extension, spec_path_extension, stripped, Transpiler};

verus! {

/// A loaded, ready-to-evaluate module.
#[derive(Debug)]
pub struct Module {
    pub specifier: String,
    pub resolved_path: String,
    pub source: String,
    /// True if the source was transpiled from TypeScript.
    pub was_transpiled: bool,
}

/// The mathematical value of a module.
pub struct ModuleView {
    pub specifier: Seq<char>,
    pub resolved_path: Seq<char>,
    pub source: Seq<char>,
    pub was_transpiled: bool,
}

impl View for Module {
    type V = ModuleView;

    open spec fn view(&self) -> ModuleView {
        ModuleView {
            specifier: self.specifier@,
            resolved_path: self.resolved_path@,
            source: self.source@,
            was_transpiled: self.was_transpiled,
        }
    }
}

impl Module {
    /// A copy of this module.
    pub fn duplicate(&self) -> (m: Module)
        ensures
            m@ == self@,
    {
        Module {
            specifier: self.specifier.clone(),
            resolved_path: self.resolved_path.clone(),
            source: self.source.clone(),
            was_transpiled: self.was_transpiled,
        }
    }
}

/// Where a specifier leads before the filesystem is consulted.
#[derive(Debug)]
pub enum LoadPlan {
    /// Probe this path on disk (exact, then with extensions, then index
    /// files).
    Probe(String),
    /// Resolved without the filesystem (builtins).
    Resolved(String),
}

/// A cached module as the cache holds it: specifier, resolved path, source,
/// whether it was transpiled, and the modification time of its file in
/// nanoseconds.
pub type CachedModule = (String, String, String, bool, u128);

/// The mathematical value of a cached module.
pub type CachedView = (Seq<char>, Seq<char>, Seq<char>, bool, u128);

/// What the module cache holds: each path mapped to its cached module.
pub uninterp spec fn cache_contents(m: DashMap<String, CachedModule>) -> Map<Seq<char>, CachedView>;

/// `DashMap::new`: an empty cache.
#[verifier::external_body]
fn new_cache() -> (cache: DashMap<String, CachedModule>)
    ensures
        cache_contents(cache).dom() == Set::<Seq<char>>::empty(),
{
    DashMap::new()
}

/// `DashMap::get`, the entry copied out: the module cached for `key`, if any.
#[verifier::external_body]
fn cache_get(m: &DashMap<String, CachedModule>, key: &str) -> (r: Option<CachedModule>)
    ensures
        match r {
            Some(e) => cache_contents(*m).dom().contains(key@) && cache_contents(*m)[key@] == (
            e.0@,
            e.1@,
            e.2@,
            e.3,
            e.4,
            ),
            None => !cache_contents(*m).dom().contains(key@),
        },
{
    m.get(key).map(|e| e.value().clone())
}

/// `DashMap::insert`: afterwards `key` maps to `value` and every other key
/// is as before (the replaced entry is dropped).
#[verifier::external_body]
fn cache_insert(m: &mut DashMap<String, CachedModule>, key: String, value: CachedModule)
    ensures
        cache_contents(*final(m)) == cache_contents(*old(m)).insert(
            key@,
            (value.0@, value.1@, value.2@, value.3, value.4),
        ),
{
    m.insert(key, value);
}

/// `DashMap::clear`: afterwards the cache is empty.
#[verifier::external_body]
fn cache_clear(m: &mut DashMap<String, CachedModule>)
    ensures
        cache_contents(*final(m)).dom() == Set::<Seq<char>>::empty(),
{
    m.clear()
}

/// `DashMap::len`: the number of cached modules.
#[verifier::external_body]
fn cache_len(m: &DashMap<String, CachedModule>) -> (n: usize)
    ensures
        n == cache_contents(*m).len(),
{
    m.len()
}

/// The module of a cached entry.
pub open spec fn cached_module(e: CachedView) -> ModuleView {
    ModuleView { specifier: e.0, resolved_path: e.1, source: e.2, was_transpiled: e.3 }
}

/// The module loader: its transpiler, its cache, and its base directory.
#[derive(Debug)]
pub struct ModuleLoader {
    transpiler: Transpiler,
    cache: DashMap<String, CachedModule>,
    base_dir: String,
}

/// The source a module gets from `raw` read at `path`: stripped of types
/// when the path is TypeScript.
pub open spec fn module_source(path: Seq<char>, raw: Seq<char>) -> Seq<char> {
    if is_ts_extension(spec_path_extension(path)) {
        stripped(raw)
    } else {
        raw
    }
}

impl ModuleLoader {
    /// The cache: each path mapped to its cached module and that module's
    /// file time.
    pub closed spec fn cache(&self) -> Map<Seq<char>, CachedView> {
        cache_contents(self.cache)
    }

    /// A cache of finitely many modules.
    pub open spec fn wf(&self) -> bool {
        self.cache().dom().finite()
    }

    /// The base directory for relative resolution.
    pub closed spec fn base(&self) -> Seq<char> {
        self.base_dir@
    }

    /// A loader with an empty cache.
    pub fn new(base_dir: String, transpiler: Transpiler) -> (l: Self)
        ensures
            l.wf(),
            l.cache().dom() == Set::<Seq<char>>::empty(),
            l.base() == base_dir@,
    {
        ModuleLoader { transpiler, cache: new_cache(), base_dir }
    }

    /// How `specifier` resolves: an absolute path is probed as it is; a
    /// `./` or `../` path is joined to the referrer's directory (or the base
    /// directory) and probed; `bua:name` is the builtin path
    /// `__bua_builtin__/name`; anything else is not found.
    pub fn resolve_plan(&self, specifier: &str, referrer: Option<&str>) -> (r: Result<LoadPlan, BuaError>)
        ensures
            has_prefix(specifier@, "/"@) ==> (r matches Ok(LoadPlan::Probe(p)) && p@ == specifier@),
            !has_prefix(specifier@, "/"@) && (has_prefix(specifier@, "./"@) || has_prefix(
                specifier@,
                "../"@,
            )) ==> (r matches Ok(LoadPlan::Probe(p)) && p@ == spec_path_join(
                relative_base(
                    match referrer {
                        Some(x) => Some(x@),
                        None => None,
                    },
                    self.base(),
                ),
                specifier@,
            )),
            !has_prefix(specifier@, "/"@) && !has_prefix(specifier@, "./"@) && !has_prefix(
                specifier@,
                "../"@,
            ) && has_prefix(specifier@, "bua:"@) ==> (r matches Ok(LoadPlan::Resolved(p)) && p@
                == "__bua_builtin__/"@ + specifier@.skip(4)),
            !has_prefix(specifier@, "/"@) && !has_prefix(specifier@, "./"@) && !has_prefix(
                specifier@,
                "../"@,
            ) && !has_prefix(specifier@, "bua:"@) ==> (r matches Err(BuaError::ModuleNotFound {
                specifier: m,
            }) && m@ == specifier@),
    {
        let cs = chars_of(specifier);
        if starts_with(cs.as_slice(), "/") {
            return Ok(LoadPlan::Probe(specifier.to_owned()));
        }
        if starts_with(cs.as_slice(), "./") || starts_with(cs.as_slice(), "../") {
            let dir = match referrer {
                Some(r) => match crate::resolver::path_parent(r) {
                    Some(p) => p,
                    None => self.base_dir.clone(),
                },
                None => self.base_dir.clone(),
            };
            return Ok(LoadPlan::Probe(crate::resolver::path_join(dir.as_str(), specifier)));
        }
        if starts_with(cs.as_slice(), "bua:") {
            proof {
                reveal_strlit("bua:");
            }
            let name = slice_chars(cs.as_slice(), 4, cs.len());
            assert(name@ =~= specifier@.skip(4));
            let mut p = String::new();
            push_text(&mut p, "__bua_builtin__/");
            let n = string_of(name.as_slice());
            push_text(&mut p, n.as_str());
            return Ok(LoadPlan::Resolved(p));
        }
        Err(BuaError::ModuleNotFound { specifier: specifier.to_owned() })
    }

    /// The cached module at `path`, when its file (now modified at
    /// `mtime_ns`) was not modified after it was cached.
    pub fn cached(&self, path: &str, mtime_ns: u128) -> (r: Option<Module>)
        ensures
            if self.cache().dom().contains(path@) && mtime_ns <= self.cache()[path@].4 {
                r matches Some(x) && x@ == cached_module(self.cache()[path@])
            } else {
                r is None
            },
    {
        match cache_get(&self.cache, path) {
            Some((specifier, resolved_path, source, was_transpiled, time)) => {
                if mtime_ns <= time {
                    Some(Module { specifier, resolved_path, source, was_transpiled })
                } else {
                    None
                }
            },
            None => None,
        }
    }

    /// The module made from `raw`, the text of the file at `path` that
    /// `specifier` resolved to: transpiled when the path is TypeScript.
    pub fn prepare(&self, specifier: &str, path: &str, raw: String) -> (r: Result<Module, BuaError>)
        ensures
            r matches Ok(m) && m.specifier@ == specifier@ && m.resolved_path@ == path@
                && m.source@ == module_source(path@, raw@) && m.was_transpiled == is_ts_extension(
                spec_path_extension(path@),
            ),
    {
        if Transpiler::needs_transpile(path) {
            match self.transpiler.transpile(raw.as_str(), path) {
                Ok(out) => Ok(
                    Module {
                        specifier: specifier.to_owned(),
                        resolved_path: path.to_owned(),
                        source: out.code,
                        was_transpiled: true,
                    },
                ),
                Err(e) => Err(e),
            }
        } else {
            Ok(
                Module {
                    specifier: specifier.to_owned(),
                    resolved_path: path.to_owned(),
                    source: raw,
                    was_transpiled: false,
                },
            )
        }
    }

    /// Caches `module` for `path`, with its file's modification time; an
    /// earlier entry for the path is replaced.
    pub fn insert_cached(&mut self, path: String, module: Module, mtime_ns: u128)
        ensures
            old(self).wf() ==> final(self).wf(),
            final(self).cache() == old(self).cache().insert(
                path@,
                (module.specifier@, module.resolved_path@, module.source@, module.was_transpiled, mtime_ns),
            ),
            final(self).base() == old(self).base(),
    {
        let Module { specifier, resolved_path, source, was_transpiled } = module;
        cache_insert(&mut self.cache, path, (specifier, resolved_path, source, was_transpiled, mtime_ns));
    }

    /// Empties the cache.
    pub fn invalidate_all(&mut self)
        ensures
            final(self).wf(),
            final(self).cache().dom() == Set::<Seq<char>>::empty(),
            final(self).base() == old(self).base(),
    {
        cache_clear(&mut self.cache);
    }

    /// The number of cached modules.
    pub fn cache_size(&self) -> (n: usize)
        ensures
            n == self.cache().len(),
    {
        cache_len(&self.cache)
    }
}

} // verus!

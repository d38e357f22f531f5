//! Module specifier resolution: `bua:*` builtins, relative and absolute
//! paths (probed on disk with the runtime's extensions and index files),
//! and no bare specifiers.
use vstd::prelude::*;

use crate::error::BuaError;
use crate::text::{chars_of, has_prefix, push_text, slice_chars, starts_with, string_of};

verus! {

/// Resolution context for a single specifier lookup.
#[derive(Debug)]
pub struct ResolveContext {
    /// The file that contains the import statement (None for the entry point).
    pub referrer: Option<String>,
    /// Root directory of the agent execution.
    pub root: String,
}

/// The result of resolving a specifier.
#[derive(Debug)]
pub enum ResolvedSpecifier {
    /// A file on disk with an absolute path.
    File(String),
    /// A Bua builtin module (`bua:fs`, `bua:env`, ...).
    Builtin(String),
}

/// What resolving a specifier asks for before the filesystem is consulted.
#[derive(Debug)]
pub enum ResolvePlan {
    /// A builtin module: resolved.
    Builtin(String),
    /// A path to probe on disk (see [`ModuleResolver::probe_candidates`]).
    Probe(String),
}

/// Resolves module specifiers to absolute paths.
#[derive(Debug)]
pub struct ModuleResolver {
    root: String,
}

/// The suffixes tried on a probed path, in order (the first is the exact
/// path).
pub open spec fn probe_extensions() -> Seq<Seq<char>> {
    seq![""@, ".ts"@, ".js"@, ".mts"@, ".mjs"@, ".tsx"@, ".jsx"@]
}

/// The index files tried in a probed directory, in order.
pub open spec fn index_files() -> Seq<Seq<char>> {
    seq!["index.ts"@, "index.js"@, "index.mts"@, "index.mjs"@]
}

/// Name for what `std::path::Path::parent` gives for a path, as text.
pub uninterp spec fn spec_path_parent(p: Seq<char>) -> Option<Seq<char>>;

/// Name for what `std::path::Path::join` gives for two paths, as text.
pub uninterp spec fn spec_path_join(base: Seq<char>, rel: Seq<char>) -> Seq<char>;

/// Name for what `std::path::Path::file_name` gives for a path, as text
/// (lossy for names that are not UTF-8).
pub uninterp spec fn spec_path_file_name(p: Seq<char>) -> Option<Seq<char>>;

/// Name for what `std::path::PathBuf::set_file_name` makes of a path and a
/// file name, as text.
pub uninterp spec fn spec_path_with_file_name(p: Seq<char>, name: Seq<char>) -> Seq<char>;

/// `Path::new(p).parent()` from std, as text. Claimed: the result is
/// [`spec_path_parent`] of `p`.
#[verifier::external_body]
pub(crate) fn path_parent(p: &str) -> (r: Option<String>)
    ensures
        match r {
            Some(x) => spec_path_parent(p@) == Some(x@),
            None => spec_path_parent(p@) is None,
        },
{
    std::path::Path::new(p).parent().map(|x| x.to_string_lossy().into_owned())
}

/// `Path::new(base).join(rel)` from std, as text. Claimed: the result is
/// [`spec_path_join`] of the two.
#[verifier::external_body]
pub(crate) fn path_join(base: &str, rel: &str) -> (r: String)
    ensures
        r@ == spec_path_join(base@, rel@),
{
    std::path::Path::new(base).join(rel).to_string_lossy().into_owned()
}

/// `Path::new(p).file_name()` from std, as (lossy) text. Claimed: the
/// result is [`spec_path_file_name`] of `p`.
#[verifier::external_body]
fn path_file_name(p: &str) -> (r: Option<String>)
    ensures
        match r {
            Some(x) => spec_path_file_name(p@) == Some(x@),
            None => spec_path_file_name(p@) is None,
        },
{
    std::path::Path::new(p).file_name().map(|x| x.to_string_lossy().into_owned())
}

/// `PathBuf::set_file_name` from std, on a copy of `p`, as text. Claimed:
/// the result is [`spec_path_with_file_name`] of the two.
#[verifier::external_body]
fn path_with_file_name(p: &str, name: &str) -> (r: String)
    ensures
        r@ == spec_path_with_file_name(p@, name@),
{
    let mut b = std::path::PathBuf::from(p);
    b.set_file_name(name);
    b.to_string_lossy().into_owned()
}

/// The message of the error for a bare specifier.
pub open spec fn bare_message(specifier: Seq<char>) -> Seq<char> {
    "'"@ + specifier
        + "' — bare specifiers are not supported. Use relative paths or 'bua:*' builtins."@
}

/// The directory a relative specifier is resolved against: the referrer's
/// parent, else the root.
pub open spec fn relative_base(ctx_referrer: Option<Seq<char>>, root: Seq<char>) -> Seq<char> {
    match ctx_referrer {
        Some(r) => match spec_path_parent(r) {
            Some(p) => p,
            None => root,
        },
        None => root,
    }
}

/// The view of an optional text.
pub open spec fn opt_text(o: Option<String>) -> Option<Seq<char>> {
    match o {
        Some(s) => Some(s@),
        None => None,
    }
}

/// The paths probed for `base`, in order: `base` itself, then `base` with
/// each extension appended to its file name.
pub open spec fn spec_probe_candidates(base: Seq<char>) -> Seq<Seq<char>> {
    Seq::new(
        probe_extensions().len(),
        |i: int|
            if i == 0 {
                base
            } else {
                spec_path_with_file_name(
                    base,
                    match spec_path_file_name(base) {
                        Some(n) => n,
                        None => Seq::empty(),
                    } + probe_extensions()[i],
                )
            },
    )
}

impl ModuleResolver {
    /// A resolver for the execution rooted at `root`.
    pub fn new(root: String) -> (r: Self)
        ensures
            r.spec_root() == root@,
    {
        ModuleResolver { root }
    }

    /// The root directory.
    pub closed spec fn spec_root(&self) -> Seq<char> {
        self.root@
    }

    /// The first step of resolving `specifier`: `bua:name` is the builtin
    /// `name`; `./` and `../` specifiers are joined to the referrer's
    /// directory (or the root) and probed; absolute ones are probed as they
    /// are; bare specifiers are an error.
    pub fn plan(&self, specifier: &str, ctx: &ResolveContext) -> (r: Result<ResolvePlan, BuaError>)
        ensures
            has_prefix(specifier@, "bua:"@) ==> (r matches Ok(ResolvePlan::Builtin(n)) && n@
                == specifier@.skip(4)),
            !has_prefix(specifier@, "bua:"@) && (has_prefix(specifier@, "./"@) || has_prefix(
                specifier@,
                "../"@,
            )) ==> (r matches Ok(ResolvePlan::Probe(p)) && p@ == spec_path_join(
                relative_base(opt_text(ctx.referrer), ctx.root@),
                specifier@,
            )),
            !has_prefix(specifier@, "bua:"@) && !has_prefix(specifier@, "./"@) && !has_prefix(
                specifier@,
                "../"@,
            ) && has_prefix(specifier@, "/"@) ==> (r matches Ok(ResolvePlan::Probe(p)) && p@
                == specifier@),
            !has_prefix(specifier@, "bua:"@) && !has_prefix(specifier@, "./"@) && !has_prefix(
                specifier@,
                "../"@,
            ) && !has_prefix(specifier@, "/"@) ==> (r matches Err(BuaError::ModuleNotFound {
                specifier: m,
            }) && m@ == bare_message(specifier@)),
    {
        let cs = chars_of(specifier);
        if starts_with(cs.as_slice(), "bua:") {
            proof {
                reveal_strlit("bua:");
            }
            let name = slice_chars(cs.as_slice(), 4, cs.len());
            assert(name@ =~= specifier@.skip(4));
            return Ok(ResolvePlan::Builtin(string_of(name.as_slice())));
        }
        if starts_with(cs.as_slice(), "./") || starts_with(cs.as_slice(), "../") {
            let candidate = match &ctx.referrer {
                Some(r) => match path_parent(r.as_str()) {
                    Some(p) => path_join(p.as_str(), specifier),
                    None => path_join(ctx.root.as_str(), specifier),
                },
                None => path_join(ctx.root.as_str(), specifier),
            };
            return Ok(ResolvePlan::Probe(candidate));
        }
        if starts_with(cs.as_slice(), "/") {
            return Ok(ResolvePlan::Probe(specifier.to_owned()));
        }
        let mut m = String::new();
        push_text(&mut m, "'");
        push_text(&mut m, specifier);
        push_text(
            &mut m,
            "' — bare specifiers are not supported. Use relative paths or 'bua:*' builtins.",
        );
        Err(BuaError::ModuleNotFound { specifier: m })
    }

    /// The paths probed for `base`, in order (see
    /// [`spec_probe_candidates`]). The first that is a file, or a directory
    /// holding one of the index files, resolves the specifier.
    pub fn probe_candidates(base: &str) -> (r: Vec<String>)
        ensures
            r@.map_values(|s: String| s@) == spec_probe_candidates(base@),
    {
        let name = match path_file_name(base) {
            Some(n) => n,
            None => String::new(),
        };
        let exts: [&str; 7] = ["", ".ts", ".js", ".mts", ".mjs", ".tsx", ".jsx"];
        let mut out: Vec<String> = Vec::new();
        out.push(base.to_owned());
        let mut i: usize = 1;
        while i < 7
            invariant
                1 <= i <= 7,
                out@.len() == i,
                exts@ == seq!["", ".ts", ".js", ".mts", ".mjs", ".tsx", ".jsx"],
                name@ == match spec_path_file_name(base@) {
                    Some(n) => n,
                    None => Seq::empty(),
                },
                forall|j: int| 0 <= j < i ==> #[trigger] out@[j]@ == spec_probe_candidates(base@)[j],
            decreases 7 - i,
        {
            let mut file = name.clone();
            let ext = exts[i];
            push_text(&mut file, ext);
            proof {
                assert(exts@[i as int]@ == probe_extensions()[i as int]);
            }
            out.push(path_with_file_name(base, file.as_str()));
            i = i + 1;
        }
        assert(out@.map_values(|s: String| s@) =~= spec_probe_candidates(base@));
        out
    }

    /// The index files probed inside the directory `dir`, in order.
    pub fn index_candidates(dir: &str) -> (r: Vec<String>)
        ensures
            r@.map_values(|s: String| s@) == index_files().map_values(|f: Seq<char>| spec_path_join(dir@, f)),
    {
        let mut out: Vec<String> = Vec::new();
        out.push(path_join(dir, "index.ts"));
        out.push(path_join(dir, "index.js"));
        out.push(path_join(dir, "index.mts"));
        out.push(path_join(dir, "index.mjs"));
        assert(out@.map_values(|s: String| s@) =~= index_files().map_values(|f: Seq<char>| spec_path_join(dir@, f)));
        out
    }

    /// The error when no probed path exists.
    pub fn not_found(base: &str) -> (e: BuaError)
        ensures
            e matches BuaError::ModuleNotFound { specifier } && specifier@ == base@,
    {
        BuaError::ModuleNotFound { specifier: base.to_owned() }
    }
}

} // verus!

//! The command line's decisions: reading `--allow-fs` arguments, and the
//! capability set the `--allow-*` flags grant.
use vstd::prelude::*;

use crate::capabilities::{
    CapView, Capability, CapabilitySet, EnvCapability, FsCapability, FsMode, NetCapability,
    SubprocessCapability,
};
use crate::text::{chars_of, push_text, slice_chars, string_of, text_eq};

verus! {

/// The index of the first `:` in `t`.
pub open spec fn first_colon(t: Seq<char>) -> Option<int>
    decreases t.len(),
{
    if t.len() == 0 {
        None
    } else if t[0] == ':' {
        Some(0)
    } else {
        match first_colon(t.drop_first()) {
            Some(i) => Some(i + 1),
            None => None,
        }
    }
}

proof fn lemma_first_colon(t: Seq<char>, m: int)
    requires
        0 <= m <= t.len(),
        forall|k: int| 0 <= k < m ==> t[k] != ':',
        m == t.len() || t[m] == ':',
    ensures
        first_colon(t) == if m == t.len() {
            None::<int>
        } else {
            Some(m)
        },
    decreases m,
{
    if m > 0 {
        lemma_first_colon(t.drop_first(), m - 1);
    }
}

/// An `--allow-fs` argument split into its path and mode: at its first `:`,
/// or the whole argument with mode `rw`.
pub open spec fn fs_arg_parts(arg: Seq<char>) -> (Seq<char>, Seq<char>) {
    match first_colon(arg) {
        Some(i) => (arg.take(i), arg.skip(i + 1)),
        None => (arg, "rw"@),
    }
}

/// Splits an `--allow-fs` argument (see [`fs_arg_parts`]).
pub fn split_fs_arg(arg: &str) -> (r: (String, String))
    ensures
        (r.0@, r.1@) == fs_arg_parts(arg@),
{
    let cs = chars_of(arg);
    let mut i: usize = 0;
    while i < cs.len() && cs[i] != ':'
        invariant
            i <= cs@.len(),
            cs@ == arg@,
            forall|k: int| 0 <= k < i ==> cs@[k] != ':',
        decreases cs.len() - i,
    {
        i = i + 1;
    }
    proof {
        lemma_first_colon(arg@, i as int);
    }
    if i < cs.len() {
        let p = slice_chars(cs.as_slice(), 0, i);
        let m = slice_chars(cs.as_slice(), i + 1, cs.len());
        assert(p@ =~= arg@.take(i as int));
        assert(m@ =~= arg@.skip(i + 1));
        (string_of(p.as_slice()), string_of(m.as_slice()))
    } else {
        (arg.to_owned(), "rw".to_owned())
    }
}

/// The filesystem mode a mode argument names: `r`, `rw` (read, write,
/// create) or `rwcd` (and delete).
pub open spec fn fs_mode_named(mode: Seq<char>) -> Option<u8> {
    if mode == "r"@ {
        Some(FsMode::READ)
    } else if mode == "rw"@ {
        Some((FsMode::READ | FsMode::WRITE | FsMode::CREATE) as u8)
    } else if mode == "rwcd"@ {
        Some((FsMode::READ | FsMode::WRITE | FsMode::CREATE | FsMode::DELETE) as u8)
    } else {
        None
    }
}

/// The message of an unknown mode argument.
pub open spec fn unknown_mode_message(mode: Seq<char>) -> Seq<char> {
    "unknown fs mode '"@ + mode + "' (use r, rw, rwcd)"@
}

/// The filesystem mode a mode argument names, or the error for an unknown
/// one.
pub fn fs_mode_of(mode: &str) -> (r: Result<u8, String>)
    ensures
        match fs_mode_named(mode@) {
            Some(m) => r == Ok::<u8, String>(m),
            None => r matches Err(e) && e@ == unknown_mode_message(mode@),
        },
{
    if text_eq(mode, "r") {
        Ok(FsMode::READ)
    } else if text_eq(mode, "rw") {
        Ok(FsMode::READ | FsMode::WRITE | FsMode::CREATE)
    } else if text_eq(mode, "rwcd") {
        Ok(FsMode::READ | FsMode::WRITE | FsMode::CREATE | FsMode::DELETE)
    } else {
        let mut e = String::new();
        push_text(&mut e, "unknown fs mode '");
        push_text(&mut e, mode);
        push_text(&mut e, "' (use r, rw, rwcd)");
        Err(e)
    }
}

/// The capabilities the command-line flags grant: everything with
/// `--allow-all`; else one filesystem capability per `--allow-fs` root (with
/// its mode), one network capability for all `--allow-net` hosts (outbound
/// only), one subprocess capability for all `--allow-run` executables, and
/// reading every environment variable with `--allow-env`.
pub open spec fn flag_caps(
    allow_all: bool,
    fs: Seq<(Seq<char>, u8)>,
    net: Seq<Seq<char>>,
    run: Seq<Seq<char>>,
    env: bool,
) -> Set<CapView> {
    if allow_all {
        Set::empty().insert(CapView::Unrestricted)
    } else {
        Set::new(
            |c: CapView|
                (exists|i: int|
                    0 <= i < fs.len() && c == (CapView::Filesystem {
                        roots: seq![fs[i].0],
                        mode: fs[i].1,
                    })) || (net.len() > 0 && c == (CapView::Network {
                    hosts: net,
                    outbound: true,
                    inbound: false,
                })) || (run.len() > 0 && c == (CapView::Subprocess { exes: run })) || (env && c
                    == (CapView::EnvRead { keys: Seq::empty() })),
        )
    }
}

/// The capabilities the command-line flags grant (see [`flag_caps`]); each
/// filesystem root comes canonicalized by the caller.
pub fn build_capabilities(
    allow_all: bool,
    fs: Vec<(String, u8)>,
    allow_net: Vec<String>,
    allow_run: Vec<String>,
    allow_env: bool,
) -> (caps: CapabilitySet)
    ensures
        caps@.caps == flag_caps(
            allow_all,
            fs@.map_values(|g: (String, u8)| (g.0@, g.1)),
            allow_net.deep_view(),
            allow_run.deep_view(),
            allow_env,
        ),
        caps@.generation == 0,
{
    if allow_all {
        let c = CapabilitySet::unrestricted();
        return c;
    }
    let ghost fv = fs@.map_values(|g: (String, u8)| (g.0@, g.1));
    let ghost nv = allow_net.deep_view();
    let ghost rv = allow_run.deep_view();
    let mut caps = CapabilitySet::new();
    let mut i: usize = 0;
    while i < fs.len()
        invariant
            i <= fs@.len(),
            fv == fs@.map_values(|g: (String, u8)| (g.0@, g.1)),
            caps@.generation == 0,
            caps@.caps == Set::new(
                |c: CapView|
                    exists|j: int|
                        0 <= j < i && c == (CapView::Filesystem { roots: seq![fv[j].0], mode: fv[j].1 }),
            ),
        decreases fs.len() - i,
    {
        let mut roots: Vec<String> = Vec::new();
        roots.push(fs[i].0.clone());
        let cap = Capability::Filesystem(FsCapability { allowed_roots: roots, mode: fs[i].1 });
        let ghost cv = cap@;
        assert(cv == (CapView::Filesystem { roots: seq![fv[i as int].0], mode: fv[i as int].1 })) by {
            assert(roots.deep_view() =~= seq![fv[i as int].0]);
        }
        caps.grant(cap);
        assert(caps@.caps =~= Set::new(
            |c: CapView|
                exists|j: int|
                    0 <= j < i + 1 && c == (CapView::Filesystem { roots: seq![fv[j].0], mode: fv[j].1 }),
        )) by {
            assert forall|c: CapView| caps@.caps.contains(c) == (exists|j: int|
                0 <= j < i + 1 && c == (CapView::Filesystem { roots: seq![fv[j].0], mode: fv[j].1 })) by {
                if c == cv {
                    assert(0 <= i < i + 1 && c == (CapView::Filesystem { roots: seq![fv[i as int].0], mode: fv[i as int].1 }));
                }
            }
        }
        i = i + 1;
    }
    let ghost fs_part = caps@.caps;
    let ghost net_cap = CapView::Network { hosts: nv, outbound: true, inbound: false };
    let ghost run_cap = CapView::Subprocess { exes: rv };
    let ghost env_cap = CapView::EnvRead { keys: Seq::empty() };
    assert(nv.len() == allow_net@.len());
    assert(rv.len() == allow_run@.len());
    if allow_net.len() > 0 {
        let cap = Capability::Network(
            NetCapability { allowed_hosts: allow_net, allow_outbound: true, allow_inbound: false },
        );
        assert(cap@ == net_cap);
        caps.grant(cap);
    }
    let ghost net_part = caps@.caps;
    assert(net_part == if nv.len() > 0 { fs_part.insert(net_cap) } else { fs_part });
    if allow_run.len() > 0 {
        let cap = Capability::Subprocess(SubprocessCapability { allowed_executables: allow_run });
        assert(cap@ == run_cap);
        caps.grant(cap);
    }
    let ghost run_part = caps@.caps;
    assert(run_part == if rv.len() > 0 { net_part.insert(run_cap) } else { net_part });
    if allow_env {
        let empty_keys: Vec<String> = Vec::new();
        let cap = Capability::EnvRead(EnvCapability { allowed_keys: empty_keys });
        assert(cap@ == env_cap) by {
            assert(empty_keys.deep_view() =~= Seq::<Seq<char>>::empty());
        }
        caps.grant(cap);
    }
    proof {
        let target = flag_caps(false, fv, nv, rv, allow_env);
        assert(caps@.caps == if allow_env { run_part.insert(env_cap) } else { run_part });
        assert forall|c: CapView| caps@.caps.contains(c) == target.contains(c) by {
            assert(fs_part.contains(c) == (exists|j: int|
                0 <= j < fv.len() && c == (CapView::Filesystem { roots: seq![fv[j].0], mode: fv[j].1 })));
        }
        assert(caps@.caps =~= target);
    }
    caps
}

/// The heap limit in bytes of a limit in MiB.
pub fn heap_bytes_of_mib(mib: usize) -> (b: usize)
    requires
        mib * 1_048_576 <= usize::MAX,
    ensures
        b == mib * 1_048_576,
{
    mib * 1_048_576
}

/// The runtime timeout of a `--timeout-secs` value: none for 0.
pub fn timeout_ms_of_secs(secs: u64) -> (t: Option<u64>)
    requires
        secs * 1000 <= u64::MAX,
    ensures
        t == if secs > 0 {
            Some((secs * 1000) as u64)
        } else {
            None::<u64>
        },
{
    if secs > 0 {
        Some(secs * 1000)
    } else {
        None
    }
}

} // verus!

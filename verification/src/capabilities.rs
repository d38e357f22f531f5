//! Capabilities granted to an execution context, and the permission check
//! that every operation touching the outside world goes through.
use vstd::prelude::*;

use crate::text::{chars_of, clone_strings, push_text, range_eq, strings_eq};

verus! {

/// Filesystem access modes. A mode is a `u8` of these bits; `|` joins them.
#[derive(Debug)]
pub struct FsMode;

impl FsMode {
    pub const READ: u8 = 0b0001;
    pub const WRITE: u8 = 0b0010;
    pub const CREATE: u8 = 0b0100;
    pub const DELETE: u8 = 0b1000;
    pub const READ_WRITE: u8 = 0b0111;
}

/// Whether every bit of `wanted` is set in `mode`.
pub open spec fn mode_contains(mode: u8, wanted: u8) -> bool {
    mode & wanted == wanted
}

/// Filesystem access scoped to a set of allowed roots.
#[derive(Debug)]
pub struct FsCapability {
    pub allowed_roots: Vec<String>,
    pub mode: u8,
}

/// Network access scoped to allowed hosts, e.g. `openai.com`,
/// `*.anthropic.com`, `127.0.0.1:8080`.
#[derive(Debug)]
pub struct NetCapability {
    pub allowed_hosts: Vec<String>,
    pub allow_outbound: bool,
    pub allow_inbound: bool,
}

/// Subprocess execution scoped to allowed executable names (`*` allows all).
#[derive(Debug)]
pub struct SubprocessCapability {
    pub allowed_executables: Vec<String>,
}

/// Environment variable read access; an empty key list allows every key.
#[derive(Debug)]
pub struct EnvCapability {
    pub allowed_keys: Vec<String>,
}

/// A single granted capability with its scope.
#[derive(Debug)]
pub enum Capability {
    Filesystem(FsCapability),
    Network(NetCapability),
    Subprocess(SubprocessCapability),
    EnvRead(EnvCapability),
    /// Agent spawning: the holder may create child agents.
    AgentSpawn,
    /// Full system access (only for trusted root agents).
    Unrestricted,
}

/// The mathematical value of a capability: its scopes as character sequences.
pub enum CapView {
    Filesystem { roots: Seq<Seq<char>>, mode: u8 },
    Network { hosts: Seq<Seq<char>>, outbound: bool, inbound: bool },
    Subprocess { exes: Seq<Seq<char>> },
    EnvRead { keys: Seq<Seq<char>> },
    AgentSpawn,
    Unrestricted,
}

impl View for Capability {
    type V = CapView;

    open spec fn view(&self) -> CapView {
        match self {
            Capability::Filesystem(fs) => CapView::Filesystem {
                roots: fs.allowed_roots.deep_view(),
                mode: fs.mode,
            },
            Capability::Network(net) => CapView::Network {
                hosts: net.allowed_hosts.deep_view(),
                outbound: net.allow_outbound,
                inbound: net.allow_inbound,
            },
            Capability::Subprocess(sub) => CapView::Subprocess {
                exes: sub.allowed_executables.deep_view(),
            },
            Capability::EnvRead(env) => CapView::EnvRead { keys: env.allowed_keys.deep_view() },
            Capability::AgentSpawn => CapView::AgentSpawn,
            Capability::Unrestricted => CapView::Unrestricted,
        }
    }
}

/// A permission request: what an operation wants to do.
#[derive(Debug)]
pub enum Permission {
    FsRead(String),
    FsWrite(String),
    NetConnect(String),
    Subprocess(String),
    EnvRead(String),
    AgentSpawn,
}

/// The mathematical value of a permission request.
pub enum PermView {
    FsRead(Seq<char>),
    FsWrite(Seq<char>),
    NetConnect(Seq<char>),
    Subprocess(Seq<char>),
    EnvRead(Seq<char>),
    AgentSpawn,
}

impl View for Permission {
    type V = PermView;

    open spec fn view(&self) -> PermView {
        match self {
            Permission::FsRead(p) => PermView::FsRead(p@),
            Permission::FsWrite(p) => PermView::FsWrite(p@),
            Permission::NetConnect(h) => PermView::NetConnect(h@),
            Permission::Subprocess(e) => PermView::Subprocess(e@),
            Permission::EnvRead(k) => PermView::EnvRead(k@),
            Permission::AgentSpawn => PermView::AgentSpawn,
        }
    }
}

/// Name for what `std::path::Path::starts_with` answers for a path and a base,
/// both given as text: whether the base's components are a prefix of the
/// path's components, as the target's path syntax reads them.
pub uninterp spec fn spec_path_starts_with(path: Seq<char>, base: Seq<char>) -> bool;

/// `Path::new(path).starts_with(base)` from std. Claimed: the answer is
/// [`spec_path_starts_with`] of the two texts; nothing more is stated of it.
#[verifier::external_body]
fn path_starts_with(path: &str, base: &str) -> (r: bool)
    ensures
        r == spec_path_starts_with(path@, base@),
{
    std::path::Path::new(path).starts_with(base)
}

/// Glob-style host matching: `*` matches every host, `*.openai.com` matches
/// every host ending in `.openai.com` (its subdomains, not `openai.com`
/// itself), any other pattern matches only itself.
pub open spec fn spec_host_matches(pattern: Seq<char>, host: Seq<char>) -> bool {
    if pattern == seq!['*'] {
        true
    } else if pattern.len() >= 2 && pattern[0] == '*' && pattern[1] == '.' {
        let suffix = pattern.skip(2);
        host.len() > suffix.len() && host.skip(host.len() - suffix.len() - 1) == seq!['.'] + suffix
    } else {
        pattern == host
    }
}

/// Whether `s` ends with `suffix`.
pub open spec fn ends_with(s: Seq<char>, suffix: Seq<char>) -> bool {
    s.len() >= suffix.len() && s.skip(s.len() - suffix.len()) == suffix
}

/// Whether some root in `roots` is a base of `path`.
pub open spec fn some_root_covers(roots: Seq<Seq<char>>, path: Seq<char>) -> bool {
    exists|i: int| 0 <= i < roots.len() && #[trigger] spec_path_starts_with(path, roots[i])
}

/// Whether some pattern in `hosts` matches `host`.
pub open spec fn some_host_matches(hosts: Seq<Seq<char>>, host: Seq<char>) -> bool {
    exists|i: int| 0 <= i < hosts.len() && #[trigger] spec_host_matches(hosts[i], host)
}

/// Whether some entry of `names` is `name`, or (when `star` is set) `*`.
pub open spec fn some_name_matches(names: Seq<Seq<char>>, name: Seq<char>, star: bool) -> bool {
    exists|i: int|
        0 <= i < names.len() && (#[trigger] names[i] == name || (star && names[i] == seq!['*']))
}

/// Whether the single capability `c` satisfies permission `p` (the
/// `Unrestricted` capability is handled by [`spec_check`]).
pub open spec fn cap_allows(c: CapView, p: PermView) -> bool {
    match p {
        PermView::FsRead(path) => match c {
            CapView::Filesystem { roots, mode } => mode_contains(mode, FsMode::READ)
                && some_root_covers(roots, path),
            _ => false,
        },
        PermView::FsWrite(path) => match c {
            CapView::Filesystem { roots, mode } => mode_contains(mode, FsMode::WRITE)
                && some_root_covers(roots, path),
            _ => false,
        },
        PermView::NetConnect(host) => match c {
            CapView::Network { hosts, outbound, inbound } => outbound && some_host_matches(
                hosts,
                host,
            ),
            _ => false,
        },
        PermView::Subprocess(exe) => match c {
            CapView::Subprocess { exes } => some_name_matches(exes, exe, true),
            _ => false,
        },
        PermView::EnvRead(key) => match c {
            CapView::EnvRead { keys } => keys.len() == 0 || some_name_matches(keys, key, false),
            _ => false,
        },
        PermView::AgentSpawn => c == CapView::AgentSpawn,
    }
}

/// The permission check: granted when the set holds `Unrestricted`, or some
/// capability in it allows the request.
pub open spec fn spec_check(caps: Set<CapView>, p: PermView) -> bool {
    caps.contains(CapView::Unrestricted) || exists|c: CapView| #[trigger]
        caps.contains(c) && cap_allows(c, p)
}

/// Glob-style host matching (see [`spec_host_matches`]).
fn host_matches(pattern: &String, host: &String) -> (r: bool)
    ensures
        r == spec_host_matches(pattern@, host@),
{
    let p = chars_of(pattern.as_str());
    let h = chars_of(host.as_str());
    if p.len() == 1 && p[0] == '*' {
        assert(p@ =~= seq!['*']);
        return true;
    }
    assert(p@ != seq!['*']);
    if p.len() >= 2 && p[0] == '*' && p[1] == '.' {
        let slen = p.len() - 2;
        assert(p@.skip(2) =~= p@.subrange(2, 2 + slen));
        if h.len() > slen {
            let start = h.len() - slen - 1;
            let dot = h[start] == '.';
            let rest = range_eq(&h, start + 1, &p, 2, slen);
            proof {
                let tail = h@.skip(start as int);
                assert(tail.drop_first() =~= h@.subrange(start + 1, start + 1 + slen));
                if dot && rest {
                    assert(tail =~= seq!['.'] + p@.skip(2));
                }
                if tail == seq!['.'] + p@.skip(2) {
                    assert(tail[0] == '.');
                    assert(tail.drop_first() =~= p@.skip(2));
                }
            }
            if dot && rest {
                return true;
            }
        }
        return false;
    }
    *pattern == *host
}

/// Whether any of `roots` is a base of `path`.
fn any_root(roots: &Vec<String>, path: &String) -> (r: bool)
    ensures
        r == some_root_covers(roots.deep_view(), path@),
{
    let mut i: usize = 0;
    while i < roots.len()
        invariant
            i <= roots.len(),
            forall|j: int| 0 <= j < i ==> !spec_path_starts_with(path@, #[trigger] roots.deep_view()[j]),
        decreases roots.len() - i,
    {
        if path_starts_with(path.as_str(), roots[i].as_str()) {
            assert(spec_path_starts_with(path@, roots.deep_view()[i as int]));
            return true;
        }
        i = i + 1;
    }
    false
}

/// Whether any of `hosts` matches `host`.
fn any_host(hosts: &Vec<String>, host: &String) -> (r: bool)
    ensures
        r == some_host_matches(hosts.deep_view(), host@),
{
    let mut i: usize = 0;
    while i < hosts.len()
        invariant
            i <= hosts.len(),
            forall|j: int| 0 <= j < i ==> !spec_host_matches(#[trigger] hosts.deep_view()[j], host@),
        decreases hosts.len() - i,
    {
        if host_matches(&hosts[i], host) {
            assert(spec_host_matches(hosts.deep_view()[i as int], host@));
            return true;
        }
        i = i + 1;
    }
    false
}

/// Whether some entry of `names` equals `name`, or (when `star` is set) is `*`.
fn any_name(names: &Vec<String>, name: &String, star: bool) -> (r: bool)
    ensures
        r == some_name_matches(names.deep_view(), name@, star),
{
    let mut i: usize = 0;
    while i < names.len()
        invariant
            i <= names.len(),
            forall|j: int|
                0 <= j < i ==> !(#[trigger] names.deep_view()[j] == name@ || (star
                    && names.deep_view()[j] == seq!['*'])),
        decreases names.len() - i,
    {
        let is_star = star && {
            let c = chars_of(names[i].as_str());
            let r = c.len() == 1 && c[0] == '*';
            proof {
                if r {
                    assert(c@ =~= seq!['*']);
                }
            }
            r
        };
        if names[i] == *name || is_star {
            assert(names.deep_view()[i as int] == names@[i as int]@);
            return true;
        }
        i = i + 1;
    }
    false
}

impl Permission {
    /// Whether the single capability `c` satisfies this request (see [`cap_allows`]).
    fn allowed_by(&self, c: &Capability) -> (r: bool)
        ensures
            r == cap_allows(c@, self@),
    {
        match self {
            Permission::FsRead(path) => match c {
                Capability::Filesystem(fs) => {
                    let m = (fs.mode & FsMode::READ) == FsMode::READ;
                    m && any_root(&fs.allowed_roots, path)
                },
                _ => false,
            },
            Permission::FsWrite(path) => match c {
                Capability::Filesystem(fs) => {
                    let m = (fs.mode & FsMode::WRITE) == FsMode::WRITE;
                    m && any_root(&fs.allowed_roots, path)
                },
                _ => false,
            },
            Permission::NetConnect(host) => match c {
                Capability::Network(net) => net.allow_outbound && any_host(
                    &net.allowed_hosts,
                    host,
                ),
                _ => false,
            },
            Permission::Subprocess(exe) => match c {
                Capability::Subprocess(sub) => any_name(&sub.allowed_executables, exe, true),
                _ => false,
            },
            Permission::EnvRead(key) => match c {
                Capability::EnvRead(env) => env.allowed_keys.len() == 0 || any_name(
                    &env.allowed_keys,
                    key,
                    false,
                ),
                _ => false,
            },
            Permission::AgentSpawn => match c {
                Capability::AgentSpawn => true,
                _ => {
                    assert(!(c@ is AgentSpawn));
                    false
                },
            },
        }
    }
}

impl Capability {
    /// Whether two capabilities are equal, scope for scope.
    pub fn same_as(&self, other: &Capability) -> (r: bool)
        ensures
            r == (self@ == other@),
    {
        match (self, other) {
            (Capability::Filesystem(a), Capability::Filesystem(b)) => a.mode == b.mode && strings_eq(
                &a.allowed_roots,
                &b.allowed_roots,
            ),
            (Capability::Network(a), Capability::Network(b)) => a.allow_outbound == b.allow_outbound
                && a.allow_inbound == b.allow_inbound && strings_eq(
                &a.allowed_hosts,
                &b.allowed_hosts,
            ),
            (Capability::Subprocess(a), Capability::Subprocess(b)) => strings_eq(
                &a.allowed_executables,
                &b.allowed_executables,
            ),
            (Capability::EnvRead(a), Capability::EnvRead(b)) => strings_eq(
                &a.allowed_keys,
                &b.allowed_keys,
            ),
            (Capability::AgentSpawn, Capability::AgentSpawn) => true,
            (Capability::Unrestricted, Capability::Unrestricted) => true,
            _ => false,
        }
    }

    /// A copy of this capability.
    pub fn duplicate(&self) -> (r: Capability)
        ensures
            r@ == self@,
    {
        match self {
            Capability::Filesystem(fs) => Capability::Filesystem(
                FsCapability { allowed_roots: clone_strings(&fs.allowed_roots), mode: fs.mode },
            ),
            Capability::Network(net) => Capability::Network(
                NetCapability {
                    allowed_hosts: clone_strings(&net.allowed_hosts),
                    allow_outbound: net.allow_outbound,
                    allow_inbound: net.allow_inbound,
                },
            ),
            Capability::Subprocess(sub) => Capability::Subprocess(
                SubprocessCapability {
                    allowed_executables: clone_strings(&sub.allowed_executables),
                },
            ),
            Capability::EnvRead(env) => Capability::EnvRead(
                EnvCapability { allowed_keys: clone_strings(&env.allowed_keys) },
            ),
            Capability::AgentSpawn => Capability::AgentSpawn,
            Capability::Unrestricted => Capability::Unrestricted,
        }
    }
}

/// The full set of capabilities granted to an execution context.
///
/// Holds each capability once, and a revocation generation that grows by one
/// on every revocation.
#[derive(Debug)]
pub struct CapabilitySet {
    caps: Vec<Capability>,
    generation: u64,
}

/// The mathematical value of a capability set.
pub struct CapabilitySetView {
    pub caps: Set<CapView>,
    pub generation: u64,
}

impl View for CapabilitySet {
    type V = CapabilitySetView;

    closed spec fn view(&self) -> CapabilitySetView {
        CapabilitySetView {
            caps: Set::new(|c: CapView| exists|i: int| 0 <= i < self.caps@.len() && self.caps@[i]@ == c),
            generation: self.generation,
        }
    }
}

impl CapabilitySet {
    #[verifier::type_invariant]
    closed spec fn no_duplicates(&self) -> bool {
        forall|i: int, j: int|
            0 <= i < j < self.caps@.len() ==> #[trigger] self.caps@[i]@ != #[trigger] self.caps@[j]@
    }

    /// An empty set: every permission is denied.
    pub fn new() -> (s: Self)
        ensures
            s@.caps == Set::<CapView>::empty(),
            s@.generation == 0,
    {
        let s = CapabilitySet { caps: Vec::new(), generation: 0 };
        assert(s@.caps =~= Set::<CapView>::empty());
        s
    }

    /// A set holding only `Unrestricted`: every permission is granted.
    pub fn unrestricted() -> (s: Self)
        ensures
            s@.caps == Set::<CapView>::empty().insert(CapView::Unrestricted),
            s@.generation == 0,
    {
        let mut v: Vec<Capability> = Vec::new();
        v.push(Capability::Unrestricted);
        let s = CapabilitySet { caps: v, generation: 0 };
        assert(s.caps@[0]@ == CapView::Unrestricted);
        assert(s@.caps =~= Set::<CapView>::empty().insert(CapView::Unrestricted));
        s
    }

    /// The index of a capability equal to `cap`, if the set holds one.
    fn position(&self, cap: &Capability) -> (r: Option<usize>)
        ensures
            match r {
                Some(i) => i < self.caps@.len() && self.caps@[i as int]@ == cap@,
                None => forall|i: int| 0 <= i < self.caps@.len() ==> self.caps@[i]@ != cap@,
            },
    {
        let mut i: usize = 0;
        while i < self.caps.len()
            invariant
                i <= self.caps@.len(),
                forall|j: int| 0 <= j < i ==> self.caps@[j]@ != cap@,
            decreases self.caps.len() - i,
        {
            if self.caps[i].same_as(cap) {
                return Some(i);
            }
            i = i + 1;
        }
        None
    }

    /// Adds `cap` to the set (a set holds each capability once).
    pub fn grant(&mut self, cap: Capability)
        ensures
            final(self)@.caps == old(self)@.caps.insert(cap@),
            final(self)@.generation == old(self)@.generation,
            final(self)@ == apply_op(old(self)@, CapOp::Grant(cap@)),
    {
        proof {
            use_type_invariant(&*self);
        }
        let ghost before = self@.caps;
        if self.position(&cap).is_none() {
            let ghost cv = cap@;
            let ghost old_caps = self.caps@;
            let mut v: Vec<Capability> = Vec::new();
            std::mem::swap(&mut v, &mut self.caps);
            v.push(cap);
            proof {
                assert forall|i: int, j: int| 0 <= i < j < v@.len() implies #[trigger] v@[i]@ != #[trigger] v@[j]@ by {
                    if j == old_caps.len() {
                        assert(v@[i] == old_caps[i]);
                    } else {
                        assert(v@[i] == old_caps[i]);
                        assert(v@[j] == old_caps[j]);
                    }
                }
            }
            self.caps = v;
            assert(self.caps@[old_caps.len() as int]@ == cv);
            assert forall|c: CapView| #[trigger] self@.caps.contains(c) == before.insert(cv).contains(c) by {
                if before.insert(cv).contains(c) && c != cv {
                    let i = choose|i: int| 0 <= i < old_caps.len() && old_caps[i]@ == c;
                    assert(self.caps@[i] == old_caps[i]);
                }
                if self@.caps.contains(c) {
                    let i = choose|i: int| 0 <= i < self.caps@.len() && self.caps@[i]@ == c;
                    if i < old_caps.len() {
                        assert(self.caps@[i] == old_caps[i]);
                    }
                }
            }
            assert(self@.caps =~= before.insert(cv));
        } else {
            assert(before.contains(cap@));
            assert(before.insert(cap@) =~= before);
        }
    }

    /// Removes the capability equal to `cap`. Returns whether one was held;
    /// the generation grows by one exactly when one was removed.
    pub fn revoke(&mut self, cap: &Capability) -> (removed: bool)
        requires
            old(self)@.caps.contains(cap@) ==> old(self)@.generation < u64::MAX,
        ensures
            removed == old(self)@.caps.contains(cap@),
            final(self)@.caps == old(self)@.caps.remove(cap@),
            final(self)@.generation == if removed {
                old(self)@.generation + 1
            } else {
                old(self)@.generation as int
            },
            final(self)@ == apply_op(old(self)@, CapOp::Revoke(cap@)),
    {
        proof {
            use_type_invariant(&*self);
        }
        let ghost before = self@.caps;
        match self.position(cap) {
            None => {
                assert(!before.contains(cap@));
                assert(before.remove(cap@) =~= before);
                false
            },
            Some(k) => {
                let ghost old_caps = self.caps@;
                assert(before.contains(cap@));
                let mut v: Vec<Capability> = Vec::new();
                std::mem::swap(&mut v, &mut self.caps);
                v.remove(k);
                proof {
                    assert forall|i: int, j: int| 0 <= i < j < v@.len() implies #[trigger] v@[i]@ != #[trigger] v@[j]@ by {
                        let oi = if i < k { i } else { i + 1 };
                        let oj = if j < k { j } else { j + 1 };
                        assert(v@[i] == old_caps[oi]);
                        assert(v@[j] == old_caps[oj]);
                    }
                }
                self.caps = v;
                self.generation = self.generation + 1;
                assert forall|c: CapView| #[trigger] self@.caps.contains(c) == before.remove(cap@).contains(c) by {
                    if self@.caps.contains(c) {
                        let i = choose|i: int| 0 <= i < self.caps@.len() && self.caps@[i]@ == c;
                        if i < k {
                            assert(self.caps@[i] == old_caps[i]);
                            assert(old_caps[i]@ != old_caps[k as int]@);
                        } else {
                            assert(self.caps@[i] == old_caps[i + 1]);
                            assert(old_caps[k as int]@ != old_caps[i + 1]@);
                        }
                    }
                    if before.remove(cap@).contains(c) {
                        let i = choose|i: int| 0 <= i < old_caps.len() && old_caps[i]@ == c;
                        assert(i != k);
                        if i < k {
                            assert(self.caps@[i] == old_caps[i]);
                        } else {
                            assert(self.caps@[i - 1] == old_caps[i]);
                        }
                    }
                }
                assert(self@.caps =~= before.remove(cap@));
                true
            },
        }
    }

    /// Removes every capability; the generation grows by one.
    pub fn revoke_all(&mut self)
        requires
            old(self)@.generation < u64::MAX,
        ensures
            final(self)@.caps == Set::<CapView>::empty(),
            final(self)@.generation == old(self)@.generation + 1,
            final(self)@ == apply_op(old(self)@, CapOp::RevokeAll),
    {
        self.caps = Vec::new();
        self.generation = self.generation + 1;
        assert(self@.caps =~= Set::<CapView>::empty());
    }

    /// Whether `permission` is granted by some capability of the set.
    pub fn check(&self, permission: &Permission) -> (r: bool)
        ensures
            r == spec_check(self@.caps, permission@),
    {
        let mut i: usize = 0;
        while i < self.caps.len()
            invariant
                i <= self.caps@.len(),
                forall|j: int|
                    0 <= j < i ==> !(self.caps@[j]@ == CapView::Unrestricted),
            decreases self.caps.len() - i,
        {
            if let Capability::Unrestricted = self.caps[i] {
                assert(self@.caps.contains(self.caps@[i as int]@));
                return true;
            }
            i = i + 1;
        }
        assert(!self@.caps.contains(CapView::Unrestricted));
        let mut i: usize = 0;
        while i < self.caps.len()
            invariant
                i <= self.caps@.len(),
                !self@.caps.contains(CapView::Unrestricted),
                forall|j: int| 0 <= j < i ==> !cap_allows(#[trigger] self.caps@[j]@, permission@),
            decreases self.caps.len() - i,
        {
            if permission.allowed_by(&self.caps[i]) {
                assert(self@.caps.contains(self.caps@[i as int]@));
                return true;
            }
            i = i + 1;
        }
        assert forall|c: CapView| #[trigger] self@.caps.contains(c) implies !cap_allows(c, permission@) by {
            let j = choose|j: int| 0 <= j < self.caps@.len() && self.caps@[j]@ == c;
            assert(!cap_allows(self.caps@[j]@, permission@));
        }
        false
    }

    /// Whether the set holds a capability equal to `cap`.
    pub(crate) fn contains(&self, cap: &Capability) -> (r: bool)
        ensures
            r == self@.caps.contains(cap@),
    {
        match self.position(cap) {
            Some(i) => {
                assert(self@.caps.contains(self.caps@[i as int]@));
                true
            },
            None => false,
        }
    }

    /// The capabilities of the set, each once, as a slice.
    pub(crate) fn as_slice(&self) -> (r: &[Capability])
        ensures
            r@.map_values(|c: Capability| c@).to_set() == self@.caps,
    {
        let r = self.caps.as_slice();
        proof {
            let s = r@.map_values(|c: Capability| c@);
            assert forall|c: CapView| #[trigger] s.to_set().contains(c) == self@.caps.contains(c) by {
                if self@.caps.contains(c) {
                    let i = choose|i: int| 0 <= i < self.caps@.len() && self.caps@[i]@ == c;
                    assert(s[i] == c);
                }
            }
            assert(s.to_set() =~= self@.caps);
        }
        r
    }

    /// A copy of the set, with its generation.
    pub fn duplicate(&self) -> (r: CapabilitySet)
        ensures
            r@ == self@,
    {
        proof {
            use_type_invariant(self);
        }
        let mut v: Vec<Capability> = Vec::new();
        let mut i: usize = 0;
        while i < self.caps.len()
            invariant
                i <= self.caps@.len(),
                v@.len() == i,
                forall|j: int| 0 <= j < i ==> v@[j]@ == self.caps@[j]@,
                forall|a: int, b: int|
                    0 <= a < b < self.caps@.len() ==> #[trigger] self.caps@[a]@ != #[trigger] self.caps@[b]@,
            decreases self.caps.len() - i,
        {
            v.push(self.caps[i].duplicate());
            i = i + 1;
        }
        let r = CapabilitySet { caps: v, generation: self.generation };
        assert forall|c: CapView| #[trigger] r@.caps.contains(c) == self@.caps.contains(c) by {
            if r@.caps.contains(c) {
                let j = choose|j: int| 0 <= j < r.caps@.len() && r.caps@[j]@ == c;
                assert(self.caps@[j]@ == c);
            }
            if self@.caps.contains(c) {
                let j = choose|j: int| 0 <= j < self.caps@.len() && self.caps@[j]@ == c;
                assert(r.caps@[j]@ == c);
            }
        }
        assert(r@.caps =~= self@.caps);
        r
    }

    /// The revocation generation.
    pub fn generation(&self) -> (g: u64)
        ensures
            g == self@.generation,
    {
        self.generation
    }

    /// The capabilities of the set, each once: one item per capability held.
    pub fn iter(&self) -> (r: std::slice::Iter<'_, Capability>)
        ensures
            vstd::std_specs::slice::into_iter_elts(r).map_values(|c: Capability| c@).to_set()
                == self@.caps,
            vstd::std_specs::slice::into_iter_elts(r).map_values(|c: Capability| c@).no_duplicates(),
            self@.caps.finite(),
            vstd::std_specs::slice::into_iter_elts(r).len() == self@.caps.len(),
    {
        proof {
            use_type_invariant(self);
        }
        let r = self.caps.iter();
        proof {
            let s = vstd::std_specs::slice::into_iter_elts(r).map_values(|c: Capability| c@);
            assert(vstd::std_specs::slice::into_iter_elts(r) =~= self.caps@);
            assert forall|c: CapView| #[trigger] s.to_set().contains(c) == self@.caps.contains(c) by {
                if self@.caps.contains(c) {
                    let i = choose|i: int| 0 <= i < self.caps@.len() && self.caps@[i]@ == c;
                    assert(s[i] == c);
                }
            }
            assert(s.to_set() =~= self@.caps);
            assert(s.no_duplicates()) by {
                assert forall|i: int, j: int| 0 <= i < s.len() && 0 <= j < s.len() && i != j implies s[i]
                    != s[j] by {
                    if i < j {
                        assert(self.caps@[i]@ != self.caps@[j]@);
                    } else {
                        assert(self.caps@[j]@ != self.caps@[i]@);
                    }
                }
            }
            s.unique_seq_to_set();
            vstd::seq_lib::seq_to_set_is_finite(s);
            assert(s.no_duplicates()) by {
                assert forall|i: int, j: int| 0 <= i < s.len() && 0 <= j < s.len() && i != j implies s[i]
                    != s[j] by {
                    if i < j {
                        assert(self.caps@[i]@ != self.caps@[j]@);
                    } else {
                        assert(self.caps@[j]@ != self.caps@[i]@);
                    }
                }
            }
            s.unique_seq_to_set();
            vstd::seq_lib::seq_to_set_is_finite(s);
        }
        r
    }
}

/// The empty set denies every permission.
pub proof fn law_empty_denies_all(p: PermView)
    ensures
        !spec_check(Set::<CapView>::empty(), p),
{
}

/// A set holding `Unrestricted` grants every permission.
pub proof fn law_unrestricted_grants_all(caps: Set<CapView>, p: PermView)
    requires
        caps.contains(CapView::Unrestricted),
    ensures
        spec_check(caps, p),
{
}

/// More capabilities never deny more: a permission granted by a set is
/// granted by every set that holds it.
pub proof fn law_check_monotone(small: Set<CapView>, large: Set<CapView>, p: PermView)
    requires
        small.subset_of(large),
        spec_check(small, p),
    ensures
        spec_check(large, p),
{
    if !small.contains(CapView::Unrestricted) {
        let c = choose|c: CapView| #[trigger] small.contains(c) && cap_allows(c, p);
        assert(large.contains(c));
    }
}

/// Granting keeps every permission, and makes the granted capability's own
/// permissions hold.
pub proof fn law_grant_keeps_permissions(caps: Set<CapView>, c: CapView, p: PermView)
    ensures
        spec_check(caps, p) ==> spec_check(caps.insert(c), p),
        cap_allows(c, p) ==> spec_check(caps.insert(c), p),
{
    if spec_check(caps, p) {
        law_check_monotone(caps, caps.insert(c), p);
    }
    if cap_allows(c, p) {
        assert(caps.insert(c).contains(c));
    }
}

/// Revoking never grants: whatever the set after a revocation grants, the
/// set before it granted.
pub proof fn law_revoke_never_adds(caps: Set<CapView>, c: CapView, p: PermView)
    requires
        spec_check(caps.remove(c), p),
    ensures
        spec_check(caps, p),
{
    law_check_monotone(caps.remove(c), caps, p);
}

/// An operation on a capability set, as its effect on the set's value.
pub enum CapOp {
    Grant(CapView),
    Revoke(CapView),
    RevokeAll,
    Check(PermView),
}

/// The set after `op`, as `grant`, `revoke`, `revoke_all` and `check` leave
/// it: a revocation that removes a capability, and every `revoke_all`,
/// counts one more generation.
pub open spec fn apply_op(s: CapabilitySetView, op: CapOp) -> CapabilitySetView {
    match op {
        CapOp::Grant(c) => CapabilitySetView { caps: s.caps.insert(c), generation: s.generation },
        CapOp::Revoke(c) => CapabilitySetView {
            caps: s.caps.remove(c),
            generation: if s.caps.contains(c) {
                (s.generation + 1) as u64
            } else {
                s.generation
            },
        },
        CapOp::RevokeAll => CapabilitySetView {
            caps: Set::empty(),
            generation: (s.generation + 1) as u64,
        },
        CapOp::Check(_) => s,
    }
}

/// The set after `ops`, in order.
pub open spec fn apply_ops(s: CapabilitySetView, ops: Seq<CapOp>) -> CapabilitySetView
    decreases ops.len(),
{
    if ops.len() == 0 {
        s
    } else {
        apply_op(apply_ops(s, ops.drop_last()), ops.last())
    }
}

/// How many of `ops` revoke: each `revoke_all`, and each `revoke` of a
/// capability held at that point.
pub open spec fn revocations(s: CapabilitySetView, ops: Seq<CapOp>) -> nat
    decreases ops.len(),
{
    if ops.len() == 0 {
        0
    } else {
        let before = apply_ops(s, ops.drop_last());
        revocations(s, ops.drop_last()) + match ops.last() {
            CapOp::Revoke(c) => if before.caps.contains(c) {
                1nat
            } else {
                0nat
            },
            CapOp::RevokeAll => 1nat,
            _ => 0nat,
        }
    }
}

/// The generation counts revocations: after any run of grants, revocations
/// and checks, it has grown by exactly the number of revocations that
/// removed something plus the number of `revoke_all` calls, so it never
/// decreases and grants and checks never change it.
pub proof fn law_generation_counts_revocations(s: CapabilitySetView, ops: Seq<CapOp>)
    requires
        s.generation + ops.len() <= u64::MAX,
    ensures
        apply_ops(s, ops).generation == s.generation + revocations(s, ops),
        apply_ops(s, ops).generation >= s.generation,
    decreases ops.len(),
{
    if ops.len() > 0 {
        law_generation_counts_revocations(s, ops.drop_last());
        assert(revocations(s, ops.drop_last()) <= ops.drop_last().len()) by {
            lemma_revocations_bound(s, ops.drop_last());
        }
    }
}

proof fn lemma_revocations_bound(s: CapabilitySetView, ops: Seq<CapOp>)
    ensures
        revocations(s, ops) <= ops.len(),
    decreases ops.len(),
{
    if ops.len() > 0 {
        lemma_revocations_bound(s, ops.drop_last());
    }
}

/// The text `Debug` writes for the path `p` (`{:?}` of `Path::new(p)`): the
/// path in double quotes, with the characters `char::escape_debug` escapes
/// escaped.
pub uninterp spec fn spec_path_debug(p: Seq<char>) -> Seq<char>;

/// The text `Debug` writes for the string `s` (`{:?}` of a `str`): the
/// string in double quotes, with quotes, backslashes, control and other
/// unprintable characters escaped.
pub uninterp spec fn spec_str_debug(s: Seq<char>) -> Seq<char>;

/// `Debug` of `std::path::Path`: the text it writes for the path `p`. It
/// escapes by Unicode tables of std, so its result is named by
/// [`spec_path_debug`].
#[verifier::external_body]
fn path_debug(p: &str) -> (r: String)
    ensures
        r@ == spec_path_debug(p@),
{
    format!("{:?}", std::path::Path::new(p))
}

/// `Debug` of `str`: the text it writes for `s`. It escapes by Unicode
/// tables of std, so its result is named by [`spec_str_debug`].
#[verifier::external_body]
fn str_debug(s: &str) -> (r: String)
    ensures
        r@ == spec_str_debug(s@),
{
    format!("{s:?}")
}

/// The description of a permission request, as `Debug` writes it: its kind
/// and its argument's debug text, as in `FsRead("/tmp/x")`.
pub open spec fn describe_perm(p: PermView) -> Seq<char> {
    match p {
        PermView::FsRead(x) => "FsRead("@ + spec_path_debug(x) + ")"@,
        PermView::FsWrite(x) => "FsWrite("@ + spec_path_debug(x) + ")"@,
        PermView::NetConnect(x) => "NetConnect("@ + spec_str_debug(x) + ")"@,
        PermView::Subprocess(x) => "Subprocess("@ + spec_str_debug(x) + ")"@,
        PermView::EnvRead(x) => "EnvRead("@ + spec_str_debug(x) + ")"@,
        PermView::AgentSpawn => "AgentSpawn"@,
    }
}

impl Permission {
    /// The description of this request (see [`describe_perm`]).
    pub fn describe(&self) -> (s: String)
        ensures
            s@ == describe_perm(self@),
    {
        let mut s = String::new();
        match self {
            Permission::FsRead(x) => {
                push_text(&mut s, "FsRead(");
                let d = path_debug(x.as_str());
                push_text(&mut s, d.as_str());
                push_text(&mut s, ")");
            },
            Permission::FsWrite(x) => {
                push_text(&mut s, "FsWrite(");
                let d = path_debug(x.as_str());
                push_text(&mut s, d.as_str());
                push_text(&mut s, ")");
            },
            Permission::NetConnect(x) => {
                push_text(&mut s, "NetConnect(");
                let d = str_debug(x.as_str());
                push_text(&mut s, d.as_str());
                push_text(&mut s, ")");
            },
            Permission::Subprocess(x) => {
                push_text(&mut s, "Subprocess(");
                let d = str_debug(x.as_str());
                push_text(&mut s, d.as_str());
                push_text(&mut s, ")");
            },
            Permission::EnvRead(x) => {
                push_text(&mut s, "EnvRead(");
                let d = str_debug(x.as_str());
                push_text(&mut s, d.as_str());
                push_text(&mut s, ")");
            },
            Permission::AgentSpawn => {
                push_text(&mut s, "AgentSpawn");
            },
        }
        s
    }
}

/// An environment capability with a non-empty key list grants exactly the
/// keys on the list; one with an empty list grants every key. Held alone in
/// a set, it decides every environment read the same way.
pub proof fn law_env_keys_restrict(keys: Seq<Seq<char>>, k: Seq<char>)
    ensures
        cap_allows(CapView::EnvRead { keys }, PermView::EnvRead(k)) <==> (keys.len() == 0 || keys.contains(k)),
        spec_check(Set::empty().insert(CapView::EnvRead { keys }), PermView::EnvRead(k)) <==> (keys.len()
            == 0 || keys.contains(k)),
{
    let c = CapView::EnvRead { keys };
    if keys.contains(k) {
        let i = choose|i: int| 0 <= i < keys.len() && keys[i] == k;
        assert(keys[i] == k);
    }
    if some_name_matches(keys, k, false) {
        let i = choose|i: int| 0 <= i < keys.len() && (#[trigger] keys[i] == k || (false && keys[i] == seq!['*']));
        assert(keys[i] == k);
    }
    let s = Set::<CapView>::empty().insert(c);
    assert(!s.contains(CapView::Unrestricted));
    if spec_check(s, PermView::EnvRead(k)) {
        let d = choose|d: CapView| #[trigger] s.contains(d) && cap_allows(d, PermView::EnvRead(k));
        assert(d == c);
    }
    if cap_allows(c, PermView::EnvRead(k)) {
        assert(s.contains(c));
    }
}

/// A subprocess capability grants exactly the listed executables, and every
/// executable when it lists `*`; a network capability without outbound
/// connections grants no connection.
pub proof fn law_subprocess_and_outbound(exes: Seq<Seq<char>>, e: Seq<char>, hosts: Seq<Seq<char>>, inbound: bool, h: Seq<char>)
    ensures
        cap_allows(CapView::Subprocess { exes }, PermView::Subprocess(e)) <==> (exes.contains(e) || exes.contains(
            seq!['*'],
        )),
        !cap_allows(CapView::Network { hosts, outbound: false, inbound }, PermView::NetConnect(h)),
{
    if exes.contains(e) {
        let i = choose|i: int| 0 <= i < exes.len() && exes[i] == e;
        assert(exes[i] == e);
    }
    if exes.contains(seq!['*']) {
        let i = choose|i: int| 0 <= i < exes.len() && exes[i] == seq!['*'];
        assert(exes[i] == seq!['*']);
    }
    if some_name_matches(exes, e, true) {
        let i = choose|i: int| 0 <= i < exes.len() && (#[trigger] exes[i] == e || (true && exes[i] == seq!['*']));
        assert(exes[i] == e || exes[i] == seq!['*']);
    }
}

} // verus!

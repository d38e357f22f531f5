//! The permissions of an agent at run time: every check is audited, and a
//! child context never holds more than its parent lets it.
use vstd::prelude::*;

use crate::capabilities::{
    describe_perm, spec_check, CapView, Capability, CapabilitySet, CapabilitySetView, PermView,
    Permission,
};
use crate::clock::wall_clock_micros;
use crate::error::BuaError;

verus! {

/// The record of one permission check.
#[derive(Debug)]
pub struct AuditEntry {
    pub permission: String,
    pub granted: bool,
    pub timestamp_us: u64,
}

/// The mathematical value of an audit entry (its time left out).
pub struct AuditView {
    pub permission: Seq<char>,
    pub granted: bool,
}

impl View for AuditEntry {
    type V = AuditView;

    open spec fn view(&self) -> AuditView {
        AuditView { permission: self.permission@, granted: self.granted }
    }
}

/// The capability context of an agent.
#[derive(Debug)]
pub struct CapabilityContext {
    caps: CapabilitySet,
    audit_log: Vec<AuditEntry>,
    audit_enabled: bool,
}

/// The mathematical value of a capability context.
pub struct ContextView {
    pub caps: CapabilitySetView,
    pub audit: Seq<AuditView>,
    pub audit_enabled: bool,
}

impl View for CapabilityContext {
    type V = ContextView;

    closed spec fn view(&self) -> ContextView {
        ContextView {
            caps: self.caps@,
            audit: self.audit_log@.map_values(|e: AuditEntry| e@),
            audit_enabled: self.audit_enabled,
        }
    }
}

/// The capabilities a child asking for `child` gets from `parent`: those it
/// asks for that the parent holds too; all it asks for when the parent is
/// unrestricted.
pub open spec fn derived_caps(parent: Set<CapView>, child: Set<CapView>) -> Set<CapView> {
    child.filter(|c: CapView| parent.contains(c) || parent.contains(CapView::Unrestricted))
}

/// The second half of a denial message of a context.
pub open spec fn context_denial() -> Seq<char> {
    "no matching capability in agent context"@
}

impl CapabilityContext {
    /// A context over `caps`, with auditing on and an empty audit log.
    pub fn new(caps: CapabilitySet) -> (c: Self)
        ensures
            c@.caps == caps@,
            c@.audit.len() == 0,
            c@.audit_enabled,
    {
        let c = CapabilityContext { caps, audit_log: Vec::new(), audit_enabled: true };
        assert(c@.audit =~= Seq::<AuditView>::empty());
        c
    }

    /// A context that denies everything.
    pub fn deny_all() -> (c: Self)
        ensures
            c@.caps.caps == Set::<CapView>::empty(),
            c@.caps.generation == 0,
            c@.audit.len() == 0,
            c@.audit_enabled,
    {
        Self::new(CapabilitySet::new())
    }

    /// A context that allows everything.
    pub fn unrestricted() -> (c: Self)
        ensures
            c@.caps.caps == Set::<CapView>::empty().insert(CapView::Unrestricted),
            c@.caps.generation == 0,
            c@.audit.len() == 0,
            c@.audit_enabled,
    {
        Self::new(CapabilitySet::unrestricted())
    }

    /// Checks `perm`: `Ok` when granted, else a permission error naming the
    /// request. The check is appended to the audit log when auditing is on.
    pub fn require(&mut self, perm: &Permission) -> (r: Result<(), BuaError>)
        ensures
            final(self)@.caps == old(self)@.caps,
            final(self)@.audit_enabled == old(self)@.audit_enabled,
            final(self)@.audit == if old(self)@.audit_enabled {
                old(self)@.audit.push(
                    AuditView {
                        permission: describe_perm(perm@),
                        granted: spec_check(old(self)@.caps.caps, perm@),
                    },
                )
            } else {
                old(self)@.audit
            },
            r is Ok <==> spec_check(old(self)@.caps.caps, perm@),
            r matches Err(e) ==> (e matches BuaError::PermissionDenied { operation, capability }
                && operation@ == describe_perm(perm@) && capability@ == context_denial()),
    {
        let granted = self.caps.check(perm);
        if self.audit_enabled {
            let ghost before = self@.audit;
            self.audit_log.push(
                AuditEntry {
                    permission: perm.describe(),
                    granted,
                    timestamp_us: wall_clock_micros(),
                },
            );
            assert(self@.audit =~= before.push(
                AuditView { permission: describe_perm(perm@), granted },
            ));
        }
        if granted {
            Ok(())
        } else {
            Err(
                BuaError::permission_denied(
                    perm.describe(),
                    "no matching capability in agent context".to_owned(),
                ),
            )
        }
    }

    /// Whether `perm` is granted (not audited).
    pub fn check(&self, perm: &Permission) -> (r: bool)
        ensures
            r == spec_check(self@.caps.caps, perm@),
    {
        self.caps.check(perm)
    }

    /// Grants one more capability.
    pub fn grant(&mut self, cap: Capability)
        ensures
            final(self)@.caps.caps == old(self)@.caps.caps.insert(cap@),
            final(self)@.caps.generation == old(self)@.caps.generation,
            final(self)@.audit == old(self)@.audit,
            final(self)@.audit_enabled == old(self)@.audit_enabled,
    {
        self.caps.grant(cap);
    }

    /// Revokes a capability mid-execution.
    pub fn revoke(&mut self, cap: &Capability)
        requires
            old(self)@.caps.caps.contains(cap@) ==> old(self)@.caps.generation < u64::MAX,
        ensures
            final(self)@.caps.caps == old(self)@.caps.caps.remove(cap@),
            final(self)@.caps.generation == if old(self)@.caps.caps.contains(cap@) {
                old(self)@.caps.generation + 1
            } else {
                old(self)@.caps.generation as int
            },
            final(self)@.audit == old(self)@.audit,
            final(self)@.audit_enabled == old(self)@.audit_enabled,
    {
        self.caps.revoke(cap);
    }

    /// Revokes every capability.
    pub fn revoke_all(&mut self)
        requires
            old(self)@.caps.generation < u64::MAX,
        ensures
            final(self)@.caps.caps == Set::<CapView>::empty(),
            final(self)@.caps.generation == old(self)@.caps.generation + 1,
            final(self)@.audit == old(self)@.audit,
            final(self)@.audit_enabled == old(self)@.audit_enabled,
    {
        self.caps.revoke_all();
    }

    /// The revocation generation.
    pub fn generation(&self) -> (g: u64)
        ensures
            g == self@.caps.generation,
    {
        self.caps.generation()
    }

    /// A copy of the current capability set.
    pub fn snapshot(&self) -> (s: CapabilitySet)
        ensures
            s@ == self@.caps,
    {
        self.caps.duplicate()
    }

    /// A copy of the audit log.
    pub fn audit_log(&self) -> (log: Vec<AuditEntry>)
        ensures
            log@.map_values(|e: AuditEntry| e@) == self@.audit,
    {
        let mut out: Vec<AuditEntry> = Vec::new();
        let mut i: usize = 0;
        while i < self.audit_log.len()
            invariant
                i <= self.audit_log@.len(),
                out@.len() == i,
                forall|j: int| 0 <= j < i ==> out@[j]@ == self.audit_log@[j]@,
            decreases self.audit_log.len() - i,
        {
            let e = &self.audit_log[i];
            out.push(
                AuditEntry {
                    permission: e.permission.clone(),
                    granted: e.granted,
                    timestamp_us: e.timestamp_us,
                },
            );
            i = i + 1;
        }
        assert(out@.map_values(|e: AuditEntry| e@) =~= self@.audit);
        out
    }

    /// A restricted child context (see [`derived_caps`]): a capability the
    /// child asks for is kept when the parent holds it too, or when the
    /// parent is unrestricted; the rest are dropped.
    pub fn derive_child(&self, child_caps: CapabilitySet) -> (c: Self)
        ensures
            c@.caps.caps == derived_caps(self@.caps.caps, child_caps@.caps),
            c@.caps.generation == 0,
            c@.audit.len() == 0,
            c@.audit_enabled,
    {
        let ghost parent = self@.caps.caps;
        let all_ok = self.caps.contains(&Capability::Unrestricted);
        let src = child_caps.as_slice();
        let ghost sv = src@.map_values(|x: Capability| x@);
        let mut restricted = CapabilitySet::new();
        let mut i: usize = 0;
        while i < src.len()
            invariant
                i <= src@.len(),
                sv == src@.map_values(|x: Capability| x@),
                all_ok == parent.contains(CapView::Unrestricted),
                parent == self@.caps.caps,
                restricted@.generation == 0,
                restricted@.caps == Set::new(
                    |c: CapView|
                        exists|j: int|
                            0 <= j < i && sv[j] == c && (parent.contains(c) || all_ok),
                ),
            decreases src.len() - i,
        {
            if all_ok || self.caps.contains(&src[i]) {
                restricted.grant(src[i].duplicate());
                assert(sv[i as int] == src@[i as int]@);
                assert forall|c: CapView| #[trigger] restricted@.caps.contains(c) == (exists|j: int|
                    0 <= j < i + 1 && sv[j] == c && (parent.contains(c) || all_ok)) by {
                    if c == sv[i as int] {
                        assert(sv[i as int] == c && (parent.contains(c) || all_ok));
                    }
                }
            } else {
                assert(sv[i as int] == src@[i as int]@);
                assert forall|c: CapView| #[trigger] restricted@.caps.contains(c) == (exists|j: int|
                    0 <= j < i + 1 && sv[j] == c && (parent.contains(c) || all_ok)) by {
                    if exists|j: int| 0 <= j < i + 1 && sv[j] == c && (parent.contains(c) || all_ok) {
                        let j = choose|j: int| 0 <= j < i + 1 && sv[j] == c && (parent.contains(c) || all_ok);
                        if j == i {
                            assert(false);
                        }
                    }
                }
            }
            assert(restricted@.caps =~= Set::new(
                |c: CapView|
                    exists|j: int|
                        0 <= j < i + 1 && sv[j] == c && (parent.contains(c) || all_ok),
            ));
            i = i + 1;
        }
        proof {
            assert forall|c: CapView| #[trigger] restricted@.caps.contains(c) == derived_caps(parent, child_caps@.caps).contains(c) by {
                assert(sv.to_set().contains(c) == child_caps@.caps.contains(c));
                if child_caps@.caps.contains(c) {
                    assert(sv.contains(c));
                    let j = choose|j: int| 0 <= j < sv.len() && sv[j] == c;
                    assert(sv[j] == c);
                }
            }
            assert(restricted@.caps =~= derived_caps(parent, child_caps@.caps));
        }
        Self::new(restricted)
    }
}

/// Delegation never escalates: every permission a derived child is granted,
/// its parent is granted too.
pub proof fn law_derive_child_never_exceeds(parent: Set<CapView>, child: Set<CapView>, p: PermView)
    requires
        spec_check(derived_caps(parent, child), p),
    ensures
        spec_check(parent, p),
{
    let d = derived_caps(parent, child);
    if !parent.contains(CapView::Unrestricted) {
        assert(d.subset_of(parent));
        crate::capabilities::law_check_monotone(d, parent, p);
    }
}

/// A permission guard: a capability set with check-or-deny semantics.
#[derive(Debug)]
pub struct PermissionGuard {
    caps: CapabilitySet,
    audit_enabled: bool,
}

/// The second half of a denial message of a guard.
pub open spec fn guard_denial() -> Seq<char> {
    "no matching capability"@
}

impl PermissionGuard {
    /// A guard over `caps`.
    pub fn new(caps: CapabilitySet) -> (g: Self)
        ensures
            g.caps_view() == caps@,
    {
        PermissionGuard { caps, audit_enabled: true }
    }

    /// The capability set guarded.
    pub closed spec fn caps_view(&self) -> CapabilitySetView {
        self.caps@
    }

    /// Checks `perm`: `Ok` when granted, else a permission error naming the
    /// request.
    pub fn require(&self, perm: &Permission) -> (r: Result<(), BuaError>)
        ensures
            r is Ok <==> spec_check(self.caps_view().caps, perm@),
            r matches Err(e) ==> (e matches BuaError::PermissionDenied { operation, capability }
                && operation@ == describe_perm(perm@) && capability@ == guard_denial()),
    {
        if self.caps.check(perm) {
            Ok(())
        } else {
            Err(BuaError::permission_denied(perm.describe(), "no matching capability".to_owned()))
        }
    }

    /// Checks `perm`; when it is denied, answers with `fallback` instead.
    pub fn require_or<F: FnOnce() -> Result<(), BuaError>>(&self, perm: &Permission, fallback: F) -> (r:
        Result<(), BuaError>)
        requires
            fallback.requires(()),
        ensures
            spec_check(self.caps_view().caps, perm@) ==> r is Ok,
            !spec_check(self.caps_view().caps, perm@) ==> fallback.ensures((), r),
    {
        if self.caps.check(perm) {
            Ok(())
        } else {
            fallback()
        }
    }

    /// Revokes a capability.
    pub fn revoke(&mut self, cap: &Capability)
        requires
            old(self).caps_view().caps.contains(cap@) ==> old(self).caps_view().generation
                < u64::MAX,
        ensures
            final(self).caps_view().caps == old(self).caps_view().caps.remove(cap@),
    {
        self.caps.revoke(cap);
    }

    /// Replaces the whole capability set.
    pub fn replace(&mut self, new_caps: CapabilitySet)
        ensures
            final(self).caps_view() == new_caps@,
    {
        self.caps = new_caps;
    }

    /// A copy of the guarded capability set.
    pub fn snapshot_caps(&self) -> (s: CapabilitySet)
        ensures
            s@ == self.caps_view(),
    {
        self.caps.duplicate()
    }
}

} // verus!

//! Scope selection: deriving the addressing mode for a resolved resource.

use vstd::prelude::*;
use vstd::string::StringExecFns;
use crate::model::{ResourceCapabilities, ResourceScope};

verus! {

/// The addressing mode chosen for one apply: cluster-wide, a namespace
/// the document asked for, or the fixed default namespace.
#[derive(Debug)]
pub enum ScopeSelection {
    Cluster,
    ExplicitNamespace(String),
    DefaultNamespace,
}

/// Mathematical model of a [`ScopeSelection`].
pub enum ScopeSelectionView {
    Cluster,
    ExplicitNamespace(Seq<char>),
    DefaultNamespace,
}

impl View for ScopeSelection {
    type V = ScopeSelectionView;

    open spec fn view(&self) -> ScopeSelectionView {
        match self {
            ScopeSelection::Cluster => ScopeSelectionView::Cluster,
            ScopeSelection::ExplicitNamespace(ns) => ScopeSelectionView::ExplicitNamespace(
                ns@,
            ),
            ScopeSelection::DefaultNamespace => ScopeSelectionView::DefaultNamespace,
        }
    }
}

/// Which scope an apply selects, given the discovered capability scope,
/// the document's requested namespace, and the all-namespaces flag.
/// Precedence: a cluster-scoped resource or the all-namespaces flag wins,
/// then an explicitly requested namespace, then the fixed default.
pub open spec fn spec_select_scope(
    scope: ResourceScope,
    requested_namespace: Option<Seq<char>>,
    force_all: bool,
) -> ScopeSelectionView {
    if scope == ResourceScope::Cluster || force_all {
        ScopeSelectionView::Cluster
    } else {
        match requested_namespace {
            Some(ns) => ScopeSelectionView::ExplicitNamespace(ns),
            None => ScopeSelectionView::DefaultNamespace,
        }
    }
}

/// View of an optional namespace string.
pub open spec fn opt_string_view(o: Option<String>) -> Option<Seq<char>> {
    match o {
        Some(s) => Some(s@),
        None => None,
    }
}

/// Select the scope for one apply. Pure configuration derivation: no I/O,
/// no fallible path.
pub fn select_scope(
    capabilities: &ResourceCapabilities,
    requested_namespace: &Option<String>,
    force_all: bool,
) -> (r: ScopeSelection)
    ensures
        r@ == spec_select_scope(
            capabilities.scope,
            opt_string_view(*requested_namespace),
            force_all,
        ),
{
    if capabilities.scope == ResourceScope::Cluster || force_all {
        ScopeSelection::Cluster
    } else {
        match requested_namespace {
            Some(ns) => ScopeSelection::ExplicitNamespace(ns.clone()),
            None => ScopeSelection::DefaultNamespace,
        }
    }
}

/// The fixed default namespace that an apply falls back to, and the
/// namespace credentials are stored in.
pub fn default_namespace() -> (r: String)
    ensures
        r@ == "moonscale"@,
{
    String::from_str("moonscale")
}

impl ScopeSelection {
    /// The namespace this selection addresses: none for a cluster-wide
    /// handle, the bound namespace for an explicit one, and the fixed
    /// default otherwise.
    pub fn resolved_namespace(&self) -> (r: Option<String>)
        ensures
            match self@ {
                ScopeSelectionView::Cluster => r is None,
                ScopeSelectionView::ExplicitNamespace(ns) => r matches Some(n) && n@ == ns,
                ScopeSelectionView::DefaultNamespace => r matches Some(n) && n@
                    == "moonscale"@,
            },
    {
        match self {
            ScopeSelection::Cluster => None,
            ScopeSelection::ExplicitNamespace(ns) => Some(ns.clone()),
            ScopeSelection::DefaultNamespace => Some(default_namespace()),
        }
    }
}

/// Scope selection is deterministic and total: for every capability
/// scope, requested namespace, and all-namespaces flag, exactly one of
/// the three selections is made, per the stated precedence — cluster
/// scope or the all-namespaces flag first, then the explicitly requested
/// namespace, then the fixed default.
pub proof fn lemma_scope_selection_total(
    scope: ResourceScope,
    requested_namespace: Option<Seq<char>>,
    force_all: bool,
)
    ensures
        spec_select_scope(scope, requested_namespace, force_all) is Cluster <==> (scope
            == ResourceScope::Cluster || force_all),
        spec_select_scope(scope, requested_namespace, force_all) is ExplicitNamespace <==> (!(
        scope == ResourceScope::Cluster || force_all) && requested_namespace is Some),
        spec_select_scope(scope, requested_namespace, force_all) is ExplicitNamespace
            ==> spec_select_scope(scope, requested_namespace, force_all)->ExplicitNamespace_0
            == requested_namespace->0,
        spec_select_scope(scope, requested_namespace, force_all) is DefaultNamespace <==> (!(
        scope == ResourceScope::Cluster || force_all) && requested_namespace is None),
{
}

} // verus!

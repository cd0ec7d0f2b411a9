//! The apply path: resolving a kind against discovery, planning the
//! declarative merge-apply, and reporting its outcome.

use vstd::prelude::*;
use crate::model::{
    Document, DocumentView, DiscoveryEntryView, DiscoverySnapshot, KindDescriptor,
    KindDescriptorView, ResourceCapabilities, ResourceMetadata, ResourceMetadataView,
};
use crate::scope::{select_scope, spec_select_scope, ScopeSelection, ScopeSelectionView};

verus! {

/// A failure of the apply path.
#[derive(Debug)]
pub enum ApplyError {
    /// The document carries no type metadata, so its kind is unknown and
    /// discovery cannot even be consulted.
    MissingTypeMetadata,
    /// Discovery has no mapping for this kind; the descriptor is carried
    /// for diagnostics.
    UnknownResourceType(KindDescriptor),
    /// The remote apply call failed; the cause is the remote error,
    /// rendered as text.
    ApplyFailed { kind: String, name: String, cause: String },
}

/// Mathematical model of an [`ApplyError`].
pub enum ApplyErrorView {
    MissingTypeMetadata,
    UnknownResourceType(KindDescriptorView),
    ApplyFailed { kind: Seq<char>, name: Seq<char>, cause: Seq<char> },
}

impl View for ApplyError {
    type V = ApplyErrorView;

    open spec fn view(&self) -> ApplyErrorView {
        match self {
            ApplyError::MissingTypeMetadata => ApplyErrorView::MissingTypeMetadata,
            ApplyError::UnknownResourceType(k) => ApplyErrorView::UnknownResourceType(k@),
            ApplyError::ApplyFailed { kind, name, cause } => ApplyErrorView::ApplyFailed {
                kind: kind@,
                name: name@,
                cause: cause@,
            },
        }
    }
}

/// Everything needed to address one declarative apply: the resolved
/// descriptor and plural name, the selected scope, and the object's name.
#[derive(Debug)]
pub struct ApplyPlan {
    pub descriptor: KindDescriptor,
    pub metadata: ResourceMetadata,
    pub scope: ScopeSelection,
    pub name: String,
}

/// Mathematical model of an [`ApplyPlan`].
pub struct ApplyPlanView {
    pub descriptor: KindDescriptorView,
    pub metadata: ResourceMetadataView,
    pub scope: ScopeSelectionView,
    pub name: Seq<char>,
}

impl View for ApplyPlan {
    type V = ApplyPlanView;

    open spec fn view(&self) -> ApplyPlanView {
        ApplyPlanView {
            descriptor: self.descriptor@,
            metadata: self.metadata@,
            scope: self.scope@,
            name: self.name@,
        }
    }
}

/// The first entry of a snapshot registering the given descriptor, if any.
pub open spec fn spec_resolve(
    entries: Seq<DiscoveryEntryView>,
    descriptor: KindDescriptorView,
) -> Option<DiscoveryEntryView>
    decreases entries.len(),
{
    if entries.len() == 0 {
        None
    } else if entries[0].descriptor == descriptor {
        Some(entries[0])
    } else {
        spec_resolve(entries.drop_first(), descriptor)
    }
}

proof fn lemma_resolve_skip(
    entries: Seq<DiscoveryEntryView>,
    descriptor: KindDescriptorView,
    i: int,
)
    requires
        0 <= i <= entries.len(),
        forall|j: int| 0 <= j < i ==> entries[j].descriptor != descriptor,
    ensures
        spec_resolve(entries, descriptor) == spec_resolve(entries.skip(i), descriptor),
    decreases i,
{
    if i == 0 {
        assert(entries.skip(0) =~= entries);
    } else {
        lemma_resolve_skip(entries.drop_first(), descriptor, i - 1);
        assert(entries.drop_first().skip(i - 1) =~= entries.skip(i));
    }
}

/// Resolve a kind descriptor against a discovery snapshot: the first
/// matching entry's resource metadata and capabilities, or
/// `UnknownResourceType` carrying the descriptor. A pure lookup — no
/// side effects, no remote call.
pub fn locate(descriptor: &KindDescriptor, snapshot: &DiscoverySnapshot) -> (r: Result<
    (ResourceMetadata, ResourceCapabilities),
    ApplyError,
>)
    ensures
        match r {
            Ok(pair) => spec_resolve(snapshot@, descriptor@) matches Some(e) && pair.0@
                == e.metadata && pair.1 == e.capabilities,
            Err(e) => spec_resolve(snapshot@, descriptor@) is None && (e matches
            ApplyError::UnknownResourceType(k) && k@ == descriptor@),
        },
{
    let n = snapshot.entries.len();
    let mut i: usize = 0;
    while i < n
        invariant
            n == snapshot.entries.len(),
            i <= n,
            forall|j: int| 0 <= j < i ==> snapshot@[j].descriptor != descriptor@,
        decreases n - i,
    {
        let entry = &snapshot.entries[i];
        if entry.descriptor.same_type(descriptor) {
            proof {
                lemma_resolve_skip(snapshot@, descriptor@, i as int);
                assert(snapshot@.skip(i as int)[0] == snapshot@[i as int]);
            }
            return Ok((entry.metadata.duplicate(), entry.capabilities));
        }
        i += 1;
    }
    proof {
        lemma_resolve_skip(snapshot@, descriptor@, n as int);
        assert(snapshot@.skip(n as int).len() == 0);
    }
    Err(ApplyError::UnknownResourceType(descriptor.duplicate()))
}

/// What one apply plans, as a function of the document, the snapshot,
/// and the all-namespaces flag. A document without type metadata is
/// rejected before discovery is consulted; an unresolvable kind is
/// rejected before any plan is made.
pub open spec fn spec_plan_apply(
    doc: DocumentView,
    entries: Seq<DiscoveryEntryView>,
    force_all: bool,
) -> Result<ApplyPlanView, ApplyErrorView> {
    match doc.type_meta {
        None => Err(ApplyErrorView::MissingTypeMetadata),
        Some(kd) => match spec_resolve(entries, kd) {
            None => Err(ApplyErrorView::UnknownResourceType(kd)),
            Some(entry) => Ok(
                ApplyPlanView {
                    descriptor: kd,
                    metadata: entry.metadata,
                    scope: spec_select_scope(
                        entry.capabilities.scope,
                        doc.namespace,
                        force_all,
                    ),
                    name: match doc.name {
                        Some(n) => n,
                        None => Seq::empty(),
                    },
                },
            ),
        },
    }
}

/// View of a planning result.
pub open spec fn plan_result_view(r: Result<ApplyPlan, ApplyError>) -> Result<
    ApplyPlanView,
    ApplyErrorView,
> {
    match r {
        Ok(p) => Ok(p@),
        Err(e) => Err(e@),
    }
}

/// Plan one declarative apply: extract the document's kind descriptor,
/// resolve it against the snapshot, select the scope, and derive the
/// object's name (empty only if genuinely absent). Pure — the one remote
/// mutating call is issued by the caller from the returned plan, so a
/// rejected document provably causes no remote call.
pub fn plan_apply(doc: &Document, snapshot: &DiscoverySnapshot, force_all: bool) -> (r:
    Result<ApplyPlan, ApplyError>)
    ensures
        plan_result_view(r) == spec_plan_apply(doc@, snapshot@, force_all),
{
    let descriptor = match &doc.type_meta {
        None => {
            return Err(ApplyError::MissingTypeMetadata);
        },
        Some(k) => k,
    };
    match locate(descriptor, snapshot) {
        Err(e) => Err(e),
        Ok((metadata, capabilities)) => {
            let scope = select_scope(&capabilities, &doc.namespace, force_all);
            let name = match &doc.name {
                Some(n) => n.clone(),
                None => String::new(),
            };
            Ok(
                ApplyPlan {
                    descriptor: descriptor.duplicate(),
                    metadata,
                    scope,
                    name,
                },
            )
        },
    }
}

proof fn lemma_resolve_finds(entries: Seq<DiscoveryEntryView>, descriptor: KindDescriptorView)
    requires
        exists|i: int| 0 <= i < entries.len() && entries[i].descriptor == descriptor,
    ensures
        spec_resolve(entries, descriptor) is Some,
    decreases entries.len(),
{
    if entries[0].descriptor != descriptor {
        let i = choose|i: int|
            0 <= i < entries.len() && entries[i].descriptor == descriptor;
        assert(entries.drop_first()[i - 1].descriptor == descriptor);
        lemma_resolve_finds(entries.drop_first(), descriptor);
    }
}

/// A document without type metadata is rejected with
/// `MissingTypeMetadata`. Since the one remote mutating call is issued
/// only from a returned plan, no remote call is made for such a
/// document.
pub proof fn lemma_missing_type_metadata_rejected(
    doc: DocumentView,
    entries: Seq<DiscoveryEntryView>,
    force_all: bool,
)
    requires
        doc.type_meta is None,
    ensures
        spec_plan_apply(doc, entries, force_all) == Err::<ApplyPlanView, ApplyErrorView>(
            ApplyErrorView::MissingTypeMetadata,
        ),
{
}

/// A kind descriptor that no entry of the discovery snapshot registers
/// is rejected with `UnknownResourceType` carrying that descriptor; no
/// plan, hence no remote call, is produced for it.
pub proof fn lemma_unknown_kind_rejected(
    doc: DocumentView,
    entries: Seq<DiscoveryEntryView>,
    force_all: bool,
)
    requires
        doc.type_meta is Some,
        forall|i: int|
            0 <= i < entries.len() ==> entries[i].descriptor != doc.type_meta->0,
    ensures
        spec_plan_apply(doc, entries, force_all) == Err::<ApplyPlanView, ApplyErrorView>(
            ApplyErrorView::UnknownResourceType(doc.type_meta->0),
        ),
{
    lemma_resolve_skip(entries, doc.type_meta->0, entries.len() as int);
    assert(entries.skip(entries.len() as int).len() == 0);
}

/// A typed document whose kind the snapshot does register always plans
/// successfully: planning itself owes success whenever type metadata is
/// present and discovery knows the kind.
pub proof fn lemma_known_kind_plans(
    doc: DocumentView,
    entries: Seq<DiscoveryEntryView>,
    force_all: bool,
)
    requires
        doc.type_meta is Some,
        exists|i: int|
            0 <= i < entries.len() && entries[i].descriptor == doc.type_meta->0,
    ensures
        spec_plan_apply(doc, entries, force_all) is Ok,
{
    lemma_resolve_finds(entries, doc.type_meta->0);
}

/// The idempotence the library itself can promise: planning is a pure
/// function, so an unchanged document against an unchanged snapshot
/// yields the identical plan — and thereby the identical remote request
/// — on every re-apply, and a successful remote outcome is always
/// reported as success. That re-asserting unchanged fields mutates
/// nothing further is the remote merge-apply's field-ownership contract,
/// outside this crate.
pub proof fn lemma_reapply_plans_identically(
    doc: DocumentView,
    entries: Seq<DiscoveryEntryView>,
    force_all: bool,
    plan: ApplyPlanView,
)
    ensures
        spec_plan_apply(doc, entries, force_all) == spec_plan_apply(
            doc,
            entries,
            force_all,
        ),
        spec_finish_apply(plan, Ok(())) == Ok::<(), ApplyErrorView>(()),
{
}

/// View of the remote outcome a caller hands back.
pub open spec fn outcome_view(outcome: Result<(), String>) -> Result<(), Seq<char>> {
    match outcome {
        Ok(u) => Ok(u),
        Err(cause) => Err(cause@),
    }
}

/// View of a finished apply result.
pub open spec fn apply_result_view(r: Result<(), ApplyError>) -> Result<
    (),
    ApplyErrorView,
> {
    match r {
        Ok(u) => Ok(u),
        Err(e) => Err(e@),
    }
}

/// How a finished apply reports: success stands as it is, and a remote
/// failure is wrapped with the applied kind and name for diagnostics.
pub open spec fn spec_finish_apply(plan: ApplyPlanView, outcome: Result<(), Seq<char>>) -> Result<
    (),
    ApplyErrorView,
> {
    match outcome {
        Ok(u) => Ok(u),
        Err(cause) => Err(
            ApplyErrorView::ApplyFailed { kind: plan.descriptor.kind, name: plan.name, cause },
        ),
    }
}

/// Report the outcome of the one remote merge-apply call made for a plan.
/// Single-attempt semantics: a failure is wrapped and propagated, never
/// retried here.
pub fn finish_apply(plan: &ApplyPlan, outcome: Result<(), String>) -> (r: Result<
    (),
    ApplyError,
>)
    ensures
        apply_result_view(r) == spec_finish_apply(plan@, outcome_view(outcome)),
{
    match outcome {
        Ok(_) => Ok(()),
        Err(cause) => Err(
            ApplyError::ApplyFailed {
                kind: plan.descriptor.kind.clone(),
                name: plan.name.clone(),
                cause,
            },
        ),
    }
}

} // verus!

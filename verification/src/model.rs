//! The data model: kind descriptors, discovery snapshots, and documents.

use vstd::prelude::*;

verus! {

/// A (group, version, kind) triple identifying a resource type.
#[derive(Debug)]
pub struct KindDescriptor {
    pub group: String,
    pub version: String,
    pub kind: String,
}

/// Mathematical model of a [`KindDescriptor`].
pub struct KindDescriptorView {
    pub group: Seq<char>,
    pub version: Seq<char>,
    pub kind: Seq<char>,
}

impl View for KindDescriptor {
    type V = KindDescriptorView;

    open spec fn view(&self) -> KindDescriptorView {
        KindDescriptorView {
            group: self.group@,
            version: self.version@,
            kind: self.kind@,
        }
    }
}

impl KindDescriptor {
    /// A fresh descriptor holding the same triple.
    pub fn duplicate(&self) -> (r: KindDescriptor)
        ensures
            r@ == self@,
    {
        KindDescriptor {
            group: self.group.clone(),
            version: self.version.clone(),
            kind: self.kind.clone(),
        }
    }

    /// Whether two descriptors name the same resource type.
    pub fn same_type(&self, other: &KindDescriptor) -> (r: bool)
        ensures
            r == (self@ == other@),
    {
        self.group == other.group && self.version == other.version
            && self.kind == other.kind
    }
}

/// Whether a resource type is addressed globally or within a namespace.
#[derive(Debug, Clone, Copy, PartialEq, Eq, Structural)]
pub enum ResourceScope {
    Cluster,
    Namespaced,
}

/// Resolved description of a resource type's REST shape: its plural
/// resource name on the API surface.
#[derive(Debug)]
pub struct ResourceMetadata {
    pub plural: String,
}

/// Mathematical model of [`ResourceMetadata`].
pub struct ResourceMetadataView {
    pub plural: Seq<char>,
}

impl View for ResourceMetadata {
    type V = ResourceMetadataView;

    open spec fn view(&self) -> ResourceMetadataView {
        ResourceMetadataView { plural: self.plural@ }
    }
}

impl ResourceMetadata {
    /// A fresh copy of the metadata.
    pub fn duplicate(&self) -> (r: ResourceMetadata)
        ensures
            r@ == self@,
    {
        ResourceMetadata { plural: self.plural.clone() }
    }
}

/// Capability flags of a resource type, as discovery reports them.
#[derive(Debug, Clone, Copy, PartialEq, Eq, Structural)]
pub struct ResourceCapabilities {
    pub scope: ResourceScope,
}

/// One registered resource type in a discovery snapshot.
#[derive(Debug)]
pub struct DiscoveryEntry {
    pub descriptor: KindDescriptor,
    pub metadata: ResourceMetadata,
    pub capabilities: ResourceCapabilities,
}

/// Mathematical model of a [`DiscoveryEntry`].
pub struct DiscoveryEntryView {
    pub descriptor: KindDescriptorView,
    pub metadata: ResourceMetadataView,
    pub capabilities: ResourceCapabilities,
}

impl View for DiscoveryEntry {
    type V = DiscoveryEntryView;

    open spec fn view(&self) -> DiscoveryEntryView {
        DiscoveryEntryView {
            descriptor: self.descriptor@,
            metadata: self.metadata@,
            capabilities: self.capabilities,
        }
    }
}

/// A snapshot of the cluster's registered resource types, as the external
/// discovery mechanism reports them. The caller builds it from a live or
/// periodically refreshed enumeration and passes it in explicitly.
#[derive(Debug)]
pub struct DiscoverySnapshot {
    pub entries: Vec<DiscoveryEntry>,
}

impl View for DiscoverySnapshot {
    type V = Seq<DiscoveryEntryView>;

    open spec fn view(&self) -> Seq<DiscoveryEntryView> {
        self.entries@.map(|i: int, e: DiscoveryEntry| e@)
    }
}

/// A decoded manifest: optionally typed, optionally named, optionally
/// namespaced. Decoding from a serialization format happens outside this
/// crate; the fields here are what the apply path reads.
#[derive(Debug)]
pub struct Document {
    pub type_meta: Option<KindDescriptor>,
    pub name: Option<String>,
    pub namespace: Option<String>,
}

/// Mathematical model of a [`Document`].
pub struct DocumentView {
    pub type_meta: Option<KindDescriptorView>,
    pub name: Option<Seq<char>>,
    pub namespace: Option<Seq<char>>,
}

impl View for Document {
    type V = DocumentView;

    open spec fn view(&self) -> DocumentView {
        DocumentView {
            type_meta: match self.type_meta {
                Some(ref k) => Some(k@),
                None => None,
            },
            name: match self.name {
                Some(ref n) => Some(n@),
                None => None,
            },
            namespace: match self.namespace {
                Some(ref n) => Some(n@),
                None => None,
            },
        }
    }
}

} // verus!

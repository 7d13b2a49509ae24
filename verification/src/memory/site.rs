//! Where in the engine an allocation is made. A scope enters a site and leaves
//! it again; scopes nest.

use vstd::prelude::*;
use vstd::std_specs::convert::{FromSpecImpl, IntoSpec};

verus! {

/// Where an allocation is made.
#[derive(Clone, Copy, Debug, PartialEq, Eq, Hash, Structural)]
pub enum AllocationSite {
    BTree(BTreeAllocationSite),
    MvStore(MvStoreAllocationSite),
    MvccCheckpoint(MvccCheckpointAllocationSite),
    Schema(SchemaAllocationSite),
    ValueBlob(ValueBlobAllocationSite),
    Vector(VectorAllocationSite),
    /// Anywhere: no allocation is made to fail.
    NoFaultInjection,
}

/// Where the B-tree allocates.
#[derive(Clone, Copy, Debug, PartialEq, Eq, Hash, Structural)]
pub enum BTreeAllocationSite {
    CellPayload,
    OverflowRead,
    Balance,
    BlobRecordHeader,
    IntegrityCheck,
    OverflowCell,
    RecordPayload,
    SavedCursorRecord,
}

/// Where values allocate.
#[derive(Clone, Copy, Debug, PartialEq, Eq, Hash, Structural)]
pub enum ValueBlobAllocationSite {
    Concat,
    FromSlice,
    JsonbConstruction,
    JsonbCopy,
    Hash128,
    RecordDecode,
    CloneFrom,
    RecordBuild,
    RecordCopy,
    AggAccumulate,
}

/// Where the store of versions allocates.
#[derive(Clone, Copy, Debug, PartialEq, Eq, Hash, Structural)]
pub enum MvStoreAllocationSite {
    RootpageMappingInsert,
    TxInsert,
    FinalizedTxStateInsert,
    TableRowsEntry,
    IndexRowsEntry,
    IndexKeyEntry,
    RowVersionReserve,
    RowPayload,
    SchemaRowPayload,
}

/// Where the schema allocates.
#[derive(Clone, Copy, Debug, PartialEq, Eq, Hash, Structural)]
pub enum SchemaAllocationSite {
    MakeMut,
}

/// Where a checkpoint allocates.
#[derive(Clone, Copy, Debug, PartialEq, Eq, Hash, Structural)]
pub enum MvccCheckpointAllocationSite {
    CheckpointWriteSet,
    CheckpointIndexWriteSet,
    CheckpointMetadataPayload,
    CheckpointSequenceCompactions,
}

/// Where vectors allocate.
#[derive(Clone, Copy, Debug, PartialEq, Eq, Hash, Structural)]
pub enum VectorAllocationSite {
    Parse,
    Convert,
    Concat,
    Slice,
    Serialize,
    SparseConstruction,
    Float8Construction,
    IndexPayloadCopy,
}

impl FromSpecImpl<MvStoreAllocationSite> for AllocationSite {
    open spec fn obeys_from_spec() -> bool {
        true
    }

    open spec fn from_spec(site: MvStoreAllocationSite) -> AllocationSite {
        AllocationSite::MvStore(site)
    }
}

impl From<MvStoreAllocationSite> for AllocationSite {
    fn from(site: MvStoreAllocationSite) -> (r: AllocationSite) {
        AllocationSite::MvStore(site)
    }
}

impl FromSpecImpl<BTreeAllocationSite> for AllocationSite {
    open spec fn obeys_from_spec() -> bool {
        true
    }

    open spec fn from_spec(site: BTreeAllocationSite) -> AllocationSite {
        AllocationSite::BTree(site)
    }
}

impl From<BTreeAllocationSite> for AllocationSite {
    fn from(site: BTreeAllocationSite) -> (r: AllocationSite) {
        AllocationSite::BTree(site)
    }
}

impl FromSpecImpl<MvccCheckpointAllocationSite> for AllocationSite {
    open spec fn obeys_from_spec() -> bool {
        true
    }

    open spec fn from_spec(site: MvccCheckpointAllocationSite) -> AllocationSite {
        AllocationSite::MvccCheckpoint(site)
    }
}

impl From<MvccCheckpointAllocationSite> for AllocationSite {
    fn from(site: MvccCheckpointAllocationSite) -> (r: AllocationSite) {
        AllocationSite::MvccCheckpoint(site)
    }
}

impl FromSpecImpl<SchemaAllocationSite> for AllocationSite {
    open spec fn obeys_from_spec() -> bool {
        true
    }

    open spec fn from_spec(site: SchemaAllocationSite) -> AllocationSite {
        AllocationSite::Schema(site)
    }
}

impl From<SchemaAllocationSite> for AllocationSite {
    fn from(site: SchemaAllocationSite) -> (r: AllocationSite) {
        AllocationSite::Schema(site)
    }
}

impl FromSpecImpl<VectorAllocationSite> for AllocationSite {
    open spec fn obeys_from_spec() -> bool {
        true
    }

    open spec fn from_spec(site: VectorAllocationSite) -> AllocationSite {
        AllocationSite::Vector(site)
    }
}

impl From<VectorAllocationSite> for AllocationSite {
    fn from(site: VectorAllocationSite) -> (r: AllocationSite) {
        AllocationSite::Vector(site)
    }
}

impl FromSpecImpl<ValueBlobAllocationSite> for AllocationSite {
    open spec fn obeys_from_spec() -> bool {
        true
    }

    open spec fn from_spec(site: ValueBlobAllocationSite) -> AllocationSite {
        AllocationSite::ValueBlob(site)
    }
}

impl From<ValueBlobAllocationSite> for AllocationSite {
    fn from(site: ValueBlobAllocationSite) -> (r: AllocationSite) {
        AllocationSite::ValueBlob(site)
    }
}

/// The site that allocations are made at now.
#[derive(Debug)]
pub struct AllocationSiteSlot {
    pub current: Option<AllocationSite>,
}

impl AllocationSiteSlot {
    pub fn new() -> (r: AllocationSiteSlot)
        ensures
            r.current is None,
    {
        AllocationSiteSlot { current: None }
    }
}

/// A scope in which allocations are made at a site.
#[must_use]
#[derive(Debug)]
pub struct AllocationSiteGuard {
    previous: Option<AllocationSite>,
}

impl View for AllocationSiteGuard {
    type V = Option<AllocationSite>;

    /// The site around the scope.
    closed spec fn view(&self) -> Option<AllocationSite> {
        self.previous
    }
}

impl AllocationSiteGuard {
    /// Leaves the scope: the site around it is back.
    pub fn leave(self, slot: &mut AllocationSiteSlot)
        ensures
            final(slot).current == self@,
    {
        slot.current = self.previous;
    }
}

/// The site inside a scope that enters `site`: where no allocation is made to
/// fail, none is inside either.
pub open spec fn entered(current: Option<AllocationSite>, site: AllocationSite) -> AllocationSite {
    if current == Some(AllocationSite::NoFaultInjection) {
        AllocationSite::NoFaultInjection
    } else {
        site
    }
}

/// Enters a site.
pub fn enter_site(slot: &mut AllocationSiteSlot, site: AllocationSite) -> (r: AllocationSiteGuard)
    ensures
        r@ == old(slot).current,
        final(slot).current == Some(entered(old(slot).current, site)),
{
    let previous = slot.current;
    let site = match previous {
        Some(AllocationSite::NoFaultInjection) => AllocationSite::NoFaultInjection,
        _ => site,
    };
    slot.current = Some(site);
    AllocationSiteGuard { previous }
}

/// Enters a site of any part of the engine.
pub fn enter_allocation_site<S: Into<AllocationSite>>(
    slot: &mut AllocationSiteSlot,
    site: S,
) -> (r: AllocationSiteGuard)
    ensures
        r@ == old(slot).current,
        exists|converted: AllocationSite|
            (S::obeys_into_spec() ==> converted == site.into_spec()) && #[trigger] entered(
                old(slot).current,
                converted,
            ) == final(slot).current->0,
        final(slot).current is Some,
{
    let site: AllocationSite = site.into();
    enter_site(slot, site)
}

/// The site that allocations are made at now.
pub fn current_allocation_site(slot: &AllocationSiteSlot) -> (r: Option<AllocationSite>)
    ensures
        r == slot.current,
{
    slot.current
}

/// The sites inside scopes that enter `sites` one inside the other.
pub open spec fn nested(
    current: Option<AllocationSite>,
    sites: Seq<AllocationSite>,
) -> Option<AllocationSite>
    decreases sites.len(),
{
    if sites.len() == 0 {
        current
    } else {
        nested(Some(entered(current, sites[0])), sites.skip(1))
    }
}

/// Inside a scope in which no allocation is made to fail, none is, whatever
/// sites are entered there.
pub proof fn no_fault_injection_dominates(sites: Seq<AllocationSite>)
    ensures
        nested(Some(AllocationSite::NoFaultInjection), sites) == Some(
            AllocationSite::NoFaultInjection,
        ),
    decreases sites.len(),
{
    if sites.len() > 0 {
        no_fault_injection_dominates(sites.skip(1));
    }
}

} // verus!

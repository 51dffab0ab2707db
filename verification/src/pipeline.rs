//! The commit pipeline as a state machine. It is made from the pages that the
//! interpreter recorded, and then says, one action at a time, what the caller
//! is to ask of the hypervisor and the virtual processors: first the import
//! of every group of pages, then the write of the isolation-control register
//! on every virtual processor, then the completion of the import.

use crate::commit::{
    frame_numbers, group_by_page_type, group_views, grouped, guest_addresses, lemma_grouped,
    sort_by_gpa, sorted_by_gpa, stable_sort_of, uniform,
};
use crate::directive::SnpIdBlock;
use crate::error::Error;
use crate::page::{GpaPages, IsolatedPageSize, IsolationPlatform, ISOLATED_PAGE_SHIFT};
use vstd::prelude::*;

verus! {

/// The value to which the isolation-control register is set.
pub const SEV_CONTROL_INITIAL: u64 = 0;

/// The number of VMSAs that the completion of the import announces.
pub const VMSA_COUNT: u8 = 1;

/// One action of the commit, for the caller to perform.
#[derive(Debug, Clone, PartialEq, Eq)]
pub enum CommitAction {
    /// Import one group of pages: the pages at the guest addresses `gpas`,
    /// whose page-frame numbers are `pfns`, all of the type `page_type` and
    /// the size `page_size`, both as the platform numbers them.
    ImportIsolatedPages { page_type: u32, page_size: u32, pfns: Vec<u64>, gpas: Vec<u64> },
    /// Write `value` to the isolation-control register of the virtual
    /// processor `vp_index`.
    SetSevControlRegister { vp_index: u32, value: u64 },
    /// Complete the isolated import.
    CompleteIsolatedImport { snp_id_block: SnpIdBlock, host_data: [u8; 32], vmsa_count: u8 },
    /// Nothing is left to do.
    Done,
}

/// An action of the commit, as a value.
pub enum CommitActionModel {
    ImportIsolatedPages { page_type: u32, page_size: u32, pfns: Seq<u64>, gpas: Seq<u64> },
    SetSevControlRegister { vp_index: u32, value: u64 },
    CompleteIsolatedImport { snp_id_block: SnpIdBlock, host_data: [u8; 32], vmsa_count: u8 },
    Done,
}

impl View for CommitAction {
    type V = CommitActionModel;

    open spec fn view(&self) -> CommitActionModel {
        match self {
            CommitAction::ImportIsolatedPages { page_type, page_size, pfns, gpas } => {
                CommitActionModel::ImportIsolatedPages {
                    page_type: *page_type,
                    page_size: *page_size,
                    pfns: pfns@,
                    gpas: gpas@,
                }
            },
            CommitAction::SetSevControlRegister { vp_index, value } => {
                CommitActionModel::SetSevControlRegister { vp_index: *vp_index, value: *value }
            },
            CommitAction::CompleteIsolatedImport { snp_id_block, host_data, vmsa_count } => {
                CommitActionModel::CompleteIsolatedImport {
                    snp_id_block: *snp_id_block,
                    host_data: *host_data,
                    vmsa_count: *vmsa_count,
                }
            },
            CommitAction::Done => CommitActionModel::Done,
        }
    }
}

/// The state of a commit pipeline, as a value.
pub struct CommitModel {
    pub platform: IsolationPlatform,
    /// The pages to commit, sorted by address.
    pub pages: Seq<GpaPages>,
    /// The number of virtual processors.
    pub vp_count: u32,
    pub snp_id_block: SnpIdBlock,
    pub host_data: [u8; 32],
    /// How many groups of pages have been imported.
    pub imported: nat,
    /// On how many virtual processors the register has been written.
    pub written: nat,
    /// Whether the import has been completed.
    pub completed: bool,
}

impl CommitModel {
    /// The groups in which the pages are imported.
    pub open spec fn groups(self) -> Seq<Seq<GpaPages>> {
        grouped(self.pages)
    }

    /// Whether the counters are within what there is to do.
    pub open spec fn wf(self) -> bool {
        &&& sorted_by_gpa(self.pages)
        &&& self.imported <= self.groups().len()
        &&& self.written <= self.vp_count
    }

    /// The import of the group `k`.
    pub open spec fn import_of(self, k: int) -> CommitActionModel {
        let group = self.groups()[k];
        CommitActionModel::ImportIsolatedPages {
            page_type: self.platform.page_type_number(group[0].page_type),
            page_size: self.platform.page_size_number(IsolatedPageSize::Size4Kb),
            pfns: frame_numbers(group),
            gpas: guest_addresses(group),
        }
    }

    /// The write of the register on the virtual processor `vp_index`.
    pub open spec fn write_of(self, vp_index: int) -> CommitActionModel {
        CommitActionModel::SetSevControlRegister {
            vp_index: vp_index as u32,
            value: SEV_CONTROL_INITIAL,
        }
    }

    /// The completion of the import.
    pub open spec fn completion(self) -> CommitActionModel {
        CommitActionModel::CompleteIsolatedImport {
            snp_id_block: self.snp_id_block,
            host_data: self.host_data,
            vmsa_count: VMSA_COUNT,
        }
    }

    /// The action that is to be performed in this state.
    pub open spec fn pending(self) -> CommitActionModel {
        if self.imported < self.groups().len() {
            self.import_of(self.imported as int)
        } else if self.written < self.vp_count {
            self.write_of(self.written as int)
        } else if !self.completed {
            self.completion()
        } else {
            CommitActionModel::Done
        }
    }

    /// The state after the pending action has been performed.
    pub open spec fn advanced(self) -> CommitModel {
        if self.imported < self.groups().len() {
            CommitModel { imported: self.imported + 1, ..self }
        } else if self.written < self.vp_count {
            CommitModel { written: self.written + 1, ..self }
        } else {
            CommitModel { completed: true, ..self }
        }
    }

    /// The error that the commit ends with where the pending action fails.
    pub open spec fn failure(self) -> Option<Error> {
        if self.imported < self.groups().len() {
            Some(Error::ImportIsolatedPages)
        } else if self.written < self.vp_count {
            Some(Error::SetVmsa)
        } else if !self.completed {
            Some(Error::CompleteIsolatedImport)
        } else {
            None
        }
    }

    /// How many actions are left.
    pub open spec fn actions_left(self) -> nat {
        let imports = if self.imported < self.groups().len() {
            self.groups().len() - self.imported
        } else {
            0
        };
        let writes = if self.written < self.vp_count {
            self.vp_count - self.written
        } else {
            0
        };
        let completions: int = if self.completed {
            0
        } else {
            1
        };
        (imports + writes + completions) as nat
    }

    /// The actions that are left, in the order in which the pipeline asks for
    /// them where each succeeds.
    pub open spec fn remaining(self) -> Seq<CommitActionModel>
        decreases self.actions_left(),
    {
        if self.actions_left() == 0 {
            Seq::empty()
        } else {
            seq![self.pending()] + self.advanced().remaining()
        }
    }

    /// Whether this is the state in which a pipeline starts: nothing done.
    pub open spec fn is_start(self) -> bool {
        self.imported == 0 && self.written == 0 && !self.completed
    }
}

/// The place of an action in the protocol: imports come first, register
/// writes second, the completion third.
pub open spec fn stage(action: CommitActionModel) -> int {
    match action {
        CommitActionModel::ImportIsolatedPages { .. } => 0,
        CommitActionModel::SetSevControlRegister { .. } => 1,
        CommitActionModel::CompleteIsolatedImport { .. } => 2,
        CommitActionModel::Done => 3,
    }
}

/// What is pending says how far the commit is: a register is written only
/// once every group is imported, and the import is completed only once, in
/// addition, the register of every virtual processor is written.
pub proof fn lemma_pending_stage(state: CommitModel)
    requires
        state.wf(),
    ensures
        state.pending() is ImportIsolatedPages <==> state.imported < state.groups().len(),
        state.pending() is SetSevControlRegister ==> state.imported == state.groups().len()
            && state.written < state.vp_count,
        state.pending() is CompleteIsolatedImport ==> state.imported == state.groups().len()
            && state.written == state.vp_count && !state.completed,
        state.pending() is Done ==> state.imported == state.groups().len() && state.written
            == state.vp_count && state.completed,
        state.failure() is None <==> state.pending() is Done,
{
}

/// The actions that are left are the imports of the groups that are left, in
/// their order, then the register writes on the processors that are left, in
/// their order, then the completion unless it is done.
pub proof fn lemma_remaining(state: CommitModel, k: int)
    requires
        state.wf(),
        0 <= k < state.actions_left(),
    ensures
        state.remaining().len() == state.actions_left(),
        state.remaining()[k] == (if k < state.groups().len() - state.imported {
            state.import_of(state.imported + k)
        } else if k < state.groups().len() - state.imported + state.vp_count - state.written {
            state.write_of(state.written + k - (state.groups().len() - state.imported))
        } else {
            state.completion()
        }),
    decreases state.actions_left(),
{
    lemma_remaining_len(state);
    if k > 0 {
        lemma_remaining(state.advanced(), k - 1);
    }
}

pub proof fn lemma_remaining_len(state: CommitModel)
    requires
        state.wf(),
    ensures
        state.remaining().len() == state.actions_left(),
    decreases state.actions_left(),
{
    if state.actions_left() > 0 {
        lemma_remaining_len(state.advanced());
    }
}

/// The order of the commit: of two actions that are left, the earlier is
/// never of a later stage than the later. So no register is written before
/// every group is imported, and the import is not completed before every
/// register is written.
pub proof fn lemma_commit_order(state: CommitModel, earlier: int, later: int)
    requires
        state.wf(),
        0 <= earlier <= later < state.remaining().len(),
    ensures
        stage(state.remaining()[earlier]) <= stage(state.remaining()[later]),
{
    lemma_remaining_len(state);
    lemma_remaining(state, earlier);
    lemma_remaining(state, later);
}

/// From its start, a pipeline asks for one import for each group, one
/// register write for each virtual processor, and one completion, which is
/// the last action.
pub proof fn lemma_commit_from_start(state: CommitModel)
    requires
        state.wf(),
        state.is_start(),
    ensures
        state.remaining().len() == state.groups().len() + state.vp_count + 1,
        forall|k: int|
            0 <= k < state.groups().len() ==> #[trigger] state.remaining()[k] == state.import_of(k),
        forall|k: int|
            0 <= k < state.vp_count ==> #[trigger] state.remaining()[state.groups().len() + k]
                == state.write_of(k),
        state.remaining().last() == state.completion(),
{
    lemma_remaining_len(state);
    assert forall|k: int| 0 <= k < state.groups().len() implies #[trigger] state.remaining()[k]
        == state.import_of(k) by {
        lemma_remaining(state, k);
    }
    assert forall|k: int| 0 <= k < state.vp_count implies #[trigger] state.remaining()[state.groups().len()
        + k] == state.write_of(k) by {
        lemma_remaining(state, state.groups().len() + k);
    }
    lemma_remaining(state, state.remaining().len() - 1);
}

/// The commit pipeline of one load.
pub struct CommitPipeline {
    platform: IsolationPlatform,
    pages: Vec<GpaPages>,
    groups: Vec<Vec<GpaPages>>,
    vp_count: u32,
    snp_id_block: SnpIdBlock,
    host_data: [u8; 32],
    imported: usize,
    written: u32,
    completed: bool,
}

impl View for CommitPipeline {
    type V = CommitModel;

    closed spec fn view(&self) -> CommitModel {
        CommitModel {
            platform: self.platform,
            pages: self.pages@,
            vp_count: self.vp_count,
            snp_id_block: self.snp_id_block,
            host_data: self.host_data,
            imported: self.imported as nat,
            written: self.written as nat,
            completed: self.completed,
        }
    }
}

impl CommitPipeline {
    #[verifier::type_invariant]
    spec fn inv(self) -> bool {
        &&& sorted_by_gpa(self.pages@)
        &&& group_views(self.groups@) == grouped(self.pages@)
        &&& self.imported <= self.groups@.len()
        &&& self.written <= self.vp_count
    }

    /// The pipeline that commits `pages` on `platform` for a guest with
    /// `vp_count` virtual processors, and completes the import with
    /// `snp_id_block` and `host_data`. The pages are sorted by address, pages
    /// at one address staying in their order, and grouped by page type.
    pub fn new(
        platform: IsolationPlatform,
        pages: &Vec<GpaPages>,
        vp_count: u32,
        snp_id_block: SnpIdBlock,
        host_data: [u8; 32],
    ) -> (pipeline: CommitPipeline)
        ensures
            pipeline@.wf(),
            pipeline@.is_start(),
            stable_sort_of(pipeline@.pages, pages@),
            pipeline@.platform == platform,
            pipeline@.vp_count == vp_count,
            pipeline@.snp_id_block == snp_id_block,
            pipeline@.host_data == host_data,
    {
        let sorted = sort_by_gpa(pages);
        let groups = group_by_page_type(&sorted);
        CommitPipeline {
            platform,
            pages: sorted,
            groups,
            vp_count,
            snp_id_block,
            host_data,
            imported: 0,
            written: 0,
            completed: false,
        }
    }

    /// The number of pages that the pipeline commits.
    pub fn page_count(&self) -> (count: usize)
        ensures
            count == self@.pages.len(),
    {
        self.pages.len()
    }

    /// The number of groups in which the pages are imported.
    pub fn group_count(&self) -> (count: usize)
        ensures
            count == self@.groups().len(),
            self@.wf(),
    {
        proof {
            use_type_invariant(self);
        }
        self.groups.len()
    }

    /// The action that the caller is to perform now.
    pub fn next_action(&self) -> (action: CommitAction)
        ensures
            action@ == self@.pending(),
            self@.wf(),
    {
        proof {
            use_type_invariant(self);
        }
        if self.imported < self.groups.len() {
            let group = &self.groups[self.imported];
            proof {
                lemma_grouped(self.pages@);
                assert(group@ == group_views(self.groups@)[self.imported as int]);
                assert(uniform(grouped(self.pages@)[self.imported as int]));
            }
            let mut pfns: Vec<u64> = Vec::new();
            let mut gpas: Vec<u64> = Vec::new();
            let mut i: usize = 0;
            while i < group.len()
                invariant
                    i <= group.len(),
                    pfns@ == frame_numbers(group@.take(i as int)),
                    gpas@ == guest_addresses(group@.take(i as int)),
                decreases group.len() - i,
            {
                let gpa = group[i].gpa;
                assert(gpa >> 12 == gpa / 4096) by (bit_vector);
                pfns.push(gpa >> ISOLATED_PAGE_SHIFT);
                gpas.push(gpa);
                assert(pfns@ =~= frame_numbers(group@.take(i + 1)));
                assert(gpas@ =~= guest_addresses(group@.take(i + 1)));
                i = i + 1;
            }
            assert(group@.take(i as int) =~= group@);
            CommitAction::ImportIsolatedPages {
                page_type: self.platform.page_type_code(group[0].page_type),
                page_size: self.platform.page_size_code(IsolatedPageSize::Size4Kb),
                pfns,
                gpas,
            }
        } else if self.written < self.vp_count {
            CommitAction::SetSevControlRegister {
                vp_index: self.written,
                value: SEV_CONTROL_INITIAL,
            }
        } else if !self.completed {
            CommitAction::CompleteIsolatedImport {
                snp_id_block: self.snp_id_block,
                host_data: self.host_data,
                vmsa_count: VMSA_COUNT,
            }
        } else {
            CommitAction::Done
        }
    }

    /// Tells the pipeline that the pending action has been performed.
    pub fn succeeded(&mut self)
        ensures
            final(self)@ == old(self)@.advanced(),
            final(self)@.wf(),
    {
        proof {
            use_type_invariant(&*self);
        }
        if self.imported < self.groups.len() {
            self.imported = self.imported + 1;
        } else if self.written < self.vp_count {
            self.written = self.written + 1;
        } else {
            self.completed = true;
        }
    }

    /// The error with which the commit ends where the pending action fails:
    /// which it is says which stage failed.
    pub fn failed(&self) -> (error: Option<Error>)
        ensures
            error == self@.failure(),
    {
        proof {
            use_type_invariant(self);
        }
        if self.imported < self.groups.len() {
            Some(Error::ImportIsolatedPages)
        } else if self.written < self.vp_count {
            Some(Error::SetVmsa)
        } else if !self.completed {
            Some(Error::CompleteIsolatedImport)
        } else {
            None
        }
    }
}

} // verus!

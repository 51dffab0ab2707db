//! The directive interpreter: one pass over the directives of an image, in
//! their order. Each directive changes the interpreter's state and may ask
//! for one action of the page-import sink, which the caller performs.

use crate::bytes::{copy_of, le_bytes, pad_to, padded, push_le_bytes};
use crate::cmdline::{command_line_bytes, first_nul, nul_free};
use crate::directive::{Directive, IgvmLoadedInfo, InfoModel};
use crate::error::{Error, Failure, Violation};
use crate::memmap::{encode_memory_map, encoded_map, generate_memory_map, memory_map_of};
use crate::page::{
    canonical_cpuid_info, classification, classify, cpuid_info, lemma_canonical_cpuid_info,
    BootPageAcceptance, GpaPages, IsolatedPageSize, IsolatedPageType, PageDataFlags, PageDataType,
    HV_PAGE_SIZE,
};
use crate::params::{declared, filled, taken, AreaModel, Parameter, ParameterAreas};
use vstd::prelude::*;
use vstd::string::StringSliceAdditionalSpecFns;

verus! {

/// The kind of memory that the guest is to have at startup.
#[derive(Debug, Clone, Copy, PartialEq, Eq, Structural)]
pub enum StartupMemoryType {
    /// Ordinary RAM.
    Ram,
}

/// What the interpreter asks of the page-import sink for one directive.
#[derive(Debug, Clone, PartialEq, Eq)]
pub enum SinkAction {
    /// Nothing is asked.
    Nothing,
    /// Write `data` into the guest, starting at page `page_base`, as
    /// `page_count` pages that are accepted as `acceptance` says.
    ImportPages { page_base: u64, page_count: u64, acceptance: BootPageAcceptance, data: Vec<u8> },
    /// Check that `page_count` pages of memory of the type `memory_type` are
    /// there from page `page_base`.
    VerifyStartupMemory { page_base: u64, page_count: u64, memory_type: StartupMemoryType },
}

/// An action of the page-import sink, as a value.
pub enum ActionModel {
    Nothing,
    ImportPages { page_base: u64, page_count: u64, acceptance: BootPageAcceptance, data: Seq<u8> },
    VerifyStartupMemory { page_base: u64, page_count: u64, memory_type: StartupMemoryType },
}

impl View for SinkAction {
    type V = ActionModel;

    open spec fn view(&self) -> ActionModel {
        match self {
            SinkAction::Nothing => ActionModel::Nothing,
            SinkAction::ImportPages { page_base, page_count, acceptance, data } => {
                ActionModel::ImportPages {
                    page_base: *page_base,
                    page_count: *page_count,
                    acceptance: *acceptance,
                    data: data@,
                }
            },
            SinkAction::VerifyStartupMemory { page_base, page_count, memory_type } => {
                ActionModel::VerifyStartupMemory {
                    page_base: *page_base,
                    page_count: *page_count,
                    memory_type: *memory_type,
                }
            },
        }
    }
}

impl ActionModel {
    /// The error with which the load ends where the sink fails to perform the
    /// action.
    pub open spec fn failure(self) -> Option<Error> {
        match self {
            ActionModel::Nothing => None,
            _ => Some(Error::Loader),
        }
    }

    /// What the pages of an import hold once it is performed: the data, and
    /// zeros from its end to the end of the last page.
    pub open spec fn page_image(self) -> Seq<u8> {
        match self {
            ActionModel::ImportPages { page_count, data, .. } => padded(
                data,
                (page_count * HV_PAGE_SIZE) as nat,
            ),
            _ => Seq::empty(),
        }
    }
}

impl SinkAction {
    /// The error with which the load ends where the sink fails to perform the
    /// action.
    pub fn failed(&self) -> (error: Option<Error>)
        ensures
            error == self@.failure(),
    {
        match self {
            SinkAction::Nothing => None,
            _ => Some(Error::Loader),
        }
    }

    /// What the pages of an import hold once it is performed: the data, and
    /// zeros from its end to the end of the last page. `None` where that is
    /// more than this machine can hold.
    pub fn page_image(&self) -> (image: Option<Vec<u8>>)
        ensures
            match image {
                Some(bytes) => bytes@ == self@.page_image(),
                None => self@ matches ActionModel::ImportPages { page_count, .. } && page_count
                    * HV_PAGE_SIZE > usize::MAX,
            },
    {
        match self {
            SinkAction::ImportPages { page_base: _, page_count, acceptance: _, data } => {
                let len: u128 = *page_count as u128 * HV_PAGE_SIZE as u128;
                if len > usize::MAX as u128 {
                    None
                } else {
                    Some(pad_to(data.as_slice(), len as usize))
                }
            },
            _ => Some(Vec::new()),
        }
    }
}

/// The state of an interpreter, as a value.
pub struct InterpreterModel {
    /// The compatibility mask that is active on the platform.
    pub mask: u32,
    /// The command line, as a C string.
    pub command_line: Seq<u8>,
    /// The number of virtual processors.
    pub vp_count: u32,
    /// The guest's ranges of RAM, unless its layout could not be obtained.
    pub ram_ranges: Option<Seq<(u64, u64)>>,
    /// The parameter areas.
    pub areas: Map<u32, AreaModel>,
    /// The pages to commit to the isolation mechanism, in the directives' order.
    pub pages: Seq<GpaPages>,
    /// What was loaded so far.
    pub info: InfoModel,
}

/// The view of a list of RAM ranges that may be missing.
pub open spec fn ranges_view(ram_ranges: Option<Vec<(u64, u64)>>) -> Option<Seq<(u64, u64)>> {
    match ram_ranges {
        Some(ranges) => Some(ranges@),
        None => None,
    }
}

/// The views of a list of actions.
pub open spec fn action_models(actions: Seq<SinkAction>) -> Seq<ActionModel> {
    actions.map_values(|action: SinkAction| action@)
}

impl InterpreterModel {
    /// The state in which an interpreter starts: no parameter area, no page,
    /// nothing loaded.
    pub open spec fn initial(
        mask: u32,
        command_line: Seq<u8>,
        vp_count: u32,
        ram_ranges: Option<Seq<(u64, u64)>>,
    ) -> InterpreterModel {
        InterpreterModel {
            mask,
            command_line,
            vp_count,
            ram_ranges,
            areas: Map::empty(),
            pages: Seq::empty(),
            info: InfoModel::empty(),
        }
    }

    /// The state with one more page to commit.
    pub open spec fn with_page(self, gpa: u64, page_type: IsolatedPageType) -> InterpreterModel {
        InterpreterModel {
            pages: self.pages.push(
                GpaPages { gpa, page_type, page_size: IsolatedPageSize::Size4Kb },
            ),
            ..self
        }
    }

    /// A page-data directive: the page is classified and recorded, and its
    /// data is imported as one page. In place of the data of a CPUID page,
    /// the canonical CPUID info structure is imported.
    pub open spec fn page_data(
        self,
        gpa: u64,
        flags: PageDataFlags,
        data_type: PageDataType,
        data: Seq<u8>,
    ) -> Result<(InterpreterModel, ActionModel), Failure> {
        if data.len() != HV_PAGE_SIZE && data.len() != 0 {
            Err(Failure::Fatal(Violation::UnexpectedPageDataSize))
        } else {
            match classification(data_type, flags) {
                None => Err(Failure::Fatal(Violation::UnsupportedPageDataType)),
                Some(class) => Ok(
                    (
                        self.with_page(gpa, class.page_type),
                        ActionModel::ImportPages {
                            page_base: gpa / HV_PAGE_SIZE,
                            page_count: 1,
                            acceptance: class.acceptance,
                            data: if data_type == PageDataType::CpuidData {
                                canonical_cpuid_info()
                            } else {
                                data
                            },
                        },
                    ),
                ),
            }
        }
    }

    /// A parameter-area directive: the area is declared.
    pub open spec fn parameter_area(self, index: u32, max_size: u64, initial: Seq<u8>) -> Result<
        (InterpreterModel, ActionModel),
        Failure,
    > {
        match declared(self.areas, index, max_size, initial) {
            Ok(areas) => Ok((InterpreterModel { areas, ..self }, ActionModel::Nothing)),
            Err(violation) => Err(Failure::Fatal(violation)),
        }
    }

    /// A directive that deposits `bytes` as a parameter.
    pub open spec fn parameter(self, place: Parameter, bytes: Seq<u8>) -> Result<
        (InterpreterModel, ActionModel),
        Failure,
    > {
        match filled(self.areas, place.parameter_area_index, place.byte_offset, bytes) {
            Ok(areas) => Ok((InterpreterModel { areas, ..self }, ActionModel::Nothing)),
            Err(failure) => Err(failure),
        }
    }

    /// A memory-map directive: the memory map of the guest's RAM ranges is
    /// deposited as a parameter.
    pub open spec fn memory_map(self, place: Parameter) -> Result<
        (InterpreterModel, ActionModel),
        Failure,
    > {
        match self.ram_ranges {
            None => Err(Failure::Error(Error::InvalidGuestMemmap)),
            Some(ram_ranges) => match memory_map_of(ram_ranges) {
                None => Err(Failure::Fatal(Violation::UnalignedRamRange)),
                Some(memory_map) => self.parameter(place, encoded_map(memory_map)),
            },
        }
    }

    /// A required-memory directive: the address is recorded, and the sink is
    /// asked whether the memory is there.
    pub open spec fn required_memory(self, gpa: u64, number_of_bytes: u32) -> Result<
        (InterpreterModel, ActionModel),
        Failure,
    > {
        Ok(
            (
                InterpreterModel {
                    info: InfoModel { gpas: self.info.gpas.push(gpa), ..self.info },
                    ..self
                },
                ActionModel::VerifyStartupMemory {
                    page_base: gpa / HV_PAGE_SIZE,
                    page_count: number_of_bytes as u64 / HV_PAGE_SIZE,
                    memory_type: StartupMemoryType::Ram,
                },
            ),
        )
    }

    /// A VP-context directive: the VMSA and its address are recorded, and the
    /// page is recorded for the commit. The VMSA of processor 0 alone is
    /// imported, as a page of its own.
    pub open spec fn vp_context(self, gpa: u64, vp_index: u16, vmsa: Seq<u8>) -> Result<
        (InterpreterModel, ActionModel),
        Failure,
    > {
        if gpa % HV_PAGE_SIZE != 0 {
            Err(Failure::Fatal(Violation::UnalignedVpContext))
        } else if vmsa.len() > HV_PAGE_SIZE {
            Err(Failure::Fatal(Violation::OversizedVpContext))
        } else {
            Ok(
                (
                    InterpreterModel {
                        info: InfoModel { vmsa_gpa: gpa, vmsa, ..self.info },
                        ..self
                    }.with_page(gpa, IsolatedPageType::Vmsa),
                    if vp_index == 0 {
                        ActionModel::ImportPages {
                            page_base: gpa / HV_PAGE_SIZE,
                            page_count: 1,
                            acceptance: BootPageAcceptance::VpContext,
                            data: padded(vmsa, HV_PAGE_SIZE as nat),
                        }
                    } else {
                        ActionModel::Nothing
                    },
                ),
            )
        }
    }

    /// A parameter-insert directive: the area is taken out of the registry,
    /// its buffer is imported as the unmeasured pages of the area, and the
    /// first of them is recorded for the commit.
    pub open spec fn parameter_insert(self, gpa: u64, index: u32) -> Result<
        (InterpreterModel, ActionModel),
        Failure,
    > {
        match taken(self.areas, index) {
            Err(violation) => Err(Failure::Fatal(violation)),
            Ok((areas, data, max_size)) => Ok(
                (
                    InterpreterModel { areas, ..self }.with_page(gpa, IsolatedPageType::Unmeasured),
                    ActionModel::ImportPages {
                        page_base: gpa / HV_PAGE_SIZE,
                        page_count: max_size / HV_PAGE_SIZE,
                        acceptance: BootPageAcceptance::ExclusiveUnmeasured,
                        data,
                    },
                ),
            ),
        }
    }

    /// The state after one directive and the action that it asks for, or the
    /// failure that it ends the load with.
    pub open spec fn interpreted(self, directive: Directive) -> Result<
        (InterpreterModel, ActionModel),
        Failure,
    > {
        if !directive.targets(self.mask) {
            Err(Failure::Fatal(Violation::CompatibilityMaskMismatch))
        } else {
            match directive {
                Directive::PageData { gpa, flags, data_type, data, .. } => self.page_data(
                    gpa,
                    flags,
                    data_type,
                    data@,
                ),
                Directive::ParameterArea {
                    number_of_bytes,
                    parameter_area_index,
                    initial_data,
                } => self.parameter_area(parameter_area_index, number_of_bytes, initial_data@),
                Directive::VpCount(place) => self.parameter(
                    place,
                    le_bytes(self.vp_count as nat, 4),
                ),
                Directive::MemoryMap(place) => self.memory_map(place),
                Directive::CommandLine(place) => self.parameter(place, self.command_line),
                Directive::RequiredMemory { gpa, number_of_bytes, .. } => self.required_memory(
                    gpa,
                    number_of_bytes,
                ),
                Directive::SnpVpContext { gpa, vp_index, vmsa, .. } => self.vp_context(
                    gpa,
                    vp_index,
                    vmsa@,
                ),
                Directive::SnpIdBlock(block) => Ok(
                    (
                        InterpreterModel {
                            info: InfoModel { snp_id_block: block, ..self.info },
                            ..self
                        },
                        ActionModel::Nothing,
                    ),
                ),
                Directive::ParameterInsert { gpa, parameter_area_index, .. } => {
                    self.parameter_insert(gpa, parameter_area_index)
                },
                _ => Err(Failure::Fatal(Violation::UnsupportedDirective)),
            }
        }
    }

    /// The state after a list of directives and the actions that they ask
    /// for, in their order, or the failure of the first directive that fails.
    pub open spec fn interpreted_all(self, directives: Seq<Directive>) -> Result<
        (InterpreterModel, Seq<ActionModel>),
        Failure,
    >
        decreases directives.len(),
    {
        if directives.len() == 0 {
            Ok((self, Seq::empty()))
        } else {
            match self.interpreted_all(directives.drop_last()) {
                Err(failure) => Err(failure),
                Ok((state, actions)) => match state.interpreted(directives.last()) {
                    Err(failure) => Err(failure),
                    Ok((next, action)) => Ok((next, actions.push(action))),
                },
            }
        }
    }
}

/// The interpreter of the directives of one image.
pub struct Interpreter {
    mask: u32,
    command_line: Vec<u8>,
    vp_count: u32,
    ram_ranges: Option<Vec<(u64, u64)>>,
    areas: ParameterAreas,
    pages: Vec<GpaPages>,
    info: IgvmLoadedInfo,
}

impl View for Interpreter {
    type V = InterpreterModel;

    closed spec fn view(&self) -> InterpreterModel {
        InterpreterModel {
            mask: self.mask,
            command_line: self.command_line@,
            vp_count: self.vp_count,
            ram_ranges: ranges_view(self.ram_ranges),
            areas: self.areas@,
            pages: self.pages@,
            info: self.info@,
        }
    }
}

impl Interpreter {
    /// An interpreter for a platform whose active compatibility mask is
    /// `mask`, for a guest with the command line `cmdline`, `vp_count`
    /// virtual processors and the RAM ranges `ram_ranges` (`None` where the
    /// guest's layout could not be obtained). A command line that holds a NUL
    /// byte is refused.
    pub fn new(mask: u32, cmdline: &str, vp_count: u32, ram_ranges: Option<Vec<(u64, u64)>>) -> (result:
        Result<Interpreter, Error>)
        ensures
            match result {
                Ok(interpreter) => nul_free(cmdline.spec_bytes()) && interpreter@
                    == InterpreterModel::initial(
                    mask,
                    cmdline.spec_bytes().push(0),
                    vp_count,
                    ranges_view(ram_ranges),
                ),
                Err(error) => error matches Error::InvalidCommandLine { nul_position } && first_nul(
                    cmdline.spec_bytes(),
                    nul_position as int,
                ),
            },
    {
        match command_line_bytes(cmdline) {
            Err(error) => Err(error),
            Ok(command_line) => Ok(
                Interpreter {
                    mask,
                    command_line,
                    vp_count,
                    ram_ranges,
                    areas: ParameterAreas::new(),
                    pages: Vec::new(),
                    info: IgvmLoadedInfo::new(),
                },
            ),
        }
    }

    /// The pages that were recorded for the commit so far.
    pub fn pages(&self) -> (pages: &Vec<GpaPages>)
        ensures
            pages@ == self@.pages,
    {
        &self.pages
    }

    /// What was loaded so far.
    pub fn info(&self) -> (info: &IgvmLoadedInfo)
        ensures
            info@ == self@.info,
    {
        &self.info
    }

    /// Ends the interpretation: hands out what was loaded and the pages to
    /// commit.
    pub fn finish(self) -> (done: (IgvmLoadedInfo, Vec<GpaPages>))
        ensures
            done.0@ == self@.info,
            done.1@ == self@.pages,
    {
        (self.info, self.pages)
    }

    fn record_page(&mut self, gpa: u64, page_type: IsolatedPageType)
        ensures
            final(self)@ == old(self)@.with_page(gpa, page_type),
    {
        self.pages.push(GpaPages { gpa, page_type, page_size: IsolatedPageSize::Size4Kb });
    }

    fn deposit(&mut self, place: &Parameter, bytes: &[u8]) -> (result: Result<SinkAction, Failure>)
        ensures
            match result {
                Ok(action) => old(self)@.parameter(*place, bytes@) == Ok::<
                    (InterpreterModel, ActionModel),
                    Failure,
                >((final(self)@, action@)),
                Err(failure) => old(self)@.parameter(*place, bytes@) == Err::<
                    (InterpreterModel, ActionModel),
                    Failure,
                >(failure) && final(self)@ == old(self)@,
            },
    {
        match import_parameter(&mut self.areas, place, bytes) {
            Ok(()) => Ok(SinkAction::Nothing),
            Err(failure) => Err(failure),
        }
    }

    /// Interprets one directive: changes the state as the directive says and
    /// returns the action that the sink is to perform for it. A directive that
    /// fails leaves the state as it was.
    pub fn step(&mut self, directive: &Directive) -> (result: Result<SinkAction, Failure>)
        ensures
            match result {
                Ok(action) => old(self)@.interpreted(*directive) == Ok::<
                    (InterpreterModel, ActionModel),
                    Failure,
                >((final(self)@, action@)),
                Err(failure) => old(self)@.interpreted(*directive) == Err::<
                    (InterpreterModel, ActionModel),
                    Failure,
                >(failure) && final(self)@ == old(self)@,
            },
    {
        if !directive.is_for(self.mask) {
            return Err(Failure::Fatal(Violation::CompatibilityMaskMismatch));
        }
        match directive {
            Directive::PageData { gpa, compatibility_mask: _, flags, data_type, data } => {
                if data.len() as u64 != HV_PAGE_SIZE && data.len() != 0 {
                    return Err(Failure::Fatal(Violation::UnexpectedPageDataSize));
                }
                let class = match classify(*data_type, *flags) {
                    Ok(class) => class,
                    Err(violation) => {
                        return Err(Failure::Fatal(violation));
                    },
                };
                let import = match data_type {
                    PageDataType::CpuidData => cpuid_info(),
                    _ => copy_of(data.as_slice()),
                };
                self.record_page(*gpa, class.page_type);
                Ok(
                    SinkAction::ImportPages {
                        page_base: *gpa / HV_PAGE_SIZE,
                        page_count: 1,
                        acceptance: class.acceptance,
                        data: import,
                    },
                )
            },
            Directive::ParameterArea { number_of_bytes, parameter_area_index, initial_data } => {
                let initial = copy_of(initial_data.as_slice());
                match self.areas.declare(*parameter_area_index, *number_of_bytes, initial) {
                    Ok(()) => Ok(SinkAction::Nothing),
                    Err(violation) => Err(Failure::Fatal(violation)),
                }
            },
            Directive::VpCount(place) => {
                let mut bytes: Vec<u8> = Vec::new();
                push_le_bytes(&mut bytes, self.vp_count as u64, 4);
                self.deposit(place, bytes.as_slice())
            },
            Directive::MemoryMap(place) => {
                let memory_map = match &self.ram_ranges {
                    None => {
                        return Err(Failure::Error(Error::InvalidGuestMemmap));
                    },
                    Some(ram_ranges) => match generate_memory_map(ram_ranges.as_slice()) {
                        Ok(memory_map) => memory_map,
                        Err(violation) => {
                            return Err(Failure::Fatal(violation));
                        },
                    },
                };
                let bytes = encode_memory_map(memory_map.as_slice());
                self.deposit(place, bytes.as_slice())
            },
            Directive::CommandLine(place) => {
                let bytes = copy_of(self.command_line.as_slice());
                self.deposit(place, bytes.as_slice())
            },
            Directive::RequiredMemory {
                gpa,
                compatibility_mask: _,
                number_of_bytes,
                vtl2_protectable: _,
            } => {
                self.info.gpas.push(*gpa);
                Ok(
                    SinkAction::VerifyStartupMemory {
                        page_base: *gpa / HV_PAGE_SIZE,
                        page_count: *number_of_bytes as u64 / HV_PAGE_SIZE,
                        memory_type: StartupMemoryType::Ram,
                    },
                )
            },
            Directive::SnpVpContext { gpa, compatibility_mask: _, vp_index, vmsa } => {
                if *gpa % HV_PAGE_SIZE != 0 {
                    return Err(Failure::Fatal(Violation::UnalignedVpContext));
                }
                if vmsa.len() as u64 > HV_PAGE_SIZE {
                    return Err(Failure::Fatal(Violation::OversizedVpContext));
                }
                self.info.vmsa_gpa = *gpa;
                self.info.vmsa = copy_of(vmsa.as_slice());
                self.record_page(*gpa, IsolatedPageType::Vmsa);
                if *vp_index == 0 {
                    Ok(
                        SinkAction::ImportPages {
                            page_base: *gpa / HV_PAGE_SIZE,
                            page_count: 1,
                            acceptance: BootPageAcceptance::VpContext,
                            data: pad_to(vmsa.as_slice(), HV_PAGE_SIZE as usize),
                        },
                    )
                } else {
                    Ok(SinkAction::Nothing)
                }
            },
            Directive::SnpIdBlock(block) => {
                self.info.snp_id_block = *block;
                Ok(SinkAction::Nothing)
            },
            Directive::ParameterInsert { gpa, compatibility_mask: _, parameter_area_index } => {
                match self.areas.take_for_insert(*parameter_area_index) {
                    Err(violation) => Err(Failure::Fatal(violation)),
                    Ok((data, max_size)) => {
                        self.record_page(*gpa, IsolatedPageType::Unmeasured);
                        Ok(
                            SinkAction::ImportPages {
                                page_base: *gpa / HV_PAGE_SIZE,
                                page_count: max_size / HV_PAGE_SIZE,
                                acceptance: BootPageAcceptance::ExclusiveUnmeasured,
                                data,
                            },
                        )
                    },
                }
            },
            _ => Err(Failure::Fatal(Violation::UnsupportedDirective)),
        }
    }

    /// Interprets a list of directives in their order and returns the actions
    /// that the sink is to perform for them, in the same order. It stops at
    /// the first directive that fails, in the state that the directives
    /// before it have led to.
    pub fn run(&mut self, directives: &[Directive]) -> (result: Result<Vec<SinkAction>, Failure>)
        ensures
            match result {
                Ok(actions) => old(self)@.interpreted_all(directives@) == Ok::<
                    (InterpreterModel, Seq<ActionModel>),
                    Failure,
                >((final(self)@, action_models(actions@))),
                Err(failure) => {
                    &&& old(self)@.interpreted_all(directives@) == Err::<
                        (InterpreterModel, Seq<ActionModel>),
                        Failure,
                    >(failure)
                    &&& exists|count: int|
                        #![trigger directives@.take(count)]
                        {
                            &&& 0 <= count < directives@.len()
                            &&& old(self)@.interpreted_all(directives@.take(count)) matches Ok(
                                (state, _),
                            )
                            &&& state == final(self)@
                            &&& state.interpreted(directives@[count]) == Err::<
                                (InterpreterModel, ActionModel),
                                Failure,
                            >(failure)
                        }
                },
            },
    {
        let mut actions: Vec<SinkAction> = Vec::new();
        let mut i: usize = 0;
        assert(action_models(actions@) =~= Seq::<ActionModel>::empty());
        assert(directives@.take(0) =~= Seq::<Directive>::empty());
        while i < directives.len()
            invariant
                i <= directives.len(),
                old(self)@.interpreted_all(directives@.take(i as int)) == Ok::<
                    (InterpreterModel, Seq<ActionModel>),
                    Failure,
                >((self@, action_models(actions@))),
            decreases directives.len() - i,
        {
            proof {
                let next = directives@.take(i + 1);
                assert(next.drop_last() =~= directives@.take(i as int));
                assert(next.last() == directives@[i as int]);
            }
            let ghost before = actions@;
            match self.step(&directives[i]) {
                Err(failure) => {
                    proof {
                        lemma_failure_stays(old(self)@, directives@, i + 1);
                    }
                    return Err(failure);
                },
                Ok(action) => {
                    actions.push(action);
                    assert(action_models(actions@) =~= action_models(before).push(action@));
                },
            }
            i = i + 1;
        }
        assert(directives@.take(i as int) =~= directives@);
        Ok(actions)
    }
}

/// Deposits `parameter` in the parameter area and at the offset that `info`
/// names.
pub fn import_parameter(parameter_areas: &mut ParameterAreas, info: &Parameter, parameter: &[u8]) -> (result:
    Result<(), Failure>)
    ensures
        match result {
            Ok(()) => filled(
                old(parameter_areas)@,
                info.parameter_area_index,
                info.byte_offset,
                parameter@,
            ) == Ok::<Map<u32, AreaModel>, Failure>(final(parameter_areas)@),
            Err(failure) => filled(
                old(parameter_areas)@,
                info.parameter_area_index,
                info.byte_offset,
                parameter@,
            ) == Err::<Map<u32, AreaModel>, Failure>(failure) && final(parameter_areas)@ == old(
                parameter_areas,
            )@,
        },
{
    parameter_areas.fill(info.parameter_area_index, info.byte_offset, parameter)
}

/// A CPUID page is imported as the canonical CPUID info structure, whatever
/// data the directive brings for it: the page counts one entry, and every
/// other byte of it is zero. The directive fails only where it is not meant
/// for the platform, or brings data that is neither empty nor one page.
pub proof fn lemma_cpuid_page_is_canonical(state: InterpreterModel, directive: Directive)
    requires
        directive matches Directive::PageData { data_type, .. } && data_type
            == PageDataType::CpuidData,
    ensures
        match state.interpreted(directive) {
            Ok((_, action)) => {
                &&& action is ImportPages
                &&& action.page_image().len() == HV_PAGE_SIZE
                &&& action.page_image().subrange(0, 4) == le_bytes(1, 4)
                &&& action.page_image()[0] == 1
                &&& forall|i: int| 1 <= i < HV_PAGE_SIZE ==> action.page_image()[i] == 0
            },
            Err(failure) => if directive.targets(state.mask) {
                &&& failure == Failure::Fatal(Violation::UnexpectedPageDataSize)
                &&& directive->data@.len() != HV_PAGE_SIZE
                &&& directive->data@.len() != 0
            } else {
                failure == Failure::Fatal(Violation::CompatibilityMaskMismatch)
            },
        },
{
    lemma_canonical_cpuid_info();
    if state.interpreted(directive) is Ok {
        let action = state.interpreted(directive)->Ok_0.1;
        assert(action.page_image().subrange(0, 4) =~= canonical_cpuid_info().subrange(0, 4));
    }
}

/// A failure among the first `count` directives is the failure of the whole
/// list.
pub proof fn lemma_failure_stays(state: InterpreterModel, directives: Seq<Directive>, count: int)
    requires
        0 <= count <= directives.len(),
        state.interpreted_all(directives.take(count)) is Err,
    ensures
        state.interpreted_all(directives) == state.interpreted_all(directives.take(count)),
    decreases directives.len() - count,
{
    if count < directives.len() {
        let next = directives.take(count + 1);
        assert(next.drop_last() =~= directives.take(count));
        lemma_failure_stays(state, directives, count + 1);
    } else {
        assert(directives.take(count) =~= directives);
    }
}

} // verus!

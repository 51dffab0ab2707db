//! Pages of the guest: how a page-data directive's type and flags decide the
//! isolation page type and the acceptance policy, and how each platform
//! numbers the page types.

use crate::bytes::{le_bytes, lemma_le_bytes_len, push_le_bytes, zeros};
use crate::error::Violation;
use vstd::prelude::*;

verus! {

/// The size of a page of the guest, in bytes.
pub const HV_PAGE_SIZE: u64 = 4096;

/// By how many bits a guest address is shifted to give its page-frame number.
pub const ISOLATED_PAGE_SHIFT: u32 = 12;

/// The size of the SNP CPUID info structure, in bytes: a header of 16 bytes
/// and 64 entries of 48 bytes.
pub const CPUID_INFO_SIZE: usize = 3088;

/// The type that a page-data directive declares for its page.
#[derive(Debug, Clone, Copy, PartialEq, Eq, Structural)]
pub enum PageDataType {
    /// Normal page data.
    Normal,
    /// The secrets page.
    Secrets,
    /// The CPUID page.
    CpuidData,
    /// The CPUID extended-state page.
    CpuidXf,
    /// A type that this library does not know, by its number.
    Other(u16),
}

/// The flags of a page-data directive.
#[derive(Debug, Clone, Copy, PartialEq, Eq, Structural)]
pub struct PageDataFlags {
    /// The page is a 2 MB page.
    pub is_2mb_page: bool,
    /// The page is imported without being measured.
    pub unmeasured: bool,
    /// The page is imported as assigned but visible to the host.
    pub shared: bool,
}

/// The type under which a page is handed to the isolation mechanism.
#[derive(Debug, Clone, Copy, PartialEq, Eq, Structural)]
pub enum IsolatedPageType {
    Normal,
    Unmeasured,
    Cpuid,
    Secrets,
    Vmsa,
}

/// The size of an isolated page.
#[derive(Debug, Clone, Copy, PartialEq, Eq, Structural)]
pub enum IsolatedPageSize {
    Size4Kb,
}

/// How the page-import sink is to treat a page.
#[derive(Debug, Clone, Copy, PartialEq, Eq, Structural)]
pub enum BootPageAcceptance {
    /// Accepted by the guest alone, and measured.
    Exclusive,
    /// Accepted by the guest alone, not measured.
    ExclusiveUnmeasured,
    /// The initial state of a virtual processor.
    VpContext,
    /// The secrets page.
    SecretsPage,
    /// The CPUID page.
    CpuidPage,
}

/// What the classifier says of one page-data directive.
#[derive(Debug, Clone, Copy, PartialEq, Eq, Structural)]
pub struct PageClassification {
    pub page_type: IsolatedPageType,
    pub acceptance: BootPageAcceptance,
}

/// The hypervisor interface through which the guest is isolated; each numbers
/// the page types and sizes in its own way.
#[derive(Debug, Clone, Copy, PartialEq, Eq, Structural)]
pub enum IsolationPlatform {
    Mshv,
    Kvm,
}

/// One page that is committed to the isolation mechanism.
#[derive(Debug, Clone, Copy, PartialEq, Eq, Structural)]
pub struct GpaPages {
    /// The guest physical address of the page.
    pub gpa: u64,
    pub page_type: IsolatedPageType,
    pub page_size: IsolatedPageSize,
}

/// The classification of a page of type `data_type` with flags `flags`, where
/// the loader implements that type.
pub open spec fn classification(data_type: PageDataType, flags: PageDataFlags) -> Option<
    PageClassification,
> {
    match data_type {
        PageDataType::Normal => if flags.unmeasured {
            Some(
                PageClassification {
                    page_type: IsolatedPageType::Unmeasured,
                    acceptance: BootPageAcceptance::ExclusiveUnmeasured,
                },
            )
        } else {
            Some(
                PageClassification {
                    page_type: IsolatedPageType::Normal,
                    acceptance: BootPageAcceptance::Exclusive,
                },
            )
        },
        PageDataType::Secrets => Some(
            PageClassification {
                page_type: IsolatedPageType::Secrets,
                acceptance: BootPageAcceptance::SecretsPage,
            },
        ),
        PageDataType::CpuidData => Some(
            PageClassification {
                page_type: IsolatedPageType::Cpuid,
                acceptance: BootPageAcceptance::CpuidPage,
            },
        ),
        _ => None,
    }
}

/// Classifies a page of type `data_type` with flags `flags`. A type that the
/// loader does not implement is a violation.
pub fn classify(data_type: PageDataType, flags: PageDataFlags) -> (result: Result<
    PageClassification,
    Violation,
>)
    ensures
        match result {
            Ok(class) => classification(data_type, flags) == Some(class),
            Err(violation) => classification(data_type, flags) is None && violation
                == Violation::UnsupportedPageDataType,
        },
{
    match data_type {
        PageDataType::Normal => {
            if flags.unmeasured {
                Ok(
                    PageClassification {
                        page_type: IsolatedPageType::Unmeasured,
                        acceptance: BootPageAcceptance::ExclusiveUnmeasured,
                    },
                )
            } else {
                Ok(
                    PageClassification {
                        page_type: IsolatedPageType::Normal,
                        acceptance: BootPageAcceptance::Exclusive,
                    },
                )
            }
        },
        PageDataType::Secrets => Ok(
            PageClassification {
                page_type: IsolatedPageType::Secrets,
                acceptance: BootPageAcceptance::SecretsPage,
            },
        ),
        PageDataType::CpuidData => Ok(
            PageClassification {
                page_type: IsolatedPageType::Cpuid,
                acceptance: BootPageAcceptance::CpuidPage,
            },
        ),
        _ => Err(Violation::UnsupportedPageDataType),
    }
}

impl IsolationPlatform {
    /// The number that the platform gives to a page type.
    pub open spec fn page_type_number(self, page_type: IsolatedPageType) -> u32 {
        match self {
            IsolationPlatform::Mshv => match page_type {
                IsolatedPageType::Normal => 0u32,
                IsolatedPageType::Vmsa => 1u32,
                IsolatedPageType::Unmeasured => 3u32,
                IsolatedPageType::Secrets => 4u32,
                IsolatedPageType::Cpuid => 5u32,
            },
            IsolationPlatform::Kvm => match page_type {
                IsolatedPageType::Normal => 1u32,
                IsolatedPageType::Vmsa => 2u32,
                IsolatedPageType::Unmeasured => 4u32,
                IsolatedPageType::Secrets => 5u32,
                IsolatedPageType::Cpuid => 6u32,
            },
        }
    }

    /// The number that the platform gives to a page size.
    pub open spec fn page_size_number(self, page_size: IsolatedPageSize) -> u32 {
        match self {
            IsolationPlatform::Mshv => 0u32,
            IsolationPlatform::Kvm => 0x1000u32,
        }
    }

    /// The number that the platform gives to a page type.
    pub fn page_type_code(&self, page_type: IsolatedPageType) -> (code: u32)
        ensures
            code == self.page_type_number(page_type),
    {
        match self {
            IsolationPlatform::Mshv => match page_type {
                IsolatedPageType::Normal => 0,
                IsolatedPageType::Vmsa => 1,
                IsolatedPageType::Unmeasured => 3,
                IsolatedPageType::Secrets => 4,
                IsolatedPageType::Cpuid => 5,
            },
            IsolationPlatform::Kvm => match page_type {
                IsolatedPageType::Normal => 1,
                IsolatedPageType::Vmsa => 2,
                IsolatedPageType::Unmeasured => 4,
                IsolatedPageType::Secrets => 5,
                IsolatedPageType::Cpuid => 6,
            },
        }
    }

    /// The number that the platform gives to a page size.
    pub fn page_size_code(&self, page_size: IsolatedPageSize) -> (code: u32)
        ensures
            code == self.page_size_number(page_size),
    {
        match self {
            IsolationPlatform::Mshv => 0,
            IsolationPlatform::Kvm => 0x1000,
        }
    }
}

/// The CPUID info structure that stands in for whatever an image brings: one
/// entry counted, and every other byte zero.
pub open spec fn canonical_cpuid_info() -> Seq<u8> {
    le_bytes(1, 4) + zeros((CPUID_INFO_SIZE - 4) as nat)
}

/// The bytes of the canonical CPUID info structure.
pub fn cpuid_info() -> (info: Vec<u8>)
    ensures
        info@ == canonical_cpuid_info(),
{
    let mut info: Vec<u8> = Vec::new();
    push_le_bytes(&mut info, 1, 4);
    proof {
        lemma_le_bytes_len(1, 4);
    }
    while info.len() < CPUID_INFO_SIZE
        invariant
            4 <= info@.len() <= CPUID_INFO_SIZE,
            info@ == le_bytes(1, 4) + zeros((info@.len() - 4) as nat),
        decreases CPUID_INFO_SIZE - info.len(),
    {
        info.push(0);
    }
    info
}

/// The canonical CPUID info structure counts one entry and is zero elsewhere.
pub proof fn lemma_canonical_cpuid_info()
    ensures
        canonical_cpuid_info().len() == CPUID_INFO_SIZE,
        canonical_cpuid_info().subrange(0, 4) == le_bytes(1, 4),
        canonical_cpuid_info()[0] == 1,
        forall|i: int| 1 <= i < CPUID_INFO_SIZE ==> canonical_cpuid_info()[i] == 0,
{
    lemma_le_bytes_len(1, 4);
    reveal_with_fuel(le_bytes, 5);
    assert(canonical_cpuid_info().subrange(0, 4) =~= le_bytes(1, 4));
}

} // verus!

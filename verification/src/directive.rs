//! The directives of a decoded boot image, and the record of what was loaded.

use crate::page::{PageDataFlags, PageDataType};
use crate::params::Parameter;
use vstd::prelude::*;

verus! {

/// A signature of the SNP ID block.
#[derive(Debug, Clone, Copy, PartialEq, Eq)]
pub struct SnpIdBlockSignature {
    pub r_comp: [u8; 72],
    pub s_comp: [u8; 72],
}

/// A public key of the SNP ID block.
#[derive(Debug, Clone, Copy, PartialEq, Eq)]
pub struct SnpIdBlockPublicKey {
    pub curve: u32,
    pub reserved: u32,
    pub qx: [u8; 72],
    pub qy: [u8; 72],
}

/// The SNP ID block: the signed description of the guest that the image
/// expects, which the platform checks when the launch is completed.
#[derive(Debug, Clone, Copy, PartialEq, Eq)]
pub struct SnpIdBlock {
    pub compatibility_mask: u32,
    pub author_key_enabled: u8,
    pub reserved: [u8; 3],
    /// The expected launch digest.
    pub ld: [u8; 48],
    pub family_id: [u8; 16],
    pub image_id: [u8; 16],
    pub version: u32,
    pub guest_svn: u32,
    pub id_key_algorithm: u32,
    pub author_key_algorithm: u32,
    pub id_key_signature: SnpIdBlockSignature,
    pub id_public_key: SnpIdBlockPublicKey,
    pub author_key_signature: SnpIdBlockSignature,
    pub author_public_key: SnpIdBlockPublicKey,
}

/// One directive of a boot image.
#[derive(Debug, Clone, PartialEq, Eq)]
#[allow(inconsistent_fields)]
pub enum Directive {
    /// A page of data for the guest.
    PageData {
        gpa: u64,
        compatibility_mask: u32,
        flags: PageDataFlags,
        data_type: PageDataType,
        data: Vec<u8>,
    },
    /// The declaration of a parameter area.
    ParameterArea { number_of_bytes: u64, parameter_area_index: u32, initial_data: Vec<u8> },
    /// The number of virtual processors is deposited as a parameter.
    VpCount(Parameter),
    /// The MMIO ranges are deposited as a parameter.
    MmioRanges(Parameter),
    /// The memory map is deposited as a parameter.
    MemoryMap(Parameter),
    /// The command line is deposited as a parameter.
    CommandLine(Parameter),
    /// Memory that the image needs the guest to have.
    RequiredMemory { gpa: u64, compatibility_mask: u32, number_of_bytes: u32, vtl2_protectable: bool },
    /// The initial state of a virtual processor, as the bytes of its VMSA.
    SnpVpContext { gpa: u64, compatibility_mask: u32, vp_index: u16, vmsa: Vec<u8> },
    /// The SNP ID block.
    SnpIdBlock(SnpIdBlock),
    /// The insertion of a parameter area into the guest.
    ParameterInsert { gpa: u64, compatibility_mask: u32, parameter_area_index: u32 },
    /// A range in which the guest reports errors.
    ErrorRange { gpa: u64, compatibility_mask: u32, size_bytes: u32 },
    /// The initial state of a virtual processor under VBS.
    X64VbsVpContext { compatibility_mask: u32 },
    /// The measurement of a VBS guest.
    VbsMeasurement { compatibility_mask: u32 },
    /// A directive of any other kind, with its compatibility mask if it has one.
    Other { compatibility_mask: Option<u32> },
}

/// What was loaded from an image, for attestation and debugging.
#[derive(Debug, Clone, PartialEq, Eq)]
pub struct IgvmLoadedInfo {
    /// The guest addresses of the memory that the image requires.
    pub gpas: Vec<u64>,
    /// The guest address of the VMSA page.
    pub vmsa_gpa: u64,
    pub snp_id_block: SnpIdBlock,
    /// The bytes of the VMSA.
    pub vmsa: Vec<u8>,
}

/// What was loaded from an image, as a value.
pub struct InfoModel {
    pub gpas: Seq<u64>,
    pub vmsa_gpa: u64,
    pub snp_id_block: SnpIdBlock,
    pub vmsa: Seq<u8>,
}

impl View for IgvmLoadedInfo {
    type V = InfoModel;

    open spec fn view(&self) -> InfoModel {
        InfoModel {
            gpas: self.gpas@,
            vmsa_gpa: self.vmsa_gpa,
            snp_id_block: self.snp_id_block,
            vmsa: self.vmsa@,
        }
    }
}

/// The array of `N` zero bytes.
pub open spec fn zero_bytes<const N: usize>() -> [u8; N] {
    vstd::array::spec_array_fill_for_copy_type::<u8, N>(0u8)
}

impl SnpIdBlockSignature {
    /// The signature of which every byte is zero.
    pub open spec fn zero() -> SnpIdBlockSignature {
        SnpIdBlockSignature { r_comp: zero_bytes::<72>(), s_comp: zero_bytes::<72>() }
    }

    /// The signature of which every byte is zero.
    pub fn zeroed() -> (signature: Self)
        ensures
            signature == Self::zero(),
    {
        SnpIdBlockSignature { r_comp: [0u8; 72], s_comp: [0u8; 72] }
    }
}

impl SnpIdBlockPublicKey {
    /// The key of which every field is zero.
    pub open spec fn zero() -> SnpIdBlockPublicKey {
        SnpIdBlockPublicKey {
            curve: 0,
            reserved: 0,
            qx: zero_bytes::<72>(),
            qy: zero_bytes::<72>(),
        }
    }

    /// The key of which every field is zero.
    pub fn zeroed() -> (key: Self)
        ensures
            key == Self::zero(),
    {
        SnpIdBlockPublicKey { curve: 0, reserved: 0, qx: [0u8; 72], qy: [0u8; 72] }
    }
}

impl SnpIdBlock {
    /// The block of which every field is zero, as it is before an image sets it.
    pub open spec fn zero() -> SnpIdBlock {
        SnpIdBlock {
            compatibility_mask: 0,
            author_key_enabled: 0,
            reserved: zero_bytes::<3>(),
            ld: zero_bytes::<48>(),
            family_id: zero_bytes::<16>(),
            image_id: zero_bytes::<16>(),
            version: 0,
            guest_svn: 0,
            id_key_algorithm: 0,
            author_key_algorithm: 0,
            id_key_signature: SnpIdBlockSignature::zero(),
            id_public_key: SnpIdBlockPublicKey::zero(),
            author_key_signature: SnpIdBlockSignature::zero(),
            author_public_key: SnpIdBlockPublicKey::zero(),
        }
    }

    /// The block of which every field is zero.
    pub fn zeroed() -> (block: Self)
        ensures
            block == Self::zero(),
    {
        SnpIdBlock {
            compatibility_mask: 0,
            author_key_enabled: 0,
            reserved: [0u8; 3],
            ld: [0u8; 48],
            family_id: [0u8; 16],
            image_id: [0u8; 16],
            version: 0,
            guest_svn: 0,
            id_key_algorithm: 0,
            author_key_algorithm: 0,
            id_key_signature: SnpIdBlockSignature::zeroed(),
            id_public_key: SnpIdBlockPublicKey::zeroed(),
            author_key_signature: SnpIdBlockSignature::zeroed(),
            author_public_key: SnpIdBlockPublicKey::zeroed(),
        }
    }
}

impl InfoModel {
    /// The record of a load that has not begun: no address, no VMSA, and an
    /// ID block of zeros.
    pub open spec fn empty() -> InfoModel {
        InfoModel {
            gpas: Seq::empty(),
            vmsa_gpa: 0,
            snp_id_block: SnpIdBlock::zero(),
            vmsa: Seq::empty(),
        }
    }
}

impl IgvmLoadedInfo {
    /// The record of a load that has not begun.
    pub fn new() -> (info: Self)
        ensures
            info@ == InfoModel::empty(),
    {
        IgvmLoadedInfo {
            gpas: Vec::new(),
            vmsa_gpa: 0,
            snp_id_block: SnpIdBlock::zeroed(),
            vmsa: Vec::new(),
        }
    }
}

impl Directive {
    /// The compatibility mask that the directive declares, if its kind has one.
    pub open spec fn declared_mask(self) -> Option<u32> {
        match self {
            Directive::PageData { compatibility_mask, .. } => Some(compatibility_mask),
            Directive::ParameterArea { .. } => None,
            Directive::VpCount(_) => None,
            Directive::MmioRanges(_) => None,
            Directive::MemoryMap(_) => None,
            Directive::CommandLine(_) => None,
            Directive::RequiredMemory { compatibility_mask, .. } => Some(compatibility_mask),
            Directive::SnpVpContext { compatibility_mask, .. } => Some(compatibility_mask),
            Directive::SnpIdBlock(block) => Some(block.compatibility_mask),
            Directive::ParameterInsert { compatibility_mask, .. } => Some(compatibility_mask),
            Directive::ErrorRange { compatibility_mask, .. } => Some(compatibility_mask),
            Directive::X64VbsVpContext { compatibility_mask } => Some(compatibility_mask),
            Directive::VbsMeasurement { compatibility_mask } => Some(compatibility_mask),
            Directive::Other { compatibility_mask } => compatibility_mask,
        }
    }

    /// Whether the directive is meant for a platform whose active mask is
    /// `mask`: it declares no mask, or one that holds every bit of `mask`.
    pub open spec fn targets(self, mask: u32) -> bool {
        match self.declared_mask() {
            Some(declared) => declared & mask == mask,
            None => true,
        }
    }

    /// The compatibility mask that the directive declares, if its kind has one.
    pub fn compatibility_mask(&self) -> (declared: Option<u32>)
        ensures
            declared == self.declared_mask(),
    {
        match self {
            Directive::PageData { compatibility_mask, .. } => Some(*compatibility_mask),
            Directive::ParameterArea { .. } => None,
            Directive::VpCount(_) => None,
            Directive::MmioRanges(_) => None,
            Directive::MemoryMap(_) => None,
            Directive::CommandLine(_) => None,
            Directive::RequiredMemory { compatibility_mask, .. } => Some(*compatibility_mask),
            Directive::SnpVpContext { compatibility_mask, .. } => Some(*compatibility_mask),
            Directive::SnpIdBlock(block) => Some(block.compatibility_mask),
            Directive::ParameterInsert { compatibility_mask, .. } => Some(*compatibility_mask),
            Directive::ErrorRange { compatibility_mask, .. } => Some(*compatibility_mask),
            Directive::X64VbsVpContext { compatibility_mask } => Some(*compatibility_mask),
            Directive::VbsMeasurement { compatibility_mask } => Some(*compatibility_mask),
            Directive::Other { compatibility_mask } => *compatibility_mask,
        }
    }

    /// Whether the directive is meant for a platform whose active mask is `mask`.
    pub fn is_for(&self, mask: u32) -> (meant: bool)
        ensures
            meant == self.targets(mask),
    {
        match self.compatibility_mask() {
            Some(declared) => declared & mask == mask,
            None => true,
        }
    }
}

} // verus!


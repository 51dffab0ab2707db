use igvm_loader::directive::{
    Directive, IgvmLoadedInfo, SnpIdBlock, SnpIdBlockPublicKey, SnpIdBlockSignature,
};
use igvm_loader::error::{Error, Failure, Violation};
use igvm_loader::interp::{Interpreter, SinkAction, StartupMemoryType};
use igvm_loader::page::{
    BootPageAcceptance, GpaPages, IsolatedPageSize, IsolatedPageType, PageDataFlags, PageDataType,
};
use igvm_loader::params::Parameter;
use zerocopy::{AsBytes, FromZeroes};

const MASK: u32 = 0x1;

fn interpreter() -> Interpreter {
    Interpreter::new(MASK, "console=ttyS0", 4, Some(vec![(0, 0x1000), (0x2000, 0x3000)])).unwrap()
}

fn flags(unmeasured: bool) -> PageDataFlags {
    PageDataFlags { is_2mb_page: false, unmeasured, shared: false }
}

fn page(gpa: u64, page_type: IsolatedPageType) -> GpaPages {
    GpaPages { gpa, page_type, page_size: IsolatedPageSize::Size4Kb }
}

fn page_data(gpa: u64, data_type: PageDataType, unmeasured: bool, data: Vec<u8>) -> Directive {
    Directive::PageData { gpa, compatibility_mask: MASK, flags: flags(unmeasured), data_type, data }
}

fn area(index: u32, size: u64) -> Directive {
    Directive::ParameterArea {
        number_of_bytes: size,
        parameter_area_index: index,
        initial_data: vec![],
    }
}

fn place(index: u32, offset: u32) -> Parameter {
    Parameter { parameter_area_index: index, byte_offset: offset }
}

fn insert(gpa: u64, index: u32) -> Directive {
    Directive::ParameterInsert { gpa, compatibility_mask: MASK, parameter_area_index: index }
}

fn inserted(interpreter: &mut Interpreter, index: u32) -> Vec<u8> {
    match interpreter.step(&insert(0x10_0000, index)) {
        Ok(SinkAction::ImportPages { data, .. }) => data,
        other => panic!("no import: {:?}", other),
    }
}

fn id_block() -> SnpIdBlock {
    let signature = SnpIdBlockSignature { r_comp: [1; 72], s_comp: [2; 72] };
    let key = SnpIdBlockPublicKey { curve: 2, reserved: 0, qx: [3; 72], qy: [4; 72] };
    SnpIdBlock {
        compatibility_mask: MASK,
        author_key_enabled: 1,
        reserved: [0; 3],
        ld: [0xaa; 48],
        family_id: [0xbb; 16],
        image_id: [0xcc; 16],
        version: 1,
        guest_svn: 2,
        id_key_algorithm: 1,
        author_key_algorithm: 1,
        id_key_signature: signature,
        id_public_key: key,
        author_key_signature: signature,
        author_public_key: key,
    }
}

#[test]
fn new_interpreter_has_loaded_nothing() {
    let interpreter = interpreter();
    assert!(interpreter.pages().is_empty());
    assert_eq!(interpreter.info(), &IgvmLoadedInfo::new());
    assert_eq!(interpreter.info().gpas, Vec::<u64>::new());
    assert_eq!(interpreter.info().vmsa_gpa, 0);
    assert_eq!(interpreter.info().vmsa, Vec::<u8>::new());
    assert_eq!(interpreter.info().snp_id_block, SnpIdBlock::zeroed());
    assert_eq!(interpreter.info().snp_id_block.ld, [0u8; 48]);
    assert_eq!(interpreter.info().snp_id_block.id_public_key.qx, [0u8; 72]);
}

#[test]
fn interpreter_refuses_a_command_line_with_a_nul() {
    let result = Interpreter::new(MASK, "a\0b", 1, None);
    assert!(matches!(result, Err(Error::InvalidCommandLine { nul_position: 1 })));
}

#[test]
fn normal_page_is_imported_as_it_is() {
    let mut interpreter = interpreter();
    let data = vec![0x5a; 4096];
    let action = interpreter.step(&page_data(0x5000, PageDataType::Normal, false, data.clone()));
    assert_eq!(
        action,
        Ok(SinkAction::ImportPages {
            page_base: 5,
            page_count: 1,
            acceptance: BootPageAcceptance::Exclusive,
            data,
        })
    );
    assert_eq!(interpreter.pages(), &vec![page(0x5000, IsolatedPageType::Normal)]);
}

#[test]
fn unmeasured_and_secrets_pages_are_recorded_with_their_type() {
    let mut interpreter = interpreter();
    let unmeasured = interpreter.step(&page_data(0x1000, PageDataType::Normal, true, vec![]));
    assert_eq!(
        unmeasured,
        Ok(SinkAction::ImportPages {
            page_base: 1,
            page_count: 1,
            acceptance: BootPageAcceptance::ExclusiveUnmeasured,
            data: vec![],
        })
    );
    let secrets = interpreter.step(&page_data(0x3000, PageDataType::Secrets, false, vec![]));
    assert_eq!(
        secrets,
        Ok(SinkAction::ImportPages {
            page_base: 3,
            page_count: 1,
            acceptance: BootPageAcceptance::SecretsPage,
            data: vec![],
        })
    );
    assert_eq!(
        interpreter.pages(),
        &vec![page(0x1000, IsolatedPageType::Unmeasured), page(0x3000, IsolatedPageType::Secrets)]
    );
}

#[test]
fn page_base_is_the_address_in_pages() {
    let mut interpreter = interpreter();
    let action = interpreter.step(&page_data(0xffff_f123, PageDataType::Normal, false, vec![]));
    assert!(matches!(action, Ok(SinkAction::ImportPages { page_base: 0xf_ffff, .. })));
}

#[test]
fn cpuid_page_is_imported_as_the_canonical_structure() {
    for payload in [vec![], vec![0xffu8; 4096], vec![0x00u8; 4096]] {
        let mut interpreter = interpreter();
        let action = interpreter
            .step(&page_data(0x7000, PageDataType::CpuidData, false, payload))
            .unwrap();
        assert!(matches!(
            action,
            SinkAction::ImportPages {
                page_base: 7,
                page_count: 1,
                acceptance: BootPageAcceptance::CpuidPage,
                ..
            }
        ));
        let image = action.page_image().unwrap();
        assert_eq!(image.len(), 4096);
        assert_eq!(u32::from_le_bytes([image[0], image[1], image[2], image[3]]), 1);
        assert!(image[4..].iter().all(|byte| *byte == 0));
        assert_eq!(interpreter.pages(), &vec![page(0x7000, IsolatedPageType::Cpuid)]);
    }
}

#[test]
fn page_data_of_another_size_is_a_violation() {
    for len in [1usize, 4095, 4097, 8192] {
        let mut interpreter = interpreter();
        assert_eq!(
            interpreter.step(&page_data(0, PageDataType::Normal, false, vec![0; len])),
            Err(Failure::Fatal(Violation::UnexpectedPageDataSize))
        );
        assert_eq!(
            interpreter.step(&page_data(0, PageDataType::CpuidData, false, vec![0; len])),
            Err(Failure::Fatal(Violation::UnexpectedPageDataSize))
        );
        assert!(interpreter.pages().is_empty());
    }
}

#[test]
fn page_data_of_an_unknown_type_is_a_violation() {
    let mut interpreter = interpreter();
    assert_eq!(
        interpreter.step(&page_data(0, PageDataType::CpuidXf, false, vec![])),
        Err(Failure::Fatal(Violation::UnsupportedPageDataType))
    );
    assert_eq!(
        interpreter.step(&page_data(0, PageDataType::Other(9), false, vec![0; 4096])),
        Err(Failure::Fatal(Violation::UnsupportedPageDataType))
    );
    assert_eq!(
        interpreter.step(&page_data(0, PageDataType::Other(9), false, vec![0; 5])),
        Err(Failure::Fatal(Violation::UnexpectedPageDataSize))
    );
    assert!(interpreter.pages().is_empty());
}

#[test]
fn directive_for_another_platform_is_a_violation() {
    let mut interpreter = Interpreter::new(0b0110, "", 1, None).unwrap();
    let mismatch = Err(Failure::Fatal(Violation::CompatibilityMaskMismatch));
    let with_mask = |compatibility_mask: u32| Directive::PageData {
        gpa: 0,
        compatibility_mask,
        flags: flags(false),
        data_type: PageDataType::Normal,
        data: vec![],
    };
    assert_eq!(interpreter.step(&with_mask(0b0100)), mismatch);
    assert_eq!(interpreter.step(&with_mask(0b1001)), mismatch);
    assert_eq!(interpreter.step(&with_mask(0)), mismatch);
    assert!(interpreter.step(&with_mask(0b0110)).is_ok());
    assert!(interpreter.step(&with_mask(0b1111)).is_ok());
    assert_eq!(
        interpreter.step(&Directive::Other { compatibility_mask: Some(0b0001) }),
        mismatch
    );
    assert_eq!(
        interpreter.step(&Directive::ErrorRange { gpa: 0, compatibility_mask: 1, size_bytes: 0 }),
        mismatch
    );
    assert_eq!(interpreter.pages().len(), 2);
}

#[test]
fn directives_without_a_mask_are_for_every_platform() {
    let mut interpreter = Interpreter::new(0xffff_ffff, "", 1, None).unwrap();
    assert_eq!(area(0, 0x1000).compatibility_mask(), None);
    assert!(area(0, 0x1000).is_for(0xffff_ffff));
    assert_eq!(interpreter.step(&area(0, 0x1000)), Ok(SinkAction::Nothing));
    assert_eq!(interpreter.step(&Directive::VpCount(place(0, 0))), Ok(SinkAction::Nothing));
    assert_eq!(insert(0, 0).compatibility_mask(), Some(MASK));
    assert!(!insert(0, 0).is_for(0xffff_ffff));
    assert!(insert(0, 0).is_for(MASK));
    assert!(insert(0, 0).is_for(0));
}

#[test]
fn vp_count_is_deposited_in_its_width() {
    let mut interpreter = Interpreter::new(MASK, "", 0x0102_0304, None).unwrap();
    interpreter.step(&area(0, 0x1000)).unwrap();
    assert_eq!(interpreter.step(&Directive::VpCount(place(0, 2))), Ok(SinkAction::Nothing));
    let data = inserted(&mut interpreter, 0);
    assert_eq!(data, vec![0, 0, 4, 3, 2, 1]);
    if 1u16.to_ne_bytes()[0] == 1 {
        assert_eq!(&data[2..], 0x0102_0304u32.as_bytes());
    }
}

#[test]
fn command_line_is_deposited_as_a_c_string() {
    let mut interpreter = interpreter();
    interpreter.step(&area(1, 0x1000)).unwrap();
    assert_eq!(interpreter.step(&Directive::CommandLine(place(1, 0))), Ok(SinkAction::Nothing));
    assert_eq!(inserted(&mut interpreter, 1), b"console=ttyS0\0".to_vec());
}

#[test]
fn memory_map_is_deposited_entry_by_entry() {
    let mut interpreter = interpreter();
    interpreter.step(&area(0, 0x1000)).unwrap();
    assert_eq!(interpreter.step(&Directive::MemoryMap(place(0, 0))), Ok(SinkAction::Nothing));
    let data = inserted(&mut interpreter, 0);
    let entries = [
        igvm_defs::IGVM_VHS_MEMORY_MAP_ENTRY {
            starting_gpa_page_number: 0,
            number_of_pages: 1,
            entry_type: igvm_defs::MemoryMapEntryType::MEMORY,
            flags: 0,
            reserved: 0,
        },
        igvm_defs::IGVM_VHS_MEMORY_MAP_ENTRY {
            starting_gpa_page_number: 2,
            number_of_pages: 1,
            entry_type: igvm_defs::MemoryMapEntryType::MEMORY,
            flags: 0,
            reserved: 0,
        },
    ];
    assert_eq!(data.len(), 48);
    assert_eq!(u64::from_le_bytes(data[0..8].try_into().unwrap()), 0);
    assert_eq!(u64::from_le_bytes(data[8..16].try_into().unwrap()), 1);
    assert_eq!(u64::from_le_bytes(data[24..32].try_into().unwrap()), 2);
    assert_eq!(u64::from_le_bytes(data[32..40].try_into().unwrap()), 1);
    if 1u16.to_ne_bytes()[0] == 1 {
        assert_eq!(data, entries.as_bytes().to_vec());
    }
}

#[test]
fn memory_map_without_a_layout_is_an_error() {
    let mut interpreter = Interpreter::new(MASK, "", 1, None).unwrap();
    interpreter.step(&area(0, 0x1000)).unwrap();
    assert_eq!(
        interpreter.step(&Directive::MemoryMap(place(0, 0))),
        Err(Failure::Error(Error::InvalidGuestMemmap))
    );
    assert_eq!(
        interpreter.step(&Directive::MemoryMap(place(9, 0))),
        Err(Failure::Error(Error::InvalidGuestMemmap))
    );
}

#[test]
fn memory_map_of_unaligned_ram_is_a_violation() {
    let mut interpreter = Interpreter::new(MASK, "", 1, Some(vec![(0, 0x1800)])).unwrap();
    interpreter.step(&area(0, 0x1000)).unwrap();
    assert_eq!(
        interpreter.step(&Directive::MemoryMap(place(0, 0))),
        Err(Failure::Fatal(Violation::UnalignedRamRange))
    );
}

#[test]
fn parameter_that_does_not_fit_is_too_large() {
    let mut interpreter = interpreter();
    interpreter.step(&area(0, 16)).unwrap();
    let too_large = Err(Failure::Error(Error::ParameterTooLarge));
    assert_eq!(interpreter.step(&Directive::VpCount(place(0, 13))), too_large);
    assert_eq!(interpreter.step(&Directive::CommandLine(place(0, 3))), too_large);
    assert_eq!(interpreter.step(&Directive::MemoryMap(place(0, 0))), too_large);
    assert_eq!(interpreter.step(&Directive::VpCount(place(0, 12))), Ok(SinkAction::Nothing));
    assert_eq!(interpreter.step(&Directive::CommandLine(place(0, 2))), Ok(SinkAction::Nothing));
    let mut expected = vec![0, 0];
    expected.extend_from_slice(b"console=ttyS0\0");
    assert_eq!(inserted(&mut interpreter, 0), expected);
}

#[test]
fn parameter_for_an_unknown_area_is_a_violation() {
    let mut interpreter = interpreter();
    let unknown = Err(Failure::Fatal(Violation::UnknownParameterArea));
    assert_eq!(interpreter.step(&Directive::VpCount(place(0, 0))), unknown);
    assert_eq!(interpreter.step(&Directive::CommandLine(place(0, 0))), unknown);
    assert_eq!(interpreter.step(&Directive::MemoryMap(place(0, 0))), unknown);
    assert_eq!(interpreter.step(&insert(0, 0)), unknown);
}

#[test]
fn parameter_area_cannot_be_declared_twice() {
    let mut interpreter = interpreter();
    assert_eq!(interpreter.step(&area(0, 0x1000)), Ok(SinkAction::Nothing));
    assert_eq!(
        interpreter.step(&area(0, 0x1000)),
        Err(Failure::Fatal(Violation::DuplicateParameterArea))
    );
}

#[test]
fn parameter_insert_imports_the_area_unmeasured() {
    let mut interpreter = interpreter();
    let declaration = Directive::ParameterArea {
        number_of_bytes: 0x3000,
        parameter_area_index: 4,
        initial_data: vec![0xee; 4],
    };
    interpreter.step(&declaration).unwrap();
    interpreter.step(&Directive::VpCount(place(4, 1))).unwrap();
    assert_eq!(
        interpreter.step(&insert(0x8000, 4)),
        Ok(SinkAction::ImportPages {
            page_base: 8,
            page_count: 3,
            acceptance: BootPageAcceptance::ExclusiveUnmeasured,
            data: vec![0xee, 4, 0, 0, 0],
        })
    );
    assert_eq!(interpreter.pages(), &vec![page(0x8000, IsolatedPageType::Unmeasured)]);
}

#[test]
fn parameter_area_is_spent_once_inserted() {
    let mut interpreter = interpreter();
    interpreter.step(&area(0, 0x1000)).unwrap();
    interpreter.step(&insert(0x8000, 0)).unwrap();
    let spent = Err(Failure::Fatal(Violation::ParameterAreaInserted));
    assert_eq!(interpreter.step(&insert(0x8000, 0)), spent);
    assert_eq!(interpreter.step(&Directive::VpCount(place(0, 0))), spent);
    assert_eq!(interpreter.step(&Directive::CommandLine(place(0, 0))), spent);
    assert_eq!(
        interpreter.step(&area(0, 0x1000)),
        Err(Failure::Fatal(Violation::DuplicateParameterArea))
    );
    assert_eq!(interpreter.pages().len(), 1);
}

#[test]
fn required_memory_is_recorded_and_verified() {
    let mut interpreter = interpreter();
    let required = |gpa: u64, number_of_bytes: u32| Directive::RequiredMemory {
        gpa,
        compatibility_mask: MASK,
        number_of_bytes,
        vtl2_protectable: false,
    };
    assert_eq!(
        interpreter.step(&required(0x10_0000, 0x20_0000)),
        Ok(SinkAction::VerifyStartupMemory {
            page_base: 0x100,
            page_count: 0x200,
            memory_type: StartupMemoryType::Ram,
        })
    );
    assert_eq!(
        interpreter.step(&required(0x4000, 0x1fff)),
        Ok(SinkAction::VerifyStartupMemory {
            page_base: 4,
            page_count: 1,
            memory_type: StartupMemoryType::Ram,
        })
    );
    assert_eq!(interpreter.info().gpas, vec![0x10_0000, 0x4000]);
    assert!(interpreter.pages().is_empty());
}

#[test]
fn vp_context_of_processor_zero_is_imported_as_a_page() {
    let mut vmsa = igvm::snp_defs::SevVmsa::new_zeroed();
    vmsa.rip = 0xffff_fff0;
    vmsa.rsp = 0x1234;
    let bytes = vmsa.as_bytes().to_vec();
    assert!(bytes.len() <= 4096);
    let mut interpreter = interpreter();
    let action = interpreter
        .step(&Directive::SnpVpContext {
            gpa: 0xffff_ffff_f000,
            compatibility_mask: MASK,
            vp_index: 0,
            vmsa: bytes.clone(),
        })
        .unwrap();
    let mut padded = bytes.clone();
    padded.resize(4096, 0);
    assert_eq!(
        action,
        SinkAction::ImportPages {
            page_base: 0xf_ffff_ffff,
            page_count: 1,
            acceptance: BootPageAcceptance::VpContext,
            data: padded,
        }
    );
    assert_eq!(interpreter.info().vmsa_gpa, 0xffff_ffff_f000);
    assert_eq!(interpreter.info().vmsa, bytes);
    assert_eq!(interpreter.pages(), &vec![page(0xffff_ffff_f000, IsolatedPageType::Vmsa)]);
}

#[test]
fn vp_context_of_another_processor_is_recorded_only() {
    let mut interpreter = interpreter();
    let action = interpreter.step(&Directive::SnpVpContext {
        gpa: 0x9000,
        compatibility_mask: MASK,
        vp_index: 1,
        vmsa: vec![1, 2, 3],
    });
    assert_eq!(action, Ok(SinkAction::Nothing));
    assert_eq!(interpreter.info().vmsa_gpa, 0x9000);
    assert_eq!(interpreter.info().vmsa, vec![1, 2, 3]);
    assert_eq!(interpreter.pages(), &vec![page(0x9000, IsolatedPageType::Vmsa)]);
}

#[test]
fn vp_context_must_be_one_aligned_page() {
    let mut interpreter = interpreter();
    let context = |gpa: u64, len: usize| Directive::SnpVpContext {
        gpa,
        compatibility_mask: MASK,
        vp_index: 0,
        vmsa: vec![0; len],
    };
    assert_eq!(
        interpreter.step(&context(0x9001, 8)),
        Err(Failure::Fatal(Violation::UnalignedVpContext))
    );
    assert_eq!(
        interpreter.step(&context(0x9000, 4097)),
        Err(Failure::Fatal(Violation::OversizedVpContext))
    );
    assert_eq!(
        interpreter.step(&context(0x9001, 4097)),
        Err(Failure::Fatal(Violation::UnalignedVpContext))
    );
    assert!(interpreter.pages().is_empty());
    assert_eq!(interpreter.info().vmsa_gpa, 0);
    assert!(interpreter.step(&context(0x9000, 4096)).is_ok());
}

#[test]
fn id_block_is_copied_into_the_record() {
    let mut interpreter = interpreter();
    assert_eq!(interpreter.step(&Directive::SnpIdBlock(id_block())), Ok(SinkAction::Nothing));
    assert_eq!(interpreter.info().snp_id_block, id_block());
    assert!(interpreter.pages().is_empty());
    assert!(interpreter.info().gpas.is_empty());
}

#[test]
fn other_directives_are_unsupported() {
    let mut interpreter = interpreter();
    let unsupported = Err(Failure::Fatal(Violation::UnsupportedDirective));
    assert_eq!(interpreter.step(&Directive::MmioRanges(place(0, 0))), unsupported);
    assert_eq!(
        interpreter.step(&Directive::ErrorRange {
            gpa: 0,
            compatibility_mask: MASK,
            size_bytes: 0x1000
        }),
        unsupported
    );
    assert_eq!(
        interpreter.step(&Directive::X64VbsVpContext { compatibility_mask: MASK }),
        unsupported
    );
    assert_eq!(
        interpreter.step(&Directive::VbsMeasurement { compatibility_mask: MASK }),
        unsupported
    );
    assert_eq!(interpreter.step(&Directive::Other { compatibility_mask: None }), unsupported);
    assert_eq!(
        interpreter.step(&Directive::Other { compatibility_mask: Some(MASK) }),
        unsupported
    );
}

#[test]
fn failed_directive_leaves_the_state_as_it_was() {
    let mut interpreter = interpreter();
    interpreter.step(&area(0, 8)).unwrap();
    interpreter.step(&Directive::VpCount(place(0, 0))).unwrap();
    interpreter.step(&page_data(0x1000, PageDataType::Normal, false, vec![])).unwrap();
    let pages = interpreter.pages().clone();
    let info = interpreter.info().clone();
    assert!(interpreter.step(&Directive::CommandLine(place(0, 0))).is_err());
    assert!(interpreter.step(&Directive::MmioRanges(place(0, 0))).is_err());
    assert!(interpreter.step(&page_data(0, PageDataType::Normal, false, vec![1])).is_err());
    assert_eq!(interpreter.pages(), &pages);
    assert_eq!(interpreter.info(), &info);
    assert_eq!(inserted(&mut interpreter, 0), vec![4, 0, 0, 0]);
}

#[test]
fn run_interprets_in_order_and_stops_at_the_first_failure() {
    let mut interpreter = interpreter();
    let directives = vec![
        area(0, 0x1000),
        Directive::CommandLine(place(0, 0)),
        page_data(0x2000, PageDataType::Normal, false, vec![]),
        insert(0x1000, 0),
    ];
    let actions = interpreter.run(&directives).unwrap();
    assert_eq!(actions.len(), 4);
    assert_eq!(actions[0], SinkAction::Nothing);
    assert_eq!(actions[1], SinkAction::Nothing);
    assert!(matches!(actions[2], SinkAction::ImportPages { page_base: 2, .. }));
    assert!(matches!(actions[3], SinkAction::ImportPages { page_base: 1, .. }));
    assert_eq!(
        interpreter.pages(),
        &vec![page(0x2000, IsolatedPageType::Normal), page(0x1000, IsolatedPageType::Unmeasured)]
    );

    let mut failing = self::interpreter();
    let directives = vec![
        area(0, 4),
        Directive::CommandLine(place(0, 0)),
        Directive::MmioRanges(place(0, 0)),
    ];
    assert_eq!(failing.run(&directives), Err(Failure::Error(Error::ParameterTooLarge)));
    let (info, pages) = failing.finish();
    assert_eq!(info, IgvmLoadedInfo::new());
    assert!(pages.is_empty());
}

#[test]
fn page_image_pads_the_data_to_whole_pages() {
    let import = SinkAction::ImportPages {
        page_base: 0,
        page_count: 2,
        acceptance: BootPageAcceptance::ExclusiveUnmeasured,
        data: vec![1, 2, 3],
    };
    let image = import.page_image().unwrap();
    assert_eq!(image.len(), 8192);
    assert_eq!(&image[..3], &[1, 2, 3]);
    assert!(image[3..].iter().all(|byte| *byte == 0));
    assert_eq!(SinkAction::Nothing.page_image(), Some(vec![]));
    let verify = SinkAction::VerifyStartupMemory {
            page_base: 1,
            page_count: 1,
            memory_type: StartupMemoryType::Ram,
        };
    assert_eq!(verify.page_image(), Some(vec![]));
    let none = SinkAction::ImportPages {
        page_base: 0,
        page_count: 0,
        acceptance: BootPageAcceptance::Exclusive,
        data: vec![1],
    };
    assert_eq!(none.page_image(), Some(vec![]));
}

#[test]
fn sink_failure_is_a_loader_error() {
    let import = SinkAction::ImportPages {
        page_base: 0,
        page_count: 1,
        acceptance: BootPageAcceptance::Exclusive,
        data: vec![],
    };
    let verify = SinkAction::VerifyStartupMemory {
        page_base: 0,
        page_count: 1,
        memory_type: StartupMemoryType::Ram,
    };
    assert_eq!(import.failed(), Some(Error::Loader));
    assert_eq!(verify.failed(), Some(Error::Loader));
    assert_eq!(SinkAction::Nothing.failed(), None);
}

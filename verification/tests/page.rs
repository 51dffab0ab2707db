use igvm_loader::error::Violation;
use igvm_loader::page::{
    classify, cpuid_info, BootPageAcceptance, IsolatedPageSize, IsolatedPageType,
    IsolationPlatform, PageClassification, PageDataFlags, PageDataType, CPUID_INFO_SIZE,
    HV_PAGE_SIZE, ISOLATED_PAGE_SHIFT,
};

fn flags(unmeasured: bool) -> PageDataFlags {
    PageDataFlags { is_2mb_page: false, unmeasured, shared: false }
}

#[test]
fn normal_page_is_measured_and_exclusive() {
    assert_eq!(
        classify(PageDataType::Normal, flags(false)),
        Ok(PageClassification {
            page_type: IsolatedPageType::Normal,
            acceptance: BootPageAcceptance::Exclusive,
        })
    );
}

#[test]
fn unmeasured_normal_page_is_unmeasured() {
    assert_eq!(
        classify(PageDataType::Normal, flags(true)),
        Ok(PageClassification {
            page_type: IsolatedPageType::Unmeasured,
            acceptance: BootPageAcceptance::ExclusiveUnmeasured,
        })
    );
}

#[test]
fn secrets_and_cpuid_pages_have_their_own_type() {
    let secrets = PageClassification {
        page_type: IsolatedPageType::Secrets,
        acceptance: BootPageAcceptance::SecretsPage,
    };
    let cpuid = PageClassification {
        page_type: IsolatedPageType::Cpuid,
        acceptance: BootPageAcceptance::CpuidPage,
    };
    assert_eq!(classify(PageDataType::Secrets, flags(false)), Ok(secrets));
    assert_eq!(classify(PageDataType::Secrets, flags(true)), Ok(secrets));
    assert_eq!(classify(PageDataType::CpuidData, flags(false)), Ok(cpuid));
    assert_eq!(classify(PageDataType::CpuidData, flags(true)), Ok(cpuid));
}

#[test]
fn other_page_types_are_unsupported() {
    assert_eq!(
        classify(PageDataType::CpuidXf, flags(false)),
        Err(Violation::UnsupportedPageDataType)
    );
    assert_eq!(
        classify(PageDataType::Other(4), flags(true)),
        Err(Violation::UnsupportedPageDataType)
    );
}

#[test]
fn flags_other_than_unmeasured_do_not_change_the_class() {
    let all = PageDataFlags { is_2mb_page: true, unmeasured: false, shared: true };
    assert_eq!(classify(PageDataType::Normal, all), classify(PageDataType::Normal, flags(false)));
}

#[test]
fn mshv_numbers_are_those_of_the_bindings() {
    let mshv = IsolationPlatform::Mshv;
    assert_eq!(
        mshv.page_type_code(IsolatedPageType::Normal),
        mshv_bindings::hv_isolated_page_type_HV_ISOLATED_PAGE_TYPE_NORMAL
    );
    assert_eq!(
        mshv.page_type_code(IsolatedPageType::Unmeasured),
        mshv_bindings::hv_isolated_page_type_HV_ISOLATED_PAGE_TYPE_UNMEASURED
    );
    assert_eq!(
        mshv.page_type_code(IsolatedPageType::Cpuid),
        mshv_bindings::hv_isolated_page_type_HV_ISOLATED_PAGE_TYPE_CPUID
    );
    assert_eq!(
        mshv.page_type_code(IsolatedPageType::Secrets),
        mshv_bindings::hv_isolated_page_type_HV_ISOLATED_PAGE_TYPE_SECRETS
    );
    assert_eq!(
        mshv.page_type_code(IsolatedPageType::Vmsa),
        mshv_bindings::hv_isolated_page_type_HV_ISOLATED_PAGE_TYPE_VMSA
    );
    assert_eq!(
        mshv.page_size_code(IsolatedPageSize::Size4Kb),
        mshv_bindings::hv_isolated_page_size_HV_ISOLATED_PAGE_SIZE_4KB
    );
    assert_eq!(ISOLATED_PAGE_SHIFT, mshv_bindings::HV_HYP_PAGE_SHIFT);
}

#[test]
fn mshv_numbers() {
    let mshv = IsolationPlatform::Mshv;
    assert_eq!(mshv.page_type_code(IsolatedPageType::Normal), 0);
    assert_eq!(mshv.page_type_code(IsolatedPageType::Vmsa), 1);
    assert_eq!(mshv.page_type_code(IsolatedPageType::Unmeasured), 3);
    assert_eq!(mshv.page_type_code(IsolatedPageType::Secrets), 4);
    assert_eq!(mshv.page_type_code(IsolatedPageType::Cpuid), 5);
    assert_eq!(mshv.page_size_code(IsolatedPageSize::Size4Kb), 0);
}

#[test]
fn kvm_numbers() {
    let kvm = IsolationPlatform::Kvm;
    assert_eq!(kvm.page_type_code(IsolatedPageType::Normal), 1);
    assert_eq!(kvm.page_type_code(IsolatedPageType::Vmsa), 2);
    assert_eq!(kvm.page_type_code(IsolatedPageType::Unmeasured), 4);
    assert_eq!(kvm.page_type_code(IsolatedPageType::Secrets), 5);
    assert_eq!(kvm.page_type_code(IsolatedPageType::Cpuid), 6);
    assert_eq!(kvm.page_size_code(IsolatedPageSize::Size4Kb), 0x1000);
}

#[test]
fn page_constants() {
    assert_eq!(HV_PAGE_SIZE, 4096);
    assert_eq!(1u64 << ISOLATED_PAGE_SHIFT, HV_PAGE_SIZE);
    assert_eq!(HV_PAGE_SIZE, igvm_defs::PAGE_SIZE_4K);
    assert_eq!(CPUID_INFO_SIZE, 16 + 64 * 48);
}

#[test]
fn cpuid_info_counts_one_entry_and_is_zero_elsewhere() {
    let info = cpuid_info();
    assert_eq!(info.len(), 3088);
    assert_eq!(u32::from_le_bytes([info[0], info[1], info[2], info[3]]), 1);
    assert_eq!(&info[..4], &[1, 0, 0, 0]);
    assert!(info[4..].iter().all(|byte| *byte == 0));
}

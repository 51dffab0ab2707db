//! The load of a whole image: the directives are interpreted in their order,
//! and the commit pipeline is made from the pages that they recorded.

use crate::bytes::{padded, write_at, zeros};
use crate::cmdline::{first_nul, nul_free};
use crate::commit::{grouped, stable_sort_of};
use crate::directive::{Directive, IgvmLoadedInfo};
use crate::error::{Error, Failure};
use crate::hostdata::{decode_host_data, hex_decodes};
use crate::interp::{
    action_models, ranges_view, ActionModel, Interpreter, InterpreterModel, SinkAction,
};
use crate::page::{
    BootPageAcceptance, GpaPages, IsolatedPageSize, IsolatedPageType, IsolationPlatform,
    HV_PAGE_SIZE,
};
use crate::params::{fits, AreaModel, Parameter};
use crate::pipeline::CommitPipeline;
use vstd::prelude::*;
use vstd::string::StringSliceAdditionalSpecFns;
use vstd::utf8::encode_utf8;

verus! {

/// What the load of an image gives: what was loaded, the actions that the
/// page-import sink is to perform, in their order, and the pipeline that
/// commits the pages once the sink has performed them.
pub struct LoadedImage {
    pub info: IgvmLoadedInfo,
    pub imports: Vec<SinkAction>,
    pub commit: CommitPipeline,
}

/// Whether `salt` is the host data that `host_data` stands for: the bytes
/// that the hex string decodes to, or 32 zero bytes where there is no string.
pub open spec fn host_data_is(host_data: Option<String>, salt: Seq<u8>) -> bool {
    match host_data {
        None => salt == zeros(32),
        Some(text) => hex_decodes(encode_utf8(text@), 32, Ok(salt)),
    }
}

/// Loads an image: interprets `directives` for a platform whose active
/// compatibility mask is `mask`, and prepares the commit on `platform`.
///
/// The guest has the command line `cmdline`, `vp_count` virtual processors
/// and the RAM ranges `ram_ranges` (`None` where its layout could not be
/// obtained); `host_data` is the hex form of the host data, if there is any.
/// The command line is checked first, then the host data, then the
/// directives in their order; the first failure ends the load.
pub fn load_igvm(
    directives: &[Directive],
    mask: u32,
    platform: IsolationPlatform,
    ram_ranges: Option<Vec<(u64, u64)>>,
    vp_count: u32,
    cmdline: &str,
    host_data: &Option<String>,
) -> (result: Result<LoadedImage, Failure>)
    ensures
        match result {
            Ok(image) => {
                &&& nul_free(cmdline.spec_bytes())
                &&& host_data_is(*host_data, image.commit@.host_data@)
                &&& InterpreterModel::initial(
                    mask,
                    cmdline.spec_bytes().push(0),
                    vp_count,
                    ranges_view(ram_ranges),
                ).interpreted_all(directives@) matches Ok((end, actions))
                &&& actions == action_models(image.imports@)
                &&& end.info == image.info@
                &&& stable_sort_of(image.commit@.pages, end.pages)
                &&& image.commit@.wf()
                &&& image.commit@.is_start()
                &&& image.commit@.platform == platform
                &&& image.commit@.vp_count == vp_count
                &&& image.commit@.snp_id_block == end.info.snp_id_block
            },
            Err(Failure::Error(Error::InvalidCommandLine { nul_position })) => first_nul(
                cmdline.spec_bytes(),
                nul_position as int,
            ),
            Err(Failure::Error(Error::FailedToDecodeHostData(error))) => {
                &&& nul_free(cmdline.spec_bytes())
                &&& *host_data matches Some(text)
                &&& hex_decodes(encode_utf8(text@), 32, Err(error))
            },
            Err(failure) => {
                &&& nul_free(cmdline.spec_bytes())
                &&& exists|salt: Seq<u8>| host_data_is(*host_data, salt)
                &&& InterpreterModel::initial(
                    mask,
                    cmdline.spec_bytes().push(0),
                    vp_count,
                    ranges_view(ram_ranges),
                ).interpreted_all(directives@) == Err::<
                    (InterpreterModel, Seq<ActionModel>),
                    Failure,
                >(failure)
            },
        },
{
    let mut interpreter = match Interpreter::new(mask, cmdline, vp_count, ram_ranges) {
        Ok(interpreter) => interpreter,
        Err(error) => {
            return Err(Failure::Error(error));
        },
    };
    let salt = match decode_host_data(host_data) {
        Ok(salt) => salt,
        Err(error) => {
            return Err(Failure::Error(error));
        },
    };
    assert(host_data_is(*host_data, salt@));
    let ghost start = interpreter@;
    let imports = match interpreter.run(directives) {
        Ok(imports) => imports,
        Err(failure) => {
            proof {
                lemma_failures_of_directives(start, directives@);
            }
            return Err(failure);
        },
    };
    let (info, pages) = interpreter.finish();
    let commit = CommitPipeline::new(platform, &pages, vp_count, info.snp_id_block, salt);
    Ok(LoadedImage { info, imports, commit })
}

/// The directives never fail for a command line or for host data: those are
/// checked before the first directive.
pub proof fn lemma_failures_of_directives(state: InterpreterModel, directives: Seq<Directive>)
    ensures
        match state.interpreted_all(directives) {
            Err(Failure::Error(Error::InvalidCommandLine { .. })) => false,
            Err(Failure::Error(Error::FailedToDecodeHostData(_))) => false,
            _ => true,
        },
    decreases directives.len(),
{
    if directives.len() > 0 {
        lemma_failures_of_directives(state, directives.drop_last());
    }
}

/// A command line reaches the guest through a parameter area: where an
/// image declares an area, deposits the command line at its start and
/// inserts the area, the load asks for one import, that of the area's pages,
/// unmeasured, which hold the command line and zeros after it; and the one
/// page that is recorded for the commit makes one group.
pub proof fn lemma_command_line_reaches_the_guest(
    start: InterpreterModel,
    directives: Seq<Directive>,
    index: u32,
    size: u64,
    gpa: u64,
)
    requires
        start.areas == Map::<u32, AreaModel>::empty(),
        start.pages == Seq::<GpaPages>::empty(),
        fits(0, start.command_line.len(), size),
        directives.len() == 3,
        directives[0] matches Directive::ParameterArea {
            number_of_bytes,
            parameter_area_index,
            initial_data,
        } && number_of_bytes == size && parameter_area_index == index && initial_data@.len() == 0,
        directives[1] == Directive::CommandLine(
            Parameter { parameter_area_index: index, byte_offset: 0 },
        ),
        directives[2] matches Directive::ParameterInsert {
            gpa: address,
            compatibility_mask,
            parameter_area_index,
        } && address == gpa && parameter_area_index == index && compatibility_mask & start.mask
            == start.mask,
    ensures
        start.interpreted_all(directives) is Ok,
        ({
            let (end, actions) = start.interpreted_all(directives)->Ok_0;
            let import = ActionModel::ImportPages {
                page_base: gpa / HV_PAGE_SIZE,
                page_count: size / HV_PAGE_SIZE,
                acceptance: BootPageAcceptance::ExclusiveUnmeasured,
                data: start.command_line,
            };
            let page = GpaPages {
                gpa,
                page_type: IsolatedPageType::Unmeasured,
                page_size: IsolatedPageSize::Size4Kb,
            };
            &&& actions == seq![ActionModel::Nothing, ActionModel::Nothing, import]
            &&& import.page_image() == padded(
                start.command_line,
                (size / HV_PAGE_SIZE * HV_PAGE_SIZE) as nat,
            )
            &&& end.pages == seq![page]
            &&& grouped(end.pages) == seq![seq![page]]
            &&& end.info == start.info
        }),
{
    let none = Seq::<Directive>::empty();
    let first = directives.take(1);
    let second = directives.take(2);
    assert(first.drop_last() =~= none);
    assert(second.drop_last() =~= first);
    assert(directives.drop_last() =~= second);
    assert(first.last() == directives[0]);
    assert(second.last() == directives[1]);
    let nothing = Seq::<ActionModel>::empty();
    assert(start.interpreted_all(none) == Ok::<(InterpreterModel, Seq<ActionModel>), Failure>(
        (start, nothing),
    ));

    assert(directives[0].targets(start.mask));
    assert(start.interpreted(directives[0]) is Ok);
    let (declared, first_action) = start.interpreted(directives[0])->Ok_0;
    assert(first_action == ActionModel::Nothing);
    assert(start.interpreted_all(first) == Ok::<(InterpreterModel, Seq<ActionModel>), Failure>(
        (declared, nothing.push(first_action)),
    ));

    assert(declared.areas[index]->data =~= Seq::<u8>::empty());
    assert(write_at(declared.areas[index]->data, 0, start.command_line) =~= start.command_line);
    assert(directives[1].targets(declared.mask));
    assert(declared.interpreted(directives[1]) is Ok);
    let (deposited, second_action) = declared.interpreted(directives[1])->Ok_0;
    assert(second_action == ActionModel::Nothing);
    assert(start.interpreted_all(second) == Ok::<(InterpreterModel, Seq<ActionModel>), Failure>(
        (deposited, nothing.push(first_action).push(second_action)),
    ));

    assert(directives[2].targets(deposited.mask));
    assert(deposited.interpreted(directives[2]) is Ok);
    let (end, third_action) = deposited.interpreted(directives[2])->Ok_0;
    assert(start.interpreted_all(directives) == Ok::<
        (InterpreterModel, Seq<ActionModel>),
        Failure,
    >((end, nothing.push(first_action).push(second_action).push(third_action))));
    assert(nothing.push(first_action).push(second_action).push(third_action) =~= seq![
        ActionModel::Nothing,
        ActionModel::Nothing,
        third_action,
    ]);
    assert(end.pages =~= seq![end.pages[0]]);
    assert(end.pages.drop_last() =~= Seq::<GpaPages>::empty());
    assert(grouped(end.pages.drop_last()) =~= Seq::<Seq<GpaPages>>::empty());
    assert(grouped(end.pages) =~= seq![seq![end.pages[0]]]);
}

} // verus!

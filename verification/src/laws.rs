//! What holds of the pipeline as a whole.
//!
//! Each proof function states one property over the models that the
//! contracts of the other modules use, so that it applies to every value
//! those functions return.

use vstd::prelude::*;
use crate::classify::friendly_message;
use crate::ident::{is_generated_id, is_hyphen_position, is_lower_hex};
use crate::outcome::{converted_response, failed_response, Failure, Status};
use crate::pipeline::{
    can_occur, failure_of, finish, initial, is_file_part, next, no_file_message,
    rejected_message, run, ActionView, EventView, StageView, UploadSessionView,
};
use crate::retrieval::{retrieval, RetrievalView};
use crate::storage::{artifact_name, artifact_path, encoder_program, transcode_arguments};
use crate::text::{ends_with, lemma_occurs_in_transitive, occurs_at, occurs_in};
use crate::validate::probe_rejects;

verus! {

/// Classification is a function of the text alone: classifying the same
/// diagnostic again gives the same message.
pub proof fn lemma_classification_is_repeatable(first: Seq<char>, second: Seq<char>)
    requires
        first == second,
    ensures
        friendly_message(first) == friendly_message(second),
{
}

/// Classification always produces a message: no diagnostic, not even the
/// empty one, is answered with an empty text.
pub proof fn lemma_classification_is_never_empty(text: Seq<char>)
    ensures
        friendly_message(text).len() > 0,
{
    reveal_strlit(
        "The input file appears to be corrupted or doesn't contain valid video/audio streams",
    );
    reveal_strlit("The file contains invalid data or is corrupted");
    reveal_strlit("FFmpeg failed to access the file. Make sure FFmpeg is properly installed.");
    reveal_strlit("Invalid arguments passed to FFmpeg. The file might be corrupted.");
    reveal_strlit("Conversion failed: ");
}

/// A diagnostic that passes inspection matches neither of the first two
/// classification rules: both of their signatures are grounds for
/// rejection.
pub proof fn lemma_passed_text_is_not_called_corrupt(text: Seq<char>)
    requires
        !probe_rejects(text),
    ensures
        !occurs_in("Output file does not contain any stream"@, text),
        !occurs_in("Invalid data found"@, text),
{
    let long = "Output file does not contain any stream"@;
    let short = "does not contain any stream"@;
    if occurs_in(long, text) {
        reveal_strlit("Output file does not contain any stream");
        reveal_strlit("does not contain any stream");
        assert(long.subrange(12, 12 + short.len() as int) =~= short);
        assert(occurs_at(short, long, 12));
        lemma_occurs_in_transitive(short, long, text);
    }
}

/// An upload whose inspection diagnostic shows a corruption signature is
/// refused with status 400 and the fixed message, under its own name and
/// without an output name; the request is then finished, so that no
/// transcoding run is ever asked for.
pub proof fn lemma_rejected_upload_is_refused(
    session: UploadSessionView,
    success: bool,
    diagnostics: Seq<char>,
    id: Seq<char>,
)
    requires
        probe_rejects(diagnostics),
    ensures
        next(
            StageView::Probing { session },
            EventView::EncoderExited { success, diagnostics },
            id,
        ) == Some(
            finish(
                failed_response(
                    Failure::InputRejected,
                    rejected_message(),
                    Some(session.original_filename),
                ),
            ),
        ),
        Failure::InputRejected.spec_status().spec_code() == 400,
        forall|event: EventView, later: Seq<char>|
            (#[trigger] next(StageView::Finished, event, later)) is None,
{
}

/// A request is finished exactly when its response is handed out, and a
/// finished request takes no further step.
pub proof fn lemma_response_ends_the_request(stage: StageView, event: EventView, id: Seq<char>)
    ensures
        next(stage, event, id) is Some <==> can_occur(stage, event),
        next(stage, event, id) matches Some((following, asked)) ==> (following is Finished
            <==> asked is Respond),
        !can_occur(StageView::Finished, event),
{
}

/// Each failure comes on its own inputs and on no others: a step fails
/// the request exactly when [`failure_of`] names a reason, the response
/// then reports failure under the status of that reason, and a response
/// without a reason reports success.
pub proof fn lemma_failures_have_their_causes(stage: StageView, event: EventView, id: Seq<char>)
    ensures
        match next(stage, event, id) {
            Some((_, ActionView::Respond { response })) => match failure_of(stage, event) {
                Some(failure) => !response.body.success && response.status
                    == failure.spec_status(),
                None => response.body.success && response.status == Status::Success,
            },
            _ => failure_of(stage, event) is None,
        },
{
}

/// Transcoding is entered from one place only: an inspection run that
/// exited with a diagnostic free of corruption signatures.
pub proof fn lemma_transcoding_follows_passed_inspection(
    stage: StageView,
    event: EventView,
    id: Seq<char>,
)
    requires
        next(stage, event, id) matches Some((following, asked)) && following is Transcoding,
    ensures
        stage is Probing,
        event matches EventView::EncoderExited { diagnostics, .. } && !probe_rejects(diagnostics),
{
}

/// Every response of the pipeline is well formed: it names an output file
/// exactly when it reports success, and it reports success exactly under
/// status 200. Failures are sent under 400 or 500.
pub proof fn lemma_responses_are_well_formed(stage: StageView, event: EventView, id: Seq<char>)
    ensures
        next(stage, event, id) matches Some((_, ActionView::Respond { response }))
            ==> response.well_formed() && (response.status == Status::Success || response.status
            == Status::BadRequest || response.status == Status::InternalServerError),
{
}

/// The stored upload always lies at the path assigned to its name: the
/// steps of the pipeline keep every stage well formed.
pub proof fn lemma_stages_stay_well_formed(stage: StageView, event: EventView, id: Seq<char>)
    requires
        stage.well_formed(),
    ensures
        next(stage, event, id) matches Some((following, _)) ==> following.well_formed(),
        initial().0.well_formed(),
{
}

/// A request none of whose parts is named `file` is refused with status
/// 400, the message that no file was uploaded, and neither filename.
pub proof fn lemma_request_without_file_is_refused(parts: Seq<EventView>, ids: Seq<Seq<char>>)
    requires
        forall|k: int|
            0 <= k < parts.len() ==> (#[trigger] parts[k] matches EventView::Part { name, .. }
                && !is_file_part(name)),
    ensures
        run(
            initial().0,
            initial().1,
            seq![EventView::StorageReady] + parts + seq![EventView::EndOfParts],
            ids,
        ) == Some(finish(failed_response(Failure::RequestMalformed, no_file_message(), None))),
        ({
            let refusal = failed_response(Failure::RequestMalformed, no_file_message(), None);
            &&& !refusal.body.success
            &&& refusal.body.original_filename is None
            &&& refusal.body.output_filename is None
            &&& refusal.status.spec_code() == 400
        }),
{
    let events = seq![EventView::StorageReady] + parts + seq![EventView::EndOfParts];
    assert(events[0] == EventView::StorageReady);
    assert(events.drop_first() =~= parts + seq![EventView::EndOfParts]);
    lemma_parts_without_file(parts, ids.drop_first());
}

/// While no `file` part arrives nothing is stored, and the end of the
/// parts then refuses the request.
proof fn lemma_parts_without_file(parts: Seq<EventView>, ids: Seq<Seq<char>>)
    requires
        forall|k: int|
            0 <= k < parts.len() ==> (#[trigger] parts[k] matches EventView::Part { name, .. }
                && !is_file_part(name)),
    ensures
        run(
            StageView::Receiving { stored: None },
            ActionView::NextPart,
            parts + seq![EventView::EndOfParts],
            ids,
        ) == Some(finish(failed_response(Failure::RequestMalformed, no_file_message(), None))),
    decreases parts.len(),
{
    let events = parts + seq![EventView::EndOfParts];
    let receiving = StageView::Receiving { stored: None };
    if parts.len() == 0 {
        assert(events[0] == EventView::EndOfParts);
        assert(events.drop_first().len() == 0);
        let ended = finish(failed_response(Failure::RequestMalformed, no_file_message(), None));
        assert(next(receiving, events[0], ids[0]) == Some(ended));
        assert(run(ended.0, ended.1, events.drop_first(), ids.drop_first()) == Some(ended));
    } else {
        assert(events[0] == parts[0]);
        assert(events.drop_first() =~= parts.drop_first() + seq![EventView::EndOfParts]);
        assert(next(receiving, events[0], ids[0]) == Some((receiving, ActionView::NextPart)));
        assert forall|k: int| 0 <= k < parts.drop_first().len() implies (
        #[trigger] parts.drop_first()[k] matches EventView::Part { name, .. } && !is_file_part(
            name,
        )) by {
            assert(parts.drop_first()[k] == parts[k + 1]);
        }
        lemma_parts_without_file(parts.drop_first(), ids.drop_first());
    }
}

/// An upload that passes inspection and that the encoder then converts is
/// answered with status 200 under both names. The output name is the drawn
/// identifier with the extension `.mp4`, the encoder was told to write to
/// the path of that name, and a later download of that name, once the file
/// is there, is served from the same path.
pub proof fn lemma_accepted_upload_is_converted(
    session: UploadSessionView,
    probe_success: bool,
    probe_diagnostics: Seq<char>,
    id: Seq<char>,
    diagnostics: Seq<char>,
    later: Seq<char>,
)
    requires
        !probe_rejects(probe_diagnostics),
    ensures
        ({
            let output_filename = artifact_name(id);
            let transcoding = StageView::Transcoding { session, output_filename };
            &&& next(
                StageView::Probing { session },
                EventView::EncoderExited { success: probe_success, diagnostics: probe_diagnostics },
                id,
            ) == Some(
                (
                    transcoding,
                    ActionView::Run {
                        program: encoder_program(),
                        arguments: transcode_arguments(
                            session.filepath,
                            artifact_path(output_filename),
                        ),
                    },
                ),
            )
            &&& next(transcoding, EventView::EncoderExited { success: true, diagnostics }, later)
                == Some(finish(converted_response(session.original_filename, output_filename)))
            &&& converted_response(session.original_filename, output_filename).status.spec_code()
                == 200
            &&& converted_response(session.original_filename, output_filename).body.success
            &&& ends_with(output_filename, ".mp4"@)
            &&& retrieval(output_filename, true) == (RetrievalView::Serve {
                path: artifact_path(output_filename),
            })
            &&& retrieval(output_filename, true).status().spec_code() == 200
        }),
{
    let output_filename = artifact_name(id);
    let suffix = ".mp4"@;
    let end = output_filename.len() as int;
    assert(output_filename.subrange(end - suffix.len(), end) =~= suffix);
}

/// The name of a generated artifact is a plain file name: forty
/// characters, none of them a path separator, so that its path lies
/// directly in the output directory.
pub proof fn lemma_generated_artifact_name_is_plain(id: Seq<char>)
    requires
        is_generated_id(id),
    ensures
        artifact_name(id).len() == 40,
        !artifact_name(id).contains('/'),
{
    reveal_strlit(".mp4");
    let name = artifact_name(id);
    assert(name.len() == 40);
    if name.contains('/') {
        let k = choose|k: int| 0 <= k < name.len() && name[k] == '/';
        if k < 36 {
            assert(name[k] == id[k]);
            assert(if is_hyphen_position(k) {
                id[k] == '-'
            } else {
                is_lower_hex(id[k])
            });
        } else {
            assert(name[k] == ".mp4"@[k - 36]);
        }
    }
}

/// A download of a name under which no file lies is answered with status
/// 404, whatever the name; it is never answered with 200.
pub proof fn lemma_missing_artifact_is_not_found(filename: Seq<char>)
    ensures
        retrieval(filename, false) is Missing,
        retrieval(filename, false).status() == Status::NotFound,
        retrieval(filename, false).status().spec_code() == 404,
{
}

} // verus!

//! The conversion request as a state machine.
//!
//! A request moves through fixed stages: the storage area is prepared, the
//! parts of the upload are received and the one named `file` is stored, the
//! stored file is inspected, and, if the inspection finds nothing wrong, it
//! is transcoded. Each transition is a decision of this module; the work
//! between two transitions (reading the request, writing the file, running
//! the encoder) is the caller's, which carries out the [`Action`] it is
//! handed and comes back with the [`Event`] that resulted.

use vstd::prelude::*;
use vstd::utf8::{decode_utf8, valid_utf8};
use crate::classify::{friendly_message, get_user_friendly_error};
use crate::ident::{fresh_id, is_generated_id};
use crate::outcome::{converted_response, failed_response, Failure, Response, ResponseView};
use crate::storage::{
    artifact_name, artifact_name_for, artifact_path, artifact_path_for, encoder_program,
    encoder_program_name, probe_argument_list, probe_arguments, storage_directories,
    storage_directory_list, transcode_argument_list, transcode_arguments, upload_path,
    upload_path_for,
};
use crate::text::{decode_lossy, utf8_lossy};
use crate::validate::{is_rejected_by_probe, probe_rejects};

verus! {

/// One stored upload: the name it is known by and the path it was written
/// to.
#[derive(Debug)]
pub struct UploadSession {
    pub original_filename: String,
    pub filepath: String,
}

/// The mathematical content of an [`UploadSession`].
pub struct UploadSessionView {
    pub original_filename: Seq<char>,
    pub filepath: Seq<char>,
}

impl UploadSessionView {
    /// The path is the one assigned to the filename.
    pub open spec fn well_formed(self) -> bool {
        self.filepath == upload_path(self.original_filename)
    }
}

impl View for UploadSession {
    type V = UploadSessionView;

    open spec fn view(&self) -> UploadSessionView {
        UploadSessionView { original_filename: self.original_filename@, filepath: self.filepath@ }
    }
}

impl DeepView for UploadSession {
    type V = UploadSessionView;

    open spec fn deep_view(&self) -> UploadSessionView {
        self@
    }
}

/// Where a request stands.
#[derive(Debug)]
pub enum Stage {
    /// The storage directories are being created.
    Preparing,
    /// Parts are being read; `stored` is the last `file` part kept so far.
    Receiving { stored: Option<UploadSession> },
    /// The body of a `file` part is being written.
    Storing { session: UploadSession },
    /// The inspection run is under way.
    Probing { session: UploadSession },
    /// The transcoding run is under way.
    Transcoding { session: UploadSession, output_filename: String },
    /// The response has been handed out.
    Finished,
}

/// The mathematical content of a [`Stage`].
pub enum StageView {
    Preparing,
    Receiving { stored: Option<UploadSessionView> },
    Storing { session: UploadSessionView },
    Probing { session: UploadSessionView },
    Transcoding { session: UploadSessionView, output_filename: Seq<char> },
    Finished,
}

impl View for Stage {
    type V = StageView;

    open spec fn view(&self) -> StageView {
        match self {
            Stage::Preparing => StageView::Preparing,
            Stage::Receiving { stored } => StageView::Receiving { stored: stored.deep_view() },
            Stage::Storing { session } => StageView::Storing { session: session@ },
            Stage::Probing { session } => StageView::Probing { session: session@ },
            Stage::Transcoding { session, output_filename } => StageView::Transcoding {
                session: session@,
                output_filename: output_filename@,
            },
            Stage::Finished => StageView::Finished,
        }
    }
}

impl DeepView for Stage {
    type V = StageView;

    open spec fn deep_view(&self) -> StageView {
        self@
    }
}

/// What the caller reports back.
#[derive(Debug)]
pub enum Event {
    /// The storage directories exist.
    StorageReady,
    /// The header of the next part was read.
    Part { name: Option<String>, filename: Option<String> },
    /// The body of the part was written in full.
    PartStored,
    /// A directory or the upload could not be written.
    StorageFailed { reason: String },
    /// The request holds no further part.
    EndOfParts,
    /// The encoder could not be started.
    EncoderNotStarted { reason: String },
    /// The encoder ran and exited; `diagnostics` is what it printed.
    EncoderExited { success: bool, diagnostics: String },
}

/// The mathematical content of an [`Event`].
pub enum EventView {
    StorageReady,
    Part { name: Option<Seq<char>>, filename: Option<Seq<char>> },
    PartStored,
    StorageFailed { reason: Seq<char> },
    EndOfParts,
    EncoderNotStarted { reason: Seq<char> },
    EncoderExited { success: bool, diagnostics: Seq<char> },
}

impl View for Event {
    type V = EventView;

    open spec fn view(&self) -> EventView {
        match self {
            Event::StorageReady => EventView::StorageReady,
            Event::Part { name, filename } => EventView::Part {
                name: name.deep_view(),
                filename: filename.deep_view(),
            },
            Event::PartStored => EventView::PartStored,
            Event::StorageFailed { reason } => EventView::StorageFailed { reason: reason@ },
            Event::EndOfParts => EventView::EndOfParts,
            Event::EncoderNotStarted { reason } => EventView::EncoderNotStarted { reason: reason@ },
            Event::EncoderExited { success, diagnostics } => EventView::EncoderExited {
                success: *success,
                diagnostics: diagnostics@,
            },
        }
    }
}

/// What the caller is asked to do next.
#[derive(Debug)]
pub enum Action {
    /// Create each directory unless it exists, then report
    /// [`Event::StorageReady`].
    PrepareStorage { directories: Vec<String> },
    /// Read the header of the next part and report [`Event::Part`], or
    /// [`Event::EndOfParts`] if there is none.
    NextPart,
    /// Write the body of the current part to `path`, chunk by chunk, then
    /// report [`Event::PartStored`].
    Store { path: String },
    /// Run `program` with `arguments`, capture its diagnostic stream and
    /// report how it ended.
    Run { program: String, arguments: Vec<String> },
    /// Send the response; the request is over.
    Respond { response: Response },
}

/// The mathematical content of an [`Action`].
pub enum ActionView {
    PrepareStorage { directories: Seq<Seq<char>> },
    NextPart,
    Store { path: Seq<char> },
    Run { program: Seq<char>, arguments: Seq<Seq<char>> },
    Respond { response: ResponseView },
}

impl View for Action {
    type V = ActionView;

    open spec fn view(&self) -> ActionView {
        match self {
            Action::PrepareStorage { directories } => ActionView::PrepareStorage {
                directories: directories.deep_view(),
            },
            Action::NextPart => ActionView::NextPart,
            Action::Store { path } => ActionView::Store { path: path@ },
            Action::Run { program, arguments } => ActionView::Run {
                program: program@,
                arguments: arguments.deep_view(),
            },
            Action::Respond { response } => ActionView::Respond { response: response@ },
        }
    }
}

impl DeepView for Action {
    type V = ActionView;

    open spec fn deep_view(&self) -> ActionView {
        self@
    }
}

/// The message for an upload or directory that could not be written.
pub open spec fn storage_failure_message(reason: Seq<char>) -> Seq<char> {
    "Failed to store the uploaded file: "@ + reason
}

/// The message for a request without a part named `file`.
pub open spec fn no_file_message() -> Seq<char> {
    "No file was uploaded"@
}

/// The message for an inspection run that could not be started.
pub open spec fn probe_not_started_message(reason: Seq<char>) -> Seq<char> {
    "Failed to analyze file: "@ + reason + ". Is FFmpeg installed?"@
}

/// The message for an upload that the inspection run found unusable.
pub open spec fn rejected_message() -> Seq<char> {
    "The file appears to be corrupted or is not a valid video file."@
}

/// The message for a transcoding run that could not be started.
pub open spec fn transcode_not_started_message(reason: Seq<char>) -> Seq<char> {
    "Failed to execute FFmpeg: "@ + reason
}

/// The request ends with `response`.
pub open spec fn finish(response: ResponseView) -> (StageView, ActionView) {
    (StageView::Finished, ActionView::Respond { response })
}

/// The part is the uploaded file: its name is exactly `file`.
pub open spec fn is_file_part(name: Option<Seq<char>>) -> bool {
    name == Some("file"@)
}

/// The session for a `file` part: it is known by the filename the client
/// supplied, or by `id` if the client supplied none.
pub open spec fn session_for(filename: Option<Seq<char>>, id: Seq<char>) -> UploadSessionView {
    let name = match filename {
        Some(supplied) => supplied,
        None => id,
    };
    UploadSessionView { original_filename: name, filepath: upload_path(name) }
}

/// A part header arrived while receiving: a `file` part is stored, any
/// other part is passed over.
pub open spec fn part_received(
    stored: Option<UploadSessionView>,
    name: Option<Seq<char>>,
    filename: Option<Seq<char>>,
    id: Seq<char>,
) -> (StageView, ActionView) {
    if is_file_part(name) {
        let session = session_for(filename, id);
        (StageView::Storing { session }, ActionView::Store { path: session.filepath })
    } else {
        (StageView::Receiving { stored }, ActionView::NextPart)
    }
}

/// The request has no further part: the stored upload is inspected, and a
/// request that stored none is refused.
pub open spec fn parts_ended(stored: Option<UploadSessionView>) -> (StageView, ActionView) {
    match stored {
        Some(session) => (
            StageView::Probing { session },
            ActionView::Run {
                program: encoder_program(),
                arguments: probe_arguments(session.filepath),
            },
        ),
        None => finish(failed_response(Failure::RequestMalformed, no_file_message(), None)),
    }
}

/// The inspection run exited: an unusable upload is refused, any other is
/// transcoded into the artifact named after `id`.
pub open spec fn probe_exited(
    session: UploadSessionView,
    diagnostics: Seq<char>,
    id: Seq<char>,
) -> (StageView, ActionView) {
    if probe_rejects(diagnostics) {
        finish(
            failed_response(
                Failure::InputRejected,
                rejected_message(),
                Some(session.original_filename),
            ),
        )
    } else {
        let output_filename = artifact_name(id);
        (
            StageView::Transcoding { session, output_filename },
            ActionView::Run {
                program: encoder_program(),
                arguments: transcode_arguments(session.filepath, artifact_path(output_filename)),
            },
        )
    }
}

/// The transcoding run exited: success is reported with both names, a
/// failure with the classified diagnostic.
pub open spec fn transcode_exited(
    session: UploadSessionView,
    output_filename: Seq<char>,
    success: bool,
    diagnostics: Seq<char>,
) -> (StageView, ActionView) {
    if success {
        finish(converted_response(session.original_filename, output_filename))
    } else {
        finish(
            failed_response(
                Failure::ConversionFailed,
                friendly_message(diagnostics),
                Some(session.original_filename),
            ),
        )
    }
}

/// The transition relation: the stage and action that follow `event` in
/// `stage`, or `None` if the event cannot occur there. `id` is the
/// identifier drawn for this step; only the two transitions that name a new
/// file read it.
pub open spec fn next(stage: StageView, event: EventView, id: Seq<char>) -> Option<
    (StageView, ActionView),
> {
    match (stage, event) {
        (StageView::Preparing, EventView::StorageReady) => Some(
            (StageView::Receiving { stored: None }, ActionView::NextPart),
        ),
        (StageView::Preparing, EventView::StorageFailed { reason }) => Some(
            finish(
                failed_response(Failure::StorageFailure, storage_failure_message(reason), None),
            ),
        ),
        (StageView::Receiving { stored }, EventView::Part { name, filename }) => Some(
            part_received(stored, name, filename, id),
        ),
        (StageView::Receiving { stored }, EventView::EndOfParts) => Some(parts_ended(stored)),
        (StageView::Storing { session }, EventView::PartStored) => Some(
            (StageView::Receiving { stored: Some(session) }, ActionView::NextPart),
        ),
        (StageView::Storing { session }, EventView::StorageFailed { reason }) => Some(
            finish(
                failed_response(
                    Failure::StorageFailure,
                    storage_failure_message(reason),
                    Some(session.original_filename),
                ),
            ),
        ),
        (StageView::Probing { session }, EventView::EncoderNotStarted { reason }) => Some(
            finish(
                failed_response(
                    Failure::ToolUnavailable,
                    probe_not_started_message(reason),
                    Some(session.original_filename),
                ),
            ),
        ),
        (StageView::Probing { session }, EventView::EncoderExited { success, diagnostics }) => Some(
            probe_exited(session, diagnostics, id),
        ),
        (
            StageView::Transcoding { session, output_filename },
            EventView::EncoderNotStarted { reason },
        ) => Some(
            finish(
                failed_response(
                    Failure::ToolUnavailable,
                    transcode_not_started_message(reason),
                    Some(session.original_filename),
                ),
            ),
        ),
        (
            StageView::Transcoding { session, output_filename },
            EventView::EncoderExited { success, diagnostics },
        ) => Some(transcode_exited(session, output_filename, success, diagnostics)),
        _ => None,
    }
}

/// Why the step from `stage` on `event` fails the request, if it does.
pub open spec fn failure_of(stage: StageView, event: EventView) -> Option<Failure> {
    match (stage, event) {
        (StageView::Preparing, EventView::StorageFailed { .. }) => Some(Failure::StorageFailure),
        (StageView::Storing { .. }, EventView::StorageFailed { .. }) => Some(
            Failure::StorageFailure,
        ),
        (StageView::Receiving { stored }, EventView::EndOfParts) => if stored is None {
            Some(Failure::RequestMalformed)
        } else {
            None
        },
        (StageView::Probing { .. }, EventView::EncoderNotStarted { .. }) => Some(
            Failure::ToolUnavailable,
        ),
        (StageView::Probing { .. }, EventView::EncoderExited { diagnostics, .. }) => {
            if probe_rejects(diagnostics) {
                Some(Failure::InputRejected)
            } else {
                None
            }
        },
        (StageView::Transcoding { .. }, EventView::EncoderNotStarted { .. }) => Some(
            Failure::ToolUnavailable,
        ),
        (StageView::Transcoding { .. }, EventView::EncoderExited { success, .. }) => if success {
            None
        } else {
            Some(Failure::ConversionFailed)
        },
        _ => None,
    }
}

/// The events that can occur in each stage.
pub open spec fn can_occur(stage: StageView, event: EventView) -> bool {
    match stage {
        StageView::Preparing => event is StorageReady || event is StorageFailed,
        StageView::Receiving { .. } => event is Part || event is EndOfParts,
        StageView::Storing { .. } => event is PartStored || event is StorageFailed,
        StageView::Probing { .. } => event is EncoderNotStarted || event is EncoderExited,
        StageView::Transcoding { .. } => event is EncoderNotStarted || event is EncoderExited,
        StageView::Finished => false,
    }
}

/// Where a request stands after a sequence of events, starting from
/// `stage` with `action` pending; `ids[k]` is the identifier at hand in
/// step `k`. The result is `None` if some event cannot occur where it
/// comes.
pub open spec fn run(
    stage: StageView,
    action: ActionView,
    events: Seq<EventView>,
    ids: Seq<Seq<char>>,
) -> Option<(StageView, ActionView)>
    decreases events.len(),
{
    if events.len() == 0 {
        Some((stage, action))
    } else {
        match next(stage, events[0], ids[0]) {
            Some((following, asked)) => run(
                following,
                asked,
                events.drop_first(),
                ids.drop_first(),
            ),
            None => None,
        }
    }
}

impl StageView {
    /// Every upload the stage holds lies at the path assigned to its name.
    pub open spec fn well_formed(self) -> bool {
        match self {
            StageView::Receiving { stored } => stored matches Some(session)
                ==> session.well_formed(),
            StageView::Storing { session } => session.well_formed(),
            StageView::Probing { session } => session.well_formed(),
            StageView::Transcoding { session, .. } => session.well_formed(),
            _ => true,
        }
    }
}

/// The step reads the identifier handed to it: it names a `file` part that
/// came without a filename, or the artifact of an upload that passed
/// inspection.
pub open spec fn draws_id(stage: StageView, event: EventView) -> bool {
    match (stage, event) {
        (StageView::Receiving { stored }, EventView::Part { name, filename }) => is_file_part(name)
            && filename is None,
        (StageView::Probing { session }, EventView::EncoderExited { success, diagnostics }) =>
            !probe_rejects(diagnostics),
        _ => false,
    }
}

impl Event {
    /// The event for an encoder run that exited, from its exit status and
    /// the bytes it wrote to its diagnostic stream. The bytes are decoded
    /// as UTF-8, with invalid sequences replaced.
    pub fn encoder_exited(success: bool, output: &[u8]) -> (event: Event)
        ensures
            event@ == (EventView::EncoderExited { success, diagnostics: utf8_lossy(output@) }),
            valid_utf8(output@) ==> event@ == (EventView::EncoderExited {
                success,
                diagnostics: decode_utf8(output@),
            }),
    {
        Event::EncoderExited { success, diagnostics: decode_lossy(output) }
    }
}

/// The first stage of every request and the action that opens it.
pub open spec fn initial() -> (StageView, ActionView) {
    (StageView::Preparing, ActionView::PrepareStorage { directories: storage_directories() })
}

/// Opens a request: the storage directories are to be prepared.
pub fn start() -> (r: (Stage, Action))
    ensures
        r.deep_view() == initial(),
{
    (Stage::Preparing, Action::PrepareStorage { directories: storage_directory_list() })
}

/// Whether a part with this name is the uploaded file.
pub fn names_file(name: &Option<String>) -> (b: bool)
    ensures
        b == is_file_part(name.deep_view()),
{
    match name {
        Some(n) => {
            let file = String::from_str("file");
            *n == file
        },
        None => false,
    }
}

/// Whether the step from `stage` on `event` reads a generated identifier.
pub fn needs_id(stage: &Stage, event: &Event) -> (b: bool)
    ensures
        b == draws_id(stage@, event@),
{
    match stage {
        Stage::Receiving { stored } => match event {
            Event::Part { name, filename } => names_file(name) && filename.is_none(),
            _ => false,
        },
        Stage::Probing { session } => match event {
            Event::EncoderExited { success, diagnostics } => !is_rejected_by_probe(
                diagnostics.as_str(),
            ),
            _ => false,
        },
        _ => false,
    }
}

/// Ends the request with a failure response.
fn fail(failure: Failure, message: String, upload: Option<String>) -> (r: (Stage, Action))
    ensures
        r.deep_view() == finish(failed_response(failure, message@, upload.deep_view())),
{
    let response = Response::failed(failure, message, upload);
    (Stage::Finished, Action::Respond { response })
}

/// Asks for an encoder run with the given arguments.
fn run_encoder(arguments: Vec<String>) -> (action: Action)
    ensures
        action@ == (ActionView::Run {
            program: encoder_program(),
            arguments: arguments.deep_view(),
        }),
{
    Action::Run { program: encoder_program_name(), arguments }
}

/// Takes one step of the request with the identifier `id` at hand.
///
/// This is the whole decision logic of a conversion request. The result is
/// `None` exactly when `event` cannot occur in `stage`; nothing is changed
/// or asked for in that case.
pub fn step_with_id(stage: Stage, event: Event, id: String) -> (r: Option<(Stage, Action)>)
    ensures
        r.deep_view() == next(stage@, event@, id@),
        r is Some <==> can_occur(stage@, event@),
{
    match stage {
        Stage::Preparing => match event {
            Event::StorageReady => Some((Stage::Receiving { stored: None }, Action::NextPart)),
            Event::StorageFailed { reason } => {
                let message = String::from_str("Failed to store the uploaded file: ").concat(
                    reason.as_str(),
                );
                Some(fail(Failure::StorageFailure, message, None))
            },
            _ => None,
        },
        Stage::Receiving { stored } => match event {
            Event::Part { name, filename } => {
                if names_file(&name) {
                    let original_filename = match filename {
                        Some(supplied) => supplied,
                        None => id,
                    };
                    let filepath = upload_path_for(original_filename.as_str());
                    let path = filepath.clone();
                    let session = UploadSession { original_filename, filepath };
                    Some((Stage::Storing { session }, Action::Store { path }))
                } else {
                    Some((Stage::Receiving { stored }, Action::NextPart))
                }
            },
            Event::EndOfParts => match stored {
                Some(session) => {
                    let arguments = probe_argument_list(session.filepath.as_str());
                    Some((Stage::Probing { session }, run_encoder(arguments)))
                },
                None => Some(
                    fail(Failure::RequestMalformed, String::from_str("No file was uploaded"), None),
                ),
            },
            _ => None,
        },
        Stage::Storing { session } => match event {
            Event::PartStored => Some(
                (Stage::Receiving { stored: Some(session) }, Action::NextPart),
            ),
            Event::StorageFailed { reason } => {
                let message = String::from_str("Failed to store the uploaded file: ").concat(
                    reason.as_str(),
                );
                Some(fail(Failure::StorageFailure, message, Some(session.original_filename)))
            },
            _ => None,
        },
        Stage::Probing { session } => match event {
            Event::EncoderNotStarted { reason } => {
                let message = String::from_str("Failed to analyze file: ").concat(
                    reason.as_str(),
                ).concat(". Is FFmpeg installed?");
                Some(fail(Failure::ToolUnavailable, message, Some(session.original_filename)))
            },
            Event::EncoderExited { success, diagnostics } => {
                if is_rejected_by_probe(diagnostics.as_str()) {
                    let message = String::from_str(
                        "The file appears to be corrupted or is not a valid video file.",
                    );
                    Some(fail(Failure::InputRejected, message, Some(session.original_filename)))
                } else {
                    let output_filename = artifact_name_for(id.as_str());
                    let output_path = artifact_path_for(output_filename.as_str());
                    let arguments = transcode_argument_list(
                        session.filepath.as_str(),
                        output_path.as_str(),
                    );
                    Some((Stage::Transcoding { session, output_filename }, run_encoder(arguments)))
                }
            },
            _ => None,
        },
        Stage::Transcoding { session, output_filename } => match event {
            Event::EncoderNotStarted { reason } => {
                let message = String::from_str("Failed to execute FFmpeg: ").concat(
                    reason.as_str(),
                );
                Some(fail(Failure::ToolUnavailable, message, Some(session.original_filename)))
            },
            Event::EncoderExited { success, diagnostics } => {
                if success {
                    let response = Response::converted(session.original_filename, output_filename);
                    Some((Stage::Finished, Action::Respond { response }))
                } else {
                    let message = get_user_friendly_error(diagnostics.as_str());
                    Some(fail(Failure::ConversionFailed, message, Some(session.original_filename)))
                }
            },
            _ => None,
        },
        Stage::Finished => None,
    }
}

/// A step that draws no identifier gives the same result whatever
/// identifier it is handed.
pub proof fn lemma_unread_id(stage: StageView, event: EventView, id_a: Seq<char>, id_b: Seq<char>)
    requires
        !draws_id(stage, event),
    ensures
        next(stage, event, id_a) == next(stage, event, id_b),
{
}

/// An identifier of the generated shape, to stand for the one that a step
/// without a draw never reads.
pub open spec fn unread_id() -> Seq<char> {
    Seq::new(
        36,
        |i: int|
            if i == 8 || i == 13 || i == 18 || i == 23 {
                '-'
            } else if i == 14 {
                '4'
            } else if i == 19 {
                '8'
            } else {
                '0'
            },
    )
}

/// Takes one step of the request, drawing a fresh identifier where the
/// step names a new file.
///
/// The result is that of [`step_with_id`] for some identifier of the
/// generated shape; which one is not determined. It is `None` exactly when
/// `event` cannot occur in `stage`.
pub fn step(stage: Stage, event: Event) -> (r: Option<(Stage, Action)>)
    ensures
        exists|id: Seq<char>|
            is_generated_id(id) && #[trigger] next(stage@, event@, id) == r.deep_view(),
        r is Some <==> can_occur(stage@, event@),
{
    if needs_id(&stage, &event) {
        let id = fresh_id();
        step_with_id(stage, event, id)
    } else {
        let id = String::new();
        proof {
            lemma_unread_id(stage@, event@, id@, unread_id());
            assert(is_generated_id(unread_id()));
        }
        step_with_id(stage, event, id)
    }
}

} // verus!

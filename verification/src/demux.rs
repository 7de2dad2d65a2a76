//! The stream demultiplexer: a state machine that is fed the parts and chunks
//! of one multipart request in arrival order, and answers each event with the
//! next thing to do. It never reads the stream or touches the disk itself;
//! whoever drives it does, and reports back.
//!
//! A partly written file is left on disk when a request fails later on, and
//! where a request carries several images each is written, while only the last
//! one is recorded.

use crate::error::NewPostError;
use crate::text::{
    decode_chunk, is_blank, is_blank_str, join_chunks, join_with_space, str_equal, texts,
};
use crate::upload::{
    absolute_path_of, clean_file_name, clean_name, fresh_id, has_no_separator, is_hyphen_place,
    is_stored_under, is_uuid_text, lemma_stored_name_has_no_separator, lies_directly_in,
    plan_stored_file, stored_file_of, stored_name, StoredFile, StoredFileView,
};
use vstd::pervasive::unreached;
use vstd::prelude::*;
use vstd::utf8::{decode_utf8, valid_utf8};

verus! {

/// The name of the field that carries the text of the post.
pub open spec fn text_field() -> Seq<char> {
    "post-editor"@
}

/// The name of the field that carries the image.
pub open spec fn image_field() -> Seq<char> {
    "image"@
}

/// How a part is handled.
#[derive(Debug, Clone, Copy, PartialEq, Eq, Structural)]
pub enum PartKind {
    /// Its chunks are decoded and collected.
    Text,
    /// Its chunks are written to a file.
    Image,
    /// It is passed over.
    Ignored,
}

/// A part is text by its name alone, an image by its name and a file name
/// that is not blank, and ignored otherwise.
pub open spec fn part_kind(name: Seq<char>, filename: Option<Seq<char>>) -> PartKind {
    if name == text_field() {
        PartKind::Text
    } else if name == image_field() && filename is Some && !is_blank(filename->0) {
        PartKind::Image
    } else {
        PartKind::Ignored
    }
}

/// The text of an optional string.
pub open spec fn option_text(s: Option<String>) -> Option<Seq<char>> {
    match s {
        Some(s) => Some(s@),
        None => None,
    }
}

/// Decides how the part with this name and file name is handled.
pub fn classify_part(name: &str, filename: &Option<String>) -> (kind: PartKind)
    ensures
        kind == part_kind(name@, option_text(*filename)),
{
    if str_equal(name, "post-editor") {
        PartKind::Text
    } else if str_equal(name, "image") {
        match filename {
            Some(f) => if is_blank_str(f.as_str()) {
                PartKind::Ignored
            } else {
                PartKind::Image
            },
            None => PartKind::Ignored,
        }
    } else {
        PartKind::Ignored
    }
}

/// Where the demultiplexer stands.
#[derive(Debug, Clone, Copy, PartialEq, Eq, Structural)]
pub enum Phase {
    /// The upload directory is being made sure of.
    Preparing,
    /// The next part, or the end of the stream, is awaited.
    AwaitingPart,
    /// The chunks of a text part are being read.
    ReadingText,
    /// The file for an image part is being created.
    OpeningFile,
    /// The next chunk of an image part is awaited.
    ReadingFile,
    /// A chunk of an image part is being written.
    WritingFile,
    /// The request has ended, well or badly.
    Closed,
}

/// What the driver reports.
#[derive(Debug, Clone, PartialEq, Eq)]
pub enum Event {
    /// What was asked for last (a directory, a file, a write) is done.
    Completed,
    /// What was asked for last could not be done, or the chunk asked for
    /// could not be read.
    Failed,
    /// The stream yielded a part.
    Part { name: String, filename: Option<String> },
    /// The current part yielded a chunk.
    Chunk(Vec<u8>),
    /// The current part has no more chunks.
    PartEnd,
    /// The stream has no more parts.
    StreamEnd,
}

/// An event over texts and byte sequences.
pub enum EventView {
    Completed,
    Failed,
    Part { name: Seq<char>, filename: Option<Seq<char>> },
    Chunk(Seq<u8>),
    PartEnd,
    StreamEnd,
}

impl View for Event {
    type V = EventView;

    open spec fn view(&self) -> EventView {
        match self {
            Event::Completed => EventView::Completed,
            Event::Failed => EventView::Failed,
            Event::Part { name, filename } => EventView::Part {
                name: name@,
                filename: option_text(*filename),
            },
            Event::Chunk(bytes) => EventView::Chunk(bytes@),
            Event::PartEnd => EventView::PartEnd,
            Event::StreamEnd => EventView::StreamEnd,
        }
    }
}

/// What the demultiplexer hands over when the stream has ended.
#[derive(Debug, Clone, PartialEq, Eq)]
pub struct Demultiplexed {
    /// The text chunks in arrival order, joined by single spaces.
    pub body: String,
    /// The file of the last image part that was stored, if any.
    pub stored: Option<StoredFile>,
}

/// The outcome over texts.
pub struct DemultiplexedView {
    pub body: Seq<char>,
    pub stored: Option<StoredFileView>,
}

impl View for Demultiplexed {
    type V = DemultiplexedView;

    open spec fn view(&self) -> DemultiplexedView {
        DemultiplexedView { body: self.body@, stored: stored_view(self.stored) }
    }
}

/// The paths of an optional stored file.
pub open spec fn stored_view(stored: Option<StoredFile>) -> Option<StoredFileView> {
    match stored {
        Some(file) => Some(file@),
        None => None,
    }
}

/// What the driver is to do next.
#[derive(Debug, Clone, PartialEq, Eq)]
pub enum Action {
    /// Create the directory of this path, with its missing ancestors, then
    /// report `Completed` or `Failed`.
    EnsureDirectory(String),
    /// Take the next part from the stream, passing over what is left of the
    /// current one; report `Part` or `StreamEnd`.
    NextPart,
    /// Take the next chunk of the current part; report `Chunk`, `PartEnd` or
    /// `Failed`.
    NextChunk,
    /// Create the file of this path for writing, then report `Completed` or
    /// `Failed`.
    CreateFile(String),
    /// Write these bytes at the end of the file created last, then report
    /// `Completed` or `Failed`.
    WriteChunk(Vec<u8>),
    /// The stream was taken in; here is what it held.
    Finish(Demultiplexed),
    /// The request has failed.
    Fail(NewPostError),
}

/// An action over texts and byte sequences.
pub enum ActionView {
    EnsureDirectory(Seq<char>),
    NextPart,
    NextChunk,
    CreateFile(Seq<char>),
    WriteChunk(Seq<u8>),
    Finish(DemultiplexedView),
    Fail(NewPostError),
}

impl View for Action {
    type V = ActionView;

    open spec fn view(&self) -> ActionView {
        match self {
            Action::EnsureDirectory(path) => ActionView::EnsureDirectory(path@),
            Action::NextPart => ActionView::NextPart,
            Action::NextChunk => ActionView::NextChunk,
            Action::CreateFile(path) => ActionView::CreateFile(path@),
            Action::WriteChunk(bytes) => ActionView::WriteChunk(bytes@),
            Action::Finish(outcome) => ActionView::Finish(outcome@),
            Action::Fail(error) => ActionView::Fail(*error),
        }
    }
}

/// The state of a demultiplexer, over texts.
pub struct DemultiplexerView {
    /// The upload root as configured.
    pub upload_root: Seq<char>,
    /// The upload root as an absolute path.
    pub absolute_root: Seq<char>,
    /// Whether file names are sanitized by the rules for Windows too.
    pub windows: bool,
    pub phase: Phase,
    /// The text chunks decoded so far, in arrival order.
    pub text: Seq<Seq<char>>,
    /// The file of the image part that was met last.
    pub stored: Option<StoredFileView>,
}

/// The events that make sense in each phase.
pub open spec fn accepts(phase: Phase, event: EventView) -> bool {
    match phase {
        Phase::Preparing => event is Completed || event is Failed,
        Phase::AwaitingPart => event is Part || event is StreamEnd,
        Phase::ReadingText => event is Chunk || event is PartEnd || event is Failed,
        Phase::OpeningFile => event is Completed || event is Failed,
        Phase::ReadingFile => event is Chunk || event is PartEnd || event is Failed,
        Phase::WritingFile => event is Completed || event is Failed,
        Phase::Closed => false,
    }
}

/// The state in another phase.
pub open spec fn in_phase(s: DemultiplexerView, phase: Phase) -> DemultiplexerView {
    DemultiplexerView { phase, ..s }
}

/// The state a demultiplexer starts in.
pub open spec fn initial_state(upload_root: Seq<char>, absolute_root: Seq<char>, windows: bool)
    -> DemultiplexerView {
    DemultiplexerView {
        upload_root,
        absolute_root,
        windows,
        phase: Phase::Preparing,
        text: Seq::empty(),
        stored: None,
    }
}

/// Whether this event, in this state, starts an upload and so needs a fresh
/// identifier.
pub open spec fn starts_upload(s: DemultiplexerView, event: EventView) -> bool {
    &&& s.phase == Phase::AwaitingPart
    &&& event matches EventView::Part { name, filename }
    &&& part_kind(name, filename) == PartKind::Image
}

/// The transition: the state after `event` and the action that answers it,
/// where `id` is the identifier drawn for an upload that starts here.
pub open spec fn step_spec(s: DemultiplexerView, event: EventView, id: Seq<char>) -> (
    DemultiplexerView,
    ActionView,
)
    recommends
        accepts(s.phase, event),
{
    match s.phase {
        Phase::Preparing => match event {
            EventView::Completed => (in_phase(s, Phase::AwaitingPart), ActionView::NextPart),
            _ => (
                in_phase(s, Phase::Closed),
                ActionView::Fail(NewPostError::FileUploadPathError),
            ),
        },
        Phase::AwaitingPart => match event {
            EventView::Part { name, filename } => match part_kind(name, filename) {
                PartKind::Text => (in_phase(s, Phase::ReadingText), ActionView::NextChunk),
                PartKind::Image => {
                    let file = stored_file_of(
                        s.upload_root,
                        s.absolute_root,
                        id,
                        clean_name(filename->0, s.windows),
                    );
                    (
                        DemultiplexerView { phase: Phase::OpeningFile, stored: Some(file), ..s },
                        ActionView::CreateFile(file.absolute_path),
                    )
                },
                PartKind::Ignored => (s, ActionView::NextPart),
            },
            _ => (
                in_phase(s, Phase::Closed),
                ActionView::Finish(
                    DemultiplexedView { body: join_with_space(s.text), stored: s.stored },
                ),
            ),
        },
        Phase::ReadingText => match event {
            EventView::Chunk(bytes) => if valid_utf8(bytes) {
                (
                    DemultiplexerView { text: s.text.push(decode_utf8(bytes)), ..s },
                    ActionView::NextChunk,
                )
            } else {
                (in_phase(s, Phase::Closed), ActionView::Fail(NewPostError::ParseError))
            },
            EventView::PartEnd => (in_phase(s, Phase::AwaitingPart), ActionView::NextPart),
            _ => (in_phase(s, Phase::Closed), ActionView::Fail(NewPostError::ParseError)),
        },
        Phase::OpeningFile => match event {
            EventView::Completed => (in_phase(s, Phase::ReadingFile), ActionView::NextChunk),
            _ => (in_phase(s, Phase::Closed), ActionView::Fail(NewPostError::FileUploadError)),
        },
        Phase::ReadingFile => match event {
            EventView::Chunk(bytes) => (
                in_phase(s, Phase::WritingFile),
                ActionView::WriteChunk(bytes),
            ),
            EventView::PartEnd => (in_phase(s, Phase::AwaitingPart), ActionView::NextPart),
            _ => (in_phase(s, Phase::Closed), ActionView::Fail(NewPostError::FileUploadError)),
        },
        Phase::WritingFile => match event {
            EventView::Completed => (in_phase(s, Phase::ReadingFile), ActionView::NextChunk),
            _ => (in_phase(s, Phase::Closed), ActionView::Fail(NewPostError::FileUploadError)),
        },
        Phase::Closed => arbitrary(),
    }
}

/// The demultiplexer of one request.
#[derive(Debug)]
pub struct Demultiplexer {
    upload_root: String,
    absolute_root: String,
    windows: bool,
    phase: Phase,
    text: Vec<String>,
    stored: Option<StoredFile>,
}

impl View for Demultiplexer {
    type V = DemultiplexerView;

    closed spec fn view(&self) -> DemultiplexerView {
        DemultiplexerView {
            upload_root: self.upload_root@,
            absolute_root: self.absolute_root@,
            windows: self.windows,
            phase: self.phase,
            text: texts(self.text@),
            stored: stored_view(self.stored),
        }
    }
}

fn copy_stored(stored: &Option<StoredFile>) -> (copy: Option<StoredFile>)
    ensures
        stored_view(copy) == stored_view(*stored),
{
    match stored {
        Some(file) => Some(
            StoredFile {
                absolute_path: file.absolute_path.clone(),
                relative_path: file.relative_path.clone(),
            },
        ),
        None => None,
    }
}

impl Demultiplexer {
    /// Starts on a request. `upload_root` is the upload root as configured,
    /// `absolute_root` the same directory as an absolute path, and `windows`
    /// says whether file names are sanitized by the rules for Windows too.
    /// The first thing to do, before any part is taken from the stream, is to
    /// make sure of the directory.
    pub fn begin(upload_root: &str, absolute_root: &str, windows: bool) -> (r: (
        Demultiplexer,
        Action,
    ))
        ensures
            r.0@ == initial_state(upload_root@, absolute_root@, windows),
            r.1@ == ActionView::EnsureDirectory(absolute_root@),
    {
        let machine = Demultiplexer {
            upload_root: upload_root.to_owned(),
            absolute_root: absolute_root.to_owned(),
            windows,
            phase: Phase::Preparing,
            text: Vec::new(),
            stored: None,
        };
        proof {
            assert(texts(machine.text@) =~= Seq::<Seq<char>>::empty());
        }
        (machine, Action::EnsureDirectory(absolute_root.to_owned()))
    }

    /// The phase the demultiplexer is in.
    pub fn phase(&self) -> (phase: Phase)
        ensures
            phase == self@.phase,
    {
        self.phase
    }

    /// Whether `event` makes sense in the present phase.
    pub fn accepts(&self, event: &Event) -> (b: bool)
        ensures
            b == accepts(self@.phase, event@),
    {
        match self.phase {
            Phase::Preparing => matches!(event, Event::Completed | Event::Failed),
            Phase::AwaitingPart => matches!(event, Event::Part { .. } | Event::StreamEnd),
            Phase::ReadingText => matches!(event, Event::Chunk(_) | Event::PartEnd | Event::Failed),
            Phase::OpeningFile => matches!(event, Event::Completed | Event::Failed),
            Phase::ReadingFile => matches!(event, Event::Chunk(_) | Event::PartEnd | Event::Failed),
            Phase::WritingFile => matches!(event, Event::Completed | Event::Failed),
            Phase::Closed => false,
        }
    }

    /// Whether `event` starts an upload, for which an identifier is drawn.
    pub fn starts_upload(&self, event: &Event) -> (b: bool)
        ensures
            b == starts_upload(self@, event@),
    {
        match self.phase {
            Phase::AwaitingPart => match event {
                Event::Part { name, filename } => match classify_part(name.as_str(), filename) {
                    PartKind::Image => true,
                    _ => false,
                },
                _ => false,
            },
            _ => false,
        }
    }

    fn close(&mut self, error: NewPostError) -> (action: Action)
        ensures
            final(self)@ == in_phase(old(self)@, Phase::Closed),
            action@ == ActionView::Fail(error),
    {
        self.phase = Phase::Closed;
        Action::Fail(error)
    }

    /// Takes one event, with `id` as the identifier of the upload if one
    /// starts here, and answers with the next action.
    pub fn step_with(&mut self, event: Event, id: &str) -> (action: Action)
        requires
            accepts(old(self)@.phase, event@),
        ensures
            (final(self)@, action@) == step_spec(old(self)@, event@, id@),
            action@ matches ActionView::CreateFile(path) ==> is_stored_under(
                path,
                old(self)@.absolute_root,
                id@,
            ),
    {
        match self.phase {
            Phase::Preparing => match event {
                Event::Completed => {
                    self.phase = Phase::AwaitingPart;
                    Action::NextPart
                },
                _ => self.close(NewPostError::FileUploadPathError),
            },
            Phase::AwaitingPart => match event {
                Event::Part { name, filename } => match classify_part(name.as_str(), &filename) {
                    PartKind::Text => {
                        self.phase = Phase::ReadingText;
                        Action::NextChunk
                    },
                    PartKind::Image => match filename {
                        Some(filename) => {
                            let clean = clean_file_name(filename.as_str(), self.windows);
                            let file = plan_stored_file(
                                self.upload_root.as_str(),
                                self.absolute_root.as_str(),
                                id,
                                clean.as_str(),
                            );
                            let path = file.absolute_path.clone();
                            assert(path@ == absolute_path_of(
                                self.absolute_root@,
                                stored_name(id@, clean@),
                            ));
                            self.stored = Some(file);
                            self.phase = Phase::OpeningFile;
                            Action::CreateFile(path)
                        },
                        None => unreached(),
                    },
                    PartKind::Ignored => Action::NextPart,
                },
                _ => {
                    let body = join_chunks(&self.text);
                    let stored = copy_stored(&self.stored);
                    self.phase = Phase::Closed;
                    Action::Finish(Demultiplexed { body, stored })
                },
            },
            Phase::ReadingText => match event {
                Event::Chunk(bytes) => {
                    let ghost before = texts(self.text@);
                    match decode_chunk(bytes) {
                        Some(chunk) => {
                            self.text.push(chunk);
                            proof {
                                assert(texts(self.text@) =~= before.push(chunk@));
                            }
                            Action::NextChunk
                        },
                        None => self.close(NewPostError::ParseError),
                    }
                },
                Event::PartEnd => {
                    self.phase = Phase::AwaitingPart;
                    Action::NextPart
                },
                _ => self.close(NewPostError::ParseError),
            },
            Phase::OpeningFile => match event {
                Event::Completed => {
                    self.phase = Phase::ReadingFile;
                    Action::NextChunk
                },
                _ => self.close(NewPostError::FileUploadError),
            },
            Phase::ReadingFile => match event {
                Event::Chunk(bytes) => {
                    self.phase = Phase::WritingFile;
                    Action::WriteChunk(bytes)
                },
                Event::PartEnd => {
                    self.phase = Phase::AwaitingPart;
                    Action::NextPart
                },
                _ => self.close(NewPostError::FileUploadError),
            },
            Phase::WritingFile => match event {
                Event::Completed => {
                    self.phase = Phase::ReadingFile;
                    Action::NextChunk
                },
                _ => self.close(NewPostError::FileUploadError),
            },
            Phase::Closed => unreached(),
        }
    }

    /// Takes one event and answers with the next action. Where the event
    /// starts an upload, a fresh identifier is drawn for it: the outcome is
    /// that of `step_with` for some identifier of the right shape.
    pub fn step(&mut self, event: Event) -> (action: Action)
        requires
            accepts(old(self)@.phase, event@),
        ensures
            exists|id: Seq<char>|
                is_uuid_text(id) && (final(self)@, action@) == #[trigger] step_spec(
                    old(self)@,
                    event@,
                    id,
                ),
            action@ matches ActionView::CreateFile(path) ==> lies_directly_in(
                path,
                old(self)@.absolute_root,
            ),
    {
        if self.starts_upload(&event) {
            let id = fresh_id();
            let action = self.step_with(event, id.as_str());
            proof {
                if let ActionView::CreateFile(path) = action@ {
                    let root = old(self)@.absolute_root;
                    let clean = choose|clean: Seq<char>|
                        has_no_separator(clean) && path == absolute_path_of(
                            root,
                            #[trigger] stored_name(id@, clean),
                        );
                    lemma_stored_name_has_no_separator(id@, clean);
                    assert(path == absolute_path_of(root, stored_name(id@, clean)));
                }
            }
            action
        } else {
            proof {
                lemma_uuid_text_exists();
            }
            let ghost witness = choose|id: Seq<char>| is_uuid_text(id);
            let action = self.step_with(event, "");
            proof {
                assert(step_spec(old(self)@, event@, ""@) == step_spec(old(self)@, event@, witness));
            }
            action
        }
    }

    /// Takes one event if the present phase accepts it, as `step` does, and
    /// leaves everything as it is otherwise.
    pub fn try_step(&mut self, event: Event) -> (r: Option<Action>)
        ensures
            r is Some <==> accepts(old(self)@.phase, event@),
            r is None ==> final(self)@ == old(self)@,
            r matches Some(action) ==> exists|id: Seq<char>|
                is_uuid_text(id) && (final(self)@, action@) == #[trigger] step_spec(
                    old(self)@,
                    event@,
                    id,
                ),
            r matches Some(action) ==> (action@ matches ActionView::CreateFile(path)
                ==> lies_directly_in(path, old(self)@.absolute_root)),
    {
        if self.accepts(&event) {
            Some(self.step(event))
        } else {
            None
        }
    }
}

/// Every accepted event is answered in one of these ways. The request is
/// over exactly when the answer hands the outcome over or fails. A failure to
/// make sure of the directory is a path error; a text chunk that cannot be
/// read or decoded is a parse error; a file that cannot be created, read for
/// or written is an upload error; and the demultiplexer fails in no other
/// way. The directory is asked for at the start only; a file is created
/// exactly where an upload starts, so never before the directory is there;
/// and a chunk is written exactly when it arrives for a file that was
/// created, the chunk before it being written. The configuration never
/// changes.
pub proof fn lemma_answers(s: DemultiplexerView, event: EventView, id: Seq<char>)
    requires
        accepts(s.phase, event),
    ensures
        ({
            let (next, action) = step_spec(s, event, id);
            &&& next.phase == Phase::Closed <==> action is Finish || action is Fail
            &&& action == ActionView::Fail(NewPostError::FileUploadPathError) <==> s.phase
                == Phase::Preparing && event is Failed
            &&& action == ActionView::Fail(NewPostError::ParseError) <==> s.phase
                == Phase::ReadingText && (event is Failed || (event matches EventView::Chunk(bytes)
                && !valid_utf8(bytes)))
            &&& action == ActionView::Fail(NewPostError::FileUploadError) <==> (s.phase
                == Phase::OpeningFile || s.phase == Phase::ReadingFile || s.phase
                == Phase::WritingFile) && event is Failed
            &&& action != ActionView::Fail(NewPostError::QueryError)
            &&& action != ActionView::Fail(NewPostError::PermissionDenied)
            &&& action is Finish <==> s.phase == Phase::AwaitingPart && event is StreamEnd
            &&& !(action is EnsureDirectory)
            &&& action is CreateFile <==> starts_upload(s, event)
            &&& action matches ActionView::WriteChunk(written) ==> event == EventView::Chunk(
                written,
            )
            &&& action is WriteChunk <==> s.phase == Phase::ReadingFile && event is Chunk
            &&& next.phase == Phase::ReadingFile <==> (s.phase == Phase::OpeningFile || s.phase
                == Phase::WritingFile) && event is Completed
            &&& next.upload_root == s.upload_root
            &&& next.absolute_root == s.absolute_root
            &&& next.windows == s.windows
        }),
{
}

/// Some text has the shape of an identifier.
pub proof fn lemma_uuid_text_exists()
    ensures
        exists|id: Seq<char>| is_uuid_text(id),
{
    let id = Seq::new(
        36,
        |i: int|
            if is_hyphen_place(i) {
                '-'
            } else if i == 14 {
                '4'
            } else if i == 19 {
                '8'
            } else {
                '0'
            },
    );
    assert(is_uuid_text(id));
}

} // verus!

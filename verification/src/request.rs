//! A whole request, as the sequence of its parts, and what the demultiplexer
//! makes of it when it is driven without failures of the disk or the stream:
//! the text it collects, the files it has written, and the post that is
//! assembled from them.

use crate::assemble::assembled;
use crate::demux::{
    accepts, image_field, in_phase, initial_state, part_kind, step_spec, ActionView,
    DemultiplexedView, DemultiplexerView, EventView, PartKind, Phase,
};
use crate::error::NewPostError;
use crate::post::NewPostView;
use crate::text::{is_blank, is_white_space, join_with_space};
use crate::upload::{clean_name, stored_file_of, StoredFileView};
use vstd::prelude::*;
use vstd::utf8::{decode_utf8, valid_utf8};

verus! {

/// One part of a request: its name, the file name it declares, its chunks in
/// arrival order, and the identifier that is drawn when it arrives.
pub struct RequestPart {
    pub name: Seq<char>,
    pub filename: Option<Seq<char>>,
    pub chunks: Seq<Seq<u8>>,
    pub id: Seq<char>,
}

/// An event as it is fed to the demultiplexer, with the identifier drawn at
/// that step.
pub struct Fed {
    pub event: EventView,
    pub id: Seq<char>,
}

/// A file on disk: its path and what it holds.
pub struct WrittenFile {
    pub path: Seq<char>,
    pub content: Seq<u8>,
}

/// The state after the events, and the actions that answered them, in order.
pub open spec fn run(s: DemultiplexerView, feds: Seq<Fed>) -> (DemultiplexerView, Seq<ActionView>)
    decreases feds.len(),
{
    if feds.len() == 0 {
        (s, Seq::empty())
    } else {
        let before = run(s, feds.drop_last());
        let last = step_spec(before.0, feds.last().event, feds.last().id);
        (last.0, before.1.push(last.1))
    }
}

/// Whether each of the events is accepted in the phase it arrives in.
pub open spec fn fits(s: DemultiplexerView, feds: Seq<Fed>) -> bool
    decreases feds.len(),
{
    if feds.len() == 0 {
        true
    } else {
        fits(s, feds.drop_last()) && accepts(
            run(s, feds.drop_last()).0.phase,
            feds.last().event,
        )
    }
}

/// The files after the actions are carried out on `files`: a file that is
/// created is empty and comes last, and a chunk is written at the end of the
/// file that was created last.
pub open spec fn replay(files: Seq<WrittenFile>, actions: Seq<ActionView>) -> Seq<WrittenFile>
    decreases actions.len(),
{
    if actions.len() == 0 {
        files
    } else {
        let before = replay(files, actions.drop_last());
        match actions.last() {
            ActionView::CreateFile(path) => before.push(
                WrittenFile { path, content: Seq::empty() },
            ),
            ActionView::WriteChunk(bytes) => if before.len() > 0 {
                before.update(
                    before.len() - 1,
                    WrittenFile { path: before.last().path, content: before.last().content + bytes },
                )
            } else {
                before
            },
            _ => before,
        }
    }
}

/// An event at which no identifier is drawn.
pub open spec fn plain(event: EventView) -> Fed {
    Fed { event, id: Seq::empty() }
}

/// The arrival of a part.
pub open spec fn arrival(part: RequestPart) -> Fed {
    Fed { event: EventView::Part { name: part.name, filename: part.filename }, id: part.id }
}

/// What is fed while a text part is read: its chunks.
pub open spec fn text_events(chunks: Seq<Seq<u8>>) -> Seq<Fed> {
    Seq::new(chunks.len(), |i: int| plain(EventView::Chunk(chunks[i])))
}

/// What is fed while an image part is read: each chunk, and that it was
/// written.
pub open spec fn file_events(chunks: Seq<Seq<u8>>) -> Seq<Fed>
    decreases chunks.len(),
{
    if chunks.len() == 0 {
        Seq::empty()
    } else {
        file_events(chunks.drop_last()) + seq![
            plain(EventView::Chunk(chunks.last())),
            plain(EventView::Completed),
        ]
    }
}

/// The kind of a part.
pub open spec fn kind_of(part: RequestPart) -> PartKind {
    part_kind(part.name, part.filename)
}

/// What is fed for one part: its arrival, and what follows by its kind. An
/// ignored part is passed over without its chunks being read.
pub open spec fn part_events(part: RequestPart) -> Seq<Fed> {
    match kind_of(part) {
        PartKind::Text => seq![arrival(part)] + text_events(part.chunks) + seq![
            plain(EventView::PartEnd),
        ],
        PartKind::Image => seq![arrival(part), plain(EventView::Completed)] + file_events(
            part.chunks,
        ) + seq![plain(EventView::PartEnd)],
        PartKind::Ignored => seq![arrival(part)],
    }
}

/// What is fed for the parts, one after the other.
pub open spec fn parts_events(parts: Seq<RequestPart>) -> Seq<Fed>
    decreases parts.len(),
{
    if parts.len() == 0 {
        Seq::empty()
    } else {
        parts_events(parts.drop_last()) + part_events(parts.last())
    }
}

/// What is fed for a whole request: that the directory is there, the parts,
/// and the end of the stream.
pub open spec fn request_events(parts: Seq<RequestPart>) -> Seq<Fed> {
    seq![plain(EventView::Completed)] + parts_events(parts) + seq![plain(EventView::StreamEnd)]
}

/// Each chunk is well-formed UTF-8 by itself.
pub open spec fn all_valid(chunks: Seq<Seq<u8>>) -> bool {
    forall|i: int| 0 <= i < chunks.len() ==> valid_utf8(#[trigger] chunks[i])
}

/// Each chunk of each text part is well-formed UTF-8 by itself.
pub open spec fn decodable(parts: Seq<RequestPart>) -> bool {
    forall|k: int|
        0 <= k < parts.len() && kind_of(#[trigger] parts[k]) == PartKind::Text ==> all_valid(
            parts[k].chunks,
        )
}

/// No part is an image with a file name.
pub open spec fn has_no_upload(parts: Seq<RequestPart>) -> bool {
    forall|k: int| 0 <= k < parts.len() ==> kind_of(#[trigger] parts[k]) != PartKind::Image
}

/// The chunks, decoded one by one.
pub open spec fn decoded(chunks: Seq<Seq<u8>>) -> Seq<Seq<char>> {
    Seq::new(chunks.len(), |i: int| decode_utf8(chunks[i]))
}

/// The chunks one after the other.
pub open spec fn concat_bytes(chunks: Seq<Seq<u8>>) -> Seq<u8>
    decreases chunks.len(),
{
    if chunks.len() == 0 {
        Seq::empty()
    } else {
        concat_bytes(chunks.drop_last()) + chunks.last()
    }
}

/// The decoded chunks of the text parts, in arrival order.
pub open spec fn text_of(parts: Seq<RequestPart>) -> Seq<Seq<char>>
    decreases parts.len(),
{
    if parts.len() == 0 {
        Seq::empty()
    } else if kind_of(parts.last()) == PartKind::Text {
        text_of(parts.drop_last()) + decoded(parts.last().chunks)
    } else {
        text_of(parts.drop_last())
    }
}

/// Where an image part is stored.
pub open spec fn stored_as(s: DemultiplexerView, part: RequestPart) -> StoredFileView {
    stored_file_of(
        s.upload_root,
        s.absolute_root,
        part.id,
        clean_name(part.filename->0, s.windows),
    )
}

/// The file of the last image part, or `stored` where there is none.
pub open spec fn stored_of(
    s: DemultiplexerView,
    stored: Option<StoredFileView>,
    parts: Seq<RequestPart>,
) -> Option<StoredFileView>
    decreases parts.len(),
{
    if parts.len() == 0 {
        stored
    } else if kind_of(parts.last()) == PartKind::Image {
        Some(stored_as(s, parts.last()))
    } else {
        stored_of(s, stored, parts.drop_last())
    }
}

/// The files of the image parts, in arrival order: each under its own path,
/// holding its chunks one after the other.
pub open spec fn files_of(s: DemultiplexerView, parts: Seq<RequestPart>) -> Seq<WrittenFile>
    decreases parts.len(),
{
    if parts.len() == 0 {
        Seq::empty()
    } else if kind_of(parts.last()) == PartKind::Image {
        files_of(s, parts.drop_last()).push(
            WrittenFile {
                path: stored_as(s, parts.last()).absolute_path,
                content: concat_bytes(parts.last().chunks),
            },
        )
    } else {
        files_of(s, parts.drop_last())
    }
}

/// The state between two parts, after `parts` were taken in.
pub open spec fn after_parts(s: DemultiplexerView, parts: Seq<RequestPart>) -> DemultiplexerView {
    DemultiplexerView {
        text: s.text + text_of(parts),
        stored: stored_of(s, s.stored, parts),
        ..s
    }
}

/// What the demultiplexer hands over for a request.
pub open spec fn taken_in(
    upload_root: Seq<char>,
    absolute_root: Seq<char>,
    windows: bool,
    parts: Seq<RequestPart>,
) -> DemultiplexedView {
    let s = initial_state(upload_root, absolute_root, windows);
    DemultiplexedView { body: join_with_space(text_of(parts)), stored: stored_of(s, None, parts) }
}

proof fn lemma_run_one(s: DemultiplexerView, fed: Fed)
    ensures
        run(s, seq![fed]) == (
            step_spec(s, fed.event, fed.id).0,
            seq![step_spec(s, fed.event, fed.id).1],
        ),
        fits(s, seq![fed]) == accepts(s.phase, fed.event),
{
    let one = seq![fed];
    assert(run(s, one.drop_last()) == (s, Seq::<ActionView>::empty()));
    assert(fits(s, one.drop_last()));
}

proof fn lemma_run_concat(s: DemultiplexerView, a: Seq<Fed>, b: Seq<Fed>)
    ensures
        run(s, a + b).0 == run(run(s, a).0, b).0,
        run(s, a + b).1 == run(s, a).1 + run(run(s, a).0, b).1,
        fits(s, a + b) == (fits(s, a) && fits(run(s, a).0, b)),
    decreases b.len(),
{
    if b.len() > 0 {
        assert((a + b).drop_last() =~= a + b.drop_last());
        lemma_run_concat(s, a, b.drop_last());
    }
}

proof fn lemma_replay_one(files: Seq<WrittenFile>, action: ActionView)
    ensures
        replay(files, seq![action]) == match action {
            ActionView::CreateFile(path) => files.push(WrittenFile { path, content: Seq::empty() }),
            ActionView::WriteChunk(bytes) => if files.len() > 0 {
                files.update(
                    files.len() - 1,
                    WrittenFile { path: files.last().path, content: files.last().content + bytes },
                )
            } else {
                files
            },
            _ => files,
        },
{
    let one = seq![action];
    assert(replay(files, one.drop_last()) == files);
}

proof fn lemma_replay_concat(files: Seq<WrittenFile>, a: Seq<ActionView>, b: Seq<ActionView>)
    ensures
        replay(files, a + b) == replay(replay(files, a), b),
    decreases b.len(),
{
    if b.len() > 0 {
        assert((a + b).drop_last() =~= a + b.drop_last());
        lemma_replay_concat(files, a, b.drop_last());
    }
}

/// The chunks of a text part that decodes are collected in order, and
/// nothing is written.
proof fn lemma_text_chunks(s: DemultiplexerView, chunks: Seq<Seq<u8>>, files: Seq<WrittenFile>)
    requires
        s.phase == Phase::ReadingText,
        all_valid(chunks),
    ensures
        run(s, text_events(chunks)).0 == (DemultiplexerView {
            text: s.text + decoded(chunks),
            ..s
        }),
        fits(s, text_events(chunks)),
        replay(files, run(s, text_events(chunks)).1) == files,
    decreases chunks.len(),
{
    let feds = text_events(chunks);
    if chunks.len() > 0 {
        let front = chunks.drop_last();
        assert(feds.drop_last() =~= text_events(front));
        assert(all_valid(front)) by {
            assert forall|i: int| 0 <= i < front.len() implies valid_utf8(#[trigger] front[i]) by {}
        }
        lemma_text_chunks(s, front, files);
        assert((s.text + decoded(front)).push(decode_utf8(chunks.last())) =~= s.text + decoded(
            chunks,
        ));
        let before = run(s, feds.drop_last());
        assert(run(s, feds).1.drop_last() =~= before.1);
    }
}

/// The chunks of an image part are written in order at the end of the file
/// that was created for it.
proof fn lemma_file_chunks(s: DemultiplexerView, chunks: Seq<Seq<u8>>, files: Seq<WrittenFile>)
    requires
        s.phase == Phase::ReadingFile,
        files.len() > 0,
    ensures
        run(s, file_events(chunks)).0 == s,
        fits(s, file_events(chunks)),
        replay(files, run(s, file_events(chunks)).1) == files.update(
            files.len() - 1,
            WrittenFile {
                path: files.last().path,
                content: files.last().content + concat_bytes(chunks),
            },
        ),
    decreases chunks.len(),
{
    if chunks.len() > 0 {
        let front = chunks.drop_last();
        let chunk = plain(EventView::Chunk(chunks.last()));
        let done = plain(EventView::Completed);
        lemma_file_chunks(s, front, files);
        lemma_run_concat(s, file_events(front), seq![chunk, done]);
        assert(seq![chunk, done] =~= seq![chunk] + seq![done]);
        let writing = in_phase(s, Phase::WritingFile);
        lemma_run_one(s, chunk);
        lemma_run_one(writing, done);
        lemma_run_concat(s, seq![chunk], seq![done]);
        let front_actions = run(s, file_events(front)).1;
        let tail = seq![ActionView::WriteChunk(chunks.last())] + seq![ActionView::NextChunk];
        lemma_replay_concat(files, front_actions, tail);
        let mid = replay(files, front_actions);
        lemma_replay_concat(mid, seq![ActionView::WriteChunk(chunks.last())], seq![ActionView::NextChunk]);
        lemma_replay_one(mid, ActionView::WriteChunk(chunks.last()));
        let written = replay(mid, seq![ActionView::WriteChunk(chunks.last())]);
        lemma_replay_one(written, ActionView::NextChunk);
        assert(files.last().content + concat_bytes(front) + chunks.last() =~= files.last().content
            + concat_bytes(chunks));
    }
}

/// One part, taken in between two others.
proof fn lemma_part(s: DemultiplexerView, part: RequestPart, files: Seq<WrittenFile>)
    requires
        s.phase == Phase::AwaitingPart,
        kind_of(part) == PartKind::Text ==> all_valid(part.chunks),
    ensures
        run(s, part_events(part)).0 == after_parts(s, seq![part]),
        fits(s, part_events(part)),
        replay(files, run(s, part_events(part)).1) == files + files_of(s, seq![part]),
{
    let one = seq![part];
    assert(text_of(one.drop_last()) =~= Seq::<Seq<char>>::empty());
    assert(files_of(s, one.drop_last()) =~= Seq::<WrittenFile>::empty());
    assert(stored_of(s, s.stored, one.drop_last()) == s.stored);
    let end = plain(EventView::PartEnd);
    match kind_of(part) {
        PartKind::Text => {
            let reading = in_phase(s, Phase::ReadingText);
            let read = DemultiplexerView { text: reading.text + decoded(part.chunks), ..reading };
            lemma_run_one(s, arrival(part));
            lemma_text_chunks(reading, part.chunks, files);
            lemma_run_one(read, end);
            lemma_run_concat(s, seq![arrival(part)], text_events(part.chunks));
            lemma_run_concat(s, seq![arrival(part)] + text_events(part.chunks), seq![end]);
            let a1 = seq![ActionView::NextChunk];
            let a2 = run(reading, text_events(part.chunks)).1;
            let a3 = seq![ActionView::NextPart];
            lemma_replay_concat(files, a1 + a2, a3);
            lemma_replay_concat(files, a1, a2);
            lemma_replay_one(files, ActionView::NextChunk);
            lemma_replay_one(files, ActionView::NextPart);
        },
        PartKind::Image => {
            let file = stored_as(s, part);
            let opening = DemultiplexerView { phase: Phase::OpeningFile, stored: Some(file), ..s };
            let reading = in_phase(opening, Phase::ReadingFile);
            let done = plain(EventView::Completed);
            let created = files.push(WrittenFile { path: file.absolute_path, content: Seq::empty() });
            lemma_run_one(s, arrival(part));
            lemma_run_one(opening, done);
            lemma_file_chunks(reading, part.chunks, created);
            lemma_run_one(reading, end);
            assert(seq![arrival(part), done] =~= seq![arrival(part)] + seq![done]);
            lemma_run_concat(s, seq![arrival(part)], seq![done]);
            lemma_run_concat(s, seq![arrival(part), done], file_events(part.chunks));
            lemma_run_concat(
                s,
                seq![arrival(part), done] + file_events(part.chunks),
                seq![end],
            );
            let a1 = seq![ActionView::CreateFile(file.absolute_path)];
            let a2 = seq![ActionView::NextChunk];
            let a3 = run(reading, file_events(part.chunks)).1;
            let a4 = seq![ActionView::NextPart];
            lemma_replay_concat(files, a1 + a2 + a3, a4);
            lemma_replay_concat(files, a1 + a2, a3);
            lemma_replay_concat(files, a1, a2);
            lemma_replay_one(files, ActionView::CreateFile(file.absolute_path));
            lemma_replay_one(created, ActionView::NextChunk);
            let written = replay(created, a3);
            lemma_replay_one(written, ActionView::NextPart);
        },
        PartKind::Ignored => {
            lemma_run_one(s, arrival(part));
            lemma_replay_one(files, ActionView::NextPart);
        },
    }
}

/// The parts of a request, taken in one after the other.
proof fn lemma_parts(s: DemultiplexerView, parts: Seq<RequestPart>, files: Seq<WrittenFile>)
    requires
        s.phase == Phase::AwaitingPart,
        decodable(parts),
    ensures
        run(s, parts_events(parts)).0 == after_parts(s, parts),
        fits(s, parts_events(parts)),
        replay(files, run(s, parts_events(parts)).1) == files + files_of(s, parts),
    decreases parts.len(),
{
    if parts.len() > 0 {
        let front = parts.drop_last();
        let part = parts.last();
        assert(decodable(front)) by {
            assert forall|k: int|
                0 <= k < front.len() && kind_of(#[trigger] front[k])
                    == PartKind::Text implies all_valid(front[k].chunks) by {}
        }
        lemma_parts(s, front, files);
        let mid = after_parts(s, front);
        let mid_files = files + files_of(s, front);
        lemma_part(mid, part, mid_files);
        lemma_run_concat(s, parts_events(front), part_events(part));
        lemma_replay_concat(
            files,
            run(s, parts_events(front)).1,
            run(mid, part_events(part)).1,
        );
        let one = seq![part];
        assert(text_of(one.drop_last()) =~= Seq::<Seq<char>>::empty());
        assert(files_of(mid, one.drop_last()) =~= Seq::<WrittenFile>::empty());
        assert(stored_of(mid, mid.stored, one.drop_last()) == mid.stored);
        assert(mid.text + text_of(one) =~= s.text + text_of(parts));
    }
}

/// A request whose text decodes is taken in to the end: every event is
/// accepted where it arrives, the last answer hands over the text chunks of
/// the text parts, joined in arrival order by single spaces, and the file of
/// the last image part, and what was written is one file for each image
/// part, in arrival order, each holding that part's chunks one after the
/// other.
pub proof fn lemma_request_is_taken_in(
    upload_root: Seq<char>,
    absolute_root: Seq<char>,
    windows: bool,
    parts: Seq<RequestPart>,
)
    requires
        decodable(parts),
    ensures
        ({
            let s = initial_state(upload_root, absolute_root, windows);
            let end = run(s, request_events(parts));
            &&& fits(s, request_events(parts))
            &&& end.0.phase == Phase::Closed
            &&& end.1.len() > 0
            &&& end.1.last() == ActionView::Finish(
                taken_in(upload_root, absolute_root, windows, parts),
            )
            &&& replay(Seq::empty(), end.1) == files_of(s, parts)
        }),
{
    let s = initial_state(upload_root, absolute_root, windows);
    let awaiting = in_phase(s, Phase::AwaitingPart);
    let ready = plain(EventView::Completed);
    let finish = plain(EventView::StreamEnd);
    let none = Seq::<WrittenFile>::empty();
    lemma_run_one(s, ready);
    lemma_parts(awaiting, parts, none);
    let taken = after_parts(awaiting, parts);
    lemma_run_one(taken, finish);
    lemma_run_concat(s, seq![ready], parts_events(parts));
    lemma_run_concat(s, seq![ready] + parts_events(parts), seq![finish]);
    let a1 = seq![ActionView::NextPart];
    let a2 = run(awaiting, parts_events(parts)).1;
    let a3 = run(taken, seq![finish]).1;
    lemma_replay_concat(none, a1 + a2, a3);
    lemma_replay_concat(none, a1, a2);
    lemma_replay_one(none, ActionView::NextPart);
    lemma_replay_one(replay(none, a2), a3[0]);
    lemma_config_only(awaiting, s, None, parts);
}

/// Where files are stored depends on the configuration alone.
proof fn lemma_config_only(
    a: DemultiplexerView,
    b: DemultiplexerView,
    stored: Option<StoredFileView>,
    parts: Seq<RequestPart>,
)
    requires
        a.upload_root == b.upload_root,
        a.absolute_root == b.absolute_root,
        a.windows == b.windows,
    ensures
        files_of(a, parts) == files_of(b, parts),
        stored_of(a, stored, parts) == stored_of(b, stored, parts),
    decreases parts.len(),
{
    if parts.len() > 0 {
        lemma_config_only(a, b, stored, parts.drop_last());
    }
}

/// Each of the texts is blank.
pub open spec fn all_blank(chunks: Seq<Seq<char>>) -> bool {
    forall|i: int| 0 <= i < chunks.len() ==> is_blank(#[trigger] chunks[i])
}

/// No image part declares a file name that is not blank.
pub open spec fn images_are_unnamed(parts: Seq<RequestPart>) -> bool {
    forall|k: int|
        0 <= k < parts.len() && (#[trigger] parts[k]).name == image_field() ==> (parts[k].filename
            is None || is_blank(parts[k].filename->0))
}

/// The part at `k` is the only image with a file name.
pub open spec fn is_only_upload(parts: Seq<RequestPart>, k: int) -> bool {
    &&& 0 <= k < parts.len()
    &&& forall|j: int|
        0 <= j < parts.len() ==> (kind_of(#[trigger] parts[j]) == PartKind::Image <==> j == k)
}

/// Blank texts joined by spaces are blank.
pub proof fn lemma_join_of_blanks(chunks: Seq<Seq<char>>)
    requires
        all_blank(chunks),
    ensures
        is_blank(join_with_space(chunks)),
    decreases chunks.len(),
{
    if chunks.len() > 1 {
        let front = chunks.drop_last();
        assert(all_blank(front)) by {
            assert forall|i: int| 0 <= i < front.len() implies is_blank(#[trigger] front[i]) by {}
        }
        lemma_join_of_blanks(front);
        let head = join_with_space(front);
        let joined = join_with_space(chunks);
        assert forall|i: int| 0 <= i < joined.len() implies is_white_space(
            #[trigger] joined[i],
        ) by {}
    }
}

/// One text chunk alone is the joined text, exactly.
pub proof fn lemma_join_of_one(chunk: Seq<char>)
    ensures
        join_with_space(seq![chunk]) == chunk,
{
}

proof fn lemma_no_upload(
    s: DemultiplexerView,
    stored: Option<StoredFileView>,
    parts: Seq<RequestPart>,
)
    requires
        has_no_upload(parts),
    ensures
        files_of(s, parts) == Seq::<WrittenFile>::empty(),
        stored_of(s, stored, parts) == stored,
    decreases parts.len(),
{
    if parts.len() > 0 {
        let front = parts.drop_last();
        assert(has_no_upload(front)) by {
            assert forall|k: int| 0 <= k < front.len() implies kind_of(#[trigger] front[k])
                != PartKind::Image by {}
        }
        lemma_no_upload(s, stored, front);
    }
}

proof fn lemma_only_upload(
    s: DemultiplexerView,
    stored: Option<StoredFileView>,
    parts: Seq<RequestPart>,
    k: int,
)
    requires
        is_only_upload(parts, k),
    ensures
        files_of(s, parts) == seq![
            WrittenFile {
                path: stored_as(s, parts[k]).absolute_path,
                content: concat_bytes(parts[k].chunks),
            },
        ],
        stored_of(s, stored, parts) == Some(stored_as(s, parts[k])),
    decreases parts.len(),
{
    let front = parts.drop_last();
    let last = parts.len() - 1;
    if k == last {
        assert(has_no_upload(front)) by {
            assert forall|j: int| 0 <= j < front.len() implies kind_of(#[trigger] front[j])
                != PartKind::Image by {}
        }
        lemma_no_upload(s, stored, front);
    } else {
        assert(is_only_upload(front, k)) by {
            assert forall|j: int| 0 <= j < front.len() implies (kind_of(#[trigger] front[j])
                == PartKind::Image <==> j == k) by {}
        }
        lemma_only_upload(s, stored, front, k);
    }
}

/// A request without an upload, whose text decodes and is not blank, makes a
/// post without an image whose body is the decoded text chunks in arrival
/// order, joined by single spaces. Nothing is written.
pub proof fn lemma_text_only_request(
    upload_root: Seq<char>,
    absolute_root: Seq<char>,
    windows: bool,
    parts: Seq<RequestPart>,
)
    requires
        decodable(parts),
        has_no_upload(parts),
        !is_blank(join_with_space(text_of(parts))),
    ensures
        ({
            let s = initial_state(upload_root, absolute_root, windows);
            let end = run(s, request_events(parts));
            let outcome = taken_in(upload_root, absolute_root, windows, parts);
            &&& fits(s, request_events(parts))
            &&& end.1.len() > 0
            &&& end.1.last() == ActionView::Finish(outcome)
            &&& assembled(outcome) == Ok::<NewPostView, NewPostError>(
                NewPostView { body: join_with_space(text_of(parts)), image_path: Seq::empty() },
            )
            &&& replay(Seq::empty(), end.1) == Seq::<WrittenFile>::empty()
        }),
{
    let s = initial_state(upload_root, absolute_root, windows);
    lemma_request_is_taken_in(upload_root, absolute_root, windows, parts);
    lemma_no_upload(s, None, parts);
}

/// A request with one text part of one chunk that decodes, and nothing else,
/// hands that chunk's text over as it is.
pub proof fn lemma_single_chunk_round_trips(
    upload_root: Seq<char>,
    absolute_root: Seq<char>,
    windows: bool,
    part: RequestPart,
    bytes: Seq<u8>,
)
    requires
        kind_of(part) == PartKind::Text,
        part.chunks == seq![bytes],
        valid_utf8(bytes),
    ensures
        taken_in(upload_root, absolute_root, windows, seq![part]) == (DemultiplexedView {
            body: decode_utf8(bytes),
            stored: None,
        }),
{
    let parts = seq![part];
    assert(text_of(parts.drop_last()) =~= Seq::<Seq<char>>::empty());
    let s = initial_state(upload_root, absolute_root, windows);
    assert(stored_of(s, None, parts.drop_last()) is None);
}

/// A request whose text decodes to nothing but white space is refused as a
/// parse error, whatever else it carries.
pub proof fn lemma_whitespace_text_is_refused(
    upload_root: Seq<char>,
    absolute_root: Seq<char>,
    windows: bool,
    parts: Seq<RequestPart>,
)
    requires
        decodable(parts),
        all_blank(text_of(parts)),
    ensures
        ({
            let s = initial_state(upload_root, absolute_root, windows);
            let end = run(s, request_events(parts));
            let outcome = taken_in(upload_root, absolute_root, windows, parts);
            &&& end.1.len() > 0
            &&& end.1.last() == ActionView::Finish(outcome)
            &&& assembled(outcome) == Err::<NewPostView, NewPostError>(NewPostError::ParseError)
        }),
{
    lemma_request_is_taken_in(upload_root, absolute_root, windows, parts);
    lemma_join_of_blanks(text_of(parts));
}

/// Where every image part comes without a file name, or with a blank one, no
/// file is created or written, and the post that is assembled has no image.
pub proof fn lemma_unnamed_image_stores_nothing(
    upload_root: Seq<char>,
    absolute_root: Seq<char>,
    windows: bool,
    parts: Seq<RequestPart>,
)
    requires
        decodable(parts),
        images_are_unnamed(parts),
    ensures
        ({
            let s = initial_state(upload_root, absolute_root, windows);
            let end = run(s, request_events(parts));
            let outcome = taken_in(upload_root, absolute_root, windows, parts);
            &&& end.1.len() > 0
            &&& end.1.last() == ActionView::Finish(outcome)
            &&& replay(Seq::empty(), end.1) == Seq::<WrittenFile>::empty()
            &&& outcome.stored is None
            &&& assembled(outcome) matches Ok(post) ==> post.image_path.len() == 0
        }),
{
    let s = initial_state(upload_root, absolute_root, windows);
    lemma_request_is_taken_in(upload_root, absolute_root, windows, parts);
    assert(has_no_upload(parts)) by {
        assert forall|k: int| 0 <= k < parts.len() implies kind_of(#[trigger] parts[k])
            != PartKind::Image by {
            if parts[k].name == image_field() {
            }
        }
    }
    lemma_no_upload(s, None, parts);
}

/// Where exactly one part is an image with a file name, exactly one file is
/// written: it holds that part's chunks one after the other, and it is the
/// file that the post refers to.
pub proof fn lemma_single_upload(
    upload_root: Seq<char>,
    absolute_root: Seq<char>,
    windows: bool,
    parts: Seq<RequestPart>,
    k: int,
)
    requires
        decodable(parts),
        is_only_upload(parts, k),
    ensures
        ({
            let s = initial_state(upload_root, absolute_root, windows);
            let end = run(s, request_events(parts));
            let outcome = taken_in(upload_root, absolute_root, windows, parts);
            let file = stored_as(s, parts[k]);
            &&& end.1.len() > 0
            &&& end.1.last() == ActionView::Finish(outcome)
            &&& replay(Seq::empty(), end.1) == seq![
                WrittenFile { path: file.absolute_path, content: concat_bytes(parts[k].chunks) },
            ]
            &&& outcome.stored == Some(file)
            &&& assembled(outcome) matches Ok(post) ==> post.image_path == file.relative_path
        }),
{
    let s = initial_state(upload_root, absolute_root, windows);
    lemma_request_is_taken_in(upload_root, absolute_root, windows, parts);
    lemma_only_upload(s, None, parts, k);
}

} // verus!

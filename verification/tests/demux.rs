use post_intake::assemble::build_post;
use post_intake::demux::{classify_part, Action, Demultiplexed, Demultiplexer, Event, PartKind, Phase};
use post_intake::error::NewPostError;
use post_intake::upload::StoredFile;

const ID: &str = "67e55044-10b1-426f-9247-bb680e5fe0c8";

struct Part {
    name: &'static str,
    filename: Option<&'static str>,
    chunks: Vec<Vec<u8>>,
}

fn text_part(chunks: &[&str]) -> Part {
    Part {
        name: "post-editor",
        filename: None,
        chunks: chunks.iter().map(|c| c.as_bytes().to_vec()).collect(),
    }
}

fn image_part(filename: Option<&'static str>, chunks: Vec<Vec<u8>>) -> Part {
    Part { name: "image", filename, chunks }
}

/// What a driver that never fails leaves behind.
struct Run {
    actions: Vec<Action>,
    directories: Vec<String>,
    files: Vec<(String, Vec<u8>)>,
    last: Action,
    machine: Demultiplexer,
}

/// Drives the machine over `parts` with a disk in memory. With `id` every
/// upload gets that identifier; without, the machine draws its own.
fn drive(parts: Vec<Part>, id: Option<&str>) -> Run {
    let (mut machine, mut action) = Demultiplexer::begin("uploads", "/srv/app/uploads", false);
    let mut actions = Vec::new();
    let mut directories = Vec::new();
    let mut files: Vec<(String, Vec<u8>)> = Vec::new();
    let mut parts = parts.into_iter();
    let mut chunks = Vec::new().into_iter();
    loop {
        actions.push(action.clone());
        let event = match action {
            Action::EnsureDirectory(path) => {
                directories.push(path);
                Event::Completed
            }
            Action::NextPart => match parts.next() {
                Some(part) => {
                    chunks = part.chunks.into_iter();
                    Event::Part {
                        name: part.name.to_string(),
                        filename: part.filename.map(|f| f.to_string()),
                    }
                }
                None => Event::StreamEnd,
            },
            Action::NextChunk => match chunks.next() {
                Some(bytes) => Event::Chunk(bytes),
                None => Event::PartEnd,
            },
            Action::CreateFile(path) => {
                files.push((path, Vec::new()));
                Event::Completed
            }
            Action::WriteChunk(bytes) => {
                files.last_mut().unwrap().1.extend_from_slice(&bytes);
                Event::Completed
            }
            last => return Run { actions, directories, files, last, machine },
        };
        assert!(machine.accepts(&event), "{:?} in {:?}", event, machine.phase());
        action = match id {
            Some(id) => machine.step_with(event, id),
            None => machine.step(event),
        };
    }
}

fn finished(run: &Run) -> Demultiplexed {
    match &run.last {
        Action::Finish(outcome) => outcome.clone(),
        other => panic!("not finished: {:?}", other),
    }
}

#[test]
fn post_with_text_in_two_chunks_and_an_image() {
    let bytes = vec![0x89, 0x50, 0x4E, 0x47, 0x0D, 0x0A, 0x1A, 0x0A];
    let run = drive(
        vec![text_part(&["hello", "world"]), image_part(Some("cat.png"), vec![bytes.clone()])],
        Some(ID),
    );
    let relative = format!("../uploads/{}-cat.png", ID);
    let absolute = format!("/srv/app/uploads/{}-cat.png", ID);
    assert_eq!(
        run.actions,
        vec![
            Action::EnsureDirectory("/srv/app/uploads".to_string()),
            Action::NextPart,
            Action::NextChunk,
            Action::NextChunk,
            Action::NextChunk,
            Action::NextPart,
            Action::CreateFile(absolute.clone()),
            Action::NextChunk,
            Action::WriteChunk(bytes.clone()),
            Action::NextChunk,
            Action::NextPart,
            Action::Finish(Demultiplexed {
                body: "hello world".to_string(),
                stored: Some(StoredFile {
                    absolute_path: absolute.clone(),
                    relative_path: relative.clone(),
                }),
            }),
        ]
    );
    assert_eq!(run.files, vec![(absolute, bytes)]);
    let post = build_post(finished(&run)).unwrap();
    assert_eq!(post.body.as_str(), "hello world");
    assert_eq!(post.image.path, relative);
}

#[test]
fn post_with_an_image_under_a_drawn_identifier() {
    let bytes = vec![0x89, 0x50];
    let run = drive(
        vec![text_part(&["hello", "world"]), image_part(Some("cat.png"), vec![bytes.clone()])],
        None,
    );
    let post = build_post(finished(&run)).unwrap();
    assert_eq!(post.body.as_str(), "hello world");
    let path = post.image.path.clone();
    assert!(path.starts_with("../uploads/"));
    assert!(path.ends_with("-cat.png"));
    let name = &path["../uploads/".len()..];
    assert_eq!(name.len(), 36 + "-cat.png".len());
    assert_eq!(uuid::Uuid::parse_str(&name[..36]).unwrap().get_version_num(), 4);
    assert_eq!(run.files, vec![(format!("/srv/app/uploads/{}", name), bytes)]);
}

#[test]
fn post_with_empty_text_only_is_a_parse_error() {
    for chunks in [vec![], vec![""], vec!["", ""]] {
        let run = drive(vec![text_part(&chunks)], Some(ID));
        assert!(run.files.is_empty());
        assert_eq!(build_post(finished(&run)), Err(NewPostError::ParseError));
    }
}

#[test]
fn post_with_whitespace_text_only_is_a_parse_error() {
    for chunks in [vec![" "], vec!["\n", "\t"], vec!["  ", "", "\u{3000}"]] {
        let run = drive(vec![text_part(&chunks)], Some(ID));
        assert!(run.files.is_empty());
        assert_eq!(build_post(finished(&run)), Err(NewPostError::ParseError));
    }
}

#[test]
fn post_without_parts_is_a_parse_error() {
    let run = drive(vec![], Some(ID));
    assert_eq!(finished(&run), Demultiplexed { body: String::new(), stored: None });
    assert_eq!(build_post(finished(&run)), Err(NewPostError::ParseError));
}

#[test]
fn single_text_field_round_trips_exactly() {
    for text in ["hello", " padded ", "héllo wörld ✓", "line\nbreak"] {
        let run = drive(vec![text_part(&[text])], Some(ID));
        assert_eq!(finished(&run), Demultiplexed { body: text.to_string(), stored: None });
        let post = build_post(finished(&run)).unwrap();
        assert_eq!(post.body.as_str(), text);
        assert_eq!(post.image.path, "");
        assert!(!post.image.is_present());
        assert!(run.files.is_empty());
    }
}

#[test]
fn text_chunks_are_joined_by_single_spaces_in_arrival_order() {
    let run = drive(vec![text_part(&["one", "two", "three"])], Some(ID));
    assert_eq!(finished(&run).body, "one two three");
    let run = drive(vec![text_part(&["one"]), text_part(&["two", "three"])], Some(ID));
    assert_eq!(finished(&run).body, "one two three");
    let run = drive(
        vec![text_part(&["b"]), image_part(Some("x"), vec![]), text_part(&["a"])],
        Some(ID),
    );
    assert_eq!(finished(&run).body, "b a");
}

#[test]
fn image_with_blank_file_name_is_ignored() {
    for filename in [None, Some(""), Some("   "), Some("\t\n")] {
        let run = drive(
            vec![text_part(&["text"]), image_part(filename, vec![vec![1, 2, 3]])],
            Some(ID),
        );
        assert!(run.files.is_empty(), "{:?}", filename);
        assert!(!run.actions.iter().any(|a| matches!(a, Action::CreateFile(_) | Action::WriteChunk(_))));
        assert_eq!(finished(&run), Demultiplexed { body: "text".to_string(), stored: None });
        let post = build_post(finished(&run)).unwrap();
        assert!(!post.image.is_present());
    }
}

#[test]
fn unknown_fields_are_ignored() {
    let run = drive(
        vec![
            Part { name: "csrf", filename: None, chunks: vec![vec![0xFF]] },
            text_part(&["text"]),
            Part { name: "Image", filename: Some("cat.png"), chunks: vec![vec![1]] },
            Part { name: "", filename: Some("cat.png"), chunks: vec![vec![1]] },
        ],
        Some(ID),
    );
    assert!(run.files.is_empty());
    assert_eq!(finished(&run), Demultiplexed { body: "text".to_string(), stored: None });
}

#[test]
fn file_holds_the_chunks_in_order_for_every_payload_size() {
    let payloads: Vec<Vec<Vec<u8>>> = vec![
        vec![],
        vec![vec![]],
        vec![vec![0x2A]],
        vec![vec![1, 2], vec![3], vec![4, 5, 6]],
        vec![vec![0; 1000], vec![], vec![255; 17], (0..=255).collect(), vec![7]],
    ];
    for chunks in payloads {
        let whole: Vec<u8> = chunks.concat();
        let run = drive(vec![text_part(&["t"]), image_part(Some("blob.bin"), chunks)], Some(ID));
        assert_eq!(run.files, vec![(format!("/srv/app/uploads/{}-blob.bin", ID), whole)]);
    }
}

#[test]
fn several_images_are_all_written_and_the_last_is_recorded() {
    let (mut machine, _) = Demultiplexer::begin("uploads", "/srv/app/uploads", false);
    assert_eq!(machine.step_with(Event::Completed, ""), Action::NextPart);
    let first = Event::Part { name: "image".to_string(), filename: Some("a.png".to_string()) };
    assert_eq!(
        machine.step_with(first, "id-one"),
        Action::CreateFile("/srv/app/uploads/id-one-a.png".to_string())
    );
    assert_eq!(machine.step_with(Event::Completed, ""), Action::NextChunk);
    assert_eq!(machine.step_with(Event::PartEnd, ""), Action::NextPart);
    let second = Event::Part { name: "image".to_string(), filename: Some("b.png".to_string()) };
    assert_eq!(
        machine.step_with(second, "id-two"),
        Action::CreateFile("/srv/app/uploads/id-two-b.png".to_string())
    );
    assert_eq!(machine.step_with(Event::Completed, ""), Action::NextChunk);
    assert_eq!(machine.step_with(Event::PartEnd, ""), Action::NextPart);
    assert_eq!(
        machine.step_with(Event::StreamEnd, ""),
        Action::Finish(Demultiplexed {
            body: String::new(),
            stored: Some(StoredFile {
                absolute_path: "/srv/app/uploads/id-two-b.png".to_string(),
                relative_path: "../uploads/id-two-b.png".to_string(),
            }),
        })
    );
}

#[test]
fn concurrent_requests_with_one_file_name_get_different_names() {
    let mut paths = Vec::new();
    for _ in 0..32 {
        let run = drive(vec![image_part(Some("same.png"), vec![vec![1]])], None);
        let path = finished(&run).stored.unwrap().absolute_path;
        assert!(!paths.contains(&path));
        paths.push(path);
    }
}

#[test]
fn file_name_is_sanitized_before_it_is_stored() {
    let run = drive(vec![image_part(Some("../../etc/pass:wd"), vec![vec![1]])], Some(ID));
    let stored = finished(&run).stored.unwrap();
    assert_eq!(stored.absolute_path, format!("/srv/app/uploads/{}-....etcpasswd", ID));
    assert_eq!(stored.relative_path, format!("../uploads/{}-....etcpasswd", ID));
}

#[test]
fn directory_is_made_sure_of_before_any_part_is_taken() {
    let (machine, action) = Demultiplexer::begin("uploads", "/srv/app/uploads", false);
    assert_eq!(action, Action::EnsureDirectory("/srv/app/uploads".to_string()));
    assert_eq!(machine.phase(), Phase::Preparing);
    let part = Event::Part { name: "post-editor".to_string(), filename: None };
    assert!(!machine.accepts(&part));
    assert!(!machine.accepts(&Event::StreamEnd));
    let run = drive(vec![text_part(&["t"])], Some(ID));
    assert_eq!(run.directories, vec!["/srv/app/uploads".to_string()]);
    assert_eq!(run.actions[0], Action::EnsureDirectory("/srv/app/uploads".to_string()));
    assert!(!run.actions[1..].iter().any(|a| matches!(a, Action::EnsureDirectory(_))));
}

#[test]
fn failed_directory_is_a_path_error() {
    let (mut machine, _) = Demultiplexer::begin("uploads", "/srv/app/uploads", false);
    assert_eq!(
        machine.step(Event::Failed),
        Action::Fail(NewPostError::FileUploadPathError)
    );
    assert_eq!(machine.phase(), Phase::Closed);
}

fn at_image_part() -> Demultiplexer {
    let (mut machine, _) = Demultiplexer::begin("uploads", "/srv/app/uploads", false);
    assert_eq!(machine.step(Event::Completed), Action::NextPart);
    let part = Event::Part { name: "image".to_string(), filename: Some("cat.png".to_string()) };
    assert!(machine.starts_upload(&part));
    assert!(matches!(machine.step(part), Action::CreateFile(_)));
    assert_eq!(machine.phase(), Phase::OpeningFile);
    machine
}

#[test]
fn failed_file_creation_is_an_upload_error() {
    let mut machine = at_image_part();
    assert_eq!(machine.step(Event::Failed), Action::Fail(NewPostError::FileUploadError));
    assert_eq!(machine.phase(), Phase::Closed);
}

#[test]
fn failed_chunk_read_of_an_image_is_an_upload_error() {
    let mut machine = at_image_part();
    assert_eq!(machine.step(Event::Completed), Action::NextChunk);
    assert_eq!(machine.phase(), Phase::ReadingFile);
    assert_eq!(machine.step(Event::Failed), Action::Fail(NewPostError::FileUploadError));
    assert_eq!(machine.phase(), Phase::Closed);
}

#[test]
fn failed_write_is_an_upload_error() {
    let mut machine = at_image_part();
    assert_eq!(machine.step(Event::Completed), Action::NextChunk);
    assert_eq!(machine.step(Event::Chunk(vec![1, 2])), Action::WriteChunk(vec![1, 2]));
    assert_eq!(machine.phase(), Phase::WritingFile);
    assert_eq!(machine.step(Event::Failed), Action::Fail(NewPostError::FileUploadError));
    assert_eq!(machine.phase(), Phase::Closed);
}

#[test]
fn malformed_text_chunk_is_a_parse_error() {
    let (mut machine, _) = Demultiplexer::begin("uploads", "/srv/app/uploads", false);
    assert_eq!(machine.step(Event::Completed), Action::NextPart);
    let part = Event::Part { name: "post-editor".to_string(), filename: None };
    assert!(!machine.starts_upload(&part));
    assert_eq!(machine.step(part), Action::NextChunk);
    assert_eq!(machine.phase(), Phase::ReadingText);
    assert_eq!(machine.step(Event::Chunk(b"fine".to_vec())), Action::NextChunk);
    assert_eq!(machine.step(Event::Chunk(vec![0xC3])), Action::Fail(NewPostError::ParseError));
    assert_eq!(machine.phase(), Phase::Closed);
}

#[test]
fn failed_chunk_read_of_the_text_is_a_parse_error() {
    let (mut machine, _) = Demultiplexer::begin("uploads", "/srv/app/uploads", false);
    assert_eq!(machine.step(Event::Completed), Action::NextPart);
    let part = Event::Part { name: "post-editor".to_string(), filename: None };
    assert_eq!(machine.step(part), Action::NextChunk);
    assert_eq!(machine.step(Event::Chunk(b"fine".to_vec())), Action::NextChunk);
    assert_eq!(machine.step(Event::Failed), Action::Fail(NewPostError::ParseError));
    assert_eq!(machine.phase(), Phase::Closed);
}

#[test]
fn text_split_inside_a_code_point_is_a_parse_error() {
    let bytes = "é".as_bytes();
    let run = drive(
        vec![Part {
            name: "post-editor",
            filename: None,
            chunks: vec![bytes[..1].to_vec(), bytes[1..].to_vec()],
        }],
        Some(ID),
    );
    assert_eq!(run.last, Action::Fail(NewPostError::ParseError));
}

#[test]
fn text_field_with_a_file_name_is_still_text() {
    let run = drive(
        vec![Part { name: "post-editor", filename: Some("note.txt"), chunks: vec![b"hi".to_vec()] }],
        Some(ID),
    );
    assert_eq!(finished(&run), Demultiplexed { body: "hi".to_string(), stored: None });
}

#[test]
fn closed_machine_accepts_nothing() {
    let run = drive(vec![text_part(&["t"])], Some(ID));
    assert_eq!(run.machine.phase(), Phase::Closed);
    let events = [
        Event::Completed,
        Event::Failed,
        Event::Part { name: "image".to_string(), filename: None },
        Event::Chunk(vec![]),
        Event::PartEnd,
        Event::StreamEnd,
    ];
    for event in events {
        assert!(!run.machine.accepts(&event));
    }
}

#[test]
fn each_phase_accepts_its_own_events() {
    let (mut machine, _) = Demultiplexer::begin("uploads", "/srv/app/uploads", false);
    let part = Event::Part { name: "post-editor".to_string(), filename: None };
    assert!(machine.accepts(&Event::Completed) && machine.accepts(&Event::Failed));
    assert!(!machine.accepts(&Event::Chunk(vec![])) && !machine.accepts(&Event::PartEnd));
    machine.step(Event::Completed);
    assert_eq!(machine.phase(), Phase::AwaitingPart);
    assert!(machine.accepts(&part) && machine.accepts(&Event::StreamEnd));
    assert!(!machine.accepts(&Event::Completed) && !machine.accepts(&Event::Failed));
    assert!(!machine.accepts(&Event::Chunk(vec![])) && !machine.accepts(&Event::PartEnd));
    machine.step(part.clone());
    assert_eq!(machine.phase(), Phase::ReadingText);
    assert!(machine.accepts(&Event::Chunk(vec![])) && machine.accepts(&Event::PartEnd));
    assert!(machine.accepts(&Event::Failed) && !machine.accepts(&Event::Completed));
    assert!(!machine.accepts(&part) && !machine.accepts(&Event::StreamEnd));
    let mut machine = at_image_part();
    assert!(machine.accepts(&Event::Completed) && machine.accepts(&Event::Failed));
    assert!(!machine.accepts(&Event::Chunk(vec![])) && !machine.accepts(&Event::StreamEnd));
    machine.step(Event::Completed);
    assert!(machine.accepts(&Event::Chunk(vec![])) && machine.accepts(&Event::PartEnd));
    assert!(machine.accepts(&Event::Failed) && !machine.accepts(&Event::Completed));
    machine.step(Event::Chunk(vec![1]));
    assert!(machine.accepts(&Event::Completed) && machine.accepts(&Event::Failed));
    assert!(!machine.accepts(&Event::Chunk(vec![])) && !machine.accepts(&Event::PartEnd));
}

#[test]
fn parts_are_classified_by_name_and_file_name() {
    assert_eq!(classify_part("post-editor", &None), PartKind::Text);
    assert_eq!(classify_part("post-editor", &Some(String::new())), PartKind::Text);
    assert_eq!(classify_part("image", &Some("cat.png".to_string())), PartKind::Image);
    assert_eq!(classify_part("image", &Some(" c ".to_string())), PartKind::Image);
    assert_eq!(classify_part("image", &Some("  ".to_string())), PartKind::Ignored);
    assert_eq!(classify_part("image", &Some(String::new())), PartKind::Ignored);
    assert_eq!(classify_part("image", &None), PartKind::Ignored);
    assert_eq!(classify_part("avatar", &Some("cat.png".to_string())), PartKind::Ignored);
    assert_eq!(classify_part("", &None), PartKind::Ignored);
}

#[test]
fn build_post_takes_the_relative_path_as_the_image() {
    let outcome = Demultiplexed {
        body: "body".to_string(),
        stored: Some(StoredFile {
            absolute_path: "/abs/x".to_string(),
            relative_path: "../rel/x".to_string(),
        }),
    };
    let post = build_post(outcome).unwrap();
    assert_eq!(post.body.as_str(), "body");
    assert_eq!(post.image.path, "../rel/x");
    let outcome = Demultiplexed { body: " ".to_string(), stored: None };
    assert_eq!(build_post(outcome), Err(NewPostError::ParseError));
}

#[test]
fn try_step_takes_what_the_phase_accepts_and_nothing_else() {
    let (mut machine, _) = Demultiplexer::begin("uploads", "/srv/app/uploads", false);
    assert_eq!(machine.try_step(Event::PartEnd), None);
    assert_eq!(machine.try_step(Event::StreamEnd), None);
    assert_eq!(machine.phase(), Phase::Preparing);
    assert_eq!(machine.try_step(Event::Completed), Some(Action::NextPart));
    assert_eq!(machine.phase(), Phase::AwaitingPart);
    assert_eq!(machine.try_step(Event::Chunk(vec![1])), None);
    let part = Event::Part { name: "post-editor".to_string(), filename: None };
    assert_eq!(machine.try_step(part), Some(Action::NextChunk));
    assert_eq!(machine.try_step(Event::Completed), None);
    assert_eq!(machine.try_step(Event::StreamEnd), None);
    assert_eq!(machine.phase(), Phase::ReadingText);
    assert_eq!(machine.try_step(Event::Chunk(b"kept".to_vec())), Some(Action::NextChunk));
    assert_eq!(machine.try_step(Event::PartEnd), Some(Action::NextPart));
    assert_eq!(
        machine.try_step(Event::StreamEnd),
        Some(Action::Finish(Demultiplexed { body: "kept".to_string(), stored: None }))
    );
    assert_eq!(machine.try_step(Event::StreamEnd), None);
    assert_eq!(machine.phase(), Phase::Closed);
}

#[test]
fn created_file_lies_directly_in_the_upload_root() {
    for filename in ["../../etc/passwd", "a/b/c.png", "..\\x", "/abs.png", "ok.png"] {
        let (mut machine, _) = Demultiplexer::begin("uploads", "/srv/app/uploads", false);
        machine.step(Event::Completed);
        let part = Event::Part { name: "image".to_string(), filename: Some(filename.to_string()) };
        match machine.step(part) {
            Action::CreateFile(path) => {
                let name = path.strip_prefix("/srv/app/uploads/").unwrap();
                assert!(!name.is_empty());
                assert!(!name.contains('/') && !name.contains('\\'), "{}", path);
            }
            other => panic!("{:?}", other),
        }
    }
}

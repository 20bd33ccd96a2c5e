use vidcut::error::OperationError;
use vidcut::geometry::CropRect;
use vidcut::invocation::{
    apply_crop, argument_list, build_clip_extraction, build_frame_extraction, build_invocation,
    clip_extraction, frame_extraction, invocation, OperationRequest,
};

fn rect(x: &str, y: &str, w: &str, h: &str) -> CropRect {
    CropRect::new(x.to_string(), y.to_string(), w.to_string(), h.to_string())
}

fn no_crop() -> CropRect {
    rect("0", "0", "1", "1")
}

fn s(text: &str) -> String {
    text.to_string()
}

fn some_regular_file() -> String {
    let candidates = ["/proc/self/exe", "/bin/sh", "/etc/hostname", "Cargo.toml"];
    for candidate in candidates {
        if std::path::Path::new(candidate).is_file() {
            return candidate.to_string();
        }
    }
    panic!("no regular file to read from");
}

fn position(list: &[String], token: &str) -> usize {
    list.iter().position(|a| a == token).unwrap()
}

#[test]
fn frame_extraction_without_crop() {
    let command =
        frame_extraction(true, &s("in.mp4"), &s("out.png"), &s("00:00:05"), &no_crop()).unwrap();
    let arguments = argument_list(&command);
    assert_eq!(
        arguments,
        vec![
            "-loglevel", "level+info", "-y", "-hwaccel", "auto", "-an", "-vsync", "0", "-ss",
            "00:00:05", "-i", "in.mp4", "-update", "1", "-frames:v", "1", "-lossless", "1",
            "-compression_level", "6", "-quality", "100", "-qscale", "100", "-qmin", "1", "-q:v",
            "1", "out.png",
        ]
    );
    assert!(position(&arguments, "-ss") < position(&arguments, "-i"));
    assert_eq!(arguments[position(&arguments, "-ss") + 1], "00:00:05");
    assert_eq!(arguments[position(&arguments, "-frames:v") + 1], "1");
    assert_eq!(arguments[position(&arguments, "-update") + 1], "1");
    assert!(!arguments.iter().any(|a| a == "-filter:v"));
    assert!(!arguments.iter().any(|a| a.starts_with("crop=")));
}

#[test]
fn frame_extraction_with_crop_does_not_pad() {
    let command = frame_extraction(
        true,
        &s("a.mkv"),
        &s("b.webp"),
        &s("12.5"),
        &rect("0.1", "0.2", "0.3", "0.4"),
    )
    .unwrap();
    let arguments = argument_list(&command);
    assert_eq!(arguments.len(), 31);
    assert_eq!(arguments[28], "-filter:v");
    assert_eq!(
        arguments[29],
        "crop=floor(in_w*0.3+0.5):floor(in_h*0.4+0.5):floor(in_w*0.1+0.5):floor(in_h*0.2+0.5)"
    );
    assert_eq!(arguments[30], "b.webp");
}

#[test]
fn clip_extraction_without_audio() {
    let command = clip_extraction(
        true,
        &s("in.mp4"),
        &s("out.mp4"),
        &s("00:01:00"),
        &s("10"),
        false,
        &no_crop(),
    )
    .unwrap();
    assert_eq!(
        argument_list(&command),
        vec![
            "-loglevel", "level+info", "-y", "-hwaccel", "auto", "-an", "-vsync", "0", "-ss",
            "00:01:00", "-t", "10", "-i", "in.mp4", "out.mp4",
        ]
    );
}

#[test]
fn clip_extraction_with_audio_has_no_audio_flag() {
    let command = clip_extraction(
        true,
        &s("in.mp4"),
        &s("out.mp4"),
        &s("00:01:00"),
        &s("10"),
        true,
        &no_crop(),
    )
    .unwrap();
    let arguments = argument_list(&command);
    assert_eq!(
        arguments,
        vec![
            "-loglevel", "level+info", "-y", "-hwaccel", "auto", "-vsync", "0", "-ss", "00:01:00",
            "-t", "10", "-i", "in.mp4", "out.mp4",
        ]
    );
    assert!(!arguments.iter().any(|a| a == "-an"));
}

#[test]
fn clip_extraction_with_centre_crop() {
    let command = clip_extraction(
        true,
        &s("in.mp4"),
        &s("out.mp4"),
        &s("3"),
        &s("4"),
        true,
        &rect("0.25", "0.25", "0.5", "0.5"),
    )
    .unwrap();
    let arguments = argument_list(&command);
    assert_eq!(arguments.len(), 16);
    assert_eq!(arguments[13], "-filter:v");
    assert_eq!(
        arguments[14],
        "crop=floor(in_w*0.5+0.5):floor(in_h*0.5+0.5):floor(in_w*0.25+0.5):floor(in_h*0.25+0.5),pad=ceil(in_w/2)*2:ceil(in_h/2)*2"
    );
    assert_eq!(arguments[15], "out.mp4");
    assert!(position(&arguments, "-ss") < position(&arguments, "-t"));
    assert!(position(&arguments, "-t") < position(&arguments, "-i"));
}

#[test]
fn missing_source_builds_nothing() {
    let frame = frame_extraction(false, &s("in.mp4"), &s("out.png"), &s("1"), &no_crop());
    assert_eq!(frame.err(), Some(OperationError::SourceNotFound));
    let clip = clip_extraction(false, &s("in.mp4"), &s("o.mp4"), &s("1"), &s("2"), true, &no_crop());
    assert_eq!(clip.err(), Some(OperationError::SourceNotFound));
}

#[test]
fn nonexistent_path_is_source_not_found() {
    let missing = s("/no/such/directory/at/all/video.mp4");
    let frame = build_frame_extraction(&missing, &s("out.png"), &s("1"), &no_crop());
    let error = frame.err().unwrap();
    assert_eq!(error, OperationError::SourceNotFound);
    assert_eq!(error.message(), "Source video does not exist");
    let clip = build_clip_extraction(&missing, &s("out.mp4"), &s("1"), &s("2"), false, &no_crop());
    assert_eq!(clip.err(), Some(OperationError::SourceNotFound));
    let request = OperationRequest::ExtractFrame {
        source: missing,
        dest: s("out.png"),
        time: s("1"),
        crop: no_crop(),
    };
    assert_eq!(build_invocation(&request).err(), Some(OperationError::SourceNotFound));
}

#[test]
fn existing_file_builds_the_command() {
    let file = some_regular_file();
    let frame = build_frame_extraction(&file, &s("out.png"), &s("7"), &no_crop()).unwrap();
    let expected = frame_extraction(true, &file, &s("out.png"), &s("7"), &no_crop()).unwrap();
    assert_eq!(argument_list(&frame), argument_list(&expected));
    let clip =
        build_clip_extraction(&file, &s("out.mp4"), &s("7"), &s("8"), false, &no_crop()).unwrap();
    let arguments = argument_list(&clip);
    assert_eq!(arguments[position(&arguments, "-i") + 1], file);
    assert_eq!(arguments[position(&arguments, "-t") + 1], "8");
}

#[test]
fn directory_is_source_not_found() {
    let here = s(".");
    let frame = build_frame_extraction(&here, &s("out.png"), &s("7"), &no_crop());
    assert_eq!(frame.err(), Some(OperationError::SourceNotFound));
    let clip = build_clip_extraction(&s("/"), &s("out.mp4"), &s("7"), &s("8"), true, &no_crop());
    assert_eq!(clip.err(), Some(OperationError::SourceNotFound));
    let request = OperationRequest::ExtractClip {
        source: here,
        dest: s("out.mp4"),
        start: s("7"),
        duration: s("8"),
        keep_audio: true,
        crop: no_crop(),
    };
    assert_eq!(build_invocation(&request).err(), Some(OperationError::SourceNotFound));
}

#[test]
fn token_with_nul_leaves_the_others_in_place() {
    let command = clip_extraction(
        true,
        &s("in.mp4"),
        &s("out.mp4"),
        &s("a\0b"),
        &s("10"),
        true,
        &rect("0", "0", "0.5", "0.5"),
    )
    .unwrap();
    let arguments = argument_list(&command);
    let expected = vec![
        "-loglevel", "level+info", "-y", "-hwaccel", "auto", "-vsync", "0", "-ss", "a\0b", "-t",
        "10", "-i", "in.mp4", "-filter:v",
        "crop=floor(in_w*0.5+0.5):floor(in_h*0.5+0.5):floor(in_w*0+0.5):floor(in_h*0+0.5),pad=ceil(in_w/2)*2:ceil(in_h/2)*2",
        "out.mp4",
    ];
    assert_eq!(arguments.len(), expected.len());
    for (place, token) in expected.iter().enumerate() {
        if place != 8 {
            assert_eq!(arguments[place], *token);
        }
    }
}

#[test]
fn crop_text_with_nul_leaves_the_others_in_place() {
    let command = frame_extraction(
        true,
        &s("in.mp4"),
        &s("out\0.png"),
        &s("1"),
        &rect("0\0", "0", "0.5", "0.5"),
    )
    .unwrap();
    let arguments = argument_list(&command);
    assert_eq!(arguments.len(), 31);
    assert_eq!(arguments[8], "-ss");
    assert_eq!(arguments[9], "1");
    assert_eq!(arguments[10], "-i");
    assert_eq!(arguments[11], "in.mp4");
    assert_eq!(arguments[27], "1");
    assert_eq!(arguments[28], "-filter:v");
}

#[test]
fn request_builds_the_same_command_as_its_builder() {
    let crop = rect("0", "0", "0.5", "1");
    let frame = OperationRequest::ExtractFrame {
        source: s("a"),
        dest: s("b"),
        time: s("c"),
        crop: crop.clone(),
    };
    assert_eq!(
        argument_list(&invocation(true, &frame).unwrap()),
        argument_list(&frame_extraction(true, &s("a"), &s("b"), &s("c"), &crop).unwrap())
    );
    let clip = OperationRequest::ExtractClip {
        source: s("a"),
        dest: s("b"),
        start: s("c"),
        duration: s("d"),
        keep_audio: false,
        crop: crop.clone(),
    };
    assert_eq!(
        argument_list(&invocation(true, &clip).unwrap()),
        argument_list(
            &clip_extraction(true, &s("a"), &s("b"), &s("c"), &s("d"), false, &crop).unwrap()
        )
    );
    assert_eq!(invocation(false, &clip).err(), Some(OperationError::SourceNotFound));
    let built = build_invocation(&OperationRequest::ExtractClip {
        source: some_regular_file(),
        dest: s("b"),
        start: s("c"),
        duration: s("d"),
        keep_audio: true,
        crop,
    })
    .unwrap();
    assert_eq!(argument_list(&built).len(), 16);
}

#[test]
fn apply_crop_appends_flag_and_filter() {
    let mut command = frame_extraction(true, &s("a"), &s("b"), &s("c"), &no_crop()).unwrap();
    let before = argument_list(&command);
    apply_crop(&mut command, &no_crop(), true);
    assert_eq!(argument_list(&command), before);
    apply_crop(&mut command, &rect("0", "0", "0.5", "0.5"), false);
    let after = argument_list(&command);
    assert_eq!(after.len(), before.len() + 2);
    assert_eq!(after[..before.len()], before[..]);
    assert_eq!(after[before.len()], "-filter:v");
    assert_eq!(
        after[before.len() + 1],
        "crop=floor(in_w*0.5+0.5):floor(in_h*0.5+0.5):floor(in_w*0+0.5):floor(in_h*0+0.5)"
    );
}

#[test]
fn caller_tokens_pass_through_unread() {
    let command = clip_extraction(
        true,
        &s("my video.mp4"),
        &s("-an"),
        &s("not a time"),
        &s(""),
        true,
        &no_crop(),
    )
    .unwrap();
    let arguments = argument_list(&command);
    assert_eq!(arguments[8], "not a time");
    assert_eq!(arguments[10], "");
    assert_eq!(arguments[12], "my video.mp4");
    assert_eq!(arguments[13], "-an");
}

use file_gateway::path::{has_suffix, names_sample};
use file_gateway::{write_sample_file, FileError, Job, Progress, Request, Stage};

fn riff() -> Vec<u8> {
    vec![0x52, 0x49, 0x46, 0x46]
}

fn begun(base_dir: &str, relative_path: &str, buffer: Vec<u8>) -> Job {
    match write_sample_file(base_dir.to_string(), relative_path.to_string(), buffer) {
        Ok(job) => job,
        Err(error) => panic!("no job: {}", error.message()),
    }
}

fn pending(progress: Progress) -> Job {
    match progress {
        Progress::Pending(job) => job,
        other => panic!("the job has ended: {:?}", other),
    }
}

#[test]
fn sample_is_written_in_three_calls() {
    let bytes = riff();
    let job = begun("/tmp/proj", "samples/kick.wav", riff());
    assert_eq!(job.stage(), Stage::Directories);
    assert_eq!(job.directory(), "/tmp/proj/samples");
    assert_eq!(job.path(), "/tmp/proj/samples/kick.wav");
    assert_eq!(job.request(), Request::CreateDirectories { directory: "/tmp/proj/samples" });

    let job = pending(job.advance(Ok(())));
    assert_eq!(job.stage(), Stage::File);
    assert_eq!(job.request(), Request::CreateFile { path: "/tmp/proj/samples/kick.wav" });

    let job = pending(job.advance(Ok(())));
    assert_eq!(job.stage(), Stage::Contents);
    assert_eq!(
        job.request(),
        Request::WriteContents { path: "/tmp/proj/samples/kick.wav", bytes: &bytes[..] }
    );

    assert_eq!(job.advance(Ok(())), Progress::Done);
}

#[test]
fn path_without_wav_suffix_is_refused() {
    for relative_path in ["samples/kick.mp3", "kick", "", "wav", "kick.wa", "kick.wav ", "kick.wav/"] {
        let started = write_sample_file("/tmp/proj".to_string(), relative_path.to_string(), riff());
        assert_eq!(started, Err(FileError::Validation), "{:?}", relative_path);
    }
}

#[test]
fn suffix_is_matched_in_lower_case_only() {
    for relative_path in ["kick.WAV", "kick.Wav", "kick.waV"] {
        let started = write_sample_file("/tmp/proj".to_string(), relative_path.to_string(), riff());
        assert_eq!(started, Err(FileError::Validation), "{:?}", relative_path);
    }
}

#[test]
fn refusal_comes_before_any_path_is_looked_at() {
    let started = write_sample_file(String::new(), String::new(), Vec::new());
    assert_eq!(started, Err(FileError::Validation));
    let started = write_sample_file("/".to_string(), "..".to_string(), Vec::new());
    assert_eq!(started, Err(FileError::Validation));
}

#[test]
fn bare_suffix_is_a_sample_name() {
    let job = begun("/tmp/proj", ".wav", riff());
    assert_eq!(job.path(), "/tmp/proj/.wav");
    assert_eq!(job.directory(), "/tmp/proj");
}

#[test]
fn sample_under_empty_base_has_empty_parent() {
    let job = begun("", "kick.wav", riff());
    assert_eq!(job.path(), "kick.wav");
    assert_eq!(job.directory(), "");
    assert_eq!(job.request(), Request::CreateDirectories { directory: "" });
}

#[test]
fn absolute_relative_path_replaces_the_base() {
    let job = begun("/tmp/proj", "/srv/audio/kick.wav", riff());
    assert_eq!(job.path(), "/srv/audio/kick.wav");
    assert_eq!(job.directory(), "/srv/audio");
}

#[test]
fn base_with_trailing_separator_gets_no_second_one() {
    let job = begun("/tmp/proj/", "kick.wav", riff());
    assert_eq!(job.path(), "/tmp/proj/kick.wav");
    assert_eq!(job.directory(), "/tmp/proj");
}

#[test]
fn names_beyond_ascii_are_kept() {
    let job = begun("/tmp/données", "été/grosse caisse.wav", riff());
    assert_eq!(job.path(), "/tmp/données/été/grosse caisse.wav");
    assert_eq!(job.directory(), "/tmp/données/été");
}

#[test]
fn empty_buffer_is_still_written() {
    let job = begun("/tmp/proj", "silence.wav", Vec::new());
    let job = pending(job.advance(Ok(())));
    let job = pending(job.advance(Ok(())));
    assert_eq!(
        job.request(),
        Request::WriteContents { path: "/tmp/proj/silence.wav", bytes: &[] }
    );
    assert_eq!(job.advance(Ok(())), Progress::Done);
}

#[test]
fn second_write_carries_the_second_buffer() {
    let first = begun("/tmp/proj", "kick.wav", vec![1, 2, 3]);
    let second = begun("/tmp/proj", "kick.wav", vec![9, 8]);
    assert_eq!(first.path(), second.path());

    let second = pending(second.advance(Ok(())));
    assert_eq!(second.request(), Request::CreateFile { path: "/tmp/proj/kick.wav" });
    let second = pending(second.advance(Ok(())));
    assert_eq!(
        second.request(),
        Request::WriteContents { path: "/tmp/proj/kick.wav", bytes: &[9, 8] }
    );
}

#[test]
fn large_buffer_arrives_unchanged() {
    let bytes: Vec<u8> = (0..70_000u32).map(|i| (i % 251) as u8).collect();
    let job = begun("/tmp/proj", "long.wav", bytes.clone());
    let job = pending(pending(job.advance(Ok(()))).advance(Ok(())));
    assert_eq!(
        job.request(),
        Request::WriteContents { path: "/tmp/proj/long.wav", bytes: &bytes[..] }
    );
}

#[test]
fn has_suffix_compares_the_tail() {
    assert!(has_suffix("kick.wav", ".wav"));
    assert!(has_suffix(".wav", ".wav"));
    assert!(has_suffix("kick.wav", ""));
    assert!(has_suffix("", ""));
    assert!(!has_suffix("wav", ".wav"));
    assert!(!has_suffix("kick.wav.bak", ".wav"));
    assert!(!has_suffix("kick.wbv", ".wav"));
    assert!(!has_suffix("kick_wav", ".wav"));
    assert!(has_suffix("caf\u{e9}", "f\u{e9}"));
    assert!(!has_suffix("cafe", "f\u{e9}"));
}

#[test]
fn names_sample_agrees_with_std() {
    for name in ["a.wav", ".wav", "wav", "", "a.WAV", "a.wav.", "\u{e9}t\u{e9}.wav", "a.wa\u{76}"] {
        assert_eq!(names_sample(name), name.ends_with(".wav"), "{:?}", name);
    }
}

use image_watcher::config::{FileWatch, ImgEditJobs, SharedSettings};
use image_watcher::watch::{FileWatched, Mode};

fn task() -> FileWatch {
    FileWatch {
        path: "a.png".to_string(),
        output: "a.min.png".to_string(),
        other: SharedSettings {
            jobs: ImgEditJobs {
                resize: None,
                blur: None,
                flipv: false,
                fliph: false,
                rotate90: false,
                rotate180: false,
                rotate270: false,
                grayscale: false,
                invert: false,
            },
            resize_filter: None,
        },
    }
}

#[test]
fn reprocesses_on_first_and_on_each_change() {
    let mut w = FileWatched::new(task());
    let runs = w.observe_series(&vec![10, 20, 20, 30]);
    assert_eq!(runs, vec![true, true, false, true]);
}

#[test]
fn first_observation_always_triggers() {
    let mut w = FileWatched::new(task());
    assert!(w.observe(42));
    assert_eq!(w.time, Some(42));
}

#[test]
fn unchanged_timestamp_does_not_trigger() {
    let mut w = FileWatched::new(task());
    w.observe(42);
    assert!(!w.observe(42));
}

#[test]
fn backward_change_triggers_too() {
    let mut w = FileWatched::new(task());
    w.observe(42);
    assert!(w.observe(41));
    assert_eq!(w.time, Some(41));
}

#[test]
fn compile_flag_selects_batch_mode() {
    let args = vec!["prog".to_string(), "-c".to_string()];
    assert_eq!(
        image_watcher::watch::mode_from_args(&args),
        Some(Mode::Compile)
    );
}

#[test]
fn watch_flag_selects_watch_mode() {
    let args = vec!["prog".to_string(), "-w".to_string()];
    assert_eq!(
        image_watcher::watch::mode_from_args(&args),
        Some(Mode::Watch)
    );
}

#[test]
fn first_flag_wins() {
    let args = vec!["prog".to_string(), "-w".to_string(), "-c".to_string()];
    assert_eq!(
        image_watcher::watch::mode_from_args(&args),
        Some(Mode::Watch)
    );
}

#[test]
fn flag_variants_are_accepted_in_the_argument_list() {
    let args = vec!["prog".to_string(), "--Compile".to_string()];
    assert_eq!(
        image_watcher::watch::mode_from_args(&args),
        Some(Mode::Compile)
    );
    let args = vec!["prog".to_string(), "watch".to_string()];
    assert_eq!(
        image_watcher::watch::mode_from_args(&args),
        Some(Mode::Watch)
    );
    let args = vec!["prog".to_string(), "-W".to_string()];
    assert_eq!(
        image_watcher::watch::mode_from_args(&args),
        Some(Mode::Watch)
    );
}

#[test]
fn no_flag_leaves_the_choice_open() {
    let args = vec!["prog".to_string(), "other".to_string()];
    assert_eq!(image_watcher::watch::mode_from_args(&args), None);
}

#[test]
fn mode_words_are_recognized() {
    for word in [
        "C", "c", "-c", "-C", "--compile", "--Compile", "-compile", "-Compile", "--C", "--c",
        "compile", "Compile",
    ] {
        assert_eq!(Mode::from_str(word), Ok(Mode::Compile));
    }
    for word in [
        "W", "w", "-w", "-W", "--watch", "--Watch", "-watch", "-Watch", "--W", "--w", "watch",
        "Watch",
    ] {
        assert_eq!(Mode::from_str(word), Ok(Mode::Watch));
    }
    assert_eq!(Mode::from_str("banana"), Err(()));
    assert_eq!(Mode::from_str(""), Err(()));
}

#[test]
fn batch_mode_stops_after_one_pass_watch_mode_continues() {
    assert!(!image_watcher::watch::continues_after_pass(&Mode::Compile));
    assert!(image_watcher::watch::continues_after_pass(&Mode::Watch));
}

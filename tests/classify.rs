use createdat::{
    classify, classify_with_media, get_extensions, Args, Decision, Entry, Selection, SkipReason,
    Timestamp,
};

fn file(name: &str) -> Entry {
    Entry {
        name: name.to_string(),
        is_dir: false,
        modified: Timestamp { secs: 1721212200, nanos: 0, offset_secs: 0 },
    }
}

fn dir(name: &str) -> Entry {
    Entry { is_dir: true, ..file(name) }
}

fn chosen(exts: &[&str]) -> Selection {
    Selection::Extensions(exts.iter().map(|e| e.to_string()).collect())
}

#[test]
fn directories_are_always_skipped() {
    for selection in [Selection::All, Selection::Images, chosen(&["jpg"])] {
        assert_eq!(
            classify(&dir("photos.jpg"), &selection),
            Decision::Skipped(SkipReason::Directory)
        );
    }
}

#[test]
fn all_selects_every_file() {
    for name in ["test.jpg", "test.mp4", ".gitignore", "README"] {
        assert_eq!(classify(&file(name), &Selection::All), Decision::Eligible);
    }
}

#[test]
fn extensions_select_chosen_ones() {
    let selection = chosen(&["jpg", "gitignore"]);
    assert_eq!(classify(&file("test.jpg"), &selection), Decision::Eligible);
    assert_eq!(classify(&file(".gitignore"), &selection), Decision::Eligible);
    assert_eq!(
        classify(&file("test.mp4"), &selection),
        Decision::Skipped(SkipReason::ExtensionNotChosen)
    );
}

#[test]
fn images_are_told_by_name() {
    assert_eq!(classify(&file("test.jpg"), &Selection::Images), Decision::Eligible);
    assert_eq!(classify(&file("shot.PNG"), &Selection::Images), Decision::Eligible);
    assert_eq!(
        classify(&file("test.mp4"), &Selection::Images),
        Decision::Skipped(SkipReason::NotAnImage)
    );
    assert_eq!(
        classify(&file(".gitignore"), &Selection::Images),
        Decision::Skipped(SkipReason::NotAnImage)
    );
    assert_eq!(
        classify(&file("README"), &Selection::Images),
        Decision::Skipped(SkipReason::NotAnImage)
    );
}

#[test]
fn media_type_decides_for_images() {
    let entry = file("whatever.bin");
    assert_eq!(
        classify_with_media(&entry, &Selection::Images, &Some("image/png".to_string())),
        Decision::Eligible
    );
    assert_eq!(
        classify_with_media(&entry, &Selection::Images, &Some("text/plain".to_string())),
        Decision::Skipped(SkipReason::NotAnImage)
    );
    assert_eq!(
        classify_with_media(&entry, &Selection::Images, &Some("imagex/y".to_string())),
        Decision::Skipped(SkipReason::NotAnImage)
    );
    assert_eq!(
        classify_with_media(&entry, &Selection::Images, &None),
        Decision::Skipped(SkipReason::NotAnImage)
    );
    assert_eq!(
        classify_with_media(&entry, &Selection::All, &None),
        Decision::Eligible
    );
}

#[test]
fn classifying_twice_agrees() {
    for name in ["test.jpg", "test.mp4", ".gitignore"] {
        for selection in [Selection::All, Selection::Images, chosen(&["mp4"])] {
            assert_eq!(
                classify(&file(name), &selection),
                classify(&file(name), &selection)
            );
        }
    }
}

#[test]
fn extensions_offered_once_in_order() {
    let entries = vec![
        file("test.jpg"),
        dir("sub.dir"),
        file("test.mp4"),
        file(".gitignore"),
        file("other.jpg"),
        file("README"),
    ];
    assert_eq!(
        get_extensions(&entries),
        vec![
            "jpg".to_string(),
            "mp4".to_string(),
            "gitignore".to_string(),
            String::new()
        ]
    );
}

#[test]
fn selection_follows_options() {
    let mut cli = Args::default();
    assert!(matches!(cli.selection(vec![]), Selection::Images));
    cli.all = true;
    assert!(matches!(cli.selection(vec![]), Selection::All));
    cli.extension = true;
    match cli.selection(vec!["jpg".to_string()]) {
        Selection::Extensions(v) => assert_eq!(v, vec!["jpg".to_string()]),
        other => panic!("unexpected selection {:?}", other),
    }
}

#[test]
fn folders_default_and_trim() {
    let mut cli = Args::default();
    assert_eq!(cli.target_folder(), "renamed");
    assert_eq!(cli.source_folder(), None);
    cli.target = Some("  out ".to_string());
    cli.source = Some(" ../ ".to_string());
    assert_eq!(cli.target_folder(), "out");
    assert_eq!(cli.source_folder(), Some("../".to_string()));
}

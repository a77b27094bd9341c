use createdat::{
    format_time, get_filename_delimiter, get_image_destination, get_space_character,
    split_file_name, Args, Timestamp,
};

/// 2024-07-17 10:30:00 at UTC.
fn at_half_past_ten() -> Timestamp {
    Timestamp { secs: 1721212200, nanos: 0, offset_secs: 0 }
}

fn name_of(cli: &Args, file: &str) -> String {
    get_image_destination(cli, file, &at_half_past_ten()).unwrap()
}

fn all_with(f: impl Fn(&mut Args)) -> Args {
    let mut cli = Args::default();
    cli.all = true;
    f(&mut cli);
    cli
}

#[test]
fn space_character_follows_option() {
    let mut cli = Args::default();
    assert_eq!(get_space_character(&cli), "_");
    cli.space = true;
    assert_eq!(get_space_character(&cli), " ");
}

#[test]
fn filename_delimiter_is_dash() {
    assert_eq!(get_filename_delimiter(), "-");
}

#[test]
fn split_plain_name() {
    assert_eq!(split_file_name("test.jpg"), ("test".to_string(), "jpg".to_string()));
}

#[test]
fn split_takes_last_dot() {
    assert_eq!(
        split_file_name("archive.tar.gz"),
        ("archive.tar".to_string(), "gz".to_string())
    );
}

#[test]
fn split_dotfile_keeps_remainder_twice() {
    assert_eq!(
        split_file_name(".gitignore"),
        ("gitignore".to_string(), "gitignore".to_string())
    );
}

#[test]
fn split_name_without_dot() {
    assert_eq!(split_file_name("README"), ("README".to_string(), String::new()));
}

#[test]
fn default_time_format() {
    let cli = Args::default();
    assert_eq!(
        format_time(&cli, &at_half_past_ten()).unwrap(),
        "2024-07-17_10-30-00"
    );
}

#[test]
fn twelve_hour_time_format() {
    let cli = all_with(|c| c.twelve = true);
    assert_eq!(
        format_time(&cli, &at_half_past_ten()).unwrap(),
        "2024-07-17_10-30-00-AM"
    );
    let evening = Timestamp { secs: 1721253909, nanos: 0, offset_secs: 0 };
    assert_eq!(format_time(&cli, &evening).unwrap(), "2024-07-17_10-05-09-PM");
}

#[test]
fn space_time_format() {
    let cli = all_with(|c| c.space = true);
    assert_eq!(
        format_time(&cli, &at_half_past_ten()).unwrap(),
        "2024-07-17 10-30-00"
    );
}

#[test]
fn date_only_wins_over_twelve_hours() {
    let cli = all_with(|c| {
        c.date = true;
        c.twelve = true;
    });
    assert_eq!(format_time(&cli, &at_half_past_ten()).unwrap(), "2024-07-17");
}

#[test]
fn custom_format_wins_and_is_sanitized() {
    let cli = all_with(|c| {
        c.date = true;
        c.format = Some("%a %b %e %Y".to_string());
    });
    assert_eq!(
        format_time(&cli, &at_half_past_ten()).unwrap(),
        "Wed Jul 17 2024"
    );
    let slashes = all_with(|c| c.format = Some("%Y/%m/%d".to_string()));
    assert_eq!(format_time(&slashes, &at_half_past_ten()).unwrap(), "20240717");
}

#[test]
fn offset_shifts_local_time() {
    let cli = Args::default();
    let t = Timestamp { secs: 1721212200, nanos: 0, offset_secs: 2 * 3600 };
    assert_eq!(format_time(&cli, &t).unwrap(), "2024-07-17_12-30-00");
}

#[test]
fn unknown_format_item_gives_no_name() {
    let cli = all_with(|c| c.format = Some("%Q".to_string()));
    assert_eq!(get_image_destination(&cli, "test.jpg", &at_half_past_ten()), None);
}

#[test]
fn time_out_of_range_gives_no_name() {
    let cli = Args::default();
    let t = Timestamp { secs: i64::MAX, nanos: 0, offset_secs: 0 };
    assert_eq!(get_image_destination(&cli, "test.jpg", &t), None);
}

#[test]
fn test_no_flags() {
    let cli = Args::default();
    assert_eq!(name_of(&cli, "test.jpg"), "test-2024-07-17_10-30-00.jpg");
}

#[test]
fn test_all() {
    let cli = all_with(|_| {});
    assert_eq!(name_of(&cli, "test.jpg"), "test-2024-07-17_10-30-00.jpg");
    assert_eq!(name_of(&cli, "test.mp4"), "test-2024-07-17_10-30-00.mp4");
    assert_eq!(
        name_of(&cli, ".gitignore"),
        "gitignore-2024-07-17_10-30-00.gitignore"
    );
}

#[test]
fn no_name() {
    let cli = all_with(|c| c.no_name = true);
    assert_eq!(name_of(&cli, ".gitignore"), "2024-07-17_10-30-00.gitignore");
    assert_eq!(name_of(&cli, "test.jpg"), "2024-07-17_10-30-00.jpg");
    assert_eq!(name_of(&cli, "test.mp4"), "2024-07-17_10-30-00.mp4");
}

#[test]
fn test_name() {
    let cli = all_with(|c| c.name = Some("testing".to_string()));
    assert_eq!(
        name_of(&cli, ".gitignore"),
        "testing-gitignore-2024-07-17_10-30-00.gitignore"
    );
    assert_eq!(name_of(&cli, "test.jpg"), "testing-test-2024-07-17_10-30-00.jpg");
    assert_eq!(name_of(&cli, "test.mp4"), "testing-test-2024-07-17_10-30-00.mp4");
}

#[test]
fn test_twelve() {
    let cli = all_with(|c| c.twelve = true);
    assert_eq!(
        name_of(&cli, ".gitignore"),
        "gitignore-2024-07-17_10-30-00-AM.gitignore"
    );
    assert_eq!(name_of(&cli, "test.jpg"), "test-2024-07-17_10-30-00-AM.jpg");
    assert_eq!(name_of(&cli, "test.mp4"), "test-2024-07-17_10-30-00-AM.mp4");
}

#[test]
fn test_front() {
    let cli = all_with(|c| {
        c.front = true;
        c.name = Some("testing".to_string());
    });
    assert_eq!(name_of(&cli, "test.jpg"), "2024-07-17_10-30-00-testing-test.jpg");
    assert_eq!(name_of(&cli, "test.mp4"), "2024-07-17_10-30-00-testing-test.mp4");
    assert_eq!(
        name_of(&cli, ".gitignore"),
        "2024-07-17_10-30-00-testing-gitignore.gitignore"
    );
}

#[test]
fn test_suffix() {
    let cli = all_with(|c| {
        c.suffix = true;
        c.name = Some("testing".to_string());
    });
    assert_eq!(
        name_of(&cli, ".gitignore"),
        "gitignore-2024-07-17_10-30-00-testing.gitignore"
    );
    assert_eq!(name_of(&cli, "test.jpg"), "test-2024-07-17_10-30-00-testing.jpg");
    assert_eq!(name_of(&cli, "test.mp4"), "test-2024-07-17_10-30-00-testing.mp4");
}

#[test]
fn front_and_suffix_put_date_first_and_text_last() {
    let cli = all_with(|c| {
        c.front = true;
        c.suffix = true;
        c.name = Some("testing".to_string());
    });
    assert_eq!(name_of(&cli, "test.jpg"), "2024-07-17_10-30-00-test-testing.jpg");
}

#[test]
fn test_date() {
    let cli = all_with(|c| {
        c.suffix = true;
        c.date = true;
        c.name = Some("testing".to_string());
    });
    assert_eq!(
        name_of(&cli, ".gitignore"),
        "gitignore-2024-07-17-testing.gitignore"
    );
    assert_eq!(name_of(&cli, "test.jpg"), "test-2024-07-17-testing.jpg");
    assert_eq!(name_of(&cli, "test.mp4"), "test-2024-07-17-testing.mp4");
}

#[test]
fn added_text_is_trimmed_and_sanitized() {
    let cli = all_with(|c| c.name = Some("  my:hol/iday ?  ".to_string()));
    assert_eq!(name_of(&cli, "test.jpg"), "myholiday-test-2024-07-17_10-30-00.jpg");
}

#[test]
fn empty_added_text_leaves_no_delimiter() {
    let cli = all_with(|c| {
        c.suffix = true;
        c.name = Some("   ".to_string());
    });
    assert_eq!(name_of(&cli, "test.jpg"), "test-2024-07-17_10-30-00.jpg");
}

#[test]
fn original_stem_is_sanitized() {
    let cli = all_with(|_| {});
    assert_eq!(name_of(&cli, "a:b.jpg"), "ab-2024-07-17_10-30-00.jpg");
}

#[test]
fn name_without_extension_gets_no_dot() {
    let cli = all_with(|_| {});
    assert_eq!(name_of(&cli, "README"), "README-2024-07-17_10-30-00");
}

#[test]
fn naming_twice_gives_the_same_name() {
    let cli = all_with(|c| c.name = Some("trip".to_string()));
    assert_eq!(name_of(&cli, "photo.png"), name_of(&cli, "photo.png"));
}

#[test]
fn scenario_rename_all_keep_names() {
    let cli = all_with(|_| {});
    let mut names: Vec<String> = ["test.jpg", "test.mp4", ".gitignore"]
        .iter()
        .map(|f| name_of(&cli, f))
        .collect();
    names.sort();
    assert_eq!(
        names,
        vec![
            "gitignore-2024-07-17_10-30-00.gitignore".to_string(),
            "test-2024-07-17_10-30-00.jpg".to_string(),
            "test-2024-07-17_10-30-00.mp4".to_string(),
        ]
    );
}

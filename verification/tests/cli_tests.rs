use tivana::cli::Args;

/// The options the runtime takes when the command line names none (the app's parser
/// converts into these same values).
#[test]
fn test_default_args() {
    let args = Args::default();
    assert_eq!(args.port, 9876);
    assert!(!args.headless);
    assert!(args.headed);
    assert_eq!(args.host, "127.0.0.1");
}

/// With the headless option set (as `--headless` sets it), the runtime runs headless.
#[test]
fn test_headless_mode() {
    let args = Args { headless: true, ..Args::default() };
    assert!(args.headless);
    assert!(args.is_headless());
}

/// Turning the headed option off also means headless; by default the window shows.
#[test]
fn headed_flag_off_means_headless() {
    let args = Args { headed: false, ..Args::default() };
    assert!(args.is_headless());
    let args = Args::default();
    assert!(!args.is_headless());
}

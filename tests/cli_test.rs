use rs_queue_processor::cli::{Cli, Mode};
use rs_queue_processor::errors::ProcessorError;
use rusoto_core::Region;

#[test]
fn test_missing_queue() {
    let cli = Cli::new_with(Some("23".to_owned()), Some("uswest2".to_owned()), None);
    assert!(cli.determine_mode().is_err())
}

#[test]
fn test_no_local_or_region() {
    let cli = Cli::new_with(None, None, Some("foo".to_owned()));
    assert!(cli.determine_mode().is_err())
}

#[test]
fn test_bad_local_port() {
    let cli = Cli::new_with(Some("sdf".to_owned()), None, Some("foo".to_owned()));
    assert!(cli.determine_mode().is_err())
}

#[test]
fn test_bad_region() {
    let cli = Cli::new_with(None, Some("usswest2".to_owned()), Some("foo".to_owned()));
    assert!(cli.determine_mode().is_err())
}

#[test]
fn test_good_local() {
    let cli = Cli::new_with(
        Some("23".to_owned()),
        Some("uswest2".to_owned()),
        Some("foo".to_owned()),
    );
    assert_eq!(
        Mode::Local(23, "foo".to_owned()),
        cli.determine_mode().unwrap()
    )
}

#[test]
fn test_good_aws() {
    let cli = Cli::new_with(None, Some("uswest2".to_owned()), Some("foo".to_owned()));
    assert_eq!(
        Mode::AWS(Region::UsWest2, "foo".to_owned()),
        cli.determine_mode().unwrap()
    )
}

fn local_mode(port: &str) -> Result<Mode, ProcessorError> {
    Cli::new(Some(port.to_owned()), None, Some("q".to_owned())).determine_mode()
}

#[test]
fn command_line_errors_name_their_cause() {
    let missing = Cli::new(None, None, None).determine_mode();
    assert_eq!(
        Err(ProcessorError::CommandLineError("No queue was specified")),
        missing
    );
    let neither = Cli::new(None, None, Some("q".to_owned())).determine_mode();
    assert_eq!(
        Err(ProcessorError::CommandLineError(
            "No local or region parameter was specified"
        )),
        neither
    );
    assert_eq!(
        Err(ProcessorError::CommandLineError("Invalid Port")),
        local_mode("sdf")
    );
    let region = Cli::new(None, Some("mars-1".to_owned()), Some("q".to_owned())).determine_mode();
    assert_eq!(
        Err(ProcessorError::CommandLineError("Invalid region specified")),
        region
    );
}

#[test]
fn port_text_edges() {
    assert_eq!(Ok(Mode::Local(5, "q".to_owned())), local_mode("+5"));
    assert_eq!(Ok(Mode::Local(0, "q".to_owned())), local_mode("000"));
    assert_eq!(
        Ok(Mode::Local(4294967295, "q".to_owned())),
        local_mode("4294967295")
    );
    assert!(local_mode("4294967296").is_err());
    assert!(local_mode("").is_err());
    assert!(local_mode("+").is_err());
    assert!(local_mode("-1").is_err());
    assert!(local_mode(" 1").is_err());
}

#[test]
fn region_names_in_both_spellings() {
    let dashed = Cli::new(None, Some("eu-west-1".to_owned()), Some("q".to_owned()));
    assert_eq!(
        Mode::AWS(Region::EuWest1, "q".to_owned()),
        dashed.determine_mode().unwrap()
    );
    let upper = Cli::new(None, Some("USEAST2".to_owned()), Some("q".to_owned()));
    assert_eq!(
        Mode::AWS(Region::UsEast2, "q".to_owned()),
        upper.determine_mode().unwrap()
    );
}

use prefixload::config::{
    handle_config_dir_add, handle_config_dir_rm, handle_config_set, Cli, Commands, Config,
    ConfigCommand, ConfigSetArgs, DirectoryAddArgs, DirectoryRemoveArgs,
};
use prefixload::error::PrefixloadError;
use prefixload::options::S3ClientOptions;
use prefixload::rules::DirectoryEntry;

fn base_config() -> Config {
    Config {
        endpoint: "http://localhost:9000".to_string(),
        bucket: "default-bucket".to_string(),
        region: "us-east-1".to_string(),
        force_path_style: false,
        part_size: 5 * 1024 * 1024,
        local_directory_path: "/var/backups".to_string(),
        directory_struct: Vec::new(),
    }
}

#[test]
fn config_set_updates_requested_fields() {
    let mut config = base_config();
    let args = ConfigSetArgs {
        endpoint: Some("http://example.com".into()),
        bucket: Some("mybucket".into()),
        region: Some("eu-central-1".into()),
        force_path_style: Some(true),
        part_size: Some(123),
        local_directory_path: Some("/tmp/data".into()),
    };

    let msg = handle_config_set(&mut config, &args);
    assert_eq!(msg, "Config updated!");

    assert_eq!(config.endpoint, "http://example.com");
    assert_eq!(config.bucket, "mybucket");
    assert_eq!(config.region, "eu-central-1");
    assert_eq!(config.force_path_style, true);
    assert_eq!(config.part_size, 123);
    assert_eq!(config.local_directory_path, "/tmp/data");
}

#[test]
fn config_set_keeps_unmentioned_fields() {
    let mut config = base_config();
    let args = ConfigSetArgs {
        endpoint: None,
        bucket: Some("only-this".into()),
        region: None,
        force_path_style: None,
        part_size: None,
        local_directory_path: None,
    };
    handle_config_set(&mut config, &args);
    assert_eq!(config.bucket, "only-this");
    assert_eq!(config.endpoint, "http://localhost:9000");
    assert_eq!(config.region, "us-east-1");
    assert_eq!(config.force_path_style, false);
    assert_eq!(config.part_size, 5 * 1024 * 1024);
    assert_eq!(config.local_directory_path, "/var/backups");
}

#[test]
fn dir_add_appends_and_skips_duplicate() {
    let mut config = base_config();
    let add_args = DirectoryAddArgs {
        local_name_prefix: "PRE".into(),
        remote_path: "dir1/".into(),
    };

    // First insertion succeeds.
    let msg1 = handle_config_dir_add(&mut config, &add_args).expect("dir add 1");
    assert_eq!(msg1, "Directory entry added.");

    let initial_len = config.directory_struct.len();
    assert!(
        config
            .directory_struct
            .iter()
            .any(|e| e.local_name_prefix == "PRE" && e.remote_path == "dir1/"),
        "New directory mapping not found in config"
    );

    // A second insertion with the same prefix is rejected.
    let err = handle_config_dir_add(&mut config, &add_args).unwrap_err();
    match err {
        PrefixloadError::Custom(m) => {
            assert!(m.contains("Entry with this local_name_prefix already exists."))
        }
        other => panic!("unexpected error variant: {:?}", other),
    }

    assert_eq!(
        config.directory_struct.len(),
        initial_len,
        "Duplicate entry unexpectedly modified directory_struct"
    );
}

#[test]
fn dir_rm_removes_and_reports_missing() {
    let mut config = base_config();

    // Seed a mapping we can delete.
    let add_args = DirectoryAddArgs {
        local_name_prefix: "DEL".into(),
        remote_path: "to/delete".into(),
    };
    handle_config_dir_add(&mut config, &add_args).unwrap();

    // Remove it.
    let rm_args = DirectoryRemoveArgs {
        local_name_prefix: "DEL".into(),
    };
    let msg1 = handle_config_dir_rm(&mut config, &rm_args).expect("dir rm 1");
    assert_eq!(msg1, "Directory entry removed.");

    assert!(
        config
            .directory_struct
            .iter()
            .all(|e| e.local_name_prefix != "DEL"),
        "Entry was not actually removed"
    );

    // A second attempt reports that it does not exist.
    let err = handle_config_dir_rm(&mut config, &rm_args).unwrap_err();
    match err {
        PrefixloadError::Custom(m) => {
            assert!(m.contains("No entry with such local_name_prefix found."))
        }
        other => panic!("unexpected error variant: {:?}", other),
    }
}

#[test]
fn dir_rm_keeps_other_entries_in_order() {
    let mut config = base_config();
    config.directory_struct = vec![
        DirectoryEntry { local_name_prefix: "a".into(), remote_path: "1".into() },
        DirectoryEntry { local_name_prefix: "b".into(), remote_path: "2".into() },
        DirectoryEntry { local_name_prefix: "a".into(), remote_path: "3".into() },
        DirectoryEntry { local_name_prefix: "c".into(), remote_path: "4".into() },
    ];
    let rm_args = DirectoryRemoveArgs { local_name_prefix: "a".into() };
    handle_config_dir_rm(&mut config, &rm_args).unwrap();
    let remaining: Vec<(String, String)> = config
        .directory_struct
        .iter()
        .map(|e| (e.local_name_prefix.clone(), e.remote_path.clone()))
        .collect();
    assert_eq!(
        remaining,
        vec![("b".to_string(), "2".to_string()), ("c".to_string(), "4".to_string())]
    );
}

#[test]
fn options_builder_works() {
    let opts = S3ClientOptions::default()
        .with_access_key("ak".to_string())
        .with_secret_key("sk".to_string())
        .with_region("eu-central-1".to_string())
        .with_endpoint("http://localhost:9000".to_string())
        .with_force_path_style(true);

    assert_eq!(opts.access_key, "ak");
    assert_eq!(opts.secret_key, "sk");
    assert_eq!(opts.region, Some("eu-central-1".to_string()));
    assert_eq!(opts.endpoint, Some("http://localhost:9000".to_string()));
    assert!(opts.force_path_style);
}

#[test]
fn options_default_is_empty() {
    let opts = S3ClientOptions::default();
    assert_eq!(opts.access_key, "");
    assert_eq!(opts.secret_key, "");
    assert_eq!(opts.region, None);
    assert_eq!(opts.endpoint, None);
    assert!(!opts.force_path_style);
}

#[test]
fn default_region_is_us_east_1() {
    let opts = S3ClientOptions::default();
    assert_eq!(opts.effective_region(), "us-east-1");
}

#[test]
fn custom_region_is_set() {
    let opts = S3ClientOptions::default().with_region("eu-west-1".to_string());
    assert_eq!(opts.effective_region(), "eu-west-1");
}

#[test]
fn cli_exposes_its_parsed_command() {
    let cli = Cli {
        command: Commands::Config { command: ConfigCommand::Show },
    };
    assert!(matches!(
        cli.get_command(),
        Commands::Config { command: ConfigCommand::Show }
    ));

    let run_cli = Cli { command: Commands::Run { quiet: true } };
    assert!(matches!(run_cli.get_command(), Commands::Run { quiet: true }));
}

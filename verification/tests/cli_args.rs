use std::iter;

use cronrunner::cli::args::Config;
use cronrunner::cli::job::Job;

#[test]
fn default_config() {
    assert_eq!(
        Config::default(),
        Config {
            help: false,
            long_help: false,
            version: false,
            list_only: false,
            as_json: false,
            safe: false,
            tag: false,
            detach: false,
            env_file: None,
            job: None,
        }
    );
}

#[test]
fn no_arguments_because_first_is_skipped() {
    let args = iter::once(String::from("/usr/local/bin/crn"));

    let config = Config::build_from_args(args.collect(), None, None).unwrap();

    assert_eq!(config, Config::default());
}

#[test]
fn no_arguments_not_even_executable_path() {
    let args = iter::empty();

    let config = Config::build_from_args(args.collect(), None, None).unwrap();

    assert_eq!(config, Config::default());
}

#[test]
fn unexpected_argument() {
    let args = [
        String::from("/usr/local/bin/crn"),
        String::from("--unknown"),
    ]
    .into_iter();

    let err = Config::build_from_args(args.collect(), None, None).unwrap_err();

    assert_eq!(err, "Unexpected argument '--unknown'");
}

#[test]
fn argument_help() {
    let args = [String::from("/usr/local/bin/crn"), String::from("-h")].into_iter();

    let config = Config::build_from_args(args.collect(), None, None).unwrap();

    assert!(config.help);
    assert!(!config.long_help);
}

#[test]
fn argument_help_stops_after_match() {
    let args = [
        String::from("/usr/local/bin/crn"),
        String::from("-h"),
        String::from("--unknown"),
    ]
    .into_iter();

    let config = Config::build_from_args(args.collect(), None, None).unwrap();

    assert!(config.help);
}

#[test]
fn argument_long_help() {
    let args = [String::from("/usr/local/bin/crn"), String::from("--help")].into_iter();

    let config = Config::build_from_args(args.collect(), None, None).unwrap();

    assert!(config.long_help);
    assert!(!config.help);
}

#[test]
fn argument_long_help_stops_after_match() {
    let args = [
        String::from("/usr/local/bin/crn"),
        String::from("--help"),
        String::from("--unknown"),
    ]
    .into_iter();

    let config = Config::build_from_args(args.collect(), None, None).unwrap();

    assert!(config.long_help);
}

#[test]
fn argument_version() {
    let args = [
        String::from("/usr/local/bin/crn"),
        String::from("--version"),
    ]
    .into_iter();

    let config = Config::build_from_args(args.collect(), None, None).unwrap();

    assert!(config.version);
}

#[test]
fn argument_version_shorthand() {
    let args = [String::from("/usr/local/bin/crn"), String::from("-v")].into_iter();

    let config = Config::build_from_args(args.collect(), None, None).unwrap();

    assert!(config.version);
}

#[test]
fn argument_version_stops_after_match() {
    let args = [
        String::from("/usr/local/bin/crn"),
        String::from("--version"),
        String::from("--unknown"),
    ]
    .into_iter();

    let config = Config::build_from_args(args.collect(), None, None).unwrap();

    assert!(config.version);
}

#[test]
fn argument_list_only() {
    let args = [
        String::from("/usr/local/bin/crn"),
        String::from("--list-only"),
    ]
    .into_iter();

    let config = Config::build_from_args(args.collect(), None, None).unwrap();

    assert!(config.list_only);
}

#[test]
fn argument_list_only_shorthand() {
    let args = [String::from("/usr/local/bin/crn"), String::from("-l")].into_iter();

    let config = Config::build_from_args(args.collect(), None, None).unwrap();

    assert!(config.list_only);
}

#[test]
fn argument_list_only_continues_after_match() {
    let args = [
        String::from("/usr/local/bin/crn"),
        String::from("--list-only"),
        String::from("--safe"),
    ]
    .into_iter();

    let config = Config::build_from_args(args.collect(), None, None).unwrap();

    assert!(config.list_only);
    assert!(config.safe);
}

#[test]
fn argument_as_json() {
    let args = [
        String::from("/usr/local/bin/crn"),
        String::from("--as-json"),
    ]
    .into_iter();

    let config = Config::build_from_args(args.collect(), None, None).unwrap();

    assert!(config.as_json);
}

#[test]
fn argument_as_json_continues_after_match() {
    let args = [
        String::from("/usr/local/bin/crn"),
        String::from("--as-json"),
        String::from("--safe"),
    ]
    .into_iter();

    let config = Config::build_from_args(args.collect(), None, None).unwrap();

    assert!(config.as_json);
    assert!(config.safe);
}

#[test]
fn argument_as_json_implicitly_activates_list_only() {
    let args = [
        String::from("/usr/local/bin/crn"),
        String::from("--list-only"),
        String::from("--as-json"),
    ]
    .into_iter();

    let config = Config::build_from_args(args.collect(), None, None).unwrap();

    assert!(config.list_only);
    assert!(config.as_json);
}

#[test]
fn argument_safe() {
    let args = [String::from("/usr/local/bin/crn"), String::from("--safe")].into_iter();

    let config = Config::build_from_args(args.collect(), None, None).unwrap();

    assert!(config.safe);
}

#[test]
fn argument_safe_shorthand() {
    let args = [String::from("/usr/local/bin/crn"), String::from("-s")].into_iter();

    let config = Config::build_from_args(args.collect(), None, None).unwrap();

    assert!(config.safe);
}

#[test]
fn argument_safe_continues_after_match() {
    let args = [
        String::from("/usr/local/bin/crn"),
        String::from("--safe"),
        String::from("1337f"),
    ]
    .into_iter();

    let config = Config::build_from_args(args.collect(), None, None).unwrap();

    assert!(config.safe);
    assert!(matches!(config.job, Some(Job::Fingerprint(78_719))));
}

#[test]
fn argument_safe_from_env() {
        let args = iter::once(String::from("/usr/local/bin/crn"));

    let config = Config::build_from_args(args.collect(), Some(String::from("")), None).unwrap();

    assert!(config.safe);
}

#[test]
fn argument_tag() {
    let args = [
        String::from("/usr/local/bin/crn"),
        String::from("--tag"),
        String::from("my-tag"),
    ]
    .into_iter();

    let config = Config::build_from_args(args.collect(), None, None).unwrap();

    assert!(config.tag);
    assert_eq!(config.job.unwrap(), Job::Tag(String::from("my-tag")));
}

#[test]
fn argument_tag_shorthand() {
    let args = [
        String::from("/usr/local/bin/crn"),
        String::from("-t"),
        String::from("your-tag"),
    ]
    .into_iter();

    let config = Config::build_from_args(args.collect(), None, None).unwrap();

    assert!(config.tag);
    assert_eq!(config.job.unwrap(), Job::Tag(String::from("your-tag")));
}

#[test]
fn argument_tag_continues_after_match() {
    let args = [
        String::from("/usr/local/bin/crn"),
        String::from("--tag"),
        String::from("--detach"),
        String::from("taginou"),
    ]
    .into_iter();

    let config = Config::build_from_args(args.collect(), None, None).unwrap();

    assert!(config.tag);
    assert!(config.detach);
    assert_eq!(config.job.unwrap(), Job::Tag(String::from("taginou")));
}

#[test]
fn argument_tag_not_followed_by_tag() {
    let args = [String::from("/usr/local/bin/crn"), String::from("--tag")].into_iter();

    let err = Config::build_from_args(args.collect(), None, None).unwrap_err();

    assert_eq!(err, "Option '--tag' requires a tag");
}

#[test]
fn argument_detach() {
    let args = [String::from("/usr/local/bin/crn"), String::from("--detach")].into_iter();

    let config = Config::build_from_args(args.collect(), None, None).unwrap();

    assert!(config.detach);
}

#[test]
fn argument_detach_shorthand() {
    let args = [String::from("/usr/local/bin/crn"), String::from("-d")].into_iter();

    let config = Config::build_from_args(args.collect(), None, None).unwrap();

    assert!(config.detach);
}

#[test]
fn argument_detach_continues_after_match() {
    let args = [
        String::from("/usr/local/bin/crn"),
        String::from("--detach"),
        String::from("42"),
    ]
    .into_iter();

    let config = Config::build_from_args(args.collect(), None, None).unwrap();

    assert!(config.detach);
    assert!(matches!(config.job, Some(Job::Uid(42))));
}

#[test]
fn argument_env() {
    let args = [
        String::from("/usr/local/bin/crn"),
        String::from("--env"),
        String::from("~/.cron.env"),
    ]
    .into_iter();

    let config = Config::build_from_args(args.collect(), None, None).unwrap();

    assert!(
        config
            .env_file
            .is_some_and(|contents| contents == String::from("~/.cron.env"))
    );
}

#[test]
fn argument_env_shorthand() {
    let args = [
        String::from("/usr/local/bin/crn"),
        String::from("-e"),
        String::from("~/.cron.env"),
    ]
    .into_iter();

    let config = Config::build_from_args(args.collect(), None, None).unwrap();

    assert!(
        config
            .env_file
            .is_some_and(|contents| contents == String::from("~/.cron.env"))
    );
}

#[test]
fn argument_env_continues_after_match() {
    let args = [
        String::from("/usr/local/bin/crn"),
        String::from("--env"),
        String::from("~/.cron.env"),
        String::from("42"),
    ]
    .into_iter();

    let config = Config::build_from_args(args.collect(), None, None).unwrap();

    assert!(config.env_file.is_some());
    assert!(matches!(config.job, Some(Job::Uid(42))));
}

#[test]
fn argument_env_requires_file() {
    let args = [String::from("/usr/local/bin/crn"), String::from("--env")].into_iter();

    let err = Config::build_from_args(args.collect(), None, None).unwrap_err();

    assert_eq!(err, "Expected file path after '--env'");
}

#[test]
fn argument_env_file_from_env() {
        let args = iter::once(String::from("/usr/local/bin/crn"));

    let config = Config::build_from_args(args.collect(), None, Some(String::from("~/.cron.env"))).unwrap();

    assert!(
        config
            .env_file
            .is_some_and(|contents| contents == String::from("~/.cron.env"))
    );
}

#[test]
fn argument_env_file_from_env_empty_file_name_is_ignored() {
        let args = iter::once(String::from("/usr/local/bin/crn"));

    let config = Config::build_from_args(args.collect(), None, Some(String::from(""))).unwrap();

    assert!(config.env_file.is_none());
}

#[test]
fn argument_job() {
    let args = [String::from("/usr/local/bin/crn"), String::from("42")].into_iter();

    let config = Config::build_from_args(args.collect(), None, None).unwrap();

    assert!(matches!(config.job, Some(Job::Uid(42))));
}

#[test]
fn argument_job_stops_after_match() {
    let args = [
        String::from("/usr/local/bin/crn"),
        String::from("42"),
        String::from("--version"),
    ]
    .into_iter();

    let config = Config::build_from_args(args.collect(), None, None).unwrap();

    assert!(matches!(config.job, Some(Job::Uid(42))));
    assert!(!config.version);
}

use cronrunner::tokens::{CronJob, JobDescription, JobSection};


#[test]
fn cronjob_display_with_description() {
    let cronjob = CronJob {
        uid: 1,
        fingerprint: 13_376_942,
        tag: None,
        schedule: String::from("@hourly"),
        command: String::from("sleep 3599"),
        description: Some(JobDescription(String::from("Sleep (almost) forever."))),
        section: None,
    };

    let job_display = cronjob.to_string();

    assert_eq!(job_display, "Sleep (almost) forever.");
}

#[test]
fn cronjob_display_without_description() {
    let cronjob = CronJob {
        uid: 1,
        fingerprint: 13_376_942,
        tag: None,
        schedule: String::from("@hourly"),
        command: String::from("sleep 3599"),
        description: None,
        section: None,
    };

    let job_display = cronjob.to_string();

    assert_eq!(job_display, "@hourly sleep 3599");
}

#[test]
fn job_description_display() {
    let description = JobDescription(String::from("hello, world"));

    assert_eq!(description.to_string(), "hello, world");
}

#[test]
fn job_description_section() {
    let section = JobSection {
        uid: 36,
        title: String::from("foo bar baz"),
    };

    assert_eq!(section.to_string(), "foo bar baz");
}

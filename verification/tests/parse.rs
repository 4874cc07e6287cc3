use slurm_tui::slurm::{parse_job_row, parse_jobs, split_lines, split_str, stdout_path, FIELD_COUNT};

fn good_row() -> String {
    // JobIDRaw|State|JobName|NodeList|WorkDir|Account|Submit|Start|Elapsed|TimeLimit
    "12345|R|train|node01|/home/u/w|acct|2024-01-01T10:00:00|2024-01-01T10:05:00|01:00:00|02:00:00"
        .to_string()
}

#[test]
fn field_count_is_ten() {
    assert_eq!(FIELD_COUNT, 10);
}

#[test]
fn valid_row_parses_all_fields() {
    let job = parse_job_row(&good_row()).expect("well-formed row must parse");
    assert_eq!(job.job_id, "12345");
    assert_eq!(job.state, "R");
    assert_eq!(job.job_name, "train");
    assert_eq!(job.node_list, "node01");
    assert_eq!(job.work_dir, "/home/u/w");
    assert_eq!(job.account, "acct");
    assert_eq!(job.submit, "2024-01-01T10:00:00");
    assert_eq!(job.start, "2024-01-01T10:05:00");
    assert_eq!(job.elapsed_time, "01:00:00");
    assert_eq!(job.time_limit, "02:00:00");
}

#[test]
fn state_is_first_token_uppercased() {
    let row = "7|cancelled by 999|n|nd|/w|a|s|st|e|t";
    let job = parse_job_row(row).expect("nine delimiters");
    assert_eq!(job.state, "CANCELLED");
}

#[test]
fn state_with_leading_whitespace_and_lowercase() {
    let row = "7|  running  now|n|nd|/w|a|s|st|e|t";
    let job = parse_job_row(row).expect("nine delimiters");
    assert_eq!(job.state, "RUNNING");
}

#[test]
fn row_with_too_few_delimiters_is_rejected() {
    // seven pipes only
    let row = "1|F|n|nd|/w|a|s|st";
    assert!(parse_job_row(row).is_none());
}

#[test]
fn row_with_too_many_delimiters_is_rejected() {
    let row = "1|F|n|nd|/w|a|s|st|e|t|extra";
    assert!(parse_job_row(row).is_none());
}

#[test]
fn empty_row_is_rejected() {
    assert!(parse_job_row("").is_none());
}

#[test]
fn parse_jobs_skips_malformed_rows() {
    let text = format!("{}\nnot a row\n{}", good_row(), "2|PD|b|nd|/w|a|s|st|e|t");
    let jobs = parse_jobs(&text);
    assert_eq!(jobs.len(), 2);
    assert_eq!(jobs[0].job_id, "12345");
    assert_eq!(jobs[1].job_id, "2");
    assert_eq!(jobs[1].state, "PD");
}

#[test]
fn parse_robustness_one_good_one_short() {
    let text = format!("{}\n1|F|n|nd|/w|a|s|st", good_row());
    let jobs = parse_jobs(&text);
    assert_eq!(jobs.len(), 1);
    assert_eq!(jobs[0].job_id, "12345");
}

#[test]
fn parse_jobs_of_empty_text_is_empty() {
    assert_eq!(parse_jobs("").len(), 0);
}

#[test]
fn parse_jobs_keeps_scheduler_order() {
    let text = "9|CD|z|nd|/w|a|s|st|e|t\n3|F|y|nd|/w|a|s|st|e|t";
    let jobs = parse_jobs(text);
    assert_eq!(jobs.len(), 2);
    assert_eq!(jobs[0].job_id, "9");
    assert_eq!(jobs[1].job_id, "3");
}

#[test]
fn split_str_keeps_empty_pieces() {
    let pieces = split_str("a|b||c", '|');
    assert_eq!(pieces, vec!["a", "b", "", "c"]);
}

#[test]
fn split_str_of_empty_text_is_one_empty_piece() {
    assert_eq!(split_str("", '|'), vec![""]);
}

#[test]
fn stdout_path_is_found_in_a_job_description() {
    let text = "JobId=7 JobName=train\n   UserId=u(1000) GroupId=g(1000)\n   StdOut=/scratch/u/slurm-7.out StdErr=/scratch/u/slurm-7.err\n";
    assert_eq!(stdout_path(text), Some("/scratch/u/slurm-7.out".to_string()));
}

#[test]
fn stdout_path_takes_the_first_occurrence() {
    let text = "StdOut=/first\nStdOut=/second";
    assert_eq!(stdout_path(text), Some("/first".to_string()));
}

#[test]
fn stdout_path_absent_when_no_field_matches() {
    assert_eq!(stdout_path("JobId=7 StdErr=/e"), None);
    assert_eq!(stdout_path(""), None);
}

#[test]
fn split_lines_drops_only_a_trailing_empty_line() {
    assert_eq!(split_lines("a\nb\n"), vec!["a", "b"]);
    assert_eq!(split_lines("a\nb"), vec!["a", "b"]);
    assert_eq!(split_lines("a\n\nb"), vec!["a", "", "b"]);
}

use slurm_tui::app::{AdapterRequest, App, Focus, KeyInput, Modal, RightPanelFocus, StatefulList};
use slurm_tui::slurm::SlurmJob;

fn job(id: &str, state: &str) -> SlurmJob {
    SlurmJob {
        job_id: id.to_string(),
        state: state.to_string(),
        job_name: format!("job-{}", id),
        node_list: "node01".to_string(),
        work_dir: "/home/u/w".to_string(),
        account: "acct".to_string(),
        submit: "2024-01-01T10:00:00".to_string(),
        start: "2024-01-01T10:05:00".to_string(),
        elapsed_time: "01:00:00".to_string(),
        time_limit: "02:00:00".to_string(),
    }
}

fn fresh() -> App {
    App::new("user".to_string(), 7)
}

#[test]
fn new_app_defaults() {
    let app = fresh();
    assert!(app.running);
    assert_eq!(app.user, "user");
    assert_eq!(app.time_period, 7);
    assert_eq!(app.slurm_jobs.len(), 0);
    assert_eq!(app.slurm_jobs.selected, None);
    assert_eq!(app.job_output.len(), 0);
    assert_eq!(app.job_script.len(), 0);
    assert_eq!(app.focus, Focus::JobList);
    assert_eq!(app.right_panel_focus, RightPanelFocus::Output);
    assert!(!app.running_only);
    assert_eq!(app.modal, None);
}

#[test]
fn quit_stops_the_loop() {
    let mut app = fresh();
    app.quit();
    assert!(!app.running);
}

#[test]
fn empty_result_keeps_everything_empty() {
    let mut app = fresh();
    let r = app.refresh_slurm_jobs(Vec::new());
    assert_eq!(r, AdapterRequest::Idle);
    assert_eq!(app.slurm_jobs.len(), 0);
    assert_eq!(app.slurm_jobs.selected, None);
    assert_eq!(app.job_output.len(), 0);
    assert_eq!(app.job_script.len(), 0);
    // navigation on the empty list must not crash and changes nothing
    let r = app.on_up();
    assert_eq!(r, AdapterRequest::Idle);
    assert_eq!(app.slurm_jobs.selected, None);
}

#[test]
fn refresh_selects_the_first_job() {
    let mut app = fresh();
    let r = app.refresh_slurm_jobs(vec![job("1", "R"), job("2", "PD")]);
    assert_eq!(app.slurm_jobs.selected, Some(0));
    assert_eq!(r, AdapterRequest::FetchOutput("1".to_string()));
}

#[test]
fn refresh_clamps_an_out_of_range_selection() {
    let mut app = fresh();
    app.refresh_slurm_jobs(vec![job("1", "R"), job("2", "R"), job("3", "R")]);
    app.jump_bottom();
    assert_eq!(app.slurm_jobs.selected, Some(2));
    app.refresh_slurm_jobs(vec![job("1", "R")]);
    assert_eq!(app.slurm_jobs.selected, Some(0));
}

#[test]
fn single_job_cancel_flow() {
    let mut app = fresh();
    app.refresh_slurm_jobs(vec![job("12345", "R")]);
    assert_eq!(app.slurm_jobs.selected, Some(0));
    let r = app.handle_key(KeyInput::CharC);
    assert_eq!(r, AdapterRequest::Idle);
    assert_eq!(app.modal, Some(Modal::ConfirmCancel));
    let r = app.handle_key(KeyInput::Enter);
    assert_eq!(r, AdapterRequest::CancelThenRefresh("12345".to_string()));
    assert_eq!(app.modal, None);
}

#[test]
fn filter_toggle_discards_finished_jobs() {
    let mut app = fresh();
    app.refresh_slurm_jobs(vec![job("1", "R"), job("2", "PD"), job("3", "F"), job("4", "CD")]);
    let r = app.handle_key(KeyInput::CharF);
    assert_eq!(r, AdapterRequest::FetchJobs);
    assert!(app.running_only);
    assert_eq!(app.slurm_jobs.len(), 2);
    assert_eq!(app.slurm_jobs.items[0].job_id, "1");
    assert_eq!(app.slurm_jobs.items[1].job_id, "2");
    assert_eq!(app.slurm_jobs.selected, Some(0));
    // the refresh that follows applies the filter to fetched records too
    let r = app.refresh_slurm_jobs(vec![job("1", "R"), job("2", "PD"), job("3", "F"), job("4", "CD")]);
    assert_eq!(app.slurm_jobs.len(), 2);
    assert_eq!(r, AdapterRequest::FetchOutput("1".to_string()));
}

#[test]
fn filter_toggle_twice_restores_the_flag() {
    let mut app = fresh();
    app.refresh_slurm_jobs(vec![job("1", "F")]);
    assert!(!app.running_only);
    app.toggle_filter();
    assert!(app.running_only);
    app.toggle_filter();
    assert!(!app.running_only);
}

#[test]
fn wrap_around_at_both_ends() {
    let mut app = fresh();
    app.refresh_slurm_jobs(vec![job("1", "R"), job("2", "R"), job("3", "R")]);
    app.jump_bottom();
    assert_eq!(app.slurm_jobs.selected, Some(2));
    app.on_down();
    assert_eq!(app.slurm_jobs.selected, Some(0));
    app.on_up();
    assert_eq!(app.slurm_jobs.selected, Some(2));
}

#[test]
fn fast_scroll_wraps_modulo_the_length() {
    let mut app = fresh();
    app.refresh_slurm_jobs(vec![job("1", "R"), job("2", "R"), job("3", "R")]);
    assert_eq!(app.slurm_jobs.selected, Some(0));
    app.handle_key(KeyInput::ShiftDown);
    // 10 steps over 3 items: (0 + 10) mod 3
    assert_eq!(app.slurm_jobs.selected, Some(1));
    app.handle_key(KeyInput::ShiftUp);
    assert_eq!(app.slurm_jobs.selected, Some(0));
}

#[test]
fn jump_top_and_bottom() {
    let mut app = fresh();
    app.refresh_slurm_jobs(vec![job("1", "R"), job("2", "R"), job("3", "R")]);
    app.handle_key(KeyInput::CharB);
    assert_eq!(app.slurm_jobs.selected, Some(2));
    app.handle_key(KeyInput::CharT);
    assert_eq!(app.slurm_jobs.selected, Some(0));
}

#[test]
fn right_panel_toggle_fetches_the_script() {
    let mut app = fresh();
    app.refresh_slurm_jobs(vec![job("7", "R")]);
    app.panel_fetched(vec!["line one".to_string(), "line two".to_string()]);
    assert_eq!(app.job_output.len(), 2);
    let r = app.handle_key(KeyInput::CharJ);
    assert_eq!(app.right_panel_focus, RightPanelFocus::JobScript);
    assert_eq!(r, AdapterRequest::FetchScript("7".to_string()));
    app.panel_fetched(vec!["#!/bin/bash".to_string()]);
    assert_eq!(app.job_script.len(), 1);
    assert_eq!(app.job_script.items[0], "#!/bin/bash");
    assert_eq!(app.job_script.selected, Some(0));
    // the output buffer is left alone
    assert_eq!(app.job_output.len(), 2);
    assert_eq!(app.job_output.items[0], "line one");
}

#[test]
fn right_panel_toggle_twice_returns_to_output() {
    let mut app = fresh();
    app.refresh_slurm_jobs(vec![job("7", "R")]);
    app.toggle_right_panel();
    let r = app.toggle_right_panel();
    assert_eq!(app.right_panel_focus, RightPanelFocus::Output);
    assert_eq!(r, AdapterRequest::FetchOutput("7".to_string()));
}

#[test]
fn request_cancel_then_dismiss_makes_no_adapter_call() {
    let mut app = fresh();
    app.refresh_slurm_jobs(vec![job("7", "R")]);
    app.request_cancel();
    assert_eq!(app.modal, Some(Modal::ConfirmCancel));
    app.cancel_modal();
    assert_eq!(app.modal, None);
    assert_eq!(app.slurm_jobs.selected, Some(0));
    assert!(app.running);
}

#[test]
fn request_cancel_needs_a_selection() {
    let mut app = fresh();
    app.request_cancel();
    assert_eq!(app.modal, None);
}

#[test]
fn requeue_flow_names_the_selected_job() {
    let mut app = fresh();
    app.refresh_slurm_jobs(vec![job("42", "PD")]);
    app.handle_key(KeyInput::CharR);
    assert_eq!(app.modal, Some(Modal::ConfirmRequeue));
    let r = app.handle_key(KeyInput::Enter);
    assert_eq!(r, AdapterRequest::RequeueThenRefresh("42".to_string()));
    assert_eq!(app.modal, None);
}

#[test]
fn modal_suppresses_navigation_and_focus() {
    let mut app = fresh();
    app.refresh_slurm_jobs(vec![job("1", "R"), job("2", "R")]);
    app.request_cancel();
    let r = app.on_down();
    assert_eq!(r, AdapterRequest::Idle);
    assert_eq!(app.slurm_jobs.selected, Some(0));
    app.toggle_focus();
    assert_eq!(app.focus, Focus::JobList);
    let r = app.toggle_right_panel();
    assert_eq!(r, AdapterRequest::Idle);
    assert_eq!(app.right_panel_focus, RightPanelFocus::Output);
    let r = app.toggle_filter();
    assert_eq!(r, AdapterRequest::Idle);
    assert!(!app.running_only);
    // q is suppressed too; Ctrl-C still quits
    app.handle_key(KeyInput::CharQ);
    assert!(app.running);
    app.handle_key(KeyInput::CtrlC);
    assert!(!app.running);
}

#[test]
fn confirm_without_a_dialog_is_a_no_op() {
    let mut app = fresh();
    app.refresh_slurm_jobs(vec![job("1", "R")]);
    let r = app.confirm_modal();
    assert_eq!(r, AdapterRequest::Idle);
    assert_eq!(app.modal, None);
}

#[test]
fn tab_moves_focus_to_the_output_panel() {
    let mut app = fresh();
    app.refresh_slurm_jobs(vec![job("1", "R")]);
    app.panel_fetched(vec!["a".to_string(), "b".to_string(), "c".to_string()]);
    app.handle_key(KeyInput::Tab);
    assert_eq!(app.focus, Focus::OutputPanel);
    // navigation now drives the output buffer, not the job list
    app.on_down();
    assert_eq!(app.job_output.selected, Some(1));
    assert_eq!(app.slurm_jobs.selected, Some(0));
}

#[test]
fn script_panel_receives_navigation_when_focused() {
    let mut app = fresh();
    app.refresh_slurm_jobs(vec![job("1", "R")]);
    app.toggle_right_panel();
    app.panel_fetched(vec!["#!/bin/bash".to_string(), "echo hi".to_string()]);
    app.toggle_focus();
    assert_eq!(app.focus, Focus::OutputPanel);
    app.on_down();
    assert_eq!(app.job_script.selected, Some(1));
    app.jump_top();
    assert_eq!(app.job_script.selected, Some(0));
    assert_eq!(app.slurm_jobs.selected, Some(0));
}

#[test]
fn fast_scroll_from_no_selection_picks_the_first_job() {
    let mut app = fresh();
    app.refresh_slurm_jobs(vec![job("1", "R"), job("2", "R")]);
    // drop the selection by reloading an empty list, then refill
    app.refresh_slurm_jobs(Vec::new());
    assert_eq!(app.slurm_jobs.selected, None);
    app.refresh_slurm_jobs(vec![job("1", "R"), job("2", "R")]);
    assert_eq!(app.slurm_jobs.selected, Some(0));
    app.on_down_by(7);
    // 7 steps over 2 items: (0 + 7) mod 2
    assert_eq!(app.slurm_jobs.selected, Some(1));
}

#[test]
fn stateful_list_navigation_wraps() {
    let mut list = StatefulList::with_items(vec![10u32, 20, 30]);
    assert_eq!(list.selected, None);
    list.next();
    assert_eq!(list.selected, Some(0));
    list.previous();
    assert_eq!(list.selected, Some(2));
    list.next();
    assert_eq!(list.selected, Some(0));
    assert_eq!(list.len(), 3);
}

#[test]
fn stateful_list_on_empty_does_nothing() {
    let mut list: StatefulList<u32> = StatefulList::with_items(Vec::new());
    list.next();
    assert_eq!(list.selected, None);
    list.previous();
    assert_eq!(list.selected, None);
    list.select_first();
    assert_eq!(list.selected, None);
    list.select_last();
    assert_eq!(list.selected, None);
}

#[test]
fn unknown_key_changes_nothing() {
    let mut app = fresh();
    app.refresh_slurm_jobs(vec![job("1", "R")]);
    let r = app.handle_key(KeyInput::Other);
    assert_eq!(r, AdapterRequest::Idle);
    assert!(app.running);
    assert_eq!(app.slurm_jobs.selected, Some(0));
}

#[test]
fn tick_changes_nothing() {
    let app = fresh();
    app.tick();
    assert!(app.running);
}

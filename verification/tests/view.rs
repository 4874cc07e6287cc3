use slurm_tui::app::{Focus, Modal};
use slurm_tui::slurm::SlurmJob;
use slurm_tui::ui::{
    border_colors, centered_rect, details_rows, job_row, modal_message, state_color, Rect,
    StateColor,
};

fn job() -> SlurmJob {
    SlurmJob {
        job_id: "12345".to_string(),
        state: "R".to_string(),
        job_name: "train".to_string(),
        node_list: "node01".to_string(),
        work_dir: "/home/u/w".to_string(),
        account: "acct".to_string(),
        submit: "2024-01-01T10:00:00".to_string(),
        start: "2024-01-01T10:05:00".to_string(),
        elapsed_time: "01:00:00".to_string(),
        time_limit: "02:00:00".to_string(),
    }
}

#[test]
fn state_palette() {
    for s in ["R", "CD", "TO"] {
        assert_eq!(state_color(&s.to_string()), StateColor::Green);
    }
    assert_eq!(state_color(&"F".to_string()), StateColor::Red);
    for s in ["PD", "CA", "PR", "NF", "RV", "S"] {
        assert_eq!(state_color(&s.to_string()), StateColor::Orange);
    }
    assert_eq!(state_color(&"WEIRD".to_string()), StateColor::White);
    assert_eq!(state_color(&"".to_string()), StateColor::White);
    // colours go by the exact code, not by a prefix
    assert_eq!(state_color(&"RV".to_string()), StateColor::Orange);
}

#[test]
fn focused_panel_border_is_green() {
    assert_eq!(border_colors(Focus::JobList), (StateColor::Green, StateColor::White));
    assert_eq!(border_colors(Focus::OutputPanel), (StateColor::White, StateColor::Green));
}

#[test]
fn job_list_row_cells() {
    let r = job_row(&job());
    assert_eq!(r.0, "12345");
    assert_eq!(r.1, "R");
    assert_eq!(r.2, "train");
}

#[test]
fn details_table_has_nine_fixed_rows() {
    let rows = details_rows(&job());
    assert_eq!(rows.len(), 9);
    assert_eq!(rows[0], ("STATE".to_string(), "R".to_string()));
    assert_eq!(rows[1], ("JOB ID".to_string(), "12345".to_string()));
    assert_eq!(rows[2], ("JOB NAME".to_string(), "train".to_string()));
    assert_eq!(rows[3], ("NODE".to_string(), "node01".to_string()));
    assert_eq!(rows[4], ("WORK DIR".to_string(), "/home/u/w".to_string()));
    assert_eq!(rows[5], ("ACCOUNT".to_string(), "acct".to_string()));
    assert_eq!(rows[6], ("SUBMIT".to_string(), "2024-01-01T10:00:00".to_string()));
    assert_eq!(rows[7], ("START".to_string(), "2024-01-01T10:05:00".to_string()));
    assert_eq!(rows[8], ("ELAPSED".to_string(), "01:00:00 / 02:00:00".to_string()));
}

#[test]
fn modal_messages_name_the_job() {
    assert_eq!(
        modal_message(Modal::ConfirmCancel, &"12345".to_string()),
        "Cancelling job: 12345"
    );
    assert_eq!(
        modal_message(Modal::ConfirmRequeue, &"12345".to_string()),
        "Requeueing job: 12345"
    );
}

#[test]
fn centered_rect_covers_the_given_fractions() {
    let screen = Rect { x: 0, y: 0, width: 100, height: 100 };
    let c = centered_rect(30, 10, screen);
    assert_eq!(c, Rect { x: 35, y: 45, width: 30, height: 10 });
}

#[test]
fn centered_rect_respects_an_offset_area() {
    let area = Rect { x: 10, y: 20, width: 80, height: 40 };
    let c = centered_rect(50, 50, area);
    assert_eq!(c, Rect { x: 30, y: 30, width: 40, height: 20 });
    assert!(c.x >= area.x && c.x + c.width <= area.x + area.width);
    assert!(c.y >= area.y && c.y + c.height <= area.y + area.height);
}

//! The pure computations behind the rendered frame: the colour of a state
//! code, the border colours of the two panels, the rows of the details
//! table, the text of the modal overlay, and the centred overlay rectangle.
//!
//! Drawing itself is left to the caller; everything here is a function of a
//! state snapshot.

use vstd::prelude::*;
use crate::app::Focus;
use crate::app::Modal;
use crate::slurm::SlurmJob;

verus! {

/// A foreground colour of the palette.
#[derive(Clone, Copy, Debug, PartialEq, Eq, Structural)]
pub enum StateColor {
    Green,
    Red,
    Orange,
    White,
}

/// The colour a state code is shown in: `R`, `CD` and `TO` green, `F` red,
/// `PD`, `CA`, `PR`, `NF`, `RV` and `S` orange, anything else white.
pub open spec fn spec_state_color(s: Seq<char>) -> StateColor {
    if s == "R"@ || s == "CD"@ || s == "TO"@ {
        StateColor::Green
    } else if s == "F"@ {
        StateColor::Red
    } else if s == "PD"@ || s == "CA"@ || s == "PR"@ || s == "NF"@ || s == "RV"@ || s == "S"@ {
        StateColor::Orange
    } else {
        StateColor::White
    }
}

/// The colour of one state code, as `spec_state_color` assigns it.
pub fn state_color(state: &String) -> (r: StateColor)
    ensures
        r == spec_state_color(state@),
{
    if *state == String::from_str("R") || *state == String::from_str("CD") || *state
        == String::from_str("TO") {
        StateColor::Green
    } else if *state == String::from_str("F") {
        StateColor::Red
    } else if *state == String::from_str("PD") || *state == String::from_str("CA") || *state
        == String::from_str("PR") || *state == String::from_str("NF") || *state
        == String::from_str("RV") || *state == String::from_str("S") {
        StateColor::Orange
    } else {
        StateColor::White
    }
}

/// Border colours of the job list and of the right panel: the focused one
/// green, the other white.
pub fn border_colors(focus: Focus) -> (r: (StateColor, StateColor))
    ensures
        focus is JobList ==> r == (StateColor::Green, StateColor::White),
        focus is OutputPanel ==> r == (StateColor::White, StateColor::Green),
{
    match focus {
        Focus::JobList => (StateColor::Green, StateColor::White),
        Focus::OutputPanel => (StateColor::White, StateColor::Green),
    }
}

/// The three cells of one job-list row: id, state, name.
pub fn job_row(job: &SlurmJob) -> (r: (String, String, String))
    ensures
        r.0@ == job@.job_id,
        r.1@ == job@.state,
        r.2@ == job@.job_name,
{
    (job.job_id.clone(), job.state.clone(), job.job_name.clone())
}

/// The nine label/value rows of the details table for one job; the last row
/// joins elapsed time and time limit.
pub fn details_rows(job: &SlurmJob) -> (r: Vec<(String, String)>)
    ensures
        r@.len() == 9,
        r@[0].0@ == "STATE"@ && r@[0].1@ == job@.state,
        r@[1].0@ == "JOB ID"@ && r@[1].1@ == job@.job_id,
        r@[2].0@ == "JOB NAME"@ && r@[2].1@ == job@.job_name,
        r@[3].0@ == "NODE"@ && r@[3].1@ == job@.node_list,
        r@[4].0@ == "WORK DIR"@ && r@[4].1@ == job@.work_dir,
        r@[5].0@ == "ACCOUNT"@ && r@[5].1@ == job@.account,
        r@[6].0@ == "SUBMIT"@ && r@[6].1@ == job@.submit,
        r@[7].0@ == "START"@ && r@[7].1@ == job@.start,
        r@[8].0@ == "ELAPSED"@ && r@[8].1@ == job@.elapsed_time + " / "@ + job@.time_limit,
{
    let mut rows: Vec<(String, String)> = Vec::new();
    rows.push((String::from_str("STATE"), job.state.clone()));
    rows.push((String::from_str("JOB ID"), job.job_id.clone()));
    rows.push((String::from_str("JOB NAME"), job.job_name.clone()));
    rows.push((String::from_str("NODE"), job.node_list.clone()));
    rows.push((String::from_str("WORK DIR"), job.work_dir.clone()));
    rows.push((String::from_str("ACCOUNT"), job.account.clone()));
    rows.push((String::from_str("SUBMIT"), job.submit.clone()));
    rows.push((String::from_str("START"), job.start.clone()));
    rows.push((String::from_str("ELAPSED"), job.elapsed_time.clone().concat(" / ").concat(
        job.time_limit.as_str(),
    )));
    rows
}

/// The message of the confirmation overlay, naming the selected job.
pub fn modal_message(modal: Modal, job_id: &String) -> (r: String)
    ensures
        modal is ConfirmCancel ==> r@ == "Cancelling job: "@ + job_id@,
        modal is ConfirmRequeue ==> r@ == "Requeueing job: "@ + job_id@,
{
    match modal {
        Modal::ConfirmCancel => String::from_str("Cancelling job: ").concat(job_id.as_str()),
        Modal::ConfirmRequeue => String::from_str("Requeueing job: ").concat(job_id.as_str()),
    }
}

/// A rectangle of the terminal grid: column, row, width, height.
#[derive(Clone, Copy, Debug, PartialEq, Eq, Structural)]
pub struct Rect {
    pub x: u16,
    pub y: u16,
    pub width: u16,
    pub height: u16,
}

/// A percentage of a length never exceeds the length.
proof fn lemma_percent_bound(w: int, p: int)
    requires
        0 <= w,
        0 <= p <= 100,
    ensures
        0 <= w * p,
        w * p <= w * 100,
        w * p / 100 <= w,
{
    assert(w * p >= 0) by (nonlinear_arith)
        requires
            w >= 0,
            p >= 0,
    ;
    vstd::arithmetic::mul::lemma_mul_inequality(p, 100, w);
    vstd::arithmetic::div_mod::lemma_div_is_ordered(w * p, w * 100, 100);
    vstd::arithmetic::div_mod::lemma_div_by_multiple(w, 100);
}

/// The rectangle covering the given fractions of `r`, centred inside it:
/// the overlay box of the confirmation dialog.
pub fn centered_rect(percent_x: u16, percent_y: u16, r: Rect) -> (c: Rect)
    requires
        percent_x <= 100,
        percent_y <= 100,
        r.x + r.width <= u16::MAX,
        r.y + r.height <= u16::MAX,
    ensures
        c.width == r.width * percent_x / 100,
        c.height == r.height * percent_y / 100,
        c.x == r.x + (r.width - c.width) / 2,
        c.y == r.y + (r.height - c.height) / 2,
        r.x <= c.x && c.x + c.width <= r.x + r.width,
        r.y <= c.y && c.y + c.height <= r.y + r.height,
{
    proof {
        lemma_percent_bound(r.width as int, percent_x as int);
        lemma_percent_bound(r.height as int, percent_y as int);
    }
    let width = ((r.width as u32) * (percent_x as u32) / 100) as u16;
    let height = ((r.height as u32) * (percent_y as u32) / 100) as u16;
    let x = r.x + (r.width - width) / 2;
    let y = r.y + (r.height - height) / 2;
    Rect { x, y, width, height }
}

} // verus!

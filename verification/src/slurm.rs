//! Job records from the scheduler's accounting query and the parsing of its
//! textual output.
//!
//! The accounting query is asked for a fixed, ordered field list with `|` as
//! the delimiter. A row is well formed exactly when it holds
//! `FIELD_COUNT - 1` delimiters; malformed rows are skipped and the
//! remaining rows are still returned. The state field is normalised to its
//! short form: the first whitespace-separated token, uppercased.

use vstd::prelude::*;

verus! {

/// Number of fields requested from the accounting query, in order:
/// job id, state, name, node list, work directory, account, submit time,
/// start time, elapsed time, time limit.
pub const FIELD_COUNT: usize = 10;

/// One record of the scheduler's accounting query. All fields are textual;
/// the job id is the primary key within one refresh.
#[derive(Debug)]
pub struct SlurmJob {
    pub job_id: String,
    pub state: String,
    pub job_name: String,
    pub node_list: String,
    pub work_dir: String,
    pub account: String,
    pub submit: String,
    pub start: String,
    pub elapsed_time: String,
    pub time_limit: String,
}

/// Mathematical image of a job record: each field as a character sequence.
#[verifier::ext_equal]
pub ghost struct JobView {
    pub job_id: Seq<char>,
    pub state: Seq<char>,
    pub job_name: Seq<char>,
    pub node_list: Seq<char>,
    pub work_dir: Seq<char>,
    pub account: Seq<char>,
    pub submit: Seq<char>,
    pub start: Seq<char>,
    pub elapsed_time: Seq<char>,
    pub time_limit: Seq<char>,
}

impl View for SlurmJob {
    type V = JobView;

    open spec fn view(&self) -> JobView {
        JobView {
            job_id: self.job_id@,
            state: self.state@,
            job_name: self.job_name@,
            node_list: self.node_list@,
            work_dir: self.work_dir@,
            account: self.account@,
            submit: self.submit@,
            start: self.start@,
            elapsed_time: self.elapsed_time@,
            time_limit: self.time_limit@,
        }
    }
}

impl Clone for SlurmJob {
    fn clone(&self) -> (r: Self)
        ensures
            r@ == self@,
    {
        SlurmJob {
            job_id: self.job_id.clone(),
            state: self.state.clone(),
            job_name: self.job_name.clone(),
            node_list: self.node_list.clone(),
            work_dir: self.work_dir.clone(),
            account: self.account.clone(),
            submit: self.submit.clone(),
            start: self.start.clone(),
            elapsed_time: self.elapsed_time.clone(),
            time_limit: self.time_limit.clone(),
        }
    }
}

/// How often the character `d` occurs in `s`.
pub open spec fn count_char(s: Seq<char>, d: char) -> nat
    decreases s.len(),
{
    if s.len() == 0 {
        0
    } else {
        (if s[0] == d {
            1nat
        } else {
            0nat
        }) + count_char(s.skip(1), d)
    }
}

/// The pieces of `s` between occurrences of the delimiter `d`: one piece
/// more than there are delimiters, each piece free of `d`, in order.
pub open spec fn split_char(s: Seq<char>, d: char) -> Seq<Seq<char>>
    decreases s.len(),
{
    if s.len() == 0 {
        seq![Seq::<char>::empty()]
    } else if s[0] == d {
        seq![Seq::<char>::empty()] + split_char(s.skip(1), d)
    } else {
        let rest = split_char(s.skip(1), d);
        seq![seq![s[0]] + rest[0]] + rest.skip(1)
    }
}

/// The views of a sequence of strings.
pub open spec fn views_of_strings(v: Seq<String>) -> Seq<Seq<char>> {
    v.map_values(|t: String| t@)
}

/// The views of a sequence of job records.
pub open spec fn views_of_jobs(v: Seq<SlurmJob>) -> Seq<JobView> {
    v.map_values(|j: SlurmJob| j@)
}

/// Splitting yields one piece more than there are delimiters.
pub proof fn lemma_split_count(s: Seq<char>, d: char)
    ensures
        split_char(s, d).len() == count_char(s, d) + 1,
    decreases s.len(),
{
    if s.len() == 0 {
    } else {
        lemma_split_count(s.skip(1), d);
    }
}

/// If the first `k` characters of `s` are free of the delimiter and the
/// character at `k` (if any) is the delimiter, the first piece of the split
/// is exactly that prefix.
proof fn lemma_split_prefix(s: Seq<char>, d: char, k: int)
    requires
        0 <= k <= s.len(),
        forall|j: int| 0 <= j < k ==> s[j] != d,
        k < s.len() ==> s[k] == d,
    ensures
        k == s.len() ==> split_char(s, d) == seq![s],
        k < s.len() ==> split_char(s, d) == seq![s.subrange(0, k)] + split_char(s.skip(k + 1), d),
    decreases s.len(),
{
    if s.len() == 0 {
        assert(s =~= Seq::<char>::empty());
        assert(split_char(s, d) =~= seq![s]);
    } else if k == 0 {
        assert(s.subrange(0, 0) =~= Seq::<char>::empty());
        assert(split_char(s, d) =~= seq![s.subrange(0, 0)] + split_char(s.skip(1), d));
    } else {
        let tail = s.skip(1);
        assert(forall|j: int| 0 <= j < k - 1 ==> tail[j] != d);
        assert(k - 1 < tail.len() ==> tail[k - 1] == d);
        lemma_split_prefix(tail, d, k - 1);
        let rest = split_char(tail, d);
        if k == s.len() {
            assert(rest == seq![tail]);
            assert(seq![s[0]] + rest[0] =~= s);
            assert(rest.skip(1) =~= Seq::<Seq<char>>::empty());
            assert(split_char(s, d) =~= seq![s]);
        } else {
            assert(rest == seq![tail.subrange(0, k - 1)] + split_char(tail.skip(k), d));
            assert(tail.skip(k) =~= s.skip(k + 1));
            assert(rest[0] == tail.subrange(0, k - 1));
            assert(seq![s[0]] + rest[0] =~= s.subrange(0, k));
            assert(rest.skip(1) =~= split_char(s.skip(k + 1), d));
            assert(split_char(s, d) =~= seq![s.subrange(0, k)] + split_char(s.skip(k + 1), d));
        }
    }
}

/// Mapping string views commutes with appending one string.
proof fn lemma_views_push(v: Seq<String>, x: String)
    ensures
        views_of_strings(v.push(x)) == views_of_strings(v).push(x@),
{
    assert(views_of_strings(v.push(x)) =~= views_of_strings(v).push(x@));
}

/// Splits `s` at every occurrence of `d`, keeping empty pieces.
pub fn split_str(s: &str, d: char) -> (r: Vec<String>)
    ensures
        views_of_strings(r@) == split_char(s@, d),
{
    let n = s.unicode_len();
    let mut fields: Vec<String> = Vec::new();
    let mut start: usize = 0;
    let mut i: usize = 0;
    proof {
        assert(s@.skip(0) =~= s@);
        assert(views_of_strings(fields@) =~= Seq::<Seq<char>>::empty());
        assert(views_of_strings(fields@) + split_char(s@, d) =~= split_char(s@, d));
    }
    while i < n
        invariant
            start <= i <= n,
            n == s@.len(),
            forall|j: int| start <= j < i ==> s@[j] != d,
            split_char(s@, d) == views_of_strings(fields@) + split_char(s@.skip(start as int), d),
        decreases n - i,
    {
        let c = s.get_char(i);
        if c == d {
            let piece = String::from_str(s.substring_char(start, i));
            proof {
                let rem = s@.skip(start as int);
                assert(forall|j: int| 0 <= j < i - start ==> rem[j] == s@[j + start] && rem[j] != d);
                assert(rem[i - start] == d);
                lemma_split_prefix(rem, d, i - start);
                assert(rem.subrange(0, i - start) =~= s@.subrange(start as int, i as int));
                assert(rem.skip(i - start + 1) =~= s@.skip(i as int + 1));
                lemma_views_push(fields@, piece);
                assert(views_of_strings(fields@) + (seq![piece@] + split_char(s@.skip(i as int + 1), d)) =~= views_of_strings(fields@.push(piece)) + split_char(s@.skip(i as int + 1), d));
            }
            fields.push(piece);
            i = i + 1;
            start = i;
        } else {
            i = i + 1;
        }
    }
    let piece = String::from_str(s.substring_char(start, n));
    proof {
        let rem = s@.skip(start as int);
        assert(forall|j: int| 0 <= j < rem.len() ==> rem[j] == s@[j + start] && rem[j] != d);
        lemma_split_prefix(rem, d, rem.len() as int);
        assert(rem =~= s@.subrange(start as int, n as int));
        lemma_views_push(fields@, piece);
        assert(views_of_strings(fields@) + seq![piece@] =~= views_of_strings(fields@.push(piece)));
    }
    fields.push(piece);
    fields
}

/// Whether `c` separates tokens inside a field.
pub open spec fn is_space(c: char) -> bool {
    c == ' ' || c == '\t'
}

/// The first maximal run of non-whitespace characters of `s`, taken from its
/// very start; empty if `s` starts with whitespace or is empty.
pub open spec fn take_token(s: Seq<char>) -> Seq<char>
    decreases s.len(),
{
    if s.len() == 0 || is_space(s[0]) {
        Seq::empty()
    } else {
        seq![s[0]] + take_token(s.skip(1))
    }
}

/// The first whitespace-separated token of `s`; empty if `s` holds only
/// whitespace.
pub open spec fn first_token(s: Seq<char>) -> Seq<char>
    decreases s.len(),
{
    if s.len() == 0 {
        Seq::empty()
    } else if is_space(s[0]) {
        first_token(s.skip(1))
    } else {
        take_token(s)
    }
}

/// The ASCII uppercase form of `c`; characters outside `a`..`z` are kept.
pub open spec fn to_upper(c: char) -> char {
    match c {
        'a' => 'A',
        'b' => 'B',
        'c' => 'C',
        'd' => 'D',
        'e' => 'E',
        'f' => 'F',
        'g' => 'G',
        'h' => 'H',
        'i' => 'I',
        'j' => 'J',
        'k' => 'K',
        'l' => 'L',
        'm' => 'M',
        'n' => 'N',
        'o' => 'O',
        'p' => 'P',
        'q' => 'Q',
        'r' => 'R',
        's' => 'S',
        't' => 'T',
        'u' => 'U',
        'v' => 'V',
        'w' => 'W',
        'x' => 'X',
        'y' => 'Y',
        'z' => 'Z',
        _ => c,
    }
}

/// `s` with every character uppercased.
pub open spec fn upper_seq(s: Seq<char>) -> Seq<char> {
    s.map_values(|c: char| to_upper(c))
}

/// The short form of a state field: its first whitespace-separated token,
/// uppercased.
pub open spec fn normalize_state(s: Seq<char>) -> Seq<char> {
    upper_seq(first_token(s))
}

fn is_space_char(c: char) -> (r: bool)
    ensures
        r == is_space(c),
{
    c == ' ' || c == '\t'
}

/// The ASCII uppercase form of one character.
pub fn to_upper_char(c: char) -> (r: char)
    ensures
        r == to_upper(c),
{
    match c {
        'a' => 'A',
        'b' => 'B',
        'c' => 'C',
        'd' => 'D',
        'e' => 'E',
        'f' => 'F',
        'g' => 'G',
        'h' => 'H',
        'i' => 'I',
        'j' => 'J',
        'k' => 'K',
        'l' => 'L',
        'm' => 'M',
        'n' => 'N',
        'o' => 'O',
        'p' => 'P',
        'q' => 'Q',
        'r' => 'R',
        's' => 'S',
        't' => 'T',
        'u' => 'U',
        'v' => 'V',
        'w' => 'W',
        'x' => 'X',
        'y' => 'Y',
        'z' => 'Z',
        _ => c,
    }
}

/// Relies on String::push: appends one character at the end.
#[verifier::external_body]
fn push_char(s: &mut String, c: char)
    ensures
        final(s)@ == old(s)@.push(c),
{
    s.push(c);
}

/// If the first `k` characters of `s` are non-whitespace and the character
/// at `k` (if any) is whitespace, the leading token is exactly that prefix.
proof fn lemma_take_token(s: Seq<char>, k: int)
    requires
        0 <= k <= s.len(),
        forall|j: int| 0 <= j < k ==> !is_space(s[j]),
        k < s.len() ==> is_space(s[k]),
    ensures
        take_token(s) == s.take(k),
    decreases s.len(),
{
    if s.len() == 0 || k == 0 {
        assert(take_token(s) =~= s.take(k));
    } else {
        let tail = s.skip(1);
        assert(forall|j: int| 0 <= j < k - 1 ==> tail[j] == s[j + 1] && !is_space(tail[j]));
        assert(k - 1 < tail.len() ==> tail[k - 1] == s[k]);
        lemma_take_token(tail, k - 1);
        assert(seq![s[0]] + tail.take(k - 1) =~= s.take(k));
    }
}

/// Normalises a state field to its short form: the first
/// whitespace-separated token, uppercased.
pub fn normalize_state_str(field: &str) -> (r: String)
    ensures
        r@ == normalize_state(field@),
{
    let n = field.unicode_len();
    let mut i: usize = 0;
    proof {
        assert(field@.skip(0) =~= field@);
    }
    while i < n && is_space_char(field.get_char(i))
        invariant
            i <= n,
            n == field@.len(),
            first_token(field@) == first_token(field@.skip(i as int)),
        decreases n - i,
    {
        proof {
            assert(field@.skip(i as int).skip(1) =~= field@.skip(i as int + 1));
        }
        i = i + 1;
    }
    if i == n {
        proof {
            assert(field@.skip(i as int) =~= Seq::<char>::empty());
            assert(upper_seq(Seq::<char>::empty()) =~= Seq::<char>::empty());
        }
        return String::new();
    }
    let start = i;
    let mut j = i;
    while j < n && !is_space_char(field.get_char(j))
        invariant
            start <= j <= n,
            n == field@.len(),
            forall|l: int| start <= l < j ==> !is_space(field@[l]),
        decreases n - j,
    {
        j = j + 1;
    }
    let tok = field.substring_char(start, j);
    proof {
        let rem = field@.skip(start as int);
        assert(!is_space(rem[0]));
        assert(first_token(field@.skip(start as int)) == take_token(rem));
        assert(forall|l: int| 0 <= l < j - start ==> rem[l] == field@[l + start] && !is_space(rem[l]));
        assert(j - start < rem.len() ==> rem[j - start] == field@[j as int]);
        lemma_take_token(rem, j - start);
        assert(rem.take(j - start) =~= field@.subrange(start as int, j as int));
        assert(tok@ == first_token(field@));
    }
    let m = tok.unicode_len();
    let mut out = String::new();
    let mut k: usize = 0;
    while k < m
        invariant
            k <= m,
            m == tok@.len(),
            out@ == upper_seq(tok@).take(k as int),
        decreases m - k,
    {
        let u = to_upper_char(tok.get_char(k));
        push_char(&mut out, u);
        proof {
            assert(upper_seq(tok@).take(k as int + 1) =~= upper_seq(tok@).take(k as int).push(to_upper(tok@[k as int])));
        }
        k = k + 1;
    }
    proof {
        assert(upper_seq(tok@).take(m as int) =~= upper_seq(tok@));
    }
    out
}

/// Whether a normalised state code names a running (`R`) or pending (`PD`)
/// job.
pub open spec fn is_active_state(s: Seq<char>) -> bool {
    s == "R"@ || s == "PD"@
}

/// Whether a job's state is running or pending.
pub fn is_active_job(j: &SlurmJob) -> (r: bool)
    ensures
        r == is_active_state(j@.state),
{
    let r_code = String::from_str("R");
    let pd_code = String::from_str("PD");
    j.state == r_code || j.state == pd_code
}

/// The running and pending jobs of a sequence, in order.
pub open spec fn active_jobs(v: Seq<SlurmJob>) -> Seq<SlurmJob> {
    v.filter(|j: SlurmJob| is_active_state(j@.state))
}

proof fn lemma_active_jobs_push(v: Seq<SlurmJob>, j: SlurmJob)
    ensures
        is_active_state(j@.state) ==> active_jobs(v.push(j)) == active_jobs(v).push(j),
        !is_active_state(j@.state) ==> active_jobs(v.push(j)) == active_jobs(v),
{
    broadcast use vstd::seq::Seq::lemma_filter_push;

}

/// Keeps the running and pending jobs, in order.
pub fn filter_active(v: Vec<SlurmJob>) -> (r: Vec<SlurmJob>)
    ensures
        r@ == active_jobs(v@),
{
    let ghost orig = v@;
    let mut v = v;
    let mut kept: Vec<SlurmJob> = Vec::new();
    let ghost mut done: int = 0;
    proof {
        assert(orig.take(0) =~= Seq::<SlurmJob>::empty());
        assert(active_jobs(orig.take(0)) =~= Seq::<SlurmJob>::empty());
        assert(orig.skip(0) =~= orig);
    }
    while v.len() > 0
        invariant
            0 <= done <= orig.len(),
            v@ == orig.skip(done),
            kept@ == active_jobs(orig.take(done)),
        decreases v@.len(),
    {
        proof {
            assert(orig.skip(done)[0] == orig[done]);
            assert(orig.skip(done).remove(0) =~= orig.skip(done + 1));
            assert(orig.take(done + 1) =~= orig.take(done).push(orig[done]));
            lemma_active_jobs_push(orig.take(done), orig[done]);
        }
        let j = v.remove(0);
        if is_active_job(&j) {
            kept.push(j);
        }
        proof {
            done = done + 1;
        }
    }
    proof {
        assert(orig.take(done) =~= orig);
    }
    kept
}

/// A row is well formed exactly when it holds `FIELD_COUNT - 1` delimiters.
pub open spec fn row_valid(s: Seq<char>) -> bool {
    count_char(s, '|') == FIELD_COUNT - 1
}

/// The job record a well-formed row denotes: the ten pieces between the
/// delimiters, in the requested field order, with the state normalised.
pub open spec fn job_of_row(s: Seq<char>) -> JobView {
    let f = split_char(s, '|');
    JobView {
        job_id: f[0],
        state: normalize_state(f[1]),
        job_name: f[2],
        node_list: f[3],
        work_dir: f[4],
        account: f[5],
        submit: f[6],
        start: f[7],
        elapsed_time: f[8],
        time_limit: f[9],
    }
}

/// Parses one accounting row. Returns a record exactly for well-formed rows;
/// the state comes out as its first whitespace-separated token, uppercased.
pub fn parse_job_row(row: &str) -> (r: Option<SlurmJob>)
    ensures
        r is Some <==> row_valid(row@),
        r matches Some(j) ==> j@ == job_of_row(row@),
{
    let fields = split_str(row, '|');
    proof {
        lemma_split_count(row@, '|');
    }
    if fields.len() != FIELD_COUNT {
        None
    } else {
        let j = SlurmJob {
            job_id: fields[0].clone(),
            state: normalize_state_str(fields[1].as_str()),
            job_name: fields[2].clone(),
            node_list: fields[3].clone(),
            work_dir: fields[4].clone(),
            account: fields[5].clone(),
            submit: fields[6].clone(),
            start: fields[7].clone(),
            elapsed_time: fields[8].clone(),
            time_limit: fields[9].clone(),
        };
        proof {
            assert(j@ =~= job_of_row(row@));
        }
        Some(j)
    }
}

/// The well-formed rows of a row sequence, in order.
pub open spec fn valid_rows(rows: Seq<Seq<char>>) -> Seq<Seq<char>> {
    rows.filter(|r: Seq<char>| row_valid(r))
}

/// The records the well-formed rows of a row sequence denote, in order.
pub open spec fn jobs_of_rows(rows: Seq<Seq<char>>) -> Seq<JobView> {
    valid_rows(rows).map_values(|r: Seq<char>| job_of_row(r))
}

/// The records denoted by a whole accounting output: its newline-separated
/// rows, the malformed ones skipped.
pub open spec fn jobs_of_text(s: Seq<char>) -> Seq<JobView> {
    jobs_of_rows(split_char(s, '\n'))
}

proof fn lemma_jobs_of_rows_push(rows: Seq<Seq<char>>, r: Seq<char>)
    ensures
        row_valid(r) ==> jobs_of_rows(rows.push(r)) == jobs_of_rows(rows).push(job_of_row(r)),
        !row_valid(r) ==> jobs_of_rows(rows.push(r)) == jobs_of_rows(rows),
{
    broadcast use vstd::seq::Seq::lemma_filter_push;

    if row_valid(r) {
        assert(valid_rows(rows.push(r)) == valid_rows(rows).push(r));
        assert(valid_rows(rows).push(r).map_values(|x: Seq<char>| job_of_row(x)) =~= valid_rows(rows).map_values(|x: Seq<char>| job_of_row(x)).push(job_of_row(r)));
    } else {
        assert(valid_rows(rows.push(r)) == valid_rows(rows));
    }
}

/// Mapping job views commutes with appending one record.
proof fn lemma_job_views_push(v: Seq<SlurmJob>, j: SlurmJob)
    ensures
        views_of_jobs(v.push(j)) == views_of_jobs(v).push(j@),
{
    assert(views_of_jobs(v.push(j)) =~= views_of_jobs(v).push(j@));
}

/// Every malformed row is skipped and every well-formed row is kept: the
/// number of records a row sequence denotes is the number of its rows minus
/// the number of its malformed rows.
pub proof fn lemma_parse_count(rows: Seq<Seq<char>>)
    ensures
        jobs_of_rows(rows).len() + rows.filter(|r: Seq<char>| !row_valid(r)).len() == rows.len(),
    decreases rows.len(),
{
    broadcast use vstd::seq::Seq::lemma_filter_push;

    if rows.len() == 0 {
        assert(valid_rows(rows).len() == 0);
        assert(rows.filter(|r: Seq<char>| !row_valid(r)).len() == 0);
    } else {
        let dl = rows.drop_last();
        let last = rows.last();
        lemma_parse_count(dl);
        assert(rows =~= dl.push(last));
        lemma_jobs_of_rows_push(dl, last);
    }
}

/// Parses a whole accounting output: splits it at newlines and keeps the
/// record of every well-formed row, in order.
pub fn parse_jobs(text: &str) -> (r: Vec<SlurmJob>)
    ensures
        views_of_jobs(r@) == jobs_of_text(text@),
{
    let rows = split_str(text, '\n');
    let mut out: Vec<SlurmJob> = Vec::new();
    let mut i: usize = 0;
    while i < rows.len()
        invariant
            i <= rows.len(),
            views_of_strings(rows@) == split_char(text@, '\n'),
            views_of_jobs(out@) == jobs_of_rows(split_char(text@, '\n').take(i as int)),
        decreases rows.len() - i,
    {
        let ghost rows_v = split_char(text@, '\n');
        proof {
            assert(rows_v.take(i as int + 1) =~= rows_v.take(i as int).push(rows_v[i as int]));
            assert(rows_v[i as int] == rows@[i as int]@);
            lemma_jobs_of_rows_push(rows_v.take(i as int), rows_v[i as int]);
        }
        match parse_job_row(rows[i].as_str()) {
            Some(j) => {
                proof {
                    lemma_job_views_push(out@, j);
                }
                out.push(j);
            },
            None => {},
        }
        i = i + 1;
    }
    proof {
        assert(split_char(text@, '\n').take(rows@.len() as int) =~= split_char(text@, '\n'));
    }
    out
}

/// Whether `c` is any blank: space, tab or a line break.
pub open spec fn is_blank(c: char) -> bool {
    c == ' ' || c == '\t' || c == '\n' || c == '\r'
}

/// `s` with every blank turned into a plain space, so that one split
/// yields its whitespace-separated tokens.
pub open spec fn unify_blanks(s: Seq<char>) -> Seq<char> {
    s.map_values(|c: char| if is_blank(c) { ' ' } else { c })
}

/// The remainder of the first token of `toks` that starts with `pre`, with
/// the prefix removed; absent when no token starts with `pre`.
pub open spec fn first_with_prefix(toks: Seq<Seq<char>>, pre: Seq<char>) -> Option<Seq<char>>
    decreases toks.len(),
{
    if toks.len() == 0 {
        Option::None
    } else if toks[0].len() >= pre.len() && toks[0].take(pre.len() as int) == pre {
        Option::Some(toks[0].skip(pre.len() as int))
    } else {
        first_with_prefix(toks.skip(1), pre)
    }
}

/// Where the job-description text names the captured-output file: the value
/// of its first whitespace-separated `StdOut=` field.
pub open spec fn stdout_path_of(s: Seq<char>) -> Option<Seq<char>> {
    first_with_prefix(split_char(unify_blanks(s), ' '), "StdOut="@)
}

fn is_blank_char(c: char) -> (r: bool)
    ensures
        r == is_blank(c),
{
    c == ' ' || c == '\t' || c == '\n' || c == '\r'
}

/// Extracts the path of the captured-output file from a job-description
/// text, as `stdout_path_of` describes it.
pub fn stdout_path(text: &str) -> (r: Option<String>)
    ensures
        r is Some <==> stdout_path_of(text@) is Some,
        r matches Some(p) ==> stdout_path_of(text@) == Option::Some(p@),
{
    let n = text.unicode_len();
    let mut unified = String::new();
    let mut i: usize = 0;
    while i < n
        invariant
            i <= n,
            n == text@.len(),
            unified@ == unify_blanks(text@).take(i as int),
        decreases n - i,
    {
        let c = text.get_char(i);
        let u = if is_blank_char(c) {
            ' '
        } else {
            c
        };
        push_char(&mut unified, u);
        proof {
            assert(unify_blanks(text@).take(i as int + 1) =~= unify_blanks(text@).take(
                i as int,
            ).push(unify_blanks(text@)[i as int]));
        }
        i = i + 1;
    }
    proof {
        assert(unify_blanks(text@).take(n as int) =~= unify_blanks(text@));
    }
    let toks = split_str(unified.as_str(), ' ');
    let ghost tok_views = split_char(unify_blanks(text@), ' ');
    let pre = String::from_str("StdOut=");
    proof {
        reveal_strlit("StdOut=");
        assert(tok_views.skip(0) =~= tok_views);
    }
    let mut k: usize = 0;
    while k < toks.len()
        invariant
            k <= toks@.len(),
            tok_views == split_char(unify_blanks(text@), ' '),
            views_of_strings(toks@) == tok_views,
            pre@ == "StdOut="@,
            pre@.len() == 7,
            first_with_prefix(tok_views, "StdOut="@) == first_with_prefix(
                tok_views.skip(k as int),
                "StdOut="@,
            ),
        decreases toks@.len() - k,
    {
        proof {
            assert(tok_views.skip(k as int)[0] == tok_views[k as int]);
            assert(tok_views[k as int] == toks@[k as int]@);
            assert(tok_views.skip(k as int).skip(1) =~= tok_views.skip(k as int + 1));
        }
        let tok = toks[k].as_str();
        let len = tok.unicode_len();
        if len >= 7 {
            let head = tok.substring_char(0, 7);
            if String::from_str(head) == pre {
                proof {
                    assert(tok@.take(7) =~= tok@.subrange(0, 7));
                    assert(tok@.take(7) == "StdOut="@);
                    assert(tok_views.skip(k as int)[0] == tok@);
                    assert(first_with_prefix(tok_views.skip(k as int), "StdOut="@)
                        == Option::Some(tok@.skip(7)));
                }
                let rest = String::from_str(tok.substring_char(7, len));
                proof {
                    assert(tok@.skip(7) =~= tok@.subrange(7, tok@.len() as int));
                    assert(rest@ == tok@.skip(7));
                    assert(stdout_path_of(text@) == Option::Some(rest@));
                }
                return Some(rest);
            }
            proof {
                assert(tok@.take(7) =~= tok@.subrange(0, 7));
            }
        }
        k = k + 1;
    }
    proof {
        assert(tok_views.skip(toks@.len() as int) =~= Seq::<Seq<char>>::empty());
        assert(stdout_path_of(text@) is None);
    }
    None
}

/// The lines of a text: its newline-separated pieces, a final empty piece
/// after a trailing newline dropped, no newline retained.
pub open spec fn lines_of(s: Seq<char>) -> Seq<Seq<char>> {
    let p = split_char(s, '\n');
    if s.len() > 0 && p.last().len() == 0 {
        p.drop_last()
    } else {
        p
    }
}

/// Splits a fetched text into its lines, as `lines_of` describes.
pub fn split_lines(text: &str) -> (r: Vec<String>)
    ensures
        views_of_strings(r@) == lines_of(text@),
{
    let mut v = split_str(text, '\n');
    proof {
        lemma_split_count(text@, '\n');
        assert(views_of_strings(v@).len() == v@.len());
    }
    if text.unicode_len() > 0 && v[v.len() - 1].as_str().unicode_len() == 0 {
        proof {
            assert(views_of_strings(v@).last() == v@.last()@);
            assert(views_of_strings(v@.drop_last()) =~= views_of_strings(v@).drop_last());
        }
        let _ = v.pop();
    }
    v
}

} // verus!

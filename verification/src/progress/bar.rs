//! A progress bar: `  task 42.00 % [=====#-----] 00:03 info`.

use vstd::prelude::*;

use crate::codes::{CUR_LOAD, CUR_SAVE, ERASE_TO_END};
use crate::progress::duration::{duration_text, duration_to_string, TimeSpan};
use crate::text::{push_char, push_str};

verus! {

/// The styles of the parts of a progress bar.
pub trait BarTheme {
    spec fn reset_text(&self) -> Seq<char>;

    spec fn task_text(&self) -> Seq<char>;

    spec fn percent_text(&self) -> Seq<char>;

    spec fn start_text(&self) -> Seq<char>;

    spec fn full_text(&self) -> Seq<char>;

    spec fn thumb_text(&self) -> Seq<char>;

    spec fn empty_text(&self) -> Seq<char>;

    spec fn end_text(&self) -> Seq<char>;

    spec fn time_text(&self) -> Seq<char>;

    spec fn info_text(&self) -> Seq<char>;

    /// The default style, used after each styled part.
    fn reset(&self) -> (r: &str)
        ensures
            r@ == self.reset_text(),
    ;

    /// The style of the task name.
    fn task(&self) -> (r: &str)
        ensures
            r@ == self.task_text(),
    ;

    /// The style of the percentage.
    fn percent(&self) -> (r: &str)
        ensures
            r@ == self.percent_text(),
    ;

    /// The start of the bar.
    fn start(&self) -> (r: &str)
        ensures
            r@ == self.start_text(),
    ;

    /// One done step of the bar.
    fn full(&self) -> (r: &str)
        ensures
            r@ == self.full_text(),
    ;

    /// The thumb of the bar.
    fn thumb(&self) -> (r: &str)
        ensures
            r@ == self.thumb_text(),
    ;

    /// One remaining step of the bar.
    fn empty(&self) -> (r: &str)
        ensures
            r@ == self.empty_text(),
    ;

    /// The end of the bar.
    fn end(&self) -> (r: &str)
        ensures
            r@ == self.end_text(),
    ;

    /// The style of the time.
    fn time(&self) -> (r: &str)
        ensures
            r@ == self.time_text(),
    ;

    /// The style of the additional information.
    fn info(&self) -> (r: &str)
        ensures
            r@ == self.info_text(),
    ;
}

/// The default theme.
impl BarTheme for () {
    open spec fn reset_text(&self) -> Seq<char> {
        "\x1b[0m"@
    }

    open spec fn task_text(&self) -> Seq<char> {
        "\x1b[97m"@
    }

    open spec fn percent_text(&self) -> Seq<char> {
        "\x1b[96m"@
    }

    open spec fn start_text(&self) -> Seq<char> {
        "[\x1b[93m"@
    }

    open spec fn full_text(&self) -> Seq<char> {
        "="@
    }

    open spec fn thumb_text(&self) -> Seq<char> {
        "\x1b[97;1m#\x1b[0;90m"@
    }

    open spec fn empty_text(&self) -> Seq<char> {
        "-"@
    }

    open spec fn end_text(&self) -> Seq<char> {
        "\x1b[0m]"@
    }

    open spec fn time_text(&self) -> Seq<char> {
        "\x1b[95m"@
    }

    open spec fn info_text(&self) -> Seq<char> {
        ""@
    }

    fn reset(&self) -> (r: &str) {
        "\x1b[0m"
    }

    fn task(&self) -> (r: &str) {
        "\x1b[97m"
    }

    fn percent(&self) -> (r: &str) {
        "\x1b[96m"
    }

    fn start(&self) -> (r: &str) {
        "[\x1b[93m"
    }

    fn full(&self) -> (r: &str) {
        "="
    }

    fn thumb(&self) -> (r: &str) {
        "\x1b[97;1m#\x1b[0;90m"
    }

    fn empty(&self) -> (r: &str) {
        "-"
    }

    fn end(&self) -> (r: &str) {
        "\x1b[0m]"
    }

    fn time(&self) -> (r: &str) {
        "\x1b[95m"
    }

    fn info(&self) -> (r: &str) {
        ""
    }
}

/// `s` written `n` times.
pub open spec fn repeat(s: Seq<char>, n: nat) -> Seq<char>
    decreases n,
{
    if n == 0 {
        seq![]
    } else {
        repeat(s, (n - 1) as nat) + s
    }
}

fn push_repeat(res: &mut String, s: &str, n: usize)
    ensures
        final(res)@ == old(res)@ + repeat(s@, n as nat),
{
    let ghost start = res@;
    let mut i: usize = 0;
    while i < n
        invariant
            i <= n,
            res@ == start + repeat(s@, i as nat),
        decreases n - i,
    {
        push_str(res, s);
        assert(res@ =~= start + repeat(s@, (i + 1) as nat));
        i = i + 1;
    }
}

/// Whole milliseconds of a time span.
pub open spec fn millis(t: TimeSpan) -> int {
    t.secs * 1000 + t.nanos / 1_000_000
}

/// Where the thumb of a bar of unknown progress stands: it moves one step
/// every 100 ms, back and forth along the bar.
pub open spec fn thumb_pos(width: nat, eta: Option<TimeSpan>) -> nat {
    let ms = match eta {
        Some(t) => millis(t),
        None => 0,
    };
    let c = ((ms as usize) as nat / 100) % (2 * width);
    if c > width {
        (2 * width - c) as nat
    } else {
        c
    }
}

/// With unknown progress the thumb stays on the bar, wherever the time
/// has taken it, and it starts at the left end.
pub proof fn lemma_thumb_on_bar(width: nat, eta: Option<TimeSpan>)
    requires
        width > 0,
    ensures
        thumb_pos(width, eta) <= width,
        thumb_pos(width, None) == 0,
{
    assert(((0int as usize) as nat / 100) % (2 * width) == 0) by (nonlinear_arith)
        requires
            width > 0,
    ;
}

/// With unknown progress the thumb moves back and forth one step at a
/// time: two moments 100 ms apart put it at most one step apart.
pub proof fn lemma_thumb_moves_by_one(width: nat, t1: TimeSpan, t2: TimeSpan)
    requires
        width > 0,
        millis(t2) == millis(t1) + 100,
        millis(t2) <= usize::MAX,
    ensures
        thumb_pos(width, Some(t2)) <= thumb_pos(width, Some(t1)) + 1,
        thumb_pos(width, Some(t1)) <= thumb_pos(width, Some(t2)) + 1,
{
    let m = 2 * width;
    let n1 = (millis(t1) as usize) as nat / 100;
    let n2 = (millis(t2) as usize) as nat / 100;
    assert(n2 == n1 + 1);
    let c1 = n1 % m;
    let c2 = n2 % m;
    assert(c2 == c1 + 1 || (c1 == m - 1 && c2 == 0)) by (nonlinear_arith)
        requires
            n2 == n1 + 1,
            m > 0,
            c1 == n1 % m,
            c2 == n2 % m,
    ;
}

/// At its turning point the thumb stands at the right end of the bar.
pub proof fn lemma_thumb_reaches_end(width: nat, t: TimeSpan)
    requires
        width > 0,
        millis(t) <= usize::MAX,
        (millis(t) / 100) % (2 * width as int) == width,
    ensures
        thumb_pos(width, Some(t)) == width,
{
}

/// The task name, when there is one.
pub open spec fn task_part<T: BarTheme>(theme: T, task: Seq<char>) -> Seq<char> {
    if task.len() > 0 {
        theme.task_text() + task + theme.reset_text() + seq![' ']
    } else {
        seq![]
    }
}

/// The percentage: given as text when known, `??` otherwise.
pub open spec fn percent_part<T: BarTheme>(theme: T, done: Option<(Seq<char>, nat)>) -> Seq<char> {
    match done {
        Some((p, _)) => theme.percent_text() + p + " %"@ + theme.reset_text() + seq![' '],
        None => theme.percent_text() + "?? %"@ + theme.reset_text() + seq![' '],
    }
}

/// The bar itself between its start and its end: `cnt` full steps, the
/// thumb and the remaining steps; with unknown progress the thumb moves over
/// empty steps.
pub open spec fn track_part<T: BarTheme>(
    theme: T,
    width: nat,
    done: Option<(Seq<char>, nat)>,
    eta: Option<TimeSpan>,
) -> Seq<char> {
    match done {
        Some((_, cnt)) => repeat(theme.full_text(), cnt) + theme.thumb_text() + repeat(
            theme.empty_text(),
            (width - cnt) as nat,
        ),
        None => {
            let c = thumb_pos(width, eta);
            repeat(theme.empty_text(), c) + theme.thumb_text() + repeat(
                theme.empty_text(),
                (width - c) as nat,
            )
        },
    }
}

/// The time, when there is one.
pub open spec fn eta_part<T: BarTheme>(theme: T, eta: Option<TimeSpan>) -> Seq<char> {
    match eta {
        Some(t) => seq![' '] + theme.time_text() + duration_text(t, true) + theme.reset_text(),
        None => seq![],
    }
}

/// The additional information, when there is some.
pub open spec fn info_part<T: BarTheme>(theme: T, info: Seq<char>) -> Seq<char> {
    if info.len() > 0 {
        seq![' '] + theme.info_text() + info + theme.reset_text()
    } else {
        seq![]
    }
}

/// A whole progress bar line.
pub open spec fn bar_text<T: BarTheme>(
    theme: T,
    width: nat,
    done: Option<(Seq<char>, nat)>,
    task: Seq<char>,
    info: Seq<char>,
    eta: Option<TimeSpan>,
) -> Seq<char> {
    "  "@ + task_part(theme, task) + percent_part(theme, done) + theme.start_text() + track_part(
        theme,
        width,
        done,
        eta,
    ) + theme.end_text() + eta_part(theme, eta) + info_part(theme, info)
}

/// The known progress as seen by the specification: its text and the number
/// of full steps.
pub open spec fn done_view(done: Option<(&str, usize)>) -> Option<(Seq<char>, nat)> {
    match done {
        Some((p, c)) => Some((p@, c as nat)),
        None => None,
    }
}

/// What `format_progress` can draw: a known progress fits the bar, an
/// unknown one needs a bar of some width to move on.
pub open spec fn drawable(width: nat, done: Option<(&str, usize)>, eta: Option<TimeSpan>) -> bool {
    &&& match done {
        Some((_, cnt)) => cnt <= width,
        None => 0 < width && 2 * width <= usize::MAX,
    }
    &&& match eta {
        Some(t) => t.nanos < 1_000_000_000,
        None => true,
    }
}

fn push_track<T: BarTheme>(
    buf: &mut String,
    theme: &T,
    width: usize,
    done: Option<(&str, usize)>,
    eta: Option<TimeSpan>,
)
    requires
        drawable(width as nat, done, eta),
    ensures
        final(buf)@ == old(buf)@ + track_part(*theme, width as nat, done_view(done), eta),
{
    let ghost start = buf@;
    let empty = theme.empty();
    let thumb = theme.thumb();
    match done {
        Some((_, cnt)) => {
            let full = theme.full();
            push_repeat(buf, full, cnt);
            push_str(buf, thumb);
            push_repeat(buf, empty, width - cnt);
        },
        None => {
            let ms: u128 = match eta {
                Some(t) => t.secs as u128 * 1000 + t.nanos as u128 / 1_000_000,
                None => 0,
            };
            let w2 = width * 2;
            let mut cnt = (ms as usize) / 100 % w2;
            if cnt > width {
                cnt = w2 - cnt;
            }
            push_repeat(buf, empty, cnt);
            push_str(buf, thumb);
            push_repeat(buf, empty, width - cnt);
        },
    }
    assert(buf@ =~= start + track_part(*theme, width as nat, done_view(done), eta));
}

fn push_task_part<T: BarTheme>(buf: &mut String, theme: &T, task: &str)
    ensures
        final(buf)@ == old(buf)@ + task_part(*theme, task@),
{
    if task.unicode_len() > 0 {
        push_str(buf, theme.task());
        push_str(buf, task);
        push_str(buf, theme.reset());
        push_char(buf, ' ');
    }
    assert(final(buf)@ =~= old(buf)@ + task_part(*theme, task@));
}

fn push_percent_part<T: BarTheme>(buf: &mut String, theme: &T, done: Option<(&str, usize)>)
    ensures
        final(buf)@ == old(buf)@ + percent_part(*theme, done_view(done)),
{
    push_str(buf, theme.percent());
    match done {
        Some((p, _)) => {
            push_str(buf, p);
            push_str(buf, " %");
        },
        None => {
            push_str(buf, "?? %");
        },
    }
    push_str(buf, theme.reset());
    push_char(buf, ' ');
    assert(final(buf)@ =~= old(buf)@ + percent_part(*theme, done_view(done)));
}

fn push_eta_part<T: BarTheme>(buf: &mut String, theme: &T, eta: Option<TimeSpan>)
    requires
        match eta {
            Some(t) => t.nanos < 1_000_000_000,
            None => true,
        },
    ensures
        final(buf)@ == old(buf)@ + eta_part(*theme, eta),
{
    match eta {
        Some(t) => {
            push_char(buf, ' ');
            push_str(buf, theme.time());
            duration_to_string(t, true, buf);
            push_str(buf, theme.reset());
        },
        None => {},
    }
    assert(final(buf)@ =~= old(buf)@ + eta_part(*theme, eta));
}

fn push_info_part<T: BarTheme>(buf: &mut String, theme: &T, info: &str)
    ensures
        final(buf)@ == old(buf)@ + info_part(*theme, info@),
{
    if info.unicode_len() > 0 {
        push_char(buf, ' ');
        push_str(buf, theme.info());
        push_str(buf, info);
        push_str(buf, theme.reset());
    }
    assert(final(buf)@ =~= old(buf)@ + info_part(*theme, info@));
}

/// A customizable progress bar that draws into its own buffer.
pub struct Bar<T: BarTheme> {
    /// The number of steps of the bar.
    pub width: usize,
    /// The styles of the parts.
    pub theme: T,
    /// Whether the bar is cleared after it is shown, so that other output
    /// printed later takes its place.
    pub log: bool,
    /// The text drawn last.
    pub buf: String,
}

impl<T: BarTheme + Default> Default for Bar<T> {
    fn default() -> (b: Self)
        ensures
            b.width == 40,
            call_ensures(T::default, (), b.theme),
            b.log,
            b.buf@ == Seq::<char>::empty(),
    {
        Bar { width: 40, theme: T::default(), log: true, buf: String::new() }
    }
}

impl<T: BarTheme> Bar<T> {
    /// Appends the progress bar line: the task, the percentage, the bar, the
    /// time and the additional information.
    ///
    /// `done` holds the percentage as text (such as `42.00`) and the number of
    /// full steps; `None` means that the progress is unknown.
    pub fn format_progress(
        &mut self,
        done: Option<(&str, usize)>,
        task: &str,
        info: &str,
        eta: Option<TimeSpan>,
    )
        requires
            drawable(old(self).width as nat, done, eta),
        ensures
            final(self).buf@ == old(self).buf@ + bar_text(
                old(self).theme,
                old(self).width as nat,
                done_view(done),
                task@,
                info@,
                eta,
            ),
            final(self).width == old(self).width,
            final(self).theme == old(self).theme,
            final(self).log == old(self).log,
    {
        let ghost start = self.buf@;
        push_str(&mut self.buf, "  ");
        push_task_part(&mut self.buf, &self.theme, task);
        push_percent_part(&mut self.buf, &self.theme, done);
        push_str(&mut self.buf, self.theme.start());
        push_track(&mut self.buf, &self.theme, self.width, done, eta);
        push_str(&mut self.buf, self.theme.end());
        push_eta_part(&mut self.buf, &self.theme, eta);
        push_info_part(&mut self.buf, &self.theme, info);
        assert(self.buf@ =~= start + bar_text(
            self.theme,
            self.width as nat,
            done_view(done),
            task@,
            info@,
            eta,
        ));
    }

    /// Replaces the buffer with the frame that shows the progress: it erases
    /// to the end of the screen, saves the cursor, draws the line and puts
    /// the cursor back. Printing the frame is left to the caller.
    pub fn show_progress(
        &mut self,
        done: Option<(&str, usize)>,
        task: &str,
        info: &str,
        eta: Option<TimeSpan>,
    )
        requires
            drawable(old(self).width as nat, done, eta),
        ensures
            final(self).buf@ == ERASE_TO_END@ + CUR_SAVE@ + bar_text(
                old(self).theme,
                old(self).width as nat,
                done_view(done),
                task@,
                info@,
                eta,
            ) + CUR_LOAD@,
            final(self).width == old(self).width,
            final(self).theme == old(self).theme,
            final(self).log == old(self).log,
    {
        self.buf = String::new();
        push_str(&mut self.buf, ERASE_TO_END);
        push_str(&mut self.buf, CUR_SAVE);
        self.format_progress(done, task, info, eta);
        push_str(&mut self.buf, CUR_LOAD);
    }

    /// Replaces the buffer with the final line of a finished task: it erases
    /// to the end of the screen and draws the full bar at 100.00 % with the
    /// time it took. Printing the line is left to the caller.
    pub fn finish(&mut self, task: &str, info: &str, time: TimeSpan)
        requires
            time.nanos < 1_000_000_000,
        ensures
            final(self).buf@ == ERASE_TO_END@ + bar_text(
                old(self).theme,
                old(self).width as nat,
                Some(("100.00"@, old(self).width as nat)),
                task@,
                info@,
                Some(time),
            ),
            final(self).width == old(self).width,
            final(self).theme == old(self).theme,
            final(self).log == old(self).log,
    {
        self.buf = String::new();
        push_str(&mut self.buf, ERASE_TO_END);
        self.format_progress(Some(("100.00", self.width)), task, info, Some(time));
    }
}

} // verus!

use vstd::prelude::*;

use crate::history::History;
use crate::sample::Sample;

verus! {

/// Height, in rows, of the header region.
pub const HEADER_HEIGHT: u16 = 3;

/// Height, in rows, of the help region at the bottom of the right pane.
pub const HELP_HEIGHT: u16 = 5;

/// Share, in percent, of the body width given to the left pane; the right
/// pane's upper part is split between detail and chart in the same ratio.
pub const SPLIT_PERCENT: u16 = 50;

/// What a drawn frame shows, as plain values.
pub struct Frame {
    pub header_title: String,
    pub header_text: String,
    pub metrics_title: String,
    pub metrics_cursor: Option<usize>,
    pub detail_title: String,
    pub chart_title: String,
    pub chart: Vec<Sample>,
    pub help_title: String,
    pub help_lines: Vec<String>,
}

/// The mathematical content of a frame.
pub ghost struct FrameModel {
    pub header_title: Seq<char>,
    pub header_text: Seq<char>,
    pub metrics_title: Seq<char>,
    pub metrics_cursor: Option<usize>,
    pub detail_title: Seq<char>,
    pub chart_title: Seq<char>,
    pub chart: Seq<Sample>,
    pub help_title: Seq<char>,
    pub help_lines: Seq<Seq<char>>,
}

impl View for Frame {
    type V = FrameModel;

    open spec fn view(&self) -> FrameModel {
        FrameModel {
            header_title: self.header_title@,
            header_text: self.header_text@,
            metrics_title: self.metrics_title@,
            metrics_cursor: self.metrics_cursor,
            detail_title: self.detail_title@,
            chart_title: self.chart_title@,
            chart: self.chart@,
            help_title: self.help_title@,
            help_lines: self.help_lines@.map_values(|l: String| l@),
        }
    }
}

/// Title of the metrics table, marked while the history is frozen.
pub open spec fn metrics_title(paused: bool) -> Seq<char> {
    if paused {
        "Metrics (PAUSED)"@
    } else {
        "Metrics"@
    }
}

/// The key bindings listed in the help region.
pub open spec fn help_lines() -> Seq<Seq<char>> {
    seq![
        "Quit:           'q' key"@,
        "Pause / Resume: 'p' key"@,
        "Move:           UP / DOWN / LEFT / RIGHT keys"@,
    ]
}

/// The frame for a given header text, pause flag, history and table cursor.
pub open spec fn frame_of(
    header: Seq<char>,
    paused: bool,
    samples: Seq<Sample>,
    cursor: Option<usize>,
) -> FrameModel {
    FrameModel {
        header_title: "System Version"@,
        header_text: header,
        metrics_title: metrics_title(paused),
        metrics_cursor: cursor,
        detail_title: "Detail"@,
        chart_title: "Chart"@,
        chart: samples,
        help_title: "Help"@,
        help_lines: help_lines(),
    }
}

fn copy_samples(history: &History) -> (r: Vec<Sample>)
    ensures
        r@ == history@,
{
    let n = history.len();
    let mut out: Vec<Sample> = Vec::new();
    let mut i: usize = 0;
    while i < n
        invariant
            n == history@.len(),
            i <= n,
            out@ == history@.subrange(0, i as int),
        decreases n - i,
    {
        out.push(history.get(i));
        i = i + 1;
    }
    assert(history@.subrange(0, n as int) == history@);
    out
}

/// Draws the frame: reads the history, never changes it.
pub fn render(header: &str, paused: bool, history: &History, cursor: Option<usize>) -> (r: Frame)
    ensures
        r@ == frame_of(header@, paused, history@, cursor),
{
    let metrics = if paused {
        "Metrics (PAUSED)".to_owned()
    } else {
        "Metrics".to_owned()
    };
    let mut help: Vec<String> = Vec::new();
    help.push("Quit:           'q' key".to_owned());
    help.push("Pause / Resume: 'p' key".to_owned());
    help.push("Move:           UP / DOWN / LEFT / RIGHT keys".to_owned());
    let r = Frame {
        header_title: "System Version".to_owned(),
        header_text: header.to_owned(),
        metrics_title: metrics,
        metrics_cursor: cursor,
        detail_title: "Detail".to_owned(),
        chart_title: "Chart".to_owned(),
        chart: copy_samples(history),
        help_title: "Help".to_owned(),
        help_lines: help,
    };
    assert(r@.help_lines == help_lines());
    r
}

/// Idempotent render: two frames drawn from the same header, pause flag,
/// history and cursor are the same frame.
pub proof fn lemma_render_idempotent(
    a: FrameModel,
    b: FrameModel,
    header: Seq<char>,
    paused: bool,
    samples: Seq<Sample>,
    cursor: Option<usize>,
)
    requires
        a == frame_of(header, paused, samples, cursor),
        b == frame_of(header, paused, samples, cursor),
    ensures
        a == b,
{
}

} // verus!

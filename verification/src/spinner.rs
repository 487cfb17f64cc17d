//! The progress indicator shown while candidates are being generated: a
//! glyph that cycles through a few frames, followed by a caption.

use vstd::prelude::*;
use vstd::string::*;
use crate::view::{line_view, span_of, SpanStyle, SpanView, StyledSpan};

verus! {

/// How many frames the animation has before it starts over.
pub const SPINNER_FRAMES: usize = 6;

/// The glyph of a frame.
pub open spec fn spinner_symbol(frame: nat) -> Seq<char> {
    if frame == 0 {
        "⠷"@
    } else if frame == 1 {
        "⠯"@
    } else if frame == 2 {
        "⠟"@
    } else if frame == 3 {
        "⠻"@
    } else if frame == 4 {
        "⠽"@
    } else {
        "⠾"@
    }
}

/// The line drawn for a frame: the glyph and a space, then the caption.
pub open spec fn spinner_spans(frame: nat, caption: Seq<char>) -> Seq<SpanView> {
    seq![
        span_of(spinner_symbol(frame) + " "@, SpanStyle::SpinnerSymbol),
        span_of(caption, SpanStyle::SpinnerText),
    ]
}

/// The indicator as a mathematical value.
pub struct SpinnerView {
    pub caption: Seq<char>,
    /// The frame that the next redraw shows.
    pub frame: nat,
}

impl SpinnerView {
    /// The frame is one of the animation's frames.
    pub open spec fn wf(self) -> bool {
        self.frame < SPINNER_FRAMES
    }

    /// The indicator after one redraw: the next frame, the first after the last.
    pub open spec fn advanced(self) -> SpinnerView {
        SpinnerView { caption: self.caption, frame: (self.frame + 1) % (SPINNER_FRAMES as nat) }
    }
}

/// The animated progress indicator. It keeps a frame counter and nothing else.
#[derive(Debug, Clone)]
pub struct SpinnerWidget {
    text: &'static str,
    count: usize,
}

impl View for SpinnerWidget {
    type V = SpinnerView;

    closed spec fn view(&self) -> SpinnerView {
        SpinnerView { caption: self.text@, frame: self.count as nat }
    }
}

impl SpinnerWidget {
    /// An indicator with the given caption, at its first frame.
    pub fn new(text: &'static str) -> (spinner: Self)
        ensures
            spinner@ == (SpinnerView { caption: text@, frame: 0 }),
            spinner@.wf(),
    {
        Self { text, count: 0 }
    }

    /// Whether the frame counter is on one of the animation's frames.
    pub fn is_well_formed(&self) -> (ok: bool)
        ensures
            ok == self@.wf(),
    {
        self.count < SPINNER_FRAMES
    }

    /// The line of the current frame; the indicator then moves on to the
    /// next frame.
    pub fn render_spinner(&mut self) -> (line: Vec<StyledSpan>)
        requires
            old(self)@.wf(),
        ensures
            line_view(line@) == spinner_spans(old(self)@.frame, old(self)@.caption),
            final(self)@ == old(self)@.advanced(),
            final(self)@.wf(),
    {
        let symbol: &'static str = if self.count == 0 {
            "⠷"
        } else if self.count == 1 {
            "⠯"
        } else if self.count == 2 {
            "⠟"
        } else if self.count == 3 {
            "⠻"
        } else if self.count == 4 {
            "⠽"
        } else {
            "⠾"
        };
        let mut glyph = String::from_str(symbol);
        glyph.append(" ");
        let mut line: Vec<StyledSpan> = Vec::new();
        line.push(StyledSpan { text: glyph, style: SpanStyle::SpinnerSymbol });
        line.push(StyledSpan::new(self.text, SpanStyle::SpinnerText));
        self.count = (self.count + 1) % SPINNER_FRAMES;
        line
    }
}

} // verus!

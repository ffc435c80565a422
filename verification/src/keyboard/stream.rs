//! Typing a text report by report.

use crate::keyboard::report::ReportFrame;
use crate::keyboard::sequence::{continued, lemma_reports_unfold, reports};
use vstd::prelude::*;
use vstd::string::StringSliceAdditionalSpecFns;
use vstd::utf8::{
    encode_scalar, encode_utf8, encode_utf8_decode_utf8, encode_utf8_first_scalar,
    encode_utf8_valid_utf8, is_char_boundary,
};

verus! {

/// The number of bytes that `c` takes in UTF-8.
fn utf8_len(c: char) -> (len: usize)
    ensures
        len == encode_scalar(c as u32).len(),
{
    let code = c as u32;
    if code < 0x80 {
        1
    } else if code < 0x800 {
        2
    } else if code < 0x1_0000 {
        3
    } else {
        4
    }
}

/// Takes the first character off a text that has one.
fn split_first(text: &str) -> (parts: (char, &str))
    requires
        text@.len() > 0,
    ensures
        parts.0 == text@[0],
        parts.1@ == text@.drop_first(),
{
    let first = text.get_char(0);
    let len = utf8_len(first);
    proof {
        // The bytes of the text are those of its first character and then those
        // of the rest, so the first character ends on a boundary.
        encode_utf8_valid_utf8(text@);
        encode_utf8_first_scalar(text@);
        reveal_with_fuel(is_char_boundary, 2);
    }
    let (_, rest) = text.split_at(len);
    proof {
        assert(rest.spec_bytes() =~= encode_utf8(text@.drop_first()));
        encode_utf8_decode_utf8(rest@);
        encode_utf8_decode_utf8(text@.drop_first());
    }
    (first, rest)
}

/// Where a stream stands between two reports.
#[derive(Copy, Clone, Debug)]
enum Phase {
    /// Nothing was handed out yet.
    Start,
    /// A press was handed out; its release comes next.
    Release,
    /// A release was handed out; the next press comes next, if there is one.
    Press,
}

/// The reports that type a text, handed out one at a time and in order. The
/// stream holds what is left of the text, never the reports themselves.
#[derive(Debug)]
pub struct ReportStream<'a> {
    /// The characters that were not looked at yet.
    rest: &'a str,
    phase: Phase,
}

impl<'a> View for ReportStream<'a> {
    type V = Seq<ReportFrame>;

    /// The reports that the stream has not handed out yet.
    closed spec fn view(&self) -> Seq<ReportFrame> {
        match self.phase {
            Phase::Start => reports(self.rest@),
            Phase::Release => seq![ReportFrame::released()] + continued(self.rest@),
            Phase::Press => continued(self.rest@),
        }
    }
}

impl<'a> ReportStream<'a> {
    /// Hands out the next report, or `None` once every report was handed out.
    pub fn next_report(&mut self) -> (report: Option<ReportFrame>)
        ensures
            old(self)@.len() == 0 ==> report is None && final(self)@ == old(self)@,
            old(self)@.len() > 0 ==> report == Some(old(self)@[0]) && final(self)@ == old(
                self,
            )@.drop_first(),
    {
        if let Phase::Release = self.phase {
            self.phase = Phase::Press;
            return Some(ReportFrame::release());
        }
        while !self.rest.is_empty()
            invariant
                !(self.phase is Release),
                self@ == old(self)@,
            decreases self.rest@.len(),
        {
            proof {
                lemma_reports_unfold(self.rest@);
            }
            let (c, rest) = split_first(self.rest);
            self.rest = rest;
            if let Some(frame) = ReportFrame::for_char(c) {
                self.phase = Phase::Release;
                return Some(frame);
            }
        }
        proof {
            lemma_reports_unfold(self.rest@);
        }
        match self.phase {
            Phase::Start => {
                self.phase = Phase::Press;
                Some(ReportFrame::release())
            },
            _ => None,
        }
    }

    /// Hands out, as one vector, every report that is still to come.
    pub fn collect(self) -> (frames: Vec<ReportFrame>)
        ensures
            frames@ == self@,
    {
        let mut stream = self;
        let mut frames: Vec<ReportFrame> = Vec::new();
        loop
            invariant
                frames@ + stream@ == self@,
            ensures
                stream@.len() == 0,
            decreases stream@.len(),
        {
            match stream.next_report() {
                Some(frame) => {
                    frames.push(frame);
                },
                None => {
                    break ;
                },
            }
        }
        frames
    }
}

/// Opens the stream of the reports that type `s`: a press for each character
/// that the keyboard can type, a release between each two presses, and a release
/// at the end. Characters that the keyboard cannot type are passed over.
pub fn print_reports(s: &str) -> (stream: ReportStream<'_>)
    ensures
        stream@ == reports(s@),
{
    ReportStream { rest: s, phase: Phase::Start }
}

} // verus!

//! The reports that type a text, as a mathematical sequence, and what holds of
//! every such sequence.

use crate::keyboard::key::Key;
use crate::keyboard::report::ReportFrame;
use vstd::prelude::*;

verus! {

/// The number of characters of `text` that the keyboard can type.
pub open spec fn typed_count(text: Seq<char>) -> nat {
    text.filter(|c: char| Key::of_char(c) is Some).len()
}

/// The reports that press the keys of `text`: one for each character that the
/// keyboard can type, in the order of the text. Other characters are passed over.
pub open spec fn presses(text: Seq<char>) -> Seq<ReportFrame> {
    text.filter_map(|c: char| ReportFrame::typing(c))
}

/// `frames` with one `separator` between each two neighbours.
pub open spec fn interspersed(frames: Seq<ReportFrame>, separator: ReportFrame) -> Seq<
    ReportFrame,
> {
    Seq::new(
        if frames.len() == 0 {
            0
        } else {
            (2 * frames.len() - 1) as nat
        },
        |i: int|
            if i % 2 == 0 {
                frames[i / 2]
            } else {
                separator
            },
    )
}

/// The reports that type `text`: the presses of its characters with a release
/// between each two of them, and a release at the end.
pub open spec fn reports(text: Seq<char>) -> Seq<ReportFrame> {
    interspersed(presses(text), ReportFrame::released()).push(ReportFrame::released())
}

/// The reports that go on typing with `text` once a release was sent: those of
/// `text`, or none where `text` holds nothing that the keyboard can type.
pub open spec fn continued(text: Seq<char>) -> Seq<ReportFrame> {
    if presses(text).len() == 0 {
        Seq::empty()
    } else {
        reports(text)
    }
}

/// The presses of a text are the press of its first character, if the keyboard
/// can type it, and then the presses of the rest.
pub proof fn lemma_presses_unfold(text: Seq<char>)
    requires
        text.len() > 0,
    ensures
        presses(text) == match ReportFrame::typing(text[0]) {
            Some(frame) => seq![frame] + presses(text.drop_first()),
            None => presses(text.drop_first()),
        },
    decreases text.len(),
{
    // `filter_map` takes a sequence apart at its end: go by the text without its
    // last character.
    let rest = text.drop_first();
    if rest.len() == 0 {
        assert(text.drop_last() =~= rest);
    } else {
        lemma_presses_unfold(text.drop_last());
        assert(text.drop_last().drop_first() =~= rest.drop_last());
    }
}

/// Typing an empty text sends one release. Typing any other text starts with
/// the press of the first character and its release, where the keyboard can type
/// that character, and goes on with the rest of the text.
pub proof fn lemma_reports_unfold(text: Seq<char>)
    ensures
        text.len() == 0 ==> reports(text) == seq![ReportFrame::released()] && continued(text)
            == Seq::<ReportFrame>::empty(),
        text.len() > 0 ==> match ReportFrame::typing(text[0]) {
            Some(frame) => {
                let head = seq![frame, ReportFrame::released()];
                &&& reports(text) == head + continued(text.drop_first())
                &&& continued(text) == head + continued(text.drop_first())
            },
            None => {
                &&& reports(text) == reports(text.drop_first())
                &&& continued(text) == continued(text.drop_first())
            },
        },
{
    if text.len() > 0 {
        lemma_presses_unfold(text);
        if let Some(frame) = ReportFrame::typing(text[0]) {
            let unfolded = seq![frame, ReportFrame::released()] + continued(text.drop_first());
            assert forall|i: int| 0 <= i < unfolded.len() implies reports(text)[i]
                == unfolded[i] by {
                if i >= 2 && i % 2 == 0 {
                    assert(presses(text)[i / 2] == presses(text.drop_first())[(i - 2) / 2]);
                }
            }
        }
    }
}

/// Each press holds a key in its first slot and in no other, so it is no
/// release.
pub proof fn lemma_presses_hold_a_key(text: Seq<char>)
    ensures
        forall|i: int|
            0 <= i < presses(text).len() ==> {
                let frame = #[trigger] presses(text)[i];
                &&& frame.is_serial()
                &&& frame.keycodes[0] != 0
                &&& !frame.is_release()
            },
    decreases text.len(),
{
    if text.len() > 0 {
        let earlier = presses(text.drop_last());
        lemma_presses_hold_a_key(text.drop_last());
        assert forall|i: int| 0 <= i < presses(text).len() implies {
            let frame = #[trigger] presses(text)[i];
            &&& frame.is_serial()
            &&& frame.keycodes[0] != 0
            &&& !frame.is_release()
        } by {
            if i < earlier.len() {
                assert(presses(text)[i] == earlier[i]);
            } else {
                assert(Some(presses(text)[i]) == ReportFrame::typing(text.last()));
            }
        }
    }
}

/// A text gives as many presses as it has characters that the keyboard can type.
/// With none it gives one report; with more, two for each such character.
pub proof fn lemma_report_count(text: Seq<char>)
    ensures
        presses(text).len() == typed_count(text),
        typed_count(text) == 0 ==> reports(text).len() == 1,
        typed_count(text) > 0 ==> reports(text).len() == 2 * typed_count(text),
    decreases text.len(),
{
    reveal(Seq::filter);
    if text.len() > 0 {
        lemma_report_count(text.drop_last());
    }
}

/// Presses and releases take turns: where the keyboard can type any character of
/// the text, the presses stand at the even places, in their order, and a release
/// at each odd place and at no other. The last report is always a release.
pub proof fn lemma_reports_alternate(text: Seq<char>)
    ensures
        reports(text).last() == ReportFrame::released(),
        typed_count(text) == 0 ==> reports(text) == seq![ReportFrame::released()],
        typed_count(text) > 0 ==> forall|i: int|
            0 <= i < reports(text).len() ==> #[trigger] reports(text)[i] == if i % 2 == 0 {
                presses(text)[i / 2]
            } else {
                ReportFrame::released()
            },
        typed_count(text) > 0 ==> forall|i: int|
            0 <= i < reports(text).len() ==> ((#[trigger] reports(text)[i]).is_release() <==> i % 2
                == 1),
{
    lemma_report_count(text);
    lemma_presses_hold_a_key(text);
}

/// No two reports that each press a key stand side by side: of two neighbours
/// one is a release.
pub proof fn lemma_presses_stand_apart(text: Seq<char>)
    ensures
        forall|i: int|
            0 <= i && i + 1 < reports(text).len() ==> (#[trigger] reports(text)[i]).is_release()
                || reports(text)[i + 1].is_release(),
{
    lemma_reports_alternate(text);
}

/// Every report is one that typing character by character gives, and one that
/// is no release has a key in its first slot: that slot alone is filled.
pub proof fn lemma_press_fills_first_slot(text: Seq<char>)
    ensures
        forall|i: int|
            0 <= i < reports(text).len() ==> {
                let frame = #[trigger] reports(text)[i];
                &&& frame.is_serial()
                &&& !frame.is_release() ==> frame.keycodes[0] != 0
            },
{
    lemma_reports_alternate(text);
    lemma_presses_hold_a_key(text);
}

/// Typing is a function of the text alone: equal texts give equal reports.
pub proof fn lemma_same_text_same_reports(first: &str, second: &str)
    requires
        first@ == second@,
    ensures
        reports(first@) == reports(second@),
{
}

} // verus!

//! Bidirectional text chunks: a run segmentation computed once at
//! construction by the paragraph-level bidirectional algorithm, and a layout
//! step that places direction-consistent runs by signed advance
//! accumulation.

use vstd::prelude::*;
use crate::scalar::{Scalar, rat_add, rat_sub};

verus! {

/// Base direction of a text chunk.
#[derive(Clone, Copy, Debug, PartialEq, Eq, Structural)]
pub enum TextFlow {
    LeftToRight,
    RightToLeft,
}

/// The visual runs of the first paragraph of a text, as (embedding level,
/// start byte, end byte), in visual order. The result depends on the text
/// and the base direction alone.
pub uninterp spec fn bidi_runs(text: Seq<char>, rtl: bool) -> Seq<(u8, usize, usize)>;

/// Relies on unicode_bidi::BidiInfo::new and BidiInfo::visual_runs: the
/// visual reordering of the first paragraph under the given base level, a
/// pure function of the text; each run is a byte range with start at most
/// end.
#[verifier::external_body]
fn bidi_visual_runs(text: &str, rtl: bool) -> (r: Vec<(u8, usize, usize)>)
    requires
        text@.len() > 0,
    ensures
        r@ == bidi_runs(text@, rtl),
        forall|i: int| 0 <= i < r@.len() ==> (#[trigger] r@[i]).1 <= r@[i].2,
{
    let level = if rtl { unicode_bidi::Level::rtl() } else { unicode_bidi::Level::ltr() };
    let info = unicode_bidi::BidiInfo::new(text, Some(level));
    let para = &info.paragraphs[0];
    let (levels, runs) = info.visual_runs(para, para.range.clone());
    runs.into_iter().map(|r| (levels[r.start].number(), r.start, r.end)).collect()
}

/// The basic unit of text: its source text and its visual runs.
pub struct Chunk {
    pub text: String,
    pub runs: Vec<(u8, usize, usize)>,
}

impl Chunk {
    /// Segments a text once with the bidirectional algorithm, seeded with
    /// the chunk's base direction. An empty text has no runs.
    pub fn new(text: &str, direction: TextFlow) -> (r: Chunk)
        ensures
            r.text@ == text@,
            text@.len() > 0 ==> r.runs@ == bidi_runs(text@, direction == TextFlow::RightToLeft),
            text@.len() == 0 ==> r.runs@ == Seq::<(u8, usize, usize)>::empty(),
            forall|i: int| 0 <= i < r.runs@.len() ==> (#[trigger] r.runs@[i]).1
                <= r.runs@[i].2,
    {
        let rtl = match direction {
            TextFlow::LeftToRight => false,
            TextFlow::RightToLeft => true,
        };
        if text.unicode_len() == 0 {
            Chunk { text: text.to_owned(), runs: Vec::new() }
        } else {
            let runs = bidi_visual_runs(text, rtl);
            Chunk { text: text.to_owned(), runs }
        }
    }

    /// A chunk with caller-supplied runs, for layouts whose segmentation
    /// comes from elsewhere.
    pub fn from_runs(text: &str, runs: Vec<(u8, usize, usize)>) -> (r: Chunk)
        ensures
            r.text@ == text@,
            r.runs == runs,
    {
        Chunk { text: text.to_owned(), runs }
    }

    /// Places the runs given each run's shaped advance width: a
    /// left-to-right run starts at the cursor, which then moves forward by
    /// the advance; a right-to-left run starts one advance to the left of
    /// the cursor, which moves backward by the advance.
    pub fn layout(&self, advances: &Vec<Scalar>) -> (r: ChunkLayout)
        requires
            advances@.len() == self.runs@.len(),
            forall|i: int| 0 <= i < advances@.len() ==> (#[trigger] advances@[i]).wf(),
        ensures
            r.parts@ == spec_layout_runs(self.runs@, advances@).0,
            r.advance == spec_layout_runs(self.runs@, advances@).1,
            r.advance.wf(),
    {
        let mut parts: Vec<(usize, Scalar)> = Vec::new();
        let mut offset = Scalar::zero();
        let mut i: usize = 0;
        while i < self.runs.len()
            invariant
                i <= self.runs@.len(),
                advances@.len() == self.runs@.len(),
                forall|j: int| 0 <= j < advances@.len() ==> (#[trigger] advances@[j]).wf(),
                parts@ == spec_layout_runs(
                    self.runs@.subrange(0, i as int), advances@.subrange(0, i as int)).0,
                offset == spec_layout_runs(
                    self.runs@.subrange(0, i as int), advances@.subrange(0, i as int)).1,
                offset.wf(),
            decreases self.runs@.len() - i,
        {
            proof {
                assert(self.runs@.subrange(0, i as int + 1).drop_last()
                    =~= self.runs@.subrange(0, i as int));
                assert(advances@.subrange(0, i as int + 1).drop_last()
                    =~= advances@.subrange(0, i as int));
                assert(self.runs@.subrange(0, i as int + 1).last() == self.runs@[i as int]);
                assert(advances@.subrange(0, i as int + 1).last() == advances@[i as int]);
            }
            let run = self.runs[i];
            let adv = advances[i];
            let rtl = run.0 % 2 == 1;
            if rtl {
                let run_off = offset.sub(&adv);
                parts.push((run.1, run_off));
                offset = run_off;
            } else {
                parts.push((run.1, offset));
                offset = offset.add(&adv);
            }
            i = i + 1;
        }
        proof {
            assert(self.runs@.subrange(0, self.runs@.len() as int) =~= self.runs@);
            assert(advances@.subrange(0, advances@.len() as int) =~= advances@);
        }
        ChunkLayout { parts, advance: offset }
    }
}

/// Run placement by signed advance accumulation, and the chunk's total
/// signed advance. Each part is (starting byte offset, placed horizontal
/// offset).
pub open spec fn spec_layout_runs(
    runs: Seq<(u8, usize, usize)>,
    advances: Seq<Scalar>,
) -> (Seq<(usize, Scalar)>, Scalar)
    recommends
        runs.len() == advances.len(),
    decreases runs.len(),
{
    if runs.len() == 0 {
        (Seq::empty(), Scalar { num: 0, den: 1 })
    } else {
        let (parts, cursor) = spec_layout_runs(runs.drop_last(), advances.drop_last());
        let run = runs.last();
        let adv = advances.last();
        let rtl = run.0 % 2 == 1;
        if rtl {
            let run_off = rat_sub(cursor, adv);
            (parts.push((run.1, run_off)), run_off)
        } else {
            (parts.push((run.1, cursor)), rat_add(cursor, adv))
        }
    }
}

/// A laid-out chunk: per run its starting byte offset and placed horizontal
/// offset, plus the chunk's total signed advance.
pub struct ChunkLayout {
    pub parts: Vec<(usize, Scalar)>,
    pub advance: Scalar,
}

} // verus!

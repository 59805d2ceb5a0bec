use vstd::prelude::*;
use vstd::string::StringExecFns;

use crate::producer::ExactSizeProducer;
use crate::producer::Producer;
use crate::render::Renderer;
use crate::render::bar_field;
use crate::render::bar_text;
use crate::render::dec_rep;
use crate::render::usize_to_string;

verus! {

/// Whether the decorator knows a fixed total number of items (`Bounded`) or
/// not (`Unbounded`).
#[derive(Clone, Copy, PartialEq, Eq, Structural)]
pub enum IterType {
    Bounded(usize),
    Unbounded,
}

/// The display pair `(filled, bar width)` for a consumed count and a total:
/// a total over 50 is rescaled onto a fixed 50-cell bar by integer division;
/// otherwise the bar has one cell per element.
pub open spec fn compute_spec(iter_num: nat, total: nat) -> (nat, nat) {
    if total > 50 {
        (iter_num / (total / 50), 50 as nat)
    } else {
        (iter_num, total)
    }
}

/// The ANSI control prefix written on every fetch: clear the screen, move
/// the cursor to row 1, column 1.
pub open spec fn clear_text() -> Seq<char> {
    "\u{1b}[2J\u{1b}[1;1H"@
}

/// The text printed after the clear prefix when a fetch yields an item,
/// given the consumed count (the just-fetched item included) and the
/// length mode.
pub open spec fn progress_text(count: nat, mode: Option<IterType>) -> Seq<char> {
    match mode {
        Option::None => Seq::<char>::empty(),
        Option::Some(IterType::Unbounded) => "Iter num:"@ + dec_rep(count) + "\n"@,
        Option::Some(IterType::Bounded(total)) => "Iter num:"@ + dec_rep(count)
            + "; total_iter:"@ + dec_rep(total as nat) + ";\n progress:["@ + bar_text(
            compute_spec(count, total as nat).0,
            compute_spec(count, total as nat).1,
        ) + "]\n"@,
    }
}

/// One full frame: the clear prefix, then — only when the fetch yielded an
/// item — the progress text.
pub open spec fn frame_text(yielded: bool, count: nat, mode: Option<IterType>) -> Seq<char> {
    if yielded {
        clear_text() + progress_text(count, mode)
    } else {
        clear_text()
    }
}

/// The frames that fetching `k` items in a row renders when the count stood
/// at `count0`: one frame per item, the displayed count rising by exactly one
/// each time.
pub open spec fn drain_frames(count0: nat, k: nat, mode: Option<IterType>) -> Seq<Seq<char>> {
    Seq::new(k, |i: int| frame_text(true, (count0 + i + 1) as nat, mode))
}

/// The progress decorator: wraps a producer and yields the identical
/// sequence of items, handing one rendered frame per fetch to the renderer.
pub struct Progress<T, R> where T: Producer, R: Renderer {
    iter: T,
    comp_size: usize,
    iter_type: Option<IterType>,
    renderer: R,
}

impl<T: Producer, R: Renderer> Progress<T, R> {
    /// The items the decorated traversal has yet to yield.
    pub closed spec fn remaining(&self) -> Seq<T::Item> {
        self.iter.remaining()
    }

    /// The number of items fetched through the decorator so far.
    pub closed spec fn count(&self) -> nat {
        self.comp_size as nat
    }

    /// The length mode: `Unbounded` until `bounded` captures a total.
    pub closed spec fn mode(&self) -> Option<IterType> {
        self.iter_type
    }

    /// The frames handed to the renderer so far, oldest first.
    pub closed spec fn frames(&self) -> Seq<Seq<char>> {
        self.renderer.frames()
    }

    /// The consumed count can still grow by one per remaining item without
    /// overflowing its counter.
    pub closed spec fn wf(&self) -> bool {
        self.comp_size + self.remaining().len() <= usize::MAX
    }

    /// Wraps a producer. The count starts at zero and the length mode at
    /// `Unbounded`.
    pub fn new(iter: T, renderer: R) -> (p: Progress<T, R>)
        requires
            iter.remaining().len() <= usize::MAX,
        ensures
            p.remaining() == iter.remaining(),
            p.count() == 0,
            p.mode() == Some(IterType::Unbounded),
            p.frames() == renderer.frames(),
            p.wf(),
    {
        Progress { iter, comp_size: 0, iter_type: Some(IterType::Unbounded), renderer }
    }

    /// The display pair for a consumed count and a total: over 50, the count
    /// is rescaled onto a fixed 50-cell bar by integer division; otherwise
    /// the pair is the count and the total unchanged.
    pub fn compute(iter_num: usize, total: usize) -> (r: (usize, usize))
        ensures
            (r.0 as nat, r.1 as nat) == compute_spec(iter_num as nat, total as nat),
            total > 50 ==> r.0 == iter_num as nat / (total as nat / 50) && r.1 == 50,
            total <= 50 ==> r == (iter_num, total),
    {
        if total > 50 {
            proof {
                vstd::arithmetic::div_mod::lemma_div_is_ordered(50, total as int, 50);
            }
            (iter_num / (total / 50), 50)
        } else {
            (iter_num, total)
        }
    }

    /// Builds the frame for a fetch that yielded an item: the clear prefix,
    /// then the count line — and, in bounded mode, the total and the bar.
    pub fn render_frame(count: usize, mode: &Option<IterType>) -> (r: String)
        ensures
            r@ == frame_text(true, count as nat, *mode),
    {
        let mut r = String::from_str("\u{1b}[2J\u{1b}[1;1H");
        match mode {
            Option::None => {
                proof {
                    assert(r@ =~= frame_text(true, count as nat, *mode));
                }
            },
            Option::Some(IterType::Unbounded) => {
                r.append("Iter num:");
                let c = usize_to_string(count);
                r.append(c.as_str());
                r.append("\n");
                proof {
                    assert(r@ =~= frame_text(true, count as nat, *mode));
                }
            },
            Option::Some(IterType::Bounded(total)) => {
                let pair = Self::compute(count, *total);
                r.append("Iter num:");
                let c = usize_to_string(count);
                r.append(c.as_str());
                r.append("; total_iter:");
                let t = usize_to_string(*total);
                r.append(t.as_str());
                r.append(";\n progress:[");
                let bar = bar_field(pair.0, pair.1);
                r.append(bar.as_str());
                r.append("]\n");
                proof {
                    assert(r@ =~= frame_text(true, count as nat, *mode));
                }
            },
        }
        r
    }

    /// Fetches the next item. The fetch first repaints (one frame is handed
    /// to the renderer, clear prefix included, on every fetch); an item, if
    /// yielded, passes through unchanged and raises the count by one; once
    /// the producer is exhausted every further fetch yields `None`, leaves
    /// the count unchanged, and renders the clear prefix alone.
    pub fn next(&mut self) -> (r: Option<T::Item>)
        requires
            old(self).wf(),
        ensures
            final(self).wf(),
            final(self).mode() == old(self).mode(),
            old(self).remaining().len() == 0 ==> ({
                &&& r is None
                &&& final(self).remaining() == old(self).remaining()
                &&& final(self).count() == old(self).count()
                &&& final(self).frames() == old(self).frames().push(
                    frame_text(false, old(self).count(), old(self).mode()),
                )
            }),
            old(self).remaining().len() > 0 ==> ({
                &&& r == Some(old(self).remaining()[0])
                &&& final(self).remaining() == old(self).remaining().skip(1)
                &&& final(self).count() == old(self).count() + 1
                &&& final(self).frames() == old(self).frames().push(
                    frame_text(true, old(self).count() + 1, old(self).mode()),
                )
            }),
    {
        let item = self.iter.next();
        match &item {
            Option::Some(_) => {
                self.comp_size = self.comp_size + 1;
                let frame = Self::render_frame(self.comp_size, &self.iter_type);
                self.renderer.render(frame.as_str());
            },
            Option::None => {
                self.renderer.render("\u{1b}[2J\u{1b}[1;1H");
                proof {
                    assert("\u{1b}[2J\u{1b}[1;1H"@ =~= frame_text(
                        false,
                        old(self).count(),
                        old(self).mode(),
                    ));
                }
            },
        }
        item
    }

    /// The consumed count.
    pub fn consumed(&self) -> (c: usize)
        ensures
            c == self.count(),
    {
        self.comp_size
    }

    /// The renderer, for inspecting what has been rendered.
    pub fn renderer_ref(&self) -> (r: &R)
        ensures
            r.frames() == self.frames(),
    {
        &self.renderer
    }

    /// The length mode.
    pub fn length_mode(&self) -> (m: Option<IterType>)
        ensures
            m == self.mode(),
    {
        self.iter_type
    }

    /// Drains the decorator. The items come back exactly as the wrapped
    /// producer held them — the decorator never adds, drops, reorders, or
    /// duplicates items — the count grows by one per item, and the rendered
    /// history grows by one frame per item (each showing the count risen by
    /// one) plus the bare clear prefix for the fetch that found the producer
    /// exhausted.
    pub fn collect_remaining(&mut self) -> (v: Vec<T::Item>)
        requires
            old(self).wf(),
        ensures
            v@ == old(self).remaining(),
            final(self).remaining().len() == 0,
            final(self).count() == old(self).count() + old(self).remaining().len(),
            final(self).mode() == old(self).mode(),
            final(self).wf(),
            final(self).frames() == (old(self).frames() + drain_frames(
                old(self).count(),
                old(self).remaining().len(),
                old(self).mode(),
            )).push(clear_text()),
    {
        let ghost init = *self;
        let mut v: Vec<T::Item> = Vec::new();
        let mut done = false;
        proof {
            assert(v@ + self.remaining() =~= init.remaining());
            assert(self.frames() =~= init.frames() + drain_frames(
                init.count(),
                v@.len(),
                init.mode(),
            ));
        }
        while !done
            invariant
                self.wf(),
                self.mode() == init.mode(),
                self.count() == init.count() + v@.len(),
                v@ + self.remaining() == init.remaining(),
                done ==> self.remaining().len() == 0,
                !done ==> self.frames() == init.frames() + drain_frames(
                    init.count(),
                    v@.len(),
                    init.mode(),
                ),
                done ==> self.frames() == (init.frames() + drain_frames(
                    init.count(),
                    v@.len(),
                    init.mode(),
                )).push(clear_text()),
            decreases self.remaining().len() + (if done { 0 as int } else { 1 }),
        {
            match self.next() {
                Option::Some(x) => {
                    v.push(x);
                    proof {
                        assert(v@ + self.remaining() =~= init.remaining());
                        assert(self.frames() =~= init.frames() + drain_frames(
                            init.count(),
                            v@.len(),
                            init.mode(),
                        ));
                    }
                },
                Option::None => {
                    done = true;
                },
            }
        }
        proof {
            assert(v@ =~= init.remaining());
        }
        v
    }
}

impl<T: ExactSizeProducer, R: Renderer> Progress<T, R> {
    /// Captures the producer's remaining length, at this moment, as the
    /// fixed total. Called before the first fetch this is the producer's
    /// full length; called mid-traversal it captures only what remains.
    pub fn bounded(self) -> (p: Progress<T, R>)
        ensures
            p.remaining() == self.remaining(),
            p.count() == self.count(),
            p.frames() == self.frames(),
            p.wf() == self.wf(),
            p.mode() == Some(IterType::Bounded(self.remaining().len() as usize)),
    {
        let Progress { iter, comp_size, iter_type: _, renderer } = self;
        let n = iter.len();
        Progress { iter, comp_size, iter_type: Some(IterType::Bounded(n)), renderer }
    }
}

/// Wrapping: any producer becomes a progress-displaying producer, with the
/// count at zero and no total captured.
pub trait ProgressDisplay<R>: Producer + Sized where R: Renderer {
    fn with_progress(self, renderer: R) -> (p: Progress<Self, R>)
        requires
            self.remaining().len() <= usize::MAX,
        ensures
            p.remaining() == self.remaining(),
            p.count() == 0,
            p.mode() == Some(IterType::Unbounded),
            p.frames() == renderer.frames(),
            p.wf(),
    ;
}

impl<T: Producer, R: Renderer> ProgressDisplay<R> for T {
    fn with_progress(self, renderer: R) -> (p: Progress<T, R>) {
        Progress::new(self, renderer)
    }
}

/// Marking a total: only a decorator over a producer that reports its exact
/// remaining length can be marked bounded; for any other producer the
/// operation does not exist.
pub trait Bounded<T> where T: ExactSizeProducer {
    fn bounded(self) -> Self;
}

impl<T: ExactSizeProducer, R: Renderer> Bounded<T> for Progress<T, R> {
    fn bounded(self) -> Self {
        Progress::bounded(self)
    }
}

/// With a total of at most 50 cells, the display pair is the count and the
/// total unchanged: one bar cell per element.
pub proof fn lemma_compute_small(count: nat, total: nat)
    requires
        total <= 50,
    ensures
        compute_spec(count, total) == (count, total),
{
}

/// With a total over 50 cells, the display pair rescales the count onto a
/// fixed 50-cell bar by integer division.
pub proof fn lemma_compute_large(count: nat, total: nat)
    requires
        total > 50,
    ensures
        compute_spec(count, total) == (count / (total / 50), 50 as nat),
{
}

/// As long as the filled cells fit, the bar field is exactly as wide as the
/// bar width of the display pair.
pub proof fn lemma_bar_width(filled: nat, width: nat)
    requires
        filled <= width,
    ensures
        bar_text(filled, width).len() == width,
{
}

/// In bounded mode with a total of at most 50, a count within the total
/// fills exactly `count` cells of a field exactly `total` cells wide.
pub proof fn lemma_small_total_bar(count: nat, total: nat)
    requires
        count <= total,
        total <= 50,
    ensures
        compute_spec(count, total).0 == count,
        bar_text(compute_spec(count, total).0, compute_spec(count, total).1).len() == total,
{
}

} // verus!

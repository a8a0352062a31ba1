//! The cancellable, progress-reporting iteration over a window of pages for
//! image rendering. The library decides each step and accumulates the
//! base64-encoded payloads; the caller performs the rendering and the
//! notification delivery between steps.

use vstd::prelude::*;
use crate::range::Window;

verus! {

/// The standard (RFC 4648, padded) base64 rendering of a byte string. A pure
/// function of the bytes.
pub uninterp spec fn base64_standard(data: Seq<u8>) -> Seq<char>;

/// Relies on base64's `STANDARD` engine: the padded base64 text of the
/// bytes, four characters for every started group of three bytes. The length
/// bound on the input keeps the engine's output-size computation from
/// overflowing.
#[verifier::external_body]
fn base64_encode(data: &Vec<u8>) -> (r: String)
    requires
        data@.len() <= usize::MAX / 4,
    ensures
        r@ == base64_standard(data@),
        r@.len() == 4 * ((data@.len() + 2) / 3),
{
    base64::Engine::encode(&base64::engine::general_purpose::STANDARD, data.as_slice())
}

/// What the caller is to do next with an iteration.
pub enum IterStep {
    /// Report `progress` of `total` if progress was requested, then render
    /// the page at `page_index` and hand the bytes back.
    Render { page_index: usize, progress: usize, total: usize },
    /// Report the final `progress` (equal to `total`) if progress was
    /// requested; the iteration is over.
    Finish { progress: usize, total: usize },
}

/// A windowed iteration over pages: strictly ascending, cancellable at every
/// page boundary, accumulating one base64 payload per rendered page.
pub struct PageIteration {
    window: Window,
    next: usize,
    images: Vec<String>,
}

impl PageIteration {
    /// The window the iteration runs over.
    pub closed spec fn spec_window(self) -> Window {
        self.window
    }

    /// The next page index to render.
    pub closed spec fn spec_next(self) -> usize {
        self.next
    }

    /// The payloads emitted so far.
    pub closed spec fn images_view(self) -> Seq<Seq<char>> {
        self.images.deep_view()
    }

    /// The iteration stays inside its window and holds one payload per
    /// emitted page.
    pub open spec fn wf(self) -> bool {
        &&& self.spec_window().start <= self.spec_next() <= self.spec_window().end
        &&& self.images_view().len() == self.spec_next() - self.spec_window().start
    }

    /// Start an iteration over a window.
    pub fn begin(w: Window) -> (it: PageIteration)
        requires
            w.start <= w.end,
        ensures
            it.wf(),
            it.spec_window() == w,
            it.spec_next() == w.start,
            it.images_view() =~= Seq::<Seq<char>>::empty(),
    {
        PageIteration { window: w, next: w.start, images: Vec::new() }
    }

    /// How many payloads have been emitted.
    pub fn emitted(&self) -> (n: usize)
        requires
            self.wf(),
        ensures
            n == self.images_view().len(),
    {
        self.images.len()
    }

    /// Decide the next step. The cancellation signal is polled at each page
    /// boundary: once it is set the iteration finishes with whatever has
    /// been produced, never with an error. The final progress report always
    /// carries the full window length.
    pub fn next_step(&self, cancelled: bool) -> (s: IterStep)
        requires
            self.wf(),
        ensures
            s == if !cancelled && self.spec_next() < self.spec_window().end {
                (IterStep::Render {
                    page_index: self.spec_next(),
                    progress: (self.spec_next() - self.spec_window().start) as usize,
                    total: (self.spec_window().end - self.spec_window().start) as usize,
                })
            } else {
                (IterStep::Finish {
                    progress: (self.spec_window().end - self.spec_window().start) as usize,
                    total: (self.spec_window().end - self.spec_window().start) as usize,
                })
            },
    {
        let total = self.window.end - self.window.start;
        if !cancelled && self.next < self.window.end {
            IterStep::Render {
                page_index: self.next,
                progress: self.next - self.window.start,
                total,
            }
        } else {
            IterStep::Finish { progress: total, total }
        }
    }

    /// Accept the rendered page the last `Render` step asked for: encode it
    /// as base64 and append it to the payloads. The length bound keeps the
    /// base64 engine from overflowing its output-size computation.
    pub fn push_rendered(&mut self, png: Vec<u8>)
        requires
            old(self).wf(),
            old(self).spec_next() < old(self).spec_window().end,
            png@.len() <= usize::MAX / 4,
        ensures
            final(self).wf(),
            final(self).spec_window() == old(self).spec_window(),
            final(self).spec_next() == old(self).spec_next() + 1,
            final(self).images_view() == old(self).images_view().push(base64_standard(png@)),
    {
        let payload = base64_encode(&png);
        self.images.push(payload);
        self.next = self.next + 1;
        proof {
            assert(self.images.deep_view() =~= old(self).images.deep_view().push(
                base64_standard(png@),
            ));
        }
    }

    /// Hand out the accumulated payloads, in page order.
    pub fn into_images(self) -> (r: Vec<String>)
        ensures
            r.deep_view() == self.images_view(),
    {
        self.images
    }
}

} // verus!

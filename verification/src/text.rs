//! The verified windowing and joining of extracted page texts with the
//! form-feed separator. The per-page extraction itself runs outside the
//! library: its engine can abort on malformed documents, so the shell runs it
//! on a worker and hands the page texts in as plain values.

use vstd::prelude::*;
use crate::range::Window;
use crate::range::normalize_range;
use crate::range::window_end;
use crate::range::window_start;

verus! {

/// Page texts joined with a single form-feed (U+000C) between consecutive
/// pages.
pub open spec fn joined_pages(pages: Seq<Seq<char>>) -> Seq<char>
    decreases pages.len(),
{
    if pages.len() == 0 {
        Seq::empty()
    } else if pages.len() == 1 {
        pages[0]
    } else {
        pages[0] + seq!['\u{c}'] + joined_pages(pages.drop_first())
    }
}

proof fn lemma_joined_pages_snoc(pages: Seq<Seq<char>>, x: Seq<char>)
    ensures
        joined_pages(pages.push(x)) == if pages.len() == 0 {
            x
        } else {
            joined_pages(pages) + seq!['\u{c}'] + x
        },
    decreases pages.len(),
{
    if pages.len() == 0 {
        assert(joined_pages(pages.push(x)) =~= x);
    } else {
        assert(pages.push(x).drop_first() =~= pages.drop_first().push(x));
        lemma_joined_pages_snoc(pages.drop_first(), x);
        if pages.len() == 1 {
            assert(pages.drop_first().len() == 0);
            assert(joined_pages(pages.push(x)) =~= joined_pages(pages) + seq!['\u{c}'] + x);
        } else {
            assert(joined_pages(pages.push(x)) =~= joined_pages(pages) + seq!['\u{c}'] + x);
        }
    }
}

/// Join the pages selected by `w`, separated by form feeds.
pub fn join_page_window(pages: &Vec<String>, w: Window) -> (r: String)
    requires
        w.wf(pages@.len()),
    ensures
        r@ == joined_pages(pages.deep_view().subrange(w.start as int, w.end as int)),
{
    let ghost view = pages.deep_view();
    let mut out = String::new();
    proof {
        assert(view.subrange(w.start as int, w.start as int) =~= Seq::<Seq<char>>::empty());
        assert(out@ =~= joined_pages(view.subrange(w.start as int, w.start as int)));
    }
    let mut i: usize = w.start;
    while i < w.end
        invariant
            w.start <= i <= w.end <= pages@.len(),
            view == pages.deep_view(),
            out@ == joined_pages(view.subrange(w.start as int, i as int)),
        decreases w.end - i,
    {
        if i > w.start {
            crate::strfmt::push_char(&mut out, '\u{c}');
        }
        out.append(pages[i].as_str());
        proof {
            assert(pages[i as int]@ == view[i as int]);
            assert(view.subrange(w.start as int, i + 1) =~= view.subrange(
                w.start as int,
                i as int,
            ).push(view[i as int]));
            lemma_joined_pages_snoc(view.subrange(w.start as int, i as int), view[i as int]);
            assert(out@ =~= joined_pages(view.subrange(w.start as int, i + 1)));
        }
        i += 1;
    }
    out
}

/// The text selected from extracted pages by optional 1-based inclusive
/// bounds.
pub open spec fn text_window_view(
    pages: Seq<Seq<char>>,
    from_page: usize,
    to_page: Option<usize>,
) -> Seq<char> {
    let total = pages.len() as usize;
    let start = window_start(from_page, total);
    let end = window_end(start, to_page, total);
    joined_pages(pages.subrange(start as int, end as int))
}

/// Select a 1-based inclusive page range from extracted page texts and join
/// it with form-feed separators. Out-of-range bounds clamp rather than fail.
pub fn page_text_window(pages: &Vec<String>, from_page: usize, to_page: Option<usize>) -> (r:
    String)
    ensures
        r@ == text_window_view(pages.deep_view(), from_page, to_page),
{
    let total = pages.len();
    let w = normalize_range(from_page, to_page, total);
    join_page_window(pages, w)
}

} // verus!

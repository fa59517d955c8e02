//! The preview of a compiled document: which pages are in view, when they
//! are rendered anew, and the cache of rendered pages.
//!
//! Lengths are whole numbers of thousandths of a point, the zoom is a whole
//! number of percent. Positions on the scrolled column are compared a
//! hundredfold, so that a height times a zoom needs no division.

use crate::world::copy_bytes;
use vstd::prelude::*;

verus! {

/// The room between two pages, and above the first.
pub const SPACING_BETWEEN_PAGES: u64 = 15_000;

/// How far the view has to move before the pages are looked at again.
pub const SCROLL_RELOAD_DELAY: u64 = 50_000;

/// The height of the view before anything is known of it.
pub const DEFAULT_VIEWPORT_H: u64 = 1_500_000;

/// The zoom of a fresh preview.
pub const DEFAULT_ZOOM: u16 = 100;

/// The smallest zoom.
pub const MIN_ZOOM: u16 = 10;

/// The largest zoom.
pub const MAX_ZOOM: u16 = 300;

/// From this zoom on, zooming in does nothing.
pub const ZOOM_IN_LIMIT: u16 = 250;

/// How much one step changes the zoom.
pub const ZOOM_STEP: u16 = 15;

/// The size of a page. Neither side is zero.
#[derive(Clone, Copy, Debug, PartialEq, Eq)]
pub struct PageSize {
    width: u32,
    height: u32,
}

impl PageSize {
    #[verifier::type_invariant]
    spec fn sides_positive(self) -> bool {
        self.width > 0 && self.height > 0
    }

    /// The width of the page.
    pub closed spec fn spec_width(self) -> u32 {
        self.width
    }

    /// The height of the page.
    pub closed spec fn spec_height(self) -> u32 {
        self.height
    }

    /// A page of the given size; none where a side is zero.
    pub fn new(width: u32, height: u32) -> (size: Option<PageSize>)
        ensures
            size is Some <==> width > 0 && height > 0,
            size matches Some(s) ==> s.spec_width() == width && s.spec_height() == height,
    {
        if width > 0 && height > 0 {
            Some(PageSize { width, height })
        } else {
            None
        }
    }

    /// The width of the page, which is not zero.
    pub fn width(&self) -> (width: u32)
        ensures
            width == self.spec_width(),
            width > 0,
    {
        proof {
            use_type_invariant(self);
        }
        self.width
    }

    /// The height of the page, which is not zero.
    pub fn height(&self) -> (height: u32)
        ensures
            height == self.spec_height(),
            height > 0,
    {
        proof {
            use_type_invariant(self);
        }
        self.height
    }
}

/// Where page `i` begins on the column, a hundredfold: below the spacing
/// that follows the page before it.
pub open spec fn page_begin(document: Seq<PageSize>, zoom: int, i: int) -> int
    decreases i,
{
    if i <= 0 {
        100 * SPACING_BETWEEN_PAGES
    } else {
        page_begin(document, zoom, i - 1) + document[i - 1].spec_height() * zoom + 100
            * SPACING_BETWEEN_PAGES
    }
}

/// Where page `i` ends on the column, a hundredfold.
pub open spec fn page_end(document: Seq<PageSize>, zoom: int, i: int) -> int {
    page_begin(document, zoom, i) + document[i].spec_height() * zoom
}

/// Whether page `i` meets the view that starts at `offset` and is
/// `viewport_h` high.
pub open spec fn in_view(
    document: Seq<PageSize>,
    zoom: int,
    offset: int,
    viewport_h: int,
    i: int,
) -> bool {
    &&& page_end(document, zoom, i) >= 100 * offset
    &&& page_begin(document, zoom, i) < 100 * (offset + viewport_h)
}

/// How many of the first `n` pages end above `offset`.
pub open spec fn pages_above(document: Seq<PageSize>, zoom: int, offset: int, n: int) -> int
    decreases n,
{
    if n <= 0 {
        0
    } else {
        pages_above(document, zoom, offset, n - 1) + if page_end(document, zoom, n - 1) < 100
            * offset {
            1int
        } else {
            0int
        }
    }
}

/// How many of the first `n` pages begin above `limit`.
pub open spec fn pages_begun(document: Seq<PageSize>, zoom: int, limit: int, n: int) -> int
    decreases n,
{
    if n <= 0 {
        0
    } else {
        pages_begun(document, zoom, limit, n - 1) + if page_begin(document, zoom, n - 1) < 100
            * limit {
            1int
        } else {
            0int
        }
    }
}

/// The first page that does not end above `offset`; the number of pages
/// where all do.
pub open spec fn first_index(document: Seq<PageSize>, zoom: int, offset: int) -> int {
    pages_above(document, zoom, offset, document.len() as int)
}

/// The pages in view, from the first to the last; none where no page meets
/// the view.
pub open spec fn visible_range(
    document: Seq<PageSize>,
    zoom: int,
    offset: int,
    viewport_h: int,
) -> Option<(usize, usize)> {
    let first = first_index(document, zoom, offset);
    let until = pages_begun(document, zoom, offset + viewport_h, document.len() as int);
    if first < until {
        Some((first as usize, (until - 1) as usize))
    } else {
        None
    }
}

/// Whether `i` lies in the range.
pub open spec fn in_range(range: Option<(usize, usize)>, i: int) -> bool {
    match range {
        Some((first, last)) => first <= i <= last,
        None => false,
    }
}

/// A height times a zoom is not negative.
proof fn lemma_extent(height: int, zoom: int)
    requires
        0 <= height,
        0 <= zoom,
    ensures
        0 <= height * zoom,
{
    assert(0 <= height * zoom) by (nonlinear_arith)
        requires
            0 <= height,
            0 <= zoom,
    ;
}

/// Pages follow one another down the column: a later page begins below the
/// end of an earlier one.
pub proof fn lemma_pages_in_order(document: Seq<PageSize>, zoom: int, i: int, j: int)
    requires
        0 <= zoom,
        0 <= i < j,
    ensures
        page_end(document, zoom, i) < page_begin(document, zoom, j),
        page_begin(document, zoom, i) <= page_end(document, zoom, i),
        page_begin(document, zoom, i) < page_begin(document, zoom, j),
        page_end(document, zoom, i) < page_end(document, zoom, j),
    decreases j,
{
    lemma_extent(document[i].spec_height() as int, zoom);
    lemma_extent(document[j].spec_height() as int, zoom);
    lemma_extent(document[j - 1].spec_height() as int, zoom);
    if i < j - 1 {
        lemma_pages_in_order(document, zoom, i, j - 1);
    }
}

/// The pages that end above an offset are the first ones, as many as
/// `pages_above` counts.
pub proof fn lemma_pages_above(document: Seq<PageSize>, zoom: int, offset: int, n: int)
    requires
        0 <= zoom,
        0 <= n,
    ensures
        0 <= pages_above(document, zoom, offset, n) <= n,
        forall|i: int|
            0 <= i < n ==> (#[trigger] page_end(document, zoom, i) < 100 * offset <==> i
                < pages_above(document, zoom, offset, n)),
    decreases n,
{
    if n > 0 {
        lemma_pages_above(document, zoom, offset, n - 1);
        if page_end(document, zoom, n - 1) < 100 * offset {
            assert forall|i: int| 0 <= i < n - 1 implies #[trigger] page_end(document, zoom, i)
                < 100 * offset by {
                lemma_pages_in_order(document, zoom, i, n - 1);
            }
            if n - 1 > 0 {
                assert(page_end(document, zoom, n - 2) < 100 * offset);
            }
        }
    }
}

/// The pages that begin above a limit are the first ones, as many as
/// `pages_begun` counts.
pub proof fn lemma_pages_begun(document: Seq<PageSize>, zoom: int, limit: int, n: int)
    requires
        0 <= zoom,
        0 <= n,
    ensures
        0 <= pages_begun(document, zoom, limit, n) <= n,
        forall|i: int|
            0 <= i < n ==> (#[trigger] page_begin(document, zoom, i) < 100 * limit <==> i
                < pages_begun(document, zoom, limit, n)),
    decreases n,
{
    if n > 0 {
        lemma_pages_begun(document, zoom, limit, n - 1);
        if page_begin(document, zoom, n - 1) < 100 * limit {
            assert forall|i: int| 0 <= i < n - 1 implies #[trigger] page_begin(document, zoom, i)
                < 100 * limit by {
                lemma_pages_in_order(document, zoom, i, n - 1);
            }
            if n - 1 > 0 {
                assert(page_begin(document, zoom, n - 2) < 100 * limit);
            }
        }
    }
}

/// The visible range holds exactly the pages that meet the view: where it is
/// a range, the pages from its first to its last are in view and no other
/// is; where it is none, no page is in view.
pub proof fn lemma_visible_range(
    document: Seq<PageSize>,
    zoom: int,
    offset: int,
    viewport_h: int,
)
    requires
        0 <= zoom,
        document.len() <= usize::MAX,
    ensures
        match visible_range(document, zoom, offset, viewport_h) {
            Some((first, last)) => first <= last < document.len() && forall|i: int|
                0 <= i < document.len() ==> (#[trigger] in_view(
                    document,
                    zoom,
                    offset,
                    viewport_h,
                    i,
                ) <==> first <= i <= last),
            None => forall|i: int|
                0 <= i < document.len() ==> !#[trigger] in_view(
                    document,
                    zoom,
                    offset,
                    viewport_h,
                    i,
                ),
        },
{
    let n = document.len() as int;
    lemma_pages_above(document, zoom, offset, n);
    lemma_pages_begun(document, zoom, offset + viewport_h, n);
    let first = first_index(document, zoom, offset);
    let until = pages_begun(document, zoom, offset + viewport_h, n);
    assert forall|i: int| 0 <= i < n implies (#[trigger] in_view(
        document,
        zoom,
        offset,
        viewport_h,
        i,
    ) <==> first <= i < until) by {
        assert(page_end(document, zoom, i) < 100 * offset <==> i < first);
        assert(page_begin(document, zoom, i) < 100 * (offset + viewport_h) <==> i < until);
    }
}

/// Scrolling down never brings the first page of the range up: with the
/// zoom held, a larger offset has no smaller first index.
pub proof fn lemma_first_index_monotone(
    document: Seq<PageSize>,
    zoom: int,
    offset: int,
    further: int,
)
    requires
        offset <= further,
    ensures
        first_index(document, zoom, offset) <= first_index(document, zoom, further),
{
    lemma_pages_above_monotone(document, zoom, offset, further, document.len() as int);
}

proof fn lemma_pages_above_monotone(
    document: Seq<PageSize>,
    zoom: int,
    offset: int,
    further: int,
    n: int,
)
    requires
        offset <= further,
    ensures
        pages_above(document, zoom, offset, n) <= pages_above(document, zoom, further, n),
    decreases n,
{
    if n > 0 {
        lemma_pages_above_monotone(document, zoom, offset, further, n - 1);
    }
}

/// Where both views show a page, the first page shown after scrolling down
/// is no earlier than the first page shown before.
pub proof fn lemma_range_monotone(
    document: Seq<PageSize>,
    zoom: int,
    offset: int,
    further: int,
    viewport_h: int,
)
    requires
        0 <= zoom,
        document.len() <= usize::MAX,
        offset <= further,
    ensures
        visible_range(document, zoom, offset, viewport_h) is Some && visible_range(
            document,
            zoom,
            further,
            viewport_h,
        ) is Some ==> visible_range(document, zoom, offset, viewport_h).unwrap().0
            <= visible_range(document, zoom, further, viewport_h).unwrap().0,
{
    lemma_first_index_monotone(document, zoom, offset, further);
    lemma_pages_above(document, zoom, offset, document.len() as int);
    lemma_pages_above(document, zoom, further, document.len() as int);
}

/// A document without pages has no page in view.
pub proof fn lemma_empty_document(zoom: int, offset: int, viewport_h: int)
    ensures
        visible_range(Seq::<PageSize>::empty(), zoom, offset, viewport_h) is None,
{
}

/// One page of the cache: its size, and its picture where it was rendered.
#[derive(Debug, PartialEq, Eq)]
pub struct PagePreview {
    bytes: Option<Vec<u8>>,
    height: u32,
    width: u32,
}

/// What a cached page is.
pub struct PageView {
    pub bytes: Option<Seq<u8>>,
    pub height: u32,
    pub width: u32,
}

impl View for PagePreview {
    type V = PageView;

    closed spec fn view(&self) -> PageView {
        PageView {
            bytes: match self.bytes {
                Some(bytes) => Some(bytes@),
                None => None,
            },
            height: self.height,
            width: self.width,
        }
    }
}

/// The view of a picture that may be missing.
pub open spec fn image_view(image: Option<Vec<u8>>) -> Option<Seq<u8>> {
    match image {
        Some(bytes) => Some(bytes@),
        None => None,
    }
}

impl PagePreview {
    #[verifier::type_invariant]
    spec fn sides_positive(self) -> bool {
        self.width > 0 && self.height > 0
    }

    /// A page that is not rendered: its size and nothing else.
    pub fn empty(page: &PageSize) -> (preview: PagePreview)
        ensures
            preview@ == (PageView {
                bytes: None,
                height: page.spec_height(),
                width: page.spec_width(),
            }),
    {
        Self { bytes: None, height: page.height(), width: page.width() }
    }

    /// A page with the picture that rendering gave; where rendering failed
    /// the page keeps its size and has no picture.
    pub fn fetch(page: &PageSize, image: Option<Vec<u8>>) -> (preview: PagePreview)
        ensures
            preview@ == (PageView {
                bytes: image_view(image),
                height: page.spec_height(),
                width: page.spec_width(),
            }),
    {
        Self { bytes: image, height: page.height(), width: page.width() }
    }

    /// The picture of the page, if it was rendered.
    pub fn bytes(&self) -> (bytes: Option<&Vec<u8>>)
        ensures
            image_view_ref(bytes) == self@.bytes,
    {
        match &self.bytes {
            Some(bytes) => Some(bytes),
            None => None,
        }
    }

    /// The height of the page, which is not zero.
    pub fn height(&self) -> (height: u32)
        ensures
            height == self@.height,
            height > 0,
    {
        proof {
            use_type_invariant(self);
        }
        self.height
    }

    /// The width of the page, which is not zero.
    pub fn width(&self) -> (width: u32)
        ensures
            width == self@.width,
            width > 0,
    {
        proof {
            use_type_invariant(self);
        }
        self.width
    }

    /// A copy of the page.
    pub fn copy(&self) -> (preview: PagePreview)
        ensures
            preview@ == self@,
    {
        proof {
            use_type_invariant(self);
        }
        Self {
            bytes: match &self.bytes {
                Some(bytes) => Some(copy_bytes(bytes)),
                None => None,
            },
            height: self.height,
            width: self.width,
        }
    }
}

/// The view of a borrowed picture that may be missing.
pub open spec fn image_view_ref(image: Option<&Vec<u8>>) -> Option<Seq<u8>> {
    match image {
        Some(bytes) => Some(bytes@),
        None => None,
    }
}

/// The pages of a document as they were last rendered: every page has its
/// size; a page outside the range that was rendered has no picture.
#[derive(Debug, PartialEq, Eq)]
pub struct PageCache {
    range: Option<(usize, usize)>,
    pages: Vec<PagePreview>,
}

/// What a page cache is.
pub struct CacheView {
    pub range: Option<(usize, usize)>,
    pub pages: Seq<PageView>,
}

impl View for PageCache {
    type V = CacheView;

    closed spec fn view(&self) -> CacheView {
        CacheView { range: self.range, pages: Seq::new(self.pages@.len(), |i: int| self.pages@[i]@) }
    }
}

/// Every page outside the range is a placeholder, and every page has a size.
pub open spec fn placeholders_outside(cache: CacheView) -> bool {
    forall|i: int|
        0 <= i < cache.pages.len() ==> (#[trigger] cache.pages[i]).width > 0 && cache.pages[i].height
            > 0 && (!in_range(cache.range, i) ==> cache.pages[i].bytes is None)
}

/// What the cache of `document` holds once the pages of `range` were
/// rendered to `images`, the first picture for the first page of the range:
/// every page its size, the pages of the range their pictures as far as
/// there are pictures, every other page none.
pub open spec fn cache_of(
    range: Option<(usize, usize)>,
    document: Seq<PageSize>,
    images: Seq<Option<Vec<u8>>>,
) -> CacheView {
    CacheView {
        range,
        pages: Seq::new(
            document.len(),
            |i: int|
                PageView {
                    bytes: if in_range(range, i) && i - range.unwrap().0 < images.len() {
                        image_view(images[i - range.unwrap().0])
                    } else {
                        None
                    },
                    height: document[i].spec_height(),
                    width: document[i].spec_width(),
                },
        ),
    }
}

/// In the cache built for a range every page has the size that the document
/// gives it, and every page outside the range is a placeholder: it has its
/// size and no picture.
pub proof fn lemma_placeholders(
    range: Option<(usize, usize)>,
    document: Seq<PageSize>,
    images: Seq<Option<Vec<u8>>>,
    i: int,
)
    requires
        0 <= i < document.len(),
    ensures
        cache_of(range, document, images).pages.len() == document.len(),
        cache_of(range, document, images).pages[i].width == document[i].spec_width(),
        cache_of(range, document, images).pages[i].height == document[i].spec_height(),
        !in_range(range, i) ==> cache_of(range, document, images).pages[i].bytes is None,
{
}

impl PageCache {
    #[verifier::type_invariant]
    spec fn sound(self) -> bool {
        placeholders_outside(self@)
    }

    /// The range that was rendered.
    pub fn range(&self) -> (range: Option<(usize, usize)>)
        ensures
            range == self@.range,
    {
        self.range
    }

    /// The number of pages.
    pub fn len(&self) -> (n: usize)
        ensures
            n == self@.pages.len(),
    {
        self.pages.len()
    }

    /// The page at `index`. A page outside the rendered range has no
    /// picture; every page has a size.
    pub fn page(&self, index: usize) -> (page: Option<&PagePreview>)
        ensures
            page is Some <==> index < self@.pages.len(),
            page matches Some(p) ==> p@ == self@.pages[index as int] && p@.width > 0 && p@.height
                > 0 && (!in_range(self@.range, index as int) ==> p@.bytes is None),
            placeholders_outside(self@),
    {
        proof {
            use_type_invariant(self);
        }
        if index < self.pages.len() {
            Some(&self.pages[index])
        } else {
            None
        }
    }

    /// A copy of the cache.
    pub fn copy(&self) -> (cache: PageCache)
        ensures
            cache@ == self@,
    {
        proof {
            use_type_invariant(self);
        }
        let mut pages: Vec<PagePreview> = Vec::new();
        let mut i: usize = 0;
        while i < self.pages.len()
            invariant
                i <= self.pages.len(),
                pages@.len() == i,
                forall|k: int| 0 <= k < i ==> (#[trigger] pages@[k])@ == self.pages@[k]@,
            decreases self.pages.len() - i,
        {
            pages.push(self.pages[i].copy());
            i += 1;
        }
        assert(Seq::new(pages@.len(), |i: int| pages@[i]@) =~= self@.pages);
        PageCache { range: self.range, pages }
    }
}

/// Builds the cache of `document` from the pictures that rendering the pages
/// of `pages_to_render` gave, in their order. A page whose picture is
/// missing, and every page outside the range, is a placeholder of its size.
pub fn fetch(
    pages_to_render: Option<(usize, usize)>,
    document: &Vec<PageSize>,
    images: &Vec<Option<Vec<u8>>>,
) -> (cache: PageCache)
    ensures
        cache@ == cache_of(pages_to_render, document@, images@),
        placeholders_outside(cache@),
{
    let mut pages: Vec<PagePreview> = Vec::new();
    let mut i: usize = 0;
    while i < document.len()
        invariant
            i <= document.len(),
            pages@.len() == i,
            forall|k: int|
                0 <= k < i ==> (#[trigger] pages@[k])@ == cache_of(
                    pages_to_render,
                    document@,
                    images@,
                ).pages[k],
            forall|k: int| 0 <= k < i ==> (#[trigger] pages@[k])@.width > 0 && pages@[k]@.height > 0,
        decreases document.len() - i,
    {
        let page = &document[i];
        let rendered = match pages_to_render {
            Some((first, last)) => first <= i && i <= last && i - first < images.len(),
            None => false,
        };
        let preview = if rendered {
            let at = i - pages_to_render.unwrap().0;
            let image = match &images[at] {
                Some(bytes) => Some(copy_bytes(bytes)),
                None => None,
            };
            PagePreview::fetch(page, image)
        } else {
            PagePreview::empty(page)
        };
        proof {
            use_type_invariant(&preview);
        }
        pages.push(preview);
        i += 1;
    }
    let ghost view = Seq::new(pages@.len(), |i: int| pages@[i]@);
    assert(view =~= cache_of(pages_to_render, document@, images@).pages);
    PageCache { range: pages_to_render, pages }
}

/// What the scrolled view reports: where it starts and how high it is.
#[derive(Clone, Copy, Debug, PartialEq, Eq, Structural)]
pub struct Viewport {
    pub offset_y: u64,
    pub height: u64,
}

/// What happens to a preview.
#[derive(Debug, PartialEq, Eq)]
pub enum Message {
    /// The user zooms in.
    IncrementZoom,
    /// The user zooms out.
    DecrementZoom,
    /// The view was scrolled or resized.
    Scrolled(Viewport),
    /// The pages in view have to be looked at again.
    ReloadPages,
    /// Rendering is done.
    PagesReloaded(PageCache),
}

/// What a preview asks for after a message.
#[derive(Clone, Copy, Debug, PartialEq, Eq)]
pub enum Task {
    /// Nothing.
    Idle,
    /// To be sent `Message::ReloadPages`.
    ReloadPages,
    /// To render the pages of the range at the zoom, build the cache with
    /// `fetch` and send it back in `Message::PagesReloaded`.
    Fetch { pages_to_render: Option<(usize, usize)>, zoom: u16 },
}

/// The state of the preview.
#[derive(Debug, PartialEq, Eq)]
pub struct Preview {
    zoom: u16,
    viewport_h: u64,
    offset: u64,
    pages_to_render: Option<(usize, usize)>,
    pages: Option<PageCache>,
}

/// What a preview is.
pub struct PreviewView {
    pub zoom: u16,
    pub viewport_h: u64,
    pub offset: u64,
    pub pages_to_render: Option<(usize, usize)>,
    pub pages: Option<CacheView>,
}

impl View for Preview {
    type V = PreviewView;

    closed spec fn view(&self) -> PreviewView {
        PreviewView {
            zoom: self.zoom,
            viewport_h: self.viewport_h,
            offset: self.offset,
            pages_to_render: self.pages_to_render,
            pages: match self.pages {
                Some(cache) => Some(cache@),
                None => None,
            },
        }
    }
}

/// The distance between two offsets.
pub open spec fn distance(a: u64, b: u64) -> int {
    if a >= b {
        a - b
    } else {
        b - a
    }
}

/// The zoom after a step in: by one step, but not beyond the largest zoom.
pub open spec fn zoomed_in(zoom: u16) -> u16 {
    if zoom + ZOOM_STEP > MAX_ZOOM {
        MAX_ZOOM
    } else {
        (zoom + ZOOM_STEP) as u16
    }
}

/// The zoom after a step out: by one step, but not below the smallest zoom.
pub open spec fn zoomed_out(zoom: u16) -> u16 {
    if zoom - ZOOM_STEP < MIN_ZOOM {
        MIN_ZOOM
    } else {
        (zoom - ZOOM_STEP) as u16
    }
}

/// The range of the pages of `document` that `state` has in view.
pub open spec fn range_in(state: PreviewView, document: Seq<PageSize>) -> Option<(usize, usize)> {
    visible_range(document, state.zoom as int, state.offset as int, state.viewport_h as int)
}

/// The preview after a message.
pub open spec fn next_state(state: PreviewView, message: Message, document: Seq<PageSize>) -> PreviewView {
    match message {
        Message::IncrementZoom => if state.zoom < ZOOM_IN_LIMIT {
            PreviewView { zoom: zoomed_in(state.zoom), ..state }
        } else {
            state
        },
        Message::DecrementZoom => if state.zoom > MIN_ZOOM {
            PreviewView { zoom: zoomed_out(state.zoom), ..state }
        } else {
            state
        },
        Message::Scrolled(viewport) => if distance(viewport.offset_y, state.offset)
            > SCROLL_RELOAD_DELAY {
            PreviewView { offset: viewport.offset_y, viewport_h: viewport.height, ..state }
        } else {
            state
        },
        Message::ReloadPages => PreviewView {
            pages_to_render: range_in(state, document),
            ..state
        },
        Message::PagesReloaded(cache) => PreviewView { pages: Some(cache@), ..state },
    }
}

/// What the preview asks for after a message.
pub open spec fn next_task(state: PreviewView, message: Message, document: Seq<PageSize>) -> Task {
    match message {
        Message::IncrementZoom => if state.zoom < ZOOM_IN_LIMIT {
            Task::ReloadPages
        } else {
            Task::Idle
        },
        Message::DecrementZoom => if state.zoom > MIN_ZOOM {
            Task::ReloadPages
        } else {
            Task::Idle
        },
        Message::Scrolled(viewport) => if distance(viewport.offset_y, state.offset)
            > SCROLL_RELOAD_DELAY {
            Task::ReloadPages
        } else {
            Task::Idle
        },
        Message::ReloadPages => if range_in(state, document) != state.pages_to_render {
            Task::Fetch { pages_to_render: range_in(state, document), zoom: state.zoom }
        } else {
            Task::Idle
        },
        Message::PagesReloaded(_) => Task::Idle,
    }
}

/// Looking again at pages whose range has not changed renders nothing and
/// changes nothing.
pub proof fn lemma_no_redundant_render(state: PreviewView, document: Seq<PageSize>)
    requires
        range_in(state, document) == state.pages_to_render,
    ensures
        next_task(state, Message::ReloadPages, document) == Task::Idle,
        next_state(state, Message::ReloadPages, document) == state,
{
}

/// Pages are rendered only on a look at the pages, only where the range has
/// changed, and then exactly for the new range at the zoom of the moment.
pub proof fn lemma_render_only_on_change(
    state: PreviewView,
    message: Message,
    document: Seq<PageSize>,
)
    ensures
        next_task(state, message, document) matches Task::Fetch { pages_to_render, zoom }
            ==> message == Message::ReloadPages && pages_to_render == range_in(state, document)
            && pages_to_render != state.pages_to_render && zoom == state.zoom && next_state(
            state,
            message,
            document,
        ).pages_to_render == pages_to_render,
{
}

/// The zoom stays between the smallest and the largest, whatever happens.
pub proof fn lemma_zoom_bounded(state: PreviewView, message: Message, document: Seq<PageSize>)
    requires
        MIN_ZOOM <= state.zoom <= MAX_ZOOM,
    ensures
        MIN_ZOOM <= next_state(state, message, document).zoom <= MAX_ZOOM,
{
}

/// A document without pages is never rendered by a preview that has
/// rendered nothing yet.
pub proof fn lemma_empty_document_idle(state: PreviewView)
    requires
        state.pages_to_render is None,
    ensures
        next_task(state, Message::ReloadPages, Seq::<PageSize>::empty()) == Task::Idle,
{
}

impl Preview {
    #[verifier::type_invariant]
    spec fn zoom_in_bounds(self) -> bool {
        MIN_ZOOM <= self.zoom <= MAX_ZOOM
    }

    /// A preview that has rendered nothing: full size, at the top.
    pub fn new() -> (preview: Preview)
        ensures
            preview@ == (PreviewView {
                zoom: DEFAULT_ZOOM,
                viewport_h: DEFAULT_VIEWPORT_H,
                offset: 0,
                pages_to_render: None,
                pages: None,
            }),
    {
        Self {
            zoom: DEFAULT_ZOOM,
            offset: 0,
            viewport_h: DEFAULT_VIEWPORT_H,
            pages_to_render: None,
            pages: None,
        }
    }

    /// The zoom in percent, between the smallest and the largest.
    pub fn zoom(&self) -> (zoom: u16)
        ensures
            zoom == self@.zoom,
            MIN_ZOOM <= zoom <= MAX_ZOOM,
    {
        proof {
            use_type_invariant(self);
        }
        self.zoom
    }

    /// Where the view starts.
    pub fn offset(&self) -> (offset: u64)
        ensures
            offset == self@.offset,
    {
        self.offset
    }

    /// The height of the view.
    pub fn viewport_h(&self) -> (height: u64)
        ensures
            height == self@.viewport_h,
    {
        self.viewport_h
    }

    /// The range that was last asked to be rendered.
    pub fn pages_to_render(&self) -> (range: Option<(usize, usize)>)
        ensures
            range == self@.pages_to_render,
    {
        self.pages_to_render
    }

    /// The cache of rendered pages, once there is one. Every page of it
    /// outside the range that it was rendered for is a placeholder.
    pub fn pages(&self) -> (pages: Option<&PageCache>)
        ensures
            match self@.pages {
                Some(view) => pages matches Some(cache) && cache@ == view && placeholders_outside(
                    view,
                ),
                None => pages is None,
            },
    {
        match &self.pages {
            Some(cache) => {
                proof {
                    use_type_invariant(cache);
                }
                Some(cache)
            },
            None => None,
        }
    }

    /// For each page where it begins and ends on the column, a hundredfold.
    pub fn pages_positions(&self, document: &Vec<PageSize>) -> (positions: Vec<(u128, u128)>)
        ensures
            positions@.len() == document@.len(),
            forall|i: int|
                0 <= i < document@.len() ==> (#[trigger] positions@[i]).0 == page_begin(
                    document@,
                    self@.zoom as int,
                    i,
                ) && positions@[i].1 == page_end(document@, self@.zoom as int, i),
    {
        proof {
            use_type_invariant(self);
        }
        let zoom = self.zoom;
        let mut positions: Vec<(u128, u128)> = Vec::new();
        let mut offset: u128 = 0;
        let mut i: usize = 0;
        while i < document.len()
            invariant
                i <= document.len(),
                zoom == self@.zoom,
                zoom <= MAX_ZOOM,
                positions@.len() == i,
                offset + 100 * SPACING_BETWEEN_PAGES == page_begin(document@, zoom as int, i as int),
                offset <= i * 1_288_491_690_000,
                forall|k: int|
                    0 <= k < i ==> (#[trigger] positions@[k]).0 == page_begin(
                        document@,
                        zoom as int,
                        k,
                    ) && positions@[k].1 == page_end(document@, zoom as int, k),
            decreases document.len() - i,
        {
            let height = document[i].height();
            proof {
                lemma_extent_bound(height as int, zoom as int);
            }
            offset = offset + 100 * (SPACING_BETWEEN_PAGES as u128);
            let begin = offset;
            offset = offset + (height as u128) * (zoom as u128);
            let end = offset;
            positions.push((begin, end));
            i += 1;
        }
        positions
    }

    /// The pages in view, from the first to the last; none where no page
    /// meets the view.
    pub fn compute_pages_to_render(&self, document: &Vec<PageSize>) -> (range: Option<
        (usize, usize),
    >)
        ensures
            range == range_in(self@, document@),
            match range {
                Some((first, last)) => first <= last < document@.len() && forall|i: int|
                    0 <= i < document@.len() ==> (#[trigger] in_view(
                        document@,
                        self@.zoom as int,
                        self@.offset as int,
                        self@.viewport_h as int,
                        i,
                    ) <==> first <= i <= last),
                None => forall|i: int|
                    0 <= i < document@.len() ==> !#[trigger] in_view(
                        document@,
                        self@.zoom as int,
                        self@.offset as int,
                        self@.viewport_h as int,
                        i,
                    ),
            },
    {
        let positions = self.pages_positions(document);
        let top: u128 = 100 * (self.offset as u128);
        let bottom: u128 = 100 * ((self.offset as u128) + (self.viewport_h as u128));
        let ghost zoom = self@.zoom as int;
        let ghost offset = self@.offset as int;
        let ghost limit = self@.offset as int + self@.viewport_h as int;
        let mut first: usize = 0;
        let mut until: usize = 0;
        let mut i: usize = 0;
        while i < positions.len()
            invariant
                i <= positions.len(),
                positions@.len() == document@.len(),
                top == 100 * offset,
                bottom == 100 * limit,
                first <= i,
                until <= i,
                first == pages_above(document@, zoom, offset, i as int),
                until == pages_begun(document@, zoom, limit, i as int),
                forall|k: int|
                    0 <= k < document@.len() ==> (#[trigger] positions@[k]).0 == page_begin(
                        document@,
                        zoom,
                        k,
                    ) && positions@[k].1 == page_end(document@, zoom, k),
            decreases positions.len() - i,
        {
            let (begin, end) = positions[i];
            if end < top {
                first += 1;
            }
            if begin < bottom {
                until += 1;
            }
            i += 1;
        }
        proof {
            use_type_invariant(self);
            lemma_visible_range(document@, zoom, offset, self@.viewport_h as int);
        }
        if first < until {
            Some((first, until - 1))
        } else {
            None
        }
    }

    /// Takes a message: a step of the zoom, a scroll, a look at the pages or
    /// the outcome of rendering. The task that comes back says what is to
    /// happen next.
    pub fn update(&mut self, message: Message, document: &Vec<PageSize>) -> (task: Task)
        ensures
            final(self)@ == next_state(old(self)@, message, document@),
            task == next_task(old(self)@, message, document@),
    {
        proof {
            use_type_invariant(&*self);
        }
        match message {
            Message::IncrementZoom => {
                if self.zoom < ZOOM_IN_LIMIT {
                    let stepped = self.zoom + ZOOM_STEP;
                    self.zoom = if stepped > MAX_ZOOM {
                        MAX_ZOOM
                    } else {
                        stepped
                    };
                    return Task::ReloadPages;
                }
                Task::Idle
            },
            Message::DecrementZoom => {
                if self.zoom > MIN_ZOOM {
                    self.zoom = if self.zoom < MIN_ZOOM + ZOOM_STEP {
                        MIN_ZOOM
                    } else {
                        self.zoom - ZOOM_STEP
                    };
                    return Task::ReloadPages;
                }
                Task::Idle
            },
            Message::Scrolled(viewport) => {
                let moved = if viewport.offset_y >= self.offset {
                    viewport.offset_y - self.offset
                } else {
                    self.offset - viewport.offset_y
                };
                if moved > SCROLL_RELOAD_DELAY {
                    self.offset = viewport.offset_y;
                    self.viewport_h = viewport.height;
                    return Task::ReloadPages;
                }
                Task::Idle
            },
            Message::ReloadPages => {
                let new_index = self.compute_pages_to_render(document);
                if !same_range(new_index, self.pages_to_render) {
                    self.pages_to_render = new_index;
                    return Task::Fetch { pages_to_render: new_index, zoom: self.zoom };
                }
                Task::Idle
            },
            Message::PagesReloaded(pages) => {
                self.pages = Some(pages);
                Task::Idle
            },
        }
    }
}

/// Whether two ranges are the same.
fn same_range(a: Option<(usize, usize)>, b: Option<(usize, usize)>) -> (same: bool)
    ensures
        same == (a == b),
{
    match (a, b) {
        (Some(x), Some(y)) => x.0 == y.0 && x.1 == y.1,
        (None, None) => true,
        _ => false,
    }
}

/// A height times a zoom stays within what the column can add up.
proof fn lemma_extent_bound(height: int, zoom: int)
    requires
        0 <= height <= u32::MAX,
        0 <= zoom <= MAX_ZOOM,
    ensures
        0 <= height * zoom <= 1_288_490_188_500,
{
    assert(0 <= height * zoom <= 4_294_967_295 * 300) by (nonlinear_arith)
        requires
            0 <= height <= 4_294_967_295,
            0 <= zoom <= 300,
    ;
}

} // verus!

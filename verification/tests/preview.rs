use tide::screen::component::preview::{
    fetch, Message, PageCache, PagePreview, PageSize, Preview, Task, Viewport,
    DEFAULT_VIEWPORT_H, DEFAULT_ZOOM, MAX_ZOOM, MIN_ZOOM,
};

fn page(width: u32, height: u32) -> PageSize {
    PageSize::new(width, height).unwrap()
}

fn two_pages() -> Vec<PageSize> {
    vec![page(595_000, 800_000), page(595_000, 600_000)]
}

fn scrolled(preview: &mut Preview, document: &Vec<PageSize>, offset_y: u64, height: u64) -> Task {
    preview.update(Message::Scrolled(Viewport { offset_y, height }), document)
}

#[test]
fn page_sizes_are_never_zero() {
    assert!(PageSize::new(0, 10).is_none());
    assert!(PageSize::new(10, 0).is_none());
    assert!(PageSize::new(0, 0).is_none());
    let size = page(3, 4);
    assert_eq!(size.width(), 3);
    assert_eq!(size.height(), 4);
}

#[test]
fn a_new_preview_has_rendered_nothing() {
    let preview = Preview::new();
    assert_eq!(preview.zoom(), DEFAULT_ZOOM);
    assert_eq!(preview.zoom(), 100);
    assert_eq!(preview.offset(), 0);
    assert_eq!(preview.viewport_h(), DEFAULT_VIEWPORT_H);
    assert_eq!(preview.pages_to_render(), None);
    assert!(preview.pages().is_none());
}

#[test]
fn pages_lie_below_one_another() {
    let preview = Preview::new();
    assert_eq!(
        preview.pages_positions(&two_pages()),
        vec![(1_500_000, 81_500_000), (83_000_000, 143_000_000)]
    );
    let mut zoomed = Preview::new();
    assert_eq!(zoomed.update(Message::IncrementZoom, &two_pages()), Task::ReloadPages);
    assert_eq!(zoomed.zoom(), 115);
    assert_eq!(
        zoomed.pages_positions(&two_pages()),
        vec![(1_500_000, 93_500_000), (95_000_000, 164_000_000)]
    );
    assert_eq!(preview.pages_positions(&Vec::new()), Vec::new());
}

#[test]
fn only_the_first_page_is_in_view() {
    let document = two_pages();
    let mut preview = Preview::new();
    assert_eq!(scrolled(&mut preview, &document, 60_000, 500_000), Task::ReloadPages);
    assert_eq!(preview.compute_pages_to_render(&document), Some((0, 0)));
    let task = preview.update(Message::ReloadPages, &document);
    assert_eq!(task, Task::Fetch { pages_to_render: Some((0, 0)), zoom: 100 });
    assert_eq!(preview.pages_to_render(), Some((0, 0)));

    let cache = fetch(Some((0, 0)), &document, &vec![Some(vec![1, 2, 3])]);
    assert_eq!(preview.update(Message::PagesReloaded(cache), &document), Task::Idle);
    let pages = preview.pages().unwrap();
    assert_eq!(pages.len(), 2);
    assert_eq!(pages.range(), Some((0, 0)));
    let first = pages.page(0).unwrap();
    assert_eq!(first.bytes(), Some(&vec![1, 2, 3]));
    let second = pages.page(1).unwrap();
    assert_eq!(second.bytes(), None);
    assert_eq!(second.width(), 595_000);
    assert_eq!(second.height(), 600_000);
    assert!(pages.page(2).is_none());
}

#[test]
fn scrolling_past_the_first_page() {
    let document = two_pages();
    let mut preview = Preview::new();
    scrolled(&mut preview, &document, 60_000, 500_000);
    preview.update(Message::ReloadPages, &document);
    let cache = fetch(Some((0, 0)), &document, &vec![Some(vec![1, 2, 3])]);
    preview.update(Message::PagesReloaded(cache), &document);

    assert_eq!(scrolled(&mut preview, &document, 900_000, 500_000), Task::ReloadPages);
    let task = preview.update(Message::ReloadPages, &document);
    assert_eq!(task, Task::Fetch { pages_to_render: Some((1, 1)), zoom: 100 });

    let cache = fetch(Some((1, 1)), &document, &vec![Some(vec![9, 9])]);
    preview.update(Message::PagesReloaded(cache), &document);
    let pages = preview.pages().unwrap();
    let first = pages.page(0).unwrap();
    assert_eq!(first.bytes(), None);
    assert_eq!(first.width(), 595_000);
    assert_eq!(first.height(), 800_000);
    assert_eq!(pages.page(1).unwrap().bytes(), Some(&vec![9, 9]));
}

#[test]
fn an_unchanged_range_renders_nothing() {
    let document = two_pages();
    let mut preview = Preview::new();
    scrolled(&mut preview, &document, 60_000, 500_000);
    assert_eq!(
        preview.update(Message::ReloadPages, &document),
        Task::Fetch { pages_to_render: Some((0, 0)), zoom: 100 }
    );
    assert_eq!(preview.update(Message::ReloadPages, &document), Task::Idle);
    assert_eq!(preview.pages_to_render(), Some((0, 0)));
    // A scroll that stays on the page asks for a look, and the look renders nothing.
    assert_eq!(scrolled(&mut preview, &document, 120_000, 500_000), Task::ReloadPages);
    assert_eq!(preview.update(Message::ReloadPages, &document), Task::Idle);
    // A zoom that leaves the range alone renders nothing either.
    assert_eq!(preview.update(Message::DecrementZoom, &document), Task::ReloadPages);
    assert_eq!(preview.compute_pages_to_render(&document), Some((0, 0)));
    assert_eq!(preview.update(Message::ReloadPages, &document), Task::Idle);
}

#[test]
fn small_scrolls_are_ignored() {
    let document = two_pages();
    let mut preview = Preview::new();
    assert_eq!(scrolled(&mut preview, &document, 50_000, 1), Task::Idle);
    assert_eq!(preview.offset(), 0);
    assert_eq!(preview.viewport_h(), DEFAULT_VIEWPORT_H);
    assert_eq!(scrolled(&mut preview, &document, 50_001, 7), Task::ReloadPages);
    assert_eq!(preview.offset(), 50_001);
    assert_eq!(preview.viewport_h(), 7);
    assert_eq!(scrolled(&mut preview, &document, 1, 9), Task::Idle);
    assert_eq!(scrolled(&mut preview, &document, 0, 9), Task::ReloadPages);
    assert_eq!(preview.offset(), 0);
    assert_eq!(preview.viewport_h(), 9);
}

#[test]
fn an_empty_document_is_never_rendered() {
    let document: Vec<PageSize> = Vec::new();
    let mut preview = Preview::new();
    assert_eq!(preview.compute_pages_to_render(&document), None);
    assert_eq!(preview.update(Message::ReloadPages, &document), Task::Idle);
    let cache = fetch(None, &document, &Vec::new());
    assert_eq!(cache.len(), 0);
    assert_eq!(cache.range(), None);
}

#[test]
fn a_view_larger_than_the_document_shows_everything() {
    let document = two_pages();
    let mut preview = Preview::new();
    scrolled(&mut preview, &document, 60_000, 10_000_000);
    assert_eq!(preview.compute_pages_to_render(&document), Some((0, 1)));
    let fresh = Preview::new();
    assert_eq!(fresh.compute_pages_to_render(&document), Some((0, 1)));
}

#[test]
fn a_view_below_the_document_shows_nothing() {
    let document = two_pages();
    let mut preview = Preview::new();
    scrolled(&mut preview, &document, 1_430_001, 500_000);
    assert_eq!(preview.compute_pages_to_render(&document), None);
    scrolled(&mut preview, &document, 1_430_000 - 60_000, 500_000);
    scrolled(&mut preview, &document, 1_430_000, 500_000);
    assert_eq!(preview.compute_pages_to_render(&document), Some((1, 1)));
    // Once pages were rendered, a view without pages is a change.
    preview.update(Message::ReloadPages, &document);
    scrolled(&mut preview, &document, 2_000_000, 500_000);
    assert_eq!(
        preview.update(Message::ReloadPages, &document),
        Task::Fetch { pages_to_render: None, zoom: 100 }
    );
}

#[test]
fn the_edges_of_a_page_count_as_the_rules_say() {
    let document = two_pages();
    let mut preview = Preview::new();
    // Page 0 ends at 815 000: it is in view while the offset does not pass its end.
    scrolled(&mut preview, &document, 815_000, 10_000);
    assert_eq!(preview.compute_pages_to_render(&document), Some((0, 0)));
    scrolled(&mut preview, &document, 700_000, 10_000);
    scrolled(&mut preview, &document, 815_001, 10_000);
    assert_eq!(preview.compute_pages_to_render(&document), None);
    // Page 1 begins at 830 000: it is in view once the view reaches below its begin.
    scrolled(&mut preview, &document, 700_000, 10_000);
    scrolled(&mut preview, &document, 820_000, 10_000);
    assert_eq!(preview.compute_pages_to_render(&document), None);
    scrolled(&mut preview, &document, 700_000, 10_000);
    scrolled(&mut preview, &document, 820_000, 10_001);
    assert_eq!(preview.compute_pages_to_render(&document), Some((1, 1)));
}

#[test]
fn scrolling_down_never_lowers_the_first_page() {
    let document = vec![page(1, 300_000), page(1, 100_000), page(1, 400_000), page(1, 50_000)];
    let mut last_first = 0;
    let mut offset = 0;
    let mut preview = Preview::new();
    while offset < 2_000_000 {
        scrolled(&mut preview, &document, offset, 200_000);
        if preview.offset() == offset {
            if let Some((first, last)) = preview.compute_pages_to_render(&document) {
                assert!(first >= last_first);
                assert!(first <= last);
                last_first = first;
            }
        }
        offset += 50_001;
    }
    assert_eq!(last_first, 3);
}

#[test]
fn zoom_moves_in_steps_within_its_bounds() {
    let document = two_pages();
    let mut preview = Preview::new();
    let mut steps = 0;
    while preview.update(Message::IncrementZoom, &document) == Task::ReloadPages {
        steps += 1;
        assert!(preview.zoom() <= MAX_ZOOM);
    }
    assert_eq!(steps, 10);
    assert_eq!(preview.zoom(), 250);
    assert_eq!(preview.update(Message::IncrementZoom, &document), Task::Idle);
    assert_eq!(preview.zoom(), 250);

    let mut steps = 0;
    while preview.update(Message::DecrementZoom, &document) == Task::ReloadPages {
        steps += 1;
        assert!(preview.zoom() >= MIN_ZOOM);
    }
    assert_eq!(steps, 16);
    assert_eq!(preview.zoom(), 10);
    assert_eq!(preview.update(Message::DecrementZoom, &document), Task::Idle);
    assert_eq!(preview.update(Message::IncrementZoom, &document), Task::ReloadPages);
    assert_eq!(preview.zoom(), 25);
    assert_eq!(preview.update(Message::DecrementZoom, &document), Task::ReloadPages);
    assert_eq!(preview.zoom(), 10);
}

#[test]
fn zoom_changes_what_is_in_view() {
    let document = two_pages();
    let mut preview = Preview::new();
    scrolled(&mut preview, &document, 500_000, 400_000);
    assert_eq!(preview.compute_pages_to_render(&document), Some((0, 1)));
    preview.update(Message::IncrementZoom, &document);
    assert_eq!(preview.zoom(), 115);
    // Page 1 now begins at 950 000, below the view that ends at 900 000.
    assert_eq!(preview.compute_pages_to_render(&document), Some((0, 0)));
}

#[test]
fn placeholders_outside_the_rendered_range() {
    let document = vec![page(10, 11), page(20, 21), page(30, 31), page(40, 41)];
    let images = vec![Some(vec![1]), None, Some(vec![3])];
    let cache = fetch(Some((1, 2)), &document, &images);
    assert_eq!(cache.len(), 4);
    for i in 0..4 {
        let page = cache.page(i).unwrap();
        assert_eq!(page.width(), document[i].width());
        assert_eq!(page.height(), document[i].height());
        assert!(page.width() > 0 && page.height() > 0);
        if i < 1 || i > 2 {
            assert_eq!(page.bytes(), None);
        }
    }
    assert_eq!(cache.page(1).unwrap().bytes(), Some(&vec![1]));
    // A page whose rendering failed keeps its size and has no picture.
    assert_eq!(cache.page(2).unwrap().bytes(), None);

    // Pictures that are missing at the end leave placeholders.
    let short = fetch(Some((0, 3)), &document, &vec![Some(vec![5])]);
    assert_eq!(short.page(0).unwrap().bytes(), Some(&vec![5]));
    assert_eq!(short.page(1).unwrap().bytes(), None);
    assert_eq!(short.page(3).unwrap().bytes(), None);

    // A range beyond the document renders what there is.
    let wide = fetch(Some((3, 9)), &document, &vec![Some(vec![8]), Some(vec![9])]);
    assert_eq!(wide.len(), 4);
    assert_eq!(wide.page(3).unwrap().bytes(), Some(&vec![8]));
    assert_eq!(wide.page(2).unwrap().bytes(), None);

    let none = fetch(None, &document, &images);
    for i in 0..4 {
        assert_eq!(none.page(i).unwrap().bytes(), None);
    }
    let copy: PageCache = cache.copy();
    assert_eq!(copy, cache);
}

#[test]
fn single_pages_are_built_with_or_without_a_picture() {
    let size = page(100, 200);
    let empty = PagePreview::empty(&size);
    assert_eq!(empty.bytes(), None);
    assert_eq!((empty.width(), empty.height()), (100, 200));
    let rendered = PagePreview::fetch(&size, Some(vec![4, 2]));
    assert_eq!(rendered.bytes(), Some(&vec![4, 2]));
    assert_eq!((rendered.width(), rendered.height()), (100, 200));
    let failed = PagePreview::fetch(&size, None);
    assert_eq!(failed, empty);
    assert_eq!(rendered.copy(), rendered);
}

#[test]
fn huge_documents_do_not_overflow() {
    let document = vec![page(u32::MAX, u32::MAX); 64];
    let mut preview = Preview::new();
    while preview.update(Message::IncrementZoom, &document) == Task::ReloadPages {}
    scrolled(&mut preview, &document, u64::MAX, u64::MAX);
    assert_eq!(preview.offset(), u64::MAX);
    assert!(preview.compute_pages_to_render(&document).is_none());
    let positions = preview.pages_positions(&document);
    assert_eq!(positions.len(), 64);
    assert_eq!(positions[0], (1_500_000, 1_500_000 + (u32::MAX as u128) * 250));
}

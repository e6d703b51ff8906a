use std::rc::{Rc, Weak};
use zathura_plugin::wrapper::{
    document_free, document_open, finish_document_free, finish_document_open, finish_page_clear,
    finish_page_init, is_attached_in, page_clear, page_init, page_render_cairo,
};
use zathura_plugin::{
    DataStore, DocumentInfo, DocumentRef, PageInfo, PageRef, PluginError, RawDocument, RawPage,
    Scalar, ZathuraPlugin,
};

fn points(value: f64) -> Scalar {
    Scalar::from_bits(value.to_bits())
}

fn empty_page() -> RawPage {
    RawPage { width: points(0.0), height: points(0.0), data: None }
}

fn fresh_document() -> RawDocument {
    RawDocument {
        path: b"/tmp/notes.txt".to_vec(),
        uri: None,
        basename: b"notes.txt".to_vec(),
        zoom: points(1.0),
        scale: points(1.0),
        rotation: 0,
        viewport_ppi: points(0.0),
        scaling_x: points(1.0),
        scaling_y: points(1.0),
        cell_width: 0,
        cell_height: 0,
        page_count: 0,
        current_page: 0,
        data: None,
        pages: Vec::new(),
    }
}

fn allocate_pages(mut raw: RawDocument) -> RawDocument {
    raw.pages = (0..raw.page_count).map(|_| empty_page()).collect();
    raw
}

struct Canvas {
    strokes: Vec<(usize, bool)>,
}

struct DocState {
    token: Rc<()>,
    renders: u32,
}

struct PageState {
    token: Rc<()>,
    index: usize,
}

struct FivePages;

impl ZathuraPlugin for FivePages {
    type DocumentData = DocState;
    type PageData = PageState;
    type Surface = Canvas;

    fn document_open(doc: &DocumentRef) -> Result<DocumentInfo<Self>, PluginError> {
        assert_eq!(doc.basename_utf8(), Ok("notes.txt"));
        Ok(DocumentInfo { page_count: 5, plugin_data: DocState { token: Rc::new(()), renders: 0 } })
    }

    fn page_init(page: &PageRef, _doc_data: &mut DocState) -> Result<PageInfo<Self>, PluginError> {
        Ok(PageInfo {
            width: points(75.0),
            height: points(100.0),
            plugin_data: PageState { token: Rc::new(()), index: page.index() },
        })
    }

    fn page_render(
        page: &PageRef,
        doc_data: &mut DocState,
        page_data: &mut PageState,
        surface: &mut Canvas,
        printing: bool,
    ) -> Result<(), PluginError> {
        assert_eq!(page_data.index, page.index());
        doc_data.renders += 1;
        surface.strokes.push((page.index(), printing));
        Ok(())
    }
}

struct Failing;

impl ZathuraPlugin for Failing {
    type DocumentData = u8;
    type PageData = u8;
    type Surface = ();

    fn document_open(_doc: &DocumentRef) -> Result<DocumentInfo<Self>, PluginError> {
        Err(PluginError::InvalidPassword)
    }

    fn document_free(_doc: &DocumentRef, doc_data: &mut u8) -> Result<(), PluginError> {
        *doc_data += 1;
        Err(PluginError::OutOfMemory)
    }

    fn page_init(_page: &PageRef, doc_data: &mut u8) -> Result<PageInfo<Self>, PluginError> {
        *doc_data += 1;
        Err(PluginError::NotImplemented)
    }

    fn page_free(_page: &PageRef, _d: &mut u8, _p: &mut u8) -> Result<(), PluginError> {
        Err(PluginError::Unknown)
    }

    fn page_render(
        _page: &PageRef,
        doc_data: &mut u8,
        page_data: &mut u8,
        _surface: &mut (),
        _printing: bool,
    ) -> Result<(), PluginError> {
        *doc_data += 10;
        *page_data += 20;
        Err(PluginError::InvalidArguments)
    }
}

#[test]
fn full_lifecycle_leaves_no_plugin_data() {
    let mut docs: DataStore<DocState> = DataStore::new();
    let mut pages: DataStore<PageState> = DataStore::new();

    let mut doc = DocumentRef::from_raw(fresh_document());
    assert_eq!(document_open::<FivePages>(&mut doc, &mut docs), 0);
    assert_eq!(doc.page_count(), 5);
    assert_eq!(doc.plugin_data(), Some(0));
    assert_eq!(docs.live(), 1);
    let doc_token: Weak<()> = Rc::downgrade(&docs.get(0).unwrap().token);
    assert_eq!(doc_token.strong_count(), 1);

    let raw = allocate_pages(doc.into_raw());
    let mut page = PageRef::from_raw(raw, 0);
    assert!(is_attached_in(page.document().plugin_data(), &docs));
    assert_eq!(page_init::<FivePages>(&mut page, &mut docs, &mut pages), 0);
    assert_eq!(f64::from_bits(page.width().to_bits()), 75.0);
    assert_eq!(f64::from_bits(page.height().to_bits()), 100.0);
    assert_eq!(page.plugin_data(), Some(0));
    assert_eq!(pages.live(), 1);
    assert_eq!(docs.live(), 1);
    let page_token: Weak<()> = Rc::downgrade(&pages.get(0).unwrap().token);

    let mut canvas = Canvas { strokes: Vec::new() };
    assert!(is_attached_in(page.plugin_data(), &pages));
    assert_eq!(
        page_render_cairo::<FivePages>(&page, &mut docs, &mut pages, &mut canvas, false),
        0
    );
    assert_eq!(canvas.strokes, vec![(0, false)]);
    assert_eq!(docs.get(0).unwrap().renders, 1);
    assert_eq!(pages.get(0).unwrap().index, 0);
    assert_eq!(page_token.strong_count(), 1);
    assert_eq!(doc_token.strong_count(), 1);

    assert_eq!(page_clear::<FivePages>(&page, &mut docs, &mut pages), 0);
    assert_eq!(pages.live(), 0);
    assert!(page_token.upgrade().is_none());
    assert_eq!(docs.live(), 1);

    let doc = page.into_document();
    assert_eq!(document_free::<FivePages>(&doc, &mut docs), 0);
    assert_eq!(docs.live(), 0);
    assert!(doc_token.upgrade().is_none());
    assert!(!is_attached_in(doc.plugin_data(), &docs));
}

#[test]
fn every_page_gets_its_own_block() {
    let mut docs: DataStore<DocState> = DataStore::new();
    let mut pages: DataStore<PageState> = DataStore::new();
    let mut doc = DocumentRef::from_raw(fresh_document());
    assert_eq!(document_open::<FivePages>(&mut doc, &mut docs), 0);
    let mut raw = allocate_pages(doc.into_raw());
    for index in 0..5usize {
        let mut page = PageRef::from_raw(raw, index);
        assert_eq!(page_init::<FivePages>(&mut page, &mut docs, &mut pages), 0);
        assert_eq!(page.plugin_data(), Some(index));
        raw = page.into_raw();
    }
    assert_eq!(pages.live(), 5);
    let mut canvas = Canvas { strokes: Vec::new() };
    for index in [3usize, 1, 3] {
        let page = PageRef::from_raw(raw, index);
        assert_eq!(
            page_render_cairo::<FivePages>(&page, &mut docs, &mut pages, &mut canvas, true),
            0
        );
        raw = page.into_raw();
    }
    assert_eq!(canvas.strokes, vec![(3, true), (1, true), (3, true)]);
    assert_eq!(docs.get(0).unwrap().renders, 3);
    for index in 0..5usize {
        let page = PageRef::from_raw(raw, index);
        assert_eq!(page_clear::<FivePages>(&page, &mut docs, &mut pages), 0);
        raw = page.into_raw();
    }
    assert_eq!(pages.live(), 0);
    let doc = DocumentRef::from_raw(raw);
    assert_eq!(document_free::<FivePages>(&doc, &mut docs), 0);
    assert_eq!(docs.live(), 0);
}

#[test]
fn failed_open_changes_nothing() {
    let mut docs: DataStore<u8> = DataStore::new();
    let mut doc = DocumentRef::from_raw(fresh_document());
    assert_eq!(document_open::<Failing>(&mut doc, &mut docs), 5);
    assert_eq!(doc.page_count(), 0);
    assert_eq!(doc.plugin_data(), None);
    assert_eq!(docs.live(), 0);
}

#[test]
fn failed_page_init_changes_no_page() {
    let mut docs: DataStore<u8> = DataStore::new();
    let mut pages: DataStore<u8> = DataStore::new();
    let handle = docs.attach(0);
    let mut raw = fresh_document();
    raw.page_count = 2;
    raw.data = Some(handle);
    let mut page = PageRef::from_raw(allocate_pages(raw), 1);
    assert_eq!(page_init::<Failing>(&mut page, &mut docs, &mut pages), 3);
    assert_eq!(page.plugin_data(), None);
    assert_eq!(f64::from_bits(page.width().to_bits()), 0.0);
    assert_eq!(pages.live(), 0);
    assert_eq!(docs.get(handle), Some(&1));
}

#[test]
fn free_releases_even_when_the_hook_fails() {
    let mut docs: DataStore<u8> = DataStore::new();
    let mut pages: DataStore<u8> = DataStore::new();
    let other = docs.attach(9);
    let doc_handle = docs.attach(0);
    let page_handle = pages.attach(0);
    let mut raw = fresh_document();
    raw.page_count = 1;
    raw.data = Some(doc_handle);
    raw.pages = vec![RawPage { width: points(1.0), height: points(2.0), data: Some(page_handle) }];
    let page = PageRef::from_raw(raw, 0);
    assert_eq!(page_clear::<Failing>(&page, &mut docs, &mut pages), 1);
    assert_eq!(pages.live(), 0);
    assert_eq!(docs.live(), 2);
    let doc = page.into_document();
    assert_eq!(document_free::<Failing>(&doc, &mut docs), 2);
    assert_eq!(docs.live(), 1);
    assert!(!docs.contains(doc_handle));
    assert_eq!(docs.get(other), Some(&9));
}

#[test]
fn render_error_is_reported_and_blocks_stay() {
    let mut docs: DataStore<u8> = DataStore::new();
    let mut pages: DataStore<u8> = DataStore::new();
    let doc_handle = docs.attach(1);
    let spare = pages.attach(7);
    let page_handle = pages.attach(2);
    let mut raw = fresh_document();
    raw.page_count = 1;
    raw.data = Some(doc_handle);
    raw.pages = vec![RawPage { width: points(1.0), height: points(2.0), data: Some(page_handle) }];
    let page = PageRef::from_raw(raw, 0);
    let mut surface = ();
    assert_eq!(page_render_cairo::<Failing>(&page, &mut docs, &mut pages, &mut surface, true), 4);
    assert_eq!(docs.get(doc_handle), Some(&11));
    assert_eq!(pages.get(page_handle), Some(&22));
    assert_eq!(pages.get(spare), Some(&7));
    assert_eq!(docs.live(), 1);
    assert_eq!(pages.live(), 2);
}

#[test]
fn finish_document_open_applies_the_answer() {
    let mut docs: DataStore<u8> = DataStore::new();
    docs.attach(1);
    let mut doc = DocumentRef::from_raw(fresh_document());
    let answer: Result<DocumentInfo<Failing>, PluginError> =
        Ok(DocumentInfo { page_count: 12, plugin_data: 33 });
    assert_eq!(finish_document_open::<Failing>(&mut doc, &mut docs, answer), 0);
    assert_eq!(doc.page_count(), 12);
    assert_eq!(doc.plugin_data(), Some(1));
    assert_eq!(docs.get(1), Some(&33));
    let answer: Result<DocumentInfo<Failing>, PluginError> = Err(PluginError::OutOfMemory);
    assert_eq!(finish_document_open::<Failing>(&mut doc, &mut docs, answer), 2);
    assert_eq!(doc.page_count(), 12);
    assert_eq!(doc.plugin_data(), Some(1));
    assert_eq!(docs.live(), 2);
}

#[test]
fn finish_page_init_applies_the_answer() {
    let mut pages: DataStore<u8> = DataStore::new();
    let mut raw = fresh_document();
    raw.page_count = 2;
    let mut page = PageRef::from_raw(allocate_pages(raw), 1);
    let answer: Result<PageInfo<Failing>, PluginError> =
        Ok(PageInfo { width: points(595.0), height: points(842.0), plugin_data: 5 });
    assert_eq!(finish_page_init::<Failing>(&mut page, &mut pages, answer), 0);
    assert_eq!(f64::from_bits(page.width().to_bits()), 595.0);
    assert_eq!(f64::from_bits(page.height().to_bits()), 842.0);
    assert_eq!(page.plugin_data(), Some(0));
    assert_eq!(pages.get(0), Some(&5));
    let answer: Result<PageInfo<Failing>, PluginError> = Err(PluginError::InvalidArguments);
    assert_eq!(finish_page_init::<Failing>(&mut page, &mut pages, answer), 4);
    assert_eq!(f64::from_bits(page.width().to_bits()), 595.0);
    assert_eq!(pages.live(), 1);
    let raw = page.into_raw();
    assert_eq!(raw.pages[0], empty_page());
}

#[test]
fn finish_free_reports_the_hook_and_releases() {
    let mut docs: DataStore<u8> = DataStore::new();
    let mut pages: DataStore<u8> = DataStore::new();
    let d = docs.attach(1);
    let p = pages.attach(2);
    let mut raw = fresh_document();
    raw.page_count = 1;
    raw.data = Some(d);
    raw.pages = vec![RawPage { width: points(0.0), height: points(0.0), data: Some(p) }];
    let page = PageRef::from_raw(raw, 0);
    assert_eq!(finish_page_clear(&page, &mut pages, Err(PluginError::InvalidPassword)), 5);
    assert_eq!(pages.live(), 0);
    let doc = page.into_document();
    assert_eq!(finish_document_free(&doc, &mut docs, Ok(())), 0);
    assert_eq!(docs.live(), 0);
}

#[test]
fn default_hooks_succeed() {
    let doc = DocumentRef::from_raw(fresh_document());
    let mut state = DocState { token: Rc::new(()), renders: 0 };
    assert_eq!(FivePages::document_free(&doc, &mut state), Ok(()));
    let mut raw = fresh_document();
    raw.page_count = 1;
    let page = PageRef::from_raw(allocate_pages(raw), 0);
    let mut page_state = PageState { token: Rc::new(()), index: 0 };
    assert_eq!(FivePages::page_free(&page, &mut state, &mut page_state), Ok(()));
}

#[test]
fn slot_tells_whether_data_is_attached() {
    let mut docs: DataStore<u8> = DataStore::new();
    assert!(!is_attached_in(None, &docs));
    assert!(!is_attached_in(Some(0), &docs));
    let h = docs.attach(3);
    assert!(is_attached_in(Some(h), &docs));
    assert!(!is_attached_in(Some(h + 1), &docs));
    docs.release(h);
    assert!(!is_attached_in(Some(h), &docs));
}

struct Keeper;

impl ZathuraPlugin for Keeper {
    type DocumentData = u8;
    type PageData = u8;
    type Surface = ();

    fn document_open(_doc: &DocumentRef) -> Result<DocumentInfo<Self>, PluginError> {
        Ok(DocumentInfo { page_count: 1, plugin_data: 40 })
    }

    fn page_init(_page: &PageRef, _doc_data: &mut u8) -> Result<PageInfo<Self>, PluginError> {
        Ok(PageInfo { width: points(10.0), height: points(20.0), plugin_data: 50 })
    }

    fn page_render(
        _page: &PageRef,
        _doc_data: &mut u8,
        _page_data: &mut u8,
        _surface: &mut (),
        _printing: bool,
    ) -> Result<(), PluginError> {
        Ok(())
    }
}

#[test]
fn kept_hooks_succeed_and_leave_the_data() {
    let doc = DocumentRef::from_raw(fresh_document());
    let mut doc_data = 40u8;
    assert_eq!(Keeper::document_free(&doc, &mut doc_data), Ok(()));
    assert_eq!(doc_data, 40);
    let mut raw = fresh_document();
    raw.page_count = 1;
    let page = PageRef::from_raw(allocate_pages(raw), 0);
    let mut page_data = 50u8;
    assert_eq!(Keeper::page_free(&page, &mut doc_data, &mut page_data), Ok(()));
    assert_eq!(doc_data, 40);
    assert_eq!(page_data, 50);
}

#[test]
fn free_callbacks_succeed_with_kept_hooks() {
    let mut docs: DataStore<u8> = DataStore::new();
    let mut pages: DataStore<u8> = DataStore::new();
    let mut doc = DocumentRef::from_raw(fresh_document());
    assert_eq!(document_open::<Keeper>(&mut doc, &mut docs), 0);
    let mut page = PageRef::from_raw(allocate_pages(doc.into_raw()), 0);
    assert_eq!(page_init::<Keeper>(&mut page, &mut docs, &mut pages), 0);
    assert_eq!(page_clear::<Keeper>(&page, &mut docs, &mut pages), 0);
    assert_eq!(docs.get(0), Some(&40));
    assert_eq!(pages.live(), 0);
    let doc = page.into_document();
    assert_eq!(document_free::<Keeper>(&doc, &mut docs), 0);
    assert_eq!(docs.live(), 0);
}

#[test]
fn render_hands_the_plugin_what_came_in() {
    let mut docs: DataStore<DocState> = DataStore::new();
    let mut pages: DataStore<PageState> = DataStore::new();
    let mut doc = DocumentRef::from_raw(fresh_document());
    assert_eq!(document_open::<FivePages>(&mut doc, &mut docs), 0);
    let mut page = PageRef::from_raw(allocate_pages(doc.into_raw()), 4);
    assert_eq!(page_init::<FivePages>(&mut page, &mut docs, &mut pages), 0);
    let mut canvas = Canvas { strokes: vec![(9, true)] };
    assert_eq!(
        page_render_cairo::<FivePages>(&page, &mut docs, &mut pages, &mut canvas, true),
        0
    );
    assert_eq!(canvas.strokes, vec![(9, true), (4, true)]);
    assert_eq!(docs.get(0).unwrap().renders, 1);
    assert_eq!(pages.get(0).unwrap().index, 4);
}

struct Recorder;

impl ZathuraPlugin for Recorder {
    type DocumentData = Rc<std::cell::Cell<u32>>;
    type PageData = u32;
    type Surface = ();

    fn document_open(_doc: &DocumentRef) -> Result<DocumentInfo<Self>, PluginError> {
        Err(PluginError::NotImplemented)
    }

    fn document_free(
        _doc: &DocumentRef,
        doc_data: &mut Self::DocumentData,
    ) -> Result<(), PluginError> {
        doc_data.set(doc_data.get() + 1000);
        Ok(())
    }

    fn page_init(_page: &PageRef, _doc_data: &mut Self::DocumentData) -> Result<PageInfo<Self>, PluginError> {
        Err(PluginError::NotImplemented)
    }

    fn page_free(
        page: &PageRef,
        doc_data: &mut Self::DocumentData,
        page_data: &mut u32,
    ) -> Result<(), PluginError> {
        doc_data.set(doc_data.get() + *page_data + page.index() as u32);
        Err(PluginError::InvalidArguments)
    }

    fn page_render(
        _page: &PageRef,
        _doc_data: &mut Self::DocumentData,
        _page_data: &mut u32,
        _surface: &mut (),
        _printing: bool,
    ) -> Result<(), PluginError> {
        Ok(())
    }
}

#[test]
fn free_hooks_get_the_attached_blocks() {
    let seen = Rc::new(std::cell::Cell::new(1u32));
    let mut docs: DataStore<Rc<std::cell::Cell<u32>>> = DataStore::new();
    let mut pages: DataStore<u32> = DataStore::new();
    docs.attach(Rc::new(std::cell::Cell::new(0)));
    let doc_handle = docs.attach(seen.clone());
    pages.attach(7);
    pages.attach(8);
    let page_handle = pages.attach(20);
    let mut raw = fresh_document();
    raw.page_count = 3;
    raw.data = Some(doc_handle);
    let mut raw = allocate_pages(raw);
    raw.pages[2].data = Some(page_handle);
    let page = PageRef::from_raw(raw, 2);

    assert_eq!(page_clear::<Recorder>(&page, &mut docs, &mut pages), 4);
    assert_eq!(seen.get(), 1 + 20 + 2);
    assert!(!pages.contains(page_handle));
    assert_eq!(pages.live(), 2);
    assert_eq!(Rc::strong_count(&seen), 2);

    let doc = page.into_document();
    assert_eq!(document_free::<Recorder>(&doc, &mut docs), 0);
    assert_eq!(seen.get(), 1023);
    assert_eq!(Rc::strong_count(&seen), 1);
    assert_eq!(docs.live(), 1);
    assert_eq!(docs.get(0).unwrap().get(), 0);
}

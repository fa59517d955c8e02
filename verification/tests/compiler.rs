use tide::editor::autocomplete::{autocomplete, complete_word, Completion};
use tide::identity::VirtualId;
use tide::path::FsPath;
use tide::screen::component::preview::{
    fetch, Message as PreviewMessage, PageSize, Preview, Task as PreviewTask, Viewport,
};
use tide::world::{FontCatalog, Source as StoredSource, TideWorld};
use typst::diag::{FileError, FileResult};
use typst::foundations::{Bytes, Datetime};
use typst::layout::PagedDocument;
use typst::syntax::{FileId, Source, VirtualPath};
use typst::text::{Font, FontBook};
use typst::utils::LazyHash;
use typst::{Library, World};
use typst_ide::IdeWorld;

/// The library's world behind the compiler's trait.
struct CompilerWorld {
    inner: TideWorld,
    library: LazyHash<Library>,
    book: LazyHash<FontBook>,
    fonts: Vec<Font>,
}

fn to_virtual_id(id: FileId) -> VirtualId {
    VirtualId::new(&FsPath::parse(&id.vpath().as_rootless_path().to_string_lossy()))
}

fn to_file_id(id: &VirtualId) -> FileId {
    FileId::new(None, VirtualPath::new(id.as_rootless_path().to_text()))
}

impl World for CompilerWorld {
    fn library(&self) -> &LazyHash<Library> {
        &self.library
    }

    fn book(&self) -> &LazyHash<FontBook> {
        &self.book
    }

    fn main(&self) -> FileId {
        to_file_id(self.inner.main())
    }

    fn source(&self, id: FileId) -> FileResult<Source> {
        match self.inner.source(&to_virtual_id(id)) {
            Ok(source) => Ok(Source::new(id, source.text().to_string())),
            Err(_) => Err(FileError::NotFound(id.vpath().as_rootless_path().into())),
        }
    }

    fn file(&self, id: FileId) -> FileResult<Bytes> {
        match self.inner.file(&to_virtual_id(id)) {
            Ok(bytes) => Ok(Bytes::new(bytes)),
            Err(_) => Err(FileError::NotFound(id.vpath().as_rootless_path().into())),
        }
    }

    fn font(&self, index: usize) -> Option<Font> {
        self.fonts.get(index).cloned()
    }

    fn today(&self, offset: Option<i64>) -> Option<Datetime> {
        let date = self.inner.today(offset)?;
        Datetime::from_ymd(date.year, date.month, date.day)
    }
}

impl IdeWorld for CompilerWorld {
    fn upcast(&self) -> &dyn World {
        self
    }
}

fn init_world() -> CompilerWorld {
    let main_file_id = VirtualId::new(&FsPath::parse("main"));
    let mut inner = TideWorld::new(main_file_id.clone(), None, bundled_fonts());
    let main = StoredSource::new(main_file_id.clone(), String::from("= Hello World"));
    inner.add_source(main_file_id, main);
    snapshot(&inner)
}

/// A snapshot of `inner` for the compiler, with every face of its catalog.
fn snapshot(inner: &TideWorld) -> CompilerWorld {
    let inner = inner.snapshot_clone();
    let mut fonts = Vec::new();
    let mut index = 0;
    while let Some(face) = inner.font(index) {
        fonts.extend(Font::new(Bytes::new(face.data().clone()), face.index()));
        index += 1;
    }
    CompilerWorld {
        inner,
        library: LazyHash::new(Library::default()),
        book: LazyHash::new(FontBook::from_fonts(&fonts)),
        fonts,
    }
}

/// The fonts that come with typst-assets: Libertinus Serif, New Computer
/// Modern, New Computer Modern Math and DejaVu Sans Mono. The set holds
/// neither Libertinus Math nor Libertinus Serif Initials, and the places of
/// the faces in the catalog are those of this set.
fn bundled_fonts() -> FontCatalog {
    let bundled: Vec<Vec<u8>> = typst_assets::fonts().map(|font| font.to_vec()).collect();
    FontCatalog::build(&bundled, &Vec::new())
}

fn compile(inner: &TideWorld) -> Result<PagedDocument, Vec<String>> {
    typst::compile::<PagedDocument>(&snapshot(inner))
        .output
        .map_err(|errors| errors.iter().map(|error| error.message.to_string()).collect())
}

fn page_sizes(document: &PagedDocument) -> Vec<PageSize> {
    document
        .pages
        .iter()
        .map(|page| {
            let side = |points: f64| (points * 1000.0).round() as u32;
            PageSize::new(side(page.frame.width().to_pt()), side(page.frame.height().to_pt()))
                .unwrap()
        })
        .collect()
}

/// The text as the editor hands it over: it always ends with a line feed.
fn editor_text(content: &str) -> String {
    let mut text = content.to_string();
    if !text.ends_with('\n') {
        text.push('\n');
    }
    text
}

fn change_main(world: &mut CompilerWorld, content: &str, shift: usize) -> (Source, usize) {
    let main = world.inner.main().clone();
    world.inner.reload_source_from_content(&main, &editor_text(content));
    let source = world.source(world.main()).unwrap();
    let cursor = source.len_bytes() - 1; //EOF

    (source, cursor - shift)
}

fn converted(completions: Vec<typst_ide::Completion>) -> Vec<Completion> {
    completions
        .into_iter()
        .map(|completion| Completion {
            kind: format!("{:?}", completion.kind),
            label: completion.label.to_string(),
            apply: completion.apply.map(|apply| apply.to_string()),
            detail: completion.detail.map(|detail| detail.to_string()),
        })
        .collect()
}

type Completions = Option<Vec<Completion>>;

fn labels(completions: &Completions) -> Vec<&str> {
    match completions {
        Some(completions) => completions.iter().map(|x| x.label.as_str()).collect(),
        None => vec![],
    }
}

fn includes(completions: &Completions, wanted: &[&str]) {
    let labels = labels(completions);
    for elem in wanted {
        assert!(labels.contains(elem), "{elem:?} not in {labels:?}");
    }
}

fn excludes(completions: &Completions, unwanted: &[&str]) {
    let labels = labels(completions);
    for elem in unwanted {
        assert!(!labels.contains(elem), "{elem:?} in {labels:?}");
    }
}

fn expects_len(completions: &Completions, len: usize) {
    assert_eq!(labels(completions).len(), len);
}

struct TestWorld {
    world: CompilerWorld,
    shift: usize,
}

impl TestWorld {
    fn init() -> Self {
        Self { world: init_world(), shift: 0 }
    }

    fn left_shift(&mut self, shift: usize) -> &mut Self {
        self.shift = shift;

        self
    }

    fn test_word(&mut self, main_content: &str) -> Completions {
        let (source, cursor) = change_main(&mut self.world, main_content, self.shift);

        let (pos, completions) = typst_ide::autocomplete(&self.world, None, &source, cursor, true)
            .unwrap_or((0, vec![]));

        let word = source.get(pos..cursor)?;
        let result = if word.is_empty() || word.eq("") {
            None
        } else {
            complete_word(word, &converted(completions))
        };
        self.shift = 0;

        result
    }

    fn test_completion(&mut self, main_content: &str) -> Completions {
        let (source, cursor) = change_main(&mut self.world, main_content, self.shift);
        let result = typst_ide::autocomplete(&self.world, None, &source, cursor, true)
            .and_then(|(pos, completions)| {
                autocomplete(pos, source.get(pos..cursor), converted(completions))
            })
            .map(|(_, com)| com);
        self.shift = 0;

        result
    }
}

#[test]
fn test_complete_filter() {
    let mut world = TestWorld::init();
    let found = world.test_word("#ima");
    includes(&found, &["image"]);
    excludes(&found, &["label", "expression", "linebreak"]);
    expects_len(&found, 1);
    let found = world.test_word("ima");
    includes(&found, &[]);
    excludes(&found, &["image"]);
    expects_len(&found, 0);
    let found = world.test_word("");
    includes(&found, &[]);
    excludes(&found, &["label", "expression"]);
    expects_len(&found, 0);
    let found = world.test_word("#f");
    includes(&found, &["float", "function", "figure"]);
    excludes(&found, &["list", "array"]);
    expects_len(&found, 8);
    let found = world.test_word("#fi");
    includes(&found, &["figure"]);
    excludes(&found, &["float", "function"]);
    expects_len(&found, 1);
    let found = world.test_word("#sym.arrow.b");
    includes(&found, &["b", "bar", "bl", "br"]);
    excludes(&found, &["curve", "dashed"]);
    expects_len(&found, 4);
    let found = world.test_word("#sym.arrow.");
    includes(&found, &[]);
    excludes(&found, &["bar", "curve", "dashed", "half"]);
    expects_len(&found, 0);
    let found = world.left_shift(1).test_word("#figure()");
    includes(&found, &[]);
    excludes(&found, &["image", "caption"]);
    expects_len(&found, 0);
}

#[test]
fn test_complete_general() {
    let mut world = TestWorld::init();
    let found = world.test_completion("#sym.arrow.");
    includes(&found, &["b", "bar", "bl", "br", "curve", "dashed"]);
    excludes(&found, &["expression"]);
    expects_len(&found, 32);
    let found = world.left_shift(1).test_completion("#figure()");
    includes(&found, &["image", "caption"]);
    excludes(&found, &["list", "array"]);
    expects_len(&found, 12);
    let found = world.test_completion("");
    includes(&found, &["label", "expression", "linebreak"]);
    expects_len(&found, 16);
    excludes(&found, &["figure"]);
    let found = world.left_shift(6).test_completion("#figure()");
    includes(&found, &["figure"]);
    expects_len(&found, 1);
    excludes(&found, &["image", "caption"]);
    // The fonts at hand here are those of typst-assets, which hold Libertinus
    // Serif but no Libertinus Math: only the serif family can be asked for.
    let found = world.left_shift(1).test_completion("#text(font:)");
    includes(&found, &["\"Libertinus Serif\""]); //can't expect the number of fonts
    excludes(&found, &["\"Libertinus Math\""]);
    let found = world.test_completion("ima");
    includes(&found, &["label", "expression"]);
    excludes(&found, &["image"]);
    expects_len(&found, 16);
}

#[test]
fn every_face_of_the_catalog_is_a_font() {
    let catalog = bundled_fonts();
    let world = snapshot(&TideWorld::new(VirtualId::new(&FsPath::parse("main.typ")), None, catalog));
    let mut index = 0;
    while world.inner.font(index).is_some() {
        index += 1;
    }
    assert!(index >= 17);
    assert_eq!(world.fonts.len(), index);
    assert!(world.font(index).is_none());
    assert!(world.book.select_family("libertinus serif").next().is_some());
}

#[test]
fn a_main_file_without_source_fails_to_compile() {
    let main = VirtualId::new(&FsPath::parse("main.typ"));
    let mut world = TideWorld::new(main.clone(), None, bundled_fonts());
    world.add_source(main.clone(), StoredSource::new(main.clone(), "= Title".to_string()));
    assert_eq!(compile(&world).unwrap().pages.len(), 1);

    let missing = VirtualId::new(&FsPath::parse("chapters/missing.typ"));
    world.change_main(missing.clone());
    let errors = compile(&world).unwrap_err();
    assert!(!errors.is_empty());
    assert!(errors[0].contains("file not found"), "{:?}", errors);
    assert!(errors[0].contains("missing.typ"), "{:?}", errors);

    // An asset under the main identifier is no source either.
    world.add_asset(missing.clone(), vec![1, 2, 3]);
    assert!(compile(&world).is_err());

    // The session goes on: with a source under the identifier the world compiles.
    world.add_source(missing.clone(), StoredSource::new(missing, "Hello".to_string()));
    assert_eq!(compile(&world).unwrap().pages.len(), 1);
    world.change_main(main);
    assert_eq!(compile(&world).unwrap().pages.len(), 1);
}

#[test]
fn sources_and_assets_reach_the_compiler() {
    let main = VirtualId::new(&FsPath::parse("main.typ"));
    let mut world = TideWorld::new(main.clone(), None, bundled_fonts());
    world.add_source(
        main.clone(),
        StoredSource::new(
            main.clone(),
            "#import \"lib/util.typ\": shout\n#shout(read(\"data/name.txt\"))".to_string(),
        ),
    );
    assert!(compile(&world).is_err());
    let util = VirtualId::new(&FsPath::parse("/lib/util.typ"));
    world.add_source(
        util.clone(),
        StoredSource::new(util, "#let shout(name) = [Hello #name!]".to_string()),
    );
    assert!(compile(&world).is_err());
    world.add_asset(VirtualId::new(&FsPath::parse("data/name.txt")), "World".as_bytes().to_vec());
    assert_eq!(compile(&world).unwrap().pages.len(), 1);
    world.remove_file(&VirtualId::new(&FsPath::parse("data/name.txt")));
    assert!(compile(&world).is_err());
}

#[test]
fn a_compiled_document_is_previewed_page_by_page() {
    let main = VirtualId::new(&FsPath::parse("main.typ"));
    let mut world = TideWorld::new(main.clone(), None, bundled_fonts());
    world.add_source(
        main.clone(),
        StoredSource::new(main, "First page\n#pagebreak()\nSecond page".to_string()),
    );
    let document = compile(&world).unwrap();
    let sizes = page_sizes(&document);
    assert_eq!(sizes.len(), 2);
    assert_eq!((sizes[0].width(), sizes[0].height()), (595_276, 841_890));

    let render = |range: Option<(usize, usize)>, zoom: u16| {
        let mut images = Vec::new();
        if let Some((first, last)) = range {
            for page in document.pages.iter().skip(first).take(last - first + 1) {
                let scale = 2.0 * f32::from(zoom) / 100.0;
                images.push(typst_render::render(page, scale).encode_png().ok());
            }
        }
        fetch(range, &sizes, &images)
    };

    // The view is lower than a page: only the first page is rendered.
    let mut preview = Preview::new();
    preview.update(PreviewMessage::Scrolled(Viewport { offset_y: 60_000, height: 500_000 }), &sizes);
    let task = preview.update(PreviewMessage::ReloadPages, &sizes);
    assert_eq!(task, PreviewTask::Fetch { pages_to_render: Some((0, 0)), zoom: 100 });
    preview.update(PreviewMessage::PagesReloaded(render(Some((0, 0)), 100)), &sizes);
    let pages = preview.pages().unwrap();
    let png = [0x89, b'P', b'N', b'G'];
    assert!(pages.page(0).unwrap().bytes().unwrap().starts_with(&png));
    assert_eq!(pages.page(1).unwrap().bytes(), None);
    assert_eq!(pages.page(1).unwrap().height(), 841_890);

    // Past the end of the first page only the second is rendered.
    preview.update(PreviewMessage::Scrolled(Viewport { offset_y: 900_000, height: 500_000 }), &sizes);
    let task = preview.update(PreviewMessage::ReloadPages, &sizes);
    assert_eq!(task, PreviewTask::Fetch { pages_to_render: Some((1, 1)), zoom: 100 });
    preview.update(PreviewMessage::PagesReloaded(render(Some((1, 1)), 100)), &sizes);
    let pages = preview.pages().unwrap();
    assert_eq!(pages.page(0).unwrap().bytes(), None);
    assert_eq!(pages.page(0).unwrap().width(), 595_276);
    assert!(pages.page(1).unwrap().bytes().unwrap().starts_with(&png));
    assert_eq!(preview.update(PreviewMessage::ReloadPages, &sizes), PreviewTask::Idle);
}

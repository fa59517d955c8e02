//! The project world: the sources and assets of a project in memory, its
//! fonts, and the file that compilation starts from.

use crate::file_manager::file::get_relative_path;
use crate::file_manager::import::load::ImportedFile;
use crate::id_map::IdMap;
use crate::identity::{to_virtual, VirtualId};
use crate::path::{FsPath, PathView};
use chrono::Datelike;
use vstd::prelude::*;

verus! {

/// What an identifier maps to: the text of a source or the bytes of an asset.
pub enum EntryView {
    Source(Seq<char>),
    Asset(Seq<u8>),
}

/// One face of a font file: the bytes of the file and the face's number.
pub struct FaceView {
    pub data: Seq<u8>,
    pub index: u32,
}

/// What a world is: its main file, its entries and its font faces.
pub struct WorldView {
    pub main: Seq<Seq<char>>,
    pub entries: Map<Seq<Seq<char>>, EntryView>,
    pub fonts: Seq<FaceView>,
}

impl WorldView {
    /// The world with `id` mapped to `entry`, whatever it mapped to before.
    pub open spec fn put(self, id: Seq<Seq<char>>, entry: EntryView) -> WorldView {
        WorldView { entries: self.entries.insert(id, entry), ..self }
    }

    /// The world with the text of the source `id` replaced. A world that has
    /// no source under `id` stays as it is.
    pub open spec fn retext(self, id: Seq<Seq<char>>, text: Seq<char>) -> WorldView {
        if self.source(id) is Some {
            self.put(id, EntryView::Source(text))
        } else {
            self
        }
    }

    /// The world without an entry for `id`.
    pub open spec fn without(self, id: Seq<Seq<char>>) -> WorldView {
        WorldView { entries: self.entries.remove(id), ..self }
    }

    /// The world with another main file.
    pub open spec fn with_main(self, id: Seq<Seq<char>>) -> WorldView {
        WorldView { main: id, ..self }
    }

    /// The text of the source under `id`.
    pub open spec fn source(self, id: Seq<Seq<char>>) -> Option<Seq<char>> {
        if self.entries.contains_key(id) {
            match self.entries[id] {
                EntryView::Source(text) => Some(text),
                EntryView::Asset(_) => None,
            }
        } else {
            None
        }
    }

    /// The bytes of the asset under `id`.
    pub open spec fn file(self, id: Seq<Seq<char>>) -> Option<Seq<u8>> {
        if self.entries.contains_key(id) {
            match self.entries[id] {
                EntryView::Source(_) => None,
                EntryView::Asset(bytes) => Some(bytes),
            }
        } else {
            None
        }
    }

    /// The face at `index`, if the catalog reaches that far.
    pub open spec fn font(self, index: int) -> Option<FaceView> {
        if 0 <= index < self.fonts.len() {
            Some(self.fonts[index])
        } else {
            None
        }
    }
}

/// Inserting the same entry twice leaves the world as inserting it once.
pub proof fn lemma_upsert_idempotent(world: WorldView, id: Seq<Seq<char>>, entry: EntryView)
    ensures
        world.put(id, entry).put(id, entry) == world.put(id, entry),
{
    assert(world.entries.insert(id, entry).insert(id, entry) =~= world.entries.insert(id, entry));
}

/// Replacing a text twice by the same text leaves the world as replacing it
/// once, and replacing the text of a source just inserted is inserting the
/// new text.
pub proof fn lemma_retext(world: WorldView, id: Seq<Seq<char>>, text: Seq<char>, next: Seq<char>)
    ensures
        world.retext(id, text).retext(id, text) == world.retext(id, text),
        world.put(id, EntryView::Source(text)).retext(id, next) == world.put(
            id,
            EntryView::Source(next),
        ),
        world.source(id) is None ==> world.retext(id, text) == world,
{
    assert(world.entries.insert(id, EntryView::Source(text)).insert(id, EntryView::Source(text))
        =~= world.entries.insert(id, EntryView::Source(text)));
    assert(world.entries.insert(id, EntryView::Source(text)).insert(id, EntryView::Source(next))
        =~= world.entries.insert(id, EntryView::Source(next)));
}

/// After a removal neither a source nor an asset is found under the
/// identifier, and every other identifier keeps what it had. Removing again
/// changes nothing.
pub proof fn lemma_removed_is_gone(world: WorldView, id: Seq<Seq<char>>, other: Seq<Seq<char>>)
    ensures
        world.without(id).source(id) is None,
        world.without(id).file(id) is None,
        other != id ==> world.without(id).source(other) == world.source(other),
        other != id ==> world.without(id).file(other) == world.file(other),
        world.without(id).without(id) == world.without(id),
{
    assert(world.entries.remove(id).remove(id) =~= world.entries.remove(id));
}

/// What is found under an identifier is what was last put there.
pub proof fn lemma_put_then_read(
    world: WorldView,
    id: Seq<Seq<char>>,
    entry: EntryView,
    other: Seq<Seq<char>>,
)
    ensures
        entry matches EntryView::Source(text) ==> world.put(id, entry).source(id) == Some(text)
            && world.put(id, entry).file(id) is None,
        entry matches EntryView::Asset(bytes) ==> world.put(id, entry).file(id) == Some(bytes)
            && world.put(id, entry).source(id) is None,
        other != id ==> world.put(id, entry).source(other) == world.source(other),
        other != id ==> world.put(id, entry).file(other) == world.file(other),
{
}

/// Why a file could not be handed out.
#[derive(Clone, Debug, PartialEq, Eq)]
pub enum FileError {
    /// Nothing is stored under the identifier; the path is the identifier's,
    /// relative to the project root.
    NotFound(FsPath),
}

/// A source file: its identifier and its text.
#[derive(Clone, Debug, PartialEq, Eq)]
pub struct Source {
    id: VirtualId,
    text: String,
}

impl Source {
    /// The identifier of the source.
    pub closed spec fn spec_id(&self) -> Seq<Seq<char>> {
        self.id@
    }

    /// The text of the source.
    pub closed spec fn spec_text(&self) -> Seq<char> {
        self.text@
    }

    /// A source with the given identifier and text.
    pub fn new(id: VirtualId, text: String) -> (source: Source)
        ensures
            source.spec_id() == id@,
            source.spec_text() == text@,
    {
        Source { id, text }
    }

    /// The identifier of the source.
    pub fn id(&self) -> (id: &VirtualId)
        ensures
            id@ == self.spec_id(),
    {
        &self.id
    }

    /// The text of the source.
    pub fn text(&self) -> (text: &str)
        ensures
            text@ == self.spec_text(),
    {
        self.text.as_str()
    }

    /// Replaces the whole text.
    pub fn replace(&mut self, text: &str)
        ensures
            final(self).spec_id() == old(self).spec_id(),
            final(self).spec_text() == text@,
    {
        self.text = String::from_str(text);
    }
}

/// One face of a font file.
#[derive(Clone, Debug, PartialEq, Eq)]
pub struct FontFace {
    data: Vec<u8>,
    index: u32,
}

impl View for FontFace {
    type V = FaceView;

    closed spec fn view(&self) -> FaceView {
        FaceView { data: self.data@, index: self.index }
    }
}

impl FontFace {
    /// The bytes of the font file that holds the face.
    pub fn data(&self) -> (data: &Vec<u8>)
        ensures
            data@ == self@.data,
    {
        &self.data
    }

    /// The number of the face within its file.
    pub fn index(&self) -> (index: u32)
        ensures
            index == self@.index,
    {
        self.index
    }

    /// A copy of the face.
    pub fn copy(&self) -> (face: FontFace)
        ensures
            face@ == self@,
    {
        FontFace { data: copy_bytes(&self.data), index: self.index }
    }
}

/// A copy of the bytes.
pub fn copy_bytes(bytes: &Vec<u8>) -> (out: Vec<u8>)
    ensures
        out@ == bytes@,
{
    let mut out: Vec<u8> = Vec::new();
    let mut i: usize = 0;
    while i < bytes.len()
        invariant
            i <= bytes.len(),
            out@ == bytes@.take(i as int),
        decreases bytes.len() - i,
    {
        out.push(bytes[i]);
        assert(bytes@.take(i + 1) =~= bytes@.take(i as int).push(bytes@[i as int]));
        i += 1;
    }
    assert(bytes@.take(bytes.len() as int) =~= bytes@);
    out
}

/// The numbers of the faces that the font parser finds and accepts in a
/// font file, in rising order as the parser walks them.
pub uninterp spec fn face_numbers(data: Seq<u8>) -> Seq<u32>;

/// The faces of one font file, each with the file's bytes.
pub open spec fn faces_of(data: Seq<u8>) -> Seq<FaceView> {
    Seq::new(face_numbers(data).len(), |i: int| FaceView { data, index: face_numbers(data)[i] })
}

/// The faces of several font files, file after file.
pub open spec fn faces_of_all(files: Seq<Vec<u8>>) -> Seq<FaceView>
    decreases files.len(),
{
    if files.len() == 0 {
        Seq::empty()
    } else {
        faces_of_all(files.drop_last()) + faces_of(files.last()@)
    }
}

/// `typst::text::Font::iter` on the bytes of a font file, keeping of each
/// font it yields the number that `Font::index` reports: the faces of the
/// file that parse, by number. A file that is no font yields none.
#[verifier::external_body]
fn parse_faces(data: &Vec<u8>) -> (numbers: Vec<u32>)
    ensures
        numbers@ == face_numbers(data@),
{
    let bytes = typst::foundations::Bytes::new(data.clone());
    typst::text::Font::iter(bytes).map(|font| font.index()).collect()
}

/// The fonts of a world, addressed by position. Built once, never changed.
#[derive(Clone, Debug, PartialEq, Eq)]
pub struct FontCatalog {
    faces: Vec<FontFace>,
}

impl View for FontCatalog {
    type V = Seq<FaceView>;

    closed spec fn view(&self) -> Seq<FaceView> {
        Seq::new(self.faces@.len(), |i: int| self.faces@[i]@)
    }
}

impl FontCatalog {
    /// A catalog without fonts.
    pub fn empty() -> (catalog: FontCatalog)
        ensures
            catalog@ == Seq::<FaceView>::empty(),
    {
        let catalog = FontCatalog { faces: Vec::new() };
        assert(catalog@ =~= Seq::<FaceView>::empty());
        catalog
    }

    /// The catalog of the bundled fonts followed by the user's. A file in
    /// which no face parses adds nothing and stops nothing.
    pub fn build(bundled: &Vec<Vec<u8>>, user: &Vec<Vec<u8>>) -> (catalog: FontCatalog)
        ensures
            catalog@ == faces_of_all(bundled@) + faces_of_all(user@),
    {
        let mut catalog = FontCatalog::empty();
        catalog.extend(bundled);
        catalog.extend(user);
        catalog
    }

    /// Adds the faces of one font file, given by their numbers, in order.
    pub fn push_faces(&mut self, data: &Vec<u8>, numbers: &Vec<u32>)
        ensures
            final(self)@ == old(self)@ + Seq::new(
                numbers@.len(),
                |i: int| FaceView { data: data@, index: numbers@[i] },
            ),
    {
        let ghost start = self@;
        let ghost wanted = Seq::new(
            numbers@.len(),
            |i: int| FaceView { data: data@, index: numbers@[i] },
        );
        let mut j: usize = 0;
        assert(start + wanted.take(0) =~= start);
        while j < numbers.len()
            invariant
                j <= numbers.len(),
                wanted == Seq::new(
                    numbers@.len(),
                    |i: int| FaceView { data: data@, index: numbers@[i] },
                ),
                self@ == start + wanted.take(j as int),
            decreases numbers.len() - j,
        {
            let ghost before = self@;
            self.faces.push(FontFace { data: copy_bytes(data), index: numbers[j] });
            proof {
                assert(self@ =~= before.push(wanted[j as int]));
                assert(wanted.take(j + 1) =~= wanted.take(j as int).push(wanted[j as int]));
            }
            j += 1;
        }
        assert(wanted.take(numbers.len() as int) =~= wanted);
    }

    fn extend(&mut self, files: &Vec<Vec<u8>>)
        ensures
            final(self)@ == old(self)@ + faces_of_all(files@),
    {
        let mut i: usize = 0;
        assert(files@.take(0) =~= Seq::<Vec<u8>>::empty());
        assert(self@ + faces_of_all(files@.take(0)) =~= self@);
        while i < files.len()
            invariant
                i <= files.len(),
                self@ == old(self)@ + faces_of_all(files@.take(i as int)),
            decreases files.len() - i,
        {
            let file = &files[i];
            let numbers = parse_faces(file);
            self.push_faces(file, &numbers);
            proof {
                assert(Seq::new(
                    numbers@.len(),
                    |k: int| FaceView { data: file@, index: numbers@[k] },
                ) =~= faces_of(file@));
                let upto = files@.take(i + 1);
                assert(upto.drop_last() =~= files@.take(i as int));
                assert(upto.last() == files@[i as int]);
                assert(self@ =~= old(self)@ + faces_of_all(upto));
            }
            i += 1;
        }
        assert(files@.take(files.len() as int) =~= files@);
    }

    /// The number of faces.
    pub fn len(&self) -> (n: usize)
        ensures
            n == self@.len(),
    {
        self.faces.len()
    }

    /// The face at `index`; none beyond the end.
    pub fn get(&self, index: usize) -> (face: Option<&FontFace>)
        ensures
            face is Some <==> index < self@.len(),
            face matches Some(f) ==> f@ == self@[index as int],
    {
        if index < self.faces.len() {
            Some(&self.faces[index])
        } else {
            None
        }
    }

    /// A copy of the catalog.
    pub fn copy(&self) -> (catalog: FontCatalog)
        ensures
            catalog@ == self@,
    {
        let mut faces: Vec<FontFace> = Vec::new();
        let mut i: usize = 0;
        while i < self.faces.len()
            invariant
                i <= self.faces.len(),
                faces@.len() == i,
                forall|k: int| 0 <= k < i ==> faces@[k]@ == self.faces@[k]@,
            decreases self.faces.len() - i,
        {
            faces.push(self.faces[i].copy());
            i += 1;
        }
        let catalog = FontCatalog { faces };
        assert(catalog@ =~= self@);
        catalog
    }
}

/// A calendar date.
#[derive(Clone, Copy, Debug, PartialEq, Eq, Structural)]
pub struct Date {
    pub year: i32,
    pub month: u8,
    pub day: u8,
}

/// The calendar date, as year, month and day, at `offset` seconds east of
/// Greenwich, `seconds` after the start of 1970 in universal time; none
/// where the calendar does not reach that far or the offset is a day or more.
pub uninterp spec fn civil_date_of(seconds: i64, offset: i32) -> Option<(i32, u32, u32)>;

/// The machine's clock, read by `std::time::SystemTime::now`, as chrono
/// counts it: `DateTime::<Utc>::from` a system time, then
/// `DateTime::timestamp`, the seconds since the start of 1970. A clock
/// that stands before 1970 is counted backwards from there. Nothing is
/// promised of a clock.
#[verifier::external_body]
fn utc_now() -> i64 {
    chrono::DateTime::<chrono::Utc>::from(std::time::SystemTime::now()).timestamp()
}

/// The offset of the machine's time zone at the given instant, in seconds
/// east, as `chrono::Local` reports it through `DateTime::with_timezone`.
/// Nothing is promised of a machine's time zone.
#[verifier::external_body]
fn local_offset(seconds: i64) -> Option<i32> {
    let now = chrono::DateTime::from_timestamp(seconds, 0)?;
    Some(now.with_timezone(&chrono::Local).offset().local_minus_utc())
}

/// `chrono::DateTime::with_timezone` to a `FixedOffset::east_opt(offset)`, on
/// the instant that `DateTime::from_timestamp` gives, read through
/// `Datelike::{year, month, day}`. The offset must lie within a day, the
/// month is between 1 and 12 and the day between 1 and 31.
#[verifier::external_body]
fn civil_date(seconds: i64, offset: i32) -> (date: Option<(i32, u32, u32)>)
    ensures
        date == civil_date_of(seconds, offset),
        date is Some ==> -86_400 < offset < 86_400,
        date matches Some(d) ==> 1 <= d.1 <= 12 && 1 <= d.2 <= 31,
{
    let zone = chrono::FixedOffset::east_opt(offset)?;
    let local = chrono::DateTime::from_timestamp(seconds, 0)?.with_timezone(&zone);
    Some((local.year(), local.month(), local.day()))
}

/// The offset in seconds east that a whole number of hours stands for: only
/// offsets of less than a day are offsets.
pub open spec fn seconds_east_of(hours: i64) -> Option<i32> {
    if -24 < hours < 24 {
        Some((hours * 3600) as i32)
    } else {
        None
    }
}

/// The offset in seconds east for an offset in hours.
pub fn seconds_east(hours: i64) -> (seconds: Option<i32>)
    ensures
        seconds == seconds_east_of(hours),
{
    if -24 < hours && hours < 24 {
        let narrow: i32 = hours as i32;
        Some(narrow * 3600)
    } else {
        None
    }
}

/// The date that year, month and day make, where month and day are small
/// enough to be written down.
pub open spec fn date_of(civil: Option<(i32, u32, u32)>) -> Option<Date> {
    match civil {
        Some((year, month, day)) => if month <= 255 && day <= 255 {
            Some(Date { year, month: month as u8, day: day as u8 })
        } else {
            None
        },
        None => None,
    }
}

/// The date that year, month and day make.
pub fn to_date(civil: Option<(i32, u32, u32)>) -> (date: Option<Date>)
    ensures
        date == date_of(civil),
{
    match civil {
        Some((year, month, day)) => {
            if month <= 255 && day <= 255 {
                Some(Date { year, month: month as u8, day: day as u8 })
            } else {
                None
            }
        },
        None => None,
    }
}

/// The date at `offset` seconds east, `now` seconds after the start of 1970.
pub fn date_at(now: i64, offset: i32) -> (date: Option<Date>)
    ensures
        date == date_of(civil_date_of(now, offset)),
        date is Some ==> -86_400 < offset < 86_400,
        date matches Some(d) ==> 1 <= d.month <= 12 && 1 <= d.day <= 31,
{
    to_date(civil_date(now, offset))
}

/// The date for a compiler's question, `now` seconds after the start of
/// 1970: at the asked offset in hours, if that is an offset, or, where none
/// is asked, at the machine's own offset `local`, if the machine has one.
pub open spec fn date_for_of(now: i64, local: Option<i32>, offset: Option<i64>) -> Option<Date> {
    match offset {
        Some(hours) => match seconds_east_of(hours) {
            Some(seconds) => date_of(civil_date_of(now, seconds)),
            None => None,
        },
        None => match local {
            Some(seconds) => date_of(civil_date_of(now, seconds)),
            None => None,
        },
    }
}

/// The date for a compiler's question: at the asked offset in hours, or at
/// the machine's own offset where none is asked.
pub fn date_for(now: i64, local: Option<i32>, offset: Option<i64>) -> (date: Option<Date>)
    ensures
        date == date_for_of(now, local, offset),
        date matches Some(d) ==> 1 <= d.month <= 12 && 1 <= d.day <= 31,
{
    let seconds = match offset {
        Some(hours) => seconds_east(hours),
        None => local,
    };
    match seconds {
        Some(seconds) => date_at(now, seconds),
        None => None,
    }
}

/// The sources and the assets of a project. No identifier has both.
#[derive(Clone, Debug)]
struct Files {
    assets: IdMap<Vec<u8>>,
    sources: IdMap<String>,
}

/// The world handed to the compiler: a virtual file system, the fonts and
/// the main file.
#[derive(Clone, Debug)]
pub struct TideWorld {
    main: VirtualId,
    fonts: FontCatalog,
    files: Files,
}

/// The entries that a map of sources and a map of assets stand for.
pub open spec fn entries_of(
    sources: Map<Seq<Seq<char>>, Seq<char>>,
    assets: Map<Seq<Seq<char>>, Seq<u8>>,
) -> Map<Seq<Seq<char>>, EntryView> {
    Map::new(
        |k: Seq<Seq<char>>| sources.contains_key(k) || assets.contains_key(k),
        |k: Seq<Seq<char>>|
            if sources.contains_key(k) {
                EntryView::Source(sources[k])
            } else {
                EntryView::Asset(assets[k])
            },
    )
}

impl View for TideWorld {
    type V = WorldView;

    closed spec fn view(&self) -> WorldView {
        WorldView {
            main: self.main@,
            entries: entries_of(self.files.sources@, self.files.assets@),
            fonts: self.fonts@,
        }
    }
}

impl TideWorld {
    /// The store is sound: each identifier once, and as a source or as an
    /// asset, never both.
    pub closed spec fn wf(&self) -> bool {
        &&& self.files.sources.wf()
        &&& self.files.assets.wf()
        &&& forall|k: Seq<Seq<char>>|
            !(self.files.sources@.contains_key(k) && self.files.assets@.contains_key(k))
    }

    /// How many sources the world holds.
    pub open spec fn source_count(world: WorldView) -> nat {
        world.entries.dom().filter(|k: Seq<Seq<char>>| world.entries[k] is Source).len()
    }

    /// How many assets the world holds.
    pub open spec fn asset_count(world: WorldView) -> nat {
        world.entries.dom().filter(|k: Seq<Seq<char>>| world.entries[k] is Asset).len()
    }

    /// A world with the given main file, assets and fonts, and no source.
    /// Of two assets under one identifier the later one stays.
    pub fn new(
        main: VirtualId,
        assets: Option<Vec<(VirtualId, Vec<u8>)>>,
        fonts: FontCatalog,
    ) -> (world: TideWorld)
        ensures
            world.wf(),
            world@.main == main@,
            world@.fonts == fonts@,
            world@.entries == match assets {
                Some(list) => assets_of(list@),
                None => Map::<Seq<Seq<char>>, EntryView>::empty(),
            },
    {
        let mut world = TideWorld {
            main,
            fonts,
            files: Files { assets: IdMap::new(), sources: IdMap::new() },
        };
        assert(world@.entries =~= Map::<Seq<Seq<char>>, EntryView>::empty());
        if let Some(list) = assets {
            let mut i: usize = 0;
            assert(list@.take(0) =~= Seq::<(VirtualId, Vec<u8>)>::empty());
            while i < list.len()
                invariant
                    i <= list.len(),
                    world.wf(),
                    world@.main == main@,
                    world@.fonts == fonts@,
                    world@.entries == assets_of(list@.take(i as int)),
                decreases list.len() - i,
            {
                proof {
                    let upto = list@.take(i + 1);
                    assert(upto.drop_last() =~= list@.take(i as int));
                    assert(upto.last() == list@[i as int]);
                }
                world.add_asset(list[i].0.copy(), copy_bytes(&list[i].1));
                i += 1;
            }
            assert(list@.take(list.len() as int) =~= list@);
        }
        world
    }

    /// The identifier of the file at `path` in the project at `root`; none
    /// for a path that does not lie under the root.
    pub fn id_from_path(path: &FsPath, root: &FsPath) -> (id: Option<VirtualId>)
        ensures
            match to_virtual(root@, path@) {
                Some(parts) => id matches Some(found) && found@ == parts,
                None => id is None,
            },
    {
        match get_relative_path(root, path) {
            Some(relative) => {
                let id = VirtualId::new(&relative);
                Some(id)
            },
            None => None,
        }
    }

    /// The main file.
    pub fn main(&self) -> (id: &VirtualId)
        ensures
            id@ == self@.main,
    {
        &self.main
    }

    /// Replaces the text of the source under `id`. Where the world has no
    /// source under `id`, nothing happens.
    pub fn reload_source_from_content(&mut self, id: &VirtualId, content: &str)
        requires
            old(self).wf(),
        ensures
            final(self).wf(),
            final(self)@ == old(self)@.retext(id@, content@),
    {
        if self.files.sources.contains_key(id) {
            self.files.sources.insert(id.copy(), String::from_str(content));
            proof {
                assert(self@.entries =~= old(self)@.entries.insert(
                    id@,
                    EntryView::Source(content@),
                ));
            }
        }
    }

    /// Stores a source under `file_id`, in place of whatever was there.
    pub fn add_source(&mut self, file_id: VirtualId, source: Source)
        requires
            old(self).wf(),
        ensures
            final(self).wf(),
            final(self)@ == old(self)@.put(file_id@, EntryView::Source(source.spec_text())),
    {
        self.files.assets.remove(&file_id);
        let text = String::from_str(source.text());
        self.files.sources.insert(file_id, text);
        proof {
            assert(self@.entries =~= old(self)@.entries.insert(
                file_id@,
                EntryView::Source(source.spec_text()),
            ));
        }
    }

    /// Stores an asset under `file_id`, in place of whatever was there.
    pub fn add_asset(&mut self, file_id: VirtualId, asset: Vec<u8>)
        requires
            old(self).wf(),
        ensures
            final(self).wf(),
            final(self)@ == old(self)@.put(file_id@, EntryView::Asset(asset@)),
    {
        self.files.sources.remove(&file_id);
        self.files.assets.insert(file_id, asset);
        proof {
            assert(self@.entries =~= old(self)@.entries.insert(
                file_id@,
                EntryView::Asset(asset@),
            ));
        }
    }

    /// Stores an imported file under its identifier.
    pub fn add_file(&mut self, file: ImportedFile)
        requires
            old(self).wf(),
        ensures
            final(self).wf(),
            final(self)@ == old(self)@.put(file.spec_id(), file.spec_entry()),
    {
        match file {
            ImportedFile::Asset { file_id, bytes } => {
                self.add_asset(file_id, bytes);
            },
            ImportedFile::TypstSource { file_id, source } => {
                self.add_source(file_id, source);
            },
        }
    }

    /// Makes `id` the main file, whether or not anything is stored under it.
    pub fn change_main(&mut self, id: VirtualId)
        requires
            old(self).wf(),
        ensures
            final(self).wf(),
            final(self)@ == old(self)@.with_main(id@),
    {
        self.main = id;
    }

    /// Removes what is stored under `id`, source or asset.
    pub fn remove_file(&mut self, id: &VirtualId)
        requires
            old(self).wf(),
        ensures
            final(self).wf(),
            final(self)@ == old(self)@.without(id@),
    {
        self.files.assets.remove(id);
        self.files.sources.remove(id);
        proof {
            assert(self@.entries =~= old(self)@.entries.remove(id@));
        }
    }

    /// The source under `id`.
    pub fn source(&self, id: &VirtualId) -> (found: Result<Source, FileError>)
        requires
            self.wf(),
        ensures
            match self@.source(id@) {
                Some(text) => found matches Ok(source) && source.spec_id() == id@
                    && source.spec_text() == text,
                None => found matches Err(FileError::NotFound(path)) && path@ == (PathView {
                    absolute: false,
                    parts: id@,
                }),
            },
    {
        match self.files.sources.get(id) {
            Some(text) => Ok(Source::new(id.copy(), text.clone())),
            None => Err(FileError::NotFound(id.as_rootless_path())),
        }
    }

    /// The bytes of the asset under `id`.
    pub fn file(&self, id: &VirtualId) -> (found: Result<Vec<u8>, FileError>)
        requires
            self.wf(),
        ensures
            match self@.file(id@) {
                Some(bytes) => found matches Ok(data) && data@ == bytes,
                None => found matches Err(FileError::NotFound(path)) && path@ == (PathView {
                    absolute: false,
                    parts: id@,
                }),
            },
    {
        match self.files.assets.get(id) {
            Some(bytes) => Ok(copy_bytes(bytes)),
            None => Err(FileError::NotFound(id.as_rootless_path())),
        }
    }

    /// The font face at `index`; none beyond the end of the catalog.
    pub fn font(&self, index: usize) -> (face: Option<FontFace>)
        ensures
            match self@.font(index as int) {
                Some(view) => face matches Some(f) && f@ == view,
                None => face is None,
            },
    {
        match self.fonts.get(index) {
            Some(face) => Some(face.copy()),
            None => None,
        }
    }

    /// Today's date at an offset of whole hours from universal time, or at
    /// the machine's own offset where none is given. An offset of a day or
    /// more is no offset and has no date. The date is the one that
    /// `date_for` gives for the instant that the clock shows and, where no
    /// offset is given, for the offset that the machine reports.
    pub fn today(&self, offset: Option<i64>) -> (date: Option<Date>)
        ensures
            exists|now: i64, local: Option<i32>|
                date == #[trigger] date_for_of(now, local, offset) && (offset is Some ==> local
                    is None),
            offset matches Some(hours) && seconds_east_of(hours) is None ==> date is None,
            date matches Some(d) ==> 1 <= d.month <= 12 && 1 <= d.day <= 31,
    {
        let now = utc_now();
        let local = match offset {
            Some(_) => None,
            None => local_offset(now),
        };
        let date = date_for(now, local, offset);
        assert(date == date_for_of(now, local, offset));
        date
    }

    /// The number of sources.
    pub fn sources_len(&self) -> (n: usize)
        requires
            self.wf(),
        ensures
            n == Self::source_count(self@),
    {
        proof {
            let world = self@;
            assert(world.entries.dom().filter(|k: Seq<Seq<char>>| world.entries[k] is Source)
                =~= self.files.sources@.dom());
        }
        self.files.sources.len()
    }

    /// The number of assets.
    pub fn assets_len(&self) -> (n: usize)
        requires
            self.wf(),
        ensures
            n == Self::asset_count(self@),
    {
        proof {
            let world = self@;
            assert(world.entries.dom().filter(|k: Seq<Seq<char>>| world.entries[k] is Asset)
                =~= self.files.assets@.dom());
        }
        self.files.assets.len()
    }

    /// An independent copy of the world, to hand to a task that runs beside
    /// the session: nothing done to one shows in the other.
    pub fn snapshot_clone(&self) -> (copy: TideWorld)
        requires
            self.wf(),
        ensures
            copy.wf(),
            copy@ == self@,
    {
        TideWorld {
            main: self.main.copy(),
            fonts: self.fonts.copy(),
            files: Files { assets: self.files.assets.copy(), sources: self.files.sources.copy() },
        }
    }
}

/// The entries that a list of assets stands for: of two assets under one
/// identifier, the later.
pub open spec fn assets_of(list: Seq<(VirtualId, Vec<u8>)>) -> Map<Seq<Seq<char>>, EntryView>
    decreases list.len(),
{
    if list.len() == 0 {
        Map::empty()
    } else {
        assets_of(list.drop_last()).insert(list.last().0@, EntryView::Asset(list.last().1@))
    }
}

} // verus!

use tide::file_manager::import::load::ImportedFile;
use tide::identity::VirtualId;
use tide::path::FsPath;
use tide::world::{
    date_at, date_for, seconds_east, to_date, Date, FileError, FontCatalog, Source, TideWorld,
};

fn id(path: &str) -> VirtualId {
    VirtualId::new(&FsPath::parse(path))
}

fn init_world() -> TideWorld {
    let main_file_id = id("main");
    let mut world = TideWorld::new(main_file_id.clone(), None, FontCatalog::empty());
    let main = Source::new(main_file_id.clone(), String::from("= Hello World"));
    world.add_source(main_file_id, main);
    world
}

#[test]
fn test_add_file() {
    let mut world = init_world();

    let new_file_id = id("new_file.typ");
    world.add_file(ImportedFile::TypstSource {
        file_id: new_file_id.clone(),
        source: Source::new(new_file_id.clone(), String::from("*test*")),
    });
    assert!(world.source(&new_file_id).is_ok());
    assert_eq!(world.source(&new_file_id).unwrap().text(), "*test*");

    let asset_file_id = id("fake_asset.svg");
    world.add_file(ImportedFile::Asset {
        file_id: asset_file_id.clone(),
        bytes: "fake SVG".as_bytes().to_vec(),
    });
    assert!(world.file(&asset_file_id).is_ok());
    assert!(world.source(&asset_file_id).is_err());
    assert_eq!(world.file(&asset_file_id).unwrap().len(), "fake SVG".len());

    assert_eq!(world.assets_len(), 1);
    assert_eq!(world.sources_len(), 2);
}

#[test]
fn test_remove_file() {
    let mut world = init_world();

    let new_file_id = id("new_file.typ");
    let asset_file_id = id("fake_asset.svg");
    world.add_source(
        new_file_id.clone(),
        Source::new(new_file_id.clone(), String::from("*test*")),
    );
    assert!(world.source(&new_file_id).is_ok());
    world.add_asset(asset_file_id.clone(), "fake SVG".as_bytes().to_vec());
    assert!(world.file(&asset_file_id).is_ok());

    world.remove_file(&new_file_id);
    assert!(world.source(&new_file_id).is_err());
    world.remove_file(&asset_file_id);
    assert!(world.file(&asset_file_id).is_err());
}

#[test]
fn test_main() {
    let mut world = init_world();
    assert_eq!(world.main(), &id("main"));

    let new_file_id = id("new_file.typ");
    world.add_source(
        new_file_id.clone(),
        Source::new(new_file_id.clone(), String::from("*test*")),
    );
    world.change_main(new_file_id.clone());
    assert_eq!(world.main(), &new_file_id);
}

#[test]
fn test_reload_source() {
    let mut world = init_world();
    let main = world.main().clone();
    assert!(world.source(&main).is_ok());
    assert_eq!(world.source(&main).unwrap().text(), "= Hello World");

    world.reload_source_from_content(&main, "= Text modified\n");
    assert!(world.source(&main).is_ok());
    assert_eq!(world.source(&main).unwrap().text(), "= Text modified\n");
}

#[test]
fn reload_of_a_missing_source_changes_nothing() {
    let mut world = init_world();
    let missing = id("missing.typ");
    world.reload_source_from_content(&missing, "text");
    assert!(world.source(&missing).is_err());
    assert_eq!(world.sources_len(), 1);
    assert_eq!(world.assets_len(), 0);

    let asset = id("image.png");
    world.add_asset(asset.clone(), vec![1, 2, 3]);
    world.reload_source_from_content(&asset, "text");
    assert_eq!(world.file(&asset).unwrap(), vec![1, 2, 3]);
    assert!(world.source(&asset).is_err());
}

#[test]
fn upsert_is_idempotent() {
    let file = id("chapter.typ");
    let mut once = init_world();
    once.add_source(file.clone(), Source::new(file.clone(), String::from("text")));
    let mut twice = init_world();
    twice.add_source(file.clone(), Source::new(file.clone(), String::from("text")));
    twice.add_source(file.clone(), Source::new(file.clone(), String::from("text")));
    assert_eq!(once.sources_len(), twice.sources_len());
    assert_eq!(once.assets_len(), twice.assets_len());
    assert_eq!(once.source(&file), twice.source(&file));
    assert_eq!(once.source(&id("main")), twice.source(&id("main")));
}

#[test]
fn insert_overwrites_across_kinds() {
    let file = id("thing");
    let mut world = init_world();
    world.add_asset(file.clone(), vec![7]);
    world.add_source(file.clone(), Source::new(file.clone(), String::from("now text")));
    assert!(world.file(&file).is_err());
    assert_eq!(world.source(&file).unwrap().text(), "now text");
    assert_eq!(world.assets_len(), 0);
    world.add_asset(file.clone(), vec![8, 9]);
    assert!(world.source(&file).is_err());
    assert_eq!(world.file(&file).unwrap(), vec![8, 9]);
    assert_eq!(world.sources_len(), 1);
}

#[test]
fn removed_file_is_not_found() {
    let mut world = init_world();
    let main = id("main");
    world.remove_file(&main);
    assert_eq!(world.source(&main), Err(FileError::NotFound(FsPath::parse("main"))));
    assert_eq!(world.file(&main), Err(FileError::NotFound(FsPath::parse("main"))));
    world.remove_file(&main);
    assert_eq!(world.sources_len(), 0);
}

#[test]
fn main_without_source_is_not_found() {
    let mut world = init_world();
    let ghost_main = id("sub/ghost.typ");
    world.change_main(ghost_main.clone());
    assert_eq!(world.main(), &ghost_main);
    let main = world.main().clone();
    assert_eq!(
        world.source(&main),
        Err(FileError::NotFound(FsPath::parse("sub/ghost.typ")))
    );
    // The session goes on: the world still answers for what it has.
    assert!(world.source(&id("main")).is_ok());
    world.add_source(ghost_main.clone(), Source::new(ghost_main.clone(), String::from("x")));
    assert!(world.source(&main).is_ok());
}

#[test]
fn snapshot_is_independent() {
    let mut world = init_world();
    let copy = world.snapshot_clone();
    world.reload_source_from_content(&id("main"), "changed");
    world.add_asset(id("a.png"), vec![1]);
    assert_eq!(copy.source(&id("main")).unwrap().text(), "= Hello World");
    assert!(copy.file(&id("a.png")).is_err());
    assert_eq!(copy.main(), &id("main"));
}

#[test]
fn new_world_takes_assets_and_later_ones_win() {
    let a = id("a.png");
    let world = TideWorld::new(
        id("main.typ"),
        Some(vec![(a.clone(), vec![1]), (id("b.png"), vec![2]), (a.clone(), vec![3])]),
        FontCatalog::empty(),
    );
    assert_eq!(world.assets_len(), 2);
    assert_eq!(world.file(&a).unwrap(), vec![3]);
    assert_eq!(world.sources_len(), 0);
}

#[test]
fn fonts_are_addressed_by_position() {
    let bundled: Vec<Vec<u8>> = typst_assets::fonts().map(|font| font.to_vec()).collect();
    assert!(!bundled.is_empty());
    let broken = vec![b"this is no font".to_vec(), Vec::new()];
    let catalog = FontCatalog::build(&bundled, &broken);
    let only_bundled = FontCatalog::build(&bundled, &Vec::new());
    assert!(catalog.len() >= bundled.len());
    assert_eq!(catalog.len(), only_bundled.len());
    assert_eq!(FontCatalog::build(&broken, &Vec::new()).len(), 0);

    let first = catalog.get(0).unwrap();
    assert_eq!(first.data(), &bundled[0]);
    assert_eq!(first.index(), 0);

    let world = TideWorld::new(id("main.typ"), None, catalog);
    assert!(world.font(0).is_some());
    assert_eq!(world.font(0).unwrap().data(), &bundled[0]);
    assert!(world.font(only_bundled.len()).is_none());
    assert!(world.font(usize::MAX).is_none());
}

#[test]
fn user_fonts_follow_bundled_fonts() {
    let fonts: Vec<Vec<u8>> = typst_assets::fonts().map(|font| font.to_vec()).collect();
    let first = vec![fonts[0].clone()];
    let second = vec![fonts[1].clone()];
    let catalog = FontCatalog::build(&first, &second);
    let n = FontCatalog::build(&first, &Vec::new()).len();
    assert!(n >= 1);
    assert_eq!(catalog.get(0).unwrap().data(), &fonts[0]);
    assert_eq!(catalog.get(n).unwrap().data(), &fonts[1]);
}

#[test]
fn offsets_of_a_day_or_more_are_refused() {
    assert_eq!(seconds_east(0), Some(0));
    assert_eq!(seconds_east(23), Some(82_800));
    assert_eq!(seconds_east(-23), Some(-82_800));
    assert_eq!(seconds_east(24), None);
    assert_eq!(seconds_east(-24), None);
    assert_eq!(seconds_east(i64::MAX), None);
    assert_eq!(seconds_east(i64::MIN), None);
}

#[test]
fn dates_follow_the_offset() {
    assert_eq!(date_at(0, 0), Some(Date { year: 1970, month: 1, day: 1 }));
    assert_eq!(date_at(0, -3600), Some(Date { year: 1969, month: 12, day: 31 }));
    assert_eq!(date_at(86_399, 0), Some(Date { year: 1970, month: 1, day: 1 }));
    assert_eq!(date_at(86_399, 1), Some(Date { year: 1970, month: 1, day: 2 }));
    assert_eq!(date_at(1_709_164_800, 0), Some(Date { year: 2024, month: 2, day: 29 }));
    assert_eq!(date_at(0, 86_400), None);
    assert_eq!(date_at(0, -86_400), None);
    assert_eq!(date_at(i64::MAX, 0), None);

    assert_eq!(
        date_for(1_709_164_800, None, Some(23)),
        Some(Date { year: 2024, month: 2, day: 29 })
    );
    assert_eq!(
        date_for(1_709_164_800 + 3600, None, Some(23)),
        Some(Date { year: 2024, month: 3, day: 1 })
    );
    assert_eq!(date_for(0, Some(0), Some(24)), None);
    assert_eq!(date_for(0, None, None), None);
    assert_eq!(
        date_for(0, Some(-60), None),
        Some(Date { year: 1969, month: 12, day: 31 })
    );
}

#[test]
fn dates_are_made_of_year_month_and_day() {
    assert_eq!(to_date(Some((2024, 2, 29))), Some(Date { year: 2024, month: 2, day: 29 }));
    assert_eq!(to_date(Some((-44, 3, 15))), Some(Date { year: -44, month: 3, day: 15 }));
    assert_eq!(to_date(Some((1, 255, 255))), Some(Date { year: 1, month: 255, day: 255 }));
    assert_eq!(to_date(Some((1, 256, 1))), None);
    assert_eq!(to_date(Some((1, 1, 256))), None);
    assert_eq!(to_date(None), None);
}

#[test]
fn faces_are_added_by_number() {
    let mut catalog = FontCatalog::empty();
    catalog.push_faces(&vec![1, 2, 3], &vec![0, 2]);
    catalog.push_faces(&vec![9], &Vec::new());
    catalog.push_faces(&vec![4], &vec![7]);
    assert_eq!(catalog.len(), 3);
    assert_eq!((catalog.get(0).unwrap().data(), catalog.get(0).unwrap().index()), (&vec![1, 2, 3], 0));
    assert_eq!((catalog.get(1).unwrap().data(), catalog.get(1).unwrap().index()), (&vec![1, 2, 3], 2));
    assert_eq!((catalog.get(2).unwrap().data(), catalog.get(2).unwrap().index()), (&vec![4], 7));
    assert!(catalog.get(3).is_none());
    assert_eq!(catalog.copy(), catalog);
}

#[test]
fn today_answers_for_valid_offsets_only() {
    let world = init_world();
    assert_eq!(world.today(Some(24)), None);
    assert_eq!(world.today(Some(-24)), None);
    assert_eq!(world.today(Some(i64::MAX)), None);
    let utc = world.today(Some(0)).unwrap();
    assert!(utc.year >= 2024);
    assert!((1..=12).contains(&utc.month));
    assert!((1..=31).contains(&utc.day));
    assert!(world.today(Some(-23)).is_some());
    assert!(world.today(None).is_some());
}

use tide::data::config::appearance::{closing_of, default_pairs};
use tide::data::config::serialization::{color_to_hex, hex_to_color, Rgba};
use tide::editor::autocomplete::{apply_to, autocomplete, complete_word, starts_with, Completion};
use tide::editor::buffer::Buffer;
use tide::file_manager::export::errors::{append_text, ExportError};
use tide::file_manager::export::pdf::pdf_path;
use tide::file_manager::export::svg::{decimal, svg_base_name, svg_file_name};
use tide::file_manager::export::template::template_path;
use tide::file_manager::export::ExportType;
use tide::file_manager::import::UploadType;
use tide::order::{comes_before, sort_order};
use tide::path::{extension_in, same_strings, copy_strings, FsPath};
use tide::text::{chars_of, join_text, same_text, split_text};

fn completion(label: &str, apply: Option<&str>) -> Completion {
    Completion {
        kind: "Func".to_string(),
        label: label.to_string(),
        apply: apply.map(|a| a.to_string()),
        detail: None,
    }
}

fn strings(items: &[&str]) -> Vec<String> {
    items.iter().map(|s| s.to_string()).collect()
}

#[test]
fn texts_are_split_and_joined() {
    assert_eq!(split_text("a,b,,c", ','), strings(&["a", "b", "", "c"]));
    assert_eq!(split_text("", ','), strings(&[""]));
    assert_eq!(split_text(",", ','), strings(&["", ""]));
    assert_eq!(split_text("abc", ','), strings(&["abc"]));
    assert_eq!(split_text("h\u{e9},\u{4e16}", ','), strings(&["h\u{e9}", "\u{4e16}"]));
    assert_eq!(join_text(&strings(&["a", "b", "", "c"]), ','), "a,b,,c");
    assert_eq!(join_text(&strings(&[]), ','), "");
    assert_eq!(join_text(&strings(&["only"]), ','), "only");
    assert_eq!(join_text(&strings(&["", ""]), '/'), "/");
    assert_eq!(chars_of("h\u{e9}!"), vec!['h', '\u{e9}', '!']);
    assert!(same_text("abc", "abc"));
    assert!(!same_text("abc", "abd"));
    assert!(!same_text("abc", "ab"));
    assert_eq!(append_text("ab", "cd"), "abcd");
    assert_eq!(append_text("", ""), "");
    assert!(same_strings(&strings(&["a", "b"]), &strings(&["a", "b"])));
    assert!(!same_strings(&strings(&["a", "b"]), &strings(&["a"])));
    assert_eq!(copy_strings(&strings(&["x", "y"])), strings(&["x", "y"]));
    assert_eq!(extension_in("a.b.c"), Some("c".to_string()));
    assert_eq!(extension_in("abc"), None);
}

#[test]
fn names_are_compared_letter_by_letter() {
    assert!(comes_before("a", "b", false));
    assert!(!comes_before("b", "a", false));
    assert!(comes_before("a", "a", false));
    assert!(comes_before("", "a", false));
    assert!(!comes_before("a", "", false));
    assert!(comes_before("ab", "abc", false));
    assert!(comes_before("B", "a", false));
    assert!(!comes_before("B", "a", true));
    assert!(comes_before("a", "B", true));
    assert!(comes_before("ABC", "abc", true));
    assert!(comes_before("abc", "ABC", true));
    assert!(!comes_before("abc", "ABC", false));
    assert!(comes_before("Z", "[", true) == comes_before("z", "[", false));
}

#[test]
fn sorting_is_stable() {
    let names = strings(&["pear", "Apple", "apple", "fig", "APPLE", "banana"]);
    assert_eq!(sort_order(&names, true), vec![1, 2, 4, 5, 3, 0]);
    assert_eq!(sort_order(&names, false), vec![4, 1, 2, 5, 3, 0]);
    assert_eq!(sort_order(&Vec::new(), true), Vec::<usize>::new());
    assert_eq!(sort_order(&strings(&["x"]), false), vec![0]);
    assert_eq!(sort_order(&strings(&["b", "a", "b", "a"]), false), vec![1, 3, 0, 2]);
}

#[test]
fn colours_are_read() {
    assert_eq!(hex_to_color("#000000"), Some(Rgba { r: 0, g: 0, b: 0, a: 255 }));
    assert_eq!(hex_to_color("#FFAA00"), Some(Rgba { r: 255, g: 170, b: 0, a: 255 }));
    assert_eq!(hex_to_color("#ffaa0080"), Some(Rgba { r: 255, g: 170, b: 0, a: 128 }));
    assert_eq!(hex_to_color("#0a0B0c0D"), Some(Rgba { r: 10, g: 11, b: 12, a: 13 }));
    assert_eq!(hex_to_color("#FFAA00ZZ"), Some(Rgba { r: 255, g: 170, b: 0, a: 255 }));
    assert_eq!(hex_to_color("#+1+2+3"), Some(Rgba { r: 1, g: 2, b: 3, a: 255 }));
    assert_eq!(hex_to_color(""), None);
    assert_eq!(hex_to_color("#FFF"), None);
    assert_eq!(hex_to_color("FFAA000"), None);
    assert_eq!(hex_to_color("#FFAA0"), None);
    assert_eq!(hex_to_color("#FFAA000"), None);
    assert_eq!(hex_to_color("#GGAA00"), None);
    assert_eq!(hex_to_color("#FF-100"), None);
    assert_eq!(hex_to_color("#F+AA00"), None);
    assert_eq!(hex_to_color("#\u{e9}FAA00"), None);
}

#[test]
fn colours_are_written_and_read_back() {
    assert_eq!(color_to_hex(Rgba { r: 255, g: 170, b: 0, a: 255 }), "#FFAA00");
    assert_eq!(color_to_hex(Rgba { r: 0, g: 1, b: 16, a: 254 }), "#000110FE");
    assert_eq!(color_to_hex(Rgba { r: 9, g: 10, b: 159, a: 0 }), "#090A9F00");
    for value in [0u8, 1, 9, 10, 15, 16, 127, 128, 200, 254, 255] {
        for alpha in [0u8, 77, 254, 255] {
            let colour = Rgba { r: value, g: 255 - value, b: value / 2, a: alpha };
            assert_eq!(hex_to_color(&color_to_hex(colour)), Some(colour));
        }
    }
}

#[test]
fn pairs_close_what_was_opened() {
    let pairs = default_pairs();
    assert_eq!(pairs, vec![('(', ')'), ('"', '"'), ('[', ']'), ('{', '}')]);
    assert_eq!(closing_of(&pairs, '('), Some(')'));
    assert_eq!(closing_of(&pairs, '"'), Some('"'));
    assert_eq!(closing_of(&pairs, '['), Some(']'));
    assert_eq!(closing_of(&pairs, '{'), Some('}'));
    assert_eq!(closing_of(&pairs, ')'), None);
    assert_eq!(closing_of(&pairs, 'a'), None);
    assert_eq!(closing_of(&vec![('<', '>'), ('<', ')')], '<'), Some('>'));
}

#[test]
fn completions_are_narrowed_by_what_was_typed() {
    let available = vec![
        completion("image", Some("image(${})")),
        completion("label", None),
        completion("import", None),
        completion("Image", None),
    ];
    assert_eq!(
        complete_word("im", &available),
        Some(vec![available[0].clone(), available[2].clone()])
    );
    assert_eq!(complete_word("x", &available), Some(Vec::new()));
    assert_eq!(complete_word("", &available), Some(available.clone()));
    assert_eq!(complete_word("image", &available), Some(vec![available[0].clone()]));
    assert_eq!(complete_word("images", &available), Some(Vec::new()));
    assert!(starts_with("image", "ima"));
    assert!(starts_with("image", ""));
    assert!(!starts_with("ima", "image"));
    assert!(!starts_with("image", "imx"));

    assert_eq!(autocomplete(3, None, available.clone()), None);
    assert_eq!(autocomplete(3, Some(""), available.clone()), Some((3, available.clone())));
    assert_eq!(
        autocomplete(1, Some("la"), available.clone()),
        Some((1, vec![available[1].clone()]))
    );
    assert_eq!(autocomplete(1, Some("zz"), available.clone()), Some((1, Vec::new())));
}

#[test]
fn completions_are_listed_on_a_line() {
    let mut image = completion("image", Some("image(${})"));
    assert_eq!(image.to_string(), "(Func) image - no description...");
    image.detail = Some("An image.".to_string());
    assert_eq!(image.to_string(), "(Func) image - An image.");
}

#[test]
fn a_completion_is_pasted_without_what_stands_already() {
    let image = completion("image", Some("image(${})"));
    assert_eq!(apply_to(&image, 4, 1), "ge(${})");
    assert_eq!(apply_to(&image, 1, 1), "image(${})");
    assert_eq!(apply_to(&image, 11, 1), "");
    assert_eq!(apply_to(&image, 12, 1), "");
    assert_eq!(apply_to(&image, 0, 1), "");
    let label = completion("label", None);
    assert_eq!(apply_to(&label, 7, 5), "bel");
    // What is typed is counted in bytes, as the cursor is.
    let accented = completion("caf\u{e9}s", None);
    assert_eq!(apply_to(&accented, 3, 0), "\u{e9}s");
    assert_eq!(apply_to(&accented, 5, 0), "s");
    assert_eq!(apply_to(&accented, 6, 0), "");
    assert_eq!(apply_to(&accented, 7, 0), "");
    // Four bytes end inside the accented letter.
    assert_eq!(apply_to(&accented, 4, 0), "");
    let wide = completion("\u{4e16}\u{1f600}x", Some("\u{e9}\u{4e16}\u{1f600}x"));
    assert_eq!(apply_to(&wide, 2, 0), "\u{4e16}\u{1f600}x");
    assert_eq!(apply_to(&wide, 5, 0), "\u{1f600}x");
    assert_eq!(apply_to(&wide, 9, 0), "x");
    assert_eq!(apply_to(&wide, 8, 0), "");
    for typed in 0..12 {
        let apply = "\u{e9}\u{4e16}\u{1f600}x";
        let expected = if apply.is_char_boundary(typed) { &apply[typed..] } else { "" };
        assert_eq!(apply_to(&wide, 100 + typed, 100), expected);
    }
}

#[test]
fn buffers_know_whether_they_are_saved() {
    assert_eq!(Buffer::new(), Buffer { content: String::new(), is_saved: false });
    assert!(!Buffer::from_content("x".to_string()).is_saved);
    let mut loaded = Buffer::from_path("on disk".to_string());
    assert!(loaded.is_saved);
    assert_eq!(loaded.content, "on disk");
    loaded.fill("other".to_string());
    assert_eq!(loaded.content, "other");
    assert!(loaded.is_saved);
    assert_eq!(loaded.copy(), loaded);
}

#[test]
fn exports_are_written_where_the_user_said() {
    assert_eq!(pdf_path(&FsPath::parse("/out/report")), FsPath::parse("/out/report.pdf"));
    assert_eq!(pdf_path(&FsPath::parse("/out/report.typ")), FsPath::parse("/out/report.pdf"));
    assert_eq!(pdf_path(&FsPath::parse("/out/a.b.c")), FsPath::parse("/out/a.b.pdf"));
    assert_eq!(pdf_path(&FsPath::parse("/out/.hidden")), FsPath::parse("/out/.hidden.pdf"));
    assert_eq!(pdf_path(&FsPath::parse("/")), FsPath::parse("/"));
    assert_eq!(pdf_path(&FsPath::parse("/out/..")), FsPath::parse("/out/.."));
    assert_eq!(FsPath::parse("/out/a.txt").with_extension(""), FsPath::parse("/out/a"));

    assert_eq!(svg_base_name(&FsPath::parse("/out/report.svg")), "report.svg");
    assert_eq!(svg_base_name(&FsPath::parse("/")), "output");
    assert_eq!(svg_file_name("report.svg", 0), "report.svg-0.svg");
    assert_eq!(svg_file_name("output", 12), "output-12.svg");
    assert_eq!(decimal(0), "0");
    assert_eq!(decimal(9), "9");
    assert_eq!(decimal(10), "10");
    assert_eq!(decimal(1_234_567_890), "1234567890");
    assert_eq!(decimal(usize::MAX), usize::MAX.to_string());

    assert_eq!(
        template_path(&FsPath::parse("/proj/letter.typ"), &FsPath::parse("/env/templates")),
        Ok(FsPath::parse("/env/templates/letter.typ"))
    );
    assert_eq!(
        template_path(&FsPath::parse("/"), &FsPath::parse("/env/templates")),
        Err(ExportError::FileReadError("Can't read file name".to_string()))
    );
    assert_ne!(ExportType::PDF, ExportType::SVG);
    assert_ne!(ExportType::SVG, ExportType::Template);
    assert_ne!(UploadType::All, UploadType::Template);
}

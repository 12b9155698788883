use base64::Engine;
use epub_backend::encoding::cover_data_uri;
use epub_backend::paths::book_id_from_path;
use epub_backend::paths::books_dir;
use epub_backend::paths::cover_path_in;
use epub_backend::workflow::build_metadata;
use epub_backend::workflow::content_from_read;
use epub_backend::workflow::cover_field_after_save;
use epub_backend::workflow::cover_uri_from_read;
use epub_backend::workflow::parsed_or_error;
use epub_backend::workflow::plan_cover_save;
use epub_backend::workflow::CoverPlan;
use epub_backend::workflow::require_file_exists;
use epub_backend::workflow::resolve_books_dir;
use epub_backend::workflow::storage_check;
use epub_backend::workflow::BookError;
use epub_backend::workflow::CoverSaveOutcome;
use epub_backend::workflow::ParsedBook;

const PREFIX: &str = "data:image/jpeg;base64,";

fn decode_uri(uri: &str) -> Vec<u8> {
    assert!(uri.starts_with(PREFIX));
    base64::engine::general_purpose::STANDARD
        .decode(&uri[PREFIX.len()..])
        .unwrap()
}

#[test]
fn present_title_and_author_pass_through_unmodified() {
    let m = build_metadata(
        Some(String::from("Dune")),
        Some(String::from("Frank Herbert")),
        None,
    );
    assert_eq!(m.title, "Dune");
    assert_eq!(m.author, "Frank Herbert");
}

#[test]
fn missing_title_and_author_take_fallbacks() {
    let m = build_metadata(None, None, None);
    assert_eq!(m.title, "Unknown Title");
    assert_eq!(m.author, "Unknown Author");
}

#[test]
fn missing_title_only_takes_title_fallback() {
    let m = build_metadata(None, Some(String::from("Frank Herbert")), None);
    assert_eq!(m.title, "Unknown Title");
    assert_eq!(m.author, "Frank Herbert");
}

#[test]
fn no_cover_means_cover_absent() {
    let m = build_metadata(Some(String::from("Dune")), None, None);
    assert!(m.cover.is_none());
}

#[test]
fn data_uri_has_prefix_and_decodes_to_input() {
    let bytes: Vec<u8> = vec![0xFF, 0xD8, 0xFF, 0xE0, 0x00, 0x10, 0x4A];
    let uri = cover_data_uri(&bytes);
    assert_eq!(decode_uri(&uri), bytes);
}

#[test]
fn data_uri_round_trips_every_padding_length() {
    for n in 0..10usize {
        let bytes: Vec<u8> = (0..n as u8).map(|i| i.wrapping_mul(37).wrapping_add(200)).collect();
        let uri = cover_data_uri(&bytes);
        assert_eq!(decode_uri(&uri), bytes, "length {}", n);
    }
}

#[test]
fn data_uri_of_empty_is_just_the_prefix() {
    let uri = cover_data_uri(&Vec::new());
    assert_eq!(uri, PREFIX);
}

#[test]
fn scenario_novel_with_embedded_cover() {
    let cover_bytes: Vec<u8> = vec![0xFF, 0xD8];
    let field = cover_field_after_save(&cover_bytes, CoverSaveOutcome::Written).unwrap();
    let m = build_metadata(
        Some(String::from("Dune")),
        Some(String::from("Frank Herbert")),
        field,
    );
    assert_eq!(m.title, "Dune");
    assert_eq!(m.author, "Frank Herbert");
    let uri = m.cover.unwrap();
    assert_eq!(uri, "data:image/jpeg;base64,/9g=");
    assert!(uri.starts_with("data:image/jpeg;base64,/9g"));
    let dir = books_dir("/data/app");
    assert_eq!(cover_path_in(&dir, "library/novel.epub"), "/data/app/books/novel.cover.jpg");
}

#[test]
fn book_id_is_the_file_stem() {
    assert_eq!(book_id_from_path("library/novel.epub"), "novel");
    assert_eq!(book_id_from_path("novel.epub"), "novel");
    assert_eq!(book_id_from_path("/a/b/c.tar.gz"), "c.tar");
    assert_eq!(book_id_from_path("noext"), "noext");
    assert_eq!(book_id_from_path("dir/"), "dir");
    assert_eq!(book_id_from_path(".gitignore"), ".gitignore");
}

#[test]
fn book_id_falls_back_on_unusable_paths() {
    assert_eq!(book_id_from_path(""), "unknown_cover");
    assert_eq!(book_id_from_path("/"), "unknown_cover");
    assert_eq!(book_id_from_path("."), "unknown_cover");
    assert_eq!(book_id_from_path("a/.."), "unknown_cover");
}

#[test]
fn cover_path_is_deterministic_per_book_id() {
    let dir = books_dir("/data/app");
    let first = cover_path_in(&dir, "shelf/novel.epub");
    let second = cover_path_in(&dir, "shelf/novel.epub");
    assert_eq!(first, second);
    assert_eq!(first, "/data/app/books/novel.cover.jpg");
}

#[test]
fn no_cover_plans_no_write_even_without_a_data_root() {
    let r = plan_cover_save(false, None, "shelf/novel.epub");
    assert!(matches!(r, Ok(CoverPlan::NoCover)));
}

#[test]
fn cover_without_a_data_root_is_a_config_error() {
    let r = plan_cover_save(true, None, "shelf/novel.epub");
    assert!(matches!(r, Err(BookError::ConfigError)));
}

#[test]
fn cover_plan_names_the_books_dir_and_cover_path() {
    let r = plan_cover_save(true, Some(String::from("/data/app")), "shelf/novel.epub");
    match r {
        Ok(CoverPlan::Save { dir, path }) => {
            assert_eq!(dir, "/data/app/books");
            assert_eq!(path, "/data/app/books/novel.cover.jpg");
        }
        _ => panic!("expected a save plan"),
    }
}

#[test]
fn distinct_book_ids_get_distinct_cover_files() {
    let dir = books_dir("/data/app");
    assert_ne!(
        cover_path_in(&dir, "shelf/novel.epub"),
        cover_path_in(&dir, "shelf/sequel.epub")
    );
    assert_eq!(
        cover_path_in(&dir, "shelf/novel.epub"),
        cover_path_in(&dir, "other/novel.epub")
    );
}

#[test]
fn missing_file_is_not_found() {
    assert_eq!(require_file_exists(false), Err(BookError::NotFound));
    assert!(require_file_exists(true).is_ok());
}

#[test]
fn parser_rejection_carries_its_diagnostic() {
    let r = parsed_or_error(Err(String::from("bad zip")));
    match r {
        Err(BookError::ParseError(m)) => assert_eq!(m, "bad zip"),
        _ => panic!("expected a parse error"),
    }
}

#[test]
fn parsed_fields_pass_through() {
    let r = parsed_or_error(Ok(ParsedBook {
        title: Some(String::from("Dune")),
        author: None,
        cover: None,
    }));
    let p = r.unwrap();
    assert_eq!(p.title.as_deref(), Some("Dune"));
    assert!(p.author.is_none());
    assert!(p.cover.is_none());
}

#[test]
fn missing_app_data_root_is_a_config_error() {
    assert_eq!(resolve_books_dir(None), Err(BookError::ConfigError));
}

#[test]
fn books_dir_appends_the_fixed_segment() {
    let r = resolve_books_dir(Some(String::from("/home/u/.local/share/app"))).unwrap();
    assert_eq!(r, "/home/u/.local/share/app/books");
}

#[test]
fn storage_check_wants_the_directory_present() {
    assert_eq!(
        storage_check(String::from("/data/app/books"), false),
        Err(BookError::NotFound)
    );
    assert_eq!(
        storage_check(String::from("/data/app/books"), true),
        Ok(String::from("/data/app/books"))
    );
}

#[test]
fn dir_create_failure_is_fatal() {
    let r = cover_field_after_save(&vec![1u8, 2, 3], CoverSaveOutcome::DirCreateFailed(
        String::from("Failed to create books directory: full"),
    ));
    assert_eq!(
        r,
        Err(BookError::IoError(String::from(
            "Failed to create books directory: full"
        )))
    );
}

#[test]
fn file_create_failure_drops_the_cover_silently() {
    let r = cover_field_after_save(&vec![1u8, 2, 3], CoverSaveOutcome::FileCreateFailed);
    assert_eq!(r, Ok(None));
}

#[test]
fn write_failure_drops_the_cover_silently() {
    let r = cover_field_after_save(&vec![1u8, 2, 3], CoverSaveOutcome::WriteFailed);
    assert_eq!(r, Ok(None));
}

#[test]
fn written_cover_decodes_to_the_saved_bytes() {
    let bytes: Vec<u8> = vec![9, 8, 7, 6, 5];
    let r = cover_field_after_save(&bytes, CoverSaveOutcome::Written).unwrap();
    assert_eq!(decode_uri(&r.unwrap()), bytes);
}

#[test]
fn cover_read_encodes_the_bytes_read() {
    let bytes: Vec<u8> = vec![0xFF, 0xD8, 0x01];
    let r = cover_uri_from_read(Ok(bytes.clone())).unwrap();
    assert_eq!(decode_uri(&r), bytes);
}

#[test]
fn cover_read_failure_is_an_io_error() {
    let r = cover_uri_from_read(Err(String::from("Failed to read cover image: denied")));
    assert_eq!(
        r,
        Err(BookError::IoError(String::from(
            "Failed to read cover image: denied"
        )))
    );
}

#[test]
fn content_read_is_the_identity() {
    let bytes: Vec<u8> = vec![80, 75, 3, 4, 0, 0];
    assert_eq!(content_from_read(Ok(bytes.clone())), Ok(bytes));
}

#[test]
fn content_read_failure_is_an_io_error() {
    let r = content_from_read(Err(String::from("Failed to read EPUB content: denied")));
    assert_eq!(
        r,
        Err(BookError::IoError(String::from(
            "Failed to read EPUB content: denied"
        )))
    );
}

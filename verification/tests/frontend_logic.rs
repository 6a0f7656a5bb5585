use rbc::library::{Library, LibraryEntry};
use rbc::boxart::{sanitize_filename, urlencoded, libretro_name, libretro_urls, art_file_name, is_remote};
use rbc::date::{format_timestamp, play_time_hm};
use rbc::boxart::{art_from_rgba, decode_art};
use rbc::keys::parse_key;
use rbc::settings::Settings;
use rbc::paths::{save_path, slot_file_name, state_file_name, rom_stem};
use eframe::egui::Key;
use rbc::icon::icon_rgba;
use rbc::text::{chars_of, parse_u64_in};

fn entry(path: &str, name: &str, last: u64, play: u64, art: Option<&str>) -> LibraryEntry {
    LibraryEntry {
        path: path.to_string(),
        name: name.to_string(),
        last_played: last,
        play_time_secs: play,
        art_path: art.map(|a| a.to_string()),
    }
}

fn same(a: &LibraryEntry, b: &LibraryEntry) -> bool {
    a.path == b.path && a.name == b.name && a.last_played == b.last_played
        && a.play_time_secs == b.play_time_secs && a.art_path == b.art_path
}

#[test]
fn library_touch_adds_then_updates_by_name() {
    let mut lib = Library::new();
    lib.touch_entry("/roms/a/Tetris.gb", "Tetris".to_string(), 100);
    assert_eq!(lib.entries.len(), 1);
    assert!(same(&lib.entries[0], &entry("/roms/a/Tetris.gb", "Tetris", 100, 0, None)));
    lib.touch_entry("/roms/b/Tetris.gbc", "Tetris".to_string(), 200);
    assert_eq!(lib.entries.len(), 1);
    assert_eq!(lib.entries[0].path, "/roms/b/Tetris.gbc");
    assert_eq!(lib.entries[0].last_played, 200);
    lib.touch_entry("/roms/Zelda.gbc", "Zelda".to_string(), 300);
    assert_eq!(lib.entries.len(), 2);
    assert_eq!(lib.entries[1].name, "Zelda");
}

#[test]
fn library_touch_names_by_file_stem() {
    let mut lib = Library::new();
    lib.touch("/roms/Pokemon Gold.gbc");
    assert_eq!(lib.entries.len(), 1);
    assert_eq!(lib.entries[0].name, "Pokemon Gold");
    assert_eq!(lib.entries[0].path, "/roms/Pokemon Gold.gbc");
    assert!(lib.entries[0].last_played > 1_600_000_000);
}

#[test]
fn library_play_time_art_and_removal() {
    let mut lib = Library::new();
    lib.touch_entry("/a.gb", "a".to_string(), 1);
    lib.touch_entry("/b.gb", "b".to_string(), 2);
    lib.add_play_time("/a.gb", 30);
    lib.add_play_time("/a.gb", 12);
    lib.add_play_time("/missing.gb", 99);
    assert_eq!(lib.entries[0].play_time_secs, 42);
    assert_eq!(lib.entries[1].play_time_secs, 0);
    lib.set_art("/b.gb", "/art/b.png".to_string());
    assert_eq!(lib.entries[1].art_path, Some("/art/b.png".to_string()));
    lib.set_art("/missing.gb", "x".to_string());
    lib.remove("/a.gb");
    assert_eq!(lib.entries.len(), 1);
    assert_eq!(lib.entries[0].path, "/b.gb");
    lib.remove("/missing.gb");
    assert_eq!(lib.entries.len(), 1);
}

#[test]
fn library_play_time_wraps() {
    let mut lib = Library::new();
    lib.touch_entry("/a.gb", "a".to_string(), 1);
    lib.add_play_time("/a.gb", u64::MAX);
    lib.add_play_time("/a.gb", 2);
    assert_eq!(lib.entries[0].play_time_secs, 1);
}

#[test]
fn library_text_format() {
    let mut lib = Library::new();
    lib.entries.push(entry("/roms/Tetris.gb", "Tetris", 1700000000, 3600, None));
    lib.entries.push(entry("/roms/Zelda.gbc", "Zelda", 5, 0, Some("/art/z.png")));
    assert_eq!(lib.to_text(), "/roms/Tetris.gb|Tetris|1700000000|3600|\n/roms/Zelda.gbc|Zelda|5|0|/art/z.png\n");
}

#[test]
fn library_text_reads_back() {
    let mut lib = Library::new();
    lib.entries.push(entry("/roms/Tetris.gb", "Tetris", 1700000000, 3600, None));
    lib.entries.push(entry("C:\\roms\\Zelda.gbc", "Zelda", u64::MAX, 0, Some("/art/a|b.png")));
    let back = Library::parse(&lib.to_text());
    assert_eq!(back.entries.len(), 2);
    assert!(same(&back.entries[0], &lib.entries[0]));
    assert!(same(&back.entries[1], &lib.entries[1]));
}

#[test]
fn library_parse_edge_cases() {
    let text = "p1|n1|+12|x|\r\nshort|line\n\np2|n2|99999999999999999999|7\nlast|n3|1|2|art";
    let lib = Library::parse(text);
    assert_eq!(lib.entries.len(), 3);
    assert!(same(&lib.entries[0], &entry("p1", "n1", 12, 0, None)));
    assert!(same(&lib.entries[1], &entry("p2", "n2", 0, 7, None)));
    assert!(same(&lib.entries[2], &entry("last", "n3", 1, 2, Some("art"))));
    assert_eq!(Library::parse("").entries.len(), 0);
    let cr = Library::parse("a|b|1|2|art\r");
    assert_eq!(cr.entries[0].art_path, Some("art\r".to_string()));
}

#[test]
fn decimal_fields_parse_like_u64_from_str() {
    let cs = chars_of("+42|-1|18446744073709551615|18446744073709551616||+");
    assert_eq!(parse_u64_in(&cs, 0, 3), Some(42));
    assert_eq!(parse_u64_in(&cs, 4, 6), None);
    assert_eq!(parse_u64_in(&cs, 7, 27), Some(u64::MAX));
    assert_eq!(parse_u64_in(&cs, 28, 48), None);
    assert_eq!(parse_u64_in(&cs, 49, 49), None);
    assert_eq!(parse_u64_in(&cs, 50, 51), None);
}

#[test]
fn boxart_names_and_urls() {
    assert_eq!(sanitize_filename("a/b:c*?\"<>|\\d"), "a_b_c_______d");
    assert_eq!(sanitize_filename("Tetris DX"), "Tetris DX");
    assert_eq!(urlencoded("Pokemon (Red), It's"), "Pokemon%20%28Red%29%2C%20It%27s");
    assert_eq!(libretro_name("Zelda & Link"), "Zelda%20_%20Link");
    let (gbc, gb) = libretro_urls("Tetris (World)");
    assert_eq!(gbc, "https://thumbnails.libretro.com/Nintendo%20-%20Game%20Boy%20Color/Named_Boxarts/Tetris%20%28World%29.png");
    assert_eq!(gb, "https://thumbnails.libretro.com/Nintendo%20-%20Game%20Boy/Named_Boxarts/Tetris%20%28World%29.png");
    assert_eq!(art_file_name("A/B: C"), "A_B_ C.png");
    assert!(is_remote("http://x/y.png"));
    assert!(is_remote("https://x/y.png"));
    assert!(!is_remote("/home/u/y.png"));
    assert!(!is_remote("http:/x"));
    assert!(!is_remote("https:"));
}

#[test]
fn timestamps_format_as_dates() {
    assert_eq!(format_timestamp(0), "Never");
    assert_eq!(format_timestamp(1), "1970-01-01");
    assert_eq!(format_timestamp(86400), "1970-01-02");
    assert_eq!(format_timestamp(951782400), "2000-02-29");
    assert_eq!(format_timestamp(951868800), "2000-03-01");
    assert_eq!(format_timestamp(1700000000), "2023-11-14");
    assert_eq!(format_timestamp(4107542400), "2100-03-01");
}

#[test]
fn icon_is_a_purple_badge_with_a_green_screen() {
    let px = icon_rgba();
    assert_eq!(px.len(), 32 * 32 * 4);
    let at = |x: usize, y: usize| (px[(y * 32 + x) * 4], px[(y * 32 + x) * 4 + 1], px[(y * 32 + x) * 4 + 2], px[(y * 32 + x) * 4 + 3]);
    assert_eq!(at(0, 0), (0, 0, 0, 0));
    assert_eq!(at(2, 2), (88, 50, 168, 255));
    assert_eq!(at(6, 5), (144, 200, 80, 255));
    assert_eq!(at(25, 17), (144, 200, 80, 255));
    assert_eq!(at(26, 17), (88, 50, 168, 255));
    assert_eq!(at(29, 29), (88, 50, 168, 255));
    assert_eq!(at(30, 29), (0, 0, 0, 0));
}

#[test]
fn play_time_splits_into_hours_and_minutes() {
    assert_eq!(play_time_hm(0), (0, 0));
    assert_eq!(play_time_hm(3599), (0, 59));
    assert_eq!(play_time_hm(7384), (2, 3));
}

#[test]
fn art_buffers_are_cut_to_their_pixels() {
    let img = art_from_rgba(2, 1, vec![1, 2, 3, 4, 5, 6, 7, 8, 9]).unwrap();
    assert_eq!((img.width, img.height), (2, 1));
    assert_eq!(img.pixels, vec![1, 2, 3, 4, 5, 6, 7, 8]);
    assert!(art_from_rgba(2, 2, vec![0; 15]).is_none());
}

#[test]
fn art_files_decode_to_rgba() {
    let src = image::RgbaImage::from_raw(2, 1, vec![10, 20, 30, 255, 40, 50, 60, 128]).unwrap();
    let mut buf = std::io::Cursor::new(Vec::new());
    src.write_to(&mut buf, image::ImageFormat::Png).unwrap();
    let img = decode_art(buf.get_ref()).unwrap();
    assert_eq!((img.width, img.height), (2, 1));
    assert_eq!(img.pixels, vec![10, 20, 30, 255, 40, 50, 60, 128]);
    assert!(decode_art(&[1, 2, 3]).is_none());
}

#[test]
fn key_names_resolve_to_egui_keys() {
    assert_eq!(parse_key("ArrowRight"), Some(Key::ArrowRight as u32));
    assert_eq!(parse_key("Backspace"), Some(Key::Backspace as u32));
    assert_eq!(parse_key("Space"), Some(Key::Space as u32));
    assert_eq!(parse_key("z"), Some(Key::Z as u32));
    assert_eq!(parse_key("X"), Some(Key::X as u32));
    assert_eq!(parse_key("F5"), Some(Key::F5 as u32));
    assert_eq!(parse_key("NoSuchKey"), None);
}

#[test]
fn settings_lines_set_their_keys() {
    let s = Settings::parse("volume = 0.5\nmuted=true\r\nwindow_x=12\nkey_a = K \nvolume=oops\nbogus=1\ndark_mode=false");
    assert_eq!(s.volume, vec!["0.5".to_string(), "oops".to_string()]);
    assert!(s.muted);
    assert!(!s.dark_mode);
    assert_eq!(s.window_x, Some("12".to_string()));
    assert_eq!(s.window_y, None);
    assert!(s.window_width.is_empty());
    assert_eq!(s.key_a, "K");
    assert_eq!(s.key_b, "X");
    assert_eq!(s.key_right, "ArrowRight");
    assert_eq!(s.key_select, "Backspace");
}

#[test]
fn settings_default_when_empty() {
    let s = Settings::parse("");
    assert!(!s.muted);
    assert!(s.dark_mode);
    assert_eq!(s.key_start, "Enter");
    assert!(s.volume.is_empty());
    let s = Settings::parse("muted\nkey_up=");
    assert!(!s.muted);
    assert_eq!(s.key_up, "");
}

#[test]
fn save_and_state_file_names_come_from_the_rom_path() {
    assert_eq!(save_path("roms/zelda.gbc"), "roms/zelda.sav");
    assert_eq!(save_path("roms/tetris.gb"), "roms/tetris.sav");
    assert_eq!(save_path("a.gb/b.gbc"), "a.sav/b.sav");
    assert_eq!(save_path("plain"), "plain");
    assert_eq!(slot_file_name("tetris", 3), "tetris.slot3.state");
    assert_eq!(state_file_name("roms/tetris.gb", 12), Some("tetris.slot12.state".to_string()));
    assert_eq!(rom_stem("/games/pokemon.gbc"), Some("pokemon".to_string()));
}

#[test]
fn touch_names_an_entry_after_the_file_stem() {
    let mut lib = Library::new();
    lib.touch("/games/pokemon.gbc");
    assert_eq!(lib.entries.len(), 1);
    assert_eq!(lib.entries[0].name, "pokemon");
    assert_eq!(lib.entries[0].path, "/games/pokemon.gbc");
}

#[test]
fn settings_trim_unicode_white_space() {
    let s = Settings::parse("\u{3000}key_a\u{a0}=\u{2003}Q\u{85}\n\u{2028}muted = true");
    assert_eq!(s.key_a, "Q");
    assert!(s.muted);
}

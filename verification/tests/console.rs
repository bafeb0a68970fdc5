use vita_presence_rs::{
    console_file_url, console_url, decode_game_packet, parse_tsv, plan_page, read_status_page, refresh_game,
    FailCounter, Game, PageAction, StatusPage, GAME_PACKET_LEN, GAME_PACKET_MAGIC, MAX_FAILS,
};
use vita_presence_rs::text::{trim, trim_nul};

fn packet(magic: [u8; 4], titleid: &[u8], title: &[u8]) -> Vec<u8> {
    let mut buf = vec![0u8; GAME_PACKET_LEN];
    buf[0..4].copy_from_slice(&magic);
    buf[4..8].copy_from_slice(&7i32.to_le_bytes());
    buf[8..8 + titleid.len()].copy_from_slice(titleid);
    buf[18..18 + title.len()].copy_from_slice(title);
    buf
}

#[test]
fn packet_valid() {
    let buf = packet(GAME_PACKET_MAGIC.to_ne_bytes(), b"PCSE00120", b"Persona 4 Golden");
    assert_eq!(
        decode_game_packet(&buf),
        Some(("PCSE00120".to_string(), "Persona 4 Golden".to_string()))
    );
}

#[test]
fn packet_bad_magic() {
    let buf = packet([0xFE, 0xCA, 0xCA, 0xFE], b"PCSE00120", b"Persona");
    assert_eq!(decode_game_packet(&buf), None);
    let buf = packet(GAME_PACKET_MAGIC.swap_bytes().to_ne_bytes(), b"PCSE00120", b"Persona");
    assert_eq!(decode_game_packet(&buf), None);
    let buf = packet([0, 0, 0, 0], b"", b"");
    assert_eq!(decode_game_packet(&buf), None);
}

#[test]
fn packet_empty_fields_mean_home_screen() {
    let buf = packet(GAME_PACKET_MAGIC.to_ne_bytes(), b"", b"");
    assert_eq!(decode_game_packet(&buf), Some(("livearea".to_string(), "Live Area".to_string())));
}

#[test]
fn packet_full_width_fields_and_bad_utf8() {
    let buf = packet(GAME_PACKET_MAGIC.to_ne_bytes(), b"ABCDEFGHIJ", b"a\xffb\0ignored");
    assert_eq!(decode_game_packet(&buf), Some(("ABCDEFGHIJ".to_string(), "a\u{fffd}b".to_string())));
}

#[test]
fn fail_counter_clears_every_fifth() {
    let mut c = FailCounter::new();
    for round in 0..3 {
        for i in 1..MAX_FAILS {
            assert!(!c.record_failure(), "round {} failure {}", round, i);
            assert_eq!(c.count(), i);
        }
        assert!(c.record_failure());
        assert_eq!(c.count(), 0);
    }
    c.record_failure();
    c.reset();
    assert_eq!(c.count(), 0);
}

#[test]
fn refresh_keeps_cover_of_same_game() {
    let table = parse_tsv("PCSE00120\tUS\t\t\t\tcid\n");
    let previous = Some(Game {
        titleid: "PCSE00120".to_string(),
        title: "Persona".to_string(),
        image_url: "kept".to_string(),
    });
    let g = refresh_game(&previous, "PCSE00120".to_string(), "Persona 4".to_string(), &table, "d");
    assert_eq!(g.image_url, "kept");
    assert_eq!(g.title, "Persona 4");
    let g = refresh_game(&previous, "pcse00120x".to_string(), "Other".to_string(), &table, "d");
    assert_eq!(g.image_url, "d");
    let g = refresh_game(&None, "pcse00120".to_string(), "P".to_string(), &table, "d");
    assert_eq!(
        g.image_url,
        "https://store.playstation.com/store/api/chihiro/00_09_000/container/US/en/19/cid/image?w=248&h=248"
    );
}

#[test]
fn status_page_is_scraped() {
    let page = read_status_page("\0\0<html><body><p>Persona 4</p><p>PCSE00120</p><img src=\"icon0.png\"></body></html>\0");
    assert_eq!(page.title, "Persona 4");
    assert_eq!(page.titleid, "PCSE00120");
    assert_eq!(page.icon, Some("icon0.png".to_string()));
}

#[test]
fn status_page_defaults() {
    let page = read_status_page("<html><body></body></html>");
    assert_eq!(page.title, "Live Area");
    assert_eq!(page.titleid, "livearea");
    assert_eq!(page.icon, None);
    let page = read_status_page("<p>Only title <b>bold</b></p><img alt=\"x\">");
    assert_eq!(page.title, "Only title bold");
    assert_eq!(page.titleid, "livearea");
    assert_eq!(page.icon, None);
}

#[test]
fn page_without_icon_uses_catalogue() {
    let table = parse_tsv("");
    let page = StatusPage { title: "".to_string(), titleid: "slus00594".to_string(), icon: None };
    match plan_page(&None, page, "192.168.1.5", &table, "d") {
        PageAction::ShowWithoutIcon(g) => {
            assert_eq!(g.titleid, "slus00594");
            assert_eq!(g.title, "");
            assert_eq!(
                g.image_url,
                "https://raw.githubusercontent.com/Andiweli/HexFlow-Covers/main/Covers/PS1/SLUS00594.png"
            );
        },
        _ => panic!("expected a game without icon"),
    }
}

#[test]
fn page_with_icon_new_and_same_game() {
    let table = parse_tsv("");
    let page = StatusPage { title: "".to_string(), titleid: "".to_string(), icon: Some("i.png".to_string()) };
    match plan_page(&None, page, "10.0.0.2", &table, "d") {
        PageAction::FindCover { titleid, title, local_image } => {
            assert_eq!(titleid, "livearea");
            assert_eq!(title, "Live Area");
            assert_eq!(local_image, "http://10.0.0.2:51966/i.png");
        },
        _ => panic!("expected a cover search"),
    }
    let previous = Some(Game { titleid: "A".to_string(), title: "T".to_string(), image_url: "u".to_string() });
    let page = StatusPage { title: "T2".to_string(), titleid: "A".to_string(), icon: Some("i.png".to_string()) };
    match plan_page(&previous, page, "h", &table, "d") {
        PageAction::KeepCover(g) => {
            assert_eq!(g.image_url, "u");
            assert_eq!(g.title, "T2");
        },
        _ => panic!("expected the cover to be kept"),
    }
}

#[test]
fn console_urls() {
    assert_eq!(console_url("192.168.0.9"), "http://192.168.0.9:51966");
    assert_eq!(console_file_url("192.168.0.9", "a.png"), "http://192.168.0.9:51966/a.png");
}

#[test]
fn trimming() {
    assert_eq!(trim_nul("\0\0abc\0 \0"), "abc\0 ");
    assert_eq!(trim_nul("\0\0"), "");
    assert_eq!(trim(" \t\n x y \r\n"), "x y");
    assert_eq!(trim(""), "");
    assert_eq!(trim(&trim("  a  ")), trim("  a  "));
}

#[test]
fn only_pages_with_icon_reset_failures() {
    let game = || Game { titleid: "A".to_string(), title: "T".to_string(), image_url: "u".to_string() };
    assert!(!PageAction::ShowWithoutIcon(game()).resets_failures());
    assert!(PageAction::KeepCover(game()).resets_failures());
    let find = PageAction::FindCover {
        titleid: "A".to_string(),
        title: "T".to_string(),
        local_image: "l".to_string(),
    };
    assert!(find.resets_failures());
}

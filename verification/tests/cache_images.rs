use vita_presence_rs::{
    fallback_cover, finish_upload, get_litterbox_image, insert_litterbox_cache, parse_tsv, start_cover,
    upload_file_name, CoverStart, LitterboxCache, LitterboxImage, CACHE_MAX_AGE,
};

#[test]
fn cache_read_after_write() {
    let mut cache = LitterboxCache::new();
    insert_litterbox_cache(&mut cache, "PCSE00120", "https://litter.catbox.moe/a.png", 1000);
    assert_eq!(
        get_litterbox_image(&mut cache, "PCSE00120", 1000),
        Some("https://litter.catbox.moe/a.png".to_string())
    );
    assert_eq!(
        get_litterbox_image(&mut cache, "PCSE00120", 1000 + CACHE_MAX_AGE - 1),
        Some("https://litter.catbox.moe/a.png".to_string())
    );
    assert_eq!(cache.len(), 1);
}

#[test]
fn cache_drops_expired_entry() {
    let mut cache = LitterboxCache::new();
    insert_litterbox_cache(&mut cache, "PCSE00120", "u", 1000);
    insert_litterbox_cache(&mut cache, "PCSB00001", "v", 5000);
    assert_eq!(get_litterbox_image(&mut cache, "PCSE00120", 1000 + CACHE_MAX_AGE), None);
    assert_eq!(cache.len(), 1);
    assert!(cache.entry("PCSE00120").is_none());
    assert_eq!(cache.entry("PCSB00001").map(|e| e.url().clone()), Some("v".to_string()));
    assert_eq!(get_litterbox_image(&mut cache, "PCSE00120", 1000 + CACHE_MAX_AGE), None);
}

#[test]
fn cache_missing_entry() {
    let mut cache = LitterboxCache::new();
    assert_eq!(get_litterbox_image(&mut cache, "X", 0), None);
    assert_eq!(cache.len(), 0);
}

#[test]
fn cache_insert_replaces() {
    let mut cache = LitterboxCache::new();
    insert_litterbox_cache(&mut cache, "A", "old", 10);
    insert_litterbox_cache(&mut cache, "A", "new", 20);
    assert_eq!(cache.len(), 1);
    let e = cache.entry("A").unwrap();
    assert_eq!(e.url(), "new");
    assert_eq!(e.uploaded_at(), 20);
    let image = LitterboxImage::new("x".to_string(), 7);
    assert_eq!(image.uploaded_at(), 7);
}

#[test]
fn cache_max_age_is_three_days() {
    assert_eq!(CACHE_MAX_AGE, 60 * 60 * 24 * 3);
}

#[test]
fn cover_start_cases() {
    let mut cache = LitterboxCache::new();
    match start_cover("livearea", "default", &mut cache, 0) {
        CoverStart::Ready(u) => assert_eq!(u, "default"),
        CoverStart::FetchIcon => panic!("home screen needs no icon"),
    }
    assert!(matches!(start_cover("PCSE00120", "default", &mut cache, 0), CoverStart::FetchIcon));
    insert_litterbox_cache(&mut cache, "PCSE00120", "cached", 0);
    match start_cover("PCSE00120", "default", &mut cache, 10) {
        CoverStart::Ready(u) => assert_eq!(u, "cached"),
        CoverStart::FetchIcon => panic!("cover was cached"),
    }
}

#[test]
fn upload_reply_is_trimmed_and_cached() {
    let mut cache = LitterboxCache::new();
    let url = finish_upload(&mut cache, "PCSE00120", "  https://litter.catbox.moe/abc.png\n", 42);
    assert_eq!(url, "https://litter.catbox.moe/abc.png");
    assert_eq!(get_litterbox_image(&mut cache, "PCSE00120", 42), Some(url));
    let url2 = finish_upload(&mut cache, "X", "\u{3000}a b\u{a0}", 42);
    assert_eq!(url2, "a b");
}

#[test]
fn upload_file_name_appends_png() {
    assert_eq!(upload_file_name("PCSE00120"), "PCSE00120.png");
}

#[test]
fn fallback_cover_uppercases_title_id() {
    let table = parse_tsv("PCSE00120\tUS\t\t\t\tcid\n");
    assert_eq!(
        fallback_cover("pcse00120", &table, "default"),
        "https://store.playstation.com/store/api/chihiro/00_09_000/container/US/en/19/cid/image?w=248&h=248"
    );
    assert_eq!(
        fallback_cover("slus00594", &table, "default"),
        "https://raw.githubusercontent.com/Andiweli/HexFlow-Covers/main/Covers/PS1/SLUS00594.png"
    );
    assert_eq!(fallback_cover("livearea", &table, "default"), "default");
}

#[test]
fn cache_lists_each_title_once() {
    let mut cache = LitterboxCache::new();
    insert_litterbox_cache(&mut cache, "A", "1", 0);
    insert_litterbox_cache(&mut cache, "B", "2", 0);
    insert_litterbox_cache(&mut cache, "A", "3", 0);
    let mut titles = cache.titles().clone();
    titles.sort();
    assert_eq!(titles, vec!["A".to_string(), "B".to_string()]);
    assert_eq!(get_litterbox_image(&mut cache, "A", CACHE_MAX_AGE), None);
    assert_eq!(cache.titles().clone(), vec!["B".to_string()]);
}

use vita_presence_rs::{get_chihiro_url, is_ps1_id, is_psp_id, parse_tsv};

fn entry(table: &vita_presence_rs::TitleTable, id: &str) -> Option<(String, String)> {
    table.get(id).map(|(a, b)| (a.clone(), b.clone()))
}

#[test]
fn parse_tsv_reads_full_lines() {
    let table = parse_tsv("PCSE00120\tUS\tPersona 4\tx\ty\tUP0001-PCSE00120_00-PERSONA4GOLDEN00\tz\n");
    assert_eq!(table.len(), 1);
    assert_eq!(
        entry(&table, "PCSE00120"),
        Some(("US".to_string(), "UP0001-PCSE00120_00-PERSONA4GOLDEN00".to_string()))
    );
}

#[test]
fn parse_tsv_skips_short_lines() {
    let table = parse_tsv("Title ID\tRegion\tName\nA\tB\tC\tD\tE\n");
    assert_eq!(table.len(), 0);
    assert_eq!(entry(&table, "A"), None);
}

#[test]
fn parse_tsv_exactly_six_fields() {
    let table = parse_tsv("A\tB\tC\tD\tE\tF");
    assert_eq!(entry(&table, "A"), Some(("B".to_string(), "F".to_string())));
}

#[test]
fn parse_tsv_later_line_wins() {
    let table = parse_tsv("A\tEU\t\t\t\tfirst\nA\tJP\t\t\t\tsecond\n");
    assert_eq!(table.len(), 1);
    assert_eq!(entry(&table, "A"), Some(("JP".to_string(), "second".to_string())));
}

#[test]
fn parse_tsv_crlf_line_ends() {
    let table = parse_tsv("A\tUS\t\t\t\tcid\r\nB\tJP\t\t\t\tcid2\r");
    assert_eq!(entry(&table, "A"), Some(("US".to_string(), "cid".to_string())));
    // A final line without a newline keeps its carriage return.
    assert_eq!(entry(&table, "B"), Some(("JP".to_string(), "cid2\r".to_string())));
}

#[test]
fn parse_tsv_empty_and_blank_lines() {
    assert_eq!(parse_tsv("").len(), 0);
    let table = parse_tsv("\n\nA\tB\tC\tD\tE\tF\n\n");
    assert_eq!(table.len(), 1);
}

#[test]
fn parse_tsv_empty_fields_count() {
    let table = parse_tsv("\t\t\t\t\t\n");
    assert_eq!(entry(&table, ""), Some(("".to_string(), "".to_string())));
}

#[test]
fn platform_prefixes() {
    assert!(is_ps1_id("SLUS00594"));
    assert!(is_ps1_id("slus00594"));
    assert!(is_ps1_id("ScEs"));
    assert!(!is_ps1_id("SLU"));
    assert!(!is_ps1_id("PCSE00120"));
    assert!(!is_ps1_id("ßLUS"));
    assert!(is_psp_id("ULUS10041"));
    assert!(is_psp_id("npjh50465"));
    assert!(!is_psp_id("SLUS00594"));
    assert!(!is_ps1_id("ULUS10041"));
    assert!(!is_psp_id(""));
}

#[test]
fn chihiro_url_for_each_source() {
    let table = parse_tsv("PCSE00120\tUS\t\t\t\tUP0001-PCSE00120_00\nPCSG00001\tJP\t\t\t\tJP0001-PCSG00001_00\n");
    assert_eq!(
        get_chihiro_url("SLUS00594", &table, "default"),
        "https://raw.githubusercontent.com/Andiweli/HexFlow-Covers/main/Covers/PS1/SLUS00594.png"
    );
    assert_eq!(
        get_chihiro_url("ULUS10041", &table, "default"),
        "https://raw.githubusercontent.com/Andiweli/HexFlow-Covers/main/Covers/PSP/ULUS10041.png"
    );
    assert_eq!(
        get_chihiro_url("PCSE00120", &table, "default"),
        "https://store.playstation.com/store/api/chihiro/00_09_000/container/US/en/19/UP0001-PCSE00120_00/image?w=248&h=248"
    );
    assert_eq!(
        get_chihiro_url("PCSG00001", &table, "default"),
        "https://store.playstation.com/store/api/chihiro/00_09_000/container/JP/ja/19/JP0001-PCSG00001_00/image?w=248&h=248"
    );
    assert_eq!(get_chihiro_url("PCSB99999", &table, "default"), "default");
}

#[test]
fn chihiro_url_keeps_title_id_case() {
    let table = parse_tsv("");
    assert_eq!(
        get_chihiro_url("slus00594", &table, ""),
        "https://raw.githubusercontent.com/Andiweli/HexFlow-Covers/main/Covers/PS1/slus00594.png"
    );
}

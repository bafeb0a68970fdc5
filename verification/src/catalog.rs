use vstd::prelude::*;
use vstd::hash_map::StringHashMap;
use vstd::string::*;
use crate::text::{ascii_lower, ascii_upper, char_is_ascii, is_ascii_char, push_char, string_is, upper_char};
use crate::tsv::table_view;

verus! {

broadcast use vstd::string::group_string_axioms;

/// The first four characters of a title id, upper-cased, when all four are ASCII.
///
/// Unicode upper-casing can turn a non-ASCII prefix into ASCII letters only
/// through expansions such as `ß` to `SS` or `ﬃ` to `FFI`, and none of the
/// platform codes below can arise that way, so classifying by this prefix
/// decides the same as upper-casing the first four bytes.
pub open spec fn title_prefix(titleid: Seq<char>) -> Option<Seq<char>> {
    if titleid.len() >= 4 && (forall|i: int| 0 <= i < 4 ==> is_ascii_char(#[trigger] titleid[i])) {
        Some(titleid.take(4).map_values(|c: char| ascii_upper(c)))
    } else {
        None
    }
}

/// Title-id prefixes of PlayStation games that run on the Vita.
pub open spec fn is_ps1_prefix(p: Seq<char>) -> bool {
    ||| p == "CPCS"@
    ||| p == "ESPM"@
    ||| p == "HPS1"@
    ||| p == "HPS9"@
    ||| p == "LSP0"@
    ||| p == "LSP1"@
    ||| p == "LSP2"@
    ||| p == "SCAJ"@
    ||| p == "SCES"@
    ||| p == "SCPS"@
    ||| p == "SCUS"@
    ||| p == "SIPS"@
    ||| p == "SLES"@
    ||| p == "SLKA"@
    ||| p == "SLPM"@
    ||| p == "SLPS"@
    ||| p == "SLUS"@
}

/// Title-id prefixes of PSP games that run on the Vita.
pub open spec fn is_psp_prefix(p: Seq<char>) -> bool {
    ||| p == "NPEG"@
    ||| p == "NPEH"@
    ||| p == "NPEX"@
    ||| p == "NPEZ"@
    ||| p == "NPHG"@
    ||| p == "NPHH"@
    ||| p == "NPHZ"@
    ||| p == "NPJG"@
    ||| p == "NPJH"@
    ||| p == "NPJJ"@
    ||| p == "NPUF"@
    ||| p == "NPUG"@
    ||| p == "NPUH"@
    ||| p == "NPUX"@
    ||| p == "NPUZ"@
    ||| p == "UCAS"@
    ||| p == "UCES"@
    ||| p == "UCJB"@
    ||| p == "UCJM"@
    ||| p == "UCJS"@
    ||| p == "UCKS"@
    ||| p == "UCUS"@
    ||| p == "ULAS"@
    ||| p == "ULES"@
    ||| p == "ULJM"@
    ||| p == "ULJS"@
    ||| p == "ULKS"@
    ||| p == "ULUS"@
}

pub open spec fn spec_is_ps1_id(titleid: Seq<char>) -> bool {
    title_prefix(titleid) matches Some(p) && is_ps1_prefix(p)
}

pub open spec fn spec_is_psp_id(titleid: Seq<char>) -> bool {
    title_prefix(titleid) matches Some(p) && is_psp_prefix(p)
}

/// The store language for a region: Japanese for `JP`, English otherwise.
pub open spec fn store_language(region: Seq<char>) -> Seq<char> {
    if region == "JP"@ {
        "ja"@
    } else {
        "en"@
    }
}

/// The cover image URL for a title id: the HexFlow cover for PS1 and PSP
/// titles, the PlayStation Store image for titles in the database, and the
/// default image otherwise.
pub open spec fn chihiro_url(
    titleid: Seq<char>,
    table: Map<Seq<char>, (Seq<char>, Seq<char>)>,
    default_img: Seq<char>,
) -> Seq<char> {
    if spec_is_ps1_id(titleid) {
        "https://raw.githubusercontent.com/Andiweli/HexFlow-Covers/main/Covers/PS1/"@ + titleid
            + ".png"@
    } else if spec_is_psp_id(titleid) {
        "https://raw.githubusercontent.com/Andiweli/HexFlow-Covers/main/Covers/PSP/"@ + titleid
            + ".png"@
    } else if table.contains_key(titleid) {
        let (region, content_id) = table[titleid];
        "https://store.playstation.com/store/api/chihiro/00_09_000/container/"@ + region + "/"@
            + store_language(region) + "/19/"@ + content_id + "/image?w=248&h=248"@
    } else {
        default_img
    }
}

/// The upper-cased four-character prefix of a title id, when its first four characters are ASCII.
fn upper_prefix(titleid: &str) -> (r: Option<String>)
    ensures
        r matches Some(p) ==> title_prefix(titleid@) == Some(p@),
        r is None ==> title_prefix(titleid@) is None,
{
    let n = titleid.unicode_len();
    if n < 4 {
        return None;
    }
    let mut p = String::new();
    let mut i: usize = 0;
    while i < 4
        invariant
            n == titleid@.len(),
            4 <= n,
            i <= 4,
            p@ == titleid@.take(i as int).map_values(|c: char| ascii_upper(c)),
            forall|j: int| 0 <= j < i ==> is_ascii_char(#[trigger] titleid@[j]),
        decreases 4 - i,
    {
        let c = titleid.get_char(i);
        if !char_is_ascii(c) {
            return None;
        }
        push_char(&mut p, upper_char(c));
        proof {
            assert(titleid@.take(i + 1) =~= titleid@.take(i as int).push(c));
        }
        i = i + 1;
    }
    Some(p)
}

/// Whether a title id names a PlayStation game (by its first four characters, case-insensitively).
pub fn is_ps1_id(titleid: &str) -> (r: bool)
    ensures
        r == spec_is_ps1_id(titleid@),
{
    match upper_prefix(titleid) {
        None => false,
        Some(p) => {
            string_is(&p, "CPCS") || string_is(&p, "ESPM") || string_is(&p, "HPS1")
                || string_is(&p, "HPS9") || string_is(&p, "LSP0") || string_is(&p, "LSP1")
                || string_is(&p, "LSP2") || string_is(&p, "SCAJ") || string_is(&p, "SCES")
                || string_is(&p, "SCPS") || string_is(&p, "SCUS") || string_is(&p, "SIPS")
                || string_is(&p, "SLES") || string_is(&p, "SLKA") || string_is(&p, "SLPM")
                || string_is(&p, "SLPS") || string_is(&p, "SLUS")
        },
    }
}

/// Whether a title id names a PSP game (by its first four characters, case-insensitively).
pub fn is_psp_id(titleid: &str) -> (r: bool)
    ensures
        r == spec_is_psp_id(titleid@),
{
    match upper_prefix(titleid) {
        None => false,
        Some(p) => {
            string_is(&p, "NPEG") || string_is(&p, "NPEH") || string_is(&p, "NPEX")
                || string_is(&p, "NPEZ") || string_is(&p, "NPHG") || string_is(&p, "NPHH")
                || string_is(&p, "NPHZ") || string_is(&p, "NPJG") || string_is(&p, "NPJH")
                || string_is(&p, "NPJJ") || string_is(&p, "NPUF") || string_is(&p, "NPUG")
                || string_is(&p, "NPUH") || string_is(&p, "NPUX") || string_is(&p, "NPUZ")
                || string_is(&p, "UCAS") || string_is(&p, "UCES") || string_is(&p, "UCJB")
                || string_is(&p, "UCJM") || string_is(&p, "UCJS") || string_is(&p, "UCKS")
                || string_is(&p, "UCUS") || string_is(&p, "ULAS") || string_is(&p, "ULES")
                || string_is(&p, "ULJM") || string_is(&p, "ULJS") || string_is(&p, "ULKS")
                || string_is(&p, "ULUS")
        },
    }
}

/// The cover image URL for a title id (see `chihiro_url`).
pub fn get_chihiro_url(titleid: &str, tsv: &StringHashMap<(String, String)>, default_img: &str) -> (url: String)
    ensures
        url@ == chihiro_url(titleid@, table_view(tsv@), default_img@),
{
    if is_ps1_id(titleid) {
        let mut url = String::from_str(
            "https://raw.githubusercontent.com/Andiweli/HexFlow-Covers/main/Covers/PS1/",
        );
        url.append(titleid);
        url.append(".png");
        return url;
    }
    if is_psp_id(titleid) {
        let mut url = String::from_str(
            "https://raw.githubusercontent.com/Andiweli/HexFlow-Covers/main/Covers/PSP/",
        );
        url.append(titleid);
        url.append(".png");
        return url;
    }
    match tsv.get(titleid) {
        Some(entry) => {
            let region = &entry.0;
            let content_id = &entry.1;
            let lang = if string_is(region, "JP") {
                "ja"
            } else {
                "en"
            };
            let mut url = String::from_str(
                "https://store.playstation.com/store/api/chihiro/00_09_000/container/",
            );
            url.append(region.as_str());
            url.append("/");
            url.append(lang);
            url.append("/19/");
            url.append(content_id.as_str());
            url.append("/image?w=248&h=248");
            url
        },
        None => String::from_str(default_img),
    }
}

/// No title id is both a PlayStation and a PSP title id.
pub proof fn law_platforms_disjoint(titleid: Seq<char>)
    ensures
        !(spec_is_ps1_id(titleid) && spec_is_psp_id(titleid)),
{
    if let Some(p) = title_prefix(titleid) {
        if is_ps1_prefix(p) && is_psp_prefix(p) {
            reveal_strlit("CPCS");
            reveal_strlit("ESPM");
            reveal_strlit("HPS1");
            reveal_strlit("HPS9");
            reveal_strlit("LSP0");
            reveal_strlit("LSP1");
            reveal_strlit("LSP2");
            reveal_strlit("SCAJ");
            reveal_strlit("SCES");
            reveal_strlit("SCPS");
            reveal_strlit("SCUS");
            reveal_strlit("SIPS");
            reveal_strlit("SLES");
            reveal_strlit("SLKA");
            reveal_strlit("SLPM");
            reveal_strlit("SLPS");
            reveal_strlit("SLUS");
            reveal_strlit("NPEG");
            reveal_strlit("NPEH");
            reveal_strlit("NPEX");
            reveal_strlit("NPEZ");
            reveal_strlit("NPHG");
            reveal_strlit("NPHH");
            reveal_strlit("NPHZ");
            reveal_strlit("NPJG");
            reveal_strlit("NPJH");
            reveal_strlit("NPJJ");
            reveal_strlit("NPUF");
            reveal_strlit("NPUG");
            reveal_strlit("NPUH");
            reveal_strlit("NPUX");
            reveal_strlit("NPUZ");
            reveal_strlit("UCAS");
            reveal_strlit("UCES");
            reveal_strlit("UCJB");
            reveal_strlit("UCJM");
            reveal_strlit("UCJS");
            reveal_strlit("UCKS");
            reveal_strlit("UCUS");
            reveal_strlit("ULAS");
            reveal_strlit("ULES");
            reveal_strlit("ULJM");
            reveal_strlit("ULJS");
            reveal_strlit("ULKS");
            reveal_strlit("ULUS");
            assert(p[0] == 'C' || p[0] == 'E' || p[0] == 'H' || p[0] == 'L' || p[0] == 'S');
            assert(p[0] == 'N' || p[0] == 'U');
        }
    }
}

/// Whether a title id is a PlayStation or PSP one does not depend on the
/// case of its first four letters.
pub proof fn law_platform_case_insensitive(titleid: Seq<char>)
    ensures
        spec_is_ps1_id(titleid.map_values(|c: char| ascii_upper(c))) == spec_is_ps1_id(titleid),
        spec_is_psp_id(titleid.map_values(|c: char| ascii_upper(c))) == spec_is_psp_id(titleid),
{
    let u = titleid.map_values(|c: char| ascii_upper(c));
    assert(u.len() == titleid.len());
    assert forall|i: int| 0 <= i < titleid.len() implies {
        &&& (is_ascii_char(#[trigger] u[i]) <==> is_ascii_char(titleid[i]))
        &&& ascii_upper(u[i]) == ascii_upper(titleid[i])
    } by {
        let c = titleid[i];
        assert(u[i] == ascii_upper(c));
        if 'a' <= c && c <= 'z' {
            assert(ascii_upper(c) as u32 == c as u32 - 32);
            assert('A' <= ascii_upper(c) <= 'Z');
        } else {
            assert(ascii_upper(c) == c);
        }
    }
    if titleid.len() >= 4 {
        if title_prefix(titleid) is Some {
            assert forall|i: int| 0 <= i < 4 implies is_ascii_char(#[trigger] u[i]) by {
                assert(is_ascii_char(titleid[i]));
            }
            assert(u.take(4).map_values(|c: char| ascii_upper(c)) =~= titleid.take(4).map_values(
                |c: char| ascii_upper(c),
            ));
        } else {
            let i = choose|i: int| 0 <= i < 4 && !is_ascii_char(#[trigger] titleid[i]);
            assert(!is_ascii_char(u[i]));
        }
    }
}

/// Two texts whose first four characters agree in ASCII-ness and in ASCII
/// upper case have the same title-id prefix.
proof fn lemma_title_prefix_agree(t: Seq<char>, u: Seq<char>)
    requires
        t.len() >= 4 <==> u.len() >= 4,
        t.len() >= 4 ==> forall|i: int|
            0 <= i < 4 ==> (is_ascii_char(#[trigger] u[i]) <==> is_ascii_char(t[i])) && ascii_upper(u[i])
                == ascii_upper(t[i]),
    ensures
        title_prefix(u) == title_prefix(t),
{
    if t.len() >= 4 {
        if title_prefix(t) is Some {
            assert forall|i: int| 0 <= i < 4 implies is_ascii_char(#[trigger] u[i]) by {
                assert(is_ascii_char(t[i]));
            }
            assert(u.take(4).map_values(|c: char| ascii_upper(c)) =~= t.take(4).map_values(
                |c: char| ascii_upper(c),
            ));
        } else {
            let i = choose|i: int| 0 <= i < 4 && !is_ascii_char(#[trigger] t[i]);
            assert(!is_ascii_char(u[i]));
        }
    }
}

/// Whether a title id is a PlayStation or PSP one does not change when its
/// letters are lower-cased.
pub proof fn law_platform_lower_case(titleid: Seq<char>)
    ensures
        spec_is_ps1_id(titleid.map_values(|c: char| ascii_lower(c))) == spec_is_ps1_id(titleid),
        spec_is_psp_id(titleid.map_values(|c: char| ascii_lower(c))) == spec_is_psp_id(titleid),
{
    let u = titleid.map_values(|c: char| ascii_lower(c));
    assert forall|i: int| 0 <= i < titleid.len() implies {
        &&& (is_ascii_char(#[trigger] u[i]) <==> is_ascii_char(titleid[i]))
        &&& ascii_upper(u[i]) == ascii_upper(titleid[i])
    } by {
        let c = titleid[i];
        assert(u[i] == ascii_lower(c));
        if 'A' <= c && c <= 'Z' {
            assert(ascii_lower(c) as u32 == c as u32 + 32);
            assert('a' <= ascii_lower(c) <= 'z');
            assert(ascii_upper(ascii_lower(c)) as u32 == c as u32);
            assert(ascii_upper(c) == c);
        } else {
            assert(ascii_lower(c) == c);
        }
    }
    lemma_title_prefix_agree(titleid, u);
}

/// Only the first four characters of a title id decide whether it is a
/// PlayStation or PSP one: whatever follows them does not matter.
pub proof fn law_platform_prefix_only(titleid: Seq<char>, rest: Seq<char>)
    requires
        titleid.len() >= 4,
    ensures
        spec_is_ps1_id(titleid.take(4) + rest) == spec_is_ps1_id(titleid),
        spec_is_psp_id(titleid.take(4) + rest) == spec_is_psp_id(titleid),
{
    let u = titleid.take(4) + rest;
    assert forall|i: int| 0 <= i < 4 implies (is_ascii_char(#[trigger] u[i]) <==> is_ascii_char(titleid[i]))
        && ascii_upper(u[i]) == ascii_upper(titleid[i]) by {
        assert(u[i] == titleid[i]);
    }
    lemma_title_prefix_agree(titleid, u);
}

/// A title id whose first characters (up to four) hold a non-ASCII one is
/// neither a PlayStation nor a PSP one, whatever follows.
pub proof fn law_platform_needs_ascii(titleid: Seq<char>, rest: Seq<char>, i: int)
    requires
        0 <= i < 4,
        i < titleid.len(),
        !is_ascii_char(titleid[i]),
    ensures
        !spec_is_ps1_id(titleid + rest),
        !spec_is_psp_id(titleid + rest),
{
    assert((titleid + rest)[i] == titleid[i]);
}

/// A title id that starts with four ASCII characters that upper-casing leaves
/// as they are has those four characters as its prefix.
proof fn lemma_upper_ascii_prefix(p: Seq<char>, rest: Seq<char>)
    requires
        p.len() == 4,
        forall|i: int| 0 <= i < 4 ==> is_ascii_char(#[trigger] p[i]) && !('a' <= p[i] && p[i] <= 'z'),
    ensures
        title_prefix(p + rest) == Some(p),
{
    let t = p + rest;
    assert forall|i: int| 0 <= i < 4 implies is_ascii_char(#[trigger] t[i]) by {
        assert(t[i] == p[i]);
    }
    let up = t.take(4).map_values(|c: char| ascii_upper(c));
    assert forall|i: int| 0 <= i < 4 implies #[trigger] up[i] == p[i] by {
        assert(t[i] == p[i]);
    }
    assert(up =~= p);
}

/// Every title id that starts with one of the seventeen PlayStation prefixes
/// is a PlayStation title id, whatever follows the prefix.
pub proof fn law_ps1_prefixes(rest: Seq<char>)
    ensures
        spec_is_ps1_id("CPCS"@ + rest),
        spec_is_ps1_id("ESPM"@ + rest),
        spec_is_ps1_id("HPS1"@ + rest),
        spec_is_ps1_id("HPS9"@ + rest),
        spec_is_ps1_id("LSP0"@ + rest),
        spec_is_ps1_id("LSP1"@ + rest),
        spec_is_ps1_id("LSP2"@ + rest),
        spec_is_ps1_id("SCAJ"@ + rest),
        spec_is_ps1_id("SCES"@ + rest),
        spec_is_ps1_id("SCPS"@ + rest),
        spec_is_ps1_id("SCUS"@ + rest),
        spec_is_ps1_id("SIPS"@ + rest),
        spec_is_ps1_id("SLES"@ + rest),
        spec_is_ps1_id("SLKA"@ + rest),
        spec_is_ps1_id("SLPM"@ + rest),
        spec_is_ps1_id("SLPS"@ + rest),
        spec_is_ps1_id("SLUS"@ + rest),
{
    reveal_strlit("CPCS");
    lemma_upper_ascii_prefix("CPCS"@, rest);
    reveal_strlit("ESPM");
    lemma_upper_ascii_prefix("ESPM"@, rest);
    reveal_strlit("HPS1");
    lemma_upper_ascii_prefix("HPS1"@, rest);
    reveal_strlit("HPS9");
    lemma_upper_ascii_prefix("HPS9"@, rest);
    reveal_strlit("LSP0");
    lemma_upper_ascii_prefix("LSP0"@, rest);
    reveal_strlit("LSP1");
    lemma_upper_ascii_prefix("LSP1"@, rest);
    reveal_strlit("LSP2");
    lemma_upper_ascii_prefix("LSP2"@, rest);
    reveal_strlit("SCAJ");
    lemma_upper_ascii_prefix("SCAJ"@, rest);
    reveal_strlit("SCES");
    lemma_upper_ascii_prefix("SCES"@, rest);
    reveal_strlit("SCPS");
    lemma_upper_ascii_prefix("SCPS"@, rest);
    reveal_strlit("SCUS");
    lemma_upper_ascii_prefix("SCUS"@, rest);
    reveal_strlit("SIPS");
    lemma_upper_ascii_prefix("SIPS"@, rest);
    reveal_strlit("SLES");
    lemma_upper_ascii_prefix("SLES"@, rest);
    reveal_strlit("SLKA");
    lemma_upper_ascii_prefix("SLKA"@, rest);
    reveal_strlit("SLPM");
    lemma_upper_ascii_prefix("SLPM"@, rest);
    reveal_strlit("SLPS");
    lemma_upper_ascii_prefix("SLPS"@, rest);
    reveal_strlit("SLUS");
    lemma_upper_ascii_prefix("SLUS"@, rest);
}

/// Every title id that starts with one of the twenty-eight PSP prefixes is a
/// PSP title id, whatever follows the prefix.
pub proof fn law_psp_prefixes(rest: Seq<char>)
    ensures
        spec_is_psp_id("NPEG"@ + rest),
        spec_is_psp_id("NPEH"@ + rest),
        spec_is_psp_id("NPEX"@ + rest),
        spec_is_psp_id("NPEZ"@ + rest),
        spec_is_psp_id("NPHG"@ + rest),
        spec_is_psp_id("NPHH"@ + rest),
        spec_is_psp_id("NPHZ"@ + rest),
        spec_is_psp_id("NPJG"@ + rest),
        spec_is_psp_id("NPJH"@ + rest),
        spec_is_psp_id("NPJJ"@ + rest),
        spec_is_psp_id("NPUF"@ + rest),
        spec_is_psp_id("NPUG"@ + rest),
        spec_is_psp_id("NPUH"@ + rest),
        spec_is_psp_id("NPUX"@ + rest),
        spec_is_psp_id("NPUZ"@ + rest),
        spec_is_psp_id("UCAS"@ + rest),
        spec_is_psp_id("UCES"@ + rest),
        spec_is_psp_id("UCJB"@ + rest),
        spec_is_psp_id("UCJM"@ + rest),
        spec_is_psp_id("UCJS"@ + rest),
        spec_is_psp_id("UCKS"@ + rest),
        spec_is_psp_id("UCUS"@ + rest),
        spec_is_psp_id("ULAS"@ + rest),
        spec_is_psp_id("ULES"@ + rest),
        spec_is_psp_id("ULJM"@ + rest),
        spec_is_psp_id("ULJS"@ + rest),
        spec_is_psp_id("ULKS"@ + rest),
        spec_is_psp_id("ULUS"@ + rest),
{
    reveal_strlit("NPEG");
    lemma_upper_ascii_prefix("NPEG"@, rest);
    reveal_strlit("NPEH");
    lemma_upper_ascii_prefix("NPEH"@, rest);
    reveal_strlit("NPEX");
    lemma_upper_ascii_prefix("NPEX"@, rest);
    reveal_strlit("NPEZ");
    lemma_upper_ascii_prefix("NPEZ"@, rest);
    reveal_strlit("NPHG");
    lemma_upper_ascii_prefix("NPHG"@, rest);
    reveal_strlit("NPHH");
    lemma_upper_ascii_prefix("NPHH"@, rest);
    reveal_strlit("NPHZ");
    lemma_upper_ascii_prefix("NPHZ"@, rest);
    reveal_strlit("NPJG");
    lemma_upper_ascii_prefix("NPJG"@, rest);
    reveal_strlit("NPJH");
    lemma_upper_ascii_prefix("NPJH"@, rest);
    reveal_strlit("NPJJ");
    lemma_upper_ascii_prefix("NPJJ"@, rest);
    reveal_strlit("NPUF");
    lemma_upper_ascii_prefix("NPUF"@, rest);
    reveal_strlit("NPUG");
    lemma_upper_ascii_prefix("NPUG"@, rest);
    reveal_strlit("NPUH");
    lemma_upper_ascii_prefix("NPUH"@, rest);
    reveal_strlit("NPUX");
    lemma_upper_ascii_prefix("NPUX"@, rest);
    reveal_strlit("NPUZ");
    lemma_upper_ascii_prefix("NPUZ"@, rest);
    reveal_strlit("UCAS");
    lemma_upper_ascii_prefix("UCAS"@, rest);
    reveal_strlit("UCES");
    lemma_upper_ascii_prefix("UCES"@, rest);
    reveal_strlit("UCJB");
    lemma_upper_ascii_prefix("UCJB"@, rest);
    reveal_strlit("UCJM");
    lemma_upper_ascii_prefix("UCJM"@, rest);
    reveal_strlit("UCJS");
    lemma_upper_ascii_prefix("UCJS"@, rest);
    reveal_strlit("UCKS");
    lemma_upper_ascii_prefix("UCKS"@, rest);
    reveal_strlit("UCUS");
    lemma_upper_ascii_prefix("UCUS"@, rest);
    reveal_strlit("ULAS");
    lemma_upper_ascii_prefix("ULAS"@, rest);
    reveal_strlit("ULES");
    lemma_upper_ascii_prefix("ULES"@, rest);
    reveal_strlit("ULJM");
    lemma_upper_ascii_prefix("ULJM"@, rest);
    reveal_strlit("ULJS");
    lemma_upper_ascii_prefix("ULJS"@, rest);
    reveal_strlit("ULKS");
    lemma_upper_ascii_prefix("ULKS"@, rest);
    reveal_strlit("ULUS");
    lemma_upper_ascii_prefix("ULUS"@, rest);
}

/// The cover URL of a PlayStation title id is its HexFlow PS1 cover, and that of
/// a PSP title id its HexFlow PSP cover, named by the title id as given.
pub proof fn law_hexflow_cover_urls(
    titleid: Seq<char>,
    table: Map<Seq<char>, (Seq<char>, Seq<char>)>,
    default_img: Seq<char>,
)
    ensures
        spec_is_ps1_id(titleid) ==> chihiro_url(titleid, table, default_img)
            == "https://raw.githubusercontent.com/Andiweli/HexFlow-Covers/main/Covers/PS1/"@ + titleid
            + ".png"@,
        !spec_is_ps1_id(titleid) && spec_is_psp_id(titleid) ==> chihiro_url(titleid, table, default_img)
            == "https://raw.githubusercontent.com/Andiweli/HexFlow-Covers/main/Covers/PSP/"@ + titleid
            + ".png"@,
{
}

/// For a title id of neither platform, the cover URL is the PlayStation Store
/// image when the database has the title, in Japanese (`ja`) exactly for the
/// region `JP` and in English (`en`) for every other region, and the default
/// image when the database does not have it.
pub proof fn law_store_cover_url(
    titleid: Seq<char>,
    table: Map<Seq<char>, (Seq<char>, Seq<char>)>,
    default_img: Seq<char>,
)
    requires
        !spec_is_ps1_id(titleid),
        !spec_is_psp_id(titleid),
    ensures
        table.contains_key(titleid) && table[titleid].0 == "JP"@ ==> chihiro_url(titleid, table, default_img)
            == "https://store.playstation.com/store/api/chihiro/00_09_000/container/"@ + "JP"@ + "/ja/19/"@
            + table[titleid].1 + "/image?w=248&h=248"@,
        table.contains_key(titleid) && table[titleid].0 != "JP"@ ==> chihiro_url(titleid, table, default_img)
            == "https://store.playstation.com/store/api/chihiro/00_09_000/container/"@ + table[titleid].0
            + "/en/19/"@ + table[titleid].1 + "/image?w=248&h=248"@,
        !table.contains_key(titleid) ==> chihiro_url(titleid, table, default_img) == default_img,
{
    if table.contains_key(titleid) {
        let (region, content_id) = table[titleid];
        let base = "https://store.playstation.com/store/api/chihiro/00_09_000/container/"@;
        let tail = "/image?w=248&h=248"@;
        if region == "JP"@ {
            assert(base + region + "/"@ + "ja"@ + "/19/"@ + content_id + tail =~= base + "JP"@ + "/ja/19/"@
                + content_id + tail) by {
                reveal_strlit("/");
                reveal_strlit("ja");
                reveal_strlit("/19/");
                reveal_strlit("/ja/19/");
            }
        } else {
            assert(base + region + "/"@ + "en"@ + "/19/"@ + content_id + tail =~= base + region + "/en/19/"@
                + content_id + tail) by {
                reveal_strlit("/");
                reveal_strlit("en");
                reveal_strlit("/19/");
                reveal_strlit("/en/19/");
            }
        }
    }
}

} // verus!

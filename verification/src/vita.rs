use vstd::prelude::*;
use vstd::hash_map::StringHashMap;
use vstd::string::*;
use crate::catalog::{chihiro_url, get_chihiro_url};
use crate::packet::{or_default, string_or};
use crate::text::{spec_trim_nul, to_uppercase, trim_nul, unicode_upper};
use crate::tsv::table_view;

verus! {

broadcast use vstd::string::group_string_axioms;

/// After this many failed connections in a row the activity is cleared.
pub const MAX_FAILS: u32 = 5;

/// The TCP port of the console plugin, and of its HTTP server.
pub const CONSOLE_PORT: u16 = 0xCAFE;

/// What the console is running, and the cover shown for it.
pub struct Game {
    pub titleid: String,
    pub title: String,
    pub image_url: String,
}

/// Whether one more failure after `count` failures in a row clears the activity.
pub open spec fn failure_clears(count: u32) -> bool {
    count + 1 >= MAX_FAILS
}

/// The failure count after one more failure.
pub open spec fn count_after_failure(count: u32) -> u32 {
    if failure_clears(count) {
        0
    } else {
        (count + 1) as u32
    }
}

/// The failure count after `k` failures in a row from a fresh counter.
pub open spec fn count_after_failures(k: nat) -> u32
    decreases k,
{
    if k == 0 {
        0
    } else {
        count_after_failure(count_after_failures((k - 1) as nat))
    }
}

/// In a run of failed connections, every `MAX_FAILS`-th failure clears the
/// activity and no other does, and the count in between is the number of
/// failures since the last clearing.
pub proof fn law_failures_cycle(k: nat)
    ensures
        count_after_failures(k) == k % (MAX_FAILS as nat),
        k > 0 ==> (failure_clears(count_after_failures((k - 1) as nat)) <==> k % (MAX_FAILS as nat)
            == 0),
    decreases k,
{
    if k > 0 {
        law_failures_cycle((k - 1) as nat);
    }
}

/// Counts failed connections to the console; it never reaches `MAX_FAILS`.
pub struct FailCounter {
    count: u32,
}

impl View for FailCounter {
    type V = u32;

    closed spec fn view(&self) -> u32 {
        self.count
    }
}

impl FailCounter {
    #[verifier::type_invariant]
    closed spec fn below_max(self) -> bool {
        self.count < MAX_FAILS
    }

    pub fn new() -> (r: FailCounter)
        ensures
            r@ == 0,
    {
        FailCounter { count: 0 }
    }

    pub fn count(&self) -> (r: u32)
        ensures
            r == self@,
            r < MAX_FAILS,
    {
        proof {
            use_type_invariant(self);
        }
        self.count
    }

    /// Counts one more failed connection. Returns whether this failure makes
    /// `MAX_FAILS` in a row, in which case the activity is to be cleared and
    /// the count starts again from zero.
    pub fn record_failure(&mut self) -> (clear: bool)
        ensures
            clear == failure_clears(old(self)@),
            final(self)@ == count_after_failure(old(self)@),
    {
        proof {
            use_type_invariant(&*self);
        }
        let next = self.count + 1;
        if next >= MAX_FAILS {
            self.count = 0;
            true
        } else {
            self.count = next;
            false
        }
    }

    /// Starts the count again after a good exchange with the console.
    pub fn reset(&mut self)
        ensures
            final(self)@ == 0,
    {
        self.count = 0;
    }
}

/// The cover of a game as the console client sees it: kept when the title id
/// is the one already shown, else the catalogue cover of the upper-cased title id.
pub open spec fn refreshed_image(
    previous: Option<(Seq<char>, Seq<char>)>,
    titleid: Seq<char>,
    table: Map<Seq<char>, (Seq<char>, Seq<char>)>,
    default_img: Seq<char>,
) -> Seq<char> {
    match previous {
        Some((prev_id, prev_url)) if prev_id == titleid => prev_url,
        _ => chihiro_url(unicode_upper(titleid), table, default_img),
    }
}

/// The title id and cover URL of the game shown before, if any.
pub open spec fn shown(previous: Option<Game>) -> Option<(Seq<char>, Seq<char>)> {
    match previous {
        Some(g) => Some((g.titleid@, g.image_url@)),
        None => None,
    }
}

/// The cover URL for a title id when nothing else is known: the catalogue
/// cover of the upper-cased title id.
pub fn catalogue_cover(titleid: &str, tsv: &StringHashMap<(String, String)>, default_img: &str) -> (url: String)
    ensures
        url@ == chihiro_url(unicode_upper(titleid@), table_view(tsv@), default_img@),
{
    let upper = to_uppercase(titleid);
    get_chihiro_url(upper.as_str(), tsv, default_img)
}

/// The game to show after the console reported `titleid` and `title`.
pub fn refresh_game(
    previous: &Option<Game>,
    titleid: String,
    title: String,
    tsv: &StringHashMap<(String, String)>,
    default_img: &str,
) -> (g: Game)
    ensures
        g.titleid@ == titleid@,
        g.title@ == title@,
        g.image_url@ == refreshed_image(shown(*previous), titleid@, table_view(tsv@), default_img@),
{
    let image_url = match previous {
        Some(prev) if prev.titleid == titleid => prev.image_url.clone(),
        _ => catalogue_cover(titleid.as_str(), tsv, default_img),
    };
    Game { titleid, title, image_url }
}

/// The console client keeps the shown cover only while the title id stays the
/// same: with no game shown before, or a different title id reported (the home
/// screen included), the cover is the catalogue cover of the upper-cased
/// reported title id; with the same title id it is the cover shown before.
pub proof fn law_refresh_cover(
    previous: Option<Game>,
    titleid: Seq<char>,
    table: Map<Seq<char>, (Seq<char>, Seq<char>)>,
    default_img: Seq<char>,
)
    ensures
        previous is None ==> refreshed_image(shown(previous), titleid, table, default_img) == chihiro_url(
            unicode_upper(titleid),
            table,
            default_img,
        ),
        previous matches Some(g) && g.titleid@ != titleid ==> refreshed_image(
            shown(previous),
            titleid,
            table,
            default_img,
        ) == chihiro_url(unicode_upper(titleid), table, default_img),
        previous matches Some(g) && g.titleid@ == titleid ==> refreshed_image(
            shown(previous),
            titleid,
            table,
            default_img,
        ) == previous->0.image_url@,
{
}

/// The texts of the `<p>` elements of an HTML document, in document order,
/// as the `scraper` crate parses the document.
pub uninterp spec fn html_paragraph_texts(html: Seq<char>) -> Seq<Seq<char>>;

/// The `src` attribute of the first `<img>` element of an HTML document, as
/// the `scraper` crate parses the document.
pub uninterp spec fn html_first_img_src(html: Seq<char>) -> Option<Seq<char>>;

/// Parses a document with `scraper::Html::parse_document` and collects the
/// text of each element that `scraper::Selector` `p` selects; the result is
/// named `html_paragraph_texts`.
#[verifier::external_body]
fn paragraph_texts(html: &str) -> (r: Vec<String>)
    ensures
        r@.map_values(|s: String| s@) == html_paragraph_texts(html@),
{
    let doc = scraper::Html::parse_document(html);
    let selector = scraper::Selector::parse("p").unwrap();
    doc.select(&selector).map(|el| el.text().collect::<String>()).collect()
}

/// Parses a document with `scraper::Html::parse_document` and reads the `src`
/// attribute of the first element that `scraper::Selector` `img` selects; the
/// result is named `html_first_img_src`.
#[verifier::external_body]
fn first_img_src(html: &str) -> (r: Option<String>)
    ensures
        r matches Some(s) ==> html_first_img_src(html@) == Some(s@),
        r is None ==> html_first_img_src(html@) is None,
{
    let doc = scraper::Html::parse_document(html);
    let selector = scraper::Selector::parse("img").unwrap();
    doc.select(&selector).next().and_then(|el| el.value().attr("src")).map(|s| s.to_string())
}

/// What the console's status page says: the game title, its title id, and the
/// file name of its icon.
pub struct StatusPage {
    pub title: String,
    pub titleid: String,
    pub icon: Option<String>,
}

/// The status page read from the body of the console's HTTP reply: NULs at
/// either end are removed, the first paragraph is the title (the home screen
/// when missing), the second the title id, and the first image the icon.
pub open spec fn spec_status_page(body: Seq<char>) -> (Seq<char>, Seq<char>, Option<Seq<char>>) {
    let doc = spec_trim_nul(body);
    let texts = html_paragraph_texts(doc);
    (
        if texts.len() > 0 { texts[0] } else { "Live Area"@ },
        if texts.len() > 1 { texts[1] } else { "livearea"@ },
        html_first_img_src(doc),
    )
}

pub open spec fn page_view(p: StatusPage) -> (Seq<char>, Seq<char>, Option<Seq<char>>) {
    (
        p.title@,
        p.titleid@,
        match p.icon {
            Some(s) => Some(s@),
            None => None,
        },
    )
}

/// Reads the console's status page.
pub fn read_status_page(body: &str) -> (page: StatusPage)
    ensures
        page_view(page) == spec_status_page(body@),
{
    let doc = trim_nul(body);
    let texts = paragraph_texts(doc.as_str());
    let ghost tv = texts@.map_values(|s: String| s@);
    let title = if texts.len() > 0 {
        texts[0].clone()
    } else {
        String::from_str("Live Area")
    };
    let titleid = if texts.len() > 1 {
        texts[1].clone()
    } else {
        String::from_str("livearea")
    };
    proof {
        if texts@.len() > 0 {
            assert(tv[0] == texts@[0]@);
        }
        if texts@.len() > 1 {
            assert(tv[1] == texts@[1]@);
        }
    }
    let icon = first_img_src(doc.as_str());
    StatusPage { title, titleid, icon }
}

/// The URL of the console's HTTP server at `host`.
pub open spec fn spec_console_url(host: Seq<char>) -> Seq<char> {
    "http://"@ + host + ":51966"@
}

/// The URL of a file served by the console's HTTP server at `host`.
pub open spec fn spec_console_file_url(host: Seq<char>, file_name: Seq<char>) -> Seq<char> {
    spec_console_url(host) + "/"@ + file_name
}

pub fn console_url(host: &str) -> (url: String)
    ensures
        url@ == spec_console_url(host@),
{
    let mut url = String::from_str("http://");
    url.append(host);
    url.append(":51966");
    url
}

pub fn console_file_url(host: &str, file_name: &str) -> (url: String)
    ensures
        url@ == spec_console_file_url(host@, file_name@),
{
    let mut url = console_url(host);
    url.append("/");
    url.append(file_name);
    url
}

/// What the HTTP client does with a status page.
pub enum PageAction {
    /// The page has no icon: show this game, with its catalogue cover, and
    /// leave the failure count as it is.
    ShowWithoutIcon(Game),
    /// The same game as before: show it with the cover it already has.
    KeepCover(Game),
    /// A new game: find its cover from the icon at `local_image`, then show it.
    FindCover { titleid: String, title: String, local_image: String },
}

impl PageAction {
    /// Whether acting on the page counts as a good exchange with the console,
    /// which starts the failure count again: so does every page but one
    /// without an icon.
    pub fn resets_failures(&self) -> (r: bool)
        ensures
            r == !(self is ShowWithoutIcon),
    {
        match self {
            PageAction::ShowWithoutIcon(_) => false,
            _ => true,
        }
    }
}

/// Decides what to do with a status page, given the game shown before.
/// Without an icon the title id and title are taken as the page gives them;
/// with one, an empty title id or title stands for the home screen.
pub fn plan_page(
    previous: &Option<Game>,
    page: StatusPage,
    host: &str,
    tsv: &StringHashMap<(String, String)>,
    default_img: &str,
) -> (action: PageAction)
    ensures
        match action {
            PageAction::ShowWithoutIcon(g) => {
                &&& page.icon is None
                &&& g.titleid@ == page.titleid@
                &&& g.title@ == page.title@
                &&& g.image_url@ == chihiro_url(unicode_upper(page.titleid@), table_view(tsv@), default_img@)
            },
            PageAction::KeepCover(g) => {
                &&& page.icon is Some
                &&& previous matches Some(p) && p.titleid@ == or_default(page.titleid@, "livearea"@)
                &&& g.titleid@ == or_default(page.titleid@, "livearea"@)
                &&& g.title@ == or_default(page.title@, "Live Area"@)
                &&& g.image_url@ == previous->0.image_url@
            },
            PageAction::FindCover { titleid, title, local_image } => {
                &&& page.icon matches Some(icon) && local_image@ == spec_console_file_url(host@, icon@)
                &&& !(previous matches Some(p) && p.titleid@ == or_default(page.titleid@, "livearea"@))
                &&& titleid@ == or_default(page.titleid@, "livearea"@)
                &&& title@ == or_default(page.title@, "Live Area"@)
            },
        },
{
    let StatusPage { title, titleid, icon } = page;
    match icon {
        None => {
            let image_url = catalogue_cover(titleid.as_str(), tsv, default_img);
            PageAction::ShowWithoutIcon(Game { titleid, title, image_url })
        },
        Some(file_name) => {
            let titleid = string_or(titleid, "livearea");
            let title = string_or(title, "Live Area");
            match previous {
                Some(prev) if prev.titleid == titleid => {
                    let image_url = prev.image_url.clone();
                    PageAction::KeepCover(Game { titleid, title, image_url })
                },
                _ => {
                    let local_image = console_file_url(host, file_name.as_str());
                    PageAction::FindCover { titleid, title, local_image }
                },
            }
        },
    }
}

} // verus!

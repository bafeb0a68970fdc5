use vstd::prelude::*;
use vstd::hash_map::StringHashMap;
use vstd::string::*;
use crate::cache::{
    get_litterbox_image, insert_litterbox_cache, lookup_allowed, spec_after_lookup, spec_lookup,
    LitterboxCache,
};
use crate::catalog::chihiro_url;
use crate::text::{spec_trim, str_is, trim, unicode_upper};
use crate::tsv::table_view;
use crate::vita::catalogue_cover;

verus! {

broadcast use vstd::string::group_string_axioms;

/// The first step of finding a game's cover.
pub enum CoverStart {
    /// The cover is known already.
    Ready(String),
    /// The icon must be fetched from the console and uploaded.
    FetchIcon,
}

/// Starts finding the cover of `titleid`: the home screen has the default
/// image, a game with a fresh cover in the cache has that cover (and an
/// expired one leaves the cache), and any other game needs its icon uploaded.
pub fn start_cover(titleid: &str, default_img: &str, cache: &mut LitterboxCache, now: u64) -> (r: CoverStart)
    requires
        titleid@ != "livearea"@ ==> lookup_allowed(old(cache)@, titleid@, now),
    ensures
        titleid@ == "livearea"@ ==> (r matches CoverStart::Ready(u) && u@ == default_img@),
        titleid@ == "livearea"@ ==> final(cache)@ == old(cache)@,
        titleid@ != "livearea"@ ==> {
            &&& final(cache)@ == spec_after_lookup(old(cache)@, titleid@, now)
            &&& match spec_lookup(old(cache)@, titleid@, now) {
                Some(u) => (r matches CoverStart::Ready(v) && v@ == u),
                None => r is FetchIcon,
            }
        },
{
    if str_is(titleid, "livearea") {
        return CoverStart::Ready(String::from_str(default_img));
    }
    match get_litterbox_image(cache, titleid, now) {
        Some(url) => CoverStart::Ready(url),
        None => CoverStart::FetchIcon,
    }
}

/// The cover used when fetching or uploading the icon fails: the catalogue
/// cover of the upper-cased title id.
pub fn fallback_cover(titleid: &str, tsv: &StringHashMap<(String, String)>, default_img: &str) -> (url: String)
    ensures
        url@ == chihiro_url(unicode_upper(titleid@), table_view(tsv@), default_img@),
{
    catalogue_cover(titleid, tsv, default_img)
}

/// The file name under which a game's icon is uploaded.
pub fn upload_file_name(titleid: &str) -> (name: String)
    ensures
        name@ == titleid@ + ".png"@,
{
    let mut name = String::from_str(titleid);
    name.append(".png");
    name
}

/// Finishes finding a cover from the upload service's reply: the cover is the
/// reply without surrounding white space, and it is cached for `titleid` as
/// uploaded at `now`.
pub fn finish_upload(cache: &mut LitterboxCache, titleid: &str, reply: &str, now: u64) -> (url: String)
    ensures
        url@ == spec_trim(reply@),
        final(cache)@ == old(cache)@.insert(titleid@, (url@, now)),
{
    let url = trim(reply);
    insert_litterbox_cache(cache, titleid, url.as_str(), now);
    url
}

} // verus!

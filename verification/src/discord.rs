use vstd::prelude::*;
use vstd::string::*;
use crate::text::string_is;

verus! {

broadcast use vstd::string::group_string_axioms;

/// What to tell Discord.
pub enum PresenceAction {
    /// Show an activity whose state is the game title, with a large image when there is one.
    Show { state: String, large_image: Option<String> },
    /// Clear the activity.
    Clear,
}

/// Decides the Discord activity for the game being played, given as its title
/// and cover URL: the home screen is hidden unless `show_live_area` is set, an
/// empty cover URL shows no image, and no game clears the activity.
pub fn presence_action(activity: Option<(String, String)>, show_live_area: bool) -> (r: PresenceAction)
    ensures
        match activity {
            None => r is Clear,
            Some((title, image_url)) => if title@ != "Live Area"@ || show_live_area {
                &&& r matches PresenceAction::Show { state, large_image }
                &&& state@ == title@
                &&& if image_url@.len() == 0 {
                    large_image is None
                } else {
                    (large_image matches Some(i) && i@ == image_url@)
                }
            } else {
                r is Clear
            },
        },
{
    match activity {
        None => PresenceAction::Clear,
        Some((title, image_url)) => {
            if !string_is(&title, "Live Area") || show_live_area {
                let large_image = if image_url.as_str().is_empty() {
                    None
                } else {
                    Some(image_url)
                };
                PresenceAction::Show { state: title, large_image }
            } else {
                PresenceAction::Clear
            }
        },
    }
}

} // verus!

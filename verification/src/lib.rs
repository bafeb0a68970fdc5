//! Rich presence for the PS Vita: reads what the console is playing (from the
//! VitaPresence plugin's TCP packet or HTTP page), finds a cover image for the
//! game (HexFlow covers, the PlayStation Store, or an icon uploaded to
//! Litterbox and cached), and decides what Discord shows.

pub mod cache;
pub mod catalog;
pub mod discord;
pub mod images;
pub mod packet;
pub mod text;
pub mod tsv;
pub mod version;
pub mod vita;

pub use cache::{get_litterbox_image, insert_litterbox_cache, LitterboxCache, LitterboxImage, CACHE_MAX_AGE};
pub use catalog::{get_chihiro_url, is_ps1_id, is_psp_id};
pub use discord::{presence_action, PresenceAction};
pub use images::{fallback_cover, finish_upload, start_cover, upload_file_name, CoverStart};
pub use packet::{decode_game_packet, GAME_PACKET_LEN, GAME_PACKET_MAGIC};
pub use tsv::{parse_tsv, TitleTable};
pub use version::update_available;
pub use vita::{
    catalogue_cover, console_file_url, console_url, plan_page, read_status_page, refresh_game, FailCounter,
    Game, PageAction, StatusPage, CONSOLE_PORT, MAX_FAILS,
};

//! The watcher's configuration: the fixed endpoints and labels, and the two
//! addresses that the surroundings supply at start-up.

use crate::views::text_of;
use vstd::prelude::*;
use vstd::string::*;

verus! {

/// Where the version manifest is published.
pub const MANIFEST_URL: &'static str =
    "https://piston-meta.mojang.com/mc/game/version_manifest_v2.json";

/// The picture shown with both announcements.
pub const ICON_URL: &'static str =
    "https://resources.download.minecraft.net/df/df274fe57c49ef1af6d218703d805db76a5c8af9";

/// The push service's endpoint.
pub const PUSH_URL: &'static str = "https://ntfy.sh/";

/// The push service's topic.
pub const PUSH_TOPIC: &'static str = "mcupdate";

/// The name under which the chat announcement is signed.
pub const WEBHOOK_NAME: &'static str = "Minecraft Update";

/// The name of the file that keeps the marker.
pub const MARKER_FILE: &'static str = "prev_mc_snapshot.txt";

/// The pause between two cycles, in seconds.
pub const INTERVAL_SECONDS: u64 = 180;

/// The configuration of a watcher. It is made once, at start-up, and never
/// changed.
#[derive(Debug, PartialEq, Eq)]
pub struct Settings {
    pub manifest_url: String,
    pub push_url: String,
    pub push_topic: String,
    pub push_icon: String,
    pub webhook_url: String,
    pub webhook_name: String,
    pub webhook_icon: String,
    pub liveness_url: Option<String>,
    pub marker_file: String,
    pub interval_seconds: u64,
}

/// A configuration as contracts speak of it.
pub ghost struct SettingsView {
    pub manifest_url: Seq<char>,
    pub push_url: Seq<char>,
    pub push_topic: Seq<char>,
    pub push_icon: Seq<char>,
    pub webhook_url: Seq<char>,
    pub webhook_name: Seq<char>,
    pub webhook_icon: Seq<char>,
    pub liveness_url: Option<Seq<char>>,
    pub marker_file: Seq<char>,
    pub interval_seconds: u64,
}

impl View for Settings {
    type V = SettingsView;

    open spec fn view(&self) -> SettingsView {
        SettingsView {
            manifest_url: self.manifest_url@,
            push_url: self.push_url@,
            push_topic: self.push_topic@,
            push_icon: self.push_icon@,
            webhook_url: self.webhook_url@,
            webhook_name: self.webhook_name@,
            webhook_icon: self.webhook_icon@,
            liveness_url: text_of(self.liveness_url),
            marker_file: self.marker_file@,
            interval_seconds: self.interval_seconds,
        }
    }
}

/// The configuration with the fixed endpoints and labels, the chat webhook at
/// `webhook_url` and the liveness address `liveness_url`.
pub open spec fn standard_settings(
    webhook_url: Seq<char>,
    liveness_url: Option<Seq<char>>,
) -> SettingsView {
    SettingsView {
        manifest_url: MANIFEST_URL@,
        push_url: PUSH_URL@,
        push_topic: PUSH_TOPIC@,
        push_icon: ICON_URL@,
        webhook_url,
        webhook_name: WEBHOOK_NAME@,
        webhook_icon: ICON_URL@,
        liveness_url,
        marker_file: MARKER_FILE@,
        interval_seconds: INTERVAL_SECONDS,
    }
}

/// Why no configuration could be made.
#[derive(Clone, Copy, Debug, PartialEq, Eq, Structural)]
pub enum SettingsError {
    /// No address was given for the chat webhook.
    WebhookUrlMissing,
}

impl Settings {
    /// Makes the configuration from what the surroundings supply. The chat
    /// webhook's address is required; the liveness address is not.
    pub fn new(webhook_url: Option<String>, liveness_url: Option<String>) -> (made: Result<
        Settings,
        SettingsError,
    >)
        ensures
            webhook_url is None ==> made == Err::<Settings, SettingsError>(
                SettingsError::WebhookUrlMissing,
            ),
            webhook_url matches Some(url) ==> made is Ok && made->Ok_0@ == standard_settings(
                url@,
                text_of(liveness_url),
            ),
    {
        match webhook_url {
            None => Err(SettingsError::WebhookUrlMissing),
            Some(url) => Ok(
                Settings {
                    manifest_url: MANIFEST_URL.to_owned(),
                    push_url: PUSH_URL.to_owned(),
                    push_topic: PUSH_TOPIC.to_owned(),
                    push_icon: ICON_URL.to_owned(),
                    webhook_url: url,
                    webhook_name: WEBHOOK_NAME.to_owned(),
                    webhook_icon: ICON_URL.to_owned(),
                    liveness_url,
                    marker_file: MARKER_FILE.to_owned(),
                    interval_seconds: INTERVAL_SECONDS,
                },
            ),
        }
    }
}

} // verus!

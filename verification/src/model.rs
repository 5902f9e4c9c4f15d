//! The watcher as mathematics: for each stage and each event, the stage that
//! follows and the action that the watcher names. The functions of
//! [`crate::watcher`] compute exactly these.

use crate::documents::{detail_in, manifest_in, DetailReadingView, ManifestReadingView};
use crate::elapsed::{phrase, whole_hours};
use crate::notice::{embed, push_notice, ReleaseView};
use crate::protocol::{ActionView, EventView, Failure, OutcomeView, StageView};
use crate::settings::SettingsView;
use crate::timestamp::rfc3339_seconds;
use vstd::prelude::*;

verus! {

/// Giving up for the reason `failure`.
pub open spec fn halt(failure: Failure) -> (StageView, ActionView) {
    (StageView::Halted, ActionView::Halt { failure })
}

/// Ending the cycle with `outcome`.
pub open spec fn rest(outcome: OutcomeView) -> (StageView, ActionView) {
    (StageView::Idle, ActionView::Rest { outcome })
}

/// Asking for the manifest.
pub open spec fn fetch_manifest(settings: SettingsView) -> (StageView, ActionView) {
    (StageView::FetchingManifest, ActionView::FetchManifest { url: settings.manifest_url })
}

/// The start of a cycle: the liveness ping where an address for it is
/// configured, else the manifest at once.
pub open spec fn begin(settings: SettingsView) -> (StageView, ActionView) {
    match settings.liveness_url {
        Some(url) => (StageView::Pinging, ActionView::Ping { url }),
        None => fetch_manifest(settings),
    }
}

/// After the ping: the manifest, unless the ping could not be delivered.
pub open spec fn after_ping(settings: SettingsView, delivered: bool) -> (StageView, ActionView) {
    if delivered {
        fetch_manifest(settings)
    } else {
        halt(Failure::PingFailed)
    }
}

/// After the manifest was asked for: without a manifest the cycle ends;
/// with one, its snapshot is held against the marker.
pub open spec fn after_manifest(reading: Option<ManifestReadingView>) -> (StageView, ActionView) {
    match reading {
        None => rest(OutcomeView::ManifestUnavailable),
        Some(manifest) => match manifest.snapshot {
            None => halt(Failure::SnapshotMissing),
            Some(snapshot) => (
                StageView::ReadingMarker { snapshot, detail_url: manifest.detail_url },
                ActionView::ReadMarker,
            ),
        },
    }
}

/// After the marker was read: where it names `snapshot` the cycle ends;
/// else the snapshot is new, and its detail document is fetched.
pub open spec fn after_marker(
    snapshot: Seq<char>,
    detail_url: Option<Seq<char>>,
    marker: Option<Seq<char>>,
) -> (StageView, ActionView) {
    if marker == Some(snapshot) {
        rest(OutcomeView::Unchanged { snapshot })
    } else {
        match detail_url {
            None => halt(Failure::DetailUrlMissing),
            Some(url) => (
                StageView::FetchingDetail { snapshot, url },
                ActionView::FetchDetail { url },
            ),
        }
    }
}

/// The first announcement of a release that was read as `reading`, with
/// `release_seconds` the instant of its release timestamp in Unix seconds
/// (`None` where the timestamp is no RFC 3339 date and time) and `now` the
/// clock's time.
pub open spec fn announce(
    settings: SettingsView,
    snapshot: Seq<char>,
    detail_url: Seq<char>,
    reading: DetailReadingView,
    release_seconds: Option<int>,
    now: int,
) -> (StageView, ActionView) {
    match reading.release_time {
        None => halt(Failure::ReleaseTimeMissing),
        Some(release_time) => match reading.kind {
            None => halt(Failure::KindMissing),
            Some(kind) => match release_seconds {
                None => halt(Failure::ReleaseTimeInvalid),
                Some(released) => {
                    let release = ReleaseView {
                        snapshot,
                        kind,
                        release_time,
                        detail_url,
                        elapsed: phrase(whole_hours(now - released)),
                    };
                    (
                        StageView::Pushing { release },
                        ActionView::Push {
                            url: settings.push_url,
                            icon: settings.push_icon,
                            notice: push_notice(settings.push_topic, release),
                        },
                    )
                },
            },
        },
    }
}

/// The instant of the release timestamp in `reading`, in Unix seconds.
pub open spec fn release_instant(reading: DetailReadingView) -> Option<int> {
    match reading.release_time {
        Some(release_time) => rfc3339_seconds(release_time),
        None => None,
    }
}

/// After the detail document was asked for.
pub open spec fn after_detail(
    settings: SettingsView,
    snapshot: Seq<char>,
    detail_url: Seq<char>,
    body: Option<Seq<char>>,
    now: int,
) -> (StageView, ActionView) {
    match detail_in(body) {
        None => halt(Failure::DetailUnavailable),
        Some(reading) => announce(
            settings,
            snapshot,
            detail_url,
            reading,
            release_instant(reading),
            now,
        ),
    }
}

/// After the push notice: the chat announcement, unless the push could not
/// be delivered.
pub open spec fn after_push(settings: SettingsView, release: ReleaseView, delivered: bool) -> (
    StageView,
    ActionView,
) {
    if delivered {
        (
            StageView::Posting { snapshot: release.snapshot },
            ActionView::PostWebhook {
                url: settings.webhook_url,
                embed: embed(settings.webhook_name, settings.webhook_icon, release),
            },
        )
    } else {
        halt(Failure::PushFailed)
    }
}

/// After the chat announcement: the marker is stored, unless the
/// announcement could not be delivered.
pub open spec fn after_webhook(snapshot: Seq<char>, delivered: bool) -> (StageView, ActionView) {
    if delivered {
        (StageView::Saving { snapshot }, ActionView::SaveMarker { snapshot })
    } else {
        halt(Failure::WebhookFailed)
    }
}

/// After the marker was written.
pub open spec fn after_save(snapshot: Seq<char>, stored: bool) -> (StageView, ActionView) {
    if stored {
        rest(OutcomeView::Announced { snapshot })
    } else {
        halt(Failure::MarkerNotSaved)
    }
}

/// One step of the watcher: at `stage`, on `event`, the stage that follows
/// and the action that is named. An event that does not answer the action
/// with which `stage` was entered makes the watcher give up.
pub open spec fn step(settings: SettingsView, stage: StageView, event: EventView) -> (
    StageView,
    ActionView,
) {
    match (stage, event) {
        (StageView::Idle, EventView::Woken) => begin(settings),
        (StageView::Pinging, EventView::Pinged { delivered }) => after_ping(settings, delivered),
        (StageView::FetchingManifest, EventView::ManifestFetched { body }) => after_manifest(
            manifest_in(body),
        ),
        (
            StageView::ReadingMarker { snapshot, detail_url },
            EventView::MarkerRead { marker },
        ) => after_marker(snapshot, detail_url, marker),
        (StageView::ReadingMarker { .. }, EventView::MarkerUnreadable) => halt(
            Failure::MarkerUnreadable,
        ),
        (
            StageView::FetchingDetail { snapshot, url },
            EventView::DetailFetched { body, now },
        ) => after_detail(settings, snapshot, url, body, now as int),
        (StageView::Pushing { release }, EventView::PushSent { delivered }) => after_push(
            settings,
            release,
            delivered,
        ),
        (StageView::Posting { snapshot }, EventView::WebhookSent { delivered }) => after_webhook(
            snapshot,
            delivered,
        ),
        (StageView::Saving { snapshot }, EventView::MarkerSaved { stored }) => after_save(
            snapshot,
            stored,
        ),
        _ => halt(Failure::OutOfTurn),
    }
}

} // verus!

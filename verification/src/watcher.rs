//! The watcher itself. It performs no request and touches no file: its
//! surroundings do, and hand each result to [`step`], which says what comes
//! next.

use crate::documents::{
    detail_from, manifest_from, manifest_view, DetailReading, ManifestReading,
};
use crate::elapsed::{elapsed_phrase, hours_between};
use crate::model;
use crate::notice::{Embed, PushNotice, Release};
use crate::protocol::{turn_view, Action, Event, Failure, Outcome, Stage};
use crate::settings::Settings;
use crate::timestamp::unix_seconds;
use crate::views::{seconds_of, text_of};
use vstd::prelude::*;

verus! {

/// Gives up for the reason `failure`.
pub fn halt(failure: Failure) -> (turn: (Stage, Action))
    ensures
        turn_view(turn) == model::halt(failure),
{
    (Stage::Halted, Action::Halt { failure })
}

/// Ends the cycle with `outcome`.
pub fn rest(outcome: Outcome) -> (turn: (Stage, Action))
    ensures
        turn_view(turn) == model::rest(outcome@),
{
    (Stage::Idle, Action::Rest { outcome })
}

/// Asks for the manifest.
pub fn fetch_manifest(settings: &Settings) -> (turn: (Stage, Action))
    ensures
        turn_view(turn) == model::fetch_manifest(settings@),
{
    (Stage::FetchingManifest, Action::FetchManifest { url: settings.manifest_url.clone() })
}

/// Starts a cycle.
pub fn begin(settings: &Settings) -> (turn: (Stage, Action))
    ensures
        turn_view(turn) == model::begin(settings@),
{
    match &settings.liveness_url {
        Some(url) => (Stage::Pinging, Action::Ping { url: url.clone() }),
        None => fetch_manifest(settings),
    }
}

/// Goes on after the liveness ping.
pub fn after_ping(settings: &Settings, delivered: bool) -> (turn: (Stage, Action))
    ensures
        turn_view(turn) == model::after_ping(settings@, delivered),
{
    if delivered {
        fetch_manifest(settings)
    } else {
        halt(Failure::PingFailed)
    }
}

/// Goes on after the manifest was asked for and read as `reading`.
pub fn after_manifest(reading: Option<ManifestReading>) -> (turn: (Stage, Action))
    ensures
        turn_view(turn) == model::after_manifest(manifest_view(reading)),
{
    match reading {
        None => rest(Outcome::ManifestUnavailable),
        Some(manifest) => match manifest.snapshot {
            None => halt(Failure::SnapshotMissing),
            Some(snapshot) => (
                Stage::ReadingMarker { snapshot, detail_url: manifest.detail_url },
                Action::ReadMarker,
            ),
        },
    }
}

/// Holds `snapshot` against the stored `marker`.
pub fn after_marker(
    snapshot: String,
    detail_url: Option<String>,
    marker: Option<String>,
) -> (turn: (Stage, Action))
    ensures
        turn_view(turn) == model::after_marker(snapshot@, text_of(detail_url), text_of(marker)),
{
    let unchanged = match &marker {
        Some(stored) => *stored == snapshot,
        None => false,
    };
    if unchanged {
        rest(Outcome::Unchanged { snapshot })
    } else {
        match detail_url {
            None => halt(Failure::DetailUrlMissing),
            Some(url) => {
                let asked = url.clone();
                (
                    Stage::FetchingDetail { snapshot, url },
                    Action::FetchDetail { url: asked },
                )
            },
        }
    }
}

/// Composes the first announcement of a release from what was read of it.
/// `release_seconds` is the instant of the release timestamp in Unix
/// seconds, `None` where the timestamp is no RFC 3339 date and time, and
/// `now` is the clock's time.
pub fn announce(
    settings: &Settings,
    snapshot: String,
    detail_url: String,
    reading: DetailReading,
    release_seconds: Option<i64>,
    now: i64,
) -> (turn: (Stage, Action))
    ensures
        turn_view(turn) == model::announce(
            settings@,
            snapshot@,
            detail_url@,
            reading@,
            seconds_of(release_seconds),
            now as int,
        ),
{
    match reading.release_time {
        None => halt(Failure::ReleaseTimeMissing),
        Some(release_time) => match reading.kind {
            None => halt(Failure::KindMissing),
            Some(kind) => match release_seconds {
                None => halt(Failure::ReleaseTimeInvalid),
                Some(released) => {
                    let elapsed = elapsed_phrase(hours_between(now, released));
                    let release = Release { snapshot, kind, release_time, detail_url, elapsed };
                    let notice = PushNotice::compose(settings.push_topic.as_str(), &release);
                    (
                        Stage::Pushing { release },
                        Action::Push {
                            url: settings.push_url.clone(),
                            icon: settings.push_icon.clone(),
                            notice,
                        },
                    )
                },
            },
        },
    }
}

/// The instant of the release timestamp in `reading`, in Unix seconds.
pub fn release_instant(reading: &DetailReading) -> (seconds: Option<i64>)
    ensures
        seconds_of(seconds) == model::release_instant(reading@),
{
    match &reading.release_time {
        Some(release_time) => unix_seconds(release_time.as_str()),
        None => None,
    }
}

/// Goes on after the detail document was asked for.
pub fn after_detail(
    settings: &Settings,
    snapshot: String,
    detail_url: String,
    body: Option<String>,
    now: i64,
) -> (turn: (Stage, Action))
    ensures
        turn_view(turn) == model::after_detail(
            settings@,
            snapshot@,
            detail_url@,
            text_of(body),
            now as int,
        ),
{
    match detail_from(&body) {
        None => halt(Failure::DetailUnavailable),
        Some(reading) => {
            let release_seconds = release_instant(&reading);
            announce(settings, snapshot, detail_url, reading, release_seconds, now)
        },
    }
}

/// Goes on after the push notice was posted.
pub fn after_push(settings: &Settings, release: Release, delivered: bool) -> (turn: (Stage, Action))
    ensures
        turn_view(turn) == model::after_push(settings@, release@, delivered),
{
    if delivered {
        let embed = Embed::compose(
            settings.webhook_name.as_str(),
            settings.webhook_icon.as_str(),
            &release,
        );
        (
            Stage::Posting { snapshot: release.snapshot },
            Action::PostWebhook { url: settings.webhook_url.clone(), embed },
        )
    } else {
        halt(Failure::PushFailed)
    }
}

/// Goes on after the chat announcement was posted.
pub fn after_webhook(snapshot: String, delivered: bool) -> (turn: (Stage, Action))
    ensures
        turn_view(turn) == model::after_webhook(snapshot@, delivered),
{
    if delivered {
        let stored = snapshot.clone();
        (Stage::Saving { snapshot }, Action::SaveMarker { snapshot: stored })
    } else {
        halt(Failure::WebhookFailed)
    }
}

/// Goes on after the marker was written.
pub fn after_save(snapshot: String, stored: bool) -> (turn: (Stage, Action))
    ensures
        turn_view(turn) == model::after_save(snapshot@, stored),
{
    if stored {
        rest(Outcome::Announced { snapshot })
    } else {
        halt(Failure::MarkerNotSaved)
    }
}

/// One step of the watcher: takes the stage it is at and the event that its
/// surroundings report, and gives the stage that follows and the action to
/// perform next.
pub fn step(settings: &Settings, stage: Stage, event: Event) -> (turn: (Stage, Action))
    ensures
        turn_view(turn) == model::step(settings@, stage@, event@),
{
    match (stage, event) {
        (Stage::Idle, Event::Woken) => begin(settings),
        (Stage::Pinging, Event::Pinged { delivered }) => after_ping(settings, delivered),
        (Stage::FetchingManifest, Event::ManifestFetched { body }) => after_manifest(
            manifest_from(&body),
        ),
        (
            Stage::ReadingMarker { snapshot, detail_url },
            Event::MarkerRead { marker },
        ) => after_marker(snapshot, detail_url, marker),
        (Stage::ReadingMarker { .. }, Event::MarkerUnreadable) => halt(Failure::MarkerUnreadable),
        (
            Stage::FetchingDetail { snapshot, url },
            Event::DetailFetched { body, now },
        ) => after_detail(settings, snapshot, url, body, now),
        (Stage::Pushing { release }, Event::PushSent { delivered }) => after_push(
            settings,
            release,
            delivered,
        ),
        (Stage::Posting { snapshot }, Event::WebhookSent { delivered }) => after_webhook(
            snapshot,
            delivered,
        ),
        (Stage::Saving { snapshot }, Event::MarkerSaved { stored }) => after_save(snapshot, stored),
        _ => halt(Failure::OutOfTurn),
    }
}

} // verus!

//! What holds of every cycle.
//!
//! A cycle is the watcher's conversation with its surroundings from a
//! wake-up to the next pause or to the end of the process. The surroundings
//! are described by the answers they give, the conversation by the actions
//! that the watcher names in turn.

use crate::documents::{detail_in, manifest_in};
use crate::elapsed::{phrase, whole_hours};
use crate::model::{release_instant, step};
use crate::notice::{embed, push_notice, ReleaseView};
use crate::protocol::{ActionView, EventView, Failure, OutcomeView, StageView};
use crate::settings::SettingsView;
use vstd::prelude::*;

verus! {

/// The answers of the surroundings during one cycle.
pub ghost struct Replies {
    /// Whether the liveness ping is delivered.
    pub ping_delivered: bool,
    /// The body of the manifest response, `None` where the fetch fails.
    pub manifest_body: Option<Seq<char>>,
    /// Whether the stored marker can be read.
    pub marker_readable: bool,
    /// The stored marker, `None` where none is stored.
    pub marker: Option<Seq<char>>,
    /// The body of the detail response, `None` where the fetch fails.
    pub detail_body: Option<Seq<char>>,
    /// The clock's time when the detail document arrives.
    pub now: i64,
    /// Whether the push notice is delivered.
    pub push_delivered: bool,
    /// Whether the chat announcement is delivered.
    pub webhook_delivered: bool,
    /// Whether the marker can be written.
    pub marker_stored: bool,
}

/// The event with which the surroundings answer `action`.
pub open spec fn answer(replies: Replies, action: ActionView) -> EventView {
    match action {
        ActionView::Ping { .. } => EventView::Pinged { delivered: replies.ping_delivered },
        ActionView::FetchManifest { .. } => EventView::ManifestFetched {
            body: replies.manifest_body,
        },
        ActionView::ReadMarker => if replies.marker_readable {
            EventView::MarkerRead { marker: replies.marker }
        } else {
            EventView::MarkerUnreadable
        },
        ActionView::FetchDetail { .. } => EventView::DetailFetched {
            body: replies.detail_body,
            now: replies.now,
        },
        ActionView::Push { .. } => EventView::PushSent { delivered: replies.push_delivered },
        ActionView::PostWebhook { .. } => EventView::WebhookSent {
            delivered: replies.webhook_delivered,
        },
        ActionView::SaveMarker { .. } => EventView::MarkerSaved { stored: replies.marker_stored },
        ActionView::Rest { .. } => EventView::Woken,
        ActionView::Halt { .. } => EventView::Woken,
    }
}

/// Whether `action` ends a cycle.
pub open spec fn is_last(action: ActionView) -> bool {
    action is Rest || action is Halt
}

/// The actions that the watcher names from `stage` on, when `event` has
/// just arrived, up to the one that ends the cycle, or `limit` further
/// actions at most.
pub open spec fn actions_from(
    settings: SettingsView,
    replies: Replies,
    stage: StageView,
    event: EventView,
    limit: nat,
) -> Seq<ActionView>
    decreases limit,
{
    let (next, action) = step(settings, stage, event);
    if is_last(action) || limit == 0 {
        seq![action]
    } else {
        seq![action] + actions_from(
            settings,
            replies,
            next,
            answer(replies, action),
            (limit - 1) as nat,
        )
    }
}

/// The longest that a cycle can be, in actions.
pub open spec fn longest_cycle() -> nat {
    8
}

/// The actions of one cycle, from the wake-up on.
pub open spec fn cycle(settings: SettingsView, replies: Replies) -> Seq<ActionView> {
    actions_from(
        settings,
        replies,
        StageView::Idle,
        EventView::Woken,
        (longest_cycle() - 1) as nat,
    )
}

/// Whether `action` sends an announcement.
pub open spec fn announces(action: ActionView) -> bool {
    action is Push || action is PostWebhook
}

/// Whether none of `actions` sends an announcement or writes the marker.
pub open spec fn leaves_no_trace(actions: Seq<ActionView>) -> bool {
    forall|i: int|
        0 <= i < actions.len() ==> !announces(#[trigger] actions[i]) && !(actions[i] is SaveMarker)
}

/// The stored marker after a cycle of `actions`: the announced snapshot
/// where the cycle ended with one, else what was stored before.
pub open spec fn marker_after(replies: Replies, actions: Seq<ActionView>) -> Option<Seq<char>> {
    match actions.last() {
        ActionView::Rest { outcome: OutcomeView::Announced { snapshot } } => Some(snapshot),
        _ => replies.marker,
    }
}

/// Whether the surroundings let the cycle reach the comparison with the
/// marker: the ping, if there is one, is delivered, and the marker can be
/// read.
pub open spec fn reaches_marker(settings: SettingsView, replies: Replies) -> bool {
    (settings.liveness_url is Some ==> replies.ping_delivered) && replies.marker_readable
}

/// Whether nothing stands in the way of an announcement once a snapshot is
/// found to be new: the manifest names a detail document, that document
/// arrives with a kind and a release timestamp that is a date and time, both
/// announcements are delivered, and the marker can be written.
pub open spec fn lets_announce(replies: Replies) -> bool {
    &&& manifest_in(replies.manifest_body) matches Some(manifest)
    &&& manifest.detail_url is Some
    &&& detail_in(replies.detail_body) matches Some(detail)
    &&& detail.release_time is Some
    &&& detail.kind is Some
    &&& release_instant(detail) is Some
    &&& replies.push_delivered
    &&& replies.webhook_delivered
    &&& replies.marker_stored
}

/// The actions with which a cycle begins: the liveness ping, where one is
/// configured, and the fetch of the manifest.
pub open spec fn opening(settings: SettingsView) -> Seq<ActionView> {
    let fetch = ActionView::FetchManifest { url: settings.manifest_url };
    match settings.liveness_url {
        Some(url) => seq![ActionView::Ping { url }, fetch],
        None => seq![fetch],
    }
}

/// The release that a cycle on `replies` announces as `snapshot`, where
/// nothing stands in the way: the kind and the release timestamp are those
/// of the detail document, and the elapsed time runs from that timestamp to
/// the time of the clock.
pub open spec fn announced_release(replies: Replies, snapshot: Seq<char>) -> ReleaseView {
    let manifest = manifest_in(replies.manifest_body)->Some_0;
    let detail = detail_in(replies.detail_body)->Some_0;
    ReleaseView {
        snapshot,
        kind: detail.kind->Some_0,
        release_time: detail.release_time->Some_0,
        detail_url: manifest.detail_url->Some_0,
        elapsed: phrase(whole_hours(replies.now - release_instant(detail)->Some_0)),
    }
}

/// The cycle that finds `snapshot` unchanged: the opening, the reading of
/// the marker, and a rest.
pub open spec fn unchanged_cycle(settings: SettingsView, snapshot: Seq<char>) -> Seq<ActionView> {
    opening(settings) + seq![
        ActionView::ReadMarker,
        ActionView::Rest { outcome: OutcomeView::Unchanged { snapshot } },
    ]
}

/// The cycle that gets no manifest: the opening and a rest.
pub open spec fn idle_cycle(settings: SettingsView) -> Seq<ActionView> {
    opening(settings) + seq![ActionView::Rest { outcome: OutcomeView::ManifestUnavailable }]
}

/// The cycle that announces `release`: the opening, the reading of the
/// marker, the fetch of the detail document, the push notice to the push
/// service, the chat announcement to the webhook, the writing of the marker,
/// and a rest.
pub open spec fn announcing_cycle(settings: SettingsView, release: ReleaseView) -> Seq<
    ActionView,
> {
    opening(settings) + seq![
        ActionView::ReadMarker,
        ActionView::FetchDetail { url: release.detail_url },
        ActionView::Push {
            url: settings.push_url,
            icon: settings.push_icon,
            notice: push_notice(settings.push_topic, release),
        },
        ActionView::PostWebhook {
            url: settings.webhook_url,
            embed: embed(settings.webhook_name, settings.webhook_icon, release),
        },
        ActionView::SaveMarker { snapshot: release.snapshot },
        ActionView::Rest { outcome: OutcomeView::Announced { snapshot: release.snapshot } },
    ]
}

/// The action that ends a cycle once `snapshot` was to be written as the
/// marker: a rest where the write succeeded, else a halt.
pub open spec fn after_write(snapshot: Seq<char>, stored: bool) -> ActionView {
    if stored {
        ActionView::Rest { outcome: OutcomeView::Announced { snapshot } }
    } else {
        ActionView::Halt { failure: Failure::MarkerNotSaved }
    }
}

/// The snapshot that the manifest response names, if it names one.
pub open spec fn latest_snapshot(replies: Replies) -> Option<Seq<char>> {
    match manifest_in(replies.manifest_body) {
        Some(manifest) => manifest.snapshot,
        None => None,
    }
}

/// Every cycle ends: it has at most eight actions, the last of them is a
/// rest or a halt, and none before the last is.
pub proof fn cycle_ends(settings: SettingsView, replies: Replies)
    ensures
        0 < cycle(settings, replies).len() <= longest_cycle(),
        is_last(cycle(settings, replies).last()),
        forall|i: int|
            0 <= i < cycle(settings, replies).len() - 1 ==> !is_last(
                #[trigger] cycle(settings, replies)[i],
            ),
{
    reveal_with_fuel(actions_from, 9);
}

/// The marker is written at most once in a cycle, as the last action but
/// one: where the write succeeds the cycle ends with the outcome
/// "announced" for the snapshot that was written, and where it fails the
/// watcher gives up.
pub proof fn marker_is_written_last(settings: SettingsView, replies: Replies)
    ensures
        forall|i: int|
            0 <= i < cycle(settings, replies).len() ==> (#[trigger] cycle(
                settings,
                replies,
            )[i] matches ActionView::SaveMarker { snapshot } ==> {
                &&& i == cycle(settings, replies).len() - 2
                &&& cycle(settings, replies).last() == after_write(snapshot, replies.marker_stored)
            }),
{
    reveal_with_fuel(actions_from, 9);
}

/// Where the manifest names the snapshot that the marker names, the cycle
/// sends no announcement and does not write the marker, which is afterwards
/// what it was. Where the cycle reaches the comparison, it is the cycle of
/// an unchanged snapshot.
pub proof fn unchanged_snapshot_is_not_announced(
    settings: SettingsView,
    replies: Replies,
    snapshot: Seq<char>,
)
    requires
        latest_snapshot(replies) == Some(snapshot),
        replies.marker == Some(snapshot),
    ensures
        leaves_no_trace(cycle(settings, replies)),
        marker_after(replies, cycle(settings, replies)) == replies.marker,
        reaches_marker(settings, replies) ==> cycle(settings, replies) == unchanged_cycle(
            settings,
            snapshot,
        ),
{
    reveal_with_fuel(actions_from, 9);
}

/// Where the manifest names a snapshot that the marker does not name, or no
/// marker is stored, and nothing stands in the way, the cycle is the one
/// that announces the release as it was read: both announcements are
/// posted, and the snapshot is the marker afterwards.
pub proof fn new_snapshot_is_announced(
    settings: SettingsView,
    replies: Replies,
    snapshot: Seq<char>,
)
    requires
        reaches_marker(settings, replies),
        lets_announce(replies),
        latest_snapshot(replies) == Some(snapshot),
        replies.marker != Some(snapshot),
    ensures
        cycle(settings, replies) == announcing_cycle(
            settings,
            announced_release(replies, snapshot),
        ),
        marker_after(replies, cycle(settings, replies)) == Some(snapshot),
{
    reveal_with_fuel(actions_from, 9);
}

/// A cycle ends with the outcome "announced" only where the manifest names
/// a snapshot that the marker does not name and nothing stood in the way.
pub proof fn announcement_needs_a_new_snapshot(
    settings: SettingsView,
    replies: Replies,
    snapshot: Seq<char>,
)
    requires
        cycle(settings, replies).last() == (ActionView::Rest {
            outcome: OutcomeView::Announced { snapshot },
        }),
    ensures
        reaches_marker(settings, replies),
        lets_announce(replies),
        latest_snapshot(replies) == Some(snapshot),
        replies.marker != Some(snapshot),
{
    reveal_with_fuel(actions_from, 9);
}

/// Where the manifest response is not a JSON document, or there is none,
/// the cycle sends no announcement and does not write the marker, which is
/// afterwards what it was. Unless the liveness ping fails before, the cycle
/// is the opening and a rest: the watcher goes on with the next cycle.
pub proof fn unreadable_manifest_ends_the_cycle(settings: SettingsView, replies: Replies)
    requires
        manifest_in(replies.manifest_body) is None,
    ensures
        leaves_no_trace(cycle(settings, replies)),
        marker_after(replies, cycle(settings, replies)) == replies.marker,
        (settings.liveness_url is Some ==> replies.ping_delivered) ==> cycle(settings, replies)
            == idle_cycle(settings),
{
    reveal_with_fuel(actions_from, 9);
}

/// After a cycle that announced a snapshot, a cycle on the same manifest
/// response and on the marker that the first one left sends no announcement
/// and does not write the marker. Where it reaches the comparison, it is
/// the cycle of an unchanged snapshot.
pub proof fn second_cycle_is_silent(
    settings: SettingsView,
    first: Replies,
    second: Replies,
    snapshot: Seq<char>,
)
    requires
        cycle(settings, first).last() == (ActionView::Rest {
            outcome: OutcomeView::Announced { snapshot },
        }),
        second.manifest_body == first.manifest_body,
        second.marker == marker_after(first, cycle(settings, first)),
    ensures
        second.marker == Some(snapshot),
        leaves_no_trace(cycle(settings, second)),
        marker_after(second, cycle(settings, second)) == second.marker,
        reaches_marker(settings, second) ==> cycle(settings, second) == unchanged_cycle(
            settings,
            snapshot,
        ),
{
    announcement_needs_a_new_snapshot(settings, first, snapshot);
    unchanged_snapshot_is_not_announced(settings, second, snapshot);
}

} // verus!

//! The part of the compositor's state that remote desktop sessions share with the rest of it.

use vstd::prelude::*;

use crate::remote_desktop::actions::{Action, ActionView, PipeWireStream};
use crate::remote_desktop::capabilities::Capabilities;
use crate::remote_desktop::laws::other_changes_keep_valid;
use crate::remote_desktop::{RemoteDesktopState, RemoteDesktopView, SessionView, StreamView};
use crate::utils::id::IdCounter;
use crate::utils::lists::{lemma_take_push, views};
use crate::utils::CastSessionId;

verus! {

/// A running screen cast.
#[derive(Debug, Clone, Copy, PartialEq, Eq, Structural)]
pub struct Cast {
    pub session_id: CastSessionId,
    pub stream: PipeWireStream,
}

/// Every running screen cast.
#[derive(Debug)]
pub struct Casting {
    pub casts: Vec<Cast>,
}

/// The animation clock.
#[derive(Debug)]
pub struct Clock {
    pub complete_instantly: bool,
}

impl Clock {
    /// Makes animations complete instantly, or not.
    pub fn set_complete_instantly(&mut self, value: bool)
        ensures
            final(self).complete_instantly == value,
    {
        self.complete_instantly = value;
    }

    /// Whether animations complete instantly.
    pub fn should_complete_instantly(&self) -> (value: bool)
        ensures
            value == self.complete_instantly,
    {
        self.complete_instantly
    }
}

/// The compositor's state.
#[derive(Debug)]
pub struct Niri {
    pub remote_desktop: RemoteDesktopState,
    pub casting: Casting,
    pub clock: Clock,
    /// Whether the config turns animations off.
    pub animations_off: bool,
    pub monitor_ids: IdCounter,
    pub cast_session_ids: IdCounter,
    pub cast_stream_ids: IdCounter,
    /// For the input devices of EIS clients.
    pub device_ids: IdCounter,
}

/// What `Niri` holds.
#[verifier::ext_equal]
pub struct NiriView {
    pub remote_desktop: RemoteDesktopView,
    pub casts: Seq<Cast>,
    pub complete_instantly: bool,
    pub animations_off: bool,
    /// The next monitor, cast session, cast stream and input device number.
    pub next_monitor: u64,
    pub next_cast_session: u64,
    pub next_cast_stream: u64,
    pub next_device: u64,
}

impl View for Niri {
    type V = NiriView;

    open spec fn view(&self) -> NiriView {
        NiriView {
            remote_desktop: self.remote_desktop@,
            casts: self.casting.casts@,
            complete_instantly: self.clock.complete_instantly,
            animations_off: self.animations_off,
            next_monitor: self.monitor_ids.value,
            next_cast_session: self.cast_session_ids.value,
            next_cast_stream: self.cast_stream_ids.value,
            next_device: self.device_ids.value,
        }
    }
}

/// The compositor, as messages and events reach it.
#[derive(Debug)]
pub struct State {
    pub niri: Niri,
}

impl View for State {
    type V = NiriView;

    open spec fn view(&self) -> NiriView {
        self.niri@
    }
}

/// Whether a session holds a stream at an index.
pub open spec fn stream_at(niri: NiriView, session: u64, index: int) -> bool {
    niri.remote_desktop.sessions.contains_key(session) && 0 <= index
        < niri.remote_desktop.sessions[session].streams.len()
}

impl NiriView {
    /// The stream of a session at an index.
    pub open spec fn stream(self, session: u64, index: int) -> StreamView {
        self.remote_desktop.sessions[session].streams[index]
    }

    /// What holds of the compositor at any time.
    ///
    /// No two monitors have the same number, no two streams have the same numbers, none of these
    /// numbers will be handed out again, and at most one session has control: exactly the one that
    /// is noted as controlling, which exists.
    pub open spec fn valid(self) -> bool {
        &&& self.valid_monitors()
        &&& self.valid_streams()
        &&& self.valid_control()
    }

    /// No two monitors have the same number.
    pub open spec fn valid_monitors(self) -> bool {
        &&& forall|i: int|
            0 <= i < self.remote_desktop.monitors.len()
                ==> #[trigger] self.remote_desktop.monitors[i].id < self.next_monitor
        &&& forall|i: int, j: int|
            0 <= i < j < self.remote_desktop.monitors.len()
                ==> #[trigger] self.remote_desktop.monitors[i].id
                != #[trigger] self.remote_desktop.monitors[j].id
    }

    /// No two streams have the same numbers.
    pub open spec fn valid_streams(self) -> bool {
        &&& forall|a: u64, i: int| #[trigger]
            stream_at(self, a, i) ==> self.stream(a, i).cast_stream_id < self.next_cast_stream
                && self.stream(a, i).cast_session_id < self.next_cast_session
        &&& forall|a: u64, i: int, b: u64, j: int| #[trigger]
            stream_at(self, a, i) && #[trigger] stream_at(self, b, j) && (self.stream(
                a,
                i,
            ).cast_stream_id == self.stream(b, j).cast_stream_id || self.stream(
                a,
                i,
            ).cast_session_id == self.stream(b, j).cast_session_id) ==> a == b && i == j
    }

    /// The session that is noted as controlling has control, and no other has.
    pub open spec fn valid_control(self) -> bool {
        &&& forall|a: u64| #[trigger]
            self.remote_desktop.sessions.contains_key(a)
                && self.remote_desktop.sessions[a].has_control
                ==> self.remote_desktop.controlling == Some(a)
        &&& self.remote_desktop.controlling matches Some(a)
            ==> self.remote_desktop.sessions.contains_key(a)
            && self.remote_desktop.sessions[a].has_control
    }

    /// The same, with the `disable-animations` option of the sessions applied on top of the config.
    pub open spec fn animations_refreshed(self) -> NiriView {
        NiriView {
            complete_instantly: self.animations_off || self.remote_desktop.animations_disabled(),
            ..self
        }
    }

    /// The same with other sessions.
    pub open spec fn with_sessions(self, sessions: Map<u64, SessionView>) -> NiriView {
        NiriView { remote_desktop: RemoteDesktopView { sessions, ..self.remote_desktop }, ..self }
    }
}

/// The casts that stay when those of a session are stopped.
///
/// The casts below `from` are gone through from the last one to the first. Each one of the session
/// leaves, and the cast at the end of the list takes its place.
pub open spec fn casts_left(casts: Seq<Cast>, session_id: CastSessionId, from: nat) -> Seq<Cast>
    decreases from,
{
    if from == 0 || from > casts.len() {
        casts
    } else if casts[from - 1].session_id == session_id {
        casts_left(
            casts.update(from - 1, casts.last()).drop_last(),
            session_id,
            (from - 1) as nat,
        )
    } else {
        casts_left(casts, session_id, (from - 1) as nat)
    }
}

/// The streams to disconnect when the casts of a session are stopped, the last one first.
pub open spec fn casts_stopped(casts: Seq<Cast>, session_id: CastSessionId) -> Seq<ActionView>
    decreases casts.len(),
{
    if casts.len() == 0 {
        Seq::empty()
    } else {
        (if casts.last().session_id == session_id {
            seq![ActionView::DisconnectCast { stream: casts.last().stream }]
        } else {
            Seq::empty()
        }) + casts_stopped(casts.drop_last(), session_id)
    }
}

/// Whether a cast belongs to another session.
pub open spec fn of_another(session_id: CastSessionId) -> spec_fn(Cast) -> bool {
    |cast: Cast| cast.session_id != session_id
}

/// Stopping the casts of a session leaves every other cast, and none of that session.
pub proof fn stopping_leaves_the_other_casts(casts: Seq<Cast>, session_id: CastSessionId)
    ensures
        casts_left(casts, session_id, casts.len()).to_multiset() == casts.filter(
            of_another(session_id),
        ).to_multiset(),
        forall|i: int|
            0 <= i < casts_left(casts, session_id, casts.len()).len() ==> (
            #[trigger] casts_left(casts, session_id, casts.len())[i]).session_id != session_id,
{
    broadcast use vstd::seq_lib::group_to_multiset_ensures;

    lemma_casts_left(casts, session_id, casts.len());
    assert(casts.take(casts.len() as int) =~= casts);
    assert(casts.skip(casts.len() as int) =~= Seq::<Cast>::empty());
    assert(Seq::<Cast>::empty().to_multiset() =~= vstd::multiset::Multiset::<Cast>::empty());
    assert(casts_left(casts, session_id, casts.len()).to_multiset()
        =~= casts.filter(of_another(session_id)).to_multiset());
    let left = casts_left(casts, session_id, casts.len());
    assert forall|i: int| 0 <= i < left.len() implies (#[trigger] left[i]).session_id
        != session_id by {
        left.to_multiset_ensures();
        let kept = casts.filter(of_another(session_id));
        kept.to_multiset_ensures();
        assert(left.contains(left[i]));
        assert(kept.to_multiset().count(left[i]) > 0);
        assert(kept.contains(left[i]));
        lemma_filter_contains(casts, of_another(session_id), left[i]);
    }
}

/// A cast that stays was there before.
pub proof fn lemma_left_contained(casts: Seq<Cast>, session_id: CastSessionId, cast: Cast)
    requires
        casts_left(casts, session_id, casts.len()).contains(cast),
    ensures
        casts.contains(cast),
{
    broadcast use vstd::seq_lib::group_to_multiset_ensures;

    let left = casts_left(casts, session_id, casts.len());
    let kept = casts.filter(of_another(session_id));
    stopping_leaves_the_other_casts(casts, session_id);
    assert(left.to_multiset().count(cast) > 0);
    assert(kept.contains(cast));
    lemma_filter_contains(casts, of_another(session_id), cast);
}

proof fn lemma_filter_contains(casts: Seq<Cast>, keep: spec_fn(Cast) -> bool, cast: Cast)
    requires
        casts.filter(keep).contains(cast),
    ensures
        keep(cast),
        casts.contains(cast),
    decreases casts.len(),
{
    reveal(Seq::filter);
    if casts.len() > 0 {
        let rest = casts.drop_last().filter(keep);
        if keep(casts.last()) {
            let i = choose|i: int| 0 <= i < rest.push(casts.last()).len() && rest.push(
                casts.last(),
            )[i] == cast;
            if i < rest.len() {
                assert(rest[i] == cast);
                lemma_filter_contains(casts.drop_last(), keep, cast);
                lemma_contained(casts, cast);
            } else {
                assert(casts[casts.len() - 1] == cast);
            }
        } else {
            lemma_filter_contains(casts.drop_last(), keep, cast);
            lemma_contained(casts, cast);
        }
    }
}

proof fn lemma_contained(casts: Seq<Cast>, cast: Cast)
    requires
        casts.drop_last().contains(cast),
        casts.len() > 0,
    ensures
        casts.contains(cast),
{
    let i = choose|i: int| 0 <= i < casts.len() - 1 && casts.drop_last()[i] == cast;
    assert(casts[i] == cast);
}

proof fn lemma_casts_left(casts: Seq<Cast>, session_id: CastSessionId, from: nat)
    requires
        from <= casts.len(),
    ensures
        casts_left(casts, session_id, from).to_multiset() == casts.take(from as int).filter(
            of_another(session_id),
        ).to_multiset().add(casts.skip(from as int).to_multiset()),
    decreases from,
{
    broadcast use vstd::seq_lib::group_to_multiset_ensures;

    if from == 0 {
        reveal(Seq::filter);
        assert(casts.take(0) =~= Seq::<Cast>::empty());
        assert(casts.skip(0) =~= casts);
        assert(casts.take(0).filter(of_another(session_id)) =~= Seq::<Cast>::empty());
        assert(Seq::<Cast>::empty().to_multiset() =~= vstd::multiset::Multiset::<Cast>::empty());
        assert(casts_left(casts, session_id, from).to_multiset() =~= casts.take(
            from as int,
        ).filter(of_another(session_id)).to_multiset().add(casts.skip(from as int).to_multiset()));
    } else {
        let last = from - 1;
        crate::utils::lists::lemma_take_push(casts, last);
        crate::utils::lists::lemma_filter_push(
            casts.take(last),
            casts[last],
            of_another(session_id),
        );
        let kept = casts.take(last).filter(of_another(session_id));
        assert(casts.skip(last) =~= seq![casts[last]] + casts.skip(from as int));
        vstd::seq_lib::lemma_multiset_commutative(seq![casts[last]], casts.skip(from as int));
        assert(casts.skip(last).to_multiset() == seq![casts[last]].to_multiset().add(
            casts.skip(from as int).to_multiset(),
        ));
        assert(seq![casts[last]] =~= Seq::<Cast>::empty().push(casts[last]));
        assert(seq![casts[last]].to_multiset() =~= vstd::multiset::Multiset::<Cast>::empty().insert(
            casts[last],
        )) by {
            Seq::<Cast>::empty().to_multiset_ensures();
            assert(Seq::<Cast>::empty().to_multiset()
                =~= vstd::multiset::Multiset::<Cast>::empty());
        }
        if casts[last].session_id == session_id {
            let moved = casts.update(last, casts.last()).drop_last();
            lemma_casts_left(moved, session_id, last as nat);
            assert(moved.take(last) =~= casts.take(last));
            lemma_swap_removed(casts, last);
            assert(casts_left(casts, session_id, from).to_multiset() =~= casts.take(
                from as int,
            ).filter(of_another(session_id)).to_multiset().add(
                casts.skip(from as int).to_multiset(),
            ));
        } else {
            lemma_casts_left(casts, session_id, last as nat);
            assert(casts_left(casts, session_id, from).to_multiset() =~= casts.take(
                from as int,
            ).filter(of_another(session_id)).to_multiset().add(
                casts.skip(from as int).to_multiset(),
            ));
        }
    }
}

proof fn lemma_swap_removed(casts: Seq<Cast>, index: int)
    requires
        0 <= index < casts.len(),
    ensures
        casts.update(index, casts.last()).drop_last().skip(index).to_multiset() == casts.skip(
            index + 1,
        ).to_multiset(),
{
    broadcast use vstd::seq_lib::group_to_multiset_ensures;

    let moved = casts.update(index, casts.last()).drop_last();
    if index == casts.len() - 1 {
        assert(moved.skip(index) =~= Seq::<Cast>::empty());
        assert(casts.skip(index + 1) =~= Seq::<Cast>::empty());
    } else {
        let middle = casts.subrange(index + 1, casts.len() - 1);
        assert(moved.skip(index) =~= seq![casts.last()] + middle);
        assert(casts.skip(index + 1) =~= middle + seq![casts.last()]);
        vstd::seq_lib::lemma_multiset_commutative(seq![casts.last()], middle);
        vstd::seq_lib::lemma_multiset_commutative(middle, seq![casts.last()]);
        assert(moved.skip(index).to_multiset() =~= casts.skip(index + 1).to_multiset());
    }
}

impl Niri {
    /// The compositor before anything happened.
    pub fn new() -> (niri: Self)
        ensures
            niri@ == (NiriView {
                remote_desktop: RemoteDesktopView {
                    to_dbus: false,
                    sessions: Map::empty(),
                    monitors: Seq::empty(),
                    controlling: None,
                    default_mode: None,
                    eis_left: Capabilities::none(),
                },
                casts: Seq::empty(),
                complete_instantly: false,
                animations_off: false,
                next_monitor: 1,
                next_cast_session: 1,
                next_cast_stream: 1,
                next_device: 1,
            }),
            niri@.valid(),
    {
        Niri {
            remote_desktop: RemoteDesktopState::new(),
            casting: Casting { casts: Vec::new() },
            clock: Clock { complete_instantly: false },
            animations_off: false,
            monitor_ids: IdCounter::new(),
            cast_session_ids: IdCounter::new(),
            cast_stream_ids: IdCounter::new(),
            device_ids: IdCounter::new(),
        }
    }

    /// Stops a remote desktop cast without going through the Mutter screen cast objects.
    pub fn stop_remote_desktop_cast(
        &mut self,
        session_id: CastSessionId,
        actions: &mut Vec<Action>,
    )
        ensures
            final(self)@ == (NiriView {
                casts: casts_left(old(self)@.casts, session_id, old(self)@.casts.len()),
                ..old(self)@
            }),
            views(final(actions)@) == views(old(actions)@) + casts_stopped(
                old(self)@.casts,
                session_id,
            ),
    {
        broadcast use crate::utils::lists::group_views;

        let ghost before = self@;
        let ghost start = views(actions@);
        let mut i: usize = self.casting.casts.len();
        assert(before.casts.take(i as int) =~= before.casts);
        while i > 0
            invariant
                before == old(self)@,
                i <= self.casting.casts.len(),
                i <= before.casts.len(),
                self@ == (NiriView { casts: self.casting.casts@, ..before }),
                self.casting.casts@.take(i as int) == before.casts.take(i as int),
                casts_left(self.casting.casts@, session_id, i as nat) == casts_left(
                    before.casts,
                    session_id,
                    before.casts.len(),
                ),
                views(actions@) + casts_stopped(before.casts.take(i as int), session_id) == start
                    + casts_stopped(before.casts, session_id),
            decreases i,
        {
            i = i - 1;
            proof {
                let casts = self.casting.casts@;
                assert(casts[i as int] == casts.take(i + 1)[i as int]);
                assert(before.casts[i as int] == before.casts.take(i + 1)[i as int]);
                assert(casts[i as int] == before.casts[i as int]);
                assert(before.casts.take(i + 1).drop_last() =~= before.casts.take(i as int));
                assert(casts.take(i as int) =~= casts.take(i + 1).take(i as int));
                assert(before.casts.take(i as int) =~= before.casts.take(i + 1).take(i as int));
            }
            if self.casting.casts[i].session_id == session_id {
                let ghost casts = self.casting.casts@;
                let ghost sent = views(actions@);
                let cast = self.casting.casts.swap_remove(i);
                actions.push(Action::DisconnectCast { stream: cast.stream });
                proof {
                    assert(self.casting.casts@.take(i as int) =~= casts.take(i as int));
                    assert(views(actions@) + casts_stopped(before.casts.take(i as int), session_id)
                        =~= sent + casts_stopped(before.casts.take(i + 1), session_id));
                }
            } else {
                assert(casts_stopped(before.casts.take(i + 1), session_id) =~= casts_stopped(
                    before.casts.take(i as int),
                    session_id,
                ));
            }
        }
        assert(before.casts.take(0) =~= Seq::<Cast>::empty());
        assert(views(actions@) =~= start + casts_stopped(before.casts, session_id));
    }
}

impl State {
    /// Applies the `disable-animations` session option on top of the config.
    pub fn refresh_remote_desktop_animations(&mut self)
        ensures
            final(self)@ == old(self)@.animations_refreshed(),
            old(self)@.valid() ==> final(self)@.valid(),
    {
        proof {
            if self@.valid() {
                other_changes_keep_valid(self@, self@.animations_refreshed());
            }
        }
        let off = self.niri.animations_off;
        let disabled = off || self.niri.remote_desktop.animations_disabled();
        self.niri.clock.set_complete_instantly(disabled);
    }
}

/// Exchanging the sessions changes nothing else, and changing one session changes no other and makes
/// none.
pub proof fn exchanged_sessions_are_all_that_changes(
    niri: NiriView,
    sessions: Map<u64, SessionView>,
    id: u64,
    session: SessionView,
    other: u64,
)
    ensures
        ({
            let after = niri.with_sessions(sessions);
            &&& after.remote_desktop.sessions == sessions
            &&& after.remote_desktop.to_dbus == niri.remote_desktop.to_dbus
            &&& after.remote_desktop.monitors == niri.remote_desktop.monitors
            &&& after.remote_desktop.controlling == niri.remote_desktop.controlling
            &&& after.remote_desktop.default_mode == niri.remote_desktop.default_mode
            &&& after.remote_desktop.eis_left == niri.remote_desktop.eis_left
            &&& after.casts == niri.casts
            &&& after.complete_instantly == niri.complete_instantly
            &&& after.animations_off == niri.animations_off
            &&& after.next_monitor == niri.next_monitor
            &&& after.next_cast_session == niri.next_cast_session
            &&& after.next_cast_stream == niri.next_cast_stream
            &&& after.next_device == niri.next_device
        }),
        ({
            let desktop = niri.remote_desktop;
            let after = desktop.with_session(id, session);
            &&& after.sessions.contains_key(other) == desktop.sessions.contains_key(other)
            &&& other != id ==> after.sessions[other] == desktop.sessions[other]
            &&& desktop.sessions.contains_key(id) ==> after.sessions[id] == session
            &&& after.to_dbus == desktop.to_dbus
            &&& after.monitors == desktop.monitors
            &&& after.controlling == desktop.controlling
            &&& after.default_mode == desktop.default_mode
            &&& after.eis_left == desktop.eis_left
        }),
{
}

/// Animations complete instantly exactly if the config turns them off or a session does, and nothing
/// else changes.
pub proof fn animations_are_off_if_anyone_asks(niri: NiriView, id: u64)
    ensures
        ({
            let after = niri.animations_refreshed();
            &&& niri.animations_off ==> after.complete_instantly
            &&& niri.remote_desktop.sessions.contains_key(id)
                && niri.remote_desktop.sessions[id].disable_animations ==> after.complete_instantly
            &&& after.complete_instantly && !niri.animations_off ==> exists|a: u64| #[trigger]
                niri.remote_desktop.sessions.contains_key(a)
                    && niri.remote_desktop.sessions[a].disable_animations
            &&& after == (NiriView { complete_instantly: after.complete_instantly, ..niri })
        }),
{
}

/// What holds of a valid compositor: no two monitors share a number, no two streams share one, none
/// of them has a number that is still to be handed out, and the session in control, if any, is the
/// one that is noted.
pub proof fn valid_compositors_tell_things_apart(niri: NiriView, i: int, j: int, a: u64, b: u64)
    requires
        niri.valid(),
    ensures
        ({
            let monitors = niri.remote_desktop.monitors;
            let sessions = niri.remote_desktop.sessions;
            &&& 0 <= i < monitors.len() ==> monitors[i].id < niri.next_monitor
            &&& 0 <= i < monitors.len() && 0 <= j < monitors.len() && i != j ==> monitors[i].id
                != monitors[j].id
            &&& sessions.contains_key(a) && 0 <= i < sessions[a].streams.len()
                ==> sessions[a].streams[i].cast_session_id < niri.next_cast_session
                && sessions[a].streams[i].cast_stream_id < niri.next_cast_stream
            &&& sessions.contains_key(a) && 0 <= i < sessions[a].streams.len()
                && sessions.contains_key(b) && 0 <= j < sessions[b].streams.len() && !(a == b && i
                == j) ==> sessions[a].streams[i].cast_session_id
                != sessions[b].streams[j].cast_session_id && sessions[a].streams[i].cast_stream_id
                != sessions[b].streams[j].cast_stream_id
            &&& sessions.contains_key(a) && sessions[a].has_control
                ==> niri.remote_desktop.controlling == Some(a)
            &&& niri.remote_desktop.controlling == Some(a) ==> sessions.contains_key(a)
                && sessions[a].has_control
        }),
{
    let sessions = niri.remote_desktop.sessions;
    if sessions.contains_key(a) && 0 <= i < sessions[a].streams.len() {
        assert(stream_at(niri, a, i));
    }
    if sessions.contains_key(b) && 0 <= j < sessions[b].streams.len() {
        assert(stream_at(niri, b, j));
    }
}

} // verus!

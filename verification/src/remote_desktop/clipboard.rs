//! Clipboard integration for `org.freedesktop.RemoteDesktop1.Clipboard`.
//!
//! Two directions:
//!
//! * remote to Wayland: `SetSelection` makes the session the selection owner. When a Wayland client
//!   reads it, the client's fd is parked and `SelectionTransfer` is emitted; the service answers
//!   with `SelectionWrite`, which hands the fd back.
//! * Wayland to remote: `SelectionRead` pipes the current Wayland selection to the service, and
//!   `SelectionOwnerChanged` tells it when the Wayland side changes.

use std::collections::BTreeMap;
use vstd::prelude::*;

use super::actions::{Action, ActionView, SourceToken};
use crate::dbus::remote_desktop::messages::{ClipboardType, FdHandle};
use crate::utils::lists::{lemma_take_push, views};
use crate::utils::order::{serials_in, serials_of};

verus! {

/// How long a parked transfer fd is kept before we give up on the service answering, in seconds.
pub const TRANSFER_TIMEOUT: u64 = 30;

/// Selection of a Wayland seat.
#[derive(Debug, Clone, Copy, PartialEq, Eq, Structural)]
pub enum SelectionTarget {
    Clipboard,
    Primary,
}

/// The selection of the seat that a D-Bus call speaks of.
pub open spec fn target_of(ty: ClipboardType) -> SelectionTarget {
    match ty {
        ClipboardType::Clipboard => SelectionTarget::Clipboard,
        ClipboardType::Primary => SelectionTarget::Primary,
    }
}

impl From<ClipboardType> for SelectionTarget {
    fn from(value: ClipboardType) -> (target: Self) {
        match value {
            ClipboardType::Clipboard => SelectionTarget::Clipboard,
            ClipboardType::Primary => SelectionTarget::Primary,
        }
    }
}

impl vstd::std_specs::convert::FromSpecImpl<ClipboardType> for SelectionTarget {
    open spec fn obeys_from_spec() -> bool {
        true
    }

    open spec fn from_spec(value: ClipboardType) -> Self {
        target_of(value)
    }
}

/// What the D-Bus API calls a selection of the seat.
pub fn clipboard_type_of(target: SelectionTarget) -> (ty: ClipboardType)
    ensures
        target_of(ty) == target,
{
    match target {
        SelectionTarget::Clipboard => ClipboardType::Clipboard,
        SelectionTarget::Primary => ClipboardType::Primary,
    }
}

/// No two selections of the API are the same selection of the seat.
pub proof fn selection_targets_are_distinct(a: ClipboardType, b: ClipboardType)
    ensures
        target_of(a) == target_of(b) ==> a == b,
{
}

/// The mime types that a session offers, per selection.
#[derive(Debug)]
pub struct Offers {
    pub clipboard: Option<Vec<String>>,
    pub primary: Option<Vec<String>>,
}

impl Offers {
    /// What is offered for one selection.
    pub open spec fn slot(&self, ty: ClipboardType) -> Option<Vec<String>> {
        match ty {
            ClipboardType::Clipboard => self.clipboard,
            ClipboardType::Primary => self.primary,
        }
    }
}

impl View for Offers {
    type V = Map<ClipboardType, Seq<Seq<char>>>;

    open spec fn view(&self) -> Map<ClipboardType, Seq<Seq<char>>> {
        Map::new(
            |ty: ClipboardType| self.slot(ty) is Some,
            |ty: ClipboardType| views(self.slot(ty)->0@),
        )
    }
}

impl Offers {
    /// No offer at all.
    pub fn new() -> (offers: Self)
        ensures
            offers@ == Map::<ClipboardType, Seq<Seq<char>>>::empty(),
    {
        let offers = Offers { clipboard: None, primary: None };
        assert(offers@ =~= Map::<ClipboardType, Seq<Seq<char>>>::empty());
        offers
    }

    /// Whether anything is offered for a selection.
    pub fn contains_key(&self, ty: ClipboardType) -> (offered: bool)
        ensures
            offered == self@.contains_key(ty),
    {
        match ty {
            ClipboardType::Clipboard => self.clipboard.is_some(),
            ClipboardType::Primary => self.primary.is_some(),
        }
    }

    /// Offers mime types for a selection, in place of those offered before.
    pub fn insert(&mut self, ty: ClipboardType, mime_types: Vec<String>)
        ensures
            final(self)@ == old(self)@.insert(ty, views(mime_types@)),
    {
        match ty {
            ClipboardType::Clipboard => {
                self.clipboard = Some(mime_types);
            },
            ClipboardType::Primary => {
                self.primary = Some(mime_types);
            },
        }
        assert(self@ =~= old(self)@.insert(ty, views(mime_types@)));
    }

    /// Offers nothing for a selection.
    pub fn remove(&mut self, ty: ClipboardType)
        ensures
            final(self)@ == old(self)@.remove(ty),
    {
        match ty {
            ClipboardType::Clipboard => {
                self.clipboard = None;
            },
            ClipboardType::Primary => {
                self.primary = None;
            },
        }
        assert(self@ =~= old(self)@.remove(ty));
    }
}

/// A Wayland client that waits for selection data.
#[derive(Debug, Clone, Copy, PartialEq, Eq, Structural)]
pub struct PendingTransfer {
    /// The fd the Wayland client wants the data written into.
    ///
    /// Taken by `SelectionWrite`; `None` afterwards, while we wait for `SelectionWriteDone`.
    pub fd: Option<FdHandle>,
    pub timeout: Option<SourceToken>,
}

impl PendingTransfer {
    /// What letting go of a transfer does to its fd.
    pub open spec fn closed(self) -> Seq<ActionView> {
        match self.fd {
            Some(fd) => seq![ActionView::CloseFd { fd }],
            None => Seq::empty(),
        }
    }

    /// What ending a transfer does: its timer stops, and its fd is closed if nobody took it.
    pub open spec fn ended(self) -> Seq<ActionView> {
        (match self.timeout {
            Some(token) => seq![ActionView::RemoveSource { token }],
            None => Seq::empty(),
        }) + self.closed()
    }

    /// Lets go of a transfer.
    pub fn close(self, actions: &mut Vec<Action>)
        ensures
            views(final(actions)@) == views(old(actions)@) + self.closed(),
    {
        broadcast use crate::utils::lists::group_views;

        if let Some(fd) = self.fd {
            actions.push(Action::CloseFd { fd });
        }
        assert(views(actions@) =~= views(old(actions)@) + self.closed());
    }

    /// Ends a transfer.
    pub fn end(self, actions: &mut Vec<Action>)
        ensures
            views(final(actions)@) == views(old(actions)@) + self.ended(),
    {
        broadcast use crate::utils::lists::group_views;

        if let Some(token) = self.timeout {
            actions.push(Action::RemoveSource { token });
        }
        self.close(actions);
        assert(views(actions@) =~= views(old(actions)@) + self.ended());
    }
}

/// Clipboard state of one session.
#[derive(Debug)]
pub struct SessionClipboard {
    /// Mime types this session currently offers, per selection.
    pub offered: Offers,
    /// Wayland clients waiting for the service to write the selection data.
    pub pending: BTreeMap<u32, PendingTransfer>,
    pub next_serial: u32,
}

/// What a `SessionClipboard` holds.
#[verifier::ext_equal]
pub struct ClipboardView {
    pub offered: Map<ClipboardType, Seq<Seq<char>>>,
    pub pending: Map<u32, PendingTransfer>,
    pub next_serial: u32,
}

impl View for SessionClipboard {
    type V = ClipboardView;

    open spec fn view(&self) -> ClipboardView {
        ClipboardView {
            offered: self.offered@,
            pending: self.pending@,
            next_serial: self.next_serial,
        }
    }
}

/// The serial that comes after another one. Zero is left out.
pub open spec fn serial_after(serial: u32) -> u32 {
    if serial == u32::MAX {
        1
    } else {
        (serial + 1) as u32
    }
}

/// The serial that comes `count` serials after another one.
pub open spec fn serial_after_many(serial: u32, count: nat) -> u32
    decreases count,
{
    if count == 0 {
        serial
    } else {
        serial_after(serial_after_many(serial, (count - 1) as nat))
    }
}

/// Serials are never zero, and none comes a second time before all the others came.
pub proof fn serials_do_not_repeat(serial: u32, count: nat)
    requires
        0 < count <= u32::MAX,
    ensures
        serial_after_many(serial, count) != 0,
        count < u32::MAX ==> serial_after_many(serial, count) != serial,
{
    lemma_serial_after_many(serial, count);
}

proof fn lemma_serial_after_many(serial: u32, count: nat)
    requires
        0 < count <= u32::MAX,
    ensures
        serial_after_many(serial, count) == if serial + count <= u32::MAX {
            serial + count
        } else {
            serial + count - u32::MAX
        },
    decreases count,
{
    reveal_with_fuel(serial_after_many, 2);
    if count > 1 {
        lemma_serial_after_many(serial, (count - 1) as nat);
    }
}

impl ClipboardView {
    /// A clipboard that offers nothing and that nobody reads.
    pub open spec fn fresh() -> ClipboardView {
        ClipboardView { offered: Map::empty(), pending: Map::empty(), next_serial: 0 }
    }

    /// The selections that are offered, the clipboard first.
    pub open spec fn offered_types(self) -> Seq<ClipboardType> {
        (if self.offered.contains_key(ClipboardType::Clipboard) {
            seq![ClipboardType::Clipboard]
        } else {
            Seq::empty()
        }) + (if self.offered.contains_key(ClipboardType::Primary) {
            seq![ClipboardType::Primary]
        } else {
            Seq::empty()
        })
    }

    /// What clearing the clipboard does: no offered selection keeps its owner, and each transfer
    /// ends, those with a smaller serial first.
    pub open spec fn cleared(self) -> Seq<ActionView> {
        self.offered_types().map_values(
            |ty: ClipboardType| ActionView::ClearSelection { target: target_of(ty) },
        ) + transfers_ended(self.pending, serials_of(self.pending.dom()))
    }

    /// What letting go of the clipboard does: the parked fds are closed.
    pub open spec fn dropped(self) -> Seq<ActionView> {
        transfers_closed(self.pending, serials_of(self.pending.dom()))
    }
}

/// What ending the transfers with the given serials does.
pub open spec fn transfers_ended(
    pending: Map<u32, PendingTransfer>,
    serials: Seq<u32>,
) -> Seq<ActionView>
    decreases serials.len(),
{
    if serials.len() == 0 {
        Seq::empty()
    } else {
        transfers_ended(pending, serials.drop_last()) + pending[serials.last()].ended()
    }
}

/// What letting go of the transfers with the given serials does.
pub open spec fn transfers_closed(
    pending: Map<u32, PendingTransfer>,
    serials: Seq<u32>,
) -> Seq<ActionView>
    decreases serials.len(),
{
    if serials.len() == 0 {
        Seq::empty()
    } else {
        transfers_closed(pending, serials.drop_last()) + pending[serials.last()].closed()
    }
}

impl SessionClipboard {
    /// A clipboard that offers nothing and that nobody reads.
    pub fn new() -> (clipboard: Self)
        ensures
            clipboard@ == ClipboardView::fresh(),
    {
        SessionClipboard { offered: Offers::new(), pending: BTreeMap::new(), next_serial: 0 }
    }

    /// The serial for the next transfer.
    pub fn next_serial(&mut self) -> (serial: u32)
        ensures
            serial == serial_after(old(self).next_serial),
            serial != 0,
            final(self)@ == (ClipboardView { next_serial: serial, ..old(self)@ }),
    {
        self.next_serial = self.next_serial.wrapping_add(1);
        if self.next_serial == 0 {
            self.next_serial = 1;
        }
        self.next_serial
    }

    /// Whether the session offers anything for a selection.
    pub fn owns(&self, ty: ClipboardType) -> (owned: bool)
        ensures
            owned == self@.offered.contains_key(ty),
    {
        self.offered.contains_key(ty)
    }

    /// Gives every offered selection up and ends every transfer.
    pub fn clear(&mut self, actions: &mut Vec<Action>)
        ensures
            final(self)@ == (ClipboardView {
                offered: Map::empty(),
                pending: Map::empty(),
                ..old(self)@
            }),
            views(final(actions)@) == views(old(actions)@) + old(self)@.cleared(),
    {
        broadcast use crate::utils::lists::group_views;

        let ghost before = self@;
        let ghost start = views(actions@);
        if self.offered.contains_key(ClipboardType::Clipboard) {
            actions.push(
                Action::ClearSelection { target: SelectionTarget::from(ClipboardType::Clipboard) },
            );
        }
        if self.offered.contains_key(ClipboardType::Primary) {
            actions.push(
                Action::ClearSelection { target: SelectionTarget::from(ClipboardType::Primary) },
            );
        }
        self.offered = Offers::new();
        let ghost selections = before.offered_types().map_values(
            |ty: ClipboardType| ActionView::ClearSelection { target: target_of(ty) },
        );
        assert(views(actions@) =~= start + selections);

        let serials = serials_in(&self.pending);
        for i in 0..serials.len()
            invariant
                before == old(self)@,
                serials@ == serials_of(before.pending.dom()),
                serials@.to_set() == before.pending.dom(),
                self.pending@ == before.pending,
                self.next_serial == before.next_serial,
                self.offered@ == Map::<ClipboardType, Seq<Seq<char>>>::empty(),
                views(actions@) == start + selections + transfers_ended(
                    before.pending,
                    serials@.take(i as int),
                ),
        {
            proof {
                lemma_take_push(serials@, i as int);
                assert(serials@.take(i + 1).drop_last() =~= serials@.take(i as int));
                assert(serials@.to_set().contains(serials@[i as int]));
            }
            if let Some(transfer) = self.pending.get(&serials[i]) {
                transfer.end(actions);
            }
            assert(views(actions@) =~= start + selections + transfers_ended(
                before.pending,
                serials@.take(i + 1),
            ));
        }
        assert(serials@.take(serials.len() as int) =~= serials@);
        self.pending = BTreeMap::new();
        assert(views(actions@) =~= start + before.cleared());
    }

    /// Lets go of the clipboard.
    pub fn discard(self, actions: &mut Vec<Action>)
        ensures
            views(final(actions)@) == views(old(actions)@) + self@.dropped(),
    {
        let ghost start = views(actions@);
        let serials = serials_in(&self.pending);
        for i in 0..serials.len()
            invariant
                serials@ == serials_of(self.pending@.dom()),
                serials@.to_set() == self.pending@.dom(),
                views(actions@) == start + transfers_closed(
                    self.pending@,
                    serials@.take(i as int),
                ),
        {
            proof {
                lemma_take_push(serials@, i as int);
                assert(serials@.take(i + 1).drop_last() =~= serials@.take(i as int));
                assert(serials@.to_set().contains(serials@[i as int]));
            }
            if let Some(transfer) = self.pending.get(&serials[i]) {
                transfer.close(actions);
            }
            assert(views(actions@) =~= start + transfers_closed(
                self.pending@,
                serials@.take(i + 1),
            ));
        }
        assert(serials@.take(serials.len() as int) =~= serials@);
    }
}

impl Default for SessionClipboard {
    fn default() -> (clipboard: Self)
        ensures
            clipboard@ == ClipboardView::fresh(),
    {
        SessionClipboard::new()
    }
}

} // verus!

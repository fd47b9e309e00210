//! `org.freedesktop.RemoteDesktop1`.

use vstd::prelude::*;
use vstd::string::*;

use super::calls::{CallOutcome, ErrorView, FdoError, call_niri};
use super::messages::{MonitorInfo, RemoteDesktopToNiri, ReplyHandle, RequestView};
use super::options::{Options, Value, ValueView};
use super::paths::{path_of_session, session_path};
use super::registry::{
    ObjectAction, Registry, RegistryView, add_monitor_object, monitor_added, monitors_exposed,
};
use super::session::{Session, SessionObjectView, flag, is_on};
use super::VERSION;
use crate::utils::id::IdCounter;
use crate::utils::lists::views;
use crate::utils::text::join;
use crate::utils::RemoteDesktopSessionId;

verus! {

/// The object that creates sessions.
#[derive(Debug)]
pub struct RemoteDesktop {
    pub session_ids: IdCounter,
    pub enable_input: bool,
    pub enable_clipboard: bool,
}

/// A session that is being created.
#[derive(Debug)]
pub struct PendingSession {
    pub id: RemoteDesktopSessionId,
    /// The unique name of the peer that creates it.
    pub owner: String,
    pub persistent: bool,
    pub takes_control: bool,
    pub disable_animations: bool,
}

/// A session that the compositor knows, and that is to get its objects.
#[derive(Debug)]
pub struct NewSession {
    pub path: String,
    pub session: Session,
    /// The monitors that exist already.
    pub monitors: Vec<MonitorInfo>,
}

/// Why a session was not created, and what the compositor is told about it.
#[derive(Debug)]
pub struct Refusal {
    pub message: Option<RemoteDesktopToNiri>,
    pub error: FdoError,
}

impl RemoteDesktop {
    /// The object that creates sessions.
    pub fn new(enable_input: bool, enable_clipboard: bool) -> (service: Self)
        ensures
            service.session_ids.value == 1,
            service.enable_input == enable_input,
            service.enable_clipboard == enable_clipboard,
    {
        RemoteDesktop { session_ids: IdCounter::new(), enable_input, enable_clipboard }
    }

    /// Asks the compositor for a session.
    pub fn create_session(
        &mut self,
        sender: Option<String>,
        options: &Options,
        session_options: &Options,
        reply: ReplyHandle,
    ) -> (result: Result<(PendingSession, RemoteDesktopToNiri), FdoError>)
        requires
            sender is Some ==> old(self).session_ids.can_supply(1),
        ensures
            final(self).enable_input == old(self).enable_input,
            final(self).enable_clipboard == old(self).enable_clipboard,
            match sender {
                None => {
                    &&& final(self).session_ids == old(self).session_ids
                    &&& result matches Err(error)
                    &&& error@ == ErrorView::Failed("message has no sender"@)
                },
                Some(sender) => {
                    &&& final(self).session_ids.value == old(self).session_ids.value + 1
                    &&& result matches Ok(created)
                    &&& created.0.id == old(self).session_ids.value
                    &&& created.0.owner@ == sender@
                    &&& created.0.persistent == is_on(options@, "persistent"@)
                    &&& created.0.takes_control == is_on(options@, "takes-control"@)
                    &&& created.0.disable_animations == is_on(
                        session_options@,
                        "disable-animations"@,
                    )
                    &&& created.1@ == (RequestView::CreateSession {
                        id: created.0.id,
                        persistent: created.0.persistent,
                        takes_control: created.0.takes_control,
                        disable_animations: created.0.disable_animations,
                        reply,
                    })
                },
            },
    {
        let Some(owner) = sender else {
            return Err(FdoError::Failed("message has no sender".to_owned()));
        };
        let persistent = flag(options, "persistent");
        let takes_control = flag(options, "takes-control");
        let disable_animations = flag(session_options, "disable-animations");
        let id: u64 = self.session_ids.next();
        let message = RemoteDesktopToNiri::CreateSession {
            id,
            persistent,
            takes_control,
            disable_animations,
            reply,
        };
        Ok((PendingSession { id, owner, persistent, takes_control, disable_animations }, message))
    }

    /// Reads the compositor's answer, and makes the objects of the session.
    pub fn session_answered(
        &self,
        pending: &PendingSession,
        outcome: CallOutcome<Vec<MonitorInfo>>,
    ) -> (result: Result<NewSession, FdoError>)
        ensures
            match outcome {
                CallOutcome::Answered(Ok(monitors)) => {
                    &&& result matches Ok(new)
                    &&& new.path@ == path_of_session(pending.id)
                    &&& new.monitors == monitors
                    &&& new.session@ == (SessionObjectView {
                        id: pending.id,
                        owner: pending.owner@,
                        persistent: pending.persistent,
                        has_control: pending.takes_control,
                        disable_animations: pending.disable_animations,
                        destroyed: false,
                        enable_input: self.enable_input,
                        enable_clipboard: self.enable_clipboard,
                    })
                },
                CallOutcome::Answered(Err(error)) => result matches Err(e) && e@
                    == ErrorView::Failed(error@),
                _ => result matches Err(e) && e@ == ErrorView::Failed("internal error"@),
            },
    {
        match call_niri(outcome) {
            Ok(monitors) => Ok(
                NewSession {
                    path: session_path(pending.id),
                    session: Session::new(
                        pending.id,
                        pending.owner.clone(),
                        pending.persistent,
                        pending.takes_control,
                        pending.disable_animations,
                        self.enable_input,
                        self.enable_clipboard,
                    ),
                    monitors,
                },
            ),
            Err(error) => Err(error),
        }
    }

    /// Called with what came of putting the object manager of a session on the bus.
    ///
    /// The object manager goes on first: adding the session afterwards is what makes the session
    /// itself show up for anyone watching the parent.
    pub fn manager_added(&self, pending: &PendingSession, added: Result<(), String>) -> (result:
        Result<(), Refusal>)
        ensures
            match added {
                Ok(_) => result is Ok,
                Err(reason) => {
                    &&& result matches Err(refusal)
                    &&& refusal.error@ == ErrorView::Failed(
                        "error creating session object manager: "@ + reason@,
                    )
                    &&& refusal.message matches Some(message)
                    &&& message@ == (RequestView::DestroySession { id: pending.id, remove: false })
                },
            },
    {
        match added {
            Ok(_) => Ok(()),
            Err(reason) => Err(
                Refusal {
                    message: Some(
                        RemoteDesktopToNiri::DestroySession { id: pending.id, remove: false },
                    ),
                    error: FdoError::Failed(
                        join("error creating session object manager: ", reason.as_str()),
                    ),
                },
            ),
        }
    }

    /// Called with what came of putting the session object on the bus, where it is told whether the
    /// object is new. A new one is noted, and the monitors that exist are exposed under it.
    pub fn session_added(
        &self,
        registry: &mut Registry,
        pending: PendingSession,
        monitors: &Vec<MonitorInfo>,
        added: Result<bool, String>,
    ) -> (result: Result<(String, Vec<ObjectAction>), Refusal>)
        ensures
            match added {
                Ok(true) => {
                    &&& final(registry)@ == (RegistryView {
                        sessions: old(registry)@.sessions.insert(pending.id, pending.owner@),
                        ..old(registry)@
                    })
                    &&& result matches Ok(created)
                    &&& created.0@ == path_of_session(pending.id)
                    &&& views(created.1@) == monitors_exposed(pending.id, views(monitors@))
                },
                Ok(false) => {
                    &&& final(registry)@ == old(registry)@
                    &&& result matches Err(refusal)
                    &&& refusal.error@ == ErrorView::Failed("session path already exists"@)
                    &&& refusal.message is None
                },
                Err(reason) => {
                    &&& final(registry)@ == old(registry)@
                    &&& result matches Err(refusal)
                    &&& refusal.error@ == ErrorView::Failed(
                        "error creating session object: "@ + reason@,
                    )
                    &&& refusal.message matches Some(message)
                    &&& message@ == (RequestView::DestroySession { id: pending.id, remove: false })
                },
            },
    {
        match added {
            Ok(true) => {
                registry.add_session(pending.id, pending.owner);
                let mut actions: Vec<ObjectAction> = Vec::new();
                for i in 0..monitors.len()
                    invariant
                        actions.len() == i,
                        forall|j: int|
                            0 <= j < i ==> #[trigger] actions@[j]@ == monitor_added(
                                pending.id,
                                monitors@[j]@,
                            ),
                {
                    actions.push(add_monitor_object(pending.id, &monitors[i]));
                }
                assert(views(actions@) =~= monitors_exposed(pending.id, views(monitors@)));
                Ok((session_path(pending.id), actions))
            },
            Ok(false) => Err(
                Refusal {
                    message: None,
                    error: FdoError::Failed("session path already exists".to_owned()),
                },
            ),
            Err(reason) => Err(
                Refusal {
                    message: Some(
                        RemoteDesktopToNiri::DestroySession { id: pending.id, remove: false },
                    ),
                    error: FdoError::Failed(
                        join("error creating session object: ", reason.as_str()),
                    ),
                },
            ),
        }
    }

    /// The version of the interface.
    pub fn version(&self) -> (version: u32)
        ensures
            version == VERSION,
    {
        VERSION
    }

    /// What the service can do.
    ///
    /// Persistence is process-lifetime only: the monitors and the bound input capabilities of a
    /// persistent session survive its peer disconnecting and reconnecting, but not a restart of the
    /// compositor. The peer creates a new session when it comes back.
    pub fn capabilities(&self) -> (capabilities: Options)
        ensures
            capabilities@ == Map::empty().insert("persistence"@, ValueView::Bool(true)),
    {
        let mut capabilities = Options::new();
        capabilities.insert("persistence", Value::Bool(true));
        capabilities
    }
}

} // verus!

//! `org.freedesktop.RemoteDesktop1.Clipboard`.

use vstd::prelude::*;
use vstd::string::*;

use super::calls::{ErrorView, FdoError, check_sender, not_the_owner, sent_by};
use super::messages::{ClipboardType, RemoteDesktopToNiri, ReplyHandle, RequestView};
use super::options::{Options, ValueView, get_string_vec, get_u32, string_vec_of, u32_of};
use super::VERSION;
use crate::utils::lists::views;
use crate::utils::text::{decimal, decimal_text, join};
use crate::utils::RemoteDesktopSessionId;

verus! {

/// The clipboard of a session.
#[derive(Debug)]
pub struct Clipboard {
    pub session: RemoteDesktopSessionId,
    /// The unique name of the peer that created the session.
    pub owner: String,
}

/// What a `Clipboard` holds.
pub struct ClipboardObjectView {
    pub session: RemoteDesktopSessionId,
    pub owner: Seq<char>,
}

impl View for Clipboard {
    type V = ClipboardObjectView;

    open spec fn view(&self) -> ClipboardObjectView {
        ClipboardObjectView { session: self.session, owner: self.owner@ }
    }
}

/// The selection that the options ask for, or what is wrong with them. Without one it is the
/// clipboard.
pub open spec fn asked_clipboard_type(options: Map<Seq<char>, ValueView>) -> Result<
    ClipboardType,
    ErrorView,
> {
    match u32_of(options, "clipboard-type"@) {
        Some(1) => Ok(ClipboardType::Clipboard),
        Some(2) => Ok(ClipboardType::Primary),
        Some(value) => Err(
            ErrorView::InvalidArgs("bad clipboard type: "@ + decimal(value as nat)),
        ),
        None => Ok(ClipboardType::Clipboard),
    }
}

/// The selection that the options ask for.
pub fn clipboard_type(options: &Options) -> (result: Result<ClipboardType, FdoError>)
    ensures
        match result {
            Ok(ty) => asked_clipboard_type(options@) == Ok::<ClipboardType, ErrorView>(ty),
            Err(error) => asked_clipboard_type(options@) == Err::<ClipboardType, ErrorView>(error@),
        },
{
    match get_u32(options, "clipboard-type") {
        Some(value) => match ClipboardType::from_dbus(value) {
            Some(ty) => Ok(ty),
            None => {
                assert(ClipboardType::Clipboard.code() != value);
                assert(ClipboardType::Primary.code() != value);
                let number = decimal_text(value as u64);
                Err(FdoError::InvalidArgs(join("bad clipboard type: ", number.as_str())))
            },
        },
        None => Ok(ClipboardType::default()),
    }
}

impl Clipboard {
    /// The clipboard of a session.
    pub fn new(session: RemoteDesktopSessionId, owner: String) -> (clipboard: Self)
        ensures
            clipboard@ == (ClipboardObjectView { session, owner: owner@ }),
    {
        Clipboard { session, owner }
    }

    /// Turns clipboard integration off.
    pub fn destroy(&self, sender: &Option<String>) -> (result: Result<
        RemoteDesktopToNiri,
        FdoError,
    >)
        ensures
            match result {
                Ok(message) => sent_by(*sender, self@.owner) && message@ == (
                RequestView::DisableClipboard { session: self@.session }),
                Err(error) => !sent_by(*sender, self@.owner) && error@ == not_the_owner(),
            },
    {
        match check_sender(sender, &self.owner) {
            Ok(_) => Ok(RemoteDesktopToNiri::DisableClipboard { session: self.session }),
            Err(error) => Err(error),
        }
    }

    /// Offers mime types for a selection, or none.
    pub fn set_selection(
        &self,
        sender: &Option<String>,
        options: &Options,
        reply: ReplyHandle,
    ) -> (result: Result<RemoteDesktopToNiri, FdoError>)
        ensures
            match (sent_by(*sender, self@.owner), asked_clipboard_type(options@), result) {
                (true, Ok(ty), Ok(message)) => message@ == (RequestView::SetSelection {
                    session: self@.session,
                    ty,
                    mime_types: match string_vec_of(options@, "mime-types"@) {
                        Some(mime_types) => mime_types,
                        None => Seq::empty(),
                    },
                    reply,
                }),
                (true, Err(wrong), Err(error)) => error@ == wrong,
                (false, _, Err(error)) => error@ == not_the_owner(),
                _ => false,
            },
    {
        match check_sender(sender, &self.owner) {
            Ok(_) => {},
            Err(error) => {
                return Err(error);
            },
        }
        let ty = match clipboard_type(options) {
            Ok(ty) => ty,
            Err(error) => {
                return Err(error);
            },
        };
        let mime_types: Vec<String> = match get_string_vec(options, "mime-types") {
            Some(mime_types) => mime_types,
            None => Vec::new(),
        };
        assert(views(Seq::<String>::empty()) =~= Seq::<Seq<char>>::empty());
        Ok(RemoteDesktopToNiri::SetSelection { session: self.session, ty, mime_types, reply })
    }

    /// Asks for the fd that selection data is written to.
    pub fn selection_write(
        &self,
        sender: &Option<String>,
        serial: u32,
        reply: ReplyHandle,
    ) -> (result: Result<RemoteDesktopToNiri, FdoError>)
        ensures
            match result {
                Ok(message) => sent_by(*sender, self@.owner) && message@ == (
                RequestView::SelectionWrite { session: self@.session, serial, reply }),
                Err(error) => !sent_by(*sender, self@.owner) && error@ == not_the_owner(),
            },
    {
        match check_sender(sender, &self.owner) {
            Ok(_) => Ok(
                RemoteDesktopToNiri::SelectionWrite { session: self.session, serial, reply },
            ),
            Err(error) => Err(error),
        }
    }

    /// Tells that selection data was written.
    pub fn selection_write_done(
        &self,
        sender: &Option<String>,
        serial: u32,
        success: bool,
    ) -> (result: Result<RemoteDesktopToNiri, FdoError>)
        ensures
            match result {
                Ok(message) => sent_by(*sender, self@.owner) && message@ == (
                RequestView::SelectionWriteDone { session: self@.session, serial, success }),
                Err(error) => !sent_by(*sender, self@.owner) && error@ == not_the_owner(),
            },
    {
        match check_sender(sender, &self.owner) {
            Ok(_) => Ok(
                RemoteDesktopToNiri::SelectionWriteDone { session: self.session, serial, success },
            ),
            Err(error) => Err(error),
        }
    }

    /// Asks for the data of a selection.
    pub fn selection_read(
        &self,
        sender: &Option<String>,
        mime_type: String,
        options: &Options,
        reply: ReplyHandle,
    ) -> (result: Result<RemoteDesktopToNiri, FdoError>)
        ensures
            match (sent_by(*sender, self@.owner), asked_clipboard_type(options@), result) {
                (true, Ok(ty), Ok(message)) => message@ == (RequestView::SelectionRead {
                    session: self@.session,
                    ty,
                    mime_type: mime_type@,
                    reply,
                }),
                (true, Err(wrong), Err(error)) => error@ == wrong,
                (false, _, Err(error)) => error@ == not_the_owner(),
                _ => false,
            },
    {
        match check_sender(sender, &self.owner) {
            Ok(_) => {},
            Err(error) => {
                return Err(error);
            },
        }
        match clipboard_type(options) {
            Ok(ty) => Ok(
                RemoteDesktopToNiri::SelectionRead { session: self.session, ty, mime_type, reply },
            ),
            Err(error) => Err(error),
        }
    }

    /// The selections that are supported.
    pub fn supported_types(&self) -> (types: Vec<u32>)
        ensures
            types@ == seq![ClipboardType::Clipboard.code(), ClipboardType::Primary.code()],
    {
        let mut types: Vec<u32> = Vec::new();
        types.push(ClipboardType::Clipboard.to_dbus());
        types.push(ClipboardType::Primary.to_dbus());
        assert(types@ =~= seq![ClipboardType::Clipboard.code(), ClipboardType::Primary.code()]);
        types
    }

    /// The version of the interface.
    pub fn version(&self) -> (version: u32)
        ensures
            version == VERSION,
    {
        VERSION
    }
}

} // verus!

//! The object paths of the API.

use vstd::prelude::*;
use vstd::string::*;

use crate::utils::text::{
    decimal, decimal_text, is_digit, join, lemma_decimal_digits, lemma_decimal_injective,
};
use crate::utils::{RemoteDesktopMonitorId, RemoteDesktopSessionId};

verus! {

/// The path of the object that creates sessions.
pub const PATH: &'static str = "/org/freedesktop/RemoteDesktop1";

/// Whether a character may stand in an element of an object path.
pub open spec fn path_character(c: char) -> bool {
    'a' <= c <= 'z' || 'A' <= c <= 'Z' || '0' <= c <= '9' || c == '_'
}

/// Whether a text is a D-Bus object path: a slash, and behind it nothing, or elements of at least
/// one character each with single slashes between them.
pub open spec fn valid_object_path(path: Seq<char>) -> bool {
    &&& path.len() > 0
    &&& path[0] == '/'
    &&& forall|i: int|
        0 <= i < path.len() ==> #[trigger] path[i] == '/' || path_character(path[i])
    &&& path.len() > 1 ==> path.last() != '/'
    &&& forall|i: int, j: int|
        0 <= i && j == i + 1 && j < path.len() ==> !(#[trigger] path[i] == '/' && #[trigger] path[j]
            == '/')
}

/// Whether a text may be an element of an object path.
pub open spec fn valid_element(element: Seq<char>) -> bool {
    &&& element.len() > 0
    &&& forall|i: int| 0 <= i < element.len() ==> path_character(#[trigger] element[i])
}

/// The path of an object below another one.
pub open spec fn below(parent: Seq<char>, element: Seq<char>) -> Seq<char> {
    parent + "/"@ + element
}

/// A path with an element more is a path.
proof fn lemma_below_valid(parent: Seq<char>, element: Seq<char>)
    requires
        valid_object_path(parent),
        parent.len() > 1,
        valid_element(element),
    ensures
        valid_object_path(below(parent, element)),
        below(parent, element).len() > 1,
{
    reveal_strlit("/");
    let path = below(parent, element);
    assert forall|i: int| 0 <= i < path.len() implies #[trigger] path[i] == '/' || path_character(
        path[i],
    ) by {
        if i < parent.len() {
            assert(path[i] == parent[i]);
        } else if i > parent.len() {
            assert(path[i] == element[i - parent.len() - 1]);
        }
    }
    assert forall|i: int, j: int| 0 <= i && j == i + 1 && j < path.len() implies !(
    #[trigger] path[i] == '/' && #[trigger] path[j] == '/') by {
        if j < parent.len() {
            assert(path[i] == parent[i] && path[j] == parent[j]);
        } else if j == parent.len() {
            assert(path[i] == parent.last());
        } else {
            assert(path[j] == element[j - parent.len() - 1]);
        }
    }
    assert(path.last() == element.last());
}

/// Different objects have different paths, and so have objects below different ones.
proof fn lemma_below_injective(
    parent: Seq<char>,
    element: Seq<char>,
    other_parent: Seq<char>,
    other_element: Seq<char>,
)
    requires
        valid_element(element),
        valid_element(other_element),
        below(parent, element) == below(other_parent, other_element),
    ensures
        parent == other_parent,
        element == other_element,
{
    reveal_strlit("/");
    let path = below(parent, element);
    let other = below(other_parent, other_element);
    assert("/"@.len() == 1);
    assert(path.len() == parent.len() + 1 + element.len());
    assert(other.len() == other_parent.len() + 1 + other_element.len());
    assert(path[parent.len() as int] == '/');
    assert(other[other_parent.len() as int] == '/');
    if parent.len() < other_parent.len() {
        assert(path[other_parent.len() as int] == element[other_parent.len() - parent.len() - 1]);
    } else if other_parent.len() < parent.len() {
        assert(other[parent.len() as int] == other_element[parent.len() - other_parent.len() - 1]);
    }
    assert(parent =~= path.take(parent.len() as int));
    assert(other_parent =~= other.take(other_parent.len() as int));
    assert(element =~= path.skip(parent.len() as int + 1));
    assert(other_element =~= other.skip(other_parent.len() as int + 1));
}

/// The element that stands for a number.
pub open spec fn numbered_element(number: u64) -> Seq<char> {
    "u"@ + decimal(number as nat)
}

/// The path of a session.
pub open spec fn path_of_session(session: RemoteDesktopSessionId) -> Seq<char> {
    below(below(PATH@, "Session"@), numbered_element(session))
}

/// The path of a monitor under a session.
pub open spec fn path_of_monitor(
    session: RemoteDesktopSessionId,
    monitor: RemoteDesktopMonitorId,
) -> Seq<char> {
    below(below(path_of_session(session), "Monitor"@), numbered_element(monitor))
}

/// The path of the clipboard of a session.
pub open spec fn path_of_clipboard(session: RemoteDesktopSessionId) -> Seq<char> {
    below(path_of_session(session), "Clipboard"@)
}

proof fn lemma_numbered_element(number: u64)
    ensures
        valid_element(numbered_element(number)),
{
    reveal_strlit("u");
    lemma_decimal_digits(number as nat);
    let digits = decimal(number as nat);
    assert forall|i: int| 0 <= i < numbered_element(number).len() implies path_character(
        #[trigger] numbered_element(number)[i],
    ) by {
        if i > 0 {
            assert(is_digit(digits[i - 1]));
        }
    }
}

proof fn lemma_numbered_element_injective(a: u64, b: u64)
    requires
        numbered_element(a) == numbered_element(b),
    ensures
        a == b,
{
    reveal_strlit("u");
    assert(decimal(a as nat) =~= numbered_element(a).skip(1));
    assert(decimal(b as nat) =~= numbered_element(b).skip(1));
    lemma_decimal_injective(a as nat, b as nat);
}

proof fn lemma_words()
    ensures
        valid_element("Session"@),
        valid_element("Monitor"@),
        valid_element("Clipboard"@),
        valid_object_path(PATH@),
        PATH@.len() > 1,
{
    reveal_strlit("Session");
    reveal_strlit("Monitor");
    reveal_strlit("Clipboard");
    reveal_strlit("/org/freedesktop/RemoteDesktop1");
}

proof fn lemma_session_path_valid(session: RemoteDesktopSessionId)
    ensures
        valid_object_path(path_of_session(session)),
        path_of_session(session).len() > 1,
{
    lemma_words();
    lemma_numbered_element(session);
    lemma_below_valid(PATH@, "Session"@);
    lemma_below_valid(below(PATH@, "Session"@), numbered_element(session));
}

/// Different sessions have different paths, and so have their clipboards; different monitors have
/// different paths under a session, and one monitor has different paths under different sessions.
pub proof fn paths_are_distinct(
    a: RemoteDesktopSessionId,
    m: RemoteDesktopMonitorId,
    b: RemoteDesktopSessionId,
    n: RemoteDesktopMonitorId,
)
    ensures
        path_of_session(a) == path_of_session(b) ==> a == b,
        path_of_clipboard(a) == path_of_clipboard(b) ==> a == b,
        path_of_monitor(a, m) == path_of_monitor(b, n) ==> a == b && m == n,
        path_of_clipboard(a) != path_of_session(b),
        path_of_monitor(a, m) != path_of_session(b),
        path_of_monitor(a, m) != path_of_clipboard(b),
{
    lemma_words();
    lemma_numbered_element(a);
    lemma_numbered_element(b);
    lemma_numbered_element(m);
    lemma_numbered_element(n);
    if path_of_session(a) == path_of_session(b) {
        lemma_below_injective(
            below(PATH@, "Session"@),
            numbered_element(a),
            below(PATH@, "Session"@),
            numbered_element(b),
        );
        lemma_numbered_element_injective(a, b);
    }
    if path_of_clipboard(a) == path_of_clipboard(b) {
        lemma_below_injective(
            path_of_session(a),
            "Clipboard"@,
            path_of_session(b),
            "Clipboard"@,
        );
    }
    if path_of_monitor(a, m) == path_of_monitor(b, n) {
        lemma_below_injective(
            below(path_of_session(a), "Monitor"@),
            numbered_element(m),
            below(path_of_session(b), "Monitor"@),
            numbered_element(n),
        );
        lemma_numbered_element_injective(m, n);
        lemma_below_injective(path_of_session(a), "Monitor"@, path_of_session(b), "Monitor"@);
        lemma_below_injective(
            below(PATH@, "Session"@),
            numbered_element(a),
            below(PATH@, "Session"@),
            numbered_element(b),
        );
        lemma_numbered_element_injective(a, b);
    }
    if path_of_clipboard(a) == path_of_clipboard(b) {
        lemma_below_injective(
            below(PATH@, "Session"@),
            numbered_element(a),
            below(PATH@, "Session"@),
            numbered_element(b),
        );
        lemma_numbered_element_injective(a, b);
    }
    reveal_strlit("u");
    reveal_strlit("Clipboard");
    if path_of_clipboard(a) == path_of_session(b) {
        lemma_below_injective(
            path_of_session(a),
            "Clipboard"@,
            below(PATH@, "Session"@),
            numbered_element(b),
        );
        assert("Clipboard"@[0] == numbered_element(b)[0]);
    }
    if path_of_monitor(a, m) == path_of_clipboard(b) {
        lemma_below_injective(
            below(path_of_session(a), "Monitor"@),
            numbered_element(m),
            path_of_session(b),
            "Clipboard"@,
        );
        assert("Clipboard"@[0] == numbered_element(m)[0]);
    }
    if path_of_monitor(a, m) == path_of_session(b) {
        lemma_below_injective(
            below(path_of_session(a), "Monitor"@),
            numbered_element(m),
            below(PATH@, "Session"@),
            numbered_element(b),
        );
        lemma_below_injective(path_of_session(a), "Monitor"@, PATH@, "Session"@);
        reveal_strlit("Session");
        reveal_strlit("Monitor");
        assert("Session"@[0] == "Monitor"@[0]);
    }
}

/// The error that `zvariant` gives for a text that is no object path.
#[verifier::external_type_specification]
#[verifier::external_body]
pub struct ExVariantError(zbus::zvariant::Error);

/// Checks a text with `zbus::zvariant::OwnedObjectPath::try_from`.
///
/// Claimed of it: it accepts exactly the texts that are object paths, and the path that it then
/// holds reads like the text.
#[verifier::external_body]
fn owned_object_path(path: String) -> (checked: Result<String, zbus::zvariant::Error>)
    ensures
        checked is Ok <==> valid_object_path(path@),
        checked matches Ok(text) ==> text@ == path@,
{
    zbus::zvariant::OwnedObjectPath::try_from(path).map(|path| path.as_str().to_owned())
}

/// Makes a text the path of an object, if it can be one.
pub fn object_path(path: String) -> (checked: Option<String>)
    ensures
        match checked {
            Some(checked) => valid_object_path(path@) && checked@ == path@,
            None => !valid_object_path(path@),
        },
{
    match owned_object_path(path) {
        Ok(path) => Some(path),
        Err(_) => None,
    }
}

/// The path of an object below another one.
fn child(parent: &str, element: &str) -> (path: String)
    ensures
        path@ == below(parent@, element@),
{
    let front = join(parent, "/");
    join(front.as_str(), element)
}

/// The element that stands for a number.
fn number_element(number: u64) -> (element: String)
    ensures
        element@ == numbered_element(number),
{
    let digits = decimal_text(number);
    join("u", digits.as_str())
}

/// The path of a session, not checked yet.
fn session_text(session: RemoteDesktopSessionId) -> (path: String)
    ensures
        path@ == path_of_session(session),
{
    let parent = child(PATH, "Session");
    let element = number_element(session);
    child(parent.as_str(), element.as_str())
}

/// The path of a session.
pub fn session_path(session: RemoteDesktopSessionId) -> (path: String)
    ensures
        path@ == path_of_session(session),
        valid_object_path(path@),
{
    proof {
        lemma_session_path_valid(session);
    }
    owned_object_path(session_text(session)).unwrap()
}

/// The path of a monitor under a session.
pub fn monitor_path(session: RemoteDesktopSessionId, monitor: RemoteDesktopMonitorId) -> (path:
    String)
    ensures
        path@ == path_of_monitor(session, monitor),
        valid_object_path(path@),
{
    proof {
        lemma_words();
        lemma_session_path_valid(session);
        lemma_numbered_element(monitor);
        lemma_below_valid(path_of_session(session), "Monitor"@);
        lemma_below_valid(below(path_of_session(session), "Monitor"@), numbered_element(monitor));
    }
    let session_path = session_text(session);
    let parent = child(session_path.as_str(), "Monitor");
    let element = number_element(monitor);
    owned_object_path(child(parent.as_str(), element.as_str())).unwrap()
}

/// The path of the clipboard of a session.
pub fn clipboard_path(session: RemoteDesktopSessionId) -> (path: String)
    ensures
        path@ == path_of_clipboard(session),
        valid_object_path(path@),
{
    proof {
        lemma_words();
        lemma_session_path_valid(session);
        lemma_below_valid(path_of_session(session), "Clipboard"@);
    }
    let session_path = session_text(session);
    owned_object_path(child(session_path.as_str(), "Clipboard")).unwrap()
}

/// The characters that an element may hold are the letters and the digits of ASCII and the underscore.
pub proof fn elements_are_made_of_letters_and_digits(element: Seq<char>, c: char)
    ensures
        path_character(c) == (97 <= c as u32 <= 122 || 65 <= c as u32 <= 90 || 48 <= c as u32 <= 57
            || c as u32 == 95),
        !valid_element(Seq::empty()),
        valid_element(element.push(c)) == (path_character(c) && (element.len() == 0
            || valid_element(element))),
{
    let longer = element.push(c);
    if valid_element(longer) {
        assert(longer[element.len() as int] == c);
        assert forall|i: int| 0 <= i < element.len() implies path_character(
            #[trigger] element[i],
        ) by {
            assert(longer[i] == element[i]);
        }
    }
}

/// A slash alone is a path and nothing is none. Any other text is a path exactly if its last slash
/// stands between a path, or nothing, and an element.
pub proof fn paths_end_in_an_element(parent: Seq<char>, element: Seq<char>)
    requires
        parent.len() > 0 || element.len() > 0,
        forall|i: int| 0 <= i < element.len() ==> #[trigger] element[i] != '/',
    ensures
        valid_object_path("/"@),
        !valid_object_path(Seq::empty()),
        valid_object_path(parent + "/"@ + element) == (valid_element(element) && (parent.len() == 0
            || (parent.len() > 1 && valid_object_path(parent)))),
{
    reveal_strlit("/");
    let path = parent + "/"@ + element;
    assert(path == below(parent, element));
    assert(path[parent.len() as int] == '/');
    assert(forall|i: int| 0 <= i < parent.len() ==> #[trigger] path[i] == parent[i]);
    assert(forall|i: int|
        0 <= i < element.len() ==> #[trigger] element[i] == path[i + parent.len() + 1]);
    if valid_object_path(path) {
        assert(element.len() > 0) by {
            if element.len() == 0 {
                assert(path.last() == '/');
            }
        }
        assert forall|i: int| 0 <= i < element.len() implies path_character(
            #[trigger] element[i],
        ) by {
            assert(path[i + parent.len() + 1] == element[i]);
        }
        if parent.len() > 0 {
            assert(path[parent.len() - 1] == parent.last());
            assert(path[0] == parent[0]);
            assert forall|i: int| 0 <= i < parent.len() implies #[trigger] parent[i] == '/'
                || path_character(parent[i]) by {
                assert(path[i] == parent[i]);
            }
            assert forall|i: int, j: int| 0 <= i && j == i + 1 && j < parent.len() implies !(
            #[trigger] parent[i] == '/' && #[trigger] parent[j] == '/') by {
                assert(path[i] == parent[i] && path[j] == parent[j]);
            }
        }
    }
    if valid_element(element) {
        if parent.len() > 1 && valid_object_path(parent) {
            lemma_below_valid(parent, element);
        }
        if parent.len() == 0 {
            assert forall|i: int| 0 <= i < path.len() implies #[trigger] path[i] == '/'
                || path_character(path[i]) by {
                if i > 0 {
                    assert(path[i] == element[i - 1]);
                }
            }
            assert forall|i: int, j: int| 0 <= i && j == i + 1 && j < path.len() implies !(
            #[trigger] path[i] == '/' && #[trigger] path[j] == '/') by {
                assert(path[j] == element[j - 1]);
            }
            assert(path.last() == element.last());
        }
    }
}

} // verus!

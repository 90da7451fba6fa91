//! What one look at the desktop says about the login.

use vstd::prelude::*;

use crate::text::{contains_text, parts_occur, same_text, texts};
use crate::tree::{has_node, has_node_below, A11yNode, NameTest, NodeTest};
use crate::tree::{holds_at, nested_node_is_a_node, some_node, some_node_below};

verus! {

/// A view that was recognised on the desktop.
#[derive(Debug, PartialEq, Eq)]
pub struct IdentifiedState {
    pub state_id: String,
}

/// The views that were recognised on the desktop, by the part of it that they fill.
#[derive(Debug, PartialEq, Eq)]
pub struct IdentifiedStates {
    pub main_window: Option<IdentifiedState>,
}

impl IdentifiedStates {
    /// The identifier of the view in the main window, where one was recognised.
    pub open spec fn main_view(self) -> Option<Seq<char>> {
        match self.main_window {
            Some(state) => Some(state.state_id@),
            None => None,
        }
    }
}

/// `tool-bar[name="Navigation"]`
pub open spec fn is_navigation_bar(node: A11yNode) -> bool {
    node.role@ == "tool-bar"@ && node.name@ == "Navigation"@
}

/// `push-button[name=/^(Weixin|WeChat)$/]`
pub open spec fn is_messages_button(node: A11yNode) -> bool {
    node.role@ == "push-button"@ && (node.name@ == "Weixin"@ || node.name@ == "WeChat"@)
}

/// `push-button[name="Contacts"]`
pub open spec fn is_contacts_button(node: A11yNode) -> bool {
    node.role@ == "push-button"@ && node.name@ == "Contacts"@
}

/// `push-button[name="More"]`
pub open spec fn is_more_button(node: A11yNode) -> bool {
    node.role@ == "push-button"@ && node.name@ == "More"@
}

/// The navigation of a logged-in client: the bar, and each of its three buttons below such a bar.
pub open spec fn logged_in_shell(root: A11yNode) -> bool {
    let bar = |node: A11yNode| is_navigation_bar(node);
    &&& some_node(root, bar)
    &&& some_node_below(root, bar, |node: A11yNode| is_messages_button(node))
    &&& some_node_below(root, bar, |node: A11yNode| is_contacts_button(node))
    &&& some_node_below(root, bar, |node: A11yNode| is_more_button(node))
}

/// A name that asks to confirm the login on the phone:
/// `/Comfirm on phone|Confirm.*phone|手机确认/i`.
pub open spec fn asks_for_phone(name: Seq<char>) -> bool {
    ||| parts_occur(name, seq!["Comfirm on phone"@])
    ||| parts_occur(name, seq!["Confirm"@, "phone"@])
    ||| parts_occur(name, seq!["手机确认"@])
}

/// A node that only a login view has.
pub open spec fn is_login_sign(node: A11yNode) -> bool {
    ||| node.role@ == "label"@ && {
        ||| node.name@ == "Entering"@
        ||| contains_text(node.name@, "Loading"@)
        ||| contains_text(node.name@, "Scan to log in"@)
        ||| asks_for_phone(node.name@)
    }
    ||| node.role@ == "push-button"@ && node.name@ == "Switch Account"@
}

/// Whether the desktop shows a login view.
pub open spec fn explicit_login(root: A11yNode) -> bool {
    some_node(root, |node: A11yNode| is_login_sign(node))
}

/// The views of a client that is logged in.
pub open spec fn is_chat_view(state_id: Seq<char>) -> bool {
    state_id == "chat"@ || state_id == "chat_open"@
}

/// The views of a client that is being logged in.
pub open spec fn is_login_view(state_id: Seq<char>) -> bool {
    ||| state_id == "login_qr"@
    ||| state_id == "login_account"@
    ||| state_id == "login_phone_confirm"@
    ||| state_id == "login_loading"@
}

/// The login status that the tree and the view of the main window show.
pub open spec fn shown_status(root: A11yNode, main_view: Option<Seq<char>>) -> Seq<char> {
    if explicit_login(root) {
        "logged_out"@
    } else if main_view matches Some(id) && is_chat_view(id) {
        "logged_in"@
    } else if main_view matches Some(id) && is_login_view(id) {
        "logged_out"@
    } else if logged_in_shell(root) {
        "logged_in"@
    } else {
        "unknown"@
    }
}

fn navigation_bar() -> (test: NodeTest)
    ensures
        forall|node: A11yNode| #[trigger] test.accepts(node) == is_navigation_bar(node),
{
    NodeTest { role: "tool-bar", name: NameTest::Equals("Navigation") }
}

fn messages_button() -> (test: NodeTest)
    ensures
        forall|node: A11yNode| #[trigger] test.accepts(node) == is_messages_button(node),
{
    let names: Vec<&'static str> = vec!["Weixin", "WeChat"];
    proof {
        assert(names@ =~= seq!["Weixin", "WeChat"]);
        assert(names@[0]@ == "Weixin"@ && names@[1]@ == "WeChat"@);
    }
    NodeTest { role: "push-button", name: NameTest::OneOf(names) }
}

fn phone_prompt() -> (test: NodeTest)
    ensures
        forall|node: A11yNode| #[trigger]
            test.accepts(node) == (node.role@ == "label"@ && asks_for_phone(node.name@)),
{
    let misspelled: Vec<&'static str> = vec!["Comfirm on phone"];
    let spelled: Vec<&'static str> = vec!["Confirm", "phone"];
    let chinese: Vec<&'static str> = vec!["手机确认"];
    let alternatives: Vec<Vec<&'static str>> = vec![misspelled, spelled, chinese];
    proof {
        assert(texts(misspelled@) =~= seq!["Comfirm on phone"@]);
        assert(texts(spelled@) =~= seq!["Confirm"@, "phone"@]);
        assert(texts(chinese@) =~= seq!["手机确认"@]);
        assert(alternatives@.len() == 3);
        assert(alternatives@[0] == misspelled && alternatives@[1] == spelled && alternatives@[2]
            == chinese);
    }
    NodeTest { role: "label", name: NameTest::Like(alternatives) }
}

/// Whether the tree has the complete navigation of a logged-in client.
pub fn has_logged_in_navigation_shell(a11y: &A11yNode) -> (found: bool)
    ensures
        found == logged_in_shell(*a11y),
{
    let bar: NodeTest = navigation_bar();
    let messages: NodeTest = messages_button();
    let contacts: NodeTest = NodeTest { role: "push-button", name: NameTest::Equals("Contacts") };
    let more: NodeTest = NodeTest { role: "push-button", name: NameTest::Equals("More") };
    proof {
        assert((|node: A11yNode| bar.accepts(node)) =~= (|node: A11yNode| is_navigation_bar(node)));
        assert((|node: A11yNode| messages.accepts(node)) =~= (|node: A11yNode|
            is_messages_button(node)));
        assert((|node: A11yNode| contacts.accepts(node)) =~= (|node: A11yNode|
            is_contacts_button(node)));
        assert((|node: A11yNode| more.accepts(node)) =~= (|node: A11yNode| is_more_button(node)));
    }
    has_node(a11y, &bar) && has_node_below(a11y, &bar, &messages) && has_node_below(
        a11y,
        &bar,
        &contacts,
    ) && has_node_below(a11y, &bar, &more)
}

/// A test that only login signs pass finds nothing but in a login view.
proof fn sign_shows_login(root: A11yNode, test: NodeTest)
    requires
        forall|node: A11yNode| #[trigger] test.accepts(node) ==> is_login_sign(node),
    ensures
        some_node(root, |node: A11yNode| test.accepts(node)) ==> explicit_login(root),
{
    let pred = |node: A11yNode| test.accepts(node);
    if some_node(root, pred) {
        let path = choose|path: Seq<int>| holds_at(root, path, pred);
        assert(holds_at(root, path, |node: A11yNode| is_login_sign(node)));
    }
}

/// Whether the tree shows a login view.
pub fn has_explicit_login_ui(a11y: &A11yNode) -> (found: bool)
    ensures
        found == explicit_login(*a11y),
{
    let entering: NodeTest = NodeTest { role: "label", name: NameTest::Equals("Entering") };
    let loading: NodeTest = NodeTest { role: "label", name: NameTest::Contains("Loading") };
    let scan: NodeTest = NodeTest { role: "label", name: NameTest::Contains("Scan to log in") };
    let switch: NodeTest = NodeTest {
        role: "push-button",
        name: NameTest::Equals("Switch Account"),
    };
    let phone: NodeTest = phone_prompt();
    let found: bool = has_node(a11y, &entering) || has_node(a11y, &loading) || has_node(
        a11y,
        &scan,
    ) || has_node(a11y, &switch) || has_node(a11y, &phone);
    proof {
        let root = *a11y;
        sign_shows_login(root, entering);
        sign_shows_login(root, loading);
        sign_shows_login(root, scan);
        sign_shows_login(root, switch);
        sign_shows_login(root, phone);
        if explicit_login(root) {
            let sign = |node: A11yNode| is_login_sign(node);
            let path = choose|path: Seq<int>| holds_at(root, path, sign);
            assert({
                ||| holds_at(root, path, |node: A11yNode| entering.accepts(node))
                ||| holds_at(root, path, |node: A11yNode| loading.accepts(node))
                ||| holds_at(root, path, |node: A11yNode| scan.accepts(node))
                ||| holds_at(root, path, |node: A11yNode| switch.accepts(node))
                ||| holds_at(root, path, |node: A11yNode| phone.accepts(node))
            });
        }
    }
    found
}

/// The login status that one observation shows: `logged_in`, `logged_out` or `unknown`.
///
/// An explicit login view is logged out. A chat view and the complete navigation of a logged-in
/// client are logged in. Any other observation is unknown.
pub fn observed_auth_status(a11y: &A11yNode, identified: &IdentifiedStates) -> (status: &'static str)
    ensures
        status@ == shown_status(*a11y, identified.main_view()),
{
    if has_explicit_login_ui(a11y) {
        return "logged_out";
    }
    if let Some(main_window) = &identified.main_window {
        let id: &str = main_window.state_id.as_str();
        if same_text(id, "chat") || same_text(id, "chat_open") {
            return "logged_in";
        }
        if same_text(id, "login_qr") || same_text(id, "login_account") || same_text(
            id,
            "login_phone_confirm",
        ) || same_text(id, "login_loading") {
            return "logged_out";
        }
    }
    if has_logged_in_navigation_shell(a11y) {
        "logged_in"
    } else {
        "unknown"
    }
}

/// The three statuses are three different texts.
proof fn statuses_differ()
    ensures
        "logged_in"@ != "logged_out"@,
        "logged_in"@ != "unknown"@,
        "logged_out"@ != "unknown"@,
{
    reveal_strlit("logged_in");
    reveal_strlit("logged_out");
    reveal_strlit("unknown");
    assert("logged_in"@.len() == 9 && "logged_out"@.len() == 10 && "unknown"@.len() == 7);
}

/// A chat view is no login view.
pub proof fn chat_is_no_login(state_id: Seq<char>)
    ensures
        !(is_chat_view(state_id) && is_login_view(state_id)),
{
    reveal_strlit("chat");
    reveal_strlit("chat_open");
    reveal_strlit("login_qr");
    reveal_strlit("login_account");
    reveal_strlit("login_phone_confirm");
    reveal_strlit("login_loading");
    assert("chat"@[0] == 'c' && "chat_open"@[0] == 'c');
    assert("login_qr"@[0] == 'l' && "login_account"@[0] == 'l');
    assert("login_phone_confirm"@[0] == 'l' && "login_loading"@[0] == 'l');
}

/// An explicit login view is logged out, whatever else the desktop shows.
pub proof fn explicit_login_is_logged_out(root: A11yNode, main_view: Option<Seq<char>>)
    requires
        explicit_login(root),
    ensures
        shown_status(root, main_view) == "logged_out"@,
{
}

/// Logged in is shown exactly by a chat view, or by the complete navigation where the view is no
/// login view; in both cases only without an explicit login view.
pub proof fn when_logged_in(root: A11yNode, main_view: Option<Seq<char>>)
    ensures
        shown_status(root, main_view) == "logged_in"@ <==> {
            &&& !explicit_login(root)
            &&& {
                ||| main_view matches Some(id) && is_chat_view(id)
                ||| logged_in_shell(root) && !(main_view matches Some(id) && is_login_view(id))
            }
        },
{
    statuses_differ();
    if main_view is Some {
        chat_is_no_login(main_view->0);
    }
}

/// Logged out is shown exactly by an explicit login view or by a login view in the main window.
pub proof fn when_logged_out(root: A11yNode, main_view: Option<Seq<char>>)
    ensures
        shown_status(root, main_view) == "logged_out"@ <==> {
            ||| explicit_login(root)
            ||| main_view matches Some(id) && is_login_view(id)
        },
{
    statuses_differ();
    if main_view is Some {
        chat_is_no_login(main_view->0);
    }
}

/// Every other observation is unknown.
pub proof fn when_unknown(root: A11yNode, main_view: Option<Seq<char>>)
    ensures
        shown_status(root, main_view) == "unknown"@ <==> {
            &&& !explicit_login(root)
            &&& !(main_view matches Some(id) && (is_chat_view(id) || is_login_view(id)))
            &&& !logged_in_shell(root)
        },
        shown_status(root, main_view) != "logged_in"@ && shown_status(root, main_view)
            != "logged_out"@ ==> shown_status(root, main_view) == "unknown"@,
{
    statuses_differ();
}

/// A navigation that lacks one of its buttons is not complete.
pub proof fn partial_navigation_is_no_shell(root: A11yNode)
    requires
        ({
            ||| !some_node(root, |node: A11yNode| is_messages_button(node))
            ||| !some_node(root, |node: A11yNode| is_contacts_button(node))
            ||| !some_node(root, |node: A11yNode| is_more_button(node))
        }),
    ensures
        !logged_in_shell(root),
{
    let bar = |node: A11yNode| is_navigation_bar(node);
    let messages = |node: A11yNode| is_messages_button(node);
    let contacts = |node: A11yNode| is_contacts_button(node);
    let more = |node: A11yNode| is_more_button(node);
    if logged_in_shell(root) {
        nested_node_is_a_node(root, bar, messages);
        nested_node_is_a_node(root, bar, contacts);
        nested_node_is_a_node(root, bar, more);
    }
}

} // verus!

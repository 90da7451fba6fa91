//! What the nodes of the tree and the recognised view come to, told by the nodes themselves.

use vstd::prelude::*;

use crate::observed::{has_explicit_login_ui, has_logged_in_navigation_shell};
use crate::observed::{explicit_login, is_login_sign, is_messages_button, is_navigation_bar};
use crate::observed::{is_contacts_button, is_more_button, observed_auth_status, IdentifiedStates};
use crate::search_laws::{contained_text_is_in_between, one_part_is_read, reads_at};
use crate::search_laws::two_parts_are_read;
use crate::tree::{holds_at, node_at, some_node, some_node_below, A11yNode};

verus! {

/// A node that is a login sign shows a login view wherever it is.
proof fn sign_on_a_path(root: A11yNode, path: Seq<int>)
    requires
        node_at(root, path) is Some,
        is_login_sign(node_at(root, path)->0),
    ensures
        explicit_login(root),
{
    let sign = |node: A11yNode| is_login_sign(node);
    assert(holds_at(root, path, sign));
}

/// A label named `Entering`, at any depth, is logged out, whatever view was recognised.
pub proof fn entering_is_logged_out(
    root: A11yNode,
    path: Seq<int>,
    label: A11yNode,
    identified: IdentifiedStates,
    found: bool,
    status: &'static str,
)
    requires
        node_at(root, path) == Some(label),
        label.role@ == "label"@,
        label.name@ == "Entering"@,
        call_ensures(has_explicit_login_ui, (&root,), found),
        call_ensures(observed_auth_status, (&root, &identified), status),
    ensures
        found,
        status@ == "logged_out"@,
{
    sign_on_a_path(root, path);
}

/// A label whose name has `Loading` in it, at any depth, is logged out, whatever view was
/// recognised.
pub proof fn loading_is_logged_out(
    root: A11yNode,
    path: Seq<int>,
    label: A11yNode,
    before: Seq<char>,
    behind: Seq<char>,
    identified: IdentifiedStates,
    found: bool,
    status: &'static str,
)
    requires
        node_at(root, path) == Some(label),
        label.role@ == "label"@,
        label.name@ == before + "Loading"@ + behind,
        call_ensures(has_explicit_login_ui, (&root,), found),
        call_ensures(observed_auth_status, (&root, &identified), status),
    ensures
        found,
        status@ == "logged_out"@,
{
    contained_text_is_in_between(label.name@, "Loading"@);
    sign_on_a_path(root, path);
}

/// A label whose name has `Scan to log in` in it, at any depth, is logged out, whatever view was
/// recognised.
pub proof fn scan_prompt_is_logged_out(
    root: A11yNode,
    path: Seq<int>,
    label: A11yNode,
    before: Seq<char>,
    behind: Seq<char>,
    identified: IdentifiedStates,
    found: bool,
    status: &'static str,
)
    requires
        node_at(root, path) == Some(label),
        label.role@ == "label"@,
        label.name@ == before + "Scan to log in"@ + behind,
        call_ensures(has_explicit_login_ui, (&root,), found),
        call_ensures(observed_auth_status, (&root, &identified), status),
    ensures
        found,
        status@ == "logged_out"@,
{
    contained_text_is_in_between(label.name@, "Scan to log in"@);
    sign_on_a_path(root, path);
}

/// A button named `Switch Account`, at any depth, is logged out, whatever view was recognised.
pub proof fn switch_account_is_logged_out(
    root: A11yNode,
    path: Seq<int>,
    button: A11yNode,
    identified: IdentifiedStates,
    found: bool,
    status: &'static str,
)
    requires
        node_at(root, path) == Some(button),
        button.role@ == "push-button"@,
        button.name@ == "Switch Account"@,
        call_ensures(has_explicit_login_ui, (&root,), found),
        call_ensures(observed_auth_status, (&root, &identified), status),
    ensures
        found,
        status@ == "logged_out"@,
{
    sign_on_a_path(root, path);
}

/// A label whose name reads `Comfirm on phone` or `手机确认` somewhere, in any ASCII case and at
/// any depth, is logged out, whatever view was recognised.
pub proof fn phone_prompt_is_logged_out(
    root: A11yNode,
    path: Seq<int>,
    label: A11yNode,
    at: int,
    identified: IdentifiedStates,
    found: bool,
    status: &'static str,
)
    requires
        node_at(root, path) == Some(label),
        label.role@ == "label"@,
        reads_at(label.name@, "Comfirm on phone"@, at) || reads_at(label.name@, "手机确认"@, at),
        call_ensures(has_explicit_login_ui, (&root,), found),
        call_ensures(observed_auth_status, (&root, &identified), status),
    ensures
        found,
        status@ == "logged_out"@,
{
    one_part_is_read(label.name@, "Comfirm on phone"@);
    one_part_is_read(label.name@, "手机确认"@);
    sign_on_a_path(root, path);
}

/// A label whose name reads `Confirm` and behind it on the same line `phone`, in any ASCII case
/// and at any depth, is logged out, whatever view was recognised.
pub proof fn confirm_prompt_is_logged_out(
    root: A11yNode,
    path: Seq<int>,
    label: A11yNode,
    at: int,
    then: int,
    identified: IdentifiedStates,
    found: bool,
    status: &'static str,
)
    requires
        node_at(root, path) == Some(label),
        label.role@ == "label"@,
        reads_at(label.name@, "Confirm"@, at),
        reads_at(label.name@, "phone"@, then),
        at + "Confirm"@.len() <= then,
        forall|k: int| at + "Confirm"@.len() <= k < then ==> #[trigger] label.name@[k] != '\n',
        call_ensures(has_explicit_login_ui, (&root,), found),
        call_ensures(observed_auth_status, (&root, &identified), status),
    ensures
        found,
        status@ == "logged_out"@,
{
    two_parts_are_read(label.name@, "Confirm"@, "phone"@);
    sign_on_a_path(root, path);
}

/// A login view is seen only where some path leads to one of its labels or its button.
pub proof fn login_ui_has_a_sign(root: A11yNode, found: bool)
    requires
        call_ensures(has_explicit_login_ui, (&root,), found),
        found,
    ensures
        exists|path: Seq<int>|
            (#[trigger] node_at(root, path)) matches Some(node) && {
                ||| node.role@ == "push-button"@ && node.name@ == "Switch Account"@
                ||| node.role@ == "label"@ && {
                    ||| node.name@ == "Entering"@
                    ||| exists|before: Seq<char>, behind: Seq<char>|
                        node.name@ == #[trigger] (before + "Loading"@ + behind)
                    ||| exists|before: Seq<char>, behind: Seq<char>|
                        node.name@ == #[trigger] (before + "Scan to log in"@ + behind)
                    ||| exists|at: int| reads_at(node.name@, "Comfirm on phone"@, at)
                    ||| exists|at: int| reads_at(node.name@, "手机确认"@, at)
                    ||| exists|at: int, then: int|
                        {
                            &&& #[trigger] reads_at(node.name@, "Confirm"@, at)
                            &&& #[trigger] reads_at(node.name@, "phone"@, then)
                            &&& at + "Confirm"@.len() <= then
                            &&& forall|k: int|
                                at + "Confirm"@.len() <= k < then ==> #[trigger] node.name@[k]
                                    != '\n'
                        }
                }
            },
{
    let sign = |node: A11yNode| is_login_sign(node);
    assert(some_node(root, sign));
    let path = choose|path: Seq<int>| holds_at(root, path, sign);
    let name = node_at(root, path)->0.name@;
    contained_text_is_in_between(name, "Loading"@);
    contained_text_is_in_between(name, "Scan to log in"@);
    one_part_is_read(name, "Comfirm on phone"@);
    one_part_is_read(name, "手机确认"@);
    two_parts_are_read(name, "Confirm"@, "phone"@);
}

/// A button below a bar named `Navigation` is one that some path leads to through such a bar.
proof fn nested_button(root: A11yNode, inner: spec_fn(A11yNode) -> bool)
    ensures
        some_node_below(root, |node: A11yNode| is_navigation_bar(node), inner) <==> exists|
            path: Seq<int>,
            depth: int,
        |
            {
                &&& 0 <= depth < path.len()
                &&& (#[trigger] node_at(root, path.take(depth))) matches Some(bar) && bar.role@
                    == "tool-bar"@ && bar.name@ == "Navigation"@
                &&& (#[trigger] node_at(root, path)) matches Some(node) && inner(node)
            },
{
    let outer = |node: A11yNode| is_navigation_bar(node);
    if some_node_below(root, outer, inner) {
        let (path, depth) = choose|path: Seq<int>, depth: int|
            {
                &&& 0 <= depth < path.len()
                &&& #[trigger] holds_at(root, path.take(depth), outer)
                &&& #[trigger] holds_at(root, path, inner)
            };
        assert(node_at(root, path.take(depth)) is Some && node_at(root, path) is Some);
    }
    if exists|path: Seq<int>, depth: int|
        {
            &&& 0 <= depth < path.len()
            &&& (#[trigger] node_at(root, path.take(depth))) matches Some(bar) && bar.role@
                == "tool-bar"@ && bar.name@ == "Navigation"@
            &&& (#[trigger] node_at(root, path)) matches Some(node) && inner(node)
        } {
        let (path, depth) = choose|path: Seq<int>, depth: int|
            {
                &&& 0 <= depth < path.len()
                &&& (#[trigger] node_at(root, path.take(depth))) matches Some(bar) && bar.role@
                    == "tool-bar"@ && bar.name@ == "Navigation"@
                &&& (#[trigger] node_at(root, path)) matches Some(node) && inner(node)
            };
        assert(holds_at(root, path.take(depth), outer) && holds_at(root, path, inner));
    }
}

/// The navigation is complete exactly where paths through bars named `Navigation` lead to a button
/// named `Weixin` or `WeChat`, to one named `Contacts` and to one named `More`.
pub proof fn shell_has_the_three_buttons(root: A11yNode, found: bool)
    requires
        call_ensures(has_logged_in_navigation_shell, (&root,), found),
    ensures
        found <==> {
            &&& exists|path: Seq<int>, depth: int|
                {
                    &&& 0 <= depth < path.len()
                    &&& (#[trigger] node_at(root, path.take(depth))) matches Some(bar) && bar.role@
                        == "tool-bar"@ && bar.name@ == "Navigation"@
                    &&& (#[trigger] node_at(root, path)) matches Some(node) && node.role@
                        == "push-button"@ && (node.name@ == "Weixin"@ || node.name@ == "WeChat"@)
                }
            &&& exists|path: Seq<int>, depth: int|
                {
                    &&& 0 <= depth < path.len()
                    &&& (#[trigger] node_at(root, path.take(depth))) matches Some(bar) && bar.role@
                        == "tool-bar"@ && bar.name@ == "Navigation"@
                    &&& (#[trigger] node_at(root, path)) matches Some(node) && node.role@
                        == "push-button"@ && node.name@ == "Contacts"@
                }
            &&& exists|path: Seq<int>, depth: int|
                {
                    &&& 0 <= depth < path.len()
                    &&& (#[trigger] node_at(root, path.take(depth))) matches Some(bar) && bar.role@
                        == "tool-bar"@ && bar.name@ == "Navigation"@
                    &&& (#[trigger] node_at(root, path)) matches Some(node) && node.role@
                        == "push-button"@ && node.name@ == "More"@
                }
        },
{
    let outer = |node: A11yNode| is_navigation_bar(node);
    let messages = |node: A11yNode| is_messages_button(node);
    let contacts = |node: A11yNode| is_contacts_button(node);
    let more = |node: A11yNode| is_more_button(node);
    nested_button(root, messages);
    nested_button(root, contacts);
    nested_button(root, more);
    if some_node_below(root, outer, more) {
        crate::tree::nested_node_is_a_node(root, outer, more);
    }
}

/// How the parts of an observation come together. A login view is logged out. Otherwise a chat
/// view is logged in and a view of the login is logged out, whatever the navigation. Any other
/// view counts as none: then the complete navigation is logged in, and all else is unknown.
pub proof fn observation_is_weighed(
    root: A11yNode,
    identified: IdentifiedStates,
    login_ui: bool,
    shell: bool,
    status: &'static str,
)
    requires
        call_ensures(has_explicit_login_ui, (&root,), login_ui),
        call_ensures(has_logged_in_navigation_shell, (&root,), shell),
        call_ensures(observed_auth_status, (&root, &identified), status),
    ensures
        login_ui ==> status@ == "logged_out"@,
        !login_ui && (identified.main_window matches Some(window) && (window.state_id@ == "chat"@
            || window.state_id@ == "chat_open"@)) ==> status@ == "logged_in"@,
        !login_ui && (identified.main_window matches Some(window) && (window.state_id@
            == "login_qr"@ || window.state_id@ == "login_account"@ || window.state_id@
            == "login_phone_confirm"@ || window.state_id@ == "login_loading"@)) ==> status@
            == "logged_out"@,
        !login_ui && !(identified.main_window matches Some(window) && (window.state_id@ == "chat"@
            || window.state_id@ == "chat_open"@ || window.state_id@ == "login_qr"@
            || window.state_id@ == "login_account"@ || window.state_id@ == "login_phone_confirm"@
            || window.state_id@ == "login_loading"@)) ==> status@ == (if shell {
            "logged_in"@
        } else {
            "unknown"@
        }),
{
    if identified.main_window is Some {
        crate::observed::chat_is_no_login(identified.main_window->0.state_id@);
    }
}

} // verus!

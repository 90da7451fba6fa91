use agent_status::observed::{
    has_explicit_login_ui, has_logged_in_navigation_shell, observed_auth_status, IdentifiedState,
    IdentifiedStates,
};
use agent_status::tree::A11yNode;

fn node(role: &str, name: &str, children: Vec<A11yNode>) -> A11yNode {
    A11yNode {
        role: role.to_string(),
        name: name.to_string(),
        children: if children.is_empty() { None } else { Some(children) },
    }
}

fn logged_in_page(list_name: &str) -> A11yNode {
    node(
        "desktop-frame",
        "main",
        vec![node(
            "frame",
            "WeChat",
            vec![
                node(
                    "tool-bar",
                    "Navigation",
                    vec![
                        node("push-button", "Weixin", vec![]),
                        node("push-button", "Contacts", vec![]),
                        node("push-button", "More", vec![]),
                    ],
                ),
                node("list", list_name, vec![]),
            ],
        )],
    )
}

fn identified(state_id: Option<&str>) -> IdentifiedStates {
    IdentifiedStates {
        main_window: state_id.map(|id| IdentifiedState { state_id: id.to_string() }),
    }
}

fn label(name: &str) -> A11yNode {
    node("desktop-frame", "main", vec![node("label", name, vec![])])
}

#[test]
fn service_accounts_page_is_logged_in_without_becoming_a_chat_state() {
    let a11y = logged_in_page("Service Accounts");
    let identified = identified(None);
    assert!(identified.main_window.is_none());
    assert_eq!(observed_auth_status(&a11y, &identified), "logged_in");
}

#[test]
fn explicit_login_loading_overrides_navigation_shell() {
    let mut a11y = logged_in_page("Service Accounts");
    a11y.children.as_mut().unwrap()[0]
        .children
        .as_mut()
        .unwrap()
        .push(node("label", "Entering", vec![]));
    let identified = identified(Some("login_loading"));
    assert_eq!(
        identified.main_window.as_ref().map(|s| s.state_id.as_str()),
        Some("login_loading")
    );
    assert_eq!(observed_auth_status(&a11y, &identified), "logged_out");
}

#[test]
fn partial_navigation_is_unknown() {
    let a11y = node(
        "desktop-frame",
        "main",
        vec![node(
            "tool-bar",
            "Navigation",
            vec![
                node("push-button", "Weixin", vec![]),
                node("push-button", "Contacts", vec![]),
            ],
        )],
    );
    let identified = identified(None);
    assert_eq!(observed_auth_status(&a11y, &identified), "unknown");
}

#[test]
fn qr_login_elements_are_logged_out_even_without_qr_decode() {
    let a11y = node(
        "desktop-frame",
        "main",
        vec![node(
            "frame",
            "WeChat",
            vec![
                node("label", "Scan to log in", vec![]),
                node("push-button", "Transfer files only", vec![]),
            ],
        )],
    );
    let identified = identified(None);
    assert!(identified.main_window.is_none());
    assert_eq!(observed_auth_status(&a11y, &identified), "logged_out");
}

#[test]
fn login_signs_override_a_chat_view() {
    let mut a11y = logged_in_page("Chats");
    assert_eq!(observed_auth_status(&a11y, &identified(Some("chat"))), "logged_in");
    a11y.children
        .as_mut()
        .unwrap()
        .push(node("push-button", "Switch Account", vec![]));
    assert_eq!(observed_auth_status(&a11y, &identified(Some("chat"))), "logged_out");
}

#[test]
fn recognised_views_decide_without_navigation() {
    let bare = node("desktop-frame", "main", vec![]);
    for id in ["chat", "chat_open"] {
        assert_eq!(observed_auth_status(&bare, &identified(Some(id))), "logged_in");
    }
    for id in ["login_qr", "login_account", "login_phone_confirm", "login_loading"] {
        assert_eq!(observed_auth_status(&bare, &identified(Some(id))), "logged_out");
    }
    assert_eq!(observed_auth_status(&bare, &identified(Some("contacts"))), "unknown");
    assert_eq!(observed_auth_status(&bare, &identified(None)), "unknown");
}

#[test]
fn login_views_override_the_navigation_and_others_do_not() {
    let a11y = logged_in_page("Service Accounts");
    assert_eq!(observed_auth_status(&a11y, &identified(Some("login_qr"))), "logged_out");
    assert_eq!(observed_auth_status(&a11y, &identified(Some("contacts"))), "logged_in");
}

#[test]
fn shell_takes_either_name_and_any_depth() {
    let a11y = node(
        "tool-bar",
        "Navigation",
        vec![node(
            "panel",
            "",
            vec![
                node("push-button", "WeChat", vec![]),
                node("push-button", "Contacts", vec![]),
                node("filler", "", vec![node("push-button", "More", vec![])]),
            ],
        )],
    );
    assert!(has_logged_in_navigation_shell(&a11y));
}

#[test]
fn shell_may_be_spread_over_two_bars() {
    let a11y = node(
        "frame",
        "",
        vec![
            node("tool-bar", "Navigation", vec![node("push-button", "WeChat", vec![])]),
            node(
                "tool-bar",
                "Navigation",
                vec![
                    node("push-button", "Contacts", vec![]),
                    node("push-button", "More", vec![]),
                ],
            ),
        ],
    );
    assert!(has_logged_in_navigation_shell(&a11y));
}

#[test]
fn buttons_beside_the_bar_are_no_shell() {
    let a11y = node(
        "frame",
        "",
        vec![
            node("tool-bar", "Navigation", vec![]),
            node("push-button", "Weixin", vec![]),
            node("push-button", "Contacts", vec![]),
            node("push-button", "More", vec![]),
        ],
    );
    assert!(!has_logged_in_navigation_shell(&a11y));
}

#[test]
fn shell_names_are_exact() {
    let a11y = node(
        "tool-bar",
        "Navigation",
        vec![
            node("push-button", "Weixin 2", vec![]),
            node("push-button", "Contacts", vec![]),
            node("push-button", "More", vec![]),
        ],
    );
    assert!(!has_logged_in_navigation_shell(&a11y));
}

#[test]
fn labels_of_a_login_view() {
    assert!(has_explicit_login_ui(&label("Entering")));
    assert!(!has_explicit_login_ui(&label("Entering WeChat")));
    assert!(has_explicit_login_ui(&label("Loading data...")));
    assert!(has_explicit_login_ui(&label("Please Scan to log in to WeChat")));
    assert!(!has_explicit_login_ui(&label("scan to log in")));
    assert!(!has_explicit_login_ui(&node("text", "Entering", vec![])));
    assert!(!has_explicit_login_ui(&node("label", "Switch Account", vec![])));
    assert!(has_explicit_login_ui(&node("push-button", "Switch Account", vec![])));
}

#[test]
fn labels_that_ask_for_the_phone() {
    assert!(has_explicit_login_ui(&label("Comfirm on phone")));
    assert!(has_explicit_login_ui(&label("please COMFIRM ON PHONE now")));
    assert!(has_explicit_login_ui(&label("Confirm on your phone")));
    assert!(has_explicit_login_ui(&label("confirmphone")));
    assert!(has_explicit_login_ui(&label("请在手机确认登录")));
    assert!(!has_explicit_login_ui(&label("phone, then Confirm")));
    assert!(!has_explicit_login_ui(&label("Confirm on\nyour phone")));
    assert!(has_explicit_login_ui(&label("Confirm\nConfirm on your phone")));
    assert!(!has_explicit_login_ui(&label("Confirm")));
    assert!(!has_explicit_login_ui(&label("")));
}

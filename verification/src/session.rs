//! The signed-in session and navigation: which tab opens, which page a tab
//! shows, which sections a role may open, and the sign-in form's states.

use vstd::prelude::*;
use crate::model::{AuthResponseDto, UserPublicDto, UserRole};
use crate::text::{decimal_text, decimal_text_2, push_decimal, push_str, str_eq};

verus! {

/// The browser-storage key of the session token.
pub const TOKEN_STORAGE_KEY: &'static str = "secnet_jwt_token";

/// The browser-storage key of the signed-in user's profile.
pub const USER_STORAGE_KEY: &'static str = "secnet_user_info";

/// Whether a session token is stored.
pub fn is_authenticated(token: &Option<String>) -> (r: bool)
    ensures
        r == token is Some,
{
    token.is_some()
}

/// The tab the console lands on: the dashboard for a signed-in user, the
/// sign-in form otherwise. The brand button leads to the same tab.
pub open spec fn landing(signed_in: bool) -> Seq<char> {
    if signed_in {
        "dashboard"@
    } else {
        "login"@
    }
}

/// The tab to open for a visitor who is or is not signed in.
pub fn landing_tab(signed_in: bool) -> (r: &'static str)
    ensures
        r@ == landing(signed_in),
{
    if signed_in {
        "dashboard"
    } else {
        "login"
    }
}

/// The tab shown after signing out.
pub fn tab_after_logout() -> (r: &'static str)
    ensures
        r@ == "login"@,
{
    "login"
}

/// The tab shown after signing in or registering.
pub fn tab_after_sign_in() -> (r: &'static str)
    ensures
        r@ == "dashboard"@,
{
    "dashboard"
}

/// The console's pages.
#[derive(Clone, Copy, Debug, PartialEq, Eq, Structural)]
pub enum Page {
    Login,
    Dashboard,
    Alerts,
    Traffic,
    Rules,
    Devices,
    Blocklist,
    Settings,
}

/// The page a tab shows; an unknown tab shows the dashboard.
pub open spec fn page_of(tab: Seq<char>) -> Page {
    if tab == "login"@ {
        Page::Login
    } else if tab == "dashboard"@ {
        Page::Dashboard
    } else if tab == "alerts"@ {
        Page::Alerts
    } else if tab == "traffic"@ {
        Page::Traffic
    } else if tab == "rules"@ {
        Page::Rules
    } else if tab == "devices"@ {
        Page::Devices
    } else if tab == "blocklist"@ {
        Page::Blocklist
    } else if tab == "settings"@ {
        Page::Settings
    } else {
        Page::Dashboard
    }
}

/// The page to render for the active tab.
pub fn page_for_tab(tab: &str) -> (r: Page)
    ensures
        r == page_of(tab@),
{
    if str_eq(tab, "login") {
        Page::Login
    } else if str_eq(tab, "dashboard") {
        Page::Dashboard
    } else if str_eq(tab, "alerts") {
        Page::Alerts
    } else if str_eq(tab, "traffic") {
        Page::Traffic
    } else if str_eq(tab, "rules") {
        Page::Rules
    } else if str_eq(tab, "devices") {
        Page::Devices
    } else if str_eq(tab, "blocklist") {
        Page::Blocklist
    } else if str_eq(tab, "settings") {
        Page::Settings
    } else {
        Page::Dashboard
    }
}

/// Whether the side navigation is shown: on every tab but the sign-in form.
pub fn shows_sidebar(tab: &str) -> (r: bool)
    ensures
        r == (tab@ != "login"@),
{
    !str_eq(tab, "login")
}

/// The icons of the side navigation.
#[derive(Clone, Copy, Debug, PartialEq, Eq, Structural)]
pub enum NavIcon {
    Overview,
    Alerts,
    Traffic,
    Rules,
    Devices,
    Blocklist,
    Settings,
}

/// An entry of the side navigation: the tab it opens, its icon and label.
#[derive(Clone, Copy, Debug)]
pub struct NavItem {
    pub tab: &'static str,
    pub icon: NavIcon,
    pub label: &'static str,
}

/// An entry as plain values.
pub open spec fn nav_view(i: NavItem) -> (Seq<char>, NavIcon, Seq<char>) {
    (i.tab@, i.icon, i.label@)
}

/// The entries everyone sees.
pub open spec fn base_nav() -> Seq<(Seq<char>, NavIcon, Seq<char>)> {
    seq![
        ("dashboard"@, NavIcon::Overview, "Overview"@),
        ("alerts"@, NavIcon::Alerts, "Incidents"@),
        ("traffic"@, NavIcon::Traffic, "Traffic feed"@),
        ("rules"@, NavIcon::Rules, "Detection rules"@),
        ("devices"@, NavIcon::Devices, "Devices"@),
    ]
}

/// The blocklist entry, for analysts and administrators.
pub open spec fn blocklist_nav() -> (Seq<char>, NavIcon, Seq<char>) {
    ("blocklist"@, NavIcon::Blocklist, "Blocklist"@)
}

/// The alert-channel settings entry, for administrators.
pub open spec fn settings_nav() -> (Seq<char>, NavIcon, Seq<char>) {
    ("settings"@, NavIcon::Settings, "Alert channels"@)
}

/// The side navigation of a role.
pub open spec fn nav_for(role: UserRole) -> Seq<(Seq<char>, NavIcon, Seq<char>)> {
    match role {
        UserRole::Viewer => base_nav(),
        UserRole::Analyst => base_nav().push(blocklist_nav()),
        UserRole::Admin => base_nav().push(blocklist_nav()).push(settings_nav()),
    }
}

/// The role that decides the navigation: the signed-in user's, a viewer's
/// when nobody is signed in.
pub open spec fn effective_role(user: Option<UserPublicDto>) -> UserRole {
    match user {
        Some(u) => u.role,
        None => UserRole::Viewer,
    }
}

/// The side navigation for the signed-in user (or for nobody).
pub fn nav_items(user: &Option<UserPublicDto>) -> (r: Vec<NavItem>)
    ensures
        r@.map_values(|i: NavItem| nav_view(i)) == nav_for(effective_role(*user)),
{
    let role = match user {
        Some(u) => u.role,
        None => UserRole::Viewer,
    };
    let mut items: Vec<NavItem> = vec![
        NavItem { tab: "dashboard", icon: NavIcon::Overview, label: "Overview" },
        NavItem { tab: "alerts", icon: NavIcon::Alerts, label: "Incidents" },
        NavItem { tab: "traffic", icon: NavIcon::Traffic, label: "Traffic feed" },
        NavItem { tab: "rules", icon: NavIcon::Rules, label: "Detection rules" },
        NavItem { tab: "devices", icon: NavIcon::Devices, label: "Devices" },
    ];
    if role == UserRole::Analyst || role == UserRole::Admin {
        items.push(NavItem { tab: "blocklist", icon: NavIcon::Blocklist, label: "Blocklist" });
    }
    if role == UserRole::Admin {
        items.push(NavItem { tab: "settings", icon: NavIcon::Settings, label: "Alert channels" });
    }
    assert(items@.map_values(|i: NavItem| nav_view(i)) =~= nav_for(role));
    items
}

/// The name of a role as the top bar shows it.
pub fn role_name(role: UserRole) -> (r: &'static str)
    ensures
        r@ == match role {
            UserRole::Admin => "Admin"@,
            UserRole::Analyst => "Analyst"@,
            UserRole::Viewer => "Viewer"@,
        },
{
    match role {
        UserRole::Admin => "Admin",
        UserRole::Analyst => "Analyst",
        UserRole::Viewer => "Viewer",
    }
}

/// The top bar's critical-incident badge: the count, at least two digits,
/// and " CRITICAL"; no badge while there are none.
pub fn critical_badge(count: usize) -> (r: Option<String>)
    ensures
        count == 0 ==> r is None,
        count > 0 ==> (r matches Some(b) && b@ == decimal_text_2(count as nat) + " CRITICAL"@),
{
    if count == 0 {
        None
    } else {
        let mut b = String::new();
        if count < 10 {
            push_str(&mut b, "0");
        }
        push_decimal(&mut b, count as u64);
        push_str(&mut b, " CRITICAL");
        proof {
            if count < 10 {
                assert(decimal_text(count as nat) =~= seq![crate::text::digit_char(count as nat)]);
                reveal_strlit("0");
            }
        }
        assert(b@ =~= decimal_text_2(count as nat) + " CRITICAL"@);
        Some(b)
    }
}

/// The live-link badge of the top bar.
pub fn link_label(connected: bool) -> (r: &'static str)
    ensures
        r@ == if connected {
            "LINK UP"@
        } else {
            "RECONNECTING"@
        },
{
    if connected {
        "LINK UP"
    } else {
        "RECONNECTING"
    }
}

/// The sign-in form: registering or signing in, waiting for the server,
/// and the error of the last attempt.
#[derive(Clone, Debug)]
pub struct LoginForm {
    pub is_register: bool,
    pub is_loading: bool,
    pub error: Option<String>,
}

impl LoginForm {
    /// A fresh form: signing in, idle, no error.
    pub fn new() -> (r: LoginForm)
        ensures
            !r.is_register,
            !r.is_loading,
            r.error is None,
    {
        LoginForm { is_register: false, is_loading: false, error: None }
    }

    /// Switches between signing in and registering, clearing the error.
    pub fn toggle_mode(&mut self)
        ensures
            final(self).is_register == !old(self).is_register,
            final(self).is_loading == old(self).is_loading,
            final(self).error is None,
    {
        self.is_register = !self.is_register;
        self.error = None;
    }

    /// A submission starts: the error is cleared and the form waits.
    pub fn begin_submit(&mut self)
        ensures
            final(self).is_register == old(self).is_register,
            final(self).is_loading,
            final(self).error is None,
    {
        self.error = None;
        self.is_loading = true;
    }

    /// The server answered: the form stops waiting; a granted session gives
    /// the user to sign in, a refusal becomes the form's error.
    pub fn finish(&mut self, outcome: Result<AuthResponseDto, String>) -> (r: Option<UserPublicDto>)
        ensures
            final(self).is_register == old(self).is_register,
            !final(self).is_loading,
            outcome matches Ok(a) ==> r == Some(a.user) && final(self).error == old(self).error,
            outcome matches Err(e) ==> r is None && final(self).error == Some(e),
    {
        self.is_loading = false;
        match outcome {
            Ok(a) => Some(a.user),
            Err(e) => {
                self.error = Some(e);
                None
            },
        }
    }

    /// The form's heading.
    pub fn heading(&self) -> (r: &'static str)
        ensures
            r@ == if self.is_register {
                "Create SecNet account"@
            } else {
                "SecNet security portal"@
            },
    {
        if self.is_register {
            "Create SecNet account"
        } else {
            "SecNet security portal"
        }
    }

    /// The submit button's text.
    pub fn submit_label(&self) -> (r: &'static str)
        ensures
            r@ == if self.is_loading {
                "Authenticating…"@
            } else if self.is_register {
                "Create account"@
            } else {
                "Sign in to dashboard"@
            },
    {
        if self.is_loading {
            "Authenticating…"
        } else if self.is_register {
            "Create account"
        } else {
            "Sign in to dashboard"
        }
    }

    /// The text of the link that switches modes.
    pub fn switch_label(&self) -> (r: &'static str)
        ensures
            r@ == if self.is_register {
                "Already have an account? Sign in"@
            } else {
                "Need an account? Register new user"@
            },
    {
        if self.is_register {
            "Already have an account? Sign in"
        } else {
            "Need an account? Register new user"
        }
    }
}

} // verus!

use vstd::prelude::*;

verus! {

/// Routes of the settings section of the panel.
pub struct Settings {
    pub home: &'static str,
    pub delete_account: &'static str,
    pub update_secret: &'static str,
}

impl Settings {
    /// The settings routes.
    pub fn new() -> (s: Self)
        ensures
            s.home@ == "/settings"@,
            s.delete_account@ == "/settings/account/delete"@,
            s.update_secret@ == "/settings/secret/update"@,
    {
        Settings {
            home: "/settings",
            delete_account: "/settings/account/delete",
            update_secret: "/settings/secret/update",
        }
    }

    /// Routes of this section that belong in the sitemap: the home page only.
    pub fn get_sitemap() -> (m: [&'static str; 1])
        ensures
            m[0]@ == "/settings"@,
    {
        let s = Settings::new();
        [s.home]
    }
}

} // verus!

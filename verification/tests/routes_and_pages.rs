use mcaptcha::models::{Captcha, CaptchaStats, Level, Secret};
use mcaptcha::pages::settings::IndexPage as SettingsPage;
use mcaptcha::pages::sitekey::IndexPage as SitekeyPage;
use mcaptcha::Settings;

#[test]
fn settings_routes() {
    let s = Settings::new();
    assert_eq!(s.home, "/settings");
    assert_eq!(s.delete_account, "/settings/account/delete");
    assert_eq!(s.update_secret, "/settings/secret/update");
}

#[test]
fn settings_sitemap_is_home() {
    assert_eq!(Settings::get_sitemap(), ["/settings"]);
    assert_eq!(Settings::get_sitemap()[0], Settings::new().home);
}

#[test]
fn settings_page_takes_secret_and_email() {
    let page = SettingsPage::new(
        Some("user@example.com".to_string()),
        Secret { secret: "s3cr3t".to_string() },
        "user",
    );
    assert_eq!(page.email.as_deref(), Some("user@example.com"));
    assert_eq!(page.secret, "s3cr3t");
    assert_eq!(page.username, "user");
    let page = SettingsPage::new(None, Secret { secret: "x".to_string() }, "other");
    assert_eq!(page.email, None);
}

fn stats() -> CaptchaStats {
    CaptchaStats { config_fetches: vec![1, 2], solves: vec![3], confirms: vec![] }
}

#[test]
fn sitekey_page_from_config() {
    let config = Captcha {
        config_id: 7,
        duration: 30,
        description: "my site".to_string(),
        key: "abc".to_string(),
    };
    let levels = vec![
        Level { visitor_threshold: 50, difficulty_factor: 500 },
        Level { visitor_threshold: 500, difficulty_factor: 5000 },
    ];
    let page = SitekeyPage::new(stats(), config, levels.clone(), "abc".to_string(), true);
    assert_eq!(page.duration, 30);
    assert_eq!(page.name, "my site");
    assert_eq!(page.key, "abc");
    assert_eq!(page.levels, levels);
    assert_eq!(page.stats, stats());
    assert!(page.publish_benchmarks);
}

#[test]
fn sitekey_page_negative_duration_wraps() {
    let config = Captcha { config_id: 1, duration: -1, description: String::new(), key: String::new() };
    let page = SitekeyPage::new(stats(), config, vec![], String::new(), false);
    assert_eq!(page.duration, u32::MAX);
}

#[test]
fn created_duration_shows_on_page() {
    let duration: u32 = 3_000_000_000;
    let stored = mcaptcha::db::duration_param(duration);
    assert_eq!(stored, -1_294_967_296);
    let config = Captcha { config_id: 1, duration: stored, description: "d".into(), key: "k".into() };
    let page = SitekeyPage::new(stats(), config, vec![], "k".into(), false);
    assert_eq!(page.duration, duration);
}

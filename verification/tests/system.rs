use mcaptcha::system::{captcha_runners, new_psuedo_id, plan_system, CaptchaBackend};

#[test]
fn configured_runners_are_kept() {
    assert_eq!(captcha_runners(Some(3)), 3);
    assert_eq!(captcha_runners(Some(0)), 0);
}

#[test]
fn default_runners_are_physical_cores() {
    let n = captcha_runners(None);
    assert!(n >= 1);
    assert_eq!(n, num_cpus::get_physical());
}

#[test]
fn psuedo_ids_are_v4_uuids() {
    let a = new_psuedo_id();
    let b = new_psuedo_id();
    assert_ne!(a, b);
    for id in [a, b] {
        let chars: Vec<char> = id.chars().collect();
        assert_eq!(chars.len(), 36);
        for (i, c) in chars.iter().enumerate() {
            if [8, 13, 18, 23].contains(&i) {
                assert_eq!(*c, '-');
            } else {
                assert!(c.is_ascii_hexdigit() && !c.is_ascii_uppercase());
            }
        }
        assert_eq!(chars[14], '4');
        assert!(['8', '9', 'a', 'b'].contains(&chars[19]));
    }
}

#[test]
fn system_plan_follows_settings() {
    let p = plan_system(Some("redis://127.0.0.1".into()), 30, "salt".into(), Some(4), 2000);
    assert_eq!(p.backend, CaptchaBackend::Redis { url: "redis://127.0.0.1".into() });
    assert_eq!(p.salt, "salt");
    assert_eq!(p.runners, 4);
    assert_eq!(p.queue_length, 2000);
    let p = plan_system(None, 30, "salt".into(), None, 10);
    assert_eq!(p.backend, CaptchaBackend::Embedded { gc: 30 });
    assert_eq!(p.runners, num_cpus::get_physical());
}

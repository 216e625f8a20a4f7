use mcaptcha::db::{
    analytics_from_rows, analytics_params, captchas_from_rows, duration_param,
    easy_captchas_from_rows, entry_from_lookup, entry_offset, level_params, levels_from_rows,
    log_count, login_lookup, nonce_update_params, notifications_from_rows, page_params,
    psuedo_id_page_params, register_query, traffic_params, AnalyticsInsert, AnalyticsRow,
    I32Levels, InnerEasyCaptcha, InnerNotification, InternaleCaptchaConfig, LoginColumn, Password,
    RegisterQuery, Traffic, PSUEDO_ID_PAGE_LIMIT,
};
use mcaptcha::models::{
    Captcha, CreatePerformanceAnalytics, Level, Login, NameHash, Notification,
    PerformanceAnalytics, Register, TrafficPattern,
};
use mcaptcha::{DBError, QueryFailure};

#[test]
fn register_with_and_without_email() {
    let mut p = Register {
        username: "u".into(),
        secret: "s".into(),
        hash: "h".into(),
        email: Some("e@x".into()),
    };
    assert_eq!(
        register_query(&p),
        RegisterQuery::WithEmail {
            username: "u".into(),
            hash: "h".into(),
            email: "e@x".into(),
            secret: "s".into()
        }
    );
    p.email = None;
    assert_eq!(
        register_query(&p),
        RegisterQuery::WithoutEmail { username: "u".into(), hash: "h".into(), secret: "s".into() }
    );
}

#[test]
fn login_looks_up_by_the_given_column() {
    assert_eq!(login_lookup(&Login::Username("bob".into())), (LoginColumn::Name, "bob".to_string()));
    assert_eq!(login_lookup(&Login::Email("b@x".into())), (LoginColumn::Email, "b@x".to_string()));
}

#[test]
fn password_row_to_name_hash() {
    let nh: NameHash = Password { name: "bob".into(), password: "hash".into() }.into();
    assert_eq!(nh, NameHash { username: "bob".into(), hash: "hash".into() });
}

#[test]
fn captcha_rows_to_captchas() {
    let rows = vec![
        InternaleCaptchaConfig { config_id: 1, duration: 30, name: "a".into(), captcha_key: "k1".into() },
        InternaleCaptchaConfig { config_id: 2, duration: 60, name: "b".into(), captcha_key: "k2".into() },
    ];
    let got = captchas_from_rows(&rows);
    assert_eq!(
        got,
        vec![
            Captcha { config_id: 1, duration: 30, description: "a".into(), key: "k1".into() },
            Captcha { config_id: 2, duration: 60, description: "b".into(), key: "k2".into() },
        ]
    );
    let one: Captcha = rows[1].clone().into();
    assert_eq!(one, got[1]);
    assert!(captchas_from_rows(&vec![]).is_empty());
}

#[test]
fn duration_param_casts() {
    assert_eq!(duration_param(30), 30);
    assert_eq!(duration_param(u32::MAX), -1);
}

#[test]
fn levels_round_trip() {
    let levels = vec![
        Level { visitor_threshold: 50, difficulty_factor: 500 },
        Level { visitor_threshold: 500, difficulty_factor: 5000 },
        Level { visitor_threshold: u32::MAX, difficulty_factor: 3_000_000_000 },
    ];
    let params = level_params(&levels);
    assert_eq!(params[0], I32Levels { difficulty_factor: 500, visitor_threshold: 50 });
    assert_eq!(params[2], I32Levels { difficulty_factor: -1_294_967_296, visitor_threshold: -1 });
    assert_eq!(levels_from_rows(&params), levels);
}

#[test]
fn level_rows_keep_order() {
    let rows = vec![
        I32Levels { difficulty_factor: 10, visitor_threshold: 1 },
        I32Levels { difficulty_factor: 20, visitor_threshold: 2 },
    ];
    assert_eq!(
        levels_from_rows(&rows),
        vec![
            Level { visitor_threshold: 1, difficulty_factor: 10 },
            Level { visitor_threshold: 2, difficulty_factor: 20 },
        ]
    );
}

#[test]
fn traffic_round_trip() {
    for p in [
        TrafficPattern { avg_traffic: 100, peak_sustainable_traffic: 1000, broke_my_site_traffic: Some(2000) },
        TrafficPattern { avg_traffic: u32::MAX, peak_sustainable_traffic: 0, broke_my_site_traffic: None },
    ] {
        let row = traffic_params(&p);
        let back: TrafficPattern = row.into();
        assert_eq!(back, p);
    }
    assert_eq!(
        traffic_params(&TrafficPattern {
            avg_traffic: 1,
            peak_sustainable_traffic: 2,
            broke_my_site_traffic: Some(3)
        }),
        Traffic { peak_sustainable_traffic: 2, avg_traffic: 1, broke_my_site_traffic: Some(3) }
    );
}

#[test]
fn easy_captcha_rows() {
    let rows = vec![InnerEasyCaptcha {
        captcha_key: "k".into(),
        name: "n".into(),
        username: "u".into(),
        peak_sustainable_traffic: 20,
        avg_traffic: 10,
        broke_my_site_traffic: None,
    }];
    let got = easy_captchas_from_rows(&rows);
    assert_eq!(got.len(), 1);
    assert_eq!(got[0].key, "k");
    assert_eq!(got[0].description, "n");
    assert_eq!(got[0].username, "u");
    assert_eq!(
        got[0].traffic_pattern,
        TrafficPattern { avg_traffic: 10, peak_sustainable_traffic: 20, broke_my_site_traffic: None }
    );
}

#[test]
fn notification_rows() {
    let row = InnerNotification {
        name: "from".into(),
        heading: "h".into(),
        message: "m".into(),
        received: 1_700_000_000,
        id: 3,
    };
    let expected = Notification {
        name: Some("from".into()),
        heading: Some("h".into()),
        message: Some("m".into()),
        received: Some(1_700_000_000),
        id: Some(3),
    };
    assert_eq!(notifications_from_rows(&vec![row.clone()]), vec![expected.clone()]);
    let n: Notification = row.into();
    assert_eq!(n, expected);
}

#[test]
fn analytics_round_trip() {
    let d = CreatePerformanceAnalytics { time: 100, difficulty_factor: 500, worker_type: "wasm".into() };
    let ins = analytics_params(&d);
    assert_eq!(ins, AnalyticsInsert { time: 100, difficulty_factor: 500, worker_type: "wasm".into() });
    let rows = vec![AnalyticsRow {
        id: 9,
        time: ins.time,
        difficulty_factor: ins.difficulty_factor,
        worker_type: ins.worker_type.clone(),
    }];
    let back = analytics_from_rows(&rows);
    assert_eq!(
        back,
        vec![PerformanceAnalytics { id: 9, time: 100, difficulty_factor: 500, worker_type: "wasm".into() }]
    );
    let one: PerformanceAnalytics = rows[0].clone().into();
    assert_eq!(one, back[0]);
}

#[test]
fn paging() {
    assert_eq!(page_params(50, 0), (50, 0));
    assert_eq!(page_params(10, 30), (10, 30));
    assert_eq!(PSUEDO_ID_PAGE_LIMIT, 50);
    assert_eq!(psuedo_id_page_params(0), (50, 0));
    assert_eq!(psuedo_id_page_params(3), (50, 150));
    let (limit, first) = psuedo_id_page_params(4);
    let (_, next) = psuedo_id_page_params(5);
    assert_eq!(next, first + limit);
}

#[test]
fn nonce_update_binds_nonce_and_level() {
    assert_eq!(nonce_update_params(500, 42), (42, 500));
    assert_eq!(nonce_update_params(u32::MAX, u32::MAX), (u32::MAX as i64, u32::MAX as i64));
}

#[test]
fn stats_helpers() {
    assert_eq!(log_count(Some(5)), 5);
    assert_eq!(log_count(None), 0);
    assert_eq!(entry_offset(1), 0);
    assert_eq!(entry_offset(0), -1);
    assert_eq!(entry_offset(u32::MAX), u32::MAX as i64 - 1);
    assert_eq!(entry_from_lookup(Ok(Some(700))), Ok(Some(700)));
    assert_eq!(entry_from_lookup(Err(QueryFailure::RowNotFound)), Ok(None));
    assert_eq!(
        entry_from_lookup(Err(QueryFailure::Other(DBError::DBError("boom".into())))),
        Err(DBError::DBError("boom".into()))
    );
}

//! What the MariaDB layer computes around its queries: the parameters that it
//! binds, how it turns the rows that come back into the shared data types, and
//! how it reports the outcome of a query.
use vstd::prelude::*;

use crate::errors::{map_row_not_found_err, DBError, QueryFailure};
use crate::models::{
    Captcha, CreatePerformanceAnalytics, EasyCaptcha, Level, Login, NameHash, Notification,
    PerformanceAnalytics, Register, TrafficPattern,
};

verus! {

// ---------------------------------------------------------------- users

/// The insert that registers a user: with the email column where the user
/// gave an email, without it otherwise.
#[derive(Debug, Clone, PartialEq, Eq)]
pub enum RegisterQuery {
    WithEmail { username: String, hash: String, email: String, secret: String },
    WithoutEmail { username: String, hash: String, secret: String },
}

pub open spec fn spec_register_query(p: Register) -> RegisterQuery {
    match p.email {
        Some(email) => RegisterQuery::WithEmail {
            username: p.username,
            hash: p.hash,
            email,
            secret: p.secret,
        },
        None => RegisterQuery::WithoutEmail {
            username: p.username,
            hash: p.hash,
            secret: p.secret,
        },
    }
}

/// Chooses the insert that registers `p`.
pub fn register_query(p: &Register) -> (q: RegisterQuery)
    ensures
        q == spec_register_query(*p),
        p.email is Some <==> q is WithEmail,
        q matches RegisterQuery::WithEmail { username, hash, email, secret } ==> username == p.username
            && hash == p.hash && Some(email) == p.email && secret == p.secret,
        q matches RegisterQuery::WithoutEmail { username, hash, secret } ==> username == p.username
            && hash == p.hash && secret == p.secret,
{
    match &p.email {
        Some(email) => RegisterQuery::WithEmail {
            username: p.username.clone(),
            hash: p.hash.clone(),
            email: email.clone(),
            secret: p.secret.clone(),
        },
        None => RegisterQuery::WithoutEmail {
            username: p.username.clone(),
            hash: p.hash.clone(),
            secret: p.secret.clone(),
        },
    }
}

/// The column that a login looks the user up by.
#[derive(Debug, Clone, Copy, PartialEq, Eq)]
pub enum LoginColumn {
    Name,
    Email,
}

/// The lookup that a login makes: by name for a username, by email for an
/// email, with the value given.
pub fn login_lookup(l: &Login) -> (r: (LoginColumn, String))
    ensures
        match *l {
            Login::Username(u) => r == (LoginColumn::Name, u),
            Login::Email(e) => r == (LoginColumn::Email, e),
        },
{
    match l {
        Login::Username(u) => (LoginColumn::Name, u.clone()),
        Login::Email(e) => (LoginColumn::Email, e.clone()),
    }
}

/// The row that a login lookup reads.
#[derive(Debug, Clone, PartialEq, Eq)]
pub struct Password {
    pub name: String,
    pub password: String,
}

impl From<Password> for NameHash {
    fn from(rec: Password) -> (r: NameHash)
        ensures
            r.username == rec.name,
            r.hash == rec.password,
    {
        NameHash { hash: rec.password, username: rec.name }
    }
}

impl vstd::std_specs::convert::FromSpecImpl<Password> for NameHash {
    open spec fn obeys_from_spec() -> bool {
        true
    }

    open spec fn from_spec(rec: Password) -> NameHash {
        NameHash { hash: rec.password, username: rec.name }
    }
}

// ---------------------------------------------------------------- captchas

/// A captcha's cooldown as the database stores it.
pub fn duration_param(duration: u32) -> (r: i32)
    ensures
        r == duration as i32,
{
    duration as i32
}

/// The row of a captcha configuration.
#[derive(Debug, Clone, PartialEq, Eq)]
pub struct InternaleCaptchaConfig {
    pub config_id: i32,
    pub duration: i32,
    pub name: String,
    pub captcha_key: String,
}

pub open spec fn spec_captcha_of(i: InternaleCaptchaConfig) -> Captcha {
    Captcha { config_id: i.config_id, duration: i.duration, description: i.name, key: i.captcha_key }
}

impl From<InternaleCaptchaConfig> for Captcha {
    fn from(i: InternaleCaptchaConfig) -> (r: Captcha)
        ensures
            r.config_id == i.config_id,
            r.duration == i.duration,
            r.description == i.name,
            r.key == i.captcha_key,
    {
        Captcha { config_id: i.config_id, duration: i.duration, description: i.name, key: i.captcha_key }
    }
}

impl vstd::std_specs::convert::FromSpecImpl<InternaleCaptchaConfig> for Captcha {
    open spec fn obeys_from_spec() -> bool {
        true
    }

    open spec fn from_spec(i: InternaleCaptchaConfig) -> Captcha {
        spec_captcha_of(i)
    }
}

/// All captchas of a user, in the order of their rows.
pub fn captchas_from_rows(rows: &Vec<InternaleCaptchaConfig>) -> (r: Vec<Captcha>)
    ensures
        r@ == rows@.map_values(|i: InternaleCaptchaConfig| spec_captcha_of(i)),
        r@.len() == rows@.len(),
        forall|k: int|
            0 <= k < rows@.len() ==> {
                &&& (#[trigger] r@[k]).config_id == rows@[k].config_id
                &&& r@[k].duration == rows@[k].duration
                &&& r@[k].description == rows@[k].name
                &&& r@[k].key == rows@[k].captcha_key
            },
{
    let mut r: Vec<Captcha> = Vec::with_capacity(rows.len());
    let mut k: usize = 0;
    while k < rows.len()
        invariant
            k <= rows.len(),
            r@ == rows@.take(k as int).map_values(|i: InternaleCaptchaConfig| spec_captcha_of(i)),
        decreases rows.len() - k,
    {
        let row = &rows[k];
        r.push(Captcha {
            config_id: row.config_id,
            duration: row.duration,
            description: row.name.clone(),
            key: row.captcha_key.clone(),
        });
        proof {
            assert(rows@.take(k + 1) =~= rows@.take(k as int).push(rows@[k as int]));
        }
        k = k + 1;
    }
    proof {
        assert(rows@.take(rows@.len() as int) =~= rows@);
    }
    r
}

// ---------------------------------------------------------------- levels

/// A level as the database stores it.
#[derive(Debug, Clone, Copy, PartialEq, Eq)]
pub struct I32Levels {
    pub difficulty_factor: i32,
    pub visitor_threshold: i32,
}

pub open spec fn spec_level_row(l: Level) -> I32Levels {
    I32Levels {
        difficulty_factor: l.difficulty_factor as i32,
        visitor_threshold: l.visitor_threshold as i32,
    }
}

pub open spec fn spec_level_of(row: I32Levels) -> Level {
    Level {
        difficulty_factor: row.difficulty_factor as u32,
        visitor_threshold: row.visitor_threshold as u32,
    }
}

/// The values that adding levels to a captcha binds, one pair per level, in
/// the order of the levels.
pub fn level_params(levels: &Vec<Level>) -> (r: Vec<I32Levels>)
    ensures
        r@ == levels@.map_values(|l: Level| spec_level_row(l)),
        r@.len() == levels@.len(),
        forall|k: int|
            0 <= k < levels@.len() ==> {
                &&& (#[trigger] r@[k]).difficulty_factor == levels@[k].difficulty_factor as i32
                &&& r@[k].visitor_threshold == levels@[k].visitor_threshold as i32
            },
{
    let mut r: Vec<I32Levels> = Vec::with_capacity(levels.len());
    let mut k: usize = 0;
    while k < levels.len()
        invariant
            k <= levels.len(),
            r@ == levels@.take(k as int).map_values(|l: Level| spec_level_row(l)),
        decreases levels.len() - k,
    {
        let l = levels[k];
        r.push(I32Levels {
            difficulty_factor: l.difficulty_factor as i32,
            visitor_threshold: l.visitor_threshold as i32,
        });
        proof {
            assert(levels@.take(k + 1) =~= levels@.take(k as int).push(levels@[k as int]));
        }
        k = k + 1;
    }
    proof {
        assert(levels@.take(levels@.len() as int) =~= levels@);
    }
    r
}

/// The levels of a captcha, read back from their rows in the order of the rows.
pub fn levels_from_rows(rows: &Vec<I32Levels>) -> (r: Vec<Level>)
    ensures
        r@ == rows@.map_values(|row: I32Levels| spec_level_of(row)),
        r@.len() == rows@.len(),
        forall|k: int|
            0 <= k < rows@.len() ==> {
                &&& (#[trigger] r@[k]).difficulty_factor == rows@[k].difficulty_factor as u32
                &&& r@[k].visitor_threshold == rows@[k].visitor_threshold as u32
            },
{
    let mut r: Vec<Level> = Vec::with_capacity(rows.len());
    let mut k: usize = 0;
    while k < rows.len()
        invariant
            k <= rows.len(),
            r@ == rows@.take(k as int).map_values(|row: I32Levels| spec_level_of(row)),
        decreases rows.len() - k,
    {
        let row = rows[k];
        r.push(Level {
            difficulty_factor: row.difficulty_factor as u32,
            visitor_threshold: row.visitor_threshold as u32,
        });
        proof {
            assert(rows@.take(k + 1) =~= rows@.take(k as int).push(rows@[k as int]));
        }
        k = k + 1;
    }
    proof {
        assert(rows@.take(rows@.len() as int) =~= rows@);
    }
    r
}

proof fn lemma_u32_i32_round_trip(x: u32)
    ensures
        ((x as i32) as u32) == x,
{
    assert(((x as i32) as u32) == x) by (bit_vector);
}

/// Levels read back after they were added are the levels that were added:
/// converting to database values and back loses nothing.
pub proof fn lemma_levels_round_trip(levels: Seq<Level>)
    ensures
        levels.map_values(|l: Level| spec_level_row(l)).map_values(
            |row: I32Levels| spec_level_of(row),
        ) =~= levels,
{
    assert forall|k: int| 0 <= k < levels.len() implies levels.map_values(
        |l: Level| spec_level_row(l),
    ).map_values(|row: I32Levels| spec_level_of(row))[k] == levels[k] by {
        lemma_u32_i32_round_trip(levels[k].difficulty_factor);
        lemma_u32_i32_round_trip(levels[k].visitor_threshold);
    }
}

// ---------------------------------------------------------------- traffic patterns

/// A traffic pattern as the database stores it.
#[derive(Debug, Clone, Copy, PartialEq, Eq)]
pub struct Traffic {
    pub peak_sustainable_traffic: i32,
    pub avg_traffic: i32,
    pub broke_my_site_traffic: Option<i32>,
}

pub open spec fn spec_opt_i32(v: Option<u32>) -> Option<i32> {
    match v {
        Some(x) => Some(x as i32),
        None => None,
    }
}

pub open spec fn spec_opt_u32(v: Option<i32>) -> Option<u32> {
    match v {
        Some(x) => Some(x as u32),
        None => None,
    }
}

pub open spec fn spec_traffic_row(p: TrafficPattern) -> Traffic {
    Traffic {
        peak_sustainable_traffic: p.peak_sustainable_traffic as i32,
        avg_traffic: p.avg_traffic as i32,
        broke_my_site_traffic: spec_opt_i32(p.broke_my_site_traffic),
    }
}

pub open spec fn spec_traffic_of(t: Traffic) -> TrafficPattern {
    TrafficPattern {
        broke_my_site_traffic: spec_opt_u32(t.broke_my_site_traffic),
        avg_traffic: t.avg_traffic as u32,
        peak_sustainable_traffic: t.peak_sustainable_traffic as u32,
    }
}

/// The values that storing a traffic pattern binds.
pub fn traffic_params(pattern: &TrafficPattern) -> (r: Traffic)
    ensures
        r == spec_traffic_row(*pattern),
        r.avg_traffic == pattern.avg_traffic as i32,
        r.peak_sustainable_traffic == pattern.peak_sustainable_traffic as i32,
        pattern.broke_my_site_traffic is None <==> r.broke_my_site_traffic is None,
        pattern.broke_my_site_traffic matches Some(b) ==> r.broke_my_site_traffic == Some(b as i32),
{
    Traffic {
        peak_sustainable_traffic: pattern.peak_sustainable_traffic as i32,
        avg_traffic: pattern.avg_traffic as i32,
        broke_my_site_traffic: match pattern.broke_my_site_traffic {
            Some(v) => Some(v as i32),
            None => None,
        },
    }
}

impl From<Traffic> for TrafficPattern {
    fn from(t: Traffic) -> (r: TrafficPattern)
        ensures
            r.avg_traffic == t.avg_traffic as u32,
            r.peak_sustainable_traffic == t.peak_sustainable_traffic as u32,
            t.broke_my_site_traffic is None <==> r.broke_my_site_traffic is None,
            t.broke_my_site_traffic matches Some(b) ==> r.broke_my_site_traffic == Some(b as u32),
    {
        TrafficPattern {
            broke_my_site_traffic: match t.broke_my_site_traffic {
                Some(v) => Some(v as u32),
                None => None,
            },
            avg_traffic: t.avg_traffic as u32,
            peak_sustainable_traffic: t.peak_sustainable_traffic as u32,
        }
    }
}

impl vstd::std_specs::convert::FromSpecImpl<Traffic> for TrafficPattern {
    open spec fn obeys_from_spec() -> bool {
        true
    }

    open spec fn from_spec(t: Traffic) -> TrafficPattern {
        spec_traffic_of(t)
    }
}

/// A traffic pattern read back after it was stored is the pattern that was
/// stored.
pub proof fn lemma_traffic_round_trip(pattern: TrafficPattern)
    ensures
        spec_traffic_of(spec_traffic_row(pattern)) == pattern,
{
    lemma_u32_i32_round_trip(pattern.avg_traffic);
    lemma_u32_i32_round_trip(pattern.peak_sustainable_traffic);
    if let Some(b) = pattern.broke_my_site_traffic {
        lemma_u32_i32_round_trip(b);
    }
}

/// The row of a captcha that was configured from a traffic pattern, joined
/// with its owner.
#[derive(Debug, Clone, PartialEq, Eq)]
pub struct InnerEasyCaptcha {
    pub captcha_key: String,
    pub name: String,
    pub username: String,
    pub peak_sustainable_traffic: i32,
    pub avg_traffic: i32,
    pub broke_my_site_traffic: Option<i32>,
}

pub open spec fn spec_easy_captcha_of(v: InnerEasyCaptcha) -> EasyCaptcha {
    EasyCaptcha {
        key: v.captcha_key,
        description: v.name,
        username: v.username,
        traffic_pattern: spec_traffic_of(
            Traffic {
                peak_sustainable_traffic: v.peak_sustainable_traffic,
                avg_traffic: v.avg_traffic,
                broke_my_site_traffic: v.broke_my_site_traffic,
            },
        ),
    }
}

/// All captchas configured from traffic patterns, in the order of their rows.
pub fn easy_captchas_from_rows(rows: &Vec<InnerEasyCaptcha>) -> (r: Vec<EasyCaptcha>)
    ensures
        r@ == rows@.map_values(|v: InnerEasyCaptcha| spec_easy_captcha_of(v)),
        r@.len() == rows@.len(),
        forall|k: int|
            0 <= k < rows@.len() ==> {
                &&& (#[trigger] r@[k]).key == rows@[k].captcha_key
                &&& r@[k].description == rows@[k].name
                &&& r@[k].username == rows@[k].username
                &&& r@[k].traffic_pattern.avg_traffic == rows@[k].avg_traffic as u32
                &&& r@[k].traffic_pattern.peak_sustainable_traffic
                    == rows@[k].peak_sustainable_traffic as u32
                &&& (rows@[k].broke_my_site_traffic is None
                    <==> r@[k].traffic_pattern.broke_my_site_traffic is None)
                &&& (rows@[k].broke_my_site_traffic matches Some(b)
                    ==> r@[k].traffic_pattern.broke_my_site_traffic == Some(b as u32))
            },
{
    let mut r: Vec<EasyCaptcha> = Vec::with_capacity(rows.len());
    let mut k: usize = 0;
    while k < rows.len()
        invariant
            k <= rows.len(),
            r@ == rows@.take(k as int).map_values(|v: InnerEasyCaptcha| spec_easy_captcha_of(v)),
        decreases rows.len() - k,
    {
        let v = &rows[k];
        let traffic = Traffic {
            peak_sustainable_traffic: v.peak_sustainable_traffic,
            avg_traffic: v.avg_traffic,
            broke_my_site_traffic: v.broke_my_site_traffic,
        };
        r.push(EasyCaptcha {
            key: v.captcha_key.clone(),
            description: v.name.clone(),
            username: v.username.clone(),
            traffic_pattern: TrafficPattern::from(traffic),
        });
        proof {
            assert(rows@.take(k + 1) =~= rows@.take(k as int).push(rows@[k as int]));
        }
        k = k + 1;
    }
    proof {
        assert(rows@.take(rows@.len() as int) =~= rows@);
    }
    r
}

// ---------------------------------------------------------------- notifications

/// The row of an unread notification, with the time it was received in unix
/// seconds.
#[derive(Debug, Clone, PartialEq, Eq)]
pub struct InnerNotification {
    /// receiver name of the notification
    pub name: String,
    /// heading of the notification
    pub heading: String,
    /// message of the notification
    pub message: String,
    /// when the notification was received, in unix seconds
    pub received: i64,
    /// database assigned ID of the notification
    pub id: i32,
}

pub open spec fn spec_notification_of(n: InnerNotification) -> Notification {
    Notification {
        name: Some(n.name),
        heading: Some(n.heading),
        message: Some(n.message),
        received: Some(n.received),
        id: Some(n.id),
    }
}

impl From<InnerNotification> for Notification {
    fn from(n: InnerNotification) -> (r: Notification)
        ensures
            r.name == Some(n.name),
            r.heading == Some(n.heading),
            r.message == Some(n.message),
            r.received == Some(n.received),
            r.id == Some(n.id),
    {
        Notification {
            name: Some(n.name),
            heading: Some(n.heading),
            message: Some(n.message),
            received: Some(n.received),
            id: Some(n.id),
        }
    }
}

impl vstd::std_specs::convert::FromSpecImpl<InnerNotification> for Notification {
    open spec fn obeys_from_spec() -> bool {
        true
    }

    open spec fn from_spec(n: InnerNotification) -> Notification {
        spec_notification_of(n)
    }
}

/// All unread notifications, in the order of their rows.
pub fn notifications_from_rows(rows: &Vec<InnerNotification>) -> (r: Vec<Notification>)
    ensures
        r@ == rows@.map_values(|n: InnerNotification| spec_notification_of(n)),
        r@.len() == rows@.len(),
        forall|k: int|
            0 <= k < rows@.len() ==> {
                &&& (#[trigger] r@[k]).name == Some(rows@[k].name)
                &&& r@[k].heading == Some(rows@[k].heading)
                &&& r@[k].message == Some(rows@[k].message)
                &&& r@[k].received == Some(rows@[k].received)
                &&& r@[k].id == Some(rows@[k].id)
            },
{
    let mut r: Vec<Notification> = Vec::with_capacity(rows.len());
    let mut k: usize = 0;
    while k < rows.len()
        invariant
            k <= rows.len(),
            r@ == rows@.take(k as int).map_values(|n: InnerNotification| spec_notification_of(n)),
        decreases rows.len() - k,
    {
        let n = &rows[k];
        r.push(Notification {
            name: Some(n.name.clone()),
            heading: Some(n.heading.clone()),
            message: Some(n.message.clone()),
            received: Some(n.received),
            id: Some(n.id),
        });
        proof {
            assert(rows@.take(k + 1) =~= rows@.take(k as int).push(rows@[k as int]));
        }
        k = k + 1;
    }
    proof {
        assert(rows@.take(rows@.len() as int) =~= rows@);
    }
    r
}

// ---------------------------------------------------------------- analytics

/// The values that saving the timing of a solved proof of work binds.
#[derive(Debug, Clone, PartialEq, Eq)]
pub struct AnalyticsInsert {
    pub time: i32,
    pub difficulty_factor: i32,
    pub worker_type: String,
}

pub open spec fn spec_analytics_insert(d: CreatePerformanceAnalytics) -> AnalyticsInsert {
    AnalyticsInsert {
        time: d.time as i32,
        difficulty_factor: d.difficulty_factor as i32,
        worker_type: d.worker_type,
    }
}

/// The values that `analysis_save` binds for `d`.
pub fn analytics_params(d: &CreatePerformanceAnalytics) -> (r: AnalyticsInsert)
    ensures
        r == spec_analytics_insert(*d),
        r.time == d.time as i32,
        r.difficulty_factor == d.difficulty_factor as i32,
        r.worker_type == d.worker_type,
{
    AnalyticsInsert {
        time: d.time as i32,
        difficulty_factor: d.difficulty_factor as i32,
        worker_type: d.worker_type.clone(),
    }
}

/// A row of saved timings.
#[derive(Debug, Clone, PartialEq, Eq)]
pub struct AnalyticsRow {
    pub id: i32,
    pub time: i32,
    pub difficulty_factor: i32,
    pub worker_type: String,
}

pub open spec fn spec_analytics_of(v: AnalyticsRow) -> PerformanceAnalytics {
    PerformanceAnalytics {
        id: v.id as usize,
        time: v.time as u32,
        difficulty_factor: v.difficulty_factor as u32,
        worker_type: v.worker_type,
    }
}

impl From<AnalyticsRow> for PerformanceAnalytics {
    fn from(v: AnalyticsRow) -> (r: PerformanceAnalytics)
        ensures
            r.id == v.id as usize,
            r.time == v.time as u32,
            r.difficulty_factor == v.difficulty_factor as u32,
            r.worker_type == v.worker_type,
    {
        PerformanceAnalytics {
            id: v.id as usize,
            time: v.time as u32,
            difficulty_factor: v.difficulty_factor as u32,
            worker_type: v.worker_type,
        }
    }
}

impl vstd::std_specs::convert::FromSpecImpl<AnalyticsRow> for PerformanceAnalytics {
    open spec fn obeys_from_spec() -> bool {
        true
    }

    open spec fn from_spec(v: AnalyticsRow) -> PerformanceAnalytics {
        spec_analytics_of(v)
    }
}

/// Saved timings of a captcha, in the order of their rows.
pub fn analytics_from_rows(rows: &Vec<AnalyticsRow>) -> (r: Vec<PerformanceAnalytics>)
    ensures
        r@ == rows@.map_values(|v: AnalyticsRow| spec_analytics_of(v)),
        r@.len() == rows@.len(),
        forall|k: int|
            0 <= k < rows@.len() ==> {
                &&& (#[trigger] r@[k]).id == rows@[k].id as usize
                &&& r@[k].time == rows@[k].time as u32
                &&& r@[k].difficulty_factor == rows@[k].difficulty_factor as u32
                &&& r@[k].worker_type == rows@[k].worker_type
            },
{
    let mut r: Vec<PerformanceAnalytics> = Vec::with_capacity(rows.len());
    let mut k: usize = 0;
    while k < rows.len()
        invariant
            k <= rows.len(),
            r@ == rows@.take(k as int).map_values(|v: AnalyticsRow| spec_analytics_of(v)),
        decreases rows.len() - k,
    {
        let v = &rows[k];
        r.push(PerformanceAnalytics {
            id: v.id as usize,
            time: v.time as u32,
            difficulty_factor: v.difficulty_factor as u32,
            worker_type: v.worker_type.clone(),
        });
        proof {
            assert(rows@.take(k + 1) =~= rows@.take(k as int).push(rows@[k as int]));
        }
        k = k + 1;
    }
    proof {
        assert(rows@.take(rows@.len() as int) =~= rows@);
    }
    r
}

/// A saved timing reads back with the time, difficulty factor and worker type
/// that were saved, whatever id the database gave it.
pub proof fn lemma_analytics_round_trip(d: CreatePerformanceAnalytics, id: i32)
    ensures
        ({
            let ins = spec_analytics_insert(d);
            let back = spec_analytics_of(
                AnalyticsRow {
                    id,
                    time: ins.time,
                    difficulty_factor: ins.difficulty_factor,
                    worker_type: ins.worker_type,
                },
            );
            &&& back.time == d.time
            &&& back.difficulty_factor == d.difficulty_factor
            &&& back.worker_type == d.worker_type
        }),
{
    lemma_u32_i32_round_trip(d.time);
    lemma_u32_i32_round_trip(d.difficulty_factor);
}

// ---------------------------------------------------------------- paging

/// The `LIMIT` and `OFFSET` that a paged query binds.
pub fn page_params(limit: usize, offset: usize) -> (r: (i64, i64))
    ensures
        r == (limit as i64, offset as i64),
{
    (limit as i64, offset as i64)
}

/// Number of pseudo IDs on one page.
pub const PSUEDO_ID_PAGE_LIMIT: usize = 50;

pub open spec fn spec_psuedo_id_offset(page: int) -> int {
    PSUEDO_ID_PAGE_LIMIT * page
}

/// The `LIMIT` and `OFFSET` that listing page `page` of the pseudo IDs binds.
pub fn psuedo_id_page_params(page: usize) -> (r: (i64, i64))
    requires
        spec_psuedo_id_offset(page as int) <= usize::MAX,
    ensures
        r.0 == PSUEDO_ID_PAGE_LIMIT,
        r.1 == (spec_psuedo_id_offset(page as int) as usize) as i64,
{
    let offset = PSUEDO_ID_PAGE_LIMIT * page;
    (PSUEDO_ID_PAGE_LIMIT as i64, offset as i64)
}

/// Pages of pseudo IDs follow each other: the next page starts where this
/// page's `LIMIT` rows end, so no ID is listed twice and none is skipped.
pub proof fn lemma_psuedo_id_pages_adjacent(page: int)
    requires
        0 <= page,
    ensures
        spec_psuedo_id_offset(page + 1) == spec_psuedo_id_offset(page) + PSUEDO_ID_PAGE_LIMIT,
        spec_psuedo_id_offset(0) == 0,
{
    assert(PSUEDO_ID_PAGE_LIMIT * (page + 1) == PSUEDO_ID_PAGE_LIMIT * page + PSUEDO_ID_PAGE_LIMIT)
        by (nonlinear_arith);
}

// ---------------------------------------------------------------- nonces

/// The values that raising the tracked nonce of a level binds: the new
/// nonce, and the difficulty factor that picks the level.
pub fn nonce_update_params(difficulty_factor: u32, latest_nonce: u32) -> (r: (i64, i64))
    ensures
        r.0 == latest_nonce,
        r.1 == difficulty_factor,
{
    (latest_nonce as i64, difficulty_factor as i64)
}

// ---------------------------------------------------------------- stats

/// Number of timings under a duration, from the count that the database gave
/// (none counts as zero).
pub fn log_count(count: Option<i64>) -> (r: usize)
    ensures
        r == (match count {
            Some(c) => c as usize,
            None => 0usize,
        }),
{
    match count {
        Some(c) => c as usize,
        None => 0,
    }
}

/// The `OFFSET` that reading the entry at 1-based `location` binds.
pub fn entry_offset(location: u32) -> (r: i64)
    ensures
        r == location - 1,
{
    location as i64 - 1
}

/// The entry at a location of the sorted timings: the difficulty factor of the
/// row found, none where no row is there, the error otherwise.
pub fn entry_from_lookup(found: Result<Option<i32>, QueryFailure>) -> (r: Result<Option<usize>, DBError>)
    requires
        found != Ok::<Option<i32>, QueryFailure>(None),
    ensures
        match found {
            Ok(Some(d)) => r == Ok::<Option<usize>, DBError>(Some(d as usize)),
            Ok(None) => false,
            Err(QueryFailure::RowNotFound) => r == Ok::<Option<usize>, DBError>(None),
            Err(QueryFailure::Other(e)) => r == Err::<Option<usize>, DBError>(e),
        },
{
    match found {
        Ok(Some(d)) => Ok(Some(d as usize)),
        Ok(None) => {
            proof {
                assert(false);
            }
            Ok(None)
        },
        Err(QueryFailure::RowNotFound) => Ok(None),
        Err(e) => Err(map_row_not_found_err(e, DBError::CaptchaNotFound)),
    }
}

// ---------------------------------------------------------------- laws across reads and writes

/// Listing the captchas configured from traffic patterns shows, for a captcha
/// whose pattern `p` was stored (by `traffic_params`), exactly `p`, the
/// optional broke-my-site traffic included; and it shows the key, name and
/// owner of the row.
pub proof fn lemma_listing_shows_stored_traffic(
    p: TrafficPattern,
    captcha_key: String,
    name: String,
    username: String,
)
    ensures
        ({
            let stored = spec_traffic_row(p);
            let listed = spec_easy_captcha_of(
                InnerEasyCaptcha {
                    captcha_key,
                    name,
                    username,
                    peak_sustainable_traffic: stored.peak_sustainable_traffic,
                    avg_traffic: stored.avg_traffic,
                    broke_my_site_traffic: stored.broke_my_site_traffic,
                },
            );
            &&& listed.traffic_pattern == p
            &&& listed.key == captcha_key
            &&& listed.description == name
            &&& listed.username == username
        }),
{
    lemma_traffic_round_trip(p);
}

/// Listing a captcha and reading its traffic pattern agree: both read the
/// same three columns the same way.
pub proof fn lemma_listing_agrees_with_traffic_read(v: InnerEasyCaptcha)
    ensures
        spec_easy_captcha_of(v).traffic_pattern.avg_traffic == v.avg_traffic as u32,
        spec_easy_captcha_of(v).traffic_pattern.peak_sustainable_traffic
            == v.peak_sustainable_traffic as u32,
        v.broke_my_site_traffic is None <==> spec_easy_captcha_of(v).traffic_pattern.broke_my_site_traffic is None,
        v.broke_my_site_traffic matches Some(b) ==> spec_easy_captcha_of(v).traffic_pattern.broke_my_site_traffic
            == Some(b as u32),
{
}

/// Reading a captcha keeps every stored column: its id, its cooldown, its
/// name (as description) and its key. So a captcha created with cooldown `d`
/// (stored as `duration_param(d)`) reads back with `d as i32`, which the
/// sitekey page shows as `d`.
pub proof fn lemma_captcha_read_keeps_columns(i: InternaleCaptchaConfig, d: u32)
    ensures
        spec_captcha_of(i).config_id == i.config_id,
        spec_captcha_of(i).duration == i.duration,
        spec_captcha_of(i).description == i.name,
        spec_captcha_of(i).key == i.captcha_key,
        i.duration == d as i32 ==> spec_captcha_of(i).duration == d as i32 && (spec_captcha_of(
            i,
        ).duration as u32) == d,
{
    lemma_u32_i32_round_trip(d);
}

/// A listed notification carries the database id of its row (the id that
/// marking it read takes), its sender, heading, message and time, all present.
pub proof fn lemma_notification_keeps_row(n: InnerNotification)
    ensures
        spec_notification_of(n).id == Some(n.id),
        spec_notification_of(n).name == Some(n.name),
        spec_notification_of(n).heading == Some(n.heading),
        spec_notification_of(n).message == Some(n.message),
        spec_notification_of(n).received == Some(n.received),
{
}

} // verus!
